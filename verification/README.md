# ov_cli

The verified core of the restricted `ov` client, a command-line tool that
offers retrieval commands and text-content writes against one fixed
OpenViking endpoint.

- `src/` is the library, verified with Verus:
  - `config.rs` builds the runtime configuration from the API key (trimmed,
    required, sent as `authorization: Bearer <key>` to the fixed endpoint);
  - `command.rs` holds the commands and resolves each to its handler call;
  - `plan.rs` settles configuration and handler call for one run;
  - `report.rs` decides what is printed for an error, as text or JSON;
  - `error.rs`, `output.rs`, `headers.rs`, `text.rs` hold the error type, the
    output formats, the header table and whitespace trimming.
- `app/` is the front end: the clap command-line grammar, the environment,
  the handler calls and standard-error output.
- `tests/` runs the library.
