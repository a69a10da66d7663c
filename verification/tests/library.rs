use ov_cli::command::{
    effective_write_mode, exit_code, resolve_command, CompileCommand, Failure, GlobArgs,
    HandlerCall, RetrievalArgs, WriteArgs,
};
use ov_cli::config::{runtime_config, OPENVIKING_COMPILE_URL};
use ov_cli::error::Error;
use ov_cli::headers::HeaderTable;
use ov_cli::output::{OutputArg, OutputFormat};
use ov_cli::plan::plan_run;
use ov_cli::report::{compile_error_report, display_command, error_document, ErrorReport, JsonDoc};

fn config_message(error: &Error) -> String {
    match error {
        Error::Config(message) => message.clone(),
        other => panic!("expected a configuration error, got {:?}", other),
    }
}

fn retrieval_args() -> RetrievalArgs {
    RetrievalArgs {
        query: Some("how to deploy".to_string()),
        image: None,
        uri: String::new(),
        node_limit: 10,
        after: None,
        before: Some("2024-01-01".to_string()),
        level: Some(vec![0, 2]),
        context_type: None,
        tags: Some(vec!["ops".to_string()]),
    }
}

fn write_args(mode: Option<&str>, append: bool) -> WriteArgs {
    WriteArgs {
        uri: "viking://resources/a.md".to_string(),
        content: Some("hello".to_string()),
        from_file: None,
        append,
        mode: mode.map(str::to_string),
        wait: true,
        processing_mode: "vectors_only".to_string(),
    }
}

#[test]
fn output_arg_selects_the_same_format() {
    assert_eq!(OutputFormat::from(OutputArg::Table), OutputFormat::Table);
    assert_eq!(OutputFormat::from(OutputArg::Json), OutputFormat::Json);
}

#[test]
fn key_loses_unicode_whitespace_at_both_ends_only() {
    let config = runtime_config(Some(" \t\u{3000}a b\u{a0}\n".to_string())).expect("key present");
    assert_eq!(
        config.extra_headers.as_ref().unwrap().get("authorization").map(String::as_str),
        Some("Bearer a b")
    );
    let error = runtime_config(Some("\u{2003}\u{85}\r".to_string())).expect_err("only whitespace");
    assert_eq!(
        config_message(&error),
        "OPENVIKING_API_KEY is required. Export it before running ov."
    );
}

#[test]
fn missing_key_message_is_exact() {
    let error = runtime_config(None).expect_err("no key");
    assert_eq!(
        config_message(&error),
        "OPENVIKING_API_KEY is required. Export it before running ov."
    );
    assert_eq!(error.code(), "CONFIG_ERROR");
    assert_eq!(
        error.to_string(),
        "Configuration error: OPENVIKING_API_KEY is required. Export it before running ov."
    );
}

#[test]
fn invalid_key_message_is_exact() {
    let error = runtime_config(Some("a\u{7f}b".to_string())).expect_err("delete is refused");
    assert_eq!(config_message(&error), "OPENVIKING_API_KEY is not a valid API key");
}

#[test]
fn key_with_tab_or_non_ascii_text_is_accepted_unchanged() {
    let config = runtime_config(Some("a\tb".to_string())).expect("tab is a valid header byte");
    assert_eq!(
        config.extra_headers.as_ref().unwrap().get("authorization").map(String::as_str),
        Some("Bearer a\tb")
    );
    let config = runtime_config(Some("clé".to_string())).expect("bytes above ASCII are valid");
    assert_eq!(
        config.extra_headers.as_ref().unwrap().get("authorization").map(String::as_str),
        Some("Bearer clé")
    );
}

#[test]
fn key_and_its_trimmed_form_give_the_same_configuration() {
    let a = runtime_config(Some("\n key \t".to_string())).unwrap();
    let b = runtime_config(Some("key".to_string())).unwrap();
    assert_eq!(a.url, b.url);
    assert_eq!(
        a.extra_headers.as_ref().unwrap().to_pairs(),
        b.extra_headers.as_ref().unwrap().to_pairs()
    );
    assert_eq!(a.url, OPENVIKING_COMPILE_URL);
}

#[test]
fn configuration_has_only_the_authorization_header() {
    let config = runtime_config(Some("k".to_string())).unwrap();
    let headers = config.extra_headers.as_ref().unwrap();
    assert!(headers.contains_key("authorization"));
    assert!(!headers.contains_key("X-API-Key"));
    assert!(!headers.contains_key("Authorization"));
    assert!(config.actor_peer_id.is_none());
}

#[test]
fn header_table_reads_back_the_last_value_set() {
    let mut table = HeaderTable::new();
    assert!(table.get("a").is_none());
    table.insert("a".to_string(), "1".to_string());
    table.insert("b".to_string(), "2".to_string());
    table.insert("a".to_string(), "3".to_string());
    assert_eq!(table.get("a").map(String::as_str), Some("3"));
    assert_eq!(table.get("b").map(String::as_str), Some("2"));
    assert!(!table.contains_key("c"));
}

#[test]
fn write_mode_prefers_explicit_mode_then_append_then_replace() {
    assert_eq!(effective_write_mode(Some("create".to_string()), false), "create");
    assert_eq!(effective_write_mode(Some("create".to_string()), true), "create");
    assert_eq!(effective_write_mode(None, true), "append");
    assert_eq!(effective_write_mode(None, false), "replace");
}

#[test]
fn write_command_resolves_with_its_effective_mode() {
    match resolve_command(CompileCommand::Write(write_args(None, true))) {
        HandlerCall::Write { uri, content, from_file, mode, wait, processing_mode } => {
            assert_eq!(uri, "viking://resources/a.md");
            assert_eq!(content.as_deref(), Some("hello"));
            assert!(from_file.is_none());
            assert_eq!(mode, "append");
            assert!(wait);
            assert_eq!(processing_mode, "vectors_only");
        }
        _ => panic!("expected a write call"),
    }
    match resolve_command(CompileCommand::Write(write_args(Some("create"), false))) {
        HandlerCall::Write { mode, .. } => assert_eq!(mode, "create"),
        _ => panic!("expected a write call"),
    }
}

#[test]
fn retrieval_commands_never_inline_content() {
    match resolve_command(CompileCommand::Find(retrieval_args())) {
        HandlerCall::Find { args, include_content } => {
            assert!(!include_content);
            assert_eq!(args.query.as_deref(), Some("how to deploy"));
            assert_eq!(args.level, Some(vec![0, 2]));
            assert_eq!(args.node_limit, 10);
        }
        _ => panic!("expected a find call"),
    }
    let search = CompileCommand::Search {
        args: retrieval_args(),
        session_id: Some("s-1".to_string()),
    };
    match resolve_command(search) {
        HandlerCall::Search { args, session_id, include_content } => {
            assert!(!include_content);
            assert_eq!(session_id.as_deref(), Some("s-1"));
            assert_eq!(args.tags, Some(vec!["ops".to_string()]));
        }
        _ => panic!("expected a search call"),
    }
}

#[test]
fn other_commands_pass_their_options_through() {
    let glob = CompileCommand::Glob(GlobArgs {
        pattern: "**/*.md".to_string(),
        uri: "viking://".to_string(),
        node_limit: 256,
    });
    match resolve_command(glob) {
        HandlerCall::Glob(args) => {
            assert_eq!(args.pattern, "**/*.md");
            assert_eq!(args.uri, "viking://");
            assert_eq!(args.node_limit, 256);
        }
        _ => panic!("expected a glob call"),
    }
    match resolve_command(CompileCommand::Read { uri: "viking://a".to_string() }) {
        HandlerCall::Read { uri } => assert_eq!(uri, "viking://a"),
        _ => panic!("expected a read call"),
    }
}

#[test]
fn failures_exit_with_their_status() {
    assert_eq!(exit_code(Failure::Configuration), 2);
    assert_eq!(exit_code(Failure::Command), 1);
}

#[test]
fn refused_key_plans_no_command() {
    let plan = plan_run(CompileCommand::Read { uri: "viking://a".to_string() }, Some(" ".to_string()));
    match plan {
        Err(error) => assert_eq!(
            config_message(&error),
            "OPENVIKING_API_KEY is required. Export it before running ov."
        ),
        Ok(_) => panic!("a blank key must be refused"),
    }
}

#[test]
fn accepted_key_plans_the_command() {
    let plan = plan_run(CompileCommand::Write(write_args(None, false)), Some("k".to_string()))
        .expect("key accepted");
    assert_eq!(plan.config.url, OPENVIKING_COMPILE_URL);
    match plan.call {
        HandlerCall::Write { mode, .. } => assert_eq!(mode, "replace"),
        _ => panic!("expected a write call"),
    }
}

#[test]
fn text_report_of_a_configuration_error_adds_the_key_hint() {
    let error = Error::Config("OPENVIKING_API_KEY is required. Export it before running ov.".to_string());
    match compile_error_report("ov read viking://a", &error, OutputFormat::Table, true) {
        ErrorReport::Text { text, hint } => {
            assert_eq!(
                text,
                "ov read viking://a\n\nError [CONFIG_ERROR]: Configuration error: OPENVIKING_API_KEY is required. Export it before running ov."
            );
            assert_eq!(
                hint.as_deref(),
                Some("\nSet the key with: export OPENVIKING_API_KEY=\"<your-api-key>\"")
            );
        }
        _ => panic!("expected a text report"),
    }
}

#[test]
fn text_report_of_a_service_error_shows_its_own_message() {
    let error = Error::Api {
        code: "NOT_FOUND".to_string(),
        message: "no such file".to_string(),
        details: None,
    };
    match compile_error_report("ov read x", &error, OutputFormat::Table, false) {
        ErrorReport::Text { text, hint } => {
            assert_eq!(text, "ov read x\n\nError [NOT_FOUND]: no such file");
            assert!(hint.is_none());
        }
        _ => panic!("expected a text report"),
    }
}

fn text_of(doc: &JsonDoc<'_>) -> String {
    match doc {
        JsonDoc::Text(t) => t.clone(),
        _ => panic!("expected a string"),
    }
}

/// The members of the `error` object of an error document, after checking
/// the outer `{"ok": false, "error": ...}`.
fn error_body<'a, 'b>(doc: &'b JsonDoc<'a>) -> &'b Vec<(String, JsonDoc<'a>)> {
    match doc {
        JsonDoc::Object(top) => {
            assert_eq!(top.len(), 2);
            assert_eq!(top[0].0, "ok");
            assert!(matches!(top[0].1, JsonDoc::Bool(false)));
            assert_eq!(top[1].0, "error");
            match &top[1].1 {
                JsonDoc::Object(body) => body,
                _ => panic!("expected the error object"),
            }
        }
        _ => panic!("expected an object"),
    }
}

#[test]
fn json_report_carries_code_message_and_details() {
    let error = Error::Api {
        code: "INVALID".to_string(),
        message: "bad uri".to_string(),
        details: Some(serde_json::Value::String("uri".to_string())),
    };
    match compile_error_report("ov read x", &error, OutputFormat::Json, true) {
        ErrorReport::Json { document, compact } => {
            assert!(compact);
            let body = error_body(&document);
            assert_eq!(body.len(), 3);
            assert_eq!(body[0].0, "code");
            assert_eq!(text_of(&body[0].1), "INVALID");
            assert_eq!(body[1].0, "message");
            assert_eq!(text_of(&body[1].1), "bad uri");
            assert_eq!(body[2].0, "details");
            match &body[2].1 {
                JsonDoc::Embedded(d) => {
                    assert_eq!(**d, serde_json::Value::String("uri".to_string()))
                }
                _ => panic!("expected embedded details"),
            }
        }
        _ => panic!("expected a JSON report"),
    }
    let network = Error::Network("connection refused".to_string());
    match compile_error_report("ov ls", &network, OutputFormat::Json, false) {
        ErrorReport::Json { document, compact } => {
            assert!(!compact);
            let body = error_body(&document);
            assert_eq!(body.len(), 2);
            assert_eq!(text_of(&body[0].1), "NETWORK_ERROR");
            assert_eq!(text_of(&body[1].1), "Network error: connection refused");
        }
        _ => panic!("expected a JSON report"),
    }
}

#[test]
fn configuration_error_document_has_no_details() {
    let error = runtime_config(None).expect_err("no key");
    let document = error_document(&error);
    let body = error_body(&document);
    assert_eq!(body.len(), 2);
    assert_eq!(body[0].0, "code");
    assert_eq!(text_of(&body[0].1), "CONFIG_ERROR");
    assert_eq!(body[1].0, "message");
    assert_eq!(
        text_of(&body[1].1),
        "Configuration error: OPENVIKING_API_KEY is required. Export it before running ov."
    );
}

#[test]
fn command_line_is_shown_with_single_spaces() {
    let words: Vec<String> = ["ov", "read", "viking://a"].iter().map(|w| w.to_string()).collect();
    assert_eq!(display_command(&words), "ov read viking://a");
    assert_eq!(display_command(&vec!["ov".to_string()]), "ov");
    assert_eq!(display_command(&Vec::new()), "");
}

#[test]
fn header_pairs_come_out_in_the_order_set() {
    let mut table = HeaderTable::new();
    table.insert("b".to_string(), "1".to_string());
    table.insert("a".to_string(), "2".to_string());
    table.insert("b".to_string(), "3".to_string());
    assert_eq!(
        table.to_pairs(),
        vec![
            ("b".to_string(), "1".to_string()),
            ("a".to_string(), "2".to_string()),
            ("b".to_string(), "3".to_string()),
        ]
    );
}
