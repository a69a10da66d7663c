//! Output formats: the value given on the command line and the format the
//! client renders with.

use vstd::prelude::*;

verus! {

/// The `--output` choice on the command line.
#[derive(Debug, Clone, Copy, PartialEq, Eq, Structural)]
pub enum OutputArg {
    Table,
    Json,
}

/// The rendering format: human-readable tables or machine-readable JSON.
#[derive(Debug, Clone, Copy, PartialEq, Eq, Structural)]
pub enum OutputFormat {
    Table,
    Json,
}

/// The format that a command-line choice selects.
pub open spec fn format_of(value: OutputArg) -> OutputFormat {
    match value {
        OutputArg::Table => OutputFormat::Table,
        OutputArg::Json => OutputFormat::Json,
    }
}

impl From<OutputArg> for OutputFormat {
    fn from(value: OutputArg) -> (r: Self) {
        match value {
            OutputArg::Table => OutputFormat::Table,
            OutputArg::Json => OutputFormat::Json,
        }
    }
}

impl vstd::std_specs::convert::FromSpecImpl<OutputArg> for OutputFormat {
    open spec fn obeys_from_spec() -> bool {
        true
    }

    open spec fn from_spec(v: OutputArg) -> Self {
        format_of(v)
    }
}

} // verus!
