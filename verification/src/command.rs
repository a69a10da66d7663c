//! The commands of the restricted client and the handler call each one
//! resolves to.

use vstd::prelude::*;

verus! {

/// Options of `write`.
pub struct WriteArgs {
    pub uri: String,
    pub content: Option<String>,
    pub from_file: Option<String>,
    pub append: bool,
    pub mode: Option<String>,
    pub wait: bool,
    pub processing_mode: String,
}

/// Options of `grep`.
pub struct GrepArgs {
    pub uri: String,
    pub exclude_uri: Option<String>,
    pub pattern: String,
    pub ignore_case: bool,
    pub node_limit: i32,
    pub level_limit: i32,
}

/// Options of `glob`.
pub struct GlobArgs {
    pub pattern: String,
    pub uri: String,
    pub node_limit: i32,
}

/// Options of `ls`.
pub struct LsArgs {
    pub uri: String,
    pub simple: bool,
    pub recursive: bool,
    pub abs_limit: i32,
    pub all: bool,
    pub node_limit: i32,
}

/// Options of `tree`.
pub struct TreeArgs {
    pub uri: String,
    pub abs_limit: i32,
    pub all: bool,
    pub node_limit: i32,
    pub level_limit: i32,
}

/// Options shared by the retrieval commands `find` and `search`.
pub struct RetrievalArgs {
    pub query: Option<String>,
    pub image: Option<String>,
    pub uri: String,
    pub node_limit: i32,
    pub after: Option<String>,
    pub before: Option<String>,
    pub level: Option<Vec<i32>>,
    pub context_type: Option<Vec<String>>,
    pub tags: Option<Vec<String>>,
}

/// A command of the restricted client: retrieval and text-content writes only.
pub enum CompileCommand {
    Read { uri: String },
    Write(WriteArgs),
    Grep(GrepArgs),
    Glob(GlobArgs),
    Ls(LsArgs),
    Tree(TreeArgs),
    Find(RetrievalArgs),
    Search { args: RetrievalArgs, session_id: Option<String> },
}

/// The handler invocation that carries out a command.
pub enum HandlerCall {
    Read { uri: String },
    Write {
        uri: String,
        content: Option<String>,
        from_file: Option<String>,
        mode: String,
        wait: bool,
        processing_mode: String,
    },
    Grep(GrepArgs),
    Glob(GlobArgs),
    Ls(LsArgs),
    Tree(TreeArgs),
    Find { args: RetrievalArgs, include_content: bool },
    Search { args: RetrievalArgs, session_id: Option<String>, include_content: bool },
}

/// The write mode in effect: the explicit mode if one was given, else
/// `append` when appending was asked for, else `replace`.
pub open spec fn effective_mode(mode: Option<String>, append: bool) -> Seq<char> {
    match mode {
        Some(m) => m@,
        None => if append {
            "append"@
        } else {
            "replace"@
        },
    }
}

/// Resolves the write mode of `write`.
pub fn effective_write_mode(mode: Option<String>, append: bool) -> (r: String)
    ensures
        r@ == effective_mode(mode, append),
{
    match mode {
        Some(m) => m,
        None => if append {
            String::from_str("append")
        } else {
            String::from_str("replace")
        },
    }
}

/// Whether `call` is the handler invocation for `command`: every option is
/// handed on as given, `write` gets its effective mode, and the retrieval
/// commands never inline matched content.
pub open spec fn resolves_to(command: CompileCommand, call: HandlerCall) -> bool {
    match command {
        CompileCommand::Read { uri } => call == HandlerCall::Read { uri },
        CompileCommand::Write(w) => call matches HandlerCall::Write {
            uri,
            content,
            from_file,
            mode,
            wait,
            processing_mode,
        } && uri == w.uri && content == w.content && from_file == w.from_file && mode@
            == effective_mode(w.mode, w.append) && wait == w.wait && processing_mode
            == w.processing_mode,
        CompileCommand::Grep(a) => call == HandlerCall::Grep(a),
        CompileCommand::Glob(a) => call == HandlerCall::Glob(a),
        CompileCommand::Ls(a) => call == HandlerCall::Ls(a),
        CompileCommand::Tree(a) => call == HandlerCall::Tree(a),
        CompileCommand::Find(a) => call == HandlerCall::Find { args: a, include_content: false },
        CompileCommand::Search { args, session_id } => call == HandlerCall::Search {
            args,
            session_id,
            include_content: false,
        },
    }
}

/// The handler invocation that carries out `command`.
pub fn resolve_command(command: CompileCommand) -> (call: HandlerCall)
    ensures
        resolves_to(command, call),
{
    match command {
        CompileCommand::Read { uri } => HandlerCall::Read { uri },
        CompileCommand::Write(w) => {
            let mode = effective_write_mode(w.mode, w.append);
            HandlerCall::Write {
                uri: w.uri,
                content: w.content,
                from_file: w.from_file,
                mode,
                wait: w.wait,
                processing_mode: w.processing_mode,
            }
        },
        CompileCommand::Grep(a) => HandlerCall::Grep(a),
        CompileCommand::Glob(a) => HandlerCall::Glob(a),
        CompileCommand::Ls(a) => HandlerCall::Ls(a),
        CompileCommand::Tree(a) => HandlerCall::Tree(a),
        CompileCommand::Find(a) => HandlerCall::Find { args: a, include_content: false },
        CompileCommand::Search { args, session_id } => HandlerCall::Search {
            args,
            session_id,
            include_content: false,
        },
    }
}

/// Why a run of the client stopped early.
#[derive(Debug, Clone, Copy, PartialEq, Eq, Structural)]
pub enum Failure {
    /// The runtime configuration could not be built.
    Configuration,
    /// The command itself failed.
    Command,
}

/// The process exit status for a failure.
pub open spec fn failure_exit_code(f: Failure) -> i32 {
    match f {
        Failure::Configuration => 2,
        Failure::Command => 1,
    }
}

/// The process exit status for a failure: 2 for configuration, 1 for a
/// failed command.
pub fn exit_code(failure: Failure) -> (code: i32)
    ensures
        code == failure_exit_code(failure),
{
    match failure {
        Failure::Configuration => 2,
        Failure::Command => 1,
    }
}

} // verus!

verus! {

/// `write` hands its URI, content, file, wait flag and processing mode to the
/// handler unchanged, with the explicit mode if one was given, else `append`
/// when appending was asked for, else `replace`.
pub proof fn law_write_passes_its_options_through(w: WriteArgs, call: HandlerCall)
    requires
        resolves_to(CompileCommand::Write(w), call),
    ensures
        call matches HandlerCall::Write { uri, content, from_file, mode, wait, processing_mode } && {
            &&& uri == w.uri
            &&& content == w.content
            &&& from_file == w.from_file
            &&& wait == w.wait
            &&& processing_mode == w.processing_mode
            &&& w.mode matches Some(m) ==> mode@ == m@
            &&& w.mode is None && w.append ==> mode@ == "append"@
            &&& w.mode is None && !w.append ==> mode@ == "replace"@
        },
{
}

/// `read`, `grep`, `glob`, `ls` and `tree` hand every option to their handler
/// unchanged, field by field.
pub proof fn law_listing_commands_pass_their_options_through(command: CompileCommand, call: HandlerCall)
    requires
        resolves_to(command, call),
    ensures
        command matches CompileCommand::Read { uri: u } ==> call matches HandlerCall::Read { uri }
            && uri == u,
        command matches CompileCommand::Grep(a) ==> call matches HandlerCall::Grep(b) && {
            &&& b.uri == a.uri
            &&& b.exclude_uri == a.exclude_uri
            &&& b.pattern == a.pattern
            &&& b.ignore_case == a.ignore_case
            &&& b.node_limit == a.node_limit
            &&& b.level_limit == a.level_limit
        },
        command matches CompileCommand::Glob(a) ==> call matches HandlerCall::Glob(b) && {
            &&& b.pattern == a.pattern
            &&& b.uri == a.uri
            &&& b.node_limit == a.node_limit
        },
        command matches CompileCommand::Ls(a) ==> call matches HandlerCall::Ls(b) && {
            &&& b.uri == a.uri
            &&& b.simple == a.simple
            &&& b.recursive == a.recursive
            &&& b.abs_limit == a.abs_limit
            &&& b.all == a.all
            &&& b.node_limit == a.node_limit
        },
        command matches CompileCommand::Tree(a) ==> call matches HandlerCall::Tree(b) && {
            &&& b.uri == a.uri
            &&& b.abs_limit == a.abs_limit
            &&& b.all == a.all
            &&& b.node_limit == a.node_limit
            &&& b.level_limit == a.level_limit
        },
{
}

/// `find` and `search` hand every option to their handler unchanged, field
/// by field, and never ask for matched content to be inlined.
pub proof fn law_retrieval_passes_its_options_through(command: CompileCommand, call: HandlerCall)
    requires
        resolves_to(command, call),
    ensures
        command matches CompileCommand::Find(a) ==> call matches HandlerCall::Find {
            args: b,
            include_content,
        } && {
            &&& !include_content
            &&& b.query == a.query
            &&& b.image == a.image
            &&& b.uri == a.uri
            &&& b.node_limit == a.node_limit
            &&& b.after == a.after
            &&& b.before == a.before
            &&& b.level == a.level
            &&& b.context_type == a.context_type
            &&& b.tags == a.tags
        },
        command matches CompileCommand::Search { args: a, session_id: s } ==> call matches HandlerCall::Search {
            args: b,
            session_id,
            include_content,
        } && {
            &&& !include_content
            &&& session_id == s
            &&& b.query == a.query
            &&& b.image == a.image
            &&& b.uri == a.uri
            &&& b.node_limit == a.node_limit
            &&& b.after == a.after
            &&& b.before == a.before
            &&& b.level == a.level
            &&& b.context_type == a.context_type
            &&& b.tags == a.tags
        },
{
}

} // verus!

verus! {

/// A run that fails exits with a failure status, and a configuration failure
/// is told apart from a failed command: 2 and 1.
pub proof fn law_failures_have_distinct_statuses(f: Failure)
    ensures
        failure_exit_code(f) != 0,
        failure_exit_code(Failure::Configuration) != failure_exit_code(Failure::Command),
        failure_exit_code(Failure::Configuration) == 2,
        failure_exit_code(Failure::Command) == 1,
{
}

} // verus!
