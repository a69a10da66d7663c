//! What the client prints when a command or its configuration fails.

use vstd::prelude::*;
use crate::config::OPENVIKING_API_KEY_ENV;
use crate::error::{Error, error_code, error_text};
use crate::output::OutputFormat;

verus! {

/// A JSON document: booleans, strings, objects given as their members in
/// order, and documents that are embedded as they are.
pub enum JsonDoc<'a> {
    Bool(bool),
    Text(String),
    Object(Vec<(String, JsonDoc<'a>)>),
    Embedded(&'a serde_json::Value),
}

/// What is printed for an error, before it goes to standard error.
pub enum ErrorReport<'a> {
    /// A JSON document, printed compact or pretty.
    Json { document: JsonDoc<'a>, compact: bool },
    /// The failed command line and the error, then, for a configuration error,
    /// a hint on setting the key; each printed as a line of its own.
    Text { text: String, hint: Option<String> },
}

/// The message shown for an error: the service's own message for a service
/// error, else the error's text.
pub open spec fn report_message(e: &Error) -> Seq<char> {
    match e {
        Error::Api { message, .. } => message@,
        _ => error_text(e),
    }
}

/// The line shown in text output.
pub open spec fn report_text(command: Seq<char>, e: &Error) -> Seq<char> {
    command + "\n\nError ["@ + error_code(e) + "]: "@ + report_message(e)
}

/// The hint on setting the API key.
pub open spec fn key_hint() -> Seq<char> {
    "\nSet the key with: export "@ + OPENVIKING_API_KEY_ENV@ + "=\"<your-api-key>\""@
}

/// The details attached to a service error, if any.
pub open spec fn report_details<'a>(e: &'a Error) -> Option<&'a serde_json::Value> {
    match e {
        Error::Api { details: Some(d), .. } => Some(d),
        _ => None,
    }
}

/// Whether an object member has the name `key` and the string `value`.
pub open spec fn text_member(member: (String, JsonDoc), key: Seq<char>, value: Seq<char>) -> bool {
    &&& member.0@ == key
    &&& member.1 matches JsonDoc::Text(t)
    &&& t@ == value
}

/// Whether `body` is the error object for `e`: its code, its message and,
/// only when the error carries them, its details; no other member.
pub open spec fn is_error_body<'a>(body: Seq<(String, JsonDoc<'a>)>, e: &'a Error) -> bool {
    &&& body.len() == if report_details(e) is Some { 3int } else { 2int }
    &&& text_member(body[0], "code"@, error_code(e))
    &&& text_member(body[1], "message"@, report_message(e))
    &&& report_details(e) matches Some(d) ==> {
        &&& body[2].0@ == "details"@
        &&& body[2].1 == JsonDoc::Embedded(d)
    }
}

/// Whether `doc` is the JSON report of `e`: `{"ok": false, "error": body}`
/// with the error object as `body`, and no other member.
pub open spec fn is_error_document<'a>(doc: JsonDoc<'a>, e: &'a Error) -> bool {
    &&& doc matches JsonDoc::Object(top)
    &&& top@.len() == 2
    &&& top@[0].0@ == "ok"@
    &&& top@[0].1 == JsonDoc::<'a>::Bool(false)
    &&& top@[1].0@ == "error"@
    &&& top@[1].1 matches JsonDoc::Object(body)
    &&& is_error_body(body@, e)
}

fn message_of(error: &Error) -> (m: String)
    ensures
        m@ == report_message(error),
{
    match error {
        Error::Api { message, .. } => message.clone(),
        _ => error.to_string(),
    }
}

fn text_doc<'a>(key: &str, value: String) -> (r: (String, JsonDoc<'a>))
    ensures
        text_member(r, key@, value@),
{
    (String::from_str(key), JsonDoc::Text(value))
}

/// The JSON report of `error`.
pub fn error_document<'a>(error: &'a Error) -> (doc: JsonDoc<'a>)
    ensures
        is_error_document(doc, error),
{
    let mut body: Vec<(String, JsonDoc<'a>)> = Vec::new();
    body.push(text_doc("code", error.code()));
    body.push(text_doc("message", message_of(error)));
    match error {
        Error::Api { details: Some(d), .. } => {
            body.push((String::from_str("details"), JsonDoc::Embedded(d)));
        },
        _ => {},
    }
    let mut top: Vec<(String, JsonDoc<'a>)> = Vec::new();
    top.push((String::from_str("ok"), JsonDoc::Bool(false)));
    top.push((String::from_str("error"), JsonDoc::Object(body)));
    JsonDoc::Object(top)
}

/// Decides what to print for `error` raised while running `command`.
pub fn compile_error_report<'a>(
    command: &str,
    error: &'a Error,
    output_format: OutputFormat,
    compact: bool,
) -> (r: ErrorReport<'a>)
    ensures
        output_format == OutputFormat::Json <==> r is Json,
        r matches ErrorReport::Json { document, compact: c } ==> {
            &&& is_error_document(document, error)
            &&& c == compact
        },
        r matches ErrorReport::Text { text, hint } ==> {
            &&& text@ == report_text(command@, error)
            &&& hint is Some <==> error is Config
            &&& hint matches Some(h) ==> h@ == key_hint()
        },
{
    match output_format {
        OutputFormat::Json => ErrorReport::Json { document: error_document(error), compact },
        OutputFormat::Table => {
            let mut text = String::from_str(command);
            text.append("\n\nError [");
            let code = error.code();
            text.append(code.as_str());
            text.append("]: ");
            let message = message_of(error);
            text.append(message.as_str());
            let hint = match error {
                Error::Config(_) => {
                    let mut h = String::from_str("\nSet the key with: export ");
                    h.append(OPENVIKING_API_KEY_ENV);
                    h.append("=\"<your-api-key>\"");
                    Some(h)
                },
                _ => None,
            };
            ErrorReport::Text { text, hint }
        },
    }
}

/// The words of a command line joined by single spaces.
pub open spec fn joined_words(words: Seq<Seq<char>>) -> Seq<char>
    decreases words.len(),
{
    if words.len() == 0 {
        Seq::empty()
    } else if words.len() == 1 {
        words[0]
    } else {
        joined_words(words.drop_last()) + " "@ + words.last()
    }
}

/// The command line as it is shown above an error: its words joined by
/// single spaces.
pub fn display_command(args: &Vec<String>) -> (r: String)
    ensures
        r@ == joined_words(args@.map_values(|a: String| a@)),
{
    let ghost words = args@.map_values(|a: String| a@);
    let mut r = String::new();
    let n = args.len();
    for i in 0..n
        invariant
            n == args@.len(),
            words == args@.map_values(|a: String| a@),
            r@ == joined_words(words.take(i as int)),
    {
        assert(words.take(i + 1).drop_last() =~= words.take(i as int));
        if i > 0 {
            r.append(" ");
        }
        r.append(args[i].as_str());
    }
    assert(words.take(n as int) =~= words);
    r
}

} // verus!

verus! {

/// The text report is the command line, then `Error [code]: ` and the
/// message: the service's own message for a service error, the error's text
/// for any other error.
pub proof fn law_text_report_ends_with_the_message(command: Seq<char>, e: &Error)
    ensures
        e matches Error::Api { code, message, .. } ==> report_text(command, e) == command
            + "\n\nError ["@ + code@ + "]: "@ + message@,
        !(e is Api) ==> report_text(command, e) == command + "\n\nError ["@ + error_code(e)
            + "]: "@ + error_text(e),
{
}

/// The JSON report has `ok` false and, in its error object, the error's code
/// and the same message the text report ends with: the service's own message
/// for a service error, with or without details, and the error's text for
/// any other error.
pub proof fn law_json_report_matches_the_error<'a>(doc: JsonDoc<'a>, e: &'a Error, command: Seq<char>)
    requires
        is_error_document(doc, e),
    ensures
        doc matches JsonDoc::Object(top) && top@[0].1 == JsonDoc::<'a>::Bool(false),
        doc matches JsonDoc::Object(top) && (top@[1].1 matches JsonDoc::Object(body) && {
            &&& body@[0].0@ == "code"@
            &&& body@[0].1 matches JsonDoc::Text(c) && c@ == error_code(e)
            &&& body@[1].0@ == "message"@
            &&& body@[1].1 matches JsonDoc::Text(m) && {
                &&& e matches Error::Api { message, .. } ==> m@ == message@
                &&& !(e is Api) ==> m@ == error_text(e)
                &&& report_text(command, e) == command + "\n\nError ["@ + error_code(e) + "]: "@ + m@
            }
        }),
{
}

} // verus!

verus! {

/// Joining two non-empty runs of words gives the two joins with one space
/// between them.
pub proof fn law_joined_words_concatenate(s: Seq<Seq<char>>, t: Seq<Seq<char>>)
    requires
        s.len() > 0,
        t.len() > 0,
    ensures
        joined_words(s + t) == joined_words(s) + " "@ + joined_words(t),
    decreases t.len(),
{
    if t.len() == 1 {
        assert((s + t).drop_last() =~= s);
    } else {
        law_joined_words_concatenate(s, t.drop_last());
        assert((s + t).drop_last() =~= s + t.drop_last());
    }
}

/// A single word is shown as it is, and no words as nothing.
pub proof fn law_joined_words_of_one_word(w: Seq<char>)
    ensures
        joined_words(seq![w]) == w,
        joined_words(Seq::<Seq<char>>::empty()) == Seq::<char>::empty(),
{
}

} // verus!
