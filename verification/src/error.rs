use vstd::prelude::*;

verus! {

/// The two classes of failure a tool call can report.
#[derive(Debug, Clone, Copy, PartialEq, Eq)]
pub enum ErrorKind {
    /// The caller's arguments were rejected (a malformed date, an unknown id).
    InvalidParams,
    /// The Reminders or Calendar database failed.
    Internal,
}

/// A failed tool call: its class and the text shown to the client.
#[derive(Debug, Clone, PartialEq, Eq)]
pub struct ToolError {
    pub kind: ErrorKind,
    pub message: String,
}

/// `e` rejects the caller's arguments with the text `text`.
pub open spec fn is_invalid_params(e: ToolError, text: Seq<char>) -> bool {
    e.kind == ErrorKind::InvalidParams && e.message@ == text
}

/// `e` reports a database failure whose description is `text`.
pub open spec fn is_internal(e: ToolError, text: Seq<char>) -> bool {
    e.kind == ErrorKind::Internal && e.message@ == text
}

/// `prefix`, then `subject`, then `suffix`, as one string.
pub fn concat3(prefix: &str, subject: &str, suffix: &str) -> (r: String)
    ensures
        r@ == prefix@ + subject@ + suffix@,
{
    let mut r = String::from_str(prefix);
    r.append(subject);
    r.append(suffix);
    r
}

/// `prefix`, then `subject`, as one string.
pub fn concat2(prefix: &str, subject: &str) -> (r: String)
    ensures
        r@ == prefix@ + subject@,
{
    let mut r = String::from_str(prefix);
    r.append(subject);
    r
}

/// The error that reports a failure of the Reminders or Calendar database,
/// given that failure's description.
pub fn eventkit_err(description: String) -> (r: ToolError)
    ensures
        is_internal(r, description@),
{
    ToolError { kind: ErrorKind::Internal, message: description }
}

/// The error that rejects the caller's arguments with the given text.
pub fn invalid_params(message: String) -> (r: ToolError)
    ensures
        is_invalid_params(r, message@),
{
    ToolError { kind: ErrorKind::InvalidParams, message }
}

} // verus!
