//! Wire vocabulary of the operation boundary: what a start returns, the
//! snapshot a poll returns, and the uniform error shape.

use vstd::prelude::*;

verus! {

/// A JSON document, carried opaquely from producer to poller.
#[verifier::external_type_specification]
#[verifier::external_body]
pub struct ExJsonValue(serde_json::Value);

/// An error of the JSON library.
#[verifier::external_type_specification]
#[verifier::external_body]
pub struct ExJsonError(serde_json::Error);

/// Relies on the derived `Clone` of `serde_json::Value`: the copy is the
/// same document.
pub assume_specification[ <serde_json::Value as Clone>::clone ](v: &serde_json::Value) -> (r: serde_json::Value)
    ensures
        r == *v,
;

/// Text that JSON writes between two quotes unchanged: no quote, no
/// backslash, no control character.
pub open spec fn json_plain(s: Seq<char>) -> bool {
    forall|i: int| 0 <= i < s.len() ==> {
        let c = #[trigger] s[i];
        c != '"' && c != '\\' && (c as u32) >= 0x20
    }
}

/// Relies on `serde_json::to_string` on a string slice, which cannot fail
/// (it writes into memory) and quotes text that needs no escape as it is.
#[verifier::external_body]
fn json_string_literal(s: &str) -> (r: Result<String, serde_json::Error>)
    ensures
        r is Ok,
        json_plain(s@) ==> r->Ok_0@ == seq!['"'] + s@ + seq!['"'],
{
    serde_json::to_string(s)
}

/// The lower-case hyphenated text of a UUID, given as its 128-bit value.
pub uninterp spec fn hyphenated_of(id: u128) -> Seq<char>;

/// Relies on `uuid::Uuid::from_u128` and the `Display` of
/// `uuid::adapter::Hyphenated`: 36 characters that depend on `id` alone.
#[verifier::external_body]
pub(crate) fn hyphenated(id: u128) -> (r: String)
    ensures
        r@ == hyphenated_of(id),
        r@.len() == 36,
{
    uuid::Uuid::from_u128(id).to_hyphenated().to_string()
}

/// Relies on `serde_json::Value::String`: a JSON string holding `s`.
#[verifier::external_body]
pub(crate) fn json_text(s: String) -> (r: serde_json::Value)
{
    serde_json::Value::String(s)
}

/// The first element of `w`, if any.
pub open spec fn first_of<V>(w: Seq<V>) -> Option<V> {
    if w.len() > 0 {
        Some(w[0])
    } else {
        None
    }
}

/// Returned by endpoints which represent long-running operations.
#[derive(Clone, Copy, Debug, PartialEq, Eq, Structural)]
pub struct OperationInfo {
    /// Unique identifier of the started operation, as its 128-bit value.
    pub id: u128,
}

/// Status of an operation on the wire.
#[derive(Clone, Copy, Debug, PartialEq, Eq, Structural)]
pub enum OperationStatus {
    Running,
    Failed,
    Completed,
}

/// Snapshot of an operation, relative to the caller's cursor.
#[derive(Clone, Debug)]
pub struct Operation {
    /// Identifier of the operation.
    pub id: u128,
    /// Events past the cursor (at most one).
    pub events: Vec<serde_json::Value>,
    /// Operation status.
    pub status: OperationStatus,
    /// Error (exists when status is FAILED).
    pub error: Option<String>,
}

impl Operation {
    /// The error is present exactly when the operation failed.
    pub open spec fn wf(&self) -> bool {
        self.error is Some <==> self.status == OperationStatus::Failed
    }

    /// The event that a poll delivered, if any.
    pub fn first_event(&self) -> (r: Option<serde_json::Value>)
        ensures
            r == first_of(self.events@),
    {
        if self.events.len() == 0 {
            None
        } else {
            Some(self.events[0].clone())
        }
    }
}

/// Error kind, which decides the transport status.
#[derive(Clone, Copy, Debug, PartialEq, Eq, Structural)]
pub enum ErrorKind {
    NotFound,
    Internal,
}

/// The wire name of each error kind.
pub open spec fn kind_name(k: ErrorKind) -> Seq<char> {
    match k {
        ErrorKind::NotFound => "NOT_FOUND"@,
        ErrorKind::Internal => "INTERNAL"@,
    }
}

impl ErrorKind {
    /// The HTTP status that the kind maps to.
    pub fn http_status(self) -> (r: u16)
        ensures
            self == ErrorKind::NotFound ==> r == 404,
            self == ErrorKind::Internal ==> r == 500,
    {
        match self {
            ErrorKind::NotFound => 404,
            ErrorKind::Internal => 500,
        }
    }

    /// The kind as a JSON string: its wire name in quotes.
    pub fn string(self) -> (r: String)
        ensures
            r@ == seq!['"'] + kind_name(self) + seq!['"'],
    {
        let name: &str = match self {
            ErrorKind::NotFound => "NOT_FOUND",
            ErrorKind::Internal => "INTERNAL",
        };
        proof {
            reveal_strlit("NOT_FOUND");
            reveal_strlit("INTERNAL");
            assert(json_plain(name@));
        }
        match json_string_literal(name) {
            Ok(s) => s,
            Err(_) => String::new(),
        }
    }
}

/// Error returned by the boundary.
#[derive(Clone, Debug)]
pub struct ApiError {
    pub kind: ErrorKind,
    pub code: String,
    pub details: serde_json::Value,
}

} // verus!
