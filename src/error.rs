use vstd::prelude::*;
use vstd::string::StringExecFns;

verus! {

/// Errors surfaced by every backend operation and by the input validators.
#[derive(Debug)]
pub enum QpgpError {
    /// A feature the active provider lacks (capability error).
    NotImplemented(&'static str),
    /// Malformed or ambiguous input.
    InvalidInput(String),
    /// Provider-internal failure, with an opaque detail string.
    Backend(String),
    /// Storage or transport failure.
    Io(String),
}

/// The user-facing text of an error: a category prefix, then the detail.
pub open spec fn error_text(e: QpgpError) -> Seq<char> {
    match e {
        QpgpError::NotImplemented(m) => "not implemented: "@ + m@,
        QpgpError::InvalidInput(m) => "invalid input: "@ + m@,
        QpgpError::Backend(m) => "backend error: "@ + m@,
        QpgpError::Io(m) => "io error: "@ + m@,
    }
}

impl QpgpError {
    pub fn not_implemented(msg: &'static str) -> (r: QpgpError)
        ensures
            r == QpgpError::NotImplemented(msg),
    {
        QpgpError::NotImplemented(msg)
    }

    /// The diagnostic text written to the error stream.
    pub fn to_string(&self) -> (r: String)
        ensures
            r@ == error_text(*self),
    {
        match self {
            QpgpError::NotImplemented(m) => String::from_str("not implemented: ").concat(m),
            QpgpError::InvalidInput(m) => String::from_str("invalid input: ").concat(m.as_str()),
            QpgpError::Backend(m) => String::from_str("backend error: ").concat(m.as_str()),
            QpgpError::Io(m) => String::from_str("io error: ").concat(m.as_str()),
        }
    }
}

} // verus!
