//! Why loading a stylesheet failed.
use vstd::prelude::*;
use crate::text::concat;

verus! {

/// Why loading a stylesheet failed; each payload is the text of the underlying error.
#[derive(Debug, Clone)]
pub enum StyleError {
    NotAllowed(String),
    Network(String),
    IntegrityMismatch { expected: String, actual: String },
    UnsupportedIntegrity(String),
    Io(String),
    Json(String),
    ToolFailed(String),
    Base64(String),
}

/// The message of an error, as it is shown to the frontend.
pub open spec fn style_error_message(e: StyleError) -> Seq<char> {
    match e {
        StyleError::NotAllowed(p) => "package '"@ + p@ + "' is not in the allowlist"@,
        StyleError::Network(m) => "network error: "@ + m@,
        StyleError::IntegrityMismatch { expected, actual } => "integrity mismatch — expected "@
            + expected@ + ", got "@ + actual@,
        StyleError::UnsupportedIntegrity(s) => "no sha512 integrity hash in registry metadata: "@
            + s@,
        StyleError::Io(m) => "io error: "@ + m@,
        StyleError::Json(m) => "json error: "@ + m@,
        StyleError::ToolFailed(m) => "tool execution failed: "@ + m@,
        StyleError::Base64(m) => "base64 decode error: "@ + m@,
    }
}

impl StyleError {
    /// The message of the error.
    pub fn message(&self) -> (r: String)
        ensures
            r@ == style_error_message(*self),
    {
        match self {
            StyleError::NotAllowed(p) => {
                let a = concat("package '", p);
                concat(&a, "' is not in the allowlist")
            },
            StyleError::Network(m) => concat("network error: ", m),
            StyleError::IntegrityMismatch { expected, actual } => {
                let a = concat("integrity mismatch — expected ", expected);
                let b = concat(&a, ", got ");
                concat(&b, actual)
            },
            StyleError::UnsupportedIntegrity(s) => concat(
                "no sha512 integrity hash in registry metadata: ",
                s,
            ),
            StyleError::Io(m) => concat("io error: ", m),
            StyleError::Json(m) => concat("json error: ", m),
            StyleError::ToolFailed(m) => concat("tool execution failed: ", m),
            StyleError::Base64(m) => concat("base64 decode error: ", m),
        }
    }
}

} // verus!
