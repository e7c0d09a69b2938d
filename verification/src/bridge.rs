//! The typed bridge to the frontend: its error type and its smoke-test command.
use vstd::prelude::*;
use crate::text::{chars_of, concat, push_all, string_from_chars};

verus! {

/// Typed error propagated across the bridge boundary.
#[derive(Debug, Clone)]
pub struct BridgeError {
    pub code: String,
    pub message: String,
}

impl BridgeError {
    /// An error with this code and message.
    pub fn new(code: String, message: String) -> (r: Self)
        ensures
            r.code == code,
            r.message == message,
    {
        BridgeError { code, message }
    }

    /// The error as it is displayed: `[<code>] <message>`.
    pub fn display(&self) -> (r: String)
        ensures
            r@ == seq!['['] + self.code@ + seq![']', ' '] + self.message@,
    {
        let mut v: Vec<char> = Vec::new();
        v.push('[');
        let c = chars_of(&self.code);
        push_all(&mut v, c.as_slice());
        v.push(']');
        v.push(' ');
        let m = chars_of(&self.message);
        push_all(&mut v, m.as_slice());
        proof {
            assert(v@ =~= seq!['['] + self.code@ + seq![']', ' '] + self.message@);
        }
        string_from_chars(v.as_slice())
    }
}

/// The answer to a `ping`: `pong: ` and the message.
pub fn ping(message: &str) -> (r: Result<String, BridgeError>)
    ensures
        r matches Ok(s) && s@ == "pong: "@ + message@,
{
    Ok(concat("pong: ", message))
}

} // verus!
