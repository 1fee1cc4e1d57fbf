//! The demo "echo" state machine: the one pluggable unit the engine
//! currently dispatches commands to.
//!
//! It is called exclusively by the serial apply loop, never concurrently,
//! so it needs no locking of its own. Domain errors are values, not
//! process-ending faults: they travel back to the caller as the result of
//! a successful round trip.

use vstd::prelude::*;
use vstd::string::StringExecFns;

verus! {

/// A demo command: an operation kind and an optional message.
#[derive(Debug)]
pub struct Request {
    pub kind: String,
    pub message: String,
}

/// What the state machine returns for a command: a success string for the
/// two recognized kinds, and a domain error describing the rejected kind
/// otherwise.
pub open spec fn apply_result(kind: Seq<char>, message: Seq<char>) -> Result<Seq<char>, Seq<char>> {
    if kind == "create"@ {
        Ok("SUCCESS create "@ + message)
    } else if kind == "delete"@ {
        Ok("SUCCESS delete "@ + message)
    } else {
        Err("unexpected none field value for kind "@ + kind)
    }
}

/// The view of an executed result, for stating contracts over it.
pub open spec fn result_view(r: Result<String, String>) -> Result<Seq<char>, Seq<char>> {
    match r {
        Ok(s) => Ok(s@),
        Err(e) => Err(e@),
    }
}

/// The demo state machine. It holds no state of its own: applying a
/// command only echoes it back.
#[derive(Debug)]
pub struct Manager {}

impl Manager {
    /// Builds the state machine.
    pub fn new() -> (m: Manager) {
        Manager {  }
    }

    /// Executes one command: succeeds for the kinds `create` and `delete`,
    /// and returns a domain error for any other kind.
    pub fn apply(&mut self, req: &Request) -> (r: Result<String, String>)
        ensures
            result_view(r) == apply_result(req.kind@, req.message@),
    {
        if req.kind == String::from_str("create") {
            Ok(String::from_str("SUCCESS create ").concat(req.message.as_str()))
        } else if req.kind == String::from_str("delete") {
            Ok(String::from_str("SUCCESS delete ").concat(req.message.as_str()))
        } else {
            Err(String::from_str("unexpected none field value for kind ").concat(req.kind.as_str()))
        }
    }
}

} // verus!
