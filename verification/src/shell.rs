//! Session state that the history expander reads.

use vstd::prelude::*;

verus! {

/// One interactive session. `previous_cmd` is the last command line that
/// ran: empty when the session starts, overwritten by the session's driver
/// after every command, and only read by this library.
#[derive(Debug)]
pub struct Shell {
    pub previous_cmd: String,
}

impl Shell {
    /// A session in which no command has run yet.
    pub fn new() -> (sh: Shell)
        ensures
            sh.previous_cmd@.len() == 0,
    {
        Shell { previous_cmd: String::new() }
    }
}

} // verus!
