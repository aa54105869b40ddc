use vstd::prelude::*;

verus! {

/// The one error kind a widget reports: the underlying command could not be
/// run, exited unsuccessfully, or no cached output was available when one was
/// expected. The carried string distinguishes the causes for a human reader.
#[derive(Debug)]
pub enum BlockError {
    CommandFailed(String),
}

impl BlockError {
    /// The diagnostic text carried by the error.
    pub fn message(&self) -> (r: &str)
        ensures
            r@ == self.spec_message(),
    {
        match self {
            BlockError::CommandFailed(m) => m.as_str(),
        }
    }

    pub open spec fn spec_message(&self) -> Seq<char> {
        match self {
            BlockError::CommandFailed(m) => m@,
        }
    }
}

/// Message reported when the shell process could not be started at all;
/// `detail` is the text of the underlying spawn error.
pub open spec fn spawn_failure_message(detail: Seq<char>) -> Seq<char> {
    "Failed to execute command: "@ + detail
}

/// Message reported when the process ran but exited unsuccessfully;
/// `status` is the text of its exit status.
pub open spec fn exit_failure_message(status: Seq<char>) -> Seq<char> {
    "Command exited with status: "@ + status
}

/// Message reported if the cache is queried while empty.
pub open spec fn no_cache_message() -> Seq<char> {
    "No cached output"@
}

} // verus!
