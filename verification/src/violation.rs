//! The conditions under which a task cannot go on.

use vstd::prelude::*;

verus! {

/// A breach of the contract between the kernel and the task, or of the rules on
/// handles. None can be mended where it is found: whoever receives one ends the
/// process.
#[derive(Clone, Copy, Debug, PartialEq, Eq)]
pub enum ProtocolViolation {
    /// A buffer declares another size than that of a header followed by the
    /// payload type that the task expects.
    SizeMismatch,
    /// The task suspended and left no request in the mailbox.
    NoSubscription,
    /// The task ran to its end; a task is meant to run forever.
    Completed,
    /// A handle was discarded while it still stood for a buffer.
    DroppedMsg,
}

impl ProtocolViolation {
    /// The words with which the process ends over the violation.
    pub open spec fn text(&self) -> Seq<char> {
        match *self {
            ProtocolViolation::SizeMismatch => "mismatched msg sizes"@,
            ProtocolViolation::NoSubscription => "no subscription"@,
            ProtocolViolation::Completed => "task completed"@,
            ProtocolViolation::DroppedMsg => "dropped msg"@,
        }
    }

    /// The words with which the process ends over the violation.
    pub fn message(&self) -> (message: &'static str)
        ensures
            message@ == self.text(),
    {
        match self {
            ProtocolViolation::SizeMismatch => "mismatched msg sizes",
            ProtocolViolation::NoSubscription => "no subscription",
            ProtocolViolation::Completed => "task completed",
            ProtocolViolation::DroppedMsg => "dropped msg",
        }
    }
}

} // verus!
