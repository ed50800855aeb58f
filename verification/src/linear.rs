//! Keeping a handle until it is released.
//!
//! A handle stands for a buffer that the task has to release or to forward,
//! once. The type of a handle sees to the "once": releasing consumes it. That
//! it happens at all is seen to where the handle is kept: a `Linear` holds the
//! handle, hands it out for its release, and says when it is left behind
//! whether the handle is still there.

use vstd::prelude::*;
use crate::violation::ProtocolViolation;

verus! {

/// What leaving a keeper behind means when it holds `held`: a violation if a
/// handle is still there.
pub open spec fn verdict_on_leave<H>(held: Option<H>) -> Option<ProtocolViolation> {
    if held is Some {
        Some(ProtocolViolation::DroppedMsg)
    } else {
        None
    }
}

/// The keeper of one handle.
#[derive(Debug)]
pub struct Linear<H> {
    handle: Option<H>,
}

impl<H> Linear<H> {
    /// The handle in the keeper, until it is taken out.
    pub closed spec fn held(&self) -> Option<H> {
        self.handle
    }

    /// Puts an acquired handle into a keeper.
    pub fn new(handle: H) -> (keeper: Linear<H>)
        ensures
            keeper.held() == Some(handle),
    {
        Linear { handle: Some(handle) }
    }

    /// The handle, to look at, while it is in the keeper.
    pub fn get(&self) -> (handle: Option<&H>)
        ensures
            handle is Some <==> self.held() is Some,
            handle matches Some(held) ==> self.held() == Some(*held),
    {
        self.handle.as_ref()
    }

    /// Takes the handle out, to release or to forward it. The keeper holds
    /// nothing afterwards.
    pub fn take(&mut self) -> (handle: Option<H>)
        ensures
            handle == old(self).held(),
            final(self).held() is None,
    {
        self.handle.take()
    }

    /// Leaves the keeper behind. That is a violation if the handle is still
    /// in it, and nothing if the handle was taken out.
    pub fn leave(&mut self) -> (verdict: Option<ProtocolViolation>)
        ensures
            verdict == verdict_on_leave(old(self).held()),
            final(self).held() is None,
    {
        match self.handle.take() {
            Some(_) => Some(ProtocolViolation::DroppedMsg),
            None => None,
        }
    }
}

/// A handle that was taken out of its keeper, to be released or forwarded,
/// leaves a keeper that can be left behind; a handle that never was taken out
/// makes leaving its keeper a violation.
pub proof fn lemma_release_or_violation<H>(handle: H)
    ensures
        verdict_on_leave(Some(handle)) == Some(ProtocolViolation::DroppedMsg),
        verdict_on_leave(None::<H>) is None,
{
}

} // verus!
