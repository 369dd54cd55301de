use vstd::prelude::*;
use crate::access::owner_check;
use crate::error::DistError;

verus! {

/// The outcome of `pause` (`to == true`) or `unpause` (`to == false`), with
/// the flag that follows.
pub open spec fn set_pause_spec(paused: bool, caller: Seq<u8>, owner: Seq<u8>, to: bool) -> (
    Result<(), DistError>,
    bool,
) {
    match owner_check(caller, owner) {
        Ok(()) => (Ok(()), to),
        Err(e) => (Err(e), paused),
    }
}

/// The pause gate: one flag, set and cleared by the owner, that closes sales.
/// Pausing a paused gate, or unpausing an open one, is no error.
pub trait PauseModule {
    /// The pause flag.
    spec fn paused(&self) -> bool;

    /// Whether `self` and `other` hold the same values, the pause flag aside.
    spec fn same_besides_pause(&self, other: &Self) -> bool;

    /// Whether sales are paused.
    fn is_paused(&self) -> (r: bool)
        ensures
            r == self.paused(),
    ;

    /// Whether sales are open: the negation of `is_paused`.
    fn not_paused(&self) -> (r: bool)
        ensures
            r == !self.paused(),
    {
        !self.is_paused()
    }

    /// Owner only: closes sales.
    fn pause(&mut self, caller: &[u8], owner: &[u8]) -> (r: Result<(), DistError>)
        ensures
            (r, final(self).paused()) == set_pause_spec(old(self).paused(), caller@, owner@, true),
            final(self).same_besides_pause(old(self)),
    ;

    /// Owner only: opens sales.
    fn unpause(&mut self, caller: &[u8], owner: &[u8]) -> (r: Result<(), DistError>)
        ensures
            (r, final(self).paused()) == set_pause_spec(old(self).paused(), caller@, owner@, false),
            final(self).same_besides_pause(old(self)),
    ;
}

} // verus!
