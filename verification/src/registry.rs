//! Tracks which keys of one namespace currently have an upload in progress.

use vstd::hash_set::StringHashSet;
use vstd::prelude::*;
use vstd::string::StringExecFns;

verus! {

/// Outcome of an attempt to claim a key for writing.
#[derive(Clone, Copy, Debug, PartialEq, Eq, Structural)]
pub enum ClaimOutcome {
    /// The key was absent; the caller is now the sole writer.
    Claimed,
    /// Another write for the key is already in progress.
    AlreadyInFlight,
}

/// The set of keys of one namespace that have a write claimed and not yet
/// released. Its view is the mathematical set of those key ids.
pub struct InFlightRegistry {
    ids: StringHashSet,
}

impl View for InFlightRegistry {
    type V = Set<Seq<char>>;

    closed spec fn view(&self) -> Set<Seq<char>> {
        self.ids@
    }
}

impl InFlightRegistry {
    /// A fresh registry holds no in-flight keys.
    pub fn new() -> (r: Self)
        ensures
            r@ == Set::<Seq<char>>::empty(),
    {
        InFlightRegistry { ids: StringHashSet::new() }
    }

    /// Tests membership and inserts in one indivisible step: the claim
    /// succeeds exactly when the key was absent, and the key is a member
    /// afterwards either way.
    pub fn try_claim(&mut self, id: &str) -> (r: ClaimOutcome)
        ensures
            final(self)@ == old(self)@.insert(id@),
            (r == ClaimOutcome::Claimed) <==> !old(self)@.contains(id@),
    {
        let was_absent = self.ids.insert(String::from_str(id));
        if was_absent {
            ClaimOutcome::Claimed
        } else {
            ClaimOutcome::AlreadyInFlight
        }
    }

    /// Removes the key from the in-flight set unconditionally.
    pub fn release(&mut self, id: &str)
        ensures
            final(self)@ == old(self)@.remove(id@),
    {
        self.ids.remove(id);
    }

    /// Read-only membership test.
    pub fn is_in_flight(&self, id: &str) -> (r: bool)
        ensures
            r == self@.contains(id@),
    {
        self.ids.contains(id)
    }
}

} // verus!
