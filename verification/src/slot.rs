use vstd::prelude::*;

verus! {

/// The shared result slot: a single-assignment holder for a scheduled
/// fetch's outcome. The first write fills it; every later write leaves the
/// first outcome untouched, so the write-once rule is enforced by the type
/// rather than by convention. Mutual exclusion around the slot belongs to
/// the runtime that shares it.
#[derive(Debug)]
pub struct ResultSlot {
    value: Option<Result<String, String>>,
}

impl ResultSlot {
    /// What the slot holds: nothing until an outcome has been written.
    pub closed spec fn contents(&self) -> Option<Result<String, String>> {
        self.value
    }

    /// A fresh slot, holding nothing.
    pub fn empty() -> (s: ResultSlot)
        ensures
            s.contents() is None,
    {
        ResultSlot { value: None }
    }

    /// Writes an outcome into the slot, once: an empty slot holds the
    /// outcome afterwards, a filled slot keeps what it held.
    pub fn fulfill(&mut self, outcome: Result<String, String>)
        ensures
            old(self).contents() is None ==> final(self).contents() == Some(outcome),
            old(self).contents() is Some ==> final(self).contents() == old(self).contents(),
    {
        if self.value.is_none() {
            self.value = Some(outcome);
        }
    }

    /// A look at the outcome, if one has arrived. Reading never changes the
    /// slot.
    pub fn peek(&self) -> (r: &Option<Result<String, String>>)
        ensures
            *r == self.contents(),
    {
        &self.value
    }
}

} // verus!
