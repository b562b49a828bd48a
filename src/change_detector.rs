//! A value with a flag that records whether it changed since last asked.
use vstd::prelude::*;

verus! {

/// Holds a value and notes each replacement of it until the note is taken.
pub struct ChangeDetector<T> {
    target: T,
    changed: bool,
}

impl<T> ChangeDetector<T> {
    /// The value held.
    pub closed spec fn value(self) -> T {
        self.target
    }

    /// Whether a change is noted and not yet taken.
    pub closed spec fn pending(self) -> bool {
        self.changed
    }

    /// Holds `target`, noted as changed so that the first look sees it.
    pub fn new(target: T) -> (r: ChangeDetector<T>)
        ensures
            r.value() == target,
            r.pending(),
    {
        ChangeDetector { target, changed: true }
    }

    /// Whether a change is noted, without taking the note.
    pub fn changed(&self) -> (r: bool)
        ensures
            r == self.pending(),
    {
        self.changed
    }

    /// Takes the note: tells whether a change was noted, and clears it.
    pub fn take_change(&mut self) -> (r: bool)
        ensures
            r == old(self).pending(),
            !final(self).pending(),
            final(self).value() == old(self).value(),
    {
        let was = self.changed;
        self.changed = false;
        was
    }

    /// The value if a change was noted, taking the note.
    pub fn get_if_changed(&mut self) -> (r: Option<&T>)
        ensures
            r is Some <==> old(self).pending(),
            r is Some ==> *r->Some_0 == old(self).value(),
            !final(self).pending(),
            final(self).value() == old(self).value(),
    {
        if self.take_change() {
            Some(&self.target)
        } else {
            None
        }
    }

    /// The value held.
    pub fn get(&self) -> (r: &T)
        ensures
            *r == self.value(),
    {
        &self.target
    }

    /// Replaces the value and notes the change.
    pub fn set(&mut self, target: T)
        ensures
            final(self).value() == target,
            final(self).pending(),
    {
        self.target = target;
        self.changed = true;
    }
}

} // verus!
