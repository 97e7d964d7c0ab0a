use vstd::prelude::*;

verus! {

/// The per-tick "already acted" bookkeeping every particle carries.
///
/// A particle that moved, or was moved into, within the current tick is
/// *processed* and must not act again before the next tick begins. Kinds
/// that never need evaluation treat the flag as structurally `true`
/// (background, concrete), a kind that is re-evaluated forever treats it
/// as structurally `false` (cornucopia); for those the setters are
/// no-ops.
pub trait Processable: Sized {
    /// Whether this particle counts as having already acted this tick.
    spec fn spec_processed(self) -> bool;

    /// This particle as `set_processed` leaves it.
    spec fn spec_mark_processed(self) -> Self;

    /// This particle as `set_not_processed` leaves it.
    spec fn spec_clear_processed(self) -> Self;

    fn get_was_processed(&self) -> (r: bool)
        ensures
            r == self.spec_processed(),
    ;

    fn set_processed(&mut self)
        ensures
            *final(self) == old(self).spec_mark_processed(),
    ;

    fn set_not_processed(&mut self)
        ensures
            *final(self) == old(self).spec_clear_processed(),
    ;
}

} // verus!
