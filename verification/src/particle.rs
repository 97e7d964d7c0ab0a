use vstd::prelude::*;
use crate::actions::Action;
use crate::colour::Colour;
use crate::kinds::ParticleKind;
use crate::processable::Processable;

verus! {

/// The 3x3 window of kinds around an acting cell, sampled once before
/// its rule runs.
///
/// Field names give the position relative to the acting cell: `ul` is
/// one row up and one column left, `down` is one row down in the same
/// column, and so on; `centre` is the acting cell itself. Positions
/// outside the grid are reported as `ParticleKind::Background`.
#[derive(Copy, Clone, PartialEq, Eq, Structural, Debug)]
pub struct Neighbours {
    pub ul: ParticleKind,
    pub up: ParticleKind,
    pub ur: ParticleKind,
    pub left: ParticleKind,
    pub centre: ParticleKind,
    pub right: ParticleKind,
    pub dl: ParticleKind,
    pub down: ParticleKind,
    pub dr: ParticleKind,
}

/// One particle's behaviour: a rule from neighbourhood to action, plus
/// the queries the grid and the renderer need.
///
/// Each method's result is pinned to a spec function the implementing
/// kind defines, so the grid's own contract can speak of every kind's
/// behaviour exactly.
pub trait Particle: Processable {
    /// The species this particle reports.
    spec fn spec_kind(self) -> ParticleKind;

    /// The colour the renderer draws for this particle.
    spec fn spec_colour(self) -> Colour;

    /// The action the rule chooses for this neighbourhood.
    spec fn spec_action(self, neighbours: Neighbours) -> Action;

    /// This particle's own state as `get_action` leaves it (rules may
    /// remember a direction or lock a kind while choosing an action).
    spec fn spec_after_action(self, neighbours: Neighbours) -> Self;

    /// This particle as the start-of-tick hook leaves it.
    spec fn spec_ticked(self) -> Self;

    /// Choose this tick's action, updating any rule-internal state.
    fn get_action(&mut self, neighbours: Neighbours) -> (action: Action)
        ensures
            action == old(self).spec_action(neighbours),
            *final(self) == old(self).spec_after_action(neighbours),
    ;

    fn get_type(&self) -> (kind: ParticleKind)
        ensures
            kind == self.spec_kind(),
    ;

    fn get_colour(&self) -> (colour: Colour)
        ensures
            colour == self.spec_colour(),
    ;

    /// The start-of-tick hook: typically wakes the particle up again by
    /// clearing its processed flag.
    fn tick(&mut self)
        ensures
            *final(self) == old(self).spec_ticked(),
    ;
}

} // verus!
