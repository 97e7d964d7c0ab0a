use vstd::prelude::*;
use crate::actions::Action;
use crate::colour::Colour;
use crate::kinds::ParticleKind;
use crate::particle::{Neighbours, Particle};
use crate::processable::Processable;

verus! {

/// A soluble powder: dissolves next to water, otherwise falls straight
/// down into an empty cell.
#[derive(Copy, Clone, PartialEq, Eq, Structural, Debug, Default)]
pub struct SaltParticle {
    pub processed: bool,
}

impl SaltParticle {
    /// Whether a neighbouring kind dissolves salt.
    pub open spec fn spec_is_solvent(k: ParticleKind) -> bool {
        k == ParticleKind::Water
    }

    /// Whether any of the eight surrounding kinds dissolves salt.
    pub open spec fn spec_has_solvent_neighbour(neighbours: Neighbours) -> bool {
        ||| Self::spec_is_solvent(neighbours.ul)
        ||| Self::spec_is_solvent(neighbours.up)
        ||| Self::spec_is_solvent(neighbours.ur)
        ||| Self::spec_is_solvent(neighbours.left)
        ||| Self::spec_is_solvent(neighbours.right)
        ||| Self::spec_is_solvent(neighbours.dl)
        ||| Self::spec_is_solvent(neighbours.down)
        ||| Self::spec_is_solvent(neighbours.dr)
    }

    pub fn new() -> (p: SaltParticle)
        ensures
            p == (SaltParticle { processed: false }),
    {
        SaltParticle { processed: false }
    }

    fn is_solvent(k: ParticleKind) -> (r: bool)
        ensures
            r == Self::spec_is_solvent(k),
    {
        k == ParticleKind::Water
    }
}

impl Processable for SaltParticle {
    open spec fn spec_processed(self) -> bool {
        self.processed
    }

    open spec fn spec_mark_processed(self) -> Self {
        SaltParticle { processed: true }
    }

    open spec fn spec_clear_processed(self) -> Self {
        SaltParticle { processed: false }
    }

    fn get_was_processed(&self) -> (r: bool) {
        self.processed
    }

    fn set_processed(&mut self) {
        self.processed = true;
    }

    fn set_not_processed(&mut self) {
        self.processed = false;
    }
}

impl Particle for SaltParticle {
    open spec fn spec_kind(self) -> ParticleKind {
        ParticleKind::Salt
    }

    open spec fn spec_colour(self) -> Colour {
        Colour { r: 255, g: 255, b: 255 }
    }

    open spec fn spec_action(self, neighbours: Neighbours) -> Action {
        if Self::spec_has_solvent_neighbour(neighbours) {
            Action::Pop
        } else if neighbours.down == ParticleKind::Background {
            Action::MoveInto { x: 0, y: 1 }
        } else {
            Action::StayPut
        }
    }

    open spec fn spec_after_action(self, neighbours: Neighbours) -> Self {
        self
    }

    open spec fn spec_ticked(self) -> Self {
        self.spec_clear_processed()
    }

    fn get_action(&mut self, neighbours: Neighbours) -> (action: Action) {
        if Self::is_solvent(neighbours.ul) || Self::is_solvent(neighbours.up)
            || Self::is_solvent(neighbours.ur) || Self::is_solvent(neighbours.left)
            || Self::is_solvent(neighbours.right) || Self::is_solvent(neighbours.dl)
            || Self::is_solvent(neighbours.down) || Self::is_solvent(neighbours.dr) {
            Action::Pop
        } else if neighbours.down == ParticleKind::Background {
            Action::MoveInto { x: 0, y: 1 }
        } else {
            Action::StayPut
        }
    }

    fn get_type(&self) -> (kind: ParticleKind) {
        ParticleKind::Salt
    }

    fn get_colour(&self) -> (colour: Colour) {
        Colour::new(255, 255, 255)
    }

    fn tick(&mut self) {
        self.set_not_processed();
    }
}

} // verus!
