use vstd::prelude::*;
use crate::actions::Action;
use crate::colour::Colour;
use crate::kinds::ParticleKind;
use crate::particle::{Neighbours, Particle};
use crate::processable::Processable;

verus! {

/// Falling debris: the same falling-and-flowing cascade as water but
/// without direction memory — on a tie it always prefers the right.
/// It neither dissolves nor dissolves anything.
#[derive(Copy, Clone, PartialEq, Eq, Structural, Debug)]
pub struct WoodParticle {
    pub processed: bool,
}

impl WoodParticle {
    /// The priority cascade: down, then diagonally down (right first),
    /// then sideways (right first).
    pub open spec fn spec_rule(nb: Neighbours) -> Action {
        if nb.down == ParticleKind::Background {
            Action::MoveInto { x: 0, y: 1 }
        } else if nb.dr == ParticleKind::Background {
            Action::MoveInto { x: 1, y: 1 }
        } else if nb.dl == ParticleKind::Background {
            Action::MoveInto { x: -1i32, y: 1 }
        } else if nb.right == ParticleKind::Background {
            Action::MoveInto { x: 1, y: 0 }
        } else if nb.left == ParticleKind::Background {
            Action::MoveInto { x: -1i32, y: 0 }
        } else {
            Action::StayPut
        }
    }

    pub fn new() -> (p: WoodParticle)
        ensures
            p == (WoodParticle { processed: false }),
    {
        WoodParticle { processed: false }
    }
}

impl Processable for WoodParticle {
    open spec fn spec_processed(self) -> bool {
        self.processed
    }

    open spec fn spec_mark_processed(self) -> Self {
        WoodParticle { processed: true }
    }

    open spec fn spec_clear_processed(self) -> Self {
        WoodParticle { processed: false }
    }

    fn get_was_processed(&self) -> (r: bool) {
        self.processed
    }

    fn set_processed(&mut self) {
        self.processed = true;
    }

    fn set_not_processed(&mut self) {
        self.processed = false;
    }
}

impl Particle for WoodParticle {
    open spec fn spec_kind(self) -> ParticleKind {
        ParticleKind::Wood
    }

    open spec fn spec_colour(self) -> Colour {
        Colour { r: 150, g: 75, b: 0 }
    }

    open spec fn spec_action(self, neighbours: Neighbours) -> Action {
        Self::spec_rule(neighbours)
    }

    open spec fn spec_after_action(self, neighbours: Neighbours) -> Self {
        self
    }

    open spec fn spec_ticked(self) -> Self {
        self.spec_clear_processed()
    }

    fn get_action(&mut self, neighbours: Neighbours) -> (action: Action) {
        if neighbours.down == ParticleKind::Background {
            Action::MoveInto { x: 0, y: 1 }
        } else if neighbours.dr == ParticleKind::Background {
            Action::MoveInto { x: 1, y: 1 }
        } else if neighbours.dl == ParticleKind::Background {
            Action::MoveInto { x: -1, y: 1 }
        } else if neighbours.right == ParticleKind::Background {
            Action::MoveInto { x: 1, y: 0 }
        } else if neighbours.left == ParticleKind::Background {
            Action::MoveInto { x: -1, y: 0 }
        } else {
            Action::StayPut
        }
    }

    fn get_type(&self) -> (kind: ParticleKind) {
        ParticleKind::Wood
    }

    fn get_colour(&self) -> (colour: Colour) {
        Colour::new(150, 75, 0)
    }

    fn tick(&mut self) {
        self.set_not_processed();
    }
}

} // verus!
