use vstd::prelude::*;
use crate::actions::Action;
use crate::colour::Colour;
use crate::kinds::ParticleKind;
use crate::particle::{Neighbours, Particle};
use crate::processable::Processable;

verus! {

/// An immovable particle used for floors and boundaries. Like the
/// background it never needs evaluation, so its processed flag is
/// structurally `true`.
#[derive(Copy, Clone, PartialEq, Eq, Structural, Debug)]
pub struct ConcreteParticle;

impl Processable for ConcreteParticle {
    open spec fn spec_processed(self) -> bool {
        true
    }

    open spec fn spec_mark_processed(self) -> Self {
        self
    }

    open spec fn spec_clear_processed(self) -> Self {
        self
    }

    fn get_was_processed(&self) -> (r: bool) {
        true
    }

    fn set_processed(&mut self) {
    }

    fn set_not_processed(&mut self) {
    }
}

impl Particle for ConcreteParticle {
    open spec fn spec_kind(self) -> ParticleKind {
        ParticleKind::Concrete
    }

    open spec fn spec_colour(self) -> Colour {
        Colour { r: 196, g: 196, b: 196 }
    }

    open spec fn spec_action(self, neighbours: Neighbours) -> Action {
        Action::StayPut
    }

    open spec fn spec_after_action(self, neighbours: Neighbours) -> Self {
        self
    }

    open spec fn spec_ticked(self) -> Self {
        self
    }

    fn get_action(&mut self, neighbours: Neighbours) -> (action: Action) {
        Action::StayPut
    }

    fn get_type(&self) -> (kind: ParticleKind) {
        ParticleKind::Concrete
    }

    fn get_colour(&self) -> (colour: Colour) {
        Colour::new(196, 196, 196)
    }

    fn tick(&mut self) {
    }
}

} // verus!
