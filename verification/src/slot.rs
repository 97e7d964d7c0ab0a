use vstd::prelude::*;
use crate::actions::Action;
use crate::background::Background;
use crate::colour::Colour;
use crate::concrete::ConcreteParticle;
use crate::cornucopia::CornucopiaParticle;
use crate::kinds::ParticleKind;
use crate::particle::{Neighbours, Particle};
use crate::processable::Processable;
use crate::salt::SaltParticle;
use crate::water::WaterParticle;
use crate::wood::WoodParticle;

verus! {

/// One cell's occupant: a particle of some kind together with its
/// kind-specific state, as a tagged union so a grid can hold any mix of
/// kinds in one flat array.
#[derive(Copy, Clone, PartialEq, Eq, Structural, Debug)]
pub enum Slot {
    Background(Background),
    Concrete(ConcreteParticle),
    Salt(SaltParticle),
    Water(WaterParticle),
    Wood(WoodParticle),
    Cornucopia(CornucopiaParticle),
}

impl Slot {
    /// A freshly painted or grown particle of the given kind, with
    /// default state.
    pub open spec fn spec_fresh(kind: ParticleKind) -> Slot {
        match kind {
            ParticleKind::Background => Slot::Background(Background),
            ParticleKind::Concrete => Slot::Concrete(ConcreteParticle),
            ParticleKind::Salt => Slot::Salt(SaltParticle { processed: false }),
            ParticleKind::Water => Slot::Water(
                WaterParticle { processed: false, last_dir_x: 1 },
            ),
            ParticleKind::Wood => Slot::Wood(WoodParticle { processed: false }),
            ParticleKind::Cornucopia => Slot::Cornucopia(
                CornucopiaParticle { particle_kind_to_create: ParticleKind::Background },
            ),
        }
    }

    pub open spec fn spec_kind(self) -> ParticleKind {
        match self {
            Slot::Background(p) => p.spec_kind(),
            Slot::Concrete(p) => p.spec_kind(),
            Slot::Salt(p) => p.spec_kind(),
            Slot::Water(p) => p.spec_kind(),
            Slot::Wood(p) => p.spec_kind(),
            Slot::Cornucopia(p) => p.spec_kind(),
        }
    }

    pub open spec fn spec_colour(self) -> Colour {
        match self {
            Slot::Background(p) => p.spec_colour(),
            Slot::Concrete(p) => p.spec_colour(),
            Slot::Salt(p) => p.spec_colour(),
            Slot::Water(p) => p.spec_colour(),
            Slot::Wood(p) => p.spec_colour(),
            Slot::Cornucopia(p) => p.spec_colour(),
        }
    }

    pub open spec fn spec_processed(self) -> bool {
        match self {
            Slot::Background(p) => p.spec_processed(),
            Slot::Concrete(p) => p.spec_processed(),
            Slot::Salt(p) => p.spec_processed(),
            Slot::Water(p) => p.spec_processed(),
            Slot::Wood(p) => p.spec_processed(),
            Slot::Cornucopia(p) => p.spec_processed(),
        }
    }

    /// This occupant once it has been used as a move destination.
    pub open spec fn spec_mark_processed(self) -> Slot {
        match self {
            Slot::Background(p) => Slot::Background(p.spec_mark_processed()),
            Slot::Concrete(p) => Slot::Concrete(p.spec_mark_processed()),
            Slot::Salt(p) => Slot::Salt(p.spec_mark_processed()),
            Slot::Water(p) => Slot::Water(p.spec_mark_processed()),
            Slot::Wood(p) => Slot::Wood(p.spec_mark_processed()),
            Slot::Cornucopia(p) => Slot::Cornucopia(p.spec_mark_processed()),
        }
    }

    /// This occupant as the start-of-tick hook leaves it.
    pub open spec fn spec_advanced(self) -> Slot {
        match self {
            Slot::Background(p) => Slot::Background(p.spec_ticked()),
            Slot::Concrete(p) => Slot::Concrete(p.spec_ticked()),
            Slot::Salt(p) => Slot::Salt(p.spec_ticked()),
            Slot::Water(p) => Slot::Water(p.spec_ticked()),
            Slot::Wood(p) => Slot::Wood(p.spec_ticked()),
            Slot::Cornucopia(p) => Slot::Cornucopia(p.spec_ticked()),
        }
    }

    /// The action this occupant's rule chooses for the neighbourhood.
    pub open spec fn spec_action(self, nb: Neighbours) -> Action {
        match self {
            Slot::Background(p) => p.spec_action(nb),
            Slot::Concrete(p) => p.spec_action(nb),
            Slot::Salt(p) => p.spec_action(nb),
            Slot::Water(p) => p.spec_action(nb),
            Slot::Wood(p) => p.spec_action(nb),
            Slot::Cornucopia(p) => p.spec_action(nb),
        }
    }

    /// This occupant's own state as choosing the action leaves it.
    pub open spec fn spec_after_action(self, nb: Neighbours) -> Slot {
        match self {
            Slot::Background(p) => Slot::Background(p.spec_after_action(nb)),
            Slot::Concrete(p) => Slot::Concrete(p.spec_after_action(nb)),
            Slot::Salt(p) => Slot::Salt(p.spec_after_action(nb)),
            Slot::Water(p) => Slot::Water(p.spec_after_action(nb)),
            Slot::Wood(p) => Slot::Wood(p.spec_after_action(nb)),
            Slot::Cornucopia(p) => Slot::Cornucopia(p.spec_after_action(nb)),
        }
    }

    /// Water's remembered direction is one of the two lateral units.
    /// Every instance the engine creates or evolves maintains this;
    /// rules may rely on it when they move by the remembered direction.
    pub open spec fn spec_dir_ok(self) -> bool {
        match self {
            Slot::Water(p) => p.last_dir_x == 1 || p.last_dir_x == -1i32,
            _ => true,
        }
    }

    /// A fresh instance of the given kind, as painting and growing
    /// create it.
    pub fn of_kind(kind: ParticleKind) -> (s: Slot)
        ensures
            s == Slot::spec_fresh(kind),
    {
        match kind {
            ParticleKind::Background => Slot::Background(Background),
            ParticleKind::Concrete => Slot::Concrete(ConcreteParticle),
            ParticleKind::Salt => Slot::Salt(SaltParticle::new()),
            ParticleKind::Water => Slot::Water(WaterParticle::new()),
            ParticleKind::Wood => Slot::Wood(WoodParticle::new()),
            ParticleKind::Cornucopia => Slot::Cornucopia(CornucopiaParticle::new()),
        }
    }

    pub fn kind(&self) -> (k: ParticleKind)
        ensures
            k == self.spec_kind(),
    {
        match self {
            Slot::Background(p) => p.get_type(),
            Slot::Concrete(p) => p.get_type(),
            Slot::Salt(p) => p.get_type(),
            Slot::Water(p) => p.get_type(),
            Slot::Wood(p) => p.get_type(),
            Slot::Cornucopia(p) => p.get_type(),
        }
    }

    pub fn colour(&self) -> (c: Colour)
        ensures
            c == self.spec_colour(),
    {
        match self {
            Slot::Background(p) => p.get_colour(),
            Slot::Concrete(p) => p.get_colour(),
            Slot::Salt(p) => p.get_colour(),
            Slot::Water(p) => p.get_colour(),
            Slot::Wood(p) => p.get_colour(),
            Slot::Cornucopia(p) => p.get_colour(),
        }
    }

    pub fn was_processed(&self) -> (r: bool)
        ensures
            r == self.spec_processed(),
    {
        match self {
            Slot::Background(p) => p.get_was_processed(),
            Slot::Concrete(p) => p.get_was_processed(),
            Slot::Salt(p) => p.get_was_processed(),
            Slot::Water(p) => p.get_was_processed(),
            Slot::Wood(p) => p.get_was_processed(),
            Slot::Cornucopia(p) => p.get_was_processed(),
        }
    }

    pub fn mark_processed(&mut self)
        ensures
            *final(self) == old(self).spec_mark_processed(),
    {
        match self {
            Slot::Background(p) => p.set_processed(),
            Slot::Concrete(p) => p.set_processed(),
            Slot::Salt(p) => p.set_processed(),
            Slot::Water(p) => p.set_processed(),
            Slot::Wood(p) => p.set_processed(),
            Slot::Cornucopia(p) => p.set_processed(),
        }
    }

    /// Run the start-of-tick hook.
    pub fn advance(&mut self)
        ensures
            *final(self) == old(self).spec_advanced(),
    {
        match self {
            Slot::Background(p) => p.tick(),
            Slot::Concrete(p) => p.tick(),
            Slot::Salt(p) => p.tick(),
            Slot::Water(p) => p.tick(),
            Slot::Wood(p) => p.tick(),
            Slot::Cornucopia(p) => p.tick(),
        }
    }

    /// Evaluate this occupant's rule, updating its internal state.
    pub fn act(&mut self, nb: Neighbours) -> (action: Action)
        ensures
            action == old(self).spec_action(nb),
            *final(self) == old(self).spec_after_action(nb),
    {
        match self {
            Slot::Background(p) => p.get_action(nb),
            Slot::Concrete(p) => p.get_action(nb),
            Slot::Salt(p) => p.get_action(nb),
            Slot::Water(p) => p.get_action(nb),
            Slot::Wood(p) => p.get_action(nb),
            Slot::Cornucopia(p) => p.get_action(nb),
        }
    }
}

} // verus!
