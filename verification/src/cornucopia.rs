use vstd::prelude::*;
use crate::actions::Action;
use crate::colour::Colour;
use crate::kinds::ParticleKind;
use crate::particle::{Neighbours, Particle};
use crate::processable::Processable;

verus! {

/// A perpetual source. It starts with no kind locked (represented as
/// `Background`); on first contact it locks onto the first
/// non-background neighbour, in row-major scan order, and from then on
/// spawns one particle of that kind per tick into the first empty
/// neighbour, again in row-major scan order. Its processed flag is
/// structurally `false`: it is re-evaluated every tick forever.
#[derive(Copy, Clone, PartialEq, Eq, Structural, Debug)]
pub struct CornucopiaParticle {
    pub particle_kind_to_create: ParticleKind,
}

impl CornucopiaParticle {
    /// The first non-background kind among the eight neighbours, in
    /// row-major order; `Background` if there is none.
    pub open spec fn spec_found_kind(nb: Neighbours) -> ParticleKind {
        if nb.ul != ParticleKind::Background {
            nb.ul
        } else if nb.up != ParticleKind::Background {
            nb.up
        } else if nb.ur != ParticleKind::Background {
            nb.ur
        } else if nb.left != ParticleKind::Background {
            nb.left
        } else if nb.right != ParticleKind::Background {
            nb.right
        } else if nb.dl != ParticleKind::Background {
            nb.dl
        } else if nb.down != ParticleKind::Background {
            nb.down
        } else if nb.dr != ParticleKind::Background {
            nb.dr
        } else {
            ParticleKind::Background
        }
    }

    /// The first empty neighbour as `(row, column)` of the 3x3 window,
    /// in row-major order.
    pub open spec fn spec_free_neighbour(nb: Neighbours) -> Option<(usize, usize)> {
        if nb.ul == ParticleKind::Background {
            Some((0usize, 0usize))
        } else if nb.up == ParticleKind::Background {
            Some((0usize, 1usize))
        } else if nb.ur == ParticleKind::Background {
            Some((0usize, 2usize))
        } else if nb.left == ParticleKind::Background {
            Some((1usize, 0usize))
        } else if nb.right == ParticleKind::Background {
            Some((1usize, 2usize))
        } else if nb.dl == ParticleKind::Background {
            Some((2usize, 0usize))
        } else if nb.down == ParticleKind::Background {
            Some((2usize, 1usize))
        } else if nb.dr == ParticleKind::Background {
            Some((2usize, 2usize))
        } else {
            None
        }
    }

    /// This particle after it has had the chance to lock a kind: once
    /// something other than background is locked, the lock never
    /// changes again.
    pub open spec fn spec_locked(self, nb: Neighbours) -> CornucopiaParticle {
        if self.particle_kind_to_create == ParticleKind::Background
            && Self::spec_found_kind(nb) != ParticleKind::Background {
            CornucopiaParticle { particle_kind_to_create: Self::spec_found_kind(nb) }
        } else {
            self
        }
    }

    pub fn new() -> (p: CornucopiaParticle)
        ensures
            p == (CornucopiaParticle { particle_kind_to_create: ParticleKind::Background }),
    {
        CornucopiaParticle { particle_kind_to_create: ParticleKind::Background }
    }

    /// Lock a kind if none is locked yet.
    pub fn maybe_find_new_kind(&mut self, neighbours: &Neighbours)
        ensures
            *final(self) == old(self).spec_locked(*neighbours),
    {
        if self.particle_kind_to_create == ParticleKind::Background {
            self.find_new_kind(neighbours);
        }
    }

    /// Lock the first non-background neighbour; leave the current lock
    /// if every neighbour is background.
    pub fn find_new_kind(&mut self, neighbours: &Neighbours)
        ensures
            *final(self) == (if Self::spec_found_kind(*neighbours) != ParticleKind::Background {
                CornucopiaParticle { particle_kind_to_create: Self::spec_found_kind(*neighbours) }
            } else {
                *old(self)
            }),
    {
        let found = Self::find_first_kind(neighbours);
        if found != ParticleKind::Background {
            self.particle_kind_to_create = found;
        }
    }

    fn find_first_kind(neighbours: &Neighbours) -> (k: ParticleKind)
        ensures
            k == Self::spec_found_kind(*neighbours),
    {
        if neighbours.ul != ParticleKind::Background {
            neighbours.ul
        } else if neighbours.up != ParticleKind::Background {
            neighbours.up
        } else if neighbours.ur != ParticleKind::Background {
            neighbours.ur
        } else if neighbours.left != ParticleKind::Background {
            neighbours.left
        } else if neighbours.right != ParticleKind::Background {
            neighbours.right
        } else if neighbours.dl != ParticleKind::Background {
            neighbours.dl
        } else if neighbours.down != ParticleKind::Background {
            neighbours.down
        } else if neighbours.dr != ParticleKind::Background {
            neighbours.dr
        } else {
            ParticleKind::Background
        }
    }

    /// The first empty neighbour as `(row, column)` of the 3x3 window.
    pub fn find_free_neighbour(neighbours: &Neighbours) -> (r: Option<(usize, usize)>)
        ensures
            r == Self::spec_free_neighbour(*neighbours),
    {
        if neighbours.ul == ParticleKind::Background {
            Some((0, 0))
        } else if neighbours.up == ParticleKind::Background {
            Some((0, 1))
        } else if neighbours.ur == ParticleKind::Background {
            Some((0, 2))
        } else if neighbours.left == ParticleKind::Background {
            Some((1, 0))
        } else if neighbours.right == ParticleKind::Background {
            Some((1, 2))
        } else if neighbours.dl == ParticleKind::Background {
            Some((2, 0))
        } else if neighbours.down == ParticleKind::Background {
            Some((2, 1))
        } else if neighbours.dr == ParticleKind::Background {
            Some((2, 2))
        } else {
            None
        }
    }
}

impl Processable for CornucopiaParticle {
    open spec fn spec_processed(self) -> bool {
        false
    }

    open spec fn spec_mark_processed(self) -> Self {
        self
    }

    open spec fn spec_clear_processed(self) -> Self {
        self
    }

    fn get_was_processed(&self) -> (r: bool) {
        false
    }

    fn set_processed(&mut self) {
    }

    fn set_not_processed(&mut self) {
    }
}

impl Particle for CornucopiaParticle {
    open spec fn spec_kind(self) -> ParticleKind {
        ParticleKind::Cornucopia
    }

    open spec fn spec_colour(self) -> Colour {
        Colour { r: 0, g: 255, b: 0 }
    }

    open spec fn spec_action(self, neighbours: Neighbours) -> Action {
        let locked = self.spec_locked(neighbours);
        if locked.particle_kind_to_create != ParticleKind::Background {
            match Self::spec_free_neighbour(neighbours) {
                Some(rc) => Action::GrowInto {
                    x: ((rc.1 as int) - 1) as i32,
                    y: ((rc.0 as int) - 1) as i32,
                    kind: locked.particle_kind_to_create,
                },
                None => Action::StayPut,
            }
        } else {
            Action::StayPut
        }
    }

    open spec fn spec_after_action(self, neighbours: Neighbours) -> Self {
        self.spec_locked(neighbours)
    }

    open spec fn spec_ticked(self) -> Self {
        self
    }

    fn get_action(&mut self, neighbours: Neighbours) -> (action: Action) {
        self.maybe_find_new_kind(&neighbours);

        if self.particle_kind_to_create != ParticleKind::Background {
            match Self::find_free_neighbour(&neighbours) {
                Some((i, j)) => Action::GrowInto {
                    x: j as i32 - 1,
                    y: i as i32 - 1,
                    kind: self.particle_kind_to_create,
                },
                None => Action::StayPut,
            }
        } else {
            Action::StayPut
        }
    }

    fn get_type(&self) -> (kind: ParticleKind) {
        ParticleKind::Cornucopia
    }

    fn get_colour(&self) -> (colour: Colour) {
        Colour::new(0, 255, 0)
    }

    fn tick(&mut self) {
    }
}

} // verus!
