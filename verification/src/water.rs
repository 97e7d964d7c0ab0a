use vstd::prelude::*;
use crate::actions::Action;
use crate::colour::Colour;
use crate::kinds::ParticleKind;
use crate::particle::{Neighbours, Particle};
use crate::processable::Processable;

verus! {

/// A liquid with flow-direction memory.
///
/// Water prefers to fall straight down, then diagonally down, then to
/// flow sideways. Whenever only one side is open it remembers that
/// side; on a tie it keeps flowing in the remembered direction, which
/// damps left/right flicker. A fresh particle remembers "right".
#[derive(Copy, Clone, PartialEq, Eq, Structural, Debug)]
pub struct WaterParticle {
    pub processed: bool,
    pub last_dir_x: i32,
}

impl WaterParticle {
    /// Whether a neighbouring cell is open for flowing into.
    pub open spec fn spec_is_empty(k: ParticleKind) -> bool {
        k == ParticleKind::Background
    }

    /// The chosen action together with the direction memory it leaves
    /// behind, as one priority cascade.
    pub open spec fn spec_rule(self, nb: Neighbours) -> (Action, WaterParticle) {
        if Self::spec_is_empty(nb.down) {
            (Action::MoveInto { x: 0, y: 1 }, self)
        } else if Self::spec_is_empty(nb.dl) && Self::spec_is_empty(nb.dr) {
            (Action::MoveInto { x: self.last_dir_x, y: 1 }, self)
        } else if Self::spec_is_empty(nb.dr) {
            (Action::MoveInto { x: 1, y: 1 }, WaterParticle { last_dir_x: 1, ..self })
        } else if Self::spec_is_empty(nb.dl) {
            (Action::MoveInto { x: -1i32, y: 1 }, WaterParticle { last_dir_x: -1i32, ..self })
        } else if Self::spec_is_empty(nb.left) && Self::spec_is_empty(nb.right) {
            (Action::MoveInto { x: self.last_dir_x, y: 0 }, self)
        } else if Self::spec_is_empty(nb.right) {
            (Action::MoveInto { x: 1, y: 0 }, WaterParticle { last_dir_x: 1, ..self })
        } else if Self::spec_is_empty(nb.left) {
            (Action::MoveInto { x: -1i32, y: 0 }, WaterParticle { last_dir_x: -1i32, ..self })
        } else {
            (Action::StayPut, self)
        }
    }

    pub fn new() -> (p: WaterParticle)
        ensures
            p == (WaterParticle { processed: false, last_dir_x: 1 }),
    {
        WaterParticle { processed: false, last_dir_x: 1 }
    }

    fn is_empty(k: ParticleKind) -> (r: bool)
        ensures
            r == Self::spec_is_empty(k),
    {
        k == ParticleKind::Background
    }
}

impl Processable for WaterParticle {
    open spec fn spec_processed(self) -> bool {
        self.processed
    }

    open spec fn spec_mark_processed(self) -> Self {
        WaterParticle { processed: true, ..self }
    }

    open spec fn spec_clear_processed(self) -> Self {
        WaterParticle { processed: false, ..self }
    }

    fn get_was_processed(&self) -> (r: bool) {
        self.processed
    }

    fn set_processed(&mut self) {
        self.processed = true;
    }

    fn set_not_processed(&mut self) {
        self.processed = false;
    }
}

impl Particle for WaterParticle {
    open spec fn spec_kind(self) -> ParticleKind {
        ParticleKind::Water
    }

    open spec fn spec_colour(self) -> Colour {
        Colour { r: 0, g: 0, b: 255 }
    }

    open spec fn spec_action(self, neighbours: Neighbours) -> Action {
        self.spec_rule(neighbours).0
    }

    open spec fn spec_after_action(self, neighbours: Neighbours) -> Self {
        self.spec_rule(neighbours).1
    }

    open spec fn spec_ticked(self) -> Self {
        self.spec_clear_processed()
    }

    fn get_action(&mut self, neighbours: Neighbours) -> (action: Action) {
        let b_e = Self::is_empty(neighbours.down);
        let ble = Self::is_empty(neighbours.dl);
        let bre = Self::is_empty(neighbours.dr);
        let jle = Self::is_empty(neighbours.left);
        let jre = Self::is_empty(neighbours.right);

        if b_e {
            Action::MoveInto { x: 0, y: 1 }
        } else if ble && bre {
            Action::MoveInto { x: self.last_dir_x, y: 1 }
        } else if bre {
            self.last_dir_x = 1;
            Action::MoveInto { x: 1, y: 1 }
        } else if ble {
            self.last_dir_x = -1;
            Action::MoveInto { x: -1, y: 1 }
        } else if jle && jre {
            Action::MoveInto { x: self.last_dir_x, y: 0 }
        } else if jre {
            self.last_dir_x = 1;
            Action::MoveInto { x: 1, y: 0 }
        } else if jle {
            self.last_dir_x = -1;
            Action::MoveInto { x: -1, y: 0 }
        } else {
            Action::StayPut
        }
    }

    fn get_type(&self) -> (kind: ParticleKind) {
        ParticleKind::Water
    }

    fn get_colour(&self) -> (colour: Colour) {
        Colour::new(0, 0, 255)
    }

    fn tick(&mut self) {
        self.set_not_processed();
    }
}

} // verus!
