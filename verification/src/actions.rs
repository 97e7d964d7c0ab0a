use vstd::prelude::*;
use crate::kinds::ParticleKind;

verus! {

/// The outcome a particle's rule selects for its cell in one tick.
///
/// Offsets are relative to the acting cell: `x` grows rightwards along a
/// row, `y` grows downwards along a column.
#[derive(Copy, Clone, PartialEq, Eq, Structural, Debug)]
pub enum Action {
    /// The cell becomes empty (a fresh background particle).
    Pop,
    /// No change this tick.
    StayPut,
    /// The acting particle relocates by the offset; the source cell
    /// becomes empty. A destination outside the grid drops the move.
    MoveInto { x: i32, y: i32 },
    /// A fresh particle of the given kind is created at the offset; the
    /// acting particle itself stays where it is.
    GrowInto { x: i32, y: i32, kind: ParticleKind },
    /// Reserved: declared in the action vocabulary but deliberately
    /// given no behaviour, so resolving it changes nothing.
    Become(ParticleKind),
}

} // verus!
