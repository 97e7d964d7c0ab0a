use vstd::prelude::*;

verus! {

/// The closed set of particle species a cell can hold.
///
/// `Background` doubles as "the cell is empty": a grid never has vacant
/// slots, an empty cell simply holds a background particle.
#[derive(Copy, Clone, PartialEq, Eq, Structural, Debug)]
pub enum ParticleKind {
    Background,
    Salt,
    Water,
    Concrete,
    Wood,
    Cornucopia,
}

/// The closed list of kinds a brush can paint, for building a palette
/// or menu.
pub fn paintable_kinds() -> (v: Vec<ParticleKind>)
    ensures
        v@ =~= seq![
            ParticleKind::Background,
            ParticleKind::Salt,
            ParticleKind::Concrete,
            ParticleKind::Water,
            ParticleKind::Cornucopia,
            ParticleKind::Wood,
        ],
{
    let mut v: Vec<ParticleKind> = Vec::new();
    v.push(ParticleKind::Background);
    v.push(ParticleKind::Salt);
    v.push(ParticleKind::Concrete);
    v.push(ParticleKind::Water);
    v.push(ParticleKind::Cornucopia);
    v.push(ParticleKind::Wood);
    v
}

} // verus!
