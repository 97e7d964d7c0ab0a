use vstd::prelude::*;

verus! {

/// A pair of grid coordinates: column first, then row.
#[derive(Clone, Hash, Eq)]
pub struct Point(pub usize, pub usize);

impl PartialEq for Point {
    fn eq(&self, other: &Self) -> (r: bool) {
        (self.0 == other.0) && (self.1 == other.1)
    }
}

impl vstd::std_specs::cmp::PartialEqSpecImpl for Point {
    open spec fn obeys_eq_spec() -> bool {
        true
    }

    open spec fn eq_spec(&self, other: &Point) -> bool {
        self.0 == other.0 && self.1 == other.1
    }
}

} // verus!
