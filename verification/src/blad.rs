use vstd::prelude::*;

verus! {

/// The fatal failures of this crate: the two tour-invariant violations that
/// the guard reports, and the numeric degeneracy of depositing pheromone
/// over a zero-cost edge.
#[derive(Debug, Clone, Copy, PartialEq, Eq, Structural)]
pub enum Blad {
    ZlaDlugoscTrasy,
    PowtorzoneMiasto,
    ZerowyKosztKrawedzi,
}

} // verus!
