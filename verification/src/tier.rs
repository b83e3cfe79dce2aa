//! The fixed, ordered set of quality tiers a request may download.

use vstd::prelude::*;

verus! {

/// A quality tier of the upstream media: the fixed set, in download order.
#[derive(Clone, Copy, PartialEq, Eq, Structural, Debug)]
pub enum Tier {
    /// Highest quality; resolved from the upstream "high" field.
    Best,
    /// Medium quality; resolved from the upstream "mid" field.
    Mid,
}

/// The file-name stem a tier's cache entry uses.
pub open spec fn tier_name_spec(t: Tier) -> Seq<char> {
    match t {
        Tier::Best => "best"@,
        Tier::Mid => "mid"@,
    }
}

impl Tier {
    /// The file-name stem for this tier's cache entry.
    pub fn name(&self) -> (r: &'static str)
        ensures
            r@ == tier_name_spec(*self),
    {
        match self {
            Tier::Best => "best",
            Tier::Mid => "mid",
        }
    }
}

} // verus!
