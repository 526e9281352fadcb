//! The capability interface shared by the closed hardfork enumerations.

pub mod ethereum;

use vstd::prelude::*;

verus! {

/// A named, totally ordered protocol upgrade point.
///
/// Each implementing enumeration fixes a canonical historical order.  The
/// order is definitional — it encodes the historical sequence of upgrades, not
/// an alphabetical one — and each variant's position in it, its ordinal, is a
/// stable array index: new upgrades are appended after the last known one and
/// shipped variants never move.
pub trait Hardfork: Sized {
    /// The variant's position in the canonical historical order.
    spec fn spec_ordinal(&self) -> int;

    /// The variant's name, as a sequence of characters.
    spec fn spec_name(&self) -> Seq<char>;

    /// The canonical order is total: distinct variants occupy distinct
    /// positions, so a variant's ordinal identifies it.
    proof fn lemma_ordinal_injective(a: Self, b: Self)
        ensures
            a.spec_ordinal() == b.spec_ordinal() ==> a == b,
    ;

    /// Returns the variant's position in the canonical historical order,
    /// usable as a table index.
    fn idx(&self) -> (r: usize)
        ensures
            r as int == self.spec_ordinal(),
    ;

    /// Returns the variant's name.
    fn name(&self) -> (r: &'static str)
        ensures
            r@ == self.spec_name(),
    ;
}

} // verus!
