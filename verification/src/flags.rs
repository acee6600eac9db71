//! The packed operand of the array-expansion opcode.

use vstd::prelude::*;

verus! {

/// Packed bit-set operand of the array-expansion opcode. The named
/// predicates below are the only sanctioned reading of the raw bits; their
/// bit positions are fixed and must not be reordered.
#[derive(Clone, Copy, Debug, PartialEq, Eq, Structural)]
pub struct ExpandArrayFlags(pub u32);

impl ExpandArrayFlags {
    /// Bit 0: the remaining elements are collected into a rest-arguments
    /// array.
    pub open spec fn spec_rest_args_array(self) -> bool {
        self.0 & 0x1 != 0
    }

    /// Bit 1: the expansion feeds post-arguments (elements taken from the
    /// tail of the array).
    pub open spec fn spec_post_arg(self) -> bool {
        self.0 & 0x2 != 0
    }

    /// The reverse-order test reads the low two bits together (`& 0x3`),
    /// not a bit of its own. That makes it exactly the disjunction of the
    /// other two predicates (see [`lemma_reverse_is_rest_or_post`]); the
    /// test is kept exactly as documented rather than "corrected" to a
    /// third bit.
    pub open spec fn spec_reverse(self) -> bool {
        self.0 & 0x3 != 0
    }

    /// Whether the remaining elements are collected into a rest-arguments
    /// array (bit 0).
    pub fn rest_args_array(&self) -> (r: bool)
        ensures
            r == self.spec_rest_args_array(),
    {
        self.0 & 0x1 != 0
    }

    /// Whether the expansion feeds post-arguments (bit 1).
    pub fn post_arg(&self) -> (r: bool)
        ensures
            r == self.spec_post_arg(),
    {
        self.0 & 0x2 != 0
    }

    /// Whether the expansion runs in reverse order (low two bits, see
    /// [`Self::spec_reverse`]).
    pub fn reverse(&self) -> (r: bool)
        ensures
            r == self.spec_reverse(),
    {
        self.0 & 0x3 != 0
    }
}

/// The reverse predicate tests the low two bits at once, so it holds exactly
/// when at least one of the other two predicates holds. This pins down the
/// known quirk of the flag encoding: reverse order is not a separate bit.
pub proof fn lemma_reverse_is_rest_or_post(f: ExpandArrayFlags)
    ensures
        f.spec_reverse() <==> (f.spec_rest_args_array() || f.spec_post_arg()),
{
    let b = f.0;
    assert((b & 0x3 != 0) == ((b & 0x1 != 0) || (b & 0x2 != 0))) by (bit_vector);
}

} // verus!
