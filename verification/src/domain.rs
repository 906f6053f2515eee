//! Transcript domain registry: the fixed per-variant domain labels and
//! generator configuration that must match between proving and verifying.

use vstd::prelude::*;

verus! {

/// The protocol variants.  Proofs are only meaningful relative to the domain
/// they were created under.
#[derive(Clone, Copy, PartialEq, Eq, Structural, Debug)]
pub enum TranscriptDomain {
    /// Classic single-scalar mode.
    ClassicSingle,
    /// Classic 4-limb mode (exact 256-bit decomposition).
    ClassicFourLimb,
    /// Alternate-curve "plus" mode.
    Plus,
}

impl TranscriptDomain {
    /// The domain separation label mixed into the transcript.
    pub open spec fn spec_label(self) -> Seq<char> {
        match self {
            TranscriptDomain::ClassicSingle => "TxIDPedersenZKP"@,
            TranscriptDomain::ClassicFourLimb => "TxIDPedersenZKP4Limb"@,
            TranscriptDomain::Plus => "TxIDPedersenZKPPlus"@,
        }
    }

    /// The hard-coded label of this variant.
    pub fn label(self) -> (r: &'static str)
        ensures
            r@ == self.spec_label(),
    {
        match self {
            TranscriptDomain::ClassicSingle => "TxIDPedersenZKP",
            TranscriptDomain::ClassicFourLimb => "TxIDPedersenZKP4Limb",
            TranscriptDomain::Plus => "TxIDPedersenZKPPlus",
        }
    }

    /// The party count of the generator parameters: one commitment per party.
    pub open spec fn spec_parties(self) -> usize {
        match self {
            TranscriptDomain::ClassicSingle => 1usize,
            TranscriptDomain::ClassicFourLimb => 4usize,
            TranscriptDomain::Plus => 1usize,
        }
    }

    /// The party count, fixed per variant.
    pub fn parties(self) -> (r: usize)
        ensures
            r == self.spec_parties(),
    {
        match self {
            TranscriptDomain::ClassicSingle => 1,
            TranscriptDomain::ClassicFourLimb => 4,
            TranscriptDomain::Plus => 1,
        }
    }

    /// The generator bit width, identical for every variant.
    pub open spec fn spec_bit_width(self) -> usize {
        64usize
    }

    /// The bit width of the generator parameters.
    pub fn bit_width(self) -> (r: usize)
        ensures
            r == self.spec_bit_width(),
    {
        64
    }
}

/// Domain separation: distinct protocol variants carry distinct transcript
/// labels, so a transcript started under one variant never equals another's.
pub proof fn lemma_domain_labels_distinct(d1: TranscriptDomain, d2: TranscriptDomain)
    requires
        d1 != d2,
    ensures
        d1.spec_label() != d2.spec_label(),
{
    reveal_strlit("TxIDPedersenZKP");
    reveal_strlit("TxIDPedersenZKP4Limb");
    reveal_strlit("TxIDPedersenZKPPlus");
    assert(d1.spec_label().len() != d2.spec_label().len());
}

} // verus!
