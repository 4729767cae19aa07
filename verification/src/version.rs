//! The protocol-version classifier: a totally ordered version tag and the
//! two threshold predicates that select the commitment layout.

use vstd::prelude::*;

verus! {

/// First version of the unified contract layout ("boojum").
pub const BOOJUM_BOUNDARY: u16 = 18;

/// First version of the revised data-availability commitment layout.
pub const V1_4_2_BOUNDARY: u16 = 21;

/// Documented fallback for a batch whose header records no version.
pub const LAST_POTENTIALLY_UNDEFINED: u16 = 21;

/// A protocol version: a totally ordered tag, compared against the two fixed
/// boundary versions and never inspected otherwise.
#[derive(Clone, Copy, PartialEq, Eq, Structural, Debug)]
pub struct ProtocolVersionId(pub u16);

impl ProtocolVersionId {
    /// Whether this version predates the unified contract layout.
    pub open spec fn spec_is_pre_boojum(self) -> bool {
        self.0 < BOOJUM_BOUNDARY
    }

    /// Whether this version predates the revised commitment layout.
    pub open spec fn spec_is_pre_1_4_2(self) -> bool {
        self.0 < V1_4_2_BOUNDARY
    }

    pub fn is_pre_boojum(&self) -> (r: bool)
        ensures
            r == self.spec_is_pre_boojum(),
    {
        self.0 < BOOJUM_BOUNDARY
    }

    pub fn is_pre_1_4_2(&self) -> (r: bool)
        ensures
            r == self.spec_is_pre_1_4_2(),
    {
        self.0 < V1_4_2_BOUNDARY
    }

    /// The fallback version used when a batch header records none.
    pub fn last_potentially_undefined() -> (r: Self)
        ensures
            r == ProtocolVersionId(LAST_POTENTIALLY_UNDEFINED),
    {
        ProtocolVersionId(LAST_POTENTIALLY_UNDEFINED)
    }
}

/// The legal region ordering is pre-boojum < [boojum, 1.4.2) < [1.4.2, oo):
/// the boojum boundary lies strictly below the 1.4.2 boundary, so every
/// pre-boojum version is also pre-1.4.2, and the two predicates never place
/// a version below the boojum boundary but at or above the 1.4.2 boundary.
pub proof fn lemma_version_regions(v: ProtocolVersionId)
    ensures
        v.spec_is_pre_boojum() ==> v.spec_is_pre_1_4_2(),
{
}

} // verus!
