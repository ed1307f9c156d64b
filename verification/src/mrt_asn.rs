//! Autonomous system numbers, the Tier 1 list and the list of sources to skip.

use crate::text::same_text;
use vstd::prelude::*;

verus! {

/// The networks that count as Tier 1.
pub const TIER1_ASNS: [u32; 17] = [
    174, 701, 1273, 1299, 2914, 3257, 3320, 3356, 3491, 5511, 6453, 6461, 6762, 6830, 6939,
    7018, 12956,
];

/// The network whose paths are wrong in some collectors' files.
pub const SKIP_ASN: u32 = 37468;

/// Whether `asn` is one of the Tier 1 networks.
pub open spec fn is_tier1(asn: u32) -> bool {
    TIER1_ASNS@.contains(asn)
}

/// Whether paths that start at `asn` are to be skipped in the file named
/// `file` (a file name without its directories).
pub open spec fn is_skip_entry(asn: u32, file: Seq<char>) -> bool {
    asn == SKIP_ASN && (file == "route-views.napafrica.rib.20260131.0000.bz2"@
        || file == "route-views.ix-br2.gru.rib.20260131.0000.bz2"@
        || file == "route-views2.saopaulo.rib.20260131.0000.bz2"@
        || file == "route-views3.rib.20260131.0000.bz2"@
        || file == "ris.rrc15.bview.20260131.0000.gz"@
        || file == "ris.rrc19.bview.20260131.0000.gz"@)
}

/// An autonomous system number.
#[derive(Clone, Copy, Debug, PartialEq, Eq, Hash, Structural)]
pub struct MrtAsn(pub u32);

impl View for MrtAsn {
    type V = u32;

    open spec fn view(&self) -> u32 {
        self.0
    }
}

impl MrtAsn {
    pub fn new(asn: u32) -> (r: Self)
        ensures
            r@ == asn,
    {
        MrtAsn(asn)
    }

    pub fn from_u32(asn: u32) -> (r: Self)
        ensures
            r@ == asn,
    {
        Self::new(asn)
    }

    pub fn to_u32(self) -> (n: u32)
        ensures
            n == self@,
    {
        self.0
    }

    /// Whether this network is known to send wrong paths to the collector
    /// that wrote the file named `filename`.
    pub fn is_skip_asn(&self, filename: &str) -> (b: bool)
        ensures
            b == is_skip_entry(self@, filename@),
    {
        self.0 == SKIP_ASN && (same_text(filename, "route-views.napafrica.rib.20260131.0000.bz2")
            || same_text(filename, "route-views.ix-br2.gru.rib.20260131.0000.bz2")
            || same_text(filename, "route-views2.saopaulo.rib.20260131.0000.bz2")
            || same_text(filename, "route-views3.rib.20260131.0000.bz2")
            || same_text(filename, "ris.rrc15.bview.20260131.0000.gz")
            || same_text(filename, "ris.rrc19.bview.20260131.0000.gz"))
    }

    /// Whether this network is one of the Tier 1 networks.
    pub fn is_t1_asn(&self) -> (b: bool)
        ensures
            b == is_tier1(self@),
    {
        let mut i: usize = 0;
        while i < 17
            invariant
                i <= 17,
                forall|j: int| 0 <= j < i ==> TIER1_ASNS@[j] != self.0,
            decreases 17 - i,
        {
            if TIER1_ASNS[i] == self.0 {
                return true;
            }
            i += 1;
        }
        false
    }
}

} // verus!
