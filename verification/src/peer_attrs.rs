//! The two attributes of a peering that communities encode.

use vstd::prelude::*;

verus! {

/// Business relationship of the peer, as seen from the local network.
#[derive(Clone, Copy, Debug, PartialEq, Eq, Hash, Structural)]
pub enum PeerType {
    Customer,
    Peer,
    PaidPeer,
    Upstream,
}

/// Region in which the route was learned.
#[derive(Clone, Copy, Debug, PartialEq, Eq, Hash, Structural)]
pub enum PeerLocation {
    Africa,
    AsiaPac,
    Europe,
    MiddleEast,
    NorthAmerica,
    SouthAmerica,
}

impl PeerType {
    /// Number under which the variant is stored in a map.
    pub open spec fn spec_code(self) -> u8 {
        match self {
            PeerType::Customer => 0,
            PeerType::Peer => 1,
            PeerType::PaidPeer => 2,
            PeerType::Upstream => 3,
        }
    }

    /// Number under which the variant is stored in a map. Distinct variants
    /// have distinct numbers.
    pub fn code(&self) -> (c: u8)
        ensures
            c == self.spec_code(),
            c < 4,
    {
        match self {
            PeerType::Customer => 0,
            PeerType::Peer => 1,
            PeerType::PaidPeer => 2,
            PeerType::Upstream => 3,
        }
    }

    /// Name of the variant, as it appears in exported data.
    pub fn name(&self) -> (s: &'static str)
        ensures
            s@ == match *self {
                PeerType::Customer => "Customer"@,
                PeerType::Peer => "Peer"@,
                PeerType::PaidPeer => "PaidPeer"@,
                PeerType::Upstream => "Upstream"@,
            },
    {
        match self {
            PeerType::Customer => "Customer",
            PeerType::Peer => "Peer",
            PeerType::PaidPeer => "PaidPeer",
            PeerType::Upstream => "Upstream",
        }
    }
}

impl PeerLocation {
    /// Number under which the variant is stored in a map.
    pub open spec fn spec_code(self) -> u8 {
        match self {
            PeerLocation::Africa => 0,
            PeerLocation::AsiaPac => 1,
            PeerLocation::Europe => 2,
            PeerLocation::MiddleEast => 3,
            PeerLocation::NorthAmerica => 4,
            PeerLocation::SouthAmerica => 5,
        }
    }

    /// Number under which the variant is stored in a map. Distinct variants
    /// have distinct numbers.
    pub fn code(&self) -> (c: u8)
        ensures
            c == self.spec_code(),
            c < 6,
    {
        match self {
            PeerLocation::Africa => 0,
            PeerLocation::AsiaPac => 1,
            PeerLocation::Europe => 2,
            PeerLocation::MiddleEast => 3,
            PeerLocation::NorthAmerica => 4,
            PeerLocation::SouthAmerica => 5,
        }
    }

    /// Name of the variant, as it appears in exported data.
    pub fn name(&self) -> (s: &'static str)
        ensures
            s@ == match *self {
                PeerLocation::Africa => "Africa"@,
                PeerLocation::AsiaPac => "AsiaPac"@,
                PeerLocation::Europe => "Europe"@,
                PeerLocation::MiddleEast => "MiddleEast"@,
                PeerLocation::NorthAmerica => "NorthAmerica"@,
                PeerLocation::SouthAmerica => "SouthAmerica"@,
            },
    {
        match self {
            PeerLocation::Africa => "Africa",
            PeerLocation::AsiaPac => "AsiaPac",
            PeerLocation::Europe => "Europe",
            PeerLocation::MiddleEast => "MiddleEast",
            PeerLocation::NorthAmerica => "NorthAmerica",
            PeerLocation::SouthAmerica => "SouthAmerica",
        }
    }
}

} // verus!
