//! The rules of the Tier 1 networks: which of a network's communities tell the
//! relationship with the peer that a route was learned from, and which tell
//! the region where it was learned.

use crate::comm_mappings::CommMappings;
use crate::mrt_asn::{is_tier1, TIER1_ASNS};
use crate::mrt_communities::StandardCommunity;
use crate::peer_attrs::{PeerLocation, PeerType};
use std::collections::HashMap;
use vstd::prelude::*;

verus! {

/// Relationship that the rules of Cogent give a community.
pub open spec fn cogent_peer_type(c: (u32, u16)) -> Option<PeerType> {
    if c.0 != 174 {
        None
    } else if c.1 == 21000 || c.1 == 21100 || c.1 == 21200 || c.1 == 21300
        || c.1 == 21400 || c.1 == 21500 {
        Some(PeerType::Peer)
    } else if c.1 == 21001 || c.1 == 21101 || c.1 == 21201 || c.1 == 21301
        || c.1 == 21401 || c.1 == 21501 {
        Some(PeerType::Customer)
    } else {
        None
    }
}

/// Region that the rules of Cogent give a community.
pub open spec fn cogent_peer_location(c: (u32, u16)) -> Option<PeerLocation> {
    if c.0 != 174 {
        None
    } else if c.1 == 21000 || c.1 == 21001 {
        Some(PeerLocation::NorthAmerica)
    } else if c.1 == 21100 || c.1 == 21101 {
        Some(PeerLocation::Europe)
    } else if c.1 == 21200 || c.1 == 21201 || c.1 == 21400 || c.1 == 21401 {
        Some(PeerLocation::AsiaPac)
    } else if c.1 == 21300 || c.1 == 21301 {
        Some(PeerLocation::SouthAmerica)
    } else if c.1 == 21500 || c.1 == 21501 {
        Some(PeerLocation::Africa)
    } else {
        None
    }
}

/// Relationship that the rules of Verizon give a community.
pub open spec fn verizon_peer_type(c: (u32, u16)) -> Option<PeerType> {
    if c.0 != 0 {
        None
    } else if c.1 == 201 {
        Some(PeerType::Customer)
    } else if c.1 == 203 {
        Some(PeerType::Peer)
    } else {
        None
    }
}

/// Region that the rules of Verizon give a community.
pub open spec fn verizon_peer_location(c: (u32, u16)) -> Option<PeerLocation> {
    None
}

/// Relationship that the rules of Vodafone give a community.
pub open spec fn vodafone_peer_type(c: (u32, u16)) -> Option<PeerType> {
    if c.0 != 1273 {
        None
    } else if 11000 <= c.1 <= 18999 {
        Some(PeerType::Customer)
    } else if 21000 <= c.1 <= 28999 {
        Some(PeerType::Peer)
    } else if 31000 <= c.1 <= 38999 || 39970 <= c.1 <= 39979 {
        Some(PeerType::Upstream)
    } else {
        None
    }
}

/// Region that the rules of Vodafone give a community.
pub open spec fn vodafone_peer_location(c: (u32, u16)) -> Option<PeerLocation> {
    if c.0 != 1273 {
        None
    } else if 11000 <= c.1 <= 11999 || 21000 <= c.1 <= 21999 || 31000 <= c.1 <= 31999 {
        Some(PeerLocation::NorthAmerica)
    } else if 12000 <= c.1 <= 12999 || 22000 <= c.1 <= 22999 || 32000 <= c.1 <= 32999
        || 17000 <= c.1 <= 17999 || 27000 <= c.1 <= 27999 || 37000 <= c.1 <= 37999 {
        Some(PeerLocation::Europe)
    } else if 13000 <= c.1 <= 13999 || 23000 <= c.1 <= 23999 || 33000 <= c.1 <= 33999
        || 14000 <= c.1 <= 14999 || 24000 <= c.1 <= 24999 || 34000 <= c.1 <= 34999
        || 18000 <= c.1 <= 18999 || 28000 <= c.1 <= 28999 || 38000 <= c.1 <= 38999 {
        Some(PeerLocation::AsiaPac)
    } else if 15000 <= c.1 <= 15999 || 25000 <= c.1 <= 25999 || 35000 <= c.1 <= 35999 {
        Some(PeerLocation::SouthAmerica)
    } else if 16000 <= c.1 <= 16999 || 26000 <= c.1 <= 26999 || 36000 <= c.1 <= 36999 {
        Some(PeerLocation::Africa)
    } else {
        None
    }
}

/// Relationship that the rules of Arelion give a community.
pub open spec fn arelion_peer_type(c: (u32, u16)) -> Option<PeerType> {
    if c.0 != 1299 {
        None
    } else if c.1 == 20000 || c.1 == 25000 || c.1 == 27000 {
        Some(PeerType::Peer)
    } else if c.1 == 30000 || c.1 == 35000 || c.1 == 37000 {
        Some(PeerType::Customer)
    } else {
        None
    }
}

/// Region that the rules of Arelion give a community.
pub open spec fn arelion_peer_location(c: (u32, u16)) -> Option<PeerLocation> {
    if c.0 != 1299 {
        None
    } else if c.1 == 20000 || c.1 == 30000 {
        Some(PeerLocation::Europe)
    } else if c.1 == 25000 || c.1 == 35000 {
        Some(PeerLocation::NorthAmerica)
    } else if c.1 == 27000 || c.1 == 37000 {
        Some(PeerLocation::AsiaPac)
    } else {
        None
    }
}

/// Relationship that the rules of NTT give a community.
pub open spec fn ntt_peer_type(c: (u32, u16)) -> Option<PeerType> {
    if c.0 != 2914 {
        None
    } else if c.1 == 410 {
        Some(PeerType::Customer)
    } else if c.1 == 420 {
        Some(PeerType::Peer)
    } else {
        None
    }
}

/// Region that the rules of NTT give a community.
pub open spec fn ntt_peer_location(c: (u32, u16)) -> Option<PeerLocation> {
    if c.0 != 2914 {
        None
    } else if c.1 == 3000 || c.1 == 3075 {
        Some(PeerLocation::NorthAmerica)
    } else if c.1 == 3200 || c.1 == 3275 {
        Some(PeerLocation::Europe)
    } else if c.1 == 3400 || c.1 == 3475 {
        Some(PeerLocation::AsiaPac)
    } else if c.1 == 3600 || c.1 == 3675 {
        Some(PeerLocation::SouthAmerica)
    } else {
        None
    }
}

/// Relationship that the rules of GTT give a community.
pub open spec fn gtt_peer_type(c: (u32, u16)) -> Option<PeerType> {
    if c.0 != 3257 {
        None
    } else if c.1 == 4000 {
        Some(PeerType::Customer)
    } else if 30000 <= c.1 <= 39999 {
        Some(PeerType::Peer)
    } else {
        None
    }
}

/// Region that the rules of GTT give a community.
pub open spec fn gtt_peer_location(c: (u32, u16)) -> Option<PeerLocation> {
    if c.0 != 3257 {
        None
    } else if c.1 == 50001 {
        Some(PeerLocation::Europe)
    } else if c.1 == 50002 {
        Some(PeerLocation::NorthAmerica)
    } else if c.1 == 50003 {
        Some(PeerLocation::AsiaPac)
    } else {
        None
    }
}

/// Relationship that the rules of Deutsche Telekom give a community.
pub open spec fn dtag_peer_type(c: (u32, u16)) -> Option<PeerType> {
    if c.0 != 3320 {
        None
    } else if c.1 == 9010 {
        Some(PeerType::Customer)
    } else if c.1 == 9020 {
        Some(PeerType::Peer)
    } else {
        None
    }
}

/// Region that the rules of Deutsche Telekom give a community.
pub open spec fn dtag_peer_location(c: (u32, u16)) -> Option<PeerLocation> {
    if c.0 != 3320 {
        None
    } else if c.1 == 2010 {
        Some(PeerLocation::Europe)
    } else if c.1 == 2020 {
        Some(PeerLocation::NorthAmerica)
    } else if c.1 == 2030 {
        Some(PeerLocation::AsiaPac)
    } else {
        None
    }
}

/// Relationship that the rules of Lumen give a community.
pub open spec fn lumen_peer_type(c: (u32, u16)) -> Option<PeerType> {
    if c.0 != 3356 {
        None
    } else if c.1 == 123 {
        Some(PeerType::Customer)
    } else if c.1 == 666 {
        Some(PeerType::Peer)
    } else {
        None
    }
}

/// Region that the rules of Lumen give a community.
pub open spec fn lumen_peer_location(c: (u32, u16)) -> Option<PeerLocation> {
    if c.0 != 3356 {
        None
    } else if c.1 == 2 {
        Some(PeerLocation::Europe)
    } else if c.1 == 3 {
        Some(PeerLocation::NorthAmerica)
    } else if c.1 == 4 {
        Some(PeerLocation::AsiaPac)
    } else if c.1 == 5 {
        Some(PeerLocation::SouthAmerica)
    } else {
        None
    }
}

/// Relationship that the rules of PCCW give a community.
pub open spec fn pccw_peer_type(c: (u32, u16)) -> Option<PeerType> {
    if c.0 != 3491 {
        None
    } else if c.1 == 100 || c.1 == 200 || c.1 == 300 || c.1 == 400 || c.1 == 500
        || c.1 == 700 || c.1 == 9001 {
        Some(PeerType::Customer)
    } else if c.1 == 1000 || c.1 == 2000 || c.1 == 3000 || c.1 == 4000 || c.1 == 5000
        || c.1 == 7000 || c.1 == 9002 {
        Some(PeerType::Peer)
    } else {
        None
    }
}

/// Region that the rules of PCCW give a community.
pub open spec fn pccw_peer_location(c: (u32, u16)) -> Option<PeerLocation> {
    if c.0 != 3491 {
        None
    } else if c.1 == 100 || c.1 == 200 || c.1 == 1000 || c.1 == 2000 {
        Some(PeerLocation::NorthAmerica)
    } else if c.1 == 300 || c.1 == 3000 {
        Some(PeerLocation::Europe)
    } else if c.1 == 400 || c.1 == 700 || c.1 == 4000 || c.1 == 7000 {
        Some(PeerLocation::AsiaPac)
    } else if c.1 == 500 || c.1 == 5000 {
        Some(PeerLocation::Africa)
    } else {
        None
    }
}

/// Relationship that the rules of Orange give a community.
pub open spec fn orange_peer_type(c: (u32, u16)) -> Option<PeerType> {
    if c.0 != 5511 {
        None
    } else if c.1 == 666 {
        Some(PeerType::Peer)
    } else if c.1 == 999 {
        Some(PeerType::Customer)
    } else {
        None
    }
}

/// Region that the rules of Orange give a community.
pub open spec fn orange_peer_location(c: (u32, u16)) -> Option<PeerLocation> {
    if c.0 != 5511 {
        None
    } else if c.1 == 30100 || c.1 == 560 || c.1 == 700 || c.1 == 30194 || c.1 == 540
        || c.1 == 30218 {
        Some(PeerLocation::NorthAmerica)
    } else if c.1 == 30106 || c.1 == 640 || c.1 == 730 || c.1 == 30173 || c.1 == 30184
        || c.1 == 30251 || c.1 == 30343 {
        Some(PeerLocation::Africa)
    } else if c.1 == 30121 || c.1 == 600 || c.1 == 720 || c.1 == 30237 || c.1 == 680
        || c.1 == 30241 || c.1 == 30416 || c.1 == 650 {
        Some(PeerLocation::AsiaPac)
    } else if c.1 == 30139 || c.1 == 500 || c.1 == 710 || c.1 == 30228 || c.1 == 30257
        || c.1 == 30428 {
        Some(PeerLocation::Europe)
    } else if c.1 == 30541 || c.1 == 590 {
        Some(PeerLocation::SouthAmerica)
    } else {
        None
    }
}

/// Relationship that the rules of Tata give a community.
pub open spec fn tata_peer_type(c: (u32, u16)) -> Option<PeerType> {
    if c.0 != 6453 {
        None
    } else if c.1 == 50 {
        Some(PeerType::Customer)
    } else if c.1 == 86 {
        Some(PeerType::Peer)
    } else {
        None
    }
}

/// Region that the rules of Tata give a community.
pub open spec fn tata_peer_location(c: (u32, u16)) -> Option<PeerLocation> {
    if c.0 != 6453 {
        None
    } else if c.1 == 1000 {
        Some(PeerLocation::NorthAmerica)
    } else if c.1 == 2000 {
        Some(PeerLocation::Europe)
    } else if c.1 == 3000 || c.1 == 6000 {
        Some(PeerLocation::AsiaPac)
    } else if c.1 == 4000 {
        Some(PeerLocation::Africa)
    } else {
        None
    }
}

/// Relationship that the rules of Zayo give a community.
pub open spec fn zayo_peer_type(c: (u32, u16)) -> Option<PeerType> {
    if c.0 != 6461 {
        None
    } else if c.1 == 2101 || c.1 == 5998 {
        Some(PeerType::Customer)
    } else if c.1 == 2601 || c.1 == 5994 || c.1 == 5995 || c.1 == 5996 || c.1 == 5997 {
        Some(PeerType::Peer)
    } else {
        None
    }
}

/// Region that the rules of Zayo give a community.
pub open spec fn zayo_peer_location(c: (u32, u16)) -> Option<PeerLocation> {
    if c.0 != 6461 {
        None
    } else if c.1 == 2101 || c.1 == 2601 {
        Some(PeerLocation::NorthAmerica)
    } else if c.1 == 5994 {
        Some(PeerLocation::AsiaPac)
    } else if c.1 == 5996 {
        Some(PeerLocation::Europe)
    } else {
        None
    }
}

/// Relationship that the rules of Telecom Italia Sparkle give a community.
pub open spec fn sparkle_peer_type(c: (u32, u16)) -> Option<PeerType> {
    if c.0 != 6762 {
        None
    } else if c.1 == 40 {
        Some(PeerType::Customer)
    } else {
        None
    }
}

/// Region that the rules of Telecom Italia Sparkle give a community.
pub open spec fn sparkle_peer_location(c: (u32, u16)) -> Option<PeerLocation> {
    if c.0 != 6762 {
        None
    } else if c.1 == 30 {
        Some(PeerLocation::Europe)
    } else if c.1 == 31 {
        Some(PeerLocation::NorthAmerica)
    } else if c.1 == 32 {
        Some(PeerLocation::SouthAmerica)
    } else if c.1 == 33 {
        Some(PeerLocation::AsiaPac)
    } else if c.1 == 34 {
        Some(PeerLocation::Africa)
    } else {
        None
    }
}

/// Relationship that the rules of Liberty Global give a community.
pub open spec fn liberty_global_peer_type(c: (u32, u16)) -> Option<PeerType> {
    if c.0 != 6830 {
        None
    } else if c.1 == 13000 {
        Some(PeerType::Customer)
    } else if c.1 == 16000 || c.1 == 17000 {
        Some(PeerType::Peer)
    } else {
        None
    }
}

/// Region that the rules of Liberty Global give a community.
pub open spec fn liberty_global_peer_location(c: (u32, u16)) -> Option<PeerLocation> {
    None
}

/// Relationship that the rules of Hurricane Electric give a community.
pub open spec fn hurricane_electric_peer_type(c: (u32, u16)) -> Option<PeerType> {
    if c.0 != 6939 {
        None
    } else if c.1 == 1000 {
        Some(PeerType::Customer)
    } else if c.1 == 16000 || c.1 == 17000 {
        Some(PeerType::Peer)
    } else {
        None
    }
}

/// Region that the rules of Hurricane Electric give a community.
pub open spec fn hurricane_electric_peer_location(c: (u32, u16)) -> Option<PeerLocation> {
    if c.0 != 6939 {
        None
    } else if c.1 == 9001 {
        Some(PeerLocation::NorthAmerica)
    } else if c.1 == 9002 {
        Some(PeerLocation::Europe)
    } else if c.1 == 9003 || c.1 == 9006 {
        Some(PeerLocation::AsiaPac)
    } else if c.1 == 9004 {
        Some(PeerLocation::Africa)
    } else if c.1 == 9005 {
        Some(PeerLocation::SouthAmerica)
    } else if c.1 == 9007 {
        Some(PeerLocation::MiddleEast)
    } else {
        None
    }
}

/// Relationship that the rules of AT&T give a community.
pub open spec fn att_peer_type(c: (u32, u16)) -> Option<PeerType> {
    if c.0 != 7018 {
        None
    } else if c.1 == 2000 {
        Some(PeerType::Customer)
    } else if c.1 == 5000 {
        Some(PeerType::Peer)
    } else {
        None
    }
}

/// Region that the rules of AT&T give a community.
pub open spec fn att_peer_location(c: (u32, u16)) -> Option<PeerLocation> {
    None
}

/// Relationship that the rules of Telxius give a community.
pub open spec fn telxius_peer_type(c: (u32, u16)) -> Option<PeerType> {
    if c.0 != 12956 {
        None
    } else if c.1 == 123 {
        Some(PeerType::Customer)
    } else if c.1 == 321 {
        Some(PeerType::Peer)
    } else if c.1 == 322 {
        Some(PeerType::PaidPeer)
    } else {
        None
    }
}

/// Region that the rules of Telxius give a community.
pub open spec fn telxius_peer_location(c: (u32, u16)) -> Option<PeerLocation> {
    if c.0 != 12956 {
        None
    } else if c.1 == 4001 {
        Some(PeerLocation::Europe)
    } else if c.1 == 4002 {
        Some(PeerLocation::SouthAmerica)
    } else if c.1 == 4003 {
        Some(PeerLocation::NorthAmerica)
    } else if c.1 == 4004 {
        Some(PeerLocation::AsiaPac)
    } else if c.1 == 4005 {
        Some(PeerLocation::Africa)
    } else {
        None
    }
}

/// Relationship that the rules of network `asn` give community `c`. Only the Tier 1
/// networks have rules.
pub open spec fn default_peer_type(asn: u32, c: (u32, u16)) -> Option<PeerType> {
    if asn == 174 {
        cogent_peer_type(c)
    } else if asn == 701 {
        verizon_peer_type(c)
    } else if asn == 1273 {
        vodafone_peer_type(c)
    } else if asn == 1299 {
        arelion_peer_type(c)
    } else if asn == 2914 {
        ntt_peer_type(c)
    } else if asn == 3257 {
        gtt_peer_type(c)
    } else if asn == 3320 {
        dtag_peer_type(c)
    } else if asn == 3356 {
        lumen_peer_type(c)
    } else if asn == 3491 {
        pccw_peer_type(c)
    } else if asn == 5511 {
        orange_peer_type(c)
    } else if asn == 6453 {
        tata_peer_type(c)
    } else if asn == 6461 {
        zayo_peer_type(c)
    } else if asn == 6762 {
        sparkle_peer_type(c)
    } else if asn == 6830 {
        liberty_global_peer_type(c)
    } else if asn == 6939 {
        hurricane_electric_peer_type(c)
    } else if asn == 7018 {
        att_peer_type(c)
    } else if asn == 12956 {
        telxius_peer_type(c)
    } else {
        None
    }
}

/// Region that the rules of network `asn` give community `c`. Only the Tier 1
/// networks have rules.
pub open spec fn default_peer_location(asn: u32, c: (u32, u16)) -> Option<PeerLocation> {
    if asn == 174 {
        cogent_peer_location(c)
    } else if asn == 701 {
        verizon_peer_location(c)
    } else if asn == 1273 {
        vodafone_peer_location(c)
    } else if asn == 1299 {
        arelion_peer_location(c)
    } else if asn == 2914 {
        ntt_peer_location(c)
    } else if asn == 3257 {
        gtt_peer_location(c)
    } else if asn == 3320 {
        dtag_peer_location(c)
    } else if asn == 3356 {
        lumen_peer_location(c)
    } else if asn == 3491 {
        pccw_peer_location(c)
    } else if asn == 5511 {
        orange_peer_location(c)
    } else if asn == 6453 {
        tata_peer_location(c)
    } else if asn == 6461 {
        zayo_peer_location(c)
    } else if asn == 6762 {
        sparkle_peer_location(c)
    } else if asn == 6830 {
        liberty_global_peer_location(c)
    } else if asn == 6939 {
        hurricane_electric_peer_location(c)
    } else if asn == 7018 {
        att_peer_location(c)
    } else if asn == 12956 {
        telxius_peer_location(c)
    } else {
        None
    }
}

/// Whether `rules` gives each community the relationship that `of` names,
/// and no other community any.
pub open spec fn type_rules_are(
    rules: CommMappings,
    of: spec_fn((u32, u16)) -> Option<PeerType>,
) -> bool {
    forall|c: (u32, u16)| #[trigger] rules.type_rules().get(c) == of(c)
}

/// Whether `rules` gives each community the region that `of` names, and no
/// other community any.
pub open spec fn location_rules_are(
    rules: CommMappings,
    of: spec_fn((u32, u16)) -> Option<PeerLocation>,
) -> bool {
    forall|c: (u32, u16)| #[trigger] rules.location_rules().get(c) == of(c)
}

/// Whether `rules` holds the rules of network `asn`.
pub open spec fn is_default_rules_of(rules: CommMappings, asn: u32) -> bool {
    &&& type_rules_are(rules, |c: (u32, u16)| default_peer_type(asn, c))
    &&& location_rules_are(rules, |c: (u32, u16)| default_peer_location(asn, c))
}

fn cogent() -> (cm: CommMappings)
    ensures
        type_rules_are(cm, |c: (u32, u16)| cogent_peer_type(c)),
        location_rules_are(cm, |c: (u32, u16)| cogent_peer_location(c)),
{
    let mut cm = CommMappings::new();
    cm.add_peer_type(StandardCommunity::new(174, 21000), PeerType::Peer);
    cm.add_peer_type(StandardCommunity::new(174, 21001), PeerType::Customer);
    cm.add_peer_type(StandardCommunity::new(174, 21100), PeerType::Peer);
    cm.add_peer_type(StandardCommunity::new(174, 21101), PeerType::Customer);
    cm.add_peer_type(StandardCommunity::new(174, 21200), PeerType::Peer);
    cm.add_peer_type(StandardCommunity::new(174, 21201), PeerType::Customer);
    cm.add_peer_type(StandardCommunity::new(174, 21300), PeerType::Peer);
    cm.add_peer_type(StandardCommunity::new(174, 21301), PeerType::Customer);
    cm.add_peer_type(StandardCommunity::new(174, 21400), PeerType::Peer);
    cm.add_peer_type(StandardCommunity::new(174, 21401), PeerType::Customer);
    cm.add_peer_type(StandardCommunity::new(174, 21500), PeerType::Peer);
    cm.add_peer_type(StandardCommunity::new(174, 21501), PeerType::Customer);
    cm.add_peer_location(StandardCommunity::new(174, 21000), PeerLocation::NorthAmerica);
    cm.add_peer_location(StandardCommunity::new(174, 21001), PeerLocation::NorthAmerica);
    cm.add_peer_location(StandardCommunity::new(174, 21100), PeerLocation::Europe);
    cm.add_peer_location(StandardCommunity::new(174, 21101), PeerLocation::Europe);
    cm.add_peer_location(StandardCommunity::new(174, 21200), PeerLocation::AsiaPac);
    cm.add_peer_location(StandardCommunity::new(174, 21201), PeerLocation::AsiaPac);
    cm.add_peer_location(StandardCommunity::new(174, 21300), PeerLocation::SouthAmerica);
    cm.add_peer_location(StandardCommunity::new(174, 21301), PeerLocation::SouthAmerica);
    cm.add_peer_location(StandardCommunity::new(174, 21400), PeerLocation::AsiaPac);
    cm.add_peer_location(StandardCommunity::new(174, 21401), PeerLocation::AsiaPac);
    cm.add_peer_location(StandardCommunity::new(174, 21500), PeerLocation::Africa);
    cm.add_peer_location(StandardCommunity::new(174, 21501), PeerLocation::Africa);
    cm
}

fn verizon() -> (cm: CommMappings)
    ensures
        type_rules_are(cm, |c: (u32, u16)| verizon_peer_type(c)),
        location_rules_are(cm, |c: (u32, u16)| verizon_peer_location(c)),
{
    let mut cm = CommMappings::new();
    cm.add_peer_type(StandardCommunity::new(0, 201), PeerType::Customer);
    cm.add_peer_type(StandardCommunity::new(0, 203), PeerType::Peer);
    cm
}

fn vodafone() -> (cm: CommMappings)
    ensures
        type_rules_are(cm, |c: (u32, u16)| vodafone_peer_type(c)),
        location_rules_are(cm, |c: (u32, u16)| vodafone_peer_location(c)),
{
    let mut cm = CommMappings::new();
    cm.add_peer_type_range(1273, 11000, 18999, PeerType::Customer);
    cm.add_peer_type_range(1273, 21000, 28999, PeerType::Peer);
    cm.add_peer_type_range(1273, 31000, 38999, PeerType::Upstream);
    cm.add_peer_type_range(1273, 39970, 39979, PeerType::Upstream);
    cm.add_peer_location_range(1273, 11000, 11999, PeerLocation::NorthAmerica);
    cm.add_peer_location_range(1273, 21000, 21999, PeerLocation::NorthAmerica);
    cm.add_peer_location_range(1273, 31000, 31999, PeerLocation::NorthAmerica);
    cm.add_peer_location_range(1273, 12000, 12999, PeerLocation::Europe);
    cm.add_peer_location_range(1273, 22000, 22999, PeerLocation::Europe);
    cm.add_peer_location_range(1273, 32000, 32999, PeerLocation::Europe);
    cm.add_peer_location_range(1273, 13000, 13999, PeerLocation::AsiaPac);
    cm.add_peer_location_range(1273, 23000, 23999, PeerLocation::AsiaPac);
    cm.add_peer_location_range(1273, 33000, 33999, PeerLocation::AsiaPac);
    cm.add_peer_location_range(1273, 14000, 14999, PeerLocation::AsiaPac);
    cm.add_peer_location_range(1273, 24000, 24999, PeerLocation::AsiaPac);
    cm.add_peer_location_range(1273, 34000, 34999, PeerLocation::AsiaPac);
    cm.add_peer_location_range(1273, 15000, 15999, PeerLocation::SouthAmerica);
    cm.add_peer_location_range(1273, 25000, 25999, PeerLocation::SouthAmerica);
    cm.add_peer_location_range(1273, 35000, 35999, PeerLocation::SouthAmerica);
    cm.add_peer_location_range(1273, 16000, 16999, PeerLocation::Africa);
    cm.add_peer_location_range(1273, 26000, 26999, PeerLocation::Africa);
    cm.add_peer_location_range(1273, 36000, 36999, PeerLocation::Africa);
    cm.add_peer_location_range(1273, 17000, 17999, PeerLocation::Europe);
    cm.add_peer_location_range(1273, 27000, 27999, PeerLocation::Europe);
    cm.add_peer_location_range(1273, 37000, 37999, PeerLocation::Europe);
    cm.add_peer_location_range(1273, 18000, 18999, PeerLocation::AsiaPac);
    cm.add_peer_location_range(1273, 28000, 28999, PeerLocation::AsiaPac);
    cm.add_peer_location_range(1273, 38000, 38999, PeerLocation::AsiaPac);
    cm
}

fn arelion() -> (cm: CommMappings)
    ensures
        type_rules_are(cm, |c: (u32, u16)| arelion_peer_type(c)),
        location_rules_are(cm, |c: (u32, u16)| arelion_peer_location(c)),
{
    let mut cm = CommMappings::new();
    cm.add_peer_type(StandardCommunity::new(1299, 20000), PeerType::Peer);
    cm.add_peer_type(StandardCommunity::new(1299, 25000), PeerType::Peer);
    cm.add_peer_type(StandardCommunity::new(1299, 27000), PeerType::Peer);
    cm.add_peer_type(StandardCommunity::new(1299, 30000), PeerType::Customer);
    cm.add_peer_type(StandardCommunity::new(1299, 35000), PeerType::Customer);
    cm.add_peer_type(StandardCommunity::new(1299, 37000), PeerType::Customer);
    cm.add_peer_location(StandardCommunity::new(1299, 20000), PeerLocation::Europe);
    cm.add_peer_location(StandardCommunity::new(1299, 25000), PeerLocation::NorthAmerica);
    cm.add_peer_location(StandardCommunity::new(1299, 27000), PeerLocation::AsiaPac);
    cm.add_peer_location(StandardCommunity::new(1299, 30000), PeerLocation::Europe);
    cm.add_peer_location(StandardCommunity::new(1299, 35000), PeerLocation::NorthAmerica);
    cm.add_peer_location(StandardCommunity::new(1299, 37000), PeerLocation::AsiaPac);
    cm
}

fn ntt() -> (cm: CommMappings)
    ensures
        type_rules_are(cm, |c: (u32, u16)| ntt_peer_type(c)),
        location_rules_are(cm, |c: (u32, u16)| ntt_peer_location(c)),
{
    let mut cm = CommMappings::new();
    cm.add_peer_type(StandardCommunity::new(2914, 410), PeerType::Customer);
    cm.add_peer_type(StandardCommunity::new(2914, 420), PeerType::Peer);
    cm.add_peer_location(StandardCommunity::new(2914, 3000), PeerLocation::NorthAmerica);
    cm.add_peer_location(StandardCommunity::new(2914, 3075), PeerLocation::NorthAmerica);
    cm.add_peer_location(StandardCommunity::new(2914, 3200), PeerLocation::Europe);
    cm.add_peer_location(StandardCommunity::new(2914, 3275), PeerLocation::Europe);
    cm.add_peer_location(StandardCommunity::new(2914, 3400), PeerLocation::AsiaPac);
    cm.add_peer_location(StandardCommunity::new(2914, 3475), PeerLocation::AsiaPac);
    cm.add_peer_location(StandardCommunity::new(2914, 3600), PeerLocation::SouthAmerica);
    cm.add_peer_location(StandardCommunity::new(2914, 3675), PeerLocation::SouthAmerica);
    cm
}

fn gtt() -> (cm: CommMappings)
    ensures
        type_rules_are(cm, |c: (u32, u16)| gtt_peer_type(c)),
        location_rules_are(cm, |c: (u32, u16)| gtt_peer_location(c)),
{
    let mut cm = CommMappings::new();
    cm.add_peer_type(StandardCommunity::new(3257, 4000), PeerType::Customer);
    cm.add_peer_type_range(3257, 30000, 39999, PeerType::Peer);
    cm.add_peer_location(StandardCommunity::new(3257, 50001), PeerLocation::Europe);
    cm.add_peer_location(StandardCommunity::new(3257, 50002), PeerLocation::NorthAmerica);
    cm.add_peer_location(StandardCommunity::new(3257, 50003), PeerLocation::AsiaPac);
    cm
}

fn dtag() -> (cm: CommMappings)
    ensures
        type_rules_are(cm, |c: (u32, u16)| dtag_peer_type(c)),
        location_rules_are(cm, |c: (u32, u16)| dtag_peer_location(c)),
{
    let mut cm = CommMappings::new();
    cm.add_peer_type(StandardCommunity::new(3320, 9010), PeerType::Customer);
    cm.add_peer_type(StandardCommunity::new(3320, 9020), PeerType::Peer);
    cm.add_peer_location(StandardCommunity::new(3320, 2010), PeerLocation::Europe);
    cm.add_peer_location(StandardCommunity::new(3320, 2020), PeerLocation::NorthAmerica);
    cm.add_peer_location(StandardCommunity::new(3320, 2030), PeerLocation::AsiaPac);
    cm
}

fn lumen() -> (cm: CommMappings)
    ensures
        type_rules_are(cm, |c: (u32, u16)| lumen_peer_type(c)),
        location_rules_are(cm, |c: (u32, u16)| lumen_peer_location(c)),
{
    let mut cm = CommMappings::new();
    cm.add_peer_type(StandardCommunity::new(3356, 123), PeerType::Customer);
    cm.add_peer_type(StandardCommunity::new(3356, 666), PeerType::Peer);
    cm.add_peer_location(StandardCommunity::new(3356, 2), PeerLocation::Europe);
    cm.add_peer_location(StandardCommunity::new(3356, 3), PeerLocation::NorthAmerica);
    cm.add_peer_location(StandardCommunity::new(3356, 4), PeerLocation::AsiaPac);
    cm.add_peer_location(StandardCommunity::new(3356, 5), PeerLocation::SouthAmerica);
    cm
}

fn pccw() -> (cm: CommMappings)
    ensures
        type_rules_are(cm, |c: (u32, u16)| pccw_peer_type(c)),
        location_rules_are(cm, |c: (u32, u16)| pccw_peer_location(c)),
{
    let mut cm = CommMappings::new();
    cm.add_peer_type(StandardCommunity::new(3491, 100), PeerType::Customer);
    cm.add_peer_type(StandardCommunity::new(3491, 200), PeerType::Customer);
    cm.add_peer_type(StandardCommunity::new(3491, 300), PeerType::Customer);
    cm.add_peer_type(StandardCommunity::new(3491, 400), PeerType::Customer);
    cm.add_peer_type(StandardCommunity::new(3491, 500), PeerType::Customer);
    cm.add_peer_type(StandardCommunity::new(3491, 700), PeerType::Customer);
    cm.add_peer_type(StandardCommunity::new(3491, 1000), PeerType::Peer);
    cm.add_peer_type(StandardCommunity::new(3491, 2000), PeerType::Peer);
    cm.add_peer_type(StandardCommunity::new(3491, 3000), PeerType::Peer);
    cm.add_peer_type(StandardCommunity::new(3491, 4000), PeerType::Peer);
    cm.add_peer_type(StandardCommunity::new(3491, 5000), PeerType::Peer);
    cm.add_peer_type(StandardCommunity::new(3491, 7000), PeerType::Peer);
    cm.add_peer_type(StandardCommunity::new(3491, 9001), PeerType::Customer);
    cm.add_peer_type(StandardCommunity::new(3491, 9002), PeerType::Peer);
    cm.add_peer_location(StandardCommunity::new(3491, 100), PeerLocation::NorthAmerica);
    cm.add_peer_location(StandardCommunity::new(3491, 200), PeerLocation::NorthAmerica);
    cm.add_peer_location(StandardCommunity::new(3491, 300), PeerLocation::Europe);
    cm.add_peer_location(StandardCommunity::new(3491, 400), PeerLocation::AsiaPac);
    cm.add_peer_location(StandardCommunity::new(3491, 500), PeerLocation::Africa);
    cm.add_peer_location(StandardCommunity::new(3491, 700), PeerLocation::AsiaPac);
    cm.add_peer_location(StandardCommunity::new(3491, 1000), PeerLocation::NorthAmerica);
    cm.add_peer_location(StandardCommunity::new(3491, 2000), PeerLocation::NorthAmerica);
    cm.add_peer_location(StandardCommunity::new(3491, 3000), PeerLocation::Europe);
    cm.add_peer_location(StandardCommunity::new(3491, 4000), PeerLocation::AsiaPac);
    cm.add_peer_location(StandardCommunity::new(3491, 5000), PeerLocation::Africa);
    cm.add_peer_location(StandardCommunity::new(3491, 7000), PeerLocation::AsiaPac);
    cm
}

fn orange() -> (cm: CommMappings)
    ensures
        type_rules_are(cm, |c: (u32, u16)| orange_peer_type(c)),
        location_rules_are(cm, |c: (u32, u16)| orange_peer_location(c)),
{
    let mut cm = CommMappings::new();
    cm.add_peer_type(StandardCommunity::new(5511, 666), PeerType::Peer);
    cm.add_peer_type(StandardCommunity::new(5511, 999), PeerType::Customer);
    cm.add_peer_location(StandardCommunity::new(5511, 30100), PeerLocation::NorthAmerica);
    cm.add_peer_location(StandardCommunity::new(5511, 560), PeerLocation::NorthAmerica);
    cm.add_peer_location(StandardCommunity::new(5511, 700), PeerLocation::NorthAmerica);
    cm.add_peer_location(StandardCommunity::new(5511, 30106), PeerLocation::Africa);
    cm.add_peer_location(StandardCommunity::new(5511, 640), PeerLocation::Africa);
    cm.add_peer_location(StandardCommunity::new(5511, 730), PeerLocation::Africa);
    cm.add_peer_location(StandardCommunity::new(5511, 30121), PeerLocation::AsiaPac);
    cm.add_peer_location(StandardCommunity::new(5511, 600), PeerLocation::AsiaPac);
    cm.add_peer_location(StandardCommunity::new(5511, 720), PeerLocation::AsiaPac);
    cm.add_peer_location(StandardCommunity::new(5511, 30139), PeerLocation::Europe);
    cm.add_peer_location(StandardCommunity::new(5511, 500), PeerLocation::Europe);
    cm.add_peer_location(StandardCommunity::new(5511, 710), PeerLocation::Europe);
    cm.add_peer_location(StandardCommunity::new(5511, 30173), PeerLocation::Africa);
    cm.add_peer_location(StandardCommunity::new(5511, 30184), PeerLocation::Africa);
    cm.add_peer_location(StandardCommunity::new(5511, 30194), PeerLocation::NorthAmerica);
    cm.add_peer_location(StandardCommunity::new(5511, 540), PeerLocation::NorthAmerica);
    cm.add_peer_location(StandardCommunity::new(5511, 30218), PeerLocation::NorthAmerica);
    cm.add_peer_location(StandardCommunity::new(5511, 30228), PeerLocation::Europe);
    cm.add_peer_location(StandardCommunity::new(5511, 30237), PeerLocation::AsiaPac);
    cm.add_peer_location(StandardCommunity::new(5511, 680), PeerLocation::AsiaPac);
    cm.add_peer_location(StandardCommunity::new(5511, 30241), PeerLocation::AsiaPac);
    cm.add_peer_location(StandardCommunity::new(5511, 30251), PeerLocation::Africa);
    cm.add_peer_location(StandardCommunity::new(5511, 30541), PeerLocation::SouthAmerica);
    cm.add_peer_location(StandardCommunity::new(5511, 590), PeerLocation::SouthAmerica);
    cm.add_peer_location(StandardCommunity::new(5511, 30257), PeerLocation::Europe);
    cm.add_peer_location(StandardCommunity::new(5511, 30343), PeerLocation::Africa);
    cm.add_peer_location(StandardCommunity::new(5511, 30416), PeerLocation::AsiaPac);
    cm.add_peer_location(StandardCommunity::new(5511, 650), PeerLocation::AsiaPac);
    cm.add_peer_location(StandardCommunity::new(5511, 30428), PeerLocation::Europe);
    cm
}

fn tata() -> (cm: CommMappings)
    ensures
        type_rules_are(cm, |c: (u32, u16)| tata_peer_type(c)),
        location_rules_are(cm, |c: (u32, u16)| tata_peer_location(c)),
{
    let mut cm = CommMappings::new();
    cm.add_peer_type(StandardCommunity::new(6453, 50), PeerType::Customer);
    cm.add_peer_type(StandardCommunity::new(6453, 86), PeerType::Peer);
    cm.add_peer_location(StandardCommunity::new(6453, 1000), PeerLocation::NorthAmerica);
    cm.add_peer_location(StandardCommunity::new(6453, 2000), PeerLocation::Europe);
    cm.add_peer_location(StandardCommunity::new(6453, 3000), PeerLocation::AsiaPac);
    cm.add_peer_location(StandardCommunity::new(6453, 4000), PeerLocation::Africa);
    cm.add_peer_location(StandardCommunity::new(6453, 6000), PeerLocation::AsiaPac);
    cm
}

fn zayo() -> (cm: CommMappings)
    ensures
        type_rules_are(cm, |c: (u32, u16)| zayo_peer_type(c)),
        location_rules_are(cm, |c: (u32, u16)| zayo_peer_location(c)),
{
    let mut cm = CommMappings::new();
    cm.add_peer_type(StandardCommunity::new(6461, 2101), PeerType::Customer);
    cm.add_peer_type(StandardCommunity::new(6461, 2601), PeerType::Peer);
    cm.add_peer_type(StandardCommunity::new(6461, 5994), PeerType::Peer);
    cm.add_peer_type(StandardCommunity::new(6461, 5995), PeerType::Peer);
    cm.add_peer_type(StandardCommunity::new(6461, 5996), PeerType::Peer);
    cm.add_peer_type(StandardCommunity::new(6461, 5997), PeerType::Peer);
    cm.add_peer_type(StandardCommunity::new(6461, 5998), PeerType::Customer);
    cm.add_peer_location(StandardCommunity::new(6461, 2101), PeerLocation::NorthAmerica);
    cm.add_peer_location(StandardCommunity::new(6461, 2601), PeerLocation::NorthAmerica);
    cm.add_peer_location(StandardCommunity::new(6461, 5994), PeerLocation::AsiaPac);
    cm.add_peer_location(StandardCommunity::new(6461, 5996), PeerLocation::Europe);
    cm
}

fn sparkle() -> (cm: CommMappings)
    ensures
        type_rules_are(cm, |c: (u32, u16)| sparkle_peer_type(c)),
        location_rules_are(cm, |c: (u32, u16)| sparkle_peer_location(c)),
{
    let mut cm = CommMappings::new();
    cm.add_peer_type(StandardCommunity::new(6762, 40), PeerType::Customer);
    cm.add_peer_location(StandardCommunity::new(6762, 30), PeerLocation::Europe);
    cm.add_peer_location(StandardCommunity::new(6762, 31), PeerLocation::NorthAmerica);
    cm.add_peer_location(StandardCommunity::new(6762, 32), PeerLocation::SouthAmerica);
    cm.add_peer_location(StandardCommunity::new(6762, 33), PeerLocation::AsiaPac);
    cm.add_peer_location(StandardCommunity::new(6762, 34), PeerLocation::Africa);
    cm
}

fn liberty_global() -> (cm: CommMappings)
    ensures
        type_rules_are(cm, |c: (u32, u16)| liberty_global_peer_type(c)),
        location_rules_are(cm, |c: (u32, u16)| liberty_global_peer_location(c)),
{
    let mut cm = CommMappings::new();
    cm.add_peer_type(StandardCommunity::new(6830, 13000), PeerType::Customer);
    cm.add_peer_type(StandardCommunity::new(6830, 16000), PeerType::Peer);
    cm.add_peer_type(StandardCommunity::new(6830, 17000), PeerType::Peer);
    cm
}

fn hurricane_electric() -> (cm: CommMappings)
    ensures
        type_rules_are(cm, |c: (u32, u16)| hurricane_electric_peer_type(c)),
        location_rules_are(cm, |c: (u32, u16)| hurricane_electric_peer_location(c)),
{
    let mut cm = CommMappings::new();
    cm.add_peer_type(StandardCommunity::new(6939, 1000), PeerType::Customer);
    cm.add_peer_type(StandardCommunity::new(6939, 16000), PeerType::Peer);
    cm.add_peer_type(StandardCommunity::new(6939, 17000), PeerType::Peer);
    cm.add_peer_location(StandardCommunity::new(6939, 9001), PeerLocation::NorthAmerica);
    cm.add_peer_location(StandardCommunity::new(6939, 9002), PeerLocation::Europe);
    cm.add_peer_location(StandardCommunity::new(6939, 9003), PeerLocation::AsiaPac);
    cm.add_peer_location(StandardCommunity::new(6939, 9004), PeerLocation::Africa);
    cm.add_peer_location(StandardCommunity::new(6939, 9005), PeerLocation::SouthAmerica);
    cm.add_peer_location(StandardCommunity::new(6939, 9006), PeerLocation::AsiaPac);
    cm.add_peer_location(StandardCommunity::new(6939, 9007), PeerLocation::MiddleEast);
    cm
}

fn att() -> (cm: CommMappings)
    ensures
        type_rules_are(cm, |c: (u32, u16)| att_peer_type(c)),
        location_rules_are(cm, |c: (u32, u16)| att_peer_location(c)),
{
    let mut cm = CommMappings::new();
    cm.add_peer_type(StandardCommunity::new(7018, 2000), PeerType::Customer);
    cm.add_peer_type(StandardCommunity::new(7018, 5000), PeerType::Peer);
    cm
}

fn telxius() -> (cm: CommMappings)
    ensures
        type_rules_are(cm, |c: (u32, u16)| telxius_peer_type(c)),
        location_rules_are(cm, |c: (u32, u16)| telxius_peer_location(c)),
{
    let mut cm = CommMappings::new();
    cm.add_peer_type(StandardCommunity::new(12956, 123), PeerType::Customer);
    cm.add_peer_type(StandardCommunity::new(12956, 321), PeerType::Peer);
    cm.add_peer_type(StandardCommunity::new(12956, 322), PeerType::PaidPeer);
    cm.add_peer_location(StandardCommunity::new(12956, 4001), PeerLocation::Europe);
    cm.add_peer_location(StandardCommunity::new(12956, 4002), PeerLocation::SouthAmerica);
    cm.add_peer_location(StandardCommunity::new(12956, 4003), PeerLocation::NorthAmerica);
    cm.add_peer_location(StandardCommunity::new(12956, 4004), PeerLocation::AsiaPac);
    cm.add_peer_location(StandardCommunity::new(12956, 4005), PeerLocation::Africa);
    cm
}

/// Puts the rules of each Tier 1 network into `asn_mappings`, in place of
/// any that the network had there. The rules of other networks stay.
pub fn insert_comm_mapping(asn_mappings: &mut HashMap<u32, CommMappings>)
    ensures
        forall|asn: u32| #[trigger]
            final(asn_mappings)@.contains_key(asn) == (old(asn_mappings)@.contains_key(asn)
                || is_tier1(asn)),
        forall|asn: u32|
            is_tier1(asn) ==> is_default_rules_of(#[trigger] final(asn_mappings)@[asn], asn),
        forall|asn: u32|
            !is_tier1(asn) && old(asn_mappings)@.contains_key(asn)
                ==> #[trigger] final(asn_mappings)@[asn] == old(asn_mappings)@[asn],
{
    proof {
        lemma_tier1_list();
    }
    asn_mappings.insert(174, cogent());
    asn_mappings.insert(701, verizon());
    asn_mappings.insert(1273, vodafone());
    asn_mappings.insert(1299, arelion());
    asn_mappings.insert(2914, ntt());
    asn_mappings.insert(3257, gtt());
    asn_mappings.insert(3320, dtag());
    asn_mappings.insert(3356, lumen());
    asn_mappings.insert(3491, pccw());
    asn_mappings.insert(5511, orange());
    asn_mappings.insert(6453, tata());
    asn_mappings.insert(6461, zayo());
    asn_mappings.insert(6762, sparkle());
    asn_mappings.insert(6830, liberty_global());
    asn_mappings.insert(6939, hurricane_electric());
    asn_mappings.insert(7018, att());
    asn_mappings.insert(12956, telxius());
}

/// Whether network `asn` has rules here.
pub open spec fn has_default_rules(asn: u32) -> bool {
    asn == 174
        || asn == 701
        || asn == 1273
        || asn == 1299
        || asn == 2914
        || asn == 3257
        || asn == 3320
        || asn == 3356
        || asn == 3491
        || asn == 5511
        || asn == 6453
        || asn == 6461
        || asn == 6762
        || asn == 6830
        || asn == 6939
        || asn == 7018
        || asn == 12956
}

/// The networks that have rules here are the Tier 1 networks.
pub proof fn lemma_tier1_list()
    ensures
        forall|asn: u32| #[trigger] is_tier1(asn) <==> has_default_rules(asn),
{
    assert forall|asn: u32| #[trigger] is_tier1(asn) implies has_default_rules(asn) by {
        let j = choose|j: int| 0 <= j < TIER1_ASNS@.len() && TIER1_ASNS@[j] == asn;
    }
    assert(TIER1_ASNS@[0] == 174);
    assert(TIER1_ASNS@[1] == 701);
    assert(TIER1_ASNS@[2] == 1273);
    assert(TIER1_ASNS@[3] == 1299);
    assert(TIER1_ASNS@[4] == 2914);
    assert(TIER1_ASNS@[5] == 3257);
    assert(TIER1_ASNS@[6] == 3320);
    assert(TIER1_ASNS@[7] == 3356);
    assert(TIER1_ASNS@[8] == 3491);
    assert(TIER1_ASNS@[9] == 5511);
    assert(TIER1_ASNS@[10] == 6453);
    assert(TIER1_ASNS@[11] == 6461);
    assert(TIER1_ASNS@[12] == 6762);
    assert(TIER1_ASNS@[13] == 6830);
    assert(TIER1_ASNS@[14] == 6939);
    assert(TIER1_ASNS@[15] == 7018);
    assert(TIER1_ASNS@[16] == 12956);
}

} // verus!
