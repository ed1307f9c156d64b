use std::collections::HashMap;
use tier1_peerings::comm_data::insert_comm_mapping;
use tier1_peerings::comm_mappings::{AsnMappings, CommMappings};
use tier1_peerings::mrt_asn::MrtAsn;
use tier1_peerings::mrt_communities::{Community, StandardCommunities, StandardCommunity};
use tier1_peerings::peer_attrs::{PeerLocation, PeerType};

fn type_of(rules: &AsnMappings, asn: u32, owner: u32, value: u16) -> Option<PeerType> {
    rules.get_asn_peer_type(&MrtAsn::new(asn), &StandardCommunity::new(owner, value))
}

fn location_of(rules: &AsnMappings, asn: u32, owner: u32, value: u16) -> Option<PeerLocation> {
    rules.get_asn_peer_location(&MrtAsn::new(asn), &StandardCommunity::new(owner, value))
}

#[test]
fn tier1_list_has_the_seventeen_networks() {
    let tier1 = [
        174, 701, 1273, 1299, 2914, 3257, 3320, 3356, 3491, 5511, 6453, 6461, 6762, 6830, 6939,
        7018, 12956,
    ];
    for asn in tier1 {
        assert!(MrtAsn::from_u32(asn).is_t1_asn());
    }
    assert!(!MrtAsn::from_u32(65000).is_t1_asn());
    assert!(!MrtAsn::from_u32(0).is_t1_asn());
    assert!(!MrtAsn::from_u32(175).is_t1_asn());
    assert!(!MrtAsn::from_u32(37468).is_t1_asn());
}

#[test]
fn asn_keeps_its_number() {
    assert_eq!(MrtAsn::new(4200000000).to_u32(), 4200000000);
    assert_eq!(MrtAsn::from_u32(174), MrtAsn::new(174));
    assert_ne!(MrtAsn::from_u32(174), MrtAsn::new(175));
}

#[test]
fn skip_list_names_asn_and_file() {
    let asn = MrtAsn::from_u32(37468);
    assert!(asn.is_skip_asn("route-views.napafrica.rib.20260131.0000.bz2"));
    assert!(asn.is_skip_asn("route-views.ix-br2.gru.rib.20260131.0000.bz2"));
    assert!(asn.is_skip_asn("route-views2.saopaulo.rib.20260131.0000.bz2"));
    assert!(asn.is_skip_asn("route-views3.rib.20260131.0000.bz2"));
    assert!(asn.is_skip_asn("ris.rrc15.bview.20260131.0000.gz"));
    assert!(asn.is_skip_asn("ris.rrc19.bview.20260131.0000.gz"));
    assert!(!asn.is_skip_asn("ris.rrc00.bview.20260131.0000.gz"));
    assert!(!asn.is_skip_asn("mrts/ris.rrc19.bview.20260131.0000.gz"));
    assert!(!asn.is_skip_asn(""));
    assert!(!MrtAsn::from_u32(174).is_skip_asn("ris.rrc19.bview.20260131.0000.gz"));
}

#[test]
fn cogent_rules() {
    let rules = AsnMappings::default();
    assert_eq!(type_of(&rules, 174, 174, 21000), Some(PeerType::Peer));
    assert_eq!(type_of(&rules, 174, 174, 21001), Some(PeerType::Customer));
    assert_eq!(type_of(&rules, 174, 174, 21501), Some(PeerType::Customer));
    assert_eq!(type_of(&rules, 174, 174, 21002), None);
    assert_eq!(location_of(&rules, 174, 174, 21001), Some(PeerLocation::NorthAmerica));
    assert_eq!(location_of(&rules, 174, 174, 21100), Some(PeerLocation::Europe));
    assert_eq!(location_of(&rules, 174, 174, 21200), Some(PeerLocation::AsiaPac));
    assert_eq!(location_of(&rules, 174, 174, 21301), Some(PeerLocation::SouthAmerica));
    assert_eq!(location_of(&rules, 174, 174, 21400), Some(PeerLocation::AsiaPac));
    assert_eq!(location_of(&rules, 174, 174, 21500), Some(PeerLocation::Africa));
    assert_eq!(location_of(&rules, 174, 174, 21600), None);
}

#[test]
fn rules_belong_to_one_network() {
    let rules = AsnMappings::default();
    assert_eq!(type_of(&rules, 701, 174, 21001), None);
    assert_eq!(type_of(&rules, 174, 1299, 20000), None);
    assert_eq!(type_of(&rules, 65000, 174, 21001), None);
    assert_eq!(location_of(&rules, 65000, 174, 21001), None);
}

#[test]
fn verizon_rules_are_keyed_by_network_zero() {
    let rules = AsnMappings::default();
    assert_eq!(type_of(&rules, 701, 0, 201), Some(PeerType::Customer));
    assert_eq!(type_of(&rules, 701, 0, 203), Some(PeerType::Peer));
    assert_eq!(type_of(&rules, 701, 701, 201), None);
    assert_eq!(location_of(&rules, 701, 0, 201), None);
}

#[test]
fn vodafone_ranges() {
    let rules = AsnMappings::default();
    assert_eq!(type_of(&rules, 1273, 1273, 10999), None);
    assert_eq!(type_of(&rules, 1273, 1273, 11000), Some(PeerType::Customer));
    assert_eq!(type_of(&rules, 1273, 1273, 18999), Some(PeerType::Customer));
    assert_eq!(type_of(&rules, 1273, 1273, 19000), None);
    assert_eq!(type_of(&rules, 1273, 1273, 21000), Some(PeerType::Peer));
    assert_eq!(type_of(&rules, 1273, 1273, 28999), Some(PeerType::Peer));
    assert_eq!(type_of(&rules, 1273, 1273, 31000), Some(PeerType::Upstream));
    assert_eq!(type_of(&rules, 1273, 1273, 38999), Some(PeerType::Upstream));
    assert_eq!(type_of(&rules, 1273, 1273, 39000), None);
    assert_eq!(type_of(&rules, 1273, 1273, 39969), None);
    assert_eq!(type_of(&rules, 1273, 1273, 39970), Some(PeerType::Upstream));
    assert_eq!(type_of(&rules, 1273, 1273, 39979), Some(PeerType::Upstream));
    assert_eq!(type_of(&rules, 1273, 1273, 39980), None);
    assert_eq!(location_of(&rules, 1273, 1273, 11000), Some(PeerLocation::NorthAmerica));
    assert_eq!(location_of(&rules, 1273, 1273, 11999), Some(PeerLocation::NorthAmerica));
    assert_eq!(location_of(&rules, 1273, 1273, 12000), Some(PeerLocation::Europe));
    assert_eq!(location_of(&rules, 1273, 1273, 23500), Some(PeerLocation::AsiaPac));
    assert_eq!(location_of(&rules, 1273, 1273, 34000), Some(PeerLocation::AsiaPac));
    assert_eq!(location_of(&rules, 1273, 1273, 15999), Some(PeerLocation::SouthAmerica));
    assert_eq!(location_of(&rules, 1273, 1273, 26000), Some(PeerLocation::Africa));
    assert_eq!(location_of(&rules, 1273, 1273, 37000), Some(PeerLocation::Europe));
    assert_eq!(location_of(&rules, 1273, 1273, 27999), Some(PeerLocation::Europe));
    assert_eq!(location_of(&rules, 1273, 1273, 18000), Some(PeerLocation::AsiaPac));
    assert_eq!(location_of(&rules, 1273, 1273, 38999), Some(PeerLocation::AsiaPac));
    assert_eq!(location_of(&rules, 1273, 1273, 39000), None);
    assert_eq!(location_of(&rules, 1273, 1273, 39975), None);
    assert_eq!(location_of(&rules, 1273, 1273, 20999), None);
}

#[test]
fn gtt_rules() {
    let rules = AsnMappings::default();
    assert_eq!(type_of(&rules, 3257, 3257, 4000), Some(PeerType::Customer));
    assert_eq!(type_of(&rules, 3257, 3257, 29999), None);
    assert_eq!(type_of(&rules, 3257, 3257, 30000), Some(PeerType::Peer));
    assert_eq!(type_of(&rules, 3257, 3257, 39999), Some(PeerType::Peer));
    assert_eq!(type_of(&rules, 3257, 3257, 40000), None);
    assert_eq!(location_of(&rules, 3257, 3257, 50001), Some(PeerLocation::Europe));
    assert_eq!(location_of(&rules, 3257, 3257, 50002), Some(PeerLocation::NorthAmerica));
    assert_eq!(location_of(&rules, 3257, 3257, 50003), Some(PeerLocation::AsiaPac));
    assert_eq!(location_of(&rules, 3257, 3257, 50004), None);
}

#[test]
fn rules_of_the_other_networks() {
    let rules = AsnMappings::default();
    assert_eq!(type_of(&rules, 1299, 1299, 27000), Some(PeerType::Peer));
    assert_eq!(type_of(&rules, 1299, 1299, 35000), Some(PeerType::Customer));
    assert_eq!(location_of(&rules, 1299, 1299, 35000), Some(PeerLocation::NorthAmerica));
    assert_eq!(type_of(&rules, 2914, 2914, 410), Some(PeerType::Customer));
    assert_eq!(location_of(&rules, 2914, 2914, 3675), Some(PeerLocation::SouthAmerica));
    assert_eq!(location_of(&rules, 2914, 2914, 410), None);
    assert_eq!(type_of(&rules, 3320, 3320, 9020), Some(PeerType::Peer));
    assert_eq!(location_of(&rules, 3320, 3320, 2030), Some(PeerLocation::AsiaPac));
    assert_eq!(type_of(&rules, 3356, 3356, 123), Some(PeerType::Customer));
    assert_eq!(location_of(&rules, 3356, 3356, 5), Some(PeerLocation::SouthAmerica));
    assert_eq!(type_of(&rules, 3491, 3491, 9002), Some(PeerType::Peer));
    assert_eq!(location_of(&rules, 3491, 3491, 500), Some(PeerLocation::Africa));
    assert_eq!(location_of(&rules, 3491, 3491, 9001), None);
    assert_eq!(type_of(&rules, 5511, 5511, 999), Some(PeerType::Customer));
    assert_eq!(type_of(&rules, 5511, 5511, 680), None);
    assert_eq!(location_of(&rules, 5511, 5511, 30541), Some(PeerLocation::SouthAmerica));
    assert_eq!(location_of(&rules, 5511, 5511, 680), Some(PeerLocation::AsiaPac));
    assert_eq!(type_of(&rules, 6453, 6453, 86), Some(PeerType::Peer));
    assert_eq!(location_of(&rules, 6453, 6453, 4000), Some(PeerLocation::Africa));
    assert_eq!(type_of(&rules, 6461, 6461, 5998), Some(PeerType::Customer));
    assert_eq!(location_of(&rules, 6461, 6461, 5996), Some(PeerLocation::Europe));
    assert_eq!(location_of(&rules, 6461, 6461, 5995), None);
    assert_eq!(type_of(&rules, 6762, 6762, 40), Some(PeerType::Customer));
    assert_eq!(location_of(&rules, 6762, 6762, 34), Some(PeerLocation::Africa));
    assert_eq!(type_of(&rules, 6830, 6830, 17000), Some(PeerType::Peer));
    assert_eq!(location_of(&rules, 6830, 6830, 17000), None);
    assert_eq!(type_of(&rules, 6939, 6939, 1000), Some(PeerType::Customer));
    assert_eq!(location_of(&rules, 6939, 6939, 9007), Some(PeerLocation::MiddleEast));
    assert_eq!(type_of(&rules, 7018, 7018, 5000), Some(PeerType::Peer));
    assert_eq!(type_of(&rules, 12956, 12956, 322), Some(PeerType::PaidPeer));
    assert_eq!(location_of(&rules, 12956, 12956, 4002), Some(PeerLocation::SouthAmerica));
}

#[test]
fn insert_comm_mapping_keeps_foreign_rules_and_replaces_tier1_ones() {
    let mut own = CommMappings::new();
    own.add_peer_type(StandardCommunity::new(65000, 1), PeerType::Upstream);
    let mut stale = CommMappings::new();
    stale.add_peer_type(StandardCommunity::new(174, 1), PeerType::Upstream);
    let mut m: HashMap<u32, CommMappings> = HashMap::new();
    m.insert(65000, own);
    m.insert(174, stale);
    insert_comm_mapping(&mut m);
    assert_eq!(m.len(), 18);
    let rules = AsnMappings::new(m);
    assert_eq!(type_of(&rules, 65000, 65000, 1), Some(PeerType::Upstream));
    assert_eq!(type_of(&rules, 174, 174, 1), None);
    assert_eq!(type_of(&rules, 174, 174, 21000), Some(PeerType::Peer));
}

#[test]
fn comm_mappings_later_rule_replaces_earlier() {
    let mut cm = CommMappings::new();
    let c = StandardCommunity::new(65000, 7);
    assert_eq!(cm.get_peer_type(&c), None);
    assert_eq!(cm.get_peer_location(&c), None);
    cm.add_peer_type(c, PeerType::Peer);
    cm.add_peer_type(c, PeerType::PaidPeer);
    cm.add_peer_location(c, PeerLocation::Africa);
    assert_eq!(cm.get_peer_type(&c), Some(PeerType::PaidPeer));
    assert_eq!(cm.get_peer_location(&c), Some(PeerLocation::Africa));
    assert_eq!(cm.get_peer_type(&StandardCommunity::new(7, 65000)), None);
    assert_eq!(cm.get_peer_type(&StandardCommunity::new(65000, 8)), None);
}

#[test]
fn comm_mappings_ranges_include_both_ends() {
    let mut cm = CommMappings::new();
    cm.add_peer_type_range(65000, 65530, 65535, PeerType::Peer);
    cm.add_peer_location_range(65000, 0, 2, PeerLocation::Europe);
    cm.add_peer_location_range(65000, 9, 8, PeerLocation::Africa);
    assert_eq!(cm.get_peer_type(&StandardCommunity::new(65000, 65529)), None);
    assert_eq!(cm.get_peer_type(&StandardCommunity::new(65000, 65530)), Some(PeerType::Peer));
    assert_eq!(cm.get_peer_type(&StandardCommunity::new(65000, 65535)), Some(PeerType::Peer));
    assert_eq!(cm.get_peer_type(&StandardCommunity::new(65001, 65535)), None);
    assert_eq!(cm.get_peer_location(&StandardCommunity::new(65000, 0)), Some(PeerLocation::Europe));
    assert_eq!(cm.get_peer_location(&StandardCommunity::new(65000, 2)), Some(PeerLocation::Europe));
    assert_eq!(cm.get_peer_location(&StandardCommunity::new(65000, 3)), None);
    assert_eq!(cm.get_peer_location(&StandardCommunity::new(65000, 8)), None);
    assert_eq!(cm.get_peer_location(&StandardCommunity::new(65000, 9)), None);
}

#[test]
fn classification_takes_the_first_community_of_the_local_network() {
    let rules = AsnMappings::default();
    let communities = StandardCommunities::new(vec![
        StandardCommunity::new(1299, 20000),
        StandardCommunity::new(174, 5),
        StandardCommunity::new(174, 21101),
        StandardCommunity::new(174, 21000),
    ]);
    let local = MrtAsn::new(174);
    assert_eq!(communities.get_peer_type(&local, &rules), Some(PeerType::Customer));
    assert_eq!(communities.get_peer_location(&local, &rules), Some(PeerLocation::Europe));
    let other = MrtAsn::new(1299);
    assert_eq!(communities.get_peer_type(&other, &rules), Some(PeerType::Peer));
    assert_eq!(communities.get_peer_location(&other, &rules), Some(PeerLocation::Europe));
}

#[test]
fn classification_never_reads_communities_of_other_networks() {
    let rules = AsnMappings::default();
    let with_foreign = StandardCommunities::new(vec![
        StandardCommunity::new(174, 21001),
        StandardCommunity::new(0, 201),
        StandardCommunity::new(1299, 30000),
    ]);
    let without = StandardCommunities::new(vec![StandardCommunity::new(1299, 30000)]);
    for asn in [174u32, 701, 1299, 2914, 65000] {
        let local = MrtAsn::new(asn);
        if asn == 174 || asn == 1299 {
            continue;
        }
        assert_eq!(with_foreign.get_peer_type(&local, &rules), None);
        assert_eq!(with_foreign.get_peer_location(&local, &rules), None);
    }
    let arelion = MrtAsn::new(1299);
    assert_eq!(
        with_foreign.get_peer_type(&arelion, &rules),
        without.get_peer_type(&arelion, &rules)
    );
    assert_eq!(
        with_foreign.get_peer_location(&arelion, &rules),
        without.get_peer_location(&arelion, &rules)
    );
    assert_eq!(with_foreign.get_peer_type(&arelion, &rules), Some(PeerType::Customer));
}

#[test]
fn classification_of_no_communities_is_none() {
    let rules = AsnMappings::default();
    let none = StandardCommunities::new(Vec::new());
    assert_eq!(none.get_peer_type(&MrtAsn::new(174), &rules), None);
    assert_eq!(none.get_peer_location(&MrtAsn::new(174), &rules), None);
}

#[test]
fn relationship_without_region_resolves_one_only() {
    let rules = AsnMappings::default();
    let communities = StandardCommunities::new(vec![StandardCommunity::new(2914, 410)]);
    let ntt = MrtAsn::new(2914);
    assert_eq!(communities.get_peer_type(&ntt, &rules), Some(PeerType::Customer));
    assert_eq!(communities.get_peer_location(&ntt, &rules), None);
}

#[test]
fn standard_community_from_custom() {
    let c = StandardCommunity::from(Community::Custom(MrtAsn::new(174), 21001));
    assert_eq!(c, StandardCommunity::new(174, 21001));
    assert_eq!(*c.get_asn(), MrtAsn::new(174));
    assert_eq!(*c.get_value(), 21001);
}

#[test]
fn standard_communities_from_vec_keeps_order() {
    let mut cs = StandardCommunities::from_vec(vec![
        Community::Custom(MrtAsn::new(2), 20),
        Community::Custom(MrtAsn::new(1), 10),
    ]);
    cs.add(StandardCommunity::new(3, 30));
    assert_eq!(
        cs.standard_communities,
        vec![
            StandardCommunity::new(2, 20),
            StandardCommunity::new(1, 10),
            StandardCommunity::new(3, 30)
        ]
    );
    let copy = cs.clone();
    assert_eq!(copy.standard_communities, cs.standard_communities);
}

#[test]
fn names_and_codes_of_the_attributes() {
    assert_eq!(PeerType::Customer.name(), "Customer");
    assert_eq!(PeerType::Peer.name(), "Peer");
    assert_eq!(PeerType::PaidPeer.name(), "PaidPeer");
    assert_eq!(PeerType::Upstream.name(), "Upstream");
    assert_eq!(PeerLocation::Africa.name(), "Africa");
    assert_eq!(PeerLocation::AsiaPac.name(), "AsiaPac");
    assert_eq!(PeerLocation::Europe.name(), "Europe");
    assert_eq!(PeerLocation::MiddleEast.name(), "MiddleEast");
    assert_eq!(PeerLocation::NorthAmerica.name(), "NorthAmerica");
    assert_eq!(PeerLocation::SouthAmerica.name(), "SouthAmerica");
    let types = [PeerType::Customer, PeerType::Peer, PeerType::PaidPeer, PeerType::Upstream];
    for (i, t) in types.iter().enumerate() {
        assert_eq!(t.code() as usize, i);
    }
    let locations = [
        PeerLocation::Africa,
        PeerLocation::AsiaPac,
        PeerLocation::Europe,
        PeerLocation::MiddleEast,
        PeerLocation::NorthAmerica,
        PeerLocation::SouthAmerica,
    ];
    for (i, l) in locations.iter().enumerate() {
        assert_eq!(l.code() as usize, i);
    }
}
