use tier1_peerings::comm_mappings::AsnMappings;
use tier1_peerings::mrt_asn::MrtAsn;
use tier1_peerings::mrt_communities::Community;
use tier1_peerings::mrt_large_communities::LargeCommunity;
use tier1_peerings::mrt_peer::{Peer, PeerTable};
use tier1_peerings::mrt_record::{AsPathSegment, MpReachNlri, MrtRecord, RibEntry};
use tier1_peerings::mrt_route::IpVersion;
use tier1_peerings::parse_mrt::{
    add_peering, add_triple_t1_path, build_route, check_as_seq, collapse_repeats, find_peerings,
    store_finding, Finding, MrtData,
};
use tier1_peerings::peer_attrs::{PeerLocation, PeerType};
use tier1_peerings::peerings::GlobalPeerings;
use tier1_peerings::triple_paths::TripleT1Paths;

fn asns(numbers: &[u32]) -> Vec<MrtAsn> {
    numbers.iter().map(|n| MrtAsn::new(*n)).collect()
}

fn peers() -> PeerTable {
    PeerTable::from(&vec![
        (0, Peer::new("192.0.2.1".to_string(), "192.0.2.10".to_string(), MrtAsn::new(64500))),
        (1, Peer::new("192.0.2.2".to_string(), "2001:db8::10".to_string(), MrtAsn::new(64501))),
    ])
}

fn entry(path: &[u32], communities: &[(u32, u16)]) -> RibEntry {
    RibEntry {
        peer_index: 0,
        as_path: Some(vec![AsPathSegment::AsSequence(asns(path))]),
        next_hop: Some("192.0.2.254".to_string()),
        mp_reach_nlri: None,
        communities: Some(
            communities.iter().map(|(a, v)| Community::Custom(MrtAsn::new(*a), *v)).collect(),
        ),
        large_communities: Vec::new(),
    }
}

struct Indexes {
    peerings: GlobalPeerings,
    triples: TripleT1Paths,
}

fn scan_one(prefix: &str, rib_entry: &RibEntry, fp: &str) -> Indexes {
    let rules = AsnMappings::default();
    let table = peers();
    let record = MrtRecord::Other;
    let fp = fp.to_string();
    let data = MrtData::new(&record, &table, &rules, &fp);
    let mut found = Indexes { peerings: GlobalPeerings::new(), triples: TripleT1Paths::new() };
    check_as_seq(&prefix.to_string(), rib_entry, &data, &mut found.peerings, &mut found.triples);
    found
}

fn find(prefix: &str, rib_entry: &RibEntry, fp: &str) -> Vec<Finding> {
    let rules = AsnMappings::default();
    let table = peers();
    let record = MrtRecord::Other;
    let fp = fp.to_string();
    let data = MrtData::new(&record, &table, &rules, &fp);
    find_peerings(&prefix.to_string(), rib_entry, &data)
}

fn count_peerings(index: &GlobalPeerings) -> usize {
    let locations = [
        PeerLocation::Africa,
        PeerLocation::AsiaPac,
        PeerLocation::Europe,
        PeerLocation::MiddleEast,
        PeerLocation::NorthAmerica,
        PeerLocation::SouthAmerica,
    ];
    let types = [PeerType::Customer, PeerType::Peer, PeerType::PaidPeer, PeerType::Upstream];
    let versions = [IpVersion::Ipv4, IpVersion::Ipv6];
    let mut n = 0;
    for local in index.keys() {
        let by_peer = index.get_asn_data(&local).unwrap();
        for peer in by_peer.keys() {
            for l in locations {
                for t in types {
                    for v in versions {
                        if index.get_peering(&local, &peer, l, t, v).is_some() {
                            n += 1;
                        }
                    }
                }
            }
        }
    }
    n
}

#[test]
fn single_record_end_to_end() {
    let e = entry(&[174, 701, 65000], &[(174, 21001)]);
    let found = scan_one("198.51.100.0/24", &e, "mrts/ris.rrc00.bview.20260114.0000.gz");
    assert_eq!(count_peerings(&found.peerings), 1);
    let route = found
        .peerings
        .get_peering(
            &MrtAsn::new(174),
            &MrtAsn::new(701),
            PeerLocation::NorthAmerica,
            PeerType::Customer,
            IpVersion::Ipv4,
        )
        .unwrap();
    assert_eq!(route.get_local_as().to_u32(), 174);
    assert_eq!(route.get_peer_as().to_u32(), 701);
    assert_eq!(*route.get_peer_type(), PeerType::Customer);
    assert_eq!(*route.get_peer_location(), PeerLocation::NorthAmerica);
    assert_eq!(*route.get_ip_version(), IpVersion::Ipv4);
    assert_eq!(*route.get_as_path(), asns(&[174, 701, 65000]));
    assert_eq!(route.get_filename(), "mrts/ris.rrc00.bview.20260114.0000.gz");
    assert_eq!(route.get_next_hop(), "192.0.2.254");
    assert_eq!(route.get_prefix(), "198.51.100.0/24");
    assert_eq!(route.get_peer().peer_ip, "192.0.2.10");
    assert_eq!(route.get_peer().peer_bgp_id, "192.0.2.1");
    assert_eq!(route.get_peer().peer_asn, MrtAsn::new(64500));
    assert_eq!(route.get_communities().standard_communities.len(), 1);
    assert!(route.get_large_communities().large_communities.is_empty());
    assert!(found.triples.triples().is_empty());
}

#[test]
fn version_six_prefix_is_keyed_as_version_six() {
    let e = entry(&[174, 701], &[(174, 21100)]);
    let found = scan_one("2001:db8::/32", &e, "f.gz");
    assert_eq!(count_peerings(&found.peerings), 1);
    assert!(found
        .peerings
        .get_peering(
            &MrtAsn::new(174),
            &MrtAsn::new(701),
            PeerLocation::Europe,
            PeerType::Peer,
            IpVersion::Ipv6,
        )
        .is_some());
}

#[test]
fn three_tier1_then_other_gives_two_peerings_and_one_triple() {
    let e = entry(&[174, 1299, 2914, 65000], &[(174, 21001), (1299, 20000)]);
    let found = scan_one("198.51.100.0/24", &e, "f.gz");
    assert_eq!(count_peerings(&found.peerings), 2);
    assert!(found
        .peerings
        .get_peering(
            &MrtAsn::new(174),
            &MrtAsn::new(1299),
            PeerLocation::NorthAmerica,
            PeerType::Customer,
            IpVersion::Ipv4,
        )
        .is_some());
    assert!(found
        .peerings
        .get_peering(
            &MrtAsn::new(1299),
            &MrtAsn::new(2914),
            PeerLocation::Europe,
            PeerType::Peer,
            IpVersion::Ipv4,
        )
        .is_some());
    let triples = found.triples.triples();
    assert_eq!(triples, vec![[MrtAsn::new(174), MrtAsn::new(1299), MrtAsn::new(2914)]]);
    let exemplar = found.triples.get_path(&triples[0]).unwrap();
    assert_eq!(exemplar.get_local_as().to_u32(), 1299);
    assert_eq!(exemplar.get_peer_as().to_u32(), 2914);
    let mut locals: Vec<u32> = found.peerings.keys().iter().map(|a| a.to_u32()).collect();
    locals.sort();
    assert_eq!(locals, vec![174, 1299]);
    for local in found.peerings.keys() {
        for peer in found.peerings.get_asn_data(&local).unwrap().keys() {
            assert_ne!(peer.to_u32(), 65000);
        }
    }
}

#[test]
fn findings_come_in_path_order() {
    let e = entry(&[174, 1299, 2914, 65000], &[(174, 21001), (1299, 20000)]);
    let found = find("198.51.100.0/24", &e, "f.gz");
    assert_eq!(found.len(), 2);
    assert_eq!(found[0].route.get_local_as().to_u32(), 174);
    assert_eq!(found[0].route.get_peer_as().to_u32(), 1299);
    assert_eq!(found[0].triple, None);
    assert_eq!(found[1].route.get_local_as().to_u32(), 1299);
    assert_eq!(found[1].route.get_peer_as().to_u32(), 2914);
    assert_eq!(
        found[1].triple,
        Some([MrtAsn::new(174), MrtAsn::new(1299), MrtAsn::new(2914)])
    );
}

#[test]
fn peering_behind_an_unresolved_one_is_found_once() {
    let e = entry(&[701, 174, 1299, 65000], &[(174, 21001)]);
    let found = find("198.51.100.0/24", &e, "f.gz");
    assert_eq!(found.len(), 1);
    assert_eq!(found[0].route.get_local_as().to_u32(), 174);
    assert_eq!(found[0].route.get_peer_as().to_u32(), 1299);
    assert_eq!(
        found[0].triple,
        Some([MrtAsn::new(701), MrtAsn::new(174), MrtAsn::new(1299)])
    );
}

#[test]
fn four_tier1_in_a_row_are_found_window_by_window() {
    let e = entry(
        &[174, 1299, 2914, 3356],
        &[(174, 21001), (1299, 20000), (2914, 410), (2914, 3000)],
    );
    let found = find("198.51.100.0/24", &e, "f.gz");
    let seen: Vec<(u32, u32, bool)> = found
        .iter()
        .map(|f| {
            (f.route.get_local_as().to_u32(), f.route.get_peer_as().to_u32(), f.triple.is_some())
        })
        .collect();
    assert_eq!(seen, vec![(174, 1299, false), (1299, 2914, true), (2914, 3356, true)]);
}

#[test]
fn four_tier1_in_a_row_register_both_windows() {
    let e = entry(
        &[174, 1299, 2914, 3356],
        &[(174, 21001), (1299, 20000), (2914, 410), (2914, 3000)],
    );
    let found = scan_one("198.51.100.0/24", &e, "f.gz");
    assert_eq!(count_peerings(&found.peerings), 3);
    let mut triples: Vec<Vec<u32>> = found
        .triples
        .triples()
        .iter()
        .map(|t| t.iter().map(|a| a.to_u32()).collect())
        .collect();
    triples.sort();
    assert_eq!(triples, vec![vec![174, 1299, 2914], vec![1299, 2914, 3356]]);
}

#[test]
fn triple_needs_the_second_peering_resolved() {
    let e = entry(&[174, 1299, 2914], &[(174, 21001)]);
    let found = scan_one("198.51.100.0/24", &e, "f.gz");
    assert_eq!(count_peerings(&found.peerings), 1);
    assert!(found.triples.triples().is_empty());
}

#[test]
fn triple_does_not_need_the_first_peering_resolved() {
    let e = entry(&[174, 1299, 2914], &[(1299, 30000)]);
    let found = scan_one("198.51.100.0/24", &e, "f.gz");
    assert_eq!(count_peerings(&found.peerings), 1);
    assert_eq!(found.triples.triples().len(), 1);
    assert!(found
        .triples
        .has_path(&[MrtAsn::new(174), MrtAsn::new(1299), MrtAsn::new(2914)]));
    assert!(!found
        .triples
        .has_path(&[MrtAsn::new(2914), MrtAsn::new(1299), MrtAsn::new(174)]));
}

#[test]
fn repeats_are_collapsed_before_the_scan() {
    let with_repeats = entry(&[174, 174, 174, 701, 701, 65000], &[(174, 21001)]);
    let collapsed = entry(&[174, 701, 65000], &[(174, 21001)]);
    let a = find("198.51.100.0/24", &with_repeats, "f.gz");
    let b = find("198.51.100.0/24", &collapsed, "f.gz");
    assert_eq!(a.len(), 1);
    assert_eq!(b.len(), 1);
    assert_eq!(a[0].route.get_as_path(), b[0].route.get_as_path());
    assert_eq!(*a[0].route.get_as_path(), asns(&[174, 701, 65000]));
    assert_eq!(a[0].route.get_peer_as(), b[0].route.get_peer_as());
    assert_eq!(a[0].triple, b[0].triple);
}

#[test]
fn repeated_hop_is_no_peering_with_itself() {
    let e = entry(&[174, 174], &[(174, 21001)]);
    assert!(find("198.51.100.0/24", &e, "f.gz").is_empty());
}

#[test]
fn collapse_repeats_of_paths() {
    assert_eq!(collapse_repeats(&asns(&[])), asns(&[]));
    assert_eq!(collapse_repeats(&asns(&[7])), asns(&[7]));
    assert_eq!(collapse_repeats(&asns(&[1, 1, 2])), asns(&[1, 2]));
    assert_eq!(collapse_repeats(&asns(&[1, 2, 1, 1, 1, 3, 3, 1])), asns(&[1, 2, 1, 3, 1]));
    assert_eq!(collapse_repeats(&asns(&[5, 5, 5])), asns(&[5]));
}

#[test]
fn skip_listed_first_hop_gives_nothing() {
    let e = entry(&[37468, 174, 1299, 2914, 65000], &[(174, 21001), (1299, 20000)]);
    let skipped = scan_one("198.51.100.0/24", &e, "mrts/ris.rrc15.bview.20260131.0000.gz");
    assert_eq!(count_peerings(&skipped.peerings), 0);
    assert!(skipped.triples.triples().is_empty());
    let other_file = scan_one("198.51.100.0/24", &e, "mrts/ris.rrc00.bview.20260131.0000.gz");
    assert_eq!(count_peerings(&other_file.peerings), 2);
    assert_eq!(other_file.triples.triples().len(), 1);
}

#[test]
fn skip_list_is_matched_on_the_file_name_alone() {
    let e = entry(&[37468, 37468, 174, 701], &[(174, 21001)]);
    assert!(find("198.51.100.0/24", &e, "/a/b/route-views3.rib.20260131.0000.bz2").is_empty());
    assert!(find("198.51.100.0/24", &e, "route-views3.rib.20260131.0000.bz2").is_empty());
    assert_eq!(find("198.51.100.0/24", &e, "route-views3.rib.20260131.0000.bz2/x").len(), 1);
}

#[test]
fn skip_listed_network_later_in_the_path_does_not_stop_the_scan() {
    let e = entry(&[174, 701, 37468, 1299, 2914], &[(174, 21001), (1299, 20000)]);
    let found = scan_one("198.51.100.0/24", &e, "ris.rrc15.bview.20260131.0000.gz");
    assert_eq!(count_peerings(&found.peerings), 2);
}

#[test]
fn unresolved_classification_gives_no_peering() {
    let only_type = entry(&[2914, 174, 65000], &[(2914, 410)]);
    assert!(find("198.51.100.0/24", &only_type, "f.gz").is_empty());
    let only_location = entry(&[2914, 174, 65000], &[(2914, 3000)]);
    assert!(find("198.51.100.0/24", &only_location, "f.gz").is_empty());
    let both = entry(&[2914, 174, 65000], &[(2914, 3000), (2914, 410)]);
    assert_eq!(find("198.51.100.0/24", &both, "f.gz").len(), 1);
    let foreign_only = entry(&[701, 174, 65000], &[(174, 21001)]);
    assert!(find("198.51.100.0/24", &foreign_only, "f.gz").is_empty());
    let none = scan_one("198.51.100.0/24", &only_type, "f.gz");
    assert_eq!(count_peerings(&none.peerings), 0);
}

#[test]
fn tier1_next_to_other_network_is_no_peering() {
    let e = entry(&[65000, 174, 65001, 701], &[(174, 21001)]);
    assert!(find("198.51.100.0/24", &e, "f.gz").is_empty());
    let last = entry(&[65000, 174], &[(174, 21001)]);
    assert!(find("198.51.100.0/24", &last, "f.gz").is_empty());
}

#[test]
fn second_occurrence_of_a_network_is_scanned_at_its_own_place() {
    let e = entry(&[174, 65000, 174, 701], &[(174, 21001)]);
    let found = find("198.51.100.0/24", &e, "f.gz");
    assert_eq!(found.len(), 1);
    assert_eq!(found[0].route.get_peer_as().to_u32(), 701);
}

#[test]
fn empty_or_missing_path_gives_nothing() {
    let empty = entry(&[], &[(174, 21001)]);
    assert!(find("198.51.100.0/24", &empty, "f.gz").is_empty());
    let mut missing = entry(&[174, 701], &[(174, 21001)]);
    missing.as_path = None;
    assert!(find("198.51.100.0/24", &missing, "f.gz").is_empty());
    let mut set_only = entry(&[174, 701], &[(174, 21001)]);
    set_only.as_path = Some(vec![AsPathSegment::AsSet(asns(&[174, 701]))]);
    assert!(find("198.51.100.0/24", &set_only, "f.gz").is_empty());
}

#[test]
fn route_without_next_hop_or_known_peer_is_left_out() {
    let mut no_next_hop = entry(&[174, 701], &[(174, 21001)]);
    no_next_hop.next_hop = None;
    assert!(find("198.51.100.0/24", &no_next_hop, "f.gz").is_empty());
    let mut unknown_peer = entry(&[174, 701], &[(174, 21001)]);
    unknown_peer.peer_index = 9;
    assert!(find("198.51.100.0/24", &unknown_peer, "f.gz").is_empty());
    let mut v4_mp = entry(&[174, 701], &[(174, 21001)]);
    v4_mp.mp_reach_nlri =
        Some(MpReachNlri { is_ipv6: false, next_hop: Some("192.0.2.1".to_string()) });
    assert!(find("198.51.100.0/24", &v4_mp, "f.gz").is_empty());
}

#[test]
fn multiprotocol_next_hop_is_preferred() {
    let mut e = entry(&[174, 701], &[(174, 21001)]);
    e.peer_index = 1;
    e.mp_reach_nlri =
        Some(MpReachNlri { is_ipv6: true, next_hop: Some("2001:db8::1".to_string()) });
    e.large_communities =
        vec![LargeCommunity { global_admin: 64500, local_data_1: 1, local_data_2: 2 }];
    let found = find("2001:db8::/32", &e, "f.gz");
    assert_eq!(found.len(), 1);
    assert_eq!(found[0].route.get_next_hop(), "2001:db8::1");
    assert_eq!(found[0].route.get_peer().peer_ip, "2001:db8::10");
    assert_eq!(
        found[0].route.get_large_communities().large_communities,
        vec![LargeCommunity { global_admin: 64500, local_data_1: 1, local_data_2: 2 }]
    );
}

#[test]
fn well_known_communities_are_passed_over() {
    let mut e = entry(&[174, 701], &[]);
    e.communities = Some(vec![
        Community::NoExport,
        Community::Custom(MrtAsn::new(174), 21001),
        Community::NoAdvertise,
    ]);
    let found = find("198.51.100.0/24", &e, "f.gz");
    assert_eq!(found.len(), 1);
    assert_eq!(found[0].route.get_communities().standard_communities.len(), 1);
    let mut none = entry(&[174, 701], &[]);
    none.communities = None;
    assert!(find("198.51.100.0/24", &none, "f.gz").is_empty());
}

#[test]
fn build_route_resolves_for_the_local_network_only() {
    let rules = AsnMappings::default();
    let table = peers();
    let record = MrtRecord::Other;
    let fp = "f.gz".to_string();
    let data = MrtData::new(&record, &table, &rules, &fp);
    let e = entry(&[174, 701], &[(174, 21001)]);
    let path = asns(&[174, 701]);
    let prefix = "198.51.100.0/24".to_string();
    let route =
        build_route(&data, &e, &MrtAsn::new(174), &MrtAsn::new(701), &path, &prefix).unwrap();
    assert_eq!(*route.get_peer_type(), PeerType::Customer);
    assert!(build_route(&data, &e, &MrtAsn::new(701), &MrtAsn::new(174), &path, &prefix).is_none());
}

#[test]
fn first_exemplar_stays() {
    let first = entry(&[174, 701, 65000], &[(174, 21001)]);
    let second = entry(&[174, 701, 65001], &[(174, 21001)]);
    let a = find("198.51.100.0/24", &first, "a.gz");
    let b = find("203.0.113.0/24", &second, "b.gz");
    let mut peerings = GlobalPeerings::new();
    let mut triples = TripleT1Paths::new();
    store_finding(&a[0], &mut peerings, &mut triples);
    store_finding(&b[0], &mut peerings, &mut triples);
    store_finding(&a[0], &mut peerings, &mut triples);
    assert_eq!(count_peerings(&peerings), 1);
    let kept = peerings
        .get_peering(
            &MrtAsn::new(174),
            &MrtAsn::new(701),
            PeerLocation::NorthAmerica,
            PeerType::Customer,
            IpVersion::Ipv4,
        )
        .unwrap();
    assert_eq!(kept.get_prefix(), "198.51.100.0/24");
    assert_eq!(kept.get_filename(), "a.gz");
}

#[test]
fn storing_twice_is_storing_once() {
    let e = entry(&[174, 1299, 2914, 65000], &[(174, 21001), (1299, 20000)]);
    let found = find("198.51.100.0/24", &e, "f.gz");
    let mut peerings = GlobalPeerings::new();
    let mut triples = TripleT1Paths::new();
    for _ in 0..3 {
        for f in &found {
            store_finding(f, &mut peerings, &mut triples);
            add_peering(&mut peerings, &f.route);
            if let Some(t) = f.triple {
                add_triple_t1_path(&mut triples, t, &f.route);
            }
        }
    }
    assert_eq!(count_peerings(&peerings), 2);
    assert_eq!(triples.triples().len(), 1);
}
