//! The records of a routing-table snapshot, as far as the library reads
//! them, and what is taken from each route of a record.

use crate::mrt_asn::MrtAsn;
use crate::mrt_communities::{Community, StandardCommunities, StandardCommunity};
use crate::mrt_large_communities::LargeCommunity;
use crate::mrt_peer::{listed_peer, Peer, PeerTable};
use crate::mrt_route::clone_path;
use crate::text::same_text;
use vstd::prelude::*;

verus! {

/// Subtype of a table-dump record.
#[derive(Clone, Copy, Debug, PartialEq, Eq, Structural)]
pub enum TableDumpV2Type {
    PeerIndexTable,
    RibIpv4Unicast,
    RibIpv4Multicast,
    RibIpv6Unicast,
    RibIpv6Multicast,
    RibGeneric,
    GeoPeerTable,
    RibIpv4UnicastAddPath,
    RibIpv4MulticastAddPath,
    RibIpv6UnicastAddPath,
    RibIpv6MulticastAddPath,
    RibGenericAddPath,
}

/// One segment of an AS path.
#[derive(Debug)]
pub enum AsPathSegment {
    AsSequence(Vec<MrtAsn>),
    AsSet(Vec<MrtAsn>),
    ConfedSequence(Vec<MrtAsn>),
    ConfedSet(Vec<MrtAsn>),
}

/// The multiprotocol reachability attribute of a route, as far as it tells
/// the next hop.
#[derive(Debug)]
pub struct MpReachNlri {
    pub is_ipv6: bool,
    pub next_hop: Option<String>,
}

/// One route of a record: the attributes that one peer sent for the prefix.
#[derive(Debug)]
pub struct RibEntry {
    pub peer_index: u16,
    pub as_path: Option<Vec<AsPathSegment>>,
    pub next_hop: Option<String>,
    pub mp_reach_nlri: Option<MpReachNlri>,
    pub communities: Option<Vec<Community>>,
    pub large_communities: Vec<LargeCommunity>,
}

/// The routes that the peers of the collector hold for one prefix.
#[derive(Debug)]
pub struct RibAfiEntries {
    pub rib_type: TableDumpV2Type,
    pub prefix: String,
    pub rib_entries: Vec<RibEntry>,
}

/// One record of a file.
#[derive(Debug)]
pub enum MrtRecord {
    /// The list of the collector's peers, each with its index.
    PeerIndexTable(Vec<(u16, Peer)>),
    /// The routes for one prefix.
    RibAfi(RibAfiEntries),
    /// Any other record.
    Other,
}

/// Why a record cannot be read as the file's format asks.
#[derive(Clone, Copy, Debug, PartialEq, Eq, Structural)]
pub enum RecordError {
    /// The first record of the file is no list of peers.
    NotPeerIndexTable,
    /// A record behind the first holds no routes for a prefix.
    NotRibAfi,
    /// The routes of a record are of no unicast table.
    UnexpectedTableType,
}

impl RecordError {
    /// What went wrong, in words.
    pub fn message(&self) -> (s: &'static str)
        ensures
            s@ == match *self {
                RecordError::NotPeerIndexTable => "Couldn't extract peer table from table dump"@,
                RecordError::NotRibAfi => "MRT record isn't of type RibAfi"@,
                RecordError::UnexpectedTableType => "Unexpected record type"@,
            },
    {
        match self {
            RecordError::NotPeerIndexTable => "Couldn't extract peer table from table dump",
            RecordError::NotRibAfi => "MRT record isn't of type RibAfi",
            RecordError::UnexpectedTableType => "Unexpected record type",
        }
    }
}

/// Whether the routes of a table of type `rib_type` for `prefix` are to be
/// read: those of the unicast tables, but for the default route of the
/// table's family.
pub open spec fn wanted_prefix(rib_type: TableDumpV2Type, prefix: Seq<char>) -> bool {
    match rib_type {
        TableDumpV2Type::RibIpv4Unicast | TableDumpV2Type::RibIpv4UnicastAddPath => prefix
            != "0.0.0.0/0"@,
        TableDumpV2Type::RibIpv6Unicast | TableDumpV2Type::RibIpv6UnicastAddPath => prefix
            != "::/0"@,
        _ => false,
    }
}

/// Whether `rib_type` is one of the unicast tables.
pub open spec fn is_unicast(rib_type: TableDumpV2Type) -> bool {
    rib_type is RibIpv4Unicast || rib_type is RibIpv4UnicastAddPath || rib_type is RibIpv6Unicast
        || rib_type is RibIpv6UnicastAddPath
}

/// The routes of a record, where they are to be read; `None` for the
/// default route. A record that holds no routes, or routes of another table
/// than a unicast one, is an error.
pub fn get_rib_entries(mrt_entry: &MrtRecord) -> (r: Result<Option<&RibAfiEntries>, RecordError>)
    ensures
        match r {
            Ok(Some(entries)) => *mrt_entry == MrtRecord::RibAfi(*entries) && wanted_prefix(
                entries.rib_type,
                entries.prefix@,
            ),
            Ok(None) => mrt_entry matches MrtRecord::RibAfi(entries) && is_unicast(entries.rib_type)
                && !wanted_prefix(entries.rib_type, entries.prefix@),
            Err(RecordError::UnexpectedTableType) => mrt_entry matches MrtRecord::RibAfi(entries)
                && !is_unicast(entries.rib_type),
            Err(RecordError::NotRibAfi) => !(mrt_entry is RibAfi),
            Err(RecordError::NotPeerIndexTable) => false,
        },
{
    match mrt_entry {
        MrtRecord::RibAfi(rib_entries) => {
            match rib_entries.rib_type {
                TableDumpV2Type::RibIpv4Unicast | TableDumpV2Type::RibIpv4UnicastAddPath => {
                    if same_text(rib_entries.prefix.as_str(), "0.0.0.0/0") {
                        Ok(None)
                    } else {
                        Ok(Some(rib_entries))
                    }
                },
                TableDumpV2Type::RibIpv6Unicast | TableDumpV2Type::RibIpv6UnicastAddPath => {
                    if same_text(rib_entries.prefix.as_str(), "::/0") {
                        Ok(None)
                    } else {
                        Ok(Some(rib_entries))
                    }
                },
                _ => Err(RecordError::UnexpectedTableType),
            }
        },
        _ => Err(RecordError::NotRibAfi),
    }
}

/// The table of peers that the first record of a file holds. Any other
/// record is an error.
pub fn get_peer_id_map(mrt_record: &MrtRecord) -> (r: Result<PeerTable, RecordError>)
    ensures
        match r {
            Ok(table) => mrt_record matches MrtRecord::PeerIndexTable(peers) && forall|id: u16|
                #[trigger] table@.get(id) == listed_peer(peers@, id),
            Err(e) => e == RecordError::NotPeerIndexTable && !(mrt_record is PeerIndexTable),
        },
{
    match mrt_record {
        MrtRecord::PeerIndexTable(peers) => Ok(PeerTable::from(peers)),
        _ => Err(RecordError::NotPeerIndexTable),
    }
}

/// The networks of the first segment of `segments` that is a sequence; none
/// where no segment is.
pub open spec fn first_sequence(segments: Seq<AsPathSegment>) -> Seq<MrtAsn>
    decreases segments.len(),
{
    if segments.len() == 0 {
        Seq::empty()
    } else if let AsPathSegment::AsSequence(asns) = segments[0] {
        asns@
    } else {
        first_sequence(segments.drop_first())
    }
}

/// The AS path of a route, as the scan reads it: `None` where the route has
/// no AS path attribute.
pub open spec fn as_sequence_of(rib_entry: RibEntry) -> Option<Seq<MrtAsn>> {
    match rib_entry.as_path {
        Some(segments) => Some(first_sequence(segments@)),
        None => None,
    }
}

/// The AS path of a route: the networks of its first sequence segment. Sets
/// are passed over. `None` where the route has no AS path attribute.
pub fn get_as_sequence(rib_entry: &RibEntry) -> (r: Option<Vec<MrtAsn>>)
    ensures
        match r {
            Some(path) => Some(path@),
            None => None,
        } == as_sequence_of(*rib_entry),
{
    match &rib_entry.as_path {
        None => None,
        Some(segments) => {
            let mut i: usize = 0;
            proof {
                assert(segments@.skip(0) == segments@);
            }
            while i < segments.len()
                invariant
                    i <= segments.len(),
                    rib_entry.as_path == Some(*segments),
                    first_sequence(segments@) == first_sequence(segments@.skip(i as int)),
                decreases segments.len() - i,
            {
                proof {
                    assert(segments@.skip(i as int).drop_first() == segments@.skip(i + 1));
                    assert(segments@.skip(i as int)[0] == segments@[i as int]);
                }
                if let AsPathSegment::AsSequence(asns) = &segments[i] {
                    return Some(clone_path(asns));
                }
                i += 1;
            }
            Some(Vec::new())
        },
    }
}

/// The next hop of a route: that of its multiprotocol attribute where it
/// has one, which must then be of version 6 and name a next hop; else that
/// of its next-hop attribute. `None` where no next hop is found so.
pub open spec fn next_hop_of(rib_entry: RibEntry) -> Option<Seq<char>> {
    match rib_entry.mp_reach_nlri {
        Some(nlri) => if nlri.is_ipv6 && nlri.next_hop is Some {
            Some(nlri.next_hop->0@)
        } else {
            None
        },
        None => match rib_entry.next_hop {
            Some(next_hop) => Some(next_hop@),
            None => None,
        },
    }
}

/// The next hop of a route, if it names one.
pub fn get_next_hop(rib_entry: &RibEntry) -> (r: Option<String>)
    ensures
        match r {
            Some(next_hop) => Some(next_hop@),
            None => None,
        } == next_hop_of(*rib_entry),
{
    match &rib_entry.mp_reach_nlri {
        Some(nlri) => {
            if !nlri.is_ipv6 {
                return None;
            }
            match &nlri.next_hop {
                Some(next_hop) => Some(next_hop.clone()),
                None => None,
            }
        },
        None => match &rib_entry.next_hop {
            Some(next_hop) => Some(next_hop.clone()),
            None => None,
        },
    }
}

/// The pairs among `communities`, in their order. The well-known
/// communities are passed over.
pub open spec fn custom_pairs(communities: Seq<Community>) -> Seq<(u32, u16)>
    decreases communities.len(),
{
    if communities.len() == 0 {
        Seq::empty()
    } else {
        let front = custom_pairs(communities.drop_last());
        match communities.last() {
            Community::Custom(asn, value) => front.push((asn@, value)),
            _ => front,
        }
    }
}

/// The communities of a route, as the rules read them: none where the
/// route has no communities attribute.
pub open spec fn communities_of(rib_entry: RibEntry) -> Seq<(u32, u16)> {
    match rib_entry.communities {
        Some(communities) => custom_pairs(communities@),
        None => Seq::empty(),
    }
}

/// The communities of a route that are pairs of a network and a value, in
/// their order.
pub fn get_communities(rib_entry: &RibEntry) -> (r: StandardCommunities)
    ensures
        r@ == communities_of(*rib_entry),
{
    let mut r = StandardCommunities::new(Vec::new());
    assert(r@ =~= Seq::<(u32, u16)>::empty());
    match &rib_entry.communities {
        None => {},
        Some(communities) => {
            let mut i: usize = 0;
            while i < communities.len()
                invariant
                    i <= communities.len(),
                    r@ == custom_pairs(communities@.take(i as int)),
                decreases communities.len() - i,
            {
                proof {
                    assert(communities@.take(i + 1).drop_last() == communities@.take(i as int));
                }
                match communities[i] {
                    Community::Custom(asn, value) => {
                        r.add(StandardCommunity::from(communities[i]));
                    },
                    _ => {},
                }
                i += 1;
            }
            proof {
                assert(communities@.take(i as int) == communities@);
            }
        },
    }
    r
}

} // verus!
