//! The scan of whole files: the first record of a file lists the peers, each
//! further record holds the routes for one prefix. A file that cannot be
//! read on fails alone; what was found in it so far stays, and the other
//! files are scanned all the same.

use crate::comm_mappings::AsnMappings;
use crate::mrt_peer::{listed_peer, Peer, PeerView};
use crate::mrt_record::{get_peer_id_map, MrtRecord, RecordError};
use crate::parse_mrt::{parse_mrt_entry, record_error, scan_record, IndexState, MrtData};
use crate::peerings::GlobalPeerings;
use crate::ribs::RibFile;
use crate::triple_paths::TripleT1Paths;
use vstd::prelude::*;

verus! {

/// The peers that `listed` lists, by their index. Where an index is listed
/// twice, the later peer stands.
pub open spec fn peers_of(listed: Seq<(u16, Peer)>) -> Map<u16, PeerView> {
    Map::new(
        |id: u16| listed_peer(listed, id) is Some,
        |id: u16| listed_peer(listed, id)->0,
    )
}

/// The place of the first record from place `i` on that is an error; the
/// number of records where there is none.
pub open spec fn stop_at(records: Seq<MrtRecord>, i: int) -> int
    decreases records.len() - i,
{
    if i < 0 || i >= records.len() || record_error(records[i]) is Some {
        i
    } else {
        stop_at(records, i + 1)
    }
}

/// Whether the file starts with the list of its peers.
pub open spec fn has_peer_table(records: Seq<MrtRecord>) -> bool {
    records.len() > 0 && records[0] is PeerIndexTable
}

/// The error that ends the scan of a file, if one does: the file does not
/// start with the list of its peers, or one of its further records is an
/// error.
pub open spec fn file_error(records: Seq<MrtRecord>) -> Option<RecordError> {
    if !has_peer_table(records) {
        Some(RecordError::NotPeerIndexTable)
    } else if stop_at(records, 1) < records.len() {
        record_error(records[stop_at(records, 1)])
    } else {
        None
    }
}

/// The indexes after the records of a file from the second to the one
/// before place `n` were scanned, one after the other.
pub open spec fn scan_records(
    rules: AsnMappings,
    peers: Map<u16, PeerView>,
    fp: Seq<char>,
    records: Seq<MrtRecord>,
    n: int,
    st: IndexState,
) -> IndexState
    decreases n,
{
    if n <= 1 {
        st
    } else {
        scan_record(
            rules,
            peers,
            fp,
            records[n - 1],
            scan_records(rules, peers, fp, records, n - 1, st),
        )
    }
}

/// The indexes after the scan of a file: its records are scanned up to the
/// first one that is an error.
pub open spec fn scan_file(
    rules: AsnMappings,
    fp: Seq<char>,
    records: Seq<MrtRecord>,
    st: IndexState,
) -> IndexState {
    if has_peer_table(records) {
        scan_records(
            rules,
            peers_of(records[0]->PeerIndexTable_0@),
            fp,
            records,
            stop_at(records, 1),
            st,
        )
    } else {
        st
    }
}

/// Scans the records of the file `fp` and stores what it finds in the two
/// indexes. The scan ends at the first record that is an error, with that
/// error.
pub fn parse_rib_file(
    fp: &String,
    records: &Vec<MrtRecord>,
    asn_mappings: &AsnMappings,
    peering_data: &mut GlobalPeerings,
    triple_t1_paths: &mut TripleT1Paths,
) -> (r: Result<(), RecordError>)
    ensures
        r == match file_error(records@) {
            Some(e) => Err::<(), RecordError>(e),
            None => Ok(()),
        },
        (IndexState { peerings: final(peering_data)@, triples: final(triple_t1_paths)@ })
            == scan_file(
            *asn_mappings,
            fp@,
            records@,
            IndexState { peerings: old(peering_data)@, triples: old(triple_t1_paths)@ },
        ),
{
    let ghost st0 = IndexState { peerings: peering_data@, triples: triple_t1_paths@ };
    if records.len() == 0 {
        return Err(RecordError::NotPeerIndexTable);
    }
    let peer_id_map = match get_peer_id_map(&records[0]) {
        Ok(table) => table,
        Err(e) => {
            return Err(e);
        },
    };
    proof {
        let listed = records@[0]->PeerIndexTable_0@;
        assert forall|id: u16| #[trigger]
            peer_id_map@.contains_key(id) == (listed_peer(listed, id) is Some) by {
            assert(peer_id_map@.get(id) == listed_peer(listed, id));
        }
        assert forall|id: u16| peer_id_map@.contains_key(id) implies #[trigger] peer_id_map@[id]
            == listed_peer(listed, id)->0 by {
            assert(peer_id_map@.get(id) == listed_peer(listed, id));
        }
        assert(peer_id_map@ =~= peers_of(listed));
    }
    let mut i: usize = 1;
    while i < records.len()
        invariant
            1 <= i <= records.len(),
            records@[0] is PeerIndexTable,
            st0 == (IndexState { peerings: old(peering_data)@, triples: old(triple_t1_paths)@ }),
            peer_id_map@ == peers_of(records@[0]->PeerIndexTable_0@),
            stop_at(records@, 1) == stop_at(records@, i as int),
            (IndexState { peerings: peering_data@, triples: triple_t1_paths@ }) == scan_records(
                *asn_mappings,
                peer_id_map@,
                fp@,
                records@,
                i as int,
                st0,
            ),
        decreases records.len() - i,
    {
        let ghost before = IndexState { peerings: peering_data@, triples: triple_t1_paths@ };
        match parse_mrt_entry(
            MrtData::new(&records[i], &peer_id_map, asn_mappings, fp),
            peering_data,
            triple_t1_paths,
        ) {
            Ok(()) => {
                proof {
                    assert(record_error(records@[i as int]) is None);
                    assert(stop_at(records@, i as int) == stop_at(records@, i + 1));
                }
            },
            Err(e) => {
                proof {
                    assert(record_error(records@[i as int]) == Some(e));
                    assert(stop_at(records@, i as int) == i);
                }
                return Err(e);
            },
        }
        i += 1;
    }
    Ok(())
}

/// The indexes after the first `n` of the files were scanned, one after the
/// other, each to its end or to its first error.
pub open spec fn scan_files(
    rules: AsnMappings,
    files: Seq<(RibFile, Vec<MrtRecord>)>,
    n: int,
    st: IndexState,
) -> IndexState
    decreases n,
{
    if n <= 0 {
        st
    } else {
        scan_file(
            rules,
            files[n - 1].0.filename@,
            files[n - 1].1@,
            scan_files(rules, files, n - 1, st),
        )
    }
}

/// What the scan of a list of files leaves: the two indexes, and for each
/// file, in the order of the list, the error that ended its scan, if one
/// did.
pub struct ParseOutcome {
    pub peering_data: GlobalPeerings,
    pub triple_t1_paths: TripleT1Paths,
    pub failures: Vec<Option<RecordError>>,
}

/// Scans each of the files, with its records, into two new indexes. A file
/// that fails does not keep the others from being scanned.
pub fn parse_rib_files(
    rib_files: &Vec<(RibFile, Vec<MrtRecord>)>,
    asn_mappings: &AsnMappings,
) -> (r: ParseOutcome)
    ensures
        (IndexState { peerings: r.peering_data@, triples: r.triple_t1_paths@ }) == scan_files(
            *asn_mappings,
            rib_files@,
            rib_files@.len() as int,
            IndexState { peerings: Map::empty(), triples: Map::empty() },
        ),
        r.failures@.len() == rib_files@.len(),
        forall|i: int|
            0 <= i < rib_files@.len() ==> #[trigger] r.failures@[i] == file_error(rib_files@[i].1@),
{
    let mut peering_data = GlobalPeerings::default();
    let mut triple_t1_paths = TripleT1Paths::default();
    let mut failures: Vec<Option<RecordError>> = Vec::new();
    let ghost st0 = IndexState { peerings: Map::empty(), triples: Map::empty() };
    let mut i: usize = 0;
    while i < rib_files.len()
        invariant
            i <= rib_files.len(),
            st0 == (IndexState { peerings: Map::empty(), triples: Map::empty() }),
            (IndexState { peerings: peering_data@, triples: triple_t1_paths@ }) == scan_files(
                *asn_mappings,
                rib_files@,
                i as int,
                st0,
            ),
            failures@.len() == i,
            forall|j: int| 0 <= j < i ==> #[trigger] failures@[j] == file_error(rib_files@[j].1@),
        decreases rib_files.len() - i,
    {
        let result = parse_rib_file(
            rib_files[i].0.get_filename(),
            &rib_files[i].1,
            asn_mappings,
            &mut peering_data,
            &mut triple_t1_paths,
        );
        match result {
            Ok(()) => failures.push(None),
            Err(e) => failures.push(Some(e)),
        }
        i += 1;
    }
    ParseOutcome { peering_data, triple_t1_paths, failures }
}

} // verus!
