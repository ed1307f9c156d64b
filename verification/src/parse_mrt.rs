//! The scan of one route for neighbouring Tier 1 networks, and what it
//! stores in the two indexes.

use crate::comm_mappings::AsnMappings;
use crate::mrt_asn::{is_skip_entry, is_tier1, MrtAsn};
use crate::mrt_communities::first_owned_match;
use crate::mrt_large_communities::{LargeCommunities, LargeCommunity};
use crate::mrt_peer::{PeerTable, PeerView};
use crate::mrt_record::{
    as_sequence_of, communities_of, get_as_sequence, get_communities, get_next_hop,
    get_rib_entries, is_unicast, next_hop_of, wanted_prefix, MrtRecord, RecordError, RibEntry,
};
use crate::mrt_route::{clone_path, IpVersion, Route, RouteView};
use crate::peerings::{by_local_add, holds, put_if_absent, ByLocal, GlobalPeerings};
use crate::text::{basename, basename_of};
use crate::triple_paths::{triple_of, Triple, TripleT1Paths};
use vstd::prelude::*;

verus! {

/// What is at hand while the routes of one record are scanned: the record,
/// the peers of its file, the rules, and the path of the file.
pub struct MrtData<'a> {
    pub mrt_entry: &'a MrtRecord,
    pub peer_id_map: &'a PeerTable,
    pub asn_mappings: &'a AsnMappings,
    pub fp: &'a String,
}

impl<'a> MrtData<'a> {
    pub fn new(
        mrt_entry: &'a MrtRecord,
        peer_id_map: &'a PeerTable,
        asn_mappings: &'a AsnMappings,
        fp: &'a String,
    ) -> (r: Self)
        ensures
            r.mrt_entry == mrt_entry,
            r.peer_id_map == peer_id_map,
            r.asn_mappings == asn_mappings,
            r.fp == fp,
    {
        Self { mrt_entry, peer_id_map, asn_mappings, fp }
    }
}

/// What the scan reads of one route.
pub struct RouteFacts {
    /// The AS path as the route holds it, repeats included.
    pub as_path: Seq<MrtAsn>,
    /// The path of the file that the route is from.
    pub filename: Seq<char>,
    pub next_hop: Option<Seq<char>>,
    pub peer: Option<PeerView>,
    pub prefix: Seq<char>,
    pub communities: Seq<(u32, u16)>,
    pub large_communities: Seq<LargeCommunity>,
}

/// What the scan reads of the route `rib_entry` for `prefix`. A route
/// without AS path attribute is read as one with an empty path.
pub open spec fn facts_of(
    prefix: Seq<char>,
    rib_entry: RibEntry,
    peers: Map<u16, PeerView>,
    fp: Seq<char>,
) -> RouteFacts {
    RouteFacts {
        as_path: match as_sequence_of(rib_entry) {
            Some(path) => path,
            None => Seq::empty(),
        },
        filename: fp,
        next_hop: next_hop_of(rib_entry),
        peer: peers.get(rib_entry.peer_index),
        prefix,
        communities: communities_of(rib_entry),
        large_communities: rib_entry.large_communities@,
    }
}

/// The two indexes.
pub struct IndexState {
    pub peerings: ByLocal,
    pub triples: Map<Triple, RouteView>,
}

/// `path` with each run of one network repeated reduced to one occurrence.
pub open spec fn collapse(path: Seq<MrtAsn>) -> Seq<MrtAsn>
    decreases path.len(),
{
    if path.len() == 0 {
        path
    } else {
        let front = collapse(path.drop_last());
        if front.len() > 0 && front.last() == path.last() {
            front
        } else {
            front.push(path.last())
        }
    }
}

/// Whether no network stands twice in a row in `path`.
pub open spec fn no_repeats(path: Seq<MrtAsn>) -> bool {
    forall|i: int| 0 < i < path.len() ==> path[i - 1] != #[trigger] path[i]
}

/// A collapsed path holds no repeat, ends as the path ends, and is the path
/// itself where that holds none.
pub proof fn lemma_collapse(path: Seq<MrtAsn>)
    ensures
        no_repeats(collapse(path)),
        collapse(path).len() <= path.len(),
        path.len() > 0 ==> collapse(path).len() > 0 && collapse(path).last() == path.last()
            && collapse(path)[0] == path[0],
        no_repeats(path) ==> collapse(path) == path,
    decreases path.len(),
{
    if path.len() > 0 {
        let front = path.drop_last();
        lemma_collapse(front);
        if no_repeats(path) {
            assert forall|i: int| 0 < i < front.len() implies front[i - 1]
                != #[trigger] front[i] by {
                assert(path[i - 1] != path[i]);
            }
            if front.len() > 0 {
                assert(path[path.len() - 2] != path[path.len() - 1]);
            }
            assert(collapse(path) =~= path);
        }
        if front.len() > 0 {
            assert(front[0] == path[0]);
        }
    }
}

/// Collapsing a collapsed path changes nothing.
pub proof fn lemma_collapse_idempotent(path: Seq<MrtAsn>)
    ensures
        collapse(collapse(path)) == collapse(path),
{
    lemma_collapse(path);
    lemma_collapse(collapse(path));
}

/// The route that shows the peering of `local` with `peer` on the collapsed
/// path `path`: it exists where the communities of `local` tell both the
/// relationship and the region, and the route names a next hop and a known
/// peer of the collector.
pub open spec fn observation(
    rules: AsnMappings,
    facts: RouteFacts,
    path: Seq<MrtAsn>,
    local: MrtAsn,
    peer: MrtAsn,
) -> Option<RouteView> {
    let peer_type = first_owned_match(
        local@,
        facts.communities,
        |c: (u32, u16)| rules.spec_peer_type(local@, c),
    );
    let peer_location = first_owned_match(
        local@,
        facts.communities,
        |c: (u32, u16)| rules.spec_peer_location(local@, c),
    );
    if peer_type is Some && peer_location is Some && facts.next_hop is Some && facts.peer is Some {
        Some(
            RouteView {
                local_as: local@,
                peer_as: peer@,
                peer_type: peer_type->0,
                peer_location: peer_location->0,
                as_path: path,
                filename: facts.filename,
                next_hop: facts.next_hop->0,
                peer: facts.peer->0,
                prefix: facts.prefix,
                ip_version: IpVersion::spec_of_prefix(facts.prefix),
                communities: facts.communities,
                large_communities: facts.large_communities,
            },
        )
    } else {
        None
    }
}

/// One thing that the scan found: a route that shows a peering, and, where
/// the peering is the second of two in a row, the triple that the three
/// networks make.
#[derive(Debug)]
pub struct Finding {
    pub route: Route,
    pub triple: Option<[MrtAsn; 3]>,
}

/// What a `Finding` holds.
pub struct FindingView {
    pub route: RouteView,
    pub triple: Option<Triple>,
}

impl View for Finding {
    type V = FindingView;

    open spec fn view(&self) -> FindingView {
        FindingView {
            route: self.route@,
            triple: match self.triple {
                Some(path) => Some(triple_of(path)),
                None => None,
            },
        }
    }
}

/// The views of the findings, in their order.
pub open spec fn finding_views(findings: Seq<Finding>) -> Seq<FindingView> {
    findings.map_values(|f: Finding| f@)
}

/// The finding that `route` makes, if there is a route: with the triple, or
/// without one.
pub open spec fn found(route: Option<RouteView>, triple: Option<Triple>) -> Seq<FindingView> {
    match route {
        Some(r) => seq![FindingView { route: r, triple }],
        None => Seq::empty(),
    }
}

/// Whether the peering of hop `i` with the next hop was found at the hop
/// before already, as the second of two peerings in a row.
pub open spec fn found_before(path: Seq<MrtAsn>, i: int) -> bool {
    0 < i && i + 1 < path.len() && is_tier1(path[i - 1]@) && is_tier1(path[i]@) && is_tier1(
        path[i + 1]@,
    )
}

/// What the scan finds at hop `i` of the collapsed path: where it and the
/// next hop are Tier 1, the route that shows their peering, unless the hop
/// before found it already; where the hop after the two is Tier 1 too, the
/// route that shows the peering of the second with the third, together
/// with the triple.
pub open spec fn findings_at(
    rules: AsnMappings,
    facts: RouteFacts,
    path: Seq<MrtAsn>,
    i: int,
) -> Seq<FindingView> {
    if 0 <= i && i + 1 < path.len() && is_tier1(path[i]@) && is_tier1(path[i + 1]@) {
        let first = if found_before(path, i) {
            Seq::empty()
        } else {
            found(observation(rules, facts, path, path[i], path[i + 1]), None)
        };
        if i + 2 < path.len() && is_tier1(path[i + 2]@) {
            first + found(
                observation(rules, facts, path, path[i + 1], path[i + 2]),
                Some((path[i]@, path[i + 1]@, path[i + 2]@)),
            )
        } else {
            first
        }
    } else {
        Seq::empty()
    }
}

/// What the scan finds at the first `n` hops of the collapsed path, hop by
/// hop.
pub open spec fn findings_upto(
    rules: AsnMappings,
    facts: RouteFacts,
    path: Seq<MrtAsn>,
    n: int,
) -> Seq<FindingView>
    decreases n,
{
    if n <= 0 {
        Seq::empty()
    } else {
        findings_upto(rules, facts, path, n - 1) + findings_at(rules, facts, path, n - 1)
    }
}

/// Whether the scan leaves the route out: its path is empty, or starts at a
/// network that is on the skip list for the file.
pub open spec fn left_out(facts: RouteFacts) -> bool {
    let path = collapse(facts.as_path);
    path.len() == 0 || is_skip_entry(path[0]@, basename_of(facts.filename))
}

/// What the scan of one route finds, in the order of the path.
pub open spec fn findings(rules: AsnMappings, facts: RouteFacts) -> Seq<FindingView> {
    let path = collapse(facts.as_path);
    if left_out(facts) {
        Seq::empty()
    } else {
        findings_upto(rules, facts, path, path.len() as int)
    }
}

/// The indexes after the finding was stored: its route is offered to the
/// index of peerings, and, where it has a triple, to the index of triples.
/// Either index keeps what it holds under the key already.
pub open spec fn store(st: IndexState, finding: FindingView) -> IndexState {
    IndexState {
        peerings: by_local_add(st.peerings, finding.route),
        triples: match finding.triple {
            Some(t) => put_if_absent(st.triples, t, finding.route),
            None => st.triples,
        },
    }
}

/// The indexes after the findings were stored, one after the other.
pub open spec fn store_all(st: IndexState, findings: Seq<FindingView>) -> IndexState
    decreases findings.len(),
{
    if findings.len() == 0 {
        st
    } else {
        store(store_all(st, findings.drop_last()), findings.last())
    }
}

/// The indexes after the scan of one route.
pub open spec fn scan(rules: AsnMappings, facts: RouteFacts, st: IndexState) -> IndexState {
    store_all(st, findings(rules, facts))
}

/// The scan of a path with repeats finds what the scan of the collapsed
/// path finds.
pub proof fn lemma_scan_ignores_repeats(rules: AsnMappings, facts: RouteFacts)
    ensures
        findings(rules, facts) == findings(
            rules,
            RouteFacts { as_path: collapse(facts.as_path), ..facts },
        ),
        forall|st: IndexState|
            scan(rules, facts, st) == scan(
                rules,
                RouteFacts { as_path: collapse(facts.as_path), ..facts },
                st,
            ),
{
    lemma_collapse_idempotent(facts.as_path);
    let collapsed = RouteFacts { as_path: collapse(facts.as_path), ..facts };
    let path = collapse(facts.as_path);
    lemma_findings_read_no_path(rules, facts, collapsed, path, path.len() as int);
}

/// The steps of the scan read the collapsed path that they are given, not
/// the path of the route.
pub proof fn lemma_findings_read_no_path(
    rules: AsnMappings,
    a: RouteFacts,
    b: RouteFacts,
    path: Seq<MrtAsn>,
    n: int,
)
    requires
        b == (RouteFacts { as_path: b.as_path, ..a }),
    ensures
        findings_upto(rules, a, path, n) == findings_upto(rules, b, path, n),
    decreases n,
{
    if n > 0 {
        lemma_findings_read_no_path(rules, a, b, path, n - 1);
    }
}

/// A route whose path starts at a network that is on the skip list for its
/// file gives no finding and changes neither index, whatever else the path
/// holds.
pub proof fn lemma_skip_listed_path_ignored(rules: AsnMappings, facts: RouteFacts)
    requires
        facts.as_path.len() > 0,
        is_skip_entry(facts.as_path[0]@, basename_of(facts.filename)),
    ensures
        findings(rules, facts) == Seq::<FindingView>::empty(),
        forall|st: IndexState| scan(rules, facts, st) == st,
{
    lemma_collapse(facts.as_path);
}

/// Where the communities of `local` tell only one of relationship and
/// region, or neither, no route shows its peering, so none is found for it.
pub proof fn lemma_unresolved_gives_no_observation(
    rules: AsnMappings,
    facts: RouteFacts,
    path: Seq<MrtAsn>,
    local: MrtAsn,
    peer: MrtAsn,
)
    requires
        first_owned_match(
            local@,
            facts.communities,
            |c: (u32, u16)| rules.spec_peer_type(local@, c),
        ) is None || first_owned_match(
            local@,
            facts.communities,
            |c: (u32, u16)| rules.spec_peer_location(local@, c),
        ) is None,
    ensures
        observation(rules, facts, path, local, peer) is None,
        forall|triple: Option<Triple>|
            found(observation(rules, facts, path, local, peer), triple) == Seq::<
                FindingView,
            >::empty(),
{
}

/// Whether `finding` is one that hop `i` of the collapsed path `path` can
/// give: its route shows the peering of two Tier 1 networks that stand next
/// to each other there, with the relationship and the region that the
/// communities of the local one tell, and its triple, where it has one, is
/// made of the Tier 1 network before the two and the two.
pub open spec fn found_at(
    rules: AsnMappings,
    facts: RouteFacts,
    path: Seq<MrtAsn>,
    finding: FindingView,
    i: int,
) -> bool {
    let route = finding.route;
    &&& 0 <= i && i + 1 < path.len()
    &&& is_tier1(path[i]@) && is_tier1(path[i + 1]@)
    &&& match finding.triple {
        None => route.local_as == path[i]@ && route.peer_as == path[i + 1]@,
        Some(t) => i + 2 < path.len() && is_tier1(path[i + 2]@) && t == (
            path[i]@,
            path[i + 1]@,
            path[i + 2]@,
        ) && route.local_as == path[i + 1]@ && route.peer_as == path[i + 2]@,
    }
    &&& Some(route.peer_type) == first_owned_match(
        route.local_as,
        facts.communities,
        |c: (u32, u16)| rules.spec_peer_type(route.local_as, c),
    )
    &&& Some(route.peer_location) == first_owned_match(
        route.local_as,
        facts.communities,
        |c: (u32, u16)| rules.spec_peer_location(route.local_as, c),
    )
    &&& route.as_path == path
}

/// Whatever the scan of the first `n` hops finds, one of those hops gives.
pub proof fn lemma_findings_upto_sound(
    rules: AsnMappings,
    facts: RouteFacts,
    path: Seq<MrtAsn>,
    n: int,
    finding: FindingView,
)
    requires
        findings_upto(rules, facts, path, n).contains(finding),
    ensures
        exists|i: int| 0 <= i < n && found_at(rules, facts, path, finding, i),
    decreases n,
{
    if n > 0 {
        let earlier = findings_upto(rules, facts, path, n - 1);
        let here = findings_at(rules, facts, path, n - 1);
        let all = earlier + here;
        let j = choose|j: int| 0 <= j < all.len() && all[j] == finding;
        if j < earlier.len() {
            assert(earlier[j] == finding);
            lemma_findings_upto_sound(rules, facts, path, n - 1, finding);
            let i = choose|i: int| 0 <= i < n - 1 && found_at(rules, facts, path, finding, i);
            assert(0 <= i < n && found_at(rules, facts, path, finding, i));
        } else {
            assert(here[j - earlier.len()] == finding);
            assert(found_at(rules, facts, path, finding, n - 1));
        }
    }
}

/// Whatever the scan of a route finds shows the peering of two Tier 1
/// networks that stand next to each other on the collapsed path, with the
/// relationship and the region that the communities of the local one tell.
/// So no finding names a network that is not Tier 1, and none is made where
/// one of relationship and region is not told.
pub proof fn lemma_findings_sound(rules: AsnMappings, facts: RouteFacts, finding: FindingView)
    requires
        findings(rules, facts).contains(finding),
    ensures
        exists|i: int| found_at(rules, facts, collapse(facts.as_path), finding, i),
        is_tier1(finding.route.local_as),
        is_tier1(finding.route.peer_as),
        finding.triple matches Some(t) ==> is_tier1(t.0) && t.1 == finding.route.local_as && t.2
            == finding.route.peer_as,
{
    let path = collapse(facts.as_path);
    lemma_findings_upto_sound(rules, facts, path, path.len() as int, finding);
}

/// What a hop gives is among what the scan of the hops up to it and beyond
/// finds.
pub proof fn lemma_findings_upto_holds(
    rules: AsnMappings,
    facts: RouteFacts,
    path: Seq<MrtAsn>,
    n: int,
    i: int,
    finding: FindingView,
)
    requires
        0 <= i < n,
        findings_at(rules, facts, path, i).contains(finding),
    ensures
        findings_upto(rules, facts, path, n).contains(finding),
    decreases n,
{
    let earlier = findings_upto(rules, facts, path, n - 1);
    let here = findings_at(rules, facts, path, n - 1);
    if i == n - 1 {
        let j = choose|j: int| 0 <= j < here.len() && here[j] == finding;
        assert((earlier + here)[earlier.len() + j] == finding);
    } else {
        lemma_findings_upto_holds(rules, facts, path, n - 1, i, finding);
        let j = choose|j: int| 0 <= j < earlier.len() && earlier[j] == finding;
        assert((earlier + here)[j] == finding);
    }
}

/// The scan misses no peering: wherever two Tier 1 networks stand next to
/// each other on the collapsed path of a route that is not left out, and a
/// route shows their peering, the scan finds that route; and where a Tier 1
/// network stands before the two, it finds it together with the triple.
pub proof fn lemma_findings_complete(rules: AsnMappings, facts: RouteFacts, i: int)
    requires
        !left_out(facts),
        0 <= i,
        i + 1 < collapse(facts.as_path).len(),
        is_tier1(collapse(facts.as_path)[i]@),
        is_tier1(collapse(facts.as_path)[i + 1]@),
        observation(
            rules,
            facts,
            collapse(facts.as_path),
            collapse(facts.as_path)[i],
            collapse(facts.as_path)[i + 1],
        ) is Some,
    ensures
        ({
            let path = collapse(facts.as_path);
            let route = observation(rules, facts, path, path[i], path[i + 1])->0;
            &&& exists|finding: FindingView|
                findings(rules, facts).contains(finding) && finding.route == route
            &&& i > 0 && is_tier1(path[i - 1]@) ==> findings(rules, facts).contains(
                FindingView { route, triple: Some((path[i - 1]@, path[i]@, path[i + 1]@)) },
            )
        }),
{
    let path = collapse(facts.as_path);
    let route = observation(rules, facts, path, path[i], path[i + 1])->0;
    let n = path.len() as int;
    if i > 0 && is_tier1(path[i - 1]@) {
        let finding = FindingView { route, triple: Some((path[i - 1]@, path[i]@, path[i + 1]@)) };
        let before = if found_before(path, i - 1) {
            Seq::empty()
        } else {
            found(observation(rules, facts, path, path[i - 1], path[i]), None)
        };
        let at = findings_at(rules, facts, path, i - 1);
        assert(at == before + seq![finding]);
        assert(at[before.len() as int] == finding);
        lemma_findings_upto_holds(rules, facts, path, n, i - 1, finding);
        assert(findings(rules, facts).contains(finding) && finding.route == route);
    } else {
        let finding = FindingView { route, triple: None };
        let at = findings_at(rules, facts, path, i);
        assert(!found_before(path, i));
        assert(found(observation(rules, facts, path, path[i], path[i + 1]), None)[0] == finding);
        assert(at[0] == finding);
        lemma_findings_upto_holds(rules, facts, path, n, i, finding);
        assert(findings(rules, facts).contains(finding) && finding.route == route);
    }
}

/// On a path of three Tier 1 networks and then another network, the scan
/// finds the peering of the first with the second, and that of the second
/// with the third together with the triple, each where the communities
/// resolve it, and nothing else. Nothing that it finds names the fourth
/// network.
pub proof fn lemma_three_tier1_then_other(
    rules: AsnMappings,
    facts: RouteFacts,
    a: MrtAsn,
    b: MrtAsn,
    c: MrtAsn,
    d: MrtAsn,
)
    requires
        collapse(facts.as_path) == seq![a, b, c, d],
        !left_out(facts),
        is_tier1(a@),
        is_tier1(b@),
        is_tier1(c@),
        !is_tier1(d@),
    ensures
        findings(rules, facts) == found(observation(rules, facts, seq![a, b, c, d], a, b), None)
            + found(observation(rules, facts, seq![a, b, c, d], b, c), Some((a@, b@, c@))),
{
    let path = seq![a, b, c, d];
    assert(findings_upto(rules, facts, path, 0) == Seq::<FindingView>::empty());
    assert(findings_upto(rules, facts, path, 1) == findings_upto(rules, facts, path, 0)
        + findings_at(rules, facts, path, 0));
    assert(findings_upto(rules, facts, path, 2) == findings_upto(rules, facts, path, 1)
        + findings_at(rules, facts, path, 1));
    assert(findings_upto(rules, facts, path, 3) == findings_upto(rules, facts, path, 2)
        + findings_at(rules, facts, path, 2));
    assert(findings_upto(rules, facts, path, 4) == findings_upto(rules, facts, path, 3)
        + findings_at(rules, facts, path, 3));
    assert(findings_at(rules, facts, path, 2) == Seq::<FindingView>::empty());
    assert(findings_at(rules, facts, path, 3) == Seq::<FindingView>::empty());
    assert(findings_at(rules, facts, path, 1) == Seq::<FindingView>::empty());
    assert(findings(rules, facts) =~= found(observation(rules, facts, path, a, b), None) + found(
        observation(rules, facts, path, b, c),
        Some((a@, b@, c@)),
    ));
}

/// `path` without its repeats.
pub fn collapse_repeats(path: &Vec<MrtAsn>) -> (r: Vec<MrtAsn>)
    ensures
        r@ == collapse(path@),
{
    let mut r: Vec<MrtAsn> = Vec::new();
    let mut i: usize = 0;
    while i < path.len()
        invariant
            i <= path.len(),
            r@ == collapse(path@.take(i as int)),
        decreases path.len() - i,
    {
        proof {
            assert(path@.take(i + 1).drop_last() == path@.take(i as int));
        }
        let n = r.len();
        if n == 0 || r[n - 1] != path[i] {
            r.push(path[i]);
        }
        i += 1;
    }
    proof {
        assert(path@.take(i as int) == path@);
    }
    r
}

/// The route that shows the peering of `local_asn` with `peer_asn`, if the
/// route `rib_entry` shows it.
pub fn build_route(
    mrt_data: &MrtData,
    rib_entry: &RibEntry,
    local_asn: &MrtAsn,
    peer_asn: &MrtAsn,
    as_sequence: &Vec<MrtAsn>,
    prefix: &String,
) -> (r: Option<Route>)
    ensures
        match r {
            Some(route) => Some(route@),
            None => None,
        } == observation(
            *mrt_data.asn_mappings,
            facts_of(prefix@, *rib_entry, mrt_data.peer_id_map@, mrt_data.fp@),
            as_sequence@,
            *local_asn,
            *peer_asn,
        ),
{
    if !mrt_data.peer_id_map.has_peer(&rib_entry.peer_index) {
        return None;
    }
    let peer = mrt_data.peer_id_map.get_peer(&rib_entry.peer_index);
    let next_hop = match get_next_hop(rib_entry) {
        Some(next_hop) => next_hop,
        None => {
            return None;
        },
    };
    let communities = get_communities(rib_entry);
    let peer_location = match communities.get_peer_location(local_asn, mrt_data.asn_mappings) {
        Some(peer_location) => peer_location,
        None => {
            return None;
        },
    };
    let peer_type = match communities.get_peer_type(local_asn, mrt_data.asn_mappings) {
        Some(peer_type) => peer_type,
        None => {
            return None;
        },
    };
    let mut large: Vec<LargeCommunity> = Vec::new();
    let mut i: usize = 0;
    while i < rib_entry.large_communities.len()
        invariant
            i <= rib_entry.large_communities.len(),
            large@ == rib_entry.large_communities@.take(i as int),
        decreases rib_entry.large_communities.len() - i,
    {
        large.push(rib_entry.large_communities[i]);
        i += 1;
    }
    assert(large@ == rib_entry.large_communities@);
    Some(
        Route::new(
            *local_asn,
            *peer_asn,
            peer_type,
            peer_location,
            clone_path(as_sequence),
            mrt_data.fp.clone(),
            next_hop,
            peer.clone(),
            prefix.clone(),
            IpVersion::of_prefix(prefix.as_str()),
            communities,
            LargeCommunities::new(large),
        ),
    )
}

/// Offering a route to an index that holds one under its key changes
/// nothing.
pub proof fn lemma_add_where_held(m: ByLocal, route: RouteView)
    requires
        holds(m, route.key()),
    ensures
        by_local_add(m, route) == m,
{
    assert(by_local_add(m, route) =~~= m);
}

/// Stores `route` in the index of peerings, unless a route is stored under
/// its key already.
pub fn add_peering(global_peerings: &mut GlobalPeerings, route: &Route)
    ensures
        final(global_peerings)@ == by_local_add(old(global_peerings)@, route@),
{
    if !global_peerings.has_peering(route) {
        global_peerings.add_peering(route.clone());
    } else {
        proof {
            lemma_add_where_held(global_peerings@, route@);
        }
    }
}

/// Stores `route` in the index of triples under the triple, unless a route
/// is stored under it already.
pub fn add_triple_t1_path(
    triple_t1_paths: &mut TripleT1Paths,
    triple_t1_path: [MrtAsn; 3],
    route: &Route,
)
    ensures
        final(triple_t1_paths)@ == put_if_absent(
            old(triple_t1_paths)@,
            triple_of(triple_t1_path),
            route@,
        ),
{
    if !triple_t1_paths.has_path(&triple_t1_path) {
        triple_t1_paths.add_path(triple_t1_path, route.clone());
    }
}

/// Scans the AS path of one route for neighbouring Tier 1 networks and
/// returns what it finds, in the order of the path.
pub fn find_peerings(prefix: &String, rib_entry: &RibEntry, mrt_data: &MrtData) -> (r: Vec<Finding>)
    ensures
        finding_views(r@) == findings(
            *mrt_data.asn_mappings,
            facts_of(prefix@, *rib_entry, mrt_data.peer_id_map@, mrt_data.fp@),
        ),
{
    let ghost rules = *mrt_data.asn_mappings;
    let ghost facts = facts_of(prefix@, *rib_entry, mrt_data.peer_id_map@, mrt_data.fp@);
    let mut r: Vec<Finding> = Vec::new();
    assert(finding_views(r@) =~= Seq::<FindingView>::empty());
    let as_sequence = match get_as_sequence(rib_entry) {
        Some(path) => collapse_repeats(&path),
        None => {
            return r;
        },
    };
    if as_sequence.len() == 0 {
        // Some collectors include iBGP paths or self originated prefixes with no AS path
        return r;
    }
    // Skip paths from route collectors which are known to contain inaccurate data
    let name = basename(mrt_data.fp.as_str());
    if as_sequence[0].is_skip_asn(name.as_str()) {
        return r;
    }
    let n = as_sequence.len();
    let mut i: usize = 0;
    while i < n
        invariant
            i <= n,
            n == as_sequence.len(),
            as_sequence@ == collapse(facts.as_path),
            rules == *mrt_data.asn_mappings,
            facts == facts_of(prefix@, *rib_entry, mrt_data.peer_id_map@, mrt_data.fp@),
            finding_views(r@) == findings_upto(rules, facts, as_sequence@, i as int),
        decreases n - i,
    {
        // We could see up to three T1 ASNs in a row e.g. AS3 AS2 AS1 AS65535.
        // AS3 peers with AS2, AS1 is transit customer of AS2 (despite being "Tier 1").
        // AS65535 is non-T1 transit customer of AS1.
        // In this case we need to check AS3-AS2 communities and AS2-AS1 communities.
        let ghost before = finding_views(r@);
        let asn_1 = as_sequence[i];
        if asn_1.is_t1_asn() && i + 1 < n {
            let asn_2 = as_sequence[i + 1];
            if asn_2.is_t1_asn() {
                // Where the hop before is Tier 1 too, it found this peering already.
                let seen = i > 0 && as_sequence[i - 1].is_t1_asn();
                if !seen {
                    match build_route(mrt_data, rib_entry, &asn_1, &asn_2, &as_sequence, prefix) {
                        Some(route) => {
                            let ghost earlier = r@;
                            let finding = Finding { route, triple: None };
                            r.push(finding);
                            assert(finding_views(r@) =~= finding_views(earlier).push(finding@));
                        },
                        None => {},
                    }
                }
                let ghost first = if found_before(as_sequence@, i as int) {
                    Seq::empty()
                } else {
                    found(observation(rules, facts, as_sequence@, asn_1, asn_2), None)
                };
                assert(finding_views(r@) =~= before + first);
                if i + 2 < n {
                    let asn_3 = as_sequence[i + 2];
                    if asn_3.is_t1_asn() {
                        match build_route(
                            mrt_data,
                            rib_entry,
                            &asn_2,
                            &asn_3,
                            &as_sequence,
                            prefix,
                        ) {
                            Some(route) => {
                                let ghost earlier = r@;
                                let finding = Finding {
                                    route,
                                    triple: Some([asn_1, asn_2, asn_3]),
                                };
                                r.push(finding);
                                assert(finding_views(r@) =~= finding_views(earlier).push(
                                    finding@,
                                ));
                            },
                            None => {},
                        }
                        assert(finding_views(r@) =~= before + (first + found(
                            observation(rules, facts, as_sequence@, asn_2, asn_3),
                            Some((asn_1@, asn_2@, asn_3@)),
                        )));
                    }
                }
            }
        }
        assert(finding_views(r@) =~= before + findings_at(rules, facts, as_sequence@, i as int));
        i += 1;
    }
    r
}

/// Stores a finding: its route in the index of peerings, and, where it has
/// a triple, in the index of triples. Either index keeps what it holds
/// under the key already.
pub fn store_finding(
    finding: &Finding,
    global_peerings: &mut GlobalPeerings,
    triple_t1_paths: &mut TripleT1Paths,
)
    ensures
        (IndexState { peerings: final(global_peerings)@, triples: final(triple_t1_paths)@ })
            == store(
            IndexState { peerings: old(global_peerings)@, triples: old(triple_t1_paths)@ },
            finding@,
        ),
{
    add_peering(global_peerings, &finding.route);
    match finding.triple {
        Some(triple_t1_path) => {
            add_triple_t1_path(triple_t1_paths, triple_t1_path, &finding.route);
        },
        None => {},
    }
}

/// Scans the AS path of one route for neighbouring Tier 1 networks and
/// stores what it finds in the two indexes.
pub fn check_as_seq(
    prefix: &String,
    rib_entry: &RibEntry,
    mrt_data: &MrtData,
    global_peerings: &mut GlobalPeerings,
    triple_t1_paths: &mut TripleT1Paths,
)
    ensures
        (IndexState { peerings: final(global_peerings)@, triples: final(triple_t1_paths)@ })
            == scan(
            *mrt_data.asn_mappings,
            facts_of(prefix@, *rib_entry, mrt_data.peer_id_map@, mrt_data.fp@),
            IndexState { peerings: old(global_peerings)@, triples: old(triple_t1_paths)@ },
        ),
{
    let ghost st0 = IndexState { peerings: global_peerings@, triples: triple_t1_paths@ };
    let found = find_peerings(prefix, rib_entry, mrt_data);
    let mut i: usize = 0;
    while i < found.len()
        invariant
            i <= found.len(),
            (IndexState { peerings: global_peerings@, triples: triple_t1_paths@ }) == store_all(
                st0,
                finding_views(found@).take(i as int),
            ),
        decreases found.len() - i,
    {
        proof {
            assert(finding_views(found@).take(i + 1).drop_last() == finding_views(found@).take(
                i as int,
            ));
        }
        store_finding(&found[i], global_peerings, triple_t1_paths);
        i += 1;
    }
    proof {
        assert(finding_views(found@).take(i as int) == finding_views(found@));
    }
}

/// The indexes after the first `n` routes of `entries`, all for `prefix`,
/// were scanned, one after the other.
pub open spec fn scan_entries(
    rules: AsnMappings,
    peers: Map<u16, PeerView>,
    fp: Seq<char>,
    prefix: Seq<char>,
    entries: Seq<RibEntry>,
    n: int,
    st: IndexState,
) -> IndexState
    decreases n,
{
    if n <= 0 {
        st
    } else {
        scan(
            rules,
            facts_of(prefix, entries[n - 1], peers, fp),
            scan_entries(rules, peers, fp, prefix, entries, n - 1, st),
        )
    }
}

/// The error that a record behind the first one of a file is, if it is
/// one: it holds no routes for a prefix, or routes of another table than a
/// unicast one.
pub open spec fn record_error(record: MrtRecord) -> Option<RecordError> {
    match record {
        MrtRecord::RibAfi(entries) => if is_unicast(entries.rib_type) {
            None
        } else {
            Some(RecordError::UnexpectedTableType)
        },
        _ => Some(RecordError::NotRibAfi),
    }
}

/// The indexes after the routes of `record` were scanned. The routes of a
/// default route are not scanned, nor is a record that is an error.
pub open spec fn scan_record(
    rules: AsnMappings,
    peers: Map<u16, PeerView>,
    fp: Seq<char>,
    record: MrtRecord,
    st: IndexState,
) -> IndexState {
    match record {
        MrtRecord::RibAfi(entries) => if wanted_prefix(entries.rib_type, entries.prefix@) {
            scan_entries(
                rules,
                peers,
                fp,
                entries.prefix@,
                entries.rib_entries@,
                entries.rib_entries@.len() as int,
                st,
            )
        } else {
            st
        },
        _ => st,
    }
}

/// Scans each route of the record and stores what it finds in the two
/// indexes. A record that does not hold the routes of a unicast table for
/// a prefix is an error, and leaves the indexes as they are.
pub fn parse_mrt_entry(
    mrt_data: MrtData,
    global_peerings: &mut GlobalPeerings,
    triple_t1_paths: &mut TripleT1Paths,
) -> (r: Result<(), RecordError>)
    ensures
        r == match record_error(*mrt_data.mrt_entry) {
            Some(e) => Err::<(), RecordError>(e),
            None => Ok(()),
        },
        (IndexState { peerings: final(global_peerings)@, triples: final(triple_t1_paths)@ })
            == scan_record(
            *mrt_data.asn_mappings,
            mrt_data.peer_id_map@,
            mrt_data.fp@,
            *mrt_data.mrt_entry,
            IndexState { peerings: old(global_peerings)@, triples: old(triple_t1_paths)@ },
        ),
{
    let ghost st0 = IndexState { peerings: global_peerings@, triples: triple_t1_paths@ };
    let rib_entries = match get_rib_entries(mrt_data.mrt_entry) {
        Ok(Some(rib_entries)) => rib_entries,
        Ok(None) => {
            return Ok(());
        },
        Err(e) => {
            return Err(e);
        },
    };
    let mut i: usize = 0;
    while i < rib_entries.rib_entries.len()
        invariant
            i <= rib_entries.rib_entries.len(),
            (IndexState { peerings: global_peerings@, triples: triple_t1_paths@ }) == scan_entries(
                *mrt_data.asn_mappings,
                mrt_data.peer_id_map@,
                mrt_data.fp@,
                rib_entries.prefix@,
                rib_entries.rib_entries@,
                i as int,
                st0,
            ),
        decreases rib_entries.rib_entries.len() - i,
    {
        check_as_seq(
            &rib_entries.prefix,
            &rib_entries.rib_entries[i],
            &mrt_data,
            global_peerings,
            triple_t1_paths,
        );
        i += 1;
    }
    Ok(())
}

} // verus!
