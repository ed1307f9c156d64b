//! The index of peerings: one exemplar route for each local network, peer
//! network, region, relationship and address family that were seen together.
//! The first route stored under such a key stays; later ones are dropped.

use crate::mrt_asn::MrtAsn;
use crate::mrt_route::{IpVersion, Route, RouteView};
use crate::peer_attrs::{PeerLocation, PeerType};
use std::collections::HashMap;
use vstd::std_specs::iter::IteratorSpec;
use vstd::prelude::*;

verus! {

/// `m` with `v` under `k`, unless `m` holds something under `k` already.
pub open spec fn put_if_absent<K, V>(m: Map<K, V>, k: K, v: V) -> Map<K, V> {
    if m.contains_key(k) {
        m
    } else {
        m.insert(k, v)
    }
}

/// What `m` holds under `k`, or the empty map where it holds nothing there.
pub open spec fn get_or_empty<K, K2, V>(m: Map<K, Map<K2, V>>, k: K) -> Map<K2, V> {
    if m.contains_key(k) {
        m[k]
    } else {
        Map::empty()
    }
}

/// The exemplars of one relationship, by address family.
pub type ByVersion = Map<IpVersion, RouteView>;

/// The exemplars of one region, by relationship.
pub type ByType = Map<PeerType, ByVersion>;

/// The exemplars of one peer network, by region.
pub type ByLocation = Map<PeerLocation, ByType>;

/// The exemplars of one local network, by peer network.
pub type ByPeer = Map<u32, ByLocation>;

/// All exemplars, by local network.
pub type ByLocal = Map<u32, ByPeer>;

/// `m` after `route` was offered to it.
pub open spec fn by_version_add(m: ByVersion, route: RouteView) -> ByVersion {
    put_if_absent(m, route.ip_version, route)
}

/// `m` after `route` was offered to it.
pub open spec fn by_type_add(m: ByType, route: RouteView) -> ByType {
    m.insert(route.peer_type, by_version_add(get_or_empty(m, route.peer_type), route))
}

/// `m` after `route` was offered to it.
pub open spec fn by_location_add(m: ByLocation, route: RouteView) -> ByLocation {
    m.insert(route.peer_location, by_type_add(get_or_empty(m, route.peer_location), route))
}

/// `m` after `route` was offered to it.
pub open spec fn by_peer_add(m: ByPeer, route: RouteView) -> ByPeer {
    m.insert(route.peer_as, by_location_add(get_or_empty(m, route.peer_as), route))
}

/// `m` after `route` was offered to it.
pub open spec fn by_local_add(m: ByLocal, route: RouteView) -> ByLocal {
    m.insert(route.local_as, by_peer_add(get_or_empty(m, route.local_as), route))
}

/// The exemplars of one relationship, keyed by address family.
#[derive(Debug)]
pub struct PeeringsByVersion {
    peerings_by_ver: HashMap<u8, Route>,
}

impl View for PeeringsByVersion {
    type V = ByVersion;

    closed spec fn view(&self) -> ByVersion {
        Map::new(
            |v: IpVersion| self.peerings_by_ver@.contains_key(v.spec_code()),
            |v: IpVersion| self.peerings_by_ver@[v.spec_code()]@,
        )
    }
}

impl Default for PeeringsByVersion {
    fn default() -> (r: Self)
        ensures
            r@ == ByVersion::empty(),
    {
        Self::new()
    }
}

impl PeeringsByVersion {
    pub fn new() -> (r: Self)
        ensures
            r@ == ByVersion::empty(),
    {
        let r = Self { peerings_by_ver: HashMap::new() };
        assert(r@ =~= ByVersion::empty());
        r
    }

    pub fn from(route: Route) -> (r: Self)
        ensures
            r@ == by_version_add(Map::empty(), route@),
    {
        let mut r = Self::new();
        r.add_peering(route);
        r
    }

    /// Stores `route` under its address family, unless a route is stored
    /// there already.
    pub fn add_peering(&mut self, route: Route)
        ensures
            final(self)@ == by_version_add(old(self)@, route@),
    {
        if self.has_peering(&route) {
            return;
        }
        let k = route.get_ip_version().code();
        self.peerings_by_ver.insert(k, route);
        assert(self@ =~= by_version_add(old(self)@, route@));
    }

    /// Whether a route is stored under the address family of `route`.
    pub fn has_peering(&self, route: &Route) -> (b: bool)
        ensures
            b == self@.contains_key(route@.ip_version),
    {
        let k = route.get_ip_version().code();
        self.peerings_by_ver.contains_key(&k)
    }

    /// The route stored under `version`, if any.
    pub fn get_peering(&self, version: IpVersion) -> (r: Option<&Route>)
        ensures
            match r {
                Some(route) => self@.contains_key(version) && route@ == self@[version],
                None => !self@.contains_key(version),
            },
    {
        let k = version.code();
        self.peerings_by_ver.get(&k)
    }
}

/// All peerings for a single location, keyed by peer type.
#[derive(Debug)]
pub struct PeeringsInLocation {
    peerings_in_loc: HashMap<u8, PeeringsByVersion>,
}

impl View for PeeringsInLocation {
    type V = ByType;

    closed spec fn view(&self) -> ByType {
        Map::new(
            |t: PeerType| self.peerings_in_loc@.contains_key(t.spec_code()),
            |t: PeerType| self.peerings_in_loc@[t.spec_code()]@,
        )
    }
}

impl Default for PeeringsInLocation {
    fn default() -> (r: Self)
        ensures
            r@ == ByType::empty(),
    {
        Self::new()
    }
}

impl PeeringsInLocation {
    pub fn new() -> (r: Self)
        ensures
            r@ == ByType::empty(),
    {
        let r = Self { peerings_in_loc: HashMap::new() };
        assert(r@ =~= ByType::empty());
        r
    }

    pub fn from(route: Route) -> (r: Self)
        ensures
            r@ == by_type_add(Map::empty(), route@),
    {
        let mut r = Self::new();
        r.add_peering(route);
        r
    }

    /// Stores `route` under its relationship and address family, unless a
    /// route is stored there already.
    pub fn add_peering(&mut self, route: Route)
        ensures
            final(self)@ == by_type_add(old(self)@, route@),
    {
        let k = route.get_peer_type().code();
        match self.peerings_in_loc.remove(&k) {
            None => {
                self.peerings_in_loc.insert(k, PeeringsByVersion::from(route));
            },
            Some(mut inner) => {
                inner.add_peering(route);
                self.peerings_in_loc.insert(k, inner);
            },
        }
        assert(self@ =~= by_type_add(old(self)@, route@));
    }

    /// Whether any route is stored under the relationship of `route`.
    pub fn has_peerings_with_type(&self, route: &Route) -> (b: bool)
        ensures
            b == self@.contains_key(route@.peer_type),
    {
        let k = route.get_peer_type().code();
        self.peerings_in_loc.contains_key(&k)
    }

    /// Whether a route is stored under the relationship and the address
    /// family of `route`.
    pub fn has_peering(&self, route: &Route) -> (b: bool)
        ensures
            b == (self@.contains_key(route@.peer_type) && self@[route@.peer_type].contains_key(
                route@.ip_version,
            )),
    {
        let k = route.get_peer_type().code();
        match self.peerings_in_loc.get(&k) {
            Some(type_peerings) => type_peerings.has_peering(route),
            None => false,
        }
    }

    /// The routes stored under `peer_type`, if any.
    pub fn get_type_peerings(&self, peer_type: PeerType) -> (r: Option<&PeeringsByVersion>)
        ensures
            match r {
                Some(inner) => self@.contains_key(peer_type) && inner@ == self@[peer_type],
                None => !self@.contains_key(peer_type),
            },
    {
        let k = peer_type.code();
        self.peerings_in_loc.get(&k)
    }
}


/// All peerings for a single peer ASN, keyed by peer location.
#[derive(Debug)]
pub struct LocationPeerings {
    location_peerings: HashMap<u8, PeeringsInLocation>,
}

impl View for LocationPeerings {
    type V = ByLocation;

    closed spec fn view(&self) -> ByLocation {
        Map::new(
            |k: PeerLocation| self.location_peerings@.contains_key(k.spec_code()),
            |k: PeerLocation| self.location_peerings@[k.spec_code()]@,
        )
    }
}

impl Default for LocationPeerings {
    fn default() -> (r: Self)
        ensures
            r@ == ByLocation::empty(),
    {
        Self::new()
    }
}

impl LocationPeerings {
    pub fn new() -> (r: Self)
        ensures
            r@ == ByLocation::empty(),
    {
        let r = Self { location_peerings: HashMap::new() };
        assert(r@ =~= ByLocation::empty());
        r
    }

    pub fn from(route: Route) -> (r: Self)
        ensures
            r@ == by_location_add(Map::empty(), route@),
    {
        let mut r = Self::new();
        r.add_peering(route);
        r
    }

    /// Stores `route` under its region and the rest of its key, unless a
    /// route is stored there already.
    pub fn add_peering(&mut self, route: Route)
        ensures
            final(self)@ == by_location_add(old(self)@, route@),
    {
        let k = route.get_peer_location().code();
        match self.location_peerings.remove(&k) {
            None => {
                self.location_peerings.insert(k, PeeringsInLocation::from(route));
            },
            Some(mut inner) => {
                inner.add_peering(route);
                self.location_peerings.insert(k, inner);
            },
        }
        assert(self@ =~= by_location_add(old(self)@, route@));
    }

    /// Whether any route is stored under the region of `route`.
    pub fn has_peerings_in_location(&self, route: &Route) -> (b: bool)
        ensures
            b == self@.contains_key(route@.peer_location),
    {
        let k = route.get_peer_location().code();
        self.location_peerings.contains_key(&k)
    }

    /// Whether a route is stored under the region, the relationship and the
    /// address family of `route`.
    pub fn has_peering(&self, route: &Route) -> (b: bool)
        ensures
            b == (self@.contains_key(route@.peer_location) && self@[route@.peer_location].contains_key(
                route@.peer_type,
            ) && self@[route@.peer_location][route@.peer_type].contains_key(route@.ip_version)),
    {
        let k = route.get_peer_location().code();
        match self.location_peerings.get(&k) {
            Some(inner) => inner.has_peering(route),
            None => false,
        }
    }

    /// The routes stored under `peer_location`, if any.
    pub fn get_peerings_in(&self, peer_location: PeerLocation) -> (r: Option<&PeeringsInLocation>)
        ensures
            match r {
                Some(inner) => self@.contains_key(peer_location) && inner@ == self@[peer_location],
                None => !self@.contains_key(peer_location),
            },
    {
        let k = peer_location.code();
        self.location_peerings.get(&k)
    }
}

/// Peering data for an ASN, keyed by peer ASN.
#[derive(Debug)]
pub struct AsnPeerings {
    peers: HashMap<u32, LocationPeerings>,
}

impl View for AsnPeerings {
    type V = ByPeer;

    closed spec fn view(&self) -> ByPeer {
        Map::new(
            |k: u32| self.peers@.contains_key(k),
            |k: u32| self.peers@[k]@,
        )
    }
}

impl Default for AsnPeerings {
    fn default() -> (r: Self)
        ensures
            r@ == ByPeer::empty(),
    {
        Self::new()
    }
}

impl AsnPeerings {
    pub fn new() -> (r: Self)
        ensures
            r@ == ByPeer::empty(),
    {
        let r = Self { peers: HashMap::new() };
        assert(r@ =~= ByPeer::empty());
        r
    }

    pub fn from(route: Route) -> (r: Self)
        ensures
            r@ == by_peer_add(Map::empty(), route@),
    {
        let mut r = Self::new();
        r.add_peering(route);
        r
    }

    /// Stores `route` under its peer network and the rest of its key, unless a
    /// route is stored there already.
    pub fn add_peering(&mut self, route: Route)
        ensures
            final(self)@ == by_peer_add(old(self)@, route@),
    {
        let k = route.get_peer_as().to_u32();
        match self.peers.remove(&k) {
            None => {
                self.peers.insert(k, LocationPeerings::from(route));
            },
            Some(mut inner) => {
                inner.add_peering(route);
                self.peers.insert(k, inner);
            },
        }
        assert(self@ =~= by_peer_add(old(self)@, route@));
    }

    /// Whether any route is stored under the peer network of `route`.
    pub fn has_peering_with(&self, route: &Route) -> (b: bool)
        ensures
            b == self@.contains_key(route@.peer_as),
    {
        let k = route.get_peer_as().to_u32();
        self.peers.contains_key(&k)
    }

    /// Whether a route is stored under the peer network, the region, the
    /// relationship and the address family of `route`.
    pub fn has_peering(&self, route: &Route) -> (b: bool)
        ensures
            b == (self@.contains_key(route@.peer_as) && self@[route@.peer_as].contains_key(
                route@.peer_location,
            ) && self@[route@.peer_as][route@.peer_location].contains_key(route@.peer_type)
                && self@[route@.peer_as][route@.peer_location][route@.peer_type].contains_key(
                route@.ip_version,
            )),
    {
        let k = route.get_peer_as().to_u32();
        match self.peers.get(&k) {
            Some(inner) => inner.has_peering(route),
            None => false,
        }
    }

    /// The routes stored under the peer network `peer_as`, if any.
    pub fn get_peerings_for(&self, peer_as: &MrtAsn) -> (r: Option<&LocationPeerings>)
        ensures
            match r {
                Some(inner) => self@.contains_key(peer_as@) && inner@ == self@[peer_as@],
                None => !self@.contains_key(peer_as@),
            },
    {
        let k = peer_as.to_u32();
        self.peers.get(&k)
    }

    /// The peer networks under which routes are stored, each once, in no stated order.
    pub fn keys(&self) -> (r: Vec<MrtAsn>)
        ensures
            r@.no_duplicates(),
            forall|asn: u32| self@.contains_key(asn) <==> r@.contains(MrtAsn(asn)),
    {
        let mut r: Vec<MrtAsn> = Vec::new();
        let ghost all = self.peers.keys().remaining();
        for k in it: self.peers.keys()
            invariant
                it.seq() == all,
                it.seq().unref().to_set() == self.peers@.dom(),
                it.seq().no_duplicates(),
                r@.len() == it.index(),
                forall|j: int| 0 <= j < it.index() ==> r@[j] == MrtAsn(*it.seq()[j]),
        {
            r.push(MrtAsn(*k));
        }
        proof {
            let keys = all.unref();
            assert forall|asn: u32| self@.contains_key(asn) implies r@.contains(MrtAsn(asn)) by {
                assert(keys.to_set().contains(asn));
                let j = choose|j: int| 0 <= j < keys.len() && keys[j] == asn;
                assert(r@[j] == MrtAsn(asn));
            }
            assert forall|asn: u32| r@.contains(MrtAsn(asn)) implies self@.contains_key(asn) by {
                let j = choose|j: int| 0 <= j < r@.len() && r@[j] == MrtAsn(asn);
                assert(keys[j] == asn);
                assert(keys.to_set().contains(asn));
            }
            assert forall|i: int, j: int|
                0 <= i < r@.len() && 0 <= j < r@.len() && i != j implies r@[i] != r@[j] by {
                assert(all[i] != all[j]);
            }
        }
        r
    }
}


/// The key of an exemplar.
pub struct PeeringKey {
    pub local_as: u32,
    pub peer_as: u32,
    pub peer_location: PeerLocation,
    pub peer_type: PeerType,
    pub ip_version: IpVersion,
}

impl RouteView {
    /// The key under which the index stores this route.
    pub open spec fn key(self) -> PeeringKey {
        PeeringKey {
            local_as: self.local_as,
            peer_as: self.peer_as,
            peer_location: self.peer_location,
            peer_type: self.peer_type,
            ip_version: self.ip_version,
        }
    }
}

/// Whether `m` holds an exemplar under `k`.
pub open spec fn holds(m: ByLocal, k: PeeringKey) -> bool {
    &&& m.contains_key(k.local_as)
    &&& m[k.local_as].contains_key(k.peer_as)
    &&& m[k.local_as][k.peer_as].contains_key(k.peer_location)
    &&& m[k.local_as][k.peer_as][k.peer_location].contains_key(k.peer_type)
    &&& m[k.local_as][k.peer_as][k.peer_location][k.peer_type].contains_key(k.ip_version)
}

/// The exemplars of `m` by their whole key.
pub open spec fn flat(m: ByLocal) -> Map<PeeringKey, RouteView> {
    Map::new(
        |k: PeeringKey| holds(m, k),
        |k: PeeringKey| m[k.local_as][k.peer_as][k.peer_location][k.peer_type][k.ip_version],
    )
}

/// Offering a route to the index stores it under its key where nothing is
/// stored there, and changes nothing else.
pub proof fn lemma_flat_add(m: ByLocal, route: RouteView)
    ensures
        flat(by_local_add(m, route)) == put_if_absent(flat(m), route.key(), route),
{
    let after = by_local_add(m, route);
    assert forall|k: PeeringKey| holds(after, k) == (holds(m, k) || k == route.key()) by {}
    assert forall|k: PeeringKey| holds(after, k) implies #[trigger] flat(after)[k] == (if holds(
        m,
        k,
    ) {
        flat(m)[k]
    } else {
        route
    }) by {}
    assert(flat(after) =~= put_if_absent(flat(m), route.key(), route));
}

/// The order in which two routes are offered decides only which of them
/// stays where both have one key: the keys that are held afterwards are the
/// same either way, and so are the exemplars where the two keys differ.
pub proof fn lemma_add_peering_order(m: ByLocal, a: RouteView, b: RouteView)
    ensures
        flat(by_local_add(by_local_add(m, a), b)).dom() == flat(
            by_local_add(by_local_add(m, b), a),
        ).dom(),
        a.key() != b.key() ==> flat(by_local_add(by_local_add(m, a), b)) == flat(
            by_local_add(by_local_add(m, b), a),
        ),
{
    lemma_flat_add(m, a);
    lemma_flat_add(m, b);
    lemma_flat_add(by_local_add(m, a), b);
    lemma_flat_add(by_local_add(m, b), a);
    let ab = flat(by_local_add(by_local_add(m, a), b));
    let ba = flat(by_local_add(by_local_add(m, b), a));
    assert(ab.dom() =~= ba.dom());
    if a.key() != b.key() {
        assert(ab =~= ba);
    }
}

/// Whether each exemplar of `m` is stored under its own key.
pub open spec fn well_keyed(m: ByLocal) -> bool {
    forall|k: PeeringKey| holds(m, k) ==> (#[trigger] flat(m)[k]).key() == k
}

/// An empty index stores each exemplar under its own key, and offering a
/// route to an index that does leaves one that does.
pub proof fn lemma_add_keeps_keys(m: ByLocal, route: RouteView)
    ensures
        well_keyed(Map::empty()),
        well_keyed(m) ==> well_keyed(by_local_add(m, route)),
{
    lemma_flat_add(m, route);
    if well_keyed(m) {
        let after = by_local_add(m, route);
        assert forall|k: PeeringKey| holds(after, k) implies (#[trigger] flat(after)[k]).key()
            == k by {
            assert(flat(after).contains_key(k));
            if holds(m, k) {
                assert(flat(m).contains_key(k));
                assert(flat(after)[k] == flat(m)[k]);
            }
        }
    }
}

/// Offering the same route twice leaves what offering it once leaves: one
/// exemplar under its key, and every other key as it was.
pub proof fn lemma_add_peering_idempotent(m: ByLocal, route: RouteView)
    ensures
        by_local_add(by_local_add(m, route), route) == by_local_add(m, route),
        flat(by_local_add(m, route)).contains_key(route.key()),
        forall|k: PeeringKey|
            k != route.key() ==> flat(by_local_add(m, route)).contains_key(k) == flat(
                m,
            ).contains_key(k),
{
    lemma_flat_add(m, route);
    let once = by_local_add(m, route);
    assert(by_local_add(once, route) =~~= once);
}

/// Public API which provides access to all peerings, keyed by local ASN.
#[derive(Debug)]
pub struct GlobalPeerings {
    global_peerings: HashMap<u32, AsnPeerings>,
}

impl View for GlobalPeerings {
    type V = ByLocal;

    closed spec fn view(&self) -> ByLocal {
        Map::new(
            |k: u32| self.global_peerings@.contains_key(k),
            |k: u32| self.global_peerings@[k]@,
        )
    }
}

impl Default for GlobalPeerings {
    fn default() -> (r: Self)
        ensures
            r@ == ByLocal::empty(),
    {
        Self::new()
    }
}

impl GlobalPeerings {
    pub fn new() -> (r: Self)
        ensures
            r@ == ByLocal::empty(),
    {
        let r = Self { global_peerings: HashMap::new() };
        assert(r@ =~= ByLocal::empty());
        r
    }

    pub fn from(route: Route) -> (r: Self)
        ensures
            r@ == by_local_add(Map::empty(), route@),
    {
        let mut r = Self::new();
        r.add_peering(route);
        r
    }

    /// The exemplars by their whole key.
    pub open spec fn exemplars(&self) -> Map<PeeringKey, RouteView> {
        flat(self@)
    }

    /// Stores `route` under its key, unless a route is stored there already.
    pub fn add_peering(&mut self, route: Route)
        ensures
            final(self)@ == by_local_add(old(self)@, route@),
            final(self).exemplars() == put_if_absent(old(self).exemplars(), route@.key(), route@),
    {
        proof {
            lemma_flat_add(old(self)@, route@);
        }
        let k = route.get_local_as().to_u32();
        match self.global_peerings.remove(&k) {
            None => {
                self.global_peerings.insert(k, AsnPeerings::from(route));
            },
            Some(mut inner) => {
                inner.add_peering(route);
                self.global_peerings.insert(k, inner);
            },
        }
        assert(self@ =~= by_local_add(old(self)@, route@));
    }

    /// Whether any route is stored under the local network of `route`.
    pub fn has_data_for(&self, route: &Route) -> (b: bool)
        ensures
            b == self@.contains_key(route@.local_as),
    {
        let k = route.get_local_as().to_u32();
        self.global_peerings.contains_key(&k)
    }

    /// Whether a route is stored under the key of `route`.
    pub fn has_peering(&self, route: &Route) -> (b: bool)
        ensures
            b == self.exemplars().contains_key(route@.key()),
    {
        let k = route.get_local_as().to_u32();
        match self.global_peerings.get(&k) {
            Some(inner) => inner.has_peering(route),
            None => false,
        }
    }

    /// The exemplar stored under the given key, if any.
    pub fn get_peering(
        &self,
        local_as: &MrtAsn,
        peer_as: &MrtAsn,
        peer_location: PeerLocation,
        peer_type: PeerType,
        ip_version: IpVersion,
    ) -> (r: Option<&Route>)
        ensures
            match r {
                Some(route) => Some(route@),
                None => None,
            } == self.exemplars().get(
                PeeringKey {
                    local_as: local_as@,
                    peer_as: peer_as@,
                    peer_location,
                    peer_type,
                    ip_version,
                },
            ),
    {
        let by_peer = match self.get_asn_data(local_as) {
            Some(x) => x,
            None => { return None; },
        };
        let by_location = match by_peer.get_peerings_for(peer_as) {
            Some(x) => x,
            None => { return None; },
        };
        let by_type = match by_location.get_peerings_in(peer_location) {
            Some(x) => x,
            None => { return None; },
        };
        let by_version = match by_type.get_type_peerings(peer_type) {
            Some(x) => x,
            None => { return None; },
        };
        by_version.get_peering(ip_version)
    }

    /// The routes stored under the local network `local_as`, if any.
    pub fn get_asn_data(&self, local_as: &MrtAsn) -> (r: Option<&AsnPeerings>)
        ensures
            match r {
                Some(inner) => self@.contains_key(local_as@) && inner@ == self@[local_as@],
                None => !self@.contains_key(local_as@),
            },
    {
        let k = local_as.to_u32();
        self.global_peerings.get(&k)
    }

    /// The local networks under which routes are stored, each once, in no stated order.
    pub fn keys(&self) -> (r: Vec<MrtAsn>)
        ensures
            r@.no_duplicates(),
            forall|asn: u32| self@.contains_key(asn) <==> r@.contains(MrtAsn(asn)),
    {
        let mut r: Vec<MrtAsn> = Vec::new();
        let ghost all = self.global_peerings.keys().remaining();
        for k in it: self.global_peerings.keys()
            invariant
                it.seq() == all,
                it.seq().unref().to_set() == self.global_peerings@.dom(),
                it.seq().no_duplicates(),
                r@.len() == it.index(),
                forall|j: int| 0 <= j < it.index() ==> r@[j] == MrtAsn(*it.seq()[j]),
        {
            r.push(MrtAsn(*k));
        }
        proof {
            let keys = all.unref();
            assert forall|asn: u32| self@.contains_key(asn) implies r@.contains(MrtAsn(asn)) by {
                assert(keys.to_set().contains(asn));
                let j = choose|j: int| 0 <= j < keys.len() && keys[j] == asn;
                assert(r@[j] == MrtAsn(asn));
            }
            assert forall|asn: u32| r@.contains(MrtAsn(asn)) implies self@.contains_key(asn) by {
                let j = choose|j: int| 0 <= j < r@.len() && r@[j] == MrtAsn(asn);
                assert(keys[j] == asn);
                assert(keys.to_set().contains(asn));
            }
            assert forall|i: int, j: int|
                0 <= i < r@.len() && 0 <= j < r@.len() && i != j implies r@[i] != r@[j] by {
                assert(all[i] != all[j]);
            }
        }
        r
    }
}


} // verus!
