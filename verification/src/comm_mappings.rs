//! The rules that map a network's communities to a relationship and a region.

use crate::comm_data::{default_peer_location, default_peer_type, insert_comm_mapping};
use crate::mrt_asn::MrtAsn;
use crate::mrt_communities::StandardCommunity;
use crate::peer_attrs::{PeerLocation, PeerType};
use std::collections::HashMap;
use vstd::prelude::*;

verus! {

/// The number under which a community is stored: its network in the upper
/// bits, its value in the lower sixteen.
pub open spec fn community_key(c: (u32, u16)) -> u64 {
    (c.0 as u64 * 65536 + c.1 as u64) as u64
}

/// Distinct communities have distinct keys.
pub proof fn lemma_community_key_injective(a: (u32, u16), b: (u32, u16))
    ensures
        community_key(a) == community_key(b) <==> a == b,
{
}

fn key_of(c: &StandardCommunity) -> (k: u64)
    ensures
        k == community_key(c@),
{
    (c.asn.0 as u64) * 65536 + (c.value as u64)
}

/// The rules of one network: a relationship for some communities, a region
/// for some communities.
pub struct CommMappings {
    peer_type: HashMap<u64, PeerType>,
    peer_location: HashMap<u64, PeerLocation>,
}

impl CommMappings {
    /// The relationship rules: the communities that have one, each with its
    /// relationship.
    pub closed spec fn type_rules(&self) -> Map<(u32, u16), PeerType> {
        Map::new(
            |c: (u32, u16)| self.peer_type@.contains_key(community_key(c)),
            |c: (u32, u16)| self.peer_type@[community_key(c)],
        )
    }

    /// The region rules: the communities that have one, each with its region.
    pub closed spec fn location_rules(&self) -> Map<(u32, u16), PeerLocation> {
        Map::new(
            |c: (u32, u16)| self.peer_location@.contains_key(community_key(c)),
            |c: (u32, u16)| self.peer_location@[community_key(c)],
        )
    }

    /// Rules that match no community.
    pub fn new() -> (r: CommMappings)
        ensures
            r.type_rules() == Map::<(u32, u16), PeerType>::empty(),
            r.location_rules() == Map::<(u32, u16), PeerLocation>::empty(),
    {
        let r = CommMappings { peer_type: HashMap::new(), peer_location: HashMap::new() };
        assert(r.type_rules() =~= Map::<(u32, u16), PeerType>::empty());
        assert(r.location_rules() =~= Map::<(u32, u16), PeerLocation>::empty());
        r
    }

    /// Gives `community` the relationship `peer_type`, in place of any it had.
    pub fn add_peer_type(&mut self, community: StandardCommunity, peer_type: PeerType)
        ensures
            final(self).type_rules() == old(self).type_rules().insert(community@, peer_type),
            final(self).location_rules() == old(self).location_rules(),
    {
        let k = key_of(&community);
        self.peer_type.insert(k, peer_type);
        proof {
            assert forall|c: (u32, u16)| community_key(c) == k implies c == community@ by {
                lemma_community_key_injective(c, community@);
            }
            assert(self.type_rules() =~= old(self).type_rules().insert(community@, peer_type));
        }
    }

    /// Gives `community` the region `peer_location`, in place of any it had.
    pub fn add_peer_location(&mut self, community: StandardCommunity, peer_location: PeerLocation)
        ensures
            final(self).location_rules() == old(self).location_rules().insert(
                community@,
                peer_location,
            ),
            final(self).type_rules() == old(self).type_rules(),
    {
        let k = key_of(&community);
        self.peer_location.insert(k, peer_location);
        proof {
            assert forall|c: (u32, u16)| community_key(c) == k implies c == community@ by {
                lemma_community_key_injective(c, community@);
            }
            assert(self.location_rules() =~= old(self).location_rules().insert(
                community@,
                peer_location,
            ));
        }
    }

    /// Gives each community of network `asn` with a value from `first` to
    /// `last`, both included, the relationship `peer_type`.
    pub fn add_peer_type_range(&mut self, asn: u32, first: u16, last: u16, peer_type: PeerType)
        ensures
            forall|c: (u32, u16)| #[trigger]
                final(self).type_rules().get(c) == (if c.0 == asn && first <= c.1 <= last {
                    Some(peer_type)
                } else {
                    old(self).type_rules().get(c)
                }),
            final(self).location_rules() == old(self).location_rules(),
    {
        if first > last {
            return;
        }
        let mut i: u32 = first as u32;
        while i <= last as u32
            invariant
                first <= i <= last + 1,
                forall|c: (u32, u16)| #[trigger]
                    self.type_rules().get(c) == (if c.0 == asn && first <= c.1 < i {
                        Some(peer_type)
                    } else {
                        old(self).type_rules().get(c)
                    }),
                self.location_rules() == old(self).location_rules(),
            decreases last + 1 - i,
        {
            let ghost before = self.type_rules();
            self.add_peer_type(StandardCommunity::new(asn, i as u16), peer_type);
            proof {
                assert forall|c: (u32, u16)| #[trigger]
                    self.type_rules().get(c) == (if c.0 == asn && first <= c.1 < i + 1 {
                        Some(peer_type)
                    } else {
                        old(self).type_rules().get(c)
                    }) by {
                    assert(before.get(c) == (if c.0 == asn && first <= c.1 < i {
                        Some(peer_type)
                    } else {
                        old(self).type_rules().get(c)
                    }));
                    if c == (asn, i as u16) {
                    } else {
                        assert(self.type_rules().get(c) == before.get(c));
                    }
                }
            }
            i += 1;
        }
    }

    /// Gives each community of network `asn` with a value from `first` to
    /// `last`, both included, the region `peer_location`.
    pub fn add_peer_location_range(
        &mut self,
        asn: u32,
        first: u16,
        last: u16,
        peer_location: PeerLocation,
    )
        ensures
            forall|c: (u32, u16)| #[trigger]
                final(self).location_rules().get(c) == (if c.0 == asn && first <= c.1 <= last {
                    Some(peer_location)
                } else {
                    old(self).location_rules().get(c)
                }),
            final(self).type_rules() == old(self).type_rules(),
    {
        if first > last {
            return;
        }
        let mut i: u32 = first as u32;
        while i <= last as u32
            invariant
                first <= i <= last + 1,
                forall|c: (u32, u16)| #[trigger]
                    self.location_rules().get(c) == (if c.0 == asn && first <= c.1 < i {
                        Some(peer_location)
                    } else {
                        old(self).location_rules().get(c)
                    }),
                self.type_rules() == old(self).type_rules(),
            decreases last + 1 - i,
        {
            let ghost before = self.location_rules();
            self.add_peer_location(StandardCommunity::new(asn, i as u16), peer_location);
            proof {
                assert forall|c: (u32, u16)| #[trigger]
                    self.location_rules().get(c) == (if c.0 == asn && first <= c.1 < i + 1 {
                        Some(peer_location)
                    } else {
                        old(self).location_rules().get(c)
                    }) by {
                    assert(before.get(c) == (if c.0 == asn && first <= c.1 < i {
                        Some(peer_location)
                    } else {
                        old(self).location_rules().get(c)
                    }));
                    if c == (asn, i as u16) {
                    } else {
                        assert(self.location_rules().get(c) == before.get(c));
                    }
                }
            }
            i += 1;
        }
    }

    /// Relationship that the rules give `community`, if any.
    pub fn get_peer_type(&self, community: &StandardCommunity) -> (r: Option<PeerType>)
        ensures
            r == self.type_rules().get(community@),
    {
        let k = key_of(community);
        match self.peer_type.get(&k) {
            Some(t) => Some(*t),
            None => None,
        }
    }

    /// Region that the rules give `community`, if any.
    pub fn get_peer_location(&self, community: &StandardCommunity) -> (r: Option<PeerLocation>)
        ensures
            r == self.location_rules().get(community@),
    {
        let k = key_of(community);
        match self.peer_location.get(&k) {
            Some(l) => Some(*l),
            None => None,
        }
    }
}

/// The rules of every network that has any, by the network's number.
pub struct AsnMappings {
    asn_mappings: HashMap<u32, CommMappings>,
}

impl AsnMappings {
    /// Relationship that the rules of network `asn` give community `c`.
    pub closed spec fn spec_peer_type(&self, asn: u32, c: (u32, u16)) -> Option<PeerType> {
        if self.asn_mappings@.contains_key(asn) {
            self.asn_mappings@[asn].type_rules().get(c)
        } else {
            None
        }
    }

    /// Region that the rules of network `asn` give community `c`.
    pub closed spec fn spec_peer_location(&self, asn: u32, c: (u32, u16)) -> Option<
        PeerLocation,
    > {
        if self.asn_mappings@.contains_key(asn) {
            self.asn_mappings@[asn].location_rules().get(c)
        } else {
            None
        }
    }

    /// The networks that have rules, each with its rules.
    pub closed spec fn rules(&self) -> Map<u32, CommMappings> {
        self.asn_mappings@
    }

    pub fn new(asn_mappings: HashMap<u32, CommMappings>) -> (r: AsnMappings)
        ensures
            r.rules() == asn_mappings@,
            forall|asn: u32, c: (u32, u16)| #[trigger]
                r.spec_peer_type(asn, c) == (if asn_mappings@.contains_key(asn) {
                    asn_mappings@[asn].type_rules().get(c)
                } else {
                    None
                }),
            forall|asn: u32, c: (u32, u16)| #[trigger]
                r.spec_peer_location(asn, c) == (if asn_mappings@.contains_key(asn) {
                    asn_mappings@[asn].location_rules().get(c)
                } else {
                    None
                }),
    {
        AsnMappings { asn_mappings }
    }

    /// Region that the rules of network `asn` give `community`, if any.
    pub fn get_asn_peer_location(&self, asn: &MrtAsn, community: &StandardCommunity) -> (r: Option<
        PeerLocation,
    >)
        ensures
            r == self.spec_peer_location(asn@, community@),
    {
        match self.asn_mappings.get(&asn.0) {
            Some(community_mappings) => community_mappings.get_peer_location(community),
            None => None,
        }
    }

    /// Relationship that the rules of network `asn` give `community`, if any.
    pub fn get_asn_peer_type(&self, asn: &MrtAsn, community: &StandardCommunity) -> (r: Option<
        PeerType,
    >)
        ensures
            r == self.spec_peer_type(asn@, community@),
    {
        match self.asn_mappings.get(&asn.0) {
            Some(community_mappings) => community_mappings.get_peer_type(community),
            None => None,
        }
    }
}

impl Default for AsnMappings {
    /// The rules of the Tier 1 networks.
    fn default() -> (r: AsnMappings)
        ensures
            forall|asn: u32, c: (u32, u16)| #[trigger]
                r.spec_peer_type(asn, c) == default_peer_type(asn, c),
            forall|asn: u32, c: (u32, u16)| #[trigger]
                r.spec_peer_location(asn, c) == default_peer_location(asn, c),
    {
        let mut asn_mappings: HashMap<u32, CommMappings> = HashMap::new();
        insert_comm_mapping(&mut asn_mappings);
        Self::new(asn_mappings)
    }
}

} // verus!
