//! A route in which two neighbouring Tier 1 networks were found.

use crate::mrt_asn::MrtAsn;
use crate::mrt_communities::StandardCommunities;
use crate::mrt_large_communities::{LargeCommunities, LargeCommunity};
use crate::mrt_peer::{Peer, PeerView};
use crate::peer_attrs::{PeerLocation, PeerType};
use crate::text::contains_char;
use vstd::prelude::*;

verus! {

/// Address family of a prefix.
#[derive(Clone, Copy, Debug, PartialEq, Eq, Hash, Structural)]
pub enum IpVersion {
    Ipv4,
    Ipv6,
}

impl IpVersion {
    /// Number under which the variant is stored in a map.
    pub open spec fn spec_code(self) -> u8 {
        match self {
            IpVersion::Ipv4 => 4,
            IpVersion::Ipv6 => 6,
        }
    }

    /// Number under which the variant is stored in a map: the version's own.
    pub fn code(&self) -> (c: u8)
        ensures
            c == self.spec_code(),
    {
        match self {
            IpVersion::Ipv4 => 4,
            IpVersion::Ipv6 => 6,
        }
    }

    /// Family of the prefix that is written as `prefix`.
    pub open spec fn spec_of_prefix(prefix: Seq<char>) -> IpVersion {
        if prefix.contains('.') {
            IpVersion::Ipv4
        } else {
            IpVersion::Ipv6
        }
    }

    /// Family of the prefix that is written as `prefix`: version 4 where a
    /// dot occurs in it, else version 6.
    pub fn of_prefix(prefix: &str) -> (v: IpVersion)
        ensures
            v == Self::spec_of_prefix(prefix@),
    {
        if contains_char(prefix, '.') {
            IpVersion::Ipv4
        } else {
            IpVersion::Ipv6
        }
    }

    /// Name of the variant, as it appears in exported data.
    pub fn name(&self) -> (s: &'static str)
        ensures
            s@ == match *self {
                IpVersion::Ipv4 => "Ipv4"@,
                IpVersion::Ipv6 => "Ipv6"@,
            },
    {
        match self {
            IpVersion::Ipv4 => "Ipv4",
            IpVersion::Ipv6 => "Ipv6",
        }
    }
}

/// What a `Route` holds.
pub struct RouteView {
    pub local_as: u32,
    pub peer_as: u32,
    pub peer_type: PeerType,
    pub peer_location: PeerLocation,
    pub as_path: Seq<MrtAsn>,
    pub filename: Seq<char>,
    pub next_hop: Seq<char>,
    pub peer: PeerView,
    pub prefix: Seq<char>,
    pub ip_version: IpVersion,
    pub communities: Seq<(u32, u16)>,
    pub large_communities: Seq<LargeCommunity>,
}

/// A route that shows the peering of `local_as` with `peer_as`, with the
/// relationship and the region that the communities of `local_as` tell.
#[derive(Debug)]
pub struct Route {
    local_as: MrtAsn,
    peer_as: MrtAsn,
    peer_type: PeerType,
    peer_location: PeerLocation,
    as_path: Vec<MrtAsn>,
    filename: String,
    next_hop: String,
    peer: Peer,
    prefix: String,
    ip_version: IpVersion,
    communities: StandardCommunities,
    large_communities: LargeCommunities,
}

impl View for Route {
    type V = RouteView;

    closed spec fn view(&self) -> RouteView {
        RouteView {
            local_as: self.local_as@,
            peer_as: self.peer_as@,
            peer_type: self.peer_type,
            peer_location: self.peer_location,
            as_path: self.as_path@,
            filename: self.filename@,
            next_hop: self.next_hop@,
            peer: self.peer@,
            prefix: self.prefix@,
            ip_version: self.ip_version,
            communities: self.communities@,
            large_communities: self.large_communities@,
        }
    }
}

/// A copy of `path`.
pub fn clone_path(path: &Vec<MrtAsn>) -> (r: Vec<MrtAsn>)
    ensures
        r@ == path@,
{
    let mut r: Vec<MrtAsn> = Vec::new();
    let mut i: usize = 0;
    while i < path.len()
        invariant
            i <= path.len(),
            r@ == path@.take(i as int),
        decreases path.len() - i,
    {
        r.push(path[i]);
        i += 1;
    }
    assert(path@.take(i as int) == path@);
    r
}

impl Clone for Route {
    fn clone(&self) -> (r: Self)
        ensures
            r@ == self@,
    {
        Route {
            local_as: self.local_as,
            peer_as: self.peer_as,
            peer_type: self.peer_type,
            peer_location: self.peer_location,
            as_path: clone_path(&self.as_path),
            filename: self.filename.clone(),
            next_hop: self.next_hop.clone(),
            peer: self.peer.clone(),
            prefix: self.prefix.clone(),
            ip_version: self.ip_version,
            communities: self.communities.clone(),
            large_communities: self.large_communities.clone(),
        }
    }
}

impl Route {
    pub fn new(
        local_as: MrtAsn,
        peer_as: MrtAsn,
        peer_type: PeerType,
        peer_location: PeerLocation,
        as_path: Vec<MrtAsn>,
        filename: String,
        next_hop: String,
        peer: Peer,
        prefix: String,
        ip_version: IpVersion,
        communities: StandardCommunities,
        large_communities: LargeCommunities,
    ) -> (r: Self)
        ensures
            r@ == (RouteView {
                local_as: local_as@,
                peer_as: peer_as@,
                peer_type,
                peer_location,
                as_path: as_path@,
                filename: filename@,
                next_hop: next_hop@,
                peer: peer@,
                prefix: prefix@,
                ip_version,
                communities: communities@,
                large_communities: large_communities@,
            }),
    {
        Self {
            local_as,
            peer_as,
            peer_type,
            peer_location,
            as_path,
            filename,
            next_hop,
            peer,
            prefix,
            ip_version,
            communities,
            large_communities,
        }
    }

    pub fn get_ip_version(&self) -> (v: &IpVersion)
        ensures
            *v == self@.ip_version,
    {
        &self.ip_version
    }

    pub fn get_local_as(&self) -> (asn: &MrtAsn)
        ensures
            asn@ == self@.local_as,
    {
        &self.local_as
    }

    pub fn get_peer_as(&self) -> (asn: &MrtAsn)
        ensures
            asn@ == self@.peer_as,
    {
        &self.peer_as
    }

    pub fn get_peer_location(&self) -> (l: &PeerLocation)
        ensures
            *l == self@.peer_location,
    {
        &self.peer_location
    }

    pub fn get_peer_type(&self) -> (t: &PeerType)
        ensures
            *t == self@.peer_type,
    {
        &self.peer_type
    }

    pub fn get_as_path(&self) -> (p: &Vec<MrtAsn>)
        ensures
            p@ == self@.as_path,
    {
        &self.as_path
    }

    pub fn get_filename(&self) -> (s: &String)
        ensures
            s@ == self@.filename,
    {
        &self.filename
    }

    pub fn get_next_hop(&self) -> (s: &String)
        ensures
            s@ == self@.next_hop,
    {
        &self.next_hop
    }

    pub fn get_peer(&self) -> (p: &Peer)
        ensures
            p@ == self@.peer,
    {
        &self.peer
    }

    pub fn get_prefix(&self) -> (s: &String)
        ensures
            s@ == self@.prefix,
    {
        &self.prefix
    }

    pub fn get_communities(&self) -> (c: &StandardCommunities)
        ensures
            c@ == self@.communities,
    {
        &self.communities
    }

    pub fn get_large_communities(&self) -> (c: &LargeCommunities)
        ensures
            c@ == self@.large_communities,
    {
        &self.large_communities
    }
}

} // verus!
