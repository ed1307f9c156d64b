//! Detection and classification of direct peerings between Tier 1 networks.
//!
//! A route taken from a routing-table snapshot carries an AS path and a list
//! of BGP communities. The library walks the path for neighbouring Tier 1
//! networks, reads the relationship and the region of each such adjacency
//! from the communities that the local network attached, and keeps one
//! exemplar route per distinct peering in a deduplicating index.

pub mod args;
pub mod comm_data;
pub mod comm_mappings;
pub mod mrt_asn;
pub mod mrt_communities;
pub mod mrt_large_communities;
pub mod mrt_peer;
pub mod mrt_record;
pub mod mrt_route;
pub mod parse_files;
pub mod parse_mrt;
pub mod peer_attrs;
pub mod peerings;
pub mod ribs;
pub mod text;
pub mod triple_paths;
