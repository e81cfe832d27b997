//! `kryx think`: the Think cluster through `kryxd` (`/api/v2/think/*`).
//! The daemon's JSON is read outside into the fields below.
use vstd::prelude::*;
use crate::text::{
    chars_of, dec, owned, push_dec, push_str, string_from_chars,
};

verus! {

/// `kryx think …`.
pub enum ThinkCommand {
    /// The topology of the cluster (nodes, PXE/DHCP network).
    Topology,
    /// The ZFS pools known to Think.
    StorageZfs,
}

/// The endpoint each subcommand reads.
pub fn think_endpoint(cmd: &ThinkCommand) -> (p: String)
    ensures
        p@ == match *cmd {
            ThinkCommand::Topology => "think/topology"@,
            ThinkCommand::StorageZfs => "think/storage/zfs"@,
        },
{
    match cmd {
        ThinkCommand::Topology => owned("think/topology"),
        ThinkCommand::StorageZfs => owned("think/storage/zfs"),
    }
}

/// The row printed for a Think answer.
pub struct ThinkRow {
    pub source: String,
    pub status: String,
    pub count: String,
    pub detail: String,
}

/// What the topology answer holds: `status` (when a string), the number
/// of `nodes` (when an array), and `network` (when an object, with its
/// `pxe` and `dhcp` strings when present).
pub struct TopologyFields {
    pub status: Option<String>,
    pub nodes: Option<usize>,
    pub network: Option<(Option<String>, Option<String>)>,
}

/// What the ZFS answer holds: `source`, `status`, and the number of
/// `pools`.
pub struct StorageZfsFields {
    pub source: Option<String>,
    pub status: Option<String>,
    pub pools: Option<usize>,
}

pub open spec fn or_unknown(s: Option<String>) -> Seq<char> {
    match s {
        Some(x) => x@,
        None => "?"@,
    }
}

pub open spec fn count_text(n: Option<usize>) -> Seq<char> {
    match n {
        Some(k) => dec(k as nat),
        None => "?"@,
    }
}

fn text_or_unknown(s: &Option<String>) -> (r: String)
    ensures
        r@ == or_unknown(*s),
{
    match s {
        Some(x) => x.clone(),
        None => owned("?"),
    }
}

fn count_of(n: Option<usize>) -> (r: String)
    ensures
        r@ == count_text(n),
{
    match n {
        Some(k) => {
            let mut v: Vec<char> = Vec::new();
            push_dec(&mut v, k as u64);
            string_from_chars(v.as_slice())
        },
        None => owned("?"),
    }
}

pub open spec fn network_detail(n: Option<(Option<String>, Option<String>)>) -> Seq<char> {
    match n {
        Some((pxe, dhcp)) => "pxe="@ + or_unknown(pxe) + " dhcp="@ + or_unknown(dhcp),
        None => "?"@,
    }
}

/// The row of the topology.
pub fn topology_row(f: &TopologyFields) -> (r: ThinkRow)
    ensures
        r.source@ == "think:topology"@,
        r.status@ == or_unknown(f.status),
        r.count@ == count_text(f.nodes),
        r.detail@ == network_detail(f.network),
{
    let detail = match &f.network {
        Some((pxe, dhcp)) => {
            let mut v = chars_of("pxe=");
            let p = text_or_unknown(pxe);
            push_str(&mut v, p.as_str());
            push_str(&mut v, " dhcp=");
            let d = text_or_unknown(dhcp);
            push_str(&mut v, d.as_str());
            string_from_chars(v.as_slice())
        },
        None => owned("?"),
    };
    ThinkRow {
        source: owned("think:topology"),
        status: text_or_unknown(&f.status),
        count: count_of(f.nodes),
        detail,
    }
}

/// The row of the ZFS pools.
pub fn storage_zfs_row(f: &StorageZfsFields) -> (r: ThinkRow)
    ensures
        r.source@ == or_unknown(f.source),
        r.status@ == or_unknown(f.status),
        r.count@ == count_text(f.pools),
        r.detail@ == "see /api/v2/think/storage/zfs for full payload"@,
{
    ThinkRow {
        source: text_or_unknown(&f.source),
        status: text_or_unknown(&f.status),
        count: count_of(f.pools),
        detail: owned("see /api/v2/think/storage/zfs for full payload"),
    }
}

} // verus!
