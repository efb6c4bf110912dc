use vstd::prelude::*;
use vstd::string::StrSliceExecFns;

use crate::payload::Container;
use crate::payload::Image;
use crate::payload::Network;
use crate::payload::NetworkContainer;
use crate::payload::ProgressInfo;
use crate::payload::Volume;
use crate::records::ContainerRecord;
use crate::records::ImageRecord;
use crate::records::NetworkMemberRecord;
use crate::records::NetworkRecord;
use crate::records::PortRecord;
use crate::records::ProgressRecord;
use crate::records::VolumeRecord;

verus! {

/// A reported container name with exactly one leading path separator
/// stripped when present, and otherwise unchanged.
pub open spec fn spec_strip_name(name: Seq<char>) -> Seq<char> {
    if name.len() > 0 && name[0] == '/' {
        name.subrange(1, name.len() as int)
    } else {
        name
    }
}

/// Strips one leading path separator from a reported container name.
pub fn strip_name_prefix(name: &str) -> (r: String)
    ensures
        r@ == spec_strip_name(name@),
{
    let len = name.unicode_len();
    if len > 0 && name.get_char(0) == '/' {
        name.substring_char(1, len).to_owned()
    } else {
        name.to_owned()
    }
}

/// The bound host IPs of a port list, in order, skipping entries that
/// report none.
pub open spec fn spec_port_ips(ports: Seq<PortRecord>) -> Seq<String>
    decreases ports.len(),
{
    if ports.len() == 0 {
        Seq::empty()
    } else if ports.last().ip is Some {
        spec_port_ips(ports.drop_last()).push(ports.last().ip->0)
    } else {
        spec_port_ips(ports.drop_last())
    }
}

/// Collects the bound host IPs of a raw port list.
fn collect_port_ips(ports: Vec<PortRecord>) -> (r: Vec<String>)
    ensures
        r@ == spec_port_ips(ports@),
{
    let mut out: Vec<String> = Vec::new();
    let mut i: usize = 0;
    while i < ports.len()
        invariant
            i <= ports.len(),
            out@ == spec_port_ips(ports@.take(i as int)),
        decreases ports.len() - i,
    {
        proof {
            assert(ports@.take(i + 1).drop_last() =~= ports@.take(i as int));
            assert(ports@.take(i + 1).last() == ports@[i as int]);
        }
        match &ports[i].ip {
            Some(ip) => out.push(ip.clone()),
            None => (),
        }
        i += 1;
    }
    proof {
        assert(ports@.take(ports@.len() as int) =~= ports@);
    }
    out
}

/// How a raw container record projects into a `Container`: the first
/// reported name is stripped of one leading separator, a record with no
/// names yields none, and the ports become the list of bound host IPs.
pub open spec fn spec_container_maps(raw: ContainerRecord, c: Container) -> bool {
    &&& match raw.names {
        None => c.name is None,
        Some(ns) => if ns@.len() == 0 {
            c.name is None
        } else {
            c.name matches Some(n) && n@ == spec_strip_name(ns@[0]@)
        },
    }
    &&& c.status == raw.status
    &&& c.state == raw.state
    &&& match raw.ports {
        None => c.ports is None,
        Some(ps) => c.ports matches Some(v) && v@ == spec_port_ips(ps@),
    }
}

/// Projects one raw container record into the caller-facing shape.
pub fn map_container(raw: ContainerRecord) -> (c: Container)
    ensures
        spec_container_maps(raw, c),
{
    let name: Option<String> = match &raw.names {
        Some(ns) => if ns.len() > 0 {
            Some(strip_name_prefix(ns[0].as_str()))
        } else {
            None
        },
        None => None,
    };
    let ports: Option<Vec<String>> = match raw.ports {
        Some(ps) => Some(collect_port_ips(ps)),
        None => None,
    };
    Container { name, status: raw.status, state: raw.state, ports }
}

/// How a raw image record projects into an `Image`: the first reported
/// reference, or the empty string when there is none.
pub open spec fn spec_image_maps(raw: ImageRecord, im: Image) -> bool {
    &&& im.repo_tag@ == if raw.repo_tags@.len() > 0 {
        raw.repo_tags@[0]@
    } else {
        Seq::<char>::empty()
    }
    &&& im.size == raw.size
}

/// Projects one raw image record into the caller-facing shape.
pub fn map_image(raw: ImageRecord) -> (im: Image)
    ensures
        spec_image_maps(raw, im),
{
    let repo_tag = if raw.repo_tags.len() > 0 {
        raw.repo_tags[0].clone()
    } else {
        String::new()
    };
    Image { repo_tag, size: raw.size }
}

/// How a raw volume record projects into a `Volume`: every reported field
/// is passed through, with mountpoint and labels made optional.
pub open spec fn spec_volume_maps(raw: VolumeRecord, v: Volume) -> bool {
    &&& v.name == raw.name
    &&& v.driver == raw.driver
    &&& v.mountpoint == Some(raw.mountpoint)
    &&& v.labels == Some(raw.labels)
    &&& v.scope == raw.scope
    &&& v.status == raw.status
}

/// Projects one raw volume record into the caller-facing shape.
pub fn map_volume(raw: VolumeRecord) -> (v: Volume)
    ensures
        spec_volume_maps(raw, v),
{
    Volume {
        name: raw.name,
        driver: raw.driver,
        mountpoint: Some(raw.mountpoint),
        labels: Some(raw.labels),
        scope: raw.scope,
        status: raw.status,
    }
}

/// A raw network record carries all four required identifying fields.
pub open spec fn spec_network_complete(raw: NetworkRecord) -> bool {
    &&& raw.id is Some
    &&& raw.name is Some
    &&& raw.driver is Some
    &&& raw.scope is Some
}

/// How a complete raw network record projects into a `Network`.
pub open spec fn spec_network_maps(raw: NetworkRecord, n: Network) -> bool {
    &&& n.id == raw.id->0
    &&& n.name == raw.name->0
    &&& n.driver == raw.driver->0
    &&& n.scope == raw.scope->0
    &&& n.internal == raw.internal
    &&& n.enable_ipv6 == raw.enable_ipv6
    &&& n.labels == raw.labels
}

/// Projects one raw network record; records lacking any of the four
/// required fields yield nothing and are dropped by the listing.
pub fn map_network(raw: NetworkRecord) -> (r: Option<Network>)
    ensures
        r is Some <==> spec_network_complete(raw),
        r matches Some(n) ==> spec_network_maps(raw, n),
{
    match (raw.id, raw.name, raw.driver, raw.scope) {
        (Some(id), Some(name), Some(driver), Some(scope)) => Some(
            Network {
                id,
                name,
                driver,
                scope,
                internal: raw.internal,
                enable_ipv6: raw.enable_ipv6,
                labels: raw.labels,
            },
        ),
        _ => None,
    }
}

/// How one member of an inspected network projects into a
/// `NetworkContainer`: a missing name becomes the placeholder literal.
pub open spec fn spec_member_maps(
    raw: NetworkMemberRecord,
    network_id: Option<String>,
    m: NetworkContainer,
) -> bool {
    &&& m.id == raw.id
    &&& match raw.name {
        Some(n) => m.name == n,
        None => m.name@ == "Unnamed"@,
    }
    &&& m.network_id == network_id
}

/// Projects one member of an inspected network.
pub fn map_network_member(raw: NetworkMemberRecord, network_id: Option<String>) -> (m:
    NetworkContainer)
    ensures
        spec_member_maps(raw, network_id, m),
{
    let name = match raw.name {
        Some(n) => n,
        None => "Unnamed".to_owned(),
    };
    NetworkContainer { id: raw.id, name, network_id }
}

/// Whether a raw progress record has the shape of a progress event: the
/// status text is required, everything else is optional.
pub open spec fn spec_progress_valid(raw: ProgressRecord) -> bool {
    raw.status is Some
}

/// How a valid raw progress record reshapes into a `ProgressInfo`.
pub open spec fn spec_progress_maps(raw: ProgressRecord, p: ProgressInfo) -> bool {
    &&& p.status == raw.status->0
    &&& p.progress_detail == raw.progress_detail
    &&& p.id == raw.id
}

/// Reshapes a raw progress record, yielding nothing when the record does
/// not match the expected progress shape.
pub fn reshape_progress(raw: ProgressRecord) -> (r: Option<ProgressInfo>)
    ensures
        r is Some <==> spec_progress_valid(raw),
        r matches Some(p) ==> spec_progress_maps(raw, p),
{
    match raw.status {
        Some(status) => Some(
            ProgressInfo { status, progress_detail: raw.progress_detail, id: raw.id },
        ),
        None => None,
    }
}

} // verus!
