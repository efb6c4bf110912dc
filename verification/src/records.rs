use vstd::prelude::*;

use crate::payload::ProgressDetail;
use crate::payload::VolumeScopeEnum;
use std::collections::HashMap;

verus! {

/// One port entry of a raw container record; only the bound host IP is
/// read by the facade.
#[derive(Debug, PartialEq)]
pub struct PortRecord {
    pub ip: Option<String>,
}

/// A raw container record as the daemon reports it: every field may be
/// absent.
#[derive(Debug, PartialEq)]
pub struct ContainerRecord {
    pub names: Option<Vec<String>>,
    pub status: Option<String>,
    pub state: Option<String>,
    pub ports: Option<Vec<PortRecord>>,
}

/// A raw image record; the daemon may report no references at all.
#[derive(Debug, PartialEq)]
pub struct ImageRecord {
    pub repo_tags: Vec<String>,
    pub size: i64,
}

/// A raw volume record; name, driver, mountpoint and labels are always
/// present in daemon replies.
#[derive(Debug, PartialEq)]
pub struct VolumeRecord {
    pub name: String,
    pub driver: String,
    pub mountpoint: String,
    pub labels: HashMap<String, String>,
    pub scope: Option<VolumeScopeEnum>,
    pub status: Option<Vec<String>>,
}

/// A raw network record; any of the identifying fields may be absent, in
/// which case the whole record is dropped during mapping.
#[derive(Debug, PartialEq)]
pub struct NetworkRecord {
    pub id: Option<String>,
    pub name: Option<String>,
    pub driver: Option<String>,
    pub scope: Option<String>,
    pub internal: Option<bool>,
    pub enable_ipv6: Option<bool>,
    pub labels: Option<HashMap<String, String>>,
}

/// One member container of an inspected network.
#[derive(Debug, PartialEq)]
pub struct NetworkMemberRecord {
    pub id: String,
    pub name: Option<String>,
}

/// The part of a verbose network inspection that the facade reads: the
/// network's own id and its member containers.
#[derive(Debug, PartialEq)]
pub struct NetworkInspectRecord {
    pub id: Option<String>,
    pub members: Option<Vec<NetworkMemberRecord>>,
}

/// A raw image-pull progress record; only records whose status is present
/// reshape into a `ProgressInfo`.
#[derive(Debug, Clone, PartialEq)]
pub struct ProgressRecord {
    pub status: Option<String>,
    pub progress_detail: Option<ProgressDetail>,
    pub id: Option<String>,
}

} // verus!
