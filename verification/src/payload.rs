use vstd::prelude::*;

use std::collections::HashMap;

verus! {

/// The level at which a volume exists, as the daemon reports it.
#[derive(Debug, Clone, Copy, PartialEq, Eq, Structural)]
pub enum VolumeScopeEnum {
    EMPTY,
    LOCAL,
    GLOBAL,
}

/// A container as surfaced to the caller: every field is as last reported
/// by the daemon, with the single leading path separator stripped from the
/// name when present.
#[derive(Debug, PartialEq)]
pub struct Container {
    pub name: Option<String>,
    pub status: Option<String>,
    pub state: Option<String>,
    pub ports: Option<Vec<String>>,
}

/// An image as surfaced to the caller; `repo_tag` is the first reference
/// the daemon reports, or the empty string when it reports none.
#[derive(Debug, PartialEq)]
pub struct Image {
    pub repo_tag: String,
    pub size: i64,
}

/// A volume as surfaced to the caller.
#[derive(Debug, PartialEq)]
pub struct Volume {
    pub name: String,
    pub driver: String,
    pub mountpoint: Option<String>,
    pub labels: Option<HashMap<String, String>>,
    pub scope: Option<VolumeScopeEnum>,
    pub status: Option<Vec<String>>,
}

/// A network as surfaced to the caller. All four identifying fields are
/// required: records lacking any of them are dropped during mapping and
/// never reach this type.
#[derive(Debug, PartialEq)]
pub struct Network {
    pub id: String,
    pub name: String,
    pub driver: String,
    pub scope: String,
    pub internal: Option<bool>,
    pub enable_ipv6: Option<bool>,
    pub labels: Option<HashMap<String, String>>,
}

/// Address configuration of a network, passed through untouched.
#[derive(Debug, PartialEq)]
pub struct IpamConfig {
    pub subnet: Option<String>,
    pub gateway: Option<String>,
    pub ip_range: Option<String>,
}

/// One image-pull progress event delivered to the notification channel.
#[derive(Debug, Clone, PartialEq)]
pub struct ProgressInfo {
    pub status: String,
    pub progress_detail: Option<ProgressDetail>,
    pub id: Option<String>,
}

/// The optional byte counts attached to a progress event.
#[derive(Debug, Clone, PartialEq)]
pub struct ProgressDetail {
    pub current: Option<i64>,
    pub total: Option<i64>,
}

/// One host-side binding of a published container port.
#[derive(Debug, PartialEq)]
pub struct PortBinding {
    pub host_ip: Option<String>,
    pub host_port: Option<String>,
}

/// A container that is a member of an inspected network; a missing name
/// is replaced by a placeholder during mapping.
#[derive(Debug, Clone, PartialEq)]
pub struct NetworkContainer {
    pub id: String,
    pub name: String,
    pub network_id: Option<String>,
}

} // verus!
