use vstd::prelude::*;
use vstd::seq_lib::*;

use crate::error::delete_container_error;
use crate::error::kill_container_error;
use crate::error::plain_daemon_error;
use crate::error::prefixed_daemon_error;
use crate::error::remove_image_error;
use crate::error::remove_network_error;
use crate::error::remove_volume_error;
use crate::error::start_container_error;
use crate::error::stop_container_error;
use crate::error::spec_delete_container_error;
use crate::error::spec_kill_container_error;
use crate::error::spec_remove_image_error;
use crate::error::spec_remove_network_error;
use crate::error::spec_remove_volume_error;
use crate::error::spec_start_container_error;
use crate::error::spec_stop_container_error;
use crate::error::CommandError;
use crate::mapper::map_container;
use crate::mapper::map_image;
use crate::mapper::map_network;
use crate::mapper::map_network_member;
use crate::mapper::map_volume;
use crate::mapper::spec_container_maps;
use crate::mapper::spec_image_maps;
use crate::mapper::spec_member_maps;
use crate::mapper::spec_network_complete;
use crate::mapper::spec_network_maps;
use crate::mapper::spec_volume_maps;
use crate::payload::Container;
use crate::payload::Image;
use crate::payload::Network;
use crate::payload::NetworkContainer;
use crate::payload::Volume;
use crate::ports::build_port_config;
use crate::ports::spec_ports_for_mapping;
use crate::ports::PortConfig;
use crate::records::ContainerRecord;
use crate::records::ImageRecord;
use crate::records::NetworkInspectRecord;
use crate::records::NetworkRecord;
use crate::records::VolumeRecord;

verus! {

/// Copies an optional string, preserving its value exactly.
fn clone_opt_string(o: &Option<String>) -> (r: Option<String>)
    ensures
        r == *o,
{
    match o {
        Some(s) => Some(s.clone()),
        None => None,
    }
}

/// Lists all containers, including stopped ones: every raw record the
/// daemon returned is projected into a `Container`; a failed call is
/// surfaced with the daemon's text alone.
#[verifier::loop_isolation(false)]
pub fn list_containers(outcome: Result<Vec<ContainerRecord>, String>) -> (r: Result<Vec<
    Container,
>, CommandError>)
    ensures
        outcome matches Ok(raws) ==> (r matches Ok(cs) && cs@.len() == raws@.len() && forall|
            i: int,
        | 0 <= i < raws@.len() ==> spec_container_maps(raws@[i], #[trigger] cs@[i])),
        outcome matches Err(e) ==> (r matches Err(err) && err matches CommandError::DockerError(m)
            && m@ == e@),
{
    match outcome {
        Err(e) => Err(plain_daemon_error(e)),
        Ok(raws) => {
            let ghost orig = raws@;
            let mut raws = raws;
            let mut out: Vec<Container> = Vec::new();
            loop
                invariant
                    out@.len() + raws@.len() == orig.len(),
                    raws@ =~= orig.skip(out@.len() as int),
                    forall|i: int|
                        0 <= i < out@.len() ==> spec_container_maps(orig[i], #[trigger] out@[i]),
                decreases raws@.len(),
            {
                if raws.len() == 0 {
                    return Ok(out);
                }
                let ghost pre = raws@;
                let ghost n = out@.len() as int;
                let rec = raws.remove(0);
                proof {
                    assert(rec == orig[n]);
                    assert(raws@ =~= orig.skip(n + 1));
                }
                out.push(map_container(rec));
            }
        },
    }
}

/// Lists all images; a failed call is surfaced with the daemon's text
/// alone.
#[verifier::loop_isolation(false)]
pub fn list_images(outcome: Result<Vec<ImageRecord>, String>) -> (r: Result<Vec<
    Image,
>, CommandError>)
    ensures
        outcome matches Ok(raws) ==> (r matches Ok(ims) && ims@.len() == raws@.len() && forall|
            i: int,
        | 0 <= i < raws@.len() ==> spec_image_maps(raws@[i], #[trigger] ims@[i])),
        outcome matches Err(e) ==> (r matches Err(err) && err matches CommandError::DockerError(m)
            && m@ == e@),
{
    match outcome {
        Err(e) => Err(plain_daemon_error(e)),
        Ok(raws) => {
            let ghost orig = raws@;
            let mut raws = raws;
            let mut out: Vec<Image> = Vec::new();
            loop
                invariant
                    out@.len() + raws@.len() == orig.len(),
                    raws@ =~= orig.skip(out@.len() as int),
                    forall|i: int|
                        0 <= i < out@.len() ==> spec_image_maps(orig[i], #[trigger] out@[i]),
                decreases raws@.len(),
            {
                if raws.len() == 0 {
                    return Ok(out);
                }
                let ghost n = out@.len() as int;
                let rec = raws.remove(0);
                proof {
                    assert(rec == orig[n]);
                    assert(raws@ =~= orig.skip(n + 1));
                }
                out.push(map_image(rec));
            }
        },
    }
}

/// What a container-creation request carries to the daemon: the image
/// reference and the derived port configuration.
pub struct CreateContainerRequest {
    pub image: String,
    pub ports: PortConfig,
}

/// Builds the creation request: the image is passed through untouched,
/// and the optional port mapping is parsed into the port configuration;
/// a malformed mapping publishes no ports but still creates.
pub fn create_container_request(image: String, port_mapping: Option<String>) -> (req:
    CreateContainerRequest)
    ensures
        req.image == image,
        spec_ports_for_mapping(
            match port_mapping {
                None => None,
                Some(m) => Some(m@),
            },
            req.ports,
        ),
{
    let ports = build_port_config(port_mapping.as_ref());
    CreateContainerRequest { image, ports }
}

/// Routes the daemon's answer to container creation: the created id on
/// success, a daemon failure under the creation prefix otherwise.
pub fn create_container_outcome(outcome: Result<String, String>) -> (r: Result<
    String,
    CommandError,
>)
    ensures
        outcome matches Ok(id) ==> (r matches Ok(rid) && rid == id),
        outcome matches Err(e) ==> (r matches Err(err) && err matches CommandError::DockerError(m)
            && m@ == "Failed to create container: "@ + e@),
{
    match outcome {
        Ok(id) => Ok(id),
        Err(e) => Err(prefixed_daemon_error("Failed to create container: ", e.as_str())),
    }
}

/// Routes the daemon's answer to starting a freshly created container.
/// Creation is not rolled back on failure here: the caller observes the
/// error while the created container remains.
pub fn start_created_container_outcome(outcome: Result<(), String>) -> (r: Result<
    (),
    CommandError,
>)
    ensures
        outcome is Ok ==> r is Ok,
        outcome matches Err(e) ==> (r matches Err(err) && err matches CommandError::DockerError(m)
            && m@ == "Failed to start container: "@ + e@),
{
    match outcome {
        Ok(_) => Ok(()),
        Err(e) => Err(prefixed_daemon_error("Failed to start container: ", e.as_str())),
    }
}

/// Routes the daemon's answer to removing an image, classifying failure
/// text keyed on the image reference.
pub fn remove_image(image: &str, outcome: Result<(), String>) -> (r: Result<(), CommandError>)
    ensures
        outcome is Ok ==> r is Ok,
        outcome matches Err(e) ==> (r matches Err(err) && err matches CommandError::DockerError(m)
            && m@ == spec_remove_image_error(image@, e@)),
{
    match outcome {
        Ok(_) => Ok(()),
        Err(e) => Err(remove_image_error(image, e.as_str())),
    }
}

/// Routes the daemon's answer to starting a container by name.
pub fn start_container(container_name: &str, outcome: Result<(), String>) -> (r: Result<
    (),
    CommandError,
>)
    ensures
        outcome is Ok ==> r is Ok,
        outcome matches Err(e) ==> (r matches Err(err) && err matches CommandError::DockerError(m)
            && m@ == spec_start_container_error(container_name@, e@)),
{
    match outcome {
        Ok(_) => Ok(()),
        Err(e) => Err(start_container_error(container_name, e.as_str())),
    }
}

/// Routes the daemon's answer to killing a container.
pub fn kill_container(container_name: &str, outcome: Result<(), String>) -> (r: Result<
    (),
    CommandError,
>)
    ensures
        outcome is Ok ==> r is Ok,
        outcome matches Err(e) ==> (r matches Err(err) && err matches CommandError::DockerError(m)
            && m@ == spec_kill_container_error(container_name@, e@)),
{
    match outcome {
        Ok(_) => Ok(()),
        Err(e) => Err(kill_container_error(container_name, e.as_str())),
    }
}

/// Routes the daemon's answer to deleting a container.
pub fn delete_container(container_name: &str, outcome: Result<(), String>) -> (r: Result<
    (),
    CommandError,
>)
    ensures
        outcome is Ok ==> r is Ok,
        outcome matches Err(e) ==> (r matches Err(err) && err matches CommandError::DockerError(m)
            && m@ == spec_delete_container_error(container_name@, e@)),
{
    match outcome {
        Ok(_) => Ok(()),
        Err(e) => Err(delete_container_error(container_name, e.as_str())),
    }
}

/// Routes the daemon's answer to stopping a container.
pub fn stop_container(container_name: &str, outcome: Result<(), String>) -> (r: Result<
    (),
    CommandError,
>)
    ensures
        outcome is Ok ==> r is Ok,
        outcome matches Err(e) ==> (r matches Err(err) && err matches CommandError::DockerError(m)
            && m@ == spec_stop_container_error(container_name@, e@)),
{
    match outcome {
        Ok(_) => Ok(()),
        Err(e) => Err(stop_container_error(container_name, e.as_str())),
    }
}

/// Routes the daemon's answer to creating a named volume.
pub fn create_volume(volume_name: &str, outcome: Result<(), String>) -> (r: Result<
    (),
    CommandError,
>)
    ensures
        outcome is Ok ==> r is Ok,
        outcome matches Err(e) ==> (r matches Err(err) && err matches CommandError::DockerError(m)
            && m@ == "Failed to create volume '"@ + volume_name@ + "': "@ + e@),
{
    match outcome {
        Ok(_) => Ok(()),
        Err(e) => {
            let msg = crate::text::concat4("Failed to create volume '", volume_name, "': ",
                e.as_str());
            Err(CommandError::DockerError(msg))
        },
    }
}

/// Lists the volumes the daemon reported; the caller is expected to have
/// asked only for dangling ones, a deliberate narrowing of the listing.
#[verifier::loop_isolation(false)]
pub fn list_volumes(outcome: Result<Vec<VolumeRecord>, String>) -> (r: Result<Vec<
    Volume,
>, CommandError>)
    ensures
        outcome matches Ok(raws) ==> (r matches Ok(vs) && vs@.len() == raws@.len() && forall|
            i: int,
        | 0 <= i < raws@.len() ==> spec_volume_maps(raws@[i], #[trigger] vs@[i])),
        outcome matches Err(e) ==> (r matches Err(err) && err matches CommandError::DockerError(m)
            && m@ == "Failed to list volumes: "@ + e@),
{
    match outcome {
        Err(e) => Err(prefixed_daemon_error("Failed to list volumes: ", e.as_str())),
        Ok(raws) => {
            let ghost orig = raws@;
            let mut raws = raws;
            let mut out: Vec<Volume> = Vec::new();
            loop
                invariant
                    out@.len() + raws@.len() == orig.len(),
                    raws@ =~= orig.skip(out@.len() as int),
                    forall|i: int|
                        0 <= i < out@.len() ==> spec_volume_maps(orig[i], #[trigger] out@[i]),
                decreases raws@.len(),
            {
                if raws.len() == 0 {
                    return Ok(out);
                }
                let ghost n = out@.len() as int;
                let rec = raws.remove(0);
                proof {
                    assert(rec == orig[n]);
                    assert(raws@ =~= orig.skip(n + 1));
                }
                out.push(map_volume(rec));
            }
        },
    }
}

/// Routes the daemon's answer to removing a volume, distinguishing a
/// missing volume from one still in use.
pub fn remove_volume(volume_name: &str, outcome: Result<(), String>) -> (r: Result<
    (),
    CommandError,
>)
    ensures
        outcome is Ok ==> r is Ok,
        outcome matches Err(e) ==> (r matches Err(err) && err matches CommandError::DockerError(m)
            && m@ == spec_remove_volume_error(volume_name@, e@)),
{
    match outcome {
        Ok(_) => Ok(()),
        Err(e) => Err(remove_volume_error(volume_name, e.as_str())),
    }
}

/// Routes the daemon's answer to pausing a container.
pub fn pause_container(outcome: Result<(), String>) -> (r: Result<(), CommandError>)
    ensures
        outcome is Ok ==> r is Ok,
        outcome matches Err(e) ==> (r matches Err(err) && err matches CommandError::DockerError(m)
            && m@ == "Failed to pause container: "@ + e@),
{
    match outcome {
        Ok(_) => Ok(()),
        Err(e) => Err(prefixed_daemon_error("Failed to pause container: ", e.as_str())),
    }
}

/// Routes the daemon's answer to unpausing a container.
pub fn unpause_container(outcome: Result<(), String>) -> (r: Result<(), CommandError>)
    ensures
        outcome is Ok ==> r is Ok,
        outcome matches Err(e) ==> (r matches Err(err) && err matches CommandError::DockerError(m)
            && m@ == "Failed to unpause container: "@ + e@),
{
    match outcome {
        Ok(_) => Ok(()),
        Err(e) => Err(prefixed_daemon_error("Failed to unpause container: ", e.as_str())),
    }
}

/// Lists networks: only records carrying all four required fields are
/// surfaced; incomplete records are dropped silently, never returned
/// with missing parts.
#[verifier::loop_isolation(false)]
pub fn list_networks(outcome: Result<Vec<NetworkRecord>, String>) -> (r: Result<Vec<
    Network,
>, CommandError>)
    ensures
        outcome matches Ok(raws) ==> (r matches Ok(ns) && ({
            let complete = raws@.filter(|x: NetworkRecord| spec_network_complete(x));
            ns@.len() == complete.len() && forall|i: int|
                0 <= i < complete.len() ==> spec_network_maps(complete[i], #[trigger] ns@[i])
        })),
        outcome matches Err(e) ==> (r matches Err(err) && err matches CommandError::DockerError(m)
            && m@ == e@),
{
    match outcome {
        Err(e) => Err(plain_daemon_error(e)),
        Ok(raws) => {
            let ghost orig = raws@;
            let ghost pred = |x: NetworkRecord| spec_network_complete(x);
            let mut raws = raws;
            let mut out: Vec<Network> = Vec::new();
            let ghost mut n: int = 0;
            loop
                invariant
                    0 <= n <= orig.len(),
                    raws@.len() == orig.len() - n,
                    raws@ =~= orig.skip(n),
                    out@.len() == orig.take(n).filter(pred).len(),
                    forall|i: int|
                        0 <= i < out@.len() ==> spec_network_maps(
                            orig.take(n).filter(pred)[i],
                            #[trigger] out@[i],
                        ),
                decreases raws@.len(),
            {
                if raws.len() == 0 {
                    proof {
                        assert(orig.take(n) =~= orig);
                    }
                    return Ok(out);
                }
                let rec = raws.remove(0);
                proof {
                    assert(rec == orig[n]);
                    assert(raws@ =~= orig.skip(n + 1));
                    reveal(Seq::filter);
                    assert(orig.take(n + 1).drop_last() =~= orig.take(n));
                    assert(orig.take(n + 1).last() == orig[n]);
                }
                match map_network(rec) {
                    Some(net) => {
                        out.push(net);
                    },
                    None => (),
                }
                proof {
                    n = n + 1;
                }
            }
        },
    }
}

/// Builds a network-creation request: the driver defaults to the bridge
/// driver when the caller names none.
pub fn create_network_request(name: String, driver: Option<String>) -> (r: (String, String))
    ensures
        r.0 == name,
        driver matches Some(d) ==> r.1 == d,
        driver is None ==> r.1@ == "bridge"@,
{
    let driv = match driver {
        Some(d) => d,
        None => "bridge".to_owned(),
    };
    (name, driv)
}

/// Routes the daemon's answer to creating a network.
pub fn create_network_outcome(outcome: Result<(), String>) -> (r: Result<(), CommandError>)
    ensures
        outcome is Ok ==> r is Ok,
        outcome matches Err(e) ==> (r matches Err(err) && err matches CommandError::DockerError(m)
            && m@ == "Failed to create network: "@ + e@),
{
    match outcome {
        Ok(_) => Ok(()),
        Err(e) => Err(prefixed_daemon_error("Failed to create network: ", e.as_str())),
    }
}

/// Lists the member containers of one verbosely inspected network: each
/// member is projected with the network's own id attached, and a member
/// with no reported name gets the placeholder.
#[verifier::loop_isolation(false)]
pub fn list_network_containers(outcome: Result<NetworkInspectRecord, String>) -> (r: Result<Vec<
    NetworkContainer,
>, CommandError>)
    ensures
        outcome matches Ok(rec) ==> (r matches Ok(ms) && (match rec.members {
            None => ms@.len() == 0,
            Some(mem) => ms@.len() == mem@.len() && forall|i: int|
                0 <= i < mem@.len() ==> spec_member_maps(mem@[i], rec.id, #[trigger] ms@[i]),
        })),
        outcome matches Err(e) ==> (r matches Err(err) && err matches CommandError::DockerError(m)
            && m@ == "Failed to inspect network: "@ + e@),
{
    match outcome {
        Err(e) => Err(prefixed_daemon_error("Failed to inspect network: ", e.as_str())),
        Ok(rec) => {
            match rec.members {
                None => Ok(Vec::new()),
                Some(mem) => {
                    let ghost orig = mem@;
                    let ghost net_id = rec.id;
                    let mut mem = mem;
                    let mut out: Vec<NetworkContainer> = Vec::new();
                    loop
                        invariant
                            out@.len() + mem@.len() == orig.len(),
                            mem@ =~= orig.skip(out@.len() as int),
                            forall|i: int|
                                0 <= i < out@.len() ==> spec_member_maps(
                                    orig[i],
                                    net_id,
                                    #[trigger] out@[i],
                                ),
                        decreases mem@.len(),
                    {
                        if mem.len() == 0 {
                            return Ok(out);
                        }
                        let ghost n = out@.len() as int;
                        let m = mem.remove(0);
                        proof {
                            assert(m == orig[n]);
                            assert(mem@ =~= orig.skip(n + 1));
                        }
                        let id_copy = clone_opt_string(&rec.id);
                        out.push(map_network_member(m, id_copy));
                    }
                },
            }
        },
    }
}

/// Routes the daemon's answer to removing a network, distinguishing a
/// missing network from one still in use.
pub fn remove_network(network_id: &str, outcome: Result<(), String>) -> (r: Result<
    (),
    CommandError,
>)
    ensures
        outcome is Ok ==> r is Ok,
        outcome matches Err(e) ==> (r matches Err(err) && err matches CommandError::DockerError(m)
            && m@ == spec_remove_network_error(network_id@, e@)),
{
    match outcome {
        Ok(_) => Ok(()),
        Err(e) => Err(remove_network_error(network_id, e.as_str())),
    }
}

/// Routes the daemon's answer to connecting a container to a network.
pub fn connect_container_to_network(outcome: Result<(), String>) -> (r: Result<(), CommandError>)
    ensures
        outcome is Ok ==> r is Ok,
        outcome matches Err(e) ==> (r matches Err(err) && err matches CommandError::DockerError(m)
            && m@ == "Failed to connect container to network: "@ + e@),
{
    match outcome {
        Ok(_) => Ok(()),
        Err(e) => Err(
            prefixed_daemon_error("Failed to connect container to network: ", e.as_str()),
        ),
    }
}

/// Routes the daemon's answer to disconnecting a container from a
/// network.
pub fn disconnect_container_from_network(outcome: Result<(), String>) -> (r: Result<
    (),
    CommandError,
>)
    ensures
        outcome is Ok ==> r is Ok,
        outcome matches Err(e) ==> (r matches Err(err) && err matches CommandError::DockerError(m)
            && m@ == "Failed to disconnect container from network: "@ + e@),
{
    match outcome {
        Ok(_) => Ok(()),
        Err(e) => Err(
            prefixed_daemon_error("Failed to disconnect container from network: ", e.as_str()),
        ),
    }
}

} // verus!
