use docker_facade::connect_container_to_network;
use docker_facade::create_container_outcome;
use docker_facade::create_network_outcome;
use docker_facade::create_volume;
use docker_facade::delete_container;
use docker_facade::disconnect_container_from_network;
use docker_facade::kill_container;
use docker_facade::pause_container;
use docker_facade::remove_image;
use docker_facade::remove_network;
use docker_facade::remove_volume;
use docker_facade::start_container;
use docker_facade::start_created_container_outcome;
use docker_facade::stop_container;
use docker_facade::str_contains;
use docker_facade::unpause_container;
use docker_facade::CommandError;

fn daemon_message(r: Result<(), CommandError>) -> String {
    match r {
        Err(CommandError::DockerError(m)) => m,
        _ => panic!("expected a daemon error"),
    }
}

#[test]
fn substring_search_is_exact() {
    assert!(str_contains("No such container: missing", "No such container"));
    assert!(str_contains("abc", ""));
    assert!(str_contains("abc", "abc"));
    assert!(!str_contains("abc", "abcd"));
    assert!(!str_contains("No Such Container", "No such container"));
    assert!(str_contains("xxin usexx", "in use"));
}

#[test]
fn stop_reports_missing_container_as_not_found() {
    let raw = "Error response from daemon: No such container: missing".to_string();
    let m = daemon_message(stop_container("missing", Err(raw.clone())));
    assert!(m.contains("not found"));
    assert!(m.contains("missing"));
    assert_eq!(m, format!("Container 'missing' not found: {}", raw));
}

#[test]
fn stop_carries_its_own_operation_name() {
    let m = daemon_message(stop_container("web", Err("permission denied".to_string())));
    assert_eq!(
        m,
        "Permission denied while attempting to stop container 'web': permission denied"
    );
    let m = daemon_message(stop_container("web", Err("socket hang up".to_string())));
    assert_eq!(m, "Failed to stop container 'web': socket hang up");
}

#[test]
fn start_classifies_three_ways() {
    let m = daemon_message(start_container("db", Err("No such container: db".to_string())));
    assert_eq!(m, "Container 'db' not found: No such container: db");
    let m = daemon_message(start_container("db", Err("permission denied by policy".to_string())));
    assert_eq!(
        m,
        "Permission denied while attempting to start container 'db': permission denied by policy"
    );
    let m = daemon_message(start_container("db", Err("oom".to_string())));
    assert_eq!(m, "Failed to start container 'db': oom");
    assert!(start_container("db", Ok(())).is_ok());
}

#[test]
fn kill_and_delete_use_their_own_wording() {
    let m = daemon_message(kill_container("web", Err("permission denied".to_string())));
    assert_eq!(m, "Permission denied while attempting to kill container 'web': permission denied");
    let m = daemon_message(delete_container("web", Err("permission denied".to_string())));
    assert_eq!(
        m,
        "Permission denied while attempting to delete container 'web': permission denied"
    );
    let m = daemon_message(delete_container("web", Err("No such container".to_string())));
    assert_eq!(m, "Container 'web' not found: No such container");
    let m = daemon_message(kill_container("web", Err("stuck".to_string())));
    assert_eq!(m, "Failed to kill container 'web': stuck");
}

#[test]
fn remove_image_is_keyed_on_the_reference() {
    let m = daemon_message(remove_image("nginx:latest", Err("No such image: nginx:latest".to_string())));
    assert_eq!(m, "image 'nginx:latest' not found: No such image: nginx:latest");
    let m = daemon_message(remove_image("nginx:latest", Err("permission denied".to_string())));
    assert_eq!(m, "Permission denied while attempting 'nginx:latest': permission denied");
    let m = daemon_message(remove_image("nginx:latest", Err("image is referenced".to_string())));
    assert_eq!(m, "Failed to remove image 'nginx:latest': image is referenced");
}

#[test]
fn remove_volume_distinguishes_in_use_from_not_found() {
    let not_found = daemon_message(remove_volume("v1", Err("No such volume: v1".to_string())));
    let in_use = daemon_message(remove_volume("v1", Err("volume is in use - [abc]".to_string())));
    assert_eq!(not_found, "Volume 'v1' not found: No such volume: v1");
    assert_eq!(in_use, "Volume 'v1' is in use and cannot be removed: volume is in use - [abc]");
    assert!(not_found.contains("not found"));
    assert!(in_use.contains("is in use"));
    assert_ne!(not_found, in_use);
    let other = daemon_message(remove_volume("v1", Err("io timeout".to_string())));
    assert_eq!(other, "Failed to remove volume 'v1': io timeout");
}

#[test]
fn remove_network_classifies_three_ways() {
    let m = daemon_message(remove_network("n1", Err("network n1 not found".to_string())));
    assert_eq!(m, "Network 'n1' not found: network n1 not found");
    let m = daemon_message(remove_network("n1", Err("network is in use".to_string())));
    assert_eq!(m, "Network 'n1' is in use: network is in use");
    let m = daemon_message(remove_network("n1", Err("broken".to_string())));
    assert_eq!(m, "Failed to remove network 'n1': broken");
}

#[test]
fn fixed_prefix_failures() {
    let m = daemon_message(create_volume("v1", Err("disk full".to_string())));
    assert_eq!(m, "Failed to create volume 'v1': disk full");
    let m = daemon_message(pause_container(Err("no".to_string())));
    assert_eq!(m, "Failed to pause container: no");
    let m = daemon_message(unpause_container(Err("no".to_string())));
    assert_eq!(m, "Failed to unpause container: no");
    let m = daemon_message(create_network_outcome(Err("dup".to_string())));
    assert_eq!(m, "Failed to create network: dup");
    let m = daemon_message(connect_container_to_network(Err("gone".to_string())));
    assert_eq!(m, "Failed to connect container to network: gone");
    let m = daemon_message(disconnect_container_from_network(Err("gone".to_string())));
    assert_eq!(m, "Failed to disconnect container from network: gone");
    let m = daemon_message(start_created_container_outcome(Err("bad image".to_string())));
    assert_eq!(m, "Failed to start container: bad image");
}

#[test]
fn create_container_failure_and_success() {
    match create_container_outcome(Err("conflict".to_string())) {
        Err(CommandError::DockerError(m)) => {
            assert_eq!(m, "Failed to create container: conflict")
        },
        _ => panic!("expected a daemon error"),
    }
    assert_eq!(create_container_outcome(Ok("cid-1".to_string())).unwrap(), "cid-1");
}

#[test]
fn rendered_messages_carry_the_kind_prefix() {
    let e = CommandError::DockerError("no daemon".to_string());
    assert_eq!(e.message(), "Docker API error: no daemon");
    let e = CommandError::UnexpectedError("sink gone".to_string());
    assert_eq!(e.message(), "Unexpected error: sink gone");
}

#[test]
fn successes_pass_through() {
    assert!(stop_container("a", Ok(())).is_ok());
    assert!(kill_container("a", Ok(())).is_ok());
    assert!(delete_container("a", Ok(())).is_ok());
    assert!(remove_image("a", Ok(())).is_ok());
    assert!(remove_volume("a", Ok(())).is_ok());
    assert!(remove_network("a", Ok(())).is_ok());
    assert!(create_volume("a", Ok(())).is_ok());
    assert!(pause_container(Ok(())).is_ok());
    assert!(unpause_container(Ok(())).is_ok());
    assert!(connect_container_to_network(Ok(())).is_ok());
    assert!(disconnect_container_from_network(Ok(())).is_ok());
    assert!(create_network_outcome(Ok(())).is_ok());
    assert!(start_created_container_outcome(Ok(())).is_ok());
}
