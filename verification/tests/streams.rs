use docker_facade::create_container_request;
use docker_facade::create_network_request;
use docker_facade::log_relay_step;
use docker_facade::log_sink_error;
use docker_facade::progress_sink_error;
use docker_facade::pull_relay_step;
use docker_facade::run_log_relay;
use docker_facade::run_pull_relay;
use docker_facade::split_port_mapping;
use docker_facade::CommandError;
use docker_facade::LogEvent;
use docker_facade::LogStep;
use docker_facade::ProgressRecord;
use docker_facade::PullEvent;
use docker_facade::PullStep;
use docker_facade::SinkResult;

fn valid_record(status: &str) -> ProgressRecord {
    ProgressRecord { status: Some(status.to_string()), progress_detail: None, id: None }
}

fn malformed_record() -> ProgressRecord {
    ProgressRecord { status: None, progress_detail: None, id: Some("layer".to_string()) }
}

#[test]
fn port_mapping_splits_exactly_once() {
    assert_eq!(
        split_port_mapping("8080:80"),
        Some(("8080".to_string(), "80".to_string()))
    );
    assert_eq!(split_port_mapping("bad"), None);
    assert_eq!(split_port_mapping("a:b:c"), None);
    assert_eq!(split_port_mapping(""), None);
    assert_eq!(split_port_mapping(":"), Some((String::new(), String::new())));
}

#[test]
fn well_formed_mapping_publishes_one_port() {
    let req = create_container_request("nginx".to_string(), Some("8080:80".to_string()));
    assert_eq!(req.image, "nginx");
    assert_eq!(req.ports.exposed_ports, vec!["80/tcp".to_string()]);
    assert_eq!(req.ports.port_bindings.len(), 1);
    let (key, bindings) = &req.ports.port_bindings[0];
    assert_eq!(key, "80/tcp");
    assert_eq!(bindings.len(), 1);
    assert_eq!(bindings[0].host_ip.as_deref(), Some("0.0.0.0"));
    assert_eq!(bindings[0].host_port.as_deref(), Some("8080"));
}

#[test]
fn malformed_mapping_publishes_nothing_but_still_creates() {
    let req = create_container_request("nginx".to_string(), Some("bad".to_string()));
    assert_eq!(req.image, "nginx");
    assert!(req.ports.exposed_ports.is_empty());
    assert!(req.ports.port_bindings.is_empty());

    let req = create_container_request("nginx".to_string(), None);
    assert!(req.ports.exposed_ports.is_empty());
    assert!(req.ports.port_bindings.is_empty());

    let req = create_container_request("nginx".to_string(), Some("1:2:3".to_string()));
    assert!(req.ports.exposed_ports.is_empty());
    assert!(req.ports.port_bindings.is_empty());
}

#[test]
fn network_driver_defaults_to_bridge() {
    let (name, driver) = create_network_request("n1".to_string(), None);
    assert_eq!(name, "n1");
    assert_eq!(driver, "bridge");
    let (_, driver) = create_network_request("n1".to_string(), Some("overlay".to_string()));
    assert_eq!(driver, "overlay");
}

#[test]
fn pull_relay_drops_the_malformed_record_and_keeps_order() {
    let mut items: Vec<PullEvent> = Vec::new();
    for i in 0..5 {
        items.push(PullEvent::Output(valid_record(&format!("step-{}", i))));
    }
    items.push(PullEvent::Output(malformed_record()));
    for i in 5..8 {
        items.push(PullEvent::Output(valid_record(&format!("step-{}", i))));
    }
    let responses = vec![
        SinkResult::Delivered,
        SinkResult::Delivered,
        SinkResult::Delivered,
        SinkResult::Delivered,
        SinkResult::Delivered,
        SinkResult::Delivered,
        SinkResult::Delivered,
        SinkResult::Delivered,
        SinkResult::Delivered,
    ];
    let (delivered, result) = run_pull_relay(items, responses);
    assert!(result.is_ok());
    assert_eq!(delivered.len(), 8);
    for (i, event) in delivered.iter().enumerate() {
        assert_eq!(event.status, format!("step-{}", i));
    }
}

#[test]
fn pull_relay_aborts_on_stream_failure() {
    let items = vec![
        PullEvent::Output(valid_record("a")),
        PullEvent::Failure("unexpected EOF".to_string()),
        PullEvent::Output(valid_record("b")),
    ];
    let responses = vec![SinkResult::Delivered, SinkResult::Delivered, SinkResult::Delivered];
    let (delivered, result) = run_pull_relay(items, responses);
    assert_eq!(delivered.len(), 1);
    assert_eq!(delivered[0].status, "a");
    match result {
        Err(CommandError::DockerError(m)) => {
            assert_eq!(m, "Failed to pull image: unexpected EOF")
        },
        _ => panic!("expected a daemon error"),
    }
}

#[test]
fn pull_relay_reports_rejected_notification_as_unexpected() {
    let items = vec![PullEvent::Output(valid_record("a"))];
    let responses = vec![SinkResult::Rejected("channel closed".to_string())];
    let (delivered, result) = run_pull_relay(items, responses);
    assert!(delivered.is_empty());
    match result {
        Err(CommandError::UnexpectedError(m)) => {
            assert_eq!(m, "Failed to send progress update: channel closed")
        },
        _ => panic!("expected an unexpected error"),
    }
}

#[test]
fn log_relay_aborts_after_two_deliveries_when_third_is_rejected() {
    let items = vec![
        LogEvent::Line("line-1".to_string()),
        LogEvent::Line("line-2".to_string()),
        LogEvent::Line("line-3".to_string()),
        LogEvent::Line("line-4".to_string()),
        LogEvent::Line("line-5".to_string()),
    ];
    let responses = vec![
        SinkResult::Delivered,
        SinkResult::Delivered,
        SinkResult::Rejected("receiver dropped".to_string()),
        SinkResult::Delivered,
        SinkResult::Delivered,
    ];
    let (delivered, result) = run_log_relay(items, responses);
    assert_eq!(delivered, vec!["line-1".to_string(), "line-2".to_string()]);
    match result {
        Err(CommandError::UnexpectedError(m)) => {
            assert_eq!(m, "Failed to emit log : receiver dropped")
        },
        Err(CommandError::DockerError(_)) => panic!("sink failures are not daemon errors"),
        Ok(_) => panic!("the relay must abort"),
    }
}

#[test]
fn log_relay_forwards_everything_in_order_on_success() {
    let items = vec![
        LogEvent::Line("a".to_string()),
        LogEvent::Line("b".to_string()),
        LogEvent::Line("c".to_string()),
    ];
    let responses = vec![SinkResult::Delivered, SinkResult::Delivered, SinkResult::Delivered];
    let (delivered, result) = run_log_relay(items, responses);
    assert!(result.is_ok());
    assert_eq!(delivered, vec!["a".to_string(), "b".to_string(), "c".to_string()]);
}

#[test]
fn log_relay_reports_upstream_failure_as_daemon_error() {
    let items = vec![
        LogEvent::Line("a".to_string()),
        LogEvent::Failure("stream reset".to_string()),
    ];
    let responses = vec![SinkResult::Delivered, SinkResult::Delivered];
    let (delivered, result) = run_log_relay(items, responses);
    assert_eq!(delivered, vec!["a".to_string()]);
    match result {
        Err(CommandError::DockerError(m)) => assert_eq!(m, "Failed to fetch logs: stream reset"),
        _ => panic!("expected a daemon error"),
    }
}

#[test]
fn relay_steps_decide_each_arrival() {
    match log_relay_step(LogEvent::Line("x".to_string())) {
        LogStep::Deliver(l) => assert_eq!(l, "x"),
        _ => panic!("a line is delivered"),
    }
    match log_relay_step(LogEvent::Failure("gone".to_string())) {
        LogStep::Abort(CommandError::DockerError(m)) => {
            assert_eq!(m, "Failed to fetch logs: gone")
        },
        _ => panic!("a stream failure aborts as a daemon error"),
    }
    match pull_relay_step(PullEvent::Output(valid_record("Pulling"))) {
        PullStep::Emit(p) => assert_eq!(p.status, "Pulling"),
        _ => panic!("a valid record is emitted"),
    }
    assert_eq!(pull_relay_step(PullEvent::Output(malformed_record())), PullStep::Skip);
    match pull_relay_step(PullEvent::Failure("eof".to_string())) {
        PullStep::Abort(CommandError::DockerError(m)) => {
            assert_eq!(m, "Failed to pull image: eof")
        },
        _ => panic!("a stream failure aborts the pull"),
    }
    match log_sink_error("full") {
        CommandError::UnexpectedError(m) => assert_eq!(m, "Failed to emit log : full"),
        _ => panic!("sink errors are unexpected errors"),
    }
    match progress_sink_error("full") {
        CommandError::UnexpectedError(m) => assert_eq!(m, "Failed to send progress update: full"),
        _ => panic!("sink errors are unexpected errors"),
    }
}
