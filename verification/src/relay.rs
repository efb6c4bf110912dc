use vstd::prelude::*;

use crate::error::prefixed_daemon_error;
use crate::error::prefixed_unexpected_error;
use crate::error::CommandError;
use crate::mapper::reshape_progress;
use crate::mapper::spec_progress_valid;
use crate::payload::ProgressInfo;
use crate::records::ProgressRecord;

verus! {

/// One arrival on a container's log stream: a line, or the stream's own
/// failure.
#[derive(Debug, PartialEq)]
pub enum LogEvent {
    Line(String),
    Failure(String),
}

/// One arrival on an image-pull progress stream: a raw progress record,
/// or the stream's own failure.
#[derive(Debug, PartialEq)]
pub enum PullEvent {
    Output(ProgressRecord),
    Failure(String),
}

/// The sink's answer to one delivered item.
#[derive(Debug, PartialEq)]
pub enum SinkResult {
    Delivered,
    Rejected(String),
}

/// How a relay run ended: the upstream sequence was exhausted, the
/// upstream itself failed, or the sink rejected a delivery.
#[derive(Debug, PartialEq)]
pub enum RelayVerdict {
    Finished,
    Upstream(String),
    SinkFailed(String),
}

/// What a log relay delivers and how it stops, given the arriving events
/// and the sink's answer to each attempted delivery: lines are forwarded
/// in arrival order until the stream ends, the stream fails, or the sink
/// rejects one.
pub open spec fn spec_log_relay(items: Seq<LogEvent>, resp: Seq<SinkResult>) -> (Seq<
    String,
>, RelayVerdict)
    decreases items.len(),
{
    if items.len() == 0 {
        (Seq::empty(), RelayVerdict::Finished)
    } else {
        match items[0] {
            LogEvent::Failure(e) => (Seq::empty(), RelayVerdict::Upstream(e)),
            LogEvent::Line(l) => match resp[0] {
                SinkResult::Rejected(e) => (Seq::empty(), RelayVerdict::SinkFailed(e)),
                SinkResult::Delivered => {
                    let rest = spec_log_relay(items.skip(1), resp.skip(1));
                    (seq![l] + rest.0, rest.1)
                },
            },
        }
    }
}

/// The decision a log relay takes on one arrival.
#[derive(Debug, PartialEq)]
pub enum LogStep {
    Deliver(String),
    Abort(CommandError),
}

/// Decides one log-relay iteration: a line is handed to the sink, a
/// failure of the stream itself aborts the relay as a daemon failure.
pub fn log_relay_step(item: LogEvent) -> (s: LogStep)
    ensures
        item matches LogEvent::Line(l) ==> s matches LogStep::Deliver(d) && d == l,
        item matches LogEvent::Failure(e) ==> s matches LogStep::Abort(err) && (
        err matches CommandError::DockerError(m) && m@ == "Failed to fetch logs: "@ + e@),
{
    match item {
        LogEvent::Line(l) => LogStep::Deliver(l),
        LogEvent::Failure(e) => LogStep::Abort(
            prefixed_daemon_error("Failed to fetch logs: ", e.as_str()),
        ),
    }
}

/// The error reported when the caller's sink rejects a log line: a
/// failure of the facade's own delivery path, never of the daemon.
pub fn log_sink_error(reason: &str) -> (err: CommandError)
    ensures
        err matches CommandError::UnexpectedError(m) && m@ == "Failed to emit log : "@ + reason@,
{
    prefixed_unexpected_error("Failed to emit log : ", reason)
}

/// Runs a log relay to completion over the arrived events, consuming one
/// sink answer per attempted delivery.
#[verifier::loop_isolation(false)]
pub fn run_log_relay(items: Vec<LogEvent>, responses: Vec<SinkResult>) -> (r: (Vec<
    String,
>, Result<(), CommandError>))
    requires
        responses@.len() >= items@.len(),
    ensures
        ({
            let (del, verdict) = spec_log_relay(items@, responses@);
            &&& r.0@ == del
            &&& match verdict {
                RelayVerdict::Finished => r.1 is Ok,
                RelayVerdict::Upstream(e) => r.1 matches Err(CommandError::DockerError(m)) && m@
                    == "Failed to fetch logs: "@ + e@,
                RelayVerdict::SinkFailed(e) => r.1 matches Err(CommandError::UnexpectedError(m))
                    && m@ == "Failed to emit log : "@ + e@,
            }
        }),
{
    let ghost items0 = items@;
    let ghost resp0 = responses@;
    let mut items = items;
    let mut responses = responses;
    let mut delivered: Vec<String> = Vec::new();
    loop
        invariant
            responses@.len() >= items@.len(),
            spec_log_relay(items0, resp0).0 == delivered@ + spec_log_relay(items@, responses@).0,
            spec_log_relay(items0, resp0).1 == spec_log_relay(items@, responses@).1,
        decreases items@.len(),
    {
        if items.len() == 0 {
            proof {
                assert(spec_log_relay(items0, resp0).0 =~= delivered@);
            }
            return (delivered, Ok(()));
        }
        let ghost pre_items = items@;
        let ghost pre_resp = responses@;
        let item = items.remove(0);
        proof {
            assert(items@ =~= pre_items.skip(1));
        }
        match log_relay_step(item) {
            LogStep::Abort(err) => {
                proof {
                    assert(spec_log_relay(items0, resp0).0 =~= delivered@);
                }
                return (delivered, Err(err));
            },
            LogStep::Deliver(line) => {
                let answer = responses.remove(0);
                proof {
                    assert(responses@ =~= pre_resp.skip(1));
                }
                match answer {
                    SinkResult::Rejected(reason) => {
                        proof {
                            assert(spec_log_relay(items0, resp0).0 =~= delivered@);
                        }
                        return (delivered, Err(log_sink_error(reason.as_str())));
                    },
                    SinkResult::Delivered => {
                        delivered.push(line);
                        proof {
                            assert(spec_log_relay(items0, resp0).0 =~= delivered@
                                + spec_log_relay(items@, responses@).0);
                        }
                    },
                }
            },
        }
    }
}

/// A valid raw progress record, reshaped.
pub open spec fn spec_reshaped(rec: ProgressRecord) -> ProgressInfo {
    ProgressInfo { status: rec.status->0, progress_detail: rec.progress_detail, id: rec.id }
}

/// What a pull relay delivers and how it stops: well-formed records are
/// reshaped and forwarded in arrival order, malformed records are dropped
/// silently, and the relay stops on stream end, stream failure, or the
/// first rejected notification.
pub open spec fn spec_pull_relay(items: Seq<PullEvent>, resp: Seq<SinkResult>) -> (Seq<
    ProgressInfo,
>, RelayVerdict)
    decreases items.len(),
{
    if items.len() == 0 {
        (Seq::empty(), RelayVerdict::Finished)
    } else {
        match items[0] {
            PullEvent::Failure(e) => (Seq::empty(), RelayVerdict::Upstream(e)),
            PullEvent::Output(rec) => if !spec_progress_valid(rec) {
                spec_pull_relay(items.skip(1), resp)
            } else {
                match resp[0] {
                    SinkResult::Rejected(e) => (Seq::empty(), RelayVerdict::SinkFailed(e)),
                    SinkResult::Delivered => {
                        let rest = spec_pull_relay(items.skip(1), resp.skip(1));
                        (seq![spec_reshaped(rec)] + rest.0, rest.1)
                    },
                }
            },
        }
    }
}

/// The well-formed records of an event sequence, reshaped, in arrival
/// order.
pub open spec fn spec_valid_events(items: Seq<PullEvent>) -> Seq<ProgressInfo>
    decreases items.len(),
{
    if items.len() == 0 {
        Seq::empty()
    } else {
        let rest = spec_valid_events(items.skip(1));
        match items[0] {
            PullEvent::Output(rec) => if spec_progress_valid(rec) {
                seq![spec_reshaped(rec)] + rest
            } else {
                rest
            },
            PullEvent::Failure(_) => rest,
        }
    }
}

/// Law: a pull relay whose upstream never fails and whose notification
/// channel accepts every delivery forwards exactly the well-formed
/// records, reshaped, in arrival order; malformed records are dropped
/// silently and never abort the stream.
pub proof fn lemma_pull_relay_drops_malformed(items: Seq<PullEvent>, resp: Seq<SinkResult>)
    requires
        resp.len() >= items.len(),
        forall|i: int| 0 <= i < items.len() ==> !((#[trigger] items[i]) is Failure),
        forall|i: int| 0 <= i < resp.len() ==> (#[trigger] resp[i]) is Delivered,
    ensures
        spec_pull_relay(items, resp).1 is Finished,
        spec_pull_relay(items, resp).0 == spec_valid_events(items),
    decreases items.len(),
{
    if items.len() > 0 {
        match items[0] {
            PullEvent::Failure(_) => {
                assert(false);
            },
            PullEvent::Output(rec) => {
                if spec_progress_valid(rec) {
                    lemma_pull_relay_drops_malformed(items.skip(1), resp.skip(1));
                } else {
                    lemma_pull_relay_drops_malformed(items.skip(1), resp);
                }
            },
        }
    }
}

/// Law: a log relay whose sink rejects the delivery at position `k`,
/// after accepting every earlier one, forwards exactly the first `k`
/// lines in arrival order and stops with the sink's failure, never the
/// daemon's.
pub proof fn lemma_log_relay_stops_at_sink_rejection(
    items: Seq<LogEvent>,
    resp: Seq<SinkResult>,
    k: int,
)
    requires
        0 <= k < items.len(),
        items.len() <= resp.len(),
        forall|i: int| 0 <= i <= k ==> (#[trigger] items[i]) is Line,
        forall|i: int| 0 <= i < k ==> (#[trigger] resp[i]) is Delivered,
        resp[k] is Rejected,
    ensures
        spec_log_relay(items, resp).0.len() == k,
        forall|i: int| 0 <= i < k ==> spec_log_relay(items, resp).0[i] == items[i]->Line_0,
        spec_log_relay(items, resp).1 is SinkFailed,
    decreases k,
{
    if k == 0 {
    } else {
        lemma_log_relay_stops_at_sink_rejection(items.skip(1), resp.skip(1), k - 1);
        let rest = spec_log_relay(items.skip(1), resp.skip(1));
        assert forall|i: int| 0 <= i < k implies spec_log_relay(items, resp).0[i] == items[i]
            ->Line_0 by {
            if i > 0 {
                assert(rest.0[i - 1] == items.skip(1)[i - 1]->Line_0);
            }
        }
    }
}

/// The decision a pull relay takes on one arrival.
#[derive(Debug, PartialEq)]
pub enum PullStep {
    Emit(ProgressInfo),
    Skip,
    Abort(CommandError),
}

/// Decides one pull-relay iteration: a well-formed record is reshaped and
/// emitted, a malformed one is dropped silently, and a stream failure
/// aborts the whole pull as a daemon failure.
pub fn pull_relay_step(item: PullEvent) -> (s: PullStep)
    ensures
        item matches PullEvent::Output(rec) ==> if spec_progress_valid(rec) {
            s matches PullStep::Emit(p) && p == spec_reshaped(rec)
        } else {
            s is Skip
        },
        item matches PullEvent::Failure(e) ==> s matches PullStep::Abort(err) && (
        err matches CommandError::DockerError(m) && m@ == "Failed to pull image: "@ + e@),
{
    match item {
        PullEvent::Output(rec) => match reshape_progress(rec) {
            Some(p) => PullStep::Emit(p),
            None => PullStep::Skip,
        },
        PullEvent::Failure(e) => PullStep::Abort(
            prefixed_daemon_error("Failed to pull image: ", e.as_str()),
        ),
    }
}

/// The error reported when the notification channel rejects a progress
/// event: a failure of the facade's own delivery path.
pub fn progress_sink_error(reason: &str) -> (err: CommandError)
    ensures
        err matches CommandError::UnexpectedError(m) && m@ == "Failed to send progress update: "@
            + reason@,
{
    prefixed_unexpected_error("Failed to send progress update: ", reason)
}

/// Runs a pull relay to completion over the arrived events, consuming one
/// sink answer per emitted notification.
#[verifier::loop_isolation(false)]
pub fn run_pull_relay(items: Vec<PullEvent>, responses: Vec<SinkResult>) -> (r: (Vec<
    ProgressInfo,
>, Result<(), CommandError>))
    requires
        responses@.len() >= items@.len(),
    ensures
        ({
            let (del, verdict) = spec_pull_relay(items@, responses@);
            &&& r.0@ == del
            &&& match verdict {
                RelayVerdict::Finished => r.1 is Ok,
                RelayVerdict::Upstream(e) => r.1 matches Err(CommandError::DockerError(m)) && m@
                    == "Failed to pull image: "@ + e@,
                RelayVerdict::SinkFailed(e) => r.1 matches Err(CommandError::UnexpectedError(m))
                    && m@ == "Failed to send progress update: "@ + e@,
            }
        }),
{
    let ghost items0 = items@;
    let ghost resp0 = responses@;
    let mut items = items;
    let mut responses = responses;
    let mut delivered: Vec<ProgressInfo> = Vec::new();
    loop
        invariant
            responses@.len() >= items@.len(),
            spec_pull_relay(items0, resp0).0 == delivered@ + spec_pull_relay(items@, responses@).0,
            spec_pull_relay(items0, resp0).1 == spec_pull_relay(items@, responses@).1,
        decreases items@.len(),
    {
        if items.len() == 0 {
            proof {
                assert(spec_pull_relay(items0, resp0).0 =~= delivered@);
            }
            return (delivered, Ok(()));
        }
        let ghost pre_items = items@;
        let ghost pre_resp = responses@;
        let item = items.remove(0);
        proof {
            assert(items@ =~= pre_items.skip(1));
        }
        match pull_relay_step(item) {
            PullStep::Abort(err) => {
                proof {
                    assert(spec_pull_relay(items0, resp0).0 =~= delivered@);
                }
                return (delivered, Err(err));
            },
            PullStep::Skip => {},
            PullStep::Emit(event) => {
                let answer = responses.remove(0);
                proof {
                    assert(responses@ =~= pre_resp.skip(1));
                }
                match answer {
                    SinkResult::Rejected(reason) => {
                        proof {
                            assert(spec_pull_relay(items0, resp0).0 =~= delivered@);
                        }
                        return (delivered, Err(progress_sink_error(reason.as_str())));
                    },
                    SinkResult::Delivered => {
                        delivered.push(event);
                        proof {
                            assert(spec_pull_relay(items0, resp0).0 =~= delivered@
                                + spec_pull_relay(items@, responses@).0);
                        }
                    },
                }
            },
        }
    }
}

} // verus!
