use vstd::prelude::*;

use crate::config::WakaTimeConfig;
use crate::event::WakaTimeEvent;
use crate::json::{encode_heartbeat, heartbeat_json};

verus! {

/// An HTTP POST that delivers one heartbeat.
#[derive(Debug, Clone)]
pub struct HttpRequest {
    pub url: String,
    pub authorization: String,
    pub content_type: String,
    pub user_agent: String,
    pub timeout_secs: u64,
    pub body: String,
}

/// What the worker does with a dequeued heartbeat.
#[derive(Debug, Clone)]
pub enum Dispatch {
    /// No configuration has been supplied yet: the heartbeat is dropped.
    NoConfig,
    /// Tracking is switched off: the heartbeat is dropped.
    Disabled,
    /// No API key is configured: the heartbeat is dropped.
    MissingApiKey,
    /// The heartbeat is sent with this request.
    Deliver(HttpRequest),
}

/// How one delivery attempt ended.
#[derive(Debug, Clone, Copy, PartialEq, Eq, Structural)]
pub enum DeliveryOutcome {
    /// The service answered with a success status.
    Delivered,
    /// The service answered with another status.
    Rejected(u16),
    /// No answer came: a connection error or a timeout.
    Failed,
}

/// The request that delivers `event` under a configuration that is enabled
/// and holds the API key `key`.
pub open spec fn is_delivery_of(req: HttpRequest, c: WakaTimeConfig, key: String, event: WakaTimeEvent) -> bool {
    &&& req.url@ == c.api_url@
    &&& req.authorization@ == "Bearer "@ + key@
    &&& req.content_type@ == "application/json"@
    &&& req.user_agent@ == "helix-editor"@
    &&& req.timeout_secs == c.timeout
    &&& req.body@ == heartbeat_json(event)
}

/// The decision that the configuration `config` gives for `event`.
pub open spec fn planned(config: Option<WakaTimeConfig>, event: WakaTimeEvent, r: Dispatch) -> bool {
    match config {
        None => r is NoConfig,
        Some(c) => if !c.enabled {
            r is Disabled
        } else {
            match c.api_key {
                None => r is MissingApiKey,
                Some(key) => match r {
                    Dispatch::Deliver(req) => is_delivery_of(req, c, key, event),
                    _ => false,
                },
            }
        },
    }
}

/// Decides what to do with a dequeued heartbeat under a configuration
/// snapshot: drop it when there is no configuration, tracking is disabled or
/// no API key is set, and otherwise build the request that delivers it.
pub fn plan_dispatch(config: &Option<WakaTimeConfig>, event: &WakaTimeEvent) -> (r: Dispatch)
    ensures
        planned(*config, *event, r),
{
    match config {
        None => Dispatch::NoConfig,
        Some(c) => {
            if !c.enabled {
                return Dispatch::Disabled;
            }
            match &c.api_key {
                None => Dispatch::MissingApiKey,
                Some(key) => {
                    let mut authorization = String::from_str("Bearer ");
                    authorization.append(key.as_str());
                    let url = c.api_url.clone();
                    let req = HttpRequest {
                        url,
                        authorization,
                        content_type: String::from_str("application/json"),
                        user_agent: String::from_str("helix-editor"),
                        timeout_secs: c.timeout,
                        body: encode_heartbeat(event),
                    };
                    Dispatch::Deliver(req)
                },
            }
        },
    }
}

/// Classifies the status code of the service's answer: the 2xx codes mean
/// the heartbeat was accepted.
pub fn classify_status(status: u16) -> (r: DeliveryOutcome)
    ensures
        r == (if 200 <= status < 300 {
            DeliveryOutcome::Delivered
        } else {
            DeliveryOutcome::Rejected(status)
        }),
{
    if 200 <= status && status < 300 {
        DeliveryOutcome::Delivered
    } else {
        DeliveryOutcome::Rejected(status)
    }
}

/// Tracking switched off never leads to a request: under a disabled
/// configuration every heartbeat is dropped, whatever it holds.
pub proof fn lemma_disabled_never_delivers(config: WakaTimeConfig, event: WakaTimeEvent, r: Dispatch)
    requires
        !config.enabled,
        planned(Some(config), event, r),
    ensures
        !(r is Deliver),
{
}

/// Where the delivery worker stands: waiting on the queue, or with one
/// heartbeat in flight.
#[derive(Debug, Clone, Copy, PartialEq, Eq, Structural)]
pub enum WorkerPhase {
    Idle,
    Dispatching,
}

/// What happens to the delivery worker.
#[derive(Debug, Clone, Copy, PartialEq, Eq, Structural)]
pub enum WorkerSignal {
    /// A heartbeat was taken off the queue.
    Dequeued,
    /// The attempt in flight ended with this outcome.
    Completed(DeliveryOutcome),
}

/// Whether the worker in `phase` can take `signal`: it dequeues only while
/// idle, and an attempt completes only while one is in flight.
pub open spec fn accepts(phase: WorkerPhase, signal: WorkerSignal) -> bool {
    match signal {
        WorkerSignal::Dequeued => phase == WorkerPhase::Idle,
        WorkerSignal::Completed(_) => phase == WorkerPhase::Dispatching,
    }
}

/// The phase after an accepted signal. Every outcome leads back to idle:
/// there is no retry.
pub open spec fn after(signal: WorkerSignal) -> WorkerPhase {
    match signal {
        WorkerSignal::Dequeued => WorkerPhase::Dispatching,
        WorkerSignal::Completed(_) => WorkerPhase::Idle,
    }
}

/// Moves the worker on by one signal; nothing when the phase does not take it.
pub fn step(phase: WorkerPhase, signal: WorkerSignal) -> (r: Option<WorkerPhase>)
    ensures
        r == (if accepts(phase, signal) {
            Some(after(signal))
        } else {
            None
        }),
{
    match signal {
        WorkerSignal::Dequeued => if phase == WorkerPhase::Idle {
            Some(WorkerPhase::Dispatching)
        } else {
            None
        },
        WorkerSignal::Completed(_) => if phase == WorkerPhase::Dispatching {
            Some(WorkerPhase::Idle)
        } else {
            None
        },
    }
}

/// At most one heartbeat is in flight: while one is, the worker takes no
/// other off the queue.
pub proof fn lemma_one_in_flight(phase: WorkerPhase)
    requires
        phase == WorkerPhase::Dispatching,
    ensures
        !accepts(phase, WorkerSignal::Dequeued),
{
}

/// A failed attempt does not hold up the queue: after an attempt ends, with
/// whatever outcome, the worker takes the next heartbeat.
pub proof fn lemma_failure_frees_the_worker(outcome: DeliveryOutcome)
    ensures
        accepts(WorkerPhase::Dispatching, WorkerSignal::Completed(outcome)),
        accepts(after(WorkerSignal::Completed(outcome)), WorkerSignal::Dequeued),
{
}

} // verus!
