use vstd::prelude::*;

use crate::cell::ConfigCell;
use crate::config::WakaTimeConfig;
use crate::dispatch::{plan_dispatch, planned, Dispatch};
use crate::event::WakaTimeEvent;
use crate::heartbeat::{document_heartbeat, is_tracked, DocumentInfo};
use tokio::sync::mpsc::{UnboundedReceiver, UnboundedSender};

verus! {

#[verifier::external_type_specification]
#[verifier::external_body]
#[verifier::reject_recursive_types(T)]
pub struct ExUnboundedSender<T>(tokio::sync::mpsc::UnboundedSender<T>);

#[verifier::external_type_specification]
#[verifier::external_body]
#[verifier::reject_recursive_types(T)]
pub struct ExUnboundedReceiver<T>(tokio::sync::mpsc::UnboundedReceiver<T>);

/// Relies on tokio::sync::mpsc::unbounded_channel: the two ends of a new
/// unbounded queue.
#[verifier::external_body]
fn open_queue() -> (r: (UnboundedSender<WakaTimeEvent>, UnboundedReceiver<WakaTimeEvent>)) {
    tokio::sync::mpsc::unbounded_channel()
}

/// Relies on tokio::sync::mpsc::UnboundedSender::send: queues the heartbeat
/// without waiting, and fails only when the receiving end is gone. Whether it
/// is gone is not known here, so nothing is promised of the answer.
#[verifier::external_body]
fn enqueue(sender: &UnboundedSender<WakaTimeEvent>, event: WakaTimeEvent) -> (r: bool) {
    sender.send(event).is_ok()
}

/// The consuming side: the queue's receiving end and the shared
/// configuration it reads for every heartbeat.
pub struct Worker {
    pub receiver: UnboundedReceiver<WakaTimeEvent>,
    config: ConfigCell,
}

/// The producing side: queues heartbeats without waiting and owns the
/// configuration cell.
pub struct Handler {
    pub sender: UnboundedSender<WakaTimeEvent>,
    config: ConfigCell,
    worker: Option<Worker>,
}

impl Handler {
    /// A handler with a new queue and a cell that holds no configuration yet.
    /// Its worker is handed out once, by `take_worker`.
    pub fn new() -> (r: Handler)
        ensures
            r.has_worker(),
    {
        let (sender, receiver) = open_queue();
        let config = ConfigCell::new();
        let worker = Worker { receiver, config: config.share() };
        Handler { sender, config, worker: Some(worker) }
    }

    /// Whether the worker has not been handed out yet.
    pub closed spec fn has_worker(&self) -> bool {
        self.worker is Some
    }

    /// Hands out the worker that consumes this handler's queue; the first call
    /// gets it and later calls get nothing.
    pub fn take_worker(&mut self) -> (r: Option<Worker>)
        ensures
            r is Some <==> old(self).has_worker(),
            !final(self).has_worker(),
    {
        self.worker.take()
    }

    /// Replaces the configuration. A heartbeat already being delivered keeps
    /// the snapshot it was planned with.
    pub fn update_config(&self, wakatime_config: WakaTimeConfig) {
        self.config.replace(wakatime_config)
    }

    /// Queues a heartbeat for the worker; returns whether it was queued. A
    /// failure to queue is reported to the caller only by the answer.
    pub fn send_heartbeat(&self, event: WakaTimeEvent) -> (r: bool) {
        enqueue(&self.sender, event)
    }

    /// Records activity on a document: queues its heartbeat when `config`
    /// tracks it. Returns whether a heartbeat was queued; never when tracking
    /// is disabled or the document has no file behind it.
    pub fn record_activity(&self, doc: &DocumentInfo, is_write: bool, config: &WakaTimeConfig) -> (r:
        bool)
        requires
            doc.wf(),
        ensures
            r ==> is_tracked(*doc, *config),
    {
        send_document_heartbeat(&self.sender, doc, is_write, config)
    }
}

impl Worker {
    /// Decides what to do with a dequeued heartbeat, under the configuration
    /// held at this moment.
    pub fn process_event(&self, event: &WakaTimeEvent) -> (r: Dispatch)
        ensures
            exists|snapshot: Option<WakaTimeConfig>| planned(snapshot, *event, r),
    {
        let snapshot = self.config.snapshot();
        plan_dispatch(&snapshot, event)
    }
}

/// Queues the heartbeat for a document when `config` tracks it; returns
/// whether one was queued.
pub fn send_document_heartbeat(
    sender: &UnboundedSender<WakaTimeEvent>,
    doc: &DocumentInfo,
    is_write: bool,
    config: &WakaTimeConfig,
) -> (r: bool)
    requires
        doc.wf(),
    ensures
        r ==> is_tracked(*doc, *config),
{
    match document_heartbeat(doc, is_write, config) {
        Some(event) => enqueue(sender, event),
        None => false,
    }
}

} // verus!
