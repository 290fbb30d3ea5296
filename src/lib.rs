//! Activity telemetry relay: turns editor document activity into heartbeat
//! records and decides how each record is delivered to a time-tracking service.

pub mod cell;
pub mod config;
pub mod dispatch;
pub mod event;
pub mod handler;
pub mod heartbeat;
pub mod json;
pub mod project;

pub use cell::ConfigCell;
pub use config::WakaTimeConfig;
pub use dispatch::{
    classify_status, plan_dispatch, step, DeliveryOutcome, Dispatch, HttpRequest, WorkerPhase,
    WorkerSignal,
};
pub use event::{Timestamp, WakaTimeCategory, WakaTimeEntityType, WakaTimeEvent};
pub use handler::{send_document_heartbeat, Handler, Worker};
pub use heartbeat::{get_language_name, heartbeat_for, DocumentInfo};
pub use project::{ancestors, get_project_name, marker_paths, project_name_given};
