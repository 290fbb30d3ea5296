use vstd::prelude::*;

use crate::config::WakaTimeConfig;
use std::sync::Arc;

verus! {

#[verifier::external_type_specification]
#[verifier::external_body]
#[verifier::reject_recursive_types(R)]
#[verifier::reject_recursive_types(T)]
pub struct ExRwLock<R, T: ?Sized>(lock_api::RwLock<R, T>);

#[verifier::external_type_specification]
#[verifier::external_body]
pub struct ExRawRwLock(parking_lot::RawRwLock);

/// Relies on lock_api::RwLock::new (parking_lot's `RwLock`): a lock holding
/// no configuration yet.
#[verifier::external_body]
fn new_lock() -> (r: parking_lot::RwLock<Option<WakaTimeConfig>>) {
    parking_lot::RwLock::new(None)
}

/// Relies on lock_api::RwLock::read: a copy of the configuration held now,
/// taken under shared access. Writers on other threads may change it at any
/// time, so nothing is promised of the copy.
#[verifier::external_body]
fn read_lock(lock: &parking_lot::RwLock<Option<WakaTimeConfig>>) -> (r: Option<WakaTimeConfig>) {
    lock.read().clone()
}

/// Relies on lock_api::RwLock::write: replaces the configuration held, under
/// exclusive access.
#[verifier::external_body]
fn write_lock(lock: &parking_lot::RwLock<Option<WakaTimeConfig>>, config: WakaTimeConfig) {
    *lock.write() = Some(config);
}

/// The shared, replaceable configuration: written by the host, read by the
/// delivery worker as a snapshot per heartbeat.
pub struct ConfigCell {
    inner: Arc<parking_lot::RwLock<Option<WakaTimeConfig>>>,
}

impl ConfigCell {
    /// A cell that holds no configuration yet.
    pub fn new() -> (r: ConfigCell) {
        ConfigCell { inner: Arc::new(new_lock()) }
    }

    /// A second handle on the same cell.
    pub fn share(&self) -> (r: ConfigCell) {
        ConfigCell { inner: self.inner.clone() }
    }

    /// The configuration held now, copied out so that a later replacement
    /// leaves the copy as it was.
    pub fn snapshot(&self) -> (r: Option<WakaTimeConfig>) {
        read_lock(&self.inner)
    }

    /// Replaces the configuration held.
    pub fn replace(&self, config: WakaTimeConfig) {
        write_lock(&self.inner, config)
    }
}

} // verus!
