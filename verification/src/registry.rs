//! The registry: at most one "current" ROM behind a reader-writer guard.
//! Readers obtain reference-counted handles, so a superseded ROM stays
//! alive until its last in-flight reader is done; a publish is a cheap
//! handle swap and never blocks behind other readers for long.
use vstd::prelude::*;

use std::sync::Arc;
use vstd::rwlock::{RwLock, RwLockPredicate};

use crate::rom::Rom;

verus! {

/// The slot invariant: any ROM value may be stored (a `Rom` carries its own
/// type invariant), including none at all before the first publish.
pub struct RomSlot {}

impl RwLockPredicate<Option<Arc<Rom>>> for RomSlot {
    open spec fn inv(self, v: Option<Arc<Rom>>) -> bool {
        true
    }
}

/// Relies on `Arc::clone`: the clone is a new handle to the same value,
/// and keeps that value alive while the handle exists.
#[verifier::external_body]
fn clone_handle(a: &Arc<Rom>) -> (r: Arc<Rom>)
    ensures
        r == *a,
{
    Arc::clone(a)
}

/// Holds the single current ROM handle. Many readers may hold handles at
/// once; a publish atomically replaces the slot and serializes only against
/// other writers and in-flight slot reads.
pub struct RomRegistry {
    slot: RwLock<Option<Arc<Rom>>, RomSlot>,
}

impl RomRegistry {
    /// A fresh registry with no ROM published.
    pub fn new() -> RomRegistry {
        RomRegistry { slot: RwLock::new(None, Ghost(RomSlot {})) }
    }

    /// Fetch a handle to the current ROM, or nothing before the first
    /// publish. The handle stays valid even if a newer ROM is published
    /// while the caller is still hashing against it.
    pub fn get(&self) -> (r: Option<Arc<Rom>>) {
        let read_handle = self.slot.acquire_read();
        let cur: &Option<Arc<Rom>> = read_handle.borrow();
        let r: Option<Arc<Rom>> = match cur {
            Some(a) => Some(clone_handle(a)),
            None => None,
        };
        read_handle.release_read();
        r
    }

    /// Atomically replace the current ROM. The build already happened in
    /// full; this is only the handle swap. Readers that fetched the old
    /// handle keep it; readers that call `get` after this call returns see
    /// this ROM or a strictly newer one.
    pub fn publish(&self, rom: Rom) {
        let handle: Arc<Rom> = Arc::new(rom);
        let (_old, write_handle) = self.slot.acquire_write();
        write_handle.release_write(Some(handle));
    }

    /// Whether a ROM is currently published.
    pub fn is_initialized(&self) -> bool {
        let read_handle = self.slot.acquire_read();
        let cur: &Option<Arc<Rom>> = read_handle.borrow();
        let r: bool = cur.is_some();
        read_handle.release_read();
        r
    }
}

} // verus!
