//! The shim's state: the platform it runs on, whether the services provider
//! has been registered, and the write-once application handle.

use vstd::prelude::*;
use crate::handle_cell::HandleCell;
use crate::handle_cell::spec_store;

verus! {

/// The shim's state as the contracts see it.
pub struct ShimView {
    /// Whether the process runs on the target platform; off it, the entry
    /// points are no-ops.
    pub on_target: bool,
    /// Whether the services provider has been installed.
    pub registered: bool,
    /// The stored application handle, if one has been stored.
    pub handle: Option<u64>,
}

impl ShimView {
    /// Off the target platform nothing is ever stored or registered.
    pub open spec fn wf(self) -> bool {
        !self.on_target ==> (self.handle is None && !self.registered)
    }
}

/// The state a freshly created shim is in.
pub open spec fn spec_new_shim(on_target: bool) -> ShimView {
    ShimView { on_target, registered: false, handle: None }
}

/// What storing `handle` leaves behind: on the target platform the slot
/// takes its first write and ignores every later one; elsewhere nothing
/// happens.
pub open spec fn spec_store_app_handle(v: ShimView, handle: u64) -> ShimView {
    if v.on_target {
        ShimView { handle: spec_store(v.handle, handle), ..v }
    } else {
        v
    }
}

/// What registering the services provider leaves behind: on the target
/// platform it is recorded; elsewhere nothing happens.
pub open spec fn spec_register_services(v: ShimView) -> ShimView {
    if v.on_target {
        ShimView { registered: true, ..v }
    } else {
        v
    }
}

/// The process-wide shim state: platform flag, registration flag, and the
/// write-once application handle slot.
pub struct ServicesShim {
    on_target: bool,
    registered: bool,
    slot: HandleCell,
}

impl View for ServicesShim {
    type V = ShimView;

    closed spec fn view(&self) -> ShimView {
        ShimView {
            on_target: self.on_target,
            registered: self.registered,
            handle: self.slot@,
        }
    }
}

impl ServicesShim {
    /// A shim for the given platform, with nothing stored and nothing
    /// registered yet.
    pub fn new(on_target: bool) -> (shim: ServicesShim)
        ensures
            shim@ == spec_new_shim(on_target),
            shim@.wf(),
    {
        ServicesShim { on_target, registered: false, slot: HandleCell::new() }
    }
}

/// Stores the application handle. On the target platform the first call
/// stores it and every later call is silently ignored; off the target
/// platform the call has no effect at all. No error is ever reported.
pub fn store_app_handle(shim: &mut ServicesShim, handle: u64)
    ensures
        final(shim)@ == spec_store_app_handle(old(shim)@, handle),
        old(shim)@.wf() ==> final(shim)@.wf(),
{
    if shim.on_target {
        shim.slot.store(handle);
    }
}

/// Records the installation of the services provider. On the target
/// platform it must not already have been registered (the underlying
/// registration primitive aborts on a duplicate); off the target platform
/// the call has no effect at all.
pub fn register_services(shim: &mut ServicesShim)
    requires
        old(shim)@.on_target ==> !old(shim)@.registered,
    ensures
        final(shim)@ == spec_register_services(old(shim)@),
        old(shim)@.wf() ==> final(shim)@.wf(),
{
    if shim.on_target {
        shim.registered = true;
    }
}

/// The stored application handle, or `None` when none has been stored yet.
/// Reading never fails, however early it happens.
pub fn get_app_handle(shim: &ServicesShim) -> (handle: Option<u64>)
    ensures
        handle == shim@.handle,
{
    shim.slot.get()
}

/// Whether the services provider has been registered.
pub fn services_registered(shim: &ServicesShim) -> (registered: bool)
    ensures
        registered == shim@.registered,
{
    shim.registered
}

/// Write-once: a second store changes nothing — storing is idempotent by
/// ignoring — and on the target platform a slot that was empty keeps the
/// first-stored handle whatever is stored afterwards.
pub proof fn lemma_store_write_once(v: ShimView, first: u64, second: u64)
    ensures
        spec_store_app_handle(spec_store_app_handle(v, first), second)
            == spec_store_app_handle(v, first),
        (v.on_target && v.handle is None) ==>
            spec_store_app_handle(spec_store_app_handle(v, first), second).handle
                == Some(first),
{
}

/// Before the first store the handle reads as absent: a fresh shim holds no
/// handle, and registering the services provider does not put one there.
pub proof fn lemma_absent_before_first_store(on_target: bool, v: ShimView)
    ensures
        spec_new_shim(on_target).handle is None,
        spec_register_services(v).handle == v.handle,
{
}

/// Off the target platform both entry points leave the shim exactly as it
/// was: no handle appears and no registration is recorded.
pub proof fn lemma_non_target_no_effect(v: ShimView, handle: u64)
    requires
        !v.on_target,
    ensures
        spec_store_app_handle(v, handle) == v,
        spec_register_services(v) == v,
{
}

} // verus!
