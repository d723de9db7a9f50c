//! The Services-menu callback's decisions, as data the platform glue
//! performs: which window calls, event emissions and focus requests one
//! callback invocation makes, and in what order.

use vstd::prelude::*;
use crate::shim::ServicesShim;
use crate::shim::get_app_handle;

verus! {

/// One externally visible step the callback asks the windowing layer to
/// take on its behalf.
#[derive(Clone, Copy, PartialEq, Eq, Debug, Structural)]
pub enum ServiceAction {
    /// Recreate (or reuse) the main window and make it visible.
    RecreateMainWindow,
    /// Emit the "create new chat" event on the main window.
    EmitCreateChat,
    /// Ask the operating system to give the main window keyboard focus.
    FocusMainWindow,
}

/// The actions decided before the main window is looked up: with a handle
/// stored the callback recreates the main window, without one it drops the
/// request and does nothing at all.
pub open spec fn spec_pre_lookup_actions(handle_present: bool) -> Seq<ServiceAction> {
    if handle_present {
        seq![ServiceAction::RecreateMainWindow]
    } else {
        Seq::empty()
    }
}

/// The actions decided after the main-window lookup: when the window was
/// found the callback emits the event and then requests focus; when the
/// lookup failed it does nothing further.
pub open spec fn spec_post_lookup_actions(window_found: bool) -> Seq<ServiceAction> {
    if window_found {
        seq![ServiceAction::EmitCreateChat, ServiceAction::FocusMainWindow]
    } else {
        Seq::empty()
    }
}

/// Every externally visible action of one whole callback invocation, in
/// order. The lookup outcome matters only when a handle is stored, because
/// only then is the lookup made at all.
pub open spec fn spec_callback_trace(handle_present: bool, window_found: bool) -> Seq<ServiceAction> {
    if !handle_present {
        Seq::empty()
    } else if window_found {
        seq![
            ServiceAction::RecreateMainWindow,
            ServiceAction::EmitCreateChat,
            ServiceAction::FocusMainWindow,
        ]
    } else {
        seq![ServiceAction::RecreateMainWindow]
    }
}

/// The callback's first decision, taken when the operating system delivers
/// a service request: with no handle stored the request is silently
/// dropped; with one stored the main window is recreated and made visible.
/// The caller performs the returned actions, and only when a handle was
/// stored looks the main window up and goes on with
/// `on_main_window_lookup`.
pub fn create_chat_service(shim: &ServicesShim) -> (actions: Vec<ServiceAction>)
    ensures
        actions@ == spec_pre_lookup_actions(shim@.handle is Some),
{
    let mut actions: Vec<ServiceAction> = Vec::new();
    if get_app_handle(shim).is_some() {
        actions.push(ServiceAction::RecreateMainWindow);
    }
    assert(actions@ =~= spec_pre_lookup_actions(shim@.handle is Some));
    actions
}

/// The callback's second decision, taken once the main window has been
/// looked up by its label: found, the event is emitted on it and focus is
/// requested, in that order; not found, the remaining steps are silently
/// skipped.
pub fn on_main_window_lookup(shim: &ServicesShim, window_found: bool) -> (actions: Vec<ServiceAction>)
    requires
        shim@.handle is Some,
    ensures
        actions@ == spec_post_lookup_actions(window_found),
{
    let mut actions: Vec<ServiceAction> = Vec::new();
    if window_found {
        actions.push(ServiceAction::EmitCreateChat);
        actions.push(ServiceAction::FocusMainWindow);
    }
    assert(actions@ =~= spec_post_lookup_actions(window_found));
    actions
}

/// The label under which the main window is looked up.
pub open spec fn spec_main_window_label() -> Seq<char> {
    "main"@
}

/// The label under which the main window is looked up.
pub fn main_window_label() -> (label: &'static str)
    ensures
        label@ == spec_main_window_label(),
{
    "main"
}

/// The fixed name of the event emitted on the main window.
pub open spec fn spec_create_chat_event_name() -> Seq<char> {
    "create-chat"@
}

/// The fixed name of the event emitted on the main window.
pub fn create_chat_event_name() -> (name: &'static str)
    ensures
        name@ == spec_create_chat_event_name(),
{
    "create-chat"
}

/// The two decision phases together make up exactly the callback's whole
/// trace: first the pre-lookup actions, then — only when a handle was
/// stored, since only then is the lookup made — the post-lookup actions.
pub proof fn lemma_trace_is_both_phases(handle_present: bool, window_found: bool)
    ensures
        spec_callback_trace(handle_present, window_found)
            =~= spec_pre_lookup_actions(handle_present)
                + (if handle_present {
                    spec_post_lookup_actions(window_found)
                } else {
                    Seq::<ServiceAction>::empty()
                }),
{
}

/// With no handle stored, a callback invocation performs no externally
/// visible action: no window call, no event, no focus request.
pub proof fn lemma_no_handle_no_actions(window_found: bool)
    ensures
        spec_callback_trace(false, window_found) =~= Seq::<ServiceAction>::empty(),
{
}

/// With a handle stored and the main window found, a callback invocation
/// performs exactly one recreate call, one event emission, and one focus
/// request, in that order.
pub proof fn lemma_full_service_trace()
    ensures
        spec_callback_trace(true, true) =~= seq![
            ServiceAction::RecreateMainWindow,
            ServiceAction::EmitCreateChat,
            ServiceAction::FocusMainWindow,
        ],
{
}

/// With a handle stored but the main-window lookup failing, a callback
/// invocation still recreates the window but emits no event and requests
/// no focus.
pub proof fn lemma_window_missing_trace()
    ensures
        spec_callback_trace(true, false) =~= seq![ServiceAction::RecreateMainWindow],
{
}

} // verus!
