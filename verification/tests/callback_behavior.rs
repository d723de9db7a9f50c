//! Runtime behavior of the Services-menu callback decisions.

use macos_services::service::ServiceAction;
use macos_services::service::create_chat_event_name;
use macos_services::service::create_chat_service;
use macos_services::service::main_window_label;
use macos_services::service::on_main_window_lookup;
use macos_services::shim::ServicesShim;
use macos_services::shim::store_app_handle;

#[test]
fn no_handle_means_no_actions() {
    let shim = ServicesShim::new(true);
    let actions = create_chat_service(&shim);
    assert!(actions.is_empty());
}

#[test]
fn handle_and_window_give_full_trace() {
    let mut shim = ServicesShim::new(true);
    store_app_handle(&mut shim, 1);
    let mut trace = create_chat_service(&shim);
    trace.extend(on_main_window_lookup(&shim, true));
    assert_eq!(
        trace,
        vec![
            ServiceAction::RecreateMainWindow,
            ServiceAction::EmitCreateChat,
            ServiceAction::FocusMainWindow,
        ]
    );
}

#[test]
fn missing_window_stops_after_recreate() {
    let mut shim = ServicesShim::new(true);
    store_app_handle(&mut shim, 1);
    let mut trace = create_chat_service(&shim);
    trace.extend(on_main_window_lookup(&shim, false));
    assert_eq!(trace, vec![ServiceAction::RecreateMainWindow]);
}

#[test]
fn fixed_names() {
    assert_eq!(create_chat_event_name(), "create-chat");
    assert_eq!(main_window_label(), "main");
}
