//! Runtime behavior of the handle slot and the two entry points.

use macos_services::handle_cell::HandleCell;
use macos_services::shim::ServicesShim;
use macos_services::shim::get_app_handle;
use macos_services::shim::register_services;
use macos_services::shim::services_registered;
use macos_services::shim::store_app_handle;

#[test]
fn handle_absent_before_first_store() {
    let shim = ServicesShim::new(true);
    assert_eq!(get_app_handle(&shim), None);
}

#[test]
fn first_store_is_kept() {
    let mut shim = ServicesShim::new(true);
    store_app_handle(&mut shim, 7);
    assert_eq!(get_app_handle(&shim), Some(7));
}

#[test]
fn second_store_is_ignored() {
    let mut shim = ServicesShim::new(true);
    store_app_handle(&mut shim, 7);
    store_app_handle(&mut shim, 9);
    assert_eq!(get_app_handle(&shim), Some(7));
}

#[test]
fn register_records_once() {
    let mut shim = ServicesShim::new(true);
    assert!(!services_registered(&shim));
    register_services(&mut shim);
    assert!(services_registered(&shim));
}

#[test]
fn register_leaves_handle_alone() {
    let mut shim = ServicesShim::new(true);
    register_services(&mut shim);
    assert_eq!(get_app_handle(&shim), None);
}

#[test]
fn non_target_entry_points_are_no_ops() {
    let mut shim = ServicesShim::new(false);
    store_app_handle(&mut shim, 3);
    register_services(&mut shim);
    assert_eq!(get_app_handle(&shim), None);
    assert!(!services_registered(&shim));
}

#[test]
fn bare_cell_is_write_once() {
    let mut slot = HandleCell::new();
    assert_eq!(slot.get(), None);
    slot.store(11);
    slot.store(12);
    assert_eq!(slot.get(), Some(11));
}
