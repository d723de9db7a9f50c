//! A write-once slot for the application handle, backed by `once_cell`.

use vstd::prelude::*;

verus! {

/// The `once_cell` crate's write-once cell, declared so that it can appear
/// in fields of verified types. Verified code sees a value of it as opaque
/// and reasons about it only through `stored_value`.
#[verifier::external_type_specification]
#[verifier::external_body]
#[verifier::reject_recursive_types(T)]
pub struct ExOnceCell<T>(once_cell::sync::OnceCell<T>);

/// The value a cell currently holds, if any.
pub uninterp spec fn stored_value(cell: once_cell::sync::OnceCell<u64>) -> Option<u64>;

/// Relies on `once_cell::sync::OnceCell::new`: a fresh cell holds no value.
#[verifier::external_body]
fn empty_cell() -> (cell: once_cell::sync::OnceCell<u64>)
    ensures
        stored_value(cell) is None,
{
    once_cell::sync::OnceCell::new()
}

/// Relies on `once_cell::sync::OnceCell::set`: it stores the value and
/// returns `Ok` if the cell is empty, and otherwise leaves the cell
/// unchanged and returns `Err`.
#[verifier::external_body]
fn fill_cell(cell: &mut once_cell::sync::OnceCell<u64>, value: u64) -> (accepted: bool)
    ensures
        stored_value(*old(cell)) is None ==> stored_value(*final(cell)) == Some(value),
        stored_value(*old(cell)) is Some ==> stored_value(*final(cell)) == stored_value(*old(cell)),
        accepted == (stored_value(*old(cell)) is None),
{
    cell.set(value).is_ok()
}

/// Relies on `once_cell::sync::OnceCell::get`: it returns the stored value
/// if there is one and `None` otherwise.
#[verifier::external_body]
fn read_cell(cell: &once_cell::sync::OnceCell<u64>) -> (value: Option<u64>)
    ensures
        value == stored_value(*cell),
{
    cell.get().copied()
}

/// What one `store` call leaves in a slot that currently holds `current`:
/// the first write wins, every later one is ignored.
pub open spec fn spec_store(current: Option<u64>, handle: u64) -> Option<u64> {
    if current is None {
        Some(handle)
    } else {
        current
    }
}

/// A slot for the application handle that accepts exactly one write;
/// later writes are silently ignored and reads never fail.
pub struct HandleCell {
    cell: once_cell::sync::OnceCell<u64>,
}

impl View for HandleCell {
    type V = Option<u64>;

    closed spec fn view(&self) -> Option<u64> {
        stored_value(self.cell)
    }
}

impl HandleCell {
    /// A slot with nothing stored yet.
    pub fn new() -> (slot: HandleCell)
        ensures
            slot@ is None,
    {
        HandleCell { cell: empty_cell() }
    }

    /// Stores `handle` if the slot is still empty; otherwise leaves the
    /// first-stored value in place and reports no error.
    pub fn store(&mut self, handle: u64)
        ensures
            final(self)@ == spec_store(old(self)@, handle),
    {
        let _ = fill_cell(&mut self.cell, handle);
    }

    /// The stored handle, or `None` when nothing has been stored yet.
    pub fn get(&self) -> (handle: Option<u64>)
        ensures
            handle == self@,
    {
        read_cell(&self.cell)
    }
}

} // verus!
