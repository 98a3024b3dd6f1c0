//! Shared bus signals. A `Signal` is one electrical node; every `Connection`
//! made from it is a handle to the same storage cell, so that components
//! which are ticked one after the other see what the earlier ones drove.

use std::sync::{Arc, Mutex};
use vstd::prelude::*;

verus! {

/// `std::sync::Mutex`, as an opaque value: a contract can say which cell a
/// handle points to, never what the cell holds.
#[verifier::external_type_specification]
#[verifier::external_body]
#[verifier::reject_recursive_types(T)]
pub struct ExMutex<T: ?Sized>(Mutex<T>);

/// One node of the circuit: the cell that holds the level on a wire.
#[verifier::reject_recursive_types(T)]
pub struct Signal<T> {
    internal: Arc<Mutex<T>>,
}

/// A handle through which one component reads and drives a `Signal`.
#[verifier::reject_recursive_types(T)]
pub struct Connection<T> {
    internal: Arc<Mutex<T>>,
}

/// `Mutex::new`: a new cell, holding `value`. What a cell holds is shared
/// with every other handle and is not visible in contracts, so nothing is
/// claimed of the result.
#[verifier::external_body]
fn new_cell<T>(value: T) -> Mutex<T> {
    Mutex::new(value)
}

/// `Arc::clone`: a second pointer to the same allocation, so the result is
/// the cell that `cell` points to.
#[verifier::external_body]
fn share<T>(cell: &Arc<Mutex<T>>) -> (shared: Arc<Mutex<T>>)
    ensures
        shared == *cell,
{
    Arc::clone(cell)
}

/// `Mutex::lock`, then a clone of the value under the guard. A poisoned lock
/// is entered all the same, so the call does not panic. The value may have
/// been written through any handle: nothing is claimed of it.
#[verifier::external_body]
fn load<T: Clone>(cell: &Arc<Mutex<T>>) -> T {
    match cell.lock() {
        Ok(guard) => guard.clone(),
        Err(poisoned) => poisoned.into_inner().clone(),
    }
}

/// `Mutex::lock`, then `value` is put under the guard. A poisoned lock is
/// entered all the same, so the call does not panic. The cell is behind a
/// shared reference: no contract can speak of what it holds afterwards.
#[verifier::external_body]
fn store<T>(cell: &Arc<Mutex<T>>, value: T) {
    match cell.lock() {
        Ok(mut guard) => *guard = value,
        Err(poisoned) => *poisoned.into_inner() = value,
    }
}

impl<T> Signal<T> {
    /// The storage cell of this signal.
    pub closed spec fn node(&self) -> Mutex<T> {
        *self.internal
    }
}

impl<T> Connection<T> {
    /// The storage cell that this connection is wired to.
    pub closed spec fn node(&self) -> Mutex<T> {
        *self.internal
    }
}

impl<T> Clone for Signal<T> {
    /// The clone is the same node, not a copy of it.
    fn clone(&self) -> (signal: Self)
        ensures
            signal.node() == self.node(),
    {
        Self { internal: share(&self.internal) }
    }
}

impl<T: Default + Clone> Signal<T> {
    /// A new node, at the zero level of its type.
    pub fn new() -> Self {
        Self { internal: Arc::new(new_cell(T::default())) }
    }

    /// A new handle to this node.
    pub fn create_connection(&self) -> (connection: Connection<T>)
        ensures
            connection.node() == self.node(),
    {
        Connection { internal: share(&self.internal) }
    }
}

impl<T: Default + Clone> Connection<T> {
    /// The level on the wire now, read in one indivisible step.
    pub fn read_copy(&self) -> T {
        load(&self.internal)
    }

    /// Drives the wire to `val` in one indivisible step.
    pub fn write_copy(&self, val: T) {
        store(&self.internal, val)
    }
}

} // verus!
