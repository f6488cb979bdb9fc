//! Threads that may borrow from the scope that spawns them.
//!
//! The library keeps the rules of a scoped thread: the builder's
//! configuration, and the protocol around the one-shot join primitive
//! (completion queries, a single join, the join owed at destruction and
//! the poll of a cooperative scheduler). The thread itself is started and
//! joined by the caller through the primitive it hands to [`JoinSlot`].
use vstd::prelude::*;

pub mod slot;

pub use slot::{JoinSlot, Readiness};

verus! {

/// A one-shot unit of work that can be sent to another thread.
pub trait ThreadFn<Output>: FnOnce() -> Output + Send {}

impl<Output, T: FnOnce() -> Output + Send> ThreadFn<Output> for T {

}

/// Configuration gathered before a scoped thread is spawned.
#[derive(Debug)]
pub struct RaiiThreadBuilder {
    /// The display name handed to the operating system, if any.
    pub name: Option<String>,
}

impl Default for RaiiThreadBuilder {
    fn default() -> (r: Self)
        ensures
            r.name is None,
    {
        RaiiThreadBuilder { name: None }
    }
}

impl RaiiThreadBuilder {
    /// A builder with no configuration.
    pub fn new() -> (r: Self)
        ensures
            r.name is None,
    {
        RaiiThreadBuilder { name: None }
    }

    /// Set the thread's name; a name given earlier is replaced.
    pub fn name(self, name: String) -> (r: Self)
        ensures
            r.name == Some(name),
    {
        let mut b = self;
        b.name = Some(name);
        b
    }
}

} // verus!
