//! The slot that holds the one active session.

use vstd::prelude::*;
use std::sync::Arc;

verus! {

/// A slot for at most one shared handle to an engine of type `E`.
///
/// The registry itself is plain data. Whoever shares it between threads
/// guards it with a lock, held for one call at a time and never while an
/// engine works.
pub struct SessionRegistry<E> {
    slot: Option<Arc<E>>,
}

impl<E> View for SessionRegistry<E> {
    type V = Option<E>;

    /// The engine of the active session, or `None` while there is none.
    closed spec fn view(&self) -> Option<E> {
        match self.slot {
            Some(handle) => Some(*handle),
            None => None,
        }
    }
}

impl<E> SessionRegistry<E> {
    /// An empty registry.
    pub fn new() -> (registry: Self)
        ensures
            registry@ is None,
    {
        SessionRegistry { slot: None }
    }

    /// Installs `handle`, replacing whatever was held before.
    pub fn set(&mut self, handle: Arc<E>)
        ensures
            final(self)@ == Some(*handle),
    {
        self.slot = Some(handle);
    }

    /// Another handle to the active session, if there is one.
    pub fn get(&self) -> (handle: Option<Arc<E>>)
        ensures
            match handle {
                Some(shared) => self@ == Some(*shared),
                None => self@ is None,
            },
    {
        match &self.slot {
            Some(handle) => Some(handle.clone()),
            None => None,
        }
    }

    /// Removes the handle. The engine lives on until its other holders let
    /// go of it.
    pub fn clear(&mut self)
        ensures
            final(self)@ is None,
    {
        self.slot = None;
    }

    /// Tells whether a session is active.
    pub fn is_active(&self) -> (active: bool)
        ensures
            active == self@.is_some(),
    {
        self.slot.is_some()
    }
}

} // verus!
