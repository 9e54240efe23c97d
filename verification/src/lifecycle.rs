//! Bringing a session up and tearing it down.

use vstd::prelude::*;
use crate::model;
use crate::protocol::Phase;
use crate::registry::SessionRegistry;

verus! {

/// Starts creating a new session: the chain height is asked for first, so
/// that the engine can be seeded below the tip.
pub fn initialize_new<E>() -> (phase: Phase<E>)
    ensures
        phase@ == model::begin_new::<E>(),
{
    Phase::QueryingHeight
}

/// Starts resuming the persisted session.
pub fn initialize_existing<E>() -> (phase: Phase<E>)
    ensures
        phase@ == model::begin_existing::<E>(),
{
    Phase::Restoring
}

/// Starts bringing a session up, resuming the persisted one if
/// `storage_exists` and creating a new one otherwise.
pub fn initialize<E>(storage_exists: bool) -> (phase: Phase<E>)
    ensures
        phase@ == model::begin::<E>(storage_exists),
{
    if storage_exists {
        initialize_existing()
    } else {
        initialize_new()
    }
}

/// Tears the session down: the registry is empty afterwards. The background
/// monitor is not stopped here; it ends with the engine, once the last
/// handle is gone.
pub fn deinitialize<E>(registry: &mut SessionRegistry<E>)
    ensures
        final(registry)@ == model::torn_down(old(registry)@),
        final(registry)@ is None,
{
    registry.clear();
}

} // verus!
