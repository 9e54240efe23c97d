//! Session lifecycle and command dispatch in front of a wallet engine.
//!
//! A process keeps at most one wallet session. This crate decides how that
//! session is brought up, creating a new wallet or resuming the persisted
//! one, how it is torn down, and how a named command reaches it: inline
//! for the caller to wait on, or detached with an acknowledgement at once.
//!
//! The crate never touches an engine, the network or a disk. Each entry
//! point ([`initialize_new`], [`initialize_existing`], [`exec`]) hands back
//! a [`Phase`] that names the outside work to do next. A driver does that
//! work, reports the outcome as an [`Event`] to [`advance`], and goes on
//! with the phase it gets back until that phase is `Finished` and holds the
//! reply. The session itself lives in a [`SessionRegistry`], which the
//! driver guards with a lock of its own when several threads share it.
//!
//! What the manager does is stated once, over mathematical values, in
//! [`model`]; every function here is proved to do exactly that, and [`laws`]
//! holds what follows for whole runs.

pub mod command;
pub mod height;
pub mod laws;
pub mod lifecycle;
pub mod machine;
pub mod model;
pub mod protocol;
pub mod registry;
pub mod reply;
pub mod router;
pub mod text;

pub use lifecycle::{deinitialize, initialize, initialize_existing, initialize_new};
pub use machine::advance;
pub use protocol::{Event, Phase};
pub use registry::SessionRegistry;
pub use router::exec;
