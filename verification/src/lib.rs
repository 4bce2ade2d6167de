//! Live-session core of a collaborative document editor.
//!
//! Clients connect to one document each, receive its current content, send
//! whole-content edits that reach every other viewer, and have their work
//! written back to the durable store when the last of them leaves, when the
//! document lies idle, or when the periodic sweep comes by.
//!
//! The crate decides; the program around it performs. Every piece of
//! input/output (the permission query, the cache, the fan-out channel, the
//! document store, the client connection) is carried out by the caller, which
//! hands the result back as a [`protocol::Event`] and receives the next
//! [`protocol::Command`].
//!
//! - [`role`], [`permission`]: who may do what.
//! - [`keys`], [`document_id`]: how documents are named in the cache, on the
//!   channel and in the store.
//! - [`registry`]: how many sessions are attached to each document.
//! - [`session`], [`flush`], [`sweep`], [`relay`]: the state machines.
//! - [`requests`]: the requests of the service and the rules over them.
//! - [`model`], [`session_laws`], [`close_laws`], [`flush_laws`]: what is
//!   proved of the state machines, over a model of their surroundings.

pub mod role;
pub mod permission;
pub mod keys;
pub mod document_id;
pub mod registry;
pub mod protocol;
pub mod session;
pub mod flush;
pub mod sweep;
pub mod relay;
pub mod requests;
pub mod model;
pub mod session_laws;
pub mod close_laws;
pub mod flush_laws;
