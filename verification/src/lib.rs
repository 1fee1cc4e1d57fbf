//! A single-writer, sequential-apply engine.
//!
//! Concurrently submitted commands each receive a globally unique 64-bit
//! identifier, are funneled through one serial apply loop, and have their
//! results delivered back to the originating caller through single-use
//! response slots, with timeout and graceful-shutdown semantics.
//!
//! The engine exposes no wire protocol: a transport collaborator decodes
//! inbound requests into [`apply::Request`] envelopes, drives the serial
//! loop, and bounds each caller's wait.

pub mod apply;
pub mod echo;
pub mod errors;
pub mod id;
pub mod notify;
