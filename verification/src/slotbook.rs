//! The Slotbook method: its cases, its verifier, its client and its documents.

pub mod case;
pub mod service;
pub mod client;
pub mod qualification;
pub mod method;
pub mod learning;
pub mod study;
pub mod proposal;
