//! What finished scenarios have shown, stated over the answers that they were given.
//!
//! In a record, `said(record, i)` is the value of the answer to the action at place `i` of the
//! script, `told(record, i)` the document of a client's answer to the command there, and
//! `record[i]` what was known before the statement there.

pub mod controller;
pub mod documents;
pub mod external;
pub mod headless;
pub mod independent;
pub mod learning;
pub mod local_model;
pub mod model_contracts;
pub mod sessions;
pub mod slotbook;
