//! The evidence scenarios, one script each.
//!
//! A script's actions name who performs them, in its first word:
//!
//! * `cli`, `cli-as`, `cli-input`, `call`, `command`, `resource`, `local`: a client command, under its
//!   own or another credential, with or without an input document.
//! * `client`, `submit`, `invoke`, `upload`: a request to a running daemon.
//! * `daemon`, `daemons`, `session`, `configure`: a daemon's life and configuration.
//! * `book`, `cancel`, `remaining`, `active`, `container`: a request to the service under test.
//! * `write`, `read`, `save`, `load`, `retain`, `hash`, `directory`, `credential`: a file.
//! * `build`, `document`, `method`, `render`, `decode`: a document of the workflow model.
//! * `artifacts`: the outputs of some attempts, each attempt behind its role, as
//!   `external::artifact_evidence` lists them; `build remediation` hands on what
//!   `documents::remediation_proposal` writes.
//! * `pause`, `follow`, `endpoint`, `requests`: time, a followed timeline and a controlled endpoint.
//!
//! The remaining words are the action's arguments; the reply is a document.

pub mod controller;
pub mod documents;
pub mod external;
pub mod headless;
pub mod independent;
pub mod learning;
pub mod local_model;
pub mod slotbook;
