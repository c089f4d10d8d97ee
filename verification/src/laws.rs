//! What single operations promise, said of their inputs and results alone.

pub mod application;
pub mod blueprint;
pub mod endpoint;
pub mod external;
pub mod http_fixture;
pub mod json;
pub mod local_model;
pub mod method;
pub mod mutation;
pub mod native_fixture;
pub mod operational;
pub mod paths;
pub mod proposal;
pub mod qualification;
pub mod review;
pub mod runs;
pub mod scenario;
pub mod service;
pub mod statements;
pub mod study;
pub mod text;
