pub mod application;
pub mod blueprint;
pub mod digest;
pub mod endpoint;
pub mod external;
pub mod failure;
pub mod findings;
pub mod harness;
pub mod http_fixture;
pub mod json;
pub mod laws;
pub mod local_model;
pub mod makers;
pub mod mutation;
pub mod native_fixture;
pub mod operational;
pub mod order;
pub mod outcomes;
pub mod paths;
pub mod plans;
pub mod record;
pub mod render;
pub mod review;
pub mod runs;
pub mod scenario;
pub mod scripts;
pub mod slotbook;
pub mod text;
pub mod timeline;
