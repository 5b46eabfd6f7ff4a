//! Running a tunnel role as a Windows service.
//!
//! Everything here is a decision: which request the Service Control Manager
//! (SCM) is sent next, what a reply means, which text the operator reads, and
//! which status the running service reports. Performing the requests is left
//! to a driver outside this library.
pub mod control;
pub mod control_laws;
pub mod error;
pub mod host;
pub mod host_laws;
pub mod location;
pub mod names;
pub mod operation_laws;
pub mod policy;
pub mod request;
pub mod status;
pub mod text;
pub mod wide;
