//! Client model of an operating system's service-control subsystem.
//!
//! The crate covers the typed domain model for services (service type, start
//! type, error-control policy, state, control codes, exit codes), the
//! marshaling between the control manager's fixed-width wire records and that
//! model, and the decision logic of the two-phase enumeration protocol. The
//! privileged calls themselves are capabilities that a caller supplies from
//! outside this crate.

pub mod codes;
pub mod error;
pub mod service;
pub mod service_manager;
pub mod text;
