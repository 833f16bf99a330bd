//! Decisions behind the workspace variable endpoints: references between
//! resources and variables, the update statement, and the step machines
//! that drive each endpoint through its database and crypto work.

pub mod json;
pub mod endpoint_laws;
pub mod laws;
pub mod naming;
pub mod protocol;
pub mod read;
pub mod service;
pub mod sql;
pub mod text;
pub mod update;
pub mod write;
