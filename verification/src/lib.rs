//! Derives short-lived username/password credentials for a managed
//! source-control hosting service from ambient cloud credentials.
//!
//! The entry points are [`urlparse::request_region`], which decides whether a
//! repository URL belongs to the service and extracts its region, and
//! [`credential::synthesize_credential`], which computes the signed
//! credential for a matched target.

pub mod credential;
pub mod digest;
pub mod hostmatch;
pub mod signing;
pub mod timestamp;
pub mod urlparse;
