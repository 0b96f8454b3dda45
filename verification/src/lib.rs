//! Tenant-scoped gateway core: resolves an organization to its Salesforce
//! client, keeps that client's session token fresh, and shapes the requests
//! and responses exchanged with the Salesforce REST API.

pub mod clock;
pub mod config;
pub mod errors;
pub mod json;
pub mod organization;
pub mod requests;
pub mod responses;
pub mod salesforce;
pub mod text;
pub mod token;
