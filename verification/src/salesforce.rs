//! The Salesforce side of the gateway: one client for each organization and
//! the resolver that hands them out.

pub mod lifecycle;
pub mod resolver;
pub mod service;
