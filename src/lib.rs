//! Reconciliation core of a connector that keeps message-broker clusters
//! (topics, ACLs and quotas) in line with declared resource files.

pub mod addr;
pub mod config;
pub mod connector;
pub mod exec;
pub mod op;
pub mod plan;
pub mod resource;
pub mod text;
