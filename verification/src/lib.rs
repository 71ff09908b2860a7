//! armázem: the configuration, request-shaping and response logic of an S3
//! gateway and of the tool that publishes bundles to it, with contracts
//! proved by Verus.

pub mod bundle;
pub mod config;
pub mod health;
pub mod publish;
pub mod serving;
pub mod text;
