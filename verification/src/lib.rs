//! Routing core of a payment gateway adapter: request parsing, credential
//! resolution, operation dispatch and the wire contract of the remote
//! payment API, stated as contracts and proved.

pub mod encoding;
pub mod errors;
pub mod factory;
pub mod handler;
pub mod json;
pub mod models;
pub mod parser;
pub mod processors;
pub mod remote;
pub mod services;
pub mod text;
