//! Plugin selection for a modular server build: a request for standard and
//! remote plugins is resolved into one ordered plan without repeated names.

pub mod catalog;
pub mod error;
pub mod identity;
pub mod plan;
pub mod request;
pub mod resolver;
pub mod rules;
pub mod search;
pub mod std_plugins;
pub mod text;
