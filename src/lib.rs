//! Turns issue and pull-request records into chat messages: a reference
//! extractor, a uniform view over both record shapes, a message formatter,
//! and the decisions of the lookup and webhook request flows.

pub mod flows;
pub mod github;
pub mod reference;
pub mod routes;
pub mod slack;
pub mod text;
pub mod timestamp;
