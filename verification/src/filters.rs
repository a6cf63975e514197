//! Content filtering: rules, filter lists, per-site shields and the engine
//! that decides whether a request is blocked.

pub mod decision;
pub mod engine;
pub mod error;
pub mod model;
pub mod parser;
pub mod pattern;
pub mod rule;
pub mod shields;
pub mod target;
