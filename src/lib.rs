//! Translation of agent reasoning through an external command: the request
//! and response protocol, the decisions of the bounded process runner, and the
//! ordering barrier that keeps translated output in step with the UI.

pub mod orchestrator;
pub mod protocol;
pub mod runner;
pub mod service;
pub mod statusline;
pub mod text;
pub mod text_map;
pub mod warnings;
