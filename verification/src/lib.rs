//! Core of a terminal assistant for chat-completion services: the prompt's
//! autocomplete engine and the adapter that normalizes provider responses.

pub mod completion;
pub mod error;
pub mod json;
pub mod log_level;
pub mod model;
pub mod response;
