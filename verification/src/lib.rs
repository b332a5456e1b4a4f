//! A relay between a chat transport and a text-generation backend that keeps
//! one conversation context per user.

pub mod backend;
pub mod config;
pub mod context;
pub mod dispatch;
pub mod model;
pub mod prompt;
pub mod store;
