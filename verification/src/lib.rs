//! Verified cores of a set of chat-bot plugins.
//!
//! The moderation plugin decides, for one incoming message, which enforcement
//! actions to take, merges the actions of all triggered rules into one, and
//! drives their execution against the chat platform one request at a time.
//! Everything that talks to the platform is left to the caller: the functions
//! here hand out the next request and take back its result.
//!
//! Of the cat plugin, the library holds what it asks the image service and
//! which answers it accepts.

pub mod action;
pub mod cats;
pub mod execution_laws;
pub mod executor;
pub mod merge_laws;
pub mod message;
pub mod outcome;
pub mod platform;
pub mod plugin;
pub mod report;
pub mod requests;
pub mod rules;
pub mod settings;
pub mod text;
