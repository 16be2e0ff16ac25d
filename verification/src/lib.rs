//! Zero: the verified core of an agent runtime.
//!
//! The crate holds the decision logic of the agent loop and of streamed
//! answers, the loop's configuration, the message model with its token
//! estimate and context compaction, the terminal front end's state machine
//! and key bindings, the choices of the command-line front end, the session
//! store and the request rules of the task API, the input checks of the
//! security layer, the configuration defaults, and the coordination policies.

pub mod agent;
pub mod agent_loop;
pub mod api;
pub mod channel;
pub mod cli;
pub mod config;
pub mod context_manager;
pub mod coordinator;
pub mod error;
pub mod hooks;
pub mod ids;
pub mod keys;
pub mod loop_config;
pub mod message;
pub mod security;
pub mod sessions;
pub mod streaming;
pub mod text;
pub mod token_counter;
pub mod tui;
