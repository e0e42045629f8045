//! Core of a conversational agent runtime: the fixed cycle of cognitive
//! action states, a token-budgeted conversation log, the prompt assembler,
//! the command interpreter, and the channel fan-out that connects the agent
//! loop to its integrations.

pub mod action;
pub mod agent;
pub mod commands;
pub mod comms;
pub mod format;
pub mod llm;
pub mod log;
pub mod message;
pub mod preamble;
pub mod settings;
pub mod severity;
pub mod statemachine;
pub mod subprocess;
