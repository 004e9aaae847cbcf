//! Participants that answer message envelopes.
//!
//! A participant takes a request envelope and gives a response envelope, whoever answers
//! behind it: a provider in the process, a child process that speaks envelopes, a peer
//! behind a mailbox, or the command line of an agent. Here are the decisions: what is
//! handed to the other side, what is done next, and what the reply is. Starting
//! processes, sleeping, reading clocks and writing files is left to the host, which
//! performs an action and hands back what came of it.

pub mod agent_laws;
pub mod bytes;
pub mod capture;
pub mod capture_laws;
pub mod child;
pub mod child_laws;
pub mod child_outcome_laws;
pub mod error;
pub mod external;
pub mod external_laws;
pub mod local;
pub mod mailbox;
pub mod mailbox_laws;
pub mod message;
pub mod message_laws;
pub mod output;
pub mod output_laws;
pub mod outside;
pub mod participant;
pub mod record;
pub mod span;
pub mod subprocess;
pub mod testing;
pub mod text;
pub mod text_laws;
pub mod windows;
pub mod windows_laws;
