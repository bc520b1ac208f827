//! A small envelope protocol for talking to AI model backends.
//!
//! A request is an envelope: a magic text, a version, a command of the form
//! `agent:action` and a payload. A registry routes an envelope to the agent
//! that its command names. A store keeps the messages of conversations and
//! drops conversations that have not been used for too long. A decoder turns
//! a chunked answer of a backend into a stream of tokens.
//!
//! The modules, from the leaves up:
//!
//! - [`text`]: splitting, trimming and comparing text.
//! - [`json`]: the few things that are done with JSON values.
//! - [`system`]: the clock and fresh identifiers.
//! - [`agent`]: the envelope, the agent contract and the registry.
//! - [`testing`]: the seam between an agent and the network.
//! - [`agent_openai`], [`agent_deepseek`]: the agents for two chat APIs.
//! - [`auth`]: bearer tokens.
//! - [`conversation`]: conversations and their store.
//! - [`streaming`]: the stream decoder.
//! - [`client`]: building and sending envelopes.
//! - [`server`]: what a server answers.
//!
//! Every function states what it returns and changes, and the statement is
//! proved. The exceptions are the calls into `serde_json`, `uuid` and the
//! parts of the standard library that have no specification: their
//! contracts, in [`json`], [`system`] and [`text`], are taken on trust and
//! say so.

pub mod agent;
pub mod agent_deepseek;
pub mod agent_openai;
pub mod auth;
pub mod client;
pub mod conversation;
pub mod json;
pub mod server;
pub mod streaming;
pub mod system;
pub mod testing;
pub mod text;
