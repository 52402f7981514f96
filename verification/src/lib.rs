//! Verified execution protocols for AI agents: a deterministic task state
//! machine, artifact contracts checked against collected evidence, a policy
//! engine gating sensitive actions, and the pure decision logic of the web
//! tools and the execution engine built on them.

pub mod artifact;
pub mod checkpoint;
pub mod engine;
pub mod error;
pub mod id;
pub mod intent;
pub mod json;
pub mod policy;
pub mod search;
pub mod server;
pub mod state;
pub mod text;
pub mod time;
pub mod tool;
pub mod web;
pub mod web_tools;
