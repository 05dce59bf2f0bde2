//! A verified core for a generic AI agent framework: message and provider
//! handling, organizational roles, workflows, sagas and storage.

pub mod a2a;
pub mod agent;
pub mod api;
pub mod cache;
pub mod config;
pub mod daemon;
pub mod desktop;
pub mod error;
pub mod ids;
pub mod knowledge;
pub mod json;
pub mod llm;
pub mod mcp;
pub mod memory;
pub mod organization;
pub mod saga;
pub mod strmap;
pub mod text;
pub mod tools;
pub mod ui_workflow_storage;
pub mod unified_storage;
pub mod workflow;
