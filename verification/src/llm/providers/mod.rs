//! Adapters for individual providers.

pub mod base;
pub mod openai;
pub mod openai_compatible;
pub mod openai_variants;
pub mod anthropic;
pub mod google;
