//! Data schemas, question categories and prompt templates used by the
//! conversation core.

pub mod categories;
pub mod prompts;
pub mod schemas;
