//! Plain data exchanged with the source host and the completion service.

pub mod github_response;
pub mod openai_response;
