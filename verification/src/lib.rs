//! Conversation state, request building and screen-state rules of a terminal
//! chat client for locally served language models.

pub mod app_state;
pub mod llm_context;
pub mod models;
pub mod custom_views;
