pub mod llm_prompt_view;
pub mod spinner_view;
