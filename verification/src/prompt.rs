//! Prompts in the formats that instruction-tuned models expect.
pub mod llama3_instruct;
