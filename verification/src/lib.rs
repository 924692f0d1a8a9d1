//! Core of an AI SDK: message and prompt types, tool-call bookkeeping, the
//! conversion of conversations into provider prompts, and the decisions that
//! drive multi-step generation, each stated and proved with Verus.

pub mod agent;
pub mod convert;
pub mod embed;
pub mod error;
pub mod generate_text;
pub mod json;
pub mod prompt;
pub mod provider;
pub mod rerank;
pub mod tool_call;
pub mod text;
pub mod tool;
pub mod retries;
pub mod stream_text;
pub mod seq_rel;
pub mod settings;
pub mod storage;

