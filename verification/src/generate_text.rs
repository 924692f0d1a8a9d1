//! Text generation: tool calls, results and errors, step results, the
//! messages a step adds to the conversation, and the decisions of the
//! multi-step loop.

pub mod as_content;
pub mod callbacks;
pub mod content;
pub mod execute_tool_call;
pub mod multi_step;
pub mod parse_tool_call;
pub mod prepare_tools;
pub mod response;
pub mod result;
pub mod step_result;
pub mod tool_types;
