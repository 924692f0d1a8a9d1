use vstd::prelude::*;

verus! {

/// A call of a tool by the model, with typed input.
#[derive(Debug, Clone, PartialEq)]
pub struct ToolCall<I> {
    pub tool_call_id: String,
    pub tool_name: String,
    pub input: I,
    pub provider_executed: Option<bool>,
    pub dynamic: Option<bool>,
}

/// `Option::unwrap_or(false)` of a flag.
pub open spec fn flag_set(flag: Option<bool>) -> bool {
    match flag {
        Some(b) => b,
        None => false,
    }
}

impl<I> ToolCall<I> {
    pub fn new(tool_call_id: &str, tool_name: &str, input: I) -> (c: Self)
        ensures
            c.tool_call_id@ == tool_call_id@,
            c.tool_name@ == tool_name@,
            c.input == input,
            c.provider_executed is None,
            c.dynamic is None,
    {
        ToolCall {
            tool_call_id: tool_call_id.to_owned(),
            tool_name: tool_name.to_owned(),
            input,
            provider_executed: None,
            dynamic: None,
        }
    }

    pub fn with_provider_executed(self, executed: bool) -> (c: Self)
        ensures
            c == (ToolCall { provider_executed: Some(executed), ..self }),
    {
        ToolCall { provider_executed: Some(executed), ..self }
    }

    pub fn with_dynamic(self, dynamic: bool) -> (c: Self)
        ensures
            c == (ToolCall { dynamic: Some(dynamic), ..self }),
    {
        ToolCall { dynamic: Some(dynamic), ..self }
    }

    pub fn is_provider_executed(&self) -> (b: bool)
        ensures
            b == flag_set(self.provider_executed),
    {
        match self.provider_executed {
            Some(b) => b,
            None => false,
        }
    }

    pub fn is_dynamic(&self) -> (b: bool)
        ensures
            b == flag_set(self.dynamic),
    {
        match self.dynamic {
            Some(b) => b,
            None => false,
        }
    }
}

/// The result of a tool call, with typed input and output.
#[derive(Debug, Clone, PartialEq)]
pub struct ToolResult<I, O> {
    pub tool_call_id: String,
    pub tool_name: String,
    pub input: I,
    pub output: O,
    pub provider_executed: Option<bool>,
    pub dynamic: Option<bool>,
}

impl<I, O> ToolResult<I, O> {
    pub fn new(tool_call_id: &str, tool_name: &str, input: I, output: O) -> (r: Self)
        ensures
            r.tool_call_id@ == tool_call_id@,
            r.tool_name@ == tool_name@,
            r.input == input,
            r.output == output,
            r.provider_executed is None,
            r.dynamic is None,
    {
        ToolResult {
            tool_call_id: tool_call_id.to_owned(),
            tool_name: tool_name.to_owned(),
            input,
            output,
            provider_executed: None,
            dynamic: None,
        }
    }

    pub fn with_provider_executed(self, executed: bool) -> (r: Self)
        ensures
            r == (ToolResult { provider_executed: Some(executed), ..self }),
    {
        ToolResult { provider_executed: Some(executed), ..self }
    }

    pub fn with_dynamic(self, dynamic: bool) -> (r: Self)
        ensures
            r == (ToolResult { dynamic: Some(dynamic), ..self }),
    {
        ToolResult { dynamic: Some(dynamic), ..self }
    }

    pub fn is_provider_executed(&self) -> (b: bool)
        ensures
            b == flag_set(self.provider_executed),
    {
        match self.provider_executed {
            Some(b) => b,
            None => false,
        }
    }

    pub fn is_dynamic(&self) -> (b: bool)
        ensures
            b == flag_set(self.dynamic),
    {
        match self.dynamic {
            Some(b) => b,
            None => false,
        }
    }
}

} // verus!
