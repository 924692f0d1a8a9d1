use super::tool_types::{
    DynamicToolError, DynamicToolResult, StaticToolError, StaticToolResult, ToolOutput, TypedToolCall,
    TypedToolError, TypedToolResult,
};
use crate::json::{json_parse, null_json};
use serde_json::Value;
use vstd::prelude::*;

verus! {

/// An event of a tool's execution.
#[derive(Debug, Clone, PartialEq)]
pub enum ToolExecutionEvent {
    /// An output that a streaming tool gave before its last one.
    Preliminary { output: Value },
    /// The tool's last output.
    Final { output: Value },
    /// The tool failed.
    Error { error: Value },
}

/// The state of a streaming tool's execution: the last output it gave.
#[derive(Debug, Clone, PartialEq)]
pub struct StreamingToolState {
    pub last_output: Option<Value>,
}

impl StreamingToolState {
    pub fn new() -> (s: Self)
        ensures
            s.last_output is None,
    {
        StreamingToolState { last_output: None }
    }

    /// An item of the tool's output stream: an output is passed on as a
    /// preliminary event and kept as the last output; an error ends the
    /// execution with an error event. The flag tells whether it ended.
    pub fn on_item(&mut self, item: Result<Value, Value>) -> (r: (ToolExecutionEvent, bool))
        ensures
            match item {
                Ok(o) => r == (ToolExecutionEvent::Preliminary { output: o }, false) && final(self).last_output
                    == Some(o),
                Err(e) => r == (ToolExecutionEvent::Error { error: e }, true) && final(self).last_output
                    == old(self).last_output,
            },
    {
        match item {
            Ok(o) => {
                self.last_output = Some(o.clone());
                (ToolExecutionEvent::Preliminary { output: o }, false)
            },
            Err(e) => (ToolExecutionEvent::Error { error: e }, true),
        }
    }

    /// The end of the tool's output stream: the last output, if any, as the
    /// final event.
    pub fn on_end(self) -> (r: Option<ToolExecutionEvent>)
        ensures
            match self.last_output {
                Some(o) => r == Some(ToolExecutionEvent::Final { output: o }),
                None => r is None,
            },
    {
        match self.last_output {
            Some(o) => Some(ToolExecutionEvent::Final { output: o }),
            None => None,
        }
    }
}

/// The event of a tool that gives a single output, or fails.
pub fn single_output_event(output: Result<Value, Value>) -> (e: ToolExecutionEvent)
    ensures
        match output {
            Ok(o) => e == ToolExecutionEvent::Final { output: o },
            Err(x) => e == ToolExecutionEvent::Error { error: x },
        },
{
    match output {
        Ok(o) => ToolExecutionEvent::Final { output: o },
        Err(x) => ToolExecutionEvent::Error { error: x },
    }
}

/// The run of one tool call: what is known of the call, and the output
/// that the tool last gave.
#[derive(Debug, Clone, PartialEq)]
pub struct ToolRun {
    pub tool_call_id: String,
    pub tool_name: String,
    pub input: Value,
    pub is_dynamic: bool,
    pub final_output: Option<Value>,
}

/// What a tool run does after an event.
#[derive(Debug, Clone, PartialEq)]
pub enum ToolRunStep {
    /// Passes on a preliminary result and goes on.
    Preliminary(TypedToolResult<Value, Value>),
    /// Goes on.
    Continue,
    /// Ends with this output.
    Done(ToolOutput<Value, Value>),
}

/// `r` is the result of the run with the given output.
pub open spec fn run_result(run: ToolRun, output: Value, r: TypedToolResult<Value, Value>) -> bool {
    if run.is_dynamic {
        r matches TypedToolResult::Dynamic(d) && d.result_type@ == "tool-result"@ && d.tool_call_id@
            == run.tool_call_id@ && d.tool_name@ == run.tool_name@ && d.input == run.input && d.output == output
            && d.provider_executed is None && d.dynamic && d.preliminary is None
    } else {
        r matches TypedToolResult::Static(s) && s.result_type@ == "tool-result"@ && s.tool_call_id@
            == run.tool_call_id@ && s.tool_name@ == run.tool_name@ && s.input == run.input && s.output == output
            && s.provider_executed is None && s.dynamic is None && s.preliminary is None
    }
}

/// `r` is the preliminary result of the run with the given output.
pub open spec fn preliminary_result(run: ToolRun, output: Value, r: TypedToolResult<Value, Value>) -> bool {
    if run.is_dynamic {
        r matches TypedToolResult::Dynamic(d) && d.result_type@ == "tool-result"@ && d.tool_call_id@
            == run.tool_call_id@ && d.tool_name@ == run.tool_name@ && d.input == run.input && d.output == output
            && d.provider_executed is None && d.dynamic && d.preliminary == Some(true)
    } else {
        r matches TypedToolResult::Static(s) && s.result_type@ == "tool-result"@ && s.tool_call_id@
            == run.tool_call_id@ && s.tool_name@ == run.tool_name@ && s.input == run.input && s.output == output
            && s.provider_executed is None && s.dynamic is None && s.preliminary == Some(true)
    }
}

/// `e` is the error of the run with the given error value.
pub open spec fn run_error(run: ToolRun, error: Value, e: TypedToolError<Value>) -> bool {
    if run.is_dynamic {
        e matches TypedToolError::Dynamic(d) && d.error_type@ == "tool-error"@ && d.tool_call_id@ == run.tool_call_id@
            && d.tool_name@ == run.tool_name@ && d.input == run.input && d.error == error && d.provider_executed is None
            && d.dynamic
    } else {
        e matches TypedToolError::Static(s) && s.error_type@ == "tool-error"@ && s.tool_call_id@ == run.tool_call_id@
            && s.tool_name@ == run.tool_name@ && s.input == run.input && s.error == error && s.provider_executed is None
            && s.dynamic is None
    }
}

impl ToolRun {
    /// The run of a call, before the tool gave anything.
    pub fn start(call: &TypedToolCall<Value>) -> (run: ToolRun)
        ensures
            match *call {
                TypedToolCall::Static(c) => run.tool_call_id == c.tool_call_id && run.tool_name == c.tool_name
                    && run.input == c.input && !run.is_dynamic,
                TypedToolCall::Dynamic(c) => run.tool_call_id == c.tool_call_id && run.tool_name == c.tool_name
                    && run.input == c.input && run.is_dynamic,
            },
            run.final_output is None,
    {
        match call {
            TypedToolCall::Static(c) => ToolRun {
                tool_call_id: c.tool_call_id.clone(),
                tool_name: c.tool_name.clone(),
                input: c.input.clone(),
                is_dynamic: false,
                final_output: None,
            },
            TypedToolCall::Dynamic(c) => ToolRun {
                tool_call_id: c.tool_call_id.clone(),
                tool_name: c.tool_name.clone(),
                input: c.input.clone(),
                is_dynamic: true,
                final_output: None,
            },
        }
    }

    fn result_with(&self, output: Value) -> (r: TypedToolResult<Value, Value>)
        ensures
            run_result(*self, output, r),
    {
        if self.is_dynamic {
            TypedToolResult::Dynamic(
                DynamicToolResult::new(self.tool_call_id.as_str(), self.tool_name.as_str(), self.input.clone(), output),
            )
        } else {
            TypedToolResult::Static(
                StaticToolResult::new(self.tool_call_id.as_str(), self.tool_name.as_str(), self.input.clone(), output),
            )
        }
    }

    /// An event of the tool's execution: a preliminary output is kept and
    /// passed on as a preliminary result, a final output is kept, and an
    /// error ends the run with a tool error.
    pub fn on_event(&mut self, event: ToolExecutionEvent) -> (step: ToolRunStep)
        ensures
            final(self).tool_call_id == old(self).tool_call_id,
            final(self).tool_name == old(self).tool_name,
            final(self).input == old(self).input,
            final(self).is_dynamic == old(self).is_dynamic,
            match event {
                ToolExecutionEvent::Preliminary { output } => {
                    &&& final(self).final_output == Some(output)
                    &&& step matches ToolRunStep::Preliminary(r) && preliminary_result(*old(self), output, r)
                },
                ToolExecutionEvent::Final { output } => final(self).final_output == Some(output)
                    && step is Continue,
                ToolExecutionEvent::Error { error } => {
                    &&& final(self).final_output == old(self).final_output
                    &&& step matches ToolRunStep::Done(ToolOutput::Error(e)) && run_error(*old(self), error, e)
                },
            },
    {
        match event {
            ToolExecutionEvent::Preliminary { output } => {
                let r = match self.result_with(output.clone()) {
                    TypedToolResult::Dynamic(d) => TypedToolResult::Dynamic(d.with_preliminary(true)),
                    TypedToolResult::Static(s) => TypedToolResult::Static(s.with_preliminary(true)),
                };
                self.final_output = Some(output);
                ToolRunStep::Preliminary(r)
            },
            ToolExecutionEvent::Final { output } => {
                self.final_output = Some(output);
                ToolRunStep::Continue
            },
            ToolExecutionEvent::Error { error } => {
                let e = if self.is_dynamic {
                    TypedToolError::Dynamic(
                        DynamicToolError::new(self.tool_call_id.as_str(), self.tool_name.as_str(), self.input.clone(), error),
                    )
                } else {
                    TypedToolError::Static(
                        StaticToolError::new(self.tool_call_id.as_str(), self.tool_name.as_str(), self.input.clone(), error),
                    )
                };
                ToolRunStep::Done(ToolOutput::Error(e))
            },
        }
    }

    /// The end of the execution: a tool that ran gives a result, with the
    /// output that it gave last, or JSON null when it gave none.
    pub fn finish(self) -> (r: ToolOutput<Value, Value>)
        ensures
            r matches ToolOutput::Result(t) && match self.final_output {
                Some(o) => run_result(self, o, t),
                None => exists|n: Value| json_parse(seq!['n', 'u', 'l', 'l']) == Some(n) && run_result(self, n, t),
            },
    {
        match &self.final_output {
            Some(o) => ToolOutput::Result(self.result_with(o.clone())),
            None => {
                let n = null_json();
                ToolOutput::Result(self.result_with(n))
            },
        }
    }
}

} // verus!
