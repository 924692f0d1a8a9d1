use crate::provider::ProviderMetadata;
use serde_json::Value;
use vstd::prelude::*;

verus! {

/// A call of a tool that is in the tool set, with typed input.
#[derive(Debug, Clone, PartialEq)]
pub struct StaticToolCall<INPUT> {
    pub call_type: String,
    pub tool_call_id: String,
    pub tool_name: String,
    pub input: INPUT,
    pub provider_executed: Option<bool>,
    pub provider_metadata: Option<ProviderMetadata>,
    pub dynamic: Option<bool>,
    pub invalid: Option<bool>,
}

impl<INPUT> StaticToolCall<INPUT> {
    pub fn new(tool_call_id: &str, tool_name: &str, input: INPUT) -> (c: Self)
        ensures
            c.call_type@ == "tool-call"@,
            c.tool_call_id@ == tool_call_id@,
            c.tool_name@ == tool_name@,
            c.input == input,
            c.provider_executed is None,
            c.provider_metadata is None,
            c.dynamic is None,
            c.invalid is None,
    {
        StaticToolCall {
            call_type: "tool-call".to_owned(),
            tool_call_id: tool_call_id.to_owned(),
            tool_name: tool_name.to_owned(),
            input,
            provider_executed: None,
            provider_metadata: None,
            dynamic: None,
            invalid: None,
        }
    }

    pub fn with_provider_executed(self, executed: bool) -> (c: Self)
        ensures
            c == (StaticToolCall { provider_executed: Some(executed), ..self }),
    {
        StaticToolCall { provider_executed: Some(executed), ..self }
    }

    pub fn with_provider_metadata(self, metadata: ProviderMetadata) -> (c: Self)
        ensures
            c == (StaticToolCall { provider_metadata: Some(metadata), ..self }),
    {
        StaticToolCall { provider_metadata: Some(metadata), ..self }
    }
}

/// A call of a tool whose input is not typed: a dynamic tool, or a tool
/// that the provider ran and that is not in the tool set.
#[derive(Debug, Clone, PartialEq)]
pub struct DynamicToolCall {
    pub call_type: String,
    pub tool_call_id: String,
    pub tool_name: String,
    pub input: Value,
    pub provider_executed: Option<bool>,
    pub provider_metadata: Option<ProviderMetadata>,
    pub dynamic: bool,
    pub invalid: Option<bool>,
    pub error: Option<Value>,
}

impl DynamicToolCall {
    pub fn new(tool_call_id: &str, tool_name: &str, input: Value) -> (c: Self)
        ensures
            c.call_type@ == "tool-call"@,
            c.tool_call_id@ == tool_call_id@,
            c.tool_name@ == tool_name@,
            c.input == input,
            c.provider_executed is None,
            c.provider_metadata is None,
            c.dynamic,
            c.invalid is None,
            c.error is None,
    {
        DynamicToolCall {
            call_type: "tool-call".to_owned(),
            tool_call_id: tool_call_id.to_owned(),
            tool_name: tool_name.to_owned(),
            input,
            provider_executed: None,
            provider_metadata: None,
            dynamic: true,
            invalid: None,
            error: None,
        }
    }

    pub fn with_provider_executed(self, executed: bool) -> (c: Self)
        ensures
            c == (DynamicToolCall { provider_executed: Some(executed), ..self }),
    {
        DynamicToolCall { provider_executed: Some(executed), ..self }
    }

    pub fn with_provider_metadata(self, metadata: ProviderMetadata) -> (c: Self)
        ensures
            c == (DynamicToolCall { provider_metadata: Some(metadata), ..self }),
    {
        DynamicToolCall { provider_metadata: Some(metadata), ..self }
    }

    pub fn with_invalid(self, invalid: bool) -> (c: Self)
        ensures
            c == (DynamicToolCall { invalid: Some(invalid), ..self }),
    {
        DynamicToolCall { invalid: Some(invalid), ..self }
    }

    pub fn with_error(self, error: Value) -> (c: Self)
        ensures
            c == (DynamicToolCall { error: Some(error), ..self }),
    {
        DynamicToolCall { error: Some(error), ..self }
    }
}

/// A tool call: static or dynamic.
#[derive(Debug, Clone, PartialEq)]
pub enum TypedToolCall<INPUT = Value> {
    Static(StaticToolCall<INPUT>),
    Dynamic(DynamicToolCall),
}

impl<INPUT> From<StaticToolCall<INPUT>> for TypedToolCall<INPUT> {
    fn from(value: StaticToolCall<INPUT>) -> (t: TypedToolCall<INPUT>) {
        TypedToolCall::Static(value)
    }
}

impl<INPUT> vstd::std_specs::convert::FromSpecImpl<StaticToolCall<INPUT>> for TypedToolCall<INPUT> {
    open spec fn obeys_from_spec() -> bool {
        true
    }

    open spec fn from_spec(value: StaticToolCall<INPUT>) -> TypedToolCall<INPUT> {
        TypedToolCall::Static(value)
    }
}

impl<INPUT> From<DynamicToolCall> for TypedToolCall<INPUT> {
    fn from(value: DynamicToolCall) -> (t: TypedToolCall<INPUT>) {
        TypedToolCall::Dynamic(value)
    }
}

impl<INPUT> vstd::std_specs::convert::FromSpecImpl<DynamicToolCall> for TypedToolCall<INPUT> {
    open spec fn obeys_from_spec() -> bool {
        true
    }

    open spec fn from_spec(value: DynamicToolCall) -> TypedToolCall<INPUT> {
        TypedToolCall::Dynamic(value)
    }
}

pub open spec fn call_id_of<INPUT>(c: TypedToolCall<INPUT>) -> String {
    match c {
        TypedToolCall::Static(s) => s.tool_call_id,
        TypedToolCall::Dynamic(d) => d.tool_call_id,
    }
}

pub open spec fn call_name_of<INPUT>(c: TypedToolCall<INPUT>) -> String {
    match c {
        TypedToolCall::Static(s) => s.tool_name,
        TypedToolCall::Dynamic(d) => d.tool_name,
    }
}

pub open spec fn call_provider_executed<INPUT>(c: TypedToolCall<INPUT>) -> Option<bool> {
    match c {
        TypedToolCall::Static(s) => s.provider_executed,
        TypedToolCall::Dynamic(d) => d.provider_executed,
    }
}

/// The result of a call of a tool that is in the tool set.
#[derive(Debug, Clone, PartialEq)]
pub struct StaticToolResult<INPUT, OUTPUT> {
    pub result_type: String,
    pub tool_call_id: String,
    pub tool_name: String,
    pub input: INPUT,
    pub output: OUTPUT,
    pub provider_executed: Option<bool>,
    pub dynamic: Option<bool>,
    pub preliminary: Option<bool>,
}

impl<INPUT, OUTPUT> StaticToolResult<INPUT, OUTPUT> {
    pub fn new(tool_call_id: &str, tool_name: &str, input: INPUT, output: OUTPUT) -> (r: Self)
        ensures
            r.result_type@ == "tool-result"@,
            r.tool_call_id@ == tool_call_id@,
            r.tool_name@ == tool_name@,
            r.input == input,
            r.output == output,
            r.provider_executed is None,
            r.dynamic is None,
            r.preliminary is None,
    {
        StaticToolResult {
            result_type: "tool-result".to_owned(),
            tool_call_id: tool_call_id.to_owned(),
            tool_name: tool_name.to_owned(),
            input,
            output,
            provider_executed: None,
            dynamic: None,
            preliminary: None,
        }
    }

    pub fn with_provider_executed(self, executed: bool) -> (r: Self)
        ensures
            r == (StaticToolResult { provider_executed: Some(executed), ..self }),
    {
        StaticToolResult { provider_executed: Some(executed), ..self }
    }

    pub fn with_preliminary(self, preliminary: bool) -> (r: Self)
        ensures
            r == (StaticToolResult { preliminary: Some(preliminary), ..self }),
    {
        StaticToolResult { preliminary: Some(preliminary), ..self }
    }
}

/// The result of a dynamic tool call.
#[derive(Debug, Clone, PartialEq)]
pub struct DynamicToolResult {
    pub result_type: String,
    pub tool_call_id: String,
    pub tool_name: String,
    pub input: Value,
    pub output: Value,
    pub provider_executed: Option<bool>,
    pub dynamic: bool,
    pub preliminary: Option<bool>,
}

impl DynamicToolResult {
    pub fn new(tool_call_id: &str, tool_name: &str, input: Value, output: Value) -> (r: Self)
        ensures
            r.result_type@ == "tool-result"@,
            r.tool_call_id@ == tool_call_id@,
            r.tool_name@ == tool_name@,
            r.input == input,
            r.output == output,
            r.provider_executed is None,
            r.dynamic,
            r.preliminary is None,
    {
        DynamicToolResult {
            result_type: "tool-result".to_owned(),
            tool_call_id: tool_call_id.to_owned(),
            tool_name: tool_name.to_owned(),
            input,
            output,
            provider_executed: None,
            dynamic: true,
            preliminary: None,
        }
    }

    pub fn with_provider_executed(self, executed: bool) -> (r: Self)
        ensures
            r == (DynamicToolResult { provider_executed: Some(executed), ..self }),
    {
        DynamicToolResult { provider_executed: Some(executed), ..self }
    }

    pub fn with_preliminary(self, preliminary: bool) -> (r: Self)
        ensures
            r == (DynamicToolResult { preliminary: Some(preliminary), ..self }),
    {
        DynamicToolResult { preliminary: Some(preliminary), ..self }
    }
}

/// A tool result: static or dynamic.
#[derive(Debug, Clone, PartialEq)]
pub enum TypedToolResult<INPUT, OUTPUT> {
    Static(StaticToolResult<INPUT, OUTPUT>),
    Dynamic(DynamicToolResult),
}

impl<INPUT, OUTPUT> From<StaticToolResult<INPUT, OUTPUT>> for TypedToolResult<INPUT, OUTPUT> {
    fn from(value: StaticToolResult<INPUT, OUTPUT>) -> (t: TypedToolResult<INPUT, OUTPUT>) {
        TypedToolResult::Static(value)
    }
}

impl<INPUT, OUTPUT> vstd::std_specs::convert::FromSpecImpl<StaticToolResult<INPUT, OUTPUT>> for TypedToolResult<INPUT, OUTPUT> {
    open spec fn obeys_from_spec() -> bool {
        true
    }

    open spec fn from_spec(value: StaticToolResult<INPUT, OUTPUT>) -> TypedToolResult<INPUT, OUTPUT> {
        TypedToolResult::Static(value)
    }
}

impl<INPUT, OUTPUT> From<DynamicToolResult> for TypedToolResult<INPUT, OUTPUT> {
    fn from(value: DynamicToolResult) -> (t: TypedToolResult<INPUT, OUTPUT>) {
        TypedToolResult::Dynamic(value)
    }
}

impl<INPUT, OUTPUT> vstd::std_specs::convert::FromSpecImpl<DynamicToolResult> for TypedToolResult<INPUT, OUTPUT> {
    open spec fn obeys_from_spec() -> bool {
        true
    }

    open spec fn from_spec(value: DynamicToolResult) -> TypedToolResult<INPUT, OUTPUT> {
        TypedToolResult::Dynamic(value)
    }
}

pub open spec fn result_provider_executed<INPUT, OUTPUT>(r: TypedToolResult<INPUT, OUTPUT>) -> Option<bool> {
    match r {
        TypedToolResult::Static(s) => s.provider_executed,
        TypedToolResult::Dynamic(d) => d.provider_executed,
    }
}

/// The error of a call of a tool that is in the tool set.
#[derive(Debug, Clone, PartialEq)]
pub struct StaticToolError<INPUT> {
    pub error_type: String,
    pub tool_call_id: String,
    pub tool_name: String,
    pub input: INPUT,
    pub error: Value,
    pub provider_executed: Option<bool>,
    pub dynamic: Option<bool>,
}

impl<INPUT> StaticToolError<INPUT> {
    pub fn new(tool_call_id: &str, tool_name: &str, input: INPUT, error: Value) -> (e: Self)
        ensures
            e.error_type@ == "tool-error"@,
            e.tool_call_id@ == tool_call_id@,
            e.tool_name@ == tool_name@,
            e.input == input,
            e.error == error,
            e.provider_executed is None,
            e.dynamic is None,
    {
        StaticToolError {
            error_type: "tool-error".to_owned(),
            tool_call_id: tool_call_id.to_owned(),
            tool_name: tool_name.to_owned(),
            input,
            error,
            provider_executed: None,
            dynamic: None,
        }
    }

    pub fn with_provider_executed(self, executed: bool) -> (e: Self)
        ensures
            e == (StaticToolError { provider_executed: Some(executed), ..self }),
    {
        StaticToolError { provider_executed: Some(executed), ..self }
    }
}

/// The error of a dynamic tool call.
#[derive(Debug, Clone, PartialEq)]
pub struct DynamicToolError {
    pub error_type: String,
    pub tool_call_id: String,
    pub tool_name: String,
    pub input: Value,
    pub error: Value,
    pub provider_executed: Option<bool>,
    pub dynamic: bool,
}

impl DynamicToolError {
    pub fn new(tool_call_id: &str, tool_name: &str, input: Value, error: Value) -> (e: Self)
        ensures
            e.error_type@ == "tool-error"@,
            e.tool_call_id@ == tool_call_id@,
            e.tool_name@ == tool_name@,
            e.input == input,
            e.error == error,
            e.provider_executed is None,
            e.dynamic,
    {
        DynamicToolError {
            error_type: "tool-error".to_owned(),
            tool_call_id: tool_call_id.to_owned(),
            tool_name: tool_name.to_owned(),
            input,
            error,
            provider_executed: None,
            dynamic: true,
        }
    }

    pub fn with_provider_executed(self, executed: bool) -> (e: Self)
        ensures
            e == (DynamicToolError { provider_executed: Some(executed), ..self }),
    {
        DynamicToolError { provider_executed: Some(executed), ..self }
    }
}

/// A tool error: static or dynamic.
#[derive(Debug, Clone, PartialEq)]
pub enum TypedToolError<INPUT = Value> {
    Static(StaticToolError<INPUT>),
    Dynamic(DynamicToolError),
}

impl<INPUT> From<StaticToolError<INPUT>> for TypedToolError<INPUT> {
    fn from(value: StaticToolError<INPUT>) -> (t: TypedToolError<INPUT>) {
        TypedToolError::Static(value)
    }
}

impl<INPUT> vstd::std_specs::convert::FromSpecImpl<StaticToolError<INPUT>> for TypedToolError<INPUT> {
    open spec fn obeys_from_spec() -> bool {
        true
    }

    open spec fn from_spec(value: StaticToolError<INPUT>) -> TypedToolError<INPUT> {
        TypedToolError::Static(value)
    }
}

impl<INPUT> From<DynamicToolError> for TypedToolError<INPUT> {
    fn from(value: DynamicToolError) -> (t: TypedToolError<INPUT>) {
        TypedToolError::Dynamic(value)
    }
}

impl<INPUT> vstd::std_specs::convert::FromSpecImpl<DynamicToolError> for TypedToolError<INPUT> {
    open spec fn obeys_from_spec() -> bool {
        true
    }

    open spec fn from_spec(value: DynamicToolError) -> TypedToolError<INPUT> {
        TypedToolError::Dynamic(value)
    }
}

pub open spec fn error_provider_executed<INPUT>(e: TypedToolError<INPUT>) -> Option<bool> {
    match e {
        TypedToolError::Static(s) => s.provider_executed,
        TypedToolError::Dynamic(d) => d.provider_executed,
    }
}

/// What running a tool gave: a result or an error.
#[derive(Debug, Clone, PartialEq)]
pub enum ToolOutput<INPUT = Value, OUTPUT = Value> {
    Result(TypedToolResult<INPUT, OUTPUT>),
    Error(TypedToolError<INPUT>),
}

impl<INPUT, OUTPUT> ToolOutput<INPUT, OUTPUT> {
    pub fn from_result(result: TypedToolResult<INPUT, OUTPUT>) -> (o: Self)
        ensures
            o == ToolOutput::<INPUT, OUTPUT>::Result(result),
    {
        ToolOutput::Result(result)
    }

    pub fn from_error(error: TypedToolError<INPUT>) -> (o: Self)
        ensures
            o == ToolOutput::<INPUT, OUTPUT>::Error(error),
    {
        ToolOutput::Error(error)
    }

    pub fn is_result(&self) -> (b: bool)
        ensures
            b == (*self is Result),
    {
        match self {
            ToolOutput::Result(_) => true,
            _ => false,
        }
    }

    pub fn is_error(&self) -> (b: bool)
        ensures
            b == (*self is Error),
    {
        match self {
            ToolOutput::Error(_) => true,
            _ => false,
        }
    }

    pub fn as_result(&self) -> (r: Option<&TypedToolResult<INPUT, OUTPUT>>)
        ensures
            match *self {
                ToolOutput::Result(x) => r == Some(&x),
                ToolOutput::Error(_) => r is None,
            },
    {
        match self {
            ToolOutput::Result(result) => Some(result),
            _ => None,
        }
    }

    pub fn as_error(&self) -> (r: Option<&TypedToolError<INPUT>>)
        ensures
            match *self {
                ToolOutput::Error(x) => r == Some(&x),
                ToolOutput::Result(_) => r is None,
            },
    {
        match self {
            ToolOutput::Error(error) => Some(error),
            _ => None,
        }
    }

    pub fn into_result(self) -> (r: Option<TypedToolResult<INPUT, OUTPUT>>)
        ensures
            match self {
                ToolOutput::Result(x) => r == Some(x),
                ToolOutput::Error(_) => r is None,
            },
    {
        match self {
            ToolOutput::Result(result) => Some(result),
            _ => None,
        }
    }

    pub fn into_error(self) -> (r: Option<TypedToolError<INPUT>>)
        ensures
            match self {
                ToolOutput::Error(x) => r == Some(x),
                ToolOutput::Result(_) => r is None,
            },
    {
        match self {
            ToolOutput::Error(error) => Some(error),
            _ => None,
        }
    }
}

} // verus!
