use crate::text::push_str;
use std::time::Duration;
use vstd::prelude::*;

verus! {

/// Errors raised by the SDK.
#[derive(Debug)]
pub enum AISDKError {
    /// An argument had a value that the SDK does not accept.
    InvalidArgument { parameter: String, value: String, message: String },
    /// The prompt could not be used.
    InvalidPrompt { message: String },
    /// The model call failed.
    ModelError { message: String },
    /// The model call failed and may succeed when tried again.
    RetryableError { message: String, retry_after: Option<Duration> },
    /// A tool call carried input that its tool does not accept.
    InvalidToolInput { tool_name: String, tool_input: String, message: String },
    /// A tool call named a tool that is not in the tool set.
    NoSuchTool { tool_name: String, available_tools: Vec<String> },
}

impl AISDKError {
    pub fn invalid_argument(parameter: &str, value: &str, message: &str) -> (e: Self)
        ensures
            e matches AISDKError::InvalidArgument { parameter: p, value: v, message: m }
                && p@ == parameter@ && v@ == value@ && m@ == message@,
    {
        AISDKError::InvalidArgument {
            parameter: parameter.to_owned(),
            value: value.to_owned(),
            message: message.to_owned(),
        }
    }

    pub fn invalid_prompt(message: &str) -> (e: Self)
        ensures
            e matches AISDKError::InvalidPrompt { message: m } && m@ == message@,
    {
        AISDKError::InvalidPrompt { message: message.to_owned() }
    }

    pub fn model_error(message: &str) -> (e: Self)
        ensures
            e matches AISDKError::ModelError { message: m } && m@ == message@,
    {
        AISDKError::ModelError { message: message.to_owned() }
    }

    pub fn retryable_error(message: &str) -> (e: Self)
        ensures
            e matches AISDKError::RetryableError { message: m, retry_after: r }
                && m@ == message@ && r is None,
    {
        AISDKError::RetryableError { message: message.to_owned(), retry_after: None }
    }

    pub fn retryable_error_with_delay(message: &str, retry_after: Duration) -> (e: Self)
        ensures
            e matches AISDKError::RetryableError { message: m, retry_after: r }
                && m@ == message@ && r == Some(retry_after),
    {
        AISDKError::RetryableError { message: message.to_owned(), retry_after: Some(retry_after) }
    }

    pub fn invalid_tool_input(tool_name: &str, tool_input: &str, message: &str) -> (e: Self)
        ensures
            e matches AISDKError::InvalidToolInput { tool_name: n, tool_input: i, message: m }
                && n@ == tool_name@ && i@ == tool_input@ && m@ == message@,
    {
        AISDKError::InvalidToolInput {
            tool_name: tool_name.to_owned(),
            tool_input: tool_input.to_owned(),
            message: message.to_owned(),
        }
    }

    pub fn no_such_tool(tool_name: &str, available_tools: Vec<String>) -> (e: Self)
        ensures
            e matches AISDKError::NoSuchTool { tool_name: n, available_tools: a }
                && n@ == tool_name@ && a@ == available_tools@,
    {
        AISDKError::NoSuchTool { tool_name: tool_name.to_owned(), available_tools }
    }
}

/// What `format!("{:?}", names)` writes for a list of names: the Debug
/// form of a `Vec<String>`.
pub uninterp spec fn debug_names(names: Seq<Seq<char>>) -> Seq<char>;

/// Writes a list of names with `format!("{:?}")`, the Debug form of a
/// `Vec<String>`; its result is named `debug_names` of the names.
#[verifier::external_body]
fn names_debug_text(names: &Vec<String>) -> (s: String)
    ensures
        s@ == debug_names(names@.map_values(|n: String| n@)),
{
    format!("{:?}", names)
}

/// The message of an error.
pub open spec fn error_text(e: AISDKError) -> Seq<char> {
    match e {
        AISDKError::InvalidArgument { parameter, value, message } => "Invalid argument for parameter '"@ + parameter@
            + "': "@ + message@ + " (value: "@ + value@ + ")"@,
        AISDKError::InvalidPrompt { message } => "Invalid prompt: "@ + message@,
        AISDKError::ModelError { message } => "Model error: "@ + message@,
        AISDKError::RetryableError { message, .. } => "Retryable error: "@ + message@,
        AISDKError::InvalidToolInput { tool_name, message, .. } => "Invalid tool input for tool '"@ + tool_name@
            + "': "@ + message@,
        AISDKError::NoSuchTool { tool_name, available_tools } => "No such tool: '"@ + tool_name@
            + "'. Available tools: "@ + debug_names(available_tools@.map_values(|n: String| n@)),
    }
}

fn concat(parts: &Vec<&str>) -> (s: String)
    ensures
        s@ == concat_all(parts@.map_values(|p: &str| p@)),
{
    let mut s = String::new();
    let n = parts.len();
    let mut i: usize = 0;
    while i < n
        invariant
            n == parts@.len(),
            i <= n,
            s@ == concat_all(parts@.take(i as int).map_values(|p: &str| p@)),
        decreases n - i,
    {
        proof {
            assert(parts@.take(i + 1).map_values(|p: &str| p@).drop_last() =~= parts@.take(i as int).map_values(
                |p: &str| p@,
            ));
        }
        push_str(&mut s, parts[i]);
        i = i + 1;
    }
    assert(parts@.take(n as int) =~= parts@);
    s
}

/// The texts joined end to end.
pub open spec fn concat_all(texts: Seq<Seq<char>>) -> Seq<char>
    decreases texts.len(),
{
    if texts.len() == 0 {
        Seq::empty()
    } else {
        concat_all(texts.drop_last()) + texts.last()
    }
}

impl AISDKError {
    /// The error's message, as its `Display` writes it.
    pub fn to_string(&self) -> (s: String)
        ensures
            s@ == error_text(*self),
    {
        proof {
            reveal_strlit("Invalid argument for parameter '");
            reveal_strlit("': ");
            reveal_strlit(" (value: ");
            reveal_strlit(")");
            reveal_strlit("Invalid prompt: ");
            reveal_strlit("Model error: ");
            reveal_strlit("Retryable error: ");
            reveal_strlit("Invalid tool input for tool '");
            reveal_strlit("No such tool: '");
            reveal_strlit("'. Available tools: ");
        }
        match self {
            AISDKError::InvalidArgument { parameter, value, message } => {
                let parts = vec![
                    "Invalid argument for parameter '",
                    parameter.as_str(),
                    "': ",
                    message.as_str(),
                    " (value: ",
                    value.as_str(),
                    ")",
                ];
                let s = concat(&parts);
                assert(s@ == error_text(*self)) by {
                    reveal_with_fuel(concat_all, 8);
                    assert(parts@.map_values(|p: &str| p@) =~= seq![
                        "Invalid argument for parameter '"@,
                        parameter@,
                        "': "@,
                        message@,
                        " (value: "@,
                        value@,
                        ")"@,
                    ]);
                }
                s
            },
            AISDKError::InvalidPrompt { message } => {
                let mut s = "Invalid prompt: ".to_owned();
                push_str(&mut s, message.as_str());
                s
            },
            AISDKError::ModelError { message } => {
                let mut s = "Model error: ".to_owned();
                push_str(&mut s, message.as_str());
                s
            },
            AISDKError::RetryableError { message, .. } => {
                let mut s = "Retryable error: ".to_owned();
                push_str(&mut s, message.as_str());
                s
            },
            AISDKError::InvalidToolInput { tool_name, message, .. } => {
                let mut s = "Invalid tool input for tool '".to_owned();
                push_str(&mut s, tool_name.as_str());
                push_str(&mut s, "': ");
                push_str(&mut s, message.as_str());
                s
            },
            AISDKError::NoSuchTool { tool_name, available_tools } => {
                let mut s = "No such tool: '".to_owned();
                push_str(&mut s, tool_name.as_str());
                push_str(&mut s, "'. Available tools: ");
                let names = names_debug_text(available_tools);
                push_str(&mut s, names.as_str());
                s
            },
        }
    }
}

} // verus!
