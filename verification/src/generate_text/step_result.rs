use super::content::{ContentPart, GeneratedFile, ReasoningOutput};
use super::tool_types::{TypedToolCall, TypedToolResult};
use crate::provider::{
    LanguageModelCallWarning, LanguageModelFinishReason, LanguageModelResponseMetadata,
    LanguageModelSource, LanguageModelUsage, ProviderMetadata,
};
use crate::text::push_str;
use serde_json::Value;
use vstd::prelude::*;

verus! {

/// What was sent to the provider in a step.
#[derive(Debug, Clone, PartialEq)]
pub struct RequestMetadata {
    pub body: Option<Value>,
}

impl Default for RequestMetadata {
    fn default() -> (m: RequestMetadata)
        ensures
            m.body is None,
    {
        RequestMetadata { body: None }
    }
}

/// What the provider said about its response in a step.
#[derive(Debug, Clone, PartialEq)]
pub struct StepResponseMetadata {
    pub id: Option<String>,
    pub timestamp: Option<i64>,
    pub model_id: Option<String>,
    pub body: Option<Value>,
}

impl Default for StepResponseMetadata {
    fn default() -> (m: StepResponseMetadata)
        ensures
            m.id is None,
            m.timestamp is None,
            m.model_id is None,
            m.body is None,
    {
        StepResponseMetadata { id: None, timestamp: None, model_id: None, body: None }
    }
}

impl StepResponseMetadata {
    /// Takes the provider's response metadata; there is no body.
    pub fn from_response(metadata: LanguageModelResponseMetadata) -> (m: StepResponseMetadata)
        ensures
            m.id == metadata.id,
            m.timestamp == metadata.timestamp,
            m.model_id == metadata.model_id,
            m.body is None,
    {
        StepResponseMetadata { id: metadata.id, timestamp: metadata.timestamp, model_id: metadata.model_id, body: None }
    }
}

impl From<LanguageModelResponseMetadata> for StepResponseMetadata {
    fn from(metadata: LanguageModelResponseMetadata) -> (m: StepResponseMetadata) {
        StepResponseMetadata::from_response(metadata)
    }
}

impl vstd::std_specs::convert::FromSpecImpl<LanguageModelResponseMetadata> for StepResponseMetadata {
    open spec fn obeys_from_spec() -> bool {
        true
    }

    open spec fn from_spec(metadata: LanguageModelResponseMetadata) -> StepResponseMetadata {
        StepResponseMetadata { id: metadata.id, timestamp: metadata.timestamp, model_id: metadata.model_id, body: None }
    }
}

/// The result of one generation step.
#[derive(Debug, Clone, PartialEq)]
pub struct StepResult<INPUT = Value, OUTPUT = Value> {
    pub content: Vec<ContentPart<INPUT, OUTPUT>>,
    pub finish_reason: LanguageModelFinishReason,
    pub usage: LanguageModelUsage,
    pub warnings: Option<Vec<LanguageModelCallWarning>>,
    pub request: RequestMetadata,
    pub response: StepResponseMetadata,
    pub provider_metadata: Option<ProviderMetadata>,
}

/// The texts of the text parts, joined.
pub open spec fn text_of<INPUT, OUTPUT>(parts: Seq<ContentPart<INPUT, OUTPUT>>) -> Seq<char>
    decreases parts.len(),
{
    if parts.len() == 0 {
        Seq::empty()
    } else {
        text_of(parts.drop_last()) + match parts.last() {
            ContentPart::Text(t) => t.text@,
            _ => Seq::empty(),
        }
    }
}

/// The reasoning parts, in order.
pub open spec fn reasoning_of<INPUT, OUTPUT>(parts: Seq<ContentPart<INPUT, OUTPUT>>) -> Seq<ReasoningOutput>
    decreases parts.len(),
{
    if parts.len() == 0 {
        Seq::empty()
    } else {
        match parts.last() {
            ContentPart::Reasoning(r) => reasoning_of(parts.drop_last()).push(r),
            _ => reasoning_of(parts.drop_last()),
        }
    }
}

/// The texts of the reasoning parts, joined.
pub open spec fn reasoning_text_of(rs: Seq<ReasoningOutput>) -> Seq<char>
    decreases rs.len(),
{
    if rs.len() == 0 {
        Seq::empty()
    } else {
        reasoning_text_of(rs.drop_last()) + rs.last().text@
    }
}

/// The sources that the source parts cite, in order.
pub open spec fn sources_of<INPUT, OUTPUT>(parts: Seq<ContentPart<INPUT, OUTPUT>>) -> Seq<LanguageModelSource>
    decreases parts.len(),
{
    if parts.len() == 0 {
        Seq::empty()
    } else {
        match parts.last() {
            ContentPart::Source(s) => sources_of(parts.drop_last()).push(s.source),
            _ => sources_of(parts.drop_last()),
        }
    }
}

/// The tool calls, in order.
pub open spec fn tool_calls_of<INPUT, OUTPUT>(parts: Seq<ContentPart<INPUT, OUTPUT>>) -> Seq<TypedToolCall<INPUT>>
    decreases parts.len(),
{
    if parts.len() == 0 {
        Seq::empty()
    } else {
        match parts.last() {
            ContentPart::ToolCall(c) => tool_calls_of(parts.drop_last()).push(c),
            _ => tool_calls_of(parts.drop_last()),
        }
    }
}

/// The tool results, in order.
pub open spec fn tool_results_of<INPUT, OUTPUT>(parts: Seq<ContentPart<INPUT, OUTPUT>>) -> Seq<
    TypedToolResult<INPUT, OUTPUT>,
>
    decreases parts.len(),
{
    if parts.len() == 0 {
        Seq::empty()
    } else {
        match parts.last() {
            ContentPart::ToolResult(r) => tool_results_of(parts.drop_last()).push(r),
            _ => tool_results_of(parts.drop_last()),
        }
    }
}

impl<INPUT, OUTPUT> StepResult<INPUT, OUTPUT> {
    pub fn new(
        content: Vec<ContentPart<INPUT, OUTPUT>>,
        finish_reason: LanguageModelFinishReason,
        usage: LanguageModelUsage,
        warnings: Option<Vec<LanguageModelCallWarning>>,
        request: RequestMetadata,
        response: StepResponseMetadata,
        provider_metadata: Option<ProviderMetadata>,
    ) -> (s: Self)
        ensures
            s == (StepResult { content, finish_reason, usage, warnings, request, response, provider_metadata }),
    {
        StepResult { content, finish_reason, usage, warnings, request, response, provider_metadata }
    }

    /// The generated text: the texts of the text parts, joined.
    pub fn text(&self) -> (t: String)
        ensures
            t@ == text_of(self.content@),
    {
        let mut t = String::new();
        let n = self.content.len();
        let mut i: usize = 0;
        while i < n
            invariant
                n == self.content@.len(),
                i <= n,
                t@ == text_of(self.content@.take(i as int)),
            decreases n - i,
        {
            assert(self.content@.take(i + 1).drop_last() =~= self.content@.take(i as int));
            match &self.content[i] {
                ContentPart::Text(o) => push_str(&mut t, o.text.as_str()),
                _ => {},
            }
            i = i + 1;
        }
        assert(self.content@.take(n as int) =~= self.content@);
        t
    }

    /// The reasoning parts, in order.
    pub fn reasoning(&self) -> (r: Vec<&ReasoningOutput>)
        ensures
            r@.map_values(|x: &ReasoningOutput| *x) == reasoning_of(self.content@),
    {
        let mut r: Vec<&ReasoningOutput> = Vec::new();
        let n = self.content.len();
        let mut i: usize = 0;
        while i < n
            invariant
                n == self.content@.len(),
                i <= n,
                r@.map_values(|x: &ReasoningOutput| *x) == reasoning_of(self.content@.take(i as int)),
            decreases n - i,
        {
            assert(self.content@.take(i + 1).drop_last() =~= self.content@.take(i as int));
            let ghost before = r@;
            match &self.content[i] {
                ContentPart::Reasoning(o) => {
                    r.push(o);
                    assert(r@.map_values(|x: &ReasoningOutput| *x) =~= before.map_values(
                        |x: &ReasoningOutput| *x,
                    ).push(*o));
                },
                _ => {},
            }
            i = i + 1;
        }
        assert(self.content@.take(n as int) =~= self.content@);
        r
    }

    /// The texts of the reasoning parts, joined; none when there is no reasoning part.
    pub fn reasoning_text(&self) -> (t: Option<String>)
        ensures
            reasoning_of(self.content@).len() == 0 ==> t is None,
            reasoning_of(self.content@).len() > 0 ==> (t matches Some(s) && s@ == reasoning_text_of(
                reasoning_of(self.content@),
            )),
    {
        let parts = self.reasoning();
        let ghost rs = parts@.map_values(|x: &ReasoningOutput| *x);
        if parts.len() == 0 {
            return None;
        }
        let mut t = String::new();
        let n = parts.len();
        let mut i: usize = 0;
        while i < n
            invariant
                n == parts@.len(),
                rs == parts@.map_values(|x: &ReasoningOutput| *x),
                i <= n,
                t@ == reasoning_text_of(rs.take(i as int)),
            decreases n - i,
        {
            assert(rs.take(i + 1).drop_last() =~= rs.take(i as int));
            push_str(&mut t, parts[i].text.as_str());
            i = i + 1;
        }
        assert(rs.take(n as int) =~= rs);
        Some(t)
    }

    /// The files of the step: content parts carry no files, so there are none.
    pub fn files(&self) -> (r: Vec<&GeneratedFile>)
        ensures
            r@.len() == 0,
    {
        Vec::new()
    }

    /// The sources that the step cites, in order.
    pub fn sources(&self) -> (r: Vec<&LanguageModelSource>)
        ensures
            r@.map_values(|x: &LanguageModelSource| *x) == sources_of(self.content@),
    {
        let mut r: Vec<&LanguageModelSource> = Vec::new();
        let n = self.content.len();
        let mut i: usize = 0;
        while i < n
            invariant
                n == self.content@.len(),
                i <= n,
                r@.map_values(|x: &LanguageModelSource| *x) == sources_of(self.content@.take(i as int)),
            decreases n - i,
        {
            assert(self.content@.take(i + 1).drop_last() =~= self.content@.take(i as int));
            let ghost before = r@;
            match &self.content[i] {
                ContentPart::Source(o) => {
                    r.push(&o.source);
                    assert(r@.map_values(|x: &LanguageModelSource| *x) =~= before.map_values(
                        |x: &LanguageModelSource| *x,
                    ).push(o.source));
                },
                _ => {},
            }
            i = i + 1;
        }
        assert(self.content@.take(n as int) =~= self.content@);
        r
    }

    /// The tool calls of the step, in order.
    pub fn tool_calls(&self) -> (r: Vec<&TypedToolCall<INPUT>>)
        ensures
            r@.map_values(|x: &TypedToolCall<INPUT>| *x) == tool_calls_of(self.content@),
    {
        let mut r: Vec<&TypedToolCall<INPUT>> = Vec::new();
        let n = self.content.len();
        let mut i: usize = 0;
        while i < n
            invariant
                n == self.content@.len(),
                i <= n,
                r@.map_values(|x: &TypedToolCall<INPUT>| *x) == tool_calls_of(self.content@.take(i as int)),
            decreases n - i,
        {
            assert(self.content@.take(i + 1).drop_last() =~= self.content@.take(i as int));
            let ghost before = r@;
            match &self.content[i] {
                ContentPart::ToolCall(o) => {
                    r.push(o);
                    assert(r@.map_values(|x: &TypedToolCall<INPUT>| *x) =~= before.map_values(
                        |x: &TypedToolCall<INPUT>| *x,
                    ).push(*o));
                },
                _ => {},
            }
            i = i + 1;
        }
        assert(self.content@.take(n as int) =~= self.content@);
        r
    }

    /// The tool results of the step, in order.
    pub fn tool_results(&self) -> (r: Vec<&TypedToolResult<INPUT, OUTPUT>>)
        ensures
            r@.map_values(|x: &TypedToolResult<INPUT, OUTPUT>| *x) == tool_results_of(self.content@),
    {
        let mut r: Vec<&TypedToolResult<INPUT, OUTPUT>> = Vec::new();
        let n = self.content.len();
        let mut i: usize = 0;
        while i < n
            invariant
                n == self.content@.len(),
                i <= n,
                r@.map_values(|x: &TypedToolResult<INPUT, OUTPUT>| *x) == tool_results_of(
                    self.content@.take(i as int),
                ),
            decreases n - i,
        {
            assert(self.content@.take(i + 1).drop_last() =~= self.content@.take(i as int));
            let ghost before = r@;
            match &self.content[i] {
                ContentPart::ToolResult(o) => {
                    r.push(o);
                    assert(r@.map_values(|x: &TypedToolResult<INPUT, OUTPUT>| *x) =~= before.map_values(
                        |x: &TypedToolResult<INPUT, OUTPUT>| *x,
                    ).push(*o));
                },
                _ => {},
            }
            i = i + 1;
        }
        assert(self.content@.take(n as int) =~= self.content@);
        r
    }
}

} // verus!
