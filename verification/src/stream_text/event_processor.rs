use super::TextStreamPart;
use crate::generate_text::content::SourceOutput;
use crate::generate_text::step_result::StepResult;
use crate::generate_text::tool_types::{TypedToolCall, TypedToolResult};
use crate::provider::{LanguageModelFinishReason, LanguageModelUsage, ProviderMetadata};
use crate::text::push_str;
use crate::tool::str_eq;
use serde_json::Value;
use vstd::prelude::*;

verus! {

/// A part of a text stream that is reported to the chunk callback.
#[derive(Debug, Clone, PartialEq)]
pub enum ChunkStreamPart<INPUT = Value, OUTPUT = Value> {
    TextDelta { id: String, provider_metadata: Option<ProviderMetadata>, text: String },
    ReasoningDelta { id: String, provider_metadata: Option<ProviderMetadata>, text: String },
    Source { source: SourceOutput },
    ToolCall { tool_call: TypedToolCall<INPUT> },
    ToolInputStart {
        id: String,
        tool_name: String,
        provider_metadata: Option<ProviderMetadata>,
        provider_executed: Option<bool>,
        dynamic: Option<bool>,
        title: Option<String>,
    },
    ToolInputDelta { id: String, delta: String, provider_metadata: Option<ProviderMetadata> },
    ToolResult { tool_result: TypedToolResult<INPUT, OUTPUT> },
    Raw { raw_value: Value },
}

/// The chunk that a part of a text stream is, if it is one.
pub open spec fn chunk_of<INPUT, OUTPUT>(part: TextStreamPart<INPUT, OUTPUT>) -> Option<ChunkStreamPart<INPUT, OUTPUT>> {
    match part {
        TextStreamPart::TextDelta { id, provider_metadata, text } => Some(
            ChunkStreamPart::TextDelta { id, provider_metadata, text },
        ),
        TextStreamPart::ReasoningDelta { id, provider_metadata, text } => Some(
            ChunkStreamPart::ReasoningDelta { id, provider_metadata, text },
        ),
        TextStreamPart::Source { source } => Some(ChunkStreamPart::Source { source }),
        TextStreamPart::ToolCall { tool_call } => Some(ChunkStreamPart::ToolCall { tool_call }),
        TextStreamPart::ToolInputStart { id, tool_name, provider_metadata, provider_executed, dynamic, title } => Some(
            ChunkStreamPart::ToolInputStart { id, tool_name, provider_metadata, provider_executed, dynamic, title },
        ),
        TextStreamPart::ToolInputDelta { id, delta, provider_metadata } => Some(
            ChunkStreamPart::ToolInputDelta { id, delta, provider_metadata },
        ),
        TextStreamPart::ToolResult { tool_result } => Some(ChunkStreamPart::ToolResult { tool_result }),
        TextStreamPart::Raw { raw_value } => Some(ChunkStreamPart::Raw { raw_value }),
        _ => None,
    }
}

impl<INPUT, OUTPUT> ChunkStreamPart<INPUT, OUTPUT> {
    /// The chunk that a part of a text stream is: text and reasoning deltas,
    /// sources, tool calls, tool input starts and deltas, tool results and
    /// raw values are chunks; other parts are not.
    pub fn from_stream_part(part: TextStreamPart<INPUT, OUTPUT>) -> (r: Option<Self>)
        ensures
            r == chunk_of(part),
    {
        match part {
            TextStreamPart::TextDelta { id, provider_metadata, text } => Some(
                ChunkStreamPart::TextDelta { id, provider_metadata, text },
            ),
            TextStreamPart::ReasoningDelta { id, provider_metadata, text } => Some(
                ChunkStreamPart::ReasoningDelta { id, provider_metadata, text },
            ),
            TextStreamPart::Source { source } => Some(ChunkStreamPart::Source { source }),
            TextStreamPart::ToolCall { tool_call } => Some(ChunkStreamPart::ToolCall { tool_call }),
            TextStreamPart::ToolInputStart { id, tool_name, provider_metadata, provider_executed, dynamic, title } => Some(
                ChunkStreamPart::ToolInputStart { id, tool_name, provider_metadata, provider_executed, dynamic, title },
            ),
            TextStreamPart::ToolInputDelta { id, delta, provider_metadata } => Some(
                ChunkStreamPart::ToolInputDelta { id, delta, provider_metadata },
            ),
            TextStreamPart::ToolResult { tool_result } => Some(ChunkStreamPart::ToolResult { tool_result }),
            TextStreamPart::Raw { raw_value } => Some(ChunkStreamPart::Raw { raw_value }),
            _ => None,
        }
    }
}

/// What the error callback of a text stream is given.
#[derive(Debug, Clone)]
pub struct StreamTextErrorEvent {
    pub error: Value,
}

/// What the chunk callback of a text stream is given.
#[derive(Debug, Clone, PartialEq)]
pub struct StreamTextChunkEvent<INPUT = Value, OUTPUT = Value> {
    pub chunk: ChunkStreamPart<INPUT, OUTPUT>,
}

/// What the finish callback of a text stream is given: the last step, every
/// step, and the usage summed over them.
#[derive(Debug, Clone, PartialEq)]
pub struct StreamTextFinishEvent<INPUT = Value, OUTPUT = Value> {
    pub step_result: StepResult<INPUT, OUTPUT>,
    pub steps: Vec<StepResult<INPUT, OUTPUT>>,
    pub total_usage: LanguageModelUsage,
}

/// What the abort callback of a text stream is given: the steps so far.
#[derive(Debug, Clone, PartialEq)]
pub struct StreamTextAbortEvent<INPUT = Value, OUTPUT = Value> {
    pub steps: Vec<StepResult<INPUT, OUTPUT>>,
}

/// The parts for which the event processor calls the chunk callback: the
/// parts that are chunks (text and reasoning deltas, sources, tool calls,
/// tool results, tool input starts and deltas, and raw values).
pub open spec fn reported_as_chunk<INPUT, OUTPUT>(part: TextStreamPart<INPUT, OUTPUT>) -> bool {
    part is TextDelta || part is ReasoningDelta || part is Source || part is ToolCall || part is ToolResult
        || part is ToolInputStart || part is ToolInputDelta || part is Raw
}

/// Whether the event processor calls the chunk callback for the part: it
/// does exactly for the parts that are chunks.
pub fn is_reported_chunk<INPUT, OUTPUT>(part: &TextStreamPart<INPUT, OUTPUT>) -> (b: bool)
    ensures
        b == reported_as_chunk(*part),
        b == chunk_of(*part) is Some,
{
    match part {
        TextStreamPart::TextDelta { .. } => true,
        TextStreamPart::ReasoningDelta { .. } => true,
        TextStreamPart::Source { .. } => true,
        TextStreamPart::ToolCall { .. } => true,
        TextStreamPart::ToolResult { .. } => true,
        TextStreamPart::ToolInputStart { .. } => true,
        TextStreamPart::ToolInputDelta { .. } => true,
        TextStreamPart::Raw { .. } => true,
        _ => false,
    }
}

/// The text of a block that is still open, and its provider metadata.
pub struct ActiveContent {
    pub text: String,
    pub provider_metadata: Option<ProviderMetadata>,
}

/// An open block as a value.
pub type ActiveView = (Seq<char>, Option<ProviderMetadata>);

/// The open block with the given id: the last one recorded under it.
pub open spec fn active_lookup(entries: Seq<(String, ActiveContent)>, id: Seq<char>) -> Option<ActiveView>
    decreases entries.len(),
{
    if entries.len() == 0 {
        None
    } else if entries.last().0@ == id {
        Some((entries.last().1.text@, entries.last().1.provider_metadata))
    } else {
        active_lookup(entries.drop_last(), id)
    }
}

/// The last index of an entry with the given id.
pub open spec fn last_index(entries: Seq<(String, ActiveContent)>, id: Seq<char>) -> Option<int>
    decreases entries.len(),
{
    if entries.len() == 0 {
        None
    } else if entries.last().0@ == id {
        Some(entries.len() - 1)
    } else {
        last_index(entries.drop_last(), id)
    }
}

proof fn lemma_last_index(entries: Seq<(String, ActiveContent)>, id: Seq<char>)
    ensures
        match last_index(entries, id) {
            Some(i) => 0 <= i < entries.len() && entries[i].0@ == id && active_lookup(entries, id) == Some(
                (entries[i].1.text@, entries[i].1.provider_metadata),
            ) && forall|j: int| i < j < entries.len() ==> (#[trigger] entries[j]).0@ != id,
            None => active_lookup(entries, id) is None && forall|j: int|
                0 <= j < entries.len() ==> (#[trigger] entries[j]).0@ != id,
        },
    decreases entries.len(),
{
    if entries.len() > 0 {
        let d = entries.drop_last();
        lemma_last_index(d, id);
        assert forall|j: int| 0 <= j < d.len() implies entries[j] == d[j] by {}
    }
}

/// The entries that do not belong to `id` are kept.
pub open spec fn other_than(id: Seq<char>) -> spec_fn((String, ActiveContent)) -> bool {
    |e: (String, ActiveContent)| e.0@ != id
}

/// Changing the entry at `i` to one with the same id leaves the other ids
/// looking up what they did.
proof fn lemma_lookup_update(entries: Seq<(String, ActiveContent)>, i: int, e: (String, ActiveContent), other: Seq<char>)
    requires
        0 <= i < entries.len(),
        e.0@ == entries[i].0@,
        other != e.0@,
    ensures
        active_lookup(entries.update(i, e), other) == active_lookup(entries, other),
    decreases entries.len(),
{
    if i < entries.len() - 1 {
        assert(entries.update(i, e).drop_last() =~= entries.drop_last().update(i, e));
        lemma_lookup_update(entries.drop_last(), i, e, other);
    } else {
        assert(entries.update(i, e).drop_last() =~= entries.drop_last());
    }
}

/// With the entry at the last index of `id` changed, `id` looks up the new entry.
proof fn lemma_lookup_update_same(entries: Seq<(String, ActiveContent)>, i: int, e: (String, ActiveContent), id: Seq<char>)
    requires
        last_index(entries, id) == Some(i),
        e.0@ == id,
    ensures
        active_lookup(entries.update(i, e), id) == Some((e.1.text@, e.1.provider_metadata)),
    decreases entries.len(),
{
    lemma_last_index(entries, id);
    if i < entries.len() - 1 {
        assert(entries.update(i, e).drop_last() =~= entries.drop_last().update(i, e));
        assert(entries.last().0@ != id);
        lemma_lookup_update_same(entries.drop_last(), i, e, id);
    } else {
        assert(entries.update(i, e).last() == e);
    }
}

/// With every entry of `id` left out, `id` looks up nothing and the other
/// ids look up what they did.
proof fn lemma_lookup_without(entries: Seq<(String, ActiveContent)>, id: Seq<char>, other: Seq<char>)
    ensures
        active_lookup(entries.filter(other_than(id)), id) is None,
        other != id ==> active_lookup(entries.filter(other_than(id)), other) == active_lookup(entries, other),
    decreases entries.len(),
{
    let keep = other_than(id);
    if entries.len() > 0 {
        let d = entries.drop_last();
        let x = entries.last();
        lemma_lookup_without(d, id, other);
        assert(entries =~= d.push(x));
        d.lemma_filter_push(x, keep);
        let fd = d.filter(keep);
        if keep(x) {
            assert(fd.push(x).drop_last() =~= fd);
        }
        assert(entries.drop_last() == d);
    } else {
        reveal(Seq::filter);
    }
}

/// Opens a block: the id now looks up a block with no text.
fn open_block(entries: &mut Vec<(String, ActiveContent)>, id: String, metadata: Option<ProviderMetadata>)
    ensures
        active_lookup(final(entries)@, id@) == Some((Seq::<char>::empty(), metadata)),
        forall|k: Seq<char>| k != id@ ==> active_lookup(final(entries)@, k) == active_lookup(old(entries)@, k),
{
    let ghost before = entries@;
    entries.push((id, ActiveContent { text: String::new(), provider_metadata: metadata }));
    assert(entries@.drop_last() =~= before);
}

fn find_last(entries: &Vec<(String, ActiveContent)>, id: &str) -> (r: Option<usize>)
    ensures
        match r {
            Some(i) => last_index(entries@, id@) == Some(i as int),
            None => last_index(entries@, id@) is None,
        },
{
    let mut i: usize = entries.len();
    assert(entries@.take(i as int) =~= entries@);
    while i > 0
        invariant
            i <= entries@.len(),
            last_index(entries@, id@) == last_index(entries@.take(i as int), id@),
        decreases i,
    {
        assert(entries@.take(i as int).drop_last() =~= entries@.take(i - 1));
        if str_eq(entries[i - 1].0.as_str(), id) {
            return Some(i - 1);
        }
        i = i - 1;
    }
    None
}

/// Adds text to an open block, which takes the metadata that comes with it;
/// nothing happens when the block is not open.
fn extend_block(entries: &mut Vec<(String, ActiveContent)>, id: &str, text: &str, metadata: Option<ProviderMetadata>)
    ensures
        active_lookup(final(entries)@, id@) == match active_lookup(old(entries)@, id@) {
            Some(b) => Some((b.0 + text@, if metadata is Some { metadata } else { b.1 })),
            None => None,
        },
        forall|k: Seq<char>| k != id@ ==> active_lookup(final(entries)@, k) == active_lookup(old(entries)@, k),
{
    let ghost before = entries@;
    proof {
        lemma_last_index(before, id@);
    }
    match find_last(entries, id) {
        Some(i) => {
            let (key, mut content) = entries.remove(i);
            push_str(&mut content.text, text);
            let ActiveContent { text: t, provider_metadata: old_metadata } = content;
            let m = match metadata {
                Some(x) => Some(x),
                None => old_metadata,
            };
            let e = (key, ActiveContent { text: t, provider_metadata: m });
            let ghost eg = e;
            entries.insert(i, e);
            proof {
                assert(entries@ =~= before.update(i as int, eg));
                lemma_lookup_update_same(before, i as int, eg, id@);
                assert forall|k: Seq<char>| k != id@ implies active_lookup(entries@, k) == active_lookup(before, k) by {
                    lemma_lookup_update(before, i as int, eg, k);
                }
            }
        },
        None => {},
    }
}

/// Closes a block: the id looks up nothing any more.
fn close_block(entries: &mut Vec<(String, ActiveContent)>, id: &str)
    ensures
        active_lookup(final(entries)@, id@) is None,
        forall|k: Seq<char>| k != id@ ==> active_lookup(final(entries)@, k) == active_lookup(old(entries)@, k),
{
    let ghost before = entries@;
    let ghost keep = other_than(id@);
    let mut kept: Vec<(String, ActiveContent)> = Vec::new();
    let mut all: Vec<(String, ActiveContent)> = Vec::new();
    std::mem::swap(&mut all, entries);
    for e in it: all
        invariant
            it.seq() == before,
            keep == other_than(id@),
            kept@ == before.take(it.index() as int).filter(keep),
    {
        let ghost i = it.index() as int;
        proof {
            assert(before.take(i + 1) =~= before.take(i).push(e));
            before.take(i).lemma_filter_push(e, keep);
        }
        if !str_eq(e.0.as_str(), id) {
            kept.push(e);
        }
    }
    assert(before.take(before.len() as int) =~= before);
    *entries = kept;
    proof {
        lemma_lookup_without(before, id@, id@);
        assert forall|k: Seq<char>| k != id@ implies active_lookup(entries@, k) == active_lookup(before, k) by {
            lemma_lookup_without(before, id@, k);
        }
    }
}

/// What the event processor records of a stream: the text and reasoning
/// blocks that are open, the finish reason and the total usage.
pub struct StreamRecorder {
    active_text: Vec<(String, ActiveContent)>,
    active_reasoning: Vec<(String, ActiveContent)>,
    finish_reason: Option<LanguageModelFinishReason>,
    total_usage: Option<LanguageModelUsage>,
}

/// What a part does to one kind of open blocks.
pub enum BlockEvent {
    Unchanged,
    Start(Seq<char>, Option<ProviderMetadata>),
    Delta(Seq<char>, Seq<char>, Option<ProviderMetadata>),
    End(Seq<char>),
}

/// How a kind of open blocks changes with a part: a start opens a block
/// with no text, a delta adds to an open block (and takes the metadata it
/// carries), an end closes the block; other blocks stay as they are.
pub open spec fn blocks_after(
    before: spec_fn(Seq<char>) -> Option<ActiveView>,
    after: spec_fn(Seq<char>) -> Option<ActiveView>,
    event: BlockEvent,
) -> bool {
    match event {
        BlockEvent::Unchanged => forall|k: Seq<char>| #[trigger] after(k) == before(k),
        BlockEvent::Start(id, m) => after(id) == Some((Seq::<char>::empty(), m)) && forall|k: Seq<char>|
            k != id ==> #[trigger] after(k) == before(k),
        BlockEvent::Delta(id, text, m) => after(id) == match before(id) {
            Some(b) => Some((b.0 + text, if m is Some { m } else { b.1 })),
            None => None,
        } && forall|k: Seq<char>| k != id ==> #[trigger] after(k) == before(k),
        BlockEvent::End(id) => after(id) is None && forall|k: Seq<char>| k != id ==> #[trigger] after(k) == before(k),
    }
}

/// What a part does to the open text blocks.
pub open spec fn text_event<INPUT, OUTPUT>(part: TextStreamPart<INPUT, OUTPUT>) -> BlockEvent {
    match part {
        TextStreamPart::TextStart { id, provider_metadata } => BlockEvent::Start(id@, provider_metadata),
        TextStreamPart::TextDelta { id, provider_metadata, text } => BlockEvent::Delta(id@, text@, provider_metadata),
        TextStreamPart::TextEnd { id, .. } => BlockEvent::End(id@),
        _ => BlockEvent::Unchanged,
    }
}

/// What a part does to the open reasoning blocks.
pub open spec fn reasoning_event<INPUT, OUTPUT>(part: TextStreamPart<INPUT, OUTPUT>) -> BlockEvent {
    match part {
        TextStreamPart::ReasoningStart { id, provider_metadata } => BlockEvent::Start(id@, provider_metadata),
        TextStreamPart::ReasoningDelta { id, provider_metadata, text } => BlockEvent::Delta(
            id@,
            text@,
            provider_metadata,
        ),
        TextStreamPart::ReasoningEnd { id, .. } => BlockEvent::End(id@),
        _ => BlockEvent::Unchanged,
    }
}

impl StreamRecorder {
    /// The open text block with the given id.
    pub closed spec fn text_block(&self, id: Seq<char>) -> Option<ActiveView> {
        active_lookup(self.active_text@, id)
    }

    /// The open reasoning block with the given id.
    pub closed spec fn reasoning_block(&self, id: Seq<char>) -> Option<ActiveView> {
        active_lookup(self.active_reasoning@, id)
    }

    /// The finish reason recorded.
    pub closed spec fn recorded_finish_reason(&self) -> Option<LanguageModelFinishReason> {
        self.finish_reason
    }

    /// The total usage recorded.
    pub closed spec fn recorded_total_usage(&self) -> Option<LanguageModelUsage> {
        self.total_usage
    }

    /// The finish reason recorded, if the stream finished.
    pub fn finish_reason(&self) -> (r: Option<LanguageModelFinishReason>)
        ensures
            r == self.recorded_finish_reason(),
    {
        self.finish_reason
    }

    /// The total usage recorded, if the stream finished.
    pub fn total_usage(&self) -> (r: Option<LanguageModelUsage>)
        ensures
            r == self.recorded_total_usage(),
    {
        self.total_usage
    }

    /// Nothing recorded yet.
    pub fn new() -> (r: Self)
        ensures
            forall|k: Seq<char>| r.text_block(k) is None && r.reasoning_block(k) is None,
            r.recorded_finish_reason() is None,
            r.recorded_total_usage() is None,
    {
        StreamRecorder { active_text: Vec::new(), active_reasoning: Vec::new(), finish_reason: None, total_usage: None }
    }

    /// Records a part of the stream: text and reasoning blocks open, grow
    /// and close; the finish part records the finish reason and the total
    /// usage; other parts change nothing.
    pub fn on_part<INPUT, OUTPUT>(&mut self, part: TextStreamPart<INPUT, OUTPUT>)
        ensures
            blocks_after(
                |k: Seq<char>| old(self).text_block(k),
                |k: Seq<char>| final(self).text_block(k),
                text_event(part),
            ),
            blocks_after(
                |k: Seq<char>| old(self).reasoning_block(k),
                |k: Seq<char>| final(self).reasoning_block(k),
                reasoning_event(part),
            ),
            match part {
                TextStreamPart::Finish { finish_reason, total_usage } => final(self).recorded_finish_reason() == Some(
                    finish_reason,
                ) && final(self).recorded_total_usage() == Some(total_usage),
                _ => final(self).recorded_finish_reason() == old(self).recorded_finish_reason()
                    && final(self).recorded_total_usage() == old(self).recorded_total_usage(),
            },
    {
        match part {
            TextStreamPart::TextStart { id, provider_metadata } => {
                open_block(&mut self.active_text, id, provider_metadata);
            },
            TextStreamPart::TextDelta { id, provider_metadata, text } => {
                extend_block(&mut self.active_text, id.as_str(), text.as_str(), provider_metadata);
            },
            TextStreamPart::TextEnd { id, .. } => {
                close_block(&mut self.active_text, id.as_str());
            },
            TextStreamPart::ReasoningStart { id, provider_metadata } => {
                open_block(&mut self.active_reasoning, id, provider_metadata);
            },
            TextStreamPart::ReasoningDelta { id, provider_metadata, text } => {
                extend_block(&mut self.active_reasoning, id.as_str(), text.as_str(), provider_metadata);
            },
            TextStreamPart::ReasoningEnd { id, .. } => {
                close_block(&mut self.active_reasoning, id.as_str());
            },
            TextStreamPart::Finish { finish_reason, total_usage } => {
                self.finish_reason = Some(finish_reason);
                self.total_usage = Some(total_usage);
            },
            _ => {},
        }
    }
}

/// The error that the error callback is told of, for an error part.
pub fn error_of_part<INPUT, OUTPUT>(part: TextStreamPart<INPUT, OUTPUT>) -> (r: Option<Value>)
    ensures
        match part {
            TextStreamPart::Error { error } => r == Some(error),
            _ => r is None,
        },
{
    match part {
        TextStreamPart::Error { error } => Some(error),
        _ => None,
    }
}

} // verus!
