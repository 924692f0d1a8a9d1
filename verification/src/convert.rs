use crate::error::AISDKError;
use crate::prompt::{
    data_base64, AssistantContent, AssistantContentPart, DataContent, FileSource, ImageSource,
    ModelMessage, StandardizedPrompt, ToolContentPart, ToolResultContentPart, ToolResultOutput,
    ToolResultPart, UserContent, UserContentPart,
};
use crate::provider::{
    shape_of, shapes_of, AssistantMessagePart, LanguageModelDataContent, LanguageModelMessage,
    LanguageModelToolResultOutput, LanguageModelToolResultPart, MessageShape,
    ToolResultContentItem, UserMessagePart,
};
use crate::seq_rel::{filter_map_rel, lemma_filter_map_push};
use crate::text::push_str;
use vstd::prelude::*;

verus! {

/// Inline data or a URL, as a provider takes it.
pub open spec fn source_data_converted(d: DataContent, out: LanguageModelDataContent) -> bool {
    out matches LanguageModelDataContent::Base64(s) && s@ == data_base64(d)
}

pub open spec fn image_source_converted(src: ImageSource, out: LanguageModelDataContent) -> bool {
    match src {
        ImageSource::Data(d) => source_data_converted(d, out),
        ImageSource::Url(u) => out == LanguageModelDataContent::Url(u),
    }
}

pub open spec fn file_source_converted(src: FileSource, out: LanguageModelDataContent) -> bool {
    match src {
        FileSource::Data(d) => source_data_converted(d, out),
        FileSource::Url(u) => out == LanguageModelDataContent::Url(u),
    }
}

/// Items of multi-part tool output that a provider can take: text and
/// inline media. URL- and id-based items and custom items are dropped.
pub open spec fn content_item_kept(p: ToolResultContentPart) -> bool {
    ||| p is Text
    ||| p is Media
    ||| p is FileData
    ||| p is ImageData
}

pub open spec fn content_item_keep() -> spec_fn(ToolResultContentPart) -> bool {
    |x: ToolResultContentPart| content_item_kept(x)
}

pub open spec fn content_item_rel() -> spec_fn(ToolResultContentPart, ToolResultContentItem) -> bool {
    |x: ToolResultContentPart, y: ToolResultContentItem| content_item_converted(x, y)
}

pub open spec fn content_item_converted(p: ToolResultContentPart, q: ToolResultContentItem) -> bool {
    match p {
        ToolResultContentPart::Text { text, .. } => q == ToolResultContentItem::Text { text },
        ToolResultContentPart::Media { data, media_type } => q == ToolResultContentItem::Media {
            data,
            media_type,
        },
        ToolResultContentPart::FileData { data, media_type, .. } => q == ToolResultContentItem::Media {
            data,
            media_type,
        },
        ToolResultContentPart::ImageData { data, media_type, .. } => q
            == ToolResultContentItem::Media { data, media_type },
        _ => false,
    }
}

/// The text of a denied execution: "Execution denied: " and the reason, or
/// "No reason provided".
pub open spec fn denial_text(reason: Option<String>) -> Seq<char> {
    "Execution denied: "@ + match reason {
        Some(r) => r@,
        None => "No reason provided"@,
    }
}

pub open spec fn tool_output_converted(o: ToolResultOutput, p: LanguageModelToolResultOutput) -> bool {
    match o {
        ToolResultOutput::Text { value, .. } => p == LanguageModelToolResultOutput::Text { value },
        ToolResultOutput::Json { value, .. } => p == LanguageModelToolResultOutput::Json { value },
        ToolResultOutput::ErrorText { value, .. } => p == LanguageModelToolResultOutput::ErrorText {
            value,
        },
        ToolResultOutput::ErrorJson { value, .. } => p == LanguageModelToolResultOutput::ErrorJson {
            value,
        },
        ToolResultOutput::Content { value } => p matches LanguageModelToolResultOutput::Content {
            value: items,
        } && filter_map_rel(value@, items@, content_item_keep(), content_item_rel()),
        ToolResultOutput::ExecutionDenied { reason, .. } => p matches LanguageModelToolResultOutput::ErrorText {
            value: v,
        } && v@ == denial_text(reason),
    }
}

pub open spec fn tool_result_converted(t: ToolResultPart, q: LanguageModelToolResultPart) -> bool {
    &&& q.tool_call_id == t.tool_call_id
    &&& q.tool_name == t.tool_name
    &&& tool_output_converted(t.output, q.output)
    &&& q.provider_options == t.provider_options
}

/// User parts that reach the provider: all but empty text parts.
pub open spec fn user_part_kept(p: UserContentPart) -> bool {
    !(p matches UserContentPart::Text(t) && t.text@.len() == 0)
}

pub open spec fn user_part_keep() -> spec_fn(UserContentPart) -> bool {
    |x: UserContentPart| user_part_kept(x)
}

pub open spec fn user_part_rel() -> spec_fn(UserContentPart, UserMessagePart) -> bool {
    |x: UserContentPart, y: UserMessagePart| user_part_converted(x, y)
}

pub open spec fn user_part_converted(p: UserContentPart, q: UserMessagePart) -> bool {
    match p {
        UserContentPart::Text(t) => q == UserMessagePart::Text {
            text: t.text,
            provider_options: t.provider_options,
        },
        UserContentPart::Image(i) => q matches UserMessagePart::File {
            filename,
            data,
            media_type,
            provider_options,
        } && filename is None && image_source_converted(i.image, data) && media_type@ == match i.media_type {
            Some(m) => m@,
            None => "image/*"@,
        } && provider_options == i.provider_options,
        UserContentPart::File(f) => q matches UserMessagePart::File {
            filename,
            data,
            media_type,
            provider_options,
        } && filename == f.filename && file_source_converted(f.data, data) && media_type == f.media_type
            && provider_options == f.provider_options,
    }
}

/// Assistant parts that reach the provider: all but tool approval requests
/// and empty text parts without provider options.
pub open spec fn assistant_part_kept(p: AssistantContentPart) -> bool {
    &&& !(p is ToolApprovalRequest)
    &&& !(p matches AssistantContentPart::Text(t) && t.text@.len() == 0 && t.provider_options is None)
}

pub open spec fn assistant_part_keep() -> spec_fn(AssistantContentPart) -> bool {
    |x: AssistantContentPart| assistant_part_kept(x)
}

pub open spec fn assistant_part_rel() -> spec_fn(AssistantContentPart, AssistantMessagePart) -> bool {
    |x: AssistantContentPart, y: AssistantMessagePart| assistant_part_converted(x, y)
}

pub open spec fn assistant_part_converted(p: AssistantContentPart, q: AssistantMessagePart) -> bool {
    match p {
        AssistantContentPart::Text(t) => q == AssistantMessagePart::Text {
            text: t.text,
            provider_options: t.provider_options,
        },
        AssistantContentPart::File(f) => q matches AssistantMessagePart::File {
            filename,
            data,
            media_type,
            provider_options,
        } && filename == f.filename && file_source_converted(f.data, data) && media_type == f.media_type
            && provider_options == f.provider_options,
        AssistantContentPart::Reasoning(r) => q == AssistantMessagePart::Reasoning {
            text: r.text,
            provider_options: r.provider_options,
        },
        AssistantContentPart::ToolCall(c) => q == AssistantMessagePart::ToolCall {
            tool_call_id: c.tool_call_id,
            tool_name: c.tool_name,
            input: c.input,
            provider_executed: c.provider_executed,
            provider_options: c.provider_options,
        },
        AssistantContentPart::ToolResult(t) => q matches AssistantMessagePart::ToolResult {
            tool_call_id,
            tool_name,
            output,
            provider_options,
        } && tool_call_id == t.tool_call_id && tool_name == t.tool_name && tool_output_converted(
            t.output,
            output,
        ) && provider_options == t.provider_options,
        AssistantContentPart::ToolApprovalRequest(_) => false,
    }
}

/// Tool parts that reach the provider: the tool results; approval
/// responses are dropped.
pub open spec fn tool_part_kept(p: ToolContentPart) -> bool {
    p is ToolResult
}

pub open spec fn tool_part_keep() -> spec_fn(ToolContentPart) -> bool {
    |x: ToolContentPart| tool_part_kept(x)
}

pub open spec fn tool_part_rel() -> spec_fn(ToolContentPart, LanguageModelToolResultPart) -> bool {
    |x: ToolContentPart, y: LanguageModelToolResultPart| tool_part_converted(x, y)
}

pub open spec fn tool_part_converted(p: ToolContentPart, q: LanguageModelToolResultPart) -> bool {
    match p {
        ToolContentPart::ToolResult(t) => tool_result_converted(t, q),
        _ => false,
    }
}

/// How one message of the conversation reads in a provider prompt.
pub open spec fn message_converted(m: ModelMessage, q: LanguageModelMessage) -> bool {
    match m {
        ModelMessage::System(s) => q == LanguageModelMessage::System {
            content: s.content,
            provider_options: s.provider_options,
        },
        ModelMessage::User(u) => q matches LanguageModelMessage::User { content, provider_options }
            && provider_options == u.provider_options && match u.content {
            UserContent::Text(t) => content@ == seq![
                UserMessagePart::Text { text: t, provider_options: None },
            ],
            UserContent::Parts(ps) => filter_map_rel(ps@, content@, user_part_keep(), user_part_rel()),
        },
        ModelMessage::Assistant(a) => q matches LanguageModelMessage::Assistant {
            content,
            provider_options,
        } && provider_options == a.provider_options && match a.content {
            AssistantContent::Text(t) => content@ == seq![
                AssistantMessagePart::Text { text: t, provider_options: None },
            ],
            AssistantContent::Parts(ps) => filter_map_rel(
                ps@,
                content@,
                assistant_part_keep(),
                assistant_part_rel(),
            ),
        },
        ModelMessage::Tool(t) => q matches LanguageModelMessage::Tool { content, provider_options }
            && provider_options == t.provider_options && filter_map_rel(
            t.content@,
            content@,
            tool_part_keep(),
            tool_part_rel(),
        ),
    }
}

pub open spec fn message_keep() -> spec_fn(ModelMessage) -> bool {
    |x: ModelMessage| true
}

pub open spec fn message_rel() -> spec_fn(ModelMessage, LanguageModelMessage) -> bool {
    |x: ModelMessage, y: LanguageModelMessage| message_converted(x, y)
}

/// `out` is the messages of a prompt, one by one, in provider form, after
/// the system instruction when there is one.
pub open spec fn messages_converted(
    system: Option<String>,
    messages: Seq<ModelMessage>,
    out: Seq<LanguageModelMessage>,
) -> bool {
    match system {
        Some(s) => out.len() > 0 && out[0] == (LanguageModelMessage::System {
            content: s,
            provider_options: None,
        }) && filter_map_rel(messages, out.drop_first(), message_keep(), message_rel()),
        None => filter_map_rel(messages, out, message_keep(), message_rel()),
    }
}

/// Merges each run of consecutive tool messages into one tool message that
/// holds their results in order and the provider options of the first.
pub open spec fn combine_shapes(ms: Seq<MessageShape>) -> Seq<MessageShape>
    decreases ms.len(),
{
    if ms.len() == 0 {
        Seq::empty()
    } else {
        let c = combine_shapes(ms.drop_last());
        let m = ms.last();
        if m is Tool && c.len() > 0 && c.last() is Tool {
            c.update(
                c.len() - 1,
                MessageShape::Tool {
                    content: c.last()->Tool_content + m->Tool_content,
                    provider_options: c.last()->Tool_provider_options,
                },
            )
        } else {
            c.push(m)
        }
    }
}

fn convert_content_items(items: Vec<ToolResultContentPart>) -> (out: Vec<ToolResultContentItem>)
    ensures
        filter_map_rel(items@, out@, content_item_keep(), content_item_rel()),
{
    let ghost keep = content_item_keep();
    let ghost rel = content_item_rel();
    let mut out: Vec<ToolResultContentItem> = Vec::new();
    let ghost all = items@;
    for p in it: items
        invariant
            it.seq() == all,
            keep == content_item_keep(),
            rel == content_item_rel(),
            filter_map_rel(all.take(it.index() as int), out@, keep, rel),
    {
        let ghost before = out@;
        let ghost i = it.index() as int;
        let ghost pv = p;
        assert(all.take(i + 1) =~= all.take(i).push(p));
        let item = match p {
            ToolResultContentPart::Text { text, .. } => Some(ToolResultContentItem::Text { text }),
            ToolResultContentPart::Media { data, media_type } => Some(
                ToolResultContentItem::Media { data, media_type },
            ),
            ToolResultContentPart::FileData { data, media_type, .. } => Some(
                ToolResultContentItem::Media { data, media_type },
            ),
            ToolResultContentPart::ImageData { data, media_type, .. } => Some(
                ToolResultContentItem::Media { data, media_type },
            ),
            _ => None,
        };
        match item {
            Some(q) => {
                proof {
                    assert(content_item_converted(pv, q));
                    assert(rel(pv, q));
                    lemma_filter_map_push(all.take(i), before, keep, rel, pv, q);
                }
                out.push(q);
            },
            None => {
                proof {
                    lemma_filter_map_push(all.take(i), before, keep, rel, pv, ToolResultContentItem::Text { text: arbitrary() });
                }
            },
        }
    }
    assert(all.take(all.len() as int) =~= all);
    out
}

fn convert_tool_result_output(output: ToolResultOutput) -> (p: LanguageModelToolResultOutput)
    ensures
        tool_output_converted(output, p),
{
    match output {
        ToolResultOutput::Text { value, .. } => LanguageModelToolResultOutput::Text { value },
        ToolResultOutput::Json { value, .. } => LanguageModelToolResultOutput::Json { value },
        ToolResultOutput::ErrorText { value, .. } => LanguageModelToolResultOutput::ErrorText { value },
        ToolResultOutput::ErrorJson { value, .. } => LanguageModelToolResultOutput::ErrorJson { value },
        ToolResultOutput::Content { value } => LanguageModelToolResultOutput::Content {
            value: convert_content_items(value),
        },
        ToolResultOutput::ExecutionDenied { reason, .. } => {
            let mut text = "Execution denied: ".to_owned();
            match reason {
                Some(r) => push_str(&mut text, r.as_str()),
                None => push_str(&mut text, "No reason provided"),
            }
            LanguageModelToolResultOutput::ErrorText { value: text }
        },
    }
}

fn convert_tool_result_to_provider(tool_result: ToolResultPart) -> (q: LanguageModelToolResultPart)
    ensures
        tool_result_converted(tool_result, q),
{
    LanguageModelToolResultPart {
        tool_call_id: tool_result.tool_call_id,
        tool_name: tool_result.tool_name,
        output: convert_tool_result_output(tool_result.output),
        provider_options: tool_result.provider_options,
    }
}

fn convert_image_source_to_data_content(source: ImageSource) -> (d: LanguageModelDataContent)
    ensures
        image_source_converted(source, d),
{
    match source {
        ImageSource::Data(data) => LanguageModelDataContent::Base64(data.to_base64()),
        ImageSource::Url(url) => LanguageModelDataContent::Url(url),
    }
}

fn convert_file_source_to_data_content(source: FileSource) -> (d: LanguageModelDataContent)
    ensures
        file_source_converted(source, d),
{
    match source {
        FileSource::Data(data) => LanguageModelDataContent::Base64(data.to_base64()),
        FileSource::Url(url) => LanguageModelDataContent::Url(url),
    }
}

fn convert_user_content_part(part: UserContentPart) -> (q: UserMessagePart)
    ensures
        user_part_converted(part, q),
{
    match part {
        UserContentPart::Text(t) => UserMessagePart::Text { text: t.text, provider_options: t.provider_options },
        UserContentPart::Image(i) => {
            let data = convert_image_source_to_data_content(i.image);
            let media_type = match i.media_type {
                Some(m) => m,
                None => "image/*".to_owned(),
            };
            UserMessagePart::File { filename: None, data, media_type, provider_options: i.provider_options }
        },
        UserContentPart::File(f) => {
            let data = convert_file_source_to_data_content(f.data);
            UserMessagePart::File {
                filename: f.filename,
                data,
                media_type: f.media_type,
                provider_options: f.provider_options,
            }
        },
    }
}

fn convert_assistant_content_part(part: AssistantContentPart) -> (q: AssistantMessagePart)
    requires
        !(part is ToolApprovalRequest),
    ensures
        assistant_part_converted(part, q),
{
    match part {
        AssistantContentPart::Text(t) => AssistantMessagePart::Text {
            text: t.text,
            provider_options: t.provider_options,
        },
        AssistantContentPart::File(f) => {
            let data = convert_file_source_to_data_content(f.data);
            AssistantMessagePart::File {
                filename: f.filename,
                data,
                media_type: f.media_type,
                provider_options: f.provider_options,
            }
        },
        AssistantContentPart::Reasoning(r) => AssistantMessagePart::Reasoning {
            text: r.text,
            provider_options: r.provider_options,
        },
        AssistantContentPart::ToolCall(c) => AssistantMessagePart::ToolCall {
            tool_call_id: c.tool_call_id,
            tool_name: c.tool_name,
            input: c.input,
            provider_executed: c.provider_executed,
            provider_options: c.provider_options,
        },
        AssistantContentPart::ToolResult(t) => AssistantMessagePart::ToolResult {
            tool_call_id: t.tool_call_id,
            tool_name: t.tool_name,
            output: convert_tool_result_output(t.output),
            provider_options: t.provider_options,
        },
        AssistantContentPart::ToolApprovalRequest(_) => vstd::pervasive::unreached(),
    }
}

fn convert_user_parts(parts: Vec<UserContentPart>) -> (out: Vec<UserMessagePart>)
    ensures
        filter_map_rel(parts@, out@, user_part_keep(), user_part_rel()),
{
    let mut out: Vec<UserMessagePart> = Vec::new();
    let ghost all = parts@;
    for p in it: parts
        invariant
            it.seq() == all,
            filter_map_rel(all.take(it.index() as int), out@, user_part_keep(), user_part_rel()),
    {
        let ghost before = out@;
        let ghost i = it.index() as int;
        let ghost pv = p;
        assert(all.take(i + 1) =~= all.take(i).push(p));
        let keep = match &p {
            UserContentPart::Text(t) => !t.text.as_str().is_empty(),
            _ => true,
        };
        assert(keep == user_part_kept(pv));
        let q = convert_user_content_part(p);
        proof {
            lemma_filter_map_push(all.take(i), before, user_part_keep(), user_part_rel(), pv, q);
        }
        if keep {
            out.push(q);
        }
    }
    assert(all.take(all.len() as int) =~= all);
    out
}

fn convert_assistant_parts(parts: Vec<AssistantContentPart>) -> (out: Vec<AssistantMessagePart>)
    ensures
        filter_map_rel(parts@, out@, assistant_part_keep(), assistant_part_rel()),
{
    let mut out: Vec<AssistantMessagePart> = Vec::new();
    let ghost all = parts@;
    for p in it: parts
        invariant
            it.seq() == all,
            filter_map_rel(all.take(it.index() as int), out@, assistant_part_keep(), assistant_part_rel()),
    {
        let ghost before = out@;
        let ghost i = it.index() as int;
        let ghost pv = p;
        assert(all.take(i + 1) =~= all.take(i).push(p));
        let keep = match &p {
            AssistantContentPart::ToolApprovalRequest(_) => false,
            AssistantContentPart::Text(t) => !t.text.as_str().is_empty() || t.provider_options.is_some(),
            _ => true,
        };
        assert(keep == assistant_part_kept(pv));
        if keep {
            let q = convert_assistant_content_part(p);
            proof {
                lemma_filter_map_push(all.take(i), before, assistant_part_keep(), assistant_part_rel(), pv, q);
            }
            out.push(q);
        } else {
            proof {
                lemma_filter_map_push(
                    all.take(i),
                    before,
                    assistant_part_keep(),
                    assistant_part_rel(),
                    pv,
                    AssistantMessagePart::Reasoning { text: arbitrary(), provider_options: None },
                );
            }
        }
    }
    assert(all.take(all.len() as int) =~= all);
    out
}

fn convert_tool_parts(parts: Vec<ToolContentPart>) -> (out: Vec<LanguageModelToolResultPart>)
    ensures
        filter_map_rel(parts@, out@, tool_part_keep(), tool_part_rel()),
{
    let mut out: Vec<LanguageModelToolResultPart> = Vec::new();
    let ghost all = parts@;
    for p in it: parts
        invariant
            it.seq() == all,
            filter_map_rel(all.take(it.index() as int), out@, tool_part_keep(), tool_part_rel()),
    {
        let ghost before = out@;
        let ghost i = it.index() as int;
        let ghost pv = p;
        assert(all.take(i + 1) =~= all.take(i).push(p));
        match p {
            ToolContentPart::ToolResult(t) => {
                let q = convert_tool_result_to_provider(t);
                proof {
                    lemma_filter_map_push(all.take(i), before, tool_part_keep(), tool_part_rel(), pv, q);
                }
                out.push(q);
            },
            ToolContentPart::ToolApprovalResponse(_) => {
                proof {
                    lemma_filter_map_push(
                        all.take(i),
                        before,
                        tool_part_keep(),
                        tool_part_rel(),
                        pv,
                        arbitrary(),
                    );
                }
            },
        }
    }
    assert(all.take(all.len() as int) =~= all);
    out
}

fn convert_to_language_model_message(message: ModelMessage) -> (q: LanguageModelMessage)
    ensures
        message_converted(message, q),
{
    match message {
        ModelMessage::System(s) => LanguageModelMessage::System {
            content: s.content,
            provider_options: s.provider_options,
        },
        ModelMessage::User(u) => {
            let content = match u.content {
                UserContent::Text(text) => {
                    let mut v = Vec::new();
                    v.push(UserMessagePart::Text { text, provider_options: None });
                    v
                },
                UserContent::Parts(parts) => convert_user_parts(parts),
            };
            LanguageModelMessage::User { content, provider_options: u.provider_options }
        },
        ModelMessage::Assistant(a) => {
            let content = match a.content {
                AssistantContent::Text(text) => {
                    let mut v = Vec::new();
                    v.push(AssistantMessagePart::Text { text, provider_options: None });
                    v
                },
                AssistantContent::Parts(parts) => convert_assistant_parts(parts),
            };
            LanguageModelMessage::Assistant { content, provider_options: a.provider_options }
        },
        ModelMessage::Tool(t) => {
            let content = convert_tool_parts(t.content);
            LanguageModelMessage::Tool { content, provider_options: t.provider_options }
        },
    }
}

/// Merges each run of consecutive tool messages into one tool message, as
/// `combine_shapes` says: the merged message has the run's results in
/// order and the options of the run's first message. After it no two tool
/// messages stand next to each other, and the tool results and the other
/// messages are all kept, in order.
pub fn combine_consecutive_tool_messages(messages: Vec<LanguageModelMessage>) -> (out: Vec<
    LanguageModelMessage,
>)
    ensures
        shapes_of(out@) == combine_shapes(shapes_of(messages@)),
        forall|i: int| 0 <= i < out@.len() - 1 ==> !(#[trigger] out@[i] is Tool && out@[i + 1] is Tool),
        tool_results_of(shapes_of(out@)) == tool_results_of(shapes_of(messages@)),
        other_messages(shapes_of(out@)) == other_messages(shapes_of(messages@)),
{
    let mut combined: Vec<LanguageModelMessage> = Vec::new();
    let ghost all = messages@;
    for m in it: messages
        invariant
            it.seq() == all,
            shapes_of(combined@) == combine_shapes(shapes_of(all.take(it.index() as int))),
    {
        let ghost i = it.index() as int;
        let ghost before = combined@;
        let ghost mv = m;
        assert(all.take(i + 1) =~= all.take(i).push(m));
        assert(shapes_of(all.take(i + 1)) =~= shapes_of(all.take(i)).push(shape_of(m)));
        assert(shapes_of(all.take(i + 1)).drop_last() =~= shapes_of(all.take(i)));
        match m {
            LanguageModelMessage::Tool { content, provider_options } => {
                let n = combined.len();
                let last_is_tool = n > 0 && match &combined[n - 1] {
                    LanguageModelMessage::Tool { .. } => true,
                    _ => false,
                };
                if last_is_tool {
                    assert(shapes_of(before).last() == shape_of(before[n - 1]));
                    let mut content = content;
                    match combined.pop() {
                        Some(LanguageModelMessage::Tool { content: c, provider_options: po }) => {
                            let mut c = c;
                            let ghost c0 = c@;
                            c.append(&mut content);
                            combined.push(LanguageModelMessage::Tool { content: c, provider_options: po });
                            assert(shapes_of(combined@) =~= shapes_of(before).update(
                                n - 1,
                                MessageShape::Tool { content: c0 + mv->Tool_content@, provider_options: po },
                            ));
                        },
                        _ => vstd::pervasive::unreached(),
                    }
                } else {
                    combined.push(LanguageModelMessage::Tool { content, provider_options });
                    assert(shapes_of(combined@) =~= shapes_of(before).push(shape_of(mv)));
                }
            },
            other => {
                combined.push(other);
                assert(shapes_of(combined@) =~= shapes_of(before).push(shape_of(mv)));
            },
        }
    }
    assert(all.take(all.len() as int) =~= all);
    proof {
        let ms = shapes_of(all);
        lemma_combine_no_adjacent_tools(ms);
        lemma_combine_keeps_tool_results(ms);
        lemma_combine_keeps_other_messages(ms);
        let out = combined@;
        assert forall|i: int| 0 <= i < out.len() - 1 implies !(#[trigger] out[i] is Tool && out[i + 1] is Tool) by {
            assert(shapes_of(out)[i] == shape_of(out[i]));
            assert(shapes_of(out)[i + 1] == shape_of(out[i + 1]));
        }
    }
    combined
}

/// Converts a standardized prompt into the messages of a provider prompt:
/// the system instruction first, when there is one, then every message in
/// provider form, with consecutive tool messages merged into one.
pub fn convert_to_language_model_prompt(prompt: StandardizedPrompt) -> (r: Result<
    Vec<LanguageModelMessage>,
    AISDKError,
>)
    ensures
        r matches Ok(out) && exists|conv: Seq<LanguageModelMessage>|
            messages_converted(prompt.system, prompt.messages@, conv) && shapes_of(out@)
                == combine_shapes(shapes_of(conv)),
{
    let ghost msgs = prompt.messages@;
    let mut converted: Vec<LanguageModelMessage> = Vec::new();
    for message in it: prompt.messages
        invariant
            it.seq() == msgs,
            filter_map_rel(msgs.take(it.index() as int), converted@, message_keep(), message_rel()),
    {
        let ghost i = it.index() as int;
        let ghost before = converted@;
        let ghost mv = message;
        assert(msgs.take(i + 1) =~= msgs.take(i).push(message));
        let q = convert_to_language_model_message(message);
        proof {
            lemma_filter_map_push(msgs.take(i), before, message_keep(), message_rel(), mv, q);
        }
        converted.push(q);
    }
    assert(msgs.take(msgs.len() as int) =~= msgs);
    let mut messages: Vec<LanguageModelMessage> = Vec::new();
    match prompt.system {
        Some(system_content) => {
            messages.push(LanguageModelMessage::System { content: system_content, provider_options: None });
            let ghost conv = converted@;
            messages.append(&mut converted);
            assert(messages@.drop_first() =~= conv);
        },
        None => {
            messages = converted;
        },
    }
    let ghost conv_all = messages@;
    let combined = combine_consecutive_tool_messages(messages);
    assert(messages_converted(prompt.system, msgs, conv_all));
    Ok(combined)
}

/// No two tool messages stand next to each other.
pub open spec fn no_adjacent_tools(ms: Seq<MessageShape>) -> bool {
    forall|i: int| 0 <= i < ms.len() - 1 ==> !(#[trigger] ms[i] is Tool && ms[i + 1] is Tool)
}

/// The tool results of all tool messages, in order.
pub open spec fn tool_results_of(ms: Seq<MessageShape>) -> Seq<LanguageModelToolResultPart>
    decreases ms.len(),
{
    if ms.len() == 0 {
        Seq::empty()
    } else {
        tool_results_of(ms.drop_last()) + match ms.last() {
            MessageShape::Tool { content, .. } => content,
            MessageShape::Other { .. } => Seq::empty(),
        }
    }
}

/// The messages that are not tool messages, in order.
pub open spec fn other_messages(ms: Seq<MessageShape>) -> Seq<LanguageModelMessage>
    decreases ms.len(),
{
    if ms.len() == 0 {
        Seq::empty()
    } else {
        match ms.last() {
            MessageShape::Tool { .. } => other_messages(ms.drop_last()),
            MessageShape::Other { message } => other_messages(ms.drop_last()).push(message),
        }
    }
}

/// After merging, no two tool messages stand next to each other.
pub proof fn lemma_combine_no_adjacent_tools(ms: Seq<MessageShape>)
    ensures
        no_adjacent_tools(combine_shapes(ms)),
    decreases ms.len(),
{
    if ms.len() > 0 {
        lemma_combine_no_adjacent_tools(ms.drop_last());
        let c = combine_shapes(ms.drop_last());
        let r = combine_shapes(ms);
        assert forall|i: int| 0 <= i < r.len() - 1 implies !(#[trigger] r[i] is Tool && r[i + 1] is Tool) by {
            if i < c.len() - 1 {
                assert(r[i] == c[i]);
            }
        }
    }
}

/// Merging keeps every tool result, in order.
pub proof fn lemma_combine_keeps_tool_results(ms: Seq<MessageShape>)
    ensures
        tool_results_of(combine_shapes(ms)) == tool_results_of(ms),
    decreases ms.len(),
{
    if ms.len() > 0 {
        lemma_combine_keeps_tool_results(ms.drop_last());
        let c = combine_shapes(ms.drop_last());
        let m = ms.last();
        if m is Tool && c.len() > 0 && c.last() is Tool {
            let x = MessageShape::Tool {
                content: c.last()->Tool_content + m->Tool_content,
                provider_options: c.last()->Tool_provider_options,
            };
            let u = c.update(c.len() - 1, x);
            assert(u.drop_last() =~= c.drop_last());
            assert(tool_results_of(u) =~= tool_results_of(c.drop_last()) + c.last()->Tool_content
                + m->Tool_content);
        } else {
            assert(c.push(m).drop_last() =~= c);
        }
    }
}

/// Merging keeps every other message, in order.
pub proof fn lemma_combine_keeps_other_messages(ms: Seq<MessageShape>)
    ensures
        other_messages(combine_shapes(ms)) == other_messages(ms),
    decreases ms.len(),
{
    if ms.len() > 0 {
        lemma_combine_keeps_other_messages(ms.drop_last());
        let c = combine_shapes(ms.drop_last());
        let m = ms.last();
        if m is Tool && c.len() > 0 && c.last() is Tool {
            let x = MessageShape::Tool {
                content: c.last()->Tool_content + m->Tool_content,
                provider_options: c.last()->Tool_provider_options,
            };
            let u = c.update(c.len() - 1, x);
            assert(u.drop_last() =~= c.drop_last());
        } else {
            assert(c.push(m).drop_last() =~= c);
        }
    }
}

/// A prompt with no two tool messages next to each other is left as it is.
pub proof fn lemma_combine_identity(ms: Seq<MessageShape>)
    requires
        no_adjacent_tools(ms),
    ensures
        combine_shapes(ms) == ms,
    decreases ms.len(),
{
    if ms.len() > 0 {
        let d = ms.drop_last();
        assert(no_adjacent_tools(d)) by {
            assert forall|i: int| 0 <= i < d.len() - 1 implies !(#[trigger] d[i] is Tool && d[i + 1] is Tool) by {
                assert(d[i] == ms[i] && d[i + 1] == ms[i + 1]);
            }
        }
        lemma_combine_identity(d);
        if ms.len() >= 2 {
            assert(!(ms[ms.len() - 2] is Tool && ms[ms.len() - 1] is Tool));
        }
        assert(d.push(ms.last()) =~= ms);
    }
}

/// Merging the tool messages of a prompt whose tool messages were already
/// merged changes nothing: `once` and `twice` are what merging gives of
/// `messages` and of `once`.
pub proof fn lemma_combine_messages_idempotent(
    messages: Seq<LanguageModelMessage>,
    once: Seq<LanguageModelMessage>,
    twice: Seq<LanguageModelMessage>,
)
    requires
        shapes_of(once) == combine_shapes(shapes_of(messages)),
        shapes_of(twice) == combine_shapes(shapes_of(once)),
    ensures
        shapes_of(twice) == shapes_of(once),
{
    lemma_combine_idempotent(shapes_of(messages));
}

/// Merging twice gives what merging once gives.
pub proof fn lemma_combine_idempotent(ms: Seq<MessageShape>)
    ensures
        combine_shapes(combine_shapes(ms)) == combine_shapes(ms),
{
    lemma_combine_no_adjacent_tools(ms);
    lemma_combine_identity(combine_shapes(ms));
}

/// Converting a tool's output for the provider keeps what kind of output it
/// is and its value: text stays text and JSON stays JSON, an error text or
/// error JSON stays an error of the same form with the same value, and a
/// denied execution is told to the model as error text. An output that was
/// an error is never shown to the model as a successful result, and a
/// successful result never as an error.
pub proof fn lemma_tool_output_kind_kept(o: ToolResultOutput, p: LanguageModelToolResultOutput)
    requires
        tool_output_converted(o, p),
    ensures
        o matches ToolResultOutput::Text { value, .. } ==> (p matches LanguageModelToolResultOutput::Text { value: v }
            && v == value),
        o matches ToolResultOutput::Json { value, .. } ==> (p matches LanguageModelToolResultOutput::Json { value: v }
            && v == value),
        o matches ToolResultOutput::ErrorText { value, .. } ==> (
        p matches LanguageModelToolResultOutput::ErrorText { value: v } && v == value),
        o matches ToolResultOutput::ErrorJson { value, .. } ==> (
        p matches LanguageModelToolResultOutput::ErrorJson { value: v } && v == value),
        o is ExecutionDenied ==> p is ErrorText,
        (o is ErrorText || o is ErrorJson || o is ExecutionDenied) <==> (p is ErrorText || p is ErrorJson),
        p is Text <==> o is Text,
        p is Json <==> o is Json,
{
}

} // verus!
