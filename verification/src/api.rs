//! OpenAI- and Anthropic-compatible gateway: how requests become prompts
//! for the upstream server, and how its streamed reply is cut into lines.

use vstd::prelude::*;
use vstd::string::StringExecFns;
use crate::text::{chars_of, join_lines, push_str, string_from_chars};

verus! {

broadcast use vstd::string::group_string_axioms;

/// One chat message of a request: its `role` and `content` when they are strings.
#[derive(Debug, Clone, PartialEq, Eq)]
pub struct ChatMessage {
    pub role: Option<String>,
    pub content: Option<String>,
}

/// `role: content` for each message that has both, in order.
pub open spec fn rendered_messages(ms: Seq<ChatMessage>) -> Seq<Seq<char>>
    decreases ms.len(),
{
    if ms.len() == 0 {
        Seq::empty()
    } else {
        let rest = rendered_messages(ms.drop_last());
        match (ms.last().role, ms.last().content) {
            (Some(role), Some(content)) => rest.push(role@ + ": "@ + content@),
            _ => rest,
        }
    }
}

/// The conversation as one prompt: the rendered messages joined by newlines.
pub fn conversation_prompt(messages: &Vec<ChatMessage>) -> (r: String)
    ensures
        r@ == join_lines(rendered_messages(messages@)),
{
    let mut out: Vec<char> = Vec::new();
    let mut count: usize = 0;
    for i in 0..messages.len()
        invariant
            out@ == join_lines(rendered_messages(messages@.take(i as int))),
            count == rendered_messages(messages@.take(i as int)).len(),
            count <= i,
    {
        let ghost old_lines = rendered_messages(messages@.take(i as int));
        assert(messages@.take(i + 1).drop_last() =~= messages@.take(i as int));
        assert(messages@.take(i + 1).last() == messages@[i as int]);
        let m = &messages[i];
        match (&m.role, &m.content) {
            (Some(role), Some(content)) => {
                let ghost line = role@ + ": "@ + content@;
                if count > 0 {
                    out.push('\n');
                }
                push_str(&mut out, role.as_str());
                push_str(&mut out, ": ");
                push_str(&mut out, content.as_str());
                assert(rendered_messages(messages@.take(i + 1)) == old_lines.push(line));
                assert(old_lines.push(line).drop_last() =~= old_lines);
                proof {
                    if old_lines.len() == 0 {
                        assert(out@ =~= line);
                    } else {
                        assert(out@ =~= join_lines(old_lines) + seq!['\n'] + line);
                    }
                }
                count = count + 1;
            },
            _ => {},
        }
    }
    assert(messages@.take(messages.len() as int) =~= messages@);
    string_from_chars(&out)
}

/// The prompt of an OpenAI request: its `input` text when there is one,
/// else its messages, else nothing.
pub fn openai_prompt(input: Option<String>, messages: Option<Vec<ChatMessage>>) -> (r: String)
    ensures
        input matches Some(text) ==> r@ == text@,
        input is None ==> (messages matches Some(ms) ==> r@ == join_lines(rendered_messages(ms@))),
        input is None && messages is None ==> r@ == Seq::<char>::empty(),
{
    match input {
        Some(text) => text,
        None => anthropic_prompt(messages),
    }
}

/// The prompt of an Anthropic request: its messages, or nothing.
pub fn anthropic_prompt(messages: Option<Vec<ChatMessage>>) -> (r: String)
    ensures
        messages matches Some(ms) ==> r@ == join_lines(rendered_messages(ms@)),
        messages is None ==> r@ == Seq::<char>::empty(),
{
    match messages {
        Some(ms) => conversation_prompt(&ms),
        None => String::new(),
    }
}

/// Removes every trailing `/`.
pub open spec fn without_trailing_slashes(s: Seq<char>) -> Seq<char>
    decreases s.len(),
{
    if s.len() > 0 && s.last() == '/' {
        without_trailing_slashes(s.drop_last())
    } else {
        s
    }
}

/// The upstream base URL without trailing slashes, so paths can be appended.
pub fn upstream_base(upstream: &str) -> (r: String)
    ensures
        r@ == without_trailing_slashes(upstream@),
{
    let chars = crate::text::chars_of(upstream);
    let mut n = chars.len();
    assert(chars@.take(n as int) =~= chars@);
    while n > 0 && chars[n - 1] == '/'
        invariant
            n <= chars.len(),
            without_trailing_slashes(chars@) == without_trailing_slashes(chars@.take(n as int)),
        decreases n,
    {
        assert(chars@.take(n as int).drop_last() =~= chars@.take(n - 1));
        n = n - 1;
    }
    let kept = crate::text::slice_range(&chars, 0, n);
    assert(kept@ =~= chars@.take(n as int));
    string_from_chars(&kept)
}

/// Index of the first newline byte, or the length.
pub open spec fn newline_at(b: Seq<u8>) -> int
    decreases b.len(),
{
    if b.len() == 0 {
        0
    } else if b[0] == 10 {
        0
    } else {
        1 + newline_at(b.drop_first())
    }
}

/// The bytes without any `\n` or `\r`.
pub open spec fn without_line_breaks(b: Seq<u8>) -> Seq<u8>
    decreases b.len(),
{
    if b.len() == 0 {
        Seq::empty()
    } else {
        let rest = without_line_breaks(b.drop_last());
        if b.last() == 10 || b.last() == 13 {
            rest
        } else {
            rest.push(b.last())
        }
    }
}

proof fn lemma_newline_at(b: Seq<u8>, n: int)
    requires
        0 <= n <= b.len(),
        forall|k: int| 0 <= k < n ==> b[k] != 10,
        n < b.len() ==> b[n] == 10,
    ensures
        newline_at(b) == n,
    decreases b.len(),
{
    if b.len() > 0 && b[0] != 10 {
        assert forall|k: int| 0 <= k < n - 1 implies b.drop_first()[k] != 10 by {
            assert(b[k + 1] != 10);
        }
        lemma_newline_at(b.drop_first(), n - 1);
    }
}

/// Takes the first complete line of a streamed reply off the buffer: the
/// bytes up to and including the first newline leave the buffer, and come
/// back without line breaks. Without a newline the buffer stays as it is.
pub fn take_stream_line(buffer: &mut Vec<u8>) -> (r: Option<Vec<u8>>)
    ensures
        newline_at(old(buffer)@) == old(buffer)@.len() ==> (r is None && final(buffer)@ == old(
            buffer,
        )@),
        newline_at(old(buffer)@) < old(buffer)@.len() ==> (r matches Some(line) && line@
            == without_line_breaks(old(buffer)@.take(newline_at(old(buffer)@) + 1))
            && final(buffer)@ == old(buffer)@.skip(newline_at(old(buffer)@) + 1)),
{
    let mut index: usize = 0;
    while index < buffer.len() && buffer[index] != 10
        invariant
            index <= buffer.len(),
            forall|k: int| 0 <= k < index ==> buffer@[k] != 10,
        decreases buffer.len() - index,
    {
        index = index + 1;
    }
    proof {
        lemma_newline_at(buffer@, index as int);
    }
    if index == buffer.len() {
        return None;
    }
    let ghost whole = buffer@;
    let mut line: Vec<u8> = Vec::new();
    for k in 0..index + 1
        invariant
            index < whole.len(),
            buffer@ == whole,
            line@ == without_line_breaks(whole.take(k as int)),
    {
        let b = buffer[k];
        assert(whole.take(k + 1).drop_last() =~= whole.take(k as int));
        if b != 10 && b != 13 {
            line.push(b);
        }
    }
    let mut rest: Vec<u8> = Vec::new();
    for k in index + 1..buffer.len()
        invariant
            index < whole.len(),
            buffer@ == whole,
            rest@ == whole.subrange(index + 1, k as int),
    {
        rest.push(buffer[k]);
        assert(whole.subrange(index + 1, k + 1) =~= whole.subrange(index + 1, k as int).push(whole[k as int]));
    }
    assert(rest@ =~= whole.skip(index + 1));
    *buffer = rest;
    Some(line)
}


/// The context window asked of the upstream for an OpenAI request that
/// names no `max_tokens`.
pub const DEFAULT_CONTEXT_TOKENS: u64 = 32768;

/// Which reply format the client expects.
#[derive(Debug, Clone, Copy, PartialEq, Eq, Structural)]
pub enum ReplyFormat {
    /// OpenAI `/v1/responses`.
    Response,
    /// OpenAI chat or text completion.
    ChatCompletion,
    /// Anthropic `/v1/messages`.
    Message,
}

/// The upstream chat request a client request becomes.
#[derive(Debug, Clone, PartialEq, Eq)]
pub struct ChatPlan {
    pub model: String,
    pub prompt: String,
    pub stream: bool,
    /// The context window to ask for, when the format sets one.
    pub context_tokens: Option<u64>,
    pub format: ReplyFormat,
}

pub open spec fn ends_with_seq(s: Seq<char>, suffix: Seq<char>) -> bool {
    suffix.len() <= s.len() && s.subrange(s.len() - suffix.len(), s.len() as int) == suffix
}

fn path_ends_with(path: &str, suffix: &str) -> (r: bool)
    ensures
        r == ends_with_seq(path@, suffix@),
{
    let p = chars_of(path);
    let x = chars_of(suffix);
    if x.len() > p.len() {
        return false;
    }
    let off = p.len() - x.len();
    let mut i: usize = 0;
    while i < x.len()
        invariant
            off + x.len() == p.len(),
            i <= x.len(),
            p@ == path@,
            x@ == suffix@,
            forall|k: int| 0 <= k < i ==> p@[off + k] == x@[k],
        decreases x.len() - i,
    {
        if p[off + i] != x[i] {
            assert(p@.subrange(off as int, p.len() as int)[i as int] != x@[i as int]);
            return false;
        }
        i = i + 1;
    }
    assert(p@.subrange(off as int, p.len() as int) =~= x@);
    true
}

fn model_or_default(model: Option<String>, default_model: &str) -> (r: String)
    ensures
        model matches Some(m) ==> r@ == m@,
        model is None ==> r@ == default_model@,
{
    match model {
        Some(m) => m,
        None => default_model.to_string(),
    }
}

pub open spec fn model_view(model: Option<String>, default_model: Seq<char>) -> Seq<char> {
    match model {
        Some(m) => m@,
        None => default_model,
    }
}

pub open spec fn prompt_view(input: Option<String>, messages: Option<Vec<ChatMessage>>) -> Seq<char> {
    match input {
        Some(text) => text@,
        None => match messages {
            Some(ms) => join_lines(rendered_messages(ms@)),
            None => Seq::empty(),
        },
    }
}

/// An OpenAI request at `path`: the requested model or the default, the
/// prompt from `input` or the messages, streaming only when asked, a
/// context window of `max_tokens` or 32768, and the `/responses` format
/// for paths that end so.
pub fn plan_openai_chat(
    path: &str,
    default_model: &str,
    model: Option<String>,
    input: Option<String>,
    messages: Option<Vec<ChatMessage>>,
    stream: Option<bool>,
    max_tokens: Option<u64>,
) -> (r: ChatPlan)
    ensures
        r.model@ == model_view(model, default_model@),
        r.prompt@ == prompt_view(input, messages),
        r.stream == (stream == Some(true)),
        r.context_tokens == Some(
            match max_tokens {
                Some(t) => t,
                None => DEFAULT_CONTEXT_TOKENS,
            },
        ),
        r.format == (if ends_with_seq(path@, "/responses"@) {
            ReplyFormat::Response
        } else {
            ReplyFormat::ChatCompletion
        }),
{
    let format = if path_ends_with(path, "/responses") {
        ReplyFormat::Response
    } else {
        ReplyFormat::ChatCompletion
    };
    ChatPlan {
        model: model_or_default(model, default_model),
        prompt: openai_prompt(input, messages),
        stream: match stream {
            Some(b) => b,
            None => false,
        },
        context_tokens: Some(
            match max_tokens {
                Some(t) => t,
                None => DEFAULT_CONTEXT_TOKENS,
            },
        ),
        format,
    }
}

/// An Anthropic request: the requested model or the default, the prompt
/// from its messages, streaming only when asked, no context window.
pub fn plan_anthropic_messages(
    default_model: &str,
    model: Option<String>,
    messages: Option<Vec<ChatMessage>>,
    stream: Option<bool>,
) -> (r: ChatPlan)
    ensures
        r.model@ == model_view(model, default_model@),
        r.prompt@ == prompt_view(None, messages),
        r.stream == (stream == Some(true)),
        r.context_tokens is None,
        r.format == ReplyFormat::Message,
{
    ChatPlan {
        model: model_or_default(model, default_model),
        prompt: anthropic_prompt(messages),
        stream: match stream {
            Some(b) => b,
            None => false,
        },
        context_tokens: None,
        format: ReplyFormat::Message,
    }
}

/// The model identifiers the gateway lists: each upstream model's name,
/// or the default model for an entry without one.
pub fn model_ids(names: Vec<Option<String>>, default_model: &str) -> (r: Vec<String>)
    ensures
        r.len() == names.len(),
        forall|i: int| 0 <= i < r.len() ==> #[trigger] r[i]@ == model_view(names[i], default_model@),
{
    let mut r: Vec<String> = Vec::new();
    for i in 0..names.len()
        invariant
            r.len() == i,
            forall|k: int| 0 <= k < i ==> #[trigger] r[k]@ == model_view(names[k], default_model@),
    {
        let id = match &names[i] {
            Some(n) => n.clone(),
            None => default_model.to_string(),
        };
        r.push(id);
    }
    r
}

/// The HTTP answer of `/health`.
#[derive(Debug, Clone, Copy, PartialEq, Eq)]
pub struct HealthReply {
    pub status_code: u16,
    pub status: &'static str,
    pub upstream: &'static str,
}

/// 200 `ok`/`ready` when the upstream answered its version request with
/// success, else 503 `degraded`/`unavailable`.
pub fn health_reply(upstream_ready: bool) -> (r: HealthReply)
    ensures
        upstream_ready ==> r == (HealthReply { status_code: 200, status: "ok", upstream: "ready" }),
        !upstream_ready ==> r == (HealthReply {
            status_code: 503,
            status: "degraded",
            upstream: "unavailable",
        }),
{
    if upstream_ready {
        HealthReply { status_code: 200, status: "ok", upstream: "ready" }
    } else {
        HealthReply { status_code: 503, status: "degraded", upstream: "unavailable" }
    }
}

/// One server-sent event of a streamed reply.
#[derive(Debug, Clone, PartialEq, Eq)]
pub enum StreamEvent {
    /// An OpenAI chunk with this text; `finished` sets `finish_reason: stop`.
    Chunk { content: String, finished: bool },
    /// The OpenAI `[DONE]` marker.
    Done,
    /// An Anthropic `content_block_delta` with this text.
    TextDelta(String),
    /// The Anthropic `message_delta` that ends the turn.
    MessageDelta,
    /// The Anthropic `message_stop`.
    MessageStop,
}

/// The events an OpenAI stream sends for one upstream line carrying
/// `content`, `done` when the upstream finished.
pub open spec fn openai_events(content: Seq<char>, done: bool) -> Seq<StreamEvent> {
    if done {
        seq![StreamEvent::Chunk { content: content_string(content), finished: true }, StreamEvent::Done]
    } else {
        seq![StreamEvent::Chunk { content: content_string(content), finished: false }]
    }
}

/// The string whose characters are `s`.
pub open spec fn content_string(s: Seq<char>) -> String {
    choose|t: String| t@ == s
}

pub open spec fn events_match(r: Seq<StreamEvent>, expected: Seq<StreamEvent>) -> bool {
    &&& r.len() == expected.len()
    &&& forall|i: int| 0 <= i < r.len() ==> #[trigger] same_event(r[i], expected[i])
}

/// Two events are the same event, texts compared by their characters.
pub open spec fn same_event(a: StreamEvent, b: StreamEvent) -> bool {
    match (a, b) {
        (StreamEvent::Chunk { content: x, finished: f }, StreamEvent::Chunk { content: y, finished: g }) => x@ == y@ && f == g,
        (StreamEvent::TextDelta(x), StreamEvent::TextDelta(y)) => x@ == y@,
        (StreamEvent::Done, StreamEvent::Done) => true,
        (StreamEvent::MessageDelta, StreamEvent::MessageDelta) => true,
        (StreamEvent::MessageStop, StreamEvent::MessageStop) => true,
        _ => false,
    }
}

pub fn openai_stream_events(content: &str, done: bool) -> (r: Vec<StreamEvent>)
    ensures
        events_match(r@, openai_events(content@, done)),
{
    let mut r: Vec<StreamEvent> = Vec::new();
    let text = content.to_string();
    let ghost w = text;
    r.push(StreamEvent::Chunk { content: text, finished: done });
    if done {
        r.push(StreamEvent::Done);
    }
    proof {
        assert(w@ == content@);
        assert(content_string(content@)@ == content@);
        assert(same_event(r@[0], openai_events(content@, done)[0]));
    }
    r
}

/// The events an Anthropic stream sends for one upstream line: a text
/// delta when the line carries text, then the end of the turn when the
/// upstream finished.
pub open spec fn anthropic_events(content: Seq<char>, done: bool) -> Seq<StreamEvent> {
    let delta = if content.len() > 0 {
        seq![StreamEvent::TextDelta(content_string(content))]
    } else {
        Seq::empty()
    };
    if done {
        delta + seq![StreamEvent::MessageDelta, StreamEvent::MessageStop]
    } else {
        delta
    }
}

pub fn anthropic_stream_events(content: &str, done: bool) -> (r: Vec<StreamEvent>)
    ensures
        events_match(r@, anthropic_events(content@, done)),
{
    let mut r: Vec<StreamEvent> = Vec::new();
    let text = content.to_string();
    let ghost w = text;
    let has_text = content.unicode_len() > 0;
    if has_text {
        r.push(StreamEvent::TextDelta(text));
    }
    if done {
        r.push(StreamEvent::MessageDelta);
        r.push(StreamEvent::MessageStop);
    }
    proof {
        assert(w@ == content@);
        assert(content_string(content@)@ == content@);
        let e = anthropic_events(content@, done);
        assert forall|i: int| 0 <= i < r@.len() implies #[trigger] same_event(r@[i], e[i]) by {}
    }
    r
}

/// What one upstream JSON line carries: its `message.content` text and its
/// `done` flag, each when present with that type; `None` when the line is
/// not a JSON document, as `serde_json::from_slice` reads it.
pub uninterp spec fn stream_line_fields(line: Seq<u8>) -> Option<(Option<Seq<char>>, Option<bool>)>;

pub open spec fn fields_view(f: Option<(Option<String>, Option<bool>)>) -> Option<(Option<Seq<char>>, Option<bool>)> {
    match f {
        Some((text, done)) => Some(
            (
                match text {
                    Some(t) => Some(t@),
                    None => None,
                },
                done,
            ),
        ),
        None => None,
    }
}

/// `serde_json::from_slice` into a `serde_json::Value`, then
/// `Value::pointer("/message/content")` with `as_str`, and `Value::get("done")`
/// with `as_bool`: the two fields as the line holds them.
#[verifier::external_body]
fn parse_stream_line(line: &[u8]) -> (r: Option<(Option<String>, Option<bool>)>)
    ensures
        fields_view(r) == stream_line_fields(line@),
{
    match serde_json::from_slice::<serde_json::Value>(line) {
        Ok(value) => Some((
            value.pointer("/message/content").and_then(serde_json::Value::as_str).map(str::to_owned),
            value.get("done").and_then(serde_json::Value::as_bool),
        )),
        Err(_) => None,
    }
}

/// The events sent for one upstream line in `format`: none for a line that
/// is not JSON; otherwise its text (empty when absent) and its end flag
/// (false when absent), framed for OpenAI or Anthropic clients.
pub open spec fn line_events(fields: Option<(Option<Seq<char>>, Option<bool>)>, format: ReplyFormat) -> Seq<StreamEvent> {
    match fields {
        None => Seq::empty(),
        Some((text, done)) => {
            let content = match text {
                Some(t) => t,
                None => Seq::empty(),
            };
            let finished = match done {
                Some(b) => b,
                None => false,
            };
            if format == ReplyFormat::Message {
                anthropic_events(content, finished)
            } else {
                openai_events(content, finished)
            }
        },
    }
}

/// The events to send for one line of the upstream's streamed reply.
pub fn stream_line_events(line: &[u8], format: ReplyFormat) -> (r: Vec<StreamEvent>)
    ensures
        events_match(r@, line_events(stream_line_fields(line@), format)),
{
    match parse_stream_line(line) {
        None => Vec::new(),
        Some((text, done)) => {
            let content = match text {
                Some(t) => t,
                None => String::new(),
            };
            let finished = match done {
                Some(b) => b,
                None => false,
            };
            if format == ReplyFormat::Message {
                anthropic_stream_events(content.as_str(), finished)
            } else {
                openai_stream_events(content.as_str(), finished)
            }
        },
    }
}

proof fn lemma_newline_bounds(b: Seq<u8>)
    ensures
        0 <= newline_at(b) <= b.len(),
    decreases b.len(),
{
    if b.len() > 0 && b[0] != 10 {
        lemma_newline_bounds(b.drop_first());
    }
}

/// The complete lines at the front of `b`, in order, each without line
/// breaks.
pub open spec fn complete_lines(b: Seq<u8>) -> Seq<Seq<u8>>
    decreases b.len(),
{
    let n = newline_at(b);
    if 0 <= n < b.len() {
        seq![without_line_breaks(b.take(n + 1))] + complete_lines(b.skip(n + 1))
    } else {
        Seq::empty()
    }
}

/// What follows the last newline of `b`: the start of a line still to come.
pub open spec fn pending_tail(b: Seq<u8>) -> Seq<u8>
    decreases b.len(),
{
    let n = newline_at(b);
    if 0 <= n < b.len() {
        pending_tail(b.skip(n + 1))
    } else {
        b
    }
}

/// The events for the lines, one line after the other.
pub open spec fn lines_events(ls: Seq<Seq<u8>>, format: ReplyFormat) -> Seq<StreamEvent>
    decreases ls.len(),
{
    if ls.len() == 0 {
        Seq::empty()
    } else {
        line_events(stream_line_fields(ls[0]), format) + lines_events(ls.drop_first(), format)
    }
}

proof fn lemma_events_match_append(a: Seq<StreamEvent>, x: Seq<StreamEvent>, b: Seq<StreamEvent>, y: Seq<StreamEvent>)
    requires
        events_match(a, x),
        events_match(b, y),
    ensures
        events_match(a + b, x + y),
{
    assert forall|i: int| 0 <= i < (a + b).len() implies #[trigger] same_event((a + b)[i], (x + y)[i]) by {
        if i < a.len() {
            assert(same_event(a[i], x[i]));
        } else {
            assert(same_event(b[i - a.len()], y[i - a.len()]));
        }
    }
}

/// Takes one chunk of the upstream's streamed reply: appends it to the
/// buffer, and returns the events for every line it completes, in order;
/// the buffer keeps what follows the last newline.
pub fn stream_step(buffer: &mut Vec<u8>, chunk: &[u8], format: ReplyFormat) -> (r: Vec<StreamEvent>)
    ensures
        events_match(r@, lines_events(complete_lines(old(buffer)@ + chunk@), format)),
        final(buffer)@ == pending_tail(old(buffer)@ + chunk@),
{
    let ghost all = old(buffer)@ + chunk@;
    buffer.extend_from_slice(chunk);
    assert(buffer@ =~= all);
    let mut r: Vec<StreamEvent> = Vec::new();
    let ghost mut done: Seq<StreamEvent> = Seq::empty();
    loop
        invariant
            lines_events(complete_lines(all), format) == done + lines_events(
                complete_lines(buffer@),
                format,
            ),
            pending_tail(all) == pending_tail(buffer@),
            events_match(r@, done),
        ensures
            lines_events(complete_lines(all), format) == done,
            pending_tail(all) == buffer@,
            events_match(r@, done),
        decreases buffer@.len(),
    {
        let ghost before = buffer@;
        proof {
            lemma_newline_bounds(before);
        }
        match take_stream_line(buffer) {
            None => {
                assert(complete_lines(before) =~= Seq::<Seq<u8>>::empty());
                assert(lines_events(complete_lines(before), format) =~= Seq::<StreamEvent>::empty());
                assert(done + Seq::<StreamEvent>::empty() =~= done);
                break;
            },
            Some(line) => {
                let ghost rest = buffer@;
                assert(complete_lines(before) == seq![line@] + complete_lines(rest));
                assert((seq![line@] + complete_lines(rest)).drop_first() =~= complete_lines(rest));
                assert(lines_events(complete_lines(before), format) == line_events(
                    stream_line_fields(line@),
                    format,
                ) + lines_events(complete_lines(rest), format));
                let mut events = stream_line_events(line.as_slice(), format);
                let ghost evs = events@;
                proof {
                    lemma_events_match_append(r@, done, evs, line_events(stream_line_fields(line@), format));
                }
                r.append(&mut events);
                proof {
                    let e = line_events(stream_line_fields(line@), format);
                    assert(done + (e + lines_events(complete_lines(rest), format)) =~= (done + e)
                        + lines_events(complete_lines(rest), format));
                    done = done + e;
                }
            },
        }
    }
    r
}

} // verus!
