//! Model access: endpoints, request shapes, and the decisions taken on each
//! server-sent event of the two wire protocols.
//!
//! Both protocols are normalized into [`Delta`]s. Reasoning is kept apart
//! from the answer text: it must never enter the explanation JSON, but it is
//! shown so that a long think does not look like a hang.
use vstd::prelude::*;

use crate::json::{
    at_index, at_index_exec, at_key, at_key_exec, member, member_display, parse_json,
    parsed_json, str_of, str_of_exec, str_or_empty, str_or_empty_exec, displayed_member, Json,
};
use crate::text::{
    chars_of, decimal, lemma_lex_total, lemma_lex_trans, lex_le, lex_le_exec, owned, push_char,
    push_decimal, push_range, push_str, seq_eq, trim, trim_bounds,
};

verus! {

/// Version header value the Anthropic protocol requires.
pub const ANTHROPIC_API_VERSION: &'static str = "2023-06-01";

/// One message of a conversation.
#[derive(Clone, Debug)]
pub struct ChatMessage {
    /// `"user"`, `"assistant"` or `"system"`.
    pub role: String,
    pub content: String,
}

pub struct MessageView {
    pub role: Seq<char>,
    pub content: Seq<char>,
}

impl View for ChatMessage {
    type V = MessageView;

    open spec fn view(&self) -> MessageView {
        MessageView { role: self.role@, content: self.content@ }
    }
}

impl ChatMessage {
    pub fn duplicate(&self) -> (r: ChatMessage)
        ensures
            r@ == self@,
    {
        ChatMessage { role: self.role.clone(), content: self.content.clone() }
    }
}

pub open spec fn messages_view(v: Seq<ChatMessage>) -> Seq<MessageView> {
    v.map_values(|m: ChatMessage| m@)
}

/// A chat completion request.
#[derive(Clone, Debug)]
pub struct ChatRequest {
    pub model: String,
    pub system: Option<String>,
    pub messages: Vec<ChatMessage>,
    pub max_tokens: u32,
    /// Sampling temperature in tenths (2 stands for 0.2).
    pub temperature_tenths: u8,
}

pub struct RequestView {
    pub model: Seq<char>,
    pub system: Option<Seq<char>>,
    pub messages: Seq<MessageView>,
    pub max_tokens: u32,
    pub temperature_tenths: u8,
}

impl View for ChatRequest {
    type V = RequestView;

    open spec fn view(&self) -> RequestView {
        RequestView {
            model: self.model@,
            system: match self.system {
                Some(s) => Some(s@),
                None => None,
            },
            messages: messages_view(self.messages@),
            max_tokens: self.max_tokens,
            temperature_tenths: self.temperature_tenths,
        }
    }
}

/// A normalized streaming increment.
#[derive(Clone, Debug)]
pub enum Delta {
    /// Answer text.
    Text(String),
    /// Reasoning text: shown while the model thinks, never stored or parsed.
    Reasoning(String),
}

pub enum DeltaView {
    Text(Seq<char>),
    Reasoning(Seq<char>),
}

impl View for Delta {
    type V = DeltaView;

    open spec fn view(&self) -> DeltaView {
        match self {
            Delta::Text(t) => DeltaView::Text(t@),
            Delta::Reasoning(t) => DeltaView::Reasoning(t@),
        }
    }
}

pub open spec fn deltas_view(v: Seq<Delta>) -> Seq<DeltaView> {
    v.map_values(|d: Delta| d@)
}

/// What to do with one server-sent event.
#[derive(Debug)]
pub enum StreamStep {
    /// Nothing to hand on; keep reading.
    Skip,
    /// The stream is complete.
    Stop,
    /// The endpoint reported an error; the stream fails with this message.
    Fail(String),
    /// Hand on these deltas, in order, and keep reading.
    Emit(Vec<Delta>),
}

pub enum StepView {
    Skip,
    Stop,
    Fail(Seq<char>),
    Emit(Seq<DeltaView>),
}

impl View for StreamStep {
    type V = StepView;

    open spec fn view(&self) -> StepView {
        match self {
            StreamStep::Skip => StepView::Skip,
            StreamStep::Stop => StepView::Stop,
            StreamStep::Fail(m) => StepView::Fail(m@),
            StreamStep::Emit(v) => StepView::Emit(deltas_view(v@)),
        }
    }
}

/// The deltas for one event: reasoning first, then text, each only when
/// non-empty.
pub open spec fn deltas_for(reasoning: Seq<char>, text: Seq<char>) -> Seq<DeltaView> {
    (if reasoning.len() > 0 {
        seq![DeltaView::Reasoning(reasoning)]
    } else {
        Seq::empty()
    }) + (if text.len() > 0 {
        seq![DeltaView::Text(text)]
    } else {
        Seq::empty()
    })
}

fn deltas_for_exec(reasoning: String, text: String) -> (r: Vec<Delta>)
    ensures
        deltas_view(r@) == deltas_for(reasoning@, text@),
{
    let mut r: Vec<Delta> = Vec::new();
    let has_reasoning = !reasoning.as_str().is_empty();
    let has_text = !text.as_str().is_empty();
    if has_reasoning {
        r.push(Delta::Reasoning(reasoning));
    }
    if has_text {
        r.push(Delta::Text(text));
    }
    assert(deltas_view(r@) =~= deltas_for(reasoning@, text@));
    r
}

// ------------------------------------------------------------------ endpoints

/// `s` without its trailing slashes.
pub open spec fn strip_slashes(s: Seq<char>) -> Seq<char>
    decreases s.len(),
{
    if s.len() > 0 && s.last() == '/' {
        strip_slashes(s.drop_last())
    } else {
        s
    }
}

/// `/v1`
pub open spec fn v1() -> Seq<char> {
    seq!['/', 'v', '1']
}

pub open spec fn ends_with(s: Seq<char>, suffix: Seq<char>) -> bool {
    suffix.len() <= s.len() && s.skip(s.len() - suffix.len()) == suffix
}

/// The URL of `path` under `base_url`, which may or may not end in `/v1`
/// (and may carry surrounding whitespace and trailing slashes).
pub open spec fn endpoint_spec(base_url: Seq<char>, path: Seq<char>) -> Seq<char> {
    let base = strip_slashes(trim(base_url));
    if ends_with(base, v1()) {
        base + seq!['/'] + path
    } else {
        base + v1() + seq!['/'] + path
    }
}

pub fn endpoint(base_url: &str, path: &str) -> (r: String)
    ensures
        r@ == endpoint_spec(base_url@, path@),
{
    let v = chars_of(base_url);
    let (lo, hi0) = trim_bounds(&v, 0, v.len());
    assert(v@.subrange(0, v.len() as int) =~= v@);
    let mut hi = hi0;
    while hi > lo && v[hi - 1] == '/'
        invariant
            lo <= hi <= hi0 <= v.len(),
            strip_slashes(trim(base_url@)) == strip_slashes(v@.subrange(lo as int, hi as int)),
        decreases hi,
    {
        assert(v@.subrange(lo as int, hi as int).drop_last() =~= v@.subrange(lo as int, hi - 1));
        hi -= 1;
    }
    let ghost base = v@.subrange(lo as int, hi as int);
    assert(strip_slashes(base) == base);
    let suffixed = hi - lo >= 3 && v[hi - 3] == '/' && v[hi - 2] == 'v' && v[hi - 1] == '1';
    assert(suffixed == ends_with(base, v1())) by {
        if hi - lo >= 3 {
            assert(base.skip(base.len() - 3) =~= seq![v@[hi - 3], v@[hi - 2], v@[hi - 1]]);
        }
    }
    let mut r = String::new();
    push_range(&mut r, &v, lo, hi);
    if !suffixed {
        push_char(&mut r, '/');
        push_char(&mut r, 'v');
        push_char(&mut r, '1');
    }
    push_char(&mut r, '/');
    push_str(&mut r, path);
    assert(r@ =~= endpoint_spec(base_url@, path@));
    r
}

/// `s` with its trailing slashes stripped is a prefix of `s`.
proof fn lemma_strip_slashes_prefix(s: Seq<char>)
    ensures
        strip_slashes(s).len() <= s.len(),
        strip_slashes(s) =~= s.take(strip_slashes(s).len() as int),
    decreases s.len(),
{
    if s.len() > 0 && s.last() == '/' {
        lemma_strip_slashes_prefix(s.drop_last());
    }
}

/// The base that `endpoint_spec` works from starts with a non-space.
proof fn lemma_base_starts_clean(base: Seq<char>)
    ensures
        strip_slashes(trim(base)).len() > 0 ==> !crate::text::is_ws(strip_slashes(trim(base))[0]),
{
    let t = crate::text::trim_start(base);
    crate::text::lemma_trim_start_is_suffix(base);
    crate::text::lemma_trim_end_is_prefix(t);
    lemma_strip_slashes_prefix(trim(base));
    let b = strip_slashes(trim(base));
    if b.len() > 0 {
        assert(b[0] == trim(base)[0]);
        assert(trim(base)[0] == t[0]);
    }
}

/// A base URL given with or without its `/v1` suffix reaches the same
/// endpoint: whatever the base, appending `/v1` to it once it is trimmed and
/// stripped of trailing slashes changes nothing, unless it already ends so.
pub proof fn lemma_endpoint_v1_optional(base: Seq<char>, path: Seq<char>)
    requires
        !ends_with(strip_slashes(trim(base)), v1()),
    ensures
        endpoint_spec(strip_slashes(trim(base)) + v1(), path) == endpoint_spec(base, path),
{
    let b = strip_slashes(trim(base));
    let bv = b + v1();
    lemma_base_starts_clean(base);
    assert(!crate::text::is_ws(bv[0])) by {
        if b.len() > 0 {
            assert(bv[0] == b[0]);
        } else {
            assert(bv[0] == '/');
        }
    }
    assert(crate::text::trim_start(bv) == bv);
    assert(bv.last() == '1');
    assert(crate::text::trim_end(bv) == bv);
    assert(strip_slashes(bv) == bv);
    assert(bv.skip(bv.len() - 3) =~= v1());
    assert(endpoint_spec(bv, path) =~= b + v1() + seq!['/'] + path);
}

/// Trimming the start commutes with appending a non-space.
proof fn lemma_trim_start_push(s: Seq<char>, c: char)
    requires
        !crate::text::is_ws(c),
    ensures
        crate::text::trim_start(s.push(c)) == crate::text::trim_start(s).push(c),
    decreases s.len(),
{
    if s.len() > 0 && crate::text::is_ws(s[0]) {
        assert(s.push(c).drop_first() =~= s.drop_first().push(c));
        lemma_trim_start_push(s.drop_first(), c);
    } else if s.len() == 0 {
        assert(s.push(c) =~= seq![c]);
        assert(crate::text::trim_start(s) =~= s);
    }
}

/// A trailing slash on the base URL does not change the endpoint, for every
/// base that is blank or does not end in whitespace.
pub proof fn lemma_endpoint_ignores_trailing_slash(base: Seq<char>, path: Seq<char>)
    requires
        crate::text::is_blank(base) || !crate::text::is_ws(base.last()),
    ensures
        endpoint_spec(base.push('/'), path) == endpoint_spec(base, path),
{
    let t = crate::text::trim_start(base);
    lemma_trim_start_push(base, '/');
    crate::text::lemma_trim_start_is_suffix(base);
    let tp = t.push('/');
    assert(crate::text::trim_end(tp) == tp);
    if crate::text::is_blank(base) {
        // A blank base trims to nothing from the start already.
        if t.len() > 0 {
            crate::text::lemma_not_blank_when_starts_clean(t);
            assert(crate::text::trim_start(t) == t);
        }
        assert(t.len() == 0);
        assert(tp =~= seq!['/']);
        assert(tp.drop_last() =~= Seq::<char>::empty());
        assert(strip_slashes(tp) == strip_slashes(tp.drop_last()));
        assert(strip_slashes(tp) =~= Seq::<char>::empty());
        assert(trim(base) =~= Seq::<char>::empty());
    } else {
        // The start-trimmed base still ends in the base's last character.
        assert(crate::text::trim_end(t) == t) by {
            if t.len() > 0 {
                assert(t.last() == base.last());
            }
        }
        assert(trim(base.push('/')) == trim(base).push('/'));
        assert(trim(base).push('/').drop_last() =~= trim(base));
    }
    assert(strip_slashes(trim(base.push('/'))) == strip_slashes(trim(base)));
}

// ------------------------------------------------------------------ OpenAI-compatible protocol

/// The OpenAI-compatible protocol (`/chat/completions`).
#[derive(Clone, Copy, Debug)]
pub struct Openai;

/// The Anthropic protocol (`/v1/messages`).
#[derive(Clone, Copy, Debug)]
pub struct Anthropic;

/// The system prompt as a leading message, then the conversation.
pub open spec fn openai_messages_spec(req: RequestView) -> Seq<MessageView> {
    match req.system {
        Some(s) => seq![MessageView { role: "system"@, content: s }] + req.messages,
        None => req.messages,
    }
}

/// What the OpenAI stream has seen so far.
#[derive(Debug)]
pub struct OpenaiStream {
    pub got_text: bool,
    pub finish_reason: Option<String>,
}

pub struct OpenaiStreamView {
    pub got_text: bool,
    pub finish_reason: Option<Seq<char>>,
}

impl View for OpenaiStream {
    type V = OpenaiStreamView;

    open spec fn view(&self) -> OpenaiStreamView {
        OpenaiStreamView {
            got_text: self.got_text,
            finish_reason: match self.finish_reason {
                Some(r) => Some(r@),
                None => None,
            },
        }
    }
}

/// The choice an OpenAI chunk carries.
pub open spec fn first_choice(doc: Json) -> Option<Json> {
    at_index(at_key(Some(doc), "choices"@), 0)
}

/// The next stream state and step for event `data`: `[DONE]` stops; data
/// that is not JSON is skipped; an `error` member fails the stream with that
/// member as compact JSON; a chunk otherwise hands on its reasoning and its
/// text, and records its finish reason. Whether text was seen is recorded
/// only as the text is handed on (see [`handing_on`]), so a stream cut off
/// before its text goes out still counts as one without text.
pub open spec fn openai_event_spec(state: OpenaiStreamView, data: Seq<char>) -> (
    OpenaiStreamView,
    StepView,
) {
    if trim(data) == "[DONE]"@ {
        (state, StepView::Stop)
    } else {
        match parsed_json(data) {
            None => (state, StepView::Skip),
            Some(doc) => match member(doc, "error"@) {
                Some(_) => (state, StepView::Fail(displayed_member(data, "error"@)->0)),
                None => {
                    let choice = first_choice(doc);
                    let reason = str_of(at_key(choice, "finish_reason"@));
                    let delta = at_key(choice, "delta"@);
                    let reasoning = str_or_empty(at_key(delta, "reasoning_content"@));
                    let text = str_or_empty(at_key(delta, "content"@));
                    (
                        OpenaiStreamView {
                            got_text: state.got_text,
                            finish_reason: if reason is Some {
                                reason
                            } else {
                                state.finish_reason
                            },
                        },
                        StepView::Emit(deltas_for(reasoning, text)),
                    )
                },
            },
        }
    }
}

/// The stream state once `delta` is handed on: non-empty answer text marks
/// the stream as one with text.
pub open spec fn handing_on(state: OpenaiStreamView, delta: DeltaView) -> OpenaiStreamView {
    match delta {
        DeltaView::Text(t) => OpenaiStreamView {
            got_text: state.got_text || t.len() > 0,
            finish_reason: state.finish_reason,
        },
        DeltaView::Reasoning(_) => state,
    }
}

/// The error reported when the whole output budget went into reasoning.
pub open spec fn budget_spent_message(max_tokens: u32) -> Seq<char> {
    "模型把 "@ + decimal(max_tokens as nat) + " token 的额度全用在思考上，没输出正文。换个非推理模型，或调高上限"@
}

/// A stream that ended for lack of budget before any text is a failure, not
/// a silent blank answer.
pub open spec fn budget_spent(state: OpenaiStreamView) -> bool {
    !state.got_text && state.finish_reason == Some("length"@)
}

impl Openai {
    /// The messages sent: the system prompt goes first, as a message.
    pub fn wire_messages(req: &ChatRequest) -> (r: Vec<ChatMessage>)
        ensures
            messages_view(r@) == openai_messages_spec(req@),
    {
        let mut r: Vec<ChatMessage> = Vec::new();
        match &req.system {
            Some(s) => {
                r.push(ChatMessage { role: owned("system"), content: s.clone() });
            },
            None => {},
        }
        let ghost start = messages_view(r@);
        let mut i: usize = 0;
        while i < req.messages.len()
            invariant
                i <= req.messages.len(),
                messages_view(r@) == start + messages_view(req.messages@).take(i as int),
            decreases req.messages.len() - i,
        {
            let ghost before = messages_view(r@);
            r.push(req.messages[i].duplicate());
            assert(messages_view(r@) =~= before.push(req.messages@[i as int]@));
            assert(messages_view(req.messages@).take(i + 1) =~= messages_view(req.messages@).take(
                i as int,
            ).push(req.messages@[i as int]@));
            i += 1;
        }
        assert(messages_view(req.messages@).take(req.messages.len() as int) =~= messages_view(
            req.messages@,
        ));
        assert(messages_view(r@) =~= openai_messages_spec(req@));
        r
    }
}

impl OpenaiStream {
    pub fn new() -> (s: OpenaiStream)
        ensures
            s@ == (OpenaiStreamView { got_text: false, finish_reason: None }),
    {
        OpenaiStream { got_text: false, finish_reason: None }
    }

    /// Records that `delta` is about to be handed on: answer text counts as
    /// seen from then on, even if the receiver turns out to be gone.
    pub fn hand_on(&mut self, delta: &Delta)
        ensures
            final(self)@ == handing_on(old(self)@, delta@),
    {
        match delta {
            Delta::Text(t) => {
                if !t.as_str().is_empty() {
                    self.got_text = true;
                }
            },
            Delta::Reasoning(_) => {},
        }
    }

    /// Takes one event's data and says what to do with it.
    pub fn on_event(&mut self, data: &str) -> (step: StreamStep)
        ensures
            (final(self)@, step@) == openai_event_spec(old(self)@, data@),
    {
        let v = chars_of(data);
        let (lo, hi) = trim_bounds(&v, 0, v.len());
        assert(v@.subrange(0, v.len() as int) =~= v@);
        let mut trimmed: Vec<char> = Vec::new();
        let mut k = lo;
        while k < hi
            invariant
                lo <= k <= hi <= v.len(),
                trimmed@ == v@.subrange(lo as int, k as int),
            decreases hi - k,
        {
            trimmed.push(v[k]);
            assert(v@.subrange(lo as int, k + 1) =~= v@.subrange(lo as int, k as int).push(
                v@[k as int],
            ));
            k += 1;
        }
        let done = chars_of("[DONE]");
        if seq_eq(&trimmed, &done) {
            return StreamStep::Stop;
        }
        let doc = match parse_json(data) {
            None => {
                return StreamStep::Skip;
            },
            Some(doc) => doc,
        };
        match member_display(data, "error") {
            Some(e) => {
                return StreamStep::Fail(e);
            },
            None => {},
        }
        let choice = at_index_exec(at_key_exec(Some(&doc), "choices"), 0);
        let reason = str_of_exec(at_key_exec(choice, "finish_reason"));
        let delta = at_key_exec(choice, "delta");
        let reasoning = str_or_empty_exec(at_key_exec(delta, "reasoning_content"));
        let text = str_or_empty_exec(at_key_exec(delta, "content"));
        if reason.is_some() {
            self.finish_reason = reason;
        }
        let step = StreamStep::Emit(deltas_for_exec(reasoning, text));
        step
    }

    /// The outcome once the stream has ended.
    pub fn finish(&self, max_tokens: u32) -> (r: Result<(), String>)
        ensures
            match r {
                Ok(()) => !budget_spent(self@),
                Err(m) => budget_spent(self@) && m@ == budget_spent_message(max_tokens),
            },
    {
        let spent = match &self.finish_reason {
            Some(reason) => !self.got_text && crate::text::str_eq(reason.as_str(), "length"),
            None => false,
        };
        if spent {
            let mut m = owned("模型把 ");
            let mut digits: Vec<char> = Vec::new();
            push_decimal(&mut digits, max_tokens as u64);
            push_range(&mut m, &digits, 0, digits.len());
            assert(digits@.subrange(0, digits@.len() as int) =~= digits@);
            push_str(&mut m, " token 的额度全用在思考上，没输出正文。换个非推理模型，或调高上限");
            Err(m)
        } else {
            Ok(())
        }
    }
}

// ------------------------------------------------------------------ Anthropic protocol

/// The step for an Anthropic event named `event` carrying `data`: text and
/// thinking increments come in `content_block_delta`, an `error` event fails
/// the stream with its data, `message_stop` ends it, anything else is skipped.
pub open spec fn anthropic_event_spec(event: Seq<char>, data: Seq<char>) -> StepView {
    if event == "content_block_delta"@ {
        match parsed_json(data) {
            None => StepView::Skip,
            Some(doc) => {
                let delta = at_key(Some(doc), "delta"@);
                StepView::Emit(
                    deltas_for(
                        str_or_empty(at_key(delta, "thinking"@)),
                        str_or_empty(at_key(delta, "text"@)),
                    ),
                )
            },
        }
    } else if event == "error"@ {
        StepView::Fail(data)
    } else if event == "message_stop"@ {
        StepView::Stop
    } else {
        StepView::Skip
    }
}

/// The Anthropic request: the system prompt goes in its own top-level
/// field, never among the messages, and the conversation is sent as is.
pub open spec fn anthropic_request_spec(req: RequestView) -> (Option<Seq<char>>, Seq<MessageView>) {
    (req.system, req.messages)
}

impl Anthropic {
    /// The top-level system prompt and the messages sent.
    pub fn wire_request(req: &ChatRequest) -> (r: (Option<String>, Vec<ChatMessage>))
        ensures
            (match r.0 {
                Some(s) => Some(s@),
                None => None,
            }, messages_view(r.1@)) == anthropic_request_spec(req@),
    {
        let system = match &req.system {
            Some(s) => Some(s.clone()),
            None => None,
        };
        let mut messages: Vec<ChatMessage> = Vec::new();
        let mut i: usize = 0;
        while i < req.messages.len()
            invariant
                i <= req.messages.len(),
                messages_view(messages@) == messages_view(req.messages@).take(i as int),
            decreases req.messages.len() - i,
        {
            let ghost before = messages_view(messages@);
            messages.push(req.messages[i].duplicate());
            assert(messages_view(messages@) =~= before.push(req.messages@[i as int]@));
            assert(messages_view(req.messages@).take(i + 1) =~= messages_view(req.messages@).take(
                i as int,
            ).push(req.messages@[i as int]@));
            i += 1;
        }
        assert(messages_view(req.messages@).take(req.messages.len() as int) =~= messages_view(
            req.messages@,
        ));
        (system, messages)
    }
}

impl Anthropic {
    pub fn on_event(event: &str, data: &str) -> (step: StreamStep)
        ensures
            step@ == anthropic_event_spec(event@, data@),
    {
        if crate::text::str_eq(event, "content_block_delta") {
            match parse_json(data) {
                None => StreamStep::Skip,
                Some(doc) => {
                    let delta = at_key_exec(Some(&doc), "delta");
                    let thinking = str_or_empty_exec(at_key_exec(delta, "thinking"));
                    let text = str_or_empty_exec(at_key_exec(delta, "text"));
                    StreamStep::Emit(deltas_for_exec(thinking, text))
                },
            }
        } else if crate::text::str_eq(event, "error") {
            StreamStep::Fail(owned(data))
        } else if crate::text::str_eq(event, "message_stop") {
            StreamStep::Stop
        } else {
            StreamStep::Skip
        }
    }
}

// ------------------------------------------------------------------ model lists and errors

/// Sorted no later than every later item.
pub open spec fn sorted_names(s: Seq<Seq<char>>) -> bool {
    forall|i: int, j: int| 0 <= i < j < s.len() ==> lex_le(s[i], s[j])
}

/// The `id` strings of `items`, in order, skipping items without one.
pub open spec fn ids_of(items: Seq<Json>) -> Seq<Seq<char>>
    decreases items.len(),
{
    if items.len() == 0 {
        Seq::empty()
    } else {
        match str_of(at_key(Some(items.last()), "id"@)) {
            Some(id) => ids_of(items.drop_last()).push(id),
            None => ids_of(items.drop_last()),
        }
    }
}

/// The model ids a model-list response lists under `data`.
pub open spec fn listed_ids(doc: Json) -> Seq<Seq<char>> {
    match at_key(Some(doc), "data"@) {
        Some(Json::Array(items)) => ids_of(items@),
        _ => Seq::empty(),
    }
}

pub open spec fn names_of(v: Seq<String>) -> Seq<Seq<char>> {
    v.map_values(|s: String| s@)
}

/// Sorts names in `String` order.
pub fn sort_names(v: Vec<String>) -> (r: Vec<String>)
    ensures
        sorted_names(names_of(r@)),
        names_of(r@).to_multiset() == names_of(v@).to_multiset(),
{
    let mut r: Vec<String> = Vec::new();
    let mut i: usize = 0;
    assert(names_of(v@).take(0) =~= names_of(r@));
    while i < v.len()
        invariant
            i <= v.len(),
            sorted_names(names_of(r@)),
            names_of(r@).to_multiset() == names_of(v@).take(i as int).to_multiset(),
        decreases v.len() - i,
    {
        let x = chars_of(v[i].as_str());
        let mut p: usize = 0;
        while p < r.len() && lex_le_exec(&chars_of(r[p].as_str()), &x)
            invariant
                p <= r.len(),
                x@ == v@[i as int]@,
                forall|k: int| 0 <= k < p ==> lex_le(#[trigger] names_of(r@)[k], x@),
            decreases r.len() - p,
        {
            p += 1;
        }
        let ghost before = names_of(r@);
        proof {
            if p < r.len() {
                lemma_lex_total(before[p as int], x@);
            }
        }
        r.insert(p, v[i].clone());
        proof {
            let s = names_of(r@);
            assert(s =~= before.subrange(0, p as int) + seq![x@] + before.subrange(
                p as int,
                before.len() as int,
            ));
            assert(s =~= before.insert(p as int, x@));
            vstd::seq_lib::to_multiset_insert(before, p as int, x@);
            vstd::seq_lib::to_multiset_build(names_of(v@).take(i as int), x@);
            assert(names_of(v@).take(i + 1) =~= names_of(v@).take(i as int).push(x@));
            assert forall|a: int, b: int| 0 <= a < b < s.len() implies lex_le(s[a], s[b]) by {
                if b < p {
                    assert(s[a] == before[a]);
                    assert(s[b] == before[b]);
                } else if a < p && b == p {
                    assert(s[a] == before[a]);
                } else if a < p && b > p {
                    assert(s[a] == before[a]);
                    assert(s[b] == before[b - 1]);
                } else if a == p {
                    assert(s[b] == before[b - 1]);
                    if b - 1 > p {
                        lemma_lex_trans(x@, before[p as int], before[b - 1]);
                    }
                } else {
                    assert(s[a] == before[a - 1]);
                    assert(s[b] == before[b - 1]);
                }
            }
        }
        i += 1;
    }
    assert(names_of(v@).take(v.len() as int) =~= names_of(v@));
    r
}

/// The model ids of a model-list response body, sorted; `None` when the
/// body is not JSON.
pub fn model_ids(body: &str) -> (r: Option<Vec<String>>)
    ensures
        match r {
            None => parsed_json(body@) is None,
            Some(ids) => parsed_json(body@) matches Some(doc) && sorted_names(names_of(ids@))
                && names_of(ids@).to_multiset() == listed_ids(doc).to_multiset(),
        },
{
    let doc = match parse_json(body) {
        None => {
            return None;
        },
        Some(d) => d,
    };
    let mut ids: Vec<String> = Vec::new();
    match at_key_exec(Some(&doc), "data") {
        Some(Json::Array(items)) => {
            let mut i: usize = 0;
            assert(items@.take(0) =~= Seq::<Json>::empty());
            while i < items.len()
                invariant
                    i <= items.len(),
                    names_of(ids@) == ids_of(items@.take(i as int)),
                decreases items.len() - i,
            {
                assert(items@.take(i + 1).drop_last() =~= items@.take(i as int));
                assert(items@.take(i + 1).last() == items@[i as int]);
                match str_of_exec(at_key_exec(Some(&items[i]), "id")) {
                    Some(id) => {
                        let ghost before = names_of(ids@);
                        ids.push(id);
                        assert(names_of(ids@) =~= before.push(id@));
                    },
                    None => {},
                }
                i += 1;
            }
            assert(items@.take(items.len() as int) =~= items@);
        },
        _ => {
            assert(names_of(ids@) =~= Seq::<Seq<char>>::empty());
        },
    }
    let sorted = sort_names(ids);
    Some(sorted)
}

/// How a non-success HTTP response is reported: the status and at most the
/// first 500 characters of the body.
pub open spec fn http_error_spec(status: Seq<char>, body: Seq<char>) -> Seq<char> {
    "HTTP "@ + status + ": "@ + body.take(if body.len() < 500 {
        body.len() as int
    } else {
        500
    })
}

pub fn http_error_message(status: &str, body: &str) -> (r: String)
    ensures
        r@ == http_error_spec(status@, body@),
{
    let mut r = owned("HTTP ");
    push_str(&mut r, status);
    push_str(&mut r, ": ");
    let b = chars_of(body);
    let n = if b.len() < 500 {
        b.len()
    } else {
        500
    };
    push_range(&mut r, &b, 0, n);
    assert(b@.subrange(0, n as int) =~= b@.take(n as int));
    r
}

} // verus!
