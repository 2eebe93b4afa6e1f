//! What the app's commands decide: which request to send for an
//! explanation, a follow-up, a template trial or a connection test; how each
//! streamed increment is forwarded; how a finished stream is reported; and
//! how a template trial is judged.
use vstd::prelude::*;

use crate::config::{
    effective_max_tokens, lemma_selected_template_kind, resolve_spec, selected_template,
    Provider, ProviderView, Role, Settings, SettingsView,
};
use crate::json::{member, parse_json, parsed_json, unfence, unfenced, get_member, Json};
use crate::llm::{
    messages_view, ChatMessage, ChatRequest, Delta, DeltaView, MessageView, RequestView,
};
use crate::prompts::{
    explain_user, explain_user_spec, opt_str_view, probe_cases_spec, probe_input,
};
use crate::templates::{
    names_view, render, render_spec, required_fields, required_fields_spec, context_text,
    TemplateKind, CHAT_BODY, EXPLAIN_BODY,
};
use crate::text::{is_blank, is_blank_exec, owned, push_str, trim, trimmed};

verus! {

/// Event name of streamed increments, broadcast to every window.
pub const STREAM_EVENT: &'static str = "llm-stream";

/// Event name announcing a new history record.
pub const HISTORY_EVENT: &'static str = "history-updated";

/// Output budget of an explanation. Reasoning tokens count against it, so it
/// leaves room for thinking; 4000 stays under the common 4096 endpoint cap.
pub const DEFAULT_EXPLAIN_MAX_TOKENS: u32 = 4000;

pub const DEFAULT_CHAT_MAX_TOKENS: u32 = 4000;

/// Reported when a stream ends normally without any answer text: a silent
/// blank card is the worst way to fail.
pub const EMPTY_STREAM_MESSAGE: &'static str =
    "模型没有返回任何正文。若用的是推理模型，可能是额度全花在思考上了，换个模型或重试一次";

/// What the front end is told about a stream.
#[derive(Clone, Debug)]
pub enum StreamEvent {
    Delta { stream_id: String, text: String },
    /// Reasoning increment: shown as "thinking", never parsed as JSON.
    Reasoning { stream_id: String, text: String },
    Done { stream_id: String },
    Error { stream_id: String, message: String },
}

pub enum EventView {
    Delta { stream_id: Seq<char>, text: Seq<char> },
    Reasoning { stream_id: Seq<char>, text: Seq<char> },
    Done { stream_id: Seq<char> },
    Error { stream_id: Seq<char>, message: Seq<char> },
}

impl View for StreamEvent {
    type V = EventView;

    open spec fn view(&self) -> EventView {
        match self {
            StreamEvent::Delta { stream_id, text } => EventView::Delta {
                stream_id: stream_id@,
                text: text@,
            },
            StreamEvent::Reasoning { stream_id, text } => EventView::Reasoning {
                stream_id: stream_id@,
                text: text@,
            },
            StreamEvent::Done { stream_id } => EventView::Done { stream_id: stream_id@ },
            StreamEvent::Error { stream_id, message } => EventView::Error {
                stream_id: stream_id@,
                message: message@,
            },
        }
    }
}

/// The answer text accumulated after one more increment: only text counts.
pub open spec fn accumulated(full: Seq<char>, delta: DeltaView) -> Seq<char> {
    match delta {
        DeltaView::Text(t) => full + t,
        DeltaView::Reasoning(_) => full,
    }
}

/// Forwards one increment: answer text is appended to `full` (the text that
/// is stored and parsed) and sent as a delta; reasoning is only sent.
pub fn forward_delta(full: &mut String, stream_id: &str, delta: Delta) -> (event: StreamEvent)
    ensures
        final(full)@ == accumulated(old(full)@, delta@),
        event@ == match delta@ {
            DeltaView::Text(t) => EventView::Delta { stream_id: stream_id@, text: t },
            DeltaView::Reasoning(t) => EventView::Reasoning { stream_id: stream_id@, text: t },
        },
{
    match delta {
        Delta::Text(text) => {
            push_str(full, text.as_str());
            StreamEvent::Delta { stream_id: owned(stream_id), text }
        },
        Delta::Reasoning(text) => StreamEvent::Reasoning { stream_id: owned(stream_id), text },
    }
}

/// Collects the answer text of a stream, dropping reasoning.
pub fn collect_delta(out: &mut String, delta: &Delta)
    ensures
        final(out)@ == accumulated(old(out)@, delta@),
{
    match delta {
        Delta::Text(text) => push_str(out, text.as_str()),
        Delta::Reasoning(_) => {},
    }
}

/// How a finished stream is reported: its error; an error when it produced
/// no answer text; otherwise done.
pub open spec fn stream_end_spec(
    stream_id: Seq<char>,
    full: Seq<char>,
    outcome: Result<(), Seq<char>>,
) -> EventView {
    match outcome {
        Err(e) => EventView::Error { stream_id, message: e },
        Ok(()) => if is_blank(full) {
            EventView::Error { stream_id, message: EMPTY_STREAM_MESSAGE@ }
        } else {
            EventView::Done { stream_id }
        },
    }
}

pub open spec fn outcome_view(outcome: Result<(), String>) -> Result<(), Seq<char>> {
    match outcome {
        Ok(()) => Ok(()),
        Err(e) => Err(e@),
    }
}

/// The final event of a stream. The explanation is stored exactly when this
/// is `Done`: an empty answer is neither shown as a success nor stored.
pub fn stream_end(stream_id: &str, full: &str, outcome: Result<(), String>) -> (event: StreamEvent)
    ensures
        event@ == stream_end_spec(stream_id@, full@, outcome_view(outcome)),
{
    match outcome {
        Err(e) => StreamEvent::Error { stream_id: owned(stream_id), message: e },
        Ok(()) => if is_blank_exec(full) {
            StreamEvent::Error {
                stream_id: owned(stream_id),
                message: owned(EMPTY_STREAM_MESSAGE),
            }
        } else {
            StreamEvent::Done { stream_id: owned(stream_id) }
        },
    }
}

/// Whether a finished stream's explanation is stored: exactly when the
/// stream ended `Done`, so an error or an empty answer is never recorded.
pub fn should_store(end: &StreamEvent) -> (b: bool)
    ensures
        b <==> end@ is Done,
{
    match end {
        StreamEvent::Done { .. } => true,
        _ => false,
    }
}

/// An explanation is stored exactly when its stream ended without error and
/// with an answer that is not blank.
pub proof fn lemma_stored_only_after_a_real_answer(
    stream_id: Seq<char>,
    full: Seq<char>,
    outcome: Result<(), Seq<char>>,
)
    ensures
        stream_end_spec(stream_id, full, outcome) is Done <==> (outcome is Ok && !is_blank(full)),
{
}

// ------------------------------------------------------------------ requests

/// A request of one user message.
pub open spec fn single_message(content: Seq<char>) -> Seq<MessageView> {
    seq![MessageView { role: "user"@, content }]
}

fn user_message(content: String) -> (r: Vec<ChatMessage>)
    ensures
        messages_view(r@) == single_message(content@),
{
    let r = vec![ChatMessage { role: owned("user"), content }];
    assert(messages_view(r@) =~= single_message(content@));
    r
}

pub open spec fn plan_result_view(r: Result<(Provider, ChatRequest), String>) -> Result<
    (ProviderView, RequestView),
    Seq<char>,
> {
    match r {
        Ok((p, q)) => Ok((p@, q@)),
        Err(e) => Err(e@),
    }
}

/// The explanation request: the `fast` role, the template in force for
/// explanations rendered with the explanation language and the context, and
/// the selection as the user message.
pub open spec fn explain_plan_spec(s: SettingsView, text: Seq<char>, context: Option<&str>) -> Result<
    (ProviderView, RequestView),
    Seq<char>,
> {
    match resolve_spec(s, Role::Fast) {
        None => Err("尚未配置「释义」模型，请先到设置里配置"@),
        Some((p, model)) => Ok(
            (
                p,
                RequestView {
                    model,
                    system: Some(
                        render_spec(
                            selected_template(s, TemplateKind::Explain).body,
                            s.native_language,
                            context_text(context),
                        ),
                    ),
                    messages: single_message(explain_user_spec(text, opt_str_view(context))),
                    max_tokens: effective_max_tokens(p.max_tokens, DEFAULT_EXPLAIN_MAX_TOKENS),
                    temperature_tenths: 2,
                },
            ),
        ),
    }
}

pub fn plan_explain(settings: &Settings, text: &str, context: Option<&str>) -> (r: Result<
    (Provider, ChatRequest),
    String,
>)
    ensures
        plan_result_view(r) == explain_plan_spec(settings@, text@, context),
{
    let (provider, model) = match settings.resolve(Role::Fast) {
        None => {
            return Err(owned("尚未配置「释义」模型，请先到设置里配置"));
        },
        Some(pm) => pm,
    };
    let template = settings.template(TemplateKind::Explain);
    let system = render(template.body.as_str(), settings.native_language.as_str(), context);
    let req = ChatRequest {
        model: owned(model),
        system: Some(system),
        messages: user_message(explain_user(text, context)),
        max_tokens: provider.max_tokens_or(DEFAULT_EXPLAIN_MAX_TOKENS),
        temperature_tenths: 2,
    };
    Ok((provider.duplicate(), req))
}

/// The follow-up request: the `chat` role, the chat template in force
/// rendered without context, and the conversation so far.
pub open spec fn chat_plan_spec(s: SettingsView, messages: Seq<MessageView>) -> Result<
    (ProviderView, RequestView),
    Seq<char>,
> {
    match resolve_spec(s, Role::Chat) {
        None => Err("尚未配置「对话」模型，请先到设置里配置"@),
        Some((p, model)) => Ok(
            (
                p,
                RequestView {
                    model,
                    system: Some(
                        render_spec(
                            selected_template(s, TemplateKind::Chat).body,
                            s.native_language,
                            Seq::empty(),
                        ),
                    ),
                    messages,
                    max_tokens: effective_max_tokens(p.max_tokens, DEFAULT_CHAT_MAX_TOKENS),
                    temperature_tenths: 6,
                },
            ),
        ),
    }
}

pub fn plan_chat(settings: &Settings, messages: Vec<ChatMessage>) -> (r: Result<
    (Provider, ChatRequest),
    String,
>)
    ensures
        plan_result_view(r) == chat_plan_spec(settings@, messages_view(messages@)),
{
    let (provider, model) = match settings.resolve(Role::Chat) {
        None => {
            return Err(owned("尚未配置「对话」模型，请先到设置里配置"));
        },
        Some(pm) => pm,
    };
    let template = settings.template(TemplateKind::Chat);
    let system = render(template.body.as_str(), settings.native_language.as_str(), None);
    let req = ChatRequest {
        model: owned(model),
        system: Some(system),
        messages,
        max_tokens: provider.max_tokens_or(DEFAULT_CHAT_MAX_TOKENS),
        temperature_tenths: 6,
    };
    Ok((provider.duplicate(), req))
}

/// An explanation is always prompted by the explanation template in force,
/// rendered in the explanation language with the selection's context: with
/// no explanation template selected, by the built-in unified one. The legacy
/// word, sentence and translate selections, the chat selection and the chat
/// binding never change an explanation request.
pub proof fn lemma_explanations_use_the_explain_prompt(
    s: SettingsView,
    other: SettingsView,
    text: Seq<char>,
    context: Option<&str>,
)
    requires
        other.providers == s.providers,
        other.fast == s.fast,
        other.native_language == s.native_language,
        other.templates == s.templates,
        other.active_explain == s.active_explain,
    ensures
        explain_plan_spec(other, text, context) == explain_plan_spec(s, text, context),
        explain_plan_spec(s, text, context) matches Ok((_, req)) ==> {
            &&& req.system == Some(
                render_spec(
                    selected_template(s, TemplateKind::Explain).body,
                    s.native_language,
                    context_text(context),
                ),
            )
            &&& selected_template(s, TemplateKind::Explain).kind == TemplateKind::Explain
            &&& s.active_explain is None ==> req.system == Some(
                render_spec(EXPLAIN_BODY@, s.native_language, context_text(context)),
            )
        },
{
    lemma_selected_template_kind(s, TemplateKind::Explain);
    assert(selected_template(other, TemplateKind::Explain) == selected_template(
        s,
        TemplateKind::Explain,
    ));
    assert(resolve_spec(other, Role::Fast) == resolve_spec(s, Role::Fast));
}

/// A follow-up is answered under the chat template in force, never an
/// explanation template: its system prompt is that template rendered in the
/// explanation language without context (with no chat template selected,
/// the built-in chat prompt), and the conversation is sent as given. The
/// explanation and legacy selections and the fast binding never change a
/// follow-up request.
pub proof fn lemma_follow_ups_use_the_chat_prompt(
    s: SettingsView,
    other: SettingsView,
    messages: Seq<MessageView>,
)
    requires
        other.providers == s.providers,
        other.chat == s.chat,
        other.native_language == s.native_language,
        other.templates == s.templates,
        other.active_chat == s.active_chat,
    ensures
        chat_plan_spec(other, messages) == chat_plan_spec(s, messages),
        chat_plan_spec(s, messages) matches Ok((_, req)) ==> {
            &&& req.system == Some(
                render_spec(
                    selected_template(s, TemplateKind::Chat).body,
                    s.native_language,
                    Seq::empty(),
                ),
            )
            &&& selected_template(s, TemplateKind::Chat).kind == TemplateKind::Chat
            &&& s.active_chat is None ==> req.system == Some(
                render_spec(CHAT_BODY@, s.native_language, Seq::empty()),
            )
            &&& req.messages == messages
        },
{
    lemma_selected_template_kind(s, TemplateKind::Chat);
    assert(selected_template(other, TemplateKind::Chat) == selected_template(
        s,
        TemplateKind::Chat,
    ));
    assert(resolve_spec(other, Role::Chat) == resolve_spec(s, Role::Chat));
}

/// The role a template trial uses: the same as real requests of its kind.
pub open spec fn probe_role(kind: TemplateKind) -> Role {
    if kind == TemplateKind::Chat {
        Role::Chat
    } else {
        Role::Fast
    }
}

/// The user message of a template trial: the sample itself for chat, the
/// sample as a selection otherwise.
pub open spec fn probe_message(kind: TemplateKind) -> Seq<char> {
    if kind == TemplateKind::Chat {
        probe_cases_spec(kind)[0].input
    } else {
        explain_user_spec(probe_cases_spec(kind)[0].input, None)
    }
}

/// A template trial: the unsaved `body` rendered without context, sent with
/// the kind's sample.
pub open spec fn probe_plan_spec(s: SettingsView, kind: TemplateKind, body: Seq<char>) -> Result<
    (ProviderView, RequestView),
    Seq<char>,
> {
    match resolve_spec(s, probe_role(kind)) {
        None => Err("尚未配置模型，请先在上方配置并绑定角色"@),
        Some((p, model)) => Ok(
            (
                p,
                RequestView {
                    model,
                    system: Some(render_spec(body, s.native_language, Seq::empty())),
                    messages: single_message(probe_message(kind)),
                    max_tokens: effective_max_tokens(p.max_tokens, DEFAULT_EXPLAIN_MAX_TOKENS),
                    temperature_tenths: 2,
                },
            ),
        ),
    }
}

pub fn plan_probe(settings: &Settings, kind: TemplateKind, body: &str) -> (r: Result<
    (Provider, ChatRequest),
    String,
>)
    ensures
        plan_result_view(r) == probe_plan_spec(settings@, kind, body@),
{
    let role = if kind == TemplateKind::Chat {
        Role::Chat
    } else {
        Role::Fast
    };
    let (provider, model) = match settings.resolve(role) {
        None => {
            return Err(owned("尚未配置模型，请先在上方配置并绑定角色"));
        },
        Some(pm) => pm,
    };
    let user = if kind == TemplateKind::Chat {
        owned(probe_input(kind))
    } else {
        explain_user(probe_input(kind), None)
    };
    let req = ChatRequest {
        model: owned(model),
        system: Some(render(body, settings.native_language.as_str(), None)),
        messages: user_message(user),
        max_tokens: provider.max_tokens_or(DEFAULT_EXPLAIN_MAX_TOKENS),
        temperature_tenths: 2,
    };
    Ok((provider.duplicate(), req))
}

/// The connection test: ask for a one-word echo, with the provider's output
/// budget, since a reasoning model thinks before answering even that.
pub open spec fn connection_test_spec(p: ProviderView, model: Seq<char>) -> RequestView {
    RequestView {
        model,
        system: None,
        messages: single_message("Reply with the single word: OK"@),
        max_tokens: effective_max_tokens(p.max_tokens, DEFAULT_EXPLAIN_MAX_TOKENS),
        temperature_tenths: 0,
    }
}

pub fn plan_connection_test(provider: &Provider, model: String) -> (r: ChatRequest)
    ensures
        r@ == connection_test_spec(provider@, model@),
{
    ChatRequest {
        model,
        system: None,
        messages: user_message(owned("Reply with the single word: OK")),
        max_tokens: provider.max_tokens_or(DEFAULT_EXPLAIN_MAX_TOKENS),
        temperature_tenths: 0,
    }
}

/// The verdict of a connection test on the answer text: the trimmed echo,
/// or an error when nothing came back.
pub open spec fn connection_outcome_spec(text: Seq<char>) -> Result<Seq<char>, Seq<char>> {
    if trim(text).len() == 0 {
        Err("连接成功但模型没有返回内容，检查模型名是否正确"@)
    } else {
        Ok(trim(text))
    }
}

pub fn connection_test_outcome(text: &str) -> (r: Result<String, String>)
    ensures
        match r {
            Ok(t) => connection_outcome_spec(text@) == Ok::<Seq<char>, Seq<char>>(t@),
            Err(e) => connection_outcome_spec(text@) == Err::<Seq<char>, Seq<char>>(e@),
        },
{
    let t = trimmed(text);
    if t.as_str().is_empty() {
        Err(owned("连接成功但模型没有返回内容，检查模型名是否正确"))
    } else {
        Ok(t)
    }
}

// ------------------------------------------------------------------ template trials

/// The result of trying a template once.
#[derive(Clone, Debug)]
pub struct TemplateProbe {
    /// The model's raw output, for the user to judge.
    pub raw: String,
    /// Explanation kinds: whether the output parsed as JSON. Chat: whether
    /// anything came back.
    pub parsed: bool,
    /// Contract fields the output lacks.
    pub missing_fields: Vec<String>,
}

/// Fields of `fields` that `doc` has no member for, in order.
pub open spec fn absent_members(fields: Seq<Seq<char>>, doc: Json) -> Seq<Seq<char>>
    decreases fields.len(),
{
    if fields.len() == 0 {
        Seq::empty()
    } else if member(doc, fields.last()) is Some {
        absent_members(fields.drop_last(), doc)
    } else {
        absent_members(fields.drop_last(), doc).push(fields.last())
    }
}

/// The verdict of a trial on output `raw`: a kind without a field contract
/// passes when the output is not blank; otherwise the output, unfenced, must
/// parse, and every required field it lacks is listed (all of them when it
/// does not parse).
pub open spec fn probe_verdict(kind: TemplateKind, raw: Seq<char>) -> (bool, Seq<Seq<char>>) {
    let required = required_fields_spec(kind);
    if required.len() == 0 {
        (!is_blank(raw), Seq::empty())
    } else {
        match parsed_json(unfenced(raw)) {
            Some(doc) => (true, absent_members(required, doc)),
            None => (false, required),
        }
    }
}

pub open spec fn strings_of(v: Seq<String>) -> Seq<Seq<char>> {
    v.map_values(|s: String| s@)
}

/// Judges a trial's output against the field contract of `kind`.
pub fn evaluate_probe(kind: TemplateKind, raw: String) -> (p: TemplateProbe)
    ensures
        p.raw@ == raw@,
        (p.parsed, strings_of(p.missing_fields@)) == probe_verdict(kind, raw@),
{
    let required = required_fields(kind);
    let mut missing: Vec<String> = Vec::new();
    if required.len() == 0 {
        assert(names_view(required@).len() == 0);
        assert(strings_of(missing@) =~= Seq::<Seq<char>>::empty());
        let parsed = !is_blank_exec(raw.as_str());
        return TemplateProbe { parsed, raw, missing_fields: missing };
    }
    let stripped = unfence(raw.as_str());
    let ghost names = names_view(required@);
    match parse_json(stripped.as_str()) {
        Some(doc) => {
            let mut k: usize = 0;
            assert(names.take(0) =~= Seq::<Seq<char>>::empty());
            while k < required.len()
                invariant
                    k <= required.len(),
                    names == names_view(required@),
                    strings_of(missing@) == absent_members(names.take(k as int), doc),
                decreases required.len() - k,
            {
                assert(names.take(k + 1).drop_last() =~= names.take(k as int));
                assert(names.take(k + 1).last() == required@[k as int]@);
                if get_member(&doc, required[k]).is_none() {
                    let ghost before = strings_of(missing@);
                    missing.push(owned(required[k]));
                    assert(strings_of(missing@) =~= before.push(required@[k as int]@));
                }
                k += 1;
            }
            assert(names.take(required.len() as int) =~= names);
            TemplateProbe { raw, parsed: true, missing_fields: missing }
        },
        None => {
            let mut k: usize = 0;
            while k < required.len()
                invariant
                    k <= required.len(),
                    names == names_view(required@),
                    strings_of(missing@) == names.take(k as int),
                decreases required.len() - k,
            {
                let ghost before = strings_of(missing@);
                missing.push(owned(required[k]));
                assert(strings_of(missing@) =~= before.push(required@[k as int]@));
                assert(names.take(k + 1) =~= names.take(k as int).push(required@[k as int]@));
                k += 1;
            }
            assert(names.take(required.len() as int) =~= names);
            TemplateProbe { raw, parsed: false, missing_fields: missing }
        },
    }
}

/// A trial never reports a field outside the contract, and an output
/// that does not parse misses every field of it.
pub proof fn lemma_probe_reports_only_contract_fields(kind: TemplateKind, raw: Seq<char>)
    ensures
        forall|i: int|
            0 <= i < probe_verdict(kind, raw).1.len() ==> required_fields_spec(kind).contains(
                #[trigger] probe_verdict(kind, raw).1[i],
            ),
        !probe_verdict(kind, raw).0 && required_fields_spec(kind).len() > 0 ==> probe_verdict(
            kind,
            raw,
        ).1 == required_fields_spec(kind),
{
    let required = required_fields_spec(kind);
    if required.len() > 0 {
        match parsed_json(unfenced(raw)) {
            Some(doc) => lemma_absent_members_subset(required, doc),
            None => {
                assert forall|i: int| 0 <= i < required.len() implies required.contains(
                    #[trigger] required[i],
                ) by {}
            },
        }
    }
}

proof fn lemma_absent_members_subset(fields: Seq<Seq<char>>, doc: Json)
    ensures
        forall|i: int|
            0 <= i < absent_members(fields, doc).len() ==> fields.contains(
                #[trigger] absent_members(fields, doc)[i],
            ),
    decreases fields.len(),
{
    if fields.len() > 0 {
        lemma_absent_members_subset(fields.drop_last(), doc);
        let prev = absent_members(fields.drop_last(), doc);
        assert forall|i: int| 0 <= i < absent_members(fields, doc).len() implies fields.contains(
            #[trigger] absent_members(fields, doc)[i],
        ) by {
            if i < prev.len() {
                let f = prev[i];
                assert(fields.drop_last().contains(f));
                let j = choose|j: int| 0 <= j < fields.drop_last().len() && fields.drop_last()[j] == f;
                assert(fields[j] == f);
            } else {
                assert(fields[fields.len() - 1] == fields.last());
            }
        }
    }
}

} // verus!
