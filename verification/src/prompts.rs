//! The first user message of an explanation, and the fixed samples a
//! template is tried on.
//!
//! The selection is not classified here: the unified template lets the model
//! decide between word, sentence and translation in the same request.
use vstd::prelude::*;

use crate::templates::TemplateKind;
use crate::text::{is_blank, is_blank_exec, owned, push_str};

verus! {

/// The first user message: the selection, and the sentence it came from when
/// one is known and not blank. The selection never goes into the system
/// prompt, where it could be mistaken for template instructions.
pub open spec fn explain_user_spec(text: Seq<char>, context: Option<Seq<char>>) -> Seq<char> {
    match context {
        Some(ctx) => if is_blank(ctx) {
            "选中的内容："@ + text
        } else {
            "选中的内容："@ + text + "\n\n所在原句："@ + ctx
        },
        None => "选中的内容："@ + text,
    }
}

/// The characters of an optional string.
pub open spec fn opt_str_view(o: Option<&str>) -> Option<Seq<char>> {
    match o {
        Some(s) => Some(s@),
        None => None,
    }
}

pub fn explain_user(text: &str, context: Option<&str>) -> (r: String)
    ensures
        r@ == explain_user_spec(text@, opt_str_view(context)),
{
    let mut r = owned("选中的内容：");
    push_str(&mut r, text);
    match context {
        Some(ctx) => {
            if !is_blank_exec(ctx) {
                push_str(&mut r, "\n\n所在原句：");
                push_str(&mut r, ctx);
            }
        },
        None => {},
    }
    r
}

/// A fixed sample input for trying a template.
#[derive(Clone, Copy, Debug)]
pub struct ProbeCase {
    pub label: &'static str,
    pub input: &'static str,
    /// The mode a unified explanation of this input must choose.
    pub expected_mode: Option<&'static str>,
}

pub struct ProbeCaseView {
    pub label: Seq<char>,
    pub input: Seq<char>,
    pub expected_mode: Option<Seq<char>>,
}

impl View for ProbeCase {
    type V = ProbeCaseView;

    open spec fn view(&self) -> ProbeCaseView {
        ProbeCaseView {
            label: self.label@,
            input: self.input@,
            expected_mode: opt_str_view(self.expected_mode),
        }
    }
}

pub open spec fn probe_view(label: Seq<char>, input: Seq<char>, mode: Option<Seq<char>>) -> ProbeCaseView {
    ProbeCaseView { label, input, expected_mode: mode }
}

/// The samples for `kind`. The unified explanation is tried on all three
/// modes, since only that shows whether the model routes by itself.
pub open spec fn probe_cases_spec(kind: TemplateKind) -> Seq<ProbeCaseView> {
    match kind {
        TemplateKind::Explain => seq![
            probe_view("单词 / 短语"@, "take on"@, Some("word"@)),
            probe_view("英文句子"@, "Himan, what's your name"@, Some("sentence"@)),
            probe_view("译成英文"@, "这事儿我来扛。"@, Some("translate"@)),
        ],
        TemplateKind::Chat => seq![probe_view("追问对话"@, "这个表达还有更口语的说法吗？"@, None)],
        TemplateKind::Word => seq![probe_view("旧版单词释义"@, "take on"@, None)],
        TemplateKind::Sentence => seq![
            probe_view(
                "旧版句子释义"@,
                "She agreed to take on the project despite the tight deadline."@,
                None,
            ),
        ],
        TemplateKind::Translate => seq![probe_view("旧版译成英文"@, "这事儿我来扛。"@, None)],
    }
}

pub open spec fn probes_view(v: Seq<ProbeCase>) -> Seq<ProbeCaseView> {
    v.map_values(|c: ProbeCase| c@)
}

pub fn probe_cases(kind: TemplateKind) -> (r: Vec<ProbeCase>)
    ensures
        probes_view(r@) == probe_cases_spec(kind),
{
    let r = match kind {
        TemplateKind::Explain => vec![
            ProbeCase { label: "单词 / 短语", input: "take on", expected_mode: Some("word") },
            ProbeCase {
                label: "英文句子",
                input: "Himan, what's your name",
                expected_mode: Some("sentence"),
            },
            ProbeCase { label: "译成英文", input: "这事儿我来扛。", expected_mode: Some("translate") },
        ],
        TemplateKind::Chat => vec![
            ProbeCase { label: "追问对话", input: "这个表达还有更口语的说法吗？", expected_mode: None },
        ],
        TemplateKind::Word => vec![
            ProbeCase { label: "旧版单词释义", input: "take on", expected_mode: None },
        ],
        TemplateKind::Sentence => vec![
            ProbeCase {
                label: "旧版句子释义",
                input: "She agreed to take on the project despite the tight deadline.",
                expected_mode: None,
            },
        ],
        TemplateKind::Translate => vec![
            ProbeCase { label: "旧版译成英文", input: "这事儿我来扛。", expected_mode: None },
        ],
    };
    assert(probes_view(r@) =~= probe_cases_spec(kind));
    r
}

/// The sample a template of `kind` is tried on: its first probe case.
pub fn probe_input(kind: TemplateKind) -> (r: &'static str)
    ensures
        r@ == probe_cases_spec(kind)[0].input,
{
    let cases = probe_cases(kind);
    assert(probe_cases_spec(kind).len() >= 1);
    assert(probes_view(cases@).len() == cases@.len());
    assert(probes_view(cases@)[0] == cases@[0]@);
    cases[0].input
}

} // verus!
