//! Prompt templates: the built-in ones, placeholder rendering, and the static
//! check that catches misspelled variables and missing JSON fields.
//!
//! Built-in templates live in code and are never written to the settings
//! file; the settings only record which template id is selected.
use vstd::prelude::*;

use crate::text::{
    chars_of, contains, contains_exec, decimal, find_from, find_from_exec, is_blank,
    is_blank_exec, join, lemma_find_from_facts, lemma_replace_absent, lemma_trim_idempotent,
    matches_at, matches_at_exec, owned, push_char, push_decimal, push_range, push_str, replace,
    replace_exec, skip_ws, str_eq, string_of, trim, trim_bounds, trim_start,
};

verus! {

/// What a template is for.
#[derive(Clone, Copy, Debug, PartialEq, Eq, Structural)]
pub enum TemplateKind {
    /// Unified explanation: the model decides between word, sentence and
    /// translate, and answers with the JSON branch for its choice.
    Explain,
    /// Follow-up conversation: free text, no field contract.
    Chat,
    /// Legacy kind, kept so that existing settings still load.
    Word,
    /// Legacy kind, kept so that existing settings still load.
    Sentence,
    /// Legacy kind, kept so that existing settings still load.
    Translate,
}

impl TemplateKind {
    /// The kinds that settings offer and that real requests use.
    pub const SELECTABLE: [TemplateKind; 2] = [TemplateKind::Explain, TemplateKind::Chat];

    /// Every kind, legacy ones included.
    pub const ALL: [TemplateKind; 5] = [
        TemplateKind::Explain,
        TemplateKind::Chat,
        TemplateKind::Word,
        TemplateKind::Sentence,
        TemplateKind::Translate,
    ];
}

/// A prompt template, built-in or the user's own.
#[derive(Clone, Debug)]
pub struct PromptTemplate {
    pub id: String,
    pub name: String,
    pub kind: TemplateKind,
    pub body: String,
    /// Built-in templates cannot be edited or deleted. User templates are
    /// always stored with `false`, so that none can be forged.
    pub builtin: bool,
}

/// A template as a mathematical value.
pub struct TemplateView {
    pub id: Seq<char>,
    pub name: Seq<char>,
    pub kind: TemplateKind,
    pub body: Seq<char>,
    pub builtin: bool,
}

impl View for PromptTemplate {
    type V = TemplateView;

    open spec fn view(&self) -> TemplateView {
        TemplateView {
            id: self.id@,
            name: self.name@,
            kind: self.kind,
            body: self.body@,
            builtin: self.builtin,
        }
    }
}

impl PromptTemplate {
    /// A copy of this template.
    pub fn duplicate(&self) -> (r: PromptTemplate)
        ensures
            r@ == self@,
    {
        PromptTemplate {
            id: self.id.clone(),
            name: self.name.clone(),
            kind: self.kind,
            body: self.body.clone(),
            builtin: self.builtin,
        }
    }
}

pub const BUILTIN_EXPLAIN_ID: &'static str = "builtin-explain";

pub const BUILTIN_CHAT_ID: &'static str = "builtin-chat";

pub const BUILTIN_WORD_ID: &'static str = "builtin-word";

pub const BUILTIN_SENTENCE_ID: &'static str = "builtin-sentence";

pub const BUILTIN_TRANSLATE_ID: &'static str = "builtin-translate";

/// The placeholders a template body may use.
pub const VARIABLES: [&'static str; 2] = ["nativeLanguage", "context"];

/// Bodies longer than this many characters get a warning: too many extra
/// constraints dilute the JSON format requirement.
pub const LONG_BODY_CHARS: usize = 2000;

/// Placeholder for the explanation language.
pub const NATIVE_LANGUAGE_PLACEHOLDER: &'static str = "{{nativeLanguage}}";

/// Placeholder for the sentence the selection came from.
pub const CONTEXT_PLACEHOLDER: &'static str = "{{context}}";

pub open spec fn builtin_id_of(kind: TemplateKind) -> Seq<char> {
    match kind {
        TemplateKind::Explain => BUILTIN_EXPLAIN_ID@,
        TemplateKind::Chat => BUILTIN_CHAT_ID@,
        TemplateKind::Word => BUILTIN_WORD_ID@,
        TemplateKind::Sentence => BUILTIN_SENTENCE_ID@,
        TemplateKind::Translate => BUILTIN_TRANSLATE_ID@,
    }
}

pub open spec fn builtin_name_of(kind: TemplateKind) -> Seq<char> {
    match kind {
        TemplateKind::Explain => "内置 · 统一释义"@,
        TemplateKind::Chat => "内置 · 追问对话"@,
        TemplateKind::Word => "旧版内置 · 单词释义"@,
        TemplateKind::Sentence => "旧版内置 · 句子释义"@,
        TemplateKind::Translate => "旧版内置 · 译成英文"@,
    }
}

pub open spec fn builtin_body_of(kind: TemplateKind) -> Seq<char> {
    match kind {
        TemplateKind::Explain => EXPLAIN_BODY@,
        TemplateKind::Chat => CHAT_BODY@,
        TemplateKind::Word => WORD_BODY@,
        TemplateKind::Sentence => SENTENCE_BODY@,
        TemplateKind::Translate => TRANSLATE_BODY@,
    }
}

/// The built-in template of `kind`.
pub open spec fn builtin_view(kind: TemplateKind) -> TemplateView {
    TemplateView {
        id: builtin_id_of(kind),
        name: builtin_name_of(kind),
        kind: kind,
        body: builtin_body_of(kind),
        builtin: true,
    }
}

/// Whether `id` is the id of some built-in template, legacy ones included.
pub open spec fn is_builtin_id(id: Seq<char>) -> bool {
    ||| id == BUILTIN_EXPLAIN_ID@
    ||| id == BUILTIN_CHAT_ID@
    ||| id == BUILTIN_WORD_ID@
    ||| id == BUILTIN_SENTENCE_ID@
    ||| id == BUILTIN_TRANSLATE_ID@
}

pub fn builtin_id(kind: TemplateKind) -> (id: &'static str)
    ensures
        id@ == builtin_id_of(kind),
{
    match kind {
        TemplateKind::Explain => BUILTIN_EXPLAIN_ID,
        TemplateKind::Chat => BUILTIN_CHAT_ID,
        TemplateKind::Word => BUILTIN_WORD_ID,
        TemplateKind::Sentence => BUILTIN_SENTENCE_ID,
        TemplateKind::Translate => BUILTIN_TRANSLATE_ID,
    }
}

/// Whether `id` names a built-in template.
pub fn is_builtin_id_exec(id: &str) -> (r: bool)
    ensures
        r == is_builtin_id(id@),
{
    str_eq(id, BUILTIN_EXPLAIN_ID) || str_eq(id, BUILTIN_CHAT_ID) || str_eq(id, BUILTIN_WORD_ID)
        || str_eq(id, BUILTIN_SENTENCE_ID) || str_eq(id, BUILTIN_TRANSLATE_ID)
}

pub fn builtin(kind: TemplateKind) -> (t: PromptTemplate)
    ensures
        t@ == builtin_view(kind),
{
    let (name, body) = match kind {
        TemplateKind::Explain => ("内置 · 统一释义", EXPLAIN_BODY),
        TemplateKind::Chat => ("内置 · 追问对话", CHAT_BODY),
        TemplateKind::Word => ("旧版内置 · 单词释义", WORD_BODY),
        TemplateKind::Sentence => ("旧版内置 · 句子释义", SENTENCE_BODY),
        TemplateKind::Translate => ("旧版内置 · 译成英文", TRANSLATE_BODY),
    };
    PromptTemplate {
        id: owned(builtin_id(kind)),
        name: owned(name),
        kind,
        body: owned(body),
        builtin: true,
    }
}

/// Every built-in template is usable as it stands: it carries its kind's
/// built-in id, is flagged built-in, and its body is not blank.
pub proof fn lemma_builtins_are_usable(kind: TemplateKind)
    ensures
        builtin_view(kind).id == builtin_id_of(kind),
        is_builtin_id(builtin_view(kind).id),
        builtin_view(kind).kind == kind,
        builtin_view(kind).builtin,
        !is_blank(builtin_view(kind).body),
{
    let body = builtin_body_of(kind);
    match kind {
        TemplateKind::Explain => {
            reveal_strlit(r#"你是一位英语老师，帮助母语为{{nativeLanguage}}的学习者理解或表达语言。

用户会给出一段选中的内容，并可能附带所在原句。先根据语言结构和用户实际意图判断模式，**不要按词数、字符数或是否有句末标点硬判**：
- `word`：英文单词、固定搭配或名词短语，用户想知道它在语境中的意思。
- `sentence`：英文完整话语、分句或可独立理解的表达；短问句、口语、省略句、缺标点或有拼写错误时仍可属于句子。
- `translate`：内容主要不是英文，用户想知道地道英文怎么说。

只输出一个 JSON 对象，不要输出解释性文字，不要包裹代码块。`mode` 必须是第一个字段，值只能是 `word`、`sentence`、`translate`。判断后只输出对应分支的字段，**不要补另外两个分支的键**。

`word` 分支：结合所在原句解释此处义项；没有原句时给最常见义项。先检查选中内容的拼写、词形或搭配，有错写进 `grammar`，无错两项给空字符串。
{
  "mode": "word",
  "grammar": { "issue": "用{{nativeLanguage}}说明错误；无错留空", "corrected": "改正后的英文；无错留空" },
  "word": "词条原形",
  "phonetic": "IPA 音标，不确定留空",
  "pos": "词性缩写",
  "senseHere": "用{{nativeLanguage}}给出此处含义，一句话",
  "why": "用{{nativeLanguage}}说明语感或为什么在此处是这个意思",
  "collocations": ["常见英文搭配，2 到 4 个"],
  "example": { "en": "地道英文例句", "zh": "{{nativeLanguage}}翻译" }
}

`sentence` 分支：解释整段内容，**不许只挑其中一个单词讲**。先检查拼写和语法；有错给出改正后的完整表达，后续仍讲用户原文。
{
  "mode": "sentence",
  "grammar": { "issue": "用{{nativeLanguage}}说明错误；无错留空", "corrected": "改正后的完整英文；无错留空" },
  "translation": "完整、自然的{{nativeLanguage}}翻译",
  "structure": "用{{nativeLanguage}}说明句子结构或关键语法，一到两句",
  "keyPoints": [{ "term": "真正影响理解的原文词或短语", "note": "用{{nativeLanguage}}解释此处用法" }]
}
`keyPoints` 给 1 到 4 项；没有难点可给空数组。

`translate` 分支：给一个母语者会自然说出口的英文版本，不要逐字直译。默认日常口语，原文明显正式或粗俗时跟随语气。`wordChoice` 解释地道搭配、近义词取舍或意译理由。
{
  "mode": "translate",
  "english": "最地道的英文说法",
  "wordChoice": [{ "term": "译文里的词或短语", "note": "用{{nativeLanguage}}说明为什么这样选词" }],
  "alternatives": [{ "text": "实质不同的另一种完整说法", "when": "用{{nativeLanguage}}说明语气或场合差别" }]
}

对应分支的字段必须齐全。无法判断的字符串给空字符串，列表给空数组，不要省略该分支的键。"#);
            assert(EXPLAIN_BODY@ == (r#"你是一位英语老师，帮助母语为{{nativeLanguage}}的学习者理解或表达语言。

用户会给出一段选中的内容，并可能附带所在原句。先根据语言结构和用户实际意图判断模式，**不要按词数、字符数或是否有句末标点硬判**：
- `word`：英文单词、固定搭配或名词短语，用户想知道它在语境中的意思。
- `sentence`：英文完整话语、分句或可独立理解的表达；短问句、口语、省略句、缺标点或有拼写错误时仍可属于句子。
- `translate`：内容主要不是英文，用户想知道地道英文怎么说。

只输出一个 JSON 对象，不要输出解释性文字，不要包裹代码块。`mode` 必须是第一个字段，值只能是 `word`、`sentence`、`translate`。判断后只输出对应分支的字段，**不要补另外两个分支的键**。

`word` 分支：结合所在原句解释此处义项；没有原句时给最常见义项。先检查选中内容的拼写、词形或搭配，有错写进 `grammar`，无错两项给空字符串。
{
  "mode": "word",
  "grammar": { "issue": "用{{nativeLanguage}}说明错误；无错留空", "corrected": "改正后的英文；无错留空" },
  "word": "词条原形",
  "phonetic": "IPA 音标，不确定留空",
  "pos": "词性缩写",
  "senseHere": "用{{nativeLanguage}}给出此处含义，一句话",
  "why": "用{{nativeLanguage}}说明语感或为什么在此处是这个意思",
  "collocations": ["常见英文搭配，2 到 4 个"],
  "example": { "en": "地道英文例句", "zh": "{{nativeLanguage}}翻译" }
}

`sentence` 分支：解释整段内容，**不许只挑其中一个单词讲**。先检查拼写和语法；有错给出改正后的完整表达，后续仍讲用户原文。
{
  "mode": "sentence",
  "grammar": { "issue": "用{{nativeLanguage}}说明错误；无错留空", "corrected": "改正后的完整英文；无错留空" },
  "translation": "完整、自然的{{nativeLanguage}}翻译",
  "structure": "用{{nativeLanguage}}说明句子结构或关键语法，一到两句",
  "keyPoints": [{ "term": "真正影响理解的原文词或短语", "note": "用{{nativeLanguage}}解释此处用法" }]
}
`keyPoints` 给 1 到 4 项；没有难点可给空数组。

`translate` 分支：给一个母语者会自然说出口的英文版本，不要逐字直译。默认日常口语，原文明显正式或粗俗时跟随语气。`wordChoice` 解释地道搭配、近义词取舍或意译理由。
{
  "mode": "translate",
  "english": "最地道的英文说法",
  "wordChoice": [{ "term": "译文里的词或短语", "note": "用{{nativeLanguage}}说明为什么这样选词" }],
  "alternatives": [{ "text": "实质不同的另一种完整说法", "when": "用{{nativeLanguage}}说明语气或场合差别" }]
}

对应分支的字段必须齐全。无法判断的字符串给空字符串，列表给空数组，不要省略该分支的键。"#)@);
        },
        TemplateKind::Chat => {
            reveal_strlit(r#"你是一位英语老师，正在和一位母语为{{nativeLanguage}}的学习者讨论他刚查询的内容。

规则：
- 用{{nativeLanguage}}讲解，英文例句保留英文原文。
- 简洁。默认三句话以内说清，用户要求展开时才展开。
- 举例优先于抽象定义。讲用法差异时给对比例句。
- 不确定的语料不要编造，直说不确定。
- 可以用 Markdown，但不要用大标题，最多用列表和加粗。"#);
            assert(CHAT_BODY@ == (r#"你是一位英语老师，正在和一位母语为{{nativeLanguage}}的学习者讨论他刚查询的内容。

规则：
- 用{{nativeLanguage}}讲解，英文例句保留英文原文。
- 简洁。默认三句话以内说清，用户要求展开时才展开。
- 举例优先于抽象定义。讲用法差异时给对比例句。
- 不确定的语料不要编造，直说不确定。
- 可以用 Markdown，但不要用大标题，最多用列表和加粗。"#)@);
        },
        TemplateKind::Word => {
            reveal_strlit(r#"你是一位英语老师，帮助母语为{{nativeLanguage}}的学习者理解英文词汇。

用户会给出选中的词。如果同时给出了它所在的原句，你必须解释**这个词在该句中的具体含义**，而不是罗列全部义项，`why` 字段说明为什么在此处是这个意思；如果没有给出原句，给出最常见的义项，`why` 字段简述该词的核心语感或最典型的使用场景。

解释之前先检查选中内容本身有没有拼写或语法错误（拼错、词形不对、搭配错、多余或缺失的成分等）。有错就在 `grammar` 里指出错在哪、给出改正后的写法。**不许默默按改正后的内容解释而不吭声**——其余字段可以按正确写法讲，但错误必须先在 `grammar` 里点出来。选中内容没有错误时，`grammar` 的两项都给空字符串。

只输出一个 JSON 对象，不要输出任何解释性文字，不要包裹代码块。JSON 结构如下：

{
  "grammar": {
    "issue": "用{{nativeLanguage}}说明选中内容的拼写或语法错误，一到两句；没有错误则给空字符串",
    "corrected": "改正后的英文写法；没有错误则给空字符串"
  },
  "word": "词条原形",
  "phonetic": "IPA 音标，不确定则留空字符串",
  "pos": "词性缩写，如 v. / n. / adj. / phr.",
  "senseHere": "用{{nativeLanguage}}给出此处含义，一句话，不超过 40 字",
  "why": "用{{nativeLanguage}}说明理由或语感，一到两句",
  "collocations": ["常见搭配，2 到 4 个，英文原文"],
  "example": { "en": "一个地道英文例句", "zh": "该例句的{{nativeLanguage}}翻译" }
}

字段必须齐全。无法判断的字段给空字符串或空数组，不要省略键。grammar 的两个子字段要么都填，要么都留空，不要只填一个。"#);
            assert(WORD_BODY@ == (r#"你是一位英语老师，帮助母语为{{nativeLanguage}}的学习者理解英文词汇。

用户会给出选中的词。如果同时给出了它所在的原句，你必须解释**这个词在该句中的具体含义**，而不是罗列全部义项，`why` 字段说明为什么在此处是这个意思；如果没有给出原句，给出最常见的义项，`why` 字段简述该词的核心语感或最典型的使用场景。

解释之前先检查选中内容本身有没有拼写或语法错误（拼错、词形不对、搭配错、多余或缺失的成分等）。有错就在 `grammar` 里指出错在哪、给出改正后的写法。**不许默默按改正后的内容解释而不吭声**——其余字段可以按正确写法讲，但错误必须先在 `grammar` 里点出来。选中内容没有错误时，`grammar` 的两项都给空字符串。

只输出一个 JSON 对象，不要输出任何解释性文字，不要包裹代码块。JSON 结构如下：

{
  "grammar": {
    "issue": "用{{nativeLanguage}}说明选中内容的拼写或语法错误，一到两句；没有错误则给空字符串",
    "corrected": "改正后的英文写法；没有错误则给空字符串"
  },
  "word": "词条原形",
  "phonetic": "IPA 音标，不确定则留空字符串",
  "pos": "词性缩写，如 v. / n. / adj. / phr.",
  "senseHere": "用{{nativeLanguage}}给出此处含义，一句话，不超过 40 字",
  "why": "用{{nativeLanguage}}说明理由或语感，一到两句",
  "collocations": ["常见搭配，2 到 4 个，英文原文"],
  "example": { "en": "一个地道英文例句", "zh": "该例句的{{nativeLanguage}}翻译" }
}

字段必须齐全。无法判断的字段给空字符串或空数组，不要省略键。grammar 的两个子字段要么都填，要么都留空，不要只填一个。"#)@);
        },
        TemplateKind::Sentence => {
            reveal_strlit(r#"你是一位英语老师，帮助母语为{{nativeLanguage}}的学习者读懂英文句子。

用户选中的是一整句或一个较长的片段。**不要只挑其中一个单词来解释**，要先给出整句的意思，再点出真正影响理解的地方。

解释之前先检查这句英文本身有没有语法错误（时态、单复数、冠词、主谓一致、介词搭配、语序等）。有错就在 `grammar` 里指出错在哪、给出改正后的完整句子，后面的翻译和讲解仍然针对**用户给的原句**，不要换成改正后的句子。只是措辞不地道、但语法正确的，不算错误，`grammar` 留空。

只输出一个 JSON 对象，不要输出任何解释性文字，不要包裹代码块。JSON 结构如下：

{
  "grammar": {
    "issue": "用{{nativeLanguage}}说明句子的语法错误，一到两句；句子没有语法错误则给空字符串",
    "corrected": "改正后的完整英文句子；句子没有语法错误则给空字符串"
  },
  "translation": "整句的{{nativeLanguage}}翻译。通顺自然，不要逐词直译",
  "structure": "用{{nativeLanguage}}说明句子结构或语法要点，一到两句",
  "keyPoints": [
    { "term": "句中值得注意的词或短语，英文原文", "note": "用{{nativeLanguage}}解释它在此处的含义或用法" }
  ]
}

keyPoints 给 2 到 4 项，挑真正影响理解的难点，简单词不要罗列。
字段必须齐全。无法判断的字段给空字符串或空数组，不要省略键。grammar 的两个子字段要么都填，要么都留空，不要只填一个。"#);
            assert(SENTENCE_BODY@ == (r#"你是一位英语老师，帮助母语为{{nativeLanguage}}的学习者读懂英文句子。

用户选中的是一整句或一个较长的片段。**不要只挑其中一个单词来解释**，要先给出整句的意思，再点出真正影响理解的地方。

解释之前先检查这句英文本身有没有语法错误（时态、单复数、冠词、主谓一致、介词搭配、语序等）。有错就在 `grammar` 里指出错在哪、给出改正后的完整句子，后面的翻译和讲解仍然针对**用户给的原句**，不要换成改正后的句子。只是措辞不地道、但语法正确的，不算错误，`grammar` 留空。

只输出一个 JSON 对象，不要输出任何解释性文字，不要包裹代码块。JSON 结构如下：

{
  "grammar": {
    "issue": "用{{nativeLanguage}}说明句子的语法错误，一到两句；句子没有语法错误则给空字符串",
    "corrected": "改正后的完整英文句子；句子没有语法错误则给空字符串"
  },
  "translation": "整句的{{nativeLanguage}}翻译。通顺自然，不要逐词直译",
  "structure": "用{{nativeLanguage}}说明句子结构或语法要点，一到两句",
  "keyPoints": [
    { "term": "句中值得注意的词或短语，英文原文", "note": "用{{nativeLanguage}}解释它在此处的含义或用法" }
  ]
}

keyPoints 给 2 到 4 项，挑真正影响理解的难点，简单词不要罗列。
字段必须齐全。无法判断的字段给空字符串或空数组，不要省略键。grammar 的两个子字段要么都填，要么都留空，不要只填一个。"#)@);
        },
        TemplateKind::Translate => {
            reveal_strlit(r#"你是一位英语老师，帮助母语为{{nativeLanguage}}的学习者把想说的话译成英文。

用户给的内容不是英文，这说明他想知道「这句话英语怎么说」。**不要解释这段话的意思，也不要逐字直译。**

`english` 给一个母语者真会说出口的版本：
- 按英语的表达习惯重组，该拆句就拆句、该换说法就换说法，不要迁就原文的语序和措辞习惯。
- 默认日常口语的语域；原文明显偏书面、正式或粗俗时，跟着原文的语气走。
- 只给一个版本，别的说法放 `alternatives`。

`wordChoice` 解释**为什么用这些词**，这是最重要的部分：挑 2 到 4 个真正体现选词功夫的地方（地道搭配、近义词取舍、原文没有直接对应词而改成意译的地方），说清为什么用它，而不是学习者最可能想到的那个直译词。人人都会的词不要罗列。

只输出一个 JSON 对象，不要输出任何解释性文字，不要包裹代码块。JSON 结构如下：

{
  "english": "最地道的英文说法",
  "wordChoice": [
    { "term": "译文里的词或短语，英文原文", "note": "用{{nativeLanguage}}说明为什么用它，一到两句；有对比就写明「不用 X 是因为……」" }
  ],
  "alternatives": [
    { "text": "另一种说法，完整的英文", "when": "用{{nativeLanguage}}说明它与上面那句的差别、什么场合用，一句话" }
  ]
}

alternatives 给 1 到 3 项，必须和 `english` 有实质差别（语域、语气、正式程度、句式），只换个同义词的不要给。
字段必须齐全。想不出的字段给空字符串或空数组，不要省略键。"#);
            assert(TRANSLATE_BODY@ == (r#"你是一位英语老师，帮助母语为{{nativeLanguage}}的学习者把想说的话译成英文。

用户给的内容不是英文，这说明他想知道「这句话英语怎么说」。**不要解释这段话的意思，也不要逐字直译。**

`english` 给一个母语者真会说出口的版本：
- 按英语的表达习惯重组，该拆句就拆句、该换说法就换说法，不要迁就原文的语序和措辞习惯。
- 默认日常口语的语域；原文明显偏书面、正式或粗俗时，跟着原文的语气走。
- 只给一个版本，别的说法放 `alternatives`。

`wordChoice` 解释**为什么用这些词**，这是最重要的部分：挑 2 到 4 个真正体现选词功夫的地方（地道搭配、近义词取舍、原文没有直接对应词而改成意译的地方），说清为什么用它，而不是学习者最可能想到的那个直译词。人人都会的词不要罗列。

只输出一个 JSON 对象，不要输出任何解释性文字，不要包裹代码块。JSON 结构如下：

{
  "english": "最地道的英文说法",
  "wordChoice": [
    { "term": "译文里的词或短语，英文原文", "note": "用{{nativeLanguage}}说明为什么用它，一到两句；有对比就写明「不用 X 是因为……」" }
  ],
  "alternatives": [
    { "text": "另一种说法，完整的英文", "when": "用{{nativeLanguage}}说明它与上面那句的差别、什么场合用，一句话" }
  ]
}

alternatives 给 1 到 3 项，必须和 `english` 有实质差别（语域、语气、正式程度、句式），只换个同义词的不要给。
字段必须齐全。想不出的字段给空字符串或空数组，不要省略键。"#)@);
        },
    }
    assert(body.len() > 0 && body[0] == '你');
    crate::text::lemma_not_blank_when_starts_clean(body);
}

/// The built-in templates that settings offer: one per selectable kind.
pub fn builtins() -> (ts: Vec<PromptTemplate>)
    ensures
        ts@.len() == 2,
        ts@[0]@ == builtin_view(TemplateKind::Explain),
        ts@[1]@ == builtin_view(TemplateKind::Chat),
{
    let mut ts: Vec<PromptTemplate> = Vec::new();
    let kinds = TemplateKind::SELECTABLE;
    let mut i: usize = 0;
    while i < 2
        invariant
            i <= 2,
            kinds@ == seq![TemplateKind::Explain, TemplateKind::Chat],
            ts@.len() == i,
            forall|j: int| 0 <= j < i ==> ts@[j]@ == builtin_view(kinds@[j]),
        decreases 2 - i,
    {
        ts.push(builtin(kinds[i]));
        i += 1;
    }
    ts
}

// ------------------------------------------------------------------ field contracts

/// Views of a list of field names.
pub open spec fn names_view(names: Seq<&'static str>) -> Seq<Seq<char>> {
    names.map_values(|s: &'static str| s@)
}

pub open spec fn word_fields_spec() -> Seq<Seq<char>> {
    seq!["word"@, "phonetic"@, "pos"@, "senseHere"@, "why"@, "collocations"@, "example"@]
}

pub open spec fn sentence_fields_spec() -> Seq<Seq<char>> {
    seq!["translation"@, "structure"@, "keyPoints"@]
}

pub open spec fn translate_fields_spec() -> Seq<Seq<char>> {
    seq!["english"@, "wordChoice"@, "alternatives"@]
}

/// Top-level JSON fields that the output of a template of `kind` must carry.
pub open spec fn required_fields_spec(kind: TemplateKind) -> Seq<Seq<char>> {
    match kind {
        TemplateKind::Explain => seq!["mode"@],
        TemplateKind::Word => word_fields_spec(),
        TemplateKind::Sentence => sentence_fields_spec(),
        TemplateKind::Translate => translate_fields_spec(),
        TemplateKind::Chat => Seq::empty(),
    }
}

pub fn word_fields() -> (r: &'static [&'static str])
    ensures
        names_view(r@) == word_fields_spec(),
{
    let r: &'static [&'static str] = &[
        "word",
        "phonetic",
        "pos",
        "senseHere",
        "why",
        "collocations",
        "example",
    ];
    assert(names_view(r@) =~= word_fields_spec());
    r
}

pub fn sentence_fields() -> (r: &'static [&'static str])
    ensures
        names_view(r@) == sentence_fields_spec(),
{
    let r: &'static [&'static str] = &["translation", "structure", "keyPoints"];
    assert(names_view(r@) =~= sentence_fields_spec());
    r
}

pub fn translate_fields() -> (r: &'static [&'static str])
    ensures
        names_view(r@) == translate_fields_spec(),
{
    let r: &'static [&'static str] = &["english", "wordChoice", "alternatives"];
    assert(names_view(r@) =~= translate_fields_spec());
    r
}

pub fn required_fields(kind: TemplateKind) -> (r: &'static [&'static str])
    ensures
        names_view(r@) == required_fields_spec(kind),
{
    match kind {
        TemplateKind::Explain => {
            let r: &'static [&'static str] = &["mode"];
            assert(names_view(r@) =~= required_fields_spec(kind));
            r
        },
        TemplateKind::Word => word_fields(),
        TemplateKind::Sentence => sentence_fields(),
        TemplateKind::Translate => translate_fields(),
        TemplateKind::Chat => {
            let r: &'static [&'static str] = &[];
            assert(names_view(r@) =~= required_fields_spec(kind));
            r
        },
    }
}

/// Fields of the JSON branch that an explanation in `mode` must carry.
pub open spec fn fields_for_mode_spec(mode: Seq<char>) -> Seq<Seq<char>> {
    if mode == "word"@ {
        word_fields_spec()
    } else if mode == "sentence"@ {
        sentence_fields_spec()
    } else if mode == "translate"@ {
        translate_fields_spec()
    } else {
        Seq::empty()
    }
}

pub fn fields_for_mode(mode: &str) -> (r: &'static [&'static str])
    ensures
        names_view(r@) == fields_for_mode_spec(mode@),
{
    if str_eq(mode, "word") {
        word_fields()
    } else if str_eq(mode, "sentence") {
        sentence_fields()
    } else if str_eq(mode, "translate") {
        translate_fields()
    } else {
        let r: &'static [&'static str] = &[];
        assert(names_view(r@) =~= Seq::<Seq<char>>::empty());
        r
    }
}

// ------------------------------------------------------------------ rendering

/// `body` with `{{nativeLanguage}}` and then `{{context}}` substituted; a
/// missing context becomes the empty string, unknown placeholders stay.
pub open spec fn render_spec(body: Seq<char>, native_language: Seq<char>, context: Seq<char>) -> Seq<
    char,
> {
    replace(
        replace(body, NATIVE_LANGUAGE_PLACEHOLDER@, native_language),
        CONTEXT_PLACEHOLDER@,
        context,
    )
}

/// The context as text: its characters, or nothing.
pub open spec fn context_text(context: Option<&str>) -> Seq<char> {
    match context {
        Some(c) => c@,
        None => Seq::empty(),
    }
}

pub fn render(body: &str, native_language: &str, context: Option<&str>) -> (r: String)
    ensures
        r@ == render_spec(body@, native_language@, context_text(context)),
{
    let b = chars_of(body);
    let p1 = chars_of(NATIVE_LANGUAGE_PLACEHOLDER);
    let lang = chars_of(native_language);
    let once = replace_exec(&b, &p1, &lang);
    let p2 = chars_of(CONTEXT_PLACEHOLDER);
    let ctx = match context {
        Some(c) => chars_of(c),
        None => Vec::new(),
    };
    assert(ctx@ == context_text(context));
    let twice = replace_exec(&once, &p2, &ctx);
    string_of(&twice)
}

/// A body that mentions neither placeholder renders to itself, so a
/// misspelled variable stays visible in the prompt.
pub proof fn lemma_render_keeps_unknown_placeholders(
    body: Seq<char>,
    native_language: Seq<char>,
    context: Seq<char>,
)
    requires
        !contains(body, NATIVE_LANGUAGE_PLACEHOLDER@),
        !contains(body, CONTEXT_PLACEHOLDER@),
    ensures
        render_spec(body, native_language, context) == body,
{
    lemma_replace_absent(body, NATIVE_LANGUAGE_PLACEHOLDER@, native_language);
    lemma_replace_absent(body, CONTEXT_PLACEHOLDER@, context);
}

// ------------------------------------------------------------------ variables

/// `{{`
pub open spec fn open_braces() -> Seq<char> {
    seq!['{', '{']
}

/// `}}`
pub open spec fn close_braces() -> Seq<char> {
    seq!['}', '}']
}

/// `name` wrapped in double braces, as it appears in a body.
pub open spec fn braced(name: Seq<char>) -> Seq<char> {
    open_braces() + name + close_braces()
}

/// Scans `body` from index `i` for `{{ name }}` pairs and adds each new,
/// non-empty, trimmed name to `found`, in order of first appearance. An
/// unclosed `{{` ends the scan.
pub open spec fn scan_vars(body: Seq<char>, i: int, found: Seq<Seq<char>>) -> Seq<Seq<char>>
    decreases body.len() - i,
{
    if i < 0 {
        found
    } else {
        match find_from(body, open_braces(), i) {
            None => found,
            Some(start) => match find_from(body, close_braces(), start + 2) {
                None => found,
                Some(end) => {
                    proof {
                        lemma_find_from_facts(body, open_braces(), i);
                        lemma_find_from_facts(body, close_braces(), start + 2);
                    }
                    let name = trim(body.subrange(start + 2, end));
                    let next = if name.len() > 0 && !found.contains(name) {
                        found.push(name)
                    } else {
                        found
                    };
                    scan_vars(body, end + 2, next)
                },
            },
        }
    }
}

/// The placeholder names used in `body`, in order of first appearance,
/// without duplicates.
pub open spec fn variables_used_spec(body: Seq<char>) -> Seq<Seq<char>> {
    scan_vars(body, 0, Seq::empty())
}

/// Views of a list of strings.
pub open spec fn strings_view(v: Seq<String>) -> Seq<Seq<char>> {
    v.map_values(|s: String| s@)
}

/// Whether some string in `v` holds the same characters as `name`.
fn contains_string(v: &Vec<String>, name: &String) -> (r: bool)
    ensures
        r == strings_view(v@).contains(name@),
{
    let mut k: usize = 0;
    while k < v.len()
        invariant
            k <= v.len(),
            forall|j: int| 0 <= j < k ==> v@[j]@ != name@,
        decreases v.len() - k,
    {
        if v[k] == *name {
            assert(strings_view(v@)[k as int] == name@);
            return true;
        }
        k += 1;
    }
    assert(!strings_view(v@).contains(name@)) by {
        if strings_view(v@).contains(name@) {
            let j = choose|j: int| 0 <= j < v@.len() && strings_view(v@)[j] == name@;
            assert(v@[j]@ == name@);
        }
    }
    false
}

pub fn variables_used(body: &str) -> (r: Vec<String>)
    ensures
        strings_view(r@) == variables_used_spec(body@),
{
    let v = chars_of(body);
    let open: Vec<char> = vec!['{', '{'];
    let close: Vec<char> = vec!['}', '}'];
    assert(open@ =~= open_braces());
    assert(close@ =~= close_braces());
    let mut found: Vec<String> = Vec::new();
    let mut i: usize = 0;
    assert(strings_view(found@) =~= Seq::<Seq<char>>::empty());
    loop
        invariant
            i <= v.len(),
            v@ == body@,
            open@ == open_braces(),
            close@ == close_braces(),
            scan_vars(v@, 0, Seq::empty()) == scan_vars(v@, i as int, strings_view(found@)),
        decreases v.len() - i,
    {
        let start = match find_from_exec(&v, &open, i) {
            None => {
                return found;
            },
            Some(s) => s,
        };
        proof {
            lemma_find_from_facts(v@, open@, i as int);
        }
        let end = match find_from_exec(&v, &close, start + 2) {
            None => {
                return found;
            },
            Some(e) => e,
        };
        proof {
            lemma_find_from_facts(v@, close@, start + 2);
        }
        let (lo, hi) = trim_bounds(&v, start + 2, end);
        let mut name = String::new();
        push_range(&mut name, &v, lo, hi);
        let ghost old_found = strings_view(found@);
        if lo < hi && !contains_string(&found, &name) {
            found.push(name);
            assert(strings_view(found@) =~= old_found.push(v@.subrange(lo as int, hi as int)));
        }
        i = end + 2;
    }
}

/// The names reported for a body are distinct, non-empty and trimmed.
pub proof fn lemma_variables_distinct(body: Seq<char>, i: int, found: Seq<Seq<char>>)
    requires
        found.no_duplicates(),
        forall|k: int| 0 <= k < found.len() ==> #[trigger] found[k].len() > 0 && trim(found[k]) == found[k],
    ensures
        scan_vars(body, i, found).no_duplicates(),
        forall|k: int|
            0 <= k < scan_vars(body, i, found).len() ==> #[trigger] scan_vars(body, i, found)[k].len() > 0
                && trim(scan_vars(body, i, found)[k]) == scan_vars(body, i, found)[k],
    decreases body.len() - i,
{
    if i >= 0 {
        match find_from(body, open_braces(), i) {
            None => {},
            Some(start) => match find_from(body, close_braces(), start + 2) {
                None => {},
                Some(end) => {
                    lemma_find_from_facts(body, open_braces(), i);
                    lemma_find_from_facts(body, close_braces(), start + 2);
                    let name = trim(body.subrange(start + 2, end));
                    lemma_trim_idempotent(body.subrange(start + 2, end));
                    if name.len() > 0 && !found.contains(name) {
                        let next = found.push(name);
                        assert forall|a: int, b: int| 0 <= a < b < next.len() implies next[a] != next[b] by {
                            if b == found.len() {
                                assert(found.contains(found[a]));
                            }
                        }
                        lemma_variables_distinct(body, end + 2, next);
                    } else {
                        lemma_variables_distinct(body, end + 2, found);
                    }
                },
            },
        }
    }
}

pub proof fn lemma_variables_used_distinct(body: Seq<char>)
    ensures
        variables_used_spec(body).no_duplicates(),
{
    lemma_variables_distinct(body, 0, Seq::empty());
}

// ------------------------------------------------------------------ field mentions

/// `"field"`
pub open spec fn quoted(field: Seq<char>) -> Seq<char> {
    seq!['"'] + field + seq!['"']
}

/// `` `field` ``
pub open spec fn backticked(field: Seq<char>) -> Seq<char> {
    seq!['`'] + field + seq!['`']
}

/// The first non-whitespace character from index `k` on is a colon.
pub open spec fn colon_follows(body: Seq<char>, k: int) -> bool {
    let rest = trim_start(body.skip(k));
    rest.len() > 0 && rest[0] == ':'
}

/// Scanning the non-overlapping occurrences of `key` in `body` from index
/// `i` on, left to right, some occurrence is followed by a colon.
pub open spec fn key_from(body: Seq<char>, key: Seq<char>, i: int) -> bool
    decreases body.len() - i,
{
    if key.len() == 0 || i < 0 || i + key.len() > body.len() {
        false
    } else if matches_at(body, key, i) {
        colon_follows(body, i + key.len()) || key_from(body, key, i + key.len())
    } else {
        key_from(body, key, i + 1)
    }
}

/// `body` names `field` as a JSON key (`"field"` followed by a colon) or in
/// backticks.
pub open spec fn mentions_field_spec(body: Seq<char>, field: Seq<char>) -> bool {
    key_from(body, quoted(field), 0) || contains(body, backticked(field))
}

pub fn mentions_field(body: &str, field: &str) -> (r: bool)
    ensures
        r == mentions_field_spec(body@, field@),
{
    let b = chars_of(body);
    let f = chars_of(field);
    let mut q: Vec<char> = Vec::new();
    q.push('"');
    let mut k: usize = 0;
    while k < f.len()
        invariant
            k <= f.len(),
            q@ == seq!['"'] + f@.take(k as int),
        decreases f.len() - k,
    {
        q.push(f[k]);
        assert(f@.take(k + 1) =~= f@.take(k as int).push(f@[k as int]));
        k += 1;
    }
    q.push('"');
    assert(f@.take(f.len() as int) =~= f@);
    assert(q@ =~= quoted(field@));
    let mut t: Vec<char> = Vec::new();
    t.push('`');
    let mut k: usize = 0;
    while k < f.len()
        invariant
            k <= f.len(),
            t@ == seq!['`'] + f@.take(k as int),
        decreases f.len() - k,
    {
        t.push(f[k]);
        assert(f@.take(k + 1) =~= f@.take(k as int).push(f@[k as int]));
        k += 1;
    }
    t.push('`');
    assert(t@ =~= backticked(field@));
    let mut i: usize = 0;
    let mut keyed = false;
    while i <= b.len() && q.len() <= b.len() - i
        invariant_except_break
            key_from(b@, q@, 0) == key_from(b@, q@, i as int),
            !keyed,
        invariant
            b@ == body@,
            q@ == quoted(field@),
            q.len() >= 2,
            i <= b.len() + 1,
        ensures
            keyed == key_from(b@, q@, 0),
        decreases b.len() + 1 - i,
    {
        if matches_at_exec(&b, &q, i) {
            let after = skip_ws(&b, i + q.len());
            if after < b.len() && b[after] == ':' {
                assert(b@.skip(after as int)[0] == b@[after as int]);
                assert(colon_follows(b@, i + q@.len()));
                keyed = true;
                break;
            }
            proof {
                if after < b.len() {
                    assert(b@.skip(after as int)[0] == b@[after as int]);
                }
            }
            i = i + q.len();
        } else {
            i = i + 1;
        }
    }
    keyed || contains_exec(&b, &t)
}

// ------------------------------------------------------------------ static check

/// An issue found by the static check.
#[derive(Clone, Debug)]
pub struct TemplateIssue {
    /// `"error"` makes the template unusable, `"warn"` is only a reminder.
    pub level: String,
    pub message: String,
}

/// An issue as a mathematical value.
pub struct IssueView {
    pub level: Seq<char>,
    pub message: Seq<char>,
}

impl View for TemplateIssue {
    type V = IssueView;

    open spec fn view(&self) -> IssueView {
        IssueView { level: self.level@, message: self.message@ }
    }
}

pub open spec fn error_issue(message: Seq<char>) -> IssueView {
    IssueView { level: "error"@, message }
}

pub open spec fn warn_issue(message: Seq<char>) -> IssueView {
    IssueView { level: "warn"@, message }
}

impl TemplateIssue {
    fn error(message: String) -> (r: TemplateIssue)
        ensures
            r@ == error_issue(message@),
    {
        TemplateIssue { level: owned("error"), message }
    }

    fn warn(message: String) -> (r: TemplateIssue)
        ensures
            r@ == warn_issue(message@),
    {
        TemplateIssue { level: owned("warn"), message }
    }
}

/// Views of a list of issues.
pub open spec fn issues_view(v: Seq<TemplateIssue>) -> Seq<IssueView> {
    v.map_values(|i: TemplateIssue| i@)
}

/// One of the placeholders in `VARIABLES`.
pub open spec fn is_known_variable(name: Seq<char>) -> bool {
    name == VARIABLES[0]@ || name == VARIABLES[1]@
}

/// The names in `names` that are not known placeholders, in order.
pub open spec fn unknown_names(names: Seq<Seq<char>>) -> Seq<Seq<char>>
    decreases names.len(),
{
    if names.len() == 0 {
        Seq::empty()
    } else if is_known_variable(names.last()) {
        unknown_names(names.drop_last())
    } else {
        unknown_names(names.drop_last()).push(names.last())
    }
}

/// The fields in `fields` that `body` does not mention, in order.
pub open spec fn missing_fields(fields: Seq<Seq<char>>, body: Seq<char>) -> Seq<Seq<char>>
    decreases fields.len(),
{
    if fields.len() == 0 {
        Seq::empty()
    } else if mentions_field_spec(body, fields.last()) {
        missing_fields(fields.drop_last(), body)
    } else {
        missing_fields(fields.drop_last(), body).push(fields.last())
    }
}

/// Fields a body of `kind` must mention. The unified template must mention
/// the fields of every branch, both `grammar` subfields included.
pub open spec fn checked_fields(kind: TemplateKind) -> Seq<Seq<char>> {
    if kind == TemplateKind::Explain {
        required_fields_spec(kind) + seq!["grammar"@, "issue"@, "corrected"@] + word_fields_spec()
            + sentence_fields_spec() + translate_fields_spec()
    } else {
        required_fields_spec(kind)
    }
}

/// `{{nativeLanguage}}、{{context}}`
pub open spec fn variables_listing() -> Seq<char> {
    braced(VARIABLES[0]@) + "、"@ + braced(VARIABLES[1]@)
}

pub open spec fn empty_body_message() -> Seq<char> {
    "模板正文为空"@
}

pub open spec fn unknown_message(unknown: Seq<Seq<char>>) -> Seq<char> {
    "未知变量："@ + join(unknown, "、"@) + "。可用的只有 "@ + variables_listing()
}

pub open spec fn missing_message(missing: Seq<Seq<char>>) -> Seq<char> {
    "正文里没有提到这些必需字段："@ + join(missing, "、"@) + "。缺了它们，释义卡片会渲染不出对应部分"@
}

pub open spec fn long_message() -> Seq<char> {
    "正文超过 "@ + decimal(LONG_BODY_CHARS as nat) + " 字。约束越多，模型越容易忽略 JSON 格式要求，建议精简"@
}

/// The issues the static check reports for `body` as a template of `kind`:
/// an empty body is the one error; otherwise unknown variables, missing
/// fields (both errors) and excessive length (a warning), in that order.
pub open spec fn check_spec(kind: TemplateKind, body: Seq<char>) -> Seq<IssueView> {
    if is_blank(body) {
        seq![error_issue(empty_body_message())]
    } else {
        let unknown = unknown_names(variables_used_spec(body));
        let missing = missing_fields(checked_fields(kind), body);
        let first = if unknown.len() > 0 {
            seq![error_issue(unknown_message(unknown))]
        } else {
            Seq::empty()
        };
        let second = if missing.len() > 0 {
            seq![error_issue(missing_message(missing))]
        } else {
            Seq::empty()
        };
        let third = if body.len() > LONG_BODY_CHARS {
            seq![warn_issue(long_message())]
        } else {
            Seq::empty()
        };
        first + second + third
    }
}

/// Every field that a unified explanation may answer with: the mode, the
/// grammar note and its two parts, and the fields of the word, sentence and
/// translate branches.
pub open spec fn unified_contract_fields() -> Seq<Seq<char>> {
    seq![
        "mode"@, "grammar"@, "issue"@, "corrected"@,
        "word"@, "phonetic"@, "pos"@, "senseHere"@, "why"@, "collocations"@, "example"@,
        "translation"@, "structure"@, "keyPoints"@,
        "english"@, "wordChoice"@, "alternatives"@,
    ]
}

proof fn lemma_missing_fields_complete(fields: Seq<Seq<char>>, body: Seq<char>, f: Seq<char>)
    requires
        fields.contains(f),
        !mentions_field_spec(body, f),
    ensures
        missing_fields(fields, body).contains(f),
    decreases fields.len(),
{
    if fields.last() == f {
        assert(missing_fields(fields, body).last() == f);
    } else {
        let k = choose|k: int| 0 <= k < fields.len() && fields[k] == f;
        assert(fields.drop_last()[k] == f);
        lemma_missing_fields_complete(fields.drop_last(), body, f);
        let m = missing_fields(fields.drop_last(), body);
        let j = choose|j: int| 0 <= j < m.len() && m[j] == f;
        if !mentions_field_spec(body, fields.last()) {
            assert(m.push(fields.last())[j] == f);
        }
    }
}

proof fn lemma_missing_fields_unmentioned(fields: Seq<Seq<char>>, body: Seq<char>)
    ensures
        forall|j: int|
            0 <= j < missing_fields(fields, body).len() ==> !mentions_field_spec(
                body,
                #[trigger] missing_fields(fields, body)[j],
            ),
    decreases fields.len(),
{
    if fields.len() > 0 {
        lemma_missing_fields_unmentioned(fields.drop_last(), body);
        let m = missing_fields(fields.drop_last(), body);
        assert forall|j: int| 0 <= j < missing_fields(fields, body).len() implies !mentions_field_spec(
            body,
            #[trigger] missing_fields(fields, body)[j],
        ) by {
            if j < m.len() {
                assert(missing_fields(fields, body)[j] == m[j]);
            }
        }
    }
}

/// The static check holds a unified explanation template to every branch:
/// for a body that is not blank, each field of [`unified_contract_fields`]
/// that the body does not mention is named in a missing-fields error, and
/// such an error never names a field that the body mentions.
pub proof fn lemma_explain_check_names_every_missing_field(body: Seq<char>, f: Seq<char>)
    requires
        !is_blank(body),
    ensures
        unified_contract_fields().contains(f) && !mentions_field_spec(body, f) ==> exists|
            missing: Seq<Seq<char>>,
        |
            #![trigger missing_message(missing)]
            missing.contains(f) && check_spec(TemplateKind::Explain, body).contains(
                error_issue(missing_message(missing)),
            ),
        forall|j: int|
            0 <= j < missing_fields(checked_fields(TemplateKind::Explain), body).len()
                ==> !mentions_field_spec(
                body,
                #[trigger] missing_fields(checked_fields(TemplateKind::Explain), body)[j],
            ),
{
    let fields = checked_fields(TemplateKind::Explain);
    lemma_missing_fields_unmentioned(fields, body);
    if unified_contract_fields().contains(f) && !mentions_field_spec(body, f) {
        assert(fields =~= unified_contract_fields());
        lemma_missing_fields_complete(fields, body, f);
        let missing = missing_fields(fields, body);
        let issues = check_spec(TemplateKind::Explain, body);
        let unknown = unknown_names(variables_used_spec(body));
        let first = if unknown.len() > 0 {
            seq![error_issue(unknown_message(unknown))]
        } else {
            Seq::empty()
        };
        assert(issues[first.len() as int] == error_issue(missing_message(missing)));
        assert(issues.contains(error_issue(missing_message(missing))));
    }
}

/// A chat template is held to no field contract: its static check never
/// reports missing fields, and a chat body that is not blank, uses only known
/// variables and is not overly long passes without any issue.
pub proof fn lemma_chat_has_no_field_contract(body: Seq<char>)
    ensures
        missing_fields(checked_fields(TemplateKind::Chat), body) == Seq::<Seq<char>>::empty(),
        !is_blank(body) && unknown_names(variables_used_spec(body)).len() == 0 && body.len()
            <= LONG_BODY_CHARS ==> check_spec(TemplateKind::Chat, body) == Seq::<IssueView>::empty(),
{
    assert(checked_fields(TemplateKind::Chat) =~= Seq::<Seq<char>>::empty());
    assert(missing_fields(checked_fields(TemplateKind::Chat), body) =~= Seq::<Seq<char>>::empty());
    if !is_blank(body) && unknown_names(variables_used_spec(body)).len() == 0 && body.len()
        <= LONG_BODY_CHARS {
        assert(check_spec(TemplateKind::Chat, body) =~= Seq::<IssueView>::empty());
    }
}

/// Appends the items of `items` separated by `sep`.
pub fn push_joined(s: &mut String, items: &Vec<String>, sep: &str)
    ensures
        final(s)@ == old(s)@ + join(strings_view(items@), sep@),
{
    let ghost names = strings_view(items@);
    let mut k: usize = 0;
    assert(names.take(0) =~= Seq::<Seq<char>>::empty());
    while k < items.len()
        invariant
            k <= items.len(),
            names == strings_view(items@),
            s@ == old(s)@ + join(names.take(k as int), sep@),
        decreases items.len() - k,
    {
        let ghost before = s@;
        if k > 0 {
            push_str(s, sep);
        }
        push_str(s, items[k].as_str());
        assert(names.take(k + 1).drop_last() =~= names.take(k as int));
        if k == 0 {
            assert(join(names.take(1), sep@) == names[0]);
        }
        k += 1;
    }
    assert(names.take(items.len() as int) =~= names);
}

fn is_known_variable_exec(name: &String) -> (r: bool)
    ensures
        r == is_known_variable(name@),
{
    str_eq(name.as_str(), VARIABLES[0]) || str_eq(name.as_str(), VARIABLES[1])
}

/// Appends the names of `names` to `v`.
fn extend_names(v: &mut Vec<&'static str>, names: &'static [&'static str])
    ensures
        names_view(final(v)@) == names_view(old(v)@) + names_view(names@),
{
    let mut k: usize = 0;
    while k < names.len()
        invariant
            k <= names.len(),
            names_view(v@) == names_view(old(v)@) + names_view(names@).take(k as int),
        decreases names.len() - k,
    {
        let ghost prev = v@;
        v.push(names[k]);
        assert(v@ == prev.push(names@[k as int]));
        assert(names_view(v@) =~= names_view(prev).push(names@[k as int]@));
        assert(names_view(names@).take(k + 1) =~= names_view(names@).take(k as int).push(
            names@[k as int]@,
        ));
        assert(names_view(v@) =~= names_view(old(v)@) + names_view(names@).take(k + 1));
        k += 1;
    }
    assert(names_view(names@).take(names.len() as int) =~= names_view(names@));
}

/// Static check: local, free and instant. It catches misspelled variables and
/// missing field names; whether the model obeys takes a real request.
pub fn check(kind: TemplateKind, body: &str) -> (issues: Vec<TemplateIssue>)
    ensures
        issues_view(issues@) == check_spec(kind, body@),
{
    let mut issues: Vec<TemplateIssue> = Vec::new();
    if is_blank_exec(body) {
        issues.push(TemplateIssue::error(owned("模板正文为空")));
        assert(issues_view(issues@) =~= check_spec(kind, body@));
        return issues;
    }
    // Unknown variables.

    let used = variables_used(body);
    let mut unknown: Vec<String> = Vec::new();
    let mut k: usize = 0;
    while k < used.len()
        invariant
            k <= used.len(),
            strings_view(used@) == variables_used_spec(body@),
            strings_view(unknown@) == unknown_names(strings_view(used@).take(k as int)),
        decreases used.len() - k,
    {
        assert(strings_view(used@).take(k + 1).drop_last() =~= strings_view(used@).take(k as int));
        if !is_known_variable_exec(&used[k]) {
            let ghost before = strings_view(unknown@);
            unknown.push(used[k].clone());
            assert(strings_view(unknown@) =~= before.push(used@[k as int]@));
        }
        k += 1;
    }
    assert(strings_view(used@).take(used.len() as int) =~= strings_view(used@));
    if unknown.len() > 0 {
        let mut msg = owned("未知变量：");
        push_joined(&mut msg, &unknown, "、");
        push_str(&mut msg, "。可用的只有 ");
        push_char(&mut msg, '{');
        push_char(&mut msg, '{');
        push_str(&mut msg, VARIABLES[0]);
        push_char(&mut msg, '}');
        push_char(&mut msg, '}');
        push_str(&mut msg, "、");
        push_char(&mut msg, '{');
        push_char(&mut msg, '{');
        push_str(&mut msg, VARIABLES[1]);
        push_char(&mut msg, '}');
        push_char(&mut msg, '}');
        assert(msg@ =~= unknown_message(strings_view(unknown@)));
        issues.push(TemplateIssue::error(msg));
    }
    let ghost after_unknown = issues_view(issues@);
    // Missing fields.

    let mut required: Vec<&'static str> = Vec::new();
    extend_names(&mut required, required_fields(kind));
    if kind == TemplateKind::Explain {
        extend_names(&mut required, &["grammar", "issue", "corrected"]);
        extend_names(&mut required, word_fields());
        extend_names(&mut required, sentence_fields());
        extend_names(&mut required, translate_fields());
    }
    assert(names_view(required@) =~= checked_fields(kind));
    let mut missing: Vec<String> = Vec::new();
    let mut k: usize = 0;
    while k < required.len()
        invariant
            k <= required.len(),
            names_view(required@) == checked_fields(kind),
            strings_view(missing@) == missing_fields(names_view(required@).take(k as int), body@),
        decreases required.len() - k,
    {
        assert(names_view(required@).take(k + 1).drop_last() =~= names_view(required@).take(
            k as int,
        ));
        if !mentions_field(body, required[k]) {
            let ghost before = strings_view(missing@);
            missing.push(owned(required[k]));
            assert(strings_view(missing@) =~= before.push(required@[k as int]@));
        }
        k += 1;
    }
    assert(names_view(required@).take(required.len() as int) =~= names_view(required@));
    if missing.len() > 0 {
        let mut msg = owned("正文里没有提到这些必需字段：");
        push_joined(&mut msg, &missing, "、");
        push_str(&mut msg, "。缺了它们，释义卡片会渲染不出对应部分");
        issues.push(TemplateIssue::error(msg));
    }
    let ghost after_missing = issues_view(issues@);
    // Length.

    let chars = chars_of(body);
    if chars.len() > LONG_BODY_CHARS {
        let mut msg = owned("正文超过 ");
        let mut digits: Vec<char> = Vec::new();
        push_decimal(&mut digits, LONG_BODY_CHARS as u64);
        push_range(&mut msg, &digits, 0, digits.len());
        assert(digits@.subrange(0, digits@.len() as int) =~= digits@);
        push_str(&mut msg, " 字。约束越多，模型越容易忽略 JSON 格式要求，建议精简");
        issues.push(TemplateIssue::warn(msg));
    }
    assert(issues_view(issues@) =~= check_spec(kind, body@));
    issues
}

pub const EXPLAIN_BODY: &'static str = r#"你是一位英语老师，帮助母语为{{nativeLanguage}}的学习者理解或表达语言。

用户会给出一段选中的内容，并可能附带所在原句。先根据语言结构和用户实际意图判断模式，**不要按词数、字符数或是否有句末标点硬判**：
- `word`：英文单词、固定搭配或名词短语，用户想知道它在语境中的意思。
- `sentence`：英文完整话语、分句或可独立理解的表达；短问句、口语、省略句、缺标点或有拼写错误时仍可属于句子。
- `translate`：内容主要不是英文，用户想知道地道英文怎么说。

只输出一个 JSON 对象，不要输出解释性文字，不要包裹代码块。`mode` 必须是第一个字段，值只能是 `word`、`sentence`、`translate`。判断后只输出对应分支的字段，**不要补另外两个分支的键**。

`word` 分支：结合所在原句解释此处义项；没有原句时给最常见义项。先检查选中内容的拼写、词形或搭配，有错写进 `grammar`，无错两项给空字符串。
{
  "mode": "word",
  "grammar": { "issue": "用{{nativeLanguage}}说明错误；无错留空", "corrected": "改正后的英文；无错留空" },
  "word": "词条原形",
  "phonetic": "IPA 音标，不确定留空",
  "pos": "词性缩写",
  "senseHere": "用{{nativeLanguage}}给出此处含义，一句话",
  "why": "用{{nativeLanguage}}说明语感或为什么在此处是这个意思",
  "collocations": ["常见英文搭配，2 到 4 个"],
  "example": { "en": "地道英文例句", "zh": "{{nativeLanguage}}翻译" }
}

`sentence` 分支：解释整段内容，**不许只挑其中一个单词讲**。先检查拼写和语法；有错给出改正后的完整表达，后续仍讲用户原文。
{
  "mode": "sentence",
  "grammar": { "issue": "用{{nativeLanguage}}说明错误；无错留空", "corrected": "改正后的完整英文；无错留空" },
  "translation": "完整、自然的{{nativeLanguage}}翻译",
  "structure": "用{{nativeLanguage}}说明句子结构或关键语法，一到两句",
  "keyPoints": [{ "term": "真正影响理解的原文词或短语", "note": "用{{nativeLanguage}}解释此处用法" }]
}
`keyPoints` 给 1 到 4 项；没有难点可给空数组。

`translate` 分支：给一个母语者会自然说出口的英文版本，不要逐字直译。默认日常口语，原文明显正式或粗俗时跟随语气。`wordChoice` 解释地道搭配、近义词取舍或意译理由。
{
  "mode": "translate",
  "english": "最地道的英文说法",
  "wordChoice": [{ "term": "译文里的词或短语", "note": "用{{nativeLanguage}}说明为什么这样选词" }],
  "alternatives": [{ "text": "实质不同的另一种完整说法", "when": "用{{nativeLanguage}}说明语气或场合差别" }]
}

对应分支的字段必须齐全。无法判断的字符串给空字符串，列表给空数组，不要省略该分支的键。"#;

pub const WORD_BODY: &'static str = r#"你是一位英语老师，帮助母语为{{nativeLanguage}}的学习者理解英文词汇。

用户会给出选中的词。如果同时给出了它所在的原句，你必须解释**这个词在该句中的具体含义**，而不是罗列全部义项，`why` 字段说明为什么在此处是这个意思；如果没有给出原句，给出最常见的义项，`why` 字段简述该词的核心语感或最典型的使用场景。

解释之前先检查选中内容本身有没有拼写或语法错误（拼错、词形不对、搭配错、多余或缺失的成分等）。有错就在 `grammar` 里指出错在哪、给出改正后的写法。**不许默默按改正后的内容解释而不吭声**——其余字段可以按正确写法讲，但错误必须先在 `grammar` 里点出来。选中内容没有错误时，`grammar` 的两项都给空字符串。

只输出一个 JSON 对象，不要输出任何解释性文字，不要包裹代码块。JSON 结构如下：

{
  "grammar": {
    "issue": "用{{nativeLanguage}}说明选中内容的拼写或语法错误，一到两句；没有错误则给空字符串",
    "corrected": "改正后的英文写法；没有错误则给空字符串"
  },
  "word": "词条原形",
  "phonetic": "IPA 音标，不确定则留空字符串",
  "pos": "词性缩写，如 v. / n. / adj. / phr.",
  "senseHere": "用{{nativeLanguage}}给出此处含义，一句话，不超过 40 字",
  "why": "用{{nativeLanguage}}说明理由或语感，一到两句",
  "collocations": ["常见搭配，2 到 4 个，英文原文"],
  "example": { "en": "一个地道英文例句", "zh": "该例句的{{nativeLanguage}}翻译" }
}

字段必须齐全。无法判断的字段给空字符串或空数组，不要省略键。grammar 的两个子字段要么都填，要么都留空，不要只填一个。"#;

pub const SENTENCE_BODY: &'static str = r#"你是一位英语老师，帮助母语为{{nativeLanguage}}的学习者读懂英文句子。

用户选中的是一整句或一个较长的片段。**不要只挑其中一个单词来解释**，要先给出整句的意思，再点出真正影响理解的地方。

解释之前先检查这句英文本身有没有语法错误（时态、单复数、冠词、主谓一致、介词搭配、语序等）。有错就在 `grammar` 里指出错在哪、给出改正后的完整句子，后面的翻译和讲解仍然针对**用户给的原句**，不要换成改正后的句子。只是措辞不地道、但语法正确的，不算错误，`grammar` 留空。

只输出一个 JSON 对象，不要输出任何解释性文字，不要包裹代码块。JSON 结构如下：

{
  "grammar": {
    "issue": "用{{nativeLanguage}}说明句子的语法错误，一到两句；句子没有语法错误则给空字符串",
    "corrected": "改正后的完整英文句子；句子没有语法错误则给空字符串"
  },
  "translation": "整句的{{nativeLanguage}}翻译。通顺自然，不要逐词直译",
  "structure": "用{{nativeLanguage}}说明句子结构或语法要点，一到两句",
  "keyPoints": [
    { "term": "句中值得注意的词或短语，英文原文", "note": "用{{nativeLanguage}}解释它在此处的含义或用法" }
  ]
}

keyPoints 给 2 到 4 项，挑真正影响理解的难点，简单词不要罗列。
字段必须齐全。无法判断的字段给空字符串或空数组，不要省略键。grammar 的两个子字段要么都填，要么都留空，不要只填一个。"#;

pub const TRANSLATE_BODY: &'static str = r#"你是一位英语老师，帮助母语为{{nativeLanguage}}的学习者把想说的话译成英文。

用户给的内容不是英文，这说明他想知道「这句话英语怎么说」。**不要解释这段话的意思，也不要逐字直译。**

`english` 给一个母语者真会说出口的版本：
- 按英语的表达习惯重组，该拆句就拆句、该换说法就换说法，不要迁就原文的语序和措辞习惯。
- 默认日常口语的语域；原文明显偏书面、正式或粗俗时，跟着原文的语气走。
- 只给一个版本，别的说法放 `alternatives`。

`wordChoice` 解释**为什么用这些词**，这是最重要的部分：挑 2 到 4 个真正体现选词功夫的地方（地道搭配、近义词取舍、原文没有直接对应词而改成意译的地方），说清为什么用它，而不是学习者最可能想到的那个直译词。人人都会的词不要罗列。

只输出一个 JSON 对象，不要输出任何解释性文字，不要包裹代码块。JSON 结构如下：

{
  "english": "最地道的英文说法",
  "wordChoice": [
    { "term": "译文里的词或短语，英文原文", "note": "用{{nativeLanguage}}说明为什么用它，一到两句；有对比就写明「不用 X 是因为……」" }
  ],
  "alternatives": [
    { "text": "另一种说法，完整的英文", "when": "用{{nativeLanguage}}说明它与上面那句的差别、什么场合用，一句话" }
  ]
}

alternatives 给 1 到 3 项，必须和 `english` 有实质差别（语域、语气、正式程度、句式），只换个同义词的不要给。
字段必须齐全。想不出的字段给空字符串或空数组，不要省略键。"#;

pub const CHAT_BODY: &'static str = r#"你是一位英语老师，正在和一位母语为{{nativeLanguage}}的学习者讨论他刚查询的内容。

规则：
- 用{{nativeLanguage}}讲解，英文例句保留英文原文。
- 简洁。默认三句话以内说清，用户要求展开时才展开。
- 举例优先于抽象定义。讲用法差异时给对比例句。
- 不确定的语料不要编造，直说不确定。
- 可以用 Markdown，但不要用大标题，最多用列表和加粗。"#;

} // verus!
