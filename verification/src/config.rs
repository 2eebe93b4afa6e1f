//! Settings: model providers, role bindings, template selection, and the
//! cleanup applied before the settings are written to disk.
use vstd::prelude::*;

use crate::templates::{
    builtin, builtin_view, is_builtin_id, is_builtin_id_exec, PromptTemplate, TemplateKind,
    TemplateView,
};
use crate::text::{is_blank, is_blank_exec, owned, str_eq};

verus! {

pub const APP_DIR_NAME: &'static str = "Glossa";

pub const SETTINGS_FILE: &'static str = "settings.json";

/// Data directory name used before the app was renamed.
pub const LEGACY_APP_DIR_NAME: &'static str = "EnAssistant";

/// Whether the data directory of the former name is renamed to the current
/// one at start-up: only when it exists and the current one does not. When
/// both exist the new version has already written data, so the old
/// directory is left alone.
pub fn should_migrate_legacy_dir(legacy_exists: bool, current_exists: bool) -> (b: bool)
    ensures
        b == (legacy_exists && !current_exists),
{
    legacy_exists && !current_exists
}

pub const DEFAULT_PORT: u16 = 8765;

/// Limits below this are treated as unset: a cleared input box or a stray
/// zero must not starve an explanation of its output budget.
pub const MIN_MAX_TOKENS: u32 = 256;

/// Wire protocol of a model provider.
#[derive(Clone, Copy, Debug, PartialEq, Eq, Structural)]
pub enum Protocol {
    Openai,
    Anthropic,
}

/// A model endpoint the user configured.
#[derive(Clone, Debug)]
pub struct Provider {
    pub id: String,
    pub name: String,
    pub protocol: Protocol,
    /// For example `https://api.openai.com/v1` or `https://api.anthropic.com`;
    /// with or without the trailing `/v1`.
    pub base_url: String,
    pub api_key: String,
    /// Output token limit of this endpoint; `None` means the built-in default.
    pub max_tokens: Option<u32>,
}

pub struct ProviderView {
    pub id: Seq<char>,
    pub name: Seq<char>,
    pub protocol: Protocol,
    pub base_url: Seq<char>,
    pub api_key: Seq<char>,
    pub max_tokens: Option<u32>,
}

impl View for Provider {
    type V = ProviderView;

    open spec fn view(&self) -> ProviderView {
        ProviderView {
            id: self.id@,
            name: self.name@,
            protocol: self.protocol,
            base_url: self.base_url@,
            api_key: self.api_key@,
            max_tokens: self.max_tokens,
        }
    }
}

/// A configured limit if it is usable, `None` otherwise.
pub open spec fn normalized_max_tokens(limit: Option<u32>) -> Option<u32> {
    match limit {
        Some(v) => if v >= MIN_MAX_TOKENS {
            Some(v)
        } else {
            None
        },
        None => None,
    }
}

/// The output limit in force: the configured one if usable, else `default`.
pub open spec fn effective_max_tokens(limit: Option<u32>, default: u32) -> u32 {
    match normalized_max_tokens(limit) {
        Some(v) => v,
        None => default,
    }
}

impl Provider {
    /// The provider's output limit, or `default` when none usable is set.
    pub fn max_tokens_or(&self, default: u32) -> (r: u32)
        ensures
            r == effective_max_tokens(self.max_tokens, default),
            r == default || r >= MIN_MAX_TOKENS,
    {
        match self.max_tokens {
            Some(v) => if v >= MIN_MAX_TOKENS {
                v
            } else {
                default
            },
            None => default,
        }
    }

    /// A copy of this provider.
    pub fn duplicate(&self) -> (r: Provider)
        ensures
            r@ == self@,
    {
        Provider {
            id: self.id.clone(),
            name: self.name.clone(),
            protocol: self.protocol,
            base_url: self.base_url.clone(),
            api_key: self.api_key.clone(),
            max_tokens: self.max_tokens,
        }
    }
}

/// Which provider and model a role uses.
#[derive(Clone, Debug)]
pub struct RoleBinding {
    pub provider_id: String,
    pub model: String,
}

pub struct BindingView {
    pub provider_id: Seq<char>,
    pub model: Seq<char>,
}

impl View for RoleBinding {
    type V = BindingView;

    open spec fn view(&self) -> BindingView {
        BindingView { provider_id: self.provider_id@, model: self.model@ }
    }
}

/// The two model roles: quick explanations and stronger follow-up chat.
#[derive(Clone, Copy, Debug, PartialEq, Eq, Structural)]
pub enum Role {
    Fast,
    Chat,
}

/// The user's settings.
#[derive(Clone, Debug)]
pub struct Settings {
    pub providers: Vec<Provider>,
    /// Explanation role: fast and cheap.
    pub fast: Option<RoleBinding>,
    /// Chat role: strong.
    pub chat: Option<RoleBinding>,
    pub port: u16,
    /// The language explanations are written in.
    pub native_language: String,
    /// The user's own templates; built-in ones are never stored here.
    pub templates: Vec<PromptTemplate>,
    /// Selected unified explanation template.
    pub active_explain: Option<String>,
    /// Legacy selections, kept so that existing settings round-trip.
    pub active_word: Option<String>,
    pub active_sentence: Option<String>,
    pub active_translate: Option<String>,
    pub active_chat: Option<String>,
    /// Name of the system voice used for reading aloud; `None` picks one.
    pub voice: Option<String>,
}

pub struct SettingsView {
    pub providers: Seq<ProviderView>,
    pub fast: Option<BindingView>,
    pub chat: Option<BindingView>,
    pub port: u16,
    pub native_language: Seq<char>,
    pub templates: Seq<TemplateView>,
    pub active_explain: Option<Seq<char>>,
    pub active_word: Option<Seq<char>>,
    pub active_sentence: Option<Seq<char>>,
    pub active_translate: Option<Seq<char>>,
    pub active_chat: Option<Seq<char>>,
    pub voice: Option<Seq<char>>,
}

pub open spec fn opt_string_view(o: Option<String>) -> Option<Seq<char>> {
    match o {
        Some(s) => Some(s@),
        None => None,
    }
}

pub open spec fn opt_binding_view(o: Option<RoleBinding>) -> Option<BindingView> {
    match o {
        Some(b) => Some(b@),
        None => None,
    }
}

pub open spec fn providers_view(v: Seq<Provider>) -> Seq<ProviderView> {
    v.map_values(|p: Provider| p@)
}

pub open spec fn templates_view(v: Seq<PromptTemplate>) -> Seq<TemplateView> {
    v.map_values(|t: PromptTemplate| t@)
}

impl View for Settings {
    type V = SettingsView;

    open spec fn view(&self) -> SettingsView {
        SettingsView {
            providers: providers_view(self.providers@),
            fast: opt_binding_view(self.fast),
            chat: opt_binding_view(self.chat),
            port: self.port,
            native_language: self.native_language@,
            templates: templates_view(self.templates@),
            active_explain: opt_string_view(self.active_explain),
            active_word: opt_string_view(self.active_word),
            active_sentence: opt_string_view(self.active_sentence),
            active_translate: opt_string_view(self.active_translate),
            active_chat: opt_string_view(self.active_chat),
            voice: opt_string_view(self.voice),
        }
    }
}

pub fn default_port() -> (p: u16)
    ensures
        p == DEFAULT_PORT,
{
    DEFAULT_PORT
}

pub fn default_native_language() -> (s: String)
    ensures
        s@ == "中文"@,
{
    owned("中文")
}

/// Settings of a first start: no providers, no bindings, built-in templates.
pub open spec fn default_settings() -> SettingsView {
    SettingsView {
        providers: Seq::empty(),
        fast: None,
        chat: None,
        port: DEFAULT_PORT,
        native_language: "中文"@,
        templates: Seq::empty(),
        active_explain: None,
        active_word: None,
        active_sentence: None,
        active_translate: None,
        active_chat: None,
        voice: None,
    }
}

impl Default for Settings {
    fn default() -> (s: Settings)
        ensures
            s@ == default_settings(),
    {
        let s = Settings {
            providers: Vec::new(),
            fast: None,
            chat: None,
            port: default_port(),
            native_language: default_native_language(),
            templates: Vec::new(),
            active_explain: None,
            active_word: None,
            active_sentence: None,
            active_translate: None,
            active_chat: None,
            voice: None,
        };
        assert(s@.providers =~= Seq::<ProviderView>::empty());
        assert(s@.templates =~= Seq::<TemplateView>::empty());
        s
    }
}

/// Index of the first provider at or after `i` whose id is `id`.
pub open spec fn provider_index_from(ps: Seq<ProviderView>, id: Seq<char>, i: int) -> Option<int>
    decreases ps.len() - i,
{
    if i < 0 || i >= ps.len() {
        None
    } else if ps[i].id == id {
        Some(i)
    } else {
        provider_index_from(ps, id, i + 1)
    }
}

pub open spec fn provider_index(ps: Seq<ProviderView>, id: Seq<char>) -> Option<int> {
    provider_index_from(ps, id, 0)
}

/// Index of the first template at or after `i` with this id and kind.
pub open spec fn template_index_from(
    ts: Seq<TemplateView>,
    id: Seq<char>,
    kind: TemplateKind,
    i: int,
) -> Option<int>
    decreases ts.len() - i,
{
    if i < 0 || i >= ts.len() {
        None
    } else if ts[i].id == id && ts[i].kind == kind {
        Some(i)
    } else {
        template_index_from(ts, id, kind, i + 1)
    }
}

pub proof fn lemma_template_index_bounds(
    ts: Seq<TemplateView>,
    id: Seq<char>,
    kind: TemplateKind,
    i: int,
)
    requires
        0 <= i,
    ensures
        template_index_from(ts, id, kind, i) matches Some(k) ==> i <= k < ts.len() && ts[k].id
            == id && ts[k].kind == kind,
    decreases ts.len() - i,
{
    if i < ts.len() && !(ts[i].id == id && ts[i].kind == kind) {
        lemma_template_index_bounds(ts, id, kind, i + 1);
    }
}

/// The binding of `role`.
pub open spec fn binding_of(s: SettingsView, role: Role) -> Option<BindingView> {
    match role {
        Role::Fast => s.fast,
        Role::Chat => s.chat,
    }
}

/// The provider and model a role resolves to; `None` when the role is unbound
/// or bound to a provider that no longer exists.
pub open spec fn resolve_spec(s: SettingsView, role: Role) -> Option<(ProviderView, Seq<char>)> {
    match binding_of(s, role) {
        None => None,
        Some(b) => match provider_index(s.providers, b.provider_id) {
            None => None,
            Some(k) => Some((s.providers[k], b.model)),
        },
    }
}

/// The template id selected for `kind`.
pub open spec fn active_id_spec(s: SettingsView, kind: TemplateKind) -> Option<Seq<char>> {
    match kind {
        TemplateKind::Explain => s.active_explain,
        TemplateKind::Chat => s.active_chat,
        TemplateKind::Word => s.active_word,
        TemplateKind::Sentence => s.active_sentence,
        TemplateKind::Translate => s.active_translate,
    }
}

/// The template in force for `kind`: the selected user template of that
/// kind if it still exists, the built-in one otherwise.
pub open spec fn selected_template(s: SettingsView, kind: TemplateKind) -> TemplateView {
    match active_id_spec(s, kind) {
        None => builtin_view(kind),
        Some(id) => match template_index_from(s.templates, id, kind, 0) {
            None => builtin_view(kind),
            Some(k) => s.templates[k],
        },
    }
}

/// The template in force for a kind is always of that kind.
pub proof fn lemma_selected_template_kind(s: SettingsView, kind: TemplateKind)
    ensures
        selected_template(s, kind).kind == kind,
{
    if let Some(id) = active_id_spec(s, kind) {
        lemma_template_index_bounds(s.templates, id, kind, 0);
    }
}

/// Deleting the template in use never leaves a kind without a prompt: once
/// no stored template of `kind` carries the selected id, the template in
/// force is the built-in one.
pub proof fn lemma_deleted_template_falls_back(s: SettingsView, kind: TemplateKind)
    requires
        forall|k: int|
            0 <= k < s.templates.len() ==> !(active_id_spec(s, kind) == Some(
                #[trigger] s.templates[k].id,
            ) && s.templates[k].kind == kind),
    ensures
        selected_template(s, kind) == builtin_view(kind),
{
    if let Some(id) = active_id_spec(s, kind) {
        lemma_template_index_bounds(s.templates, id, kind, 0);
    }
}

impl Settings {
    pub fn provider(&self, id: &str) -> (r: Option<&Provider>)
        ensures
            r is Some == provider_index(self@.providers, id@) is Some,
            r matches Some(p) ==> p@ == self@.providers[provider_index(self@.providers, id@)->0],
    {
        let ghost ps = self@.providers;
        let mut i: usize = 0;
        while i < self.providers.len()
            invariant
                i <= self.providers.len(),
                ps == self@.providers,
                provider_index_from(ps, id@, 0) == provider_index_from(ps, id@, i as int),
            decreases self.providers.len() - i,
        {
            assert(ps[i as int] == self.providers@[i as int]@);
            if str_eq(self.providers[i].id.as_str(), id) {
                return Some(&self.providers[i]);
            }
            i += 1;
        }
        None
    }

    /// The provider and model bound to `role`.
    pub fn resolve(&self, role: Role) -> (r: Option<(&Provider, &str)>)
        ensures
            r is Some == resolve_spec(self@, role) is Some,
            r matches Some((p, m)) ==> resolve_spec(self@, role) == Some((p@, m@)),
    {
        let binding = match role {
            Role::Fast => self.fast.as_ref(),
            Role::Chat => self.chat.as_ref(),
        };
        match binding {
            None => None,
            Some(b) => {
                assert(binding_of(self@, role) == Some(b@));
                match self.provider(b.provider_id.as_str()) {
                    None => None,
                    Some(p) => Some((p, b.model.as_str())),
                }
            },
        }
    }

    fn active_id(&self, kind: TemplateKind) -> (r: Option<&String>)
        ensures
            match r {
                Some(s) => active_id_spec(self@, kind) == Some(s@),
                None => active_id_spec(self@, kind) is None,
            },
    {
        match kind {
            TemplateKind::Explain => self.active_explain.as_ref(),
            TemplateKind::Chat => self.active_chat.as_ref(),
            TemplateKind::Word => self.active_word.as_ref(),
            TemplateKind::Sentence => self.active_sentence.as_ref(),
            TemplateKind::Translate => self.active_translate.as_ref(),
        }
    }

    /// The template in force for `kind`. A selection that points nowhere, or
    /// at a template of another kind, falls back to the built-in template:
    /// the prompt is part of the main flow and can never be missing.
    pub fn template(&self, kind: TemplateKind) -> (t: PromptTemplate)
        ensures
            t@ == selected_template(self@, kind),
            t@.kind == kind,
    {
        let ghost ts = self@.templates;
        match self.active_id(kind) {
            None => builtin(kind),
            Some(id) => {
                let mut i: usize = 0;
                while i < self.templates.len()
                    invariant
                        i <= self.templates.len(),
                        ts == self@.templates,
                        active_id_spec(self@, kind) == Some(id@),
                        template_index_from(ts, id@, kind, 0) == template_index_from(
                            ts,
                            id@,
                            kind,
                            i as int,
                        ),
                    decreases self.templates.len() - i,
                {
                    assert(ts[i as int] == self.templates@[i as int]@);
                    if self.templates[i].id == *id && self.templates[i].kind == kind {
                        assert(template_index_from(ts, id@, kind, i as int) == Some(i as int));
                        return self.templates[i].duplicate();
                    }
                    i += 1;
                }
                builtin(kind)
            },
        }
    }
}

// ------------------------------------------------------------------ cleanup before saving

/// A provider with an unusable limit reset to unset.
pub open spec fn sanitized_provider(p: ProviderView) -> ProviderView {
    ProviderView { max_tokens: normalized_max_tokens(p.max_tokens), ..p }
}

/// The user templates worth storing: built-in copies dropped, and the
/// `builtin` flag forced off so that no undeletable template can be forged.
pub open spec fn stored_templates(ts: Seq<TemplateView>) -> Seq<TemplateView>
    decreases ts.len(),
{
    if ts.len() == 0 {
        Seq::empty()
    } else if is_builtin_id(ts.last().id) {
        stored_templates(ts.drop_last())
    } else {
        stored_templates(ts.drop_last()).push(TemplateView { builtin: false, ..ts.last() })
    }
}

/// A blank voice name selects nothing, so it is stored as unset.
pub open spec fn sanitized_voice(voice: Option<Seq<char>>) -> Option<Seq<char>> {
    match voice {
        Some(v) => if is_blank(v) {
            None
        } else {
            Some(v)
        },
        None => None,
    }
}

/// The settings as they are written to disk.
pub open spec fn sanitized(s: SettingsView) -> SettingsView {
    SettingsView {
        providers: s.providers.map_values(|p: ProviderView| sanitized_provider(p)),
        templates: stored_templates(s.templates),
        voice: sanitized_voice(s.voice),
        ..s
    }
}

fn sanitize_provider(p: &Provider) -> (r: Provider)
    ensures
        r@ == sanitized_provider(p@),
{
    let mut r = p.duplicate();
    r.max_tokens = match p.max_tokens {
        Some(v) => if v >= MIN_MAX_TOKENS {
            Some(v)
        } else {
            None
        },
        None => None,
    };
    r
}

/// Cleans settings before they are written: unusable token limits become
/// unset, a blank voice becomes unset, built-in template copies are dropped
/// and no stored template is flagged built-in.
pub fn sanitize(settings: Settings) -> (r: Settings)
    ensures
        r@ == sanitized(settings@),
{
    let mut providers: Vec<Provider> = Vec::new();
    let mut i: usize = 0;
    while i < settings.providers.len()
        invariant
            i <= settings.providers.len(),
            providers@.len() == i,
            forall|k: int|
                0 <= k < i ==> #[trigger] providers@[k]@ == sanitized_provider(
                    settings.providers@[k]@,
                ),
        decreases settings.providers.len() - i,
    {
        providers.push(sanitize_provider(&settings.providers[i]));
        i += 1;
    }
    let mut templates: Vec<PromptTemplate> = Vec::new();
    let ghost ts = templates_view(settings.templates@);
    let mut i: usize = 0;
    assert(ts.take(0) =~= Seq::<TemplateView>::empty());
    while i < settings.templates.len()
        invariant
            i <= settings.templates.len(),
            ts == templates_view(settings.templates@),
            templates_view(templates@) == stored_templates(ts.take(i as int)),
        decreases settings.templates.len() - i,
    {
        assert(ts.take(i + 1).drop_last() =~= ts.take(i as int));
        assert(ts.take(i + 1).last() == settings.templates@[i as int]@);
        if !is_builtin_id_exec(settings.templates[i].id.as_str()) {
            let mut t = settings.templates[i].duplicate();
            t.builtin = false;
            let ghost before = templates_view(templates@);
            templates.push(t);
            assert(templates_view(templates@) =~= before.push(t@));
        }
        i += 1;
    }
    assert(ts.take(settings.templates.len() as int) =~= ts);
    let voice = match settings.voice {
        Some(v) => if is_blank_exec(v.as_str()) {
            None
        } else {
            Some(v)
        },
        None => None,
    };
    let r = Settings { providers, templates, voice, ..settings };
    assert(r@.providers =~= settings@.providers.map_values(
        |p: ProviderView| sanitized_provider(p),
    ));
    r
}

/// Cleaning is idempotent, so saving settings that were just loaded
/// from a cleaned file writes the same file.
pub proof fn lemma_sanitize_idempotent(s: SettingsView)
    ensures
        sanitized(sanitized(s)) == sanitized(s),
{
    lemma_stored_templates_idempotent(s.templates);
    let once = sanitized(s);
    assert(once.providers.map_values(|p: ProviderView| sanitized_provider(p)) =~= once.providers);
    assert(sanitized(once) =~= once);
}

proof fn lemma_stored_templates_idempotent(ts: Seq<TemplateView>)
    ensures
        stored_templates(stored_templates(ts)) == stored_templates(ts),
    decreases ts.len(),
{
    if ts.len() > 0 {
        lemma_stored_templates_idempotent(ts.drop_last());
        let r = stored_templates(ts.drop_last());
        if !is_builtin_id(ts.last().id) {
            let x = TemplateView { builtin: false, ..ts.last() };
            assert(r.push(x).drop_last() =~= r);
        }
    }
}

/// What is stored never carries a built-in id or the built-in flag.
pub proof fn lemma_stored_templates_are_user_templates(ts: Seq<TemplateView>)
    ensures
        forall|k: int|
            0 <= k < stored_templates(ts).len() ==> !is_builtin_id(
                #[trigger] stored_templates(ts)[k].id,
            ) && !stored_templates(ts)[k].builtin,
    decreases ts.len(),
{
    if ts.len() > 0 {
        lemma_stored_templates_are_user_templates(ts.drop_last());
    }
}

/// Cleaning never changes the output limit a provider is used with.
pub proof fn lemma_sanitize_keeps_effective_limits(s: SettingsView, default: u32)
    ensures
        sanitized(s).providers.len() == s.providers.len(),
        forall|k: int|
            0 <= k < s.providers.len() ==> effective_max_tokens(
                #[trigger] sanitized(s).providers[k].max_tokens,
                default,
            ) == effective_max_tokens(s.providers[k].max_tokens, default),
{
}

} // verus!
