//! Settings: translator profiles, the hotkey and the other preferences.
use crate::error::{AppError, Result};
use crate::text::{decimal, join2, owned, str_chars, str_equal, u128_decimal};
use vstd::prelude::*;

verus! {

/// The service behind a translator profile.
#[derive(Debug, Clone, Copy, PartialEq, Eq, Structural)]
pub enum TranslatorProvider {
    Google,
    OpenAi,
    Claude,
    Gemini,
    DeepSeek,
    Custom,
}

/// The name of a provider shown to the user.
pub open spec fn provider_display_name(p: TranslatorProvider) -> Seq<char> {
    match p {
        TranslatorProvider::Google => "Google"@,
        TranslatorProvider::OpenAi => "OpenAI"@,
        TranslatorProvider::Claude => "Anthropic"@,
        TranslatorProvider::Gemini => "Gemini"@,
        TranslatorProvider::DeepSeek => "DeepSeek"@,
        TranslatorProvider::Custom => "自定义"@,
    }
}

/// The name of a provider written to the log.
pub open spec fn provider_log_name(p: TranslatorProvider) -> Seq<char> {
    match p {
        TranslatorProvider::Google => "google"@,
        TranslatorProvider::OpenAi => "openai"@,
        TranslatorProvider::Claude => "anthropic"@,
        TranslatorProvider::Gemini => "gemini"@,
        TranslatorProvider::DeepSeek => "deepseek"@,
        TranslatorProvider::Custom => "custom"@,
    }
}

impl TranslatorProvider {
    /// The built-in Google provider, under the name its translator uses.
    #[allow(non_upper_case_globals)]
    pub const GoogleFree: TranslatorProvider = TranslatorProvider::Google;

    /// The OpenAI provider, under the name of its protocol.
    #[allow(non_upper_case_globals)]
    pub const OpenAiCompatible: TranslatorProvider = TranslatorProvider::OpenAi;

    /// The name shown to the user.
    pub fn display_name(self) -> (r: &'static str)
        ensures
            r@ == provider_display_name(self),
    {
        match self {
            TranslatorProvider::Google => "Google",
            TranslatorProvider::OpenAi => "OpenAI",
            TranslatorProvider::Claude => "Anthropic",
            TranslatorProvider::Gemini => "Gemini",
            TranslatorProvider::DeepSeek => "DeepSeek",
            TranslatorProvider::Custom => "自定义",
        }
    }

    /// The name written to the log.
    pub fn as_log_name(self) -> (r: &'static str)
        ensures
            r@ == provider_log_name(self),
    {
        match self {
            TranslatorProvider::Google => "google",
            TranslatorProvider::OpenAi => "openai",
            TranslatorProvider::Claude => "anthropic",
            TranslatorProvider::Gemini => "gemini",
            TranslatorProvider::DeepSeek => "deepseek",
            TranslatorProvider::Custom => "custom",
        }
    }
}

/// The provider of a translation.
pub type ProviderKind = TranslatorProvider;

/// One configured translator.
#[derive(Debug, Clone, PartialEq, Eq)]
pub struct TranslatorProfile {
    pub id: String,
    pub name: String,
    pub provider: TranslatorProvider,
    pub built_in: bool,
    pub base_url: String,
    pub model: String,
    pub encrypted_api_key: Option<String>,
    pub timeout_secs: u64,
}

/// A translator profile with its texts as character sequences.
pub struct ProfileView {
    pub id: Seq<char>,
    pub name: Seq<char>,
    pub provider: TranslatorProvider,
    pub built_in: bool,
    pub base_url: Seq<char>,
    pub model: Seq<char>,
    pub encrypted_api_key: Option<Seq<char>>,
    pub timeout_secs: u64,
}

/// The text of an optional text.
pub open spec fn opt_text(o: Option<String>) -> Option<Seq<char>> {
    match o {
        Some(s) => Some(s@),
        None => None,
    }
}

impl View for TranslatorProfile {
    type V = ProfileView;

    open spec fn view(&self) -> ProfileView {
        ProfileView {
            id: self.id@,
            name: self.name@,
            provider: self.provider,
            built_in: self.built_in,
            base_url: self.base_url@,
            model: self.model@,
            encrypted_api_key: opt_text(self.encrypted_api_key),
            timeout_secs: self.timeout_secs,
        }
    }
}

/// A copy of an optional text.
pub fn copy_opt_text(o: &Option<String>) -> (r: Option<String>)
    ensures
        opt_text(r) == opt_text(*o),
{
    match o {
        Some(s) => Some(s.clone()),
        None => None,
    }
}

impl TranslatorProfile {
    /// A copy of this profile.
    pub fn duplicate(&self) -> (r: TranslatorProfile)
        ensures
            r@ == self@,
    {
        TranslatorProfile {
            id: self.id.clone(),
            name: self.name.clone(),
            provider: self.provider,
            built_in: self.built_in,
            base_url: self.base_url.clone(),
            model: self.model.clone(),
            encrypted_api_key: copy_opt_text(&self.encrypted_api_key),
            timeout_secs: self.timeout_secs,
        }
    }
}

/// How the selected text is taken through the clipboard.
#[derive(Debug, Clone, Copy, PartialEq, Eq, Structural)]
pub struct ClipboardCaptureSettings {
    pub enabled: bool,
    pub open_manual_input_on_failure: bool,
    pub copy_wait_ms: u64,
}

/// The size of the translation window.
#[derive(Debug, Clone, Copy, PartialEq, Eq, Structural)]
pub struct WindowSettings {
    pub width: i32,
    pub height: i32,
}

/// Markdown rendering of results.
#[derive(Debug, Clone, Copy, PartialEq, Eq, Structural)]
pub struct MarkdownSettings {
    pub render_enabled: bool,
}

/// All the settings of the application.
#[derive(Debug, Clone, PartialEq, Eq)]
pub struct AppSettings {
    pub default_profile_id: String,
    pub translator_profiles: Vec<TranslatorProfile>,
    pub hotkey: String,
    pub target_language: String,
    pub clipboard_capture: ClipboardCaptureSettings,
    pub window: WindowSettings,
    pub markdown: MarkdownSettings,
}

/// The settings with their texts as character sequences.
pub struct SettingsView {
    pub default_profile_id: Seq<char>,
    pub translator_profiles: Seq<ProfileView>,
    pub hotkey: Seq<char>,
    pub target_language: Seq<char>,
    pub clipboard_capture: ClipboardCaptureSettings,
    pub window: WindowSettings,
    pub markdown: MarkdownSettings,
}

/// The views of a sequence of profiles.
pub open spec fn profile_views(ps: Seq<TranslatorProfile>) -> Seq<ProfileView> {
    ps.map_values(|p: TranslatorProfile| p@)
}

impl View for AppSettings {
    type V = SettingsView;

    open spec fn view(&self) -> SettingsView {
        SettingsView {
            default_profile_id: self.default_profile_id@,
            translator_profiles: profile_views(self.translator_profiles@),
            hotkey: self.hotkey@,
            target_language: self.target_language@,
            clipboard_capture: self.clipboard_capture,
            window: self.window,
            markdown: self.markdown,
        }
    }
}

/// A built-in profile.
pub open spec fn builtin_profile_view(
    id: Seq<char>,
    name: Seq<char>,
    provider: TranslatorProvider,
    base_url: Seq<char>,
    model: Seq<char>,
    timeout_secs: u64,
) -> ProfileView {
    ProfileView {
        id,
        name,
        provider,
        built_in: true,
        base_url,
        model,
        encrypted_api_key: None,
        timeout_secs,
    }
}

/// The five built-in profiles: Google (no key needed), OpenAI, Anthropic,
/// Gemini and DeepSeek.
pub open spec fn builtin_profile_views() -> Seq<ProfileView> {
    seq![
        builtin_profile_view("google"@, "Google"@, TranslatorProvider::Google, ""@, ""@, 0),
        builtin_profile_view(
            "openai"@,
            "OpenAI"@,
            TranslatorProvider::OpenAi,
            "https://api.openai.com/v1"@,
            "gpt-4o-mini"@,
            30,
        ),
        builtin_profile_view(
            "anthropic"@,
            "Anthropic"@,
            TranslatorProvider::Claude,
            "https://api.anthropic.com/v1"@,
            ""@,
            30,
        ),
        builtin_profile_view(
            "gemini"@,
            "Gemini"@,
            TranslatorProvider::Gemini,
            "https://generativelanguage.googleapis.com/v1beta/openai"@,
            "gemini-1.5-flash"@,
            30,
        ),
        builtin_profile_view(
            "deepseek"@,
            "DeepSeek"@,
            TranslatorProvider::DeepSeek,
            "https://api.deepseek.com/v1"@,
            "deepseek-chat"@,
            30,
        ),
    ]
}

/// The settings of a first start.
pub open spec fn default_settings_view() -> SettingsView {
    SettingsView {
        default_profile_id: "google"@,
        translator_profiles: builtin_profile_views(),
        hotkey: "Ctrl+Alt+E"@,
        target_language: "zh-CN"@,
        clipboard_capture: ClipboardCaptureSettings {
            enabled: true,
            open_manual_input_on_failure: true,
            copy_wait_ms: 300,
        },
        window: WindowSettings { width: 620, height: 420 },
        markdown: MarkdownSettings { render_enabled: false },
    }
}

fn builtin_profile(
    id: &str,
    name: &str,
    provider: TranslatorProvider,
    base_url: &str,
    model: &str,
    timeout_secs: u64,
) -> (r: TranslatorProfile)
    ensures
        r@ == builtin_profile_view(id@, name@, provider, base_url@, model@, timeout_secs),
{
    TranslatorProfile {
        id: owned(id),
        name: owned(name),
        provider,
        built_in: true,
        base_url: owned(base_url),
        model: owned(model),
        encrypted_api_key: None,
        timeout_secs,
    }
}

/// The built-in translator profiles, in the order they are listed.
pub fn builtin_translator_profiles() -> (r: Vec<TranslatorProfile>)
    ensures
        profile_views(r@) == builtin_profile_views(),
{
    let mut v: Vec<TranslatorProfile> = Vec::new();
    v.push(builtin_profile("google", "Google", TranslatorProvider::Google, "", "", 0));
    v.push(
        builtin_profile(
            "openai",
            "OpenAI",
            TranslatorProvider::OpenAi,
            "https://api.openai.com/v1",
            "gpt-4o-mini",
            30,
        ),
    );
    v.push(
        builtin_profile(
            "anthropic",
            "Anthropic",
            TranslatorProvider::Claude,
            "https://api.anthropic.com/v1",
            "",
            30,
        ),
    );
    v.push(
        builtin_profile(
            "gemini",
            "Gemini",
            TranslatorProvider::Gemini,
            "https://generativelanguage.googleapis.com/v1beta/openai",
            "gemini-1.5-flash",
            30,
        ),
    );
    v.push(
        builtin_profile(
            "deepseek",
            "DeepSeek",
            TranslatorProvider::DeepSeek,
            "https://api.deepseek.com/v1",
            "deepseek-chat",
            30,
        ),
    );
    assert(profile_views(v@) =~= builtin_profile_views());
    v
}

impl std::default::Default for AppSettings {
    fn default() -> (r: AppSettings)
        ensures
            r@ == default_settings_view(),
    {
        AppSettings {
            default_profile_id: owned("google"),
            translator_profiles: builtin_translator_profiles(),
            hotkey: owned("Ctrl+Alt+E"),
            target_language: owned("zh-CN"),
            clipboard_capture: ClipboardCaptureSettings {
                enabled: true,
                open_manual_input_on_failure: true,
                copy_wait_ms: 300,
            },
            window: WindowSettings { width: 620, height: 420 },
            markdown: MarkdownSettings { render_enabled: false },
        }
    }
}

/// The position of the first profile with the given id.
pub open spec fn profile_position(ps: Seq<ProfileView>, id: Seq<char>) -> Option<int>
    decreases ps.len(),
{
    if ps.len() == 0 {
        None
    } else {
        match profile_position(ps.drop_last(), id) {
            Some(i) => Some(i),
            None => if ps.last().id == id {
                Some(ps.len() - 1)
            } else {
                None
            },
        }
    }
}

/// Some profile has the given id.
pub open spec fn has_profile(ps: Seq<ProfileView>, id: Seq<char>) -> bool {
    exists|i: int| 0 <= i < ps.len() && (#[trigger] ps[i]).id == id
}

/// The position found is that of the first profile with the id, and there is
/// none exactly when no profile has the id.
pub proof fn lemma_profile_position(ps: Seq<ProfileView>, id: Seq<char>)
    ensures
        match profile_position(ps, id) {
            Some(i) => 0 <= i < ps.len() && ps[i].id == id && forall|j: int|
                0 <= j < i ==> (#[trigger] ps[j]).id != id,
            None => !has_profile(ps, id),
        },
    decreases ps.len(),
{
    if ps.len() > 0 {
        let q = ps.drop_last();
        lemma_profile_position(q, id);
        match profile_position(q, id) {
            Some(i) => {
                assert(ps[i] == q[i]);
                assert forall|j: int| 0 <= j < i implies (#[trigger] ps[j]).id != id by {
                    assert(ps[j] == q[j]);
                }
            },
            None => {
                assert forall|j: int| 0 <= j < ps.len() - 1 implies (#[trigger] ps[j]).id != id by {
                    assert(ps[j] == q[j]);
                    if ps[j].id == id {
                        assert(has_profile(q, id));
                    }
                }
            },
        }
    }
}

/// The position of the first profile with the given id, by scanning.
pub fn find_profile(ps: &Vec<TranslatorProfile>, id: &str) -> (r: Option<usize>)
    ensures
        r matches Some(i) ==> profile_position(profile_views(ps@), id@) == Some(i as int),
        r is None ==> profile_position(profile_views(ps@), id@) is None,
{
    let ghost views = profile_views(ps@);
    proof {
        lemma_profile_position(views, id@);
    }
    let mut i: usize = 0;
    while i < ps.len()
        invariant
            i <= ps.len(),
            views == profile_views(ps@),
            forall|j: int| 0 <= j < i ==> (#[trigger] views[j]).id != id@,
        decreases ps.len() - i,
    {
        if str_equal(ps[i].id.as_str(), id) {
            proof {
                lemma_profile_position(views, id@);
                match profile_position(views, id@) {
                    Some(k) => {
                        if k > i {
                            assert(views[i as int].id == id@);
                        }
                        assert(views[k].id == id@);
                    },
                    None => {
                        assert(views[i as int].id == id@);
                    },
                }
            }
            return Some(i);
        }
        i = i + 1;
    }
    proof {
        lemma_profile_position(views, id@);
        if let Some(k) = profile_position(views, id@) {
            assert(views[k].id == id@);
        }
    }
    None
}


impl AppSettings {
    /// The first profile with the given id.
    pub fn profile_by_id(&self, id: &str) -> (r: Option<&TranslatorProfile>)
        ensures
            match profile_position(self@.translator_profiles, id@) {
                Some(i) => r matches Some(p) && *p == self.translator_profiles@[i],
                None => r is None,
            },
    {
        proof {
            lemma_profile_position(self@.translator_profiles, id@);
        }
        match find_profile(&self.translator_profiles, id) {
            Some(i) => Some(&self.translator_profiles[i]),
            None => None,
        }
    }

    /// The first profile with the given id, to change it in place.
    pub fn profile_by_id_mut(&mut self, id: &str) -> (r: Option<&mut TranslatorProfile>)
        ensures
            match profile_position(old(self)@.translator_profiles, id@) {
                Some(i) => r matches Some(p) && *p == old(self).translator_profiles@[i]
                    && final(self).translator_profiles@ == old(self).translator_profiles@.update(i, *final(p))
                    && final(self).default_profile_id == old(self).default_profile_id
                    && final(self).hotkey == old(self).hotkey
                    && final(self).target_language == old(self).target_language
                    && final(self).clipboard_capture == old(self).clipboard_capture
                    && final(self).window == old(self).window
                    && final(self).markdown == old(self).markdown,
                None => r is None && *final(self) == *old(self),
            },
    {
        proof {
            lemma_profile_position(self@.translator_profiles, id@);
        }
        match find_profile(&self.translator_profiles, id) {
            Some(i) => Some(&mut self.translator_profiles[i]),
            None => None,
        }
    }
}


/// The message when no profile is left to use.
pub open spec fn no_profile_message() -> Seq<char> {
    "没有可用的翻译配置"@
}

/// The message when a profile id names no profile.
pub open spec fn missing_profile_message() -> Seq<char> {
    "翻译配置不存在"@
}

/// The message when a built-in profile is to be deleted.
pub open spec fn builtin_delete_message() -> Seq<char> {
    "内置翻译配置不能删除"@
}

/// The profile used by default: the one the settings name, else the first one.
pub open spec fn default_profile_index(v: SettingsView) -> Option<int> {
    match profile_position(v.translator_profiles, v.default_profile_id) {
        Some(i) => Some(i),
        None => if v.translator_profiles.len() > 0 {
            Some(0)
        } else {
            None
        },
    }
}

/// `ps` with the built-in profiles of `bs` added at the end, in order, where
/// no profile has their id yet.
pub open spec fn add_missing_profiles(ps: Seq<ProfileView>, bs: Seq<ProfileView>) -> Seq<ProfileView>
    decreases bs.len(),
{
    if bs.len() == 0 {
        ps
    } else {
        let r = add_missing_profiles(ps, bs.drop_last());
        if has_profile(r, bs.last().id) {
            r
        } else {
            r.push(bs.last())
        }
    }
}

/// The id of the first profile, or `google` when there is none.
pub open spec fn first_profile_id_or_google(ps: Seq<ProfileView>) -> Seq<char> {
    if ps.len() > 0 {
        ps[0].id
    } else {
        "google"@
    }
}

/// The settings repaired after loading: every built-in profile is present,
/// and the default id names a profile.
pub open spec fn normalized_view(v: SettingsView) -> SettingsView {
    let ps = add_missing_profiles(v.translator_profiles, builtin_profile_views());
    SettingsView {
        translator_profiles: ps,
        default_profile_id: if has_profile(ps, v.default_profile_id) {
            v.default_profile_id
        } else {
            first_profile_id_or_google(ps)
        },
        ..v
    }
}

/// The id of the `k`-th candidate for a new custom profile: `custom`, then
/// `custom-2`, `custom-3`, ...
pub open spec fn custom_candidate(k: nat) -> Seq<char> {
    if k == 1 {
        "custom"@
    } else {
        "custom-"@ + decimal(k)
    }
}

/// `id` is the first candidate id that no profile uses.
pub open spec fn is_next_custom_id(ps: Seq<ProfileView>, id: Seq<char>) -> bool {
    exists|k: nat|
        #![trigger custom_candidate(k)]
        k >= 1 && id == custom_candidate(k) && !has_profile(ps, id) && forall|j: nat|
            1 <= j < k ==> has_profile(ps, #[trigger] custom_candidate(j))
}

/// A new custom profile with the given id.
pub open spec fn custom_profile_view(id: Seq<char>) -> ProfileView {
    ProfileView {
        id,
        name: "自定义配置"@,
        provider: TranslatorProvider::Custom,
        built_in: false,
        base_url: "https://api.openai.com/v1"@,
        model: "gpt-4o-mini"@,
        encrypted_api_key: None,
        timeout_secs: 30,
    }
}

/// `ps` without the profiles whose id is `id`.
pub open spec fn without_profile(ps: Seq<ProfileView>, id: Seq<char>) -> Seq<ProfileView>
    decreases ps.len(),
{
    if ps.len() == 0 {
        ps
    } else {
        let r = without_profile(ps.drop_last(), id);
        if ps.last().id == id {
            r
        } else {
            r.push(ps.last())
        }
    }
}

proof fn lemma_candidate_injective(a: nat, b: nat)
    requires
        a >= 1,
        b >= 1,
        custom_candidate(a) == custom_candidate(b),
    ensures
        a == b,
{
    reveal_strlit("custom");
    reveal_strlit("custom-");
    crate::text::lemma_decimal_digits(a);
    crate::text::lemma_decimal_digits(b);
    assert("custom"@.len() == 6);
    assert("custom-"@.len() == 7);
    if a != 1 && b != 1 {
        assert(custom_candidate(a).subrange(7, custom_candidate(a).len() as int) == decimal(a));
        assert(custom_candidate(b).subrange(7, custom_candidate(b).len() as int) == decimal(b));
        assert(decimal(a) == decimal(b));
    } else if a != 1 {
        assert(custom_candidate(a).len() >= 8);
    } else if b != 1 {
        assert(custom_candidate(b).len() >= 8);
    }
}

/// When the first `n` candidate ids are all taken, there are at least `n`
/// profiles.
proof fn lemma_taken_candidates_bound(ps: Seq<ProfileView>, n: nat)
    requires
        forall|j: nat| 1 <= j <= n ==> has_profile(ps, #[trigger] custom_candidate(j)),
    ensures
        n <= ps.len(),
{
    let x = vstd::set_lib::set_int_range(1, n as int + 1);
    let f = |j: int|
        match profile_position(ps, custom_candidate(j as nat)) {
            Some(i) => i,
            None => -1,
        };
    vstd::set_lib::lemma_int_range(1, n as int + 1);
    vstd::set_lib::lemma_int_range(0, ps.len() as int);
    assert forall|j: int| x.contains(j) implies 0 <= #[trigger] f(j) < ps.len() && ps[f(j)].id
        == custom_candidate(j as nat) by {
        assert(has_profile(ps, custom_candidate(j as nat)));
        lemma_profile_position(ps, custom_candidate(j as nat));
    }
    assert(vstd::relations::injective_on(f, x)) by {
        assert forall|a: int, b: int| x.contains(a) && x.contains(b) && #[trigger] f(a) == #[trigger] f(b) implies a == b by {
            lemma_candidate_injective(a as nat, b as nat);
        }
    }
    let y = x.map(f);
    vstd::set_lib::lemma_map_size(x, y, f);
    assert(y.subset_of(vstd::set_lib::set_int_range(0, ps.len() as int)));
    vstd::set_lib::lemma_len_subset(y, vstd::set_lib::set_int_range(0, ps.len() as int));
}

impl AppSettings {
    /// The profile used by default: the one named by `default_profile_id`,
    /// else the first profile.
    pub fn default_profile(&self) -> (r: Result<&TranslatorProfile>)
        ensures
            match default_profile_index(self@) {
                Some(i) => r matches Ok(p) && *p == self.translator_profiles@[i],
                None => r matches Err(e) && e matches AppError::Config(m) && m@
                    == no_profile_message(),
            },
    {
        proof {
            lemma_profile_position(self@.translator_profiles, self@.default_profile_id);
        }
        match find_profile(&self.translator_profiles, self.default_profile_id.as_str()) {
            Some(i) => Ok(&self.translator_profiles[i]),
            None => if self.translator_profiles.len() > 0 {
                Ok(&self.translator_profiles[0])
            } else {
                Err(AppError::Config(owned("没有可用的翻译配置")))
            },
        }
    }

    /// Adds the built-in profiles that are missing and makes sure the
    /// default id names a profile.
    pub fn normalized(self) -> (r: AppSettings)
        ensures
            r@ == normalized_view(self@),
    {
        let mut settings = self;
        let builtins = builtin_translator_profiles();
        let ghost start = settings@.translator_profiles;
        let mut j: usize = 0;
        while j < builtins.len()
            invariant
                j <= builtins.len(),
                profile_views(builtins@) == builtin_profile_views(),
                settings@ == (SettingsView {
                    translator_profiles: add_missing_profiles(
                        start,
                        builtin_profile_views().take(j as int),
                    ),
                    ..self@
                }),
            decreases builtins.len() - j,
        {
            let b = &builtins[j];
            proof {
                let bs = builtin_profile_views().take(j + 1);
                assert(bs.drop_last() == builtin_profile_views().take(j as int));
                assert(bs.last() == b@);
                lemma_profile_position(settings@.translator_profiles, b@.id);
            }
            if find_profile(&settings.translator_profiles, b.id.as_str()).is_none() {
                let copy = b.duplicate();
                let ghost before = settings.translator_profiles@;
                settings.translator_profiles.push(copy);
                assert(profile_views(settings.translator_profiles@) =~= profile_views(before).push(copy@));
            } else {
                proof {
                    if let Some(k) = profile_position(settings@.translator_profiles, b@.id) {
                        assert(has_profile(settings@.translator_profiles, b@.id));
                    }
                }
            }
            j = j + 1;
        }
        assert(builtin_profile_views().take(builtins.len() as int) == builtin_profile_views());
        proof {
            lemma_profile_position(settings@.translator_profiles, settings@.default_profile_id);
        }
        if find_profile(&settings.translator_profiles, settings.default_profile_id.as_str()).is_none() {
            settings.default_profile_id = if settings.translator_profiles.len() > 0 {
                settings.translator_profiles[0].id.clone()
            } else {
                owned("google")
            };
        } else {
            proof {
                if let Some(k) = profile_position(settings@.translator_profiles, settings@.default_profile_id) {
                    assert(has_profile(settings@.translator_profiles, settings@.default_profile_id));
                }
            }
        }
        settings
    }

    /// The first candidate id that no profile uses: `custom`, `custom-2`, ...
    fn next_custom_profile_id(&self) -> (r: String)
        ensures
            is_next_custom_id(self@.translator_profiles, r@),
    {
        let ghost ps = self@.translator_profiles;
        let mut index: u128 = 1;
        loop
            invariant
                ps == self@.translator_profiles,
                1 <= index <= ps.len() + 1,
                forall|j: nat| 1 <= j < index ==> has_profile(ps, #[trigger] custom_candidate(j)),
            decreases ps.len() + 1 - index,
        {
            let id = if index == 1 {
                owned("custom")
            } else {
                join2("custom-", u128_decimal(index).as_str())
            };
            assert(id@ == custom_candidate(index as nat));
            proof {
                lemma_profile_position(ps, id@);
            }
            if find_profile(&self.translator_profiles, id.as_str()).is_none() {
                return id;
            }
            proof {
                if let Some(k) = profile_position(ps, id@) {
                    assert(has_profile(ps, id@));
                }
                lemma_taken_candidates_bound(ps, index as nat);
                assert(ps.len() == self.translator_profiles.len());
            }
            index = index + 1;
        }
    }

    /// Adds a new custom profile under the first free `custom` id and
    /// returns it.
    pub fn add_custom_profile(&mut self) -> (r: TranslatorProfile)
        ensures
            is_next_custom_id(old(self)@.translator_profiles, r@.id),
            r@ == custom_profile_view(r@.id),
            final(self)@ == (SettingsView {
                translator_profiles: old(self)@.translator_profiles.push(r@),
                ..old(self)@
            }),
    {
        let id = self.next_custom_profile_id();
        let profile = TranslatorProfile {
            id,
            name: owned("自定义配置"),
            provider: TranslatorProvider::Custom,
            built_in: false,
            base_url: owned("https://api.openai.com/v1"),
            model: owned("gpt-4o-mini"),
            encrypted_api_key: None,
            timeout_secs: 30,
        };
        let copy = profile.duplicate();
        let ghost before = self.translator_profiles@;
        self.translator_profiles.push(copy);
        assert(profile_views(self.translator_profiles@) =~= profile_views(before).push(profile@));
        profile
    }

    /// Deletes every profile with the given id; built-in profiles cannot be
    /// deleted. When the default profile goes, the first remaining profile
    /// becomes the default.
    pub fn delete_profile(&mut self, id: &str) -> (r: Result<()>)
        ensures
            match profile_position(old(self)@.translator_profiles, id@) {
                None => r matches Err(e) && e matches AppError::Config(m) && m@
                    == missing_profile_message() && final(self)@ == old(self)@,
                Some(i) => if old(self)@.translator_profiles[i].built_in {
                    r matches Err(e) && e matches AppError::Config(m) && m@
                        == builtin_delete_message() && final(self)@ == old(self)@
                } else {
                    let ps = without_profile(old(self)@.translator_profiles, id@);
                    r is Ok && final(self)@ == (SettingsView {
                        translator_profiles: ps,
                        default_profile_id: if old(self)@.default_profile_id == id@ {
                            first_profile_id_or_google(ps)
                        } else {
                            old(self)@.default_profile_id
                        },
                        ..old(self)@
                    })
                },
            },
    {
        proof {
            lemma_profile_position(self@.translator_profiles, id@);
        }
        let i = match find_profile(&self.translator_profiles, id) {
            Some(i) => i,
            None => {
                return Err(AppError::Config(owned("翻译配置不存在")));
            },
        };
        if self.translator_profiles[i].built_in {
            return Err(AppError::Config(owned("内置翻译配置不能删除")));
        }
        let mut kept: Vec<TranslatorProfile> = Vec::new();
        let mut k: usize = 0;
        let ghost ps = self@.translator_profiles;
        while k < self.translator_profiles.len()
            invariant
                k <= self.translator_profiles.len(),
                ps == self@.translator_profiles,
                profile_views(kept@) == without_profile(ps.take(k as int), id@),
            decreases self.translator_profiles.len() - k,
        {
            proof {
                assert(ps.take(k + 1).drop_last() == ps.take(k as int));
                assert(ps.take(k + 1).last() == self.translator_profiles@[k as int]@);
            }
            if !str_equal(self.translator_profiles[k].id.as_str(), id) {
                let copy = self.translator_profiles[k].duplicate();
                let ghost before = kept@;
                kept.push(copy);
                assert(profile_views(kept@) =~= profile_views(before).push(copy@));
            }
            k = k + 1;
        }
        assert(ps.take(ps.len() as int) == ps);
        self.translator_profiles = kept;
        if str_equal(self.default_profile_id.as_str(), id) {
            self.default_profile_id = if self.translator_profiles.len() > 0 {
                self.translator_profiles[0].id.clone()
            } else {
                owned("google")
            };
        }
        Ok(())
    }

    /// Makes the profile with the given id the default one.
    pub fn set_default_profile(&mut self, id: &str) -> (r: Result<()>)
        ensures
            if has_profile(old(self)@.translator_profiles, id@) {
                r is Ok && final(self)@ == (SettingsView { default_profile_id: id@, ..old(self)@ })
            } else {
                r matches Err(e) && e matches AppError::Config(m) && m@ == missing_profile_message()
                    && final(self)@ == old(self)@
            },
    {
        proof {
            lemma_profile_position(self@.translator_profiles, id@);
        }
        if find_profile(&self.translator_profiles, id).is_none() {
            return Err(AppError::Config(owned("翻译配置不存在")));
        }
        proof {
            if let Some(k) = profile_position(self@.translator_profiles, id@) {
                assert(has_profile(self@.translator_profiles, id@));
            }
        }
        self.default_profile_id = owned(id);
        Ok(())
    }
}


proof fn lemma_add_missing_keeps(ps: Seq<ProfileView>, bs: Seq<ProfileView>, id: Seq<char>)
    ensures
        has_profile(ps, id) ==> has_profile(add_missing_profiles(ps, bs), id),
        forall|i: int| 0 <= i < bs.len() ==> has_profile(
            add_missing_profiles(ps, bs),
            #[trigger] bs[i].id,
        ),
        add_missing_profiles(ps, bs).len() >= ps.len(),
        forall|i: int| 0 <= i < ps.len() ==> add_missing_profiles(ps, bs)[i] == ps[i],
    decreases bs.len(),
{
    if bs.len() > 0 {
        let b0 = bs.drop_last();
        lemma_add_missing_keeps(ps, b0, id);
        let r = add_missing_profiles(ps, b0);
        assert forall|i: int| 0 <= i < b0.len() implies has_profile(r, #[trigger] b0[i].id) by {
            lemma_add_missing_keeps(ps, b0, b0[i].id);
        }
        if !has_profile(r, bs.last().id) {
            let r2 = r.push(bs.last());
            assert(r2[r.len() as int] == bs.last());
            assert forall|x: Seq<char>| has_profile(r, x) implies has_profile(r2, x) by {
                let k = choose|k: int| 0 <= k < r.len() && (#[trigger] r[k]).id == x;
                assert(r2[k] == r[k]);
            }
        }
        assert forall|i: int| 0 <= i < bs.len() implies has_profile(
            add_missing_profiles(ps, bs),
            #[trigger] bs[i].id,
        ) by {
            if i < bs.len() - 1 {
                assert(bs[i] == b0[i]);
                assert(has_profile(r, b0[i].id));
                if !has_profile(r, bs.last().id) {
                    let r2 = r.push(bs.last());
                    let k = choose|k: int| 0 <= k < r.len() && (#[trigger] r[k]).id == b0[i].id;
                    assert(r2[k] == r[k]);
                }
            } else {
                if !has_profile(r, bs.last().id) {
                    let r2 = r.push(bs.last());
                    assert(r2[r.len() as int] == bs.last());
                }
            }
        }
        if has_profile(ps, id) && !has_profile(r, bs.last().id) {
            let r2 = r.push(bs.last());
            let k = choose|k: int| 0 <= k < r.len() && (#[trigger] r[k]).id == id;
            assert(r2[k] == r[k]);
        }
    }
}

/// After repairing, every built-in profile id is present and the default id
/// names a profile.
pub proof fn law_normalized_is_complete(v: SettingsView)
    ensures
        forall|i: int| 0 <= i < builtin_profile_views().len() ==> has_profile(
            normalized_view(v).translator_profiles,
            #[trigger] builtin_profile_views()[i].id,
        ),
        has_profile(normalized_view(v).translator_profiles, normalized_view(v).default_profile_id),
{
    let bs = builtin_profile_views();
    lemma_add_missing_keeps(v.translator_profiles, bs, v.default_profile_id);
    let ps = normalized_view(v).translator_profiles;
    assert(has_profile(ps, bs[0].id));
    if !has_profile(ps, v.default_profile_id) {
        assert(ps.len() > 0);
        assert(ps[0].id == first_profile_id_or_google(ps));
    }
}

/// Repairing settings keeps every profile they had, in place and in order,
/// and keeps the default id whenever a profile has it (a custom default
/// survives loading); only a default that names no profile is replaced.
pub proof fn law_normalized_keeps_existing_default(v: SettingsView)
    ensures
        normalized_view(v).translator_profiles.len() >= v.translator_profiles.len(),
        forall|i: int|
            0 <= i < v.translator_profiles.len() ==> normalized_view(v).translator_profiles[i]
                == #[trigger] v.translator_profiles[i],
        has_profile(v.translator_profiles, v.default_profile_id)
            ==> normalized_view(v).default_profile_id == v.default_profile_id,
        has_profile(normalized_view(v).translator_profiles, v.default_profile_id)
            ==> normalized_view(v).default_profile_id == v.default_profile_id,
        normalized_view(v).hotkey == v.hotkey,
        normalized_view(v).target_language == v.target_language,
{
    lemma_add_missing_keeps(v.translator_profiles, builtin_profile_views(), v.default_profile_id);
}

proof fn lemma_add_missing_none_missing(ps: Seq<ProfileView>, bs: Seq<ProfileView>)
    requires
        forall|i: int| 0 <= i < bs.len() ==> has_profile(ps, #[trigger] bs[i].id),
    ensures
        add_missing_profiles(ps, bs) == ps,
    decreases bs.len(),
{
    if bs.len() > 0 {
        let b0 = bs.drop_last();
        assert forall|i: int| 0 <= i < b0.len() implies has_profile(ps, #[trigger] b0[i].id) by {
            assert(b0[i] == bs[i]);
        }
        lemma_add_missing_none_missing(ps, b0);
        assert(has_profile(ps, bs[bs.len() - 1].id));
    }
}

/// Repairing settings that were already repaired changes nothing.
pub proof fn law_normalized_idempotent(v: SettingsView)
    ensures
        normalized_view(normalized_view(v)) == normalized_view(v),
{
    let n = normalized_view(v);
    law_normalized_is_complete(v);
    lemma_add_missing_none_missing(n.translator_profiles, builtin_profile_views());
}

proof fn lemma_without_profile(ps: Seq<ProfileView>, id: Seq<char>)
    ensures
        !has_profile(without_profile(ps, id), id),
        forall|x: Seq<char>| x != id && has_profile(ps, x) ==> has_profile(
            #[trigger] without_profile(ps, id),
            x,
        ),
    decreases ps.len(),
{
    if ps.len() > 0 {
        let p0 = ps.drop_last();
        lemma_without_profile(p0, id);
        let r = without_profile(p0, id);
        assert forall|x: Seq<char>| x != id && has_profile(ps, x) implies has_profile(
            #[trigger] without_profile(ps, id),
            x,
        ) by {
            let k = choose|k: int| 0 <= k < ps.len() && (#[trigger] ps[k]).id == x;
            if k < ps.len() - 1 {
                assert(p0[k] == ps[k]);
                assert(has_profile(p0, x));
                assert(has_profile(r, x));
                if ps.last().id != id {
                    let j = choose|j: int| 0 <= j < r.len() && (#[trigger] r[j]).id == x;
                    assert(r.push(ps.last())[j] == r[j]);
                }
            } else {
                assert(r.push(ps.last())[r.len() as int] == ps.last());
            }
        }
        if ps.last().id != id {
            let r2 = r.push(ps.last());
            assert forall|j: int| 0 <= j < r2.len() implies (#[trigger] r2[j]).id != id by {
                if j < r.len() {
                    assert(r2[j] == r[j]);
                    assert(!has_profile(r, id));
                }
            }
        }
    }
}

/// Deleting a profile removes its id from the list and keeps every profile
/// with another id.
pub proof fn law_delete_removes_only_that_id(ps: Seq<ProfileView>, id: Seq<char>, other: Seq<char>)
    requires
        other != id,
        has_profile(ps, other),
    ensures
        !has_profile(without_profile(ps, id), id),
        has_profile(without_profile(ps, id), other),
{
    lemma_without_profile(ps, id);
}

/// The default id of the settings names one of their profiles.
pub open spec fn default_is_valid(v: SettingsView) -> bool {
    has_profile(v.translator_profiles, v.default_profile_id)
}

/// The operations on profiles keep the default id naming a profile: adding
/// a custom profile, making an existing profile the default, and deleting a
/// profile that is not built-in while a built-in profile with another id
/// remains (as it does after `normalized`).
pub proof fn law_profile_operations_keep_default_valid(v: SettingsView, id: Seq<char>, new_id: Seq<char>)
    requires
        default_is_valid(v),
    ensures
        default_is_valid(
            SettingsView {
                translator_profiles: v.translator_profiles.push(custom_profile_view(new_id)),
                ..v
            },
        ),
        has_profile(v.translator_profiles, id) ==> default_is_valid(
            SettingsView { default_profile_id: id, ..v },
        ),
        (exists|j: int|
            0 <= j < v.translator_profiles.len() && (#[trigger] v.translator_profiles[j]).built_in
                && v.translator_profiles[j].id != id) ==> default_is_valid(
            {
                let ps = without_profile(v.translator_profiles, id);
                SettingsView {
                    translator_profiles: ps,
                    default_profile_id: if v.default_profile_id == id {
                        first_profile_id_or_google(ps)
                    } else {
                        v.default_profile_id
                    },
                    ..v
                }
            },
        ),
{
    let ps = v.translator_profiles;
    let k = choose|k: int| 0 <= k < ps.len() && (#[trigger] ps[k]).id == v.default_profile_id;
    let pushed = ps.push(custom_profile_view(new_id));
    assert(pushed[k] == ps[k]);
    lemma_without_profile(ps, id);
    if exists|j: int| 0 <= j < ps.len() && (#[trigger] ps[j]).built_in && ps[j].id != id {
        let j = choose|j: int| 0 <= j < ps.len() && (#[trigger] ps[j]).built_in && ps[j].id != id;
        assert(has_profile(ps, ps[j].id));
        let rest = without_profile(ps, id);
        assert(has_profile(rest, ps[j].id));
        if v.default_profile_id == id {
            assert(rest.len() > 0);
            assert(has_profile(rest, rest[0].id));
        }
    }
}

} // verus!
