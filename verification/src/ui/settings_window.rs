//! The settings window: what it shows of the settings, where its controls
//! go, and how its edits change the settings.
use crate::config::{
    builtin_delete_message, custom_profile_view, default_profile_index, first_profile_id_or_google,
    has_profile, is_next_custom_id, missing_profile_message, profile_position, profile_views,
    provider_display_name, without_profile, AppSettings, ProfileView, SettingsView,
    TranslatorProfile, TranslatorProvider,
};
use crate::error::{AppError, Result};
use crate::hotkey::{hotkey_text, parse_hotkey, parse_hotkey_text, Hotkey, KeyCode, Modifiers};
use crate::text::{
    is_blank, join2, owned, parse_unsigned, parse_unsigned_chars, str_blank, str_chars, str_equal,
    trim, trim_str,
};
use crate::update::latest_release_url;
use vstd::prelude::*;

verus! {

/// The text shown in the key field when a key is saved.
pub const API_KEY_PLACEHOLDER_TEXT: &'static str = "********";

/// The notice shown in place of the network fields of the Google profile.
pub const GOOGLE_NOTICE_TEXT: &'static str = "Google 使用内置免 Key 翻译，无需填写 Base URL、模型或 API Key。";

/// What the settings window shows.
#[derive(Debug, Clone, PartialEq, Eq)]
pub struct SettingsViewModel {
    pub profiles: Vec<SettingsProfileListItem>,
    pub selected_profile: SettingsProfileDetail,
    pub hotkey: String,
    pub clipboard_capture_enabled: bool,
    pub copy_wait_ms: u64,
    pub auto_start_enabled: bool,
    pub version_text: String,
    pub update_check_available: bool,
    pub latest_release_url: String,
}

/// An entry of the profile list.
#[derive(Debug, Clone, PartialEq, Eq)]
pub struct SettingsProfileListItem {
    pub id: String,
    pub label: String,
    pub selected: bool,
    pub default: bool,
}

/// The fields of the selected profile as the window shows them; a saved key
/// shows only as present.
#[derive(Debug, Clone, PartialEq, Eq)]
pub struct SettingsProfileDetail {
    pub id: String,
    pub name: String,
    pub provider: TranslatorProvider,
    pub base_url: String,
    pub model: String,
    pub has_api_key: bool,
    pub timeout_secs: u64,
    pub built_in: bool,
    pub can_delete: bool,
    pub name_editable: bool,
    pub network_fields_visible: bool,
    pub network_fields_enabled: bool,
    pub google_notice_visible: bool,
}

/// What the user entered for a profile and the global settings.
#[derive(Debug, Clone, PartialEq, Eq)]
pub struct SettingsProfileDetailUpdate {
    pub id: String,
    pub name: String,
    pub provider: TranslatorProvider,
    pub base_url: String,
    pub model: String,
    pub api_key: SettingsApiKeyUpdate,
    pub timeout_secs: u64,
    pub hotkey: String,
    pub copy_wait_ms: u64,
    pub auto_start_enabled: bool,
}

/// What becomes of the saved key.
#[derive(Debug, Clone, PartialEq, Eq)]
pub enum SettingsApiKeyUpdate {
    Preserve,
    Clear,
    Replace(String),
}

/// The controls of the profile detail.
#[derive(Debug, Clone, Copy, PartialEq, Eq, Structural)]
pub enum SettingsProfileDetailControl {
    NameLabel,
    NameInput,
    BaseUrlLabel,
    BaseUrlInput,
    ModelLabel,
    ModelInput,
    ApiKeyLabel,
    ApiKeyInput,
    TimeoutLabel,
    TimeoutInput,
    GoogleNotice,
}

/// Whether a control of the profile detail shows and takes input.
#[derive(Debug, Clone, Copy, PartialEq, Eq, Structural)]
pub struct SettingsProfileDetailControlState {
    pub control: SettingsProfileDetailControl,
    pub visible: bool,
    pub enabled: bool,
}

/// An edit of the profile list.
#[derive(Debug, Clone, PartialEq, Eq)]
pub enum SettingsEditAction {
    NewProfile,
    DeleteProfile(String),
    SetDefault(String),
    SelectProfile(String),
}

/// The text shown in the key field when a key is saved.
pub fn api_key_placeholder_text() -> (r: &'static str)
    ensures
        r@ == API_KEY_PLACEHOLDER_TEXT@,
{
    API_KEY_PLACEHOLDER_TEXT
}

/// The name and version of the application.
pub open spec fn version_label() -> Seq<char> {
    "ait v0.1.6"@
}

/// The name and version of the application, as the window shows it.
pub fn app_version_text() -> (r: String)
    ensures
        r@ == version_label(),
{
    owned("ait v0.1.6")
}

/// What the key field shows: the placeholder when a key is saved, else
/// nothing.
pub fn settings_api_key_input_text(has_api_key: bool) -> (r: &'static str)
    ensures
        has_api_key ==> r@ == API_KEY_PLACEHOLDER_TEXT@,
        !has_api_key ==> r@ == ""@,
{
    if has_api_key {
        API_KEY_PLACEHOLDER_TEXT
    } else {
        ""
    }
}

/// What the key field asks for: the placeholder left as it was keeps the
/// saved key, a blank field clears it, anything else replaces it.
pub fn settings_api_key_update_from_input(
    existing_encrypted_api_key: Option<String>,
    input: &str,
) -> (r: SettingsApiKeyUpdate)
    ensures
        input@ == API_KEY_PLACEHOLDER_TEXT@ && existing_encrypted_api_key is Some ==> r
            is Preserve,
        !(input@ == API_KEY_PLACEHOLDER_TEXT@ && existing_encrypted_api_key is Some) && is_blank(
            input@,
        ) ==> r is Clear,
        !(input@ == API_KEY_PLACEHOLDER_TEXT@ && existing_encrypted_api_key is Some) && !is_blank(
            input@,
        ) ==> (r matches SettingsApiKeyUpdate::Replace(k) && k@ == input@),
{
    if str_equal(input, API_KEY_PLACEHOLDER_TEXT) && existing_encrypted_api_key.is_some() {
        SettingsApiKeyUpdate::Preserve
    } else if str_blank(input) {
        SettingsApiKeyUpdate::Clear
    } else {
        SettingsApiKeyUpdate::Replace(owned(input))
    }
}

/// The key of a virtual-key code that a hotkey can use: a digit, an
/// upper-case letter, or a function key F1 to F24.
pub open spec fn captured_key(vk: u32) -> Option<KeyCode> {
    if (0x30 <= vk <= 0x39) || (0x41 <= vk <= 0x5A) {
        Some(KeyCode::Char(vk as char))
    } else if 0x70 <= vk <= 0x87 {
        Some(KeyCode::Function((vk - 0x70 + 1) as u8))
    } else {
        None
    }
}

/// The hotkey field of the settings window shows a pressed combination as
/// text: held modifiers with a digit, letter or function key; other keys
/// and keys without a modifier show nothing.
pub fn hotkey_capture_text(vk: u32, modifiers: Modifiers) -> (r: Option<String>)
    ensures
        match captured_key(vk) {
            Some(key) => if modifiers.spec_any() {
                r matches Some(t) && t@ == hotkey_text(Hotkey { modifiers, key })
            } else {
                r is None
            },
            None => r is None,
        },
{
    if !modifiers.any() {
        return None;
    }
    let key = if (0x30 <= vk && vk <= 0x39) || (0x41 <= vk && vk <= 0x5A) {
        let byte: u8 = vk as u8;
        KeyCode::Char(byte as char)
    } else if 0x70 <= vk && vk <= 0x87 {
        KeyCode::Function((vk - 0x70 + 1) as u8)
    } else {
        return None;
    };
    let hotkey = Hotkey { modifiers, key };
    Some(hotkey.display_string())
}

/// A combination shown by the hotkey field reads back as the same hotkey.
pub proof fn law_captured_hotkey_reads_back(vk: u32, modifiers: Modifiers)
    requires
        modifiers.spec_any(),
        captured_key(vk) is Some,
    ensures
        parse_hotkey_text(hotkey_text(Hotkey { modifiers, key: captured_key(vk)->0 })) == Ok::<
            Hotkey,
            Seq<char>,
        >(Hotkey { modifiers, key: captured_key(vk)->0 }),
{
    let key = captured_key(vk)->0;
    if (0x30 <= vk <= 0x39) || (0x41 <= vk <= 0x5A) {
        let c = vk as char;
        assert((c as u32) == vk);
        assert(!crate::text::is_white_space(c));
        assert(crate::hotkey::ascii_upper(crate::hotkey::ascii_lower(c)) == c) by {
            reveal_with_fuel(crate::hotkey::ascii_lower, 1);
            if 0x41 <= vk <= 0x5A {
                assert((((c as u32) + 32) as char) as u32 == (c as u32) + 32);
            }
        }
    }
    crate::hotkey::law_hotkey_text_round_trip(Hotkey { modifiers, key });
}

/// The profile the window shows: the one asked for, else the default one,
/// else the first one.
pub open spec fn selected_profile_index(v: SettingsView, selected_id: Seq<char>) -> Option<int> {
    match profile_position(v.translator_profiles, selected_id) {
        Some(i) => Some(i),
        None => default_profile_index(v),
    }
}

/// The label of a profile in the list: its name, marked when it is the
/// default one.
pub open spec fn profile_list_label_text(name: Seq<char>, is_default: bool) -> Seq<char> {
    if is_default {
        name + "（默认）"@
    } else {
        name
    }
}

/// The entry of the list for profile `p`.
pub open spec fn list_item_ok(item: SettingsProfileListItem, p: ProfileView, v: SettingsView, selected: ProfileView) -> bool {
    &&& item.id@ == p.id
    &&& item.label@ == profile_list_label_text(p.name, p.id == v.default_profile_id)
    &&& item.selected == (p.id == selected.id)
    &&& item.default == (p.id == v.default_profile_id)
}

/// The detail shown for profile `p`: the Google profile shows no network
/// field and cannot be renamed; a saved key shows only as present.
pub open spec fn detail_ok(d: SettingsProfileDetail, p: ProfileView) -> bool {
    let google = p.provider == TranslatorProvider::Google;
    &&& d.id@ == p.id
    &&& d.name@ == p.name
    &&& d.provider == p.provider
    &&& d.base_url@ == (if google {
        Seq::empty()
    } else {
        p.base_url
    })
    &&& d.model@ == (if google {
        Seq::empty()
    } else {
        p.model
    })
    &&& d.has_api_key == (!google && p.encrypted_api_key is Some)
    &&& d.timeout_secs == (if google {
        0
    } else {
        p.timeout_secs
    })
    &&& d.built_in == p.built_in
    &&& d.can_delete == !p.built_in
    &&& d.name_editable == !google
    &&& d.network_fields_visible == !google
    &&& d.network_fields_enabled == !google
    &&& d.google_notice_visible == google
}

/// What the window shows of settings `v` with the profile `selected_id`
/// asked for (see `selected_profile_index`), but for the update state.
pub open spec fn view_model_fields_ok(vm: SettingsViewModel, v: SettingsView, selected_id: Seq<char>, auto_start_enabled: bool) -> bool {
    match selected_profile_index(v, selected_id) {
        Some(k) => {
            let sel = v.translator_profiles[k];
            &&& vm.profiles.len() == v.translator_profiles.len()
            &&& forall|i: int|
                0 <= i < vm.profiles.len() ==> list_item_ok(
                    #[trigger] vm.profiles@[i],
                    v.translator_profiles[i],
                    v,
                    sel,
                )
            &&& detail_ok(vm.selected_profile, sel)
            &&& vm.hotkey@ == v.hotkey
            &&& vm.clipboard_capture_enabled == v.clipboard_capture.enabled
            &&& vm.copy_wait_ms == v.clipboard_capture.copy_wait_ms
            &&& vm.auto_start_enabled == auto_start_enabled
            &&& vm.version_text@ == version_label()
        },
        None => false,
    }
}

/// What the window shows of settings `v` with the profile `selected_id`
/// asked for: an update check is offered, with the page of the latest
/// release.
pub open spec fn view_model_ok(vm: SettingsViewModel, v: SettingsView, selected_id: Seq<char>, auto_start_enabled: bool) -> bool {
    &&& view_model_fields_ok(vm, v, selected_id, auto_start_enabled)
    &&& vm.update_check_available
    &&& vm.latest_release_url@ == "https://github.com/aitsuki/ait/releases/latest"@
}

fn profile_list_label(profile: &TranslatorProfile, is_default: bool) -> (r: String)
    ensures
        r@ == profile_list_label_text(profile.name@, is_default),
{
    if is_default {
        join2(profile.name.as_str(), "（默认）")
    } else {
        profile.name.clone()
    }
}

fn profile_detail(selected: &TranslatorProfile) -> (d: SettingsProfileDetail)
    ensures
        detail_ok(d, selected@),
{
    let is_google = match selected.provider {
        TranslatorProvider::Google => true,
        _ => false,
    };
    let (base_url, model, has_api_key, timeout_secs) = if is_google {
        (String::new(), String::new(), false, 0)
    } else {
        (
            selected.base_url.clone(),
            selected.model.clone(),
            selected.encrypted_api_key.is_some(),
            selected.timeout_secs,
        )
    };
    SettingsProfileDetail {
        id: selected.id.clone(),
        name: selected.name.clone(),
        provider: selected.provider,
        base_url,
        model,
        has_api_key,
        timeout_secs,
        built_in: selected.built_in,
        can_delete: !selected.built_in,
        name_editable: !is_google,
        network_fields_visible: !is_google,
        network_fields_enabled: !is_google,
        google_notice_visible: is_google,
    }
}

impl SettingsViewModel {
    /// What the window shows of the settings, with the profile
    /// `selected_profile_id` selected (see `selected_profile_index`) and
    /// the given auto-start state.
    pub fn from_settings_with_selected_and_auto_start(
        settings: &AppSettings,
        selected_profile_id: &str,
        auto_start_enabled: bool,
    ) -> (vm: SettingsViewModel)
        requires
            settings@.translator_profiles.len() > 0,
        ensures
            view_model_ok(vm, settings@, selected_profile_id@, auto_start_enabled),
    {
        proof {
            crate::config::lemma_profile_position(settings@.translator_profiles, selected_profile_id@);
            crate::config::lemma_profile_position(
                settings@.translator_profiles,
                settings@.default_profile_id,
            );
        }
        let selected: &TranslatorProfile = match settings.profile_by_id(selected_profile_id) {
            Some(p) => p,
            None => match settings.profile_by_id(settings.default_profile_id.as_str()) {
                Some(p) => p,
                None => &settings.translator_profiles[0],
            },
        };
        let ghost k = selected_profile_index(settings@, selected_profile_id@)->0;
        assert(settings@.translator_profiles[k] == settings.translator_profiles@[k]@);
        assert(*selected == settings.translator_profiles@[k]);
        let profiles = &settings.translator_profiles;
        let mut items: Vec<SettingsProfileListItem> = Vec::new();
        let mut i: usize = 0;
        while i < profiles.len()
            invariant
                i <= profiles.len(),
                profiles@ == settings.translator_profiles@,
                *selected == settings.translator_profiles@[k],
                0 <= k < profiles.len(),
                items.len() == i,
                forall|j: int|
                    0 <= j < i ==> list_item_ok(
                        #[trigger] items@[j],
                        settings@.translator_profiles[j],
                        settings@,
                        settings@.translator_profiles[k],
                    ),
            decreases profiles.len() - i,
        {
            let profile = &profiles[i];
            assert(settings@.translator_profiles[i as int] == profiles@[i as int]@);
            assert(settings@.translator_profiles[k] == profiles@[k]@);
            let is_default = str_equal(profile.id.as_str(), settings.default_profile_id.as_str());
            items.push(
                SettingsProfileListItem {
                    id: profile.id.clone(),
                    label: profile_list_label(profile, is_default),
                    selected: str_equal(profile.id.as_str(), selected.id.as_str()),
                    default: is_default,
                },
            );
            i = i + 1;
        }
        SettingsViewModel {
            profiles: items,
            selected_profile: profile_detail(selected),
            hotkey: settings.hotkey.clone(),
            clipboard_capture_enabled: settings.clipboard_capture.enabled,
            copy_wait_ms: settings.clipboard_capture.copy_wait_ms,
            auto_start_enabled,
            version_text: app_version_text(),
            update_check_available: true,
            latest_release_url: owned(latest_release_url()),
        }
    }

    /// What the window shows, with the given update state.
    pub fn from_settings_with_update_state(
        settings: &AppSettings,
        selected_profile_id: &str,
        auto_start_enabled: bool,
        update_check_available: bool,
        latest_release_url: String,
    ) -> (vm: SettingsViewModel)
        requires
            settings@.translator_profiles.len() > 0,
        ensures
            view_model_fields_ok(vm, settings@, selected_profile_id@, auto_start_enabled),
            vm.update_check_available == update_check_available,
            vm.latest_release_url == latest_release_url,
    {
        let mut view_model = Self::from_settings_with_selected_and_auto_start(
            settings,
            selected_profile_id,
            auto_start_enabled,
        );
        view_model.update_check_available = update_check_available;
        view_model.latest_release_url = latest_release_url;
        view_model
    }

    /// What the window shows, with auto-start shown as off.
    pub fn from_settings_with_selected(settings: &AppSettings, selected_profile_id: &str) -> (vm: SettingsViewModel)
        requires
            settings@.translator_profiles.len() > 0,
        ensures
            view_model_ok(vm, settings@, selected_profile_id@, false),
    {
        Self::from_settings_with_selected_and_auto_start(settings, selected_profile_id, false)
    }
}

impl<'a> From<&'a AppSettings> for SettingsViewModel {
    /// What the window shows, with the default profile selected (see
    /// `from_settings_with_selected`); the settings must hold a profile.
    fn from(settings: &'a AppSettings) -> (vm: SettingsViewModel)
        ensures
            settings@.translator_profiles.len() > 0 ==> view_model_ok(
                vm,
                settings@,
                settings@.default_profile_id,
                false,
            ),
    {
        if settings.translator_profiles.len() == 0 {
            let mut repaired = settings.clone();
            repaired.translator_profiles = crate::config::builtin_translator_profiles();
            return SettingsViewModel::from_settings_with_selected(&repaired, settings.default_profile_id.as_str());
        }
        SettingsViewModel::from_settings_with_selected(settings, settings.default_profile_id.as_str())
    }
}

impl<'a> vstd::std_specs::convert::FromSpecImpl<&'a AppSettings> for SettingsViewModel {
    open spec fn obeys_from_spec() -> bool {
        false
    }

    open spec fn from_spec(v: &'a AppSettings) -> SettingsViewModel {
        vstd::pervasive::arbitrary()
    }
}

/// The state of one control.
pub open spec fn control_state(control: SettingsProfileDetailControl, visible: bool, enabled: bool) -> SettingsProfileDetailControlState {
    SettingsProfileDetailControlState { control, visible, enabled }
}

/// The states of the controls of the detail, in order: the name shows when
/// the name can be edited, the network fields when they are visible (taking
/// input when enabled), the notice when it is visible.
pub open spec fn detail_control_states(p: SettingsProfileDetail) -> Seq<SettingsProfileDetailControlState> {
    let nv = p.network_fields_visible;
    let ne = p.network_fields_enabled;
    seq![
        control_state(SettingsProfileDetailControl::NameLabel, p.name_editable, p.name_editable),
        control_state(SettingsProfileDetailControl::NameInput, p.name_editable, p.name_editable),
        control_state(SettingsProfileDetailControl::BaseUrlLabel, nv, ne),
        control_state(SettingsProfileDetailControl::BaseUrlInput, nv, ne),
        control_state(SettingsProfileDetailControl::ModelLabel, nv, ne),
        control_state(SettingsProfileDetailControl::ModelInput, nv, ne),
        control_state(SettingsProfileDetailControl::ApiKeyLabel, nv, ne),
        control_state(SettingsProfileDetailControl::ApiKeyInput, nv, ne),
        control_state(SettingsProfileDetailControl::TimeoutLabel, nv, ne),
        control_state(SettingsProfileDetailControl::TimeoutInput, nv, ne),
        control_state(SettingsProfileDetailControl::GoogleNotice, p.google_notice_visible, true),
    ]
}

/// The states of the controls of the profile detail (see
/// `detail_control_states`).
pub fn settings_profile_detail_control_states(profile: &SettingsProfileDetail) -> (r: Vec<
    SettingsProfileDetailControlState,
>)
    ensures
        r@ == detail_control_states(*profile),
{
    let nv = profile.network_fields_visible;
    let ne = profile.network_fields_enabled;
    let ed = profile.name_editable;
    let v = vec![
        SettingsProfileDetailControlState {
            control: SettingsProfileDetailControl::NameLabel,
            visible: ed,
            enabled: ed,
        },
        SettingsProfileDetailControlState {
            control: SettingsProfileDetailControl::NameInput,
            visible: ed,
            enabled: ed,
        },
        SettingsProfileDetailControlState {
            control: SettingsProfileDetailControl::BaseUrlLabel,
            visible: nv,
            enabled: ne,
        },
        SettingsProfileDetailControlState {
            control: SettingsProfileDetailControl::BaseUrlInput,
            visible: nv,
            enabled: ne,
        },
        SettingsProfileDetailControlState {
            control: SettingsProfileDetailControl::ModelLabel,
            visible: nv,
            enabled: ne,
        },
        SettingsProfileDetailControlState {
            control: SettingsProfileDetailControl::ModelInput,
            visible: nv,
            enabled: ne,
        },
        SettingsProfileDetailControlState {
            control: SettingsProfileDetailControl::ApiKeyLabel,
            visible: nv,
            enabled: ne,
        },
        SettingsProfileDetailControlState {
            control: SettingsProfileDetailControl::ApiKeyInput,
            visible: nv,
            enabled: ne,
        },
        SettingsProfileDetailControlState {
            control: SettingsProfileDetailControl::TimeoutLabel,
            visible: nv,
            enabled: ne,
        },
        SettingsProfileDetailControlState {
            control: SettingsProfileDetailControl::TimeoutInput,
            visible: nv,
            enabled: ne,
        },
        SettingsProfileDetailControlState {
            control: SettingsProfileDetailControl::GoogleNotice,
            visible: profile.google_notice_visible,
            enabled: true,
        },
    ];
    assert(v@ == detail_control_states(*profile));
    v
}

/// A rectangle of the settings window by its corner and size.
#[derive(Debug, Clone, Copy, PartialEq, Eq, Structural)]
pub struct SettingsControlRect {
    pub x: i32,
    pub y: i32,
    pub width: i32,
    pub height: i32,
}

/// Where each control of the profile detail goes: labels at the left, the
/// fields beside them, one field every 44 pixels, each field 32 high; the
/// Google notice takes the place of the name.
pub open spec fn detail_control_rect(control: SettingsProfileDetailControl) -> SettingsControlRect {
    match control {
        SettingsProfileDetailControl::NameLabel => SettingsControlRect { x: 266, y: 105, width: 90, height: 22 },
        SettingsProfileDetailControl::NameInput => SettingsControlRect { x: 370, y: 100, width: 240, height: 32 },
        SettingsProfileDetailControl::BaseUrlLabel => SettingsControlRect { x: 266, y: 149, width: 90, height: 22 },
        SettingsProfileDetailControl::BaseUrlInput => SettingsControlRect { x: 370, y: 144, width: 300, height: 32 },
        SettingsProfileDetailControl::ModelLabel => SettingsControlRect { x: 266, y: 193, width: 90, height: 22 },
        SettingsProfileDetailControl::ModelInput => SettingsControlRect { x: 370, y: 188, width: 240, height: 32 },
        SettingsProfileDetailControl::ApiKeyLabel => SettingsControlRect { x: 266, y: 237, width: 90, height: 22 },
        SettingsProfileDetailControl::ApiKeyInput => SettingsControlRect { x: 370, y: 232, width: 240, height: 32 },
        SettingsProfileDetailControl::TimeoutLabel => SettingsControlRect { x: 266, y: 281, width: 90, height: 22 },
        SettingsProfileDetailControl::TimeoutInput => SettingsControlRect { x: 370, y: 276, width: 90, height: 32 },
        SettingsProfileDetailControl::GoogleNotice => SettingsControlRect { x: 266, y: 100, width: 420, height: 60 },
    }
}

/// Where a control of the profile detail goes (see `detail_control_rect`).
pub fn settings_profile_detail_control_rect(control: SettingsProfileDetailControl) -> (r: SettingsControlRect)
    ensures
        r == detail_control_rect(control),
{
    match control {
        SettingsProfileDetailControl::NameLabel => SettingsControlRect { x: 266, y: 105, width: 90, height: 22 },
        SettingsProfileDetailControl::NameInput => SettingsControlRect { x: 370, y: 100, width: 240, height: 32 },
        SettingsProfileDetailControl::BaseUrlLabel => SettingsControlRect { x: 266, y: 149, width: 90, height: 22 },
        SettingsProfileDetailControl::BaseUrlInput => SettingsControlRect { x: 370, y: 144, width: 300, height: 32 },
        SettingsProfileDetailControl::ModelLabel => SettingsControlRect { x: 266, y: 193, width: 90, height: 22 },
        SettingsProfileDetailControl::ModelInput => SettingsControlRect { x: 370, y: 188, width: 240, height: 32 },
        SettingsProfileDetailControl::ApiKeyLabel => SettingsControlRect { x: 266, y: 237, width: 90, height: 22 },
        SettingsProfileDetailControl::ApiKeyInput => SettingsControlRect { x: 370, y: 232, width: 240, height: 32 },
        SettingsProfileDetailControl::TimeoutLabel => SettingsControlRect { x: 266, y: 281, width: 90, height: 22 },
        SettingsProfileDetailControl::TimeoutInput => SettingsControlRect { x: 370, y: 276, width: 90, height: 32 },
        SettingsProfileDetailControl::GoogleNotice => SettingsControlRect { x: 266, y: 100, width: 420, height: 60 },
    }
}

/// The notice shown in place of the network fields of the Google profile.
pub fn settings_profile_google_notice_text() -> (r: &'static str)
    ensures
        r@ == GOOGLE_NOTICE_TEXT@,
{
    GOOGLE_NOTICE_TEXT
}

/// Where hidden controls of the detail go: empty and off the window.
pub fn settings_profile_detail_hidden_rect() -> (r: SettingsControlRect)
    ensures
        r == (SettingsControlRect { x: -32000i32, y: -32000i32, width: 0, height: 0 }),
{
    SettingsControlRect { x: -32000, y: -32000, width: 0, height: 0 }
}

/// Where a text field of the settings window goes inside the rectangle it
/// is given: a framed field moves in by the frame's gutter (see
/// `modern_edit_child_rect`), another keeps the rectangle.
pub fn settings_edit_child_rect(id: i32, x: i32, y: i32, width: i32, height: i32) -> (r: SettingsControlRect)
    requires
        x <= i32::MAX - 4,
        y <= i32::MAX - 4,
        width >= i32::MIN + 8,
        height >= i32::MIN + 8,
    ensures
        (id >= 0 && crate::ui::edit::edit_kind_of(id as usize) is Some) ==> r == (SettingsControlRect {
            x: (x + 4) as i32,
            y: (y + 4) as i32,
            width: if width - 8 >= 1 {
                (width - 8) as i32
            } else {
                1
            },
            height: if height - 8 >= 1 {
                (height - 8) as i32
            } else {
                1
            },
        }),
        !(id >= 0 && crate::ui::edit::edit_kind_of(id as usize) is Some) ==> r == (SettingsControlRect {
            x,
            y,
            width,
            height,
        }),
{
    if id >= 0 && crate::ui::edit::is_modern_edit(id as usize) {
        let inner = crate::ui::edit::modern_edit_child_rect(x, y, width, height);
        return SettingsControlRect { x: inner.x, y: inner.y, width: inner.width, height: inner.height };
    }
    SettingsControlRect { x, y, width, height }
}

/// Static texts (labels, the Google notice, the version) are drawn on the
/// background of the window.
pub fn settings_static_text_uses_window_background(id: i32) -> (r: bool)
    ensures
        r == (id == 0 || (3110 <= id <= 3115) || id == 3118),
{
    id == 0 || (3110 <= id && id <= 3115) || id == 3118
}

/// The settings after the profile `id` is deleted, when it can be (see
/// `AppSettings::delete_profile`).
pub open spec fn settings_after_delete(v: SettingsView, id: Seq<char>) -> SettingsView {
    let ps = without_profile(v.translator_profiles, id);
    SettingsView {
        translator_profiles: ps,
        default_profile_id: if v.default_profile_id == id {
            first_profile_id_or_google(ps)
        } else {
            v.default_profile_id
        },
        ..v
    }
}

/// Applies an edit of the profile list and gives the id of the profile to
/// select next: a new custom profile; after a deletion, the default one;
/// the new default one; or the one picked, which must exist. A refused
/// edit changes nothing.
pub fn apply_settings_edit_action(settings: &mut AppSettings, action: SettingsEditAction) -> (r: Result<String>)
    ensures
        match action {
            SettingsEditAction::NewProfile => r matches Ok(id) && is_next_custom_id(
                old(settings)@.translator_profiles,
                id@,
            ) && final(settings)@ == (SettingsView {
                translator_profiles: old(settings)@.translator_profiles.push(
                    custom_profile_view(id@),
                ),
                ..old(settings)@
            }),
            SettingsEditAction::DeleteProfile(id) => match profile_position(
                old(settings)@.translator_profiles,
                id@,
            ) {
                None => r matches Err(e) && e matches AppError::Config(m) && m@
                    == missing_profile_message() && final(settings)@ == old(settings)@,
                Some(i) => if old(settings)@.translator_profiles[i].built_in {
                    r matches Err(e) && e matches AppError::Config(m) && m@
                        == builtin_delete_message() && final(settings)@ == old(settings)@
                } else {
                    r matches Ok(next) && final(settings)@ == settings_after_delete(
                        old(settings)@,
                        id@,
                    ) && next@ == final(settings)@.default_profile_id
                },
            },
            SettingsEditAction::SetDefault(id) => if has_profile(
                old(settings)@.translator_profiles,
                id@,
            ) {
                r matches Ok(next) && next@ == id@ && final(settings)@ == (SettingsView {
                    default_profile_id: id@,
                    ..old(settings)@
                })
            } else {
                r matches Err(e) && e matches AppError::Config(m) && m@ == missing_profile_message()
                    && final(settings)@ == old(settings)@
            },
            SettingsEditAction::SelectProfile(id) => final(settings)@ == old(settings)@ && if has_profile(
                old(settings)@.translator_profiles,
                id@,
            ) {
                r matches Ok(next) && next@ == id@
            } else {
                r matches Err(e) && e matches AppError::Config(m) && m@ == missing_profile_message()
            },
        },
{
    match action {
        SettingsEditAction::NewProfile => {
            let created = settings.add_custom_profile();
            Ok(created.id)
        },
        SettingsEditAction::DeleteProfile(id) => {
            settings.delete_profile(id.as_str())?;
            Ok(settings.default_profile_id.clone())
        },
        SettingsEditAction::SetDefault(id) => {
            settings.set_default_profile(id.as_str())?;
            Ok(id)
        },
        SettingsEditAction::SelectProfile(id) => {
            proof {
                crate::config::lemma_profile_position(settings@.translator_profiles, id@);
            }
            if settings.profile_by_id(id.as_str()).is_none() {
                return Err(AppError::Config(owned("翻译配置不存在")));
            }
            Ok(id)
        },
    }
}

/// The saved key after an update of a profile that is not Google.
pub open spec fn updated_api_key(existing: Option<Seq<char>>, update: SettingsApiKeyUpdate) -> Option<Seq<char>> {
    match update {
        SettingsApiKeyUpdate::Preserve => existing,
        SettingsApiKeyUpdate::Clear => None,
        SettingsApiKeyUpdate::Replace(k) => if is_blank(k@) {
            None
        } else {
            Some(k@)
        },
    }
}

/// A profile after the user's entries are saved into it: the name trimmed
/// (the provider's name when blank); the Google profile keeps no network
/// field, another takes the address, model and key entered and a timeout of
/// at least a second. The provider never changes.
pub open spec fn updated_profile(p: ProfileView, u: SettingsProfileDetailUpdate) -> ProfileView {
    let name = if trim(u.name@).len() == 0 {
        provider_display_name(p.provider)
    } else {
        trim(u.name@)
    };
    if p.provider == TranslatorProvider::Google {
        ProfileView {
            name,
            base_url: Seq::empty(),
            model: Seq::empty(),
            encrypted_api_key: None,
            timeout_secs: 0,
            ..p
        }
    } else {
        ProfileView {
            name,
            base_url: u.base_url@,
            model: u.model@,
            encrypted_api_key: updated_api_key(p.encrypted_api_key, u.api_key),
            timeout_secs: if u.timeout_secs >= 1 {
                u.timeout_secs
            } else {
                1
            },
            ..p
        }
    }
}

/// Saves the user's entries: the hotkey, written in its normal form, and
/// the fields of the profile `update.id` (see `updated_profile`). A hotkey
/// that cannot be read is refused with nothing changed; a missing profile
/// is refused after the hotkey is saved.
pub fn apply_settings_detail_update(settings: &mut AppSettings, update: SettingsProfileDetailUpdate) -> (r: Result<()>)
    ensures
        match parse_hotkey_text(update.hotkey@) {
            Err(m) => r matches Err(e) && e matches AppError::Hotkey(t) && t@ == m
                && final(settings)@ == old(settings)@,
            Ok(h) => match profile_position(old(settings)@.translator_profiles, update.id@) {
                None => r matches Err(e) && e matches AppError::Config(m) && m@
                    == missing_profile_message() && final(settings)@ == (SettingsView {
                    hotkey: hotkey_text(h),
                    ..old(settings)@
                }),
                Some(i) => r is Ok && final(settings)@ == (SettingsView {
                    hotkey: hotkey_text(h),
                    translator_profiles: old(settings)@.translator_profiles.update(
                        i,
                        updated_profile(old(settings)@.translator_profiles[i], update),
                    ),
                    ..old(settings)@
                }),
            },
        },
{
    let hotkey = match parse_hotkey(update.hotkey.as_str()) {
        Ok(h) => h,
        Err(e) => return Err(e),
    };
    settings.hotkey = hotkey.display_string();
    proof {
        crate::config::lemma_profile_position(settings@.translator_profiles, update.id@);
    }
    let ghost mid = settings.translator_profiles@;
    let profile = match settings.profile_by_id_mut(update.id.as_str()) {
        Some(p) => p,
        None => return Err(AppError::Config(owned("翻译配置不存在"))),
    };
    let ghost i = profile_position(profile_views(mid), update.id@)->0;
    let ghost before = profile@;
    assert(before == profile_views(mid)[i]);
    let trimmed = trim_str(update.name.as_str());
    if trimmed.as_str().unicode_len() == 0 {
        profile.name = owned(profile.provider.display_name());
    } else {
        profile.name = trimmed;
    }
    let is_google = match profile.provider {
        TranslatorProvider::Google => true,
        _ => false,
    };
    if is_google {
        profile.base_url = String::new();
        profile.model = String::new();
        profile.encrypted_api_key = None;
        profile.timeout_secs = 0;
    } else {
        profile.base_url = update.base_url;
        profile.model = update.model;
        match update.api_key {
            SettingsApiKeyUpdate::Preserve => {},
            SettingsApiKeyUpdate::Clear => {
                profile.encrypted_api_key = None;
            },
            SettingsApiKeyUpdate::Replace(api_key) => {
                if str_blank(api_key.as_str()) {
                    profile.encrypted_api_key = None;
                } else {
                    profile.encrypted_api_key = Some(api_key);
                }
            },
        }
        profile.timeout_secs = if update.timeout_secs >= 1 {
            update.timeout_secs
        } else {
            1
        };
    }
    assert(profile@ == updated_profile(before, update));
    proof {
        assert(profile_views(mid.update(i, *profile)) =~= profile_views(mid).update(i, profile@));
    }
    Ok(())
}

/// Half of the room left over, rounded toward zero, and never negative.
pub open spec fn centered_offset(room: int) -> int {
    if room >= 0 {
        room / 2
    } else {
        0
    }
}

/// Where a window of the given size goes to be centred in the work area
/// `(left, top, right, bottom)`; a window larger than the area goes to its
/// top left corner.
pub fn settings_window_center_position(work_area: (i32, i32, i32, i32), window_size: (i32, i32)) -> (r: (i32, i32))
    requires
        i32::MIN <= work_area.2 - work_area.0 - window_size.0 <= i32::MAX,
        i32::MIN <= work_area.3 - work_area.1 - window_size.1 <= i32::MAX,
        work_area.0 + centered_offset(work_area.2 - work_area.0 - window_size.0) <= i32::MAX,
        work_area.1 + centered_offset(work_area.3 - work_area.1 - window_size.1) <= i32::MAX,
    ensures
        r.0 == work_area.0 + centered_offset(work_area.2 - work_area.0 - window_size.0),
        r.1 == work_area.1 + centered_offset(work_area.3 - work_area.1 - window_size.1),
{
    let (left, top, right, bottom) = work_area;
    let (width, height) = window_size;
    let room_x: i32 = (right as i64 - left as i64 - width as i64) as i32;
    let room_y: i32 = (bottom as i64 - top as i64 - height as i64) as i32;
    let x = left + if room_x >= 0 {
        room_x / 2
    } else {
        0
    };
    let y = top + if room_y >= 0 {
        room_y / 2
    } else {
        0
    };
    (x, y)
}

/// What happens to the settings window after a successful save.
#[derive(Debug, Clone, Copy, PartialEq, Eq, Structural)]
pub enum SettingsSaveOutcome {
    KeepOpen,
}

/// The window stays open after a successful save.
pub fn settings_save_outcome_after_success() -> (r: SettingsSaveOutcome)
    ensures
        r == SettingsSaveOutcome::KeepOpen,
{
    SettingsSaveOutcome::KeepOpen
}

/// Where the main parts of the settings window go.
#[derive(Debug, Clone, Copy, PartialEq, Eq, Structural)]
pub struct SettingsWindowLayout {
    pub hotkey: SettingsControlRect,
    pub auto_start: SettingsControlRect,
    pub separator: SettingsControlRect,
    pub profile_list: SettingsControlRect,
    pub name: SettingsControlRect,
    pub version: SettingsControlRect,
    pub update_action: SettingsControlRect,
}

/// The layout of the settings window: the global settings (hotkey and
/// auto-start) above a separator, the profiles below it, the version and
/// the update button at the bottom.
pub open spec fn settings_layout() -> SettingsWindowLayout {
    SettingsWindowLayout {
        hotkey: SettingsControlRect { x: 118, y: 18, width: 180, height: 32 },
        auto_start: SettingsControlRect { x: 320, y: 42, width: 100, height: 18 },
        separator: SettingsControlRect { x: 18, y: 62, width: 668, height: 1 },
        profile_list: SettingsControlRect { x: 18, y: 100, width: 220, height: 228 },
        name: SettingsControlRect { x: 370, y: 100, width: 240, height: 32 },
        version: SettingsControlRect { x: 18, y: 386, width: 160, height: 22 },
        update_action: SettingsControlRect { x: 180, y: 386, width: 88, height: 28 },
    }
}

/// The layout of the settings window (see `settings_layout`).
pub fn settings_window_layout() -> (r: SettingsWindowLayout)
    ensures
        r == settings_layout(),
{
    SettingsWindowLayout {
        hotkey: SettingsControlRect { x: 118, y: 18, width: 180, height: 32 },
        auto_start: SettingsControlRect { x: 320, y: 42, width: 100, height: 18 },
        separator: SettingsControlRect { x: 18, y: 62, width: 668, height: 1 },
        profile_list: SettingsControlRect { x: 18, y: 100, width: 220, height: 228 },
        name: SettingsControlRect { x: 370, y: 100, width: 240, height: 32 },
        version: SettingsControlRect { x: 18, y: 386, width: 160, height: 22 },
        update_action: SettingsControlRect { x: 180, y: 386, width: 88, height: 28 },
    }
}

/// The window erases the pixels of hidden controls with its background.
pub fn settings_window_uses_background_brush() -> (r: bool)
    ensures
        r,
{
    true
}

/// Static texts of the settings window have no frame.
pub fn settings_static_controls_have_border() -> (r: bool)
    ensures
        !r,
{
    false
}

/// Remembers the settings window that is open, so that a second request
/// shows it again instead of opening another.
#[derive(Debug, Clone, Copy, PartialEq, Eq, Default)]
pub struct SettingsWindowRegistry {
    hwnd: Option<isize>,
}

impl SettingsWindowRegistry {
    /// The window remembered.
    pub closed spec fn window(&self) -> Option<isize> {
        self.hwnd
    }

    /// A registry that remembers no window.
    pub fn new() -> (r: SettingsWindowRegistry)
        ensures
            r.window() is None,
    {
        SettingsWindowRegistry { hwnd: None }
    }

    /// The window remembered, if any.
    pub fn current(&self) -> (r: Option<isize>)
        ensures
            r == self.window(),
    {
        self.hwnd
    }

    /// The window remembered, if it is still alive (as the system says of
    /// it in `window_alive`).
    pub fn existing_if_alive(&self, window_alive: bool) -> (r: Option<isize>)
        ensures
            r == (if window_alive {
                self.window()
            } else {
                None::<isize>
            }),
    {
        match self.hwnd {
            Some(hwnd) => if window_alive {
                Some(hwnd)
            } else {
                None
            },
            None => None,
        }
    }

    /// Remembers `hwnd` as the open window.
    pub fn set(&mut self, hwnd: isize)
        ensures
            final(self).window() == Some(hwnd),
    {
        self.hwnd = Some(hwnd);
    }

    /// Forgets `hwnd` when it is the window remembered.
    pub fn clear_if_current(&mut self, hwnd: isize)
        ensures
            old(self).window() == Some(hwnd) ==> final(self).window() is None,
            old(self).window() != Some(hwnd) ==> final(self).window() == old(self).window(),
    {
        if self.hwnd == Some(hwnd) {
            self.hwnd = None;
        }
    }
}

/// The timeout in seconds that the timeout field holds: its number when it
/// reads as one, else 30.
pub fn timeout_from_input(text: &str) -> (r: u64)
    ensures
        match parse_unsigned(text@, u64::MAX as nat) {
            Some(n) => r == n,
            None => r == 30,
        },
{
    let chars = str_chars(text);
    match parse_unsigned_chars(&chars, u64::MAX) {
        Some(n) => n,
        None => 30,
    }
}

/// The purpose under which the key of a profile is protected.
pub open spec fn api_key_purpose_text(profile_id: Seq<char>) -> Seq<char> {
    "ait-translator-profile-"@ + profile_id
}

/// The purpose under which the key of the profile `profile_id` is
/// protected.
pub fn api_key_purpose(profile_id: &str) -> (r: String)
    ensures
        r@ == api_key_purpose_text(profile_id@),
{
    join2("ait-translator-profile-", profile_id)
}

/// Saving the entries of a profile never changes its provider, id or
/// built-in mark; the Google profile keeps no address, model, key or
/// timeout, and any other profile keeps a timeout of at least a second.
pub proof fn law_detail_update_keeps_identity(p: ProfileView, u: SettingsProfileDetailUpdate)
    ensures
        updated_profile(p, u).provider == p.provider,
        updated_profile(p, u).id == p.id,
        updated_profile(p, u).built_in == p.built_in,
        p.provider == TranslatorProvider::Google ==> updated_profile(p, u).base_url.len() == 0
            && updated_profile(p, u).model.len() == 0 && updated_profile(p, u).encrypted_api_key
            is None && updated_profile(p, u).timeout_secs == 0,
        p.provider != TranslatorProvider::Google ==> updated_profile(p, u).timeout_secs >= 1,
{
}

/// The control id of each control of the profile detail.
pub open spec fn detail_control_id(control: SettingsProfileDetailControl) -> i32 {
    match control {
        SettingsProfileDetailControl::NameInput => 3102,
        SettingsProfileDetailControl::NameLabel => 3115,
        SettingsProfileDetailControl::BaseUrlLabel => 3111,
        SettingsProfileDetailControl::BaseUrlInput => 3104,
        SettingsProfileDetailControl::ModelLabel => 3112,
        SettingsProfileDetailControl::ModelInput => 3105,
        SettingsProfileDetailControl::ApiKeyLabel => 3113,
        SettingsProfileDetailControl::ApiKeyInput => 3106,
        SettingsProfileDetailControl::TimeoutLabel => 3114,
        SettingsProfileDetailControl::TimeoutInput => 3107,
        SettingsProfileDetailControl::GoogleNotice => 3110,
    }
}

/// The control id of a control of the profile detail.
pub fn settings_profile_detail_control_id(control: SettingsProfileDetailControl) -> (r: Option<i32>)
    ensures
        r == Some(detail_control_id(control)),
{
    Some(
        match control {
            SettingsProfileDetailControl::NameInput => 3102,
            SettingsProfileDetailControl::NameLabel => 3115,
            SettingsProfileDetailControl::BaseUrlLabel => 3111,
            SettingsProfileDetailControl::BaseUrlInput => 3104,
            SettingsProfileDetailControl::ModelLabel => 3112,
            SettingsProfileDetailControl::ModelInput => 3105,
            SettingsProfileDetailControl::ApiKeyLabel => 3113,
            SettingsProfileDetailControl::ApiKeyInput => 3106,
            SettingsProfileDetailControl::TimeoutLabel => 3114,
            SettingsProfileDetailControl::TimeoutInput => 3107,
            SettingsProfileDetailControl::GoogleNotice => 3110,
        },
    )
}

/// Where a control of the detail goes in the given state: its place when
/// it shows, off the window when it is hidden.
pub fn settings_profile_detail_control_placement(state: SettingsProfileDetailControlState) -> (r: SettingsControlRect)
    ensures
        state.visible ==> r == detail_control_rect(state.control),
        !state.visible ==> r == (SettingsControlRect { x: -32000i32, y: -32000i32, width: 0, height: 0 }),
{
    if state.visible {
        settings_profile_detail_control_rect(state.control)
    } else {
        settings_profile_detail_hidden_rect()
    }
}

/// Where the button that shows the key goes: beside the key field when the
/// network fields show, off the window otherwise.
pub fn api_key_visibility_button_rect(network_fields_visible: bool) -> (r: SettingsControlRect)
    ensures
        network_fields_visible ==> r == (SettingsControlRect { x: 618, y: 234, width: 52, height: 28 }),
        !network_fields_visible ==> r == (SettingsControlRect {
            x: -32000i32,
            y: -32000i32,
            width: 0,
            height: 0,
        }),
{
    if network_fields_visible {
        SettingsControlRect { x: 618, y: 234, width: 52, height: 28 }
    } else {
        settings_profile_detail_hidden_rect()
    }
}

} // verus!
