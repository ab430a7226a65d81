//! The diagnostic summary that the user can copy into a bug report.
use crate::config::{
    default_profile_index, has_profile, lemma_profile_position, profile_position, provider_log_name,
    AppSettings, SettingsView,
};
use crate::text::{join2, join3, owned};
use vstd::prelude::*;

verus! {

/// What a bug report needs to know of the installation: never a key nor a
/// text that was translated.
#[derive(Debug, Clone, PartialEq, Eq)]
pub struct DiagnosticInfo {
    pub app_version: String,
    pub os: String,
    pub config_dir: String,
    pub log_dir: String,
    pub default_profile: String,
    pub default_provider: String,
    pub hotkey: String,
    pub auto_start: String,
}

/// How the auto-start state is reported.
pub open spec fn auto_start_text(auto_start: std::result::Result<bool, String>) -> Seq<char> {
    match auto_start {
        Ok(true) => "开启"@,
        Ok(false) => "关闭"@,
        Err(_) => "读取失败"@,
    }
}

/// The summary as it is copied: one line per item, under a title.
pub open spec fn clipboard_text(d: DiagnosticInfo) -> Seq<char> {
    "ait 诊断信息\n版本: "@ + d.app_version@ + "\n操作系统: "@ + d.os@ + "\n配置目录: "@
        + d.config_dir@ + "\n日志目录: "@ + d.log_dir@ + "\n默认翻译配置: "@ + d.default_profile@
        + " ("@ + d.default_provider@ + ")\n快捷键: "@ + d.hotkey@ + "\n开机自启: "@ + d.auto_start@
}

impl DiagnosticInfo {
    /// The summary for the given settings, directories and auto-start state:
    /// the default profile's name and provider, the hotkey, and the
    /// auto-start state as on, off or unreadable.
    pub fn from_parts(
        settings: &AppSettings,
        config_dir: String,
        log_dir: String,
        auto_start: std::result::Result<bool, String>,
    ) -> (d: DiagnosticInfo)
        requires
            settings@.translator_profiles.len() > 0,
        ensures
            d.app_version@ == "ait v0.1.6"@,
            d.os@ == "Windows"@,
            d.config_dir == config_dir,
            d.log_dir == log_dir,
            d.default_profile@ == settings@.translator_profiles[default_profile_index(
                settings@,
            )->0].name,
            d.default_provider@ == provider_log_name(
                settings@.translator_profiles[default_profile_index(settings@)->0].provider,
            ),
            d.hotkey@ == settings@.hotkey,
            d.auto_start@ == auto_start_text(auto_start),
    {
        proof {
            crate::config::lemma_profile_position(
                settings@.translator_profiles,
                settings@.default_profile_id,
            );
        }
        let profile = match settings.default_profile() {
            Ok(p) => p,
            Err(_) => &settings.translator_profiles[0],
        };
        let ghost k = default_profile_index(settings@)->0;
        assert(settings@.translator_profiles[k] == settings.translator_profiles@[k]@);
        DiagnosticInfo {
            app_version: owned("ait v0.1.6"),
            os: owned("Windows"),
            config_dir,
            log_dir,
            default_profile: profile.name.clone(),
            default_provider: owned(profile.provider.as_log_name()),
            hotkey: settings.hotkey.clone(),
            auto_start: match auto_start {
                Ok(true) => owned("开启"),
                Ok(false) => owned("关闭"),
                Err(_) => owned("读取失败"),
            },
        }
    }

    /// The summary as it is copied (see `clipboard_text`).
    pub fn to_clipboard_text(&self) -> (r: String)
        ensures
            r@ == clipboard_text(*self),
    {
        let mut s = join3("ait 诊断信息\n版本: ", self.app_version.as_str(), "\n操作系统: ");
        s.append(self.os.as_str());
        s.append("\n配置目录: ");
        s.append(self.config_dir.as_str());
        s.append("\n日志目录: ");
        s.append(self.log_dir.as_str());
        s.append("\n默认翻译配置: ");
        s.append(self.default_profile.as_str());
        s.append(" (");
        s.append(self.default_provider.as_str());
        s.append(")\n快捷键: ");
        s.append(self.hotkey.as_str());
        s.append("\n开机自启: ");
        s.append(self.auto_start.as_str());
        s
    }
}

/// `a` and `b` differ at most in what the summary leaves out: the keys,
/// addresses, models and timeouts of their profiles, and the settings that
/// it does not show.
pub open spec fn same_but_secrets(a: SettingsView, b: SettingsView) -> bool {
    &&& a.translator_profiles.len() == b.translator_profiles.len()
    &&& forall|i: int|
        0 <= i < a.translator_profiles.len() ==> {
            &&& (#[trigger] a.translator_profiles[i]).id == b.translator_profiles[i].id
            &&& a.translator_profiles[i].name == b.translator_profiles[i].name
            &&& a.translator_profiles[i].provider == b.translator_profiles[i].provider
        }
    &&& a.default_profile_id == b.default_profile_id
    &&& a.hotkey == b.hotkey
}

/// The summary never depends on a key, an address, a model or a timeout:
/// for settings that differ only in those, it names the same default
/// profile with the same name and provider, and the same hotkey.
pub proof fn law_diagnostics_ignore_secrets(a: SettingsView, b: SettingsView)
    requires
        same_but_secrets(a, b),
    ensures
        default_profile_index(a) == default_profile_index(b),
        default_profile_index(a) matches Some(k) ==> a.translator_profiles[k].name
            == b.translator_profiles[k].name && provider_log_name(a.translator_profiles[k].provider)
            == provider_log_name(b.translator_profiles[k].provider),
        a.hotkey == b.hotkey,
{
    let pa = a.translator_profiles;
    let pb = b.translator_profiles;
    let id = a.default_profile_id;
    lemma_profile_position(pa, id);
    lemma_profile_position(pb, id);
    match profile_position(pa, id) {
        Some(i) => {
            assert(pb[i].id == id);
            match profile_position(pb, id) {
                Some(j) => {
                    if j < i {
                        assert(pa[j].id == pb[j].id);
                    }
                    if i < j {
                        assert(pb[i].id == pa[i].id);
                    }
                },
                None => {
                    assert(has_profile(pb, id));
                },
            }
        },
        None => {
            match profile_position(pb, id) {
                Some(j) => {
                    assert(pa[j].id == pb[j].id);
                    assert(has_profile(pa, id));
                },
                None => {},
            }
        },
    }
}

} // verus!
