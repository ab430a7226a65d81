//! Update checks: reading release versions and comparing them.
use crate::error::{AppError, Result};
use crate::text::{
    is_digit, join2, join3, owned, parse_unsigned, parse_unsigned_chars, split_chars, split_on,
    str_chars, string_from_chars, text_views, trim, trim_chars,
};
use vstd::prelude::*;

verus! {

/// The page of the latest release.
pub const GITHUB_LATEST_RELEASE_URL: &'static str = "https://github.com/aitsuki/ait/releases/latest";

/// The API address of the latest release.
pub const GITHUB_REPO_LATEST_API_URL: &'static str =
    "https://api.github.com/repos/aitsuki/ait/releases/latest";

/// Whether a newer release is published.
#[derive(Debug, Clone, PartialEq, Eq)]
pub enum UpdateStatus {
    UpToDate,
    UpdateAvailable { current_version: String, latest_version: String, release_url: String },
}

/// The fields of a GitHub release that the update check reads.
#[derive(Debug, Clone)]
pub struct GitHubRelease {
    pub tag_name: String,
    pub html_url: String,
    pub name: Option<String>,
}

/// A version number `major.minor.patch`.
#[derive(Debug, Clone, Copy, PartialEq, Eq, PartialOrd, Ord, Structural)]
pub struct VersionParts {
    pub major: u64,
    pub minor: u64,
    pub patch: u64,
}

/// `a` comes after `b`, comparing major, then minor, then patch.
pub open spec fn version_newer(a: VersionParts, b: VersionParts) -> bool {
    ||| a.major > b.major
    ||| a.major == b.major && a.minor > b.minor
    ||| a.major == b.major && a.minor == b.minor && a.patch > b.patch
}

/// The page of the latest release.
pub fn latest_release_url() -> (r: &'static str)
    ensures
        r@ == "https://github.com/aitsuki/ait/releases/latest"@,
{
    "https://github.com/aitsuki/ait/releases/latest"
}

/// A version text without surrounding whitespace and without one leading
/// `v`; nothing when that leaves no text.
pub open spec fn normalized_version_text(s: Seq<char>) -> Option<Seq<char>> {
    let t = trim(s);
    let n = if t.len() > 0 && t[0] == 'v' {
        t.drop_first()
    } else {
        t
    };
    if n.len() == 0 {
        None
    } else {
        Some(n)
    }
}

/// The message for an empty version.
pub open spec fn empty_version_message() -> Seq<char> {
    "版本号为空"@
}

/// The message for a version that is not `major.minor.patch`.
pub open spec fn invalid_version_message() -> Seq<char> {
    "版本号格式无效"@
}

/// How a version text is read: normalized, then exactly three numbers
/// separated by dots.
pub open spec fn parse_version_text(s: Seq<char>) -> std::result::Result<VersionParts, Seq<char>> {
    match normalized_version_text(s) {
        None => Err(empty_version_message()),
        Some(n) => {
            let pieces = split_on(n, '.');
            if pieces.len() != 3 {
                Err(invalid_version_message())
            } else {
                match (
                    parse_unsigned(pieces[0], u64::MAX as nat),
                    parse_unsigned(pieces[1], u64::MAX as nat),
                    parse_unsigned(pieces[2], u64::MAX as nat),
                ) {
                    (Some(a), Some(b), Some(c)) => Ok(
                        VersionParts { major: a as u64, minor: b as u64, patch: c as u64 },
                    ),
                    _ => Err(invalid_version_message()),
                }
            }
        },
    }
}

/// Strips surrounding whitespace and one leading `v` from a version.
pub fn normalize_version(version: &str) -> (r: Result<String>)
    ensures
        match normalized_version_text(version@) {
            Some(n) => r matches Ok(s) && s@ == n,
            None => r matches Err(e) && e matches AppError::Config(m) && m@
                == empty_version_message(),
        },
{
    let chars = str_chars(version);
    let t = trim_chars(&chars);
    let mut n: Vec<char> = Vec::new();
    let start: usize = if t.len() > 0 && t[0] == 'v' { 1 } else { 0 };
    let mut i = start;
    while i < t.len()
        invariant
            start <= i <= t.len(),
            n@ == t@.subrange(start as int, i as int),
        decreases t.len() - i,
    {
        n.push(t[i]);
        i = i + 1;
        assert(n@ == t@.subrange(start as int, i as int));
    }
    assert(start == 1 ==> n@ == t@.drop_first());
    assert(start == 0 ==> n@ == t@);
    if n.len() == 0 {
        return Err(AppError::Config(owned("版本号为空")));
    }
    Ok(string_from_chars(&n))
}

/// Reads `major.minor.patch`, after normalizing the text.
pub fn parse_version(version: &str) -> (r: Result<VersionParts>)
    ensures
        match parse_version_text(version@) {
            Ok(v) => r == Ok::<VersionParts, AppError>(v),
            Err(m) => r matches Err(e) && e matches AppError::Config(x) && x@ == m,
        },
{
    let normalized = normalize_version(version)?;
    let chars = str_chars(normalized.as_str());
    let pieces = split_chars(&chars, '.');
    if pieces.len() != 3 {
        return Err(AppError::Config(owned("版本号格式无效")));
    }
    let ghost views = text_views(pieces@);
    assert(views[0] == pieces@[0]@);
    assert(views[1] == pieces@[1]@);
    assert(views[2] == pieces@[2]@);
    let major = parse_unsigned_chars(&pieces[0], u64::MAX);
    let minor = parse_unsigned_chars(&pieces[1], u64::MAX);
    let patch = parse_unsigned_chars(&pieces[2], u64::MAX);
    match (major, minor, patch) {
        (Some(a), Some(b), Some(c)) => Ok(VersionParts { major: a, minor: b, patch: c }),
        _ => Err(AppError::Config(owned("版本号格式无效"))),
    }
}

/// `a` comes after `b`.
pub fn is_newer_version(a: VersionParts, b: VersionParts) -> (r: bool)
    ensures
        r == version_newer(a, b),
{
    a.major > b.major || (a.major == b.major && a.minor > b.minor) || (a.major == b.major
        && a.minor == b.minor && a.patch > b.patch)
}

/// Compares the running version with the latest published one.
pub fn update_status_from_versions(current_version: &str, latest_version: &str) -> (r: Result<UpdateStatus>)
    ensures
        match (parse_version_text(current_version@), parse_version_text(latest_version@)) {
            (Err(m), _) => r matches Err(e) && e matches AppError::Config(x) && x@ == m,
            (Ok(_), Err(m)) => r matches Err(e) && e matches AppError::Config(x) && x@ == m,
            (Ok(c), Ok(l)) => if version_newer(l, c) {
                r matches Ok(UpdateStatus::UpdateAvailable { current_version: cv, latest_version: lv, release_url: u })
                    && cv@ == trim(current_version@) && lv@ == trim(latest_version@)
                    && u@ == "https://github.com/aitsuki/ait/releases/latest"@
            } else {
                r matches Ok(UpdateStatus::UpToDate)
            },
        },
{
    let current = parse_version(current_version)?;
    let latest = parse_version(latest_version)?;
    if current == latest {
        Ok(UpdateStatus::UpToDate)
    } else if is_newer_version(latest, current) {
        let cv = str_chars(current_version);
        let lv = str_chars(latest_version);
        Ok(UpdateStatus::UpdateAvailable {
            current_version: string_from_chars(&trim_chars(&cv)),
            latest_version: string_from_chars(&trim_chars(&lv)),
            release_url: owned(latest_release_url()),
        })
    } else {
        Ok(UpdateStatus::UpToDate)
    }
}

/// The message shown after an update check.
pub open spec fn update_status_message_text(current: Seq<char>, status: UpdateStatus) -> Seq<char> {
    match status {
        UpdateStatus::UpToDate => "当前版本 "@ + current + " 已是最新版本。"@,
        UpdateStatus::UpdateAvailable { latest_version, release_url, .. } => "发现新版本 "@
            + latest_version@ + "，当前版本 "@ + current + "。打开最新 Release："@ + release_url@,
    }
}

/// The message shown after an update check.
pub fn update_status_message(current_version: &str, status: &UpdateStatus) -> (r: String)
    ensures
        r@ == update_status_message_text(current_version@, *status),
{
    match status {
        UpdateStatus::UpToDate => join3("当前版本 ", current_version, " 已是最新版本。"),
        UpdateStatus::UpdateAvailable { latest_version, release_url, .. } => {
            let mut s = join3("发现新版本 ", latest_version.as_str(), "，当前版本 ");
            s.append(current_version);
            s.append("。打开最新 Release：");
            s.append(release_url.as_str());
            s
        },
    }
}

/// A version compared with itself is up to date.
pub proof fn law_same_version_is_up_to_date(v: Seq<char>)
    ensures
        parse_version_text(v) matches Ok(p) ==> !version_newer(p, p),
{
}

/// Of two versions, at most one is newer than the other, and one of them is
/// unless they are equal.
pub proof fn law_version_order_is_total(a: VersionParts, b: VersionParts)
    ensures
        !(version_newer(a, b) && version_newer(b, a)),
        a != b ==> version_newer(a, b) || version_newer(b, a),
{
}

/// The place of a version in the order of releases: major first, then
/// minor, then patch, each part below 2^64.
pub open spec fn version_rank(v: VersionParts) -> int {
    v.major * 0x1_0000_0000_0000_0000_0000_0000_0000_0000 + v.minor * 0x1_0000_0000_0000_0000
        + v.patch
}

/// Versions are ordered by (major, minor, patch) as numbers: a version is
/// newer exactly when its rank is larger, so a larger minor wins whatever
/// the patches are (0.3.0 is newer than 0.2.5), and the patch decides only
/// between equal majors and minors.
pub proof fn law_versions_ordered_by_major_minor_patch(a: VersionParts, b: VersionParts)
    ensures
        version_newer(a, b) <==> version_rank(a) > version_rank(b),
        a.major == b.major && a.minor > b.minor ==> version_newer(a, b),
        a.major > b.major ==> version_newer(a, b),
        a.major == b.major && a.minor == b.minor ==> (version_newer(a, b) <==> a.patch > b.patch),
{
    assert(a.minor * 0x1_0000_0000_0000_0000 + a.patch < 0x1_0000_0000_0000_0000_0000_0000_0000_0000)
        by (nonlinear_arith);
    assert(b.minor * 0x1_0000_0000_0000_0000 + b.patch < 0x1_0000_0000_0000_0000_0000_0000_0000_0000)
        by (nonlinear_arith);
    if a.major > b.major {
        assert(a.major * 0x1_0000_0000_0000_0000_0000_0000_0000_0000 >= (b.major + 1)
            * 0x1_0000_0000_0000_0000_0000_0000_0000_0000) by (nonlinear_arith)
            requires
                a.major > b.major,
        ;
    } else if a.major < b.major {
        assert(b.major * 0x1_0000_0000_0000_0000_0000_0000_0000_0000 >= (a.major + 1)
            * 0x1_0000_0000_0000_0000_0000_0000_0000_0000) by (nonlinear_arith)
            requires
                a.major < b.major,
        ;
    } else {
        if a.minor > b.minor {
            assert(a.minor * 0x1_0000_0000_0000_0000 >= (b.minor + 1) * 0x1_0000_0000_0000_0000)
                by (nonlinear_arith)
                requires
                    a.minor > b.minor,
            ;
        } else if a.minor < b.minor {
            assert(b.minor * 0x1_0000_0000_0000_0000 >= (a.minor + 1) * 0x1_0000_0000_0000_0000)
                by (nonlinear_arith)
                requires
                    a.minor < b.minor,
            ;
        }
    }
}

/// The address of the GitHub API used when none is given.
pub const GITHUB_API_BASE_URL: &'static str = "https://api.github.com";

/// The address of the latest release of the project under the API at
/// `base_url`.
pub open spec fn release_api_url_text(base_url: Seq<char>) -> Seq<char> {
    crate::translator::trim_end_char(base_url, '/') + "/repos/aitsuki/ait/releases/latest"@
}

/// The address of the latest release of the project under the API at
/// `base_url` (without its trailing slashes).
pub fn release_api_url(base_url: &str) -> (r: String)
    ensures
        r@ == release_api_url_text(base_url@),
{
    let base = crate::translator::trim_end_slashes(base_url);
    join2(base.as_str(), "/repos/aitsuki/ait/releases/latest")
}

/// What an answer of the release API with the given status means: access
/// denied, another failure named with its status, or no error.
pub open spec fn release_status_outcome(status: u16) -> Option<Seq<char>> {
    if status == 403 {
        Some("GitHub Releases 访问被拒绝"@)
    } else if !crate::translator::is_success_status(status) {
        Some("获取最新版本失败，状态码: "@ + crate::translator::status_line(
            status,
            crate::translator::status_reason(status),
        ))
    } else {
        None
    }
}

/// The network error for an answer of the release API with the given
/// status, if it is one (see `release_status_outcome`).
pub fn release_status_error(status: u16) -> (r: Option<AppError>)
    requires
        100 <= status <= 999,
    ensures
        match release_status_outcome(status) {
            Some(m) => r matches Some(e) && e matches AppError::Network(t) && t@ == m,
            None => r is None,
        },
{
    if status == 403 {
        Some(AppError::Network(owned("GitHub Releases 访问被拒绝")))
    } else if status < 200 || status > 299 {
        let line = crate::translator::status_text(status);
        Some(AppError::Network(join2("获取最新版本失败，状态码: ", line.as_str())))
    } else {
        None
    }
}

/// Whether the release found is newer than the running version (see
/// `update_status_from_versions`, with the release's tag).
pub fn update_status_from_release(current_version: &str, release: &GitHubRelease) -> (r: Result<UpdateStatus>)
    ensures
        match (parse_version_text(current_version@), parse_version_text(release.tag_name@)) {
            (Err(m), _) => r matches Err(e) && e matches AppError::Config(x) && x@ == m,
            (Ok(_), Err(m)) => r matches Err(e) && e matches AppError::Config(x) && x@ == m,
            (Ok(c), Ok(l)) => if version_newer(l, c) {
                r matches Ok(UpdateStatus::UpdateAvailable { current_version: cv, latest_version: lv, release_url: u })
                    && cv@ == trim(current_version@) && lv@ == trim(release.tag_name@)
                    && u@ == "https://github.com/aitsuki/ait/releases/latest"@
            } else {
                r matches Ok(UpdateStatus::UpToDate)
            },
        },
{
    update_status_from_versions(current_version, release.tag_name.as_str())
}

} // verus!
