//! The client platforms the server offers for download, and where a
//! platform's template binary is found: a file the operator placed in the
//! manual templates directory (always preferred), or one fetched from the
//! project's releases into the fetched templates directory.

use vstd::prelude::*;
use crate::paths::{joined_path, path_exists, path_join};
use crate::text::{contains, str_contains, str_eq};

verus! {

/// One downloadable client platform.
#[derive(Debug, Clone, Copy)]
pub struct PlatformInfo {
    /// The platform's key in URLs and settings.
    pub key: &'static str,
    /// The template binary's file name in the templates directories.
    pub template_filename: &'static str,
    /// The file name offered to the browser.
    pub download_filename: &'static str,
    pub content_type: &'static str,
}

/// The key of the Windows build.
pub open spec fn windows_key() -> Seq<char> {
    seq!['w', 'i', 'n', 'd', 'o', 'w', 's', '-', 'x', '8', '6', '_', '6', '4']
}

/// The key of the Linux build.
pub open spec fn linux_key() -> Seq<char> {
    seq!['l', 'i', 'n', 'u', 'x', '-', 'x', '8', '6', '_', '6', '4']
}

/// `p` describes the Windows build.
pub open spec fn is_windows_platform(p: PlatformInfo) -> bool {
    &&& p.key@ == windows_key()
    &&& p.template_filename@ == "windows-x86_64.exe"@
    &&& p.download_filename@ == "visuara.exe"@
    &&& p.content_type@ == "application/vnd.microsoft.portable-executable"@
}

/// `p` describes the Linux build.
pub open spec fn is_linux_platform(p: PlatformInfo) -> bool {
    &&& p.key@ == linux_key()
    &&& p.template_filename@ == "linux-x86_64"@
    &&& p.download_filename@ == "visuara"@
    &&& p.content_type@ == "application/octet-stream"@
}

/// `ps` is the platform table: Windows, then Linux.
pub open spec fn is_platform_table(ps: Seq<PlatformInfo>) -> bool {
    ps.len() == 2 && is_windows_platform(ps[0]) && is_linux_platform(ps[1])
}

/// The platforms offered for download, in display order.
pub fn platforms() -> (r: Vec<PlatformInfo>)
    ensures
        is_platform_table(r@),
{
    let windows = PlatformInfo {
        key: "windows-x86_64",
        template_filename: "windows-x86_64.exe",
        download_filename: "visuara.exe",
        content_type: "application/vnd.microsoft.portable-executable",
    };
    let linux = PlatformInfo {
        key: "linux-x86_64",
        template_filename: "linux-x86_64",
        download_filename: "visuara",
        content_type: "application/octet-stream",
    };
    proof {
        reveal_strlit("windows-x86_64");
        reveal_strlit("linux-x86_64");
        assert(windows.key@ =~= windows_key());
        assert(linux.key@ =~= linux_key());
    }
    vec![windows, linux]
}

/// The platform with key `key`, if one is offered.
pub fn find_platform(key: &str) -> (r: Option<PlatformInfo>)
    ensures
        match r {
            Some(p) => (is_windows_platform(p) || is_linux_platform(p)) && p.key@ == key@,
            None => key@ != windows_key() && key@ != linux_key(),
        },
{
    let all = platforms();
    let mut i: usize = 0;
    while i < all.len()
        invariant
            is_platform_table(all@),
            i <= all@.len(),
            forall|j: int| 0 <= j < i ==> all@[j].key@ != key@,
        decreases all@.len() - i,
    {
        if str_eq(all[i].key, key) {
            return Some(all[i]);
        }
        i = i + 1;
    }
    None
}

/// Where a platform's template binary was found.
#[derive(Debug, Clone, Copy, PartialEq, Eq, Structural)]
pub enum TemplateSource {
    /// Placed by the operator.
    Manual,
    /// Fetched from the project's releases.
    Fetched,
}

/// Which template to use, given whether the manual and the fetched one are
/// on disk: the manual one always wins.
pub open spec fn spec_template_choice(manual_exists: bool, fetched_exists: bool) -> Option<TemplateSource> {
    if manual_exists {
        Some(TemplateSource::Manual)
    } else if fetched_exists {
        Some(TemplateSource::Fetched)
    } else {
        None
    }
}

/// Which template to use, given whether the manual and the fetched one are
/// on disk: the manual one always wins.
pub fn template_choice(manual_exists: bool, fetched_exists: bool) -> (r: Option<TemplateSource>)
    ensures
        r == spec_template_choice(manual_exists, fetched_exists),
{
    if manual_exists {
        Some(TemplateSource::Manual)
    } else if fetched_exists {
        Some(TemplateSource::Fetched)
    } else {
        None
    }
}

/// The template to serve for `info`, as path and source, given whether the
/// manual template (in `client_dir`) and the fetched one (in `fetched_dir`)
/// are on disk.
pub open spec fn template_path_choice(
    file_name: Seq<char>,
    client_dir: Seq<char>,
    fetched_dir: Seq<char>,
    manual_exists: bool,
    fetched_exists: bool,
) -> Option<(Seq<char>, TemplateSource)> {
    match spec_template_choice(manual_exists, fetched_exists) {
        Some(TemplateSource::Manual) => Some((joined_path(client_dir, file_name), TemplateSource::Manual)),
        Some(TemplateSource::Fetched) => Some((joined_path(fetched_dir, file_name), TemplateSource::Fetched)),
        None => None,
    }
}

/// The text view of a found template.
pub open spec fn found_view(r: Option<(String, TemplateSource)>) -> Option<(Seq<char>, TemplateSource)> {
    match r {
        Some((p, s)) => Some((p@, s)),
        None => None,
    }
}

/// The template to serve for `info`, given whether the manual and the
/// fetched template are on disk: the manual one wins, then the fetched one.
pub fn choose_template_path(
    info: &PlatformInfo,
    client_templates_dir: &str,
    fetched_templates_dir: &str,
    manual_exists: bool,
    fetched_exists: bool,
) -> (r: Option<(String, TemplateSource)>)
    ensures
        found_view(r) == template_path_choice(
            info.template_filename@,
            client_templates_dir@,
            fetched_templates_dir@,
            manual_exists,
            fetched_exists,
        ),
{
    match template_choice(manual_exists, fetched_exists) {
        Some(TemplateSource::Manual) => Some((path_join(client_templates_dir, info.template_filename), TemplateSource::Manual)),
        Some(TemplateSource::Fetched) => Some((path_join(fetched_templates_dir, info.template_filename), TemplateSource::Fetched)),
        None => None,
    }
}

/// Finds the template binary for `info`: the manual one in
/// `client_templates_dir` if it is on disk, else the fetched one in
/// `fetched_templates_dir` if that is, else none. The disk is probed in that
/// order; `choose_template_path` decides on the answers.
pub fn resolve_template_path(info: &PlatformInfo, client_templates_dir: &str, fetched_templates_dir: &str) -> (r: Option<(String, TemplateSource)>)
    ensures
        exists|manual_exists: bool, fetched_exists: bool|
            found_view(r) == #[trigger] template_path_choice(
                info.template_filename@,
                client_templates_dir@,
                fetched_templates_dir@,
                manual_exists,
                fetched_exists,
            ),
        match r {
            Some((p, TemplateSource::Manual)) => p@ == joined_path(client_templates_dir@, info.template_filename@),
            Some((p, TemplateSource::Fetched)) => p@ == joined_path(fetched_templates_dir@, info.template_filename@),
            None => true,
        },
{
    let manual = path_join(client_templates_dir, info.template_filename);
    let manual_exists = path_exists(manual.as_str());
    let fetched_exists = if manual_exists {
        false
    } else {
        let fetched = path_join(fetched_templates_dir, info.template_filename);
        path_exists(fetched.as_str())
    };
    choose_template_path(info, client_templates_dir, fetched_templates_dir, manual_exists, fetched_exists)
}

/// The platform a browser's User-Agent suggests: Windows, or Linux that is
/// not Android. Only used to order the download list.
pub open spec fn spec_detect_platform(ua: Seq<char>) -> Option<Seq<char>> {
    if contains(ua, "Windows"@) {
        Some(windows_key())
    } else if contains(ua, "Linux"@) && !contains(ua, "Android"@) {
        Some(linux_key())
    } else {
        None
    }
}

/// The platform a request's User-Agent header (if any, and readable)
/// suggests.
pub fn detect_platform(user_agent: Option<&str>) -> (r: Option<&'static str>)
    ensures
        match user_agent {
            None => r is None,
            Some(ua) => match (r, spec_detect_platform(ua@)) {
                (Some(k), Some(want)) => k@ == want,
                (None, None) => true,
                _ => false,
            },
        },
{
    let ua = match user_agent {
        None => return None,
        Some(ua) => ua,
    };
    proof {
        reveal_strlit("windows-x86_64");
        reveal_strlit("linux-x86_64");
        assert("windows-x86_64"@ =~= windows_key());
        assert("linux-x86_64"@ =~= linux_key());
    }
    if str_contains(ua, "Windows") {
        Some("windows-x86_64")
    } else if str_contains(ua, "Linux") && !str_contains(ua, "Android") {
        Some("linux-x86_64")
    } else {
        None
    }
}

/// The `Content-Disposition` of a download: an attachment under the
/// platform's download file name.
pub fn content_disposition(info: &PlatformInfo) -> (r: String)
    ensures
        r@ == "attachment; filename=\""@ + info.download_filename@ + "\""@,
{
    let mut r = String::from_str("attachment; filename=\"");
    r.append(info.download_filename);
    r.append("\"");
    r
}

/// Why a download could not be served.
#[derive(Debug, Clone, PartialEq, Eq)]
pub enum DownloadFailure {
    /// No platform has that key (404).
    UnknownPlatform,
    /// The platform's template is not on disk or could not be read (404).
    NoBuild,
    /// The template could not be patched (500), with the reason.
    PatchFailed(String),
}

impl DownloadFailure {
    /// The HTTP status of the failure.
    pub open spec fn spec_status(&self) -> u16 {
        match self {
            DownloadFailure::PatchFailed(_) => 500,
            _ => 404,
        }
    }

    /// The HTTP status of the failure.
    pub fn status(&self) -> (r: u16)
        ensures
            r == self.spec_status(),
    {
        match self {
            DownloadFailure::PatchFailed(_) => 500,
            _ => 404,
        }
    }

    /// The response text of the failure.
    pub open spec fn spec_message(&self) -> Seq<char> {
        match self {
            DownloadFailure::UnknownPlatform => "unknown platform"@,
            DownloadFailure::NoBuild => "no build uploaded for this platform yet"@,
            DownloadFailure::PatchFailed(e) => "failed to patch client binary: "@ + e@,
        }
    }

    /// The response text of the failure.
    pub fn message(&self) -> (r: String)
        ensures
            r@ == self.spec_message(),
    {
        match self {
            DownloadFailure::UnknownPlatform => String::from_str("unknown platform"),
            DownloadFailure::NoBuild => String::from_str("no build uploaded for this platform yet"),
            DownloadFailure::PatchFailed(e) => {
                let mut r = String::from_str("failed to patch client binary: ");
                r.append(e.as_str());
                r
            },
        }
    }
}

} // verus!
