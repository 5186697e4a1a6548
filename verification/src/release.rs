//! Fetching client builds from the project's releases: which release asset
//! is a platform's template, the names and settings a fetch writes, and how
//! each platform's outcome is reported to the admin. The HTTP requests and
//! file writes are the caller's.

use vstd::prelude::*;
use crate::accounts::ApiError;
use crate::api::{is_error, STATUS_BAD_GATEWAY};
use crate::text::{concat2, push_str, str_eq, to_owned};

verus! {

/// The repository whose releases carry the client builds.
pub const RELEASE_REPO: &'static str = "deranjer/visuara";

/// The releases API address of the latest release of `repo`.
pub fn latest_release_url(repo: &str) -> (r: String)
    ensures
        r@ == "https://api.github.com/repos/"@ + repo@ + "/releases/latest"@,
{
    let mut r = to_owned("https://api.github.com/repos/");
    push_str(&mut r, repo);
    push_str(&mut r, "/releases/latest");
    r
}

/// One downloadable file of a release.
#[derive(Debug, Clone)]
pub struct ReleaseAsset {
    pub name: String,
    pub browser_download_url: String,
}

/// The position of the first asset named `file_name`, if any.
pub fn find_asset(assets: &Vec<ReleaseAsset>, file_name: &str) -> (r: Option<usize>)
    ensures
        match r {
            Some(i) => i < assets@.len() && assets@[i as int].name@ == file_name@
                && forall|j: int| 0 <= j < i ==> #[trigger] assets@[j].name@ != file_name@,
            None => forall|j: int| 0 <= j < assets@.len() ==> #[trigger] assets@[j].name@ != file_name@,
        },
{
    let mut i: usize = 0;
    while i < assets.len()
        invariant
            i <= assets@.len(),
            forall|j: int| 0 <= j < i ==> #[trigger] assets@[j].name@ != file_name@,
        decreases assets@.len() - i,
    {
        if str_eq(assets[i].name.as_str(), file_name) {
            return Some(i);
        }
        i = i + 1;
    }
    None
}

/// Why a platform could not be fetched: the release has no asset for it.
pub fn missing_asset_message(file_name: &str, tag: &str) -> (r: String)
    ensures
        r@ == "no asset named "@ + file_name@ + " in release "@ + tag@,
{
    let mut r = to_owned("no asset named ");
    push_str(&mut r, file_name);
    push_str(&mut r, " in release ");
    push_str(&mut r, tag);
    r
}

/// The file a download is written to before it is renamed into place.
pub fn temporary_file_name(file_name: &str) -> (r: String)
    ensures
        r@ == file_name@ + ".tmp"@,
{
    concat2(file_name, ".tmp")
}

/// The setting that records a platform's fetched version.
pub fn version_setting_key(platform_key: &str) -> (r: String)
    ensures
        r@ == "client_version_"@ + platform_key@,
{
    concat2("client_version_", platform_key)
}

/// The setting that records when a platform's build was fetched.
pub fn fetched_at_setting_key(platform_key: &str) -> (r: String)
    ensures
        r@ == "client_fetched_at_"@ + platform_key@,
{
    concat2("client_fetched_at_", platform_key)
}

/// One platform's fetch outcome: the release tag fetched, or the error.
#[derive(Debug)]
pub struct FetchResult {
    pub platform_key: &'static str,
    pub outcome: Result<String, String>,
}

/// One platform's fetch outcome, as the admin sees it.
#[derive(Debug, Clone)]
pub struct FetchReleaseResult {
    pub platform: &'static str,
    pub version: Option<String>,
    pub error: Option<String>,
}

/// The admin's view of a fetch outcome.
pub open spec fn result_view(r: FetchResult) -> FetchReleaseResult {
    match r.outcome {
        Ok(v) => FetchReleaseResult { platform: r.platform_key, version: Some(v), error: None },
        Err(e) => FetchReleaseResult { platform: r.platform_key, version: None, error: Some(e) },
    }
}

/// The admin's view of the fetch outcomes, in order.
pub fn fetch_release_results(results: Vec<FetchResult>) -> (r: Vec<FetchReleaseResult>)
    ensures
        r@.len() == results@.len(),
        forall|i: int| 0 <= i < results@.len() ==> #[trigger] r@[i] == result_view(results@[i]),
{
    let mut r: Vec<FetchReleaseResult> = Vec::new();
    let mut i: usize = 0;
    while i < results.len()
        invariant
            i <= results@.len(),
            r@.len() == i,
            forall|k: int| 0 <= k < i ==> #[trigger] r@[k] == result_view(results@[k]),
        decreases results@.len() - i,
    {
        let res = &results[i];
        let v = match &res.outcome {
            Ok(v) => FetchReleaseResult { platform: res.platform_key, version: Some(v.clone()), error: None },
            Err(e) => FetchReleaseResult { platform: res.platform_key, version: None, error: Some(e.clone()) },
        };
        r.push(v);
        i = i + 1;
    }
    r
}

/// The release listing itself could not be fetched: 502.
pub fn release_check_error(message: &str) -> (e: ApiError)
    ensures
        is_error(e, STATUS_BAD_GATEWAY, "failed to check GitHub releases: "@ + message@),
{
    ApiError { status: STATUS_BAD_GATEWAY, message: concat2("failed to check GitHub releases: ", message) }
}

} // verus!
