//! What the server says about its client builds: the public download list
//! (recommended platform first) and the admin's per-platform build status,
//! with its "3h ago" style ages.

use vstd::prelude::*;
use crate::platforms::TemplateSource;
use crate::text::{decimal, parse_i64, push_decimal, push_str, spec_parse_i64, str_eq, to_owned};
use crate::turn::unix_now;

verus! {

/// How long ago `delta` seconds is, in the largest whole unit: "just now"
/// under a minute, then minutes, hours, days.
pub open spec fn relative_label(delta: int) -> Seq<char> {
    if delta < 60 {
        "just now"@
    } else if delta < 3600 {
        decimal((delta / 60) as nat) + "m ago"@
    } else if delta < 86400 {
        decimal((delta / 3600) as nat) + "h ago"@
    } else {
        decimal((delta / 86400) as nat) + "d ago"@
    }
}

/// Seconds from `ts` to the clock reading `now` (the seconds since the
/// epoch, as a signed number), never negative; no reading counts as `ts`
/// itself.
pub open spec fn clock_delta(now: Option<u64>, ts: i64) -> int {
    let n: int = match now {
        Some(n) => (n as i64) as int,
        None => ts as int,
    };
    if n - ts > 0 {
        n - ts
    } else {
        0
    }
}

/// The age of timestamp `unix_secs` at clock reading `now`.
pub fn relative_time_at(now: Option<u64>, unix_secs: i64) -> (r: String)
    ensures
        r@ == relative_label(clock_delta(now, unix_secs)),
{
    let n: i128 = match now {
        Some(n) => {
            #[verifier::truncate]
            let signed = n as i64;
            signed as i128
        },
        None => unix_secs as i128,
    };
    let d: i128 = n - unix_secs as i128;
    let delta: i128 = if d > 0 {
        d
    } else {
        0
    };
    assert(delta == clock_delta(now, unix_secs));
    if delta < 60 {
        to_owned("just now")
    } else if delta < 3600 {
        let mut r = String::new();
        push_decimal(&mut r, (delta / 60) as u64);
        push_str(&mut r, "m ago");
        r
    } else if delta < 86400 {
        let mut r = String::new();
        push_decimal(&mut r, (delta / 3600) as u64);
        push_str(&mut r, "h ago");
        r
    } else {
        let mut r = String::new();
        push_decimal(&mut r, (delta / 86400) as u64);
        push_str(&mut r, "d ago");
        r
    }
}

/// The age of timestamp `unix_secs` now, by the system clock.
pub fn relative_time(unix_secs: i64) -> (r: String)
    ensures
        exists|now: Option<u64>| r@ == #[trigger] relative_label(clock_delta(now, unix_secs)),
{
    let now = unix_now();
    relative_time_at(now, unix_secs)
}

/// What is known of one platform's client build: where its template was
/// found, and for a fetched one the stored version and fetch time.
#[derive(Debug, Clone)]
pub struct PlatformBuild {
    pub platform: &'static str,
    pub source: Option<TemplateSource>,
    pub version: Option<String>,
    /// The stored fetch time, as text (seconds since the epoch).
    pub fetched_at: Option<String>,
}

/// A copy of an optional string.
fn copy_opt(o: &Option<String>) -> (r: Option<String>)
    ensures
        r == *o,
{
    match o {
        Some(s) => Some(s.clone()),
        None => None,
    }
}

/// A copy of a build record.
fn copy_build(b: &PlatformBuild) -> (r: PlatformBuild)
    ensures
        r == *b,
{
    PlatformBuild { platform: b.platform, source: b.source, version: copy_opt(&b.version), fetched_at: copy_opt(&b.fetched_at) }
}

/// A stored fetch time, if present and a number.
pub open spec fn fetch_time(b: PlatformBuild) -> Option<i64> {
    match b.fetched_at {
        Some(t) => spec_parse_i64(t@),
        None => None,
    }
}

fn parse_fetch_time(b: &PlatformBuild) -> (r: Option<i64>)
    ensures
        r == fetch_time(*b),
{
    match &b.fetched_at {
        Some(t) => parse_i64(t.as_str()),
        None => None,
    }
}

/// The admin's status line for a build at clock reading `now`.
pub open spec fn build_status(b: PlatformBuild, now: Option<u64>) -> Seq<char> {
    match b.source {
        Some(TemplateSource::Manual) => "manual override"@,
        Some(TemplateSource::Fetched) => {
            let v = match b.version {
                Some(v) => v@,
                None => "unknown"@,
            };
            match fetch_time(b) {
                Some(ts) => "fetched: "@ + v + " ("@ + relative_label(clock_delta(now, ts)) + ")"@,
                None => "fetched: "@ + v,
            }
        },
        None => "not available"@,
    }
}

/// The admin's status line for a build at clock reading `now`.
pub fn build_status_at(b: &PlatformBuild, now: Option<u64>) -> (r: String)
    ensures
        r@ == build_status(*b, now),
{
    match b.source {
        Some(TemplateSource::Manual) => to_owned("manual override"),
        Some(TemplateSource::Fetched) => {
            let mut r = to_owned("fetched: ");
            match &b.version {
                Some(v) => push_str(&mut r, v.as_str()),
                None => push_str(&mut r, "unknown"),
            }
            match parse_fetch_time(b) {
                Some(ts) => {
                    push_str(&mut r, " (");
                    let age = relative_time_at(now, ts);
                    push_str(&mut r, age.as_str());
                    push_str(&mut r, ")");
                },
                None => {},
            }
            r
        },
        None => to_owned("not available"),
    }
}

/// `s` is the status line for build `b` at some clock reading.
pub open spec fn is_build_status(b: PlatformBuild, s: Seq<char>) -> bool {
    exists|now: Option<u64>| s == #[trigger] build_status(b, now)
}

/// One platform's build status for the admin.
#[derive(Debug, Clone)]
pub struct ClientBuildStatus {
    pub platform: &'static str,
    pub status: String,
}

/// The admin's build status list, one line per platform in order, each
/// aged by the system clock as it is written.
pub fn client_build_statuses(builds: &Vec<PlatformBuild>) -> (r: Vec<ClientBuildStatus>)
    ensures
        r@.len() == builds@.len(),
        forall|i: int| 0 <= i < builds@.len() ==> #[trigger] r@[i].platform == builds@[i].platform,
        forall|i: int| 0 <= i < builds@.len() ==> is_build_status(builds@[i], #[trigger] r@[i].status@),
{
    let mut r: Vec<ClientBuildStatus> = Vec::new();
    let mut i: usize = 0;
    while i < builds.len()
        invariant
            i <= builds@.len(),
            r@.len() == i,
            forall|k: int| 0 <= k < i ==> #[trigger] r@[k].platform == builds@[k].platform,
            forall|k: int| 0 <= k < i ==> is_build_status(builds@[k], #[trigger] r@[k].status@),
        decreases builds@.len() - i,
    {
        let now = unix_now();
        let status = build_status_at(&builds[i], now);
        r.push(ClientBuildStatus { platform: builds[i].platform, status });
        assert(r@[i as int].status@ == build_status(builds@[i as int], now));
        i = i + 1;
    }
    r
}

/// Ages read in the largest whole unit: a label says "just now" exactly
/// when less than a minute has passed; from a minute on it ends in "ago".
/// So a build fetched an hour or more before the clock reading is never
/// shown as "just now".
pub proof fn lemma_age_labels(delta: int)
    ensures
        delta < 60 ==> relative_label(delta) == "just now"@,
        delta >= 60 ==> relative_label(delta) != "just now"@,
        delta >= 60 ==> relative_label(delta).len() >= 5 && relative_label(delta).subrange(
            relative_label(delta).len() - 3,
            relative_label(delta).len() as int,
        ) == "ago"@,
{
    reveal_strlit("just now");
    reveal_strlit("ago");
    reveal_strlit("m ago");
    reveal_strlit("h ago");
    reveal_strlit("d ago");
    if delta >= 60 {
        let l = relative_label(delta);
        let unit = if delta < 3600 {
            "m ago"@
        } else if delta < 86400 {
            "h ago"@
        } else {
            "d ago"@
        };
        let d = if delta < 3600 {
            decimal((delta / 60) as nat)
        } else if delta < 86400 {
            decimal((delta / 3600) as nat)
        } else {
            decimal((delta / 86400) as nat)
        };
        assert(l == d + unit);
        assert(l.subrange(l.len() - 3, l.len() as int) =~= "ago"@);
        assert(l.last() == 'o');
        assert("just now"@.last() == 'w');
    }
}

/// A fetched build whose fetch time lies an hour or more before the clock
/// reading shows its age in hours or days, never "just now".
pub proof fn lemma_old_fetch_not_just_now(n: u64, ts: i64)
    requires
        n <= i64::MAX,
        n - ts >= 3600,
    ensures
        relative_label(clock_delta(Some(n), ts)) != "just now"@,
        clock_delta(Some(n), ts) == n - ts,
{
    assert((n as i64) as int == n as int);
    lemma_age_labels(clock_delta(Some(n), ts));
}

/// One platform in the public download list.
#[derive(Debug, Clone)]
pub struct DownloadOption {
    pub platform: &'static str,
    pub available: bool,
    pub recommended: bool,
    /// Served from the operator's own template rather than a fetched
    /// release.
    pub custom_build: bool,
    pub version: Option<String>,
    pub fetched_at: Option<i64>,
}

/// The public download list.
#[derive(Debug, Clone)]
pub struct DownloadListView {
    pub server_url: Option<String>,
    pub options: Vec<DownloadOption>,
}

/// The download list's entry for build `b`, recommended when it is the
/// platform the browser suggests.
pub open spec fn option_for(b: PlatformBuild, detected: Option<Seq<char>>) -> DownloadOption {
    let recommended = detected == Some(b.platform@);
    match b.source {
        Some(TemplateSource::Fetched) => DownloadOption {
            platform: b.platform,
            available: true,
            recommended,
            custom_build: false,
            version: b.version,
            fetched_at: fetch_time(b),
        },
        Some(TemplateSource::Manual) => DownloadOption {
            platform: b.platform,
            available: true,
            recommended,
            custom_build: true,
            version: None,
            fetched_at: None,
        },
        None => DownloadOption {
            platform: b.platform,
            available: false,
            recommended,
            custom_build: false,
            version: None,
            fetched_at: None,
        },
    }
}

/// The text of an optional string slice.
pub open spec fn str_opt_view(o: Option<&str>) -> Option<Seq<char>> {
    match o {
        Some(s) => Some(s@),
        None => None,
    }
}

/// The download list's entry for build `b`.
pub fn download_option(b: PlatformBuild, detected: Option<&str>) -> (r: DownloadOption)
    ensures
        r == option_for(b, str_opt_view(detected)),
{
    let recommended = match detected {
        Some(d) => str_eq(d, b.platform),
        None => false,
    };
    let fetched_at = parse_fetch_time(&b);
    match b.source {
        Some(TemplateSource::Fetched) => DownloadOption {
            platform: b.platform,
            available: true,
            recommended,
            custom_build: false,
            version: b.version,
            fetched_at,
        },
        Some(TemplateSource::Manual) => DownloadOption {
            platform: b.platform,
            available: true,
            recommended,
            custom_build: true,
            version: None,
            fetched_at: None,
        },
        None => DownloadOption {
            platform: b.platform,
            available: false,
            recommended,
            custom_build: false,
            version: None,
            fetched_at: None,
        },
    }
}

/// The entries of `opts` whose recommendation is `flag`, in order.
pub open spec fn with_recommendation(opts: Seq<DownloadOption>, flag: bool) -> Seq<DownloadOption>
    decreases opts.len(),
{
    if opts.len() == 0 {
        Seq::empty()
    } else {
        let rest = with_recommendation(opts.drop_last(), flag);
        if opts.last().recommended == flag {
            rest.push(opts.last())
        } else {
            rest
        }
    }
}

/// The entries of `opts` whose recommendation is `flag`, in order.
fn collect_recommendation(opts: &Vec<DownloadOption>, flag: bool, out: &mut Vec<DownloadOption>)
    ensures
        final(out)@ == old(out)@ + with_recommendation(opts@, flag),
{
    let mut i: usize = 0;
    let ghost start = out@;
    while i < opts.len()
        invariant
            i <= opts@.len(),
            out@ == start + with_recommendation(opts@.take(i as int), flag),
        decreases opts@.len() - i,
    {
        assert(opts@.take(i as int + 1).drop_last() =~= opts@.take(i as int));
        if opts[i].recommended == flag {
            let o = DownloadOption {
                platform: opts[i].platform,
                available: opts[i].available,
                recommended: opts[i].recommended,
                custom_build: opts[i].custom_build,
                version: copy_opt(&opts[i].version),
                fetched_at: opts[i].fetched_at,
            };
            out.push(o);
        }
        i = i + 1;
        assert(out@ =~= start + with_recommendation(opts@.take(i as int), flag));
    }
    assert(opts@.take(i as int) =~= opts@);
}

/// The list with the recommended entries first, each group keeping its
/// order (a stable sort on "not recommended").
pub fn recommended_first(opts: &Vec<DownloadOption>) -> (r: Vec<DownloadOption>)
    ensures
        r@ == with_recommendation(opts@, true) + with_recommendation(opts@, false),
{
    let mut r: Vec<DownloadOption> = Vec::new();
    collect_recommendation(opts, true, &mut r);
    collect_recommendation(opts, false, &mut r);
    assert(r@ =~= with_recommendation(opts@, true) + with_recommendation(opts@, false));
    r
}

/// The public download list: the server URL setting, and one entry per
/// build with the browser's platform first.
pub fn download_list(server_url: Option<String>, detected: Option<&str>, builds: Vec<PlatformBuild>) -> (r: DownloadListView)
    ensures
        r.server_url == server_url,
        exists|opts: Seq<DownloadOption>| {
            &&& opts.len() == builds@.len()
            &&& (forall|i: int| 0 <= i < builds@.len() ==> #[trigger] opts[i] == option_for(builds@[i], str_opt_view(detected)))
            &&& r.options@ == with_recommendation(opts, true) + with_recommendation(opts, false)
        },
{
    let mut opts: Vec<DownloadOption> = Vec::new();
    let n = builds.len();
    let mut i: usize = 0;
    while i < n
        invariant
            n == builds@.len(),
            i <= n,
            opts@.len() == i,
            forall|k: int| 0 <= k < i ==> #[trigger] opts@[k] == option_for(builds@[k], str_opt_view(detected)),
        decreases n - i,
    {
        let b = copy_build(&builds[i]);
        opts.push(download_option(b, detected));
        i = i + 1;
    }
    let options = recommended_first(&opts);
    DownloadListView { server_url, options }
}

/// Putting the recommended entries first loses and adds nothing: the two
/// groups together are as many as the entries, and the first group is
/// exactly the recommended ones.
pub proof fn lemma_recommended_first_keeps_all(opts: Seq<DownloadOption>)
    ensures
        with_recommendation(opts, true).len() + with_recommendation(opts, false).len() == opts.len(),
        forall|i: int| 0 <= i < with_recommendation(opts, true).len() ==> #[trigger] with_recommendation(opts, true)[i].recommended,
        forall|i: int| 0 <= i < with_recommendation(opts, false).len() ==> !#[trigger] with_recommendation(opts, false)[i].recommended,
    decreases opts.len(),
{
    if opts.len() > 0 {
        lemma_recommended_first_keeps_all(opts.drop_last());
    }
}

} // verus!
