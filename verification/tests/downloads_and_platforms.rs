use visuara::downloads::{
    build_status_at, client_build_statuses, download_list, download_option, recommended_first, relative_time,
    relative_time_at, PlatformBuild,
};
use visuara::platforms::{
    choose_template_path, content_disposition, detect_platform, find_platform, platforms, resolve_template_path, template_choice,
    DownloadFailure, TemplateSource,
};
use visuara::release::{
    fetch_release_results, fetched_at_setting_key, find_asset, latest_release_url, missing_asset_message,
    release_check_error, temporary_file_name, version_setting_key, FetchResult, ReleaseAsset, RELEASE_REPO,
};

#[test]
fn relative_time_labels() {
    let now = Some(1_000_000u64);
    assert_eq!(relative_time_at(now, 1_000_000), "just now");
    assert_eq!(relative_time_at(now, 999_941), "just now");
    assert_eq!(relative_time_at(now, 999_940), "1m ago");
    assert_eq!(relative_time_at(now, 1_000_000 - 3 * 3600 - 59), "3h ago");
    assert_eq!(relative_time_at(now, 1_000_000 - 5 * 86400), "5d ago");
    assert_eq!(relative_time_at(now, 2_000_000), "just now");
    assert_eq!(relative_time_at(None, 123), "just now");
    assert_eq!(relative_time_at(now, i64::MIN), format!("{}d ago", (1_000_000i128 - i64::MIN as i128) / 86400));
    assert_eq!(relative_time(0).ends_with("d ago"), true);
}

#[test]
fn platform_table_and_lookup() {
    let ps = platforms();
    assert_eq!(ps.len(), 2);
    assert_eq!((ps[0].key, ps[0].template_filename, ps[0].download_filename), ("windows-x86_64", "windows-x86_64.exe", "visuara.exe"));
    assert_eq!(ps[0].content_type, "application/vnd.microsoft.portable-executable");
    assert_eq!((ps[1].key, ps[1].template_filename, ps[1].download_filename), ("linux-x86_64", "linux-x86_64", "visuara"));
    assert_eq!(ps[1].content_type, "application/octet-stream");
    assert_eq!(find_platform("linux-x86_64").map(|p| p.download_filename), Some("visuara"));
    assert!(find_platform("macos").is_none());
    assert_eq!(content_disposition(&ps[0]), "attachment; filename=\"visuara.exe\"");
}

#[test]
fn user_agent_suggests_a_platform() {
    assert_eq!(detect_platform(Some("Mozilla/5.0 (Windows NT 10.0; Win64; x64)")), Some("windows-x86_64"));
    assert_eq!(detect_platform(Some("Mozilla/5.0 (X11; Linux x86_64)")), Some("linux-x86_64"));
    assert_eq!(detect_platform(Some("Mozilla/5.0 (Linux; Android 14)")), None);
    assert_eq!(detect_platform(Some("Mozilla/5.0 (Macintosh)")), None);
    assert_eq!(detect_platform(None), None);
}

#[test]
fn manual_template_wins() {
    assert_eq!(template_choice(true, true), Some(TemplateSource::Manual));
    assert_eq!(template_choice(false, true), Some(TemplateSource::Fetched));
    assert_eq!(template_choice(false, false), None);
    let ps = platforms();
    assert_eq!(resolve_template_path(&ps[0], "/nonexistent-a", "/nonexistent-b"), None);
}

#[test]
fn template_path_follows_the_probe_answers() {
    let ps = platforms();
    let w = &ps[0];
    assert_eq!(
        choose_template_path(w, "/srv/manual", "/srv/fetched", true, true),
        Some(("/srv/manual/windows-x86_64.exe".to_string(), TemplateSource::Manual))
    );
    assert_eq!(
        choose_template_path(w, "/srv/manual", "/srv/fetched", false, true),
        Some(("/srv/fetched/windows-x86_64.exe".to_string(), TemplateSource::Fetched))
    );
    assert_eq!(choose_template_path(w, "/srv/manual", "/srv/fetched", false, false), None);
}

fn build(platform: &'static str, source: Option<TemplateSource>, version: Option<&str>, fetched_at: Option<&str>) -> PlatformBuild {
    PlatformBuild { platform, source, version: version.map(String::from), fetched_at: fetched_at.map(String::from) }
}

#[test]
fn build_statuses() {
    let now = Some(1_700_000_000u64);
    assert_eq!(build_status_at(&build("w", Some(TemplateSource::Manual), None, None), now), "manual override");
    assert_eq!(build_status_at(&build("w", None, None, None), now), "not available");
    assert_eq!(build_status_at(&build("w", Some(TemplateSource::Fetched), Some("v1.2.0"), Some("1699992800")), now), "fetched: v1.2.0 (2h ago)");
    assert_eq!(build_status_at(&build("w", Some(TemplateSource::Fetched), None, None), now), "fetched: unknown");
    assert_eq!(build_status_at(&build("w", Some(TemplateSource::Fetched), Some("v1"), Some("soon")), now), "fetched: v1");
    let all = client_build_statuses(&vec![build("windows-x86_64", None, None, None), build("linux-x86_64", Some(TemplateSource::Manual), None, None)]);
    assert_eq!(all.len(), 2);
    assert_eq!((all[0].platform, all[0].status.as_str()), ("windows-x86_64", "not available"));
    assert_eq!((all[1].platform, all[1].status.as_str()), ("linux-x86_64", "manual override"));
}

#[test]
fn download_list_puts_the_detected_platform_first() {
    let builds = vec![
        build("windows-x86_64", Some(TemplateSource::Fetched), Some("v2"), Some("1700000000")),
        build("linux-x86_64", Some(TemplateSource::Manual), Some("ignored"), None),
    ];
    let view = download_list(Some("wss://x/ws".into()), Some("linux-x86_64"), builds);
    assert_eq!(view.server_url.as_deref(), Some("wss://x/ws"));
    assert_eq!(view.options.len(), 2);
    assert_eq!(view.options[0].platform, "linux-x86_64");
    assert!(view.options[0].recommended && view.options[0].custom_build && view.options[0].available);
    assert_eq!(view.options[0].version, None);
    assert_eq!(view.options[1].platform, "windows-x86_64");
    assert_eq!(view.options[1].version.as_deref(), Some("v2"));
    assert_eq!(view.options[1].fetched_at, Some(1_700_000_000));
    assert!(!view.options[1].recommended);
    let missing = download_option(build("linux-x86_64", None, None, None), None);
    assert!(!missing.available && !missing.recommended && !missing.custom_build);
    let same = recommended_first(&vec![download_option(build("a", None, None, None), None), download_option(build("b", None, None, None), None)]);
    assert_eq!((same[0].platform, same[1].platform), ("a", "b"));
}

#[test]
fn release_fetch_naming_and_results() {
    assert_eq!(RELEASE_REPO, "deranjer/visuara");
    assert_eq!(latest_release_url(RELEASE_REPO), "https://api.github.com/repos/deranjer/visuara/releases/latest");
    let assets = vec![
        ReleaseAsset { name: "linux-x86_64".into(), browser_download_url: "https://dl/1".into() },
        ReleaseAsset { name: "windows-x86_64.exe".into(), browser_download_url: "https://dl/2".into() },
    ];
    assert_eq!(find_asset(&assets, "windows-x86_64.exe"), Some(1));
    assert_eq!(find_asset(&assets, "macos"), None);
    assert_eq!(missing_asset_message("macos", "v1.0.0"), "no asset named macos in release v1.0.0");
    assert_eq!(temporary_file_name("linux-x86_64"), "linux-x86_64.tmp");
    assert_eq!(version_setting_key("linux-x86_64"), "client_version_linux-x86_64");
    assert_eq!(fetched_at_setting_key("linux-x86_64"), "client_fetched_at_linux-x86_64");
    let r = fetch_release_results(vec![
        FetchResult { platform_key: "windows-x86_64", outcome: Ok("v1.0.0".into()) },
        FetchResult { platform_key: "linux-x86_64", outcome: Err("no asset".into()) },
    ]);
    assert_eq!((r[0].version.as_deref(), r[0].error.as_deref()), (Some("v1.0.0"), None));
    assert_eq!((r[1].version.as_deref(), r[1].error.as_deref()), (None, Some("no asset")));
    let e = release_check_error("timeout");
    assert_eq!((e.status, e.message.as_str()), (502, "failed to check GitHub releases: timeout"));
    assert_eq!((DownloadFailure::UnknownPlatform.status(), DownloadFailure::UnknownPlatform.message().as_str()), (404, "unknown platform"));
    assert_eq!(DownloadFailure::NoBuild.message(), "no build uploaded for this platform yet");
    let p = DownloadFailure::PatchFailed("slot".into());
    assert_eq!((p.status(), p.message().as_str()), (500, "failed to patch client binary: slot"));
}
