use maigret::browser::major_version_of;
use maigret::browser::version_supported;
use maigret::browser::Chrome;
use maigret::classify::random_user_agent;
use maigret::classify::user_agent;
use maigret::cli::Cli;
use maigret::outcome::site_validation_passed;
use maigret::outcome::ResultStatus;
use maigret::outcome::ScanResult;
use maigret::registry::DownloaderRegistry;
use maigret::sites::filter_sites;
use maigret::sites::SiteData;
use maigret::sites::SiteEntry;
use maigret::stats::ScraperStats;

fn args() -> Cli {
    Cli {
        usernames: vec![String::from("alice")],
        no_color: false,
        update: false,
        tor: false,
        screenshot: false,
        verbose: false,
        download: false,
        database: None,
        site: None,
        test: false,
    }
}

fn entry(name: &str) -> SiteEntry {
    SiteEntry {
        name: String::from(name),
        data: SiteData {
            error_type: String::from("status_code"),
            error_msg: String::new(),
            url: String::from("https://example.com/{}"),
            url_main: String::from("https://example.com"),
            url_probe: String::new(),
            error_url: String::new(),
            username_claimed: String::from("alice"),
            username_unclaimed: String::from("no_one_here_7x"),
            regex_check: String::new(),
        },
    }
}

#[test]
fn status_tags_render() {
    assert_eq!(ResultStatus::Confirmed.as_tag(), "CONFIRMED");
    assert_eq!(ResultStatus::Likely.as_tag(), "LIKELY");
    assert_eq!(ResultStatus::Private.as_tag(), "PRIVATE");
    assert_eq!(ResultStatus::NotFound.as_tag(), "NOT_FOUND");
    assert_eq!(ResultStatus::Blocked.as_tag(), "BLOCKED");
    assert_eq!(ResultStatus::Soft404.as_tag(), "SOFT_404");
    assert_eq!(ResultStatus::Redirected.as_tag(), "REDIRECTED");
    assert_eq!(ResultStatus::Error.as_tag(), "ERROR");
}

#[test]
fn found_statuses_are_exactly_three() {
    assert!(ResultStatus::Confirmed.is_found());
    assert!(ResultStatus::Likely.is_found());
    assert!(ResultStatus::Private.is_found());
    assert!(!ResultStatus::NotFound.is_found());
    assert!(!ResultStatus::Blocked.is_found());
    assert!(!ResultStatus::Soft404.is_found());
    assert!(!ResultStatus::Redirected.is_found());
    assert!(!ResultStatus::Error.is_found());
}

#[test]
fn confidence_is_clamped_into_range() {
    let r = ScanResult::new(String::from("alice"), String::from("Example"));
    let r = r.found(
        String::from("https://example.com/alice"),
        String::from("https://example.com/alice"),
        ResultStatus::Confirmed,
        250,
    );
    assert_eq!(r.confidence, 100);
    assert!(r.confidence <= 100);
    let r2 = ScanResult::new(String::from("alice"), String::from("Example"));
    let r2 = r2.not_found(String::from("u"), ResultStatus::NotFound, 90);
    assert_eq!(r2.confidence, 90);
}

#[test]
fn status_tag_omits_unset_confidence() {
    let r = ScanResult::new(String::from("alice"), String::from("Example"));
    assert_eq!(r.status_tag(), "[NOT_FOUND]");
    let r = r.not_found(String::from("u"), ResultStatus::NotFound, 90);
    assert_eq!(r.status_tag(), "[NOT_FOUND] (confidence: 0.90)");
    let r2 = ScanResult::new(String::from("alice"), String::from("Example"));
    let r2 = r2.found(
        String::from("u"),
        String::from("u"),
        ResultStatus::Confirmed,
        85,
    );
    assert_eq!(r2.status_tag(), "[CONFIRMED] (confidence: 0.85)");
}

#[test]
fn validation_passes_only_on_split_canaries() {
    let found = ScanResult::new(String::from("a"), String::from("s")).found(
        String::from("u"),
        String::from("u"),
        ResultStatus::Confirmed,
        85,
    );
    let missing =
        ScanResult::new(String::from("b"), String::from("s")).not_found(
            String::from("u"),
            ResultStatus::NotFound,
            90,
        );
    assert!(site_validation_passed(&found, &missing));
    assert!(!site_validation_passed(&found, &found));
    assert!(!site_validation_passed(&missing, &missing));
    assert!(!site_validation_passed(&missing, &found));
}

#[test]
fn with_error_resets_confidence() {
    let r = ScanResult::new(String::from("alice"), String::from("Example"));
    let r = r.found(String::from("u"), String::from("u"), ResultStatus::Confirmed, 85);
    let r = r.with_error(String::from("late failure"), ResultStatus::Error);
    assert!(r.error);
    assert_eq!(r.confidence, 0);
    assert_eq!(r.error_msg, "late failure");
}

#[test]
fn filter_sites_without_filter_keeps_all() {
    let db = vec![entry("GitHub"), entry("Reddit")];
    let filtered = filter_sites(&db, None);
    assert_eq!(filtered.len(), 2);
    assert_eq!(filtered[0].name, "GitHub");
    assert_eq!(filtered[1].name, "Reddit");
}

#[test]
fn filter_sites_matches_case_insensitively() {
    let db = vec![entry("GitHub"), entry("Reddit")];
    let filtered = filter_sites(&db, Some("github"));
    assert_eq!(filtered.len(), 1);
    assert_eq!(filtered[0].name, "GitHub");
    let upper = filter_sites(&db, Some("REDDIT"));
    assert_eq!(upper.len(), 1);
    assert_eq!(upper[0].name, "Reddit");
}

#[test]
fn filter_sites_unknown_name_is_empty() {
    let db = vec![entry("GitHub")];
    assert!(filter_sites(&db, Some("nosuchsite")).is_empty());
}

#[test]
fn registry_has_builtin_downloader() {
    let registry = DownloaderRegistry::new();
    assert!(registry.has_downloader("instagram"));
    assert!(registry.has_downloader("Instagram"));
    assert_eq!(registry.list_available(), vec![String::from("instagram")]);
}

#[test]
fn registry_miss_is_not_an_error() {
    let registry = DownloaderRegistry::new();
    assert!(!registry.has_downloader("nosuchsite"));
}

#[test]
fn registry_ignores_duplicate_registration() {
    let mut registry = DownloaderRegistry::new();
    registry.register("Instagram");
    assert_eq!(registry.list_available().len(), 1);
    registry.register("Flickr");
    assert_eq!(registry.list_available().len(), 2);
    assert!(registry.has_downloader("flickr"));
}

#[test]
fn stats_counters_start_at_zero() {
    let mut stats = ScraperStats::new();
    assert_eq!(stats.total_requests, 0);
    assert_eq!(stats.blocked_count, 0);
    assert_eq!(stats.cloudflare_detected, 0);
    assert!(stats.fastest_site.is_none());
    assert!(stats.slowest_site.is_none());
    stats.record_request();
    stats.record_request();
    stats.record_rate_limit();
    stats.record_edge_proxy();
    assert_eq!(stats.total_requests, 2);
    assert_eq!(stats.blocked_count, 1);
    assert_eq!(stats.cloudflare_detected, 1);
}

#[test]
fn timing_trackers_follow_min_and_max() {
    let mut stats = ScraperStats::new();
    stats.update_timing(String::from("a"), 300);
    stats.update_timing(String::from("b"), 120);
    stats.update_timing(String::from("c"), 450);
    assert_eq!(stats.fastest_site, Some((String::from("b"), 120)));
    assert_eq!(stats.slowest_site, Some((String::from("c"), 450)));
}

#[test]
fn timing_trackers_are_order_independent_in_duration() {
    // The same completions in every order end at the same extreme
    // latencies, whichever order the workers finished in.
    let samples: Vec<(&str, u64)> = vec![("a", 300), ("b", 120), ("c", 450)];
    let orders: Vec<Vec<usize>> = vec![
        vec![0, 1, 2],
        vec![0, 2, 1],
        vec![1, 0, 2],
        vec![1, 2, 0],
        vec![2, 0, 1],
        vec![2, 1, 0],
    ];
    for order in orders {
        let mut stats = ScraperStats::new();
        for &k in &order {
            let (name, ms) = samples[k];
            stats.update_timing(String::from(name), ms);
        }
        assert_eq!(stats.fastest_site.unwrap().1, 120);
        assert_eq!(stats.slowest_site.unwrap().1, 450);
    }
}

#[test]
fn tied_latency_keeps_first_observed_site() {
    let mut stats = ScraperStats::new();
    stats.update_timing(String::from("first"), 200);
    stats.update_timing(String::from("second"), 200);
    assert_eq!(stats.fastest_site, Some((String::from("first"), 200)));
    assert_eq!(stats.slowest_site, Some((String::from("first"), 200)));
}

#[test]
fn worker_budget_shrinks_for_screenshots() {
    let mut a = args();
    assert_eq!(a.max_workers(), 32);
    a.screenshot = true;
    assert_eq!(a.max_workers(), 8);
}

#[test]
fn database_path_defaults() {
    let mut a = args();
    assert_eq!(a.database_path(), "data.json");
    a.database = Some(String::from("custom.json"));
    assert_eq!(a.database_path(), "custom.json");
}

#[test]
fn major_version_reads_first_dotted_number() {
    assert_eq!(major_version_of("Google Chrome 120.0.6099.109"), Some(120));
    assert_eq!(major_version_of("Chromium 87.0.4280.88 snap"), Some(87));
    assert_eq!(major_version_of("no digits here"), None);
    assert_eq!(major_version_of("build 2024 final"), None);
    // A digit run not followed by a dotted group is skipped, the scan
    // resumes at the next position.
    assert_eq!(major_version_of("12a3.4"), Some(3));
    assert_eq!(major_version_of("99999999999999999999.1"), None);
}

#[test]
fn version_sixty_and_later_is_supported() {
    assert!(version_supported("Google Chrome 120.0.6099.109"));
    assert!(version_supported("Chromium 60.0.1"));
    assert!(!version_supported("Chromium 59.0.1"));
    assert!(!version_supported("mystery browser"));
}

#[test]
fn chrome_settings_start_unlocated() {
    let mut chrome = Chrome::new(String::from("1024x768"), 60, String::from("agent"));
    assert!(!chrome.is_ready());
    assert_eq!(chrome.resolution, "1024x768");
    assert_eq!(chrome.timeout, 60);
    chrome.set_path(String::from("/usr/bin/chromium"));
    assert!(chrome.is_ready());
    assert_eq!(chrome.path, Some(String::from("/usr/bin/chromium")));
}

#[test]
fn user_agents_rotate_within_the_set() {
    let set: Vec<&str> = (0..3usize).map(user_agent).collect();
    for _ in 0..32 {
        let ua = random_user_agent();
        assert!(set.contains(&ua));
    }
}
