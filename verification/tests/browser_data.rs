use sw3do_browser::clock::Timestamp;
use sw3do_browser::downloads::{get_download_stats, Download, DownloadStats, DownloadStatus};
use sw3do_browser::filters::shields::GlobalStats;
use sw3do_browser::history::{get_stats, HistoryEntry, HistoryStats};
use sw3do_browser::pages::{generate_home_page, HOME_PAGE};
use sw3do_browser::plugins::{has_permission, listens_to, PluginHook, PluginPermission, PluginSettingType};
use sw3do_browser::privacy::{BlockingStats, PrivacySettings};
use sw3do_browser::session::WindowBounds;
use sw3do_browser::settings::{
    fill_search_terms, AdvancedSettings, DownloadSettings, GeneralSettings, ProxySettings,
    ProxyType, SearchEngine, SearchEngineError, SearchSettings,
};
use sw3do_browser::tabs::{get_tab_stats, TabFlags, TabStats};
use sw3do_browser::tally::add_capped;

fn at(secs: i64) -> Timestamp {
    Timestamp { secs, nanos: 0 }
}

fn download(status: DownloadStatus, bytes: u64) -> Download {
    Download {
        id: "d".to_string(),
        url: "https://files.test/a.zip".to_string(),
        filename: "a.zip".to_string(),
        file_path: "/tmp/a.zip".to_string(),
        mime_type: None,
        total_bytes: None,
        downloaded_bytes: bytes,
        status,
        start_time: at(1),
        end_time: None,
        error_message: None,
        referrer: None,
        user_agent: None,
    }
}

#[test]
fn home_page_is_the_fixed_text() {
    let page = generate_home_page();
    assert_eq!(page, HOME_PAGE);
    assert!(page.contains("SW3DO Browser"));
    assert!(page.contains("Why Choose SW3DO?"));
    assert!(page.trim_start().starts_with("<div"));
    assert!(page.trim_end().ends_with("</div>"));
}

#[test]
fn download_stats_count_by_status_and_sum_bytes() {
    let downloads = vec![
        download(DownloadStatus::Completed, 100),
        download(DownloadStatus::Failed, 5),
        download(DownloadStatus::InProgress, 20),
        download(DownloadStatus::Paused, 30),
        download(DownloadStatus::Pending, 0),
        download(DownloadStatus::Cancelled, 7),
        download(DownloadStatus::Completed, 1),
    ];
    assert_eq!(
        get_download_stats(&downloads),
        DownloadStats {
            total_downloads: 7,
            completed_downloads: 2,
            failed_downloads: 1,
            total_bytes_downloaded: 163,
            active_downloads: 2,
        }
    );
    assert_eq!(
        get_download_stats(&vec![]),
        DownloadStats {
            total_downloads: 0,
            completed_downloads: 0,
            failed_downloads: 0,
            total_bytes_downloaded: 0,
            active_downloads: 0,
        }
    );
}

#[test]
fn download_bytes_are_capped() {
    let downloads = vec![
        download(DownloadStatus::Completed, u64::MAX - 1),
        download(DownloadStatus::Completed, 5),
        download(DownloadStatus::Completed, 5),
    ];
    assert_eq!(get_download_stats(&downloads).total_bytes_downloaded, u64::MAX);
    assert_eq!(add_capped(u64::MAX - 1, 1), u64::MAX);
    assert_eq!(add_capped(3, 4), 7);
}

#[test]
fn download_moves_through_its_states() {
    let mut d = download(DownloadStatus::Pending, 0);
    d.pause();
    assert_eq!(d.status, DownloadStatus::Pending);
    d.update_progress(10, Some(100));
    assert_eq!((d.status, d.downloaded_bytes, d.total_bytes), (DownloadStatus::InProgress, 10, Some(100)));
    d.update_progress(20, None);
    assert_eq!((d.downloaded_bytes, d.total_bytes), (20, Some(100)));
    d.resume();
    assert_eq!(d.status, DownloadStatus::InProgress);
    d.pause();
    assert_eq!(d.status, DownloadStatus::Paused);
    assert!(d.status.is_active() && !d.status.is_finished());
    d.resume();
    assert_eq!(d.status, DownloadStatus::InProgress);
    d.complete(at(9));
    assert_eq!((d.status, d.end_time), (DownloadStatus::Completed, Some(at(9))));
    assert!(d.status.is_finished() && !d.status.is_active());
    let mut f = download(DownloadStatus::InProgress, 1);
    f.fail("disk full".to_string(), at(4));
    assert_eq!(f.status, DownloadStatus::Failed);
    assert_eq!(f.error_message, Some("disk full".to_string()));
    assert_eq!(f.end_time, Some(at(4)));
    let mut c = download(DownloadStatus::Paused, 1);
    c.cancel(at(5));
    assert_eq!((c.status, c.end_time), (DownloadStatus::Cancelled, Some(at(5))));
    assert!(!DownloadStatus::Pending.is_active() && !DownloadStatus::Pending.is_finished());
}

fn entry(count: u32, last: Timestamp) -> HistoryEntry {
    HistoryEntry {
        id: "h".to_string(),
        url: "https://a.test/".to_string(),
        title: "A".to_string(),
        visit_time: at(0),
        visit_count: count,
        last_visit: last,
        favicon: None,
        is_private: false,
    }
}

#[test]
fn history_stats_sum_visits_by_age() {
    let day = 86_400;
    let now = Timestamp { secs: 20_000 * day + 3_600, nanos: 500 };
    let entries = vec![
        entry(1, Timestamp { secs: 20_000 * day, nanos: 0 }),
        entry(2, Timestamp { secs: 20_000 * day - 1, nanos: 0 }),
        entry(4, Timestamp { secs: now.secs - 7 * day, nanos: 500 }),
        entry(8, Timestamp { secs: now.secs - 7 * day, nanos: 499 }),
        entry(16, Timestamp { secs: now.secs - 30 * day, nanos: 500 }),
        entry(32, Timestamp { secs: now.secs - 30 * day - 1, nanos: 999_999_999 }),
        entry(64, Timestamp { secs: now.secs + 10, nanos: 0 }),
    ];
    assert_eq!(
        get_stats(&entries, now),
        HistoryStats {
            total_visits: 127,
            unique_sites: 7,
            today_visits: 65,
            this_week_visits: 71,
            this_month_visits: 95,
        }
    );
}

#[test]
fn history_days_are_utc_days_also_before_1970() {
    assert_eq!(at(0).day(), 0);
    assert_eq!(at(86_399).day(), 0);
    assert_eq!(at(86_400).day(), 1);
    assert_eq!(at(-1).day(), -1);
    assert_eq!(at(-86_400).day(), -1);
    assert_eq!(at(-86_401).day(), -2);
    assert_eq!(at(i64::MIN).day(), i64::MIN.div_euclid(86_400));
    assert_eq!(at(i64::MAX).day(), i64::MAX / 86_400);
    assert!(at(i64::MIN).is_within(at(i64::MIN), 604_800));
    assert!(!at(i64::MIN).is_within(at(i64::MAX), 604_800));
}

#[test]
fn history_entry_records_visits() {
    let mut e = entry(1, at(5));
    e.record_visit("New title".to_string(), at(9));
    assert_eq!((e.visit_count, e.last_visit, e.title.as_str()), (2, at(9), "New title"));
    assert_eq!(e.visit_time, at(0));
    e.visit_count = u32::MAX;
    e.record_visit("T".to_string(), at(10));
    assert_eq!(e.visit_count, u32::MAX);
}

#[test]
fn tab_stats_count_flags() {
    let tab = |l, p, m, v| TabFlags { is_loading: l, is_pinned: p, is_muted: m, is_private: v };
    let tabs = vec![
        tab(true, false, false, false),
        tab(true, true, true, false),
        tab(false, true, false, true),
        tab(false, false, false, false),
    ];
    assert_eq!(
        get_tab_stats(&tabs, 2),
        TabStats { total_tabs: 4, active_tabs: 2, pinned_tabs: 2, private_tabs: 1, loading_tabs: 2 }
    );
    assert_eq!(
        get_tab_stats(&vec![], 0),
        TabStats { total_tabs: 0, active_tabs: 0, pinned_tabs: 0, private_tabs: 0, loading_tabs: 0 }
    );
}

#[test]
fn plugin_permissions_and_hooks_are_looked_up() {
    let granted = vec![PluginPermission::NetworkAccess, PluginPermission::TabManagement];
    assert!(has_permission(&granted, PluginPermission::TabManagement));
    assert!(!has_permission(&granted, PluginPermission::HistoryAccess));
    assert!(!has_permission(&vec![], PluginPermission::NetworkAccess));
    let hooks = vec![PluginHook::BeforeRequest];
    assert!(listens_to(&hooks, PluginHook::BeforeRequest));
    assert!(!listens_to(&hooks, PluginHook::AfterRequest));
    assert_ne!(PluginSettingType::String, PluginSettingType::Number);
}

#[test]
fn window_bounds_default() {
    assert_eq!(
        WindowBounds::default(),
        WindowBounds { x: 100, y: 100, width: 1200, height: 800, maximized: false }
    );
}

#[test]
fn privacy_panel_defaults_and_totals() {
    assert_eq!(
        PrivacySettings::default(),
        PrivacySettings {
            ad_blocking_enabled: true,
            tracker_blocking_enabled: true,
            script_blocking_enabled: false,
            fingerprinting_protection: true,
            https_everywhere: true,
            clear_data_on_exit: false,
            send_do_not_track: true,
            block_third_party_cookies: true,
        }
    );
    let stats = GlobalStats {
        total_ads_blocked: 1,
        total_trackers_blocked: 2,
        total_scripts_blocked: 3,
        bandwidth_saved: 4,
        last_reset: at(0),
    };
    assert_eq!(
        BlockingStats::from_global(stats, 60, "1970-01-01T00:00:00+00:00".to_string()),
        BlockingStats {
            total_ads_blocked: 1,
            total_trackers_blocked: 2,
            total_scripts_blocked: 3,
            bandwidth_saved: 4,
            time_saved: 60,
            last_reset: "1970-01-01T00:00:00+00:00".to_string(),
        }
    );
}

#[test]
fn settings_defaults() {
    assert_eq!(
        GeneralSettings::default(),
        GeneralSettings {
            homepage: "about:blank".to_string(),
            new_tab_page: "about:newtab".to_string(),
            default_search_engine: "duckduckgo".to_string(),
            restore_tabs_on_startup: true,
            show_bookmarks_bar: true,
            enable_notifications: true,
            language: "en-US".to_string(),
        }
    );
    assert_eq!(
        sw3do_browser::settings::PrivacySettings::default(),
        sw3do_browser::settings::PrivacySettings {
            block_ads: true,
            block_trackers: true,
            block_third_party_cookies: true,
            enable_fingerprinting_protection: true,
            https_only_mode: true,
            clear_data_on_exit: false,
            send_do_not_track: true,
            enable_private_browsing_by_default: false,
        }
    );
    assert_eq!(
        DownloadSettings::with_directory("/home/u/Downloads".to_string()),
        DownloadSettings {
            download_directory: "/home/u/Downloads".to_string(),
            ask_where_to_save: false,
            auto_open_downloads: false,
            clear_downloads_on_exit: false,
        }
    );
    let proxy = ProxySettings {
        proxy_type: ProxyType::NoProxy,
        host: None,
        port: None,
        username: None,
        password: None,
    };
    assert_eq!(ProxySettings::default(), proxy);
    assert_eq!(
        AdvancedSettings::default(),
        AdvancedSettings {
            enable_javascript: true,
            enable_images: true,
            enable_plugins: false,
            enable_webgl: true,
            enable_webrtc: false,
            user_agent: None,
            proxy_settings: proxy,
            developer_mode: false,
        }
    );
}

fn engine(name: &str, url: &str, suggest: Option<&str>) -> SearchEngine {
    SearchEngine {
        name: name.to_string(),
        url: url.to_string(),
        suggest_url: suggest.map(|s| s.to_string()),
        icon: None,
    }
}

#[test]
fn search_settings_default_engines() {
    let s = SearchSettings::default();
    let ids: Vec<&str> = s.search_engines.iter().map(|e| e.id.as_str()).collect();
    assert_eq!(ids, vec!["google", "duckduckgo", "bing"]);
    assert_eq!(s.default_engine, "duckduckgo");
    assert!(s.enable_search_suggestions && s.show_search_in_address_bar);
    assert_eq!(
        s.search_engines[0].engine,
        engine(
            "Google",
            "https://www.google.com/search?q={searchTerms}",
            Some("https://suggestqueries.google.com/complete/search?client=chrome&q={searchTerms}")
        )
    );
    assert_eq!(
        s.search_engines[2].engine,
        engine(
            "Bing",
            "https://www.bing.com/search?q={searchTerms}",
            Some("https://www.bing.com/osjson.aspx?query={searchTerms}")
        )
    );
}

#[test]
fn search_address_holds_the_encoded_query() {
    let s = SearchSettings::default();
    assert_eq!(
        s.get_search_url("rust & verus/1"),
        Some("https://duckduckgo.com/?q=rust%20%26%20verus%2F1".to_string())
    );
    assert_eq!(
        s.get_suggestion_url("a b"),
        Some("https://ac.duckduckgo.com/ac/?q=a%20b&type=list".to_string())
    );
    assert_eq!(s.get_search_url(""), Some("https://duckduckgo.com/?q=".to_string()));
    assert_eq!(
        s.get_search_url("Az09-._~"),
        Some("https://duckduckgo.com/?q=Az09-._~".to_string())
    );
    assert_eq!(
        s.get_search_url("ü€\u{1F600}/+"),
        Some("https://duckduckgo.com/?q=%C3%BC%E2%82%AC%F0%9F%98%80%2F%2B".to_string())
    );
    assert_eq!(
        s.get_search_url("{searchTerms}"),
        Some("https://duckduckgo.com/?q=%7BsearchTerms%7D".to_string())
    );
}

#[test]
fn every_placeholder_is_filled() {
    assert_eq!(fill_search_terms("a{searchTerms}b{searchTerms}", "X"), "aXbX");
    assert_eq!(fill_search_terms("{searchTerms}", ""), "");
    assert_eq!(fill_search_terms("{searchTerms", "X"), "{searchTerms");
    assert_eq!(fill_search_terms("{{searchTerms}}", "X"), "{X}");
    assert_eq!(fill_search_terms("q={searchTerms}", "{searchTerms}"), "q={searchTerms}");
    assert_eq!(fill_search_terms("", "X"), "");
    assert_eq!(fill_search_terms("{searchterms}", "X"), "{searchterms}");
}

#[test]
fn search_engines_are_added_replaced_and_removed() {
    let mut s = SearchSettings::default();
    s.add_search_engine("kagi", engine("Kagi", "https://kagi.com/search?q={searchTerms}", None));
    assert_eq!(s.search_engines.len(), 4);
    assert_eq!(s.search_engines[3].id, "kagi");
    s.add_search_engine("google", engine("G", "https://g.test/?q={searchTerms}", None));
    assert_eq!(s.search_engines.len(), 4);
    assert_eq!(s.search_engines[0].id, "google");
    assert_eq!(s.search_engines[0].engine.name, "G");
    assert_eq!(s.remove_search_engine("duckduckgo"), Err(SearchEngineError::IsDefault));
    assert_eq!(s.remove_search_engine("nope"), Err(SearchEngineError::NotFound));
    assert_eq!(s.search_engines.len(), 4);
    assert_eq!(s.set_default_search_engine("nope"), Err(SearchEngineError::NotFound));
    assert_eq!(s.default_engine, "duckduckgo");
    assert_eq!(s.set_default_search_engine("kagi"), Ok(()));
    assert_eq!(s.get_search_url("x"), Some("https://kagi.com/search?q=x".to_string()));
    assert_eq!(s.get_suggestion_url("x"), None);
    assert_eq!(s.remove_search_engine("duckduckgo"), Ok(()));
    let ids: Vec<&str> = s.search_engines.iter().map(|e| e.id.as_str()).collect();
    assert_eq!(ids, vec!["google", "bing", "kagi"]);
    assert_eq!(SearchEngineError::IsDefault.message(), "Cannot remove default search engine");
    assert_eq!(SearchEngineError::NotFound.message(), "Search engine not found");
}

#[test]
fn missing_default_engine_gives_no_address() {
    let mut s = SearchSettings::default();
    s.default_engine = "gone".to_string();
    assert_eq!(s.get_search_url("x"), None);
    assert_eq!(s.get_suggestion_url("x"), None);
    assert_eq!(s.remove_search_engine("gone"), Err(SearchEngineError::IsDefault));
}
