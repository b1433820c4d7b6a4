use firefox_cli::cli::SessionCommand;
use firefox_cli::json::{Json, JsonNumber};
use firefox_cli::profiles::{
    find_recovery_file, firefox_profile_bases, is_visible_profile_dir, join_path, newest_file,
    recovery_files_in_base, session_recovery_candidates, ProfileEntry, RecoveryCandidate,
};
use firefox_cli::session::{
    collect_window_session_tabs, extend_session_tabs_from_window, get_session_tabs, SessionTab,
};
use firefox_cli::session_file::{decode_session_file, decode_session_json, SessionFileError};
use firefox_cli::session_list::{
    classify_session_command, execute_session_action, filter_session_tabs, handle_session,
    print_session_tabs, session_tab_count, SessionAction, SessionOutput,
};
use std::path::{Path, PathBuf};

fn s(text: &str) -> Json {
    Json::Str(text.to_string())
}

fn n(value: u64) -> Json {
    Json::Number(JsonNumber::Unsigned(value))
}

fn obj(entries: Vec<(&str, Json)>) -> Json {
    Json::Object(entries.into_iter().map(|(k, v)| (k.to_string(), v)).collect())
}

fn arr(items: Vec<Json>) -> Json {
    Json::Array(items)
}

fn entry(title: &str, url: &str) -> Json {
    obj(vec![("title", s(title)), ("url", s(url))])
}

fn tab(window: usize, title: &str, url: &str) -> SessionTab {
    SessionTab { window, title: title.to_string(), url: url.to_string() }
}

fn lines(output: SessionOutput) -> Vec<String> {
    match output {
        SessionOutput::Lines(lines) => lines,
        SessionOutput::Json(_) => panic!("expected lines"),
    }
}

#[test]
fn get_session_tabs_selects_active_entry_per_tab() {
    let session = obj(vec![(
        "windows",
        arr(vec![
            obj(vec![(
                "tabs",
                arr(vec![obj(vec![
                    ("index", n(2)),
                    (
                        "entries",
                        arr(vec![
                            entry("Old", "https://old.example"),
                            entry("Current", "https://current.example"),
                        ]),
                    ),
                ])]),
            )]),
            obj(vec![(
                "tabs",
                arr(vec![obj(vec![(
                    "entries",
                    arr(vec![entry("Default Index", "https://default.example")]),
                )])]),
            )]),
        ]),
    )]);

    let tabs = get_session_tabs(&session);
    assert_eq!(tabs.len(), 2);
    assert_eq!(tabs[0].window, 1);
    assert_eq!(tabs[0].title, "Current");
    assert_eq!(tabs[0].url, "https://current.example");
    assert_eq!(tabs[1].window, 2);
    assert_eq!(tabs[1].title, "Default Index");
    assert_eq!(tabs[1].url, "https://default.example");
}

#[test]
fn get_session_tabs_skips_invalid_indices_and_applies_defaults() {
    let session = obj(vec![(
        "windows",
        arr(vec![obj(vec![(
            "tabs",
            arr(vec![
                obj(vec![
                    ("index", n(0)),
                    ("entries", arr(vec![entry("Ignored", "https://ignored.example")])),
                ]),
                obj(vec![
                    ("index", n(3)),
                    ("entries", arr(vec![entry("Too High", "https://high.example")])),
                ]),
                obj(vec![("index", n(1)), ("entries", arr(vec![obj(vec![])]))]),
            ]),
        )])]),
    )]);

    let tabs = get_session_tabs(&session);
    assert_eq!(tabs.len(), 1);
    assert_eq!(tabs[0].window, 1);
    assert_eq!(tabs[0].title, "No title");
    assert_eq!(tabs[0].url, "");
}

#[test]
fn filter_session_tabs_applies_case_insensitive_search_and_limit() {
    let tabs = vec![
        tab(1, "Rust Book", "https://doc.rust-lang.org"),
        tab(1, "Mozilla", "https://www.mozilla.org"),
        tab(2, "Example", "https://example.com"),
    ];

    let filtered = filter_session_tabs(tabs, Some("MOZ"), Some(1));
    assert_eq!(filtered.len(), 1);
    assert_eq!(filtered[0].title, "Mozilla");
}

#[test]
fn firefox_profile_bases_builds_expected_paths() {
    let home = Path::new("/tmp/firefox-cli-home");
    let bases = firefox_profile_bases(home.to_str().unwrap());
    assert_eq!(
        PathBuf::from(&bases[0]),
        PathBuf::from("/tmp/firefox-cli-home/snap/firefox/common/.mozilla/firefox")
    );
    assert_eq!(
        PathBuf::from(&bases[1]),
        PathBuf::from("/tmp/firefox-cli-home/.var/app/org.mozilla.firefox/.mozilla/firefox")
    );
    assert_eq!(
        PathBuf::from(&bases[2]),
        PathBuf::from("/tmp/firefox-cli-home/.mozilla/firefox")
    );
}

#[test]
fn collect_window_session_tabs_uses_window_number_offset() {
    let window = obj(vec![(
        "tabs",
        arr(vec![obj(vec![("entries", arr(vec![entry("Tab A", "https://a.example")]))])]),
    )]);

    let tabs = collect_window_session_tabs(&window, 2);
    assert_eq!(tabs.len(), 1);
    assert_eq!(tabs[0].window, 3);
    assert_eq!(tabs[0].title, "Tab A");
}

#[test]
fn extend_session_tabs_from_window_appends_tabs() {
    let window = obj(vec![(
        "tabs",
        arr(vec![obj(vec![("entries", arr(vec![entry("Tab B", "https://b.example")]))])]),
    )]);
    let mut tabs = vec![tab(1, "Existing", "https://existing.example")];

    extend_session_tabs_from_window(&mut tabs, &window, 1);
    assert_eq!(tabs.len(), 2);
    assert_eq!(tabs[1].window, 2);
    assert_eq!(tabs[1].title, "Tab B");
}

#[test]
fn session_tab_count_matches_collection_size() {
    let tabs = vec![tab(1, "One", "https://one.example"), tab(2, "Two", "https://two.example")];
    assert_eq!(session_tab_count(&tabs), 2);
}

#[test]
fn classify_session_command_maps_count_variant() {
    let action = classify_session_command(SessionCommand::Count);
    match action {
        SessionAction::Count => {}
        _ => panic!("expected count action"),
    }
}

#[test]
fn latest_recovery_file_is_the_newest_and_last_among_equals() {
    let candidates = vec![
        RecoveryCandidate { path: "a".to_string(), modified: Some(10) },
        RecoveryCandidate { path: "b".to_string(), modified: Some(30) },
        RecoveryCandidate { path: "c".to_string(), modified: None },
        RecoveryCandidate { path: "d".to_string(), modified: Some(30) },
        RecoveryCandidate { path: "e".to_string(), modified: Some(-5) },
    ];
    assert_eq!(newest_file(candidates), Some("d".to_string()));
    assert_eq!(newest_file(Vec::new()), None);
    let unknown = vec![
        RecoveryCandidate { path: "x".to_string(), modified: None },
        RecoveryCandidate { path: "y".to_string(), modified: None },
    ];
    assert_eq!(newest_file(unknown), Some("y".to_string()));
}

#[test]
fn missing_profile_directories_yield_no_candidates() {
    let listings: Vec<Option<Vec<ProfileEntry>>> = vec![None, None, None];
    let candidates = session_recovery_candidates(&listings);
    assert!(candidates.is_empty());
    assert_eq!(recovery_files_in_base(None), Vec::<String>::new());
}

#[test]
fn recovery_files_come_from_visible_profiles_with_a_recovery_file() {
    let entries = vec![
        ProfileEntry {
            path: "/h/.mozilla/firefox/profile-a".to_string(),
            is_dir: true,
            file_name: Some("profile-a".to_string()),
            recovery_exists: true,
        },
        ProfileEntry {
            path: "/h/.mozilla/firefox/.hidden".to_string(),
            is_dir: true,
            file_name: Some(".hidden".to_string()),
            recovery_exists: true,
        },
        ProfileEntry {
            path: "/h/.mozilla/firefox/profiles.ini".to_string(),
            is_dir: false,
            file_name: Some("profiles.ini".to_string()),
            recovery_exists: false,
        },
        ProfileEntry {
            path: "/h/.mozilla/firefox/profile-b".to_string(),
            is_dir: true,
            file_name: Some("profile-b".to_string()),
            recovery_exists: false,
        },
    ];
    let found = recovery_files_in_base(Some(entries.as_slice()));
    assert_eq!(
        found,
        vec!["/h/.mozilla/firefox/profile-a/sessionstore-backups/recovery.jsonlz4".to_string()]
    );
    let listings = vec![Some(entries), None];
    assert_eq!(session_recovery_candidates(&listings).len(), 1);
}

#[test]
fn profile_paths_join_like_std_paths() {
    assert_eq!(join_path("/home/u", "x/y"), "/home/u/x/y");
    assert_eq!(join_path("/home/u/", "x"), "/home/u/x");
    assert_eq!(join_path("", "x"), "x");
    assert_eq!(
        find_recovery_file("/p", true),
        Some("/p/sessionstore-backups/recovery.jsonlz4".to_string())
    );
    assert_eq!(find_recovery_file("/p", false), None);
    assert!(is_visible_profile_dir(true, Some("abc.default")));
    assert!(!is_visible_profile_dir(true, Some(".cache")));
    assert!(!is_visible_profile_dir(false, Some("abc")));
    assert!(!is_visible_profile_dir(true, None));
}

#[test]
fn session_listing_forms() {
    let tabs = vec![
        tab(1, "A title that is rather long and keeps going well beyond seventy characters in total", "https://a"),
        tab(2, "Short", "https://b"),
    ];
    let urls = lines(print_session_tabs(
        vec![tab(1, "T1", "u1"), tab(1, "T2", "u2")],
        false,
        true,
        false,
    ));
    assert_eq!(urls, vec!["u1".to_string(), "u2".to_string()]);
    let titles = lines(print_session_tabs(vec![tab(1, "T1", "u1")], false, false, true));
    assert_eq!(titles, vec!["T1".to_string()]);
    let listing = lines(print_session_tabs(tabs, false, false, false));
    assert_eq!(listing.len(), 4);
    assert_eq!(
        listing[0],
        "   1. A title that is rather long and keeps going well beyond seventy charac"
    );
    assert_eq!(listing[1], "      https://a");
    assert_eq!(listing[2], "   2. Short");
    match print_session_tabs(vec![tab(1, "T", "u")], true, true, true) {
        SessionOutput::Json(tabs) => assert_eq!(tabs.len(), 1),
        SessionOutput::Lines(_) => panic!("expected json"),
    }
}

#[test]
fn session_count_prints_the_number_of_tabs() {
    let tabs: Vec<SessionTab> = (0..12).map(|i| tab(1, "t", &format!("u{}", i))).collect();
    let out = lines(execute_session_action(SessionAction::Count, tabs, false));
    assert_eq!(out, vec!["12".to_string()]);
}

#[test]
fn session_list_searches_urls_and_limits() {
    let tabs = vec![
        tab(1, "One", "https://EXAMPLE.org/a"),
        tab(1, "Two", "https://other.org"),
        tab(2, "Example three", "https://x.org"),
    ];
    let action = SessionCommand::List {
        urls_only: false,
        titles_only: true,
        search: Some("example".to_string()),
        limit: None,
    };
    let out = lines(handle_session(action, false, tabs));
    assert_eq!(out, vec!["One".to_string(), "Example three".to_string()]);
    let again = filter_session_tabs(
        filter_session_tabs(vec![tab(1, "aXb", "u"), tab(1, "c", "u")], Some("x"), None),
        Some("x"),
        None,
    );
    assert_eq!(again.len(), 1);
    assert_eq!(filter_session_tabs(vec![tab(1, "a", "u"), tab(1, "b", "u"), tab(1, "c", "u")], None, Some(5)).len(), 3);
    assert_eq!(filter_session_tabs(vec![tab(1, "a", "u"), tab(1, "b", "u")], None, Some(0)).len(), 0);
}

#[test]
fn session_file_bytes_are_header_then_lz4() {
    let json = br#"{"windows":[]}"#;
    let mut file = b"mozLz40\0".to_vec();
    file.extend(lz4_flex::block::compress_prepend_size(json));
    let decoded = decode_session_file(&file).ok().expect("decodes");
    assert_eq!(decoded, json.to_vec());

    match decode_session_file(b"mozLz4") {
        Err(SessionFileError::MissingHeader) => {}
        _ => panic!("expected a missing header"),
    }
    let mut broken = b"mozLz40\0".to_vec();
    broken.extend([0xff, 0xff, 0xff, 0x7f, 0xf0]);
    match decode_session_file(&broken) {
        Err(e) => assert!(e.message().starts_with("LZ4 decompression failed: ")),
        Ok(_) => panic!("expected an error"),
    }
}

#[test]
fn session_files_read_as_json() {
    let mut file = b"mozLz40\0".to_vec();
    file.extend(lz4_flex::block::compress_prepend_size(br#"{"windows":[{"tabs":[{"index":1,"entries":[{"title":"T","url":"https://t"}]}]}]}"#));
    let session = decode_session_json(&file).ok().expect("decodes");
    let tabs = get_session_tabs(&session);
    assert_eq!(tabs.len(), 1);
    assert_eq!(tabs[0].title, "T");
    assert_eq!(tabs[0].url, "https://t");
    assert_eq!(tabs[0].window, 1);

    let mut not_json = b"mozLz40\0".to_vec();
    not_json.extend(lz4_flex::block::compress_prepend_size(b"{oops"));
    match decode_session_json(&not_json) {
        Err(SessionFileError::Json(m)) => assert!(!m.is_empty()),
        _ => panic!("expected a JSON error"),
    }
    assert!(matches!(decode_session_json(b"short"), Err(SessionFileError::MissingHeader)));
}
