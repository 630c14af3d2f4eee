use nzbfast_serve::daemon::{Daemon, QualityPrefs, Vocabulary};
use nzbfast_serve::fresh::daemon_in;
use nzbfast_serve::startup::{
    config_moved, list_at_start, lock_step, password_seed, resolve_index_enabled,
    restore_runtime_state, seed_auto_retry_secs, seed_index_evict, seed_index_evict_kinds, seed_index_evict_order,
    seed_index_gates, seed_index_max_bytes, seed_index_pause_on_download, seed_index_paused,
    seed_index_retention, seed_line_speed, seed_omdb_key, seed_predb_channels,
    seed_predb_corr_auto, seed_predb_corr_enabled, seed_predb_enabled, seed_predb_nick,
    seed_predb_server, seed_quality_prefs, seed_spot_backfill, seed_spot_enabled,
    seed_spot_groups, seed_stream_secret, LockStep, LockVerdict, Migrated, Restoring,
    SpeedArg,
};
use nzbfast_serve::value::{array, object, text, uint, Value};
use nzbfast_serve::worker::terms;

fn texts(list: &[&str]) -> Vec<String> {
    list.iter().map(|s| s.to_string()).collect()
}

fn words() -> Vocabulary {
    Vocabulary {
        ui_locales: texts(&["en", "de"]),
        evict_orders: texts(&["ladder", "oldest"]),
        evict_kinds: texts(&["movie", "tv"]),
        default_cats: texts(&["tv", "*", "movies"]),
        predb_host: "irc.default.invalid".to_string(),
        predb_channels: texts(&["#pre"]),
        predb_nick: "reader".to_string(),
        predb_rows_min: 1_000,
        predb_rows_max: 1_000_000,
    }
}

fn saved(entries: Vec<(&str, Value)>) -> Value {
    object(entries.into_iter().map(|(k, v)| (k.to_string(), v)).collect())
}

fn restoring() -> Restoring {
    Restoring {
        smart_folders: Ok(Vec::new()),
        custom_categories: Ok(Migrated { list: Vec::new(), renamed: false, valid: true }),
        interests: Vec::new(),
        owned: Vec::new(),
        targets: Ok(Vec::new()),
        instances: Ok(Vec::new()),
        dests: None,
        clean: Vec::new(),
        speedlimit: None,
    }
}

#[test]
fn a_fresh_daemon_has_its_categories_in_order() {
    let d: Daemon = daemon_in("/data", words());
    assert_eq!(d.paths.cats, vec!["*", "movies", "tv"]);
    assert_eq!(d.paths.settings_path, "/data/settings.json");
    assert_eq!(d.numbers.window, 1);
    assert!(!d.switches.auto_defer);
}

#[test]
fn a_fetch_has_the_terms_that_are_set() {
    let mut d = daemon_in("/data", words());
    d.engine.connections = 0;
    d.numbers.window = 9;
    d.numbers.quota = 0;
    let t = terms(&d);
    assert_eq!((t.connections, t.window, t.ahead, t.routed), (1, 9, true, false));
    d.numbers.quota = 5;
    d.switches.oracle_route = true;
    assert!(!terms(&d).ahead && terms(&d).routed);
}

#[test]
fn what_was_saved_survives_a_restart() {
    let mut d = daemon_in("/data", words());
    let s = saved(vec![
        ("auto_defer", Value::Bool(true)),
        ("index_scan_par", uint(99)),
        ("watch_interval_secs", uint(99_999)),
        ("delete_to_trash", Value::Bool(true)),
    ]);
    restore_runtime_state(&mut d, &s, restoring()).1.unwrap();
    assert!(d.switches.auto_defer);
    // What a hand-edited file says is brought into its bounds.
    assert_eq!(d.numbers.index_scan_par, 8);
    assert_eq!(d.paths.watch_interval_secs, 3_600);
    assert!(d.paths.delete_to_trash);
}

#[test]
fn a_bad_limit_does_not_lose_what_is_saved_again() {
    let mut d = daemon_in("/data", words());
    let s = saved(vec![("custom_categories", array(&vec![]))]);
    let g = Restoring {
        custom_categories: Ok(Migrated { list: vec![text("x")], renamed: true, valid: true }),
        owned: texts(&["alt.g"]),
        speedlimit: Some(SpeedArg { text: "fast".to_string(), size: None }),
        ..restoring()
    };
    let (again, limit) = restore_runtime_state(&mut d, &s, g);
    assert_eq!(limit.unwrap_err(), "--speedlimit: bad size \"fast\" (e.g. 4M, 500K, 0)");
    let names: Vec<&str> = again.iter().map(|e| e.0.as_str()).collect();
    assert_eq!(names, ["custom_categories", "index_interest_groups"]);
}

#[test]
fn switches_have_their_defaults() {
    let none = saved(vec![]);
    assert!(seed_index_retention(&none));
    assert!(seed_index_pause_on_download(&none));
    assert!(!seed_index_paused(&none));
    assert!(!seed_predb_enabled(&none));
    assert!(!seed_predb_corr_enabled(&none));
    assert!(!seed_predb_corr_auto(&none));
    assert!(!seed_spot_enabled(&none));
    assert!(!seed_index_evict(&none));
    let s = saved(vec![
        ("index_retention", Value::Bool(false)),
        ("spot_enabled", Value::Bool(true)),
    ]);
    assert!(!seed_index_retention(&s));
    assert!(seed_spot_enabled(&s));
}

#[test]
fn texts_and_numbers_have_their_defaults() {
    let none = saved(vec![]);
    assert_eq!(seed_predb_server(&none, "irc.x"), "irc.x");
    assert_eq!(seed_predb_channels(&none, &texts(&["#a", "#b"])), "#a,#b");
    assert_eq!(seed_predb_nick(&saved(vec![("predb_nick", text("  "))]), "n"), "n");
    assert_eq!(seed_predb_nick(&saved(vec![("predb_nick", text("me"))]), "n"), "me");
    assert_eq!(seed_spot_groups(&none), vec!["free.pt"]);
    assert_eq!(
        seed_spot_groups(&saved(vec![("spot_groups", array(&vec![text("a"), uint(1)]))])),
        vec!["a"]
    );
    assert_eq!(seed_spot_backfill(&none), 50_000);
    assert_eq!(seed_spot_backfill(&saved(vec![("spot_backfill", uint(1))])), 1_000);
    assert_eq!(seed_index_max_bytes(&saved(vec![("index_max_bytes", uint(7))])), 7);
    assert_eq!(seed_line_speed(&none), 0);
    assert_eq!(seed_index_gates(&saved(vec![("index_gates", text("g"))]), true), ("g".to_string(), true));
    assert_eq!(seed_auto_retry_secs(&None, 5), 300);
    assert_eq!(seed_auto_retry_secs(&Some("7".to_string()), 5), 7);
    assert_eq!(seed_auto_retry_secs(&Some("x".to_string()), 5), 300);
}

#[test]
fn words_that_are_none_fall_back() {
    let orders = texts(&["ladder", "oldest"]);
    let kinds = texts(&["movie", "tv"]);
    assert_eq!(seed_index_evict_order(&saved(vec![("index_evict_order", text("oldest"))]), &orders), "oldest");
    assert_eq!(seed_index_evict_order(&saved(vec![("index_evict_order", text("up"))]), &orders), "ladder");
    let s = saved(vec![("index_evict_kinds", array(&vec![text("tv"), text("movie")]))]);
    assert_eq!(seed_index_evict_kinds(&s, &kinds), vec!["tv", "movie"]);
    let s = saved(vec![("index_evict_kinds", text("tv,book"))]);
    assert!(seed_index_evict_kinds(&s, &kinds).is_empty());
    let q = QualityPrefs {
        res: "1080p".to_string(),
        vcodec: String::new(),
        acodec: String::new(),
        hdr: String::new(),
    };
    assert_eq!(seed_quality_prefs(&saved(vec![("prefer_quality", text("x"))]), Some(q)).res, "1080p");
    assert_eq!(seed_quality_prefs(&saved(vec![]), None).res, "");
    assert_eq!(seed_omdb_key(&saved(vec![("omdb_key", text(""))])), None);
    assert_eq!(seed_omdb_key(&saved(vec![("omdb_key", text("k"))])), Some("k".to_string()));
}

#[test]
fn a_saved_list_counts_where_it_can_be_read() {
    let s = saved(vec![("feeds", array(&vec![]))]);
    let none = saved(vec![]);
    let there = || vec![1, 2];
    assert_eq!(list_at_start(there(), &s, "feeds", Ok(vec![])), Vec::<i32>::new());
    assert_eq!(list_at_start(there(), &s, "feeds", Ok(vec![3])), vec![3]);
    assert_eq!(list_at_start(there(), &s, "feeds", Err("bad".to_string())), vec![1, 2]);
    assert_eq!(list_at_start(there(), &none, "feeds", Ok(vec![3])), vec![1, 2]);
}

#[test]
fn a_secret_is_made_once() {
    assert_eq!(seed_stream_secret(&saved(vec![]), "new"), ("new".to_string(), true));
    let s = saved(vec![("stream_secret", text("old"))]);
    assert_eq!(seed_stream_secret(&s, "new"), ("old".to_string(), false));
}

#[test]
fn an_install_that_indexes_goes_on_indexing() {
    let none = saved(vec![]);
    assert!(!resolve_index_enabled(&none, &Vec::new()));
    assert!(resolve_index_enabled(&none, &texts(&["alt.a"])));
    assert!(resolve_index_enabled(&saved(vec![("index_interests", text("sport"))]), &Vec::new()));
    let off = saved(vec![("index_enabled", Value::Bool(false))]);
    assert!(!resolve_index_enabled(&off, &texts(&["alt.a"])));
}

#[test]
fn a_passwords_file_is_never_touched_twice() {
    let s = saved(vec![("unpack_passwords", array(&vec![text("a"), text("b")]))]);
    assert_eq!(password_seed(&s, true), None);
    assert_eq!(password_seed(&s, false), Some("a\nb\n".to_string()));
    assert_eq!(password_seed(&saved(vec![]), false), Some(String::new()));
}

#[test]
fn only_a_lock_that_stays_held_refuses_the_start() {
    assert_eq!(lock_step(LockVerdict::Ours, 0), LockStep::Keep);
    assert_eq!(lock_step(LockVerdict::Unsupported, 0), LockStep::GoWithout);
    assert_eq!(lock_step(LockVerdict::Held, 24), LockStep::Retry);
    assert_eq!(lock_step(LockVerdict::Held, 25), LockStep::Refuse);
    assert!(config_moved(true, true, false));
    assert!(!config_moved(false, true, true));
}
