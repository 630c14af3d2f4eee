use std::collections::HashSet;

use nzbfast_serve::daemon::{
    Action, ArrInstance, CatDest, Daemon, Feed, Flag, Indexer, QualityPrefs, Target, Vocabulary,
};
use nzbfast_serve::fresh::daemon_in as fresh_daemon;
use nzbfast_serve::settings::automation::{
    set_apikey, set_arr_giveup_threshold, set_custom_categories, set_failure_link,
    set_password_file, set_password_prompt, set_prefer_quality, set_smart_folders,
    set_unpack_eat_volumes, set_watchlist, set_watchlist_instant_max, PasswordFile,
};
use nzbfast_serve::settings::config::{
    annotate_patterns, config_block, config_value, rule_patterns, ConfigCtx, RuleVerdict,
};
use nzbfast_serve::settings::engine::{
    set_bench_interval, set_connections, set_history_rows, set_out_umask, set_quota_period,
    set_speedlimit, set_ui_locale, set_update_url, set_verify_mode, Schedule,
};
use nzbfast_serve::settings::indexing::{
    parse_evict_kinds, set_index_evict_kinds, set_index_evict_order, set_index_gapfill,
    set_index_tip_secs, set_spot_backfill,
};
use nzbfast_serve::settings::lists::{
    set_arr_instances, set_feeds, set_indexers, set_notify_targets,
};
use nzbfast_serve::settings::log::{log_value, shape_only};
use nzbfast_serve::settings::outcome::set_switch;
use nzbfast_serve::settings::paths::{
    path_str, set_categories, set_out_dir, set_watch_interval_secs, typed_categories, why_bad_dest,
    DirProbe, GivenDest,
};
use nzbfast_serve::settings::predb::set_predb_server;
use nzbfast_serve::settings::table::{setting, settings};
use nzbfast_serve::settings::warn::{judged_warning, rules_save_warning, RuleFault};
use nzbfast_serve::settings::{apply_and_save, apply_setting, credential, Given};
use nzbfast_serve::startup::{
    restore_runtime_state, saved_categories, seed_index_evict_kinds, seed_predb_channels,
    seed_predb_nick, seed_spot_backfill, seed_spot_groups, Migrated, Restoring,
};
use nzbfast_serve::value::{array, object, text, uint, Number, Value};

const DEFAULT_HOST: &str = "irc.default.invalid";
const DEFAULT_CATS: [&str; 4] = ["*", "movies", "music", "tv"];

fn texts(list: &[&str]) -> Vec<String> {
    list.iter().map(|s| s.to_string()).collect()
}

fn words() -> Vocabulary {
    Vocabulary {
        ui_locales: texts(&["en", "de", "fr"]),
        evict_orders: texts(&["ladder", "oldest", "largest"]),
        evict_kinds: texts(&["movie", "tv", "music"]),
        default_cats: texts(&DEFAULT_CATS),
        predb_host: DEFAULT_HOST.to_string(),
        predb_channels: texts(&["#pre"]),
        predb_nick: "reader".to_string(),
        predb_rows_min: 1_000,
        predb_rows_max: 1_000_000,
    }
}

fn daemon_in(name: &str) -> Daemon {
    fresh_daemon(name, words())
}

/// A parsed JSON text as the library's value.
fn value(v: &serde_json::Value) -> Value {
    match v {
        serde_json::Value::Null => Value::Null,
        serde_json::Value::Bool(b) => Value::Bool(*b),
        serde_json::Value::Number(n) => match (n.as_u64(), n.as_i64()) {
            (Some(u), _) => Value::Number(Number::Unsigned(u)),
            (_, Some(i)) => Value::Number(Number::Negative(i)),
            _ => Value::Number(Number::Real(n.to_string())),
        },
        serde_json::Value::String(s) => Value::Text(s.clone()),
        serde_json::Value::Array(a) => Value::Array(a.iter().map(value).collect()),
        serde_json::Value::Object(o) => {
            Value::Object(o.iter().map(|(k, v)| (k.clone(), value(v))).collect())
        }
    }
}

fn json(s: &str) -> Value {
    value(&serde_json::from_str(s).unwrap())
}

fn raw_list(s: &str) -> Result<Vec<serde_json::Value>, String> {
    serde_json::from_str(s).map_err(|e| e.to_string())
}

fn list(s: &str) -> Result<Vec<Value>, String> {
    raw_list(s).map(|l| l.iter().map(value).collect())
}

fn word(v: &serde_json::Value, key: &str) -> String {
    v.get(key).and_then(|x| x.as_str()).unwrap_or("").to_string()
}

fn instances(s: &str) -> Result<Vec<ArrInstance>, String> {
    raw_list(s).map(|l| {
        l.iter()
            .map(|v| ArrInstance {
                name: word(v, "name"),
                kind: word(v, "kind"),
                url: word(v, "url"),
                apikey: word(v, "apikey"),
                enabled: true,
            })
            .collect()
    })
}

fn feeds(s: &str) -> Result<Vec<Feed>, String> {
    raw_list(s).map(|l| l.iter().map(|v| Feed { url: word(v, "url"), json: value(v) }).collect())
}

fn probe() -> DirProbe {
    DirProbe { absolute: Ok(()), made: Ok(()), writable: true, is_out_root: false }
}

/// What the rest of the process says of a value that is none of these.
fn given() -> Given {
    Given {
        size: None,
        schedule: Ok(Schedule { entries: Vec::new(), paused: None, limit: None }),
        interests: Vec::new(),
        gates: Ok(()),
        feeds: Ok(Vec::new()),
        indexers: Ok(Vec::new()),
        list: Ok(Vec::new()),
        categories_valid: Ok(()),
        targets: Ok(Vec::new()),
        instances: Ok(Vec::new()),
        quality: Err("not given".to_string()),
        exts: Vec::new(),
        password_file: PasswordFile { default_path: String::new(), made: Ok(()) },
        dir: probe(),
        dests: Ok(Vec::new()),
        clean: Vec::new(),
    }
}

// ---- annotate_patterns -------------------------------------------------

fn verdict(matching: Option<&str>, not_matching: Option<&str>) -> RuleVerdict {
    RuleVerdict {
        matching: matching.map(|s| s.to_string()),
        not_matching: not_matching.map(|s| s.to_string()),
    }
}

#[test]
fn annotate_patterns_leaves_non_arrays_alone() {
    let none: Vec<RuleVerdict> = Vec::new();
    assert_eq!(annotate_patterns(json(r#"{"match": "("}"#), &none), json(r#"{"match": "("}"#));
    assert_eq!(annotate_patterns(json("\"plain\""), &none), json("\"plain\""));
    assert_eq!(annotate_patterns(Value::Null, &none), Value::Null);
}

#[test]
fn annotate_patterns_flags_only_bad_rules() {
    let rules = r#"[
        {"match": "foo", "not_match": "bar"},
        {"match": "(", "not_match": ".*"},
        {"match": 7},
        {},
        "not an object"
    ]"#;
    let read = list(rules).unwrap();
    let patterns = rule_patterns(&read);
    assert_eq!(patterns[1], ("(".to_string(), ".*".to_string()));
    // Non-string and missing patterns are treated as "".
    assert_eq!(patterns[2], (String::new(), String::new()));
    let verdicts = patterns
        .iter()
        .map(|(m, n)| {
            verdict(
                if m == "(" { Some("literal") } else { None },
                if n == ".*" { Some("matches_everything") } else { None },
            )
        })
        .collect();
    let out = annotate_patterns(json(rules), &verdicts);
    let out = out.as_array().unwrap();
    // Ok verdicts are omitted entirely, so a clean rule is untouched.
    assert_eq!(out[0], json(r#"{"match": "foo", "not_match": "bar"}"#));
    assert_eq!(out[1].get_text("match_verdict").unwrap(), "literal");
    assert_eq!(out[1].get_text("not_verdict").unwrap(), "matches_everything");
    assert!(out[2].get("match_verdict").is_none());
    assert!(out[2].get("not_verdict").is_none());
    assert_eq!(out[3], json("{}"));
    // A non-object entry passes through unchanged.
    assert_eq!(out[4], json("\"not an object\""));
}

// ---- rules_save_warning ------------------------------------------------

/// Why a pattern will not compile.
fn pattern_error(pattern: &str) -> Option<String> {
    match pattern {
        "*anime*" => Some("repetition operator missing expression".to_string()),
        "[a-" => Some("unclosed character class".to_string()),
        _ => None,
    }
}

fn faults(v: &str) -> Vec<RuleFault> {
    rule_patterns(&list(v).unwrap_or_default())
        .iter()
        .map(|(m, n)| RuleFault { matching: pattern_error(m), not_matching: pattern_error(n) })
        .collect()
}

fn warning(name: &str, v: &str) -> Option<String> {
    let judged = judged_warning(name, v, &faults(v)).expect("every rule was judged");
    assert_eq!(rules_save_warning(name, v, &faults(v)), judged);
    judged
}

#[test]
fn rules_that_were_not_judged_are_not_passed_over() {
    let rules = r#"[{"match":"a"},{"match":"*anime*"}]"#;
    let none = || RuleFault { matching: None, not_matching: None };
    assert_eq!(judged_warning("smart_folders", rules, &vec![none()]), None);
    assert_eq!(judged_warning("smart_folders", rules, &vec![none(), none()]), Some(None));
    assert_eq!(judged_warning("watchlist", rules, &vec![]), Some(None));
    assert_eq!(judged_warning("smart_folders", "{}", &vec![]), Some(None));
}

/// The save-time warning fires only for the two rules settings, only on
/// patterns that will not compile, and never panics on the shapes it can be
/// handed (empty clear, malformed JSON, non-object entries).
#[test]
fn rules_save_warning_names_the_rule_and_carries_the_engine_error() {
    let rules = r#"[{"name":"animes","match":"*anime*"},{"match":"1080p","not_match":"[a-"}]"#;
    let w = warning("smart_folders", rules).expect("must warn");
    assert!(w.contains("\"animes\"") && w.contains("*anime*"), "{w}");
    assert!(w.contains("rule 2") && w.contains("[a-"), "{w}");
    assert!(w.contains("repetition"), "the engine's reason must ride along: {w}");

    // Valid-but-dangerous compiles say nothing at save time.
    assert_eq!(warning("smart_folders", r#"[{"match":".*"}]"#), None);
    assert_eq!(warning("smart_folders", r#"[{"match":"!*"}]"#), None);
    // Only the two rules settings are judged, and junk never panics.
    assert_eq!(warning("watchlist", rules), None);
    assert_eq!(warning("smart_folders", ""), None);
    assert_eq!(warning("smart_folders", "not json"), None);
    assert_eq!(warning("smart_folders", r#"["not an object", 7]"#), None);
    // The custom-category editor rides the same engine.
    let cats = r#"[{"slug":"a","name":"Anime","match":"*anime*","base":"tv"}]"#;
    let w = warning("custom_categories", cats).expect("cats must warn");
    assert!(w.contains("\"Anime\""), "{w}");
}

// ---- shape_only / path_str ---------------------------------------------

#[test]
fn shape_only_counts_chars_not_bytes() {
    assert_eq!(shape_only(""), "(empty)");
    assert_eq!(shape_only("abc"), "(3 chars, not logged)");
    // 4 chars but 5 bytes: the count must be characters.
    assert_eq!(shape_only("über"), "(4 chars, not logged)");
}

#[test]
fn path_str_maps_none_to_empty() {
    assert_eq!(path_str(&None), "");
    assert_eq!(path_str(&Some("/a/b".to_string())), "/a/b");
}

// ---- the settings table -------------------------------------------------

#[test]
fn settings_table_names_are_unique_and_nonempty() {
    let mut seen = HashSet::new();
    for s in settings() {
        assert!(!s.name.is_empty(), "a settings row has an empty name");
        assert!(seen.insert(s.name), "duplicate settings row {:?}", s.name);
    }
    assert!(setting("history_rows").is_some());
    assert!(setting("no_such_setting_ever").is_none());
}

#[test]
fn every_row_is_found_by_its_name_alone() {
    for s in settings() {
        let r = setting(s.name).unwrap();
        assert_eq!((r.name, r.expose, r.write, r.log), (s.name, s.expose, s.write, s.log));
        assert!(setting(&s.name.to_uppercase()).is_none());
        assert!(setting(&format!(" {}", s.name)).is_none());
    }
}

// ---- numeric validators -------------------------------------------------

#[test]
fn set_index_gapfill_validates_and_stores() {
    let mut d = daemon_in("gapfill");
    d.indexing.index_gapfill = 7;
    let e = set_index_gapfill(&mut d, "index_gapfill", "x").unwrap_err();
    assert!(e.contains("not a number"), "{e}");
    let e = set_index_gapfill(&mut d, "index_gapfill", "101").unwrap_err();
    assert!(e.contains("0-100"), "{e}");
    assert_eq!(d.indexing.index_gapfill, 7);
    assert_eq!(set_index_gapfill(&mut d, "index_gapfill", "50").unwrap(), (true, uint(50)));
    assert_eq!(d.indexing.index_gapfill, 50);
}

#[test]
fn set_bench_interval_validates_and_stores() {
    let mut d = daemon_in("bench");
    d.speed.bench_interval = 3;
    let e = set_bench_interval(&mut d, "bench_interval", "x").unwrap_err();
    assert!(e.contains("not a number"), "{e}");
    let e = set_bench_interval(&mut d, "bench_interval", "721").unwrap_err();
    assert!(e.contains("0-720"), "{e}");
    assert_eq!(d.speed.bench_interval, 3);
    assert_eq!(set_bench_interval(&mut d, "bench_interval", "12").unwrap(), (true, uint(12)));
    assert_eq!(d.speed.bench_interval, 12);
}

#[test]
fn set_history_rows_rejects_out_of_range() {
    let mut d = daemon_in("histrows");
    d.interface.history_rows = 30;
    for bad in ["0", "201"] {
        let e = set_history_rows(&mut d, "history_rows", bad).unwrap_err();
        assert!(e.contains("1-200"), "{e}");
    }
    assert_eq!(d.interface.history_rows, 30);
    assert_eq!(set_history_rows(&mut d, "history_rows", "25").unwrap(), (true, uint(25)));
    assert_eq!(d.interface.history_rows, 25);
}

#[test]
fn set_out_umask_octal_range_and_empty_clear() {
    let mut d = daemon_in("umask");
    d.engine.out_umask = 0o11;
    for bad in ["9x", "1777"] {
        let e = set_out_umask(&mut d, "out_umask", bad).unwrap_err();
        assert!(e.contains("octal"), "{e}");
    }
    assert_eq!(d.engine.out_umask, 0o11);
    // Empty is the way back to the process umask: u32::MAX.
    assert_eq!(set_out_umask(&mut d, "out_umask", "").unwrap(), (true, text("")));
    assert_eq!(d.engine.out_umask, u32::MAX);
    assert_eq!(set_out_umask(&mut d, "out_umask", "022").unwrap(), (true, text("022")));
    assert_eq!(d.engine.out_umask, 0o22);
}

#[test]
fn set_spot_backfill_rejects_and_clamps() {
    let mut d = daemon_in("spotbf");
    d.indexing.spot_backfill = 5_000;
    let e = set_spot_backfill(&mut d, "spot_backfill", "x").unwrap_err();
    assert!(e.contains("expected a number"), "{e}");
    assert_eq!(d.indexing.spot_backfill, 5_000);
    assert_eq!(set_spot_backfill(&mut d, "spot_backfill", "10").unwrap(), (true, uint(1_000)));
    assert_eq!(
        set_spot_backfill(&mut d, "spot_backfill", "9999999").unwrap(),
        (true, uint(1_000_000))
    );
    assert_eq!(
        set_spot_backfill(&mut d, "spot_backfill", "50000").unwrap(),
        (true, uint(50_000))
    );
    assert_eq!(d.indexing.spot_backfill, 50_000);
}

// ---- word-list validators -----------------------------------------------

#[test]
fn set_verify_mode_moves_the_flag_pair() {
    let mut d = daemon_in("verify");
    d.engine.fast_verify = true;
    d.engine.verify_lean = true;
    let e = set_verify_mode(&mut d, "verify_mode", "warp").unwrap_err();
    assert!(e.contains("full, fast, or lean"), "{e}");
    assert!(d.engine.fast_verify);
    assert!(d.engine.verify_lean);
    for (mode, fast, lean) in [("full", false, false), ("fast", true, false), ("lean", true, true)]
    {
        assert_eq!(set_verify_mode(&mut d, "verify_mode", mode).unwrap(), (true, text(mode)));
        assert_eq!(d.engine.fast_verify, fast, "{mode}");
        assert_eq!(d.engine.verify_lean, lean, "{mode}");
    }
    // The echo is the trimmed word.
    assert_eq!(set_verify_mode(&mut d, "verify_mode", " fast ").unwrap(), (true, text("fast")));
}

#[test]
fn set_quota_period_accepts_both_cases() {
    let mut d = daemon_in("quotap");
    d.engine.quota_period = b'd';
    let e = set_quota_period(&mut d, "quota_period", "w").unwrap_err();
    assert!(e.contains("d or m"), "{e}");
    assert_eq!(d.engine.quota_period, b'd');
    assert_eq!(set_quota_period(&mut d, "quota_period", "M").unwrap(), (true, text("m")));
    assert_eq!(d.engine.quota_period, b'm');
    assert_eq!(set_quota_period(&mut d, "quota_period", "d").unwrap(), (true, text("d")));
    assert_eq!(d.engine.quota_period, b'd');
}

#[test]
fn set_password_prompt_lowercases_and_rejects() {
    let mut d = daemon_in("pwprompt");
    d.automation.password_prompt = "done".to_string();
    let e = set_password_prompt(&mut d, "password_prompt", "sometimes").unwrap_err();
    assert!(e.contains("now, done or never"), "{e}");
    assert_eq!(d.automation.password_prompt, "done");
    assert_eq!(set_password_prompt(&mut d, "password_prompt", "NOW").unwrap(), (true, text("now")));
    assert_eq!(d.automation.password_prompt, "now");
}

#[test]
fn set_failure_link_word_list() {
    let mut d = daemon_in("faillink");
    d.automation.failure_link = "off".to_string();
    let e = set_failure_link(&mut d, "failure_link", "bogus").unwrap_err();
    assert!(e.contains("off, report or regrab"), "{e}");
    assert_eq!(d.automation.failure_link, "off");
    assert_eq!(
        set_failure_link(&mut d, "failure_link", "regrab").unwrap(),
        (true, text("regrab"))
    );
    assert_eq!(d.automation.failure_link, "regrab");
}

#[test]
fn set_update_url_requires_http_or_empty() {
    let mut d = daemon_in("updurl");
    d.interface.update_url = "https://known.invalid/u.json".to_string();
    let e = set_update_url(&mut d, "update_url", "ftp://mirror").unwrap_err();
    assert!(e.contains("http(s)"), "{e}");
    assert_eq!(d.interface.update_url, "https://known.invalid/u.json");
    assert_eq!(
        set_update_url(&mut d, "update_url", "https://example.invalid/m.json").unwrap(),
        (true, text("https://example.invalid/m.json"))
    );
    assert_eq!(d.interface.update_url, "https://example.invalid/m.json");
    // Empty disables checks and is allowed.
    assert_eq!(set_update_url(&mut d, "update_url", "").unwrap(), (true, text("")));
    assert_eq!(d.interface.update_url, "");
}

#[test]
fn set_predb_server_shape_checks_and_default_fallback() {
    let mut d = daemon_in("predbsrv");
    assert_eq!(
        set_predb_server(&mut d, "predb_server", "irc.example.net:7000").unwrap(),
        (true, text("irc.example.net:7000"))
    );
    let e = set_predb_server(&mut d, "predb_server", "bad host").unwrap_err();
    assert!(e.contains("host or host:port"), "{e}");
    let e = set_predb_server(&mut d, "predb_server", "host:xx").unwrap_err();
    assert!(e.contains("port number"), "{e}");
    assert_eq!(d.predb.server, "irc.example.net:7000");
    // Empty falls back to the built-in default host.
    let (live, echo) = set_predb_server(&mut d, "predb_server", "").unwrap();
    assert!(live);
    assert_eq!(echo, text(DEFAULT_HOST));
    assert_eq!(d.predb.server, DEFAULT_HOST);
}

#[test]
fn set_ui_locale_membership_and_empty_auto() {
    let mut d = daemon_in("uilocale");
    d.interface.ui_locale = "en".to_string();
    let e = set_ui_locale(&mut d, "ui_locale", "xx").unwrap_err();
    assert!(e.contains("ui_locale: one of"), "{e}");
    assert_eq!(d.interface.ui_locale, "en");
    assert_eq!(set_ui_locale(&mut d, "ui_locale", "DE").unwrap(), (true, text("de")));
    assert_eq!(d.interface.ui_locale, "de");
    assert_eq!(set_ui_locale(&mut d, "ui_locale", "").unwrap(), (true, text("")));
    assert_eq!(d.interface.ui_locale, "");
}

#[test]
fn set_index_evict_order_membership() {
    let mut d = daemon_in("evictord");
    d.indexing.index_evict_order = "ladder".to_string();
    let e = set_index_evict_order(&mut d, "index_evict_order", "sideways").unwrap_err();
    assert!(e.contains("index_evict_order"), "{e}");
    assert_eq!(d.indexing.index_evict_order, "ladder");
    assert_eq!(
        set_index_evict_order(&mut d, "index_evict_order", "Oldest").unwrap(),
        (true, text("oldest"))
    );
    assert_eq!(d.indexing.index_evict_order, "oldest");
}

#[test]
fn set_index_evict_kinds_validates_and_dedups() {
    let mut d = daemon_in("evictkinds");
    let e = set_index_evict_kinds(&mut d, "index_evict_kinds", "movie,junk").unwrap_err();
    assert!(e.contains("unknown kind"), "{e}");
    assert_eq!(
        set_index_evict_kinds(&mut d, "index_evict_kinds", "Movie, tv, movie").unwrap(),
        (true, array(&vec![text("movie"), text("tv")]))
    );
    assert_eq!(d.indexing.index_evict_kinds, vec!["movie", "tv"]);
}

// ---- JSON-blob validators -----------------------------------------------

#[test]
fn set_custom_categories_rejects_bad_json_and_bad_slugs() {
    let mut d = daemon_in("customcats");
    let v = "not json";
    let e = set_custom_categories(&mut d, "custom_categories", v, list(v), Ok(())).unwrap_err();
    assert!(e.contains("custom_categories:"), "{e}");
    // Valid JSON but a slug that is not valid (uppercase).
    let v = r#"[{"slug":"TV","match":"x"}]"#;
    let bad = Err("slug \"TV\" is not valid".to_string());
    let e = set_custom_categories(&mut d, "custom_categories", v, list(v), bad).unwrap_err();
    assert!(e.contains("custom_categories:"), "{e}");
    assert!(d.automation.custom_categories.is_empty());
    d.automation.reclassify_pending = false;
    let v = r#"[{"slug":"anime","match":"anime"}]"#;
    let (live, _) =
        set_custom_categories(&mut d, "custom_categories", v, list(v), Ok(())).unwrap();
    assert!(live);
    assert_eq!(d.automation.custom_categories.len(), 1);
    assert!(d.automation.reclassify_pending);
}

#[test]
fn set_prefer_quality_rejects_unknown_values() {
    let mut d = daemon_in("prefq");
    let unknown = Err("unknown res \"999p\"".to_string());
    let e =
        set_prefer_quality(&mut d, "prefer_quality", r#"{"res":"999p"}"#, unknown).unwrap_err();
    assert!(e.contains("prefer_quality:"), "{e}");
    assert_eq!(d.automation.quality_prefs.res, "");
    let prefs = QualityPrefs {
        res: "1080p".to_string(),
        vcodec: "x265".to_string(),
        acodec: String::new(),
        hdr: String::new(),
    };
    let v = r#"{"res":"1080p","vcodec":"x265"}"#;
    let (live, echo) = set_prefer_quality(&mut d, "prefer_quality", v, Ok(prefs)).unwrap();
    assert!(live);
    assert_eq!(echo.get("res").unwrap(), &text("1080p"));
    assert_eq!(d.automation.quality_prefs.res, "1080p");
    assert_eq!(d.automation.quality_prefs.vcodec, "x265");
}

#[test]
fn set_arr_instances_validates_kind_and_url() {
    let mut d = daemon_in("arrinst");
    let v = "not json";
    let e = set_arr_instances(&mut d, "arr_instances", v, instances(v)).unwrap_err();
    assert!(e.contains("arr_instances:"), "{e}");
    let v = r#"[{"name":"a","kind":"lidarr","url":"http://x","apikey":"k"}]"#;
    let e = set_arr_instances(&mut d, "arr_instances", v, instances(v)).unwrap_err();
    assert!(e.contains("sonarr or radarr"), "{e}");
    let v = r#"[{"name":"a","kind":"sonarr","url":"example.com","apikey":"k"}]"#;
    let e = set_arr_instances(&mut d, "arr_instances", v, instances(v)).unwrap_err();
    assert!(e.contains("http"), "{e}");
    assert!(d.automation.arr_instances.is_empty());
    let good = r#"[{"name":"a","kind":"sonarr","url":"http://localhost:8989","apikey":"k"}]"#;
    let (live, _) = set_arr_instances(&mut d, "arr_instances", good, instances(good)).unwrap();
    assert!(live);
    assert_eq!(d.automation.arr_instances.len(), 1);
    // A blank apikey on a round-trip keeps the stored key.
    let blanked = r#"[{"name":"a","kind":"sonarr","url":"http://localhost:8989","apikey":""}]"#;
    set_arr_instances(&mut d, "arr_instances", blanked, instances(blanked)).unwrap();
    assert_eq!(d.automation.arr_instances[0].apikey, "k");
}

#[test]
fn json_list_setters_reject_bad_json() {
    let mut d = daemon_in("jsonlists");
    let e = set_feeds(&mut d, "feeds", "{bad", feeds("{bad")).unwrap_err();
    assert!(e.contains("feeds:"), "{e}");
    let e = set_watchlist(&mut d, "watchlist", "[{", list("[{")).unwrap_err();
    assert!(e.contains("watchlist:"), "{e}");
    let e = set_smart_folders(&mut d, "smart_folders", "nope", list("nope")).unwrap_err();
    assert!(e.contains("smart_folders:"), "{e}");
}

/// A category name made usable as a folder's name.
fn usable(name: &str) -> String {
    let s = name.trim_matches('.').to_string();
    if s.is_empty() {
        "unnamed".to_string()
    } else {
        s
    }
}

#[test]
fn set_categories_keeps_the_builtin_floor() {
    let mut d = daemon_in("cats");
    let v = "Anime, *, , tv";
    let clean = typed_categories(v).iter().map(|c| usable(c)).collect();
    let (live, echo) = set_categories(&mut d, "categories", v, &clean).unwrap();
    assert!(live);
    for c in DEFAULT_CATS {
        assert!(d.paths.cats.iter().any(|x| x == c), "builtin {c} was dropped");
    }
    assert!(d.paths.cats.iter().any(|x| x == "Anime"));
    // The echo is the display list, which hides the "*" wildcard.
    assert_eq!(echo, text(&d.cat_list()));
    assert!(!d.cat_list().contains('*'));
    // All-dots names cannot survive sanitising as themselves: they come
    // back as the "unnamed" placeholder.
    let clean = typed_categories("...").iter().map(|c| usable(c)).collect();
    set_categories(&mut d, "categories", "...", &clean).unwrap();
    assert!(d.paths.cats.iter().any(|x| x == "unnamed"));
}

// ---- clamp behaviors ----------------------------------------------------

#[test]
fn set_watch_interval_secs_clamps_1_to_3600() {
    let mut d = daemon_in("watchint");
    assert_eq!(
        set_watch_interval_secs(&mut d, "watch_interval_secs", "0").unwrap(),
        (true, uint(1))
    );
    assert_eq!(d.paths.watch_interval_secs, 1);
    assert_eq!(
        set_watch_interval_secs(&mut d, "watch_interval_secs", "99999").unwrap(),
        (true, uint(3600))
    );
    assert_eq!(d.paths.watch_interval_secs, 3600);
}

#[test]
fn set_watchlist_instant_max_caps_at_3600() {
    let mut d = daemon_in("instmax");
    assert_eq!(
        set_watchlist_instant_max(&mut d, "watchlist_instant_max", "5000").unwrap(),
        (true, uint(3600))
    );
    assert_eq!(d.automation.watchlist_instant_max, 3600);
    assert_eq!(
        set_watchlist_instant_max(&mut d, "watchlist_instant_max", "7").unwrap(),
        (true, uint(7))
    );
    assert_eq!(d.automation.watchlist_instant_max, 7);
}

#[test]
fn set_arr_giveup_threshold_caps_at_1000() {
    let mut d = daemon_in("giveupthr");
    let e = set_arr_giveup_threshold(&mut d, "arr_giveup_threshold", "x").unwrap_err();
    assert!(e.contains("not a number"), "{e}");
    assert_eq!(
        set_arr_giveup_threshold(&mut d, "arr_giveup_threshold", "5000").unwrap(),
        (true, uint(1000))
    );
    assert_eq!(d.automation.arr_giveup_threshold, 1000);
}

#[test]
fn set_index_tip_secs_zero_off_else_floor_5() {
    let mut d = daemon_in("tipsecs");
    assert_eq!(set_index_tip_secs(&mut d, "index_tip_secs", "0").unwrap(), (true, uint(0)));
    assert_eq!(d.indexing.index_tip_secs, 0);
    assert_eq!(set_index_tip_secs(&mut d, "index_tip_secs", "3").unwrap(), (true, uint(5)));
    assert_eq!(d.indexing.index_tip_secs, 5);
    assert_eq!(set_index_tip_secs(&mut d, "index_tip_secs", "60").unwrap(), (true, uint(60)));
    assert_eq!(d.indexing.index_tip_secs, 60);
}

// ---- apply_setting end to end -------------------------------------------

#[test]
fn apply_setting_tells_unknown_from_read_only() {
    let mut d = daemon_in("applymisc");
    let e = apply_setting(&mut d, "no_such_thing", "1", given()).unwrap_err();
    assert!(e.contains("unsupported config item"), "{e}");
    let e = apply_setting(&mut d, "config_path", "/x", given()).unwrap_err();
    assert!(e.contains("is read-only"), "{e}");
    // And a plain arm still routes through: history_rows lands live.
    assert_eq!(
        apply_setting(&mut d, "history_rows", "42", given()).unwrap(),
        (true, uint(42))
    );
    assert_eq!(d.interface.history_rows, 42);
}

// ---- laws, on values ------------------------------------------------------

fn ctx(d: &Daemon) -> ConfigCtx<'_> {
    ConfigCtx {
        d,
        mem_limit: 0,
        conntune: Value::Null,
        password_count: 0,
        smart_verdicts: Vec::new(),
        category_verdicts: Vec::new(),
        last_sends: Vec::new(),
    }
}

#[test]
fn a_stored_value_is_shown_as_it_was_saved() {
    let mut d = daemon_in("echo");
    for (name, v) in [
        ("history_rows", "42"),
        ("out_umask", "022"),
        ("bench_interval", "12"),
        ("index_groups", "alt.a, alt.b"),
        ("auto_defer", "1"),
        ("window", "9"),
        ("update_url", "https://example.invalid/m.json"),
    ] {
        let (live, saved) = apply_setting(&mut d, name, v, given()).unwrap();
        assert!(live, "{name}");
        assert_eq!(config_value(&ctx(&d), name), Some(saved), "{name}");
    }
    assert!(d.switches.auto_defer);
    assert_eq!(d.numbers.window, 9);
}

fn restoring() -> Restoring {
    Restoring {
        smart_folders: Ok(Vec::new()),
        custom_categories: Ok(Migrated { list: Vec::new(), renamed: false, valid: true }),
        interests: Vec::new(),
        owned: Vec::new(),
        targets: Ok(Vec::new()),
        instances: Ok(Vec::new()),
        dests: None,
        clean: Vec::new(),
        speedlimit: None,
    }
}

#[test]
fn what_was_set_is_shown_after_a_restart() {
    let mut d = daemon_in("before");
    let mut entries: Vec<(String, Value)> = Vec::new();
    for (name, v) in [
        ("history_rows", "42"),
        ("auto_defer", "1"),
        ("index_scan_par", "99"),
        ("index_tip_secs", "45"),
        ("predb_max_rows", "5000"),
        ("ui_locale", "de"),
        ("delete_to_trash", "1"),
        ("move_completed", " /films "),
        ("password_prompt", "never"),
        ("watchlist_instant_max", "9999"),
    ] {
        let (_, saved) = apply_setting(&mut d, name, v, given()).unwrap();
        entries.push((name.to_string(), saved));
    }
    let mut again = daemon_in("after");
    let file = object(entries);
    restore_runtime_state(&mut again, &file, restoring()).1.unwrap();
    let Value::Object(entries) = file else { panic!("an object") };
    assert_eq!(entries.len(), 10);
    for (name, saved) in entries {
        assert_eq!(config_value(&ctx(&again), &name), Some(saved), "{name}");
    }
    assert_eq!(config_value(&ctx(&again), "history_rows"), Some(uint(42)));
    assert_eq!(again.numbers.index_scan_par, 8);
}

#[test]
fn what_others_read_is_shown_after_a_restart() {
    let mut d = daemon_in("before");
    let typed = typed_categories("zoo, anime,*, tv");
    let dest = |path: &str| GivenDest {
        cat: "tv".to_string(),
        path: path.to_string(),
        probe: probe(),
    };
    let all = |clean: Vec<String>| Given {
        clean,
        dests: Ok(vec![dest("/nas/tv")]),
        interests: texts(&["sport", "music"]),
        ..given()
    };
    let mut entries: Vec<(String, Value)> = Vec::new();
    for (name, v) in [
        ("categories", "zoo, anime,*, tv"),
        ("move_completed_cats", "tv=/nas/tv"),
        ("index_interests", "sport,music"),
    ] {
        let (_, saved) = apply_setting(&mut d, name, v, all(typed.clone())).unwrap();
        entries.push((name.to_string(), saved));
    }
    let file = object(entries);
    let names = saved_categories(&file);
    assert!(names.iter().any(|n| n == "zoo") && !names.iter().any(|n| n == "*"));
    let mut again = daemon_in("after");
    let g = Restoring {
        clean: names,
        dests: Some(vec![CatDest { cat: "tv".to_string(), path: "/nas/tv".to_string() }]),
        interests: texts(&["sport", "music"]),
        ..restoring()
    };
    restore_runtime_state(&mut again, &file, g).1.unwrap();
    let Value::Object(entries) = file else { panic!("an object") };
    assert_eq!(entries.len(), 3);
    for (name, saved) in entries {
        assert_eq!(config_value(&ctx(&again), &name), Some(saved), "{name}");
    }
}

#[test]
fn saved_names_keep_the_wildcard() {
    let s = object(vec![("categories".to_string(), text(" tv ,, *,films"))]);
    assert_eq!(saved_categories(&s), vec!["tv", "*", "films"]);
    assert!(saved_categories(&object(vec![])).is_empty());
}

#[test]
fn what_was_set_is_seeded_at_the_next_start() {
    let mut d = daemon_in("seeds");
    let mut entries: Vec<(String, Value)> = Vec::new();
    for (name, v) in [
        ("index_evict_kinds", " TV,movie , tv"),
        ("predb_channels", "#one, two words ,"),
        ("predb_nick", "a b-c"),
        ("spot_groups", "alt.a alt.b,alt.c"),
        ("spot_backfill", "9"),
    ] {
        let (_, saved) = apply_setting(&mut d, name, v, given()).unwrap();
        entries.push((name.to_string(), saved));
    }
    let s = object(entries);
    let known = texts(&["movie", "tv", "music"]);
    assert_eq!(seed_index_evict_kinds(&s, &known), vec!["tv", "movie"]);
    assert_eq!(seed_predb_channels(&s, &vec![]), d.predb.channels);
    assert_eq!(seed_predb_nick(&s, "reader"), d.predb.nick);
    assert_eq!(seed_spot_groups(&s), vec!["alt.a", "alt.b", "alt.c"]);
    assert_eq!(seed_spot_backfill(&s), 1_000);
}

#[test]
fn the_page_gets_the_exposed_rows_alone() {
    let d = daemon_in("page");
    let shown: Vec<String> = config_block(&ctx(&d)).into_iter().map(|e| e.0).collect();
    assert!(shown.iter().any(|n| n == "history_rows"));
    let rows = settings();
    assert!(rows.iter().any(|s| s.expose != setting("history_rows").unwrap().expose));
    for s in rows {
        let exposed = s.expose == setting("history_rows").unwrap().expose;
        assert!(exposed || !shown.iter().any(|n| n == s.name), "{}", s.name);
    }
}

#[test]
fn a_refused_value_leaves_the_daemon_alone() {
    let mut d = daemon_in("refused");
    let before: Vec<(String, Value)> = config_block(&ctx(&d));
    for (name, v) in [("history_rows", "0"), ("window", "x"), ("port", "0"), ("nope", "1")] {
        assert!(apply_setting(&mut d, name, v, given()).is_err(), "{name}");
    }
    assert_eq!(config_block(&ctx(&d)), before);
    assert!(d.todo.is_empty());
}

#[test]
fn bounded_numbers_are_brought_into_their_bounds() {
    let mut d = daemon_in("bounds");
    assert_eq!(apply_setting(&mut d, "window", "1000", given()).unwrap(), (true, uint(64)));
    assert_eq!(apply_setting(&mut d, "decoders", "0", given()).unwrap(), (true, uint(1)));
    let e = apply_setting(&mut d, "window", "many", given()).unwrap_err();
    assert_eq!(e, "window: not a number");
}

#[test]
fn a_switch_is_on_for_one_and_true() {
    let mut d = daemon_in("switch");
    for (v, on) in [("1", true), ("0", false), ("TRUE", true), ("yes", false)] {
        let (live, echo) = set_switch(&mut d, Flag::AutoRename, v).unwrap();
        assert!(live);
        assert_eq!(echo, Value::Bool(on), "{v}");
        assert_eq!(d.switches.auto_rename, on, "{v}");
    }
}

#[test]
fn a_percentage_limit_needs_a_line_speed() {
    let mut d = daemon_in("speed");
    let e = set_speedlimit(&mut d, "speedlimit", "50", None).unwrap_err();
    assert!(e.contains("Line speed"), "{e}");
    d.numbers.line_speed = 2_000_000;
    set_speedlimit(&mut d, "speedlimit", "50", None).unwrap();
    assert!(d.todo.contains(&Action::SpeedCeiling(1_000_000)));
}

#[test]
fn raising_the_connections_reopens_the_knees() {
    let mut d = daemon_in("conns");
    let (live, echo) = set_connections(&mut d, "connections", "20").unwrap();
    assert!(live);
    assert_eq!(echo, uint(20));
    assert_eq!(d.engine.connections, 20);
    assert!(d.todo.contains(&Action::ReopenKnees(20)));
}

fn indexer(name: &str, url: &str, apikey: &str) -> Indexer {
    Indexer {
        name: name.to_string(),
        url: url.to_string(),
        apikey: apikey.to_string(),
        enabled: true,
        priority: 0,
        hits_per_day: 0,
        grabs_per_day: 0,
    }
}

#[test]
fn a_list_of_search_sites_is_checked_and_keeps_its_keys() {
    let mut d = daemon_in("indexers");
    let bad = vec![indexer("", "http://a", "k")];
    let e = set_indexers(&mut d, "indexers", "[..]", Ok(bad)).unwrap_err();
    assert_eq!(e, "indexers: every entry needs a name and a URL");
    let bad = vec![indexer("a", "ftp://a", "k")];
    let e = set_indexers(&mut d, "indexers", "[..]", Ok(bad)).unwrap_err();
    assert_eq!(e, "indexers: a: the URL must be http(s)");
    let bad = vec![indexer("a", "http://a", "k"), indexer("a", "http://b", "k")];
    let e = set_indexers(&mut d, "indexers", "[..]", Ok(bad)).unwrap_err();
    assert_eq!(e, "indexers: duplicate name a");
    assert!(d.automation.indexers.is_empty());
    let good = vec![indexer(" a ", "http://a", "secret")];
    set_indexers(&mut d, "indexers", "[..]", Ok(good)).unwrap();
    assert_eq!(d.automation.indexers[0].name, "a");
    // Sent back without the key, as the page shows it.
    let back = vec![indexer("a", "http://a", "")];
    set_indexers(&mut d, "indexers", "[..]", Ok(back)).unwrap();
    assert_eq!(d.automation.indexers[0].apikey, "secret");
    let shown = format!("{:?}", config_value(&ctx(&d), "indexers").unwrap());
    assert!(!shown.contains("secret"), "{shown}");
}

#[test]
fn a_wrong_kind_is_quoted() {
    let mut d = daemon_in("kinds");
    let v = r#"[{"name":"a","kind":"li\"d","url":"http://x","apikey":"k"}]"#;
    let e = set_arr_instances(&mut d, "arr_instances", v, instances(v)).unwrap_err();
    assert_eq!(e, "arr_instances: kind must be sonarr or radarr, not \"li\\\"d\"");
    let e = set_categories(&mut d, "categories", "/", &vec![String::new()]).unwrap_err();
    assert_eq!(e, "\"/\" is not a usable category name");
}

#[test]
fn notify_tokens_are_kept_and_never_shown() {
    let mut d = daemon_in("notify");
    let target = |token: &str| Target {
        name: "tv".to_string(),
        kind: "plex".to_string(),
        url: "http://plex".to_string(),
        token: token.to_string(),
        body: String::new(),
        enabled: true,
        on_failure: false,
        category: String::new(),
    };
    set_notify_targets(&mut d, "notify_targets", "[..]", Ok(vec![target("tok")])).unwrap();
    set_notify_targets(&mut d, "notify_targets", "[..]", Ok(vec![target("")])).unwrap();
    assert_eq!(d.automation.notify_targets[0].token, "tok");
    let shown = format!("{:?}", config_value(&ctx(&d), "notify_targets").unwrap());
    assert!(!shown.contains("tok\""), "{shown}");
}

#[test]
fn the_log_shows_no_credential() {
    assert_eq!(log_value("history_rows", "42"), "42");
    assert_eq!(log_value("apikey", "0123456789abcdef"), "•••");
    assert_eq!(log_value("feeds", r#"[{"url":"https://x/?apikey=k"},{}]"#), "2 feeds");
    assert_eq!(log_value("feeds", "nope"), "(4 chars, not logged)");
    assert_eq!(log_value("indexers", "[{}]"), "1 indexers");
    assert_eq!(log_value("indexers", "[1,null,[2],\"x\"]"), "4 indexers");
    let odd = r#"[{"kind":7},{"kind":{"kind":"a"}},3]"#;
    assert_eq!(log_value("notify_targets", odd), "3 targets (?)");
    assert_eq!(
        log_value("notify_targets", r#"[{"kind":"plex"},{"kind":"discord"},{"kind":"plex"},{}]"#),
        "4 targets (?, discord, plex)"
    );
    assert_eq!(log_value("no_such_thing", "abc"), "(3 chars, not logged)");
}

#[test]
fn a_key_is_saved_in_one_step_with_its_change() {
    let mut d = daemon_in("keys");
    assert!(credential("apikey") && credential("nzbkey") && !credential("history_rows"));
    let s = apply_and_save(&mut d, "apikey", "0123456789abcdef", given()).unwrap();
    assert!(s.exclusive);
    assert_eq!(d.keys.apikey.as_deref(), Some("0123456789abcdef"));
    assert!(d.todo.contains(&Action::WriteKeyFile));
    set_apikey(&mut d, "apikey", "").unwrap();
    assert_eq!(d.keys.apikey, None);
    assert!(d.todo.contains(&Action::RemoveKeyFile));
}

#[test]
fn folders_are_refused_for_what_the_disk_says() {
    let mut d = daemon_in("dirs");
    let e = set_out_dir(&mut d, "out_dir", " ", &probe()).unwrap_err();
    assert_eq!(e, "out_dir can't be empty");
    let bad = DirProbe { writable: false, ..probe() };
    let e = set_out_dir(&mut d, "out_dir", "/ro", &bad).unwrap_err();
    assert!(e.contains("is not writable"), "{e}");
    assert!(why_bad_dest("/nas", &probe(), "/nas").is_none());
    assert_eq!(why_bad_dest("/nas", &bad, "/nas").unwrap(), "/nas is not writable");
    let bad = DirProbe { made: Err("denied".to_string()), ..probe() };
    let e = set_out_dir(&mut d, "out_dir", "/no", &bad).unwrap_err();
    assert_eq!(e, "can't use /no: denied");
    set_out_dir(&mut d, "out_dir", "/dl", &probe()).unwrap();
    assert_eq!(d.paths.out_root, "/dl");
}

#[test]
fn words_are_refused_by_naming_the_right_ones() {
    let mut d = daemon_in("words");
    let e = set_unpack_eat_volumes(&mut d, "unpack_eat_volumes", "maybe").unwrap_err();
    assert_eq!(e, "unpack_eat_volumes must be off, low_disk or always");
    set_unpack_eat_volumes(&mut d, "unpack_eat_volumes", "always").unwrap();
    assert_eq!(d.automation.unpack_eat_volumes, "always");
    let f = PasswordFile { default_path: "/d/pw".to_string(), made: Err("full".to_string()) };
    let e = set_password_file(&mut d, "password_file", "", f).unwrap_err();
    assert_eq!(e, "password_file: cannot create /d/pw: full");
    let known = texts(&["movie", "tv"]);
    assert_eq!(parse_evict_kinds("tv, TV", &known).unwrap(), vec!["tv"]);
    assert_eq!(parse_evict_kinds("book", &known).unwrap_err(), "unknown kind book");
}
