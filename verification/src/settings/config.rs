//! The settings page's view of the daemon.
use super::automation::quality_json;
use super::key::{find_key, key_named, Key};
use super::engine::{mode_of, mode_word, verify_mode_of, verify_mode_word};
use super::lists::{
    indexers, instances, targets, ArrView, IndexerView, TargetView,
};
use super::paths::{cats_text, dests, dests_text, fmt_cat_dests, path_str, shown_path};
use super::table::{settings, rows, table, Expose, Row, Setting};
use crate::daemon::{
    ArrInstance, Automation, Daemon, Feed, FeedHealth, Flag, Indexer, Target,
};
use crate::text::{octal3, same, to_octal3};
use crate::value::{
    array, entries, entry, entry_at, field, jsons, object, text, text_in, texts, texts_json, uint,
    uint_json, Json, Value,
};
use vstd::prelude::*;

verus! {

/// What a pattern will do, where there is something to say of it.
pub struct RuleVerdict {
    pub matching: Option<String>,
    pub not_matching: Option<String>,
}

/// What the settings page is shown: the daemon, and what only the rest of the
/// process can tell.
pub struct ConfigCtx<'a> {
    pub d: &'a Daemon,
    /// The memory limit that is saved for the next start; 0 for none.
    pub mem_limit: u64,
    /// The stored connection knees.
    pub conntune: Value,
    /// How many passwords the passwords file holds.
    pub password_count: u64,
    /// What the patterns of the folder rules will do, rule by rule.
    pub smart_verdicts: Vec<RuleVerdict>,
    /// What the patterns of the categories will do, rule by rule.
    pub category_verdicts: Vec<RuleVerdict>,
    /// What the last delivery to each notify target did.
    pub last_sends: Vec<Value>,
}

// ---- patterns -------------------------------------------------------------

/// The entries with `name` set to `v`.
pub open spec fn put(o: Seq<(Seq<char>, Json)>, name: Seq<char>, v: Json) -> Seq<
    (Seq<char>, Json),
> {
    let k = entry_at(o, name);
    if k < o.len() {
        o.update(k, (name, v))
    } else {
        o.push((name, v))
    }
}

/// An object with a word under `name`, where there is one to say; anything
/// else as it is.
pub open spec fn with_word(j: Json, name: Seq<char>, word: Option<Seq<char>>) -> Json {
    match (j, word) {
        (Json::Object(o), Some(w)) => Json::Object(put(o, name, Json::Text(w))),
        _ => j,
    }
}

/// The verdicts as words.
pub open spec fn verdicts(list: Seq<RuleVerdict>) -> Seq<(Option<Seq<char>>, Option<Seq<char>>)> {
    Seq::new(list.len(), |i: int| (list[i].matching.deep_view(), list[i].not_matching.deep_view()))
}

/// A rule with what its two patterns will do.
pub open spec fn annotated_rule(j: Json, v: (Option<Seq<char>>, Option<Seq<char>>)) -> Json {
    with_word(with_word(j, "match_verdict"@, v.0), "not_verdict"@, v.1)
}

/// A list of rules with what their patterns will do; anything else as it is.
pub open spec fn annotated(
    j: Json,
    list: Seq<(Option<Seq<char>>, Option<Seq<char>>)>,
) -> Json {
    match j {
        Json::Array(a) => Json::Array(
            Seq::new(
                a.len(),
                |i: int|
                    if i < list.len() {
                        annotated_rule(a[i], list[i])
                    } else {
                        a[i]
                    },
            ),
        ),
        _ => j,
    }
}

/// The first entry called `name`, or how many there are.
fn find_entry(o: &Vec<(String, Value)>, name: &str) -> (r: usize)
    ensures
        r == entry_at(entries(o@), name@),
{
    let ghost js = entries(o@);
    let mut i: usize = 0;
    assert(js.skip(0) =~= js);
    while i < o.len()
        invariant
            i <= o@.len(),
            js == entries(o@),
            entry_at(js, name@) == i + entry_at(js.skip(i as int), name@),
        decreases o@.len() - i,
    {
        let ghost rest = js.skip(i as int);
        assert(rest[0] == js[i as int]);
        assert(rest.drop_first() =~= js.skip(i + 1));
        if same(o[i].0.as_str(), name) {
            return i;
        }
        i = i + 1;
    }
    assert(js.skip(i as int).len() == 0);
    i
}

/// Sets one entry of an object.
fn put_entry(o: Vec<(String, Value)>, name: &str, v: Value) -> (r: Vec<(String, Value)>)
    ensures
        entries(r@) == put(entries(o@), name@, v@),
{
    let k: usize = find_entry(&o, name);
    let mut r: Vec<(String, Value)> = o;
    let ghost before = entries(r@);
    if k < r.len() {
        r.set(k, (name.to_owned(), v));
        assert(entries(r@) =~= before.update(k as int, (name@, v@)));
    } else {
        r.push((name.to_owned(), v));
        assert(entries(r@) =~= before.push((name@, v@)));
    }
    r
}

fn add_word(v: Value, name: &str, word: &Option<String>) -> (r: Value)
    ensures
        r@ == with_word(v@, name@, word.deep_view()),
{
    match v {
        Value::Object(o) => match word {
            Some(w) => {
                assert(Value::Object(o)@->Object_0 =~= entries(o@));
                object(put_entry(o, name, text(w.as_str())))
            },
            None => Value::Object(o),
        },
        other => other,
    }
}

/// Tells of each rule in a list what its patterns will do.
pub fn annotate_patterns(v: Value, list: &Vec<RuleVerdict>) -> (r: Value)
    ensures
        r@ == annotated(v@, verdicts(list@)),
{
    match v {
        Value::Array(a) => {
            let ghost js = jsons(a@);
            assert(Value::Array(a)@->Array_0 =~= js);
            let mut out: Vec<Value> = Vec::new();
            let mut i: usize = 0;
            while i < a.len()
                invariant
                    i <= a@.len(),
                    js == jsons(a@),
                    out@.len() == i,
                    forall|j: int|
                        0 <= j < i ==> (#[trigger] out@[j])@ == annotated(
                            Json::Array(js),
                            verdicts(list@),
                        )->Array_0[j],
                decreases a@.len() - i,
            {
                let rule: Value = a[i].copy();
                if i < list.len() {
                    let e: &RuleVerdict = &list[i];
                    let rule: Value = add_word(rule, "match_verdict", &e.matching);
                    out.push(add_word(rule, "not_verdict", &e.not_matching));
                } else {
                    out.push(rule);
                }
                i = i + 1;
            }
            let r = Value::Array(out);
            assert(r@->Array_0 =~= annotated(Json::Array(js), verdicts(list@))->Array_0);
            r
        },
        other => other,
    }
}

/// The pattern that a rule holds under a name; none is the empty one.
pub open spec fn pattern(j: Json, name: Seq<char>) -> Seq<char> {
    match field(j, name) {
        Some(v) => match text_in(v) {
            Some(s) => s,
            None => ""@,
        },
        None => ""@,
    }
}

fn read_pattern(v: &Value, name: &str) -> (r: String)
    ensures
        r@ == pattern(v@, name@),
{
    match v.get_text(name) {
        Some(s) => s,
        None => "".to_owned(),
    }
}

/// The two patterns of each rule in a list: what has to be judged before
/// [`annotate_patterns`].
pub fn rule_patterns(list: &Vec<Value>) -> (r: Vec<(String, String)>)
    ensures
        r@.len() == list@.len(),
        forall|i: int|
            0 <= i < list@.len() ==> (#[trigger] r@[i]).0@ == pattern(list@[i]@, "match"@)
                && r@[i].1@ == pattern(list@[i]@, "not_match"@),
{
    let mut r: Vec<(String, String)> = Vec::new();
    let mut i: usize = 0;
    while i < list.len()
        invariant
            i <= list@.len(),
            r@.len() == i,
            forall|j: int|
                0 <= j < i ==> (#[trigger] r@[j]).0@ == pattern(list@[j]@, "match"@) && r@[j].1@
                    == pattern(list@[j]@, "not_match"@),
        decreases list@.len() - i,
    {
        r.push((read_pattern(&list[i], "match"), read_pattern(&list[i], "not_match")));
        i = i + 1;
    }
    r
}

// ---- lists with credentials -----------------------------------------------

/// A search site as it is shown: that it has a key, not the key.
pub open spec fn indexer_shown(i: IndexerView) -> Json {
    Json::Object(
        seq![
            ("name"@, Json::Text(i.name)),
            ("url"@, Json::Text(i.url)),
            ("enabled"@, Json::Bool(i.enabled)),
            ("priority"@, uint_json(i.priority as int)),
            ("hits_per_day"@, uint_json(i.hits_per_day as int)),
            ("grabs_per_day"@, uint_json(i.grabs_per_day as int)),
            ("has_key"@, Json::Bool(i.apikey.len() > 0)),
        ],
    )
}

/// The search sites as they are shown.
pub open spec fn indexers_shown(list: Seq<IndexerView>) -> Json {
    Json::Array(Seq::new(list.len(), |i: int| indexer_shown(list[i])))
}

fn show_indexer(i: &Indexer) -> (r: Value)
    ensures
        r@ == indexer_shown(i@),
{
    let list: Vec<(String, Value)> = vec![
        entry("name", text(i.name.as_str())),
        entry("url", text(i.url.as_str())),
        entry("enabled", Value::Bool(i.enabled)),
        entry("priority", uint(i.priority)),
        entry("hits_per_day", uint(i.hits_per_day)),
        entry("grabs_per_day", uint(i.grabs_per_day)),
        entry("has_key", Value::Bool(!i.apikey.as_str().is_empty())),
    ];
    assert(entries(list@) =~= indexer_shown(i@)->Object_0);
    object(list)
}

fn show_indexers(list: &Vec<Indexer>) -> (r: Value)
    ensures
        r@ == indexers_shown(indexers(list@)),
{
    let mut out: Vec<Value> = Vec::new();
    let mut i: usize = 0;
    while i < list.len()
        invariant
            i <= list@.len(),
            out@.len() == i,
            forall|j: int| 0 <= j < i ==> (#[trigger] out@[j])@ == indexer_shown(list@[j]@),
        decreases list@.len() - i,
    {
        out.push(show_indexer(&list[i]));
        i = i + 1;
    }
    let r = Value::Array(out);
    assert(r@->Array_0 =~= indexers_shown(indexers(list@))->Array_0);
    r
}

/// An instance as it is shown: that it has a key, not the key.
pub open spec fn instance_shown(i: ArrView) -> Json {
    Json::Object(
        seq![
            ("name"@, Json::Text(i.name)),
            ("kind"@, Json::Text(i.kind)),
            ("url"@, Json::Text(i.url)),
            ("enabled"@, Json::Bool(i.enabled)),
            ("has_key"@, Json::Bool(i.apikey.len() > 0)),
        ],
    )
}

/// The instances as they are shown.
pub open spec fn instances_shown(list: Seq<ArrView>) -> Json {
    Json::Array(Seq::new(list.len(), |i: int| instance_shown(list[i])))
}

fn show_instance(i: &ArrInstance) -> (r: Value)
    ensures
        r@ == instance_shown(i@),
{
    let list: Vec<(String, Value)> = vec![
        entry("name", text(i.name.as_str())),
        entry("kind", text(i.kind.as_str())),
        entry("url", text(i.url.as_str())),
        entry("enabled", Value::Bool(i.enabled)),
        entry("has_key", Value::Bool(!i.apikey.as_str().is_empty())),
    ];
    assert(entries(list@) =~= instance_shown(i@)->Object_0);
    object(list)
}

fn show_instances(list: &Vec<ArrInstance>) -> (r: Value)
    ensures
        r@ == instances_shown(instances(list@)),
{
    let mut out: Vec<Value> = Vec::new();
    let mut i: usize = 0;
    while i < list.len()
        invariant
            i <= list@.len(),
            out@.len() == i,
            forall|j: int| 0 <= j < i ==> (#[trigger] out@[j])@ == instance_shown(list@[j]@),
        decreases list@.len() - i,
    {
        out.push(show_instance(&list[i]));
        i = i + 1;
    }
    let r = Value::Array(out);
    assert(r@->Array_0 =~= instances_shown(instances(list@))->Array_0);
    r
}

/// A target as it is shown: that it has a token, not the token, and what its
/// last delivery did.
pub open spec fn target_shown(t: TargetView, last: Json) -> Json {
    Json::Object(
        seq![
            ("name"@, Json::Text(t.name)),
            ("kind"@, Json::Text(t.kind)),
            ("url"@, Json::Text(t.url)),
            ("body"@, Json::Text(t.body)),
            ("enabled"@, Json::Bool(t.enabled)),
            ("on_failure"@, Json::Bool(t.on_failure)),
            ("category"@, Json::Text(t.category)),
            ("has_token"@, Json::Bool(t.token.len() > 0)),
            ("last_send"@, last),
        ],
    )
}

/// The targets as they are shown, each with its last delivery.
pub open spec fn targets_shown(list: Seq<TargetView>, sends: Seq<Json>) -> Json {
    Json::Array(
        Seq::new(
            list.len(),
            |i: int|
                target_shown(
                    list[i],
                    if i < sends.len() {
                        sends[i]
                    } else {
                        Json::Null
                    },
                ),
        ),
    )
}

fn show_target(t: &Target, last: Value) -> (r: Value)
    ensures
        r@ == target_shown(t@, last@),
{
    let list: Vec<(String, Value)> = vec![
        entry("name", text(t.name.as_str())),
        entry("kind", text(t.kind.as_str())),
        entry("url", text(t.url.as_str())),
        entry("body", text(t.body.as_str())),
        entry("enabled", Value::Bool(t.enabled)),
        entry("on_failure", Value::Bool(t.on_failure)),
        entry("category", text(t.category.as_str())),
        entry("has_token", Value::Bool(!t.token.as_str().is_empty())),
        entry("last_send", last),
    ];
    assert(entries(list@) =~= target_shown(t@, last@)->Object_0);
    object(list)
}

fn show_targets(list: &Vec<Target>, sends: &Vec<Value>) -> (r: Value)
    ensures
        r@ == targets_shown(targets(list@), jsons(sends@)),
{
    let mut out: Vec<Value> = Vec::new();
    let mut i: usize = 0;
    while i < list.len()
        invariant
            i <= list@.len(),
            out@.len() == i,
            forall|j: int|
                0 <= j < i ==> (#[trigger] out@[j])@ == target_shown(
                    list@[j]@,
                    if j < sends@.len() {
                        sends@[j]@
                    } else {
                        Json::Null
                    },
                ),
        decreases list@.len() - i,
    {
        let last: Value = if i < sends.len() {
            sends[i].copy()
        } else {
            Value::Null
        };
        out.push(show_target(&list[i], last));
        i = i + 1;
    }
    let r = Value::Array(out);
    assert(r@->Array_0 =~= targets_shown(targets(list@), jsons(sends@))->Array_0);
    r
}

/// The error of a poll, or null.
pub open spec fn error_json(e: Option<Seq<char>>) -> Json {
    match e {
        Some(s) => Json::Text(s),
        None => Json::Null,
    }
}

/// What is known of the feed at an address.
pub open spec fn health_at(list: Seq<FeedHealth>, url: Seq<char>) -> Option<FeedHealth>
    decreases list.len(),
{
    if list.len() == 0 {
        None
    } else if list[0].url@ == url {
        Some(list[0])
    } else {
        health_at(list.drop_first(), url)
    }
}

/// A feed as it is shown: what is stored of it, and what its last poll did.
pub open spec fn feed_shown(f: Feed, health: Seq<FeedHealth>) -> Json {
    match (f.json@, health_at(health, f.url@)) {
        (Json::Object(o), Some(h)) => Json::Object(
            put(
                put(
                    put(o, "last_poll"@, uint_json(h.last_poll as int)),
                    "last_error"@,
                    error_json(h.last_error.deep_view()),
                ),
                "items_seen"@,
                uint_json(h.items_seen as int),
            ),
        ),
        _ => f.json@,
    }
}

/// The feeds as they are shown.
pub open spec fn feeds_shown(list: Seq<Feed>, health: Seq<FeedHealth>) -> Json {
    Json::Array(Seq::new(list.len(), |i: int| feed_shown(list[i], health)))
}

fn find_health<'a>(list: &'a Vec<FeedHealth>, url: &str) -> (r: Option<&'a FeedHealth>)
    ensures
        match r {
            Some(h) => health_at(list@, url@) == Some(*h),
            None => health_at(list@, url@) is None,
        },
{
    let mut i: usize = 0;
    assert(list@.skip(0) =~= list@);
    while i < list.len()
        invariant
            i <= list@.len(),
            health_at(list@, url@) == health_at(list@.skip(i as int), url@),
        decreases list@.len() - i,
    {
        assert(list@.skip(i as int).drop_first() =~= list@.skip(i + 1));
        if same(list[i].url.as_str(), url) {
            return Some(&list[i]);
        }
        i = i + 1;
    }
    assert(list@.skip(i as int).len() == 0);
    None
}

fn show_feed(f: &Feed, health: &Vec<FeedHealth>) -> (r: Value)
    ensures
        r@ == feed_shown(*f, health@),
{
    let v: Value = f.json.copy();
    match v {
        Value::Object(o) => match find_health(health, f.url.as_str()) {
            Some(h) => {
                assert(Value::Object(o)@->Object_0 =~= entries(o@));
                let o: Vec<(String, Value)> = put_entry(o, "last_poll", uint(h.last_poll));
                let e: Value = match &h.last_error {
                    Some(s) => text(s.as_str()),
                    None => Value::Null,
                };
                let o: Vec<(String, Value)> = put_entry(o, "last_error", e);
                object(put_entry(o, "items_seen", uint(h.items_seen)))
            },
            None => Value::Object(o),
        },
        other => other,
    }
}

fn show_feeds(list: &Vec<Feed>, health: &Vec<FeedHealth>) -> (r: Value)
    ensures
        r@ == feeds_shown(list@, health@),
{
    let mut out: Vec<Value> = Vec::new();
    let mut i: usize = 0;
    while i < list.len()
        invariant
            i <= list@.len(),
            out@.len() == i,
            forall|j: int| 0 <= j < i ==> (#[trigger] out@[j])@ == feed_shown(list@[j], health@),
        decreases list@.len() - i,
    {
        out.push(show_feed(&list[i], health));
        i = i + 1;
    }
    let r = Value::Array(out);
    assert(r@->Array_0 =~= feeds_shown(list@, health@)->Array_0);
    r
}

// ---- single values --------------------------------------------------------

/// A umask as it is typed; none is empty.
pub open spec fn umask_text(m: u32) -> Seq<char> {
    if m <= 0o777 {
        octal3(m as int)
    } else {
        Seq::empty()
    }
}

fn show_umask(m: u32) -> (r: String)
    ensures
        r@ == umask_text(m),
{
    if m <= 0o777 {
        to_octal3(m)
    } else {
        String::new()
    }
}

fn show_letter(p: u8) -> (r: String)
    ensures
        r@ == seq![p as char],
{
    let mut s: String = String::new();
    s.push(p as char);
    assert(s@ =~= seq![p as char]);
    s
}

/// Whether the watchlist asks the search sites: as it was answered, or, while
/// it was not, whether there are any.
pub open spec fn external_on(a: Automation) -> bool {
    if a.watchlist_external_set {
        a.watchlist_external
    } else {
        a.indexers@.len() > 0
    }
}

impl Daemon {
    /// Whether the watchlist asks the search sites.
    pub fn watchlist_external_on(&self) -> (r: bool)
        ensures
            r == external_on(self.automation),
    {
        if self.automation.watchlist_external_set {
            self.automation.watchlist_external
        } else {
            self.automation.indexers.len() > 0
        }
    }
}

// ---- the block ------------------------------------------------------------


/// What is shown of a setting among the paths.
pub open spec fn paths_shown(c: ConfigCtx, k: Key) -> Option<Json> {
    match k {
        Key::Port => Some(uint_json(c.d.paths.port as int)),
        Key::OutDir => Some(Json::Text(c.d.paths.out_root@)),
        Key::MoveCompleted => Some(Json::Text(shown_path(c.d.paths.move_completed.deep_view()))),
        Key::MoveCompletedCats => Some(Json::Text(dests_text(dests(c.d.paths.move_completed_cats@)))),
        Key::Categories => Some(Json::Text(cats_text(c.d.paths.cats.deep_view()))),
        Key::Watch => Some(Json::Text(shown_path(c.d.paths.watch_dir.deep_view()))),
        Key::WatchIntervalSecs => Some(uint_json(c.d.paths.watch_interval_secs as int)),
        Key::DeleteToTrash => Some(Json::Bool(c.d.paths.delete_to_trash)),
        Key::Script => Some(Json::Text(shown_path(c.d.paths.script.deep_view()))),
        Key::ScriptTimeoutSecs => Some(uint_json(c.d.paths.script_timeout as int)),
        Key::IndexDb => Some(Json::Text(c.d.paths.index_db@)),
        Key::ConfigPath => Some(Json::Text(c.d.paths.cfg_path@)),
        Key::SettingsPath => Some(Json::Text(c.d.paths.settings_path@)),
        _ => None,
    }
}

fn paths_value(c: &ConfigCtx, k: Key) -> (r: Option<Value>)
    ensures
        match r {
            Some(v) => paths_shown(*c, k) == Some(v@),
            None => paths_shown(*c, k) is None,
        },
{
    match k {
        Key::Port => Some(uint(c.d.paths.port as u64)),
        Key::OutDir => Some(text(c.d.paths.out_root.as_str())),
        Key::MoveCompleted => Some(Value::Text(path_str(&c.d.paths.move_completed))),
        Key::MoveCompletedCats => Some(Value::Text(fmt_cat_dests(&c.d.paths.move_completed_cats))),
        Key::Categories => Some(Value::Text(c.d.cat_list())),
        Key::Watch => Some(Value::Text(path_str(&c.d.paths.watch_dir))),
        Key::WatchIntervalSecs => Some(uint(c.d.paths.watch_interval_secs)),
        Key::DeleteToTrash => Some(Value::Bool(c.d.paths.delete_to_trash)),
        Key::Script => Some(Value::Text(path_str(&c.d.paths.script))),
        Key::ScriptTimeoutSecs => Some(uint(c.d.paths.script_timeout)),
        Key::IndexDb => Some(text(c.d.paths.index_db.as_str())),
        Key::ConfigPath => Some(text(c.d.paths.cfg_path.as_str())),
        Key::SettingsPath => Some(text(c.d.paths.settings_path.as_str())),
        _ => None,
    }
}

/// What is shown of a setting of the engine and of speed.
pub open spec fn engine_shown(c: ConfigCtx, k: Key) -> Option<Json> {
    match k {
        Key::Connections => Some(uint_json(c.d.engine.connections as int)),
        Key::FastVerify => Some(Json::Bool(c.d.engine.fast_verify)),
        Key::VerifyMode => Some(
            Json::Text(mode_word(mode_of(c.d.engine.fast_verify, c.d.engine.verify_lean))),
        ),
        Key::OutUmask => Some(Json::Text(umask_text(c.d.engine.out_umask))),
        Key::AutoRetryMins => Some(uint_json(c.d.engine.auto_retry_secs as int / 60)),
        Key::QuotaPeriod => Some(Json::Text(seq![c.d.engine.quota_period as char])),
        Key::NestedMaxDepth => Some(uint_json(c.d.engine.nested_max_depth as int)),
        Key::MemLimit => Some(uint_json(c.mem_limit as int)),
        Key::MemBudgetTotal => Some(uint_json(c.d.engine.mem_budget_total as int)),
        Key::Speedlimit => Some(uint_json(c.d.speed.speed_ceiling as int)),
        Key::AutoSpeed => Some(Json::Bool(c.d.speed.auto_speed)),
        Key::Conntune => Some(c.conntune@),
        Key::TuneHint => Some(Json::Text(c.d.speed.tune_hint@)),
        Key::BenchInterval => Some(uint_json(c.d.speed.bench_interval as int)),
        Key::Schedule => Some(Json::Text(c.d.speed.schedule_text@)),
        Key::HistoryRows => Some(uint_json(c.d.interface.history_rows as int)),
        _ => None,
    }
}

fn engine_value(c: &ConfigCtx, k: Key) -> (r: Option<Value>)
    ensures
        match r {
            Some(v) => engine_shown(*c, k) == Some(v@),
            None => engine_shown(*c, k) is None,
        },
{
    match k {
        Key::Connections => Some(uint(c.d.engine.connections)),
        Key::FastVerify => Some(Value::Bool(c.d.engine.fast_verify)),
        Key::VerifyMode => Some(
            text(verify_mode_word(verify_mode_of(c.d.engine.fast_verify, c.d.engine.verify_lean))),
        ),
        Key::OutUmask => Some(Value::Text(show_umask(c.d.engine.out_umask))),
        Key::AutoRetryMins => Some(uint(c.d.engine.auto_retry_secs / 60)),
        Key::QuotaPeriod => Some(Value::Text(show_letter(c.d.engine.quota_period))),
        Key::NestedMaxDepth => Some(uint(c.d.engine.nested_max_depth)),
        Key::MemLimit => Some(uint(c.mem_limit)),
        Key::MemBudgetTotal => Some(uint(c.d.engine.mem_budget_total)),
        Key::Speedlimit => Some(uint(c.d.speed.speed_ceiling)),
        Key::AutoSpeed => Some(Value::Bool(c.d.speed.auto_speed)),
        Key::Conntune => Some(c.conntune.copy()),
        Key::TuneHint => Some(text(c.d.speed.tune_hint.as_str())),
        Key::BenchInterval => Some(uint(c.d.speed.bench_interval)),
        Key::Schedule => Some(text(c.d.speed.schedule_text.as_str())),
        Key::HistoryRows => Some(uint(c.d.interface.history_rows)),
        _ => None,
    }
}

/// What is shown of a setting of the indexer.
pub open spec fn indexing_shown(c: ConfigCtx, k: Key) -> Option<Json> {
    match k {
        Key::IndexEnabled => Some(Json::Bool(c.d.indexing.index_enabled)),
        Key::SpotEnabled => Some(Json::Bool(c.d.indexing.spot_enabled)),
        Key::SpotGroups => Some(texts_json(c.d.indexing.spot_groups.deep_view())),
        Key::SpotBackfill => Some(uint_json(c.d.indexing.spot_backfill as int)),
        Key::LibraryCats => Some(texts_json(c.d.indexing.library_cats.deep_view())),
        Key::IndexGroups => Some(texts_json(c.d.indexing.index_groups.deep_view())),
        Key::IndexInterests => Some(Json::Text(c.d.indexing.index_interests@)),
        Key::IndexTipSecs => Some(uint_json(c.d.indexing.index_tip_secs as int)),
        Key::IndexGapfill => Some(uint_json(c.d.indexing.index_gapfill as int)),
        Key::IndexPaused => Some(Json::Bool(c.d.indexing.index_paused)),
        Key::IndexEvict => Some(Json::Bool(c.d.indexing.index_evict)),
        Key::IndexEvictOrder => Some(Json::Text(c.d.indexing.index_evict_order@)),
        Key::IndexEvictKinds => Some(texts_json(c.d.indexing.index_evict_kinds.deep_view())),
        Key::IndexGates => Some(Json::Text(c.d.indexing.index_gates@)),
        Key::PredbEnabled => Some(Json::Bool(c.d.predb.enabled)),
        Key::PredbServer => Some(Json::Text(c.d.predb.server@)),
        Key::PredbChannels => Some(Json::Text(c.d.predb.channels@)),
        Key::PredbNick => Some(Json::Text(c.d.predb.nick@)),
        Key::PredbCorrEnabled => Some(Json::Bool(c.d.predb.corr_enabled)),
        Key::PredbCorrAuto => Some(Json::Bool(c.d.predb.corr_auto)),
        Key::PredbMaxRows => Some(uint_json(c.d.predb.max_rows as int)),
        _ => None,
    }
}

fn indexing_value(c: &ConfigCtx, k: Key) -> (r: Option<Value>)
    ensures
        match r {
            Some(v) => indexing_shown(*c, k) == Some(v@),
            None => indexing_shown(*c, k) is None,
        },
{
    match k {
        Key::IndexEnabled => Some(Value::Bool(c.d.indexing.index_enabled)),
        Key::SpotEnabled => Some(Value::Bool(c.d.indexing.spot_enabled)),
        Key::SpotGroups => Some(texts(&c.d.indexing.spot_groups)),
        Key::SpotBackfill => Some(uint(c.d.indexing.spot_backfill)),
        Key::LibraryCats => Some(texts(&c.d.indexing.library_cats)),
        Key::IndexGroups => Some(texts(&c.d.indexing.index_groups)),
        Key::IndexInterests => Some(text(c.d.indexing.index_interests.as_str())),
        Key::IndexTipSecs => Some(uint(c.d.indexing.index_tip_secs)),
        Key::IndexGapfill => Some(uint(c.d.indexing.index_gapfill)),
        Key::IndexPaused => Some(Value::Bool(c.d.indexing.index_paused)),
        Key::IndexEvict => Some(Value::Bool(c.d.indexing.index_evict)),
        Key::IndexEvictOrder => Some(text(c.d.indexing.index_evict_order.as_str())),
        Key::IndexEvictKinds => Some(texts(&c.d.indexing.index_evict_kinds)),
        Key::IndexGates => Some(text(c.d.indexing.index_gates.as_str())),
        Key::PredbEnabled => Some(Value::Bool(c.d.predb.enabled)),
        Key::PredbServer => Some(text(c.d.predb.server.as_str())),
        Key::PredbChannels => Some(text(c.d.predb.channels.as_str())),
        Key::PredbNick => Some(text(c.d.predb.nick.as_str())),
        Key::PredbCorrEnabled => Some(Value::Bool(c.d.predb.corr_enabled)),
        Key::PredbCorrAuto => Some(Value::Bool(c.d.predb.corr_auto)),
        Key::PredbMaxRows => Some(uint(c.d.predb.max_rows)),
        _ => None,
    }
}

/// What is shown of a setting of the automation.
pub open spec fn automation_shown(c: ConfigCtx, k: Key) -> Option<Json> {
    match k {
        Key::PreferQuality => Some(quality_json(c.d.automation.quality_prefs)),
        Key::Feeds => Some(feeds_shown(c.d.automation.feeds@, c.d.automation.feed_health@)),
        Key::Indexers => Some(indexers_shown(indexers(c.d.automation.indexers@))),
        Key::Watchlist => Some(Json::Array(jsons(c.d.automation.watchlist@))),
        Key::WatchlistExternal => Some(Json::Bool(external_on(c.d.automation))),
        Key::WatchlistInstant => Some(Json::Bool(c.d.automation.watchlist_instant)),
        Key::WatchlistInstantMax => Some(uint_json(c.d.automation.watchlist_instant_max as int)),
        Key::SmartFolders => Some(
            annotated(
                Json::Array(jsons(c.d.automation.smart_folders@)),
                verdicts(c.smart_verdicts@),
            ),
        ),
        Key::CustomCategories => Some(
            annotated(
                Json::Array(jsons(c.d.automation.custom_categories@)),
                verdicts(c.category_verdicts@),
            ),
        ),
        Key::CleanupExts => Some(texts_json(c.d.automation.cleanup_exts.deep_view())),
        Key::PasswordFile => Some(Json::Text(c.d.automation.password_file@)),
        Key::PasswordFileCount => Some(uint_json(c.password_count as int)),
        Key::PasswordPrompt => Some(Json::Text(c.d.automation.password_prompt@)),
        Key::UnpackEatVolumes => Some(Json::Text(c.d.automation.unpack_eat_volumes@)),
        Key::FastPar => Some(Json::Bool(c.d.automation.fast_par)),
        Key::PreferExternalUnrar => Some(Json::Bool(c.d.automation.prefer_external_unrar)),
        Key::NotifyTargets => Some(
            targets_shown(targets(c.d.automation.notify_targets@), jsons(c.last_sends@)),
        ),
        Key::FailureLink => Some(Json::Text(c.d.automation.failure_link@)),
        Key::ArrGiveupThreshold => Some(uint_json(c.d.automation.arr_giveup_threshold as int)),
        Key::ArrInstances => Some(instances_shown(instances(c.d.automation.arr_instances@))),
        _ => None,
    }
}

fn automation_value(c: &ConfigCtx, k: Key) -> (r: Option<Value>)
    ensures
        match r {
            Some(v) => automation_shown(*c, k) == Some(v@),
            None => automation_shown(*c, k) is None,
        },
{
    match k {
        Key::PreferQuality => Some(c.d.automation.quality_prefs.to_json()),
        Key::Feeds => Some(show_feeds(&c.d.automation.feeds, &c.d.automation.feed_health)),
        Key::Indexers => Some(show_indexers(&c.d.automation.indexers)),
        Key::Watchlist => Some(array(&c.d.automation.watchlist)),
        Key::WatchlistExternal => Some(Value::Bool(c.d.watchlist_external_on())),
        Key::WatchlistInstant => Some(Value::Bool(c.d.automation.watchlist_instant)),
        Key::WatchlistInstantMax => Some(uint(c.d.automation.watchlist_instant_max as u64)),
        Key::SmartFolders => Some(
            annotate_patterns(array(&c.d.automation.smart_folders), &c.smart_verdicts),
        ),
        Key::CustomCategories => Some(
            annotate_patterns(array(&c.d.automation.custom_categories), &c.category_verdicts),
        ),
        Key::CleanupExts => Some(texts(&c.d.automation.cleanup_exts)),
        Key::PasswordFile => Some(text(c.d.automation.password_file.as_str())),
        Key::PasswordFileCount => Some(uint(c.password_count)),
        Key::PasswordPrompt => Some(text(c.d.automation.password_prompt.as_str())),
        Key::UnpackEatVolumes => Some(text(c.d.automation.unpack_eat_volumes.as_str())),
        Key::FastPar => Some(Value::Bool(c.d.automation.fast_par)),
        Key::PreferExternalUnrar => Some(Value::Bool(c.d.automation.prefer_external_unrar)),
        Key::NotifyTargets => Some(show_targets(&c.d.automation.notify_targets, &c.last_sends)),
        Key::FailureLink => Some(text(c.d.automation.failure_link.as_str())),
        Key::ArrGiveupThreshold => Some(uint(c.d.automation.arr_giveup_threshold)),
        Key::ArrInstances => Some(show_instances(&c.d.automation.arr_instances)),
        _ => None,
    }
}

/// What is shown of a setting of the interface and the keys.
pub open spec fn interface_shown(c: ConfigCtx, k: Key) -> Option<Json> {
    match k {
        Key::UpdateUrl => Some(Json::Text(c.d.interface.update_url@)),
        Key::UiLocale => Some(Json::Text(c.d.interface.ui_locale@)),
        Key::HasApikey => Some(Json::Bool(c.d.keys.apikey is Some)),
        Key::HasNzbkey => Some(Json::Bool(c.d.keys.nzbkey is Some)),
        Key::HasOmdb => Some(Json::Bool(c.d.keys.omdb_key is Some)),
        _ => None,
    }
}

fn interface_value(c: &ConfigCtx, k: Key) -> (r: Option<Value>)
    ensures
        match r {
            Some(v) => interface_shown(*c, k) == Some(v@),
            None => interface_shown(*c, k) is None,
        },
{
    match k {
        Key::UpdateUrl => Some(text(c.d.interface.update_url.as_str())),
        Key::UiLocale => Some(text(c.d.interface.ui_locale.as_str())),
        Key::HasApikey => Some(Value::Bool(c.d.keys.apikey.is_some())),
        Key::HasNzbkey => Some(Value::Bool(c.d.keys.nzbkey.is_some())),
        Key::HasOmdb => Some(Value::Bool(c.d.keys.omdb_key.is_some())),
        _ => None,
    }
}

/// What the settings page shows of a setting.
pub open spec fn key_shown(c: ConfigCtx, k: Key) -> Option<Json> {
    match k {
        Key::Switch(f) => Some(Json::Bool(c.d.switches.has(f))),
        Key::Number(n) => Some(uint_json(c.d.numbers.of(n) as int)),
        Key::Size(n) => Some(uint_json(c.d.numbers.of(n) as int)),
        Key::AutoPrefetch => Some(Json::Bool(c.d.switches.has(Flag::AutoPrefetch))),
        Key::RaceStragglers => Some(Json::Bool(c.d.switches.has(Flag::RaceStragglers))),
        _ => if paths_shown(c, k) is Some {
            paths_shown(c, k)
        } else if engine_shown(c, k) is Some {
            engine_shown(c, k)
        } else if indexing_shown(c, k) is Some {
            indexing_shown(c, k)
        } else if automation_shown(c, k) is Some {
            automation_shown(c, k)
        } else {
            interface_shown(c, k)
        },
    }
}

/// What the settings page shows under a name.
pub open spec fn shown(c: ConfigCtx, name: Seq<char>) -> Option<Json> {
    match key_named(name) {
        Some(k) => key_shown(c, k),
        None => None,
    }
}

fn key_value(c: &ConfigCtx, k: Key) -> (r: Option<Value>)
    ensures
        match r {
            Some(v) => key_shown(*c, k) == Some(v@),
            None => key_shown(*c, k) is None,
        },
{
    match k {
        Key::Switch(f) => Some(Value::Bool(c.d.switches.get(f))),
        Key::Number(n) => Some(uint(c.d.numbers.get(n))),
        Key::Size(n) => Some(uint(c.d.numbers.get(n))),
        Key::AutoPrefetch => Some(Value::Bool(c.d.switches.get(Flag::AutoPrefetch))),
        Key::RaceStragglers => Some(Value::Bool(c.d.switches.get(Flag::RaceStragglers))),
        _ => if let Some(v) = paths_value(c, k) {
            Some(v)
        } else if let Some(v) = engine_value(c, k) {
            Some(v)
        } else if let Some(v) = indexing_value(c, k) {
            Some(v)
        } else if let Some(v) = automation_value(c, k) {
            Some(v)
        } else {
            interface_value(c, k)
        },
    }
}

/// What the settings page shows under a name.
pub fn config_value(c: &ConfigCtx, name: &str) -> (r: Option<Value>)
    ensures
        match r {
            Some(v) => shown(*c, name@) == Some(v@),
            None => shown(*c, name@) is None,
        },
{
    match find_key(name) {
        Some(k) => key_value(c, k),
        None => None,
    }
}

/// The rows that are read off the daemon, each under its name.
pub open spec fn block(c: ConfigCtx, list: Seq<Row>) -> Seq<(Seq<char>, Json)>
    decreases list.len(),
{
    if list.len() == 0 {
        Seq::empty()
    } else {
        let before = block(c, list.drop_last());
        let row = list.last();
        if row.expose == Expose::Config && shown(c, row.name) is Some {
            before.push((row.name, shown(c, row.name)->0))
        } else {
            before
        }
    }
}

/// The settings block that the settings page is handed, built by walking the
/// table.
pub fn config_block(c: &ConfigCtx) -> (r: Vec<(String, Value)>)
    ensures
        entries(r@) == block(*c, table()),
{
    let list: Vec<Setting> = settings();
    let ghost all = rows(list@);
    let mut r: Vec<(String, Value)> = Vec::new();
    let mut i: usize = 0;
    assert(entries(r@) =~= block(*c, all.take(0)));
    while i < list.len()
        invariant
            i <= list@.len(),
            all == rows(list@),
            entries(r@) == block(*c, all.take(i as int)),
        decreases list@.len() - i,
    {
        let s: Setting = list[i];
        assert(all.take(i + 1).drop_last() =~= all.take(i as int));
        assert(all.take(i + 1).last() == s@);
        let ghost before = entries(r@);
        if s.expose == Expose::Config {
            if let Some(v) = config_value(c, s.name) {
                r.push((s.name.to_owned(), v));
                assert(entries(r@) =~= before.push((s.name@, v@)));
            }
        }
        i = i + 1;
    }
    assert(all.take(all.len() as int) =~= all);
    r
}

// ---- laws -----------------------------------------------------------------

/// An entry is the first of its name.
proof fn entry_is_first(o: Seq<(Seq<char>, Json)>, name: Seq<char>)
    ensures
        0 <= entry_at(o, name) <= o.len(),
        entry_at(o, name) < o.len() ==> o[entry_at(o, name)].0 == name,
        forall|j: int| 0 <= j < entry_at(o, name) ==> (#[trigger] o[j]).0 != name,
    decreases o.len(),
{
    if o.len() > 0 && o[0].0 != name {
        let rest = o.drop_first();
        entry_is_first(rest, name);
        assert forall|j: int| 0 <= j < entry_at(o, name) implies (#[trigger] o[j]).0 != name by {
            if j > 0 {
                assert(rest[j - 1] == o[j]);
            }
        }
    }
}

/// What was put under a name is found there, and every other entry stays.
pub proof fn what_putting_an_entry_does(
    o: Seq<(Seq<char>, Json)>,
    name: Seq<char>,
    v: Json,
    other: Seq<char>,
)
    ensures
        field(Json::Object(put(o, name, v)), name) == Some(v),
        other != name ==> field(Json::Object(put(o, name, v)), other) == field(
            Json::Object(o),
            other,
        ),
{
    let p = put(o, name, v);
    let k = entry_at(o, name);
    entry_is_first(o, name);
    entry_is_first(p, name);
    assert(p[k] == (name, v));
    let e = entry_at(p, name);
    if e < k {
        assert(p[e] == o[e]);
    }
    assert(e == k);
    if other != name {
        entry_is_first(o, other);
        entry_is_first(p, other);
        let (i, j) = (entry_at(o, other), entry_at(p, other));
        if i < o.len() {
            assert(p[i] == o[i]);
        }
        if j < o.len() {
            assert(p[j] == o[j]);
        }
        if i < j && i < o.len() {
            assert(p[i].0 != other);
        }
        if j < i {
            assert(p[j].0 == other || j == p.len());
        }
    }
}

/// Of each rule the page says what the pattern engine said of its patterns,
/// under a name of its own for each, and leaves the rest of it as it is.
pub proof fn what_is_said_of_a_rule(
    v: Value,
    list: &Vec<RuleVerdict>,
    r: Value,
    i: int,
    other: Seq<char>,
)
    requires
        v@ is Array,
        0 <= i < v@->Array_0.len(),
        call_ensures(annotate_patterns, (v, list), r),
    ensures
        r@ is Array && r@->Array_0.len() == v@->Array_0.len(),
        i < list@.len() && v@->Array_0[i] is Object ==> (list@[i].matching matches Some(w) ==> field(
            r@->Array_0[i],
            "match_verdict"@,
        ) == Some(Json::Text(w@))),
        i < list@.len() && v@->Array_0[i] is Object ==> (list@[i].not_matching matches Some(w)
            ==> field(r@->Array_0[i], "not_verdict"@) == Some(Json::Text(w@))),
        other != "match_verdict"@ && other != "not_verdict"@ ==> field(r@->Array_0[i], other)
            == field(v@->Array_0[i], other),
        i >= list@.len() || !(v@->Array_0[i] is Object) ==> r@->Array_0[i] == v@->Array_0[i],
{
    reveal_strlit("match_verdict");
    reveal_strlit("not_verdict");
    assert("match_verdict"@.len() == 13 && "not_verdict"@.len() == 11);
    let j = v@->Array_0[i];
    if i < list@.len() && j is Object {
        let e = verdicts(list@)[i];
        let o = j->Object_0;
        let a = with_word(j, "match_verdict"@, e.0);
        if e.0 is Some {
            what_putting_an_entry_does(o, "match_verdict"@, Json::Text(e.0->0), other);
            what_putting_an_entry_does(o, "match_verdict"@, Json::Text(e.0->0), "not_verdict"@);
        }
        if e.1 is Some {
            let p = a->Object_0;
            what_putting_an_entry_does(p, "not_verdict"@, Json::Text(e.1->0), other);
            what_putting_an_entry_does(p, "not_verdict"@, Json::Text(e.1->0), "match_verdict"@);
        }
    }
}

/// A feed is shown with what its own last poll did.
pub proof fn what_is_shown_of_a_feed(f: Feed, health: Seq<FeedHealth>, h: FeedHealth)
    requires
        health_at(health, f.url@) == Some(h),
        f.json@ is Object,
    ensures
        field(feed_shown(f, health), "last_poll"@) == Some(uint_json(h.last_poll as int)),
        field(feed_shown(f, health), "items_seen"@) == Some(uint_json(h.items_seen as int)),
        h.last_error is None ==> field(feed_shown(f, health), "last_error"@) == Some(Json::Null),
        h.last_error matches Some(e) ==> field(feed_shown(f, health), "last_error"@) == Some(
            Json::Text(e@),
        ),
{
    reveal_strlit("last_poll");
    reveal_strlit("last_error");
    reveal_strlit("items_seen");
    assert("last_poll"@.len() == 9 && "last_error"@[0] == 'l' && "items_seen"@[0] == 'i');
    assert("last_error"@.len() == 10 && "items_seen"@.len() == 10);
    let o = f.json@->Object_0;
    let a = put(o, "last_poll"@, uint_json(h.last_poll as int));
    let e = error_json(h.last_error.deep_view());
    let b = put(a, "last_error"@, e);
    what_putting_an_entry_does(o, "last_poll"@, uint_json(h.last_poll as int), "last_poll"@);
    what_putting_an_entry_does(a, "last_error"@, e, "last_poll"@);
    what_putting_an_entry_does(b, "items_seen"@, uint_json(h.items_seen as int), "last_poll"@);
    what_putting_an_entry_does(b, "items_seen"@, uint_json(h.items_seen as int), "last_error"@);
}

/// Whose health is known is told by the address.
pub proof fn whose_health_is_shown(h: FeedHealth, list: Seq<FeedHealth>, url: Seq<char>)
    ensures
        health_at(Seq::empty(), url) is None,
        h.url@ == url ==> health_at(seq![h] + list, url) == Some(h),
        h.url@ != url ==> health_at(seq![h] + list, url) == health_at(list, url),
{
    assert((seq![h] + list).drop_first() =~= list);
}

/// Of a search site everything is shown but its key, of which only whether
/// there is one.
pub proof fn what_is_shown_of_a_search_site(i: IndexerView)
    ensures
        indexer_shown(i)->Object_0.len() == 7,
        indexer_shown(i)->Object_0[0] == ("name"@, Json::Text(i.name)),
        indexer_shown(i)->Object_0[1] == ("url"@, Json::Text(i.url)),
        indexer_shown(i)->Object_0[2] == ("enabled"@, Json::Bool(i.enabled)),
        indexer_shown(i)->Object_0[3] == ("priority"@, uint_json(i.priority as int)),
        indexer_shown(i)->Object_0[4] == ("hits_per_day"@, uint_json(i.hits_per_day as int)),
        indexer_shown(i)->Object_0[5] == ("grabs_per_day"@, uint_json(i.grabs_per_day as int)),
        indexer_shown(i)->Object_0[6].0 == "has_key"@,
        i.apikey.len() == 0 ==> indexer_shown(i)->Object_0[6].1 == Json::Bool(false),
        i.apikey.len() > 0 ==> indexer_shown(i)->Object_0[6].1 == Json::Bool(true),
{
}

/// The same of an instance.
pub proof fn what_is_shown_of_an_instance(i: ArrView)
    ensures
        instance_shown(i)->Object_0.len() == 5,
        instance_shown(i)->Object_0[0] == ("name"@, Json::Text(i.name)),
        instance_shown(i)->Object_0[1] == ("kind"@, Json::Text(i.kind)),
        instance_shown(i)->Object_0[2] == ("url"@, Json::Text(i.url)),
        instance_shown(i)->Object_0[3] == ("enabled"@, Json::Bool(i.enabled)),
        instance_shown(i)->Object_0[4].0 == "has_key"@,
        i.apikey.len() == 0 ==> instance_shown(i)->Object_0[4].1 == Json::Bool(false),
        i.apikey.len() > 0 ==> instance_shown(i)->Object_0[4].1 == Json::Bool(true),
{
}

/// The same of a target, with what its own last delivery did.
pub proof fn what_is_shown_of_a_target(list: Seq<TargetView>, sends: Seq<Json>, k: int)
    requires
        0 <= k < list.len(),
    ensures
        ({
            let o = targets_shown(list, sends)->Array_0[k]->Object_0;
            let t = list[k];
            &&& o.len() == 9
            &&& o[0] == ("name"@, Json::Text(t.name))
            &&& o[1] == ("kind"@, Json::Text(t.kind))
            &&& o[2] == ("url"@, Json::Text(t.url))
            &&& o[3] == ("body"@, Json::Text(t.body))
            &&& o[4] == ("enabled"@, Json::Bool(t.enabled))
            &&& o[5] == ("on_failure"@, Json::Bool(t.on_failure))
            &&& o[6] == ("category"@, Json::Text(t.category))
            &&& o[7].0 == "has_token"@
            &&& t.token.len() == 0 ==> o[7].1 == Json::Bool(false)
            &&& t.token.len() > 0 ==> o[7].1 == Json::Bool(true)
            &&& o[8].0 == "last_send"@
            &&& k < sends.len() ==> o[8].1 == sends[k]
            &&& k >= sends.len() ==> o[8].1 == Json::Null
        }),
{
}

/// The watchlist asks the search sites as it was answered; while it was not,
/// exactly where there are any.
pub proof fn when_the_watchlist_asks_search_sites(d: &Daemon, r: bool)
    requires
        call_ensures(Daemon::watchlist_external_on, (d,), r),
    ensures
        d.automation.watchlist_external_set ==> r == d.automation.watchlist_external,
        !d.automation.watchlist_external_set && d.automation.indexers@.len() == 0 ==> !r,
        !d.automation.watchlist_external_set && d.automation.indexers@.len() > 0 ==> r,
{
}

/// The patterns of a rule are those that it holds; none is the empty one.
pub proof fn which_patterns_are_judged(list: &Vec<Value>, r: Vec<(String, String)>, i: int)
    requires
        0 <= i < list@.len(),
        call_ensures(rule_patterns, (list,), r),
    ensures
        r@.len() == list@.len(),
        field(list@[i]@, "match"@) matches Some(j) ==> (j is Text ==> r@[i].0@ == j->Text_0),
        field(list@[i]@, "not_match"@) matches Some(j) ==> (j is Text ==> r@[i].1@ == j->Text_0),
        field(list@[i]@, "match"@) is None ==> r@[i].0@.len() == 0,
        field(list@[i]@, "not_match"@) is None ==> r@[i].1@.len() == 0,
{
    reveal_strlit("");
}

} // verus!
