//! What a start reads back: the saved settings, and the fields that are
//! seeded from them.
use crate::daemon::{
    a_number_reads_back, a_switch_reads_back, another_number_stays, another_switch_stays, cap_of,
    clamp, clamped, count_name, flag_name, floor_of, name_of_count, name_of_flag, within, Action,
    ArrInstance, Automation, CatDest, CleanupMode, Count, Daemon, EatMode, Engine, Flag,
    Indexing, Interface, Numbers, Paths, Predb, QualityPrefs, Speed, Switches, Target,
};
use crate::order::{insert_sorted, push_set, sorted};
use crate::settings::automation::{
    eat_mode, failure_word, is_failure_link, is_prompt, least, prompt_word,
};
use crate::settings::indexing::{
    distinct_kinds, parse_evict_kinds, tip_interval, tip_secs, unknown_kind,
};
use crate::settings::lists::{quote, quoted};
use crate::settings::outcome::{count_set, flag_set, typed_number, Outcome};
use crate::settings::paths::dests;
use crate::text::{
    copy_texts, glue, glue3, is_on, join, joined, list_of, listed, lower, lowered, parse_u64,
    parsed_bounds, parsed_u64, same, split_list, trim, trimmed,
};
use crate::value::{
    array, array_field, bool_field, field, jsons, strings_in, strings_of, text_field, texts,
    texts_json, u64_field, Json, Value,
};
use vstd::prelude::*;

pub mod named;

verus! {

// ---- single saved values --------------------------------------------------

/// The saved Boolean, or what there was.
pub open spec fn bool_or(saved: Json, name: Seq<char>, was: bool) -> bool {
    match bool_field(saved, name) {
        Some(b) => b,
        None => was,
    }
}

/// The saved number, or what there was.
pub open spec fn u64_or(saved: Json, name: Seq<char>, was: u64) -> u64 {
    match u64_field(saved, name) {
        Some(n) => n,
        None => was,
    }
}

/// The saved string, or what there was.
pub open spec fn text_or(saved: Json, name: Seq<char>, was: Seq<char>) -> Seq<char> {
    match text_field(saved, name) {
        Some(s) => s,
        None => was,
    }
}

fn read_bool(saved: &Value, name: &str, was: bool) -> (r: bool)
    ensures
        r == bool_or(saved@, name@, was),
{
    match saved.get_bool(name) {
        Some(b) => b,
        None => was,
    }
}

fn read_u64(saved: &Value, name: &str, was: u64) -> (r: u64)
    ensures
        r == u64_or(saved@, name@, was),
{
    match saved.get_u64(name) {
        Some(n) => n,
        None => was,
    }
}

fn read_text(saved: &Value, name: &str, was: &String) -> (r: String)
    ensures
        r@ == text_or(saved@, name@, was@),
{
    match saved.get_text(name) {
        Some(s) => s,
        None => was.clone(),
    }
}

/// The strings of a list, if it holds nothing else.
pub open spec fn only_texts(a: Seq<Json>) -> Option<Seq<Seq<char>>>
    decreases a.len(),
{
    if a.len() == 0 {
        Some(Seq::empty())
    } else {
        match (only_texts(a.drop_last()), a.last()) {
            (Some(before), Json::Text(s)) => Some(before.push(s)),
            _ => None,
        }
    }
}

proof fn only_texts_fails(a: Seq<Json>, n: int)
    requires
        0 <= n <= a.len(),
        only_texts(a.take(n)) is None,
    ensures
        only_texts(a) is None,
    decreases a.len(),
{
    if n == a.len() {
        assert(a.take(n) =~= a);
    } else {
        assert(a.drop_last().take(n) =~= a.take(n));
        only_texts_fails(a.drop_last(), n);
    }
}

/// The saved list of strings, if it is one.
pub open spec fn saved_texts(saved: Json, name: Seq<char>) -> Option<Seq<Seq<char>>> {
    match array_field(saved, name) {
        Some(a) => only_texts(a),
        None => None,
    }
}

fn read_only_texts(a: &Vec<Value>) -> (r: Option<Vec<String>>)
    ensures
        r.deep_view() == only_texts(jsons(a@)),
{
    let ghost all = jsons(a@);
    let mut r: Vec<String> = Vec::new();
    let mut i: usize = 0;
    assert(Some(r.deep_view()) == only_texts(all.take(0))) by {
        assert(r.deep_view() =~= Seq::empty());
    }
    while i < a.len()
        invariant
            i <= a@.len(),
            all == jsons(a@),
            Some(r.deep_view()) == only_texts(all.take(i as int)),
        decreases a@.len() - i,
    {
        assert(all.take(i + 1).drop_last() =~= all.take(i as int));
        assert(all.take(i + 1).last() == a@[i as int]@);
        let ghost before = r.deep_view();
        match &a[i] {
            Value::Text(s) => {
                r.push(s.clone());
                assert(r.deep_view() =~= before.push(s@));
            },
            _ => {
                proof {
                    only_texts_fails(all, i + 1);
                }
                return None;
            },
        }
        i = i + 1;
    }
    assert(all.take(all.len() as int) =~= all);
    Some(r)
}

fn read_texts(saved: &Value, name: &str) -> (r: Option<Vec<String>>)
    ensures
        r.deep_view() == saved_texts(saved@, name@),
{
    match saved.get(name) {
        Some(v) => match v.as_array() {
            Some(a) => read_only_texts(a),
            None => None,
        },
        None => None,
    }
}

// ---- switches and numbers -------------------------------------------------

/// The switches that a start reads back.
pub open spec fn restored_flags() -> Seq<Flag> {
    seq![
        Flag::ParCleanup,
        Flag::WatchKeepNzb,
        Flag::WallHideAdult,
        Flag::AutoConnections,
        Flag::AutoDefer,
        Flag::PostHealth,
        Flag::PostHealthDefer,
        Flag::AutoPrefetch,
        Flag::OracleRoute,
        Flag::RaceStragglers,
        Flag::AdaptiveTimeouts,
        Flag::AutoRename,
        Flag::IdentityLookup,
        Flag::RenameResolution,
        Flag::RenameVcodec,
        Flag::RenameAcodec,
        Flag::RenameSource,
        Flag::RenameGroup,
        Flag::RenameYearParens,
        Flag::RenameQualityBrackets,
        Flag::RenameExtraWords,
        Flag::RenameIdentify,
        Flag::RenameEpisodeTitles,
        Flag::HistoryColorNames,
        Flag::MediaChipColor,
        Flag::ShapeChipColor,
        Flag::RenameJunk,
        Flag::RenameMediaOnly,
        Flag::UpdateChecks,
        Flag::UnitBits,
        Flag::IndexCoverage,
    ]
}

/// The switches after those of `flags` were read back.
pub open spec fn switches_restored(s: Switches, flags: Seq<Flag>, saved: Json) -> Switches
    decreases flags.len(),
{
    if flags.len() == 0 {
        s
    } else {
        let before = switches_restored(s, flags.drop_last(), saved);
        match bool_field(saved, flag_name(flags.last())) {
            Some(on) => before.with(flags.last(), on),
            None => before,
        }
    }
}

fn flags_to_restore() -> (r: Vec<Flag>)
    ensures
        r@ == restored_flags(),
{
    let r: Vec<Flag> = vec![
        Flag::ParCleanup,
        Flag::WatchKeepNzb,
        Flag::WallHideAdult,
        Flag::AutoConnections,
        Flag::AutoDefer,
        Flag::PostHealth,
        Flag::PostHealthDefer,
        Flag::AutoPrefetch,
        Flag::OracleRoute,
        Flag::RaceStragglers,
        Flag::AdaptiveTimeouts,
        Flag::AutoRename,
        Flag::IdentityLookup,
        Flag::RenameResolution,
        Flag::RenameVcodec,
        Flag::RenameAcodec,
        Flag::RenameSource,
        Flag::RenameGroup,
        Flag::RenameYearParens,
        Flag::RenameQualityBrackets,
        Flag::RenameExtraWords,
        Flag::RenameIdentify,
        Flag::RenameEpisodeTitles,
        Flag::HistoryColorNames,
        Flag::MediaChipColor,
        Flag::ShapeChipColor,
        Flag::RenameJunk,
        Flag::RenameMediaOnly,
        Flag::UpdateChecks,
        Flag::UnitBits,
        Flag::IndexCoverage,
    ];
    assert(r@ =~= restored_flags());
    r
}

fn restore_switches(s: &mut Switches, saved: &Value)
    ensures
        *final(s) == switches_restored(*old(s), restored_flags(), saved@),
{
    let flags: Vec<Flag> = flags_to_restore();
    let mut i: usize = 0;
    while i < flags.len()
        invariant
            i <= flags@.len(),
            *s == switches_restored(*old(s), flags@.take(i as int), saved@),
        decreases flags@.len() - i,
    {
        let f: Flag = flags[i];
        assert(flags@.take(i + 1).drop_last() =~= flags@.take(i as int));
        assert(flags@.take(i + 1).last() == f);
        if let Some(on) = saved.get_bool(name_of_flag(f)) {
            s.set(f, on);
        }
        i = i + 1;
    }
    assert(flags@.take(flags@.len() as int) =~= flags@);
}

/// The bounded numbers that a start reads back.
pub open spec fn restored_counts() -> Seq<Count> {
    seq![Count::IndexScanPar, Count::OracleSample, Count::IndexDeepen, Count::PredbSeedDays]
}

/// The numbers after those of `counts` were read back, within their bounds.
pub open spec fn numbers_restored(s: Numbers, counts: Seq<Count>, saved: Json) -> Numbers
    decreases counts.len(),
{
    if counts.len() == 0 {
        s
    } else {
        let before = numbers_restored(s, counts.drop_last(), saved);
        let c = counts.last();
        match u64_field(saved, count_name(c)) {
            Some(n) => before.with(
                c,
                clamped(n as int, floor_of(c) as int, cap_of(c) as int) as u64,
            ),
            None => before,
        }
    }
}

fn restore_numbers(s: &mut Numbers, saved: &Value)
    ensures
        *final(s) == numbers_restored(*old(s), restored_counts(), saved@),
{
    let counts: Vec<Count> = vec![
        Count::IndexScanPar,
        Count::OracleSample,
        Count::IndexDeepen,
        Count::PredbSeedDays,
    ];
    assert(counts@ =~= restored_counts());
    let mut i: usize = 0;
    while i < counts.len()
        invariant
            i <= counts@.len(),
            *s == numbers_restored(*old(s), counts@.take(i as int), saved@),
        decreases counts@.len() - i,
    {
        let c: Count = counts[i];
        assert(counts@.take(i + 1).drop_last() =~= counts@.take(i as int));
        assert(counts@.take(i + 1).last() == c);
        if let Some(n) = saved.get_u64(name_of_count(c)) {
            s.set(c, within(c, n));
        }
        i = i + 1;
    }
    assert(counts@.take(counts@.len() as int) =~= counts@);
}

// ---- the rest of the state ------------------------------------------------

/// Saved categories after slugs that have become reserved were renamed.
pub struct Migrated {
    pub list: Vec<Value>,
    /// Whether any slug was renamed.
    pub renamed: bool,
    /// Whether the list is valid as a whole.
    pub valid: bool,
}

/// A speed limit given at launch, and its size if it is one.
pub struct SpeedArg {
    pub text: String,
    pub size: Option<u64>,
}

/// What the rest of the process made of the saved settings: how the saved
/// lists read, and what only other parts can work out.
pub struct Restoring {
    pub smart_folders: Result<Vec<Value>, String>,
    pub custom_categories: Result<Migrated, String>,
    /// The interests that the saved ones name.
    pub interests: Vec<String>,
    /// The indexed groups that the applied interests would own.
    pub owned: Vec<String>,
    pub targets: Result<Vec<Target>, String>,
    pub instances: Result<Vec<ArrInstance>, String>,
    pub dests: Option<Vec<CatDest>>,
    /// The saved category names, each made usable; empty where nothing usable
    /// is left of it.
    pub clean: Vec<String>,
    pub speedlimit: Option<SpeedArg>,
}

/// What a start makes of the paths.
pub open spec fn paths_restored(old: Paths, saved: Json, g: Restoring, new: Paths) -> bool {
    &&& new == (Paths {
        watch_interval_secs: new.watch_interval_secs,
        delete_to_trash: new.delete_to_trash,
        move_completed: new.move_completed,
        move_completed_cats: new.move_completed_cats,
        cats: new.cats,
        script_timeout: new.script_timeout,
        ..old
    })
    &&& new.watch_interval_secs == (match u64_field(saved, "watch_interval_secs"@) {
        Some(n) => clamped(n as int, 1, 3600) as u64,
        None => old.watch_interval_secs,
    })
    &&& new.delete_to_trash == bool_or(saved, "delete_to_trash"@, old.delete_to_trash)
    &&& new.move_completed.deep_view() == (match text_field(saved, "move_completed"@) {
        Some(p) if p.len() > 0 => Some(p),
        _ => old.move_completed.deep_view(),
    })
    &&& dests(new.move_completed_cats@) == (match (
        text_field(saved, "move_completed_cats"@),
        g.dests,
    ) {
        (Some(_), Some(list)) => dests(list@),
        _ => dests(old.move_completed_cats@),
    })
    &&& new.script_timeout == u64_or(saved, "script_timeout_secs"@, old.script_timeout)
    &&& cats_restored(old.cats.deep_view(), saved, g.clean.deep_view(), new.cats.deep_view())
}

/// The category names that were saved, the wildcard too.
pub open spec fn saved_names(saved: Json) -> Seq<Seq<char>> {
    match text_field(saved, "categories"@) {
        Some(t) => list_of(t, ","@),
        None => Seq::empty(),
    }
}

/// The category names that were saved, the wildcard too: each of them has to
/// be made a usable folder name before a start takes it.
pub fn saved_categories(saved: &Value) -> (r: Vec<String>)
    ensures
        r.deep_view() == saved_names(saved@),
{
    match saved.get_text("categories") {
        Some(t) => split_list(t.as_str(), ","),
        None => {
            let none: Vec<String> = Vec::new();
            assert(none.deep_view() =~= Seq::empty());
            none
        },
    }
}

/// The strings that are not empty.
pub open spec fn not_empty(list: Seq<Seq<char>>) -> Set<Seq<char>> {
    list.to_set().filter(|s: Seq<char>| s.len() > 0)
}

/// What a start makes of the categories: the saved ones join those there are.
pub open spec fn cats_restored(
    old: Seq<Seq<char>>,
    saved: Json,
    clean: Seq<Seq<char>>,
    new: Seq<Seq<char>>,
) -> bool {
    match text_field(saved, "categories"@) {
        Some(_) => sorted(new) && new.to_set() == old.to_set().union(not_empty(clean)),
        None => new == old,
    }
}

fn restore_cats(cats: &mut Vec<String>, clean: &Vec<String>)
    requires
        sorted(old(cats).deep_view()),
    ensures
        sorted(final(cats).deep_view()),
        final(cats).deep_view().to_set() == old(cats).deep_view().to_set().union(
            not_empty(clean.deep_view()),
        ),
{
    let ghost base = cats.deep_view().to_set();
    let ghost all = clean.deep_view();
    let mut i: usize = 0;
    assert(base.union(not_empty(all.take(0))) =~= base);
    while i < clean.len()
        invariant
            i <= clean@.len(),
            all == clean.deep_view(),
            sorted(cats.deep_view()),
            cats.deep_view().to_set() == base.union(not_empty(all.take(i as int))),
        decreases clean@.len() - i,
    {
        let ghost a = all.take(i as int);
        let ghost b = all.take(i + 1);
        let ghost x = clean@[i as int]@;
        proof {
            assert(b =~= a.push(x));
            push_set(a, x);
        }
        if !clean[i].as_str().is_empty() {
            insert_sorted(cats, clean[i].clone());
            assert(base.union(not_empty(a)).insert(x) =~= base.union(not_empty(b)));
        } else {
            assert(not_empty(a) =~= not_empty(b));
        }
        i = i + 1;
    }
    assert(all.take(all.len() as int) =~= all);
}

fn copy_dests(list: &Vec<CatDest>) -> (r: Vec<CatDest>)
    ensures
        dests(r@) == dests(list@),
{
    let mut r: Vec<CatDest> = Vec::new();
    let mut i: usize = 0;
    while i < list.len()
        invariant
            i <= list@.len(),
            r@.len() == i,
            forall|j: int|
                0 <= j < i ==> (#[trigger] r@[j]).cat@ == list@[j].cat@ && r@[j].path@
                    == list@[j].path@,
        decreases list@.len() - i,
    {
        r.push(CatDest { cat: list[i].cat.clone(), path: list[i].path.clone() });
        i = i + 1;
    }
    assert(dests(r@) =~= dests(list@));
    r
}

fn restore_paths(p: &mut Paths, saved: &Value, g: &Restoring)
    requires
        sorted(old(p).cats.deep_view()),
    ensures
        paths_restored(*old(p), saved@, *g, *final(p)),
{
    if let Some(n) = saved.get_u64("watch_interval_secs") {
        p.watch_interval_secs = clamp(n, 1, 3600);
    }
    p.delete_to_trash = read_bool(saved, "delete_to_trash", p.delete_to_trash);
    if let Some(v) = saved.get_text("move_completed") {
        if !v.as_str().is_empty() {
            p.move_completed = Some(v);
        }
    }
    if saved.get_text("move_completed_cats").is_some() {
        if let Some(list) = &g.dests {
            p.move_completed_cats = copy_dests(list);
        }
    }
    if saved.get_text("categories").is_some() {
        restore_cats(&mut p.cats, &g.clean);
    }
    p.script_timeout = read_u64(saved, "script_timeout_secs", p.script_timeout);
}

/// What a start makes of the interface.
pub open spec fn interface_restored(old: Interface, saved: Json, new: Interface) -> bool {
    &&& new.ui_locale@ == text_or(saved, "ui_locale"@, old.ui_locale@)
    &&& new.update_serial_seen == u64_or(saved, "update_serial_seen"@, old.update_serial_seen)
    &&& new.update_url@ == text_or(saved, "update_url"@, old.update_url@)
    &&& new.history_rows == (match u64_field(saved, "history_rows"@) {
        Some(n) if 1 <= n <= 200 => n,
        _ => old.history_rows,
    })
}

fn restore_interface(p: &mut Interface, saved: &Value)
    ensures
        interface_restored(*old(p), saved@, *final(p)),
{
    p.ui_locale = read_text(saved, "ui_locale", &p.ui_locale);
    p.update_serial_seen = read_u64(saved, "update_serial_seen", p.update_serial_seen);
    p.update_url = read_text(saved, "update_url", &p.update_url);
    if let Some(n) = saved.get_u64("history_rows") {
        if 1 <= n && n <= 200 {
            p.history_rows = n;
        }
    }
}

/// The groups that interests own after a start: as saved, or, where nothing
/// is saved of them, those that the applied interests would own.
pub open spec fn interest_groups_restored(
    old: Seq<Seq<char>>,
    saved: Json,
    owned: Seq<Seq<char>>,
) -> Seq<Seq<char>> {
    match field(saved, "index_interest_groups"@) {
        Some(_) => match saved_texts(saved, "index_interest_groups"@) {
            Some(groups) => groups,
            None => old,
        },
        None => if owned.len() > 0 {
            owned
        } else {
            old
        },
    }
}

/// What a start makes of the indexer.
pub open spec fn indexing_restored(
    old: Indexing,
    saved: Json,
    g: Restoring,
    new: Indexing,
) -> bool {
    &&& new == (Indexing {
        index_interests: new.index_interests,
        index_interests_applied: new.index_interests_applied,
        index_interest_groups: new.index_interest_groups,
        index_tip_secs: new.index_tip_secs,
        index_gapfill: new.index_gapfill,
        ..old
    })
    &&& new.index_interests@ == (match text_field(saved, "index_interests"@) {
        Some(_) => joined(g.interests.deep_view(), ","@),
        None => old.index_interests@,
    })
    &&& new.index_interests_applied@ == text_or(
        saved,
        "index_interests_applied"@,
        old.index_interests_applied@,
    )
    &&& new.index_interest_groups.deep_view() == interest_groups_restored(
        old.index_interest_groups.deep_view(),
        saved,
        g.owned.deep_view(),
    )
    &&& new.index_tip_secs == (match u64_field(saved, "index_tip_secs"@) {
        Some(n) => tip_secs(n as int) as u64,
        None => old.index_tip_secs,
    })
    &&& new.index_gapfill == (match u64_field(saved, "index_gapfill"@) {
        Some(n) => least(n as int, 100) as u64,
        None => old.index_gapfill,
    })
}

fn restore_indexing(p: &mut Indexing, saved: &Value, g: &Restoring)
    ensures
        indexing_restored(*old(p), saved@, *g, *final(p)),
{
    if saved.get_text("index_interests").is_some() {
        p.index_interests = join(&g.interests, ",");
    }
    p.index_interests_applied = read_text(
        saved,
        "index_interests_applied",
        &p.index_interests_applied,
    );
    if saved.get("index_interest_groups").is_some() {
        if let Some(groups) = read_texts(saved, "index_interest_groups") {
            p.index_interest_groups = groups;
        }
    } else if g.owned.len() > 0 {
        p.index_interest_groups = copy_texts(&g.owned);
    }
    if let Some(n) = saved.get_u64("index_tip_secs") {
        p.index_tip_secs = tip_interval(n);
    }
    if let Some(n) = saved.get_u64("index_gapfill") {
        p.index_gapfill = if n < 100 {
            n
        } else {
            100
        };
    }
}

/// What a start makes of the words and switches of the automation.
pub open spec fn automation_words_restored(old: Automation, saved: Json, new: Automation) -> bool {
    &&& new == (Automation {
        cleanup_exts: new.cleanup_exts,
        password_file: new.password_file,
        unpack_password_file: new.unpack_password_file,
        password_prompt: new.password_prompt,
        unpack_eat_volumes: new.unpack_eat_volumes,
        failure_link: new.failure_link,
        ..old
    })
    &&& new.cleanup_exts.deep_view() == (match saved_texts(saved, "cleanup_exts"@) {
        Some(list) => list,
        None => old.cleanup_exts.deep_view(),
    })
    &&& new.password_file@ == (match text_field(saved, "password_file"@) {
        Some(p) if trimmed(p).len() > 0 => trimmed(p),
        _ => old.password_file@,
    })
    &&& new.unpack_password_file.deep_view() == Some(new.password_file@)
    &&& new.password_prompt@ == (match text_field(saved, "password_prompt"@) {
        Some(m) if is_prompt(m) => m,
        _ => old.password_prompt@,
    })
    &&& new.unpack_eat_volumes@ == (match text_field(saved, "unpack_eat_volumes"@) {
        Some(m) if eat_mode(m) is Some => m,
        _ => old.unpack_eat_volumes@,
    })
    &&& new.failure_link@ == (match text_field(saved, "failure_link"@) {
        Some(m) if is_failure_link(m) => m,
        _ => old.failure_link@,
    })
}

fn restore_automation_words(p: &mut Automation, saved: &Value)
    ensures
        automation_words_restored(*old(p), saved@, *final(p)),
{
    if let Some(list) = read_texts(saved, "cleanup_exts") {
        p.cleanup_exts = list;
    }
    if let Some(f) = saved.get_text("password_file") {
        let f: String = trim(f.as_str());
        if !f.as_str().is_empty() {
            p.password_file = f;
        }
    }
    p.unpack_password_file = Some(p.password_file.clone());
    if let Some(m) = saved.get_text("password_prompt") {
        if prompt_word(m.as_str()) {
            p.password_prompt = m;
        }
    }
    if let Some(m) = saved.get_text("unpack_eat_volumes") {
        if EatMode::parse(m.as_str()).is_some() {
            p.unpack_eat_volumes = m;
        }
    }
    if let Some(m) = saved.get_text("failure_link") {
        if failure_word(m.as_str()) {
            p.failure_link = m;
        }
    }
}

/// What a start makes of the numbers and switches of the automation.
pub open spec fn automation_numbers_restored(old: Automation, saved: Json) -> Automation {
    Automation {
        fast_par: bool_or(saved, "fast_par"@, old.fast_par),
        prefer_external_unrar: bool_or(
            saved,
            "prefer_external_unrar"@,
            old.prefer_external_unrar,
        ),
        arr_giveup_threshold: u64_or(saved, "arr_giveup_threshold"@, old.arr_giveup_threshold),
        watchlist_external: bool_or(saved, "watchlist_external"@, old.watchlist_external),
        watchlist_external_set: old.watchlist_external_set || bool_field(
            saved,
            "watchlist_external"@,
        ) is Some,
        watchlist_instant: bool_or(saved, "watchlist_instant"@, old.watchlist_instant),
        watchlist_instant_max: match u64_field(saved, "watchlist_instant_max"@) {
            Some(n) => least(n as int, 3600) as u32,
            None => old.watchlist_instant_max,
        },
        ..old
    }
}

fn restore_automation_numbers(p: &mut Automation, saved: &Value)
    ensures
        *final(p) == automation_numbers_restored(*old(p), saved@),
{
    p.fast_par = read_bool(saved, "fast_par", p.fast_par);
    p.prefer_external_unrar = read_bool(saved, "prefer_external_unrar", p.prefer_external_unrar);
    p.arr_giveup_threshold = read_u64(saved, "arr_giveup_threshold", p.arr_giveup_threshold);
    if let Some(on) = saved.get_bool("watchlist_external") {
        p.watchlist_external = on;
        p.watchlist_external_set = true;
    }
    p.watchlist_instant = read_bool(saved, "watchlist_instant", p.watchlist_instant);
    if let Some(n) = saved.get_u64("watchlist_instant_max") {
        p.watchlist_instant_max = if n < 3600 {
            n as u32
        } else {
            3600
        };
    }
}

/// The list that a start goes on with: the saved one if there is one that
/// reads as such, else the one there was.
pub open spec fn list_restored<T>(
    old: Vec<T>,
    saved: Json,
    name: Seq<char>,
    read: Result<Vec<T>, String>,
) -> Vec<T> {
    match (field(saved, name), read) {
        (Some(_), Ok(list)) => list,
        _ => old,
    }
}

/// The list that a start goes on with: the saved one if there is one that
/// reads as such, else the one there was. `read` is what the saved one reads
/// as.
pub fn list_at_start<T>(
    there: Vec<T>,
    saved: &Value,
    name: &str,
    read: Result<Vec<T>, String>,
) -> (r: Vec<T>)
    ensures
        r == list_restored(there, saved@, name@, read),
{
    if saved.get(name).is_some() {
        if let Ok(list) = read {
            return list;
        }
    }
    there
}

/// The categories that a start goes on with: the saved ones if they read as
/// such and are valid.
pub open spec fn categories_restored(
    old: Vec<Value>,
    saved: Json,
    read: Result<Migrated, String>,
) -> Vec<Value> {
    match (field(saved, "custom_categories"@), read) {
        (Some(_), Ok(m)) if m.valid => m.list,
        _ => old,
    }
}

/// What has to be saved again: categories of which a slug was renamed (valid
/// or not), and the groups that were found to belong to interests.
pub open spec fn saved_again(saved: Json, g: Restoring) -> Seq<(Seq<char>, Json)> {
    let cats = match (field(saved, "custom_categories"@), g.custom_categories) {
        (Some(_), Ok(m)) if m.renamed => seq![
            ("custom_categories"@, Json::Array(jsons(m.list@))),
        ],
        _ => Seq::empty(),
    };
    if field(saved, "index_interest_groups"@) is None && g.owned@.len() > 0 {
        cats.push(("index_interest_groups"@, texts_json(g.owned.deep_view())))
    } else {
        cats
    }
}

fn save_again(saved: &Value, g: &Restoring) -> (r: Vec<(String, Value)>)
    ensures
        crate::value::entries(r@) == saved_again(saved@, *g),
{
    let mut r: Vec<(String, Value)> = Vec::new();
    if saved.get("custom_categories").is_some() {
        if let Ok(m) = &g.custom_categories {
            if m.renamed {
                r.push(("custom_categories".to_owned(), array(&m.list)));
            }
        }
    }
    let ghost cats = crate::value::entries(r@);
    if saved.get("index_interest_groups").is_none() && g.owned.len() > 0 {
        r.push(("index_interest_groups".to_owned(), texts(&g.owned)));
    }
    assert(crate::value::entries(r@) =~= saved_again(saved@, *g));
    r
}

/// The cleanup mode that a word means.
pub open spec fn cleanup_mode(m: Seq<char>) -> Option<CleanupMode> {
    if m == "follow"@ {
        Some(CleanupMode::Follow)
    } else if m == "trash"@ {
        Some(CleanupMode::Trash)
    } else if m == "delete"@ {
        Some(CleanupMode::Delete)
    } else {
        None
    }
}

/// The mode for a saved word: one that means nothing is taken for the trash,
/// from which files can be brought back.
pub open spec fn cleanup_restored(m: Seq<char>) -> CleanupMode {
    match cleanup_mode(lowered(m)) {
        Some(c) => c,
        None => CleanupMode::Trash,
    }
}

fn read_cleanup(m: &str) -> (r: CleanupMode)
    ensures
        r == cleanup_restored(m@),
{
    let m: String = lower(m);
    if same(m.as_str(), "follow") {
        CleanupMode::Follow
    } else if same(m.as_str(), "trash") {
        CleanupMode::Trash
    } else if same(m.as_str(), "delete") {
        CleanupMode::Delete
    } else {
        CleanupMode::Trash
    }
}

/// The eat mode that a stored word stands for; an unknown one is off.
pub open spec fn eat_of(m: Seq<char>) -> EatMode {
    match eat_mode(m) {
        Some(e) => e,
        None => EatMode::Off,
    }
}

/// The work that a start asks for, in order: switches and modes that other
/// parts hold a copy of, whether saved or not, and the speed limit of the
/// launch.
pub open spec fn restore_work(a: Automation, saved: Json, limit: Option<SpeedArg>) -> Seq<Action> {
    let first = seq![
        Action::Eat(eat_of(a.unpack_eat_volumes@)),
        Action::FastPar(a.fast_par),
        Action::ExternalUnrar(a.prefer_external_unrar),
    ];
    let second = match text_field(saved, "cleanup_delete_mode"@) {
        Some(m) => first.push(Action::Cleanup(cleanup_restored(m))),
        None => first,
    };
    let third = match u64_field(saved, "nested_max_depth"@) {
        Some(n) => second.push(Action::NestedDepth(clamped(n as int, 1, 64) as u64)),
        None => second,
    };
    match limit {
        Some(SpeedArg { size: Some(bps), .. }) => third.push(Action::SpeedCeiling(bps)),
        _ => third,
    }
}

fn ask_restored(
    todo: &mut Vec<Action>,
    a: &Automation,
    saved: &Value,
    limit: &Option<SpeedArg>,
)
    ensures
        final(todo)@ == old(todo)@ + restore_work(*a, saved@, *limit),
{
    let ghost before = todo@;
    let mode: EatMode = match EatMode::parse(a.unpack_eat_volumes.as_str()) {
        Some(m) => m,
        None => EatMode::Off,
    };
    todo.push(Action::Eat(mode));
    todo.push(Action::FastPar(a.fast_par));
    todo.push(Action::ExternalUnrar(a.prefer_external_unrar));
    if let Some(m) = saved.get_text("cleanup_delete_mode") {
        todo.push(Action::Cleanup(read_cleanup(m.as_str())));
    }
    if let Some(n) = saved.get_u64("nested_max_depth") {
        todo.push(Action::NestedDepth(clamp(n, 1, 64)));
    }
    if let Some(arg) = limit {
        if let Some(bps) = arg.size {
            todo.push(Action::SpeedCeiling(bps));
        }
    }
    assert(todo@ =~= before + restore_work(*a, saved@, *limit));
}

/// What a start makes of the small groups.
pub open spec fn small_restored(old: Daemon, saved: Json, new: Daemon) -> bool {
    &&& new.predb == (Predb {
        max_rows: match u64_field(saved, "predb_max_rows"@) {
            Some(n) => clamped(
                n as int,
                old.words.predb_rows_min as int,
                old.words.predb_rows_max as int,
            ) as u64,
            None => old.predb.max_rows,
        },
        ..old.predb
    })
    &&& new.engine == (Engine {
        nested_max_depth: match u64_field(saved, "nested_max_depth"@) {
            Some(n) => clamped(n as int, 1, 64) as u64,
            None => old.engine.nested_max_depth,
        },
        ..old.engine
    })
    &&& new.speed == (Speed {
        bench_interval: u64_or(saved, "bench_interval"@, old.speed.bench_interval),
        ..old.speed
    })
}

fn restore_small(d: &mut Daemon, saved: &Value)
    ensures
        small_restored(*old(d), saved@, *final(d)),
        *final(d) == (Daemon {
            predb: final(d).predb,
            engine: final(d).engine,
            speed: final(d).speed,
            ..*old(d)
        }),
{
    if let Some(n) = saved.get_u64("predb_max_rows") {
        d.predb.max_rows = clamp(n, d.words.predb_rows_min, d.words.predb_rows_max);
    }
    if let Some(n) = saved.get_u64("nested_max_depth") {
        d.engine.nested_max_depth = clamp(n, 1, 64);
    }
    d.speed.bench_interval = read_u64(saved, "bench_interval", d.speed.bench_interval);
}

/// What a start makes of everything but the automation.
pub open spec fn groups_restored(old: Daemon, saved: Json, g: Restoring, new: Daemon) -> bool {
    &&& new.switches == switches_restored(old.switches, restored_flags(), saved)
    &&& new.numbers == numbers_restored(old.numbers, restored_counts(), saved)
    &&& paths_restored(old.paths, saved, g, new.paths)
    &&& interface_restored(old.interface, saved, new.interface)
    &&& indexing_restored(old.indexing, saved, g, new.indexing)
    &&& small_restored(old, saved, new)
    &&& new.keys == old.keys
    &&& new.words == old.words
}

fn restore_groups(d: &mut Daemon, saved: &Value, g: &Restoring)
    requires
        sorted(old(d).paths.cats.deep_view()),
    ensures
        groups_restored(*old(d), saved@, *g, *final(d)),
        final(d).automation == old(d).automation,
        final(d).todo == old(d).todo,
{
    restore_switches(&mut d.switches, saved);
    restore_numbers(&mut d.numbers, saved);
    restore_paths(&mut d.paths, saved, g);
    restore_interface(&mut d.interface, saved);
    restore_indexing(&mut d.indexing, saved, g);
    restore_small(d, saved);
}

/// What a start makes of the automation.
pub open spec fn automation_restored(
    old: Automation,
    saved: Json,
    g: Restoring,
    new: Automation,
) -> bool {
    automation_words_restored(
        Automation {
            smart_folders: list_restored(
                old.smart_folders,
                saved,
                "smart_folders"@,
                g.smart_folders,
            ),
            custom_categories: categories_restored(
                old.custom_categories,
                saved,
                g.custom_categories,
            ),
            notify_targets: list_restored(
                old.notify_targets,
                saved,
                "notify_targets"@,
                g.targets,
            ),
            arr_instances: list_restored(
                old.arr_instances,
                saved,
                "arr_instances"@,
                g.instances,
            ),
            ..automation_numbers_restored(old, saved)
        },
        saved,
        new,
    )
}

/// What a start makes of the daemon.
pub open spec fn restored(old: Daemon, saved: Json, g: Restoring, new: Daemon) -> bool {
    &&& groups_restored(old, saved, g, new)
    &&& automation_restored(old.automation, saved, g, new.automation)
    &&& new.todo@ == old.todo@ + restore_work(new.automation, saved, g.speedlimit)
}

/// What a start says of the speed limit of the launch.
pub open spec fn limit_said(limit: Option<SpeedArg>, r: Result<(), String>) -> bool {
    match limit {
        Some(SpeedArg { text, size: None }) => r matches Err(e) && e@
            == "--speedlimit: bad size "@ + quoted(text@) + " (e.g. 4M, 500K, 0)"@,
        _ => r is Ok,
    }
}

/// Brings back what was saved. Says what has to be saved again, and whether
/// the speed limit of the launch is a size; what has to be saved again counts
/// also where it is none.
pub fn restore_runtime_state(d: &mut Daemon, saved: &Value, g: Restoring) -> (r: (
    Vec<(String, Value)>,
    Result<(), String>,
))
    requires
        sorted(old(d).paths.cats.deep_view()),
        g.clean@.len() == saved_names(saved@).len(),
    ensures
        restored(*old(d), saved@, g, *final(d)),
        crate::value::entries(r.0@) == saved_again(saved@, g),
        limit_said(g.speedlimit, r.1),
{
    restore_groups(d, saved, &g);
    let again: Vec<(String, Value)> = save_again(saved, &g);
    restore_automation_numbers(&mut d.automation, saved);
    restore_automation_lists(
        &mut d.automation,
        saved,
        g.smart_folders,
        g.custom_categories,
        g.targets,
        g.instances,
    );
    restore_automation_words(&mut d.automation, saved);
    ask_restored(&mut d.todo, &d.automation, saved, &g.speedlimit);
    let limit: Result<(), String> = match &g.speedlimit {
        Some(SpeedArg { text, size: None }) => Err(
            glue3(
                "--speedlimit: bad size ",
                quote(text.as_str()).as_str(),
                " (e.g. 4M, 500K, 0)",
            ),
        ),
        _ => Ok(()),
    };
    (again, limit)
}

fn restore_automation_lists(
    p: &mut Automation,
    saved: &Value,
    smart_folders: Result<Vec<Value>, String>,
    custom_categories: Result<Migrated, String>,
    targets: Result<Vec<Target>, String>,
    instances: Result<Vec<ArrInstance>, String>,
)
    ensures
        *final(p) == (Automation {
            smart_folders: list_restored(
                old(p).smart_folders,
                saved@,
                "smart_folders"@,
                smart_folders,
            ),
            custom_categories: categories_restored(
                old(p).custom_categories,
                saved@,
                custom_categories,
            ),
            notify_targets: list_restored(
                old(p).notify_targets,
                saved@,
                "notify_targets"@,
                targets,
            ),
            arr_instances: list_restored(
                old(p).arr_instances,
                saved@,
                "arr_instances"@,
                instances,
            ),
            ..*old(p)
        }),
{
    if saved.get("smart_folders").is_some() {
        if let Ok(list) = smart_folders {
            p.smart_folders = list;
        }
    }
    if saved.get("custom_categories").is_some() {
        if let Ok(m) = custom_categories {
            if m.valid {
                p.custom_categories = m.list;
            }
        }
    }
    if saved.get("notify_targets").is_some() {
        if let Ok(list) = targets {
            p.notify_targets = list;
        }
    }
    if saved.get("arr_instances").is_some() {
        if let Ok(list) = instances {
            p.arr_instances = list;
        }
    }
}

// ---- seeds ----------------------------------------------------------------

/// Whether old rows leave the index on their own. On unless saved
/// otherwise.
pub fn seed_index_retention(saved: &Value) -> (r: bool)
    ensures
        r == bool_or(saved@, "index_retention"@, true),
{
    read_bool(saved, "index_retention", true)
}

/// Whether the indexer rests while a download runs. On unless saved
/// otherwise.
pub fn seed_index_pause_on_download(saved: &Value) -> (r: bool)
    ensures
        r == bool_or(saved@, "index_pause_on_download"@, true),
{
    read_bool(saved, "index_pause_on_download", true)
}

/// Whether the indexer is paused. Off unless saved
/// otherwise.
pub fn seed_index_paused(saved: &Value) -> (r: bool)
    ensures
        r == bool_or(saved@, "index_paused"@, false),
{
    read_bool(saved, "index_paused", false)
}

/// Whether the pre feed is on. Off unless saved
/// otherwise.
pub fn seed_predb_enabled(saved: &Value) -> (r: bool)
    ensures
        r == bool_or(saved@, "predb_enabled"@, false),
{
    read_bool(saved, "predb_enabled", false)
}

/// Whether names are suggested for obfuscated posts. Off unless saved
/// otherwise.
pub fn seed_predb_corr_enabled(saved: &Value) -> (r: bool)
    ensures
        r == bool_or(saved@, "predb_corr_enabled"@, false),
{
    read_bool(saved, "predb_corr_enabled", false)
}

/// Whether strong suggestions are applied on their own. Off unless saved
/// otherwise.
pub fn seed_predb_corr_auto(saved: &Value) -> (r: bool)
    ensures
        r == bool_or(saved@, "predb_corr_auto"@, false),
{
    read_bool(saved, "predb_corr_auto", false)
}

/// Whether spots are on. Off unless saved
/// otherwise.
pub fn seed_spot_enabled(saved: &Value) -> (r: bool)
    ensures
        r == bool_or(saved@, "spot_enabled"@, false),
{
    read_bool(saved, "spot_enabled", false)
}

/// Whether a full index drops rows on its own. Off unless saved
/// otherwise.
pub fn seed_index_evict(saved: &Value) -> (r: bool)
    ensures
        r == bool_or(saved@, "index_evict"@, false),
{
    read_bool(saved, "index_evict", false)
}

/// A saved string that is not blank, or the built-in one.
pub open spec fn not_blank_or(saved: Json, name: Seq<char>, built_in: Seq<char>) -> Seq<char> {
    match text_field(saved, name) {
        Some(s) if trimmed(s).len() > 0 => s,
        _ => built_in,
    }
}

fn read_not_blank(saved: &Value, name: &str, built_in: &str) -> (r: String)
    ensures
        r@ == not_blank_or(saved@, name@, built_in@),
{
    match saved.get_text(name) {
        Some(s) => if trim(s.as_str()).as_str().is_empty() {
            built_in.to_owned()
        } else {
            s
        },
        None => built_in.to_owned(),
    }
}

/// The server of the pre feed.
pub fn seed_predb_server(saved: &Value, built_in: &str) -> (r: String)
    ensures
        r@ == not_blank_or(saved@, "predb_server"@, built_in@),
{
    read_not_blank(saved, "predb_server", built_in)
}

/// The channels of the pre feed.
pub fn seed_predb_channels(saved: &Value, built_in: &Vec<String>) -> (r: String)
    ensures
        r@ == not_blank_or(saved@, "predb_channels"@, joined(built_in.deep_view(), ","@)),
{
    read_not_blank(saved, "predb_channels", join(built_in, ",").as_str())
}

/// The nick of the pre feed.
pub fn seed_predb_nick(saved: &Value, built_in: &str) -> (r: String)
    ensures
        r@ == not_blank_or(saved@, "predb_nick"@, built_in@),
{
    read_not_blank(saved, "predb_nick", built_in)
}

/// The spot groups: the strings of the saved list, or one group.
pub fn seed_spot_groups(saved: &Value) -> (r: Vec<String>)
    ensures
        r.deep_view() == (match array_field(saved@, "spot_groups"@) {
            Some(a) => strings_in(a),
            None => seq!["free.pt"@],
        }),
{
    match saved.get_texts("spot_groups") {
        Some(list) => list,
        None => {
            let r: Vec<String> = vec!["free.pt".to_owned()];
            assert(r.deep_view() =~= seq!["free.pt"@]);
            r
        },
    }
}

/// How far back a first pass over a spot group goes.
pub fn seed_spot_backfill(saved: &Value) -> (r: u64)
    ensures
        r == clamped(
            u64_or(saved@, "spot_backfill"@, 50_000) as int,
            1_000,
            1_000_000,
        ),
{
    clamp(read_u64(saved, "spot_backfill", 50_000), 1_000, 1_000_000)
}

/// How large the index may grow; 0 is no limit.
pub fn seed_index_max_bytes(saved: &Value) -> (r: u64)
    ensures
        r == u64_or(saved@, "index_max_bytes"@, 0),
{
    read_u64(saved, "index_max_bytes", 0)
}

/// The speed of the line; 0 is unknown.
pub fn seed_line_speed(saved: &Value) -> (r: u64)
    ensures
        r == u64_or(saved@, "line_speed"@, 0),
{
    read_u64(saved, "line_speed", 0)
}

/// The order in which rows leave a full index: the saved one if it is one.
pub fn seed_index_evict_order(saved: &Value, orders: &Vec<String>) -> (r: String)
    ensures
        r@ == (match text_field(saved@, "index_evict_order"@) {
            Some(o) if orders.deep_view().contains(o) => o,
            _ => "ladder"@,
        }),
{
    match saved.get_text("index_evict_order") {
        Some(o) => if listed(orders, o.as_str()) {
            o
        } else {
            "ladder".to_owned()
        },
        None => "ladder".to_owned(),
    }
}

/// The saved kinds as they are typed: a list, or a text with commas.
pub open spec fn kinds_text(saved: Json) -> Option<Seq<char>> {
    match field(saved, "index_evict_kinds"@) {
        Some(Json::Array(a)) => Some(joined(strings_in(a), ","@)),
        Some(Json::Text(s)) => Some(s),
        _ => None,
    }
}

/// The kinds that may leave a full index; what does not read as kinds is
/// none.
pub open spec fn kinds_seeded(saved: Json, known: Seq<Seq<char>>) -> Seq<Seq<char>> {
    match kinds_text(saved) {
        Some(s) => if unknown_kind(list_of(s, ","@), known) is None {
            distinct_kinds(list_of(s, ","@))
        } else {
            Seq::empty()
        },
        None => Seq::empty(),
    }
}

/// The kinds that may leave a full index.
pub fn seed_index_evict_kinds(saved: &Value, known: &Vec<String>) -> (r: Vec<String>)
    ensures
        r.deep_view() == kinds_seeded(saved@, known.deep_view()),
{
    let none: Vec<String> = Vec::new();
    assert(none.deep_view() =~= Seq::empty());
    let typed: String = match saved.get("index_evict_kinds") {
        Some(Value::Array(a)) => {
            assert(Value::Array(*a)@->Array_0 =~= jsons(a@));
            join(&strings_of(a), ",")
        },
        Some(Value::Text(s)) => s.clone(),
        _ => {
            return none;
        },
    };
    match parse_evict_kinds(typed.as_str(), known) {
        Ok(list) => list,
        Err(_) => none,
    }
}

/// The gates of the index: their text as saved, and whether the launch read
/// any.
pub fn seed_index_gates(saved: &Value, gates: bool) -> (r: (String, bool))
    ensures
        r.0@ == text_or(saved@, "index_gates"@, ""@),
        r.1 == gates,
{
    (read_text(saved, "index_gates", &"".to_owned()), gates)
}

/// How long a failed job waits for its retry: what the environment says if it
/// is a number, else the minutes of the launch.
pub fn seed_auto_retry_secs(env: &Option<String>, auto_retry_mins: u64) -> (r: u64)
    requires
        auto_retry_mins * 60 <= u64::MAX,
    ensures
        r == (match env.deep_view() {
            Some(s) => match parsed_u64(s) {
                Some(n) => n,
                None => auto_retry_mins * 60,
            },
            None => auto_retry_mins * 60,
        }),
{
    match env {
        Some(s) => match parse_u64(s.as_str()) {
            Some(n) => n,
            None => auto_retry_mins * 60,
        },
        None => auto_retry_mins * 60,
    }
}

/// The preferred quality, as it was read of the saved value; none without
/// one, or where it does not read as such.
pub open spec fn quality_seeded(saved: Json, read: Option<QualityPrefs>) -> Option<QualityPrefs> {
    match field(saved, "prefer_quality"@) {
        Some(_) => read,
        None => None,
    }
}

/// The preferred quality, given what the saved one reads as.
pub fn seed_quality_prefs(saved: &Value, read: Option<QualityPrefs>) -> (r: QualityPrefs)
    ensures
        match quality_seeded(saved@, read) {
            Some(q) => r == q,
            None => r.res@.len() == 0 && r.vcodec@.len() == 0 && r.acodec@.len() == 0
                && r.hdr@.len() == 0,
        },
{
    if saved.get("prefer_quality").is_some() {
        if let Some(q) = read {
            return q;
        }
    }
    QualityPrefs {
        res: String::new(),
        vcodec: String::new(),
        acodec: String::new(),
        hdr: String::new(),
    }
}

/// The secret of playback links: the saved one, or the fresh one, which then
/// has to be saved.
pub fn seed_stream_secret(saved: &Value, fresh: &str) -> (r: (String, bool))
    ensures
        match text_field(saved@, "stream_secret"@) {
            Some(s) if s.len() > 0 => r.0@ == s && !r.1,
            _ => r.0@ == fresh@ && r.1,
        },
{
    match saved.get_text("stream_secret") {
        Some(s) => if s.as_str().is_empty() {
            (fresh.to_owned(), true)
        } else {
            (s, false)
        },
        None => (fresh.to_owned(), true),
    }
}

/// The key of the film database; an empty one is none.
pub fn seed_omdb_key(saved: &Value) -> (r: Option<String>)
    ensures
        r.deep_view() == (match text_field(saved@, "omdb_key"@) {
            Some(k) if k.len() > 0 => Some(k),
            _ => None,
        }),
{
    match saved.get_text("omdb_key") {
        Some(k) => if k.as_str().is_empty() {
            None
        } else {
            Some(k)
        },
        None => None,
    }
}

/// Whether the indexer is on: as saved, or, while nothing is saved, whether
/// this install has groups or interests already.
pub open spec fn index_on(saved: Json, groups: Seq<Seq<char>>) -> bool {
    match bool_field(saved, "index_enabled"@) {
        Some(on) => on,
        None => groups.len() > 0 || (text_field(saved, "index_interests"@) matches Some(s)
            && trimmed(s).len() > 0),
    }
}

/// Whether the indexer is on.
pub fn resolve_index_enabled(saved: &Value, index_groups: &Vec<String>) -> (r: bool)
    ensures
        r == index_on(saved@, index_groups.deep_view()),
{
    match saved.get_bool("index_enabled") {
        Some(on) => on,
        None => {
            if index_groups.len() > 0 {
                return true;
            }
            match saved.get_text("index_interests") {
                Some(s) => !trim(s.as_str()).as_str().is_empty(),
                None => false,
            }
        },
    }
}

// ---- the passwords file ---------------------------------------------------

/// What the passwords file is created with: nothing if it exists, else the
/// passwords of an older setting, one to a line.
pub open spec fn passwords_body(saved: Json, exists: bool) -> Option<Seq<char>> {
    if exists {
        None
    } else {
        match saved_texts(saved, "unpack_passwords"@) {
            Some(list) if list.len() > 0 => Some(joined(list, "\n"@) + "\n"@),
            _ => Some(""@),
        }
    }
}

/// What the passwords file is created with. One that exists is never touched.
pub fn password_seed(saved: &Value, exists: bool) -> (r: Option<String>)
    ensures
        r.deep_view() == passwords_body(saved@, exists),
{
    if exists {
        return None;
    }
    match read_texts(saved, "unpack_passwords") {
        Some(list) => if list.len() > 0 {
            Some(glue(join(&list, "\n").as_str(), "\n"))
        } else {
            Some("".to_owned())
        },
        None => Some("".to_owned()),
    }
}

// ---- one daemon per data directory ----------------------------------------

/// What an attempt to lock the data directory came to.
#[derive(Clone, Copy, PartialEq, Eq, Structural, Debug)]
pub enum LockVerdict {
    /// The lock is ours.
    Ours,
    /// Another process holds it.
    Held,
    /// The file system cannot lock, or the file cannot be opened.
    Unsupported,
}

/// What to do after an attempt to lock.
#[derive(Clone, Copy, PartialEq, Eq, Structural, Debug)]
pub enum LockStep {
    /// Go on, holding the lock.
    Keep,
    /// Go on without a lock.
    GoWithout,
    /// Wait a little and try again.
    Retry,
    /// Stop: another daemon serves this directory.
    Refuse,
}

/// How often a held lock is tried again: a restart may overlap itself.
pub const LOCK_RETRIES: u32 = 25;

/// How long to wait between two attempts, in milliseconds.
pub const LOCK_WAIT_MS: u64 = 120;

/// What to do after an attempt, given how many retries there were. Only a
/// lock that stays held refuses the start.
pub fn lock_step(verdict: LockVerdict, retries: u32) -> (r: LockStep)
    ensures
        r == (match verdict {
            LockVerdict::Ours => LockStep::Keep,
            LockVerdict::Unsupported => LockStep::GoWithout,
            LockVerdict::Held => if retries < LOCK_RETRIES {
                LockStep::Retry
            } else {
                LockStep::Refuse
            },
        }),
{
    match verdict {
        LockVerdict::Ours => LockStep::Keep,
        LockVerdict::Unsupported => LockStep::GoWithout,
        LockVerdict::Held => if retries < LOCK_RETRIES {
            LockStep::Retry
        } else {
            LockStep::Refuse
        },
    }
}

/// Whether a start looks like one whose config directory has moved: a key had
/// to be made, yet the download folder has been used.
pub fn config_moved(minted: bool, spool_exists: bool, folder_in_use: bool) -> (r: bool)
    ensures
        r == (minted && (spool_exists || folder_in_use)),
{
    minted && (spool_exists || folder_in_use)
}

// ---- laws -----------------------------------------------------------------

/// A switch that is read back is the saved one, whatever else is read back.
proof fn switch_restored(s: Switches, flags: Seq<Flag>, saved: Json, f: Flag, on: bool)
    requires
        flags.contains(f),
        bool_field(saved, flag_name(f)) == Some(on),
    ensures
        switches_restored(s, flags, saved).has(f) == on,
    decreases flags.len(),
{
    let last = flags.last();
    let rest = flags.drop_last();
    let before = switches_restored(s, rest, saved);
    if last == f {
        a_switch_reads_back(before, f, on);
    } else {
        let k = choose|k: int| 0 <= k < flags.len() && flags[k] == f;
        assert(rest[k] == f);
        switch_restored(s, rest, saved, f, on);
        if let Some(b) = bool_field(saved, flag_name(last)) {
            another_switch_stays(before, last, b, f);
        }
    }
}

/// A number that is read back is the saved one, whatever else is read back.
proof fn number_restored(s: Numbers, counts: Seq<Count>, saved: Json, c: Count, n: u64)
    requires
        counts.contains(c),
        u64_field(saved, count_name(c)) == Some(n),
    ensures
        numbers_restored(s, counts, saved).of(c) == clamped(
            n as int,
            floor_of(c) as int,
            cap_of(c) as int,
        ),
    decreases counts.len(),
{
    let last = counts.last();
    let rest = counts.drop_last();
    let before = numbers_restored(s, rest, saved);
    if last == c {
        a_number_reads_back(
            before,
            c,
            clamped(n as int, floor_of(c) as int, cap_of(c) as int) as u64,
        );
    } else {
        let k = choose|k: int| 0 <= k < counts.len() && counts[k] == c;
        assert(rest[k] == c);
        number_restored(s, rest, saved, c, n);
        if let Some(m) = u64_field(saved, count_name(last)) {
            another_number_stays(
                before,
                last,
                clamped(m as int, floor_of(last) as int, cap_of(last) as int) as u64,
                c,
            );
        }
    }
}

/// Settings survive a restart: a switch that was set, and whose saved value
/// is in the file, is after the start as it was set.
pub proof fn a_switch_survives_a_restart(
    was: Daemon,
    f: Flag,
    v: Seq<char>,
    r: Outcome,
    set: Daemon,
    saved: Json,
    fresh: Daemon,
    g: Restoring,
    new: Daemon,
)
    requires
        flag_set(was, f, v, r, set),
        restored_flags().contains(f),
        field(saved, flag_name(f)) == Some(r->Ok_0.1@),
        restored(fresh, saved, g, new),
    ensures
        new.switches.has(f) == set.switches.has(f),
{
    a_switch_reads_back(was.switches, f, is_on(v));
    switch_restored(fresh.switches, restored_flags(), saved, f, is_on(v));
}

/// Settings survive a restart: a bounded number that was set, and whose saved
/// value is in the file, is after the start as it was set.
pub proof fn a_number_survives_a_restart(
    was: Daemon,
    c: Count,
    name: Seq<char>,
    v: Seq<char>,
    r: Outcome,
    set: Daemon,
    saved: Json,
    fresh: Daemon,
    g: Restoring,
    new: Daemon,
)
    requires
        count_set(was, c, name, v, r, set),
        r is Ok,
        restored_counts().contains(c),
        field(saved, count_name(c)) == Some(r->Ok_0.1@),
        restored(fresh, saved, g, new),
    ensures
        new.numbers.of(c) == set.numbers.of(c),
{
    let n = typed_number(v)->0;
    parsed_bounds(trimmed(v), 10, u64::MAX as int);
    let k = clamped(n, floor_of(c) as int, cap_of(c) as int);
    a_number_reads_back(was.numbers, c, k as u64);
    number_restored(fresh.numbers, restored_counts(), saved, c, k as u64);
}

/// What the start finds hand-edited out of bounds it brings into them: every
/// number that is read back lies within its bounds.
pub proof fn a_restored_number_keeps_its_bounds(
    fresh: Daemon,
    saved: Json,
    g: Restoring,
    new: Daemon,
    c: Count,
)
    requires
        restored(fresh, saved, g, new),
        restored_counts().contains(c),
        u64_field(saved, count_name(c)) is Some,
    ensures
        floor_of(c) <= new.numbers.of(c) <= cap_of(c),
{
    number_restored(
        fresh.numbers,
        restored_counts(),
        saved,
        c,
        u64_field(saved, count_name(c))->0,
    );
}

/// A list is read back where it was saved and reads as one; otherwise the one
/// that is there stays.
pub proof fn which_list_a_start_goes_on_with<T>(
    there: Vec<T>,
    saved: &Value,
    name: &str,
    read: Result<Vec<T>, String>,
    r: Vec<T>,
)
    requires
        call_ensures(list_at_start::<T>, (there, saved, name, read), r),
    ensures
        field(saved@, name@) is None ==> r == there,
        read is Err ==> r == there,
        field(saved@, name@) is Some ==> (read matches Ok(list) ==> r == list),
{
}

/// A held lock is tried again every 120 ms.
pub proof fn how_long_a_held_lock_is_waited_for()
    ensures
        LOCK_WAIT_MS == 120,
        LOCK_RETRIES * LOCK_WAIT_MS == 3_000,
{
}

} // verus!
