//! The settings that a daemon takes while it runs.
use crate::daemon::{
    ArrInstance, Daemon, Feed, Flag, Indexer, QualityPrefs, Target,
};
use crate::text::{glue, same};
use crate::value::Value;
use vstd::prelude::*;

pub mod automation;
pub mod config;
pub mod engine;
pub mod indexing;
pub mod key;
pub mod laws;
pub mod lists;
pub mod log;
pub mod named;
pub mod names;
pub mod outcome;
pub mod page;
pub mod paths;
pub mod predb;
pub mod reread;
pub mod restart;
pub mod rows;
pub mod table;
pub mod warn;

use key::{find_key, key_named, Key};
use outcome::Outcome;

verus! {

/// What the rest of the process found out about a value before it is set: how
/// it reads, and what the disk says of it. Only what belongs to the setting
/// in question is looked at.
pub struct Given {
    /// The value as a size in bytes.
    pub size: Option<u64>,
    /// The value as a weekly schedule.
    pub schedule: Result<engine::Schedule, String>,
    /// The interests that the value names.
    pub interests: Vec<String>,
    /// Whether the value reads as gates.
    pub gates: Result<(), String>,
    /// The value as a list of feeds.
    pub feeds: Result<Vec<Feed>, String>,
    /// The value as a list of search sites.
    pub indexers: Result<Vec<Indexer>, String>,
    /// The value as a list of watched titles, folder rules or categories.
    pub list: Result<Vec<Value>, String>,
    /// Whether the listed categories are valid as a whole.
    pub categories_valid: Result<(), String>,
    /// The value as a list of notify targets.
    pub targets: Result<Vec<Target>, String>,
    /// The value as a list of *arr instances.
    pub instances: Result<Vec<ArrInstance>, String>,
    /// The value as quality preferences.
    pub quality: Result<QualityPrefs, String>,
    /// The extensions that the value lists.
    pub exts: Vec<String>,
    /// What became of the passwords file.
    pub password_file: automation::PasswordFile,
    /// What the disk says of the folder.
    pub dir: paths::DirProbe,
    /// The value as destinations of categories.
    pub dests: Result<Vec<paths::GivenDest>, String>,
    /// The typed category names, made usable.
    pub clean: Vec<String>,
}

/// What an unknown or read-only name is answered.
pub open spec fn not_set(name: Seq<char>) -> Seq<char> {
    match table::row_named(name) {
        Some(row) => if row.write != table::Write::Setting {
            name + " is read-only"@
        } else {
            name
                + " is declared in the settings table but apply_setting has no arm for it - that is a bug, please report it"@
        },
        None => "unsupported config item "@ + name,
    }
}

/// What setting `name` to `v` comes to.
pub open spec fn applied(
    old: Daemon,
    name: Seq<char>,
    v: Seq<char>,
    given: Given,
    r: Outcome,
    new: Daemon,
) -> bool {
    match key_named(name) {
        Some(k) => applied_key(old, k, name, v, given, r, new),
        None => outcome::refused(old, r, new, not_set(name)),
    }
}

/// What setting the setting `k`, called `name`, to `v` comes to.
pub open spec fn applied_key(
    old: Daemon,
    k: Key,
    name: Seq<char>,
    v: Seq<char>,
    given: Given,
    r: Outcome,
    new: Daemon,
) -> bool {
    match group_of(k) {
        Group::Engine => applied_engine(old, k, name, v, given, r, new),
        Group::Indexing => applied_indexing(old, k, name, v, given, r, new),
        Group::Predb => applied_predb(old, k, name, v, r, new),
        Group::Lists => applied_lists(old, k, v, given, r, new),
        Group::Automation => applied_automation(old, k, name, v, given, r, new),
        Group::Paths => applied_paths(old, k, name, v, given, r, new),
        Group::Plain => applied_plain(old, k, name, v, given, r, new),
    }
}

/// The settings that are set alike.
#[derive(Clone, Copy, PartialEq, Eq, Structural, Debug)]
pub enum Group {
    Engine,
    Indexing,
    Predb,
    Lists,
    Automation,
    Paths,
    Plain,
}

/// The group of a setting.
pub open spec fn group_of(k: Key) -> Group {
    match k {
        Key::Speedlimit => Group::Engine,
        Key::AutoSpeed => Group::Engine,
        Key::UpdateUrl => Group::Engine,
        Key::UiLocale => Group::Engine,
        Key::BenchInterval => Group::Engine,
        Key::AutoPrefetch => Group::Engine,
        Key::HistoryRows => Group::Engine,
        Key::Connections => Group::Engine,
        Key::FastVerify => Group::Engine,
        Key::VerifyMode => Group::Engine,
        Key::OutUmask => Group::Engine,
        Key::AutoRetryMins => Group::Engine,
        Key::QuotaPeriod => Group::Engine,
        Key::Schedule => Group::Engine,
        Key::NestedMaxDepth => Group::Engine,
        Key::RaceStragglers => Group::Engine,
        Key::IndexGapfill => Group::Indexing,
        Key::LibraryCats => Group::Indexing,
        Key::IndexGroups => Group::Indexing,
        Key::IndexInterests => Group::Indexing,
        Key::IndexInterestsApplied => Group::Indexing,
        Key::IndexTipSecs => Group::Indexing,
        Key::IndexPaused => Group::Indexing,
        Key::IndexEnabled => Group::Indexing,
        Key::SpotEnabled => Group::Indexing,
        Key::SpotGroups => Group::Indexing,
        Key::SpotBackfill => Group::Indexing,
        Key::IndexEvictOrder => Group::Indexing,
        Key::IndexEvictKinds => Group::Indexing,
        Key::IndexEvict => Group::Indexing,
        Key::IndexGates => Group::Indexing,
        Key::ScriptTimeoutSecs => Group::Paths,
        Key::Watch => Group::Paths,
        Key::Script => Group::Paths,
        Key::DeleteToTrash => Group::Paths,
        Key::WatchIntervalSecs => Group::Paths,
        Key::MemLimit => Group::Paths,
        Key::Port => Group::Paths,
        Key::OutDir => Group::Paths,
        Key::MoveCompleted => Group::Paths,
        Key::MoveCompletedCats => Group::Paths,
        Key::Categories => Group::Paths,
        Key::IndexDb => Group::Paths,
        Key::PredbEnabled => Group::Predb,
        Key::PredbCorrEnabled => Group::Predb,
        Key::PredbCorrAuto => Group::Predb,
        Key::PredbMaxRows => Group::Predb,
        Key::PredbServer => Group::Predb,
        Key::PredbChannels => Group::Predb,
        Key::PredbNick => Group::Predb,
        Key::Apikey => Group::Automation,
        Key::Nzbkey => Group::Automation,
        Key::OmdbKey => Group::Automation,
        Key::WatchlistExternal => Group::Automation,
        Key::WatchlistInstant => Group::Automation,
        Key::WatchlistInstantMax => Group::Automation,
        Key::Watchlist => Group::Automation,
        Key::SmartFolders => Group::Automation,
        Key::CleanupExts => Group::Automation,
        Key::PasswordFile => Group::Automation,
        Key::PasswordPrompt => Group::Automation,
        Key::UnpackEatVolumes => Group::Automation,
        Key::FastPar => Group::Automation,
        Key::PreferExternalUnrar => Group::Automation,
        Key::CustomCategories => Group::Automation,
        Key::FailureLink => Group::Automation,
        Key::PreferQuality => Group::Automation,
        Key::ArrGiveupThreshold => Group::Automation,
        Key::Feeds => Group::Lists,
        Key::Indexers => Group::Lists,
        Key::NotifyTargets => Group::Lists,
        Key::ArrInstances => Group::Lists,
        _ => Group::Plain,
    }
}

/// What setting one of the settings of the engine, of speed and of the interface comes to.
pub open spec fn applied_engine(
    old: Daemon,
    k: Key,
    name: Seq<char>,
    v: Seq<char>,
    given: Given,
    r: Outcome,
    new: Daemon,
) -> bool {
    match k {
        Key::Speedlimit => engine::speedlimit_set(old, name, v, given.size, r, new),
        Key::AutoSpeed => engine::auto_speed_set(old, v, r, new),
        Key::UpdateUrl => engine::update_url_set(old, v, r, new),
        Key::UiLocale => engine::ui_locale_set(old, v, r, new),
        Key::BenchInterval => engine::bench_interval_set(old, name, v, r, new),
        Key::AutoPrefetch => engine::auto_prefetch_set(old, v, r, new),
        Key::HistoryRows => engine::history_rows_set(old, name, v, r, new),
        Key::Connections => engine::connections_set(old, name, v, r, new),
        Key::FastVerify => engine::fast_verify_set(old, v, r, new),
        Key::VerifyMode => engine::verify_mode_set(old, v, r, new),
        Key::OutUmask => engine::out_umask_set(old, v, r, new),
        Key::AutoRetryMins => engine::auto_retry_mins_set(old, v, r, new),
        Key::QuotaPeriod => engine::quota_period_set(old, v, r, new),
        Key::Schedule => engine::schedule_set(old, v, given.schedule, r, new),
        Key::NestedMaxDepth => engine::nested_max_depth_set(old, name, v, r, new),
        Key::RaceStragglers => outcome::flag_set(old, Flag::RaceStragglers, v, r, new),
        _ => false,
    }
}

/// What setting one of the settings of the indexer comes to.
pub open spec fn applied_indexing(
    old: Daemon,
    k: Key,
    name: Seq<char>,
    v: Seq<char>,
    given: Given,
    r: Outcome,
    new: Daemon,
) -> bool {
    match k {
        Key::IndexGapfill => indexing::index_gapfill_set(old, name, v, r, new),
        Key::LibraryCats => indexing::library_cats_set(old, v, r, new),
        Key::IndexGroups => indexing::index_groups_set(old, v, r, new),
        Key::IndexInterests => indexing::index_interests_set(old, given.interests.deep_view(), r, new),
        Key::IndexInterestsApplied => indexing::index_interests_applied_set(old, v, r, new),
        Key::IndexTipSecs => indexing::index_tip_secs_set(old, name, v, r, new),
        Key::IndexPaused => indexing::index_paused_set(old, v, r, new),
        Key::IndexEnabled => indexing::index_enabled_set(old, v, r, new),
        Key::SpotEnabled => indexing::spot_enabled_set(old, v, r, new),
        Key::SpotGroups => indexing::spot_groups_set(old, v, r, new),
        Key::SpotBackfill => indexing::spot_backfill_set(old, v, r, new),
        Key::IndexEvictOrder => indexing::index_evict_order_set(old, v, r, new),
        Key::IndexEvictKinds => indexing::index_evict_kinds_set(old, v, r, new),
        Key::IndexEvict => indexing::index_evict_set(old, v, r, new),
        Key::IndexGates => indexing::index_gates_set(old, v, given.gates, r, new),
        _ => false,
    }
}

/// What setting one of the settings of the paths comes to.
pub open spec fn applied_paths(
    old: Daemon,
    k: Key,
    name: Seq<char>,
    v: Seq<char>,
    given: Given,
    r: Outcome,
    new: Daemon,
) -> bool {
    match k {
        Key::ScriptTimeoutSecs => paths::script_timeout_set(old, v, r, new),
        Key::Watch => paths::watch_set(old, v, r, new),
        Key::Script => paths::script_set(old, v, r, new),
        Key::DeleteToTrash => paths::delete_to_trash_set(old, v, r, new),
        Key::WatchIntervalSecs => paths::watch_interval_secs_set(old, name, v, r, new),
        Key::MemLimit => paths::mem_limit_set(old, name, given.size, r, new),
        Key::Port => paths::port_set(old, name, v, r, new),
        Key::OutDir => paths::out_dir_set(old, v, given.dir, r, new),
        Key::MoveCompleted => paths::move_completed_set(old, v, given.dir, r, new),
        Key::MoveCompletedCats => paths::move_completed_cats_set(old, given.dests, r, new),
        Key::Categories => paths::categories_set(old, v, given.clean.deep_view(), r, new),
        Key::IndexDb => paths::index_db_set(old, v, r, new),
        _ => false,
    }
}

/// What setting one of the settings of the pre feed comes to.
pub open spec fn applied_predb(
    old: Daemon,
    k: Key,
    name: Seq<char>,
    v: Seq<char>,
    r: Outcome,
    new: Daemon,
) -> bool {
    match k {
        Key::PredbEnabled => predb::predb_enabled_set(old, v, r, new),
        Key::PredbCorrEnabled => predb::predb_corr_enabled_set(old, v, r, new),
        Key::PredbCorrAuto => predb::predb_corr_auto_set(old, v, r, new),
        Key::PredbMaxRows => predb::predb_max_rows_set(old, name, v, r, new),
        Key::PredbServer => predb::predb_server_set(old, v, r, new),
        Key::PredbChannels => predb::predb_channels_set(old, v, r, new),
        Key::PredbNick => predb::predb_nick_set(old, v, r, new),
        _ => false,
    }
}

/// What setting one of the settings of the automation and of the keys comes to.
pub open spec fn applied_automation(
    old: Daemon,
    k: Key,
    name: Seq<char>,
    v: Seq<char>,
    given: Given,
    r: Outcome,
    new: Daemon,
) -> bool {
    match k {
        Key::Apikey => automation::apikey_set(old, v, r, new),
        Key::Nzbkey => automation::nzbkey_set(old, v, r, new),
        Key::OmdbKey => automation::omdb_key_set(old, v, r, new),
        Key::WatchlistExternal => automation::watchlist_external_set(old, v, r, new),
        Key::WatchlistInstant => automation::watchlist_instant_set(old, v, r, new),
        Key::WatchlistInstantMax => automation::watchlist_instant_max_set(old, name, v, r, new),
        Key::Watchlist => automation::watchlist_set(old, v, given.list, r, new),
        Key::SmartFolders => automation::smart_folders_set(old, v, given.list, r, new),
        Key::CleanupExts => automation::cleanup_exts_set(old, given.exts.deep_view(), r, new),
        Key::PasswordFile => automation::password_file_set(old, v, given.password_file, r, new),
        Key::PasswordPrompt => automation::password_prompt_set(old, v, r, new),
        Key::UnpackEatVolumes => automation::unpack_eat_volumes_set(old, v, r, new),
        Key::FastPar => automation::fast_par_set(old, v, r, new),
        Key::PreferExternalUnrar => automation::prefer_external_unrar_set(old, v, r, new),
        Key::CustomCategories => automation::custom_categories_set(
            old,
            v,
            given.list,
            given.categories_valid,
            r,
            new,
        ),
        Key::FailureLink => automation::failure_link_set(old, v, r, new),
        Key::PreferQuality => automation::prefer_quality_set(old, given.quality, r, new),
        Key::ArrGiveupThreshold => automation::arr_giveup_threshold_set(old, name, v, r, new),
        _ => false,
    }
}

/// What setting one of the settings of the lists of accounts comes to.
pub open spec fn applied_lists(
    old: Daemon,
    k: Key,
    v: Seq<char>,
    given: Given,
    r: Outcome,
    new: Daemon,
) -> bool {
    match k {
        Key::Feeds => lists::feeds_set(old, v, given.feeds, r, new),
        Key::Indexers => lists::indexers_set(old, v, given.indexers, r, new),
        Key::NotifyTargets => lists::notify_targets_set(old, v, given.targets, r, new),
        Key::ArrInstances => lists::arr_instances_set(old, v, given.instances, r, new),
        _ => false,
    }
}

/// What setting a plain switch, number or size comes to; nothing else can be
/// set.
pub open spec fn applied_plain(
    old: Daemon,
    k: Key,
    name: Seq<char>,
    v: Seq<char>,
    given: Given,
    r: Outcome,
    new: Daemon,
) -> bool {
    match k {
        Key::Switch(f) => outcome::flag_set(old, f, v, r, new),
        Key::Number(c) => outcome::count_set(old, c, name, v, r, new),
        Key::Size(c) => outcome::size_set(old, c, name, given.size, r, new),
        _ => outcome::refused(old, r, new, not_set(name)),
    }
}

/// Refuses a name that nothing can be set under.
fn refuse(name: &str) -> (r: Outcome)
    ensures
        r matches Err(e) && e@ == not_set(name@),
{
    match table::setting(name) {
        Some(row) => if row.write != table::Write::Setting {
            Err(glue(name, " is read-only"))
        } else {
            Err(
                glue(
                    name,
                    " is declared in the settings table but apply_setting has no arm for it - that is a bug, please report it",
                ),
            )
        },
        None => Err(glue("unsupported config item ", name)),
    }
}

/// Whether the numbers of a setting can be worked out in 64 bits, and whether
/// each typed category has been made usable.
pub open spec fn key_settable(old: Daemon, k: Key, v: Seq<char>, given: Given) -> bool {
    &&& k == Key::Speedlimit ==> engine::share_fits(old.numbers.line_speed, v)
    &&& k == Key::AutoRetryMins ==> engine::minutes_fit(v)
    &&& k == Key::Categories ==> given.clean@.len() == paths::category_names(v).len()
}

/// [`key_settable`] of the setting of that name.
pub open spec fn settable(old: Daemon, name: Seq<char>, v: Seq<char>, given: Given) -> bool {
    key_named(name) matches Some(k) ==> key_settable(old, k, v, given)
}

/// Sets `name` to `v`: checks the value, makes it live where it can be, and
/// says what to save.
pub fn apply_setting(d: &mut Daemon, name: &str, v: &str, given: Given) -> (r: Outcome)
    requires
        settable(*old(d), name@, v@, given),
    ensures
        applied(*old(d), name@, v@, given, r, *final(d)),
{
    match find_key(name) {
        Some(k) => apply_key(d, k, name, v, given),
        None => refuse(name),
    }
}

/// Sets the setting `k`, called `name`, to `v`.
fn apply_key(d: &mut Daemon, k: Key, name: &str, v: &str, given: Given) -> (r: Outcome)
    requires
        key_settable(*old(d), k, v@, given),
    ensures
        applied_key(*old(d), k, name@, v@, given, r, *final(d)),
{
    match k {
        Key::Speedlimit => engine::set_speedlimit(d, name, v, given.size),
        Key::AutoSpeed => engine::set_auto_speed(d, name, v),
        Key::UpdateUrl => engine::set_update_url(d, name, v),
        Key::UiLocale => engine::set_ui_locale(d, name, v),
        Key::IndexGapfill => indexing::set_index_gapfill(d, name, v),
        Key::BenchInterval => engine::set_bench_interval(d, name, v),
        Key::AutoPrefetch => engine::set_auto_prefetch(d, name, v),
        Key::RaceStragglers => engine::set_race_stragglers(d, name, v),
        Key::ScriptTimeoutSecs => paths::set_script_timeout(d, v),
        Key::HistoryRows => engine::set_history_rows(d, name, v),
        Key::Connections => engine::set_connections(d, name, v),
        Key::FastVerify => engine::set_fast_verify(d, name, v),
        Key::VerifyMode => engine::set_verify_mode(d, name, v),
        Key::OutUmask => engine::set_out_umask(d, name, v),
        Key::AutoRetryMins => engine::set_auto_retry_mins(d, name, v),
        Key::QuotaPeriod => engine::set_quota_period(d, name, v),
        Key::Watch => paths::set_watch(d, name, v),
        Key::Script => paths::set_script(d, v),
        Key::Schedule => engine::set_schedule(d, name, v, given.schedule),
        Key::LibraryCats => indexing::set_library_cats(d, name, v),
        Key::IndexGroups => indexing::set_index_groups(d, name, v),
        Key::IndexInterests => indexing::set_index_interests(d, name, v, &given.interests),
        Key::IndexInterestsApplied => indexing::set_index_interests_applied(d, v),
        Key::DeleteToTrash => paths::set_delete_to_trash(d, name, v),
        Key::WatchIntervalSecs => paths::set_watch_interval_secs(d, name, v),
        Key::IndexTipSecs => indexing::set_index_tip_secs(d, name, v),
        Key::NestedMaxDepth => engine::set_nested_max_depth(d, name, v),
        Key::PredbEnabled => predb::set_predb_enabled(d, name, v),
        Key::PredbCorrEnabled => predb::set_predb_corr_enabled(d, name, v),
        Key::PredbCorrAuto => predb::set_predb_corr_auto(d, name, v),
        Key::PredbMaxRows => predb::set_predb_max_rows(d, name, v),
        Key::PredbServer => predb::set_predb_server(d, name, v),
        Key::PredbChannels => predb::set_predb_channels(d, name, v),
        Key::PredbNick => predb::set_predb_nick(d, name, v),
        Key::IndexPaused => indexing::set_index_paused(d, name, v),
        Key::IndexEnabled => indexing::set_index_enabled(d, name, v),
        Key::SpotEnabled => indexing::set_spot_enabled(d, name, v),
        Key::SpotGroups => indexing::set_spot_groups(d, name, v),
        Key::SpotBackfill => indexing::set_spot_backfill(d, name, v),
        Key::IndexEvictOrder => indexing::set_index_evict_order(d, name, v),
        Key::IndexEvictKinds => indexing::set_index_evict_kinds(d, name, v),
        Key::IndexEvict => indexing::set_index_evict(d, name, v),
        Key::IndexGates => indexing::set_index_gates(d, name, v, given.gates),
        Key::Apikey => automation::set_apikey(d, name, v),
        Key::Nzbkey => automation::set_nzbkey(d, v),
        Key::OmdbKey => automation::set_omdb_key(d, v),
        Key::Feeds => lists::set_feeds(d, name, v, given.feeds),
        Key::Indexers => lists::set_indexers(d, name, v, given.indexers),
        Key::WatchlistExternal => automation::set_watchlist_external(d, name, v),
        Key::WatchlistInstant => automation::set_watchlist_instant(d, name, v),
        Key::WatchlistInstantMax => automation::set_watchlist_instant_max(d, name, v),
        Key::Watchlist => automation::set_watchlist(d, name, v, given.list),
        Key::SmartFolders => automation::set_smart_folders(d, name, v, given.list),
        Key::CleanupExts => automation::set_cleanup_exts(d, given.exts),
        Key::PasswordFile => automation::set_password_file(d, name, v, given.password_file),
        Key::PasswordPrompt => automation::set_password_prompt(d, name, v),
        Key::UnpackEatVolumes => automation::set_unpack_eat_volumes(d, name, v),
        Key::FastPar => automation::set_fast_par(d, name, v),
        Key::PreferExternalUnrar => automation::set_prefer_external_unrar(d, name, v),
        Key::CustomCategories => automation::set_custom_categories(
            d,
            name,
            v,
            given.list,
            given.categories_valid,
        ),
        Key::FailureLink => automation::set_failure_link(d, name, v),
        Key::PreferQuality => automation::set_prefer_quality(d, name, v, given.quality),
        Key::NotifyTargets => lists::set_notify_targets(d, name, v, given.targets),
        Key::ArrGiveupThreshold => automation::set_arr_giveup_threshold(d, name, v),
        Key::ArrInstances => lists::set_arr_instances(d, name, v, given.instances),
        Key::MemLimit => paths::set_mem_limit(d, name, given.size),
        Key::Port => paths::set_port(d, name, v),
        Key::OutDir => paths::set_out_dir(d, name, v, &given.dir),
        Key::MoveCompleted => paths::set_move_completed(d, name, v, &given.dir),
        Key::MoveCompletedCats => paths::set_move_completed_cats(d, name, v, given.dests),
        Key::Categories => paths::set_categories(d, name, v, &given.clean),
        Key::IndexDb => paths::set_index_db(d, v),
        Key::Switch(f) => outcome::set_switch(d, f, v),
        Key::Number(c) => outcome::set_number(d, c, name, v),
        Key::Size(c) => outcome::set_size(d, c, name, given.size),
        _ => refuse(name),
    }
}

/// A value that is live, or will be at the next start, and that is to be saved
/// under its name.
pub struct Saving {
    pub live: bool,
    pub name: String,
    pub value: Value,
    /// Whether the change and its saving are one step against every other
    /// change of a credential.
    pub exclusive: bool,
}

/// Whether two changes of this setting must not overlap: a key lives in
/// several places that have to agree.
pub open spec fn is_credential(name: Seq<char>) -> bool {
    name == "apikey"@ || name == "nzbkey"@
}

/// Whether two changes of this setting must not overlap.
pub fn credential(name: &str) -> (r: bool)
    ensures
        r == is_credential(name@),
{
    same(name, "apikey") || same(name, "nzbkey")
}

/// Sets `name` to `v` and says what has to be saved for it to last.
pub fn apply_and_save(d: &mut Daemon, name: &str, v: &str, given: Given) -> (r: Result<
    Saving,
    String,
>)
    requires
        settable(*old(d), name@, v@, given),
    ensures
        match r {
            Ok(s) => applied(*old(d), name@, v@, given, Ok((s.live, s.value)), *final(d)) && s.name@
                == name@ && s.exclusive == is_credential(name@),
            Err(e) => applied(*old(d), name@, v@, given, Err(e), *final(d)),
        },
{
    match apply_setting(d, name, v, given) {
        Ok(p) => Ok(
            Saving { live: p.0, name: name.to_owned(), value: p.1, exclusive: credential(name) },
        ),
        Err(e) => Err(e),
    }
}

impl Saving {
    /// What the change is answered, given whether it could be saved: whether
    /// it is live, and whether it will last. A change that could not be saved
    /// is live all the same.
    pub fn finish(&self, saved: bool) -> (r: (bool, bool))
        ensures
            r == (self.live, saved),
    {
        (self.live, saved)
    }
}

} // verus!
