//! What setting each of the settings does, by its name.
use super::key::{key_named, Key};
use super::names::names_have_marks;
use super::indexing::index_evict_kinds_set;
use super::lists::{arr_instances_set, feeds_set, indexers_set, notify_targets_set};
use super::outcome::Outcome;
use super::paths::{categories_set, move_completed_cats_set};
use super::predb::{predb_channels_set, predb_nick_set};
use super::{applied, apply_setting, credential, Given};
use crate::daemon::{
    a_number_reads_back, a_switch_reads_back, Action, Count, Daemon, EatMode, Flag, Numbers,
    Switches, VerifyMode,
};
use crate::text::{
    has_prefix, is_on, joined, list_of, lowered, octal3, parsed, parsed_bounds, parsed_u64,
    trimmed,
};
use crate::value::{jsons, texts_json, uint_json, Json};
use vstd::prelude::*;

verus! {

/// The value is live and is to be saved as `j`.
pub open spec fn stores(r: Outcome, j: Json) -> bool {
    r is Ok && (r->Ok_0).0 && (r->Ok_0).1@ == j
}

/// The value is to be saved as `j` and counts from the next start on.
pub open spec fn stores_for_later(r: Outcome, j: Json) -> bool {
    r is Ok && !(r->Ok_0).0 && (r->Ok_0).1@ == j
}

/// `n`, or the bound that it lies beyond.
pub open spec fn brought(n: int, lo: int, hi: int) -> int {
    if n < lo {
        lo
    } else if n > hi {
        hi
    } else {
        n
    }
}

/// Every name is that of its own setting.
pub proof fn every_name_is_its_own_setting()
    ensures
        key_named("speedlimit"@) == Some(Key::Speedlimit),
        key_named("auto_speed"@) == Some(Key::AutoSpeed),
        key_named("update_url"@) == Some(Key::UpdateUrl),
        key_named("ui_locale"@) == Some(Key::UiLocale),
        key_named("index_gapfill"@) == Some(Key::IndexGapfill),
        key_named("bench_interval"@) == Some(Key::BenchInterval),
        key_named("auto_prefetch"@) == Some(Key::AutoPrefetch),
        key_named("race_stragglers"@) == Some(Key::RaceStragglers),
        key_named("script_timeout_secs"@) == Some(Key::ScriptTimeoutSecs),
        key_named("history_rows"@) == Some(Key::HistoryRows),
        key_named("connections"@) == Some(Key::Connections),
        key_named("fast_verify"@) == Some(Key::FastVerify),
        key_named("verify_mode"@) == Some(Key::VerifyMode),
        key_named("out_umask"@) == Some(Key::OutUmask),
        key_named("auto_retry_mins"@) == Some(Key::AutoRetryMins),
        key_named("quota_period"@) == Some(Key::QuotaPeriod),
        key_named("watch"@) == Some(Key::Watch),
        key_named("script"@) == Some(Key::Script),
        key_named("schedule"@) == Some(Key::Schedule),
        key_named("library_cats"@) == Some(Key::LibraryCats),
        key_named("index_groups"@) == Some(Key::IndexGroups),
        key_named("index_interests"@) == Some(Key::IndexInterests),
        key_named("index_interests_applied"@) == Some(Key::IndexInterestsApplied),
        key_named("delete_to_trash"@) == Some(Key::DeleteToTrash),
        key_named("watch_interval_secs"@) == Some(Key::WatchIntervalSecs),
        key_named("index_tip_secs"@) == Some(Key::IndexTipSecs),
        key_named("nested_max_depth"@) == Some(Key::NestedMaxDepth),
        key_named("predb_enabled"@) == Some(Key::PredbEnabled),
        key_named("predb_corr_enabled"@) == Some(Key::PredbCorrEnabled),
        key_named("predb_corr_auto"@) == Some(Key::PredbCorrAuto),
        key_named("predb_max_rows"@) == Some(Key::PredbMaxRows),
        key_named("predb_server"@) == Some(Key::PredbServer),
        key_named("predb_channels"@) == Some(Key::PredbChannels),
        key_named("predb_nick"@) == Some(Key::PredbNick),
        key_named("index_paused"@) == Some(Key::IndexPaused),
        key_named("index_enabled"@) == Some(Key::IndexEnabled),
        key_named("spot_enabled"@) == Some(Key::SpotEnabled),
        key_named("spot_groups"@) == Some(Key::SpotGroups),
        key_named("spot_backfill"@) == Some(Key::SpotBackfill),
        key_named("index_evict_order"@) == Some(Key::IndexEvictOrder),
        key_named("index_evict_kinds"@) == Some(Key::IndexEvictKinds),
        key_named("index_evict"@) == Some(Key::IndexEvict),
        key_named("index_gates"@) == Some(Key::IndexGates),
        key_named("apikey"@) == Some(Key::Apikey),
        key_named("nzbkey"@) == Some(Key::Nzbkey),
        key_named("omdb_key"@) == Some(Key::OmdbKey),
        key_named("feeds"@) == Some(Key::Feeds),
        key_named("indexers"@) == Some(Key::Indexers),
        key_named("watchlist_external"@) == Some(Key::WatchlistExternal),
        key_named("watchlist_instant"@) == Some(Key::WatchlistInstant),
        key_named("watchlist_instant_max"@) == Some(Key::WatchlistInstantMax),
        key_named("watchlist"@) == Some(Key::Watchlist),
        key_named("smart_folders"@) == Some(Key::SmartFolders),
        key_named("cleanup_exts"@) == Some(Key::CleanupExts),
        key_named("password_file"@) == Some(Key::PasswordFile),
        key_named("password_prompt"@) == Some(Key::PasswordPrompt),
        key_named("unpack_eat_volumes"@) == Some(Key::UnpackEatVolumes),
        key_named("fast_par"@) == Some(Key::FastPar),
        key_named("prefer_external_unrar"@) == Some(Key::PreferExternalUnrar),
        key_named("custom_categories"@) == Some(Key::CustomCategories),
        key_named("failure_link"@) == Some(Key::FailureLink),
        key_named("prefer_quality"@) == Some(Key::PreferQuality),
        key_named("notify_targets"@) == Some(Key::NotifyTargets),
        key_named("arr_giveup_threshold"@) == Some(Key::ArrGiveupThreshold),
        key_named("arr_instances"@) == Some(Key::ArrInstances),
        key_named("mem_limit"@) == Some(Key::MemLimit),
        key_named("port"@) == Some(Key::Port),
        key_named("out_dir"@) == Some(Key::OutDir),
        key_named("move_completed"@) == Some(Key::MoveCompleted),
        key_named("move_completed_cats"@) == Some(Key::MoveCompletedCats),
        key_named("categories"@) == Some(Key::Categories),
        key_named("index_db"@) == Some(Key::IndexDb),
        key_named("config_path"@) == Some(Key::ConfigPath),
        key_named("settings_path"@) == Some(Key::SettingsPath),
        key_named("mem_budget_total"@) == Some(Key::MemBudgetTotal),
        key_named("conntune"@) == Some(Key::Conntune),
        key_named("tune_hint"@) == Some(Key::TuneHint),
        key_named("password_file_count"@) == Some(Key::PasswordFileCount),
        key_named("has_apikey"@) == Some(Key::HasApikey),
        key_named("has_nzbkey"@) == Some(Key::HasNzbkey),
        key_named("has_omdb"@) == Some(Key::HasOmdb),
        key_named("auto_defer"@) == Some(Key::Switch(Flag::AutoDefer)),
        key_named("post_health"@) == Some(Key::Switch(Flag::PostHealth)),
        key_named("post_health_defer"@) == Some(Key::Switch(Flag::PostHealthDefer)),
        key_named("wall_hide_adult"@) == Some(Key::Switch(Flag::WallHideAdult)),
        key_named("auto_connections"@) == Some(Key::Switch(Flag::AutoConnections)),
        key_named("update_checks"@) == Some(Key::Switch(Flag::UpdateChecks)),
        key_named("unit_bits"@) == Some(Key::Switch(Flag::UnitBits)),
        key_named("index_coverage"@) == Some(Key::Switch(Flag::IndexCoverage)),
        key_named("adaptive_timeouts"@) == Some(Key::Switch(Flag::AdaptiveTimeouts)),
        key_named("oracle_route"@) == Some(Key::Switch(Flag::OracleRoute)),
        key_named("auto_rename"@) == Some(Key::Switch(Flag::AutoRename)),
        key_named("identity_lookup"@) == Some(Key::Switch(Flag::IdentityLookup)),
        key_named("rename_resolution"@) == Some(Key::Switch(Flag::RenameResolution)),
        key_named("rename_vcodec"@) == Some(Key::Switch(Flag::RenameVcodec)),
        key_named("rename_acodec"@) == Some(Key::Switch(Flag::RenameAcodec)),
        key_named("rename_source"@) == Some(Key::Switch(Flag::RenameSource)),
        key_named("rename_group"@) == Some(Key::Switch(Flag::RenameGroup)),
        key_named("rename_year_parens"@) == Some(Key::Switch(Flag::RenameYearParens)),
        key_named("rename_quality_brackets"@) == Some(Key::Switch(Flag::RenameQualityBrackets)),
        key_named("rename_extra_words"@) == Some(Key::Switch(Flag::RenameExtraWords)),
        key_named("rename_identify"@) == Some(Key::Switch(Flag::RenameIdentify)),
        key_named("rename_episode_titles"@) == Some(Key::Switch(Flag::RenameEpisodeTitles)),
        key_named("history_color_names"@) == Some(Key::Switch(Flag::HistoryColorNames)),
        key_named("media_chip_color"@) == Some(Key::Switch(Flag::MediaChipColor)),
        key_named("shape_chip_color"@) == Some(Key::Switch(Flag::ShapeChipColor)),
        key_named("rename_junk"@) == Some(Key::Switch(Flag::RenameJunk)),
        key_named("rename_media_only"@) == Some(Key::Switch(Flag::RenameMediaOnly)),
        key_named("group_desc_isc"@) == Some(Key::Switch(Flag::GroupDescIsc)),
        key_named("index_retention"@) == Some(Key::Switch(Flag::IndexRetention)),
        key_named("index_pause_on_download"@) == Some(Key::Switch(Flag::IndexPauseOnDownload)),
        key_named("par_cleanup"@) == Some(Key::Switch(Flag::ParCleanup)),
        key_named("watch_keep_nzb"@) == Some(Key::Switch(Flag::WatchKeepNzb)),
        key_named("index_deepen"@) == Some(Key::Number(Count::IndexDeepen)),
        key_named("index_backfill"@) == Some(Key::Number(Count::IndexBackfill)),
        key_named("index_max_age_secs"@) == Some(Key::Number(Count::IndexMaxAgeSecs)),
        key_named("window"@) == Some(Key::Number(Count::Window)),
        key_named("decoders"@) == Some(Key::Number(Count::Decoders)),
        key_named("library_recheck_secs"@) == Some(Key::Number(Count::LibraryRecheckSecs)),
        key_named("index_interval_secs"@) == Some(Key::Number(Count::IndexIntervalSecs)),
        key_named("index_scan_par"@) == Some(Key::Number(Count::IndexScanPar)),
        key_named("oracle_sample"@) == Some(Key::Number(Count::OracleSample)),
        key_named("predb_seed_days"@) == Some(Key::Number(Count::PredbSeedDays)),
        key_named("line_speed"@) == Some(Key::Size(Count::LineSpeed)),
        key_named("min_free"@) == Some(Key::Size(Count::MinFree)),
        key_named("quota"@) == Some(Key::Size(Count::Quota)),
        key_named("index_max_bytes"@) == Some(Key::Size(Count::IndexMaxBytes)),
{
    names_0();
    names_1();
    names_2();
    names_3();
}

proof fn names_0()
    ensures
        key_named("speedlimit"@) == Some(Key::Speedlimit),
        key_named("auto_speed"@) == Some(Key::AutoSpeed),
        key_named("update_url"@) == Some(Key::UpdateUrl),
        key_named("ui_locale"@) == Some(Key::UiLocale),
        key_named("index_gapfill"@) == Some(Key::IndexGapfill),
        key_named("bench_interval"@) == Some(Key::BenchInterval),
        key_named("auto_prefetch"@) == Some(Key::AutoPrefetch),
        key_named("race_stragglers"@) == Some(Key::RaceStragglers),
        key_named("script_timeout_secs"@) == Some(Key::ScriptTimeoutSecs),
        key_named("history_rows"@) == Some(Key::HistoryRows),
        key_named("connections"@) == Some(Key::Connections),
        key_named("fast_verify"@) == Some(Key::FastVerify),
        key_named("verify_mode"@) == Some(Key::VerifyMode),
        key_named("out_umask"@) == Some(Key::OutUmask),
        key_named("auto_retry_mins"@) == Some(Key::AutoRetryMins),
        key_named("quota_period"@) == Some(Key::QuotaPeriod),
        key_named("watch"@) == Some(Key::Watch),
        key_named("script"@) == Some(Key::Script),
        key_named("schedule"@) == Some(Key::Schedule),
        key_named("library_cats"@) == Some(Key::LibraryCats),
        key_named("index_groups"@) == Some(Key::IndexGroups),
        key_named("index_interests"@) == Some(Key::IndexInterests),
        key_named("index_interests_applied"@) == Some(Key::IndexInterestsApplied),
        key_named("delete_to_trash"@) == Some(Key::DeleteToTrash),
        key_named("watch_interval_secs"@) == Some(Key::WatchIntervalSecs),
        key_named("index_tip_secs"@) == Some(Key::IndexTipSecs),
        key_named("nested_max_depth"@) == Some(Key::NestedMaxDepth),
        key_named("predb_enabled"@) == Some(Key::PredbEnabled),
        key_named("predb_corr_enabled"@) == Some(Key::PredbCorrEnabled),
        key_named("predb_corr_auto"@) == Some(Key::PredbCorrAuto),
        key_named("predb_max_rows"@) == Some(Key::PredbMaxRows),
        key_named("predb_server"@) == Some(Key::PredbServer),
{
    names_have_marks();
}

proof fn names_1()
    ensures
        key_named("predb_channels"@) == Some(Key::PredbChannels),
        key_named("predb_nick"@) == Some(Key::PredbNick),
        key_named("index_paused"@) == Some(Key::IndexPaused),
        key_named("index_enabled"@) == Some(Key::IndexEnabled),
        key_named("spot_enabled"@) == Some(Key::SpotEnabled),
        key_named("spot_groups"@) == Some(Key::SpotGroups),
        key_named("spot_backfill"@) == Some(Key::SpotBackfill),
        key_named("index_evict_order"@) == Some(Key::IndexEvictOrder),
        key_named("index_evict_kinds"@) == Some(Key::IndexEvictKinds),
        key_named("index_evict"@) == Some(Key::IndexEvict),
        key_named("index_gates"@) == Some(Key::IndexGates),
        key_named("apikey"@) == Some(Key::Apikey),
        key_named("nzbkey"@) == Some(Key::Nzbkey),
        key_named("omdb_key"@) == Some(Key::OmdbKey),
        key_named("feeds"@) == Some(Key::Feeds),
        key_named("indexers"@) == Some(Key::Indexers),
        key_named("watchlist_external"@) == Some(Key::WatchlistExternal),
        key_named("watchlist_instant"@) == Some(Key::WatchlistInstant),
        key_named("watchlist_instant_max"@) == Some(Key::WatchlistInstantMax),
        key_named("watchlist"@) == Some(Key::Watchlist),
        key_named("smart_folders"@) == Some(Key::SmartFolders),
        key_named("cleanup_exts"@) == Some(Key::CleanupExts),
        key_named("password_file"@) == Some(Key::PasswordFile),
        key_named("password_prompt"@) == Some(Key::PasswordPrompt),
        key_named("unpack_eat_volumes"@) == Some(Key::UnpackEatVolumes),
        key_named("fast_par"@) == Some(Key::FastPar),
        key_named("prefer_external_unrar"@) == Some(Key::PreferExternalUnrar),
        key_named("custom_categories"@) == Some(Key::CustomCategories),
        key_named("failure_link"@) == Some(Key::FailureLink),
        key_named("prefer_quality"@) == Some(Key::PreferQuality),
        key_named("notify_targets"@) == Some(Key::NotifyTargets),
        key_named("arr_giveup_threshold"@) == Some(Key::ArrGiveupThreshold),
{
    names_have_marks();
}

proof fn names_2()
    ensures
        key_named("arr_instances"@) == Some(Key::ArrInstances),
        key_named("mem_limit"@) == Some(Key::MemLimit),
        key_named("port"@) == Some(Key::Port),
        key_named("out_dir"@) == Some(Key::OutDir),
        key_named("move_completed"@) == Some(Key::MoveCompleted),
        key_named("move_completed_cats"@) == Some(Key::MoveCompletedCats),
        key_named("categories"@) == Some(Key::Categories),
        key_named("index_db"@) == Some(Key::IndexDb),
        key_named("config_path"@) == Some(Key::ConfigPath),
        key_named("settings_path"@) == Some(Key::SettingsPath),
        key_named("mem_budget_total"@) == Some(Key::MemBudgetTotal),
        key_named("conntune"@) == Some(Key::Conntune),
        key_named("tune_hint"@) == Some(Key::TuneHint),
        key_named("password_file_count"@) == Some(Key::PasswordFileCount),
        key_named("has_apikey"@) == Some(Key::HasApikey),
        key_named("has_nzbkey"@) == Some(Key::HasNzbkey),
        key_named("has_omdb"@) == Some(Key::HasOmdb),
        key_named("auto_defer"@) == Some(Key::Switch(Flag::AutoDefer)),
        key_named("post_health"@) == Some(Key::Switch(Flag::PostHealth)),
        key_named("post_health_defer"@) == Some(Key::Switch(Flag::PostHealthDefer)),
        key_named("wall_hide_adult"@) == Some(Key::Switch(Flag::WallHideAdult)),
        key_named("auto_connections"@) == Some(Key::Switch(Flag::AutoConnections)),
        key_named("update_checks"@) == Some(Key::Switch(Flag::UpdateChecks)),
        key_named("unit_bits"@) == Some(Key::Switch(Flag::UnitBits)),
        key_named("index_coverage"@) == Some(Key::Switch(Flag::IndexCoverage)),
        key_named("adaptive_timeouts"@) == Some(Key::Switch(Flag::AdaptiveTimeouts)),
        key_named("oracle_route"@) == Some(Key::Switch(Flag::OracleRoute)),
        key_named("auto_rename"@) == Some(Key::Switch(Flag::AutoRename)),
        key_named("identity_lookup"@) == Some(Key::Switch(Flag::IdentityLookup)),
        key_named("rename_resolution"@) == Some(Key::Switch(Flag::RenameResolution)),
        key_named("rename_vcodec"@) == Some(Key::Switch(Flag::RenameVcodec)),
        key_named("rename_acodec"@) == Some(Key::Switch(Flag::RenameAcodec)),
{
    names_have_marks();
}

proof fn names_3()
    ensures
        key_named("rename_source"@) == Some(Key::Switch(Flag::RenameSource)),
        key_named("rename_group"@) == Some(Key::Switch(Flag::RenameGroup)),
        key_named("rename_year_parens"@) == Some(Key::Switch(Flag::RenameYearParens)),
        key_named("rename_quality_brackets"@) == Some(Key::Switch(Flag::RenameQualityBrackets)),
        key_named("rename_extra_words"@) == Some(Key::Switch(Flag::RenameExtraWords)),
        key_named("rename_identify"@) == Some(Key::Switch(Flag::RenameIdentify)),
        key_named("rename_episode_titles"@) == Some(Key::Switch(Flag::RenameEpisodeTitles)),
        key_named("history_color_names"@) == Some(Key::Switch(Flag::HistoryColorNames)),
        key_named("media_chip_color"@) == Some(Key::Switch(Flag::MediaChipColor)),
        key_named("shape_chip_color"@) == Some(Key::Switch(Flag::ShapeChipColor)),
        key_named("rename_junk"@) == Some(Key::Switch(Flag::RenameJunk)),
        key_named("rename_media_only"@) == Some(Key::Switch(Flag::RenameMediaOnly)),
        key_named("group_desc_isc"@) == Some(Key::Switch(Flag::GroupDescIsc)),
        key_named("index_retention"@) == Some(Key::Switch(Flag::IndexRetention)),
        key_named("index_pause_on_download"@) == Some(Key::Switch(Flag::IndexPauseOnDownload)),
        key_named("par_cleanup"@) == Some(Key::Switch(Flag::ParCleanup)),
        key_named("watch_keep_nzb"@) == Some(Key::Switch(Flag::WatchKeepNzb)),
        key_named("index_deepen"@) == Some(Key::Number(Count::IndexDeepen)),
        key_named("index_backfill"@) == Some(Key::Number(Count::IndexBackfill)),
        key_named("index_max_age_secs"@) == Some(Key::Number(Count::IndexMaxAgeSecs)),
        key_named("window"@) == Some(Key::Number(Count::Window)),
        key_named("decoders"@) == Some(Key::Number(Count::Decoders)),
        key_named("library_recheck_secs"@) == Some(Key::Number(Count::LibraryRecheckSecs)),
        key_named("index_interval_secs"@) == Some(Key::Number(Count::IndexIntervalSecs)),
        key_named("index_scan_par"@) == Some(Key::Number(Count::IndexScanPar)),
        key_named("oracle_sample"@) == Some(Key::Number(Count::OracleSample)),
        key_named("predb_seed_days"@) == Some(Key::Number(Count::PredbSeedDays)),
        key_named("line_speed"@) == Some(Key::Size(Count::LineSpeed)),
        key_named("min_free"@) == Some(Key::Size(Count::MinFree)),
        key_named("quota"@) == Some(Key::Size(Count::Quota)),
        key_named("index_max_bytes"@) == Some(Key::Size(Count::IndexMaxBytes)),
{
    names_have_marks();
}

/// Each switch is the field that it is named after.
pub proof fn every_switch_is_its_own_field(s: Switches)
    ensures
        s.has(Flag::AutoDefer) == s.auto_defer,
        s.has(Flag::PostHealth) == s.post_health,
        s.has(Flag::PostHealthDefer) == s.post_health_defer,
        s.has(Flag::WallHideAdult) == s.wall_hide_adult,
        s.has(Flag::AutoConnections) == s.auto_connections,
        s.has(Flag::UpdateChecks) == s.update_checks,
        s.has(Flag::UnitBits) == s.unit_bits,
        s.has(Flag::IndexCoverage) == s.index_coverage,
        s.has(Flag::AutoPrefetch) == s.auto_prefetch,
        s.has(Flag::RaceStragglers) == s.race_stragglers,
        s.has(Flag::AdaptiveTimeouts) == s.adaptive_timeouts,
        s.has(Flag::OracleRoute) == s.oracle_route,
        s.has(Flag::AutoRename) == s.auto_rename,
        s.has(Flag::IdentityLookup) == s.identity_lookup,
        s.has(Flag::RenameResolution) == s.rename_resolution,
        s.has(Flag::RenameVcodec) == s.rename_vcodec,
        s.has(Flag::RenameAcodec) == s.rename_acodec,
        s.has(Flag::RenameSource) == s.rename_source,
        s.has(Flag::RenameGroup) == s.rename_group,
        s.has(Flag::RenameYearParens) == s.rename_year_parens,
        s.has(Flag::RenameQualityBrackets) == s.rename_quality_brackets,
        s.has(Flag::RenameExtraWords) == s.rename_extra_words,
        s.has(Flag::RenameIdentify) == s.rename_identify,
        s.has(Flag::RenameEpisodeTitles) == s.rename_episode_titles,
        s.has(Flag::HistoryColorNames) == s.history_color_names,
        s.has(Flag::MediaChipColor) == s.media_chip_color,
        s.has(Flag::ShapeChipColor) == s.shape_chip_color,
        s.has(Flag::RenameJunk) == s.rename_junk,
        s.has(Flag::RenameMediaOnly) == s.rename_media_only,
        s.has(Flag::GroupDescIsc) == s.group_desc_isc,
        s.has(Flag::IndexRetention) == s.index_retention,
        s.has(Flag::IndexPauseOnDownload) == s.index_pause_on_download,
        s.has(Flag::ParCleanup) == s.par_cleanup,
        s.has(Flag::WatchKeepNzb) == s.watch_keep_nzb,
{
    reveal(Switches::has);
}

proof fn switch_taken(
    was: Daemon,
    name: Seq<char>,
    v: Seq<char>,
    given: Given,
    r: Outcome,
    set: Daemon,
    f: Flag,
)
    requires
        applied(was, name, v, given, r, set),
        key_named(name) == Some(Key::Switch(f)) || (f is AutoPrefetch && key_named(name) == Some(
            Key::AutoPrefetch,
        )) || (f is RaceStragglers && key_named(name) == Some(Key::RaceStragglers)),
    ensures
        stores(r, Json::Bool(is_on(v))),
        set.switches.has(f) == is_on(v),
{
    a_switch_reads_back(was.switches, f, is_on(v));
}

/// Setting a switch under its name turns that switch on or off, at once, and
/// saves it so.
pub proof fn a_switch_is_set_under_its_name(
    d: &mut Daemon,
    name: &str,
    v: &str,
    given: Given,
    r: Outcome,
)
    requires
        call_ensures(apply_setting, (d, name, v, given), r),
    ensures
        name@ == "auto_defer"@ ==> (stores(r, Json::Bool(is_on(v@))) && final(d).switches.auto_defer == is_on(v@)),
        name@ == "post_health"@ ==> (stores(r, Json::Bool(is_on(v@))) && final(d).switches.post_health == is_on(v@)),
        name@ == "post_health_defer"@ ==> (stores(r, Json::Bool(is_on(v@))) && final(d).switches.post_health_defer == is_on(v@)),
        name@ == "wall_hide_adult"@ ==> (stores(r, Json::Bool(is_on(v@))) && final(d).switches.wall_hide_adult == is_on(v@)),
        name@ == "auto_connections"@ ==> (stores(r, Json::Bool(is_on(v@))) && final(d).switches.auto_connections == is_on(v@)),
        name@ == "update_checks"@ ==> (stores(r, Json::Bool(is_on(v@))) && final(d).switches.update_checks == is_on(v@)),
        name@ == "unit_bits"@ ==> (stores(r, Json::Bool(is_on(v@))) && final(d).switches.unit_bits == is_on(v@)),
        name@ == "index_coverage"@ ==> (stores(r, Json::Bool(is_on(v@))) && final(d).switches.index_coverage == is_on(v@)),
        name@ == "auto_prefetch"@ ==> (stores(r, Json::Bool(is_on(v@))) && final(d).switches.auto_prefetch == is_on(v@)),
        name@ == "race_stragglers"@ ==> (stores(r, Json::Bool(is_on(v@))) && final(d).switches.race_stragglers == is_on(v@)),
        name@ == "adaptive_timeouts"@ ==> (stores(r, Json::Bool(is_on(v@))) && final(d).switches.adaptive_timeouts == is_on(v@)),
        name@ == "oracle_route"@ ==> (stores(r, Json::Bool(is_on(v@))) && final(d).switches.oracle_route == is_on(v@)),
        name@ == "auto_rename"@ ==> (stores(r, Json::Bool(is_on(v@))) && final(d).switches.auto_rename == is_on(v@)),
        name@ == "identity_lookup"@ ==> (stores(r, Json::Bool(is_on(v@))) && final(d).switches.identity_lookup == is_on(v@)),
        name@ == "rename_resolution"@ ==> (stores(r, Json::Bool(is_on(v@))) && final(d).switches.rename_resolution == is_on(v@)),
        name@ == "rename_vcodec"@ ==> (stores(r, Json::Bool(is_on(v@))) && final(d).switches.rename_vcodec == is_on(v@)),
        name@ == "rename_acodec"@ ==> (stores(r, Json::Bool(is_on(v@))) && final(d).switches.rename_acodec == is_on(v@)),
{
    every_name_is_its_own_setting();
    every_switch_is_its_own_field(final(d).switches);
    let (was, set) = (*old(d), *final(d));
    assert(applied(was, name@, v@, given, r, set));
    if name@ == "auto_defer"@ {
        switch_taken(was, name@, v@, given, r, set, Flag::AutoDefer);
    }
    if name@ == "post_health"@ {
        switch_taken(was, name@, v@, given, r, set, Flag::PostHealth);
    }
    if name@ == "post_health_defer"@ {
        switch_taken(was, name@, v@, given, r, set, Flag::PostHealthDefer);
    }
    if name@ == "wall_hide_adult"@ {
        switch_taken(was, name@, v@, given, r, set, Flag::WallHideAdult);
    }
    if name@ == "auto_connections"@ {
        switch_taken(was, name@, v@, given, r, set, Flag::AutoConnections);
    }
    if name@ == "update_checks"@ {
        switch_taken(was, name@, v@, given, r, set, Flag::UpdateChecks);
    }
    if name@ == "unit_bits"@ {
        switch_taken(was, name@, v@, given, r, set, Flag::UnitBits);
    }
    if name@ == "index_coverage"@ {
        switch_taken(was, name@, v@, given, r, set, Flag::IndexCoverage);
    }
    if name@ == "auto_prefetch"@ {
        switch_taken(was, name@, v@, given, r, set, Flag::AutoPrefetch);
    }
    if name@ == "race_stragglers"@ {
        switch_taken(was, name@, v@, given, r, set, Flag::RaceStragglers);
    }
    if name@ == "adaptive_timeouts"@ {
        switch_taken(was, name@, v@, given, r, set, Flag::AdaptiveTimeouts);
    }
    if name@ == "oracle_route"@ {
        switch_taken(was, name@, v@, given, r, set, Flag::OracleRoute);
    }
    if name@ == "auto_rename"@ {
        switch_taken(was, name@, v@, given, r, set, Flag::AutoRename);
    }
    if name@ == "identity_lookup"@ {
        switch_taken(was, name@, v@, given, r, set, Flag::IdentityLookup);
    }
    if name@ == "rename_resolution"@ {
        switch_taken(was, name@, v@, given, r, set, Flag::RenameResolution);
    }
    if name@ == "rename_vcodec"@ {
        switch_taken(was, name@, v@, given, r, set, Flag::RenameVcodec);
    }
    if name@ == "rename_acodec"@ {
        switch_taken(was, name@, v@, given, r, set, Flag::RenameAcodec);
    }
}

/// The same of the switches of the renamer, the history and the indexer.
pub proof fn a_switch_of_the_renamer_is_set_under_its_name(
    d: &mut Daemon,
    name: &str,
    v: &str,
    given: Given,
    r: Outcome,
)
    requires
        call_ensures(apply_setting, (d, name, v, given), r),
    ensures
        name@ == "rename_source"@ ==> (stores(r, Json::Bool(is_on(v@))) && final(d).switches.rename_source == is_on(v@)),
        name@ == "rename_group"@ ==> (stores(r, Json::Bool(is_on(v@))) && final(d).switches.rename_group == is_on(v@)),
        name@ == "rename_year_parens"@ ==> (stores(r, Json::Bool(is_on(v@))) && final(d).switches.rename_year_parens == is_on(v@)),
        name@ == "rename_quality_brackets"@ ==> (stores(r, Json::Bool(is_on(v@))) && final(d).switches.rename_quality_brackets == is_on(v@)),
        name@ == "rename_extra_words"@ ==> (stores(r, Json::Bool(is_on(v@))) && final(d).switches.rename_extra_words == is_on(v@)),
        name@ == "rename_identify"@ ==> (stores(r, Json::Bool(is_on(v@))) && final(d).switches.rename_identify == is_on(v@)),
        name@ == "rename_episode_titles"@ ==> (stores(r, Json::Bool(is_on(v@))) && final(d).switches.rename_episode_titles == is_on(v@)),
        name@ == "history_color_names"@ ==> (stores(r, Json::Bool(is_on(v@))) && final(d).switches.history_color_names == is_on(v@)),
        name@ == "media_chip_color"@ ==> (stores(r, Json::Bool(is_on(v@))) && final(d).switches.media_chip_color == is_on(v@)),
        name@ == "shape_chip_color"@ ==> (stores(r, Json::Bool(is_on(v@))) && final(d).switches.shape_chip_color == is_on(v@)),
        name@ == "rename_junk"@ ==> (stores(r, Json::Bool(is_on(v@))) && final(d).switches.rename_junk == is_on(v@)),
        name@ == "rename_media_only"@ ==> (stores(r, Json::Bool(is_on(v@))) && final(d).switches.rename_media_only == is_on(v@)),
        name@ == "group_desc_isc"@ ==> (stores(r, Json::Bool(is_on(v@))) && final(d).switches.group_desc_isc == is_on(v@)),
        name@ == "index_retention"@ ==> (stores(r, Json::Bool(is_on(v@))) && final(d).switches.index_retention == is_on(v@)),
        name@ == "index_pause_on_download"@ ==> (stores(r, Json::Bool(is_on(v@))) && final(d).switches.index_pause_on_download == is_on(v@)),
        name@ == "par_cleanup"@ ==> (stores(r, Json::Bool(is_on(v@))) && final(d).switches.par_cleanup == is_on(v@)),
        name@ == "watch_keep_nzb"@ ==> (stores(r, Json::Bool(is_on(v@))) && final(d).switches.watch_keep_nzb == is_on(v@)),
{
    every_name_is_its_own_setting();
    every_switch_is_its_own_field(final(d).switches);
    let (was, set) = (*old(d), *final(d));
    assert(applied(was, name@, v@, given, r, set));
    if name@ == "rename_source"@ {
        switch_taken(was, name@, v@, given, r, set, Flag::RenameSource);
    }
    if name@ == "rename_group"@ {
        switch_taken(was, name@, v@, given, r, set, Flag::RenameGroup);
    }
    if name@ == "rename_year_parens"@ {
        switch_taken(was, name@, v@, given, r, set, Flag::RenameYearParens);
    }
    if name@ == "rename_quality_brackets"@ {
        switch_taken(was, name@, v@, given, r, set, Flag::RenameQualityBrackets);
    }
    if name@ == "rename_extra_words"@ {
        switch_taken(was, name@, v@, given, r, set, Flag::RenameExtraWords);
    }
    if name@ == "rename_identify"@ {
        switch_taken(was, name@, v@, given, r, set, Flag::RenameIdentify);
    }
    if name@ == "rename_episode_titles"@ {
        switch_taken(was, name@, v@, given, r, set, Flag::RenameEpisodeTitles);
    }
    if name@ == "history_color_names"@ {
        switch_taken(was, name@, v@, given, r, set, Flag::HistoryColorNames);
    }
    if name@ == "media_chip_color"@ {
        switch_taken(was, name@, v@, given, r, set, Flag::MediaChipColor);
    }
    if name@ == "shape_chip_color"@ {
        switch_taken(was, name@, v@, given, r, set, Flag::ShapeChipColor);
    }
    if name@ == "rename_junk"@ {
        switch_taken(was, name@, v@, given, r, set, Flag::RenameJunk);
    }
    if name@ == "rename_media_only"@ {
        switch_taken(was, name@, v@, given, r, set, Flag::RenameMediaOnly);
    }
    if name@ == "group_desc_isc"@ {
        switch_taken(was, name@, v@, given, r, set, Flag::GroupDescIsc);
    }
    if name@ == "index_retention"@ {
        switch_taken(was, name@, v@, given, r, set, Flag::IndexRetention);
    }
    if name@ == "index_pause_on_download"@ {
        switch_taken(was, name@, v@, given, r, set, Flag::IndexPauseOnDownload);
    }
    if name@ == "par_cleanup"@ {
        switch_taken(was, name@, v@, given, r, set, Flag::ParCleanup);
    }
    if name@ == "watch_keep_nzb"@ {
        switch_taken(was, name@, v@, given, r, set, Flag::WatchKeepNzb);
    }
}

/// A bounded number is set to the number that was typed, brought into its
/// bounds; what is no number is refused.
pub proof fn a_number_is_set_within_its_bounds(
    d: &mut Daemon,
    name: &str,
    v: &str,
    given: Given,
    r: Outcome,
)
    requires
        call_ensures(apply_setting, (d, name, v, given), r),
    ensures
        name@ == "index_deepen"@ ==> (parsed_u64(trimmed(v@)) matches Some(n) ==> stores(r, uint_json(brought(n, 0, u64::MAX as int))) && final(d).numbers.index_deepen == brought(n, 0, u64::MAX as int)),
        name@ == "index_deepen"@ ==> (parsed_u64(trimmed(v@)) is None ==> r is Err && *final(d) == *old(d)),
        name@ == "index_backfill"@ ==> (parsed_u64(trimmed(v@)) matches Some(n) ==> stores(r, uint_json(brought(n, 0, u64::MAX as int))) && final(d).numbers.index_backfill == brought(n, 0, u64::MAX as int)),
        name@ == "index_backfill"@ ==> (parsed_u64(trimmed(v@)) is None ==> r is Err && *final(d) == *old(d)),
        name@ == "index_max_age_secs"@ ==> (parsed_u64(trimmed(v@)) matches Some(n) ==> stores(r, uint_json(brought(n, 0, u64::MAX as int))) && final(d).numbers.index_max_age_secs == brought(n, 0, u64::MAX as int)),
        name@ == "index_max_age_secs"@ ==> (parsed_u64(trimmed(v@)) is None ==> r is Err && *final(d) == *old(d)),
        name@ == "window"@ ==> (parsed_u64(trimmed(v@)) matches Some(n) ==> stores(r, uint_json(brought(n, 1, 64))) && final(d).numbers.window == brought(n, 1, 64)),
        name@ == "window"@ ==> (parsed_u64(trimmed(v@)) is None ==> r is Err && *final(d) == *old(d)),
        name@ == "decoders"@ ==> (parsed_u64(trimmed(v@)) matches Some(n) ==> stores(r, uint_json(brought(n, 1, 128))) && final(d).numbers.decoders == brought(n, 1, 128)),
        name@ == "decoders"@ ==> (parsed_u64(trimmed(v@)) is None ==> r is Err && *final(d) == *old(d)),
        name@ == "library_recheck_secs"@ ==> (parsed_u64(trimmed(v@)) matches Some(n) ==> stores(r, uint_json(brought(n, 60, u64::MAX as int))) && final(d).numbers.library_recheck_secs == brought(n, 60, u64::MAX as int)),
        name@ == "library_recheck_secs"@ ==> (parsed_u64(trimmed(v@)) is None ==> r is Err && *final(d) == *old(d)),
        name@ == "index_interval_secs"@ ==> (parsed_u64(trimmed(v@)) matches Some(n) ==> stores(r, uint_json(brought(n, 30, u64::MAX as int))) && final(d).numbers.index_interval_secs == brought(n, 30, u64::MAX as int)),
        name@ == "index_interval_secs"@ ==> (parsed_u64(trimmed(v@)) is None ==> r is Err && *final(d) == *old(d)),
        name@ == "index_scan_par"@ ==> (parsed_u64(trimmed(v@)) matches Some(n) ==> stores(r, uint_json(brought(n, 1, 8))) && final(d).numbers.index_scan_par == brought(n, 1, 8)),
        name@ == "index_scan_par"@ ==> (parsed_u64(trimmed(v@)) is None ==> r is Err && *final(d) == *old(d)),
        name@ == "oracle_sample"@ ==> (parsed_u64(trimmed(v@)) matches Some(n) ==> stores(r, uint_json(brought(n, 0, 3600))) && final(d).numbers.oracle_sample == brought(n, 0, 3600)),
        name@ == "oracle_sample"@ ==> (parsed_u64(trimmed(v@)) is None ==> r is Err && *final(d) == *old(d)),
        name@ == "predb_seed_days"@ ==> (parsed_u64(trimmed(v@)) matches Some(n) ==> stores(r, uint_json(brought(n, 1, 366))) && final(d).numbers.predb_seed_days == brought(n, 1, 366)),
        name@ == "predb_seed_days"@ ==> (parsed_u64(trimmed(v@)) is None ==> r is Err && *final(d) == *old(d)),
{
    every_name_is_its_own_setting();
    if name@ == "index_deepen"@ {
        assert(key_named(name@) == Some(Key::Number(Count::IndexDeepen)));
        reveal(Numbers::of);
        parsed_bounds(trimmed(v@), 10, u64::MAX as int);
        if let Some(n) = parsed_u64(trimmed(v@)) {
            a_number_reads_back(old(d).numbers, Count::IndexDeepen, brought(n, 0, u64::MAX as int) as u64);
        }
    }
    if name@ == "index_backfill"@ {
        assert(key_named(name@) == Some(Key::Number(Count::IndexBackfill)));
        reveal(Numbers::of);
        parsed_bounds(trimmed(v@), 10, u64::MAX as int);
        if let Some(n) = parsed_u64(trimmed(v@)) {
            a_number_reads_back(old(d).numbers, Count::IndexBackfill, brought(n, 0, u64::MAX as int) as u64);
        }
    }
    if name@ == "index_max_age_secs"@ {
        assert(key_named(name@) == Some(Key::Number(Count::IndexMaxAgeSecs)));
        reveal(Numbers::of);
        parsed_bounds(trimmed(v@), 10, u64::MAX as int);
        if let Some(n) = parsed_u64(trimmed(v@)) {
            a_number_reads_back(old(d).numbers, Count::IndexMaxAgeSecs, brought(n, 0, u64::MAX as int) as u64);
        }
    }
    if name@ == "window"@ {
        assert(key_named(name@) == Some(Key::Number(Count::Window)));
        reveal(Numbers::of);
        parsed_bounds(trimmed(v@), 10, u64::MAX as int);
        if let Some(n) = parsed_u64(trimmed(v@)) {
            a_number_reads_back(old(d).numbers, Count::Window, brought(n, 1, 64) as u64);
        }
    }
    if name@ == "decoders"@ {
        assert(key_named(name@) == Some(Key::Number(Count::Decoders)));
        reveal(Numbers::of);
        parsed_bounds(trimmed(v@), 10, u64::MAX as int);
        if let Some(n) = parsed_u64(trimmed(v@)) {
            a_number_reads_back(old(d).numbers, Count::Decoders, brought(n, 1, 128) as u64);
        }
    }
    if name@ == "library_recheck_secs"@ {
        assert(key_named(name@) == Some(Key::Number(Count::LibraryRecheckSecs)));
        reveal(Numbers::of);
        parsed_bounds(trimmed(v@), 10, u64::MAX as int);
        if let Some(n) = parsed_u64(trimmed(v@)) {
            a_number_reads_back(old(d).numbers, Count::LibraryRecheckSecs, brought(n, 60, u64::MAX as int) as u64);
        }
    }
    if name@ == "index_interval_secs"@ {
        assert(key_named(name@) == Some(Key::Number(Count::IndexIntervalSecs)));
        reveal(Numbers::of);
        parsed_bounds(trimmed(v@), 10, u64::MAX as int);
        if let Some(n) = parsed_u64(trimmed(v@)) {
            a_number_reads_back(old(d).numbers, Count::IndexIntervalSecs, brought(n, 30, u64::MAX as int) as u64);
        }
    }
    if name@ == "index_scan_par"@ {
        assert(key_named(name@) == Some(Key::Number(Count::IndexScanPar)));
        reveal(Numbers::of);
        parsed_bounds(trimmed(v@), 10, u64::MAX as int);
        if let Some(n) = parsed_u64(trimmed(v@)) {
            a_number_reads_back(old(d).numbers, Count::IndexScanPar, brought(n, 1, 8) as u64);
        }
    }
    if name@ == "oracle_sample"@ {
        assert(key_named(name@) == Some(Key::Number(Count::OracleSample)));
        reveal(Numbers::of);
        parsed_bounds(trimmed(v@), 10, u64::MAX as int);
        if let Some(n) = parsed_u64(trimmed(v@)) {
            a_number_reads_back(old(d).numbers, Count::OracleSample, brought(n, 0, 3600) as u64);
        }
    }
    if name@ == "predb_seed_days"@ {
        assert(key_named(name@) == Some(Key::Number(Count::PredbSeedDays)));
        reveal(Numbers::of);
        parsed_bounds(trimmed(v@), 10, u64::MAX as int);
        if let Some(n) = parsed_u64(trimmed(v@)) {
            a_number_reads_back(old(d).numbers, Count::PredbSeedDays, brought(n, 1, 366) as u64);
        }
    }
}

/// A size is set to what was read of it; what is no size is refused.
pub proof fn a_size_is_set_as_it_reads(
    d: &mut Daemon,
    name: &str,
    v: &str,
    given: Given,
    r: Outcome,
)
    requires
        call_ensures(apply_setting, (d, name, v, given), r),
    ensures
        name@ == "line_speed"@ ==> (given.size matches Some(b) ==> stores(r, uint_json(b as int)) && final(d).numbers.line_speed == b),
        name@ == "line_speed"@ ==> (given.size is None ==> r is Err && *final(d) == *old(d)),
        name@ == "min_free"@ ==> (given.size matches Some(b) ==> stores(r, uint_json(b as int)) && final(d).numbers.min_free == b),
        name@ == "min_free"@ ==> (given.size is None ==> r is Err && *final(d) == *old(d)),
        name@ == "quota"@ ==> (given.size matches Some(b) ==> stores(r, uint_json(b as int)) && final(d).numbers.quota == b),
        name@ == "quota"@ ==> (given.size is None ==> r is Err && *final(d) == *old(d)),
        name@ == "index_max_bytes"@ ==> (given.size matches Some(b) ==> stores(r, uint_json(b as int)) && final(d).numbers.index_max_bytes == b),
        name@ == "index_max_bytes"@ ==> (given.size is None ==> r is Err && *final(d) == *old(d)),
{
    every_name_is_its_own_setting();
    if name@ == "line_speed"@ {
        assert(key_named(name@) == Some(Key::Size(Count::LineSpeed)));
        reveal(Numbers::of);
        if let Some(b) = given.size {
            a_number_reads_back(old(d).numbers, Count::LineSpeed, b);
        }
    }
    if name@ == "min_free"@ {
        assert(key_named(name@) == Some(Key::Size(Count::MinFree)));
        reveal(Numbers::of);
        if let Some(b) = given.size {
            a_number_reads_back(old(d).numbers, Count::MinFree, b);
        }
    }
    if name@ == "quota"@ {
        assert(key_named(name@) == Some(Key::Size(Count::Quota)));
        reveal(Numbers::of);
        if let Some(b) = given.size {
            a_number_reads_back(old(d).numbers, Count::Quota, b);
        }
    }
    if name@ == "index_max_bytes"@ {
        assert(key_named(name@) == Some(Key::Size(Count::IndexMaxBytes)));
        reveal(Numbers::of);
        if let Some(b) = given.size {
            a_number_reads_back(old(d).numbers, Count::IndexMaxBytes, b);
        }
    }
}

/// What setting the engine does. Connections are one to 999 and have their
/// limits found anew; archives within archives are unpacked one to 64 deep; a
/// retry is set in minutes; the mask is octal; a period is a day or a month.
pub proof fn what_setting_the_engine_does(
    d: &mut Daemon,
    name: &str,
    v: &str,
    given: Given,
    r: Outcome,
)
    requires
        call_ensures(apply_setting, (d, name, v, given), r),
    ensures
        name@ == "connections"@ ==> (parsed_u64(trimmed(v@)) matches Some(n) ==> stores(r, uint_json(brought(n, 1, 999))) && final(d).engine.connections == brought(n, 1, 999) && final(d).todo@ == old(d).todo@.push(Action::ReopenKnees(brought(n, 1, 999) as u64))),
        name@ == "connections"@ ==> (parsed_u64(trimmed(v@)) is None ==> r is Err && *final(d) == *old(d)),
        name@ == "nested_max_depth"@ ==> (parsed_u64(trimmed(v@)) matches Some(n) ==> stores(r, uint_json(brought(n, 1, 64))) && final(d).engine.nested_max_depth == brought(n, 1, 64) && final(d).todo@ == old(d).todo@.push(Action::NestedDepth(brought(n, 1, 64) as u64))),
        name@ == "nested_max_depth"@ ==> (parsed_u64(trimmed(v@)) is None ==> r is Err && *final(d) == *old(d)),
        name@ == "fast_verify"@ ==> (stores(r, Json::Bool(is_on(v@))) && final(d).engine.fast_verify == is_on(v@)),
        name@ == "fast_verify"@ ==> (final(d).engine.verify_lean <==> is_on(v@) && old(d).engine.verify_lean),
        name@ == "fast_verify"@ ==> (final(d).todo@ == old(d).todo@.push(Action::SaveVerifyMode(if !is_on(v@) { VerifyMode::Full } else if old(d).engine.verify_lean { VerifyMode::Lean } else { VerifyMode::Fast }))),
        name@ == "verify_mode"@ ==> (trimmed(v@) == "full"@ ==> stores(r, Json::Text("full"@)) && !final(d).engine.fast_verify && !final(d).engine.verify_lean),
        name@ == "verify_mode"@ ==> (trimmed(v@) == "fast"@ ==> stores(r, Json::Text("fast"@)) && final(d).engine.fast_verify && !final(d).engine.verify_lean),
        name@ == "verify_mode"@ ==> (trimmed(v@) == "lean"@ ==> stores(r, Json::Text("lean"@)) && final(d).engine.fast_verify && final(d).engine.verify_lean),
        name@ == "verify_mode"@ ==> (trimmed(v@) != "full"@ && trimmed(v@) != "fast"@ && trimmed(v@) != "lean"@ ==> r is Err && *final(d) == *old(d)),
        name@ == "out_umask"@ ==> (trimmed(v@).len() == 0 ==> stores(r, Json::Text(""@)) && final(d).engine.out_umask == u32::MAX),
        name@ == "out_umask"@ ==> (trimmed(v@).len() > 0 ==> (parsed(trimmed(v@), 8, 511) matches Some(m) ==> stores(r, Json::Text(octal3(m))) && final(d).engine.out_umask == m)),
        name@ == "out_umask"@ ==> (trimmed(v@).len() > 0 && parsed(trimmed(v@), 8, 511) is None ==> r is Err && *final(d) == *old(d)),
        name@ == "auto_retry_mins"@ ==> (parsed_u64(trimmed(v@)) matches Some(m) ==> (m * 60 <= u64::MAX ==> stores(r, uint_json(m)) && final(d).engine.auto_retry_secs == m * 60)),
        name@ == "auto_retry_mins"@ ==> (parsed_u64(trimmed(v@)) is None ==> r is Err && *final(d) == *old(d)),
        name@ == "quota_period"@ ==> (trimmed(v@) == "d"@ || trimmed(v@) == "D"@ ==> r is Ok && final(d).engine.quota_period == 100),
        name@ == "quota_period"@ ==> (trimmed(v@) == "m"@ || trimmed(v@) == "M"@ ==> r is Ok && final(d).engine.quota_period == 109),
        name@ == "quota_period"@ ==> (trimmed(v@) != "d"@ && trimmed(v@) != "D"@ && trimmed(v@) != "m"@ && trimmed(v@) != "M"@ ==> r is Err && *final(d) == *old(d)),
{
    every_name_is_its_own_setting();
    if name@ == "connections"@ {
        assert(key_named(name@) == Some(Key::Connections));
        parsed_bounds(trimmed(v@), 10, u64::MAX as int);
    }
    if name@ == "nested_max_depth"@ {
        assert(key_named(name@) == Some(Key::NestedMaxDepth));
        parsed_bounds(trimmed(v@), 10, u64::MAX as int);
    }
    if name@ == "fast_verify"@ {
        assert(key_named(name@) == Some(Key::FastVerify));
    }
    if name@ == "verify_mode"@ {
        assert(key_named(name@) == Some(Key::VerifyMode));
        reveal_strlit("full");
        reveal_strlit("fast");
        reveal_strlit("lean");
        assert("full"@[1] != "fast"@[1] && "full"@[0] != "lean"@[0] && "fast"@[0] != "lean"@[0]);
    }
    if name@ == "out_umask"@ {
        assert(key_named(name@) == Some(Key::OutUmask));
        parsed_bounds(trimmed(v@), 8, 511);
    }
    if name@ == "auto_retry_mins"@ {
        assert(key_named(name@) == Some(Key::AutoRetryMins));
        parsed_bounds(trimmed(v@), 10, u64::MAX as int);
    }
    if name@ == "quota_period"@ {
        assert(key_named(name@) == Some(Key::QuotaPeriod));
        reveal_strlit("d");
        reveal_strlit("D");
        reveal_strlit("m");
        reveal_strlit("M");
        assert("d"@[0] != "m"@[0] && "d"@[0] != "M"@[0] && "D"@[0] != "m"@[0] && "D"@[0] != "M"@[0]);
    }
}

/// What setting the speed does. A limit from one to 99 is a share of the line,
/// which has to be known; nought and a hundred are no limit; anything else is a
/// size. The line is measured every so many hours, up to thirty days.
pub proof fn what_setting_the_speed_does(
    d: &mut Daemon,
    name: &str,
    v: &str,
    given: Given,
    r: Outcome,
)
    requires
        call_ensures(apply_setting, (d, name, v, given), r),
    ensures
        name@ == "speedlimit"@ ==> (parsed_u64(trimmed(v@)) matches Some(n) ==> (0 < n < 100 && old(d).numbers.line_speed == 0 ==> r is Err && *final(d) == *old(d))),
        name@ == "speedlimit"@ ==> (parsed_u64(trimmed(v@)) matches Some(n) ==> (0 < n < 100 && old(d).numbers.line_speed > 0 && old(d).numbers.line_speed * n <= u64::MAX ==> stores(r, uint_json(old(d).numbers.line_speed * n / 100)) && final(d).todo@ == old(d).todo@.push(Action::SpeedCeiling((old(d).numbers.line_speed * n / 100) as u64)))),
        name@ == "speedlimit"@ ==> (parsed_u64(trimmed(v@)) == Some(0int) || parsed_u64(trimmed(v@)) == Some(100int) ==> stores(r, uint_json(0)) && final(d).todo@ == old(d).todo@.push(Action::SpeedCeiling(0))),
        name@ == "speedlimit"@ ==> ((parsed_u64(trimmed(v@)) is None || parsed_u64(trimmed(v@))->0 > 100) && given.size is Some ==> stores(r, uint_json(given.size->0 as int)) && final(d).todo@ == old(d).todo@.push(Action::SpeedCeiling(given.size->0))),
        name@ == "speedlimit"@ ==> ((parsed_u64(trimmed(v@)) is None || parsed_u64(trimmed(v@))->0 > 100) && given.size is None ==> r is Err && *final(d) == *old(d)),
        name@ == "auto_speed"@ ==> (stores(r, Json::Bool(is_on(v@))) && final(d).speed.auto_speed == is_on(v@)),
        name@ == "auto_speed"@ ==> (is_on(v@) ==> final(d).speed.rate == old(d).speed.rate),
        name@ == "auto_speed"@ ==> (!is_on(v@) ==> final(d).speed.rate == old(d).speed.speed_ceiling),
        name@ == "bench_interval"@ ==> (parsed_u64(trimmed(v@)) matches Some(h) ==> (h <= 720 ==> stores(r, uint_json(h)) && final(d).speed.bench_interval == h)),
        name@ == "bench_interval"@ ==> (parsed_u64(trimmed(v@)) matches Some(h) ==> (h > 720 ==> r is Err && *final(d) == *old(d))),
        name@ == "bench_interval"@ ==> (parsed_u64(trimmed(v@)) is None ==> r is Err && *final(d) == *old(d)),
        name@ == "auto_prefetch"@ ==> (is_on(v@) ==> final(d).todo@ == old(d).todo@),
        name@ == "auto_prefetch"@ ==> (!is_on(v@) ==> final(d).todo@ == old(d).todo@.push(Action::StopSidecar)),
        name@ == "schedule"@ ==> (trimmed(v@).len() == 0 ==> stores(r, Json::Text(trimmed(v@))) && final(d).speed.schedule@.len() == 0 && final(d).todo@ == old(d).todo@),
        name@ == "schedule"@ ==> (trimmed(v@).len() > 0 && given.schedule is Err ==> r is Err && *final(d) == *old(d)),
        name@ == "schedule"@ ==> (trimmed(v@).len() > 0 && given.schedule is Ok ==> stores(r, Json::Text(trimmed(v@))) && final(d).speed.schedule == given.schedule->Ok_0.entries && final(d).speed.schedule_text@ == trimmed(v@)),
        name@ == "schedule"@ ==> (trimmed(v@).len() > 0 && given.schedule is Ok && given.schedule->Ok_0.paused == Some(true) && given.schedule->Ok_0.limit is None ==> final(d).todo@ == old(d).todo@.push(Action::Pause)),
        name@ == "schedule"@ ==> (trimmed(v@).len() > 0 && given.schedule is Ok && given.schedule->Ok_0.paused == Some(false) && given.schedule->Ok_0.limit is None ==> final(d).todo@ == old(d).todo@.push(Action::Resume)),
        name@ == "schedule"@ ==> (trimmed(v@).len() > 0 && given.schedule is Ok && given.schedule->Ok_0.limit is Some ==> final(d).todo@.last() == Action::ScheduleCeiling(given.schedule->Ok_0.limit->0)),
        name@ == "schedule"@ ==> (trimmed(v@).len() > 0 && given.schedule is Ok && given.schedule->Ok_0.limit is None && given.schedule->Ok_0.paused is None ==> final(d).todo@ == old(d).todo@),
{
    every_name_is_its_own_setting();
    if name@ == "speedlimit"@ {
        assert(key_named(name@) == Some(Key::Speedlimit));
        parsed_bounds(trimmed(v@), 10, u64::MAX as int);
    }
    if name@ == "auto_speed"@ {
        assert(key_named(name@) == Some(Key::AutoSpeed));
    }
    if name@ == "bench_interval"@ {
        assert(key_named(name@) == Some(Key::BenchInterval));
        parsed_bounds(trimmed(v@), 10, u64::MAX as int);
    }
    if name@ == "auto_prefetch"@ {
        assert(key_named(name@) == Some(Key::AutoPrefetch));
    }
    if name@ == "schedule"@ {
        assert(key_named(name@) == Some(Key::Schedule));
        if trimmed(v@).len() > 0 && given.schedule is Ok {
            let s = given.schedule->Ok_0;
            if s.paused == Some(true) && s.limit is None {
                assert(old(d).todo@ + seq![Action::Pause] =~= old(d).todo@.push(Action::Pause));
            }
            if s.paused == Some(false) && s.limit is None {
                assert(old(d).todo@ + seq![Action::Resume] =~= old(d).todo@.push(Action::Resume));
            }
            if s.paused is None && s.limit is None {
                assert(old(d).todo@ + Seq::<Action>::empty() =~= old(d).todo@);
            }
        }
    }
}

/// What setting the interface does: an address for updates is an http one or
/// empty, a language one of those there are or empty, and the history shows one
/// to two hundred rows.
pub proof fn what_setting_the_interface_does(
    d: &mut Daemon,
    name: &str,
    v: &str,
    given: Given,
    r: Outcome,
)
    requires
        call_ensures(apply_setting, (d, name, v, given), r),
    ensures
        name@ == "update_url"@ ==> (trimmed(v@).len() == 0 || has_prefix(trimmed(v@), "http://"@) || has_prefix(trimmed(v@), "https://"@) ==> stores(r, Json::Text(trimmed(v@))) && final(d).interface.update_url@ == trimmed(v@)),
        name@ == "update_url"@ ==> (trimmed(v@).len() > 0 && !has_prefix(trimmed(v@), "http://"@) && !has_prefix(trimmed(v@), "https://"@) ==> r is Err && *final(d) == *old(d)),
        name@ == "ui_locale"@ ==> (trimmed(v@).len() == 0 ==> final(d).interface.ui_locale@.len() == 0 && r is Ok),
        name@ == "ui_locale"@ ==> (old(d).words.ui_locales.deep_view().contains(lowered(trimmed(v@))) ==> stores(r, Json::Text(lowered(trimmed(v@)))) && final(d).interface.ui_locale@ == lowered(trimmed(v@))),
        name@ == "ui_locale"@ ==> (trimmed(v@).len() > 0 && !old(d).words.ui_locales.deep_view().contains(lowered(trimmed(v@))) ==> r is Err && *final(d) == *old(d)),
        name@ == "history_rows"@ ==> (parsed_u64(trimmed(v@)) matches Some(n) ==> (1 <= n <= 200 ==> stores(r, uint_json(n)) && final(d).interface.history_rows == n)),
        name@ == "history_rows"@ ==> (parsed_u64(trimmed(v@)) matches Some(n) ==> (n < 1 || n > 200 ==> r is Err && *final(d) == *old(d))),
        name@ == "history_rows"@ ==> (parsed_u64(trimmed(v@)) is None ==> r is Err && *final(d) == *old(d)),
{
    every_name_is_its_own_setting();
    if name@ == "update_url"@ {
        assert(key_named(name@) == Some(Key::UpdateUrl));
    }
    if name@ == "ui_locale"@ {
        assert(key_named(name@) == Some(Key::UiLocale));
    }
    if name@ == "history_rows"@ {
        assert(key_named(name@) == Some(Key::HistoryRows));
        parsed_bounds(trimmed(v@), 10, u64::MAX as int);
    }
}

/// What setting the paths does. A folder for downloads has to be there and
/// writable; one for finished downloads must not be the same; a port from one to
/// 65535 counts from the next start on, unless it is fixed; an empty path is
/// none.
pub proof fn what_setting_the_paths_does(
    d: &mut Daemon,
    name: &str,
    v: &str,
    given: Given,
    r: Outcome,
)
    requires
        call_ensures(apply_setting, (d, name, v, given), r),
    ensures
        name@ == "watch"@ ==> (stores(r, Json::Text(trimmed(v@)))),
        name@ == "watch"@ ==> (trimmed(v@).len() > 0 ==> final(d).paths.watch_dir.deep_view() == Some(trimmed(v@)) && final(d).todo@ == old(d).todo@.push(Action::CreateWatchDir)),
        name@ == "watch"@ ==> (trimmed(v@).len() == 0 ==> final(d).paths.watch_dir is None && final(d).todo@ == old(d).todo@),
        name@ == "script"@ ==> (stores(r, Json::Text(trimmed(v@)))),
        name@ == "script"@ ==> (trimmed(v@).len() > 0 ==> final(d).paths.script.deep_view() == Some(trimmed(v@))),
        name@ == "script"@ ==> (trimmed(v@).len() == 0 ==> final(d).paths.script is None),
        name@ == "script_timeout_secs"@ ==> (parsed_u64(trimmed(v@)) matches Some(n) ==> stores(r, uint_json(n)) && final(d).paths.script_timeout == n),
        name@ == "script_timeout_secs"@ ==> (parsed_u64(trimmed(v@)) is None ==> r is Err && *final(d) == *old(d)),
        name@ == "delete_to_trash"@ ==> (stores(r, Json::Bool(is_on(v@))) && final(d).paths.delete_to_trash == is_on(v@)),
        name@ == "watch_interval_secs"@ ==> (parsed_u64(trimmed(v@)) matches Some(n) ==> stores(r, uint_json(brought(n, 1, 3600))) && final(d).paths.watch_interval_secs == brought(n, 1, 3600) && final(d).todo@ == old(d).todo@.push(Action::WatchScan)),
        name@ == "watch_interval_secs"@ ==> (parsed_u64(trimmed(v@)) is None ==> r is Err && *final(d) == *old(d)),
        name@ == "port"@ ==> (parsed_u64(trimmed(v@)) matches Some(p) ==> (1 <= p <= 65535 && !old(d).paths.port_locked ==> stores_for_later(r, uint_json(p)) && *final(d) == *old(d))),
        name@ == "port"@ ==> (parsed_u64(trimmed(v@)) matches Some(p) ==> (p < 1 || p > 65535 ==> r is Err && *final(d) == *old(d))),
        name@ == "port"@ ==> (old(d).paths.port_locked ==> r is Err && *final(d) == *old(d)),
        name@ == "port"@ ==> (parsed_u64(trimmed(v@)) is None ==> r is Err && *final(d) == *old(d)),
        name@ == "mem_limit"@ ==> (given.size matches Some(b) ==> stores_for_later(r, uint_json(b as int)) && *final(d) == *old(d)),
        name@ == "mem_limit"@ ==> (given.size is None ==> r is Err && *final(d) == *old(d)),
        name@ == "index_db"@ ==> (trimmed(v@).len() > 0 ==> stores_for_later(r, Json::Text(trimmed(v@))) && *final(d) == *old(d)),
        name@ == "index_db"@ ==> (trimmed(v@).len() == 0 ==> r is Err && *final(d) == *old(d)),
        name@ == "out_dir"@ ==> (trimmed(v@).len() == 0 || given.dir.made is Err || !given.dir.writable ==> r is Err && *final(d) == *old(d)),
        name@ == "out_dir"@ ==> (trimmed(v@).len() > 0 && given.dir.made is Ok && given.dir.writable ==> stores(r, Json::Text(trimmed(v@))) && final(d).paths.out_root@ == trimmed(v@)),
        name@ == "move_completed"@ ==> (trimmed(v@).len() == 0 ==> stores(r, Json::Text(""@)) && final(d).paths.move_completed is None),
        name@ == "move_completed"@ ==> (trimmed(v@).len() > 0 && (given.dir.absolute is Err || given.dir.made is Err || !given.dir.writable || given.dir.is_out_root) ==> r is Err && *final(d) == *old(d)),
        name@ == "move_completed"@ ==> (trimmed(v@).len() > 0 && given.dir.absolute is Ok && given.dir.made is Ok && given.dir.writable && !given.dir.is_out_root ==> stores(r, Json::Text(trimmed(v@))) && final(d).paths.move_completed.deep_view() == Some(trimmed(v@))),
{
    every_name_is_its_own_setting();
    if name@ == "watch"@ {
        assert(key_named(name@) == Some(Key::Watch));
    }
    if name@ == "script"@ {
        assert(key_named(name@) == Some(Key::Script));
    }
    if name@ == "script_timeout_secs"@ {
        assert(key_named(name@) == Some(Key::ScriptTimeoutSecs));
        parsed_bounds(trimmed(v@), 10, u64::MAX as int);
    }
    if name@ == "delete_to_trash"@ {
        assert(key_named(name@) == Some(Key::DeleteToTrash));
    }
    if name@ == "watch_interval_secs"@ {
        assert(key_named(name@) == Some(Key::WatchIntervalSecs));
        parsed_bounds(trimmed(v@), 10, u64::MAX as int);
    }
    if name@ == "port"@ {
        assert(key_named(name@) == Some(Key::Port));
    }
    if name@ == "mem_limit"@ {
        assert(key_named(name@) == Some(Key::MemLimit));
    }
    if name@ == "index_db"@ {
        assert(key_named(name@) == Some(Key::IndexDb));
    }
    if name@ == "out_dir"@ {
        assert(key_named(name@) == Some(Key::OutDir));
    }
    if name@ == "move_completed"@ {
        assert(key_named(name@) == Some(Key::MoveCompleted));
    }
}

/// What setting the indexer does: turning it on applies the interests and
/// scans, turning it off closes the index; a paused one scans when it goes on;
/// the tip is off or five seconds at the least.
pub proof fn what_setting_the_indexer_does(
    d: &mut Daemon,
    name: &str,
    v: &str,
    given: Given,
    r: Outcome,
)
    requires
        call_ensures(apply_setting, (d, name, v, given), r),
    ensures
        name@ == "index_gapfill"@ ==> (parsed_u64(trimmed(v@)) matches Some(n) ==> (n <= 100 ==> stores(r, uint_json(n)) && final(d).indexing.index_gapfill == n)),
        name@ == "index_gapfill"@ ==> (parsed_u64(trimmed(v@)) matches Some(n) ==> (n > 100 ==> r is Err && *final(d) == *old(d))),
        name@ == "index_gapfill"@ ==> (parsed_u64(trimmed(v@)) is None ==> r is Err && *final(d) == *old(d)),
        name@ == "library_cats"@ ==> (stores(r, texts_json(list_of(v@, ","@))) && final(d).indexing.library_cats.deep_view() == list_of(v@, ","@)),
        name@ == "index_groups"@ ==> (stores(r, texts_json(list_of(v@, ","@))) && final(d).indexing.index_groups.deep_view() == list_of(v@, ","@)),
        name@ == "index_interests"@ ==> (stores(r, Json::Text(joined(given.interests.deep_view(), ","@))) && final(d).indexing.index_interests@ == joined(given.interests.deep_view(), ","@) && final(d).todo@ == old(d).todo@.push(Action::ApplyInterests)),
        name@ == "index_interests_applied"@ ==> (stores(r, Json::Text(trimmed(v@))) && final(d).indexing.index_interests_applied@ == trimmed(v@)),
        name@ == "index_tip_secs"@ ==> (parsed_u64(trimmed(v@)) matches Some(n) ==> (n > 0 ==> stores(r, uint_json(brought(n, 5, u64::MAX as int))) && final(d).indexing.index_tip_secs == brought(n, 5, u64::MAX as int))),
        name@ == "index_tip_secs"@ ==> (parsed_u64(trimmed(v@)) == Some(0int) ==> stores(r, uint_json(0)) && final(d).indexing.index_tip_secs == 0),
        name@ == "index_tip_secs"@ ==> (parsed_u64(trimmed(v@)) is None ==> r is Err && *final(d) == *old(d)),
        name@ == "index_paused"@ ==> (stores(r, Json::Bool(is_on(v@))) && final(d).indexing.index_paused == is_on(v@)),
        name@ == "index_paused"@ ==> (is_on(v@) ==> final(d).todo@ == old(d).todo@),
        name@ == "index_paused"@ ==> (!is_on(v@) ==> final(d).todo@ == old(d).todo@.push(Action::ScanNow)),
        name@ == "index_enabled"@ ==> (stores(r, Json::Bool(is_on(v@))) && final(d).indexing.index_enabled == is_on(v@)),
        name@ == "index_enabled"@ ==> (is_on(v@) ==> final(d).todo@ == old(d).todo@.push(Action::ApplyInterests).push(Action::ScanNow)),
        name@ == "index_enabled"@ ==> (!is_on(v@) ==> final(d).todo@ == old(d).todo@.push(Action::CloseIndex)),
        name@ == "spot_enabled"@ ==> (stores(r, Json::Bool(is_on(v@))) && final(d).indexing.spot_enabled == is_on(v@)),
        name@ == "spot_enabled"@ ==> (is_on(v@) ==> final(d).todo@ == old(d).todo@.push(Action::ScanNow)),
        name@ == "spot_enabled"@ ==> (!is_on(v@) ==> final(d).todo@ == old(d).todo@.push(Action::CloseIndex)),
        name@ == "spot_groups"@ ==> (stores(r, texts_json(list_of(v@, ", \n"@))) && final(d).indexing.spot_groups.deep_view() == list_of(v@, ", \n"@) && final(d).todo@ == old(d).todo@.push(Action::ScanNow)),
        name@ == "spot_backfill"@ ==> (parsed_u64(trimmed(v@)) matches Some(n) ==> stores(r, uint_json(brought(n, 1_000, 1_000_000))) && final(d).indexing.spot_backfill == brought(n, 1_000, 1_000_000)),
        name@ == "spot_backfill"@ ==> (parsed_u64(trimmed(v@)) is None ==> r is Err && *final(d) == *old(d)),
        name@ == "index_evict_order"@ ==> (old(d).words.evict_orders.deep_view().contains(lowered(trimmed(v@))) ==> stores(r, Json::Text(lowered(trimmed(v@)))) && final(d).indexing.index_evict_order@ == lowered(trimmed(v@))),
        name@ == "index_evict_order"@ ==> (!old(d).words.evict_orders.deep_view().contains(lowered(trimmed(v@))) ==> r is Err && *final(d) == *old(d)),
        name@ == "index_evict"@ ==> (stores(r, Json::Bool(is_on(v@))) && final(d).indexing.index_evict == is_on(v@)),
        name@ == "index_gates"@ ==> (trimmed(v@).len() > 0 && given.gates is Err ==> r is Err && *final(d) == *old(d)),
        name@ == "index_gates"@ ==> (trimmed(v@).len() == 0 || given.gates is Ok ==> stores(r, Json::Text(trimmed(v@))) && final(d).indexing.index_gates@ == trimmed(v@) && final(d).indexing.index_gates_on == (trimmed(v@).len() > 0)),
{
    every_name_is_its_own_setting();
    if name@ == "index_gapfill"@ {
        assert(key_named(name@) == Some(Key::IndexGapfill));
        parsed_bounds(trimmed(v@), 10, u64::MAX as int);
    }
    if name@ == "library_cats"@ {
        assert(key_named(name@) == Some(Key::LibraryCats));
    }
    if name@ == "index_groups"@ {
        assert(key_named(name@) == Some(Key::IndexGroups));
    }
    if name@ == "index_interests"@ {
        assert(key_named(name@) == Some(Key::IndexInterests));
    }
    if name@ == "index_interests_applied"@ {
        assert(key_named(name@) == Some(Key::IndexInterestsApplied));
    }
    if name@ == "index_tip_secs"@ {
        assert(key_named(name@) == Some(Key::IndexTipSecs));
        parsed_bounds(trimmed(v@), 10, u64::MAX as int);
    }
    if name@ == "index_paused"@ {
        assert(key_named(name@) == Some(Key::IndexPaused));
    }
    if name@ == "index_enabled"@ {
        assert(key_named(name@) == Some(Key::IndexEnabled));
    }
    if name@ == "spot_enabled"@ {
        assert(key_named(name@) == Some(Key::SpotEnabled));
    }
    if name@ == "spot_groups"@ {
        assert(key_named(name@) == Some(Key::SpotGroups));
    }
    if name@ == "spot_backfill"@ {
        assert(key_named(name@) == Some(Key::SpotBackfill));
        parsed_bounds(trimmed(v@), 10, u64::MAX as int);
    }
    if name@ == "index_evict_order"@ {
        assert(key_named(name@) == Some(Key::IndexEvictOrder));
    }
    if name@ == "index_evict"@ {
        assert(key_named(name@) == Some(Key::IndexEvict));
    }
    if name@ == "index_gates"@ {
        assert(key_named(name@) == Some(Key::IndexGates));
    }
}

/// What setting the pre feed does: turning it on or off forgets how it was
/// doing; the rows that it keeps stay within their bounds; a server is a host
/// without white space.
pub proof fn what_setting_the_pre_feed_does(
    d: &mut Daemon,
    name: &str,
    v: &str,
    given: Given,
    r: Outcome,
)
    requires
        call_ensures(apply_setting, (d, name, v, given), r),
    ensures
        name@ == "predb_enabled"@ ==> (stores(r, Json::Bool(is_on(v@))) && final(d).predb.enabled == is_on(v@)),
        name@ == "predb_enabled"@ ==> (is_on(v@) != old(d).predb.enabled ==> final(d).predb.status@.len() == 0),
        name@ == "predb_enabled"@ ==> (is_on(v@) == old(d).predb.enabled ==> final(d).predb.status@ == old(d).predb.status@),
        name@ == "predb_corr_enabled"@ ==> (stores(r, Json::Bool(is_on(v@))) && final(d).predb.corr_enabled == is_on(v@)),
        name@ == "predb_corr_auto"@ ==> (stores(r, Json::Bool(is_on(v@))) && final(d).predb.corr_auto == is_on(v@)),
        name@ == "predb_max_rows"@ ==> (parsed_u64(trimmed(v@)) matches Some(n) ==> stores(r, uint_json(brought(n, old(d).words.predb_rows_min as int, old(d).words.predb_rows_max as int))) && (old(d).words.predb_rows_min <= old(d).words.predb_rows_max ==> final(d).predb.max_rows == brought(n, old(d).words.predb_rows_min as int, old(d).words.predb_rows_max as int))),
        name@ == "predb_max_rows"@ ==> (parsed_u64(trimmed(v@)) is None ==> r is Err && *final(d) == *old(d)),
        name@ == "predb_server"@ ==> ((exists|i: int| 0 <= i < trimmed(v@).len() && crate::text::is_white(#[trigger] trimmed(v@)[i])) ==> r is Err && *final(d) == *old(d)),
        name@ == "predb_server"@ ==> (trimmed(v@).len() == 0 ==> stores(r, Json::Text(old(d).words.predb_host@)) && final(d).predb.server@ == old(d).words.predb_host@),
        name@ == "predb_server"@ ==> (trimmed(v@).len() > 0 && r is Ok ==> stores(r, Json::Text(trimmed(v@))) && final(d).predb.server@ == trimmed(v@)),
        name@ == "predb_server"@ ==> ((forall|i: int| 0 <= i < trimmed(v@).len() ==> !crate::text::is_white(#[trigger] trimmed(v@)[i]) && trimmed(v@)[i] != ':') ==> r is Ok),
{
    every_name_is_its_own_setting();
    if name@ == "predb_enabled"@ {
        assert(key_named(name@) == Some(Key::PredbEnabled));
    }
    if name@ == "predb_corr_enabled"@ {
        assert(key_named(name@) == Some(Key::PredbCorrEnabled));
    }
    if name@ == "predb_corr_auto"@ {
        assert(key_named(name@) == Some(Key::PredbCorrAuto));
    }
    if name@ == "predb_max_rows"@ {
        assert(key_named(name@) == Some(Key::PredbMaxRows));
        parsed_bounds(trimmed(v@), 10, u64::MAX as int);
    }
    if name@ == "predb_server"@ {
        assert(key_named(name@) == Some(Key::PredbServer));
        let s = trimmed(v@);
        if forall|i: int| 0 <= i < s.len() ==> !crate::text::is_white(#[trigger] s[i]) && s[i] != ':' {
            nothing_after_a_colon(s);
        }
    }
}

proof fn nothing_after_a_colon(s: Seq<char>)
    requires
        forall|i: int| 0 <= i < s.len() ==> #[trigger] s[i] != ':',
    ensures
        super::predb::after_colon(s) is None,
    decreases s.len(),
{
    if s.len() > 0 {
        assert(s.last() == s[s.len() - 1]);
        assert forall|i: int| 0 <= i < s.drop_last().len() implies #[trigger] s.drop_last()[i] != ':' by {
            assert(s.drop_last()[i] == s[i]);
        }
        nothing_after_a_colon(s.drop_last());
    }
}

/// What setting the automation does.
pub proof fn what_setting_the_automation_does(
    d: &mut Daemon,
    name: &str,
    v: &str,
    given: Given,
    r: Outcome,
)
    requires
        call_ensures(apply_setting, (d, name, v, given), r),
    ensures
        name@ == "watchlist_external"@ ==> (stores(r, Json::Bool(is_on(v@))) && final(d).automation.watchlist_external == is_on(v@)),
        name@ == "watchlist_external"@ ==> (final(d).automation.watchlist_external_set),
        name@ == "watchlist_instant"@ ==> (stores(r, Json::Bool(is_on(v@))) && final(d).automation.watchlist_instant == is_on(v@)),
        name@ == "watchlist_instant_max"@ ==> (parsed_u64(trimmed(v@)) matches Some(n) ==> stores(r, uint_json(brought(n, 0, 3600))) && final(d).automation.watchlist_instant_max == brought(n, 0, 3600)),
        name@ == "watchlist_instant_max"@ ==> (parsed_u64(trimmed(v@)) is None ==> r is Err && *final(d) == *old(d)),
        name@ == "watchlist"@ ==> (trimmed(v@).len() > 0 && given.list is Err ==> r is Err && *final(d) == *old(d)),
        name@ == "watchlist"@ ==> (trimmed(v@).len() > 0 && given.list is Ok ==> stores(r, Json::Array(jsons(given.list->Ok_0@))) && jsons(final(d).automation.watchlist@) == jsons(given.list->Ok_0@) && final(d).todo@ == old(d).todo@.push(Action::WatchlistNow)),
        name@ == "watchlist"@ ==> (trimmed(v@).len() == 0 ==> stores(r, Json::Array(Seq::empty())) && jsons(final(d).automation.watchlist@) == Seq::<Json>::empty() && final(d).todo@ == old(d).todo@.push(Action::WatchlistNow)),
        name@ == "smart_folders"@ ==> (trimmed(v@).len() > 0 && given.list is Err ==> r is Err && *final(d) == *old(d)),
        name@ == "smart_folders"@ ==> (trimmed(v@).len() > 0 && given.list is Ok ==> stores(r, Json::Array(jsons(given.list->Ok_0@))) && jsons(final(d).automation.smart_folders@) == jsons(given.list->Ok_0@)),
        name@ == "smart_folders"@ ==> (trimmed(v@).len() == 0 ==> stores(r, Json::Array(Seq::empty())) && jsons(final(d).automation.smart_folders@) == Seq::<Json>::empty()),
        name@ == "custom_categories"@ ==> (trimmed(v@).len() > 0 && given.list is Err ==> r is Err && *final(d) == *old(d)),
        name@ == "custom_categories"@ ==> (trimmed(v@).len() > 0 && given.list is Ok && given.categories_valid is Ok ==> stores(r, Json::Array(jsons(given.list->Ok_0@))) && jsons(final(d).automation.custom_categories@) == jsons(given.list->Ok_0@) && final(d).automation.reclassify_pending),
        name@ == "custom_categories"@ ==> (trimmed(v@).len() == 0 && given.categories_valid is Ok ==> stores(r, Json::Array(Seq::empty())) && jsons(final(d).automation.custom_categories@) == Seq::<Json>::empty() && final(d).automation.reclassify_pending),
        name@ == "custom_categories"@ ==> (given.categories_valid is Err ==> r is Err && *final(d) == *old(d)),
        name@ == "cleanup_exts"@ ==> (stores(r, texts_json(given.exts.deep_view())) && final(d).automation.cleanup_exts.deep_view() == given.exts.deep_view()),
        name@ == "password_file"@ ==> (given.password_file.made is Err ==> r is Err && *final(d) == *old(d)),
        name@ == "password_file"@ ==> (given.password_file.made is Ok && trimmed(v@).len() > 0 ==> stores(r, Json::Text(trimmed(v@))) && final(d).automation.password_file@ == trimmed(v@) && final(d).automation.unpack_password_file.deep_view() == Some(trimmed(v@))),
        name@ == "password_file"@ ==> (given.password_file.made is Ok && trimmed(v@).len() == 0 ==> final(d).automation.password_file@ == given.password_file.default_path@ && final(d).automation.unpack_password_file.deep_view() == Some(given.password_file.default_path@)),
        name@ == "prefer_quality"@ ==> (given.quality is Err ==> r is Err && *final(d) == *old(d)),
        name@ == "prefer_quality"@ ==> (given.quality is Ok ==> r is Ok && final(d).automation.quality_prefs == given.quality->Ok_0),
        name@ == "arr_giveup_threshold"@ ==> (parsed_u64(trimmed(v@)) matches Some(n) ==> stores(r, uint_json(brought(n, 0, 1000))) && final(d).automation.arr_giveup_threshold == brought(n, 0, 1000)),
        name@ == "arr_giveup_threshold"@ ==> (parsed_u64(trimmed(v@)) is None ==> r is Err && *final(d) == *old(d)),
        name@ == "fast_par"@ ==> (stores(r, Json::Bool(is_on(v@))) && final(d).automation.fast_par == is_on(v@)),
        name@ == "fast_par"@ ==> (final(d).todo@ == old(d).todo@.push(Action::FastPar(is_on(v@)))),
        name@ == "prefer_external_unrar"@ ==> (stores(r, Json::Bool(is_on(v@))) && final(d).automation.prefer_external_unrar == is_on(v@)),
        name@ == "prefer_external_unrar"@ ==> (final(d).todo@ == old(d).todo@.push(Action::ExternalUnrar(is_on(v@)))),
{
    every_name_is_its_own_setting();
    if name@ == "watchlist_external"@ {
        assert(key_named(name@) == Some(Key::WatchlistExternal));
    }
    if name@ == "watchlist_instant"@ {
        assert(key_named(name@) == Some(Key::WatchlistInstant));
    }
    if name@ == "watchlist_instant_max"@ {
        assert(key_named(name@) == Some(Key::WatchlistInstantMax));
        parsed_bounds(trimmed(v@), 10, u64::MAX as int);
    }
    if name@ == "watchlist"@ {
        assert(key_named(name@) == Some(Key::Watchlist));
    }
    if name@ == "smart_folders"@ {
        assert(key_named(name@) == Some(Key::SmartFolders));
    }
    if name@ == "custom_categories"@ {
        assert(key_named(name@) == Some(Key::CustomCategories));
    }
    if name@ == "custom_categories"@ {
        assert(key_named(name@) == Some(Key::CustomCategories));
    }
    if name@ == "cleanup_exts"@ {
        assert(key_named(name@) == Some(Key::CleanupExts));
    }
    if name@ == "password_file"@ {
        assert(key_named(name@) == Some(Key::PasswordFile));
    }
    if name@ == "prefer_quality"@ {
        assert(key_named(name@) == Some(Key::PreferQuality));
    }
    if name@ == "arr_giveup_threshold"@ {
        assert(key_named(name@) == Some(Key::ArrGiveupThreshold));
        parsed_bounds(trimmed(v@), 10, u64::MAX as int);
    }
    if name@ == "fast_par"@ {
        assert(key_named(name@) == Some(Key::FastPar));
    }
    if name@ == "prefer_external_unrar"@ {
        assert(key_named(name@) == Some(Key::PreferExternalUnrar));
    }
}

/// What setting a word does: it is one of its words, in any case and with white
/// space around it, or is refused.
pub proof fn what_setting_a_word_does(
    d: &mut Daemon,
    name: &str,
    v: &str,
    given: Given,
    r: Outcome,
)
    requires
        call_ensures(apply_setting, (d, name, v, given), r),
    ensures
        name@ == "password_prompt"@ ==> (lowered(trimmed(v@)) == "now"@ || lowered(trimmed(v@)) == "done"@ || lowered(trimmed(v@)) == "never"@ ==> stores(r, Json::Text(lowered(trimmed(v@)))) && final(d).automation.password_prompt@ == lowered(trimmed(v@))),
        name@ == "password_prompt"@ ==> (lowered(trimmed(v@)) != "now"@ && lowered(trimmed(v@)) != "done"@ && lowered(trimmed(v@)) != "never"@ ==> r is Err && *final(d) == *old(d)),
        name@ == "failure_link"@ ==> (lowered(trimmed(v@)) == "off"@ || lowered(trimmed(v@)) == "report"@ || lowered(trimmed(v@)) == "regrab"@ ==> stores(r, Json::Text(lowered(trimmed(v@)))) && final(d).automation.failure_link@ == lowered(trimmed(v@))),
        name@ == "failure_link"@ ==> (lowered(trimmed(v@)) != "off"@ && lowered(trimmed(v@)) != "report"@ && lowered(trimmed(v@)) != "regrab"@ ==> r is Err && *final(d) == *old(d)),
        name@ == "unpack_eat_volumes"@ ==> (lowered(trimmed(v@)) == "off"@ || lowered(trimmed(v@)) == "low_disk"@ || lowered(trimmed(v@)) == "always"@ ==> stores(r, Json::Text(lowered(trimmed(v@)))) && final(d).automation.unpack_eat_volumes@ == lowered(trimmed(v@))),
        name@ == "unpack_eat_volumes"@ ==> (lowered(trimmed(v@)) == "off"@ ==> final(d).todo@ == old(d).todo@.push(Action::Eat(EatMode::Off))),
        name@ == "unpack_eat_volumes"@ ==> (lowered(trimmed(v@)) == "low_disk"@ ==> final(d).todo@ == old(d).todo@.push(Action::Eat(EatMode::LowDisk))),
        name@ == "unpack_eat_volumes"@ ==> (lowered(trimmed(v@)) == "always"@ ==> final(d).todo@ == old(d).todo@.push(Action::Eat(EatMode::Always))),
        name@ == "unpack_eat_volumes"@ ==> (lowered(trimmed(v@)) != "off"@ && lowered(trimmed(v@)) != "low_disk"@ && lowered(trimmed(v@)) != "always"@ ==> r is Err && *final(d) == *old(d)),
{
    every_name_is_its_own_setting();
    if name@ == "password_prompt"@ {
        assert(key_named(name@) == Some(Key::PasswordPrompt));
    }
    if name@ == "failure_link"@ {
        assert(key_named(name@) == Some(Key::FailureLink));
    }
    if name@ == "unpack_eat_volumes"@ {
        assert(key_named(name@) == Some(Key::UnpackEatVolumes));
        reveal_strlit("off");
        reveal_strlit("low_disk");
        reveal_strlit("always");
        assert("off"@.len() != "low_disk"@.len() && "off"@.len() != "always"@.len() && "low_disk"@.len() != "always"@.len());
    }
}

/// What setting a key does: it is kept without the white space around it, and
/// an empty one is none. The key of the daemon is written to its file, or the
/// file removed.
pub proof fn what_setting_a_key_does(
    d: &mut Daemon,
    name: &str,
    v: &str,
    given: Given,
    r: Outcome,
)
    requires
        call_ensures(apply_setting, (d, name, v, given), r),
    ensures
        name@ == "apikey"@ ==> (trimmed(v@).len() > 0 ==> stores(r, Json::Text(trimmed(v@))) && final(d).keys.apikey.deep_view() == Some(trimmed(v@)) && final(d).todo@ == old(d).todo@.push(Action::WriteKeyFile)),
        name@ == "apikey"@ ==> (trimmed(v@).len() == 0 ==> stores(r, Json::Null) && final(d).keys.apikey is None && final(d).todo@ == old(d).todo@.push(Action::RemoveKeyFile)),
        name@ == "apikey"@ ==> (final(d).keys.nzbkey == old(d).keys.nzbkey && final(d).keys.omdb_key == old(d).keys.omdb_key),
        name@ == "nzbkey"@ ==> (trimmed(v@).len() > 0 ==> stores(r, Json::Text(trimmed(v@))) && final(d).keys.nzbkey.deep_view() == Some(trimmed(v@))),
        name@ == "nzbkey"@ ==> (trimmed(v@).len() == 0 ==> stores(r, Json::Null) && final(d).keys.nzbkey is None),
        name@ == "nzbkey"@ ==> (final(d).keys.apikey == old(d).keys.apikey && final(d).keys.omdb_key == old(d).keys.omdb_key),
        name@ == "omdb_key"@ ==> (trimmed(v@).len() > 0 ==> stores(r, Json::Text(trimmed(v@))) && final(d).keys.omdb_key.deep_view() == Some(trimmed(v@))),
        name@ == "omdb_key"@ ==> (trimmed(v@).len() == 0 ==> stores(r, Json::Null) && final(d).keys.omdb_key is None),
        name@ == "omdb_key"@ ==> (final(d).keys.apikey == old(d).keys.apikey && final(d).keys.nzbkey == old(d).keys.nzbkey),
{
    every_name_is_its_own_setting();
    if name@ == "apikey"@ {
        assert(key_named(name@) == Some(Key::Apikey));
    }
    if name@ == "nzbkey"@ {
        assert(key_named(name@) == Some(Key::Nzbkey));
    }
    if name@ == "omdb_key"@ {
        assert(key_named(name@) == Some(Key::OmdbKey));
    }
}

/// Two changes of the daemon's key, or of the key of uploads, must not
/// overlap; changes of anything else may.
pub proof fn which_changes_must_not_overlap(name: &str, r: bool)
    requires
        call_ensures(credential, (name,), r),
    ensures
        name@ == "apikey"@ ==> r,
        name@ == "nzbkey"@ ==> r,
        name@ != "apikey"@ && name@ != "nzbkey"@ ==> !r,
{
}

/// Under the name of a list of accounts it is that list that is set, from what
/// was read of it.
pub proof fn what_setting_a_list_of_accounts_does(
    d: &mut Daemon,
    name: &str,
    v: &str,
    given: Given,
    r: Outcome,
)
    requires
        call_ensures(apply_setting, (d, name, v, given), r),
    ensures
        name@ == "feeds"@ ==> feeds_set(*old(d), v@, given.feeds, r, *final(d)),
        name@ == "indexers"@ ==> indexers_set(*old(d), v@, given.indexers, r, *final(d)),
        name@ == "notify_targets"@ ==> notify_targets_set(
            *old(d),
            v@,
            given.targets,
            r,
            *final(d),
        ),
        name@ == "arr_instances"@ ==> arr_instances_set(
            *old(d),
            v@,
            given.instances,
            r,
            *final(d),
        ),
        name@ == "move_completed_cats"@ ==> move_completed_cats_set(
            *old(d),
            given.dests,
            r,
            *final(d),
        ),
        name@ == "categories"@ ==> categories_set(
            *old(d),
            v@,
            given.clean.deep_view(),
            r,
            *final(d),
        ),
        name@ == "index_evict_kinds"@ ==> index_evict_kinds_set(*old(d), v@, r, *final(d)),
        name@ == "predb_channels"@ ==> predb_channels_set(*old(d), v@, r, *final(d)),
        name@ == "predb_nick"@ ==> predb_nick_set(*old(d), v@, r, *final(d)),
{
    every_name_is_its_own_setting();
    assert(applied(*old(d), name@, v@, given, r, *final(d)));
}

/// What is only shown cannot be set: it is refused, and nothing changes.
pub proof fn what_is_only_shown_cannot_be_set(
    d: &mut Daemon,
    name: &str,
    v: &str,
    given: Given,
    r: Outcome,
)
    requires
        call_ensures(apply_setting, (d, name, v, given), r),
        name@ == "config_path"@ || name@ == "settings_path"@ || name@ == "mem_budget_total"@ || name@
            == "conntune"@ || name@ == "tune_hint"@ || name@ == "password_file_count"@ || name@
            == "has_apikey"@ || name@ == "has_nzbkey"@ || name@ == "has_omdb"@,
    ensures
        r is Err && *final(d) == *old(d),
{
    every_name_is_its_own_setting();
    assert(applied(*old(d), name@, v@, given, r, *final(d)));
}

} // verus!
