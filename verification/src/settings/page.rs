//! What the settings page shows of each setting, by its name.
use super::config::{
    config_value, indexers_shown, instances_shown, key_shown, targets_shown, ConfigCtx,
};
use super::key::{key_named, Key};
use super::lists::{indexers, instances, targets};
use super::named::{every_name_is_its_own_setting, every_switch_is_its_own_field};
use crate::daemon::{Count, Flag, Numbers};
use crate::text::octal3;
use crate::value::{jsons, texts_json, uint_json, Json, Value};
use vstd::prelude::*;

verus! {

/// The setting of that name.
#[verifier::opaque]
spec fn key_at(name: Seq<char>) -> Option<Key> {
    key_named(name)
}

proof fn keys_at()
    ensures
        key_at("speedlimit"@) == Some(Key::Speedlimit),
        key_at("auto_speed"@) == Some(Key::AutoSpeed),
        key_at("update_url"@) == Some(Key::UpdateUrl),
        key_at("ui_locale"@) == Some(Key::UiLocale),
        key_at("index_gapfill"@) == Some(Key::IndexGapfill),
        key_at("bench_interval"@) == Some(Key::BenchInterval),
        key_at("auto_prefetch"@) == Some(Key::AutoPrefetch),
        key_at("race_stragglers"@) == Some(Key::RaceStragglers),
        key_at("script_timeout_secs"@) == Some(Key::ScriptTimeoutSecs),
        key_at("history_rows"@) == Some(Key::HistoryRows),
        key_at("connections"@) == Some(Key::Connections),
        key_at("fast_verify"@) == Some(Key::FastVerify),
        key_at("verify_mode"@) == Some(Key::VerifyMode),
        key_at("out_umask"@) == Some(Key::OutUmask),
        key_at("auto_retry_mins"@) == Some(Key::AutoRetryMins),
        key_at("quota_period"@) == Some(Key::QuotaPeriod),
        key_at("watch"@) == Some(Key::Watch),
        key_at("script"@) == Some(Key::Script),
        key_at("schedule"@) == Some(Key::Schedule),
        key_at("library_cats"@) == Some(Key::LibraryCats),
        key_at("index_groups"@) == Some(Key::IndexGroups),
        key_at("index_interests"@) == Some(Key::IndexInterests),
        key_at("index_interests_applied"@) == Some(Key::IndexInterestsApplied),
        key_at("delete_to_trash"@) == Some(Key::DeleteToTrash),
        key_at("watch_interval_secs"@) == Some(Key::WatchIntervalSecs),
        key_at("index_tip_secs"@) == Some(Key::IndexTipSecs),
        key_at("nested_max_depth"@) == Some(Key::NestedMaxDepth),
        key_at("predb_enabled"@) == Some(Key::PredbEnabled),
        key_at("predb_corr_enabled"@) == Some(Key::PredbCorrEnabled),
        key_at("predb_corr_auto"@) == Some(Key::PredbCorrAuto),
        key_at("predb_max_rows"@) == Some(Key::PredbMaxRows),
        key_at("predb_server"@) == Some(Key::PredbServer),
        key_at("predb_channels"@) == Some(Key::PredbChannels),
        key_at("predb_nick"@) == Some(Key::PredbNick),
        key_at("index_paused"@) == Some(Key::IndexPaused),
        key_at("index_enabled"@) == Some(Key::IndexEnabled),
        key_at("spot_enabled"@) == Some(Key::SpotEnabled),
        key_at("spot_groups"@) == Some(Key::SpotGroups),
        key_at("spot_backfill"@) == Some(Key::SpotBackfill),
        key_at("index_evict_order"@) == Some(Key::IndexEvictOrder),
        key_at("index_evict_kinds"@) == Some(Key::IndexEvictKinds),
        key_at("index_evict"@) == Some(Key::IndexEvict),
        key_at("index_gates"@) == Some(Key::IndexGates),
        key_at("apikey"@) == Some(Key::Apikey),
        key_at("nzbkey"@) == Some(Key::Nzbkey),
        key_at("omdb_key"@) == Some(Key::OmdbKey),
        key_at("feeds"@) == Some(Key::Feeds),
        key_at("indexers"@) == Some(Key::Indexers),
        key_at("watchlist_external"@) == Some(Key::WatchlistExternal),
        key_at("watchlist_instant"@) == Some(Key::WatchlistInstant),
        key_at("watchlist_instant_max"@) == Some(Key::WatchlistInstantMax),
        key_at("watchlist"@) == Some(Key::Watchlist),
        key_at("smart_folders"@) == Some(Key::SmartFolders),
        key_at("cleanup_exts"@) == Some(Key::CleanupExts),
        key_at("password_file"@) == Some(Key::PasswordFile),
        key_at("password_prompt"@) == Some(Key::PasswordPrompt),
        key_at("unpack_eat_volumes"@) == Some(Key::UnpackEatVolumes),
        key_at("fast_par"@) == Some(Key::FastPar),
        key_at("prefer_external_unrar"@) == Some(Key::PreferExternalUnrar),
        key_at("custom_categories"@) == Some(Key::CustomCategories),
        key_at("failure_link"@) == Some(Key::FailureLink),
        key_at("prefer_quality"@) == Some(Key::PreferQuality),
        key_at("notify_targets"@) == Some(Key::NotifyTargets),
        key_at("arr_giveup_threshold"@) == Some(Key::ArrGiveupThreshold),
        key_at("arr_instances"@) == Some(Key::ArrInstances),
        key_at("mem_limit"@) == Some(Key::MemLimit),
        key_at("port"@) == Some(Key::Port),
        key_at("out_dir"@) == Some(Key::OutDir),
        key_at("move_completed"@) == Some(Key::MoveCompleted),
        key_at("move_completed_cats"@) == Some(Key::MoveCompletedCats),
        key_at("categories"@) == Some(Key::Categories),
        key_at("index_db"@) == Some(Key::IndexDb),
        key_at("config_path"@) == Some(Key::ConfigPath),
        key_at("settings_path"@) == Some(Key::SettingsPath),
        key_at("mem_budget_total"@) == Some(Key::MemBudgetTotal),
        key_at("conntune"@) == Some(Key::Conntune),
        key_at("tune_hint"@) == Some(Key::TuneHint),
        key_at("password_file_count"@) == Some(Key::PasswordFileCount),
        key_at("has_apikey"@) == Some(Key::HasApikey),
        key_at("has_nzbkey"@) == Some(Key::HasNzbkey),
        key_at("has_omdb"@) == Some(Key::HasOmdb),
        key_at("auto_defer"@) == Some(Key::Switch(Flag::AutoDefer)),
        key_at("post_health"@) == Some(Key::Switch(Flag::PostHealth)),
        key_at("post_health_defer"@) == Some(Key::Switch(Flag::PostHealthDefer)),
        key_at("wall_hide_adult"@) == Some(Key::Switch(Flag::WallHideAdult)),
        key_at("auto_connections"@) == Some(Key::Switch(Flag::AutoConnections)),
        key_at("update_checks"@) == Some(Key::Switch(Flag::UpdateChecks)),
        key_at("unit_bits"@) == Some(Key::Switch(Flag::UnitBits)),
        key_at("index_coverage"@) == Some(Key::Switch(Flag::IndexCoverage)),
        key_at("adaptive_timeouts"@) == Some(Key::Switch(Flag::AdaptiveTimeouts)),
        key_at("oracle_route"@) == Some(Key::Switch(Flag::OracleRoute)),
        key_at("auto_rename"@) == Some(Key::Switch(Flag::AutoRename)),
        key_at("identity_lookup"@) == Some(Key::Switch(Flag::IdentityLookup)),
        key_at("rename_resolution"@) == Some(Key::Switch(Flag::RenameResolution)),
        key_at("rename_vcodec"@) == Some(Key::Switch(Flag::RenameVcodec)),
        key_at("rename_acodec"@) == Some(Key::Switch(Flag::RenameAcodec)),
        key_at("rename_source"@) == Some(Key::Switch(Flag::RenameSource)),
        key_at("rename_group"@) == Some(Key::Switch(Flag::RenameGroup)),
        key_at("rename_year_parens"@) == Some(Key::Switch(Flag::RenameYearParens)),
        key_at("rename_quality_brackets"@) == Some(Key::Switch(Flag::RenameQualityBrackets)),
        key_at("rename_extra_words"@) == Some(Key::Switch(Flag::RenameExtraWords)),
        key_at("rename_identify"@) == Some(Key::Switch(Flag::RenameIdentify)),
        key_at("rename_episode_titles"@) == Some(Key::Switch(Flag::RenameEpisodeTitles)),
        key_at("history_color_names"@) == Some(Key::Switch(Flag::HistoryColorNames)),
        key_at("media_chip_color"@) == Some(Key::Switch(Flag::MediaChipColor)),
        key_at("shape_chip_color"@) == Some(Key::Switch(Flag::ShapeChipColor)),
        key_at("rename_junk"@) == Some(Key::Switch(Flag::RenameJunk)),
        key_at("rename_media_only"@) == Some(Key::Switch(Flag::RenameMediaOnly)),
        key_at("group_desc_isc"@) == Some(Key::Switch(Flag::GroupDescIsc)),
        key_at("index_retention"@) == Some(Key::Switch(Flag::IndexRetention)),
        key_at("index_pause_on_download"@) == Some(Key::Switch(Flag::IndexPauseOnDownload)),
        key_at("par_cleanup"@) == Some(Key::Switch(Flag::ParCleanup)),
        key_at("watch_keep_nzb"@) == Some(Key::Switch(Flag::WatchKeepNzb)),
        key_at("index_deepen"@) == Some(Key::Number(Count::IndexDeepen)),
        key_at("index_backfill"@) == Some(Key::Number(Count::IndexBackfill)),
        key_at("index_max_age_secs"@) == Some(Key::Number(Count::IndexMaxAgeSecs)),
        key_at("window"@) == Some(Key::Number(Count::Window)),
        key_at("decoders"@) == Some(Key::Number(Count::Decoders)),
        key_at("library_recheck_secs"@) == Some(Key::Number(Count::LibraryRecheckSecs)),
        key_at("index_interval_secs"@) == Some(Key::Number(Count::IndexIntervalSecs)),
        key_at("index_scan_par"@) == Some(Key::Number(Count::IndexScanPar)),
        key_at("oracle_sample"@) == Some(Key::Number(Count::OracleSample)),
        key_at("predb_seed_days"@) == Some(Key::Number(Count::PredbSeedDays)),
        key_at("line_speed"@) == Some(Key::Size(Count::LineSpeed)),
        key_at("min_free"@) == Some(Key::Size(Count::MinFree)),
        key_at("quota"@) == Some(Key::Size(Count::Quota)),
        key_at("index_max_bytes"@) == Some(Key::Size(Count::IndexMaxBytes)),
{
    reveal(key_at);
    every_name_is_its_own_setting();
}

/// What the page shows under the name of a setting.
proof fn page_of(c: &ConfigCtx, name: &str, r: Option<Value>, k: Key)
    requires
        call_ensures(config_value, (c, name), r),
        key_at(name@) == Some(k),
    ensures
        match r {
            Some(v) => key_shown(*c, k) == Some(v@),
            None => key_shown(*c, k) is None,
        },
{
    reveal(key_at);
}

/// The page shows that.
pub open spec fn shows(r: Option<Value>, j: Json) -> bool {
    r is Some && r->0@ == j
}

/// Under the name of a switch the page shows whether it is on.
pub proof fn the_page_shows_each_switch(c: &ConfigCtx, name: &str, r: Option<Value>)
    requires
        call_ensures(config_value, (c, name), r),
    ensures
        name@ == "auto_defer"@ ==> shows(r, Json::Bool(c.d.switches.auto_defer)),
        name@ == "post_health"@ ==> shows(r, Json::Bool(c.d.switches.post_health)),
        name@ == "post_health_defer"@ ==> shows(r, Json::Bool(c.d.switches.post_health_defer)),
        name@ == "wall_hide_adult"@ ==> shows(r, Json::Bool(c.d.switches.wall_hide_adult)),
        name@ == "auto_connections"@ ==> shows(r, Json::Bool(c.d.switches.auto_connections)),
        name@ == "update_checks"@ ==> shows(r, Json::Bool(c.d.switches.update_checks)),
        name@ == "unit_bits"@ ==> shows(r, Json::Bool(c.d.switches.unit_bits)),
        name@ == "index_coverage"@ ==> shows(r, Json::Bool(c.d.switches.index_coverage)),
        name@ == "auto_prefetch"@ ==> shows(r, Json::Bool(c.d.switches.auto_prefetch)),
        name@ == "race_stragglers"@ ==> shows(r, Json::Bool(c.d.switches.race_stragglers)),
        name@ == "adaptive_timeouts"@ ==> shows(r, Json::Bool(c.d.switches.adaptive_timeouts)),
        name@ == "oracle_route"@ ==> shows(r, Json::Bool(c.d.switches.oracle_route)),
        name@ == "auto_rename"@ ==> shows(r, Json::Bool(c.d.switches.auto_rename)),
        name@ == "identity_lookup"@ ==> shows(r, Json::Bool(c.d.switches.identity_lookup)),
        name@ == "rename_resolution"@ ==> shows(r, Json::Bool(c.d.switches.rename_resolution)),
        name@ == "rename_vcodec"@ ==> shows(r, Json::Bool(c.d.switches.rename_vcodec)),
        name@ == "rename_acodec"@ ==> shows(r, Json::Bool(c.d.switches.rename_acodec)),
        name@ == "rename_source"@ ==> shows(r, Json::Bool(c.d.switches.rename_source)),
        name@ == "rename_group"@ ==> shows(r, Json::Bool(c.d.switches.rename_group)),
        name@ == "rename_year_parens"@ ==> shows(r, Json::Bool(c.d.switches.rename_year_parens)),
        name@ == "rename_quality_brackets"@ ==> shows(r, Json::Bool(c.d.switches.rename_quality_brackets)),
        name@ == "rename_extra_words"@ ==> shows(r, Json::Bool(c.d.switches.rename_extra_words)),
        name@ == "rename_identify"@ ==> shows(r, Json::Bool(c.d.switches.rename_identify)),
        name@ == "rename_episode_titles"@ ==> shows(r, Json::Bool(c.d.switches.rename_episode_titles)),
        name@ == "history_color_names"@ ==> shows(r, Json::Bool(c.d.switches.history_color_names)),
        name@ == "media_chip_color"@ ==> shows(r, Json::Bool(c.d.switches.media_chip_color)),
        name@ == "shape_chip_color"@ ==> shows(r, Json::Bool(c.d.switches.shape_chip_color)),
        name@ == "rename_junk"@ ==> shows(r, Json::Bool(c.d.switches.rename_junk)),
        name@ == "rename_media_only"@ ==> shows(r, Json::Bool(c.d.switches.rename_media_only)),
        name@ == "group_desc_isc"@ ==> shows(r, Json::Bool(c.d.switches.group_desc_isc)),
        name@ == "index_retention"@ ==> shows(r, Json::Bool(c.d.switches.index_retention)),
        name@ == "index_pause_on_download"@ ==> shows(r, Json::Bool(c.d.switches.index_pause_on_download)),
        name@ == "par_cleanup"@ ==> shows(r, Json::Bool(c.d.switches.par_cleanup)),
        name@ == "watch_keep_nzb"@ ==> shows(r, Json::Bool(c.d.switches.watch_keep_nzb)),
{
    keys_at();
    every_switch_is_its_own_field(c.d.switches);
    if name@ == "auto_defer"@ {
        page_of(c, name, r, Key::Switch(Flag::AutoDefer));
    }
    if name@ == "post_health"@ {
        page_of(c, name, r, Key::Switch(Flag::PostHealth));
    }
    if name@ == "post_health_defer"@ {
        page_of(c, name, r, Key::Switch(Flag::PostHealthDefer));
    }
    if name@ == "wall_hide_adult"@ {
        page_of(c, name, r, Key::Switch(Flag::WallHideAdult));
    }
    if name@ == "auto_connections"@ {
        page_of(c, name, r, Key::Switch(Flag::AutoConnections));
    }
    if name@ == "update_checks"@ {
        page_of(c, name, r, Key::Switch(Flag::UpdateChecks));
    }
    if name@ == "unit_bits"@ {
        page_of(c, name, r, Key::Switch(Flag::UnitBits));
    }
    if name@ == "index_coverage"@ {
        page_of(c, name, r, Key::Switch(Flag::IndexCoverage));
    }
    if name@ == "auto_prefetch"@ {
        page_of(c, name, r, Key::AutoPrefetch);
    }
    if name@ == "race_stragglers"@ {
        page_of(c, name, r, Key::RaceStragglers);
    }
    if name@ == "adaptive_timeouts"@ {
        page_of(c, name, r, Key::Switch(Flag::AdaptiveTimeouts));
    }
    if name@ == "oracle_route"@ {
        page_of(c, name, r, Key::Switch(Flag::OracleRoute));
    }
    if name@ == "auto_rename"@ {
        page_of(c, name, r, Key::Switch(Flag::AutoRename));
    }
    if name@ == "identity_lookup"@ {
        page_of(c, name, r, Key::Switch(Flag::IdentityLookup));
    }
    if name@ == "rename_resolution"@ {
        page_of(c, name, r, Key::Switch(Flag::RenameResolution));
    }
    if name@ == "rename_vcodec"@ {
        page_of(c, name, r, Key::Switch(Flag::RenameVcodec));
    }
    if name@ == "rename_acodec"@ {
        page_of(c, name, r, Key::Switch(Flag::RenameAcodec));
    }
    if name@ == "rename_source"@ {
        page_of(c, name, r, Key::Switch(Flag::RenameSource));
    }
    if name@ == "rename_group"@ {
        page_of(c, name, r, Key::Switch(Flag::RenameGroup));
    }
    if name@ == "rename_year_parens"@ {
        page_of(c, name, r, Key::Switch(Flag::RenameYearParens));
    }
    if name@ == "rename_quality_brackets"@ {
        page_of(c, name, r, Key::Switch(Flag::RenameQualityBrackets));
    }
    if name@ == "rename_extra_words"@ {
        page_of(c, name, r, Key::Switch(Flag::RenameExtraWords));
    }
    if name@ == "rename_identify"@ {
        page_of(c, name, r, Key::Switch(Flag::RenameIdentify));
    }
    if name@ == "rename_episode_titles"@ {
        page_of(c, name, r, Key::Switch(Flag::RenameEpisodeTitles));
    }
    if name@ == "history_color_names"@ {
        page_of(c, name, r, Key::Switch(Flag::HistoryColorNames));
    }
    if name@ == "media_chip_color"@ {
        page_of(c, name, r, Key::Switch(Flag::MediaChipColor));
    }
    if name@ == "shape_chip_color"@ {
        page_of(c, name, r, Key::Switch(Flag::ShapeChipColor));
    }
    if name@ == "rename_junk"@ {
        page_of(c, name, r, Key::Switch(Flag::RenameJunk));
    }
    if name@ == "rename_media_only"@ {
        page_of(c, name, r, Key::Switch(Flag::RenameMediaOnly));
    }
    if name@ == "group_desc_isc"@ {
        page_of(c, name, r, Key::Switch(Flag::GroupDescIsc));
    }
    if name@ == "index_retention"@ {
        page_of(c, name, r, Key::Switch(Flag::IndexRetention));
    }
    if name@ == "index_pause_on_download"@ {
        page_of(c, name, r, Key::Switch(Flag::IndexPauseOnDownload));
    }
    if name@ == "par_cleanup"@ {
        page_of(c, name, r, Key::Switch(Flag::ParCleanup));
    }
    if name@ == "watch_keep_nzb"@ {
        page_of(c, name, r, Key::Switch(Flag::WatchKeepNzb));
    }
}

/// Under the name of a number the page shows it.
pub proof fn the_page_shows_each_number(c: &ConfigCtx, name: &str, r: Option<Value>)
    requires
        call_ensures(config_value, (c, name), r),
    ensures
        name@ == "index_deepen"@ ==> shows(r, uint_json(c.d.numbers.index_deepen as int)),
        name@ == "index_backfill"@ ==> shows(r, uint_json(c.d.numbers.index_backfill as int)),
        name@ == "index_max_age_secs"@ ==> shows(r, uint_json(c.d.numbers.index_max_age_secs as int)),
        name@ == "window"@ ==> shows(r, uint_json(c.d.numbers.window as int)),
        name@ == "decoders"@ ==> shows(r, uint_json(c.d.numbers.decoders as int)),
        name@ == "library_recheck_secs"@ ==> shows(r, uint_json(c.d.numbers.library_recheck_secs as int)),
        name@ == "index_interval_secs"@ ==> shows(r, uint_json(c.d.numbers.index_interval_secs as int)),
        name@ == "index_scan_par"@ ==> shows(r, uint_json(c.d.numbers.index_scan_par as int)),
        name@ == "oracle_sample"@ ==> shows(r, uint_json(c.d.numbers.oracle_sample as int)),
        name@ == "predb_seed_days"@ ==> shows(r, uint_json(c.d.numbers.predb_seed_days as int)),
        name@ == "line_speed"@ ==> shows(r, uint_json(c.d.numbers.line_speed as int)),
        name@ == "min_free"@ ==> shows(r, uint_json(c.d.numbers.min_free as int)),
        name@ == "quota"@ ==> shows(r, uint_json(c.d.numbers.quota as int)),
        name@ == "index_max_bytes"@ ==> shows(r, uint_json(c.d.numbers.index_max_bytes as int)),
{
    keys_at();
    reveal(Numbers::of);
    if name@ == "index_deepen"@ {
        page_of(c, name, r, Key::Number(Count::IndexDeepen));
    }
    if name@ == "index_backfill"@ {
        page_of(c, name, r, Key::Number(Count::IndexBackfill));
    }
    if name@ == "index_max_age_secs"@ {
        page_of(c, name, r, Key::Number(Count::IndexMaxAgeSecs));
    }
    if name@ == "window"@ {
        page_of(c, name, r, Key::Number(Count::Window));
    }
    if name@ == "decoders"@ {
        page_of(c, name, r, Key::Number(Count::Decoders));
    }
    if name@ == "library_recheck_secs"@ {
        page_of(c, name, r, Key::Number(Count::LibraryRecheckSecs));
    }
    if name@ == "index_interval_secs"@ {
        page_of(c, name, r, Key::Number(Count::IndexIntervalSecs));
    }
    if name@ == "index_scan_par"@ {
        page_of(c, name, r, Key::Number(Count::IndexScanPar));
    }
    if name@ == "oracle_sample"@ {
        page_of(c, name, r, Key::Number(Count::OracleSample));
    }
    if name@ == "predb_seed_days"@ {
        page_of(c, name, r, Key::Number(Count::PredbSeedDays));
    }
    if name@ == "line_speed"@ {
        page_of(c, name, r, Key::Size(Count::LineSpeed));
    }
    if name@ == "min_free"@ {
        page_of(c, name, r, Key::Size(Count::MinFree));
    }
    if name@ == "quota"@ {
        page_of(c, name, r, Key::Size(Count::Quota));
    }
    if name@ == "index_max_bytes"@ {
        page_of(c, name, r, Key::Size(Count::IndexMaxBytes));
    }
}

/// Under the name of a path the page shows it.
pub proof fn the_page_shows_each_path(c: &ConfigCtx, name: &str, r: Option<Value>)
    requires
        call_ensures(config_value, (c, name), r),
    ensures
        name@ == "port"@ ==> shows(r, uint_json(c.d.paths.port as int)),
        name@ == "out_dir"@ ==> shows(r, Json::Text(c.d.paths.out_root@)),
        name@ == "watch_interval_secs"@ ==> shows(r, uint_json(c.d.paths.watch_interval_secs as int)),
        name@ == "delete_to_trash"@ ==> shows(r, Json::Bool(c.d.paths.delete_to_trash)),
        name@ == "script_timeout_secs"@ ==> shows(r, uint_json(c.d.paths.script_timeout as int)),
        name@ == "index_db"@ ==> shows(r, Json::Text(c.d.paths.index_db@)),
        name@ == "config_path"@ ==> shows(r, Json::Text(c.d.paths.cfg_path@)),
        name@ == "settings_path"@ ==> shows(r, Json::Text(c.d.paths.settings_path@)),
        name@ == "move_completed"@ ==> (c.d.paths.move_completed is None ==> r is Some && r->0@ is Text && r->0@->Text_0.len() == 0),
        name@ == "move_completed"@ ==> (c.d.paths.move_completed matches Some(p) ==> shows(r, Json::Text(p@))),
        name@ == "watch"@ ==> (c.d.paths.watch_dir is None ==> r is Some && r->0@ is Text && r->0@->Text_0.len() == 0),
        name@ == "watch"@ ==> (c.d.paths.watch_dir matches Some(p) ==> shows(r, Json::Text(p@))),
        name@ == "script"@ ==> (c.d.paths.script is None ==> r is Some && r->0@ is Text && r->0@->Text_0.len() == 0),
        name@ == "script"@ ==> (c.d.paths.script matches Some(p) ==> shows(r, Json::Text(p@))),
{
    keys_at();
    if name@ == "port"@ {
        page_of(c, name, r, Key::Port);
    }
    if name@ == "out_dir"@ {
        page_of(c, name, r, Key::OutDir);
    }
    if name@ == "watch_interval_secs"@ {
        page_of(c, name, r, Key::WatchIntervalSecs);
    }
    if name@ == "delete_to_trash"@ {
        page_of(c, name, r, Key::DeleteToTrash);
    }
    if name@ == "script_timeout_secs"@ {
        page_of(c, name, r, Key::ScriptTimeoutSecs);
    }
    if name@ == "index_db"@ {
        page_of(c, name, r, Key::IndexDb);
    }
    if name@ == "config_path"@ {
        page_of(c, name, r, Key::ConfigPath);
    }
    if name@ == "settings_path"@ {
        page_of(c, name, r, Key::SettingsPath);
    }
    if name@ == "move_completed"@ {
        page_of(c, name, r, Key::MoveCompleted);
    }
    if name@ == "watch"@ {
        page_of(c, name, r, Key::Watch);
    }
    if name@ == "script"@ {
        page_of(c, name, r, Key::Script);
    }
}

/// What the page shows of the engine and of speed: a retry in minutes.
pub proof fn the_page_shows_the_engine(c: &ConfigCtx, name: &str, r: Option<Value>)
    requires
        call_ensures(config_value, (c, name), r),
    ensures
        name@ == "connections"@ ==> shows(r, uint_json(c.d.engine.connections as int)),
        name@ == "fast_verify"@ ==> shows(r, Json::Bool(c.d.engine.fast_verify)),
        name@ == "auto_retry_mins"@ ==> shows(r, uint_json(c.d.engine.auto_retry_secs as int / 60)),
        name@ == "quota_period"@ ==> shows(r, Json::Text(seq![c.d.engine.quota_period as char])),
        name@ == "nested_max_depth"@ ==> shows(r, uint_json(c.d.engine.nested_max_depth as int)),
        name@ == "mem_limit"@ ==> shows(r, uint_json(c.mem_limit as int)),
        name@ == "mem_budget_total"@ ==> shows(r, uint_json(c.d.engine.mem_budget_total as int)),
        name@ == "speedlimit"@ ==> shows(r, uint_json(c.d.speed.speed_ceiling as int)),
        name@ == "auto_speed"@ ==> shows(r, Json::Bool(c.d.speed.auto_speed)),
        name@ == "conntune"@ ==> shows(r, c.conntune@),
        name@ == "tune_hint"@ ==> shows(r, Json::Text(c.d.speed.tune_hint@)),
        name@ == "bench_interval"@ ==> shows(r, uint_json(c.d.speed.bench_interval as int)),
        name@ == "schedule"@ ==> shows(r, Json::Text(c.d.speed.schedule_text@)),
        name@ == "history_rows"@ ==> shows(r, uint_json(c.d.interface.history_rows as int)),
        name@ == "verify_mode"@ ==> (!c.d.engine.fast_verify ==> shows(r, Json::Text("full"@))),
        name@ == "verify_mode"@ ==> (c.d.engine.fast_verify && !c.d.engine.verify_lean ==> shows(r, Json::Text("fast"@))),
        name@ == "verify_mode"@ ==> (c.d.engine.fast_verify && c.d.engine.verify_lean ==> shows(r, Json::Text("lean"@))),
        name@ == "out_umask"@ ==> (c.d.engine.out_umask <= 511 ==> shows(r, Json::Text(octal3(c.d.engine.out_umask as int)))),
        name@ == "out_umask"@ ==> (c.d.engine.out_umask > 511 ==> r is Some && r->0@ is Text && r->0@->Text_0.len() == 0),
{
    keys_at();
    if name@ == "connections"@ {
        page_of(c, name, r, Key::Connections);
    }
    if name@ == "fast_verify"@ {
        page_of(c, name, r, Key::FastVerify);
    }
    if name@ == "auto_retry_mins"@ {
        page_of(c, name, r, Key::AutoRetryMins);
    }
    if name@ == "quota_period"@ {
        page_of(c, name, r, Key::QuotaPeriod);
    }
    if name@ == "nested_max_depth"@ {
        page_of(c, name, r, Key::NestedMaxDepth);
    }
    if name@ == "mem_limit"@ {
        page_of(c, name, r, Key::MemLimit);
    }
    if name@ == "mem_budget_total"@ {
        page_of(c, name, r, Key::MemBudgetTotal);
    }
    if name@ == "speedlimit"@ {
        page_of(c, name, r, Key::Speedlimit);
    }
    if name@ == "auto_speed"@ {
        page_of(c, name, r, Key::AutoSpeed);
    }
    if name@ == "conntune"@ {
        page_of(c, name, r, Key::Conntune);
    }
    if name@ == "tune_hint"@ {
        page_of(c, name, r, Key::TuneHint);
    }
    if name@ == "bench_interval"@ {
        page_of(c, name, r, Key::BenchInterval);
    }
    if name@ == "schedule"@ {
        page_of(c, name, r, Key::Schedule);
    }
    if name@ == "history_rows"@ {
        page_of(c, name, r, Key::HistoryRows);
    }
    if name@ == "verify_mode"@ {
        page_of(c, name, r, Key::VerifyMode);
    }
    if name@ == "out_umask"@ {
        page_of(c, name, r, Key::OutUmask);
    }
}

/// What the page shows of the indexer and of the pre feed.
pub proof fn the_page_shows_the_indexer(c: &ConfigCtx, name: &str, r: Option<Value>)
    requires
        call_ensures(config_value, (c, name), r),
    ensures
        name@ == "index_enabled"@ ==> shows(r, Json::Bool(c.d.indexing.index_enabled)),
        name@ == "spot_enabled"@ ==> shows(r, Json::Bool(c.d.indexing.spot_enabled)),
        name@ == "spot_groups"@ ==> shows(r, texts_json(c.d.indexing.spot_groups.deep_view())),
        name@ == "spot_backfill"@ ==> shows(r, uint_json(c.d.indexing.spot_backfill as int)),
        name@ == "library_cats"@ ==> shows(r, texts_json(c.d.indexing.library_cats.deep_view())),
        name@ == "index_groups"@ ==> shows(r, texts_json(c.d.indexing.index_groups.deep_view())),
        name@ == "index_interests"@ ==> shows(r, Json::Text(c.d.indexing.index_interests@)),
        name@ == "index_tip_secs"@ ==> shows(r, uint_json(c.d.indexing.index_tip_secs as int)),
        name@ == "index_gapfill"@ ==> shows(r, uint_json(c.d.indexing.index_gapfill as int)),
        name@ == "index_paused"@ ==> shows(r, Json::Bool(c.d.indexing.index_paused)),
        name@ == "index_evict"@ ==> shows(r, Json::Bool(c.d.indexing.index_evict)),
        name@ == "index_evict_order"@ ==> shows(r, Json::Text(c.d.indexing.index_evict_order@)),
        name@ == "index_evict_kinds"@ ==> shows(r, texts_json(c.d.indexing.index_evict_kinds.deep_view())),
        name@ == "index_gates"@ ==> shows(r, Json::Text(c.d.indexing.index_gates@)),
        name@ == "predb_enabled"@ ==> shows(r, Json::Bool(c.d.predb.enabled)),
        name@ == "predb_server"@ ==> shows(r, Json::Text(c.d.predb.server@)),
        name@ == "predb_channels"@ ==> shows(r, Json::Text(c.d.predb.channels@)),
        name@ == "predb_nick"@ ==> shows(r, Json::Text(c.d.predb.nick@)),
        name@ == "predb_corr_enabled"@ ==> shows(r, Json::Bool(c.d.predb.corr_enabled)),
        name@ == "predb_corr_auto"@ ==> shows(r, Json::Bool(c.d.predb.corr_auto)),
        name@ == "predb_max_rows"@ ==> shows(r, uint_json(c.d.predb.max_rows as int)),
{
    keys_at();
    if name@ == "index_enabled"@ {
        page_of(c, name, r, Key::IndexEnabled);
    }
    if name@ == "spot_enabled"@ {
        page_of(c, name, r, Key::SpotEnabled);
    }
    if name@ == "spot_groups"@ {
        page_of(c, name, r, Key::SpotGroups);
    }
    if name@ == "spot_backfill"@ {
        page_of(c, name, r, Key::SpotBackfill);
    }
    if name@ == "library_cats"@ {
        page_of(c, name, r, Key::LibraryCats);
    }
    if name@ == "index_groups"@ {
        page_of(c, name, r, Key::IndexGroups);
    }
    if name@ == "index_interests"@ {
        page_of(c, name, r, Key::IndexInterests);
    }
    if name@ == "index_tip_secs"@ {
        page_of(c, name, r, Key::IndexTipSecs);
    }
    if name@ == "index_gapfill"@ {
        page_of(c, name, r, Key::IndexGapfill);
    }
    if name@ == "index_paused"@ {
        page_of(c, name, r, Key::IndexPaused);
    }
    if name@ == "index_evict"@ {
        page_of(c, name, r, Key::IndexEvict);
    }
    if name@ == "index_evict_order"@ {
        page_of(c, name, r, Key::IndexEvictOrder);
    }
    if name@ == "index_evict_kinds"@ {
        page_of(c, name, r, Key::IndexEvictKinds);
    }
    if name@ == "index_gates"@ {
        page_of(c, name, r, Key::IndexGates);
    }
    if name@ == "predb_enabled"@ {
        page_of(c, name, r, Key::PredbEnabled);
    }
    if name@ == "predb_server"@ {
        page_of(c, name, r, Key::PredbServer);
    }
    if name@ == "predb_channels"@ {
        page_of(c, name, r, Key::PredbChannels);
    }
    if name@ == "predb_nick"@ {
        page_of(c, name, r, Key::PredbNick);
    }
    if name@ == "predb_corr_enabled"@ {
        page_of(c, name, r, Key::PredbCorrEnabled);
    }
    if name@ == "predb_corr_auto"@ {
        page_of(c, name, r, Key::PredbCorrAuto);
    }
    if name@ == "predb_max_rows"@ {
        page_of(c, name, r, Key::PredbMaxRows);
    }
}

/// What the page shows of the automation.
pub proof fn the_page_shows_the_automation(c: &ConfigCtx, name: &str, r: Option<Value>)
    requires
        call_ensures(config_value, (c, name), r),
    ensures
        name@ == "indexers"@ ==> shows(r, indexers_shown(indexers(c.d.automation.indexers@))),
        name@ == "watchlist"@ ==> shows(r, Json::Array(jsons(c.d.automation.watchlist@))),
        name@ == "watchlist_instant"@ ==> shows(r, Json::Bool(c.d.automation.watchlist_instant)),
        name@ == "watchlist_instant_max"@ ==> shows(r, uint_json(c.d.automation.watchlist_instant_max as int)),
        name@ == "cleanup_exts"@ ==> shows(r, texts_json(c.d.automation.cleanup_exts.deep_view())),
        name@ == "password_file"@ ==> shows(r, Json::Text(c.d.automation.password_file@)),
        name@ == "password_file_count"@ ==> shows(r, uint_json(c.password_count as int)),
        name@ == "password_prompt"@ ==> shows(r, Json::Text(c.d.automation.password_prompt@)),
        name@ == "unpack_eat_volumes"@ ==> shows(r, Json::Text(c.d.automation.unpack_eat_volumes@)),
        name@ == "fast_par"@ ==> shows(r, Json::Bool(c.d.automation.fast_par)),
        name@ == "prefer_external_unrar"@ ==> shows(r, Json::Bool(c.d.automation.prefer_external_unrar)),
        name@ == "notify_targets"@ ==> shows(r, targets_shown(targets(c.d.automation.notify_targets@), jsons(c.last_sends@)),),
        name@ == "failure_link"@ ==> shows(r, Json::Text(c.d.automation.failure_link@)),
        name@ == "arr_giveup_threshold"@ ==> shows(r, uint_json(c.d.automation.arr_giveup_threshold as int)),
        name@ == "arr_instances"@ ==> shows(r, instances_shown(instances(c.d.automation.arr_instances@))),
        name@ == "watchlist_external"@ ==> (c.d.automation.watchlist_external_set ==> shows(r, Json::Bool(c.d.automation.watchlist_external))),
        name@ == "watchlist_external"@ ==> (!c.d.automation.watchlist_external_set ==> shows(r, Json::Bool(c.d.automation.indexers@.len() > 0))),
{
    keys_at();
    if name@ == "indexers"@ {
        page_of(c, name, r, Key::Indexers);
    }
    if name@ == "watchlist"@ {
        page_of(c, name, r, Key::Watchlist);
    }
    if name@ == "watchlist_instant"@ {
        page_of(c, name, r, Key::WatchlistInstant);
    }
    if name@ == "watchlist_instant_max"@ {
        page_of(c, name, r, Key::WatchlistInstantMax);
    }
    if name@ == "cleanup_exts"@ {
        page_of(c, name, r, Key::CleanupExts);
    }
    if name@ == "password_file"@ {
        page_of(c, name, r, Key::PasswordFile);
    }
    if name@ == "password_file_count"@ {
        page_of(c, name, r, Key::PasswordFileCount);
    }
    if name@ == "password_prompt"@ {
        page_of(c, name, r, Key::PasswordPrompt);
    }
    if name@ == "unpack_eat_volumes"@ {
        page_of(c, name, r, Key::UnpackEatVolumes);
    }
    if name@ == "fast_par"@ {
        page_of(c, name, r, Key::FastPar);
    }
    if name@ == "prefer_external_unrar"@ {
        page_of(c, name, r, Key::PreferExternalUnrar);
    }
    if name@ == "notify_targets"@ {
        page_of(c, name, r, Key::NotifyTargets);
    }
    if name@ == "failure_link"@ {
        page_of(c, name, r, Key::FailureLink);
    }
    if name@ == "arr_giveup_threshold"@ {
        page_of(c, name, r, Key::ArrGiveupThreshold);
    }
    if name@ == "arr_instances"@ {
        page_of(c, name, r, Key::ArrInstances);
    }
    if name@ == "watchlist_external"@ {
        page_of(c, name, r, Key::WatchlistExternal);
    }
}

/// What the page shows of the interface, and of the keys only whether there are
/// any.
pub proof fn the_page_shows_the_interface(c: &ConfigCtx, name: &str, r: Option<Value>)
    requires
        call_ensures(config_value, (c, name), r),
    ensures
        name@ == "update_url"@ ==> shows(r, Json::Text(c.d.interface.update_url@)),
        name@ == "ui_locale"@ ==> shows(r, Json::Text(c.d.interface.ui_locale@)),
        name@ == "has_apikey"@ ==> shows(r, Json::Bool(c.d.keys.apikey is Some)),
        name@ == "has_nzbkey"@ ==> shows(r, Json::Bool(c.d.keys.nzbkey is Some)),
        name@ == "has_omdb"@ ==> shows(r, Json::Bool(c.d.keys.omdb_key is Some)),
{
    keys_at();
    if name@ == "update_url"@ {
        page_of(c, name, r, Key::UpdateUrl);
    }
    if name@ == "ui_locale"@ {
        page_of(c, name, r, Key::UiLocale);
    }
    if name@ == "has_apikey"@ {
        page_of(c, name, r, Key::HasApikey);
    }
    if name@ == "has_nzbkey"@ {
        page_of(c, name, r, Key::HasNzbkey);
    }
    if name@ == "has_omdb"@ {
        page_of(c, name, r, Key::HasOmdb);
    }
}

/// A key is never shown, nor which interests were applied.
pub proof fn the_page_never_shows_a_key(c: &ConfigCtx, name: &str, r: Option<Value>)
    requires
        call_ensures(config_value, (c, name), r),
    ensures
        name@ == "apikey"@ || name@ == "nzbkey"@ || name@ == "omdb_key"@ ==> r is None,
        name@ == "index_interests_applied"@ ==> r is None,
{
    keys_at();
    if name@ == "apikey"@ {
        page_of(c, name, r, Key::Apikey);
    }
    if name@ == "nzbkey"@ {
        page_of(c, name, r, Key::Nzbkey);
    }
    if name@ == "omdb_key"@ {
        page_of(c, name, r, Key::OmdbKey);
    }
    if name@ == "index_interests_applied"@ {
        page_of(c, name, r, Key::IndexInterestsApplied);
    }
}

} // verus!
