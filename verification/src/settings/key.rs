//! The settings by name.
use crate::daemon::{count_named, find_count, find_flag, find_size, flag_named, size_named, Count, Flag};
use crate::text::same;
use vstd::prelude::*;

verus! {

/// A setting.
#[derive(Clone, Copy, PartialEq, Eq, Structural, Debug)]
pub enum Key {
    /// A plain switch.
    Switch(Flag),
    /// A bounded number.
    Number(Count),
    /// A size.
    Size(Count),
    Speedlimit,
    AutoSpeed,
    UpdateUrl,
    UiLocale,
    IndexGapfill,
    BenchInterval,
    AutoPrefetch,
    RaceStragglers,
    ScriptTimeoutSecs,
    HistoryRows,
    Connections,
    FastVerify,
    VerifyMode,
    OutUmask,
    AutoRetryMins,
    QuotaPeriod,
    Watch,
    Script,
    Schedule,
    LibraryCats,
    IndexGroups,
    IndexInterests,
    IndexInterestsApplied,
    DeleteToTrash,
    WatchIntervalSecs,
    IndexTipSecs,
    NestedMaxDepth,
    PredbEnabled,
    PredbCorrEnabled,
    PredbCorrAuto,
    PredbMaxRows,
    PredbServer,
    PredbChannels,
    PredbNick,
    IndexPaused,
    IndexEnabled,
    SpotEnabled,
    SpotGroups,
    SpotBackfill,
    IndexEvictOrder,
    IndexEvictKinds,
    IndexEvict,
    IndexGates,
    Apikey,
    Nzbkey,
    OmdbKey,
    Feeds,
    Indexers,
    WatchlistExternal,
    WatchlistInstant,
    WatchlistInstantMax,
    Watchlist,
    SmartFolders,
    CleanupExts,
    PasswordFile,
    PasswordPrompt,
    UnpackEatVolumes,
    FastPar,
    PreferExternalUnrar,
    CustomCategories,
    FailureLink,
    PreferQuality,
    NotifyTargets,
    ArrGiveupThreshold,
    ArrInstances,
    MemLimit,
    Port,
    OutDir,
    MoveCompleted,
    MoveCompletedCats,
    Categories,
    IndexDb,
    ConfigPath,
    SettingsPath,
    MemBudgetTotal,
    Conntune,
    TuneHint,
    PasswordFileCount,
    HasApikey,
    HasNzbkey,
    HasOmdb,
}

/// The setting of that name.
pub open spec fn key_named(name: Seq<char>) -> Option<Key> {
    if name == "speedlimit"@ {
        Some(Key::Speedlimit)
    } else if name == "auto_speed"@ {
        Some(Key::AutoSpeed)
    } else if name == "update_url"@ {
        Some(Key::UpdateUrl)
    } else if name == "ui_locale"@ {
        Some(Key::UiLocale)
    } else if name == "index_gapfill"@ {
        Some(Key::IndexGapfill)
    } else if name == "bench_interval"@ {
        Some(Key::BenchInterval)
    } else if name == "auto_prefetch"@ {
        Some(Key::AutoPrefetch)
    } else if name == "race_stragglers"@ {
        Some(Key::RaceStragglers)
    } else if name == "script_timeout_secs"@ {
        Some(Key::ScriptTimeoutSecs)
    } else if name == "history_rows"@ {
        Some(Key::HistoryRows)
    } else if name == "connections"@ {
        Some(Key::Connections)
    } else if name == "fast_verify"@ {
        Some(Key::FastVerify)
    } else if name == "verify_mode"@ {
        Some(Key::VerifyMode)
    } else if name == "out_umask"@ {
        Some(Key::OutUmask)
    } else if name == "auto_retry_mins"@ {
        Some(Key::AutoRetryMins)
    } else if name == "quota_period"@ {
        Some(Key::QuotaPeriod)
    } else if name == "watch"@ {
        Some(Key::Watch)
    } else if name == "script"@ {
        Some(Key::Script)
    } else if name == "schedule"@ {
        Some(Key::Schedule)
    } else if name == "library_cats"@ {
        Some(Key::LibraryCats)
    } else if name == "index_groups"@ {
        Some(Key::IndexGroups)
    } else if name == "index_interests"@ {
        Some(Key::IndexInterests)
    } else if name == "index_interests_applied"@ {
        Some(Key::IndexInterestsApplied)
    } else if name == "delete_to_trash"@ {
        Some(Key::DeleteToTrash)
    } else if name == "watch_interval_secs"@ {
        Some(Key::WatchIntervalSecs)
    } else if name == "index_tip_secs"@ {
        Some(Key::IndexTipSecs)
    } else if name == "nested_max_depth"@ {
        Some(Key::NestedMaxDepth)
    } else if name == "predb_enabled"@ {
        Some(Key::PredbEnabled)
    } else if name == "predb_corr_enabled"@ {
        Some(Key::PredbCorrEnabled)
    } else if name == "predb_corr_auto"@ {
        Some(Key::PredbCorrAuto)
    } else if name == "predb_max_rows"@ {
        Some(Key::PredbMaxRows)
    } else if name == "predb_server"@ {
        Some(Key::PredbServer)
    } else if name == "predb_channels"@ {
        Some(Key::PredbChannels)
    } else if name == "predb_nick"@ {
        Some(Key::PredbNick)
    } else if name == "index_paused"@ {
        Some(Key::IndexPaused)
    } else if name == "index_enabled"@ {
        Some(Key::IndexEnabled)
    } else if name == "spot_enabled"@ {
        Some(Key::SpotEnabled)
    } else if name == "spot_groups"@ {
        Some(Key::SpotGroups)
    } else if name == "spot_backfill"@ {
        Some(Key::SpotBackfill)
    } else if name == "index_evict_order"@ {
        Some(Key::IndexEvictOrder)
    } else if name == "index_evict_kinds"@ {
        Some(Key::IndexEvictKinds)
    } else if name == "index_evict"@ {
        Some(Key::IndexEvict)
    } else if name == "index_gates"@ {
        Some(Key::IndexGates)
    } else if name == "apikey"@ {
        Some(Key::Apikey)
    } else if name == "nzbkey"@ {
        Some(Key::Nzbkey)
    } else if name == "omdb_key"@ {
        Some(Key::OmdbKey)
    } else if name == "feeds"@ {
        Some(Key::Feeds)
    } else if name == "indexers"@ {
        Some(Key::Indexers)
    } else if name == "watchlist_external"@ {
        Some(Key::WatchlistExternal)
    } else if name == "watchlist_instant"@ {
        Some(Key::WatchlistInstant)
    } else if name == "watchlist_instant_max"@ {
        Some(Key::WatchlistInstantMax)
    } else if name == "watchlist"@ {
        Some(Key::Watchlist)
    } else if name == "smart_folders"@ {
        Some(Key::SmartFolders)
    } else if name == "cleanup_exts"@ {
        Some(Key::CleanupExts)
    } else if name == "password_file"@ {
        Some(Key::PasswordFile)
    } else if name == "password_prompt"@ {
        Some(Key::PasswordPrompt)
    } else if name == "unpack_eat_volumes"@ {
        Some(Key::UnpackEatVolumes)
    } else if name == "fast_par"@ {
        Some(Key::FastPar)
    } else if name == "prefer_external_unrar"@ {
        Some(Key::PreferExternalUnrar)
    } else if name == "custom_categories"@ {
        Some(Key::CustomCategories)
    } else if name == "failure_link"@ {
        Some(Key::FailureLink)
    } else if name == "prefer_quality"@ {
        Some(Key::PreferQuality)
    } else if name == "notify_targets"@ {
        Some(Key::NotifyTargets)
    } else if name == "arr_giveup_threshold"@ {
        Some(Key::ArrGiveupThreshold)
    } else if name == "arr_instances"@ {
        Some(Key::ArrInstances)
    } else if name == "mem_limit"@ {
        Some(Key::MemLimit)
    } else if name == "port"@ {
        Some(Key::Port)
    } else if name == "out_dir"@ {
        Some(Key::OutDir)
    } else if name == "move_completed"@ {
        Some(Key::MoveCompleted)
    } else if name == "move_completed_cats"@ {
        Some(Key::MoveCompletedCats)
    } else if name == "categories"@ {
        Some(Key::Categories)
    } else if name == "index_db"@ {
        Some(Key::IndexDb)
    } else if name == "config_path"@ {
        Some(Key::ConfigPath)
    } else if name == "settings_path"@ {
        Some(Key::SettingsPath)
    } else if name == "mem_budget_total"@ {
        Some(Key::MemBudgetTotal)
    } else if name == "conntune"@ {
        Some(Key::Conntune)
    } else if name == "tune_hint"@ {
        Some(Key::TuneHint)
    } else if name == "password_file_count"@ {
        Some(Key::PasswordFileCount)
    } else if name == "has_apikey"@ {
        Some(Key::HasApikey)
    } else if name == "has_nzbkey"@ {
        Some(Key::HasNzbkey)
    } else if name == "has_omdb"@ {
        Some(Key::HasOmdb)
    } else if flag_named(name) is Some {
        Some(Key::Switch(flag_named(name)->0))
    } else if count_named(name) is Some {
        Some(Key::Number(count_named(name)->0))
    } else if size_named(name) is Some {
        Some(Key::Size(size_named(name)->0))
    } else {
        None
    }
}

/// The setting of that name.
pub fn find_key(name: &str) -> (r: Option<Key>)
    ensures
        r == key_named(name@),
{
    if same(name, "speedlimit") {
        Some(Key::Speedlimit)
    } else if same(name, "auto_speed") {
        Some(Key::AutoSpeed)
    } else if same(name, "update_url") {
        Some(Key::UpdateUrl)
    } else if same(name, "ui_locale") {
        Some(Key::UiLocale)
    } else if same(name, "index_gapfill") {
        Some(Key::IndexGapfill)
    } else if same(name, "bench_interval") {
        Some(Key::BenchInterval)
    } else if same(name, "auto_prefetch") {
        Some(Key::AutoPrefetch)
    } else if same(name, "race_stragglers") {
        Some(Key::RaceStragglers)
    } else if same(name, "script_timeout_secs") {
        Some(Key::ScriptTimeoutSecs)
    } else if same(name, "history_rows") {
        Some(Key::HistoryRows)
    } else if same(name, "connections") {
        Some(Key::Connections)
    } else if same(name, "fast_verify") {
        Some(Key::FastVerify)
    } else if same(name, "verify_mode") {
        Some(Key::VerifyMode)
    } else if same(name, "out_umask") {
        Some(Key::OutUmask)
    } else if same(name, "auto_retry_mins") {
        Some(Key::AutoRetryMins)
    } else if same(name, "quota_period") {
        Some(Key::QuotaPeriod)
    } else if same(name, "watch") {
        Some(Key::Watch)
    } else if same(name, "script") {
        Some(Key::Script)
    } else if same(name, "schedule") {
        Some(Key::Schedule)
    } else if same(name, "library_cats") {
        Some(Key::LibraryCats)
    } else if same(name, "index_groups") {
        Some(Key::IndexGroups)
    } else if same(name, "index_interests") {
        Some(Key::IndexInterests)
    } else if same(name, "index_interests_applied") {
        Some(Key::IndexInterestsApplied)
    } else if same(name, "delete_to_trash") {
        Some(Key::DeleteToTrash)
    } else if same(name, "watch_interval_secs") {
        Some(Key::WatchIntervalSecs)
    } else if same(name, "index_tip_secs") {
        Some(Key::IndexTipSecs)
    } else if same(name, "nested_max_depth") {
        Some(Key::NestedMaxDepth)
    } else if same(name, "predb_enabled") {
        Some(Key::PredbEnabled)
    } else if same(name, "predb_corr_enabled") {
        Some(Key::PredbCorrEnabled)
    } else if same(name, "predb_corr_auto") {
        Some(Key::PredbCorrAuto)
    } else if same(name, "predb_max_rows") {
        Some(Key::PredbMaxRows)
    } else if same(name, "predb_server") {
        Some(Key::PredbServer)
    } else if same(name, "predb_channels") {
        Some(Key::PredbChannels)
    } else if same(name, "predb_nick") {
        Some(Key::PredbNick)
    } else if same(name, "index_paused") {
        Some(Key::IndexPaused)
    } else if same(name, "index_enabled") {
        Some(Key::IndexEnabled)
    } else if same(name, "spot_enabled") {
        Some(Key::SpotEnabled)
    } else if same(name, "spot_groups") {
        Some(Key::SpotGroups)
    } else if same(name, "spot_backfill") {
        Some(Key::SpotBackfill)
    } else if same(name, "index_evict_order") {
        Some(Key::IndexEvictOrder)
    } else if same(name, "index_evict_kinds") {
        Some(Key::IndexEvictKinds)
    } else if same(name, "index_evict") {
        Some(Key::IndexEvict)
    } else if same(name, "index_gates") {
        Some(Key::IndexGates)
    } else if same(name, "apikey") {
        Some(Key::Apikey)
    } else if same(name, "nzbkey") {
        Some(Key::Nzbkey)
    } else if same(name, "omdb_key") {
        Some(Key::OmdbKey)
    } else if same(name, "feeds") {
        Some(Key::Feeds)
    } else if same(name, "indexers") {
        Some(Key::Indexers)
    } else if same(name, "watchlist_external") {
        Some(Key::WatchlistExternal)
    } else if same(name, "watchlist_instant") {
        Some(Key::WatchlistInstant)
    } else if same(name, "watchlist_instant_max") {
        Some(Key::WatchlistInstantMax)
    } else if same(name, "watchlist") {
        Some(Key::Watchlist)
    } else if same(name, "smart_folders") {
        Some(Key::SmartFolders)
    } else if same(name, "cleanup_exts") {
        Some(Key::CleanupExts)
    } else if same(name, "password_file") {
        Some(Key::PasswordFile)
    } else if same(name, "password_prompt") {
        Some(Key::PasswordPrompt)
    } else if same(name, "unpack_eat_volumes") {
        Some(Key::UnpackEatVolumes)
    } else if same(name, "fast_par") {
        Some(Key::FastPar)
    } else if same(name, "prefer_external_unrar") {
        Some(Key::PreferExternalUnrar)
    } else if same(name, "custom_categories") {
        Some(Key::CustomCategories)
    } else if same(name, "failure_link") {
        Some(Key::FailureLink)
    } else if same(name, "prefer_quality") {
        Some(Key::PreferQuality)
    } else if same(name, "notify_targets") {
        Some(Key::NotifyTargets)
    } else if same(name, "arr_giveup_threshold") {
        Some(Key::ArrGiveupThreshold)
    } else if same(name, "arr_instances") {
        Some(Key::ArrInstances)
    } else if same(name, "mem_limit") {
        Some(Key::MemLimit)
    } else if same(name, "port") {
        Some(Key::Port)
    } else if same(name, "out_dir") {
        Some(Key::OutDir)
    } else if same(name, "move_completed") {
        Some(Key::MoveCompleted)
    } else if same(name, "move_completed_cats") {
        Some(Key::MoveCompletedCats)
    } else if same(name, "categories") {
        Some(Key::Categories)
    } else if same(name, "index_db") {
        Some(Key::IndexDb)
    } else if same(name, "config_path") {
        Some(Key::ConfigPath)
    } else if same(name, "settings_path") {
        Some(Key::SettingsPath)
    } else if same(name, "mem_budget_total") {
        Some(Key::MemBudgetTotal)
    } else if same(name, "conntune") {
        Some(Key::Conntune)
    } else if same(name, "tune_hint") {
        Some(Key::TuneHint)
    } else if same(name, "password_file_count") {
        Some(Key::PasswordFileCount)
    } else if same(name, "has_apikey") {
        Some(Key::HasApikey)
    } else if same(name, "has_nzbkey") {
        Some(Key::HasNzbkey)
    } else if same(name, "has_omdb") {
        Some(Key::HasOmdb)
    } else if let Some(f) = find_flag(name) {
        Some(Key::Switch(f))
    } else if let Some(c) = find_count(name) {
        Some(Key::Number(c))
    } else if let Some(c) = find_size(name) {
        Some(Key::Size(c))
    } else {
        None
    }
}

} // verus!
