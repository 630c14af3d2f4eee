//! What the table declares of each setting, by its name.
use super::names::a_row_is_found_by_its_name_alone;
use super::table::{
    opaque_row, ro_row, row_named, rw_row, setting, table, Expose, Log, Row, Setting, Write,
};
use vstd::prelude::*;

verus! {

/// The row that was found is shown, set and logged that way.
pub open spec fn declared(r: Option<Setting>, expose: Expose, write: Write, log: Log) -> bool {
    r is Some && r->0.expose == expose && r->0.write == write && r->0.log == log
}

/// Found by its name is the row that stands at that place.
proof fn stands(i: int, row: Row)
    requires
        0 <= i < table().len(),
        table()[i] == row,
    ensures
        row_named(row.name) == Some(row),
{
    a_row_is_found_by_its_name_alone(row, row.name);
}

/// The paths and the port are shown, set and logged as they are; where the
/// configuration lies is only shown.
pub proof fn what_is_declared_of_the_paths(name: &str, r: Option<Setting>)
    requires
        call_ensures(setting, (name,), r),
    ensures
        name@ == "port"@ ==> declared(r, Expose::Config, Write::Setting, Log::Plain),
        name@ == "out_dir"@ ==> declared(r, Expose::Config, Write::Setting, Log::Plain),
        name@ == "move_completed"@ ==> declared(r, Expose::Config, Write::Setting, Log::Plain),
        name@ == "move_completed_cats"@ ==> declared(r, Expose::Config, Write::Setting, Log::Plain),
        name@ == "categories"@ ==> declared(r, Expose::Config, Write::Setting, Log::Plain),
        name@ == "watch"@ ==> declared(r, Expose::Config, Write::Setting, Log::Plain),
        name@ == "watch_interval_secs"@ ==> declared(r, Expose::Config, Write::Setting, Log::Plain),
        name@ == "delete_to_trash"@ ==> declared(r, Expose::Config, Write::Setting, Log::Plain),
        name@ == "script"@ ==> declared(r, Expose::Config, Write::Setting, Log::Plain),
        name@ == "script_timeout_secs"@ ==> declared(r, Expose::Config, Write::Setting, Log::Plain),
        name@ == "index_db"@ ==> declared(r, Expose::Config, Write::Setting, Log::Plain),
        name@ == "config_path"@ ==> declared(r, Expose::Config, Write::No, Log::Plain),
        name@ == "settings_path"@ ==> declared(r, Expose::Config, Write::No, Log::Plain),
{
    if name@ == "port"@ {
        stands(0, rw_row("port"@));
    }
    if name@ == "out_dir"@ {
        stands(1, rw_row("out_dir"@));
    }
    if name@ == "move_completed"@ {
        stands(2, rw_row("move_completed"@));
    }
    if name@ == "move_completed_cats"@ {
        stands(3, rw_row("move_completed_cats"@));
    }
    if name@ == "categories"@ {
        stands(4, rw_row("categories"@));
    }
    if name@ == "watch"@ {
        stands(5, rw_row("watch"@));
    }
    if name@ == "watch_interval_secs"@ {
        stands(6, rw_row("watch_interval_secs"@));
    }
    if name@ == "delete_to_trash"@ {
        stands(7, rw_row("delete_to_trash"@));
    }
    if name@ == "script"@ {
        stands(8, rw_row("script"@));
    }
    if name@ == "script_timeout_secs"@ {
        stands(9, rw_row("script_timeout_secs"@));
    }
    if name@ == "index_db"@ {
        stands(10, rw_row("index_db"@));
    }
    if name@ == "config_path"@ {
        stands(11, ro_row("config_path"@));
    }
    if name@ == "settings_path"@ {
        stands(12, ro_row("settings_path"@));
    }
}

/// What is declared of the download engine.
pub proof fn what_is_declared_of_the_engine(name: &str, r: Option<Setting>)
    requires
        call_ensures(setting, (name,), r),
    ensures
        name@ == "connections"@ ==> declared(r, Expose::Config, Write::Setting, Log::Plain),
        name@ == "window"@ ==> declared(r, Expose::Config, Write::Setting, Log::Plain),
        name@ == "decoders"@ ==> declared(r, Expose::Config, Write::Setting, Log::Plain),
        name@ == "fast_verify"@ ==> declared(r, Expose::Config, Write::Setting, Log::Plain),
        name@ == "verify_mode"@ ==> declared(r, Expose::Config, Write::Setting, Log::Plain),
        name@ == "min_free"@ ==> declared(r, Expose::Config, Write::Setting, Log::Plain),
        name@ == "out_umask"@ ==> declared(r, Expose::Config, Write::Setting, Log::Plain),
        name@ == "auto_retry_mins"@ ==> declared(r, Expose::Config, Write::Setting, Log::Plain),
        name@ == "quota"@ ==> declared(r, Expose::Config, Write::Setting, Log::Plain),
        name@ == "quota_period"@ ==> declared(r, Expose::Config, Write::Setting, Log::Plain),
        name@ == "nested_max_depth"@ ==> declared(r, Expose::Config, Write::Setting, Log::Plain),
        name@ == "mem_limit"@ ==> declared(r, Expose::Config, Write::Setting, Log::Plain),
        name@ == "mem_budget_total"@ ==> declared(r, Expose::Config, Write::No, Log::Plain),
{
    if name@ == "connections"@ {
        stands(13, rw_row("connections"@));
    }
    if name@ == "window"@ {
        stands(14, rw_row("window"@));
    }
    if name@ == "decoders"@ {
        stands(15, rw_row("decoders"@));
    }
    if name@ == "fast_verify"@ {
        stands(16, rw_row("fast_verify"@));
    }
    if name@ == "verify_mode"@ {
        stands(17, rw_row("verify_mode"@));
    }
    if name@ == "min_free"@ {
        stands(18, rw_row("min_free"@));
    }
    if name@ == "out_umask"@ {
        stands(19, rw_row("out_umask"@));
    }
    if name@ == "auto_retry_mins"@ {
        stands(20, rw_row("auto_retry_mins"@));
    }
    if name@ == "quota"@ {
        stands(21, rw_row("quota"@));
    }
    if name@ == "quota_period"@ {
        stands(22, rw_row("quota_period"@));
    }
    if name@ == "nested_max_depth"@ {
        stands(23, rw_row("nested_max_depth"@));
    }
    if name@ == "mem_limit"@ {
        stands(24, rw_row("mem_limit"@));
    }
    if name@ == "mem_budget_total"@ {
        stands(25, ro_row("mem_budget_total"@));
    }
}

/// What is declared of speed and the tuners: of the schedule only the size is
/// logged, and what the tuners found is only shown.
pub proof fn what_is_declared_of_the_speed(name: &str, r: Option<Setting>)
    requires
        call_ensures(setting, (name,), r),
    ensures
        name@ == "speedlimit"@ ==> declared(r, Expose::Config, Write::Setting, Log::Plain),
        name@ == "line_speed"@ ==> declared(r, Expose::Config, Write::Setting, Log::Plain),
        name@ == "auto_speed"@ ==> declared(r, Expose::Config, Write::Setting, Log::Plain),
        name@ == "auto_defer"@ ==> declared(r, Expose::Config, Write::Setting, Log::Plain),
        name@ == "post_health"@ ==> declared(r, Expose::Config, Write::Setting, Log::Plain),
        name@ == "post_health_defer"@ ==> declared(r, Expose::Config, Write::Setting, Log::Plain),
        name@ == "wall_hide_adult"@ ==> declared(r, Expose::Config, Write::Setting, Log::Plain),
        name@ == "auto_connections"@ ==> declared(r, Expose::Config, Write::Setting, Log::Plain),
        name@ == "conntune"@ ==> declared(r, Expose::Config, Write::No, Log::Plain),
        name@ == "tune_hint"@ ==> declared(r, Expose::Config, Write::No, Log::Plain),
        name@ == "auto_prefetch"@ ==> declared(r, Expose::Config, Write::Setting, Log::Plain),
        name@ == "race_stragglers"@ ==> declared(r, Expose::Config, Write::Setting, Log::Plain),
        name@ == "adaptive_timeouts"@ ==> declared(r, Expose::Config, Write::Setting, Log::Plain),
        name@ == "oracle_route"@ ==> declared(r, Expose::Config, Write::Setting, Log::Plain),
        name@ == "oracle_sample"@ ==> declared(r, Expose::Config, Write::Setting, Log::Plain),
        name@ == "bench_interval"@ ==> declared(r, Expose::Config, Write::Setting, Log::Plain),
        name@ == "schedule"@ ==> declared(r, Expose::Config, Write::Setting, Log::Shape),
{
    if name@ == "speedlimit"@ {
        stands(26, rw_row("speedlimit"@));
    }
    if name@ == "line_speed"@ {
        stands(27, rw_row("line_speed"@));
    }
    if name@ == "auto_speed"@ {
        stands(28, rw_row("auto_speed"@));
    }
    if name@ == "auto_defer"@ {
        stands(29, rw_row("auto_defer"@));
    }
    if name@ == "post_health"@ {
        stands(30, rw_row("post_health"@));
    }
    if name@ == "post_health_defer"@ {
        stands(31, rw_row("post_health_defer"@));
    }
    if name@ == "wall_hide_adult"@ {
        stands(32, rw_row("wall_hide_adult"@));
    }
    if name@ == "auto_connections"@ {
        stands(33, rw_row("auto_connections"@));
    }
    if name@ == "conntune"@ {
        stands(34, ro_row("conntune"@));
    }
    if name@ == "tune_hint"@ {
        stands(35, ro_row("tune_hint"@));
    }
    if name@ == "auto_prefetch"@ {
        stands(36, rw_row("auto_prefetch"@));
    }
    if name@ == "race_stragglers"@ {
        stands(37, rw_row("race_stragglers"@));
    }
    if name@ == "adaptive_timeouts"@ {
        stands(38, rw_row("adaptive_timeouts"@));
    }
    if name@ == "oracle_route"@ {
        stands(39, rw_row("oracle_route"@));
    }
    if name@ == "oracle_sample"@ {
        stands(40, rw_row("oracle_sample"@));
    }
    if name@ == "bench_interval"@ {
        stands(41, rw_row("bench_interval"@));
    }
    if name@ == "schedule"@ {
        stands(42, opaque_row("schedule"@));
    }
}

/// What is declared of the renamer and of how a download is labelled.
pub proof fn what_is_declared_of_the_renamer(name: &str, r: Option<Setting>)
    requires
        call_ensures(setting, (name,), r),
    ensures
        name@ == "auto_rename"@ ==> declared(r, Expose::Config, Write::Setting, Log::Plain),
        name@ == "identity_lookup"@ ==> declared(r, Expose::Config, Write::Setting, Log::Plain),
        name@ == "rename_resolution"@ ==> declared(r, Expose::Config, Write::Setting, Log::Plain),
        name@ == "rename_vcodec"@ ==> declared(r, Expose::Config, Write::Setting, Log::Plain),
        name@ == "rename_acodec"@ ==> declared(r, Expose::Config, Write::Setting, Log::Plain),
        name@ == "rename_source"@ ==> declared(r, Expose::Config, Write::Setting, Log::Plain),
        name@ == "rename_group"@ ==> declared(r, Expose::Config, Write::Setting, Log::Plain),
        name@ == "rename_year_parens"@ ==> declared(r, Expose::Config, Write::Setting, Log::Plain),
        name@ == "rename_quality_brackets"@ ==> declared(r, Expose::Config, Write::Setting, Log::Plain),
        name@ == "rename_extra_words"@ ==> declared(r, Expose::Config, Write::Setting, Log::Plain),
        name@ == "rename_identify"@ ==> declared(r, Expose::Config, Write::Setting, Log::Plain),
        name@ == "rename_episode_titles"@ ==> declared(r, Expose::Config, Write::Setting, Log::Plain),
        name@ == "rename_junk"@ ==> declared(r, Expose::Config, Write::Setting, Log::Plain),
        name@ == "rename_media_only"@ ==> declared(r, Expose::Config, Write::Setting, Log::Plain),
        name@ == "history_rows"@ ==> declared(r, Expose::Config, Write::Setting, Log::Plain),
        name@ == "history_color_names"@ ==> declared(r, Expose::Config, Write::Setting, Log::Plain),
        name@ == "media_chip_color"@ ==> declared(r, Expose::Config, Write::Setting, Log::Plain),
        name@ == "shape_chip_color"@ ==> declared(r, Expose::Config, Write::Setting, Log::Plain),
{
    if name@ == "auto_rename"@ {
        stands(43, rw_row("auto_rename"@));
    }
    if name@ == "identity_lookup"@ {
        stands(44, rw_row("identity_lookup"@));
    }
    if name@ == "rename_resolution"@ {
        stands(45, rw_row("rename_resolution"@));
    }
    if name@ == "rename_vcodec"@ {
        stands(46, rw_row("rename_vcodec"@));
    }
    if name@ == "rename_acodec"@ {
        stands(47, rw_row("rename_acodec"@));
    }
    if name@ == "rename_source"@ {
        stands(48, rw_row("rename_source"@));
    }
    if name@ == "rename_group"@ {
        stands(49, rw_row("rename_group"@));
    }
    if name@ == "rename_year_parens"@ {
        stands(50, rw_row("rename_year_parens"@));
    }
    if name@ == "rename_quality_brackets"@ {
        stands(51, rw_row("rename_quality_brackets"@));
    }
    if name@ == "rename_extra_words"@ {
        stands(52, rw_row("rename_extra_words"@));
    }
    if name@ == "rename_identify"@ {
        stands(53, rw_row("rename_identify"@));
    }
    if name@ == "rename_episode_titles"@ {
        stands(54, rw_row("rename_episode_titles"@));
    }
    if name@ == "rename_junk"@ {
        stands(55, rw_row("rename_junk"@));
    }
    if name@ == "rename_media_only"@ {
        stands(56, rw_row("rename_media_only"@));
    }
    if name@ == "history_rows"@ {
        stands(57, rw_row("history_rows"@));
    }
    if name@ == "history_color_names"@ {
        stands(58, rw_row("history_color_names"@));
    }
    if name@ == "media_chip_color"@ {
        stands(59, rw_row("media_chip_color"@));
    }
    if name@ == "shape_chip_color"@ {
        stands(60, rw_row("shape_chip_color"@));
    }
}

/// What is declared of the indexer: which interests were applied is kept, and
/// never shown.
pub proof fn what_is_declared_of_the_indexer(name: &str, r: Option<Setting>)
    requires
        call_ensures(setting, (name,), r),
    ensures
        name@ == "index_enabled"@ ==> declared(r, Expose::Config, Write::Setting, Log::Plain),
        name@ == "spot_enabled"@ ==> declared(r, Expose::Config, Write::Setting, Log::Plain),
        name@ == "spot_groups"@ ==> declared(r, Expose::Config, Write::Setting, Log::Plain),
        name@ == "spot_backfill"@ ==> declared(r, Expose::Config, Write::Setting, Log::Plain),
        name@ == "library_cats"@ ==> declared(r, Expose::Config, Write::Setting, Log::Plain),
        name@ == "library_recheck_secs"@ ==> declared(r, Expose::Config, Write::Setting, Log::Plain),
        name@ == "index_groups"@ ==> declared(r, Expose::Config, Write::Setting, Log::Plain),
        name@ == "index_interests"@ ==> declared(r, Expose::Config, Write::Setting, Log::Plain),
        name@ == "index_interests_applied"@ ==> declared(r, Expose::Hidden, Write::Setting, Log::Plain),
        name@ == "index_interval_secs"@ ==> declared(r, Expose::Config, Write::Setting, Log::Plain),
        name@ == "index_scan_par"@ ==> declared(r, Expose::Config, Write::Setting, Log::Plain),
        name@ == "index_tip_secs"@ ==> declared(r, Expose::Config, Write::Setting, Log::Plain),
        name@ == "index_backfill"@ ==> declared(r, Expose::Config, Write::Setting, Log::Plain),
        name@ == "index_deepen"@ ==> declared(r, Expose::Config, Write::Setting, Log::Plain),
        name@ == "index_coverage"@ ==> declared(r, Expose::Config, Write::Setting, Log::Plain),
        name@ == "index_gapfill"@ ==> declared(r, Expose::Config, Write::Setting, Log::Plain),
        name@ == "group_desc_isc"@ ==> declared(r, Expose::Config, Write::Setting, Log::Plain),
        name@ == "index_max_age_secs"@ ==> declared(r, Expose::Config, Write::Setting, Log::Plain),
        name@ == "index_retention"@ ==> declared(r, Expose::Config, Write::Setting, Log::Plain),
        name@ == "index_pause_on_download"@ ==> declared(r, Expose::Config, Write::Setting, Log::Plain),
        name@ == "index_paused"@ ==> declared(r, Expose::Config, Write::Setting, Log::Plain),
        name@ == "index_max_bytes"@ ==> declared(r, Expose::Config, Write::Setting, Log::Plain),
        name@ == "index_evict"@ ==> declared(r, Expose::Config, Write::Setting, Log::Plain),
        name@ == "index_evict_order"@ ==> declared(r, Expose::Config, Write::Setting, Log::Plain),
        name@ == "index_evict_kinds"@ ==> declared(r, Expose::Config, Write::Setting, Log::Plain),
        name@ == "index_gates"@ ==> declared(r, Expose::Config, Write::Setting, Log::Plain),
        name@ == "predb_enabled"@ ==> declared(r, Expose::Config, Write::Setting, Log::Plain),
        name@ == "predb_server"@ ==> declared(r, Expose::Config, Write::Setting, Log::Plain),
        name@ == "predb_channels"@ ==> declared(r, Expose::Config, Write::Setting, Log::Plain),
        name@ == "predb_nick"@ ==> declared(r, Expose::Config, Write::Setting, Log::Plain),
        name@ == "predb_corr_enabled"@ ==> declared(r, Expose::Config, Write::Setting, Log::Plain),
        name@ == "predb_corr_auto"@ ==> declared(r, Expose::Config, Write::Setting, Log::Plain),
        name@ == "predb_max_rows"@ ==> declared(r, Expose::Config, Write::Setting, Log::Plain),
        name@ == "predb_seed_days"@ ==> declared(r, Expose::Config, Write::Setting, Log::Plain),
{
    if name@ == "index_enabled"@ {
        stands(61, rw_row("index_enabled"@));
    }
    if name@ == "spot_enabled"@ {
        stands(62, rw_row("spot_enabled"@));
    }
    if name@ == "spot_groups"@ {
        stands(63, rw_row("spot_groups"@));
    }
    if name@ == "spot_backfill"@ {
        stands(64, rw_row("spot_backfill"@));
    }
    if name@ == "library_cats"@ {
        stands(65, rw_row("library_cats"@));
    }
    if name@ == "library_recheck_secs"@ {
        stands(66, rw_row("library_recheck_secs"@));
    }
    if name@ == "index_groups"@ {
        stands(67, rw_row("index_groups"@));
    }
    if name@ == "index_interests"@ {
        stands(68, rw_row("index_interests"@));
    }
    if name@ == "index_interests_applied"@ {
        let row = Row {
            name: "index_interests_applied"@,
            expose: Expose::Hidden,
            write: Write::Setting,
            log: Log::Plain,
        };
        stands(69, row);
    }
    if name@ == "index_interval_secs"@ {
        stands(70, rw_row("index_interval_secs"@));
    }
    if name@ == "index_scan_par"@ {
        stands(71, rw_row("index_scan_par"@));
    }
    if name@ == "index_tip_secs"@ {
        stands(72, rw_row("index_tip_secs"@));
    }
    if name@ == "index_backfill"@ {
        stands(73, rw_row("index_backfill"@));
    }
    if name@ == "index_deepen"@ {
        stands(74, rw_row("index_deepen"@));
    }
    if name@ == "index_coverage"@ {
        stands(75, rw_row("index_coverage"@));
    }
    if name@ == "index_gapfill"@ {
        stands(76, rw_row("index_gapfill"@));
    }
    if name@ == "group_desc_isc"@ {
        stands(77, rw_row("group_desc_isc"@));
    }
    if name@ == "index_max_age_secs"@ {
        stands(78, rw_row("index_max_age_secs"@));
    }
    if name@ == "index_retention"@ {
        stands(79, rw_row("index_retention"@));
    }
    if name@ == "index_pause_on_download"@ {
        stands(80, rw_row("index_pause_on_download"@));
    }
    if name@ == "index_paused"@ {
        stands(81, rw_row("index_paused"@));
    }
    if name@ == "index_max_bytes"@ {
        stands(82, rw_row("index_max_bytes"@));
    }
    if name@ == "index_evict"@ {
        stands(83, rw_row("index_evict"@));
    }
    if name@ == "index_evict_order"@ {
        stands(84, rw_row("index_evict_order"@));
    }
    if name@ == "index_evict_kinds"@ {
        stands(85, rw_row("index_evict_kinds"@));
    }
    if name@ == "index_gates"@ {
        stands(86, rw_row("index_gates"@));
    }
    if name@ == "predb_enabled"@ {
        stands(87, rw_row("predb_enabled"@));
    }
    if name@ == "predb_server"@ {
        stands(88, rw_row("predb_server"@));
    }
    if name@ == "predb_channels"@ {
        stands(89, rw_row("predb_channels"@));
    }
    if name@ == "predb_nick"@ {
        stands(90, rw_row("predb_nick"@));
    }
    if name@ == "predb_corr_enabled"@ {
        stands(91, rw_row("predb_corr_enabled"@));
    }
    if name@ == "predb_corr_auto"@ {
        stands(92, rw_row("predb_corr_auto"@));
    }
    if name@ == "predb_max_rows"@ {
        stands(93, rw_row("predb_max_rows"@));
    }
    if name@ == "predb_seed_days"@ {
        stands(94, rw_row("predb_seed_days"@));
    }
}

/// What is declared of the automation: feeds, search sites, targets and
/// instances hold credentials, of which the log shows a count or the kinds.
pub proof fn what_is_declared_of_the_automation(name: &str, r: Option<Setting>)
    requires
        call_ensures(setting, (name,), r),
    ensures
        name@ == "prefer_quality"@ ==> declared(r, Expose::Config, Write::Setting, Log::Plain),
        name@ == "feeds"@ ==> declared(r, Expose::Config, Write::Setting, Log::Feeds),
        name@ == "indexers"@ ==> declared(r, Expose::Config, Write::Setting, Log::Indexers),
        name@ == "watchlist"@ ==> declared(r, Expose::Config, Write::Setting, Log::Shape),
        name@ == "watchlist_external"@ ==> declared(r, Expose::Config, Write::Setting, Log::Plain),
        name@ == "watchlist_instant"@ ==> declared(r, Expose::Config, Write::Setting, Log::Plain),
        name@ == "watchlist_instant_max"@ ==> declared(r, Expose::Config, Write::Setting, Log::Plain),
        name@ == "smart_folders"@ ==> declared(r, Expose::Config, Write::Setting, Log::Shape),
        name@ == "custom_categories"@ ==> declared(r, Expose::Config, Write::Setting, Log::Plain),
        name@ == "cleanup_exts"@ ==> declared(r, Expose::Config, Write::Setting, Log::Plain),
        name@ == "password_file"@ ==> declared(r, Expose::Config, Write::Setting, Log::Plain),
        name@ == "password_file_count"@ ==> declared(r, Expose::Config, Write::No, Log::Plain),
        name@ == "password_prompt"@ ==> declared(r, Expose::Config, Write::Setting, Log::Plain),
        name@ == "unpack_eat_volumes"@ ==> declared(r, Expose::Config, Write::Setting, Log::Plain),
        name@ == "par_cleanup"@ ==> declared(r, Expose::Config, Write::Setting, Log::Plain),
        name@ == "watch_keep_nzb"@ ==> declared(r, Expose::Config, Write::Setting, Log::Plain),
        name@ == "fast_par"@ ==> declared(r, Expose::Config, Write::Setting, Log::Plain),
        name@ == "prefer_external_unrar"@ ==> declared(r, Expose::Config, Write::Setting, Log::Plain),
        name@ == "notify_targets"@ ==> declared(r, Expose::Config, Write::Setting, Log::Targets),
        name@ == "failure_link"@ ==> declared(r, Expose::Config, Write::Setting, Log::Plain),
        name@ == "arr_giveup_threshold"@ ==> declared(r, Expose::Config, Write::Setting, Log::Plain),
        name@ == "arr_instances"@ ==> declared(r, Expose::Config, Write::Setting, Log::Targets),
{
    if name@ == "prefer_quality"@ {
        stands(95, rw_row("prefer_quality"@));
    }
    if name@ == "feeds"@ {
        let row = Row {
            name: "feeds"@,
            expose: Expose::Config,
            write: Write::Setting,
            log: Log::Feeds,
        };
        stands(96, row);
    }
    if name@ == "indexers"@ {
        let row = Row {
            name: "indexers"@,
            expose: Expose::Config,
            write: Write::Setting,
            log: Log::Indexers,
        };
        stands(97, row);
    }
    if name@ == "watchlist"@ {
        stands(98, opaque_row("watchlist"@));
    }
    if name@ == "watchlist_external"@ {
        stands(99, rw_row("watchlist_external"@));
    }
    if name@ == "watchlist_instant"@ {
        stands(100, rw_row("watchlist_instant"@));
    }
    if name@ == "watchlist_instant_max"@ {
        stands(101, rw_row("watchlist_instant_max"@));
    }
    if name@ == "smart_folders"@ {
        stands(102, opaque_row("smart_folders"@));
    }
    if name@ == "custom_categories"@ {
        stands(103, rw_row("custom_categories"@));
    }
    if name@ == "cleanup_exts"@ {
        stands(104, rw_row("cleanup_exts"@));
    }
    if name@ == "password_file"@ {
        stands(105, rw_row("password_file"@));
    }
    if name@ == "password_file_count"@ {
        stands(106, ro_row("password_file_count"@));
    }
    if name@ == "password_prompt"@ {
        stands(107, rw_row("password_prompt"@));
    }
    if name@ == "unpack_eat_volumes"@ {
        stands(108, rw_row("unpack_eat_volumes"@));
    }
    if name@ == "par_cleanup"@ {
        stands(109, rw_row("par_cleanup"@));
    }
    if name@ == "watch_keep_nzb"@ {
        stands(110, rw_row("watch_keep_nzb"@));
    }
    if name@ == "fast_par"@ {
        stands(111, rw_row("fast_par"@));
    }
    if name@ == "prefer_external_unrar"@ {
        stands(112, rw_row("prefer_external_unrar"@));
    }
    if name@ == "notify_targets"@ {
        let row = Row {
            name: "notify_targets"@,
            expose: Expose::Config,
            write: Write::Setting,
            log: Log::Targets,
        };
        stands(113, row);
    }
    if name@ == "failure_link"@ {
        stands(114, rw_row("failure_link"@));
    }
    if name@ == "arr_giveup_threshold"@ {
        stands(115, rw_row("arr_giveup_threshold"@));
    }
    if name@ == "arr_instances"@ {
        let row = Row {
            name: "arr_instances"@,
            expose: Expose::Config,
            write: Write::Setting,
            log: Log::Targets,
        };
        stands(116, row);
    }
}

/// What is declared of the interface.
pub proof fn what_is_declared_of_the_interface(name: &str, r: Option<Setting>)
    requires
        call_ensures(setting, (name,), r),
    ensures
        name@ == "update_checks"@ ==> declared(r, Expose::Config, Write::Setting, Log::Plain),
        name@ == "unit_bits"@ ==> declared(r, Expose::Config, Write::Setting, Log::Plain),
        name@ == "update_url"@ ==> declared(r, Expose::Config, Write::Setting, Log::Plain),
        name@ == "ui_locale"@ ==> declared(r, Expose::Config, Write::Setting, Log::Plain),
{
    if name@ == "update_checks"@ {
        stands(117, rw_row("update_checks"@));
    }
    if name@ == "unit_bits"@ {
        stands(118, rw_row("unit_bits"@));
    }
    if name@ == "update_url"@ {
        stands(119, rw_row("update_url"@));
    }
    if name@ == "ui_locale"@ {
        stands(120, rw_row("ui_locale"@));
    }
}

/// A key can be set, is never shown, and is never logged; whether there is one
/// is shown, and cannot be set.
pub proof fn what_is_declared_of_the_keys(name: &str, r: Option<Setting>)
    requires
        call_ensures(setting, (name,), r),
    ensures
        name@ == "apikey"@ ==> declared(r, Expose::Hidden, Write::Setting, Log::Masked),
        name@ == "nzbkey"@ ==> declared(r, Expose::Hidden, Write::Setting, Log::Masked),
        name@ == "omdb_key"@ ==> declared(r, Expose::Hidden, Write::Setting, Log::Masked),
        name@ == "has_apikey"@ ==> declared(r, Expose::Config, Write::No, Log::Plain),
        name@ == "has_nzbkey"@ ==> declared(r, Expose::Config, Write::No, Log::Plain),
        name@ == "has_omdb"@ ==> declared(r, Expose::Config, Write::No, Log::Plain),
{
    if name@ == "apikey"@ {
        let row = Row {
            name: "apikey"@,
            expose: Expose::Hidden,
            write: Write::Setting,
            log: Log::Masked,
        };
        stands(121, row);
    }
    if name@ == "nzbkey"@ {
        let row = Row {
            name: "nzbkey"@,
            expose: Expose::Hidden,
            write: Write::Setting,
            log: Log::Masked,
        };
        stands(122, row);
    }
    if name@ == "omdb_key"@ {
        let row = Row {
            name: "omdb_key"@,
            expose: Expose::Hidden,
            write: Write::Setting,
            log: Log::Masked,
        };
        stands(123, row);
    }
    if name@ == "has_apikey"@ {
        stands(124, ro_row("has_apikey"@));
    }
    if name@ == "has_nzbkey"@ {
        stands(125, ro_row("has_nzbkey"@));
    }
    if name@ == "has_omdb"@ {
        stands(126, ro_row("has_omdb"@));
    }
}

/// What is put together elsewhere cannot be set, and a pause is an action, not a
/// setting.
pub proof fn what_is_declared_of_the_rest(name: &str, r: Option<Setting>)
    requires
        call_ensures(setting, (name,), r),
    ensures
        name@ == "servers"@ ==> declared(r, Expose::Assembled, Write::No, Log::Plain),
        name@ == "servers_configured"@ ==> declared(r, Expose::Assembled, Write::No, Log::Plain),
        name@ == "pending"@ ==> declared(r, Expose::Assembled, Write::No, Log::Plain),
        name@ == "set_pause"@ ==> declared(r, Expose::Hidden, Write::Action, Log::Plain),
{
    if name@ == "servers"@ {
        let row = Row {
            name: "servers"@,
            expose: Expose::Assembled,
            write: Write::No,
            log: Log::Plain,
        };
        stands(127, row);
    }
    if name@ == "servers_configured"@ {
        let row = Row {
            name: "servers_configured"@,
            expose: Expose::Assembled,
            write: Write::No,
            log: Log::Plain,
        };
        stands(128, row);
    }
    if name@ == "pending"@ {
        let row = Row {
            name: "pending"@,
            expose: Expose::Assembled,
            write: Write::No,
            log: Log::Plain,
        };
        stands(129, row);
    }
    if name@ == "set_pause"@ {
        let row = Row {
            name: "set_pause"@,
            expose: Expose::Hidden,
            write: Write::Action,
            log: Log::Plain,
        };
        stands(130, row);
    }
}

/// Nothing is declared of any other name than those in the table.
pub proof fn nothing_else_is_declared(name: &str, r: Option<Setting>, i: int)
    requires
        call_ensures(setting, (name,), r),
    ensures
        table().len() == 131,
        r is None <==> forall|k: int|
            0 <= k < table().len() ==> (#[trigger] table()[k]).name != name@,
        r matches Some(s) ==> s.name@ == name@,
        0 <= i < table().len() && table()[i].name == name@ ==> r is Some && r->0@ == table()[i],
{
    let row = if r is Some {
        r->0@
    } else {
        table()[i]
    };
    a_row_is_found_by_its_name_alone(row, name@);
    if 0 <= i < table().len() && table()[i].name == name@ {
        a_row_is_found_by_its_name_alone(table()[i], name@);
    }
}

} // verus!
