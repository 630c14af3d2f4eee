//! What a start makes of each saved setting, by its name.
use super::{
    config_moved, lock_step, numbers_restored, password_seed,
    resolve_index_enabled, restore_runtime_state, restored_counts, restored_flags,
    saved_categories, seed_auto_retry_secs, seed_index_evict, 
    seed_index_evict_order, seed_index_gates, seed_index_max_bytes, seed_index_pause_on_download,
    seed_index_paused, seed_index_retention, seed_line_speed, seed_omdb_key, seed_predb_channels,
    seed_predb_corr_auto, seed_predb_corr_enabled, seed_predb_enabled, seed_predb_nick,
    seed_predb_server, seed_quality_prefs, seed_spot_backfill, seed_spot_enabled,
    seed_spot_groups, seed_stream_secret, switches_restored, LockStep, LockVerdict, Restoring,
};
use crate::daemon::{
    a_number_reads_back, a_switch_reads_back, another_number_stays, another_switch_stays, cap_of,
    clamped, count_name, flag_name, floor_of, Action, CleanupMode, Count, Daemon, EatMode, Flag,
    Numbers, QualityPrefs, Switches,
};
use crate::text::{joined, list_of, lowered, parsed_u64, trimmed};
use crate::value::{array_field, bool_field, field, strings_in, text_field, u64_field, Json, Value};
use vstd::prelude::*;

verus! {

/// What was saved, or, where nothing was, what there was.
pub open spec fn kept_or<T>(saved: Option<T>, was: T) -> T {
    match saved {
        Some(v) => v,
        None => was,
    }
}

/// A number that was saved, brought into its bounds, or what there was.
pub open spec fn bounded_or(saved: Option<u64>, lo: int, hi: int, was: u64) -> int {
    match saved {
        Some(n) => if n < lo {
            lo
        } else if n > hi {
            hi
        } else {
            n as int
        },
        None => was as int,
    }
}

proof fn a_switch_after_a_start(s: Switches, flags: Seq<Flag>, saved: Json, f: Flag)
    ensures
        switches_restored(s, flags, saved).has(f) == if flags.contains(f) {
            kept_or(bool_field(saved, flag_name(f)), s.has(f))
        } else {
            s.has(f)
        },
    decreases flags.len(),
{
    if flags.len() > 0 {
        let last = flags.last();
        let rest = flags.drop_last();
        let before = switches_restored(s, rest, saved);
        a_switch_after_a_start(s, rest, saved, f);
        assert(flags[flags.len() - 1] == last);
        if rest.contains(f) {
            let k = choose|k: int| 0 <= k < rest.len() && rest[k] == f;
            assert(flags[k] == f);
        }
        if flags.contains(f) && last != f {
            let k = choose|k: int| 0 <= k < flags.len() && flags[k] == f;
            assert(rest[k] == f);
        }
        if let Some(on) = bool_field(saved, flag_name(last)) {
            if last == f {
                a_switch_reads_back(before, f, on);
            } else {
                another_switch_stays(before, last, on, f);
            }
        }
    }
}

proof fn a_number_after_a_start(s: Numbers, counts: Seq<Count>, saved: Json, c: Count)
    ensures
        numbers_restored(s, counts, saved).of(c) == if counts.contains(c) {
            bounded_or(
                u64_field(saved, count_name(c)),
                floor_of(c) as int,
                cap_of(c) as int,
                s.of(c),
            )
        } else {
            s.of(c) as int
        },
    decreases counts.len(),
{
    if counts.len() > 0 {
        let last = counts.last();
        let rest = counts.drop_last();
        let before = numbers_restored(s, rest, saved);
        a_number_after_a_start(s, rest, saved, c);
        assert(counts[counts.len() - 1] == last);
        if rest.contains(c) {
            let k = choose|k: int| 0 <= k < rest.len() && rest[k] == c;
            assert(counts[k] == c);
        }
        if counts.contains(c) && last != c {
            let k = choose|k: int| 0 <= k < counts.len() && counts[k] == c;
            assert(rest[k] == c);
        }
        if let Some(n) = u64_field(saved, count_name(last)) {
            let m = clamped(n as int, floor_of(last) as int, cap_of(last) as int) as u64;
            if last == c {
                a_number_reads_back(before, c, m);
            } else {
                another_number_stays(before, last, m, c);
            }
        }
    }
}

/// Every switch that is saved under its name is read back: after a start it is
/// what was saved, and what it was where nothing was saved of it.
pub proof fn the_saved_switches_are_read_back(
    d: &mut Daemon,
    saved: &Value,
    g: Restoring,
    r: (Vec<(String, Value)>, Result<(), String>),
)
    requires
        call_ensures(restore_runtime_state, (d, saved, g), r),
    ensures
        final(d).switches.auto_defer == kept_or(
            bool_field(saved@, "auto_defer"@),
            old(d).switches.auto_defer,
        ),
        final(d).switches.post_health == kept_or(
            bool_field(saved@, "post_health"@),
            old(d).switches.post_health,
        ),
        final(d).switches.post_health_defer == kept_or(
            bool_field(saved@, "post_health_defer"@),
            old(d).switches.post_health_defer,
        ),
        final(d).switches.wall_hide_adult == kept_or(
            bool_field(saved@, "wall_hide_adult"@),
            old(d).switches.wall_hide_adult,
        ),
        final(d).switches.auto_connections == kept_or(
            bool_field(saved@, "auto_connections"@),
            old(d).switches.auto_connections,
        ),
        final(d).switches.update_checks == kept_or(
            bool_field(saved@, "update_checks"@),
            old(d).switches.update_checks,
        ),
        final(d).switches.unit_bits == kept_or(
            bool_field(saved@, "unit_bits"@),
            old(d).switches.unit_bits,
        ),
        final(d).switches.index_coverage == kept_or(
            bool_field(saved@, "index_coverage"@),
            old(d).switches.index_coverage,
        ),
        final(d).switches.auto_prefetch == kept_or(
            bool_field(saved@, "auto_prefetch"@),
            old(d).switches.auto_prefetch,
        ),
        final(d).switches.race_stragglers == kept_or(
            bool_field(saved@, "race_stragglers"@),
            old(d).switches.race_stragglers,
        ),
        final(d).switches.adaptive_timeouts == kept_or(
            bool_field(saved@, "adaptive_timeouts"@),
            old(d).switches.adaptive_timeouts,
        ),
        final(d).switches.oracle_route == kept_or(
            bool_field(saved@, "oracle_route"@),
            old(d).switches.oracle_route,
        ),
        final(d).switches.auto_rename == kept_or(
            bool_field(saved@, "auto_rename"@),
            old(d).switches.auto_rename,
        ),
        final(d).switches.identity_lookup == kept_or(
            bool_field(saved@, "identity_lookup"@),
            old(d).switches.identity_lookup,
        ),
        final(d).switches.rename_resolution == kept_or(
            bool_field(saved@, "rename_resolution"@),
            old(d).switches.rename_resolution,
        ),
        final(d).switches.rename_vcodec == kept_or(
            bool_field(saved@, "rename_vcodec"@),
            old(d).switches.rename_vcodec,
        ),
        final(d).switches.rename_acodec == kept_or(
            bool_field(saved@, "rename_acodec"@),
            old(d).switches.rename_acodec,
        ),
        final(d).switches.rename_source == kept_or(
            bool_field(saved@, "rename_source"@),
            old(d).switches.rename_source,
        ),
        final(d).switches.rename_group == kept_or(
            bool_field(saved@, "rename_group"@),
            old(d).switches.rename_group,
        ),
        final(d).switches.rename_year_parens == kept_or(
            bool_field(saved@, "rename_year_parens"@),
            old(d).switches.rename_year_parens,
        ),
        final(d).switches.rename_quality_brackets == kept_or(
            bool_field(saved@, "rename_quality_brackets"@),
            old(d).switches.rename_quality_brackets,
        ),
        final(d).switches.rename_extra_words == kept_or(
            bool_field(saved@, "rename_extra_words"@),
            old(d).switches.rename_extra_words,
        ),
        final(d).switches.rename_identify == kept_or(
            bool_field(saved@, "rename_identify"@),
            old(d).switches.rename_identify,
        ),
        final(d).switches.rename_episode_titles == kept_or(
            bool_field(saved@, "rename_episode_titles"@),
            old(d).switches.rename_episode_titles,
        ),
        final(d).switches.history_color_names == kept_or(
            bool_field(saved@, "history_color_names"@),
            old(d).switches.history_color_names,
        ),
        final(d).switches.media_chip_color == kept_or(
            bool_field(saved@, "media_chip_color"@),
            old(d).switches.media_chip_color,
        ),
        final(d).switches.shape_chip_color == kept_or(
            bool_field(saved@, "shape_chip_color"@),
            old(d).switches.shape_chip_color,
        ),
        final(d).switches.rename_junk == kept_or(
            bool_field(saved@, "rename_junk"@),
            old(d).switches.rename_junk,
        ),
        final(d).switches.rename_media_only == kept_or(
            bool_field(saved@, "rename_media_only"@),
            old(d).switches.rename_media_only,
        ),
        final(d).switches.par_cleanup == kept_or(
            bool_field(saved@, "par_cleanup"@),
            old(d).switches.par_cleanup,
        ),
        final(d).switches.watch_keep_nzb == kept_or(
            bool_field(saved@, "watch_keep_nzb"@),
            old(d).switches.watch_keep_nzb,
        ),
{
    let (s, t) = (old(d).switches, final(d).switches);
    assert(t.auto_defer == kept_or(bool_field(saved@, "auto_defer"@), s.auto_defer)) by {
        reveal(Switches::has);
        assert(restored_flags()[4] == Flag::AutoDefer);
        a_switch_after_a_start(s, restored_flags(), saved@, Flag::AutoDefer);
    }
    assert(t.post_health == kept_or(bool_field(saved@, "post_health"@), s.post_health)) by {
        reveal(Switches::has);
        assert(restored_flags()[5] == Flag::PostHealth);
        a_switch_after_a_start(s, restored_flags(), saved@, Flag::PostHealth);
    }
    assert(t.post_health_defer == kept_or(bool_field(saved@, "post_health_defer"@), s.post_health_defer)) by {
        reveal(Switches::has);
        assert(restored_flags()[6] == Flag::PostHealthDefer);
        a_switch_after_a_start(s, restored_flags(), saved@, Flag::PostHealthDefer);
    }
    assert(t.wall_hide_adult == kept_or(bool_field(saved@, "wall_hide_adult"@), s.wall_hide_adult)) by {
        reveal(Switches::has);
        assert(restored_flags()[2] == Flag::WallHideAdult);
        a_switch_after_a_start(s, restored_flags(), saved@, Flag::WallHideAdult);
    }
    assert(t.auto_connections == kept_or(bool_field(saved@, "auto_connections"@), s.auto_connections)) by {
        reveal(Switches::has);
        assert(restored_flags()[3] == Flag::AutoConnections);
        a_switch_after_a_start(s, restored_flags(), saved@, Flag::AutoConnections);
    }
    assert(t.update_checks == kept_or(bool_field(saved@, "update_checks"@), s.update_checks)) by {
        reveal(Switches::has);
        assert(restored_flags()[28] == Flag::UpdateChecks);
        a_switch_after_a_start(s, restored_flags(), saved@, Flag::UpdateChecks);
    }
    assert(t.unit_bits == kept_or(bool_field(saved@, "unit_bits"@), s.unit_bits)) by {
        reveal(Switches::has);
        assert(restored_flags()[29] == Flag::UnitBits);
        a_switch_after_a_start(s, restored_flags(), saved@, Flag::UnitBits);
    }
    assert(t.index_coverage == kept_or(bool_field(saved@, "index_coverage"@), s.index_coverage)) by {
        reveal(Switches::has);
        assert(restored_flags()[30] == Flag::IndexCoverage);
        a_switch_after_a_start(s, restored_flags(), saved@, Flag::IndexCoverage);
    }
    assert(t.auto_prefetch == kept_or(bool_field(saved@, "auto_prefetch"@), s.auto_prefetch)) by {
        reveal(Switches::has);
        assert(restored_flags()[7] == Flag::AutoPrefetch);
        a_switch_after_a_start(s, restored_flags(), saved@, Flag::AutoPrefetch);
    }
    assert(t.race_stragglers == kept_or(bool_field(saved@, "race_stragglers"@), s.race_stragglers)) by {
        reveal(Switches::has);
        assert(restored_flags()[9] == Flag::RaceStragglers);
        a_switch_after_a_start(s, restored_flags(), saved@, Flag::RaceStragglers);
    }
    assert(t.adaptive_timeouts == kept_or(bool_field(saved@, "adaptive_timeouts"@), s.adaptive_timeouts)) by {
        reveal(Switches::has);
        assert(restored_flags()[10] == Flag::AdaptiveTimeouts);
        a_switch_after_a_start(s, restored_flags(), saved@, Flag::AdaptiveTimeouts);
    }
    assert(t.oracle_route == kept_or(bool_field(saved@, "oracle_route"@), s.oracle_route)) by {
        reveal(Switches::has);
        assert(restored_flags()[8] == Flag::OracleRoute);
        a_switch_after_a_start(s, restored_flags(), saved@, Flag::OracleRoute);
    }
    assert(t.auto_rename == kept_or(bool_field(saved@, "auto_rename"@), s.auto_rename)) by {
        reveal(Switches::has);
        assert(restored_flags()[11] == Flag::AutoRename);
        a_switch_after_a_start(s, restored_flags(), saved@, Flag::AutoRename);
    }
    assert(t.identity_lookup == kept_or(bool_field(saved@, "identity_lookup"@), s.identity_lookup)) by {
        reveal(Switches::has);
        assert(restored_flags()[12] == Flag::IdentityLookup);
        a_switch_after_a_start(s, restored_flags(), saved@, Flag::IdentityLookup);
    }
    assert(t.rename_resolution == kept_or(bool_field(saved@, "rename_resolution"@), s.rename_resolution)) by {
        reveal(Switches::has);
        assert(restored_flags()[13] == Flag::RenameResolution);
        a_switch_after_a_start(s, restored_flags(), saved@, Flag::RenameResolution);
    }
    assert(t.rename_vcodec == kept_or(bool_field(saved@, "rename_vcodec"@), s.rename_vcodec)) by {
        reveal(Switches::has);
        assert(restored_flags()[14] == Flag::RenameVcodec);
        a_switch_after_a_start(s, restored_flags(), saved@, Flag::RenameVcodec);
    }
    assert(t.rename_acodec == kept_or(bool_field(saved@, "rename_acodec"@), s.rename_acodec)) by {
        reveal(Switches::has);
        assert(restored_flags()[15] == Flag::RenameAcodec);
        a_switch_after_a_start(s, restored_flags(), saved@, Flag::RenameAcodec);
    }
    assert(t.rename_source == kept_or(bool_field(saved@, "rename_source"@), s.rename_source)) by {
        reveal(Switches::has);
        assert(restored_flags()[16] == Flag::RenameSource);
        a_switch_after_a_start(s, restored_flags(), saved@, Flag::RenameSource);
    }
    assert(t.rename_group == kept_or(bool_field(saved@, "rename_group"@), s.rename_group)) by {
        reveal(Switches::has);
        assert(restored_flags()[17] == Flag::RenameGroup);
        a_switch_after_a_start(s, restored_flags(), saved@, Flag::RenameGroup);
    }
    assert(t.rename_year_parens == kept_or(bool_field(saved@, "rename_year_parens"@), s.rename_year_parens)) by {
        reveal(Switches::has);
        assert(restored_flags()[18] == Flag::RenameYearParens);
        a_switch_after_a_start(s, restored_flags(), saved@, Flag::RenameYearParens);
    }
    assert(t.rename_quality_brackets == kept_or(bool_field(saved@, "rename_quality_brackets"@), s.rename_quality_brackets)) by {
        reveal(Switches::has);
        assert(restored_flags()[19] == Flag::RenameQualityBrackets);
        a_switch_after_a_start(s, restored_flags(), saved@, Flag::RenameQualityBrackets);
    }
    assert(t.rename_extra_words == kept_or(bool_field(saved@, "rename_extra_words"@), s.rename_extra_words)) by {
        reveal(Switches::has);
        assert(restored_flags()[20] == Flag::RenameExtraWords);
        a_switch_after_a_start(s, restored_flags(), saved@, Flag::RenameExtraWords);
    }
    assert(t.rename_identify == kept_or(bool_field(saved@, "rename_identify"@), s.rename_identify)) by {
        reveal(Switches::has);
        assert(restored_flags()[21] == Flag::RenameIdentify);
        a_switch_after_a_start(s, restored_flags(), saved@, Flag::RenameIdentify);
    }
    assert(t.rename_episode_titles == kept_or(bool_field(saved@, "rename_episode_titles"@), s.rename_episode_titles)) by {
        reveal(Switches::has);
        assert(restored_flags()[22] == Flag::RenameEpisodeTitles);
        a_switch_after_a_start(s, restored_flags(), saved@, Flag::RenameEpisodeTitles);
    }
    assert(t.history_color_names == kept_or(bool_field(saved@, "history_color_names"@), s.history_color_names)) by {
        reveal(Switches::has);
        assert(restored_flags()[23] == Flag::HistoryColorNames);
        a_switch_after_a_start(s, restored_flags(), saved@, Flag::HistoryColorNames);
    }
    assert(t.media_chip_color == kept_or(bool_field(saved@, "media_chip_color"@), s.media_chip_color)) by {
        reveal(Switches::has);
        assert(restored_flags()[24] == Flag::MediaChipColor);
        a_switch_after_a_start(s, restored_flags(), saved@, Flag::MediaChipColor);
    }
    assert(t.shape_chip_color == kept_or(bool_field(saved@, "shape_chip_color"@), s.shape_chip_color)) by {
        reveal(Switches::has);
        assert(restored_flags()[25] == Flag::ShapeChipColor);
        a_switch_after_a_start(s, restored_flags(), saved@, Flag::ShapeChipColor);
    }
    assert(t.rename_junk == kept_or(bool_field(saved@, "rename_junk"@), s.rename_junk)) by {
        reveal(Switches::has);
        assert(restored_flags()[26] == Flag::RenameJunk);
        a_switch_after_a_start(s, restored_flags(), saved@, Flag::RenameJunk);
    }
    assert(t.rename_media_only == kept_or(bool_field(saved@, "rename_media_only"@), s.rename_media_only)) by {
        reveal(Switches::has);
        assert(restored_flags()[27] == Flag::RenameMediaOnly);
        a_switch_after_a_start(s, restored_flags(), saved@, Flag::RenameMediaOnly);
    }
    assert(t.par_cleanup == kept_or(bool_field(saved@, "par_cleanup"@), s.par_cleanup)) by {
        reveal(Switches::has);
        assert(restored_flags()[0] == Flag::ParCleanup);
        a_switch_after_a_start(s, restored_flags(), saved@, Flag::ParCleanup);
    }
    assert(t.watch_keep_nzb == kept_or(bool_field(saved@, "watch_keep_nzb"@), s.watch_keep_nzb)) by {
        reveal(Switches::has);
        assert(restored_flags()[1] == Flag::WatchKeepNzb);
        a_switch_after_a_start(s, restored_flags(), saved@, Flag::WatchKeepNzb);
    }
}

/// The other switches are seeded before and stay as they are.
pub proof fn the_seeded_switches_stay(
    d: &mut Daemon,
    saved: &Value,
    g: Restoring,
    r: (Vec<(String, Value)>, Result<(), String>),
)
    requires
        call_ensures(restore_runtime_state, (d, saved, g), r),
    ensures
        final(d).switches.group_desc_isc == old(d).switches.group_desc_isc,
        final(d).switches.index_retention == old(d).switches.index_retention,
        final(d).switches.index_pause_on_download == old(d).switches.index_pause_on_download,
{
    let (s, t) = (old(d).switches, final(d).switches);
    assert(t.group_desc_isc == s.group_desc_isc) by {
        reveal(Switches::has);
        assert(!restored_flags().contains(Flag::GroupDescIsc));
        a_switch_after_a_start(s, restored_flags(), saved@, Flag::GroupDescIsc);
    }
    assert(t.index_retention == s.index_retention) by {
        reveal(Switches::has);
        assert(!restored_flags().contains(Flag::IndexRetention));
        a_switch_after_a_start(s, restored_flags(), saved@, Flag::IndexRetention);
    }
    assert(t.index_pause_on_download == s.index_pause_on_download) by {
        reveal(Switches::has);
        assert(!restored_flags().contains(Flag::IndexPauseOnDownload));
        a_switch_after_a_start(s, restored_flags(), saved@, Flag::IndexPauseOnDownload);
    }
}

/// Every number that is saved under its name is read back within its bounds:
/// up to eight groups scanned at once, a sample of an hour at the most, any depth,
/// and a seed of a day to a year. The others stay as they are.
pub proof fn the_saved_numbers_are_read_back(
    d: &mut Daemon,
    saved: &Value,
    g: Restoring,
    r: (Vec<(String, Value)>, Result<(), String>),
)
    requires
        call_ensures(restore_runtime_state, (d, saved, g), r),
    ensures
        final(d).numbers.index_deepen == bounded_or(
            u64_field(saved@, "index_deepen"@),
            0,
            u64::MAX as int,
            old(d).numbers.index_deepen,
        ),
        final(d).numbers.index_backfill == old(d).numbers.index_backfill,
        final(d).numbers.index_max_age_secs == old(d).numbers.index_max_age_secs,
        final(d).numbers.window == old(d).numbers.window,
        final(d).numbers.decoders == old(d).numbers.decoders,
        final(d).numbers.library_recheck_secs == old(d).numbers.library_recheck_secs,
        final(d).numbers.index_interval_secs == old(d).numbers.index_interval_secs,
        final(d).numbers.index_scan_par == bounded_or(
            u64_field(saved@, "index_scan_par"@),
            1,
            8,
            old(d).numbers.index_scan_par,
        ),
        final(d).numbers.oracle_sample == bounded_or(
            u64_field(saved@, "oracle_sample"@),
            0,
            3600,
            old(d).numbers.oracle_sample,
        ),
        final(d).numbers.predb_seed_days == bounded_or(
            u64_field(saved@, "predb_seed_days"@),
            1,
            366,
            old(d).numbers.predb_seed_days,
        ),
        final(d).numbers.line_speed == old(d).numbers.line_speed,
        final(d).numbers.min_free == old(d).numbers.min_free,
        final(d).numbers.quota == old(d).numbers.quota,
        final(d).numbers.index_max_bytes == old(d).numbers.index_max_bytes,
{
    let (s, t) = (old(d).numbers, final(d).numbers);
    assert(t.index_deepen == bounded_or(u64_field(saved@, "index_deepen"@), 0, u64::MAX as int, s.index_deepen)) by {
        reveal(Numbers::of);
        assert(restored_counts()[2] == Count::IndexDeepen);
        a_number_after_a_start(s, restored_counts(), saved@, Count::IndexDeepen);
    }
    assert(t.index_backfill == s.index_backfill) by {
        reveal(Numbers::of);
        assert(!restored_counts().contains(Count::IndexBackfill));
        a_number_after_a_start(s, restored_counts(), saved@, Count::IndexBackfill);
    }
    assert(t.index_max_age_secs == s.index_max_age_secs) by {
        reveal(Numbers::of);
        assert(!restored_counts().contains(Count::IndexMaxAgeSecs));
        a_number_after_a_start(s, restored_counts(), saved@, Count::IndexMaxAgeSecs);
    }
    assert(t.window == s.window) by {
        reveal(Numbers::of);
        assert(!restored_counts().contains(Count::Window));
        a_number_after_a_start(s, restored_counts(), saved@, Count::Window);
    }
    assert(t.decoders == s.decoders) by {
        reveal(Numbers::of);
        assert(!restored_counts().contains(Count::Decoders));
        a_number_after_a_start(s, restored_counts(), saved@, Count::Decoders);
    }
    assert(t.library_recheck_secs == s.library_recheck_secs) by {
        reveal(Numbers::of);
        assert(!restored_counts().contains(Count::LibraryRecheckSecs));
        a_number_after_a_start(s, restored_counts(), saved@, Count::LibraryRecheckSecs);
    }
    assert(t.index_interval_secs == s.index_interval_secs) by {
        reveal(Numbers::of);
        assert(!restored_counts().contains(Count::IndexIntervalSecs));
        a_number_after_a_start(s, restored_counts(), saved@, Count::IndexIntervalSecs);
    }
    assert(t.index_scan_par == bounded_or(u64_field(saved@, "index_scan_par"@), 1, 8, s.index_scan_par)) by {
        reveal(Numbers::of);
        assert(restored_counts()[0] == Count::IndexScanPar);
        a_number_after_a_start(s, restored_counts(), saved@, Count::IndexScanPar);
    }
    assert(t.oracle_sample == bounded_or(u64_field(saved@, "oracle_sample"@), 0, 3600, s.oracle_sample)) by {
        reveal(Numbers::of);
        assert(restored_counts()[1] == Count::OracleSample);
        a_number_after_a_start(s, restored_counts(), saved@, Count::OracleSample);
    }
    assert(t.predb_seed_days == bounded_or(u64_field(saved@, "predb_seed_days"@), 1, 366, s.predb_seed_days)) by {
        reveal(Numbers::of);
        assert(restored_counts()[3] == Count::PredbSeedDays);
        a_number_after_a_start(s, restored_counts(), saved@, Count::PredbSeedDays);
    }
    assert(t.line_speed == s.line_speed) by {
        reveal(Numbers::of);
        assert(!restored_counts().contains(Count::LineSpeed));
        a_number_after_a_start(s, restored_counts(), saved@, Count::LineSpeed);
    }
    assert(t.min_free == s.min_free) by {
        reveal(Numbers::of);
        assert(!restored_counts().contains(Count::MinFree));
        a_number_after_a_start(s, restored_counts(), saved@, Count::MinFree);
    }
    assert(t.quota == s.quota) by {
        reveal(Numbers::of);
        assert(!restored_counts().contains(Count::Quota));
        a_number_after_a_start(s, restored_counts(), saved@, Count::Quota);
    }
    assert(t.index_max_bytes == s.index_max_bytes) by {
        reveal(Numbers::of);
        assert(!restored_counts().contains(Count::IndexMaxBytes));
        a_number_after_a_start(s, restored_counts(), saved@, Count::IndexMaxBytes);
    }
}

/// What a start makes of the paths: how often the watched folder is looked
/// at, whether what is deleted goes to the trash, where finished downloads go
/// (one that is empty says nothing), and how long a script may run. The folders
/// themselves stay.
pub proof fn the_saved_paths_are_read_back(
    d: &mut Daemon,
    saved: &Value,
    g: Restoring,
    r: (Vec<(String, Value)>, Result<(), String>),
)
    requires
        call_ensures(restore_runtime_state, (d, saved, g), r),
    ensures
        final(d).paths.watch_interval_secs == bounded_or(
            u64_field(saved@, "watch_interval_secs"@),
            1,
            3600,
            old(d).paths.watch_interval_secs,
        ),
        final(d).paths.delete_to_trash == kept_or(
            bool_field(saved@, "delete_to_trash"@),
            old(d).paths.delete_to_trash,
        ),
        text_field(saved@, "move_completed"@) matches Some(p) ==> (p.len() > 0
            ==> final(d).paths.move_completed.deep_view() == Some(p)),
        text_field(saved@, "move_completed"@) is None || text_field(saved@, "move_completed"@)
            == Some(Seq::<char>::empty()) ==> final(d).paths.move_completed.deep_view()
            == old(d).paths.move_completed.deep_view(),
        final(d).paths.script_timeout == kept_or(
            u64_field(saved@, "script_timeout_secs"@),
            old(d).paths.script_timeout,
        ),
        final(d).paths.port == old(d).paths.port,
        final(d).paths.out_root == old(d).paths.out_root,
        final(d).paths.watch_dir == old(d).paths.watch_dir,
        final(d).paths.script == old(d).paths.script,
        final(d).paths.cfg_path == old(d).paths.cfg_path,
        final(d).paths.settings_path == old(d).paths.settings_path,
        final(d).keys == old(d).keys,
{
}

/// The categories that were saved join those there are: none is lost, each
/// saved one that is usable is there, and nothing else comes in.
pub proof fn the_saved_categories_join(
    d: &mut Daemon,
    saved: &Value,
    g: Restoring,
    r: (Vec<(String, Value)>, Result<(), String>),
)
    requires
        call_ensures(restore_runtime_state, (d, saved, g), r),
    ensures
        forall|c: Seq<char>|
            old(d).paths.cats.deep_view().contains(c) ==> #[trigger] final(d).paths.cats.deep_view().contains(c),
        text_field(saved@, "categories"@) is Some ==> forall|c: Seq<char>|
            g.clean.deep_view().contains(c) && c.len() > 0 ==> #[trigger] final(d).paths.cats.deep_view().contains(c),
        forall|c: Seq<char>| #[trigger]
            final(d).paths.cats.deep_view().contains(c) ==> old(d).paths.cats.deep_view().contains(
                c,
            ) || (g.clean.deep_view().contains(c) && text_field(saved@, "categories"@) is Some),
{
    let (a, b) = (old(d).paths.cats.deep_view(), final(d).paths.cats.deep_view());
    let clean = g.clean.deep_view();
    assert forall|c: Seq<char>| #[trigger] b.contains(c) implies a.contains(c) || (clean.contains(c)
        && text_field(saved@, "categories"@) is Some) by {
        if text_field(saved@, "categories"@) is Some {
            assert(b.to_set().contains(c));
            assert(a.to_set().union(super::not_empty(clean)).contains(c));
        }
    }
    assert forall|c: Seq<char>| a.contains(c) implies #[trigger] b.contains(c) by {
        if text_field(saved@, "categories"@) is Some {
            assert(a.to_set().contains(c));
            assert(b.to_set().contains(c));
        }
    }
    if text_field(saved@, "categories"@) is Some {
        assert forall|c: Seq<char>| clean.contains(c) && c.len() > 0 implies
            #[trigger] b.contains(c) by {
            assert(super::not_empty(clean).contains(c));
            assert(b.to_set().contains(c));
        }
    }
}

/// What a start makes of the interface, the engine, the speed and the pre
/// feed: the language, the newest notice that was seen and where updates are
/// looked for as saved; up to two hundred rows of history; how deep archives
/// within archives are unpacked; how often the line is measured; and how many
/// rows the pre feed keeps.
pub proof fn the_saved_interface_is_read_back(
    d: &mut Daemon,
    saved: &Value,
    g: Restoring,
    r: (Vec<(String, Value)>, Result<(), String>),
)
    requires
        call_ensures(restore_runtime_state, (d, saved, g), r),
    ensures
        final(d).interface.ui_locale@ == kept_or(
            text_field(saved@, "ui_locale"@),
            old(d).interface.ui_locale@,
        ),
        final(d).interface.update_serial_seen == kept_or(
            u64_field(saved@, "update_serial_seen"@),
            old(d).interface.update_serial_seen,
        ),
        final(d).interface.update_url@ == kept_or(
            text_field(saved@, "update_url"@),
            old(d).interface.update_url@,
        ),
        u64_field(saved@, "history_rows"@) matches Some(n) ==> (1 <= n <= 200
            ==> final(d).interface.history_rows == n),
        u64_field(saved@, "history_rows"@) matches Some(n) ==> (n == 0 || n > 200
            ==> final(d).interface.history_rows == old(d).interface.history_rows),
        u64_field(saved@, "history_rows"@) is None ==> final(d).interface.history_rows == old(d).interface.history_rows,
        final(d).engine.nested_max_depth == bounded_or(
            u64_field(saved@, "nested_max_depth"@),
            1,
            64,
            old(d).engine.nested_max_depth,
        ),
        final(d).engine.connections == old(d).engine.connections,
        final(d).engine.fast_verify == old(d).engine.fast_verify,
        final(d).engine.auto_retry_secs == old(d).engine.auto_retry_secs,
        final(d).engine.quota_period == old(d).engine.quota_period,
        final(d).speed.bench_interval == kept_or(
            u64_field(saved@, "bench_interval"@),
            old(d).speed.bench_interval,
        ),
        final(d).speed.speed_ceiling == old(d).speed.speed_ceiling,
        final(d).predb.max_rows == bounded_or(
            u64_field(saved@, "predb_max_rows"@),
            old(d).words.predb_rows_min as int,
            old(d).words.predb_rows_max as int,
            old(d).predb.max_rows,
        ),
        final(d).predb.enabled == old(d).predb.enabled && final(d).predb.server == old(d).predb.server,
{
}

/// What a start makes of the indexer: the interests that were applied, the
/// tip (off, or every five seconds at the most) and the gaps filled in a pass, at most
/// a hundred; the groups that interests own are those that were saved.
pub proof fn the_saved_indexing_is_read_back(
    d: &mut Daemon,
    saved: &Value,
    g: Restoring,
    r: (Vec<(String, Value)>, Result<(), String>),
)
    requires
        call_ensures(restore_runtime_state, (d, saved, g), r),
    ensures
        final(d).indexing.index_interests_applied@ == kept_or(
            text_field(saved@, "index_interests_applied"@),
            old(d).indexing.index_interests_applied@,
        ),
        text_field(saved@, "index_interests"@) is None ==> final(d).indexing.index_interests@ == old(d).indexing.index_interests@,
        u64_field(saved@, "index_tip_secs"@) is None ==> final(d).indexing.index_tip_secs == old(d).indexing.index_tip_secs,
        u64_field(saved@, "index_tip_secs"@) == Some(0u64) ==> final(d).indexing.index_tip_secs == 0,
        u64_field(saved@, "index_tip_secs"@) matches Some(n) ==> (n > 0 ==> final(d).indexing.index_tip_secs == bounded_or(Some(n), 5, u64::MAX as int, 0)),
        final(d).indexing.index_gapfill == bounded_or(
            u64_field(saved@, "index_gapfill"@),
            0,
            100,
            old(d).indexing.index_gapfill,
        ),
        super::saved_texts(saved@, "index_interest_groups"@) matches Some(l) ==> final(d).indexing.index_interest_groups.deep_view() == l,
        field(saved@, "index_interest_groups"@) is None && g.owned@.len() > 0 ==> final(d).indexing.index_interest_groups.deep_view() == g.owned.deep_view(),
        field(saved@, "index_interest_groups"@) is None && g.owned@.len() == 0 ==> final(d).indexing.index_interest_groups.deep_view() == old(d).indexing.index_interest_groups.deep_view(),
        final(d).indexing.index_enabled == old(d).indexing.index_enabled,
        final(d).indexing.index_groups == old(d).indexing.index_groups,
        final(d).indexing.index_paused == old(d).indexing.index_paused,
{
}

/// What a start makes of the switches and numbers of the automation.
pub proof fn the_saved_automation_is_read_back(
    d: &mut Daemon,
    saved: &Value,
    g: Restoring,
    r: (Vec<(String, Value)>, Result<(), String>),
)
    requires
        call_ensures(restore_runtime_state, (d, saved, g), r),
    ensures
        final(d).automation.fast_par == kept_or(
            bool_field(saved@, "fast_par"@),
            old(d).automation.fast_par,
        ),
        final(d).automation.prefer_external_unrar == kept_or(
            bool_field(saved@, "prefer_external_unrar"@),
            old(d).automation.prefer_external_unrar,
        ),
        final(d).automation.arr_giveup_threshold == kept_or(
            u64_field(saved@, "arr_giveup_threshold"@),
            old(d).automation.arr_giveup_threshold,
        ),
        final(d).automation.watchlist_external == kept_or(
            bool_field(saved@, "watchlist_external"@),
            old(d).automation.watchlist_external,
        ),
        final(d).automation.watchlist_external_set <==> old(d).automation.watchlist_external_set
            || bool_field(saved@, "watchlist_external"@) is Some,
        final(d).automation.watchlist_instant == kept_or(
            bool_field(saved@, "watchlist_instant"@),
            old(d).automation.watchlist_instant,
        ),
        u64_field(saved@, "watchlist_instant_max"@) matches Some(n) ==> (n <= 3600 ==> final(d).automation.watchlist_instant_max == n),
        u64_field(saved@, "watchlist_instant_max"@) matches Some(n) ==> (n > 3600 ==> final(d).automation.watchlist_instant_max == 3600),
        u64_field(saved@, "watchlist_instant_max"@) is None ==> final(d).automation.watchlist_instant_max == old(d).automation.watchlist_instant_max,
        final(d).automation.feeds == old(d).automation.feeds,
        final(d).automation.indexers == old(d).automation.indexers,
        final(d).automation.watchlist == old(d).automation.watchlist,
        final(d).automation.quality_prefs == old(d).automation.quality_prefs,
{
}

/// What a start makes of the words of the automation: each is the saved one
/// where that is one of its words, and stays otherwise.
pub proof fn the_saved_words_are_read_back(
    d: &mut Daemon,
    saved: &Value,
    g: Restoring,
    r: (Vec<(String, Value)>, Result<(), String>),
)
    requires
        call_ensures(restore_runtime_state, (d, saved, g), r),
    ensures
        super::saved_texts(saved@, "cleanup_exts"@) matches Some(l) ==> final(d).automation.cleanup_exts.deep_view() == l,
        super::saved_texts(saved@, "cleanup_exts"@) is None ==> final(d).automation.cleanup_exts.deep_view() == old(d).automation.cleanup_exts.deep_view(),
        text_field(saved@, "password_file"@) matches Some(p) ==> (trimmed(p).len() > 0 ==> final(d).automation.password_file@ == trimmed(p)),
        text_field(saved@, "password_file"@) is None ==> final(d).automation.password_file@ == old(d).automation.password_file@,
        final(d).automation.unpack_password_file.deep_view() == Some(
            final(d).automation.password_file@,
        ),
        text_field(saved@, "password_prompt"@) matches Some(m) ==> (m == "now"@ || m == "done"@ || m
            == "never"@ ==> final(d).automation.password_prompt@ == m),
        text_field(saved@, "password_prompt"@) matches Some(m) ==> (m != "now"@ && m != "done"@ && m
            != "never"@ ==> final(d).automation.password_prompt@ == old(d).automation.password_prompt@),
        text_field(saved@, "unpack_eat_volumes"@) matches Some(m) ==> (m != "off"@ && m != "low_disk"@
            && m != "always"@ ==> final(d).automation.unpack_eat_volumes@
            == old(d).automation.unpack_eat_volumes@),
        text_field(saved@, "failure_link"@) matches Some(m) ==> (m != "off"@ && m != "report"@ && m
            != "regrab"@ ==> final(d).automation.failure_link@ == old(d).automation.failure_link@),
        text_field(saved@, "password_prompt"@) is None ==> final(d).automation.password_prompt@ == old(d).automation.password_prompt@,
        text_field(saved@, "unpack_eat_volumes"@) matches Some(m) ==> (m == "off"@ || m == "low_disk"@
            || m == "always"@ ==> final(d).automation.unpack_eat_volumes@ == m),
        text_field(saved@, "unpack_eat_volumes"@) is None ==> final(d).automation.unpack_eat_volumes@
            == old(d).automation.unpack_eat_volumes@,
        text_field(saved@, "failure_link"@) matches Some(m) ==> (m == "off"@ || m == "report"@ || m
            == "regrab"@ ==> final(d).automation.failure_link@ == m),
        text_field(saved@, "failure_link"@) is None ==> final(d).automation.failure_link@ == old(d).automation.failure_link@,
{
}

/// A saved list takes the place of the one there is where it reads as such,
/// and only there; categories have to be valid too.
pub proof fn the_saved_lists_are_read_back(
    d: &mut Daemon,
    saved: &Value,
    g: Restoring,
    r: (Vec<(String, Value)>, Result<(), String>),
)
    requires
        call_ensures(restore_runtime_state, (d, saved, g), r),
    ensures
        field(saved@, "smart_folders"@) is Some && g.smart_folders is Ok ==> final(d).automation.smart_folders == g.smart_folders->Ok_0,
        field(saved@, "smart_folders"@) is None || g.smart_folders is Err ==> final(d).automation.smart_folders == old(d).automation.smart_folders,
        field(saved@, "custom_categories"@) is Some && g.custom_categories is Ok
            && g.custom_categories->Ok_0.valid ==> final(d).automation.custom_categories
            == g.custom_categories->Ok_0.list,
        field(saved@, "custom_categories"@) is None || g.custom_categories is Err
            || !g.custom_categories->Ok_0.valid ==> final(d).automation.custom_categories == old(d).automation.custom_categories,
        field(saved@, "notify_targets"@) is Some && g.targets is Ok ==> final(d).automation.notify_targets == g.targets->Ok_0,
        field(saved@, "notify_targets"@) is None || g.targets is Err ==> final(d).automation.notify_targets == old(d).automation.notify_targets,
        field(saved@, "arr_instances"@) is Some && g.instances is Ok ==> final(d).automation.arr_instances == g.instances->Ok_0,
        field(saved@, "arr_instances"@) is None || g.instances is Err ==> final(d).automation.arr_instances == old(d).automation.arr_instances,
{
}

/// What a start asks the rest of the process for: the mode in which archives
/// are eaten, the fast repair and the outside unpacker as they are now, first
/// and always; how what is cleaned up goes and how deep is unpacked exactly
/// where they were saved; and the speed limit of the launch last, where it is
/// one.
pub proof fn what_a_start_asks_for(
    d: &mut Daemon,
    saved: &Value,
    g: Restoring,
    r: (Vec<(String, Value)>, Result<(), String>),
)
    requires
        call_ensures(restore_runtime_state, (d, saved, g), r),
    ensures
        final(d).todo@.len() >= old(d).todo@.len() + 3,
        forall|i: int| 0 <= i < old(d).todo@.len() ==> final(d).todo@[i] == #[trigger] old(d).todo@[i],
        final(d).todo@[old(d).todo@.len() as int] == Action::Eat(
            if final(d).automation.unpack_eat_volumes@ == "always"@ {
                EatMode::Always
            } else if final(d).automation.unpack_eat_volumes@ == "low_disk"@ {
                EatMode::LowDisk
            } else {
                EatMode::Off
            },
        ),
        final(d).todo@[old(d).todo@.len() as int + 1] == Action::FastPar(final(d).automation.fast_par),
        final(d).todo@[old(d).todo@.len() as int + 2] == Action::ExternalUnrar(
            final(d).automation.prefer_external_unrar,
        ),
        text_field(saved@, "cleanup_delete_mode"@) matches Some(m) ==> final(d).todo@[old(d).todo@.len() as int + 3] == Action::Cleanup(
            if lowered(m) == "follow"@ {
                CleanupMode::Follow
            } else if lowered(m) == "delete"@ {
                CleanupMode::Delete
            } else {
                CleanupMode::Trash
            },
        ),
        u64_field(saved@, "nested_max_depth"@) is Some ==> final(d).todo@.contains(
            Action::NestedDepth(final(d).engine.nested_max_depth),
        ),
        g.speedlimit matches Some(a) ==> (a.size matches Some(bps) ==> final(d).todo@.last()
            == Action::SpeedCeiling(bps)),
        g.speedlimit is None && text_field(saved@, "cleanup_delete_mode"@) is None && u64_field(
            saved@,
            "nested_max_depth"@,
        ) is None ==> final(d).todo@.len() == old(d).todo@.len() + 3,
        r.1 is Err <==> g.speedlimit is Some && g.speedlimit->0.size is None,
{
    reveal_strlit("off");
    reveal_strlit("always");
    reveal_strlit("low_disk");
    reveal_strlit("follow");
    reveal_strlit("delete");
    reveal_strlit("trash");
    assert("always"@.len() != "off"@.len() && "always"@.len() != "low_disk"@.len());
    assert("low_disk"@.len() != "off"@.len());
    assert("delete"@[0] != "follow"@[0] && "delete"@.len() != "trash"@.len());
    let n = old(d).todo@.len() as int;
    let cleanup = text_field(saved@, "cleanup_delete_mode"@) is Some;
    if u64_field(saved@, "nested_max_depth"@) is Some {
        let k = if cleanup {
            n + 4
        } else {
            n + 3
        };
        assert(final(d).todo@[k] == Action::NestedDepth(final(d).engine.nested_max_depth));
    }
}

/// Old rows leave the index unless it is saved that they do not.
pub proof fn how_index_retention_is_seeded(saved: &Value, r: bool)
    requires
        call_ensures(seed_index_retention, (saved,), r),
    ensures
        bool_field(saved@, "index_retention"@) matches Some(b) ==> r == b,
        bool_field(saved@, "index_retention"@) is None ==> r == true,
{
}

/// The indexer rests beside a download unless it is saved that it does not.
pub proof fn how_index_pause_on_download_is_seeded(saved: &Value, r: bool)
    requires
        call_ensures(seed_index_pause_on_download, (saved,), r),
    ensures
        bool_field(saved@, "index_pause_on_download"@) matches Some(b) ==> r == b,
        bool_field(saved@, "index_pause_on_download"@) is None ==> r == true,
{
}

/// The indexer is paused only where that is saved.
pub proof fn how_index_paused_is_seeded(saved: &Value, r: bool)
    requires
        call_ensures(seed_index_paused, (saved,), r),
    ensures
        bool_field(saved@, "index_paused"@) matches Some(b) ==> r == b,
        bool_field(saved@, "index_paused"@) is None ==> r == false,
{
}

/// The pre feed is on only where that is saved.
pub proof fn how_predb_enabled_is_seeded(saved: &Value, r: bool)
    requires
        call_ensures(seed_predb_enabled, (saved,), r),
    ensures
        bool_field(saved@, "predb_enabled"@) matches Some(b) ==> r == b,
        bool_field(saved@, "predb_enabled"@) is None ==> r == false,
{
}

/// Names are suggested only where that is saved.
pub proof fn how_predb_corr_enabled_is_seeded(saved: &Value, r: bool)
    requires
        call_ensures(seed_predb_corr_enabled, (saved,), r),
    ensures
        bool_field(saved@, "predb_corr_enabled"@) matches Some(b) ==> r == b,
        bool_field(saved@, "predb_corr_enabled"@) is None ==> r == false,
{
}

/// Suggestions are applied on their own only where that is saved.
pub proof fn how_predb_corr_auto_is_seeded(saved: &Value, r: bool)
    requires
        call_ensures(seed_predb_corr_auto, (saved,), r),
    ensures
        bool_field(saved@, "predb_corr_auto"@) matches Some(b) ==> r == b,
        bool_field(saved@, "predb_corr_auto"@) is None ==> r == false,
{
}

/// Spots are on only where that is saved.
pub proof fn how_spot_enabled_is_seeded(saved: &Value, r: bool)
    requires
        call_ensures(seed_spot_enabled, (saved,), r),
    ensures
        bool_field(saved@, "spot_enabled"@) matches Some(b) ==> r == b,
        bool_field(saved@, "spot_enabled"@) is None ==> r == false,
{
}

/// A full index drops rows on its own only where that is saved.
pub proof fn how_index_evict_is_seeded(saved: &Value, r: bool)
    requires
        call_ensures(seed_index_evict, (saved,), r),
    ensures
        bool_field(saved@, "index_evict"@) matches Some(b) ==> r == b,
        bool_field(saved@, "index_evict"@) is None ==> r == false,
{
}

/// What is saved under `predb_server` counts where it is not blank, else what is built in.
pub proof fn how_predb_server_is_seeded(saved: &Value, built_in: &str, r: String)
    requires
        call_ensures(seed_predb_server, (saved, built_in), r),
    ensures
        text_field(saved@, "predb_server"@) matches Some(s) ==> (trimmed(s).len() > 0 ==> r@ == s),
        text_field(saved@, "predb_server"@) matches Some(s) ==> (trimmed(s).len() == 0 ==> r@ == built_in@),
        text_field(saved@, "predb_server"@) is None ==> r@ == built_in@,
{
}

/// What is saved under `predb_nick` counts where it is not blank, else what is built in.
pub proof fn how_predb_nick_is_seeded(saved: &Value, built_in: &str, r: String)
    requires
        call_ensures(seed_predb_nick, (saved, built_in), r),
    ensures
        text_field(saved@, "predb_nick"@) matches Some(s) ==> (trimmed(s).len() > 0 ==> r@ == s),
        text_field(saved@, "predb_nick"@) matches Some(s) ==> (trimmed(s).len() == 0 ==> r@ == built_in@),
        text_field(saved@, "predb_nick"@) is None ==> r@ == built_in@,
{
}

/// The channels that are saved count where they are not blank, else those that
/// are built in.
pub proof fn how_predb_channels_is_seeded(saved: &Value, built_in: &Vec<String>, r: String)
    requires
        call_ensures(seed_predb_channels, (saved, built_in), r),
    ensures
        text_field(saved@, "predb_channels"@) matches Some(s) ==> (trimmed(s).len() > 0 ==> r@ == s),
        text_field(saved@, "predb_channels"@) matches Some(s) ==> (trimmed(s).len() == 0 ==> r@ == joined(
            built_in.deep_view(),
            ","@,
        )),
        text_field(saved@, "predb_channels"@) is None ==> r@ == joined(built_in.deep_view(), ","@),
{
}

/// The spot groups are those of the saved list, else the one that has them.
pub proof fn how_spot_groups_is_seeded(saved: &Value, r: Vec<String>)
    requires
        call_ensures(seed_spot_groups, (saved,), r),
    ensures
        array_field(saved@, "spot_groups"@) matches Some(a) ==> r.deep_view() == strings_in(a),
        array_field(saved@, "spot_groups"@) is None ==> r.deep_view() == seq!["free.pt"@],
{
}

/// A first pass over a spot group goes back fifty thousand articles unless
/// another number is saved, and between a thousand and a million in any case.
pub proof fn how_spot_backfill_is_seeded(saved: &Value, r: u64)
    requires
        call_ensures(seed_spot_backfill, (saved,), r),
    ensures
        r == bounded_or(u64_field(saved@, "spot_backfill"@), 1_000, 1_000_000, 50_000),
{
}

/// The index has no limit unless one is saved.
pub proof fn how_index_max_bytes_is_seeded(saved: &Value, r: u64)
    requires
        call_ensures(seed_index_max_bytes, (saved,), r),
    ensures
        r == kept_or(u64_field(saved@, "index_max_bytes"@), 0),
{
}

/// The speed of the line is unknown unless it is saved.
pub proof fn how_line_speed_is_seeded(saved: &Value, r: u64)
    requires
        call_ensures(seed_line_speed, (saved,), r),
    ensures
        r == kept_or(u64_field(saved@, "line_speed"@), 0),
{
}

/// The saved order counts where it is one of the orders, else the ladder.
pub proof fn how_index_evict_order_is_seeded(saved: &Value, orders: &Vec<String>, r: String)
    requires
        call_ensures(seed_index_evict_order, (saved, orders), r),
    ensures
        text_field(saved@, "index_evict_order"@) matches Some(o) ==> (orders.deep_view().contains(o)
            ==> r@ == o),
        text_field(saved@, "index_evict_order"@) matches Some(o) ==> (!orders.deep_view().contains(o)
            ==> r@ == "ladder"@),
        text_field(saved@, "index_evict_order"@) is None ==> r@ == "ladder"@,
{
}

/// The text of the gates is the saved one, else empty; whether there are any is
/// what the launch read.
pub proof fn how_index_gates_is_seeded(saved: &Value, gates: bool, r: (String, bool))
    requires
        call_ensures(seed_index_gates, (saved, gates), r),
    ensures
        r.0@ == kept_or(text_field(saved@, "index_gates"@), ""@),
        r.1 == gates,
{
}

/// A failed job waits for what the environment says in seconds, where that is a
/// number, else for the minutes of the launch.
pub proof fn how_auto_retry_is_seeded(env: &Option<String>, mins: u64, r: u64)
    requires
        mins * 60 <= u64::MAX,
        call_ensures(seed_auto_retry_secs, (env, mins), r),
    ensures
        *env is Some && parsed_u64(env->0@) is Some ==> r == parsed_u64(env->0@)->0,
        *env is None || parsed_u64(env->0@) is None ==> r == mins * 60,
{
}

/// The preferred quality is what the saved one reads as; without one nothing is
/// preferred.
pub proof fn how_prefer_quality_is_seeded(saved: &Value, read: Option<QualityPrefs>, r: QualityPrefs)
    requires
        call_ensures(seed_quality_prefs, (saved, read), r),
    ensures
        field(saved@, "prefer_quality"@) is Some && read is Some ==> r == read->0,
        field(saved@, "prefer_quality"@) is None || read is None ==> r.res@.len() == 0 && r.vcodec@.len()
            == 0 && r.acodec@.len() == 0 && r.hdr@.len() == 0,
{
}

/// The secret of playback links is kept across starts: the saved one counts and
/// is not saved again; only without one the fresh one counts, and is saved.
pub proof fn how_the_stream_secret_is_seeded(saved: &Value, fresh: &str, r: (String, bool))
    requires
        call_ensures(seed_stream_secret, (saved, fresh), r),
    ensures
        text_field(saved@, "stream_secret"@) matches Some(s) ==> (s.len() > 0 ==> r.0@ == s && !r.1),
        text_field(saved@, "stream_secret"@) is None ==> r.0@ == fresh@ && r.1,
        text_field(saved@, "stream_secret"@) matches Some(s) ==> (s.len() == 0 ==> r.0@ == fresh@ && r.1),
{
}

/// The key of the film database is the saved one; an empty one is none.
pub proof fn how_omdb_key_is_seeded(saved: &Value, r: Option<String>)
    requires
        call_ensures(seed_omdb_key, (saved,), r),
    ensures
        text_field(saved@, "omdb_key"@) matches Some(k) ==> (k.len() > 0 ==> r.deep_view() == Some(k)),
        text_field(saved@, "omdb_key"@) matches Some(k) ==> (k.len() == 0 ==> r is None),
        text_field(saved@, "omdb_key"@) is None ==> r is None,
{
}

/// What is saved of whether the indexer is on counts before all else. While
/// nothing is, it is on exactly where there are groups, or interests that are not
/// blank.
pub proof fn when_the_indexer_is_on(saved: &Value, groups: &Vec<String>, r: bool)
    requires
        call_ensures(resolve_index_enabled, (saved, groups), r),
    ensures
        bool_field(saved@, "index_enabled"@) matches Some(b) ==> r == b,
        bool_field(saved@, "index_enabled"@) is None && groups@.len() > 0 ==> r,
        bool_field(saved@, "index_enabled"@) is None && groups@.len() == 0 && text_field(
            saved@,
            "index_interests"@,
        ) is None ==> !r,
        bool_field(saved@, "index_enabled"@) is None && groups@.len() == 0 ==> (text_field(
            saved@,
            "index_interests"@,
        ) matches Some(s) ==> r == (trimmed(s).len() > 0)),
{
}

/// A passwords file that exists is never touched; a new one holds the passwords
/// of the older setting, a line each.
pub proof fn how_the_passwords_file_begins(saved: &Value, exists: bool, r: Option<String>)
    requires
        call_ensures(password_seed, (saved, exists), r),
    ensures
        r is None <==> exists,
        !exists && super::saved_texts(saved@, "unpack_passwords"@) is None ==> r.deep_view() == Some(""@),
        !exists ==> (super::saved_texts(saved@, "unpack_passwords"@) matches Some(l) ==> (l.len() > 0
            ==> r.deep_view() == Some(joined(l, "\n"@) + "\n"@))),
{
}

/// Only a lock that another process holds refuses the start, and only after it
/// was tried again twenty-five times; one that the file system cannot take does
/// not.
pub proof fn when_a_start_is_refused(verdict: LockVerdict, retries: u32, r: LockStep)
    requires
        call_ensures(lock_step, (verdict, retries), r),
    ensures
        r == LockStep::Keep <==> verdict == LockVerdict::Ours,
        r == LockStep::GoWithout <==> verdict == LockVerdict::Unsupported,
        r == LockStep::Retry <==> verdict == LockVerdict::Held && retries < 25,
        r == LockStep::Refuse <==> verdict == LockVerdict::Held && retries >= 25,
{
}

/// A start looks like one whose settings have moved only where a key had to be
/// made, and only where something is there of an earlier run.
pub proof fn when_the_settings_seem_to_have_moved(minted: bool, spool_exists: bool, folder_in_use: bool, r: bool)
    requires
        call_ensures(config_moved, (minted, spool_exists, folder_in_use), r),
    ensures
        !minted ==> !r,
        !spool_exists && !folder_in_use ==> !r,
        minted && spool_exists ==> r,
        minted && folder_in_use ==> r,
{
}

/// The category names that were saved are the pieces between the commas.
pub proof fn which_categories_were_saved(saved: &Value, r: Vec<String>)
    requires
        call_ensures(saved_categories, (saved,), r),
    ensures
        text_field(saved@, "categories"@) matches Some(t) ==> r.deep_view() == list_of(t, ","@),
        text_field(saved@, "categories"@) is None ==> r@.len() == 0,
{
    assert(r.deep_view().len() == r@.len());
}

} // verus!
