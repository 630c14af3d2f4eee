//! A daemon of which nothing is set yet.
use vstd::prelude::*;

use crate::daemon::{
    floor_of, Automation, Count, Daemon, Engine, Flag, Indexing, Interface, Keys, Numbers, Paths,
    Predb, QualityPrefs, Speed, Switches, Vocabulary,
};
use crate::order::{sorted, sorted_set};
use crate::settings::engine::DAY;
use crate::text::glue;

verus! {

fn no_switches() -> (r: Switches)
    ensures
        forall|f: Flag| !#[trigger] r.has(f),
{
    let r: Switches = Switches {
        auto_defer: false,
        post_health: false,
        post_health_defer: false,
        wall_hide_adult: false,
        auto_connections: false,
        update_checks: false,
        unit_bits: false,
        index_coverage: false,
        auto_prefetch: false,
        race_stragglers: false,
        adaptive_timeouts: false,
        oracle_route: false,
        auto_rename: false,
        identity_lookup: false,
        rename_resolution: false,
        rename_vcodec: false,
        rename_acodec: false,
        rename_source: false,
        rename_group: false,
        rename_year_parens: false,
        rename_quality_brackets: false,
        rename_extra_words: false,
        rename_identify: false,
        rename_episode_titles: false,
        history_color_names: false,
        media_chip_color: false,
        shape_chip_color: false,
        rename_junk: false,
        rename_media_only: false,
        group_desc_isc: false,
        index_retention: false,
        index_pause_on_download: false,
        par_cleanup: false,
        watch_keep_nzb: false,
    };
    proof {
        reveal(Switches::has);
    }
    r
}

fn least_numbers() -> (r: Numbers)
    ensures
        forall|c: Count| #[trigger] r.of(c) == floor_of(c),
{
    let r: Numbers = Numbers {
        index_deepen: 0,
        index_backfill: 0,
        index_max_age_secs: 0,
        window: 1,
        decoders: 1,
        library_recheck_secs: 60,
        index_interval_secs: 30,
        index_scan_par: 1,
        oracle_sample: 0,
        predb_seed_days: 1,
        line_speed: 0,
        min_free: 0,
        quota: 0,
        index_max_bytes: 0,
    };
    proof {
        reveal(Numbers::of);
    }
    r
}

/// Whether the files lie below a folder, and no other path is set.
pub open spec fn lies_in(p: Paths, root: Seq<char>, cats: Seq<Seq<char>>) -> bool {
    &&& p.out_root@ == root + "/downloads"@
    &&& p.index_db@ == root + "/index.db"@
    &&& p.cfg_path@ == root + "/config.toml"@
    &&& p.settings_path@ == root + "/settings.json"@
    &&& sorted(p.cats.deep_view())
    &&& p.cats.deep_view().to_set() == cats.to_set()
    &&& p.port == 0 && !p.port_locked
    &&& p.move_completed is None && p.move_completed_cats@.len() == 0
    &&& p.watch_dir is None && p.watch_interval_secs == 1
    &&& !p.delete_to_trash && p.script is None && p.script_timeout == 0
}

fn paths_in(root: &str, cats: &Vec<String>) -> (r: Paths)
    ensures
        lies_in(r, root@, cats.deep_view()),
{
    Paths {
        port: 0,
        port_locked: false,
        out_root: glue(root, "/downloads"),
        move_completed: None,
        move_completed_cats: Vec::new(),
        cats: sorted_set(cats),
        watch_dir: None,
        watch_interval_secs: 1,
        delete_to_trash: false,
        script: None,
        script_timeout: 0,
        index_db: glue(root, "/index.db"),
        cfg_path: glue(root, "/config.toml"),
        settings_path: glue(root, "/settings.json"),
    }
}

/// Whether nothing of the speed is set.
pub open spec fn speed_unset(s: Speed) -> bool {
    &&& s.speed_ceiling == 0 && s.rate == 0 && !s.auto_speed && s.bench_interval == 0
    &&& s.schedule@.len() == 0 && s.schedule_text@.len() == 0 && s.tune_hint@.len() == 0
}

/// Whether nothing of the indexer is set.
pub open spec fn indexing_unset(i: Indexing) -> bool {
    &&& !i.index_enabled && !i.spot_enabled && i.spot_groups@.len() == 0 && i.spot_backfill == 0
    &&& i.library_cats@.len() == 0 && i.index_groups@.len() == 0
    &&& i.index_interests@.len() == 0 && i.index_interests_applied@.len() == 0
    &&& i.index_interest_groups@.len() == 0 && i.index_tip_secs == 0 && i.index_gapfill == 0
    &&& !i.index_paused && !i.index_evict && i.index_evict_order@.len() == 0
    &&& i.index_evict_kinds@.len() == 0 && i.index_gates@.len() == 0 && !i.index_gates_on
}

fn no_indexing() -> (r: Indexing)
    ensures
        indexing_unset(r),
{
    Indexing {
        index_enabled: false,
        spot_enabled: false,
        spot_groups: Vec::new(),
        spot_backfill: 0,
        library_cats: Vec::new(),
        index_groups: Vec::new(),
        index_interests: String::new(),
        index_interests_applied: String::new(),
        index_interest_groups: Vec::new(),
        index_tip_secs: 0,
        index_gapfill: 0,
        index_paused: false,
        index_evict: false,
        index_evict_order: String::new(),
        index_evict_kinds: Vec::new(),
        index_gates: String::new(),
        index_gates_on: false,
    }
}

/// Whether nothing of the pre feed is set.
pub open spec fn predb_unset(p: Predb) -> bool {
    &&& !p.enabled && p.server@.len() == 0 && p.channels@.len() == 0 && p.nick@.len() == 0
    &&& !p.corr_enabled && !p.corr_auto && p.max_rows == 0 && p.status@.len() == 0
}

/// Whether nothing is grabbed, sorted or announced.
pub open spec fn automation_unset(a: Automation) -> bool {
    &&& a.quality_prefs.res@.len() == 0 && a.quality_prefs.vcodec@.len() == 0
    &&& a.quality_prefs.acodec@.len() == 0 && a.quality_prefs.hdr@.len() == 0
    &&& a.feeds@.len() == 0 && a.feed_health@.len() == 0 && a.indexers@.len() == 0
    &&& a.watchlist@.len() == 0 && !a.watchlist_external && !a.watchlist_external_set
    &&& !a.watchlist_instant && a.watchlist_instant_max == 0 && a.smart_folders@.len() == 0
    &&& a.custom_categories@.len() == 0 && !a.reclassify_pending && a.cleanup_exts@.len() == 0
    &&& a.password_file@.len() == 0 && a.unpack_password_file is None
    &&& a.password_prompt@.len() == 0 && a.unpack_eat_volumes@.len() == 0 && !a.fast_par
    &&& !a.prefer_external_unrar && a.notify_targets@.len() == 0 && a.failure_link@.len() == 0
    &&& a.arr_giveup_threshold == 0 && a.arr_instances@.len() == 0
}

fn no_automation() -> (r: Automation)
    ensures
        automation_unset(r),
{
    Automation {
        quality_prefs: QualityPrefs {
            res: String::new(),
            vcodec: String::new(),
            acodec: String::new(),
            hdr: String::new(),
        },
        feeds: Vec::new(),
        feed_health: Vec::new(),
        indexers: Vec::new(),
        watchlist: Vec::new(),
        watchlist_external: false,
        watchlist_external_set: false,
        watchlist_instant: false,
        watchlist_instant_max: 0,
        smart_folders: Vec::new(),
        custom_categories: Vec::new(),
        reclassify_pending: false,
        cleanup_exts: Vec::new(),
        password_file: String::new(),
        unpack_password_file: None,
        password_prompt: String::new(),
        unpack_eat_volumes: String::new(),
        fast_par: false,
        prefer_external_unrar: false,
        notify_targets: Vec::new(),
        failure_link: String::new(),
        arr_giveup_threshold: 0,
        arr_instances: Vec::new(),
    }
}

/// A daemon whose files lie below `root`, and of which nothing is set: every
/// switch is off, every number is the least it may be, every list is empty,
/// and the categories are those that are always there.
pub fn daemon_in(root: &str, words: Vocabulary) -> (d: Daemon)
    ensures
        forall|f: Flag| !#[trigger] d.switches.has(f),
        forall|c: Count| #[trigger] d.numbers.of(c) == floor_of(c),
        lies_in(d.paths, root@, words.default_cats.deep_view()),
        d.engine == (Engine {
            connections: 1,
            fast_verify: false,
            verify_lean: false,
            out_umask: u32::MAX,
            auto_retry_secs: 0,
            quota_period: DAY,
            nested_max_depth: 0,
            mem_budget_total: 0,
        }),
        speed_unset(d.speed),
        indexing_unset(d.indexing),
        predb_unset(d.predb),
        automation_unset(d.automation),
        d.interface.history_rows == 1,
        d.interface.update_url@.len() == 0,
        d.interface.update_serial_seen == 0,
        d.interface.ui_locale@.len() == 0,
        d.keys == (Keys { apikey: None, nzbkey: None, omdb_key: None }),
        d.words == words,
        d.todo@.len() == 0,
{
    let paths: Paths = paths_in(root, &words.default_cats);
    Daemon {
        switches: no_switches(),
        numbers: least_numbers(),
        paths,
        engine: Engine {
            connections: 1,
            fast_verify: false,
            verify_lean: false,
            out_umask: u32::MAX,
            auto_retry_secs: 0,
            quota_period: DAY,
            nested_max_depth: 0,
            mem_budget_total: 0,
        },
        speed: Speed {
            speed_ceiling: 0,
            rate: 0,
            auto_speed: false,
            bench_interval: 0,
            schedule: Vec::new(),
            schedule_text: String::new(),
            tune_hint: String::new(),
        },
        indexing: no_indexing(),
        predb: Predb {
            enabled: false,
            server: String::new(),
            channels: String::new(),
            nick: String::new(),
            corr_enabled: false,
            corr_auto: false,
            max_rows: 0,
            status: String::new(),
        },
        automation: no_automation(),
        interface: Interface {
            history_rows: 1,
            update_url: String::new(),
            update_serial_seen: 0,
            ui_locale: String::new(),
        },
        keys: Keys { apikey: None, nzbkey: None, omdb_key: None },
        words,
        todo: Vec::new(),
    }
}

} // verus!
