//! The table of every setting: how it is shown, set and logged.
use crate::text::same;
use vstd::prelude::*;

verus! {

/// How a setting's value reaches the settings page.
#[derive(Clone, Copy, PartialEq, Eq, Structural, Debug)]
pub enum Expose {
    /// Read off the live daemon, under the row's own name.
    Config,
    /// Put together by whoever asks, out of values that it has already.
    Assembled,
    /// Never shown: credentials and one-shot actions.
    Hidden,
}

/// What the log may print of a setting's new value.
#[derive(Clone, Copy, PartialEq, Eq, Structural, Debug)]
pub enum Log {
    /// Nothing that can carry a credential: printed as it is.
    Plain,
    /// A credential: never printed.
    Masked,
    /// Targets whose address is a credential: kinds and a count.
    Targets,
    /// Feeds whose address holds a key: a count.
    Feeds,
    /// Search sites with a key each: a count.
    Indexers,
    /// Anything else: how long it was.
    Shape,
}

/// What can be done to a setting.
#[derive(Clone, Copy, PartialEq, Eq, Structural, Debug)]
pub enum Write {
    /// It can be set.
    Setting,
    /// It is an action, not a stored value.
    Action,
    /// It is only shown.
    No,
}

/// One row of the table.
#[derive(Clone, Copy, Debug)]
pub struct Setting {
    pub name: &'static str,
    pub expose: Expose,
    pub write: Write,
    pub log: Log,
}

/// What a row says.
pub ghost struct Row {
    pub name: Seq<char>,
    pub expose: Expose,
    pub write: Write,
    pub log: Log,
}

impl View for Setting {
    type V = Row;

    open spec fn view(&self) -> Row {
        Row { name: self.name@, expose: self.expose, write: self.write, log: self.log }
    }
}

/// What a list of rows says.
pub open spec fn rows(list: Seq<Setting>) -> Seq<Row> {
    Seq::new(list.len(), |i: int| list[i]@)
}

/// A row that is shown, can be set and is safe to log.
pub open spec fn rw_row(name: Seq<char>) -> Row {
    Row { name, expose: Expose::Config, write: Write::Setting, log: Log::Plain }
}

/// A row that is shown and can be set, and of which only the size is logged.
pub open spec fn opaque_row(name: Seq<char>) -> Row {
    Row { name, expose: Expose::Config, write: Write::Setting, log: Log::Shape }
}

/// A row that is only shown.
pub open spec fn ro_row(name: Seq<char>) -> Row {
    Row { name, expose: Expose::Config, write: Write::No, log: Log::Plain }
}

/// A row that is shown, can be set and is safe to log.
pub fn rw(name: &'static str) -> (r: Setting)
    ensures
        r@ == rw_row(name@),
{
    Setting { name, expose: Expose::Config, write: Write::Setting, log: Log::Plain }
}

/// A row that is shown and can be set, and of which only the size is logged.
pub fn rw_opaque(name: &'static str) -> (r: Setting)
    ensures
        r@ == opaque_row(name@),
{
    Setting { name, expose: Expose::Config, write: Write::Setting, log: Log::Shape }
}

/// A row that is only shown.
pub fn ro(name: &'static str) -> (r: Setting)
    ensures
        r@ == ro_row(name@),
{
    Setting { name, expose: Expose::Config, write: Write::No, log: Log::Plain }
}

/// Paths and the control port.
pub open spec fn paths_rows() -> Seq<Row> {
    seq![
        rw_row("port"@),
        rw_row("out_dir"@),
        rw_row("move_completed"@),
        rw_row("move_completed_cats"@),
        rw_row("categories"@),
        rw_row("watch"@),
        rw_row("watch_interval_secs"@),
        rw_row("delete_to_trash"@),
        rw_row("script"@),
        rw_row("script_timeout_secs"@),
        rw_row("index_db"@),
        ro_row("config_path"@),
        ro_row("settings_path"@),
    ]
}

fn paths() -> (r: Vec<Setting>)
    ensures
        rows(r@) == paths_rows(),
{
    let r: Vec<Setting> = vec![
        rw("port"),
        rw("out_dir"),
        rw("move_completed"),
        rw("move_completed_cats"),
        rw("categories"),
        rw("watch"),
        rw("watch_interval_secs"),
        rw("delete_to_trash"),
        rw("script"),
        rw("script_timeout_secs"),
        rw("index_db"),
        ro("config_path"),
        ro("settings_path"),
    ];
    assert(rows(r@) =~= paths_rows());
    r
}

/// The download engine.
pub open spec fn download_rows() -> Seq<Row> {
    seq![
        rw_row("connections"@),
        rw_row("window"@),
        rw_row("decoders"@),
        rw_row("fast_verify"@),
        rw_row("verify_mode"@),
        rw_row("min_free"@),
        rw_row("out_umask"@),
        rw_row("auto_retry_mins"@),
        rw_row("quota"@),
        rw_row("quota_period"@),
        rw_row("nested_max_depth"@),
        rw_row("mem_limit"@),
        ro_row("mem_budget_total"@),
    ]
}

fn download() -> (r: Vec<Setting>)
    ensures
        rows(r@) == download_rows(),
{
    let r: Vec<Setting> = vec![
        rw("connections"),
        rw("window"),
        rw("decoders"),
        rw("fast_verify"),
        rw("verify_mode"),
        rw("min_free"),
        rw("out_umask"),
        rw("auto_retry_mins"),
        rw("quota"),
        rw("quota_period"),
        rw("nested_max_depth"),
        rw("mem_limit"),
        ro("mem_budget_total"),
    ];
    assert(rows(r@) =~= download_rows());
    r
}

/// Speed, scheduling and the auto-tuners.
pub open spec fn speed_rows() -> Seq<Row> {
    seq![
        rw_row("speedlimit"@),
        rw_row("line_speed"@),
        rw_row("auto_speed"@),
        rw_row("auto_defer"@),
        rw_row("post_health"@),
        rw_row("post_health_defer"@),
        rw_row("wall_hide_adult"@),
        rw_row("auto_connections"@),
        ro_row("conntune"@),
        ro_row("tune_hint"@),
        rw_row("auto_prefetch"@),
        rw_row("race_stragglers"@),
        rw_row("adaptive_timeouts"@),
        rw_row("oracle_route"@),
        rw_row("oracle_sample"@),
        rw_row("bench_interval"@),
        opaque_row("schedule"@),
    ]
}

fn speed() -> (r: Vec<Setting>)
    ensures
        rows(r@) == speed_rows(),
{
    let r: Vec<Setting> = vec![
        rw("speedlimit"),
        rw("line_speed"),
        rw("auto_speed"),
        rw("auto_defer"),
        rw("post_health"),
        rw("post_health_defer"),
        rw("wall_hide_adult"),
        rw("auto_connections"),
        ro("conntune"),
        ro("tune_hint"),
        rw("auto_prefetch"),
        rw("race_stragglers"),
        rw("adaptive_timeouts"),
        rw("oracle_route"),
        rw("oracle_sample"),
        rw("bench_interval"),
        rw_opaque("schedule"),
    ];
    assert(rows(r@) =~= speed_rows());
    r
}

/// Auto-rename, and how a finished download is labelled.
pub open spec fn rename_rows() -> Seq<Row> {
    seq![
        rw_row("auto_rename"@),
        rw_row("identity_lookup"@),
        rw_row("rename_resolution"@),
        rw_row("rename_vcodec"@),
        rw_row("rename_acodec"@),
        rw_row("rename_source"@),
        rw_row("rename_group"@),
        rw_row("rename_year_parens"@),
        rw_row("rename_quality_brackets"@),
        rw_row("rename_extra_words"@),
        rw_row("rename_identify"@),
        rw_row("rename_episode_titles"@),
        rw_row("rename_junk"@),
        rw_row("rename_media_only"@),
        rw_row("history_rows"@),
        rw_row("history_color_names"@),
        rw_row("media_chip_color"@),
        rw_row("shape_chip_color"@),
    ]
}

fn rename() -> (r: Vec<Setting>)
    ensures
        rows(r@) == rename_rows(),
{
    let r: Vec<Setting> = vec![
        rw("auto_rename"),
        rw("identity_lookup"),
        rw("rename_resolution"),
        rw("rename_vcodec"),
        rw("rename_acodec"),
        rw("rename_source"),
        rw("rename_group"),
        rw("rename_year_parens"),
        rw("rename_quality_brackets"),
        rw("rename_extra_words"),
        rw("rename_identify"),
        rw("rename_episode_titles"),
        rw("rename_junk"),
        rw("rename_media_only"),
        rw("history_rows"),
        rw("history_color_names"),
        rw("media_chip_color"),
        rw("shape_chip_color"),
    ];
    assert(rows(r@) =~= rename_rows());
    r
}

/// The indexer and the library scanner.
pub open spec fn indexing_rows() -> Seq<Row> {
    seq![
        rw_row("index_enabled"@),
        rw_row("spot_enabled"@),
        rw_row("spot_groups"@),
        rw_row("spot_backfill"@),
        rw_row("library_cats"@),
        rw_row("library_recheck_secs"@),
        rw_row("index_groups"@),
        rw_row("index_interests"@),
        Row {
            name: "index_interests_applied"@,
            expose: Expose::Hidden,
            write: Write::Setting,
            log: Log::Plain,
        },
        rw_row("index_interval_secs"@),
        rw_row("index_scan_par"@),
        rw_row("index_tip_secs"@),
        rw_row("index_backfill"@),
        rw_row("index_deepen"@),
        rw_row("index_coverage"@),
        rw_row("index_gapfill"@),
        rw_row("group_desc_isc"@),
        rw_row("index_max_age_secs"@),
        rw_row("index_retention"@),
        rw_row("index_pause_on_download"@),
        rw_row("index_paused"@),
        rw_row("index_max_bytes"@),
        rw_row("index_evict"@),
        rw_row("index_evict_order"@),
        rw_row("index_evict_kinds"@),
        rw_row("index_gates"@),
        rw_row("predb_enabled"@),
        rw_row("predb_server"@),
        rw_row("predb_channels"@),
        rw_row("predb_nick"@),
        rw_row("predb_corr_enabled"@),
        rw_row("predb_corr_auto"@),
        rw_row("predb_max_rows"@),
        rw_row("predb_seed_days"@),
    ]
}

fn indexing() -> (r: Vec<Setting>)
    ensures
        rows(r@) == indexing_rows(),
{
    let r: Vec<Setting> = vec![
        rw("index_enabled"),
        rw("spot_enabled"),
        rw("spot_groups"),
        rw("spot_backfill"),
        rw("library_cats"),
        rw("library_recheck_secs"),
        rw("index_groups"),
        rw("index_interests"),
        Setting {
            name: "index_interests_applied",
            expose: Expose::Hidden,
            write: Write::Setting,
            log: Log::Plain,
        },
        rw("index_interval_secs"),
        rw("index_scan_par"),
        rw("index_tip_secs"),
        rw("index_backfill"),
        rw("index_deepen"),
        rw("index_coverage"),
        rw("index_gapfill"),
        rw("group_desc_isc"),
        rw("index_max_age_secs"),
        rw("index_retention"),
        rw("index_pause_on_download"),
        rw("index_paused"),
        rw("index_max_bytes"),
        rw("index_evict"),
        rw("index_evict_order"),
        rw("index_evict_kinds"),
        rw("index_gates"),
        rw("predb_enabled"),
        rw("predb_server"),
        rw("predb_channels"),
        rw("predb_nick"),
        rw("predb_corr_enabled"),
        rw("predb_corr_auto"),
        rw("predb_max_rows"),
        rw("predb_seed_days"),
    ];
    assert(rows(r@) =~= indexing_rows());
    r
}

/// Automation: what is grabbed, sorted and announced.
pub open spec fn automation_rows() -> Seq<Row> {
    seq![
        rw_row("prefer_quality"@),
        Row {
            name: "feeds"@,
            expose: Expose::Config,
            write: Write::Setting,
            log: Log::Feeds,
        },
        Row {
            name: "indexers"@,
            expose: Expose::Config,
            write: Write::Setting,
            log: Log::Indexers,
        },
        opaque_row("watchlist"@),
        rw_row("watchlist_external"@),
        rw_row("watchlist_instant"@),
        rw_row("watchlist_instant_max"@),
        opaque_row("smart_folders"@),
        rw_row("custom_categories"@),
        rw_row("cleanup_exts"@),
        rw_row("password_file"@),
        ro_row("password_file_count"@),
        rw_row("password_prompt"@),
        rw_row("unpack_eat_volumes"@),
        rw_row("par_cleanup"@),
        rw_row("watch_keep_nzb"@),
        rw_row("fast_par"@),
        rw_row("prefer_external_unrar"@),
        Row {
            name: "notify_targets"@,
            expose: Expose::Config,
            write: Write::Setting,
            log: Log::Targets,
        },
        rw_row("failure_link"@),
        rw_row("arr_giveup_threshold"@),
        Row {
            name: "arr_instances"@,
            expose: Expose::Config,
            write: Write::Setting,
            log: Log::Targets,
        },
    ]
}

fn automation() -> (r: Vec<Setting>)
    ensures
        rows(r@) == automation_rows(),
{
    let r: Vec<Setting> = vec![
        rw("prefer_quality"),
        Setting {
            name: "feeds",
            expose: Expose::Config,
            write: Write::Setting,
            log: Log::Feeds,
        },
        Setting {
            name: "indexers",
            expose: Expose::Config,
            write: Write::Setting,
            log: Log::Indexers,
        },
        rw_opaque("watchlist"),
        rw("watchlist_external"),
        rw("watchlist_instant"),
        rw("watchlist_instant_max"),
        rw_opaque("smart_folders"),
        rw("custom_categories"),
        rw("cleanup_exts"),
        rw("password_file"),
        ro("password_file_count"),
        rw("password_prompt"),
        rw("unpack_eat_volumes"),
        rw("par_cleanup"),
        rw("watch_keep_nzb"),
        rw("fast_par"),
        rw("prefer_external_unrar"),
        Setting {
            name: "notify_targets",
            expose: Expose::Config,
            write: Write::Setting,
            log: Log::Targets,
        },
        rw("failure_link"),
        rw("arr_giveup_threshold"),
        Setting {
            name: "arr_instances",
            expose: Expose::Config,
            write: Write::Setting,
            log: Log::Targets,
        },
    ];
    assert(rows(r@) =~= automation_rows());
    r
}

/// The dashboard, and update checking.
pub open spec fn interface_rows() -> Seq<Row> {
    seq![
        rw_row("update_checks"@),
        rw_row("unit_bits"@),
        rw_row("update_url"@),
        rw_row("ui_locale"@),
    ]
}

fn interface() -> (r: Vec<Setting>)
    ensures
        rows(r@) == interface_rows(),
{
    let r: Vec<Setting> = vec![
        rw("update_checks"),
        rw("unit_bits"),
        rw("update_url"),
        rw("ui_locale"),
    ];
    assert(rows(r@) =~= interface_rows());
    r
}

/// Credentials: set only, never shown.
pub open spec fn keys_rows() -> Seq<Row> {
    seq![
        Row {
            name: "apikey"@,
            expose: Expose::Hidden,
            write: Write::Setting,
            log: Log::Masked,
        },
        Row {
            name: "nzbkey"@,
            expose: Expose::Hidden,
            write: Write::Setting,
            log: Log::Masked,
        },
        Row {
            name: "omdb_key"@,
            expose: Expose::Hidden,
            write: Write::Setting,
            log: Log::Masked,
        },
        ro_row("has_apikey"@),
        ro_row("has_nzbkey"@),
        ro_row("has_omdb"@),
    ]
}

fn keys() -> (r: Vec<Setting>)
    ensures
        rows(r@) == keys_rows(),
{
    let r: Vec<Setting> = vec![
        Setting {
            name: "apikey",
            expose: Expose::Hidden,
            write: Write::Setting,
            log: Log::Masked,
        },
        Setting {
            name: "nzbkey",
            expose: Expose::Hidden,
            write: Write::Setting,
            log: Log::Masked,
        },
        Setting {
            name: "omdb_key",
            expose: Expose::Hidden,
            write: Write::Setting,
            log: Log::Masked,
        },
        ro("has_apikey"),
        ro("has_nzbkey"),
        ro("has_omdb"),
    ];
    assert(rows(r@) =~= keys_rows());
    r
}

/// Rows that are put together elsewhere, and actions that are no settings.
pub open spec fn runtime_rows() -> Seq<Row> {
    seq![
        Row {
            name: "servers"@,
            expose: Expose::Assembled,
            write: Write::No,
            log: Log::Plain,
        },
        Row {
            name: "servers_configured"@,
            expose: Expose::Assembled,
            write: Write::No,
            log: Log::Plain,
        },
        Row {
            name: "pending"@,
            expose: Expose::Assembled,
            write: Write::No,
            log: Log::Plain,
        },
        Row {
            name: "set_pause"@,
            expose: Expose::Hidden,
            write: Write::Action,
            log: Log::Plain,
        },
    ]
}

fn runtime() -> (r: Vec<Setting>)
    ensures
        rows(r@) == runtime_rows(),
{
    let r: Vec<Setting> = vec![
        Setting {
            name: "servers",
            expose: Expose::Assembled,
            write: Write::No,
            log: Log::Plain,
        },
        Setting {
            name: "servers_configured",
            expose: Expose::Assembled,
            write: Write::No,
            log: Log::Plain,
        },
        Setting {
            name: "pending",
            expose: Expose::Assembled,
            write: Write::No,
            log: Log::Plain,
        },
        Setting {
            name: "set_pause",
            expose: Expose::Hidden,
            write: Write::Action,
            log: Log::Plain,
        },
    ];
    assert(rows(r@) =~= runtime_rows());
    r
}

/// The table, in the order in which the settings page lays its cards out.
pub open spec fn table() -> Seq<Row> {
    paths_rows() + download_rows() + speed_rows() + rename_rows() + indexing_rows()
        + automation_rows() + interface_rows() + keys_rows() + runtime_rows()
}

fn append_rows(list: &mut Vec<Setting>, more: &Vec<Setting>)
    ensures
        rows(final(list)@) == rows(old(list)@) + rows(more@),
{
    let ghost first = rows(list@);
    let ghost second = rows(more@);
    let mut i: usize = 0;
    assert(first + second.take(0) =~= first);
    while i < more.len()
        invariant
            i <= more@.len(),
            second == rows(more@),
            rows(list@) == first + second.take(i as int),
        decreases more@.len() - i,
    {
        let ghost before = rows(list@);
        list.push(more[i]);
        assert(rows(list@) =~= before.push(more@[i as int]@));
        assert(second.take(i + 1) =~= second.take(i as int).push(second[i as int]));
        i = i + 1;
        assert(rows(list@) =~= first + second.take(i as int));
    }
    assert(second.take(second.len() as int) =~= second);
}

/// The table, in the order in which the settings page lays its cards out.
pub fn settings() -> (r: Vec<Setting>)
    ensures
        rows(r@) == table(),
{
    let mut r: Vec<Setting> = paths();
    append_rows(&mut r, &download());
    append_rows(&mut r, &speed());
    append_rows(&mut r, &rename());
    append_rows(&mut r, &indexing());
    append_rows(&mut r, &automation());
    append_rows(&mut r, &interface());
    append_rows(&mut r, &keys());
    append_rows(&mut r, &runtime());
    r
}

/// The first row of that name.
pub open spec fn find_row(list: Seq<Row>, name: Seq<char>) -> Option<Row>
    decreases list.len(),
{
    if list.len() == 0 {
        None
    } else if list[0].name == name {
        Some(list[0])
    } else {
        find_row(list.drop_first(), name)
    }
}

/// The row of that name in the table.
#[verifier::opaque]
pub open spec fn row_named(name: Seq<char>) -> Option<Row> {
    find_row(table(), name)
}

/// The row of that name.
pub fn setting(name: &str) -> (r: Option<Setting>)
    ensures
        match r {
            Some(s) => row_named(name@) == Some(s@),
            None => row_named(name@) is None,
        },
{
    let list: Vec<Setting> = settings();
    let ghost all = rows(list@);
    let mut i: usize = 0;
    proof {
        reveal(row_named);
    }
    assert(all.skip(0) =~= all);
    while i < list.len()
        invariant
            i <= list@.len(),
            all == rows(list@),
            row_named(name@) == find_row(all.skip(i as int), name@),
        decreases list@.len() - i,
    {
        let ghost rest = all.skip(i as int);
        assert(rest[0] == list@[i as int]@);
        assert(rest.drop_first() =~= all.skip(i + 1));
        if same(list[i].name, name) {
            return Some(list[i]);
        }
        i = i + 1;
    }
    assert(all.skip(i as int).len() == 0);
    None
}

} // verus!
