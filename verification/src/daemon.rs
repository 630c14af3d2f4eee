//! The state of a running daemon that its settings live in.
use crate::text::same;
use crate::value::Value;
use vstd::prelude::*;

verus! {

/// A feed that is polled, and the JSON that it is stored as.
pub struct Feed {
    pub url: String,
    pub json: Value,
}

/// What the last poll of a feed did.
pub struct FeedHealth {
    pub url: String,
    pub last_poll: u64,
    pub last_error: Option<String>,
    pub items_seen: u64,
}

/// An account at a search site.
pub struct Indexer {
    pub name: String,
    pub url: String,
    pub apikey: String,
    pub enabled: bool,
    pub priority: u64,
    pub hits_per_day: u64,
    pub grabs_per_day: u64,
}

/// A media server or webhook that is told of finished jobs.
pub struct Target {
    pub name: String,
    pub kind: String,
    pub url: String,
    pub token: String,
    pub body: String,
    pub enabled: bool,
    pub on_failure: bool,
    pub category: String,
}

/// A Sonarr or Radarr that the give-up breaker may act on.
pub struct ArrInstance {
    pub name: String,
    pub kind: String,
    pub url: String,
    pub apikey: String,
    pub enabled: bool,
}

/// Which quality is preferred; an empty word means no opinion.
pub struct QualityPrefs {
    pub res: String,
    pub vcodec: String,
    pub acodec: String,
    pub hdr: String,
}

/// Where the finished downloads of a category go.
pub struct CatDest {
    pub cat: String,
    pub path: String,
}

/// How much of a download is checked as it arrives.
#[derive(Clone, Copy, PartialEq, Eq, Structural, Debug)]
pub enum VerifyMode {
    Full,
    Fast,
    Lean,
}

/// Whether an unpack may delete the volumes it has read.
#[derive(Clone, Copy, PartialEq, Eq, Structural, Debug)]
pub enum EatMode {
    Off,
    LowDisk,
    Always,
}

/// How cleanup deletes.
#[derive(Clone, Copy, PartialEq, Eq, Structural, Debug)]
pub enum CleanupMode {
    Follow,
    Trash,
    Delete,
}

/// Work that a change of settings asks of the rest of the process. What it
/// is about stands in the daemon's fields.
#[derive(Clone, Copy, PartialEq, Eq, Structural, Debug)]
pub enum Action {
    /// Make this the speed ceiling.
    SpeedCeiling(u64),
    /// Make this the speed ceiling, on the schedule's behalf.
    ScheduleCeiling(u64),
    /// Pause the queue.
    Pause,
    /// Resume the queue.
    Resume,
    /// Stop the running prefetch.
    StopSidecar,
    /// Start an index pass now.
    ScanNow,
    /// List the watch folder now.
    WatchScan,
    /// Check the watchlist now.
    WatchlistNow,
    /// Retire connection knees that were measured under a lower ceiling.
    ReopenKnees(u64),
    /// Save this as `verify_mode`.
    SaveVerifyMode(VerifyMode),
    /// Turn the recorded interests into groups.
    ApplyInterests,
    /// Close the index database.
    CloseIndex,
    /// Hand the switch to the repair library.
    FastPar(bool),
    /// Hand the switch to the unpacker.
    ExternalUnrar(bool),
    /// Hand the depth cap to the unpacker.
    NestedDepth(u64),
    /// Hand the mode to the unpack ladder.
    Eat(EatMode),
    /// Hand the mode to the cleanup.
    Cleanup(CleanupMode),
    /// Create the watch folder.
    CreateWatchDir,
    /// Write the API key to its file.
    WriteKeyFile,
    /// Remove the API key's file.
    RemoveKeyFile,
}

/// Words and bounds that the process was built with.
pub struct Vocabulary {
    pub ui_locales: Vec<String>,
    pub evict_orders: Vec<String>,
    pub evict_kinds: Vec<String>,
    pub default_cats: Vec<String>,
    pub predb_host: String,
    pub predb_channels: Vec<String>,
    pub predb_nick: String,
    pub predb_rows_min: u64,
    pub predb_rows_max: u64,
}


/// Plain switches.
#[derive(Clone, Copy)]
pub struct Switches {
    pub auto_defer: bool,
    pub post_health: bool,
    pub post_health_defer: bool,
    pub wall_hide_adult: bool,
    pub auto_connections: bool,
    pub update_checks: bool,
    pub unit_bits: bool,
    pub index_coverage: bool,
    pub auto_prefetch: bool,
    pub race_stragglers: bool,
    pub adaptive_timeouts: bool,
    pub oracle_route: bool,
    pub auto_rename: bool,
    pub identity_lookup: bool,
    pub rename_resolution: bool,
    pub rename_vcodec: bool,
    pub rename_acodec: bool,
    pub rename_source: bool,
    pub rename_group: bool,
    pub rename_year_parens: bool,
    pub rename_quality_brackets: bool,
    pub rename_extra_words: bool,
    pub rename_identify: bool,
    pub rename_episode_titles: bool,
    pub history_color_names: bool,
    pub media_chip_color: bool,
    pub shape_chip_color: bool,
    pub rename_junk: bool,
    pub rename_media_only: bool,
    pub group_desc_isc: bool,
    pub index_retention: bool,
    pub index_pause_on_download: bool,
    pub par_cleanup: bool,
    pub watch_keep_nzb: bool,
}

/// Plain numbers.
#[derive(Clone, Copy)]
pub struct Numbers {
    pub index_deepen: u64,
    pub index_backfill: u64,
    pub index_max_age_secs: u64,
    pub window: u64,
    pub decoders: u64,
    pub library_recheck_secs: u64,
    pub index_interval_secs: u64,
    pub index_scan_par: u64,
    pub oracle_sample: u64,
    pub predb_seed_days: u64,
    pub line_speed: u64,
    pub min_free: u64,
    pub quota: u64,
    pub index_max_bytes: u64,
}

/// Paths and the control port.
pub struct Paths {
    pub port: u16,
    pub port_locked: bool,
    pub out_root: String,
    pub move_completed: Option<String>,
    pub move_completed_cats: Vec<CatDest>,
    pub cats: Vec<String>,
    pub watch_dir: Option<String>,
    pub watch_interval_secs: u64,
    pub delete_to_trash: bool,
    pub script: Option<String>,
    pub script_timeout: u64,
    pub index_db: String,
    pub cfg_path: String,
    pub settings_path: String,
}

/// The download engine.
pub struct Engine {
    pub connections: u64,
    pub fast_verify: bool,
    pub verify_lean: bool,
    pub out_umask: u32,
    pub auto_retry_secs: u64,
    pub quota_period: u8,
    pub nested_max_depth: u64,
    pub mem_budget_total: u64,
}

/// Speed, scheduling and the auto-tuners.
pub struct Speed {
    pub speed_ceiling: u64,
    pub rate: u64,
    pub auto_speed: bool,
    pub bench_interval: u64,
    pub schedule: Vec<Value>,
    pub schedule_text: String,
    pub tune_hint: String,
}

/// The indexer and the library scanner.
pub struct Indexing {
    pub index_enabled: bool,
    pub spot_enabled: bool,
    pub spot_groups: Vec<String>,
    pub spot_backfill: u64,
    pub library_cats: Vec<String>,
    pub index_groups: Vec<String>,
    pub index_interests: String,
    pub index_interests_applied: String,
    pub index_interest_groups: Vec<String>,
    pub index_tip_secs: u64,
    pub index_gapfill: u64,
    pub index_paused: bool,
    pub index_evict: bool,
    pub index_evict_order: String,
    pub index_evict_kinds: Vec<String>,
    pub index_gates: String,
    pub index_gates_on: bool,
}

/// The pre feed.
pub struct Predb {
    pub enabled: bool,
    pub server: String,
    pub channels: String,
    pub nick: String,
    pub corr_enabled: bool,
    pub corr_auto: bool,
    pub max_rows: u64,
    pub status: String,
}

/// What is grabbed, sorted and announced.
pub struct Automation {
    pub quality_prefs: QualityPrefs,
    pub feeds: Vec<Feed>,
    pub feed_health: Vec<FeedHealth>,
    pub indexers: Vec<Indexer>,
    pub watchlist: Vec<Value>,
    pub watchlist_external: bool,
    pub watchlist_external_set: bool,
    pub watchlist_instant: bool,
    pub watchlist_instant_max: u32,
    pub smart_folders: Vec<Value>,
    pub custom_categories: Vec<Value>,
    pub reclassify_pending: bool,
    pub cleanup_exts: Vec<String>,
    pub password_file: String,
    pub unpack_password_file: Option<String>,
    pub password_prompt: String,
    pub unpack_eat_volumes: String,
    pub fast_par: bool,
    pub prefer_external_unrar: bool,
    pub notify_targets: Vec<Target>,
    pub failure_link: String,
    pub arr_giveup_threshold: u64,
    pub arr_instances: Vec<ArrInstance>,
}

/// The dashboard and update checking.
pub struct Interface {
    pub history_rows: u64,
    pub update_url: String,
    pub update_serial_seen: u64,
    pub ui_locale: String,
}

/// Credentials.
pub struct Keys {
    pub apikey: Option<String>,
    pub nzbkey: Option<String>,
    pub omdb_key: Option<String>,
}

/// The live settings of a daemon.
pub struct Daemon {
    pub switches: Switches,
    pub numbers: Numbers,
    pub paths: Paths,
    pub engine: Engine,
    pub speed: Speed,
    pub indexing: Indexing,
    pub predb: Predb,
    pub automation: Automation,
    pub interface: Interface,
    pub keys: Keys,
    pub words: Vocabulary,
    pub todo: Vec<Action>,
}

/// A switch that is one field of the daemon, set and read as it stands.
#[derive(Clone, Copy, PartialEq, Eq, Structural, Debug)]
pub enum Flag {
    AutoDefer,
    PostHealth,
    PostHealthDefer,
    WallHideAdult,
    AutoConnections,
    UpdateChecks,
    UnitBits,
    IndexCoverage,
    AutoPrefetch,
    RaceStragglers,
    AdaptiveTimeouts,
    OracleRoute,
    AutoRename,
    IdentityLookup,
    RenameResolution,
    RenameVcodec,
    RenameAcodec,
    RenameSource,
    RenameGroup,
    RenameYearParens,
    RenameQualityBrackets,
    RenameExtraWords,
    RenameIdentify,
    RenameEpisodeTitles,
    HistoryColorNames,
    MediaChipColor,
    ShapeChipColor,
    RenameJunk,
    RenameMediaOnly,
    GroupDescIsc,
    IndexRetention,
    IndexPauseOnDownload,
    ParCleanup,
    WatchKeepNzb,
}

/// A number that is one field of the daemon, set within bounds and read as it
/// stands.
#[derive(Clone, Copy, PartialEq, Eq, Structural, Debug)]
pub enum Count {
    IndexDeepen,
    IndexBackfill,
    IndexMaxAgeSecs,
    Window,
    Decoders,
    LibraryRecheckSecs,
    IndexIntervalSecs,
    IndexScanPar,
    OracleSample,
    PredbSeedDays,
    LineSpeed,
    MinFree,
    Quota,
    IndexMaxBytes,
}

impl Switches {
    /// Whether the switch is on.
    #[verifier::opaque]
    pub open spec fn has(self, f: Flag) -> bool {
        match f {
            Flag::AutoDefer => self.auto_defer,
            Flag::PostHealth => self.post_health,
            Flag::PostHealthDefer => self.post_health_defer,
            Flag::WallHideAdult => self.wall_hide_adult,
            Flag::AutoConnections => self.auto_connections,
            Flag::UpdateChecks => self.update_checks,
            Flag::UnitBits => self.unit_bits,
            Flag::IndexCoverage => self.index_coverage,
            Flag::AutoPrefetch => self.auto_prefetch,
            Flag::RaceStragglers => self.race_stragglers,
            Flag::AdaptiveTimeouts => self.adaptive_timeouts,
            Flag::OracleRoute => self.oracle_route,
            Flag::AutoRename => self.auto_rename,
            Flag::IdentityLookup => self.identity_lookup,
            Flag::RenameResolution => self.rename_resolution,
            Flag::RenameVcodec => self.rename_vcodec,
            Flag::RenameAcodec => self.rename_acodec,
            Flag::RenameSource => self.rename_source,
            Flag::RenameGroup => self.rename_group,
            Flag::RenameYearParens => self.rename_year_parens,
            Flag::RenameQualityBrackets => self.rename_quality_brackets,
            Flag::RenameExtraWords => self.rename_extra_words,
            Flag::RenameIdentify => self.rename_identify,
            Flag::RenameEpisodeTitles => self.rename_episode_titles,
            Flag::HistoryColorNames => self.history_color_names,
            Flag::MediaChipColor => self.media_chip_color,
            Flag::ShapeChipColor => self.shape_chip_color,
            Flag::RenameJunk => self.rename_junk,
            Flag::RenameMediaOnly => self.rename_media_only,
            Flag::GroupDescIsc => self.group_desc_isc,
            Flag::IndexRetention => self.index_retention,
            Flag::IndexPauseOnDownload => self.index_pause_on_download,
            Flag::ParCleanup => self.par_cleanup,
            Flag::WatchKeepNzb => self.watch_keep_nzb,
        }
    }

    /// The switches with that one set and no other changed.
    #[verifier::opaque]
    pub open spec fn with(self, f: Flag, on: bool) -> Switches {
        match f {
            Flag::AutoDefer => Switches { auto_defer: on, ..self },
            Flag::PostHealth => Switches { post_health: on, ..self },
            Flag::PostHealthDefer => Switches { post_health_defer: on, ..self },
            Flag::WallHideAdult => Switches { wall_hide_adult: on, ..self },
            Flag::AutoConnections => Switches { auto_connections: on, ..self },
            Flag::UpdateChecks => Switches { update_checks: on, ..self },
            Flag::UnitBits => Switches { unit_bits: on, ..self },
            Flag::IndexCoverage => Switches { index_coverage: on, ..self },
            Flag::AutoPrefetch => Switches { auto_prefetch: on, ..self },
            Flag::RaceStragglers => Switches { race_stragglers: on, ..self },
            Flag::AdaptiveTimeouts => Switches { adaptive_timeouts: on, ..self },
            Flag::OracleRoute => Switches { oracle_route: on, ..self },
            Flag::AutoRename => Switches { auto_rename: on, ..self },
            Flag::IdentityLookup => Switches { identity_lookup: on, ..self },
            Flag::RenameResolution => Switches { rename_resolution: on, ..self },
            Flag::RenameVcodec => Switches { rename_vcodec: on, ..self },
            Flag::RenameAcodec => Switches { rename_acodec: on, ..self },
            Flag::RenameSource => Switches { rename_source: on, ..self },
            Flag::RenameGroup => Switches { rename_group: on, ..self },
            Flag::RenameYearParens => Switches { rename_year_parens: on, ..self },
            Flag::RenameQualityBrackets => Switches { rename_quality_brackets: on, ..self },
            Flag::RenameExtraWords => Switches { rename_extra_words: on, ..self },
            Flag::RenameIdentify => Switches { rename_identify: on, ..self },
            Flag::RenameEpisodeTitles => Switches { rename_episode_titles: on, ..self },
            Flag::HistoryColorNames => Switches { history_color_names: on, ..self },
            Flag::MediaChipColor => Switches { media_chip_color: on, ..self },
            Flag::ShapeChipColor => Switches { shape_chip_color: on, ..self },
            Flag::RenameJunk => Switches { rename_junk: on, ..self },
            Flag::RenameMediaOnly => Switches { rename_media_only: on, ..self },
            Flag::GroupDescIsc => Switches { group_desc_isc: on, ..self },
            Flag::IndexRetention => Switches { index_retention: on, ..self },
            Flag::IndexPauseOnDownload => Switches { index_pause_on_download: on, ..self },
            Flag::ParCleanup => Switches { par_cleanup: on, ..self },
            Flag::WatchKeepNzb => Switches { watch_keep_nzb: on, ..self },
        }
    }

    /// Whether the switch is on.
    pub fn get(&self, f: Flag) -> (r: bool)
        ensures
            r == self.has(f),
    {
        reveal(Switches::has);
        match f {
            Flag::AutoDefer => self.auto_defer,
            Flag::PostHealth => self.post_health,
            Flag::PostHealthDefer => self.post_health_defer,
            Flag::WallHideAdult => self.wall_hide_adult,
            Flag::AutoConnections => self.auto_connections,
            Flag::UpdateChecks => self.update_checks,
            Flag::UnitBits => self.unit_bits,
            Flag::IndexCoverage => self.index_coverage,
            Flag::AutoPrefetch => self.auto_prefetch,
            Flag::RaceStragglers => self.race_stragglers,
            Flag::AdaptiveTimeouts => self.adaptive_timeouts,
            Flag::OracleRoute => self.oracle_route,
            Flag::AutoRename => self.auto_rename,
            Flag::IdentityLookup => self.identity_lookup,
            Flag::RenameResolution => self.rename_resolution,
            Flag::RenameVcodec => self.rename_vcodec,
            Flag::RenameAcodec => self.rename_acodec,
            Flag::RenameSource => self.rename_source,
            Flag::RenameGroup => self.rename_group,
            Flag::RenameYearParens => self.rename_year_parens,
            Flag::RenameQualityBrackets => self.rename_quality_brackets,
            Flag::RenameExtraWords => self.rename_extra_words,
            Flag::RenameIdentify => self.rename_identify,
            Flag::RenameEpisodeTitles => self.rename_episode_titles,
            Flag::HistoryColorNames => self.history_color_names,
            Flag::MediaChipColor => self.media_chip_color,
            Flag::ShapeChipColor => self.shape_chip_color,
            Flag::RenameJunk => self.rename_junk,
            Flag::RenameMediaOnly => self.rename_media_only,
            Flag::GroupDescIsc => self.group_desc_isc,
            Flag::IndexRetention => self.index_retention,
            Flag::IndexPauseOnDownload => self.index_pause_on_download,
            Flag::ParCleanup => self.par_cleanup,
            Flag::WatchKeepNzb => self.watch_keep_nzb,
        }
    }

    /// Sets the switch.
    #[verifier::rlimit(50)]
    pub fn set(&mut self, f: Flag, on: bool)
        ensures
            *final(self) == old(self).with(f, on),
    {
        reveal(Switches::with);
        *self = match f {
            Flag::AutoDefer => Switches { auto_defer: on, ..*self },
            Flag::PostHealth => Switches { post_health: on, ..*self },
            Flag::PostHealthDefer => Switches { post_health_defer: on, ..*self },
            Flag::WallHideAdult => Switches { wall_hide_adult: on, ..*self },
            Flag::AutoConnections => Switches { auto_connections: on, ..*self },
            Flag::UpdateChecks => Switches { update_checks: on, ..*self },
            Flag::UnitBits => Switches { unit_bits: on, ..*self },
            Flag::IndexCoverage => Switches { index_coverage: on, ..*self },
            Flag::AutoPrefetch => Switches { auto_prefetch: on, ..*self },
            Flag::RaceStragglers => Switches { race_stragglers: on, ..*self },
            Flag::AdaptiveTimeouts => Switches { adaptive_timeouts: on, ..*self },
            Flag::OracleRoute => Switches { oracle_route: on, ..*self },
            Flag::AutoRename => Switches { auto_rename: on, ..*self },
            Flag::IdentityLookup => Switches { identity_lookup: on, ..*self },
            Flag::RenameResolution => Switches { rename_resolution: on, ..*self },
            Flag::RenameVcodec => Switches { rename_vcodec: on, ..*self },
            Flag::RenameAcodec => Switches { rename_acodec: on, ..*self },
            Flag::RenameSource => Switches { rename_source: on, ..*self },
            Flag::RenameGroup => Switches { rename_group: on, ..*self },
            Flag::RenameYearParens => Switches { rename_year_parens: on, ..*self },
            Flag::RenameQualityBrackets => Switches { rename_quality_brackets: on, ..*self },
            Flag::RenameExtraWords => Switches { rename_extra_words: on, ..*self },
            Flag::RenameIdentify => Switches { rename_identify: on, ..*self },
            Flag::RenameEpisodeTitles => Switches { rename_episode_titles: on, ..*self },
            Flag::HistoryColorNames => Switches { history_color_names: on, ..*self },
            Flag::MediaChipColor => Switches { media_chip_color: on, ..*self },
            Flag::ShapeChipColor => Switches { shape_chip_color: on, ..*self },
            Flag::RenameJunk => Switches { rename_junk: on, ..*self },
            Flag::RenameMediaOnly => Switches { rename_media_only: on, ..*self },
            Flag::GroupDescIsc => Switches { group_desc_isc: on, ..*self },
            Flag::IndexRetention => Switches { index_retention: on, ..*self },
            Flag::IndexPauseOnDownload => Switches { index_pause_on_download: on, ..*self },
            Flag::ParCleanup => Switches { par_cleanup: on, ..*self },
            Flag::WatchKeepNzb => Switches { watch_keep_nzb: on, ..*self },
        };
    }
}

impl Numbers {
    /// The number.
    #[verifier::opaque]
    pub open spec fn of(self, c: Count) -> u64 {
        match c {
            Count::IndexDeepen => self.index_deepen,
            Count::IndexBackfill => self.index_backfill,
            Count::IndexMaxAgeSecs => self.index_max_age_secs,
            Count::Window => self.window,
            Count::Decoders => self.decoders,
            Count::LibraryRecheckSecs => self.library_recheck_secs,
            Count::IndexIntervalSecs => self.index_interval_secs,
            Count::IndexScanPar => self.index_scan_par,
            Count::OracleSample => self.oracle_sample,
            Count::PredbSeedDays => self.predb_seed_days,
            Count::LineSpeed => self.line_speed,
            Count::MinFree => self.min_free,
            Count::Quota => self.quota,
            Count::IndexMaxBytes => self.index_max_bytes,
        }
    }

    /// The numbers with that one set and no other changed.
    #[verifier::opaque]
    pub open spec fn with(self, c: Count, n: u64) -> Numbers {
        match c {
            Count::IndexDeepen => Numbers { index_deepen: n, ..self },
            Count::IndexBackfill => Numbers { index_backfill: n, ..self },
            Count::IndexMaxAgeSecs => Numbers { index_max_age_secs: n, ..self },
            Count::Window => Numbers { window: n, ..self },
            Count::Decoders => Numbers { decoders: n, ..self },
            Count::LibraryRecheckSecs => Numbers { library_recheck_secs: n, ..self },
            Count::IndexIntervalSecs => Numbers { index_interval_secs: n, ..self },
            Count::IndexScanPar => Numbers { index_scan_par: n, ..self },
            Count::OracleSample => Numbers { oracle_sample: n, ..self },
            Count::PredbSeedDays => Numbers { predb_seed_days: n, ..self },
            Count::LineSpeed => Numbers { line_speed: n, ..self },
            Count::MinFree => Numbers { min_free: n, ..self },
            Count::Quota => Numbers { quota: n, ..self },
            Count::IndexMaxBytes => Numbers { index_max_bytes: n, ..self },
        }
    }

    /// The number.
    pub fn get(&self, c: Count) -> (r: u64)
        ensures
            r == self.of(c),
    {
        reveal(Numbers::of);
        match c {
            Count::IndexDeepen => self.index_deepen,
            Count::IndexBackfill => self.index_backfill,
            Count::IndexMaxAgeSecs => self.index_max_age_secs,
            Count::Window => self.window,
            Count::Decoders => self.decoders,
            Count::LibraryRecheckSecs => self.library_recheck_secs,
            Count::IndexIntervalSecs => self.index_interval_secs,
            Count::IndexScanPar => self.index_scan_par,
            Count::OracleSample => self.oracle_sample,
            Count::PredbSeedDays => self.predb_seed_days,
            Count::LineSpeed => self.line_speed,
            Count::MinFree => self.min_free,
            Count::Quota => self.quota,
            Count::IndexMaxBytes => self.index_max_bytes,
        }
    }

    /// Sets the number.
    pub fn set(&mut self, c: Count, n: u64)
        ensures
            *final(self) == old(self).with(c, n),
    {
        reveal(Numbers::with);
        match c {
            Count::IndexDeepen => {
                self.index_deepen = n;
            },
            Count::IndexBackfill => {
                self.index_backfill = n;
            },
            Count::IndexMaxAgeSecs => {
                self.index_max_age_secs = n;
            },
            Count::Window => {
                self.window = n;
            },
            Count::Decoders => {
                self.decoders = n;
            },
            Count::LibraryRecheckSecs => {
                self.library_recheck_secs = n;
            },
            Count::IndexIntervalSecs => {
                self.index_interval_secs = n;
            },
            Count::IndexScanPar => {
                self.index_scan_par = n;
            },
            Count::OracleSample => {
                self.oracle_sample = n;
            },
            Count::PredbSeedDays => {
                self.predb_seed_days = n;
            },
            Count::LineSpeed => {
                self.line_speed = n;
            },
            Count::MinFree => {
                self.min_free = n;
            },
            Count::Quota => {
                self.quota = n;
            },
            Count::IndexMaxBytes => {
                self.index_max_bytes = n;
            },
        }
    }
}

/// A switch that was set reads as it was set.
#[verifier::rlimit(50)]
pub proof fn a_switch_reads_back(s: Switches, f: Flag, on: bool)
    ensures
        s.with(f, on).has(f) == on,
{
    reveal(Switches::has);
    reveal(Switches::with);
    match f {
        Flag::AutoDefer => assert(s.with(f, on).has(f) == on),
        Flag::PostHealth => assert(s.with(f, on).has(f) == on),
        Flag::PostHealthDefer => assert(s.with(f, on).has(f) == on),
        Flag::WallHideAdult => assert(s.with(f, on).has(f) == on),
        Flag::AutoConnections => assert(s.with(f, on).has(f) == on),
        Flag::UpdateChecks => assert(s.with(f, on).has(f) == on),
        Flag::UnitBits => assert(s.with(f, on).has(f) == on),
        Flag::IndexCoverage => assert(s.with(f, on).has(f) == on),
        Flag::AutoPrefetch => assert(s.with(f, on).has(f) == on),
        Flag::RaceStragglers => assert(s.with(f, on).has(f) == on),
        Flag::AdaptiveTimeouts => assert(s.with(f, on).has(f) == on),
        Flag::OracleRoute => assert(s.with(f, on).has(f) == on),
        Flag::AutoRename => assert(s.with(f, on).has(f) == on),
        Flag::IdentityLookup => assert(s.with(f, on).has(f) == on),
        Flag::RenameResolution => assert(s.with(f, on).has(f) == on),
        Flag::RenameVcodec => assert(s.with(f, on).has(f) == on),
        Flag::RenameAcodec => assert(s.with(f, on).has(f) == on),
        Flag::RenameSource => assert(s.with(f, on).has(f) == on),
        Flag::RenameGroup => assert(s.with(f, on).has(f) == on),
        Flag::RenameYearParens => assert(s.with(f, on).has(f) == on),
        Flag::RenameQualityBrackets => assert(s.with(f, on).has(f) == on),
        Flag::RenameExtraWords => assert(s.with(f, on).has(f) == on),
        Flag::RenameIdentify => assert(s.with(f, on).has(f) == on),
        Flag::RenameEpisodeTitles => assert(s.with(f, on).has(f) == on),
        Flag::HistoryColorNames => assert(s.with(f, on).has(f) == on),
        Flag::MediaChipColor => assert(s.with(f, on).has(f) == on),
        Flag::ShapeChipColor => assert(s.with(f, on).has(f) == on),
        Flag::RenameJunk => assert(s.with(f, on).has(f) == on),
        Flag::RenameMediaOnly => assert(s.with(f, on).has(f) == on),
        Flag::GroupDescIsc => assert(s.with(f, on).has(f) == on),
        Flag::IndexRetention => assert(s.with(f, on).has(f) == on),
        Flag::IndexPauseOnDownload => assert(s.with(f, on).has(f) == on),
        Flag::ParCleanup => assert(s.with(f, on).has(f) == on),
        Flag::WatchKeepNzb => assert(s.with(f, on).has(f) == on),
    }
}

/// Whether two sets of switches agree on every switch but one.
spec fn agree_but(s: Switches, t: Switches, f: Flag) -> bool {
    &&& f == Flag::AutoDefer || s.auto_defer == t.auto_defer
    &&& f == Flag::PostHealth || s.post_health == t.post_health
    &&& f == Flag::PostHealthDefer || s.post_health_defer == t.post_health_defer
    &&& f == Flag::WallHideAdult || s.wall_hide_adult == t.wall_hide_adult
    &&& f == Flag::AutoConnections || s.auto_connections == t.auto_connections
    &&& f == Flag::UpdateChecks || s.update_checks == t.update_checks
    &&& f == Flag::UnitBits || s.unit_bits == t.unit_bits
    &&& f == Flag::IndexCoverage || s.index_coverage == t.index_coverage
    &&& f == Flag::AutoPrefetch || s.auto_prefetch == t.auto_prefetch
    &&& f == Flag::RaceStragglers || s.race_stragglers == t.race_stragglers
    &&& f == Flag::AdaptiveTimeouts || s.adaptive_timeouts == t.adaptive_timeouts
    &&& f == Flag::OracleRoute || s.oracle_route == t.oracle_route
    &&& f == Flag::AutoRename || s.auto_rename == t.auto_rename
    &&& f == Flag::IdentityLookup || s.identity_lookup == t.identity_lookup
    &&& f == Flag::RenameResolution || s.rename_resolution == t.rename_resolution
    &&& f == Flag::RenameVcodec || s.rename_vcodec == t.rename_vcodec
    &&& f == Flag::RenameAcodec || s.rename_acodec == t.rename_acodec
    &&& f == Flag::RenameSource || s.rename_source == t.rename_source
    &&& f == Flag::RenameGroup || s.rename_group == t.rename_group
    &&& f == Flag::RenameYearParens || s.rename_year_parens == t.rename_year_parens
    &&& f == Flag::RenameQualityBrackets || s.rename_quality_brackets == t.rename_quality_brackets
    &&& f == Flag::RenameExtraWords || s.rename_extra_words == t.rename_extra_words
    &&& f == Flag::RenameIdentify || s.rename_identify == t.rename_identify
    &&& f == Flag::RenameEpisodeTitles || s.rename_episode_titles == t.rename_episode_titles
    &&& f == Flag::HistoryColorNames || s.history_color_names == t.history_color_names
    &&& f == Flag::MediaChipColor || s.media_chip_color == t.media_chip_color
    &&& f == Flag::ShapeChipColor || s.shape_chip_color == t.shape_chip_color
    &&& f == Flag::RenameJunk || s.rename_junk == t.rename_junk
    &&& f == Flag::RenameMediaOnly || s.rename_media_only == t.rename_media_only
    &&& f == Flag::GroupDescIsc || s.group_desc_isc == t.group_desc_isc
    &&& f == Flag::IndexRetention || s.index_retention == t.index_retention
    &&& f == Flag::IndexPauseOnDownload || s.index_pause_on_download == t.index_pause_on_download
    &&& f == Flag::ParCleanup || s.par_cleanup == t.par_cleanup
    &&& f == Flag::WatchKeepNzb || s.watch_keep_nzb == t.watch_keep_nzb
}

#[verifier::rlimit(50)]
proof fn with_agrees(s: Switches, f: Flag, on: bool)
    ensures
        agree_but(s, s.with(f, on), f),
{
    reveal(Switches::with);
    match f {
        Flag::AutoDefer => assert(agree_but(s, s.with(f, on), f)),
        Flag::PostHealth => assert(agree_but(s, s.with(f, on), f)),
        Flag::PostHealthDefer => assert(agree_but(s, s.with(f, on), f)),
        Flag::WallHideAdult => assert(agree_but(s, s.with(f, on), f)),
        Flag::AutoConnections => assert(agree_but(s, s.with(f, on), f)),
        Flag::UpdateChecks => assert(agree_but(s, s.with(f, on), f)),
        Flag::UnitBits => assert(agree_but(s, s.with(f, on), f)),
        Flag::IndexCoverage => assert(agree_but(s, s.with(f, on), f)),
        Flag::AutoPrefetch => assert(agree_but(s, s.with(f, on), f)),
        Flag::RaceStragglers => assert(agree_but(s, s.with(f, on), f)),
        Flag::AdaptiveTimeouts => assert(agree_but(s, s.with(f, on), f)),
        Flag::OracleRoute => assert(agree_but(s, s.with(f, on), f)),
        Flag::AutoRename => assert(agree_but(s, s.with(f, on), f)),
        Flag::IdentityLookup => assert(agree_but(s, s.with(f, on), f)),
        Flag::RenameResolution => assert(agree_but(s, s.with(f, on), f)),
        Flag::RenameVcodec => assert(agree_but(s, s.with(f, on), f)),
        Flag::RenameAcodec => assert(agree_but(s, s.with(f, on), f)),
        Flag::RenameSource => assert(agree_but(s, s.with(f, on), f)),
        Flag::RenameGroup => assert(agree_but(s, s.with(f, on), f)),
        Flag::RenameYearParens => assert(agree_but(s, s.with(f, on), f)),
        Flag::RenameQualityBrackets => assert(agree_but(s, s.with(f, on), f)),
        Flag::RenameExtraWords => assert(agree_but(s, s.with(f, on), f)),
        Flag::RenameIdentify => assert(agree_but(s, s.with(f, on), f)),
        Flag::RenameEpisodeTitles => assert(agree_but(s, s.with(f, on), f)),
        Flag::HistoryColorNames => assert(agree_but(s, s.with(f, on), f)),
        Flag::MediaChipColor => assert(agree_but(s, s.with(f, on), f)),
        Flag::ShapeChipColor => assert(agree_but(s, s.with(f, on), f)),
        Flag::RenameJunk => assert(agree_but(s, s.with(f, on), f)),
        Flag::RenameMediaOnly => assert(agree_but(s, s.with(f, on), f)),
        Flag::GroupDescIsc => assert(agree_but(s, s.with(f, on), f)),
        Flag::IndexRetention => assert(agree_but(s, s.with(f, on), f)),
        Flag::IndexPauseOnDownload => assert(agree_but(s, s.with(f, on), f)),
        Flag::ParCleanup => assert(agree_but(s, s.with(f, on), f)),
        Flag::WatchKeepNzb => assert(agree_but(s, s.with(f, on), f)),
    }
}

/// Setting one switch leaves every other as it was.
#[verifier::rlimit(50)]
pub proof fn another_switch_stays(s: Switches, f: Flag, on: bool, g: Flag)
    requires
        f != g,
    ensures
        s.with(f, on).has(g) == s.has(g),
{
    with_agrees(s, f, on);
    reveal(Switches::has);
}

/// A number that was set reads as it was set.
pub proof fn a_number_reads_back(s: Numbers, c: Count, n: u64)
    ensures
        s.with(c, n).of(c) == n,
{
    reveal(Numbers::of);
    reveal(Numbers::with);
}

/// Setting one number leaves every other as it was.
pub proof fn another_number_stays(s: Numbers, c: Count, n: u64, e: Count)
    requires
        c != e,
    ensures
        s.with(c, n).of(e) == s.of(e),
{
    reveal(Numbers::of);
    reveal(Numbers::with);
}

impl Daemon {
    /// The daemon with that switch set and nothing else changed.
    pub open spec fn with_flag(self, f: Flag, on: bool) -> Daemon {
        Daemon { switches: self.switches.with(f, on), ..self }
    }

    /// The daemon with that number set and nothing else changed.
    pub open spec fn with_count(self, c: Count, n: u64) -> Daemon {
        Daemon { numbers: self.numbers.with(c, n), ..self }
    }

    /// Sets the switch.
    pub fn set_flag(&mut self, f: Flag, on: bool)
        ensures
            *final(self) == old(self).with_flag(f, on),
    {
        self.switches.set(f, on);
    }

    /// Sets the number.
    pub fn set_count(&mut self, c: Count, n: u64)
        ensures
            *final(self) == old(self).with_count(c, n),
    {
        self.numbers.set(c, n);
    }

    /// Asks for a piece of work.
    pub fn ask(&mut self, a: Action)
        ensures
            *final(self) == (Daemon { todo: final(self).todo, ..*old(self) }),
            final(self).todo@ == old(self).todo@.push(a),
    {
        self.todo.push(a);
    }
}

/// The switch that a setting of this name is.
pub open spec fn flag_named(name: Seq<char>) -> Option<Flag> {
    if name == "auto_defer"@ {
        Some(Flag::AutoDefer)
    } else if name == "post_health"@ {
        Some(Flag::PostHealth)
    } else if name == "post_health_defer"@ {
        Some(Flag::PostHealthDefer)
    } else if name == "wall_hide_adult"@ {
        Some(Flag::WallHideAdult)
    } else if name == "auto_connections"@ {
        Some(Flag::AutoConnections)
    } else if name == "update_checks"@ {
        Some(Flag::UpdateChecks)
    } else if name == "unit_bits"@ {
        Some(Flag::UnitBits)
    } else if name == "index_coverage"@ {
        Some(Flag::IndexCoverage)
    } else if name == "auto_prefetch"@ {
        Some(Flag::AutoPrefetch)
    } else if name == "race_stragglers"@ {
        Some(Flag::RaceStragglers)
    } else if name == "adaptive_timeouts"@ {
        Some(Flag::AdaptiveTimeouts)
    } else if name == "oracle_route"@ {
        Some(Flag::OracleRoute)
    } else if name == "auto_rename"@ {
        Some(Flag::AutoRename)
    } else if name == "identity_lookup"@ {
        Some(Flag::IdentityLookup)
    } else if name == "rename_resolution"@ {
        Some(Flag::RenameResolution)
    } else if name == "rename_vcodec"@ {
        Some(Flag::RenameVcodec)
    } else if name == "rename_acodec"@ {
        Some(Flag::RenameAcodec)
    } else if name == "rename_source"@ {
        Some(Flag::RenameSource)
    } else if name == "rename_group"@ {
        Some(Flag::RenameGroup)
    } else if name == "rename_year_parens"@ {
        Some(Flag::RenameYearParens)
    } else if name == "rename_quality_brackets"@ {
        Some(Flag::RenameQualityBrackets)
    } else if name == "rename_extra_words"@ {
        Some(Flag::RenameExtraWords)
    } else if name == "rename_identify"@ {
        Some(Flag::RenameIdentify)
    } else if name == "rename_episode_titles"@ {
        Some(Flag::RenameEpisodeTitles)
    } else if name == "history_color_names"@ {
        Some(Flag::HistoryColorNames)
    } else if name == "media_chip_color"@ {
        Some(Flag::MediaChipColor)
    } else if name == "shape_chip_color"@ {
        Some(Flag::ShapeChipColor)
    } else if name == "rename_junk"@ {
        Some(Flag::RenameJunk)
    } else if name == "rename_media_only"@ {
        Some(Flag::RenameMediaOnly)
    } else if name == "group_desc_isc"@ {
        Some(Flag::GroupDescIsc)
    } else if name == "index_retention"@ {
        Some(Flag::IndexRetention)
    } else if name == "index_pause_on_download"@ {
        Some(Flag::IndexPauseOnDownload)
    } else if name == "par_cleanup"@ {
        Some(Flag::ParCleanup)
    } else if name == "watch_keep_nzb"@ {
        Some(Flag::WatchKeepNzb)
    } else {
        None
    }
}

/// The switch that a setting of this name is.
pub fn find_flag(name: &str) -> (r: Option<Flag>)
    ensures
        r == flag_named(name@),
{
    if same(name, "auto_defer") {
        Some(Flag::AutoDefer)
    } else if same(name, "post_health") {
        Some(Flag::PostHealth)
    } else if same(name, "post_health_defer") {
        Some(Flag::PostHealthDefer)
    } else if same(name, "wall_hide_adult") {
        Some(Flag::WallHideAdult)
    } else if same(name, "auto_connections") {
        Some(Flag::AutoConnections)
    } else if same(name, "update_checks") {
        Some(Flag::UpdateChecks)
    } else if same(name, "unit_bits") {
        Some(Flag::UnitBits)
    } else if same(name, "index_coverage") {
        Some(Flag::IndexCoverage)
    } else if same(name, "auto_prefetch") {
        Some(Flag::AutoPrefetch)
    } else if same(name, "race_stragglers") {
        Some(Flag::RaceStragglers)
    } else if same(name, "adaptive_timeouts") {
        Some(Flag::AdaptiveTimeouts)
    } else if same(name, "oracle_route") {
        Some(Flag::OracleRoute)
    } else if same(name, "auto_rename") {
        Some(Flag::AutoRename)
    } else if same(name, "identity_lookup") {
        Some(Flag::IdentityLookup)
    } else if same(name, "rename_resolution") {
        Some(Flag::RenameResolution)
    } else if same(name, "rename_vcodec") {
        Some(Flag::RenameVcodec)
    } else if same(name, "rename_acodec") {
        Some(Flag::RenameAcodec)
    } else if same(name, "rename_source") {
        Some(Flag::RenameSource)
    } else if same(name, "rename_group") {
        Some(Flag::RenameGroup)
    } else if same(name, "rename_year_parens") {
        Some(Flag::RenameYearParens)
    } else if same(name, "rename_quality_brackets") {
        Some(Flag::RenameQualityBrackets)
    } else if same(name, "rename_extra_words") {
        Some(Flag::RenameExtraWords)
    } else if same(name, "rename_identify") {
        Some(Flag::RenameIdentify)
    } else if same(name, "rename_episode_titles") {
        Some(Flag::RenameEpisodeTitles)
    } else if same(name, "history_color_names") {
        Some(Flag::HistoryColorNames)
    } else if same(name, "media_chip_color") {
        Some(Flag::MediaChipColor)
    } else if same(name, "shape_chip_color") {
        Some(Flag::ShapeChipColor)
    } else if same(name, "rename_junk") {
        Some(Flag::RenameJunk)
    } else if same(name, "rename_media_only") {
        Some(Flag::RenameMediaOnly)
    } else if same(name, "group_desc_isc") {
        Some(Flag::GroupDescIsc)
    } else if same(name, "index_retention") {
        Some(Flag::IndexRetention)
    } else if same(name, "index_pause_on_download") {
        Some(Flag::IndexPauseOnDownload)
    } else if same(name, "par_cleanup") {
        Some(Flag::ParCleanup)
    } else if same(name, "watch_keep_nzb") {
        Some(Flag::WatchKeepNzb)
    } else {
        None
    }
}

/// The bounded number that a setting of this name is.
pub open spec fn count_named(name: Seq<char>) -> Option<Count> {
    if name == "index_deepen"@ {
        Some(Count::IndexDeepen)
    } else if name == "index_backfill"@ {
        Some(Count::IndexBackfill)
    } else if name == "index_max_age_secs"@ {
        Some(Count::IndexMaxAgeSecs)
    } else if name == "window"@ {
        Some(Count::Window)
    } else if name == "decoders"@ {
        Some(Count::Decoders)
    } else if name == "library_recheck_secs"@ {
        Some(Count::LibraryRecheckSecs)
    } else if name == "index_interval_secs"@ {
        Some(Count::IndexIntervalSecs)
    } else if name == "index_scan_par"@ {
        Some(Count::IndexScanPar)
    } else if name == "oracle_sample"@ {
        Some(Count::OracleSample)
    } else if name == "predb_seed_days"@ {
        Some(Count::PredbSeedDays)
    } else {
        None
    }
}

/// The bounded number that a setting of this name is.
pub fn find_count(name: &str) -> (r: Option<Count>)
    ensures
        r == count_named(name@),
{
    if same(name, "index_deepen") {
        Some(Count::IndexDeepen)
    } else if same(name, "index_backfill") {
        Some(Count::IndexBackfill)
    } else if same(name, "index_max_age_secs") {
        Some(Count::IndexMaxAgeSecs)
    } else if same(name, "window") {
        Some(Count::Window)
    } else if same(name, "decoders") {
        Some(Count::Decoders)
    } else if same(name, "library_recheck_secs") {
        Some(Count::LibraryRecheckSecs)
    } else if same(name, "index_interval_secs") {
        Some(Count::IndexIntervalSecs)
    } else if same(name, "index_scan_par") {
        Some(Count::IndexScanPar)
    } else if same(name, "oracle_sample") {
        Some(Count::OracleSample)
    } else if same(name, "predb_seed_days") {
        Some(Count::PredbSeedDays)
    } else {
        None
    }
}

/// The size that a setting of this name is.
pub open spec fn size_named(name: Seq<char>) -> Option<Count> {
    if name == "line_speed"@ {
        Some(Count::LineSpeed)
    } else if name == "min_free"@ {
        Some(Count::MinFree)
    } else if name == "quota"@ {
        Some(Count::Quota)
    } else if name == "index_max_bytes"@ {
        Some(Count::IndexMaxBytes)
    } else {
        None
    }
}

/// The size that a setting of this name is.
pub fn find_size(name: &str) -> (r: Option<Count>)
    ensures
        r == size_named(name@),
{
    if same(name, "line_speed") {
        Some(Count::LineSpeed)
    } else if same(name, "min_free") {
        Some(Count::MinFree)
    } else if same(name, "quota") {
        Some(Count::Quota)
    } else if same(name, "index_max_bytes") {
        Some(Count::IndexMaxBytes)
    } else {
        None
    }
}

/// The name of a switch.
pub open spec fn flag_name(f: Flag) -> Seq<char> {
    match f {
        Flag::AutoDefer => "auto_defer"@,
        Flag::PostHealth => "post_health"@,
        Flag::PostHealthDefer => "post_health_defer"@,
        Flag::WallHideAdult => "wall_hide_adult"@,
        Flag::AutoConnections => "auto_connections"@,
        Flag::UpdateChecks => "update_checks"@,
        Flag::UnitBits => "unit_bits"@,
        Flag::IndexCoverage => "index_coverage"@,
        Flag::AutoPrefetch => "auto_prefetch"@,
        Flag::RaceStragglers => "race_stragglers"@,
        Flag::AdaptiveTimeouts => "adaptive_timeouts"@,
        Flag::OracleRoute => "oracle_route"@,
        Flag::AutoRename => "auto_rename"@,
        Flag::IdentityLookup => "identity_lookup"@,
        Flag::RenameResolution => "rename_resolution"@,
        Flag::RenameVcodec => "rename_vcodec"@,
        Flag::RenameAcodec => "rename_acodec"@,
        Flag::RenameSource => "rename_source"@,
        Flag::RenameGroup => "rename_group"@,
        Flag::RenameYearParens => "rename_year_parens"@,
        Flag::RenameQualityBrackets => "rename_quality_brackets"@,
        Flag::RenameExtraWords => "rename_extra_words"@,
        Flag::RenameIdentify => "rename_identify"@,
        Flag::RenameEpisodeTitles => "rename_episode_titles"@,
        Flag::HistoryColorNames => "history_color_names"@,
        Flag::MediaChipColor => "media_chip_color"@,
        Flag::ShapeChipColor => "shape_chip_color"@,
        Flag::RenameJunk => "rename_junk"@,
        Flag::RenameMediaOnly => "rename_media_only"@,
        Flag::GroupDescIsc => "group_desc_isc"@,
        Flag::IndexRetention => "index_retention"@,
        Flag::IndexPauseOnDownload => "index_pause_on_download"@,
        Flag::ParCleanup => "par_cleanup"@,
        Flag::WatchKeepNzb => "watch_keep_nzb"@,
    }
}

/// The name of a switch.
pub fn name_of_flag(f: Flag) -> (r: &'static str)
    ensures
        r@ == flag_name(f),
{
    match f {
        Flag::AutoDefer => "auto_defer",
        Flag::PostHealth => "post_health",
        Flag::PostHealthDefer => "post_health_defer",
        Flag::WallHideAdult => "wall_hide_adult",
        Flag::AutoConnections => "auto_connections",
        Flag::UpdateChecks => "update_checks",
        Flag::UnitBits => "unit_bits",
        Flag::IndexCoverage => "index_coverage",
        Flag::AutoPrefetch => "auto_prefetch",
        Flag::RaceStragglers => "race_stragglers",
        Flag::AdaptiveTimeouts => "adaptive_timeouts",
        Flag::OracleRoute => "oracle_route",
        Flag::AutoRename => "auto_rename",
        Flag::IdentityLookup => "identity_lookup",
        Flag::RenameResolution => "rename_resolution",
        Flag::RenameVcodec => "rename_vcodec",
        Flag::RenameAcodec => "rename_acodec",
        Flag::RenameSource => "rename_source",
        Flag::RenameGroup => "rename_group",
        Flag::RenameYearParens => "rename_year_parens",
        Flag::RenameQualityBrackets => "rename_quality_brackets",
        Flag::RenameExtraWords => "rename_extra_words",
        Flag::RenameIdentify => "rename_identify",
        Flag::RenameEpisodeTitles => "rename_episode_titles",
        Flag::HistoryColorNames => "history_color_names",
        Flag::MediaChipColor => "media_chip_color",
        Flag::ShapeChipColor => "shape_chip_color",
        Flag::RenameJunk => "rename_junk",
        Flag::RenameMediaOnly => "rename_media_only",
        Flag::GroupDescIsc => "group_desc_isc",
        Flag::IndexRetention => "index_retention",
        Flag::IndexPauseOnDownload => "index_pause_on_download",
        Flag::ParCleanup => "par_cleanup",
        Flag::WatchKeepNzb => "watch_keep_nzb",
    }
}

/// The name of a bounded number or a size.
pub open spec fn count_name(c: Count) -> Seq<char> {
    match c {
        Count::IndexDeepen => "index_deepen"@,
        Count::IndexBackfill => "index_backfill"@,
        Count::IndexMaxAgeSecs => "index_max_age_secs"@,
        Count::Window => "window"@,
        Count::Decoders => "decoders"@,
        Count::LibraryRecheckSecs => "library_recheck_secs"@,
        Count::IndexIntervalSecs => "index_interval_secs"@,
        Count::IndexScanPar => "index_scan_par"@,
        Count::OracleSample => "oracle_sample"@,
        Count::PredbSeedDays => "predb_seed_days"@,
        Count::LineSpeed => "line_speed"@,
        Count::MinFree => "min_free"@,
        Count::Quota => "quota"@,
        Count::IndexMaxBytes => "index_max_bytes"@,
    }
}

/// The name of a bounded number or a size.
pub fn name_of_count(c: Count) -> (r: &'static str)
    ensures
        r@ == count_name(c),
{
    match c {
        Count::IndexDeepen => "index_deepen",
        Count::IndexBackfill => "index_backfill",
        Count::IndexMaxAgeSecs => "index_max_age_secs",
        Count::Window => "window",
        Count::Decoders => "decoders",
        Count::LibraryRecheckSecs => "library_recheck_secs",
        Count::IndexIntervalSecs => "index_interval_secs",
        Count::IndexScanPar => "index_scan_par",
        Count::OracleSample => "oracle_sample",
        Count::PredbSeedDays => "predb_seed_days",
        Count::LineSpeed => "line_speed",
        Count::MinFree => "min_free",
        Count::Quota => "quota",
        Count::IndexMaxBytes => "index_max_bytes",
    }
}

/// The least value of a bounded number.
pub open spec fn floor_of(c: Count) -> u64 {
    match c {
        Count::Window => 1,
        Count::Decoders => 1,
        Count::LibraryRecheckSecs => 60,
        Count::IndexIntervalSecs => 30,
        Count::IndexScanPar => 1,
        Count::PredbSeedDays => 1,
        _ => 0,
    }
}

/// The greatest value of a bounded number.
pub open spec fn cap_of(c: Count) -> u64 {
    match c {
        Count::Window => 64,
        Count::Decoders => 128,
        Count::IndexScanPar => 8,
        Count::OracleSample => 3600,
        Count::PredbSeedDays => 366,
        _ => u64::MAX,
    }
}

/// `n` brought into `lo..=hi`.
pub open spec fn clamped(n: int, lo: int, hi: int) -> int {
    if n < lo {
        lo
    } else if n > hi {
        hi
    } else {
        n
    }
}

/// `n` brought into `lo..=hi`.
pub fn clamp(n: u64, lo: u64, hi: u64) -> (r: u64)
    ensures
        r == clamped(n as int, lo as int, hi as int),
{
    if n < lo {
        lo
    } else if n > hi {
        hi
    } else {
        n
    }
}

/// `n` brought into the bounds of `c`.
pub fn within(c: Count, n: u64) -> (r: u64)
    ensures
        r == clamped(n as int, floor_of(c) as int, cap_of(c) as int),
{
    match c {
        Count::Window => clamp(n, 1, 64),
        Count::Decoders => clamp(n, 1, 128),
        Count::LibraryRecheckSecs => clamp(n, 60, u64::MAX),
        Count::IndexIntervalSecs => clamp(n, 30, u64::MAX),
        Count::IndexScanPar => clamp(n, 1, 8),
        Count::OracleSample => clamp(n, 0, 3600),
        Count::PredbSeedDays => clamp(n, 1, 366),
        _ => n,
    }
}

} // verus!
