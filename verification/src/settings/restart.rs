//! What a restart keeps of the settings.
use super::automation::{eat_mode, is_failure_link, is_prompt, password_path};
use super::config::{key_shown, shown, ConfigCtx};
use super::indexing::{distinct_kinds, unknown_kind};
use super::key::{key_named, Key};
use super::outcome::{typed_number, Outcome};
use super::predb::{channel_char, channel_of, channels_of, nick_of};
use super::{
    applied, applied_automation, applied_engine, applied_indexing, applied_paths, applied_plain,
    applied_predb, group_of, key_settable, Given, Group,
};
use crate::daemon::{
    a_number_reads_back, a_switch_reads_back, cap_of, clamped, count_name, flag_name, floor_of,
    Automation, Count, Daemon, Flag, Vocabulary,
};
use crate::startup::{
    a_number_survives_a_restart, a_switch_survives_a_restart, automation_restored, bool_or,
    index_on, kinds_seeded, not_blank_or, only_texts, restored, restored_counts, restored_flags,
    text_or, u64_or, Restoring,
};
use crate::text::{
    is_on, is_white, joined, joined_starts_with_the_first, keeping_what_is_trimmed, kept,
    kept_are_trimmed, list_of, lowered, lowering_keeps_the_shape, not_blank, parsed_bounds, pieces,
    pieces_hold_no_separator, splitting_undoes_joining, trimmed, trimmed_ends, trimmed_is_part,
    trimming_twice_is_once,
};
use crate::value::{array_field, field, strings_in, text_field, texts_json, u64_of, uint_json, Json};
use vstd::prelude::*;

verus! {

/// Whether a start reads a setting back by itself, as it was stored. Of the
/// others some are seeded, and some are lists that other parts read.
pub open spec fn read_back(k: Key) -> bool {
    match k {
        Key::Switch(f) => !(f is GroupDescIsc || f is IndexRetention || f is IndexPauseOnDownload),
        Key::Number(c) => c is IndexScanPar || c is OracleSample || c is IndexDeepen
            || c is PredbSeedDays,
        _ => k is AutoPrefetch || k is RaceStragglers || k is UpdateUrl || k is UiLocale
            || k is BenchInterval || k is HistoryRows || k is NestedMaxDepth || k is IndexGapfill
            || k is IndexTipSecs || k is PredbMaxRows || k is ScriptTimeoutSecs
            || k is DeleteToTrash || k is WatchIntervalSecs || k is MoveCompleted
            || k is WatchlistExternal || k is WatchlistInstant || k is WatchlistInstantMax
            || k is CleanupExts || k is PasswordFile || k is PasswordPrompt
            || k is UnpackEatVolumes || k is FastPar || k is PreferExternalUnrar
            || k is FailureLink || k is ArrGiveupThreshold,
    }
}

/// The name under which one of these settings is stored.
pub open spec fn own_name(k: Key) -> Seq<char> {
    match k {
        Key::Switch(f) => flag_name(f),
        Key::Number(c) => count_name(c),
        Key::Size(c) => count_name(c),
        Key::AutoPrefetch => "auto_prefetch"@,
        Key::RaceStragglers => "race_stragglers"@,
        Key::UpdateUrl => "update_url"@,
        Key::UiLocale => "ui_locale"@,
        Key::BenchInterval => "bench_interval"@,
        Key::HistoryRows => "history_rows"@,
        Key::NestedMaxDepth => "nested_max_depth"@,
        Key::IndexGapfill => "index_gapfill"@,
        Key::IndexTipSecs => "index_tip_secs"@,
        Key::PredbMaxRows => "predb_max_rows"@,
        Key::ScriptTimeoutSecs => "script_timeout_secs"@,
        Key::DeleteToTrash => "delete_to_trash"@,
        Key::WatchIntervalSecs => "watch_interval_secs"@,
        Key::MoveCompleted => "move_completed"@,
        Key::WatchlistExternal => "watchlist_external"@,
        Key::WatchlistInstant => "watchlist_instant"@,
        Key::WatchlistInstantMax => "watchlist_instant_max"@,
        Key::CleanupExts => "cleanup_exts"@,
        Key::PasswordFile => "password_file"@,
        Key::PasswordPrompt => "password_prompt"@,
        Key::UnpackEatVolumes => "unpack_eat_volumes"@,
        Key::FastPar => "fast_par"@,
        Key::PreferExternalUnrar => "prefer_external_unrar"@,
        Key::FailureLink => "failure_link"@,
        Key::ArrGiveupThreshold => "arr_giveup_threshold"@,
        Key::IndexPaused => "index_paused"@,
        Key::IndexEnabled => "index_enabled"@,
        Key::PredbEnabled => "predb_enabled"@,
        Key::PredbCorrEnabled => "predb_corr_enabled"@,
        Key::PredbCorrAuto => "predb_corr_auto"@,
        Key::PredbServer => "predb_server"@,
        Key::PredbChannels => "predb_channels"@,
        Key::PredbNick => "predb_nick"@,
        Key::SpotEnabled => "spot_enabled"@,
        Key::SpotGroups => "spot_groups"@,
        Key::SpotBackfill => "spot_backfill"@,
        Key::IndexEvict => "index_evict"@,
        Key::IndexEvictOrder => "index_evict_order"@,
        Key::IndexEvictKinds => "index_evict_kinds"@,
        Key::IndexGates => "index_gates"@,
        Key::OmdbKey => "omdb_key"@,
        _ => Seq::empty(),
    }
}

/// The setting of a name is stored under that name.
proof fn a_setting_has_its_name(name: Seq<char>, k: Key)
    requires
        key_named(name) == Some(k),
        read_back(k),
    ensures
        name == own_name(k),
{
}

/// Whether a stored value says anything at the next start. A folder for
/// finished downloads that was cleared says nothing: that of the launch
/// counts again. A passwords file is read back without the white space around
/// its name.
pub open spec fn says_something(k: Key, v: Seq<char>, given: Given) -> bool {
    &&& k is MoveCompleted ==> trimmed(v).len() > 0
    &&& k is PasswordFile ==> ({
        let p = password_path(v, given.password_file.default_path@);
        p.len() > 0 && trimmed(p) == p
    })
}

/// Settings survive a restart: a setting that a start reads back, and whose
/// saved value is in the file, is shown after the start as it was stored.
pub proof fn a_setting_survives_a_restart(
    was: Daemon,
    name: Seq<char>,
    v: Seq<char>,
    given: Given,
    r: Outcome,
    set: Daemon,
    saved: Json,
    fresh: Daemon,
    g: Restoring,
    new: Daemon,
    c: ConfigCtx,
)
    requires
        key_named(name) matches Some(k) && read_back(k) && key_settable(was, k, v, given)
            && says_something(k, v, given),
        applied(was, name, v, given, r, set),
        r is Ok,
        field(saved, name) == Some(r->Ok_0.1@),
        restored(fresh, saved, g, new),
        fresh.words == was.words,
        was.words.predb_rows_min <= was.words.predb_rows_max,
        *c.d == new,
    ensures
        shown(c, name) == Some(r->Ok_0.1@),
{
    let k = key_named(name)->0;
    a_setting_has_its_name(name, k);
    match group_of(k) {
        Group::Engine => engine_survives(was, k, name, v, given, r, set, saved, fresh, g, new, c),
        Group::Indexing => indexing_survives(was, k, name, v, given, r, set, saved, fresh, g, new, c),
        Group::Predb => predb_survives(was, k, name, v, r, set, saved, fresh, g, new, c),
        Group::Automation => automation_survives(
            was, k, name, v, given, r, set, saved, fresh, g, new, c,
        ),
        Group::Paths => paths_survive(was, k, name, v, given, r, set, saved, fresh, g, new, c),
        Group::Plain => plain_survives(was, k, name, v, given, r, set, saved, fresh, g, new, c),
        Group::Lists => {},
    }
}

proof fn engine_survives(
    was: Daemon,
    k: Key,
    name: Seq<char>,
    v: Seq<char>,
    given: Given,
    r: Outcome,
    set: Daemon,
    saved: Json,
    fresh: Daemon,
    g: Restoring,
    new: Daemon,
    c: ConfigCtx,
)
    requires
        read_back(k),
        applied_engine(was, k, name, v, given, r, set),
        r is Ok,
        field(saved, own_name(k)) == Some(r->Ok_0.1@),
        restored(fresh, saved, g, new),
        *c.d == new,
    ensures
        key_shown(c, k) == Some(r->Ok_0.1@),
{
    if k is AutoPrefetch {
        let mid = was.with_flag(Flag::AutoPrefetch, is_on(v));
        restored_flags_hold(Flag::AutoPrefetch);
        a_switch_survives_a_restart(was, Flag::AutoPrefetch, v, r, mid, saved, fresh, g, new);
        a_switch_reads_back(was.switches, Flag::AutoPrefetch, is_on(v));
    } else if k is RaceStragglers {
        restored_flags_hold(Flag::RaceStragglers);
        a_switch_survives_a_restart(was, Flag::RaceStragglers, v, r, set, saved, fresh, g, new);
        a_switch_reads_back(was.switches, Flag::RaceStragglers, is_on(v));
    } else {
        parsed_bounds(trimmed(v), 10, u64::MAX as int);
    }
}

/// Every switch but the three that are seeded or never saved is read back.
proof fn restored_flags_hold(f: Flag)
    requires
        !(f is GroupDescIsc || f is IndexRetention || f is IndexPauseOnDownload),
    ensures
        restored_flags().contains(f),
{
    let all = restored_flags();
    assert(all[0] == Flag::ParCleanup);
    assert(all[1] == Flag::WatchKeepNzb);
    assert(all[2] == Flag::WallHideAdult);
    assert(all[3] == Flag::AutoConnections);
    assert(all[4] == Flag::AutoDefer);
    assert(all[5] == Flag::PostHealth);
    assert(all[6] == Flag::PostHealthDefer);
    assert(all[7] == Flag::AutoPrefetch);
    assert(all[8] == Flag::OracleRoute);
    assert(all[9] == Flag::RaceStragglers);
    assert(all[10] == Flag::AdaptiveTimeouts);
    assert(all[11] == Flag::AutoRename);
    assert(all[12] == Flag::IdentityLookup);
    assert(all[13] == Flag::RenameResolution);
    assert(all[14] == Flag::RenameVcodec);
    assert(all[15] == Flag::RenameAcodec);
    assert(all[16] == Flag::RenameSource);
    assert(all[17] == Flag::RenameGroup);
    assert(all[18] == Flag::RenameYearParens);
    assert(all[19] == Flag::RenameQualityBrackets);
    assert(all[20] == Flag::RenameExtraWords);
    assert(all[21] == Flag::RenameIdentify);
    assert(all[22] == Flag::RenameEpisodeTitles);
    assert(all[23] == Flag::HistoryColorNames);
    assert(all[24] == Flag::MediaChipColor);
    assert(all[25] == Flag::ShapeChipColor);
    assert(all[26] == Flag::RenameJunk);
    assert(all[27] == Flag::RenameMediaOnly);
    assert(all[28] == Flag::UpdateChecks);
    assert(all[29] == Flag::UnitBits);
    assert(all[30] == Flag::IndexCoverage);
}

proof fn indexing_survives(
    was: Daemon,
    k: Key,
    name: Seq<char>,
    v: Seq<char>,
    given: Given,
    r: Outcome,
    set: Daemon,
    saved: Json,
    fresh: Daemon,
    g: Restoring,
    new: Daemon,
    c: ConfigCtx,
)
    requires
        read_back(k),
        applied_indexing(was, k, name, v, given, r, set),
        r is Ok,
        field(saved, own_name(k)) == Some(r->Ok_0.1@),
        restored(fresh, saved, g, new),
        *c.d == new,
    ensures
        key_shown(c, k) == Some(r->Ok_0.1@),
{
    parsed_bounds(trimmed(v), 10, u64::MAX as int);
}

proof fn predb_survives(
    was: Daemon,
    k: Key,
    name: Seq<char>,
    v: Seq<char>,
    r: Outcome,
    set: Daemon,
    saved: Json,
    fresh: Daemon,
    g: Restoring,
    new: Daemon,
    c: ConfigCtx,
)
    requires
        read_back(k),
        applied_predb(was, k, name, v, r, set),
        r is Ok,
        field(saved, own_name(k)) == Some(r->Ok_0.1@),
        restored(fresh, saved, g, new),
        fresh.words == was.words,
        was.words.predb_rows_min <= was.words.predb_rows_max,
        *c.d == new,
    ensures
        key_shown(c, k) == Some(r->Ok_0.1@),
{
    parsed_bounds(trimmed(v), 10, u64::MAX as int);
}

proof fn automation_survives(
    was: Daemon,
    k: Key,
    name: Seq<char>,
    v: Seq<char>,
    given: Given,
    r: Outcome,
    set: Daemon,
    saved: Json,
    fresh: Daemon,
    g: Restoring,
    new: Daemon,
    c: ConfigCtx,
)
    requires
        read_back(k),
        says_something(k, v, given),
        applied_automation(was, k, name, v, given, r, set),
        r is Ok,
        field(saved, own_name(k)) == Some(r->Ok_0.1@),
        restored(fresh, saved, g, new),
        *c.d == new,
    ensures
        key_shown(c, k) == Some(r->Ok_0.1@),
{
    let j = r->Ok_0.1@;
    assert(automation_restored(fresh.automation, saved, g, new.automation));
    parsed_bounds(trimmed(v), 10, u64::MAX as int);
    if k is CleanupExts {
        stored_texts_are_texts(given.exts.deep_view());
    }
    assert(storable(k, j));
    automation_read_back(k, j, saved, fresh.automation, g, new.automation, c);
}

/// Whether a value may have been stored of a setting of the automation.
spec fn storable(k: Key, j: Json) -> bool {
    match k {
        Key::WatchlistExternal => j is Bool,
        Key::WatchlistInstant => j is Bool,
        Key::FastPar => j is Bool,
        Key::PreferExternalUnrar => j is Bool,
        Key::ArrGiveupThreshold => u64_of(j) is Some,
        Key::WatchlistInstantMax => u64_of(j) is Some && u64_of(j)->0 <= 3600,
        Key::CleanupExts => j is Array && only_texts(j->Array_0) is Some && texts_json(
            only_texts(j->Array_0)->0,
        ) == j,
        Key::PasswordFile => j is Text && j->Text_0.len() > 0 && trimmed(j->Text_0) == j->Text_0,
        Key::PasswordPrompt => j is Text && is_prompt(j->Text_0),
        Key::UnpackEatVolumes => j is Text && eat_mode(j->Text_0) is Some,
        Key::FailureLink => j is Text && is_failure_link(j->Text_0),
        _ => false,
    }
}

/// What the automation reads back of a value that may have been stored.
proof fn automation_read_back(
    k: Key,
    j: Json,
    saved: Json,
    fresh: Automation,
    g: Restoring,
    new: Automation,
    c: ConfigCtx,
)
    requires
        storable(k, j),
        group_of(k) == Group::Automation,
        read_back(k),
        field(saved, own_name(k)) == Some(j),
        automation_restored(fresh, saved, g, new),
        c.d.automation == new,
    ensures
        key_shown(c, k) == Some(j),
{
}

proof fn paths_survive(
    was: Daemon,
    k: Key,
    name: Seq<char>,
    v: Seq<char>,
    given: Given,
    r: Outcome,
    set: Daemon,
    saved: Json,
    fresh: Daemon,
    g: Restoring,
    new: Daemon,
    c: ConfigCtx,
)
    requires
        read_back(k),
        says_something(k, v, given),
        applied_paths(was, k, name, v, given, r, set),
        r is Ok,
        field(saved, own_name(k)) == Some(r->Ok_0.1@),
        restored(fresh, saved, g, new),
        *c.d == new,
    ensures
        key_shown(c, k) == Some(r->Ok_0.1@),
{
    parsed_bounds(trimmed(v), 10, u64::MAX as int);
}

proof fn plain_survives(
    was: Daemon,
    k: Key,
    name: Seq<char>,
    v: Seq<char>,
    given: Given,
    r: Outcome,
    set: Daemon,
    saved: Json,
    fresh: Daemon,
    g: Restoring,
    new: Daemon,
    c: ConfigCtx,
)
    requires
        read_back(k),
        applied_plain(was, k, name, v, given, r, set),
        r is Ok,
        field(saved, own_name(k)) == Some(r->Ok_0.1@),
        restored(fresh, saved, g, new),
        *c.d == new,
    ensures
        key_shown(c, k) == Some(r->Ok_0.1@),
{
    match k {
        Key::Switch(f) => {
            restored_flags_hold(f);
            a_switch_survives_a_restart(was, f, v, r, set, saved, fresh, g, new);
            a_switch_reads_back(was.switches, f, is_on(v));
        },
        Key::Number(n) => {
            let all = restored_counts();
            assert(all[0] is IndexScanPar && all[1] is OracleSample && all[2] is IndexDeepen);
            assert(all[3] is PredbSeedDays);
            a_number_survives_a_restart(was, n, name, v, r, set, saved, fresh, g, new);
            parsed_bounds(trimmed(v), 10, u64::MAX as int);
            let m = clamped(
                typed_number(v)->0,
                floor_of(n) as int,
                cap_of(n) as int,
            );
            a_number_reads_back(was.numbers, n, m as u64);
        },
        _ => {},
    }
}

/// A list of strings that was stored reads as those strings.
proof fn stored_texts_are_texts(list: Seq<Seq<char>>)
    ensures
        only_texts(texts_json(list)->Array_0) == Some(list),
        strings_in(texts_json(list)->Array_0) == list,
    decreases list.len(),
{
    let a = texts_json(list)->Array_0;
    if list.len() > 0 {
        let rest = list.drop_last();
        stored_texts_are_texts(rest);
        assert(a.drop_last() =~= texts_json(rest)->Array_0);
        assert(list =~= rest.push(list.last()));
    } else {
        assert(list =~= Seq::empty());
    }
}

// ---- seeds ----------------------------------------------------------------

/// What a setting that is seeded at a start comes to, given what was saved,
/// the built-in words and the indexed groups; nothing for one that is not
/// seeded.
pub open spec fn seeded(
    k: Key,
    saved: Json,
    w: Vocabulary,
    groups: Seq<Seq<char>>,
) -> Option<Json> {
    match k {
        Key::Switch(Flag::IndexRetention) => Some(
            Json::Bool(bool_or(saved, "index_retention"@, true)),
        ),
        Key::Switch(Flag::IndexPauseOnDownload) => Some(
            Json::Bool(bool_or(saved, "index_pause_on_download"@, true)),
        ),
        Key::IndexPaused => Some(Json::Bool(bool_or(saved, "index_paused"@, false))),
        Key::IndexEnabled => Some(Json::Bool(index_on(saved, groups))),
        Key::PredbEnabled => Some(Json::Bool(bool_or(saved, "predb_enabled"@, false))),
        Key::PredbCorrEnabled => Some(Json::Bool(bool_or(saved, "predb_corr_enabled"@, false))),
        Key::PredbCorrAuto => Some(Json::Bool(bool_or(saved, "predb_corr_auto"@, false))),
        Key::SpotEnabled => Some(Json::Bool(bool_or(saved, "spot_enabled"@, false))),
        Key::IndexEvict => Some(Json::Bool(bool_or(saved, "index_evict"@, false))),
        Key::PredbServer => Some(
            Json::Text(not_blank_or(saved, "predb_server"@, w.predb_host@)),
        ),
        Key::PredbChannels => Some(
            Json::Text(
                not_blank_or(
                    saved,
                    "predb_channels"@,
                    joined(w.predb_channels.deep_view(), ","@),
                ),
            ),
        ),
        Key::PredbNick => Some(Json::Text(not_blank_or(saved, "predb_nick"@, w.predb_nick@))),
        Key::SpotGroups => Some(
            texts_json(
                match array_field(saved, "spot_groups"@) {
                    Some(a) => strings_in(a),
                    None => seq!["free.pt"@],
                },
            ),
        ),
        Key::SpotBackfill => Some(
            uint_json(
                clamped(u64_or(saved, "spot_backfill"@, 50_000) as int, 1_000, 1_000_000),
            ),
        ),
        Key::Size(Count::IndexMaxBytes) => Some(
            uint_json(u64_or(saved, "index_max_bytes"@, 0) as int),
        ),
        Key::Size(Count::LineSpeed) => Some(uint_json(u64_or(saved, "line_speed"@, 0) as int)),
        Key::IndexEvictOrder => Some(
            Json::Text(
                match text_field(saved, "index_evict_order"@) {
                    Some(o) if w.evict_orders.deep_view().contains(o) => o,
                    _ => "ladder"@,
                },
            ),
        ),
        Key::IndexEvictKinds => Some(texts_json(kinds_seeded(saved, w.evict_kinds.deep_view()))),
        Key::IndexGates => Some(Json::Text(text_or(saved, "index_gates"@, ""@))),
        Key::OmdbKey => Some(
            match text_field(saved, "omdb_key"@) {
                Some(key) if key.len() > 0 => Json::Text(key),
                _ => Json::Null,
            },
        ),
        _ => None,
    }
}

/// Settings survive a restart: a setting that is seeded, and whose saved value
/// is in the file, is seeded as it was stored.
pub proof fn a_seeded_setting_survives_a_restart(
    was: Daemon,
    name: Seq<char>,
    v: Seq<char>,
    given: Given,
    r: Outcome,
    set: Daemon,
    saved: Json,
    groups: Seq<Seq<char>>,
)
    requires
        key_named(name) matches Some(k) && seeded(k, saved, was.words, groups) is Some,
        applied(was, name, v, given, r, set),
        r is Ok,
        field(saved, name) == Some(r->Ok_0.1@),
    ensures
        seeded(key_named(name)->0, saved, was.words, groups) == Some(r->Ok_0.1@),
{
    let k = key_named(name)->0;
    a_seeded_setting_has_its_name(name, k, saved, was.words, groups);
    match group_of(k) {
        Group::Indexing => indexing_seeded(was, k, name, v, given, r, set, saved, groups),
        Group::Predb => predb_seeded(was, k, name, v, r, set, saved, groups),
        _ => {},
    }
}

proof fn a_seeded_setting_has_its_name(
    name: Seq<char>,
    k: Key,
    saved: Json,
    w: Vocabulary,
    groups: Seq<Seq<char>>,
)
    requires
        key_named(name) == Some(k),
        seeded(k, saved, w, groups) is Some,
    ensures
        name == own_name(k),
{
}

proof fn indexing_seeded(
    was: Daemon,
    k: Key,
    name: Seq<char>,
    v: Seq<char>,
    given: Given,
    r: Outcome,
    set: Daemon,
    saved: Json,
    groups: Seq<Seq<char>>,
)
    requires
        seeded(k, saved, was.words, groups) is Some,
        applied_indexing(was, k, name, v, given, r, set),
        r is Ok,
        field(saved, own_name(k)) == Some(r->Ok_0.1@),
    ensures
        seeded(k, saved, was.words, groups) == Some(r->Ok_0.1@),
{
    parsed_bounds(trimmed(v), 10, u64::MAX as int);
    if k is SpotGroups {
        stored_texts_are_texts(list_of(v, ", \n"@));
    } else if k is IndexEvictKinds {
        stored_texts_are_texts(distinct_kinds(list_of(v, ","@)));
        stored_kinds_read_back(v, was.words.evict_kinds.deep_view());
    }
}

proof fn predb_seeded(
    was: Daemon,
    k: Key,
    name: Seq<char>,
    v: Seq<char>,
    r: Outcome,
    set: Daemon,
    saved: Json,
    groups: Seq<Seq<char>>,
)
    requires
        seeded(k, saved, was.words, groups) is Some,
        applied_predb(was, k, name, v, r, set),
        r is Ok,
        field(saved, own_name(k)) == Some(r->Ok_0.1@),
    ensures
        seeded(k, saved, was.words, groups) == Some(r->Ok_0.1@),
{
    if k is PredbServer {
        trimming_twice_is_once(v);
    } else if k is PredbChannels {
        let chans = channels_of(list_of(v, ","@));
        if chans.len() > 0 {
            channels_are_names(list_of(v, ","@), 0);
            joined_starts_with_the_first(chans, ","@);
            not_blank(joined(chans, ","@));
        }
    } else if k is PredbNick {
        let n = nick_of(trimmed(v), 12);
        if n.len() > 0 {
            a_nick_holds_no_white(trimmed(v), 12, 0);
            not_blank(n);
        }
    }
}

proof fn a_channel_holds_no_white(s: Seq<char>, i: int)
    requires
        0 <= i < channel_of(s).len(),
    ensures
        channel_char(channel_of(s)[i]),
    decreases s.len(),
{
    if i < channel_of(s.drop_last()).len() {
        a_channel_holds_no_white(s.drop_last(), i);
    }
}

proof fn channels_are_names(list: Seq<Seq<char>>, k: int)
    requires
        0 <= k < channels_of(list).len(),
    ensures
        channels_of(list)[k].len() > 0,
        !is_white(channels_of(list)[k][0]),
    decreases list.len(),
{
    if k < channels_of(list.drop_last()).len() {
        channels_are_names(list.drop_last(), k);
    } else {
        a_channel_holds_no_white(list.last(), 0);
    }
}

proof fn a_nick_holds_no_white(s: Seq<char>, limit: nat, i: int)
    requires
        0 <= i < nick_of(s, limit).len(),
    ensures
        !is_white(nick_of(s, limit)[i]),
    decreases s.len(),
{
    if i < nick_of(s.drop_last(), limit).len() {
        a_nick_holds_no_white(s.drop_last(), limit, i);
    }
}

/// Whether a string is one that a list of kinds may hold once it was read.
spec fn is_kind(d: Seq<char>) -> bool {
    &&& d.len() > 0
    &&& trimmed(d) == d
    &&& lowered(d) == d
    &&& forall|i: int| 0 <= i < d.len() ==> #[trigger] d[i] != ','
}

/// A piece of a typed list becomes such a string.
proof fn a_typed_piece_is_a_kind(v: Seq<char>, k: int)
    requires
        0 <= k < list_of(v, ","@).len(),
    ensures
        is_kind(lowered(list_of(v, ","@)[k])),
{
    reveal_strlit(",");
    let seps = ","@;
    assert(seps[0] == ',');
    let parts = pieces(v, seps);
    let t = kept(parts)[k];
    let d = lowered(t);
    kept_are_trimmed(parts, k);
    let i = choose|i: int| 0 <= i < parts.len() && t == trimmed(#[trigger] parts[i]);
    trimmed_ends(parts[i]);
    lowering_keeps_the_shape(t);
    assert(!is_white(d[0]) && !is_white(d.last()));
    assert(trimmed(d) == d);
    assert forall|j: int| 0 <= j < d.len() implies #[trigger] d[j] != ',' by {
        trimmed_is_part(parts[i], j);
        pieces_hold_no_separator(v, seps);
        let m = choose|m: int| 0 <= m < parts[i].len() && parts[i][m] == t[j];
        assert(!seps.contains(parts[i][m]));
        if t[j] == ',' {
            assert(seps.contains(t[j]));
        }
    }
}

/// The kinds of a typed list are such strings, all different, and known where
/// those that were typed are.
proof fn distinct_kinds_are_kinds(typed: Seq<Seq<char>>, known: Seq<Seq<char>>)
    requires
        forall|k: int| 0 <= k < typed.len() ==> is_kind(lowered(#[trigger] typed[k])),
        unknown_kind(typed, known) is None,
    ensures
        forall|k: int|
            0 <= k < distinct_kinds(typed).len() ==> is_kind(#[trigger] distinct_kinds(typed)[k])
                && known.contains(distinct_kinds(typed)[k]),
        distinct_kinds(typed).no_duplicates(),
    decreases typed.len(),
{
    if typed.len() > 0 {
        let rest = typed.drop_last();
        assert forall|k: int| 0 <= k < rest.len() implies is_kind(lowered(#[trigger] rest[k])) by {
            assert(rest[k] == typed[k]);
        }
        distinct_kinds_are_kinds(rest, known);
        assert(is_kind(lowered(typed[typed.len() - 1])));
    }
}

/// Kinds that are all different and known read as themselves.
proof fn kinds_read_as_themselves(list: Seq<Seq<char>>, known: Seq<Seq<char>>)
    requires
        forall|k: int|
            0 <= k < list.len() ==> is_kind(#[trigger] list[k]) && known.contains(list[k]),
        list.no_duplicates(),
    ensures
        distinct_kinds(list) == list,
        unknown_kind(list, known) is None,
    decreases list.len(),
{
    if list.len() > 0 {
        let rest = list.drop_last();
        assert forall|k: int| 0 <= k < rest.len() implies is_kind(#[trigger] rest[k])
            && known.contains(rest[k]) by {
            assert(rest[k] == list[k]);
        }
        kinds_read_as_themselves(rest, known);
        assert(is_kind(list[list.len() - 1]));
        assert(!rest.contains(list.last()));
        assert(list =~= rest.push(list.last()));
    } else {
        assert(list =~= Seq::empty());
    }
}

/// A stored list of kinds reads as it was stored.
proof fn stored_kinds_read_back(v: Seq<char>, known: Seq<Seq<char>>)
    requires
        unknown_kind(list_of(v, ","@), known) is None,
    ensures
        ({
            let d = distinct_kinds(list_of(v, ","@));
            let again = list_of(joined(d, ","@), ","@);
            &&& unknown_kind(again, known) is None
            &&& distinct_kinds(again) == d
        }),
{
    reveal_strlit(",");
    assert(","@ =~= seq![',']);
    let typed = list_of(v, ","@);
    let d = distinct_kinds(typed);
    assert forall|k: int| 0 <= k < typed.len() implies is_kind(lowered(#[trigger] typed[k])) by {
        a_typed_piece_is_a_kind(v, k);
    }
    distinct_kinds_are_kinds(typed, known);
    let again = list_of(joined(d, ","@), ","@);
    if d.len() == 0 {
        assert(trimmed(Seq::<char>::empty()) =~= Seq::empty());
        reveal_with_fuel(kept, 2);
        assert(pieces(joined(d, ","@), ","@) =~= seq![Seq::<char>::empty()]);
        assert(again =~= Seq::empty());
        assert(d =~= Seq::empty());
    } else {
        assert forall|k: int, i: int| 0 <= k < d.len() && 0 <= i < d[k].len() implies
            #[trigger] d[k][i] != ',' by {
            assert(is_kind(d[k]));
        }
        splitting_undoes_joining(d, ',');
        assert forall|k: int| 0 <= k < d.len() implies (#[trigger] d[k]).len() > 0 && trimmed(d[k])
            == d[k] by {
            assert(is_kind(d[k]));
        }
        keeping_what_is_trimmed(d);
        assert(again == d);
        kinds_read_as_themselves(d, known);
    }
}

} // verus!
