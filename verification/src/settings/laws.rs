//! What holds of every setting.
use super::config::{
    block, indexers_shown, instances_shown, key_shown, shown, targets_shown, ConfigCtx,
};
use super::key::{key_named, Key};
use super::lists::{
    has_name, indexers_fault, key_at, key_under, merged_indexer, merged_indexers, merged_instance,
    merged_target, token_of, ArrView, IndexerView, TargetView,
};
use super::outcome::{taken, typed_number, Outcome};
use super::table::{table, Expose, Row};
use super::{
    applied, applied_automation, applied_engine, applied_indexing, applied_paths, applied_plain,
    applied_predb, group_of, key_settable, Given, Group,
};
use crate::daemon::{
    a_number_reads_back, a_switch_reads_back, cap_of, clamped, floor_of, Daemon, Flag,
};
use crate::text::{is_on, parsed_bounds, trimmed, trimming_twice_is_once};
use crate::value::Json;
use vstd::prelude::*;

verus! {

/// A refused value changes nothing: neither what is live nor what is asked of
/// the rest of the process.
pub proof fn a_refused_value_changes_nothing(
    old: Daemon,
    name: Seq<char>,
    v: Seq<char>,
    given: Given,
    r: Outcome,
    new: Daemon,
)
    requires
        applied(old, name, v, given, r, new),
        r is Err,
    ensures
        new == old,
{
}

/// Whether a setting is shown as it was stored. The others are shown without
/// their credential, with what is known of them besides, or not at all, or
/// become live by work that is asked for.
pub open spec fn echoes(k: Key) -> bool {
    !(k is Speedlimit || k is IndexInterestsApplied || k is Apikey || k is Nzbkey || k is OmdbKey
        || k is Feeds || k is Indexers || k is SmartFolders || k is CustomCategories
        || k is NotifyTargets || k is ArrInstances)
}

/// What is stored reads back: a value that was taken and is live is shown on
/// the settings page exactly as it was saved.
pub proof fn a_stored_value_reads_back(
    old: Daemon,
    name: Seq<char>,
    v: Seq<char>,
    given: Given,
    r: Outcome,
    new: Daemon,
    c: ConfigCtx,
)
    requires
        key_named(name) matches Some(k) && echoes(k) && key_settable(old, k, v, given),
        applied(old, name, v, given, r, new),
        r matches Ok(p) && p.0,
        *c.d == new,
    ensures
        shown(c, name) == Some(r->Ok_0.1@),
{
    let k = key_named(name)->0;
    reveal_strlit("");
    assert(""@ =~= Seq::<char>::empty());
    let saved = r->Ok_0.1@;
    match group_of(k) {
        Group::Engine => engine_reads_back(old, k, name, v, given, saved, r, new, c),
        Group::Indexing => indexing_reads_back(old, k, name, v, given, saved, r, new, c),
        Group::Predb => predb_reads_back(old, k, name, v, given, saved, r, new, c),
        Group::Automation => automation_reads_back(old, k, name, v, given, saved, r, new, c),
        Group::Paths => paths_reads_back(old, k, name, v, given, saved, r, new, c),
        Group::Plain => plain_reads_back(old, k, name, v, given, saved, r, new, c),
        Group::Lists => {},
    }
}

proof fn engine_reads_back(
    old: Daemon,
    k: Key,
    name: Seq<char>,
    v: Seq<char>,
    given: Given,
    saved: Json,
    r: Outcome,
    new: Daemon,
    c: ConfigCtx,
)
    requires
        echoes(k),
        key_settable(old, k, v, given),
        applied_engine(old, k, name, v, given, r, new),
        taken(r, true, saved),
        *c.d == new,
        ""@ == Seq::<char>::empty(),
    ensures
        key_shown(c, k) == Some(saved),
{
    if k is OutUmask {
        parsed_bounds(trimmed(v), 8, 0o777);
    } else if k is AutoRetryMins {
        parsed_bounds(trimmed(v), 10, u64::MAX as int);
    } else if k is AutoPrefetch {
        a_switch_reads_back(old.switches, Flag::AutoPrefetch, is_on(v));
    } else if k is RaceStragglers {
        a_switch_reads_back(old.switches, Flag::RaceStragglers, is_on(v));
    }
}

proof fn indexing_reads_back(
    old: Daemon,
    k: Key,
    name: Seq<char>,
    v: Seq<char>,
    given: Given,
    saved: Json,
    r: Outcome,
    new: Daemon,
    c: ConfigCtx,
)
    requires
        echoes(k),
        key_settable(old, k, v, given),
        applied_indexing(old, k, name, v, given, r, new),
        taken(r, true, saved),
        *c.d == new,
        ""@ == Seq::<char>::empty(),
    ensures
        key_shown(c, k) == Some(saved),
{
}

proof fn predb_reads_back(
    old: Daemon,
    k: Key,
    name: Seq<char>,
    v: Seq<char>,
    given: Given,
    saved: Json,
    r: Outcome,
    new: Daemon,
    c: ConfigCtx,
)
    requires
        echoes(k),
        key_settable(old, k, v, given),
        applied_predb(old, k, name, v, r, new),
        taken(r, true, saved),
        *c.d == new,
        ""@ == Seq::<char>::empty(),
    ensures
        key_shown(c, k) == Some(saved),
{
}

proof fn automation_reads_back(
    old: Daemon,
    k: Key,
    name: Seq<char>,
    v: Seq<char>,
    given: Given,
    saved: Json,
    r: Outcome,
    new: Daemon,
    c: ConfigCtx,
)
    requires
        echoes(k),
        key_settable(old, k, v, given),
        applied_automation(old, k, name, v, given, r, new),
        taken(r, true, saved),
        *c.d == new,
        ""@ == Seq::<char>::empty(),
    ensures
        key_shown(c, k) == Some(saved),
{
    if k is WatchlistInstantMax {
        parsed_bounds(trimmed(v), 10, u64::MAX as int);
    }
}

proof fn paths_reads_back(
    old: Daemon,
    k: Key,
    name: Seq<char>,
    v: Seq<char>,
    given: Given,
    saved: Json,
    r: Outcome,
    new: Daemon,
    c: ConfigCtx,
)
    requires
        echoes(k),
        key_settable(old, k, v, given),
        applied_paths(old, k, name, v, given, r, new),
        taken(r, true, saved),
        *c.d == new,
        ""@ == Seq::<char>::empty(),
    ensures
        key_shown(c, k) == Some(saved),
{
    if trimmed(v).len() == 0 {
        assert(trimmed(v) =~= Seq::<char>::empty());
    }
}

proof fn plain_reads_back(
    old: Daemon,
    k: Key,
    name: Seq<char>,
    v: Seq<char>,
    given: Given,
    saved: Json,
    r: Outcome,
    new: Daemon,
    c: ConfigCtx,
)
    requires
        echoes(k),
        key_settable(old, k, v, given),
        applied_plain(old, k, name, v, given, r, new),
        taken(r, true, saved),
        *c.d == new,
        ""@ == Seq::<char>::empty(),
    ensures
        key_shown(c, k) == Some(saved),
{
    match k {
        Key::Switch(f) => a_switch_reads_back(old.switches, f, is_on(v)),
        Key::Number(n) => a_number_reads_back(
            old.numbers,
            n,
            clamped(typed_number(v)->0, floor_of(n) as int, cap_of(n) as int) as u64,
        ),
        Key::Size(n) => a_number_reads_back(old.numbers, n, given.size->0),
        _ => {},
    }
}

// ---- credentials ----------------------------------------------------------

/// A list of search sites as the settings page sends it back: without keys.
pub open spec fn without_keys(list: Seq<IndexerView>) -> Seq<IndexerView> {
    Seq::new(list.len(), |i: int| IndexerView { apikey: Seq::empty(), ..list[i] })
}

/// In a list that was accepted no name occurs twice.
proof fn names_differ(list: Seq<IndexerView>, a: int, b: int)
    requires
        indexers_fault(list) is None,
        0 <= a < b < list.len(),
    ensures
        list[a].name != list[b].name,
    decreases list.len(),
{
    let rest = list.drop_last();
    if b == list.len() - 1 {
        assert(rest[a] == list[a]);
        assert(!has_name(rest, list.last().name));
    } else {
        names_differ(rest, a, b);
    }
}

/// The key under a name is that of the first entry of that name.
proof fn key_of_first(list: Seq<IndexerView>, k: int)
    requires
        0 <= k < list.len(),
        forall|i: int| 0 <= i < k ==> (#[trigger] list[i]).name != list[k].name,
    ensures
        key_under(list, list[k].name) == Some(list[k].apikey),
    decreases list.len(),
{
    if k > 0 {
        let rest = list.drop_first();
        assert(rest[k - 1] == list[k]);
        assert forall|i: int| 0 <= i < k - 1 implies (#[trigger] rest[i]).name
            != rest[k - 1].name by {
            assert(rest[i] == list[i + 1]);
        }
        assert(list[0].name != list[k].name);
        key_of_first(rest, k - 1);
    }
}

/// An edit cannot erase a key: a stored list of search sites that is sent back
/// as it was shown, without its keys, is stored as it was.
pub proof fn a_list_sent_back_keeps_its_keys(list: Seq<IndexerView>)
    requires
        indexers_fault(list) is None,
        forall|i: int|
            0 <= i < list.len() ==> trimmed((#[trigger] list[i]).name) == list[i].name && trimmed(
                list[i].url,
            ) == list[i].url,
    ensures
        merged_indexers(without_keys(list), list) == list,
{
    let back = merged_indexers(without_keys(list), list);
    assert forall|k: int| 0 <= k < list.len() implies back[k] == list[k] by {
        assert forall|i: int| 0 <= i < k implies (#[trigger] list[i]).name != list[k].name by {
            names_differ(list, i, k);
        }
        key_of_first(list, k);
    }
    assert(back =~= list);
}

/// What is stored of a search site is trimmed already.
pub proof fn a_stored_indexer_is_trimmed(i: IndexerView, cur: Seq<IndexerView>)
    ensures
        trimmed(merged_indexer(i, cur).name) == merged_indexer(i, cur).name,
        trimmed(merged_indexer(i, cur).url) == merged_indexer(i, cur).url,
{
    trimming_twice_is_once(i.name);
    trimming_twice_is_once(i.url);
}

/// A key that is given replaces the stored one, a blank one never does.
pub proof fn only_a_given_key_replaces(i: ArrView, t: TargetView, a: Seq<ArrView>, b: Seq<TargetView>)
    ensures
        i.apikey.len() > 0 ==> merged_instance(i, a) == i,
        i.apikey.len() == 0 && key_at(a, i.kind, i.url) is Some ==> Some(
            merged_instance(i, a).apikey,
        ) == key_at(a, i.kind, i.url),
        t.token.len() > 0 ==> merged_target(t, b) == t,
        t.token.len() == 0 && token_of(b, t.kind, t.url, t.name) is Some ==> Some(
            merged_target(t, b).token,
        ) == token_of(b, t.kind, t.url, t.name),
{
}

/// The settings page learns that a credential is stored, never which: lists
/// that differ in their stored keys alone are shown alike.
pub proof fn a_stored_key_is_never_shown(a: Seq<IndexerView>, b: Seq<IndexerView>)
    requires
        a.len() == b.len(),
        forall|i: int|
            0 <= i < a.len() ==> (IndexerView { apikey: b[i].apikey, ..#[trigger] a[i] }) == b[i]
                && (a[i].apikey.len() > 0) == (b[i].apikey.len() > 0),
    ensures
        indexers_shown(a) == indexers_shown(b),
{
    assert(indexers_shown(a)->Array_0 =~= indexers_shown(b)->Array_0) by {
        assert forall|i: int| 0 <= i < a.len() implies indexers_shown(a)->Array_0[i]
            == indexers_shown(b)->Array_0[i] by {
            assert(a[i].name == b[i].name);
        }
    }
}

/// The same of the tokens of notify targets.
pub proof fn a_stored_token_is_never_shown(
    a: Seq<TargetView>,
    b: Seq<TargetView>,
    sends: Seq<Json>,
)
    requires
        a.len() == b.len(),
        forall|i: int|
            0 <= i < a.len() ==> (TargetView { token: b[i].token, ..#[trigger] a[i] }) == b[i] && (
            a[i].token.len() > 0) == (b[i].token.len() > 0),
    ensures
        targets_shown(a, sends) == targets_shown(b, sends),
{
    assert(targets_shown(a, sends)->Array_0 =~= targets_shown(b, sends)->Array_0) by {
        assert forall|i: int| 0 <= i < a.len() implies targets_shown(a, sends)->Array_0[i]
            == targets_shown(b, sends)->Array_0[i] by {
            assert(a[i].name == b[i].name);
        }
    }
}

/// The same of the keys of *arr instances.
pub proof fn a_stored_arr_key_is_never_shown(a: Seq<ArrView>, b: Seq<ArrView>)
    requires
        a.len() == b.len(),
        forall|i: int|
            0 <= i < a.len() ==> (ArrView { apikey: b[i].apikey, ..#[trigger] a[i] }) == b[i] && (
            a[i].apikey.len() > 0) == (b[i].apikey.len() > 0),
    ensures
        instances_shown(a) == instances_shown(b),
{
    assert(instances_shown(a)->Array_0 =~= instances_shown(b)->Array_0) by {
        assert forall|i: int| 0 <= i < a.len() implies instances_shown(a)->Array_0[i]
            == instances_shown(b)->Array_0[i] by {
            assert(a[i].name == b[i].name);
        }
    }
}

/// Whether a list of rows exposes a name.
pub open spec fn exposed(list: Seq<Row>, name: Seq<char>) -> bool {
    exists|j: int|
        0 <= j < list.len() && (#[trigger] list[j]).name == name && list[j].expose
            == Expose::Config
}

/// The settings page is handed what the table exposes, and nothing else: a
/// name is in the block, with its value, exactly where the table exposes it
/// and it has a value.
pub proof fn the_page_gets_what_the_table_exposes(c: ConfigCtx, name: Seq<char>, j: Json)
    ensures
        block(c, table()).contains((name, j)) <==> exposed(table(), name) && shown(c, name)
            == Some(j),
{
    a_block_holds_what_is_exposed(c, table(), name, j);
}

proof fn a_block_holds_what_is_exposed(c: ConfigCtx, list: Seq<Row>, name: Seq<char>, j: Json)
    ensures
        block(c, list).contains((name, j)) <==> exposed(list, name) && shown(c, name) == Some(j),
    decreases list.len(),
{
    if list.len() > 0 {
        let rest = list.drop_last();
        a_block_holds_what_is_exposed(c, rest, name, j);
        let row = list.last();
        assert(list[list.len() - 1] == row);
        assert(exposed(list, name) <==> exposed(rest, name) || (row.name == name && row.expose
            == Expose::Config)) by {
            if exposed(rest, name) {
                let i = choose|i: int|
                    0 <= i < rest.len() && (#[trigger] rest[i]).name == name && rest[i].expose
                        == Expose::Config;
                assert(list[i] == rest[i]);
            }
            if exposed(list, name) {
                let i = choose|i: int|
                    0 <= i < list.len() && (#[trigger] list[i]).name == name && list[i].expose
                        == Expose::Config;
                if i < rest.len() {
                    assert(rest[i] == list[i]);
                }
            }
        }
        let before = block(c, rest);
        if row.expose == Expose::Config && shown(c, row.name) is Some {
            let e = (row.name, shown(c, row.name)->0);
            let after = before.push(e);
            assert(after.contains((name, j)) <==> before.contains((name, j)) || e == (name, j))
                by {
                if before.contains((name, j)) {
                    let i = choose|i: int| 0 <= i < before.len() && before[i] == (name, j);
                    assert(after[i] == before[i]);
                }
                assert(after[before.len() as int] == e);
            }
        }
    }
}

} // verus!
