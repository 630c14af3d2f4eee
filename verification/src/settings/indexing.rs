//! Setters of the indexer and of the library scanner.
use super::outcome::{not_a_number, read_number, refused, taken, typed_number, Outcome};
use crate::daemon::{clamp, clamped, Action, Daemon, Indexing};
use crate::text::{
    flag, glue, is_on, join, joined, list_of, listed, lower, lowered, parse_u64, split_list, trim, trimmed,
};
use crate::value::{text, texts, texts_json, uint, uint_json, Json, Value};
use vstd::prelude::*;

verus! {

/// What setting `index_gapfill` to a value comes to.
pub open spec fn index_gapfill_set(
    old: Daemon,
    name: Seq<char>,
    v: Seq<char>,
    r: Outcome,
    new: Daemon,
) -> bool {
    match typed_number(v) {
        None => refused(old, r, new, not_a_number(name)),
        Some(n) => if n > 100 {
            refused(old, r, new, "index_gapfill: 0-100 releases per pass"@)
        } else {
            &&& taken(r, true, uint_json(n))
            &&& new == (Daemon {
                indexing: Indexing { index_gapfill: n as u64, ..old.indexing },
                ..old
            })
        },
    }
}

/// Sets how many incomplete releases a pass hunts again; 0 turns it off.
pub fn set_index_gapfill(d: &mut Daemon, name: &str, v: &str) -> (r: Outcome)
    ensures
        index_gapfill_set(*old(d), name@, v@, r, *final(d)),
{
    match read_number(name, v) {
        Err(e) => Err(e),
        Ok(n) => {
            if n > 100 {
                return Err("index_gapfill: 0-100 releases per pass".to_owned());
            }
            d.indexing.index_gapfill = n;
            Ok((true, uint(n)))
        },
    }
}

/// What setting `library_cats` to a value comes to.
pub open spec fn library_cats_set(old: Daemon, v: Seq<char>, r: Outcome, new: Daemon) -> bool {
    &&& taken(r, true, texts_json(list_of(v, ","@)))
    &&& new == (Daemon {
        indexing: Indexing { library_cats: new.indexing.library_cats, ..old.indexing },
        ..old
    })
    &&& new.indexing.library_cats.deep_view() == list_of(v, ","@)
}

/// Sets the categories whose downloads become library entries.
pub fn set_library_cats(d: &mut Daemon, _name: &str, v: &str) -> (r: Outcome)
    ensures
        library_cats_set(*old(d), v@, r, *final(d)),
{
    let list: Vec<String> = split_list(v, ",");
    let echo = texts(&list);
    d.indexing.library_cats = list;
    Ok((true, echo))
}

/// What setting `index_groups` to a value comes to.
pub open spec fn index_groups_set(old: Daemon, v: Seq<char>, r: Outcome, new: Daemon) -> bool {
    &&& taken(r, true, texts_json(list_of(v, ","@)))
    &&& new == (Daemon {
        indexing: Indexing { index_groups: new.indexing.index_groups, ..old.indexing },
        ..old
    })
    &&& new.indexing.index_groups.deep_view() == list_of(v, ","@)
}

/// Sets the groups that are indexed.
pub fn set_index_groups(d: &mut Daemon, _name: &str, v: &str) -> (r: Outcome)
    ensures
        index_groups_set(*old(d), v@, r, *final(d)),
{
    let list: Vec<String> = split_list(v, ",");
    let echo = texts(&list);
    d.indexing.index_groups = list;
    Ok((true, echo))
}

/// What setting `index_interests` to a value comes to.
pub open spec fn index_interests_set(
    old: Daemon,
    keys: Seq<Seq<char>>,
    r: Outcome,
    new: Daemon,
) -> bool {
    let norm = joined(keys, ","@);
    &&& taken(r, true, Json::Text(norm))
    &&& new == (Daemon {
        indexing: Indexing { index_interests: new.indexing.index_interests, ..old.indexing },
        todo: new.todo,
        ..old
    })
    &&& new.indexing.index_interests@ == norm
    &&& new.todo@ == old.todo@.push(Action::ApplyInterests)
}

/// Sets what the indexer looks for, from the interests that were recognised
/// in the value, and asks for them to be turned into groups.
pub fn set_index_interests(d: &mut Daemon, _name: &str, _v: &str, keys: &Vec<String>) -> (r:
    Outcome)
    ensures
        index_interests_set(*old(d), keys.deep_view(), r, *final(d)),
{
    let norm: String = join(keys, ",");
    let echo = text(norm.as_str());
    d.indexing.index_interests = norm;
    d.ask(Action::ApplyInterests);
    Ok((true, echo))
}

/// What setting `index_interests_applied` to a value comes to.
pub open spec fn index_interests_applied_set(
    old: Daemon,
    v: Seq<char>,
    r: Outcome,
    new: Daemon,
) -> bool {
    &&& taken(r, true, Json::Text(trimmed(v)))
    &&& new == (Daemon {
        indexing: Indexing {
            index_interests_applied: new.indexing.index_interests_applied,
            ..old.indexing
        },
        ..old
    })
    &&& new.indexing.index_interests_applied@ == trimmed(v)
}

/// Records which interests have been turned into groups.
pub fn set_index_interests_applied(d: &mut Daemon, v: &str) -> (r: Outcome)
    ensures
        index_interests_applied_set(*old(d), v@, r, *final(d)),
{
    let t: String = trim(v);
    let echo = text(t.as_str());
    d.indexing.index_interests_applied = t;
    Ok((true, echo))
}

/// The tip interval that a number means: 0 is off, else at least 5 seconds.
pub open spec fn tip_secs(n: int) -> int {
    if n == 0 {
        0
    } else if n < 5 {
        5
    } else {
        n
    }
}

/// What setting `index_tip_secs` to a value comes to.
pub open spec fn index_tip_secs_set(
    old: Daemon,
    name: Seq<char>,
    v: Seq<char>,
    r: Outcome,
    new: Daemon,
) -> bool {
    match typed_number(v) {
        None => refused(old, r, new, not_a_number(name)),
        Some(n) => {
            &&& taken(r, true, uint_json(tip_secs(n)))
            &&& new == (Daemon {
                indexing: Indexing { index_tip_secs: tip_secs(n) as u64, ..old.indexing },
                ..old
            })
        },
    }
}

/// Sets how often new posts are looked for.
pub fn set_index_tip_secs(d: &mut Daemon, name: &str, v: &str) -> (r: Outcome)
    ensures
        index_tip_secs_set(*old(d), name@, v@, r, *final(d)),
{
    match read_number(name, v) {
        Err(e) => Err(e),
        Ok(k) => {
            let n: u64 = tip_interval(k);
            d.indexing.index_tip_secs = n;
            Ok((true, uint(n)))
        },
    }
}

/// The tip interval that a number means: 0 is off, else at least 5 seconds.
pub fn tip_interval(n: u64) -> (r: u64)
    ensures
        r == tip_secs(n as int),
{
    if n == 0 {
        0
    } else if n < 5 {
        5
    } else {
        n
    }
}

/// What setting `index_paused` to a value comes to.
pub open spec fn index_paused_set(old: Daemon, v: Seq<char>, r: Outcome, new: Daemon) -> bool {
    let on = is_on(v);
    &&& taken(r, true, Json::Bool(on))
    &&& new == (Daemon {
        indexing: Indexing { index_paused: on, ..old.indexing },
        todo: new.todo,
        ..old
    })
    &&& new.todo@ == if on {
        old.todo@
    } else {
        old.todo@.push(Action::ScanNow)
    }
}

/// Pauses the indexer; resuming it starts a pass at once.
pub fn set_index_paused(d: &mut Daemon, _name: &str, v: &str) -> (r: Outcome)
    ensures
        index_paused_set(*old(d), v@, r, *final(d)),
{
    let on = flag(v);
    d.indexing.index_paused = on;
    if !on {
        d.ask(Action::ScanNow);
    }
    Ok((true, Value::Bool(on)))
}

/// What setting `index_enabled` to a value comes to.
pub open spec fn index_enabled_set(old: Daemon, v: Seq<char>, r: Outcome, new: Daemon) -> bool {
    let on = is_on(v);
    &&& taken(r, true, Json::Bool(on))
    &&& new == (Daemon {
        indexing: Indexing { index_enabled: on, ..old.indexing },
        todo: new.todo,
        ..old
    })
    &&& new.todo@ == if on {
        old.todo@.push(Action::ApplyInterests).push(Action::ScanNow)
    } else {
        old.todo@.push(Action::CloseIndex)
    }
}

/// Switches the indexer on (its interests become groups, and a pass starts)
/// or off (its database is closed, after the switch that stops the workers).
pub fn set_index_enabled(d: &mut Daemon, _name: &str, v: &str) -> (r: Outcome)
    ensures
        index_enabled_set(*old(d), v@, r, *final(d)),
{
    let on = flag(v);
    d.indexing.index_enabled = on;
    if on {
        d.ask(Action::ApplyInterests);
        d.ask(Action::ScanNow);
    } else {
        d.ask(Action::CloseIndex);
    }
    Ok((true, Value::Bool(on)))
}

/// What setting `spot_enabled` to a value comes to.
pub open spec fn spot_enabled_set(old: Daemon, v: Seq<char>, r: Outcome, new: Daemon) -> bool {
    let on = is_on(v);
    &&& taken(r, true, Json::Bool(on))
    &&& new == (Daemon {
        indexing: Indexing { spot_enabled: on, ..old.indexing },
        todo: new.todo,
        ..old
    })
    &&& new.todo@ == old.todo@.push(
        if on {
            Action::ScanNow
        } else {
            Action::CloseIndex
        },
    )
}

/// Switches spots on (a pass starts) or off (the database may close).
pub fn set_spot_enabled(d: &mut Daemon, _name: &str, v: &str) -> (r: Outcome)
    ensures
        spot_enabled_set(*old(d), v@, r, *final(d)),
{
    let on = flag(v);
    d.indexing.spot_enabled = on;
    d.ask(
        if on {
            Action::ScanNow
        } else {
            Action::CloseIndex
        },
    );
    Ok((true, Value::Bool(on)))
}

/// What setting `spot_groups` to a value comes to.
pub open spec fn spot_groups_set(old: Daemon, v: Seq<char>, r: Outcome, new: Daemon) -> bool {
    let list = list_of(v, ", \n"@);
    &&& taken(r, true, texts_json(list))
    &&& new == (Daemon {
        indexing: Indexing { spot_groups: new.indexing.spot_groups, ..old.indexing },
        todo: new.todo,
        ..old
    })
    &&& new.indexing.spot_groups.deep_view() == list
    &&& new.todo@ == old.todo@.push(Action::ScanNow)
}

/// Sets the spot groups, typed with commas, blanks or one to a line.
pub fn set_spot_groups(d: &mut Daemon, _name: &str, v: &str) -> (r: Outcome)
    ensures
        spot_groups_set(*old(d), v@, r, *final(d)),
{
    let list: Vec<String> = split_list(v, ", \n");
    let echo = texts(&list);
    d.indexing.spot_groups = list;
    d.ask(Action::ScanNow);
    Ok((true, echo))
}

/// What setting `spot_backfill` to a value comes to.
pub open spec fn spot_backfill_set(old: Daemon, v: Seq<char>, r: Outcome, new: Daemon) -> bool {
    match typed_number(v) {
        None => refused(old, r, new, "spot_backfill: expected a number"@),
        Some(k) => {
            let n = clamped(k, 1_000, 1_000_000);
            &&& taken(r, true, uint_json(n))
            &&& new == (Daemon {
                indexing: Indexing { spot_backfill: n as u64, ..old.indexing },
                ..old
            })
        },
    }
}

/// Sets how many articles a first pass over a spot group walks back.
pub fn set_spot_backfill(d: &mut Daemon, _name: &str, v: &str) -> (r: Outcome)
    ensures
        spot_backfill_set(*old(d), v@, r, *final(d)),
{
    match parse_u64(trim(v).as_str()) {
        None => Err("spot_backfill: expected a number".to_owned()),
        Some(k) => {
            let n: u64 = clamp(k, 1_000, 1_000_000);
            d.indexing.spot_backfill = n;
            Ok((true, uint(n)))
        },
    }
}

/// What setting `index_evict_order` to a value comes to.
pub open spec fn index_evict_order_set(old: Daemon, v: Seq<char>, r: Outcome, new: Daemon) -> bool {
    let o = lowered(trimmed(v));
    let known = old.words.evict_orders.deep_view();
    if !known.contains(o) {
        refused(old, r, new, "index_evict_order: expected one of "@ + joined(known, ", "@))
    } else {
        &&& taken(r, true, Json::Text(o))
        &&& new == (Daemon {
            indexing: Indexing {
                index_evict_order: new.indexing.index_evict_order,
                ..old.indexing
            },
            ..old
        })
        &&& new.indexing.index_evict_order@ == o
    }
}

/// Sets the order in which rows leave a full index.
pub fn set_index_evict_order(d: &mut Daemon, _name: &str, v: &str) -> (r: Outcome)
    ensures
        index_evict_order_set(*old(d), v@, r, *final(d)),
{
    let o: String = lower(trim(v).as_str());
    if !listed(&d.words.evict_orders, o.as_str()) {
        return Err(
            glue(
                "index_evict_order: expected one of ",
                join(&d.words.evict_orders, ", ").as_str(),
            ),
        );
    }
    let echo = text(o.as_str());
    d.indexing.index_evict_order = o;
    Ok((true, echo))
}

/// The first of `typed`, lower-cased, that is no known kind.
pub open spec fn unknown_kind(typed: Seq<Seq<char>>, known: Seq<Seq<char>>) -> Option<Seq<char>>
    decreases typed.len(),
{
    if typed.len() == 0 {
        None
    } else {
        match unknown_kind(typed.drop_last(), known) {
            Some(k) => Some(k),
            None => if known.contains(lowered(typed.last())) {
                None
            } else {
                Some(lowered(typed.last()))
            },
        }
    }
}

/// `typed`, lower-cased, each kind at its first place only.
pub open spec fn distinct_kinds(typed: Seq<Seq<char>>) -> Seq<Seq<char>>
    decreases typed.len(),
{
    if typed.len() == 0 {
        Seq::empty()
    } else {
        let before = distinct_kinds(typed.drop_last());
        let k = lowered(typed.last());
        if before.contains(k) {
            before
        } else {
            before.push(k)
        }
    }
}

/// Reads a comma list of kinds: lower-cased, each once, all of them known.
pub fn parse_evict_kinds(v: &str, known: &Vec<String>) -> (r: Result<Vec<String>, String>)
    ensures
        match unknown_kind(list_of(v@, ","@), known.deep_view()) {
            Some(k) => r matches Err(e) && e@ == "unknown kind "@ + k,
            None => r matches Ok(list) && list.deep_view() == distinct_kinds(list_of(v@, ","@)),
        },
{
    let typed: Vec<String> = split_list(v, ",");
    let ghost all = typed.deep_view();
    let ghost words = known.deep_view();
    let mut out: Vec<String> = Vec::new();
    let mut i: usize = 0;
    assert(out.deep_view() =~= distinct_kinds(all.take(0)));
    while i < typed.len()
        invariant
            i <= typed@.len(),
            all == typed.deep_view(),
            all == list_of(v@, ","@),
            words == known.deep_view(),
            unknown_kind(all.take(i as int), words) is None,
            out.deep_view() == distinct_kinds(all.take(i as int)),
        decreases typed@.len() - i,
    {
        let k: String = lower(typed[i].as_str());
        assert(all.take(i + 1).drop_last() =~= all.take(i as int));
        assert(all.take(i + 1).last() == typed@[i as int]@);
        if !listed(known, k.as_str()) {
            proof {
                unknown_kind_stays(all, words, i + 1);
            }
            return Err(glue("unknown kind ", k.as_str()));
        }
        let ghost before = out.deep_view();
        if !listed(&out, k.as_str()) {
            let ghost kv = k@;
            out.push(k);
            assert(out.deep_view() =~= before.push(kv));
        }
        i = i + 1;
    }
    assert(all.take(all.len() as int) =~= all);
    Ok(out)
}

/// The first unknown kind of a part is that of the whole.
proof fn unknown_kind_stays(typed: Seq<Seq<char>>, known: Seq<Seq<char>>, n: int)
    requires
        0 <= n <= typed.len(),
        unknown_kind(typed.take(n), known) is Some,
    ensures
        unknown_kind(typed, known) == unknown_kind(typed.take(n), known),
    decreases typed.len(),
{
    if n == typed.len() {
        assert(typed.take(n) =~= typed);
    } else {
        assert(typed.drop_last().take(n) =~= typed.take(n));
        unknown_kind_stays(typed.drop_last(), known, n);
    }
}

/// What setting `index_evict_kinds` to a value comes to.
pub open spec fn index_evict_kinds_set(old: Daemon, v: Seq<char>, r: Outcome, new: Daemon) -> bool {
    let typed = list_of(v, ","@);
    match unknown_kind(typed, old.words.evict_kinds.deep_view()) {
        Some(k) => refused(old, r, new, "index_evict_kinds: "@ + ("unknown kind "@ + k)),
        None => {
            &&& taken(r, true, texts_json(distinct_kinds(typed)))
            &&& new == (Daemon {
                indexing: Indexing {
                    index_evict_kinds: new.indexing.index_evict_kinds,
                    ..old.indexing
                },
                ..old
            })
            &&& new.indexing.index_evict_kinds.deep_view() == distinct_kinds(typed)
        },
    }
}

/// Sets which kinds may leave a full index; none named means all may.
pub fn set_index_evict_kinds(d: &mut Daemon, _name: &str, v: &str) -> (r: Outcome)
    ensures
        index_evict_kinds_set(*old(d), v@, r, *final(d)),
{
    match parse_evict_kinds(v, &d.words.evict_kinds) {
        Err(e) => Err(glue("index_evict_kinds: ", e.as_str())),
        Ok(list) => {
            let echo = texts(&list);
            d.indexing.index_evict_kinds = list;
            Ok((true, echo))
        },
    }
}

/// What setting `index_evict` to a value comes to.
pub open spec fn index_evict_set(old: Daemon, v: Seq<char>, r: Outcome, new: Daemon) -> bool {
    &&& taken(r, true, Json::Bool(is_on(v)))
    &&& new == (Daemon { indexing: Indexing { index_evict: is_on(v), ..old.indexing }, ..old })
}

/// Lets a full index drop rows on its own, or not.
pub fn set_index_evict(d: &mut Daemon, _name: &str, v: &str) -> (r: Outcome)
    ensures
        index_evict_set(*old(d), v@, r, *final(d)),
{
    let on = flag(v);
    d.indexing.index_evict = on;
    Ok((true, Value::Bool(on)))
}

/// What setting `index_gates` to a value comes to.
pub open spec fn index_gates_set(
    old: Daemon,
    v: Seq<char>,
    parsed: Result<(), String>,
    r: Outcome,
    new: Daemon,
) -> bool {
    let t = trimmed(v);
    if t.len() > 0 && parsed is Err {
        refused(old, r, new, "gates: "@ + parsed->Err_0@)
    } else {
        &&& taken(r, true, Json::Text(t))
        &&& new == (Daemon {
            indexing: Indexing {
                index_gates: new.indexing.index_gates,
                index_gates_on: t.len() > 0,
                ..old.indexing
            },
            ..old
        })
        &&& new.indexing.index_gates@ == t
    }
}

/// Sets the gates of the index, given whether the text reads as gates. Empty
/// removes them.
pub fn set_index_gates(d: &mut Daemon, _name: &str, v: &str, parsed: Result<(), String>) -> (r:
    Outcome)
    ensures
        index_gates_set(*old(d), v@, parsed, r, *final(d)),
{
    let t: String = trim(v);
    let some: bool = !t.as_str().is_empty();
    if some {
        if let Err(e) = parsed {
            return Err(glue("gates: ", e.as_str()));
        }
    }
    let echo = text(t.as_str());
    d.indexing.index_gates = t;
    d.indexing.index_gates_on = some;
    Ok((true, echo))
}

// ---- laws -----------------------------------------------------------------

/// Kinds are read in small letters, each once and all of them known: the first
/// unknown one is the error.
pub proof fn which_kinds_are_read(typed: Seq<Seq<char>>, t: Seq<char>, known: Seq<Seq<char>>)
    ensures
        unknown_kind(Seq::empty(), known) is None,
        unknown_kind(typed, known) is Some ==> unknown_kind(typed.push(t), known) == unknown_kind(
            typed,
            known,
        ),
        unknown_kind(typed, known) is None && known.contains(lowered(t)) ==> unknown_kind(
            typed.push(t),
            known,
        ) is None,
        unknown_kind(typed, known) is None && !known.contains(lowered(t)) ==> unknown_kind(
            typed.push(t),
            known,
        ) == Some(lowered(t)),
        distinct_kinds(Seq::empty()) == Seq::<Seq<char>>::empty(),
        distinct_kinds(typed).contains(lowered(t)) ==> distinct_kinds(typed.push(t))
            == distinct_kinds(typed),
        !distinct_kinds(typed).contains(lowered(t)) ==> distinct_kinds(typed.push(t))
            == distinct_kinds(typed).push(lowered(t)),
{
    assert(typed.push(t).drop_last() =~= typed);
}

/// A list of kinds is stored as it reads; one with an unknown kind is not.
pub proof fn what_setting_the_kinds_does(d: &mut Daemon, name: &str, v: &str, r: Outcome)
    requires
        call_ensures(set_index_evict_kinds, (d, name, v), r),
    ensures
        unknown_kind(list_of(v@, ","@), old(d).words.evict_kinds.deep_view()) matches Some(k) ==> r
            is Err && r->Err_0@ == "index_evict_kinds: "@ + ("unknown kind "@ + k) && *final(d)
            == *old(d),
        unknown_kind(list_of(v@, ","@), old(d).words.evict_kinds.deep_view()) is None ==> r is Ok
            && final(d).indexing.index_evict_kinds.deep_view() == distinct_kinds(
            list_of(v@, ","@),
        ),
{
}

} // verus!
