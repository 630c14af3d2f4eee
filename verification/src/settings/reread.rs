//! What a restart keeps of the settings that other parts read: lists, and
//! names that have to be made usable.
use super::config::{shown, ConfigCtx};
use super::key::{key_named, Key};
use super::lists::{instances, targets};
use super::outcome::Outcome;
use super::paths::{
    category_names, cats_text, dests, given_dests, unusable_name, without_star,
};
use super::{applied, key_settable, Given};
use crate::daemon::Daemon;
use crate::order::{before, push_set, sorted, sorted_unique};
use crate::startup::{not_empty, restored, saved_names, Restoring};
use crate::text::{is_white, joined, kept, list_of, pieces, splitting_undoes_joining, trimmed};
use crate::value::{field, jsons, Json};
use vstd::prelude::*;

verus! {

/// Whether a name can stand in a list of categories and be found there again.
pub open spec fn is_category(n: Seq<char>) -> bool {
    &&& n.len() > 0
    &&& trimmed(n) == n
    &&& forall|i: int| 0 <= i < n.len() ==> #[trigger] n[i] != ','
}

/// Whether a setting is a name or a list that other parts read for a start.
pub open spec fn read_for_it(k: Key) -> bool {
    k is Categories || k is MoveCompletedCats || k is IndexInterests || k is SmartFolders
        || k is CustomCategories || k is NotifyTargets || k is ArrInstances
}

/// Whether a start is handed of a setting what setting it was handed: a list
/// reads as it was stored, and a name that was made usable is left as it is.
pub open spec fn handed_back(k: Key, set: Daemon, given: Given, saved: Json, g: Restoring) -> bool {
    match k {
        Key::Categories => {
            &&& g.clean.deep_view() == saved_names(saved)
            &&& forall|i: int|
                0 <= i < set.paths.cats@.len() ==> is_category(
                    #[trigger] set.paths.cats.deep_view()[i],
                )
        },
        Key::MoveCompletedCats => g.dests is Some && given.dests is Ok && dests(g.dests->0@)
            == given_dests(given.dests->Ok_0@),
        Key::IndexInterests => g.interests.deep_view() == given.interests.deep_view(),
        Key::SmartFolders => g.smart_folders is Ok && jsons(g.smart_folders->Ok_0@) == jsons(
            set.automation.smart_folders@,
        ),
        Key::CustomCategories => g.custom_categories is Ok && g.custom_categories->Ok_0.valid
            && jsons(g.custom_categories->Ok_0.list@) == jsons(
            set.automation.custom_categories@,
        ),
        Key::NotifyTargets => g.targets is Ok && targets(g.targets->Ok_0@) == targets(
            set.automation.notify_targets@,
        ),
        Key::ArrInstances => g.instances is Ok && instances(g.instances->Ok_0@) == instances(
            set.automation.arr_instances@,
        ),
        _ => false,
    }
}

/// Settings survive a restart also where other parts read them for the start:
/// one whose saved value is in the file, and of which the start is handed what
/// setting it was handed, is shown after the start as it was before. The
/// categories, their destinations and the interests are shown as they were
/// stored.
pub proof fn a_setting_that_is_read_for_it_survives_a_restart(
    was: Daemon,
    name: Seq<char>,
    v: Seq<char>,
    given: Given,
    r: Outcome,
    set: Daemon,
    saved: Json,
    fresh: Daemon,
    g: Restoring,
    new: Daemon,
    shown_before: ConfigCtx,
    c: ConfigCtx,
)
    requires
        key_named(name) matches Some(k) && read_for_it(k) && key_settable(was, k, v, given)
            && handed_back(k, set, given, saved, g),
        applied(was, name, v, given, r, set),
        r is Ok,
        field(saved, name) == Some(r->Ok_0.1@),
        restored(fresh, saved, g, new),
        fresh.paths.cats.deep_view().to_set() == was.words.default_cats.deep_view().to_set(),
        *shown_before.d == set,
        *c.d == new,
        c == (ConfigCtx { d: c.d, ..shown_before }),
    ensures
        shown(c, name) == shown(shown_before, name),
        key_named(name)->0 is Categories || key_named(name)->0 is MoveCompletedCats
            || key_named(name)->0 is IndexInterests ==> shown(c, name) == Some(r->Ok_0.1@),
{
    let k = key_named(name)->0;
    if k is Categories {
        let cats = set.paths.cats.deep_view();
        let all = given.clean.deep_view();
        usable_names_are_not_empty(category_names(v), all);
        stored_categories_read_back(cats);
        let back = saved_names(saved);
        assert(back == without_star(cats));
        starless(cats);
        starless(new.paths.cats.deep_view());
        let now = new.paths.cats.deep_view();
        assert forall|n: Seq<char>| n != "*"@ implies now.to_set().contains(n)
            == cats.to_set().contains(n) by {
            assert(without_star(cats).contains(n) == cats.contains(n));
            assert(not_empty(back).contains(n) == (back.to_set().contains(n) && n.len() > 0));
            if cats.contains(n) {
                let i = choose|i: int| 0 <= i < cats.len() && cats[i] == n;
                assert(is_category(cats[i]));
            }
            if fresh.paths.cats.deep_view().to_set().contains(n) {
                assert(was.words.default_cats.deep_view().to_set().contains(n));
            }
        }
        assert(without_star(now).to_set() =~= without_star(cats).to_set()) by {
            assert forall|n: Seq<char>| without_star(now).to_set().contains(n)
                == without_star(cats).to_set().contains(n) by {
                assert(without_star(now).contains(n) == (now.contains(n) && n != "*"@));
                assert(without_star(cats).contains(n) == (cats.contains(n) && n != "*"@));
                assert(now.to_set().contains(n) == now.contains(n));
                assert(cats.to_set().contains(n) == cats.contains(n));
            }
        }
        sorted_unique(without_star(now), without_star(cats));
    }
}

/// Which interests have been turned into groups survives a restart.
pub proof fn what_was_applied_survives_a_restart(
    was: Daemon,
    name: Seq<char>,
    v: Seq<char>,
    given: Given,
    r: Outcome,
    set: Daemon,
    saved: Json,
    fresh: Daemon,
    g: Restoring,
    new: Daemon,
)
    requires
        key_named(name) == Some(Key::IndexInterestsApplied),
        applied(was, name, v, given, r, set),
        r is Ok,
        field(saved, name) == Some(r->Ok_0.1@),
        restored(fresh, saved, g, new),
    ensures
        new.indexing.index_interests_applied@ == set.indexing.index_interests_applied@,
{
}

/// What was made usable is not empty.
proof fn usable_names_are_not_empty(names: Seq<Seq<char>>, clean: Seq<Seq<char>>)
    requires
        unusable_name(names, clean) is None,
    ensures
        forall|i: int| 0 <= i < clean.len() ==> (#[trigger] clean[i]).len() > 0,
    decreases clean.len(),
{
    if clean.len() > 0 {
        let rest = clean.drop_last();
        usable_names_are_not_empty(names, rest);
        assert forall|i: int| 0 <= i < clean.len() implies (#[trigger] clean[i]).len() > 0 by {
            if i < rest.len() {
                assert(rest[i] == clean[i]);
            }
        }
    }
}

/// A list without the wildcard holds everything else, and stays sorted.
proof fn starless(list: Seq<Seq<char>>)
    ensures
        forall|n: Seq<char>| #[trigger]
            without_star(list).contains(n) == (list.contains(n) && n != "*"@),
        sorted(list) ==> sorted(without_star(list)),
    decreases list.len(),
{
    if list.len() > 0 {
        let rest = list.drop_last();
        starless(rest);
        let a = without_star(rest);
        let b = without_star(list);
        assert(list =~= rest.push(list.last()));
        push_set(rest, list.last());
        push_set(a, list.last());
        assert forall|n: Seq<char>| #[trigger] b.contains(n) == (list.contains(n) && n
            != "*"@) by {
            assert(rest.to_set().contains(n) == rest.contains(n));
            assert(list.to_set().contains(n) == list.contains(n));
            assert(a.to_set().contains(n) == a.contains(n));
            assert(b.to_set().contains(n) == b.contains(n));
            assert(a.contains(n) == (rest.contains(n) && n != "*"@));
        }
        if sorted(list) {
            assert forall|i: int, j: int| 0 <= i < j < rest.len() implies before(
                #[trigger] rest[i],
                #[trigger] rest[j],
            ) by {
                assert(before(list[i], list[j]));
            }
            assert(sorted(a));
            assert forall|i: int, j: int| 0 <= i < j < b.len() implies before(
                #[trigger] b[i],
                #[trigger] b[j],
            ) by {
                if j < a.len() {
                    assert(before(a[i], a[j]));
                } else {
                    assert(a.contains(a[i]));
                    assert(rest.contains(a[i]));
                    let m = choose|m: int| 0 <= m < rest.len() && rest[m] == a[i];
                    assert(before(list[m], list[list.len() - 1]));
                }
            }
        }
    } else {
        assert(without_star(list) =~= list);
    }
}

/// Names as they stand after a comma and a blank.
spec fn spaced(list: Seq<Seq<char>>) -> Seq<Seq<char>> {
    Seq::new(
        list.len(),
        |i: int|
            if i == 0 {
                list[0]
            } else {
                " "@ + list[i]
            },
    )
}

proof fn spacing_is_joining(list: Seq<Seq<char>>)
    ensures
        joined(list, ", "@) == joined(spaced(list), seq![',']),
    decreases list.len(),
{
    if list.len() > 1 {
        reveal_strlit(", ");
        reveal_strlit(" ");
        let rest = list.drop_last();
        spacing_is_joining(rest);
        assert(spaced(list).drop_last() =~= spaced(rest));
        assert(", "@ =~= seq![','] + " "@);
        assert(joined(list, ", "@) =~= joined(spaced(list), seq![',']));
    } else if list.len() == 1 {
        assert(spaced(list)[0] == list[0]);
    }
}

proof fn a_blank_is_trimmed(n: Seq<char>)
    requires
        is_category(n),
    ensures
        trimmed(" "@ + n) == n,
{
    reveal_strlit(" ");
    let s = " "@ + n;
    assert(s[0] == ' ');
    assert(is_white(' '));
    assert(s.drop_first() =~= n);
}

proof fn spaced_names_are_kept(list: Seq<Seq<char>>)
    requires
        forall|i: int| 0 <= i < list.len() ==> is_category(#[trigger] list[i]),
    ensures
        kept(spaced(list)) == list,
    decreases list.len(),
{
    if list.len() > 0 {
        let rest = list.drop_last();
        assert forall|i: int| 0 <= i < rest.len() implies is_category(#[trigger] rest[i]) by {
            assert(rest[i] == list[i]);
        }
        spaced_names_are_kept(rest);
        assert(spaced(list).drop_last() =~= spaced(rest));
        assert(is_category(list[list.len() - 1]));
        a_blank_is_trimmed(list.last());
        assert(list =~= rest.push(list.last()));
    } else {
        assert(list =~= Seq::empty());
    }
}

/// A stored list of categories reads as the names that it was made of.
proof fn stored_categories_read_back(cats: Seq<Seq<char>>)
    requires
        forall|i: int| 0 <= i < cats.len() ==> is_category(#[trigger] cats[i]),
    ensures
        list_of(cats_text(cats), ","@) == without_star(cats),
{
    reveal_strlit(",");
    reveal_strlit(" ");
    assert(","@ =~= seq![',']);
    let list = without_star(cats);
    starless(cats);
    assert forall|i: int| 0 <= i < list.len() implies is_category(#[trigger] list[i]) by {
        assert(list.contains(list[i]));
        assert(cats.contains(list[i]));
        let m = choose|m: int| 0 <= m < cats.len() && cats[m] == list[i];
        assert(is_category(cats[m]));
    }
    spacing_is_joining(list);
    if list.len() == 0 {
        assert(trimmed(Seq::<char>::empty()) =~= Seq::empty());
        reveal_with_fuel(kept, 2);
        assert(pieces(joined(list, ", "@), ","@) =~= seq![Seq::<char>::empty()]);
        assert(list_of(cats_text(cats), ","@) =~= Seq::empty());
        assert(list =~= Seq::empty());
    } else {
        let parts = spaced(list);
        assert forall|k: int, i: int| 0 <= k < parts.len() && 0 <= i < parts[k].len() implies
            #[trigger] parts[k][i] != ',' by {
            assert(is_category(list[k]));
            if k > 0 && i > 0 {
                assert(parts[k][i] == list[k][i - 1]);
            }
        }
        splitting_undoes_joining(parts, ',');
        spaced_names_are_kept(list);
    }
}

} // verus!
