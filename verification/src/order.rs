//! Sorted lists of strings without repeats.
use crate::text::{chars_of, same};
use vstd::prelude::*;

verus! {

/// Whether `a` stands before `b` in dictionary order.
pub open spec fn before(a: Seq<char>, b: Seq<char>) -> bool
    decreases a.len(),
{
    if b.len() == 0 {
        false
    } else if a.len() == 0 {
        true
    } else if a[0] != b[0] {
        a[0] < b[0]
    } else {
        before(a.drop_first(), b.drop_first())
    }
}

/// Of two different strings one stands before the other, and only one.
pub proof fn order_total(a: Seq<char>, b: Seq<char>)
    ensures
        a != b ==> before(a, b) || before(b, a),
        !(before(a, b) && before(b, a)),
        a == b ==> !before(a, b),
    decreases a.len(),
{
    if a.len() > 0 && b.len() > 0 && a[0] == b[0] {
        order_total(a.drop_first(), b.drop_first());
        if a.drop_first() == b.drop_first() {
            assert(a =~= seq![a[0]] + a.drop_first());
            assert(b =~= seq![b[0]] + b.drop_first());
        }
    } else if a.len() == 0 && b.len() == 0 {
        assert(a =~= b);
    }
}

/// Dictionary order carries over.
pub proof fn order_transitive(a: Seq<char>, b: Seq<char>, c: Seq<char>)
    requires
        before(a, b),
        before(b, c),
    ensures
        before(a, c),
    decreases a.len(),
{
    if a.len() > 0 && a[0] == b[0] && b[0] == c[0] {
        order_transitive(a.drop_first(), b.drop_first(), c.drop_first());
    }
}

/// Whether a list is sorted and holds nothing twice.
pub open spec fn sorted(list: Seq<Seq<char>>) -> bool {
    forall|i: int, j: int|
        #![trigger list[i], list[j]]
        0 <= i < j < list.len() ==> before(list[i], list[j])
}

/// Whether `a` stands before `b` in dictionary order.
pub fn comes_before(a: &str, b: &str) -> (r: bool)
    ensures
        r == before(a@, b@),
{
    let x: Vec<char> = chars_of(a);
    let y: Vec<char> = chars_of(b);
    let mut i: usize = 0;
    assert(x@.skip(0) =~= x@);
    assert(y@.skip(0) =~= y@);
    while i < x.len() && i < y.len() && x[i] == y[i]
        invariant
            i <= x@.len(),
            i <= y@.len(),
            before(x@, y@) == before(x@.skip(i as int), y@.skip(i as int)),
        decreases x@.len() - i,
    {
        assert(x@.skip(i as int).drop_first() =~= x@.skip(i + 1));
        assert(y@.skip(i as int).drop_first() =~= y@.skip(i + 1));
        i = i + 1;
    }
    if i >= y.len() {
        false
    } else if i >= x.len() {
        true
    } else {
        x[i] < y[i]
    }
}

/// Puts `s` into a sorted list, unless it is there.
pub fn insert_sorted(list: &mut Vec<String>, s: String)
    requires
        sorted(old(list).deep_view()),
    ensures
        sorted(final(list).deep_view()),
        final(list).deep_view().to_set() == old(list).deep_view().to_set().insert(s@),
{
    let ghost all = list.deep_view();
    let mut i: usize = 0;
    while i < list.len() && comes_before(list[i].as_str(), s.as_str())
        invariant
            i <= list@.len(),
            all == list.deep_view(),
            forall|j: int| 0 <= j < i ==> before(#[trigger] all[j], s@),
        decreases list@.len() - i,
    {
        assert(all[i as int] == list@[i as int]@);
        i = i + 1;
    }
    if i < list.len() {
        assert(all[i as int] == list@[i as int]@);
        if same(list[i].as_str(), s.as_str()) {
            assert(all.contains(s@));
            assert(all.to_set().insert(s@) =~= all.to_set());
            return;
        }
    }
    let ghost sv = s@;
    list.insert(i, s);
    let ghost next = list.deep_view();
    assert(next =~= all.insert(i as int, sv));
    proof {
        assert forall|a: int, b: int|
            #![trigger next[a], next[b]]
            0 <= a < b < next.len() implies before(next[a], next[b]) by {
            if a == i {
                assert(next[b] == all[b - 1]);
                order_total(sv, all[i as int]);
                if b - 1 > i {
                    assert(before(all[i as int], all[b - 1]));
                    order_transitive(sv, all[i as int], all[b - 1]);
                }
            } else if b == i {
                assert(next[a] == all[a]);
            } else {
                let x = if a < i {
                    a
                } else {
                    a - 1
                };
                let y = if b < i {
                    b
                } else {
                    b - 1
                };
                assert(next[a] == all[x]);
                assert(next[b] == all[y]);
            }
        }
        assert forall|t: Seq<char>| next.to_set().contains(t) == all.to_set().insert(sv).contains(
            t,
        ) by {
            if next.contains(t) {
                let k = choose|k: int| 0 <= k < next.len() && next[k] == t;
                if k < i {
                    assert(all[k] == t);
                } else if k > i {
                    assert(all[k - 1] == t);
                }
            }
            if all.contains(t) {
                let k = choose|k: int| 0 <= k < all.len() && all[k] == t;
                if k < i {
                    assert(next[k] == t);
                } else {
                    assert(next[k + 1] == t);
                }
            }
            assert(next[i as int] == sv);
        }
        assert(next.to_set() =~= all.to_set().insert(sv));
    }
}

/// The sorted list of the strings of `list`, each once.
pub fn sorted_set(list: &Vec<String>) -> (r: Vec<String>)
    ensures
        sorted(r.deep_view()),
        r.deep_view().to_set() == list.deep_view().to_set(),
        r.deep_view() == in_order(list.deep_view().to_set()),
{
    let ghost all = list.deep_view();
    let mut r: Vec<String> = Vec::new();
    let mut i: usize = 0;
    assert(r.deep_view().to_set() =~= all.take(0).to_set());
    while i < list.len()
        invariant
            i <= list@.len(),
            all == list.deep_view(),
            sorted(r.deep_view()),
            r.deep_view().to_set() == all.take(i as int).to_set(),
        decreases list@.len() - i,
    {
        insert_sorted(&mut r, list[i].clone());
        proof {
            let a = all.take(i as int);
            let b = all.take(i + 1);
            assert(b =~= a.push(list@[i as int]@));
            push_set(a, list@[i as int]@);
        }
        i = i + 1;
    }
    assert(all.take(all.len() as int) =~= all);
    proof {
        sorted_unique(r.deep_view(), in_order(all.to_set()));
    }
    r
}

/// The last of a sorted list stands after all others.
proof fn last_is_greatest(a: Seq<Seq<char>>, x: Seq<char>)
    requires
        sorted(a),
        a.contains(x),
    ensures
        x == a.last() || before(x, a.last()),
{
    let k = choose|k: int| 0 <= k < a.len() && a[k] == x;
    if k < a.len() - 1 {
        assert(before(a[k], a[a.len() - 1]));
    }
}

/// A sorted list is told by what it holds.
pub proof fn sorted_unique(a: Seq<Seq<char>>, b: Seq<Seq<char>>)
    requires
        sorted(a),
        sorted(b),
        a.to_set() == b.to_set(),
    ensures
        a == b,
    decreases a.len(),
{
    if a.len() == 0 {
        if b.len() > 0 {
            assert(b.to_set().contains(b[0]));
            assert(a.to_set().contains(b[0]));
        }
        assert(a =~= b);
    } else {
        assert(a.contains(a.last()));
        assert(a.to_set().contains(a.last()));
        assert(b.contains(a.last()));
        assert(b.len() > 0);
        assert(b.contains(b.last()));
        assert(b.to_set().contains(b.last()));
        assert(a.contains(b.last()));
        last_is_greatest(a, b.last());
        last_is_greatest(b, a.last());
        order_total(a.last(), b.last());
        let c = a.drop_last();
        let d = b.drop_last();
        assert forall|x: Seq<char>| c.to_set().contains(x) == d.to_set().contains(x) by {
            rest_holds(a, x);
            rest_holds(b, x);
            assert(a.contains(x) == a.to_set().contains(x));
            assert(b.contains(x) == b.to_set().contains(x));
        }
        assert(c.to_set() =~= d.to_set());
        sorted_unique(c, d);
        assert(a =~= c.push(a.last()));
        assert(b =~= d.push(b.last()));
    }
}

/// All but the last of a sorted list are its elements other than the last.
proof fn rest_holds(a: Seq<Seq<char>>, x: Seq<char>)
    requires
        sorted(a),
        a.len() > 0,
    ensures
        a.drop_last().contains(x) == (a.contains(x) && x != a.last()),
{
    if a.drop_last().contains(x) {
        let k = choose|k: int| 0 <= k < a.drop_last().len() && a.drop_last()[k] == x;
        assert(a[k] == x);
        assert(before(a[k], a[a.len() - 1]));
        order_total(x, a.last());
    }
    if a.contains(x) && x != a.last() {
        let k = choose|k: int| 0 <= k < a.len() && a[k] == x;
        assert(a.drop_last()[k] == x);
    }
}

/// The sorted list of a set's strings.
pub open spec fn in_order(set: Set<Seq<char>>) -> Seq<Seq<char>> {
    choose|k: Seq<Seq<char>>| #[trigger] sorted(k) && k.to_set() == set
}

/// A pushed element joins the set of elements.
pub proof fn push_set(s: Seq<Seq<char>>, x: Seq<char>)
    ensures
        s.push(x).to_set() == s.to_set().insert(x),
{
    let p = s.push(x);
    assert forall|t: Seq<char>| p.to_set().contains(t) == s.to_set().insert(x).contains(t) by {
        if s.contains(t) {
            let k = choose|k: int| 0 <= k < s.len() && s[k] == t;
            assert(p[k] == t);
        }
        if p.contains(t) {
            let k = choose|k: int| 0 <= k < p.len() && p[k] == t;
            if k < s.len() {
                assert(s[k] == t);
            }
        }
        assert(p[s.len() as int] == x);
    }
    assert(p.to_set() =~= s.to_set().insert(x));
}

// ---- laws -----------------------------------------------------------------

/// A text stands before another where it is the beginning of it, or where at
/// the first place at which they differ its character is the smaller.
pub proof fn which_text_stands_before(p: Seq<char>, a: char, b: char, x: Seq<char>, y: Seq<char>)
    requires
        a < b,
    ensures
        before(p + seq![a] + x, p + seq![b] + y),
        before(p, p + seq![b] + y),
        !before(p, p),
        !before(p + seq![b] + y, p + seq![a] + x),
    decreases p.len(),
{
    let l = p + seq![a] + x;
    let m = p + seq![b] + y;
    if p.len() > 0 {
        which_text_stands_before(p.drop_first(), a, b, x, y);
        assert(l.drop_first() =~= p.drop_first() + seq![a] + x);
        assert(m.drop_first() =~= p.drop_first() + seq![b] + y);
    }
}

} // verus!
