//! The feeds: what of them was already judged, and what is fetched.
use vstd::prelude::*;

use crate::book::Book;
use crate::daemon::FeedHealth;
use crate::text::{chars_of, glue, listed, text_of};

verus! {

/// The list of strings that a JSON text holds; nothing where it holds
/// anything else.
pub uninterp spec fn texts_in(bytes: Seq<u8>) -> Option<Seq<Seq<char>>>;

/// `serde_json::from_slice` into a list of strings. What it returns depends
/// on the bytes alone.
#[verifier::external_body]
fn read_texts(bytes: &[u8]) -> (r: Option<Vec<String>>)
    ensures
        r.deep_view() == texts_in(bytes@),
{
    serde_json::from_slice(bytes).ok()
}

/// The JSON text of a list of strings.
pub uninterp spec fn texts_written(list: Seq<Seq<char>>) -> Seq<u8>;

/// `serde_json::to_vec` of a list of strings, which always succeeds. What it
/// returns depends on the strings alone, and reading it gives them back.
#[verifier::external_body]
fn write_texts(list: &Vec<String>) -> (r: Option<Vec<u8>>)
    ensures
        r is Some,
        r->0@ == texts_written(list.deep_view()),
        texts_in(r->0@) == Some(list.deep_view()),
{
    serde_json::to_vec(list).ok()
}

/// The items that have been judged, and in what order: the oldest of more
/// than may be remembered are forgotten.
pub struct SeenGuids {
    pub set: Book<()>,
    pub order: Vec<String>,
    /// Whether it has changed since it was last saved.
    pub dirty: bool,
}

/// How many items are remembered. Far more than a feed holds at a time.
pub const SEEN_MAX: usize = 20_000;

/// The order after one more item.
pub open spec fn order_with(order: Seq<Seq<char>>, guid: Seq<char>) -> Seq<Seq<char>> {
    let all = order.push(guid);
    if all.len() > SEEN_MAX {
        all.skip(all.len() - SEEN_MAX)
    } else {
        all
    }
}

/// Whether an item is among those that one more makes forgotten.
pub open spec fn pushed_out(order: Seq<Seq<char>>, guid: Seq<char>, k: Seq<char>) -> bool {
    let all = order.push(guid);
    all.len() > SEEN_MAX && all.take(all.len() - SEEN_MAX).contains(k)
}

impl SeenGuids {
    /// Whether no item stands twice in the set.
    pub open spec fn wf(self) -> bool {
        self.set.wf()
    }

    /// Whether an item has been judged.
    pub open spec fn knows(self, guid: Seq<char>) -> bool {
        self.set.at(guid) is Some
    }

    /// Whether the items that have been judged are those of the order, each
    /// of which stands there once.
    pub open spec fn agrees(self) -> bool {
        &&& self.order.deep_view().no_duplicates()
        &&& forall|k: Seq<char>| #[trigger] self.knows(k) == self.order.deep_view().contains(k)
    }

    /// Whether it has become another by one more item.
    pub open spec fn became(self, guid: Seq<char>, new: SeenGuids) -> bool {
        if self.knows(guid) {
            new == self
        } else {
            &&& new.dirty
            &&& new.order.deep_view() == order_with(self.order.deep_view(), guid)
            &&& forall|k: Seq<char>| #[trigger]
                new.knows(k) == ((k == guid || self.knows(k)) && !pushed_out(
                    self.order.deep_view(),
                    guid,
                    k,
                ))
        }
    }

    /// What was saved; nothing where it cannot be read.
    pub fn load(saved: Option<&[u8]>) -> (r: SeenGuids)
        ensures
            r.wf(),
            !r.dirty,
            r.order.deep_view() == match saved {
                Some(b) => match texts_in(b@) {
                    Some(l) => l,
                    None => Seq::empty(),
                },
                None => Seq::empty(),
            },
            forall|k: Seq<char>| #[trigger] r.knows(k) == r.order.deep_view().contains(k),
    {
        let list: Option<Vec<String>> = match saved {
            Some(b) => read_texts(b),
            None => None,
        };
        match list {
            Some(l) => Self::from_list(l),
            None => {
                let none: Vec<String> = Vec::new();
                assert(none.deep_view() =~= Seq::empty());
                Self::from_list(none)
            },
        }
    }

    /// The items of a list, the oldest first.
    pub fn from_list(order: Vec<String>) -> (r: SeenGuids)
        ensures
            r.wf(),
            !r.dirty,
            r.order == order,
            forall|k: Seq<char>| #[trigger] r.knows(k) == order.deep_view().contains(k),
    {
        let mut set: Book<()> = Book::new();
        let ghost all = order.deep_view();
        let mut i: usize = 0;
        while i < order.len()
            invariant
                i <= order@.len(),
                set.wf(),
                all == order.deep_view(),
                forall|k: Seq<char>|
                    (#[trigger] set.at(k)) is Some == all.take(i as int).contains(k),
            decreases order@.len() - i,
        {
            let ghost was = set;
            set.put(order[i].as_str(), ());
            proof {
                let before = all.take(i as int);
                let upto = all.take(i + 1);
                assert(upto =~= before.push(order@[i as int]@));
                assert forall|k: Seq<char>| true implies (#[trigger] set.at(k)) is Some
                    == upto.contains(k) by {
                    if k == order@[i as int]@ {
                        assert(upto[i as int] == k);
                    } else {
                        assert(set.at(k) == was.at(k));
                        if before.contains(k) {
                            let j = choose|j: int| 0 <= j < before.len() && before[j] == k;
                            assert(upto[j] == k);
                        }
                        if upto.contains(k) {
                            let j = choose|j: int| 0 <= j < upto.len() && upto[j] == k;
                            assert(before[j] == k);
                        }
                    }
                }
            }
            i = i + 1;
        }
        assert(all.take(all.len() as int) =~= all);
        SeenGuids { set, order, dirty: false }
    }

    /// Whether an item has been judged.
    pub fn contains(&self, guid: &str) -> (r: bool)
        requires
            self.wf(),
        ensures
            r == self.knows(guid@),
    {
        self.set.has(guid)
    }

    /// Notes that an item has been judged. The oldest are forgotten for it,
    /// never all of them: that would let what was fetched long ago in again.
    pub fn insert(&mut self, guid: &str)
        requires
            old(self).wf(),
        ensures
            final(self).wf(),
            old(self).became(guid@, *final(self)),
    {
        if self.set.has(guid) {
            return;
        }
        self.set.put(guid, ());
        self.order.push(guid.to_owned());
        self.dirty = true;
        let ghost all = self.order.deep_view();
        let ghost n: int = 0;
        proof {
            assert(all =~= old(self).order.deep_view().push(guid@));
            assert(all.skip(0) =~= all);
            assert forall|k: Seq<char>| true implies #[trigger] self.knows(k) == ((k == guid@
                || old(self).knows(k)) && !all.take(0).contains(k)) by {
                assert(self.set.at(k) is Some == (k == guid@ || old(self).set.at(k) is Some));
            }
        }
        while self.order.len() > SEEN_MAX
            invariant
                self.wf(),
                self.dirty,
                0 <= n <= all.len(),
                self.order.deep_view() == all.skip(n),
                self.order@.len() == all.len() - n,
                n == 0 || all.len() - n >= SEEN_MAX,
                forall|k: Seq<char>| #[trigger]
                    self.knows(k) == ((k == guid@ || old(self).knows(k)) && !all.take(n).contains(
                        k,
                    )),
            decreases self.order@.len(),
        {
            let ghost was = *self;
            let gone: String = self.order.remove(0);
            self.set.remove(gone.as_str());
            proof {
                assert(gone@ == was.order.deep_view()[0]);
                assert(gone@ == all[n]);
                assert(self.order.deep_view() =~= was.order.deep_view().skip(1));
                assert(self.order.deep_view() =~= all.skip(n + 1));
                let before = all.take(n);
                let upto = all.take(n + 1);
                assert(upto =~= before.push(gone@));
                assert forall|k: Seq<char>| true implies #[trigger] self.knows(k) == ((k == guid@
                    || old(self).knows(k)) && !upto.contains(k)) by {
                    assert(was.knows(k) == ((k == guid@ || old(self).knows(k))
                        && !before.contains(k)));
                    if k == gone@ {
                        assert(upto[n] == k);
                        assert(self.set.at(k) is None);
                    } else {
                        assert(self.set.at(k) == was.set.at(k));
                        if before.contains(k) {
                            let j = choose|j: int| 0 <= j < before.len() && before[j] == k;
                            assert(upto[j] == k);
                        }
                        if upto.contains(k) {
                            let j = choose|j: int| 0 <= j < upto.len() && upto[j] == k;
                            assert(before[j] == k);
                        }
                    }
                }
                n = n + 1;
            }
        }
        proof {
            if all.len() <= SEEN_MAX {
                assert(n == 0);
                assert(all.take(0).len() == 0);
            }
        }
    }

    /// What there is to save, where anything has changed since the last time.
    pub fn take_dirty(&mut self) -> (r: Option<Vec<u8>>)
        ensures
            final(self).set == old(self).set,
            final(self).order == old(self).order,
            !final(self).dirty,
            r is Some == old(self).dirty,
            r matches Some(b) ==> b@ == texts_written(old(self).order.deep_view()) && texts_in(b@)
                == Some(old(self).order.deep_view()),
    {
        if !self.dirty {
            return None;
        }
        self.dirty = false;
        write_texts(&self.order)
    }
}

/// Only the oldest are forgotten: an item is pushed out by as many others as
/// may be remembered, and no sooner.
pub proof fn a_judged_item_is_not_soon_forgotten(order: Seq<Seq<char>>, guid: Seq<char>, i: int)
    requires
        0 <= i < order.len(),
        order.len() - i < SEEN_MAX,
        forall|j: int| 0 <= j < i ==> order[j] != order[i],
    ensures
        !pushed_out(order, guid, order[i]),
{
    let all = order.push(guid);
    if all.len() > SEEN_MAX {
        let gone = all.take(all.len() - SEEN_MAX);
        if gone.contains(order[i]) {
            let j = choose|j: int| 0 <= j < gone.len() && gone[j] == order[i];
            assert(order[j] == order[i]);
        }
    }
}

/// What is remembered and what is listed stay the same items.
pub proof fn the_list_says_what_was_judged(s: SeenGuids, guid: Seq<char>, t: SeenGuids)
    requires
        s.agrees(),
        s.became(guid, t),
    ensures
        t.agrees(),
{
    if !s.knows(guid) {
        let order = s.order.deep_view();
        let all = order.push(guid);
        let n: int = if all.len() > SEEN_MAX {
            all.len() - SEEN_MAX
        } else {
            0
        };
        let kept = all.skip(n);
        assert(t.order.deep_view() =~= kept);
        assert(all.no_duplicates()) by {
            assert forall|i: int, j: int|
                0 <= i < all.len() && 0 <= j < all.len() && i != j implies all[i] != all[j] by {
                if i == order.len() {
                    assert(order.contains(all[j]));
                } else if j == order.len() {
                    assert(order.contains(all[i]));
                }
            }
        }
        assert forall|k: Seq<char>| true implies #[trigger] t.knows(k) == kept.contains(k) by {
            let gone = all.take(n);
            assert(all.contains(k) == (k == guid || order.contains(k))) by {
                if order.contains(k) {
                    let i = choose|i: int| 0 <= i < order.len() && order[i] == k;
                    assert(all[i] == k);
                }
                assert(all[order.len() as int] == guid);
            }
            if all.contains(k) {
                let i = choose|i: int| 0 <= i < all.len() && all[i] == k;
                if i < n {
                    assert(gone[i] == k);
                    assert(gone.contains(k));
                } else {
                    assert(kept[i - n] == k);
                    if gone.contains(k) {
                        let j = choose|j: int| 0 <= j < gone.len() && gone[j] == k;
                        assert(all[j] == k);
                    }
                }
            }
            if kept.contains(k) {
                let i = choose|i: int| 0 <= i < kept.len() && kept[i] == k;
                assert(all[i + n] == k);
            }
        }
    }
}

/// What was judged is known after a restart, and nothing else is: what is read
/// back of what was saved knows the same items.
pub proof fn a_judged_item_is_known_after_a_restart(
    s: SeenGuids,
    saved: Seq<u8>,
    again: SeenGuids,
    guid: Seq<char>,
)
    requires
        s.agrees(),
        texts_in(saved) == Some(s.order.deep_view()),
        again.order.deep_view() == texts_in(saved)->0,
        forall|k: Seq<char>| #[trigger] again.knows(k) == again.order.deep_view().contains(k),
    ensures
        again.knows(guid) == s.knows(guid),
        again.agrees(),
{
}

/// Whether a feed is polled now.
pub fn poll_due(due: &Book<u64>, url: &str, now: u64) -> (r: bool)
    requires
        due.wf(),
    ensures
        r == !(due.at(url@) is Some && due.at(url@)->0 > now),
{
    match due.get(url) {
        Some(t) => *t <= now,
        None => true,
    }
}

/// Notes when a feed is polled next: after its interval, a minute at least.
pub fn poll_later(due: &mut Book<u64>, url: &str, now: u64, interval: u64)
    requires
        old(due).wf(),
        now + interval <= u64::MAX,
        now + 60 <= u64::MAX,
    ensures
        final(due).wf(),
        final(due).at(url@) == Some(
            (now + if interval < 60 {
                60
            } else {
                interval as int
            }) as u64,
        ),
        forall|k: Seq<char>| k != url@ ==> #[trigger] final(due).at(k) == old(due).at(k),
{
    let secs: u64 = if interval < 60 {
        60
    } else {
        interval
    };
    due.put(url, now + secs);
}

/// The health of the feeds whose address is listed, in order.
pub open spec fn health_of(list: Seq<FeedHealth>, live: Seq<Seq<char>>) -> Seq<FeedHealth>
    decreases list.len(),
{
    if list.len() == 0 {
        Seq::empty()
    } else if live.contains(list.last().url@) {
        health_of(list.drop_last(), live).push(list.last())
    } else {
        health_of(list.drop_last(), live)
    }
}

/// Forgets the health of the feeds that are no longer there.
pub fn keep_health(list: Vec<FeedHealth>, live: &Vec<String>) -> (r: Vec<FeedHealth>)
    ensures
        r@ == health_of(list@, live.deep_view()),
{
    let ghost all = list@;
    let mut list: Vec<FeedHealth> = list;
    let mut back: Vec<FeedHealth> = Vec::new();
    assert(all.take(all.len() as int) =~= all);
    assert(health_of(all, live.deep_view()) =~= health_of(list@, live.deep_view())
        + back@.reverse());
    while list.len() > 0
        invariant
            health_of(all, live.deep_view()) == health_of(list@, live.deep_view())
                + back@.reverse(),
        decreases list@.len(),
    {
        let ghost was = list@;
        let ghost kept = back@;
        let h: Option<FeedHealth> = list.pop();
        match h {
            Some(h) => {
                assert(list@ =~= was.drop_last());
                if listed(live, h.url.as_str()) {
                    back.push(h);
                    assert(back@.reverse() =~= seq![h] + kept.reverse());
                    assert(health_of(was, live.deep_view()) + kept.reverse() =~= health_of(
                        list@,
                        live.deep_view(),
                    ) + back@.reverse());
                }
            },
            None => {},
        }
    }
    let mut r: Vec<FeedHealth> = Vec::new();
    let ghost rest = back@;
    assert(r@ + back@.reverse() =~= rest.reverse());
    while back.len() > 0
        invariant
            r@ + back@.reverse() == rest.reverse(),
        decreases back@.len(),
    {
        let ghost was = back@;
        let ghost done = r@;
        match back.pop() {
            Some(h) => {
                r.push(h);
                assert(was.reverse() =~= seq![h] + back@.reverse());
                assert(r@ + back@.reverse() =~= done + was.reverse());
            },
            None => {},
        }
    }
    assert(r@ =~= rest.reverse());
    assert(health_of(Seq::<FeedHealth>::empty(), live.deep_view()) + rest.reverse()
        =~= rest.reverse());
    r
}

/// What happens to an item of a feed.
#[derive(Clone, Copy, PartialEq, Eq, Structural, Debug)]
pub enum ItemStep {
    /// It was judged before.
    Skip,
    /// The rules turn it down, for good.
    Reject,
    Fetch,
}

/// What happens to an item of a feed. One that the rules turn down is noted.
pub fn item_step(seen: &mut SeenGuids, guid: &str, accepted: bool) -> (r: ItemStep)
    requires
        old(seen).wf(),
    ensures
        final(seen).wf(),
        r == (if old(seen).knows(guid@) {
            ItemStep::Skip
        } else if !accepted {
            ItemStep::Reject
        } else {
            ItemStep::Fetch
        }),
        r != ItemStep::Reject ==> *final(seen) == *old(seen),
        r == ItemStep::Reject ==> old(seen).became(guid@, *final(seen)),
{
    if seen.contains(guid) {
        return ItemStep::Skip;
    }
    if !accepted {
        seen.insert(guid);
        return ItemStep::Reject;
    }
    ItemStep::Fetch
}

/// Notes an item that was fetched. One that could not be is left for the next
/// poll: one bad moment of a server would else lose it for good. What the
/// queue makes of it changes nothing, since trying again would not help.
pub fn item_fetched(seen: &mut SeenGuids, guid: &str, fetched: bool)
    requires
        old(seen).wf(),
        !old(seen).knows(guid@),
    ensures
        final(seen).wf(),
        !fetched ==> *final(seen) == *old(seen),
        fetched ==> old(seen).became(guid@, *final(seen)),
{
    if fetched {
        seen.insert(guid);
    }
}

/// What stands in front of the first question mark.
pub open spec fn before_query(s: Seq<char>) -> Seq<char>
    decreases s.len(),
{
    if s.len() == 0 || s[0] == '?' {
        Seq::empty()
    } else {
        seq![s[0]] + before_query(s.skip(1))
    }
}

proof fn before_query_at(s: Seq<char>, n: int)
    requires
        0 <= n <= s.len(),
        forall|i: int| 0 <= i < n ==> s[i] != '?',
        n < s.len() ==> s[n] == '?',
    ensures
        before_query(s) == s.take(n),
    decreases n,
{
    if n == 0 {
        assert(s.take(0) =~= Seq::empty());
    } else {
        before_query_at(s.skip(1), n - 1);
        assert(s.take(n) =~= seq![s[0]] + s.skip(1).take(n - 1));
    }
}

/// An address as it may be logged: without its query, which often holds a
/// key.
pub fn loggable(link: &str) -> (r: String)
    ensures
        r@ == before_query(link@),
{
    let c: Vec<char> = chars_of(link);
    let mut n: usize = 0;
    while n < c.len() && c[n] != '?'
        invariant
            n <= c@.len(),
            forall|i: int| 0 <= i < n ==> c@[i] != '?',
        decreases c@.len() - n,
    {
        n = n + 1;
    }
    proof {
        before_query_at(link@, n as int);
    }
    text_of(&c, 0, n)
}

proof fn before_query_stops(s: Seq<char>, i: int)
    requires
        0 <= i < before_query(s).len(),
    ensures
        before_query(s)[i] != '?',
    decreases s.len(),
{
    if s.len() > 0 && s[0] != '?' && i > 0 {
        before_query_stops(s.skip(1), i - 1);
    }
}

/// What is logged of an address holds nothing of its query.
pub proof fn a_logged_address_has_no_query(s: Seq<char>)
    ensures
        !before_query(s).contains('?'),
        before_query(s).len() <= s.len(),
        before_query(s) =~= s.take(before_query(s).len() as int),
    decreases s.len(),
{
    if before_query(s).contains('?') {
        let i = choose|i: int| 0 <= i < before_query(s).len() && before_query(s)[i] == '?';
        before_query_stops(s, i);
    }
    if s.len() > 0 && s[0] != '?' {
        a_logged_address_has_no_query(s.skip(1));
        let b = before_query(s.skip(1));
        assert(before_query(s) =~= seq![s[0]] + s.skip(1).take(b.len() as int));
    }
}

/// Where a job came from, as it is shown: the feed's address, of which the
/// keys were taken out.
pub fn origin(redacted_url: &str) -> (r: String)
    ensures
        r@ == "rss:"@ + redacted_url@,
{
    glue("rss:", redacted_url)
}

// ---- laws -----------------------------------------------------------------

/// One more item is remembered as the newest; of more than twenty thousand the
/// oldest is forgotten, and only that one.
pub proof fn which_items_are_remembered(order: Seq<Seq<char>>, guid: Seq<char>)
    ensures
        order.len() < 20_000 ==> order_with(order, guid) == order.push(guid),
        order.len() == 20_000 ==> order_with(order, guid) == order.skip(1).push(guid),
        order_with(order, guid).last() == guid,
        order_with(order, guid).len() <= 20_000,
{
    if order.len() == 20_000 {
        assert(order.push(guid).skip(1) =~= order.skip(1).push(guid));
    }
}

/// An item that was noted is known from then on, and noting one that is known
/// changes nothing.
pub proof fn a_noted_item_is_known(s: &mut SeenGuids, guid: &str, r: ())
    requires
        old(s).wf(),
        !old(s).order.deep_view().contains(guid@),
        call_ensures(SeenGuids::insert, (s, guid), r),
    ensures
        final(s).knows(guid@),
        old(s).knows(guid@) ==> *final(s) == *old(s),
        !old(s).knows(guid@) ==> final(s).dirty && final(s).order.deep_view().last() == guid@,
{
    let order = old(s).order.deep_view();
    let all = order.push(guid@);
    if !old(s).knows(guid@) && all.len() > SEEN_MAX {
        let gone = all.take(all.len() - SEEN_MAX);
        if gone.contains(guid@) {
            let j = choose|j: int| 0 <= j < gone.len() && gone[j] == guid@;
            assert(order[j] == guid@);
        }
    }
}

/// There is something to save exactly where anything has changed since, and
/// after that nothing is, until it changes again.
pub proof fn what_is_saved_is_saved_once(s: &mut SeenGuids, r: Option<Vec<u8>>)
    requires
        call_ensures(SeenGuids::take_dirty, (s,), r),
    ensures
        r is Some <==> old(s).dirty,
        !final(s).dirty,
        r is Some ==> texts_in(r->0@) == Some(old(s).order.deep_view()),
        final(s).order == old(s).order,
{
}

/// A feed is polled where nothing is noted of it, or its time has come.
pub proof fn when_a_feed_is_polled(due: &Book<u64>, url: &str, now: u64, r: bool)
    requires
        due.wf(),
        call_ensures(poll_due, (due, url, now), r),
    ensures
        due.at(url@) is None ==> r,
        due.at(url@) matches Some(t) ==> (r <==> t <= now),
{
}

/// A feed that was polled is left alone for its interval, a minute at the
/// least; no other feed's time changes.
pub proof fn a_polled_feed_is_left_alone(
    due: &mut Book<u64>,
    url: &str,
    now: u64,
    interval: u64,
    r: (),
    other: Seq<char>,
)
    requires
        old(due).wf(),
        now + interval <= u64::MAX,
        now + 60 <= u64::MAX,
        call_ensures(poll_later, (due, url, now, interval), r),
    ensures
        final(due).at(url@) is Some,
        interval >= 60 ==> final(due).at(url@)->0 == now + interval,
        interval < 60 ==> final(due).at(url@)->0 == now + 60,
        other != url@ ==> final(due).at(other) == old(due).at(other),
{
}

/// The health of a feed is kept exactly while its address is there.
pub proof fn whose_health_is_kept(list: Seq<FeedHealth>, h: FeedHealth, live: Seq<Seq<char>>)
    ensures
        live.contains(h.url@) ==> health_of(list.push(h), live) == health_of(list, live).push(h),
        !live.contains(h.url@) ==> health_of(list.push(h), live) == health_of(list, live),
        health_of(Seq::empty(), live) == Seq::<FeedHealth>::empty(),
{
    assert(list.push(h).drop_last() =~= list);
}

/// An item that was judged is passed over; one that the rules turn down is
/// noted for good; any other is fetched, and not noted before it was.
pub proof fn what_happens_to_an_item(
    seen: &mut SeenGuids,
    guid: &str,
    accepted: bool,
    r: ItemStep,
)
    requires
        old(seen).wf(),
        call_ensures(item_step, (seen, guid, accepted), r),
    ensures
        r == ItemStep::Skip <==> old(seen).knows(guid@),
        r == ItemStep::Reject <==> !old(seen).knows(guid@) && !accepted,
        r == ItemStep::Fetch <==> !old(seen).knows(guid@) && accepted,
        r == ItemStep::Skip || r == ItemStep::Fetch ==> *final(seen) == *old(seen),
        r == ItemStep::Reject ==> final(seen).dirty && final(seen).order.deep_view().last()
            == guid@,
{
}

/// Only an item that was fetched is noted: another is tried at the next poll.
pub proof fn only_a_fetched_item_is_noted(seen: &mut SeenGuids, guid: &str, fetched: bool, r: ())
    requires
        old(seen).wf(),
        !old(seen).knows(guid@),
        call_ensures(item_fetched, (seen, guid, fetched), r),
    ensures
        !fetched ==> *final(seen) == *old(seen),
        fetched ==> final(seen).dirty && final(seen).order.deep_view().last() == guid@,
{
}

/// All that stands before the query of an address is logged.
pub proof fn all_before_the_query_is_logged(a: Seq<char>, q: Seq<char>)
    requires
        !a.contains('?'),
    ensures
        before_query(a) == a,
        before_query(a + seq!['?'] + q) == a,
{
    assert forall|i: int| 0 <= i < a.len() implies a[i] != '?' by {
        if a[i] == '?' {
            assert(a.contains('?'));
        }
    }
    let s = a + seq!['?'] + q;
    before_query_at(a, a.len() as int);
    before_query_at(s, a.len() as int);
    assert(a.take(a.len() as int) =~= a);
    assert(s.take(a.len() as int) =~= a);
}

/// A job of a feed says so, and names the feed.
pub proof fn what_a_job_of_a_feed_says(url: &str, r: String)
    requires
        call_ensures(origin, (url,), r),
    ensures
        r@ == "rss:"@ + url@,
{
}

/// What was saved is known again after a start, in the same order; where
/// nothing was saved, or it does not read as a list, nothing is known.
pub proof fn what_is_known_after_a_start(saved: Option<&[u8]>, r: SeenGuids, k: Seq<char>)
    requires
        call_ensures(SeenGuids::load, (saved,), r),
    ensures
        !r.dirty,
        saved is None ==> r.order.deep_view().len() == 0 && !r.knows(k),
        saved matches Some(b) ==> (texts_in(b@) is None ==> r.order.deep_view().len() == 0),
        saved matches Some(b) ==> (texts_in(b@) matches Some(l) ==> r.order.deep_view() == l && (
        r.knows(k) <==> l.contains(k))),
{
}

} // verus!
