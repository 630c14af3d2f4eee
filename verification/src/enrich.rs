//! Looking titles up: which provider is asked, what is made of the answers,
//! and when a title whose providers could not be reached is tried again.
use crate::text::{parse_i64, parsed_i64, same};
use crate::value::Value;
use vstd::prelude::*;

verus! {

/// What a title is.
#[derive(Clone, Copy, PartialEq, Eq, Structural, Debug)]
pub enum Kind {
    Tv,
    Movie,
    Music,
    Book,
    Other,
}

/// The kind that a stored word stands for.
pub open spec fn kind_of(kind: Seq<char>) -> Kind {
    if kind == "tv"@ {
        Kind::Tv
    } else if kind == "movie"@ {
        Kind::Movie
    } else if kind == "music"@ {
        Kind::Music
    } else if kind == "book"@ {
        Kind::Book
    } else {
        Kind::Other
    }
}

/// The kind that a stored word stands for.
pub fn lane_kind(kind: &str) -> (r: Kind)
    ensures
        r == kind_of(kind@),
{
    if same(kind, "tv") {
        Kind::Tv
    } else if same(kind, "movie") {
        Kind::Movie
    } else if same(kind, "music") {
        Kind::Music
    } else if same(kind, "book") {
        Kind::Book
    } else {
        Kind::Other
    }
}

// ---- waiting after a failure ----------------------------------------------

/// How long a title waits after its first failure, in seconds.
pub const BACKOFF_MIN: u64 = 60;

/// How long a title waits at most.
pub const BACKOFF_MAX: u64 = 21_600;

/// Two to the power of `n`.
pub open spec fn doubled(n: nat) -> nat
    decreases n,
{
    if n == 0 {
        1
    } else {
        2 * doubled((n - 1) as nat)
    }
}

/// How often the first wait is doubled after so many failures.
pub open spec fn doublings(fails: u32) -> nat {
    if fails <= 1 {
        0
    } else if fails - 1 > 9 {
        9
    } else {
        (fails - 1) as nat
    }
}

/// How long a title waits after so many failures in a row, in seconds.
pub open spec fn backoff_secs(fails: u32) -> int {
    let w = BACKOFF_MIN * doubled(doublings(fails));
    if w < BACKOFF_MAX {
        w
    } else {
        BACKOFF_MAX as int
    }
}

proof fn doubled_bound(n: nat)
    requires
        n <= 9,
    ensures
        1 <= doubled(n) <= 512,
{
    reveal_with_fuel(doubled, 10);
}

/// How long a title waits after so many failures in a row.
pub fn backoff_after(fails: u32) -> (r: u64)
    ensures
        r == backoff_secs(fails),
        BACKOFF_MIN <= r <= BACKOFF_MAX,
{
    let k: u32 = if fails <= 1 {
        0
    } else if fails - 1 > 9 {
        9
    } else {
        fails - 1
    };
    let mut w: u64 = BACKOFF_MIN;
    let mut i: u32 = 0;
    while i < k
        invariant
            i <= k <= 9,
            w == BACKOFF_MIN * doubled(i as nat),
        decreases k - i,
    {
        proof {
            doubled_bound(i as nat);
            doubled_bound((i + 1) as nat);
        }
        w = w * 2;
        i = i + 1;
    }
    proof {
        doubled_bound(k as nat);
    }
    if w < BACKOFF_MAX {
        w
    } else {
        BACKOFF_MAX
    }
}

/// Another failure never shortens the wait.
pub proof fn another_failure_never_shortens_the_wait(fails: u32)
    requires
        fails < u32::MAX,
    ensures
        BACKOFF_MIN <= backoff_secs(fails) <= backoff_secs((fails + 1) as u32) <= BACKOFF_MAX,
{
    doubled_bound(doublings(fails));
    doubled_bound(doublings((fails + 1) as u32));
    reveal_with_fuel(doubled, 2);
    if 1 <= fails && fails < 10 {
        assert(doublings((fails + 1) as u32) == doublings(fails) + 1);
    }
}

/// A title that waits.
pub struct Waiting {
    pub key: String,
    pub fails: u32,
    /// When it may be tried again, in nanoseconds.
    pub next: u64,
}

/// The titles that wait, each once.
pub struct Unreached {
    pub list: Vec<Waiting>,
}

/// The wait of a title.
pub open spec fn wait_of(list: Seq<Waiting>, key: Seq<char>) -> Option<(u32, u64)>
    decreases list.len(),
{
    if list.len() == 0 {
        None
    } else if list[0].key@ == key {
        Some((list[0].fails, list[0].next))
    } else {
        wait_of(list.drop_first(), key)
    }
}

proof fn wait_of_is(list: Seq<Waiting>, key: Seq<char>, k: int)
    requires
        0 <= k <= list.len(),
        forall|i: int| 0 <= i < k ==> (#[trigger] list[i]).key@ != key,
        k < list.len() ==> list[k].key@ == key,
    ensures
        wait_of(list, key) == (if k < list.len() {
            Some((list[k].fails, list[k].next))
        } else {
            None
        }),
    decreases list.len(),
{
    if k > 0 {
        let rest = list.drop_first();
        assert forall|i: int| 0 <= i < k - 1 implies (#[trigger] rest[i]).key@ != key by {
            assert(rest[i] == list[i + 1]);
        }
        if k < list.len() {
            assert(rest[k - 1] == list[k]);
        }
        wait_of_is(rest, key, k - 1);
    }
}

impl Unreached {
    /// Each title occurs once.
    pub open spec fn wf(self) -> bool {
        forall|i: int, j: int|
            #![trigger self.list@[i], self.list@[j]]
            0 <= i < j < self.list@.len() ==> self.list@[i].key@ != self.list@[j].key@
    }

    /// The wait of a title.
    pub open spec fn of(self, key: Seq<char>) -> Option<(u32, u64)> {
        wait_of(self.list@, key)
    }

    /// Nobody waits.
    pub fn new() -> (r: Unreached)
        ensures
            r.wf(),
            forall|key: Seq<char>| r.of(key) is None,
    {
        Unreached { list: Vec::new() }
    }

    fn find(&self, key: &str) -> (r: usize)
        ensures
            r <= self.list@.len(),
            forall|i: int| 0 <= i < r ==> (#[trigger] self.list@[i]).key@ != key@,
            r < self.list@.len() ==> self.list@[r as int].key@ == key@,
    {
        let mut i: usize = 0;
        while i < self.list.len()
            invariant
                i <= self.list@.len(),
                forall|j: int| 0 <= j < i ==> (#[trigger] self.list@[j]).key@ != key@,
            decreases self.list@.len() - i,
        {
            if same(self.list[i].key.as_str(), key) {
                return i;
            }
            i = i + 1;
        }
        i
    }

    /// Whether a title may be tried.
    pub fn due(&self, key: &str, now: u64) -> (r: bool)
        ensures
            r == (match self.of(key@) {
                Some(w) => w.1 <= now,
                None => true,
            }),
    {
        let k: usize = self.find(key);
        proof {
            wait_of_is(self.list@, key@, k as int);
        }
        if k < self.list.len() {
            self.list[k].next <= now
        } else {
            true
        }
    }

    /// Notes that no provider could be reached for a title, and says for how
    /// many seconds it now waits.
    pub fn note_failure(&mut self, key: &str, now: u64) -> (r: u64)
        requires
            old(self).wf(),
            now + BACKOFF_MAX * 1_000_000_000 <= u64::MAX,
            old(self).of(key@) matches Some(w) ==> w.0 < u32::MAX,
        ensures
            final(self).wf(),
            ({
                let fails: u32 = match old(self).of(key@) {
                    Some(w) => (w.0 + 1) as u32,
                    None => 1,
                };
                &&& r == backoff_secs(fails)
                &&& final(self).of(key@) == Some(
                    (fails, (now + backoff_secs(fails) * 1_000_000_000) as u64),
                )
            }),
            forall|other: Seq<char>|
                other != key@ ==> final(self).of(other) == old(self).of(other),
    {
        let ghost before = self.list@;
        let k: usize = self.find(key);
        proof {
            wait_of_is(before, key@, k as int);
        }
        let fails: u32 = if k < self.list.len() {
            self.list[k].fails + 1
        } else {
            1
        };
        let secs: u64 = backoff_after(fails);
        let next: u64 = now + secs * 1_000_000_000;
        let entry: Waiting = Waiting { key: key.to_owned(), fails, next };
        if k < self.list.len() {
            self.list.set(k, entry);
        } else {
            self.list.push(entry);
        }
        proof {
            let after = self.list@;
            assert forall|i: int, j: int|
                #![trigger after[i], after[j]]
                0 <= i < j < after.len() implies after[i].key@ != after[j].key@ by {
                if i < before.len() && i != k {
                    assert(after[i] == before[i]);
                }
                if j < before.len() && j != k {
                    assert(after[j] == before[j]);
                }
                if i == k && j < before.len() {
                    assert(before[i].key@ != before[j].key@);
                }
                if j == k && k < before.len() {
                    assert(before[i].key@ != before[j].key@);
                }
            }
            wait_of_is(after, key@, k as int);
            assert forall|other: Seq<char>| other != key@ implies wait_of(after, other) == wait_of(
                before,
                other,
            ) by {
                others_stay(before, after, k as int, key@, other);
            }
        }
        secs
    }

    /// Forgets the wait of a title.
    pub fn clear(&mut self, key: &str)
        requires
            old(self).wf(),
        ensures
            final(self).wf(),
            final(self).of(key@) is None,
            forall|other: Seq<char>|
                other != key@ ==> final(self).of(other) == old(self).of(other),
    {
        let ghost before = self.list@;
        let k: usize = self.find(key);
        if k < self.list.len() {
            let _ = self.list.remove(k);
            proof {
                let after = self.list@;
                assert(after =~= before.remove(k as int));
                assert forall|i: int| 0 <= i < after.len() implies (#[trigger] after[i]).key@
                    != key@ by {
                    if i < k {
                        assert(after[i] == before[i]);
                    } else {
                        assert(after[i] == before[i + 1]);
                        assert(before[k as int].key@ != before[i + 1].key@);
                    }
                }
                wait_of_is(after, key@, after.len() as int);
                assert forall|i: int, j: int|
                    #![trigger after[i], after[j]]
                    0 <= i < j < after.len() implies after[i].key@ != after[j].key@ by {
                    let x = if i < k {
                        i
                    } else {
                        i + 1
                    };
                    let y = if j < k {
                        j
                    } else {
                        j + 1
                    };
                    assert(after[i] == before[x]);
                    assert(after[j] == before[y]);
                }
                assert forall|other: Seq<char>| other != key@ implies wait_of(after, other)
                    == wait_of(before, other) by {
                    removal_keeps(before, k as int, other);
                }
            }
        } else {
            proof {
                wait_of_is(before, key@, k as int);
            }
        }
    }

    /// Drops, where many wait, those whose wait is over: they would be tried
    /// on sight anyway.
    pub fn bound(&mut self, now: u64)
        requires
            old(self).wf(),
        ensures
            final(self).wf(),
            old(self).list@.len() <= 2_048 ==> final(self).list@ == old(self).list@,
            old(self).list@.len() > 2_048 ==> (forall|key: Seq<char>|
                final(self).of(key) == (match old(self).of(key) {
                    Some(w) if w.1 > now => Some(w),
                    _ => None,
                })),
    {
        if self.list.len() <= 2_048 {
            return;
        }
        let ghost before = self.list@;
        let mut kept: Vec<Waiting> = Vec::new();
        let mut i: usize = 0;
        assert(before.take(0) =~= Seq::empty());
        while i < self.list.len()
            invariant
                i <= self.list@.len(),
                self.list@ == before,
                self.wf(),
                forall|a: int, b: int|
                    #![trigger kept@[a], kept@[b]]
                    0 <= a < b < kept@.len() ==> kept@[a].key@ != kept@[b].key@,
                forall|a: int|
                    0 <= a < kept@.len() ==> exists|j: int|
                        0 <= j < i && before[j].key@ == (#[trigger] kept@[a]).key@,
                forall|key: Seq<char>|
                    wait_of(kept@, key) == (match wait_of(before.take(i as int), key) {
                        Some(w) if w.1 > now => Some(w),
                        _ => None,
                    }),
            decreases self.list@.len() - i,
        {
            let e: &Waiting = &self.list[i];
            let ghost part = before.take(i as int);
            let ghost next = before.take(i + 1);
            let ghost k0 = kept@;
            if e.next > now {
                let copy: Waiting = Waiting { key: e.key.clone(), fails: e.fails, next: e.next };
                kept.push(copy);
                proof {
                    assert forall|a: int, b: int|
                        #![trigger kept@[a], kept@[b]]
                        0 <= a < b < kept@.len() implies kept@[a].key@ != kept@[b].key@ by {
                        if b == k0.len() {
                            assert(kept@[a] == k0[a]);
                            let j = choose|j: int| 0 <= j < i && before[j].key@ == k0[a].key@;
                            assert(before[j].key@ != before[i as int].key@);
                        } else {
                            assert(kept@[a] == k0[a]);
                            assert(kept@[b] == k0[b]);
                        }
                    }
                    assert forall|a: int| 0 <= a < kept@.len() implies exists|j: int|
                        0 <= j < i + 1 && before[j].key@ == (#[trigger] kept@[a]).key@ by {
                        if a == k0.len() {
                            assert(before[i as int].key@ == kept@[a].key@);
                        } else {
                            assert(kept@[a] == k0[a]);
                            let j = choose|j: int| 0 <= j < i && before[j].key@ == k0[a].key@;
                            assert(before[j].key@ == kept@[a].key@);
                        }
                    }
                }
            }
            proof {
                assert forall|key: Seq<char>| wait_of(kept@, key) == (match wait_of(next, key) {
                    Some(w) if w.1 > now => Some(w),
                    _ => None,
                }) by {
                    assert(next =~= part.push(before[i as int]));
                    push_wait(part, before[i as int], key);
                    if e.next > now {
                        assert(kept@ =~= k0.push(kept@.last()));
                        push_wait(k0, kept@.last(), key);
                        if key == e.key@ {
                            absent(part, key);
                        }
                    } else if key == e.key@ {
                        absent(part, key);
                    }
                }
            }
            i = i + 1;
        }
        assert(before.take(before.len() as int) =~= before);
        self.list = kept;
    }
}

/// A key that no entry has is not there.
proof fn absent(list: Seq<Waiting>, key: Seq<char>)
    ensures
        (forall|i: int| 0 <= i < list.len() ==> (#[trigger] list[i]).key@ != key) ==> wait_of(
            list,
            key,
        ) is None,
{
    if forall|i: int| 0 <= i < list.len() ==> (#[trigger] list[i]).key@ != key {
        wait_of_is(list, key, list.len() as int);
    }
}

/// A pushed entry counts where none of its key stands before it.
proof fn push_wait(list: Seq<Waiting>, e: Waiting, key: Seq<char>)
    ensures
        wait_of(list.push(e), key) == (match wait_of(list, key) {
            Some(w) => Some(w),
            None => if e.key@ == key {
                Some((e.fails, e.next))
            } else {
                None
            },
        }),
    decreases list.len(),
{
    let p = list.push(e);
    if list.len() == 0 {
        assert(p[0] == e);
        assert(wait_of(p.drop_first(), key) is None);
    } else {
        assert(p.drop_first() =~= list.drop_first().push(e));
        assert(p[0] == list[0]);
        if list[0].key@ != key {
            push_wait(list.drop_first(), e, key);
        }
    }
}

proof fn others_stay(
    before: Seq<Waiting>,
    after: Seq<Waiting>,
    k: int,
    key: Seq<char>,
    other: Seq<char>,
)
    requires
        0 <= k <= before.len(),
        k < before.len() ==> after.len() == before.len() && before[k].key@ == key,
        k == before.len() ==> after.len() == before.len() + 1,
        after[k].key@ == key,
        forall|i: int| 0 <= i < before.len() && i != k ==> #[trigger] after[i] == before[i],
        other != key,
    ensures
        wait_of(after, other) == wait_of(before, other),
    decreases before.len(),
{
    if before.len() == 0 {
        assert(after.drop_first() =~= Seq::empty());
    } else if k == 0 {
        assert(after.drop_first() =~= before.drop_first());
    } else {
        assert(after[0] == before[0]);
        let b = before.drop_first();
        let a = after.drop_first();
        assert forall|i: int| 0 <= i < b.len() && i != k - 1 implies #[trigger] a[i] == b[i] by {
            assert(after[i + 1] == before[i + 1]);
        }
        others_stay(b, a, k - 1, key, other);
    }
}

proof fn removal_keeps(list: Seq<Waiting>, k: int, other: Seq<char>)
    requires
        0 <= k < list.len(),
        list[k].key@ != other,
    ensures
        wait_of(list.remove(k), other) == wait_of(list, other),
    decreases list.len(),
{
    let r = list.remove(k);
    if k == 0 {
        assert(r =~= list.drop_first());
    } else {
        assert(r.drop_first() =~= list.drop_first().remove(k - 1));
        assert(r[0] == list[0]);
        removal_keeps(list.drop_first(), k - 1, other);
    }
}

/// The places of the first `limit` keys that may be tried.
pub open spec fn eligible_of(keys: Seq<Seq<char>>, u: Unreached, now: u64, limit: nat) -> Seq<int>
    decreases keys.len(),
{
    if keys.len() == 0 {
        Seq::empty()
    } else {
        let before = eligible_of(keys.drop_last(), u, now, limit);
        let due = match u.of(keys.last()) {
            Some(w) => w.1 <= now,
            None => true,
        };
        if due && before.len() < limit {
            before.push(keys.len() - 1)
        } else {
            before
        }
    }
}

/// The places of the first `limit` keys that may be tried.
pub fn eligible(keys: &Vec<String>, u: &Unreached, now: u64, limit: usize) -> (r: Vec<usize>)
    ensures
        r@.map_values(|i: usize| i as int) == eligible_of(keys.deep_view(), *u, now, limit as nat),
{
    let ghost all = keys.deep_view();
    let mut r: Vec<usize> = Vec::new();
    let mut i: usize = 0;
    assert(r@.map_values(|i: usize| i as int) =~= eligible_of(all.take(0), *u, now, limit as nat));
    while i < keys.len()
        invariant
            i <= keys@.len(),
            all == keys.deep_view(),
            r@.map_values(|i: usize| i as int) == eligible_of(
                all.take(i as int),
                *u,
                now,
                limit as nat,
            ),
        decreases keys@.len() - i,
    {
        assert(all.take(i + 1).drop_last() =~= all.take(i as int));
        assert(all.take(i + 1).last() == keys@[i as int]@);
        let ghost before = r@.map_values(|i: usize| i as int);
        if u.due(keys[i].as_str(), now) && r.len() < limit {
            r.push(i);
            assert(r@.map_values(|i: usize| i as int) =~= before.push(i as int));
        }
        i = i + 1;
    }
    assert(all.take(all.len() as int) =~= all);
    r
}

// ---- the provider chain ---------------------------------------------------

/// What is known of a title.
pub struct TitleMeta {
    pub tmdb_id: i64,
    pub overview: String,
    /// The rating as it is written.
    pub rating: String,
    pub genres: String,
    pub poster_url: String,
    pub backdrop_url: String,
    pub imdb: String,
    pub actors: String,
    pub air_date: String,
    pub credits: Vec<Value>,
}

/// What an encyclopedia page gives.
pub struct WikiPage {
    pub extract: String,
    pub image: String,
}

/// Who is asked first.
#[derive(Clone, Copy, PartialEq, Eq, Structural, Debug)]
pub enum Provider {
    /// Nobody: there is nothing to look up.
    Nobody,
    /// The music and book databases.
    Media,
    /// The film database that wants a key.
    Tmdb,
    /// The show database.
    TvMaze,
    /// The open film chain.
    Films,
}

/// Who is asked first. Music and books never go to a film database, whether
/// there is a key for one or not.
pub fn first_provider(has_tmdb_key: bool, kind: Kind) -> (r: Provider)
    ensures
        r == (match kind {
            Kind::Other => Provider::Nobody,
            Kind::Music | Kind::Book => Provider::Media,
            _ => if has_tmdb_key {
                Provider::Tmdb
            } else if kind == Kind::Tv {
                Provider::TvMaze
            } else {
                Provider::Films
            },
        }),
{
    match kind {
        Kind::Other => Provider::Nobody,
        Kind::Music | Kind::Book => Provider::Media,
        _ => if has_tmdb_key {
            Provider::Tmdb
        } else if kind == Kind::Tv {
            Provider::TvMaze
        } else {
            Provider::Films
        },
    }
}

/// A non-empty id.
pub open spec fn some_id(s: Seq<char>) -> Option<Seq<char>> {
    if s.len() > 0 {
        Some(s)
    } else {
        None
    }
}

/// What the open film chain asks next.
#[derive(Clone, Copy, PartialEq, Eq, Structural, Debug)]
pub enum Ask {
    /// The keyed database by title, and the open one for the id alone.
    OmdbAndId,
    /// The open database.
    Wikidata,
    /// The keyed database by the id that was found.
    OmdbById,
    /// The open database, for a poster alone.
    Poster,
    /// The encyclopedia.
    Wikipedia,
    /// Nothing more.
    Done,
}

/// How far the open film chain is.
pub struct FilmChain {
    pub has_omdb: bool,
    pub meta: Option<TitleMeta>,
    pub imdb: Option<String>,
    pub asked_wikidata: bool,
    pub ask: Ask,
}

/// Whether the encyclopedia has something to add.
pub open spec fn wants_wiki(meta: Option<TitleMeta>) -> bool {
    match meta {
        Some(m) => m.overview@.len() == 0 || m.poster_url@.len() == 0,
        None => true,
    }
}

/// What is asked once the databases have answered what they were asked.
pub open spec fn ask_after(
    has_omdb: bool,
    meta: Option<TitleMeta>,
    imdb: Option<Seq<char>>,
    asked_wikidata: bool,
    tried_id: bool,
) -> Ask {
    if meta is None && has_omdb && imdb is Some && !tried_id {
        Ask::OmdbById
    } else if meta is None && has_omdb && !asked_wikidata {
        Ask::Wikidata
    } else if meta matches Some(m) && m.poster_url@.len() == 0 && has_omdb && !asked_wikidata {
        Ask::Poster
    } else if wants_wiki(meta) {
        Ask::Wikipedia
    } else {
        Ask::Done
    }
}

fn next_ask(
    has_omdb: bool,
    meta: &Option<TitleMeta>,
    imdb: &Option<String>,
    asked_wikidata: bool,
    tried_id: bool,
) -> (r: Ask)
    ensures
        r == ask_after(has_omdb, *meta, imdb.deep_view(), asked_wikidata, tried_id),
{
    match meta {
        None => if has_omdb && imdb.is_some() && !tried_id {
            Ask::OmdbById
        } else if has_omdb && !asked_wikidata {
            Ask::Wikidata
        } else {
            Ask::Wikipedia
        },
        Some(m) => if m.poster_url.as_str().is_empty() && has_omdb && !asked_wikidata {
            Ask::Poster
        } else if m.overview.as_str().is_empty() || m.poster_url.as_str().is_empty() {
            Ask::Wikipedia
        } else {
            Ask::Done
        },
    }
}

impl FilmChain {
    /// The start of the chain: with a key the keyed database, and the open
    /// one for the id beside it; without one the open database.
    pub fn new(has_omdb: bool) -> (r: FilmChain)
        ensures
            r.has_omdb == has_omdb,
            r.meta is None,
            r.imdb is None,
            !r.asked_wikidata,
            r.ask == (if has_omdb {
                Ask::OmdbAndId
            } else {
                Ask::Wikidata
            }),
    {
        FilmChain {
            has_omdb,
            meta: None,
            imdb: None,
            asked_wikidata: false,
            ask: if has_omdb {
                Ask::OmdbAndId
            } else {
                Ask::Wikidata
            },
        }
    }

    /// Takes the answers of the keyed database and of the search for an id.
    pub fn omdb_and_id(self, meta: Option<TitleMeta>, imdb: Option<String>) -> (r: FilmChain)
        requires
            self.ask == Ask::OmdbAndId,
        ensures
            r.has_omdb == self.has_omdb,
            r.meta == meta,
            r.imdb == imdb,
            r.asked_wikidata == self.asked_wikidata,
            r.ask == ask_after(
                self.has_omdb,
                meta,
                imdb.deep_view(),
                self.asked_wikidata,
                false,
            ),
    {
        let ask: Ask = next_ask(self.has_omdb, &meta, &imdb, self.asked_wikidata, false);
        FilmChain { has_omdb: self.has_omdb, meta, imdb, asked_wikidata: self.asked_wikidata, ask }
    }

    /// Takes the answer of the keyed database to the id.
    pub fn omdb_by_id(self, meta: Option<TitleMeta>) -> (r: FilmChain)
        requires
            self.ask == Ask::OmdbById,
        ensures
            r.has_omdb == self.has_omdb,
            r.meta == meta,
            r.imdb == self.imdb,
            r.asked_wikidata == self.asked_wikidata,
            r.ask == ask_after(
                self.has_omdb,
                meta,
                self.imdb.deep_view(),
                self.asked_wikidata,
                true,
            ),
    {
        let ask: Ask = next_ask(self.has_omdb, &meta, &self.imdb, self.asked_wikidata, true);
        FilmChain {
            has_omdb: self.has_omdb,
            meta,
            imdb: self.imdb,
            asked_wikidata: self.asked_wikidata,
            ask,
        }
    }

    /// Takes the answer of the open database. Its id counts where none was
    /// found yet.
    pub fn wikidata(self, meta: Option<TitleMeta>) -> (r: FilmChain)
        requires
            self.ask == Ask::Wikidata,
        ensures
            r.has_omdb == self.has_omdb,
            r.meta == meta,
            r.imdb.deep_view() == (match self.imdb.deep_view() {
                Some(i) => Some(i),
                None => match meta {
                    Some(m) => some_id(m.imdb@),
                    None => None,
                },
            }),
            r.asked_wikidata,
            r.ask == ask_after(self.has_omdb, meta, r.imdb.deep_view(), true, true),
    {
        let imdb: Option<String> = match self.imdb {
            Some(i) => Some(i),
            None => match &meta {
                Some(m) => if m.imdb.as_str().is_empty() {
                    None
                } else {
                    Some(m.imdb.clone())
                },
                None => None,
            },
        };
        let ask: Ask = next_ask(self.has_omdb, &meta, &imdb, true, true);
        FilmChain { has_omdb: self.has_omdb, meta, imdb, asked_wikidata: true, ask }
    }

    /// Takes the open database's poster, where it has an entry.
    pub fn poster(self, found: Option<TitleMeta>) -> (r: FilmChain)
        requires
            self.ask == Ask::Poster,
            self.meta is Some,
        ensures
            r.has_omdb == self.has_omdb,
            r.imdb == self.imdb,
            r.asked_wikidata,
            r.meta == (match found {
                Some(w) => Some(TitleMeta { poster_url: w.poster_url, ..self.meta->0 }),
                None => self.meta,
            }),
            r.ask == (if wants_wiki(r.meta) {
                Ask::Wikipedia
            } else {
                Ask::Done
            }),
    {
        let mut meta: Option<TitleMeta> = self.meta;
        if let Some(w) = found {
            let m: TitleMeta = meta.unwrap();
            meta = Some(
                TitleMeta {
                    tmdb_id: m.tmdb_id,
                    overview: m.overview,
                    rating: m.rating,
                    genres: m.genres,
                    poster_url: w.poster_url,
                    backdrop_url: m.backdrop_url,
                    imdb: m.imdb,
                    actors: m.actors,
                    air_date: m.air_date,
                    credits: m.credits,
                },
            );
        }
        let ask: Ask = next_ask(self.has_omdb, &meta, &self.imdb, true, true);
        FilmChain { has_omdb: self.has_omdb, meta, imdb: self.imdb, asked_wikidata: true, ask }
    }

    /// What the chain comes to, given the encyclopedia's page where it was
    /// asked for: gaps of what was found are filled, and without a find a page
    /// or an id alone makes an entry.
    pub fn finish(self, page: Option<WikiPage>) -> (r: Option<TitleMeta>)
        requires
            self.ask == Ask::Wikipedia || (self.ask == Ask::Done && page is None),
        ensures
            finished(self.meta, self.imdb.deep_view(), page, r),
    {
        match self.meta {
            Some(m) => {
                assert(m.overview@.len() == 0 ==> m.overview@ =~= Seq::empty());
                assert(m.poster_url@.len() == 0 ==> m.poster_url@ =~= Seq::empty());
                let imdb: String = if m.imdb.as_str().is_empty() {
                    match self.imdb {
                        Some(i) => i,
                        None => String::new(),
                    }
                } else {
                    m.imdb
                };
                let (overview, poster_url) = match page {
                    Some(w) => (
                        if m.overview.as_str().is_empty() {
                            w.extract
                        } else {
                            m.overview
                        },
                        if m.poster_url.as_str().is_empty() {
                            w.image
                        } else {
                            m.poster_url
                        },
                    ),
                    None => (m.overview, m.poster_url),
                };
                Some(
                    TitleMeta {
                        tmdb_id: m.tmdb_id,
                        overview,
                        rating: m.rating,
                        genres: m.genres,
                        poster_url,
                        backdrop_url: m.backdrop_url,
                        imdb,
                        actors: m.actors,
                        air_date: m.air_date,
                        credits: m.credits,
                    },
                )
            },
            None => {
                let w: WikiPage = match page {
                    Some(w) => w,
                    None => WikiPage { extract: String::new(), image: String::new() },
                };
                if self.imdb.is_none() && w.extract.as_str().is_empty()
                    && w.image.as_str().is_empty() {
                    return None;
                }
                let imdb: String = match self.imdb {
                    Some(i) => i,
                    None => String::new(),
                };
                Some(
                    TitleMeta {
                        tmdb_id: 0,
                        overview: w.extract,
                        rating: "0".to_owned(),
                        genres: String::new(),
                        poster_url: w.image,
                        backdrop_url: String::new(),
                        imdb,
                        actors: String::new(),
                        air_date: String::new(),
                        credits: Vec::new(),
                    },
                )
            },
        }
    }
}

/// `s`, or `other` where `s` is empty.
pub open spec fn or_else_text(s: Seq<char>, other: Seq<char>) -> Seq<char> {
    if s.len() > 0 {
        s
    } else {
        other
    }
}

/// The extract of a page; none is empty.
pub open spec fn extract_of(page: Option<WikiPage>) -> Seq<char> {
    match page {
        Some(w) => w.extract@,
        None => Seq::empty(),
    }
}

/// The picture of a page; none is empty.
pub open spec fn image_of(page: Option<WikiPage>) -> Seq<char> {
    match page {
        Some(w) => w.image@,
        None => Seq::empty(),
    }
}

/// The id, or nothing.
pub open spec fn id_or_empty(imdb: Option<Seq<char>>) -> Seq<char> {
    match imdb {
        Some(i) => i,
        None => Seq::empty(),
    }
}

/// What the open film chain comes to.
pub open spec fn finished(
    meta: Option<TitleMeta>,
    imdb: Option<Seq<char>>,
    page: Option<WikiPage>,
    r: Option<TitleMeta>,
) -> bool {
    match meta {
        Some(m) => {
            &&& r is Some
            &&& r->0 == (TitleMeta {
                overview: r->0.overview,
                poster_url: r->0.poster_url,
                imdb: r->0.imdb,
                ..m
            })
            &&& r->0.overview@ == or_else_text(m.overview@, extract_of(page))
            &&& r->0.poster_url@ == or_else_text(m.poster_url@, image_of(page))
            &&& r->0.imdb@ == or_else_text(m.imdb@, id_or_empty(imdb))
        },
        None => if imdb is None && extract_of(page).len() == 0 && image_of(page).len() == 0 {
            r is None
        } else {
            &&& r is Some
            &&& r->0.tmdb_id == 0
            &&& r->0.overview@ == extract_of(page)
            &&& r->0.rating@ == "0"@
            &&& r->0.genres@.len() == 0
            &&& r->0.poster_url@ == image_of(page)
            &&& r->0.backdrop_url@.len() == 0
            &&& r->0.imdb@ == id_or_empty(imdb)
            &&& r->0.actors@.len() == 0
            &&& r->0.air_date@.len() == 0
            &&& r->0.credits@.len() == 0
        },
    }
}

/// Whether the anime database is asked: as a last chance, and for video only.
pub fn wants_anilist(found: bool, kind: Kind) -> (r: bool)
    ensures
        r == (!found && (kind == Kind::Tv || kind == Kind::Movie)),
{
    !found && (kind == Kind::Tv || kind == Kind::Movie)
}

/// What becomes of a row.
#[derive(Clone, Copy, PartialEq, Eq, Structural, Debug)]
pub enum Verdict {
    /// Record that there is nothing; it is never offered again.
    StampEmpty,
    /// Record what was found.
    Fill,
    /// Leave it for a later pass: a provider could not be reached.
    Retry,
}

/// What becomes of a row. Only providers that answered and had nothing make
/// it empty for good.
pub open spec fn verdict_of(kind: Kind, found: bool, unreachable: bool) -> Verdict {
    if kind == Kind::Other {
        Verdict::StampEmpty
    } else if found {
        Verdict::Fill
    } else if unreachable {
        Verdict::Retry
    } else {
        Verdict::StampEmpty
    }
}

/// What becomes of a row.
pub fn enrich_verdict(kind: Kind, found: bool, unreachable: bool) -> (r: Verdict)
    ensures
        r == verdict_of(kind, found, unreachable),
{
    if kind == Kind::Other {
        Verdict::StampEmpty
    } else if found {
        Verdict::Fill
    } else if unreachable {
        Verdict::Retry
    } else {
        Verdict::StampEmpty
    }
}

/// A row whose providers could not be reached is never retired.
pub proof fn an_unreachable_title_is_never_retired(kind: Kind)
    requires
        kind != Kind::Other,
    ensures
        verdict_of(kind, false, true) == Verdict::Retry,
{
}

/// Whether a found row may be stamped: its credits, where there are any, have
/// to be written first.
pub fn may_stamp(has_credits: bool, credits_written: bool) -> (r: bool)
    ensures
        r == (!has_credits || credits_written),
{
    !has_credits || credits_written
}

/// Whether the release date of a row is recorded: unless it is empty because
/// a provider could not be reached.
pub fn records_date(date: &str, unreachable: bool) -> (r: bool)
    ensures
        r == !(date@.len() == 0 && unreachable),
{
    !(date.is_empty() && unreachable)
}

// ---- a lane -----------------------------------------------------------------

/// How many titles a lane looks up at a time.
pub const TITLE_BATCH: u32 = 12;

/// How many release dates a lane looks up at a time.
pub const DATE_BATCH: u32 = 6;

/// What a lane does next.
#[derive(Clone, Copy, PartialEq, Eq, Structural, Debug)]
pub enum LaneStep {
    /// Wait so many seconds.
    Rest(u64),
    /// Ask for the titles that a viewer waits for.
    Hot,
    /// Ask for so many of the titles that wait.
    Pending(u32),
    /// Look up the titles of the batch.
    LookUp,
    /// Ask for so many of the titles without a release date.
    Dateless(u32),
    /// Look up the dates of the batch.
    LookUpDates,
}

/// What came of a lane's last step.
#[derive(Clone, Copy, PartialEq, Eq, Structural, Debug)]
pub struct LaneFacts {
    /// Whether the index is switched off.
    pub off: bool,
    /// Whether a viewer waits for any title.
    pub hot: bool,
    /// Whether any title of those that came may be tried now.
    pub any: bool,
    /// How many titles wait because no provider could be reached.
    pub waiting: usize,
}

/// So many rows, and as many more as wait, within bounds, so that those which
/// wait do not keep the others out.
pub open spec fn asked_rows(want: u32, waiting: usize) -> u32 {
    if waiting < 200 {
        (want + waiting) as u32
    } else {
        (want + 200) as u32
    }
}

/// What a lane does when it starts over.
pub open spec fn lane_start(off: bool) -> LaneStep {
    if off {
        LaneStep::Rest(30)
    } else {
        LaneStep::Hot
    }
}

/// What a lane does after a step. What a viewer waits for comes before the
/// others, and release dates come when there is nothing else to look up, also
/// where all that a viewer waits for has to wait.
pub open spec fn lane_after(s: LaneStep, f: LaneFacts) -> LaneStep {
    match s {
        LaneStep::Rest(_) | LaneStep::LookUp | LaneStep::LookUpDates => lane_start(f.off),
        LaneStep::Hot => if !f.hot {
            LaneStep::Pending(asked_rows(TITLE_BATCH, f.waiting))
        } else if f.any {
            LaneStep::LookUp
        } else {
            LaneStep::Dateless(asked_rows(DATE_BATCH, f.waiting))
        },
        LaneStep::Pending(_) => if f.any {
            LaneStep::LookUp
        } else {
            LaneStep::Dateless(asked_rows(DATE_BATCH, f.waiting))
        },
        LaneStep::Dateless(_) => if f.any {
            LaneStep::LookUpDates
        } else {
            LaneStep::Rest(15)
        },
    }
}

fn rows_to_ask(want: u32, waiting: usize) -> (r: u32)
    requires
        want <= 100,
    ensures
        r == asked_rows(want, waiting),
{
    if waiting < 200 {
        want + waiting as u32
    } else {
        want + 200
    }
}

/// What a lane does after a step.
pub fn lane_next(s: LaneStep, f: LaneFacts) -> (r: LaneStep)
    ensures
        r == lane_after(s, f),
{
    let over: LaneStep = if f.off {
        LaneStep::Rest(30)
    } else {
        LaneStep::Hot
    };
    let dates: LaneStep = LaneStep::Dateless(rows_to_ask(DATE_BATCH, f.waiting));
    match s {
        LaneStep::Rest(_) | LaneStep::LookUp | LaneStep::LookUpDates => over,
        LaneStep::Hot => if !f.hot {
            LaneStep::Pending(rows_to_ask(TITLE_BATCH, f.waiting))
        } else if f.any {
            LaneStep::LookUp
        } else {
            dates
        },
        LaneStep::Pending(_) => if f.any {
            LaneStep::LookUp
        } else {
            dates
        },
        LaneStep::Dateless(_) => if f.any {
            LaneStep::LookUpDates
        } else {
            LaneStep::Rest(15)
        },
    }
}

/// How many of the titles that came a lane takes.
pub fn batch_size(s: LaneStep) -> (r: usize)
    ensures
        r == (if s is Dateless {
            DATE_BATCH
        } else {
            TITLE_BATCH
        }),
{
    match s {
        LaneStep::Dateless(_) => DATE_BATCH as usize,
        _ => TITLE_BATCH as usize,
    }
}

/// A lane rests only while the index is off or where nothing is left to look
/// up, asks for what waits only where no viewer waits for anything, and looks
/// at nothing new while the index is off.
pub proof fn a_viewer_comes_first(s: LaneStep, f: LaneFacts)
    ensures
        lane_after(s, f) is Pending ==> s == LaneStep::Hot && !f.hot,
        s == LaneStep::Hot && f.hot && f.any ==> lane_after(s, f) == LaneStep::LookUp,
        lane_after(s, f) is Rest ==> f.off || (s is Dateless && !f.any),
        lane_after(s, f) == LaneStep::Hot ==> !f.off,
{
}

/// Titles that wait do not keep the others out: as long as they are no more
/// than 200, so many rows are asked for that those which may be tried fill the
/// batch.
pub proof fn waiting_titles_leave_room(want: u32, waiting: usize)
    requires
        waiting <= 200,
        want <= 100,
    ensures
        asked_rows(want, waiting) - waiting == want,
{
}

/// Whether a failure of a title can be counted.
pub open spec fn can_wait(u: Unreached, key: Seq<char>, now: u64) -> bool {
    &&& now + BACKOFF_MAX * 1_000_000_000 <= u64::MAX
    &&& u.of(key) matches Some(w) ==> w.0 < u32::MAX
}

/// What is known of the wait of a title after another failure.
pub open spec fn failed_again(w: Option<(u32, u64)>, now: u64) -> (u32, u64) {
    let fails: u32 = match w {
        Some(w) => (w.0 + 1) as u32,
        None => 1,
    };
    (fails, (now + backoff_secs(fails) * 1_000_000_000) as u64)
}

impl Unreached {
    /// What becomes of a row that was looked up, and of its wait: a failure is
    /// counted, an answer ends the wait, and a row that nobody was asked about
    /// leaves it alone.
    pub fn settle_title(
        &mut self,
        key: &str,
        kind: Kind,
        found: bool,
        unreachable: bool,
        now: u64,
    ) -> (r: Verdict)
        requires
            old(self).wf(),
            can_wait(*old(self), key@, now),
        ensures
            final(self).wf(),
            r == verdict_of(kind, found, unreachable),
            final(self).of(key@) == if kind == Kind::Other {
                old(self).of(key@)
            } else if r == Verdict::Retry {
                Some(failed_again(old(self).of(key@), now))
            } else {
                None
            },
            forall|other: Seq<char>|
                other != key@ ==> #[trigger] final(self).of(other) == old(self).of(other),
    {
        let v: Verdict = enrich_verdict(kind, found, unreachable);
        match v {
            Verdict::Retry => {
                let _secs: u64 = self.note_failure(key, now);
            },
            _ => {
                if kind != Kind::Other {
                    self.clear(key);
                }
            },
        }
        v
    }

    /// Whether the date of a row is recorded, and what becomes of its wait: a
    /// failure is counted, and an answer ends it.
    pub fn settle_date(&mut self, key: &str, date: &str, unreachable: bool, now: u64) -> (r: bool)
        requires
            old(self).wf(),
            can_wait(*old(self), key@, now),
        ensures
            final(self).wf(),
            r == !(date@.len() == 0 && unreachable),
            final(self).of(key@) == if r {
                None
            } else {
                Some(failed_again(old(self).of(key@), now))
            },
            forall|other: Seq<char>|
                other != key@ ==> #[trigger] final(self).of(other) == old(self).of(other),
    {
        let r: bool = records_date(date, unreachable);
        if r {
            self.clear(key);
        } else {
            let _secs: u64 = self.note_failure(key, now);
        }
        r
    }
}

// ---- portraits ------------------------------------------------------------

/// How much disk the portraits may use, in bytes.
pub const PERSON_ART_CAP_BYTES: u64 = 201_326_592;

/// How long to rest after a walk, in seconds: a minute after one that found
/// work, else twice as long as last time, a quarter of an hour at most.
pub fn photo_rest(got_any: bool, last: u64) -> (r: u64)
    requires
        last <= 900,
    ensures
        r == (if got_any {
            60
        } else if last * 2 < 900 {
            last * 2
        } else {
            900
        }),
        r <= 900,
{
    if got_any {
        60
    } else if last * 2 < 900 {
        last * 2
    } else {
        900
    }
}

/// A portrait on disk.
pub struct ArtFile {
    /// When it was last wanted.
    pub when: u64,
    pub len: u64,
}

/// How many bytes the portraits take.
pub open spec fn art_total(files: Seq<ArtFile>) -> int
    decreases files.len(),
{
    if files.len() == 0 {
        0
    } else {
        art_total(files.drop_last()) + files.last().len
    }
}

/// Whether `a` goes before `b`: it was wanted longer ago, or as long ago and
/// stands before it.
pub open spec fn older(files: Seq<ArtFile>, a: int, b: int) -> bool {
    files[a].when < files[b].when || (files[a].when == files[b].when && a < b)
}

/// Whether `order` lists the places below `n` so that the oldest come first.
pub open spec fn oldest_first(files: Seq<ArtFile>, order: Seq<usize>, n: int) -> bool {
    &&& order.len() == n
    &&& forall|i: int| 0 <= i < n ==> 0 <= #[trigger] order[i] < n
    &&& forall|i: int, j: int|
        #![trigger order[i], order[j]]
        0 <= i < j < n ==> older(files, order[i] as int, order[j] as int)
}

/// How many bytes the portraits at some places take.
pub open spec fn bytes_at(files: Seq<ArtFile>, order: Seq<usize>) -> int
    decreases order.len(),
{
    if order.len() == 0 {
        0
    } else {
        bytes_at(files, order.drop_last()) + files[order.last() as int].len
    }
}

proof fn one_more_place(files: Seq<ArtFile>, order: Seq<usize>, k: int, n: usize)
    requires
        0 <= k <= order.len(),
    ensures
        bytes_at(files, order.insert(k, n)) == bytes_at(files, order) + files[n as int].len,
    decreases order.len(),
{
    let after = order.insert(k, n);
    if k == order.len() {
        assert(after.drop_last() =~= order);
    } else {
        assert(after.drop_last() =~= order.drop_last().insert(k, n));
        assert(after.last() == order.last());
        one_more_place(files, order.drop_last(), k, n);
    }
}

/// The order in which portraits would go: the least recently wanted first.
pub fn eviction_order(files: &Vec<ArtFile>) -> (r: Vec<usize>)
    ensures
        oldest_first(files@, r@, files@.len() as int),
        bytes_at(files@, r@) == art_total(files@),
{
    let mut r: Vec<usize> = Vec::new();
    let mut n: usize = 0;
    while n < files.len()
        invariant
            n <= files@.len(),
            oldest_first(files@, r@, n as int),
            bytes_at(files@, r@) == art_total(files@.take(n as int)),
        decreases files@.len() - n,
    {
        let ghost before = r@;
        let mut k: usize = 0;
        while k < r.len() && files[r[k]].when <= files[n].when
            invariant
                n < files@.len(),
                k <= r@.len(),
                r@ == before,
                oldest_first(files@, before, n as int),
                forall|j: int|
                    0 <= j < k ==> files@[#[trigger] before[j] as int].when
                        <= files@[n as int].when,
            decreases r@.len() - k,
        {
            k = k + 1;
        }
        r.insert(k, n);
        proof {
            let after = r@;
            assert(after =~= before.insert(k as int, n));
            one_more_place(files@, before, k as int, n);
            assert(files@.take(n + 1).drop_last() =~= files@.take(n as int));
            assert forall|i: int| 0 <= i < n + 1 implies 0 <= #[trigger] after[i] < n + 1 by {
                if i < k {
                    assert(after[i] == before[i]);
                } else if i > k {
                    assert(after[i] == before[i - 1]);
                }
            }
            assert forall|i: int, j: int|
                #![trigger after[i], after[j]]
                0 <= i < j < n + 1 implies older(files@, after[i] as int, after[j] as int) by {
                let x = if i < k {
                    i
                } else {
                    i - 1
                };
                let y = if j < k {
                    j
                } else {
                    j - 1
                };
                if i == k {
                    assert(after[j] == before[y]);
                    if y > k {
                        assert(older(files@, before[k as int] as int, before[y] as int));
                    }
                } else if j == k {
                    assert(after[i] == before[x]);
                } else {
                    assert(after[i] == before[x]);
                    assert(after[j] == before[y]);
                }
            }
        }
        n = n + 1;
    }
    assert(files@.take(files@.len() as int) =~= files@);
    r
}

/// How many bytes the portraits take.
pub fn art_bytes(files: &Vec<ArtFile>) -> (r: u64)
    requires
        art_total(files@) <= u64::MAX,
    ensures
        r == art_total(files@),
{
    let mut total: u64 = 0;
    let mut i: usize = 0;
    assert(files@.take(0) =~= Seq::empty());
    while i < files.len()
        invariant
            i <= files@.len(),
            total == art_total(files@.take(i as int)),
            art_total(files@) <= u64::MAX,
        decreases files@.len() - i,
    {
        proof {
            assert(files@.take(i + 1).drop_last() =~= files@.take(i as int));
            art_grows(files@, i + 1);
        }
        total = total + files[i].len;
        i = i + 1;
    }
    assert(files@.take(files@.len() as int) =~= files@);
    total
}

proof fn art_grows(files: Seq<ArtFile>, n: int)
    requires
        0 <= n <= files.len(),
    ensures
        0 <= art_total(files.take(n)) <= art_total(files),
    decreases files.len(),
{
    if n == files.len() {
        assert(files.take(n) =~= files);
        if n > 0 {
            art_grows(files.drop_last(), n - 1);
        }
    } else {
        assert(files.drop_last().take(n) =~= files.take(n));
        art_grows(files.drop_last(), n);
    }
}

/// Whether another portrait has to go, after `freed` of `total` bytes went.
pub fn must_evict(total: u64, freed: u64, cap: u64) -> (r: bool)
    requires
        freed <= total,
    ensures
        r == (total - freed > cap),
{
    total - freed > cap
}

/// How many bytes go of the portraits at some places, one after the other,
/// as long as another has to.
pub open spec fn freed_of(files: Seq<ArtFile>, order: Seq<usize>, total: int, cap: int) -> int
    decreases order.len(),
{
    if order.len() == 0 {
        0
    } else {
        let freed = freed_of(files, order.drop_last(), total, cap);
        if total - freed > cap {
            freed + files[order.last() as int].len
        } else {
            freed
        }
    }
}

/// Pruning brings the portraits under what they may use, and takes none where
/// they are.
pub proof fn pruning_brings_the_portraits_under_the_cap(
    files: Seq<ArtFile>,
    order: Seq<usize>,
    cap: int,
)
    requires
        bytes_at(files, order) == art_total(files),
        cap >= 0,
    ensures
        art_total(files) - freed_of(files, order, art_total(files), cap) <= cap,
        art_total(files) <= cap ==> freed_of(files, order, art_total(files), cap) == 0,
{
    frees_all_or_enough(files, order, art_total(files), cap);
}

proof fn frees_all_or_enough(files: Seq<ArtFile>, order: Seq<usize>, total: int, cap: int)
    ensures
        freed_of(files, order, total, cap) == bytes_at(files, order) || total - freed_of(
            files,
            order,
            total,
            cap,
        ) <= cap,
        total <= cap ==> freed_of(files, order, total, cap) == 0,
    decreases order.len(),
{
    if order.len() > 0 {
        frees_all_or_enough(files, order.drop_last(), total, cap);
    }
}

// ---- ratings --------------------------------------------------------------

/// Whether the ratings are old enough to be fetched anew: never fetched, or
/// more than twenty hours ago.
pub fn ratings_stale(stamp: &Option<String>, now: i64) -> (r: bool)
    ensures
        r == (match stamp.deep_view() {
            Some(s) => match parsed_i64(s) {
                Some(t) => now - t > 72_000,
                None => true,
            },
            None => true,
        }),
{
    match stamp {
        Some(s) => match parse_i64(s.as_str()) {
            Some(t) => (now as i128) - (t as i128) > 72_000,
            None => true,
        },
        None => true,
    }
}

// ---- laws -----------------------------------------------------------------

/// Each of the four words stands for its kind, and no other word does.
pub proof fn which_kind_a_word_stands_for(kind: &str, r: Kind)
    requires
        call_ensures(lane_kind, (kind,), r),
    ensures
        r == Kind::Tv <==> kind@ == "tv"@,
        r == Kind::Movie <==> kind@ == "movie"@,
        r == Kind::Music <==> kind@ == "music"@,
        r == Kind::Book <==> kind@ == "book"@,
{
    reveal_strlit("tv");
    reveal_strlit("movie");
    reveal_strlit("music");
    reveal_strlit("book");
    assert("tv"@.len() == 2 && "movie"@.len() == 5 && "music"@.len() == 5 && "book"@.len() == 4);
    assert("movie"@[1] != "music"@[1]);
}

/// A title waits a minute after its first failure, twice as long after each
/// further one, and six hours at the most.
pub proof fn how_long_a_title_waits(fails: u32, r: u64, again: u64)
    requires
        fails < u32::MAX,
        call_ensures(backoff_after, (fails,), r),
        call_ensures(backoff_after, ((fails + 1) as u32,), again),
    ensures
        fails <= 1 ==> r == 60,
        1 <= fails <= 8 ==> again == 2 * r,
        fails == 9 ==> r == 15_360 && again == 21_600,
        fails > 9 ==> r == 21_600 && again == 21_600,
{
    reveal_with_fuel(doubled, 11);
    another_failure_never_shortens_the_wait(fails);
}

/// A title may be tried exactly where it does not wait, or its time has come.
pub proof fn when_a_title_may_be_tried(u: &Unreached, key: &str, now: u64, r: bool)
    requires
        call_ensures(Unreached::due, (u, key, now), r),
    ensures
        u.of(key@) is None ==> r,
        u.of(key@) matches Some(w) ==> (r <==> w.1 <= now),
{
}

/// A failure is counted on top of those before, and the title waits from now
/// on for as long as that many call for; no other title's wait changes.
pub proof fn what_a_failure_does(
    u: &mut Unreached,
    key: &str,
    now: u64,
    r: u64,
    other: Seq<char>,
)
    requires
        old(u).wf(),
        now + 21_600 * 1_000_000_000 <= u64::MAX,
        old(u).of(key@) matches Some(w) ==> w.0 < u32::MAX,
        call_ensures(Unreached::note_failure, (u, key, now), r),
    ensures
        final(u).of(key@) is Some,
        old(u).of(key@) is None ==> (final(u).of(key@)->0).0 == 1 && r == 60,
        old(u).of(key@) matches Some(w) ==> (final(u).of(key@)->0).0 == w.0 + 1,
        (final(u).of(key@)->0).1 == now + r * 1_000_000_000,
        60 <= r <= 21_600,
        other != key@ ==> final(u).of(other) == old(u).of(other),
{
    reveal_with_fuel(doubled, 2);
    let fails: u32 = match old(u).of(key@) {
        Some(w) => (w.0 + 1) as u32,
        None => 1,
    };
    doubled_bound(doublings(fails));
}

/// An answer ends the wait of its title and of no other.
pub proof fn an_answer_ends_the_wait(u: &mut Unreached, key: &str, r: (), other: Seq<char>)
    requires
        old(u).wf(),
        call_ensures(Unreached::clear, (u, key), r),
    ensures
        final(u).of(key@) is None,
        other != key@ ==> final(u).of(other) == old(u).of(other),
{
}

/// Of the titles the first that may be tried are taken, as many as fit.
pub proof fn which_titles_are_taken(
    keys: Seq<Seq<char>>,
    k: Seq<char>,
    u: Unreached,
    now: u64,
    limit: nat,
)
    ensures
        (u.of(k) is None || (u.of(k)->0).1 <= now) && eligible_of(keys, u, now, limit).len() < limit
            ==> eligible_of(keys.push(k), u, now, limit) == eligible_of(keys, u, now, limit).push(
            keys.len() as int,
        ),
        (u.of(k) is Some && (u.of(k)->0).1 > now) || eligible_of(keys, u, now, limit).len() >= limit
            ==> eligible_of(keys.push(k), u, now, limit) == eligible_of(keys, u, now, limit),
        eligible_of(Seq::empty(), u, now, limit) == Seq::<int>::empty(),
{
    assert(keys.push(k).drop_last() =~= keys);
}

/// Nobody is asked of what is neither film nor show, music nor book; music and
/// books never go to a film database; a key counts for films and shows alike.
pub proof fn who_is_asked_first(has_tmdb_key: bool, kind: Kind, r: Provider)
    requires
        call_ensures(first_provider, (has_tmdb_key, kind), r),
    ensures
        r == Provider::Nobody <==> kind == Kind::Other,
        r == Provider::Media <==> kind == Kind::Music || kind == Kind::Book,
        r == Provider::Tmdb <==> has_tmdb_key && (kind == Kind::Tv || kind == Kind::Movie),
        r == Provider::TvMaze <==> !has_tmdb_key && kind == Kind::Tv,
        r == Provider::Films <==> !has_tmdb_key && kind == Kind::Movie,
{
}

/// What the film chain asks once a database has answered: the keyed one by an
/// id that was found, while nothing else was, and once; the open one, once,
/// where the keyed one had nothing; a poster alone, where that is all that is
/// missing; and the encyclopedia last, where it has something to add.
pub proof fn what_the_film_chain_asks(
    has_omdb: bool,
    meta: Option<TitleMeta>,
    imdb: Option<Seq<char>>,
    asked_wikidata: bool,
    tried_id: bool,
)
    ensures
        ask_after(has_omdb, meta, imdb, asked_wikidata, tried_id) == Ask::OmdbById <==> meta is None
            && has_omdb && imdb is Some && !tried_id,
        ask_after(has_omdb, meta, imdb, asked_wikidata, tried_id) == Ask::Wikidata <==> meta is None
            && has_omdb && !asked_wikidata && (imdb is None || tried_id),
        ask_after(has_omdb, meta, imdb, asked_wikidata, tried_id) == Ask::Poster <==> meta is Some
            && meta->0.poster_url@.len() == 0 && has_omdb && !asked_wikidata,
        ask_after(has_omdb, meta, imdb, asked_wikidata, tried_id) == Ask::Done <==> meta is Some
            && meta->0.poster_url@.len() > 0 && meta->0.overview@.len() > 0,
        ask_after(has_omdb, meta, imdb, asked_wikidata, tried_id) != Ask::OmdbAndId,
{
}

/// How the film chain begins and what it keeps of the answers.
pub proof fn what_the_film_chain_keeps(
    has_omdb: bool,
    first: FilmChain,
    meta: Option<TitleMeta>,
    imdb: Option<String>,
    second: FilmChain,
)
    requires
        call_ensures(FilmChain::new, (has_omdb,), first),
        has_omdb,
        call_ensures(FilmChain::omdb_and_id, (first, meta, imdb), second),
    ensures
        first.ask == Ask::OmdbAndId,
        second.meta == meta && second.imdb == imdb && second.has_omdb,
        meta is None && imdb is Some ==> second.ask == Ask::OmdbById,
        meta is None && imdb is None ==> second.ask == Ask::Wikidata,
        meta is Some && meta->0.poster_url@.len() == 0 ==> second.ask == Ask::Poster,
        meta is Some && meta->0.poster_url@.len() > 0 && meta->0.overview@.len() == 0 ==> second.ask
            == Ask::Wikipedia,
{
}

/// Without a key the open database is asked first, and the encyclopedia after
/// it where anything is missing; no keyed database is asked at all.
pub proof fn the_film_chain_without_a_key(
    first: FilmChain,
    meta: Option<TitleMeta>,
    second: FilmChain,
)
    requires
        call_ensures(FilmChain::new, (false,), first),
        call_ensures(FilmChain::wikidata, (first, meta), second),
    ensures
        first.ask == Ask::Wikidata,
        second.asked_wikidata && !second.has_omdb && second.meta == meta,
        second.ask == Ask::Wikipedia || second.ask == Ask::Done,
        meta is None ==> second.ask == Ask::Wikipedia,
        meta is Some && meta->0.imdb@.len() > 0 ==> second.imdb.deep_view() == Some(meta->0.imdb@),
{
}

/// A poster that was found fills the entry and changes nothing else of it.
pub proof fn a_poster_fills_the_entry(c: FilmChain, found: Option<TitleMeta>, r: FilmChain)
    requires
        c.ask == Ask::Poster,
        c.meta is Some,
        call_ensures(FilmChain::poster, (c, found), r),
    ensures
        r.meta is Some,
        found is Some ==> r.meta->0.poster_url == found->0.poster_url,
        found is None ==> r.meta == c.meta,
        r.meta->0.overview == c.meta->0.overview && r.meta->0.imdb == c.meta->0.imdb
            && r.meta->0.rating == c.meta->0.rating,
        r.ask == Ask::Wikipedia || r.ask == Ask::Done,
        r.asked_wikidata,
{
}

/// What the chain comes to: what was found stays, and what is missing of it is
/// filled from the page and the id; without a find an entry is made exactly
/// where there is an id, a text or a picture.
pub proof fn what_the_film_chain_comes_to(
    c: FilmChain,
    page: Option<WikiPage>,
    r: Option<TitleMeta>,
)
    requires
        c.ask == Ask::Wikipedia || (c.ask == Ask::Done && page is None),
        call_ensures(FilmChain::finish, (c, page), r),
    ensures
        c.meta is Some ==> r is Some,
        c.meta is Some && c.meta->0.overview@.len() > 0 ==> r->0.overview@ == c.meta->0.overview@,
        c.meta is Some && c.meta->0.overview@.len() == 0 && page is Some ==> r->0.overview@
            == page->0.extract@,
        c.meta is Some && c.meta->0.poster_url@.len() > 0 ==> r->0.poster_url@
            == c.meta->0.poster_url@,
        c.meta is Some && c.meta->0.poster_url@.len() == 0 && page is Some ==> r->0.poster_url@
            == page->0.image@,
        c.meta is Some && c.meta->0.imdb@.len() > 0 ==> r->0.imdb@ == c.meta->0.imdb@,
        c.meta is Some && c.meta->0.imdb@.len() == 0 && c.imdb is Some ==> r->0.imdb@ == c.imdb->0@,
        c.meta is Some ==> r->0.rating == c.meta->0.rating && r->0.genres == c.meta->0.genres
            && r->0.credits == c.meta->0.credits && r->0.tmdb_id == c.meta->0.tmdb_id,
        c.meta is None && c.imdb is None && page is None ==> r is None,
        c.meta is None && c.imdb is Some ==> r is Some && r->0.imdb@ == c.imdb->0@,
        c.meta is None && page is Some && (page->0.extract@.len() > 0 || page->0.image@.len() > 0)
            ==> r is Some && r->0.overview@ == page->0.extract@ && r->0.poster_url@
            == page->0.image@,
{
}

/// The anime database is asked as a last chance, for video alone.
pub proof fn when_the_anime_database_is_asked(found: bool, kind: Kind, r: bool)
    requires
        call_ensures(wants_anilist, (found, kind), r),
    ensures
        found ==> !r,
        kind == Kind::Music || kind == Kind::Book || kind == Kind::Other ==> !r,
        !found && (kind == Kind::Tv || kind == Kind::Movie) ==> r,
{
}

/// A row is filled where something was found, tried again where a provider
/// could not be reached, and empty for good only where all answered or nobody
/// could be asked.
pub proof fn what_becomes_of_a_row(kind: Kind, found: bool, unreachable: bool, r: Verdict)
    requires
        call_ensures(enrich_verdict, (kind, found, unreachable), r),
    ensures
        r == Verdict::Fill <==> kind != Kind::Other && found,
        r == Verdict::Retry <==> kind != Kind::Other && !found && unreachable,
        r == Verdict::StampEmpty <==> kind == Kind::Other || (!found && !unreachable),
{
}

/// A row with credits is stamped only once these are written.
pub proof fn when_a_row_may_be_stamped(has_credits: bool, credits_written: bool, r: bool)
    requires
        call_ensures(may_stamp, (has_credits, credits_written), r),
    ensures
        has_credits && !credits_written ==> !r,
        !has_credits ==> r,
        credits_written ==> r,
{
}

/// A date is recorded unless it is missing because a provider could not be
/// reached.
pub proof fn when_a_date_is_recorded(date: &str, unreachable: bool, r: bool)
    requires
        call_ensures(records_date, (date, unreachable), r),
    ensures
        date@.len() > 0 ==> r,
        !unreachable ==> r,
        date@.len() == 0 && unreachable ==> !r,
{
}

/// What leads to each step of a lane, and how many rows it asks for: a dozen
/// titles or half a dozen dates, and as many more as wait, two hundred at most.
pub proof fn what_leads_to_a_look_up(s: LaneStep, f: LaneFacts, r: LaneStep)
    requires
        call_ensures(lane_next, (s, f), r),
    ensures
        r == LaneStep::Hot <==> !f.off && (s is Rest || s == LaneStep::LookUp || s
            == LaneStep::LookUpDates),
        r is Rest <==> (f.off && (s is Rest || s == LaneStep::LookUp || s == LaneStep::LookUpDates))
            || (s is Dateless && !f.any),
        r is Rest && s is Dateless ==> r == LaneStep::Rest(15),
        r is Rest && !(s is Dateless) ==> r == LaneStep::Rest(30),
        r is Pending <==> s == LaneStep::Hot && !f.hot,
        r == LaneStep::LookUp <==> f.any && (s is Pending || (s == LaneStep::Hot && f.hot)),
        r is Dateless <==> !f.any && (s is Pending || (s == LaneStep::Hot && f.hot)),
        r == LaneStep::LookUpDates <==> s is Dateless && f.any,
        r matches LaneStep::Pending(n) ==> (f.waiting < 200 ==> n == 12 + f.waiting) && (f.waiting
            >= 200 ==> n == 212),
        r matches LaneStep::Dateless(n) ==> (f.waiting < 200 ==> n == 6 + f.waiting) && (f.waiting
            >= 200 ==> n == 206),
{
}

/// A lane takes half a dozen dates or a dozen titles.
pub proof fn how_many_rows_a_lane_takes(s: LaneStep, r: usize)
    requires
        call_ensures(batch_size, (s,), r),
    ensures
        s is Dateless ==> r == 6,
        !(s is Dateless) ==> r == 12,
{
}

/// A title whose providers could not be reached waits, one that was answered
/// no longer does, and one that nobody was asked about is left alone; no other
/// title's wait changes.
pub proof fn what_becomes_of_a_wait(
    u: &mut Unreached,
    key: &str,
    kind: Kind,
    found: bool,
    unreachable: bool,
    now: u64,
    r: Verdict,
    other: Seq<char>,
)
    requires
        old(u).wf(),
        can_wait(*old(u), key@, now),
        call_ensures(Unreached::settle_title, (u, key, kind, found, unreachable, now), r),
    ensures
        kind == Kind::Other ==> final(u).of(key@) == old(u).of(key@),
        kind != Kind::Other && (found || !unreachable) ==> final(u).of(key@) is None,
        kind != Kind::Other && !found && unreachable ==> final(u).of(key@) is Some && (
        final(u).of(key@)->0).1 >= now + 60 * 1_000_000_000,
        kind != Kind::Other && !found && unreachable && old(u).of(key@) is None ==> (final(u).of(
            key@,
        )->0).0 == 1,
        other != key@ ==> final(u).of(other) == old(u).of(other),
{
    let fails: u32 = match old(u).of(key@) {
        Some(w) => (w.0 + 1) as u32,
        None => 1,
    };
    doubled_bound(doublings(fails));
}

/// A date that was answered ends the wait, one that could not be asked for is
/// counted.
pub proof fn what_becomes_of_the_wait_for_a_date(
    u: &mut Unreached,
    key: &str,
    date: &str,
    unreachable: bool,
    now: u64,
    r: bool,
)
    requires
        old(u).wf(),
        can_wait(*old(u), key@, now),
        call_ensures(Unreached::settle_date, (u, key, date, unreachable, now), r),
    ensures
        r <==> date@.len() > 0 || !unreachable,
        r ==> final(u).of(key@) is None,
        !r ==> final(u).of(key@) is Some && (final(u).of(key@)->0).1 >= now + 60 * 1_000_000_000,
{
    let fails: u32 = match old(u).of(key@) {
        Some(w) => (w.0 + 1) as u32,
        None => 1,
    };
    doubled_bound(doublings(fails));
}

/// A walk that found work rests for a minute, another for twice as long as the
/// one before, a quarter of an hour at most.
pub proof fn how_long_a_walk_rests(got_any: bool, last: u64, r: u64)
    requires
        last <= 900,
        call_ensures(photo_rest, (got_any, last), r),
    ensures
        got_any ==> r == 60,
        !got_any && last < 450 ==> r == 2 * last,
        !got_any && last >= 450 ==> r == 900,
{
}

/// A portrait has to go exactly while what is left is more than may be.
pub proof fn when_a_portrait_has_to_go(total: u64, freed: u64, cap: u64, r: bool)
    requires
        freed <= total,
        call_ensures(must_evict, (total, freed, cap), r),
    ensures
        total <= cap ==> !r,
        r <==> total > freed + cap,
{
}

/// The portraits may use 192 MiB.
pub proof fn how_much_the_portraits_may_use()
    ensures
        PERSON_ART_CAP_BYTES == 192 * 1024 * 1024,
{
}

/// The least recently wanted portrait goes first.
pub proof fn the_least_wanted_portrait_goes_first(files: &Vec<ArtFile>, r: Vec<usize>, i: int, j: int)
    requires
        call_ensures(eviction_order, (files,), r),
        0 <= i < j < files@.len(),
    ensures
        r@.len() == files@.len(),
        0 <= r@[i] < files@.len(),
        files@[r@[i] as int].when <= files@[r@[j] as int].when,
{
    assert(oldest_first(files@, r@, files@.len() as int));
    assert(older(files@, r@[i] as int, r@[j] as int));
}

/// Ratings are fetched anew where they never were, where it cannot be told
/// when, and after twenty hours.
pub proof fn when_ratings_are_fetched_anew(stamp: &Option<String>, now: i64, r: bool)
    requires
        call_ensures(ratings_stale, (stamp, now), r),
    ensures
        *stamp is None ==> r,
        *stamp is Some && parsed_i64(stamp->0@) is None ==> r,
        *stamp is Some ==> (parsed_i64(stamp->0@) matches Some(t) ==> (r <==> now - t > 20
            * 3_600)),
{
}

/// Once the keyed database was asked by the id, it is not asked so again.
pub proof fn the_id_is_asked_for_once(c: FilmChain, meta: Option<TitleMeta>, r: FilmChain)
    requires
        c.ask == Ask::OmdbById,
        call_ensures(FilmChain::omdb_by_id, (c, meta), r),
    ensures
        r.ask != Ask::OmdbById,
        r.meta == meta && r.imdb == c.imdb && r.has_omdb == c.has_omdb && r.asked_wikidata
            == c.asked_wikidata,
        meta is None && c.has_omdb && !c.asked_wikidata ==> r.ask == Ask::Wikidata,
        meta is None && c.asked_wikidata ==> r.ask == Ask::Wikipedia,
{
}

} // verus!
