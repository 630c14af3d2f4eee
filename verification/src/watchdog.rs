//! The slow-job watchdog: when the next job starts early on what the active
//! one leaves idle, and when a job that crawls is moved to the back.
use vstd::prelude::*;

use crate::book::Book;
use crate::job::{Job, JobState};
use crate::sidecar::{HostShare, Sidecar};
use crate::stall::{StallEvent, SECOND};
use crate::text::{add_text, decimal, glue, glue3, join, joined, listed, same, to_decimal};

verus! {

/// How many bytes a server has moved.
#[derive(Debug)]
pub struct HostBytes {
    pub host: String,
    pub bytes: u64,
}

/// Why a server would not serve.
#[derive(Debug)]
pub struct Refused {
    pub permanent: bool,
    pub line: String,
}

/// A server of the running pool.
#[derive(Debug)]
pub struct ServerLive {
    pub host: String,
    pub connected: u64,
    pub bytes: u64,
    pub refusal: Option<Refused>,
}

/// A refusal that outlives its pool.
#[derive(Debug)]
pub struct Refusal {
    pub permanent: bool,
    pub line: String,
    pub at: i64,
}

/// What every server of the pool had moved at some time, in nanoseconds.
#[derive(Debug)]
pub struct Sample {
    pub at: u64,
    pub hosts: Vec<HostBytes>,
}

/// What the watchdog remembers of the active job.
pub struct Watchdog {
    pub win: Vec<Sample>,
    pub cur: Option<String>,
    /// The jobs that were started early while this one ran.
    pub attempted: Vec<String>,
    /// Whether it was said that every idle server refused.
    pub refusal_noted: bool,
}

/// Where the next job may start early.
#[derive(Debug)]
pub struct Fleet {
    pub hosts: Vec<String>,
    /// Whether they are busy, and lend connections.
    pub borrow: bool,
    /// Whether it is to be said that every idle server refused.
    pub note: bool,
}

/// How often the watchdog looks, in seconds, with a window of so many.
pub fn tick_secs(window: u64) -> (r: u64)
    ensures
        1 <= r <= 5,
        1 <= window / 6 <= 5 ==> r == window / 6,
        window / 6 < 1 ==> r == 1,
        window / 6 > 5 ==> r == 5,
{
    let t: u64 = window / 6;
    if t < 1 {
        1
    } else if t > 5 {
        5
    } else {
        t
    }
}

// ---- what the pool says -----------------------------------------------------

/// Whether a job is the one that runs under an id.
pub open spec fn runs_as(j: Job, id: Seq<char>) -> bool {
    j.nzo_id@ == id && j.state == JobState::Downloading
}

/// The job whose bytes are watched: the one that owns the pool, unless a
/// pause has stopped it.
pub fn observed(queue: &Vec<Job>, started: bool, active: Option<&str>) -> (r: Option<usize>)
    ensures
        match r {
            Some(i) => started && active is Some && i < queue@.len() && runs_as(
                queue@[i as int],
                active->0@,
            ) && !queue@[i as int].suspended && forall|k: int|
                0 <= k < i ==> !(runs_as(#[trigger] queue@[k], active->0@) && !queue@[k].suspended),
            None => !started || active is None || forall|k: int|
                0 <= k < queue@.len() ==> !(runs_as(#[trigger] queue@[k], active->0@)
                    && !queue@[k].suspended),
        },
{
    if !started {
        return None;
    }
    let id: &str = match active {
        Some(id) => id,
        None => {
            return None;
        },
    };
    let mut i: usize = 0;
    while i < queue.len()
        invariant
            i <= queue@.len(),
            started,
            active == Some(id),
            forall|k: int|
                0 <= k < i ==> !(runs_as(#[trigger] queue@[k], id@) && !queue@[k].suspended),
        decreases queue@.len() - i,
    {
        let j: &Job = &queue[i];
        if same(j.nzo_id.as_str(), id) && j.state == JobState::Downloading && !j.suspended {
            return Some(i);
        }
        i = i + 1;
    }
    None
}

/// What a remembered refusal says.
pub open spec fn refusal_view(r: Option<Refusal>) -> Option<(bool, Seq<char>, i64)> {
    match r {
        Some(r) => Some((r.permanent, r.line@, r.at)),
        None => None,
    }
}

/// What is remembered of a host after looking at the servers: the refusal of
/// one that refuses now, and nothing of one that has a connection or has
/// moved bytes, which shows that it served.
pub open spec fn refusal_of(
    servers: Seq<ServerLive>,
    host: Seq<char>,
    before: Option<(bool, Seq<char>, i64)>,
    now: i64,
) -> Option<(bool, Seq<char>, i64)>
    decreases servers.len(),
{
    if servers.len() == 0 {
        before
    } else {
        let rest = refusal_of(servers.drop_last(), host, before, now);
        let s = servers.last();
        if s.host@ != host {
            rest
        } else {
            match s.refusal {
                Some(r) => Some((r.permanent, r.line@, now)),
                None => if s.connected > 0 || s.bytes > 0 {
                    None
                } else {
                    rest
                },
            }
        }
    }
}

/// Remembers which servers refuse, and forgets those that serve.
pub fn keep_refusals(book: &mut Book<Refusal>, servers: &Vec<ServerLive>, now: i64)
    requires
        old(book).wf(),
    ensures
        final(book).wf(),
        forall|k: Seq<char>| #[trigger]
            refusal_view(final(book).at(k)) == refusal_of(
                servers@,
                k,
                refusal_view(old(book).at(k)),
                now,
            ),
{
    let mut i: usize = 0;
    while i < servers.len()
        invariant
            i <= servers@.len(),
            book.wf(),
            forall|k: Seq<char>| #[trigger]
                refusal_view(book.at(k)) == refusal_of(
                    servers@.take(i as int),
                    k,
                    refusal_view(old(book).at(k)),
                    now,
                ),
        decreases servers@.len() - i,
    {
        let s: &ServerLive = &servers[i];
        let ghost was = *book;
        match &s.refusal {
            Some(r) => {
                book.put(
                    s.host.as_str(),
                    Refusal { permanent: r.permanent, line: r.line.as_str().to_owned(), at: now },
                );
            },
            None => {
                if s.connected > 0 || s.bytes > 0 {
                    book.remove(s.host.as_str());
                }
            },
        }
        proof {
            let upto = servers@.take(i + 1);
            assert(upto.drop_last() =~= servers@.take(i as int));
            assert(upto.last() == *s);
            assert forall|k: Seq<char>| true implies #[trigger] refusal_view(book.at(k))
                == refusal_of(upto, k, refusal_view(old(book).at(k)), now) by {
                assert(refusal_view(was.at(k)) == refusal_of(
                    servers@.take(i as int),
                    k,
                    refusal_view(old(book).at(k)),
                    now,
                ));
                if k != s.host@ {
                    assert(book.at(k) == was.at(k));
                }
            }
        }
        i = i + 1;
    }
    assert(servers@.take(servers@.len() as int) =~= servers@);
}

/// What a report says of a server.
pub open spec fn state_word(s: ServerLive) -> Seq<char> {
    if s.refusal is Some {
        s.host@ + " refused"@
    } else {
        s.host@ + " "@ + decimal(s.connected as int) + " conn"@
    }
}

/// What a report says of the servers.
pub open spec fn states_of(servers: Seq<ServerLive>) -> Seq<char> {
    if servers.len() == 0 {
        "pool not up yet"@
    } else {
        joined(servers.map_values(|s: ServerLive| state_word(s)), ", "@)
    }
}

/// What a report says of the servers.
pub fn states(servers: &Vec<ServerLive>) -> (r: String)
    ensures
        r@ == states_of(servers@),
{
    if servers.len() == 0 {
        return "pool not up yet".to_owned();
    }
    let mut words: Vec<String> = Vec::new();
    let ghost all = servers@.map_values(|s: ServerLive| state_word(s));
    let mut i: usize = 0;
    assert(words.deep_view() =~= all.take(0));
    while i < servers.len()
        invariant
            i <= servers@.len(),
            all == servers@.map_values(|s: ServerLive| state_word(s)),
            words.deep_view() == all.take(i as int),
        decreases servers@.len() - i,
    {
        let s: &ServerLive = &servers[i];
        let w: String = match &s.refusal {
            Some(_) => glue(s.host.as_str(), " refused"),
            None => {
                let n: String = to_decimal(s.connected);
                let a: String = glue3(s.host.as_str(), " ", n.as_str());
                glue(a.as_str(), " conn")
            },
        };
        add_text(&mut words, w.as_str());
        assert(all.take(i + 1) =~= all.take(i as int).push(state_word(*s)));
        i = i + 1;
    }
    assert(all.take(all.len() as int) =~= all);
    join(&words, ", ")
}

/// The bytes of all servers together.
pub open spec fn bytes_of(servers: Seq<ServerLive>) -> int
    decreases servers.len(),
{
    if servers.len() == 0 {
        0
    } else {
        bytes_of(servers.drop_last()) + servers.last().bytes
    }
}

proof fn bytes_grow(servers: Seq<ServerLive>, i: int)
    requires
        0 <= i <= servers.len(),
    ensures
        bytes_of(servers.take(i)) <= bytes_of(servers),
    decreases servers.len(),
{
    if i == servers.len() {
        assert(servers.take(i) =~= servers);
    } else {
        assert(servers.drop_last().take(i) =~= servers.take(i));
        bytes_grow(servers.drop_last(), i);
    }
}

/// The bytes of all servers together.
pub fn pool_bytes(servers: &Vec<ServerLive>) -> (r: u64)
    requires
        bytes_of(servers@) <= u64::MAX,
    ensures
        r == bytes_of(servers@),
{
    let mut n: u64 = 0;
    let mut i: usize = 0;
    while i < servers.len()
        invariant
            i <= servers@.len(),
            n == bytes_of(servers@.take(i as int)),
            bytes_of(servers@) <= u64::MAX,
        decreases servers@.len() - i,
    {
        assert(servers@.take(i + 1).drop_last() =~= servers@.take(i as int));
        assert(servers@.take(i + 1).last() == servers@[i as int]);
        proof {
            bytes_grow(servers@, i + 1);
        }
        n = n + servers[i].bytes;
        i = i + 1;
    }
    assert(servers@.take(servers@.len() as int) =~= servers@);
    n
}

/// Since when the job `id` is shown as stalled, after an event.
pub fn stall_mark(ev: &Option<StallEvent>, id: Option<String>, was: Option<(String, u64)>) -> (r:
    Option<(String, u64)>)
    ensures
        match *ev {
            None => r == was,
            Some(StallEvent::Opened { idle_secs, since }) => match id {
                Some(i) => r == Some((i, since)),
                None => r is None,
            },
            _ => r is None,
        },
{
    match ev {
        None => was,
        Some(StallEvent::Opened { idle_secs: _, since }) => match id {
            Some(i) => Some((i, *since)),
            None => None,
        },
        _ => None,
    }
}

// ---- the window -------------------------------------------------------------

/// The samples without those at the front that are older than the window.
pub open spec fn recent(win: Seq<Sample>, now: u64, window: u64) -> Seq<Sample>
    decreases win.len(),
{
    if win.len() > 0 && age_secs(win[0], now) > window {
        recent(win.skip(1), now, window)
    } else {
        win
    }
}

/// How many whole seconds old a sample is.
pub open spec fn age_secs(s: Sample, now: u64) -> int {
    if now >= s.at {
        (now - s.at) / (SECOND as int)
    } else {
        0
    }
}

/// Hosts and bytes.
pub open spec fn pairs(s: Seq<HostBytes>) -> Seq<(Seq<char>, u64)> {
    s.map_values(|h: HostBytes| (h.host@, h.bytes))
}

/// What a host had moved: nothing where it is not listed.
pub open spec fn base_of(first: Seq<(Seq<char>, u64)>, host: Seq<char>) -> u64
    decreases first.len(),
{
    if first.len() == 0 {
        0
    } else if first.last().0 == host {
        first.last().1
    } else {
        base_of(first.drop_last(), host)
    }
}

/// What each host has moved since.
pub open spec fn moved(first: Seq<(Seq<char>, u64)>, last: Seq<(Seq<char>, u64)>) -> Seq<
    (Seq<char>, u64),
> {
    last.map_values(
        |p: (Seq<char>, u64)|
            (
                p.0,
                if p.1 > base_of(first, p.0) {
                    (p.1 - base_of(first, p.0)) as u64
                } else {
                    0
                },
            ),
    )
}

/// The bytes of all hosts together.
pub open spec fn sum_of(d: Seq<(Seq<char>, u64)>) -> int
    decreases d.len(),
{
    if d.len() == 0 {
        0
    } else {
        sum_of(d.drop_last()) + d.last().1
    }
}

fn base(first: &Vec<HostBytes>, host: &str) -> (r: u64)
    ensures
        r == base_of(pairs(first@), host@),
{
    let ghost all = pairs(first@);
    let mut i: usize = first.len();
    assert(all.take(all.len() as int) =~= all);
    while i > 0
        invariant
            i <= first@.len(),
            all == pairs(first@),
            base_of(all, host@) == base_of(all.take(i as int), host@),
        decreases i,
    {
        i = i - 1;
        assert(all.take(i + 1).drop_last() =~= all.take(i as int));
        assert(all.take(i + 1).last() == (first@[i as int].host@, first@[i as int].bytes));
        if same(first[i].host.as_str(), host) {
            return first[i].bytes;
        }
    }
    0
}

proof fn sums_grow(d: Seq<(Seq<char>, u64)>, i: int)
    requires
        0 <= i <= d.len(),
    ensures
        sum_of(d.take(i)) <= sum_of(d),
    decreases d.len(),
{
    if i == d.len() {
        assert(d.take(i) =~= d);
    } else {
        assert(d.drop_last().take(i) =~= d.take(i));
        sums_grow(d.drop_last(), i);
    }
}

/// The bytes of all hosts together.
pub fn total_of(d: &Vec<HostBytes>) -> (r: u64)
    requires
        sum_of(pairs(d@)) <= u64::MAX,
    ensures
        r == sum_of(pairs(d@)),
{
    let ghost all = pairs(d@);
    let mut n: u64 = 0;
    let mut i: usize = 0;
    while i < d.len()
        invariant
            i <= d@.len(),
            all == pairs(d@),
            n == sum_of(all.take(i as int)),
            sum_of(all) <= u64::MAX,
        decreases d@.len() - i,
    {
        assert(all.take(i + 1).drop_last() =~= all.take(i as int));
        assert(all.take(i + 1).last() == (d@[i as int].host@, d@[i as int].bytes));
        proof {
            sums_grow(all, i + 1);
        }
        n = n + d[i].bytes;
        i = i + 1;
    }
    assert(all.take(all.len() as int) =~= all);
    n
}

/// The host that moved most: the last of those that moved as much.
pub fn top(d: &Vec<HostBytes>) -> (r: usize)
    requires
        d@.len() > 0,
    ensures
        r < d@.len(),
        forall|i: int| 0 <= i < d@.len() ==> (#[trigger] d@[i]).bytes <= d@[r as int].bytes,
        forall|i: int| r < i < d@.len() ==> (#[trigger] d@[i]).bytes < d@[r as int].bytes,
{
    let mut best: usize = 0;
    let mut i: usize = 1;
    while i < d.len()
        invariant
            best < i <= d@.len(),
            forall|k: int| 0 <= k < i ==> (#[trigger] d@[k]).bytes <= d@[best as int].bytes,
            forall|k: int| best < k < i ==> (#[trigger] d@[k]).bytes < d@[best as int].bytes,
        decreases d@.len() - i,
    {
        if d[i].bytes >= d[best].bytes {
            best = i;
        }
        i = i + 1;
    }
    best
}

// ---- decisions ----------------------------------------------------------------

/// Whether the look goes on: not while nothing moves, nor with a single
/// server, unless the job's last articles are in flight; and not before it
/// has run for a while.
pub fn worth_a_look(total: u64, hosts: usize, tail: bool, ran_secs: u64, warmup: u64) -> (r: bool)
    ensures
        r == ((tail || (total > 0 && hosts >= 2)) && ran_secs >= warmup),
{
    (tail || (total > 0 && hosts >= 2)) && ran_secs >= warmup
}

/// Whether the next job may start early: not beside another that did, and
/// not where what is fetched counts against a quota.
pub fn may_prefetch(auto: bool, paused: bool, quota: u64, sidecar: bool) -> (r: bool)
    ensures
        r == (auto && !paused && quota == 0 && !sidecar),
{
    auto && !paused && quota == 0 && !sidecar
}

/// The hosts that are busy, or those that are not, without those that
/// refused, in order.
pub open spec fn hosts_of(
    shares: Seq<HostShare>,
    busy: bool,
    refused: Seq<Seq<char>>,
) -> Seq<Seq<char>>
    decreases shares.len(),
{
    if shares.len() == 0 {
        Seq::empty()
    } else if shares.last().busy == busy && !refused.contains(shares.last().host@) {
        hosts_of(shares.drop_last(), busy, refused).push(shares.last().host@)
    } else {
        hosts_of(shares.drop_last(), busy, refused)
    }
}

fn take_hosts(shares: &Vec<HostShare>, busy: bool, refused: &Vec<String>) -> (r: Vec<String>)
    ensures
        r.deep_view() == hosts_of(shares@, busy, refused.deep_view()),
{
    let mut r: Vec<String> = Vec::new();
    let mut i: usize = 0;
    assert(r.deep_view() =~= hosts_of(shares@.take(0), busy, refused.deep_view()));
    while i < shares.len()
        invariant
            i <= shares@.len(),
            r.deep_view() == hosts_of(shares@.take(i as int), busy, refused.deep_view()),
        decreases shares@.len() - i,
    {
        assert(shares@.take(i + 1).drop_last() =~= shares@.take(i as int));
        assert(shares@.take(i + 1).last() == shares@[i as int]);
        if shares[i].busy == busy && !listed(refused, shares[i].host.as_str()) {
            add_text(&mut r, shares[i].host.as_str());
        }
        i = i + 1;
    }
    assert(shares@.take(shares@.len() as int) =~= shares@);
    r
}

/// Whether any host is idle.
pub open spec fn some_idle(shares: Seq<HostShare>) -> bool {
    exists|i: int| 0 <= i < shares.len() && !(#[trigger] shares[i]).busy
}

fn any_idle(shares: &Vec<HostShare>) -> (r: bool)
    ensures
        r == some_idle(shares@),
{
    let mut i: usize = 0;
    while i < shares.len()
        invariant
            i <= shares@.len(),
            forall|k: int| 0 <= k < i ==> (#[trigger] shares@[k]).busy,
        decreases shares@.len() - i,
    {
        if !shares[i].busy {
            return true;
        }
        i = i + 1;
    }
    false
}

/// Whether a job may start early: one that waits, that was not tried yet, and
/// that is neither held, deferred nor a pointer.
pub open spec fn may_start_early(j: Job, attempted: Seq<Seq<char>>) -> bool {
    j.state == JobState::Queued && !j.paused && !j.deferred && !j.library && !attempted.contains(
        j.nzo_id@,
    )
}

/// Whether `r` is the job that starts early: the first of the highest
/// priority of those that may.
pub open spec fn is_early_pick(
    queue: Seq<Job>,
    attempted: Seq<Seq<char>>,
    r: Option<usize>,
) -> bool {
    match r {
        Some(i) => {
            &&& i < queue.len()
            &&& may_start_early(queue[i as int], attempted)
            &&& forall|k: int|
                0 <= k < queue.len() && may_start_early(#[trigger] queue[k], attempted)
                    ==> queue[k].priority < queue[i as int].priority || (queue[k].priority
                    == queue[i as int].priority && i <= k)
        },
        None => forall|k: int|
            0 <= k < queue.len() ==> !may_start_early(#[trigger] queue[k], attempted),
    }
}

/// Whether a job waits that could run instead.
pub open spec fn another_waits(queue: Seq<Job>) -> bool {
    exists|i: int|
        0 <= i < queue.len() && (#[trigger] queue[i]).state == JobState::Queued
            && !queue[i].paused && !queue[i].deferred
}

/// Whether a job waits that could run instead.
pub fn others_waiting(queue: &Vec<Job>) -> (r: bool)
    ensures
        r == another_waits(queue@),
{
    let mut i: usize = 0;
    while i < queue.len()
        invariant
            i <= queue@.len(),
            forall|k: int|
                0 <= k < i ==> !((#[trigger] queue@[k]).state == JobState::Queued
                    && !queue@[k].paused && !queue@[k].deferred),
        decreases queue@.len() - i,
    {
        let j: &Job = &queue[i];
        if j.state == JobState::Queued && !j.paused && !j.deferred {
            return true;
        }
        i = i + 1;
    }
    false
}

/// How often a job is moved to the back at most.
pub const DEFERS_MAX: u32 = 3;

/// The rate below which the session's best says nothing, in bytes a second.
pub const BEST_MIN: u64 = 1_000_000;

/// Whether a job is moved to the back. `narrow` says that one host moved nine
/// tenths of the bytes, `slow` that the rate is below two fifths of the best.
pub open spec fn is_deferred(
    total: u64,
    hosts: int,
    defers: u32,
    sidecar: Option<Sidecar>,
    queue: Seq<Job>,
    narrow: bool,
    best: u64,
    slow: bool,
) -> bool {
    &&& total > 0 && hosts >= 2
    &&& defers < DEFERS_MAX
    &&& !(sidecar is Some && !sidecar->0.borrowed)
    &&& another_waits(queue)
    &&& narrow && best >= BEST_MIN && slow
}

/// Whether a job is moved to the back: where others wait, almost all it gets
/// comes from one host, and that is slow. Not while the idle servers already
/// work on the next job.
pub fn defer_due(
    total: u64,
    hosts: usize,
    defers: u32,
    sidecar: &Option<Sidecar>,
    queue: &Vec<Job>,
    narrow: bool,
    best: u64,
    slow: bool,
) -> (r: bool)
    ensures
        r == is_deferred(total, hosts as int, defers, *sidecar, queue@, narrow, best, slow),
{
    let idle_sidecar: bool = match sidecar {
        Some(s) => !s.borrowed,
        None => false,
    };
    if total == 0 || hosts < 2 || defers >= DEFERS_MAX || idle_sidecar {
        return false;
    }
    others_waiting(queue) && narrow && best >= BEST_MIN && slow
}

/// A job that gets nothing, or that has a single server, is never moved: not
/// at its own end either, where the early start looks at it all the same.
pub proof fn a_flat_window_never_defers(
    total: u64,
    hosts: int,
    defers: u32,
    sidecar: Option<Sidecar>,
    queue: Seq<Job>,
    narrow: bool,
    best: u64,
    slow: bool,
)
    requires
        total == 0 || hosts < 2,
    ensures
        !is_deferred(total, hosts, defers, sidecar, queue, narrow, best, slow),
{
}

/// A step of a look.
#[derive(Clone, Copy, PartialEq, Eq, Structural, Debug)]
pub enum DogStep {
    /// Wait for the next tick.
    Rest,
    /// Watch the bytes, and which servers refuse.
    Observe,
    /// See which job the look is at.
    Enter,
    /// Sample its pool.
    Sample,
    /// See what the window shows.
    Weigh,
    /// Start the next job early, where that may be.
    Prefetch,
    /// Move the job to the back, where that is due.
    Judge,
}

/// What a look has found out.
#[derive(Clone, Copy, PartialEq, Eq, Structural, Debug)]
pub struct DogFacts {
    pub entered: bool,
    pub sampled: bool,
    /// Whether the window is long enough to say anything.
    pub long_enough: bool,
    /// Whether the look goes on.
    pub worth: bool,
}

/// The step that follows.
pub open spec fn dog_after(s: DogStep, f: DogFacts) -> DogStep {
    match s {
        DogStep::Rest => DogStep::Observe,
        DogStep::Observe => DogStep::Enter,
        DogStep::Enter => if f.entered {
            DogStep::Sample
        } else {
            DogStep::Rest
        },
        DogStep::Sample => if f.sampled && f.long_enough {
            DogStep::Weigh
        } else {
            DogStep::Rest
        },
        DogStep::Weigh => if f.worth {
            DogStep::Prefetch
        } else {
            DogStep::Rest
        },
        DogStep::Prefetch => DogStep::Judge,
        DogStep::Judge => DogStep::Rest,
    }
}

/// The step that follows.
pub fn dog_next(s: DogStep, f: DogFacts) -> (r: DogStep)
    ensures
        r == dog_after(s, f),
{
    match s {
        DogStep::Rest => DogStep::Observe,
        DogStep::Observe => DogStep::Enter,
        DogStep::Enter => if f.entered {
            DogStep::Sample
        } else {
            DogStep::Rest
        },
        DogStep::Sample => if f.sampled && f.long_enough {
            DogStep::Weigh
        } else {
            DogStep::Rest
        },
        DogStep::Weigh => if f.worth {
            DogStep::Prefetch
        } else {
            DogStep::Rest
        },
        DogStep::Prefetch => DogStep::Judge,
        DogStep::Judge => DogStep::Rest,
    }
}

/// Stalls are watched at every tick, whatever else is switched off.
pub proof fn stalls_are_watched_at_every_tick(f: DogFacts, s: DogStep)
    ensures
        dog_after(DogStep::Rest, f) == DogStep::Observe,
        dog_after(s, f) == DogStep::Enter ==> s == DogStep::Observe,
{
}

impl Watchdog {
    /// Nothing watched yet.
    pub fn new() -> (r: Watchdog)
        ensures
            r.win@.len() == 0,
            r.cur is None,
            r.attempted@.len() == 0,
            !r.refusal_noted,
    {
        Watchdog { win: Vec::new(), cur: None, attempted: Vec::new(), refusal_noted: false }
    }

    /// Which job a look is at: the one that owns the pool, never merely the
    /// first that downloads. Another job than before starts from nothing.
    /// None while neither deferring nor starting early is `wanted`, while
    /// nothing runs, and for a job that is being moved already.
    pub fn enter(
        &mut self,
        wanted: bool,
        started: bool,
        active: Option<&str>,
        queue: &Vec<Job>,
    ) -> (r: Option<usize>)
        ensures
            match r {
                Some(i) => {
                    &&& wanted && started && active is Some
                    &&& i < queue@.len()
                    &&& runs_as(queue@[i as int], active->0@)
                    &&& forall|k: int| 0 <= k < i ==> !runs_as(#[trigger] queue@[k], active->0@)
                    &&& !queue@[i as int].demote
                    &&& final(self).cur.deep_view() == Some(active->0@)
                    &&& if old(self).cur.deep_view() == Some(active->0@) {
                        *final(self) == *old(self)
                    } else {
                        &&& final(self).win@.len() == 0
                        &&& final(self).attempted@.len() == 0
                        &&& !final(self).refusal_noted
                    }
                },
                None => {
                    &&& final(self).attempted == old(self).attempted
                    &&& final(self).refusal_noted == old(self).refusal_noted
                    &&& if !wanted || active is None || !started || forall|k: int|
                        0 <= k < queue@.len() ==> !runs_as(#[trigger] queue@[k], active->0@) {
                        &&& final(self).win@.len() == 0
                        &&& final(self).cur == (if wanted && !started {
                            None
                        } else {
                            old(self).cur
                        })
                    } else {
                        &&& *final(self) == *old(self)
                        &&& exists|k: int|
                            0 <= k < queue@.len() && runs_as(#[trigger] queue@[k], active->0@)
                                && queue@[k].demote && forall|m: int|
                                0 <= m < k ==> !runs_as(#[trigger] queue@[m], active->0@)
                    }
                },
            },
    {
        if !wanted {
            self.win.clear();
            return None;
        }
        if !started {
            self.win.clear();
            self.cur = None;
            return None;
        }
        let id: &str = match active {
            Some(id) => id,
            None => {
                self.win.clear();
                return None;
            },
        };
        let mut i: usize = 0;
        while i < queue.len()
            invariant
                i <= queue@.len(),
                active == Some(id),
                wanted,
                started,
                *self == *old(self),
                forall|k: int| 0 <= k < i ==> !runs_as(#[trigger] queue@[k], id@),
            decreases queue@.len() - i,
        {
            let j: &Job = &queue[i];
            if same(j.nzo_id.as_str(), id) && j.state == JobState::Downloading {
                if j.demote {
                    assert(runs_as(queue@[i as int], id@));
                    return None;
                }
                let known: bool = match &self.cur {
                    Some(c) => same(c.as_str(), id),
                    None => false,
                };
                if !known {
                    self.win.clear();
                    self.attempted.clear();
                    self.refusal_noted = false;
                    self.cur = Some(id.to_owned());
                }
                return Some(i);
            }
            i = i + 1;
        }
        self.win.clear();
        None
    }

    /// Takes a sample of the pool, and drops those that have left the window.
    /// A pool that is not up gives none.
    pub fn sample(&mut self, now: u64, hosts: Vec<HostBytes>, window: u64) -> (r: bool)
        ensures
            final(self).cur == old(self).cur,
            final(self).attempted == old(self).attempted,
            final(self).refusal_noted == old(self).refusal_noted,
            r == (hosts@.len() > 0),
            if r {
                &&& final(self).win@ == recent(
                    old(self).win@.push(Sample { at: now, hosts }),
                    now,
                    window,
                )
                &&& final(self).win@.len() > 0
            } else {
                final(self).win == old(self).win
            },
    {
        if hosts.len() == 0 {
            return false;
        }
        self.win.push(Sample { at: now, hosts });
        let ghost all = self.win@;
        while self.win.len() > 0 && Self::old_one(&self.win[0], now, window)
            invariant
                recent(all, now, window) == recent(self.win@, now, window),
                self.win@.len() > 0,
                self.win@.last().at == now,
                self.cur == old(self).cur,
                self.attempted == old(self).attempted,
                self.refusal_noted == old(self).refusal_noted,
            decreases self.win@.len(),
        {
            let ghost was = self.win@;
            let _gone = self.win.remove(0);
            proof {
                assert(self.win@ =~= was.skip(1));
                if was.len() == 1 {
                    assert(was[0].at == now);
                }
            }
        }
        true
    }

    fn old_one(s: &Sample, now: u64, window: u64) -> (r: bool)
        ensures
            r == (age_secs(*s, now) > window),
    {
        let age: u64 = if now >= s.at {
            (now - s.at) / SECOND
        } else {
            0
        };
        age > window
    }

    /// When the oldest sample was taken.
    pub fn first_at(&self) -> (r: u64)
        requires
            self.win@.len() > 0,
        ensures
            r == self.win@[0].at,
    {
        self.win[0].at
    }

    /// What each host has moved over the window.
    pub fn deltas(&self) -> (r: Vec<HostBytes>)
        requires
            self.win@.len() > 0,
        ensures
            pairs(r@) == moved(pairs(self.win@[0].hosts@), pairs(self.win@.last().hosts@)),
    {
        let first: &Vec<HostBytes> = &self.win[0].hosts;
        let last: &Vec<HostBytes> = &self.win[self.win.len() - 1].hosts;
        let mut r: Vec<HostBytes> = Vec::new();
        let ghost all = moved(pairs(first@), pairs(last@));
        let mut i: usize = 0;
        assert(pairs(r@) =~= all.take(0));
        while i < last.len()
            invariant
                i <= last@.len(),
                all == moved(pairs(first@), pairs(last@)),
                pairs(r@) == all.take(i as int),
            decreases last@.len() - i,
        {
            let b: u64 = base(first, last[i].host.as_str());
            let n: u64 = if last[i].bytes > b {
                last[i].bytes - b
            } else {
                0
            };
            let ghost was = r@;
            r.push(HostBytes { host: last[i].host.as_str().to_owned(), bytes: n });
            proof {
                assert(pairs(last@)[i as int] == (last@[i as int].host@, last@[i as int].bytes));
                assert(pairs(r@) =~= pairs(was).push((last@[i as int].host@, n)));
                assert(all.take(i + 1) =~= all.take(i as int).push(all[i as int]));
            }
            i = i + 1;
        }
        assert(all.take(all.len() as int) =~= all);
        r
    }

    /// Where the next job may start early: on the idle hosts that did not
    /// refuse; where there are none, on connections lent by the busy ones.
    /// That all idle hosts refused is said once for each job.
    pub fn fleet(&mut self, shares: &Vec<HostShare>, refused: &Vec<String>) -> (r: Fleet)
        ensures
            final(self).win == old(self).win,
            final(self).cur == old(self).cur,
            final(self).attempted == old(self).attempted,
            ({
                let idle = hosts_of(shares@, false, refused.deep_view());
                &&& r.borrow == (idle.len() == 0)
                &&& r.hosts.deep_view() == if r.borrow {
                    hosts_of(shares@, true, refused.deep_view())
                } else {
                    idle
                }
                &&& r.note == (r.borrow && some_idle(shares@) && !old(self).refusal_noted)
                &&& final(self).refusal_noted == (old(self).refusal_noted || r.note)
            }),
    {
        let idle: Vec<String> = take_hosts(shares, false, refused);
        if idle.len() > 0 {
            return Fleet { hosts: idle, borrow: false, note: false };
        }
        let note: bool = any_idle(shares) && !self.refusal_noted;
        if note {
            self.refusal_noted = true;
        }
        Fleet { hosts: take_hosts(shares, true, refused), borrow: true, note }
    }

    /// Which job starts early: the first of the highest priority.
    pub fn next_job(&self, queue: &Vec<Job>) -> (r: Option<usize>)
        ensures
            is_early_pick(queue@, self.attempted.deep_view(), r),
    {
        let mut best: Option<usize> = None;
        let mut i: usize = 0;
        let ghost tried = self.attempted.deep_view();
        while i < queue.len()
            invariant
                i <= queue@.len(),
                tried == self.attempted.deep_view(),
                match best {
                    Some(b) => {
                        &&& b < i
                        &&& may_start_early(queue@[b as int], tried)
                        &&& forall|k: int|
                            0 <= k < i && may_start_early(#[trigger] queue@[k], tried)
                                ==> queue@[k].priority < queue@[b as int].priority || (
                            queue@[k].priority == queue@[b as int].priority && b <= k)
                    },
                    None => forall|k: int|
                        0 <= k < i ==> !may_start_early(#[trigger] queue@[k], tried),
                },
            decreases queue@.len() - i,
        {
            let j: &Job = &queue[i];
            if j.state == JobState::Queued && !j.paused && !j.deferred && !j.library && !listed(
                &self.attempted,
                j.nzo_id.as_str(),
            ) {
                let better: bool = match best {
                    Some(b) => j.priority > queue[b].priority,
                    None => true,
                };
                if better {
                    best = Some(i);
                }
            }
            i = i + 1;
        }
        best
    }

    /// Notes that a job was started early.
    pub fn tried(&mut self, nzo_id: &str)
        ensures
            final(self).attempted.deep_view() == old(self).attempted.deep_view().push(nzo_id@),
            final(self).win == old(self).win,
            final(self).cur == old(self).cur,
            final(self).refusal_noted == old(self).refusal_noted,
    {
        add_text(&mut self.attempted, nzo_id);
    }

    /// Moves a job to the back, for a reason.
    pub fn defer(&mut self, job: &mut Job, reason: &str)
        ensures
            final(job).defer_reason@ == reason@,
            *final(job) == (Job {
                demote: true,
                defer_reason: final(job).defer_reason,
                ..*old(job)
            }),
            final(self).win@.len() == 0,
            final(self).cur == old(self).cur,
            final(self).attempted == old(self).attempted,
            final(self).refusal_noted == old(self).refusal_noted,
    {
        job.demote = true;
        job.defer_reason = reason.to_owned();
        self.win.clear();
    }
}

/// A job that was started early is not started early again while the same
/// job is active.
pub proof fn a_job_is_tried_once(j: Job, attempted: Seq<Seq<char>>)
    ensures
        !may_start_early(j, attempted.push(j.nzo_id@)),
{
    assert(attempted.push(j.nzo_id@)[attempted.len() as int] == j.nzo_id@);
}

// ---- laws -----------------------------------------------------------------

/// A job is moved to the back only where it is slow, where one host moves
/// almost all of it, where the session has shown a megabyte a second, where it
/// gets something from two servers or more, where it was moved less than three
/// times, where no idle server works on the next job, and where another job
/// waits that is neither paused nor deferred.
pub proof fn a_job_is_moved_only_where_it_is_slow(
    total: u64,
    hosts: usize,
    defers: u32,
    sidecar: &Option<Sidecar>,
    queue: &Vec<Job>,
    narrow: bool,
    best: u64,
    slow: bool,
    r: bool,
)
    requires
        call_ensures(defer_due, (total, hosts, defers, sidecar, queue, narrow, best, slow), r),
    ensures
        !slow ==> !r,
        !narrow ==> !r,
        best < 1_000_000 ==> !r,
        total == 0 || hosts < 2 ==> !r,
        defers >= 3 ==> !r,
        *sidecar is Some && !sidecar->0.borrowed ==> !r,
        (forall|i: int|
            0 <= i < queue@.len() ==> (#[trigger] queue@[i]).state != JobState::Queued
                || queue@[i].paused || queue@[i].deferred) ==> !r,
{
}

/// Where all of that holds, it is moved.
pub proof fn a_slow_job_makes_way_for_another(
    total: u64,
    hosts: usize,
    defers: u32,
    sidecar: &Option<Sidecar>,
    queue: &Vec<Job>,
    narrow: bool,
    best: u64,
    slow: bool,
    r: bool,
    i: int,
)
    requires
        call_ensures(defer_due, (total, hosts, defers, sidecar, queue, narrow, best, slow), r),
        slow && narrow && best >= 1_000_000 && total > 0 && hosts >= 2 && defers < 3,
        *sidecar is None || sidecar->0.borrowed,
        0 <= i < queue@.len(),
        queue@[i].state == JobState::Queued && !queue@[i].paused && !queue@[i].deferred,
    ensures
        r,
{
}

/// The early start looks at a job that gets nothing, or that has a single
/// server, only at the job's own end; and at none before it has warmed up.
pub proof fn what_is_worth_a_look(
    total: u64,
    hosts: usize,
    tail: bool,
    ran_secs: u64,
    warmup: u64,
    r: bool,
)
    requires
        call_ensures(worth_a_look, (total, hosts, tail, ran_secs, warmup), r),
    ensures
        ran_secs < warmup ==> !r,
        !tail && total == 0 ==> !r,
        !tail && hosts < 2 ==> !r,
        tail && ran_secs >= warmup ==> r,
        total > 0 && hosts >= 2 && ran_secs >= warmup ==> r,
{
}

/// A job starts early exactly where that is switched on, the queue runs,
/// nothing counts against a quota, and no other has started early.
pub proof fn when_a_job_may_start_early(
    auto: bool,
    paused: bool,
    quota: u64,
    sidecar: bool,
    r: bool,
)
    requires
        call_ensures(may_prefetch, (auto, paused, quota, sidecar), r),
    ensures
        !auto ==> !r,
        paused ==> !r,
        quota > 0 ==> !r,
        sidecar ==> !r,
        auto && !paused && quota == 0 && !sidecar ==> r,
{
}

/// The watchdog looks six times in a window, but at least every five seconds
/// and at most every second.
pub proof fn how_often_the_watchdog_looks(window: u64, r: u64)
    requires
        call_ensures(tick_secs, (window,), r),
    ensures
        window < 12 ==> r == 1,
        12 <= window < 36 ==> 6 * r <= window < 6 * r + 6,
        window >= 36 ==> r == 5,
{
}

/// What leads to each step of a look: a job is judged only after the window
/// was long enough and worth a look, and after the early start had its turn.
pub proof fn what_leads_to_a_judgement(s: DogStep, f: DogFacts, r: DogStep)
    requires
        call_ensures(dog_next, (s, f), r),
    ensures
        r == DogStep::Observe <==> s == DogStep::Rest,
        r == DogStep::Enter <==> s == DogStep::Observe,
        r == DogStep::Sample <==> s == DogStep::Enter && f.entered,
        r == DogStep::Weigh <==> s == DogStep::Sample && f.sampled && f.long_enough,
        r == DogStep::Prefetch <==> s == DogStep::Weigh && f.worth,
        r == DogStep::Judge <==> s == DogStep::Prefetch,
        r == DogStep::Rest <==> s == DogStep::Judge || (s == DogStep::Enter && !f.entered) || (s
            == DogStep::Sample && !(f.sampled && f.long_enough)) || (s == DogStep::Weigh
            && !f.worth),
{
}

/// A run of looks: each step follows from the one before.
pub open spec fn is_watch(steps: Seq<DogStep>, facts: Seq<DogFacts>) -> bool {
    &&& steps.len() == facts.len() + 1
    &&& forall|i: int|
        0 <= i < facts.len() ==> steps[i + 1] == dog_after(steps[i], #[trigger] facts[i])
}

/// A job is judged at the sixth step of a look and not before, and only where
/// the look has entered, sampled, seen enough and found it worth while.
pub proof fn a_judgement_has_its_grounds(steps: Seq<DogStep>, facts: Seq<DogFacts>, n: int)
    requires
        is_watch(steps, facts),
        0 <= n < 7 && n < steps.len(),
        steps[0] == DogStep::Rest,
        steps[n] == DogStep::Judge,
    ensures
        n == 6,
        steps[1] == DogStep::Observe,
        facts[2].entered,
        facts[3].sampled && facts[3].long_enough,
        facts[4].worth,
        steps[5] == DogStep::Prefetch,
{
    assert(n >= 1 ==> steps[1] == dog_after(steps[0], facts[0]));
    assert(n >= 2 ==> steps[2] == dog_after(steps[1], facts[1]));
    assert(n >= 3 ==> steps[3] == dog_after(steps[2], facts[2]));
    assert(n >= 4 ==> steps[4] == dog_after(steps[3], facts[3]));
    assert(n >= 5 ==> steps[5] == dog_after(steps[4], facts[4]));
    assert(n >= 6 ==> steps[6] == dog_after(steps[5], facts[5]));
}

/// A server that refuses is remembered with what it said and when; one that
/// is connected or has moved bytes is forgotten; any other, and a host that is
/// not among the servers, is remembered as before.
pub proof fn a_refusal_is_kept_until_the_server_serves(
    servers: Seq<ServerLive>,
    s: ServerLive,
    host: Seq<char>,
    before: Option<(bool, Seq<char>, i64)>,
    now: i64,
)
    ensures
        s.refusal is Some ==> refusal_of(servers.push(s), s.host@, before, now) == Some(
            (s.refusal->0.permanent, s.refusal->0.line@, now),
        ),
        s.refusal is None && (s.connected > 0 || s.bytes > 0) ==> refusal_of(
            servers.push(s),
            s.host@,
            before,
            now,
        ) is None,
        s.refusal is None && s.connected == 0 && s.bytes == 0 ==> refusal_of(
            servers.push(s),
            host,
            before,
            now,
        ) == refusal_of(servers, host, before, now),
        s.host@ != host ==> refusal_of(servers.push(s), host, before, now) == refusal_of(
            servers,
            host,
            before,
            now,
        ),
        refusal_of(Seq::empty(), host, before, now) == before,
{
    assert(servers.push(s).drop_last() =~= servers);
    assert(servers.push(s).last() == s);
}

/// A stall is shown from when it opened on for the job that it is of, until
/// the next event takes it away; without an event nothing changes.
pub proof fn a_stall_is_shown_until_it_is_over(
    ev: &Option<StallEvent>,
    id: Option<String>,
    was: Option<(String, u64)>,
    r: Option<(String, u64)>,
)
    requires
        call_ensures(stall_mark, (ev, id, was), r),
    ensures
        *ev is None ==> r == was,
        r is Some && r != was ==> *ev is Some && ev->0 is Opened && id is Some,
        *ev is Some && ev->0 is Opened && id is Some ==> r == Some((id->0, ev->0->since)),
        *ev is Some && (id is None || !(ev->0 is Opened)) ==> r is None,
{
}

/// What is left of a window is its end, and nothing of it is older than the
/// window; what was dropped was.
pub proof fn a_window_keeps_what_is_recent(win: Seq<Sample>, now: u64, window: u64)
    ensures
        recent(win, now, window).len() <= win.len(),
        recent(win, now, window) == win.skip(win.len() - recent(win, now, window).len()),
        recent(win, now, window).len() > 0 ==> now - recent(win, now, window)[0].at
            < 1_000_000_000 * (window + 1),
        forall|i: int|
            0 <= i < win.len() - recent(win, now, window).len() ==> now - (#[trigger] win[i]).at
                >= 1_000_000_000 * (window + 1),
    decreases win.len(),
{
    if win.len() > 0 {
        let age = now - win[0].at;
        if age_secs(win[0], now) > window {
            a_window_keeps_what_is_recent(win.skip(1), now, window);
            let left = recent(win.skip(1), now, window);
            assert(recent(win, now, window) == left);
            assert(win.skip(1).skip(win.skip(1).len() - left.len()) =~= win.skip(
                win.len() - left.len(),
            ));
            assert forall|i: int| 0 <= i < win.len() - left.len() implies now - (
            #[trigger] win[i]).at >= 1_000_000_000 * (window + 1) by {
                if i > 0 {
                    assert(win[i] == win.skip(1)[i - 1]);
                }
            }
        } else {
            assert(win.skip(0) =~= win);
        }
    } else {
        assert(win.skip(0) =~= win);
    }
}

/// What a host has moved is what it moved since the first sample, and all of
/// it where it was not there yet; a counter that went back moved nothing.
pub proof fn what_each_host_has_moved(
    first: Seq<(Seq<char>, u64)>,
    last: Seq<(Seq<char>, u64)>,
    i: int,
)
    requires
        0 <= i < last.len(),
    ensures
        moved(first, last).len() == last.len(),
        moved(first, last)[i].0 == last[i].0,
        (forall|k: int| 0 <= k < first.len() ==> (#[trigger] first[k]).0 != last[i].0)
            ==> moved(first, last)[i].1 == last[i].1,
        first.len() > 0 && first.last().0 == last[i].0 && first.last().1 <= last[i].1
            ==> moved(first, last)[i].1 == last[i].1 - first.last().1,
        first.len() > 0 && first.last().0 == last[i].0 && first.last().1 > last[i].1
            ==> moved(first, last)[i].1 == 0,
{
    if forall|k: int| 0 <= k < first.len() ==> (#[trigger] first[k]).0 != last[i].0 {
        a_host_not_listed_had_moved_nothing(first, last[i].0);
    }
}

proof fn a_host_not_listed_had_moved_nothing(first: Seq<(Seq<char>, u64)>, host: Seq<char>)
    requires
        forall|k: int| 0 <= k < first.len() ==> (#[trigger] first[k]).0 != host,
    ensures
        base_of(first, host) == 0,
    decreases first.len(),
{
    if first.len() > 0 {
        assert(first.last() == first[first.len() - 1]);
        assert forall|k: int| 0 <= k < first.drop_last().len() implies (
        #[trigger] first.drop_last()[k]).0 != host by {
            assert(first.drop_last()[k] == first[k]);
        }
        a_host_not_listed_had_moved_nothing(first.drop_last(), host);
    }
}

/// Bytes add up: those of a list and those of one more server.
pub proof fn bytes_add_up(
    servers: Seq<ServerLive>,
    s: ServerLive,
    d: Seq<(Seq<char>, u64)>,
    p: (Seq<char>, u64),
)
    ensures
        bytes_of(Seq::empty()) == 0,
        bytes_of(servers.push(s)) == bytes_of(servers) + s.bytes,
        sum_of(Seq::empty()) == 0,
        sum_of(d.push(p)) == sum_of(d) + p.1,
{
    assert(servers.push(s).drop_last() =~= servers);
    assert(d.push(p).drop_last() =~= d);
}

proof fn hosts_are_shares(
    shares: Seq<HostShare>,
    busy: bool,
    refused: Seq<Seq<char>>,
    host: Seq<char>,
)
    ensures
        hosts_of(shares, busy, refused).contains(host) <==> (!refused.contains(host) && exists|
            i: int,
        | 0 <= i < shares.len() && (#[trigger] shares[i]).busy == busy && shares[i].host@ == host),
    decreases shares.len(),
{
    if shares.len() > 0 {
        let rest = shares.drop_last();
        let last = shares.last();
        let n = shares.len() - 1;
        hosts_are_shares(rest, busy, refused, host);
        let before = hosts_of(rest, busy, refused);
        assert(forall|i: int| 0 <= i < n ==> #[trigger] shares[i] == rest[i]);
        assert(shares[n] == last);
        if last.busy == busy && !refused.contains(last.host@) {
            let all = before.push(last.host@);
            assert(all[before.len() as int] == last.host@);
            if before.contains(host) {
                let k = choose|k: int| 0 <= k < before.len() && before[k] == host;
                assert(all[k] == host);
            }
            if all.contains(host) && last.host@ != host {
                let k = choose|k: int| 0 <= k < all.len() && all[k] == host;
                assert(before[k] == host);
            }
        }
        if exists|i: int| 0 <= i < shares.len() && (#[trigger] shares[i]).busy == busy
            && shares[i].host@ == host {
            let i = choose|i: int| 0 <= i < shares.len() && (#[trigger] shares[i]).busy == busy
                && shares[i].host@ == host;
            if i < n {
                assert(rest[i] == shares[i]);
            }
        }
        if exists|i: int| 0 <= i < rest.len() && (#[trigger] rest[i]).busy == busy
            && rest[i].host@ == host {
            let i = choose|i: int| 0 <= i < rest.len() && (#[trigger] rest[i]).busy == busy
                && rest[i].host@ == host;
            assert(shares[i] == rest[i]);
        }
    }
}

/// The next job starts early on every idle host that did not refuse and on no
/// other; connections are borrowed only where there is no such host, and then
/// from the busy hosts that did not refuse. A host that refused is never
/// asked.
pub proof fn a_job_starts_early_on_idle_hosts(
    w: &mut Watchdog,
    shares: &Vec<HostShare>,
    refused: &Vec<String>,
    r: Fleet,
    host: Seq<char>,
)
    requires
        call_ensures(Watchdog::fleet, (w, shares, refused), r),
    ensures
        refused.deep_view().contains(host) ==> !r.hosts.deep_view().contains(host),
        r.borrow <==> forall|i: int|
            0 <= i < shares@.len() ==> (#[trigger] shares@[i]).busy || refused.deep_view().contains(
                shares@[i].host@,
            ),
        r.hosts.deep_view().contains(host) ==> exists|i: int|
            0 <= i < shares@.len() && (#[trigger] shares@[i]).busy == r.borrow && shares@[i].host@
                == host,
        forall|i: int|
            0 <= i < shares@.len() && (#[trigger] shares@[i]).busy == r.borrow
                && !refused.deep_view().contains(shares@[i].host@)
                ==> r.hosts.deep_view().contains(shares@[i].host@),
        r.note ==> r.borrow && !old(w).refusal_noted && final(w).refusal_noted,
        old(w).refusal_noted ==> !r.note && final(w).refusal_noted,
        !r.borrow ==> !r.note,
{
    let no = refused.deep_view();
    let idle = hosts_of(shares@, false, no);
    hosts_are_shares(shares@, r.borrow, no, host);
    if idle.len() == 0 {
        assert forall|i: int| 0 <= i < shares@.len() implies (#[trigger] shares@[i]).busy
            || no.contains(shares@[i].host@) by {
            hosts_are_shares(shares@, false, no, shares@[i].host@);
        }
    } else {
        hosts_are_shares(shares@, false, no, idle[0]);
        assert(idle.contains(idle[0]));
    }
    assert forall|i: int|
        0 <= i < shares@.len() && (#[trigger] shares@[i]).busy == r.borrow && !no.contains(
            shares@[i].host@,
        ) implies r.hosts.deep_view().contains(shares@[i].host@) by {
        hosts_are_shares(shares@, r.borrow, no, shares@[i].host@);
    }
}

/// The job that starts early waits, is neither held nor deferred nor a
/// pointer, was not tried yet, and no such job goes before it: none has a
/// higher priority, and none of its own priority stands further ahead.
pub proof fn which_job_starts_early(w: &Watchdog, queue: &Vec<Job>, r: Option<usize>, k: int)
    requires
        call_ensures(Watchdog::next_job, (w, queue), r),
        0 <= k < queue@.len(),
    ensures
        r is Some ==> r->0 < queue@.len() && queue@[r->0 as int].state == JobState::Queued
            && !queue@[r->0 as int].paused && !queue@[r->0 as int].deferred
            && !queue@[r->0 as int].library && !w.attempted.deep_view().contains(
            queue@[r->0 as int].nzo_id@,
        ),
        queue@[k].state == JobState::Queued && !queue@[k].paused && !queue@[k].deferred
            && !queue@[k].library && !w.attempted.deep_view().contains(queue@[k].nzo_id@)
            ==> r is Some && queue@[k].priority <= queue@[r->0 as int].priority && (
        queue@[k].priority == queue@[r->0 as int].priority ==> r->0 <= k),
{
    let j = queue@[k];
    if j.state == JobState::Queued && !j.paused && !j.deferred && !j.library
        && !w.attempted.deep_view().contains(j.nzo_id@) {
        assert(may_start_early(queue@[k], w.attempted.deep_view()));
        assert(r is Some);
        assert(queue@[k].priority < queue@[r->0 as int].priority || (queue@[k].priority
            == queue@[r->0 as int].priority && r->0 <= k));
    }
}

/// A job that was moved to the back is marked with the reason, and the watch
/// starts over.
pub proof fn a_moved_job_says_why(w: &mut Watchdog, job: &mut Job, reason: &str, r: ())
    requires
        call_ensures(Watchdog::defer, (w, job, reason), r),
    ensures
        final(job).demote,
        final(job).defer_reason@ == reason@,
        final(job).nzo_id == old(job).nzo_id && final(job).state == old(job).state
            && final(job).priority == old(job).priority,
        final(w).win@.len() == 0,
        final(w).cur == old(w).cur,
{
}

/// What a report says of a server: that it refused, or how many connections
/// it has.
pub proof fn a_report_names_each_server(s: ServerLive, t: ServerLive)
    ensures
        s.refusal is Some ==> states_of(seq![s]) == s.host@ + " refused"@,
        s.refusal is None ==> states_of(seq![s]) == s.host@ + " "@ + decimal(s.connected as int)
            + " conn"@,
        states_of(seq![s, t]) == states_of(seq![s]) + ", "@ + states_of(seq![t]),
        states_of(Seq::empty()) == "pool not up yet"@,
{
    let f = |s: ServerLive| state_word(s);
    assert(seq![s].map_values(f) =~= seq![state_word(s)]);
    assert(seq![t].map_values(f) =~= seq![state_word(t)]);
    assert(seq![s, t].map_values(f) =~= seq![state_word(s), state_word(t)]);
    reveal_with_fuel(joined, 3);
    assert(seq![state_word(s), state_word(t)].drop_last() =~= seq![state_word(s)]);
    assert(seq![state_word(s), state_word(t)].drop_first() =~= seq![state_word(t)]);
}

/// A look is at the job that owns the pool and downloads, and at none that is
/// being moved already; at none at all while neither deferring nor starting
/// early is wanted, or while nothing has started.
pub proof fn which_job_a_look_is_at(
    w: &mut Watchdog,
    wanted: bool,
    started: bool,
    active: Option<&str>,
    queue: &Vec<Job>,
    r: Option<usize>,
)
    requires
        call_ensures(Watchdog::enter, (w, wanted, started, active, queue), r),
    ensures
        !wanted || !started || active is None ==> r is None,
        r is Some ==> r->0 < queue@.len() && queue@[r->0 as int].nzo_id@ == active->0@
            && queue@[r->0 as int].state == JobState::Downloading && !queue@[r->0 as int].demote,
        r is Some && old(w).cur.deep_view() == Some(active->0@) ==> *final(w) == *old(w),
        r is Some && old(w).cur.deep_view() != Some(active->0@) ==> final(w).win@.len() == 0
            && final(w).attempted@.len() == 0 && !final(w).refusal_noted,
        r is Some ==> final(w).cur.deep_view() == Some(active->0@),
        wanted && started && active is Some && queue@.len() == 1 && queue@[0].nzo_id@ == active->0@
            && queue@[0].state == JobState::Downloading && !queue@[0].demote ==> r == Some(0usize),
{
    if queue@.len() == 1 && active is Some {
        assert(runs_as(queue@[0], active->0@) == (queue@[0].nzo_id@ == active->0@
            && queue@[0].state == JobState::Downloading));
    }
}

/// The bytes of a job are watched only while it owns the pool, downloads and
/// is not suspended.
pub proof fn whose_bytes_are_watched(
    queue: &Vec<Job>,
    started: bool,
    active: Option<&str>,
    r: Option<usize>,
)
    requires
        call_ensures(observed, (queue, started, active), r),
    ensures
        !started || active is None ==> r is None,
        r is Some ==> r->0 < queue@.len() && queue@[r->0 as int].nzo_id@ == active->0@
            && queue@[r->0 as int].state == JobState::Downloading && !queue@[r->0 as int].suspended,
        started && active is Some && queue@.len() == 1 && queue@[0].nzo_id@ == active->0@
            && queue@[0].state == JobState::Downloading && !queue@[0].suspended ==> r == Some(
            0usize,
        ),
{
    if queue@.len() == 1 && active is Some {
        assert(runs_as(queue@[0], active->0@) == (queue@[0].nzo_id@ == active->0@
            && queue@[0].state == JobState::Downloading));
    }
}

/// A sample is taken exactly where the pool is up; it is the last of the
/// window, and nothing else of the watch changes.
pub proof fn a_pool_that_is_up_is_sampled(
    w: &mut Watchdog,
    now: u64,
    hosts: Vec<HostBytes>,
    window: u64,
    r: bool,
)
    requires
        call_ensures(Watchdog::sample, (w, now, hosts, window), r),
    ensures
        r <==> hosts@.len() > 0,
        !r ==> *final(w) == *old(w),
        r ==> final(w).win@.len() > 0 && final(w).win@.last() == (Sample { at: now, hosts })
            && final(w).win@.len() <= old(w).win@.len() + 1,
        final(w).cur == old(w).cur && final(w).attempted == old(w).attempted,
{
    let all = old(w).win@.push(Sample { at: now, hosts });
    a_window_keeps_what_is_recent(all, now, window);
}

/// A job that was tried is noted, and nothing else changes.
pub proof fn which_jobs_were_tried(p: &mut Watchdog, nzo_id: &str, r: ())
    requires
        call_ensures(Watchdog::tried, (p, nzo_id), r),
    ensures
        final(p).attempted.deep_view() == old(p).attempted.deep_view().push(nzo_id@),
        final(p).win == old(p).win && final(p).cur == old(p).cur && final(p).refusal_noted
            == old(p).refusal_noted,
{
}

} // verus!
