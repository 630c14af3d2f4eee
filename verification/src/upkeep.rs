//! The small loops beside the queue: giving memory back, following the
//! round-trip time, keeping the group catalogue fresh, benchmarks on a
//! schedule, and when the watchlist is looked at.
use vstd::prelude::*;

use crate::stall::SECOND;
use crate::text::{parse_u64, parsed_u64};
use crate::value::{text_field, u64_field, Json, Value};

verus! {

// ---- what the environment sets ------------------------------------------------------

/// The number that the environment sets, or a default, at least `min`.
pub open spec fn tuned_of(set: Option<Seq<char>>, default: u64, min: u64) -> int {
    let n = match set {
        Some(s) => match parsed_u64(s) {
            Some(n) => n,
            None => default as int,
        },
        None => default as int,
    };
    if n < min {
        min as int
    } else {
        n
    }
}

/// The number that the environment sets, or a default, at least `min`.
pub fn tuned(set: Option<&str>, default: u64, min: u64) -> (r: u64)
    ensures
        r == tuned_of(
            match set {
                Some(s) => Some(s@),
                None => None,
            },
            default,
            min,
        ),
{
    let n: u64 = match set {
        Some(s) => match parse_u64(s) {
            Some(n) => n,
            None => default,
        },
        None => default,
    };
    if n < min {
        min
    } else {
        n
    }
}

/// How often a video's header is looked at, in milliseconds.
pub fn media_tick(set: Option<&str>) -> (r: u64)
    ensures
        r == tuned_of(
            match set {
                Some(s) => Some(s@),
                None => None,
            },
            5_000,
            50,
        ),
{
    tuned(set, 5_000, 50)
}

// ---- memory -------------------------------------------------------------------------

/// Since when nothing downloads, and whether memory was given back since.
#[derive(Clone, Copy, PartialEq, Eq, Structural, Debug)]
pub struct Trim {
    /// In nanoseconds.
    pub idle_since: Option<u64>,
    pub trimmed: bool,
}

impl Trim {
    /// What a tick makes of it, and whether memory is given back.
    pub open spec fn after(self, running: bool, now: u64) -> (Trim, bool) {
        if running {
            (Trim { idle_since: None, trimmed: false }, false)
        } else {
            let since = match self.idle_since {
                Some(t) => t,
                None => now,
            };
            let go = !self.trimmed && now >= since && now - since >= 60 * SECOND;
            (Trim { idle_since: Some(since), trimmed: self.trimmed || go }, go)
        }
    }

    /// Nothing to give back before the first job.
    pub fn new() -> (r: Trim)
        ensures
            r == (Trim { idle_since: None, trimmed: true }),
    {
        Trim { idle_since: None, trimmed: true }
    }

    /// Whether memory is given back now: once, when nothing has run for a
    /// minute after a download.
    pub fn step(&mut self, running: bool, now: u64) -> (r: bool)
        ensures
            (*final(self), r) == old(self).after(running, now),
    {
        if running {
            self.idle_since = None;
            self.trimmed = false;
            return false;
        }
        let since: u64 = match self.idle_since {
            Some(t) => t,
            None => now,
        };
        self.idle_since = Some(since);
        if !self.trimmed && now >= since && now - since >= 60 * SECOND {
            self.trimmed = true;
            return true;
        }
        false
    }
}

/// Memory is given back once for each time that nothing runs, and never while
/// something does.
pub proof fn memory_is_given_back_once(t: Trim, running: bool, now: u64, later: u64)
    ensures
        running ==> !t.after(running, now).1,
        t.after(running, now).1 ==> !t.after(running, now).0.after(false, later).1,
        !t.trimmed || running || !t.after(running, now).1,
{
}

/// Whether giving memory back is worth a word: 64 MiB and more.
pub fn trim_worth_saying(before: u64, after: u64) -> (r: bool)
    ensures
        r == (before >= after + 67_108_864),
{
    before >= after && before - after >= 67_108_864
}

// ---- the round-trip time ----------------------------------------------------------

/// A round trip: when, in nanoseconds, and how long, in milliseconds.
#[derive(Clone, Copy, PartialEq, Eq, Structural, Debug)]
pub struct Trip {
    pub at: u64,
    pub rtt: u64,
}

/// For how long a round trip counts, in seconds.
pub const TRIP_WINDOW: u64 = 600;

/// How many whole seconds ago a round trip was.
pub open spec fn trip_age(t: Trip, now: u64) -> int {
    if now >= t.at {
        (now - t.at) / (SECOND as int)
    } else {
        0
    }
}

/// The round trips without those at the front that no longer count.
pub open spec fn counting(trips: Seq<Trip>, now: u64) -> Seq<Trip>
    decreases trips.len(),
{
    if trips.len() > 0 && trip_age(trips[0], now) > TRIP_WINDOW {
        counting(trips.skip(1), now)
    } else {
        trips
    }
}

/// Takes a round trip in, and gives the shortest that counts: what the line
/// does when nothing waits.
pub fn base_rtt(trips: &mut Vec<Trip>, now: u64, rtt: u64) -> (r: u64)
    ensures
        final(trips)@ == counting(old(trips)@.push(Trip { at: now, rtt }), now),
        final(trips)@.len() > 0,
        forall|i: int| 0 <= i < final(trips)@.len() ==> r <= (#[trigger] final(trips)@[i]).rtt,
        exists|i: int| 0 <= i < final(trips)@.len() && (#[trigger] final(trips)@[i]).rtt == r,
{
    trips.push(Trip { at: now, rtt });
    let ghost all = trips@;
    while trips.len() > 0 && trip_old(trips[0], now)
        invariant
            counting(all, now) == counting(trips@, now),
            trips@.len() > 0,
            trips@.last().at == now,
        decreases trips@.len(),
    {
        let ghost was = trips@;
        let _gone: Trip = trips.remove(0);
        proof {
            assert(trips@ =~= was.skip(1));
            if was.len() == 1 {
                assert(was[0].at == now);
            }
        }
    }
    let mut best: u64 = trips[0].rtt;
    let mut i: usize = 1;
    while i < trips.len()
        invariant
            1 <= i <= trips@.len(),
            forall|k: int| 0 <= k < i ==> best <= (#[trigger] trips@[k]).rtt,
            exists|k: int| 0 <= k < i && (#[trigger] trips@[k]).rtt == best,
        decreases trips@.len() - i,
    {
        if trips[i].rtt < best {
            best = trips[i].rtt;
            assert(trips@[i as int].rtt == best);
        }
        i = i + 1;
    }
    best
}

fn trip_old(t: Trip, now: u64) -> (r: bool)
    ensures
        r == (trip_age(t, now) > TRIP_WINDOW),
{
    let age: u64 = if now >= t.at {
        (now - t.at) / SECOND
    } else {
        0
    };
    age > TRIP_WINDOW
}

/// How much longer round trips take than they would if nothing waited.
pub fn queueing_delay(smoothed: u64, base: u64) -> (r: u64)
    ensures
        r == (if smoothed > base {
            smoothed - base
        } else {
            0
        }),
{
    if smoothed > base {
        smoothed - base
    } else {
        0
    }
}

/// How long a round trip took: a millisecond at least.
pub fn trip_ms(elapsed: u64) -> (r: u64)
    ensures
        r == (if elapsed == 0 {
            1
        } else {
            elapsed
        }),
{
    if elapsed == 0 {
        1
    } else {
        elapsed
    }
}

/// What came of asking the first server for the time.
#[derive(Clone, Copy, PartialEq, Eq, Structural, Debug)]
pub enum Asked {
    /// Nobody wants the speed to be governed.
    Off,
    /// The same, and the connection was open until now.
    HungUp,
    NoServer,
    NoConnection,
    /// The connection did not answer.
    Lost,
    /// The round trips of late, and the shortest, in milliseconds.
    Answered { smoothed: u64, base: u64 },
}

/// What follows: the delay to step the speed for, and seconds of rest.
#[derive(Clone, Copy, PartialEq, Eq, Structural, Debug)]
pub struct SpeedTick {
    pub step: Option<u64>,
    pub nap: u64,
}

/// What follows. The speed moves while something downloads; a connection that
/// does not answer under our own load is the longest delay there is.
pub open spec fn speed_tick_of(asked: Asked, downloading: bool) -> SpeedTick {
    match asked {
        Asked::Off => SpeedTick { step: None, nap: 5 },
        Asked::HungUp => SpeedTick { step: None, nap: 2 },
        Asked::NoServer => SpeedTick { step: None, nap: 30 },
        Asked::NoConnection => SpeedTick { step: None, nap: 5 },
        Asked::Lost => SpeedTick {
            step: if downloading {
                Some(u64::MAX)
            } else {
                None
            },
            nap: 2,
        },
        Asked::Answered { smoothed, base } => SpeedTick {
            step: if downloading {
                Some(
                    if smoothed > base {
                        (smoothed - base) as u64
                    } else {
                        0
                    },
                )
            } else {
                None
            },
            nap: 1,
        },
    }
}

/// What follows an answer, or the want of one.
pub fn speed_tick(asked: Asked, downloading: bool) -> (r: SpeedTick)
    ensures
        r == speed_tick_of(asked, downloading),
{
    match asked {
        Asked::Off => SpeedTick { step: None, nap: 5 },
        Asked::HungUp => SpeedTick { step: None, nap: 2 },
        Asked::NoServer => SpeedTick { step: None, nap: 30 },
        Asked::NoConnection => SpeedTick { step: None, nap: 5 },
        Asked::Lost => SpeedTick {
            step: if downloading {
                Some(u64::MAX)
            } else {
                None
            },
            nap: 2,
        },
        Asked::Answered { smoothed, base } => SpeedTick {
            step: if downloading {
                Some(queueing_delay(smoothed, base))
            } else {
                None
            },
            nap: 1,
        },
    }
}

/// The speed is left alone while nothing downloads, and while nobody asked for
/// it to be governed.
pub proof fn an_idle_line_is_not_governed(asked: Asked, downloading: bool)
    ensures
        !downloading ==> speed_tick_of(asked, downloading).step is None,
        asked is Off || asked is HungUp ==> speed_tick_of(asked, downloading).step is None,
{
}

// ---- the group catalogue ------------------------------------------------------------

/// What a tick of the catalogue does.
#[derive(Clone, Copy, PartialEq, Eq, Structural, Debug)]
pub struct CatalogTick {
    /// Fetch the list of groups.
    pub fetch: bool,
    /// Sample the busiest groups.
    pub sample: bool,
    /// Clear the spool of files that belong to nothing.
    pub sweep: bool,
    /// Seconds to the next tick.
    pub nap: u64,
}

/// What a tick of the catalogue does. The list is fetched where there is none
/// and once a day; nothing is asked of a server while the indexer is off. The
/// spool is cleared every hour, but not during the first burst of samples.
pub fn catalog_tick(indexing: bool, age: Option<i64>, bursting: bool, burst_nap: u64) -> (r:
    CatalogTick)
    ensures
        r == (CatalogTick {
            fetch: indexing && (age is None || age->0 >= 86_400),
            sample: indexing,
            sweep: !(indexing && bursting),
            nap: if indexing && bursting {
                burst_nap
            } else {
                3_600
            },
        }),
{
    let old: bool = match age {
        Some(a) => a >= 86_400,
        None => true,
    };
    let burst: bool = indexing && bursting;
    CatalogTick {
        fetch: indexing && old,
        sample: indexing,
        sweep: !burst,
        nap: if burst {
            burst_nap
        } else {
            3_600
        },
    }
}

// ---- benchmarks ---------------------------------------------------------------------

/// Whether a benchmark runs now: where an interval is set, it is over, and
/// nothing downloads.
pub fn bench_due(hours: u64, now: u64, last: u64, downloading: bool) -> (r: bool)
    ensures
        r == (hours > 0 && !downloading && (if now > last {
            now - last
        } else {
            0
        }) >= hours * 3_600),
{
    if hours == 0 || downloading {
        return false;
    }
    let ago: u64 = if now > last {
        now - last
    } else {
        0
    };
    (ago as u128) >= (hours as u128) * 3_600
}

/// When the last benchmark of a history ran.
pub open spec fn last_bench_of(history: Seq<Value>) -> Option<u64> {
    if history.len() == 0 {
        None
    } else {
        u64_field(history.last()@, "ts"@)
    }
}

/// When the last benchmark of a history ran.
pub fn last_bench(history: &Vec<Value>) -> (r: Option<u64>)
    ensures
        r == last_bench_of(history@),
{
    if history.len() == 0 {
        None
    } else {
        history[history.len() - 1].get_u64("ts")
    }
}

// ---- updates ------------------------------------------------------------------------

/// The version that a manifest announces.
pub open spec fn version_of(manifest: Json) -> Seq<char> {
    match text_field(manifest, "version"@) {
        Some(v) => v,
        None => "?"@,
    }
}

/// The version that a manifest announces.
pub fn announced_version(manifest: &Value) -> (r: String)
    ensures
        r@ == version_of(manifest@),
{
    match manifest.get_text("version") {
        Some(v) => v,
        None => "?".to_owned(),
    }
}

// ---- the watchlist --------------------------------------------------------------------

/// What a pass of the watchlist asks.
#[derive(Clone, Copy, PartialEq, Eq, Structural, Debug)]
pub struct WatchPass {
    pub runs: bool,
    /// Refresh the calendar, which keeps its lists in the index.
    pub calendar: bool,
}

/// What a pass of the watchlist asks: it runs while either the index or the
/// user's accounts elsewhere can be asked.
pub fn watchlist_pass(indexer_off: bool, external: bool) -> (r: WatchPass)
    ensures
        r == (WatchPass { runs: !indexer_off || external, calendar: !indexer_off }),
{
    WatchPass { runs: !indexer_off || external, calendar: !indexer_off }
}

/// Where the wall gets its facts from.
pub open spec fn sources_of(tmdb: bool, omdb: bool) -> Seq<char> {
    if tmdb {
        "TMDB"@
    } else if omdb {
        "TVmaze + OMDb + Wikidata/Wikipedia + AniList"@
    } else {
        "TVmaze + Wikidata/Wikipedia + AniList (keyless)"@
    }
}

/// Where the wall gets its facts from.
pub fn enrichment_sources(tmdb: bool, omdb: bool) -> (r: &'static str)
    ensures
        r@ == sources_of(tmdb, omdb),
{
    if tmdb {
        "TMDB"
    } else if omdb {
        "TVmaze + OMDb + Wikidata/Wikipedia + AniList"
    } else {
        "TVmaze + Wikidata/Wikipedia + AniList (keyless)"
    }
}

// ---- laws -----------------------------------------------------------------

/// The environment counts where it sets a number, else the default; never less
/// than the least.
pub proof fn what_the_environment_sets(set: Option<&str>, default: u64, min: u64, r: u64)
    requires
        call_ensures(tuned, (set, default, min), r),
    ensures
        r >= min,
        set is None && default >= min ==> r == default,
        set is Some && parsed_u64(set->0@) is None && default >= min ==> r == default,
        set is Some && parsed_u64(set->0@) is Some && parsed_u64(set->0@)->0 >= min ==> r
            == parsed_u64(set->0@)->0,
        set is Some && parsed_u64(set->0@) is Some && parsed_u64(set->0@)->0 < min ==> r == min,
{
}

/// A header is looked at every five seconds unless the environment says
/// otherwise, and twenty times a second at the most.
pub proof fn how_often_headers_are_looked_at(set: Option<&str>, r: u64)
    requires
        call_ensures(media_tick, (set,), r),
    ensures
        r >= 50,
        set is None ==> r == 5_000,
        set is Some && parsed_u64(set->0@) is None ==> r == 5_000,
        set is Some && parsed_u64(set->0@) is Some && parsed_u64(set->0@)->0 >= 50 ==> r
            == parsed_u64(set->0@)->0,
{
}

/// Memory is given back exactly where nothing runs, nothing has run for a
/// minute, and it was not given back since.
pub proof fn when_memory_is_given_back(t: &mut Trim, running: bool, now: u64, r: bool)
    requires
        call_ensures(Trim::step, (t, running, now), r),
    ensures
        r <==> !running && !old(t).trimmed && old(t).idle_since is Some && now
            - old(t).idle_since->0 >= 60_000_000_000,
        running ==> final(t).idle_since is None && !final(t).trimmed,
        !running ==> (final(t).trimmed <==> old(t).trimmed || r),
        !running && old(t).idle_since is Some ==> final(t).idle_since == old(t).idle_since,
        !running && old(t).idle_since is None ==> final(t).idle_since == Some(now),
{
}

/// Giving back 64 MiB is worth a word, less is not.
pub proof fn when_giving_back_is_worth_a_word(before: u64, after: u64, r: bool)
    requires
        call_ensures(trim_worth_saying, (before, after), r),
    ensures
        r <==> before - after >= 64 * 1024 * 1024,
{
}

/// The round trips that count are the end of those that were taken: the first
/// of them is no older than ten minutes, and what was dropped was.
pub proof fn which_round_trips_count(trips: Seq<Trip>, now: u64)
    ensures
        counting(trips, now).len() <= trips.len(),
        counting(trips, now) == trips.skip(trips.len() - counting(trips, now).len()),
        counting(trips, now).len() > 0 ==> now - counting(trips, now)[0].at < 601_000_000_000,
        forall|i: int|
            0 <= i < trips.len() - counting(trips, now).len() ==> now - (#[trigger] trips[i]).at
                >= 601_000_000_000,
    decreases trips.len(),
{
    if trips.len() > 0 && trip_age(trips[0], now) > TRIP_WINDOW {
        let rest = trips.skip(1);
        which_round_trips_count(rest, now);
        let left = counting(rest, now);
        assert(rest.skip(rest.len() - left.len()) =~= trips.skip(trips.len() - left.len()));
        assert forall|i: int| 0 <= i < trips.len() - left.len() implies now - (#[trigger] trips[i]).at
            >= 601_000_000_000 by {
            if i > 0 {
                assert(trips[i] == rest[i - 1]);
            }
        }
    } else {
        assert(trips.skip(0) =~= trips);
    }
}

/// The delay is how much longer round trips take than the shortest.
pub proof fn how_long_round_trips_wait(smoothed: u64, base: u64, r: u64)
    requires
        call_ensures(queueing_delay, (smoothed, base), r),
    ensures
        smoothed <= base ==> r == 0,
        smoothed > base ==> base + r == smoothed,
{
}

/// A round trip takes a millisecond at least.
pub proof fn a_round_trip_takes_a_millisecond(elapsed: u64, r: u64)
    requires
        call_ensures(trip_ms, (elapsed,), r),
    ensures
        r >= 1,
        elapsed >= 1 ==> r == elapsed,
{
}

/// The speed moves only while something downloads and the server was asked: by
/// the delay where it answered, and by the longest there is where it did not.
/// It is asked again after a second where it answered.
pub proof fn when_the_speed_moves(asked: Asked, downloading: bool, r: SpeedTick)
    requires
        call_ensures(speed_tick, (asked, downloading), r),
    ensures
        r.step is Some <==> downloading && (asked is Lost || asked is Answered),
        downloading && asked is Lost ==> r.step == Some(u64::MAX),
        downloading && asked is Answered && asked->smoothed >= asked->base ==> r.step == Some(
            (asked->smoothed - asked->base) as u64,
        ),
        downloading && asked is Answered && asked->smoothed < asked->base ==> r.step == Some(0u64),
        r.nap == 1 <==> asked is Answered,
        r.nap == 2 <==> asked is Lost || asked is HungUp,
        r.nap == 5 <==> asked is Off || asked is NoConnection,
        r.nap == 30 <==> asked is NoServer,
{
}

/// The list of groups is fetched only while the indexer is on, where there is
/// none or it is a day old; the spool is cleared every hour but in a burst of
/// samples.
pub proof fn what_a_tick_of_the_catalogue_does(
    indexing: bool,
    age: Option<i64>,
    bursting: bool,
    burst_nap: u64,
    r: CatalogTick,
)
    requires
        call_ensures(catalog_tick, (indexing, age, bursting, burst_nap), r),
    ensures
        !indexing ==> !r.fetch && !r.sample && r.sweep && r.nap == 3_600,
        indexing ==> r.sample,
        indexing && age is None ==> r.fetch,
        indexing && age is Some ==> (r.fetch <==> age->0 >= 86_400),
        indexing && bursting ==> !r.sweep && r.nap == burst_nap,
        !bursting ==> r.sweep && r.nap == 3_600,
{
}

/// A benchmark runs only where an interval is set, it is over, and nothing
/// downloads.
pub proof fn when_a_benchmark_runs(hours: u64, now: u64, last: u64, downloading: bool, r: bool)
    requires
        call_ensures(bench_due, (hours, now, last, downloading), r),
    ensures
        hours == 0 ==> !r,
        downloading ==> !r,
        hours > 0 && !downloading ==> (r <==> now - last >= 3_600 * hours),
{
}

/// The last benchmark is the last entry of its history.
pub proof fn when_the_last_benchmark_ran(history: &Vec<Value>, r: Option<u64>)
    requires
        call_ensures(last_bench, (history,), r),
    ensures
        history@.len() == 0 ==> r is None,
        history@.len() > 0 ==> r == u64_field(history@[history@.len() - 1]@, "ts"@),
{
}

/// A manifest announces its version; without one it is a question mark.
pub proof fn which_version_is_announced(manifest: &Value, r: String)
    requires
        call_ensures(announced_version, (manifest,), r),
    ensures
        text_field(manifest@, "version"@) matches Some(v) ==> r@ == v,
        text_field(manifest@, "version"@) is None ==> r@ == "?"@,
{
}

/// The watchlist is looked at while the index or an account elsewhere can be
/// asked; the calendar only with an index.
pub proof fn when_the_watchlist_is_looked_at(indexer_off: bool, external: bool, r: WatchPass)
    requires
        call_ensures(watchlist_pass, (indexer_off, external), r),
    ensures
        r.runs <==> !indexer_off || external,
        r.calendar <==> !indexer_off,
{
}

/// Which sources are named: one key counts before the other, and without one
/// those that need none.
pub proof fn which_sources_are_named(tmdb: bool, omdb: bool, r: &'static str)
    requires
        call_ensures(enrichment_sources, (tmdb, omdb), r),
    ensures
        tmdb ==> r@ == "TMDB"@,
        !tmdb && omdb ==> r@ == "TVmaze + OMDb + Wikidata/Wikipedia + AniList"@,
        !tmdb && !omdb ==> r@ == "TVmaze + Wikidata/Wikipedia + AniList (keyless)"@,
{
}

/// The base is the shortest round trip of those that count, the new one among
/// them.
pub proof fn what_the_base_is(trips: &mut Vec<Trip>, now: u64, rtt: u64, r: u64, i: int)
    requires
        call_ensures(base_rtt, (trips, now, rtt), r),
    ensures
        r <= rtt,
        0 <= i < final(trips)@.len() ==> r <= final(trips)@[i].rtt,
        old(trips)@.len() == 0 ==> r == rtt,
        final(trips)@.last() == (Trip { at: now, rtt }),
{
    let new = Trip { at: now, rtt };
    let all = old(trips)@.push(new);
    the_newest_counts(all, now);
    let n = final(trips)@.len() as int;
    assert(final(trips)@[n - 1].rtt == rtt);
    if old(trips)@.len() == 0 {
        assert(all =~= seq![new]);
        assert(final(trips)@ =~= seq![new]);
    }
}

proof fn the_newest_counts(trips: Seq<Trip>, now: u64)
    requires
        trips.len() > 0,
        trips.last().at == now,
    ensures
        counting(trips, now).len() > 0,
        counting(trips, now).last() == trips.last(),
        counting(trips, now).len() <= trips.len(),
    decreases trips.len(),
{
    if trip_age(trips[0], now) > TRIP_WINDOW {
        if trips.len() == 1 {
            assert(trips[0].at == now);
        } else {
            assert(trips.skip(1).last() == trips.last());
            the_newest_counts(trips.skip(1), now);
        }
    }
}

} // verus!
