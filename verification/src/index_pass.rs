//! The upkeep of the index: when a scan pass runs and what follows it, when
//! the file is compacted, how the newest posts are followed, and how the
//! servers are sampled.
use std::collections::HashMap;

use vstd::prelude::*;

use crate::book::Book;
use crate::sidecar::ServerConf;
use crate::text::add_text;

verus! {

// ---- the scan pass ------------------------------------------------------------

/// What a pass scans.
#[derive(Clone, Copy, PartialEq, Eq, Structural, Debug)]
pub struct ScanPlan {
    pub groups: bool,
    pub spots: bool,
}

/// What the scan loop does next.
#[derive(Clone, Copy, PartialEq, Eq, Structural, Debug)]
pub enum ScanStep {
    /// Nothing, for so many seconds.
    Wait(u64),
    Scan(ScanPlan),
}

/// Whether a pass is worth waiting its turn for: unless both sources are
/// stopped. `Scan` says whether the groups are in.
pub fn scan_step(groups_paused: bool, spots_paused: bool) -> (r: ScanStep)
    ensures
        r == (if groups_paused && spots_paused {
            ScanStep::Wait(5)
        } else {
            ScanStep::Scan(ScanPlan { groups: !groups_paused, spots: !spots_paused })
        }),
{
    if groups_paused && spots_paused {
        ScanStep::Wait(5)
    } else {
        ScanStep::Scan(ScanPlan { groups: !groups_paused, spots: !spots_paused })
    }
}

/// Whether a pass still has something to do once it is its turn: a
/// download may have started meanwhile.
pub fn scan_recheck(plan: ScanPlan, groups_paused: bool, spots_paused: bool) -> (r: ScanStep)
    ensures
        ({
            let p = ScanPlan { groups: plan.groups && !groups_paused, spots: !spots_paused };
            r == if !p.groups && !p.spots {
                ScanStep::Wait(1)
            } else {
                ScanStep::Scan(p)
            }
        }),
{
    let p: ScanPlan = ScanPlan { groups: plan.groups && !groups_paused, spots: !spots_paused };
    if !p.groups && !p.spots {
        ScanStep::Wait(1)
    } else {
        ScanStep::Scan(p)
    }
}

/// How many groups are scanned at once: as many as set, of one to eight, and
/// no more than there are.
pub fn scan_par(set: u64, groups: usize) -> (r: usize)
    ensures
        1 <= r <= 8,
        ({
            let par = if set < 1 {
                1
            } else if set > 8 {
                8
            } else {
                set as int
            };
            let n = if groups < 1 {
                1
            } else {
                groups as int
            };
            r == if par < n {
                par
            } else {
                n
            }
        }),
{
    let par: usize = if set < 1 {
        1
    } else if set > 8 {
        8
    } else {
        set as usize
    };
    let n: usize = if groups < 1 {
        1
    } else {
        groups
    };
    if par < n {
        par
    } else {
        n
    }
}

/// The depth of a one-off deep scan that was asked for.
pub fn deep_of(taken: u64) -> (r: Option<u64>)
    ensures
        r == (if taken > 0 {
            Some(taken)
        } else {
            None
        }),
{
    if taken > 0 {
        Some(taken)
    } else {
        None
    }
}

/// The deep scan that is asked for after a pass: one that was cut short is
/// asked for again, unless a deeper one was meanwhile.
pub open spec fn deep_left(asked: u64, taken: u64, cut_short: bool) -> u64 {
    if cut_short && taken > asked {
        taken
    } else {
        asked
    }
}

/// The deep scan that is asked for after a pass.
pub fn deep_after(asked: u64, taken: u64, cut_short: bool) -> (r: u64)
    ensures
        r == deep_left(asked, taken, cut_short),
{
    if cut_short && taken > asked {
        taken
    } else {
        asked
    }
}

/// A deep scan that was asked for is never lost to a pass that was cut short,
/// nor is one that was asked for meanwhile.
pub proof fn a_deep_scan_is_not_lost(asked: u64, taken: u64)
    ensures
        deep_left(asked, taken, true) >= taken,
        deep_left(asked, taken, true) >= asked,
{
}

/// Whether the pass makes way at once: a job waits for it. A pass
/// over spots alone is not what it waits for.
pub fn hands_over(plan: ScanPlan, groups_paused: bool) -> (r: bool)
    ensures
        r == (plan.groups && groups_paused),
{
    plan.groups && groups_paused
}

/// Whether incomplete releases are looked for on other servers.
pub fn fills_gaps(budget: u64, coverage: bool, groups: usize, paused: bool) -> (r: bool)
    ensures
        r == (budget > 0 && coverage && groups > 0 && !paused),
{
    budget > 0 && coverage && groups > 0 && !paused
}

/// Work that follows a pass, at most so often.
#[derive(Clone, Copy, PartialEq, Eq, Structural, Debug)]
pub enum Chore {
    /// Drop what is too old, and fragments that never came to anything.
    Retention,
    /// Refresh what the query planner knows.
    Statistics,
}

/// How many seconds pass between two runs of a chore.
pub open spec fn chore_every(c: Chore) -> int {
    match c {
        Chore::Retention => 3_600,
        Chore::Statistics => 86_400,
    }
}

/// Whether a chore runs after a pass: it has been long enough.
pub fn chore_due(c: Chore, now: i64, last: i64) -> (r: bool)
    ensures
        r == (now - last >= chore_every(c)),
{
    let every: i128 = match c {
        Chore::Retention => 3_600,
        Chore::Statistics => 86_400,
    };
    (now as i128) - (last as i128) >= every
}

/// Whether releases are dropped for their age: where that is wanted, and an
/// age is set.
pub fn drops_old(retention: bool, max_age: i64) -> (r: bool)
    ensures
        r == (retention && max_age > 0),
{
    retention && max_age > 0
}

/// How a refresh of the statistics went.
#[derive(Clone, Copy, PartialEq, Eq, Structural, Debug)]
pub enum Refresh {
    Done,
    Failed,
    /// It did not run to its end.
    Unfinished,
}

/// Whether a refresh counts as done: also where it failed, so that a file
/// that cannot be analysed is not tried every hour; not where it stood down
/// for a download.
pub fn refresh_counts(how: Refresh, stood_down: bool) -> (r: bool)
    ensures
        r == (!stood_down && how != Refresh::Unfinished),
{
    !stood_down && how != Refresh::Unfinished
}

/// What a change of the categories leaves: whether it has to be tried again,
/// and whether new cards want titles.
pub fn reclassified(outcome: Option<u64>) -> (r: (bool, bool))
    ensures
        r.0 == (outcome is None),
        r.1 == (outcome is Some && outcome->0 > 0),
{
    match outcome {
        None => (true, false),
        Some(n) => (false, n > 0),
    }
}

/// The last time that releases were dropped to hold the file under its size,
/// and how many: one that dropped none leaves it as it was, so that it goes on
/// to say what became of those that are gone. `removed` is none where nothing
/// ran.
pub fn auto_trim(last: Option<(i64, u64)>, removed: Option<u64>, now: i64) -> (r: Option<(i64, u64)>)
    ensures
        r == match removed {
            Some(n) if n > 0 => Some((now, n)),
            _ => last,
        },
{
    match removed {
        Some(n) => if n > 0 {
            Some((now, n))
        } else {
            last
        },
        None => last,
    }
}

/// Whether a connection that a pass worked on may be handed back: not where
/// the index was switched off or wiped meanwhile.
pub fn may_publish(era_before: u64, era_now: u64) -> (r: bool)
    ensures
        r == (era_before == era_now),
{
    era_before == era_now
}

/// How long the loop waits after a pass, in seconds: the interval, or a short
/// while where there was nothing to scan.
pub fn scan_nap(groups: usize, spots: bool, interval: u64) -> (r: u64)
    ensures
        r == (if groups == 0 && !spots {
            15
        } else if interval < 30 {
            30
        } else {
            interval as int
        }),
{
    if groups == 0 && !spots {
        15
    } else if interval < 30 {
        30
    } else {
        interval
    }
}

/// A step of a pass.
#[derive(Clone, Copy, PartialEq, Eq, Structural, Debug)]
pub enum PassStep {
    /// See whether there is anything to scan.
    Ask,
    /// Do nothing, for so many seconds.
    Rest(u64),
    /// Wait until nothing else works on the index.
    AwaitTurn,
    /// See whether there still is anything to scan.
    Recheck,
    Spots,
    /// Apply changed categories to what is stored.
    Reclassify,
    Groups,
    /// Ask again for a deep scan that was cut short.
    GiveDeepBack,
    /// Queue new titles for their posters.
    SeedTitles,
    FillGaps,
    Retention,
    Statistics,
    /// Hold the file under its size.
    Evict,
    /// Make way, and wait so many seconds or until a scan is asked for.
    Nap(u64),
}

/// What a pass has found out.
#[derive(Clone, Copy, PartialEq, Eq, Structural, Debug)]
pub struct PassFacts {
    pub groups_paused: bool,
    pub spots_paused: bool,
    /// Whether the categories have changed.
    pub reclassify: bool,
    /// How many groups the pass scans.
    pub groups: usize,
    /// How many incomplete releases are looked for elsewhere.
    pub gap_budget: u64,
    /// Whether groups are scanned on more than one server.
    pub coverage: bool,
    pub maintenance_ok: bool,
    pub now: i64,
    pub retention_at: i64,
    pub statistics_at: i64,
    pub interval: u64,
}

/// A pass: what it scans, how, and how far it is.
#[derive(Clone, Copy, PartialEq, Eq, Structural, Debug)]
pub struct ScanRun {
    pub plan: ScanPlan,
    pub coverage: bool,
    pub step: PassStep,
}

/// What follows once the index is pruned, or need not be.
pub open spec fn from_statistics(f: PassFacts) -> PassStep {
    if f.now - f.statistics_at >= chore_every(Chore::Statistics) {
        PassStep::Statistics
    } else {
        PassStep::Evict
    }
}

/// What follows once gaps are filled, or need not be: the chores, where groups
/// were scanned and the index may be worked on.
pub open spec fn from_retention(f: PassFacts) -> PassStep {
    if f.groups == 0 || !f.maintenance_ok {
        PassStep::Evict
    } else if f.now - f.retention_at >= chore_every(Chore::Retention) {
        PassStep::Retention
    } else {
        from_statistics(f)
    }
}

/// What follows once titles are queued, or there are none.
pub open spec fn from_gaps(coverage: bool, f: PassFacts) -> PassStep {
    if f.gap_budget > 0 && coverage && f.groups > 0 && !f.groups_paused {
        PassStep::FillGaps
    } else {
        from_retention(f)
    }
}

impl ScanRun {
    /// What a step leads to.
    pub open spec fn after(self, f: PassFacts) -> ScanRun {
        match self.step {
            PassStep::Ask => if f.groups_paused && f.spots_paused {
                ScanRun { step: PassStep::Rest(5), ..self }
            } else {
                ScanRun {
                    plan: ScanPlan { groups: !f.groups_paused, spots: !f.spots_paused },
                    coverage: f.coverage,
                    step: PassStep::AwaitTurn,
                }
            },
            PassStep::Rest(_) => ScanRun { step: PassStep::Ask, ..self },
            PassStep::AwaitTurn => ScanRun { step: PassStep::Recheck, ..self },
            PassStep::Recheck => {
                let plan = ScanPlan {
                    groups: self.plan.groups && !f.groups_paused,
                    spots: !f.spots_paused,
                };
                ScanRun {
                    plan,
                    step: if !plan.groups && !plan.spots {
                        PassStep::Rest(1)
                    } else if plan.spots {
                        PassStep::Spots
                    } else if f.reclassify {
                        PassStep::Reclassify
                    } else {
                        PassStep::Groups
                    },
                    ..self
                }
            },
            PassStep::Spots => ScanRun {
                step: if f.reclassify {
                    PassStep::Reclassify
                } else {
                    PassStep::Groups
                },
                ..self
            },
            PassStep::Reclassify => ScanRun { step: PassStep::Groups, ..self },
            PassStep::Groups => ScanRun { step: PassStep::GiveDeepBack, ..self },
            PassStep::GiveDeepBack => ScanRun {
                step: if self.plan.groups && f.groups_paused {
                    PassStep::Ask
                } else if f.groups > 0 {
                    PassStep::SeedTitles
                } else {
                    from_gaps(self.coverage, f)
                },
                ..self
            },
            PassStep::SeedTitles => ScanRun { step: from_gaps(self.coverage, f), ..self },
            PassStep::FillGaps => ScanRun { step: from_retention(f), ..self },
            PassStep::Retention => ScanRun { step: from_statistics(f), ..self },
            PassStep::Statistics => ScanRun { step: PassStep::Evict, ..self },
            PassStep::Evict => ScanRun {
                step: PassStep::Nap(
                    if f.groups == 0 && !self.plan.spots {
                        15
                    } else if f.interval < 30 {
                        30
                    } else {
                        f.interval
                    },
                ),
                ..self
            },
            PassStep::Nap(_) => ScanRun { step: PassStep::Ask, ..self },
        }
    }

    /// Before the first pass.
    pub fn new() -> (r: ScanRun)
        ensures
            r.step == PassStep::Ask,
            r.plan == (ScanPlan { groups: false, spots: false }),
            !r.coverage,
    {
        ScanRun {
            plan: ScanPlan { groups: false, spots: false },
            coverage: false,
            step: PassStep::Ask,
        }
    }

    /// Goes on with a pass.
    pub fn next(&mut self, f: &PassFacts)
        ensures
            *final(self) == old(self).after(*f),
    {
        match self.step {
            PassStep::Ask => match scan_step(f.groups_paused, f.spots_paused) {
                ScanStep::Wait(n) => {
                    self.step = PassStep::Rest(n);
                },
                ScanStep::Scan(plan) => {
                    self.plan = plan;
                    self.coverage = f.coverage;
                    self.step = PassStep::AwaitTurn;
                },
            },
            PassStep::Rest(_) => {
                self.step = PassStep::Ask;
            },
            PassStep::AwaitTurn => {
                self.step = PassStep::Recheck;
            },
            PassStep::Recheck => match scan_recheck(self.plan, f.groups_paused, f.spots_paused) {
                ScanStep::Wait(n) => {
                    self.plan = ScanPlan { groups: false, spots: false };
                    self.step = PassStep::Rest(n);
                },
                ScanStep::Scan(plan) => {
                    self.plan = plan;
                    self.step = if plan.spots {
                        PassStep::Spots
                    } else if f.reclassify {
                        PassStep::Reclassify
                    } else {
                        PassStep::Groups
                    };
                },
            },
            PassStep::Spots => {
                self.step = if f.reclassify {
                    PassStep::Reclassify
                } else {
                    PassStep::Groups
                };
            },
            PassStep::Reclassify => {
                self.step = PassStep::Groups;
            },
            PassStep::Groups => {
                self.step = PassStep::GiveDeepBack;
            },
            PassStep::GiveDeepBack => {
                self.step = if hands_over(self.plan, f.groups_paused) {
                    PassStep::Ask
                } else if f.groups > 0 {
                    PassStep::SeedTitles
                } else {
                    self.gaps_or_later(f)
                };
            },
            PassStep::SeedTitles => {
                self.step = self.gaps_or_later(f);
            },
            PassStep::FillGaps => {
                self.step = Self::retention_or_later(f);
            },
            PassStep::Retention => {
                self.step = Self::statistics_or_later(f);
            },
            PassStep::Statistics => {
                self.step = PassStep::Evict;
            },
            PassStep::Evict => {
                self.step = PassStep::Nap(scan_nap(f.groups, self.plan.spots, f.interval));
            },
            PassStep::Nap(_) => {
                self.step = PassStep::Ask;
            },
        }
    }

    fn statistics_or_later(f: &PassFacts) -> (r: PassStep)
        ensures
            r == from_statistics(*f),
    {
        if chore_due(Chore::Statistics, f.now, f.statistics_at) {
            PassStep::Statistics
        } else {
            PassStep::Evict
        }
    }

    fn retention_or_later(f: &PassFacts) -> (r: PassStep)
        ensures
            r == from_retention(*f),
    {
        if f.groups == 0 || !f.maintenance_ok {
            PassStep::Evict
        } else if chore_due(Chore::Retention, f.now, f.retention_at) {
            PassStep::Retention
        } else {
            Self::statistics_or_later(f)
        }
    }

    fn gaps_or_later(&self, f: &PassFacts) -> (r: PassStep)
        ensures
            r == from_gaps(self.coverage, *f),
    {
        if fills_gaps(f.gap_budget, self.coverage, f.groups, f.groups_paused) {
            PassStep::FillGaps
        } else {
            Self::retention_or_later(f)
        }
    }
}

/// How far a step is into a pass.
pub open spec fn pass_rank(s: PassStep) -> int {
    match s {
        PassStep::Ask => 0,
        PassStep::Rest(_) => 0,
        PassStep::AwaitTurn => 1,
        PassStep::Recheck => 2,
        PassStep::Spots => 3,
        PassStep::Reclassify => 4,
        PassStep::Groups => 5,
        PassStep::GiveDeepBack => 6,
        PassStep::SeedTitles => 7,
        PassStep::FillGaps => 8,
        PassStep::Retention => 9,
        PassStep::Statistics => 10,
        PassStep::Evict => 11,
        PassStep::Nap(_) => 12,
    }
}

/// The steps of a pass come in one order: nothing is scanned after what was
/// scanned has been tidied up.
pub proof fn a_pass_goes_forward(r: ScanRun, f: PassFacts)
    ensures
        pass_rank(r.after(f).step) > pass_rank(r.step) || r.after(f).step == PassStep::Ask || r.after(
            f,
        ).step is Rest,
{
}

/// A pass over groups that a job has interrupted does nothing more to the
/// index.
pub proof fn an_interrupted_pass_makes_way(r: ScanRun, f: PassFacts)
    requires
        r.step == PassStep::GiveDeepBack,
        r.plan.groups,
        f.groups_paused,
    ensures
        r.after(f).step == PassStep::Ask,
{
}

/// A source that is paused is not scanned: it is asked once more when it is
/// the pass's turn.
pub proof fn a_paused_source_is_not_scanned(r: ScanRun, f: PassFacts)
    requires
        r.step == PassStep::Recheck,
    ensures
        f.spots_paused ==> r.after(f).step != PassStep::Spots && !r.after(f).plan.spots,
        f.groups_paused ==> !r.after(f).plan.groups,
        f.groups_paused && f.spots_paused ==> r.after(f).step == PassStep::Rest(1),
{
}

/// Every pass ends with a wait: one over spots alone too, where the groups
/// are off for good.
pub proof fn a_pass_over_spots_alone_ends_with_a_wait(r: ScanRun, f: PassFacts)
    requires
        !r.plan.groups,
        f.groups == 0,
        r.step == PassStep::GiveDeepBack,
    ensures
        r.after(f).step == PassStep::Evict,
        r.after(f).after(f).step is Nap,
{
}

// ---- compaction ---------------------------------------------------------------

/// Whether the file may be compacted now.
#[derive(Clone, Copy, PartialEq, Eq, Structural, Debug)]
pub enum CompactVerdict {
    NotNeeded,
    Busy,
    NoRoom { need: u64, free: u64 },
    Go,
}

/// What the compaction loop does next.
#[derive(Clone, Copy, PartialEq, Eq, Structural, Debug)]
pub enum CompactStep {
    Nothing,
    /// Say that there is no room.
    SayNoRoom,
    /// Rewrite the whole file.
    Rewrite,
    /// Give freed pages back piece by piece.
    Chunks,
}

/// Whether a tick looks further: where compaction was asked for, and the
/// indexer is on.
pub fn compact_asked(pending: bool, indexer_off: bool) -> (r: bool)
    ensures
        r == (pending && !indexer_off),
{
    pending && !indexer_off
}

/// What the compaction loop does next. That there is no room is said once an
/// hour.
pub fn compact_step(v: CompactVerdict, chunked: bool, secs_since_said: u64) -> (r: CompactStep)
    ensures
        r == match v {
            CompactVerdict::NotNeeded => CompactStep::Nothing,
            CompactVerdict::Busy => CompactStep::Nothing,
            CompactVerdict::NoRoom { need, free } => if secs_since_said >= 3_600 {
                CompactStep::SayNoRoom
            } else {
                CompactStep::Nothing
            },
            CompactVerdict::Go => if chunked {
                CompactStep::Chunks
            } else {
                CompactStep::Rewrite
            },
        },
{
    match v {
        CompactVerdict::NotNeeded | CompactVerdict::Busy => CompactStep::Nothing,
        CompactVerdict::NoRoom { need: _, free: _ } => if secs_since_said >= 3_600 {
            CompactStep::SayNoRoom
        } else {
            CompactStep::Nothing
        },
        CompactVerdict::Go => if chunked {
            CompactStep::Chunks
        } else {
            CompactStep::Rewrite
        },
    }
}

/// How far giving pages back has come.
#[derive(Clone, Copy, PartialEq, Eq, Structural, Debug)]
pub struct Chunks {
    /// The pages that are free but not given back.
    pub left: u64,
    pub done: u64,
    pub stood_down: bool,
    /// Whether the index could not be reached.
    pub failed: bool,
}

/// What follows a piece.
#[derive(Clone, Copy, PartialEq, Eq, Structural, Debug)]
pub enum ChunkStep {
    Run,
    Stop,
}

impl Chunks {
    /// Starts with so many free pages, where the index can be reached.
    pub fn new(left: Option<u64>) -> (r: Chunks)
        ensures
            r == (Chunks {
                left: match left {
                    Some(n) => n,
                    None => 0,
                },
                done: 0,
                stood_down: false,
                failed: left is None,
            }),
    {
        match left {
            Some(n) => Chunks { left: n, done: 0, stood_down: false, failed: false },
            None => Chunks { left: 0, done: 0, stood_down: false, failed: true },
        }
    }

    /// What a look between two pieces makes of it.
    pub open spec fn before(self, jobs: u64) -> (Chunks, ChunkStep) {
        if self.failed || self.left == 0 {
            (self, ChunkStep::Stop)
        } else if jobs > 0 {
            (Chunks { stood_down: true, ..self }, ChunkStep::Stop)
        } else {
            (self, ChunkStep::Run)
        }
    }

    /// Looks before a piece whether a download has started; nothing runs
    /// then, so it stops at once.
    pub fn look(&mut self, jobs: u64) -> (r: ChunkStep)
        ensures
            (*final(self), r) == old(self).before(jobs),
    {
        if self.failed || self.left == 0 {
            return ChunkStep::Stop;
        }
        if jobs > 0 {
            self.stood_down = true;
            return ChunkStep::Stop;
        }
        ChunkStep::Run
    }

    /// What a piece makes of it.
    pub open spec fn after(self, left: Option<u64>) -> (Chunks, ChunkStep) {
        match left {
            None => (Chunks { failed: true, ..self }, ChunkStep::Stop),
            Some(n) => {
                let done = if self.done < u64::MAX {
                    (self.done + 1) as u64
                } else {
                    self.done
                };
                if n >= self.left {
                    (Chunks { done, ..self }, ChunkStep::Stop)
                } else {
                    (Chunks { done, left: n, ..self }, ChunkStep::Run)
                }
            },
        }
    }

    /// Goes on after a piece, which left so many free pages. One that gave
    /// nothing back is the last: the rest cannot be moved.
    pub fn ran(&mut self, left: Option<u64>) -> (r: ChunkStep)
        ensures
            (*final(self), r) == old(self).after(left),
    {
        match left {
            None => {
                self.failed = true;
                ChunkStep::Stop
            },
            Some(n) => {
                if self.done < u64::MAX {
                    self.done = self.done + 1;
                }
                if n >= self.left {
                    return ChunkStep::Stop;
                }
                self.left = n;
                ChunkStep::Run
            },
        }
    }

    /// Whether compaction has to be asked for again: where it could not be
    /// done, and where it stood down.
    pub fn again(&self) -> (r: bool)
        ensures
            r == (self.failed || self.stood_down),
    {
        self.failed || self.stood_down
    }
}

/// Giving pages back comes to an end: each piece that is followed by another
/// leaves fewer of them.
pub proof fn chunks_come_to_an_end(c: Chunks, left: Option<u64>)
    requires
        c.after(left).1 == ChunkStep::Run,
    ensures
        c.after(left).0.left < c.left,
{
}

/// No piece runs while a download does.
pub proof fn no_chunk_runs_beside_a_download(c: Chunks, jobs: u64)
    requires
        jobs > 0,
    ensures
        c.before(jobs).1 == ChunkStep::Stop,
{
}

// ---- arrivals -------------------------------------------------------------------

/// A release that the watchlist wants, as it came in.
#[derive(Debug)]
pub struct WatchHit {
    pub id: i64,
    pub name: String,
    pub complete: bool,
}

/// When a release was first seen incomplete, after some arrivals: a complete
/// one is not kept, and the first sighting of an incomplete one counts.
pub open spec fn parked_after(hits: Seq<WatchHit>, pending: Map<i64, i64>, now: i64) -> Map<
    i64,
    i64,
>
    decreases hits.len(),
{
    if hits.len() == 0 {
        pending
    } else {
        let m = parked_after(hits.drop_last(), pending, now);
        let h = hits.last();
        if h.complete {
            m.remove(h.id)
        } else if m.contains_key(h.id) {
            m
        } else {
            m.insert(h.id, now)
        }
    }
}

/// The names of the complete ones, in order.
pub open spec fn ready_of(hits: Seq<WatchHit>) -> Seq<Seq<char>>
    decreases hits.len(),
{
    if hits.len() == 0 {
        Seq::empty()
    } else if hits.last().complete {
        ready_of(hits.drop_last()).push(hits.last().name@)
    } else {
        ready_of(hits.drop_last())
    }
}

/// Takes arrivals in: the complete ones are ready for the watchlist, the
/// others are looked at again shortly.
pub fn instant_arrivals(pending: &mut HashMap<i64, i64>, hits: &Vec<WatchHit>, now: i64) -> (r: Vec<
    String,
>)
    ensures
        final(pending)@ == parked_after(hits@, old(pending)@, now),
        r.deep_view() == ready_of(hits@),
{
    broadcast use vstd::std_specs::hash::group_hash_axioms;

    let mut ready: Vec<String> = Vec::new();
    let mut i: usize = 0;
    assert(ready.deep_view() =~= ready_of(hits@.take(0)));
    while i < hits.len()
        invariant
            i <= hits@.len(),
            pending@ == parked_after(hits@.take(i as int), old(pending)@, now),
            ready.deep_view() == ready_of(hits@.take(i as int)),
        decreases hits@.len() - i,
    {
        assert(hits@.take(i + 1).drop_last() =~= hits@.take(i as int));
        assert(hits@.take(i + 1).last() == hits@[i as int]);
        let h: &WatchHit = &hits[i];
        if h.complete {
            let _gone: Option<i64> = pending.remove(&h.id);
            add_text(&mut ready, h.name.as_str());
        } else if !pending.contains_key(&h.id) {
            let _none: Option<i64> = pending.insert(h.id, now);
        }
        i = i + 1;
    }
    assert(hits@.take(hits@.len() as int) =~= hits@);
    ready
}

/// A release that goes on growing does not stay parked for longer: its clock
/// is that of the first sighting.
pub proof fn the_first_sighting_counts(hits: Seq<WatchHit>, pending: Map<i64, i64>, now: i64, id: i64)
    requires
        pending.contains_key(id),
        parked_after(hits, pending, now).contains_key(id),
        forall|i: int| 0 <= i < hits.len() && hits[i].id == id ==> !(#[trigger] hits[i]).complete,
    ensures
        parked_after(hits, pending, now)[id] == pending[id],
    decreases hits.len(),
{
    if hits.len() > 0 {
        let rest = hits.drop_last();
        assert(hits.last() == hits[hits.len() - 1]);
        assert forall|i: int| 0 <= i < rest.len() && rest[i].id == id implies !(
        #[trigger] rest[i]).complete by {
            assert(hits[i] == rest[i]);
        }
        stays_parked(rest, pending, now, id);
        the_first_sighting_counts(rest, pending, now, id);
    }
}

proof fn stays_parked(hits: Seq<WatchHit>, pending: Map<i64, i64>, now: i64, id: i64)
    requires
        pending.contains_key(id),
        forall|i: int| 0 <= i < hits.len() && hits[i].id == id ==> !(#[trigger] hits[i]).complete,
    ensures
        parked_after(hits, pending, now).contains_key(id),
    decreases hits.len(),
{
    if hits.len() > 0 {
        let rest = hits.drop_last();
        assert(hits.last() == hits[hits.len() - 1]);
        assert forall|i: int| 0 <= i < rest.len() && rest[i].id == id implies !(
        #[trigger] rest[i]).complete by {
            assert(hits[i] == rest[i]);
        }
        stays_parked(rest, pending, now, id);
    }
}

/// A release that was parked, and what the index says of it now.
#[derive(Debug)]
pub struct Parked {
    pub id: i64,
    pub first: i64,
    pub complete: bool,
    /// Its name, where it has one.
    pub name: Option<String>,
}

/// Whether a parked release is looked at no more: it waited for long enough,
/// or it is complete.
pub open spec fn is_over(p: Parked, now: i64, keep_secs: i64) -> bool {
    now - p.first >= keep_secs || p.complete
}

/// The ids of those that are looked at no more, in order.
pub open spec fn over_of(parked: Seq<Parked>, now: i64, keep_secs: i64) -> Seq<i64>
    decreases parked.len(),
{
    if parked.len() == 0 {
        Seq::empty()
    } else if is_over(parked.last(), now, keep_secs) {
        over_of(parked.drop_last(), now, keep_secs).push(parked.last().id)
    } else {
        over_of(parked.drop_last(), now, keep_secs)
    }
}

/// The names of those that have become complete in time, in order.
pub open spec fn completed_of(parked: Seq<Parked>, now: i64, keep_secs: i64) -> Seq<Seq<char>>
    decreases parked.len(),
{
    if parked.len() == 0 {
        Seq::empty()
    } else {
        let p = parked.last();
        let rest = completed_of(parked.drop_last(), now, keep_secs);
        if now - p.first < keep_secs && p.complete && p.name is Some {
            rest.push(p.name->0@)
        } else {
            rest
        }
    }
}

/// The map without some keys.
pub open spec fn forgotten(pending: Map<i64, i64>, ids: Seq<i64>) -> Map<i64, i64>
    decreases ids.len(),
{
    if ids.len() == 0 {
        pending
    } else {
        forgotten(pending, ids.drop_last()).remove(ids.last())
    }
}

/// Looks at the parked releases again: those that waited for long enough go
/// back to the ordinary pass, those that are complete are ready for the
/// watchlist. Staying incomplete says nothing of a post.
pub fn instant_recheck(
    pending: &mut HashMap<i64, i64>,
    parked: &Vec<Parked>,
    now: i64,
    keep_secs: i64,
) -> (r: Vec<String>)
    ensures
        final(pending)@ == forgotten(old(pending)@, over_of(parked@, now, keep_secs)),
        r.deep_view() == completed_of(parked@, now, keep_secs),
{
    broadcast use vstd::std_specs::hash::group_hash_axioms;

    let mut ready: Vec<String> = Vec::new();
    let mut i: usize = 0;
    assert(ready.deep_view() =~= completed_of(parked@.take(0), now, keep_secs));
    while i < parked.len()
        invariant
            i <= parked@.len(),
            pending@ == forgotten(old(pending)@, over_of(parked@.take(i as int), now, keep_secs)),
            ready.deep_view() == completed_of(parked@.take(i as int), now, keep_secs),
        decreases parked@.len() - i,
    {
        assert(parked@.take(i + 1).drop_last() =~= parked@.take(i as int));
        assert(parked@.take(i + 1).last() == parked@[i as int]);
        let p: &Parked = &parked[i];
        let waited: bool = (now as i128) - (p.first as i128) >= keep_secs as i128;
        if waited || p.complete {
            proof {
                let before = over_of(parked@.take(i as int), now, keep_secs);
                assert(before.push(p.id).drop_last() =~= before);
            }
            let _gone: Option<i64> = pending.remove(&p.id);
        }
        if !waited && p.complete {
            match &p.name {
                Some(n) => {
                    add_text(&mut ready, n.as_str());
                },
                None => {},
            }
        }
        i = i + 1;
    }
    assert(parked@.take(parked@.len() as int) =~= parked@);
    ready
}

// ---- the newest posts -------------------------------------------------------------

/// How many articles are asked for at once.
pub const TIP_CHUNK: u64 = 20_000;

/// How far behind a group may be for this to catch up with it.
pub const TIP_HANDOFF: u64 = 500_000;

/// What a tick does.
#[derive(Clone, Copy, PartialEq, Eq, Structural, Debug)]
pub enum TipStep {
    /// Close the connections and wait so many seconds.
    HangUp(u64),
    /// Wait so many seconds.
    Wait(u64),
    Go,
}

/// What a tick does: nothing where it is off or has no group, nothing while
/// indexing is paused, and nothing beside a scan pass.
pub fn tip_step(every: u64, groups: usize, paused: bool, scanning: bool) -> (r: TipStep)
    ensures
        r == (if every == 0 || groups == 0 {
            TipStep::HangUp(30)
        } else if paused {
            TipStep::HangUp(5)
        } else if scanning {
            TipStep::Wait(
                if every < 5 {
                    every
                } else {
                    5
                },
            )
        } else {
            TipStep::Go
        }),
{
    if every == 0 || groups == 0 {
        TipStep::HangUp(30)
    } else if paused {
        TipStep::HangUp(5)
    } else if scanning {
        TipStep::Wait(
            if every < 5 {
                every
            } else {
                5
            },
        )
    } else {
        TipStep::Go
    }
}

/// How long a tick may take, in seconds.
pub fn tip_deadline(every: u64) -> (r: u64)
    ensures
        r == (if every < 30 {
            every
        } else {
            30
        }),
{
    if every < 30 {
        every
    } else {
        30
    }
}

/// Which group a tick takes at an offset.
pub open spec fn tip_index(cursor: int, offset: int, groups: int) -> int {
    (cursor + offset) % groups
}

/// Which group a tick takes at an offset: each leads one tick in turn.
pub fn tip_group(cursor: usize, offset: usize, groups: usize) -> (r: usize)
    requires
        groups > 0,
    ensures
        r < groups,
        r == tip_index(cursor as int, offset as int, groups as int),
{
    let c: u128 = cursor as u128;
    let n: u128 = groups as u128;
    let at: u128 = (c + offset as u128) % n;
    at as usize
}

/// Which group leads the next tick.
pub fn tip_next(cursor: usize, groups: usize) -> (r: usize)
    requires
        groups > 0,
    ensures
        r < groups,
        r == (cursor + 1) % (groups as int),
{
    tip_group(cursor, 1, groups)
}

/// A tick takes every group once, whichever leads, also where there were more
/// groups when the last tick ended.
pub proof fn a_tick_takes_every_group_once(cursor: int, groups: int, g: int)
    requires
        0 <= cursor,
        0 <= g < groups,
    ensures
        exists|o: int| 0 <= o < groups && #[trigger] tip_index(cursor, o, groups) == g,
        forall|o: int, p: int|
            0 <= o < p < groups ==> #[trigger] tip_index(cursor, o, groups) != #[trigger] tip_index(
                cursor,
                p,
                groups,
            ),
{
    let lead = cursor % groups;
    vstd::arithmetic::div_mod::lemma_mod_bound(cursor, groups);
    assert forall|o: int| 0 <= o < groups implies #[trigger] tip_index(cursor, o, groups) == if lead
        + o < groups {
        lead + o
    } else {
        lead + o - groups
    } by {
        vstd::arithmetic::div_mod::lemma_add_mod_noop_right(o, cursor, groups);
        wraps_once(lead + o, groups);
    }
    let o = if g >= lead {
        g - lead
    } else {
        g - lead + groups
    };
    assert(tip_index(cursor, o, groups) == g);
}

proof fn wraps_once(x: int, n: int)
    requires
        0 <= x < 2 * n,
    ensures
        x % n == (if x < n {
            x
        } else {
            x - n
        }),
{
    if x < n {
        assert(x % n == x) by (nonlinear_arith)
            requires
                0 <= x < n,
        ;
    } else {
        assert(x % n == x - n) by (nonlinear_arith)
            requires
                n <= x < 2 * n,
        ;
    }
}

/// The first article to ask a group for: none where it was never scanned,
/// where nothing is new, and where it is too far behind.
pub open spec fn tip_first(mark: u64, high: u64) -> Option<u64> {
    if mark == 0 || high <= mark || high - mark > TIP_HANDOFF {
        None
    } else {
        Some((mark + 1) as u64)
    }
}

/// The first article to ask a group for.
pub fn tip_start(mark: u64, high: u64) -> (r: Option<u64>)
    ensures
        r == tip_first(mark, high),
{
    if mark == 0 || high <= mark || high - mark > TIP_HANDOFF {
        None
    } else {
        Some(mark + 1)
    }
}

/// The last article of the piece that begins at one.
pub open spec fn tip_last(lo: u64, high: u64) -> u64 {
    if lo + TIP_CHUNK - 1 < high {
        (lo + TIP_CHUNK - 1) as u64
    } else {
        high
    }
}

/// The last article of the piece that begins at `lo`: as many as are asked
/// for at once, and none beyond the newest.
pub fn tip_chunk(lo: u64, high: u64) -> (r: u64)
    requires
        lo <= high,
    ensures
        r == tip_last(lo, high),
        lo <= r <= high,
{
    if high - lo >= TIP_CHUNK {
        lo + (TIP_CHUNK - 1)
    } else {
        high
    }
}

/// What a tick does next with a group.
#[derive(Clone, Copy, PartialEq, Eq, Structural, Debug)]
pub enum TipPiece {
    /// Ask for the articles up to this one.
    Ask(u64),
    /// Nothing more of this group: go on to the next.
    Leave,
    /// Indexing is paused: hang up and end the tick.
    Stop,
}

/// What a tick does next with a group of which the articles from `lo` on are
/// still to come: nothing once it has caught up or the time is over.
pub fn tip_piece(lo: u64, high: u64, late: bool, paused: bool) -> (r: TipPiece)
    ensures
        r == (if lo > high || late {
            TipPiece::Leave
        } else if paused {
            TipPiece::Stop
        } else {
            TipPiece::Ask(tip_last(lo, high))
        }),
{
    if lo > high || late {
        TipPiece::Leave
    } else if paused {
        TipPiece::Stop
    } else {
        TipPiece::Ask(tip_chunk(lo, high))
    }
}

/// Piece after piece, from an article on: what is asked for in so many
/// pieces.
pub open spec fn tip_covered(lo: int, high: u64, pieces: nat) -> int
    decreases pieces,
{
    if pieces == 0 || lo > high {
        lo
    } else {
        tip_covered(tip_last(lo as u64, high) + 1, high, (pieces - 1) as nat)
    }
}

/// The mark only ever moves over articles that were asked for, without a gap,
/// and enough pieces bring it to the newest article.
pub proof fn the_mark_moves_without_a_gap(lo: int, high: u64, pieces: nat)
    requires
        0 < lo <= high + 1,
    ensures
        lo <= tip_covered(lo, high, pieces) <= high + 1,
        pieces * TIP_CHUNK >= high + 1 - lo ==> tip_covered(lo, high, pieces) == high + 1,
    decreases pieces,
{
    if pieces > 0 && lo <= high {
        let next = tip_last(lo as u64, high) + 1;
        the_mark_moves_without_a_gap(next, high, (pieces - 1) as nat);
        assert((pieces - 1) * TIP_CHUNK == pieces * TIP_CHUNK - TIP_CHUNK) by (nonlinear_arith);
    } else if pieces == 0 {
        assert(pieces * TIP_CHUNK == 0) by (nonlinear_arith)
            requires
                pieces == 0,
        ;
    }
}

/// How long to wait after a tick, in seconds: hardly at all while a group is
/// still behind.
pub fn tip_nap(behind: bool, every: u64) -> (r: u64)
    ensures
        r == (if behind {
            1
        } else {
            every
        }),
{
    if behind {
        1
    } else {
        every
    }
}

// ---- sampling the servers -----------------------------------------------------------

/// Why a server could not be reached.
#[derive(Clone, Copy, PartialEq, Eq, Structural, Debug)]
pub enum ConnectError {
    /// The login was refused: all the account's connections are in use.
    Capacity,
    /// The login was refused for good.
    Permanent,
    Other,
}

/// For how long a server whose connections are all in use is left alone, in
/// seconds.
pub const SAMPLER_CAP_COOLDOWN: u64 = 900;

/// For how long a server that could not be reached is left alone, in seconds.
/// One whose connections are in use elsewhere is; one that refuses for good
/// only where it limits source addresses, which says the same in the same
/// words. Anything else may well work the next time.
pub fn sampler_cap_cooldown(err: ConnectError, tight: bool) -> (r: Option<u64>)
    ensures
        r == (if err == ConnectError::Capacity || (err == ConnectError::Permanent && tight) {
            Some(SAMPLER_CAP_COOLDOWN)
        } else {
            None
        }),
{
    match err {
        ConnectError::Capacity => Some(SAMPLER_CAP_COOLDOWN),
        ConnectError::Permanent => if tight {
            Some(SAMPLER_CAP_COOLDOWN)
        } else {
            None
        },
        ConnectError::Other => None,
    }
}

/// Whether a server is left alone.
pub open spec fn is_cooling(until: Option<u64>, now: u64) -> bool {
    until is Some && now < until->0
}

/// Whether a server is left alone now.
pub fn cooling(book: &Book<u64>, host: &str, now: u64) -> (r: bool)
    requires
        book.wf(),
    ensures
        r == is_cooling(book.at(host@), now),
{
    match book.get(host) {
        Some(t) => now < *t,
        None => false,
    }
}

/// Notes how an attempt to reach a server went, at a time in seconds.
pub fn reached(book: &mut Book<u64>, host: &str, err: Option<ConnectError>, tight: bool, now: u64)
    requires
        old(book).wf(),
        now + SAMPLER_CAP_COOLDOWN <= u64::MAX,
    ensures
        final(book).wf(),
        forall|k: Seq<char>| k != host@ ==> #[trigger] final(book).at(k) == old(book).at(k),
        final(book).at(host@) == match err {
            None => None,
            Some(e) => if e == ConnectError::Capacity || (e == ConnectError::Permanent && tight) {
                Some((now + SAMPLER_CAP_COOLDOWN) as u64)
            } else {
                old(book).at(host@)
            },
        },
{
    match err {
        None => {
            book.remove(host);
        },
        Some(e) => {
            match sampler_cap_cooldown(e, tight) {
                Some(c) => {
                    book.put(host, now + c);
                },
                None => {},
            }
        },
    }
}

/// Whether sampling sits a tick out: where it is off, offline, without an
/// index, or beside a download.
pub fn sampler_stands_down(rate: u64, offline: bool, indexer_off: bool, downloading: bool) -> (r:
    bool)
    ensures
        r == (rate == 0 || offline || indexer_off || downloading),
{
    rate == 0 || offline || indexer_off || downloading
}

/// How many articles are sampled in a tick of a minute, out of so many an
/// hour: rounded up.
pub fn sampler_budget(rate: u64) -> (r: u64)
    ensures
        r * 60 >= rate,
        r > 0 ==> (r - 1) * 60 < rate,
        r == 0 <==> rate == 0,
{
    let whole: u64 = rate / 60;
    if rate % 60 == 0 {
        whole
    } else {
        whole + 1
    }
}

/// How many whole days old a post is: none where its date lies ahead.
pub fn age_days(now: i64, posted: i64) -> (r: u64)
    ensures
        r == (if now <= posted {
            0
        } else {
            (now - posted) / 86_400
        }),
{
    if now <= posted {
        0
    } else {
        let secs: i128 = (now as i128) - (posted as i128);
        (secs / 86_400) as u64
    }
}

/// The hosts of the servers that are switched on, in order.
pub open spec fn enabled_of(servers: Seq<ServerConf>) -> Seq<Seq<char>>
    decreases servers.len(),
{
    if servers.len() == 0 {
        Seq::empty()
    } else if servers.last().enabled {
        enabled_of(servers.drop_last()).push(servers.last().host@)
    } else {
        enabled_of(servers.drop_last())
    }
}

/// The hosts of the servers that are switched on, in order.
pub fn enabled_hosts(servers: &Vec<ServerConf>) -> (r: Vec<String>)
    ensures
        r.deep_view() == enabled_of(servers@),
{
    let mut r: Vec<String> = Vec::new();
    let mut i: usize = 0;
    assert(r.deep_view() =~= enabled_of(servers@.take(0)));
    while i < servers.len()
        invariant
            i <= servers@.len(),
            r.deep_view() == enabled_of(servers@.take(i as int)),
        decreases servers@.len() - i,
    {
        assert(servers@.take(i + 1).drop_last() =~= servers@.take(i as int));
        assert(servers@.take(i + 1).last() == servers@[i as int]);
        if servers[i].enabled {
            add_text(&mut r, servers[i].host.as_str());
        }
        i = i + 1;
    }
    assert(servers@.take(servers@.len() as int) =~= servers@);
    r
}

// ---- laws -----------------------------------------------------------------

/// A pass waits its turn unless both sources are stopped, and scans exactly
/// those that are not.
pub proof fn what_a_pass_would_scan(groups_paused: bool, spots_paused: bool, r: ScanStep)
    requires
        call_ensures(scan_step, (groups_paused, spots_paused), r),
    ensures
        r is Wait <==> groups_paused && spots_paused,
        r is Wait ==> r == ScanStep::Wait(5),
        r matches ScanStep::Scan(p) ==> p.groups == !groups_paused && p.spots == !spots_paused,
{
}

/// Once it is its turn a pass scans the groups only where it meant to and they
/// still run, and the spots where they run now; with nothing left it waits a
/// second.
pub proof fn what_a_pass_scans_in_its_turn(
    plan: ScanPlan,
    groups_paused: bool,
    spots_paused: bool,
    r: ScanStep,
)
    requires
        call_ensures(scan_recheck, (plan, groups_paused, spots_paused), r),
    ensures
        r is Wait <==> spots_paused && (groups_paused || !plan.groups),
        r is Wait ==> r == ScanStep::Wait(1),
        r matches ScanStep::Scan(p) ==> (p.groups <==> plan.groups && !groups_paused) && (p.spots
            <==> !spots_paused),
{
}

/// As many groups are scanned at once as are set, one to eight, and no more
/// than there are.
pub proof fn how_many_groups_are_scanned_at_once(set: u64, groups: usize, r: usize)
    requires
        call_ensures(scan_par, (set, groups), r),
    ensures
        1 <= r <= 8,
        groups >= 1 ==> r <= groups,
        groups == 0 ==> r == 1,
        1 <= set <= 8 && groups >= set ==> r == set,
        set > 8 && groups >= 8 ==> r == 8,
        set == 0 ==> r == 1,
        1 <= set && 1 <= groups < set && groups <= 8 ==> r == groups,
{
}

/// A deep scan that is not asked for is none.
pub proof fn what_a_deep_scan_is(taken: u64, r: Option<u64>)
    requires
        call_ensures(deep_of, (taken,), r),
    ensures
        r is None <==> taken == 0,
        r is Some ==> r->0 == taken,
{
}

/// After a pass that ran to its end only what was asked for meanwhile is
/// left; after one that was cut short the deeper of the two.
pub proof fn what_is_left_of_a_deep_scan(asked: u64, taken: u64, cut_short: bool, r: u64)
    requires
        call_ensures(deep_after, (asked, taken, cut_short), r),
    ensures
        !cut_short ==> r == asked,
        cut_short ==> r >= asked && r >= taken && (r == asked || r == taken),
{
}

/// A pass makes way exactly where it scans groups and these are paused.
pub proof fn when_a_pass_makes_way(plan: ScanPlan, groups_paused: bool, r: bool)
    requires
        call_ensures(hands_over, (plan, groups_paused), r),
    ensures
        !plan.groups ==> !r,
        !groups_paused ==> !r,
        plan.groups && groups_paused ==> r,
{
}

/// Gaps are filled only within a budget, on more than one server, where there
/// are groups, and while nothing is paused.
pub proof fn when_gaps_are_filled(budget: u64, coverage: bool, groups: usize, paused: bool, r: bool)
    requires
        call_ensures(fills_gaps, (budget, coverage, groups, paused), r),
    ensures
        budget == 0 ==> !r,
        !coverage ==> !r,
        groups == 0 ==> !r,
        paused ==> !r,
        budget > 0 && coverage && groups > 0 && !paused ==> r,
{
}

/// What is too old is dropped once an hour, and the statistics are refreshed
/// once a day.
pub proof fn how_often_a_chore_runs(c: Chore, now: i64, last: i64, r: bool)
    requires
        call_ensures(chore_due, (c, now, last), r),
    ensures
        c == Chore::Retention ==> (r <==> now - last >= 3_600),
        c == Chore::Statistics ==> (r <==> now - last >= 86_400),
{
}

/// Releases are dropped for their age only where that is wanted and an age is
/// set.
pub proof fn when_old_releases_are_dropped(retention: bool, max_age: i64, r: bool)
    requires
        call_ensures(drops_old, (retention, max_age), r),
    ensures
        !retention ==> !r,
        max_age <= 0 ==> !r,
        retention && max_age > 0 ==> r,
{
}

/// A refresh that stood down, or did not run to its end, is due again; one
/// that failed is not.
pub proof fn which_refreshes_count(how: Refresh, stood_down: bool, r: bool)
    requires
        call_ensures(refresh_counts, (how, stood_down), r),
    ensures
        stood_down ==> !r,
        how == Refresh::Unfinished ==> !r,
        !stood_down && how == Refresh::Failed ==> r,
        !stood_down && how == Refresh::Done ==> r,
{
}

/// Changed categories are tried again only where they could not be applied,
/// and new cards want titles only where any were changed.
pub proof fn what_changed_categories_leave(outcome: Option<u64>, r: (bool, bool))
    requires
        call_ensures(reclassified, (outcome,), r),
    ensures
        outcome is None ==> r.0 && !r.1,
        outcome == Some(0u64) ==> !r.0 && !r.1,
        outcome is Some && outcome->0 > 0 ==> !r.0 && r.1,
{
}

/// What is said of the last trim changes only by one that dropped something.
pub proof fn what_is_said_of_the_last_trim(
    last: Option<(i64, u64)>,
    removed: Option<u64>,
    now: i64,
    r: Option<(i64, u64)>,
)
    requires
        call_ensures(auto_trim, (last, removed, now), r),
    ensures
        removed is None || removed == Some(0u64) ==> r == last,
        removed is Some && removed->0 > 0 ==> r == Some((now, removed->0)),
{
}

/// A connection of another era is not handed back.
pub proof fn a_connection_of_another_era_is_dropped(before: u64, now: u64, r: bool)
    requires
        call_ensures(may_publish, (before, now), r),
    ensures
        before != now ==> !r,
        before == now ==> r,
{
}

/// The loop waits for the interval, half a minute at the least, and for a
/// quarter of one where there was nothing to scan.
pub proof fn how_long_the_scan_loop_waits(groups: usize, spots: bool, interval: u64, r: u64)
    requires
        call_ensures(scan_nap, (groups, spots, interval), r),
    ensures
        groups == 0 && !spots ==> r == 15,
        (groups > 0 || spots) && interval >= 30 ==> r == interval,
        (groups > 0 || spots) && interval < 30 ==> r == 30,
{
}

/// What leads to the scanning steps of a pass.
pub proof fn what_leads_to_a_scan(s: &mut ScanRun, f: &PassFacts, r: ())
    requires
        call_ensures(ScanRun::next, (s, f), r),
    ensures
        final(s).step == PassStep::Ask <==> old(s).step is Rest || old(s).step is Nap || (old(s).step
            == PassStep::GiveDeepBack && old(s).plan.groups && f.groups_paused),
        final(s).step is Rest <==> (old(s).step == PassStep::Ask && f.groups_paused
            && f.spots_paused) || (old(s).step == PassStep::Recheck && f.spots_paused && (
        f.groups_paused || !old(s).plan.groups)),
        final(s).step is Rest && old(s).step == PassStep::Ask ==> final(s).step == PassStep::Rest(5),
        final(s).step is Rest && old(s).step == PassStep::Recheck ==> final(s).step
            == PassStep::Rest(1),
        final(s).step == PassStep::AwaitTurn <==> old(s).step == PassStep::Ask && !(f.groups_paused
            && f.spots_paused),
        final(s).step == PassStep::Recheck <==> old(s).step == PassStep::AwaitTurn,
        final(s).step == PassStep::Spots <==> old(s).step == PassStep::Recheck && !f.spots_paused,
        final(s).step == PassStep::Reclassify <==> f.reclassify && (old(s).step == PassStep::Spots
            || (old(s).step == PassStep::Recheck && f.spots_paused && old(s).plan.groups
            && !f.groups_paused)),
        final(s).step == PassStep::Groups <==> old(s).step == PassStep::Reclassify || (!f.reclassify
            && (old(s).step == PassStep::Spots || (old(s).step == PassStep::Recheck
            && f.spots_paused && old(s).plan.groups && !f.groups_paused))),
        final(s).step == PassStep::GiveDeepBack <==> old(s).step == PassStep::Groups,
{
}

/// What leads to the steps after the scan: titles are queued where groups were
/// scanned, gaps are filled where they may be, and the chores run where groups
/// were scanned, the index may be worked on and they are due.
pub proof fn what_follows_a_scan(s: &mut ScanRun, f: &PassFacts, r: ())
    requires
        call_ensures(ScanRun::next, (s, f), r),
    ensures
        final(s).step == PassStep::SeedTitles <==> old(s).step == PassStep::GiveDeepBack && !(old(s).plan.groups && f.groups_paused) && f.groups > 0,
        final(s).step == PassStep::FillGaps ==> f.gap_budget > 0 && old(s).coverage && f.groups > 0
            && !f.groups_paused && old(s).step == PassStep::SeedTitles,
        old(s).step == PassStep::SeedTitles && f.gap_budget > 0 && old(s).coverage && f.groups > 0
            && !f.groups_paused ==> final(s).step == PassStep::FillGaps,
        final(s).step == PassStep::Retention ==> f.groups > 0 && f.maintenance_ok && f.now
            - f.retention_at >= 3_600,
        old(s).step == PassStep::FillGaps && f.groups > 0 && f.maintenance_ok && f.now
            - f.retention_at >= 3_600 ==> final(s).step == PassStep::Retention,
        final(s).step == PassStep::Statistics ==> f.now - f.statistics_at >= 86_400 && (old(s).step
            == PassStep::Retention || (f.groups > 0 && f.maintenance_ok)),
        old(s).step == PassStep::Retention && f.now - f.statistics_at >= 86_400 ==> final(s).step
            == PassStep::Statistics,
        old(s).step == PassStep::Statistics ==> final(s).step == PassStep::Evict,
        old(s).step == PassStep::FillGaps && (f.groups == 0 || !f.maintenance_ok) ==> final(s).step
            == PassStep::Evict,
        final(s).step is Nap <==> old(s).step == PassStep::Evict,
        old(s).step == PassStep::Evict && f.groups == 0 && !old(s).plan.spots ==> final(s).step
            == PassStep::Nap(15),
        old(s).step == PassStep::Evict && (f.groups > 0 || old(s).plan.spots) && f.interval >= 30
            ==> final(s).step == PassStep::Nap(f.interval),
        old(s).step == PassStep::Evict && (f.groups > 0 || old(s).plan.spots) && f.interval < 30
            ==> final(s).step == PassStep::Nap(30),
{
}

/// What a pass scans is settled when it is asked and when it is its turn, and
/// nowhere else; whether several servers are scanned is settled when it is
/// asked.
pub proof fn when_a_pass_settles_what_it_scans(s: &mut ScanRun, f: &PassFacts, r: ())
    requires
        call_ensures(ScanRun::next, (s, f), r),
    ensures
        old(s).step != PassStep::Ask && old(s).step != PassStep::Recheck ==> final(s).plan == old(s).plan,
        final(s).step == PassStep::AwaitTurn ==> final(s).plan.groups == !f.groups_paused
            && final(s).plan.spots == !f.spots_paused && final(s).coverage == f.coverage,
        old(s).step == PassStep::Recheck ==> (final(s).plan.groups <==> old(s).plan.groups
            && !f.groups_paused) && (final(s).plan.spots <==> !f.spots_paused),
        old(s).step != PassStep::Ask ==> final(s).coverage == old(s).coverage,
{
}

/// Compaction is looked at only where it was asked for and the indexer is on.
pub proof fn when_compaction_is_looked_at(pending: bool, indexer_off: bool, r: bool)
    requires
        call_ensures(compact_asked, (pending, indexer_off), r),
    ensures
        !pending ==> !r,
        indexer_off ==> !r,
        pending && !indexer_off ==> r,
{
}

/// The file is touched only where it may be compacted now: in pieces where it
/// can be, else as a whole. That there is no room is said once an hour.
pub proof fn when_the_file_is_compacted(
    v: CompactVerdict,
    chunked: bool,
    secs_since_said: u64,
    r: CompactStep,
)
    requires
        call_ensures(compact_step, (v, chunked, secs_since_said), r),
    ensures
        r == CompactStep::Chunks <==> v == CompactVerdict::Go && chunked,
        r == CompactStep::Rewrite <==> v == CompactVerdict::Go && !chunked,
        r == CompactStep::SayNoRoom <==> v is NoRoom && secs_since_said >= 3_600,
{
}

/// Giving pages back starts where the index can be reached.
pub proof fn how_giving_pages_back_begins(left: Option<u64>, r: Chunks)
    requires
        call_ensures(Chunks::new, (left,), r),
    ensures
        r.failed <==> left is None,
        left is Some ==> r.left == left->0,
        r.done == 0 && !r.stood_down,
{
}

/// A piece runs exactly where there are pages to give back, nothing failed and
/// no download runs; a download that runs makes it stand down.
pub proof fn when_a_piece_runs(c: &mut Chunks, jobs: u64, r: ChunkStep)
    requires
        call_ensures(Chunks::look, (c, jobs), r),
    ensures
        r == ChunkStep::Run <==> !old(c).failed && old(c).left > 0 && jobs == 0,
        final(c).stood_down <==> old(c).stood_down || (!old(c).failed && old(c).left > 0 && jobs
            > 0),
        final(c).left == old(c).left && final(c).failed == old(c).failed && final(c).done == old(c).done,
{
}

/// After a piece another follows exactly where it gave something back; one
/// that could not reach the index has failed.
pub proof fn what_follows_a_piece(c: &mut Chunks, left: Option<u64>, r: ChunkStep)
    requires
        call_ensures(Chunks::ran, (c, left), r),
    ensures
        r == ChunkStep::Run <==> left is Some && left->0 < old(c).left,
        r == ChunkStep::Run ==> final(c).left == left->0,
        r == ChunkStep::Stop ==> final(c).left == old(c).left,
        final(c).failed <==> old(c).failed || left is None,
        left is Some && old(c).done < u64::MAX ==> final(c).done == old(c).done + 1,
        left is None ==> final(c).done == old(c).done,
{
}

/// Compaction is asked for again exactly where it failed or stood down.
pub proof fn when_compaction_is_asked_for_again(c: &Chunks, r: bool)
    requires
        call_ensures(Chunks::again, (c,), r),
    ensures
        c.failed ==> r,
        c.stood_down ==> r,
        !c.failed && !c.stood_down ==> !r,
{
}

/// One more arrival: a complete one is no longer parked and its name is handed
/// on last; an incomplete one is parked from now on, or from when it was first
/// seen. No other release is touched.
pub proof fn what_an_arrival_does(
    hits: Seq<WatchHit>,
    h: WatchHit,
    pending: Map<i64, i64>,
    now: i64,
    id: i64,
)
    ensures
        h.complete ==> !parked_after(hits.push(h), pending, now).contains_key(h.id),
        h.complete ==> ready_of(hits.push(h)) == ready_of(hits).push(h.name@),
        !h.complete ==> ready_of(hits.push(h)) == ready_of(hits),
        !h.complete ==> parked_after(hits.push(h), pending, now).contains_key(h.id),
        !h.complete && !parked_after(hits, pending, now).contains_key(h.id) ==> parked_after(
            hits.push(h),
            pending,
            now,
        )[h.id] == now,
        id != h.id ==> parked_after(hits.push(h), pending, now).contains_key(id) == parked_after(
            hits,
            pending,
            now,
        ).contains_key(id),
        id != h.id && parked_after(hits, pending, now).contains_key(id) ==> parked_after(
            hits.push(h),
            pending,
            now,
        )[id] == parked_after(hits, pending, now)[id],
        parked_after(Seq::empty(), pending, now) == pending,
        ready_of(Seq::empty()) == Seq::<Seq<char>>::empty(),
{
    assert(hits.push(h).drop_last() =~= hits);
}

/// One more parked release that is looked at again: it is forgotten exactly
/// where it waited for long enough or is complete, and its name is handed on
/// exactly where it became complete in time.
pub proof fn what_a_second_look_does(
    parked: Seq<Parked>,
    p: Parked,
    pending: Map<i64, i64>,
    now: i64,
    keep_secs: i64,
    id: i64,
)
    ensures
        now - p.first >= keep_secs || p.complete ==> !forgotten(
            pending,
            over_of(parked.push(p), now, keep_secs),
        ).contains_key(p.id),
        now - p.first < keep_secs && !p.complete ==> over_of(parked.push(p), now, keep_secs)
            == over_of(parked, now, keep_secs),
        id != p.id ==> forgotten(pending, over_of(parked.push(p), now, keep_secs)).contains_key(id)
            == forgotten(pending, over_of(parked, now, keep_secs)).contains_key(id),
        now - p.first < keep_secs && p.complete && p.name is Some ==> completed_of(
            parked.push(p),
            now,
            keep_secs,
        ) == completed_of(parked, now, keep_secs).push(p.name->0@),
        now - p.first >= keep_secs || !p.complete || p.name is None ==> completed_of(
            parked.push(p),
            now,
            keep_secs,
        ) == completed_of(parked, now, keep_secs),
        over_of(Seq::empty(), now, keep_secs) == Seq::<i64>::empty(),
        completed_of(Seq::empty(), now, keep_secs) == Seq::<Seq<char>>::empty(),
        forgotten(pending, Seq::empty()) == pending,
{
    assert(parked.push(p).drop_last() =~= parked);
    let before = over_of(parked, now, keep_secs);
    assert(before.push(p.id).drop_last() =~= before);
}

/// A tick follows the newest posts only where it is on, has a group, indexing
/// is not paused and no pass scans; the connections are kept only where it
/// will go on shortly.
pub proof fn when_the_newest_posts_are_followed(
    every: u64,
    groups: usize,
    paused: bool,
    scanning: bool,
    r: TipStep,
)
    requires
        call_ensures(tip_step, (every, groups, paused, scanning), r),
    ensures
        r == TipStep::Go <==> every > 0 && groups > 0 && !paused && !scanning,
        r is Wait <==> every > 0 && groups > 0 && !paused && scanning,
        r is HangUp <==> every == 0 || groups == 0 || paused,
        r is HangUp && (every == 0 || groups == 0) ==> r == TipStep::HangUp(30),
        r is HangUp && every > 0 && groups > 0 ==> r == TipStep::HangUp(5),
        r matches TipStep::Wait(n) ==> n <= 5 && n <= every && (n == 5 || n == every),
{
}

/// A tick takes no longer than its interval, and half a minute at the most.
pub proof fn how_long_a_tick_may_take(every: u64, r: u64)
    requires
        call_ensures(tip_deadline, (every,), r),
    ensures
        r <= every && r <= 30,
        r == every || r == 30,
{
}

/// The first of the groups of a tick is the one that leads it, and the next
/// tick is led by the one after it, round and round.
pub proof fn each_group_leads_in_turn(cursor: usize, groups: usize, lead: usize, next: usize)
    requires
        cursor < groups,
        call_ensures(tip_group, (cursor, 0usize, groups), lead),
        call_ensures(tip_next, (cursor, groups), next),
    ensures
        lead == cursor,
        cursor + 1 < groups ==> next == cursor + 1,
        cursor + 1 == groups ==> next == 0,
{
    wraps_once(cursor as int, groups as int);
    wraps_once(cursor + 1, groups as int);
}

/// A group is asked for the articles after its mark, where it has one, where
/// there are any, and where these are half a million at the most.
pub proof fn where_a_group_goes_on(mark: u64, high: u64, r: Option<u64>)
    requires
        call_ensures(tip_start, (mark, high), r),
    ensures
        r is Some <==> mark > 0 && high > mark && high - mark <= 500_000,
        r is Some ==> r->0 == mark + 1,
{
}

/// A piece is twenty thousand articles, or what is left of them.
pub proof fn how_long_a_piece_is(lo: u64, high: u64, r: u64)
    requires
        lo <= high,
        call_ensures(tip_chunk, (lo, high), r),
    ensures
        lo <= r <= high,
        r - lo < 20_000,
        r == high || r - lo == 19_999,
{
}

/// A tick leaves a group that has caught up, and every group when its time is
/// over; it stops altogether where indexing is paused; else it asks on.
pub proof fn what_a_tick_does_with_a_group(
    lo: u64,
    high: u64,
    late: bool,
    paused: bool,
    r: TipPiece,
)
    requires
        call_ensures(tip_piece, (lo, high, late, paused), r),
    ensures
        r == TipPiece::Leave <==> lo > high || late,
        r == TipPiece::Stop <==> lo <= high && !late && paused,
        r is Ask <==> lo <= high && !late && !paused,
        r matches TipPiece::Ask(n) ==> lo <= n <= high && n - lo < 20_000,
{
}

/// While a group is behind the next tick comes at once.
pub proof fn how_long_a_tick_is_waited_for(behind: bool, every: u64, r: u64)
    requires
        call_ensures(tip_nap, (behind, every), r),
    ensures
        behind ==> r == 1,
        !behind ==> r == every,
{
}

/// A server is left alone, for a quarter of an hour, only where all its
/// connections are in use, or where it says so in the words of a refusal.
pub proof fn which_servers_are_left_alone(err: ConnectError, tight: bool, r: Option<u64>)
    requires
        call_ensures(sampler_cap_cooldown, (err, tight), r),
    ensures
        r is Some <==> err == ConnectError::Capacity || (err == ConnectError::Permanent && tight),
        r is Some ==> r->0 == 900,
{
}

/// A server that was reached is no longer left alone; what happened to one
/// says nothing of another.
pub proof fn a_server_that_was_reached_is_asked_again(
    book: &mut Book<u64>,
    host: &str,
    err: Option<ConnectError>,
    tight: bool,
    now: u64,
    r: (),
    other: Seq<char>,
)
    requires
        old(book).wf(),
        now + 900 <= u64::MAX,
        call_ensures(reached, (book, host, err, tight, now), r),
    ensures
        err is None ==> final(book).at(host@) is None,
        err == Some(ConnectError::Capacity) ==> final(book).at(host@) == Some((now + 900) as u64),
        err == Some(ConnectError::Permanent) && tight ==> final(book).at(host@) == Some(
            (now + 900) as u64,
        ),
        err == Some(ConnectError::Permanent) && !tight ==> final(book).at(host@) == old(book).at(
            host@,
        ),
        err == Some(ConnectError::Other) ==> final(book).at(host@) == old(book).at(host@),
        other != host@ ==> final(book).at(other) == old(book).at(other),
{
}

/// A server is left alone until its time has come.
pub proof fn a_server_is_left_alone_for_its_time(book: &Book<u64>, host: &str, now: u64, r: bool)
    requires
        book.wf(),
        call_ensures(cooling, (book, host, now), r),
    ensures
        book.at(host@) is None ==> !r,
        book.at(host@) matches Some(t) ==> (r <==> now < t),
{
}

/// Sampling sits a tick out wherever it is off, offline, without an index or
/// beside a download, and nowhere else.
pub proof fn when_sampling_sits_out(
    rate: u64,
    offline: bool,
    indexer_off: bool,
    downloading: bool,
    r: bool,
)
    requires
        call_ensures(sampler_stands_down, (rate, offline, indexer_off, downloading), r),
    ensures
        rate == 0 ==> r,
        offline ==> r,
        indexer_off ==> r,
        downloading ==> r,
        rate > 0 && !offline && !indexer_off && !downloading ==> !r,
{
}

/// In an hour of ticks as many articles are sampled as are set, and fewer than
/// sixty more.
pub proof fn an_hour_of_sampling_gives_the_rate(rate: u64, r: u64)
    requires
        call_ensures(sampler_budget, (rate,), r),
    ensures
        rate <= r * 60 < rate + 60,
{
}

/// A post is as many whole days old as have passed since it was posted.
pub proof fn how_old_a_post_is(now: i64, posted: i64, r: u64)
    requires
        call_ensures(age_days, (now, posted), r),
    ensures
        now <= posted ==> r == 0,
        now > posted ==> 86_400 * r <= now - posted < 86_400 * (r + 1),
{
}

/// The hosts of the servers that are on: each of them, in order, and no other.
pub proof fn which_hosts_are_on(servers: Seq<ServerConf>, s: ServerConf)
    ensures
        s.enabled ==> enabled_of(servers.push(s)) == enabled_of(servers).push(s.host@),
        !s.enabled ==> enabled_of(servers.push(s)) == enabled_of(servers),
        enabled_of(Seq::empty()) == Seq::<Seq<char>>::empty(),
{
    assert(servers.push(s).drop_last() =~= servers);
}

} // verus!
