//! The download worker: what holds the queue, how a job starts, and what
//! becomes of it when its download is over.
use vstd::prelude::*;

use crate::daemon::Daemon;
use crate::job::{Job, JobState};
use crate::stall::SECOND;
use crate::text::{decimal, glue, glue3, to_decimal};

verus! {

/// What holds the queue.
#[derive(Clone, Copy, PartialEq, Eq, Structural, Debug)]
pub enum Hold {
    /// The disk has less room than it must keep.
    Disk,
    /// What may be fetched in this period was fetched.
    Quota,
}

/// What is shown of a hold: what there is, and what it is held against.
#[derive(Clone, Copy, PartialEq, Eq, Structural, Debug)]
pub struct Held {
    pub hold: Hold,
    pub have: u64,
    pub bound: u64,
}

/// Something to say once.
#[derive(Clone, Copy, PartialEq, Eq, Structural, Debug)]
pub enum Note {
    Nothing,
    Disk,
    Quota,
    Cleared,
}

/// What holds the queue, and what is shown of it.
#[derive(Clone, Copy, PartialEq, Eq, Structural, Debug)]
pub struct Guard {
    pub reason: Option<Hold>,
    pub shown: Option<Held>,
}

/// What the worker does next.
#[derive(Clone, Copy, PartialEq, Eq, Structural, Debug)]
pub enum Pass {
    /// Nothing, for so many seconds.
    Wait(u64),
    /// Pick a job; only one that is forced, if so.
    Pick { only_force: bool },
}

/// Whether the disk has less room than it must keep. What is not known holds
/// nothing.
pub open spec fn disk_low(min: u64, free: Option<u64>) -> bool {
    min > 0 && free is Some && free->0 < min
}

/// Whether the disk has less room than it must keep.
pub fn disk_is_low(min: u64, free: Option<u64>) -> (r: bool)
    ensures
        r == disk_low(min, free),
{
    match free {
        Some(f) => min > 0 && f < min,
        None => false,
    }
}

/// Whether the quota is used up.
pub open spec fn quota_spent(quota: u64, spent: Option<u64>) -> bool {
    quota > 0 && spent is Some && spent->0 >= quota
}

impl Guard {
    /// What the guard is after a pass, what is done, and what is said.
    pub open spec fn after(
        self,
        min: u64,
        free: Option<u64>,
        offline: bool,
        paused: bool,
        quota: u64,
        spent: Option<u64>,
    ) -> (Guard, Pass, Note) {
        if disk_low(min, free) {
            (
                Guard {
                    reason: Some(Hold::Disk),
                    shown: Some(Held { hold: Hold::Disk, have: free->0, bound: min }),
                },
                Pass::Wait(5),
                if self.reason == Some(Hold::Disk) {
                    Note::Nothing
                } else {
                    Note::Disk
                },
            )
        } else if offline {
            (self, Pass::Wait(1), Note::Nothing)
        } else if quota_spent(quota, spent) {
            (
                Guard {
                    reason: Some(Hold::Quota),
                    shown: Some(Held { hold: Hold::Quota, have: spent->0, bound: quota }),
                },
                Pass::Pick { only_force: true },
                if self.reason == Some(Hold::Quota) {
                    Note::Nothing
                } else {
                    Note::Quota
                },
            )
        } else if self.reason is Some && paused {
            (self, Pass::Pick { only_force: true }, Note::Nothing)
        } else {
            (
                Guard { reason: None, shown: None },
                Pass::Pick { only_force: paused },
                if self.reason is Some {
                    Note::Cleared
                } else {
                    Note::Nothing
                },
            )
        }
    }

    /// Nothing holds the queue.
    pub fn new() -> (r: Guard)
        ensures
            r == (Guard { reason: None, shown: None }),
    {
        Guard { reason: None, shown: None }
    }

    /// One pass of the guards. A full disk stops everything; being offline
    /// stops everything too, forced jobs as well; a pause and a used-up quota
    /// let forced jobs through. What holds is said when it begins and when it
    /// is over.
    pub fn step(
        &mut self,
        min: u64,
        free: Option<u64>,
        offline: bool,
        paused: bool,
        quota: u64,
        spent: Option<u64>,
    ) -> (r: (Pass, Note))
        ensures
            (*final(self), r.0, r.1) == old(self).after(min, free, offline, paused, quota, spent),
    {
        if let Some(f) = free {
            if disk_is_low(min, free) {
                let known: bool = self.reason == Some(Hold::Disk);
                self.reason = Some(Hold::Disk);
                self.shown = Some(Held { hold: Hold::Disk, have: f, bound: min });
                return (
                    Pass::Wait(5),
                    if known {
                        Note::Nothing
                    } else {
                        Note::Disk
                    },
                );
            }
        }
        if offline {
            return (Pass::Wait(1), Note::Nothing);
        }
        if quota > 0 {
            if let Some(s) = spent {
                if s >= quota {
                    let known: bool = self.reason == Some(Hold::Quota);
                    self.reason = Some(Hold::Quota);
                    self.shown = Some(Held { hold: Hold::Quota, have: s, bound: quota });
                    return (
                        Pass::Pick { only_force: true },
                        if known {
                            Note::Nothing
                        } else {
                            Note::Quota
                        },
                    );
                }
            }
        }
        if self.reason.is_some() && paused {
            return (Pass::Pick { only_force: true }, Note::Nothing);
        }
        let was: bool = self.reason.is_some();
        self.reason = None;
        self.shown = None;
        (
            Pass::Pick { only_force: paused },
            if was {
                Note::Cleared
            } else {
                Note::Nothing
            },
        )
    }
}

/// Nothing is picked while the disk is full, and nothing while offline.
pub proof fn nothing_starts_while_the_disk_is_full_or_offline(
    g: Guard,
    min: u64,
    free: Option<u64>,
    offline: bool,
    paused: bool,
    quota: u64,
    spent: Option<u64>,
)
    ensures
        disk_low(min, free) || offline <==> g.after(
            min,
            free,
            offline,
            paused,
            quota,
            spent,
        ).1 is Wait,
        g.after(min, free, offline, paused, quota, spent).1 == (Pass::Pick { only_force: false })
            ==> !paused && !quota_spent(quota, spent),
{
}

/// What holds the queue is said once: the same pass again says nothing.
pub proof fn a_hold_is_said_once(
    g: Guard,
    min: u64,
    free: Option<u64>,
    offline: bool,
    paused: bool,
    quota: u64,
    spent: Option<u64>,
)
    ensures
        ({
            let (h, _, _) = g.after(min, free, offline, paused, quota, spent);
            let (k, _, note) = h.after(min, free, offline, paused, quota, spent);
            k == h && note == Note::Nothing
        }),
{
}

// ---- the round of the worker --------------------------------------------------------

/// A step of the worker's round.
#[derive(Clone, Copy, PartialEq, Eq, Structural, Debug)]
pub enum WorkStep {
    /// Ask the guards.
    Guard,
    /// Do nothing, for so many milliseconds.
    Rest(u64),
    /// Pick a job; only one that is forced, if so.
    Pick { only_force: bool },
    /// See whether the sidecar holds the picked job.
    CheckHolder,
    /// Stop the sidecar that does.
    StopHolder,
    /// See whether the picked job still waits.
    RecheckPicked,
    /// Mark the job as downloading.
    Begin,
    /// Tell the indexer that a job runs.
    HoldIndexing,
    /// Wait until no pass over the index runs.
    AwaitIndexing,
    /// Make the progress counters this job's, at zero.
    ClaimCounters,
    /// Sample the post of a pointer.
    SamplePointer,
    /// File the pointer.
    FilePointer,
    /// Sample the post before it is fetched.
    Preflight,
    /// File a job that cannot be fetched.
    FileImpossible,
    /// Leave out the block accounts that have nothing left.
    ExcludeSpent,
    /// Clear what the job before has left behind.
    ClearSlots,
    Fetch,
    /// The network is done: say so, and give the counters back.
    StandDown,
    /// Wait for what the job before still does on disk.
    AwaitTail,
    StopSidecar,
    /// Count what was fetched against the quota and the accounts.
    Bill,
    /// Leave the rest of the job to a task of its own.
    HandTail,
}

/// What the worker has found out.
#[derive(Clone, Copy, PartialEq, Eq, Structural, Debug)]
pub struct WorkFacts {
    /// What the guards said.
    pub pass: Pass,
    pub picked: bool,
    /// Whether the sidecar holds the picked job.
    pub held: bool,
    /// Whether the picked job still waits.
    pub runnable: bool,
    /// Whether the indexer rests while a job runs.
    pub pause_indexing: bool,
    pub pointer: bool,
    /// Whether posts are sampled before they are fetched.
    pub preflight: bool,
    /// Whether the sample stopped the job.
    pub stopped: bool,
}

/// The step that follows.
pub open spec fn work_after(s: WorkStep, f: WorkFacts) -> WorkStep {
    match s {
        WorkStep::Guard => match f.pass {
            Pass::Wait(secs) => WorkStep::Rest(
                if secs <= 60 {
                    (secs * 1_000) as u64
                } else {
                    60_000
                },
            ),
            Pass::Pick { only_force } => WorkStep::Pick { only_force },
        },
        WorkStep::Rest(_) => WorkStep::Guard,
        WorkStep::Pick { only_force } => if f.picked {
            WorkStep::CheckHolder
        } else {
            WorkStep::Rest(500)
        },
        WorkStep::CheckHolder => if f.held {
            WorkStep::StopHolder
        } else {
            WorkStep::Begin
        },
        WorkStep::StopHolder => WorkStep::RecheckPicked,
        WorkStep::RecheckPicked => if f.runnable {
            WorkStep::Begin
        } else {
            WorkStep::Guard
        },
        WorkStep::Begin => WorkStep::HoldIndexing,
        WorkStep::HoldIndexing => if f.pause_indexing {
            WorkStep::AwaitIndexing
        } else {
            WorkStep::ClaimCounters
        },
        WorkStep::AwaitIndexing => WorkStep::ClaimCounters,
        WorkStep::ClaimCounters => if f.pointer {
            WorkStep::SamplePointer
        } else if f.preflight {
            WorkStep::Preflight
        } else {
            WorkStep::ExcludeSpent
        },
        WorkStep::SamplePointer => WorkStep::FilePointer,
        WorkStep::FilePointer => WorkStep::Guard,
        WorkStep::Preflight => if f.stopped {
            WorkStep::FileImpossible
        } else {
            WorkStep::ExcludeSpent
        },
        WorkStep::FileImpossible => WorkStep::Guard,
        WorkStep::ExcludeSpent => WorkStep::ClearSlots,
        WorkStep::ClearSlots => WorkStep::Fetch,
        WorkStep::Fetch => WorkStep::StandDown,
        WorkStep::StandDown => WorkStep::AwaitTail,
        WorkStep::AwaitTail => WorkStep::StopSidecar,
        WorkStep::StopSidecar => WorkStep::Bill,
        WorkStep::Bill => WorkStep::HandTail,
        WorkStep::HandTail => WorkStep::Guard,
    }
}

/// The step that follows. A wait of the guards is a minute at most.
pub fn work_next(s: WorkStep, f: WorkFacts) -> (r: WorkStep)
    ensures
        r == work_after(s, f),
{
    match s {
        WorkStep::Guard => match f.pass {
            Pass::Wait(secs) => WorkStep::Rest(
                if secs <= 60 {
                    secs * 1_000
                } else {
                    60_000
                },
            ),
            Pass::Pick { only_force } => WorkStep::Pick { only_force },
        },
        WorkStep::Rest(_) => WorkStep::Guard,
        WorkStep::Pick { only_force: _ } => if f.picked {
            WorkStep::CheckHolder
        } else {
            WorkStep::Rest(500)
        },
        WorkStep::CheckHolder => if f.held {
            WorkStep::StopHolder
        } else {
            WorkStep::Begin
        },
        WorkStep::StopHolder => WorkStep::RecheckPicked,
        WorkStep::RecheckPicked => if f.runnable {
            WorkStep::Begin
        } else {
            WorkStep::Guard
        },
        WorkStep::Begin => WorkStep::HoldIndexing,
        WorkStep::HoldIndexing => if f.pause_indexing {
            WorkStep::AwaitIndexing
        } else {
            WorkStep::ClaimCounters
        },
        WorkStep::AwaitIndexing => WorkStep::ClaimCounters,
        WorkStep::ClaimCounters => if f.pointer {
            WorkStep::SamplePointer
        } else if f.preflight {
            WorkStep::Preflight
        } else {
            WorkStep::ExcludeSpent
        },
        WorkStep::SamplePointer => WorkStep::FilePointer,
        WorkStep::FilePointer => WorkStep::Guard,
        WorkStep::Preflight => if f.stopped {
            WorkStep::FileImpossible
        } else {
            WorkStep::ExcludeSpent
        },
        WorkStep::FileImpossible => WorkStep::Guard,
        WorkStep::ExcludeSpent => WorkStep::ClearSlots,
        WorkStep::ClearSlots => WorkStep::Fetch,
        WorkStep::Fetch => WorkStep::StandDown,
        WorkStep::StandDown => WorkStep::AwaitTail,
        WorkStep::AwaitTail => WorkStep::StopSidecar,
        WorkStep::StopSidecar => WorkStep::Bill,
        WorkStep::Bill => WorkStep::HandTail,
        WorkStep::HandTail => WorkStep::Guard,
    }
}

/// How far a step is into a round.
pub open spec fn work_rank(s: WorkStep) -> int {
    match s {
        WorkStep::Guard => 0,
        WorkStep::Rest(_) => 0,
        WorkStep::Pick { only_force } => 1,
        WorkStep::CheckHolder => 2,
        WorkStep::StopHolder => 3,
        WorkStep::RecheckPicked => 4,
        WorkStep::Begin => 5,
        WorkStep::HoldIndexing => 6,
        WorkStep::AwaitIndexing => 7,
        WorkStep::ClaimCounters => 8,
        WorkStep::SamplePointer => 9,
        WorkStep::FilePointer => 10,
        WorkStep::Preflight => 11,
        WorkStep::FileImpossible => 12,
        WorkStep::ExcludeSpent => 13,
        WorkStep::ClearSlots => 14,
        WorkStep::Fetch => 15,
        WorkStep::StandDown => 16,
        WorkStep::AwaitTail => 17,
        WorkStep::StopSidecar => 18,
        WorkStep::Bill => 19,
        WorkStep::HandTail => 20,
    }
}

/// The steps of a round come in one order: each is further on than the one
/// before, until the guards are asked again.
pub proof fn a_round_goes_forward(s: WorkStep, f: WorkFacts)
    ensures
        work_rank(work_after(s, f)) > work_rank(s) || work_after(s, f) == WorkStep::Guard
            || work_after(s, f) is Rest,
{
}

/// A job never begins beside a sidecar that holds it, nor one that the
/// sidecar has finished meanwhile.
pub proof fn a_held_job_does_not_begin(s: WorkStep, f: WorkFacts)
    requires
        work_after(s, f) == WorkStep::Begin,
    ensures
        (s == WorkStep::CheckHolder && !f.held) || (s == WorkStep::RecheckPicked && f.runnable),
{
}

/// A fetch begins on cleared slots, so that nothing of the job before is
/// counted as this one's; and a job that a sample has stopped is not fetched.
pub proof fn a_fetch_begins_on_cleared_slots(s: WorkStep, f: WorkFacts)
    ensures
        work_after(s, f) == WorkStep::Fetch ==> s == WorkStep::ClearSlots,
        work_after(s, f) == WorkStep::ClearSlots ==> s == WorkStep::ExcludeSpent,
        s == WorkStep::Preflight && f.stopped ==> work_after(s, f) == WorkStep::FileImpossible,
{
}

/// After a fetch the network is said to be done before anything is waited
/// for, and what was fetched is counted before the next job is picked.
pub proof fn what_follows_a_fetch(f: WorkFacts, g: WorkFacts, h: WorkFacts, i: WorkFacts)
    ensures
        work_after(WorkStep::Fetch, f) == WorkStep::StandDown,
        work_after(work_after(WorkStep::Fetch, f), g) == WorkStep::AwaitTail,
        work_after(work_after(work_after(WorkStep::Fetch, f), g), h) == WorkStep::StopSidecar,
        work_after(work_after(work_after(work_after(WorkStep::Fetch, f), g), h), i)
            == WorkStep::Bill,
{
}

/// Whether the ledger of the quota is opened anew: on first use, and when the
/// period changes. One that is open goes on counting when the quota is lifted.
pub fn ledger_reopens(quota: u64, open: Option<u8>, period: u8) -> (r: bool)
    ensures
        r == match open {
            Some(p) => p != period,
            None => quota > 0,
        },
{
    match open {
        Some(p) => p != period,
        None => quota > 0,
    }
}

/// Whether a job may still start once its sidecar was stopped, which may have
/// finished it.
pub fn still_runnable(job: &Job) -> (r: bool)
    ensures
        r == (!job.paused && job.state == JobState::Queued),
{
    !job.paused && job.state == JobState::Queued
}

/// How late a job starts: nothing was ahead of it when it was added, and it
/// waited for more than two seconds all the same.
pub open spec fn late_by(j: Job, now: u64) -> Option<u64> {
    match j.queued_at {
        Some(at) if j.idle_at_add && now - at > 2 * SECOND => Some((now - at) as u64),
        _ => None,
    }
}

/// Starts a job, and says how late, where it is. When it was added is
/// forgotten: a job that starts again is not late once more.
pub fn start(job: &mut Job, now: u64) -> (r: Option<u64>)
    ensures
        r == late_by(*old(job), now),
        *final(job) == (Job { state: JobState::Downloading, queued_at: None, ..*old(job) }),
{
    job.state = JobState::Downloading;
    let at: Option<u64> = job.queued_at;
    job.queued_at = None;
    match at {
        Some(t) => if job.idle_at_add && now >= t && now - t > 2 * SECOND {
            Some(now - t)
        } else {
            None
        },
        None => None,
    }
}

/// A job is late once: started again, it is not.
pub proof fn a_late_start_is_said_once(j: Job, k: Job, now: u64)
    requires
        k == (Job { state: k.state, queued_at: None, ..j }),
    ensures
        late_by(k, now) is None,
{
}

/// On which terms a job is fetched.
#[derive(Clone, Copy, PartialEq, Eq, Structural, Debug)]
pub struct Terms {
    /// How many connections, articles in flight and decoders there are.
    pub connections: u64,
    pub window: u64,
    pub decoders: u64,
    pub fast_verify: bool,
    pub verify_lean: bool,
    pub par_cleanup: bool,
    /// Whether repair data may be fetched before it is known to be needed.
    pub ahead: bool,
    /// Whether providers that are known to have nothing are left out.
    pub routed: bool,
}

/// A number, or one where it is none.
pub open spec fn one_at_least(n: u64) -> u64 {
    if n < 1 {
        1
    } else {
        n
    }
}

/// The terms that the live settings are. They are read once for each job; a
/// change holds from the next one on. What is only a guess is not fetched
/// against a quota.
pub open spec fn terms_in(d: Daemon) -> Terms {
    Terms {
        connections: one_at_least(d.engine.connections),
        window: one_at_least(d.numbers.window),
        decoders: one_at_least(d.numbers.decoders),
        fast_verify: d.engine.fast_verify,
        verify_lean: d.engine.verify_lean,
        par_cleanup: d.switches.par_cleanup,
        ahead: d.numbers.quota == 0,
        routed: d.switches.oracle_route,
    }
}

/// The terms of the next fetch.
pub fn terms(d: &Daemon) -> (r: Terms)
    ensures
        r == terms_in(*d),
{
    Terms {
        connections: at_least_one(d.engine.connections),
        window: at_least_one(d.numbers.window),
        decoders: at_least_one(d.numbers.decoders),
        fast_verify: d.engine.fast_verify,
        verify_lean: d.engine.verify_lean,
        par_cleanup: d.switches.par_cleanup,
        ahead: d.numbers.quota == 0,
        routed: d.switches.oracle_route,
    }
}

/// What looking at a few of a post's articles came to.
pub enum Sampled {
    /// More is missing than can be repaired; why, in words.
    Impossible(String),
    Fine,
    /// It could not be found out; why, in words.
    Unknown(String),
}

/// What is said of a post of which more is missing than can be repaired.
pub open spec fn impossible_of(missing: u64, recovery: u64) -> Seq<char> {
    "pre-flight: articles missing beyond repair - an estimated "@ + decimal(missing as int)
        + " payload segment(s) unavailable vs "@ + decimal(recovery as int)
        + " recovery block(s) in the NZB"@
}

/// What is said of a post of which more is missing than can be repaired.
pub fn impossible_text(missing: u64, recovery: u64) -> (r: String)
    ensures
        r@ == impossible_of(missing, recovery),
{
    let m: String = to_decimal(missing);
    let n: String = to_decimal(recovery);
    let a: String = glue3(
        "pre-flight: articles missing beyond repair - an estimated ",
        m.as_str(),
        " payload segment(s) unavailable vs ",
    );
    glue3(a.as_str(), n.as_str(), " recovery block(s) in the NZB")
}

/// Whether a job is only a pointer for now. Forcing it means to fetch it.
pub fn is_pointer(job: &Job) -> (r: bool)
    ensures
        r == (job.library && job.priority < 2),
{
    job.library && job.priority < 2
}

/// What becomes of a pointer whose post was sampled, and whether its file is
/// written.
pub fn settle_pointer(job: &mut Job, found: Sampled, now: i64) -> (r: bool)
    ensures
        r == (found is Fine),
        match found {
            Sampled::Fine => *final(job) == (Job {
                state: JobState::Completed,
                finished_unix: Some(now),
                ..*old(job)
            }),
            Sampled::Impossible(m) => *final(job) == (Job {
                state: JobState::Failed,
                fail_message: m,
                finished_unix: Some(now),
                ..*old(job)
            }),
            Sampled::Unknown(m) => *final(job) == (Job {
                state: JobState::Failed,
                fail_message: m,
                finished_unix: Some(now),
                ..*old(job)
            }),
        },
{
    job.finished_unix = Some(now);
    match found {
        Sampled::Fine => {
            job.state = JobState::Completed;
            true
        },
        Sampled::Impossible(m) => {
            job.state = JobState::Failed;
            job.fail_message = m;
            false
        },
        Sampled::Unknown(m) => {
            job.state = JobState::Failed;
            job.fail_message = m;
            false
        },
    }
}

/// Whether sampling a post before its download stops the job. Only a post
/// that cannot be repaired does: what could not be found out is no verdict.
/// `detail` is what was logged meanwhile.
pub fn settle_preflight(job: &mut Job, found: Sampled, detail: String, now: i64) -> (r: bool)
    ensures
        r == (found is Impossible),
        *final(job) == match found {
            Sampled::Impossible(m) => Job {
                state: JobState::Failed,
                fail_message: m,
                fail_detail: detail,
                finished_unix: Some(now),
                ..*old(job)
            },
            _ => *old(job),
        },
{
    match found {
        Sampled::Impossible(m) => {
            job.state = JobState::Failed;
            job.fail_message = m;
            job.fail_detail = detail;
            job.finished_unix = Some(now);
            true
        },
        _ => false,
    }
}

/// Whether a finished job is a pointer whose post is to be sampled again.
pub fn recheck_due(job: &Job) -> (r: bool)
    ensures
        r == (job.library && !job.fetched && job.state == JobState::Completed),
{
    job.library && !job.fetched && job.state == JobState::Completed
}

/// What becomes of a pointer whose post was sampled again, and whether that
/// changes anything.
pub fn settle_recheck(job: &mut Job, found: &Sampled) -> (r: bool)
    ensures
        r == (found is Impossible),
        r ==> final(job).fail_message@ == "content no longer retrievable"@,
        *final(job) == (if r {
            Job {
                state: JobState::Failed,
                fail_message: final(job).fail_message,
                ..*old(job)
            }
        } else {
            *old(job)
        }),
{
    match found {
        Sampled::Impossible(_) => {
            job.state = JobState::Failed;
            job.fail_message = "content no longer retrievable".to_owned();
            true
        },
        _ => false,
    }
}

/// How a download went, other than what it returned.
pub struct Landed {
    /// What this run fetched.
    pub fetched_bytes: u64,
    /// What an earlier run had left.
    pub resumed_bytes: u64,
    /// How many blocks were checked, and how many of them are bad.
    pub checked: u64,
    pub bad: u64,
    pub shape: Option<String>,
    pub crc: Option<u32>,
    pub now: i64,
}

/// Why a download failed.
pub struct Failure {
    pub error: String,
    /// Whether the error says that the post is not there.
    pub unavailable: bool,
    /// What sampling the post beforehand adds to that.
    pub clause: Option<String>,
    /// Whether the disk filled up, and how many gigabytes are to be freed.
    pub disk_full: bool,
    pub need_gb: String,
    /// What was logged while the job ran.
    pub detail: String,
}

/// What becomes of a job whose download is over.
#[derive(Clone, Copy, PartialEq, Eq, Structural, Debug)]
pub enum Settled {
    /// Back in the queue, to go on where it stopped.
    Requeued,
    /// To be filed; what follows a finished job is run, if so.
    Filed { hooks: bool },
}

/// What is on disk of a job.
pub open spec fn on_disk(l: Landed) -> u64 {
    if l.fetched_bytes + l.resumed_bytes > u64::MAX {
        u64::MAX
    } else {
        (l.fetched_bytes + l.resumed_bytes) as u64
    }
}

/// What is said of a failure.
pub open spec fn failure_of(f: Failure, sampled: bool) -> Seq<char> {
    let first = if sampled && f.unavailable && f.clause is Some {
        f.error@ + f.clause->0@
    } else {
        f.error@
    };
    if f.disk_full {
        first + "; free about "@ + f.need_gb@
            + " GB on that disk and hit Retry - the downloaded archive parts are kept, so nothing is re-downloaded and only the unpack re-runs"@
    } else {
        first
    }
}

/// What is said of a failure: the error first, and after it what sampling the
/// post had found, and what is to be done about a full disk.
pub fn failure_text(f: &Failure, sampled: bool) -> (r: String)
    ensures
        r@ == failure_of(*f, sampled),
{
    let mut s: String = f.error.as_str().to_owned();
    if sampled && f.unavailable {
        match &f.clause {
            Some(c) => {
                s = glue(s.as_str(), c.as_str());
            },
            None => {},
        }
    }
    if f.disk_full {
        s = glue3(s.as_str(), "; free about ", f.need_gb.as_str());
        s = glue(
            s.as_str(),
            " GB on that disk and hit Retry - the downloaded archive parts are kept, so nothing is re-downloaded and only the unpack re-runs",
        );
    }
    s
}

/// Whether a pause stopped a job, which then goes on later.
pub open spec fn was_paused(j: Job, failure: Option<Failure>) -> bool {
    j.suspended && !j.tombstone && failure is Some
}

/// A job with what its download found out. What an earlier run found out of
/// the payload is kept where this one found out nothing.
pub open spec fn with_payload(j: Job, l: Landed, shape: String) -> Job {
    Job {
        archive_shape: shape,
        downloaded_bytes: l.fetched_bytes,
        bad_blocks: if l.checked > 0 {
            Some(l.bad)
        } else {
            j.bad_blocks
        },
        verify_blocks: if l.checked > 0 {
            l.checked
        } else {
            j.verify_blocks
        },
        inner_crc: match l.crc {
            Some(c) => c,
            None => j.inner_crc,
        },
        finished_unix: Some(l.now),
        ..j
    }
}

/// The shape that a job is left with.
pub open spec fn shape_after(j: Job, l: Landed) -> String {
    match l.shape {
        Some(s) => s,
        None => j.archive_shape,
    }
}

fn keep_payload(job: &mut Job, l: Landed)
    ensures
        *final(job) == with_payload(*old(job), l, shape_after(*old(job), l)),
{
    job.downloaded_bytes = l.fetched_bytes;
    if l.checked > 0 {
        job.bad_blocks = Some(l.bad);
        job.verify_blocks = l.checked;
    }
    if let Some(s) = l.shape {
        job.archive_shape = s;
    }
    if let Some(c) = l.crc {
        job.inner_crc = c;
    }
    job.finished_unix = Some(l.now);
}

/// A job with how its download ended; `message` is what is said of it.
pub open spec fn with_end(j: Job, failure: Option<Failure>, message: String) -> Job {
    Job {
        state: if failure is Some {
            JobState::Failed
        } else {
            JobState::Completed
        },
        fetched: j.fetched || failure is None,
        suspended: false,
        fail_message: message,
        fail_detail: match failure {
            Some(f) => f.detail,
            None => j.fail_detail,
        },
        ..j
    }
}

fn keep_end(job: &mut Job, failure: Option<Failure>)
    ensures
        *final(job) == with_end(*old(job), failure, final(job).fail_message),
        failure matches Some(f) ==> final(job).fail_message@ == failure_of(
            f,
            old(job).health is Some,
        ),
        failure is None ==> final(job).fail_message == old(job).fail_message,
{
    job.suspended = false;
    match failure {
        None => {
            job.state = JobState::Completed;
            job.fetched = true;
        },
        Some(f) => {
            job.state = JobState::Failed;
            job.fail_message = failure_text(&f, job.health.is_some());
            job.fail_detail = f.detail;
        },
    }
}

/// What becomes of a job whose download is over. One that a pause stopped
/// goes back in the queue with what is on disk. Any other is filed, as
/// completed or as failed, with what its download found out. One that was
/// moved to the back is no finished job, unless it finished all the same.
pub fn settle(job: &mut Job, failure: Option<Failure>, l: Landed) -> (r: Settled)
    ensures
        if was_paused(*old(job), failure) {
            &&& r == Settled::Requeued
            &&& *final(job) == (Job {
                state: JobState::Queued,
                suspended: false,
                downloaded_bytes: on_disk(l),
                ..*old(job)
            })
        } else {
            &&& r == (Settled::Filed { hooks: !(failure is Some && old(job).demote) })
            &&& *final(job) == with_payload(
                with_end(*old(job), failure, final(job).fail_message),
                l,
                shape_after(*old(job), l),
            )
            &&& match failure {
                Some(f) => final(job).fail_message@ == failure_of(f, old(job).health is Some),
                None => final(job).fail_message == old(job).fail_message,
            }
        },
{
    if job.suspended && !job.tombstone && failure.is_some() {
        job.state = JobState::Queued;
        job.suspended = false;
        job.downloaded_bytes = l.fetched_bytes.saturating_add(l.resumed_bytes);
        return Settled::Requeued;
    }
    let failed: bool = failure.is_some();
    keep_end(job, failure);
    keep_payload(job, l);
    Settled::Filed { hooks: !(failed && job.demote) }
}

/// A live setting of which there must be one at least.
pub fn at_least_one(n: u64) -> (r: u64)
    ensures
        r == one_at_least(n),
{
    if n < 1 {
        1
    } else {
        n
    }
}

// ---- laws -----------------------------------------------------------------

/// What a pass of the guards comes to. It waits exactly while the disk has
/// less room than it must keep, five seconds at a time, or while offline, a
/// second at a time. Otherwise a job is picked, and only a forced one exactly
/// where the queue is paused or the quota is used up.
pub proof fn what_a_pass_comes_to(
    g: &mut Guard,
    min: u64,
    free: Option<u64>,
    offline: bool,
    paused: bool,
    quota: u64,
    spent: Option<u64>,
    r: (Pass, Note),
)
    requires
        call_ensures(Guard::step, (g, min, free, offline, paused, quota, spent), r),
    ensures
        r.0 is Wait <==> offline || (min > 0 && free is Some && free->0 < min),
        r.0 == Pass::Wait(5) <==> min > 0 && free is Some && free->0 < min,
        r.0 is Wait ==> r.0 == Pass::Wait(5) || r.0 == Pass::Wait(1),
        r.0 is Pick ==> (r.0->only_force <==> paused || (quota > 0 && spent is Some && spent->0
            >= quota)),
{
}

/// What holds the queue after a pass, and what is shown of it: the disk where
/// it is full, the quota where that is used up and nothing else holds; being
/// offline, and a pause, leave what held before; else nothing holds.
pub proof fn what_holds_after_a_pass(
    g: &mut Guard,
    min: u64,
    free: Option<u64>,
    offline: bool,
    paused: bool,
    quota: u64,
    spent: Option<u64>,
    r: (Pass, Note),
)
    requires
        call_ensures(Guard::step, (g, min, free, offline, paused, quota, spent), r),
    ensures
        min > 0 && free is Some && free->0 < min ==> final(g).reason == Some(Hold::Disk)
            && final(g).shown == Some(Held { hold: Hold::Disk, have: free->0, bound: min }),
        !(min > 0 && free is Some && free->0 < min) && offline ==> *final(g) == *old(g),
        r.0 is Pick && quota > 0 && spent is Some && spent->0 >= quota ==> final(g).reason == Some(
            Hold::Quota,
        ) && final(g).shown == Some(Held { hold: Hold::Quota, have: spent->0, bound: quota }),
        r.0 is Pick && !(quota > 0 && spent is Some && spent->0 >= quota) && paused
            && old(g).reason is Some ==> *final(g) == *old(g),
        r.0 is Pick && !(quota > 0 && spent is Some && spent->0 >= quota) && (!paused
            || old(g).reason is None) ==> final(g).reason is None && final(g).shown is None,
{
}

/// A hold is said exactly when it begins, under its own name, and its end
/// exactly when it is over.
pub proof fn a_hold_is_said_when_it_begins_and_ends(
    g: &mut Guard,
    min: u64,
    free: Option<u64>,
    offline: bool,
    paused: bool,
    quota: u64,
    spent: Option<u64>,
    r: (Pass, Note),
)
    requires
        call_ensures(Guard::step, (g, min, free, offline, paused, quota, spent), r),
    ensures
        r.1 == Note::Disk <==> final(g).reason == Some(Hold::Disk) && old(g).reason != Some(
            Hold::Disk,
        ),
        r.1 == Note::Quota <==> final(g).reason == Some(Hold::Quota) && old(g).reason != Some(
            Hold::Quota,
        ),
        r.1 == Note::Cleared <==> final(g).reason is None && old(g).reason is Some,
        r.1 == Note::Nothing <==> final(g).reason == old(g).reason,
{
}

/// What leads to each step of a round, the turns of the guards and of the
/// picking first.
pub proof fn what_leads_to_a_pick(s: WorkStep, f: WorkFacts, r: WorkStep)
    requires
        call_ensures(work_next, (s, f), r),
    ensures
        r == WorkStep::Guard <==> s is Rest || s == WorkStep::FilePointer || s
            == WorkStep::FileImpossible || s == WorkStep::HandTail || (s == WorkStep::RecheckPicked
            && !f.runnable),
        r is Rest <==> (s == WorkStep::Guard && f.pass is Wait) || (s is Pick && !f.picked),
        s == WorkStep::Guard && f.pass is Wait && f.pass->Wait_0 <= 60 ==> r == WorkStep::Rest(
            (f.pass->Wait_0 * 1_000) as u64,
        ),
        s == WorkStep::Guard && f.pass is Wait && f.pass->Wait_0 > 60 ==> r == WorkStep::Rest(
            60_000,
        ),
        s is Pick && !f.picked ==> r == WorkStep::Rest(500),
        r is Pick <==> s == WorkStep::Guard && f.pass is Pick,
        r is Pick ==> r->Pick_only_force == f.pass->only_force,
        r == WorkStep::CheckHolder <==> s is Pick && f.picked,
        r == WorkStep::StopHolder <==> s == WorkStep::CheckHolder && f.held,
        r == WorkStep::RecheckPicked <==> s == WorkStep::StopHolder,
        r == WorkStep::Begin <==> (s == WorkStep::CheckHolder && !f.held) || (s
            == WorkStep::RecheckPicked && f.runnable),
{
}

/// What leads to each of the steps of a job that has begun.
pub proof fn what_leads_to_a_fetch(s: WorkStep, f: WorkFacts, r: WorkStep)
    requires
        call_ensures(work_next, (s, f), r),
    ensures
        r == WorkStep::HoldIndexing <==> s == WorkStep::Begin,
        r == WorkStep::AwaitIndexing <==> s == WorkStep::HoldIndexing && f.pause_indexing,
        r == WorkStep::ClaimCounters <==> s == WorkStep::AwaitIndexing || (s
            == WorkStep::HoldIndexing && !f.pause_indexing),
        r == WorkStep::SamplePointer <==> s == WorkStep::ClaimCounters && f.pointer,
        r == WorkStep::FilePointer <==> s == WorkStep::SamplePointer,
        r == WorkStep::Preflight <==> s == WorkStep::ClaimCounters && !f.pointer && f.preflight,
        r == WorkStep::FileImpossible <==> s == WorkStep::Preflight && f.stopped,
        r == WorkStep::ExcludeSpent <==> (s == WorkStep::ClaimCounters && !f.pointer
            && !f.preflight) || (s == WorkStep::Preflight && !f.stopped),
        r == WorkStep::ClearSlots <==> s == WorkStep::ExcludeSpent,
        r == WorkStep::Fetch <==> s == WorkStep::ClearSlots,
        r == WorkStep::StandDown <==> s == WorkStep::Fetch,
        r == WorkStep::AwaitTail <==> s == WorkStep::StandDown,
        r == WorkStep::StopSidecar <==> s == WorkStep::AwaitTail,
        r == WorkStep::Bill <==> s == WorkStep::StopSidecar,
        r == WorkStep::HandTail <==> s == WorkStep::Bill,
{
}

/// A run of the worker: each step follows from the one before and from what
/// was found out at it.
pub open spec fn is_run(steps: Seq<WorkStep>, facts: Seq<WorkFacts>) -> bool {
    &&& steps.len() == facts.len() + 1
    &&& forall|i: int|
        0 <= i < facts.len() ==> steps[i + 1] == work_after(steps[i], #[trigger] facts[i])
}

proof fn filed_before_the_guards(steps: Seq<WorkStep>, facts: Seq<WorkFacts>, n: int)
    requires
        is_run(steps, facts),
        0 < n < steps.len(),
        steps[0] == WorkStep::SamplePointer || (steps[0] == WorkStep::Preflight
            && facts[0].stopped),
        forall|m: int| 0 < m < n ==> #[trigger] steps[m] != WorkStep::Guard,
    ensures
        steps[n] == WorkStep::Guard || steps[n] == WorkStep::FilePointer || steps[n]
            == WorkStep::FileImpossible,
    decreases n,
{
    let f = facts[n - 1];
    assert(steps[n] == work_after(steps[n - 1], f));
    if n > 1 {
        filed_before_the_guards(steps, facts, n - 1);
        assert(steps[n - 1] != WorkStep::Guard);
    }
}

/// A pointer, and a job that a sample has stopped, is never fetched: however
/// a run goes on from there, the guards are asked again, and thereby another
/// job is picked, before anything is fetched.
pub proof fn a_stopped_job_is_never_fetched(
    steps: Seq<WorkStep>,
    facts: Seq<WorkFacts>,
    n: int,
)
    requires
        is_run(steps, facts),
        0 <= n < steps.len(),
        steps[0] == WorkStep::SamplePointer || (steps[0] == WorkStep::Preflight
            && facts[0].stopped),
        steps[n] == WorkStep::Fetch,
    ensures
        exists|m: int| 0 < m < n && #[trigger] steps[m] == WorkStep::Guard,
{
    if forall|m: int| 0 < m < n ==> #[trigger] steps[m] != WorkStep::Guard {
        filed_before_the_guards(steps, facts, n);
    }
}

/// A job that is no pointer, and that no sample has stopped, is fetched in
/// the round that it has begun in.
pub proof fn any_other_job_is_fetched(steps: Seq<WorkStep>, facts: Seq<WorkFacts>)
    requires
        is_run(steps, facts),
        steps.len() > 4,
        steps[0] == WorkStep::ClaimCounters,
        !facts[0].pointer,
        facts[0].preflight ==> !facts[1].stopped,
    ensures
        facts[0].preflight ==> steps[1] == WorkStep::Preflight && steps[4] == WorkStep::Fetch,
        !facts[0].preflight ==> steps[3] == WorkStep::Fetch,
{
    let (a, b, c, d) = (facts[0], facts[1], facts[2], facts[3]);
    assert(steps[1] == work_after(steps[0], a));
    assert(steps[2] == work_after(steps[1], b));
    assert(steps[3] == work_after(steps[2], c));
    assert(steps[4] == work_after(steps[3], d));
}

/// What a run still has to pass on its way from the guards to a fetch.
spec fn ahead_of_a_fetch(s: WorkStep) -> int {
    match s {
        WorkStep::Guard => 0,
        WorkStep::Rest(_) => 0,
        WorkStep::Pick { only_force } => 1,
        WorkStep::CheckHolder => 2,
        WorkStep::StopHolder => 2,
        WorkStep::RecheckPicked => 2,
        WorkStep::Begin => 3,
        WorkStep::HoldIndexing => 4,
        WorkStep::AwaitIndexing => 4,
        WorkStep::ClaimCounters => 5,
        WorkStep::Preflight => 6,
        WorkStep::ExcludeSpent => 7,
        WorkStep::ClearSlots => 8,
        WorkStep::Fetch => 9,
        _ => -1,
    }
}

proof fn passed_on_the_way(steps: Seq<WorkStep>, facts: Seq<WorkFacts>, n: int)
    requires
        is_run(steps, facts),
        0 <= n < steps.len(),
        steps[0] == WorkStep::Guard,
    ensures
        ahead_of_a_fetch(steps[n]) >= 1 ==> exists|m: int|
            0 < m <= n && #[trigger] steps[m] is Pick,
        ahead_of_a_fetch(steps[n]) >= 3 ==> exists|m: int|
            0 < m <= n && #[trigger] steps[m] == WorkStep::Begin,
        ahead_of_a_fetch(steps[n]) >= 5 ==> exists|m: int|
            0 < m <= n && #[trigger] steps[m] == WorkStep::ClaimCounters,
        ahead_of_a_fetch(steps[n]) >= 8 ==> exists|m: int|
            0 < m <= n && #[trigger] steps[m] == WorkStep::ClearSlots,
    decreases n,
{
    if n > 0 {
        let f = facts[n - 1];
        assert(steps[n] == work_after(steps[n - 1], f));
        passed_on_the_way(steps, facts, n - 1);
    }
}

/// Whatever is fetched after the guards were asked was picked, was marked as
/// downloading, had the counters made its own and the slots cleared first.
pub proof fn what_is_fetched_was_picked_and_begun(
    steps: Seq<WorkStep>,
    facts: Seq<WorkFacts>,
    n: int,
)
    requires
        is_run(steps, facts),
        0 <= n < steps.len(),
        steps[0] == WorkStep::Guard,
        steps[n] == WorkStep::Fetch,
    ensures
        exists|m: int| 0 < m < n && #[trigger] steps[m] is Pick,
        exists|m: int| 0 < m < n && #[trigger] steps[m] == WorkStep::Begin,
        exists|m: int| 0 < m < n && #[trigger] steps[m] == WorkStep::ClaimCounters,
        exists|m: int| 0 < m < n && #[trigger] steps[m] == WorkStep::ClearSlots,
{
    passed_on_the_way(steps, facts, n);
}

/// Whatever was fetched is counted, and the rest of the job handed on, before
/// the guards are asked again.
pub proof fn what_was_fetched_is_counted(steps: Seq<WorkStep>, facts: Seq<WorkFacts>, n: int)
    requires
        is_run(steps, facts),
        0 < n < steps.len(),
        steps[0] == WorkStep::Fetch,
        steps[n] == WorkStep::Guard,
    ensures
        n >= 6,
        steps[1] == WorkStep::StandDown,
        steps[4] == WorkStep::Bill,
        steps[5] == WorkStep::HandTail,
{
    assert(n >= 1 ==> steps[1] == work_after(steps[0], facts[0]));
    assert(n >= 2 ==> steps[2] == work_after(steps[1], facts[1]));
    assert(n >= 3 ==> steps[3] == work_after(steps[2], facts[2]));
    assert(n >= 4 ==> steps[4] == work_after(steps[3], facts[3]));
    assert(n >= 5 ==> steps[5] == work_after(steps[4], facts[4]));
}

/// While the indexer is to rest beside a job, no job goes on from telling it
/// to waiting for nothing: the pass that runs is waited for first.
pub proof fn a_pass_over_the_index_is_waited_for(f: WorkFacts, g: WorkFacts)
    ensures
        work_after(WorkStep::HoldIndexing, f) == WorkStep::ClaimCounters <==> !f.pause_indexing,
        f.pause_indexing ==> work_after(work_after(WorkStep::HoldIndexing, f), g)
            == WorkStep::ClaimCounters && work_after(WorkStep::HoldIndexing, f)
            == WorkStep::AwaitIndexing,
{
}

/// An open ledger is opened anew only when the period changes, and one that
/// was never opened only where there is a quota.
pub proof fn a_ledger_is_kept_within_its_period(
    quota: u64,
    open: Option<u8>,
    period: u8,
    r: bool,
)
    requires
        call_ensures(ledger_reopens, (quota, open, period), r),
    ensures
        open == Some(period) ==> !r,
        open is Some && open->0 != period ==> r,
        open is None ==> (r <==> quota > 0),
{
}

/// A job starts after its sidecar only while it still waits in the queue and
/// is not paused.
pub proof fn only_a_waiting_job_goes_on(j: &Job, r: bool)
    requires
        call_ensures(still_runnable, (j,), r),
    ensures
        j.paused ==> !r,
        j.state != JobState::Queued ==> !r,
        !j.paused && j.state == JobState::Queued ==> r,
{
}

/// A start marks the job as downloading and forgets when it was added, and
/// says how long it waited exactly where nothing was ahead of it and it was
/// more than two seconds.
pub proof fn what_a_start_says(j: &mut Job, now: u64, r: Option<u64>)
    requires
        call_ensures(start, (j, now), r),
    ensures
        final(j).state == JobState::Downloading,
        final(j).queued_at is None,
        final(j).nzo_id == old(j).nzo_id && final(j).priority == old(j).priority && final(j).health
            == old(j).health && final(j).downloaded_bytes == old(j).downloaded_bytes,
        r is Some <==> old(j).idle_at_add && old(j).queued_at is Some && now - old(j).queued_at->0
            > 2_000_000_000,
        r is Some ==> r->0 == now - old(j).queued_at->0,
{
}

/// Each term of a fetch is the live setting that it is named after: at least
/// one connection, one article in flight and one decoder; what is only a
/// guess is fetched exactly where no quota counts it.
pub proof fn the_terms_are_the_live_settings(d: &Daemon, r: Terms)
    requires
        call_ensures(terms, (d,), r),
    ensures
        r.connections >= 1 && r.window >= 1 && r.decoders >= 1,
        d.engine.connections >= 1 ==> r.connections == d.engine.connections,
        d.numbers.window >= 1 ==> r.window == d.numbers.window,
        d.numbers.decoders >= 1 ==> r.decoders == d.numbers.decoders,
        d.engine.connections == 0 ==> r.connections == 1,
        d.numbers.window == 0 ==> r.window == 1,
        d.numbers.decoders == 0 ==> r.decoders == 1,
        r.fast_verify == d.engine.fast_verify && r.verify_lean == d.engine.verify_lean,
        r.par_cleanup == d.switches.par_cleanup && r.routed == d.switches.oracle_route,
        r.ahead <==> d.numbers.quota == 0,
{
}

/// Forcing a pointer means to fetch it; a job of the library that is not
/// forced is a pointer, and no other job is.
pub proof fn a_forced_job_is_no_pointer(j: &Job, r: bool)
    requires
        call_ensures(is_pointer, (j,), r),
    ensures
        j.priority >= 2 ==> !r,
        !j.library ==> !r,
        j.library && j.priority < 2 ==> r,
{
}

/// A pointer is completed, and its file written, exactly where its post is
/// fine; else it has failed, for the reason that was found. Nothing is fetched
/// thereby.
pub proof fn a_pointer_is_filed_as_its_post_was_found(
    j: &mut Job,
    found: Sampled,
    now: i64,
    r: bool,
)
    requires
        call_ensures(settle_pointer, (j, found, now), r),
    ensures
        r <==> found is Fine,
        final(j).state == JobState::Completed <==> found is Fine,
        final(j).state == JobState::Failed <==> found !is Fine,
        found matches Sampled::Impossible(m) ==> final(j).fail_message == m,
        found matches Sampled::Unknown(m) ==> final(j).fail_message == m,
        found is Fine ==> final(j).fail_message == old(j).fail_message,
        final(j).finished_unix == Some(now),
        final(j).fetched == old(j).fetched && final(j).nzo_id == old(j).nzo_id
            && final(j).downloaded_bytes == old(j).downloaded_bytes,
{
}

/// Only a post of which more is missing than can be repaired stops its job,
/// which has then failed for that reason; what could not be found out leaves
/// the job as it was.
pub proof fn only_what_cannot_be_repaired_stops_a_job(
    j: &mut Job,
    found: Sampled,
    detail: String,
    now: i64,
    r: bool,
)
    requires
        call_ensures(settle_preflight, (j, found, detail, now), r),
    ensures
        r <==> found is Impossible,
        !r ==> *final(j) == *old(j),
        found matches Sampled::Impossible(m) ==> final(j).state == JobState::Failed
            && final(j).fail_message == m && final(j).fail_detail == detail
            && final(j).finished_unix == Some(now) && final(j).nzo_id == old(j).nzo_id,
{
}

/// A finished job is sampled again exactly while it is a pointer that was
/// never fetched.
pub proof fn only_pointers_are_sampled_again(j: &Job, r: bool)
    requires
        call_ensures(recheck_due, (j,), r),
    ensures
        j.fetched ==> !r,
        !j.library ==> !r,
        j.state != JobState::Completed ==> !r,
        j.library && !j.fetched && j.state == JobState::Completed ==> r,
{
}

/// Sampling a pointer again fails it exactly where its post is gone for good.
pub proof fn a_pointer_fails_when_its_post_is_gone(j: &mut Job, found: &Sampled, r: bool)
    requires
        call_ensures(settle_recheck, (j, found), r),
    ensures
        r <==> found is Impossible,
        !r ==> *final(j) == *old(j),
        r ==> final(j).state == JobState::Failed && final(j).fail_message@
            == "content no longer retrievable"@ && final(j).finished_unix == old(j).finished_unix
            && final(j).nzo_id == old(j).nzo_id,
{
}

/// A job that a pause stopped goes on later: it waits in the queue again, no
/// longer suspended, with all that is on disk of it, and is not filed. So does
/// no job that finished, and none that is to go.
pub proof fn a_paused_job_goes_back_to_the_queue(
    j: &mut Job,
    failure: Option<Failure>,
    l: Landed,
    r: Settled,
)
    requires
        call_ensures(settle, (j, failure, l), r),
    ensures
        r == Settled::Requeued <==> old(j).suspended && !old(j).tombstone && failure is Some,
        r == Settled::Requeued ==> final(j).state == JobState::Queued && !final(j).suspended
            && final(j).fail_message == old(j).fail_message && final(j).finished_unix
            == old(j).finished_unix && final(j).nzo_id == old(j).nzo_id,
        r == Settled::Requeued && l.fetched_bytes + l.resumed_bytes <= u64::MAX
            ==> final(j).downloaded_bytes == l.fetched_bytes + l.resumed_bytes,
        r == Settled::Requeued && l.fetched_bytes + l.resumed_bytes > u64::MAX
            ==> final(j).downloaded_bytes == u64::MAX,
{
}

/// Any other job is filed: as completed and fetched exactly where its download
/// did not fail, else as failed, with what was fetched, what was checked and
/// when. What follows a finished job is run unless it failed after it was
/// moved to the back.
pub proof fn any_other_job_is_filed(
    j: &mut Job,
    failure: Option<Failure>,
    l: Landed,
    r: Settled,
)
    requires
        call_ensures(settle, (j, failure, l), r),
        r is Filed,
    ensures
        r->hooks <==> failure is None || !old(j).demote,
        final(j).state == JobState::Completed <==> failure is None,
        final(j).state == JobState::Failed <==> failure is Some,
        failure is None ==> final(j).fetched && final(j).fail_message == old(j).fail_message
            && final(j).fail_detail == old(j).fail_detail,
        failure is Some ==> final(j).fetched == old(j).fetched && final(j).fail_detail
            == failure->0.detail,
        !final(j).suspended,
        final(j).downloaded_bytes == l.fetched_bytes,
        final(j).finished_unix == Some(l.now),
        l.checked > 0 ==> final(j).bad_blocks == Some(l.bad) && final(j).verify_blocks == l.checked,
        l.checked == 0 ==> final(j).bad_blocks == old(j).bad_blocks && final(j).verify_blocks
            == old(j).verify_blocks,
        l.crc is Some ==> final(j).inner_crc == l.crc->0,
        l.crc is None ==> final(j).inner_crc == old(j).inner_crc,
        l.shape is Some ==> final(j).archive_shape == l.shape->0,
        l.shape is None ==> final(j).archive_shape == old(j).archive_shape,
        final(j).nzo_id == old(j).nzo_id && final(j).demote == old(j).demote
            && final(j).tombstone == old(j).tombstone && final(j).priority == old(j).priority,
{
}

/// What is said of a failure begins with the error. What sampling had found is
/// added exactly where the post was sampled and is not there, and what to do
/// about a full disk exactly where it is full.
pub proof fn a_failure_says_its_error_first(f: &Failure, sampled: bool, r: String)
    requires
        call_ensures(failure_text, (f, sampled), r),
    ensures
        f.error@.is_prefix_of(r@),
        !f.disk_full && (!sampled || !f.unavailable || f.clause is None) ==> r@ == f.error@,
        !f.disk_full && sampled && f.unavailable && f.clause is Some ==> r@ == f.error@
            + f.clause->0@,
        f.disk_full && (!sampled || !f.unavailable || f.clause is None) ==> (f.error@
            + "; free about "@ + f.need_gb@).is_prefix_of(r@),
        f.disk_full && sampled && f.unavailable && f.clause is Some ==> (f.error@ + f.clause->0@
            + "; free about "@ + f.need_gb@).is_prefix_of(r@),
{
    assert(f.error@.is_prefix_of(r@)) by {
        assert(forall|i: int| 0 <= i < f.error@.len() ==> f.error@[i] == r@[i]);
        assert(f.error@ =~= r@.subrange(0, f.error@.len() as int));
    }
    let head = if sampled && f.unavailable && f.clause is Some {
        f.error@ + f.clause->0@
    } else {
        f.error@
    };
    if f.disk_full {
        let part = head + "; free about "@ + f.need_gb@;
        assert(part =~= r@.subrange(0, part.len() as int));
    }
}

/// What is said of a post that cannot be repaired.
pub proof fn what_is_said_of_a_post_beyond_repair(missing: u64, recovery: u64, r: String)
    requires
        call_ensures(impossible_text, (missing, recovery), r),
    ensures
        r@ == "pre-flight: articles missing beyond repair - an estimated "@ + decimal(missing as int)
            + " payload segment(s) unavailable vs "@ + decimal(recovery as int)
            + " recovery block(s) in the NZB"@,
{
}

/// The disk is low where less than the least is free; where it cannot be told,
/// or no least is set, it is not.
pub proof fn when_the_disk_is_low(min: u64, free: Option<u64>, r: bool)
    requires
        call_ensures(disk_is_low, (min, free), r),
    ensures
        min == 0 ==> !r,
        free is None ==> !r,
        min > 0 ==> (free matches Some(n) ==> (r <==> n < min)),
{
}

/// None becomes one, and every other number stays.
pub proof fn one_is_the_least(n: u64, r: u64)
    requires
        call_ensures(at_least_one, (n,), r),
    ensures
        n == 0 ==> r == 1,
        n > 0 ==> r == n,
{
}

} // verus!
