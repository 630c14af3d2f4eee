//! Transfers that stop moving: when that is worth a word, and when it is over.
//!
//! This only observes. A post that nobody carries moves no bytes while the
//! pool works through its refusals, so a stall is a fact and no verdict.
use vstd::prelude::*;

use crate::text::same;

verus! {

/// The nanoseconds of a second.
pub const SECOND: u64 = 1_000_000_000;

/// Watches the bytes of one transfer. Times are in nanoseconds on a clock
/// that does not go back.
pub struct StallTracker {
    /// How long nothing may move.
    pub threshold: u64,
    /// The id and the name of the transfer.
    pub job: Option<(String, String)>,
    pub last_total: u64,
    /// When the bytes last moved, or the transfer was first seen.
    pub last_change: u64,
    /// Whether a stall has been reported that is not over.
    pub open: bool,
}

/// What a sample has to say.
#[derive(Debug)]
pub enum StallEvent {
    /// Nothing has moved for the threshold.
    Opened { idle_secs: u64, since: u64 },
    /// Bytes move again.
    Cleared { idle_secs: u64 },
    /// The transfer went away meanwhile.
    Ended { idle_secs: u64, name: String },
}

/// What is known of the transfer.
pub ghost struct Stall {
    pub threshold: u64,
    pub job: Option<(Seq<char>, Seq<char>)>,
    pub last_total: u64,
    pub last_change: u64,
    pub open: bool,
}

/// What a sample has to say.
pub ghost enum Said {
    Nothing,
    Opened { idle_secs: int, since: u64 },
    Cleared { idle_secs: int },
    Ended { idle_secs: int, name: Seq<char> },
}

/// How long ago `then` is: nothing where it lies ahead.
pub open spec fn ago(now: u64, then: u64) -> int {
    if now >= then {
        now - then
    } else {
        0
    }
}

impl Stall {
    /// For how many whole seconds nothing has moved.
    pub open spec fn idle_secs(self, now: u64) -> int {
        ago(now, self.last_change) / (SECOND as int)
    }

    /// What is said when the transfer is gone.
    pub open spec fn ended(self, now: u64) -> Said {
        if self.open {
            Said::Ended {
                idle_secs: self.idle_secs(now),
                name: match self.job {
                    Some(j) => j.1,
                    None => Seq::empty(),
                },
            }
        } else {
            Said::Nothing
        }
    }

    /// What one sample makes of it, and what it says.
    pub open spec fn step(
        self,
        now: u64,
        job: Option<(Seq<char>, Seq<char>)>,
        total: u64,
    ) -> (Stall, Said) {
        match job {
            None => (Stall { job: None, open: false, ..self }, self.ended(now)),
            Some(j) => if self.job is None || (self.job->0).0 != j.0 {
                (
                    Stall {
                        job: Some(j),
                        last_total: total,
                        last_change: now,
                        open: false,
                        ..self
                    },
                    self.ended(now),
                )
            } else if total != self.last_total {
                (
                    Stall { last_total: total, last_change: now, open: false, ..self },
                    if self.open {
                        Said::Cleared { idle_secs: self.idle_secs(now) }
                    } else {
                        Said::Nothing
                    },
                )
            } else if !self.open && ago(now, self.last_change) >= self.threshold {
                (
                    Stall { open: true, ..self },
                    Said::Opened { idle_secs: self.idle_secs(now), since: self.last_change },
                )
            } else {
                (self, Said::Nothing)
            },
        }
    }
}

/// What an event says.
pub open spec fn said(e: Option<StallEvent>) -> Said {
    match e {
        None => Said::Nothing,
        Some(StallEvent::Opened { idle_secs, since }) => Said::Opened {
            idle_secs: idle_secs as int,
            since,
        },
        Some(StallEvent::Cleared { idle_secs }) => Said::Cleared { idle_secs: idle_secs as int },
        Some(StallEvent::Ended { idle_secs, name }) => Said::Ended {
            idle_secs: idle_secs as int,
            name: name@,
        },
    }
}

impl View for StallTracker {
    type V = Stall;

    open spec fn view(&self) -> Stall {
        Stall {
            threshold: self.threshold,
            job: match self.job {
                Some(j) => Some((j.0@, j.1@)),
                None => None,
            },
            last_total: self.last_total,
            last_change: self.last_change,
            open: self.open,
        }
    }
}

impl StallTracker {
    /// Nothing watched yet.
    pub fn new(threshold: u64) -> (r: StallTracker)
        ensures
            r@ == (Stall { threshold, job: None, last_total: 0, last_change: 0, open: false }),
    {
        StallTracker { threshold, job: None, last_total: 0, last_change: 0, open: false }
    }

    fn idle(&self, now: u64) -> (r: u64)
        ensures
            r == ago(now, self.last_change),
    {
        if now >= self.last_change {
            now - self.last_change
        } else {
            0
        }
    }

    fn end(&mut self, now: u64) -> (r: Option<StallEvent>)
        ensures
            said(r) == old(self)@.ended(now),
            final(self).threshold == old(self).threshold,
            final(self).last_total == old(self).last_total,
            final(self).last_change == old(self).last_change,
            final(self).job is None,
            !final(self).open,
    {
        let idle: u64 = self.idle(now);
        let was: bool = self.open;
        self.open = false;
        let job: Option<(String, String)> = self.job.take();
        if !was {
            return None;
        }
        let name: String = match job {
            Some(j) => j.1,
            None => {
                let s: String = String::new();
                proof {
                    assert(s@ =~= Seq::empty());
                }
                s
            },
        };
        Some(StallEvent::Ended { idle_secs: idle / SECOND, name })
    }

    /// Takes one sample: the transfer that runs, as its id and its name, and
    /// all the bytes that its pool has moved. Says one thing at most.
    pub fn observe(
        &mut self,
        now: u64,
        job: Option<(&str, &str)>,
        total_bytes: u64,
    ) -> (r: Option<StallEvent>)
        ensures
            (final(self)@, said(r)) == old(self)@.step(
                now,
                match job {
                    Some(j) => Some((j.0@, j.1@)),
                    None => None,
                },
                total_bytes,
            ),
    {
        let (id, name) = match job {
            None => {
                return self.end(now);
            },
            Some(j) => (j.0, j.1),
        };
        let known: bool = match &self.job {
            Some(j) => same(j.0.as_str(), id),
            None => false,
        };
        if !known {
            let ev: Option<StallEvent> = self.end(now);
            self.job = Some((id.to_owned(), name.to_owned()));
            self.last_total = total_bytes;
            self.last_change = now;
            return ev;
        }
        let idle: u64 = self.idle(now);
        if total_bytes != self.last_total {
            self.last_total = total_bytes;
            self.last_change = now;
            if self.open {
                self.open = false;
                return Some(StallEvent::Cleared { idle_secs: idle / SECOND });
            }
            return None;
        }
        if !self.open && idle >= self.threshold {
            self.open = true;
            return Some(
                StallEvent::Opened { idle_secs: idle / SECOND, since: self.last_change },
            );
        }
        None
    }
}

/// A transfer that moves, however slowly, is never reported.
pub proof fn a_moving_transfer_never_opens(
    s: Stall,
    now: u64,
    job: Option<(Seq<char>, Seq<char>)>,
    total: u64,
)
    requires
        total != s.last_total,
    ensures
        !(s.step(now, job, total).1 is Opened),
        !s.step(now, job, total).0.open,
{
}

/// A stall is reported only once nothing has moved for the threshold, and
/// then once: while it lasts nothing more is said, and it ends with a word.
pub proof fn an_episode_is_reported_once(
    s: Stall,
    now: u64,
    job: Option<(Seq<char>, Seq<char>)>,
    total: u64,
)
    ensures
        ({
            let (t, said) = s.step(now, job, total);
            &&& said is Opened ==> !s.open && t.open && ago(now, s.last_change) >= s.threshold
            &&& !s.open && t.open ==> said is Opened
            &&& s.open && t.open ==> said is Nothing
            &&& s.open && !t.open ==> said is Cleared || said is Ended
            &&& !s.open && !t.open ==> said is Nothing
        }),
{
}

/// What a sample says: nothing of a transfer that is new or moves, that a
/// stall began exactly when nothing has moved for the threshold, that it is
/// over when bytes move again, and that it ended when the transfer went away.
pub proof fn what_a_sample_says(
    t: &mut StallTracker,
    now: u64,
    job: Option<(&str, &str)>,
    total: u64,
    r: Option<StallEvent>,
)
    requires
        call_ensures(StallTracker::observe, (t, now, job, total), r),
    ensures
        ({
            let same = job is Some && old(t).job is Some && (old(t).job->0).0@ == (job->0).0@;
            &&& r is Some && r->0 is Opened <==> same && total == old(t).last_total && !old(t).open
                && (if now >= old(t).last_change {
                now - old(t).last_change
            } else {
                0
            }) >= old(t).threshold
            &&& r is Some && r->0 is Cleared <==> same && total != old(t).last_total && old(t).open
            &&& r is Some && r->0 is Ended <==> !same && old(t).open
            &&& r is Some && r->0 is Opened ==> r->0->since == old(t).last_change
            &&& final(t).open <==> same && total == old(t).last_total && (old(t).open || (r is Some
                && r->0 is Opened))
            &&& job is None ==> final(t).job is None
            &&& job is Some && !same ==> final(t).last_change == now && final(t).last_total == total
            &&& same && total != old(t).last_total ==> final(t).last_change == now
                && final(t).last_total == total
            &&& same && total == old(t).last_total ==> final(t).last_change == old(t).last_change
            &&& final(t).threshold == old(t).threshold
        }),
{
    let before = old(t)@;
    let after = final(t)@;
    let said_now = said(r);
}

/// An idle time is said in whole seconds.
pub proof fn an_idle_time_is_said_in_seconds(s: Stall, now: u64)
    requires
        now >= s.last_change,
    ensures
        1_000_000_000 * s.idle_secs(now) <= now - s.last_change < 1_000_000_000 * (s.idle_secs(now)
            + 1),
{
}

} // verus!
