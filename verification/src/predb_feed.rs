//! The pre feed: how long to wait after a lost connection, how much is held
//! until it can be stored, and which work a tick does.
use vstd::prelude::*;

verus! {

/// The first wait after an ordinary failure, in seconds.
pub const RETRY_MIN: u64 = 30;

/// The longest wait after an ordinary failure.
pub const RETRY_MAX: u64 = 1_800;

/// The first wait after being turned away: asking again soon is what gets
/// bans widened.
pub const REJECT_MIN: u64 = 3_600;

/// The longest wait after being turned away.
pub const REJECT_MAX: u64 = 21_600;

/// A connection that lasted this long has worked.
pub const SETTLED: u64 = 300;

/// Why a connection ended.
#[derive(Clone, Copy, PartialEq, Eq, Structural, Debug)]
pub enum IrcStop {
    Cancelled,
    Rejected,
    Transient,
}

/// The waits that the next failures of either kind bring.
#[derive(Clone, Copy, PartialEq, Eq, Structural, Debug)]
pub struct Ladder {
    pub retry: u64,
    pub reject: u64,
}

/// Twice the wait, up to a bound.
pub open spec fn next_wait(w: u64, max: u64) -> u64 {
    if w * 2 < max {
        (w * 2) as u64
    } else {
        max
    }
}

impl Ladder {
    /// Whether both waits are within their bounds.
    pub open spec fn wf(self) -> bool {
        RETRY_MIN <= self.retry <= RETRY_MAX && REJECT_MIN <= self.reject <= REJECT_MAX
    }

    /// The ladder as it stands after a connection that lasted so long.
    pub open spec fn after(self, lasted: u64) -> Ladder {
        if lasted >= SETTLED {
            Ladder { retry: RETRY_MIN, reject: REJECT_MIN }
        } else {
            self
        }
    }

    /// The lowest rungs.
    pub fn new() -> (r: Ladder)
        ensures
            r.wf(),
            r == (Ladder { retry: RETRY_MIN, reject: REJECT_MIN }),
    {
        Ladder { retry: RETRY_MIN, reject: REJECT_MIN }
    }

    /// How long to wait after a connection ended, and a rung up for the next
    /// time. One that was cancelled waits for nothing, and one that had
    /// settled starts both ladders over.
    pub fn ended(&mut self, lasted: u64, why: IrcStop) -> (r: Option<u64>)
        requires
            old(self).wf(),
        ensures
            final(self).wf(),
            ({
                let l = old(self).after(lasted);
                match why {
                    IrcStop::Cancelled => r is None && *final(self) == l,
                    IrcStop::Rejected => r == Some(l.reject) && *final(self) == (Ladder {
                        reject: next_wait(l.reject, REJECT_MAX),
                        ..l
                    }),
                    IrcStop::Transient => r == Some(l.retry) && *final(self) == (Ladder {
                        retry: next_wait(l.retry, RETRY_MAX),
                        ..l
                    }),
                }
            }),
    {
        if lasted >= SETTLED {
            self.retry = RETRY_MIN;
            self.reject = REJECT_MIN;
        }
        match why {
            IrcStop::Cancelled => None,
            IrcStop::Rejected => {
                let w: u64 = self.reject;
                self.reject = if w * 2 < REJECT_MAX {
                    w * 2
                } else {
                    REJECT_MAX
                };
                Some(w)
            },
            IrcStop::Transient => {
                let w: u64 = self.retry;
                self.retry = if w * 2 < RETRY_MAX {
                    w * 2
                } else {
                    RETRY_MAX
                };
                Some(w)
            },
        }
    }
}

/// After being turned away the wait is never shorter than an hour.
pub proof fn a_refusal_waits_an_hour_at_least(l: Ladder, lasted: u64)
    requires
        l.wf(),
    ensures
        l.after(lasted).reject >= 3_600,
        l.after(lasted).wf(),
{
}

/// How many lines are held until they can be stored.
pub const PENDING_MAX: usize = 20_000;

/// Holds one more line, unless there are as many as may be held: then the
/// newest is lost.
pub fn hold_line<T>(pending: &mut Vec<T>, line: T)
    ensures
        final(pending)@ == if old(pending)@.len() < PENDING_MAX {
            old(pending)@.push(line)
        } else {
            old(pending)@
        },
{
    if pending.len() < PENDING_MAX {
        pending.push(line);
    }
}

/// As much of a batch as fits in front of what is held, and what is held.
pub open spec fn held_with<T>(batch: Seq<T>, pending: Seq<T>) -> Seq<T> {
    let room = if pending.len() < PENDING_MAX {
        PENDING_MAX - pending.len()
    } else {
        0
    };
    (if batch.len() > room {
        batch.take(room)
    } else {
        batch
    }) + pending
}

/// Puts a batch that could not be stored back in front of what has come in
/// since, as much of it as may be held.
pub fn put_back<T>(batch: Vec<T>, pending: &mut Vec<T>)
    ensures
        final(pending)@ == held_with(batch@, old(pending)@),
{
    let room: usize = if pending.len() < PENDING_MAX {
        PENDING_MAX - pending.len()
    } else {
        0
    };
    let mut back: Vec<T> = batch;
    back.truncate(room);
    back.append(pending);
    let mut all: Vec<T> = Vec::new();
    std::mem::swap(&mut all, &mut back);
    *pending = all;
}

/// What is held never grows beyond the bound, and nothing that came in since
/// is lost to what is put back.
pub proof fn pending_stays_bounded<T>(batch: Seq<T>, pending: Seq<T>)
    requires
        pending.len() <= PENDING_MAX,
    ensures
        held_with(batch, pending).len() <= PENDING_MAX,
        held_with(batch, pending).skip(held_with(batch, pending).len() - pending.len())
            =~= pending,
{
}

/// A piece of a tick's work, in the order in which it is done.
#[derive(Clone, Copy, PartialEq, Eq, Structural, Debug)]
pub enum Leg {
    /// Name indexed releases from new lines.
    Sweep,
    /// Name older releases from the feed.
    Backlog,
    /// Fold fragments of split sets together.
    SplitMerge,
    /// Fold recovery sets into their releases.
    SidecarFold,
    /// Suggest names from timing and size, for new lines.
    CorrSweep,
    /// The same for older releases.
    CorrBacklog,
    /// The same for what was imported.
    CorrCatchup,
}

/// The leg that follows another.
pub open spec fn leg_after(leg: Leg) -> Option<Leg> {
    match leg {
        Leg::Sweep => Some(Leg::Backlog),
        Leg::Backlog => Some(Leg::SplitMerge),
        Leg::SplitMerge => Some(Leg::SidecarFold),
        Leg::SidecarFold => Some(Leg::CorrSweep),
        Leg::CorrSweep => Some(Leg::CorrBacklog),
        Leg::CorrBacklog => Some(Leg::CorrCatchup),
        Leg::CorrCatchup => None,
    }
}

/// The leg that follows another.
pub fn next_leg(leg: Leg) -> (r: Option<Leg>)
    ensures
        r == leg_after(leg),
{
    match leg {
        Leg::Sweep => Some(Leg::Backlog),
        Leg::Backlog => Some(Leg::SplitMerge),
        Leg::SplitMerge => Some(Leg::SidecarFold),
        Leg::SidecarFold => Some(Leg::CorrSweep),
        Leg::CorrSweep => Some(Leg::CorrBacklog),
        Leg::CorrBacklog => Some(Leg::CorrCatchup),
        Leg::CorrCatchup => None,
    }
}

/// Whether a leg runs.
#[derive(Clone, Copy, PartialEq, Eq, Structural, Debug)]
pub enum Gate {
    Run,
    /// Not this leg; go on with the next.
    Skip,
    /// Nothing more in this tick.
    End,
}

/// Whether a leg suggests names.
pub open spec fn is_corr(leg: Leg) -> bool {
    leg == Leg::CorrSweep || leg == Leg::CorrBacklog || leg == Leg::CorrCatchup
}

/// Whether a leg runs now. A pause ends the tick before the exact legs and
/// passes the others over; suggesting names wants its own switch. The two
/// switches count as they stood when the tick, or its suggestions, began.
pub open spec fn gate_of(leg: Leg, enabled: bool, paused: bool, corr: bool) -> Gate {
    if !enabled {
        Gate::End
    } else if leg == Leg::Sweep || leg == Leg::Backlog {
        if paused {
            Gate::End
        } else {
            Gate::Run
        }
    } else if paused || (is_corr(leg) && !corr) {
        Gate::Skip
    } else {
        Gate::Run
    }
}

/// Whether a leg runs now.
pub fn leg_gate(leg: Leg, enabled: bool, paused: bool, corr: bool) -> (r: Gate)
    ensures
        r == gate_of(leg, enabled, paused, corr),
{
    if !enabled {
        return Gate::End;
    }
    match leg {
        Leg::Sweep | Leg::Backlog => if paused {
            Gate::End
        } else {
            Gate::Run
        },
        Leg::SplitMerge | Leg::SidecarFold => if paused {
            Gate::Skip
        } else {
            Gate::Run
        },
        _ => if paused || !corr {
            Gate::Skip
        } else {
            Gate::Run
        },
    }
}

/// No leg touches the index while it is paused, or while the feed is off.
pub proof fn no_leg_runs_while_paused(leg: Leg, enabled: bool, corr: bool)
    ensures
        gate_of(leg, enabled, true, corr) != Gate::Run,
        gate_of(leg, false, false, corr) != Gate::Run,
{
}

/// How much a leg may do in one tick.
#[derive(Clone, Copy, PartialEq, Eq, Structural, Debug)]
pub enum Budget {
    Rows(u32),
    Seconds(u64),
}

/// How much a leg may do in one tick: little, since it runs beside a scanner
/// and a download, and nothing waits for a name.
pub fn leg_budget(leg: Leg) -> (r: Budget)
    ensures
        r == match leg {
            Leg::Sweep => Budget::Rows(200),
            Leg::Backlog => Budget::Rows(200),
            Leg::SplitMerge => Budget::Seconds(1),
            Leg::SidecarFold => Budget::Seconds(1),
            Leg::CorrSweep => Budget::Rows(100),
            Leg::CorrBacklog => Budget::Rows(400),
            Leg::CorrCatchup => Budget::Rows(150),
        },
{
    match leg {
        Leg::Sweep | Leg::Backlog => Budget::Rows(200),
        Leg::SplitMerge | Leg::SidecarFold => Budget::Seconds(1),
        Leg::CorrSweep => Budget::Rows(100),
        Leg::CorrBacklog => Budget::Rows(400),
        Leg::CorrCatchup => Budget::Rows(150),
    }
}

/// How long a line of the feed is kept, in seconds: for as long as most posts
/// can be had.
pub const KEEP_SECS: i64 = 7_776_000;

/// How far back names are suggested, in seconds: a whole import.
pub const CORR_WINDOW: i64 = 31_622_400;

/// How far back a leg looks, in seconds, where it is bounded.
pub fn leg_window(leg: Leg) -> (r: Option<i64>)
    ensures
        r == match leg {
            Leg::Backlog => Some(KEEP_SECS),
            Leg::CorrBacklog => Some(CORR_WINDOW),
            _ => None,
        },
{
    match leg {
        Leg::Backlog => Some(KEEP_SECS),
        Leg::CorrBacklog => Some(CORR_WINDOW),
        _ => None,
    }
}

/// What the listener does next.
#[derive(Clone, Copy, PartialEq, Eq, Structural, Debug)]
pub enum Listen {
    /// The feed is off: wait so many seconds and ask again.
    Off(u64),
    /// There is no channel to join: say so, and wait so many seconds.
    NoChannel(u64),
    Connect,
}

/// What the listener does next: nothing while the feed is off, and nothing
/// without a channel to join.
pub fn listen_step(on: bool, channels: usize) -> (r: Listen)
    ensures
        r == (if !on {
            Listen::Off(15)
        } else if channels == 0 {
            Listen::NoChannel(60)
        } else {
            Listen::Connect
        }),
{
    if !on {
        Listen::Off(15)
    } else if channels == 0 {
        Listen::NoChannel(60)
    } else {
        Listen::Connect
    }
}

/// Whether the feed's table is pruned now: once an hour, when the index may
/// be worked on.
pub fn prune_due(now: i64, last: i64, maintenance_ok: bool) -> (r: bool)
    ensures
        r == (now - last >= 3_600 && maintenance_ok),
{
    (now as i128) - (last as i128) >= 3_600 && maintenance_ok
}

/// When the last pruning counts as done: now, or, where it failed, so that it
/// is tried again in ten minutes.
pub fn prune_stamp(now: i64, failed: bool) -> (r: i64)
    ensures
        r == (if !failed {
            now as int
        } else if now - 3_000 < i64::MIN {
            i64::MIN as int
        } else {
            now - 3_000
        }),
{
    if !failed {
        now
    } else if now < i64::MIN + 3_000 {
        i64::MIN
    } else {
        now - 3_000
    }
}

// ---- laws -----------------------------------------------------------------

/// How long a lost connection is waited for: not at all where it was given up,
/// half a minute to half an hour after an ordinary failure, one to six hours
/// after being turned away. Each failure doubles the next wait of its own kind
/// and leaves that of the other; one that lasted five minutes starts both over.
pub proof fn how_long_a_lost_connection_waits(
    l: &mut Ladder,
    lasted: u64,
    why: IrcStop,
    r: Option<u64>,
)
    requires
        old(l).wf(),
        call_ensures(Ladder::ended, (l, lasted, why), r),
    ensures
        r is None <==> why == IrcStop::Cancelled,
        why == IrcStop::Transient && lasted >= 300 ==> r == Some(30u64) && final(l).retry == 60,
        why == IrcStop::Rejected && lasted >= 300 ==> r == Some(3_600u64) && final(l).reject
            == 7_200,
        lasted >= 300 && why != IrcStop::Transient ==> final(l).retry == 30,
        lasted >= 300 && why != IrcStop::Rejected ==> final(l).reject == 3_600,
        why == IrcStop::Transient && lasted < 300 ==> r == Some(old(l).retry) && final(l).reject
            == old(l).reject && final(l).retry >= old(l).retry && (final(l).retry == 2 * old(l).retry || final(l).retry == 1_800 <= 2 * old(l).retry),
        why == IrcStop::Rejected && lasted < 300 ==> r == Some(old(l).reject) && final(l).retry
            == old(l).retry && final(l).reject >= old(l).reject && (final(l).reject == 2 * old(l).reject || final(l).reject == 21_600 <= 2 * old(l).reject),
        why == IrcStop::Cancelled && lasted < 300 ==> *final(l) == *old(l),
        why == IrcStop::Transient ==> 30 <= r->0 <= 1_800,
        why == IrcStop::Rejected ==> 3_600 <= r->0 <= 21_600,
{
}

/// A line is held unless twenty thousand are; what was held stays.
pub proof fn a_line_is_held_while_there_is_room<T>(p: &mut Vec<T>, line: T, r: ())
    requires
        call_ensures(hold_line::<T>, (p, line), r),
    ensures
        old(p)@.len() < 20_000 ==> final(p)@ == old(p)@.push(line),
        old(p)@.len() >= 20_000 ==> final(p)@ == old(p)@,
{
}

/// A batch that is put back stands in front of what came in since, from its
/// beginning on and as far as there is room; all of it, where all of it fits.
pub proof fn a_batch_is_put_back_in_front<T>(batch: Seq<T>, pending: Seq<T>, i: int)
    requires
        pending.len() <= 20_000,
    ensures
        held_with(batch, pending).len() <= 20_000,
        batch.len() + pending.len() <= 20_000 ==> held_with(batch, pending) == batch + pending,
        batch.len() + pending.len() > 20_000 ==> held_with(batch, pending).len() == 20_000,
        0 <= i < held_with(batch, pending).len() - pending.len() ==> held_with(batch, pending)[i]
            == batch[i],
        0 <= i < pending.len() ==> held_with(batch, pending)[held_with(batch, pending).len()
            - pending.len() + i] == pending[i],
{
}

/// A leg runs exactly while the feed is on, the index is not paused, and, for
/// one that suggests names, that is switched on too. The tick ends where the
/// feed is off, and at a pause before the exact legs; elsewhere a leg that does
/// not run is passed over.
pub proof fn when_a_leg_runs(leg: Leg, enabled: bool, paused: bool, corr: bool, r: Gate)
    requires
        call_ensures(leg_gate, (leg, enabled, paused, corr), r),
    ensures
        r == Gate::Run <==> enabled && !paused && (corr || leg == Leg::Sweep || leg == Leg::Backlog
            || leg == Leg::SplitMerge || leg == Leg::SidecarFold),
        r == Gate::End <==> !enabled || (paused && (leg == Leg::Sweep || leg == Leg::Backlog)),
{
}

/// A tick takes the seven legs one after the other, the exact ones first.
pub proof fn a_tick_takes_the_legs_in_order(leg: Leg, r: Option<Leg>)
    requires
        call_ensures(next_leg, (leg,), r),
    ensures
        r == Some(Leg::Backlog) <==> leg == Leg::Sweep,
        r == Some(Leg::SplitMerge) <==> leg == Leg::Backlog,
        r == Some(Leg::SidecarFold) <==> leg == Leg::SplitMerge,
        r == Some(Leg::CorrSweep) <==> leg == Leg::SidecarFold,
        r == Some(Leg::CorrBacklog) <==> leg == Leg::CorrSweep,
        r == Some(Leg::CorrCatchup) <==> leg == Leg::CorrBacklog,
        r is None <==> leg == Leg::CorrCatchup,
{
}

/// How much each leg may do in a tick, and how far back it looks.
pub proof fn how_much_a_leg_may_do(leg: Leg, b: Budget, w: Option<i64>)
    requires
        call_ensures(leg_budget, (leg,), b),
        call_ensures(leg_window, (leg,), w),
    ensures
        b == Budget::Rows(200) <==> leg == Leg::Sweep || leg == Leg::Backlog,
        b == Budget::Seconds(1) <==> leg == Leg::SplitMerge || leg == Leg::SidecarFold,
        b == Budget::Rows(100) <==> leg == Leg::CorrSweep,
        b == Budget::Rows(400) <==> leg == Leg::CorrBacklog,
        b == Budget::Rows(150) <==> leg == Leg::CorrCatchup,
        w is Some && w->0 == 90 * 86_400 <==> leg == Leg::Backlog,
        w is Some && w->0 == 366 * 86_400 <==> leg == Leg::CorrBacklog,
        w is None <==> leg != Leg::Backlog && leg != Leg::CorrBacklog,
{
}

/// The listener connects only while the feed is on and there is a channel to
/// join.
pub proof fn when_the_listener_connects(on: bool, channels: usize, r: Listen)
    requires
        call_ensures(listen_step, (on, channels), r),
    ensures
        r == Listen::Connect <==> on && channels > 0,
        r == Listen::Off(15) <==> !on,
        r == Listen::NoChannel(60) <==> on && channels == 0,
{
}

/// The table is pruned once an hour, and only when the index may be worked on;
/// after a failure it is due again ten minutes later.
pub proof fn how_often_the_table_is_pruned(
    now: i64,
    last: i64,
    ok: bool,
    failed: bool,
    due: bool,
    stamp: i64,
    later: i64,
    again: bool,
)
    requires
        call_ensures(prune_due, (now, last, ok), due),
        call_ensures(prune_stamp, (now, failed), stamp),
        call_ensures(prune_due, (later, stamp, true), again),
        now >= 0,
    ensures
        due <==> ok && now - last >= 3_600,
        !failed ==> (again <==> later - now >= 3_600),
        failed ==> (again <==> later - now >= 600),
{
}

} // verus!
