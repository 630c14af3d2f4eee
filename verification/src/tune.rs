//! How many connections serve best: which server is measured next, what
//! becomes of a measurement, and what is said of the servers together.
use vstd::prelude::*;

use crate::book::Book;
use crate::sidecar::ServerConf;
use crate::text::{add_text, decimal, glue, glue3, join, joined, same, to_decimal};
use crate::watchdog::{pairs, HostBytes};

verus! {

/// What a measurement of a server found: beyond so many connections it gets
/// no faster.
#[derive(Debug)]
pub struct Tuned {
    pub connections: u64,
    /// How many were granted at most.
    pub granted: u64,
    /// How many were asked for where it was found; none where that is not
    /// known.
    pub asked: u64,
    /// When, in seconds.
    pub checked: u64,
    /// Whether the user ran it.
    pub manual: bool,
    /// Whether it looks too low to be believed without another.
    pub suspect: bool,
    /// How many connections a job would have used.
    pub limit: u64,
    /// The version of the record.
    pub v: u32,
    /// Whether another reading waits to be confirmed.
    pub pending: bool,
}

/// For how long a measurement is believed, in seconds, and the version of the
/// records that say whether they are suspect.
#[derive(Clone, Copy, PartialEq, Eq, Structural, Debug)]
pub struct TuneClock {
    pub stale: u64,
    pub suspect_stale: u64,
    pub schema: u32,
}

/// For how long a server that could not be measured is left alone, in
/// seconds.
pub const RETRY_AFTER: u64 = 21_600;

/// How much later `now` is; nothing where it is not.
pub open spec fn since(now: u64, then: u64) -> int {
    if now > then {
        now - then
    } else {
        0
    }
}

fn secs_since(now: u64, then: u64) -> (r: u64)
    ensures
        r == since(now, then),
{
    if now > then {
        now - then
    } else {
        0
    }
}

/// Whether a measurement is an open question: it looks too low, another
/// reading waits, or it is an old record of at most half of what a job would
/// use.
pub open spec fn is_suspicious(t: Tuned, ceiling: u64, clock: TuneClock) -> bool {
    t.suspect || t.pending || (t.v < clock.schema && t.connections * 2 <= ceiling)
}

/// Whether a measurement has to be made again.
pub open spec fn is_stale(t: Tuned, ceiling: u64, clock: TuneClock, now: u64) -> bool {
    since(now, t.checked) > if is_suspicious(t, ceiling, clock) {
        clock.suspect_stale
    } else {
        clock.stale
    }
}

/// Whether a server is measured now.
pub open spec fn is_due(
    s: ServerConf,
    ceiling: u64,
    tuned: Option<Tuned>,
    attempted: Option<u64>,
    clock: TuneClock,
    now: u64,
) -> bool {
    &&& s.enabled
    &&& s.block_bytes is None
    &&& attempted is None || since(now, attempted->0) > RETRY_AFTER
    &&& tuned is None || is_stale(tuned->0, ceiling, clock, now)
}

/// Whether a server is measured now: one that is switched on and no paid
/// block, that was not tried a short while ago, and of which nothing is
/// known, or nothing fresh. `ceiling` is what a job would use of it.
pub fn probe_due(
    s: &ServerConf,
    ceiling: u64,
    tuned: Option<&Tuned>,
    attempted: Option<u64>,
    clock: TuneClock,
    now: u64,
) -> (r: bool)
    ensures
        r == is_due(
            *s,
            ceiling,
            match tuned {
                Some(t) => Some(*t),
                None => None,
            },
            attempted,
            clock,
            now,
        ),
{
    if !s.enabled || s.block_bytes.is_some() {
        return false;
    }
    if let Some(t) = attempted {
        if secs_since(now, t) <= RETRY_AFTER {
            return false;
        }
    }
    match tuned {
        None => true,
        Some(t) => {
            let low: bool = t.v < clock.schema && t.connections <= ceiling && t.connections
                <= ceiling - t.connections;
            let ttl: u64 = if t.suspect || t.pending || low {
                clock.suspect_stale
            } else {
                clock.stale
            };
            secs_since(now, t.checked) > ttl
        },
    }
}

/// Whether the server at a place is due for a probe.
pub open spec fn due_at(
    servers: Seq<ServerConf>,
    ceilings: Seq<u64>,
    tuned: Book<Tuned>,
    attempted: Book<u64>,
    clock: TuneClock,
    now: u64,
    i: int,
) -> bool {
    is_due(
        servers[i],
        ceilings[i],
        tuned.at(servers[i].host@),
        attempted.at(servers[i].host@),
        clock,
        now,
    )
}

/// Whether `r` is the first server that is due, where one is.
pub open spec fn is_next_probe(
    servers: Seq<ServerConf>,
    ceilings: Seq<u64>,
    tuned: Book<Tuned>,
    attempted: Book<u64>,
    clock: TuneClock,
    now: u64,
    r: Option<usize>,
) -> bool {
    match r {
        Some(i) => i < servers.len() && due_at(
            servers,
            ceilings,
            tuned,
            attempted,
            clock,
            now,
            i as int,
        ) && forall|k: int|
            0 <= k < i ==> !#[trigger] due_at(
                servers,
                ceilings,
                tuned,
                attempted,
                clock,
                now,
                k,
            ),
        None => forall|k: int|
            0 <= k < servers.len() ==> !#[trigger] due_at(
                servers,
                ceilings,
                tuned,
                attempted,
                clock,
                now,
                k,
            ),
    }
}

/// The first server that is measured now. `ceilings` says of each what a job
/// would use of it.
pub fn next_probe(
    servers: &Vec<ServerConf>,
    ceilings: &Vec<u64>,
    tuned: &Book<Tuned>,
    attempted: &Book<u64>,
    clock: TuneClock,
    now: u64,
) -> (r: Option<usize>)
    requires
        servers@.len() == ceilings@.len(),
        tuned.wf(),
        attempted.wf(),
    ensures
        is_next_probe(servers@, ceilings@, *tuned, *attempted, clock, now, r),
{
    let mut i: usize = 0;
    while i < servers.len()
        invariant
            i <= servers@.len(),
            servers@.len() == ceilings@.len(),
            tuned.wf(),
            attempted.wf(),
            forall|k: int|
                0 <= k < i ==> !#[trigger] due_at(
                    servers@,
                    ceilings@,
                    *tuned,
                    *attempted,
                    clock,
                    now,
                    k,
                ),
        decreases servers@.len() - i,
    {
        let s: &ServerConf = &servers[i];
        let t: Option<&Tuned> = tuned.get(s.host.as_str());
        let a: Option<u64> = match attempted.get(s.host.as_str()) {
            Some(a) => Some(*a),
            None => None,
        };
        if probe_due(s, ceilings[i], t, a, clock, now) {
            return Some(i);
        }
        i = i + 1;
    }
    None
}

/// A server that is switched off, or that is a paid block, is never measured.
pub proof fn a_paid_block_is_never_measured(
    s: ServerConf,
    ceiling: u64,
    tuned: Option<Tuned>,
    attempted: Option<u64>,
    clock: TuneClock,
    now: u64,
)
    requires
        s.block_bytes is Some || !s.enabled,
    ensures
        !is_due(s, ceiling, tuned, attempted, clock, now),
{
}

/// A measurement that was confirmed is believed for the long while, however
/// low it is.
pub proof fn a_confirmed_reading_settles(t: Tuned, ceiling: u64, clock: TuneClock, now: u64)
    requires
        !t.suspect,
        !t.pending,
        t.v >= clock.schema,
        since(now, t.checked) <= clock.stale,
    ensures
        !is_stale(t, ceiling, clock, now),
{
}

/// Whether the line is quiet enough to measure: nothing downloads, and the
/// index pulls nothing over the same servers.
pub fn line_is_idle(downloading: bool, scanning: bool) -> (r: bool)
    ensures
        r == (!downloading && !scanning),
{
    !downloading && !scanning
}

/// How many connections a measurement goes up to: twice what is configured,
/// of thirty to a hundred.
pub fn probe_cap(connections: u32) -> (r: u64)
    ensures
        30 <= r <= 100,
        15 <= connections <= 50 ==> r == 2 * connections,
        connections < 15 ==> r == 30,
        connections > 50 ==> r == 100,
{
    let c: u64 = (connections as u64) * 2;
    if c < 30 {
        30
    } else if c > 100 {
        100
    } else {
        c
    }
}

/// One rung of a measurement.
#[derive(Clone, Copy, PartialEq, Eq, Structural, Debug)]
pub struct Rung {
    pub connections: u64,
    pub granted: u64,
    pub bytes: u64,
}

/// The bytes of a measurement.
pub open spec fn rung_bytes(rungs: Seq<Rung>) -> int
    decreases rungs.len(),
{
    if rungs.len() == 0 {
        0
    } else {
        rung_bytes(rungs.drop_last()) + rungs.last().bytes
    }
}

proof fn rungs_grow(rungs: Seq<Rung>, i: int)
    requires
        0 <= i <= rungs.len(),
    ensures
        rung_bytes(rungs.take(i)) <= rung_bytes(rungs),
    decreases rungs.len(),
{
    if i == rungs.len() {
        assert(rungs.take(i) =~= rungs);
    } else {
        assert(rungs.drop_last().take(i) =~= rungs.take(i));
        rungs_grow(rungs.drop_last(), i);
    }
}

/// The bytes of a measurement, which count against the account.
pub fn billed(rungs: &Vec<Rung>) -> (r: u64)
    requires
        rung_bytes(rungs@) <= u64::MAX,
    ensures
        r == rung_bytes(rungs@),
{
    let mut n: u64 = 0;
    let mut i: usize = 0;
    while i < rungs.len()
        invariant
            i <= rungs@.len(),
            n == rung_bytes(rungs@.take(i as int)),
            rung_bytes(rungs@) <= u64::MAX,
        decreases rungs@.len() - i,
    {
        assert(rungs@.take(i + 1).drop_last() =~= rungs@.take(i as int));
        assert(rungs@.take(i + 1).last() == rungs@[i as int]);
        proof {
            rungs_grow(rungs@, i + 1);
        }
        n = n + rungs[i].bytes;
        i = i + 1;
    }
    assert(rungs@.take(rungs@.len() as int) =~= rungs@);
    n
}

/// Whether `r` is the most that a rung was granted; nothing where there is none.
pub open spec fn is_most(rungs: Seq<Rung>, r: u64) -> bool {
    &&& forall|i: int| 0 <= i < rungs.len() ==> (#[trigger] rungs[i]).granted <= r
    &&& r == 0 || exists|i: int| 0 <= i < rungs.len() && (#[trigger] rungs[i]).granted == r
}

/// How many connections were granted at most.
pub fn most_granted(rungs: &Vec<Rung>) -> (r: u64)
    ensures
        is_most(rungs@, r),
{
    let mut n: u64 = 0;
    let mut i: usize = 0;
    while i < rungs.len()
        invariant
            i <= rungs@.len(),
            forall|k: int| 0 <= k < i ==> (#[trigger] rungs@[k]).granted <= n,
            n == 0 || exists|k: int| 0 <= k < i && (#[trigger] rungs@[k]).granted == n,
        decreases rungs@.len() - i,
    {
        if rungs[i].granted > n {
            n = rungs[i].granted;
            assert(rungs@[i as int].granted == n);
        }
        i = i + 1;
    }
    n
}

/// Where a server stops getting faster.
#[derive(Clone, Copy, PartialEq, Eq, Structural, Debug)]
pub struct Knee {
    pub connections: u64,
    pub asked: u64,
}

/// What becomes of a measurement.
#[derive(Clone, Copy, PartialEq, Eq, Structural, Debug)]
pub enum Measured {
    /// Something else used the line meanwhile: it says nothing.
    Disturbed,
    /// No data moved: there is nothing to read off it.
    NoData,
    /// The user ran one meanwhile, which counts.
    UserRan,
    Record(Knee),
}

/// What becomes of a measurement that began at `now`. `fresh` is what is on
/// record once it is over.
pub fn measured(idle: bool, knee: Option<Knee>, fresh: Option<&Tuned>, now: u64) -> (r: Measured)
    ensures
        r == (if !idle {
            Measured::Disturbed
        } else {
            match knee {
                None => Measured::NoData,
                Some(k) => if fresh matches Some(t) && t.manual && t.checked >= now {
                    Measured::UserRan
                } else {
                    Measured::Record(k)
                },
            }
        }),
{
    if !idle {
        return Measured::Disturbed;
    }
    match knee {
        None => Measured::NoData,
        Some(k) => {
            match fresh {
                Some(t) => if t.manual && t.checked >= now {
                    return Measured::UserRan;
                },
                None => {},
            }
            Measured::Record(k)
        },
    }
}

/// The record of a measurement.
pub fn record(k: Knee, granted: u64, now: u64, suspect: bool, limit: u64, schema: u32) -> (r: Tuned)
    ensures
        r == (Tuned {
            connections: k.connections,
            granted,
            asked: k.asked,
            checked: now,
            manual: false,
            suspect,
            limit,
            v: schema,
            pending: false,
        }),
{
    Tuned {
        connections: k.connections,
        granted,
        asked: k.asked,
        checked: now,
        manual: false,
        suspect,
        limit,
        v: schema,
        pending: false,
    }
}

/// How a measurement stands to what a job would use.
#[derive(Clone, Copy, PartialEq, Eq, Structural, Debug)]
pub enum Standing {
    /// It is low, and another has to agree first.
    Unproven,
    Below,
    Above,
    At,
}

/// How a measurement stands to what a job would use.
pub fn standing(best: u64, limit: u64, suspect: bool) -> (r: Standing)
    ensures
        r == (if suspect {
            Standing::Unproven
        } else if best < limit {
            Standing::Below
        } else if best > limit {
            Standing::Above
        } else {
            Standing::At
        }),
{
    if suspect {
        Standing::Unproven
    } else if best < limit {
        Standing::Below
    } else if best > limit {
        Standing::Above
    } else {
        Standing::At
    }
}

/// A step of a round of measuring.
#[derive(Clone, Copy, PartialEq, Eq, Structural, Debug)]
pub enum TuneStep {
    /// Wait for a minute.
    Rest,
    /// See which server is measured.
    Choose,
    /// See that no other measurement runs.
    TakePermit,
    /// Climb the ladder.
    Ladder,
    /// Measure the rungs once more that contradict each other.
    Remeasure,
    /// Count the bytes against the account.
    Bill,
    /// See what becomes of it.
    Judge,
    Record(Knee),
    /// Judge the servers together.
    Hint,
}

/// What a round of measuring has found out.
#[derive(Clone, Copy, PartialEq, Eq, Structural, Debug)]
pub struct TuneFacts {
    /// Whether measuring is wanted, and the line is idle.
    pub wanted: bool,
    pub idle: bool,
    pub chosen: bool,
    pub permit: bool,
    /// Whether the ladder has any rung.
    pub climbed: bool,
    /// Whether rungs contradict each other.
    pub contested: bool,
    pub outcome: Measured,
}

/// The step that follows.
pub open spec fn tune_after(s: TuneStep, f: TuneFacts) -> TuneStep {
    match s {
        TuneStep::Rest => if f.wanted && f.idle {
            TuneStep::Choose
        } else {
            TuneStep::Rest
        },
        TuneStep::Choose => if f.chosen {
            TuneStep::TakePermit
        } else {
            TuneStep::Rest
        },
        TuneStep::TakePermit => if f.permit {
            TuneStep::Ladder
        } else {
            TuneStep::Rest
        },
        TuneStep::Ladder => if !f.climbed {
            TuneStep::Rest
        } else if f.contested {
            TuneStep::Remeasure
        } else {
            TuneStep::Bill
        },
        TuneStep::Remeasure => TuneStep::Bill,
        TuneStep::Bill => TuneStep::Judge,
        TuneStep::Judge => match f.outcome {
            Measured::Record(k) => TuneStep::Record(k),
            _ => TuneStep::Rest,
        },
        TuneStep::Record(_) => TuneStep::Hint,
        TuneStep::Hint => TuneStep::Rest,
    }
}

/// The step that follows.
pub fn tune_next(s: TuneStep, f: TuneFacts) -> (r: TuneStep)
    ensures
        r == tune_after(s, f),
{
    match s {
        TuneStep::Rest => if f.wanted && f.idle {
            TuneStep::Choose
        } else {
            TuneStep::Rest
        },
        TuneStep::Choose => if f.chosen {
            TuneStep::TakePermit
        } else {
            TuneStep::Rest
        },
        TuneStep::TakePermit => if f.permit {
            TuneStep::Ladder
        } else {
            TuneStep::Rest
        },
        TuneStep::Ladder => if !f.climbed {
            TuneStep::Rest
        } else if f.contested {
            TuneStep::Remeasure
        } else {
            TuneStep::Bill
        },
        TuneStep::Remeasure => TuneStep::Bill,
        TuneStep::Bill => TuneStep::Judge,
        TuneStep::Judge => match f.outcome {
            Measured::Record(k) => TuneStep::Record(k),
            _ => TuneStep::Rest,
        },
        TuneStep::Record(_) => TuneStep::Hint,
        TuneStep::Hint => TuneStep::Rest,
    }
}

/// Nothing is recorded but what was measured on a quiet line, and its bytes
/// are counted before that, whatever becomes of it.
pub proof fn only_a_quiet_measurement_is_recorded(s: TuneStep, f: TuneFacts)
    ensures
        tune_after(s, f) is Record ==> s == TuneStep::Judge && f.outcome is Record,
        tune_after(s, f) == TuneStep::Judge ==> s == TuneStep::Bill,
        s == TuneStep::Ladder && f.climbed && !f.contested ==> tune_after(s, f) == TuneStep::Bill,
        s == TuneStep::Rest && !f.idle ==> tune_after(s, f) == TuneStep::Rest,
{
}

// ---- the servers together -----------------------------------------------------------

/// The hosts that are ever measured, in order.
pub open spec fn measured_of(servers: Seq<ServerConf>) -> Seq<Seq<char>>
    decreases servers.len(),
{
    if servers.len() == 0 {
        Seq::empty()
    } else if servers.last().enabled && servers.last().block_bytes is None {
        measured_of(servers.drop_last()).push(servers.last().host@)
    } else {
        measured_of(servers.drop_last())
    }
}

/// The hosts that are ever measured, in order.
pub fn measured_hosts(servers: &Vec<ServerConf>) -> (r: Vec<String>)
    ensures
        r.deep_view() == measured_of(servers@),
{
    let mut r: Vec<String> = Vec::new();
    let mut i: usize = 0;
    assert(r.deep_view() =~= measured_of(servers@.take(0)));
    while i < servers.len()
        invariant
            i <= servers@.len(),
            r.deep_view() == measured_of(servers@.take(i as int)),
        decreases servers@.len() - i,
    {
        assert(servers@.take(i + 1).drop_last() =~= servers@.take(i as int));
        assert(servers@.take(i + 1).last() == servers@[i as int]);
        if servers[i].enabled && servers[i].block_bytes.is_none() {
            add_text(&mut r, servers[i].host.as_str());
        }
        i = i + 1;
    }
    assert(servers@.take(servers@.len() as int) =~= servers@);
    r
}

/// Whether the servers are judged against the line: its speed is set, and
/// every server that is ever measured was.
pub open spec fn is_judged(line: u64, hosts: Seq<Seq<char>>, tuned: Book<Tuned>) -> bool {
    &&& line > 0
    &&& hosts.len() > 0
    &&& forall|i: int| 0 <= i < hosts.len() ==> (tuned.at(#[trigger] hosts[i])) is Some
}

/// Whether the servers are judged against the line. What was not measured
/// yet may still be fast: a false alarm is worse than none.
pub fn judged(line: u64, hosts: &Vec<String>, tuned: &Book<Tuned>) -> (r: bool)
    requires
        tuned.wf(),
    ensures
        r == is_judged(line, hosts.deep_view(), *tuned),
{
    if line == 0 || hosts.len() == 0 {
        return false;
    }
    let ghost all = hosts.deep_view();
    let mut i: usize = 0;
    while i < hosts.len()
        invariant
            i <= hosts@.len(),
            tuned.wf(),
            all == hosts.deep_view(),
            forall|k: int| 0 <= k < i ==> (tuned.at(#[trigger] all[k])) is Some,
        decreases hosts@.len() - i,
    {
        assert(all[i as int] == hosts@[i as int]@);
        if !tuned.has(hosts[i].as_str()) {
            return false;
        }
        i = i + 1;
    }
    true
}

/// What is said of a server that granted less than was asked for.
pub open spec fn tip_of(host: Seq<char>, t: Tuned) -> Seq<char> {
    host + " granted only "@ + decimal(t.connections as int) + " of the "@ + decimal(t.asked as int)
        + " connections asked for - the account tier may cap it"@
}

/// What is said of the servers that granted less than was asked for, in
/// order.
pub open spec fn tips_of(hosts: Seq<Seq<char>>, tuned: Book<Tuned>) -> Seq<Seq<char>>
    decreases hosts.len(),
{
    if hosts.len() == 0 {
        Seq::empty()
    } else {
        let rest = tips_of(hosts.drop_last(), tuned);
        match tuned.at(hosts.last()) {
            Some(t) => if t.asked > 0 && t.asked > t.connections {
                rest.push(tip_of(hosts.last(), t))
            } else {
                rest
            },
            None => rest,
        }
    }
}

/// What may be done about servers that are slower than the line.
pub open spec fn advice_of(hosts: Seq<Seq<char>>, tuned: Book<Tuned>) -> Seq<Seq<char>> {
    let tips = tips_of(hosts, tuned);
    if hosts.len() == 1 {
        tips.push("a second provider adds parallel headroom"@)
    } else if tips.len() == 0 {
        tips.push("a faster provider (or one more) is the likely lever"@)
    } else {
        tips
    }
}

/// What may be done about servers that are slower than the line.
pub fn advice(hosts: &Vec<String>, tuned: &Book<Tuned>) -> (r: Vec<String>)
    requires
        tuned.wf(),
    ensures
        r.deep_view() == advice_of(hosts.deep_view(), *tuned),
{
    let mut tips: Vec<String> = Vec::new();
    let ghost all = hosts.deep_view();
    let mut i: usize = 0;
    assert(tips.deep_view() =~= tips_of(all.take(0), *tuned));
    while i < hosts.len()
        invariant
            i <= hosts@.len(),
            tuned.wf(),
            all == hosts.deep_view(),
            tips.deep_view() == tips_of(all.take(i as int), *tuned),
        decreases hosts@.len() - i,
    {
        assert(all.take(i + 1).drop_last() =~= all.take(i as int));
        assert(all.take(i + 1).last() == hosts@[i as int]@);
        match tuned.get(hosts[i].as_str()) {
            Some(t) => if t.asked > 0 && t.asked > t.connections {
                let got: String = to_decimal(t.connections);
                let asked: String = to_decimal(t.asked);
                let a: String = glue3(hosts[i].as_str(), " granted only ", got.as_str());
                let b: String = glue3(a.as_str(), " of the ", asked.as_str());
                let c: String = glue(
                    b.as_str(),
                    " connections asked for - the account tier may cap it",
                );
                add_text(&mut tips, c.as_str());
            },
            None => {},
        }
        i = i + 1;
    }
    assert(all.take(all.len() as int) =~= all);
    if hosts.len() == 1 {
        add_text(&mut tips, "a second provider adds parallel headroom");
    } else if tips.len() == 0 {
        assert(tips.deep_view().len() == 0);
        add_text(&mut tips, "a faster provider (or one more) is the likely lever");
    }
    tips
}

/// How the servers stand to the line.
#[derive(Clone, Copy, PartialEq, Eq, Structural, Debug)]
pub enum Band {
    /// They are well faster: its speed looks to be set too low.
    Over,
    /// They are well slower.
    Under,
    /// They cover it.
    Within,
}

/// What is said of the servers and the line.
pub open spec fn hint_of(
    band: Band,
    got: Seq<char>,
    percent: Seq<char>,
    want: Seq<char>,
    advice: Seq<Seq<char>>,
) -> Seq<char> {
    let first = "providers measured ~"@ + got + " Mbps together, "@ + percent + "% of the ~"@
        + want;
    match band {
        Band::Over => first
            + " Mbps Line speed set in Settings - the setting looks low, raise it so percentage speed limits and these readings are right"@,
        Band::Under => first + " Mbps line - well short. "@ + joined(advice, "; "@),
        Band::Within => ""@,
    }
}

/// What is said of the servers and the line: nothing where they cover it. The
/// speeds are given in megabits, written out.
pub fn hint_text(band: Band, got: &str, percent: &str, want: &str, advice: &Vec<String>) -> (r:
    String)
    ensures
        r@ == hint_of(band, got@, percent@, want@, advice.deep_view()),
{
    let a: String = glue3("providers measured ~", got, " Mbps together, ");
    let b: String = glue3(a.as_str(), percent, "% of the ~");
    let first: String = glue(b.as_str(), want);
    match band {
        Band::Over => glue(
            first.as_str(),
            " Mbps Line speed set in Settings - the setting looks low, raise it so percentage speed limits and these readings are right",
        ),
        Band::Under => {
            let tips: String = join(advice, "; ");
            glue3(first.as_str(), " Mbps line - well short. ", tips.as_str())
        },
        Band::Within => "".to_owned(),
    }
}

/// What a new hint is to the one that is shown.
#[derive(Clone, Copy, PartialEq, Eq, Structural, Debug)]
pub enum HintNews {
    Same,
    /// There is nothing to say any more.
    Cleared,
    New,
}

/// Shows a hint in place of another.
pub fn show_hint(cur: &mut String, hint: &str) -> (r: HintNews)
    ensures
        final(cur)@ == hint@,
        r == (if old(cur)@ == hint@ {
            HintNews::Same
        } else if hint@.len() == 0 {
            HintNews::Cleared
        } else {
            HintNews::New
        }),
{
    if same(cur.as_str(), hint) {
        return HintNews::Same;
    }
    *cur = hint.to_owned();
    if hint.is_empty() {
        HintNews::Cleared
    } else {
        HintNews::New
    }
}

/// The hint that the servers and the line call for: none where they are not
/// judged, and none where they cover it.
pub open spec fn hint_for(
    line: u64,
    hosts: Seq<Seq<char>>,
    tuned: Book<Tuned>,
    band: Band,
    got: Seq<char>,
    percent: Seq<char>,
    want: Seq<char>,
) -> Seq<char> {
    if is_judged(line, hosts, tuned) {
        hint_of(band, got, percent, want, advice_of(hosts, tuned))
    } else {
        Seq::empty()
    }
}

/// Shows the hint that the servers and the line call for, in place of the one
/// that is shown. How the servers stand to the line, and the speeds, written
/// out, count only where the servers are judged.
pub fn tune_hint(
    cur: &mut String,
    line: u64,
    servers: &Vec<ServerConf>,
    tuned: &Book<Tuned>,
    band: Band,
    got: &str,
    percent: &str,
    want: &str,
) -> (r: HintNews)
    requires
        tuned.wf(),
    ensures
        final(cur)@ == hint_for(line, measured_of(servers@), *tuned, band, got@, percent@, want@),
        r == (if old(cur)@ == final(cur)@ {
            HintNews::Same
        } else if final(cur)@.len() == 0 {
            HintNews::Cleared
        } else {
            HintNews::New
        }),
{
    let hosts: Vec<String> = measured_hosts(servers);
    if judged(line, &hosts, tuned) {
        let hint: String = hint_text(band, got, percent, want, &advice(&hosts, tuned));
        show_hint(cur, hint.as_str())
    } else {
        proof {
            reveal_strlit("");
            assert(""@ =~= Seq::empty());
        }
        show_hint(cur, "")
    }
}

// ---- tuning while it runs -------------------------------------------------------------

/// What each host moved over an epoch: of the hosts that stand at the same
/// place in both samples, among the first so many, in order.
pub open spec fn epoch_upto(
    now: Seq<(Seq<char>, u64)>,
    before: Seq<(Seq<char>, u64)>,
    n: int,
) -> Seq<(Seq<char>, u64)>
    decreases n,
{
    if n <= 0 {
        Seq::empty()
    } else {
        let rest = epoch_upto(now, before, n - 1);
        let (h, b) = now[n - 1];
        let (h0, b0) = before[n - 1];
        if h == h0 {
            rest.push(
                (
                    h,
                    if b > b0 {
                        (b - b0) as u64
                    } else {
                        0
                    },
                ),
            )
        } else {
            rest
        }
    }
}

/// What each host moved over an epoch: of the hosts that stand at the same
/// place in both samples, in order.
pub open spec fn epoch_of(now: Seq<(Seq<char>, u64)>, before: Seq<(Seq<char>, u64)>) -> Seq<
    (Seq<char>, u64),
> {
    epoch_upto(
        now,
        before,
        if now.len() < before.len() {
            now.len() as int
        } else {
            before.len() as int
        },
    )
}

/// What each host moved over an epoch.
pub fn epoch_deltas(now: &Vec<HostBytes>, before: &Vec<HostBytes>) -> (r: Vec<HostBytes>)
    ensures
        pairs(r@) == epoch_of(pairs(now@), pairs(before@)),
{
    let n: usize = if now.len() < before.len() {
        now.len()
    } else {
        before.len()
    };
    let ghost a = pairs(now@);
    let ghost b = pairs(before@);
    let mut r: Vec<HostBytes> = Vec::new();
    let mut i: usize = 0;
    assert(pairs(r@) =~= epoch_upto(a, b, 0));
    while i < n
        invariant
            i <= n <= now@.len(),
            n <= before@.len(),
            a == pairs(now@),
            b == pairs(before@),
            pairs(r@) == epoch_upto(a, b, i as int),
        decreases n - i,
    {
        proof {
            assert(a[i as int] == (now@[i as int].host@, now@[i as int].bytes));
            assert(b[i as int] == (before@[i as int].host@, before@[i as int].bytes));
        }
        if same(now[i].host.as_str(), before[i].host.as_str()) {
            let d: u64 = if now[i].bytes > before[i].bytes {
                now[i].bytes - before[i].bytes
            } else {
                0
            };
            let ghost was = r@;
            r.push(HostBytes { host: now[i].host.as_str().to_owned(), bytes: d });
            assert(pairs(r@) =~= pairs(was).push((now@[i as int].host@, d)));
        }
        i = i + 1;
    }
    r
}

/// Something that happened to a pool.
#[derive(Debug)]
pub struct PoolEvent {
    pub kind: String,
    pub host: String,
    pub at_ms: u64,
}

/// Whether an event says that a host would not take more connections, since a
/// time.
pub open spec fn is_cap(e: PoolEvent, host: Seq<char>, from_ms: u64) -> bool {
    e.kind@ == "cap"@ && e.host@ == host && e.at_ms >= from_ms
}

/// Whether any event says that a host would not take more connections, since a
/// time.
pub open spec fn any_cap(events: Seq<PoolEvent>, host: Seq<char>, from_ms: u64) -> bool {
    exists|i: int| 0 <= i < events.len() && is_cap(#[trigger] events[i], host, from_ms)
}

/// Whether a host said within the epoch that it would not take more
/// connections.
pub fn under_pressure(events: &Vec<PoolEvent>, host: &str, now_ms: u64, epoch_ms: u64) -> (r: bool)
    ensures
        ({
            let from = if now_ms > epoch_ms {
                (now_ms - epoch_ms) as u64
            } else {
                0
            };
            r == any_cap(events@, host@, from)
        }),
{
    let from: u64 = if now_ms > epoch_ms {
        now_ms - epoch_ms
    } else {
        0
    };
    let mut i: usize = 0;
    while i < events.len()
        invariant
            i <= events@.len(),
            from == (if now_ms > epoch_ms {
                (now_ms - epoch_ms) as u64
            } else {
                0
            }),
            forall|k: int| 0 <= k < i ==> !is_cap(#[trigger] events@[k], host@, from),
        decreases events@.len() - i,
    {
        let e: &PoolEvent = &events[i];
        if same(e.kind.as_str(), "cap") && same(e.host.as_str(), host) && e.at_ms >= from {
            assert(is_cap(events@[i as int], host@, from));
            return true;
        }
        i = i + 1;
    }
    false
}

/// What was seen of a server over an epoch, other than its rate.
#[derive(Clone, Copy, PartialEq, Eq, Structural, Debug)]
pub struct EpochSeen {
    /// Whether what was measured is the line, not an empty queue.
    pub busy: bool,
    /// Whether a limit held the rate.
    pub rate_limited: bool,
    /// Whether the server would not take more connections.
    pub capacity_pressure: bool,
    /// Whether as many connections ran as were wanted.
    pub fleet_met: bool,
}

/// What was seen of a server over an epoch.
pub fn epoch_seen(
    delta: u64,
    tail: bool,
    rate_limited: bool,
    capacity_pressure: bool,
    connected: u64,
    target: u64,
) -> (r: EpochSeen)
    ensures
        r == (EpochSeen {
            busy: delta > 0 && !tail,
            rate_limited,
            capacity_pressure,
            fleet_met: connected >= target,
        }),
{
    EpochSeen {
        busy: delta > 0 && !tail,
        rate_limited,
        capacity_pressure,
        fleet_met: connected >= target,
    }
}

// ---- laws -----------------------------------------------------------------

/// A server is never measured where it is off, is a paid block, was tried
/// within six hours, or has a fresh reading: one that settled is fresh for the
/// long while, one that is open for the short one.
pub proof fn when_a_server_is_not_measured(
    s: &ServerConf,
    ceiling: u64,
    tuned: Option<&Tuned>,
    attempted: Option<u64>,
    clock: TuneClock,
    now: u64,
    r: bool,
)
    requires
        call_ensures(probe_due, (s, ceiling, tuned, attempted, clock, now), r),
    ensures
        !s.enabled ==> !r,
        s.block_bytes is Some ==> !r,
        attempted is Some && now <= attempted->0 + 21_600 ==> !r,
        tuned is Some && (tuned->0.suspect || tuned->0.pending || (tuned->0.v < clock.schema
            && tuned->0.connections * 2 <= ceiling)) && now <= tuned->0.checked
            + clock.suspect_stale ==> !r,
        tuned is Some && !tuned->0.suspect && !tuned->0.pending && (tuned->0.v >= clock.schema
            || tuned->0.connections * 2 > ceiling) && now <= tuned->0.checked + clock.stale ==> !r,
{
}

/// Any other server is measured: one of which nothing is known, and one whose
/// reading is older than it may be.
pub proof fn when_a_server_is_measured(
    s: &ServerConf,
    ceiling: u64,
    tuned: Option<&Tuned>,
    attempted: Option<u64>,
    clock: TuneClock,
    now: u64,
    r: bool,
)
    requires
        call_ensures(probe_due, (s, ceiling, tuned, attempted, clock, now), r),
        s.enabled,
        s.block_bytes is None,
        attempted is None || now > attempted->0 + 21_600,
    ensures
        tuned is None ==> r,
        tuned is Some && (tuned->0.suspect || tuned->0.pending || (tuned->0.v < clock.schema
            && tuned->0.connections * 2 <= ceiling)) && now > tuned->0.checked
            + clock.suspect_stale ==> r,
        tuned is Some && !tuned->0.suspect && !tuned->0.pending && (tuned->0.v >= clock.schema
            || tuned->0.connections * 2 > ceiling) && now > tuned->0.checked + clock.stale ==> r,
{
}

/// The line is quiet where nothing downloads and nothing is scanned.
pub proof fn when_the_line_is_quiet(downloading: bool, scanning: bool, r: bool)
    requires
        call_ensures(line_is_idle, (downloading, scanning), r),
    ensures
        downloading ==> !r,
        scanning ==> !r,
        !downloading && !scanning ==> r,
{
}

/// A measurement goes up to twice what is configured, but to thirty at the
/// least and a hundred at the most.
pub proof fn how_far_a_measurement_goes(connections: u32, r: u64)
    requires
        call_ensures(probe_cap, (connections,), r),
    ensures
        30 <= r <= 100,
        r == 2 * connections || (r == 30 && 2 * connections < 30) || (r == 100 && 2 * connections
            > 100),
{
}

/// A measurement is recorded exactly where the line stayed quiet, data moved,
/// and the user has not measured since it began; a line that was disturbed
/// says nothing, whatever was read.
pub proof fn what_becomes_of_a_measurement(
    idle: bool,
    knee: Option<Knee>,
    fresh: Option<&Tuned>,
    now: u64,
    r: Measured,
)
    requires
        call_ensures(measured, (idle, knee, fresh, now), r),
    ensures
        r == Measured::Disturbed <==> !idle,
        r == Measured::NoData <==> idle && knee is None,
        r == Measured::UserRan <==> idle && knee is Some && fresh is Some && fresh->0.manual
            && fresh->0.checked >= now,
        r is Record <==> idle && knee is Some && !(fresh is Some && fresh->0.manual
            && fresh->0.checked >= now),
        r matches Measured::Record(k) ==> knee == Some(k),
{
}

/// What is recorded of a measurement.
pub proof fn what_is_recorded(
    k: Knee,
    granted: u64,
    now: u64,
    suspect: bool,
    limit: u64,
    schema: u32,
    r: Tuned,
)
    requires
        call_ensures(record, (k, granted, now, suspect, limit, schema), r),
    ensures
        r.connections == k.connections && r.asked == k.asked && r.granted == granted,
        r.checked == now && r.suspect == suspect && r.limit == limit && r.v == schema,
        !r.manual && !r.pending,
{
}

/// A suspect reading is unproven whatever it says; any other lies below, above
/// or at what a job would use.
pub proof fn how_a_reading_stands(best: u64, limit: u64, suspect: bool, r: Standing)
    requires
        call_ensures(standing, (best, limit, suspect), r),
    ensures
        r == Standing::Unproven <==> suspect,
        r == Standing::Below <==> !suspect && best < limit,
        r == Standing::Above <==> !suspect && best > limit,
        r == Standing::At <==> !suspect && best == limit,
{
}

/// What leads to each step of a round of measuring.
pub proof fn what_leads_to_a_record(s: TuneStep, f: TuneFacts, r: TuneStep)
    requires
        call_ensures(tune_next, (s, f), r),
    ensures
        r == TuneStep::Choose <==> s == TuneStep::Rest && f.wanted && f.idle,
        r == TuneStep::TakePermit <==> s == TuneStep::Choose && f.chosen,
        r == TuneStep::Ladder <==> s == TuneStep::TakePermit && f.permit,
        r == TuneStep::Remeasure <==> s == TuneStep::Ladder && f.climbed && f.contested,
        r == TuneStep::Bill <==> s == TuneStep::Remeasure || (s == TuneStep::Ladder && f.climbed
            && !f.contested),
        r == TuneStep::Judge <==> s == TuneStep::Bill,
        r is Record <==> s == TuneStep::Judge && f.outcome is Record,
        r matches TuneStep::Record(k) ==> f.outcome == Measured::Record(k),
        r == TuneStep::Hint <==> s is Record,
        s == TuneStep::Hint ==> r == TuneStep::Rest,
{
}

/// Every measurement that moved anything is counted before it is judged,
/// whatever becomes of it.
pub proof fn what_was_measured_is_billed(f: TuneFacts, g: TuneFacts, h: TuneFacts, a: Rung, l: Seq<Rung>)
    requires
        f.climbed,
    ensures
        tune_after(TuneStep::Ladder, f) == TuneStep::Bill || tune_after(
            tune_after(TuneStep::Ladder, f),
            g,
        ) == TuneStep::Bill,
        tune_after(TuneStep::Bill, h) == TuneStep::Judge,
        rung_bytes(l.push(a)) == rung_bytes(l) + a.bytes,
        rung_bytes(Seq::empty()) == 0,
{
    assert(l.push(a).drop_last() =~= l);
}

/// Every server that is on and no paid block is ever measured, in order, and
/// no other.
pub proof fn which_hosts_are_ever_measured(servers: Seq<ServerConf>, s: ServerConf)
    ensures
        s.enabled && s.block_bytes is None ==> measured_of(servers.push(s)) == measured_of(
            servers,
        ).push(s.host@),
        !s.enabled || s.block_bytes is Some ==> measured_of(servers.push(s)) == measured_of(servers),
        measured_of(Seq::empty()) == Seq::<Seq<char>>::empty(),
{
    assert(servers.push(s).drop_last() =~= servers);
}

/// The servers are judged only where the speed of the line is set, there are
/// any, and each of them was measured.
pub proof fn when_the_servers_are_judged(
    line: u64,
    hosts: &Vec<String>,
    tuned: &Book<Tuned>,
    r: bool,
    i: int,
)
    requires
        tuned.wf(),
        call_ensures(judged, (line, hosts, tuned), r),
    ensures
        line == 0 ==> !r,
        hosts@.len() == 0 ==> !r,
        r && 0 <= i < hosts@.len() ==> tuned.at(hosts@[i]@) is Some,
        line > 0 && hosts@.len() == 1 && tuned.at(hosts@[0]@) is Some ==> r,
{
    let all = hosts.deep_view();
    assert(all.len() == hosts@.len());
    if 0 <= i < hosts@.len() {
        assert(all[i] == hosts@[i]@);
    }
    if hosts@.len() == 1 {
        assert(all[0] == hosts@[0]@);
    }
}

/// A server that granted less than was asked for is named in the advice, one
/// that granted all is not; a single server is advised a second, and where
/// nothing else can be said, a faster one.
pub proof fn what_is_advised(hosts: Seq<Seq<char>>, h: Seq<char>, tuned: Book<Tuned>)
    ensures
        tuned.at(h) is Some && tuned.at(h)->0.asked > tuned.at(h)->0.connections ==> tips_of(
            hosts.push(h),
            tuned,
        ) == tips_of(hosts, tuned).push(
            h + " granted only "@ + decimal(tuned.at(h)->0.connections as int) + " of the "@
                + decimal(tuned.at(h)->0.asked as int)
                + " connections asked for - the account tier may cap it"@,
        ),
        tuned.at(h) is None || tuned.at(h)->0.asked <= tuned.at(h)->0.connections ==> tips_of(
            hosts.push(h),
            tuned,
        ) == tips_of(hosts, tuned),
        hosts.len() == 1 ==> advice_of(hosts, tuned).last()
            == "a second provider adds parallel headroom"@,
        hosts.len() > 1 && tips_of(hosts, tuned).len() > 0 ==> advice_of(hosts, tuned) == tips_of(
            hosts,
            tuned,
        ),
        hosts.len() > 1 && tips_of(hosts, tuned).len() == 0 ==> advice_of(hosts, tuned).len() == 1
            && advice_of(hosts, tuned)[0] == "a faster provider (or one more) is the likely lever"@,
{
    assert(hosts.push(h).drop_last() =~= hosts);
}

/// Nothing is said where the servers are not judged, or where they cover the
/// line; whether that is news is told by what was shown.
pub proof fn when_a_hint_is_shown(
    cur: &mut String,
    line: u64,
    servers: &Vec<ServerConf>,
    tuned: &Book<Tuned>,
    band: Band,
    got: &str,
    percent: &str,
    want: &str,
    r: HintNews,
)
    requires
        tuned.wf(),
        call_ensures(tune_hint, (cur, line, servers, tuned, band, got, percent, want), r),
    ensures
        band == Band::Within ==> final(cur)@.len() == 0,
        line == 0 ==> final(cur)@.len() == 0,
        r == HintNews::Same <==> old(cur)@ == final(cur)@,
        r == HintNews::Cleared <==> old(cur)@ != final(cur)@ && final(cur)@.len() == 0,
        r == HintNews::New <==> old(cur)@ != final(cur)@ && final(cur)@.len() > 0,
{
    reveal_strlit("");
}

/// What a hint says: how much was measured of which line, and what to do
/// about it, according to how they stand.
pub proof fn what_a_hint_says(
    band: Band,
    got: &str,
    percent: &str,
    want: &str,
    advice: &Vec<String>,
    r: String,
)
    requires
        call_ensures(hint_text, (band, got, percent, want, advice), r),
    ensures
        band == Band::Within ==> r@ == ""@,
        band == Band::Over ==> r@ == "providers measured ~"@ + got@ + " Mbps together, "@ + percent@
            + "% of the ~"@ + want@
            + " Mbps Line speed set in Settings - the setting looks low, raise it so percentage speed limits and these readings are right"@,
        band == Band::Under ==> r@ == "providers measured ~"@ + got@ + " Mbps together, "@
            + percent@ + "% of the ~"@ + want@ + " Mbps line - well short. "@ + joined(
            advice.deep_view(),
            "; "@,
        ),
{
}

/// What a host moved over an epoch counts only where it stands at the same
/// place in both samples; a counter that went back moved nothing.
pub proof fn what_a_host_moved_over_an_epoch(
    now: Seq<(Seq<char>, u64)>,
    before: Seq<(Seq<char>, u64)>,
    a: (Seq<char>, u64),
    b: (Seq<char>, u64),
)
    requires
        now.len() == before.len(),
    ensures
        a.0 == b.0 && a.1 >= b.1 ==> epoch_of(now.push(a), before.push(b)) == epoch_of(
            now,
            before,
        ).push((a.0, (a.1 - b.1) as u64)),
        a.0 == b.0 && a.1 < b.1 ==> epoch_of(now.push(a), before.push(b)) == epoch_of(
            now,
            before,
        ).push((a.0, 0)),
        a.0 != b.0 ==> epoch_of(now.push(a), before.push(b)) == epoch_of(now, before),
{
    an_epoch_looks_at_its_samples(now, before, now.push(a), before.push(b), now.len() as int);
}

proof fn an_epoch_looks_at_its_samples(
    now: Seq<(Seq<char>, u64)>,
    before: Seq<(Seq<char>, u64)>,
    more: Seq<(Seq<char>, u64)>,
    earlier: Seq<(Seq<char>, u64)>,
    n: int,
)
    requires
        forall|i: int| 0 <= i < n ==> #[trigger] now[i] == more[i],
        forall|i: int| 0 <= i < n ==> #[trigger] before[i] == earlier[i],
    ensures
        epoch_upto(now, before, n) == epoch_upto(more, earlier, n),
    decreases n,
{
    if n > 0 {
        an_epoch_looks_at_its_samples(now, before, more, earlier, n - 1);
        assert(now[n - 1] == more[n - 1]);
        assert(before[n - 1] == earlier[n - 1]);
    }
}

/// A host is under pressure exactly where it said within the epoch that it
/// would not take more connections: what another host said, what else was
/// said, and what was said before does not count.
pub proof fn when_a_host_is_under_pressure(
    events: &Vec<PoolEvent>,
    host: &str,
    now_ms: u64,
    epoch_ms: u64,
    r: bool,
    i: int,
)
    requires
        call_ensures(under_pressure, (events, host, now_ms, epoch_ms), r),
    ensures
        0 <= i < events@.len() && events@[i].kind@ == "cap"@ && events@[i].host@ == host@
            && events@[i].at_ms + epoch_ms >= now_ms ==> r,
        (forall|k: int|
            0 <= k < events@.len() ==> (#[trigger] events@[k]).kind@ != "cap"@ || events@[k].host@
                != host@ || events@[k].at_ms + epoch_ms < now_ms) ==> !r,
{
    let from: u64 = if now_ms > epoch_ms {
        (now_ms - epoch_ms) as u64
    } else {
        0
    };
    if 0 <= i < events@.len() {
        assert(is_cap(events@[i], host@, from) == (events@[i].kind@ == "cap"@ && events@[i].host@
            == host@ && events@[i].at_ms >= from));
    }
}

/// What was seen of a server over an epoch: it was busy where bytes moved and
/// the job was not at its end, and its fleet was met where as many connections
/// ran as were wanted.
pub proof fn what_is_seen_over_an_epoch(
    delta: u64,
    tail: bool,
    rate_limited: bool,
    capacity_pressure: bool,
    connected: u64,
    target: u64,
    r: EpochSeen,
)
    requires
        call_ensures(
            epoch_seen,
            (delta, tail, rate_limited, capacity_pressure, connected, target),
            r,
        ),
    ensures
        tail ==> !r.busy,
        delta == 0 ==> !r.busy,
        delta > 0 && !tail ==> r.busy,
        r.rate_limited == rate_limited && r.capacity_pressure == capacity_pressure,
        r.fleet_met <==> connected >= target,
{
}

/// The first server that is due is probed, and none exactly where none is due.
pub proof fn which_server_is_probed(
    servers: &Vec<ServerConf>,
    ceilings: &Vec<u64>,
    tuned: &Book<Tuned>,
    attempted: &Book<u64>,
    clock: TuneClock,
    now: u64,
    r: Option<usize>,
    k: int,
)
    requires
        servers@.len() == ceilings@.len(),
        tuned.wf(),
        attempted.wf(),
        0 <= k < servers@.len(),
        call_ensures(next_probe, (servers, ceilings, tuned, attempted, clock, now), r),
    ensures
        is_due(
            servers@[k],
            ceilings@[k],
            tuned.at(servers@[k].host@),
            attempted.at(servers@[k].host@),
            clock,
            now,
        ) ==> r is Some && r->0 <= k,
        r == Some(k as usize) && k <= usize::MAX ==> is_due(
            servers@[k],
            ceilings@[k],
            tuned.at(servers@[k].host@),
            attempted.at(servers@[k].host@),
            clock,
            now,
        ),
{
    assert(due_at(servers@, ceilings@, *tuned, *attempted, clock, now, k) == is_due(
        servers@[k],
        ceilings@[k],
        tuned.at(servers@[k].host@),
        attempted.at(servers@[k].host@),
        clock,
        now,
    ));
}

/// A hint is news where it is another than before; an empty one says that there
/// is none any more.
pub proof fn when_a_hint_is_news(cur: &mut String, hint: &str, r: HintNews)
    requires
        call_ensures(show_hint, (cur, hint), r),
    ensures
        final(cur)@ == hint@,
        r == HintNews::Same <==> old(cur)@ == hint@,
        old(cur)@ != hint@ && hint@.len() == 0 ==> r == HintNews::Cleared,
        old(cur)@ != hint@ && hint@.len() > 0 ==> r == HintNews::New,
{
}

/// No rung was granted more than the most that was granted.
pub proof fn what_was_granted_at_most(rungs: &Vec<Rung>, r: u64, i: int)
    requires
        0 <= i < rungs@.len(),
        call_ensures(most_granted, (rungs,), r),
    ensures
        rungs@[i].granted <= r,
        rungs@.len() == 1 ==> r == rungs@[0].granted,
{
}

} // verus!
