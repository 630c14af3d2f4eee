//! Setters of the download engine, of speed and of the interface.
use super::outcome::{
    bad_size, not_a_number, read_number, refused, taken, typed_number, Outcome,
};
use crate::daemon::{clamp, clamped, Action, Daemon, Engine, Flag, Interface, Speed, VerifyMode};
use crate::text::{
    flag, glue, glue3, http, is_http, is_on, join, joined, listed, lower, lowered, octal3, parse,
    parse_u64, parsed, same, to_octal3, trim, trimmed,
};
use crate::value::{text, uint, uint_json, Json, Value};
use vstd::prelude::*;

verus! {

/// The absolute speed that a typed limit means: a bare number up to 100 is a
/// percentage of the line speed (0 and 100 are both unlimited), anything else
/// is the size that was read of it.
pub open spec fn speed_of(line: u64, v: Seq<char>, size: Option<u64>) -> Option<int> {
    match typed_number(v) {
        Some(pct) if pct <= 100 => if pct == 0 || pct == 100 {
            Some(0)
        } else {
            Some(line * pct / 100)
        },
        _ => match size {
            Some(b) => Some(b as int),
            None => None,
        },
    }
}

/// Whether a typed limit is a percentage below 100.
pub open spec fn is_share(v: Seq<char>) -> bool {
    typed_number(v) matches Some(pct) && 0 < pct < 100
}

/// What setting `speedlimit` to a value comes to.
pub open spec fn speedlimit_set(
    old: Daemon,
    name: Seq<char>,
    v: Seq<char>,
    size: Option<u64>,
    r: Outcome,
    new: Daemon,
) -> bool {
    let line = old.numbers.line_speed;
    if is_share(v) && line == 0 {
        refused(
            old,
            r,
            new,
            "percentage limits need a Line speed (Settings → Speed & scheduling)"@,
        )
    } else {
        match speed_of(line, v, size) {
            None => refused(old, r, new, bad_size(name)),
            Some(bps) => {
                &&& taken(r, true, uint_json(bps))
                &&& new == (Daemon { todo: new.todo, ..old })
                &&& new.todo@ == old.todo@.push(Action::SpeedCeiling(bps as u64))
            },
        }
    }
}

/// Whether a percentage of the line speed can be worked out in 64 bits.
pub open spec fn share_fits(line: u64, v: Seq<char>) -> bool {
    is_share(v) ==> line * typed_number(v)->0 <= u64::MAX
}

/// Asks for a new speed ceiling.
pub fn set_speedlimit(d: &mut Daemon, name: &str, v: &str, size: Option<u64>) -> (r: Outcome)
    requires
        share_fits(old(d).numbers.line_speed, v@),
    ensures
        speedlimit_set(*old(d), name@, v@, size, r, *final(d)),
{
    let bps: u64 = match parse_u64(trim(v).as_str()) {
        Some(pct) if pct <= 100 => {
            if pct == 0 || pct >= 100 {
                0
            } else {
                let line: u64 = d.numbers.line_speed;
                if line == 0 {
                    return Err(
                        "percentage limits need a Line speed (Settings → Speed & scheduling)".to_owned(),
                    );
                }
                line * pct / 100
            }
        },
        _ => match size {
            Some(b) => b,
            None => {
                return Err(glue(name, ": bad size (e.g. 4M, 10G, 0 = off)"));
            },
        },
    };
    d.ask(Action::SpeedCeiling(bps));
    Ok((true, uint(bps)))
}

/// What setting `auto_speed` to a value comes to.
pub open spec fn auto_speed_set(old: Daemon, v: Seq<char>, r: Outcome, new: Daemon) -> bool {
    let on = is_on(v);
    &&& taken(r, true, Json::Bool(on))
    &&& new == (Daemon {
        speed: Speed {
            auto_speed: on,
            rate: if on {
                old.speed.rate
            } else {
                old.speed.speed_ceiling
            },
            ..old.speed
        },
        ..old
    })
}

/// Hands the rate to the tuner, or back to the ceiling.
pub fn set_auto_speed(d: &mut Daemon, _name: &str, v: &str) -> (r: Outcome)
    ensures
        auto_speed_set(*old(d), v@, r, *final(d)),
{
    let on = flag(v);
    d.speed.auto_speed = on;
    if !on {
        d.speed.rate = d.speed.speed_ceiling;
    }
    Ok((true, Value::Bool(on)))
}

/// What setting `update_url` to a value comes to.
pub open spec fn update_url_set(old: Daemon, v: Seq<char>, r: Outcome, new: Daemon) -> bool {
    let t = trimmed(v);
    if t.len() > 0 && !is_http(t) {
        refused(old, r, new, "update_url: must be http(s), or empty to disable checks"@)
    } else {
        &&& taken(r, true, Json::Text(t))
        &&& new == (Daemon {
            interface: Interface { update_url: new.interface.update_url, ..old.interface },
            ..old
        })
        &&& new.interface.update_url@ == t
    }
}

/// Sets where updates are looked for; empty turns the checks off.
pub fn set_update_url(d: &mut Daemon, _name: &str, v: &str) -> (r: Outcome)
    ensures
        update_url_set(*old(d), v@, r, *final(d)),
{
    let t: String = trim(v);
    if !t.as_str().is_empty() && !http(t.as_str()) {
        return Err("update_url: must be http(s), or empty to disable checks".to_owned());
    }
    let echo = text(t.as_str());
    d.interface.update_url = t;
    Ok((true, echo))
}

/// What setting `ui_locale` to a value comes to.
pub open spec fn ui_locale_set(old: Daemon, v: Seq<char>, r: Outcome, new: Daemon) -> bool {
    let t = lowered(trimmed(v));
    let known = old.words.ui_locales.deep_view();
    if t.len() > 0 && !known.contains(t) {
        refused(
            old,
            r,
            new,
            "ui_locale: one of "@ + joined(known, ", "@) + " - or empty for auto"@,
        )
    } else {
        &&& taken(r, true, Json::Text(t))
        &&& new == (Daemon {
            interface: Interface { ui_locale: new.interface.ui_locale, ..old.interface },
            ..old
        })
        &&& new.interface.ui_locale@ == t
    }
}

/// Sets the dashboard's language; empty follows the browser.
pub fn set_ui_locale(d: &mut Daemon, _name: &str, v: &str) -> (r: Outcome)
    ensures
        ui_locale_set(*old(d), v@, r, *final(d)),
{
    let t: String = lower(trim(v).as_str());
    if !t.as_str().is_empty() && !listed(&d.words.ui_locales, t.as_str()) {
        return Err(
            glue3(
                "ui_locale: one of ",
                join(&d.words.ui_locales, ", ").as_str(),
                " - or empty for auto",
            ),
        );
    }
    let echo = text(t.as_str());
    d.interface.ui_locale = t;
    Ok((true, echo))
}

/// What setting `bench_interval` to a value comes to.
pub open spec fn bench_interval_set(
    old: Daemon,
    name: Seq<char>,
    v: Seq<char>,
    r: Outcome,
    new: Daemon,
) -> bool {
    match typed_number(v) {
        None => refused(old, r, new, not_a_number(name)),
        Some(h) => if h > 720 {
            refused(old, r, new, "bench_interval: 0-720 hours"@)
        } else {
            &&& taken(r, true, uint_json(h))
            &&& new == (Daemon { speed: Speed { bench_interval: h as u64, ..old.speed }, ..old })
        },
    }
}

/// Sets the hours between benchmarks; 0 turns them off.
pub fn set_bench_interval(d: &mut Daemon, name: &str, v: &str) -> (r: Outcome)
    ensures
        bench_interval_set(*old(d), name@, v@, r, *final(d)),
{
    match read_number(name, v) {
        Err(e) => Err(e),
        Ok(h) => {
            if h > 720 {
                return Err("bench_interval: 0-720 hours".to_owned());
            }
            d.speed.bench_interval = h;
            Ok((true, uint(h)))
        },
    }
}

/// What setting `auto_prefetch` to a value comes to.
pub open spec fn auto_prefetch_set(old: Daemon, v: Seq<char>, r: Outcome, new: Daemon) -> bool {
    let on = is_on(v);
    &&& taken(r, true, Json::Bool(on))
    &&& new == (Daemon { todo: new.todo, ..old.with_flag(Flag::AutoPrefetch, on) })
    &&& new.todo@ == if on {
        old.todo@
    } else {
        old.todo@.push(Action::StopSidecar)
    }
}

/// Turns prefetching on or off; off stops one that runs.
pub fn set_auto_prefetch(d: &mut Daemon, _name: &str, v: &str) -> (r: Outcome)
    ensures
        auto_prefetch_set(*old(d), v@, r, *final(d)),
{
    let on = flag(v);
    d.set_flag(Flag::AutoPrefetch, on);
    if !on {
        d.ask(Action::StopSidecar);
    }
    Ok((true, Value::Bool(on)))
}

/// Turns racing of stragglers on or off, from the next download on.
pub fn set_race_stragglers(d: &mut Daemon, _name: &str, v: &str) -> (r: Outcome)
    ensures
        super::outcome::flag_set(*old(d), Flag::RaceStragglers, v@, r, *final(d)),
{
    super::outcome::set_switch(d, Flag::RaceStragglers, v)
}

/// What setting `history_rows` to a value comes to.
pub open spec fn history_rows_set(
    old: Daemon,
    name: Seq<char>,
    v: Seq<char>,
    r: Outcome,
    new: Daemon,
) -> bool {
    match typed_number(v) {
        None => refused(old, r, new, not_a_number(name)),
        Some(n) => if !(1 <= n <= 200) {
            refused(old, r, new, "history_rows: 1-200"@)
        } else {
            &&& taken(r, true, uint_json(n))
            &&& new == (Daemon {
                interface: Interface { history_rows: n as u64, ..old.interface },
                ..old
            })
        },
    }
}

/// Sets how many rows of history a page shows.
pub fn set_history_rows(d: &mut Daemon, name: &str, v: &str) -> (r: Outcome)
    ensures
        history_rows_set(*old(d), name@, v@, r, *final(d)),
{
    match read_number(name, v) {
        Err(e) => Err(e),
        Ok(n) => {
            if !(1 <= n && n <= 200) {
                return Err("history_rows: 1-200".to_owned());
            }
            d.interface.history_rows = n;
            Ok((true, uint(n)))
        },
    }
}

/// What setting `connections` to a value comes to.
pub open spec fn connections_set(
    old: Daemon,
    name: Seq<char>,
    v: Seq<char>,
    r: Outcome,
    new: Daemon,
) -> bool {
    match typed_number(v) {
        None => refused(old, r, new, not_a_number(name)),
        Some(k) => {
            let n = clamped(k, 1, 999);
            &&& taken(r, true, uint_json(n))
            &&& new == (Daemon {
                engine: Engine { connections: n as u64, ..old.engine },
                todo: new.todo,
                ..old
            })
            &&& new.todo@ == old.todo@.push(Action::ReopenKnees(n as u64))
        },
    }
}

/// Sets how many connections a download may use. A raised number retires the
/// knees that were measured under a lower one.
pub fn set_connections(d: &mut Daemon, name: &str, v: &str) -> (r: Outcome)
    ensures
        connections_set(*old(d), name@, v@, r, *final(d)),
{
    match read_number(name, v) {
        Err(e) => Err(e),
        Ok(k) => {
            let n: u64 = clamp(k, 1, 999);
            d.engine.connections = n;
            d.ask(Action::ReopenKnees(n));
            Ok((true, uint(n)))
        },
    }
}

/// The mode that the two verify switches stand for.
pub open spec fn mode_of(fast: bool, lean: bool) -> VerifyMode {
    if !fast {
        VerifyMode::Full
    } else if lean {
        VerifyMode::Lean
    } else {
        VerifyMode::Fast
    }
}

/// The mode that the two verify switches stand for.
pub fn verify_mode_of(fast: bool, lean: bool) -> (r: VerifyMode)
    ensures
        r == mode_of(fast, lean),
{
    if !fast {
        VerifyMode::Full
    } else if lean {
        VerifyMode::Lean
    } else {
        VerifyMode::Fast
    }
}

/// The word for a mode.
pub open spec fn mode_word(m: VerifyMode) -> Seq<char> {
    match m {
        VerifyMode::Full => "full"@,
        VerifyMode::Fast => "fast"@,
        VerifyMode::Lean => "lean"@,
    }
}

/// The word for a mode.
pub fn verify_mode_word(m: VerifyMode) -> (r: &'static str)
    ensures
        r@ == mode_word(m),
{
    match m {
        VerifyMode::Full => "full",
        VerifyMode::Fast => "fast",
        VerifyMode::Lean => "lean",
    }
}

/// What setting `fast_verify` to a value comes to.
pub open spec fn fast_verify_set(old: Daemon, v: Seq<char>, r: Outcome, new: Daemon) -> bool {
    let on = is_on(v);
    let lean = on && old.engine.verify_lean;
    &&& taken(r, true, Json::Bool(on))
    &&& new == (Daemon {
        engine: Engine { fast_verify: on, verify_lean: lean, ..old.engine },
        todo: new.todo,
        ..old
    })
    &&& new.todo@ == old.todo@.push(Action::SaveVerifyMode(mode_of(on, lean)))
}

/// Turns fast verifying on or off. Full verifying ends lean mode too, and the
/// mode that results is saved beside the switch.
pub fn set_fast_verify(d: &mut Daemon, _name: &str, v: &str) -> (r: Outcome)
    ensures
        fast_verify_set(*old(d), v@, r, *final(d)),
{
    let on = flag(v);
    d.engine.fast_verify = on;
    if !on {
        d.engine.verify_lean = false;
    }
    let mode = verify_mode_of(on, d.engine.verify_lean);
    d.ask(Action::SaveVerifyMode(mode));
    Ok((true, Value::Bool(on)))
}

/// The two verify switches that a word stands for.
pub open spec fn verify_pair(t: Seq<char>) -> Option<(bool, bool)> {
    if t == "full"@ {
        Some((false, false))
    } else if t == "fast"@ {
        Some((true, false))
    } else if t == "lean"@ {
        Some((true, true))
    } else {
        None
    }
}

/// What setting `verify_mode` to a value comes to.
pub open spec fn verify_mode_set(old: Daemon, v: Seq<char>, r: Outcome, new: Daemon) -> bool {
    let t = trimmed(v);
    match verify_pair(t) {
        None => refused(old, r, new, "verify_mode must be full, fast, or lean"@),
        Some(p) => {
            &&& taken(r, true, Json::Text(t))
            &&& new == (Daemon {
                engine: Engine { fast_verify: p.0, verify_lean: p.1, ..old.engine },
                ..old
            })
        },
    }
}

/// Sets both verify switches by one word.
pub fn set_verify_mode(d: &mut Daemon, _name: &str, v: &str) -> (r: Outcome)
    ensures
        verify_mode_set(*old(d), v@, r, *final(d)),
{
    let t: String = trim(v);
    let (fast, lean) = if same(t.as_str(), "full") {
        (false, false)
    } else if same(t.as_str(), "fast") {
        (true, false)
    } else if same(t.as_str(), "lean") {
        (true, true)
    } else {
        return Err("verify_mode must be full, fast, or lean".to_owned());
    };
    d.engine.fast_verify = fast;
    d.engine.verify_lean = lean;
    Ok((true, text(t.as_str())))
}

/// What setting `out_umask` to a value comes to.
pub open spec fn out_umask_set(old: Daemon, v: Seq<char>, r: Outcome, new: Daemon) -> bool {
    let t = trimmed(v);
    if t.len() == 0 {
        &&& taken(r, true, Json::Text(""@))
        &&& new == (Daemon { engine: Engine { out_umask: u32::MAX, ..old.engine }, ..old })
    } else {
        match parsed(t, 8, 0o777) {
            None => refused(old, r, new, "out_umask must be an octal umask like 002 or 022"@),
            Some(m) => {
                &&& taken(r, true, Json::Text(octal3(m)))
                &&& new == (Daemon { engine: Engine { out_umask: m as u32, ..old.engine }, ..old })
            },
        }
    }
}

/// Sets the umask of finished files; empty leaves it to the process.
pub fn set_out_umask(d: &mut Daemon, _name: &str, v: &str) -> (r: Outcome)
    ensures
        out_umask_set(*old(d), v@, r, *final(d)),
{
    let t: String = trim(v);
    if t.as_str().is_empty() {
        d.engine.out_umask = u32::MAX;
        return Ok((true, text("")));
    }
    match parse(t.as_str(), 8, 0o777) {
        None => Err("out_umask must be an octal umask like 002 or 022".to_owned()),
        Some(m) => {
            let m: u32 = m as u32;
            d.engine.out_umask = m;
            Ok((true, text(to_octal3(m).as_str())))
        },
    }
}

/// What setting `auto_retry_mins` to a value comes to.
pub open spec fn auto_retry_mins_set(old: Daemon, v: Seq<char>, r: Outcome, new: Daemon) -> bool {
    match typed_number(v) {
        None => refused(old, r, new, "auto_retry_mins must be a number"@),
        Some(m) => {
            &&& taken(r, true, uint_json(m))
            &&& new == (Daemon {
                engine: Engine { auto_retry_secs: (m * 60) as u64, ..old.engine },
                ..old
            })
        },
    }
}

/// Whether a typed number of minutes is one of seconds in 64 bits.
pub open spec fn minutes_fit(v: Seq<char>) -> bool {
    typed_number(v) matches Some(m) ==> m * 60 <= u64::MAX
}

/// Sets how long a failed job waits for its retry.
pub fn set_auto_retry_mins(d: &mut Daemon, _name: &str, v: &str) -> (r: Outcome)
    requires
        minutes_fit(v@),
    ensures
        auto_retry_mins_set(*old(d), v@, r, *final(d)),
{
    match parse_u64(trim(v).as_str()) {
        None => Err("auto_retry_mins must be a number".to_owned()),
        Some(m) => {
            d.engine.auto_retry_secs = m * 60;
            Ok((true, uint(m)))
        },
    }
}

/// The quota period of a day: the letter `d`.
pub const DAY: u8 = 0x64;

/// The quota period of a month: the letter `m`.
pub const MONTH: u8 = 0x6d;

/// The period that a word stands for.
pub open spec fn period_of(t: Seq<char>) -> Option<u8> {
    if t == "d"@ || t == "D"@ {
        Some(DAY)
    } else if t == "m"@ || t == "M"@ {
        Some(MONTH)
    } else {
        None
    }
}

/// What setting `quota_period` to a value comes to.
pub open spec fn quota_period_set(old: Daemon, v: Seq<char>, r: Outcome, new: Daemon) -> bool {
    match period_of(trimmed(v)) {
        None => refused(old, r, new, "quota_period must be d or m"@),
        Some(p) => {
            &&& taken(r, true, Json::Text(seq![p as char]))
            &&& new == (Daemon { engine: Engine { quota_period: p, ..old.engine }, ..old })
        },
    }
}

/// Sets the period of the quota: `d` for a day, `m` for a month.
pub fn set_quota_period(d: &mut Daemon, _name: &str, v: &str) -> (r: Outcome)
    ensures
        quota_period_set(*old(d), v@, r, *final(d)),
{
    let t: String = trim(v);
    let p: u8 = if same(t.as_str(), "d") || same(t.as_str(), "D") {
        DAY
    } else if same(t.as_str(), "m") || same(t.as_str(), "M") {
        MONTH
    } else {
        return Err("quota_period must be d or m".to_owned());
    };
    d.engine.quota_period = p;
    let mut echo: String = String::new();
    echo.push(p as char);
    assert(echo@ =~= seq![p as char]);
    Ok((true, Value::Text(echo)))
}

/// What setting `nested_max_depth` to a value comes to.
pub open spec fn nested_max_depth_set(
    old: Daemon,
    name: Seq<char>,
    v: Seq<char>,
    r: Outcome,
    new: Daemon,
) -> bool {
    match typed_number(v) {
        None => refused(old, r, new, not_a_number(name)),
        Some(k) => {
            let n = clamped(k, 1, 64);
            &&& taken(r, true, uint_json(n))
            &&& new == (Daemon {
                engine: Engine { nested_max_depth: n as u64, ..old.engine },
                todo: new.todo,
                ..old
            })
            &&& new.todo@ == old.todo@.push(Action::NestedDepth(n as u64))
        },
    }
}

/// Sets how deep nested archives are unpacked.
pub fn set_nested_max_depth(d: &mut Daemon, name: &str, v: &str) -> (r: Outcome)
    ensures
        nested_max_depth_set(*old(d), name@, v@, r, *final(d)),
{
    match read_number(name, v) {
        Err(e) => Err(e),
        Ok(k) => {
            let n: u64 = clamp(k, 1, 64);
            d.engine.nested_max_depth = n;
            d.ask(Action::NestedDepth(n));
            Ok((true, uint(n)))
        },
    }
}

/// What a schedule text was read as: its entries, and the state that they
/// imply at this minute of the week.
pub struct Schedule {
    pub entries: Vec<Value>,
    pub paused: Option<bool>,
    pub limit: Option<u64>,
}

/// The work that a schedule asks for at once.
pub open spec fn schedule_work(paused: Option<bool>, limit: Option<u64>) -> Seq<Action> {
    let a = match paused {
        Some(true) => seq![Action::Pause],
        Some(false) => seq![Action::Resume],
        None => Seq::empty(),
    };
    match limit {
        Some(l) => a.push(Action::ScheduleCeiling(l)),
        None => a,
    }
}

/// What setting `schedule` to a value comes to.
pub open spec fn schedule_set(
    old: Daemon,
    v: Seq<char>,
    parsed: Result<Schedule, String>,
    r: Outcome,
    new: Daemon,
) -> bool {
    let t = trimmed(v);
    let frame = new == (Daemon {
        speed: Speed {
            schedule: new.speed.schedule,
            schedule_text: new.speed.schedule_text,
            ..old.speed
        },
        todo: new.todo,
        ..old
    });
    if t.len() == 0 {
        &&& taken(r, true, Json::Text(t))
        &&& frame
        &&& new.speed.schedule@ == Seq::<Value>::empty()
        &&& new.speed.schedule_text@ == t
        &&& new.todo@ == old.todo@
    } else {
        match parsed {
            Err(e) => refused(old, r, new, e@),
            Ok(s) => {
                &&& taken(r, true, Json::Text(t))
                &&& frame
                &&& new.speed.schedule == s.entries
                &&& new.speed.schedule_text@ == t
                &&& new.todo@ == old.todo@ + schedule_work(s.paused, s.limit)
            },
        }
    }
}

/// Asks for the work of [`schedule_work`].
fn ask_schedule(d: &mut Daemon, paused: Option<bool>, limit: Option<u64>)
    ensures
        *final(d) == (Daemon { todo: final(d).todo, ..*old(d) }),
        final(d).todo@ == old(d).todo@ + schedule_work(paused, limit),
{
    let ghost before = d.todo@;
    if let Some(p) = paused {
        d.ask(
            if p {
                Action::Pause
            } else {
                Action::Resume
            },
        );
    }
    if let Some(l) = limit {
        d.ask(Action::ScheduleCeiling(l));
    }
    assert(d.todo@ =~= before + schedule_work(paused, limit));
}

/// What going by a schedule comes to.
pub open spec fn goes_by(old: Daemon, text: Seq<char>, s: Schedule, new: Daemon) -> bool {
    &&& new == (Daemon {
        speed: Speed {
            schedule: s.entries,
            schedule_text: new.speed.schedule_text,
            ..old.speed
        },
        todo: new.todo,
        ..old
    })
    &&& new.speed.schedule_text@ == text
    &&& new.todo@ == old.todo@ + schedule_work(s.paused, s.limit)
}

/// Goes by a schedule from now on, and asks for the state that it implies now.
/// Its text is kept as it is.
pub fn go_by_schedule(d: &mut Daemon, text: String, s: Schedule)
    ensures
        goes_by(*old(d), text@, s, *final(d)),
{
    ask_schedule(d, s.paused, s.limit);
    d.speed.schedule = s.entries;
    d.speed.schedule_text = text;
}

/// Sets the weekly schedule from what was read of it, and asks for the state
/// that it implies now. Empty clears it.
pub fn set_schedule(
    d: &mut Daemon,
    _name: &str,
    v: &str,
    parsed: Result<Schedule, String>,
) -> (r: Outcome)
    ensures
        schedule_set(*old(d), v@, parsed, r, *final(d)),
{
    let t: String = trim(v);
    let echo = text(t.as_str());
    if t.as_str().is_empty() {
        d.speed.schedule = Vec::new();
        d.speed.schedule_text = t;
        return Ok((true, echo));
    }
    match parsed {
        Err(e) => Err(e),
        Ok(s) => {
            go_by_schedule(d, t, s);
            Ok((true, echo))
        },
    }
}

// ---- laws -----------------------------------------------------------------

/// Going by a schedule stores its entries and its text, and asks for the state
/// that it implies now: the pause first, the ceiling last.
pub proof fn what_going_by_a_schedule_does(d: &mut Daemon, text: String, s: Schedule, r: ())
    requires
        call_ensures(go_by_schedule, (d, text, s), r),
    ensures
        final(d).speed.schedule == s.entries,
        final(d).speed.schedule_text@ == text@,
        s.paused == Some(true) ==> final(d).todo@.len() > old(d).todo@.len()
            && final(d).todo@[old(d).todo@.len() as int] == Action::Pause,
        s.paused == Some(false) ==> final(d).todo@.len() > old(d).todo@.len()
            && final(d).todo@[old(d).todo@.len() as int] == Action::Resume,
        s.paused is None && s.limit is None ==> final(d).todo@ == old(d).todo@,
        s.limit matches Some(l) ==> final(d).todo@.len() > old(d).todo@.len() && final(d).todo@.last()
            == Action::ScheduleCeiling(l),
        final(d).speed.speed_ceiling == old(d).speed.speed_ceiling && final(d).engine
            == old(d).engine && final(d).paths == old(d).paths,
{
}

} // verus!
