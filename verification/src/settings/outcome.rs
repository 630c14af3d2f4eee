//! What a setter answers, and the answers that many of them share.
use crate::daemon::{clamped, Count, Daemon, Flag};
use crate::text::{flag, glue, is_on, parse_u64, parsed_u64, trim, trimmed};
use crate::value::{uint, uint_json, Json, Value};
use vstd::prelude::*;

verus! {

/// What setting a value comes to: whether it is live already and what to
/// save, or why it was refused.
pub type Outcome = Result<(bool, Value), String>;

/// The setter refused with `msg` and changed nothing.
pub open spec fn refused(old: Daemon, r: Outcome, new: Daemon, msg: Seq<char>) -> bool {
    &&& r matches Err(e) && e@ == msg
    &&& new == old
}

/// The setter took the value and asks for `j` to be saved.
pub open spec fn taken(r: Outcome, live: bool, j: Json) -> bool {
    r matches Ok(p) && p.0 == live && p.1@ == j
}

/// The refusal of something that is no number.
pub open spec fn not_a_number(name: Seq<char>) -> Seq<char> {
    name + ": not a number"@
}

/// The refusal of something that is no size.
pub open spec fn bad_size(name: Seq<char>) -> Seq<char> {
    name + ": bad size (e.g. 4M, 10G, 0 = off)"@
}

/// The number that a setting's value spells.
pub open spec fn typed_number(v: Seq<char>) -> Option<int> {
    parsed_u64(trimmed(v))
}

/// Reads the number that a setting's value spells.
pub fn read_number(name: &str, v: &str) -> (r: Result<u64, String>)
    ensures
        match r {
            Ok(n) => typed_number(v@) == Some(n as int),
            Err(e) => typed_number(v@) is None && e@ == not_a_number(name@),
        },
{
    match parse_u64(trim(v).as_str()) {
        Some(n) => Ok(n),
        None => Err(glue(name, ": not a number")),
    }
}

/// A plain switch took `v`.
pub open spec fn flag_set(old: Daemon, f: Flag, v: Seq<char>, r: Outcome, new: Daemon) -> bool {
    &&& taken(r, true, Json::Bool(is_on(v)))
    &&& new == old.with_flag(f, is_on(v))
}

/// Sets a plain switch.
pub fn set_switch(d: &mut Daemon, f: Flag, v: &str) -> (r: Outcome)
    ensures
        flag_set(*old(d), f, v@, r, *final(d)),
{
    let on = flag(v);
    d.set_flag(f, on);
    Ok((true, Value::Bool(on)))
}

/// A bounded number took `v`, brought into its bounds, or refused what is no
/// number.
pub open spec fn count_set(
    old: Daemon,
    c: Count,
    name: Seq<char>,
    v: Seq<char>,
    r: Outcome,
    new: Daemon,
) -> bool {
    match typed_number(v) {
        None => refused(old, r, new, not_a_number(name)),
        Some(n) => {
            let k = clamped(
                n,
                crate::daemon::floor_of(c) as int,
                crate::daemon::cap_of(c) as int,
            );
            &&& taken(r, true, uint_json(k))
            &&& new == old.with_count(c, k as u64)
        },
    }
}

/// Sets a bounded number.
pub fn set_number(d: &mut Daemon, c: Count, name: &str, v: &str) -> (r: Outcome)
    ensures
        count_set(*old(d), c, name@, v@, r, *final(d)),
{
    match read_number(name, v) {
        Ok(n) => {
            let k: u64 = crate::daemon::within(c, n);
            d.set_count(c, k);
            Ok((true, uint(k)))
        },
        Err(e) => Err(e),
    }
}

/// A size was taken as read, or refused where it could not be read.
pub open spec fn size_set(
    old: Daemon,
    c: Count,
    name: Seq<char>,
    size: Option<u64>,
    r: Outcome,
    new: Daemon,
) -> bool {
    match size {
        None => refused(old, r, new, bad_size(name)),
        Some(b) => {
            &&& taken(r, true, uint_json(b as int))
            &&& new == old.with_count(c, b)
        },
    }
}

/// Sets a size from what was read of it.
pub fn set_size(d: &mut Daemon, c: Count, name: &str, size: Option<u64>) -> (r: Outcome)
    ensures
        size_set(*old(d), c, name@, size, r, *final(d)),
{
    match size {
        Some(b) => {
            d.set_count(c, b);
            Ok((true, uint(b)))
        },
        None => Err(glue(name, ": bad size (e.g. 4M, 10G, 0 = off)")),
    }
}

/// A number between the bounds stays, one beyond a bound becomes that bound.
pub proof fn what_bounds_do(n: u64, lo: u64, hi: u64, r: u64)
    requires
        lo <= hi,
        call_ensures(crate::daemon::clamp, (n, lo, hi), r),
    ensures
        lo <= r <= hi,
        lo <= n <= hi ==> r == n,
        n < lo ==> r == lo,
        n > hi ==> r == hi,
{
}

} // verus!
