//! The weekly schedule: which text counts, and which minutes a tick has to
//! catch up on.
use vstd::prelude::*;

verus! {

/// The minutes of a week.
pub const WEEK_MINUTES: u32 = 10_080;

/// How far time may have moved on for its minutes to be caught up on.
pub const CATCH_UP_MINUTES: u32 = 480;

/// How many minutes `now` is ahead of `last` around the week.
pub open spec fn ahead_by(last: u32, now: u32) -> int {
    (now + WEEK_MINUTES - last) % (WEEK_MINUTES as int)
}

/// The minutes since `last`, in order, up to `now`. Nothing where time was
/// set back, or far ahead: then the schedule starts from `now`.
pub fn minutes_passed(last: u32, now: u32) -> (r: Vec<u32>)
    requires
        last < WEEK_MINUTES,
        now < WEEK_MINUTES,
    ensures
        ({
            let n = ahead_by(last, now);
            if n > CATCH_UP_MINUTES {
                r@.len() == 0
            } else {
                &&& r@.len() == n
                &&& forall|i: int|
                    0 <= i < n ==> #[trigger] r@[i] == (last + 1 + i) % (WEEK_MINUTES as int)
            }
        }),
{
    let forward: u32 = (now + WEEK_MINUTES - last) % WEEK_MINUTES;
    let mut r: Vec<u32> = Vec::new();
    if forward > CATCH_UP_MINUTES {
        return r;
    }
    let mut i: u32 = 0;
    while i < forward
        invariant
            i <= forward <= CATCH_UP_MINUTES,
            last < WEEK_MINUTES,
            r@.len() == i,
            forall|j: int|
                0 <= j < i ==> #[trigger] r@[j] == (last + 1 + j) % (WEEK_MINUTES as int),
        decreases forward - i,
    {
        r.push((last + 1 + i) % WEEK_MINUTES);
        i = i + 1;
    }
    r
}

/// What is caught up on ends at `now`: no minute is run twice by two ticks in
/// a row.
pub proof fn catching_up_ends_now(last: u32, now: u32)
    requires
        last < WEEK_MINUTES,
        now < WEEK_MINUTES,
        0 < ahead_by(last, now),
    ensures
        (last + ahead_by(last, now)) % (WEEK_MINUTES as int) == now,
{
}

/// Which schedule counts at a start.
pub enum ScheduleText {
    Nothing,
    Text(String),
    /// Read it from the file of the launch.
    FromFile,
}

/// Which schedule counts: a saved one, of which an empty one means none was
/// wanted, before that of the launch.
pub fn pick_schedule(saved: Option<String>, has_file: bool) -> (r: ScheduleText)
    ensures
        match saved {
            Some(t) => if t@.len() == 0 {
                r is Nothing
            } else {
                r matches ScheduleText::Text(s) && s == t
            },
            None => if has_file {
                r is FromFile
            } else {
                r is Nothing
            },
        },
{
    match saved {
        Some(t) => if t.as_str().is_empty() {
            ScheduleText::Nothing
        } else {
            ScheduleText::Text(t)
        },
        None => if has_file {
            ScheduleText::FromFile
        } else {
            ScheduleText::Nothing
        },
    }
}

/// What is caught up on are the minutes after the last, up to now, in order
/// and without a gap, also over the end of the week; nothing where that would
/// be more than eight hours.
pub proof fn which_minutes_are_caught_up_on(last: u32, now: u32, r: Vec<u32>)
    requires
        last < 10_080,
        now < 10_080,
        call_ensures(minutes_passed, (last, now), r),
    ensures
        last <= now <= last + 480 ==> r@.len() == now - last && forall|i: int|
            0 <= i < r@.len() ==> #[trigger] r@[i] == last + 1 + i,
        now > last + 480 ==> r@.len() == 0,
        now < last && now + 10_080 - last > 480 ==> r@.len() == 0,
        now < last && now + 10_080 - last <= 480 ==> r@.len() == now + 10_080 - last && r@.last()
            == now,
        r@.len() > 0 ==> r@.last() == now,
{
    let n = ahead_by(last, now);
    if n > 0 && n <= 480 {
        catching_up_ends_now(last, now);
        assert(r@[n - 1] == (last + 1 + (n - 1)) % 10_080);
    }
}

/// A saved schedule counts before that of the launch; an empty one means that
/// none is wanted.
pub proof fn which_schedule_counts(saved: Option<String>, has_file: bool, r: ScheduleText)
    requires
        call_ensures(pick_schedule, (saved, has_file), r),
    ensures
        saved is Some && saved->0@.len() > 0 ==> r == ScheduleText::Text(saved->0),
        saved is Some && saved->0@.len() == 0 ==> r is Nothing,
        saved is None && has_file ==> r is FromFile,
        saved is None && !has_file ==> r is Nothing,
{
}

} // verus!
