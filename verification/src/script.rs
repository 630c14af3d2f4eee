//! A script's error output: the last of it, in bounded memory, and when a
//! script has run long enough.
use crate::text::{decimal, glue, glue3, to_decimal};
use std::collections::VecDeque;
use vstd::prelude::*;

verus! {

/// How much of a script's error output is worth keeping.
pub const SCRIPT_ERR_TAIL: usize = 8192;

/// The last [`SCRIPT_ERR_TAIL`] bytes written to it, and how many came before
/// them.
pub struct BoundedTail {
    pub buf: VecDeque<u8>,
    pub dropped: usize,
}

/// The last bytes of `s` that are kept.
pub open spec fn kept_tail(s: Seq<u8>) -> Seq<u8> {
    if s.len() > SCRIPT_ERR_TAIL {
        s.skip(s.len() - SCRIPT_ERR_TAIL)
    } else {
        s
    }
}

/// How many bytes of `s` are not kept.
pub open spec fn lost(s: Seq<u8>) -> int {
    if s.len() > SCRIPT_ERR_TAIL {
        s.len() - SCRIPT_ERR_TAIL
    } else {
        0
    }
}

/// The text that a run of bytes reads as, where it need not be text.
pub uninterp spec fn lossy_text(bytes: Seq<u8>) -> Seq<char>;

/// `String::from_utf8_lossy`: the bytes as text, with a replacement character
/// for what is no UTF-8. It depends on the bytes alone.
#[verifier::external_body]
fn read_lossy(bytes: &Vec<u8>) -> (r: String)
    ensures
        r@ == lossy_text(bytes@),
{
    String::from_utf8_lossy(bytes).into_owned()
}

/// The kept bytes as text, after a note of how many are missing.
pub open spec fn tail_shown(text: Seq<char>, dropped: int) -> Seq<char> {
    if dropped == 0 {
        text
    } else {
        "[…"@ + decimal(dropped) + " earlier bytes dropped…]"@ + text
    }
}

/// The kept text, after a note of how many bytes are missing.
pub fn show_tail(text: String, dropped: usize) -> (r: String)
    ensures
        r@ == tail_shown(text@, dropped as int),
{
    if dropped == 0 {
        text
    } else {
        glue(
            glue3("[…", to_decimal(dropped as u64).as_str(), " earlier bytes dropped…]").as_str(),
            text.as_str(),
        )
    }
}

/// What a tail has kept, and how many bytes came before that.
pub ghost struct TailState {
    pub kept: Seq<u8>,
    pub dropped: int,
}

/// A tail to which nothing was written.
pub open spec fn fresh_tail() -> TailState {
    TailState { kept: Seq::empty(), dropped: 0 }
}

/// What a tail comes to when more is written to it.
pub open spec fn after_push(t: TailState, bytes: Seq<u8>) -> TailState {
    TailState {
        kept: kept_tail(t.kept + bytes),
        dropped: t.dropped + lost(t.kept + bytes),
    }
}

/// What a tail comes to when pieces are written to it one after the other.
pub open spec fn after_pushes(t: TailState, pieces: Seq<Seq<u8>>) -> TailState
    decreases pieces.len(),
{
    if pieces.len() == 0 {
        t
    } else {
        after_push(after_pushes(t, pieces.drop_last()), pieces.last())
    }
}

/// Pieces one after the other.
pub open spec fn written(pieces: Seq<Seq<u8>>) -> Seq<u8>
    decreases pieces.len(),
{
    if pieces.len() == 0 {
        Seq::empty()
    } else {
        written(pieces.drop_last()) + pieces.last()
    }
}

impl BoundedTail {
    /// What it has kept, and how many bytes came before that.
    pub open spec fn state(self) -> TailState {
        TailState { kept: self.buf@, dropped: self.dropped as int }
    }

    /// Whether it is in that state.
    pub open spec fn shows(self, t: TailState) -> bool {
        self.buf@ == t.kept && self.dropped == t.dropped
    }

    /// An empty tail.
    pub fn new() -> (r: BoundedTail)
        ensures
            r.shows(fresh_tail()),
    {
        BoundedTail { buf: VecDeque::new(), dropped: 0 }
    }

    /// Takes more output.
    pub fn push(&mut self, bytes: &[u8])
        requires
            old(self).dropped + lost(old(self).buf@ + bytes@) <= usize::MAX,
        ensures
            final(self).shows(after_push(old(self).state(), bytes@)),
    {
        let ghost all = self.buf@ + bytes@;
        let ghost had = self.buf@;
        let ghost lost_before = self.dropped;
        let mut i: usize = 0;
        assert(had + bytes@.take(0) =~= had);
        while i < bytes.len()
            invariant
                i <= bytes@.len(),
                self.buf@ == had + bytes@.take(i as int),
                self.dropped == lost_before,
            decreases bytes@.len() - i,
        {
            self.buf.push_back(bytes[i]);
            i = i + 1;
            assert(self.buf@ =~= had + bytes@.take(i as int));
        }
        assert(bytes@.take(bytes@.len() as int) =~= bytes@);
        assert(all.skip(0) =~= all);
        while self.buf.len() > SCRIPT_ERR_TAIL
            invariant
                lost_before <= self.dropped,
                lost_before + lost(all) <= usize::MAX,
                self.dropped - lost_before <= all.len(),
                self.buf@ == all.skip(self.dropped - lost_before),
                self.dropped > lost_before ==> self.buf@.len() >= SCRIPT_ERR_TAIL,
            decreases self.buf@.len(),
        {
            let _ = self.buf.pop_front();
            self.dropped = self.dropped + 1;
            assert(self.buf@ =~= all.skip(self.dropped - lost_before));
        }
    }

    /// The kept output as text.
    pub fn tail_text(&self) -> (r: String)
        ensures
            r@ == tail_shown(lossy_text(self.buf@), self.dropped as int),
    {
        let mut bytes: Vec<u8> = Vec::new();
        let mut i: usize = 0;
        while i < self.buf.len()
            invariant
                i <= self.buf@.len(),
                bytes@ == self.buf@.take(i as int),
            decreases self.buf@.len() - i,
        {
            bytes.push(self.buf[i]);
            i = i + 1;
            assert(bytes@ =~= self.buf@.take(i as int));
        }
        assert(self.buf@.take(self.buf@.len() as int) =~= self.buf@);
        show_tail(read_lossy(&bytes), self.dropped)
    }
}

/// Takes what one read brought (nothing where it failed) into the tail, and
/// says whether to read on: a failed read or one without bytes ends it.
pub fn drain_into(read: Option<Vec<u8>>, tail: &mut BoundedTail) -> (r: bool)
    requires
        read matches Some(b) ==> old(tail).dropped + lost(old(tail).buf@ + b@) <= usize::MAX,
    ensures
        r == (read matches Some(b) && b@.len() > 0),
        match read {
            Some(b) if b@.len() > 0 => final(tail).shows(after_push(old(tail).state(), b@)),
            _ => *final(tail) == *old(tail),
        },
{
    match read {
        Some(b) => {
            if b.len() == 0 {
                return false;
            }
            tail.push(b.as_slice());
            true
        },
        None => false,
    }
}

/// Whether to read on where the output is thrown away: as long as reads bring
/// bytes.
pub fn drain_to_nowhere(read: Option<usize>) -> (r: bool)
    ensures
        r == (read matches Some(n) && n > 0),
{
    match read {
        Some(n) => n > 0,
        None => false,
    }
}

/// What to do about a running script.
#[derive(Clone, Copy, PartialEq, Eq, Structural, Debug)]
pub enum ScriptStep {
    /// It has ended: take its status.
    Ended,
    /// Its time is up: kill it and everything it started.
    Kill,
    /// Look again in a little while.
    Wait,
}

/// What to do about a running script, `elapsed_ns` after its start. With a
/// limit of 0 seconds it may run forever.
pub fn script_step(ended: bool, limit_secs: u64, elapsed_ns: u128) -> (r: ScriptStep)
    ensures
        r == (if ended {
            ScriptStep::Ended
        } else if limit_secs > 0 && elapsed_ns >= limit_secs * 1_000_000_000 {
            ScriptStep::Kill
        } else {
            ScriptStep::Wait
        }),
{
    if ended {
        ScriptStep::Ended
    } else if limit_secs > 0 && elapsed_ns >= (limit_secs as u128) * 1_000_000_000 {
        ScriptStep::Kill
    } else {
        ScriptStep::Wait
    }
}

/// How the output was cut into reads does not show: taking two pieces one
/// after the other keeps and drops what taking them at once does.
pub proof fn a_tail_does_not_show_how_it_was_cut(had: Seq<u8>, a: Seq<u8>, b: Seq<u8>)
    ensures
        kept_tail(kept_tail(had + a) + b) == kept_tail(had + (a + b)),
        lost(had + a) + lost(kept_tail(had + a) + b) == lost(had + (a + b)),
{
    assert(had + (a + b) =~= (had + a) + b);
    assert(kept_tail(kept_tail(had + a) + b) =~= kept_tail((had + a) + b));
}

/// However the output was cut into pieces, what is kept is the last of it in
/// order, no more than the bound, and the count is of what came before that:
/// none where nothing was lost.
pub proof fn a_tail_keeps_the_last_of_all_that_was_written(pieces: Seq<Seq<u8>>)
    ensures
        ({
            let all = written(pieces);
            let t = after_pushes(fresh_tail(), pieces);
            &&& t.kept == kept_tail(all)
            &&& t.dropped == all.len() - t.kept.len()
            &&& t.kept.len() <= SCRIPT_ERR_TAIL
            &&& t.dropped == 0 <==> t.kept == all
        }),
    decreases pieces.len(),
{
    if pieces.len() > 0 {
        let before = pieces.drop_last();
        a_tail_keeps_the_last_of_all_that_was_written(before);
        let had = written(before);
        a_tail_does_not_show_how_it_was_cut(Seq::empty(), had, pieces.last());
        assert(Seq::<u8>::empty() + had =~= had);
        assert(Seq::<u8>::empty() + (had + pieces.last()) =~= had + pieces.last());
    }
}

/// Two ways to cut the same output leave the same tail.
pub proof fn a_tail_depends_on_the_output_alone(a: Seq<Seq<u8>>, b: Seq<Seq<u8>>)
    requires
        written(a) == written(b),
    ensures
        after_pushes(fresh_tail(), a) == after_pushes(fresh_tail(), b),
{
    a_tail_keeps_the_last_of_all_that_was_written(a);
    a_tail_keeps_the_last_of_all_that_was_written(b);
}

/// However much is written, no more than the bound is kept.
pub proof fn a_tail_is_bounded(s: Seq<u8>)
    ensures
        kept_tail(s).len() <= SCRIPT_ERR_TAIL,
        kept_tail(s).len() + lost(s) == s.len(),
{
}

// ---- laws -----------------------------------------------------------------

/// The last eight kibibytes are kept, byte for byte and in order.
pub proof fn which_bytes_are_kept(s: Seq<u8>, i: int)
    requires
        0 <= i < kept_tail(s).len(),
    ensures
        s.len() <= 8_192 ==> kept_tail(s) == s && lost(s) == 0,
        s.len() > 8_192 ==> kept_tail(s).len() == 8_192 && lost(s) == s.len() - 8_192,
        kept_tail(s)[i] == s[s.len() - kept_tail(s).len() + i],
{
}

/// One more piece of output: the last of all of it stays, and each byte that
/// goes is counted.
pub proof fn a_tail_takes_more(t: &mut BoundedTail, bytes: &[u8], r: (), i: int)
    requires
        old(t).dropped + old(t).buf@.len() + bytes@.len() <= usize::MAX,
        call_ensures(BoundedTail::push, (t, bytes), r),
    ensures
        old(t).buf@.len() + bytes@.len() <= 8_192 ==> final(t).buf@ == old(t).buf@ + bytes@
            && final(t).dropped == old(t).dropped,
        old(t).buf@.len() + bytes@.len() > 8_192 ==> final(t).buf@.len() == 8_192,
        final(t).dropped - old(t).dropped == old(t).buf@.len() + bytes@.len() - final(t).buf@.len(),
        0 <= i < final(t).buf@.len() ==> final(t).buf@[i] == (old(t).buf@ + bytes@)[final(t).dropped - old(t).dropped + i],
{
}

/// The text says how much is missing exactly where something is.
pub proof fn when_a_tail_says_what_is_missing(text: String, dropped: usize, r: String)
    requires
        call_ensures(show_tail, (text, dropped), r),
    ensures
        dropped == 0 ==> r@ == text@,
        dropped > 0 ==> r@ == "[…"@ + decimal(dropped as int) + " earlier bytes dropped…]"@ + text@,
{
}

/// Output is read as long as reads bring bytes, and what they bring is taken.
pub proof fn how_long_output_is_read(read: Option<Vec<u8>>, t: &mut BoundedTail, r: bool)
    requires
        read matches Some(b) ==> old(t).dropped + old(t).buf@.len() + b@.len() <= usize::MAX,
        call_ensures(drain_into, (read, t), r),
    ensures
        read is None ==> !r && *final(t) == *old(t),
        read matches Some(b) ==> (r <==> b@.len() > 0),
        read matches Some(b) ==> (b@.len() + old(t).buf@.len() <= 8_192 ==> final(t).buf@ == old(t).buf@ + b@),
{
    if read is Some && read->0@.len() == 0 {
        assert(old(t).buf@ + read->0@ =~= old(t).buf@);
    }
}

/// Output that is thrown away is read for as long.
pub proof fn how_long_unwanted_output_is_read(read: Option<usize>, r: bool)
    requires
        call_ensures(drain_to_nowhere, (read,), r),
    ensures
        r ==> read is Some,
        read matches Some(n) ==> (r <==> n != 0),
{
}

/// A script that has ended is never killed, one without a limit is never
/// killed, and any other is killed once it has run for its seconds.
pub proof fn when_a_script_is_killed(
    ended: bool,
    limit_secs: u64,
    elapsed_ns: u128,
    r: ScriptStep,
)
    requires
        call_ensures(script_step, (ended, limit_secs, elapsed_ns), r),
    ensures
        ended <==> r == ScriptStep::Ended,
        limit_secs == 0 ==> r != ScriptStep::Kill,
        !ended && limit_secs > 0 ==> (r == ScriptStep::Kill <==> elapsed_ns / 1_000_000_000
            >= limit_secs),
{
}

} // verus!
