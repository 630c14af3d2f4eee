//! What a video's own header says: whose header is read when, and which
//! answer is kept.
use vstd::prelude::*;

use crate::job::{Job, JobState, Media, Mismatch};
use crate::text::{add_text, glue, glue3, join, joined, same};

verus! {

/// How often a header is read at the fast pace.
pub const MEDIA_FAST_TRIES: u32 = 12;

/// The pace after that, in nanoseconds.
pub const MEDIA_SLOW: u64 = 30_000_000_000;

/// For how long a finished job waits for its last reading, in nanoseconds.
pub const MEDIA_FINAL_WINDOW: u64 = 1_800_000_000_000;

/// The name that a header is held against: what an identity oracle found,
/// where one answered, or else the name of the post.
pub fn media_claim_name(j: &Job) -> (r: String)
    ensures
        r@ == (if j.identity_name@.len() == 0 {
            j.name@
        } else {
            j.identity_name@
        }),
{
    if j.identity_name.as_str().is_empty() {
        j.name.as_str().to_owned()
    } else {
        j.identity_name.as_str().to_owned()
    }
}

/// Whether the facts of a job will not change any more.
pub open spec fn is_settled(j: Job) -> bool {
    !j.media_rejudge && j.media is Some && j.media->0.complete && j.media->0.any
}

/// Whether the facts of a job will not change any more: everything was read,
/// and they need not be judged again.
pub fn media_settled(j: &Job) -> (r: bool)
    ensures
        r == is_settled(*j),
{
    !j.media_rejudge && match &j.media {
        Some(m) => m.complete && m.any,
        None => false,
    }
}

/// What facts say.
pub open spec fn facts_view(m: Media) -> (bool, bool, Seq<char>, Seq<(Seq<char>, Seq<char>)>) {
    (m.complete, m.any, m.facts@, mismatches(m.mismatch@))
}

/// What is contradicted, and by what.
pub open spec fn mismatches(l: Seq<Mismatch>) -> Seq<(Seq<char>, Seq<char>)> {
    l.map_values(|m: Mismatch| (m.claimed@, m.actual@))
}

fn same_mismatches(a: &Vec<Mismatch>, b: &Vec<Mismatch>) -> (r: bool)
    ensures
        r == (mismatches(a@) == mismatches(b@)),
{
    let ghost x = mismatches(a@);
    let ghost y = mismatches(b@);
    if a.len() != b.len() {
        assert(x.len() != y.len());
        return false;
    }
    let mut i: usize = 0;
    while i < a.len()
        invariant
            i <= a@.len(),
            a@.len() == b@.len(),
            x == mismatches(a@),
            y == mismatches(b@),
            forall|k: int| 0 <= k < i ==> x[k] == y[k],
        decreases a@.len() - i,
    {
        assert(x[i as int] == (a@[i as int].claimed@, a@[i as int].actual@));
        assert(y[i as int] == (b@[i as int].claimed@, b@[i as int].actual@));
        if !same(a[i].claimed.as_str(), b[i].claimed.as_str()) || !same(
            a[i].actual.as_str(),
            b[i].actual.as_str(),
        ) {
            return false;
        }
        i = i + 1;
    }
    assert(x =~= y);
    true
}

fn same_facts(a: &Media, b: &Media) -> (r: bool)
    ensures
        r == (facts_view(*a) == facts_view(*b)),
{
    a.complete == b.complete && a.any == b.any && same(a.facts.as_str(), b.facts.as_str())
        && same_mismatches(&a.mismatch, &b.mismatch)
}

/// Whether facts take the place of those a job has: not where they say
/// nothing, and not where they are the same.
pub open spec fn is_news(j: Job, facts: Media) -> bool {
    match j.media {
        Some(m) => facts.any && facts_view(m) != facts_view(facts),
        None => true,
    }
}

/// Keeps what was read of a job, and says whether anything changed. A reading
/// that says nothing never takes the place of one that said something.
pub fn latch_media(job: &mut Job, facts: Media) -> (r: bool)
    ensures
        r == is_news(*old(job), facts),
        *final(job) == (if r {
            Job { media: Some(facts), ..*old(job) }
        } else {
            *old(job)
        }),
{
    match &job.media {
        Some(m) => {
            if !facts.any || same_facts(m, &facts) {
                return false;
            }
        },
        None => {},
    }
    job.media = Some(facts);
    true
}

/// What is logged of a contradiction.
pub open spec fn contradiction(m: (Seq<char>, Seq<char>)) -> Seq<char> {
    m.0 + " claimed, "@ + m.1 + " found"@
}

/// What is logged of a file that contradicts its name.
pub fn contradictions(facts: &Media) -> (r: String)
    ensures
        r@ == joined(
            mismatches(facts.mismatch@).map_values(
                |m: (Seq<char>, Seq<char>)| contradiction(m),
            ),
            "; "@,
        ),
{
    let ghost all = mismatches(facts.mismatch@).map_values(
        |m: (Seq<char>, Seq<char>)| contradiction(m),
    );
    let mut list: Vec<String> = Vec::new();
    let mut i: usize = 0;
    assert(list.deep_view() =~= all.take(0));
    while i < facts.mismatch.len()
        invariant
            i <= facts.mismatch@.len(),
            all == mismatches(facts.mismatch@).map_values(
                |m: (Seq<char>, Seq<char>)| contradiction(m),
            ),
            list.deep_view() == all.take(i as int),
        decreases facts.mismatch@.len() - i,
    {
        let m: &Mismatch = &facts.mismatch[i];
        let a: String = glue3(m.claimed.as_str(), " claimed, ", m.actual.as_str());
        let b: String = glue(a.as_str(), " found");
        add_text(&mut list, b.as_str());
        assert(all.take(i + 1) =~= all.take(i as int).push(b@));
        i = i + 1;
    }
    assert(all.take(all.len() as int) =~= all);
    join(&list, "; ")
}

/// A finished job that waits for its last reading.
#[derive(Debug)]
pub struct Final {
    pub id: String,
    /// Since when, in nanoseconds.
    pub at: u64,
}

/// Which job is read, and which wait for their last reading.
pub struct MediaProber {
    pub watching: Option<String>,
    pub tries: u32,
    /// When the next reading is due.
    pub due: u64,
    pub finals: Vec<Final>,
}

/// Those that wait, as ids and times.
pub open spec fn finals_view(l: Seq<Final>) -> Seq<(Seq<char>, u64)> {
    l.map_values(|f: Final| (f.id@, f.at))
}

/// Whether a job waits for its last reading.
pub open spec fn waits(l: Seq<(Seq<char>, u64)>, id: Seq<char>) -> bool {
    exists|i: int| 0 <= i < l.len() && (#[trigger] l[i]).0 == id
}

/// The first job with an id.
pub open spec fn job_with(jobs: Seq<Job>, id: Seq<char>) -> Option<Job>
    decreases jobs.len(),
{
    if jobs.len() == 0 {
        None
    } else if jobs[0].nzo_id@ == id {
        Some(jobs[0])
    } else {
        job_with(jobs.skip(1), id)
    }
}

/// The first job with an id.
pub fn find_job<'a>(jobs: &'a Vec<Job>, id: &str) -> (r: Option<&'a Job>)
    ensures
        match r {
            Some(j) => job_with(jobs@, id@) == Some(*j),
            None => job_with(jobs@, id@) is None,
        },
{
    let mut i: usize = 0;
    assert(jobs@.skip(0) =~= jobs@);
    while i < jobs.len()
        invariant
            i <= jobs@.len(),
            job_with(jobs@, id@) == job_with(jobs@.skip(i as int), id@),
        decreases jobs@.len() - i,
    {
        assert(jobs@.skip(i as int)[0] == jobs@[i as int]);
        if same(jobs[i].nzo_id.as_str(), id) {
            return Some(&jobs[i]);
        }
        assert(jobs@.skip(i as int).skip(1) =~= jobs@.skip(i + 1));
        i = i + 1;
    }
    None
}

/// Whether the stream's job is still being fetched. It is left in place after
/// that, so the queue has to say.
pub fn is_live(queue: &Vec<Job>, id: &str) -> (r: bool)
    ensures
        r == (job_with(queue@, id@) is Some && job_with(queue@, id@)->0.state
            == JobState::Downloading),
{
    match find_job(queue, id) {
        Some(j) => j.state == JobState::Downloading,
        None => false,
    }
}

/// Whether a waiting job's payload can be read now: it has left the queue, is
/// unpacked and moved, and its facts are not settled.
pub open spec fn can_read(history: Seq<Job>, id: Seq<char>) -> bool {
    match job_with(history, id) {
        Some(j) => !j.finalizing && !is_settled(j),
        None => false,
    }
}

/// Whether `r` is the first of those that wait that can be read now.
pub open spec fn is_first_ready(finals: Seq<Final>, history: Seq<Job>, r: Option<usize>) -> bool {
    match r {
        Some(i) => i < finals.len() && can_read(history, finals[i as int].id@) && forall|k: int|
            0 <= k < i ==> !can_read(history, (#[trigger] finals[k]).id@),
        None => forall|k: int|
            0 <= k < finals.len() ==> !can_read(history, (#[trigger] finals[k]).id@),
    }
}

/// Whether a job has to go on waiting when none can be read: its facts are
/// not settled, and it has not failed.
pub open spec fn must_wait(history: Seq<Job>, id: Seq<char>) -> bool {
    match job_with(history, id) {
        Some(j) => !is_settled(j) && j.state != JobState::Failed,
        None => true,
    }
}

/// Those that go on waiting.
pub open spec fn still_waiting(
    l: Seq<(Seq<char>, u64)>,
    history: Seq<Job>,
) -> Seq<(Seq<char>, u64)>
    decreases l.len(),
{
    if l.len() == 0 {
        Seq::empty()
    } else if must_wait(history, l.last().0) {
        still_waiting(l.drop_last(), history).push(l.last())
    } else {
        still_waiting(l.drop_last(), history)
    }
}

/// Those that have not waited for too long.
pub open spec fn not_expired(l: Seq<(Seq<char>, u64)>, now: u64) -> Seq<(Seq<char>, u64)>
    decreases l.len(),
{
    if l.len() == 0 {
        Seq::empty()
    } else if now <= l.last().1 || now - l.last().1 < MEDIA_FINAL_WINDOW {
        not_expired(l.drop_last(), now).push(l.last())
    } else {
        not_expired(l.drop_last(), now)
    }
}

impl MediaProber {
    /// Nothing watched yet.
    pub fn new(now: u64) -> (r: MediaProber)
        ensures
            r.watching is None,
            r.tries == 0,
            r.due == now,
            r.finals@.len() == 0,
    {
        MediaProber { watching: None, tries: 0, due: now, finals: Vec::new() }
    }

    /// Follows the job that is being fetched. One that was followed before is
    /// owed a last reading.
    pub fn follow(&mut self, live: Option<&str>, now: u64)
        ensures
            ({
                let id = match live {
                    Some(s) => Some(s@),
                    None => None,
                };
                let was = old(self).watching.deep_view();
                &&& final(self).watching.deep_view() == id
                &&& finals_view(final(self).finals@) == if was is Some && was != id {
                    finals_view(old(self).finals@).push((was->0, now))
                } else {
                    finals_view(old(self).finals@)
                }
                &&& if id is Some && was != id {
                    final(self).tries == 0 && final(self).due == now
                } else {
                    final(self).tries == old(self).tries && final(self).due == old(self).due
                }
            }),
    {
        let same_job: bool = match (&self.watching, live) {
            (Some(a), Some(b)) => same(a.as_str(), b),
            (None, None) => true,
            _ => false,
        };
        if same_job {
            return;
        }
        match self.watching.take() {
            Some(prev) => {
                let ghost old_finals = self.finals@;
                self.finals.push(Final { id: prev, at: now });
                assert(finals_view(self.finals@) =~= finals_view(old_finals).push((prev@, now)));
            },
            None => {},
        }
        match live {
            Some(id) => {
                self.watching = Some(id.to_owned());
                self.tries = 0;
                self.due = now;
            },
            None => {},
        }
    }

    /// Whether the followed job's header is read now: while its facts are not
    /// settled, every tick at first, and rarely after that.
    pub fn ask(&mut self, settled: bool, now: u64, tick: u64) -> (r: bool)
        requires
            now + tick <= u64::MAX,
            now + MEDIA_SLOW <= u64::MAX,
            old(self).tries < u32::MAX,
        ensures
            final(self).watching == old(self).watching,
            final(self).finals == old(self).finals,
            r == (!settled && now >= old(self).due),
            if r {
                &&& final(self).tries == old(self).tries + 1
                &&& final(self).due == now + if old(self).tries + 1 < MEDIA_FAST_TRIES {
                    tick
                } else {
                    MEDIA_SLOW
                }
            } else {
                final(self).tries == old(self).tries && final(self).due == old(self).due
            },
    {
        if settled || now < self.due {
            return false;
        }
        self.tries = self.tries + 1;
        self.due = now + if self.tries < MEDIA_FAST_TRIES {
            tick
        } else {
            MEDIA_SLOW
        };
        true
    }

    /// Has a job wait for another reading, unless it waits already.
    pub fn readmit(&mut self, id: &str, now: u64)
        ensures
            final(self).watching == old(self).watching,
            final(self).tries == old(self).tries,
            final(self).due == old(self).due,
            finals_view(final(self).finals@) == if waits(finals_view(old(self).finals@), id@) {
                finals_view(old(self).finals@)
            } else {
                finals_view(old(self).finals@).push((id@, now))
            },
    {
        let ghost l = finals_view(self.finals@);
        let mut i: usize = 0;
        while i < self.finals.len()
            invariant
                i <= self.finals@.len(),
                *self == *old(self),
                l == finals_view(self.finals@),
                forall|k: int| 0 <= k < i ==> (#[trigger] l[k]).0 != id@,
            decreases self.finals@.len() - i,
        {
            assert(l[i as int] == (self.finals@[i as int].id@, self.finals@[i as int].at));
            if same(self.finals[i].id.as_str(), id) {
                return;
            }
            i = i + 1;
        }
        self.finals.push(Final { id: id.to_owned(), at: now });
        assert(finals_view(self.finals@) =~= l.push((id@, now)));
    }

    fn retain(&mut self, keep: &Vec<bool>)
        requires
            keep@.len() == old(self).finals@.len(),
        ensures
            final(self).watching == old(self).watching,
            final(self).tries == old(self).tries,
            final(self).due == old(self).due,
            finals_view(final(self).finals@) == picked_out(
                finals_view(old(self).finals@),
                keep@,
            ),
    {
        let mut out: Vec<Final> = Vec::new();
        let ghost l = finals_view(self.finals@);
        let mut i: usize = 0;
        assert(finals_view(out@) =~= picked_out(l.take(0), keep@.take(0)));
        while i < self.finals.len()
            invariant
                i <= self.finals@.len(),
                self.finals == old(self).finals,
                self.watching == old(self).watching,
                self.tries == old(self).tries,
                self.due == old(self).due,
                l == finals_view(self.finals@),
                keep@.len() == self.finals@.len(),
                finals_view(out@) == picked_out(l.take(i as int), keep@.take(i as int)),
            decreases self.finals@.len() - i,
        {
            let f: &Final = &self.finals[i];
            proof {
                assert(l.take(i + 1).drop_last() =~= l.take(i as int));
                assert(keep@.take(i + 1).drop_last() =~= keep@.take(i as int));
                assert(l.take(i + 1).last() == (f.id@, f.at));
                assert(keep@.take(i + 1).last() == keep@[i as int]);
            }
            if keep[i] {
                let ghost was = out@;
                out.push(Final { id: f.id.as_str().to_owned(), at: f.at });
                assert(finals_view(out@) =~= finals_view(was).push((f.id@, f.at)));
            }
            i = i + 1;
        }
        proof {
            assert(l.take(l.len() as int) =~= l);
            assert(keep@.take(l.len() as int) =~= keep@);
        }
        self.finals = out;
    }

    /// Forgets those that have waited for too long.
    pub fn expire(&mut self, now: u64)
        ensures
            final(self).watching == old(self).watching,
            final(self).tries == old(self).tries,
            final(self).due == old(self).due,
            finals_view(final(self).finals@) == not_expired(finals_view(old(self).finals@), now),
    {
        let ghost l = finals_view(self.finals@);
        let mut keep: Vec<bool> = Vec::new();
        let mut i: usize = 0;
        assert(picked_out(l.take(0), keep@) =~= not_expired(l.take(0), now));
        while i < self.finals.len()
            invariant
                i <= self.finals@.len(),
                *self == *old(self),
                l == finals_view(self.finals@),
                keep@.len() == i,
                picked_out(l.take(i as int), keep@) == not_expired(l.take(i as int), now),
            decreases self.finals@.len() - i,
        {
            let at: u64 = self.finals[i].at;
            let ghost was = keep@;
            keep.push(now <= at || now - at < MEDIA_FINAL_WINDOW);
            proof {
                assert(l.take(i + 1).drop_last() =~= l.take(i as int));
                assert(keep@.drop_last() =~= was);
                assert(l.take(i + 1).last().1 == at);
            }
            i = i + 1;
        }
        assert(l.take(l.len() as int) =~= l);
        self.retain(&keep);
    }

    /// Which of those that wait can be read now.
    pub fn ready(&self, history: &Vec<Job>) -> (r: Option<usize>)
        ensures
            is_first_ready(self.finals@, history@, r),
    {
        let mut i: usize = 0;
        while i < self.finals.len()
            invariant
                i <= self.finals@.len(),
                forall|k: int|
                    0 <= k < i ==> !can_read(history@, (#[trigger] self.finals@[k]).id@),
            decreases self.finals@.len() - i,
        {
            let ok: bool = match find_job(history, self.finals[i].id.as_str()) {
                Some(j) => !j.finalizing && !media_settled(j),
                None => false,
            };
            if ok {
                return Some(i);
            }
            i = i + 1;
        }
        None
    }

    /// Takes one out to be read for the last time.
    pub fn take(&mut self, i: usize) -> (r: String)
        requires
            i < old(self).finals@.len(),
        ensures
            r@ == old(self).finals@[i as int].id@,
            final(self).finals@ == old(self).finals@.remove(i as int),
            final(self).watching == old(self).watching,
            final(self).tries == old(self).tries,
            final(self).due == old(self).due,
    {
        let f: Final = self.finals.remove(i);
        f.id
    }

    /// Forgets those that are settled, or failed, where none can be read.
    pub fn sweep(&mut self, history: &Vec<Job>)
        ensures
            final(self).watching == old(self).watching,
            final(self).tries == old(self).tries,
            final(self).due == old(self).due,
            finals_view(final(self).finals@) == still_waiting(
                finals_view(old(self).finals@),
                history@,
            ),
    {
        let ghost l = finals_view(self.finals@);
        let mut keep: Vec<bool> = Vec::new();
        let mut i: usize = 0;
        assert(picked_out(l.take(0), keep@) =~= still_waiting(l.take(0), history@));
        while i < self.finals.len()
            invariant
                i <= self.finals@.len(),
                *self == *old(self),
                l == finals_view(self.finals@),
                keep@.len() == i,
                picked_out(l.take(i as int), keep@) == still_waiting(l.take(i as int), history@),
            decreases self.finals@.len() - i,
        {
            let wait: bool = match find_job(history, self.finals[i].id.as_str()) {
                Some(j) => !media_settled(j) && j.state != JobState::Failed,
                None => true,
            };
            let ghost was = keep@;
            keep.push(wait);
            proof {
                assert(l.take(i + 1).drop_last() =~= l.take(i as int));
                assert(keep@.drop_last() =~= was);
                assert(l.take(i + 1).last().0 == self.finals@[i as int].id@);
            }
            i = i + 1;
        }
        assert(l.take(l.len() as int) =~= l);
        self.retain(&keep);
    }
}

/// Those that are marked.
spec fn picked_out(l: Seq<(Seq<char>, u64)>, keep: Seq<bool>) -> Seq<(Seq<char>, u64)>
    decreases l.len(),
{
    if l.len() == 0 || keep.len() == 0 {
        Seq::empty()
    } else if keep.last() {
        picked_out(l.drop_last(), keep.drop_last()).push(l.last())
    } else {
        picked_out(l.drop_last(), keep.drop_last())
    }
}

/// The reading that a job waited for is the last: it need not be judged again
/// after that, whatever it reads.
pub fn last_reading(job: &mut Job)
    ensures
        *final(job) == (Job { media_rejudge: false, ..*old(job) }),
{
    job.media_rejudge = false;
}

/// Facts that say something are never lost to a reading that says nothing.
pub proof fn a_reading_never_downgrades(j: Job, facts: Media)
    requires
        j.media is Some,
        !facts.any,
    ensures
        !is_news(j, facts),
{
}

// ---- laws -----------------------------------------------------------------

/// A header is held against what an oracle found, where it found anything,
/// else against the name of the post.
pub proof fn which_name_a_header_is_held_against(j: &Job, r: String)
    requires
        call_ensures(media_claim_name, (j,), r),
    ensures
        j.identity_name@.len() > 0 ==> r@ == j.identity_name@,
        j.identity_name@.len() == 0 ==> r@ == j.name@,
{
}

/// Facts are settled exactly where all was read, something was, and they need
/// not be judged again.
pub proof fn when_facts_are_settled(j: &Job, r: bool)
    requires
        call_ensures(media_settled, (j,), r),
    ensures
        j.media_rejudge ==> !r,
        j.media is None ==> !r,
        j.media is Some && !j.media->0.complete ==> !r,
        j.media is Some && !j.media->0.any ==> !r,
        !j.media_rejudge && j.media is Some && j.media->0.complete && j.media->0.any ==> r,
{
}

/// What was read is kept where nothing was known, and where it says something
/// else than what is known; never where it says nothing, or the same.
pub proof fn which_reading_is_kept(job: &mut Job, facts: Media, r: bool)
    requires
        call_ensures(latch_media, (job, facts), r),
    ensures
        old(job).media is None ==> r,
        old(job).media is Some && !facts.any ==> !r,
        old(job).media is Some && facts.any && (old(job).media->0.complete != facts.complete
            || old(job).media->0.any != facts.any || old(job).media->0.facts@ != facts.facts@) ==> r,
        r ==> final(job).media == Some(facts),
        !r ==> *final(job) == *old(job),
        final(job).media_rejudge == old(job).media_rejudge && final(job).nzo_id == old(job).nzo_id,
{
}

/// What is logged of contradictions: each claim with what was found.
pub proof fn how_contradictions_are_logged(facts: &Media, r: String)
    requires
        call_ensures(contradictions, (facts,), r),
        facts.mismatch@.len() == 1,
    ensures
        r@ == facts.mismatch@[0].claimed@ + " claimed, "@ + facts.mismatch@[0].actual@ + " found"@,
{
    let f = |m: (Seq<char>, Seq<char>)| contradiction(m);
    let all = mismatches(facts.mismatch@).map_values(f);
    assert(all =~= seq![contradiction(mismatches(facts.mismatch@)[0])]);
}

/// The stream's job is being fetched only while the first job of that id in
/// the queue downloads.
pub proof fn when_a_stream_is_live(queue: &Vec<Job>, id: &str, r: bool)
    requires
        call_ensures(is_live, (queue, id), r),
    ensures
        queue@.len() == 0 ==> !r,
        queue@.len() > 0 && queue@[0].nzo_id@ == id@ ==> (r <==> queue@[0].state
            == JobState::Downloading),
{
}

/// The job of an id is the first that has it.
pub proof fn the_first_job_of_an_id_counts(j: Job, rest: Seq<Job>, id: Seq<char>)
    ensures
        job_with(seq![j] + rest, j.nzo_id@) == Some(j),
        id != j.nzo_id@ ==> job_with(seq![j] + rest, id) == job_with(rest, id),
        job_with(Seq::empty(), id) is None,
{
    assert((seq![j] + rest).skip(1) =~= rest);
    assert((seq![j] + rest)[0] == j);
}

/// Another job that is followed starts at the fast pace, at once; the one that
/// was followed before is owed a last reading. The same job goes on as it was.
pub proof fn what_following_another_job_does(
    p: &mut MediaProber,
    live: Option<&str>,
    now: u64,
    r: (),
)
    requires
        call_ensures(MediaProber::follow, (p, live, now), r),
    ensures
        live is Some ==> final(p).watching.deep_view() == Some(live->0@),
        live is None ==> final(p).watching is None,
        live is Some && old(p).watching.deep_view() != Some(live->0@) ==> final(p).tries == 0
            && final(p).due == now,
        live is Some && old(p).watching.deep_view() == Some(live->0@) ==> final(p).tries
            == old(p).tries && final(p).due == old(p).due && finals_view(final(p).finals@)
            == finals_view(old(p).finals@),
        old(p).watching is Some && (live is None || live->0@ != old(p).watching->0@)
            ==> finals_view(final(p).finals@) == finals_view(old(p).finals@).push(
            (old(p).watching->0@, now),
        ),
        old(p).watching is None ==> finals_view(final(p).finals@) == finals_view(old(p).finals@),
{
}

/// A header is read while its facts are not settled and its time has come:
/// eleven times at the pace of the ticks, and every half minute after that.
pub proof fn how_often_a_header_is_read(
    p: &mut MediaProber,
    settled: bool,
    now: u64,
    tick: u64,
    r: bool,
)
    requires
        now + tick <= u64::MAX,
        now + 30_000_000_000 <= u64::MAX,
        old(p).tries < u32::MAX,
        call_ensures(MediaProber::ask, (p, settled, now, tick), r),
    ensures
        settled ==> !r,
        now < old(p).due ==> !r,
        !settled && now >= old(p).due ==> r,
        r ==> final(p).tries == old(p).tries + 1,
        r && old(p).tries < 11 ==> final(p).due == now + tick,
        r && old(p).tries >= 11 ==> final(p).due == now + 30_000_000_000,
        !r ==> final(p).tries == old(p).tries && final(p).due == old(p).due,
{
}

/// A job waits for a reading once.
pub proof fn a_job_waits_for_a_reading_once(p: &mut MediaProber, id: &str, now: u64, r: ())
    requires
        call_ensures(MediaProber::readmit, (p, id, now), r),
    ensures
        waits(finals_view(old(p).finals@), id@) ==> finals_view(final(p).finals@) == finals_view(
            old(p).finals@,
        ),
        !waits(finals_view(old(p).finals@), id@) ==> finals_view(final(p).finals@) == finals_view(
            old(p).finals@,
        ).push((id@, now)),
        final(p).watching == old(p).watching,
{
}

/// One more that waits: it is forgotten after half an hour and not before.
pub proof fn how_long_a_reading_is_waited_for(l: Seq<(Seq<char>, u64)>, f: (Seq<char>, u64), now: u64)
    ensures
        now < f.1 + 1_800_000_000_000 ==> not_expired(l.push(f), now) == not_expired(l, now).push(f),
        now >= f.1 + 1_800_000_000_000 ==> not_expired(l.push(f), now) == not_expired(l, now),
        not_expired(Seq::empty(), now) == Seq::<(Seq<char>, u64)>::empty(),
{
    assert(l.push(f).drop_last() =~= l);
}

/// Where none can be read, one goes on waiting unless it has failed or its
/// facts are settled; one that has not left the queue goes on waiting.
pub proof fn which_readings_are_still_waited_for(
    l: Seq<(Seq<char>, u64)>,
    f: (Seq<char>, u64),
    history: Seq<Job>,
)
    ensures
        job_with(history, f.0) is None ==> still_waiting(l.push(f), history) == still_waiting(
            l,
            history,
        ).push(f),
        job_with(history, f.0) matches Some(j) ==> (j.state == JobState::Failed ==> still_waiting(
            l.push(f),
            history,
        ) == still_waiting(l, history)),
        job_with(history, f.0) matches Some(j) ==> (j.state != JobState::Failed && j.media is None
            ==> still_waiting(l.push(f), history) == still_waiting(l, history).push(f)),
        job_with(history, f.0) matches Some(j) ==> (!j.media_rejudge && j.media is Some
            && j.media->0.complete && j.media->0.any ==> still_waiting(l.push(f), history)
            == still_waiting(l, history)),
        still_waiting(Seq::empty(), history) == Seq::<(Seq<char>, u64)>::empty(),
{
    assert(l.push(f).drop_last() =~= l);
}

/// The one that is read for the last time has left the queue, is unpacked and
/// moved, and is not settled; none that could be read waits before it.
pub proof fn which_waiting_job_is_read(
    p: &MediaProber,
    history: &Vec<Job>,
    r: Option<usize>,
    k: int,
)
    requires
        call_ensures(MediaProber::ready, (p, history), r),
        0 <= k < p.finals@.len(),
    ensures
        r is Some ==> r->0 < p.finals@.len() && job_with(history@, p.finals@[r->0 as int].id@)
            is Some && !job_with(history@, p.finals@[r->0 as int].id@)->0.finalizing && !is_settled(
            job_with(history@, p.finals@[r->0 as int].id@)->0,
        ),
        job_with(history@, p.finals@[k].id@) is Some && !job_with(
            history@,
            p.finals@[k].id@,
        )->0.finalizing && job_with(history@, p.finals@[k].id@)->0.media is None ==> r is Some
            && r->0 <= k,
{
    let f = p.finals@[k];
    if r is None || r->0 > k {
        assert(!can_read(history@, p.finals@[k].id@));
    }
}

/// The last reading is not judged again, and leaves all else as it was.
pub proof fn a_last_reading_is_the_last(job: &mut Job, r: ())
    requires
        call_ensures(last_reading, (job,), r),
    ensures
        !final(job).media_rejudge,
        final(job).media == old(job).media && final(job).state == old(job).state,
{
}

} // verus!
