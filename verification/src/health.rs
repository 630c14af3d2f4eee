//! Looking at a waiting post's articles: which job is looked at, which of its
//! articles, and what becomes of the answers.
use vstd::prelude::*;

use crate::book::Book;
use crate::job::{Health, Job, JobState};
use crate::sidecar::Sidecar;
use crate::text::{add_text, glue3};

verus! {

/// What downloads now.
pub struct Running {
    /// When the active job began, in nanoseconds.
    pub started_at: Option<u64>,
    pub sidecar: Option<Sidecar>,
}

/// Whether nothing downloads. A sidecar holds connections too, also while the
/// job it ran beside is being finished.
pub fn download_idle(r: &Running) -> (b: bool)
    ensures
        b == (r.started_at is None && r.sidecar is None),
{
    r.started_at.is_none() && r.sidecar.is_none()
}

/// What is remembered of jobs that could not be looked at.
pub struct Prober {
    /// Those of which no article could be picked.
    pub unsampleable: Book<()>,
    /// Those for which no server answered, and until when they are left
    /// alone, in seconds.
    pub blind_until: Book<i64>,
}

/// Whether a job is looked at: one that waits and may start, that was never
/// looked at, or was a while ago and not too often.
pub open spec fn is_due(
    j: Job,
    unsampleable: bool,
    blind: Option<i64>,
    now: i64,
    recheck: i64,
    max_probes: u32,
) -> bool {
    &&& j.state == JobState::Queued
    &&& !j.tombstone
    &&& !j.paused
    &&& !unsampleable
    &&& blind is None || now >= blind->0
    &&& match j.health {
        None => true,
        Some(h) => h.probes < max_probes && now - h.checked_at >= recheck,
    }
}

fn ids_of(queue: &Vec<Job>) -> (r: Vec<String>)
    ensures
        r@.len() == queue@.len(),
        forall|i: int| 0 <= i < r@.len() ==> (#[trigger] r@[i])@ == queue@[i].nzo_id@,
{
    let mut r: Vec<String> = Vec::new();
    let mut i: usize = 0;
    while i < queue.len()
        invariant
            i <= queue@.len(),
            r@.len() == i,
            forall|k: int| 0 <= k < i ==> (#[trigger] r@[k])@ == queue@[k].nzo_id@,
        decreases queue@.len() - i,
    {
        r.push(queue[i].nzo_id.as_str().to_owned());
        i = i + 1;
    }
    r
}

/// Whether a job stands in the queue under an id.
pub open spec fn is_queued(queue: Seq<Job>, id: Seq<char>) -> bool {
    exists|i: int| 0 <= i < queue.len() && (#[trigger] queue[i]).nzo_id@ == id
}

/// A verdict in the place of another: what the user decided of that stays.
pub open spec fn latched(before: Option<Health>, v: Health) -> Health {
    Health { waived: before is Some && before->0.waived, ..v }
}

impl Prober {
    /// Whether no job stands twice in either table.
    pub open spec fn wf(self) -> bool {
        self.unsampleable.wf() && self.blind_until.wf()
    }

    /// Whether a job is looked at.
    pub open spec fn wants(self, j: Job, now: i64, recheck: i64, max_probes: u32) -> bool {
        is_due(
            j,
            self.unsampleable.at(j.nzo_id@) is Some,
            self.blind_until.at(j.nzo_id@),
            now,
            recheck,
            max_probes,
        )
    }

    /// Whether `r` is the first job that is looked at.
    pub open spec fn picks(
        self,
        queue: Seq<Job>,
        now: i64,
        recheck: i64,
        max_probes: u32,
        r: Option<usize>,
    ) -> bool {
        match r {
            Some(i) => i < queue.len() && self.wants(queue[i as int], now, recheck, max_probes)
                && forall|k: int|
                0 <= k < i ==> !self.wants(#[trigger] queue[k], now, recheck, max_probes),
            None => forall|k: int|
                0 <= k < queue.len() ==> !self.wants(#[trigger] queue[k], now, recheck, max_probes),
        }
    }

    /// Nothing remembered.
    pub fn new() -> (r: Prober)
        ensures
            r.wf(),
            forall|k: Seq<char>| (#[trigger] r.unsampleable.at(k)) is None,
            forall|k: Seq<char>| (#[trigger] r.blind_until.at(k)) is None,
    {
        Prober { unsampleable: Book::new(), blind_until: Book::new() }
    }

    /// Forgets what is over: jobs that are no longer queued, and those that
    /// need not be left alone any more.
    pub fn tidy(&mut self, queue: &Vec<Job>, now: i64)
        requires
            old(self).wf(),
        ensures
            final(self).wf(),
            forall|k: Seq<char>| #[trigger] final(self).unsampleable.at(k) == if is_queued(queue@, k) {
                old(self).unsampleable.at(k)
            } else {
                None
            },
            forall|k: Seq<char>| #[trigger]
                final(self).blind_until.at(k) == if old(self).blind_until.at(k) is Some && old(
                    self,
                ).blind_until.at(k)->0 > now {
                    old(self).blind_until.at(k)
                } else {
                    None
                },
    {
        self.blind_until.expire(now);
        let ids: Vec<String> = ids_of(queue);
        let _any: bool = self.unsampleable.keep_only(&ids);
        proof {
            assert forall|k: Seq<char>| true implies ids.deep_view().contains(k) == #[trigger]
                is_queued(queue@, k) by {
                if ids.deep_view().contains(k) {
                    let i = choose|i: int|
                        0 <= i < ids.deep_view().len() && ids.deep_view()[i] == k;
                    assert(ids@[i]@ == k);
                    assert(queue@[i].nzo_id@ == k);
                }
                if is_queued(queue@, k) {
                    let i = choose|i: int|
                        0 <= i < queue@.len() && (#[trigger] queue@[i]).nzo_id@ == k;
                    assert(ids@[i]@ == k);
                    assert(ids.deep_view()[i] == k);
                }
            }
        }
    }

    /// The first job that is looked at.
    pub fn pick(&self, queue: &Vec<Job>, now: i64, recheck: i64, max_probes: u32) -> (r: Option<
        usize,
    >)
        requires
            self.wf(),
        ensures
            self.picks(queue@, now, recheck, max_probes, r),
    {
        let mut i: usize = 0;
        while i < queue.len()
            invariant
                i <= queue@.len(),
                self.wf(),
                forall|k: int|
                    0 <= k < i ==> !self.wants(#[trigger] queue@[k], now, recheck, max_probes),
            decreases queue@.len() - i,
        {
            let j: &Job = &queue[i];
            let id: &str = j.nzo_id.as_str();
            let left: bool = match self.blind_until.get(id) {
                Some(t) => now < *t,
                None => false,
            };
            let again: bool = match &j.health {
                None => true,
                Some(h) => h.probes < max_probes && (now as i128) - (h.checked_at as i128)
                    >= recheck as i128,
            };
            if j.state == JobState::Queued && !j.tombstone && !j.paused && !self.unsampleable.has(
                id,
            ) && !left && again {
                return Some(i);
            }
            i = i + 1;
        }
        None
    }

    /// Notes that no article of a job could be picked.
    pub fn cannot_sample(&mut self, nzo_id: &str)
        requires
            old(self).wf(),
        ensures
            final(self).wf(),
            final(self).unsampleable.at(nzo_id@) is Some,
            forall|k: Seq<char>|
                k != nzo_id@ ==> #[trigger] final(self).unsampleable.at(k) == old(
                    self,
                ).unsampleable.at(k),
            final(self).blind_until == old(self).blind_until,
    {
        self.unsampleable.put(nzo_id, ());
    }

    /// What becomes of the answers. A verdict takes the place of the one
    /// before, but what the user decided of that one stays. Where no server
    /// answered, the verdict stays too, the look counts all the same, and the
    /// job is left alone for twenty ticks.
    pub fn settle(&mut self, job: &mut Job, verdict: Option<Health>, now: i64, tick: u32)
        requires
            old(self).wf(),
            old(job).health is Some ==> old(job).health->0.probes < u32::MAX,
            now + tick * 20 <= i64::MAX,
        ensures
            final(self).wf(),
            final(self).unsampleable == old(self).unsampleable,
            forall|k: Seq<char>|
                k != old(job).nzo_id@ ==> #[trigger] final(self).blind_until.at(k) == old(
                    self,
                ).blind_until.at(k),
            *final(job) == (Job { health: final(job).health, ..*old(job) }),
            match verdict {
                Some(v) => {
                    &&& final(self).blind_until.at(old(job).nzo_id@) is None
                    &&& final(job).health == Some(latched(old(job).health, v))
                },
                None => {
                    &&& final(self).blind_until.at(old(job).nzo_id@) == Some(
                        (now + tick * 20) as i64,
                    )
                    &&& final(job).health == match old(job).health {
                        Some(h) => Some(
                            Health { probes: (h.probes + 1) as u32, checked_at: now, ..h },
                        ),
                        None => None,
                    }
                },
            },
    {
        match verdict {
            Some(v) => {
                let waived: bool = match &job.health {
                    Some(h) => h.waived,
                    None => false,
                };
                let mut v: Health = v;
                v.waived = waived;
                job.health = Some(v);
                self.blind_until.remove(job.nzo_id.as_str());
            },
            None => {
                let secs: i64 = (tick as i64) * 20;
                self.blind_until.put(job.nzo_id.as_str(), now + secs);
                match job.health.take() {
                    Some(h) => {
                        let mut h: Health = h;
                        h.probes = h.probes + 1;
                        h.checked_at = now;
                        job.health = Some(h);
                    },
                    None => {},
                }
            },
        }
    }
}

/// A fresh look never takes back what the user decided of a job, nor decides
/// it for them.
pub proof fn a_waiver_survives_a_fresh_look(h: Option<Health>, v: Health)
    ensures
        latched(h, v).waived == (h is Some && h->0.waived),
        latched(h, v).bucket == v.bucket,
        latched(h, v).reason == v.reason,
{
}

/// A file of a post.
#[derive(Debug)]
pub struct PostFile {
    /// Whether it is only fetched for a repair.
    pub recovery: bool,
    pub age_days: u32,
    /// Its articles' ids.
    pub ids: Vec<String>,
}

/// The ids of some articles, in brackets.
pub open spec fn bracketed(ids: Seq<Seq<char>>) -> Seq<Seq<char>> {
    ids.map_values(|s: Seq<char>| "<"@ + s + ">"@)
}

/// The ids of the articles that every download fetches, in order.
pub open spec fn article_ids_of(files: Seq<PostFile>) -> Seq<Seq<char>>
    decreases files.len(),
{
    if files.len() == 0 {
        Seq::empty()
    } else if files.last().recovery {
        article_ids_of(files.drop_last())
    } else {
        article_ids_of(files.drop_last()) + bracketed(files.last().ids.deep_view())
    }
}

/// The age of the youngest of those files, in days; none where there is no
/// file.
pub open spec fn youngest_of(files: Seq<PostFile>) -> Option<u32>
    decreases files.len(),
{
    if files.len() == 0 {
        None
    } else if files.last().recovery {
        youngest_of(files.drop_last())
    } else {
        match youngest_of(files.drop_last()) {
            Some(a) => Some(
                if a < files.last().age_days {
                    a
                } else {
                    files.last().age_days
                },
            ),
            None => Some(files.last().age_days),
        }
    }
}

/// The ids of the articles that every download of a post fetches, and the age
/// of its youngest file in days: what was posted last decides whether it may
/// still be spreading. An age that cannot be told counts as none. Nothing
/// where there is no article.
pub fn article_ids(files: &Vec<PostFile>) -> (r: Option<(Vec<String>, u32)>)
    ensures
        match r {
            Some((ids, age)) => {
                &&& article_ids_of(files@).len() > 0
                &&& ids.deep_view() == article_ids_of(files@)
                &&& youngest_of(files@) matches Some(a) && age == (if a == u32::MAX {
                    0
                } else {
                    a
                })
            },
            None => article_ids_of(files@).len() == 0,
        },
{
    let mut ids: Vec<String> = Vec::new();
    let mut age: u32 = u32::MAX;
    let mut i: usize = 0;
    assert(ids.deep_view() =~= article_ids_of(files@.take(0)));
    while i < files.len()
        invariant
            i <= files@.len(),
            ids.deep_view() == article_ids_of(files@.take(i as int)),
            match youngest_of(files@.take(i as int)) {
                Some(a) => age == a,
                None => age == u32::MAX && ids.deep_view().len() == 0,
            },
        decreases files@.len() - i,
    {
        let f: &PostFile = &files[i];
        proof {
            assert(files@.take(i + 1).drop_last() =~= files@.take(i as int));
            assert(files@.take(i + 1).last() == *f);
        }
        if !f.recovery {
            if f.age_days < age {
                age = f.age_days;
            }
            let ghost was = ids.deep_view();
            let ghost own = bracketed(f.ids.deep_view());
            let mut k: usize = 0;
            assert(was + own.take(0) =~= was);
            while k < f.ids.len()
                invariant
                    k <= f.ids@.len(),
                    own == bracketed(f.ids.deep_view()),
                    ids.deep_view() == was + own.take(k as int),
                decreases f.ids@.len() - k,
            {
                let id: String = glue3("<", f.ids[k].as_str(), ">");
                add_text(&mut ids, id.as_str());
                assert(own.take(k + 1) =~= own.take(k as int).push(id@));
                assert(was + own.take(k + 1) =~= (was + own.take(k as int)).push(id@));
                k = k + 1;
            }
            assert(own.take(own.len() as int) =~= own);
        }
        i = i + 1;
    }
    assert(files@.take(files@.len() as int) =~= files@);
    if ids.len() == 0 {
        assert(ids.deep_view().len() == 0);
        return None;
    }
    assert(ids.deep_view().len() > 0);
    Some(
        (
            ids,
            if age == u32::MAX {
                0
            } else {
                age
            },
        ),
    )
}

/// The articles at some places.
pub fn chosen(ids: &Vec<String>, places: &Vec<usize>) -> (r: Vec<String>)
    requires
        forall|i: int| 0 <= i < places@.len() ==> (#[trigger] places@[i]) < ids@.len(),
    ensures
        r@.len() == places@.len(),
        forall|i: int|
            0 <= i < places@.len() ==> (#[trigger] r@[i])@ == ids@[places@[i] as int]@,
{
    let mut r: Vec<String> = Vec::new();
    let mut i: usize = 0;
    while i < places.len()
        invariant
            i <= places@.len(),
            r@.len() == i,
            forall|k: int| 0 <= k < places@.len() ==> (#[trigger] places@[k]) < ids@.len(),
            forall|k: int| 0 <= k < i ==> (#[trigger] r@[k])@ == ids@[places@[k] as int]@,
        decreases places@.len() - i,
    {
        let p: usize = places[i];
        r.push(ids[p].as_str().to_owned());
        i = i + 1;
    }
    r
}

/// What a server said of an article.
#[derive(Clone, Copy, PartialEq, Eq, Structural, Debug)]
pub enum Avail {
    Have,
    Missing,
    Unknown,
}

/// What a server said of an article that it may not have come to.
pub open spec fn cell(replies: Seq<bool>, i: int) -> Avail {
    if i < replies.len() {
        if replies[i] {
            Avail::Have
        } else {
            Avail::Missing
        }
    } else {
        Avail::Unknown
    }
}

/// What a server said of each of `asked` articles: an answer that was never
/// read says nothing, in either direction.
pub fn answers(asked: usize, replies: &Vec<bool>) -> (r: Vec<Avail>)
    ensures
        r@.len() == asked,
        forall|i: int| 0 <= i < asked ==> #[trigger] r@[i] == cell(replies@, i),
{
    let mut r: Vec<Avail> = Vec::new();
    let mut i: usize = 0;
    while i < asked
        invariant
            i <= asked,
            r@.len() == i,
            forall|k: int| 0 <= k < i ==> #[trigger] r@[k] == cell(replies@, k),
        decreases asked - i,
    {
        r.push(
            if i < replies.len() {
                if replies[i] {
                    Avail::Have
                } else {
                    Avail::Missing
                }
            } else {
                Avail::Unknown
            },
        );
        i = i + 1;
    }
    r
}

/// An article counts as missing only where the server said so.
pub proof fn a_miss_was_reported(replies: Seq<bool>, i: int)
    requires
        0 <= i,
        cell(replies, i) == Avail::Missing,
    ensures
        i < replies.len(),
        !replies[i],
{
}

/// Whether the prober sits a tick out.
pub fn stands_down(wanted: bool, offline: bool, r: &Running) -> (b: bool)
    ensures
        b == (!wanted || offline || r.started_at is Some || r.sidecar is Some),
{
    !wanted || offline || !download_idle(r)
}

// ---- laws -----------------------------------------------------------------

/// Nothing downloads where neither a job nor a sidecar runs.
pub proof fn when_nothing_downloads(run: &Running, b: bool)
    requires
        call_ensures(download_idle, (run,), b),
    ensures
        run.started_at is Some ==> !b,
        run.sidecar is Some ==> !b,
        run.started_at is None && run.sidecar is None ==> b,
{
}

/// The prober sits a tick out where it is not wanted, offline, or beside a
/// download or a sidecar.
pub proof fn when_the_prober_sits_out(wanted: bool, offline: bool, run: &Running, b: bool)
    requires
        call_ensures(stands_down, (wanted, offline, run), b),
    ensures
        !wanted ==> b,
        offline ==> b,
        run.started_at is Some ==> b,
        run.sidecar is Some ==> b,
        wanted && !offline && run.started_at is None && run.sidecar is None ==> !b,
{
}

/// The job that is looked at waits in the queue, is neither paused nor to go,
/// has articles that can be picked, is not left alone, and was never looked at,
/// or long enough ago and not too often. No such job stands before it, and one
/// is picked wherever there is one.
pub proof fn which_job_is_looked_at(
    p: &Prober,
    queue: &Vec<Job>,
    now: i64,
    recheck: i64,
    max_probes: u32,
    r: Option<usize>,
    k: int,
)
    requires
        p.wf(),
        call_ensures(Prober::pick, (p, queue, now, recheck, max_probes), r),
        0 <= k < queue@.len(),
    ensures
        r is Some ==> r->0 < queue@.len() && queue@[r->0 as int].state == JobState::Queued
            && !queue@[r->0 as int].tombstone && !queue@[r->0 as int].paused
            && p.unsampleable.at(queue@[r->0 as int].nzo_id@) is None,
        r is Some && p.blind_until.at(queue@[r->0 as int].nzo_id@) is Some ==> now
            >= p.blind_until.at(queue@[r->0 as int].nzo_id@)->0,
        r is Some && queue@[r->0 as int].health is Some ==> queue@[r->0 as int].health->0.probes
            < max_probes && now - queue@[r->0 as int].health->0.checked_at >= recheck,
        queue@[k].state == JobState::Queued && !queue@[k].tombstone && !queue@[k].paused
            && p.unsampleable.at(queue@[k].nzo_id@) is None && p.blind_until.at(queue@[k].nzo_id@)
            is None && queue@[k].health is None ==> r is Some && r->0 <= k,
{
    let j = queue@[k];
    if r is None || r->0 > k {
        assert(!p.wants(queue@[k], now, recheck, max_probes));
    }
}

/// What is over is forgotten: a job that has left the queue, and a wait whose
/// time has come; nothing else is.
pub proof fn what_the_prober_forgets(
    p: &mut Prober,
    queue: &Vec<Job>,
    now: i64,
    r: (),
    k: Seq<char>,
    i: int,
)
    requires
        old(p).wf(),
        call_ensures(Prober::tidy, (p, queue, now), r),
    ensures
        0 <= i < queue@.len() && queue@[i].nzo_id@ == k ==> final(p).unsampleable.at(k) == old(p).unsampleable.at(k),
        !is_queued(queue@, k) ==> final(p).unsampleable.at(k) is None,
        old(p).blind_until.at(k) is Some && old(p).blind_until.at(k)->0 > now
            ==> final(p).blind_until.at(k) == old(p).blind_until.at(k),
        old(p).blind_until.at(k) is None || old(p).blind_until.at(k)->0 <= now
            ==> final(p).blind_until.at(k) is None,
{
}

/// What becomes of a look. A verdict replaces the one before but for what the
/// user decided; without one the verdict stays, the look counts, and the job is
/// left alone for twenty ticks. Nothing else of the job changes.
pub proof fn what_becomes_of_a_look(
    p: &mut Prober,
    job: &mut Job,
    verdict: Option<Health>,
    now: i64,
    tick: u32,
    r: (),
    other: Seq<char>,
)
    requires
        old(p).wf(),
        old(job).health is Some ==> old(job).health->0.probes < u32::MAX,
        now + tick * 20 <= i64::MAX,
        call_ensures(Prober::settle, (p, job, verdict, now, tick), r),
    ensures
        verdict is Some ==> final(job).health is Some && final(job).health->0.bucket
            == verdict->0.bucket && final(job).health->0.reason == verdict->0.reason
            && final(job).health->0.probes == verdict->0.probes
            && final(job).health->0.checked_at == verdict->0.checked_at,
        verdict is Some ==> (final(job).health->0.waived <==> old(job).health is Some
            && old(job).health->0.waived),
        other != old(job).nzo_id@ ==> final(p).blind_until.at(other) == old(p).blind_until.at(other),
        verdict is Some ==> final(p).blind_until.at(old(job).nzo_id@) is None,
        verdict is None ==> final(p).blind_until.at(old(job).nzo_id@) is Some
            && final(p).blind_until.at(old(job).nzo_id@)->0 == now + 20 * tick,
        verdict is None && old(job).health is Some ==> final(job).health is Some
            && final(job).health->0.bucket == old(job).health->0.bucket
            && final(job).health->0.waived == old(job).health->0.waived
            && final(job).health->0.probes == old(job).health->0.probes + 1
            && final(job).health->0.checked_at == now,
        verdict is None && old(job).health is None ==> final(job).health is None,
        final(job).state == old(job).state && final(job).nzo_id == old(job).nzo_id
            && final(job).deferred == old(job).deferred,
{
}

/// One more file of a post: its articles are asked for in brackets and its age
/// counts, unless it is only fetched for a repair.
pub proof fn which_articles_are_asked_for(files: Seq<PostFile>, f: PostFile)
    ensures
        f.recovery ==> article_ids_of(files.push(f)) == article_ids_of(files) && youngest_of(
            files.push(f),
        ) == youngest_of(files),
        !f.recovery ==> article_ids_of(files.push(f)).len() == article_ids_of(files).len()
            + f.ids@.len(),
        !f.recovery ==> forall|i: int|
            0 <= i < f.ids@.len() ==> article_ids_of(files.push(f))[article_ids_of(files).len() + i]
                == "<"@ + (#[trigger] f.ids@[i])@ + ">"@,
        !f.recovery && youngest_of(files) is None ==> youngest_of(files.push(f)) == Some(f.age_days),
        !f.recovery && youngest_of(files) is Some ==> youngest_of(files.push(f)) is Some
            && youngest_of(files.push(f))->0 <= f.age_days && youngest_of(files.push(f))->0
            <= youngest_of(files)->0 && (youngest_of(files.push(f))->0 == f.age_days
            || youngest_of(files.push(f)) == youngest_of(files)),
        article_ids_of(Seq::empty()) == Seq::<Seq<char>>::empty(),
        youngest_of(Seq::empty()) is None,
{
    assert(files.push(f).drop_last() =~= files);
    assert(files.push(f).last() == f);
    let own = f.ids.deep_view();
    assert(own.len() == f.ids@.len());
    assert forall|i: int| 0 <= i < f.ids@.len() && !f.recovery implies article_ids_of(
        files.push(f),
    )[article_ids_of(files).len() + i] == "<"@ + (#[trigger] f.ids@[i])@ + ">"@ by {
        assert(own[i] == f.ids@[i]@);
    }
}

/// What a server said of an article: that it has it or misses it, where it
/// answered, and nothing where the answer was never read.
pub proof fn what_a_server_said(asked: usize, replies: &Vec<bool>, r: Vec<Avail>, i: int)
    requires
        call_ensures(answers, (asked, replies), r),
        0 <= i < asked,
    ensures
        r@.len() == asked,
        i < replies@.len() && replies@[i] ==> r@[i] == Avail::Have,
        i < replies@.len() && !replies@[i] ==> r@[i] == Avail::Missing,
        i >= replies@.len() ==> r@[i] == Avail::Unknown,
{
    assert(r@[i] == cell(replies@, i));
}

/// A job that cannot be sampled is noted, and no other.
pub proof fn which_jobs_cannot_be_sampled(p: &mut Prober, nzo_id: &str, r: (), k: Seq<char>)
    requires
        old(p).wf(),
        call_ensures(Prober::cannot_sample, (p, nzo_id), r),
    ensures
        final(p).unsampleable.at(nzo_id@) is Some,
        k != nzo_id@ ==> final(p).unsampleable.at(k) == old(p).unsampleable.at(k),
        final(p).blind_until == old(p).blind_until,
{
}

/// The articles of every file but the recovery files are sampled; where there
/// are none, nothing is. The age is that of the youngest of those files.
pub proof fn which_articles_are_sampled(
    files: &Vec<PostFile>,
    r: Option<(Vec<String>, u32)>,
    list: Seq<PostFile>,
    f: PostFile,
)
    requires
        call_ensures(article_ids, (files,), r),
    ensures
        r is None <==> article_ids_of(files@).len() == 0,
        r is Some ==> (r->0).0.deep_view() == article_ids_of(files@),
        article_ids_of(Seq::empty()).len() == 0,
        f.recovery ==> article_ids_of(list.push(f)) == article_ids_of(list) && youngest_of(
            list.push(f),
        ) == youngest_of(list),
        !f.recovery ==> article_ids_of(list.push(f)) == article_ids_of(list) + bracketed(
            f.ids.deep_view(),
        ),
        !f.recovery && youngest_of(list) is None ==> youngest_of(list.push(f)) == Some(f.age_days),
        !f.recovery && youngest_of(list) is Some ==> youngest_of(list.push(f)) is Some
            && youngest_of(list.push(f))->0 <= f.age_days && youngest_of(list.push(f))->0
            <= youngest_of(list)->0 && (youngest_of(list.push(f))->0 == f.age_days || youngest_of(
            list.push(f),
        ) == youngest_of(list)),
{
    assert(list.push(f).drop_last() =~= list);
}

} // verus!
