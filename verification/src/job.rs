//! A job of the queue or of the history, as far as decisions read it.
use vstd::prelude::*;

use crate::text::same;

verus! {

/// Where a job stands.
#[derive(Clone, Copy, PartialEq, Eq, Structural, Debug)]
pub enum JobState {
    Queued,
    Downloading,
    Completed,
    Failed,
}

/// What the last look at a post's articles found.
#[derive(Debug)]
pub struct Health {
    /// The verdict's word and the sentence behind it.
    pub bucket: String,
    pub reason: String,
    /// When the post was looked at, in seconds.
    pub checked_at: i64,
    /// How often it has been looked at.
    pub probes: u32,
    /// Whether the verdict is to hold the job back no more.
    pub waived: bool,
}

/// A claim of a name that the file itself contradicts.
#[derive(Debug)]
pub struct Mismatch {
    pub claimed: String,
    pub actual: String,
}

/// What a file's own header says of it.
#[derive(Debug)]
pub struct Media {
    /// Whether everything that there is to read was read.
    pub complete: bool,
    /// Whether anything was.
    pub any: bool,
    /// The facts, as one text.
    pub facts: String,
    pub mismatch: Vec<Mismatch>,
}

/// A job.
#[derive(Debug)]
pub struct Job {
    pub nzo_id: String,
    pub name: String,
    /// The digest of the file that it was made from.
    pub nzb_sha: String,
    pub state: JobState,
    pub priority: i32,
    /// When it was added, on a clock of nanoseconds, until it starts.
    pub queued_at: Option<u64>,
    /// Whether nothing was ahead of it when it was added.
    pub idle_at_add: bool,
    /// Held by the user.
    pub paused: bool,
    /// Deleted while it ran.
    pub tombstone: bool,
    /// Stopped by a pause, to go on later.
    pub suspended: bool,
    /// To run when nothing faster is there.
    pub deferred: bool,
    /// Being moved to the back of the queue.
    pub demote: bool,
    pub defer_count: u32,
    pub defer_reason: String,
    /// A pointer that is fetched when it is played.
    pub library: bool,
    /// Whether its payload was downloaded.
    pub fetched: bool,
    /// Whether its payload is still being unpacked or moved.
    pub finalizing: bool,
    pub total_bytes: u64,
    pub downloaded_bytes: u64,
    pub fail_message: String,
    /// What was logged on the way to the failure.
    pub fail_detail: String,
    pub health: Option<Health>,
    pub media: Option<Media>,
    /// Whether the facts are to be judged once more, against another name.
    pub media_rejudge: bool,
    /// What an identity oracle calls it; empty where none answered.
    pub identity_name: String,
    pub bad_blocks: Option<u64>,
    pub verify_blocks: u64,
    /// The shape of its archives, as a word; empty where unknown.
    pub archive_shape: String,
    pub inner_crc: u32,
    pub finished_unix: Option<i64>,
}

/// The first of the jobs that has a digest, and, where asked for, is in a
/// state.
pub open spec fn first_with(jobs: Seq<Job>, sha: Seq<char>, done: bool) -> Option<Job>
    decreases jobs.len(),
{
    if jobs.len() == 0 {
        None
    } else {
        match first_with(jobs.drop_last(), sha, done) {
            Some(j) => Some(j),
            None => if jobs.last().nzb_sha@ == sha && (done ==> jobs.last().state
                == JobState::Completed) {
                Some(jobs.last())
            } else {
                None
            },
        }
    }
}

/// The id of the first job made from a file with this digest; with `done`,
/// of the first that was downloaded. A job that failed is no reason not to
/// try its file again.
pub fn id_with(jobs: &Vec<Job>, sha: &str, done: bool) -> (r: Option<String>)
    ensures
        match first_with(jobs@, sha@, done) {
            Some(j) => r matches Some(id) && id@ == j.nzo_id@,
            None => r is None,
        },
{
    let mut i: usize = 0;
    proof {
        assert(jobs@.take(0) =~= Seq::empty());
    }
    while i < jobs.len()
        invariant
            i <= jobs@.len(),
            first_with(jobs@.take(i as int), sha@, done) is None,
        decreases jobs@.len() - i,
    {
        proof {
            assert(jobs@.take(i + 1).drop_last() =~= jobs@.take(i as int));
            assert(jobs@.take(i + 1).last() == jobs@[i as int]);
        }
        if same(jobs[i].nzb_sha.as_str(), sha) && (!done || jobs[i].state
            == JobState::Completed) {
            proof {
                first_with_prefix(jobs@, i + 1, sha@, done);
            }
            return Some(jobs[i].nzo_id.as_str().to_owned());
        }
        i = i + 1;
    }
    proof {
        assert(jobs@.take(jobs@.len() as int) =~= jobs@);
    }
    None
}

proof fn first_with_prefix(jobs: Seq<Job>, n: int, sha: Seq<char>, done: bool)
    requires
        0 <= n <= jobs.len(),
        first_with(jobs.take(n), sha, done) is Some,
    ensures
        first_with(jobs, sha, done) == first_with(jobs.take(n), sha, done),
    decreases jobs.len(),
{
    if n == jobs.len() {
        assert(jobs.take(n) =~= jobs);
    } else {
        assert(jobs.drop_last().take(n) =~= jobs.take(n));
        first_with_prefix(jobs.drop_last(), n, sha, done);
    }
}

/// Whether any job downloads.
pub open spec fn any_downloading(jobs: Seq<Job>) -> bool {
    exists|i: int| 0 <= i < jobs.len() && (#[trigger] jobs[i]).state == JobState::Downloading
}

/// Whether any job downloads.
pub fn downloading(jobs: &Vec<Job>) -> (r: bool)
    ensures
        r == any_downloading(jobs@),
{
    let mut i: usize = 0;
    while i < jobs.len()
        invariant
            i <= jobs@.len(),
            forall|j: int| 0 <= j < i ==> (#[trigger] jobs@[j]).state != JobState::Downloading,
        decreases jobs@.len() - i,
    {
        if jobs[i].state == JobState::Downloading {
            return true;
        }
        i = i + 1;
    }
    false
}

// ---- laws -----------------------------------------------------------------

/// The first job with the digest is found, and where only downloaded ones
/// count, the first that was downloaded: one that failed never counts there.
pub proof fn which_job_has_a_digest(jobs: Seq<Job>, j: Job, sha: Seq<char>, done: bool)
    ensures
        first_with(Seq::empty(), sha, done) is None,
        first_with(jobs, sha, done) is Some ==> first_with(jobs.push(j), sha, done) == first_with(
            jobs,
            sha,
            done,
        ),
        first_with(jobs, sha, done) is None && j.nzb_sha@ != sha ==> first_with(
            jobs.push(j),
            sha,
            done,
        ) is None,
        first_with(jobs, sha, true) is None && j.state != JobState::Completed ==> first_with(
            jobs.push(j),
            sha,
            true,
        ) is None,
        first_with(jobs, sha, true) is None && j.nzb_sha@ == sha && j.state == JobState::Completed
            ==> first_with(jobs.push(j), sha, true) == Some(j),
        first_with(jobs, sha, false) is None && j.nzb_sha@ == sha ==> first_with(
            jobs.push(j),
            sha,
            false,
        ) == Some(j),
{
    assert(jobs.push(j).drop_last() =~= jobs);
}

/// A job downloads exactly where one of them is in that state.
pub proof fn when_something_downloads(jobs: &Vec<Job>, r: bool, i: int)
    requires
        call_ensures(downloading, (jobs,), r),
    ensures
        0 <= i < jobs@.len() && jobs@[i].state == JobState::Downloading ==> r,
        (forall|k: int| 0 <= k < jobs@.len() ==> (#[trigger] jobs@[k]).state
            != JobState::Downloading) ==> !r,
{
}

} // verus!
