//! The watch folder: which of its files are taken in, which are left alone,
//! and why.
use std::collections::BTreeMap;

use sha2::Digest;
use vstd::prelude::*;

use crate::book::{looked_up, Book};
use crate::job::{first_with, id_with, Job};
use crate::text::{glue3, has_prefix, lower, lowered, same, starts_with};

verus! {

/// No closing tag, and the file has stopped growing: it was not taken in.
pub const TRUNCATED: &'static str = "truncated: no closing </nzb>";

/// The same file is already queued.
pub const ALREADY_QUEUED: &'static str = "already queued";

/// The same file was already downloaded.
pub const ALREADY_DONE: &'static str = "already downloaded";

/// Queued, but the queue could not be saved, so the file is kept.
pub const UNSAVED: &'static str = "queued, but queue.json could not be written";

/// Queued and saved, but the file could not be removed; the reason follows.
pub const KEPT: &'static str = "queued, but the file could not be removed";

/// Which state a listed file is in, by its message.
pub open spec fn fail_kind(msg: Seq<char>) -> Seq<char> {
    if msg == TRUNCATED@ {
        "truncated"@
    } else if msg == ALREADY_QUEUED@ {
        "queued"@
    } else if msg == ALREADY_DONE@ {
        "done"@
    } else if msg == UNSAVED@ {
        "unsaved"@
    } else if has_prefix(msg, KEPT@) {
        "kept"@
    } else {
        "rejected"@
    }
}

/// Which state a listed file is in, by its message.
pub fn watch_fail_kind(msg: &str) -> (r: &'static str)
    ensures
        r@ == fail_kind(msg@),
{
    if same(msg, TRUNCATED) {
        "truncated"
    } else if same(msg, ALREADY_QUEUED) {
        "queued"
    } else if same(msg, ALREADY_DONE) {
        "done"
    } else if same(msg, UNSAVED) {
        "unsaved"
    } else if starts_with(msg, KEPT) {
        "kept"
    } else {
        "rejected"
    }
}

/// Whether a state means that the release itself is in hand.
pub open spec fn is_ingested(kind: Seq<char>) -> bool {
    kind == "queued"@ || kind == "done"@ || kind == "unsaved"@ || kind == "kept"@
}

/// Whether a state means that the release itself is in hand, and only its
/// file is unfinished business.
pub fn watch_fail_ingested(kind: &str) -> (r: bool)
    ensures
        r == is_ingested(kind@),
{
    same(kind, "queued") || same(kind, "done") || same(kind, "unsaved") || same(kind, "kept")
}

/// The release is in hand for the four messages that say so, and for no
/// other.
pub proof fn four_messages_mean_the_release_is_in_hand(msg: Seq<char>)
    ensures
        is_ingested(fail_kind(msg)) <==> msg == ALREADY_QUEUED@ || msg == ALREADY_DONE@ || msg
            == UNSAVED@ || has_prefix(msg, KEPT@),
{
    reveal_strlit("truncated");
    reveal_strlit("rejected");
    reveal_strlit("queued");
    reveal_strlit("done");
    reveal_strlit("unsaved");
    reveal_strlit("kept");
    reveal_strlit("truncated: no closing </nzb>");
    reveal_strlit("already queued");
    reveal_strlit("already downloaded");
    reveal_strlit("queued, but queue.json could not be written");
    reveal_strlit("queued, but the file could not be removed");
    assert("truncated"@[0] == 't' && "rejected"@[0] == 'r');
    assert("queued"@[0] == 'q' && "done"@[0] == 'd' && "unsaved"@[0] == 'u' && "kept"@[0] == 'k');
    assert("truncated: no closing </nzb>"@[0] == 't');
    assert("already queued"@[0] == 'a');
    assert("already downloaded"@[0] == 'a');
    assert("queued, but queue.json could not be written"@[0] == 'q');
    assert("queued, but the file could not be removed"@[0] == 'q');
    if has_prefix(msg, KEPT@) && msg == TRUNCATED@ {
        assert(msg.take(KEPT@.len() as int)[0] == msg[0]);
    }
}

/// The SHA-256 digest of some bytes.
pub uninterp spec fn sha256(bytes: Seq<u8>) -> Seq<u8>;

/// `sha2::Sha256::digest`: the SHA-256 digest of the bytes, which is 32 bytes
/// long and depends on them alone.
#[verifier::external_body]
fn digest(bytes: &[u8]) -> (r: Vec<u8>)
    ensures
        r@ == sha256(bytes@),
        r@.len() == 32,
{
    sha2::Sha256::digest(bytes).to_vec()
}

/// The hexadecimal digit of a number below sixteen.
pub open spec fn hex_char(n: int) -> char {
    if n < 10 {
        ('0' as int + n) as char
    } else {
        ('a' as int + n - 10) as char
    }
}

/// Bytes in hexadecimal, two digits each.
pub open spec fn hex_of(bytes: Seq<u8>) -> Seq<char> {
    Seq::new(
        2 * bytes.len(),
        |i: int|
            if i % 2 == 0 {
                hex_char(bytes[i / 2] as int / 16)
            } else {
                hex_char(bytes[i / 2] as int % 16)
            },
    )
}

fn hex_digit(n: u8) -> (r: char)
    requires
        n < 16,
    ensures
        r == hex_char(n as int),
{
    if n < 10 {
        (0x30u8 + n) as char
    } else {
        (0x61u8 + (n - 10)) as char
    }
}

/// A handle made of a digest: its first eight bytes in hexadecimal.
pub fn id_of_digest(digest: &Vec<u8>) -> (r: String)
    requires
        digest@.len() >= 8,
    ensures
        r@ == hex_of(digest@.take(8)),
        r@.len() == 16,
{
    let mut r: String = String::new();
    let mut i: usize = 0;
    while i < 8
        invariant
            i <= 8 <= digest@.len(),
            r@ == hex_of(digest@.take(i as int)),
        decreases 8 - i,
    {
        let b: u8 = digest[i];
        r.push(hex_digit(b / 16));
        r.push(hex_digit(b % 16));
        proof {
            let a = digest@.take(i as int);
            let c = digest@.take(i + 1);
            assert forall|k: int| 0 <= k < 2 * i implies hex_of(c)[k] == hex_of(a)[k] by {
                assert(c[k / 2] == a[k / 2]);
            }
            assert(c[i as int] == b);
            assert(r@ =~= hex_of(c));
        }
        i = i + 1;
    }
    r
}

/// A stable handle for a listed file: the first sixteen hexadecimal digits of
/// the digest of its whole path.
pub fn watch_fail_id(path: &[u8]) -> (r: String)
    ensures
        r@ == hex_of(sha256(path@).take(8)),
        r@.len() == 16,
{
    id_of_digest(&digest(path))
}

/// When a file was last changed, and how long it is.
#[derive(Clone, Copy, PartialEq, Eq, Structural, Debug)]
pub struct Sig {
    pub mtime: u64,
    pub len: u64,
}

/// A file that was taken in and left where it is.
#[derive(Debug)]
pub struct Seen {
    pub sig: Sig,
    pub sha: String,
}

/// What a table of files says: of each path, when the file was last changed,
/// how long it is, and its digest.
pub open spec fn table_of(list: Seq<(String, u64, u64, String)>) -> Map<
    Seq<char>,
    (u64, u64, Seq<char>),
>
    decreases list.len(),
{
    if list.len() == 0 {
        Map::empty()
    } else {
        let (path, mtime, len, sha) = list.last();
        table_of(list.drop_last()).insert(path@, (mtime, len, sha@))
    }
}

/// Whether no path stands twice in a list of files.
pub open spec fn no_path_twice(list: Seq<(String, u64, u64, String)>) -> bool {
    forall|i: int, j: int|
        0 <= i < j < list.len() ==> (#[trigger] list[i]).0@ != (#[trigger] list[j]).0@
}

/// The table of files that a JSON text holds; nothing where it holds anything
/// else.
pub uninterp spec fn files_in(bytes: Seq<u8>) -> Option<Map<Seq<char>, (u64, u64, Seq<char>)>>;

/// `serde_json::from_slice` into a table from paths to two numbers and a
/// string, line by line. What it holds depends on the bytes alone.
#[verifier::external_body]
fn read_files(bytes: &[u8]) -> (r: Option<Vec<(String, u64, u64, String)>>)
    ensures
        match r {
            Some(list) => files_in(bytes@) == Some(table_of(list@)),
            None => files_in(bytes@) is None,
        },
{
    let table: BTreeMap<String, (u64, u64, String)> = serde_json::from_slice(bytes).ok()?;
    Some(table.into_iter().map(|(path, (mtime, len, sha))| (path, mtime, len, sha)).collect())
}

/// The JSON text of a table of files.
pub uninterp spec fn files_written(table: Map<Seq<char>, (u64, u64, Seq<char>)>) -> Seq<u8>;

/// `serde_json::to_vec` of a table of files, which always succeeds. What it
/// returns depends on the table alone, and reading it gives the table back.
#[verifier::external_body]
fn write_files(list: &Vec<(String, u64, u64, String)>) -> (r: Option<Vec<u8>>)
    requires
        no_path_twice(list@),
    ensures
        r is Some,
        r->0@ == files_written(table_of(list@)),
        files_in(r->0@) == Some(table_of(list@)),
{
    let table: BTreeMap<&str, (u64, u64, &str)> =
        list.iter().map(|f| (f.0.as_str(), (f.1, f.2, f.3.as_str()))).collect();
    serde_json::to_vec(&table).ok()
}

/// What a table of files says of a path.
pub open spec fn mark_in(
    table: Option<Map<Seq<char>, (u64, u64, Seq<char>)>>,
    path: Seq<char>,
) -> Option<(u64, u64, Seq<char>)> {
    match table {
        Some(t) => if t.dom().contains(path) {
            Some(t[path])
        } else {
            None
        },
        None => None,
    }
}

/// What is noted of a file that was taken in and left where it is.
pub open spec fn mark_of(seen: Option<Seen>) -> Option<(u64, u64, Seq<char>)> {
    match seen {
        Some(s) => Some((s.sig.mtime, s.sig.len, s.sha@)),
        None => None,
    }
}

/// A file that is listed rather than taken in.
#[derive(Debug)]
pub struct Fail {
    pub sig: Sig,
    pub msg: String,
    /// The job that made it redundant; empty where there is none.
    pub id: String,
}

/// A file that was taken in, for the dashboard to say so.
#[derive(Debug)]
pub struct Pick {
    pub name: String,
    pub folder: String,
    pub at: i64,
}

/// How many pickups are remembered.
pub const PICKED_MAX: usize = 8;

/// What is known of a watch folder.
pub struct Watch {
    /// The files of the pass before.
    pub prev: Book<Sig>,
    /// The files of this pass, as far as it has come.
    pub now: Book<Sig>,
    pub seen: Book<Seen>,
    pub failed: Book<Fail>,
    pub picked: Vec<Pick>,
}

/// What to do with a file of the folder.
#[derive(Clone, Copy, PartialEq, Eq, Structural, Debug)]
pub enum Look {
    Skip,
    /// Read it and see whether it is whole. It has held still since the last
    /// pass if `settled`.
    Read { settled: bool },
}

/// What to do with a file that was read.
#[derive(Clone, Copy, PartialEq, Eq, Structural, Debug)]
pub enum Next {
    Skip,
    /// Go on to the next step.
    GoOn,
}

/// What to do with a file that was handed to the queue.
#[derive(Clone, Copy, PartialEq, Eq, Structural, Debug)]
pub enum After {
    Leave,
    /// Write down what was taken in and left where it is.
    SaveSeen,
    Remove,
}

/// Whether an extension is that of an NZB.
pub open spec fn is_nzb(ext: Option<Seq<char>>) -> bool {
    ext matches Some(e) && lowered(e) == lowered("nzb"@)
}

/// The pickups with one more, the oldest of more than may be remembered gone.
pub open spec fn remembered(picked: Seq<Pick>, p: Pick) -> Seq<Pick> {
    let all = picked.push(p);
    if all.len() > PICKED_MAX {
        all.skip(all.len() - PICKED_MAX)
    } else {
        all
    }
}

/// Whether a listing says this.
pub open spec fn fails_as(f: Option<Fail>, sig: Sig, msg: Seq<char>, id: Seq<char>) -> bool {
    f matches Some(f) && f.sig == sig && f.msg@ == msg && f.id@ == id
}

/// What a first look at a file comes to: nothing where it was taken in
/// before and is unchanged since.
pub open spec fn look_verdict(seen: Option<Seen>, prev: Option<Sig>, sig: Sig) -> Look {
    if seen is Some && seen->0.sig == sig {
        Look::Skip
    } else {
        Look::Read { settled: prev == Some(sig) }
    }
}

/// What reading a file comes to: nothing where it is not whole, or where it
/// is listed and unchanged since.
pub open spec fn read_verdict(failed: Option<Fail>, sig: Sig, complete: bool) -> Next {
    if !complete || (failed is Some && failed->0.sig == sig) {
        Next::Skip
    } else {
        Next::GoOn
    }
}

impl Watch {
    /// Whether no file stands twice in any of the tables.
    pub open spec fn wf(self) -> bool {
        self.prev.wf() && self.now.wf() && self.seen.wf() && self.failed.wf()
    }

    /// Whether the listing of every other file is as it was.
    pub open spec fn lists_as(self, o: Watch, but: Seq<char>) -> bool {
        forall|k: Seq<char>| k != but ==> #[trigger] self.failed.at(k) == o.failed.at(k)
    }

    /// Whether what was seen in this pass, what was left, and what was picked
    /// up are as they were.
    pub open spec fn keeps_rest(self, o: Watch) -> bool {
        self.prev == o.prev && self.now == o.now && self.seen == o.seen && self.picked == o.picked
    }

    /// Nothing known yet.
    pub fn new() -> (r: Watch)
        ensures
            r.wf(),
            forall|k: Seq<char>| (#[trigger] r.failed.at(k)) is None,
            forall|k: Seq<char>| (#[trigger] r.seen.at(k)) is None,
            forall|k: Seq<char>| (#[trigger] r.prev.at(k)) is None,
            forall|k: Seq<char>| (#[trigger] r.now.at(k)) is None,
            r.picked@.len() == 0,
    {
        Watch {
            prev: Book::new(),
            now: Book::new(),
            seen: Book::new(),
            failed: Book::new(),
            picked: Vec::new(),
        }
    }

    /// Whether nothing is known but of the files that were left where they
    /// are, and of those what a table says.
    pub open spec fn knows_only(
        self,
        table: Option<Map<Seq<char>, (u64, u64, Seq<char>)>>,
    ) -> bool {
        &&& self.wf()
        &&& forall|k: Seq<char>| mark_of(#[trigger] self.seen.at(k)) == mark_in(table, k)
        &&& forall|k: Seq<char>| (#[trigger] self.failed.at(k)) is None
        &&& forall|k: Seq<char>| (#[trigger] self.prev.at(k)) is None
        &&& forall|k: Seq<char>| (#[trigger] self.now.at(k)) is None
        &&& self.picked@.len() == 0
    }

    /// Whether nothing is known but of the files that were left where they
    /// are, and of those what the bytes say.
    pub open spec fn loaded_from(self, saved: Option<Seq<u8>>) -> bool {
        self.knows_only(
            match saved {
                Some(b) => files_in(b),
                None => None,
            },
        )
    }

    /// Whether the bytes say of every path what is known of the files that
    /// were left where they are.
    pub open spec fn saved_as(self, bytes: Seq<u8>) -> bool {
        &&& files_in(bytes) is Some
        &&& forall|k: Seq<char>| mark_of(#[trigger] self.seen.at(k)) == mark_in(files_in(bytes), k)
    }

    /// What was saved of the files that were left where they are; nothing
    /// where it cannot be read.
    pub fn load(saved: Option<&[u8]>) -> (r: Watch)
        ensures
            r.loaded_from(
                match saved {
                    Some(b) => Some(b@),
                    None => None,
                },
            ),
    {
        let read: Option<Vec<(String, u64, u64, String)>> = match saved {
            Some(b) => read_files(b),
            None => None,
        };
        match read {
            Some(list) => Watch::from_list(&list),
            None => Watch::new(),
        }
    }

    /// The files of a list, which were left where they are. Of a path that
    /// stands twice the later line counts.
    pub fn from_list(list: &Vec<(String, u64, u64, String)>) -> (r: Watch)
        ensures
            r.knows_only(Some(table_of(list@))),
    {
        let mut w: Watch = Watch::new();
        let mut i: usize = 0;
        assert(table_of(list@.take(0)) =~= Map::empty());
        while i < list.len()
            invariant
                i <= list@.len(),
                w.knows_only(Some(table_of(list@.take(i as int)))),
            decreases list@.len() - i,
        {
            let f: &(String, u64, u64, String) = &list[i];
            let ghost was = w.seen;
            let sig = Sig { mtime: f.1, len: f.2 };
            w.seen.put(f.0.as_str(), Seen { sig, sha: f.3.as_str().to_owned() });
            proof {
                let upto = list@.take(i + 1);
                assert(upto.drop_last() =~= list@.take(i as int));
                assert(upto.last() == *f);
                assert forall|k: Seq<char>| true implies mark_of(#[trigger] w.seen.at(k))
                    == mark_in(Some(table_of(upto)), k) by {
                    if k != f.0@ {
                        assert(w.seen.at(k) == was.at(k));
                    }
                }
            }
            i = i + 1;
        }
        assert(list@.take(list@.len() as int) =~= list@);
        w
    }

    /// What is written down of the files that were left where they are.
    pub fn saved(&self) -> (r: Vec<u8>)
        requires
            self.wf(),
        ensures
            self.saved_as(r@),
    {
        let ghost lines = self.seen.lines@;
        let mut list: Vec<(String, u64, u64, String)> = Vec::new();
        let mut i: usize = 0;
        while i < self.seen.lines.len()
            invariant
                i <= self.seen.lines@.len(),
                self.wf(),
                lines == self.seen.lines@,
                list@.len() == i,
                forall|j: int| 0 <= j < i ==> (#[trigger] list@[j]).0@ == lines[j].name@,
                forall|k: Seq<char>|
                    mark_of(#[trigger] looked_up(lines.take(i as int), k)) == mark_in(
                        Some(table_of(list@)),
                        k,
                    ),
            decreases self.seen.lines@.len() - i,
        {
            let name: String = self.seen.lines[i].name.as_str().to_owned();
            let s: &Seen = &self.seen.lines[i].value;
            let ghost was = list@;
            list.push((name, s.sig.mtime, s.sig.len, s.sha.as_str().to_owned()));
            proof {
                let upto = lines.take(i + 1);
                assert(upto.drop_last() =~= lines.take(i as int));
                assert(upto.last() == lines[i as int]);
                assert(list@.drop_last() =~= was);
                assert forall|k: Seq<char>| true implies mark_of(#[trigger] looked_up(upto, k))
                    == mark_in(Some(table_of(list@)), k) by {
                    assert(mark_of(looked_up(lines.take(i as int), k)) == mark_in(
                        Some(table_of(was)),
                        k,
                    ));
                }
            }
            i = i + 1;
        }
        assert(lines.take(lines.len() as int) =~= lines);
        match write_files(&list) {
            Some(b) => b,
            None => Vec::new(),
        }
    }

    /// Looks at a file of the folder before anything reads it. One that is no
    /// NZB, that cannot be looked at, or that was taken in before and is
    /// unchanged since is left alone.
    pub fn look(&mut self, path: &str, ext: Option<&str>, sig: Option<Sig>) -> (r: Look)
        requires
            old(self).wf(),
        ensures
            final(self).wf(),
            final(self).prev == old(self).prev,
            final(self).seen == old(self).seen,
            final(self).failed == old(self).failed,
            final(self).picked == old(self).picked,
            ({
                let counts = is_nzb(
                    match ext {
                        Some(e) => Some(e@),
                        None => None,
                    },
                ) && sig is Some;
                &&& !counts ==> r == Look::Skip && *final(self) == *old(self)
                &&& counts ==> {
                    &&& final(self).now.at(path@) == sig
                    &&& forall|k: Seq<char>|
                        k != path@ ==> #[trigger] final(self).now.at(k) == old(self).now.at(k)
                    &&& r == look_verdict(
                        old(self).seen.at(path@),
                        old(self).prev.at(path@),
                        sig->0,
                    )
                }
            }),
    {
        let nzb: bool = match ext {
            Some(e) => same(lower(e).as_str(), lower("nzb").as_str()),
            None => false,
        };
        if !nzb {
            return Look::Skip;
        }
        match sig {
            None => Look::Skip,
            Some(sig) => {
                let settled: bool = match self.prev.get(path) {
                    Some(s) => *s == sig,
                    None => false,
                };
                self.now.put(path, sig);
                match self.seen.get(path) {
                    Some(s) => if s.sig == sig {
                        return Look::Skip;
                    },
                    None => {},
                }
                Look::Read { settled }
            },
        }
    }

    /// Goes on with a file that was read. One that is not whole is never
    /// taken in; if it has stopped changing as well, that is said once. One
    /// that is listed and unchanged since is left alone.
    pub fn read(&mut self, path: &str, sig: Sig, settled: bool, complete: bool) -> (r: Next)
        requires
            old(self).wf(),
        ensures
            final(self).wf(),
            final(self).keeps_rest(*old(self)),
            final(self).lists_as(*old(self), path@),
            r == read_verdict(old(self).failed.at(path@), sig, complete),
            if !complete && settled && old(self).failed.at(path@) is None {
                fails_as(final(self).failed.at(path@), sig, TRUNCATED@, Seq::empty())
            } else {
                final(self).failed == old(self).failed
            },
    {
        if !complete {
            if settled && !self.failed.has(path) {
                self.fail(path, sig, TRUNCATED, "");
            }
            return Next::Skip;
        }
        match self.failed.get(path) {
            Some(f) => if f.sig == sig {
                return Next::Skip;
            },
            None => {},
        }
        Next::GoOn
    }

    /// Lists a file.
    fn fail(&mut self, path: &str, sig: Sig, msg: &str, id: &str)
        requires
            old(self).wf(),
        ensures
            final(self).wf(),
            final(self).keeps_rest(*old(self)),
            final(self).lists_as(*old(self), path@),
            fails_as(final(self).failed.at(path@), sig, msg@, id@),
            id@ == ""@ ==> fails_as(final(self).failed.at(path@), sig, msg@, Seq::empty()),
    {
        proof {
            reveal_strlit("");
            assert(""@ =~= Seq::empty());
        }
        self.failed.put(path, Fail { sig, msg: msg.to_owned(), id: id.to_owned() });
    }

    /// Whether a file whose bytes were just read may go to the queue. One
    /// that changed while it was read waits for the next pass; one that is
    /// queued already, or was downloaded, is listed with the job that it
    /// belongs to.
    pub fn check(
        &mut self,
        path: &str,
        sig: Sig,
        after: Option<Sig>,
        sha: &str,
        queue: &Vec<Job>,
        history: &Vec<Job>,
    ) -> (r: Next)
        requires
            old(self).wf(),
        ensures
            final(self).wf(),
            final(self).keeps_rest(*old(self)),
            final(self).lists_as(*old(self), path@),
            if after != Some(sig) {
                r == Next::Skip && final(self).failed == old(self).failed
            } else {
                match first_with(queue@, sha@, false) {
                    Some(j) => r == Next::Skip && fails_as(
                        final(self).failed.at(path@),
                        sig,
                        ALREADY_QUEUED@,
                        j.nzo_id@,
                    ),
                    None => match first_with(history@, sha@, true) {
                        Some(j) => r == Next::Skip && fails_as(
                            final(self).failed.at(path@),
                            sig,
                            ALREADY_DONE@,
                            j.nzo_id@,
                        ),
                        None => r == Next::GoOn && final(self).failed == old(self).failed,
                    },
                }
            },
    {
        let still: bool = match after {
            Some(s) => s == sig,
            None => false,
        };
        if !still {
            return Next::Skip;
        }
        match id_with(queue, sha, false) {
            Some(id) => {
                self.fail(path, sig, ALREADY_QUEUED, id.as_str());
                return Next::Skip;
            },
            None => {},
        }
        match id_with(history, sha, true) {
            Some(id) => {
                self.fail(path, sig, ALREADY_DONE, id.as_str());
                Next::Skip
            },
            None => Next::GoOn,
        }
    }

    /// Remembers a pickup.
    fn pick(&mut self, p: Pick)
        ensures
            final(self).picked@ == remembered(old(self).picked@, p),
            final(self).prev == old(self).prev,
            final(self).now == old(self).now,
            final(self).seen == old(self).seen,
            final(self).failed == old(self).failed,
    {
        self.picked.push(p);
        let ghost all = self.picked@;
        while self.picked.len() > PICKED_MAX
            invariant
                self.picked@.len() <= all.len(),
                self.picked@ == all.skip(all.len() - self.picked@.len()),
                all.len() > PICKED_MAX ==> self.picked@.len() >= PICKED_MAX,
                all.len() <= PICKED_MAX ==> self.picked@.len() == all.len(),
                self.prev == old(self).prev,
                self.now == old(self).now,
                self.seen == old(self).seen,
                self.failed == old(self).failed,
            decreases self.picked@.len(),
        {
            let _gone = self.picked.remove(0);
            proof {
                assert(self.picked@ =~= all.skip(all.len() - self.picked@.len()));
            }
        }
        proof {
            assert(all.skip(0) =~= all);
        }
    }

    /// What becomes of a file that was handed to the queue, which took it
    /// (and saved itself, or could not) or refused it. The file goes only
    /// once the queue has it for good.
    pub fn queued(
        &mut self,
        path: &str,
        sig: Sig,
        sha: &str,
        p: Pick,
        outcome: Result<bool, String>,
        keep: bool,
    ) -> (r: After)
        requires
            old(self).wf(),
        ensures
            final(self).wf(),
            final(self).prev == old(self).prev,
            final(self).now == old(self).now,
            final(self).lists_as(*old(self), path@),
            match outcome {
                Ok(saved) => {
                    &&& final(self).picked@ == remembered(old(self).picked@, p)
                    &&& if !saved {
                        &&& r == After::Leave
                        &&& final(self).seen == old(self).seen
                        &&& fails_as(final(self).failed.at(path@), sig, UNSAVED@, Seq::empty())
                    } else if keep {
                        &&& r == After::SaveSeen
                        &&& final(self).seen.at(path@) is Some
                        &&& final(self).seen.at(path@)->0.sig == sig
                        &&& final(self).seen.at(path@)->0.sha@ == sha@
                        &&& forall|k: Seq<char>|
                            k != path@ ==> #[trigger] final(self).seen.at(k) == old(self).seen.at(k)
                        &&& final(self).failed.at(path@) is None
                    } else {
                        &&& r == After::Remove
                        &&& final(self).seen == old(self).seen
                        &&& final(self).failed == old(self).failed
                    }
                },
                Err(e) => {
                    &&& r == After::Leave
                    &&& final(self).seen == old(self).seen
                    &&& final(self).picked == old(self).picked
                    &&& fails_as(final(self).failed.at(path@), sig, e@, Seq::empty())
                },
            },
    {
        match outcome {
            Ok(saved) => {
                self.pick(p);
                if !saved {
                    self.fail(path, sig, UNSAVED, "");
                    After::Leave
                } else if keep {
                    self.seen.put(path, Seen { sig, sha: sha.to_owned() });
                    self.failed.remove(path);
                    After::SaveSeen
                } else {
                    After::Remove
                }
            },
            Err(e) => {
                self.fail(path, sig, e.as_str(), "");
                After::Leave
            },
        }
    }

    /// What is noted once a taken file was removed, or could not be. One that
    /// is gone is forgotten, so that the same file dropped again has to hold
    /// still once more.
    pub fn removed(&mut self, path: &str, sig: Sig, outcome: Result<(), String>)
        requires
            old(self).wf(),
        ensures
            final(self).wf(),
            final(self).prev == old(self).prev,
            final(self).seen == old(self).seen,
            final(self).picked == old(self).picked,
            final(self).lists_as(*old(self), path@),
            match outcome {
                Ok(_) => {
                    &&& final(self).now.at(path@) is None
                    &&& final(self).failed.at(path@) is None
                    &&& forall|k: Seq<char>|
                        k != path@ ==> #[trigger] final(self).now.at(k) == old(self).now.at(k)
                },
                Err(e) => {
                    &&& final(self).now == old(self).now
                    &&& fails_as(
                        final(self).failed.at(path@),
                        sig,
                        KEPT@ + ": "@ + e@,
                        Seq::empty(),
                    )
                },
            },
    {
        match outcome {
            Ok(_) => {
                self.now.remove(path);
                self.failed.remove(path);
            },
            Err(e) => {
                let msg: String = glue3(KEPT, ": ", e.as_str());
                self.fail(path, sig, msg.as_str(), "");
            },
        }
    }

    /// Ends a pass: only what it saw is carried over.
    pub fn end_pass(&mut self)
        requires
            old(self).wf(),
        ensures
            final(self).wf(),
            final(self).prev == old(self).now,
            forall|k: Seq<char>| (#[trigger] final(self).now.at(k)) is None,
            final(self).seen == old(self).seen,
            final(self).failed == old(self).failed,
            final(self).picked == old(self).picked,
    {
        let mut seen: Book<Sig> = Book::new();
        std::mem::swap(&mut seen, &mut self.now);
        self.prev = seen;
    }

    /// Drops the listed and the left files that are no longer there, and says
    /// whether any of those left is gone.
    pub fn forget(&mut self, there: &Vec<String>) -> (r: bool)
        requires
            old(self).wf(),
        ensures
            final(self).wf(),
            final(self).prev == old(self).prev,
            final(self).now == old(self).now,
            final(self).picked == old(self).picked,
            forall|k: Seq<char>| #[trigger]
                final(self).failed.at(k) == if there.deep_view().contains(k) {
                    old(self).failed.at(k)
                } else {
                    None
                },
            forall|k: Seq<char>| #[trigger]
                final(self).seen.at(k) == if there.deep_view().contains(k) {
                    old(self).seen.at(k)
                } else {
                    None
                },
            r == (exists|k: Seq<char>|
                (#[trigger] old(self).seen.at(k)) is Some && !there.deep_view().contains(k)),
    {
        let _failed: bool = self.failed.keep_only(there);
        self.seen.keep_only(there)
    }
}

/// Whether a folder's watcher is set up anew, and whether that is because the
/// folder is another one: also while none could be set up.
pub fn rearm(watched: &Option<String>, dir: &Option<String>, armed: bool) -> (r: (bool, bool))
    ensures
        r.1 == (watched.deep_view() != dir.deep_view()),
        r.0 == (watched.deep_view() != dir.deep_view() || (!armed && dir is Some)),
{
    let fresh: bool = match (watched, dir) {
        (Some(a), Some(b)) => !same(a.as_str(), b.as_str()),
        (None, None) => false,
        _ => true,
    };
    (fresh || (!armed && dir.is_some()), fresh)
}

/// How long to wait for the next pass, in seconds.
pub fn pass_interval(secs: u64) -> (r: u64)
    ensures
        1 <= r <= 3_600,
        1 <= secs <= 3_600 ==> r == secs,
        secs < 1 ==> r == 1,
        secs > 3_600 ==> r == 3_600,
{
    if secs < 1 {
        1
    } else if secs > 3_600 {
        3_600
    } else {
        secs
    }
}

/// A file that was taken in and left where it is is looked at again once it
/// has changed, and not before.
pub proof fn a_kept_file_is_left_alone_until_it_changes(seen: Seen, prev: Option<Sig>, sig: Sig)
    ensures
        look_verdict(Some(seen), prev, sig) == Look::Skip <==> seen.sig == sig,
{
}

/// What was taken in and left where it is stays known: a start that reads what
/// was saved leaves alone the files that were left alone before, and looks at
/// the others as if nothing had been known of them.
pub proof fn a_kept_file_is_left_alone_after_a_restart(
    w: Watch,
    bytes: Seq<u8>,
    fresh: Watch,
    path: Seq<char>,
    sig: Sig,
)
    requires
        w.saved_as(bytes),
        fresh.loaded_from(Some(bytes)),
    ensures
        mark_of(fresh.seen.at(path)) == mark_of(w.seen.at(path)),
        look_verdict(fresh.seen.at(path), None, sig) == look_verdict(w.seen.at(path), None, sig),
{
    assert(mark_of(fresh.seen.at(path)) == mark_of(w.seen.at(path)));
    match (fresh.seen.at(path), w.seen.at(path)) {
        (Some(a), Some(b)) => {
            assert(a.sig == b.sig);
        },
        _ => {},
    }
}

/// A file that is listed is tried again once it has changed, and not before.
pub proof fn a_listed_file_is_left_alone_until_it_changes(f: Fail, sig: Sig)
    ensures
        read_verdict(Some(f), sig, true) == Next::Skip <==> f.sig == sig,
{
}

/// A file that is not whole never goes to the queue.
pub proof fn an_unfinished_file_is_never_taken(f: Option<Fail>, sig: Sig)
    ensures
        read_verdict(f, sig, false) == Next::Skip,
{
}

// ---- laws -----------------------------------------------------------------

/// Each of the fixed messages has a state of its own, one that could not be
/// removed is kept, and any other message means that the file was rejected.
pub proof fn which_state_a_message_means(msg: &str, r: &'static str)
    requires
        call_ensures(watch_fail_kind, (msg,), r),
    ensures
        msg@ == "truncated: no closing </nzb>"@ ==> r@ == "truncated"@,
        msg@ == "already queued"@ ==> r@ == "queued"@,
        msg@ == "already downloaded"@ ==> r@ == "done"@,
        msg@ == "queued, but queue.json could not be written"@ ==> r@ == "unsaved"@,
        msg@ != "truncated: no closing </nzb>"@ && msg@ != "already queued"@ && msg@
            != "already downloaded"@ && msg@ != "queued, but queue.json could not be written"@ && (
        has_prefix(msg@, "queued, but the file could not be removed"@)) ==> r@ == "kept"@,
        msg@ != "truncated: no closing </nzb>"@ && msg@ != "already queued"@ && msg@
            != "already downloaded"@ && msg@ != "queued, but queue.json could not be written"@
            && !has_prefix(msg@, "queued, but the file could not be removed"@) ==> r@
            == "rejected"@,
{
    reveal_strlit("truncated: no closing </nzb>");
    reveal_strlit("already queued");
    reveal_strlit("already downloaded");
    reveal_strlit("queued, but queue.json could not be written");
    assert("truncated: no closing </nzb>"@[0] == 't');
    assert("already queued"@[0] == 'a' && "already downloaded"@[0] == 'a');
    assert("queued, but queue.json could not be written"@[0] == 'q');
    assert("already queued"@[8] == 'q' && "already downloaded"@[8] == 'd');
}

/// The release is in hand in four of the states.
pub proof fn in_which_states_the_release_is_in_hand(kind: &str, r: bool)
    requires
        call_ensures(watch_fail_ingested, (kind,), r),
    ensures
        kind@ == "queued"@ || kind@ == "done"@ || kind@ == "unsaved"@ || kind@ == "kept"@ ==> r,
        kind@ != "queued"@ && kind@ != "done"@ && kind@ != "unsaved"@ && kind@ != "kept"@ ==> !r,
{
}

/// A file is read exactly where it is an NZB that can be looked at and was not
/// taken in as it is; it has settled where it was the same in the pass before.
/// What is seen of it is noted, and of no other file.
pub proof fn which_files_are_read(
    w: &mut Watch,
    path: &str,
    ext: Option<&str>,
    sig: Option<Sig>,
    r: Look,
    other: Seq<char>,
)
    requires
        old(w).wf(),
        call_ensures(Watch::look, (w, path, ext, sig), r),
    ensures
        ext is None || sig is None ==> r == Look::Skip && *final(w) == *old(w),
        ext is Some && lowered(ext->0@) != lowered("nzb"@) ==> r == Look::Skip && *final(w) == *old(w),
        ext is Some && lowered(ext->0@) == lowered("nzb"@) && sig is Some ==> final(w).now.at(path@)
            == sig,
        ext is Some && lowered(ext->0@) == lowered("nzb"@) && sig is Some && old(w).seen.at(path@)
            is Some && old(w).seen.at(path@)->0.sig == sig->0 ==> r == Look::Skip,
        ext is Some && lowered(ext->0@) == lowered("nzb"@) && sig is Some && (old(w).seen.at(path@)
            is None || old(w).seen.at(path@)->0.sig != sig->0) ==> r == (Look::Read {
            settled: old(w).prev.at(path@) == sig,
        }),
        other != path@ ==> final(w).now.at(other) == old(w).now.at(other),
        final(w).prev == old(w).prev && final(w).seen == old(w).seen && final(w).failed
            == old(w).failed,
{
}

/// A file that is not whole is never taken in, and is listed as truncated only
/// once it has settled and was not listed; a whole one goes on unless it is
/// listed as it is.
pub proof fn what_reading_a_file_leads_to(
    w: &mut Watch,
    path: &str,
    sig: Sig,
    settled: bool,
    complete: bool,
    r: Next,
)
    requires
        old(w).wf(),
        call_ensures(Watch::read, (w, path, sig, settled, complete), r),
    ensures
        !complete ==> r == Next::Skip,
        complete && old(w).failed.at(path@) is Some && old(w).failed.at(path@)->0.sig == sig ==> r
            == Next::Skip,
        complete && (old(w).failed.at(path@) is None || old(w).failed.at(path@)->0.sig != sig) ==> r
            == Next::GoOn,
        !complete && settled && old(w).failed.at(path@) is None ==> final(w).failed.at(path@)
            is Some && final(w).failed.at(path@)->0.msg@ == "truncated: no closing </nzb>"@
            && final(w).failed.at(path@)->0.sig == sig,
        complete || !settled || old(w).failed.at(path@) is Some ==> final(w).failed == old(w).failed,
{
}

/// A file goes to the queue only where it did not change while it was read and
/// is neither queued nor downloaded; otherwise it is listed with the job that
/// has it, but for one that changed, which waits.
pub proof fn which_files_go_to_the_queue(
    w: &mut Watch,
    path: &str,
    sig: Sig,
    after: Option<Sig>,
    sha: &str,
    queue: &Vec<Job>,
    history: &Vec<Job>,
    r: Next,
)
    requires
        old(w).wf(),
        call_ensures(Watch::check, (w, path, sig, after, sha, queue, history), r),
    ensures
        after != Some(sig) ==> r == Next::Skip && final(w).failed == old(w).failed,
        after == Some(sig) && first_with(queue@, sha@, false) is Some ==> r == Next::Skip
            && final(w).failed.at(path@) is Some && final(w).failed.at(path@)->0.msg@
            == "already queued"@ && final(w).failed.at(path@)->0.id@ == first_with(
            queue@,
            sha@,
            false,
        )->0.nzo_id@,
        after == Some(sig) && first_with(queue@, sha@, false) is None && first_with(
            history@,
            sha@,
            true,
        ) is Some ==> r == Next::Skip && final(w).failed.at(path@) is Some && final(w).failed.at(
            path@,
        )->0.msg@ == "already downloaded"@,
        after == Some(sig) && first_with(queue@, sha@, false) is None && first_with(
            history@,
            sha@,
            true,
        ) is None ==> r == Next::GoOn && final(w).failed == old(w).failed,
{
}

/// A file is removed only once the queue has taken it and saved itself, and it
/// is not to be kept; one that is kept is noted, with what it holds. One that
/// the queue refused, or could not save, stays, and is listed with the reason.
pub proof fn what_becomes_of_a_queued_file(
    w: &mut Watch,
    path: &str,
    sig: Sig,
    sha: &str,
    p: Pick,
    outcome: Result<bool, String>,
    keep: bool,
    r: After,
)
    requires
        old(w).wf(),
        call_ensures(Watch::queued, (w, path, sig, sha, p, outcome, keep), r),
    ensures
        r == After::Remove <==> outcome == Ok::<bool, String>(true) && !keep,
        r == After::SaveSeen <==> outcome == Ok::<bool, String>(true) && keep,
        r == After::SaveSeen ==> final(w).seen.at(path@) is Some && final(w).seen.at(path@)->0.sig
            == sig && final(w).seen.at(path@)->0.sha@ == sha@ && final(w).failed.at(path@) is None,
        r != After::SaveSeen ==> final(w).seen == old(w).seen,
        outcome == Ok::<bool, String>(false) ==> final(w).failed.at(path@) is Some
            && final(w).failed.at(path@)->0.msg@ == "queued, but queue.json could not be written"@,
        outcome is Err ==> final(w).failed.at(path@) is Some && final(w).failed.at(path@)->0.msg@
            == outcome->Err_0@ && final(w).picked == old(w).picked,
        outcome is Ok ==> final(w).picked@.last() == p && final(w).picked@.len() <= 8,
        outcome is Ok && old(w).picked@.len() < 8 ==> final(w).picked@ == old(w).picked@.push(p),
{
}

/// A file that was removed is forgotten; one that could not be is listed, with
/// why.
pub proof fn what_is_noted_of_a_removal(
    w: &mut Watch,
    path: &str,
    sig: Sig,
    outcome: Result<(), String>,
    r: (),
    other: Seq<char>,
)
    requires
        old(w).wf(),
        call_ensures(Watch::removed, (w, path, sig, outcome), r),
    ensures
        outcome is Ok ==> final(w).now.at(path@) is None && final(w).failed.at(path@) is None,
        outcome is Err ==> final(w).failed.at(path@) is Some && final(w).failed.at(path@)->0.msg@
            == "queued, but the file could not be removed"@ + ": "@ + outcome->Err_0@
            && final(w).now == old(w).now,
        other != path@ ==> final(w).failed.at(other) == old(w).failed.at(other),
        final(w).seen == old(w).seen && final(w).prev == old(w).prev,
{
}

/// The files of a pass are those that the next one compares with.
pub proof fn a_pass_is_compared_with_the_next(w: &mut Watch, r: (), k: Seq<char>)
    requires
        old(w).wf(),
        call_ensures(Watch::end_pass, (w,), r),
    ensures
        final(w).prev == old(w).now,
        final(w).now.at(k) is None,
        final(w).seen == old(w).seen && final(w).failed == old(w).failed,
{
}

/// A file that is no longer there is forgotten, one that is there is not.
pub proof fn which_files_are_forgotten(w: &mut Watch, there: &Vec<String>, r: bool, k: Seq<char>)
    requires
        old(w).wf(),
        call_ensures(Watch::forget, (w, there), r),
    ensures
        there.deep_view().contains(k) ==> final(w).failed.at(k) == old(w).failed.at(k)
            && final(w).seen.at(k) == old(w).seen.at(k),
        !there.deep_view().contains(k) ==> final(w).failed.at(k) is None && final(w).seen.at(k)
            is None,
        final(w).prev == old(w).prev && final(w).now == old(w).now,
{
}

/// A watcher is set up anew where the folder is another one, and while there
/// is a folder and no watcher.
pub proof fn when_a_watcher_is_set_up_anew(
    watched: &Option<String>,
    dir: &Option<String>,
    armed: bool,
    r: (bool, bool),
)
    requires
        call_ensures(rearm, (watched, dir, armed), r),
    ensures
        r.1 <==> watched.deep_view() != dir.deep_view(),
        r.1 ==> r.0,
        *dir is Some && !armed ==> r.0,
        watched.deep_view() == dir.deep_view() && armed ==> !r.0,
        *dir is None && *watched is None ==> !r.0,
{
}

/// A pass comes every second at the most and every hour at the least.
pub proof fn how_often_a_pass_comes(secs: u64, r: u64)
    requires
        call_ensures(pass_interval, (secs,), r),
    ensures
        1 <= r <= 3_600,
        r == secs || (secs == 0 && r == 1) || (secs > 3_600 && r == 3_600),
{
}

/// A handle is written in hexadecimal, two digits for each byte, the higher
/// first.
pub proof fn how_a_handle_is_written(bytes: Seq<u8>, i: int)
    requires
        0 <= i < bytes.len(),
    ensures
        hex_of(bytes).len() == 2 * bytes.len(),
        hex_of(bytes)[2 * i] == hex_char(bytes[i] as int / 16),
        hex_of(bytes)[2 * i + 1] == hex_char(bytes[i] as int % 16),
        bytes[i] < 16 ==> hex_of(bytes)[2 * i] == '0',
        hex_char(0) == '0' && hex_char(9) == '9' && hex_char(10) == 'a' && hex_char(15) == 'f',
{
}

/// The handle of a file is the first eight bytes of its digest.
pub proof fn what_the_handle_of_a_file_is(digest: &Vec<u8>, r: String)
    requires
        digest@.len() >= 8,
        call_ensures(id_of_digest, (digest,), r),
    ensures
        r@ == hex_of(digest@.take(8)),
        r@.len() == 16,
{
}

/// One more file of a list stands in the table under its path.
pub proof fn what_a_table_holds(
    list: Seq<(String, u64, u64, String)>,
    f: (String, u64, u64, String),
)
    ensures
        table_of(Seq::empty()) == Map::<Seq<char>, (u64, u64, Seq<char>)>::empty(),
        table_of(list.push(f)) == table_of(list).insert(f.0@, (f.1, f.2, f.3@)),
{
    assert(list.push(f).drop_last() =~= list);
}

} // verus!
