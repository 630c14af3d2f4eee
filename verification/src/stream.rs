//! Serving media to players: which file, which bytes of it, and how far ahead
//! of the player the download is steered.
use crate::job::{Job, JobState};
use crate::text::{
    chars_of, decimal, ends_with, glue, glue3, has_prefix, has_suffix, lower, lowered, parse_u64,
    parsed_bounds, parsed_u64, starts_with, text_of, to_decimal,
};
use crate::value::{entries, entry, object, uint, uint_json, Json, Value};
use vstd::prelude::*;

verus! {

// ---- which file -----------------------------------------------------------

/// Whether a name has the extension of a media file, in any case.
pub open spec fn media_name(name: Seq<char>) -> bool {
    let l = lowered(name);
    ||| has_suffix(l, ".mkv"@)
    ||| has_suffix(l, ".mp4"@)
    ||| has_suffix(l, ".avi"@)
    ||| has_suffix(l, ".m4v"@)
    ||| has_suffix(l, ".ts"@)
    ||| has_suffix(l, ".wmv"@)
}

/// Whether a name is that of something a player wants.
pub fn is_media_name(name: &str) -> (r: bool)
    ensures
        r == media_name(name@),
{
    let l: String = lower(name);
    ends_with(l.as_str(), ".mkv") || ends_with(l.as_str(), ".mp4") || ends_with(
        l.as_str(),
        ".avi",
    ) || ends_with(l.as_str(), ".m4v") || ends_with(l.as_str(), ".ts") || ends_with(
        l.as_str(),
        ".wmv",
    )
}

/// A file that is being written.
pub struct Output {
    pub name: String,
    pub size: u64,
}

/// Whether `k` is the place of the media file that a player wants: the
/// largest, and the first of those as large.
pub open spec fn is_feature(list: Seq<Output>, k: int) -> bool {
    &&& 0 <= k < list.len()
    &&& media_name(list[k].name@)
    &&& forall|j: int|
        0 <= j < list.len() && media_name((#[trigger] list[j]).name@) ==> list[j].size
            <= list[k].size && (j < k ==> list[j].size < list[k].size)
}

/// Whether none of the files is media.
pub open spec fn no_media(list: Seq<Output>) -> bool {
    forall|j: int| 0 <= j < list.len() ==> !media_name((#[trigger] list[j]).name@)
}

/// The place of the media file that a player wants.
pub fn pick_media(list: &Vec<Output>) -> (r: Option<usize>)
    ensures
        match r {
            Some(k) => is_feature(list@, k as int),
            None => no_media(list@),
        },
{
    let mut best: Option<usize> = None;
    let mut i: usize = 0;
    while i < list.len()
        invariant
            i <= list@.len(),
            match best {
                Some(k) => is_feature(list@.take(i as int), k as int),
                None => forall|j: int|
                    0 <= j < i ==> !media_name((#[trigger] list@[j]).name@),
            },
        decreases list@.len() - i,
    {
        let ghost part = list@.take(i as int);
        let ghost next = list@.take(i + 1);
        if is_media_name(list[i].name.as_str()) {
            let better: bool = match best {
                Some(k) => list[i].size > list[k].size,
                None => true,
            };
            if better {
                proof {
                    assert forall|j: int|
                        0 <= j < next.len() && media_name((#[trigger] next[j]).name@) implies next[j].size
                        <= next[i as int].size && (j < i ==> next[j].size < next[i as int].size) by {
                        if j < i {
                            assert(next[j] == list@[j]);
                            assert(part[j] == list@[j]);
                        }
                    }
                }
                best = Some(i);
            } else {
                proof {
                    let k = best->0 as int;
                    assert forall|j: int|
                        0 <= j < next.len() && media_name((#[trigger] next[j]).name@) implies next[j].size
                        <= next[k].size && (j < k ==> next[j].size < next[k].size) by {
                        if j < i {
                            assert(part[j] == list@[j]);
                        }
                    }
                }
            }
        } else {
            proof {
                if let Some(kk) = best {
                    let k = kk as int;
                    assert forall|j: int|
                        0 <= j < next.len() && media_name((#[trigger] next[j]).name@) implies next[j].size
                        <= next[k].size && (j < k ==> next[j].size < next[k].size) by {
                        assert(j < i);
                        assert(part[j] == list@[j]);
                    }
                }
            }
        }
        i = i + 1;
    }
    assert(list@.take(list@.len() as int) =~= list@);
    best
}

/// The finished media file of a job: in a folder that it shares, only the
/// episode that it filed; in its own, the largest.
pub fn finished_media_path(filed: bool, episode: Option<String>, largest: Option<String>) -> (r:
    Option<String>)
    ensures
        r == (if filed {
            episode
        } else {
            largest
        }),
{
    if filed {
        episode
    } else {
        largest
    }
}

// ---- looking through a finished download ----------------------------------

/// How deep the walk goes.
pub const MAX_DEPTH: u32 = 4;

/// How many entries the walk looks at.
pub const MAX_ENTRIES: usize = 5_000;

/// What a directory entry is. A link is a link, whatever it points at.
#[derive(Clone, Copy, PartialEq, Eq, Structural, Debug)]
pub enum EntryKind {
    Folder,
    File(u64),
    /// A link, something else, or something unreadable.
    Other,
}

/// An entry that a walk has looked at.
pub ghost struct Looked {
    pub path: Seq<char>,
    pub name: Seq<char>,
    pub kind: EntryKind,
}

/// Whether an entry is a media file.
pub open spec fn is_media_file(e: Looked) -> bool {
    e.kind is File && media_name(e.name)
}

/// What is found among entries that were looked at one after the other: a
/// media file takes the place of a smaller one.
pub open spec fn found_in(looked: Seq<Looked>) -> Option<(u64, Seq<char>)>
    decreases looked.len(),
{
    if looked.len() == 0 {
        None
    } else {
        let best = found_in(looked.drop_last());
        let e = looked.last();
        if is_media_file(e) && (best is None || e.kind->File_0 > (best->0).0) {
            Some((e.kind->File_0, e.path))
        } else {
            best
        }
    }
}

/// A walk through a folder for its largest media file.
pub struct MediaWalk {
    /// Folders still to be listed, with their depth.
    pub stack: Vec<(String, u32)>,
    /// How many entries were looked at.
    pub seen: usize,
    /// The largest media file so far, and its size.
    pub best: Option<(u64, String)>,
    /// The entries that were looked at, in order.
    pub looked: Ghost<Seq<Looked>>,
}

impl MediaWalk {
    /// The largest media file so far, as its size and path.
    pub open spec fn found(self) -> Option<(u64, Seq<char>)> {
        match self.best {
            Some(b) => Some((b.0, b.1@)),
            None => None,
        }
    }

    /// Whether the walk keeps its bounds, and has found what there is to find
    /// among the entries that it has looked at.
    pub open spec fn wf(self) -> bool {
        &&& self.seen <= MAX_ENTRIES
        &&& self.looked@.len() == self.seen
        &&& self.found() == found_in(self.looked@)
        &&& forall|i: int| 0 <= i < self.stack@.len() ==> (#[trigger] self.stack@[i]).1 <= MAX_DEPTH
    }

    /// A walk that starts at `dir`.
    pub fn new(dir: &str) -> (r: MediaWalk)
        ensures
            r.wf(),
            r.seen == 0,
            r.best is None,
            r.looked@ == Seq::<Looked>::empty(),
            r.stack@.len() == 1,
            r.stack@[0].0@ == dir@,
            r.stack@[0].1 == 0,
    {
        MediaWalk { stack: vec![(dir.to_owned(), 0)], seen: 0, best: None, looked: Ghost(Seq::empty()) }
    }

    /// The next folder to list, the one found last first.
    pub fn next_folder(&mut self) -> (r: Option<(String, u32)>)
        requires
            old(self).wf(),
        ensures
            final(self).wf(),
            final(self).seen == old(self).seen,
            final(self).best == old(self).best,
            final(self).looked == old(self).looked,
            match r {
                Some(f) => old(self).stack@.len() > 0 && f == old(self).stack@.last()
                    && final(self).stack@ == old(self).stack@.drop_last() && f.1 <= MAX_DEPTH,
                None => old(self).stack@.len() == 0 && final(self).stack@ == old(self).stack@,
            },
    {
        let r = self.stack.pop();
        assert(forall|i: int|
            0 <= i < self.stack@.len() ==> self.stack@[i] == old(self).stack@[i]);
        r
    }

    /// Looks at one entry of a folder at `depth`. Says no when the walk has
    /// looked at all it may.
    pub fn visit(&mut self, path: &str, name: &str, kind: EntryKind, depth: u32) -> (r: bool)
        requires
            old(self).wf(),
        ensures
            final(self).wf(),
            r == (old(self).seen < MAX_ENTRIES),
            visited(*old(self), path@, name@, kind, depth, *final(self)),
    {
        if self.seen >= MAX_ENTRIES {
            return false;
        }
        self.seen = self.seen + 1;
        let ghost before = self.looked@;
        self.looked = Ghost(before.push(Looked { path: path@, name: name@, kind }));
        assert(self.looked@.drop_last() =~= before);
        match kind {
            EntryKind::Folder => {
                if depth < MAX_DEPTH {
                    let ghost before = self.stack@;
                    self.stack.push((path.to_owned(), depth + 1));
                    assert(forall|i: int| 0 <= i < before.len() ==> self.stack@[i] == before[i]);
                    assert(self.stack@.drop_last() =~= before);
                }
            },
            EntryKind::File(size) => {
                let larger: bool = match &self.best {
                    Some(b) => size > b.0,
                    None => true,
                };
                if larger && is_media_name(name) {
                    self.best = Some((size, path.to_owned()));
                }
            },
            EntryKind::Other => {},
        }
        true
    }
}

/// What looking at one entry does to a walk.
pub open spec fn visited(
    old: MediaWalk,
    path: Seq<char>,
    name: Seq<char>,
    kind: EntryKind,
    depth: u32,
    new: MediaWalk,
) -> bool {
    if old.seen >= MAX_ENTRIES {
        new == old
    } else {
        &&& new.seen == old.seen + 1
        &&& new.looked@ == old.looked@.push(Looked { path, name, kind })
        &&& if kind == EntryKind::Folder && depth < MAX_DEPTH {
            &&& new.stack@.len() == old.stack@.len() + 1
            &&& new.stack@.drop_last() == old.stack@
            &&& new.stack@.last().0@ == path
            &&& new.stack@.last().1 == depth + 1
        } else {
            new.stack == old.stack
        }
        &&& if kind matches EntryKind::File(size) && media_name(name) && (match old.best {
            Some(b) => size > b.0,
            None => true,
        }) {
            new.best matches Some(b) && b.0 == kind->File_0 && b.1@ == path
        } else {
            new.best == old.best
        }
    }
}

/// A link is neither followed nor served: it changes nothing but the count.
pub proof fn a_link_is_never_served(
    old: MediaWalk,
    path: Seq<char>,
    name: Seq<char>,
    depth: u32,
    new: MediaWalk,
)
    requires
        visited(old, path, name, EntryKind::Other, depth, new),
    ensures
        new.stack == old.stack,
        new.best == old.best,
{
}

/// Of entries that were looked at, what is found is as large as every media
/// file among them and is one of them, the first of those as large; nothing is
/// found where there is none.
proof fn found_is_the_largest(looked: Seq<Looked>)
    ensures
        match found_in(looked) {
            Some(b) => {
                &&& exists|i: int|
                    0 <= i < looked.len() && is_media_file(#[trigger] looked[i]) && looked[i].path
                        == b.1 && looked[i].kind->File_0 == b.0 && forall|j: int|
                        0 <= j < i && is_media_file(#[trigger] looked[j])
                            ==> looked[j].kind->File_0 < b.0
                &&& forall|j: int|
                    0 <= j < looked.len() && is_media_file(#[trigger] looked[j])
                        ==> looked[j].kind->File_0 <= b.0
            },
            None => forall|j: int| 0 <= j < looked.len() ==> !is_media_file(#[trigger] looked[j]),
        },
    decreases looked.len(),
{
    if looked.len() > 0 {
        let rest = looked.drop_last();
        let n = looked.len() - 1;
        found_is_the_largest(rest);
        assert(forall|j: int| 0 <= j < n ==> #[trigger] looked[j] == rest[j]);
        match found_in(rest) {
            Some(b) => {
                if found_in(looked) == Some(b) {
                    let i = choose|i: int|
                        0 <= i < rest.len() && is_media_file(#[trigger] rest[i]) && rest[i].path
                            == b.1 && rest[i].kind->File_0 == b.0 && forall|j: int|
                            0 <= j < i && is_media_file(#[trigger] rest[j])
                                ==> rest[j].kind->File_0 < b.0;
                    assert(looked[i] == rest[i]);
                    assert forall|j: int| 0 <= j < i && is_media_file(
                        #[trigger] looked[j],
                    ) implies looked[j].kind->File_0 < b.0 by {
                        assert(rest[j] == looked[j]);
                    }
                } else {
                    assert(is_media_file(looked[n]));
                    assert forall|j: int| 0 <= j < n && is_media_file(
                        #[trigger] looked[j],
                    ) implies looked[j].kind->File_0 < looked[n].kind->File_0 by {
                        assert(rest[j] == looked[j]);
                    }
                }
            },
            None => {
                assert forall|j: int| 0 <= j < n implies !is_media_file(#[trigger] looked[j]) by {
                    assert(rest[j] == looked[j]);
                }
                if found_in(looked) is Some {
                    assert(is_media_file(looked[n]));
                }
            },
        }
    }
}

/// What a walk has found is as large as every media file that it has looked
/// at, and is one of them, the first of those as large. It has found nothing
/// only where it has looked at no media file.
pub proof fn the_largest_media_file_is_found(w: MediaWalk)
    requires
        w.wf(),
    ensures
        match w.found() {
            Some(b) => {
                &&& exists|i: int|
                    0 <= i < w.looked@.len() && is_media_file(#[trigger] w.looked@[i])
                        && w.looked@[i].path == b.1 && w.looked@[i].kind->File_0 == b.0
                        && forall|j: int|
                        0 <= j < i && is_media_file(#[trigger] w.looked@[j])
                            ==> w.looked@[j].kind->File_0 < b.0
                &&& forall|j: int|
                    0 <= j < w.looked@.len() && is_media_file(#[trigger] w.looked@[j])
                        ==> w.looked@[j].kind->File_0 <= b.0
            },
            None => forall|j: int|
                0 <= j < w.looked@.len() ==> !is_media_file(#[trigger] w.looked@[j]),
        },
{
    found_is_the_largest(w.looked@);
}

// ---- which bytes ----------------------------------------------------------

/// The place of the first `-`.
pub open spec fn dash_at(s: Seq<char>) -> Option<int>
    decreases s.len(),
{
    if s.len() == 0 {
        None
    } else if s[0] == '-' {
        Some(0)
    } else {
        match dash_at(s.drop_first()) {
            Some(k) => Some(k + 1),
            None => None,
        }
    }
}

/// The half-open span of bytes that a range header asks for of a file of
/// `total` bytes, if it asks for any: `bytes=a-b` and `bytes=a-` from byte
/// `a` on, `bytes=-n` the last `n`.
pub open spec fn byte_span(v: Seq<char>, total: u64) -> Option<(u64, u64)> {
    let s = v.skip("bytes="@.len() as int);
    if !has_prefix(v, "bytes="@) || dash_at(s) is None {
        None
    } else {
        let k = dash_at(s)->0;
        let a = s.take(k);
        let b = s.skip(k + 1);
        if a.len() == 0 {
            match parsed_u64(b) {
                Some(n) if n > 0 && total > 0 => Some(
                    (
                        if n < total {
                            (total - n) as u64
                        } else {
                            0
                        },
                        total,
                    ),
                ),
                _ => None,
            }
        } else {
            let end = if b.len() == 0 {
                Some(total as int)
            } else {
                match parsed_u64(b) {
                    Some(e) => Some(
                        if e < total {
                            e + 1
                        } else {
                            total as int
                        },
                    ),
                    None => None,
                }
            };
            match (parsed_u64(a), end) {
                (Some(start), Some(e)) if start < e => Some((start as u64, e as u64)),
                _ => None,
            }
        }
    }
}

fn find_dash(chars: &Vec<char>, from: usize) -> (r: Option<usize>)
    requires
        from <= chars@.len(),
    ensures
        match r {
            Some(k) => from <= k < chars@.len() && dash_at(chars@.skip(from as int)) == Some(
                k - from,
            ),
            None => dash_at(chars@.skip(from as int)) is None,
        },
{
    let ghost s = chars@.skip(from as int);
    let mut i: usize = from;
    assert(s.skip(0) =~= s);
    while i < chars.len()
        invariant
            from <= i <= chars@.len(),
            s == chars@.skip(from as int),
            dash_at(s) == (match dash_at(s.skip(i - from)) {
                Some(k) => Some(k + (i - from)),
                None => None,
            }),
        decreases chars@.len() - i,
    {
        let ghost rest = s.skip(i - from);
        assert(rest[0] == chars@[i as int]);
        assert(rest.drop_first() =~= s.skip(i + 1 - from));
        if chars[i] == '-' {
            return Some(i);
        }
        i = i + 1;
    }
    assert(s.skip(i - from).len() == 0);
    None
}

/// The half-open span of bytes that a range header asks for, within a file of
/// `total` bytes. Nothing means the whole file.
pub fn byte_range(v: &str, total: u64) -> (r: Option<(u64, u64)>)
    ensures
        r == byte_span(v@, total),
{
    if !starts_with(v, "bytes=") {
        return None;
    }
    let unit: usize = chars_of("bytes=").len();
    let chars: Vec<char> = chars_of(v);
    let n: usize = chars.len();
    let ghost s = v@.skip(unit as int);
    let k: usize = match find_dash(&chars, unit) {
        Some(k) => k,
        None => {
            return None;
        },
    };
    let a: String = text_of(&chars, unit, k);
    let b: String = text_of(&chars, k + 1, n);
    assert(a@ =~= s.take(k - unit));
    assert(b@ =~= s.skip(k - unit + 1));
    proof {
        parsed_bounds(a@, 10, u64::MAX as int);
        parsed_bounds(b@, 10, u64::MAX as int);
    }
    if k == unit {
        assert(a@.len() == 0);
        return match parse_u64(b.as_str()) {
            Some(n) => if n > 0 && total > 0 {
                Some(
                    (
                        if n < total {
                            total - n
                        } else {
                            0
                        },
                        total,
                    ),
                )
            } else {
                None
            },
            None => None,
        };
    }
    let start: u64 = match parse_u64(a.as_str()) {
        Some(n) => n,
        None => {
            return None;
        },
    };
    let end: u64 = if b.as_str().is_empty() {
        total
    } else {
        match parse_u64(b.as_str()) {
            Some(e) => if e < total {
                e + 1
            } else {
                total
            },
            None => {
                return None;
            },
        }
    };
    if start < end {
        Some((start, end))
    } else {
        None
    }
}

/// A span that is handed out is never empty and lies within the file, so that
/// the length that is announced is the length that is sent.
pub proof fn every_accepted_range_fits_the_file(v: Seq<char>, total: u64)
    ensures
        byte_span(v, total) matches Some(p) ==> p.0 < p.1 <= total,
{
    let s = v.skip("bytes="@.len() as int);
    if let Some(k) = dash_at(s) {
        parsed_bounds(s.take(k), 10, u64::MAX as int);
        parsed_bounds(s.skip(k + 1), 10, u64::MAX as int);
    }
}

/// A request for the last bytes is answered with the last bytes: the span
/// ends where the file ends and holds as many as were asked for, or the whole
/// file where that is shorter.
pub proof fn a_tail_request_gets_the_tail(v: Seq<char>, n: u64, total: u64)
    requires
        has_prefix(v, "bytes="@),
        dash_at(v.skip("bytes="@.len() as int)) == Some(0int),
        parsed_u64(v.skip("bytes="@.len() as int).skip(1)) == Some(n as int),
        n > 0,
        total > 0,
    ensures
        byte_span(v, total) matches Some(p) && p.1 == total && p.1 - p.0 == if n < total {
            n
        } else {
            total
        },
{
}

// ---- the answer -----------------------------------------------------------

/// How a file is answered.
pub struct RangePlan {
    pub start: u64,
    pub end: u64,
    /// 206 for a part, 200 for the whole.
    pub status: u16,
    pub content_type: String,
    pub length: u64,
    /// What a part says of its place in the file.
    pub content_range: Option<String>,
}

/// How much of a span has to be there already for it not to be fetched first:
/// a byte at least, and no more than a megabyte.
pub fn head_start(length: u64) -> (r: u64)
    ensures
        r == (if length < 1 {
            1
        } else if length > 1_000_000 {
            1_000_000
        } else {
            length as int
        }),
{
    if length < 1 {
        1
    } else if length > 1_000_000 {
        1_000_000
    } else {
        length
    }
}

/// The type that a media file is announced with.
pub open spec fn media_type(name: Seq<char>) -> Seq<char> {
    if has_suffix(lowered(name), ".mp4"@) {
        "video/mp4"@
    } else {
        "video/x-matroska"@
    }
}

/// The span that is answered: the one asked for, or the whole file.
pub open spec fn span_or_all(range: Option<(u64, u64)>, total: u64) -> (u64, u64) {
    match range {
        Some(p) => p,
        None => (0, total),
    }
}

/// The span that a request asks for, if it has a range header.
pub open spec fn asked_span(header: Option<Seq<char>>, total: u64) -> Option<(u64, u64)> {
    match header {
        Some(v) => byte_span(v, total),
        None => None,
    }
}

/// How a file of `total` bytes called `name` is answered to a request with
/// that range header.
pub fn plan_range(header: &Option<String>, name: &str, total: u64) -> (r: RangePlan)
    ensures
        ({
            let asked = asked_span(header.deep_view(), total);
            let span = span_or_all(asked, total);
            &&& r.start == span.0 && r.end == span.1
            &&& r.start <= r.end <= total
            &&& r.length == r.end - r.start
            &&& r.status == if asked is Some {
                206u16
            } else {
                200u16
            }
            &&& r.content_type@ == media_type(name@)
            &&& r.content_range.deep_view() == if asked is Some {
                Some(
                    "bytes "@ + decimal(span.0 as int) + "-"@ + decimal(span.1 - 1) + "/"@
                        + decimal(total as int),
                )
            } else {
                None
            }
        }),
{
    let asked: Option<(u64, u64)> = match header {
        Some(v) => byte_range(v.as_str(), total),
        None => None,
    };
    proof {
        if let Some(v) = header.deep_view() {
            every_accepted_range_fits_the_file(v, total);
        }
    }
    let (start, end): (u64, u64) = match asked {
        Some(p) => p,
        None => (0, total),
    };
    let content_type: String = if ends_with(lower(name).as_str(), ".mp4") {
        "video/mp4".to_owned()
    } else {
        "video/x-matroska".to_owned()
    };
    let content_range: Option<String> = if asked.is_some() {
        let a: String = glue3("bytes ", to_decimal(start).as_str(), "-");
        let b: String = glue3(a.as_str(), to_decimal(end - 1).as_str(), "/");
        Some(glue(b.as_str(), to_decimal(total).as_str()))
    } else {
        None
    };
    RangePlan {
        start,
        end,
        status: if asked.is_some() {
            206
        } else {
            200
        },
        content_type,
        length: end - start,
        content_range,
    }
}

// ---- the player's request -------------------------------------------------

/// What is known of the job that a request names, where it is in the history.
#[derive(Clone, Copy, PartialEq, Eq, Structural, Debug)]
pub struct ParkedJob {
    pub library: bool,
    pub fetched: bool,
    pub completed: bool,
    pub tombstone: bool,
}

/// What is known of a job of the history.
pub fn parked_of(j: &Job) -> (r: ParkedJob)
    ensures
        r == (ParkedJob {
            library: j.library,
            fetched: j.fetched,
            completed: j.state == JobState::Completed,
            tombstone: j.tombstone,
        }),
{
    ParkedJob {
        library: j.library,
        fetched: j.fetched,
        completed: j.state == JobState::Completed,
        tombstone: j.tombstone,
    }
}

/// Brings the job at a place of the history back to the front of the queue,
/// forced, so that it starts even while the queue is paused.
pub fn play_now(history: &mut Vec<Job>, queue: &mut Vec<Job>, at: usize)
    requires
        at < old(history)@.len(),
    ensures
        final(history)@ == old(history)@.remove(at as int),
        final(queue)@ == old(queue)@.insert(
            0,
            Job {
                state: JobState::Queued,
                priority: 2,
                paused: false,
                ..old(history)@[at as int]
            },
        ),
{
    let mut job: Job = history.remove(at);
    job.state = JobState::Queued;
    job.priority = 2;
    job.paused = false;
    queue.insert(0, job);
}

/// What a request for a stream leads to.
#[derive(Clone, Copy, PartialEq, Eq, Structural, Debug)]
pub enum StreamStep {
    /// Nothing of that name: 404.
    Unknown,
    /// Starting the download needs a key or a token.
    NeedsKeyToStart,
    /// Playing the finished download needs a key or a token.
    NeedsKeyToPlay,
    /// Bring the job back to the front of the queue, and wait for its media.
    Start,
    /// Serve the finished file from disk.
    ServeFinished,
    /// Wait for the media of a running download.
    WaitForMedia,
    /// Serve the running download if it has media, and do not wait.
    ServeLive,
}

/// Whether a job is a library entry that was never fetched: playing it starts
/// its download.
pub open spec fn starts_on_play(j: ParkedJob) -> bool {
    j.library && !j.fetched && j.completed
}

/// Whether a job's bytes are on disk.
pub open spec fn on_disk(j: ParkedJob) -> bool {
    j.completed && j.fetched && !j.tombstone
}

/// What a request leads to. Without an id it is for the running download.
/// Both what changes the queue and what hands out a finished download want a
/// key.
pub open spec fn stream_step_of(
    wants: bool,
    parked: Option<ParkedJob>,
    queued: bool,
    authed: bool,
) -> StreamStep {
    if !wants {
        StreamStep::ServeLive
    } else {
        match parked {
            None => if queued {
                StreamStep::WaitForMedia
            } else {
                StreamStep::Unknown
            },
            Some(j) => if starts_on_play(j) {
                if authed {
                    StreamStep::Start
                } else {
                    StreamStep::NeedsKeyToStart
                }
            } else if on_disk(j) {
                if authed {
                    StreamStep::ServeFinished
                } else {
                    StreamStep::NeedsKeyToPlay
                }
            } else {
                StreamStep::WaitForMedia
            },
        }
    }
}

/// What a request leads to.
pub fn stream_step(wants: bool, parked: Option<ParkedJob>, queued: bool, authed: bool) -> (r:
    StreamStep)
    ensures
        r == stream_step_of(wants, parked, queued, authed),
{
    if !wants {
        return StreamStep::ServeLive;
    }
    match parked {
        None => if queued {
            StreamStep::WaitForMedia
        } else {
            StreamStep::Unknown
        },
        Some(j) => if j.library && !j.fetched && j.completed {
            if authed {
                StreamStep::Start
            } else {
                StreamStep::NeedsKeyToStart
            }
        } else if j.completed && j.fetched && !j.tombstone {
            if authed {
                StreamStep::ServeFinished
            } else {
                StreamStep::NeedsKeyToPlay
            }
        } else {
            StreamStep::WaitForMedia
        },
    }
}

/// A request without a key neither starts a download nor gets a finished one.
pub proof fn a_keyless_request_changes_nothing(
    wants: bool,
    parked: Option<ParkedJob>,
    queued: bool,
)
    ensures
        stream_step_of(wants, parked, queued, false) != StreamStep::Start,
        stream_step_of(wants, parked, queued, false) != StreamStep::ServeFinished,
{
}

/// A short answer: a status and a line of text.
pub struct Reply {
    pub status: u16,
    pub body: String,
}

/// The refusal of a request that needs a key; too many of them are blocked.
pub open spec fn refusal(step: StreamStep, blocked: bool) -> (u16, Seq<char>) {
    if blocked {
        (429, "too many bad keys"@)
    } else if step == StreamStep::NeedsKeyToStart {
        (401, "starting this download needs an apikey or stream token (?t=)"@)
    } else {
        (401, "playing a finished download needs an apikey or stream token (?t=)"@)
    }
}

/// The refusal of a request that needs a key.
pub fn refuse(step: StreamStep, blocked: bool) -> (r: Reply)
    ensures
        (r.status, r.body@) == refusal(step, blocked),
{
    if blocked {
        Reply { status: 429, body: "too many bad keys".to_owned() }
    } else if step == StreamStep::NeedsKeyToStart {
        Reply {
            status: 401,
            body: "starting this download needs an apikey or stream token (?t=)".to_owned(),
        }
    } else {
        Reply {
            status: 401,
            body: "playing a finished download needs an apikey or stream token (?t=)".to_owned(),
        }
    }
}

/// What to do while waiting for media.
#[derive(Clone, Copy, PartialEq, Eq, Structural, Debug)]
pub enum WaitStep {
    Serve,
    GiveUp,
    Sleep,
}

/// How long a request with an id waits for media, in milliseconds.
pub const MEDIA_WAIT_MS: u64 = 30_000;

/// What to do while waiting: serve the media of the job that was asked for as
/// soon as there is any, give up when the time is over.
pub fn wait_step(
    wants: bool,
    owner_matches: bool,
    has_media: bool,
    waited_ms: u64,
) -> (r: WaitStep)
    ensures
        r == (if (!wants || owner_matches) && has_media {
            WaitStep::Serve
        } else if waited_ms >= (if wants {
            MEDIA_WAIT_MS
        } else {
            0
        }) {
            WaitStep::GiveUp
        } else {
            WaitStep::Sleep
        }),
{
    let limit: u64 = if wants {
        MEDIA_WAIT_MS
    } else {
        0
    };
    if (!wants || owner_matches) && has_media {
        WaitStep::Serve
    } else if waited_ms >= limit {
        WaitStep::GiveUp
    } else {
        WaitStep::Sleep
    }
}

// ---- the probe ------------------------------------------------------------

/// What a look at the container came to.
pub enum Probe {
    /// What the file is, and whether everything about it could be read.
    Found { media: Value, complete: bool },
    /// Too little has arrived to tell.
    NotYet,
    /// It cannot be read.
    Failed(String),
}

/// How much of a running download there is.
pub struct Coverage {
    pub size: u64,
    /// How many bytes there are from the start without a gap.
    pub head_bytes: u64,
    /// The share of the file that this is, in percent.
    pub pct: Value,
    pub tail_ok: bool,
}

/// The coverage as it is answered.
pub open spec fn coverage_json(c: Coverage) -> Json {
    Json::Object(
        seq![
            ("head_bytes"@, uint_json(c.head_bytes as int)),
            ("pct"@, c.pct@),
            ("tail_ok"@, Json::Bool(c.tail_ok)),
        ],
    )
}

/// Where the tail that is kept at hand begins.
pub open spec fn tail_start(size: u64) -> u64 {
    if size > TAIL_KEEP {
        (size - TAIL_KEEP) as u64
    } else {
        0
    }
}

/// The answer of a probe of a running download.
pub struct LiveProbe {
    pub file: String,
    pub size: u64,
    pub source: String,
    pub coverage: Value,
    pub pending: Option<bool>,
    pub media: Option<Value>,
    pub error: Option<String>,
    /// Whether the index of the file is in bytes that have not arrived.
    pub need_tail: bool,
}

/// What a probe of a running download is answered.
pub open spec fn live_probe_of(name: Seq<char>, c: Coverage, probe: Probe, r: LiveProbe) -> bool {
    &&& r.file@ == name
    &&& r.size == c.size
    &&& r.source@ == "live"@
    &&& r.coverage@ == coverage_json(c)
    &&& match probe {
        Probe::Found { media, complete } => {
            &&& r.pending == Some(!complete)
            &&& r.media == Some(media)
            &&& r.error is None
            &&& r.need_tail == (!complete && !c.tail_ok)
        },
        Probe::NotYet => {
            &&& r.pending == Some(true)
            &&& r.media is None
            &&& r.error is None
            &&& !r.need_tail
        },
        Probe::Failed(e) => {
            &&& r.pending is None
            &&& r.media is None
            &&& r.error == Some(e)
            &&& !r.need_tail
        },
    }
}

/// What a probe of a running download is answered, and whether to ask for the
/// tail of the file. The coverage is that after the look at the container.
pub fn fill_live_probe(name: &str, c: Coverage, probe: Probe) -> (r: LiveProbe)
    ensures
        live_probe_of(name@, c, probe, r),
{
    let list: Vec<(String, Value)> = vec![
        entry("head_bytes", uint(c.head_bytes)),
        entry("pct", c.pct.copy()),
        entry("tail_ok", Value::Bool(c.tail_ok)),
    ];
    assert(entries(list@) =~= coverage_json(c)->Object_0);
    let coverage: Value = object(list);
    let (pending, media, error, need_tail) = match probe {
        Probe::Found { media, complete } => (
            Some(!complete),
            Some(media),
            None,
            !complete && !c.tail_ok,
        ),
        Probe::NotYet => (Some(true), None, None, false),
        Probe::Failed(e) => (None, None, Some(e), false),
    };
    LiveProbe {
        file: name.to_owned(),
        size: c.size,
        source: "live".to_owned(),
        coverage,
        pending,
        media,
        error,
        need_tail,
    }
}

/// What a probe request leads to.
#[derive(Clone, Copy, PartialEq, Eq, Structural, Debug)]
pub enum ProbeStep {
    /// Look at the running download.
    Live,
    /// Look at the finished file.
    Disk,
    /// Neither running nor finished: 404.
    Unknown,
    /// Finished, but there is nothing to play: 404.
    NoFile,
}

/// What a probe request leads to.
pub fn probe_step(live: bool, in_history: bool, has_file: bool) -> (r: ProbeStep)
    ensures
        r == (if live {
            ProbeStep::Live
        } else if !in_history {
            ProbeStep::Unknown
        } else if !has_file {
            ProbeStep::NoFile
        } else {
            ProbeStep::Disk
        }),
{
    if live {
        ProbeStep::Live
    } else if !in_history {
        ProbeStep::Unknown
    } else if !has_file {
        ProbeStep::NoFile
    } else {
        ProbeStep::Disk
    }
}

// ---- steering the download ------------------------------------------------

/// How far ahead of the player the download is steered, in bytes.
pub const SEEK_READAHEAD: u64 = 32_000_000;

/// How close the player comes to the end of what is steered before it is
/// moved on.
pub const ROLL_MARGIN: u64 = 12_000_000;

/// How much of the end of the file is kept at hand.
pub const TAIL_KEEP: u64 = 8_000_000;

/// How much before the player's place is asked for too.
pub const PRE_ROLL: u64 = 4_000_000;

/// How many bytes one read hands out at most.
pub const CHUNK: u64 = 262_144;

/// How long a reader waits for bytes before it gives up, in milliseconds.
pub const SPAN_WAIT_MS: u64 = 300_000;

/// The runway without a setting.
pub const DEFAULT_RUNWAY: u64 = 16_000_000;

/// How much has to be there after a stall before a player is served again:
/// what the environment says in megabytes, or the default.
pub fn stream_runway(env: &Option<String>) -> (r: u64)
    requires
        env.deep_view() matches Some(s) ==> (parsed_u64(s) matches Some(mb) ==> mb * 1_000_000
            <= u64::MAX),
    ensures
        r == (match env.deep_view() {
            Some(s) => match parsed_u64(s) {
                Some(mb) => mb * 1_000_000,
                None => DEFAULT_RUNWAY as int,
            },
            None => DEFAULT_RUNWAY as int,
        }),
{
    match env {
        Some(s) => match parse_u64(s.as_str()) {
            Some(mb) => mb * 1_000_000,
            None => DEFAULT_RUNWAY,
        },
        None => DEFAULT_RUNWAY,
    }
}

/// Where the steered span ends for a player at `pos`.
pub open spec fn ahead(pos: u64, size: u64) -> int {
    if pos + SEEK_READAHEAD < size {
        pos + SEEK_READAHEAD
    } else {
        size as int
    }
}

/// The spans that are asked for at once for a player at `pos`: from a little
/// before it to the read-ahead, and, while it has not arrived, the tail of
/// the file.
pub fn promote_playhead(pos: u64, size: u64, tail_covered: bool) -> (r: (Vec<(u64, u64)>, u64))
    requires
        pos + SEEK_READAHEAD <= u64::MAX,
    ensures
        r.1 == ahead(pos, size),
        r.0@ == ({
            let play = seq![
                (
                    if pos > PRE_ROLL {
                        (pos - PRE_ROLL) as u64
                    } else {
                        0
                    },
                    ahead(pos, size) as u64,
                ),
            ];
            if tail_covered {
                play
            } else {
                play.push((tail_start(size), size))
            }
        }),
{
    let end: u64 = if pos + SEEK_READAHEAD < size {
        pos + SEEK_READAHEAD
    } else {
        size
    };
    let start: u64 = if pos > PRE_ROLL {
        pos - PRE_ROLL
    } else {
        0
    };
    let mut spans: Vec<(u64, u64)> = Vec::new();
    spans.push((start, end));
    if !tail_covered {
        let tail: u64 = if size > TAIL_KEEP {
            size - TAIL_KEEP
        } else {
            0
        };
        spans.push((tail, size));
    }
    (spans, end)
}

/// A reader that follows a running download.
pub struct LiveRangeReader {
    pub pos: u64,
    pub end: u64,
    /// The size of the whole file.
    pub size: u64,
    /// Where the last steered span ends.
    pub promoted_to: u64,
    /// Which of the requests for streams this one is.
    pub generation: u64,
}

impl LiveRangeReader {
    /// Whether the reader is within its file.
    pub open spec fn wf(self) -> bool {
        self.pos <= self.end <= self.size && self.size + SEEK_READAHEAD <= u64::MAX
    }

    /// How many bytes the next read is for.
    pub open spec fn chunk(self, want: u64) -> int {
        let left = self.end - self.pos;
        let a = if want < left {
            want as int
        } else {
            left
        };
        if a < CHUNK {
            a
        } else {
            CHUNK as int
        }
    }

    /// How many bytes the next read is for; none at the end.
    pub fn next_len(&self, want: u64) -> (r: u64)
        requires
            self.wf(),
        ensures
            r == self.chunk(want),
            self.pos + r <= self.end,
    {
        let left: u64 = self.end - self.pos;
        let a: u64 = if want < left {
            want
        } else {
            left
        };
        if a < CHUNK {
            a
        } else {
            CHUNK
        }
    }

    /// Whether this is the newest of the requests that are alive: only that
    /// one steers the download.
    pub fn newest_alive(&self, newest: Option<u64>) -> (r: bool)
        ensures
            r == (newest == Some(self.generation)),
    {
        match newest {
            Some(g) => g == self.generation,
            None => false,
        }
    }

    /// Whether the steered span has to be moved on before this read: the
    /// player is close to its end, and it does not reach the end of the file.
    pub fn should_roll(&self, current: bool) -> (r: bool)
        requires
            self.wf(),
        ensures
            r == (current && self.promoted_to < self.size && self.pos + ROLL_MARGIN
                > self.promoted_to),
    {
        current && self.promoted_to < self.size && self.pos + ROLL_MARGIN > self.promoted_to
    }

    /// How many bytes have to be there after a stall, for a read of `n`.
    pub fn runway(&self, n: u64, runway: u64) -> (r: u64)
        requires
            self.wf(),
        ensures
            r == ({
                let left = self.end - self.pos;
                let far = if left < runway {
                    left
                } else {
                    runway as int
                };
                if far > n {
                    far
                } else {
                    n as int
                }
            }),
    {
        let left: u64 = self.end - self.pos;
        let far: u64 = if left < runway {
            left
        } else {
            runway
        };
        if far > n {
            far
        } else {
            n
        }
    }

    /// Moves on by what was read.
    pub fn advance(&mut self, n: u64)
        requires
            old(self).wf(),
            old(self).pos + n <= old(self).end,
        ensures
            final(self).wf(),
            *final(self) == (LiveRangeReader { pos: (old(self).pos + n) as u64, ..*old(self) }),
    {
        self.pos = self.pos + n;
    }
}

/// What a stalled reader does after it has waited.
#[derive(Clone, Copy, PartialEq, Eq, Structural, Debug)]
pub enum StallStep {
    /// Ask for the span once more, then wait on.
    AskAgain,
    /// Wait on.
    Wait,
    /// The span never came.
    TimedOut,
}

/// What a stalled reader does after `waited_ms`: every two seconds it asks
/// again if it is the newest, and after five minutes it gives up.
pub fn stall_step(waited_ms: u64, newest: bool) -> (r: StallStep)
    ensures
        r == (if waited_ms > SPAN_WAIT_MS {
            StallStep::TimedOut
        } else if waited_ms % 2_000 == 0 && newest {
            StallStep::AskAgain
        } else {
            StallStep::Wait
        }),
{
    if waited_ms > SPAN_WAIT_MS {
        StallStep::TimedOut
    } else if waited_ms % 2_000 == 0 && newest {
        StallStep::AskAgain
    } else {
        StallStep::Wait
    }
}

/// A read never goes past the end of its span, and brings something as long
/// as the player wants something and there is something left.
pub proof fn a_read_stays_within_its_span(s: LiveRangeReader, want: u64)
    requires
        s.wf(),
    ensures
        s.pos + s.chunk(want) <= s.end,
        want > 0 && s.pos < s.end ==> s.chunk(want) > 0,
{
}

// ---- library pointers -----------------------------------------------------

/// The line of a library pointer: the address that plays the job.
pub fn strm_line(port: u16, nzo_id: &str, token: &str) -> (r: String)
    ensures
        r@ == "http://127.0.0.1:"@ + decimal(port as int) + "/stream/"@ + nzo_id@ + "?t="@ + token@
            + "\n"@,
{
    let a: String = glue3("http://127.0.0.1:", to_decimal(port as u64).as_str(), "/stream/");
    let b: String = glue3(a.as_str(), nzo_id, "?t=");
    glue3(b.as_str(), token, "\n")
}

// ---- laws -----------------------------------------------------------------

/// What a request leads to. Without an id it is for the running download. An
/// id that stands neither in the queue nor in the history is unknown, and no
/// other is. Media is waited for where the id stands in the queue alone, or in
/// the history as a job that is neither to be started nor on disk.
pub proof fn what_a_request_leads_to(
    wants: bool,
    parked: Option<ParkedJob>,
    queued: bool,
    authed: bool,
    r: StreamStep,
)
    requires
        call_ensures(stream_step, (wants, parked, queued, authed), r),
    ensures
        r == StreamStep::ServeLive <==> !wants,
        r == StreamStep::Unknown <==> wants && parked is None && !queued,
        wants && parked is None && queued ==> r == StreamStep::WaitForMedia,
        r == StreamStep::Start <==> wants && parked is Some && parked->0.library
            && !parked->0.fetched && parked->0.completed && authed,
        r == StreamStep::NeedsKeyToStart <==> wants && parked is Some && parked->0.library
            && !parked->0.fetched && parked->0.completed && !authed,
        r == StreamStep::ServeFinished <==> wants && parked is Some && parked->0.completed
            && parked->0.fetched && !parked->0.tombstone && authed,
        r == StreamStep::NeedsKeyToPlay <==> wants && parked is Some && parked->0.completed
            && parked->0.fetched && !parked->0.tombstone && !authed,
        r == StreamStep::WaitForMedia <==> wants && ((parked is None && queued) || (parked is Some
            && !(parked->0.library && !parked->0.fetched && parked->0.completed) && !(
        parked->0.completed && parked->0.fetched && !parked->0.tombstone))),
{
}

/// Whether a key is shown changes nothing but that what needs one is refused:
/// the same request with a key is started or served where without one it is
/// asked for a key to start or to play, and is answered the same otherwise.
pub proof fn a_key_only_opens_what_needs_one(
    wants: bool,
    parked: Option<ParkedJob>,
    queued: bool,
    with: StreamStep,
    without: StreamStep,
)
    requires
        call_ensures(stream_step, (wants, parked, queued, true), with),
        call_ensures(stream_step, (wants, parked, queued, false), without),
    ensures
        with == StreamStep::Start <==> without == StreamStep::NeedsKeyToStart,
        with == StreamStep::ServeFinished <==> without == StreamStep::NeedsKeyToPlay,
        with != StreamStep::Start && with != StreamStep::ServeFinished ==> with == without,
{
}

/// What is known of a job of the history is what the job says.
pub proof fn what_is_known_of_a_parked_job(j: &Job, r: ParkedJob)
    requires
        call_ensures(parked_of, (j,), r),
    ensures
        r.library == j.library && r.fetched == j.fetched && r.tombstone == j.tombstone,
        r.completed <==> j.state == JobState::Completed,
{
}

/// A played job leaves the history for the front of the queue, where it is
/// forced and not paused; every other job stays, in its order.
pub proof fn a_played_job_goes_to_the_front(
    history: &mut Vec<Job>,
    queue: &mut Vec<Job>,
    at: usize,
    r: (),
    k: int,
)
    requires
        at < old(history)@.len(),
        call_ensures(play_now, (history, queue, at), r),
    ensures
        final(queue)@.len() == old(queue)@.len() + 1,
        final(history)@.len() == old(history)@.len() - 1,
        final(queue)@[0].nzo_id == old(history)@[at as int].nzo_id,
        final(queue)@[0].state == JobState::Queued && final(queue)@[0].priority == 2
            && !final(queue)@[0].paused,
        final(queue)@[0].library == old(history)@[at as int].library
            && final(queue)@[0].nzb_sha == old(history)@[at as int].nzb_sha,
        0 <= k < old(queue)@.len() ==> final(queue)@[k + 1] == old(queue)@[k],
        0 <= k < at ==> final(history)@[k] == old(history)@[k],
        at < k < old(history)@.len() ==> final(history)@[k - 1] == old(history)@[k],
{
}

/// Too many bad keys are answered as such, whatever was asked for; else a key
/// is asked for, in words that say what for. No refusal is a success.
pub proof fn how_a_keyless_request_is_refused(step: StreamStep, blocked: bool, r: Reply)
    requires
        call_ensures(refuse, (step, blocked), r),
    ensures
        r.status == 429 <==> blocked,
        r.status == 401 <==> !blocked,
        blocked ==> r.body@ == "too many bad keys"@,
        !blocked && step == StreamStep::NeedsKeyToStart ==> r.body@
            == "starting this download needs an apikey or stream token (?t=)"@,
        !blocked && step == StreamStep::NeedsKeyToPlay ==> r.body@
            == "playing a finished download needs an apikey or stream token (?t=)"@,
{
}

/// Media is served as soon as it is there and is that of the job asked for;
/// otherwise a request with an id waits for half a minute and one without does
/// not wait at all.
pub proof fn how_long_media_is_waited_for(
    wants: bool,
    owner_matches: bool,
    has_media: bool,
    waited_ms: u64,
    r: WaitStep,
)
    requires
        call_ensures(wait_step, (wants, owner_matches, has_media, waited_ms), r),
    ensures
        r == WaitStep::Serve <==> has_media && (owner_matches || !wants),
        r == WaitStep::GiveUp <==> !(has_media && (owner_matches || !wants)) && (!wants || waited_ms
            >= 30_000),
        r == WaitStep::Sleep <==> wants && waited_ms < 30_000 && !(has_media && owner_matches),
{
}

/// A probe looks at the running download first, at the finished file where
/// there is one, and is unknown where the job is neither.
pub proof fn where_a_probe_looks(live: bool, in_history: bool, has_file: bool, r: ProbeStep)
    requires
        call_ensures(probe_step, (live, in_history, has_file), r),
    ensures
        r == ProbeStep::Live <==> live,
        r == ProbeStep::Disk <==> !live && in_history && has_file,
        r == ProbeStep::NoFile <==> !live && in_history && !has_file,
        r == ProbeStep::Unknown <==> !live && !in_history,
{
}

/// What a probe of a running download is answered: what was found, whether
/// more is to come, and an error only where it failed; the tail is asked for
/// exactly where something was found, not all of it, and the tail is missing.
pub proof fn what_a_probe_is_answered(name: &str, c: Coverage, probe: Probe, r: LiveProbe)
    requires
        call_ensures(fill_live_probe, (name, c, probe), r),
    ensures
        r.file@ == name@ && r.size == c.size && r.source@ == "live"@,
        r.error is Some <==> probe is Failed,
        r.media is Some <==> probe is Found,
        r.pending is None <==> probe is Failed,
        r.pending == Some(true) <==> probe is NotYet || (probe is Found && !probe->complete),
        r.need_tail <==> probe is Found && !probe->complete && !c.tail_ok,
        probe matches Probe::Failed(e) ==> r.error == Some(e),
        probe is Found ==> r.media == Some(probe->media),
{
}

/// In a shared folder only the episode that the job filed is its media.
pub proof fn a_shared_folder_gives_only_the_own_episode(
    filed: bool,
    episode: Option<String>,
    largest: Option<String>,
    r: Option<String>,
)
    requires
        call_ensures(finished_media_path, (filed, episode, largest), r),
    ensures
        filed ==> r == episode,
        !filed ==> r == largest,
{
}

/// A name is that of a media file whichever of the six extensions it has, in
/// any case; what is in front of the extension does not matter.
pub proof fn which_names_are_media(stem: Seq<char>, ext: Seq<char>)
    requires
        lowered(ext) == ".mkv"@ || lowered(ext) == ".mp4"@ || lowered(ext) == ".avi"@ || lowered(
            ext,
        ) == ".m4v"@ || lowered(ext) == ".ts"@ || lowered(ext) == ".wmv"@,
    ensures
        media_name(stem + ext),
{
    assert(lowered(stem + ext) =~= lowered(stem) + lowered(ext));
    let l = lowered(stem) + lowered(ext);
    assert(l.skip(l.len() - lowered(ext).len()) =~= lowered(ext));
}

/// What is asked to be there before a span is served: all of it, but a byte
/// at least and a megabyte at most.
pub proof fn how_much_of_a_span_has_to_be_there(length: u64, r: u64)
    requires
        call_ensures(head_start, (length,), r),
    ensures
        1 <= r <= 1_000_000,
        1 <= length <= 1_000_000 ==> r == length,
        length == 0 ==> r == 1,
        length > 1_000_000 ==> r == 1_000_000,
{
}

/// A part is answered as such, with its place in the file, and the whole as
/// the whole; what is announced is as long as the span, which starts and ends
/// where it was asked for.
pub proof fn a_part_is_answered_as_a_part(
    header: &Option<String>,
    name: &str,
    total: u64,
    r: RangePlan,
)
    requires
        call_ensures(plan_range, (header, name, total), r),
    ensures
        r.status == 206 || r.status == 200,
        r.status == 206 <==> r.content_range is Some,
        *header is None ==> r.status == 200,
        r.status == 200 ==> r.start == 0 && r.end == total,
        r.status == 206 ==> r.start < r.end,
        r.length == r.end - r.start,
        r.start <= r.end <= total,
        r.status == 206 ==> r.content_range->0@ == "bytes "@ + decimal(r.start as int) + "-"@
            + decimal(r.end - 1) + "/"@ + decimal(total as int),
        has_suffix(lowered(name@), ".mp4"@) ==> r.content_type@ == "video/mp4"@,
        !has_suffix(lowered(name@), ".mp4"@) ==> r.content_type@ == "video/x-matroska"@,
{
    if let Some(v) = header.deep_view() {
        every_accepted_range_fits_the_file(v, total);
    }
}

proof fn the_dash_is_found(a: Seq<char>, b: Seq<char>)
    requires
        forall|i: int| 0 <= i < a.len() ==> a[i] != '-',
    ensures
        dash_at(a + seq!['-'] + b) == Some(a.len() as int),
    decreases a.len(),
{
    let s = a + seq!['-'] + b;
    if a.len() > 0 {
        assert(s.drop_first() =~= a.drop_first() + seq!['-'] + b);
        assert forall|i: int| 0 <= i < a.drop_first().len() implies a.drop_first()[i] != '-' by {
            assert(a.drop_first()[i] == a[i + 1]);
        }
        the_dash_is_found(a.drop_first(), b);
    }
}

/// `bytes=a-b` asks for the bytes from the first number to the second, the
/// second one too, cut at the end of the file; `bytes=a-` for all from the
/// first number on; and what begins at or after the end, or ends before it
/// begins, is no span.
pub proof fn a_range_gives_the_bytes_that_it_names(
    a: Seq<char>,
    b: Seq<char>,
    start: u64,
    last: u64,
    total: u64,
)
    requires
        a.len() > 0,
        forall|i: int| 0 <= i < a.len() ==> a[i] != '-',
        parsed_u64(a) == Some(start as int),
    ensures
        start < total ==> byte_span("bytes="@ + a + seq!['-'], total) == Some((start, total)),
        start >= total ==> byte_span("bytes="@ + a + seq!['-'], total) is None,
        b.len() > 0 && parsed_u64(b) == Some(last as int) && start <= last < total ==> byte_span(
            "bytes="@ + a + seq!['-'] + b,
            total,
        ) == Some((start, (last + 1) as u64)),
        b.len() > 0 && parsed_u64(b) == Some(last as int) && start < total <= last ==> byte_span(
            "bytes="@ + a + seq!['-'] + b,
            total,
        ) == Some((start, total)),
        b.len() > 0 && parsed_u64(b) == Some(last as int) && (start > last || start >= total)
            ==> byte_span("bytes="@ + a + seq!['-'] + b, total) is None,
{
    let p = "bytes="@;
    let none = Seq::<char>::empty();
    let v = p + a + seq!['-'];
    let w = p + a + seq!['-'] + b;
    assert(v.take(p.len() as int) =~= p);
    assert(w.take(p.len() as int) =~= p);
    assert(v.skip(p.len() as int) =~= a + seq!['-'] + none);
    assert(w.skip(p.len() as int) =~= a + seq!['-'] + b);
    the_dash_is_found(a, none);
    the_dash_is_found(a, b);
    let s = v.skip(p.len() as int);
    let t = w.skip(p.len() as int);
    assert(s.take(a.len() as int) =~= a);
    assert(t.take(a.len() as int) =~= a);
    assert(s.skip(a.len() as int + 1) =~= none);
    assert(t.skip(a.len() as int + 1) =~= b);
}

/// A header in another unit, or without a dash, asks for no span: the whole
/// file is meant.
pub proof fn another_unit_means_the_whole_file(v: Seq<char>, total: u64)
    requires
        !has_prefix(v, "bytes="@) || forall|i: int| 0 <= i < v.len() ==> v[i] != '-',
    ensures
        byte_span(v, total) is None,
{
    if has_prefix(v, "bytes="@) {
        let s = v.skip("bytes="@.len() as int);
        assert forall|i: int| 0 <= i < s.len() implies s[i] != '-' by {
            assert(s[i] == v[i + "bytes="@.len()]);
        }
        nothing_without_a_dash(s);
    }
}

proof fn nothing_without_a_dash(s: Seq<char>)
    requires
        forall|i: int| 0 <= i < s.len() ==> s[i] != '-',
    ensures
        dash_at(s) is None,
    decreases s.len(),
{
    if s.len() > 0 {
        assert forall|i: int| 0 <= i < s.drop_first().len() implies s.drop_first()[i] != '-' by {
            assert(s.drop_first()[i] == s[i + 1]);
        }
        nothing_without_a_dash(s.drop_first());
    }
}

/// What is asked for at once for a player reaches from four megabytes before
/// it to thirty-two after it, within the file; the last eight megabytes are
/// asked for too exactly while they are missing.
pub proof fn what_is_asked_for_a_player(
    pos: u64,
    size: u64,
    tail_covered: bool,
    r: (Vec<(u64, u64)>, u64),
)
    requires
        pos + 32_000_000 <= u64::MAX,
        call_ensures(promote_playhead, (pos, size, tail_covered), r),
    ensures
        r.1 <= size,
        pos + 32_000_000 < size ==> r.1 == pos + 32_000_000,
        pos + 32_000_000 >= size ==> r.1 == size,
        r.0@.len() == if tail_covered {
            1int
        } else {
            2
        },
        r.0@[0].1 == r.1,
        pos >= 4_000_000 ==> r.0@[0].0 == pos - 4_000_000,
        pos < 4_000_000 ==> r.0@[0].0 == 0,
        !tail_covered ==> r.0@[1].1 == size,
        !tail_covered && size >= 8_000_000 ==> r.0@[1].0 == size - 8_000_000,
        !tail_covered && size < 8_000_000 ==> r.0@[1].0 == 0,
{
}

/// A read is for as much as the player wants, for no more than is left of the
/// span, and for a quarter of a mebibyte at most.
pub proof fn how_long_a_read_is(s: &LiveRangeReader, want: u64, r: u64)
    requires
        s.wf(),
        call_ensures(LiveRangeReader::next_len, (s, want), r),
    ensures
        r <= want && r <= 262_144 && s.pos + r <= s.end,
        r == want || r == 262_144 || s.pos + r == s.end,
{
}

/// Only the newest request that is alive steers the download.
pub proof fn only_the_newest_request_steers(s: &LiveRangeReader, newest: Option<u64>, r: bool)
    requires
        call_ensures(LiveRangeReader::newest_alive, (s, newest), r),
    ensures
        r ==> newest is Some && newest->0 == s.generation,
        newest == Some(s.generation) ==> r,
{
}

/// The steered span is moved on by the newest request alone, when the player
/// is within twelve megabytes of its end, and never once it reaches the end of
/// the file.
pub proof fn when_the_steered_span_moves_on(s: &LiveRangeReader, current: bool, r: bool)
    requires
        s.wf(),
        call_ensures(LiveRangeReader::should_roll, (s, current), r),
    ensures
        !current ==> !r,
        s.promoted_to >= s.size ==> !r,
        s.promoted_to >= s.pos + 12_000_000 ==> !r,
        current && s.promoted_to < s.size && s.promoted_to < s.pos + 12_000_000 ==> r,
{
}

/// After a stall as much as the runway has to be there, but no more than is
/// left of the span, and never less than the read itself.
pub proof fn how_much_a_stalled_reader_waits_for(
    s: &LiveRangeReader,
    n: u64,
    runway: u64,
    r: u64,
)
    requires
        s.wf(),
        call_ensures(LiveRangeReader::runway, (s, n, runway), r),
    ensures
        r >= n,
        r == n || r == runway || s.pos + r == s.end,
        r > n ==> r <= runway && s.pos + r <= s.end,
        runway <= s.end - s.pos ==> r >= runway,
        runway > s.end - s.pos ==> s.pos + r >= s.end,
{
}

/// A reader moves on by exactly what was read and stays within its span.
pub proof fn a_reader_moves_on_by_what_was_read(s: &mut LiveRangeReader, n: u64, r: ())
    requires
        old(s).wf(),
        old(s).pos + n <= old(s).end,
        call_ensures(LiveRangeReader::advance, (s, n), r),
    ensures
        final(s).pos == old(s).pos + n,
        final(s).end == old(s).end && final(s).size == old(s).size && final(s).promoted_to
            == old(s).promoted_to && final(s).generation == old(s).generation,
{
}

/// A stalled reader gives up after five minutes and not before; until then
/// the newest one asks again every two seconds, and no other does.
pub proof fn what_a_stalled_reader_does(waited_ms: u64, newest: bool, r: StallStep)
    requires
        call_ensures(stall_step, (waited_ms, newest), r),
    ensures
        r == StallStep::TimedOut <==> waited_ms > 300_000,
        r == StallStep::AskAgain ==> newest && waited_ms % 2_000 == 0,
        newest && waited_ms <= 300_000 && waited_ms % 2_000 == 0 ==> r == StallStep::AskAgain,
{
}

/// The runway is what the environment says in megabytes, where that is a
/// number, and sixteen megabytes else.
pub proof fn how_long_the_runway_is(env: &Option<String>, r: u64)
    requires
        env.deep_view() matches Some(s) ==> (parsed_u64(s) matches Some(mb) ==> mb * 1_000_000
            <= u64::MAX),
        call_ensures(stream_runway, (env,), r),
    ensures
        *env is None ==> r == 16_000_000,
        *env is Some && parsed_u64(env->0@) is None ==> r == 16_000_000,
        *env is Some && parsed_u64(env->0@) is Some ==> r == 1_000_000 * parsed_u64(env->0@)->0,
{
}

/// A walk stops after five thousand entries, and lists no folder that lies
/// more than four below the one it began at.
pub proof fn a_walk_keeps_its_bounds(
    w: &mut MediaWalk,
    path: &str,
    name: &str,
    kind: EntryKind,
    depth: u32,
    r: bool,
)
    requires
        old(w).wf(),
        call_ensures(MediaWalk::visit, (w, path, name, kind, depth), r),
    ensures
        r <==> old(w).seen < 5_000,
        !r ==> *final(w) == *old(w),
        r ==> final(w).seen == old(w).seen + 1,
        final(w).stack@.len() > old(w).stack@.len() <==> r && kind == EntryKind::Folder && depth
            < 4,
        r && kind == EntryKind::Folder && depth < 4 ==> final(w).stack@.last().0@ == path@
            && final(w).stack@.last().1 == depth + 1,
        r && kind is File && media_name(name@) && old(w).best is None ==> final(w).best is Some
            && (final(w).best->0).0 == kind->File_0 && (final(w).best->0).1@ == path@,
        final(w).best != old(w).best ==> r && kind is File && media_name(name@),
{
}

/// The largest media file is picked, and of equals the first; nothing exactly
/// where none is media.
pub proof fn which_file_a_player_wants(list: &Vec<Output>, r: Option<usize>, j: int)
    requires
        0 <= j < list@.len(),
        call_ensures(pick_media, (list,), r),
    ensures
        media_name(list@[j].name@) ==> r is Some,
        r matches Some(k) ==> k < list@.len() && media_name(list@[k as int].name@),
        r is Some && media_name(list@[j].name@) ==> list@[j].size <= list@[r->0 as int].size,
        r is Some && media_name(list@[j].name@) && list@[j].size == list@[r->0 as int].size
            ==> r->0 <= j,
{
}

/// Folders are looked into from the top of the stack, and each once.
pub proof fn which_folder_is_next(w: &mut MediaWalk, r: Option<(String, u32)>)
    requires
        old(w).wf(),
        call_ensures(MediaWalk::next_folder, (w,), r),
    ensures
        r is None <==> old(w).stack@.len() == 0,
        r matches Some(f) ==> f == old(w).stack@.last() && final(w).stack@
            == old(w).stack@.drop_last(),
        final(w).seen == old(w).seen && final(w).best == old(w).best && final(w).looked
            == old(w).looked,
{
}

/// A pointer file holds the address under which the job is played, on one line.
pub proof fn what_a_pointer_holds(port: u16, nzo_id: &str, token: &str, r: String)
    requires
        call_ensures(strm_line, (port, nzo_id, token), r),
    ensures
        r@ == "http://127.0.0.1:"@ + decimal(port as int) + "/stream/"@ + nzo_id@ + "?t="@ + token@
            + "\n"@,
{
}

/// A name is media only by one of the extensions of video, in any case.
pub proof fn no_other_name_is_media(name: &str, r: bool)
    requires
        call_ensures(is_media_name, (name,), r),
    ensures
        r <==> has_suffix(lowered(name@), ".mkv"@) || has_suffix(lowered(name@), ".mp4"@)
            || has_suffix(lowered(name@), ".avi"@) || has_suffix(lowered(name@), ".m4v"@)
            || has_suffix(lowered(name@), ".ts"@) || has_suffix(lowered(name@), ".wmv"@),
{
}

/// What is served is a plain file, and has the name of media.
pub proof fn what_is_served_is_a_file(e: Looked)
    ensures
        is_media_file(e) ==> e.kind is File && media_name(e.name),
        e.kind is File && media_name(e.name) ==> is_media_file(e),
{
}

/// One more entry is found where it is media and larger than what was found
/// before, or the first.
pub proof fn what_one_more_entry_does(looked: Seq<Looked>, e: Looked)
    ensures
        found_in(Seq::empty()) is None,
        !(e.kind is File) || !media_name(e.name) ==> found_in(looked.push(e)) == found_in(looked),
        e.kind is File && media_name(e.name) && found_in(looked) is None ==> found_in(looked.push(e))
            == Some((e.kind->File_0, e.path)),
        e.kind is File && media_name(e.name) && found_in(looked) is Some && e.kind->File_0 > (
        found_in(looked)->0).0 ==> found_in(looked.push(e)) == Some((e.kind->File_0, e.path)),
        e.kind is File && media_name(e.name) && found_in(looked) is Some && e.kind->File_0 <= (
        found_in(looked)->0).0 ==> found_in(looked.push(e)) == found_in(looked),
{
    assert(looked.push(e).drop_last() =~= looked);
}

} // verus!
