//! Setters of paths, of the control port and of the categories.
use super::lists::{quote, quoted};
use super::outcome::{not_a_number, read_number, refused, taken, typed_number, Outcome};
use crate::daemon::{clamp, clamped, Action, CatDest, Daemon, Paths};
use crate::order::{insert_sorted, push_set, sorted, sorted_set};
use crate::text::{
    flag, glue, glue3, is_on, join, joined, list_of, parse_u64, same, split_list, trim, trimmed,
};
use crate::value::{text, uint, uint_json, Json, Value};
use vstd::prelude::*;

verus! {

/// An optional path as the settings page shows it: nothing is empty.
pub open spec fn shown_path(p: Option<Seq<char>>) -> Seq<char> {
    match p {
        Some(s) => s,
        None => Seq::empty(),
    }
}

/// An optional path as the settings page shows it: nothing is empty.
pub fn path_str(p: &Option<String>) -> (r: String)
    ensures
        r@ == shown_path(p.deep_view()),
{
    match p {
        Some(s) => s.clone(),
        None => String::new(),
    }
}

/// The path that a text means: nothing for an empty one.
pub open spec fn path_of(v: Seq<char>) -> Option<Seq<char>> {
    if trimmed(v).len() == 0 {
        None
    } else {
        Some(trimmed(v))
    }
}

fn read_path(v: &str) -> (r: Option<String>)
    ensures
        r.deep_view() == path_of(v@),
{
    let p: String = trim(v);
    if p.as_str().is_empty() {
        None
    } else {
        Some(p)
    }
}

/// What setting `watch` to a value comes to.
pub open spec fn watch_set(old: Daemon, v: Seq<char>, r: Outcome, new: Daemon) -> bool {
    &&& taken(r, true, Json::Text(trimmed(v)))
    &&& new == (Daemon {
        paths: Paths { watch_dir: new.paths.watch_dir, ..old.paths },
        todo: new.todo,
        ..old
    })
    &&& new.paths.watch_dir.deep_view() == path_of(v)
    &&& new.todo@ == if path_of(v) is None {
        old.todo@
    } else {
        old.todo@.push(Action::CreateWatchDir)
    }
}

/// Sets the watch folder, which is created if it can be.
pub fn set_watch(d: &mut Daemon, _name: &str, v: &str) -> (r: Outcome)
    ensures
        watch_set(*old(d), v@, r, *final(d)),
{
    let p: Option<String> = read_path(v);
    if p.is_some() {
        d.ask(Action::CreateWatchDir);
    }
    d.paths.watch_dir = p;
    Ok((true, text(trim(v).as_str())))
}

/// What setting `script` to a value comes to.
pub open spec fn script_set(old: Daemon, v: Seq<char>, r: Outcome, new: Daemon) -> bool {
    &&& taken(r, true, Json::Text(trimmed(v)))
    &&& new == (Daemon { paths: Paths { script: new.paths.script, ..old.paths }, ..old })
    &&& new.paths.script.deep_view() == path_of(v)
}

/// Sets the script that runs after a job.
pub fn set_script(d: &mut Daemon, v: &str) -> (r: Outcome)
    ensures
        script_set(*old(d), v@, r, *final(d)),
{
    d.paths.script = read_path(v);
    Ok((true, text(trim(v).as_str())))
}

/// What setting `script_timeout` to a value comes to.
pub open spec fn script_timeout_set(old: Daemon, v: Seq<char>, r: Outcome, new: Daemon) -> bool {
    match typed_number(v) {
        None => refused(
            old,
            r,
            new,
            "script_timeout_secs: a number of seconds, 0 = no limit"@,
        ),
        Some(n) => {
            &&& taken(r, true, uint_json(n))
            &&& new == (Daemon { paths: Paths { script_timeout: n as u64, ..old.paths }, ..old })
        },
    }
}

/// Sets how long a script may run; 0 is no limit.
pub fn set_script_timeout(d: &mut Daemon, v: &str) -> (r: Outcome)
    ensures
        script_timeout_set(*old(d), v@, r, *final(d)),
{
    match parse_u64(trim(v).as_str()) {
        None => Err("script_timeout_secs: a number of seconds, 0 = no limit".to_owned()),
        Some(n) => {
            d.paths.script_timeout = n;
            Ok((true, uint(n)))
        },
    }
}

/// What setting `delete_to_trash` to a value comes to.
pub open spec fn delete_to_trash_set(old: Daemon, v: Seq<char>, r: Outcome, new: Daemon) -> bool {
    &&& taken(r, true, Json::Bool(is_on(v)))
    &&& new == (Daemon { paths: Paths { delete_to_trash: is_on(v), ..old.paths }, ..old })
}

/// Sends cleaned-up files to the trash, or deletes them for good.
pub fn set_delete_to_trash(d: &mut Daemon, _name: &str, v: &str) -> (r: Outcome)
    ensures
        delete_to_trash_set(*old(d), v@, r, *final(d)),
{
    let on = flag(v);
    d.paths.delete_to_trash = on;
    Ok((true, Value::Bool(on)))
}

/// What setting `watch_interval_secs` to a value comes to.
pub open spec fn watch_interval_secs_set(
    old: Daemon,
    name: Seq<char>,
    v: Seq<char>,
    r: Outcome,
    new: Daemon,
) -> bool {
    match typed_number(v) {
        None => refused(old, r, new, not_a_number(name)),
        Some(k) => {
            let n = clamped(k, 1, 3600);
            &&& taken(r, true, uint_json(n))
            &&& new == (Daemon {
                paths: Paths { watch_interval_secs: n as u64, ..old.paths },
                todo: new.todo,
                ..old
            })
            &&& new.todo@ == old.todo@.push(Action::WatchScan)
        },
    }
}

/// Sets how often the watch folder is listed.
pub fn set_watch_interval_secs(d: &mut Daemon, name: &str, v: &str) -> (r: Outcome)
    ensures
        watch_interval_secs_set(*old(d), name@, v@, r, *final(d)),
{
    match read_number(name, v) {
        Err(e) => Err(e),
        Ok(k) => {
            let n: u64 = clamp(k, 1, 3600);
            d.paths.watch_interval_secs = n;
            d.ask(Action::WatchScan);
            Ok((true, uint(n)))
        },
    }
}

/// What setting `port` to a value comes to.
pub open spec fn port_set(
    old: Daemon,
    name: Seq<char>,
    v: Seq<char>,
    r: Outcome,
    new: Daemon,
) -> bool {
    match typed_number(v) {
        None => refused(old, r, new, not_a_number(name)),
        Some(p) => if !(1 <= p <= 65535) {
            refused(old, r, new, "port must be 1-65535"@)
        } else if old.paths.port_locked {
            refused(
                old,
                r,
                new,
                "this installation's port is set by how it was started (a container's published port, or the Synology package's own setting), so it can't be changed here. Change it where the port is published instead."@,
            )
        } else {
            &&& taken(r, false, uint_json(p))
            &&& new == old
        },
    }
}

/// Takes a new control port for the next start, unless the port is fixed by
/// how this one was started.
pub fn set_port(d: &mut Daemon, name: &str, v: &str) -> (r: Outcome)
    ensures
        port_set(*old(d), name@, v@, r, *final(d)),
{
    match read_number(name, v) {
        Err(e) => Err(e),
        Ok(p) => {
            if !(1 <= p && p <= 65535) {
                return Err("port must be 1-65535".to_owned());
            }
            if d.paths.port_locked {
                return Err(
                    "this installation's port is set by how it was started (a container's published port, or the Synology package's own setting), so it can't be changed here. Change it where the port is published instead.".to_owned(),
                );
            }
            Ok((false, uint(p)))
        },
    }
}

/// What setting `mem_limit` to a value comes to.
pub open spec fn mem_limit_set(
    old: Daemon,
    name: Seq<char>,
    size: Option<u64>,
    r: Outcome,
    new: Daemon,
) -> bool {
    match size {
        None => refused(old, r, new, super::outcome::bad_size(name)),
        Some(b) => {
            &&& taken(r, false, uint_json(b as int))
            &&& new == old
        },
    }
}

/// Takes a memory limit for the next start, from what was read of it.
pub fn set_mem_limit(d: &mut Daemon, name: &str, size: Option<u64>) -> (r: Outcome)
    ensures
        mem_limit_set(*old(d), name@, size, r, *final(d)),
{
    match size {
        Some(b) => Ok((false, uint(b))),
        None => Err(glue(name, ": bad size (e.g. 4M, 10G, 0 = off)")),
    }
}

/// What setting `index_db` to a value comes to.
pub open spec fn index_db_set(old: Daemon, v: Seq<char>, r: Outcome, new: Daemon) -> bool {
    if trimmed(v).len() == 0 {
        refused(old, r, new, "index_db can't be empty"@)
    } else {
        &&& taken(r, false, Json::Text(trimmed(v)))
        &&& new == old
    }
}

/// Takes a new place of the index database for the next start.
pub fn set_index_db(d: &mut Daemon, v: &str) -> (r: Outcome)
    ensures
        index_db_set(*old(d), v@, r, *final(d)),
{
    let p: String = trim(v);
    if p.as_str().is_empty() {
        return Err("index_db can't be empty".to_owned());
    }
    Ok((false, text(p.as_str())))
}

/// What the disk says of a folder: whether it is an absolute path, whether it
/// exists or could be made, whether it can be written to, and whether it is
/// the download folder.
pub struct DirProbe {
    pub absolute: Result<(), String>,
    pub made: Result<(), String>,
    pub writable: bool,
    pub is_out_root: bool,
}

/// The refusal of a folder that cannot be made or written to.
pub open spec fn unusable(p: Seq<char>, probe: DirProbe) -> Option<Seq<char>> {
    match probe.made {
        Err(e) => Some("can't use "@ + p + ": "@ + e@),
        Ok(_) => if probe.writable {
            None
        } else {
            Some(p + " is not writable"@)
        },
    }
}

fn why_unusable(p: &str, probe: &DirProbe) -> (r: Option<String>)
    ensures
        r.deep_view() == unusable(p@, *probe),
{
    match &probe.made {
        Err(e) => Some(glue(glue3("can't use ", p, ": ").as_str(), e.as_str())),
        Ok(_) => if probe.writable {
            None
        } else {
            Some(glue(p, " is not writable"))
        },
    }
}

/// What setting `out_dir` to a value comes to.
pub open spec fn out_dir_set(
    old: Daemon,
    v: Seq<char>,
    probe: DirProbe,
    r: Outcome,
    new: Daemon,
) -> bool {
    let p = trimmed(v);
    if p.len() == 0 {
        refused(old, r, new, "out_dir can't be empty"@)
    } else {
        match unusable(p, probe) {
            Some(e) => refused(old, r, new, e),
            None => {
                &&& taken(r, true, Json::Text(p))
                &&& new == (Daemon { paths: Paths { out_root: new.paths.out_root, ..old.paths }, ..old })
                &&& new.paths.out_root@ == p
            },
        }
    }
}

/// Sets the download folder, given what the disk says of it.
pub fn set_out_dir(d: &mut Daemon, _name: &str, v: &str, probe: &DirProbe) -> (r: Outcome)
    ensures
        out_dir_set(*old(d), v@, *probe, r, *final(d)),
{
    let p: String = trim(v);
    if p.as_str().is_empty() {
        return Err("out_dir can't be empty".to_owned());
    }
    if let Some(e) = why_unusable(p.as_str(), probe) {
        return Err(e);
    }
    let echo = text(p.as_str());
    d.paths.out_root = p;
    Ok((true, echo))
}

/// The refusal of a destination for finished downloads.
pub open spec fn bad_dest(p: Seq<char>, probe: DirProbe, itself: Seq<char>) -> Option<Seq<char>> {
    match probe.absolute {
        Err(e) => Some(e@),
        Ok(_) => match unusable(p, probe) {
            Some(e) => Some(e),
            None => if probe.is_out_root {
                Some(itself + " is the download folder itself - nothing to move"@)
            } else {
                None
            },
        },
    }
}

/// Why a destination is refused.
pub fn why_bad_dest(p: &str, probe: &DirProbe, itself: &str) -> (r: Option<String>)
    ensures
        r.deep_view() == bad_dest(p@, *probe, itself@),
{
    match &probe.absolute {
        Err(e) => Some(e.clone()),
        Ok(_) => match why_unusable(p, probe) {
            Some(e) => Some(e),
            None => if probe.is_out_root {
                Some(glue(itself, " is the download folder itself - nothing to move"))
            } else {
                None
            },
        },
    }
}

/// What setting `move_completed` to a value comes to.
pub open spec fn move_completed_set(
    old: Daemon,
    v: Seq<char>,
    probe: DirProbe,
    r: Outcome,
    new: Daemon,
) -> bool {
    let p = trimmed(v);
    let frame = new == (Daemon {
        paths: Paths { move_completed: new.paths.move_completed, ..old.paths },
        ..old
    });
    if p.len() == 0 {
        &&& taken(r, true, Json::Text(""@))
        &&& frame
        &&& new.paths.move_completed is None
    } else {
        match bad_dest(p, probe, "move_completed"@) {
            Some(e) => refused(old, r, new, e),
            None => {
                &&& taken(r, true, Json::Text(p))
                &&& frame
                &&& new.paths.move_completed.deep_view() == Some(p)
            },
        }
    }
}

/// Sets where finished downloads go, given what the disk says of it. Empty
/// leaves them where they are.
pub fn set_move_completed(d: &mut Daemon, _name: &str, v: &str, probe: &DirProbe) -> (r: Outcome)
    ensures
        move_completed_set(*old(d), v@, *probe, r, *final(d)),
{
    let p: String = trim(v);
    if p.as_str().is_empty() {
        d.paths.move_completed = None;
        return Ok((true, text("")));
    }
    if let Some(e) = why_bad_dest(p.as_str(), probe, "move_completed") {
        return Err(e);
    }
    let echo = text(p.as_str());
    d.paths.move_completed = Some(p);
    Ok((true, echo))
}

/// A destination of one category, with what the disk says of it.
pub struct GivenDest {
    pub cat: String,
    pub path: String,
    pub probe: DirProbe,
}

/// The first refusal of a list of destinations.
pub open spec fn dests_fault(list: Seq<GivenDest>) -> Option<Seq<char>>
    decreases list.len(),
{
    if list.len() == 0 {
        None
    } else {
        match dests_fault(list.drop_last()) {
            Some(e) => Some(e),
            None => bad_dest(list.last().path@, list.last().probe, list.last().path@),
        }
    }
}

proof fn dests_fault_stays(list: Seq<GivenDest>, n: int)
    requires
        0 <= n <= list.len(),
        dests_fault(list.take(n)) is Some,
    ensures
        dests_fault(list) == dests_fault(list.take(n)),
    decreases list.len(),
{
    if n == list.len() {
        assert(list.take(n) =~= list);
    } else {
        assert(list.drop_last().take(n) =~= list.take(n));
        dests_fault_stays(list.drop_last(), n);
    }
}

fn check_dests(list: &Vec<GivenDest>) -> (r: Option<String>)
    ensures
        r.deep_view() == dests_fault(list@),
{
    let mut i: usize = 0;
    while i < list.len()
        invariant
            i <= list@.len(),
            dests_fault(list@.take(i as int)) is None,
        decreases list@.len() - i,
    {
        let e: &GivenDest = &list[i];
        assert(list@.take(i + 1).drop_last() =~= list@.take(i as int));
        let fault = why_bad_dest(e.path.as_str(), &e.probe, e.path.as_str());
        if fault.is_some() {
            proof {
                dests_fault_stays(list@, i + 1);
            }
            return fault;
        }
        i = i + 1;
    }
    assert(list@.take(list@.len() as int) =~= list@);
    None
}

/// The destinations as (category, path).
pub open spec fn dests(list: Seq<CatDest>) -> Seq<(Seq<char>, Seq<char>)> {
    Seq::new(list.len(), |i: int| (list[i].cat@, list[i].path@))
}

/// The destinations as (category, path), as they were given.
pub open spec fn given_dests(list: Seq<GivenDest>) -> Seq<(Seq<char>, Seq<char>)> {
    Seq::new(list.len(), |i: int| (list[i].cat@, list[i].path@))
}

/// The destinations as they are typed: `tv=/NAS/TV, movies=/NAS/Movies`.
pub open spec fn dests_text(list: Seq<(Seq<char>, Seq<char>)>) -> Seq<char> {
    joined(Seq::new(list.len(), |i: int| list[i].0 + "="@ + list[i].1), ", "@)
}

/// The destinations as they are typed.
pub fn fmt_cat_dests(list: &Vec<CatDest>) -> (r: String)
    ensures
        r@ == dests_text(dests(list@)),
{
    let mut parts: Vec<String> = Vec::new();
    let mut i: usize = 0;
    while i < list.len()
        invariant
            i <= list@.len(),
            parts@.len() == i,
            forall|j: int|
                0 <= j < i ==> (#[trigger] parts@[j])@ == list@[j].cat@ + "="@ + list@[j].path@,
        decreases list@.len() - i,
    {
        parts.push(glue3(list[i].cat.as_str(), "=", list[i].path.as_str()));
        i = i + 1;
    }
    let ghost d = dests(list@);
    assert(parts.deep_view() =~= Seq::new(d.len(), |i: int| d[i].0 + "="@ + d[i].1));
    join(&parts, ", ")
}

/// What setting `move_completed_cats` to a value comes to.
pub open spec fn move_completed_cats_set(
    old: Daemon,
    given: Result<Vec<GivenDest>, String>,
    r: Outcome,
    new: Daemon,
) -> bool {
    match given {
        Err(e) => refused(old, r, new, e@),
        Ok(list) => match dests_fault(list@) {
            Some(e) => refused(old, r, new, e),
            None => {
                &&& taken(r, true, Json::Text(dests_text(given_dests(list@))))
                &&& new == (Daemon {
                    paths: Paths { move_completed_cats: new.paths.move_completed_cats, ..old.paths },
                    ..old
                })
                &&& dests(new.paths.move_completed_cats@) == given_dests(list@)
            },
        },
    }
}

/// Sets where the finished downloads of single categories go, from what was
/// read of the value and what the disk says of each folder.
pub fn set_move_completed_cats(
    d: &mut Daemon,
    _name: &str,
    _v: &str,
    given: Result<Vec<GivenDest>, String>,
) -> (r: Outcome)
    ensures
        move_completed_cats_set(*old(d), given, r, *final(d)),
{
    match given {
        Err(e) => Err(e),
        Ok(list) => {
            if let Some(e) = check_dests(&list) {
                return Err(e);
            }
            let mut out: Vec<CatDest> = Vec::new();
            let mut i: usize = 0;
            while i < list.len()
                invariant
                    i <= list@.len(),
                    out@.len() == i,
                    forall|j: int|
                        0 <= j < i ==> (#[trigger] out@[j]).cat@ == list@[j].cat@ && out@[j].path@
                            == list@[j].path@,
                decreases list@.len() - i,
            {
                out.push(CatDest { cat: list[i].cat.clone(), path: list[i].path.clone() });
                i = i + 1;
            }
            assert(dests(out@) =~= given_dests(list@));
            let echo = fmt_cat_dests(&out);
            d.paths.move_completed_cats = out;
            Ok((true, Value::Text(echo)))
        },
    }
}

// ---- categories -----------------------------------------------------------

/// The strings of `list` other than the wildcard.
pub open spec fn without_star(list: Seq<Seq<char>>) -> Seq<Seq<char>>
    decreases list.len(),
{
    if list.len() == 0 {
        Seq::empty()
    } else if list.last() == "*"@ {
        without_star(list.drop_last())
    } else {
        without_star(list.drop_last()).push(list.last())
    }
}

fn drop_star(list: &Vec<String>) -> (r: Vec<String>)
    ensures
        r.deep_view() == without_star(list.deep_view()),
{
    let ghost all = list.deep_view();
    let mut r: Vec<String> = Vec::new();
    let mut i: usize = 0;
    assert(r.deep_view() =~= without_star(all.take(0)));
    while i < list.len()
        invariant
            i <= list@.len(),
            all == list.deep_view(),
            r.deep_view() == without_star(all.take(i as int)),
        decreases list@.len() - i,
    {
        assert(all.take(i + 1).drop_last() =~= all.take(i as int));
        assert(all.take(i + 1).last() == list@[i as int]@);
        let ghost before = r.deep_view();
        if !same(list[i].as_str(), "*") {
            r.push(list[i].clone());
            assert(r.deep_view() =~= before.push(list@[i as int]@));
        }
        i = i + 1;
    }
    assert(all.take(all.len() as int) =~= all);
    r
}

/// The category names of a typed list.
pub open spec fn category_names(v: Seq<char>) -> Seq<Seq<char>> {
    without_star(list_of(v, ","@))
}

/// The category names of a typed list: each of them has to be made a usable
/// folder name before [`set_categories`] takes it.
pub fn typed_categories(v: &str) -> (r: Vec<String>)
    ensures
        r.deep_view() == category_names(v@),
{
    drop_star(&split_list(v, ","))
}

/// The categories as the settings page shows them.
pub open spec fn cats_text(cats: Seq<Seq<char>>) -> Seq<char> {
    joined(without_star(cats), ", "@)
}

impl Daemon {
    /// The categories as the settings page shows them, without the wildcard.
    pub fn cat_list(&self) -> (r: String)
        ensures
            r@ == cats_text(self.paths.cats.deep_view()),
    {
        join(&drop_star(&self.paths.cats), ", ")
    }
}

/// The first name of which no usable folder name is left.
pub open spec fn unusable_name(names: Seq<Seq<char>>, clean: Seq<Seq<char>>) -> Option<Seq<char>>
    decreases clean.len(),
{
    if clean.len() == 0 {
        None
    } else {
        match unusable_name(names, clean.drop_last()) {
            Some(n) => Some(n),
            None => if clean.last().len() == 0 {
                Some(names[clean.len() - 1])
            } else {
                None
            },
        }
    }
}

proof fn unusable_name_stays(names: Seq<Seq<char>>, clean: Seq<Seq<char>>, n: int)
    requires
        0 <= n <= clean.len(),
        unusable_name(names, clean.take(n)) is Some,
    ensures
        unusable_name(names, clean) == unusable_name(names, clean.take(n)),
    decreases clean.len(),
{
    if n == clean.len() {
        assert(clean.take(n) =~= clean);
    } else {
        assert(clean.drop_last().take(n) =~= clean.take(n));
        unusable_name_stays(names, clean.drop_last(), n);
    }
}

/// What setting `categories` to a value comes to.
pub open spec fn categories_set(
    old: Daemon,
    v: Seq<char>,
    clean: Seq<Seq<char>>,
    r: Outcome,
    new: Daemon,
) -> bool {
    match unusable_name(category_names(v), clean) {
        Some(n) => refused(old, r, new, quoted(n) + " is not a usable category name"@),
        None => {
            let cats = new.paths.cats.deep_view();
            &&& taken(r, true, Json::Text(cats_text(cats)))
            &&& new == (Daemon { paths: Paths { cats: new.paths.cats, ..old.paths }, ..old })
            &&& sorted(cats)
            &&& cats.to_set() == old.words.default_cats.deep_view().to_set().union(clean.to_set())
        },
    }
}

/// Sets the categories: the built-in ones, and the typed names as they were
/// made usable, in order.
pub fn set_categories(d: &mut Daemon, _name: &str, v: &str, clean: &Vec<String>) -> (r: Outcome)
    requires
        clean@.len() == category_names(v@).len(),
    ensures
        categories_set(*old(d), v@, clean.deep_view(), r, *final(d)),
{
    let names: Vec<String> = typed_categories(v);
    let ghost all = clean.deep_view();
    let ghost nv = names.deep_view();
    let ghost base = d.words.default_cats.deep_view().to_set();
    let mut set: Vec<String> = sorted_set(&d.words.default_cats);
    let mut i: usize = 0;
    assert(base.union(all.take(0).to_set()) =~= base);
    while i < clean.len()
        invariant
            i <= clean@.len(),
            names@.len() == clean@.len(),
            all == clean.deep_view(),
            nv == names.deep_view(),
            nv == category_names(v@),
            *d == *old(d),
            sorted(set.deep_view()),
            set.deep_view().to_set() == base.union(all.take(i as int).to_set()),
            unusable_name(nv, all.take(i as int)) is None,
        decreases clean@.len() - i,
    {
        assert(all.take(i + 1).drop_last() =~= all.take(i as int));
        assert(all.take(i + 1).last() == clean@[i as int]@);
        if clean[i].as_str().is_empty() {
            proof {
                unusable_name_stays(nv, all, i + 1);
            }
            assert(nv[i as int] == names@[i as int]@);
            return Err(
                glue(quote(names[i].as_str()).as_str(), " is not a usable category name"),
            );
        }
        insert_sorted(&mut set, clean[i].clone());
        proof {
            let x = clean@[i as int]@;
            assert(all.take(i + 1) =~= all.take(i as int).push(x));
            push_set(all.take(i as int), x);
            assert(base.union(all.take(i as int).to_set()).insert(x) =~= base.union(
                all.take(i + 1).to_set(),
            ));
        }
        i = i + 1;
    }
    assert(all.take(all.len() as int) =~= all);
    d.paths.cats = set;
    let echo = d.cat_list();
    Ok((true, Value::Text(echo)))
}

// ---- laws -----------------------------------------------------------------

/// A destination is refused where its path is not absolute, where it cannot be
/// made, where it cannot be written to, and where it is the download folder
/// itself, in this order; any other is fine.
pub proof fn which_destinations_are_refused(
    p: &str,
    probe: &DirProbe,
    itself: &str,
    r: Option<String>,
)
    requires
        call_ensures(why_bad_dest, (p, probe, itself), r),
    ensures
        probe.absolute matches Err(e) ==> r is Some && r->0@ == e@,
        probe.absolute is Ok ==> (probe.made matches Err(e) ==> r is Some && r->0@ == "can't use "@
            + p@ + ": "@ + e@),
        probe.absolute is Ok && probe.made is Ok && !probe.writable ==> r is Some && r->0@ == p@
            + " is not writable"@,
        probe.absolute is Ok && probe.made is Ok && probe.writable && probe.is_out_root ==> r is Some
            && r->0@ == itself@ + " is the download folder itself - nothing to move"@,
        probe.absolute is Ok && probe.made is Ok && probe.writable && !probe.is_out_root ==> r
            is None,
{
}

/// The first destination that is refused refuses the list.
pub proof fn which_list_of_destinations_is_refused(list: Seq<GivenDest>, g: GivenDest)
    ensures
        dests_fault(Seq::empty()) is None,
        dests_fault(list) is Some ==> dests_fault(list.push(g)) == dests_fault(list),
        dests_fault(list) is None && g.probe.absolute is Ok && g.probe.made is Ok
            && g.probe.writable && !g.probe.is_out_root ==> dests_fault(list.push(g)) is None,
        g.probe.absolute is Err || g.probe.made is Err || !g.probe.writable || g.probe.is_out_root
            ==> dests_fault(list.push(g)) is Some,
{
    assert(list.push(g).drop_last() =~= list);
}

/// The destinations of categories are stored as they were read, or, where one
/// is refused, not at all.
pub proof fn what_setting_destinations_does(
    d: &mut Daemon,
    name: &str,
    v: &str,
    given: Result<Vec<GivenDest>, String>,
    r: Outcome,
    k: int,
)
    requires
        call_ensures(set_move_completed_cats, (d, name, v, given), r),
    ensures
        given matches Err(e) ==> r is Err && r->Err_0@ == e@ && *final(d) == *old(d),
        r is Err ==> *final(d) == *old(d),
        given is Ok ==> (dests_fault(given->Ok_0@) is None <==> r is Ok),
        r is Ok ==> final(d).paths.move_completed_cats@.len() == given->Ok_0@.len(),
        r is Ok && 0 <= k < given->Ok_0@.len() ==> final(d).paths.move_completed_cats@[k].cat@
            == given->Ok_0@[k].cat@ && final(d).paths.move_completed_cats@[k].path@
            == given->Ok_0@[k].path@,
{
    if r is Ok {
        let a = dests(final(d).paths.move_completed_cats@);
        let b = given_dests(given->Ok_0@);
        assert(a.len() == b.len());
        if 0 <= k < given->Ok_0@.len() {
            assert(a[k] == b[k]);
        }
    }
}

/// The wildcard is no name of a category; every other is, in order.
pub proof fn which_names_are_categories(list: Seq<Seq<char>>, n: Seq<char>)
    ensures
        without_star(Seq::empty()) == Seq::<Seq<char>>::empty(),
        n == "*"@ ==> without_star(list.push(n)) == without_star(list),
        n != "*"@ ==> without_star(list.push(n)) == without_star(list).push(n),
{
    assert(list.push(n).drop_last() =~= list);
}

/// The categories are the built-in ones and the typed ones, and no others; a
/// name of which nothing usable is left changes nothing.
pub proof fn what_setting_categories_does(
    d: &mut Daemon,
    name: &str,
    v: &str,
    clean: &Vec<String>,
    r: Outcome,
    k: int,
    n: Seq<char>,
)
    requires
        clean@.len() == category_names(v@).len(),
        call_ensures(set_categories, (d, name, v, clean), r),
    ensures
        0 <= k < clean@.len() && clean@[k]@.len() == 0 ==> r is Err && *final(d) == *old(d),
        (forall|j: int| 0 <= j < clean@.len() ==> (#[trigger] clean@[j])@.len() > 0) ==> r is Ok,
        r is Ok ==> (final(d).paths.cats.deep_view().contains(n) <==> (
        old(d).words.default_cats.deep_view().contains(n) || clean.deep_view().contains(n))),
        r is Ok ==> sorted(final(d).paths.cats.deep_view()),
{
    let c = clean.deep_view();
    if 0 <= k < clean@.len() && clean@[k]@.len() == 0 {
        assert(c[k].len() == 0);
        an_unusable_name(category_names(v@), c, k);
    }
    if forall|j: int| 0 <= j < clean@.len() ==> (#[trigger] clean@[j])@.len() > 0 {
        assert forall|j: int| 0 <= j < c.len() implies (#[trigger] c[j]).len() > 0 by {
            assert(clean@[j]@.len() > 0);
        }
        no_unusable_name(category_names(v@), c);
    }
    if r is Ok {
        let cats = final(d).paths.cats.deep_view();
        assert(cats.to_set().contains(n) == cats.contains(n));
        assert(c.to_set().contains(n) == c.contains(n));
        let words = old(d).words.default_cats.deep_view();
        assert(words.to_set().contains(n) == words.contains(n));
    }
}

proof fn an_unusable_name(names: Seq<Seq<char>>, clean: Seq<Seq<char>>, k: int)
    requires
        0 <= k < clean.len(),
        clean[k].len() == 0,
    ensures
        unusable_name(names, clean) is Some,
    decreases clean.len(),
{
    if k < clean.len() - 1 {
        assert(clean.drop_last()[k] == clean[k]);
        an_unusable_name(names, clean.drop_last(), k);
    }
}

proof fn no_unusable_name(names: Seq<Seq<char>>, clean: Seq<Seq<char>>)
    requires
        forall|j: int| 0 <= j < clean.len() ==> (#[trigger] clean[j]).len() > 0,
    ensures
        unusable_name(names, clean) is None,
    decreases clean.len(),
{
    if clean.len() > 0 {
        let rest = clean.drop_last();
        assert forall|j: int| 0 <= j < rest.len() implies (#[trigger] rest[j]).len() > 0 by {
            assert(rest[j] == clean[j]);
        }
        no_unusable_name(names, rest);
        assert(clean[clean.len() - 1].len() > 0);
    }
}

} // verus!
