//! A small table from names to values, in which no name stands twice.
use vstd::prelude::*;

use crate::text::{listed, same};

verus! {

/// One line of a table.
pub struct Line<T> {
    pub name: String,
    pub value: T,
}

/// A table from names to values.
pub struct Book<T> {
    pub lines: Vec<Line<T>>,
}

/// What the lines say of a name.
pub open spec fn looked_up<T>(lines: Seq<Line<T>>, name: Seq<char>) -> Option<T>
    decreases lines.len(),
{
    if lines.len() == 0 {
        None
    } else if lines.last().name@ == name {
        Some(lines.last().value)
    } else {
        looked_up(lines.drop_last(), name)
    }
}

proof fn found_at<T>(lines: Seq<Line<T>>, i: int)
    requires
        0 <= i < lines.len(),
        no_name_twice(lines),
    ensures
        looked_up(lines, lines[i].name@) == Some(lines[i].value),
    decreases lines.len(),
{
    if i < lines.len() - 1 {
        found_at(lines.drop_last(), i);
        assert(lines.drop_last()[i] == lines[i]);
    }
}

proof fn not_found<T>(lines: Seq<Line<T>>, name: Seq<char>)
    requires
        forall|i: int| 0 <= i < lines.len() ==> (#[trigger] lines[i]).name@ != name,
    ensures
        looked_up(lines, name) is None,
    decreases lines.len(),
{
    if lines.len() > 0 {
        assert(lines[lines.len() - 1].name@ != name);
        assert forall|i: int| 0 <= i < lines.drop_last().len() implies (
        #[trigger] lines.drop_last()[i]).name@ != name by {
            assert(lines[i].name@ != name);
        }
        not_found(lines.drop_last(), name);
    }
}

proof fn one_taken_out<T>(lines: Seq<Line<T>>, i: int, name: Seq<char>)
    requires
        0 <= i < lines.len(),
        no_name_twice(lines),
    ensures
        looked_up(lines.remove(i), name) == if name == lines[i].name@ {
            None
        } else {
            looked_up(lines, name)
        },
    decreases lines.len(),
{
    let rest = lines.remove(i);
    if name == lines[i].name@ {
        assert forall|j: int| 0 <= j < rest.len() implies (#[trigger] rest[j]).name@ != name by {
            if j < i {
                assert(rest[j] == lines[j]);
            } else {
                assert(rest[j] == lines[j + 1]);
            }
        }
        not_found(rest, name);
    } else if i == lines.len() - 1 {
        assert(rest =~= lines.drop_last());
    } else {
        assert(rest.last() == lines.last());
        assert(rest.drop_last() =~= lines.drop_last().remove(i));
        assert(lines.drop_last()[i] == lines[i]);
        one_taken_out(lines.drop_last(), i, name);
    }
}

/// Whether no name stands in two lines.
pub open spec fn no_name_twice<T>(lines: Seq<Line<T>>) -> bool {
    forall|i: int, j: int|
        0 <= i < j < lines.len() ==> (#[trigger] lines[i]).name@ != (#[trigger] lines[j]).name@
}

impl<T> Book<T> {
    /// Whether no name stands twice.
    pub open spec fn wf(self) -> bool {
        no_name_twice(self.lines@)
    }

    /// The value of a name.
    pub open spec fn at(self, name: Seq<char>) -> Option<T> {
        looked_up(self.lines@, name)
    }

    /// A table that holds nothing.
    pub fn new() -> (r: Book<T>)
        ensures
            r.wf(),
            forall|k: Seq<char>| (#[trigger] r.at(k)) is None,
            r.lines@.len() == 0,
    {
        Book { lines: Vec::new() }
    }

    /// Which line holds a name.
    fn position(&self, name: &str) -> (r: Option<usize>)
        requires
            self.wf(),
        ensures
            match r {
                Some(i) => i < self.lines@.len() && self.lines@[i as int].name@ == name@
                    && self.at(name@) == Some(self.lines@[i as int].value),
                None => self.at(name@) is None && forall|i: int|
                    0 <= i < self.lines@.len() ==> (#[trigger] self.lines@[i]).name@ != name@,
            },
    {
        let mut i: usize = 0;
        while i < self.lines.len()
            invariant
                i <= self.lines@.len(),
                self.wf(),
                forall|j: int| 0 <= j < i ==> (#[trigger] self.lines@[j]).name@ != name@,
            decreases self.lines@.len() - i,
        {
            if same(self.lines[i].name.as_str(), name) {
                proof {
                    found_at(self.lines@, i as int);
                }
                return Some(i);
            }
            i = i + 1;
        }
        proof {
            not_found(self.lines@, name@);
        }
        None
    }

    /// The value of a name, where it has one.
    pub fn get(&self, name: &str) -> (r: Option<&T>)
        requires
            self.wf(),
        ensures
            match r {
                Some(v) => self.at(name@) == Some(*v),
                None => self.at(name@) is None,
            },
    {
        match self.position(name) {
            Some(i) => Some(&self.lines[i].value),
            None => None,
        }
    }

    /// Whether a name stands in the table.
    pub fn has(&self, name: &str) -> (r: bool)
        requires
            self.wf(),
        ensures
            r == (self.at(name@) is Some),
    {
        self.position(name).is_some()
    }

    /// Takes a name out.
    pub fn remove(&mut self, name: &str)
        requires
            old(self).wf(),
        ensures
            final(self).wf(),
            final(self).at(name@) is None,
            forall|k: Seq<char>| k != name@ ==> #[trigger] final(self).at(k) == old(self).at(k),
    {
        match self.position(name) {
            Some(i) => {
                let ghost was = self.lines@;
                let _gone = self.lines.remove(i);
                proof {
                    assert(self.lines@ == was.remove(i as int));
                    assert forall|k: Seq<char>| true implies #[trigger] self.at(k) == if k
                        == name@ {
                        None
                    } else {
                        old(self).at(k)
                    } by {
                        one_taken_out(was, i as int, k);
                    }
                }
            },
            None => {},
        }
    }

    /// Gives a name a value, in place of the one it had.
    pub fn put(&mut self, name: &str, value: T)
        requires
            old(self).wf(),
        ensures
            final(self).wf(),
            final(self).at(name@) == Some(value),
            forall|k: Seq<char>| k != name@ ==> #[trigger] final(self).at(k) == old(self).at(k),
    {
        self.remove(name);
        let ghost mid = *self;
        let ghost was = self.lines@;
        proof {
            if exists|i: int| 0 <= i < was.len() && (#[trigger] was[i]).name@ == name@ {
                let i = choose|i: int| 0 <= i < was.len() && (#[trigger] was[i]).name@ == name@;
                found_at(was, i);
            }
        }
        self.lines.push(Line { name: name.to_owned(), value });
        proof {
            assert(self.lines@.drop_last() =~= was);
            assert(self.lines@.last().name@ == name@);
            assert forall|k: Seq<char>| k != name@ implies #[trigger] self.at(k) == old(self).at(
                k,
            ) by {
                assert(mid.at(k) == old(self).at(k));
            }
        }
    }

    /// Keeps the names that `keep` lists, and says whether any other was
    /// there.
    pub fn keep_only(&mut self, keep: &Vec<String>) -> (r: bool)
        requires
            old(self).wf(),
        ensures
            final(self).wf(),
            forall|k: Seq<char>| #[trigger] final(self).at(k) == if keep.deep_view().contains(k) {
                old(self).at(k)
            } else {
                None
            },
            r == (exists|k: Seq<char>|
                (#[trigger] old(self).at(k)) is Some && !keep.deep_view().contains(k)),
    {
        let mut any: bool = false;
        let mut i: usize = 0;
        while i < self.lines.len()
            invariant
                i <= self.lines@.len(),
                self.wf(),
                forall|j: int|
                    0 <= j < i ==> keep.deep_view().contains((#[trigger] self.lines@[j]).name@),
                forall|k: Seq<char>|
                    keep.deep_view().contains(k) ==> #[trigger] self.at(k) == old(self).at(k),
                forall|k: Seq<char>|
                    (#[trigger] self.at(k)) is Some ==> self.at(k) == old(self).at(k),
                any == (exists|k: Seq<char>|
                    (#[trigger] old(self).at(k)) is Some && self.at(k) is None),
            decreases self.lines@.len() - i,
        {
            if listed(keep, self.lines[i].name.as_str()) {
                i = i + 1;
            } else {
                let ghost was = self.lines@;
                let ghost gone = self.lines@[i as int].name@;
                let _gone = self.lines.remove(i);
                any = true;
                proof {
                    found_at(was, i as int);
                    assert(old(self).at(gone) is Some);
                    assert forall|k: Seq<char>| true implies #[trigger] self.at(k) == if k
                        == gone {
                        None
                    } else {
                        looked_up(was, k)
                    } by {
                        one_taken_out(was, i as int, k);
                    }
                    assert(self.at(gone) is None);
                }
            }
        }
        proof {
            assert forall|k: Seq<char>| !keep.deep_view().contains(k) implies (#[trigger] self.at(
                k,
            )) is None by {
                not_found(self.lines@, k);
            }
            assert forall|k: Seq<char>|
                (#[trigger] old(self).at(k)) is Some && self.at(k)
                    is None implies !keep.deep_view().contains(k) by {}
        }
        any
    }
}

impl Book<i64> {
    /// Takes out the names whose time has come.
    pub fn expire(&mut self, now: i64)
        requires
            old(self).wf(),
        ensures
            final(self).wf(),
            forall|k: Seq<char>| #[trigger] final(self).at(k) == if old(self).at(k) is Some
                && old(self).at(k)->0 > now {
                old(self).at(k)
            } else {
                None
            },
    {
        let mut i: usize = 0;
        while i < self.lines.len()
            invariant
                i <= self.lines@.len(),
                self.wf(),
                forall|j: int| 0 <= j < i ==> (#[trigger] self.lines@[j]).value > now,
                forall|k: Seq<char>|
                    old(self).at(k) is Some && old(self).at(k)->0 > now ==> #[trigger] self.at(k)
                        == old(self).at(k),
                forall|k: Seq<char>|
                    (#[trigger] self.at(k)) is Some ==> self.at(k) == old(self).at(k),
            decreases self.lines@.len() - i,
        {
            if self.lines[i].value > now {
                i = i + 1;
            } else {
                let ghost mid = *self;
                let ghost was = self.lines@;
                let ghost gone = self.lines@[i as int].name@;
                let _gone = self.lines.remove(i);
                proof {
                    found_at(was, i as int);
                    assert(mid.at(gone) == Some(was[i as int].value));
                    assert forall|k: Seq<char>| true implies #[trigger] self.at(k) == if k
                        == gone {
                        None
                    } else {
                        mid.at(k)
                    } by {
                        one_taken_out(was, i as int, k);
                    }
                }
            }
        }
        proof {
            assert forall|k: Seq<char>| true implies #[trigger] self.at(k) == if old(self).at(k)
                is Some && old(self).at(k)->0 > now {
                old(self).at(k)
            } else {
                None
            } by {
                if exists|j: int| 0 <= j < self.lines@.len() && (#[trigger] self.lines@[j]).name@
                    == k {
                    let j = choose|j: int|
                        0 <= j < self.lines@.len() && (#[trigger] self.lines@[j]).name@ == k;
                    found_at(self.lines@, j);
                } else {
                    not_found(self.lines@, k);
                }
            }
        }
    }
}

// ---- laws -----------------------------------------------------------------

/// What was put under a name is found there until something else is put there
/// or it is taken out; the other names keep what they have.
pub proof fn what_is_put_is_found<T>(
    b: &mut Book<T>,
    name: &str,
    value: T,
    put: (),
    other: Seq<char>,
)
    requires
        old(b).wf(),
        call_ensures(Book::<T>::put, (b, name, value), put),
    ensures
        final(b).at(name@) == Some(value),
        other != name@ ==> final(b).at(other) == old(b).at(other),
{
}

/// What was taken out is not found; the other names keep what they have.
pub proof fn what_is_taken_out_is_gone<T>(b: &mut Book<T>, name: &str, r: (), other: Seq<char>)
    requires
        old(b).wf(),
        call_ensures(Book::<T>::remove, (b, name), r),
    ensures
        final(b).at(name@) is None,
        other != name@ ==> final(b).at(other) == old(b).at(other),
{
}

/// A name is found exactly where a line has it, with that line's value.
pub proof fn what_is_found_under_a_name<T>(b: Book<T>, i: int, name: Seq<char>)
    requires
        b.wf(),
    ensures
        0 <= i < b.lines@.len() ==> b.at(b.lines@[i].name@) == Some(b.lines@[i].value),
        (forall|j: int| 0 <= j < b.lines@.len() ==> (#[trigger] b.lines@[j]).name@ != name)
            ==> b.at(name) is None,
{
    if 0 <= i < b.lines@.len() {
        found_at(b.lines@, i);
    }
    if forall|j: int| 0 <= j < b.lines@.len() ==> (#[trigger] b.lines@[j]).name@ != name {
        not_found(b.lines@, name);
    }
}

/// Of the lines those stay whose name is to be kept.
pub proof fn which_lines_are_kept<T>(
    b: &mut Book<T>,
    keep: &Vec<String>,
    r: bool,
    k: Seq<char>,
)
    requires
        old(b).wf(),
        call_ensures(Book::<T>::keep_only, (b, keep), r),
    ensures
        keep.deep_view().contains(k) ==> final(b).at(k) == old(b).at(k),
        !keep.deep_view().contains(k) ==> final(b).at(k) is None,
{
}

/// A line goes once its time has come, and not before.
pub proof fn when_a_line_goes(b: &mut Book<i64>, now: i64, r: (), k: Seq<char>)
    requires
        old(b).wf(),
        call_ensures(Book::<i64>::expire, (b, now), r),
    ensures
        old(b).at(k) is None ==> final(b).at(k) is None,
        old(b).at(k) matches Some(t) ==> (t <= now ==> final(b).at(k) is None),
        old(b).at(k) matches Some(t) ==> (t > now ==> final(b).at(k) == Some(t)),
{
}

} // verus!
