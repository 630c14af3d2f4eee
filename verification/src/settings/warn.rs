//! Rules whose patterns will not compile: what is said when they are saved.
use super::lists::{quote, quoted};
use super::log::{list_fields, read_fields};
use crate::text::{add_text, decimal, glue, glue3, join, joined, same, to_decimal};
use vstd::prelude::*;

verus! {

/// Why the patterns of a rule will not compile, where they will not.
pub struct RuleFault {
    pub matching: Option<String>,
    pub not_matching: Option<String>,
}

/// What the pattern engine says of rules.
pub open spec fn faults_view(l: Seq<RuleFault>) -> Seq<(Option<Seq<char>>, Option<Seq<char>>)> {
    l.map_values(|f: RuleFault| (f.matching.deep_view(), f.not_matching.deep_view()))
}

/// What stands at a place, where anything does.
pub open spec fn entry_of(l: Seq<Option<Seq<char>>>, k: int) -> Option<Seq<char>> {
    if k < l.len() {
        l[k]
    } else {
        None
    }
}

/// A pattern; an empty one where there is none.
pub open spec fn pattern_of(l: Seq<Option<Seq<char>>>, k: int) -> Seq<char> {
    match entry_of(l, k) {
        Some(p) => p,
        None => Seq::empty(),
    }
}

/// How a rule is called: by its name, or by its place.
pub open spec fn label_of(names: Seq<Option<Seq<char>>>, k: int) -> Seq<char> {
    match entry_of(names, k) {
        Some(n) if n.len() > 0 => quoted(n),
        _ => "rule "@ + decimal(k + 1),
    }
}

/// What is said of a pattern that will not compile.
pub open spec fn fault_text(label: Seq<char>, pattern: Seq<char>, why: Seq<char>) -> Seq<char> {
    label + ": "@ + pattern + " - "@ + why
}

/// A list with what is said of a pattern, where anything is.
pub open spec fn with_fault(
    l: Seq<Seq<char>>,
    label: Seq<char>,
    pattern: Seq<char>,
    why: Option<Seq<char>>,
) -> Seq<Seq<char>> {
    match why {
        Some(w) => l.push(fault_text(label, pattern, w)),
        None => l,
    }
}

/// What is said of the first `n` rules, in order.
pub open spec fn said_of(
    names: Seq<Option<Seq<char>>>,
    matching: Seq<Option<Seq<char>>>,
    not_matching: Seq<Option<Seq<char>>>,
    faults: Seq<(Option<Seq<char>>, Option<Seq<char>>)>,
    n: int,
) -> Seq<Seq<char>>
    decreases n,
{
    if n <= 0 {
        Seq::empty()
    } else {
        let k = n - 1;
        let rest = said_of(names, matching, not_matching, faults, k);
        let label = label_of(names, k);
        with_fault(
            with_fault(rest, label, pattern_of(matching, k), faults[k].0),
            label,
            pattern_of(not_matching, k),
            faults[k].1,
        )
    }
}

/// What is said of rules, where anything is.
pub open spec fn warning_of(said: Seq<Seq<char>>) -> Option<Seq<char>> {
    if said.len() == 0 {
        None
    } else {
        Some("these patterns will not compile: "@ + joined(said, "; "@))
    }
}

fn text_at(l: &Vec<Option<String>>, k: usize) -> (r: String)
    ensures
        r@ == pattern_of(l.deep_view(), k as int),
{
    if k < l.len() {
        assert(l.deep_view()[k as int] == l@[k as int].deep_view());
        match &l[k] {
            Some(s) => s.as_str().to_owned(),
            None => {
                let e: String = String::new();
                assert(e@ =~= Seq::empty());
                e
            },
        }
    } else {
        let e: String = String::new();
        assert(e@ =~= Seq::empty());
        e
    }
}

fn label_at(names: &Vec<Option<String>>, k: usize) -> (r: String)
    requires
        k < usize::MAX,
    ensures
        r@ == label_of(names.deep_view(), k as int),
{
    let name: String = text_at(names, k);
    if name.as_str().is_empty() {
        assert(entry_of(names.deep_view(), k as int) is Some ==> entry_of(
            names.deep_view(),
            k as int,
        )->0.len() == 0);
        let n: String = to_decimal((k as u64) + 1);
        glue("rule ", n.as_str())
    } else {
        quote(name.as_str())
    }
}

fn add_fault(said: &mut Vec<String>, label: &str, pattern: &str, why: &Option<String>)
    ensures
        final(said).deep_view() == with_fault(
            old(said).deep_view(),
            label@,
            pattern@,
            why.deep_view(),
        ),
{
    match why {
        Some(w) => {
            let a: String = glue3(label, ": ", pattern);
            let b: String = glue3(a.as_str(), " - ", w.as_str());
            add_text(said, b.as_str());
        },
        None => {},
    }
}

/// What is said of rules, of which the names, the patterns and what the
/// pattern engine says of them are given.
pub fn rules_warning(
    names: &Vec<Option<String>>,
    matching: &Vec<Option<String>>,
    not_matching: &Vec<Option<String>>,
    faults: &Vec<RuleFault>,
) -> (r: Option<String>)
    ensures
        r.deep_view() == warning_of(
            said_of(
                names.deep_view(),
                matching.deep_view(),
                not_matching.deep_view(),
                faults_view(faults@),
                faults@.len() as int,
            ),
        ),
{
    let ghost f = faults_view(faults@);
    let mut said: Vec<String> = Vec::new();
    let mut k: usize = 0;
    assert(said.deep_view() =~= Seq::empty());
    while k < faults.len()
        invariant
            k <= faults@.len(),
            f == faults_view(faults@),
            said.deep_view() == said_of(
                names.deep_view(),
                matching.deep_view(),
                not_matching.deep_view(),
                f,
                k as int,
            ),
        decreases faults@.len() - k,
    {
        let label: String = label_at(names, k);
        let m: String = text_at(matching, k);
        let n: String = text_at(not_matching, k);
        assert(f[k as int] == (
            faults@[k as int].matching.deep_view(),
            faults@[k as int].not_matching.deep_view(),
        ));
        add_fault(&mut said, label.as_str(), m.as_str(), &faults[k].matching);
        add_fault(&mut said, label.as_str(), n.as_str(), &faults[k].not_matching);
        k = k + 1;
    }
    if said.len() == 0 {
        assert(said.deep_view().len() == 0);
        return None;
    }
    assert(said.deep_view().len() > 0);
    let list: String = join(&said, "; ");
    Some(glue("these patterns will not compile: ", list.as_str()))
}

/// Whether a setting holds rules with patterns.
pub open spec fn holds_rules(name: Seq<char>) -> bool {
    name == "smart_folders"@ || name == "custom_categories"@
}

/// Whether the pattern engine was asked about each rule that a setting's text
/// lists.
pub open spec fn all_judged(name: Seq<char>, v: Seq<char>, faults: Seq<RuleFault>) -> bool {
    holds_rules(name) ==> (list_fields(v, "match"@) matches Some(l) ==> faults.len() == l.len())
}

/// What is said of a setting's text, given what the pattern engine says of
/// each rule.
pub open spec fn save_warning(
    name: Seq<char>,
    v: Seq<char>,
    faults: Seq<RuleFault>,
) -> Option<Seq<char>> {
    match (list_fields(v, "name"@), list_fields(v, "match"@), list_fields(v, "not_match"@)) {
        (Some(names), Some(matching), Some(not_matching)) if holds_rules(name) => warning_of(
            said_of(names, matching, not_matching, faults_view(faults), matching.len() as int),
        ),
        _ => None,
    }
}

/// What is said when a setting is saved whose patterns will not compile. Only
/// the two settings that hold rules are judged, and what is no list of rules
/// is passed over. `faults` is what the pattern engine says of each rule.
pub fn rules_save_warning(name: &str, v: &str, faults: &Vec<RuleFault>) -> (r: Option<String>)
    requires
        all_judged(name@, v@, faults@),
    ensures
        r.deep_view() == save_warning(name@, v@, faults@),
{
    if !same(name, "smart_folders") && !same(name, "custom_categories") {
        return None;
    }
    let names: Option<Vec<Option<String>>> = read_fields(v, "name");
    let matching: Option<Vec<Option<String>>> = read_fields(v, "match");
    let not_matching: Option<Vec<Option<String>>> = read_fields(v, "not_match");
    match (names, matching, not_matching) {
        (Some(a), Some(b), Some(c)) => rules_warning(&a, &b, &c, faults),
        _ => None,
    }
}

/// The same, where the pattern engine was asked about each rule; nothing
/// where it was not.
pub fn judged_warning(name: &str, v: &str, faults: &Vec<RuleFault>) -> (r: Option<Option<String>>)
    ensures
        match r {
            Some(w) => all_judged(name@, v@, faults@) && w.deep_view() == save_warning(
                name@,
                v@,
                faults@,
            ),
            None => !all_judged(name@, v@, faults@),
        },
{
    if same(name, "smart_folders") || same(name, "custom_categories") {
        if let Some(l) = read_fields(v, "match") {
            if l.len() != faults.len() {
                assert(list_fields(v@, "match"@)->0.len() == l@.len());
                return None;
            }
            assert(list_fields(v@, "match"@)->0.len() == l@.len());
        }
    }
    Some(rules_save_warning(name, v, faults))
}

// ---- laws -----------------------------------------------------------------

/// How a rule is called: by its name, or by its place, counted from one.
pub proof fn how_a_rule_is_called(names: Seq<Option<Seq<char>>>, k: int)
    requires
        0 <= k,
    ensures
        k < names.len() && names[k] is Some && names[k]->0.len() > 0 ==> label_of(names, k)
            == quoted(names[k]->0),
        k >= names.len() || names[k] is None || names[k]->0.len() == 0 ==> label_of(names, k)
            == "rule "@ + decimal(k + 1),
{
}

/// Each pattern that will not compile is told of, in order and with the reason;
/// one that will is not.
pub proof fn what_is_said_of_one_more_rule(
    names: Seq<Option<Seq<char>>>,
    matching: Seq<Option<Seq<char>>>,
    not_matching: Seq<Option<Seq<char>>>,
    faults: Seq<(Option<Seq<char>>, Option<Seq<char>>)>,
    k: int,
)
    requires
        0 <= k < faults.len(),
        k < matching.len() && matching[k] is Some,
        k < not_matching.len() && not_matching[k] is Some,
    ensures
        ({
            let was = said_of(names, matching, not_matching, faults, k);
            let now = said_of(names, matching, not_matching, faults, k + 1);
            let label = label_of(names, k);
            &&& faults[k].0 is None && faults[k].1 is None ==> now == was
            &&& faults[k].0 is Some && faults[k].1 is None ==> now == was.push(
                label + ": "@ + matching[k]->0 + " - "@ + faults[k].0->0,
            )
            &&& faults[k].0 is None && faults[k].1 is Some ==> now == was.push(
                label + ": "@ + not_matching[k]->0 + " - "@ + faults[k].1->0,
            )
            &&& faults[k].0 is Some && faults[k].1 is Some ==> now == was.push(
                label + ": "@ + matching[k]->0 + " - "@ + faults[k].0->0,
            ).push(label + ": "@ + not_matching[k]->0 + " - "@ + faults[k].1->0)
        }),
{
}

/// Nothing is said exactly where every pattern compiles.
pub proof fn when_nothing_is_said(
    names: &Vec<Option<String>>,
    matching: &Vec<Option<String>>,
    not_matching: &Vec<Option<String>>,
    faults: &Vec<RuleFault>,
    r: Option<String>,
    k: int,
)
    requires
        0 <= k < faults@.len(),
        call_ensures(rules_warning, (names, matching, not_matching, faults), r),
    ensures
        faults@[k].matching is Some || faults@[k].not_matching is Some ==> r is Some,
        (forall|j: int|
            0 <= j < faults@.len() ==> (#[trigger] faults@[j]).matching is None
                && faults@[j].not_matching is None) ==> r is None,
{
    let f = faults_view(faults@);
    let n = faults@.len() as int;
    let (a, b, c) = (names.deep_view(), matching.deep_view(), not_matching.deep_view());
    assert(f[k] == (faults@[k].matching.deep_view(), faults@[k].not_matching.deep_view()));
    if faults@[k].matching is Some || faults@[k].not_matching is Some {
        something_is_said(a, b, c, f, k, n);
    }
    if forall|j: int|
        0 <= j < faults@.len() ==> (#[trigger] faults@[j]).matching is None
            && faults@[j].not_matching is None {
        assert forall|j: int| 0 <= j < n implies (#[trigger] f[j]).0 is None && f[j].1 is None by {
            assert(faults@[j].matching is None && faults@[j].not_matching is None);
        }
        nothing_is_said(a, b, c, f, n);
    }
}

proof fn something_is_said(
    names: Seq<Option<Seq<char>>>,
    matching: Seq<Option<Seq<char>>>,
    not_matching: Seq<Option<Seq<char>>>,
    faults: Seq<(Option<Seq<char>>, Option<Seq<char>>)>,
    k: int,
    n: int,
)
    requires
        0 <= k < n,
        faults[k].0 is Some || faults[k].1 is Some,
    ensures
        said_of(names, matching, not_matching, faults, n).len() > 0,
    decreases n,
{
    if k < n - 1 {
        something_is_said(names, matching, not_matching, faults, k, n - 1);
    }
}

proof fn nothing_is_said(
    names: Seq<Option<Seq<char>>>,
    matching: Seq<Option<Seq<char>>>,
    not_matching: Seq<Option<Seq<char>>>,
    faults: Seq<(Option<Seq<char>>, Option<Seq<char>>)>,
    n: int,
)
    requires
        forall|j: int| 0 <= j < n ==> (#[trigger] faults[j]).0 is None && faults[j].1 is None,
    ensures
        said_of(names, matching, not_matching, faults, n).len() == 0,
    decreases n,
{
    if n > 0 {
        nothing_is_said(names, matching, not_matching, faults, n - 1);
        assert(faults[n - 1].0 is None && faults[n - 1].1 is None);
    }
}

/// Only the two settings that hold rules are judged, and only lists.
pub proof fn which_settings_are_judged(
    name: &str,
    v: &str,
    faults: &Vec<RuleFault>,
    r: Option<String>,
)
    requires
        call_ensures(rules_save_warning, (name, v, faults), r),
    ensures
        name@ != "smart_folders"@ && name@ != "custom_categories"@ ==> r is None,
        list_fields(v@, "match"@) is None ==> r is None,
        (name@ == "smart_folders"@ || name@ == "custom_categories"@) && list_fields(
            v@,
            "name"@,
        ) is Some && list_fields(v@, "match"@) is Some && list_fields(v@, "not_match"@) is Some
            && list_fields(v@, "match"@)->0.len() > 0 && faults@.len() > 0 && (
        faults@[0].matching is Some || faults@[0].not_matching is Some) ==> r is Some,
{
    let f = faults_view(faults@);
    if faults@.len() > 0 {
        assert(f[0] == (faults@[0].matching.deep_view(), faults@[0].not_matching.deep_view()));
        if list_fields(v@, "match"@) is Some && list_fields(v@, "match"@)->0.len() > 0 && (f[0].0
            is Some || f[0].1 is Some) && list_fields(v@, "name"@) is Some && list_fields(
            v@,
            "not_match"@,
        ) is Some {
            something_is_said(
                list_fields(v@, "name"@)->0,
                list_fields(v@, "match"@)->0,
                list_fields(v@, "not_match"@)->0,
                f,
                0,
                list_fields(v@, "match"@)->0.len() as int,
            );
        }
    }
}

/// There is an answer exactly where each listed rule was judged, or the
/// setting holds no rules.
pub proof fn when_there_is_an_answer(
    name: &str,
    v: &str,
    faults: &Vec<RuleFault>,
    r: Option<Option<String>>,
)
    requires
        call_ensures(judged_warning, (name, v, faults), r),
    ensures
        name@ != "smart_folders"@ && name@ != "custom_categories"@ ==> r == Some(None::<String>),
        name@ == "smart_folders"@ || name@ == "custom_categories"@ ==> (list_fields(v@, "match"@)
            is Some ==> (r is None <==> list_fields(v@, "match"@)->0.len() != faults@.len())),
        list_fields(v@, "match"@) is None ==> r == Some(None::<String>),
{
}

} // verus!
