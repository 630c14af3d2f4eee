//! What the log may say of a setting's new value.
use super::names::a_row_is_found_by_its_name_alone;
use super::table::{row_named, setting, table, Log};
use crate::order::{in_order, sorted_set};
use crate::text::{decimal, glue, glue3, join, joined, same, to_decimal};
use vstd::prelude::*;

verus! {

/// One layer of a JSON value: what it holds directly. The parts of a list and
/// of an object are JSON texts themselves.
pub enum Layer {
    Null,
    Bool(bool),
    /// As it is written.
    Number(String),
    Text(String),
    Array(Vec<String>),
    Object(Vec<(String, String)>),
}

/// What a layer says.
pub ghost enum LayerView {
    Null,
    Bool(bool),
    Number(Seq<char>),
    Text(Seq<char>),
    Array(Seq<Seq<char>>),
    Object(Seq<(Seq<char>, Seq<char>)>),
}

impl View for Layer {
    type V = LayerView;

    open spec fn view(&self) -> LayerView {
        match self {
            Layer::Null => LayerView::Null,
            Layer::Bool(b) => LayerView::Bool(*b),
            Layer::Number(n) => LayerView::Number(n@),
            Layer::Text(s) => LayerView::Text(s@),
            Layer::Array(a) => LayerView::Array(a.deep_view()),
            Layer::Object(o) => LayerView::Object(o.deep_view()),
        }
    }
}

/// The outer layer of the JSON value that a text spells; nothing where it
/// spells none.
pub uninterp spec fn layer_in(text: Seq<char>) -> Option<LayerView>;

/// `serde_json::from_str` into a value, of which the outer layer is handed
/// out; the parts of a list or an object are written out again, with the
/// `to_string` of `serde_json::Value`. What it holds depends on the text alone.
#[verifier::external_body]
fn read_layer(text: &str) -> (r: Option<Layer>)
    ensures
        match r {
            Some(l) => layer_in(text@) == Some(l@),
            None => layer_in(text@) is None,
        },
{
    let fields = |o: serde_json::Map<String, serde_json::Value>| {
        o.into_iter().map(|(k, v)| (k, v.to_string())).collect()
    };
    Some(match serde_json::from_str(text).ok()? {
        serde_json::Value::Null => Layer::Null,
        serde_json::Value::Bool(b) => Layer::Bool(b),
        serde_json::Value::Number(n) => Layer::Number(n.to_string()),
        serde_json::Value::String(s) => Layer::Text(s),
        serde_json::Value::Array(a) => Layer::Array(a.iter().map(|v| v.to_string()).collect()),
        serde_json::Value::Object(o) => Layer::Object(fields(o)),
    })
}

/// The part of an object under a name.
pub open spec fn part_of(fields: Seq<(Seq<char>, Seq<char>)>, name: Seq<char>) -> Option<Seq<char>>
    decreases fields.len(),
{
    if fields.len() == 0 {
        None
    } else if fields[0].0 == name {
        Some(fields[0].1)
    } else {
        part_of(fields.skip(1), name)
    }
}

/// What a JSON text holds as a string under a name, where it spells an object
/// that holds one.
pub open spec fn field_of(text: Seq<char>, name: Seq<char>) -> Option<Seq<char>> {
    match layer_in(text) {
        Some(LayerView::Object(fields)) => match part_of(fields, name) {
            Some(part) => match layer_in(part) {
                Some(LayerView::Text(s)) => Some(s),
                _ => None,
            },
            None => None,
        },
        _ => None,
    }
}

/// What the entries of a JSON list hold as a string under a name: nothing at
/// all where the text is no JSON list.
pub open spec fn list_fields(text: Seq<char>, name: Seq<char>) -> Option<
    Seq<Option<Seq<char>>>,
> {
    match layer_in(text) {
        Some(LayerView::Array(list)) => Some(
            Seq::new(list.len(), |i: int| field_of(list[i], name)),
        ),
        _ => None,
    }
}

fn find_part(fields: &Vec<(String, String)>, name: &str) -> (r: Option<String>)
    ensures
        r.deep_view() == part_of(fields.deep_view(), name@),
{
    let ghost all = fields.deep_view();
    let mut i: usize = 0;
    assert(all.skip(0) =~= all);
    while i < fields.len()
        invariant
            i <= fields@.len(),
            all == fields.deep_view(),
            part_of(all, name@) == part_of(all.skip(i as int), name@),
        decreases fields@.len() - i,
    {
        let f: &(String, String) = &fields[i];
        assert(all.skip(i as int)[0] == f.deep_view());
        assert(all.skip(i as int).skip(1) =~= all.skip(i + 1));
        if same(f.0.as_str(), name) {
            return Some(f.1.as_str().to_owned());
        }
        i = i + 1;
    }
    None
}

fn read_field(text: &str, name: &str) -> (r: Option<String>)
    ensures
        r.deep_view() == field_of(text@, name@),
{
    match read_layer(text) {
        Some(Layer::Object(fields)) => match find_part(&fields, name) {
            Some(part) => match read_layer(part.as_str()) {
                Some(Layer::Text(s)) => Some(s),
                _ => None,
            },
            None => None,
        },
        _ => None,
    }
}

/// Reads what the entries of a JSON list hold as a string under a name.
pub fn read_fields(text: &str, name: &str) -> (r: Option<Vec<Option<String>>>)
    ensures
        r.deep_view() == list_fields(text@, name@),
{
    match read_layer(text) {
        Some(Layer::Array(list)) => {
            let ghost all = list.deep_view();
            let mut out: Vec<Option<String>> = Vec::new();
            let mut i: usize = 0;
            while i < list.len()
                invariant
                    i <= list@.len(),
                    all == list.deep_view(),
                    out@.len() == i,
                    forall|j: int|
                        0 <= j < i ==> (#[trigger] out@[j]).deep_view() == field_of(
                            all[j],
                            name@,
                        ),
                decreases list@.len() - i,
            {
                assert(all[i as int] == list@[i as int]@);
                out.push(read_field(list[i].as_str(), name));
                i = i + 1;
            }
            assert(out.deep_view() =~= Seq::new(all.len(), |i: int| field_of(all[i], name@)));
            Some(out)
        },
        _ => None,
    }
}

/// How long a value was, and nothing of what was in it.
pub open spec fn shape(v: Seq<char>) -> Seq<char> {
    if v.len() == 0 {
        "(empty)"@
    } else {
        "("@ + decimal(v.len() as int) + " chars, not logged)"@
    }
}

/// How long a value was, and nothing of what was in it.
pub fn shape_only(v: &str) -> (r: String)
    ensures
        r@ == shape(v@),
{
    if v.is_empty() {
        "(empty)".to_owned()
    } else {
        let n: usize = crate::text::chars_of(v).len();
        glue3("(", to_decimal(n as u64).as_str(), " chars, not logged)")
    }
}

/// The kinds that entries name, a question mark for those that name none.
pub open spec fn kinds_of(items: Seq<Option<Seq<char>>>) -> Seq<Seq<char>> {
    Seq::new(
        items.len(),
        |i: int|
            match items[i] {
                Some(k) => k,
                None => "?"@,
            },
    )
}

/// A count and the kinds, each once and in order.
pub open spec fn targets_line(items: Seq<Option<Seq<char>>>) -> Seq<char> {
    let n = decimal(items.len() as int);
    if items.len() == 0 {
        n + " targets"@
    } else {
        n + " targets ("@ + joined(in_order(kinds_of(items).to_set()), ", "@) + ")"@
    }
}

/// What the log says under a rule, given the entries that were read where the
/// rule counts them.
pub open spec fn line(rule: Option<Log>, v: Seq<char>, items: Option<Seq<Option<Seq<char>>>>) -> Seq<
    char,
> {
    match rule {
        Some(Log::Plain) => v,
        Some(Log::Masked) => "•••"@,
        Some(Log::Targets) => match items {
            Some(ts) => targets_line(ts),
            None => shape(v),
        },
        Some(Log::Feeds) => match items {
            Some(ts) => decimal(ts.len() as int) + " feeds"@,
            None => shape(v),
        },
        Some(Log::Indexers) => match items {
            Some(ts) => decimal(ts.len() as int) + " indexers"@,
            None => shape(v),
        },
        _ => shape(v),
    }
}

fn name_kinds(items: &Vec<Option<String>>) -> (r: Vec<String>)
    ensures
        r.deep_view() == kinds_of(items.deep_view()),
{
    let mut r: Vec<String> = Vec::new();
    let mut i: usize = 0;
    while i < items.len()
        invariant
            i <= items@.len(),
            r@.len() == i,
            forall|j: int|
                0 <= j < i ==> (#[trigger] r@[j])@ == kinds_of(items.deep_view())[j],
        decreases items@.len() - i,
    {
        assert(items.deep_view()[i as int] == items@[i as int].deep_view());
        match &items[i] {
            Some(k) => r.push(k.clone()),
            None => r.push("?".to_owned()),
        }
        i = i + 1;
    }
    assert(r.deep_view() =~= kinds_of(items.deep_view()));
    r
}

/// What the log says under a rule, given the entries that were read where the
/// rule counts them.
pub fn log_line(rule: Option<Log>, v: &str, items: &Option<Vec<Option<String>>>) -> (r: String)
    ensures
        r@ == line(rule, v@, items.deep_view()),
{
    match rule {
        Some(Log::Plain) => v.to_owned(),
        Some(Log::Masked) => "•••".to_owned(),
        Some(Log::Targets) => match items {
            Some(ts) => {
                let n: String = to_decimal(ts.len() as u64);
                if ts.len() == 0 {
                    glue(n.as_str(), " targets")
                } else {
                    let kinds: Vec<String> = sorted_set(&name_kinds(ts));
                    glue3(
                        glue(n.as_str(), " targets (").as_str(),
                        join(&kinds, ", ").as_str(),
                        ")",
                    )
                }
            },
            None => shape_only(v),
        },
        Some(Log::Feeds) => match items {
            Some(ts) => glue(to_decimal(ts.len() as u64).as_str(), " feeds"),
            None => shape_only(v),
        },
        Some(Log::Indexers) => match items {
            Some(ts) => glue(to_decimal(ts.len() as u64).as_str(), " indexers"),
            None => shape_only(v),
        },
        _ => shape_only(v),
    }
}

/// The rule of a name; a name that is in no row has none.
pub open spec fn rule_of(name: Seq<char>) -> Option<Log> {
    match row_named(name) {
        Some(row) => Some(row.log),
        None => None,
    }
}

/// What the log may print of a setting's new value.
pub fn log_value(name: &str, v: &str) -> (r: String)
    ensures
        r@ == line(rule_of(name@), v@, list_fields(v@, "kind"@)),
{
    let rule: Option<Log> = match setting(name) {
        Some(s) => Some(s.log),
        None => None,
    };
    match rule {
        Some(Log::Targets) | Some(Log::Feeds) | Some(Log::Indexers) => log_line(
            rule,
            v,
            &read_fields(v, "kind"),
        ),
        _ => log_line(rule, v, &None),
    }
}

/// The log line of a credential is the same whatever the credential is.
pub proof fn a_masked_value_never_shows(
    v: Seq<char>,
    w: Seq<char>,
    a: Option<Seq<Option<Seq<char>>>>,
    b: Option<Seq<Option<Seq<char>>>>,
)
    ensures
        line(Some(Log::Masked), v, a) == line(Some(Log::Masked), w, b),
{
}

/// Of a name that is in no row, and of a row whose value is only measured,
/// the log shows the length and nothing else: two values of one length read
/// alike.
pub proof fn an_undeclared_value_shows_its_length_only(
    rule: Option<Log>,
    v: Seq<char>,
    w: Seq<char>,
    a: Option<Seq<Option<Seq<char>>>>,
    b: Option<Seq<Option<Seq<char>>>>,
)
    requires
        rule is None || rule == Some(Log::Shape),
        v.len() == w.len(),
    ensures
        line(rule, v, a) == line(rule, w, b),
{
}

/// Of targets, feeds and search sites the log shows how many there are, and
/// of targets their kinds: two values whose entries have the same kinds read
/// alike, whatever their addresses and keys.
pub proof fn a_counted_value_shows_kinds_and_counts_only(
    rule: Log,
    v: Seq<char>,
    w: Seq<char>,
    items: Seq<Option<Seq<char>>>,
)
    requires
        rule == Log::Targets || rule == Log::Feeds || rule == Log::Indexers,
    ensures
        line(Some(rule), v, Some(items)) == line(Some(rule), w, Some(items)),
{
}

// ---- laws -----------------------------------------------------------------

/// Of a value that is only measured the log shows how long it was.
pub proof fn how_a_length_is_shown(v: &str, r: String)
    requires
        call_ensures(shape_only, (v,), r),
    ensures
        v@.len() == 0 ==> r@ == "(empty)"@,
        v@.len() > 0 ==> r@ == "("@ + decimal(v@.len() as int) + " chars, not logged)"@,
{
}

/// What each rule lets the log show.
pub proof fn what_the_log_shows(
    rule: Option<Log>,
    v: &str,
    items: &Option<Vec<Option<String>>>,
    r: String,
)
    requires
        call_ensures(log_line, (rule, v, items), r),
    ensures
        rule == Some(Log::Plain) ==> r@ == v@,
        rule == Some(Log::Masked) ==> r@ == "•••"@,
        (rule is None || rule == Some(Log::Shape)) && v@.len() == 0 ==> r@ == "(empty)"@,
        (rule is None || rule == Some(Log::Shape)) && v@.len() > 0 ==> r@ == "("@ + decimal(
            v@.len() as int,
        ) + " chars, not logged)"@,
        (rule == Some(Log::Feeds) || rule == Some(Log::Indexers) || rule == Some(Log::Targets))
            && *items is None && v@.len() > 0 ==> r@ == "("@ + decimal(v@.len() as int)
            + " chars, not logged)"@,
        rule == Some(Log::Feeds) && *items is Some ==> r@ == decimal(items->0@.len() as int)
            + " feeds"@,
        rule == Some(Log::Indexers) && *items is Some ==> r@ == decimal(items->0@.len() as int)
            + " indexers"@,
        rule == Some(Log::Targets) && *items is Some && items->0@.len() == 0 ==> r@ == decimal(0)
            + " targets"@,
        rule == Some(Log::Targets) && *items is Some && items->0@.len() > 0 ==> r@ == decimal(
            items->0@.len() as int,
        ) + " targets ("@ + joined(
            in_order(kinds_of(items->0.deep_view()).to_set()),
            ", "@,
        ) + ")"@,
{
    if *items is Some {
        assert(items.deep_view() == Some(items->0.deep_view()));
        assert(items->0.deep_view().len() == items->0@.len());
    }
}

/// The log shows nothing of a key but that it was set: under the name of one
/// any two values read alike.
pub proof fn a_key_is_never_logged(name: &str, v: &str, w: &str, a: String, b: String)
    requires
        name@ == "apikey"@ || name@ == "nzbkey"@ || name@ == "omdb_key"@,
        call_ensures(log_value, (name, v), a),
        call_ensures(log_value, (name, w), b),
    ensures
        a@ == "•••"@,
        a@ == b@,
{
    key_rules(name@);
}

/// Of the names that hold credentials in a list the log shows at most how many
/// entries there are and of which kinds.
pub proof fn a_listed_credential_is_never_logged(
    name: &str,
    v: &str,
    w: &str,
    a: String,
    b: String,
)
    requires
        name@ == "feeds"@ || name@ == "indexers"@ || name@ == "notify_targets"@ || name@
            == "arr_instances"@,
        v@.len() == w@.len(),
        list_fields(v@, "kind"@) == list_fields(w@, "kind"@),
        call_ensures(log_value, (name, v), a),
        call_ensures(log_value, (name, w), b),
    ensures
        a@ == b@,
{
    key_rules(name@);
}

/// An undeclared name is logged by its length alone.
pub proof fn an_unknown_name_is_logged_by_its_length(name: &str, v: &str, a: String)
    requires
        row_named(name@) is None,
        v@.len() > 0,
        call_ensures(log_value, (name, v), a),
    ensures
        a@ == "("@ + decimal(v@.len() as int) + " chars, not logged)"@,
{
}

/// What the log shows of the names that hold a credential.
proof fn key_rules(name: Seq<char>)
    ensures
        name == "apikey"@ || name == "nzbkey"@ || name == "omdb_key"@ ==> rule_of(name) == Some(
            Log::Masked,
        ),
        name == "feeds"@ ==> rule_of(name) == Some(Log::Feeds),
        name == "indexers"@ ==> rule_of(name) == Some(Log::Indexers),
        name == "notify_targets"@ || name == "arr_instances"@ ==> rule_of(name) == Some(
            Log::Targets,
        ),
{
    if name == "apikey"@ {
        a_row_is_found_by_its_name_alone(table()[121], name);
    }
    if name == "nzbkey"@ {
        a_row_is_found_by_its_name_alone(table()[122], name);
    }
    if name == "omdb_key"@ {
        a_row_is_found_by_its_name_alone(table()[123], name);
    }
    if name == "feeds"@ {
        a_row_is_found_by_its_name_alone(table()[96], name);
    }
    if name == "indexers"@ {
        a_row_is_found_by_its_name_alone(table()[97], name);
    }
    if name == "notify_targets"@ {
        a_row_is_found_by_its_name_alone(table()[113], name);
    }
    if name == "arr_instances"@ {
        a_row_is_found_by_its_name_alone(table()[116], name);
    }
}

/// The kinds are those of the entries; a question mark stands for none.
pub proof fn which_kinds_are_named(items: Seq<Option<Seq<char>>>, i: int)
    requires
        0 <= i < items.len(),
    ensures
        kinds_of(items).len() == items.len(),
        items[i] is None ==> kinds_of(items)[i] == "?"@,
        items[i] matches Some(k) ==> kinds_of(items)[i] == k,
{
}

} // verus!
