//! The JSON values that settings are stored and shown as.
use crate::text::same;
use vstd::prelude::*;

verus! {

/// A JSON number. A number that is no 64-bit integer is kept as it is written.
#[derive(Debug, PartialEq)]
pub enum Number {
    Unsigned(u64),
    Negative(i64),
    Real(String),
}

/// A JSON value. An object lists its entries; the first of a name counts.
#[derive(Debug, PartialEq)]
pub enum Value {
    Null,
    Bool(bool),
    Number(Number),
    Text(String),
    Array(Vec<Value>),
    Object(Vec<(String, Value)>),
}

/// What a [`Number`] stands for.
pub ghost enum Num {
    Unsigned(u64),
    Negative(i64),
    Real(Seq<char>),
}

/// What a [`Value`] stands for.
pub ghost enum Json {
    Null,
    Bool(bool),
    Number(Num),
    Text(Seq<char>),
    Array(Seq<Json>),
    Object(Seq<(Seq<char>, Json)>),
}

impl View for Number {
    type V = Num;

    open spec fn view(&self) -> Num {
        match *self {
            Number::Unsigned(n) => Num::Unsigned(n),
            Number::Negative(n) => Num::Negative(n),
            Number::Real(s) => Num::Real(s@),
        }
    }
}

/// What `v` stands for.
pub open spec fn json(v: Value) -> Json
    decreases v,
{
    match v {
        Value::Null => Json::Null,
        Value::Bool(b) => Json::Bool(b),
        Value::Number(n) => Json::Number(n@),
        Value::Text(s) => Json::Text(s@),
        Value::Array(a) => Json::Array(
            Seq::new(
                a@.len(),
                |i: int|
                    if 0 <= i < a@.len() {
                        json(a@[i])
                    } else {
                        Json::Null
                    },
            ),
        ),
        Value::Object(o) => Json::Object(
            Seq::new(
                o@.len(),
                |i: int|
                    if 0 <= i < o@.len() {
                        (o@[i].0@, json(o@[i].1))
                    } else {
                        (Seq::empty(), Json::Null)
                    },
            ),
        ),
    }
}

impl View for Value {
    type V = Json;

    open spec fn view(&self) -> Json {
        json(*self)
    }
}

/// What a list of values stands for.
pub open spec fn jsons(v: Seq<Value>) -> Seq<Json> {
    Seq::new(v.len(), |i: int| v[i]@)
}

impl Value {
    /// A copy of the value.
    pub fn copy(&self) -> (r: Value)
        ensures
            r@ == self@,
        decreases *self,
    {
        match self {
            Value::Null => Value::Null,
            Value::Bool(b) => Value::Bool(*b),
            Value::Number(n) => Value::Number(
                match n {
                    Number::Unsigned(n) => Number::Unsigned(*n),
                    Number::Negative(n) => Number::Negative(*n),
                    Number::Real(s) => Number::Real(s.clone()),
                },
            ),
            Value::Text(s) => Value::Text(s.clone()),
            Value::Array(a) => {
                let mut out: Vec<Value> = Vec::new();
                let mut i: usize = 0;
                while i < a.len()
                    invariant
                        i <= a@.len(),
                        *self == Value::Array(*a),
                        out@.len() == i,
                        forall|j: int| 0 <= j < i ==> json(#[trigger] out@[j]) == json(a@[j]),
                    decreases a@.len() - i,
                {
                    assert(decreases_to!(self => self->Array_0));
                    assert(decreases_to!(a => a@));
                    assert(decreases_to!(a@ => a@[i as int]));
                    out.push(a[i].copy());
                    i = i + 1;
                }
                let r = Value::Array(out);
                assert(r@->Array_0 =~= self@->Array_0);
                r
            },
            Value::Object(o) => {
                let mut out: Vec<(String, Value)> = Vec::new();
                let mut i: usize = 0;
                while i < o.len()
                    invariant
                        i <= o@.len(),
                        *self == Value::Object(*o),
                        out@.len() == i,
                        forall|j: int|
                            0 <= j < i ==> (#[trigger] out@[j]).0@ == o@[j].0@ && json(out@[j].1)
                                == json(o@[j].1),
                    decreases o@.len() - i,
                {
                    assert(decreases_to!(self => self->Object_0));
                    assert(decreases_to!(o => o@));
                    assert(decreases_to!(o@ => o@[i as int]));
                    assert(decreases_to!(o@[i as int] => o@[i as int].1));
                    let e: &(String, Value) = &o[i];
                    out.push((e.0.clone(), e.1.copy()));
                    i = i + 1;
                }
                let r = Value::Object(out);
                assert(r@->Object_0 =~= self@->Object_0);
                r
            },
        }
    }
}

/// Copies a list of values.
pub fn copy_values(list: &Vec<Value>) -> (r: Vec<Value>)
    ensures
        jsons(r@) == jsons(list@),
{
    let mut r: Vec<Value> = Vec::new();
    let mut i: usize = 0;
    while i < list.len()
        invariant
            i <= list@.len(),
            r@.len() == i,
            forall|j: int| 0 <= j < i ==> (#[trigger] r@[j])@ == list@[j]@,
        decreases list@.len() - i,
    {
        r.push(list[i].copy());
        i = i + 1;
    }
    assert(jsons(r@) =~= jsons(list@));
    r
}

// ---- building -------------------------------------------------------------

/// The JSON of a whole number.
pub open spec fn uint_json(n: int) -> Json {
    Json::Number(Num::Unsigned(n as u64))
}

/// The JSON of a list of strings.
pub open spec fn texts_json(list: Seq<Seq<char>>) -> Json {
    Json::Array(Seq::new(list.len(), |i: int| Json::Text(list[i])))
}

/// A whole number.
pub fn uint(n: u64) -> (r: Value)
    ensures
        r@ == uint_json(n as int),
{
    Value::Number(Number::Unsigned(n))
}

/// A string.
pub fn text(s: &str) -> (r: Value)
    ensures
        r@ == Json::Text(s@),
{
    Value::Text(s.to_owned())
}

/// A list of strings.
pub fn texts(list: &Vec<String>) -> (r: Value)
    ensures
        r@ == texts_json(list.deep_view()),
{
    let mut out: Vec<Value> = Vec::new();
    let mut i: usize = 0;
    while i < list.len()
        invariant
            i <= list@.len(),
            out@.len() == i,
            forall|j: int| 0 <= j < i ==> json(#[trigger] out@[j]) == Json::Text(list@[j]@),
        decreases list@.len() - i,
    {
        out.push(Value::Text(list[i].clone()));
        i = i + 1;
    }
    let r = Value::Array(out);
    assert(r@->Array_0 =~= texts_json(list.deep_view())->Array_0);
    r
}

/// A list of values.
pub fn array(list: &Vec<Value>) -> (r: Value)
    ensures
        r@ == Json::Array(jsons(list@)),
{
    let r = Value::Array(copy_values(list));
    assert(r@->Array_0 =~= jsons(list@));
    r
}

/// What the entries of an object stand for.
pub open spec fn entries(o: Seq<(String, Value)>) -> Seq<(Seq<char>, Json)> {
    Seq::new(o.len(), |i: int| (o[i].0@, o[i].1@))
}

/// One entry of an object.
pub fn entry(name: &str, v: Value) -> (r: (String, Value))
    ensures
        r.0@ == name@,
        r.1 == v,
{
    (name.to_owned(), v)
}

/// An object.
pub fn object(list: Vec<(String, Value)>) -> (r: Value)
    ensures
        r@ == Json::Object(entries(list@)),
{
    let ghost e = entries(list@);
    let r = Value::Object(list);
    assert(r@->Object_0 =~= e);
    r
}

// ---- reading --------------------------------------------------------------

/// The position of the first entry called `name`, or the number of entries.
pub open spec fn entry_at(o: Seq<(Seq<char>, Json)>, name: Seq<char>) -> int
    decreases o.len(),
{
    if o.len() == 0 {
        0
    } else if o[0].0 == name {
        0
    } else {
        1 + entry_at(o.drop_first(), name)
    }
}

/// The entry of an object called `name`; of anything else, nothing.
pub open spec fn field(j: Json, name: Seq<char>) -> Option<Json> {
    match j {
        Json::Object(o) => if entry_at(o, name) < o.len() {
            Some(o[entry_at(o, name)].1)
        } else {
            None
        },
        _ => None,
    }
}

/// The Boolean that `j` is.
pub open spec fn bool_of(j: Json) -> Option<bool> {
    match j {
        Json::Bool(b) => Some(b),
        _ => None,
    }
}

/// The unsigned 64-bit number that `j` is.
pub open spec fn u64_of(j: Json) -> Option<u64> {
    match j {
        Json::Number(Num::Unsigned(n)) => Some(n),
        _ => None,
    }
}

/// The string that `j` is.
pub open spec fn text_in(j: Json) -> Option<Seq<char>> {
    match j {
        Json::Text(s) => Some(s),
        _ => None,
    }
}

/// The list that `j` is.
pub open spec fn array_of(j: Json) -> Option<Seq<Json>> {
    match j {
        Json::Array(a) => Some(a),
        _ => None,
    }
}

/// The Boolean called `name` in an object.
pub open spec fn bool_field(j: Json, name: Seq<char>) -> Option<bool> {
    match field(j, name) {
        Some(v) => bool_of(v),
        None => None,
    }
}

/// The unsigned number called `name` in an object.
pub open spec fn u64_field(j: Json, name: Seq<char>) -> Option<u64> {
    match field(j, name) {
        Some(v) => u64_of(v),
        None => None,
    }
}

/// The string called `name` in an object.
pub open spec fn text_field(j: Json, name: Seq<char>) -> Option<Seq<char>> {
    match field(j, name) {
        Some(v) => text_in(v),
        None => None,
    }
}

/// The list called `name` in an object.
pub open spec fn array_field(j: Json, name: Seq<char>) -> Option<Seq<Json>> {
    match field(j, name) {
        Some(v) => array_of(v),
        None => None,
    }
}

/// The strings of a list; what is no string is left out.
pub open spec fn strings_in(a: Seq<Json>) -> Seq<Seq<char>>
    decreases a.len(),
{
    if a.len() == 0 {
        Seq::empty()
    } else {
        let before = strings_in(a.drop_last());
        match a.last() {
            Json::Text(s) => before.push(s),
            _ => before,
        }
    }
}

/// `entry_at` is found by the first match from any point on.
proof fn entry_at_is(o: Seq<(Seq<char>, Json)>, name: Seq<char>, k: int)
    requires
        0 <= k <= o.len(),
        forall|i: int| 0 <= i < k ==> (#[trigger] o[i]).0 != name,
        k < o.len() ==> o[k].0 == name,
    ensures
        entry_at(o, name) == k,
    decreases o.len(),
{
    if k > 0 {
        let rest = o.drop_first();
        assert forall|i: int| 0 <= i < k - 1 implies (#[trigger] rest[i]).0 != name by {
            assert(rest[i] == o[i + 1]);
        }
        entry_at_is(rest, name, k - 1);
    }
}

impl Value {
    /// The entry of an object called `name`.
    pub fn get(&self, name: &str) -> (r: Option<&Value>)
        ensures
            match r {
                Some(v) => field(self@, name@) == Some(v@),
                None => field(self@, name@) is None,
            },
    {
        match self {
            Value::Object(o) => {
                let ghost js = self@->Object_0;
                let mut i: usize = 0;
                while i < o.len()
                    invariant
                        i <= o@.len(),
                        *self == Value::Object(*o),
                        js == self@->Object_0,
                        forall|j: int| 0 <= j < i ==> (#[trigger] o@[j]).0@ != name@,
                    decreases o@.len() - i,
                {
                    let e: &(String, Value) = &o[i];
                    if same(e.0.as_str(), name) {
                        proof {
                            assert forall|j: int| 0 <= j < i implies (#[trigger] js[j]).0
                                != name@ by {
                                assert(o@[j].0@ != name@);
                            }
                            entry_at_is(js, name@, i as int);
                        }
                        return Some(&e.1);
                    }
                    i = i + 1;
                }
                proof {
                    assert forall|j: int| 0 <= j < js.len() implies (#[trigger] js[j]).0
                        != name@ by {
                        assert(o@[j].0@ != name@);
                    }
                    entry_at_is(js, name@, js.len() as int);
                }
                None
            },
            _ => None,
        }
    }

    /// The Boolean that the value is.
    pub fn as_bool(&self) -> (r: Option<bool>)
        ensures
            r == bool_of(self@),
    {
        match self {
            Value::Bool(b) => Some(*b),
            _ => None,
        }
    }

    /// The unsigned 64-bit number that the value is.
    pub fn as_u64(&self) -> (r: Option<u64>)
        ensures
            r == u64_of(self@),
    {
        match self {
            Value::Number(Number::Unsigned(n)) => Some(*n),
            _ => None,
        }
    }

    /// The string that the value is.
    pub fn as_text(&self) -> (r: Option<&String>)
        ensures
            match r {
                Some(s) => text_in(self@) == Some(s@),
                None => text_in(self@) is None,
            },
    {
        match self {
            Value::Text(s) => Some(s),
            _ => None,
        }
    }

    /// The list that the value is.
    pub fn as_array(&self) -> (r: Option<&Vec<Value>>)
        ensures
            match r {
                Some(a) => array_of(self@) == Some(jsons(a@)),
                None => array_of(self@) is None,
            },
    {
        match self {
            Value::Array(a) => {
                assert(jsons(a@) =~= self@->Array_0);
                Some(a)
            },
            _ => None,
        }
    }

    /// The Boolean called `name` in an object.
    pub fn get_bool(&self, name: &str) -> (r: Option<bool>)
        ensures
            r == bool_field(self@, name@),
    {
        match self.get(name) {
            Some(v) => v.as_bool(),
            None => None,
        }
    }

    /// The unsigned number called `name` in an object.
    pub fn get_u64(&self, name: &str) -> (r: Option<u64>)
        ensures
            r == u64_field(self@, name@),
    {
        match self.get(name) {
            Some(v) => v.as_u64(),
            None => None,
        }
    }

    /// A copy of the string called `name` in an object.
    pub fn get_text(&self, name: &str) -> (r: Option<String>)
        ensures
            r.deep_view() == text_field(self@, name@),
    {
        match self.get(name) {
            Some(v) => match v.as_text() {
                Some(s) => Some(s.clone()),
                None => None,
            },
            None => None,
        }
    }

    /// The strings of the list called `name` in an object.
    pub fn get_texts(&self, name: &str) -> (r: Option<Vec<String>>)
        ensures
            match array_field(self@, name@) {
                Some(a) => r.deep_view() == Some(strings_in(a)),
                None => r is None,
            },
    {
        match self.get(name) {
            Some(v) => match v.as_array() {
                Some(a) => {
                    let r = strings_of(a);
                    Some(r)
                },
                None => None,
            },
            None => None,
        }
    }
}

/// The strings of a list; what is no string is left out.
pub fn strings_of(a: &Vec<Value>) -> (r: Vec<String>)
    ensures
        r.deep_view() == strings_in(jsons(a@)),
{
    let ghost all = jsons(a@);
    let mut r: Vec<String> = Vec::new();
    let mut i: usize = 0;
    assert(r.deep_view() =~= strings_in(all.take(0)));
    while i < a.len()
        invariant
            i <= a@.len(),
            all == jsons(a@),
            r.deep_view() == strings_in(all.take(i as int)),
        decreases a@.len() - i,
    {
        assert(all.take(i + 1).drop_last() =~= all.take(i as int));
        assert(all.take(i + 1).last() == a@[i as int]@);
        let ghost before = r.deep_view();
        if let Value::Text(s) = &a[i] {
            r.push(s.clone());
            assert(r.deep_view() =~= before.push(s@));
        }
        i = i + 1;
    }
    assert(all.take(all.len() as int) =~= all);
    r
}

// ---- laws -----------------------------------------------------------------

/// The first entry of a name counts.
pub proof fn which_entry_counts(
    e: (Seq<char>, Json),
    o: Seq<(Seq<char>, Json)>,
    name: Seq<char>,
)
    ensures
        field(Json::Object(Seq::empty()), name) is None,
        e.0 == name ==> field(Json::Object(seq![e] + o), name) == Some(e.1),
        e.0 != name ==> field(Json::Object(seq![e] + o), name) == field(Json::Object(o), name),
{
    let all = seq![e] + o;
    assert(all.drop_first() =~= o);
    entry_in(o, name);
    if e.0 != name && entry_at(o, name) < o.len() {
        assert(all[1 + entry_at(o, name)] == o[entry_at(o, name)]);
    }
}

proof fn entry_in(o: Seq<(Seq<char>, Json)>, name: Seq<char>)
    ensures
        0 <= entry_at(o, name) <= o.len(),
    decreases o.len(),
{
    if o.len() > 0 {
        entry_in(o.drop_first(), name);
    }
}

/// A value is read only as what it is.
pub proof fn a_value_is_read_as_what_it_is(v: &Value, b: Option<bool>, n: Option<u64>)
    requires
        call_ensures(Value::as_bool, (v,), b),
        call_ensures(Value::as_u64, (v,), n),
    ensures
        b is Some <==> *v is Bool,
        *v matches Value::Bool(x) ==> b == Some(x),
        n is Some <==> *v matches Value::Number(Number::Unsigned(_)),
        *v matches Value::Number(Number::Unsigned(x)) ==> n == Some(x),
{
}

/// Of a list the strings are read, in order, and nothing else.
pub proof fn which_strings_are_read(a: Seq<Json>, j: Json)
    ensures
        strings_in(Seq::empty()) == Seq::<Seq<char>>::empty(),
        j matches Json::Text(s) ==> strings_in(a.push(j)) == strings_in(a).push(s),
        !(j is Text) ==> strings_in(a.push(j)) == strings_in(a),
{
    assert(a.push(j).drop_last() =~= a);
}

} // verus!
