//! The lists of outside accounts: search sites, notify targets, *arr
//! instances. Each holds a credential that a blank one in a new list keeps.
use super::outcome::{refused, taken, Outcome};
use crate::daemon::{ArrInstance, Automation, Daemon, Feed, Indexer, Target};
use crate::text::{glue, glue3, http, is_http, same, trim, trimmed};
use crate::value::{entries, entry, jsons, object, text, uint, uint_json, Json, Value};
use vstd::prelude::*;

verus! {

// ---- search sites ---------------------------------------------------------

/// What an [`Indexer`] holds.
pub ghost struct IndexerView {
    pub name: Seq<char>,
    pub url: Seq<char>,
    pub apikey: Seq<char>,
    pub enabled: bool,
    pub priority: u64,
    pub hits_per_day: u64,
    pub grabs_per_day: u64,
}

impl View for Indexer {
    type V = IndexerView;

    open spec fn view(&self) -> IndexerView {
        IndexerView {
            name: self.name@,
            url: self.url@,
            apikey: self.apikey@,
            enabled: self.enabled,
            priority: self.priority,
            hits_per_day: self.hits_per_day,
            grabs_per_day: self.grabs_per_day,
        }
    }
}

/// What a list of search sites holds.
pub open spec fn indexers(list: Seq<Indexer>) -> Seq<IndexerView> {
    Seq::new(list.len(), |i: int| list[i]@)
}

/// The key stored under a name.
pub open spec fn key_under(list: Seq<IndexerView>, name: Seq<char>) -> Option<Seq<char>>
    decreases list.len(),
{
    if list.len() == 0 {
        None
    } else if list[0].name == name {
        Some(list[0].apikey)
    } else {
        key_under(list.drop_first(), name)
    }
}

/// A new entry as it is stored: trimmed, and with the stored key of its name
/// where it brings none.
pub open spec fn merged_indexer(i: IndexerView, cur: Seq<IndexerView>) -> IndexerView {
    let name = trimmed(i.name);
    IndexerView {
        name,
        url: trimmed(i.url),
        apikey: if i.apikey.len() > 0 {
            i.apikey
        } else {
            match key_under(cur, name) {
                Some(k) => k,
                None => i.apikey,
            }
        },
        ..i
    }
}

/// A new list as it is stored.
pub open spec fn merged_indexers(
    list: Seq<IndexerView>,
    cur: Seq<IndexerView>,
) -> Seq<IndexerView> {
    Seq::new(list.len(), |i: int| merged_indexer(list[i], cur))
}

/// Whether a name occurs in the list.
pub open spec fn has_name(list: Seq<IndexerView>, name: Seq<char>) -> bool {
    exists|i: int| 0 <= i < list.len() && (#[trigger] list[i]).name == name
}

/// Why a list is refused, by its first fault.
pub open spec fn indexers_fault(list: Seq<IndexerView>) -> Option<Seq<char>>
    decreases list.len(),
{
    if list.len() == 0 {
        None
    } else {
        let i = list.last();
        match indexers_fault(list.drop_last()) {
            Some(e) => Some(e),
            None => if i.name.len() == 0 || i.url.len() == 0 {
                Some("indexers: every entry needs a name and a URL"@)
            } else if !is_http(i.url) {
                Some("indexers: "@ + i.name + ": the URL must be http(s)"@)
            } else if has_name(list.drop_last(), i.name) {
                Some("indexers: duplicate name "@ + i.name)
            } else {
                None
            },
        }
    }
}

proof fn indexers_fault_stays(list: Seq<IndexerView>, n: int)
    requires
        0 <= n <= list.len(),
        indexers_fault(list.take(n)) is Some,
    ensures
        indexers_fault(list) == indexers_fault(list.take(n)),
    decreases list.len(),
{
    if n == list.len() {
        assert(list.take(n) =~= list);
    } else {
        assert(list.drop_last().take(n) =~= list.take(n));
        indexers_fault_stays(list.drop_last(), n);
    }
}

/// The JSON that an entry is saved as.
pub open spec fn indexer_json(i: IndexerView) -> Json {
    Json::Object(
        seq![
            ("name"@, Json::Text(i.name)),
            ("url"@, Json::Text(i.url)),
            ("apikey"@, Json::Text(i.apikey)),
            ("enabled"@, Json::Bool(i.enabled)),
            ("priority"@, uint_json(i.priority as int)),
            ("hits_per_day"@, uint_json(i.hits_per_day as int)),
            ("grabs_per_day"@, uint_json(i.grabs_per_day as int)),
        ],
    )
}

fn indexer_value(i: &Indexer) -> (r: Value)
    ensures
        r@ == indexer_json(i@),
{
    let list: Vec<(String, Value)> = vec![
        entry("name", text(i.name.as_str())),
        entry("url", text(i.url.as_str())),
        entry("apikey", text(i.apikey.as_str())),
        entry("enabled", Value::Bool(i.enabled)),
        entry("priority", uint(i.priority)),
        entry("hits_per_day", uint(i.hits_per_day)),
        entry("grabs_per_day", uint(i.grabs_per_day)),
    ];
    assert(entries(list@) =~= indexer_json(i@)->Object_0);
    object(list)
}

fn find_key(list: &Vec<Indexer>, name: &str) -> (r: Option<String>)
    ensures
        r.deep_view() == key_under(indexers(list@), name@),
{
    let ghost all = indexers(list@);
    let mut i: usize = 0;
    assert(all.skip(0) =~= all);
    while i < list.len()
        invariant
            i <= list@.len(),
            all == indexers(list@),
            key_under(all, name@) == key_under(all.skip(i as int), name@),
        decreases list@.len() - i,
    {
        let e: &Indexer = &list[i];
        let ghost rest = all.skip(i as int);
        assert(rest[0] == e@);
        assert(rest.drop_first() =~= all.skip(i + 1));
        if same(e.name.as_str(), name) {
            return Some(e.apikey.clone());
        }
        i = i + 1;
    }
    assert(all.skip(i as int).len() == 0);
    None
}

fn merge_indexer(i: &Indexer, cur: &Vec<Indexer>) -> (r: Indexer)
    ensures
        r@ == merged_indexer(i@, indexers(cur@)),
{
    let name: String = trim(i.name.as_str());
    let apikey: String = if !i.apikey.as_str().is_empty() {
        i.apikey.clone()
    } else {
        match find_key(cur, name.as_str()) {
            Some(k) => k,
            None => i.apikey.clone(),
        }
    };
    Indexer {
        name,
        url: trim(i.url.as_str()),
        apikey,
        enabled: i.enabled,
        priority: i.priority,
        hits_per_day: i.hits_per_day,
        grabs_per_day: i.grabs_per_day,
    }
}

fn merge_indexers(list: &Vec<Indexer>, cur: &Vec<Indexer>) -> (r: Vec<Indexer>)
    ensures
        indexers(r@) == merged_indexers(indexers(list@), indexers(cur@)),
{
    let mut r: Vec<Indexer> = Vec::new();
    let mut i: usize = 0;
    while i < list.len()
        invariant
            i <= list@.len(),
            r@.len() == i,
            forall|j: int|
                0 <= j < i ==> (#[trigger] r@[j])@ == merged_indexer(list@[j]@, indexers(cur@)),
        decreases list@.len() - i,
    {
        r.push(merge_indexer(&list[i], cur));
        i = i + 1;
    }
    assert(indexers(r@) =~= merged_indexers(indexers(list@), indexers(cur@)));
    r
}

fn named_before(list: &Vec<Indexer>, n: usize, name: &str) -> (r: bool)
    requires
        n <= list@.len(),
    ensures
        r == has_name(indexers(list@).take(n as int), name@),
{
    let ghost part = indexers(list@).take(n as int);
    let mut i: usize = 0;
    while i < n
        invariant
            i <= n <= list@.len(),
            part == indexers(list@).take(n as int),
            forall|j: int| 0 <= j < i ==> (#[trigger] part[j]).name != name@,
        decreases n - i,
    {
        assert(part[i as int] == list@[i as int]@);
        if same(list[i].name.as_str(), name) {
            return true;
        }
        i = i + 1;
    }
    false
}

fn check_indexers(list: &Vec<Indexer>) -> (r: Option<String>)
    ensures
        r.deep_view() == indexers_fault(indexers(list@)),
{
    let ghost all = indexers(list@);
    let mut i: usize = 0;
    while i < list.len()
        invariant
            i <= list@.len(),
            all == indexers(list@),
            indexers_fault(all.take(i as int)) is None,
        decreases list@.len() - i,
    {
        let e: &Indexer = &list[i];
        assert(all.take(i + 1).drop_last() =~= all.take(i as int));
        assert(all.take(i + 1).last() == e@);
        let fault: Option<String> = if e.name.as_str().is_empty() || e.url.as_str().is_empty() {
            Some("indexers: every entry needs a name and a URL".to_owned())
        } else if !http(e.url.as_str()) {
            Some(glue3("indexers: ", e.name.as_str(), ": the URL must be http(s)"))
        } else if named_before(list, i, e.name.as_str()) {
            Some(glue("indexers: duplicate name ", e.name.as_str()))
        } else {
            None
        };
        if fault.is_some() {
            proof {
                indexers_fault_stays(all, i + 1);
            }
            return fault;
        }
        i = i + 1;
    }
    assert(all.take(all.len() as int) =~= all);
    None
}

/// The JSON of a list of search sites.
pub open spec fn indexers_json(list: Seq<IndexerView>) -> Json {
    Json::Array(Seq::new(list.len(), |i: int| indexer_json(list[i])))
}

fn indexers_value(list: &Vec<Indexer>) -> (r: Value)
    ensures
        r@ == indexers_json(indexers(list@)),
{
    let mut out: Vec<Value> = Vec::new();
    let mut i: usize = 0;
    while i < list.len()
        invariant
            i <= list@.len(),
            out@.len() == i,
            forall|j: int| 0 <= j < i ==> (#[trigger] out@[j])@ == indexer_json(list@[j]@),
        decreases list@.len() - i,
    {
        out.push(indexer_value(&list[i]));
        i = i + 1;
    }
    assert(jsons(out@) =~= indexers_json(indexers(list@))->Array_0);
    let r = Value::Array(out);
    assert(r@->Array_0 =~= jsons(out@));
    r
}

/// What a typed list of search sites is: nothing for an empty text, else what
/// was read of it.
pub open spec fn given_indexers(v: Seq<char>, parsed: Seq<Indexer>) -> Seq<IndexerView> {
    if trimmed(v).len() == 0 {
        Seq::empty()
    } else {
        indexers(parsed)
    }
}

/// What setting `indexers` to a value comes to.
pub open spec fn indexers_set(
    old: Daemon,
    v: Seq<char>,
    parsed: Result<Vec<Indexer>, String>,
    r: Outcome,
    new: Daemon,
) -> bool {
    if trimmed(v).len() > 0 && parsed is Err {
        refused(old, r, new, "indexers: "@ + parsed->Err_0@)
    } else {
        let list = merged_indexers(
            given_indexers(v, parsed->Ok_0@),
            indexers(old.automation.indexers@),
        );
        match indexers_fault(list) {
            Some(e) => refused(old, r, new, e),
            None => {
                &&& taken(r, true, indexers_json(list))
                &&& new == (Daemon {
                    automation: Automation { indexers: new.automation.indexers, ..old.automation },
                    ..old
                })
                &&& indexers(new.automation.indexers@) == list
            },
        }
    }
}

/// Sets the search sites from what was read of the value. An entry without a
/// key keeps the one stored under its name.
pub fn set_indexers(
    d: &mut Daemon,
    _name: &str,
    v: &str,
    parsed: Result<Vec<Indexer>, String>,
) -> (r: Outcome)
    ensures
        indexers_set(*old(d), v@, parsed, r, *final(d)),
{
    let given: Vec<Indexer> = if trim(v).as_str().is_empty() {
        Vec::new()
    } else {
        match parsed {
            Ok(list) => list,
            Err(e) => {
                return Err(glue("indexers: ", e.as_str()));
            },
        }
    };
    assert(indexers(given@) =~= given_indexers(v@, parsed->Ok_0@));
    let list: Vec<Indexer> = merge_indexers(&given, &d.automation.indexers);
    if let Some(e) = check_indexers(&list) {
        return Err(e);
    }
    let persist = indexers_value(&list);
    d.automation.indexers = list;
    Ok((true, persist))
}

// ---- *arr instances -------------------------------------------------------

/// What an [`ArrInstance`] holds.
pub ghost struct ArrView {
    pub name: Seq<char>,
    pub kind: Seq<char>,
    pub url: Seq<char>,
    pub apikey: Seq<char>,
    pub enabled: bool,
}

impl View for ArrInstance {
    type V = ArrView;

    open spec fn view(&self) -> ArrView {
        ArrView {
            name: self.name@,
            kind: self.kind@,
            url: self.url@,
            apikey: self.apikey@,
            enabled: self.enabled,
        }
    }
}

/// What a list of instances holds.
pub open spec fn instances(list: Seq<ArrInstance>) -> Seq<ArrView> {
    Seq::new(list.len(), |i: int| list[i]@)
}

/// The text that `{:?}` prints for a string.
pub uninterp spec fn quoted(s: Seq<char>) -> Seq<char>;

/// `format!` with `{:?}` on a string: quotes around it, and what needs it
/// escaped. The result depends on the characters alone.
#[verifier::external_body]
pub(crate) fn quote(s: &str) -> (r: String)
    ensures
        r@ == quoted(s@),
{
    format!("{s:?}")
}

/// Why a list is refused, by its first fault.
pub open spec fn instances_fault(list: Seq<ArrView>) -> Option<Seq<char>>
    decreases list.len(),
{
    if list.len() == 0 {
        None
    } else {
        let i = list.last();
        match instances_fault(list.drop_last()) {
            Some(e) => Some(e),
            None => if !(i.kind == "sonarr"@ || i.kind == "radarr"@) {
                Some("arr_instances: kind must be sonarr or radarr, not "@ + quoted(i.kind))
            } else if !is_http(trimmed(i.url)) {
                Some("arr_instances: url must start with http:// or https://"@)
            } else {
                None
            },
        }
    }
}

proof fn instances_fault_stays(list: Seq<ArrView>, n: int)
    requires
        0 <= n <= list.len(),
        instances_fault(list.take(n)) is Some,
    ensures
        instances_fault(list) == instances_fault(list.take(n)),
    decreases list.len(),
{
    if n == list.len() {
        assert(list.take(n) =~= list);
    } else {
        assert(list.drop_last().take(n) =~= list.take(n));
        instances_fault_stays(list.drop_last(), n);
    }
}

/// The key stored for a kind at an address.
pub open spec fn key_at(list: Seq<ArrView>, kind: Seq<char>, url: Seq<char>) -> Option<Seq<char>>
    decreases list.len(),
{
    if list.len() == 0 {
        None
    } else if list[0].kind == kind && list[0].url == url {
        Some(list[0].apikey)
    } else {
        key_at(list.drop_first(), kind, url)
    }
}

/// The key stored for a kind under a name.
pub open spec fn key_named(list: Seq<ArrView>, kind: Seq<char>, name: Seq<char>) -> Option<Seq<char>>
    decreases list.len(),
{
    if list.len() == 0 {
        None
    } else if list[0].kind == kind && list[0].name == name {
        Some(list[0].apikey)
    } else {
        key_named(list.drop_first(), kind, name)
    }
}

/// A new instance as it is stored: a blank key is that of the same kind and
/// address, or else of the same kind and name.
pub open spec fn merged_instance(i: ArrView, cur: Seq<ArrView>) -> ArrView {
    if i.apikey.len() > 0 {
        i
    } else {
        match key_at(cur, i.kind, i.url) {
            Some(k) => ArrView { apikey: k, ..i },
            None => match key_named(cur, i.kind, i.name) {
                Some(k) => ArrView { apikey: k, ..i },
                None => i,
            },
        }
    }
}

/// A new list as it is stored.
pub open spec fn merged_instances(list: Seq<ArrView>, cur: Seq<ArrView>) -> Seq<ArrView> {
    Seq::new(list.len(), |i: int| merged_instance(list[i], cur))
}

/// The JSON that an instance is saved as.
pub open spec fn instance_json(i: ArrView) -> Json {
    Json::Object(
        seq![
            ("name"@, Json::Text(i.name)),
            ("kind"@, Json::Text(i.kind)),
            ("url"@, Json::Text(i.url)),
            ("apikey"@, Json::Text(i.apikey)),
            ("enabled"@, Json::Bool(i.enabled)),
        ],
    )
}

/// The JSON of a list of instances.
pub open spec fn instances_json(list: Seq<ArrView>) -> Json {
    Json::Array(Seq::new(list.len(), |i: int| instance_json(list[i])))
}

fn instance_value(i: &ArrInstance) -> (r: Value)
    ensures
        r@ == instance_json(i@),
{
    let list: Vec<(String, Value)> = vec![
        entry("name", text(i.name.as_str())),
        entry("kind", text(i.kind.as_str())),
        entry("url", text(i.url.as_str())),
        entry("apikey", text(i.apikey.as_str())),
        entry("enabled", Value::Bool(i.enabled)),
    ];
    assert(entries(list@) =~= instance_json(i@)->Object_0);
    object(list)
}

fn instances_value(list: &Vec<ArrInstance>) -> (r: Value)
    ensures
        r@ == instances_json(instances(list@)),
{
    let mut out: Vec<Value> = Vec::new();
    let mut i: usize = 0;
    while i < list.len()
        invariant
            i <= list@.len(),
            out@.len() == i,
            forall|j: int| 0 <= j < i ==> (#[trigger] out@[j])@ == instance_json(list@[j]@),
        decreases list@.len() - i,
    {
        out.push(instance_value(&list[i]));
        i = i + 1;
    }
    assert(jsons(out@) =~= instances_json(instances(list@))->Array_0);
    let r = Value::Array(out);
    assert(r@->Array_0 =~= jsons(out@));
    r
}

fn check_instances(list: &Vec<ArrInstance>) -> (r: Option<String>)
    ensures
        r.deep_view() == instances_fault(instances(list@)),
{
    let ghost all = instances(list@);
    let mut i: usize = 0;
    while i < list.len()
        invariant
            i <= list@.len(),
            all == instances(list@),
            instances_fault(all.take(i as int)) is None,
        decreases list@.len() - i,
    {
        let e: &ArrInstance = &list[i];
        assert(all.take(i + 1).drop_last() =~= all.take(i as int));
        assert(all.take(i + 1).last() == e@);
        let fault: Option<String> = if !(same(e.kind.as_str(), "sonarr") || same(
            e.kind.as_str(),
            "radarr",
        )) {
            Some(
                glue(
                    "arr_instances: kind must be sonarr or radarr, not ",
                    quote(e.kind.as_str()).as_str(),
                ),
            )
        } else if !http(trim(e.url.as_str()).as_str()) {
            Some("arr_instances: url must start with http:// or https://".to_owned())
        } else {
            None
        };
        if fault.is_some() {
            proof {
                instances_fault_stays(all, i + 1);
            }
            return fault;
        }
        i = i + 1;
    }
    assert(all.take(all.len() as int) =~= all);
    None
}

fn find_key_at(list: &Vec<ArrInstance>, kind: &str, url: &str) -> (r: Option<String>)
    ensures
        r.deep_view() == key_at(instances(list@), kind@, url@),
{
    let ghost all = instances(list@);
    let mut i: usize = 0;
    assert(all.skip(0) =~= all);
    while i < list.len()
        invariant
            i <= list@.len(),
            all == instances(list@),
            key_at(all, kind@, url@) == key_at(all.skip(i as int), kind@, url@),
        decreases list@.len() - i,
    {
        let e: &ArrInstance = &list[i];
        let ghost rest = all.skip(i as int);
        assert(rest[0] == e@);
        assert(rest.drop_first() =~= all.skip(i + 1));
        if same(e.kind.as_str(), kind) && same(e.url.as_str(), url) {
            return Some(e.apikey.clone());
        }
        i = i + 1;
    }
    assert(all.skip(i as int).len() == 0);
    None
}

fn find_key_named(list: &Vec<ArrInstance>, kind: &str, name: &str) -> (r: Option<String>)
    ensures
        r.deep_view() == key_named(instances(list@), kind@, name@),
{
    let ghost all = instances(list@);
    let mut i: usize = 0;
    assert(all.skip(0) =~= all);
    while i < list.len()
        invariant
            i <= list@.len(),
            all == instances(list@),
            key_named(all, kind@, name@) == key_named(all.skip(i as int), kind@, name@),
        decreases list@.len() - i,
    {
        let e: &ArrInstance = &list[i];
        let ghost rest = all.skip(i as int);
        assert(rest[0] == e@);
        assert(rest.drop_first() =~= all.skip(i + 1));
        if same(e.kind.as_str(), kind) && same(e.name.as_str(), name) {
            return Some(e.apikey.clone());
        }
        i = i + 1;
    }
    assert(all.skip(i as int).len() == 0);
    None
}

fn merge_instance(i: &ArrInstance, cur: &Vec<ArrInstance>) -> (r: ArrInstance)
    ensures
        r@ == merged_instance(i@, instances(cur@)),
{
    let apikey: String = if !i.apikey.as_str().is_empty() {
        i.apikey.clone()
    } else {
        match find_key_at(cur, i.kind.as_str(), i.url.as_str()) {
            Some(k) => k,
            None => match find_key_named(cur, i.kind.as_str(), i.name.as_str()) {
                Some(k) => k,
                None => i.apikey.clone(),
            },
        }
    };
    ArrInstance {
        name: i.name.clone(),
        kind: i.kind.clone(),
        url: i.url.clone(),
        apikey,
        enabled: i.enabled,
    }
}

fn merge_instances(list: &Vec<ArrInstance>, cur: &Vec<ArrInstance>) -> (r: Vec<ArrInstance>)
    ensures
        instances(r@) == merged_instances(instances(list@), instances(cur@)),
{
    let mut r: Vec<ArrInstance> = Vec::new();
    let mut i: usize = 0;
    while i < list.len()
        invariant
            i <= list@.len(),
            r@.len() == i,
            forall|j: int|
                0 <= j < i ==> (#[trigger] r@[j])@ == merged_instance(list@[j]@, instances(cur@)),
        decreases list@.len() - i,
    {
        r.push(merge_instance(&list[i], cur));
        i = i + 1;
    }
    assert(instances(r@) =~= merged_instances(instances(list@), instances(cur@)));
    r
}

/// What a typed list of instances is.
pub open spec fn given_instances(v: Seq<char>, parsed: Seq<ArrInstance>) -> Seq<ArrView> {
    if trimmed(v).len() == 0 {
        Seq::empty()
    } else {
        instances(parsed)
    }
}

/// What setting `arr_instances` to a value comes to.
pub open spec fn arr_instances_set(
    old: Daemon,
    v: Seq<char>,
    parsed: Result<Vec<ArrInstance>, String>,
    r: Outcome,
    new: Daemon,
) -> bool {
    if trimmed(v).len() > 0 && parsed is Err {
        refused(old, r, new, "arr_instances: "@ + parsed->Err_0@)
    } else {
        let given = given_instances(v, parsed->Ok_0@);
        match instances_fault(given) {
            Some(e) => refused(old, r, new, e),
            None => {
                let list = merged_instances(given, instances(old.automation.arr_instances@));
                &&& taken(r, true, instances_json(list))
                &&& new == (Daemon {
                    automation: Automation {
                        arr_instances: new.automation.arr_instances,
                        ..old.automation
                    },
                    ..old
                })
                &&& instances(new.automation.arr_instances@) == list
            },
        }
    }
}

/// Sets the *arr instances from what was read of the value. A blank key keeps
/// the stored one.
pub fn set_arr_instances(
    d: &mut Daemon,
    _name: &str,
    v: &str,
    parsed: Result<Vec<ArrInstance>, String>,
) -> (r: Outcome)
    ensures
        arr_instances_set(*old(d), v@, parsed, r, *final(d)),
{
    let given: Vec<ArrInstance> = if trim(v).as_str().is_empty() {
        Vec::new()
    } else {
        match parsed {
            Ok(list) => list,
            Err(e) => {
                return Err(glue("arr_instances: ", e.as_str()));
            },
        }
    };
    assert(instances(given@) =~= given_instances(v@, parsed->Ok_0@));
    if let Some(e) = check_instances(&given) {
        return Err(e);
    }
    let list: Vec<ArrInstance> = merge_instances(&given, &d.automation.arr_instances);
    let persist = instances_value(&list);
    d.automation.arr_instances = list;
    Ok((true, persist))
}

// ---- notify targets -------------------------------------------------------

/// What a [`Target`] holds.
pub ghost struct TargetView {
    pub name: Seq<char>,
    pub kind: Seq<char>,
    pub url: Seq<char>,
    pub token: Seq<char>,
    pub body: Seq<char>,
    pub enabled: bool,
    pub on_failure: bool,
    pub category: Seq<char>,
}

impl View for Target {
    type V = TargetView;

    open spec fn view(&self) -> TargetView {
        TargetView {
            name: self.name@,
            kind: self.kind@,
            url: self.url@,
            token: self.token@,
            body: self.body@,
            enabled: self.enabled,
            on_failure: self.on_failure,
            category: self.category@,
        }
    }
}

/// What a list of targets holds.
pub open spec fn targets(list: Seq<Target>) -> Seq<TargetView> {
    Seq::new(list.len(), |i: int| list[i]@)
}

/// The token stored for a kind, an address and a name.
pub open spec fn token_of(
    list: Seq<TargetView>,
    kind: Seq<char>,
    url: Seq<char>,
    name: Seq<char>,
) -> Option<Seq<char>>
    decreases list.len(),
{
    if list.len() == 0 {
        None
    } else if list[0].kind == kind && list[0].url == url && list[0].name == name {
        Some(list[0].token)
    } else {
        token_of(list.drop_first(), kind, url, name)
    }
}

/// A new target as it is stored: a blank token is that of the same kind,
/// address and name.
pub open spec fn merged_target(t: TargetView, cur: Seq<TargetView>) -> TargetView {
    if t.token.len() > 0 {
        t
    } else {
        match token_of(cur, t.kind, t.url, t.name) {
            Some(k) => TargetView { token: k, ..t },
            None => t,
        }
    }
}

/// A new list as it is stored.
pub open spec fn merged_targets(list: Seq<TargetView>, cur: Seq<TargetView>) -> Seq<TargetView> {
    Seq::new(list.len(), |i: int| merged_target(list[i], cur))
}

/// The JSON that a target is saved as.
pub open spec fn target_json(t: TargetView) -> Json {
    Json::Object(
        seq![
            ("name"@, Json::Text(t.name)),
            ("kind"@, Json::Text(t.kind)),
            ("url"@, Json::Text(t.url)),
            ("token"@, Json::Text(t.token)),
            ("body"@, Json::Text(t.body)),
            ("enabled"@, Json::Bool(t.enabled)),
            ("on_failure"@, Json::Bool(t.on_failure)),
            ("category"@, Json::Text(t.category)),
        ],
    )
}

/// The JSON of a list of targets.
pub open spec fn targets_json(list: Seq<TargetView>) -> Json {
    Json::Array(Seq::new(list.len(), |i: int| target_json(list[i])))
}

fn target_value(t: &Target) -> (r: Value)
    ensures
        r@ == target_json(t@),
{
    let list: Vec<(String, Value)> = vec![
        entry("name", text(t.name.as_str())),
        entry("kind", text(t.kind.as_str())),
        entry("url", text(t.url.as_str())),
        entry("token", text(t.token.as_str())),
        entry("body", text(t.body.as_str())),
        entry("enabled", Value::Bool(t.enabled)),
        entry("on_failure", Value::Bool(t.on_failure)),
        entry("category", text(t.category.as_str())),
    ];
    assert(entries(list@) =~= target_json(t@)->Object_0);
    object(list)
}

fn targets_value(list: &Vec<Target>) -> (r: Value)
    ensures
        r@ == targets_json(targets(list@)),
{
    let mut out: Vec<Value> = Vec::new();
    let mut i: usize = 0;
    while i < list.len()
        invariant
            i <= list@.len(),
            out@.len() == i,
            forall|j: int| 0 <= j < i ==> (#[trigger] out@[j])@ == target_json(list@[j]@),
        decreases list@.len() - i,
    {
        out.push(target_value(&list[i]));
        i = i + 1;
    }
    assert(jsons(out@) =~= targets_json(targets(list@))->Array_0);
    let r = Value::Array(out);
    assert(r@->Array_0 =~= jsons(out@));
    r
}

fn find_token(list: &Vec<Target>, kind: &str, url: &str, name: &str) -> (r: Option<String>)
    ensures
        r.deep_view() == token_of(targets(list@), kind@, url@, name@),
{
    let ghost all = targets(list@);
    let mut i: usize = 0;
    assert(all.skip(0) =~= all);
    while i < list.len()
        invariant
            i <= list@.len(),
            all == targets(list@),
            token_of(all, kind@, url@, name@) == token_of(all.skip(i as int), kind@, url@, name@),
        decreases list@.len() - i,
    {
        let e: &Target = &list[i];
        let ghost rest = all.skip(i as int);
        assert(rest[0] == e@);
        assert(rest.drop_first() =~= all.skip(i + 1));
        if same(e.kind.as_str(), kind) && same(e.url.as_str(), url) && same(
            e.name.as_str(),
            name,
        ) {
            return Some(e.token.clone());
        }
        i = i + 1;
    }
    assert(all.skip(i as int).len() == 0);
    None
}

fn merge_target(t: &Target, cur: &Vec<Target>) -> (r: Target)
    ensures
        r@ == merged_target(t@, targets(cur@)),
{
    let token: String = if !t.token.as_str().is_empty() {
        t.token.clone()
    } else {
        match find_token(cur, t.kind.as_str(), t.url.as_str(), t.name.as_str()) {
            Some(k) => k,
            None => t.token.clone(),
        }
    };
    Target {
        name: t.name.clone(),
        kind: t.kind.clone(),
        url: t.url.clone(),
        token,
        body: t.body.clone(),
        enabled: t.enabled,
        on_failure: t.on_failure,
        category: t.category.clone(),
    }
}

/// Carries the stored tokens onto the blank ones of a new list.
pub fn merge_notify_tokens(list: &Vec<Target>, cur: &Vec<Target>) -> (r: Vec<Target>)
    ensures
        targets(r@) == merged_targets(targets(list@), targets(cur@)),
{
    let mut r: Vec<Target> = Vec::new();
    let mut i: usize = 0;
    while i < list.len()
        invariant
            i <= list@.len(),
            r@.len() == i,
            forall|j: int|
                0 <= j < i ==> (#[trigger] r@[j])@ == merged_target(list@[j]@, targets(cur@)),
        decreases list@.len() - i,
    {
        r.push(merge_target(&list[i], cur));
        i = i + 1;
    }
    assert(targets(r@) =~= merged_targets(targets(list@), targets(cur@)));
    r
}

/// What a typed list of targets is.
pub open spec fn given_targets(v: Seq<char>, parsed: Seq<Target>) -> Seq<TargetView> {
    if trimmed(v).len() == 0 {
        Seq::empty()
    } else {
        targets(parsed)
    }
}

/// What setting `notify_targets` to a value comes to.
pub open spec fn notify_targets_set(
    old: Daemon,
    v: Seq<char>,
    parsed: Result<Vec<Target>, String>,
    r: Outcome,
    new: Daemon,
) -> bool {
    if trimmed(v).len() > 0 && parsed is Err {
        refused(old, r, new, "notify_targets: "@ + parsed->Err_0@)
    } else {
        let list = merged_targets(
            given_targets(v, parsed->Ok_0@),
            targets(old.automation.notify_targets@),
        );
        &&& taken(r, true, targets_json(list))
        &&& new == (Daemon {
            automation: Automation {
                notify_targets: new.automation.notify_targets,
                ..old.automation
            },
            ..old
        })
        &&& targets(new.automation.notify_targets@) == list
    }
}

/// Sets who is told of finished jobs, from what was read of the value. A
/// blank token keeps the stored one.
pub fn set_notify_targets(
    d: &mut Daemon,
    _name: &str,
    v: &str,
    parsed: Result<Vec<Target>, String>,
) -> (r: Outcome)
    ensures
        notify_targets_set(*old(d), v@, parsed, r, *final(d)),
{
    let given: Vec<Target> = if trim(v).as_str().is_empty() {
        Vec::new()
    } else {
        match parsed {
            Ok(list) => list,
            Err(e) => {
                return Err(glue("notify_targets: ", e.as_str()));
            },
        }
    };
    assert(targets(given@) =~= given_targets(v@, parsed->Ok_0@));
    let list: Vec<Target> = merge_notify_tokens(&given, &d.automation.notify_targets);
    let persist = targets_value(&list);
    d.automation.notify_targets = list;
    Ok((true, persist))
}

// ---- feeds ----------------------------------------------------------------

/// What the feeds are saved as.
pub open spec fn feeds_json(list: Seq<Feed>) -> Json {
    Json::Array(Seq::new(list.len(), |i: int| list[i].json@))
}

fn feeds_value(list: &Vec<Feed>) -> (r: Value)
    ensures
        r@ == feeds_json(list@),
{
    let mut out: Vec<Value> = Vec::new();
    let mut i: usize = 0;
    while i < list.len()
        invariant
            i <= list@.len(),
            out@.len() == i,
            forall|j: int| 0 <= j < i ==> (#[trigger] out@[j])@ == list@[j].json@,
        decreases list@.len() - i,
    {
        out.push(list[i].json.copy());
        i = i + 1;
    }
    assert(jsons(out@) =~= feeds_json(list@)->Array_0);
    let r = Value::Array(out);
    assert(r@->Array_0 =~= jsons(out@));
    r
}

/// What setting `feeds` to a value comes to.
pub open spec fn feeds_set(
    old: Daemon,
    v: Seq<char>,
    parsed: Result<Vec<Feed>, String>,
    r: Outcome,
    new: Daemon,
) -> bool {
    if trimmed(v).len() > 0 && parsed is Err {
        refused(old, r, new, "feeds: "@ + parsed->Err_0@)
    } else {
        let list = if trimmed(v).len() == 0 {
            Seq::empty()
        } else {
            parsed->Ok_0@
        };
        &&& taken(r, true, feeds_json(list))
        &&& new == (Daemon {
            automation: Automation { feeds: new.automation.feeds, ..old.automation },
            ..old
        })
        &&& new.automation.feeds@ == list
    }
}

/// Sets the feeds from what was read of the value.
pub fn set_feeds(d: &mut Daemon, _name: &str, v: &str, parsed: Result<Vec<Feed>, String>) -> (r:
    Outcome)
    ensures
        feeds_set(*old(d), v@, parsed, r, *final(d)),
{
    let list: Vec<Feed> = if trim(v).as_str().is_empty() {
        Vec::new()
    } else {
        match parsed {
            Ok(list) => list,
            Err(e) => {
                return Err(glue("feeds: ", e.as_str()));
            },
        }
    };
    let persist = feeds_value(&list);
    d.automation.feeds = list;
    Ok((true, persist))
}

// ---- laws -----------------------------------------------------------------

/// A search site is stored trimmed, with its own key where it brings one, and
/// with the key stored under its name where it brings none.
pub proof fn which_key_a_search_site_gets(i: IndexerView, cur: Seq<IndexerView>)
    ensures
        merged_indexer(i, cur).name == trimmed(i.name),
        merged_indexer(i, cur).url == trimmed(i.url),
        i.apikey.len() > 0 ==> merged_indexer(i, cur).apikey == i.apikey,
        i.apikey.len() == 0 && cur.len() > 0 && cur[0].name == trimmed(i.name) ==> merged_indexer(
            i,
            cur,
        ).apikey == cur[0].apikey,
        i.apikey.len() == 0 && cur.len() > 0 && cur[0].name != trimmed(i.name) ==> merged_indexer(
            i,
            cur,
        ).apikey == merged_indexer(i, cur.drop_first()).apikey,
        i.apikey.len() == 0 && cur.len() == 0 ==> merged_indexer(i, cur).apikey.len() == 0,
        merged_indexer(i, cur).enabled == i.enabled && merged_indexer(i, cur).priority == i.priority,
        merged_indexer(i, cur).hits_per_day == i.hits_per_day && merged_indexer(i, cur).grabs_per_day
            == i.grabs_per_day,
{
}

/// A list of search sites is refused by its first entry without a name or an
/// address, with an address that is no web address, or with a name that came
/// before; any other is accepted.
pub proof fn which_search_sites_are_refused(list: Seq<IndexerView>, i: IndexerView, k: int)
    ensures
        indexers_fault(Seq::empty()) is None,
        indexers_fault(list) is Some ==> indexers_fault(list.push(i)) == indexers_fault(list),
        indexers_fault(list) is None && (i.name.len() == 0 || i.url.len() == 0) ==> indexers_fault(
            list.push(i),
        ) == Some("indexers: every entry needs a name and a URL"@),
        indexers_fault(list) is None && i.name.len() > 0 && i.url.len() > 0 && !is_http(i.url)
            ==> indexers_fault(list.push(i)) == Some(
            "indexers: "@ + i.name + ": the URL must be http(s)"@,
        ),
        indexers_fault(list) is None && i.name.len() > 0 && i.url.len() > 0 && is_http(i.url) && 0
            <= k < list.len() && list[k].name == i.name ==> indexers_fault(list.push(i)) == Some(
            "indexers: duplicate name "@ + i.name,
        ),
        indexers_fault(list) is None && i.name.len() > 0 && i.url.len() > 0 && is_http(i.url) && (
        forall|j: int| 0 <= j < list.len() ==> (#[trigger] list[j]).name != i.name)
            ==> indexers_fault(list.push(i)) is None,
{
    assert(list.push(i).drop_last() =~= list);
}

/// Setting the search sites to an empty text clears them, a list that cannot
/// be read changes nothing, and any other is stored entry by entry.
pub proof fn what_setting_search_sites_does(
    d: &mut Daemon,
    name: &str,
    v: &str,
    parsed: Result<Vec<Indexer>, String>,
    r: Outcome,
    k: int,
)
    requires
        call_ensures(set_indexers, (d, name, v, parsed), r),
    ensures
        trimmed(v@).len() == 0 ==> r is Ok && final(d).automation.indexers@.len() == 0,
        trimmed(v@).len() > 0 && parsed is Err ==> r is Err && r->Err_0@ == "indexers: "@
            + parsed->Err_0@ && *final(d) == *old(d),
        r is Err ==> *final(d) == *old(d),
        trimmed(v@).len() > 0 && r is Ok ==> parsed is Ok
            && final(d).automation.indexers@.len() == parsed->Ok_0@.len(),
        trimmed(v@).len() > 0 && r is Ok && 0 <= k < parsed->Ok_0@.len() ==> (
        final(d).automation.indexers@[k])@ == merged_indexer(
            parsed->Ok_0@[k]@,
            indexers(old(d).automation.indexers@),
        ),
{
    if trimmed(v@).len() == 0 {
        assert(merged_indexers(Seq::empty(), indexers(old(d).automation.indexers@)) =~= Seq::empty());
        assert(indexers_fault(Seq::<IndexerView>::empty()) is None);
        assert(indexers(final(d).automation.indexers@).len() == 0);
    } else if r is Ok {
        let list = merged_indexers(indexers(parsed->Ok_0@), indexers(old(d).automation.indexers@));
        assert(indexers(final(d).automation.indexers@).len() == list.len());
        if 0 <= k < parsed->Ok_0@.len() {
            assert(indexers(final(d).automation.indexers@)[k] == list[k]);
        }
    }
}

/// A list of instances is refused by its first of an unknown kind, or with an
/// address that is no web address.
pub proof fn which_instances_are_refused(list: Seq<ArrView>, i: ArrView)
    ensures
        instances_fault(Seq::empty()) is None,
        instances_fault(list) is Some ==> instances_fault(list.push(i)) == instances_fault(list),
        instances_fault(list) is None && i.kind != "sonarr"@ && i.kind != "radarr"@
            ==> instances_fault(list.push(i)) == Some(
            "arr_instances: kind must be sonarr or radarr, not "@ + quoted(i.kind),
        ),
        instances_fault(list) is None && (i.kind == "sonarr"@ || i.kind == "radarr"@) && !is_http(
            trimmed(i.url),
        ) ==> instances_fault(list.push(i)) == Some(
            "arr_instances: url must start with http:// or https://"@,
        ),
        instances_fault(list) is None && (i.kind == "sonarr"@ || i.kind == "radarr"@) && is_http(
            trimmed(i.url),
        ) ==> instances_fault(list.push(i)) is None,
{
    assert(list.push(i).drop_last() =~= list);
}

/// An instance keeps the key that it brings; one that brings none gets that of
/// its kind at its address, or else that of its kind under its name, and never
/// one of another kind.
pub proof fn which_key_an_instance_gets(i: ArrView, cur: Seq<ArrView>, k: int)
    ensures
        i.apikey.len() > 0 ==> merged_instance(i, cur) == i,
        merged_instance(i, cur).name == i.name && merged_instance(i, cur).kind == i.kind
            && merged_instance(i, cur).url == i.url && merged_instance(i, cur).enabled == i.enabled,
        i.apikey.len() == 0 && cur.len() > 0 && cur[0].kind == i.kind && cur[0].url == i.url
            ==> merged_instance(i, cur).apikey == cur[0].apikey,
        i.apikey.len() == 0 && (forall|j: int|
            0 <= j < cur.len() ==> (#[trigger] cur[j]).kind != i.kind || (cur[j].url != i.url
                && cur[j].name != i.name)) ==> merged_instance(i, cur).apikey.len() == 0,
        i.apikey.len() == 0 && key_at(cur, i.kind, i.url) is None && cur.len() > 0 && cur[0].kind
            == i.kind && cur[0].name == i.name ==> merged_instance(i, cur).apikey == cur[0].apikey,
{
    if forall|j: int|
        0 <= j < cur.len() ==> (#[trigger] cur[j]).kind != i.kind || (cur[j].url != i.url
            && cur[j].name != i.name) {
        no_key_of_an_instance(cur, i.kind, i.url, i.name);
    }
}

proof fn no_key_of_an_instance(
    cur: Seq<ArrView>,
    kind: Seq<char>,
    url: Seq<char>,
    name: Seq<char>,
)
    requires
        forall|j: int|
            0 <= j < cur.len() ==> (#[trigger] cur[j]).kind != kind || (cur[j].url != url
                && cur[j].name != name),
    ensures
        key_at(cur, kind, url) is None,
        key_named(cur, kind, name) is None,
    decreases cur.len(),
{
    if cur.len() > 0 {
        assert(cur[0].kind != kind || (cur[0].url != url && cur[0].name != name));
        let rest = cur.drop_first();
        assert forall|j: int| 0 <= j < rest.len() implies (#[trigger] rest[j]).kind != kind || (
        rest[j].url != url && rest[j].name != name) by {
            assert(rest[j] == cur[j + 1]);
        }
        no_key_of_an_instance(rest, kind, url, name);
    }
}

/// Setting the instances to an empty text clears them, a list that cannot be
/// read changes nothing, and any other is stored entry by entry.
pub proof fn what_setting_instances_does(
    d: &mut Daemon,
    name: &str,
    v: &str,
    parsed: Result<Vec<ArrInstance>, String>,
    r: Outcome,
    k: int,
)
    requires
        call_ensures(set_arr_instances, (d, name, v, parsed), r),
    ensures
        trimmed(v@).len() == 0 ==> r is Ok && final(d).automation.arr_instances@.len() == 0,
        trimmed(v@).len() > 0 && parsed is Err ==> r is Err && r->Err_0@ == "arr_instances: "@
            + parsed->Err_0@ && *final(d) == *old(d),
        r is Err ==> *final(d) == *old(d),
        trimmed(v@).len() > 0 && r is Ok ==> parsed is Ok
            && final(d).automation.arr_instances@.len() == parsed->Ok_0@.len(),
        trimmed(v@).len() > 0 && r is Ok && 0 <= k < parsed->Ok_0@.len() ==> (
        final(d).automation.arr_instances@[k])@ == merged_instance(
            parsed->Ok_0@[k]@,
            instances(old(d).automation.arr_instances@),
        ),
{
    if trimmed(v@).len() == 0 {
        assert(instances_fault(Seq::<ArrView>::empty()) is None);
        assert(instances(final(d).automation.arr_instances@).len() == 0);
    } else if r is Ok {
        let list = merged_instances(
            instances(parsed->Ok_0@),
            instances(old(d).automation.arr_instances@),
        );
        assert(instances(final(d).automation.arr_instances@).len() == list.len());
        if 0 <= k < parsed->Ok_0@.len() {
            assert(instances(final(d).automation.arr_instances@)[k] == list[k]);
        }
    }
}

/// A target keeps the token that it brings; one that brings none gets that of
/// the same kind, address and name, and never another.
pub proof fn which_token_a_target_gets(list: &Vec<Target>, cur: &Vec<Target>, r: Vec<Target>, k: int)
    requires
        0 <= k < list@.len(),
        call_ensures(merge_notify_tokens, (list, cur), r),
    ensures
        r@.len() == list@.len(),
        list@[k].token@.len() > 0 ==> r@[k].token@ == list@[k].token@,
        r@[k].name@ == list@[k].name@ && r@[k].kind@ == list@[k].kind@ && r@[k].url@ == list@[k].url@
            && r@[k].body@ == list@[k].body@ && r@[k].enabled == list@[k].enabled
            && r@[k].on_failure == list@[k].on_failure && r@[k].category@ == list@[k].category@,
        list@[k].token@.len() == 0 && cur@.len() > 0 && cur@[0].kind@ == list@[k].kind@
            && cur@[0].url@ == list@[k].url@ && cur@[0].name@ == list@[k].name@ ==> r@[k].token@
            == cur@[0].token@,
        list@[k].token@.len() == 0 && (forall|j: int|
            0 <= j < cur@.len() ==> (#[trigger] cur@[j]).kind@ != list@[k].kind@ || cur@[j].url@
                != list@[k].url@ || cur@[j].name@ != list@[k].name@) ==> r@[k].token@.len() == 0,
{
    assert(targets(r@).len() == merged_targets(targets(list@), targets(cur@)).len());
    assert(targets(r@)[k] == merged_targets(targets(list@), targets(cur@))[k]);
    let t = list@[k]@;
    let c = targets(cur@);
    if cur@.len() > 0 {
        assert(c[0] == cur@[0]@);
    }
    if forall|j: int|
        0 <= j < cur@.len() ==> (#[trigger] cur@[j]).kind@ != list@[k].kind@ || cur@[j].url@
            != list@[k].url@ || cur@[j].name@ != list@[k].name@ {
        assert forall|j: int| 0 <= j < c.len() implies (#[trigger] c[j]).kind != t.kind || c[j].url
            != t.url || c[j].name != t.name by {
            assert(cur@[j].kind@ != list@[k].kind@ || cur@[j].url@ != list@[k].url@
                || cur@[j].name@ != list@[k].name@);
        }
        no_token(c, t.kind, t.url, t.name);
    }
}

proof fn no_token(cur: Seq<TargetView>, kind: Seq<char>, url: Seq<char>, name: Seq<char>)
    requires
        forall|j: int|
            0 <= j < cur.len() ==> (#[trigger] cur[j]).kind != kind || cur[j].url != url
                || cur[j].name != name,
    ensures
        token_of(cur, kind, url, name) is None,
    decreases cur.len(),
{
    if cur.len() > 0 {
        assert(cur[0].kind != kind || cur[0].url != url || cur[0].name != name);
        let rest = cur.drop_first();
        assert forall|j: int| 0 <= j < rest.len() implies (#[trigger] rest[j]).kind != kind
            || rest[j].url != url || rest[j].name != name by {
            assert(rest[j] == cur[j + 1]);
        }
        no_token(rest, kind, url, name);
    }
}

/// Setting the targets to an empty text clears them, a list that cannot be
/// read changes nothing, and any other is stored.
pub proof fn what_setting_targets_does(
    d: &mut Daemon,
    name: &str,
    v: &str,
    parsed: Result<Vec<Target>, String>,
    r: Outcome,
)
    requires
        call_ensures(set_notify_targets, (d, name, v, parsed), r),
    ensures
        trimmed(v@).len() == 0 ==> r is Ok && final(d).automation.notify_targets@.len() == 0,
        trimmed(v@).len() > 0 && parsed is Err ==> r is Err && r->Err_0@ == "notify_targets: "@
            + parsed->Err_0@ && *final(d) == *old(d),
        trimmed(v@).len() > 0 && parsed is Ok ==> r is Ok
            && final(d).automation.notify_targets@.len() == parsed->Ok_0@.len(),
{
    if trimmed(v@).len() == 0 || parsed is Ok {
        assert(targets(final(d).automation.notify_targets@).len() == given_targets(
            v@,
            parsed->Ok_0@,
        ).len());
    }
}

/// Setting the feeds to an empty text clears them, a list that cannot be read
/// changes nothing, and any other is stored as it was read.
pub proof fn what_setting_feeds_does(
    d: &mut Daemon,
    name: &str,
    v: &str,
    parsed: Result<Vec<Feed>, String>,
    r: Outcome,
)
    requires
        call_ensures(set_feeds, (d, name, v, parsed), r),
    ensures
        trimmed(v@).len() == 0 ==> r is Ok && final(d).automation.feeds@.len() == 0,
        trimmed(v@).len() > 0 && parsed is Err ==> r is Err && r->Err_0@ == "feeds: "@
            + parsed->Err_0@ && *final(d) == *old(d),
        trimmed(v@).len() > 0 && parsed is Ok ==> r is Ok && final(d).automation.feeds@
            == parsed->Ok_0@,
{
}

/// What is saved of each entry: everything, its key or token included.
pub proof fn what_is_saved_of_an_entry(i: IndexerView, a: ArrView, t: TargetView)
    ensures
        indexer_json(i)->Object_0[0] == ("name"@, Json::Text(i.name)),
        indexer_json(i)->Object_0[1] == ("url"@, Json::Text(i.url)),
        indexer_json(i)->Object_0[2] == ("apikey"@, Json::Text(i.apikey)),
        indexer_json(i)->Object_0[3] == ("enabled"@, Json::Bool(i.enabled)),
        indexer_json(i)->Object_0[4] == ("priority"@, uint_json(i.priority as int)),
        indexer_json(i)->Object_0[5] == ("hits_per_day"@, uint_json(i.hits_per_day as int)),
        indexer_json(i)->Object_0[6] == ("grabs_per_day"@, uint_json(i.grabs_per_day as int)),
        instance_json(a)->Object_0[0] == ("name"@, Json::Text(a.name)),
        instance_json(a)->Object_0[1] == ("kind"@, Json::Text(a.kind)),
        instance_json(a)->Object_0[2] == ("url"@, Json::Text(a.url)),
        instance_json(a)->Object_0[3] == ("apikey"@, Json::Text(a.apikey)),
        instance_json(a)->Object_0[4] == ("enabled"@, Json::Bool(a.enabled)),
        target_json(t)->Object_0[0] == ("name"@, Json::Text(t.name)),
        target_json(t)->Object_0[1] == ("kind"@, Json::Text(t.kind)),
        target_json(t)->Object_0[2] == ("url"@, Json::Text(t.url)),
        target_json(t)->Object_0[3] == ("token"@, Json::Text(t.token)),
        target_json(t)->Object_0[4] == ("body"@, Json::Text(t.body)),
        target_json(t)->Object_0[5] == ("enabled"@, Json::Bool(t.enabled)),
        target_json(t)->Object_0[6] == ("on_failure"@, Json::Bool(t.on_failure)),
        target_json(t)->Object_0[7] == ("category"@, Json::Text(t.category)),
{
}

} // verus!
