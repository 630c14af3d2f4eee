//! Setters of what is grabbed, sorted and announced, and of the keys.
use super::outcome::{not_a_number, read_number, refused, taken, typed_number, Outcome};
use crate::daemon::{Action, Automation, Daemon, EatMode, Keys, QualityPrefs};
use crate::text::{flag, glue, glue3, is_on, lower, lowered, same, trim, trimmed};
use crate::value::{
    array, entries, entry, jsons, object, text, texts, texts_json, uint, uint_json,
    Json, Value,
};
use vstd::prelude::*;

verus! {

/// What setting `watchlist_external` to a value comes to.
pub open spec fn watchlist_external_set(old: Daemon, v: Seq<char>, r: Outcome, new: Daemon) -> bool {
    &&& taken(r, true, Json::Bool(is_on(v)))
    &&& new == (Daemon {
        automation: Automation {
            watchlist_external: is_on(v),
            watchlist_external_set: true,
            ..old.automation
        },
        ..old
    })
}

/// Lets the watchlist ask the search sites, or not. Either answer stands
/// against the default from then on.
pub fn set_watchlist_external(d: &mut Daemon, _name: &str, v: &str) -> (r: Outcome)
    ensures
        watchlist_external_set(*old(d), v@, r, *final(d)),
{
    let on = flag(v);
    d.automation.watchlist_external = on;
    d.automation.watchlist_external_set = true;
    Ok((true, Value::Bool(on)))
}

/// What setting `watchlist_instant` to a value comes to.
pub open spec fn watchlist_instant_set(old: Daemon, v: Seq<char>, r: Outcome, new: Daemon) -> bool {
    &&& taken(r, true, Json::Bool(is_on(v)))
    &&& new == (Daemon {
        automation: Automation { watchlist_instant: is_on(v), ..old.automation },
        ..old
    })
}

/// Lets a watched release be grabbed as it arrives, or not.
pub fn set_watchlist_instant(d: &mut Daemon, _name: &str, v: &str) -> (r: Outcome)
    ensures
        watchlist_instant_set(*old(d), v@, r, *final(d)),
{
    let on = flag(v);
    d.automation.watchlist_instant = on;
    Ok((true, Value::Bool(on)))
}

/// The lesser of two numbers.
pub open spec fn least(a: int, b: int) -> int {
    if a < b {
        a
    } else {
        b
    }
}

/// What setting `watchlist_instant_max` to a value comes to.
pub open spec fn watchlist_instant_max_set(
    old: Daemon,
    name: Seq<char>,
    v: Seq<char>,
    r: Outcome,
    new: Daemon,
) -> bool {
    match typed_number(v) {
        None => refused(old, r, new, not_a_number(name)),
        Some(k) => {
            let n = least(k, 3600);
            &&& taken(r, true, uint_json(n))
            &&& new == (Daemon {
                automation: Automation { watchlist_instant_max: n as u32, ..old.automation },
                ..old
            })
        },
    }
}

/// Sets how many instant passes an hour may hold; 0 is no limit.
pub fn set_watchlist_instant_max(d: &mut Daemon, name: &str, v: &str) -> (r: Outcome)
    ensures
        watchlist_instant_max_set(*old(d), name@, v@, r, *final(d)),
{
    match read_number(name, v) {
        Err(e) => Err(e),
        Ok(k) => {
            let n: u64 = if k < 3600 {
                k
            } else {
                3600
            };
            d.automation.watchlist_instant_max = n as u32;
            Ok((true, uint(n)))
        },
    }
}

/// What a typed list is: nothing for an empty text, else what was read of it.
pub open spec fn given_values(v: Seq<char>, parsed: Seq<Value>) -> Seq<Json> {
    if trimmed(v).len() == 0 {
        Seq::empty()
    } else {
        jsons(parsed)
    }
}

/// The list that a text stands for, or the refusal under `name`.
fn read_list(name: &str, v: &str, parsed: Result<Vec<Value>, String>) -> (r: Result<
    Vec<Value>,
    String,
>)
    ensures
        match r {
            Ok(list) => (trimmed(v@).len() == 0 || parsed is Ok) && jsons(list@) == given_values(
                v@,
                parsed->Ok_0@,
            ),
            Err(e) => trimmed(v@).len() > 0 && parsed is Err && e@ == name@ + ": "@
                + parsed->Err_0@,
        },
{
    if trim(v).as_str().is_empty() {
        let list: Vec<Value> = Vec::new();
        assert(jsons(list@) =~= given_values(v@, parsed->Ok_0@));
        return Ok(list);
    }
    match parsed {
        Ok(list) => Ok(list),
        Err(e) => Err(glue3(name, ": ", e.as_str())),
    }
}

/// What setting `watchlist` to a value comes to.
pub open spec fn watchlist_set(
    old: Daemon,
    v: Seq<char>,
    parsed: Result<Vec<Value>, String>,
    r: Outcome,
    new: Daemon,
) -> bool {
    if trimmed(v).len() > 0 && parsed is Err {
        refused(old, r, new, "watchlist"@ + ": "@ + parsed->Err_0@)
    } else {
        let list = given_values(v, parsed->Ok_0@);
        &&& taken(r, true, Json::Array(list))
        &&& new == (Daemon {
            automation: Automation { watchlist: new.automation.watchlist, ..old.automation },
            todo: new.todo,
            ..old
        })
        &&& jsons(new.automation.watchlist@) == list
        &&& new.todo@ == old.todo@.push(Action::WatchlistNow)
    }
}

/// Sets the watchlist from what was read of the value, and wakes the watcher.
pub fn set_watchlist(
    d: &mut Daemon,
    _name: &str,
    v: &str,
    parsed: Result<Vec<Value>, String>,
) -> (r: Outcome)
    ensures
        watchlist_set(*old(d), v@, parsed, r, *final(d)),
{
    match read_list("watchlist", v, parsed) {
        Err(e) => Err(e),
        Ok(list) => {
            let persist = array(&list);
            d.automation.watchlist = list;
            d.ask(Action::WatchlistNow);
            Ok((true, persist))
        },
    }
}

/// What setting `smart_folders` to a value comes to.
pub open spec fn smart_folders_set(
    old: Daemon,
    v: Seq<char>,
    parsed: Result<Vec<Value>, String>,
    r: Outcome,
    new: Daemon,
) -> bool {
    if trimmed(v).len() > 0 && parsed is Err {
        refused(old, r, new, "smart_folders"@ + ": "@ + parsed->Err_0@)
    } else {
        let list = given_values(v, parsed->Ok_0@);
        &&& taken(r, true, Json::Array(list))
        &&& new == (Daemon {
            automation: Automation { smart_folders: new.automation.smart_folders, ..old.automation },
            ..old
        })
        &&& jsons(new.automation.smart_folders@) == list
    }
}

/// Sets the folder rules from what was read of the value.
pub fn set_smart_folders(
    d: &mut Daemon,
    _name: &str,
    v: &str,
    parsed: Result<Vec<Value>, String>,
) -> (r: Outcome)
    ensures
        smart_folders_set(*old(d), v@, parsed, r, *final(d)),
{
    match read_list("smart_folders", v, parsed) {
        Err(e) => Err(e),
        Ok(list) => {
            let persist = array(&list);
            d.automation.smart_folders = list;
            Ok((true, persist))
        },
    }
}

/// What setting `custom_categories` to a value comes to.
pub open spec fn custom_categories_set(
    old: Daemon,
    v: Seq<char>,
    parsed: Result<Vec<Value>, String>,
    valid: Result<(), String>,
    r: Outcome,
    new: Daemon,
) -> bool {
    if trimmed(v).len() > 0 && parsed is Err {
        refused(old, r, new, "custom_categories"@ + ": "@ + parsed->Err_0@)
    } else if valid is Err {
        refused(old, r, new, "custom_categories: "@ + valid->Err_0@)
    } else {
        let list = given_values(v, parsed->Ok_0@);
        &&& taken(r, true, Json::Array(list))
        &&& new == (Daemon {
            automation: Automation {
                custom_categories: new.automation.custom_categories,
                reclassify_pending: true,
                ..old.automation
            },
            ..old
        })
        &&& jsons(new.automation.custom_categories@) == list
    }
}

/// Sets the user's categories from what was read of the value and from
/// whether the list is valid as a whole. Stored rows are classified again.
pub fn set_custom_categories(
    d: &mut Daemon,
    _name: &str,
    v: &str,
    parsed: Result<Vec<Value>, String>,
    valid: Result<(), String>,
) -> (r: Outcome)
    ensures
        custom_categories_set(*old(d), v@, parsed, valid, r, *final(d)),
{
    match read_list("custom_categories", v, parsed) {
        Err(e) => Err(e),
        Ok(list) => {
            if let Err(e) = valid {
                return Err(glue("custom_categories: ", e.as_str()));
            }
            let persist = array(&list);
            d.automation.custom_categories = list;
            d.automation.reclassify_pending = true;
            Ok((true, persist))
        },
    }
}

/// What setting `cleanup_exts` to a value comes to.
pub open spec fn cleanup_exts_set(
    old: Daemon,
    exts: Seq<Seq<char>>,
    r: Outcome,
    new: Daemon,
) -> bool {
    &&& taken(r, true, texts_json(exts))
    &&& new == (Daemon {
        automation: Automation { cleanup_exts: new.automation.cleanup_exts, ..old.automation },
        ..old
    })
    &&& new.automation.cleanup_exts.deep_view() == exts
}

/// Sets the extensions that cleanup removes, as they were read.
pub fn set_cleanup_exts(d: &mut Daemon, exts: Vec<String>) -> (r: Outcome)
    ensures
        cleanup_exts_set(*old(d), exts.deep_view(), r, *final(d)),
{
    let echo = texts(&exts);
    d.automation.cleanup_exts = exts;
    Ok((true, echo))
}

/// What became of the passwords file: where it is by default, and whether the
/// chosen one exists or could be made.
pub struct PasswordFile {
    pub default_path: String,
    pub made: Result<(), String>,
}

/// The passwords file that a value means.
pub open spec fn password_path(v: Seq<char>, default_path: Seq<char>) -> Seq<char> {
    if trimmed(v).len() == 0 {
        default_path
    } else {
        trimmed(v)
    }
}

/// The passwords file that a value means: the default for an empty one.
pub fn password_target(v: &str, default_path: &str) -> (r: String)
    ensures
        r@ == password_path(v@, default_path@),
{
    let p: String = trim(v);
    if p.as_str().is_empty() {
        default_path.to_owned()
    } else {
        p
    }
}

/// What setting `password_file` to a value comes to.
pub open spec fn password_file_set(
    old: Daemon,
    v: Seq<char>,
    f: PasswordFile,
    r: Outcome,
    new: Daemon,
) -> bool {
    let path = password_path(v, f.default_path@);
    match f.made {
        Err(e) => refused(
            old,
            r,
            new,
            "password_file: cannot create "@ + path + ": "@ + e@,
        ),
        Ok(_) => {
            &&& taken(r, true, Json::Text(path))
            &&& new == (Daemon {
                automation: Automation {
                    password_file: new.automation.password_file,
                    unpack_password_file: new.automation.unpack_password_file,
                    ..old.automation
                },
                ..old
            })
            &&& new.automation.password_file@ == path
            &&& new.automation.unpack_password_file.deep_view() == Some(path)
        },
    }
}

/// Sets the passwords file, for the settings page and for the unpacker.
pub fn set_password_file(d: &mut Daemon, _name: &str, v: &str, f: PasswordFile) -> (r: Outcome)
    ensures
        password_file_set(*old(d), v@, f, r, *final(d)),
{
    let path: String = password_target(v, f.default_path.as_str());
    if let Err(e) = f.made {
        return Err(
            glue(
                glue3("password_file: cannot create ", path.as_str(), ": ").as_str(),
                e.as_str(),
            ),
        );
    }
    let echo = text(path.as_str());
    d.automation.password_file = path.clone();
    d.automation.unpack_password_file = Some(path);
    Ok((true, echo))
}

/// Whether a word says when to ask for a password.
pub open spec fn is_prompt(m: Seq<char>) -> bool {
    m == "now"@ || m == "done"@ || m == "never"@
}

/// Whether a word says when to ask for a password.
pub fn prompt_word(m: &str) -> (r: bool)
    ensures
        r == is_prompt(m@),
{
    same(m, "now") || same(m, "done") || same(m, "never")
}

/// What setting `password_prompt` to a value comes to.
pub open spec fn password_prompt_set(old: Daemon, v: Seq<char>, r: Outcome, new: Daemon) -> bool {
    let m = lowered(trimmed(v));
    if !is_prompt(m) {
        refused(old, r, new, "password_prompt must be now, done or never"@)
    } else {
        &&& taken(r, true, Json::Text(m))
        &&& new == (Daemon {
            automation: Automation {
                password_prompt: new.automation.password_prompt,
                ..old.automation
            },
            ..old
        })
        &&& new.automation.password_prompt@ == m
    }
}

/// Sets what happens when an archive wants a password.
pub fn set_password_prompt(d: &mut Daemon, _name: &str, v: &str) -> (r: Outcome)
    ensures
        password_prompt_set(*old(d), v@, r, *final(d)),
{
    let m: String = lower(trim(v).as_str());
    if !prompt_word(m.as_str()) {
        return Err("password_prompt must be now, done or never".to_owned());
    }
    let echo = text(m.as_str());
    d.automation.password_prompt = m;
    Ok((true, echo))
}

/// The mode that a word stands for.
pub open spec fn eat_mode(m: Seq<char>) -> Option<EatMode> {
    if m == "off"@ {
        Some(EatMode::Off)
    } else if m == "low_disk"@ {
        Some(EatMode::LowDisk)
    } else if m == "always"@ {
        Some(EatMode::Always)
    } else {
        None
    }
}

/// The word for a mode.
pub open spec fn eat_word(m: EatMode) -> Seq<char> {
    match m {
        EatMode::Off => "off"@,
        EatMode::LowDisk => "low_disk"@,
        EatMode::Always => "always"@,
    }
}

impl EatMode {
    /// The mode that a word stands for.
    pub fn parse(m: &str) -> (r: Option<EatMode>)
        ensures
            r == eat_mode(m@),
    {
        if same(m, "off") {
            Some(EatMode::Off)
        } else if same(m, "low_disk") {
            Some(EatMode::LowDisk)
        } else if same(m, "always") {
            Some(EatMode::Always)
        } else {
            None
        }
    }

    /// The word for the mode.
    pub fn word(self) -> (r: &'static str)
        ensures
            r@ == eat_word(self),
    {
        match self {
            EatMode::Off => "off",
            EatMode::LowDisk => "low_disk",
            EatMode::Always => "always",
        }
    }
}

/// What setting `unpack_eat_volumes` to a value comes to.
pub open spec fn unpack_eat_volumes_set(
    old: Daemon,
    v: Seq<char>,
    r: Outcome,
    new: Daemon,
) -> bool {
    match eat_mode(lowered(trimmed(v))) {
        None => refused(old, r, new, "unpack_eat_volumes must be off, low_disk or always"@),
        Some(m) => {
            &&& taken(r, true, Json::Text(eat_word(m)))
            &&& new == (Daemon {
                automation: Automation {
                    unpack_eat_volumes: new.automation.unpack_eat_volumes,
                    ..old.automation
                },
                todo: new.todo,
                ..old
            })
            &&& new.automation.unpack_eat_volumes@ == eat_word(m)
            &&& new.todo@ == old.todo@.push(Action::Eat(m))
        },
    }
}

/// Sets whether an unpack may delete the volumes that it has read.
pub fn set_unpack_eat_volumes(d: &mut Daemon, _name: &str, v: &str) -> (r: Outcome)
    ensures
        unpack_eat_volumes_set(*old(d), v@, r, *final(d)),
{
    match EatMode::parse(lower(trim(v).as_str()).as_str()) {
        None => Err("unpack_eat_volumes must be off, low_disk or always".to_owned()),
        Some(m) => {
            d.automation.unpack_eat_volumes = m.word().to_owned();
            d.ask(Action::Eat(m));
            Ok((true, text(m.word())))
        },
    }
}

/// What setting `fast_par` to a value comes to.
pub open spec fn fast_par_set(old: Daemon, v: Seq<char>, r: Outcome, new: Daemon) -> bool {
    let on = is_on(v);
    &&& taken(r, true, Json::Bool(on))
    &&& new == (Daemon {
        automation: Automation { fast_par: on, ..old.automation },
        todo: new.todo,
        ..old
    })
    &&& new.todo@ == old.todo@.push(Action::FastPar(on))
}

/// Switches the fast way of heavy repairs.
pub fn set_fast_par(d: &mut Daemon, _name: &str, v: &str) -> (r: Outcome)
    ensures
        fast_par_set(*old(d), v@, r, *final(d)),
{
    let on = flag(v);
    d.automation.fast_par = on;
    d.ask(Action::FastPar(on));
    Ok((true, Value::Bool(on)))
}

/// What setting `prefer_external_unrar` to a value comes to.
pub open spec fn prefer_external_unrar_set(
    old: Daemon,
    v: Seq<char>,
    r: Outcome,
    new: Daemon,
) -> bool {
    let on = is_on(v);
    &&& taken(r, true, Json::Bool(on))
    &&& new == (Daemon {
        automation: Automation { prefer_external_unrar: on, ..old.automation },
        todo: new.todo,
        ..old
    })
    &&& new.todo@ == old.todo@.push(Action::ExternalUnrar(on))
}

/// Switches to an outside unpacker.
pub fn set_prefer_external_unrar(d: &mut Daemon, _name: &str, v: &str) -> (r: Outcome)
    ensures
        prefer_external_unrar_set(*old(d), v@, r, *final(d)),
{
    let on = flag(v);
    d.automation.prefer_external_unrar = on;
    d.ask(Action::ExternalUnrar(on));
    Ok((true, Value::Bool(on)))
}

/// Whether a word says what to do about a failed release.
pub open spec fn is_failure_link(m: Seq<char>) -> bool {
    m == "off"@ || m == "report"@ || m == "regrab"@
}

/// Whether a word says what to do about a failed release.
pub fn failure_word(m: &str) -> (r: bool)
    ensures
        r == is_failure_link(m@),
{
    same(m, "off") || same(m, "report") || same(m, "regrab")
}

/// What setting `failure_link` to a value comes to.
pub open spec fn failure_link_set(old: Daemon, v: Seq<char>, r: Outcome, new: Daemon) -> bool {
    let m = lowered(trimmed(v));
    if !is_failure_link(m) {
        refused(old, r, new, "failure_link must be off, report or regrab"@)
    } else {
        &&& taken(r, true, Json::Text(m))
        &&& new == (Daemon {
            automation: Automation { failure_link: new.automation.failure_link, ..old.automation },
            ..old
        })
        &&& new.automation.failure_link@ == m
    }
}

/// Sets what is done about a failed release.
pub fn set_failure_link(d: &mut Daemon, _name: &str, v: &str) -> (r: Outcome)
    ensures
        failure_link_set(*old(d), v@, r, *final(d)),
{
    let m: String = lower(trim(v).as_str());
    if !failure_word(m.as_str()) {
        return Err("failure_link must be off, report or regrab".to_owned());
    }
    let echo = text(m.as_str());
    d.automation.failure_link = m;
    Ok((true, echo))
}

/// The JSON of quality preferences.
pub open spec fn quality_json(q: QualityPrefs) -> Json {
    Json::Object(
        seq![
            ("res"@, Json::Text(q.res@)),
            ("vcodec"@, Json::Text(q.vcodec@)),
            ("acodec"@, Json::Text(q.acodec@)),
            ("hdr"@, Json::Text(q.hdr@)),
        ],
    )
}

impl QualityPrefs {
    /// The JSON of the preferences.
    pub fn to_json(&self) -> (r: Value)
        ensures
            r@ == quality_json(*self),
    {
        let list: Vec<(String, Value)> = vec![
            entry("res", text(self.res.as_str())),
            entry("vcodec", text(self.vcodec.as_str())),
            entry("acodec", text(self.acodec.as_str())),
            entry("hdr", text(self.hdr.as_str())),
        ];
        assert(entries(list@) =~= quality_json(*self)->Object_0);
        object(list)
    }
}

/// What setting `prefer_quality` to a value comes to.
pub open spec fn prefer_quality_set(
    old: Daemon,
    parsed: Result<QualityPrefs, String>,
    r: Outcome,
    new: Daemon,
) -> bool {
    match parsed {
        Err(e) => refused(old, r, new, "prefer_quality: "@ + e@),
        Ok(q) => {
            &&& taken(r, true, quality_json(q))
            &&& new == (Daemon { automation: Automation { quality_prefs: q, ..old.automation }, ..old })
        },
    }
}

/// Sets the preferred quality from what was read of the value.
pub fn set_prefer_quality(
    d: &mut Daemon,
    _name: &str,
    _v: &str,
    parsed: Result<QualityPrefs, String>,
) -> (r: Outcome)
    ensures
        prefer_quality_set(*old(d), parsed, r, *final(d)),
{
    match parsed {
        Err(e) => Err(glue("prefer_quality: ", e.as_str())),
        Ok(q) => {
            let stored = q.to_json();
            d.automation.quality_prefs = q;
            Ok((true, stored))
        },
    }
}

/// What setting `arr_giveup_threshold` to a value comes to.
pub open spec fn arr_giveup_threshold_set(
    old: Daemon,
    name: Seq<char>,
    v: Seq<char>,
    r: Outcome,
    new: Daemon,
) -> bool {
    match typed_number(v) {
        None => refused(old, r, new, not_a_number(name)),
        Some(k) => {
            let n = least(k, 1000);
            &&& taken(r, true, uint_json(n))
            &&& new == (Daemon {
                automation: Automation { arr_giveup_threshold: n as u64, ..old.automation },
                ..old
            })
        },
    }
}

/// Sets how many releases of a target fail before it is given up; 0 is off.
pub fn set_arr_giveup_threshold(d: &mut Daemon, name: &str, v: &str) -> (r: Outcome)
    ensures
        arr_giveup_threshold_set(*old(d), name@, v@, r, *final(d)),
{
    match read_number(name, v) {
        Err(e) => Err(e),
        Ok(k) => {
            let n: u64 = if k < 1000 {
                k
            } else {
                1000
            };
            d.automation.arr_giveup_threshold = n;
            Ok((true, uint(n)))
        },
    }
}

// ---- keys -----------------------------------------------------------------

/// A credential as it is held: nothing for an empty text.
pub open spec fn key_of(v: Seq<char>) -> Option<Seq<char>> {
    if trimmed(v).len() == 0 {
        None
    } else {
        Some(trimmed(v))
    }
}

/// What a credential is saved as. Cleared, it is saved as null, which takes
/// it out of the file, so that what was given at launch counts again.
pub open spec fn key_json(v: Seq<char>) -> Json {
    if trimmed(v).len() == 0 {
        Json::Null
    } else {
        Json::Text(trimmed(v))
    }
}

fn read_key(v: &str) -> (r: Option<String>)
    ensures
        r.deep_view() == key_of(v@),
{
    let k: String = trim(v);
    if k.as_str().is_empty() {
        None
    } else {
        Some(k)
    }
}

fn key_value(k: &Option<String>) -> (r: Value)
    ensures
        r@ == (match k.deep_view() {
            Some(s) => Json::Text(s),
            None => Json::Null,
        }),
{
    match k {
        Some(s) => text(s.as_str()),
        None => Value::Null,
    }
}

/// What setting `apikey` to a value comes to.
pub open spec fn apikey_set(old: Daemon, v: Seq<char>, r: Outcome, new: Daemon) -> bool {
    &&& taken(r, true, key_json(v))
    &&& new == (Daemon {
        keys: Keys { apikey: new.keys.apikey, ..old.keys },
        todo: new.todo,
        ..old
    })
    &&& new.keys.apikey.deep_view() == key_of(v)
    &&& new.todo@ == old.todo@.push(
        if key_of(v) is None {
            Action::RemoveKeyFile
        } else {
            Action::WriteKeyFile
        },
    )
}

/// Sets or clears the API key. Its file beside the config follows, so that a
/// cleared key stays cleared at the next start.
pub fn set_apikey(d: &mut Daemon, _name: &str, v: &str) -> (r: Outcome)
    ensures
        apikey_set(*old(d), v@, r, *final(d)),
{
    let k: Option<String> = read_key(v);
    let echo = key_value(&k);
    d.ask(
        if k.is_none() {
            Action::RemoveKeyFile
        } else {
            Action::WriteKeyFile
        },
    );
    d.keys.apikey = k;
    Ok((true, echo))
}

/// What setting `nzbkey` to a value comes to.
pub open spec fn nzbkey_set(old: Daemon, v: Seq<char>, r: Outcome, new: Daemon) -> bool {
    &&& taken(r, true, key_json(v))
    &&& new == (Daemon { keys: Keys { nzbkey: new.keys.nzbkey, ..old.keys }, ..old })
    &&& new.keys.nzbkey.deep_view() == key_of(v)
}

/// Sets or clears the key that may only add downloads.
pub fn set_nzbkey(d: &mut Daemon, v: &str) -> (r: Outcome)
    ensures
        nzbkey_set(*old(d), v@, r, *final(d)),
{
    let k: Option<String> = read_key(v);
    let echo = key_value(&k);
    d.keys.nzbkey = k;
    Ok((true, echo))
}

/// What setting `omdb_key` to a value comes to.
pub open spec fn omdb_key_set(old: Daemon, v: Seq<char>, r: Outcome, new: Daemon) -> bool {
    &&& taken(r, true, key_json(v))
    &&& new == (Daemon { keys: Keys { omdb_key: new.keys.omdb_key, ..old.keys }, ..old })
    &&& new.keys.omdb_key.deep_view() == key_of(v)
}

/// Sets or clears the key of the film database.
pub fn set_omdb_key(d: &mut Daemon, v: &str) -> (r: Outcome)
    ensures
        omdb_key_set(*old(d), v@, r, *final(d)),
{
    let k: Option<String> = read_key(v);
    let echo = key_value(&k);
    d.keys.omdb_key = k;
    Ok((true, echo))
}

} // verus!
