//! Setters of the pre feed.
use super::outcome::{not_a_number, read_number, refused, taken, typed_number, Outcome};
use crate::daemon::{clamp, clamped, Daemon, Predb};
use crate::text::{
    chars_of, flag, is_on, is_white, join, joined, list_of, parse, parsed, split_list, text_of,
    trim, trimmed, white,
};
use crate::value::{text, uint, uint_json, Json, Value};
use vstd::prelude::*;

verus! {

/// What setting `predb_enabled` to a value comes to.
pub open spec fn predb_enabled_set(old: Daemon, v: Seq<char>, r: Outcome, new: Daemon) -> bool {
    let on = is_on(v);
    &&& taken(r, true, Json::Bool(on))
    &&& new == (Daemon { predb: Predb { enabled: on, status: new.predb.status, ..old.predb }, ..old })
    &&& new.predb.status@ == if on == old.predb.enabled {
        old.predb.status@
    } else {
        Seq::empty()
    }
}

/// Switches the pre feed. A change forgets what was last said of it.
pub fn set_predb_enabled(d: &mut Daemon, _name: &str, v: &str) -> (r: Outcome)
    ensures
        predb_enabled_set(*old(d), v@, r, *final(d)),
{
    let on = flag(v);
    let was = d.predb.enabled;
    d.predb.enabled = on;
    if on != was {
        d.predb.status = String::new();
    }
    Ok((true, Value::Bool(on)))
}

/// What setting `predb_corr_enabled` to a value comes to.
pub open spec fn predb_corr_enabled_set(old: Daemon, v: Seq<char>, r: Outcome, new: Daemon) -> bool {
    &&& taken(r, true, Json::Bool(is_on(v)))
    &&& new == (Daemon { predb: Predb { corr_enabled: is_on(v), ..old.predb }, ..old })
}

/// Switches suggested names for obfuscated posts.
pub fn set_predb_corr_enabled(d: &mut Daemon, _name: &str, v: &str) -> (r: Outcome)
    ensures
        predb_corr_enabled_set(*old(d), v@, r, *final(d)),
{
    let on = flag(v);
    d.predb.corr_enabled = on;
    Ok((true, Value::Bool(on)))
}

/// What setting `predb_corr_auto` to a value comes to.
pub open spec fn predb_corr_auto_set(old: Daemon, v: Seq<char>, r: Outcome, new: Daemon) -> bool {
    &&& taken(r, true, Json::Bool(is_on(v)))
    &&& new == (Daemon { predb: Predb { corr_auto: is_on(v), ..old.predb }, ..old })
}

/// Switches whether a strong suggestion is applied without a click.
pub fn set_predb_corr_auto(d: &mut Daemon, _name: &str, v: &str) -> (r: Outcome)
    ensures
        predb_corr_auto_set(*old(d), v@, r, *final(d)),
{
    let on = flag(v);
    d.predb.corr_auto = on;
    Ok((true, Value::Bool(on)))
}

/// What setting `predb_max_rows` to a value comes to.
pub open spec fn predb_max_rows_set(
    old: Daemon,
    name: Seq<char>,
    v: Seq<char>,
    r: Outcome,
    new: Daemon,
) -> bool {
    match typed_number(v) {
        None => refused(old, r, new, not_a_number(name)),
        Some(k) => {
            let n = clamped(k, old.words.predb_rows_min as int, old.words.predb_rows_max as int);
            &&& taken(r, true, uint_json(n))
            &&& new == (Daemon { predb: Predb { max_rows: n as u64, ..old.predb }, ..old })
        },
    }
}

/// Sets how many pre rows are kept.
pub fn set_predb_max_rows(d: &mut Daemon, name: &str, v: &str) -> (r: Outcome)
    ensures
        predb_max_rows_set(*old(d), name@, v@, r, *final(d)),
{
    match read_number(name, v) {
        Err(e) => Err(e),
        Ok(k) => {
            let n: u64 = clamp(k, d.words.predb_rows_min, d.words.predb_rows_max);
            d.predb.max_rows = n;
            Ok((true, uint(n)))
        },
    }
}

/// Whether `s` holds white space.
pub open spec fn has_white(s: Seq<char>) -> bool {
    exists|i: int| 0 <= i < s.len() && is_white(#[trigger] s[i])
}

/// What stands after the last `:`, if there is one.
pub open spec fn after_colon(s: Seq<char>) -> Option<Seq<char>>
    decreases s.len(),
{
    if s.len() == 0 {
        None
    } else if s.last() == ':' {
        Some(Seq::empty())
    } else {
        match after_colon(s.drop_last()) {
            Some(p) => Some(p.push(s.last())),
            None => None,
        }
    }
}

/// Finds what stands after the last `:`.
fn port_part(chars: &Vec<char>) -> (r: Option<String>)
    ensures
        r.deep_view() == after_colon(chars@),
{
    let mut i: usize = chars.len();
    assert(chars@.take(i as int) =~= chars@);
    assert(chars@.subrange(i as int, i as int) =~= Seq::empty());
    while i > 0
        invariant
            i <= chars@.len(),
            after_colon(chars@) == (match after_colon(chars@.take(i as int)) {
                Some(p) => Some(p + chars@.subrange(i as int, chars@.len() as int)),
                None => None,
            }),
        decreases i,
    {
        let ghost head = chars@.take(i as int);
        assert(head.drop_last() =~= chars@.take(i - 1));
        assert(head.last() == chars@[i - 1]);
        if chars[i - 1] == ':' {
            let s: String = text_of(chars, i, chars.len());
            assert(Seq::<char>::empty() + s@ =~= s@);
            return Some(s);
        }
        proof {
            let tail = chars@.subrange(i as int, chars@.len() as int);
            let next = chars@.subrange(i - 1, chars@.len() as int);
            if let Some(p) = after_colon(chars@.take(i - 1)) {
                assert(p.push(head.last()) + tail =~= p + next);
            }
        }
        i = i - 1;
    }
    assert(chars@.take(0).len() == 0);
    None
}

/// What setting `predb_server` to a value comes to.
pub open spec fn predb_server_set(old: Daemon, v: Seq<char>, r: Outcome, new: Daemon) -> bool {
    let s = trimmed(v);
    if has_white(s) {
        refused(old, r, new, "predb_server: expected a host or host:port"@)
    } else if after_colon(s) matches Some(p) && parsed(p, 10, u16::MAX as int) is None {
        refused(old, r, new, "predb_server: the part after ':' must be a port number"@)
    } else {
        let host = if s.len() == 0 {
            old.words.predb_host@
        } else {
            s
        };
        &&& taken(r, true, Json::Text(host))
        &&& new == (Daemon { predb: Predb { server: new.predb.server, ..old.predb }, ..old })
        &&& new.predb.server@ == host
    }
}

fn any_white(chars: &Vec<char>) -> (r: bool)
    ensures
        r == has_white(chars@),
{
    let mut i: usize = 0;
    while i < chars.len()
        invariant
            i <= chars@.len(),
            forall|j: int| 0 <= j < i ==> !is_white(#[trigger] chars@[j]),
        decreases chars@.len() - i,
    {
        if white(chars[i]) {
            return true;
        }
        i = i + 1;
    }
    false
}

/// Sets the server of the pre feed: a host, or a host and a port. Empty goes
/// back to the built-in one.
pub fn set_predb_server(d: &mut Daemon, _name: &str, v: &str) -> (r: Outcome)
    ensures
        predb_server_set(*old(d), v@, r, *final(d)),
{
    let s: String = trim(v);
    let chars: Vec<char> = chars_of(s.as_str());
    if any_white(&chars) {
        return Err("predb_server: expected a host or host:port".to_owned());
    }
    if let Some(p) = port_part(&chars) {
        if parse(p.as_str(), 10, u16::MAX as u64).is_none() {
            return Err("predb_server: the part after ':' must be a port number".to_owned());
        }
    }
    let host: String = if s.as_str().is_empty() {
        d.words.predb_host.clone()
    } else {
        s
    };
    let echo = text(host.as_str());
    d.predb.server = host;
    Ok((true, echo))
}

/// The control characters of Unicode.
pub open spec fn is_control(c: char) -> bool {
    c <= '\u{1f}' || '\u{7f}' <= c <= '\u{9f}'
}

/// Whether a character may stand in a channel name.
pub open spec fn channel_char(c: char) -> bool {
    !is_white(c) && !is_control(c) && c != ','
}

/// The characters of `s` that may stand in a channel name.
pub open spec fn channel_of(s: Seq<char>) -> Seq<char>
    decreases s.len(),
{
    if s.len() == 0 {
        Seq::empty()
    } else if channel_char(s.last()) {
        channel_of(s.drop_last()).push(s.last())
    } else {
        channel_of(s.drop_last())
    }
}

/// The channel names of a typed list, cleaned, without those of which nothing
/// is left.
pub open spec fn channels_of(list: Seq<Seq<char>>) -> Seq<Seq<char>>
    decreases list.len(),
{
    if list.len() == 0 {
        Seq::empty()
    } else {
        let before = channels_of(list.drop_last());
        let c = channel_of(list.last());
        if c.len() == 0 {
            before
        } else {
            before.push(c)
        }
    }
}

fn clean_channel(s: &str) -> (r: String)
    ensures
        r@ == channel_of(s@),
{
    let chars: Vec<char> = chars_of(s);
    let mut r: String = String::new();
    let mut i: usize = 0;
    assert(r@ =~= channel_of(chars@.take(0)));
    while i < chars.len()
        invariant
            i <= chars@.len(),
            r@ == channel_of(chars@.take(i as int)),
        decreases chars@.len() - i,
    {
        let c: char = chars[i];
        assert(chars@.take(i + 1).drop_last() =~= chars@.take(i as int));
        if !white(c) && !(c <= '\u{1f}' || ('\u{7f}' <= c && c <= '\u{9f}')) && c != ',' {
            r.push(c);
        }
        i = i + 1;
    }
    assert(chars@.take(chars@.len() as int) =~= chars@);
    r
}

fn clean_channels(list: &Vec<String>) -> (r: Vec<String>)
    ensures
        r.deep_view() == channels_of(list.deep_view()),
{
    let ghost all = list.deep_view();
    let mut r: Vec<String> = Vec::new();
    let mut i: usize = 0;
    assert(r.deep_view() =~= channels_of(all.take(0)));
    while i < list.len()
        invariant
            i <= list@.len(),
            all == list.deep_view(),
            r.deep_view() == channels_of(all.take(i as int)),
        decreases list@.len() - i,
    {
        let c: String = clean_channel(list[i].as_str());
        assert(all.take(i + 1).drop_last() =~= all.take(i as int));
        assert(all.take(i + 1).last() == list@[i as int]@);
        let ghost before = r.deep_view();
        if !c.as_str().is_empty() {
            let ghost cv = c@;
            r.push(c);
            assert(r.deep_view() =~= before.push(cv));
        }
        i = i + 1;
    }
    assert(all.take(all.len() as int) =~= all);
    r
}

/// The channels that a typed list comes to.
pub open spec fn channels_text(old: Daemon, v: Seq<char>) -> Seq<char> {
    let chans = channels_of(list_of(v, ","@));
    if chans.len() == 0 {
        joined(old.words.predb_channels.deep_view(), ","@)
    } else {
        joined(chans, ","@)
    }
}

/// What setting `predb_channels` to a value comes to.
pub open spec fn predb_channels_set(old: Daemon, v: Seq<char>, r: Outcome, new: Daemon) -> bool {
    &&& taken(r, true, Json::Text(channels_text(old, v)))
    &&& new == (Daemon { predb: Predb { channels: new.predb.channels, ..old.predb }, ..old })
    &&& new.predb.channels@ == channels_text(old, v)
}

/// Sets the channels of the pre feed. None left goes back to the built-in
/// ones.
pub fn set_predb_channels(d: &mut Daemon, _name: &str, v: &str) -> (r: Outcome)
    ensures
        predb_channels_set(*old(d), v@, r, *final(d)),
{
    let chans: Vec<String> = clean_channels(&split_list(v, ","));
    let all: String = if chans.len() == 0 {
        join(&d.words.predb_channels, ",")
    } else {
        join(&chans, ",")
    };
    let echo = text(all.as_str());
    d.predb.channels = all;
    Ok((true, echo))
}

/// Whether a character may stand in a nick.
pub open spec fn nick_char(c: char) -> bool {
    ||| 'a' <= c <= 'z'
    ||| 'A' <= c <= 'Z'
    ||| '0' <= c <= '9'
    ||| c == '[' || c == ']' || c == '\\' || c == '`' || c == '_' || c == '^' || c == '{' || c == '|'
        || c == '}' || c == '-'
}

/// The first `limit` characters of `s` that may stand in a nick.
pub open spec fn nick_of(s: Seq<char>, limit: nat) -> Seq<char>
    decreases s.len(),
{
    if s.len() == 0 {
        Seq::empty()
    } else {
        let before = nick_of(s.drop_last(), limit);
        if nick_char(s.last()) && before.len() < limit {
            before.push(s.last())
        } else {
            before
        }
    }
}

fn clean_nick(s: &str) -> (r: String)
    ensures
        r@ == nick_of(s@, 12),
{
    let chars: Vec<char> = chars_of(s);
    let mut r: String = String::new();
    let mut n: usize = 0;
    let mut i: usize = 0;
    assert(r@ =~= nick_of(chars@.take(0), 12));
    while i < chars.len()
        invariant
            i <= chars@.len(),
            n == r@.len(),
            n <= 12,
            r@ == nick_of(chars@.take(i as int), 12),
        decreases chars@.len() - i,
    {
        let c: char = chars[i];
        assert(chars@.take(i + 1).drop_last() =~= chars@.take(i as int));
        if n < 12 && (('a' <= c && c <= 'z') || ('A' <= c && c <= 'Z') || ('0' <= c && c <= '9')
            || c == '[' || c == ']' || c == '\\' || c == '`' || c == '_' || c == '^' || c == '{'
            || c == '|' || c == '}' || c == '-') {
            r.push(c);
            n = n + 1;
        }
        i = i + 1;
    }
    assert(chars@.take(chars@.len() as int) =~= chars@);
    r
}

/// The nick that a typed one comes to.
pub open spec fn nick_text(old: Daemon, v: Seq<char>) -> Seq<char> {
    let n = nick_of(trimmed(v), 12);
    if n.len() == 0 {
        old.words.predb_nick@
    } else {
        n
    }
}

/// What setting `predb_nick` to a value comes to.
pub open spec fn predb_nick_set(old: Daemon, v: Seq<char>, r: Outcome, new: Daemon) -> bool {
    &&& taken(r, true, Json::Text(nick_text(old, v)))
    &&& new == (Daemon { predb: Predb { nick: new.predb.nick, ..old.predb }, ..old })
    &&& new.predb.nick@ == nick_text(old, v)
}

/// Sets the nick of the pre feed. Nothing usable goes back to the built-in
/// one.
pub fn set_predb_nick(d: &mut Daemon, _name: &str, v: &str) -> (r: Outcome)
    ensures
        predb_nick_set(*old(d), v@, r, *final(d)),
{
    let n: String = clean_nick(trim(v).as_str());
    let n: String = if n.as_str().is_empty() {
        d.words.predb_nick.clone()
    } else {
        n
    };
    let echo = text(n.as_str());
    d.predb.nick = n;
    Ok((true, echo))
}

// ---- laws -----------------------------------------------------------------

/// One more character of a channel name: kept unless it is white, a control
/// character or a comma.
pub proof fn which_characters_a_channel_keeps(s: Seq<char>, c: char)
    ensures
        channel_of(Seq::empty()) == Seq::<char>::empty(),
        '!' <= c && c <= '~' && c != ',' ==> channel_of(s.push(c)) == channel_of(s).push(c),
        c == ',' || c == ' ' || c == '\t' || c == '\r' || c == '\n' || c == '\0' || c == '\u{7f}'
            || c < ' ' || ('\u{80}' <= c && c <= '\u{9f}') ==> channel_of(s.push(c))
            == channel_of(s),
{
    assert(s.push(c).drop_last() =~= s);
}

/// A channel of which nothing is left is dropped, every other kept in order.
pub proof fn which_channels_are_kept(list: Seq<Seq<char>>, s: Seq<char>)
    ensures
        channels_of(Seq::empty()) == Seq::<Seq<char>>::empty(),
        channel_of(s).len() == 0 ==> channels_of(list.push(s)) == channels_of(list),
        channel_of(s).len() > 0 ==> channels_of(list.push(s)) == channels_of(list).push(
            channel_of(s),
        ),
{
    assert(list.push(s).drop_last() =~= list);
}

/// One more character of a nick: kept where it may stand there and there is
/// room for it.
pub proof fn which_characters_a_nick_keeps(s: Seq<char>, c: char, limit: nat)
    ensures
        nick_of(Seq::empty(), limit) == Seq::<char>::empty(),
        nick_of(s, limit).len() < limit && (('a' <= c && c <= 'z') || ('A' <= c && c <= 'Z') || ('0'
            <= c && c <= '9') || c == '_' || c == '-' || c == '[' || c == ']' || c == '{' || c == '}'
            || c == '\\' || c == '|' || c == '`' || c == '^') ==> nick_of(s.push(c), limit)
            == nick_of(s, limit).push(c),
        nick_of(s, limit).len() >= limit ==> nick_of(s.push(c), limit) == nick_of(s, limit),
        c <= ' ' || c > '}' || c == '!' || c == '@' || c == '#' || c == ':' || c == ',' || c == '.'
            || c == '*' || c == '/' ==> nick_of(s.push(c), limit) == nick_of(s, limit),
{
    assert(s.push(c).drop_last() =~= s);
}

/// A nick has a dozen characters at most.
pub proof fn how_long_a_nick_is(s: Seq<char>)
    ensures
        nick_of(s, 12).len() <= 12,
    decreases s.len(),
{
    if s.len() > 0 {
        how_long_a_nick_is(s.drop_last());
    }
}

/// The port is what stands behind the last colon.
pub proof fn what_the_port_is(s: Seq<char>, p: Seq<char>)
    requires
        !p.contains(':'),
    ensures
        after_colon(p) is None,
        after_colon(s + seq![':'] + p) == Some(p),
    decreases p.len(),
{
    let t = s + seq![':'] + p;
    if p.len() > 0 {
        let q = p.drop_last();
        assert(!q.contains(':')) by {
            if q.contains(':') {
                let i = choose|i: int| 0 <= i < q.len() && q[i] == ':';
                assert(p[i] == ':');
            }
        }
        what_the_port_is(s, q);
        assert(t.drop_last() =~= s + seq![':'] + q);
        assert(p[p.len() - 1] != ':');
        assert(q.push(p.last()) =~= p);
    } else {
        assert(t.last() == ':');
        assert(p =~= Seq::empty());
    }
}

/// The channels are those typed, cleaned; where none is left, the built-in
/// ones.
pub proof fn what_setting_the_channels_does(
    d: &mut Daemon,
    name: &str,
    v: &str,
    r: Outcome,
)
    requires
        call_ensures(set_predb_channels, (d, name, v), r),
    ensures
        r is Ok && (r->Ok_0).0,
        channels_of(list_of(v@, ","@)).len() == 0 ==> final(d).predb.channels@ == joined(
            old(d).words.predb_channels.deep_view(),
            ","@,
        ),
        channels_of(list_of(v@, ","@)).len() > 0 ==> final(d).predb.channels@ == joined(
            channels_of(list_of(v@, ","@)),
            ","@,
        ),
        (r->Ok_0).1@ == Json::Text(final(d).predb.channels@),
        final(d).predb.nick == old(d).predb.nick && final(d).predb.server == old(d).predb.server,
{
}

/// The nick is the typed one, cleaned and cut to a dozen characters; where
/// nothing is left, the built-in one.
pub proof fn what_setting_the_nick_does(d: &mut Daemon, name: &str, v: &str, r: Outcome)
    requires
        call_ensures(set_predb_nick, (d, name, v), r),
    ensures
        r is Ok && (r->Ok_0).0,
        nick_of(trimmed(v@), 12).len() == 0 ==> final(d).predb.nick@ == old(d).words.predb_nick@,
        nick_of(trimmed(v@), 12).len() > 0 ==> final(d).predb.nick@ == nick_of(trimmed(v@), 12),
        (r->Ok_0).1@ == Json::Text(final(d).predb.nick@),
        final(d).predb.channels == old(d).predb.channels && final(d).predb.server
            == old(d).predb.server,
{
}

} // verus!
