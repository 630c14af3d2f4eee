//! Plain text handling: trimming, case folding, numbers, lists.
//!
//! Every routine is stated over the characters of a string (`Seq<char>`), so
//! the contracts that use them speak of what a user typed rather than of
//! bytes.
use vstd::prelude::*;

verus! {

/// `String::push` appends the character at the end and changes nothing else.
pub assume_specification[ String::push ](s: &mut String, c: char)
    ensures
        final(s)@ == old(s)@.push(c),
;

// ---- comparing and gluing -------------------------------------------------

/// Whether two strings hold the same characters.
pub fn same(a: &str, b: &str) -> (r: bool)
    ensures
        r == (a@ == b@),
{
    a.to_owned() == b.to_owned()
}

/// `a` followed by `b`.
pub fn glue(a: &str, b: &str) -> (r: String)
    ensures
        r@ == a@ + b@,
{
    a.to_owned().concat(b)
}

/// `a`, `b` and `c` in a row.
pub fn glue3(a: &str, b: &str, c: &str) -> (r: String)
    ensures
        r@ == a@ + b@ + c@,
{
    glue(a, b).concat(c)
}

/// The characters of a string.
pub fn chars_of(s: &str) -> (r: Vec<char>)
    ensures
        r@ == s@,
{
    let mut r: Vec<char> = Vec::new();
    for c in it: s.chars()
        invariant
            it.seq() == s@,
            r@ == s@.take(it.index() as int),
    {
        r.push(c);
        assert(r@ =~= s@.take(it.index() + 1));
    }
    assert(s@.take(s@.len() as int) =~= s@);
    r
}

/// The string made of `chars[from..to]`.
pub fn text_of(chars: &Vec<char>, from: usize, to: usize) -> (r: String)
    requires
        from <= to <= chars@.len(),
    ensures
        r@ == chars@.subrange(from as int, to as int),
{
    let mut r: String = String::new();
    let mut i: usize = from;
    assert(r@ =~= chars@.subrange(from as int, from as int));
    while i < to
        invariant
            from <= i <= to <= chars@.len(),
            r@ == chars@.subrange(from as int, i as int),
        decreases to - i,
    {
        r.push(chars[i]);
        i = i + 1;
        assert(r@ =~= chars@.subrange(from as int, i as int));
    }
    r
}

/// Copies a list of strings.
pub fn copy_texts(list: &Vec<String>) -> (r: Vec<String>)
    ensures
        r.deep_view() == list.deep_view(),
{
    let mut r: Vec<String> = Vec::new();
    let mut i: usize = 0;
    while i < list.len()
        invariant
            i <= list@.len(),
            r@.len() == i,
            forall|j: int| 0 <= j < i ==> r@[j]@ == list@[j]@,
        decreases list@.len() - i,
    {
        r.push(list[i].clone());
        i = i + 1;
    }
    assert(r.deep_view() =~= list.deep_view());
    r
}

/// Adds a copy of `s` to `list`.
pub fn add_text(list: &mut Vec<String>, s: &str)
    ensures
        final(list).deep_view() == old(list).deep_view().push(s@),
{
    list.push(s.to_owned());
    assert(list.deep_view() =~= old(list).deep_view().push(s@));
}

/// Adds copies of the texts of `more` to `list`.
pub fn add_texts(list: &mut Vec<String>, more: &Vec<String>)
    ensures
        final(list).deep_view() == old(list).deep_view() + more.deep_view(),
{
    let mut i: usize = 0;
    assert(more.deep_view().take(0) =~= Seq::empty());
    assert(list.deep_view() =~= old(list).deep_view() + more.deep_view().take(0));
    while i < more.len()
        invariant
            i <= more@.len(),
            list.deep_view() == old(list).deep_view() + more.deep_view().take(i as int),
        decreases more@.len() - i,
    {
        add_text(list, more[i].as_str());
        assert(more.deep_view().take(i + 1) =~= more.deep_view().take(i as int).push(
            more@[i as int]@,
        ));
        assert(list.deep_view() =~= old(list).deep_view() + more.deep_view().take(i + 1));
        i = i + 1;
    }
    assert(more.deep_view().take(more@.len() as int) =~= more.deep_view());
}

/// Whether `list` holds a string with the characters of `s`.
pub fn listed(list: &Vec<String>, s: &str) -> (r: bool)
    ensures
        r == list.deep_view().contains(s@),
{
    let mut i: usize = 0;
    while i < list.len()
        invariant
            i <= list@.len(),
            forall|j: int| 0 <= j < i ==> list@[j]@ != s@,
        decreases list@.len() - i,
    {
        if same(list[i].as_str(), s) {
            assert(list.deep_view()[i as int] == s@);
            return true;
        }
        i = i + 1;
    }
    assert forall|j: int| 0 <= j < list.deep_view().len() implies list.deep_view()[j] != s@ by {
        assert(list@[j]@ != s@);
    }
    false
}

// ---- white space ----------------------------------------------------------

/// The characters with the Unicode `White_Space` property.
pub open spec fn is_white(c: char) -> bool {
    ||| '\u{9}' <= c <= '\u{d}'
    ||| c == '\u{20}'
    ||| c == '\u{85}'
    ||| c == '\u{a0}'
    ||| c == '\u{1680}'
    ||| '\u{2000}' <= c <= '\u{200a}'
    ||| c == '\u{2028}'
    ||| c == '\u{2029}'
    ||| c == '\u{202f}'
    ||| c == '\u{205f}'
    ||| c == '\u{3000}'
}

/// Whether `c` is white space.
pub fn white(c: char) -> (r: bool)
    ensures
        r == is_white(c),
{
    ('\u{9}' <= c && c <= '\u{d}') || c == '\u{20}' || c == '\u{85}' || c == '\u{a0}' || c
        == '\u{1680}' || ('\u{2000}' <= c && c <= '\u{200a}') || c == '\u{2028}' || c == '\u{2029}'
        || c == '\u{202f}' || c == '\u{205f}' || c == '\u{3000}'
}

/// `s` without the white space in front.
pub open spec fn trimmed_front(s: Seq<char>) -> Seq<char>
    decreases s.len(),
{
    if s.len() > 0 && is_white(s[0]) {
        trimmed_front(s.drop_first())
    } else {
        s
    }
}

/// `s` without the white space at the end.
pub open spec fn trimmed_back(s: Seq<char>) -> Seq<char>
    decreases s.len(),
{
    if s.len() > 0 && is_white(s.last()) {
        trimmed_back(s.drop_last())
    } else {
        s
    }
}

/// `s` without the white space around it.
pub open spec fn trimmed(s: Seq<char>) -> Seq<char> {
    trimmed_back(trimmed_front(s))
}

proof fn front_is_not_white(s: Seq<char>)
    ensures
        trimmed_front(s).len() > 0 ==> !is_white(trimmed_front(s)[0]),
    decreases s.len(),
{
    if s.len() > 0 && is_white(s[0]) {
        front_is_not_white(s.drop_first());
    }
}

proof fn back_is_not_white(s: Seq<char>)
    ensures
        trimmed_back(s).len() > 0 ==> !is_white(trimmed_back(s).last()) && trimmed_back(s)[0]
            == s[0],
        trimmed_back(s).len() <= s.len(),
    decreases s.len(),
{
    if s.len() > 0 && is_white(s.last()) {
        back_is_not_white(s.drop_last());
    }
}

/// What is trimmed stays as it is when it is trimmed again.
pub proof fn trimming_twice_is_once(s: Seq<char>)
    ensures
        trimmed(trimmed(s)) == trimmed(s),
{
    front_is_not_white(s);
    back_is_not_white(trimmed_front(s));
}

/// What is trimmed has no white space at either end.
pub proof fn trimmed_ends(s: Seq<char>)
    ensures
        trimmed(s).len() > 0 ==> !is_white(trimmed(s)[0]) && !is_white(trimmed(s).last()),
{
    front_is_not_white(s);
    back_is_not_white(trimmed_front(s));
}

/// A text that starts with something is not blank.
pub proof fn not_blank(s: Seq<char>)
    requires
        s.len() > 0,
        !is_white(s[0]),
    ensures
        trimmed(s).len() > 0,
    decreases s.len(),
{
    if is_white(s.last()) {
        assert(s.drop_last()[0] == s[0]);
        not_blank(s.drop_last());
    }
}

/// Trimming brings in no character.
pub proof fn trimmed_is_part(s: Seq<char>, i: int)
    requires
        0 <= i < trimmed(s).len(),
    ensures
        s.contains(trimmed(s)[i]),
    decreases s.len(),
{
    if s.len() > 0 && is_white(s[0]) {
        trimmed_is_part(s.drop_first(), i);
        let k = choose|k: int|
            0 <= k < s.drop_first().len() && s.drop_first()[k] == trimmed(s)[i];
        assert(s[k + 1] == trimmed(s)[i]);
    } else {
        back_is_part(s, i);
        assert(s[i] == trimmed(s)[i]);
    }
}

proof fn back_is_part(s: Seq<char>, i: int)
    requires
        0 <= i < trimmed_back(s).len(),
    ensures
        i < s.len(),
        trimmed_back(s)[i] == s[i],
    decreases s.len(),
{
    if s.len() > 0 && is_white(s.last()) {
        back_is_part(s.drop_last(), i);
    }
}

/// `chars[from..to]` without the white space around it.
pub fn trim_range(chars: &Vec<char>, from: usize, to: usize) -> (r: String)
    requires
        from <= to <= chars@.len(),
    ensures
        r@ == trimmed(chars@.subrange(from as int, to as int)),
{
    let ghost whole = chars@.subrange(from as int, to as int);
    let mut a: usize = from;
    while a < to && white(chars[a])
        invariant
            from <= a <= to <= chars@.len(),
            trimmed_front(whole) == trimmed_front(chars@.subrange(a as int, to as int)),
        decreases to - a,
    {
        let ghost rest = chars@.subrange(a as int, to as int);
        assert(rest.drop_first() =~= chars@.subrange(a + 1, to as int));
        a = a + 1;
    }
    let ghost front = chars@.subrange(a as int, to as int);
    assert(trimmed_front(whole) == front);
    let mut b: usize = to;
    while b > a && white(chars[b - 1])
        invariant
            from <= a <= b <= to <= chars@.len(),
            trimmed_back(front) == trimmed_back(chars@.subrange(a as int, b as int)),
        decreases b,
    {
        let ghost rest = chars@.subrange(a as int, b as int);
        assert(rest.drop_last() =~= chars@.subrange(a as int, b - 1));
        b = b - 1;
    }
    text_of(chars, a, b)
}

/// `s` without the white space around it.
pub fn trim(s: &str) -> (r: String)
    ensures
        r@ == trimmed(s@),
{
    let chars: Vec<char> = chars_of(s);
    assert(chars@.subrange(0, chars@.len() as int) =~= s@);
    trim_range(&chars, 0, chars.len())
}

// ---- ASCII case -----------------------------------------------------------

/// The lower-case letter of an ASCII capital; any other character unchanged.
pub open spec fn lower_char(c: char) -> char {
    if 'A' <= c <= 'Z' {
        ((c as u32) + 32) as char
    } else {
        c
    }
}

/// `s` with its ASCII capitals made small.
pub open spec fn lowered(s: Seq<char>) -> Seq<char> {
    s.map_values(|c: char| lower_char(c))
}

/// The lower-case letter of an ASCII capital; any other character unchanged.
pub fn lower_one(c: char) -> (r: char)
    ensures
        r == lower_char(c),
{
    if 'A' <= c && c <= 'Z' {
        ((c as u8) + 32) as char
    } else {
        c
    }
}

/// `s` with its ASCII capitals made small.
pub fn lower(s: &str) -> (r: String)
    ensures
        r@ == lowered(s@),
{
    let mut r: String = String::new();
    for c in it: s.chars()
        invariant
            it.seq() == s@,
            r@ == lowered(s@.take(it.index() as int)),
    {
        r.push(lower_one(c));
        assert(r@ =~= lowered(s@.take(it.index() + 1)));
    }
    assert(s@.take(s@.len() as int) =~= s@);
    r
}

/// Whether a switch is turned on by `v`: `1`, or `true` in any case.
pub open spec fn is_on(v: Seq<char>) -> bool {
    v == "1"@ || lowered(v) == lowered("true"@)
}

/// Whether a switch is turned on by `v`: `1`, or `true` in any case.
pub fn flag(v: &str) -> (r: bool)
    ensures
        r == is_on(v@),
{
    same(v, "1") || same(lower(v).as_str(), lower("true").as_str())
}

// ---- prefixes -------------------------------------------------------------

/// Whether `s` starts with `p`.
pub open spec fn has_prefix(s: Seq<char>, p: Seq<char>) -> bool {
    p.len() <= s.len() && s.take(p.len() as int) == p
}

/// Whether `s` ends with `p`.
pub open spec fn has_suffix(s: Seq<char>, p: Seq<char>) -> bool {
    p.len() <= s.len() && s.skip(s.len() - p.len()) == p
}

/// Whether `s` starts with `p`.
pub fn starts_with(s: &str, p: &str) -> (r: bool)
    ensures
        r == has_prefix(s@, p@),
{
    let a: Vec<char> = chars_of(s);
    let b: Vec<char> = chars_of(p);
    if b.len() > a.len() {
        return false;
    }
    let mut i: usize = 0;
    while i < b.len()
        invariant
            i <= b@.len() <= a@.len(),
            a@ == s@,
            b@ == p@,
            forall|j: int| 0 <= j < i ==> a@[j] == b@[j],
        decreases b@.len() - i,
    {
        if a[i] != b[i] {
            assert(a@.take(b@.len() as int)[i as int] != b@[i as int]);
            return false;
        }
        i = i + 1;
    }
    assert(a@.take(b@.len() as int) =~= b@);
    true
}

/// Whether `s` ends with `p`.
pub fn ends_with(s: &str, p: &str) -> (r: bool)
    ensures
        r == has_suffix(s@, p@),
{
    let a: Vec<char> = chars_of(s);
    let b: Vec<char> = chars_of(p);
    if b.len() > a.len() {
        return false;
    }
    let off: usize = a.len() - b.len();
    let n: usize = a.len();
    let mut i: usize = 0;
    while i < b.len()
        invariant
            i <= b@.len() <= a@.len(),
            off == a@.len() - b@.len(),
            a@ == s@,
            b@ == p@,
            n == a@.len(),
            forall|j: int| 0 <= j < i ==> a@[off + j] == b@[j],
        decreases b@.len() - i,
    {
        if a[off + i] != b[i] {
            assert(a@.skip(off as int)[i as int] != b@[i as int]);
            return false;
        }
        i = i + 1;
    }
    assert(a@.skip(off as int) =~= b@);
    true
}

/// Whether `s` is an `http://` or `https://` address.
pub open spec fn is_http(s: Seq<char>) -> bool {
    has_prefix(s, "http://"@) || has_prefix(s, "https://"@)
}

/// Whether `s` is an `http://` or `https://` address.
pub fn http(s: &str) -> (r: bool)
    ensures
        r == is_http(s@),
{
    starts_with(s, "http://") || starts_with(s, "https://")
}

// ---- numbers --------------------------------------------------------------

/// The value of a digit.
pub open spec fn digit_value(c: char) -> int {
    c as int - '0' as int
}

/// Whether every character is a digit below `base` (at most ten).
pub open spec fn all_digits(s: Seq<char>, base: int) -> bool {
    forall|i: int| 0 <= i < s.len() ==> 0 <= digit_value(#[trigger] s[i]) < base
}

/// The number that a run of digits stands for.
pub open spec fn number(s: Seq<char>, base: int) -> int
    decreases s.len(),
{
    if s.len() == 0 {
        0
    } else {
        number(s.drop_last(), base) * base + digit_value(s.last())
    }
}

/// The digits of a number as it is typed: one leading `+` is allowed.
pub open spec fn digits_of(s: Seq<char>) -> Seq<char> {
    if s.len() > 0 && s[0] == '+' {
        s.drop_first()
    } else {
        s
    }
}

/// The unsigned number that `s` spells in `base`, if it spells one that is at
/// most `max`: digits only, at least one, with at most one `+` in front.
pub open spec fn parsed(s: Seq<char>, base: int, max: int) -> Option<int> {
    let d = digits_of(s);
    if d.len() > 0 && all_digits(d, base) && number(d, base) <= max {
        Some(number(d, base))
    } else {
        None
    }
}

/// The decimal number that `s` spells, if it fits 64 bits.
pub open spec fn parsed_u64(s: Seq<char>) -> Option<int> {
    parsed(s, 10, u64::MAX as int)
}

/// The number of a run of digits only grows as digits are added.
proof fn number_grows(s: Seq<char>, k: int, base: int)
    requires
        all_digits(s, base),
        2 <= base,
        0 <= k <= s.len(),
    ensures
        0 <= number(s.take(k), base) <= number(s, base),
    decreases s.len(),
{
    if k == s.len() {
        assert(s.take(k) =~= s);
        if k > 0 {
            assert(all_digits(s.drop_last(), base));
            number_grows(s.drop_last(), k - 1, base);
            assert(number(s.drop_last(), base) * base >= 0) by (nonlinear_arith)
                requires
                    number(s.drop_last(), base) >= 0,
                    base >= 2,
            ;
        }
    } else {
        assert(all_digits(s.drop_last(), base));
        number_grows(s.drop_last(), k, base);
        assert(s.drop_last().take(k) =~= s.take(k));
        let n = number(s.drop_last(), base);
        assert(n * base >= n) by (nonlinear_arith)
            requires
                n >= 0,
                base >= 2,
        ;
    }
}

/// A number that was read is between 0 and the bound.
pub proof fn parsed_bounds(s: Seq<char>, base: int, max: int)
    requires
        2 <= base,
    ensures
        parsed(s, base, max) matches Some(n) ==> 0 <= n <= max,
{
    let d = digits_of(s);
    if all_digits(d, base) {
        number_grows(d, d.len() as int, base);
        assert(d.take(d.len() as int) =~= d);
    }
}

/// Reads an unsigned number in `base`, at most `max`.
pub fn parse(s: &str, base: u64, max: u64) -> (r: Option<u64>)
    requires
        2 <= base <= 10,
    ensures
        match r {
            Some(n) => parsed(s@, base as int, max as int) == Some(n as int),
            None => parsed(s@, base as int, max as int) is None,
        },
{
    let chars: Vec<char> = chars_of(s);
    let start: usize = if chars.len() > 0 && chars[0] == '+' {
        1
    } else {
        0
    };
    let ghost d = digits_of(s@);
    assert(d =~= chars@.skip(start as int));
    if start == chars.len() {
        return None;
    }
    let mut n: u64 = 0;
    let mut i: usize = start;
    assert(d.take(0) =~= Seq::<char>::empty());
    while i < chars.len()
        invariant
            start <= i <= chars@.len(),
            start <= 1,
            2 <= base <= 10,
            d == chars@.skip(start as int),
            d == digits_of(s@),
            n <= max,
            all_digits(d.take(i - start), base as int),
            n == number(d.take(i - start), base as int),
        decreases chars@.len() - i,
    {
        let c: char = chars[i];
        let ghost k = i - start;
        assert(d[k] == c);
        if !('0' <= c && c <= '9') {
            assert(!(0 <= digit_value(d[k]) < base));
            return None;
        }
        let v: u64 = (c as u8 - 48) as u64;
        if v >= base {
            assert(!(0 <= digit_value(d[k]) < base));
            return None;
        }
        assert(d.take(k + 1).drop_last() =~= d.take(k));
        assert(d.take(k + 1).last() == c);
        assert((n as int) * (base as int) <= 0xffff_ffff_ffff_ffff * 10) by (nonlinear_arith)
            requires
                0 <= n <= 0xffff_ffff_ffff_ffff,
                0 <= base <= 10,
        ;
        assert(0 <= (n as int) * (base as int)) by (nonlinear_arith)
            requires
                0 <= n,
                0 <= base,
        ;
        let next: u128 = (n as u128) * (base as u128) + (v as u128);
        assert(next == number(d.take(k + 1), base as int));
        if next > max as u128 {
            proof {
                if all_digits(d, base as int) {
                    number_grows(d, k + 1, base as int);
                }
            }
            return None;
        }
        n = next as u64;
        i = i + 1;
    }
    assert(d.take(d.len() as int) =~= d);
    Some(n)
}

/// Reads a decimal number of 64 bits.
pub fn parse_u64(s: &str) -> (r: Option<u64>)
    ensures
        match r {
            Some(n) => parsed_u64(s@) == Some(n as int),
            None => parsed_u64(s@) is None,
        },
{
    parse(s, 10, u64::MAX)
}

/// The signed decimal number that `s` spells, if it fits 64 bits: as an
/// unsigned one, or with a `-` in front of the digits.
pub open spec fn parsed_i64(s: Seq<char>) -> Option<int> {
    if s.len() > 0 && s[0] == '-' {
        let d = s.drop_first();
        if d.len() > 0 && all_digits(d, 10) && number(d, 10) <= 0x8000_0000_0000_0000 {
            Some(-number(d, 10))
        } else {
            None
        }
    } else {
        parsed(s, 10, i64::MAX as int)
    }
}

/// Reads a signed decimal number of 64 bits.
pub fn parse_i64(s: &str) -> (r: Option<i64>)
    ensures
        match r {
            Some(n) => parsed_i64(s@) == Some(n as int),
            None => parsed_i64(s@) is None,
        },
{
    let chars: Vec<char> = chars_of(s);
    if chars.len() > 0 && chars[0] == '-' {
        let d: String = text_of(&chars, 1, chars.len());
        assert(d@ =~= s@.drop_first());
        if chars.len() > 1 && chars[1] == '+' {
            assert(d@[0] == '+');
            assert(!all_digits(d@, 10));
            return None;
        }
        assert(digits_of(d@) == d@);
        match parse(d.as_str(), 10, 0x8000_0000_0000_0000) {
            Some(n) => if n == 0x8000_0000_0000_0000 {
                Some(i64::MIN)
            } else {
                Some(-(n as i64))
            },
            None => None,
        }
    } else {
        match parse(s, 10, i64::MAX as u64) {
            Some(n) => Some(n as i64),
            None => None,
        }
    }
}

/// The digit with the given value.
pub open spec fn digit_char(v: int) -> char {
    (48 + v) as char
}

/// `n` in decimal.
pub open spec fn decimal(n: int) -> Seq<char>
    decreases n,
{
    if n < 10 {
        seq![digit_char(n)]
    } else {
        decimal(n / 10).push(digit_char(n % 10))
    }
}

fn digit(v: u64) -> (r: char)
    requires
        v < 10,
    ensures
        r == digit_char(v as int),
{
    ((v as u8) + 48) as char
}

/// `n` in decimal.
pub fn to_decimal(n: u64) -> (r: String)
    ensures
        r@ == decimal(n as int),
    decreases n,
{
    if n < 10 {
        let mut s: String = String::new();
        s.push(digit(n));
        assert(s@ =~= decimal(n as int));
        s
    } else {
        let mut s: String = to_decimal(n / 10);
        s.push(digit(n % 10));
        s
    }
}

/// `n` (below 512) as three octal digits.
pub open spec fn octal3(n: int) -> Seq<char> {
    seq![digit_char(n / 64), digit_char(n / 8 % 8), digit_char(n % 8)]
}

/// `n` as three octal digits.
pub fn to_octal3(n: u32) -> (r: String)
    requires
        n <= 0o777,
    ensures
        r@ == octal3(n as int),
{
    let mut s: String = String::new();
    s.push(digit((n / 64) as u64));
    s.push(digit((n / 8 % 8) as u64));
    s.push(digit((n % 8) as u64));
    assert(s@ =~= octal3(n as int));
    s
}

// ---- lists ----------------------------------------------------------------

/// The pieces of `s` between the characters of `seps`.
pub open spec fn pieces(s: Seq<char>, seps: Seq<char>) -> Seq<Seq<char>>
    decreases s.len(),
{
    if s.len() == 0 {
        seq![Seq::<char>::empty()]
    } else {
        let before = pieces(s.drop_last(), seps);
        if seps.contains(s.last()) {
            before.push(Seq::<char>::empty())
        } else {
            before.drop_last().push(before.last().push(s.last()))
        }
    }
}

/// The pieces, trimmed, without the empty ones.
pub open spec fn kept(parts: Seq<Seq<char>>) -> Seq<Seq<char>>
    decreases parts.len(),
{
    if parts.len() == 0 {
        Seq::empty()
    } else {
        let before = kept(parts.drop_last());
        let t = trimmed(parts.last());
        if t.len() == 0 {
            before
        } else {
            before.push(t)
        }
    }
}

/// A typed list: split at `seps`, trimmed, empty entries left out.
pub open spec fn list_of(s: Seq<char>, seps: Seq<char>) -> Seq<Seq<char>> {
    kept(pieces(s, seps))
}

/// `parts` with `sep` between each two.
pub open spec fn joined(parts: Seq<Seq<char>>, sep: Seq<char>) -> Seq<char>
    decreases parts.len(),
{
    if parts.len() == 0 {
        Seq::empty()
    } else if parts.len() == 1 {
        parts[0]
    } else {
        joined(parts.drop_last(), sep) + sep + parts.last()
    }
}

/// Splitting always leaves at least one piece.
pub proof fn pieces_nonempty(s: Seq<char>, seps: Seq<char>)
    ensures
        pieces(s, seps).len() >= 1,
    decreases s.len(),
{
    if s.len() > 0 {
        pieces_nonempty(s.drop_last(), seps);
    }
}

/// A text without a separator is one piece.
pub proof fn one_piece(s: Seq<char>, seps: Seq<char>)
    requires
        forall|i: int| 0 <= i < s.len() ==> !seps.contains(#[trigger] s[i]),
    ensures
        pieces(s, seps) == seq![s],
    decreases s.len(),
{
    if s.len() > 0 {
        one_piece(s.drop_last(), seps);
        assert(s =~= s.drop_last().push(s.last()));
        assert(pieces(s, seps) =~= seq![s]);
    } else {
        assert(s =~= Seq::empty());
    }
}

/// A separator and a text without one add one piece.
proof fn one_more_piece(a: Seq<char>, sep: char, b: Seq<char>, seps: Seq<char>)
    requires
        seps.contains(sep),
        forall|i: int| 0 <= i < b.len() ==> !seps.contains(#[trigger] b[i]),
    ensures
        pieces(a.push(sep) + b, seps) == pieces(a, seps).push(b),
    decreases b.len(),
{
    let s = a.push(sep) + b;
    if b.len() == 0 {
        assert(s.drop_last() =~= a);
        assert(b =~= Seq::empty());
    } else {
        one_more_piece(a, sep, b.drop_last(), seps);
        assert(s.drop_last() =~= a.push(sep) + b.drop_last());
        assert(s.last() == b.last());
        assert(b =~= b.drop_last().push(b.last()));
        assert(pieces(s, seps) =~= pieces(a, seps).push(b));
    }
}

/// No piece holds a separator.
pub proof fn pieces_hold_no_separator(s: Seq<char>, seps: Seq<char>)
    ensures
        forall|k: int, i: int|
            0 <= k < pieces(s, seps).len() && 0 <= i < pieces(s, seps)[k].len() ==> !seps.contains(
                #[trigger] pieces(s, seps)[k][i],
            ),
    decreases s.len(),
{
    if s.len() > 0 {
        pieces_hold_no_separator(s.drop_last(), seps);
        pieces_nonempty(s.drop_last(), seps);
    }
}

/// Joining pieces and splitting them again gives them back.
pub proof fn splitting_undoes_joining(list: Seq<Seq<char>>, sep: char)
    requires
        list.len() > 0,
        forall|k: int, i: int|
            0 <= k < list.len() && 0 <= i < list[k].len() ==> #[trigger] list[k][i] != sep,
    ensures
        pieces(joined(list, seq![sep]), seq![sep]) == list,
    decreases list.len(),
{
    let seps = seq![sep];
    assert(seps[0] == sep);
    let last = list.last();
    assert forall|i: int| 0 <= i < last.len() implies !seps.contains(#[trigger] last[i]) by {
        assert(list[list.len() - 1][i] != sep);
    }
    if list.len() == 1 {
        one_piece(last, seps);
        assert(list =~= seq![last]);
    } else {
        let rest = list.drop_last();
        assert forall|k: int, i: int| 0 <= k < rest.len() && 0 <= i < rest[k].len() implies
            #[trigger] rest[k][i] != sep by {
            assert(list[k][i] != sep);
        }
        splitting_undoes_joining(rest, sep);
        one_more_piece(joined(rest, seps), sep, last, seps);
        assert(joined(list, seps) =~= joined(rest, seps).push(sep) + last);
        assert(list =~= rest.push(last));
    }
}

/// The pieces that are kept are those that are not blank, trimmed.
pub proof fn kept_are_trimmed(parts: Seq<Seq<char>>, k: int)
    requires
        0 <= k < kept(parts).len(),
    ensures
        kept(parts)[k].len() > 0,
        exists|i: int| 0 <= i < parts.len() && kept(parts)[k] == trimmed(#[trigger] parts[i]),
    decreases parts.len(),
{
    let rest = parts.drop_last();
    if k < kept(rest).len() {
        kept_are_trimmed(rest, k);
        let i = choose|i: int| 0 <= i < rest.len() && kept(rest)[k] == trimmed(#[trigger] rest[i]);
        assert(parts[i] == rest[i]);
    } else {
        assert(parts[parts.len() - 1] == parts.last());
    }
}

/// What is trimmed already and not blank is kept as it is.
pub proof fn keeping_what_is_trimmed(parts: Seq<Seq<char>>)
    requires
        forall|k: int|
            0 <= k < parts.len() ==> (#[trigger] parts[k]).len() > 0 && trimmed(parts[k])
                == parts[k],
    ensures
        kept(parts) == parts,
    decreases parts.len(),
{
    if parts.len() > 0 {
        let rest = parts.drop_last();
        assert forall|k: int| 0 <= k < rest.len() implies (#[trigger] rest[k]).len() > 0
            && trimmed(rest[k]) == rest[k] by {
            assert(rest[k] == parts[k]);
        }
        keeping_what_is_trimmed(rest);
        assert(parts[parts.len() - 1] == parts.last());
        assert(parts =~= rest.push(parts.last()));
    } else {
        assert(parts =~= Seq::empty());
    }
}

/// What is joined starts with the first piece.
pub proof fn joined_starts_with_the_first(list: Seq<Seq<char>>, sep: Seq<char>)
    requires
        list.len() > 0,
        list[0].len() > 0,
    ensures
        joined(list, sep).len() > 0,
        joined(list, sep)[0] == list[0][0],
    decreases list.len(),
{
    if list.len() > 1 {
        assert(list.drop_last()[0] == list[0]);
        joined_starts_with_the_first(list.drop_last(), sep);
    }
}

/// Making capitals small leaves white space and separators where they are,
/// and does nothing the second time.
pub proof fn lowering_keeps_the_shape(s: Seq<char>)
    ensures
        lowered(s).len() == s.len(),
        lowered(lowered(s)) == lowered(s),
        forall|i: int|
            0 <= i < s.len() ==> is_white(#[trigger] lowered(s)[i]) == is_white(s[i]) && (
            lowered(s)[i] == ',' <==> s[i] == ','),
{
    assert(lowered(lowered(s)) =~= lowered(s));
}

fn is_sep(seps: &Vec<char>, c: char) -> (r: bool)
    ensures
        r == seps@.contains(c),
{
    let mut i: usize = 0;
    while i < seps.len()
        invariant
            i <= seps@.len(),
            forall|j: int| 0 <= j < i ==> seps@[j] != c,
        decreases seps@.len() - i,
    {
        if seps[i] == c {
            return true;
        }
        i = i + 1;
    }
    false
}

/// Splits `s` at the characters of `seps`.
pub fn split(s: &str, seps: &str) -> (r: Vec<String>)
    ensures
        r.deep_view() == pieces(s@, seps@),
{
    let chars: Vec<char> = chars_of(s);
    let sv: Vec<char> = chars_of(seps);
    let mut done: Vec<String> = Vec::new();
    let mut cur: String = String::new();
    let mut i: usize = 0;
    assert(pieces(chars@.take(0), sv@) =~= seq![Seq::<char>::empty()]);
    assert(done.deep_view() =~= pieces(chars@.take(0), sv@).drop_last());
    assert(cur@ =~= pieces(chars@.take(0), sv@).last());
    while i < chars.len()
        invariant
            i <= chars@.len(),
            pieces(chars@.take(i as int), sv@).len() >= 1,
            done.deep_view() == pieces(chars@.take(i as int), sv@).drop_last(),
            cur@ == pieces(chars@.take(i as int), sv@).last(),
        decreases chars@.len() - i,
    {
        let c: char = chars[i];
        let ghost here = chars@.take(i as int);
        let ghost next = chars@.take(i + 1);
        let ghost before = done.deep_view();
        assert(next.drop_last() =~= here);
        assert(next.last() == c);
        if is_sep(&sv, c) {
            let ghost full = cur@;
            done.push(cur);
            cur = String::new();
            assert(done.deep_view() =~= before.push(full));
            assert(pieces(next, sv@) == pieces(here, sv@).push(Seq::empty()));
            assert(pieces(next, sv@).drop_last() =~= pieces(here, sv@));
            assert(before.push(full) =~= pieces(here, sv@));
            assert(cur@ =~= Seq::<char>::empty());
        } else {
            cur.push(c);
            assert(pieces(next, sv@).drop_last() =~= pieces(here, sv@).drop_last());
        }
        i = i + 1;
    }
    assert(chars@.take(chars@.len() as int) =~= chars@);
    let ghost before = done.deep_view();
    let ghost full = cur@;
    done.push(cur);
    assert(done.deep_view() =~= before.push(full));
    assert(before.push(full) =~= pieces(chars@, sv@));
    done
}

/// A typed list: split at `seps`, trimmed, empty entries left out.
pub fn split_list(s: &str, seps: &str) -> (r: Vec<String>)
    ensures
        r.deep_view() == list_of(s@, seps@),
{
    let parts: Vec<String> = split(s, seps);
    let ghost all = parts.deep_view();
    let mut r: Vec<String> = Vec::new();
    let mut i: usize = 0;
    assert(r.deep_view() =~= kept(all.take(0)));
    while i < parts.len()
        invariant
            i <= parts@.len(),
            all == parts.deep_view(),
            r.deep_view() == kept(all.take(i as int)),
        decreases parts@.len() - i,
    {
        let t: String = trim(parts[i].as_str());
        let ghost before = r.deep_view();
        assert(all.take(i + 1).drop_last() =~= all.take(i as int));
        assert(all.take(i + 1).last() == parts@[i as int]@);
        if !t.as_str().is_empty() {
            let ghost tv = t@;
            r.push(t);
            assert(r.deep_view() =~= before.push(tv));
        }
        i = i + 1;
    }
    assert(all.take(all.len() as int) =~= all);
    r
}

/// Joins `parts` with `sep` between each two.
pub fn join(parts: &Vec<String>, sep: &str) -> (r: String)
    ensures
        r@ == joined(parts.deep_view(), sep@),
{
    let ghost all = parts.deep_view();
    let mut r: String = String::new();
    let mut i: usize = 0;
    assert(r@ =~= joined(all.take(0), sep@));
    while i < parts.len()
        invariant
            i <= parts@.len(),
            all == parts.deep_view(),
            r@ == joined(all.take(i as int), sep@),
        decreases parts@.len() - i,
    {
        assert(all.take(i + 1).drop_last() =~= all.take(i as int));
        assert(all.take(i + 1).last() == parts@[i as int]@);
        if i > 0 {
            r.append(sep);
            r.append(parts[i].as_str());
        } else {
            r = parts[i].clone();
        }
        i = i + 1;
    }
    assert(all.take(all.len() as int) =~= all);
    r
}

// ---- laws -----------------------------------------------------------------

/// Nothing that is seen is white, blanks and line ends are.
pub proof fn which_characters_are_white(c: char, r: bool)
    requires
        call_ensures(white, (c,), r),
    ensures
        c == ' ' || c == '\t' || c == '\n' || c == '\r' || c == '\u{b}' || c == '\u{c}' ==> r,
        c == '\u{85}' || c == '\u{a0}' || c == '\u{1680}' || c == '\u{2028}' || c == '\u{2029}' || c
            == '\u{202f}' || c == '\u{205f}' || c == '\u{3000}' ==> r,
        0x2000 <= c as int <= 0x200a ==> r,
        c < '\t' || ('\r' < c && c < ' ') || ('!' <= c && c <= '~') || c > '\u{3000}' ==> !r,
        0xa0 < c as int && (c as int) < 0x2000 && c != '\u{1680}' ==> !r,
{
}

/// White space around a text goes, and the text between stays as it is.
pub proof fn what_trimming_takes(a: Seq<char>, s: Seq<char>, b: Seq<char>)
    requires
        forall|i: int| 0 <= i < a.len() ==> is_white(#[trigger] a[i]),
        forall|i: int| 0 <= i < b.len() ==> is_white(#[trigger] b[i]),
        s.len() > 0 ==> !is_white(s[0]) && !is_white(s.last()),
    ensures
        trimmed(a + s + b) == s,
{
    let t = s + b;
    assert(a + s + b =~= a + t);
    front_goes(a, t);
    if s.len() > 0 {
        assert(t[0] == s[0]);
        assert(trimmed_front(t) == t);
        back_goes(s, b);
        assert(trimmed_back(s) == s);
    } else {
        assert(t =~= b);
        front_goes(b, Seq::empty());
        assert(b + Seq::<char>::empty() =~= b);
        assert(trimmed_front(Seq::<char>::empty()) =~= Seq::empty());
        assert(s =~= Seq::empty());
    }
}

proof fn front_goes(a: Seq<char>, t: Seq<char>)
    requires
        forall|i: int| 0 <= i < a.len() ==> is_white(#[trigger] a[i]),
    ensures
        trimmed_front(a + t) == trimmed_front(t),
    decreases a.len(),
{
    if a.len() > 0 {
        let rest = a.drop_first();
        assert forall|i: int| 0 <= i < rest.len() implies is_white(#[trigger] rest[i]) by {
            assert(rest[i] == a[i + 1]);
        }
        front_goes(rest, t);
        assert((a + t).drop_first() =~= rest + t);
        assert((a + t)[0] == a[0]);
    } else {
        assert(a + t =~= t);
    }
}

proof fn back_goes(t: Seq<char>, b: Seq<char>)
    requires
        forall|i: int| 0 <= i < b.len() ==> is_white(#[trigger] b[i]),
    ensures
        trimmed_back(t + b) == trimmed_back(t),
    decreases b.len(),
{
    if b.len() > 0 {
        let rest = b.drop_last();
        assert forall|i: int| 0 <= i < rest.len() implies is_white(#[trigger] rest[i]) by {
            assert(rest[i] == b[i]);
        }
        back_goes(t, rest);
        assert((t + b).drop_last() =~= t + rest);
        assert((t + b).last() == b[b.len() - 1]);
    } else {
        assert(t + b =~= t);
    }
}

/// A capital of the alphabet becomes the small letter, and nothing else changes.
pub proof fn which_letters_become_small(c: char, r: char)
    requires
        call_ensures(lower_one, (c,), r),
    ensures
        'A' <= c && c <= 'Z' ==> r as int == c as int + 32 && 'a' <= r && r <= 'z',
        c < 'A' || c > 'Z' ==> r == c,
{
}

/// A switch is turned on by `1` and by `true` in any case, and by nothing else.
pub proof fn what_turns_a_switch_on(v: &str, r: bool)
    requires
        call_ensures(flag, (v,), r),
    ensures
        v@ == seq!['1'] ==> r,
        v@.len() == 4 && (v@[0] == 't' || v@[0] == 'T') && (v@[1] == 'r' || v@[1] == 'R') && (v@[2]
            == 'u' || v@[2] == 'U') && (v@[3] == 'e' || v@[3] == 'E') ==> r,
        v@.len() != 1 && v@.len() != 4 ==> !r,
        v@.len() == 1 && v@[0] != '1' ==> !r,
        v@.len() == 4 && !(v@[0] == 't' || v@[0] == 'T') ==> !r,
        v@.len() == 4 && !(v@[1] == 'r' || v@[1] == 'R') ==> !r,
        v@.len() == 4 && !(v@[2] == 'u' || v@[2] == 'U') ==> !r,
        v@.len() == 4 && !(v@[3] == 'e' || v@[3] == 'E') ==> !r,
{
    reveal_strlit("1");
    reveal_strlit("true");
    let t = "true"@;
    assert("1"@ =~= seq!['1']);
    assert(t.len() == 4 && t[0] == 't' && t[1] == 'r' && t[2] == 'u' && t[3] == 'e');
    assert(lowered(t) =~= t);
    if v@.len() == 4 {
        assert(lowered(v@)[0] == lower_char(v@[0]));
        assert(lowered(v@)[1] == lower_char(v@[1]));
        assert(lowered(v@)[2] == lower_char(v@[2]));
        assert(lowered(v@)[3] == lower_char(v@[3]));
        if v@[0] == 't' || v@[0] == 'T' {
            assert(lower_char(v@[0]) == 't');
        }
        if v@[1] == 'r' || v@[1] == 'R' {
            assert(lower_char(v@[1]) == 'r');
        }
        if v@[2] == 'u' || v@[2] == 'U' {
            assert(lower_char(v@[2]) == 'u');
        }
        if v@[3] == 'e' || v@[3] == 'E' {
            assert(lower_char(v@[3]) == 'e');
        }
        if r {
            assert(lowered(v@) == t);
        } else if lower_char(v@[0]) == 't' && lower_char(v@[1]) == 'r' && lower_char(v@[2]) == 'u'
            && lower_char(v@[3]) == 'e' {
            assert(lowered(v@) =~= t);
        }
    }
}

/// A text starts with what it was put together from first, and ends with what
/// it was put together from last.
pub proof fn what_a_text_starts_with(p: &str, s: &str, x: Seq<char>, r: bool)
    requires
        call_ensures(starts_with, (s, p), r),
    ensures
        s@ == p@ + x ==> r,
        r ==> s@ == p@ + s@.skip(p@.len() as int),
{
    if s@ == p@ + x {
        assert(s@.take(p@.len() as int) =~= p@);
    }
    if r {
        assert(s@ =~= s@.take(p@.len() as int) + s@.skip(p@.len() as int));
    }
}

/// A web address names one of the two schemes in front.
pub proof fn what_is_a_web_address(s: &str, x: Seq<char>, r: bool)
    requires
        call_ensures(http, (s,), r),
    ensures
        s@ == "http://"@ + x || s@ == "https://"@ + x ==> r,
        r ==> s@.len() >= 7 && s@[0] == 'h' && s@[1] == 't' && s@[2] == 't' && s@[3] == 'p',
        r ==> (s@[4] == ':' && s@[5] == '/' && s@[6] == '/') || (s@.len() >= 8 && s@[4] == 's'
            && s@[5] == ':' && s@[6] == '/' && s@[7] == '/'),
{
    reveal_strlit("http://");
    reveal_strlit("https://");
    let a = "http://"@;
    let b = "https://"@;
    assert(a.len() == 7 && b.len() == 8);
    assert(a[0] == 'h' && a[1] == 't' && a[2] == 't' && a[3] == 'p' && a[4] == ':' && a[5] == '/'
        && a[6] == '/');
    assert(b[0] == 'h' && b[1] == 't' && b[2] == 't' && b[3] == 'p' && b[4] == 's' && b[5] == ':'
        && b[6] == '/' && b[7] == '/');
    if s@ == a + x {
        assert(s@.take(7) =~= a);
    }
    if s@ == b + x {
        assert(s@.take(8) =~= b);
    }
    if has_prefix(s@, a) {
        assert forall|i: int| 0 <= i < 7 implies s@[i] == a[i] by {
            assert(s@.take(7)[i] == s@[i]);
        }
    }
    if has_prefix(s@, b) {
        assert forall|i: int| 0 <= i < 8 implies s@[i] == b[i] by {
            assert(s@.take(8)[i] == s@[i]);
        }
    }
}

/// One more digit makes a number ten times what it was, and the digit.
pub proof fn how_a_number_is_read(s: Seq<char>, c: char)
    ensures
        number(s.push(c), 10) == 10 * number(s, 10) + (c as int - 48),
        number(Seq::empty(), 10) == 0,
{
    assert(s.push(c).drop_last() =~= s);
}

/// A number is read from its digits, one plus sign in front allowed; a text
/// that is empty, holds anything else or is too large is none.
pub proof fn which_texts_are_numbers(s: &str, r: Option<u64>, i: int)
    requires
        call_ensures(parse_u64, (s,), r),
    ensures
        s@.len() == 0 ==> r is None,
        s@ == seq!['+'] ==> r is None,
        0 < i < s@.len() && !('0' <= s@[i] && s@[i] <= '9') ==> r is None,
        s@.len() > 0 && s@[0] != '+' && !('0' <= s@[0] && s@[0] <= '9') ==> r is None,
        s@.len() > 0 && (forall|k: int|
            0 <= k < s@.len() ==> '0' <= #[trigger] s@[k] && s@[k] <= '9') && number(s@, 10)
            <= 0xffff_ffff_ffff_ffff ==> r is Some && r->0 == number(s@, 10),
        number(digits_of(s@), 10) > 0xffff_ffff_ffff_ffff ==> r is None,
        s@.len() > 1 && s@[0] == '+' && r is Some ==> r->0 == number(s@.drop_first(), 10),
{
    let d = digits_of(s@);
    if s@ == seq!['+'] {
        assert(d.len() == 0);
    }
    if 0 < i < s@.len() && !('0' <= s@[i] && s@[i] <= '9') {
        if s@[0] == '+' {
            assert(d[i - 1] == s@[i]);
        } else {
            assert(d[i] == s@[i]);
        }
    }
    if s@.len() > 0 && s@[0] != '+' && !('0' <= s@[0] && s@[0] <= '9') {
        assert(d[0] == s@[0]);
    }
    if s@.len() > 0 && (forall|k: int|
        0 <= k < s@.len() ==> '0' <= #[trigger] s@[k] && s@[k] <= '9') {
        assert('0' <= s@[0]);
        assert(d == s@);
        assert(all_digits(d, 10));
    }
}

/// A signed number is read as an unsigned one, or is the negative of the digits
/// behind its minus sign.
pub proof fn which_texts_are_signed_numbers(s: &str, r: Option<i64>)
    requires
        call_ensures(parse_i64, (s,), r),
    ensures
        s@.len() > 0 && s@[0] == '-' && r is Some ==> r->0 == -number(s@.drop_first(), 10),
        s@.len() > 0 && s@[0] == '-' ==> (r is Some <==> s@.len() > 1 && all_digits(
            s@.drop_first(),
            10,
        ) && number(s@.drop_first(), 10) <= 0x8000_0000_0000_0000),
        s@.len() > 0 && s@[0] != '-' && s@[0] != '+' && r is Some ==> r->0 == number(s@, 10),
        s@.len() == 0 ==> r is None,
{
}

/// A number that is written out in decimal reads back.
pub proof fn a_decimal_reads_back(n: int)
    requires
        0 <= n <= 0xffff_ffff_ffff_ffff,
    ensures
        parsed_u64(decimal(n)) == Some(n),
{
    decimal_is_digits(n);
}

proof fn decimal_is_digits(n: int)
    requires
        0 <= n,
    ensures
        decimal(n).len() > 0,
        all_digits(decimal(n), 10),
        number(decimal(n), 10) == n,
        decimal(n)[0] != '+',
    decreases n,
{
    if n < 10 {
        let s = decimal(n);
        assert(s.drop_last() =~= Seq::empty());
        assert(number(s.drop_last(), 10) == 0);
        assert(digit_value(s[0]) == n);
    } else {
        let s = decimal(n);
        decimal_is_digits(n / 10);
        assert(s.drop_last() =~= decimal(n / 10));
        assert(digit_value(digit_char(n % 10)) == n % 10);
        assert forall|i: int| 0 <= i < s.len() implies 0 <= digit_value(#[trigger] s[i]) < 10 by {
            if i < s.len() - 1 {
                assert(s[i] == decimal(n / 10)[i]);
            }
        }
    }
}

/// Three octal digits read back.
pub proof fn an_octal_reads_back(n: u32, r: String)
    requires
        n <= 511,
        call_ensures(to_octal3, (n,), r),
    ensures
        r@.len() == 3,
        64 * digit_value(r@[0]) + 8 * digit_value(r@[1]) + digit_value(r@[2]) == n,
        0 <= digit_value(r@[0]) < 8 && 0 <= digit_value(r@[1]) < 8 && 0 <= digit_value(r@[2]) < 8,
{
}

/// One more piece of a typed list: kept, trimmed, unless it is blank.
pub proof fn which_pieces_are_kept(parts: Seq<Seq<char>>, p: Seq<char>)
    ensures
        kept(Seq::empty()) == Seq::<Seq<char>>::empty(),
        trimmed(p).len() == 0 ==> kept(parts.push(p)) == kept(parts),
        trimmed(p).len() > 0 ==> kept(parts.push(p)) == kept(parts).push(trimmed(p)),
{
    assert(parts.push(p).drop_last() =~= parts);
}

/// What stands between the pieces of a joined text.
pub proof fn how_texts_are_joined(parts: Seq<Seq<char>>, p: Seq<char>, sep: Seq<char>)
    ensures
        joined(Seq::empty(), sep).len() == 0,
        joined(seq![p], sep) == p,
        parts.len() > 0 ==> joined(parts.push(p), sep) == joined(parts, sep) + sep + p,
{
    assert(parts.push(p).drop_last() =~= parts);
}

} // verus!
