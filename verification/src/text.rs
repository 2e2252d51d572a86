//! Operations on text, seen as a sequence of characters.

use vstd::prelude::*;

verus! {

/// `String::push` appends one character.
pub assume_specification[ String::push ](s: &mut String, c: char)
    ensures
        final(s)@ == old(s)@.push(c),
;

/// The characters with the Unicode property `White_Space`.
pub open spec fn is_space(c: char) -> bool {
    ||| '\u{9}' <= c <= '\u{d}'
    ||| c == ' '
    ||| c == '\u{85}'
    ||| c == '\u{a0}'
    ||| c == '\u{1680}'
    ||| '\u{2000}' <= c <= '\u{200a}'
    ||| c == '\u{2028}'
    ||| c == '\u{2029}'
    ||| c == '\u{202f}'
    ||| c == '\u{205f}'
    ||| c == '\u{3000}'
}

/// `char::is_whitespace` tests for the Unicode property `White_Space`, whose
/// members `is_space` lists.
pub assume_specification[ char::is_whitespace ](c: char) -> (r: bool)
    ensures
        r == is_space(c),
;

/// `s` from its first character that is not white space.
pub open spec fn trimmed_start(s: Seq<char>) -> Seq<char>
    decreases s.len(),
{
    if s.len() > 0 && is_space(s.first()) {
        trimmed_start(s.drop_first())
    } else {
        s
    }
}

/// `s` up to its last character that is not white space.
pub open spec fn trimmed_end(s: Seq<char>) -> Seq<char>
    decreases s.len(),
{
    if s.len() > 0 && is_space(s.last()) {
        trimmed_end(s.drop_last())
    } else {
        s
    }
}

/// `s` without the white space around it.
pub open spec fn trimmed(s: Seq<char>) -> Seq<char> {
    trimmed_end(trimmed_start(s))
}

/// The characters of `s`.
pub fn chars(s: &str) -> (r: Vec<char>)
    ensures
        r@ == s@,
{
    let mut out: Vec<char> = Vec::new();
    for c in it: s.chars()
        invariant
            out@ == it.seq().take(it.index()),
            it.seq() == s@,
    {
        out.push(c);
    }
    out
}

/// The characters `from..to` as a string.
pub fn slice(cs: &Vec<char>, from: usize, to: usize) -> (r: String)
    requires
        from <= to <= cs@.len(),
    ensures
        r@ == cs@.subrange(from as int, to as int),
{
    let mut out = String::new();
    let mut i: usize = from;
    while i < to
        invariant
            from <= i <= to <= cs@.len(),
            out@ == cs@.subrange(from as int, i as int),
        decreases to - i,
    {
        out.push(cs[i]);
        i += 1;
    }
    out
}

/// Removes the white space around `s`.
pub fn trim(s: &str) -> (r: String)
    ensures
        r@ == trimmed(s@),
{
    let cs = chars(s);
    let mut from: usize = 0;
    assert(cs@.skip(0) == cs@);
    while from < cs.len() && cs[from].is_whitespace()
        invariant
            from <= cs@.len(),
            trimmed_start(cs@) == trimmed_start(cs@.skip(from as int)),
        decreases cs@.len() - from,
    {
        assert(cs@.skip(from as int).drop_first() == cs@.skip(from + 1));
        from += 1;
    }
    let mut to: usize = cs.len();
    let ghost start = cs@.skip(from as int);
    assert(trimmed_start(cs@) == start);
    assert(cs@.subrange(from as int, to as int) == start);
    while from < to && cs[to - 1].is_whitespace()
        invariant
            from <= to <= cs@.len(),
            trimmed_end(start) == trimmed_end(cs@.subrange(from as int, to as int)),
        decreases to,
    {
        assert(cs@.subrange(from as int, to as int).drop_last() == cs@.subrange(
            from as int,
            to - 1,
        ));
        to -= 1;
    }
    slice(&cs, from, to)
}

/// Whether two texts are the same.
pub fn same(a: &str, b: &str) -> (r: bool)
    ensures
        r == (a@ == b@),
{
    let xs = chars(a);
    let ys = chars(b);
    if xs.len() != ys.len() {
        return false;
    }
    let mut i: usize = 0;
    while i < xs.len()
        invariant
            i <= xs@.len() == ys@.len(),
            xs@ == a@,
            ys@ == b@,
            forall|k: int| 0 <= k < i ==> xs@[k] == ys@[k],
        decreases xs@.len() - i,
    {
        if xs[i] != ys[i] {
            return false;
        }
        i += 1;
    }
    assert(a@ =~= b@);
    true
}

/// `c` with `A` to `Z` turned into `a` to `z`.
pub open spec fn ascii_lower(c: char) -> char {
    if 'A' <= c <= 'Z' {
        (c as u32 + 32) as char
    } else {
        c
    }
}

/// `c` with `a` to `z` turned into `A` to `Z`.
pub open spec fn ascii_upper(c: char) -> char {
    if 'a' <= c <= 'z' {
        (c as u32 - 32) as char
    } else {
        c
    }
}

/// `s` with its ASCII letters in lower case.
pub open spec fn ascii_lowered(s: Seq<char>) -> Seq<char> {
    Seq::new(s.len(), |i: int| ascii_lower(s[i]))
}

/// `s` with its ASCII letters in upper case.
pub open spec fn ascii_uppered(s: Seq<char>) -> Seq<char> {
    Seq::new(s.len(), |i: int| ascii_upper(s[i]))
}

/// Puts the ASCII letters of `s` in lower case.
pub fn to_ascii_lower(s: &str) -> (r: String)
    ensures
        r@ == ascii_lowered(s@),
{
    let cs = chars(s);
    let mut out = String::new();
    let mut i: usize = 0;
    while i < cs.len()
        invariant
            i <= cs@.len(),
            out@ == ascii_lowered(cs@).take(i as int),
        decreases cs@.len() - i,
    {
        let c: char = cs[i];
        let low: char = if 'A' <= c && c <= 'Z' {
            (c as u8 + 32) as char
        } else {
            c
        };
        out.push(low);
        i += 1;
    }
    out
}

/// Puts the ASCII letters of `s` in upper case.
pub fn to_ascii_upper(s: &str) -> (r: String)
    ensures
        r@ == ascii_uppered(s@),
{
    let cs = chars(s);
    let mut out = String::new();
    let mut i: usize = 0;
    while i < cs.len()
        invariant
            i <= cs@.len(),
            out@ == ascii_uppered(cs@).take(i as int),
        decreases cs@.len() - i,
    {
        let c: char = cs[i];
        let up: char = if 'a' <= c && c <= 'z' {
            (c as u8 - 32) as char
        } else {
            c
        };
        out.push(up);
        i += 1;
    }
    out
}

/// `s` without `prefix` in front, or nothing where `s` does not start with it.
pub open spec fn after_prefix(s: Seq<char>, prefix: Seq<char>) -> Option<Seq<char>> {
    if prefix.is_prefix_of(s) {
        Some(s.skip(prefix.len() as int))
    } else {
        None
    }
}

/// Takes `prefix` off the front of `s`.
pub fn strip_prefix(s: &str, prefix: &str) -> (r: Option<String>)
    ensures
        match r {
            Some(rest) => after_prefix(s@, prefix@) == Some(rest@),
            None => after_prefix(s@, prefix@) is None,
        },
{
    let cs = chars(s);
    let ps = chars(prefix);
    if ps.len() > cs.len() {
        return None;
    }
    let mut i: usize = 0;
    while i < ps.len()
        invariant
            i <= ps@.len() <= cs@.len(),
            cs@ == s@,
            ps@ == prefix@,
            forall|k: int| 0 <= k < i ==> ps@[k] == cs@[k],
        decreases ps@.len() - i,
    {
        if ps[i] != cs[i] {
            assert(!prefix@.is_prefix_of(s@)) by {
                if prefix@.is_prefix_of(s@) {
                    assert(s@.subrange(0, prefix@.len() as int)[i as int] == prefix@[i as int]);
                }
            }
            return None;
        }
        i += 1;
    }
    assert(prefix@ =~= s@.subrange(0, prefix@.len() as int));
    let rest = slice(&cs, ps.len(), cs.len());
    assert(rest@ =~= s@.skip(prefix@.len() as int));
    Some(rest)
}

/// Whether `part` stands somewhere in `s`.
pub open spec fn has_part(s: Seq<char>, part: Seq<char>) -> bool {
    exists|i: int| part_at(s, part, i)
}

/// Whether `part` stands in `s` at position `i`.
pub open spec fn part_at(s: Seq<char>, part: Seq<char>, i: int) -> bool {
    0 <= i && i + part.len() <= s.len() && s.subrange(i, i + part.len()) == part
}

/// Tests whether `part` stands somewhere in `s`.
pub fn contains(s: &str, part: &str) -> (r: bool)
    ensures
        r == has_part(s@, part@),
{
    let cs = chars(s);
    let ps = chars(part);
    let mut i: usize = 0;
    while i <= cs.len() && ps.len() <= cs.len() - i
        invariant
            cs@ == s@,
            ps@ == part@,
            forall|k: int| 0 <= k < i ==> !part_at(s@, part@, k),
        decreases cs@.len() + 1 - i,
    {
        let mut k: usize = 0;
        while k < ps.len() && ps[k] == cs[i + k]
            invariant
                cs@ == s@,
                ps@ == part@,
                i + ps@.len() <= cs@.len() <= usize::MAX,
                k <= ps@.len(),
                forall|m: int| 0 <= m < k ==> ps@[m] == cs@[i + m],
            decreases ps@.len() - k,
        {
            k += 1;
        }
        if k == ps.len() {
            assert(s@.subrange(i as int, i + part@.len()) =~= part@);
            assert(part_at(s@, part@, i as int));
            return true;
        }
        assert(!part_at(s@, part@, i as int)) by {
            if part_at(s@, part@, i as int) {
                assert(s@.subrange(i as int, i + part@.len())[k as int] == part@[k as int]);
            }
        }
        if i == cs.len() {
            assert(ps.len() == 0);
            return false;
        }
        i += 1;
    }
    false
}

/// `s` without the run of `c` at its end.
pub open spec fn without_trailing(s: Seq<char>, c: char) -> Seq<char>
    decreases s.len(),
{
    if s.len() > 0 && s.last() == c {
        without_trailing(s.drop_last(), c)
    } else {
        s
    }
}

/// Removes the run of `c` at the end of `s`.
pub fn strip_trailing(s: &str, c: char) -> (r: String)
    ensures
        r@ == without_trailing(s@, c),
{
    let cs = chars(s);
    let mut to: usize = cs.len();
    assert(cs@.take(to as int) == cs@);
    while 0 < to && cs[to - 1] == c
        invariant
            to <= cs@.len(),
            without_trailing(cs@, c) == without_trailing(cs@.take(to as int), c),
        decreases to,
    {
        assert(cs@.take(to as int).drop_last() == cs@.take(to - 1));
        to -= 1;
    }
    assert(cs@.subrange(0, to as int) == cs@.take(to as int));
    slice(&cs, 0, to)
}

/// The character of the decimal digit `d`.
pub open spec fn digit(d: nat) -> char {
    ('0' as u32 + d) as char
}

/// `n` written in decimal.
pub open spec fn decimal(n: nat) -> Seq<char>
    decreases n,
{
    if n < 10 {
        seq![digit(n)]
    } else {
        decimal(n / 10).push(digit(n % 10))
    }
}

/// Writes `n` in decimal.
pub fn to_decimal(n: u64) -> (r: String)
    ensures
        r@ == decimal(n as nat),
    decreases n,
{
    let mut out = if n < 10 {
        String::new()
    } else {
        to_decimal(n / 10)
    };
    let d: u8 = (n % 10) as u8;
    out.push((48u8 + d) as char);
    out
}

/// `s` with a sign in front taken off, and whether that sign was a minus.
pub open spec fn signed_body(s: Seq<char>) -> (bool, Seq<char>) {
    if s.len() > 0 && s.first() == '-' {
        (true, s.drop_first())
    } else if s.len() > 0 && s.first() == '+' {
        (false, s.drop_first())
    } else {
        (false, s)
    }
}

/// Whether every character of `s` is a decimal digit.
pub open spec fn all_digits(s: Seq<char>) -> bool {
    forall|i: int| 0 <= i < s.len() ==> '0' <= #[trigger] s[i] <= '9'
}

/// The value of a run of decimal digits.
pub open spec fn digits_value(s: Seq<char>) -> nat
    decreases s.len(),
{
    if s.len() == 0 {
        0
    } else {
        digits_value(s.drop_last()) * 10 + (s.last() as nat - '0' as nat) as nat
    }
}

/// The value of a decimal `i32` literal: an optional sign and at least one
/// digit, with a value in the range of the type.
pub open spec fn i32_value(s: Seq<char>) -> Option<i32> {
    let (negative, body) = signed_body(s);
    let value = if negative {
        -(digits_value(body) as int)
    } else {
        digits_value(body) as int
    };
    if body.len() > 0 && all_digits(body) && i32::MIN <= value <= i32::MAX {
        Some(value as i32)
    } else {
        None
    }
}

/// A longer run of digits is worth at least as much as its front.
proof fn digits_value_grows(s: Seq<char>, i: int)
    requires
        0 <= i <= s.len(),
        all_digits(s),
    ensures
        digits_value(s.take(i)) <= digits_value(s),
    decreases s.len() - i,
{
    if i == s.len() {
        assert(s.take(i) == s);
    } else {
        digits_value_grows(s, i + 1);
        assert(s.take(i + 1).drop_last() == s.take(i));
    }
}

/// Reads a decimal `i32`.
pub fn parse_i32(s: &str) -> (r: Option<i32>)
    ensures
        r == i32_value(s@),
{
    let cs = chars(s);
    let mut negative: bool = false;
    let mut i: usize = 0;
    if cs.len() > 0 {
        if cs[0] == '-' {
            negative = true;
            i = 1;
        } else if cs[0] == '+' {
            i = 1;
        }
    }
    let ghost body = signed_body(s@).1;
    assert(body == s@.skip(i as int));
    if i == cs.len() {
        return None;
    }
    let ghost start = i;
    let mut value: i64 = 0;
    while i < cs.len()
        invariant
            start <= i <= cs@.len(),
            cs@ == s@,
            body == s@.skip(start as int),
            body == signed_body(s@).1,
            negative == signed_body(s@).0,
            body.len() > 0,
            0 <= value <= 2147483648,
            all_digits(body.take(i - start)),
            value == digits_value(body.take(i - start)),
        decreases cs@.len() - i,
    {
        let c: char = cs[i];
        assert(c == body[i - start]);
        if c < '0' || '9' < c {
            return None;
        }
        let d: i64 = (c as u8 - 48) as i64;
        value = value * 10 + d;
        assert(body.take(i + 1 - start).drop_last() == body.take(i - start));
        if value > 2147483648 {
            proof {
                if all_digits(body) {
                    digits_value_grows(body, i + 1 - start);
                }
            }
            return None;
        }
        i += 1;
    }
    assert(body.take(i - start) == body);
    if negative {
        Some((-value) as i32)
    } else if value <= 2147483647 {
        Some(value as i32)
    } else {
        None
    }
}

/// What trimming the front leaves does not start with white space.
proof fn trimmed_start_is_clean(s: Seq<char>)
    ensures
        trimmed_start(s).len() > 0 ==> !is_space(trimmed_start(s).first()),
    decreases s.len(),
{
    if s.len() > 0 && is_space(s.first()) {
        trimmed_start_is_clean(s.drop_first());
    }
}

/// What trimming the end leaves is the front of the text and does not end in white
/// space.
proof fn trimmed_end_is_clean(s: Seq<char>)
    ensures
        trimmed_end(s).len() > 0 ==> !is_space(trimmed_end(s).last()),
        trimmed_end(s).len() <= s.len(),
        trimmed_end(s) == s.take(trimmed_end(s).len() as int),
    decreases s.len(),
{
    if s.len() > 0 && is_space(s.last()) {
        trimmed_end_is_clean(s.drop_last());
        let n = trimmed_end(s).len() as int;
        assert(s.drop_last().take(n) == s.take(n));
    } else {
        assert(s.take(s.len() as int) == s);
    }
}

/// A trimmed text neither starts nor ends with white space.
pub proof fn trimmed_has_clean_ends(s: Seq<char>)
    ensures
        trimmed(s).len() > 0 ==> !is_space(trimmed(s).first()) && !is_space(trimmed(s).last()),
{
    trimmed_start_is_clean(s);
    trimmed_end_is_clean(trimmed_start(s));
}

/// A text without white space at its ends is left as it is.
pub proof fn clean_ends_are_kept(s: Seq<char>)
    requires
        s.len() > 0 ==> !is_space(s.first()) && !is_space(s.last()),
    ensures
        trimmed(s) == s,
{
}

/// Trimming twice is trimming once.
pub proof fn trimming_is_idempotent(s: Seq<char>)
    ensures
        trimmed(trimmed(s)) == trimmed(s),
{
    trimmed_has_clean_ends(s);
    clean_ends_are_kept(trimmed(s));
}

/// What stands in a part of a text stands in the text.
pub proof fn parts_of_parts(s: Seq<char>, from: int, to: int, part: Seq<char>)
    requires
        0 <= from <= to <= s.len(),
        has_part(s.subrange(from, to), part),
    ensures
        has_part(s, part),
{
    let i = choose|i: int| part_at(s.subrange(from, to), part, i);
    assert(s.subrange(from + i, from + i + part.len()) =~= s.subrange(from, to).subrange(
        i,
        i + part.len(),
    ));
    assert(part_at(s, part, from + i));
}

/// What trimming the front leaves is the back of the text.
proof fn trimmed_start_is_back(s: Seq<char>)
    ensures
        trimmed_start(s).len() <= s.len(),
        trimmed_start(s) == s.skip(s.len() - trimmed_start(s).len()),
    decreases s.len(),
{
    if s.len() > 0 && is_space(s.first()) {
        trimmed_start_is_back(s.drop_first());
        let n = trimmed_start(s).len();
        assert(s.drop_first().skip(s.len() - 1 - n) == s.skip(s.len() - n));
    } else {
        assert(s.skip(0) == s);
    }
}

/// What stands in a trimmed text stands in the text.
pub proof fn trimming_adds_nothing(s: Seq<char>, part: Seq<char>)
    requires
        has_part(trimmed(s), part),
    ensures
        has_part(s, part),
{
    let start = trimmed_start(s);
    trimmed_start_is_back(s);
    trimmed_end_is_clean(start);
    assert(trimmed(s) == start.subrange(0, trimmed(s).len() as int));
    parts_of_parts(start, 0, trimmed(s).len() as int, part);
    assert(start == s.subrange(s.len() - start.len(), s.len() as int));
    parts_of_parts(s, s.len() - start.len(), s.len() as int, part);
}

/// White space behind a text is left over at its front only when nothing else is.
proof fn trimmed_start_before_space(s: Seq<char>, right: char)
    requires
        is_space(right),
    ensures
        trimmed_start(s).len() > 0 ==> trimmed_start(s.push(right)) == trimmed_start(s).push(right),
        trimmed_start(s).len() == 0 ==> trimmed_start(s.push(right)).len() == 0,
    decreases s.len(),
{
    let all = s.push(right);
    if s.len() == 0 {
        assert(all.first() == right);
        assert(trimmed_start(all) == trimmed_start(all.drop_first()));
        assert(trimmed_start(all.drop_first()).len() == 0);
    } else if is_space(s.first()) {
        trimmed_start_before_space(s.drop_first(), right);
        assert(all.drop_first() == s.drop_first().push(right));
    }
}

/// More white space around a text is trimmed away with the rest.
pub proof fn space_around_is_trimmed(left: char, s: Seq<char>, right: char)
    requires
        is_space(left),
        is_space(right),
    ensures
        trimmed(seq![left] + s + seq![right]) == trimmed(s),
{
    let all = seq![left] + s + seq![right];
    assert(all.drop_first() == s.push(right));
    trimmed_start_before_space(s, right);
    let start = trimmed_start(s);
    if start.len() > 0 {
        assert(start.push(right).drop_last() == start);
    } else {
        assert(trimmed_start(all) == start);
    }
}

/// The digits of a number are digits, and their value is the number.
pub proof fn decimal_has_value(n: nat)
    ensures
        decimal(n).len() > 0,
        all_digits(decimal(n)),
        digits_value(decimal(n)) == n,
    decreases n,
{
    if n < 10 {
        assert(decimal(n).drop_last() == Seq::<char>::empty());
        assert(decimal(n).last() as nat == '0' as nat + n);
        assert(digits_value(decimal(n).drop_last()) == 0);
    } else {
        decimal_has_value(n / 10);
        assert(decimal(n).drop_last() == decimal(n / 10));
        assert(decimal(n).last() as nat == '0' as nat + n % 10);
    }
}

/// Reading back a number that was written in decimal gives that number.
pub proof fn decimal_reads_back(n: nat)
    requires
        n <= i32::MAX,
    ensures
        i32_value(decimal(n)) == Some(n as i32),
{
    decimal_has_value(n);
    assert('0' <= decimal(n)[0] <= '9');
}

/// White space has no case.
proof fn case_keeps_space(c: char)
    ensures
        is_space(ascii_lower(c)) == is_space(c),
        is_space(ascii_upper(c)) == is_space(c),
{
}

/// Putting letters in upper case and trimming can be done in either order.
pub proof fn uppering_commutes_with_trimming(s: Seq<char>)
    ensures
        ascii_uppered(trimmed(s)) == trimmed(ascii_uppered(s)),
{
    uppering_commutes_with_start(s);
    uppering_commutes_with_end(trimmed_start(s));
}

/// Putting letters in lower case and trimming can be done in either order.
pub proof fn lowering_commutes_with_trimming(s: Seq<char>)
    ensures
        ascii_lowered(trimmed(s)) == trimmed(ascii_lowered(s)),
{
    lowering_commutes_with_start(s);
    lowering_commutes_with_end(trimmed_start(s));
}

proof fn lowering_commutes_with_start(s: Seq<char>)
    ensures
        ascii_lowered(trimmed_start(s)) == trimmed_start(ascii_lowered(s)),
    decreases s.len(),
{
    if s.len() > 0 {
        case_keeps_space(s.first());
        if is_space(s.first()) {
            lowering_commutes_with_start(s.drop_first());
            assert(ascii_lowered(s).drop_first() == ascii_lowered(s.drop_first()));
        }
    }
}

proof fn lowering_commutes_with_end(s: Seq<char>)
    ensures
        ascii_lowered(trimmed_end(s)) == trimmed_end(ascii_lowered(s)),
    decreases s.len(),
{
    if s.len() > 0 {
        case_keeps_space(s.last());
        if is_space(s.last()) {
            lowering_commutes_with_end(s.drop_last());
            assert(ascii_lowered(s).drop_last() == ascii_lowered(s.drop_last()));
        }
    }
}

proof fn uppering_commutes_with_start(s: Seq<char>)
    ensures
        ascii_uppered(trimmed_start(s)) == trimmed_start(ascii_uppered(s)),
    decreases s.len(),
{
    if s.len() > 0 {
        case_keeps_space(s.first());
        if is_space(s.first()) {
            uppering_commutes_with_start(s.drop_first());
            assert(ascii_uppered(s).drop_first() == ascii_uppered(s.drop_first()));
        }
    }
}

proof fn uppering_commutes_with_end(s: Seq<char>)
    ensures
        ascii_uppered(trimmed_end(s)) == trimmed_end(ascii_uppered(s)),
    decreases s.len(),
{
    if s.len() > 0 {
        case_keeps_space(s.last());
        if is_space(s.last()) {
            uppering_commutes_with_end(s.drop_last());
            assert(ascii_uppered(s).drop_last() == ascii_uppered(s.drop_last()));
        }
    }
}

/// Only white space is trimmed off the front.
proof fn trimmed_start_drops_space(s: Seq<char>)
    ensures
        forall|i: int| 0 <= i < s.len() - trimmed_start(s).len() ==> is_space(#[trigger] s[i]),
    decreases s.len(),
{
    if s.len() > 0 && is_space(s.first()) {
        let rest = s.drop_first();
        trimmed_start_drops_space(rest);
        assert forall|i: int| 0 <= i < s.len() - trimmed_start(s).len() implies is_space(
            #[trigger] s[i],
        ) by {
            if i > 0 {
                assert(s[i] == rest[i - 1]);
            }
        }
    }
}

/// Only white space is trimmed off the end.
proof fn trimmed_end_drops_space(s: Seq<char>)
    ensures
        forall|i: int| trimmed_end(s).len() <= i < s.len() ==> is_space(#[trigger] s[i]),
    decreases s.len(),
{
    if s.len() > 0 && is_space(s.last()) {
        let rest = s.drop_last();
        trimmed_end_drops_space(rest);
        assert forall|i: int| trimmed_end(s).len() <= i < s.len() implies is_space(
            #[trigger] s[i],
        ) by {
            if i < s.len() - 1 {
                assert(s[i] == rest[i]);
            }
        }
    }
}

/// A trimmed text is a part of the text, and there is only white space before and
/// after that part.
pub proof fn trimming_removes_only_space(s: Seq<char>)
    ensures
        exists|from: int, to: int|
            {
                &&& 0 <= from <= to <= s.len()
                &&& trimmed(s) == #[trigger] s.subrange(from, to)
                &&& forall|i: int| 0 <= i < from || to <= i < s.len() ==> is_space(#[trigger] s[i])
            },
{
    let start = trimmed_start(s);
    trimmed_start_is_back(s);
    trimmed_start_drops_space(s);
    trimmed_end_is_clean(start);
    trimmed_end_drops_space(start);
    let from = s.len() - start.len();
    let to = from + trimmed(s).len();
    assert(trimmed(s) == s.subrange(from, to));
    assert forall|i: int| 0 <= i < from || to <= i < s.len() implies is_space(#[trigger] s[i]) by {
        if to <= i {
            assert(s[i] == start[i - from]);
        }
    }
}

/// Lower and upper case undo each other on ASCII letters, keep their order, and leave
/// every other character alone.
pub proof fn case_is_undone(c: char, d: char)
    ensures
        'A' <= c <= 'Z' ==> 'a' <= ascii_lower(c) <= 'z' && ascii_upper(ascii_lower(c)) == c,
        'a' <= c <= 'z' ==> 'A' <= ascii_upper(c) <= 'Z' && ascii_lower(ascii_upper(c)) == c,
        !('A' <= c <= 'Z') ==> ascii_lower(c) == c,
        !('a' <= c <= 'z') ==> ascii_upper(c) == c,
        'A' <= c && c < d && d <= 'Z' ==> ascii_lower(c) < ascii_lower(d),
        'a' <= c && c < d && d <= 'z' ==> ascii_upper(c) < ascii_upper(d),
{
}

/// Case is changed character by character, in place.
pub proof fn case_is_changed_in_place(s: Seq<char>, i: int)
    requires
        0 <= i < s.len(),
    ensures
        ascii_lowered(s).len() == s.len(),
        ascii_uppered(s).len() == s.len(),
        ascii_lowered(s)[i] == ascii_lower(s[i]),
        ascii_uppered(s)[i] == ascii_upper(s[i]),
{
}

/// A prefix that was put in front of a text comes off again.
pub proof fn prefixes_come_off(prefix: Seq<char>, rest: Seq<char>)
    ensures
        after_prefix(prefix + rest, prefix) == Some(rest),
{
    assert((prefix + rest).subrange(0, prefix.len() as int) =~= prefix);
    assert((prefix + rest).skip(prefix.len() as int) =~= rest);
}

/// A text is its prefix and what is left without it.
pub proof fn prefixes_go_back_on(s: Seq<char>, prefix: Seq<char>)
    ensures
        after_prefix(s, prefix) matches Some(rest) ==> s == prefix + rest,
{
    if prefix.is_prefix_of(s) {
        assert(s =~= prefix + s.skip(prefix.len() as int));
    }
}

/// A part is found wherever it stands.
pub proof fn parts_are_found(before: Seq<char>, part: Seq<char>, after: Seq<char>)
    ensures
        has_part(before + part + after, part),
{
    let all = before + part + after;
    assert(all.subrange(before.len() as int, before.len() as int + part.len()) =~= part);
    assert(part_at(all, part, before.len() as int));
}

/// A part that is found stands in the text, with a front before it and a back after
/// it.
pub proof fn found_parts_are_there(s: Seq<char>, part: Seq<char>)
    requires
        has_part(s, part),
    ensures
        exists|before: Seq<char>, after: Seq<char>| s == #[trigger] (before + part + after),
{
    let i = choose|i: int| part_at(s, part, i);
    let before = s.take(i);
    let after = s.skip(i + part.len());
    assert(s =~= before + s.subrange(i, i + part.len()) + after);
}

/// Taking off a run at the end leaves the front of the text: all that went is the
/// character in question, and what is left does not end in it.
pub proof fn only_the_run_comes_off(s: Seq<char>, c: char)
    ensures
        without_trailing(s, c).len() <= s.len(),
        without_trailing(s, c) == s.take(without_trailing(s, c).len() as int),
        forall|i: int| without_trailing(s, c).len() <= i < s.len() ==> #[trigger] s[i] == c,
        without_trailing(s, c).len() > 0 ==> without_trailing(s, c).last() != c,
    decreases s.len(),
{
    if s.len() > 0 && s.last() == c {
        let rest = s.drop_last();
        only_the_run_comes_off(rest, c);
        let n = without_trailing(s, c).len() as int;
        assert(rest.take(n) == s.take(n));
        assert forall|i: int| n <= i < s.len() implies #[trigger] s[i] == c by {
            if i < s.len() - 1 {
                assert(s[i] == rest[i]);
            }
        }
    } else {
        assert(s.take(s.len() as int) == s);
    }
}

/// Each digit is worth ten times less than the one before it.
pub proof fn digits_are_read_in_tens(s: Seq<char>, d: nat)
    requires
        d < 10,
    ensures
        digits_value(seq![]) == 0,
        digits_value(s.push(digit(d))) == 10 * digits_value(s) + d,
        digit(0) == '0',
        digit(9) == '9',
        digit(d) as int == '0' as int + d,
{
    assert(s.push(digit(d)).drop_last() == s);
}

/// A number is written without zeros in front.
pub proof fn decimal_has_no_leading_zero(n: nat)
    ensures
        n > 0 ==> decimal(n)[0] != '0',
        n == 0 ==> decimal(n) == seq!['0'],
        decimal(n).len() > 0,
    decreases n,
{
    if n >= 10 {
        decimal_has_no_leading_zero(n / 10);
    }
}

/// Different numbers are written differently.
pub proof fn decimals_differ(a: nat, b: nat)
    requires
        decimal(a) == decimal(b),
    ensures
        a == b,
{
    decimal_has_value(a);
    decimal_has_value(b);
}

/// A number in range is read with any sign in front, and with zeros in front too.
pub proof fn signs_are_read(body: Seq<char>)
    requires
        body.len() > 0,
        forall|i: int| 0 <= i < body.len() ==> '0' <= #[trigger] body[i] <= '9',
    ensures
        digits_value(body) <= i32::MAX ==> {
            &&& i32_value(body) == Some(digits_value(body) as i32)
            &&& i32_value(seq!['+'] + body) == Some(digits_value(body) as i32)
        },
        digits_value(body) > i32::MAX ==> {
            &&& i32_value(body) is None
            &&& i32_value(seq!['+'] + body) is None
        },
        digits_value(body) <= -(i32::MIN as int) ==> i32_value(seq!['-'] + body) == Some(
            (-(digits_value(body) as int)) as i32,
        ),
        digits_value(body) > -(i32::MIN as int) ==> i32_value(seq!['-'] + body) is None,
{
    assert('0' <= body[0] <= '9');
    assert((seq!['+'] + body).drop_first() == body);
    assert((seq!['-'] + body).drop_first() == body);
}

/// What holds anything but digits behind its sign is no number.
pub proof fn numbers_hold_digits_only(s: Seq<char>, i: int)
    requires
        0 <= i < s.len(),
        !('0' <= s[i] <= '9'),
        i > 0 || (s[i] != '+' && s[i] != '-'),
    ensures
        i32_value(s) is None,
{
    let body = signed_body(s).1;
    if all_digits(body) {
        if body.len() == s.len() {
            assert(body[i] == s[i]);
        } else {
            assert(body[i - 1] == s[i]);
        }
    }
}

/// A sign alone, or nothing, is no number.
pub proof fn numbers_have_digits(s: Seq<char>)
    requires
        s.len() == 0 || s == seq!['+'] || s == seq!['-'],
    ensures
        i32_value(s) is None,
{
}

} // verus!
