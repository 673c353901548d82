//! Text helpers: trimming, splitting and decimal numbers.

use vstd::prelude::*;
use vstd::string::*;

verus! {

/// Whether `c` is white space as the Unicode property White_Space has it.
pub open spec fn is_white_space(c: char) -> bool {
    let u = c as u32;
    ||| 0x09 <= u <= 0x0D
    ||| u == 0x20
    ||| u == 0x85
    ||| u == 0xA0
    ||| u == 0x1680
    ||| 0x2000 <= u <= 0x200A
    ||| u == 0x2028
    ||| u == 0x2029
    ||| u == 0x202F
    ||| u == 0x205F
    ||| u == 0x3000
}

/// Tells whether `c` is white space.
pub fn white_space(c: char) -> (yes: bool)
    ensures
        yes == is_white_space(c),
{
    let u: u32 = c as u32;
    (0x09 <= u && u <= 0x0D) || u == 0x20 || u == 0x85 || u == 0xA0 || u == 0x1680 || (0x2000 <= u
        && u <= 0x200A) || u == 0x2028 || u == 0x2029 || u == 0x202F || u == 0x205F || u == 0x3000
}

/// `s` without the white space it starts with.
pub open spec fn trim_start(s: Seq<char>) -> Seq<char>
    decreases s.len(),
{
    if s.len() > 0 && is_white_space(s.first()) {
        trim_start(s.drop_first())
    } else {
        s
    }
}

/// `s` without the white space it ends with.
pub open spec fn trim_end(s: Seq<char>) -> Seq<char>
    decreases s.len(),
{
    if s.len() > 0 && is_white_space(s.last()) {
        trim_end(s.drop_last())
    } else {
        s
    }
}

/// `s` without leading and trailing white space.
pub open spec fn trimmed(s: Seq<char>) -> Seq<char> {
    trim_end(trim_start(s))
}

/// Removes leading and trailing white space.
pub fn trim(s: &str) -> (t: &str)
    ensures
        t@ == trimmed(s@),
{
    let len: usize = s.unicode_len();
    let mut from: usize = 0;
    assert(s@.subrange(0, len as int) == s@);
    while from < len && white_space(s.get_char(from))
        invariant
            len == s@.len(),
            from <= len,
            trim_start(s@) == trim_start(s@.subrange(from as int, len as int)),
        decreases len - from,
    {
        assert(s@.subrange(from as int, len as int).drop_first() == s@.subrange(
            from as int + 1,
            len as int,
        ));
        from += 1;
    }
    let ghost rest = s@.subrange(from as int, len as int);
    assert(trim_start(s@) == rest);
    let mut to: usize = len;
    while to > from && white_space(s.get_char(to - 1))
        invariant
            len == s@.len(),
            from <= to <= len,
            rest == s@.subrange(from as int, len as int),
            trim_end(rest) == trim_end(s@.subrange(from as int, to as int)),
        decreases to,
    {
        assert(s@.subrange(from as int, to as int).drop_last() == s@.subrange(
            from as int,
            to as int - 1,
        ));
        to -= 1;
    }
    s.substring_char(from, to)
}

/// The fields of `s` between occurrences of `sep`, read from left to right:
/// every occurrence ends one field and begins the next, so there is always
/// one field more than there are separators.
pub open spec fn split(s: Seq<char>, sep: char) -> Seq<Seq<char>>
    decreases s.len(),
{
    if s.len() == 0 {
        seq![Seq::empty()]
    } else {
        let before = split(s.drop_last(), sep);
        if s.last() == sep {
            before.push(Seq::empty())
        } else {
            before.drop_last().push(before.last().push(s.last()))
        }
    }
}

/// Cuts `s` at every occurrence of `sep`.
pub fn split_text(s: &str, sep: char) -> (fields: Vec<String>)
    ensures
        fields.deep_view() == split(s@, sep),
{
    let len: usize = s.unicode_len();
    let mut fields: Vec<String> = Vec::new();
    let mut start: usize = 0;
    let mut i: usize = 0;
    assert(s@.take(0) == Seq::<char>::empty());
    assert(s@.subrange(0, 0) == Seq::<char>::empty());
    assert(fields.deep_view().push(s@.subrange(0, 0)) == seq![Seq::<char>::empty()]);
    while i < len
        invariant
            len == s@.len(),
            start <= i <= len,
            split(s@.take(i as int), sep) == fields.deep_view().push(
                s@.subrange(start as int, i as int),
            ),
        decreases len - i,
    {
        let c = s.get_char(i);
        let ghost done = fields.deep_view();
        let ghost open = s@.subrange(start as int, i as int);
        proof {
            assert(s@.take(i as int + 1).drop_last() == s@.take(i as int));
            assert(s@.take(i as int + 1).last() == c);
            assert(done.push(open).drop_last() == done);
        }
        if c == sep {
            let field = String::from_str(s.substring_char(start, i));
            fields.push(field);
            start = i + 1;
            proof {
                assert(fields.deep_view() == done.push(open));
                assert(s@.subrange(start as int, i as int + 1) == Seq::<char>::empty());
            }
        } else {
            proof {
                assert(open.push(c) == s@.subrange(start as int, i as int + 1));
            }
        }
        i += 1;
    }
    assert(s@.take(len as int) == s@);
    let ghost done = fields.deep_view();
    let field = String::from_str(s.substring_char(start, len));
    fields.push(field);
    assert(fields.deep_view() == done.push(s@.subrange(start as int, len as int)));
    fields
}

/// Whether `c` is one of the ten decimal digits.
pub open spec fn is_digit(c: char) -> bool {
    '0' as u32 <= c as u32 <= '9' as u32
}

/// Whether `s` holds decimal digits and nothing else.
pub open spec fn all_digits(s: Seq<char>) -> bool {
    forall|i: int| 0 <= i < s.len() ==> is_digit(#[trigger] s[i])
}

/// The number that the digits of `s` write in base ten.
pub open spec fn decimal_value(s: Seq<char>) -> nat
    decreases s.len(),
{
    if s.len() == 0 {
        0
    } else {
        decimal_value(s.drop_last()) * 10 + (s.last() as u32 - '0' as u32) as nat
    }
}

/// The number that `digits` writes: at least one decimal digit and nothing
/// else, with a value that fits in 32 bits.
pub open spec fn unsigned_number(digits: Seq<char>) -> Option<u32> {
    if digits.len() > 0 && all_digits(digits) && decimal_value(digits) <= u32::MAX {
        Some(decimal_value(digits) as u32)
    } else {
        None
    }
}

/// The number that `s` writes: digits as in [`unsigned_number`], with or
/// without a `+` in front.
pub open spec fn number(s: Seq<char>) -> Option<u32> {
    if s.len() > 0 && s.first() == '+' {
        unsigned_number(s.drop_first())
    } else {
        unsigned_number(s)
    }
}

/// Reading more digits never makes the number smaller.
pub proof fn lemma_decimal_value_grows(s: Seq<char>, n: int)
    requires
        0 <= n <= s.len(),
        all_digits(s),
    ensures
        decimal_value(s.take(n)) <= decimal_value(s),
    decreases s.len(),
{
    if n == s.len() {
        assert(s.take(n) == s);
    } else {
        assert(s.drop_last().take(n) == s.take(n));
        lemma_decimal_value_grows(s.drop_last(), n);
    }
}

/// Reads `s` as a decimal number of 32 bits.
pub fn parse_number(s: &str) -> (value: Option<u32>)
    ensures
        value == number(s@),
{
    let len: usize = s.unicode_len();
    let start: usize = if len > 0 && s.get_char(0) == '+' {
        1
    } else {
        0
    };
    if start == len {
        return None;
    }
    let ghost digits = s@.subrange(start as int, len as int);
    assert(digits == if s@.len() > 0 && s@.first() == '+' {
        s@.drop_first()
    } else {
        s@
    });
    assert(digits.take(0) == Seq::<char>::empty());
    let mut value: u32 = 0;
    let mut i: usize = start;
    while i < len
        invariant
            len == s@.len(),
            start <= i <= len,
            digits == s@.subrange(start as int, len as int),
            number(s@) == unsigned_number(digits),
            all_digits(digits.take(i - start)),
            value == decimal_value(digits.take(i - start)),
        decreases len - i,
    {
        let c = s.get_char(i);
        let u: u32 = c as u32;
        let ghost read = digits.take(i - start);
        let ghost more = digits.take(i - start + 1);
        proof {
            assert(more.drop_last() == read);
            assert(more.last() == c);
            assert(digits[i - start] == c);
        }
        if u < 0x30 || u > 0x39 {
            assert(!is_digit(digits[i - start]));
            return None;
        }
        let next: u64 = value as u64 * 10 + (u - 0x30) as u64;
        assert(decimal_value(more) == next);
        if next > u32::MAX as u64 {
            proof {
                if all_digits(digits) {
                    lemma_decimal_value_grows(digits, i - start + 1);
                }
            }
            return None;
        }
        value = next as u32;
        i += 1;
    }
    assert(digits.take(len - start) == digits);
    Some(value)
}

/// What is left of `s` once `prefix` is taken off its front.
pub open spec fn without_prefix(s: Seq<char>, prefix: Seq<char>) -> Option<Seq<char>> {
    if prefix.len() <= s.len() && s.take(prefix.len() as int) == prefix {
        Some(s.skip(prefix.len() as int))
    } else {
        None
    }
}

/// Takes `prefix` off the front of `s`.
pub fn strip_prefix<'a>(s: &'a str, prefix: &str) -> (rest: Option<&'a str>)
    ensures
        rest.deep_view() == without_prefix(s@, prefix@),
{
    let len: usize = s.unicode_len();
    let plen: usize = prefix.unicode_len();
    if plen > len {
        return None;
    }
    let mut i: usize = 0;
    while i < plen
        invariant
            len == s@.len(),
            plen == prefix@.len(),
            i <= plen <= len,
            s@.take(i as int) == prefix@.take(i as int),
        decreases plen - i,
    {
        if s.get_char(i) != prefix.get_char(i) {
            assert(s@.take(plen as int)[i as int] != prefix@[i as int]);
            return None;
        }
        assert(s@.take(i as int + 1) == s@.take(i as int).push(s@[i as int]));
        assert(prefix@.take(i as int + 1) == prefix@.take(i as int).push(prefix@[i as int]));
        i += 1;
    }
    assert(prefix@.take(plen as int) == prefix@);
    assert(s@.skip(plen as int) == s@.subrange(plen as int, len as int));
    Some(s.substring_char(plen, len))
}

} // verus!
