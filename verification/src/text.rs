//! Text primitives of the launcher's input handling: what `std` does to
//! strings, stated over their characters, and the IPv4 address grammar.
use vstd::prelude::*;
use vstd::string::*;

verus! {

// ---------------------------------------------------------------------------
// Specifications
// ---------------------------------------------------------------------------

/// A character of Unicode's `White_Space` property, as `char::is_whitespace` documents it.
pub open spec fn is_unicode_whitespace(c: char) -> bool {
    let v = c as u32;
    ||| 0x09 <= v <= 0x0d
    ||| v == 0x20
    ||| v == 0x85
    ||| v == 0xa0
    ||| v == 0x1680
    ||| 0x2000 <= v <= 0x200a
    ||| v == 0x2028
    ||| v == 0x2029
    ||| v == 0x202f
    ||| v == 0x205f
    ||| v == 0x3000
}

/// The characters without their leading whitespace.
pub open spec fn trim_start_chars(s: Seq<char>) -> Seq<char>
    decreases s.len(),
{
    if s.len() > 0 && is_unicode_whitespace(s[0]) {
        trim_start_chars(s.drop_first())
    } else {
        s
    }
}

/// The characters without their trailing whitespace.
pub open spec fn trim_end_chars(s: Seq<char>) -> Seq<char>
    decreases s.len(),
{
    if s.len() > 0 && is_unicode_whitespace(s.last()) {
        trim_end_chars(s.drop_last())
    } else {
        s
    }
}

/// The characters without leading and trailing whitespace.
pub open spec fn trim_chars(s: Seq<char>) -> Seq<char> {
    trim_end_chars(trim_start_chars(s))
}

/// `needle` occurs somewhere in `haystack`.
pub open spec fn contains_chars(haystack: Seq<char>, needle: Seq<char>) -> bool {
    exists|i: int|
        0 <= i <= haystack.len() - needle.len() && #[trigger] haystack.subrange(
            i,
            i + needle.len(),
        ) == needle
}

/// `prefix` begins `s`.
pub open spec fn starts_with_chars(s: Seq<char>, prefix: Seq<char>) -> bool {
    prefix.len() <= s.len() && s.take(prefix.len() as int) == prefix
}

/// `s` with every leading repetition of a non-empty `prefix` removed.
pub open spec fn trim_prefix_repeated(s: Seq<char>, prefix: Seq<char>) -> Seq<char>
    decreases s.len(),
{
    if prefix.len() > 0 && starts_with_chars(s, prefix) {
        trim_prefix_repeated(s.skip(prefix.len() as int), prefix)
    } else {
        s
    }
}

/// A character with ASCII upper-case letters made lower case.
pub open spec fn ascii_lower(c: char) -> char {
    if 0x41 <= c as u32 <= 0x5a {
        ((c as u32) + 0x20) as char
    } else {
        c
    }
}

/// `0`..`9`.
pub open spec fn is_ascii_digit(c: char) -> bool {
    0x30 <= c as u32 <= 0x39
}

/// The value of a decimal digit.
pub open spec fn digit_value(c: char) -> int {
    c as u32 - 0x30
}

/// The value of a string of decimal digits.
pub open spec fn digits_value(s: Seq<char>) -> int
    decreases s.len(),
{
    if s.len() == 0 {
        0
    } else {
        digits_value(s.drop_last()) * 10 + digit_value(s.last())
    }
}

/// Every character is a decimal digit.
pub open spec fn all_digits(s: Seq<char>) -> bool {
    forall|i: int| 0 <= i < s.len() ==> is_ascii_digit(#[trigger] s[i])
}

/// The value that `str::parse` reads for an unsigned integer type, before
/// its range is checked: an optional `+`, then one or more decimal digits.
pub open spec fn unsigned_decimal(s: Seq<char>) -> Option<int> {
    let digits = if s.len() > 0 && s[0] == '+' {
        s.drop_first()
    } else {
        s
    };
    if digits.len() > 0 && all_digits(digits) {
        Some(digits_value(digits))
    } else {
        None
    }
}

/// The character of a decimal digit value.
pub open spec fn digit_char(d: int) -> char {
    (0x30 + d) as char
}

/// The decimal digits of a natural number, without leading zeros.
pub open spec fn decimal_digits(n: nat) -> Seq<char>
    decreases n,
{
    if n < 10 {
        seq![digit_char(n as int)]
    } else {
        decimal_digits(n / 10).push(digit_char((n % 10) as int))
    }
}

/// An integer written in decimal, with a `-` before negative values.
pub open spec fn decimal(n: int) -> Seq<char> {
    if n < 0 {
        seq!['-'] + decimal_digits((-n) as nat)
    } else {
        decimal_digits(n as nat)
    }
}

/// The four dot-separated groups of a text, in order.
pub open spec fn split_on_dots(s: Seq<char>) -> Seq<Seq<char>>
    decreases s.len(),
{
    if s.len() == 0 {
        seq![Seq::<char>::empty()]
    } else {
        let rest = split_on_dots(s.drop_last());
        if s.last() == '.' {
            rest.push(Seq::<char>::empty())
        } else {
            rest.update(rest.len() - 1, rest.last().push(s.last()))
        }
    }
}

/// One decimal octet of an IPv4 address as `std` accepts it: one to three
/// digits, no leading zero unless the octet is `0`, and a value of at most 255.
pub open spec fn octet_text(t: Seq<char>) -> bool {
    &&& 1 <= t.len() <= 3
    &&& all_digits(t)
    &&& (t.len() == 1 || t[0] != '0')
    &&& digits_value(t) <= 255
}

/// The four octets of a dotted-decimal IPv4 address, if the text is one.
pub open spec fn ipv4_octets(s: Seq<char>) -> Option<Seq<u8>> {
    let groups = split_on_dots(s);
    if groups.len() == 4 && (forall|i: int| 0 <= i < 4 ==> octet_text(#[trigger] groups[i])) {
        Some(Seq::new(4, |i: int| digits_value(groups[i]) as u8))
    } else {
        None
    }
}

/// Decimal digits have a non-negative value.
pub broadcast proof fn lemma_digits_value_nonneg(s: Seq<char>)
    ensures
        all_digits(s) ==> #[trigger] digits_value(s) >= 0,
    decreases s.len(),
{
    if s.len() > 0 && all_digits(s) {
        assert(all_digits(s.drop_last())) by {
            assert forall|i: int| 0 <= i < s.drop_last().len() implies is_ascii_digit(
                #[trigger] s.drop_last()[i],
            ) by {
                assert(s.drop_last()[i] == s[i]);
            }
        }
        lemma_digits_value_nonneg(s.drop_last());
        assert(is_ascii_digit(s[s.len() - 1]));
    }
}

// ---------------------------------------------------------------------------
// What `std` does to strings
// ---------------------------------------------------------------------------

/// `str::trim`: the string without leading and trailing whitespace, where
/// whitespace is Unicode's `White_Space` property.
#[verifier::external_body]
pub(crate) fn trim(s: &str) -> (res: &str)
    ensures
        res@ == trim_chars(s@),
{
    s.trim()
}

/// `<str as PartialEq>::eq`: the two strings hold the same characters.
#[verifier::external_body]
pub(crate) fn text_eq(a: &str, b: &str) -> (res: bool)
    ensures
        res == (a@ == b@),
{
    a == b
}

/// `str::contains` with a string pattern: the pattern occurs in the string.
#[verifier::external_body]
pub(crate) fn contains(haystack: &str, needle: &str) -> (res: bool)
    ensures
        res == contains_chars(haystack@, needle@),
{
    haystack.contains(needle)
}

/// `str::starts_with` with a string pattern.
#[verifier::external_body]
pub(crate) fn starts_with(s: &str, prefix: &str) -> (res: bool)
    ensures
        res == starts_with_chars(s@, prefix@),
{
    s.starts_with(prefix)
}

/// `str::trim_start_matches` with a non-empty string pattern: every leading
/// repetition of the pattern is removed.
#[verifier::external_body]
pub(crate) fn trim_start_matches<'a>(s: &'a str, prefix: &str) -> (res: &'a str)
    requires
        prefix@.len() > 0,
    ensures
        res@ == trim_prefix_repeated(s@, prefix@),
{
    s.trim_start_matches(prefix)
}

/// `str::to_ascii_lowercase`: ASCII upper-case letters become lower case,
/// every other character stays.
#[verifier::external_body]
pub(crate) fn to_ascii_lowercase(s: &str) -> (res: String)
    ensures
        res@ == s@.map_values(|c: char| ascii_lower(c)),
{
    s.to_ascii_lowercase()
}

/// `str::parse::<u16>`.
#[verifier::external_body]
pub(crate) fn parse_u16_text(s: &str) -> (res: Option<u16>)
    ensures
        res == (match unsigned_decimal(s@) {
            Some(v) => if v <= u16::MAX {
                Some(v as u16)
            } else {
                None::<u16>
            },
            None => None::<u16>,
        }),
{
    s.parse::<u16>().ok()
}

/// `str::parse::<u64>`.
#[verifier::external_body]
pub(crate) fn parse_u64_text(s: &str) -> (res: Option<u64>)
    ensures
        res == (match unsigned_decimal(s@) {
            Some(v) => if v <= u64::MAX {
                Some(v as u64)
            } else {
                None::<u64>
            },
            None => None::<u64>,
        }),
{
    s.parse::<u64>().ok()
}

/// `str::parse::<usize>`.
#[verifier::external_body]
pub(crate) fn parse_usize_text(s: &str) -> (res: Option<usize>)
    ensures
        res == (match unsigned_decimal(s@) {
            Some(v) => if v <= usize::MAX {
                Some(v as usize)
            } else {
                None::<usize>
            },
            None => None::<usize>,
        }),
{
    s.parse::<usize>().ok()
}

/// `i16::to_string`: the value in decimal.
#[verifier::external_body]
pub(crate) fn i16_to_string(value: i16) -> (res: String)
    ensures
        res@ == decimal(value as int),
{
    value.to_string()
}

/// `u128::to_string`: the value in decimal.
#[verifier::external_body]
pub(crate) fn u128_to_string(value: u128) -> (res: String)
    ensures
        res@ == decimal(value as int),
{
    value.to_string()
}

/// `u32::to_string`: the value in decimal.
#[verifier::external_body]
pub(crate) fn u32_to_string(value: u32) -> (res: String)
    ensures
        res@ == decimal(value as int),
{
    value.to_string()
}

/// `u8::to_string`: the value in decimal.
#[verifier::external_body]
pub(crate) fn u8_to_string(value: u8) -> (res: String)
    ensures
        res@ == decimal(value as int),
{
    value.to_string()
}

// ---------------------------------------------------------------------------
// IPv4 addresses
// ---------------------------------------------------------------------------

proof fn lemma_split_push(s: Seq<char>, c: char)
    ensures
        split_on_dots(s.push(c)) == (if c == '.' {
            split_on_dots(s).push(Seq::<char>::empty())
        } else {
            split_on_dots(s).update(
                split_on_dots(s).len() - 1,
                split_on_dots(s).last().push(c),
            )
        }),
{
    assert(s.push(c).drop_last() =~= s);
}

proof fn lemma_split_nonempty(s: Seq<char>)
    ensures
        split_on_dots(s).len() >= 1,
    decreases s.len(),
{
    if s.len() > 0 {
        lemma_split_nonempty(s.drop_last());
    }
}

proof fn lemma_digits_push(s: Seq<char>, c: char)
    ensures
        digits_value(s.push(c)) == digits_value(s) * 10 + digit_value(c),
{
    assert(s.push(c).drop_last() =~= s);
}

/// The groups of a prefix are those of the whole text, except that the
/// prefix's last group may still grow.
proof fn lemma_split_prefix(s: Seq<char>, i: int)
    requires
        0 <= i <= s.len(),
    ensures
        ({
            let p = split_on_dots(s.take(i));
            let w = split_on_dots(s);
            &&& 1 <= p.len() <= w.len()
            &&& forall|k: int| 0 <= k < p.len() - 1 ==> #[trigger] w[k] == p[k]
            &&& p.last().len() <= w[p.len() - 1].len()
            &&& w[p.len() - 1].take(p.last().len() as int) == p.last()
        }),
    decreases s.len() - i,
{
    lemma_split_nonempty(s.take(i));
    if i == s.len() {
        assert(s.take(i) =~= s);
        let w = split_on_dots(s);
        assert(w.last().take(w.last().len() as int) =~= w.last());
    } else {
        lemma_split_prefix(s, i + 1);
        let c = s[i];
        assert(s.take(i + 1) =~= s.take(i).push(c));
        lemma_split_push(s.take(i), c);
        let p = split_on_dots(s.take(i));
        let q = split_on_dots(s.take(i + 1));
        let w = split_on_dots(s);
        if c == '.' {
            assert(q[p.len() - 1] == p.last());
            assert(w[p.len() - 1] == p.last());
            assert(w[p.len() - 1].take(p.last().len() as int) =~= p.last());
        } else {
            assert(q.last() == p.last().push(c));
            assert forall|k: int| 0 <= k < p.len() - 1 implies #[trigger] w[k] == p[k] by {
                assert(w[k] == q[k]);
            }
            assert(w[p.len() - 1].take(p.last().len() as int) =~= q.last().take(
                p.last().len() as int,
            ));
            assert(q.last().take(p.last().len() as int) =~= p.last());
        }
    }
}

/// Parses dotted-decimal IPv4 text the way `std::net::Ipv4Addr` does and
/// returns its four octets.
pub fn parse_ipv4(s: &str) -> (res: Option<[u8; 4]>)
    ensures
        match ipv4_octets(s@) {
            Some(octets) => res matches Some(a) && a@ == octets,
            None => res is None,
        },
{
    let n = s.unicode_len();
    let mut octets: [u8; 4] = [0, 0, 0, 0];
    // the group being read: its index, value and length so far
    let mut group: usize = 0;
    let mut value: u32 = 0;
    let mut len: usize = 0;
    let mut leading_zero: bool = false;
    let mut i: usize = 0;
    while i < n
        invariant
            n == s@.len(),
            i <= n,
            ({
                let groups = split_on_dots(s@.take(i as int));
                &&& groups.len() == group + 1
                &&& group < 4
                &&& forall|k: int| 0 <= k < group ==> octet_text(#[trigger] groups[k])
                &&& forall|k: int|
                    0 <= k < group ==> octets@[k] == digits_value(#[trigger] groups[k]) as u8
                &&& groups[group as int].len() == len
                &&& len <= 3
                &&& all_digits(groups[group as int])
                &&& value == digits_value(groups[group as int])
                &&& (len == 0 ==> value == 0)
                &&& (len <= 1 ==> value <= 9)
                &&& (len <= 2 ==> value <= 99)
                &&& value <= 999
                &&& (len > 0 ==> (leading_zero <==> groups[group as int][0] == '0'))
            }),
        decreases n - i,
    {
        let c = s.get_char(i);
        let ghost p = split_on_dots(s@.take(i as int));
        proof {
            assert(s@.take(i + 1) =~= s@.take(i as int).push(c));
            lemma_split_push(s@.take(i as int), c);
            lemma_split_prefix(s@, i + 1);
        }
        let ghost q = split_on_dots(s@.take(i + 1));
        if c == '.' {
            if len == 0 || (len > 1 && leading_zero) || value > 255 || group == 3 {
                proof {
                    let w = split_on_dots(s@);
                    if group < 3 {
                        assert(w[group as int] == q[group as int]);
                        assert(!octet_text(p[group as int]));
                    }
                }
                return None;
            }
            octets[group] = value as u8;
            group = group + 1;
            value = 0;
            len = 0;
            leading_zero = false;
            proof {
                assert(q[group - 1] == p[group - 1]);
                assert forall|k: int| 0 <= k < group implies octet_text(#[trigger] q[k]) by {
                    assert(q[k] == p[k]);
                }
            }
        } else if 48 <= (c as u32) && (c as u32) <= 57 {
            if len == 3 {
                proof {
                    let w = split_on_dots(s@);
                    assert(w[group as int].len() >= 4);
                }
                return None;
            }
            proof {
                lemma_digits_push(p[group as int], c);
                assert(q[group as int] == p[group as int].push(c));
            }
            if len == 0 {
                leading_zero = c == '0';
            }
            value = value * 10 + (c as u32 - 48);
            len = len + 1;
        } else {
            proof {
                let w = split_on_dots(s@);
                let g = q[group as int];
                assert(g[len as int] == c);
                assert(w[group as int][len as int] == c);
                assert(!is_ascii_digit(c));
            }
            return None;
        }
        i = i + 1;
    }
    proof {
        assert(s@.take(n as int) =~= s@);
    }
    if group != 3 || len == 0 || (len > 1 && leading_zero) || value > 255 {
        return None;
    }
    octets[3] = value as u8;
    proof {
        let groups = split_on_dots(s@);
        assert(octet_text(groups[3]));
        assert(octets@ =~= Seq::new(4, |k: int| digits_value(groups[k]) as u8));
    }
    Some(octets)
}

} // verus!
