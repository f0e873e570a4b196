//! Text helpers over `str` and `String`: comparison, search, decimal numbers
//! and joining, stated over the characters and the UTF-8 bytes of the text.

use vstd::prelude::*;
use vstd::string::*;
use vstd::utf8::*;

verus! {

/// Whether the bytes `a` come strictly before the bytes `b`: byte by byte,
/// a proper prefix before its extensions.
pub open spec fn bytes_precede(a: Seq<u8>, b: Seq<u8>) -> bool
    decreases a.len(),
{
    if b.len() == 0 {
        false
    } else if a.len() == 0 {
        true
    } else if a[0] != b[0] {
        a[0] < b[0]
    } else {
        bytes_precede(a.drop_first(), b.drop_first())
    }
}

/// Whether `a` comes strictly before `b` in the order of `str`: the order
/// of their UTF-8 bytes.
pub open spec fn text_precedes(a: Seq<char>, b: Seq<char>) -> bool {
    bytes_precede(encode_utf8(a), encode_utf8(b))
}

/// No bytes come before themselves.
pub proof fn lemma_bytes_precede_irreflexive(a: Seq<u8>)
    ensures
        !bytes_precede(a, a),
    decreases a.len(),
{
    if a.len() > 0 {
        lemma_bytes_precede_irreflexive(a.drop_first());
    }
}

/// Bytes that come before bytes that come before others come before those.
pub proof fn lemma_bytes_precede_transitive(a: Seq<u8>, b: Seq<u8>, c: Seq<u8>)
    requires
        bytes_precede(a, b),
        bytes_precede(b, c),
    ensures
        bytes_precede(a, c),
    decreases a.len(),
{
    if a.len() > 0 && b.len() > 0 && c.len() > 0 && a[0] == b[0] && b[0] == c[0] {
        lemma_bytes_precede_transitive(a.drop_first(), b.drop_first(), c.drop_first());
    }
}

/// Whether the bytes `needle` occur in the bytes `hay` as a run that
/// begins at `at`.
pub open spec fn bytes_match_at(hay: Seq<u8>, needle: Seq<u8>, at: int) -> bool {
    0 <= at && at + needle.len() <= hay.len() && hay.subrange(at, at + needle.len()) == needle
}

/// Whether `needle` occurs in `hay`: whether the UTF-8 bytes of `needle`
/// occur as a run of the bytes of `hay`.
pub open spec fn text_contains(hay: Seq<char>, needle: Seq<char>) -> bool {
    exists|at: int| #[trigger] bytes_match_at(encode_utf8(hay), encode_utf8(needle), at)
}

/// Whether `c` is one of the ten ASCII digits.
pub open spec fn is_digit(c: char) -> bool {
    '0' <= c && c <= '9'
}

/// Whether every character of `s` is an ASCII digit.
pub open spec fn all_digits(s: Seq<char>) -> bool {
    forall|i: int| 0 <= i < s.len() ==> is_digit(#[trigger] s[i])
}

/// The number that the digits of `s` write in base ten.
pub open spec fn digits_value(s: Seq<char>) -> nat
    decreases s.len(),
{
    if s.len() == 0 {
        0
    } else {
        (digits_value(s.drop_last()) * 10 + (s.last() as u32 - '0' as u32)) as nat
    }
}

/// The number that `s` writes as an unsigned decimal: an optional `+`, then
/// at least one digit and nothing else.
pub open spec fn unsigned_decimal(s: Seq<char>) -> Option<nat> {
    let digits = if s.len() > 0 && s[0] == '+' {
        s.drop_first()
    } else {
        s
    };
    if digits.len() > 0 && all_digits(digits) {
        Some(digits_value(digits))
    } else {
        None
    }
}

/// The number that `s` writes as a signed decimal: an optional `+` or `-`,
/// then at least one digit and nothing else.
pub open spec fn signed_decimal(s: Seq<char>) -> Option<int> {
    if s.len() > 0 && s[0] == '-' {
        if s.len() > 1 && all_digits(s.drop_first()) {
            Some(-(digits_value(s.drop_first()) as int))
        } else {
            None
        }
    } else {
        match unsigned_decimal(s) {
            Some(n) => Some(n as int),
            None => None,
        }
    }
}

/// The digits of `n` in base ten, without leading zeros; `0` for zero.
pub open spec fn decimal_text(n: nat) -> Seq<char>
    decreases n,
{
    if n < 10 {
        seq![(('0' as u32 + n) as u8) as char]
    } else {
        decimal_text(n / 10).push((('0' as u32 + n % 10) as u8) as char)
    }
}

/// The decimal texts of `numbers` with `separator` between neighbours.
pub open spec fn joined_decimals(numbers: Seq<u32>, separator: Seq<char>) -> Seq<char>
    decreases numbers.len(),
{
    if numbers.len() == 0 {
        Seq::empty()
    } else if numbers.len() == 1 {
        decimal_text(numbers[0] as nat)
    } else {
        joined_decimals(numbers.drop_last(), separator) + separator + decimal_text(
            numbers.last() as nat,
        )
    }
}

/// The texts of `parts` with `separator` between neighbours.
pub open spec fn joined_texts(parts: Seq<Seq<char>>, separator: Seq<char>) -> Seq<char>
    decreases parts.len(),
{
    if parts.len() == 0 {
        Seq::empty()
    } else if parts.len() == 1 {
        parts[0]
    } else {
        joined_texts(parts.drop_last(), separator) + separator + parts.last()
    }
}

/// `text` with every character mapped to lower case: the result of
/// `str::to_lowercase`.
pub uninterp spec fn lowercased(text: Seq<char>) -> Seq<char>;

/// `text` without its leading and trailing white space: the result of
/// `str::trim`.
pub uninterp spec fn trimmed(text: Seq<char>) -> Seq<char>;

/// The lines of `text`, without their line ends: what `str::lines` yields.
pub uninterp spec fn lines_of(text: Seq<char>) -> Seq<Seq<char>>;

/// Tells whether two string slices hold the same characters.
pub fn same_text(a: &str, b: &str) -> (same: bool)
    ensures
        same == (a@ == b@),
{
    let x = a.as_bytes();
    let y = b.as_bytes();
    proof {
        encode_utf8_decode_utf8(a@);
        encode_utf8_decode_utf8(b@);
    }
    if x.len() != y.len() {
        return false;
    }
    let mut i: usize = 0;
    while i < x.len()
        invariant
            i <= x@.len(),
            x@.len() == y@.len(),
            x@ == encode_utf8(a@),
            y@ == encode_utf8(b@),
            forall|j: int| 0 <= j < i ==> x@[j] == y@[j],
        decreases x@.len() - i,
    {
        if x[i] != y[i] {
            proof {
                assert(x@[i as int] != y@[i as int]);
                assert(encode_utf8(a@) != encode_utf8(b@));
            }
            return false;
        }
        i += 1;
    }
    proof {
        assert(x@ =~= y@);
    }
    true
}

/// Tells whether `a` sorts strictly before `b` in the order of `str`.
pub fn sorts_before(a: &str, b: &str) -> (before: bool)
    ensures
        before == text_precedes(a@, b@),
{
    let x = a.as_bytes();
    let y = b.as_bytes();
    let mut i: usize = 0;
    proof {
        assert(x@.skip(0) == x@);
        assert(y@.skip(0) == y@);
    }
    while i < x.len() && i < y.len()
        invariant
            i <= x@.len(),
            i <= y@.len(),
            x@ == encode_utf8(a@),
            y@ == encode_utf8(b@),
            bytes_precede(x@, y@) == bytes_precede(x@.skip(i as int), y@.skip(i as int)),
        decreases x@.len() - i,
    {
        proof {
            let p = x@.skip(i as int);
            let q = y@.skip(i as int);
            assert(p[0] == x@[i as int]);
            assert(q[0] == y@[i as int]);
            assert(p.drop_first() == x@.skip(i as int + 1));
            assert(q.drop_first() == y@.skip(i as int + 1));
            assert(p.len() > 0 && q.len() > 0);
            assert(bytes_precede(p, q) == if p[0] != q[0] {
                p[0] < q[0]
            } else {
                bytes_precede(p.drop_first(), q.drop_first())
            });
        }
        if x[i] != y[i] {
            return x[i] < y[i];
        }
        i += 1;
    }
    proof {
        let p = x@.skip(i as int);
        let q = y@.skip(i as int);
        assert(p.len() == x@.len() - i);
        assert(q.len() == y@.len() - i);
    }
    i < y.len()
}

/// Tells whether the bytes `needle` occur in the bytes `hay` at `at`.
fn matches_at(hay: &[u8], needle: &[u8], at: usize) -> (found: bool)
    requires
        at + needle@.len() <= hay@.len(),
    ensures
        found == bytes_match_at(hay@, needle@, at as int),
{
    let total = hay.len();
    let mut k: usize = 0;
    while k < needle.len()
        invariant
            k <= needle@.len(),
            total == hay@.len(),
            at + needle@.len() <= hay@.len(),
            forall|j: int| 0 <= j < k ==> hay@[at + j] == needle@[j],
        decreases needle@.len() - k,
    {
        if hay[at + k] != needle[k] {
            proof {
                let run = hay@.subrange(at as int, at + needle@.len());
                assert(run[k as int] == hay@[at + k]);
            }
            return false;
        }
        k += 1;
    }
    proof {
        assert(hay@.subrange(at as int, at + needle@.len()) =~= needle@);
    }
    true
}

/// Tells whether `needle` occurs in `hay`.
pub fn contains_text(hay: &str, needle: &str) -> (found: bool)
    ensures
        found == text_contains(hay@, needle@),
{
    let x = hay.as_bytes();
    let y = needle.as_bytes();
    if y.len() > x.len() {
        return false;
    }
    if y.len() == 0 {
        proof {
            assert(x@.subrange(0, 0) =~= y@);
            assert(bytes_match_at(x@, y@, 0));
        }
        return true;
    }
    let total = x.len();
    let last = x.len() - y.len();
    let mut at: usize = 0;
    while at <= last
        invariant
            at <= last + 1,
            total == x@.len(),
            y@.len() > 0,
            last == x@.len() - y@.len(),
            x@ == encode_utf8(hay@),
            y@ == encode_utf8(needle@),
            forall|j: int| 0 <= j < at ==> !bytes_match_at(x@, y@, j),
        decreases last + 1 - at,
    {
        if matches_at(x, y, at) {
            return true;
        }
        at += 1;
    }
    false
}

/// The lower-case form of `text`.
///
/// Trusted: returns what `str::to_lowercase` returns, under the name
/// `lowercased`.
#[verifier::external_body]
pub(crate) fn to_lowercase(text: &str) -> (lower: String)
    ensures
        lower@ == lowercased(text@),
{
    text.to_lowercase()
}

/// `text` without the white space at its two ends.
///
/// Trusted: returns what `str::trim` returns, under the name `trimmed`.
#[verifier::external_body]
pub(crate) fn trim(text: &str) -> (inner: &str)
    ensures
        inner@ == trimmed(text@),
{
    text.trim()
}

/// The lines of `text`.
///
/// Trusted: collects what `str::lines` yields, under the name `lines_of`.
#[verifier::external_body]
pub(crate) fn lines(text: &str) -> (all: Vec<&str>)
    ensures
        all.len() == lines_of(text@).len(),
        forall|i: int| 0 <= i < all.len() ==> (#[trigger] all[i])@ == lines_of(text@)[i],
{
    text.lines().collect()
}

/// Reads the digits of `text` from the character at `from` on as a number,
/// where there is at least one character, all are digits and the number
/// is no greater than `most`.
fn parse_digits(text: &str, from: usize, most: u64) -> (number: Option<u64>)
    requires
        from <= text@.len(),
        most >= 9,
    ensures
        number == if text@.len() > from && all_digits(text@.skip(from as int)) && digits_value(
            text@.skip(from as int),
        ) <= most {
            Some(digits_value(text@.skip(from as int)) as u64)
        } else {
            None
        },
{
    let count = text.unicode_len();
    if count <= from {
        return None;
    }
    let ghost digits = text@.skip(from as int);
    let mut value: u64 = 0;
    let mut i: usize = from;
    proof {
        assert(digits.take(0) == Seq::<char>::empty());
    }
    while i < count
        invariant
            from <= i <= count,
            count == text@.len(),
            digits == text@.skip(from as int),
            all_digits(digits.take(i - from)),
            value == digits_value(digits.take(i - from)),
            value <= most,
            most >= 9,
        decreases count - i,
    {
        let c = text.get_char(i);
        proof {
            let next = digits.take(i - from + 1);
            assert(next.drop_last() == digits.take(i - from));
            assert(next.last() == c);
            assert(digits[i - from] == c);
            if is_digit(c) {
                assert forall|k: int| 0 <= k < next.len() implies is_digit(#[trigger] next[k]) by {
                    if k < next.len() - 1 {
                        assert(next[k] == digits.take(i - from)[k]);
                    }
                }
            }
        }
        if !(c >= '0' && c <= '9') {
            proof {
                assert(!all_digits(digits));
            }
            return None;
        }
        let digit = (c as u32 - '0' as u32) as u64;
        if value > (most - digit) / 10 {
            proof {
                assert(digits_value(digits.take(i - from + 1)) == value * 10 + digit);
                assert(value * 10 + digit > most) by (nonlinear_arith)
                    requires
                        value > (most - digit) / 10,
                        digit <= 9,
                        digit <= most,
                ;
                if all_digits(digits) {
                    lemma_digits_value_grows(digits, i - from + 1);
                }
            }
            return None;
        }
        proof {
            assert(value * 10 + digit <= most) by (nonlinear_arith)
                requires
                    value <= (most - digit) / 10,
                    digit <= most,
            ;
        }
        value = value * 10 + digit;
        i += 1;
    }
    proof {
        assert(digits.take(count - from) == digits);
    }
    Some(value)
}

/// The number that a prefix of digits writes is no greater than the number
/// that all of them write.
pub proof fn lemma_digits_value_grows(digits: Seq<char>, count: int)
    requires
        0 <= count <= digits.len(),
        all_digits(digits),
    ensures
        digits_value(digits.take(count)) <= digits_value(digits),
    decreases digits.len() - count,
{
    if count < digits.len() {
        let next = digits.take(count + 1);
        assert(next.drop_last() == digits.take(count));
        assert(next.last() == digits[count]);
        assert(is_digit(digits[count]));
        lemma_digits_value_grows(digits, count + 1);
    } else {
        assert(digits.take(count) == digits);
    }
}

/// Reads `text` as a `u64`: an optional `+`, then digits only. Fails where
/// the number does not fit.
pub fn parse_u64(text: &str) -> (number: Option<u64>)
    ensures
        number == match unsigned_decimal(text@) {
            Some(n) => if n <= u64::MAX {
                Some(n as u64)
            } else {
                None
            },
            None => None,
        },
{
    let signed = text.unicode_len() > 0 && text.get_char(0) == '+';
    proof {
        assert(text@.skip(0) == text@);
        if text@.len() > 0 {
            assert(text@.skip(1) == text@.drop_first());
        }
    }
    parse_digits(
        text,
        if signed {
            1
        } else {
            0
        },
        u64::MAX,
    )
}

/// Reads `text` as a `u32`: an optional `+`, then digits only. Fails where
/// the number does not fit.
pub fn parse_u32(text: &str) -> (number: Option<u32>)
    ensures
        number == match unsigned_decimal(text@) {
            Some(n) => if n <= u32::MAX {
                Some(n as u32)
            } else {
                None
            },
            None => None,
        },
{
    let signed = text.unicode_len() > 0 && text.get_char(0) == '+';
    proof {
        assert(text@.skip(0) == text@);
        if text@.len() > 0 {
            assert(text@.skip(1) == text@.drop_first());
        }
    }
    match parse_digits(
        text,
        if signed {
            1
        } else {
            0
        },
        0xffff_ffff,
    ) {
        Some(n) => Some(n as u32),
        None => None,
    }
}

/// Reads `text` as an `i32`: an optional `+` or `-`, then digits only.
/// Fails where the number does not fit.
pub fn parse_i32(text: &str) -> (number: Option<i32>)
    ensures
        number == match signed_decimal(text@) {
            Some(n) => if i32::MIN <= n <= i32::MAX {
                Some(n as i32)
            } else {
                None
            },
            None => None,
        },
{
    let count = text.unicode_len();
    proof {
        assert(text@.skip(0) == text@);
        if text@.len() > 0 {
            assert(text@.skip(1) == text@.drop_first());
        }
    }
    if count > 0 && text.get_char(0) == '-' {
        match parse_digits(text, 1, 0x8000_0000) {
            Some(n) => if n == 0x8000_0000 {
                Some(i32::MIN)
            } else {
                Some(-(n as i32))
            },
            None => None,
        }
    } else {
        let signed = count > 0 && text.get_char(0) == '+';
        match parse_digits(
            text,
            if signed {
                1
            } else {
                0
            },
            0x7fff_ffff,
        ) {
            Some(n) => Some(n as i32),
            None => None,
        }
    }
}

/// Writes `n` in base ten, without sign or padding.
pub fn decimal(n: u64) -> (text: String)
    ensures
        text@ == decimal_text(n as nat),
    decreases n,
{
    let mut text = if n < 10 {
        String::new()
    } else {
        decimal(n / 10)
    };
    let digit = ('0' as u8 + (n % 10) as u8) as char;
    proof {
        assert(digit == (('0' as u32 + n % 10) as u8) as char);
        if n < 10 {
            assert(Seq::<char>::empty().push(digit) =~= seq![digit]);
        }
    }
    push_char(&mut text, digit);
    text
}

/// Appends `c` to `text`.
///
/// Trusted: `String::push` appends the character to the end.
#[verifier::external_body]
pub(crate) fn push_char(text: &mut String, c: char)
    ensures
        final(text)@ == old(text)@.push(c),
{
    text.push(c)
}

/// Removes the last character of `text`, if there is one.
///
/// Trusted: `String::pop` removes the last character and returns it, or
/// returns `None` and leaves an empty string as it is.
#[verifier::external_body]
pub(crate) fn pop_char(text: &mut String) -> (last: Option<char>)
    ensures
        old(text)@.len() == 0 ==> last is None && final(text)@ == old(text)@,
        old(text)@.len() > 0 ==> last == Some(old(text)@.last()) && final(text)@ == old(text)@.drop_last(),
{
    text.pop()
}

/// Writes `numbers` in base ten with `separator` between neighbours.
pub fn join_numbers(numbers: &[u32], separator: &str) -> (text: String)
    ensures
        text@ == joined_decimals(numbers@, separator@),
{
    let mut text = String::new();
    let mut i: usize = 0;
    while i < numbers.len()
        invariant
            i <= numbers.len(),
            text@ == joined_decimals(numbers@.take(i as int), separator@),
        decreases numbers.len() - i,
    {
        let digits = decimal(numbers[i] as u64);
        proof {
            let next = numbers@.take(i as int + 1);
            assert(next.drop_last() == numbers@.take(i as int));
            assert(next.last() == numbers@[i as int]);
            assert(Seq::<char>::empty() + digits@ == digits@);
        }
        if i > 0 {
            text.append(separator);
        }
        text.append(digits.as_str());
        i += 1;
    }
    proof {
        assert(numbers@.take(numbers.len() as int) == numbers@);
    }
    text
}

/// Writes `parts` one after another with `separator` between neighbours.
pub fn join_texts(parts: &Vec<String>, separator: &str) -> (text: String)
    ensures
        text@ == joined_texts(parts@.map_values(|p: String| p@), separator@),
{
    let ghost views = parts@.map_values(|p: String| p@);
    let mut text = String::new();
    let mut i: usize = 0;
    while i < parts.len()
        invariant
            i <= parts.len(),
            views == parts@.map_values(|p: String| p@),
            text@ == joined_texts(views.take(i as int), separator@),
        decreases parts.len() - i,
    {
        proof {
            let next = views.take(i as int + 1);
            assert(next.drop_last() == views.take(i as int));
            assert(next.last() == parts@[i as int]@);
            assert(Seq::<char>::empty() + parts@[i as int]@ == parts@[i as int]@);
        }
        if i > 0 {
            text.append(separator);
        }
        text.append(parts[i].as_str());
        i += 1;
    }
    proof {
        assert(views.take(parts.len() as int) == views);
    }
    text
}

/// Writes `parts` one after another with `separator` between neighbours.
pub fn join_strs(parts: &[&str], separator: &str) -> (text: String)
    ensures
        text@ == joined_texts(parts@.map_values(|p: &str| p@), separator@),
{
    let ghost views = parts@.map_values(|p: &str| p@);
    let mut text = String::new();
    let mut i: usize = 0;
    while i < parts.len()
        invariant
            i <= parts.len(),
            views == parts@.map_values(|p: &str| p@),
            text@ == joined_texts(views.take(i as int), separator@),
        decreases parts.len() - i,
    {
        proof {
            let next = views.take(i as int + 1);
            assert(next.drop_last() == views.take(i as int));
            assert(next.last() == parts@[i as int]@);
            assert(Seq::<char>::empty() + parts@[i as int]@ == parts@[i as int]@);
        }
        if i > 0 {
            text.append(separator);
        }
        text.append(parts[i]);
        i += 1;
    }
    proof {
        assert(views.take(parts.len() as int) == views);
    }
    text
}

} // verus!
