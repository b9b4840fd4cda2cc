//! Text handling on the scraped page: whitespace trimming, character removal,
//! substring search and the reading of decimal integers.

use vstd::prelude::*;

verus! {

/// The characters with the Unicode `White_Space` property.
pub open spec fn spec_is_whitespace(c: char) -> bool {
    ||| '\u{9}' <= c <= '\u{d}'
    ||| c == ' '
    ||| c == '\u{85}'
    ||| c == '\u{a0}'
    ||| c == '\u{1680}'
    ||| '\u{2000}' <= c <= '\u{200a}'
    ||| c == '\u{2028}'
    ||| c == '\u{2029}'
    ||| c == '\u{202f}'
    ||| c == '\u{205f}'
    ||| c == '\u{3000}'
}

/// Whether `c` has the Unicode `White_Space` property.
pub fn is_whitespace(c: char) -> (b: bool)
    ensures
        b == spec_is_whitespace(c),
{
    ('\u{9}' <= c && c <= '\u{d}') || c == ' ' || c == '\u{85}' || c == '\u{a0}' || c
        == '\u{1680}' || ('\u{2000}' <= c && c <= '\u{200a}') || c == '\u{2028}' || c
        == '\u{2029}' || c == '\u{202f}' || c == '\u{205f}' || c == '\u{3000}'
}

/// `s` without its leading whitespace.
pub open spec fn trim_start_seq(s: Seq<char>) -> Seq<char>
    decreases s.len(),
{
    if s.len() > 0 && spec_is_whitespace(s[0]) {
        trim_start_seq(s.drop_first())
    } else {
        s
    }
}

/// `s` without its trailing whitespace.
pub open spec fn trim_end_seq(s: Seq<char>) -> Seq<char>
    decreases s.len(),
{
    if s.len() > 0 && spec_is_whitespace(s.last()) {
        trim_end_seq(s.drop_last())
    } else {
        s
    }
}

/// `s` without its leading and trailing whitespace.
pub open spec fn trim_seq(s: Seq<char>) -> Seq<char> {
    trim_end_seq(trim_start_seq(s))
}

/// Where trimming the start of `s` begins: the index of its first character that is not
/// whitespace, or its length.
proof fn lemma_trim_start_index(s: Seq<char>) -> (i: int)
    ensures
        0 <= i <= s.len(),
        trim_start_seq(s) == s.subrange(i, s.len() as int),
        forall|k: int| 0 <= k < i ==> spec_is_whitespace(#[trigger] s[k]),
        i < s.len() ==> !spec_is_whitespace(s[i]),
    decreases s.len(),
{
    if s.len() > 0 && spec_is_whitespace(s[0]) {
        let rest = s.drop_first();
        let i0 = lemma_trim_start_index(rest);
        assert(rest.subrange(i0, rest.len() as int) =~= s.subrange(i0 + 1, s.len() as int));
        assert forall|k: int| 0 <= k < i0 + 1 implies spec_is_whitespace(#[trigger] s[k]) by {
            if k > 0 {
                assert(s[k] == rest[k - 1]);
            }
        }
        assert(i0 + 1 < s.len() ==> s[i0 + 1] == rest[i0]);
        i0 + 1
    } else {
        assert(s.subrange(0, s.len() as int) =~= s);
        0
    }
}

/// Where trimming the end of `s` stops: one past its last character that is not
/// whitespace, or zero.
proof fn lemma_trim_end_index(s: Seq<char>) -> (j: int)
    ensures
        0 <= j <= s.len(),
        trim_end_seq(s) == s.subrange(0, j),
        forall|k: int| j <= k < s.len() ==> spec_is_whitespace(#[trigger] s[k]),
        j > 0 ==> !spec_is_whitespace(s[j - 1]),
    decreases s.len(),
{
    if s.len() > 0 && spec_is_whitespace(s.last()) {
        let rest = s.drop_last();
        let j0 = lemma_trim_end_index(rest);
        assert(rest.subrange(0, j0) =~= s.subrange(0, j0));
        assert forall|k: int| j0 <= k < s.len() implies spec_is_whitespace(#[trigger] s[k]) by {
            if k < s.len() - 1 {
                assert(s[k] == rest[k]);
            }
        }
        j0
    } else {
        assert(s.subrange(0, s.len() as int) =~= s);
        s.len() as int
    }
}

/// Law: trimming keeps one contiguous run of the text and drops only whitespace before
/// and after it, and what it keeps neither begins nor ends with whitespace.
pub proof fn lemma_trim_keeps_inner_run(s: Seq<char>)
    ensures
        exists|i: int, j: int|
            #![trigger s.subrange(i, j)]
            0 <= i <= j <= s.len() && trim_seq(s) == s.subrange(i, j) && (forall|k: int|
                0 <= k < i ==> spec_is_whitespace(#[trigger] s[k])) && (forall|k: int|
                j <= k < s.len() ==> spec_is_whitespace(#[trigger] s[k])),
        trim_seq(s).len() > 0 ==> !spec_is_whitespace(trim_seq(s)[0]) && !spec_is_whitespace(
            trim_seq(s).last(),
        ),
{
    let i = lemma_trim_start_index(s);
    let t = s.subrange(i, s.len() as int);
    let j = lemma_trim_end_index(t);
    assert(t.subrange(0, j) =~= s.subrange(i, i + j));
    assert forall|k: int| i + j <= k < s.len() implies spec_is_whitespace(#[trigger] s[k]) by {
        assert(s[k] == t[k - i]);
    }
    if j > 0 {
        assert(trim_seq(s)[0] == s[i]);
        assert(trim_seq(s).last() == t[j - 1]);
    }
    assert(0 <= i <= i + j <= s.len() && trim_seq(s) == s.subrange(i, i + j));
}

/// `s` with every occurrence of `c` taken out.
pub open spec fn without_char(s: Seq<char>, c: char) -> Seq<char>
    decreases s.len(),
{
    if s.len() == 0 {
        s
    } else if s.last() == c {
        without_char(s.drop_last(), c)
    } else {
        without_char(s.drop_last(), c).push(s.last())
    }
}

/// Whether `needle` occurs in `haystack` as a contiguous run of characters.
pub open spec fn seq_contains(haystack: Seq<char>, needle: Seq<char>) -> bool {
    exists|i: int|
        0 <= i && i + needle.len() <= haystack.len() && #[trigger] haystack.subrange(
            i,
            i + needle.len(),
        ) == needle
}

/// The characters of `s`, in order.
pub fn chars_of(s: &str) -> (v: Vec<char>)
    ensures
        v@ == s@,
{
    let mut v: Vec<char> = Vec::new();
    for c in it: s.chars()
        invariant
            v@ == it.seq().take(it.index() as int),
            it.seq() == s@,
    {
        v.push(c);
    }
    v
}

proof fn lemma_trim_start_skip(s: Seq<char>, i: int)
    requires
        0 <= i <= s.len(),
        forall|k: int| 0 <= k < i ==> spec_is_whitespace(#[trigger] s[k]),
    ensures
        trim_start_seq(s) == trim_start_seq(s.subrange(i, s.len() as int)),
    decreases i,
{
    if i > 0 {
        assert(s.drop_first().subrange(i - 1, s.drop_first().len() as int) =~= s.subrange(
            i,
            s.len() as int,
        ));
        assert forall|k: int| 0 <= k < i - 1 implies spec_is_whitespace(
            #[trigger] s.drop_first()[k],
        ) by {
            assert(s.drop_first()[k] == s[k + 1]);
        }
        lemma_trim_start_skip(s.drop_first(), i - 1);
    } else {
        assert(s.subrange(0, s.len() as int) =~= s);
    }
}

proof fn lemma_trim_end_take(s: Seq<char>, j: int)
    requires
        0 <= j <= s.len(),
        forall|k: int| j <= k < s.len() ==> spec_is_whitespace(#[trigger] s[k]),
    ensures
        trim_end_seq(s) == trim_end_seq(s.subrange(0, j)),
    decreases s.len() - j,
{
    if j < s.len() {
        assert(s.drop_last().subrange(0, j) =~= s.subrange(0, j));
        lemma_trim_end_take(s.drop_last(), j);
    } else {
        assert(s.subrange(0, j) =~= s);
    }
}

/// `s` without leading and trailing whitespace, as `str::trim` gives it.
pub fn trim(s: &str) -> (r: String)
    ensures
        r@ == trim_seq(s@),
{
    let chars = chars_of(s);
    let n = chars.len();
    let mut i: usize = 0;
    while i < n && is_whitespace(chars[i])
        invariant
            i <= n,
            n == chars@.len(),
            chars@ == s@,
            forall|k: int| 0 <= k < i ==> spec_is_whitespace(#[trigger] s@[k]),
        decreases n - i,
    {
        i = i + 1;
    }
    proof {
        lemma_trim_start_skip(s@, i as int);
    }
    let ghost rest = s@.subrange(i as int, n as int);
    assert(i == n || !spec_is_whitespace(rest[0]));
    assert(trim_start_seq(rest) == rest);
    let mut j: usize = n;
    while j > i && is_whitespace(chars[j - 1])
        invariant
            i <= j <= n,
            n == chars@.len(),
            chars@ == s@,
            forall|k: int| j <= k < n ==> spec_is_whitespace(#[trigger] s@[k]),
        decreases j,
    {
        j = j - 1;
    }
    proof {
        assert forall|k: int| j - i <= k < rest.len() implies spec_is_whitespace(
            #[trigger] rest[k],
        ) by {
            assert(rest[k] == s@[k + i]);
        }
        lemma_trim_end_take(rest, j - i);
        assert(rest.subrange(0, j - i) =~= s@.subrange(i as int, j as int));
        let kept = s@.subrange(i as int, j as int);
        if kept.len() > 0 {
            assert(kept.last() == s@[j - 1]);
        }
        assert(trim_end_seq(kept) == kept);
    }
    s.substring_char(i, j).to_owned()
}

proof fn lemma_without_char_push(s: Seq<char>, x: char, c: char)
    ensures
        without_char(s.push(x), c) == if x == c {
            without_char(s, c)
        } else {
            without_char(s, c).push(x)
        },
{
    assert(s.push(x).drop_last() =~= s);
}

/// `chars` with every occurrence of `c` taken out, as `str::replace(c, "")` gives it.
pub fn remove_char(chars: &Vec<char>, c: char) -> (r: Vec<char>)
    ensures
        r@ == without_char(chars@, c),
{
    let mut r: Vec<char> = Vec::new();
    let n = chars.len();
    let mut i: usize = 0;
    while i < n
        invariant
            i <= n,
            n == chars@.len(),
            r@ == without_char(chars@.take(i as int), c),
        decreases n - i,
    {
        proof {
            lemma_without_char_push(chars@.take(i as int), chars@[i as int], c);
            assert(chars@.take(i as int).push(chars@[i as int]) =~= chars@.take(i + 1));
        }
        if chars[i] != c {
            r.push(chars[i]);
        }
        i = i + 1;
    }
    assert(chars@.take(n as int) =~= chars@);
    r
}

/// Whether `needle` occurs in `haystack`, as `str::contains` answers it.
pub fn contains(haystack: &str, needle: &str) -> (b: bool)
    ensures
        b == seq_contains(haystack@, needle@),
{
    let h = chars_of(haystack);
    let nd = chars_of(needle);
    let hn = h.len();
    let nn = nd.len();
    if nn > hn {
        assert forall|i: int|
            0 <= i && i + nd@.len() <= h@.len() implies !(#[trigger] h@.subrange(
            i,
            i + nd@.len(),
        ) == nd@) by {}
        return false;
    }
    let mut i: usize = 0;
    while i <= hn - nn
        invariant
            nn <= hn,
            hn == h@.len(),
            nn == nd@.len(),
            h@ == haystack@,
            nd@ == needle@,
            i <= hn - nn + 1,
            forall|k: int| 0 <= k < i ==> #[trigger] h@.subrange(k, k + nn) != nd@,
        decreases hn - nn + 1 - i,
    {
        let mut j: usize = 0;
        while j < nn && h[i + j] == nd[j]
            invariant
                nn <= hn,
                i <= hn - nn,
                hn == h@.len(),
                nn == nd@.len(),
                j <= nn,
                forall|k: int| 0 <= k < j ==> h@[i + k] == nd@[k],
            decreases nn - j,
        {
            j = j + 1;
        }
        if j == nn {
            assert(h@.subrange(i as int, i + nn) =~= nd@);
            return true;
        }
        assert(h@.subrange(i as int, i + nn)[j as int] != nd@[j as int]);
        i = i + 1;
    }
    false
}

/// Why a text is not a decimal `i32`; the kinds of `std::num::IntErrorKind`.
#[derive(Debug, Copy, Clone, PartialEq, Eq, Structural)]
pub enum IntErrorKind {
    /// The text is empty.
    Empty,
    /// The text holds a character that is not a digit where a digit belongs.
    InvalidDigit,
    /// The number is above `i32::MAX`.
    PosOverflow,
    /// The number is below `i32::MIN`.
    NegOverflow,
}

impl IntErrorKind {
    /// The message `std::num::ParseIntError` prints for this kind.
    pub open spec fn spec_description(self) -> Seq<char> {
        match self {
            IntErrorKind::Empty => "cannot parse integer from empty string"@,
            IntErrorKind::InvalidDigit => "invalid digit found in string"@,
            IntErrorKind::PosOverflow => "number too large to fit in target type"@,
            IntErrorKind::NegOverflow => "number too small to fit in target type"@,
        }
    }

    /// The message `std::num::ParseIntError` prints for this kind.
    pub fn description(&self) -> (s: &str)
        ensures
            s@ == self.spec_description(),
    {
        match self {
            IntErrorKind::Empty => "cannot parse integer from empty string",
            IntErrorKind::InvalidDigit => "invalid digit found in string",
            IntErrorKind::PosOverflow => "number too large to fit in target type",
            IntErrorKind::NegOverflow => "number too small to fit in target type",
        }
    }
}

/// Whether `c` is one of the ASCII digits `0` to `9`.
pub open spec fn is_digit(c: char) -> bool {
    '0' <= c <= '9'
}

/// The value of the ASCII digit `c`.
pub open spec fn digit_value(c: char) -> int {
    c as int - '0' as int
}

/// Reads the digits `digits` onto `acc`, left to right, adding each digit (or subtracting
/// it, for a negative number) to ten times the value so far; it stops at the first
/// character that is not a digit or the first value that leaves the range of `i32`.
pub open spec fn read_digits(digits: Seq<char>, acc: int, negative: bool) -> Result<
    int,
    IntErrorKind,
>
    decreases digits.len(),
{
    if digits.len() == 0 {
        Ok(acc)
    } else if !is_digit(digits[0]) {
        Err(IntErrorKind::InvalidDigit)
    } else {
        let next = if negative {
            acc * 10 - digit_value(digits[0])
        } else {
            acc * 10 + digit_value(digits[0])
        };
        if next > i32::MAX {
            Err(IntErrorKind::PosOverflow)
        } else if next < i32::MIN {
            Err(IntErrorKind::NegOverflow)
        } else {
            read_digits(digits.drop_first(), next, negative)
        }
    }
}

/// The `i32` that `s` writes in decimal, as `str::parse::<i32>` reads it: an optional
/// `+` or `-`, then at least one digit and nothing else.
pub open spec fn spec_parse_i32(s: Seq<char>) -> Result<i32, IntErrorKind> {
    if s.len() == 0 {
        Err(IntErrorKind::Empty)
    } else if (s[0] == '+' || s[0] == '-') && s.len() == 1 {
        Err(IntErrorKind::InvalidDigit)
    } else {
        let negative = s[0] == '-';
        let digits = if s[0] == '+' || s[0] == '-' {
            s.drop_first()
        } else {
            s
        };
        match read_digits(digits, 0, negative) {
            Ok(v) => Ok(v as i32),
            Err(e) => Err(e),
        }
    }
}

proof fn lemma_read_digits_in_range(digits: Seq<char>, acc: int, negative: bool)
    requires
        i32::MIN <= acc <= i32::MAX,
    ensures
        read_digits(digits, acc, negative) matches Ok(v) ==> i32::MIN <= v <= i32::MAX,
    decreases digits.len(),
{
    if digits.len() > 0 && is_digit(digits[0]) {
        let next = if negative {
            acc * 10 - digit_value(digits[0])
        } else {
            acc * 10 + digit_value(digits[0])
        };
        if i32::MIN <= next <= i32::MAX {
            lemma_read_digits_in_range(digits.drop_first(), next, negative);
        }
    }
}

/// Reads `s` as a decimal `i32` the way `str::parse::<i32>` does.
pub fn parse_i32(s: &Vec<char>) -> (r: Result<i32, IntErrorKind>)
    ensures
        r == spec_parse_i32(s@),
{
    let n = s.len();
    if n == 0 {
        return Err(IntErrorKind::Empty);
    }
    let first = s[0];
    if (first == '+' || first == '-') && n == 1 {
        return Err(IntErrorKind::InvalidDigit);
    }
    let negative = first == '-';
    let start: usize = if first == '+' || first == '-' {
        1
    } else {
        0
    };
    let ghost digits = if first == '+' || first == '-' {
        s@.drop_first()
    } else {
        s@
    };
    assert(digits =~= s@.subrange(start as int, n as int));
    let mut acc: i64 = 0;
    let mut i: usize = start;
    while i < n
        invariant
            start <= i <= n,
            n == s@.len(),
            i32::MIN <= acc <= i32::MAX,
            read_digits(digits, 0, negative) == read_digits(
                s@.subrange(i as int, n as int),
                acc as int,
                negative,
            ),
            digits == s@.subrange(start as int, n as int),
            spec_parse_i32(s@) == match read_digits(digits, 0, negative) {
                Ok(v) => Ok(v as i32),
                Err(e) => Err(e),
            },
        decreases n - i,
    {
        let ghost rest = s@.subrange(i as int, n as int);
        assert(rest[0] == s@[i as int]);
        assert(rest.drop_first() =~= s@.subrange(i + 1, n as int));
        let c = s[i];
        if !('0' <= c && c <= '9') {
            return Err(IntErrorKind::InvalidDigit);
        }
        let d = (c as u32 - '0' as u32) as i64;
        assert(d == digit_value(c));
        let next: i64 = if negative {
            acc * 10 - d
        } else {
            acc * 10 + d
        };
        if next > 2147483647 {
            return Err(IntErrorKind::PosOverflow);
        }
        if next < -2147483648 {
            return Err(IntErrorKind::NegOverflow);
        }
        acc = next;
        i = i + 1;
    }
    assert(s@.subrange(n as int, n as int).len() == 0);
    proof {
        lemma_read_digits_in_range(digits, 0, negative);
    }
    Ok(acc as i32)
}

/// The ASCII digit for `d`, for `0 <= d < 10`.
pub open spec fn digit_char(d: int) -> char {
    if d == 0 {
        '0'
    } else if d == 1 {
        '1'
    } else if d == 2 {
        '2'
    } else if d == 3 {
        '3'
    } else if d == 4 {
        '4'
    } else if d == 5 {
        '5'
    } else if d == 6 {
        '6'
    } else if d == 7 {
        '7'
    } else if d == 8 {
        '8'
    } else {
        '9'
    }
}

/// The decimal digits of `m`, most significant first, with no leading zero.
pub open spec fn decimal_digits(m: nat) -> Seq<char>
    decreases m,
{
    if m < 10 {
        seq![digit_char(m as int)]
    } else {
        decimal_digits(m / 10).push(digit_char((m % 10) as int))
    }
}

/// The decimal form of `n`: a `-` before the digits of a negative number.
pub open spec fn decimal(n: int) -> Seq<char> {
    if n < 0 {
        seq!['-'] + decimal_digits((-n) as nat)
    } else {
        decimal_digits(n as nat)
    }
}

proof fn lemma_read_digits_concat(a: Seq<char>, b: Seq<char>, acc: int, negative: bool, v: int)
    requires
        read_digits(a, acc, negative) == Ok::<int, IntErrorKind>(v),
    ensures
        read_digits(a + b, acc, negative) == read_digits(b, v, negative),
    decreases a.len(),
{
    if a.len() == 0 {
        assert(a + b =~= b);
    } else {
        let next = if negative {
            acc * 10 - digit_value(a[0])
        } else {
            acc * 10 + digit_value(a[0])
        };
        assert((a + b)[0] == a[0]);
        assert((a + b).drop_first() =~= a.drop_first() + b);
        lemma_read_digits_concat(a.drop_first(), b, next, negative, v);
    }
}

proof fn lemma_decimal_digits_read(m: nat, negative: bool)
    requires
        negative ==> m <= 2147483648,
        !negative ==> m <= 2147483647,
    ensures
        decimal_digits(m).len() >= 1,
        is_digit(decimal_digits(m)[0]),
        read_digits(decimal_digits(m), 0, negative) == Ok::<int, IntErrorKind>(
            if negative {
                -m
            } else {
                m as int
            },
        ),
    decreases m,
{
    let d = (m % 10) as int;
    assert(is_digit(digit_char(d)) && digit_value(digit_char(d)) == d);
    let target = if negative {
        -m
    } else {
        m as int
    };
    if m < 10 {
        let s = decimal_digits(m);
        assert(s.drop_first().len() == 0);
        assert(read_digits(s.drop_first(), target, negative) == Ok::<int, IntErrorKind>(target));
    } else {
        let high = m / 10;
        lemma_decimal_digits_read(high, negative);
        let v = if negative {
            -high
        } else {
            high as int
        };
        let last = seq![digit_char(d)];
        assert(decimal_digits(m) =~= decimal_digits(high) + last);
        lemma_read_digits_concat(decimal_digits(high), last, 0, negative, v);
        assert(last.drop_first().len() == 0);
        assert(m == high * 10 + d);
        assert(read_digits(last.drop_first(), target, negative) == Ok::<int, IntErrorKind>(
            target,
        ));
        assert(read_digits(last, v, negative) == Ok::<int, IntErrorKind>(target));
    }
}

/// Law: reading the decimal form of any `i32` gives that `i32` back.
pub proof fn lemma_parse_i32_reads_decimal(n: i32)
    ensures
        spec_parse_i32(decimal(n as int)) == Ok::<i32, IntErrorKind>(n),
{
    if n < 0 {
        let m = (-(n as int)) as nat;
        lemma_decimal_digits_read(m, true);
        let s = decimal(n as int);
        assert(s.drop_first() =~= decimal_digits(m));
    } else {
        lemma_decimal_digits_read(n as nat, false);
        let s = decimal(n as int);
        assert(s[0] != '+' && s[0] != '-');
    }
}

/// The number the ASCII digits `digits` write, most significant digit first.
pub open spec fn digits_value(digits: Seq<char>) -> int
    decreases digits.len(),
{
    if digits.len() == 0 {
        0
    } else {
        digits_value(digits.drop_last()) * 10 + digit_value(digits.last())
    }
}

/// Whether `digits` is one or more ASCII digits and nothing else.
pub open spec fn is_digit_run(digits: Seq<char>) -> bool {
    digits.len() > 0 && forall|k: int| 0 <= k < digits.len() ==> is_digit(#[trigger] digits[k])
}

/// The text `s` without a leading `+` or `-`.
pub open spec fn unsigned_part(s: Seq<char>) -> Seq<char> {
    if s.len() > 0 && (s[0] == '+' || s[0] == '-') {
        s.drop_first()
    } else {
        s
    }
}

/// The value the text `s` writes as a signed decimal: the value of its digits, negated
/// when it begins with `-`.
pub open spec fn signed_value(s: Seq<char>) -> int {
    if s.len() > 0 && s[0] == '-' {
        -digits_value(unsigned_part(s))
    } else {
        digits_value(unsigned_part(s))
    }
}

proof fn lemma_read_digits_error_persists(a: Seq<char>, b: Seq<char>, acc: int, negative: bool)
    requires
        read_digits(a, acc, negative) is Err,
    ensures
        read_digits(a + b, acc, negative) == read_digits(a, acc, negative),
    decreases a.len(),
{
    assert((a + b)[0] == a[0]);
    if is_digit(a[0]) {
        let next = if negative {
            acc * 10 - digit_value(a[0])
        } else {
            acc * 10 + digit_value(a[0])
        };
        if i32::MIN <= next <= i32::MAX {
            assert((a + b).drop_first() =~= a.drop_first() + b);
            lemma_read_digits_error_persists(a.drop_first(), b, next, negative);
        }
    }
}

proof fn lemma_read_digits_ok_only_digits(digits: Seq<char>, acc: int, negative: bool)
    requires
        read_digits(digits, acc, negative) is Ok,
    ensures
        forall|k: int| 0 <= k < digits.len() ==> is_digit(#[trigger] digits[k]),
    decreases digits.len(),
{
    if digits.len() > 0 {
        let next = if negative {
            acc * 10 - digit_value(digits[0])
        } else {
            acc * 10 + digit_value(digits[0])
        };
        lemma_read_digits_ok_only_digits(digits.drop_first(), next, negative);
        assert forall|k: int| 0 <= k < digits.len() implies is_digit(#[trigger] digits[k]) by {
            if k > 0 {
                assert(digits[k] == digits.drop_first()[k - 1]);
            }
        }
    }
}

proof fn lemma_read_digits_never_empty(digits: Seq<char>, acc: int, negative: bool)
    ensures
        read_digits(digits, acc, negative) != Err::<int, IntErrorKind>(IntErrorKind::Empty),
    decreases digits.len(),
{
    if digits.len() > 0 && is_digit(digits[0]) {
        let next = if negative {
            acc * 10 - digit_value(digits[0])
        } else {
            acc * 10 + digit_value(digits[0])
        };
        lemma_read_digits_never_empty(digits.drop_first(), next, negative);
    }
}

proof fn lemma_read_digits_value(digits: Seq<char>, negative: bool)
    requires
        forall|k: int| 0 <= k < digits.len() ==> is_digit(#[trigger] digits[k]),
    ensures
        digits_value(digits) >= 0,
        ({
            let v = if negative {
                -digits_value(digits)
            } else {
                digits_value(digits)
            };
            &&& i32::MIN <= v <= i32::MAX ==> read_digits(digits, 0, negative) == Ok::<
                int,
                IntErrorKind,
            >(v)
            &&& !(i32::MIN <= v <= i32::MAX) ==> read_digits(digits, 0, negative) is Err
        }),
    decreases digits.len(),
{
    if digits.len() > 0 {
        let a = digits.drop_last();
        let c = digits.last();
        assert(is_digit(digits[digits.len() - 1]));
        assert forall|k: int| 0 <= k < a.len() implies is_digit(#[trigger] a[k]) by {
            assert(a[k] == digits[k]);
        }
        lemma_read_digits_value(a, negative);
        assert(a + seq![c] =~= digits);
        let va = digits_value(a);
        let sa = if negative {
            -va
        } else {
            va
        };
        assert(digits_value(digits) == va * 10 + digit_value(c));
        assert(0 <= digit_value(c) <= 9);
        if i32::MIN <= sa <= i32::MAX {
            lemma_read_digits_concat(a, seq![c], 0, negative, sa);
            assert(seq![c].drop_first() =~= Seq::<char>::empty());
            reveal_with_fuel(read_digits, 2);
        } else {
            lemma_read_digits_error_persists(a, seq![c], 0, negative);
        }
    }
}

/// Law: a text reads as an `i32` exactly when it is an optional `+` or `-` followed by
/// one or more ASCII digits whose value, with that sign, lies in the range of `i32`, and
/// it then reads as that value; the text is refused as empty exactly when it is empty.
pub proof fn lemma_parse_i32_reads_numerals(s: Seq<char>)
    ensures
        spec_parse_i32(s) is Ok <==> (is_digit_run(unsigned_part(s)) && i32::MIN <= signed_value(s)
            <= i32::MAX),
        spec_parse_i32(s) matches Ok(n) ==> n == signed_value(s),
        spec_parse_i32(s) == Err::<i32, IntErrorKind>(IntErrorKind::Empty) <==> s.len() == 0,
{
    if s.len() > 0 {
        let negative = s[0] == '-';
        let d = unsigned_part(s);
        lemma_read_digits_never_empty(d, 0, negative);
        if (s[0] == '+' || s[0] == '-') && s.len() == 1 {
            assert(d.len() == 0);
        } else {
            if read_digits(d, 0, negative) is Ok {
                lemma_read_digits_ok_only_digits(d, 0, negative);
            }
            if forall|k: int| 0 <= k < d.len() ==> is_digit(#[trigger] d[k]) {
                lemma_read_digits_value(d, negative);
            }
        }
    }
}

/// The last three decimal digits of `r`, for `0 <= r < 1000`, zeros included.
pub open spec fn three_digits(r: nat) -> Seq<char> {
    seq![digit_char((r / 100) as int), digit_char(((r / 10) % 10) as int), digit_char((r % 10) as int)]
}

/// The decimal digits of `m` with a `,` between each group of three, as prices are
/// written: `1,234,567`.
pub open spec fn grouped_digits(m: nat) -> Seq<char>
    decreases m,
{
    if m < 1000 {
        decimal_digits(m)
    } else {
        grouped_digits(m / 1000) + seq![','] + three_digits(m % 1000)
    }
}

/// Law: taking a character out of two joined texts is taking it out of each.
pub proof fn lemma_without_char_concat(a: Seq<char>, b: Seq<char>, c: char)
    ensures
        without_char(a + b, c) == without_char(a, c) + without_char(b, c),
    decreases b.len(),
{
    if b.len() == 0 {
        assert(a + b =~= a);
        assert(without_char(a, c) + without_char(b, c) =~= without_char(a, c));
    } else {
        assert((a + b).drop_last() =~= a + b.drop_last());
        assert((a + b).last() == b.last());
        lemma_without_char_concat(a, b.drop_last(), c);
        if b.last() == c {
        } else {
            assert(without_char(a, c) + without_char(b.drop_last(), c).push(b.last()) =~= (
            without_char(a, c) + without_char(b.drop_last(), c)).push(b.last()));
        }
    }
}

/// Law: taking out a character that a text does not hold leaves the text as it is.
pub proof fn lemma_without_absent_char(s: Seq<char>, c: char)
    requires
        forall|k: int| 0 <= k < s.len() ==> #[trigger] s[k] != c,
    ensures
        without_char(s, c) == s,
    decreases s.len(),
{
    if s.len() > 0 {
        assert(s.last() == s[s.len() - 1]);
        lemma_without_absent_char(s.drop_last(), c);
        assert(s.drop_last().push(s.last()) =~= s);
    }
}

proof fn lemma_digit_char(d: int)
    requires
        0 <= d < 10,
    ensures
        is_digit(digit_char(d)),
        digit_value(digit_char(d)) == d,
{
}

proof fn lemma_decimal_digits_are_digits(m: nat)
    ensures
        forall|k: int| 0 <= k < decimal_digits(m).len() ==> is_digit(#[trigger] decimal_digits(m)[k]),
        decimal_digits(m).len() >= 1,
    decreases m,
{
    lemma_digit_char((m % 10) as int);
    if m >= 10 {
        lemma_decimal_digits_are_digits(m / 10);
    }
}

proof fn lemma_decimal_digits_split(m: nat)
    requires
        m >= 1000,
    ensures
        decimal_digits(m) == decimal_digits(m / 1000) + three_digits(m % 1000),
{
    let q1 = m / 10;
    let q2 = q1 / 10;
    let q3 = q2 / 10;
    assert(q3 == m / 1000);
    assert(q2 % 10 == (m % 1000) / 100);
    assert(q1 % 10 == ((m % 1000) / 10) % 10);
    assert(m % 10 == (m % 1000) % 10);
    assert(q1 >= 100 && q2 >= 10 && q3 >= 1);
    assert(decimal_digits(q1) == decimal_digits(q2).push(digit_char((q1 % 10) as int)));
    assert(decimal_digits(q2) == decimal_digits(q3).push(digit_char((q2 % 10) as int)));
    assert(decimal_digits(m) =~= decimal_digits(m / 1000) + three_digits(m % 1000));
}

/// Law: taking the group separators out of the grouped digits of `m` gives its plain
/// decimal digits, so a grouped number reads as the number.
pub proof fn lemma_grouped_digits_ungroup(m: nat)
    ensures
        without_char(grouped_digits(m), ',') == decimal_digits(m),
        grouped_digits(m).len() >= 1,
        is_digit(grouped_digits(m)[0]),
        forall|k: int|
            0 <= k < grouped_digits(m).len() ==> is_digit(#[trigger] grouped_digits(m)[k])
                || grouped_digits(m)[k] == ',',
    decreases m,
{
    if m < 1000 {
        lemma_decimal_digits_are_digits(m);
        lemma_without_absent_char(decimal_digits(m), ',');
    } else {
        let high = m / 1000;
        let low = three_digits(m % 1000);
        lemma_grouped_digits_ungroup(high);
        lemma_digit_char(((m % 1000) / 100) as int);
        lemma_digit_char((((m % 1000) / 10) % 10) as int);
        lemma_digit_char(((m % 1000) % 10) as int);
        lemma_without_absent_char(low, ',');
        lemma_without_char_concat(grouped_digits(high) + seq![','], low, ',');
        lemma_without_char_concat(grouped_digits(high), seq![','], ',');
        let comma = seq![','];
        assert(without_char(comma, ',') =~= Seq::<char>::empty()) by {
            assert(comma.len() == 1 && comma.last() == ',');
            assert(comma.drop_last() =~= Seq::<char>::empty());
            assert(without_char(comma.drop_last(), ',') == Seq::<char>::empty());
        }
        assert(without_char(grouped_digits(high), ',') + Seq::<char>::empty() =~= without_char(
            grouped_digits(high),
            ',',
        ));
        lemma_decimal_digits_split(m);
        let g = grouped_digits(m);
        assert(g == grouped_digits(high) + seq![','] + low);
        assert forall|k: int| 0 <= k < g.len() implies is_digit(#[trigger] g[k]) || g[k] == ',' by {
            if k < grouped_digits(high).len() {
                assert(g[k] == grouped_digits(high)[k]);
            } else if k == grouped_digits(high).len() {
                assert(g[k] == ',');
            } else {
                assert(g[k] == low[k - grouped_digits(high).len() - 1]);
            }
        }
        assert(g[0] == grouped_digits(high)[0]);
    }
}

} // verus!
