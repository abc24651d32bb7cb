//! Character-level helpers shared by the other modules: whitespace and ASCII
//! case rules, substring search, decimal rendering and message assembly.

use vstd::prelude::*;
use vstd::string::*;

verus! {

/// The code points that carry the Unicode `White_Space` property, which is
/// what `char::is_whitespace` (and therefore `str::trim`) removes.
pub open spec fn is_unicode_space(c: char) -> bool {
    let n = c as u32;
    ||| 9 <= n <= 13
    ||| n == 32
    ||| n == 0x85
    ||| n == 0xa0
    ||| n == 0x1680
    ||| 0x2000 <= n <= 0x200a
    ||| n == 0x2028
    ||| n == 0x2029
    ||| n == 0x202f
    ||| n == 0x205f
    ||| n == 0x3000
}

/// A text is blank when trimming it leaves nothing, that is, when every one of
/// its characters is white space.
pub open spec fn is_blank_text(s: Seq<char>) -> bool {
    forall|i: int| 0 <= i < s.len() ==> is_unicode_space(#[trigger] s[i])
}

/// The code of an ASCII letter folded to lower case; other characters keep
/// their code.
pub open spec fn ascii_fold(c: char) -> u32 {
    let n = c as u32;
    if 65 <= n <= 90 {
        (n + 32) as u32
    } else {
        n
    }
}

/// Equality up to ASCII case, as `str::eq_ignore_ascii_case` defines it.
pub open spec fn eq_ignore_ascii_case_text(a: Seq<char>, b: Seq<char>) -> bool {
    &&& a.len() == b.len()
    &&& forall|i: int| 0 <= i < a.len() ==> ascii_fold(#[trigger] a[i]) == ascii_fold(b[i])
}

/// `needle` occurs in `hay` starting at position `at`.
pub open spec fn occurs_at(hay: Seq<char>, needle: Seq<char>, at: int) -> bool {
    &&& 0 <= at
    &&& at + needle.len() <= hay.len()
    &&& hay.subrange(at, at + needle.len()) == needle
}

/// `needle` occurs somewhere in `hay`, as `str::contains` tests.
pub open spec fn contains_text(hay: Seq<char>, needle: Seq<char>) -> bool {
    exists|at: int| occurs_at(hay, needle, at)
}

/// The ASCII digit for a value below ten.
pub open spec fn digit_char(d: nat) -> char {
    (48 + d) as char
}

/// The decimal digits of a natural number, most significant first, without
/// leading zeros (zero is written `0`).
pub open spec fn decimal(n: nat) -> Seq<char>
    decreases n,
{
    if n < 10 {
        seq![digit_char(n)]
    } else {
        decimal(n / 10).push(digit_char(n % 10))
    }
}

/// The decimal rendering of a signed integer, as `Display` writes it.
pub open spec fn int_text(n: int) -> Seq<char> {
    if n < 0 {
        seq!['-'] + decimal((-n) as nat)
    } else {
        decimal(n as nat)
    }
}

/// What `format!("{:?}", s)` writes for a string: it is quoted and escaped
/// by the standard library's `Debug` implementation for `str`.
pub uninterp spec fn debug_text(s: Seq<char>) -> Seq<char>;

/// Appends one character (`String::push`).
#[verifier::external_body]
pub fn push_char(s: &mut String, c: char)
    ensures
        final(s)@ == old(s)@.push(c),
{
    s.push(c);
}

/// Quotes a string the way `{:?}` does (`<str as Debug>::fmt`).
#[verifier::external_body]
pub fn debug_quoted(s: &str) -> (r: String)
    ensures
        r@ == debug_text(s@),
{
    format!("{s:?}")
}

/// Compares two string slices (`<str as PartialEq>::eq`).
#[verifier::external_body]
pub fn str_eq(a: &str, b: &str) -> (r: bool)
    ensures
        r == (a@ == b@),
{
    a == b
}

/// Whether `c` is Unicode white space, as `char::is_whitespace` decides.
pub fn char_is_space(c: char) -> (r: bool)
    ensures
        r == is_unicode_space(c),
{
    let n = c as u32;
    (9 <= n && n <= 13) || n == 32 || n == 0x85 || n == 0xa0 || n == 0x1680 || (0x2000 <= n && n
        <= 0x200a) || n == 0x2028 || n == 0x2029 || n == 0x202f || n == 0x205f || n == 0x3000
}

/// Whether trimming `s` would leave the empty string.
pub fn is_blank(s: &str) -> (r: bool)
    ensures
        r == is_blank_text(s@),
{
    let n = s.unicode_len();
    let mut i: usize = 0;
    while i < n
        invariant
            n == s@.len(),
            i <= n,
            forall|j: int| 0 <= j < i ==> is_unicode_space(#[trigger] s@[j]),
        decreases n - i,
    {
        if !char_is_space(s.get_char(i)) {
            return false;
        }
        i = i + 1;
    }
    true
}

/// Folds an ASCII upper-case letter's code to lower case.
pub fn ascii_fold_code(c: char) -> (r: u32)
    ensures
        r == ascii_fold(c),
{
    let n = c as u32;
    if 65 <= n && n <= 90 {
        n + 32
    } else {
        n
    }
}

/// `str::eq_ignore_ascii_case`.
pub fn eq_ignore_ascii_case(a: &str, b: &str) -> (r: bool)
    ensures
        r == eq_ignore_ascii_case_text(a@, b@),
{
    let n = a.unicode_len();
    if n != b.unicode_len() {
        return false;
    }
    let mut i: usize = 0;
    while i < n
        invariant
            n == a@.len(),
            n == b@.len(),
            i <= n,
            forall|j: int| 0 <= j < i ==> ascii_fold(#[trigger] a@[j]) == ascii_fold(b@[j]),
        decreases n - i,
    {
        if ascii_fold_code(a.get_char(i)) != ascii_fold_code(b.get_char(i)) {
            return false;
        }
        i = i + 1;
    }
    true
}

/// Whether `needle` occurs at position `at` of `hay`.
fn occurs_at_exec(hay: &str, needle: &str, at: usize, hay_len: usize, needle_len: usize) -> (r:
    bool)
    requires
        hay_len == hay@.len(),
        needle_len == needle@.len(),
        at + needle_len <= hay_len,
    ensures
        r == occurs_at(hay@, needle@, at as int),
{
    let mut k: usize = 0;
    while k < needle_len
        invariant
            hay_len == hay@.len(),
            needle_len == needle@.len(),
            at + needle_len <= hay_len,
            k <= needle_len,
            forall|j: int| 0 <= j < k ==> hay@[at + j] == #[trigger] needle@[j],
        decreases needle_len - k,
    {
        if hay.get_char(at + k) != needle.get_char(k) {
            assert(hay@.subrange(at as int, at + needle_len)[k as int] != needle@[k as int]);
            return false;
        }
        k = k + 1;
    }
    assert(hay@.subrange(at as int, at + needle_len) =~= needle@);
    true
}

/// `str::contains` for a string pattern.
pub fn contains_str(hay: &str, needle: &str) -> (r: bool)
    ensures
        r == contains_text(hay@, needle@),
{
    let hay_len = hay.unicode_len();
    let needle_len = needle.unicode_len();
    if needle_len > hay_len {
        assert(forall|at: int| !occurs_at(hay@, needle@, at));
        return false;
    }
    let last = hay_len - needle_len;
    let mut at: usize = 0;
    while at < last
        invariant
            hay_len == hay@.len(),
            needle_len == needle@.len(),
            last == hay_len - needle_len,
            at <= last,
            forall|p: int| 0 <= p < at ==> !occurs_at(hay@, needle@, p),
        decreases last - at,
    {
        if occurs_at_exec(hay, needle, at, hay_len, needle_len) {
            return true;
        }
        at = at + 1;
    }
    if occurs_at_exec(hay, needle, last, hay_len, needle_len) {
        return true;
    }
    assert forall|p: int| !occurs_at(hay@, needle@, p) by {
        if 0 <= p < at {
        }
    }
    false
}

/// Appends the decimal digits of `n`.
pub fn push_decimal(s: &mut String, n: u64)
    ensures
        final(s)@ == old(s)@ + decimal(n as nat),
    decreases n,
{
    if n >= 10 {
        push_decimal(s, n / 10);
    }
    let d = (n % 10) as u8;
    let c = (48u8 + d) as char;
    push_char(s, c);
    assert(decimal(n as nat) =~= if n < 10 {
        seq![digit_char(n as nat)]
    } else {
        decimal((n / 10) as nat).push(digit_char((n % 10) as nat))
    });
}

/// Appends the decimal rendering of a signed integer.
pub fn push_int(s: &mut String, n: i64)
    ensures
        final(s)@ == old(s)@ + int_text(n as int),
{
    if n < 0 {
        push_char(s, '-');
        let magnitude: u64 = if n == i64::MIN {
            9223372036854775808u64
        } else {
            (-n) as u64
        };
        push_decimal(s, magnitude);
        assert(old(s)@ + int_text(n as int) =~= old(s)@.push('-') + decimal((-n) as nat));
    } else {
        push_decimal(s, n as u64);
    }
}

/// A fresh string holding the given text.
pub fn text_of(t: &str) -> (r: String)
    ensures
        r@ == t@,
{
    String::from_str(t)
}

/// `a` followed by `b`.
pub fn joined(a: &str, b: &str) -> (r: String)
    ensures
        r@ == a@ + b@,
{
    let mut s = String::from_str(a);
    s.append(b);
    s
}

/// A message with its context in front, as `{:#}` prints an error with
/// context: the context, a colon and a space, then the cause.
pub fn with_cause(context: &str, subject: &str, cause: &str) -> (r: String)
    ensures
        r@ == context@ + subject@ + ": "@ + cause@,
{
    let mut s = String::from_str(context);
    s.append(subject);
    s.append(": ");
    s.append(cause);
    s
}

} // verus!

verus! {

/// The views of a list of strings.
pub open spec fn texts(values: Seq<String>) -> Seq<Seq<char>> {
    values.map_values(|s: String| s@)
}

/// Whether every character is an ASCII digit.
pub open spec fn all_digits(s: Seq<char>) -> bool {
    forall|i: int| 0 <= i < s.len() ==> '0' <= #[trigger] s[i] <= '9'
}

/// The value of a string of decimal digits.
pub open spec fn digits_value(s: Seq<char>) -> nat
    decreases s.len(),
{
    if s.len() == 0 {
        0
    } else {
        digits_value(s.drop_last()) * 10 + (s.last() as nat - 48) as nat
    }
}

/// The value of a decimal literal with an optional `+`, as `str::parse`
/// reads an unsigned integer (before the range check).
pub open spec fn unsigned_literal(s: Seq<char>) -> Option<nat> {
    let digits = if s.len() > 0 && s[0] == '+' {
        s.skip(1)
    } else {
        s
    };
    if digits.len() > 0 && all_digits(digits) {
        Some(digits_value(digits))
    } else {
        None
    }
}

/// The value of a decimal literal with an optional `+` or `-`, as
/// `str::parse` reads a signed integer (before the range check).
pub open spec fn signed_literal(s: Seq<char>) -> Option<int> {
    if s.len() > 0 && s[0] == '-' {
        let digits = s.skip(1);
        if digits.len() > 0 && all_digits(digits) {
            Some(-digits_value(digits))
        } else {
            None
        }
    } else {
        match unsigned_literal(s) {
            Some(v) => Some(v as int),
            None => None,
        }
    }
}

/// A longer run of digits is worth at least as much as its prefix.
proof fn lemma_digits_value_prefix(s: Seq<char>, k: int)
    requires
        0 <= k <= s.len(),
        all_digits(s),
    ensures
        digits_value(s.take(k)) <= digits_value(s),
    decreases s.len() - k,
{
    if k < s.len() {
        lemma_digits_value_prefix(s, k + 1);
        assert(s.take(k + 1).drop_last() =~= s.take(k));
        assert('0' <= s[k] <= '9');
    } else {
        assert(s.take(k) =~= s);
    }
}

/// Reads the digits `s[from..]`, stopping once the value passes `limit`.
/// Returns the value when every character is a digit and it stays within
/// `limit`; `Err(true)` when a character is not a digit; `Err(false)` when
/// the digits are worth more than `limit`.
fn read_digits(s: &str, from: usize, limit: u64) -> (r: Result<u64, bool>)
    requires
        from <= s@.len(),
    ensures
        ({
            let d = s@.skip(from as int);
            match r {
                Ok(v) => all_digits(d) && v == digits_value(d) && v <= limit,
                Err(true) => !all_digits(d),
                Err(false) => all_digits(d) && digits_value(d) > limit,
            }
        }),
{
    let n = s.unicode_len();
    let ghost d = s@.skip(from as int);
    let mut value: u64 = 0;
    let mut over = false;
    let mut i: usize = from;
    while i < n
        invariant
            n == s@.len(),
            from <= i <= n,
            d == s@.skip(from as int),
            all_digits(d.take(i - from)),
            !over ==> value == digits_value(d.take(i - from)) && value <= limit,
            over ==> digits_value(d.take(i - from)) > limit,
        decreases n - i,
    {
        let c = s.get_char(i);
        assert(d[i - from] == c);
        if !('0' <= c && c <= '9') {
            assert(!all_digits(d)) by {
                assert(!('0' <= d[i - from] <= '9'));
            }
            return Err(true);
        }
        let ghost before = d.take(i - from);
        assert(d.take(i - from + 1).drop_last() =~= before);
        assert(d.take(i - from + 1).last() == c);
        if !over {
            let digit = (c as u32 - 48) as u64;
            if digit > limit || value > (limit - digit) / 10 {
                over = true;
                assert(value * 10 + digit > limit) by (nonlinear_arith)
                    requires
                        digit > limit || value > (limit - digit) / 10,
                        digit <= limit ==> (limit - digit) / 10 * 10 + 10 > limit - digit,
                ;
            } else {
                assert(value * 10 + digit <= limit) by (nonlinear_arith)
                    requires
                        value <= (limit - digit) / 10,
                        digit <= limit,
                ;
                value = value * 10 + digit;
            }
        } else {
            assert(digits_value(d.take(i - from + 1)) >= digits_value(before));
        }
        i = i + 1;
    }
    assert(d.take(n - from) =~= d);
    if over {
        Err(false)
    } else {
        Ok(value)
    }
}

} // verus!

verus! {

/// Reads an unsigned decimal integer as `str::parse::<usize>` does: an
/// optional `+`, then at least one ASCII digit, within range.
pub fn parse_usize(s: &str) -> (r: Option<usize>)
    ensures
        r == match unsigned_literal(s@) {
            Some(v) => if v <= usize::MAX {
                Some(v as usize)
            } else {
                None::<usize>
            },
            None => None::<usize>,
        },
{
    let n = s.unicode_len();
    let from: usize = if n > 0 && s.get_char(0) == '+' {
        1
    } else {
        0
    };
    assert(from == 0 ==> s@.skip(0) =~= s@);
    if from == n {
        return None;
    }
    match read_digits(s, from, usize::MAX as u64) {
        Ok(v) => Some(v as usize),
        Err(_) => None,
    }
}

/// Reads a signed decimal integer as `str::parse::<i64>` does: an optional
/// `+` or `-`, then at least one ASCII digit, within range.
pub fn parse_i64(s: &str) -> (r: Option<i64>)
    ensures
        r == match signed_literal(s@) {
            Some(v) => if i64::MIN <= v <= i64::MAX {
                Some(v as i64)
            } else {
                None::<i64>
            },
            None => None::<i64>,
        },
{
    let n = s.unicode_len();
    if n > 0 && s.get_char(0) == '-' {
        if n == 1 {
            return None;
        }
        match read_digits(s, 1, 9223372036854775808u64) {
            Ok(v) => {
                if v == 9223372036854775808u64 {
                    Some(i64::MIN)
                } else {
                    Some(-(v as i64))
                }
            },
            Err(_) => None,
        }
    } else {
        let from: usize = if n > 0 && s.get_char(0) == '+' {
            1
        } else {
            0
        };
        assert(from == 0 ==> s@.skip(0) =~= s@);
        if from == n {
            return None;
        }
        match read_digits(s, from, 9223372036854775807u64) {
            Ok(v) => Some(v as i64),
            Err(_) => None,
        }
    }
}

} // verus!
