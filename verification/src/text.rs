//! Character-level helpers: whitespace, trimming, splitting an input line
//! into its command word and argument text, and decimal integers.

use vstd::prelude::*;
use vstd::std_specs::iter::IteratorSpec;

verus! {

/// The characters that count as whitespace: the Unicode `White_Space` set.
pub open spec fn is_space(c: char) -> bool {
    let n = c as u32;
    ||| 0x09 <= n <= 0x0D
    ||| n == 0x20
    ||| n == 0x85
    ||| n == 0xA0
    ||| n == 0x1680
    ||| 0x2000 <= n <= 0x200A
    ||| n == 0x2028
    ||| n == 0x2029
    ||| n == 0x202F
    ||| n == 0x205F
    ||| n == 0x3000
}

/// `s` without its leading whitespace.
pub open spec fn trim_start(s: Seq<char>) -> Seq<char>
    decreases s.len(),
{
    if s.len() > 0 && is_space(s[0]) {
        trim_start(s.drop_first())
    } else {
        s
    }
}

/// `s` without its trailing whitespace.
pub open spec fn trim_end(s: Seq<char>) -> Seq<char>
    decreases s.len(),
{
    if s.len() > 0 && is_space(s.last()) {
        trim_end(s.drop_last())
    } else {
        s
    }
}

/// `s` without the whitespace at either end.
pub open spec fn trim(s: Seq<char>) -> Seq<char> {
    trim_end(trim_start(s))
}

/// Index of the first whitespace character of `s`, or `s.len()` if it has none.
pub open spec fn first_space(s: Seq<char>) -> int
    decreases s.len(),
{
    if s.len() == 0 || is_space(s[0]) {
        0
    } else {
        1 + first_space(s.drop_first())
    }
}

/// The command word of an input line: the trimmed line up to its first
/// whitespace character.
pub open spec fn command_part(line: Seq<char>) -> Seq<char> {
    let t = trim(line);
    t.take(first_space(t))
}

/// The argument text of an input line: what follows the command word, trimmed.
/// It is one unit; it is never split into words.
pub open spec fn args_part(line: Seq<char>) -> Seq<char> {
    let t = trim(line);
    trim(t.skip(first_space(t)))
}

/// Taking off leading whitespace removes a run of whitespace characters from
/// the front, the whole of it. Returns the length of that run.
pub proof fn lemma_trim_start(s: Seq<char>) -> (a: int)
    ensures
        0 <= a <= s.len(),
        trim_start(s) == s.skip(a),
        forall|i: int| 0 <= i < a ==> is_space(#[trigger] s[i]),
        a < s.len() ==> !is_space(s[a]),
    decreases s.len(),
{
    if s.len() > 0 && is_space(s[0]) {
        let rest = s.drop_first();
        let inner = lemma_trim_start(rest);
        assert(rest.skip(inner) =~= s.skip(inner + 1));
        assert forall|i: int| 0 <= i < inner + 1 implies is_space(#[trigger] s[i]) by {
            if i > 0 {
                assert(s[i] == rest[i - 1]);
            }
        }
        inner + 1
    } else {
        assert(s.skip(0) =~= s);
        0
    }
}

/// Taking off trailing whitespace removes a run of whitespace characters from
/// the back, the whole of it. Returns where that run begins.
pub proof fn lemma_trim_end(s: Seq<char>) -> (b: int)
    ensures
        0 <= b <= s.len(),
        trim_end(s) == s.take(b),
        forall|i: int| b <= i < s.len() ==> is_space(#[trigger] s[i]),
        0 < b ==> !is_space(s[b - 1]),
    decreases s.len(),
{
    if s.len() > 0 && is_space(s.last()) {
        let init = s.drop_last();
        let inner = lemma_trim_end(init);
        assert(init.take(inner) =~= s.take(inner));
        assert forall|i: int| inner <= i < s.len() implies is_space(#[trigger] s[i]) by {
            if i < init.len() {
                assert(s[i] == init[i]);
            }
        }
        inner
    } else {
        assert(s.take(s.len() as int) =~= s);
        s.len() as int
    }
}

/// Trimming takes off whitespace and nothing else, and leaves none at either
/// end: what remains is `s` from `a` to `b`, all before `a` and from `b` on
/// is whitespace, and what remains neither begins nor ends with whitespace.
pub proof fn lemma_trim(s: Seq<char>) -> (bounds: (int, int))
    ensures
        ({
            let (a, b) = bounds;
            &&& 0 <= a <= b <= s.len()
            &&& trim(s) == s.subrange(a, b)
            &&& forall|i: int| 0 <= i < a || b <= i < s.len() ==> is_space(#[trigger] s[i])
            &&& a < b ==> !is_space(s[a]) && !is_space(s[b - 1])
        }),
{
    let a = lemma_trim_start(s);
    let rest = s.skip(a);
    let kept = lemma_trim_end(rest);
    let b = a + kept;
    assert(rest.take(kept) =~= s.subrange(a, b));
    assert forall|i: int| 0 <= i < a || b <= i < s.len() implies is_space(#[trigger] s[i]) by {
        if b <= i {
            assert(s[i] == rest[i - a]);
        }
    }
    if a < b {
        assert(rest[0] == s[a]);
        assert(rest[kept - 1] == s[b - 1]);
    }
    (a, b)
}

/// `first_space` is the position of the first whitespace character.
pub proof fn lemma_first_space(s: Seq<char>)
    ensures
        0 <= first_space(s) <= s.len(),
        first_space(s) < s.len() ==> is_space(s[first_space(s)]),
        forall|i: int| 0 <= i < first_space(s) ==> !is_space(#[trigger] s[i]),
    decreases s.len(),
{
    if s.len() == 0 || is_space(s[0]) {
    } else {
        let rest = s.drop_first();
        lemma_first_space(rest);
        assert forall|i: int| 0 <= i < first_space(s) implies !is_space(#[trigger] s[i]) by {
            if i > 0 {
                assert(s[i] == rest[i - 1]);
            }
        }
    }
}

/// A position with a whitespace character (or the end) before which there is
/// none is `first_space`.
pub proof fn lemma_first_space_is(s: Seq<char>, k: int)
    requires
        0 <= k <= s.len(),
        k < s.len() ==> is_space(s[k]),
        forall|i: int| 0 <= i < k ==> !is_space(#[trigger] s[i]),
    ensures
        first_space(s) == k,
{
    lemma_first_space(s);
    let f = first_space(s);
    if f < k {
        assert(!is_space(s[f]));
    } else if k < f {
        assert(!is_space(s[k]));
    }
}

/// The two parts of a line lie in it one after the other, untouched: the
/// command word is `line` from `a` to `k` and holds no whitespace; the
/// argument text is `line` from `c` to `d` and neither begins nor ends with
/// whitespace; all the rest of the line is whitespace.
pub proof fn lemma_line_parts(line: Seq<char>) -> (at: (int, int, int, int))
    ensures
        ({
            let (a, k, c, d) = at;
            &&& 0 <= a <= k <= c <= d <= line.len()
            &&& command_part(line) == line.subrange(a, k)
            &&& args_part(line) == line.subrange(c, d)
            &&& forall|i: int| a <= i < k ==> !is_space(#[trigger] line[i])
            &&& forall|i: int|
                0 <= i < a || k <= i < c || d <= i < line.len() ==> is_space(#[trigger] line[i])
            &&& c < d ==> !is_space(line[c]) && !is_space(line[d - 1])
        }),
{
    let (a, b) = lemma_trim(line);
    let t = line.subrange(a, b);
    let f = first_space(t);
    lemma_first_space(t);
    let k = a + f;
    let rest = t.skip(f);
    assert(t.take(f) =~= line.subrange(a, k));
    assert(rest =~= line.subrange(k, b));
    let (c0, d0) = lemma_trim(rest);
    let c = k + c0;
    let d = k + d0;
    assert(rest.subrange(c0, d0) =~= line.subrange(c, d));
    assert forall|i: int| a <= i < k implies !is_space(#[trigger] line[i]) by {
        assert(line[i] == t[i - a]);
    }
    assert forall|i: int|
        0 <= i < a || k <= i < c || d <= i < line.len() implies is_space(#[trigger] line[i]) by {
        if k <= i < b {
            assert(line[i] == rest[i - k]);
        }
    }
    if c < d {
        assert(line[c] == rest[c0]);
        assert(line[d - 1] == rest[d0 - 1]);
    }
    (a, k, c, d)
}

/// Whether `c` is a whitespace character.
pub fn is_whitespace(c: char) -> (b: bool)
    ensures
        b == is_space(c),
{
    let n: u32 = c as u32;
    (0x09 <= n && n <= 0x0D) || n == 0x20 || n == 0x85 || n == 0xA0 || n == 0x1680 || (0x2000 <= n
        && n <= 0x200A) || n == 0x2028 || n == 0x2029 || n == 0x202F || n == 0x205F || n == 0x3000
}

/// The characters of `s`, in order, as an indexable vector.
pub fn chars_of(s: &str) -> (out: Vec<char>)
    ensures
        out@ == s@,
{
    let mut out: Vec<char> = Vec::new();
    for c in it: s.chars()
        invariant
            out@ == s@.take(it.index() as int),
            it.seq() == s@,
    {
        out.push(c);
    }
    out
}

/// Whether two strings hold the same characters.
pub fn same_text(a: &str, b: &str) -> (same: bool)
    ensures
        same == (a@ == b@),
{
    let x = chars_of(a);
    let y = chars_of(b);
    if x.len() != y.len() {
        return false;
    }
    let mut i: usize = 0;
    while i < x.len()
        invariant
            i <= x.len(),
            x.len() == y.len(),
            x@ == a@,
            y@ == b@,
            forall|j: int| 0 <= j < i ==> x@[j] == y@[j],
        decreases x.len() - i,
    {
        if x[i] != y[i] {
            return false;
        }
        i += 1;
    }
    assert(x@ =~= y@);
    true
}

/// The bounds, inside `s`, of `s[from..to]` with the whitespace at either end
/// taken off.
fn trim_range(s: &Vec<char>, from: usize, to: usize) -> (r: (usize, usize))
    requires
        from <= to <= s.len(),
    ensures
        from <= r.0 <= r.1 <= to,
        s@.subrange(r.0 as int, r.1 as int) == trim(s@.subrange(from as int, to as int)),
{
    let mut a: usize = from;
    while a < to && is_whitespace(s[a])
        invariant
            from <= a <= to <= s.len(),
            trim_start(s@.subrange(from as int, to as int)) == trim_start(
                s@.subrange(a as int, to as int),
            ),
        decreases to - a,
    {
        assert(s@.subrange(a as int, to as int).drop_first() =~= s@.subrange(a + 1, to as int));
        a += 1;
    }
    let mut b: usize = to;
    while a < b && is_whitespace(s[b - 1])
        invariant
            a <= b <= to <= s.len(),
            trim_end(s@.subrange(a as int, to as int)) == trim_end(s@.subrange(a as int, b as int)),
        decreases b - a,
    {
        assert(s@.subrange(a as int, b as int).drop_last() =~= s@.subrange(a as int, b - 1));
        b -= 1;
    }
    (a, b)
}

/// Splits an input line into its command word and its argument text.
///
/// The line is trimmed and cut at its first whitespace character; what
/// follows the cut is trimmed again and kept as one unit.
pub fn parse_line(input: &str) -> (parts: (String, String))
    ensures
        parts.0@ == command_part(input@),
        parts.1@ == args_part(input@),
{
    let chars = chars_of(input);
    let (a, b) = trim_range(&chars, 0, chars.len());
    assert(chars@.subrange(0, chars.len() as int) =~= chars@);
    let ghost t = chars@.subrange(a as int, b as int);
    let mut k: usize = a;
    while k < b && !is_whitespace(chars[k])
        invariant
            a <= k <= b <= chars.len(),
            t == chars@.subrange(a as int, b as int),
            forall|i: int| 0 <= i < k - a ==> !is_space(#[trigger] t[i]),
        decreases b - k,
    {
        k += 1;
    }
    proof {
        lemma_first_space_is(t, k - a);
        assert(t.take(k - a) =~= chars@.subrange(a as int, k as int));
        assert(t.skip(k - a) =~= chars@.subrange(k as int, b as int));
    }
    let (c, d) = trim_range(&chars, k, b);
    let command = input.substring_char(a, k).to_owned();
    let args = input.substring_char(c, d).to_owned();
    (command, args)
}

/// Whether `c` is one of the ten decimal digits.
pub open spec fn is_digit(c: char) -> bool {
    '0' <= c <= '9'
}

/// The number that a decimal digit stands for.
pub open spec fn digit_value(c: char) -> int {
    c as int - '0' as int
}

/// Whether `s` holds decimal digits only.
pub open spec fn all_digits(s: Seq<char>) -> bool {
    forall|i: int| 0 <= i < s.len() ==> is_digit(#[trigger] s[i])
}

/// The number that a string of decimal digits denotes.
pub open spec fn decimal_value(s: Seq<char>) -> int
    decreases s.len(),
{
    if s.len() == 0 {
        0
    } else {
        10 * decimal_value(s.drop_last()) + digit_value(s.last())
    }
}

/// The digits of a signed decimal numeral: `s` without its leading sign, if any.
pub open spec fn unsigned_part(s: Seq<char>) -> Seq<char> {
    if s.len() > 0 && (s[0] == '-' || s[0] == '+') {
        s.drop_first()
    } else {
        s
    }
}

/// The 32-bit signed integer that `s` denotes: an optional `+` or `-`, then one
/// or more decimal digits, and nothing else. `None` if `s` is not of that
/// form or the number does not fit.
pub open spec fn parse_integer(s: Seq<char>) -> Option<int> {
    let digits = unsigned_part(s);
    let magnitude = decimal_value(digits);
    let value = if s.len() > 0 && s[0] == '-' {
        -magnitude
    } else {
        magnitude
    };
    if digits.len() > 0 && all_digits(digits) && i32::MIN <= value <= i32::MAX {
        Some(value)
    } else {
        None
    }
}

/// A longer string of digits denotes no smaller a number than its prefixes.
proof fn lemma_decimal_value_prefix(s: Seq<char>, k: int)
    requires
        all_digits(s),
        0 <= k <= s.len(),
    ensures
        0 <= decimal_value(s.take(k)) <= decimal_value(s),
    decreases s.len(),
{
    if k == s.len() {
        assert(s.take(k) =~= s);
        if s.len() > 0 {
            lemma_decimal_value_prefix(s.drop_last(), k - 1);
            assert(is_digit(s.last()));
        }
    } else {
        let init = s.drop_last();
        assert(is_digit(s.last()));
        assert(init.take(k) =~= s.take(k));
        lemma_decimal_value_prefix(init, k);
        lemma_decimal_value_prefix(init, init.len() as int);
    }
}

/// Reads a 32-bit signed decimal integer.
pub fn parse_i32(s: &str) -> (r: Option<i32>)
    ensures
        match r {
            Some(v) => parse_integer(s@) == Some(v as int),
            None => parse_integer(s@) is None,
        },
{
    let chars = chars_of(s);
    let n = chars.len();
    if n == 0 {
        return None;
    }
    let negative = chars[0] == '-';
    let start: usize = if chars[0] == '-' || chars[0] == '+' {
        1
    } else {
        0
    };
    if start == n {
        return None;
    }
    let ghost digits = unsigned_part(s@);
    assert(digits =~= chars@.subrange(start as int, n as int));
    let mut acc: i64 = 0;
    let mut i: usize = start;
    while i < n
        invariant
            start <= i <= n == chars.len(),
            chars@ == s@,
            digits == unsigned_part(s@),
            digits == chars@.subrange(start as int, n as int),
            all_digits(digits.take(i - start)),
            acc == decimal_value(digits.take(i - start)),
            0 <= acc <= 0x8000_0000,
        decreases n - i,
    {
        let c = chars[i];
        if !('0' <= c && c <= '9') {
            assert(!is_digit(digits[i - start]));
            return None;
        }
        let d: i64 = (c as u32 - '0' as u32) as i64;
        proof {
            let next = digits.take(i - start + 1);
            assert(next.drop_last() =~= digits.take(i - start));
            assert(next.last() == c);
            assert(all_digits(next));
        }
        acc = acc * 10 + d;
        i += 1;
        if acc > 0x8000_0000 {
            proof {
                if all_digits(digits) {
                    lemma_decimal_value_prefix(digits, i - start);
                }
            }
            return None;
        }
    }
    assert(digits.take(i - start) =~= digits);
    if negative {
        Some((-acc) as i32)
    } else if acc <= 0x7fff_ffff {
        Some(acc as i32)
    } else {
        None
    }
}

/// The character that stands for the digit `d`.
pub open spec fn digit_char(d: int) -> char {
    seq!['0', '1', '2', '3', '4', '5', '6', '7', '8', '9'][d]
}

/// The decimal digits of `n`, without leading zeros.
pub open spec fn decimal_digits(n: nat) -> Seq<char>
    decreases n,
{
    if n < 10 {
        seq![digit_char(n as int)]
    } else {
        decimal_digits(n / 10).push(digit_char((n % 10) as int))
    }
}

/// `n` written in decimal, with a `-` in front if it is negative.
pub open spec fn decimal_text(n: int) -> Seq<char> {
    if n < 0 {
        seq!['-'] + decimal_digits((-n) as nat)
    } else {
        decimal_digits(n as nat)
    }
}

/// The character for a digit is a digit, and stands for it.
proof fn lemma_digit_char(d: int)
    requires
        0 <= d < 10,
    ensures
        is_digit(digit_char(d)),
        digit_value(digit_char(d)) == d,
{
}

/// The decimal digits of a number are digits, at least one, and denote it.
pub proof fn lemma_decimal_digits(n: nat)
    ensures
        decimal_digits(n).len() > 0,
        all_digits(decimal_digits(n)),
        decimal_value(decimal_digits(n)) == n,
    decreases n,
{
    let digits = decimal_digits(n);
    lemma_digit_char((n % 10) as int);
    if n < 10 {
        assert(digits.drop_last() =~= Seq::<char>::empty());
        assert(decimal_value(digits.drop_last()) == 0);
    } else {
        let init = decimal_digits(n / 10);
        lemma_decimal_digits(n / 10);
        assert(digits.drop_last() =~= init);
        assert forall|i: int| 0 <= i < digits.len() implies is_digit(#[trigger] digits[i]) by {
            if i < init.len() {
                assert(digits[i] == init[i]);
            }
        }
    }
}

/// A number that fits 32 bits, written in decimal and read back, is the
/// number.
pub proof fn lemma_written_number_reads_back(n: int)
    requires
        i32::MIN <= n <= i32::MAX,
    ensures
        parse_integer(decimal_text(n)) == Some(n),
{
    let text = decimal_text(n);
    if n < 0 {
        let digits = decimal_digits((-n) as nat);
        lemma_decimal_digits((-n) as nat);
        assert(text.drop_first() =~= digits);
    } else {
        lemma_decimal_digits(n as nat);
        assert(is_digit(text[0]));
    }
}

/// The digit `d` as a string.
fn digit_str(d: u32) -> (s: &'static str)
    requires
        d < 10,
    ensures
        s@ == seq![digit_char(d as int)],
{
    proof {
        reveal_strlit("0");
        reveal_strlit("1");
        reveal_strlit("2");
        reveal_strlit("3");
        reveal_strlit("4");
        reveal_strlit("5");
        reveal_strlit("6");
        reveal_strlit("7");
        reveal_strlit("8");
        reveal_strlit("9");
    }
    let s = if d == 0 {
        "0"
    } else if d == 1 {
        "1"
    } else if d == 2 {
        "2"
    } else if d == 3 {
        "3"
    } else if d == 4 {
        "4"
    } else if d == 5 {
        "5"
    } else if d == 6 {
        "6"
    } else if d == 7 {
        "7"
    } else if d == 8 {
        "8"
    } else {
        "9"
    };
    assert(s@ =~= seq![digit_char(d as int)]);
    s
}

/// Writes the decimal digits of `n` at the end of `out`.
fn append_digits(out: &mut String, n: u32)
    ensures
        final(out)@ == old(out)@ + decimal_digits(n as nat),
    decreases n,
{
    if n >= 10 {
        append_digits(out, n / 10);
    }
    out.append(digit_str(n % 10));
    assert(out@ =~= old(out)@ + decimal_digits(n as nat));
}

/// Writes `n` in decimal.
pub fn render_i32(n: i32) -> (out: String)
    ensures
        out@ == decimal_text(n as int),
{
    let mut out = String::new();
    if n < 0 {
        proof {
            reveal_strlit("-");
            assert("-"@ =~= seq!['-']);
        }
        out.append("-");
        let magnitude: u32 = (-(n as i64)) as u32;
        append_digits(&mut out, magnitude);
    } else {
        append_digits(&mut out, n as u32);
    }
    assert(out@ =~= decimal_text(n as int));
    out
}

} // verus!
