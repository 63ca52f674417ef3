//! Text as sequences of characters: the operations that the rest of the crate states its
//! messages and its parsing in.
use vstd::prelude::*;
use vstd::string::*;

verus! {

/// `pat` stands in `s` at position `i`.
pub open spec fn occurs_at(s: Seq<char>, pat: Seq<char>, i: int) -> bool {
    &&& 0 <= i
    &&& i + pat.len() <= s.len()
    &&& s.subrange(i, i + pat.len()) == pat
}

/// `pat` stands somewhere in `s`.
pub open spec fn occurs(s: Seq<char>, pat: Seq<char>) -> bool {
    exists|i: int| occurs_at(s, pat, i)
}

/// `s` with every occurrence of `pat` replaced by `by`. Occurrences are taken from left to
/// right and do not overlap; what was put in is not searched again.
pub open spec fn replaced(s: Seq<char>, pat: Seq<char>, by: Seq<char>) -> Seq<char>
    recommends
        pat.len() > 0,
    decreases s.len(),
{
    if s.len() == 0 || pat.len() == 0 {
        s
    } else if occurs_at(s, pat, 0) {
        by + replaced(s.skip(pat.len() as int), pat, by)
    } else {
        seq![s[0]] + replaced(s.skip(1), pat, by)
    }
}

/// Whether two texts hold the same characters.
pub fn same_text(a: &str, b: &str) -> (r: bool)
    ensures
        r == (a@ == b@),
{
    a.to_owned() == b.to_owned()
}

/// The standard library's `String::push`. Trusted: it appends the character to the end of the
/// string.
pub assume_specification[ String::push ](s: &mut String, c: char)
    ensures
        final(s)@ == old(s)@.push(c),
;

/// The characters of a text.
fn characters(s: &str) -> (r: Vec<char>)
    ensures
        r@ == s@,
{
    let mut chars: Vec<char> = Vec::new();
    for c in it: s.chars()
        invariant
            it.seq() == s@,
            chars@ == s@.take(it.index()),
    {
        proof {
            assert(s@.take(it.index() + 1) == s@.take(it.index()).push(c));
        }
        chars.push(c);
    }
    proof {
        assert(s@.take(s@.len() as int) == s@);
    }
    chars
}

/// Whether `pat` stands in `s` at position `i`.
fn stands_at(s: &Vec<char>, pat: &Vec<char>, i: usize) -> (r: bool)
    requires
        i <= s@.len(),
    ensures
        r == occurs_at(s@, pat@, i as int),
{
    let n: usize = s.len();
    if pat.len() > n - i {
        return false;
    }
    let mut k: usize = 0;
    while k < pat.len()
        invariant
            k <= pat@.len(),
            n == s@.len(),
            i + pat@.len() <= n,
            forall|j: int| 0 <= j < k ==> s@[i + j] == #[trigger] pat@[j],
        decreases pat@.len() - k,
    {
        if s[i + k] != pat[k] {
            assert(s@.subrange(i as int, i + pat@.len())[k as int] != pat@[k as int]);
            return false;
        }
        k = k + 1;
    }
    assert(s@.subrange(i as int, i + pat@.len()) =~= pat@);
    true
}

/// Replaces every occurrence of `pat` in `s`, from left to right.
pub fn replace_all(s: &str, pat: &str, by: &str) -> (r: String)
    requires
        pat@.len() > 0,
    ensures
        r@ == replaced(s@, pat@, by@),
{
    let chars: Vec<char> = characters(s);
    let pattern: Vec<char> = characters(pat);
    let mut out: String = String::new();
    let mut i: usize = 0;
    proof {
        assert(s@.skip(0) == s@);
    }
    while i < chars.len()
        invariant
            chars@ == s@,
            pattern@ == pat@,
            pat@.len() > 0,
            i <= s@.len(),
            out@ + replaced(s@.skip(i as int), pat@, by@) == replaced(s@, pat@, by@),
        decreases s@.len() - i,
    {
        let ghost rest = s@.skip(i as int);
        let ghost before = out@;
        proof {
            lemma_occurs_in_rest(s@, pat@, i as int);
        }
        if stands_at(&chars, &pattern, i) {
            out.append(by);
            i = i + pattern.len();
            proof {
                assert(rest.skip(pat@.len() as int) == s@.skip(i as int));
                assert(before + (by@ + replaced(s@.skip(i as int), pat@, by@)) == out@ + replaced(
                    s@.skip(i as int),
                    pat@,
                    by@,
                ));
            }
        } else {
            out.push(chars[i]);
            i = i + 1;
            proof {
                assert(rest.skip(1) == s@.skip(i as int));
                assert(before + (seq![rest[0]] + replaced(s@.skip(i as int), pat@, by@)) == out@
                    + replaced(s@.skip(i as int), pat@, by@));
            }
        }
    }
    proof {
        assert(s@.skip(s@.len() as int) == Seq::<char>::empty());
        assert(out@ + Seq::<char>::empty() == out@);
    }
    out
}

/// What stands in `s` at position `i` stands at the start of the rest of `s` from there on.
proof fn lemma_occurs_in_rest(s: Seq<char>, pat: Seq<char>, i: int)
    requires
        0 <= i <= s.len(),
    ensures
        occurs_at(s, pat, i) == occurs_at(s.skip(i), pat, 0),
{
    if i + pat.len() <= s.len() {
        assert(s.skip(i).subrange(0, pat.len() as int) == s.subrange(i, i + pat.len()));
    }
}

/// A text that holds `pat` holds `by` after the replacement.
pub proof fn lemma_replaced_holds_replacement(s: Seq<char>, pat: Seq<char>, by: Seq<char>)
    requires
        pat.len() > 0,
        occurs(s, pat),
    ensures
        occurs(replaced(s, pat, by), by),
    decreases s.len(),
{
    let out = replaced(s, pat, by);
    if occurs_at(s, pat, 0) {
        assert(out.subrange(0, by.len() as int) == by);
        assert(occurs_at(out, by, 0));
    } else {
        let i = choose|i: int| occurs_at(s, pat, i);
        let rest = s.skip(1);
        assert(rest.subrange(i - 1, i - 1 + pat.len()) == s.subrange(i, i + pat.len()));
        assert(occurs_at(rest, pat, i - 1));
        lemma_replaced_holds_replacement(rest, pat, by);
        let tail = replaced(rest, pat, by);
        let j = choose|j: int| occurs_at(tail, by, j);
        assert(out.subrange(j + 1, j + 1 + by.len()) == tail.subrange(j, j + by.len()));
        assert(occurs_at(out, by, j + 1));
    }
}

/// A text without `pat` is left as it is.
pub proof fn law_replaced_without_occurrence(s: Seq<char>, pat: Seq<char>, by: Seq<char>)
    requires
        !occurs(s, pat),
    ensures
        replaced(s, pat, by) == s,
    decreases s.len(),
{
    if s.len() > 0 && pat.len() > 0 {
        let rest = s.skip(1);
        assert(!occurs_at(s, pat, 0));
        assert(!occurs(rest, pat)) by {
            if occurs(rest, pat) {
                let i = choose|i: int| occurs_at(rest, pat, i);
                assert(s.subrange(i + 1, i + 1 + pat.len()) == rest.subrange(i, i + pat.len()));
                assert(occurs_at(s, pat, i + 1));
            }
        }
        law_replaced_without_occurrence(rest, pat, by);
        assert(seq![s[0]] + rest == s);
    }
}

/// The characters with the Unicode property `White_Space`.
pub open spec fn is_white_space(c: char) -> bool {
    let n = c as u32;
    ||| 0x09 <= n <= 0x0d
    ||| n == 0x20
    ||| n == 0x85
    ||| n == 0xa0
    ||| n == 0x1680
    ||| 0x2000 <= n <= 0x200a
    ||| n == 0x2028
    ||| n == 0x2029
    ||| n == 0x202f
    ||| n == 0x205f
    ||| n == 0x3000
}

/// Whether `c` has the Unicode property `White_Space`.
pub fn white_space(c: char) -> (r: bool)
    ensures
        r == is_white_space(c),
{
    let n: u32 = c as u32;
    (0x09 <= n && n <= 0x0d) || n == 0x20 || n == 0x85 || n == 0xa0 || n == 0x1680 || (0x2000 <= n
        && n <= 0x200a) || n == 0x2028 || n == 0x2029 || n == 0x202f || n == 0x205f || n == 0x3000
}

/// Nothing but white space is left of a blank text: trimming it gives the empty text.
pub open spec fn is_blank(s: Seq<char>) -> bool {
    forall|i: int| 0 <= i < s.len() ==> is_white_space(#[trigger] s[i])
}

/// Whether a text is empty or holds nothing but white space.
pub fn blank(s: &str) -> (r: bool)
    ensures
        r == is_blank(s@),
{
    for c in it: s.chars()
        invariant
            it.seq() == s@,
            forall|j: int| 0 <= j < it.index() ==> is_white_space(#[trigger] s@[j]),
    {
        if !white_space(c) {
            assert(!is_white_space(s@[it.index()]));
            return false;
        }
    }
    true
}

/// `s` without the run of `c` that it ends in.
pub open spec fn without_trailing(s: Seq<char>, c: char) -> Seq<char>
    decreases s.len(),
{
    if s.len() > 0 && s.last() == c {
        without_trailing(s.drop_last(), c)
    } else {
        s
    }
}

/// What is cut off is a run of `c`, what is left does not end in `c`, and the two make up `s`.
pub proof fn law_without_trailing(s: Seq<char>, c: char)
    ensures
        without_trailing(s, c).len() <= s.len(),
        without_trailing(s, c) == s.take(without_trailing(s, c).len() as int),
        without_trailing(s, c).len() > 0 ==> without_trailing(s, c).last() != c,
        forall|i: int| without_trailing(s, c).len() <= i < s.len() ==> #[trigger] s[i] == c,
    decreases s.len(),
{
    if s.len() > 0 && s.last() == c {
        law_without_trailing(s.drop_last(), c);
        let n = without_trailing(s, c).len() as int;
        assert(s.drop_last().take(n) == s.take(n));
        assert forall|i: int| n <= i < s.len() implies #[trigger] s[i] == c by {
            if i < s.len() - 1 {
                assert(s.drop_last()[i] == c);
            }
        }
    } else {
        assert(s.take(s.len() as int) == s);
    }
}

/// Cuts the run of `c` off the end of `s`.
pub fn trim_trailing<'a>(s: &'a str, c: char) -> (r: &'a str)
    ensures
        r@ == without_trailing(s@, c),
{
    let chars: Vec<char> = characters(s);
    let mut n: usize = chars.len();
    proof {
        assert(s@.take(n as int) == s@);
    }
    while n > 0 && chars[n - 1] == c
        invariant
            chars@ == s@,
            n <= s@.len(),
            without_trailing(s@.take(n as int), c) == without_trailing(s@, c),
        ensures
            n <= s@.len(),
            without_trailing(s@.take(n as int), c) == without_trailing(s@, c),
            n == 0 || s@[n - 1] != c,
        decreases n,
    {
        proof {
            assert(s@.take(n as int).drop_last() == s@.take(n - 1));
        }
        n = n - 1;
    }
    proof {
        assert(s@.take(n as int) == s@.subrange(0, n as int));
    }
    s.substring_char(0, n)
}

/// The value of a decimal digit.
pub open spec fn digit_value(c: char) -> int {
    c as int - '0' as int
}

/// `c` is one of `0` to `9`.
pub open spec fn is_digit(c: char) -> bool {
    '0' <= c <= '9'
}

/// The number that a sequence of decimal digits writes.
pub open spec fn digits_value(s: Seq<char>) -> int
    decreases s.len(),
{
    if s.len() == 0 {
        0
    } else {
        10 * digits_value(s.drop_last()) + digit_value(s.last())
    }
}

/// `s` is at least one digit and nothing else.
pub open spec fn is_digits(s: Seq<char>) -> bool {
    &&& s.len() > 0
    &&& forall|i: int| 0 <= i < s.len() ==> is_digit(#[trigger] s[i])
}

/// The number that `s` writes, where it writes one below 65536: an optional `+`, then decimal
/// digits and nothing else.
pub open spec fn u16_written(s: Seq<char>) -> Option<u16> {
    let digits = if s.len() > 0 && s[0] == '+' {
        s.skip(1)
    } else {
        s
    };
    if is_digits(digits) && digits_value(digits) <= u16::MAX {
        Some(digits_value(digits) as u16)
    } else {
        None
    }
}

/// A run of digits writes no less than its beginning does.
proof fn lemma_digits_value_grows(s: Seq<char>, n: int)
    requires
        forall|i: int| 0 <= i < s.len() ==> is_digit(#[trigger] s[i]),
        0 <= n <= s.len(),
    ensures
        0 <= digits_value(s.take(n)) <= digits_value(s),
    decreases s.len(),
{
    if n == s.len() {
        assert(s.take(n) == s);
        if n > 0 {
            lemma_digits_value_grows(s.drop_last(), n - 1);
            assert(is_digit(s[n - 1]));
        }
    } else {
        lemma_digits_value_grows(s.drop_last(), n);
        assert(s.drop_last().take(n) == s.take(n));
        assert(is_digit(s[s.len() - 1]));
    }
}

/// Reads a number below 65536 from its decimal digits.
pub fn parse_u16(s: &str) -> (r: Option<u16>)
    ensures
        r == u16_written(s@),
{
    let chars: Vec<char> = characters(s);
    let n: usize = chars.len();
    let start: usize = if n > 0 && chars[0] == '+' {
        1
    } else {
        0
    };
    let ghost digits = s@.skip(start as int);
    proof {
        assert(s@.skip(0) == s@);
    }
    if start == n {
        return None;
    }
    let mut i: usize = start;
    let mut value: u32 = 0;
    proof {
        assert(digits.take(0) == Seq::<char>::empty());
    }
    while i < n
        invariant
            chars@ == s@,
            n == s@.len(),
            start <= i <= n,
            start < n,
            digits == s@.skip(start as int),
            u16_written(s@) == (if is_digits(digits) && digits_value(digits) <= u16::MAX {
                Some(digits_value(digits) as u16)
            } else {
                None::<u16>
            }),
            forall|j: int| 0 <= j < i - start ==> is_digit(#[trigger] digits[j]),
            value == digits_value(digits.take(i - start)),
            value <= u16::MAX,
        decreases n - i,
    {
        let c: char = chars[i];
        assert(c == digits[i - start]);
        if !('0' <= c && c <= '9') {
            assert(!is_digit(digits[i - start]));
            return None;
        }
        let d: u32 = c as u32 - '0' as u32;
        value = 10 * value + d;
        proof {
            assert(digits.take(i - start + 1).drop_last() == digits.take(i - start));
            assert(digits.take(i - start + 1).last() == c);
        }
        if value > 65535 {
            proof {
                if is_digits(digits) {
                    lemma_digits_value_grows(digits, i - start + 1);
                }
            }
            return None;
        }
        i = i + 1;
    }
    proof {
        assert(digits.take(n - start) == digits);
    }
    Some(value as u16)
}

/// The decimal digit of `d`.
pub open spec fn digit_char(d: int) -> char
    recommends
        0 <= d < 10,
{
    ('0' as int + d) as char
}

/// The shortest decimal writing of `n`.
pub open spec fn decimal(n: nat) -> Seq<char>
    decreases n,
{
    if n < 10 {
        seq![digit_char(n as int)]
    } else {
        decimal(n / 10).push(digit_char((n % 10) as int))
    }
}

/// The digits of `0` to `9`, in order.
const DIGITS: &'static str = "0123456789";

/// Writes `n` in decimal.
pub fn decimal_text(n: u16) -> (r: String)
    ensures
        r@ == decimal(n as nat),
    decreases n,
{
    let d: usize = (n % 10) as usize;
    proof {
        reveal_strlit("0123456789");
        assert(DIGITS@.subrange(d as int, d + 1) == seq![digit_char(d as int)]);
    }
    let last: &str = DIGITS.substring_char(d, d + 1);
    if n < 10 {
        last.to_owned()
    } else {
        let mut r: String = decimal_text(n / 10);
        r.append(last);
        proof {
            assert(r@ == decimal(n as nat / 10).push(digit_char(d as int)));
        }
        r
    }
}

/// A number is read back from its decimal writing.
pub proof fn lemma_decimal_reads_back(n: u16)
    ensures
        u16_written(decimal(n as nat)) == Some(n),
{
    lemma_decimal_digits(n as nat);
    let s = decimal(n as nat);
    assert(is_digit(s[0]));
}

/// A decimal writing is made of digits, and they write the number.
proof fn lemma_decimal_digits(n: nat)
    ensures
        is_digits(decimal(n)),
        digits_value(decimal(n)) == n,
    decreases n,
{
    let s = decimal(n);
    if n < 10 {
        assert(s.drop_last() == Seq::<char>::empty());
        assert(digits_value(s.drop_last()) == 0);
    } else {
        lemma_decimal_digits(n / 10);
        assert(s.drop_last() == decimal(n / 10));
    }
}

// ---------------------------------------------------------------------------
// What the operations are for
// ---------------------------------------------------------------------------

/// Where `a + pat + b` holds no `pat` that starts before the one in the middle, that one gives
/// way to `by`, what stands before it is kept, and the replacement goes on behind it.
pub proof fn law_first_occurrence_gives_way(
    a: Seq<char>,
    pat: Seq<char>,
    b: Seq<char>,
    by: Seq<char>,
)
    requires
        pat.len() > 0,
        forall|x: Seq<char>, y: Seq<char>|
            a + pat + b == #[trigger] (x + pat + y) ==> x.len() >= a.len(),
    ensures
        replaced(a + pat + b, pat, by) == a + by + replaced(b, pat, by),
    decreases a.len(),
{
    let s = a + pat + b;
    let m = pat.len() as int;
    if a.len() == 0 {
        assert(s.subrange(0, m) == pat);
        assert(s.skip(m) == b);
        assert(by + replaced(b, pat, by) == a + by + replaced(b, pat, by));
    } else {
        assert(!occurs_at(s, pat, 0)) by {
            if occurs_at(s, pat, 0) {
                let x = Seq::<char>::empty();
                assert(s == x + pat + s.skip(m));
            }
        }
        let rest = a.skip(1);
        assert(s.skip(1) == rest + pat + b);
        assert forall|x: Seq<char>, y: Seq<char>|
            rest + pat + b == #[trigger] (x + pat + y) implies x.len() >= rest.len() by {
            let x1 = seq![a[0]] + x;
            assert(s == seq![a[0]] + (rest + pat + b));
            assert(seq![a[0]] + (x + pat + y) == x1 + pat + y);
        }
        law_first_occurrence_gives_way(rest, pat, b, by);
        let tail = replaced(b, pat, by);
        assert(seq![s[0]] + (rest + by + tail) == a + by + tail);
    }
}

/// A text that is not made up of `pat` and something before and after it is left as it is.
pub proof fn law_other_text_is_kept(s: Seq<char>, pat: Seq<char>, by: Seq<char>)
    requires
        pat.len() > 0,
        forall|x: Seq<char>, y: Seq<char>| s != #[trigger] (x + pat + y),
    ensures
        replaced(s, pat, by) == s,
{
    assert(!occurs(s, pat)) by {
        if occurs(s, pat) {
            let i = choose|i: int| occurs_at(s, pat, i);
            assert(s == s.take(i) + pat + s.skip(i + pat.len()));
        }
    }
    law_replaced_without_occurrence(s, pat, by);
}

/// Where `a + pat + b` holds `pat` nowhere but in the middle, the result is `a + by + b`.
pub proof fn law_only_occurrence_gives_way(
    a: Seq<char>,
    pat: Seq<char>,
    b: Seq<char>,
    by: Seq<char>,
)
    requires
        pat.len() > 0,
        forall|x: Seq<char>, y: Seq<char>|
            a + pat + b == #[trigger] (x + pat + y) ==> x.len() == a.len(),
    ensures
        replaced(a + pat + b, pat, by) == a + by + b,
{
    law_first_occurrence_gives_way(a, pat, b, by);
    assert forall|x: Seq<char>, y: Seq<char>| b != #[trigger] (x + pat + y) by {
        if b == x + pat + y {
            let x1 = a + pat + x;
            assert(a + pat + b == x1 + pat + y);
        }
    }
    law_other_text_is_kept(b, pat, by);
}

/// The characters that count as white space, one by one.
pub proof fn law_white_space(c: char)
    ensures
        is_white_space(c) <==> seq![
            '\t',
            '\n',
            '\u{b}',
            '\u{c}',
            '\r',
            ' ',
            '\u{85}',
            '\u{a0}',
            '\u{1680}',
            '\u{2000}',
            '\u{2001}',
            '\u{2002}',
            '\u{2003}',
            '\u{2004}',
            '\u{2005}',
            '\u{2006}',
            '\u{2007}',
            '\u{2008}',
            '\u{2009}',
            '\u{200a}',
            '\u{2028}',
            '\u{2029}',
            '\u{202f}',
            '\u{205f}',
            '\u{3000}',
        ].contains(c),
{
    let all = seq![
        '\t',
        '\n',
        '\u{b}',
        '\u{c}',
        '\r',
        ' ',
        '\u{85}',
        '\u{a0}',
        '\u{1680}',
        '\u{2000}',
        '\u{2001}',
        '\u{2002}',
        '\u{2003}',
        '\u{2004}',
        '\u{2005}',
        '\u{2006}',
        '\u{2007}',
        '\u{2008}',
        '\u{2009}',
        '\u{200a}',
        '\u{2028}',
        '\u{2029}',
        '\u{202f}',
        '\u{205f}',
        '\u{3000}',
    ];
    if is_white_space(c) {
        let n = c as int;
        let i: int = if n <= 0x0d {
            n - 0x09
        } else if n == 0x20 {
            5
        } else if n == 0x85 {
            6
        } else if n == 0xa0 {
            7
        } else if n == 0x1680 {
            8
        } else if n <= 0x200a {
            n - 0x2000 + 9
        } else if n == 0x2028 {
            20
        } else if n == 0x2029 {
            21
        } else if n == 0x202f {
            22
        } else if n == 0x205f {
            23
        } else {
            24
        };
        assert(all[i] == c);
    }
}

/// The empty text is blank, a single character is blank if it is white space, and two texts put
/// together are blank if both are.
pub proof fn law_blank(a: Seq<char>, b: Seq<char>, c: char)
    ensures
        is_blank(Seq::empty()),
        is_blank(seq![c]) <==> is_white_space(c),
        is_blank(a + b) <==> is_blank(a) && is_blank(b),
{
    if is_blank(seq![c]) {
        assert(is_white_space(seq![c][0]));
    }
    if is_blank(a + b) {
        assert forall|i: int| 0 <= i < a.len() implies is_white_space(#[trigger] a[i]) by {
            assert(is_white_space((a + b)[i]));
        }
        assert forall|i: int| 0 <= i < b.len() implies is_white_space(#[trigger] b[i]) by {
            assert(is_white_space((a + b)[a.len() + i]));
        }
    }
}

/// How a number is read: nothing is not a number; a single character is one if it is a digit;
/// one more digit makes ten times as much and the digit, where that is below 65536; a `+` before
/// something that does not start with one makes no difference.
pub proof fn law_number_reading(s: Seq<char>, c: char)
    ensures
        u16_written(Seq::empty()) is None,
        u16_written(seq![c]) == if '0' <= c <= '9' {
            Some((c as int - '0' as int) as u16)
        } else {
            None
        },
        s.len() > 0 && s != seq!['+'] ==> u16_written(s.push(c)) == match u16_written(s) {
            Some(n) => if '0' <= c <= '9' && 10 * n + (c as int - '0' as int) <= 65535 {
                Some((10 * n + (c as int - '0' as int)) as u16)
            } else {
                None
            },
            None => None,
        },
        u16_written(seq!['+'] + s) == if s.len() > 0 && s[0] == '+' {
            None
        } else {
            u16_written(s)
        },
{
    let one = seq![c];
    assert(one.drop_last() == Seq::<char>::empty());
    assert(one.skip(1) == Seq::<char>::empty());
    assert(digits_value(one.drop_last()) == 0);
    assert(digits_value(one) == digit_value(c));
    if is_digits(one) {
        assert(is_digit(one[0]));
    }
    let plus = seq!['+'] + s;
    assert(plus.skip(1) == s);
    if s.len() > 0 && s[0] == '+' {
        assert(!is_digit(s[0]));
    }
    if s.len() > 0 && s != seq!['+'] {
        let e = if s[0] == '+' {
            s.skip(1)
        } else {
            s
        };
        if e.len() == 0 {
            assert(s == seq!['+']);
        }
        let t = s.push(c);
        let f = e.push(c);
        assert(t[0] == s[0]);
        assert(f == if s[0] == '+' {
            t.skip(1)
        } else {
            t
        });
        assert(f.drop_last() == e);
        assert(is_digits(f) ==> is_digits(e)) by {
            if is_digits(f) {
                assert forall|i: int| 0 <= i < e.len() implies is_digit(#[trigger] e[i]) by {
                    assert(is_digit(f[i]));
                }
            }
        }
        assert(is_digits(f) ==> is_digit(c)) by {
            if is_digits(f) {
                assert(is_digit(f[e.len() as int]));
            }
        }
        if is_digits(e) {
            lemma_digits_value_grows(e, e.len() as int);
        }
    }
}

/// The writing of a number: it reads back as the number, and has no leading zero.
pub proof fn law_number_writing(n: u16)
    ensures
        u16_written(decimal(n as nat)) == Some(n),
        decimal(n as nat).len() > 0,
        '0' <= decimal(n as nat)[0] <= '9',
        decimal(n as nat).len() > 1 ==> decimal(n as nat)[0] != '0',
{
    lemma_decimal_reads_back(n);
    lemma_decimal_digits(n as nat);
    assert(is_digit(decimal(n as nat)[0]));
    lemma_decimal_no_leading_zero(n as nat);
}

/// Only the number zero is written with a leading zero.
proof fn lemma_decimal_no_leading_zero(n: nat)
    ensures
        decimal(n).len() > 0,
        n > 0 ==> decimal(n)[0] != '0',
        n < 10 ==> decimal(n).len() == 1,
    decreases n,
{
    if n >= 10 {
        lemma_decimal_no_leading_zero(n / 10);
    }
}

} // verus!
