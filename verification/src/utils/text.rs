//! Text helpers shared by the rest of the crate: decimal numbers in both
//! directions, suffix tests and column padding, all stated over `Seq<char>`.

use vstd::prelude::*;
use vstd::string::StringExecFns;
use vstd::string::StrSliceExecFns;

verus! {

/// The views of the strings in `v`, in order.
pub open spec fn strings_view(v: Seq<String>) -> Seq<Seq<char>> {
    Seq::new(v.len(), |i: int| v[i]@)
}

/// The characters of `s` as a vector.
pub fn chars_of(s: &str) -> (r: Vec<char>)
    ensures
        r@ == s@,
{
    let mut out: Vec<char> = Vec::new();
    for c in it: s.chars()
        invariant
            it.seq() == s@,
            out@ == s@.subrange(0, it.index() as int),
    {
        out.push(c);
        assert(out@ =~= s@.subrange(0, it.index() + 1));
    }
    assert(out@ =~= s@);
    out
}

/// The character that writes the digit `d`; `'0'` beyond nine.
pub open spec fn digit_char(d: nat) -> char {
    if d == 1 {
        '1'
    } else if d == 2 {
        '2'
    } else if d == 3 {
        '3'
    } else if d == 4 {
        '4'
    } else if d == 5 {
        '5'
    } else if d == 6 {
        '6'
    } else if d == 7 {
        '7'
    } else if d == 8 {
        '8'
    } else if d == 9 {
        '9'
    } else {
        '0'
    }
}

/// Whether `c` is one of the ten ASCII digits.
pub open spec fn is_digit(c: char) -> bool {
    '0' <= c <= '9'
}

/// The number that the digit `c` stands for.
pub open spec fn digit_value(c: char) -> nat
    recommends
        is_digit(c),
{
    (c as u32 - '0' as u32) as nat
}

/// `n` in decimal, most significant digit first, without leading zeros.
pub open spec fn decimal_digits(n: nat) -> Seq<char>
    decreases n,
{
    if n < 10 {
        seq![digit_char(n)]
    } else {
        decimal_digits(n / 10).push(digit_char(n % 10))
    }
}

/// The number that a run of digits writes; leading zeros count for nothing.
pub open spec fn digits_value(s: Seq<char>) -> nat
    decreases s.len(),
{
    if s.len() == 0 {
        0
    } else {
        digits_value(s.drop_last()) * 10 + digit_value(s.last())
    }
}

/// Whether every character of `s` is a digit.
pub open spec fn all_digits(s: Seq<char>) -> bool {
    forall|i: int| 0 <= i < s.len() ==> is_digit(#[trigger] s[i])
}

/// `s` without one leading plus sign.
pub open spec fn unsigned_body(s: Seq<char>) -> Seq<char> {
    if s.len() > 0 && s[0] == '+' {
        s.subrange(1, s.len() as int)
    } else {
        s
    }
}

/// The reading of `s` as an unsigned decimal number: an optional plus sign,
/// then one digit or more and nothing else, and a value of at most `limit`.
pub open spec fn parse_decimal(s: Seq<char>, limit: nat) -> Option<nat> {
    let body = unsigned_body(s);
    if body.len() > 0 && all_digits(body) && digits_value(body) <= limit {
        Some(digits_value(body))
    } else {
        None
    }
}

/// Whether `s` ends in `suffix`.
pub open spec fn has_suffix(s: Seq<char>, suffix: Seq<char>) -> bool {
    suffix.len() <= s.len() && s.subrange(s.len() - suffix.len(), s.len() as int) == suffix
}

/// `count` copies of `c`.
pub open spec fn repeated(c: char, count: nat) -> Seq<char> {
    Seq::new(count, |i: int| c)
}

/// `s` followed by as many spaces as bring it to `width` characters; `s`
/// itself where it is that long already.
pub open spec fn padded(s: Seq<char>, width: nat) -> Seq<char> {
    if s.len() >= width {
        s
    } else {
        s + repeated(' ', (width - s.len()) as nat)
    }
}

/// A decimal writing is never empty.
pub proof fn lemma_decimal_nonempty(n: nat)
    ensures
        decimal_digits(n).len() >= 1,
        n >= 10 ==> decimal_digits(n).len() >= 2,
    decreases n,
{
    if n >= 10 {
        lemma_decimal_nonempty(n / 10);
    }
}

/// Two numbers with the same decimal writing are the same number.
pub proof fn lemma_decimal_injective(a: nat, b: nat)
    requires
        decimal_digits(a) == decimal_digits(b),
    ensures
        a == b,
    decreases a,
{
    lemma_decimal_nonempty(a);
    lemma_decimal_nonempty(b);
    if a < 10 && b < 10 {
        assert(decimal_digits(a)[0] == digit_char(a));
        assert(decimal_digits(b)[0] == digit_char(b));
    } else if a >= 10 && b >= 10 {
        let da = decimal_digits(a / 10);
        let db = decimal_digits(b / 10);
        assert(decimal_digits(a).drop_last() =~= da);
        assert(decimal_digits(b).drop_last() =~= db);
        assert(decimal_digits(a).last() == digit_char(a % 10));
        assert(decimal_digits(b).last() == digit_char(b % 10));
        lemma_decimal_injective(a / 10, b / 10);
    }
}

/// Every character of a decimal writing is a digit, and the digits are
/// worth the number.
proof fn lemma_decimal_digits_value(n: nat)
    ensures
        all_digits(decimal_digits(n)),
        digits_value(decimal_digits(n)) == n,
    decreases n,
{
    if n < 10 {
        let s = decimal_digits(n);
        assert(s.drop_last() =~= Seq::<char>::empty());
        assert(digits_value(s.drop_last()) == 0);
        assert(s.last() == digit_char(n));
    } else {
        lemma_decimal_digits_value(n / 10);
        let s = decimal_digits(n);
        assert(s.drop_last() =~= decimal_digits(n / 10));
        assert(s.last() == digit_char(n % 10));
        assert forall|i: int| 0 <= i < s.len() implies is_digit(#[trigger] s[i]) by {
            if i < s.len() - 1 {
                assert(s[i] == decimal_digits(n / 10)[i]);
            }
        }
    }
}

/// What `decimal` writes, `parse_usize` reads back: the decimal writing of
/// a number within the limit is read as that number.
pub proof fn lemma_decimal_round_trip(n: nat, limit: nat)
    requires
        n <= limit,
    ensures
        parse_decimal(decimal_digits(n), limit) == Some(n),
{
    lemma_decimal_digits_value(n);
    lemma_decimal_nonempty(n);
    let s = decimal_digits(n);
    assert(is_digit(s[0]));
    assert(unsigned_body(s) == s);
}

/// The one-character text of a digit.
fn digit_text(d: u8) -> (r: &'static str)
    requires
        d < 10,
    ensures
        r@ == seq![digit_char(d as nat)],
{
    proof {
        reveal_strlit("0");
        reveal_strlit("1");
        reveal_strlit("2");
        reveal_strlit("3");
        reveal_strlit("4");
        reveal_strlit("5");
        reveal_strlit("6");
        reveal_strlit("7");
        reveal_strlit("8");
        reveal_strlit("9");
    }
    let r = if d == 0 {
        "0"
    } else if d == 1 {
        "1"
    } else if d == 2 {
        "2"
    } else if d == 3 {
        "3"
    } else if d == 4 {
        "4"
    } else if d == 5 {
        "5"
    } else if d == 6 {
        "6"
    } else if d == 7 {
        "7"
    } else if d == 8 {
        "8"
    } else {
        "9"
    };
    assert(r@ =~= seq![digit_char(d as nat)]);
    r
}

/// Writes `n` in decimal.
pub fn decimal(n: u64) -> (r: String)
    ensures
        r@ == decimal_digits(n as nat),
    decreases n,
{
    if n < 10 {
        String::from_str(digit_text(n as u8))
    } else {
        let mut s = decimal(n / 10);
        s.append(digit_text((n % 10) as u8));
        assert(s@ =~= decimal_digits(n as nat));
        s
    }
}

/// Reads `s` as an unsigned decimal number that fits a `usize`.
pub fn parse_usize(s: &str) -> (r: Option<usize>)
    ensures
        match r {
            Some(v) => parse_decimal(s@, usize::MAX as nat) == Some(v as nat),
            None => parse_decimal(s@, usize::MAX as nat) is None,
        },
{
    let chars = chars_of(s);
    let n = chars.len();
    let start: usize = if n > 0 && chars[0] == '+' {
        1
    } else {
        0
    };
    let ghost body = unsigned_body(s@);
    assert(body =~= s@.subrange(start as int, n as int));
    if start == n {
        return None;
    }
    let mut value: usize = 0;
    let mut i: usize = start;
    while i < n
        invariant
            start <= i <= n,
            n == chars@.len(),
            chars@ == s@,
            body == unsigned_body(s@),
            body == s@.subrange(start as int, n as int),
            all_digits(body.subrange(0, i - start)),
            value as nat == digits_value(body.subrange(0, i - start)),
        decreases n - i,
    {
        let c = chars[i];
        let ghost prefix = body.subrange(0, i - start);
        let ghost next = body.subrange(0, i - start + 1);
        proof {
            assert(body[i - start] == c);
            assert(next.drop_last() =~= prefix);
            assert(next.last() == c);
        }
        if !('0' <= c && c <= '9') {
            proof {
                assert(!is_digit(body[i - start]));
            }
            return None;
        }
        let d: usize = (c as u32 - '0' as u32) as usize;
        assert(d as nat == digit_value(c));
        assert(digits_value(next) == value * 10 + d);
        if value > (usize::MAX - d) / 10 {
            proof {
                assert(value * 10 + d > usize::MAX);
                lemma_digits_value_grows(body, i - start + 1);
            }
            return None;
        }
        value = value * 10 + d;
        i = i + 1;
        proof {
            assert forall|k: int| 0 <= k < next.len() implies is_digit(#[trigger] next[k]) by {
                if k < prefix.len() {
                    assert(next[k] == prefix[k]);
                }
            }
        }
    }
    assert(body.subrange(0, n - start) =~= body);
    Some(value)
}

/// A run of digits is worth at least as much as any of its beginnings.
pub proof fn lemma_digits_value_grows(s: Seq<char>, k: int)
    requires
        0 <= k <= s.len(),
    ensures
        digits_value(s.subrange(0, k)) <= digits_value(s),
    decreases s.len(),
{
    if k == s.len() {
        assert(s.subrange(0, k) =~= s);
    } else {
        lemma_digits_value_grows(s.drop_last(), k);
        assert(s.drop_last().subrange(0, k) =~= s.subrange(0, k));
    }
}

/// Whether `s` ends in `suffix`.
pub fn ends_with(s: &str, suffix: &str) -> (r: bool)
    ensures
        r == has_suffix(s@, suffix@),
{
    let a = chars_of(s);
    let b = chars_of(suffix);
    if b.len() > a.len() {
        return false;
    }
    let off: usize = a.len() - b.len();
    let mut i: usize = 0;
    while i < b.len()
        invariant
            0 <= i <= b@.len(),
            off + b@.len() == a@.len(),
            a@.len() <= usize::MAX,
            a@ == s@,
            b@ == suffix@,
            forall|k: int| 0 <= k < i ==> a@[off + k] == b@[k],
        decreases b@.len() - i,
    {
        if a[off + i] != b[i] {
            proof {
                let t = s@.subrange(s@.len() - suffix@.len(), s@.len() as int);
                assert(t[i as int] == a@[off + i]);
            }
            return false;
        }
        i = i + 1;
    }
    assert(s@.subrange(s@.len() - suffix@.len(), s@.len() as int) =~= suffix@);
    true
}

/// Appends `count` copies of the one-character text `unit` to `out`.
pub fn push_repeated(out: &mut String, unit: &str, count: usize)
    requires
        unit@.len() == 1,
    ensures
        final(out)@ == old(out)@ + repeated(unit@[0], count as nat),
{
    let mut i: usize = 0;
    assert(out@ =~= old(out)@ + repeated(unit@[0], 0));
    while i < count
        invariant
            0 <= i <= count,
            unit@.len() == 1,
            out@ == old(out)@ + repeated(unit@[0], i as nat),
        decreases count - i,
    {
        out.append(unit);
        i = i + 1;
        assert(out@ =~= old(out)@ + repeated(unit@[0], i as nat));
    }
}

/// Appends `s` to `out`, then spaces up to a column of `width` characters.
pub fn push_padded(out: &mut String, s: &str, width: usize)
    ensures
        final(out)@ == old(out)@ + padded(s@, width as nat),
{
    let len = s.unicode_len();
    out.append(s);
    if len < width {
        proof {
            reveal_strlit(" ");
        }
        push_repeated(out, " ", width - len);
        assert(out@ =~= old(out)@ + padded(s@, width as nat));
    }
}

} // verus!
