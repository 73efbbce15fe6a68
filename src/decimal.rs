//! Decimal text of unsigned integers: reading a run of digits, and writing
//! a number as `u32::to_string` does.

use vstd::prelude::*;

verus! {

pub open spec fn is_digit(c: char) -> bool {
    '0' <= c && c <= '9'
}

pub open spec fn digit_value(c: char) -> int {
    c as int - '0' as int
}

pub open spec fn digit_char(d: int) -> char {
    ('0' as int + d) as char
}

pub open spec fn all_digits(s: Seq<char>) -> bool {
    forall|i: int| 0 <= i < s.len() ==> #[trigger] is_digit(s[i])
}

/// The number that a sequence of decimal digits stands for.
pub open spec fn digits_value(s: Seq<char>) -> int
    decreases s.len(),
{
    if s.len() == 0 {
        0
    } else {
        digits_value(s.drop_last()) * 10 + digit_value(s.last())
    }
}

/// The shortest decimal text of a natural number.
pub open spec fn decimal_text(n: nat) -> Seq<char>
    decreases n,
{
    if n < 10 {
        seq![digit_char(n as int)]
    } else {
        decimal_text(n / 10).push(digit_char(n as int % 10))
    }
}

/// The decimal text of an integer, with a leading `-` when it is negative.
pub open spec fn int_text(n: int) -> Seq<char> {
    if n < 0 {
        seq!['-'] + decimal_text((-n) as nat)
    } else {
        decimal_text(n as nat)
    }
}

pub proof fn lemma_decimal_text(n: nat)
    ensures
        decimal_text(n).len() > 0,
        all_digits(decimal_text(n)),
        digits_value(decimal_text(n)) == n,
    decreases n,
{
    if n >= 10 {
        lemma_decimal_text(n / 10);
        let t = decimal_text(n / 10);
        let s = decimal_text(n);
        assert(s.drop_last() =~= t);
        assert(s[0] == t[0]);
        assert(digit_value(s.last()) == n as int % 10);
        assert(n == (n / 10) * 10 + n % 10);
        assert(digits_value(s) == digits_value(t) * 10 + digit_value(s.last()));
        assert forall|i: int| 0 <= i < s.len() implies #[trigger] is_digit(s[i]) by {
            if i < t.len() {
                assert(s[i] == t[i]);
            }
        }
    } else {
        let s = decimal_text(n);
        assert(s.drop_last() =~= Seq::<char>::empty());
        assert(digits_value(s.drop_last()) == 0);
    }
}

pub open spec fn pow10(n: nat) -> nat
    decreases n,
{
    if n == 0 {
        1
    } else {
        10 * pow10((n - 1) as nat)
    }
}

pub proof fn lemma_pow10_monotone(a: nat, b: nat)
    requires
        a <= b,
    ensures
        pow10(a) <= pow10(b),
    decreases b,
{
    if a < b {
        lemma_pow10_monotone(a, (b - 1) as nat);
    }
}

pub proof fn lemma_pow10_six()
    ensures
        pow10(5) == 100000,
        pow10(6) == 1000000,
        pow10(9) == 1000000000,
{
    reveal_with_fuel(pow10, 10);
}

/// `k` digits never stand for `10^k` or more.
pub proof fn lemma_digits_value_bound(s: Seq<char>)
    requires
        all_digits(s),
    ensures
        0 <= digits_value(s) < pow10(s.len()),
    decreases s.len(),
{
    if s.len() > 0 {
        assert(is_digit(s[s.len() - 1]));
        let t = s.drop_last();
        assert(all_digits(t)) by {
            assert forall|i: int| 0 <= i < t.len() implies #[trigger] is_digit(t[i]) by {
                assert(t[i] == s[i]);
            }
        }
        lemma_digits_value_bound(t);
    }
}

/// The decimal text of `n` has `k` digits exactly when `10^(k-1) <= n < 10^k`
/// (for `n > 0`).
pub proof fn lemma_decimal_text_len(n: nat)
    ensures
        n < pow10(decimal_text(n).len()),
        n > 0 ==> pow10((decimal_text(n).len() - 1) as nat) <= n,
    decreases n,
{
    if n >= 10 {
        lemma_decimal_text_len(n / 10);
        let l = decimal_text(n / 10).len();
        assert(decimal_text(n).len() == l + 1);
        assert(pow10((l + 1) as nat) == 10 * pow10(l));
        if l > 0 {
            assert(pow10(l) == 10 * pow10((l - 1) as nat));
        }
    } else {
        reveal_with_fuel(pow10, 2);
    }
}

/// Reads a non-empty text made only of decimal digits (at most nine).
pub fn read_digits(s: &str) -> (r: Option<u32>)
    requires
        s@.len() <= 9,
    ensures
        match r {
            Some(v) => s@.len() > 0 && all_digits(s@) && v == digits_value(s@),
            None => !(s@.len() > 0 && all_digits(s@)),
        },
{
    let n = s.unicode_len();
    if n == 0 {
        return None;
    }
    let mut i: usize = 0;
    let mut acc: u32 = 0;
    proof {
        lemma_pow10_six();
        assert(s@.subrange(0, 0) =~= Seq::<char>::empty());
    }
    while i < n
        invariant
            n == s@.len(),
            n <= 9,
            i <= n,
            all_digits(s@.subrange(0, i as int)),
            acc == digits_value(s@.subrange(0, i as int)),
            pow10(9) == 1000000000,
        decreases n - i,
    {
        let c = s.get_char(i);
        if !('0' <= c && c <= '9') {
            assert(!is_digit(s@[i as int]));
            return None;
        }
        let ghost prev = s@.subrange(0, i as int);
        let ghost next = s@.subrange(0, i + 1);
        assert(next.drop_last() =~= prev);
        assert forall|j: int| 0 <= j < next.len() implies #[trigger] is_digit(next[j]) by {
            if j < prev.len() {
                assert(next[j] == prev[j]);
            }
        }
        proof {
            lemma_digits_value_bound(next);
            lemma_pow10_monotone((i + 1) as nat, 9);
        }
        acc = acc * 10 + (c as u32 - '0' as u32);
        i = i + 1;
    }
    assert(s@.subrange(0, n as int) =~= s@);
    Some(acc)
}

/// Writes a `u32` the way `u32::to_string` does.
pub fn u32_to_decimal(n: u32) -> (r: String)
    ensures
        r@ == decimal_text(n as nat),
    decreases n,
{
    let mut text = if n >= 10 {
        u32_to_decimal(n / 10)
    } else {
        String::new()
    };
    let d = (n % 10) as usize;
    let digits = "0123456789";
    proof {
        reveal_strlit("0123456789");
    }
    assert(digits.is_ascii());
    let digit = digits.substring_ascii(d, d + 1);
    assert(digit@ =~= seq![digit_char(d as int)]);
    text.append(digit);
    assert(text@ =~= decimal_text(n as nat));
    text
}

} // verus!
