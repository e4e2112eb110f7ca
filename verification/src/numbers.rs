//! Decimal rendering of integers, plain and with thousands separators.

use vstd::prelude::*;
use num_format::{Locale, ToFormattedString};
use crate::text::{chars_of, push_char, str_eq};

verus! {

/// The character of a decimal digit `d` (0 to 9).
pub open spec fn digit_char(d: int) -> char {
    if d == 0 {
        '0'
    } else if d == 1 {
        '1'
    } else if d == 2 {
        '2'
    } else if d == 3 {
        '3'
    } else if d == 4 {
        '4'
    } else if d == 5 {
        '5'
    } else if d == 6 {
        '6'
    } else if d == 7 {
        '7'
    } else if d == 8 {
        '8'
    } else {
        '9'
    }
}

/// The decimal digits of `n`, most significant first, without leading zeros.
pub open spec fn decimal(n: nat) -> Seq<char>
    decreases n,
{
    if n < 10 {
        seq![digit_char(n as int)]
    } else {
        decimal(n / 10).push(digit_char((n % 10) as int))
    }
}

/// The decimal text of a signed integer: a minus sign before the digits of
/// its magnitude when it is negative.
pub open spec fn signed_decimal(n: int) -> Seq<char> {
    if n < 0 {
        seq!['-'] + decimal((-n) as nat)
    } else {
        decimal(n as nat)
    }
}

/// The three digits of `n` (below 1000), with leading zeros.
pub open spec fn three_digits(n: nat) -> Seq<char> {
    seq![digit_char((n / 100) as int), digit_char(((n / 10) % 10) as int), digit_char((n % 10) as int)]
}

/// The decimal digits of `n` in groups of three from the right, the groups
/// separated by commas.
pub open spec fn grouped(n: nat) -> Seq<char>
    decreases n,
{
    if n < 1000 {
        decimal(n)
    } else {
        grouped(n / 1000) + seq![','] + three_digits(n % 1000)
    }
}

/// `grouped` for a signed integer: a minus sign before the grouped digits of
/// its magnitude when it is negative.
pub open spec fn signed_grouped(n: int) -> Seq<char> {
    if n < 0 {
        seq!['-'] + grouped((-n) as nat)
    } else {
        grouped(n as nat)
    }
}

/// A text with its commas taken out.
pub open spec fn without_commas(s: Seq<char>) -> Seq<char>
    decreases s.len(),
{
    if s.len() == 0 {
        seq![]
    } else if s.last() == ',' {
        without_commas(s.drop_last())
    } else {
        without_commas(s.drop_last()).push(s.last())
    }
}

proof fn lemma_without_commas_concat(a: Seq<char>, b: Seq<char>)
    ensures
        without_commas(a + b) == without_commas(a) + without_commas(b),
    decreases b.len(),
{
    if b.len() == 0 {
        assert(a + b =~= a);
        assert(without_commas(a) + without_commas(b) =~= without_commas(a));
    } else {
        lemma_without_commas_concat(a, b.drop_last());
        assert((a + b).drop_last() =~= a + b.drop_last());
        assert((a + b).last() == b.last());
        if b.last() == ',' {
        } else {
            assert(without_commas(a) + without_commas(b.drop_last()).push(b.last()) =~= (
            without_commas(a) + without_commas(b.drop_last())).push(b.last()));
        }
    }
}

proof fn lemma_without_commas_single(c: char)
    ensures
        without_commas(seq![c]) == (if c == ',' {
            Seq::<char>::empty()
        } else {
            seq![c]
        }),
{
    let s = seq![c];
    assert(s.drop_last() =~= Seq::<char>::empty());
    assert(without_commas(Seq::<char>::empty()) =~= Seq::<char>::empty());
    assert(Seq::<char>::empty().push(c) =~= s);
}

proof fn lemma_digit_not_comma(d: int)
    ensures
        digit_char(d) != ',',
{
}

proof fn lemma_decimal_has_no_commas(n: nat)
    ensures
        without_commas(decimal(n)) == decimal(n),
    decreases n,
{
    if n < 10 {
        lemma_digit_not_comma(n as int);
        lemma_without_commas_single(digit_char(n as int));
    } else {
        lemma_decimal_has_no_commas(n / 10);
        lemma_digit_not_comma((n % 10) as int);
        let s = decimal(n);
        assert(s.drop_last() =~= decimal(n / 10));
    }
}

proof fn lemma_three_digits_no_commas(n: nat)
    ensures
        without_commas(three_digits(n)) == three_digits(n),
{
    let a = digit_char((n / 100) as int);
    let b = digit_char(((n / 10) % 10) as int);
    let c = digit_char((n % 10) as int);
    lemma_digit_not_comma((n / 100) as int);
    lemma_digit_not_comma(((n / 10) % 10) as int);
    lemma_digit_not_comma((n % 10) as int);
    lemma_without_commas_single(a);
    lemma_without_commas_single(b);
    lemma_without_commas_single(c);
    lemma_without_commas_concat(seq![a], seq![b]);
    assert(seq![a] + seq![b] =~= seq![a, b]);
    lemma_without_commas_concat(seq![a, b], seq![c]);
    assert(seq![a, b] + seq![c] =~= three_digits(n));
}

proof fn lemma_div_mod_facts(n: nat)
    requires
        n >= 1000,
    ensures
        n / 10 / 10 == n / 100,
        n / 100 / 10 == n / 1000,
        (n / 100) % 10 == (n % 1000) / 100,
        (n / 10) % 10 == ((n % 1000) / 10) % 10,
        n % 10 == (n % 1000) % 10,
        n / 100 >= 10,
{
    let q = n / 1000;
    let r = n % 1000;
    assert(n == 1000 * q + r) by (nonlinear_arith)
        requires
            q == n / 1000,
            r == n % 1000,
    ;
    assert(0 <= r < 1000);
    assert(n / 10 == 100 * q + r / 10) by (nonlinear_arith)
        requires
            n == 1000 * q + r,
            0 <= r < 1000,
            q >= 0,
    ;
    assert(n / 100 == 10 * q + r / 100) by (nonlinear_arith)
        requires
            n == 1000 * q + r,
            0 <= r < 1000,
            q >= 0,
    ;
    assert(n / 10 / 10 == 10 * q + r / 100) by (nonlinear_arith)
        requires
            n / 10 == 100 * q + r / 10,
            0 <= r < 1000,
            q >= 0,
    ;
    assert(n / 100 / 10 == q) by (nonlinear_arith)
        requires
            n / 100 == 10 * q + r / 100,
            0 <= r < 1000,
            q >= 0,
    ;
    assert((n / 100) % 10 == r / 100) by (nonlinear_arith)
        requires
            n / 100 == 10 * q + r / 100,
            0 <= r < 1000,
            q >= 0,
    ;
    assert((n / 10) % 10 == (r / 10) % 10) by (nonlinear_arith)
        requires
            n / 10 == 100 * q + r / 10,
            0 <= r < 1000,
            q >= 0,
    ;
    assert(n % 10 == r % 10) by (nonlinear_arith)
        requires
            n == 1000 * q + r,
            0 <= r < 1000,
            q >= 0,
    ;
    assert(q >= 1) by (nonlinear_arith)
        requires
            n == 1000 * q + r,
            0 <= r < 1000,
            n >= 1000,
    ;
}

proof fn lemma_decimal_split(n: nat)
    requires
        n >= 1000,
    ensures
        decimal(n) == decimal(n / 1000) + three_digits(n % 1000),
{
    lemma_div_mod_facts(n);
    let r = n % 1000;
    assert(decimal(n) == decimal(n / 10).push(digit_char((n % 10) as int)));
    assert(decimal(n / 10) == decimal(n / 10 / 10).push(digit_char(((n / 10) % 10) as int)));
    assert(decimal(n / 100) == decimal(n / 100 / 10).push(digit_char(((n / 100) % 10) as int)));
    assert(decimal(n) =~= decimal(n / 1000) + three_digits(r));
}

/// Thousands separators only add commas: taking the commas out of a grouped
/// number gives its plain decimal text.
pub proof fn lemma_grouping_only_adds_commas(n: int)
    ensures
        without_commas(signed_grouped(n)) == signed_decimal(n),
{
    if n < 0 {
        lemma_grouped_digits((-n) as nat);
        lemma_without_commas_concat(seq!['-'], grouped((-n) as nat));
        lemma_without_commas_single('-');
    } else {
        lemma_grouped_digits(n as nat);
    }
}

proof fn lemma_grouped_digits(n: nat)
    ensures
        without_commas(grouped(n)) == decimal(n),
    decreases n,
{
    if n < 1000 {
        lemma_decimal_has_no_commas(n);
    } else {
        lemma_grouped_digits(n / 1000);
        lemma_decimal_split(n);
        lemma_three_digits_no_commas(n % 1000);
        lemma_without_commas_concat(grouped(n / 1000) + seq![','], three_digits(n % 1000));
        lemma_without_commas_concat(grouped(n / 1000), seq![',']);
        lemma_without_commas_single(',');
        assert(without_commas(grouped(n / 1000)) + Seq::<char>::empty() =~= decimal(n / 1000));
    }
}

/// A decimal digit.
pub open spec fn is_digit(c: char) -> bool {
    '0' <= c <= '9'
}

/// Digits with at most one point between them: the text of a number without
/// its sign, as Rust writes a floating-point number.
pub open spec fn is_unsigned_number_text(t: Seq<char>) -> bool {
    &&& t.len() > 0
    &&& is_digit(t[0])
    &&& is_digit(t.last())
    &&& forall|i: int| 0 <= i < t.len() ==> is_digit(#[trigger] t[i]) || t[i] == '.'
    &&& forall|i: int, j: int| 0 <= i < j < t.len() && #[trigger] t[i] == '.' ==> #[trigger] t[j] != '.'
}

/// The text of a finite number, with an optional minus sign.
pub open spec fn is_number_text(s: Seq<char>) -> bool {
    if s.len() > 0 && s[0] == '-' {
        is_unsigned_number_text(s.skip(1))
    } else {
        is_unsigned_number_text(s)
    }
}

/// The text Rust's `Display` gives a floating-point number: the text of a
/// finite number (never with an exponent), or "inf", "-inf" or "NaN".
pub open spec fn is_float_text(s: Seq<char>) -> bool {
    is_number_text(s) || s == "inf"@ || s == "-inf"@ || s == "NaN"@
}

/// Whether a text is one that Rust's `Display` gives a floating-point number.
pub fn check_float_text(s: &str) -> (r: bool)
    ensures
        r == is_float_text(s@),
{
    check_number_text(s) || str_eq(s, "inf") || str_eq(s, "-inf") || str_eq(s, "NaN")
}

/// Whether a text is that of a finite number.
pub fn check_number_text(s: &str) -> (r: bool)
    ensures
        r == is_number_text(s@),
{
    let cs = chars_of(s);
    let start: usize = if cs.len() > 0 && cs[0] == '-' {
        1
    } else {
        0
    };
    let ghost t = s@.skip(start as int);
    proof {
        if start == 0 {
            assert(t =~= s@);
        }
        assert(is_number_text(s@) == is_unsigned_number_text(t));
    }
    if start >= cs.len() {
        assert(t.len() == 0);
        return false;
    }
    let first = cs[start];
    let last = cs[cs.len() - 1];
    assert(t[0] == first);
    assert(t.last() == last);
    if !(first >= '0' && first <= '9') || !(last >= '0' && last <= '9') {
        return false;
    }
    let mut seen_point = false;
    let mut i: usize = start;
    while i < cs.len()
        invariant
            cs@ == s@,
            start <= i <= cs.len(),
            t == s@.skip(start as int),
            t.len() == cs.len() - start,
            is_number_text(s@) == is_unsigned_number_text(t),
            forall|k: int| 0 <= k < i - start ==> is_digit(#[trigger] t[k]) || t[k] == '.',
            forall|a: int, b: int| 0 <= a < b < i - start && #[trigger] t[a] == '.' ==> #[trigger] t[b] != '.',
            seen_point <==> exists|k: int| 0 <= k < i - start && #[trigger] t[k] == '.',
        decreases cs.len() - i,
    {
        let c = cs[i];
        assert(t[i - start] == c);
        if c == '.' {
            if seen_point {
                let ghost k = choose|k: int| 0 <= k < i - start && #[trigger] t[k] == '.';
                assert(t[k] == '.' && t[i - start] == '.');
                return false;
            }
            seen_point = true;
        } else if !(c >= '0' && c <= '9') {
            assert(!(is_digit(t[i - start]) || t[i - start] == '.'));
            return false;
        }
        i = i + 1;
    }
    assert(t.len() == cs.len() - start);
    true
}

fn digit(d: u64) -> (c: char)
    requires
        d < 10,
    ensures
        c == digit_char(d as int),
{
    if d == 0 {
        '0'
    } else if d == 1 {
        '1'
    } else if d == 2 {
        '2'
    } else if d == 3 {
        '3'
    } else if d == 4 {
        '4'
    } else if d == 5 {
        '5'
    } else if d == 6 {
        '6'
    } else if d == 7 {
        '7'
    } else if d == 8 {
        '8'
    } else {
        '9'
    }
}

/// Appends the decimal digits of `n` to `out`.
pub fn push_decimal(out: &mut String, n: u64)
    ensures
        final(out)@ == old(out)@ + decimal(n as nat),
    decreases n,
{
    if n >= 10 {
        push_decimal(out, n / 10);
        push_char(out, digit(n % 10));
        assert(decimal(n as nat) == decimal((n / 10) as nat).push(digit_char((n % 10) as int)));
    } else {
        push_char(out, digit(n));
    }
}

/// The decimal text of an unsigned integer.
pub fn decimal_string(n: u64) -> (r: String)
    ensures
        r@ == decimal(n as nat),
{
    let mut out = String::new();
    push_decimal(&mut out, n);
    out
}

/// The decimal text of a signed integer.
pub fn signed_decimal_string(n: i64) -> (r: String)
    ensures
        r@ == signed_decimal(n as int),
{
    let mut out = String::new();
    if n < 0 {
        push_char(&mut out, '-');
        let m: i128 = -(n as i128);
        push_decimal(&mut out, m as u64);
    } else {
        push_decimal(&mut out, n as u64);
    }
    out
}

/// Calls num-format's `ToFormattedString::to_formatted_string` on an `i64`
/// with `Locale::en`. The contract claims what that crate's source shows for
/// this locale: standard grouping in threes, "," as the separator and "-" as
/// the minus sign, so the result is the decimal text of `n` with commas
/// between groups of three digits counted from the right.
#[verifier::external_body]
pub(crate) fn format_count(n: i64) -> (r: String)
    ensures
        r@ == signed_grouped(n as int),
{
    n.to_formatted_string(&Locale::en)
}

} // verus!
