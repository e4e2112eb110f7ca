//! Character-level text helpers with their specifications.

use vstd::prelude::*;
use vstd::utf8::{char_is_scalar, encode_scalar, encode_utf8};

verus! {

/// `needle` occurs in `hay` as a contiguous run of characters.
pub open spec fn has_infix(hay: Seq<char>, needle: Seq<char>) -> bool {
    exists|i: int|
        0 <= i <= hay.len() - needle.len() && #[trigger] hay.subrange(i, i + needle.len())
            =~= needle
}

/// `s` begins with `prefix`.
pub open spec fn starts_with(s: Seq<char>, prefix: Seq<char>) -> bool {
    prefix.is_prefix_of(s)
}

/// `s` ends with `suffix`.
pub open spec fn ends_with(s: Seq<char>, suffix: Seq<char>) -> bool {
    suffix.is_suffix_of(s)
}

/// Names what std's `str::to_lowercase` returns for a string: its Unicode
/// lowercase mapping.
pub uninterp spec fn unicode_lowercase(s: Seq<char>) -> Seq<char>;

/// Names what std's `str::to_uppercase` returns for a string: its Unicode
/// uppercase mapping.
pub uninterp spec fn unicode_uppercase(s: Seq<char>) -> Seq<char>;

/// Calls std's `str::to_lowercase`. The contract claims only that the result
/// is the value named `unicode_lowercase` of the argument's characters; the
/// Unicode case tables themselves are not written out.
#[verifier::external_body]
pub(crate) fn to_lowercase(s: &str) -> (r: String)
    ensures
        r@ == unicode_lowercase(s@),
{
    s.to_lowercase()
}

/// Calls std's `str::to_uppercase`. The contract claims only that the result
/// is the value named `unicode_uppercase` of the argument's characters.
#[verifier::external_body]
pub(crate) fn to_uppercase(s: &str) -> (r: String)
    ensures
        r@ == unicode_uppercase(s@),
{
    s.to_uppercase()
}

/// Calls std's `String::push`: the character is added at the end.
#[verifier::external_body]
pub(crate) fn push_char(s: &mut String, c: char)
    ensures
        final(s)@ == old(s)@.push(c),
{
    s.push(c)
}

/// The characters of a string slice, in order.
pub fn chars_of(s: &str) -> (r: Vec<char>)
    ensures
        r@ == s@,
{
    broadcast use vstd::string::group_string_axioms;
    let mut r: Vec<char> = Vec::new();
    for c in it: s.chars()
        invariant
            r@ == it.seq().take(it.index() as int),
    {
        r.push(c);
    }
    r
}

/// Whether `a[start..start + b.len()]` equals `b`.
fn matches_at(a: &Vec<char>, start: usize, b: &Vec<char>) -> (r: bool)
    requires
        start + b.len() <= a.len(),
    ensures
        r == (a@.subrange(start as int, start + b.len()) =~= b@),
{
    let mut j: usize = 0;
    while j < b.len()
        invariant
            start + b.len() <= a.len(),
            j <= b.len(),
            forall|k: int| 0 <= k < j ==> a@[start + k] == b@[k],
        decreases b.len() - j,
    {
        if a[start + j] != b[j] {
            assert(a@.subrange(start as int, start + b.len())[j as int] != b@[j as int]);
            return false;
        }
        j = j + 1;
    }
    true
}

/// Whether `needle` occurs anywhere in `hay`.
pub fn contains_str(hay: &str, needle: &str) -> (r: bool)
    ensures
        r == has_infix(hay@, needle@),
{
    let a = chars_of(hay);
    let b = chars_of(needle);
    if b.len() > a.len() {
        return false;
    }
    let last = a.len() - b.len();
    let mut i: usize = 0;
    while i <= last
        invariant
            a@ == hay@,
            b@ == needle@,
            last == a.len() - b.len(),
            b.len() <= a.len(),
            forall|k: int| 0 <= k < i ==> !(#[trigger] a@.subrange(k, k + b.len()) =~= b@),
        decreases last + 1 - i,
    {
        if matches_at(&a, i, &b) {
            return true;
        }
        i = i + 1;
    }
    false
}

/// Whether two strings hold the same characters.
pub fn str_eq(a: &str, b: &str) -> (r: bool)
    ensures
        r == (a@ == b@),
{
    let x = chars_of(a);
    let y = chars_of(b);
    if x.len() != y.len() {
        return false;
    }
    let m = matches_at(&x, 0, &y);
    assert(x@.subrange(0, y.len() as int) =~= x@);
    m
}

/// Whether `s` begins with `prefix`.
pub fn starts_with_str(s: &str, prefix: &str) -> (r: bool)
    ensures
        r == starts_with(s@, prefix@),
{
    let a = chars_of(s);
    let b = chars_of(prefix);
    if b.len() > a.len() {
        return false;
    }
    matches_at(&a, 0, &b)
}

/// Whether `s` ends with `suffix`.
pub fn ends_with_str(s: &str, suffix: &str) -> (r: bool)
    ensures
        r == ends_with(s@, suffix@),
{
    let a = chars_of(s);
    let b = chars_of(suffix);
    if b.len() > a.len() {
        return false;
    }
    matches_at(&a, a.len() - b.len(), &b)
}

/// Texts joined with a separator between each two of them.
pub open spec fn join(items: Seq<Seq<char>>, sep: Seq<char>) -> Seq<char>
    decreases items.len(),
{
    if items.len() == 0 {
        seq![]
    } else if items.len() == 1 {
        items[0]
    } else {
        join(items.drop_last(), sep) + sep + items.last()
    }
}

/// The texts of a list of strings.
pub open spec fn texts(items: Seq<String>) -> Seq<Seq<char>> {
    items.map_values(|s: String| s@)
}

/// Joins strings with a separator between each two of them.
pub fn join_strings(items: &Vec<String>, sep: &str) -> (r: String)
    ensures
        r@ == join(texts(items@), sep@),
{
    let mut out = String::new();
    let mut i: usize = 0;
    while i < items.len()
        invariant
            i <= items.len(),
            out@ == join(texts(items@).take(i as int), sep@),
        decreases items.len() - i,
    {
        let ghost before = texts(items@).take(i as int);
        let ghost after = texts(items@).take(i + 1);
        assert(after.drop_last() =~= before);
        assert(after.last() == items@[i as int]@);
        if i != 0 {
            out.append(sep);
        } else {
            assert(before =~= Seq::<Seq<char>>::empty());
        }
        out.append(items[i].as_str());
        i = i + 1;
    }
    assert(texts(items@).take(items.len() as int) =~= texts(items@));
    out
}

/// The number of bytes that UTF-8 takes for a character.
pub open spec fn char_width(c: char) -> nat {
    if (c as u32) <= 0x7F {
        1
    } else if (c as u32) <= 0x7FF {
        2
    } else if (c as u32) <= 0xFFFF {
        3
    } else {
        4
    }
}

/// The number of bytes of the UTF-8 encoding of a text: the length that
/// `str::len` reports.
pub open spec fn utf8_len(s: Seq<char>) -> nat
    decreases s.len(),
{
    if s.len() == 0 {
        0
    } else {
        char_width(s[0]) + utf8_len(s.drop_first())
    }
}

/// `utf8_len` counts exactly the bytes of vstd's model of UTF-8 encoding.
pub proof fn lemma_utf8_len_is_encoded_length(s: Seq<char>)
    ensures
        utf8_len(s) == encode_utf8(s).len(),
    decreases s.len(),
{
    if s.len() > 0 {
        lemma_utf8_len_is_encoded_length(s.drop_first());
        char_is_scalar(s[0]);
        assert(encode_scalar(s[0] as u32).len() == char_width(s[0]));
    }
}

proof fn lemma_utf8_len_concat(a: Seq<char>, b: Seq<char>)
    ensures
        utf8_len(a + b) == utf8_len(a) + utf8_len(b),
    decreases a.len(),
{
    if a.len() == 0 {
        assert(a + b =~= b);
    } else {
        lemma_utf8_len_concat(a.drop_first(), b);
        assert((a + b).drop_first() =~= a.drop_first() + b);
    }
}

proof fn lemma_utf8_len_at_least_chars(s: Seq<char>)
    ensures
        utf8_len(s) >= s.len(),
    decreases s.len(),
{
    if s.len() > 0 {
        lemma_utf8_len_at_least_chars(s.drop_first());
    }
}

proof fn lemma_prefix_step(s: Seq<char>, k: int)
    requires
        0 <= k < s.len(),
    ensures
        utf8_len(s.take(k + 1)) == utf8_len(s.take(k)) + char_width(s[k]),
{
    lemma_utf8_len_concat(s.take(k), seq![s[k]]);
    assert(s.take(k + 1) =~= s.take(k) + seq![s[k]]);
    let one = seq![s[k]];
    assert(one.drop_first() =~= Seq::<char>::empty());
    assert(utf8_len(Seq::<char>::empty()) == 0);
    assert(utf8_len(one) == char_width(one[0]) + utf8_len(one.drop_first()));
}

/// The byte length of a prefix grows strictly with the number of characters
/// in it, so each byte position names at most one character prefix.
pub proof fn lemma_prefix_bytes_strictly_increase(s: Seq<char>, j: int, k: int)
    requires
        0 <= j < k <= s.len(),
    ensures
        utf8_len(s.take(j)) < utf8_len(s.take(k)),
{
    lemma_utf8_len_concat(s.take(j), s.subrange(j, k));
    assert(s.take(k) =~= s.take(j) + s.subrange(j, k));
    lemma_utf8_len_at_least_chars(s.subrange(j, k));
}

/// Byte position `b` of the UTF-8 text of `s` falls between two characters.
pub open spec fn is_byte_boundary(s: Seq<char>, b: int) -> bool {
    exists|k: int| 0 <= k <= s.len() && #[trigger] utf8_len(s.take(k)) == b
}

/// The number of characters before byte position `b`, when that position
/// falls between two characters.
pub open spec fn chars_before_byte(s: Seq<char>, b: int) -> int {
    choose|k: int| 0 <= k <= s.len() && #[trigger] utf8_len(s.take(k)) == b
}

/// The horizontal ellipsis that marks a shortened text.
pub open spec fn ellipsis() -> char {
    '\u{2026}'
}

/// A text shortened to `max_len` bytes: unchanged when its UTF-8 text fits,
/// and otherwise the characters of its first `max_len - 1` bytes followed by
/// an ellipsis.
pub open spec fn truncated(s: Seq<char>, max_len: nat) -> Seq<char> {
    if utf8_len(s) <= max_len {
        s
    } else {
        s.take(chars_before_byte(s, max_len - 1)).push(ellipsis())
    }
}

/// Whether `truncate_str` can shorten `s` to `max_len` bytes: either it fits,
/// or byte `max_len - 1` exists and falls between two characters.
pub open spec fn can_truncate(s: Seq<char>, max_len: nat) -> bool {
    utf8_len(s) > max_len ==> max_len >= 1 && is_byte_boundary(s, max_len - 1)
}

/// A shortened text never has more characters than the limit. (Counted in
/// bytes it can be longer: the ellipsis takes three bytes where one was cut.)
pub proof fn lemma_truncated_within_limit_in_chars(s: Seq<char>, max_len: nat)
    requires
        can_truncate(s, max_len),
    ensures
        truncated(s, max_len).len() <= max_len,
{
    if utf8_len(s) <= max_len {
        lemma_utf8_len_at_least_chars(s);
    } else {
        let k = chars_before_byte(s, max_len - 1);
        assert(is_byte_boundary(s, max_len - 1));
        assert(0 <= k <= s.len() && utf8_len(s.take(k)) == max_len - 1);
        lemma_utf8_len_at_least_chars(s.take(k));
    }
}

fn width_of(c: char) -> (w: usize)
    ensures
        w == char_width(c),
{
    let v = c as u32;
    if v <= 0x7F {
        1
    } else if v <= 0x7FF {
        2
    } else if v <= 0xFFFF {
        3
    } else {
        4
    }
}

/// The number of UTF-8 bytes of a text.
pub fn utf8_length(s: &str) -> (n: u128)
    ensures
        n == utf8_len(s@),
{
    let cs = chars_of(s);
    let mut i: usize = 0;
    let mut n: u128 = 0;
    while i < cs.len()
        invariant
            cs@ == s@,
            i <= cs.len(),
            n == utf8_len(s@.take(i as int)),
            n <= 4 * i,
        decreases cs.len() - i,
    {
        proof {
            lemma_prefix_step(s@, i as int);
        }
        n = n + width_of(cs[i]) as u128;
        i = i + 1;
    }
    assert(s@.take(cs.len() as int) =~= s@);
    n
}

/// The number of characters before byte position `target` of the UTF-8
/// text of `s`, when that position falls between two characters.
fn find_boundary(s: &str, cs: &Vec<char>, target: usize) -> (r: Option<usize>)
    requires
        cs@ == s@,
    ensures
        r is Some <==> is_byte_boundary(s@, target as int),
        r matches Some(k) ==> k == chars_before_byte(s@, target as int) && k <= s@.len(),
{
    let mut i: usize = 0;
    let mut b: u128 = 0;
    while b < target as u128 && i < cs.len()
        invariant
            cs@ == s@,
            i <= cs.len(),
            b == utf8_len(s@.take(i as int)),
            i > 0 ==> utf8_len(s@.take(i - 1)) < target,
        decreases cs.len() - i,
    {
        proof {
            lemma_prefix_step(s@, i as int);
        }
        b = b + width_of(cs[i]) as u128;
        i = i + 1;
    }
    if b == target as u128 {
        proof {
            assert(utf8_len(s@.take(i as int)) == target);
            assert(is_byte_boundary(s@, target as int));
            let k0 = chars_before_byte(s@, target as int);
            if k0 < i {
                lemma_prefix_bytes_strictly_increase(s@, k0, i as int);
            } else if k0 > i {
                lemma_prefix_bytes_strictly_increase(s@, i as int, k0);
            }
        }
        Some(i)
    } else {
        proof {
            if is_byte_boundary(s@, target as int) {
                let k0 = chars_before_byte(s@, target as int);
                assert(0 <= k0 <= s@.len() && utf8_len(s@.take(k0)) == target);
                if b < target {
                    assert(i == cs.len());
                    if k0 < i {
                        lemma_prefix_bytes_strictly_increase(s@, k0, i as int);
                    }
                    assert(false);
                } else {
                    if k0 < i {
                        if k0 < i - 1 {
                            lemma_prefix_bytes_strictly_increase(s@, k0, i - 1);
                        }
                        assert(false);
                    } else if k0 > i {
                        lemma_prefix_bytes_strictly_increase(s@, i as int, k0);
                        assert(false);
                    }
                }
            }
        }
        None
    }
}

/// Whether `truncate_str` can shorten `s` to `max_len` bytes without cutting
/// a character apart.
pub fn can_cut(s: &str, max_len: usize) -> (r: bool)
    ensures
        r == can_truncate(s@, max_len as nat),
{
    let total = utf8_length(s);
    if total <= max_len as u128 {
        return true;
    }
    if max_len == 0 {
        return false;
    }
    let cs = chars_of(s);
    find_boundary(s, &cs, max_len - 1).is_some()
}

/// Truncates a string to a maximum length in bytes, marking a cut with an
/// ellipsis.
pub fn truncate_str(s: &str, max_len: usize) -> (r: String)
    requires
        can_truncate(s@, max_len as nat),
    ensures
        r@ == truncated(s@, max_len as nat),
{
    let total = utf8_length(s);
    if total <= max_len as u128 {
        return String::from_str(s);
    }
    let cs = chars_of(s);
    let found = find_boundary(s, &cs, max_len - 1);
    let i = match found {
        Some(k) => k,
        None => {
            assert(false);
            0
        },
    };
    let mut out = String::new();
    let mut j: usize = 0;
    while j < i
        invariant
            cs@ == s@,
            i <= cs.len(),
            j <= i,
            out@ == s@.take(j as int),
        decreases i - j,
    {
        push_char(&mut out, cs[j]);
        assert(s@.take(j + 1) =~= s@.take(j as int).push(s@[j as int]));
        j = j + 1;
    }
    push_char(&mut out, '\u{2026}');
    out
}

} // verus!
