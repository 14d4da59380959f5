//! What becomes of texts and numbers.

use vstd::prelude::*;

use crate::text::{
    ascii_lowercase, decimal, digits_value, is_digit, is_digits, is_white_space, trimmed,
    trimmed_end, trimmed_start,
};

verus! {

/// Whether `part` is what lies between the white space at both ends of `s`.
pub open spec fn core_of(s: Seq<char>, part: Seq<char>, from: int, to: int) -> bool {
    &&& 0 <= from <= to <= s.len()
    &&& part == s.subrange(from, to)
    &&& forall|i: int| 0 <= i < from ==> is_white_space(#[trigger] s[i])
    &&& forall|i: int| to <= i < s.len() ==> is_white_space(#[trigger] s[i])
    &&& from < to ==> !is_white_space(s[from]) && !is_white_space(s[to - 1])
}

proof fn lemma_start_off(s: Seq<char>) -> (from: int)
    ensures
        0 <= from <= s.len(),
        trimmed_start(s) == s.skip(from),
        forall|i: int| 0 <= i < from ==> is_white_space(#[trigger] s[i]),
        from < s.len() ==> !is_white_space(s[from]),
    decreases s.len(),
{
    if s.len() > 0 && is_white_space(s[0]) {
        let rest = s.drop_first();
        let n = lemma_start_off(rest);
        assert(rest.skip(n) == s.skip(n + 1));
        assert forall|i: int| 0 <= i < n + 1 implies is_white_space(#[trigger] s[i]) by {
            if i > 0 {
                assert(rest[i - 1] == s[i]);
            }
        }
        if n < rest.len() {
            assert(rest[n] == s[n + 1]);
        }
        n + 1
    } else {
        assert(s.skip(0) == s);
        0
    }
}

proof fn lemma_end_off(s: Seq<char>) -> (to: int)
    ensures
        0 <= to <= s.len(),
        trimmed_end(s) == s.take(to),
        forall|i: int| to <= i < s.len() ==> is_white_space(#[trigger] s[i]),
        to > 0 ==> !is_white_space(s[to - 1]),
    decreases s.len(),
{
    if s.len() > 0 && is_white_space(s.last()) {
        let rest = s.drop_last();
        let n = lemma_end_off(rest);
        assert(rest.take(n) == s.take(n));
        assert forall|i: int| n <= i < s.len() implies is_white_space(#[trigger] s[i]) by {
            if i < rest.len() {
                assert(rest[i] == s[i]);
            }
        }
        n
    } else {
        assert(s.take(s.len() as int) == s);
        s.len() as int
    }
}

proof fn lemma_core(s: Seq<char>) -> (r: (int, int))
    ensures
        core_of(s, trimmed(s), r.0, r.1),
{
    let from = lemma_start_off(s);
    let rest = s.skip(from);
    let n = lemma_end_off(rest);
    assert(rest.take(n) == s.subrange(from, from + n));
    assert forall|i: int| from + n <= i < s.len() implies is_white_space(#[trigger] s[i]) by {
        assert(rest[i - from] == s[i]);
    }
    if n > 0 {
        assert(rest[n - 1] == s[from + n - 1]);
        assert(!is_white_space(rest[n - 1]));
    }
    (from, from + n)
}

/// Trimming takes the white space off both ends of a text, all of it and nothing
/// else.
pub proof fn lemma_trimming(s: &str, r: String) -> (bounds: (int, int))
    requires
        call_ensures(crate::text::trim, (s,), r),
    ensures
        core_of(s@, r@, bounds.0, bounds.1),
{
    lemma_core(s@)
}

/// A text is blank if it is white space throughout, and so if nothing is left of it.
pub proof fn lemma_blank(s: &str, r: bool, bare: String)
    requires
        call_ensures(crate::text::blank, (s,), r),
        call_ensures(crate::text::trim, (s,), bare),
    ensures
        r <==> forall|i: int| 0 <= i < s@.len() ==> is_white_space(#[trigger] s@[i]),
        r <==> bare@.len() == 0,
{
}

/// White space is what Unicode says it is, by the numbers of the characters.
pub proof fn lemma_white_space(s: &str, c: char, r: bool)
    requires
        call_ensures(crate::text::blank, (s,), r),
        s@ == seq![c],
    ensures
        r <==> {
            let n = c as u32;
            ||| 9 <= n <= 13
            ||| n == 32
            ||| n == 0x85
            ||| n == 0xa0
            ||| n == 0x1680
            ||| 0x2000 <= n <= 0x200a
            ||| n == 0x2028
            ||| n == 0x2029
            ||| n == 0x202f
            ||| n == 0x205f
            ||| n == 0x3000
        },
{
    assert(s@[0] == c);
    assert(r <==> is_white_space(c)) by {
        if is_white_space(c) {
            assert forall|i: int| 0 <= i < s@.len() implies is_white_space(#[trigger] s@[i]) by {}
        }
    }
}

/// Lower-casing changes the letters from A to Z to those from a to z, each in its
/// place, and nothing else.
pub proof fn lemma_lower_case(s: &str, r: String, i: int)
    requires
        call_ensures(crate::text::to_ascii_lowercase, (s,), r),
        0 <= i < s@.len(),
    ensures
        r@.len() == s@.len(),
        'A' <= s@[i] <= 'Z' ==> r@[i] as u32 == s@[i] as u32 + 32,
        !('A' <= s@[i] <= 'Z') ==> r@[i] == s@[i],
{
}

/// Texts are the same if and only if they are the same character by character.
pub proof fn lemma_same(a: &str, b: &str, r: bool)
    requires
        call_ensures(crate::text::same, (a, b), r),
    ensures
        r <==> a@.len() == b@.len() && forall|i: int| 0 <= i < a@.len() ==> a@[i] == b@[i],
{
    if a@.len() == b@.len() && forall|i: int| 0 <= i < a@.len() ==> a@[i] == b@[i] {
        assert(a@ == b@);
    }
}

proof fn lemma_no_leading_zero(n: nat)
    ensures
        decimal(n).len() > 0,
        decimal(n)[0] == '0' ==> n == 0,
        n == 0 ==> decimal(n).len() == 1,
    decreases n,
{
    if n >= 10 {
        lemma_no_leading_zero(n / 10);
        assert(decimal(n)[0] == decimal(n / 10)[0]);
    }
}

/// A number is added to a text in decimal digits, without needless zeros, that stand
/// for it.
pub proof fn lemma_digits_added(out: &mut String, n: u128)
    requires
        call_ensures(crate::text::push_decimal, (out, n), ()),
    ensures
        ({
            let before = old(out)@;
            let after = final(out)@;
            let digits = after.skip(before.len() as int);
            &&& after.len() > before.len()
            &&& after.take(before.len() as int) == before
            &&& is_digits(digits)
            &&& digits_value(digits) == n
            &&& digits[0] == '0' ==> digits.len() == 1
        }),
{
    let before = old(out)@;
    let d = decimal(n as nat);
    crate::text::lemma_decimal_reads_back(n as nat);
    lemma_no_leading_zero(n as nat);
    assert((before + d).skip(before.len() as int) == d);
    assert((before + d).take(before.len() as int) == before);
}

proof fn lemma_zeros_do_not_count(k: nat, d: Seq<char>)
    ensures
        digits_value(Seq::new(k, |i: int| '0') + d) == digits_value(d),
    decreases k + d.len(),
{
    let z = Seq::new(k, |i: int| '0');
    if d.len() > 0 {
        lemma_zeros_do_not_count(k, d.drop_last());
        assert((z + d).drop_last() == z + d.drop_last());
    } else if k > 0 {
        let z1 = Seq::new((k - 1) as nat, |i: int| '0');
        lemma_zeros_do_not_count((k - 1) as nat, d);
        assert((z + d).drop_last() == z1 + d);
        assert((z + d).last() == '0');
    } else {
        assert(z + d == d);
    }
}

/// A number that is filled up with zeros still stands for itself, and is as wide as it
/// was asked to be, or as its digits are.
pub proof fn lemma_filled_up(out: &mut String, n: u128, width: usize)
    requires
        call_ensures(crate::text::push_zero_padded, (out, n, width), ()),
    ensures
        ({
            let before = old(out)@;
            let after = final(out)@;
            let digits = after.skip(before.len() as int);
            &&& after.take(before.len() as int) == before
            &&& after.len() >= before.len() + width
            &&& is_digits(digits)
            &&& digits_value(digits) == n
            &&& digits.len() > width ==> digits[0] != '0' || digits.len() == 1
        }),
{
    let before = old(out)@;
    let d = decimal(n as nat);
    let all = crate::text::zero_padded(n as nat, width as nat);
    crate::text::lemma_decimal_reads_back(n as nat);
    lemma_no_leading_zero(n as nat);
    assert((before + all).skip(before.len() as int) == all);
    assert((before + all).take(before.len() as int) == before);
    if d.len() < width {
        let k = (width - d.len()) as nat;
        lemma_zeros_do_not_count(k, d);
        let z = Seq::new(k, |i: int| '0');
        assert(all == z + d);
        assert forall|i: int| 0 <= i < all.len() implies is_digit(#[trigger] all[i]) by {
            if i >= k {
                assert(all[i] == d[i - k]);
                assert(is_digit(d[i - k]));
            }
        }
    }
}

/// A single digit is read as its value, and every digit after it counts ten times what
/// came before and itself.
pub proof fn lemma_counts_are_decimal(
    a: &str,
    b: &str,
    c: char,
    x: Option<usize>,
    y: Option<usize>,
)
    requires
        call_ensures(crate::text::parse_count, (a,), x),
        call_ensures(crate::text::parse_count, (b,), y),
        b@ == a@.push(c),
        '0' <= c <= '9',
    ensures
        a@.len() == 0 ==> x is None && y is Some && y->0 == c as int - '0' as int,
        x is Some && 10 * x->0 + (c as int - '0' as int) <= usize::MAX ==> y is Some && y->0 == 10
            * x->0 + (c as int - '0' as int),
        x is Some && 10 * x->0 + (c as int - '0' as int) > usize::MAX ==> y is None,
{
    let sa = a@;
    let sb = b@;
    if sa.len() == 0 {
        assert(sb == seq![c]);
        assert(sb.drop_last() == sa);
        assert(digits_value(sa) == 0);
        assert(is_digits(sb)) by {
            assert(sb[0] == c);
        }
    } else {
        let body = if sa[0] == '+' {
            sa.drop_first()
        } else {
            sa
        };
        let more = if sb[0] == '+' {
            sb.drop_first()
        } else {
            sb
        };
        assert(sb[0] == sa[0]);
        assert(more == body.push(c));
        assert(more.drop_last() == body);
        if is_digits(body) {
            assert forall|i: int| 0 <= i < more.len() implies is_digit(#[trigger] more[i]) by {
                if i < body.len() {
                    assert(is_digit(body[i]));
                }
            }
        }
    }
}

/// What holds anything but digits, a plus at the start aside, is no count, and neither
/// is nothing at all.
pub proof fn lemma_no_count(s: &str, r: Option<usize>, i: int)
    requires
        call_ensures(crate::text::parse_count, (s,), r),
        s@.len() == 0 || (0 <= i < s@.len() && !('0' <= s@[i] <= '9') && !(i == 0 && s@[0] == '+')),
    ensures
        r is None,
{
    if s@.len() > 0 {
        if s@[0] == '+' {
            assert(s@.drop_first()[i - 1] == s@[i]);
            assert(!is_digit(s@.drop_first()[i - 1]));
        } else {
            assert(!is_digit(s@[i]));
        }
    }
}

/// A count is read back as it was written.
pub proof fn lemma_written_count_reads_back(
    out: &mut String,
    n: usize,
    s: &str,
    r: Option<usize>,
)
    requires
        old(out)@.len() == 0,
        call_ensures(crate::text::push_decimal, (out, n as u128), ()),
        s@ == final(out)@,
        call_ensures(crate::text::parse_count, (s,), r),
    ensures
        r == Some(n),
{
    assert(Seq::<char>::empty() + decimal(n as nat) == decimal(n as nat));
    assert(old(out)@ == Seq::<char>::empty());
    crate::text::lemma_count_reads_back(n);
}

/// Texts that differ in the case of ASCII letters alone are lower-cased to the same.
pub proof fn lemma_case_does_not_matter(a: &str, b: &str, x: String, y: String)
    requires
        call_ensures(crate::text::to_ascii_lowercase, (a,), x),
        call_ensures(crate::text::to_ascii_lowercase, (b,), y),
        b@ == x@,
    ensures
        y@ == x@,
{
    assert forall|i: int| 0 <= i < x@.len() implies #[trigger] y@[i] == x@[i] by {
        assert(x@[i] == ascii_lowercase(a@)[i]);
    }
    assert(y@ == x@);
}

} // verus!
