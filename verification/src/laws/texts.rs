//! Operations on text.

use crate::text::{decimal_text, str_less, strip_prefix, trim};
use vstd::prelude::*;
use vstd::string::*;

verus! {

/// Two texts agree up to place `k`, and there the first one ends or holds the lesser character.
pub open spec fn comes_first_at(a: Seq<char>, b: Seq<char>, k: int) -> bool {
    &&& 0 <= k <= a.len()
    &&& k < b.len()
    &&& forall|i: int| 0 <= i < k ==> #[trigger] a[i] == b[i]
    &&& k == a.len() || a[k] < b[k]
}

/// One text comes before another if and only if there is a place up to which they agree, and at which
/// the first one ends or holds the lesser character.
pub proof fn order_is_decided_at_the_first_difference(a: &str, b: &str, less: bool)
    requires
        call_ensures(str_less, (a, b), less),
    ensures
        less <==> exists|k: int| comes_first_at(a@, b@, k),
{
    lex_less_by_place(a@, b@);
}

/// The same, of the order itself.
pub proof fn lex_less_by_place(a: Seq<char>, b: Seq<char>)
    ensures
        crate::text::lex_less(a, b) <==> exists|k: int| comes_first_at(a, b, k),
    decreases a.len(),
{
    if b.len() == 0 {
    } else if a.len() == 0 {
        assert(comes_first_at(a, b, 0));
    } else if a[0] != b[0] {
        if a[0] < b[0] {
            assert(comes_first_at(a, b, 0));
        }
        assert forall|k: int| comes_first_at(a, b, k) implies k == 0 by {
            if k > 0 {
                assert(a[0] == b[0]);
            }
        }
    } else {
        let a2 = a.drop_first();
        let b2 = b.drop_first();
        lex_less_by_place(a2, b2);
        if crate::text::lex_less(a2, b2) {
            let k = choose|k: int| comes_first_at(a2, b2, k);
            assert forall|i: int| 0 <= i < k + 1 implies #[trigger] a[i] == b[i] by {
                if i > 0 {
                    assert(a2[i - 1] == b2[i - 1]);
                }
            }
            assert(comes_first_at(a, b, k + 1));
        }
        if exists|k: int| comes_first_at(a, b, k) {
            let k = choose|k: int| comes_first_at(a, b, k);
            assert forall|i: int| 0 <= i < k - 1 implies #[trigger] a2[i] == b2[i] by {
                assert(a[i + 1] == b[i + 1]);
            }
            assert(comes_first_at(a2, b2, k - 1));
        }
    }
}

/// What is left when a prefix is taken off makes up the text again behind the prefix; nothing is left
/// only where the text does not begin so.
pub proof fn prefix_and_rest_make_the_text(s: &str, prefix: &str, rest: Option<String>)
    requires
        call_ensures(strip_prefix, (s, prefix), rest),
    ensures
        rest matches Some(r) ==> s@ == prefix@ + r@,
        rest is None ==> forall|r: Seq<char>| s@ != #[trigger] (prefix@ + r),
{
    match rest {
        Some(r) => {
            assert(s@ =~= s@.take(prefix@.len() as int) + s@.skip(prefix@.len() as int));
        },
        None => {
            assert forall|r: Seq<char>| s@ != #[trigger] (prefix@ + r) by {
                assert((prefix@ + r).take(prefix@.len() as int) =~= prefix@);
            }
        },
    }
}

/// What trimming takes off is white space on both sides, and what it leaves neither begins nor ends with
/// white space.
pub proof fn trimming_takes_off_white_space_alone(s: &str, inner: &str) -> (sides: (
    Seq<char>,
    Seq<char>,
))
    requires
        call_ensures(trim, (s,), inner),
    ensures
        s@ == sides.0 + inner@ + sides.1,
        forall|i: int| 0 <= i < sides.0.len() ==> crate::text::white_space(#[trigger] sides.0[i]),
        forall|i: int| 0 <= i < sides.1.len() ==> crate::text::white_space(#[trigger] sides.1[i]),
        inner@.len() > 0 ==> !crate::text::white_space(inner@[0]) && !crate::text::white_space(
            inner@.last(),
        ),
{
    trimmed_sides(s@)
}

/// The same, of trimming itself.
pub proof fn trimmed_sides(s: Seq<char>) -> (sides: (Seq<char>, Seq<char>))
    ensures
        s == sides.0 + crate::text::trimmed(s) + sides.1,
        forall|i: int| 0 <= i < sides.0.len() ==> crate::text::white_space(#[trigger] sides.0[i]),
        forall|i: int| 0 <= i < sides.1.len() ==> crate::text::white_space(#[trigger] sides.1[i]),
        crate::text::trimmed(s).len() > 0 ==> !crate::text::white_space(crate::text::trimmed(s)[0])
            && !crate::text::white_space(crate::text::trimmed(s).last()),
{
    let begun = crate::text::trim_start(s);
    let front = start_taken_off(s);
    let back = end_taken_off(begun);
    assert(s =~= front + crate::text::trimmed(s) + back);
    if crate::text::trimmed(s).len() > 0 {
        assert(crate::text::trimmed(s)[0] == begun[0]);
    }
    (front, back)
}

proof fn start_taken_off(s: Seq<char>) -> (front: Seq<char>)
    ensures
        s == front + crate::text::trim_start(s),
        forall|i: int| 0 <= i < front.len() ==> crate::text::white_space(#[trigger] front[i]),
        crate::text::trim_start(s).len() > 0 ==> !crate::text::white_space(
            crate::text::trim_start(s)[0],
        ),
    decreases s.len(),
{
    if s.len() > 0 && crate::text::white_space(s[0]) {
        let rest = start_taken_off(s.drop_first());
        let front = seq![s[0]] + rest;
        assert(s =~= seq![s[0]] + s.drop_first());
        assert(seq![s[0]] + (rest + crate::text::trim_start(s)) =~= front
            + crate::text::trim_start(s));
        front
    } else {
        assert(s =~= Seq::<char>::empty() + s);
        Seq::empty()
    }
}

proof fn end_taken_off(s: Seq<char>) -> (back: Seq<char>)
    ensures
        s == crate::text::trim_end(s) + back,
        forall|i: int| 0 <= i < back.len() ==> crate::text::white_space(#[trigger] back[i]),
        crate::text::trim_end(s).len() > 0 ==> !crate::text::white_space(
            crate::text::trim_end(s).last(),
        ),
    decreases s.len(),
{
    if s.len() > 0 && crate::text::white_space(s.last()) {
        let rest = end_taken_off(s.drop_last());
        let back = rest.push(s.last());
        assert(s =~= s.drop_last().push(s.last()));
        assert((crate::text::trim_end(s) + rest).push(s.last()) =~= crate::text::trim_end(s) + back);
        back
    } else {
        assert(s =~= s + Seq::<char>::empty());
        Seq::empty()
    }
}

/// Whether a text is a number in decimal digits: not empty, of digits alone, with a leading zero only if
/// it is no more than that.
pub open spec fn is_decimal(text: Seq<char>) -> bool {
    &&& text.len() > 0
    &&& forall|i: int| 0 <= i < text.len() ==> '0' <= #[trigger] text[i] <= '9'
    &&& text.len() > 1 ==> text[0] != '0'
}

/// A number is written in decimal digits that stand for it.
pub proof fn decimal_digits_stand_for_the_number(n: u64, text: String)
    requires
        call_ensures(decimal_text, (n,), text),
    ensures
        is_decimal(text@),
        crate::text::decimal_value(text@) == n,
{
    decimal_is_decimal(n as nat);
    crate::text::decimal_reads_back(n as nat);
}

/// Different numbers are written differently.
pub proof fn different_numbers_different_digits(m: u64, n: u64, first: String, second: String)
    requires
        call_ensures(decimal_text, (m,), first),
        call_ensures(decimal_text, (n,), second),
        first@ == second@,
    ensures
        m == n,
{
    crate::text::decimal_reads_back(m as nat);
    crate::text::decimal_reads_back(n as nat);
}

/// The decimal text of a number is one.
pub proof fn decimal_is_decimal(n: nat)
    ensures
        is_decimal(crate::text::decimal(n)),
        n > 0 ==> crate::text::decimal(n)[0] != '0',
    decreases n,
{
    if n >= 10 {
        decimal_is_decimal(n / 10);
        let text = crate::text::decimal(n);
        let head = crate::text::decimal(n / 10);
        assert forall|i: int| 0 <= i < text.len() implies '0' <= #[trigger] text[i] <= '9' by {
            if i < head.len() {
                assert(text[i] == head[i]);
            }
        }
        assert(text[0] == head[0]);
    }
}

/// What decimal digits stand for: each further digit makes it ten times as much, and adds itself.
pub proof fn a_further_digit_counts_ten_times(text: Seq<char>, d: int, c: char)
    requires
        0 <= d <= 9,
        c as int == '0' as int + d,
    ensures
        crate::text::decimal_value(Seq::empty()) == 0,
        crate::text::decimal_value(text.push(c)) == crate::text::decimal_value(text) * 10 + d,
{
    assert(text.push(c).drop_last() =~= text);
}

} // verus!
