//! Character-level operations on strings.
//!
//! A string is modelled by the sequence of its characters.

use vstd::prelude::*;
use vstd::string::*;

verus! {

/// The text of each string in a list.
pub open spec fn texts(strings: Seq<String>) -> Seq<Seq<char>> {
    strings.map_values(|s: String| s@)
}

/// An outcome, with its error as text.
pub open spec fn outcome(result: Result<(), String>) -> Result<(), Seq<char>> {
    match result {
        Ok(()) => Ok(()),
        Err(error) => Err(error@),
    }
}

/// A text or an error, as text.
pub open spec fn text_outcome(result: Result<String, String>) -> Result<Seq<char>, Seq<char>> {
    match result {
        Ok(text) => Ok(text@),
        Err(error) => Err(error@),
    }
}

/// Collects the characters of `s` into a vector.
pub fn chars_of(s: &str) -> (chars: Vec<char>)
    ensures
        chars@ == s@,
{
    let mut chars: Vec<char> = Vec::new();
    for c in it: s.chars()
        invariant
            it.seq() == s@,
            chars@ == s@.take(it.index() as int),
    {
        chars.push(c);
    }
    proof {
        assert(s@.take(s@.len() as int) == s@);
    }
    chars
}

/// Whether `a` and `b` hold the same characters.
pub fn str_eq(a: &str, b: &str) -> (same: bool)
    ensures
        same == (a@ == b@),
{
    let x = chars_of(a);
    let y = chars_of(b);
    if x.len() != y.len() {
        return false;
    }
    for i in 0..x.len()
        invariant
            x@ == a@,
            y@ == b@,
            x.len() == y.len(),
            forall|j: int| 0 <= j < i ==> x@[j] == y@[j],
    {
        if x[i] != y[i] {
            return false;
        }
    }
    proof {
        assert(a@ =~= b@);
    }
    true
}

/// Lexicographic order by code point; the order of `String` in the standard library.
pub open spec fn lex_less(a: Seq<char>, b: Seq<char>) -> bool
    decreases a.len(),
{
    if b.len() == 0 {
        false
    } else if a.len() == 0 {
        true
    } else if a[0] != b[0] {
        a[0] < b[0]
    } else {
        lex_less(a.drop_first(), b.drop_first())
    }
}

/// The order is total: of two texts that differ exactly one comes first.
pub proof fn lex_less_is_total(a: Seq<char>, b: Seq<char>)
    ensures
        !(lex_less(a, b) && lex_less(b, a)),
        lex_less(a, b) || lex_less(b, a) || a == b,
        a == b ==> !lex_less(a, b),
    decreases a.len(),
{
    if a.len() > 0 && b.len() > 0 && a[0] == b[0] {
        lex_less_is_total(a.drop_first(), b.drop_first());
        if a.drop_first() == b.drop_first() {
            assert(a =~= seq![a[0]] + a.drop_first());
            assert(b =~= seq![b[0]] + b.drop_first());
        }
    } else if a.len() == 0 && b.len() == 0 {
        assert(a =~= b);
    }
}

/// The order is transitive.
pub proof fn lex_less_is_transitive(a: Seq<char>, b: Seq<char>, c: Seq<char>)
    requires
        lex_less(a, b),
        lex_less(b, c),
    ensures
        lex_less(a, c),
    decreases a.len(),
{
    if a.len() > 0 && a[0] == b[0] && b[0] == c[0] {
        lex_less_is_transitive(a.drop_first(), b.drop_first(), c.drop_first());
    }
}

/// Whether `a` comes strictly before `b`.
pub fn str_less(a: &str, b: &str) -> (less: bool)
    ensures
        less == lex_less(a@, b@),
{
    let x = chars_of(a);
    let y = chars_of(b);
    let mut i: usize = 0;
    proof {
        assert(a@.skip(0) =~= a@);
        assert(b@.skip(0) =~= b@);
    }
    while i < x.len() && i < y.len() && x[i] == y[i]
        invariant
            x@ == a@,
            y@ == b@,
            i <= x.len(),
            i <= y.len(),
            lex_less(a@, b@) == lex_less(a@.skip(i as int), b@.skip(i as int)),
        decreases x.len() - i,
    {
        proof {
            assert(a@.skip(i as int).drop_first() =~= a@.skip(i + 1));
            assert(b@.skip(i as int).drop_first() =~= b@.skip(i + 1));
        }
        i = i + 1;
    }
    if i == y.len() {
        false
    } else if i == x.len() {
        true
    } else {
        x[i] < y[i]
    }
}

/// Whether `s` begins with `prefix`.
pub open spec fn starts_with(s: Seq<char>, prefix: Seq<char>) -> bool {
    prefix.len() <= s.len() && s.take(prefix.len() as int) == prefix
}

/// What follows `prefix` in `s`, if `s` begins with it.
pub fn strip_prefix(s: &str, prefix: &str) -> (rest: Option<String>)
    ensures
        rest is Some <==> starts_with(s@, prefix@),
        rest matches Some(r) ==> r@ == s@.skip(prefix@.len() as int),
{
    let x = chars_of(s);
    let p = chars_of(prefix);
    if x.len() < p.len() {
        return None;
    }
    for i in 0..p.len()
        invariant
            x@ == s@,
            p@ == prefix@,
            p.len() <= x.len(),
            forall|j: int| 0 <= j < i ==> x@[j] == p@[j],
    {
        if x[i] != p[i] {
            proof {
                assert(s@.take(prefix@.len() as int)[i as int] != prefix@[i as int]);
            }
            return None;
        }
    }
    proof {
        assert(s@.take(prefix@.len() as int) =~= prefix@);
        assert(s@.subrange(p.len() as int, x.len() as int) =~= s@.skip(prefix@.len() as int));
    }
    Some(s.substring_char(p.len(), x.len()).to_string())
}

/// The characters with the Unicode property `White_Space`.
pub open spec fn white_space(c: char) -> bool {
    ||| '\u{9}' <= c <= '\u{d}'
    ||| c == ' '
    ||| c == '\u{85}'
    ||| c == '\u{a0}'
    ||| c == '\u{1680}'
    ||| '\u{2000}' <= c <= '\u{200a}'
    ||| c == '\u{2028}'
    ||| c == '\u{2029}'
    ||| c == '\u{202f}'
    ||| c == '\u{205f}'
    ||| c == '\u{3000}'
}

/// Whether `c` has the Unicode property `White_Space`.
pub fn is_white_space(c: char) -> (yes: bool)
    ensures
        yes == white_space(c),
{
    ('\u{9}' <= c && c <= '\u{d}') || c == ' ' || c == '\u{85}' || c == '\u{a0}' || c == '\u{1680}'
        || ('\u{2000}' <= c && c <= '\u{200a}') || c == '\u{2028}' || c == '\u{2029}' || c == '\u{202f}'
        || c == '\u{205f}' || c == '\u{3000}'
}

/// `s` without its leading white space.
pub open spec fn trim_start(s: Seq<char>) -> Seq<char>
    decreases s.len(),
{
    if s.len() > 0 && white_space(s[0]) {
        trim_start(s.drop_first())
    } else {
        s
    }
}

/// `s` without its trailing white space.
pub open spec fn trim_end(s: Seq<char>) -> Seq<char>
    decreases s.len(),
{
    if s.len() > 0 && white_space(s.last()) {
        trim_end(s.drop_last())
    } else {
        s
    }
}

/// `s` without its leading and trailing white space.
pub open spec fn trimmed(s: Seq<char>) -> Seq<char> {
    trim_end(trim_start(s))
}

/// Whether `s` holds nothing but white space.
pub open spec fn all_white(s: Seq<char>) -> bool {
    forall|i: int| 0 <= i < s.len() ==> white_space(#[trigger] s[i])
}

/// White space around a text is ignored.
pub proof fn surrounding_white_space_is_ignored(
    before: Seq<char>,
    s: Seq<char>,
    after: Seq<char>,
)
    requires
        all_white(before),
        all_white(after),
    ensures
        trimmed(before + s + after) == trimmed(s),
{
    assert(before + s + after =~= before + (s + after));
    leading_white_space(before, s + after);
    trailing_white_space(s, after);
}

proof fn leading_white_space(white: Seq<char>, s: Seq<char>)
    requires
        all_white(white),
    ensures
        trim_start(white + s) == trim_start(s),
    decreases white.len(),
{
    if white.len() == 0 {
        assert(white + s =~= s);
    } else {
        assert((white + s)[0] == white[0]);
        assert((white + s).drop_first() =~= white.drop_first() + s);
        leading_white_space(white.drop_first(), s);
    }
}

proof fn trailing_white_space(s: Seq<char>, white: Seq<char>)
    requires
        all_white(white),
    ensures
        trim_end(trim_start(s + white)) == trim_end(trim_start(s)),
    decreases s.len() + white.len(),
{
    if s.len() == 0 {
        leading_white_space(white, Seq::empty());
        assert(s + white =~= white + Seq::<char>::empty());
        assert(s =~= Seq::empty());
    } else if white_space(s[0]) {
        assert((s + white)[0] == s[0]);
        assert((s + white).drop_first() =~= s.drop_first() + white);
        trailing_white_space(s.drop_first(), white);
    } else {
        assert((s + white)[0] == s[0]);
        if white.len() == 0 {
            assert(s + white =~= s);
        } else {
            assert((s + white).last() == white.last());
            assert((s + white).drop_last() =~= s + white.drop_last());
            assert((s + white.drop_last())[0] == s[0]);
            trailing_white_space(s, white.drop_last());
        }
    }
}

/// `s` without its leading and trailing white space.
pub fn trim(s: &str) -> (inner: &str)
    ensures
        inner@ == trimmed(s@),
{
    let x = chars_of(s);
    let mut from: usize = 0;
    proof {
        assert(s@.skip(0) =~= s@);
    }
    while from < x.len() && is_white_space(x[from])
        invariant
            x@ == s@,
            from <= x.len(),
            trim_start(s@) == trim_start(s@.skip(from as int)),
        decreases x.len() - from,
    {
        proof {
            assert(s@.skip(from as int).drop_first() =~= s@.skip(from + 1));
        }
        from = from + 1;
    }
    let mut to: usize = x.len();
    proof {
        assert(trim_start(s@) == s@.skip(from as int));
        assert(s@.skip(from as int) =~= s@.subrange(from as int, to as int));
    }
    while from < to && is_white_space(x[to - 1])
        invariant
            x@ == s@,
            from <= to <= x.len(),
            trim_end(s@.skip(from as int)) == trim_end(s@.subrange(from as int, to as int)),
        decreases to,
    {
        proof {
            assert(s@.subrange(from as int, to as int).drop_last() =~= s@.subrange(from as int, to - 1));
        }
        to = to - 1;
    }
    s.substring_char(from, to)
}

/// The decimal digit for `d`.
pub open spec fn digit(d: nat) -> char
    recommends
        d < 10,
{
    seq!['0', '1', '2', '3', '4', '5', '6', '7', '8', '9'][d as int]
}

/// `n` written in decimal, without leading zeros.
pub open spec fn decimal(n: nat) -> Seq<char>
    decreases n,
{
    if n < 10 {
        seq![digit(n)]
    } else {
        decimal(n / 10).push(digit(n % 10))
    }
}

/// The number that a sequence of decimal digits stands for.
pub open spec fn decimal_value(s: Seq<char>) -> int
    decreases s.len(),
{
    if s.len() == 0 {
        0
    } else {
        decimal_value(s.drop_last()) * 10 + (s.last() as int - '0' as int)
    }
}

/// Reading a number's decimal text gives the number back.
pub proof fn decimal_reads_back(n: nat)
    ensures
        decimal_value(decimal(n)) == n,
    decreases n,
{
    reveal_with_fuel(decimal_value, 2);
    if n < 10 {
        assert(decimal(n).drop_last() =~= Seq::<char>::empty());
    } else {
        decimal_reads_back(n / 10);
        assert(decimal(n).drop_last() =~= decimal(n / 10));
    }
}

/// The text of one decimal digit.
fn digit_text(d: u64) -> (text: &'static str)
    requires
        d < 10,
    ensures
        text@ == seq![digit(d as nat)],
{
    proof {
        reveal_strlit("0");
        reveal_strlit("1");
        reveal_strlit("2");
        reveal_strlit("3");
        reveal_strlit("4");
        reveal_strlit("5");
        reveal_strlit("6");
        reveal_strlit("7");
        reveal_strlit("8");
        reveal_strlit("9");
    }
    match d {
        0 => "0",
        1 => "1",
        2 => "2",
        3 => "3",
        4 => "4",
        5 => "5",
        6 => "6",
        7 => "7",
        8 => "8",
        _ => "9",
    }
}

/// Writes `n` in decimal.
pub fn decimal_text(n: u64) -> (text: String)
    ensures
        text@ == decimal(n as nat),
{
    let mut text: String = digit_text(n % 10).to_string();
    let mut rest: u64 = n / 10;
    while rest > 0
        invariant
            decimal(n as nat) == (if rest == 0 { Seq::<char>::empty() } else { decimal(rest as nat) })
                + text@,
        decreases rest,
    {
        let head = digit_text(rest % 10).to_string();
        proof {
            assert(decimal(rest as nat) + text@ =~= (if rest / 10 == 0 { Seq::<char>::empty() } else {
                decimal((rest / 10) as nat)
            }) + (head@ + text@));
        }
        text = head.concat(text.as_str());
        rest = rest / 10;
    }
    text
}

} // verus!
