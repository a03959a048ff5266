//! Characters and decimal numbers, as the parsers and renderers of this
//! crate read and write them.

use vstd::prelude::*;
use vstd::std_specs::iter::IteratorSpec;
use vstd::string::*;

verus! {

/// An ASCII decimal digit.
pub open spec fn is_digit(c: char) -> bool {
    '0' <= c && c <= '9'
}

/// The number a decimal digit stands for.
pub open spec fn digit_value(c: char) -> int {
    c as u32 as int - 48
}

/// A character with the Unicode `White_Space` property.
pub open spec fn is_space(c: char) -> bool {
    let u: u32 = c as u32;
    ||| 0x09 <= u <= 0x0d
    ||| u == 0x20
    ||| u == 0x85
    ||| u == 0xa0
    ||| u == 0x1680
    ||| 0x2000 <= u <= 0x200a
    ||| u == 0x2028
    ||| u == 0x2029
    ||| u == 0x202f
    ||| u == 0x205f
    ||| u == 0x3000
}

/// Tells whether `c` is an ASCII decimal digit.
pub fn char_is_digit(c: char) -> (yes: bool)
    ensures
        yes == is_digit(c),
{
    c >= '0' && c <= '9'
}

/// The value of the decimal digit `c`.
pub fn char_digit_value(c: char) -> (value: u8)
    requires
        is_digit(c),
    ensures
        value as int == digit_value(c),
        value <= 9,
{
    let u: u32 = c as u32;
    (u - 48) as u8
}

/// Tells whether `c` is white space.
pub fn char_is_space(c: char) -> (yes: bool)
    ensures
        yes == is_space(c),
{
    let u: u32 = c as u32;
    (0x09 <= u && u <= 0x0d) || u == 0x20 || u == 0x85 || u == 0xa0 || u == 0x1680 || (0x2000 <= u
        && u <= 0x200a) || u == 0x2028 || u == 0x2029 || u == 0x202f || u == 0x205f || u == 0x3000
}

/// Tells whether two strings hold the same characters.
pub fn str_equals(a: &str, b: &str) -> (same: bool)
    ensures
        same == (a@ == b@),
{
    proof {
        broadcast use group_string_axioms;
    }
    let mut left = a.chars();
    let mut right = b.chars();
    let ghost mut k: int = 0;
    proof {
        assert(a@.skip(0) =~= a@);
        assert(b@.skip(0) =~= b@);
    }
    loop
        invariant
            0 <= k <= a@.len(),
            k <= b@.len(),
            left.remaining() == a@.skip(k),
            right.remaining() == b@.skip(k),
            forall|i: int| 0 <= i < k ==> a@[i] == b@[i],
        decreases a@.len() - k,
    {
        proof {
            broadcast use group_string_axioms;
        }
        let x = left.next();
        let y = right.next();
        match (x, y) {
            (None, None) => {
                assert(a@ =~= b@);
                return true;
            },
            (Some(c), Some(d)) => {
                if c != d {
                    assert(a@[k] != b@[k]);
                    return false;
                }
                proof {
                    assert(a@.skip(k).drop_first() =~= a@.skip(k + 1));
                    assert(b@.skip(k).drop_first() =~= b@.skip(k + 1));
                    k = k + 1;
                }
            },
            _ => {
                assert(a@.len() != b@.len());
                return false;
            },
        }
    }
}

/// Tells whether `text` begins with the characters of `prefix`.
pub fn str_starts_with(text: &str, prefix: &str) -> (yes: bool)
    ensures
        yes == prefix@.is_prefix_of(text@),
{
    proof {
        broadcast use group_string_axioms;
    }
    let mut left = text.chars();
    let mut right = prefix.chars();
    let ghost mut k: int = 0;
    proof {
        assert(text@.skip(0) =~= text@);
        assert(prefix@.skip(0) =~= prefix@);
    }
    loop
        invariant
            0 <= k <= text@.len(),
            k <= prefix@.len(),
            left.remaining() == text@.skip(k),
            right.remaining() == prefix@.skip(k),
            forall|i: int| 0 <= i < k ==> text@[i] == prefix@[i],
        decreases prefix@.len() - k,
    {
        proof {
            broadcast use group_string_axioms;
        }
        let y = right.next();
        let d = match y {
            None => {
                assert(prefix@ =~= text@.subrange(0, prefix@.len() as int));
                return true;
            },
            Some(d) => d,
        };
        let x = left.next();
        match x {
            Some(c) => {
                if c != d {
                    assert(text@[k] != prefix@[k]);
                    return false;
                }
                proof {
                    assert(text@.skip(k).drop_first() =~= text@.skip(k + 1));
                    assert(prefix@.skip(k).drop_first() =~= prefix@.skip(k + 1));
                    k = k + 1;
                }
            },
            None => {
                assert(text@.len() < prefix@.len());
                return false;
            },
        }
    }
}

/// The number written by the decimal digits of `s`, read in order and
/// skipping every other character; 0 without digits.
pub open spec fn digits_value(s: Seq<char>) -> nat
    decreases s.len(),
{
    if s.len() == 0 {
        0
    } else if is_digit(s.last()) {
        (digits_value(s.drop_last()) * 10 + digit_value(s.last())) as nat
    } else {
        digits_value(s.drop_last())
    }
}

/// `s` holds decimal digits and nothing else.
pub open spec fn all_digits(s: Seq<char>) -> bool {
    forall|i: int| 0 <= i < s.len() ==> is_digit(#[trigger] s[i])
}

/// The integer that `s` writes in decimal: an optional `+` or `-`, then one
/// digit or more and nothing else. `None` for any other text.
pub open spec fn signed_decimal(s: Seq<char>) -> Option<int> {
    if s.len() == 0 {
        None
    } else if s[0] == '-' || s[0] == '+' {
        if s.len() > 1 && all_digits(s.skip(1)) {
            Some(
                if s[0] == '-' {
                    -(digits_value(s.skip(1)) as int)
                } else {
                    digits_value(s.skip(1)) as int
                },
            )
        } else {
            None
        }
    } else if all_digits(s) {
        Some(digits_value(s) as int)
    } else {
        None
    }
}

/// The `i32` that `s` writes in decimal, where it writes one.
pub open spec fn decimal_i32(s: Seq<char>) -> Option<i32> {
    match signed_decimal(s) {
        Some(v) => if i32::MIN <= v <= i32::MAX {
            Some(v as i32)
        } else {
            None
        },
        None => None,
    }
}

/// Reads a decimal `i32`: an optional sign, then digits and nothing else.
pub fn parse_i32(text: &str) -> (value: Option<i32>)
    ensures
        value == decimal_i32(text@),
{
    let limit: i64 = 0x8000_0000;
    let mut negative = false;
    let mut signed = false;
    let mut clean = true;
    let mut magnitude: i64 = 0;
    let mut first = true;
    let mut any = false;
    proof {
        broadcast use group_string_axioms;
    }
    for c in it: text.chars()
        invariant
            it.seq() == text@,
            limit == 0x8000_0000,
            first == (it.index() == 0),
            any == (it.index() > if signed { 1int } else { 0int }),
            signed == (it.index() > 0 && (text@[0] == '-' || text@[0] == '+')),
            negative == (it.index() > 0 && text@[0] == '-'),
            clean == all_digits(text@.subrange(if signed { 1int } else { 0int }, it.index())),
            0 <= magnitude <= limit + 1,
            clean ==> magnitude == if digits_value(
                text@.subrange(if signed { 1int } else { 0int }, it.index()),
            ) > limit {
                limit + 1
            } else {
                digits_value(text@.subrange(if signed { 1int } else { 0int }, it.index())) as int
            },
    {
        let ghost start = if signed { 1int } else { 0int };
        let ghost seen = text@.subrange(start, it.index());
        if first && (c == '-' || c == '+') {
            signed = true;
            negative = c == '-';
            proof {
                assert(text@.subrange(1, 1) =~= Seq::<char>::empty());
            }
        } else {
            let ghost longer = text@.subrange(start, it.index() + 1);
            proof {
                assert(longer.drop_last() =~= seen);
                assert(longer.last() == c);
            }
            if char_is_digit(c) {
                let digit = char_digit_value(c);
                let next: i64 = magnitude * 10 + digit as i64;
                magnitude = if next > limit {
                    limit + 1
                } else {
                    next
                };
                proof {
                    if clean {
                        assert forall|i: int| 0 <= i < longer.len() implies is_digit(
                            #[trigger] longer[i],
                        ) by {
                            if i < seen.len() {
                                assert(longer[i] == seen[i]);
                            }
                        }
                    } else {
                        let bad = choose|i: int| 0 <= i < seen.len() && !is_digit(seen[i]);
                        assert(longer[bad] == seen[bad]);
                    }
                }
            } else {
                clean = false;
                proof {
                    assert(longer[longer.len() - 1] == c);
                }
            }
            any = true;
        }
        first = false;
    }
    proof {
        let start = if signed { 1int } else { 0int };
        if signed {
            assert(text@.subrange(1, text@.len() as int) =~= text@.skip(1));
        } else {
            assert(text@.subrange(0, text@.len() as int) =~= text@);
        }
    }
    if !any || !clean {
        return None;
    }
    if negative {
        if magnitude <= limit {
            Some((-magnitude) as i32)
        } else {
            None
        }
    } else {
        if magnitude < limit {
            Some(magnitude as i32)
        } else {
            None
        }
    }
}

/// The character that writes the digit `d`.
pub open spec fn digit_char(d: int) -> char {
    if d == 0 {
        '0'
    } else if d == 1 {
        '1'
    } else if d == 2 {
        '2'
    } else if d == 3 {
        '3'
    } else if d == 4 {
        '4'
    } else if d == 5 {
        '5'
    } else if d == 6 {
        '6'
    } else if d == 7 {
        '7'
    } else if d == 8 {
        '8'
    } else {
        '9'
    }
}

/// A natural number written in decimal, without leading zeros.
pub open spec fn natural_text(n: nat) -> Seq<char>
    decreases n,
{
    if n < 10 {
        seq![digit_char(n as int)]
    } else {
        natural_text(n / 10).push(digit_char((n % 10) as int))
    }
}

/// An integer written in decimal, with `-` before a negative one.
pub open spec fn integer_text(v: int) -> Seq<char> {
    if v < 0 {
        seq!['-'] + natural_text((-v) as nat)
    } else {
        natural_text(v as nat)
    }
}

/// The text of one digit.
fn digit_str(d: u64) -> (text: &'static str)
    requires
        d < 10,
    ensures
        text@ == seq![digit_char(d as int)],
{
    proof {
        reveal_strlit("0");
        reveal_strlit("1");
        reveal_strlit("2");
        reveal_strlit("3");
        reveal_strlit("4");
        reveal_strlit("5");
        reveal_strlit("6");
        reveal_strlit("7");
        reveal_strlit("8");
        reveal_strlit("9");
    }
    let text = if d == 0 {
        "0"
    } else if d == 1 {
        "1"
    } else if d == 2 {
        "2"
    } else if d == 3 {
        "3"
    } else if d == 4 {
        "4"
    } else if d == 5 {
        "5"
    } else if d == 6 {
        "6"
    } else if d == 7 {
        "7"
    } else if d == 8 {
        "8"
    } else {
        "9"
    };
    assert(text@ =~= seq![digit_char(d as int)]);
    text
}

/// Writes `n` in decimal at the end of `out`.
pub fn append_natural(out: &mut String, n: u64)
    ensures
        final(out)@ == old(out)@ + natural_text(n as nat),
    decreases n,
{
    if n >= 10 {
        append_natural(out, n / 10);
    }
    out.append(digit_str(n % 10));
    proof {
        if n >= 10 {
            assert(old(out)@ + natural_text((n / 10) as nat) + seq![digit_char((n % 10) as int)]
                =~= old(out)@ + natural_text(n as nat));
        }
    }
}

/// Writes `v` in decimal at the end of `out`.
pub fn append_integer(out: &mut String, v: i64)
    ensures
        final(out)@ == old(out)@ + integer_text(v as int),
{
    if v < 0 {
        proof {
            reveal_strlit("-");
        }
        out.append("-");
        let magnitude: u64 = (-(v as i128)) as u64;
        append_natural(out, magnitude);
        proof {
            assert("-"@ =~= seq!['-']);
            assert(old(out)@ + seq!['-'] + natural_text(magnitude as nat) =~= old(out)@
                + integer_text(v as int));
        }
    } else {
        append_natural(out, v as u64);
    }
}

/// A natural number written in decimal is digits only, at least one,
/// and they read back as the number.
pub proof fn lemma_natural_text_reads_back(n: nat)
    ensures
        natural_text(n).len() >= 1,
        all_digits(natural_text(n)),
        digits_value(natural_text(n)) == n,
    decreases n,
{
    let last = digit_char((n % 10) as int);
    assert(is_digit(last) && digit_value(last) == n % 10);
    if n < 10 {
        let text = natural_text(n);
        assert(text.drop_last() =~= Seq::<char>::empty());
        assert(digits_value(text.drop_last()) == 0);
    } else {
        lemma_natural_text_reads_back(n / 10);
        let head = natural_text(n / 10);
        let text = head.push(last);
        assert(text.drop_last() =~= head);
        assert forall|i: int| 0 <= i < text.len() implies is_digit(#[trigger] text[i]) by {
            if i < head.len() {
                assert(text[i] == head[i]);
            }
        }
    }
}

/// An integer written in decimal reads back as itself.
pub proof fn lemma_integer_text_reads_back(v: int)
    ensures
        signed_decimal(integer_text(v)) == Some(v),
        i32::MIN <= v <= i32::MAX ==> decimal_i32(integer_text(v)) == Some(v as i32),
{
    let text = integer_text(v);
    if v < 0 {
        let digits = natural_text((-v) as nat);
        lemma_natural_text_reads_back((-v) as nat);
        assert(text.skip(1) =~= digits);
        assert(text[0] == '-');
    } else {
        lemma_natural_text_reads_back(v as nat);
        assert(is_digit(text[0]));
    }
}

} // verus!