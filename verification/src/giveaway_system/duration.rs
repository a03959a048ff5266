//! Duration expressions such as `2h,30m` or `1h30m`.
//!
//! An expression is read from left to right as a sequence of tokens, each a
//! number followed by a unit. A number is a run of decimal digits. Its unit
//! is the next character that is neither a digit nor white space: `j` or
//! `d` for days, `h` for hours, `m` for minutes, `s` for seconds, in either
//! case; with any other character, a comma included, the number counts for
//! nothing. White space may stand between a number and its unit. A number
//! that another number follows before any unit counts for nothing, and so
//! does a character that no number awaits.

use vstd::prelude::*;
use vstd::string::*;
use crate::text::{char_digit_value, char_is_digit, char_is_space, digit_value, is_digit, is_space};

verus! {

/// The seconds one unit letter stands for, 0 for any other character.
pub open spec fn unit_seconds(c: char) -> int {
    if c == 'j' || c == 'J' || c == 'd' || c == 'D' {
        86400
    } else if c == 'h' || c == 'H' {
        3600
    } else if c == 'm' || c == 'M' {
        60
    } else if c == 's' || c == 'S' {
        1
    } else {
        0
    }
}

/// The number that awaits its unit at the end of `s`: the last run of
/// digits, where only white space follows it.
pub open spec fn pending_number(s: Seq<char>) -> Option<nat>
    decreases s.len(),
{
    if s.len() == 0 {
        None
    } else if is_digit(s.last()) {
        if s.len() >= 2 && is_digit(s[s.len() - 2]) {
            match pending_number(s.drop_last()) {
                Some(n) => Some((n * 10 + digit_value(s.last())) as nat),
                None => Some(digit_value(s.last()) as nat),
            }
        } else {
            Some(digit_value(s.last()) as nat)
        }
    } else if is_space(s.last()) {
        pending_number(s.drop_last())
    } else {
        None
    }
}

/// The seconds that the tokens of `s` stand for, all together: each
/// character that closes a number adds that number of its unit.
pub open spec fn read_seconds(s: Seq<char>) -> int
    decreases s.len(),
{
    if s.len() == 0 {
        0
    } else if is_digit(s.last()) || is_space(s.last()) {
        read_seconds(s.drop_last())
    } else {
        read_seconds(s.drop_last()) + (match pending_number(s.drop_last()) {
            Some(n) => n * unit_seconds(s.last()),
            None => 0,
        })
    }
}

/// Every number written in `s` can be held in an `i64`.
pub open spec fn numbers_fit(s: Seq<char>) -> bool
    decreases s.len(),
{
    if s.len() == 0 {
        true
    } else {
        numbers_fit(s.drop_last()) && (match pending_number(s) {
            Some(n) => n <= i64::MAX,
            None => true,
        })
    }
}

/// What a duration expression means: its total in seconds, where every
/// number fits in an `i64` and the total is positive and fits too.
pub open spec fn duration_of(s: Seq<char>) -> Option<i64> {
    if numbers_fit(s) && 0 < read_seconds(s) <= i64::MAX {
        Some(read_seconds(s) as i64)
    } else {
        None
    }
}

/// No expression stands for a negative number of seconds.
pub proof fn lemma_read_seconds_nonnegative(s: Seq<char>)
    ensures
        read_seconds(s) >= 0,
    decreases s.len(),
{
    if s.len() > 0 {
        lemma_read_seconds_nonnegative(s.drop_last());
        match pending_number(s.drop_last()) {
            Some(n) => {
                assert(n * unit_seconds(s.last()) >= 0) by (nonlinear_arith)
                    requires
                        n >= 0,
                        unit_seconds(s.last()) >= 0,
                ;
            },
            None => {},
        }
    }
}

/// A run of digits written after `s` leaves its value awaiting a unit and
/// adds no seconds yet, where `s` does not itself end in a digit.
pub proof fn lemma_number_awaits(s: Seq<char>, digits: Seq<char>)
    requires
        s.len() == 0 || !is_digit(s.last()),
        digits.len() > 0,
        crate::text::all_digits(digits),
    ensures
        pending_number(s + digits) == Some(crate::text::digits_value(digits)),
        read_seconds(s + digits) == read_seconds(s),
    decreases digits.len(),
{
    let whole = s + digits;
    let shorter = digits.drop_last();
    assert(whole.drop_last() =~= s + shorter);
    assert(whole.last() == digits.last());
    assert(is_digit(digits[digits.len() - 1]));
    if shorter.len() == 0 {
        assert(s + shorter =~= s);
        assert(crate::text::digits_value(shorter) == 0);
        if whole.len() >= 2 {
            assert(whole[whole.len() - 2] == s.last());
        }
    } else {
        assert forall|i: int| 0 <= i < shorter.len() implies is_digit(#[trigger] shorter[i]) by {
            assert(shorter[i] == digits[i]);
        }
        lemma_number_awaits(s, shorter);
        assert(whole[whole.len() - 2] == shorter.last());
        assert(is_digit(shorter[shorter.len() - 1]));
    }
}

/// A token written after `s`, the number `digits` and then the unit `unit`,
/// adds that number of that unit to what `s` stands for: `1h` and then
/// `30m` stand for 3600 and 1800 seconds more.
pub proof fn lemma_token_adds(s: Seq<char>, digits: Seq<char>, unit: char)
    requires
        s.len() == 0 || !is_digit(s.last()),
        digits.len() > 0,
        crate::text::all_digits(digits),
        !is_digit(unit),
        !is_space(unit),
    ensures
        read_seconds(s + digits + seq![unit]) == read_seconds(s) + crate::text::digits_value(
            digits,
        ) * unit_seconds(unit),
        pending_number(s + digits + seq![unit]) is None,
{
    lemma_number_awaits(s, digits);
    let whole = s + digits + seq![unit];
    assert(whole.drop_last() =~= s + digits);
    assert(whole.last() == unit);
}

/// The seconds of one unit letter.
fn unit_value(c: char) -> (seconds: i128)
    ensures
        seconds == unit_seconds(c),
{
    if c == 'j' || c == 'J' || c == 'd' || c == 'D' {
        86400
    } else if c == 'h' || c == 'H' {
        3600
    } else if c == 'm' || c == 'M' {
        60
    } else if c == 's' || c == 'S' {
        1
    } else {
        0
    }
}

/// `x`, or one more than the largest `i64` where `x` is larger than that.
pub open spec fn capped(x: int) -> int {
    if x > i64::MAX {
        i64::MAX + 1
    } else {
        x
    }
}

/// Adds a closed token to the running total.
fn add_token(total: i128, number: i128, unit: char) -> (sum: i128)
    requires
        0 <= total <= i64::MAX + 1,
        0 <= number <= i64::MAX,
    ensures
        sum == capped(total + number * unit_seconds(unit)),
        0 <= sum <= i64::MAX + 1,
{
    let per_unit: i128 = unit_value(unit);
    assert(0 <= number * per_unit <= 0x7fff_ffff_ffff_ffff * 86400) by (nonlinear_arith)
        requires
            0 <= number <= 0x7fff_ffff_ffff_ffff,
            0 <= per_unit <= 86400,
    ;
    let sum: i128 = total + number * per_unit;
    if sum > i64::MAX as i128 {
        i64::MAX as i128 + 1
    } else {
        sum
    }
}

/// Reads a duration expression and gives its total in seconds.
///
/// `None` where the expression stands for nothing, and where a number in it
/// or the total does not fit in an `i64`.
pub fn parse_duration(input: &str) -> (seconds: Option<i64>)
    ensures
        seconds == duration_of(input@),
{
    let mut fit = true;
    let mut total: i128 = 0;
    let mut pending: Option<i128> = None;
    let mut in_number = false;
    proof {
        broadcast use group_string_axioms;
        assert(input@.take(0) =~= Seq::<char>::empty());
    }
    for c in it: input.chars()
        invariant
            it.seq() == input@,
            in_number == (it.index() > 0 && is_digit(input@[it.index() - 1])),
            match pending_number(input@.take(it.index())) {
                Some(n) => pending == Some(capped(n as int) as i128),
                None => pending is None,
            },
            fit == numbers_fit(input@.take(it.index())),
            fit ==> total == capped(read_seconds(input@.take(it.index()))),
            0 <= total <= i64::MAX + 1,
    {
        let ghost before = input@.take(it.index());
        proof {
            let after = input@.take(it.index() + 1);
            assert(after.drop_last() =~= before);
            assert(after.last() == c);
            if it.index() > 0 {
                assert(after[after.len() - 2] == input@[it.index() - 1]);
            }
            lemma_read_seconds_nonnegative(before);
        }
        if char_is_digit(c) {
            let digit: i128 = char_digit_value(c) as i128;
            let longer: i128 = match pending {
                Some(n) if in_number => n * 10 + digit,
                _ => digit,
            };
            if longer > i64::MAX as i128 {
                pending = Some(i64::MAX as i128 + 1);
                fit = false;
            } else {
                pending = Some(longer);
            }
            in_number = true;
        } else if char_is_space(c) {
            in_number = false;
        } else {
            match pending {
                Some(n) => {
                    if fit {
                        total = add_token(total, n, c);
                    }
                },
                None => {},
            }
            pending = None;
            in_number = false;
        }
    }
    proof {
        assert(input@.take(input@.len() as int) =~= input@);
    }
    if fit && 0 < total && total <= i64::MAX as i128 {
        Some(total as i64)
    } else {
        None
    }
}

} // verus!
