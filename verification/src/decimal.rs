//! Whole numbers written in decimal, and read back.

use vstd::prelude::*;
use vstd::string::*;

verus! {

/// The character of a single digit.
pub open spec fn digit_char(d: nat) -> char {
    if d == 0 {
        '0'
    } else if d == 1 {
        '1'
    } else if d == 2 {
        '2'
    } else if d == 3 {
        '3'
    } else if d == 4 {
        '4'
    } else if d == 5 {
        '5'
    } else if d == 6 {
        '6'
    } else if d == 7 {
        '7'
    } else if d == 8 {
        '8'
    } else {
        '9'
    }
}

/// Whether a character is a decimal digit.
pub open spec fn is_digit(c: char) -> bool {
    '0' <= c <= '9'
}

/// The number that a digit stands for.
pub open spec fn digit_value(c: char) -> nat {
    (c as int - '0' as int) as nat
}

/// `n` in decimal, without leading zeros.
pub open spec fn digits(n: nat) -> Seq<char>
    decreases n,
{
    if n < 10 {
        seq![digit_char(n)]
    } else {
        digits(n / 10).push(digit_char(n % 10))
    }
}

/// `n` in decimal, with a minus sign when it is negative.
pub open spec fn signed_digits(n: int) -> Seq<char> {
    if n < 0 {
        seq!['-'] + digits((-n) as nat)
    } else {
        digits(n as nat)
    }
}

/// The number that a row of digits stands for.
pub open spec fn value_of(s: Seq<char>) -> nat
    decreases s.len(),
{
    if s.len() == 0 {
        0
    } else {
        10 * value_of(s.drop_last()) + digit_value(s.last())
    }
}

/// Whether every character of a text is a digit.
pub open spec fn all_digits(s: Seq<char>) -> bool {
    forall|i: int| 0 <= i < s.len() ==> is_digit(#[trigger] s[i])
}

/// A text without the one plus sign that a number may start with.
pub open spec fn without_plus(s: Seq<char>) -> Seq<char> {
    if s.len() > 0 && s[0] == '+' {
        s.skip(1)
    } else {
        s
    }
}

/// The machine number that a text spells: at least one digit, nothing but
/// digits, at most one plus sign in front of them, and no more than a `usize`
/// holds. `None` for any other text.
pub open spec fn number_in(s: Seq<char>) -> Option<usize> {
    let body = without_plus(s);
    if body.len() > 0 && all_digits(body) && value_of(body) <= usize::MAX {
        Some(value_of(body) as usize)
    } else {
        None
    }
}

/// Every digit of a decimal text is a digit, and there is at least one.
pub proof fn lemma_digits_are_digits(n: nat)
    ensures
        digits(n).len() > 0,
        all_digits(digits(n)),
    decreases n,
{
    if n >= 10 {
        lemma_digits_are_digits(n / 10);
    }
}

/// The digits of a number stand for that number.
pub proof fn lemma_value_of_digits(n: nat)
    ensures
        value_of(digits(n)) == n,
    decreases n,
{
    reveal_with_fuel(value_of, 2);
    if n >= 10 {
        lemma_value_of_digits(n / 10);
        assert(digits(n).drop_last() =~= digits(n / 10));
    } else {
        assert(digits(n).drop_last() =~= Seq::<char>::empty());
    }
}

/// Reading a written number gives the number back.
pub proof fn law_written_number_reads_back(n: usize)
    ensures
        number_in(digits(n as nat)) == Some(n),
{
    lemma_digits_are_digits(n as nat);
    lemma_value_of_digits(n as nat);
    assert(is_digit(digits(n as nat)[0]));
    assert(without_plus(digits(n as nat)) == digits(n as nat));
}

/// Two different numbers are written differently.
pub proof fn law_numbers_are_written_apart(a: nat, b: nat)
    requires
        digits(a) == digits(b),
    ensures
        a == b,
{
    lemma_value_of_digits(a);
    lemma_value_of_digits(b);
}

/// Reading one more digit never makes the number smaller.
proof fn lemma_value_grows(s: Seq<char>, k: int)
    requires
        0 <= k <= s.len(),
        all_digits(s),
    ensures
        value_of(s.take(k)) <= value_of(s),
    decreases s.len() - k,
{
    if k < s.len() {
        lemma_value_grows(s, k + 1);
        assert(s.take(k + 1).drop_last() =~= s.take(k));
    } else {
        assert(s.take(k) =~= s);
    }
}

/// The text of a single digit.
fn digit_text(d: u64) -> (out: &'static str)
    requires
        d < 10,
    ensures
        out@ == seq![digit_char(d as nat)],
{
    proof {
        reveal_strlit("0");
        reveal_strlit("1");
        reveal_strlit("2");
        reveal_strlit("3");
        reveal_strlit("4");
        reveal_strlit("5");
        reveal_strlit("6");
        reveal_strlit("7");
        reveal_strlit("8");
        reveal_strlit("9");
    }
    if d == 0 {
        "0"
    } else if d == 1 {
        "1"
    } else if d == 2 {
        "2"
    } else if d == 3 {
        "3"
    } else if d == 4 {
        "4"
    } else if d == 5 {
        "5"
    } else if d == 6 {
        "6"
    } else if d == 7 {
        "7"
    } else if d == 8 {
        "8"
    } else {
        "9"
    }
}

/// Writes `n` in decimal.
pub fn decimal(n: u64) -> (out: String)
    ensures
        out@ == digits(n as nat),
    decreases n,
{
    if n < 10 {
        digit_text(n).to_owned()
    } else {
        let mut out = decimal(n / 10);
        out.append(digit_text(n % 10));
        assert(out@ =~= digits(n as nat));
        out
    }
}

/// Writes `n` in decimal, with a minus sign when it is negative.
pub fn signed_decimal(n: i64) -> (out: String)
    ensures
        out@ == signed_digits(n as int),
{
    if n < 0 {
        proof {
            reveal_strlit("-");
        }
        let mut out = "-".to_owned();
        let magnitude: i128 = -(n as i128);
        out.append(decimal(magnitude as u64).as_str());
        assert(out@ =~= signed_digits(n as int));
        out
    } else {
        decimal(n as u64)
    }
}

/// Reads the number that `text[from..to]` spells.
pub fn read_number(text: &Vec<char>, from: usize, to: usize) -> (number: Option<usize>)
    requires
        from <= to <= text@.len(),
    ensures
        number == number_in(text@.subrange(from as int, to as int)),
{
    let ghost whole = text@.subrange(from as int, to as int);
    let start: usize = if from < to && text[from] == '+' {
        from + 1
    } else {
        from
    };
    let ghost body = without_plus(whole);
    assert(body =~= text@.subrange(start as int, to as int));
    if start == to {
        return None;
    }
    let mut value: usize = 0;
    let mut i: usize = start;
    while i < to
        invariant
            start <= i <= to <= text@.len(),
            body == text@.subrange(start as int, to as int),
            whole == text@.subrange(from as int, to as int),
            body == without_plus(whole),
            body.len() > 0,
            all_digits(body.take(i - start)),
            value == value_of(body.take(i - start)),
        decreases to - i,
    {
        let c = text[i];
        assert(body[i - start] == c);
        if c < '0' || c > '9' {
            assert(!is_digit(body[i - start]));
            return None;
        }
        let d: usize = (c as u32 - '0' as u32) as usize;
        proof {
            let next = body.take(i - start + 1);
            assert(next.drop_last() =~= body.take(i - start));
            assert(next.last() == c);
            assert forall|j: int| 0 <= j < next.len() implies is_digit(#[trigger] next[j]) by {
                if j < i - start {
                    assert(next[j] == body.take(i - start)[j]);
                }
            }
            if all_digits(body) {
                lemma_value_grows(body, i - start + 1);
            }
        }
        match value.checked_mul(10) {
            None => {
                return None;
            },
            Some(shifted) => {
                match shifted.checked_add(d) {
                    None => {
                        return None;
                    },
                    Some(grown) => {
                        value = grown;
                    },
                }
            },
        }
        i = i + 1;
    }
    assert(body.take(to - start) =~= body);
    Some(value)
}

/// Decimal is a positional notation: a number below ten is one character, that
/// many places behind `0`, and every further digit is written behind the
/// number that it is the last digit of.
pub proof fn law_digits_are_positional(n: nat, d: nat)
    requires
        d < 10,
    ensures
        digits(d).len() == 1,
        digits(d)[0] as int == '0' as int + d,
        n > 0 ==> digits(10 * n + d) == digits(n) + digits(d),
{
    if n > 0 {
        assert((10 * n + d) / 10 == n && (10 * n + d) % 10 == d) by (nonlinear_arith)
            requires
                d < 10,
        ;
        assert(digits(n).push(digit_char(d)) =~= digits(n) + digits(d));
    }
}

/// A sign stands only in front of a negative number, and the rest is the
/// number without it.
pub proof fn law_only_negative_numbers_have_a_sign(n: nat)
    ensures
        signed_digits(n as int) == digits(n),
        n > 0 ==> signed_digits(-n) == seq!['-'] + digits(n),
{
}

/// A number is read digit by digit: one more digit makes it ten times as large
/// and adds the digit.
pub proof fn law_value_grows_by_a_digit(s: Seq<char>, c: char)
    requires
        '0' <= c <= '9',
    ensures
        value_of(Seq::<char>::empty()) == 0,
        value_of(s.push(c)) == 10 * value_of(s) + (c as int - '0' as int),
{
    assert(s.push(c).drop_last() =~= s);
}

/// A row of digits is read as the number that it stands for, with or without a
/// plus sign, as long as the machine has such a number.
pub proof fn law_digits_are_read(s: Seq<char>)
    requires
        s.len() > 0,
        forall|i: int| 0 <= i < s.len() ==> '0' <= #[trigger] s[i] <= '9',
    ensures
        value_of(s) <= usize::MAX ==> number_in(s) is Some && number_in(s)->0 == value_of(s),
        value_of(s) > usize::MAX ==> number_in(s) is None,
        number_in(seq!['+'] + s) == number_in(s),
{
    assert('0' <= s[0]);
    let signed = seq!['+'] + s;
    assert(signed[0] == '+');
    assert(signed.skip(1) =~= s);
    assert(all_digits(s));
}

/// A text without a digit, and a text with any other character than a plus
/// sign in front of digits, is no number.
pub proof fn law_other_text_is_no_number(s: Seq<char>, i: int)
    requires
        0 <= i < s.len(),
        !('0' <= s[i] <= '9'),
        i > 0 || s[0] != '+',
    ensures
        number_in(s) is None,
        number_in(Seq::<char>::empty()) is None,
        number_in(seq!['+']) is None,
{
    if s[0] == '+' {
        assert(s.skip(1)[i - 1] == s[i]);
    }
    assert(seq!['+'].skip(1) =~= Seq::<char>::empty());
}

} // verus!
