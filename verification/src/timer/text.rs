//! Plain text: decimal numerals and the bracketed forms `[HH:MM:SS]` and
//! `[HH:MM:SS:mmm]`.

use vstd::prelude::*;

verus! {

/// The character of a decimal digit.
pub open spec fn digit_char(digit: nat) -> char {
    if digit == 0 {
        '0'
    } else if digit == 1 {
        '1'
    } else if digit == 2 {
        '2'
    } else if digit == 3 {
        '3'
    } else if digit == 4 {
        '4'
    } else if digit == 5 {
        '5'
    } else if digit == 6 {
        '6'
    } else if digit == 7 {
        '7'
    } else if digit == 8 {
        '8'
    } else {
        '9'
    }
}

/// The decimal numeral of a number, without leading zeros.
pub open spec fn decimal(n: nat) -> Seq<char>
    decreases n,
{
    if n < 10 {
        seq![digit_char(n)]
    } else {
        decimal(n / 10).push(digit_char(n % 10))
    }
}

/// The decimal numeral of a number, with a leading zero below ten.
pub open spec fn two_digits(n: nat) -> Seq<char> {
    if n > 9 {
        decimal(n)
    } else {
        seq!['0'] + decimal(n)
    }
}

/// The decimal numeral of a number, with leading zeros below a hundred.
pub open spec fn three_digits(n: nat) -> Seq<char> {
    if n > 99 {
        decimal(n)
    } else if n > 9 {
        seq!['0'] + decimal(n)
    } else {
        seq!['0', '0'] + decimal(n)
    }
}

/// Hours, minutes and seconds between brackets: `[HH:MM:SS]`.
pub open spec fn bracketed(hours: nat, minutes: nat, seconds: nat) -> Seq<char> {
    seq!['['] + two_digits(hours) + seq![':'] + two_digits(minutes) + seq![':'] + two_digits(
        seconds,
    ) + seq![']']
}

/// Hours, minutes, seconds and milliseconds between brackets:
/// `[HH:MM:SS:mmm]`.
pub open spec fn bracketed_millis(
    hours: nat,
    minutes: nat,
    seconds: nat,
    milliseconds: nat,
) -> Seq<char> {
    seq!['['] + two_digits(hours) + seq![':'] + two_digits(minutes) + seq![':'] + two_digits(
        seconds,
    ) + seq![':'] + three_digits(milliseconds) + seq![']']
}

/// A numeral below ten has one digit, below a hundred two, below a thousand
/// three.
proof fn lemma_decimal_len(n: nat)
    ensures
        decimal(n).len() >= 1,
        n < 10 ==> decimal(n).len() == 1,
        10 <= n < 100 ==> decimal(n).len() == 2,
        100 <= n < 1000 ==> decimal(n).len() == 3,
    decreases n,
{
    if n >= 10 {
        lemma_decimal_len(n / 10);
    }
}

/// The bracketed forms have a fixed width while the hours stay below a
/// hundred: ten characters without milliseconds, fourteen with them.
pub proof fn lemma_bracketed_width(hours: nat, minutes: nat, seconds: nat, milliseconds: nat)
    requires
        hours < 100,
        minutes < 60,
        seconds < 60,
        milliseconds < 1000,
    ensures
        bracketed(hours, minutes, seconds).len() == 10,
        bracketed_millis(hours, minutes, seconds, milliseconds).len() == 14,
{
    lemma_decimal_len(hours);
    lemma_decimal_len(minutes);
    lemma_decimal_len(seconds);
    lemma_decimal_len(milliseconds);
}

/// The numeral of one decimal digit.
fn digit_str(digit: usize) -> (numeral: &'static str)
    requires
        digit < 10,
    ensures
        numeral@ == seq![digit_char(digit as nat)],
{
    proof {
        reveal_strlit("0");
        reveal_strlit("1");
        reveal_strlit("2");
        reveal_strlit("3");
        reveal_strlit("4");
        reveal_strlit("5");
        reveal_strlit("6");
        reveal_strlit("7");
        reveal_strlit("8");
        reveal_strlit("9");
    }
    let numeral = match digit {
        0 => "0",
        1 => "1",
        2 => "2",
        3 => "3",
        4 => "4",
        5 => "5",
        6 => "6",
        7 => "7",
        8 => "8",
        _ => "9",
    };
    assert(numeral@ =~= seq![digit_char(digit as nat)]);
    numeral
}

/// Appends the decimal numeral of `n`.
pub fn push_decimal(out: &mut String, n: usize)
    ensures
        final(out)@ == old(out)@ + decimal(n as nat),
    decreases n,
{
    if n >= 10 {
        push_decimal(out, n / 10);
    }
    out.append(digit_str(n % 10));
    assert(out@ =~= old(out)@ + decimal(n as nat));
}

/// Appends the decimal numeral of `n`, with a leading zero below ten.
pub fn push_two_digits(out: &mut String, n: usize)
    ensures
        final(out)@ == old(out)@ + two_digits(n as nat),
{
    if n <= 9 {
        out.append("0");
    }
    push_decimal(out, n);
    proof {
        reveal_strlit("0");
        assert("0"@ =~= seq!['0']);
        assert(out@ =~= old(out)@ + two_digits(n as nat));
    }
}

/// Appends the decimal numeral of `n`, with leading zeros below a hundred.
pub fn push_three_digits(out: &mut String, n: usize)
    ensures
        final(out)@ == old(out)@ + three_digits(n as nat),
{
    if n <= 9 {
        out.append("00");
    } else if n <= 99 {
        out.append("0");
    }
    push_decimal(out, n);
    proof {
        reveal_strlit("0");
        reveal_strlit("00");
        assert("0"@ =~= seq!['0']);
        assert("00"@ =~= seq!['0', '0']);
        assert(out@ =~= old(out)@ + three_digits(n as nat));
    }
}

/// The text `[HH:MM:SS]` of hours, minutes and seconds.
pub fn render_bracketed(hours: usize, minutes: usize, seconds: usize) -> (text: String)
    ensures
        text@ == bracketed(hours as nat, minutes as nat, seconds as nat),
{
    proof {
        reveal_strlit("[");
        reveal_strlit(":");
        reveal_strlit("]");
        assert("["@ =~= seq!['[']);
        assert(":"@ =~= seq![':']);
        assert("]"@ =~= seq![']']);
    }
    let mut text = String::new();
    text.append("[");
    push_two_digits(&mut text, hours);
    text.append(":");
    push_two_digits(&mut text, minutes);
    text.append(":");
    push_two_digits(&mut text, seconds);
    text.append("]");
    assert(text@ =~= bracketed(hours as nat, minutes as nat, seconds as nat));
    text
}

/// The text `[HH:MM:SS:mmm]` of hours, minutes, seconds and milliseconds.
pub fn render_bracketed_millis(
    hours: usize,
    minutes: usize,
    seconds: usize,
    milliseconds: usize,
) -> (text: String)
    ensures
        text@ == bracketed_millis(
            hours as nat,
            minutes as nat,
            seconds as nat,
            milliseconds as nat,
        ),
{
    proof {
        reveal_strlit("[");
        reveal_strlit(":");
        reveal_strlit("]");
        assert("["@ =~= seq!['[']);
        assert(":"@ =~= seq![':']);
        assert("]"@ =~= seq![']']);
    }
    let mut text = String::new();
    text.append("[");
    push_two_digits(&mut text, hours);
    text.append(":");
    push_two_digits(&mut text, minutes);
    text.append(":");
    push_two_digits(&mut text, seconds);
    text.append(":");
    push_three_digits(&mut text, milliseconds);
    text.append("]");
    assert(text@ =~= bracketed_millis(
        hours as nat,
        minutes as nat,
        seconds as nat,
        milliseconds as nat,
    ));
    text
}

} // verus!
