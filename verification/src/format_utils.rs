//! Utility functions for formatting metric output.
//!
//! Percentages arrive as fixed-point millionths (see [`crate::fixed`]) and
//! are rendered in decimal with one or two fractional digits, truncating
//! the rest.

use vstd::prelude::*;

use crate::fixed::UNIT;

verus! {

/// The decimal digit character for `d`.
pub open spec fn digit_char(d: nat) -> char {
    if d == 0 {
        '0'
    } else if d == 1 {
        '1'
    } else if d == 2 {
        '2'
    } else if d == 3 {
        '3'
    } else if d == 4 {
        '4'
    } else if d == 5 {
        '5'
    } else if d == 6 {
        '6'
    } else if d == 7 {
        '7'
    } else if d == 8 {
        '8'
    } else {
        '9'
    }
}

/// The decimal digits of `n`, most significant first.
pub open spec fn dec_digits(n: nat) -> Seq<char>
    decreases n,
{
    if n < 10 {
        seq![digit_char(n)]
    } else {
        dec_digits(n / 10).push(digit_char(n % 10))
    }
}

/// A fixed-point value rendered with one fractional digit, truncated:
/// the integer part, a dot, and the tenths digit.
pub open spec fn fixed1_chars(v: u64) -> Seq<char> {
    dec_digits((v / UNIT) as nat) + seq!['.', digit_char(((v % UNIT) / 100_000) as nat)]
}

/// A fixed-point value rendered with two fractional digits, truncated.
pub open spec fn fixed2_chars(v: u64) -> Seq<char> {
    dec_digits((v / UNIT) as nat) + seq![
        '.',
        digit_char(((v % UNIT) / 100_000) as nat),
        digit_char((((v % UNIT) / 10_000) % 10) as nat),
    ]
}

/// A fixed-point value rendered with up to two meaningful fractional
/// digits: trailing zeros and a bare dot are left off.
pub open spec fn trimmed_fixed2_chars(v: u64) -> Seq<char> {
    let d1 = ((v % UNIT) / 100_000) as nat;
    let d2 = (((v % UNIT) / 10_000) % 10) as nat;
    if d2 != 0 {
        dec_digits((v / UNIT) as nat) + seq!['.', digit_char(d1), digit_char(d2)]
    } else if d1 != 0 {
        dec_digits((v / UNIT) as nat) + seq!['.', digit_char(d1)]
    } else {
        dec_digits((v / UNIT) as nat)
    }
}

/// A character with a space made visible as an open-box glyph.
pub open spec fn visible_symbol(c: char) -> char {
    if c == ' ' {
        '\u{2423}'
    } else {
        c
    }
}

/// The view of a string with every space made visible.
pub open spec fn visualized_chars(s: Seq<char>) -> Seq<char> {
    s.map_values(|c: char| visible_symbol(c))
}

/// A cost and a frequency percentage rendered side by side: the cost
/// share with one fractional digit, the frequency share with two, both
/// truncated.
pub open spec fn percentages_chars(cost_percent: u64, freq_percent: u64) -> Seq<char> {
    fixed1_chars(cost_percent) + seq!['%', '|'] + fixed2_chars(freq_percent) + seq!['%']
}

/// A list of message parts joined with a separator.
pub open spec fn joined_chars(parts: Seq<Seq<char>>, separator: Seq<char>) -> Seq<char>
    decreases parts.len(),
{
    if parts.len() == 0 {
        Seq::empty()
    } else if parts.len() == 1 {
        parts[0]
    } else {
        joined_chars(parts.drop_last(), separator) + separator + parts.last()
    }
}

/// Relies on `String::push`: appends one character to the string.
#[verifier::external_body]
fn push_char(s: &mut String, c: char)
    ensures
        final(s)@ == old(s)@.push(c),
{
    s.push(c);
}

/// Append the digit character for `d` to the string.
fn push_digit(s: &mut String, d: u64)
    requires
        d < 10,
    ensures
        final(s)@ == old(s)@.push(digit_char(d as nat)),
{
    let c = if d == 0 {
        '0'
    } else if d == 1 {
        '1'
    } else if d == 2 {
        '2'
    } else if d == 3 {
        '3'
    } else if d == 4 {
        '4'
    } else if d == 5 {
        '5'
    } else if d == 6 {
        '6'
    } else if d == 7 {
        '7'
    } else if d == 8 {
        '8'
    } else {
        '9'
    };
    push_char(s, c);
}

/// Append the decimal digits of `n` to the string.
fn push_decimal(s: &mut String, n: u64)
    ensures
        final(s)@ == old(s)@ + dec_digits(n as nat),
    decreases n,
{
    if n < 10 {
        push_digit(s, n);
        proof {
            assert(final(s)@ =~= old(s)@ + dec_digits(n as nat));
        }
    } else {
        push_decimal(s, n / 10);
        push_digit(s, n % 10);
        proof {
            assert(final(s)@ =~= old(s)@ + dec_digits(n as nat));
        }
    }
}

/// Render a fixed-point value with one truncated fractional digit.
pub fn fmt_fixed1(v: u64) -> (r: String)
    ensures
        r@ == fixed1_chars(v),
{
    let mut s = String::new();
    push_decimal(&mut s, v / UNIT);
    push_char(&mut s, '.');
    push_digit(&mut s, (v % UNIT) / 100_000);
    proof {
        assert(s@ =~= fixed1_chars(v));
    }
    s
}

/// Render a fixed-point value with two truncated fractional digits.
pub fn fmt_fixed2(v: u64) -> (r: String)
    ensures
        r@ == fixed2_chars(v),
{
    let mut s = String::new();
    push_decimal(&mut s, v / UNIT);
    push_char(&mut s, '.');
    push_digit(&mut s, (v % UNIT) / 100_000);
    push_digit(&mut s, ((v % UNIT) / 10_000) % 10);
    proof {
        assert(s@ =~= fixed2_chars(v));
    }
    s
}

/// Format a percentage with up to two meaningful decimal places, leaving
/// off trailing zeros and a bare decimal point.
pub fn format_percentage(value: u64) -> (r: String)
    ensures
        r@ == trimmed_fixed2_chars(value),
{
    let d1 = (value % UNIT) / 100_000;
    let d2 = ((value % UNIT) / 10_000) % 10;
    let mut s = String::new();
    push_decimal(&mut s, value / UNIT);
    if d2 != 0 {
        push_char(&mut s, '.');
        push_digit(&mut s, d1);
        push_digit(&mut s, d2);
    } else if d1 != 0 {
        push_char(&mut s, '.');
        push_digit(&mut s, d1);
    }
    proof {
        assert(s@ =~= trimmed_fixed2_chars(value));
    }
    s
}

/// Format a cost and a frequency percentage side by side.
///
/// Returns a string like `27.5%|0.05%`: the cost share with one fractional
/// digit, the frequency share with two, both truncated.
pub fn format_percentages(cost_percent: u64, freq_percent: u64) -> (r: String)
    ensures
        r@ == percentages_chars(cost_percent, freq_percent),
{
    let mut s = fmt_fixed1(cost_percent);
    push_char(&mut s, '%');
    push_char(&mut s, '|');
    let t = fmt_fixed2(freq_percent);
    s.append(t.as_str());
    push_char(&mut s, '%');
    proof {
        assert(s@ =~= percentages_chars(cost_percent, freq_percent));
    }
    s
}

/// Join message parts with a separator.
pub fn join_strings(parts: &Vec<String>, separator: &str) -> (r: String)
    ensures
        r@ == joined_chars(parts@.map_values(|s: String| s@), separator@),
{
    let ghost views = parts@.map_values(|s: String| s@);
    let mut out = String::new();
    let mut i: usize = 0;
    proof {
        assert(views.take(0int) =~= Seq::<Seq<char>>::empty());
    }
    while i < parts.len()
        invariant
            0 <= i <= parts@.len(),
            views == parts@.map_values(|s: String| s@),
            out@ == joined_chars(views.take(i as int), separator@),
        decreases parts@.len() - i,
    {
        proof {
            assert(views.take(i + 1).drop_last() =~= views.take(i as int));
            assert(views.take(i + 1).last() == views[i as int]);
        }
        if i > 0 {
            out.append(separator);
        }
        out.append(parts[i].as_str());
        proof {
            assert(out@ =~= joined_chars(views.take(i + 1), separator@));
        }
        i = i + 1;
    }
    proof {
        assert(views.take(views.len() as int) =~= views);
    }
    out
}

/// Append one n-gram symbol to a message, with a space made visible as an
/// open-box glyph.
pub fn push_symbol(s: &mut String, c: char)
    ensures
        final(s)@ == old(s)@.push(visible_symbol(c)),
{
    if c == ' ' {
        push_char(s, '\u{2423}');
    } else {
        push_char(s, c);
    }
}

/// Replace whitespace characters with visible symbols for display:
/// every space becomes an open-box glyph.
pub fn visualize_whitespace(s: &str) -> (r: String)
    ensures
        r@ == visualized_chars(s@),
{
    let len = s.unicode_len();
    let mut out = String::new();
    let mut i: usize = 0;
    while i < len
        invariant
            len == s@.len(),
            0 <= i <= len,
            out@ == visualized_chars(s@).take(i as int),
        decreases len - i,
    {
        let c = s.get_char(i);
        if c == ' ' {
            push_char(&mut out, '\u{2423}');
        } else {
            push_char(&mut out, c);
        }
        proof {
            assert(out@ =~= visualized_chars(s@).take(i + 1));
        }
        i = i + 1;
    }
    proof {
        assert(visualized_chars(s@).take(len as int) =~= visualized_chars(s@));
    }
    out
}

} // verus!
