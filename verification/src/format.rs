//! Output formatting: decimal rendering of brightness values and
//! substitution of the `%val`, `%min`, `%max` and `%%` tokens in a
//! user-supplied template, in a single left-to-right pass.

use vstd::prelude::*;

verus! {

use vstd::string::StrSliceExecFns;
use vstd::string::StringExecFns;

/// The decimal digit character for `d` in `[0, 9]`.
pub open spec fn digit_char(d: int) -> char {
    if d == 0 {
        '0'
    } else if d == 1 {
        '1'
    } else if d == 2 {
        '2'
    } else if d == 3 {
        '3'
    } else if d == 4 {
        '4'
    } else if d == 5 {
        '5'
    } else if d == 6 {
        '6'
    } else if d == 7 {
        '7'
    } else if d == 8 {
        '8'
    } else {
        '9'
    }
}

/// The decimal digit string of a non-negative integer, most significant
/// digit first, with no leading zeros (a single `'0'` for zero).
pub open spec fn dec_digits(n: int) -> Seq<char>
    decreases n,
{
    if n < 10 {
        seq![digit_char(n)]
    } else {
        dec_digits(n / 10).push(digit_char(n % 10))
    }
}

/// The template starts with the current-value token `%val`.
pub open spec fn starts_val_token(t: Seq<char>) -> bool {
    t.len() >= 4 && t[0] == '%' && t[1] == 'v' && t[2] == 'a' && t[3] == 'l'
}

/// The template starts with the minimum-value token `%min`.
pub open spec fn starts_min_token(t: Seq<char>) -> bool {
    t.len() >= 4 && t[0] == '%' && t[1] == 'm' && t[2] == 'i' && t[3] == 'n'
}

/// The template starts with the maximum-value token `%max`.
pub open spec fn starts_max_token(t: Seq<char>) -> bool {
    t.len() >= 4 && t[0] == '%' && t[1] == 'm' && t[2] == 'a' && t[3] == 'x'
}

/// The template starts with the escape sequence `%%`.
pub open spec fn starts_escape_token(t: Seq<char>) -> bool {
    t.len() >= 2 && t[0] == '%' && t[1] == '%'
}

/// Single-pass substitution over a template: each `%val`, `%min` and `%max`
/// token is replaced by the given digit string, `%%` becomes `%`, and every
/// other character is copied. A substituted value is never rescanned, so it
/// can never introduce a token of its own.
pub open spec fn render_template(
    t: Seq<char>,
    mind: Seq<char>,
    maxd: Seq<char>,
    vald: Seq<char>,
) -> Seq<char>
    decreases t.len(),
{
    if t.len() == 0 {
        Seq::<char>::empty()
    } else if starts_val_token(t) {
        vald + render_template(t.skip(4), mind, maxd, vald)
    } else if starts_min_token(t) {
        mind + render_template(t.skip(4), mind, maxd, vald)
    } else if starts_max_token(t) {
        maxd + render_template(t.skip(4), mind, maxd, vald)
    } else if starts_escape_token(t) {
        seq!['%'] + render_template(t.skip(2), mind, maxd, vald)
    } else {
        seq![t[0]] + render_template(t.skip(1), mind, maxd, vald)
    }
}

/// The fully rendered output of a template for the given minimum, maximum
/// and current value.
pub open spec fn rendered_output(min: int, max: int, val: int, t: Seq<char>) -> Seq<char> {
    render_template(t, dec_digits(min), dec_digits(max), dec_digits(val))
}

/// The one-character string literal for a decimal digit.
fn digit_str(d: u32) -> (r: &'static str)
    requires
        d < 10,
    ensures
        r@ =~= seq![digit_char(d as int)],
{
    proof {
        reveal_strlit("0");
        reveal_strlit("1");
        reveal_strlit("2");
        reveal_strlit("3");
        reveal_strlit("4");
        reveal_strlit("5");
        reveal_strlit("6");
        reveal_strlit("7");
        reveal_strlit("8");
        reveal_strlit("9");
    }
    match d {
        0 => "0",
        1 => "1",
        2 => "2",
        3 => "3",
        4 => "4",
        5 => "5",
        6 => "6",
        7 => "7",
        8 => "8",
        _ => "9",
    }
}

/// Render an unsigned value as its decimal digit string.
pub fn u32_to_string(n: u32) -> (r: String)
    ensures
        r@ =~= dec_digits(n as int),
    decreases n,
{
    if n < 10 {
        let r: String = digit_str(n).to_owned();
        r
    } else {
        let mut r: String = u32_to_string(n / 10);
        r.append(digit_str(n % 10));
        proof {
            assert(r@ =~= dec_digits(n as int));
        }
        r
    }
}

/// Substitute `%val`, `%min` and `%max` in a template by the current,
/// minimum and maximum value and un-escape `%%`, in one pass over the
/// original template.
pub fn format_output(min: u32, max: u32, val: u32, format: String) -> (r: String)
    ensures
        r@ =~= rendered_output(min as int, max as int, val as int, format@),
{
    let min_s: String = u32_to_string(min);
    let max_s: String = u32_to_string(max);
    let val_s: String = u32_to_string(val);
    let ghost mind: Seq<char> = dec_digits(min as int);
    let ghost maxd: Seq<char> = dec_digits(max as int);
    let ghost vald: Seq<char> = dec_digits(val as int);
    let s: &str = format.as_str();
    let n: usize = s.unicode_len();
    let mut out: String = String::new();
    let mut i: usize = 0;
    proof {
        reveal_strlit("%");
        assert(format@.skip(0) =~= format@);
        assert(out@ + render_template(format@, mind, maxd, vald) =~= render_template(
            format@,
            mind,
            maxd,
            vald,
        ));
    }
    while i < n
        invariant
            n == s@.len(),
            i <= n,
            s@ == format@,
            min_s@ == mind,
            max_s@ == maxd,
            val_s@ == vald,
            "%"@ =~= seq!['%'],
            render_template(format@, mind, maxd, vald) =~= out@ + render_template(
                format@.skip(i as int),
                mind,
                maxd,
                vald,
            ),
        decreases n - i,
    {
        let ghost rest: Seq<char> = format@.skip(i as int);
        let c0: char = s.get_char(i);
        proof {
            assert(rest[0] == format@[i as int]);
        }
        if c0 == '%' && n - i >= 4 && s.get_char(i + 1) == 'v' && s.get_char(i + 2) == 'a'
            && s.get_char(i + 3) == 'l' {
            out.append(val_s.as_str());
            proof {
                assert(starts_val_token(rest));
                assert(rest.skip(4) =~= format@.skip(i + 4));
            }
            i = i + 4;
        } else if c0 == '%' && n - i >= 4 && s.get_char(i + 1) == 'm' && s.get_char(i + 2) == 'i'
            && s.get_char(i + 3) == 'n' {
            out.append(min_s.as_str());
            proof {
                assert(starts_min_token(rest));
                assert(rest.skip(4) =~= format@.skip(i + 4));
            }
            i = i + 4;
        } else if c0 == '%' && n - i >= 4 && s.get_char(i + 1) == 'm' && s.get_char(i + 2) == 'a'
            && s.get_char(i + 3) == 'x' {
            out.append(max_s.as_str());
            proof {
                assert(starts_max_token(rest));
                assert(rest.skip(4) =~= format@.skip(i + 4));
            }
            i = i + 4;
        } else if c0 == '%' && n - i >= 2 && s.get_char(i + 1) == '%' {
            out.append("%");
            proof {
                assert(starts_escape_token(rest));
                assert(!starts_val_token(rest));
                assert(!starts_min_token(rest));
                assert(!starts_max_token(rest));
                assert(rest.skip(2) =~= format@.skip(i + 2));
            }
            i = i + 2;
        } else {
            let piece: &str = s.substring_char(i, i + 1);
            out.append(piece);
            proof {
                assert(!starts_val_token(rest));
                assert(!starts_min_token(rest));
                assert(!starts_max_token(rest));
                assert(!starts_escape_token(rest));
                assert(piece@ =~= seq![rest[0]]);
                assert(rest.skip(1) =~= format@.skip(i + 1));
            }
            i = i + 1;
        }
    }
    proof {
        assert(format@.skip(n as int) =~= Seq::<char>::empty());
        assert(out@ + Seq::<char>::empty() =~= out@);
    }
    out
}

/// Render a reported value for printing: through the template when one was
/// given, as the bare decimal value otherwise.
pub fn render_report(min: u32, max: u32, val: u32, pretty: &Option<String>) -> (r: String)
    ensures
        match pretty {
            Some(t) => r@ =~= rendered_output(min as int, max as int, val as int, t@),
            None => r@ =~= dec_digits(val as int),
        },
{
    match pretty {
        Some(t) => format_output(min, max, val, t.clone()),
        None => u32_to_string(val),
    }
}

} // verus!
