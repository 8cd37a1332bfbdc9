//! Building of 24-bit ("true color") terminal escape sequences.
//!
//! A colored span is the escape prefix naming the RGB triplet, the text
//! itself, and the reset sequence; an emphasized span wraps the text in
//! the bold escape and the reset sequence.

use vstd::prelude::*;
use vstd::string::StringExecFns;

use crate::color::Rgb;

verus! {

/// The decimal digit character for a value in 0..=9.
pub open spec fn digit_char(v: int) -> char {
    if v == 0 {
        '0'
    } else if v == 1 {
        '1'
    } else if v == 2 {
        '2'
    } else if v == 3 {
        '3'
    } else if v == 4 {
        '4'
    } else if v == 5 {
        '5'
    } else if v == 6 {
        '6'
    } else if v == 7 {
        '7'
    } else if v == 8 {
        '8'
    } else {
        '9'
    }
}

/// The decimal rendering, without leading zeros, of a channel value in
/// 0..=255.
pub open spec fn dec_of(v: int) -> Seq<char> {
    if v < 10 {
        seq![digit_char(v)]
    } else if v < 100 {
        seq![digit_char(v / 10), digit_char(v % 10)]
    } else {
        seq![digit_char(v / 100), digit_char((v / 10) % 10), digit_char(v % 10)]
    }
}

/// The escape prefix that switches the foreground to a 24-bit color:
/// `ESC [ 3 8 ; 2 ; <r> ; <g> ; <b> m`.
pub open spec fn color_prefix(color: Rgb) -> Seq<char> {
    "\u{1b}[38;2;"@ + dec_of(color.r as int) + ";"@ + dec_of(color.g as int) + ";"@ + dec_of(
        color.b as int,
    ) + "m"@
}

/// The escape sequence that resets all attributes.
pub open spec fn ansi_reset() -> Seq<char> {
    "\u{1b}[0m"@
}

/// The escape sequence that turns on bold emphasis.
pub open spec fn bold_prefix() -> Seq<char> {
    "\u{1b}[1m"@
}

/// `text` rendered in the foreground color `color`.
pub open spec fn colored_span(text: Seq<char>, color: Rgb) -> Seq<char> {
    color_prefix(color) + text + ansi_reset()
}

/// `text` rendered with bold emphasis.
pub open spec fn bold_span(text: Seq<char>) -> Seq<char> {
    bold_prefix() + text + ansi_reset()
}

/// A decimal digit character.
pub open spec fn is_digit_char(ch: char) -> bool {
    0x30 <= ch as int <= 0x39
}

/// The digit table only ever yields digit characters.
proof fn lemma_digit_char_is_digit(v: int)
    ensures
        is_digit_char(digit_char(v)),
{
}

/// Every character of a decimal rendering is a digit.
proof fn lemma_dec_of_digits(v: int)
    ensures
        forall|i: int| 0 <= i < dec_of(v).len() ==> is_digit_char(#[trigger] dec_of(v)[i]),
{
    lemma_digit_char_is_digit(v);
    lemma_digit_char_is_digit(v / 10);
    lemma_digit_char_is_digit(v % 10);
    lemma_digit_char_is_digit(v / 100);
    lemma_digit_char_is_digit((v / 10) % 10);
}

/// The digit table is injective on actual digits.
proof fn lemma_digit_char_injective(a: int, b: int)
    requires
        0 <= a < 10,
        0 <= b < 10,
        digit_char(a) == digit_char(b),
    ensures
        a == b,
{
}

/// Two channel values with the same decimal rendering are equal.
proof fn lemma_dec_of_injective(a: int, b: int)
    requires
        0 <= a < 256,
        0 <= b < 256,
        dec_of(a) == dec_of(b),
    ensures
        a == b,
{
    // The rendering's length separates the three magnitude ranges, and
    // within one range the digits determine the value.
    vstd::arithmetic::div_mod::lemma_fundamental_div_mod(a, 10);
    vstd::arithmetic::div_mod::lemma_fundamental_div_mod(b, 10);
    vstd::arithmetic::div_mod::lemma_fundamental_div_mod(a / 10, 10);
    vstd::arithmetic::div_mod::lemma_fundamental_div_mod(b / 10, 10);
    assert((a / 10) / 10 == a / 100) by (nonlinear_arith);
    assert((b / 10) / 10 == b / 100) by (nonlinear_arith);
    if a < 10 {
        assert(dec_of(a).len() == 1);
        assert(b < 10);
        assert(dec_of(a)[0] == digit_char(a));
        assert(dec_of(b)[0] == digit_char(b));
        lemma_digit_char_injective(a, b);
    } else if a < 100 {
        assert(dec_of(a).len() == 2);
        assert(10 <= b < 100);
        assert(dec_of(a)[0] == digit_char(a / 10) && dec_of(a)[1] == digit_char(a % 10));
        assert(dec_of(b)[0] == digit_char(b / 10) && dec_of(b)[1] == digit_char(b % 10));
        lemma_digit_char_injective(a / 10, b / 10);
        lemma_digit_char_injective(a % 10, b % 10);
    } else {
        assert(dec_of(a).len() == 3);
        assert(100 <= b);
        assert(dec_of(a)[0] == digit_char(a / 100) && dec_of(a)[1] == digit_char((a / 10) % 10)
            && dec_of(a)[2] == digit_char(a % 10));
        assert(dec_of(b)[0] == digit_char(b / 100) && dec_of(b)[1] == digit_char((b / 10) % 10)
            && dec_of(b)[2] == digit_char(b % 10));
        lemma_digit_char_injective(a / 100, b / 100);
        lemma_digit_char_injective((a / 10) % 10, (b / 10) % 10);
        lemma_digit_char_injective(a % 10, b % 10);
    }
}

/// A common prefix can be stripped from an equality of sequences.
pub(crate) proof fn lemma_strip_prefix(p: Seq<char>, x: Seq<char>, y: Seq<char>)
    requires
        p + x == p + y,
    ensures
        x == y,
{
    assert((p + x).len() == p.len() + x.len());
    assert((p + y).len() == p.len() + y.len());
    assert(x.len() == y.len());
    assert forall|i: int| 0 <= i < x.len() implies x[i] == y[i] by {
        assert((p + x)[p.len() + i] == x[i]);
        assert((p + y)[p.len() + i] == y[i]);
    }
    assert(x =~= y);
}

/// A one-character separator that occurs in neither left part splits an
/// equality of sequences unambiguously.
pub(crate) proof fn lemma_sep_split(
    a1: Seq<char>,
    b1: Seq<char>,
    a2: Seq<char>,
    b2: Seq<char>,
    sep: char,
)
    requires
        a1 + seq![sep] + b1 == a2 + seq![sep] + b2,
        forall|i: int| 0 <= i < a1.len() ==> a1[i] != sep,
        forall|i: int| 0 <= i < a2.len() ==> a2[i] != sep,
    ensures
        a1 == a2,
        b1 == b2,
{
    let lhs = a1 + seq![sep] + b1;
    let rhs = a2 + seq![sep] + b2;
    if a1.len() < a2.len() {
        assert(lhs[a1.len() as int] == sep);
        assert(rhs[a1.len() as int] == a2[a1.len() as int]);
    } else if a2.len() < a1.len() {
        assert(rhs[a2.len() as int] == sep);
        assert(lhs[a2.len() as int] == a1[a2.len() as int]);
    }
    assert(a1.len() == a2.len());
    assert(lhs.len() == a1.len() + 1 + b1.len());
    assert(rhs.len() == a2.len() + 1 + b2.len());
    assert(b1.len() == b2.len());
    assert forall|i: int| 0 <= i < a1.len() implies a1[i] == a2[i] by {
        assert(lhs[i] == a1[i]);
        assert(rhs[i] == a2[i]);
    }
    assert(a1 =~= a2);
    assert forall|i: int| 0 <= i < b1.len() implies b1[i] == b2[i] by {
        assert(lhs[a1.len() + 1 + i] == b1[i]);
        assert(rhs[a2.len() + 1 + i] == b2[i]);
    }
    assert(b1 =~= b2);
}

/// The `<r> ; <g> ; <b>` middle of a color prefix.
spec fn color_trip(color: Rgb) -> Seq<char> {
    dec_of(color.r as int) + seq![';'] + (dec_of(color.g as int) + seq![';'] + dec_of(
        color.b as int,
    ))
}

/// Two equal triples name the same color.
proof fn lemma_color_trip_injective(c1: Rgb, c2: Rgb)
    requires
        color_trip(c1) == color_trip(c2),
    ensures
        c1 == c2,
{
    lemma_dec_of_digits(c1.r as int);
    lemma_dec_of_digits(c2.r as int);
    lemma_dec_of_digits(c1.g as int);
    lemma_dec_of_digits(c2.g as int);
    lemma_sep_split(
        dec_of(c1.r as int),
        dec_of(c1.g as int) + seq![';'] + dec_of(c1.b as int),
        dec_of(c2.r as int),
        dec_of(c2.g as int) + seq![';'] + dec_of(c2.b as int),
        ';',
    );
    lemma_dec_of_injective(c1.r as int, c2.r as int);
    lemma_sep_split(dec_of(c1.g as int), dec_of(c1.b as int), dec_of(c2.g as int), dec_of(
        c2.b as int,
    ), ';');
    lemma_dec_of_injective(c1.g as int, c2.g as int);
    lemma_dec_of_injective(c1.b as int, c2.b as int);
}

/// The color prefix reads as the fixed head, then the triple, then `m`.
proof fn lemma_color_prefix_shape(color: Rgb)
    ensures
        color_prefix(color) == "\u{1b}[38;2;"@ + (color_trip(color) + seq!['m']),
{
    reveal_strlit(";");
    reveal_strlit("m");
    assert(";"@ =~= seq![';']);
    assert("m"@ =~= seq!['m']);
    assert(color_prefix(color) =~= "\u{1b}[38;2;"@ + (color_trip(color) + seq!['m']));
}

/// Whatever text and trailing content follow them, two colored spans
/// that read the same were colored the same: the escape prefix pins the
/// RGB triplet down.
pub proof fn lemma_colored_span_head_injective(
    s1: Seq<char>,
    c1: Rgb,
    r1: Seq<char>,
    s2: Seq<char>,
    c2: Rgb,
    r2: Seq<char>,
)
    requires
        colored_span(s1, c1) + r1 == colored_span(s2, c2) + r2,
    ensures
        c1 == c2,
{
    let head = "\u{1b}[38;2;"@;
    let u1 = s1 + ansi_reset() + r1;
    let u2 = s2 + ansi_reset() + r2;
    lemma_color_prefix_shape(c1);
    lemma_color_prefix_shape(c2);
    assert(colored_span(s1, c1) + r1 =~= head + (color_trip(c1) + seq!['m'] + u1));
    assert(colored_span(s2, c2) + r2 =~= head + (color_trip(c2) + seq!['m'] + u2));
    lemma_strip_prefix(head, color_trip(c1) + seq!['m'] + u1, color_trip(c2) + seq!['m'] + u2);
    lemma_dec_of_digits(c1.r as int);
    lemma_dec_of_digits(c1.g as int);
    lemma_dec_of_digits(c1.b as int);
    lemma_dec_of_digits(c2.r as int);
    lemma_dec_of_digits(c2.g as int);
    lemma_dec_of_digits(c2.b as int);
    lemma_sep_split(color_trip(c1), u1, color_trip(c2), u2, 'm');
    lemma_color_trip_injective(c1, c2);
}

/// The decimal digit as a one-character string.
fn digit_str(d: u8) -> (s: &'static str)
    requires
        d < 10,
    ensures
        s@ =~= seq![digit_char(d as int)],
{
    proof {
        reveal_strlit("0");
        reveal_strlit("1");
        reveal_strlit("2");
        reveal_strlit("3");
        reveal_strlit("4");
        reveal_strlit("5");
        reveal_strlit("6");
        reveal_strlit("7");
        reveal_strlit("8");
        reveal_strlit("9");
    }
    if d == 0 {
        "0"
    } else if d == 1 {
        "1"
    } else if d == 2 {
        "2"
    } else if d == 3 {
        "3"
    } else if d == 4 {
        "4"
    } else if d == 5 {
        "5"
    } else if d == 6 {
        "6"
    } else if d == 7 {
        "7"
    } else if d == 8 {
        "8"
    } else {
        "9"
    }
}

/// Append the decimal rendering of `v` to `out`.
fn append_dec(out: &mut String, v: u8)
    ensures
        final(out)@ == old(out)@ + dec_of(v as int),
{
    if v >= 100 {
        out.append(digit_str(v / 100));
        out.append(digit_str((v / 10) % 10));
        out.append(digit_str(v % 10));
    } else if v >= 10 {
        out.append(digit_str(v / 10));
        out.append(digit_str(v % 10));
    } else {
        out.append(digit_str(v));
    }
    assert(final(out)@ =~= old(out)@ + dec_of(v as int));
}

/// Append the 24-bit color escape prefix for `color` to `out`.
fn append_color_prefix(out: &mut String, color: &Rgb)
    ensures
        final(out)@ == old(out)@ + color_prefix(*color),
{
    out.append("\u{1b}[38;2;");
    append_dec(out, color.r);
    out.append(";");
    append_dec(out, color.g);
    out.append(";");
    append_dec(out, color.b);
    out.append("m");
    assert(final(out)@ =~= old(out)@ + color_prefix(*color));
}

/// Render `text` in the foreground color `color`.
pub fn colorize(text: &str, color: &Rgb) -> (colored: String)
    ensures
        colored@ == colored_span(text@, *color),
{
    let mut out = String::new();
    append_color_prefix(&mut out, color);
    out.append(text);
    out.append("\u{1b}[0m");
    assert(out@ =~= colored_span(text@, *color));
    out
}

/// Render `text` with bold emphasis.
pub fn embolden(text: &str) -> (emphasized: String)
    ensures
        emphasized@ == bold_span(text@),
{
    let mut out = String::new();
    out.append("\u{1b}[1m");
    out.append(text);
    out.append("\u{1b}[0m");
    assert(out@ =~= bold_span(text@));
    out
}

} // verus!
