//! Rectangles and their textual encoding `"<x>,<y> <width>x<height>"`.

use vstd::prelude::*;
use vstd::string::*;

verus! {

/// A rectangle in compositor coordinates.
#[derive(Clone, Copy, Debug, PartialEq, Eq, Structural)]
pub struct Rect {
    pub x: i64,
    pub y: i64,
    pub width: i64,
    pub height: i64,
}

/// The character that stands for a decimal digit.
pub open spec fn digit_char(d: int) -> char {
    if d == 0 {
        '0'
    } else if d == 1 {
        '1'
    } else if d == 2 {
        '2'
    } else if d == 3 {
        '3'
    } else if d == 4 {
        '4'
    } else if d == 5 {
        '5'
    } else if d == 6 {
        '6'
    } else if d == 7 {
        '7'
    } else if d == 8 {
        '8'
    } else {
        '9'
    }
}

/// The decimal digits of a natural number, most significant first, without
/// leading zeros (zero itself is the single digit `0`).
pub open spec fn decimal_digits(n: nat) -> Seq<char>
    decreases n,
{
    if n < 10 {
        seq![digit_char(n as int)]
    } else {
        decimal_digits(n / 10).push(digit_char((n % 10) as int))
    }
}

/// The decimal text of an integer: a minus sign for a negative one, then the
/// digits of its magnitude.
pub open spec fn decimal_text(v: int) -> Seq<char> {
    if v < 0 {
        seq!['-'] + decimal_digits((-v) as nat)
    } else {
        decimal_digits(v as nat)
    }
}

/// The encoding of a rectangle: offset, one space, size.
pub open spec fn geometry_text(r: Rect) -> Seq<char> {
    decimal_text(r.x as int) + seq![','] + decimal_text(r.y as int) + seq![' '] + decimal_text(
        r.width as int,
    ) + seq!['x'] + decimal_text(r.height as int)
}

fn digit_str(d: u64) -> (s: &'static str)
    requires
        d < 10,
    ensures
        s@ == seq![digit_char(d as int)],
{
    proof {
        reveal_strlit("0");
        reveal_strlit("1");
        reveal_strlit("2");
        reveal_strlit("3");
        reveal_strlit("4");
        reveal_strlit("5");
        reveal_strlit("6");
        reveal_strlit("7");
        reveal_strlit("8");
        reveal_strlit("9");
    }
    let s = if d == 0 {
        "0"
    } else if d == 1 {
        "1"
    } else if d == 2 {
        "2"
    } else if d == 3 {
        "3"
    } else if d == 4 {
        "4"
    } else if d == 5 {
        "5"
    } else if d == 6 {
        "6"
    } else if d == 7 {
        "7"
    } else if d == 8 {
        "8"
    } else {
        "9"
    };
    assert(s@ =~= seq![digit_char(d as int)]);
    s
}

fn append_digits(out: &mut String, n: u64)
    ensures
        final(out)@ == old(out)@ + decimal_digits(n as nat),
    decreases n,
{
    if n >= 10 {
        append_digits(out, n / 10);
    }
    out.append(digit_str(n % 10));
    assert(final(out)@ =~= old(out)@ + decimal_digits(n as nat));
}

fn append_decimal(out: &mut String, v: i64)
    ensures
        final(out)@ == old(out)@ + decimal_text(v as int),
{
    if v < 0 {
        out.append("-");
        proof {
            reveal_strlit("-");
        }
        let magnitude: u64 = ((-(v + 1)) as u64) + 1;
        append_digits(out, magnitude);
        assert(final(out)@ =~= old(out)@ + decimal_text(v as int));
    } else {
        append_digits(out, v as u64);
    }
}

/// Writes a rectangle in the form that the region selector and the capture
/// tools read.
pub fn format_geometry(rect: &Rect) -> (text: String)
    ensures
        text@ == geometry_text(*rect),
{
    let mut text = String::new();
    append_decimal(&mut text, rect.x);
    text.append(",");
    append_decimal(&mut text, rect.y);
    text.append(" ");
    append_decimal(&mut text, rect.width);
    text.append("x");
    append_decimal(&mut text, rect.height);
    proof {
        reveal_strlit(",");
        reveal_strlit(" ");
        reveal_strlit("x");
        assert(text@ =~= geometry_text(*rect));
    }
    text
}

/// A decimal digit.
pub open spec fn is_digit(c: char) -> bool {
    c == '0' || c == '1' || c == '2' || c == '3' || c == '4' || c == '5' || c == '6' || c == '7'
        || c == '8' || c == '9'
}

/// A run of one or more decimal digits.
pub open spec fn is_number(s: Seq<char>) -> bool {
    s.len() > 0 && forall|i: int| 0 <= i < s.len() ==> is_digit(#[trigger] s[i])
}

/// The form in which the region selector prints a rectangle and the capture
/// tools read one: four unsigned numbers, set apart by a comma, one space
/// and an `x`, with nothing before, between or after them.
pub open spec fn is_selector_geometry(s: Seq<char>) -> bool {
    exists|x: Seq<char>, y: Seq<char>, w: Seq<char>, h: Seq<char>|
        is_number(x) && is_number(y) && is_number(w) && is_number(h) && s == #[trigger] (x
            + seq![','] + y + seq![' '] + w + seq!['x'] + h)
}

proof fn lemma_decimal_digits_is_number(n: nat)
    ensures
        is_number(decimal_digits(n)),
    decreases n,
{
    if n >= 10 {
        lemma_decimal_digits_is_number(n / 10);
    }
}

/// The encoding of a rectangle whose offset and size are not negative has the
/// form that the region selector prints, so the selector, fed the encoding,
/// can hand it back as its answer.
pub proof fn lemma_geometry_text_is_selector_geometry(r: Rect)
    requires
        r.x >= 0,
        r.y >= 0,
        r.width >= 0,
        r.height >= 0,
    ensures
        is_selector_geometry(geometry_text(r)),
{
    lemma_decimal_digits_is_number(r.x as nat);
    lemma_decimal_digits_is_number(r.y as nat);
    lemma_decimal_digits_is_number(r.width as nat);
    lemma_decimal_digits_is_number(r.height as nat);
    let x = decimal_text(r.x as int);
    let y = decimal_text(r.y as int);
    let w = decimal_text(r.width as int);
    let h = decimal_text(r.height as int);
    assert(geometry_text(r) == x + seq![','] + y + seq![' '] + w + seq!['x'] + h);
}

/// The digit that a character stands for.
pub open spec fn digit_value(c: char) -> nat {
    if c == '1' {
        1
    } else if c == '2' {
        2
    } else if c == '3' {
        3
    } else if c == '4' {
        4
    } else if c == '5' {
        5
    } else if c == '6' {
        6
    } else if c == '7' {
        7
    } else if c == '8' {
        8
    } else if c == '9' {
        9
    } else {
        0
    }
}

/// The number that a run of digits stands for.
pub open spec fn number_value(s: Seq<char>) -> nat
    decreases s.len(),
{
    if s.len() == 0 {
        0
    } else {
        10 * number_value(s.drop_last()) + digit_value(s.last())
    }
}

/// The integer that a decimal text stands for.
pub open spec fn decimal_value(s: Seq<char>) -> int {
    if s.len() > 0 && s[0] == '-' {
        -(number_value(s.skip(1)) as int)
    } else {
        number_value(s) as int
    }
}

/// Neither a digit nor a minus sign: a character that sets numbers apart.
pub open spec fn is_separator(c: char) -> bool {
    !is_digit(c) && c != '-'
}

/// Reading the digits of a number gives the number back.
pub proof fn lemma_number_value_of_decimal_digits(n: nat)
    ensures
        number_value(decimal_digits(n)) == n,
    decreases n,
{
    if n < 10 {
        assert(decimal_digits(n).drop_last() =~= Seq::<char>::empty());
        assert(number_value(decimal_digits(n).drop_last()) == 0);
    } else {
        lemma_number_value_of_decimal_digits(n / 10);
        assert(decimal_digits(n).drop_last() =~= decimal_digits(n / 10));
    }
}

/// Reading the decimal text of an integer gives the integer back.
pub proof fn lemma_decimal_value_of_decimal_text(v: int)
    ensures
        decimal_value(decimal_text(v)) == v,
{
    if v < 0 {
        lemma_number_value_of_decimal_digits((-v) as nat);
        assert(decimal_text(v).skip(1) =~= decimal_digits((-v) as nat));
    } else {
        lemma_number_value_of_decimal_digits(v as nat);
        lemma_decimal_digits_is_number(v as nat);
        assert(is_digit(decimal_digits(v as nat)[0]));
    }
}

proof fn lemma_decimal_text_has_no_separator(v: int)
    ensures
        forall|i: int| 0 <= i < decimal_text(v).len() ==> !is_separator(#[trigger] decimal_text(v)[i]),
{
    if v < 0 {
        lemma_decimal_digits_is_number((-v) as nat);
        let digits = decimal_digits((-v) as nat);
        assert forall|i: int| 0 <= i < decimal_text(v).len() implies !is_separator(
            #[trigger] decimal_text(v)[i],
        ) by {
            if i > 0 {
                assert(decimal_text(v)[i] == digits[i - 1]);
            }
        }
    } else {
        lemma_decimal_digits_is_number(v as nat);
    }
}

/// Two texts that agree, each a run without separators, one separator and a
/// rest, agree in the run and in the rest.
proof fn lemma_split_at_separator(
    a: Seq<char>,
    b: Seq<char>,
    c: Seq<char>,
    d: Seq<char>,
    sep: char,
)
    requires
        is_separator(sep),
        forall|i: int| 0 <= i < a.len() ==> !is_separator(#[trigger] a[i]),
        forall|i: int| 0 <= i < c.len() ==> !is_separator(#[trigger] c[i]),
        a + seq![sep] + b == c + seq![sep] + d,
    ensures
        a == c,
        b == d,
{
    let left = a + seq![sep] + b;
    let right = c + seq![sep] + d;
    assert(left[a.len() as int] == sep);
    assert(right[c.len() as int] == sep);
    if a.len() < c.len() {
        assert(right[a.len() as int] == c[a.len() as int]);
        assert(false);
    }
    if c.len() < a.len() {
        assert(left[c.len() as int] == a[c.len() as int]);
        assert(false);
    }
    assert(a.len() == c.len());
    assert(left.len() == right.len());
    assert forall|i: int| 0 <= i < a.len() implies a[i] == c[i] by {
        assert(left[i] == a[i]);
        assert(right[i] == c[i]);
    }
    assert(a =~= c);
    assert forall|i: int| 0 <= i < b.len() implies b[i] == d[i] by {
        assert(left[a.len() + 1 + i] == b[i]);
        assert(right[c.len() + 1 + i] == d[i]);
    }
    assert(b =~= d);
}

/// The encoding tells the rectangle: two rectangles with one encoding are
/// one rectangle. So an encoding that the selector hands back unchanged names
/// the very rectangle that it was made from.
pub proof fn lemma_geometry_text_tells_the_rectangle(a: Rect, b: Rect)
    requires
        geometry_text(a) == geometry_text(b),
    ensures
        a == b,
{
    let (ax, ay, aw, ah) = (
        decimal_text(a.x as int),
        decimal_text(a.y as int),
        decimal_text(a.width as int),
        decimal_text(a.height as int),
    );
    let (bx, by, bw, bh) = (
        decimal_text(b.x as int),
        decimal_text(b.y as int),
        decimal_text(b.width as int),
        decimal_text(b.height as int),
    );
    lemma_decimal_text_has_no_separator(a.x as int);
    lemma_decimal_text_has_no_separator(a.y as int);
    lemma_decimal_text_has_no_separator(a.width as int);
    lemma_decimal_text_has_no_separator(b.x as int);
    lemma_decimal_text_has_no_separator(b.y as int);
    lemma_decimal_text_has_no_separator(b.width as int);
    let a_sizes = aw + seq!['x'] + ah;
    let b_sizes = bw + seq!['x'] + bh;
    let a_rest = ay + seq![' '] + a_sizes;
    let b_rest = by + seq![' '] + b_sizes;
    assert(geometry_text(a) =~= ax + seq![','] + a_rest);
    assert(geometry_text(b) =~= bx + seq![','] + b_rest);
    lemma_split_at_separator(ax, a_rest, bx, b_rest, ',');
    lemma_split_at_separator(ay, a_sizes, by, b_sizes, ' ');
    lemma_split_at_separator(aw, ah, bw, bh, 'x');
    lemma_decimal_value_of_decimal_text(a.x as int);
    lemma_decimal_value_of_decimal_text(a.y as int);
    lemma_decimal_value_of_decimal_text(a.width as int);
    lemma_decimal_value_of_decimal_text(a.height as int);
    lemma_decimal_value_of_decimal_text(b.x as int);
    lemma_decimal_value_of_decimal_text(b.y as int);
    lemma_decimal_value_of_decimal_text(b.width as int);
    lemma_decimal_value_of_decimal_text(b.height as int);
}

/// Equal rectangles have equal encodings, and an encoding is fixed by the
/// four numbers alone.
pub proof fn lemma_geometry_text_is_a_function(a: Rect, b: Rect)
    requires
        a.x == b.x,
        a.y == b.y,
        a.width == b.width,
        a.height == b.height,
    ensures
        geometry_text(a) == geometry_text(b),
{
}

} // verus!
