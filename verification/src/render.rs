//! What the three panels draw, computed as plain values: the status
//! text, the pet circle's geometry, and the decorative grid of squares
//! with its digit labels. The surrounding terminal program only turns
//! these values into widgets.

use crate::state::AppState;
use vstd::arithmetic::div_mod::{lemma_div_decreases, lemma_mod_division_less_than_divisor};
use vstd::prelude::*;

verus! {

/// The decimal digit character for `d` in 0..=9.
pub open spec fn digit_char(d: int) -> char {
    if d == 0 {
        '0'
    } else if d == 1 {
        '1'
    } else if d == 2 {
        '2'
    } else if d == 3 {
        '3'
    } else if d == 4 {
        '4'
    } else if d == 5 {
        '5'
    } else if d == 6 {
        '6'
    } else if d == 7 {
        '7'
    } else if d == 8 {
        '8'
    } else {
        '9'
    }
}

/// The usual decimal notation of `n` without leading zeroes (a single
/// zero for `n == 0`).
pub open spec fn decimal_digits(n: int) -> Seq<char>
    decreases n,
{
    if n <= 9 {
        seq![digit_char(n)]
    } else {
        decimal_digits(n / 10).push(digit_char(n % 10))
    }
}

fn digit_to_char(d: u32) -> (c: char)
    requires
        d < 10,
    ensures
        c == digit_char(d as int),
{
    if d == 0 {
        '0'
    } else if d == 1 {
        '1'
    } else if d == 2 {
        '2'
    } else if d == 3 {
        '3'
    } else if d == 4 {
        '4'
    } else if d == 5 {
        '5'
    } else if d == 6 {
        '6'
    } else if d == 7 {
        '7'
    } else if d == 8 {
        '8'
    } else {
        '9'
    }
}

fn push_decimal(n: u32, v: &mut Vec<char>)
    ensures
        final(v)@ == old(v)@ + decimal_digits(n as int),
    decreases n,
{
    if n <= 9 {
        v.push(digit_to_char(n));
        assert(v@ =~= old(v)@ + decimal_digits(n as int));
    } else {
        proof {
            lemma_div_decreases(n as int, 10);
            lemma_mod_division_less_than_divisor(n as int, 10);
        }
        push_decimal(n / 10, v);
        v.push(digit_to_char(n % 10));
        assert(v@ =~= old(v)@ + decimal_digits(n as int));
    }
}

/// The decimal notation of `n`, one character per digit.
pub fn decimal_chars(n: u32) -> (r: Vec<char>)
    ensures
        r@ == decimal_digits(n as int),
{
    let mut v: Vec<char> = Vec::new();
    push_decimal(n, &mut v);
    assert(v@ =~= decimal_digits(n as int));
    v
}

/// The first status line reads `Hunger: ` followed by the value.
pub open spec fn hunger_line_spec(h: int) -> Seq<char> {
    seq!['H', 'u', 'n', 'g', 'e', 'r', ':', ' '] + decimal_digits(h)
}

/// The second status line reads `Happiness: ` followed by the value.
pub open spec fn happiness_line_spec(h: int) -> Seq<char> {
    seq!['H', 'a', 'p', 'p', 'i', 'n', 'e', 's', 's', ':', ' '] + decimal_digits(h)
}

/// A colour the decorative grid paints with.
#[derive(Clone, Copy, Debug, PartialEq, Eq, Structural)]
pub enum PaintColor {
    Red,
    Blue,
}

/// One square of the decorative grid, in canvas cells.
#[derive(Clone, Copy, Debug, PartialEq, Eq, Structural)]
pub struct GridRect {
    pub x: u16,
    pub y: u16,
    pub width: u16,
    pub height: u16,
    pub color: PaintColor,
}

/// One digit label of the decorative grid, in canvas cells.
#[derive(Clone, Copy, Debug, PartialEq, Eq, Structural)]
pub struct GridLabel {
    pub x: u16,
    pub y: u16,
    pub text: char,
}

/// The horizontal placement of the `i`-th pair of squares: a quadratic
/// curve that leaves growing gaps between neighbours.
pub open spec fn rect_x(i: int) -> int {
    (i * i + 3 * i) / 2 + 2
}

impl AppState {
    /// The two status lines for the current state.
    pub fn status_lines(&self) -> (r: (Vec<char>, Vec<char>))
        ensures
            r.0@ == hunger_line_spec(self.hunger as int),
            r.1@ == happiness_line_spec(self.happiness as int),
    {
        let mut hunger: Vec<char> = Vec::new();
        hunger.push('H');
        hunger.push('u');
        hunger.push('n');
        hunger.push('g');
        hunger.push('e');
        hunger.push('r');
        hunger.push(':');
        hunger.push(' ');
        push_decimal(self.hunger, &mut hunger);
        assert(hunger@ =~= hunger_line_spec(self.hunger as int));
        let mut happiness: Vec<char> = Vec::new();
        happiness.push('H');
        happiness.push('a');
        happiness.push('p');
        happiness.push('p');
        happiness.push('i');
        happiness.push('n');
        happiness.push('e');
        happiness.push('s');
        happiness.push('s');
        happiness.push(':');
        happiness.push(' ');
        push_decimal(self.happiness, &mut happiness);
        assert(happiness@ =~= happiness_line_spec(self.happiness as int));
        (hunger, happiness)
    }
}

/// The twelve pairs of squares of the decorative grid: for each size
/// `i` in 0..=11 a red square in the lower row (`y == 2`) and a blue
/// one in the upper row (`y == 21`), both of side `i`, placed on the
/// quadratic curve.
pub fn box_grid() -> (r: Vec<GridRect>)
    ensures
        r@.len() == 24,
        forall|i: int|
            0 <= i < 12 ==> r@[2 * i] == (GridRect {
                x: rect_x(i) as u16,
                y: 2,
                width: i as u16,
                height: i as u16,
                color: PaintColor::Red,
            }),
        forall|i: int|
            0 <= i < 12 ==> r@[2 * i + 1] == (GridRect {
                x: rect_x(i) as u16,
                y: 21,
                width: i as u16,
                height: i as u16,
                color: PaintColor::Blue,
            }),
{
    let mut v: Vec<GridRect> = Vec::new();
    let mut i: u16 = 0;
    while i < 12
        invariant
            i <= 12,
            v@.len() == 2 * i,
            forall|j: int|
                0 <= j < i ==> v@[2 * j] == (GridRect {
                    x: rect_x(j) as u16,
                    y: 2,
                    width: j as u16,
                    height: j as u16,
                    color: PaintColor::Red,
                }),
            forall|j: int|
                0 <= j < i ==> v@[2 * j + 1] == (GridRect {
                    x: rect_x(j) as u16,
                    y: 21,
                    width: j as u16,
                    height: j as u16,
                    color: PaintColor::Blue,
                }),
        decreases 12 - i,
    {
        proof {
            assert(i * i <= 121) by (nonlinear_arith)
                requires
                    i < 12,
            ;
        }
        let x: u16 = (i * i + 3 * i) / 2 + 2;
        v.push(GridRect { x, y: 2, width: i, height: i, color: PaintColor::Red });
        v.push(GridRect { x, y: 21, width: i, height: i, color: PaintColor::Blue });
        i = i + 1;
    }
    v
}

/// The digit labels of the decorative grid up to column `n`: along the
/// bottom every column except the multiples of ten carries its last
/// digit, and along the left edge every even row except the multiples
/// of ten carries its last digit.
pub open spec fn labels_upto(n: int) -> Seq<GridLabel>
    decreases n,
{
    if n <= 0 {
        Seq::empty()
    } else {
        let i = n - 1;
        let prev = labels_upto(i);
        let with_col = if i % 10 != 0 {
            prev.push(GridLabel { x: (i + 1) as u16, y: 0, text: digit_char(i % 10) })
        } else {
            prev
        };
        if i % 2 == 0 && i % 10 != 0 {
            with_col.push(GridLabel { x: 0, y: i as u16, text: digit_char(i % 10) })
        } else {
            with_col
        }
    }
}

/// All digit labels of the decorative grid, in the order they are drawn.
pub fn grid_labels() -> (r: Vec<GridLabel>)
    ensures
        r@ == labels_upto(100),
{
    let mut v: Vec<GridLabel> = Vec::new();
    let mut i: u16 = 0;
    while i < 100
        invariant
            i <= 100,
            v@ == labels_upto(i as int),
        decreases 100 - i,
    {
        if i % 10 != 0 {
            v.push(GridLabel { x: i + 1, y: 0, text: digit_to_char((i % 10) as u32) });
        }
        if i % 2 == 0 && i % 10 != 0 {
            v.push(GridLabel { x: 0, y: i, text: digit_to_char((i % 10) as u32) });
        }
        assert(v@ =~= labels_upto(i as int + 1));
        i = i + 1;
    }
    v
}

/// The canvas bounds of the decorative grid for a drawing area of the
/// given size, as `(left, right, bottom, top)`: the top is twice the
/// height minus four.
pub fn grid_bounds(width: u16, height: u16) -> (r: (i32, i32, i32, i32))
    ensures
        r == (0i32, width as i32, 0i32, (2 * (height as i32) - 4) as i32),
{
    (0, width as i32, 0, 2 * (height as i32) - 4)
}

} // verus!
