//! The outline-geometry generator: a pure, deterministic mapping from a
//! block's shape category and pixel size to the closed vector path drawn
//! around it. Every coordinate is a fixed offset from the size, and every
//! tab or notch transition is rounded with a quadratic Bezier command.

use vstd::prelude::*;

verus! {

/// The outline topology a path is generated for. `Flag` has a trapezoidal
/// top-right taper; `Works`, `Move` and `Composition` share the stackable
/// tab-and-notch shape; `Loop` and `Value` add a nested notch region below
/// the body.
#[derive(Clone, Copy, PartialEq, Eq, Structural, Debug)]
pub enum PathType {
    Flag,
    Works,
    Loop,
    Move,
    Composition,
    Value,
}

/// A requested outline size, in pixels.
#[derive(Clone, Copy, PartialEq, Eq, Structural, Debug)]
pub struct Size {
    pub width: i64,
    pub height: i64,
}

/// A shape category paired with the size to draw it at.
#[derive(Clone, Copy, PartialEq, Eq, Structural, Debug)]
pub struct Path {
    pub type_: PathType,
    pub size: Size,
}

impl Size {
    /// Builds a size from its two extents.
    pub fn new(width: i64, height: i64) -> (r: Size)
        ensures
            r == (Size { width, height }),
    {
        Size { width, height }
    }
}

/// Pairs a shape category with a size.
pub fn get_path(path_type: &PathType, size: &Size) -> (r: Path)
    ensures
        r.type_ == *path_type,
        r.size == *size,
{
    Path { type_: *path_type, size: *size }
}

/// The decimal digit character for d, which must lie in 0..=9.
pub open spec fn digit_char(d: int) -> char {
    if d == 0 {
        '0'
    } else if d == 1 {
        '1'
    } else if d == 2 {
        '2'
    } else if d == 3 {
        '3'
    } else if d == 4 {
        '4'
    } else if d == 5 {
        '5'
    } else if d == 6 {
        '6'
    } else if d == 7 {
        '7'
    } else if d == 8 {
        '8'
    } else {
        '9'
    }
}

/// The decimal digits of a non-negative number, most significant first.
pub open spec fn dec_nat(n: nat) -> Seq<char>
    decreases n,
{
    if n < 10 {
        seq![digit_char(n as int)]
    } else {
        dec_nat(n / 10) + seq![digit_char((n % 10) as int)]
    }
}

/// The decimal text of an integer, with a leading minus sign when negative.
pub open spec fn dec_int(n: int) -> Seq<char> {
    if n < 0 {
        seq!['-'] + dec_nat((0 - n) as nat)
    } else {
        dec_nat(n as nat)
    }
}

/// Appends one decimal digit.
fn push_digit(out: &mut String, d: u64)
    requires
        d < 10,
    ensures
        final(out)@ == old(out)@ + seq![digit_char(d as int)],
{
    if d == 0 {
        proof {
            reveal_strlit("0");
            assert("0"@ =~= seq!['0']);
        }
        out.append("0");
    } else if d == 1 {
        proof {
            reveal_strlit("1");
            assert("1"@ =~= seq!['1']);
        }
        out.append("1");
    } else if d == 2 {
        proof {
            reveal_strlit("2");
            assert("2"@ =~= seq!['2']);
        }
        out.append("2");
    } else if d == 3 {
        proof {
            reveal_strlit("3");
            assert("3"@ =~= seq!['3']);
        }
        out.append("3");
    } else if d == 4 {
        proof {
            reveal_strlit("4");
            assert("4"@ =~= seq!['4']);
        }
        out.append("4");
    } else if d == 5 {
        proof {
            reveal_strlit("5");
            assert("5"@ =~= seq!['5']);
        }
        out.append("5");
    } else if d == 6 {
        proof {
            reveal_strlit("6");
            assert("6"@ =~= seq!['6']);
        }
        out.append("6");
    } else if d == 7 {
        proof {
            reveal_strlit("7");
            assert("7"@ =~= seq!['7']);
        }
        out.append("7");
    } else if d == 8 {
        proof {
            reveal_strlit("8");
            assert("8"@ =~= seq!['8']);
        }
        out.append("8");
    } else {
        proof {
            reveal_strlit("9");
            assert("9"@ =~= seq!['9']);
        }
        out.append("9");
    }
}

/// Appends the decimal digits of a non-negative number.
fn push_u64_dec(out: &mut String, n: u64)
    ensures
        final(out)@ == old(out)@ + dec_nat(n as nat),
    decreases n,
{
    if n >= 10 {
        push_u64_dec(out, n / 10);
        push_digit(out, n % 10);
        proof {
            assert(final(out)@ =~= old(out)@ + dec_nat(n as nat));
        }
    } else {
        push_digit(out, n);
    }
}

/// Appends the decimal text of an integer.
fn push_i64_dec(out: &mut String, n: i64)
    requires
        n > i64::MIN,
    ensures
        final(out)@ == old(out)@ + dec_int(n as int),
{
    if n < 0 {
        proof {
            reveal_strlit("-");
            assert("-"@ =~= seq!['-']);
        }
        out.append("-");
        push_u64_dec(out, (-n) as u64);
        proof {
            assert(final(out)@ =~= old(out)@ + dec_int(n as int));
        }
    } else {
        push_u64_dec(out, n as u64);
    }
}

/// The Flag family: a single top-right trapezoidal taper.
pub open spec fn flag_outline_text(w: int, h: int) -> Seq<char> {
    let sw = w - 2;
    "M 14 2 L 42 2 L "@
        + dec_int(sw - 14)
        + " 2 Q "@
        + dec_int(sw)
        + " 2 "@
        + dec_int(sw)
        + " 14 L "@
        + dec_int(sw)
        + " "@
        + dec_int(h - 18)
        + " Q "@
        + dec_int(sw)
        + " "@
        + dec_int(h - 14)
        + " "@
        + dec_int(sw - 4)
        + " "@
        + dec_int(h - 14)
        + " L 40 "@
        + dec_int(h - 14)
        + " L 40 "@
        + dec_int(h - 10)
        + " Q 40 "@
        + dec_int(h - 8)
        + " 36 "@
        + dec_int(h - 8)
        + " L 20 "@
        + dec_int(h - 8)
        + " Q 16 "@
        + dec_int(h - 8)
        + " 16 "@
        + dec_int(h - 10)
        + " L 16 "@
        + dec_int(h - 14)
        + " L 4 "@
        + dec_int(h - 14)
        + " Q 2 "@
        + dec_int(h - 14)
        + " 2 "@
        + dec_int(h - 18)
        + " L 2 14 Q 2 2 14 2 Z"@
}

/// The stackable family (Works, Move, Composition): a raised top tab and
/// a matching bottom notch.
pub open spec fn stack_outline_text(w: int, h: int) -> Seq<char> {
    let sw = w - 2;
    "M 4 2 L 14 2 L 14 4 Q 14 8 20 8 L 38 8 Q 42 8 42 4 L 42 2 L "@
        + dec_int(sw - 4)
        + " 2 Q "@
        + dec_int(sw)
        + " 2 "@
        + dec_int(sw)
        + " 4 L "@
        + dec_int(sw)
        + " "@
        + dec_int(h - 18)
        + " Q "@
        + dec_int(sw)
        + " "@
        + dec_int(h - 14)
        + " "@
        + dec_int(sw - 4)
        + " "@
        + dec_int(h - 14)
        + " L 40 "@
        + dec_int(h - 14)
        + " L 40 "@
        + dec_int(h - 10)
        + " Q 40 "@
        + dec_int(h - 8)
        + " 36 "@
        + dec_int(h - 8)
        + " L 20 "@
        + dec_int(h - 8)
        + " Q 16 "@
        + dec_int(h - 8)
        + " 16 "@
        + dec_int(h - 10)
        + " L 16 "@
        + dec_int(h - 14)
        + " L 4 "@
        + dec_int(h - 14)
        + " Q 2 "@
        + dec_int(h - 14)
        + " 2 "@
        + dec_int(h - 18)
        + " L 2 4 Q 2 2 4 2 Z"@
}

/// The Loop/Value family: the stackable shape with a nested notch region
/// carved below the body, extending past the declared height.
pub open spec fn loop_outline_text(w: int, h: int) -> Seq<char> {
    let sw = w - 2;
    "M 4 2 L 14 2 L 14 4 Q 14 8 20 8 L 38 8 Q 42 8 42 4 L 42 2 L "@
        + dec_int(sw - 4)
        + " 2 Q "@
        + dec_int(sw)
        + " 2 "@
        + dec_int(sw)
        + " 4 L "@
        + dec_int(sw)
        + " "@
        + dec_int(h - 18)
        + " Q "@
        + dec_int(sw)
        + " "@
        + dec_int(h - 14)
        + " "@
        + dec_int(sw - 4)
        + " "@
        + dec_int(h - 14)
        + " L 48 "@
        + dec_int(h - 14)
        + " L 48 "@
        + dec_int(h - 10)
        + " Q 48 "@
        + dec_int(h - 8)
        + " 44 "@
        + dec_int(h - 8)
        + " L 28 "@
        + dec_int(h - 8)
        + " Q 24 "@
        + dec_int(h - 8)
        + " 24 "@
        + dec_int(h - 10)
        + " L 24 "@
        + dec_int(h - 14)
        + " L 12 "@
        + dec_int(h - 14)
        + " Q 8 "@
        + dec_int(h - 14)
        + " 8 "@
        + dec_int(h - 10)
        + " L 8 "@
        + dec_int(h + 29)
        + " Q 8 "@
        + dec_int(h + 33)
        + " 14 "@
        + dec_int(h + 33)
        + " L "@
        + dec_int(sw - 4)
        + " "@
        + dec_int(h + 33)
        + " Q "@
        + dec_int(sw)
        + " "@
        + dec_int(h + 33)
        + " "@
        + dec_int(sw)
        + " "@
        + dec_int(h + 37)
        + " L "@
        + dec_int(sw)
        + " "@
        + dec_int(h + 44)
        + " Q "@
        + dec_int(sw)
        + " "@
        + dec_int(h + 48)
        + " "@
        + dec_int(sw - 4)
        + " "@
        + dec_int(h + 48)
        + " L 4 "@
        + dec_int(h + 48)
        + " Q 2 "@
        + dec_int(h + 48)
        + " 2 "@
        + dec_int(h + 44)
        + " L 2 4 Q 2 2 4 2 Z"@
}

/// The outline text for a shape category at a size: the families dispatch on
/// the category, and every family insets the declared width by one pixel of
/// stroke allowance on each side.
pub open spec fn outline_text(path_type: PathType, size: Size) -> Seq<char> {
    match path_type {
        PathType::Flag => flag_outline_text(size.width as int, size.height as int),
        PathType::Works => stack_outline_text(size.width as int, size.height as int),
        PathType::Move => stack_outline_text(size.width as int, size.height as int),
        PathType::Composition => stack_outline_text(size.width as int, size.height as int),
        PathType::Loop => loop_outline_text(size.width as int, size.height as int),
        PathType::Value => loop_outline_text(size.width as int, size.height as int),
    }
}

/// Generates the closed outline path for a shape category at a size. Pure
/// and deterministic; a degenerate size still yields a well-formed path.
/// The bounds keep every derived coordinate inside the machine range.
pub fn generate_path_string(path_type: &PathType, size: &Size) -> (r: String)
    requires
        size.width > i64::MIN + 16,
        size.height > i64::MIN + 18,
        size.height <= i64::MAX - 48,
    ensures
        r@ == outline_text(*path_type, *size),
{
    let sw = size.width - 2;
    let h = size.height;
    match path_type {
        PathType::Flag => {
            let mut out = String::from_str("M 14 2 L 42 2 L ");
            push_i64_dec(&mut out, sw - 14);
            out.append(" 2 Q ");
            push_i64_dec(&mut out, sw);
            out.append(" 2 ");
            push_i64_dec(&mut out, sw);
            out.append(" 14 L ");
            push_i64_dec(&mut out, sw);
            out.append(" ");
            push_i64_dec(&mut out, h - 18);
            out.append(" Q ");
            push_i64_dec(&mut out, sw);
            out.append(" ");
            push_i64_dec(&mut out, h - 14);
            out.append(" ");
            push_i64_dec(&mut out, sw - 4);
            out.append(" ");
            push_i64_dec(&mut out, h - 14);
            out.append(" L 40 ");
            push_i64_dec(&mut out, h - 14);
            out.append(" L 40 ");
            push_i64_dec(&mut out, h - 10);
            out.append(" Q 40 ");
            push_i64_dec(&mut out, h - 8);
            out.append(" 36 ");
            push_i64_dec(&mut out, h - 8);
            out.append(" L 20 ");
            push_i64_dec(&mut out, h - 8);
            out.append(" Q 16 ");
            push_i64_dec(&mut out, h - 8);
            out.append(" 16 ");
            push_i64_dec(&mut out, h - 10);
            out.append(" L 16 ");
            push_i64_dec(&mut out, h - 14);
            out.append(" L 4 ");
            push_i64_dec(&mut out, h - 14);
            out.append(" Q 2 ");
            push_i64_dec(&mut out, h - 14);
            out.append(" 2 ");
            push_i64_dec(&mut out, h - 18);
            out.append(" L 2 14 Q 2 2 14 2 Z");
            out
        },
        PathType::Works | PathType::Move | PathType::Composition => {
            let mut out = String::from_str("M 4 2 L 14 2 L 14 4 Q 14 8 20 8 L 38 8 Q 42 8 42 4 L 42 2 L ");
            push_i64_dec(&mut out, sw - 4);
            out.append(" 2 Q ");
            push_i64_dec(&mut out, sw);
            out.append(" 2 ");
            push_i64_dec(&mut out, sw);
            out.append(" 4 L ");
            push_i64_dec(&mut out, sw);
            out.append(" ");
            push_i64_dec(&mut out, h - 18);
            out.append(" Q ");
            push_i64_dec(&mut out, sw);
            out.append(" ");
            push_i64_dec(&mut out, h - 14);
            out.append(" ");
            push_i64_dec(&mut out, sw - 4);
            out.append(" ");
            push_i64_dec(&mut out, h - 14);
            out.append(" L 40 ");
            push_i64_dec(&mut out, h - 14);
            out.append(" L 40 ");
            push_i64_dec(&mut out, h - 10);
            out.append(" Q 40 ");
            push_i64_dec(&mut out, h - 8);
            out.append(" 36 ");
            push_i64_dec(&mut out, h - 8);
            out.append(" L 20 ");
            push_i64_dec(&mut out, h - 8);
            out.append(" Q 16 ");
            push_i64_dec(&mut out, h - 8);
            out.append(" 16 ");
            push_i64_dec(&mut out, h - 10);
            out.append(" L 16 ");
            push_i64_dec(&mut out, h - 14);
            out.append(" L 4 ");
            push_i64_dec(&mut out, h - 14);
            out.append(" Q 2 ");
            push_i64_dec(&mut out, h - 14);
            out.append(" 2 ");
            push_i64_dec(&mut out, h - 18);
            out.append(" L 2 4 Q 2 2 4 2 Z");
            out
        },
        PathType::Loop | PathType::Value => {
            let mut out = String::from_str("M 4 2 L 14 2 L 14 4 Q 14 8 20 8 L 38 8 Q 42 8 42 4 L 42 2 L ");
            push_i64_dec(&mut out, sw - 4);
            out.append(" 2 Q ");
            push_i64_dec(&mut out, sw);
            out.append(" 2 ");
            push_i64_dec(&mut out, sw);
            out.append(" 4 L ");
            push_i64_dec(&mut out, sw);
            out.append(" ");
            push_i64_dec(&mut out, h - 18);
            out.append(" Q ");
            push_i64_dec(&mut out, sw);
            out.append(" ");
            push_i64_dec(&mut out, h - 14);
            out.append(" ");
            push_i64_dec(&mut out, sw - 4);
            out.append(" ");
            push_i64_dec(&mut out, h - 14);
            out.append(" L 48 ");
            push_i64_dec(&mut out, h - 14);
            out.append(" L 48 ");
            push_i64_dec(&mut out, h - 10);
            out.append(" Q 48 ");
            push_i64_dec(&mut out, h - 8);
            out.append(" 44 ");
            push_i64_dec(&mut out, h - 8);
            out.append(" L 28 ");
            push_i64_dec(&mut out, h - 8);
            out.append(" Q 24 ");
            push_i64_dec(&mut out, h - 8);
            out.append(" 24 ");
            push_i64_dec(&mut out, h - 10);
            out.append(" L 24 ");
            push_i64_dec(&mut out, h - 14);
            out.append(" L 12 ");
            push_i64_dec(&mut out, h - 14);
            out.append(" Q 8 ");
            push_i64_dec(&mut out, h - 14);
            out.append(" 8 ");
            push_i64_dec(&mut out, h - 10);
            out.append(" L 8 ");
            push_i64_dec(&mut out, h + 29);
            out.append(" Q 8 ");
            push_i64_dec(&mut out, h + 33);
            out.append(" 14 ");
            push_i64_dec(&mut out, h + 33);
            out.append(" L ");
            push_i64_dec(&mut out, sw - 4);
            out.append(" ");
            push_i64_dec(&mut out, h + 33);
            out.append(" Q ");
            push_i64_dec(&mut out, sw);
            out.append(" ");
            push_i64_dec(&mut out, h + 33);
            out.append(" ");
            push_i64_dec(&mut out, sw);
            out.append(" ");
            push_i64_dec(&mut out, h + 37);
            out.append(" L ");
            push_i64_dec(&mut out, sw);
            out.append(" ");
            push_i64_dec(&mut out, h + 44);
            out.append(" Q ");
            push_i64_dec(&mut out, sw);
            out.append(" ");
            push_i64_dec(&mut out, h + 48);
            out.append(" ");
            push_i64_dec(&mut out, sw - 4);
            out.append(" ");
            push_i64_dec(&mut out, h + 48);
            out.append(" L 4 ");
            push_i64_dec(&mut out, h + 48);
            out.append(" Q 2 ");
            push_i64_dec(&mut out, h + 48);
            out.append(" 2 ");
            push_i64_dec(&mut out, h + 44);
            out.append(" L 2 4 Q 2 2 4 2 Z");
            out
        },
    }
}

/// The outline is a function of shape category and size alone: equal inputs
/// always yield equal text, so two generator calls on the same input return
/// identical strings.
pub proof fn lemma_outline_deterministic(t1: PathType, s1: Size, t2: PathType, s2: Size)
    requires
        t1 == t2,
        s1 == s2,
    ensures
        outline_text(t1, s1) == outline_text(t2, s2),
{
}

} // verus!
