//! Text encoding of commands for the emulator's input pipe.
//!
//! Stick coordinates `a` become `0.5 + 0.5 * a / 128` when negative and
//! `0.5 + 0.5 * a / 127` otherwise, trigger values `t` become `t / 128`.
//! Each value is written in decimal, rounded to sixteen fractional digits,
//! without trailing zeros.

use crate::analog::Analog;
use crate::input::{GCButton, Stick};
use crate::output::DolphinPipeInput;
use vstd::prelude::*;

verus! {

/// Fractional digits written for a value.
pub const FRACTION_DIGITS: u64 = 16;

/// Ten to the power of the fractional digits.
pub const FRACTION_SCALE: u64 = 10_000_000_000_000_000;

pub open spec fn digit_char(d: nat) -> char {
    if d == 0 {
        '0'
    } else if d == 1 {
        '1'
    } else if d == 2 {
        '2'
    } else if d == 3 {
        '3'
    } else if d == 4 {
        '4'
    } else if d == 5 {
        '5'
    } else if d == 6 {
        '6'
    } else if d == 7 {
        '7'
    } else if d == 8 {
        '8'
    } else {
        '9'
    }
}

/// Decimal digits of `n`, without leading zeros.
pub open spec fn nat_digits(n: nat) -> Seq<char>
    decreases n,
{
    if n < 10 {
        seq![digit_char(n)]
    } else {
        nat_digits(n / 10).push(digit_char(n % 10))
    }
}

/// The last `k` decimal digits of `n`, with leading zeros.
pub open spec fn padded_digits(n: nat, k: nat) -> Seq<char>
    decreases k,
{
    if k == 0 {
        Seq::empty()
    } else {
        padded_digits(n / 10, (k - 1) as nat).push(digit_char(n % 10))
    }
}

/// The `k`-digit fraction `f` without its trailing zeros.
pub open spec fn fraction_digits(f: nat, k: nat) -> Seq<char>
    decreases k,
{
    if f == 0 || k == 0 {
        Seq::empty()
    } else if f % 10 == 0 {
        fraction_digits(f / 10, (k - 1) as nat)
    } else {
        padded_digits(f, k)
    }
}

/// `num / den` rounded to the nearest multiple of the scale's inverse,
/// halves up, counted in units of it.
pub open spec fn scaled(num: nat, den: nat) -> nat
    recommends
        den > 0,
{
    ((2 * num * FRACTION_SCALE + den) as int / (2 * den) as int) as nat
}

/// `num / den` in decimal.
pub open spec fn decimal(num: nat, den: nat) -> Seq<char> {
    let s = scaled(num, den);
    let frac = s % (FRACTION_SCALE as nat);
    nat_digits(s / (FRACTION_SCALE as nat)) + if frac == 0 {
        Seq::empty()
    } else {
        seq!['.'] + fraction_digits(frac, FRACTION_DIGITS as nat)
    }
}

/// The text of a stick coordinate.
pub open spec fn coordinate_text(a: int) -> Seq<char> {
    if a < 0 {
        decimal((128 + a) as nat, 256)
    } else {
        decimal((127 + a) as nat, 254)
    }
}

pub open spec fn button_name(button: GCButton) -> Seq<char> {
    match button {
        GCButton::A => "A"@,
        GCButton::B => "B"@,
        GCButton::DUp => "D_UP"@,
        GCButton::DDown => "D_DOWN"@,
        GCButton::DLeft => "D_LEFT"@,
        GCButton::DRight => "D_RIGHT"@,
        GCButton::L => "L"@,
        GCButton::R => "R"@,
        GCButton::X => "X"@,
        GCButton::Y => "Y"@,
        GCButton::Z => "Z"@,
        GCButton::Start => "START"@,
    }
}

pub open spec fn stick_name(stick: Stick) -> Seq<char> {
    match stick {
        Stick::A => "MAIN"@,
        Stick::C => "C"@,
    }
}

impl DolphinPipeInput {
    /// The line of the pipe for this command.
    pub open spec fn pipe_text(self) -> Seq<char> {
        match self {
            DolphinPipeInput::Button(button, pressed) => (if pressed {
                "PRESS "@
            } else {
                "RELEASE "@
            }) + button_name(button) + "\n"@,
            DolphinPipeInput::Trigger(t) => "SET L "@ + decimal(t@ as nat, 128) + "\n"@,
            DolphinPipeInput::Stick(stick, (x, y)) => "SET "@ + stick_name(stick) + " "@
                + coordinate_text(x@) + " "@ + coordinate_text(y@) + "\n"@,
        }
    }

    pub fn into_input_string(self) -> (r: String)
        ensures
            r@ == self.pipe_text(),
    {
        let mut s = String::new();
        match self {
            DolphinPipeInput::Button(button, pressed) => {
                s.append(if pressed { "PRESS " } else { "RELEASE " });
                s.append(button_str(button));
            },
            DolphinPipeInput::Trigger(t) => {
                s.append("SET L ");
                push_decimal(&mut s, t.get() as u64, 128);
            },
            DolphinPipeInput::Stick(stick, (x, y)) => {
                s.append("SET ");
                s.append(
                    match stick {
                        Stick::A => "MAIN",
                        Stick::C => "C",
                    },
                );
                s.append(" ");
                push_coordinate(&mut s, x);
                s.append(" ");
                push_coordinate(&mut s, y);
            },
        }
        s.append("\n");
        s
    }
}

fn button_str(button: GCButton) -> (r: &'static str)
    ensures
        r@ == button_name(button),
{
    match button {
        GCButton::A => "A",
        GCButton::B => "B",
        GCButton::DUp => "D_UP",
        GCButton::DDown => "D_DOWN",
        GCButton::DLeft => "D_LEFT",
        GCButton::DRight => "D_RIGHT",
        GCButton::L => "L",
        GCButton::R => "R",
        GCButton::X => "X",
        GCButton::Y => "Y",
        GCButton::Z => "Z",
        GCButton::Start => "START",
    }
}

fn digit_str(d: u64) -> (r: &'static str)
    requires
        d < 10,
    ensures
        r@ == seq![digit_char(d as nat)],
{
    proof {
        reveal_strlit("0");
        reveal_strlit("1");
        reveal_strlit("2");
        reveal_strlit("3");
        reveal_strlit("4");
        reveal_strlit("5");
        reveal_strlit("6");
        reveal_strlit("7");
        reveal_strlit("8");
        reveal_strlit("9");
    }
    match d {
        0 => "0",
        1 => "1",
        2 => "2",
        3 => "3",
        4 => "4",
        5 => "5",
        6 => "6",
        7 => "7",
        8 => "8",
        _ => "9",
    }
}

fn push_digits(s: &mut String, n: u64)
    ensures
        final(s)@ == old(s)@ + nat_digits(n as nat),
    decreases n,
{
    if n >= 10 {
        push_digits(s, n / 10);
    }
    s.append(digit_str(n % 10));
    assert(final(s)@ =~= old(s)@ + nat_digits(n as nat));
}

fn push_padded(s: &mut String, n: u64, k: u64)
    ensures
        final(s)@ == old(s)@ + padded_digits(n as nat, k as nat),
    decreases k,
{
    if k > 0 {
        push_padded(s, n / 10, k - 1);
        s.append(digit_str(n % 10));
    }
    assert(final(s)@ =~= old(s)@ + padded_digits(n as nat, k as nat));
}

fn push_fraction(s: &mut String, f: u64, k: u64)
    ensures
        final(s)@ == old(s)@ + fraction_digits(f as nat, k as nat),
    decreases k,
{
    if f == 0 || k == 0 {
        assert(old(s)@ + fraction_digits(f as nat, k as nat) =~= old(s)@);
    } else if f % 10 == 0 {
        push_fraction(s, f / 10, k - 1);
    } else {
        push_padded(s, f, k);
    }
}

/// Appends `num / den` in decimal.
fn push_decimal(s: &mut String, num: u64, den: u64)
    requires
        num <= 256,
        0 < den <= 256,
    ensures
        final(s)@ == old(s)@ + decimal(num as nat, den as nat),
{
    assert(2 * num * FRACTION_SCALE + den <= 6_000_000_000_000_000_000) by (nonlinear_arith)
        requires
            num <= 256,
            den <= 256,
    ;
    let scaled: u64 = (2 * num * FRACTION_SCALE + den) / (2 * den);
    let frac = scaled % FRACTION_SCALE;
    push_digits(s, scaled / FRACTION_SCALE);
    if frac != 0 {
        s.append(".");
        push_fraction(s, frac, FRACTION_DIGITS);
    }
    proof {
        reveal_strlit(".");
    }
    assert(final(s)@ =~= old(s)@ + decimal(num as nat, den as nat));
}

/// Appends the text of a stick coordinate.
fn push_coordinate(s: &mut String, a: Analog)
    ensures
        final(s)@ == old(s)@ + coordinate_text(a@),
{
    let v = a.get();
    if v < 0 {
        push_decimal(s, (128 + v as i64) as u64, 256);
    } else {
        push_decimal(s, (127 + v as i64) as u64, 254);
    }
}

} // verus!
