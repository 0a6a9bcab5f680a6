//! Rendering of unsigned integers as decimal and hexadecimal text.
use vstd::prelude::*;
use vstd::string::StringExecFns;

verus! {

/// The single hexadecimal digit for a value below sixteen.
pub open spec fn hex_digit(d: nat) -> Seq<char> {
    if d == 0 {
        "0"@
    } else if d == 1 {
        "1"@
    } else if d == 2 {
        "2"@
    } else if d == 3 {
        "3"@
    } else if d == 4 {
        "4"@
    } else if d == 5 {
        "5"@
    } else if d == 6 {
        "6"@
    } else if d == 7 {
        "7"@
    } else if d == 8 {
        "8"@
    } else if d == 9 {
        "9"@
    } else if d == 10 {
        "a"@
    } else if d == 11 {
        "b"@
    } else if d == 12 {
        "c"@
    } else if d == 13 {
        "d"@
    } else if d == 14 {
        "e"@
    } else {
        "f"@
    }
}

/// Lowercase hexadecimal text of a value, without any prefix or padding.
pub open spec fn hex_text(x: nat) -> Seq<char>
    decreases x,
{
    if x < 16 {
        hex_digit(x)
    } else {
        hex_text(x / 16) + hex_digit(x % 16)
    }
}

/// How many hexadecimal digits `hex_text` uses for a value.
pub open spec fn hex_width(x: nat) -> nat
    decreases x,
{
    if x < 16 {
        1
    } else {
        1 + hex_width(x / 16)
    }
}

/// A run of `n` zero characters.
pub open spec fn zero_run(n: nat) -> Seq<char>
    decreases n,
{
    if n == 0 {
        Seq::<char>::empty()
    } else {
        "0"@ + zero_run((n - 1) as nat)
    }
}

/// Hexadecimal text of a value, zero-padded on the left to eight digits.
pub open spec fn hex_text_pad8(x: nat) -> Seq<char> {
    if hex_width(x) >= 8 {
        hex_text(x)
    } else {
        zero_run((8 - hex_width(x)) as nat) + hex_text(x)
    }
}

/// Decimal text of a value.
pub open spec fn dec_text(x: nat) -> Seq<char>
    decreases x,
{
    if x < 10 {
        hex_digit(x)
    } else {
        dec_text(x / 10) + hex_digit(x % 10)
    }
}

fn hex_digit_str(d: u64) -> (r: &'static str)
    requires
        d < 16,
    ensures
        r@ == hex_digit(d as nat),
{
    if d == 0 {
        "0"
    } else if d == 1 {
        "1"
    } else if d == 2 {
        "2"
    } else if d == 3 {
        "3"
    } else if d == 4 {
        "4"
    } else if d == 5 {
        "5"
    } else if d == 6 {
        "6"
    } else if d == 7 {
        "7"
    } else if d == 8 {
        "8"
    } else if d == 9 {
        "9"
    } else if d == 10 {
        "a"
    } else if d == 11 {
        "b"
    } else if d == 12 {
        "c"
    } else if d == 13 {
        "d"
    } else if d == 14 {
        "e"
    } else {
        "f"
    }
}

/// Appends the unpadded lowercase hexadecimal text of `x` to `out`.
pub fn push_hex_u64(out: &mut String, x: u64)
    ensures
        final(out)@ == old(out)@ + hex_text(x as nat),
    decreases x,
{
    if x < 16 {
        out.append(hex_digit_str(x));
    } else {
        push_hex_u64(out, x / 16);
        out.append(hex_digit_str(x % 16));
    }
}

fn hex_width_u64(x: u64) -> (r: u64)
    ensures
        r == hex_width(x as nat),
    decreases x,
{
    if x < 16 {
        1
    } else {
        let w = hex_width_u64(x / 16);
        proof {
            assert(hex_width(x as nat / 16) <= x as nat / 16 + 1) by {
                lemma_hex_width_bound(x as nat / 16);
            }
        }
        1 + w
    }
}

proof fn lemma_hex_width_bound(x: nat)
    ensures
        hex_width(x) <= x + 1,
    decreases x,
{
    if x >= 16 {
        lemma_hex_width_bound(x / 16);
        assert(x / 16 + 2 <= x + 1) by {
            assert(x == 16 * (x / 16) + x % 16) by {
                vstd::arithmetic::div_mod::lemma_fundamental_div_mod(x as int, 16);
            }
        }
    }
}

/// Appends the hexadecimal text of `x`, zero-padded to eight digits, to `out`.
pub fn push_hex_u32_pad8(out: &mut String, x: u32)
    ensures
        final(out)@ == old(out)@ + hex_text_pad8(x as nat),
{
    let w = hex_width_u64(x as u64);
    let mut pad: u64 = if w >= 8 {
        0
    } else {
        8 - w
    };
    proof {
        assert(zero_run(0) == Seq::<char>::empty());
    }
    while pad > 0
        invariant
            out@ + zero_run(pad as nat) == old(out)@ + (if hex_width(x as nat) >= 8 {
                Seq::<char>::empty()
            } else {
                zero_run((8 - hex_width(x as nat)) as nat)
            }),
        decreases pad,
    {
        out.append("0");
        pad = pad - 1;
    }
    proof {
        assert(out@ + zero_run(0) == out@) by {
            assert(out@ + Seq::<char>::empty() =~= out@);
        }
    }
    push_hex_u64(out, x as u64);
}

/// Appends the decimal text of `x` to `out`.
pub fn push_dec_u64(out: &mut String, x: u64)
    ensures
        final(out)@ == old(out)@ + dec_text(x as nat),
    decreases x,
{
    if x < 10 {
        out.append(hex_digit_str(x));
    } else {
        push_dec_u64(out, x / 10);
        out.append(hex_digit_str(x % 10));
    }
}

} // verus!
