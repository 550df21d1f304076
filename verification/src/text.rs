//! Verified rendering of numbers as decimal and fixed-width binary text.

use vstd::prelude::*;
use vstd::string::*;

verus! {

/// The character for one decimal digit value.
pub open spec fn dec_digit(d: nat) -> char {
    if d == 0 {
        '0'
    } else if d == 1 {
        '1'
    } else if d == 2 {
        '2'
    } else if d == 3 {
        '3'
    } else if d == 4 {
        '4'
    } else if d == 5 {
        '5'
    } else if d == 6 {
        '6'
    } else if d == 7 {
        '7'
    } else if d == 8 {
        '8'
    } else {
        '9'
    }
}

/// Decimal text of a natural number, most significant digit first,
/// with no leading zeros (a lone `0` for zero).
pub open spec fn dec_seq(n: nat) -> Seq<char>
    decreases n,
{
    if n < 10 {
        seq![dec_digit(n)]
    } else {
        dec_seq(n / 10).push(dec_digit(n % 10))
    }
}

/// Decimal text of an integer: a leading `-` for negative values.
pub open spec fn dec_signed_seq(v: int) -> Seq<char> {
    if v < 0 {
        seq!['-'] + dec_seq((-v) as nat)
    } else {
        dec_seq(v as nat)
    }
}

/// Binary text of the low `width` bits of `n`, zero-padded to exactly
/// `width` characters, most significant bit first.
pub open spec fn bin_seq(n: nat, width: nat) -> Seq<char>
    decreases width,
{
    if width == 0 {
        Seq::empty()
    } else {
        bin_seq(n / 2, (width - 1) as nat).push(if n % 2 == 1 {
            '1'
        } else {
            '0'
        })
    }
}

/// The one-character string for the digit value `d`.
fn digit_str(d: u32) -> (s: &'static str)
    requires
        d < 10,
    ensures
        s@ == seq![dec_digit(d as nat)],
{
    if d == 0 {
        proof {
            reveal_strlit("0");
            assert("0"@ =~= seq![dec_digit(0)]);
        }
        "0"
    } else if d == 1 {
        proof {
            reveal_strlit("1");
            assert("1"@ =~= seq![dec_digit(1)]);
        }
        "1"
    } else if d == 2 {
        proof {
            reveal_strlit("2");
            assert("2"@ =~= seq![dec_digit(2)]);
        }
        "2"
    } else if d == 3 {
        proof {
            reveal_strlit("3");
            assert("3"@ =~= seq![dec_digit(3)]);
        }
        "3"
    } else if d == 4 {
        proof {
            reveal_strlit("4");
            assert("4"@ =~= seq![dec_digit(4)]);
        }
        "4"
    } else if d == 5 {
        proof {
            reveal_strlit("5");
            assert("5"@ =~= seq![dec_digit(5)]);
        }
        "5"
    } else if d == 6 {
        proof {
            reveal_strlit("6");
            assert("6"@ =~= seq![dec_digit(6)]);
        }
        "6"
    } else if d == 7 {
        proof {
            reveal_strlit("7");
            assert("7"@ =~= seq![dec_digit(7)]);
        }
        "7"
    } else if d == 8 {
        proof {
            reveal_strlit("8");
            assert("8"@ =~= seq![dec_digit(8)]);
        }
        "8"
    } else {
        proof {
            reveal_strlit("9");
            assert("9"@ =~= seq![dec_digit(9)]);
        }
        "9"
    }
}

/// Decimal text of `n`.
pub fn dec_u32(n: u32) -> (s: String)
    ensures
        s@ == dec_seq(n as nat),
    decreases n,
{
    if n < 10 {
        String::from_str(digit_str(n))
    } else {
        let mut s = dec_u32(n / 10);
        s.append(digit_str(n % 10));
        proof {
            assert(s@ =~= dec_seq(n as nat));
        }
        s
    }
}

/// Decimal text of a 16-bit two's-complement value held in the low
/// 16 bits of `imm`.
pub open spec fn imm_signed(imm: u32) -> int {
    if imm < 0x8000 {
        imm as int
    } else {
        imm - 0x10000
    }
}

/// Renders the 16-bit immediate `imm` as a signed decimal number.
pub fn dec_imm16(imm: u32) -> (s: String)
    requires
        imm < 0x10000,
    ensures
        s@ == dec_signed_seq(imm_signed(imm)),
{
    if imm < 0x8000 {
        dec_u32(imm)
    } else {
        let mut s = String::from_str("-");
        let mag = dec_u32(0x10000 - imm);
        s.append(mag.as_str());
        proof {
            reveal_strlit("-");
            assert(s@ =~= dec_signed_seq(imm_signed(imm)));
        }
        s
    }
}

/// Binary text of the low `width` bits of `n`, zero-padded to `width`
/// characters.
pub fn bin_string(n: u32, width: u32) -> (s: String)
    ensures
        s@ == bin_seq(n as nat, width as nat),
    decreases width,
{
    if width == 0 {
        let s = String::new();
        proof {
            assert(s@ =~= bin_seq(n as nat, 0));
        }
        s
    } else {
        let mut s = bin_string(n / 2, width - 1);
        if n % 2 == 1 {
            s.append("1");
            proof {
                reveal_strlit("1");
                assert(s@ =~= bin_seq(n as nat, width as nat));
            }
        } else {
            s.append("0");
            proof {
                reveal_strlit("0");
                assert(s@ =~= bin_seq(n as nat, width as nat));
            }
        }
        s
    }
}

} // verus!
