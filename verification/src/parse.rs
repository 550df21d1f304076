//! Classifying a raw word and decoding it from its binary-string source.
//!
//! Classification here is derived from the opcode bits alone: opcode 0
//! is the register format, opcodes 2 and 3 are the jump format, and
//! every other opcode is the immediate format.  This is the single
//! source of truth for format discrimination; a backing table that also
//! carries a format column must agree with it.

use crate::table::res_view;
use crate::table::Table;
use crate::types::i_format_of;
use crate::types::i_render_spec;
use crate::types::j_format_of;
use crate::types::j_render_spec;
use crate::types::r_format_of;
use crate::types::r_render_spec;
use crate::types::I_Format;
use crate::types::J_Format;
use crate::types::R_Format;
use crate::DisasmError;
use vstd::arithmetic::power2::lemma2_to64;
use vstd::arithmetic::power2::lemma_pow2_strictly_increases;
use vstd::arithmetic::power2::lemma_pow2_unfold;
use vstd::arithmetic::power2::pow2;
use vstd::prelude::*;
use vstd::string::*;

verus! {

/// The three instruction layouts, each carrying the raw word it was
/// derived from.  Exactly one variant is live per word, decided by bits
/// 31-26 alone and never changed afterwards.
#[allow(non_camel_case_types)]
#[derive(Clone, Copy, Debug, PartialEq, Eq, Structural)]
pub enum Format {
    I_Format(u32),
    R_Format(u32),
    J_Format(u32),
}

/// The format that `bin` uses: a closed, total function over all 64
/// opcode values, with no error case.
pub open spec fn classify_word(bin: u32) -> Format {
    if bin >> 26 == 0 {
        Format::R_Format(bin)
    } else if bin >> 26 == 2 || bin >> 26 == 3 {
        Format::J_Format(bin)
    } else {
        Format::I_Format(bin)
    }
}

/// True of the characters `0` and `1` only.
pub open spec fn is_bit_char(c: char) -> bool {
    c == '0' || c == '1'
}

/// A well-formed source string is exactly 32 binary digits.
pub open spec fn well_formed_input(s: Seq<char>) -> bool {
    s.len() == 32 && forall|i: int| 0 <= i < s.len() ==> is_bit_char(#[trigger] s[i])
}

/// The word a string of binary digits denotes, most significant digit
/// first.
pub open spec fn word_of_bits(s: Seq<char>) -> int
    decreases s.len(),
{
    if s.len() == 0 {
        0
    } else {
        2 * word_of_bits(s.drop_last()) + if s.last() == '1' {
            1int
        } else {
            0int
        }
    }
}

/// Classifies `bin` by its opcode bits.
pub fn classify(bin: u32) -> (f: Format)
    ensures
        f == classify_word(bin),
{
    let opcode = bin >> 26;
    if opcode == 0 {
        Format::R_Format(bin)
    } else if opcode == 2 || opcode == 3 {
        Format::J_Format(bin)
    } else {
        Format::I_Format(bin)
    }
}

/// What rendering a classified word yields: each layout's record,
/// extracted from the word and rendered under its own template.
pub open spec fn format_render_spec(f: Format, commands: Table, registers: Table) -> Result<
    Seq<char>,
    DisasmError,
> {
    match f {
        Format::I_Format(w) => i_render_spec(i_format_of(w), commands, registers),
        Format::R_Format(w) => r_render_spec(r_format_of(w), commands, registers),
        Format::J_Format(w) => j_render_spec(j_format_of(w), commands),
    }
}

impl Format {
    /// Decodes a 32-character binary string into a classified word.
    ///
    /// Exactly the well-formed inputs decode; any other length and any
    /// non-binary character is a `MalformedInputError`, never a silent
    /// truncation or padding.
    pub fn new(input: &str) -> (r: Result<Format, DisasmError>)
        ensures
            match r {
                Ok(f) => well_formed_input(input@) && f == classify_word(
                    word_of_bits(input@) as u32,
                ),
                Err(e) => !well_formed_input(input@) && e == DisasmError::MalformedInputError,
            },
    {
        let len = input.unicode_len();
        if len != 32 {
            return Err(DisasmError::MalformedInputError);
        }
        let mut bin: u32 = 0;
        let mut i: usize = 0;
        proof {
            lemma2_to64();
        }
        while i < 32
            invariant
                0 <= i <= 32,
                input@.len() == 32,
                forall|j: int| 0 <= j < i ==> is_bit_char(#[trigger] input@[j]),
                bin as int == word_of_bits(input@.take(i as int)),
                bin < pow2(i as nat),
            decreases 32 - i,
        {
            let c = input.get_char(i);
            if c != '0' && c != '1' {
                return Err(DisasmError::MalformedInputError);
            }
            proof {
                lemma2_to64();
                if i < 31 {
                    lemma_pow2_strictly_increases(i as nat, 31);
                }
                lemma_pow2_unfold((i + 1) as nat);
                assert(input@.take(i as int + 1).drop_last() =~= input@.take(i as int));
            }
            let bit: u32 = if c == '1' {
                1
            } else {
                0
            };
            bin = bin * 2 + bit;
            i += 1;
        }
        proof {
            assert(input@.take(32) =~= input@);
        }
        Ok(classify(bin))
    }

    /// Renders the word under its classified layout.
    pub fn render(&self, commands: &Table, registers: &Table) -> (r: Result<String, DisasmError>)
        ensures
            res_view(r) == format_render_spec(*self, *commands, *registers),
    {
        match self {
            Format::I_Format(data) => I_Format::new(*data).render(commands, registers),
            Format::R_Format(data) => R_Format::new(*data).render(commands, registers),
            Format::J_Format(data) => J_Format::new(*data).render(commands),
        }
    }
}

/// Every word whose top six bits are zero classifies as the register
/// format, and extraction recovers each field from exactly its
/// documented bit range.
pub proof fn lemma_r_classification(w: u32)
    requires
        w >> 26 == 0,
    ensures
        classify_word(w) == Format::R_Format(w),
        r_format_of(w).rs_register.code == (w >> 21) & 0x1F,
        r_format_of(w).rt_register.code == (w >> 16) & 0x1F,
        r_format_of(w).rd_register.code == (w >> 11) & 0x1F,
        r_format_of(w).shift_amount == (w >> 6) & 0x1F,
        r_format_of(w).function_code == w & 0x3F,
{
}

/// Every word whose opcode is 2 or 3 classifies as the jump format; its
/// address is the low 26 bits of the word, and the rendered byte target,
/// four times the address, is always a multiple of four.
pub proof fn lemma_j_classification(w: u32)
    requires
        w >> 26 == 2 || w >> 26 == 3,
    ensures
        classify_word(w) == Format::J_Format(w),
        j_format_of(w).address == w & 0x03FFFFFF,
        (4 * (j_format_of(w).address as int)) % 4 == 0,
{
}

/// Round trip: reassembling the extracted fields at their documented bit
/// positions reproduces the original word exactly, for each layout.  For
/// the register format the opcode bits are zero, so the payload fields
/// alone rebuild the word.
pub proof fn lemma_round_trip(w: u32)
    ensures
        w >> 26 == 0 ==> (r_format_of(w).rs_register.code << 21) | (r_format_of(
            w,
        ).rt_register.code << 16) | (r_format_of(w).rd_register.code << 11) | (r_format_of(
            w,
        ).shift_amount << 6) | r_format_of(w).function_code == w,
        (i_format_of(w).opcode << 26) | (i_format_of(w).rs_register.code << 21) | (i_format_of(
            w,
        ).rt_register.code << 16) | i_format_of(w).immediate_constant == w,
        (j_format_of(w).opcode << 26) | j_format_of(w).address == w,
{
    assert(w >> 26 == 0 ==> ((((w >> 21) & 0x1F) << 21) | (((w >> 16) & 0x1F) << 16) | (((w >> 11)
        & 0x1F) << 11) | (((w >> 6) & 0x1F) << 6) | (w & 0x3F)) == w) by (bit_vector);
    assert((((w >> 26) << 26) | (((w >> 21) & 0x1F) << 21) | (((w >> 16) & 0x1F) << 16) | (w
        & 0xFFFF)) == w) by (bit_vector);
    assert((((w >> 26) << 26) | (w & 0x03FFFFFF)) == w) by (bit_vector);
}

} // verus!
