//! Decoder for single 32-bit MIPS-style instruction words.
//!
//! A word is classified into one of three fixed layouts (register,
//! immediate, jump) by its top six bits, its subfields are extracted by
//! exact bit position, and the result is rendered as a multi-line
//! disassembly string.  Operation mnemonics and register names come from
//! backing tables that the caller supplies as in-memory values; the
//! library performs the lookups but never the I/O that produced them.

use vstd::prelude::*;

pub mod parse;
pub mod table;
pub mod text;
pub mod types;

use crate::parse::classify_word;
use crate::parse::format_render_spec;
use crate::parse::well_formed_input;
use crate::parse::word_of_bits;
use crate::parse::Format;
use crate::table::res_view;
use crate::table::Table;

verus! {

/// Everything that can go wrong while decoding a word or rendering it.
///
/// * `MalformedInputError`: the input was not exactly 32 binary digits.
/// * `NameNotFound`: an opcode, function code or register code has no
///   entry in its backing table.
/// * `ConfigurationError`: a backing table could not be parsed, or lacks
///   a required column.
#[derive(Clone, Copy, Debug, PartialEq, Eq, Structural)]
pub enum DisasmError {
    MalformedInputError,
    NameNotFound,
    ConfigurationError,
}

/// What the whole pipeline yields on one source string: a malformed
/// string is rejected outright; a well-formed one is parsed to its word,
/// classified, extracted, and rendered against the two backing tables.
pub open spec fn disassemble_spec(s: Seq<char>, commands: Table, registers: Table) -> Result<
    Seq<char>,
    DisasmError,
> {
    if !well_formed_input(s) {
        Err(DisasmError::MalformedInputError)
    } else {
        format_render_spec(classify_word(word_of_bits(s) as u32), commands, registers)
    }
}

/// Decodes a 32-character binary string and renders its canonical
/// multi-line display: the whole pipeline on one instruction word.
pub fn disassemble(bits: &str, commands: &Table, registers: &Table) -> (r: Result<
    String,
    DisasmError,
>)
    ensures
        res_view(r) == disassemble_spec(bits@, *commands, *registers),
{
    let f = match Format::new(bits) {
        Ok(f) => f,
        Err(e) => {
            return Err(e);
        },
    };
    f.render(commands, registers)
}

} // verus!
