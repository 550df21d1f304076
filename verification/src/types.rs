//! Typed instruction records, field extraction, and rendering.
//!
//! Each record is constructed once from a raw 32-bit word by exact bit
//! position and rendered as its canonical multi-line display.  Mnemonic
//! and register names are resolved from the caller's backing tables at
//! render time; any name that is missing aborts the rendering with the
//! error of the first failed lookup.

use crate::table::csv_get_mapped_value;
use crate::table::res_view;
use crate::table::resolve_spec;
use crate::table::MappedCSV;
use crate::table::Table;
use crate::text::bin_seq;
use crate::text::bin_string;
use crate::text::dec_imm16;
use crate::text::dec_seq;
use crate::text::dec_signed_seq;
use crate::text::dec_u32;
use crate::text::imm_signed;
use crate::DisasmError;
use vstd::prelude::*;
use vstd::string::*;

verus! {

/// A 5-bit register code.  Its symbolic name is not cached here: it is
/// resolved from the register table at render time.
#[derive(Clone, Copy, Debug, PartialEq, Eq, Structural)]
pub struct Register {
    pub code: u32,
}

/// The name the register table gives to `code`.
pub open spec fn reg_name_spec(registers: Table, code: u32) -> Result<Seq<char>, DisasmError> {
    resolve_spec(registers, "BINARY"@, bin_seq(code as nat, 5), "REGISTER"@)
}

/// The mnemonic the command table gives to the 6-bit `code`, keyed by
/// the column named `column`.
pub open spec fn mnemonic_spec(commands: Table, column: Seq<char>, code: u32) -> Result<
    Seq<char>,
    DisasmError,
> {
    resolve_spec(commands, column, bin_seq(code as nat, 6), "COMMAND"@)
}

impl Register {
    /// A register code is five bits: 0 through 31.
    pub open spec fn wf(self) -> bool {
        self.code < 32
    }

    /// Wraps the 5-bit code `bin`.
    pub fn new(bin: u32) -> (r: Register)
        requires
            bin < 32,
        ensures
            r.code == bin,
            r.wf(),
    {
        Register { code: bin }
    }

    /// Resolves this code's symbolic name in the register table.
    pub fn register_name(&self, registers: &Table) -> (r: Result<String, DisasmError>)
        ensures
            res_view(r) == reg_name_spec(*registers, self.code),
    {
        let q = MappedCSV::register_search(self.code);
        csv_get_mapped_value(registers, &q)
    }
}

/// An immediate-format record: opcode, two registers, and a 16-bit
/// immediate interpreted as a signed two's-complement quantity when
/// displayed.
#[allow(non_camel_case_types)]
#[derive(Clone, Copy, Debug, PartialEq, Eq, Structural)]
pub struct I_Format {
    pub opcode: u32,
    pub rs_register: Register,
    pub rt_register: Register,
    pub immediate_constant: u32,
}

/// The immediate-format fields of `bin`, by documented bit range:
/// opcode in bits 31-26, rs in 25-21, rt in 20-16, immediate in 15-0.
pub open spec fn i_format_of(bin: u32) -> I_Format {
    I_Format {
        opcode: bin >> 26,
        rs_register: Register { code: (bin >> 21) & 0x1F },
        rt_register: Register { code: (bin >> 16) & 0x1F },
        immediate_constant: bin & 0xFFFF,
    }
}

/// The display body of an immediate-format record, after the format tag.
pub open spec fn i_body(mn: Seq<char>, rsn: Seq<char>, rtn: Seq<char>, i: I_Format) -> Seq<char> {
    mn + " $"@ + rtn + ", $"@ + rsn + ", "@ + dec_signed_seq(imm_signed(i.immediate_constant))
        + "\nrt: "@ + bin_seq(i.rt_register.code as nat, 5) + " is $"@ + rtn + "\nrs: "@ + bin_seq(
        i.rs_register.code as nat,
        5,
    ) + " is $"@ + rsn
}

/// What rendering the body of an immediate-format record yields: the
/// names resolve in display order (mnemonic, rt, rs) and the first
/// failure wins.
pub open spec fn i_text_spec(i: I_Format, commands: Table, registers: Table) -> Result<
    Seq<char>,
    DisasmError,
> {
    match mnemonic_spec(commands, "OP_BINARY"@, i.opcode) {
        Err(e) => Err(e),
        Ok(mn) => match reg_name_spec(registers, i.rt_register.code) {
            Err(e) => Err(e),
            Ok(rtn) => match reg_name_spec(registers, i.rs_register.code) {
                Err(e) => Err(e),
                Ok(rsn) => Ok(i_body(mn, rsn, rtn, i)),
            },
        },
    }
}

/// The full display of an immediate-format record, tag included.
pub open spec fn i_render_spec(i: I_Format, commands: Table, registers: Table) -> Result<
    Seq<char>,
    DisasmError,
> {
    match i_text_spec(i, commands, registers) {
        Ok(b) => Ok("(I-Format) "@ + b),
        Err(e) => Err(e),
    }
}

impl I_Format {
    /// Every field lies in its bit range.
    pub open spec fn wf(self) -> bool {
        &&& self.opcode < 64
        &&& self.rs_register.wf()
        &&& self.rt_register.wf()
        &&& self.immediate_constant < 0x10000
    }

    /// Extracts the immediate-format fields of `bin`.
    pub fn new(bin: u32) -> (r: I_Format)
        ensures
            r == i_format_of(bin),
            r.wf(),
    {
        proof {
            assert(bin >> 26 < 64 && (bin >> 21) & 0x1F < 32 && (bin >> 16) & 0x1F < 32 && bin
                & 0xFFFF < 0x10000) by (bit_vector);
        }
        I_Format {
            opcode: bin >> 26,
            rs_register: Register { code: (bin >> 21) & 0x1F },
            rt_register: Register { code: (bin >> 16) & 0x1F },
            immediate_constant: bin & 0xFFFF,
        }
    }

    /// Resolves this record's mnemonic by its opcode.
    pub fn find_operation(&self, commands: &Table) -> (r: Result<String, DisasmError>)
        ensures
            res_view(r) == mnemonic_spec(*commands, "OP_BINARY"@, self.opcode),
    {
        let q = MappedCSV::command_search("OP_BINARY", self.opcode);
        csv_get_mapped_value(commands, &q)
    }

    /// Renders the body of this record: mnemonic, operands, and the
    /// register detail lines.
    pub fn text(&self, commands: &Table, registers: &Table) -> (r: Result<String, DisasmError>)
        requires
            self.wf(),
        ensures
            res_view(r) == i_text_spec(*self, *commands, *registers),
    {
        let mn = match self.find_operation(commands) {
            Ok(s) => s,
            Err(e) => {
                return Err(e);
            },
        };
        let rtn = match self.rt_register.register_name(registers) {
            Ok(s) => s,
            Err(e) => {
                return Err(e);
            },
        };
        let rsn = match self.rs_register.register_name(registers) {
            Ok(s) => s,
            Err(e) => {
                return Err(e);
            },
        };
        let ghost mnv = mn@;
        let ghost rtnv = rtn@;
        let ghost rsnv = rsn@;
        let mut s = mn;
        s.append(" $");
        s.append(rtn.as_str());
        s.append(", $");
        s.append(rsn.as_str());
        s.append(", ");
        let imm = dec_imm16(self.immediate_constant);
        s.append(imm.as_str());
        s.append("\nrt: ");
        let rtb = bin_string(self.rt_register.code, 5);
        s.append(rtb.as_str());
        s.append(" is $");
        s.append(rtn.as_str());
        s.append("\nrs: ");
        let rsb = bin_string(self.rs_register.code, 5);
        s.append(rsb.as_str());
        s.append(" is $");
        s.append(rsn.as_str());
        proof {
            assert(s@ =~= i_body(mnv, rsnv, rtnv, *self));
        }
        Ok(s)
    }

    /// Renders this record as its canonical multi-line display.
    pub fn render(&self, commands: &Table, registers: &Table) -> (r: Result<String, DisasmError>)
        requires
            self.wf(),
        ensures
            res_view(r) == i_render_spec(*self, *commands, *registers),
    {
        let b = match self.text(commands, registers) {
            Ok(s) => s,
            Err(e) => {
                return Err(e);
            },
        };
        let ghost bv = b@;
        let mut s = String::from_str("(I-Format) ");
        s.append(b.as_str());
        proof {
            assert(s@ =~= "(I-Format) "@ + bv);
        }
        Ok(s)
    }
}

/// A register-format record: three registers, a shift amount, and the
/// function code that names the operation.  The opcode of such a word is
/// always zero and is not stored.
#[allow(non_camel_case_types)]
#[derive(Clone, Copy, Debug, PartialEq, Eq, Structural)]
pub struct R_Format {
    pub rs_register: Register,
    pub rt_register: Register,
    pub rd_register: Register,
    pub shift_amount: u32,
    pub function_code: u32,
}

/// The register-format fields of `bin`, by documented bit range: rs in
/// bits 25-21, rt in 20-16, rd in 15-11, shift amount in 10-6, function
/// code in 5-0.
pub open spec fn r_format_of(bin: u32) -> R_Format {
    R_Format {
        rs_register: Register { code: (bin >> 21) & 0x1F },
        rt_register: Register { code: (bin >> 16) & 0x1F },
        rd_register: Register { code: (bin >> 11) & 0x1F },
        shift_amount: (bin >> 6) & 0x1F,
        function_code: bin & 0x3F,
    }
}

/// The display body of a register-register operation (shift amount
/// zero): operands rd, rs, rt.
pub open spec fn r_body_basic(
    mn: Seq<char>,
    rsn: Seq<char>,
    rtn: Seq<char>,
    rdn: Seq<char>,
    r: R_Format,
) -> Seq<char> {
    mn + " $"@ + rdn + ", $"@ + rsn + ", $"@ + rtn + "\nrs: "@ + bin_seq(
        r.rs_register.code as nat,
        5,
    ) + " is $"@ + rsn + "\nrt: "@ + bin_seq(r.rt_register.code as nat, 5) + " is $"@ + rtn
        + "\nrd: "@ + bin_seq(r.rd_register.code as nat, 5) + " is $"@ + rdn
}

/// The display body of a shift operation (shift amount nonzero):
/// operands rd, rt and the shift amount, a distinct branch with its own
/// operand order and register set.
pub open spec fn r_body_shift(mn: Seq<char>, rtn: Seq<char>, rdn: Seq<char>, r: R_Format) -> Seq<
    char,
> {
    mn + " $"@ + rdn + ", $"@ + rtn + ", "@ + dec_seq(r.shift_amount as nat) + "\nrt: "@ + bin_seq(
        r.rt_register.code as nat,
        5,
    ) + " is $"@ + rtn + "\nrd: "@ + bin_seq(r.rd_register.code as nat, 5) + " is $"@ + rdn
}

/// What rendering the body of a register-format record yields.  The
/// mnemonic comes from the function code; the register names resolve in
/// display order, and only the registers the chosen branch shows are
/// resolved at all.
pub open spec fn r_text_spec(r: R_Format, commands: Table, registers: Table) -> Result<
    Seq<char>,
    DisasmError,
> {
    match mnemonic_spec(commands, "FUNC_BINARY"@, r.function_code) {
        Err(e) => Err(e),
        Ok(mn) => if r.shift_amount == 0 {
            match reg_name_spec(registers, r.rd_register.code) {
                Err(e) => Err(e),
                Ok(rdn) => match reg_name_spec(registers, r.rs_register.code) {
                    Err(e) => Err(e),
                    Ok(rsn) => match reg_name_spec(registers, r.rt_register.code) {
                        Err(e) => Err(e),
                        Ok(rtn) => Ok(r_body_basic(mn, rsn, rtn, rdn, r)),
                    },
                },
            }
        } else {
            match reg_name_spec(registers, r.rd_register.code) {
                Err(e) => Err(e),
                Ok(rdn) => match reg_name_spec(registers, r.rt_register.code) {
                    Err(e) => Err(e),
                    Ok(rtn) => Ok(r_body_shift(mn, rtn, rdn, r)),
                },
            }
        },
    }
}

/// The full display of a register-format record, tag included.
pub open spec fn r_render_spec(r: R_Format, commands: Table, registers: Table) -> Result<
    Seq<char>,
    DisasmError,
> {
    match r_text_spec(r, commands, registers) {
        Ok(b) => Ok("(R-Format) "@ + b),
        Err(e) => Err(e),
    }
}

impl R_Format {
    /// Every field lies in its bit range.
    pub open spec fn wf(self) -> bool {
        &&& self.rs_register.wf()
        &&& self.rt_register.wf()
        &&& self.rd_register.wf()
        &&& self.shift_amount < 32
        &&& self.function_code < 64
    }

    /// Extracts the register-format fields of `bin`.
    pub fn new(bin: u32) -> (r: R_Format)
        ensures
            r == r_format_of(bin),
            r.wf(),
    {
        proof {
            assert((bin >> 21) & 0x1F < 32 && (bin >> 16) & 0x1F < 32 && (bin >> 11) & 0x1F < 32
                && (bin >> 6) & 0x1F < 32 && bin & 0x3F < 64) by (bit_vector);
        }
        R_Format {
            rs_register: Register { code: (bin >> 21) & 0x1F },
            rt_register: Register { code: (bin >> 16) & 0x1F },
            rd_register: Register { code: (bin >> 11) & 0x1F },
            shift_amount: (bin >> 6) & 0x1F,
            function_code: bin & 0x3F,
        }
    }

    /// Resolves this record's mnemonic by its function code, which is
    /// what distinguishes register-format instructions sharing opcode 0.
    pub fn find_operation(&self, commands: &Table) -> (r: Result<String, DisasmError>)
        ensures
            res_view(r) == mnemonic_spec(*commands, "FUNC_BINARY"@, self.function_code),
    {
        let q = MappedCSV::command_search("FUNC_BINARY", self.function_code);
        csv_get_mapped_value(commands, &q)
    }

    /// Renders the body of this record, choosing the operand layout by
    /// the shift amount.
    pub fn text(&self, commands: &Table, registers: &Table) -> (r: Result<String, DisasmError>)
        requires
            self.wf(),
        ensures
            res_view(r) == r_text_spec(*self, *commands, *registers),
    {
        let mn = match self.find_operation(commands) {
            Ok(s) => s,
            Err(e) => {
                return Err(e);
            },
        };
        let rdn = match self.rd_register.register_name(registers) {
            Ok(s) => s,
            Err(e) => {
                return Err(e);
            },
        };
        let ghost mnv = mn@;
        let ghost rdnv = rdn@;
        if self.shift_amount == 0 {
            let rsn = match self.rs_register.register_name(registers) {
                Ok(s) => s,
                Err(e) => {
                    return Err(e);
                },
            };
            let rtn = match self.rt_register.register_name(registers) {
                Ok(s) => s,
                Err(e) => {
                    return Err(e);
                },
            };
            let ghost rsnv = rsn@;
            let ghost rtnv = rtn@;
            let mut s = mn;
            s.append(" $");
            s.append(rdn.as_str());
            s.append(", $");
            s.append(rsn.as_str());
            s.append(", $");
            s.append(rtn.as_str());
            s.append("\nrs: ");
            let rsb = bin_string(self.rs_register.code, 5);
            s.append(rsb.as_str());
            s.append(" is $");
            s.append(rsn.as_str());
            s.append("\nrt: ");
            let rtb = bin_string(self.rt_register.code, 5);
            s.append(rtb.as_str());
            s.append(" is $");
            s.append(rtn.as_str());
            s.append("\nrd: ");
            let rdb = bin_string(self.rd_register.code, 5);
            s.append(rdb.as_str());
            s.append(" is $");
            s.append(rdn.as_str());
            proof {
                assert(s@ =~= r_body_basic(mnv, rsnv, rtnv, rdnv, *self));
            }
            Ok(s)
        } else {
            let rtn = match self.rt_register.register_name(registers) {
                Ok(s) => s,
                Err(e) => {
                    return Err(e);
                },
            };
            let ghost rtnv = rtn@;
            let mut s = mn;
            s.append(" $");
            s.append(rdn.as_str());
            s.append(", $");
            s.append(rtn.as_str());
            s.append(", ");
            let sh = dec_u32(self.shift_amount);
            s.append(sh.as_str());
            s.append("\nrt: ");
            let rtb = bin_string(self.rt_register.code, 5);
            s.append(rtb.as_str());
            s.append(" is $");
            s.append(rtn.as_str());
            s.append("\nrd: ");
            let rdb = bin_string(self.rd_register.code, 5);
            s.append(rdb.as_str());
            s.append(" is $");
            s.append(rdn.as_str());
            proof {
                assert(s@ =~= r_body_shift(mnv, rtnv, rdnv, *self));
            }
            Ok(s)
        }
    }

    /// Renders this record as its canonical multi-line display.
    pub fn render(&self, commands: &Table, registers: &Table) -> (r: Result<String, DisasmError>)
        requires
            self.wf(),
        ensures
            res_view(r) == r_render_spec(*self, *commands, *registers),
    {
        let b = match self.text(commands, registers) {
            Ok(s) => s,
            Err(e) => {
                return Err(e);
            },
        };
        let ghost bv = b@;
        let mut s = String::from_str("(R-Format) ");
        s.append(b.as_str());
        proof {
            assert(s@ =~= "(R-Format) "@ + bv);
        }
        Ok(s)
    }
}

/// A jump-format record: opcode and a 26-bit word-granularity target
/// address; the byte address is the target times four.
#[allow(non_camel_case_types)]
#[derive(Clone, Copy, Debug, PartialEq, Eq, Structural)]
pub struct J_Format {
    pub opcode: u32,
    pub address: u32,
}

/// The jump-format fields of `bin`, by documented bit range: opcode in
/// bits 31-26, address in 25-0.
pub open spec fn j_format_of(bin: u32) -> J_Format {
    J_Format { opcode: bin >> 26, address: bin & 0x03FFFFFF }
}

/// The display body of a jump-format record: the mnemonic, the word
/// address, and the byte address (four times the word address).
pub open spec fn j_body(mn: Seq<char>, j: J_Format) -> Seq<char> {
    mn + " "@ + dec_seq(j.address as nat) + "\nJump to address "@ + dec_seq(
        4 * (j.address as nat),
    )
}

/// What rendering the body of a jump-format record yields: only the
/// mnemonic is resolved.
pub open spec fn j_text_spec(j: J_Format, commands: Table) -> Result<Seq<char>, DisasmError> {
    match mnemonic_spec(commands, "OP_BINARY"@, j.opcode) {
        Err(e) => Err(e),
        Ok(mn) => Ok(j_body(mn, j)),
    }
}

/// The full display of a jump-format record, tag included.
pub open spec fn j_render_spec(j: J_Format, commands: Table) -> Result<Seq<char>, DisasmError> {
    match j_text_spec(j, commands) {
        Ok(b) => Ok("(J-Format) "@ + b),
        Err(e) => Err(e),
    }
}

impl J_Format {
    /// Every field lies in its bit range.
    pub open spec fn wf(self) -> bool {
        self.opcode < 64 && self.address < 0x04000000
    }

    /// Extracts the jump-format fields of `bin`.
    pub fn new(bin: u32) -> (r: J_Format)
        ensures
            r == j_format_of(bin),
            r.wf(),
    {
        proof {
            assert(bin >> 26 < 64 && bin & 0x03FFFFFF < 0x04000000) by (bit_vector);
        }
        J_Format { opcode: bin >> 26, address: bin & 0x03FFFFFF }
    }

    /// Resolves this record's mnemonic by its opcode.
    pub fn find_operation(&self, commands: &Table) -> (r: Result<String, DisasmError>)
        ensures
            res_view(r) == mnemonic_spec(*commands, "OP_BINARY"@, self.opcode),
    {
        let q = MappedCSV::command_search("OP_BINARY", self.opcode);
        csv_get_mapped_value(commands, &q)
    }

    /// Renders the body of this record: the mnemonic, the word address,
    /// and the byte address it jumps to.
    pub fn text(&self, commands: &Table) -> (r: Result<String, DisasmError>)
        requires
            self.wf(),
        ensures
            res_view(r) == j_text_spec(*self, *commands),
    {
        let mn = match self.find_operation(commands) {
            Ok(s) => s,
            Err(e) => {
                return Err(e);
            },
        };
        let ghost mnv = mn@;
        let mut s = mn;
        s.append(" ");
        let a = dec_u32(self.address);
        s.append(a.as_str());
        s.append("\nJump to address ");
        let b = dec_u32(self.address * 4);
        s.append(b.as_str());
        proof {
            assert(s@ =~= j_body(mnv, *self));
        }
        Ok(s)
    }

    /// Renders this record as its canonical multi-line display.
    pub fn render(&self, commands: &Table) -> (r: Result<String, DisasmError>)
        requires
            self.wf(),
        ensures
            res_view(r) == j_render_spec(*self, *commands),
    {
        let b = match self.text(commands) {
            Ok(s) => s,
            Err(e) => {
                return Err(e);
            },
        };
        let ghost bv = b@;
        let mut s = String::from_str("(J-Format) ");
        s.append(b.as_str());
        proof {
            assert(s@ =~= "(J-Format) "@ + bv);
        }
        Ok(s)
    }
}

} // verus!
