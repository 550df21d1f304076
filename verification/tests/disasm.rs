use mips_disasm::disassemble;
use mips_disasm::parse::Format;
use mips_disasm::table::{MappedCSV, Table};
use mips_disasm::text::{bin_string, dec_imm16, dec_u32};
use mips_disasm::types::{I_Format, J_Format, R_Format, Register};
use mips_disasm::DisasmError;

/// The full MIPS register table: all 32 codes, keyed by their
/// zero-padded 5-bit binary form.
fn register_table() -> Table {
    let names = [
        "zero", "at", "v0", "v1", "a0", "a1", "a2", "a3", "t0", "t1", "t2", "t3", "t4", "t5",
        "t6", "t7", "s0", "s1", "s2", "s3", "s4", "s5", "s6", "s7", "t8", "t9", "k0", "k1", "gp",
        "sp", "fp", "ra",
    ];
    let mut rows = Vec::new();
    for (i, n) in names.iter().enumerate() {
        rows.push(vec![format!("{:05b}", i), n.to_string()]);
    }
    Table {
        headers: vec!["BINARY".to_string(), "REGISTER".to_string()],
        rows,
    }
}

/// A command table with a few common mnemonics, keyed by opcode or by
/// function code.
fn command_table() -> Table {
    let entries = [
        ("", "100000", "add"),
        ("", "100010", "sub"),
        ("", "000000", "sll"),
        ("000010", "", "j"),
        ("000011", "", "jal"),
        ("001000", "", "addi"),
        ("100011", "", "lw"),
        ("101011", "", "sw"),
        ("000100", "", "beq"),
    ];
    let mut rows = Vec::new();
    for (op, funct, name) in entries.iter() {
        rows.push(vec![op.to_string(), funct.to_string(), name.to_string()]);
    }
    Table {
        headers: vec![
            "OP_BINARY".to_string(),
            "FUNC_BINARY".to_string(),
            "COMMAND".to_string(),
        ],
        rows,
    }
}

// add $t0, $s1, $s2: rs = 17, rt = 18, rd = 8, shift 0, function 100000.
const ADD_WORD: u32 = (17 << 21) | (18 << 16) | (8 << 11) | 32;

#[test]
fn find_register_name() {
    let registers = register_table();
    let result = Register::new(0b00100);

    assert_eq!(result.register_name(&registers).unwrap(), "a0");
}

#[test]
fn find_jump_command() {
    let commands = command_table();
    let j = J_Format::new(0b0000_1000_0000_0000_0000_0001_0000_0000);

    assert_eq!("j 256\nJump to address 1024", j.text(&commands).unwrap());
}

#[test]
fn register_resolution_is_total_and_deterministic() {
    let registers = register_table();
    for code in 0u32..32 {
        let reg = Register::new(code);
        let first = reg.register_name(&registers);
        let again = reg.register_name(&registers);
        assert!(first.is_ok());
        assert_eq!(first.unwrap(), again.unwrap());
    }
}

#[test]
fn register_search_builds_padded_query() {
    let q: MappedCSV = MappedCSV::register_search(4);
    assert_eq!(q.filename, "registers.csv");
    assert_eq!(q.check_column, "BINARY");
    assert_eq!(q.query, "00100");
    assert_eq!(q.want_column, "REGISTER");

    let c = MappedCSV::command_search("OP_BINARY", 2);
    assert_eq!(c.filename, "commands.csv");
    assert_eq!(c.query, "000010");
    assert_eq!(c.want_column, "COMMAND");
}

#[test]
fn jump_word_classifies_and_renders() {
    let commands = command_table();
    let registers = register_table();
    let word: u32 = 0b0000_1000_0000_0000_0000_0001_0000_0000;

    let f = Format::new(&format!("{:032b}", word)).unwrap();
    assert_eq!(f, Format::J_Format(word));

    let j = J_Format::new(word);
    assert_eq!(j.opcode, 0b000010);
    assert_eq!(j.address, 256);
    assert_eq!(j.address, word & 0x03FF_FFFF);
    assert_eq!(j.address * 4, 1024);
    assert_eq!((j.address * 4) % 4, 0);

    let out = disassemble(&format!("{:032b}", word), &commands, &registers).unwrap();
    assert_eq!(out, "(J-Format) j 256\nJump to address 1024");
}

#[test]
fn r_word_fields_match_bit_ranges() {
    let word = ADD_WORD;
    assert_eq!(word >> 26, 0);

    let f = Format::new(&format!("{:032b}", word)).unwrap();
    assert_eq!(f, Format::R_Format(word));

    let r = R_Format::new(word);
    assert_eq!(r.rs_register.code, (word >> 21) & 0x1F);
    assert_eq!(r.rt_register.code, (word >> 16) & 0x1F);
    assert_eq!(r.rd_register.code, (word >> 11) & 0x1F);
    assert_eq!(r.shift_amount, (word >> 6) & 0x1F);
    assert_eq!(r.function_code, word & 0x3F);
    assert_eq!(r.rs_register.code, 17);
    assert_eq!(r.rt_register.code, 18);
    assert_eq!(r.rd_register.code, 8);
    assert_eq!(r.shift_amount, 0);
    assert_eq!(r.function_code, 0b100000);
}

#[test]
fn r_word_zero_shift_uses_rs_rt_rd_branch() {
    let commands = command_table();
    let registers = register_table();

    let out = R_Format::new(ADD_WORD).render(&commands, &registers).unwrap();
    assert_eq!(
        out,
        "(R-Format) add $t0, $s1, $s2\nrs: 10001 is $s1\nrt: 10010 is $s2\nrd: 01000 is $t0"
    );
}

#[test]
fn r_word_nonzero_shift_uses_shift_branch() {
    let commands = command_table();
    let registers = register_table();

    // Same registers and function code as ADD_WORD, shift amount 4:
    // a distinct branch with a different operand order and register set.
    let word = ADD_WORD | (4 << 6);
    let out = R_Format::new(word).render(&commands, &registers).unwrap();
    assert_eq!(
        out,
        "(R-Format) add $t0, $s2, 4\nrt: 10010 is $s2\nrd: 01000 is $t0"
    );
}

#[test]
fn i_word_renders_signed_immediate() {
    let commands = command_table();
    let registers = register_table();

    // addi $t0, $sp, -4: opcode 001000, rs = 29, rt = 8, immediate 0xFFFC.
    let word: u32 = (0b001000 << 26) | (29 << 21) | (8 << 16) | 0xFFFC;
    let i = I_Format::new(word);
    assert_eq!(i.opcode, 0b001000);
    assert_eq!(i.immediate_constant, 0xFFFC);

    let out = i.render(&commands, &registers).unwrap();
    assert_eq!(
        out,
        "(I-Format) addi $t0, $sp, -4\nrt: 01000 is $t0\nrs: 11101 is $sp"
    );
}

#[test]
fn i_word_renders_positive_immediate() {
    let commands = command_table();
    let registers = register_table();

    // lw $t1, 8($gp) encoding-wise: opcode 100011, rs = 28, rt = 9, immediate 8.
    let word: u32 = (0b100011 << 26) | (28 << 21) | (9 << 16) | 8;
    let out = disassemble(&format!("{:032b}", word), &commands, &registers).unwrap();
    assert_eq!(
        out,
        "(I-Format) lw $t1, $gp, 8\nrt: 01001 is $t1\nrs: 11100 is $gp"
    );
}

#[test]
fn reassembled_fields_reproduce_the_word() {
    let r_word = ADD_WORD;
    let r = R_Format::new(r_word);
    let rebuilt = (r.rs_register.code << 21)
        | (r.rt_register.code << 16)
        | (r.rd_register.code << 11)
        | (r.shift_amount << 6)
        | r.function_code;
    assert_eq!(rebuilt, r_word);

    let i_word: u32 = 0xAD49_0004;
    let i = I_Format::new(i_word);
    let rebuilt = (i.opcode << 26)
        | (i.rs_register.code << 21)
        | (i.rt_register.code << 16)
        | i.immediate_constant;
    assert_eq!(rebuilt, i_word);

    let j_word: u32 = 0x0812_3456;
    let j = J_Format::new(j_word);
    assert_eq!((j.opcode << 26) | j.address, j_word);
}

#[test]
fn short_input_is_malformed() {
    let bits = "0".repeat(31);
    assert!(matches!(
        Format::new(&bits),
        Err(DisasmError::MalformedInputError)
    ));
}

#[test]
fn long_input_is_malformed_not_truncated() {
    // 33 valid digits: a silent truncation would decode the prefix.
    let bits = "0".repeat(33);
    let commands = command_table();
    let registers = register_table();
    assert!(matches!(
        Format::new(&bits),
        Err(DisasmError::MalformedInputError)
    ));
    assert!(matches!(
        disassemble(&bits, &commands, &registers),
        Err(DisasmError::MalformedInputError)
    ));
}

#[test]
fn non_binary_character_is_malformed() {
    let bits = format!("{}2", "0".repeat(31));
    assert!(matches!(
        Format::new(&bits),
        Err(DisasmError::MalformedInputError)
    ));
}

#[test]
fn unknown_opcode_is_name_not_found() {
    let commands = command_table();
    let registers = register_table();

    // Opcode 111111 has no table entry; the word still decodes, the
    // name lookup fails at render time.
    let word: u32 = 0xFC00_0000;
    let f = Format::new(&format!("{:032b}", word)).unwrap();
    assert_eq!(f, Format::I_Format(word));
    assert!(matches!(
        f.render(&commands, &registers),
        Err(DisasmError::NameNotFound)
    ));
}

#[test]
fn unknown_register_is_name_not_found() {
    let commands = command_table();
    let mut registers = register_table();
    registers.rows.truncate(4);

    let out = R_Format::new(ADD_WORD).render(&commands, &registers);
    assert!(matches!(out, Err(DisasmError::NameNotFound)));
}

#[test]
fn missing_column_is_configuration_error() {
    let mut commands = command_table();
    commands.headers[2] = "NAME".to_string();

    let out = J_Format::new(0x0800_0100).render(&commands);
    assert!(matches!(out, Err(DisasmError::ConfigurationError)));

    let reg = Register::new(3);
    let mut broken = register_table();
    broken.headers[0] = "CODE".to_string();
    assert!(matches!(
        reg.register_name(&broken),
        Err(DisasmError::ConfigurationError)
    ));
}

#[test]
fn csv_bytes_parse_into_table() {
    let bytes = b"BINARY,REGISTER\n00100,a0\n00101,a1\n";
    let t = Table::from_csv(bytes).unwrap();
    assert_eq!(
        t.headers,
        vec!["BINARY".to_string(), "REGISTER".to_string()]
    );
    assert_eq!(
        t.rows,
        vec![
            vec!["00100".to_string(), "a0".to_string()],
            vec!["00101".to_string(), "a1".to_string()],
        ]
    );

    assert_eq!(Register::new(4).register_name(&t).unwrap(), "a0");
    assert_eq!(Register::new(5).register_name(&t).unwrap(), "a1");
}

#[test]
fn bad_csv_bytes_are_configuration_error() {
    // A data row wider than the header row is rejected by the reader.
    let ragged = b"A,B\n1,2,3\n";
    assert!(matches!(
        Table::from_csv(ragged),
        Err(DisasmError::ConfigurationError)
    ));

    // Bytes that are not UTF-8 do not parse into string records.
    let bad_utf8: &[u8] = &[b'A', b',', b'B', b'\n', 0xFF, 0xFE, b',', b'x', b'\n'];
    assert!(matches!(
        Table::from_csv(bad_utf8),
        Err(DisasmError::ConfigurationError)
    ));
}

#[test]
fn first_matching_row_wins() {
    let mut registers = register_table();
    registers
        .rows
        .push(vec!["00100".to_string(), "shadowed".to_string()]);

    // The duplicate sits after the first entry and is never reached.
    assert_eq!(Register::new(4).register_name(&registers).unwrap(), "a0");
}

#[test]
fn decimal_and_binary_formatting() {
    assert_eq!(dec_u32(0), "0");
    assert_eq!(dec_u32(10), "10");
    assert_eq!(dec_u32(4294967295), "4294967295");
    assert_eq!(dec_imm16(0x7FFF), "32767");
    assert_eq!(dec_imm16(0x8000), "-32768");
    assert_eq!(dec_imm16(0xFFFF), "-1");
    assert_eq!(bin_string(4, 5), "00100");
    assert_eq!(bin_string(0, 6), "000000");
    assert_eq!(bin_string(63, 6), "111111");
}

#[test]
fn all_zero_word_decodes_as_register_format() {
    let commands = command_table();
    let registers = register_table();

    // Opcode 0, function code 000000 (sll), shift amount 0: the
    // register-register branch with every operand the zero register.
    let out = disassemble(&"0".repeat(32), &commands, &registers).unwrap();
    assert_eq!(
        out,
        "(R-Format) sll $zero, $zero, $zero\nrs: 00000 is $zero\nrt: 00000 is $zero\nrd: 00000 is $zero"
    );
}
