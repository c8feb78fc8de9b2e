use rv32_assembler::assembler::assemble_program;
use rv32_assembler::errors::AssemblerError;

// Field extractors mirroring the RV32 word layouts, for checking output.
fn opcode_of(w: u32) -> u32 {
    w & 0x7F
}
fn rd_of(w: u32) -> u32 {
    (w >> 7) & 0x1F
}
fn func3_of(w: u32) -> u32 {
    (w >> 12) & 0x7
}
fn rs1_of(w: u32) -> u32 {
    (w >> 15) & 0x1F
}
fn rs2_of(w: u32) -> u32 {
    (w >> 20) & 0x1F
}
fn func7_of(w: u32) -> u32 {
    (w >> 25) & 0x7F
}
fn i_imm_of(w: u32) -> i32 {
    (w as i32) >> 20
}
fn b_imm_of(w: u32) -> i32 {
    let v = (((w >> 8) & 0xF) << 1) | (((w >> 25) & 0x3F) << 5) | (((w >> 7) & 1) << 11) | (((w
        >> 31) & 1) << 12);
    if w >> 31 == 1 { (v | 0xFFFF_E000) as i32 } else { v as i32 }
}
fn j_imm_of(w: u32) -> i32 {
    let v = (((w >> 21) & 0x3FF) << 1) | (((w >> 20) & 1) << 11) | (((w >> 12) & 0xFF) << 12) | (((w
        >> 31) & 1) << 20);
    if w >> 31 == 1 { (v | 0xFFE0_0000) as i32 } else { v as i32 }
}

#[test]
fn two_instruction_program_decodes_exactly() {
    let words = assemble_program("addi x1, x0, 5\nadd x2, x1, x1\n").unwrap();
    assert_eq!(words.len(), 2);
    let w0 = words[0];
    assert_eq!(opcode_of(w0), 0x13);
    assert_eq!(rd_of(w0), 1);
    assert_eq!(rs1_of(w0), 0);
    assert_eq!(i_imm_of(w0), 5);
    let w1 = words[1];
    assert_eq!(opcode_of(w1), 0x33);
    assert_eq!(rd_of(w1), 2);
    assert_eq!(rs1_of(w1), 1);
    assert_eq!(rs2_of(w1), 1);
    assert_eq!(func7_of(w1), 0);
    // The well-known machine words of these two instructions.
    assert_eq!(words, vec![0x0050_0093, 0x0010_8133]);
}

#[test]
fn backward_branch_offset_is_minus_four() {
    let words = assemble_program("loop:\n  addi x1, x1, -1\n  bne x1, x0, loop\n").unwrap();
    assert_eq!(words.len(), 2);
    // The branch sits at pc 4; the label marks pc 0; offset is -4.
    assert_eq!(opcode_of(words[1]), 0x63);
    assert_eq!(func3_of(words[1]), 1);
    assert_eq!(rs1_of(words[1]), 1);
    assert_eq!(rs2_of(words[1]), 0);
    assert_eq!(b_imm_of(words[1]), -4);
}

#[test]
fn forward_jump_resolves_to_label_address() {
    let words = assemble_program("start:\n  jal x1, end\n  addi x0, x0, 0\nend:\n  add x1, x1, x1\n")
        .unwrap();
    assert_eq!(words.len(), 3);
    // jal at pc 0, end at pc 8.
    assert_eq!(opcode_of(words[0]), 0x6F);
    assert_eq!(rd_of(words[0]), 1);
    assert_eq!(j_imm_of(words[0]), 8);
}

#[test]
fn output_length_counts_instruction_lines_only() {
    let text = "# a comment line\n\nstart: addi x1, x0, 1\n  ; another comment\nlab:\n  nop\n  mv x2, x1\n";
    let words = assemble_program(text).unwrap();
    // Three instruction-bearing lines: the addi (after its label), nop, mv.
    assert_eq!(words.len(), 3);
}

#[test]
fn assembling_twice_is_identical() {
    let text = "top:\n  auipc x5, 0x12345\n  jalr x1, x5, 16\n  beq x5, x5, top\n";
    let a = assemble_program(text);
    let b = assemble_program(text);
    assert_eq!(a, b);
    assert!(a.is_ok());
}

#[test]
fn i_type_immediate_boundaries() {
    assert!(assemble_program("addi x1, x0, 2047\n").is_ok());
    assert_eq!(
        assemble_program("addi x1, x0, 2048\n"),
        Err(AssemblerError::ImmediateRangeError)
    );
    assert!(assemble_program("addi x1, x0, -2048\n").is_ok());
    assert_eq!(
        assemble_program("addi x1, x0, -2049\n"),
        Err(AssemblerError::ImmediateRangeError)
    );
}

#[test]
fn s_type_immediate_boundaries() {
    assert!(assemble_program("sw x5, 2047, x2\n").is_ok());
    assert_eq!(
        assemble_program("sw x5, 2048, x2\n"),
        Err(AssemblerError::ImmediateRangeError)
    );
    assert!(assemble_program("sw x5, -2048, x2\n").is_ok());
    assert_eq!(
        assemble_program("sw x5, -2049, x2\n"),
        Err(AssemblerError::ImmediateRangeError)
    );
}

#[test]
fn b_type_immediate_boundaries() {
    assert!(assemble_program("beq x1, x2, 4094\n").is_ok());
    assert_eq!(
        assemble_program("beq x1, x2, 4096\n"),
        Err(AssemblerError::ImmediateRangeError)
    );
    // An odd offset does not fit the field: bit zero is implicitly zero.
    assert_eq!(
        assemble_program("beq x1, x2, 3\n"),
        Err(AssemblerError::ImmediateRangeError)
    );
    assert!(assemble_program("beq x1, x2, -4096\n").is_ok());
    assert_eq!(
        assemble_program("beq x1, x2, -4098\n"),
        Err(AssemblerError::ImmediateRangeError)
    );
}

#[test]
fn u_type_immediate_boundaries() {
    assert!(assemble_program("lui x1, 0xFFFFF\n").is_ok());
    assert_eq!(
        assemble_program("lui x1, 0x100000\n"),
        Err(AssemblerError::ImmediateRangeError)
    );
    assert!(assemble_program("lui x1, 1048575\n").is_ok());
    assert_eq!(
        assemble_program("lui x1, 1048576\n"),
        Err(AssemblerError::ImmediateRangeError)
    );
}

#[test]
fn j_type_immediate_boundaries() {
    assert!(assemble_program("jal x1, 1048574\n").is_ok());
    assert_eq!(
        assemble_program("jal x1, 1048576\n"),
        Err(AssemblerError::ImmediateRangeError)
    );
    assert_eq!(
        assemble_program("jal x1, 9\n"),
        Err(AssemblerError::ImmediateRangeError)
    );
    assert!(assemble_program("jal x1, -1048576\n").is_ok());
}

#[test]
fn unknown_register_is_an_error_not_a_default() {
    assert_eq!(
        assemble_program("addi x32, x0, 0\n"),
        Err(AssemblerError::UnknownRegisterError)
    );
    assert_eq!(
        assemble_program("addi t9, x0, 0\n"),
        Err(AssemblerError::UnknownRegisterError)
    );
    assert_eq!(
        assemble_program("add x1, x2, x99\n"),
        Err(AssemblerError::UnknownRegisterError)
    );
}

#[test]
fn six_tokens_always_too_many() {
    // Even when the first five tokens would assemble on their own.
    assert_eq!(
        assemble_program("addi x1, x0, 5, 6, 7\n"),
        Err(AssemblerError::TooManyTokensError)
    );
    assert_eq!(
        assemble_program("a b c d e f\n"),
        Err(AssemblerError::TooManyTokensError)
    );
}

#[test]
fn unknown_mnemonic_is_reported() {
    assert_eq!(
        assemble_program("frobnicate x1, x2, x3\n"),
        Err(AssemblerError::UnknownMnemonicError)
    );
}

#[test]
fn undefined_label_is_reported() {
    assert_eq!(
        assemble_program("bne x1, x0, nowhere\n"),
        Err(AssemblerError::UndefinedLabelError)
    );
}

#[test]
fn oversized_literal_is_a_parse_error() {
    assert_eq!(
        assemble_program("addi x1, x0, 99999999999999999999\n"),
        Err(AssemblerError::ImmediateParseError)
    );
    assert_eq!(
        assemble_program("lui x1, 0x100000000\n"),
        Err(AssemblerError::ImmediateParseError)
    );
}

#[test]
fn missing_operands_are_too_few_tokens() {
    assert_eq!(
        assemble_program("add x1, x2\n"),
        Err(AssemblerError::TooFewTokensError)
    );
    assert_eq!(
        assemble_program("jal\n"),
        Err(AssemblerError::TooFewTokensError)
    );
}

#[test]
fn first_error_wins() {
    // The unknown register on the first line is hit before the range error
    // on the second.
    assert_eq!(
        assemble_program("add x1, y1, x2\naddi x1, x0, 4096\n"),
        Err(AssemblerError::UnknownRegisterError)
    );
}

#[test]
fn empty_and_comment_only_programs_are_empty() {
    assert_eq!(assemble_program(""), Ok(vec![]));
    assert_eq!(assemble_program("\n\n"), Ok(vec![]));
    assert_eq!(assemble_program("# nothing here\n; nor here\n"), Ok(vec![]));
    assert_eq!(assemble_program("just_a_label:\n"), Ok(vec![]));
}

#[test]
fn hex_and_negative_literals_encode_as_bit_patterns() {
    let words = assemble_program("andi x1, x2, 0xFFFFFFFF\n").unwrap();
    assert_eq!(i_imm_of(words[0]), -1);
    let words = assemble_program("addi x1, x0, -1\n").unwrap();
    assert_eq!(i_imm_of(words[0]), -1);
    assert_eq!(words[0], 0xFFF0_0093);
}

#[test]
fn load_and_store_operand_positions() {
    // lw rd, imm, rs1
    let words = assemble_program("lw x5, 8, x2\n").unwrap();
    let w = words[0];
    assert_eq!(opcode_of(w), 0x03);
    assert_eq!(rd_of(w), 5);
    assert_eq!(func3_of(w), 2);
    assert_eq!(rs1_of(w), 2);
    assert_eq!(i_imm_of(w), 8);
    // sw rs2, imm, rs1
    let words = assemble_program("sw x5, 12, x2\n").unwrap();
    let w = words[0];
    assert_eq!(opcode_of(w), 0x23);
    assert_eq!(rs2_of(w), 5);
    assert_eq!(func3_of(w), 2);
    assert_eq!(rs1_of(w), 2);
    let s_imm = ((w >> 7) & 0x1F) | (((w >> 25) & 0x7F) << 5);
    assert_eq!(s_imm, 12);
}

#[test]
fn func7_distinguishes_sub_and_sra() {
    let words = assemble_program("sub x1, x2, x3\nsra x4, x5, x6\nsrl x7, x8, x9\n").unwrap();
    assert_eq!(func7_of(words[0]), 0x20);
    assert_eq!(func3_of(words[0]), 0);
    assert_eq!(func7_of(words[1]), 0x20);
    assert_eq!(func3_of(words[1]), 5);
    assert_eq!(func7_of(words[2]), 0);
    assert_eq!(func3_of(words[2]), 5);
}

#[test]
fn abi_register_names_resolve() {
    let words = assemble_program("add a0, sp, t6\n").unwrap();
    let w = words[0];
    assert_eq!(rd_of(w), 10);
    assert_eq!(rs1_of(w), 2);
    assert_eq!(rs2_of(w), 31);
    let words = assemble_program("add fp, s0, zero\n").unwrap();
    let w = words[0];
    assert_eq!(rd_of(w), 8);
    assert_eq!(rs1_of(w), 8);
    assert_eq!(rs2_of(w), 0);
}
