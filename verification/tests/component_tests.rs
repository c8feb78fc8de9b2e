use rv32_assembler::assembler::{assemble_ir, assemble_program, encode_instruction, parse_labels};
use rv32_assembler::encode::{encode_btype, encode_itype, encode_jtype, encode_utype};
use rv32_assembler::errors::AssemblerError;
use rv32_assembler::imm::resolve_operand;
use rv32_assembler::labels::LabelTable;
use rv32_assembler::pseudo::transform_pseudo;
use rv32_assembler::tables::{lookup_mnemonic, match_register};
use rv32_assembler::text::tokenize;

fn rd_of(w: u32) -> u32 {
    (w >> 7) & 0x1F
}
fn rs1_of(w: u32) -> u32 {
    (w >> 15) & 0x1F
}
fn rs2_of(w: u32) -> u32 {
    (w >> 20) & 0x1F
}
fn i_imm_of(w: u32) -> i32 {
    (w as i32) >> 20
}

#[test]
fn tokenizer_splits_on_whitespace_and_commas() {
    let toks = tokenize("addi x1, x0, 5");
    assert_eq!(toks, vec!["addi", "x1", "x0", "5"]);
    let toks = tokenize("  \t a,,b ,c  ");
    assert_eq!(toks, vec!["a", "b", "c"]);
    assert_eq!(tokenize(""), Vec::<String>::new());
    assert_eq!(tokenize("   ,\t, "), Vec::<String>::new());
}

#[test]
fn tokenizer_strips_comments() {
    assert_eq!(tokenize("# all comment"), Vec::<String>::new());
    assert_eq!(tokenize("add x1, x2, x3 # trailing"), vec!["add", "x1", "x2", "x3"]);
    assert_eq!(tokenize("add x1; rest ignored"), vec!["add", "x1"]);
    assert_eq!(tokenize("a#b"), vec!["a"]);
}

#[test]
fn label_table_lookup_and_shadowing() {
    let mut t = LabelTable::new();
    assert_eq!(t.get("a"), None);
    t.insert(String::from("a"), 0);
    t.insert(String::from("b"), 4);
    assert_eq!(t.get("a"), Some(0));
    assert_eq!(t.get("b"), Some(4));
    t.insert(String::from("a"), 8);
    assert_eq!(t.get("a"), Some(8));
    assert_eq!(t.get("c"), None);
}

#[test]
fn parse_labels_records_addresses() {
    let t = parse_labels("first:\naddi x1, x0, 1\nsecond: addi x2, x0, 2\nthird:\n");
    assert_eq!(t.get("first"), Some(0));
    assert_eq!(t.get("second"), Some(4));
    assert_eq!(t.get("third"), Some(8));
    assert_eq!(t.get("addi"), None);
}

#[test]
fn register_table_accepts_numeric_and_abi_names() {
    assert_eq!(match_register("x0"), Ok(0));
    assert_eq!(match_register("x31"), Ok(31));
    assert_eq!(match_register("zero"), Ok(0));
    assert_eq!(match_register("ra"), Ok(1));
    assert_eq!(match_register("sp"), Ok(2));
    assert_eq!(match_register("s0"), Ok(8));
    assert_eq!(match_register("fp"), Ok(8));
    assert_eq!(match_register("a7"), Ok(17));
    assert_eq!(match_register("s11"), Ok(27));
    assert_eq!(match_register("t6"), Ok(31));
    assert_eq!(match_register("x32"), Err(AssemblerError::UnknownRegisterError));
    assert_eq!(match_register(""), Err(AssemblerError::UnknownRegisterError));
    assert_eq!(match_register("X1"), Err(AssemblerError::UnknownRegisterError));
}

#[test]
fn mnemonic_table_classifies() {
    let d = lookup_mnemonic("add").unwrap();
    assert_eq!((d.opcode, d.func3, d.func7), (0x33, 0, 0));
    let d = lookup_mnemonic("sub").unwrap();
    assert_eq!((d.opcode, d.func3, d.func7), (0x33, 0, 0x20));
    let d = lookup_mnemonic("bgeu").unwrap();
    assert_eq!((d.opcode, d.func3), (0x63, 7));
    let d = lookup_mnemonic("lhu").unwrap();
    assert_eq!((d.opcode, d.func3), (0x03, 5));
    let d = lookup_mnemonic("jalr").unwrap();
    assert_eq!((d.opcode, d.func3), (0x67, 0));
    assert_eq!(lookup_mnemonic("mov"), Err(AssemblerError::UnknownMnemonicError));
}

#[test]
fn pseudo_instructions_expand_to_one_base_instruction() {
    let nop = assemble_program("nop\n").unwrap();
    assert_eq!(nop, vec![0x0000_0013]);
    let mv = assemble_program("mv x1, x2\n").unwrap();
    assert_eq!(rd_of(mv[0]), 1);
    assert_eq!(rs1_of(mv[0]), 2);
    assert_eq!(i_imm_of(mv[0]), 0);
    let ret = assemble_program("ret\n").unwrap();
    assert_eq!(ret, vec![0x0000_8067]);
    let not = assemble_program("not x3, x4\n").unwrap();
    assert_eq!(i_imm_of(not[0]), -1);
    let neg = assemble_program("neg x3, x4\n").unwrap();
    assert_eq!((rd_of(neg[0]), rs1_of(neg[0]), rs2_of(neg[0])), (3, 0, 4));
    let seqz = assemble_program("seqz x5, x6\n").unwrap();
    assert_eq!(i_imm_of(seqz[0]), 1);
    let snez = assemble_program("snez x5, x6\n").unwrap();
    assert_eq!((rd_of(snez[0]), rs1_of(snez[0]), rs2_of(snez[0])), (5, 0, 6));
}

#[test]
fn pseudo_branches_and_jumps_take_labels() {
    let words = assemble_program("here:\n  beqz x1, here\n  bnez x2, here\n  j here\n").unwrap();
    assert_eq!(words.len(), 3);
    let jr = assemble_program("jr x5\n").unwrap();
    assert_eq!(rs1_of(jr[0]), 5);
    assert_eq!(rd_of(jr[0]), 0);
}

#[test]
fn pseudo_with_wrong_arity_passes_through_unrecognized() {
    assert_eq!(assemble_program("mv x1\n"), Err(AssemblerError::UnknownMnemonicError));
    assert_eq!(assemble_program("nop x1\n"), Err(AssemblerError::UnknownMnemonicError));
}

#[test]
fn expander_hands_back_base_instructions_unchanged() {
    let toks = tokenize("addi x1, x0, 5");
    let out = transform_pseudo(&toks);
    assert_eq!(out.len(), 1);
    assert_eq!(out[0], toks);
    let toks = tokenize("mv x1, x2");
    let out = transform_pseudo(&toks);
    assert_eq!(out, vec![vec!["addi", "x1", "x2", "0"]]);
}

#[test]
fn resolve_operand_handles_literals_and_labels() {
    let mut t = LabelTable::new();
    t.insert(String::from("dest"), 64);
    let op = resolve_operand("42", &t).unwrap();
    assert_eq!((op.bits, op.from_label), (42, false));
    let op = resolve_operand("-2", &t).unwrap();
    assert_eq!((op.bits, op.from_label), (0xFFFF_FFFE, false));
    let op = resolve_operand("0x2A", &t).unwrap();
    assert_eq!((op.bits, op.from_label), (42, false));
    let op = resolve_operand("dest", &t).unwrap();
    assert_eq!((op.bits, op.from_label), (64, true));
    assert_eq!(resolve_operand("gone", &t), Err(AssemblerError::UndefinedLabelError));
    assert_eq!(resolve_operand("4294967296", &t), Err(AssemblerError::ImmediateParseError));
    assert_eq!(resolve_operand("-4294967296", &t), Err(AssemblerError::ImmediateParseError));
    assert_eq!(resolve_operand("0x1ffffFFFF", &t), Err(AssemblerError::ImmediateParseError));
}

#[test]
fn resolve_operand_edge_values() {
    let t = LabelTable::new();
    assert_eq!(resolve_operand("2147483647", &t).unwrap().bits, 0x7FFF_FFFF);
    assert_eq!(
        resolve_operand("2147483648", &t),
        Err(AssemblerError::ImmediateParseError)
    );
    assert_eq!(resolve_operand("-2147483648", &t).unwrap().bits, 0x8000_0000);
    assert_eq!(
        resolve_operand("-2147483649", &t),
        Err(AssemblerError::ImmediateParseError)
    );
    assert_eq!(resolve_operand("0xffffffff", &t).unwrap().bits, 0xFFFF_FFFF);
    assert_eq!(resolve_operand("-0", &t).unwrap().bits, 0);
}

#[test]
fn encoders_reject_out_of_range_fields() {
    assert_eq!(encode_itype(0x13, 1, 0, 0, 2047), Ok(0x7FF0_0093));
    assert_eq!(encode_itype(0x13, 1, 0, 0, 2048), Err(AssemblerError::ImmediateRangeError));
    assert_eq!(encode_btype(0x63, 0, 1, 2, 3), Err(AssemblerError::ImmediateRangeError));
    assert_eq!(encode_utype(0x37, 1, 0x10_0000), Err(AssemblerError::ImmediateRangeError));
    assert!(encode_jtype(0x6F, 1, 0xFFF0_0000).is_ok());
    assert_eq!(encode_jtype(0x6F, 1, 0xFFE0_0000), Err(AssemblerError::ImmediateRangeError));
}

#[test]
fn assemble_ir_advances_pc_per_word() {
    let labels = parse_labels("x:\naddi x1, x0, 1\n");
    let mut pc: u32 = 0;
    let ws = assemble_ir("addi x1, x0, 1", &labels, &mut pc).unwrap();
    assert_eq!(ws.len(), 1);
    assert_eq!(pc, 4);
    let ws = assemble_ir("# only a comment", &labels, &mut pc).unwrap();
    assert!(ws.is_empty());
    assert_eq!(pc, 4);
    let ws = assemble_ir("x: addi x2, x0, 2", &labels, &mut pc).unwrap();
    assert_eq!(ws.len(), 1);
    assert_eq!(pc, 8);
}

#[test]
fn encode_instruction_matches_driver_output() {
    let labels = LabelTable::new();
    let toks = tokenize("addi x1, x0, 5");
    let w = encode_instruction(&toks, &labels, 0).unwrap();
    assert_eq!(w, 0x0050_0093);
    let toks = tokenize("add x1");
    assert_eq!(
        encode_instruction(&toks, &labels, 0),
        Err(AssemblerError::TooFewTokensError)
    );
}

#[test]
fn negative_u_type_field_is_sign_extended_pattern() {
    assert!(assemble_program("lui x1, -524288\n").is_ok());
    assert_eq!(
        assemble_program("lui x1, -524289\n"),
        Err(AssemblerError::ImmediateRangeError)
    );
}

#[test]
fn duplicate_label_last_definition_wins() {
    let words = assemble_program("a:\naddi x1, x0, 0\na:\nj a\n").unwrap();
    assert_eq!(words.len(), 2);
    // The jump sits at pc 4 and the surviving definition of `a` is also 4.
    let w = words[1];
    let v = (((w >> 21) & 0x3FF) << 1) | (((w >> 20) & 1) << 11) | (((w >> 12) & 0xFF) << 12);
    assert_eq!(w >> 31, 0);
    assert_eq!(v, 0);
}

#[test]
fn error_descriptions_name_the_fault() {
    assert_eq!(
        AssemblerError::TooManyTokensError.describe(),
        "too many tokens on one line"
    );
    assert_eq!(AssemblerError::UnknownRegisterError.describe(), "unknown register name");
    assert_eq!(AssemblerError::UndefinedLabelError.describe(), "undefined label");
}

#[test]
fn label_operands_outside_branches_are_absolute() {
    // I-type and U-type label operands take the label's address as-is,
    // with no pc-relative adjustment.
    let words = assemble_program("jalr x1, x2, dest\naddi x0, x0, 0\ndest:\nnop\n").unwrap();
    assert_eq!(i_imm_of(words[0]), 8);
    let words = assemble_program("nop\nlui x1, dest\ndest:\nnop\n").unwrap();
    assert_eq!(words[1] >> 12, 8);
}

#[test]
fn branch_to_label_beyond_range_is_range_error() {
    // The label resolves, but the 13-bit branch field cannot hold the
    // offset: 2048 instructions lie between the branch and its target.
    let mut text = String::from("beq x0, x0, far\n");
    for _ in 0..2048 {
        text.push_str("nop\n");
    }
    text.push_str("far:\nnop\n");
    assert_eq!(assemble_program(&text), Err(AssemblerError::ImmediateRangeError));
}
