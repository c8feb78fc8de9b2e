//! Program-level laws of the assembler, proved from the specifications the
//! executable functions are verified against.

use vstd::prelude::*;

use crate::assembler::{
    is_label_def, pc_advance, pc_plus, pc_rel, spec_assemble_from, spec_assemble_ir,
    spec_assemble_program, spec_encode_instr, spec_encode_instrs, spec_parse_labels,
    spec_register_2,
};
use crate::encode::{decode_b_imm, decode_j_imm, lemma_btype_round_trip, lemma_jtype_round_trip};
use crate::errors::AssemblerError;
use crate::imm::{is_literal, spec_resolve_operand};
use crate::pseudo::spec_expand;
use crate::tables::{
    lemma_mnemonic_info_bounds, lemma_register_bounds, spec_format_of, spec_lookup_mnemonic,
    spec_register_of, InstructionFormat, MnemonicInfo,
};
use crate::text::{spec_lines, spec_tokenize};

verus! {

// ---------------------------------------------------------------------------
// Output length: one word per instruction-bearing line.
// ---------------------------------------------------------------------------
/// The number of words one source line contributes: one for a line bearing
/// an instruction (with or without a leading label), none for a blank,
/// comment-only or label-only line.
pub open spec fn line_word_count(line: Seq<char>) -> int {
    let toks = spec_tokenize(line);
    if toks.len() == 0 {
        0
    } else if is_label_def(toks[0]) {
        if toks.len() > 1 {
            1
        } else {
            0
        }
    } else {
        1
    }
}

/// The number of words `lines[i..]` contribute.
pub open spec fn word_count_from(lines: Seq<Seq<char>>, i: int) -> int
    decreases lines.len() - i,
{
    if i < 0 || i >= lines.len() {
        0
    } else {
        line_word_count(lines[i]) + word_count_from(lines, i + 1)
    }
}

/// A line that assembles yields exactly as many words as it bears
/// instructions; expansion never changes that count.
pub proof fn lemma_assemble_ir_length(line: Seq<char>, labels: Map<Seq<char>, u32>, pc: u32)
    requires
        spec_assemble_ir(line, labels, pc) is Ok,
    ensures
        spec_assemble_ir(line, labels, pc).unwrap().len() == line_word_count(line),
{
    let toks = spec_tokenize(line);
    if toks.len() == 0 {
    } else if toks.len() > 5 {
    } else {
        let rest = if is_label_def(toks[0]) {
            toks.skip(1)
        } else {
            toks
        };
        if rest.len() > 0 {
            let instrs = spec_expand(rest);
            assert(instrs.skip(1) =~= Seq::<Seq<Seq<char>>>::empty());
            assert(spec_encode_instrs(instrs.skip(1), labels, pc_plus(pc, 4)) == Ok::<
                Seq<u32>,
                AssemblerError,
            >(Seq::<u32>::empty()));
            match spec_encode_instr(instrs[0], labels, pc) {
                Err(_) => {},
                Ok(w) => {
                    assert(spec_encode_instrs(instrs, labels, pc) == Ok::<Seq<u32>, AssemblerError>(
                        seq![w] + Seq::<u32>::empty(),
                    ));
                    assert(seq![w] + Seq::<u32>::empty() =~= seq![w]);
                },
            }
        }
    }
}

/// The words of `lines[i..]`, when they assemble, number exactly the
/// instruction-bearing lines among them.
pub proof fn lemma_assemble_from_length(
    lines: Seq<Seq<char>>,
    labels: Map<Seq<char>, u32>,
    pc: u32,
    i: int,
)
    requires
        spec_assemble_from(lines, labels, pc, i) is Ok,
    ensures
        spec_assemble_from(lines, labels, pc, i).unwrap().len() == word_count_from(lines, i),
    decreases lines.len() - i,
{
    if 0 <= i < lines.len() {
        match spec_assemble_ir(lines[i], labels, pc) {
            Err(_) => {},
            Ok(ws) => {
                lemma_assemble_ir_length(lines[i], labels, pc);
                lemma_assemble_from_length(lines, labels, pc_advance(pc, ws.len()), i + 1);
            },
        }
    }
}

/// A program that assembles yields exactly one word per instruction-bearing
/// line, in particular one per instruction line of a program free of
/// pseudo-instructions.
pub proof fn lemma_output_length(t: Seq<char>)
    requires
        spec_assemble_program(t) is Ok,
    ensures
        spec_assemble_program(t).unwrap().len() == word_count_from(spec_lines(t), 0),
{
    lemma_assemble_from_length(spec_lines(t), spec_parse_labels(t), 0, 0);
}

// ---------------------------------------------------------------------------
// Determinism: the output is a function of the program text alone.
// ---------------------------------------------------------------------------
/// Two assemblies of the same text yield the same result: `assemble_program`
/// ensures its result equals `spec_assemble_program` of the text, which
/// depends on nothing else.
pub proof fn lemma_assemble_deterministic(
    t: Seq<char>,
    r1: Result<Seq<u32>, AssemblerError>,
    r2: Result<Seq<u32>, AssemblerError>,
)
    requires
        r1 == spec_assemble_program(t),
        r2 == spec_assemble_program(t),
    ensures
        r1 == r2,
{
}

// ---------------------------------------------------------------------------
// Too many tokens: the line fails, and with it the program.
// ---------------------------------------------------------------------------
/// A line of more than five tokens always fails with `TooManyTokensError`,
/// whatever the tokens hold, whatever the label table and the pc.
pub proof fn lemma_too_many_tokens(line: Seq<char>, labels: Map<Seq<char>, u32>, pc: u32)
    requires
        spec_tokenize(line).len() > 5,
    ensures
        spec_assemble_ir(line, labels, pc) == Err::<Seq<u32>, AssemblerError>(
            AssemblerError::TooManyTokensError,
        ),
{
}

/// A program with a line of more than five tokens never assembles.
pub proof fn lemma_too_many_tokens_aborts(t: Seq<char>, i: int)
    requires
        0 <= i < spec_lines(t).len(),
        spec_tokenize(spec_lines(t)[i]).len() > 5,
    ensures
        spec_assemble_program(t) is Err,
{
    lemma_assemble_from_err(spec_lines(t), spec_parse_labels(t), 0, 0, i);
}

/// A failing line at or after index `i` makes the whole remainder fail.
proof fn lemma_assemble_from_err(
    lines: Seq<Seq<char>>,
    labels: Map<Seq<char>, u32>,
    pc: u32,
    i: int,
    j: int,
)
    requires
        0 <= i <= j < lines.len(),
        spec_tokenize(lines[j]).len() > 5,
    ensures
        spec_assemble_from(lines, labels, pc, i) is Err,
    decreases j - i,
{
    if i == j {
        lemma_too_many_tokens(lines[i], labels, pc);
    } else {
        match spec_assemble_ir(lines[i], labels, pc) {
            Err(_) => {},
            Ok(ws) => {
                lemma_assemble_from_err(lines, labels, pc_advance(pc, ws.len()), i + 1, j);
            },
        }
    }
}

// ---------------------------------------------------------------------------
// Label resolution is consistent: target addresses round-trip.
// ---------------------------------------------------------------------------
/// Wrapping addition undoes the wrapping difference of `pc_rel`.
pub proof fn lemma_pc_plus_rel(addr: u32, pc: u32)
    ensures
        pc_plus(pc, pc_rel(addr, pc)) == addr,
{
}

/// A branch whose target operand is a label round-trips: the offset decoded
/// from the emitted word, applied to the branch's own pc, is exactly the
/// address the first pass recorded for that label.
pub proof fn lemma_branch_target_round_trip(
    toks: Seq<Seq<char>>,
    labels: Map<Seq<char>, u32>,
    pc: u32,
    w: u32,
    d: MnemonicInfo,
)
    requires
        toks.len() == 4,
        spec_lookup_mnemonic(toks[0]) == Some(d),
        spec_format_of(d.opcode) == Some(InstructionFormat::Btype),
        !is_literal(toks[3]),
        spec_encode_instr(toks, labels, pc) == Ok::<u32, AssemblerError>(w),
    ensures
        labels.contains_key(toks[3]),
        pc_plus(pc, decode_b_imm(w)) == labels[toks[3]],
{
    lemma_mnemonic_info_bounds(toks[0]);
    match spec_register_2(toks[1], toks[2]) {
        Err(_) => {},
        Ok((rs1, rs2)) => {
            lemma_register_bounds(toks[1]);
            lemma_register_bounds(toks[2]);
            match spec_resolve_operand(toks[3], labels) {
                Err(_) => {},
                Ok(op) => {
                    let imm = pc_rel(op.bits, pc);
                    lemma_btype_round_trip(d.opcode, d.func3, rs1, rs2, imm);
                    lemma_pc_plus_rel(op.bits, pc);
                },
            }
        },
    }
}

/// A jump whose target operand is a label round-trips the same way.
pub proof fn lemma_jump_target_round_trip(
    toks: Seq<Seq<char>>,
    labels: Map<Seq<char>, u32>,
    pc: u32,
    w: u32,
    d: MnemonicInfo,
)
    requires
        toks.len() == 3,
        spec_lookup_mnemonic(toks[0]) == Some(d),
        spec_format_of(d.opcode) == Some(InstructionFormat::Jtype),
        !is_literal(toks[2]),
        spec_encode_instr(toks, labels, pc) == Ok::<u32, AssemblerError>(w),
    ensures
        labels.contains_key(toks[2]),
        pc_plus(pc, decode_j_imm(w)) == labels[toks[2]],
{
    lemma_mnemonic_info_bounds(toks[0]);
    match spec_register_of(toks[1]) {
        None => {},
        Some(rd) => {
            lemma_register_bounds(toks[1]);
            match spec_resolve_operand(toks[2], labels) {
                Err(_) => {},
                Ok(op) => {
                    let imm = pc_rel(op.bits, pc);
                    lemma_jtype_round_trip(d.opcode, rd, imm);
                    lemma_pc_plus_rel(op.bits, pc);
                },
            }
        },
    }
}

} // verus!
