//! The two passes of the assembler: label resolution over the whole text,
//! then line-by-line encoding into 32-bit words.
//!
//! Every pseudo-instruction expands to exactly one word, so the first
//! pass's one-word-per-instruction-line count is exact and the recorded
//! label addresses match the final layout.
//!
//! Operand positions follow the opcode, not just the format: loads and
//! stores place the immediate second and the base register last
//! (`lw rd, imm, rs1` / `sw rs2, imm, rs1`), arithmetic-immediate and
//! jump-register place it last (`addi rd, rs1, imm`), branches read
//! `beq rs1, rs2, target`.  A label operand of a branch or jump encodes
//! pc-relative; everywhere else a label encodes its absolute address.

use vstd::prelude::*;

use crate::encode::{
    btype_word, encode_btype, encode_itype, encode_jtype, encode_rtype, encode_stype, encode_utype,
    fits_b_imm, fits_i_imm, fits_j_imm, fits_s_imm, fits_u_imm, itype_word, jtype_word, rtype_word,
    stype_word, utype_word,
};
use crate::errors::AssemblerError;
use crate::imm::{resolve_operand, spec_resolve_operand};
use crate::labels::LabelTable;
use crate::pseudo::{spec_expand, transform_pseudo};
use crate::tables::{
    format_of, lookup_mnemonic, spec_format_of, spec_lookup_mnemonic, InstructionFormat,
    MnemonicInfo, OPCODE_LOAD,
};
use crate::text::{spec_lines, spec_tokenize, split_lines, tokenize};

verus! {

/// A token that defines a label: its last character is the label marker.
pub open spec fn is_label_def(t: Seq<char>) -> bool {
    t.len() > 0 && t.last() == ':'
}

/// 32-bit wrapping addition, for the program counter and for applying a
/// decoded offset to a pc.
pub open spec fn pc_plus(pc: u32, off: u32) -> u32 {
    if pc + off > 0xFFFF_FFFF {
        (pc + off - 0x1_0000_0000) as u32
    } else {
        (pc + off) as u32
    }
}

/// The byte offset from `pc` to `addr`, as a 32-bit wrapping difference.
pub open spec fn pc_rel(addr: u32, pc: u32) -> u32 {
    if addr - pc < 0 {
        (addr - pc + 0x1_0000_0000) as u32
    } else {
        (addr - pc) as u32
    }
}

/// The pc after emitting `words` further instruction words.
pub open spec fn pc_advance(pc: u32, words: nat) -> u32
    decreases words,
{
    if words == 0 {
        pc
    } else {
        pc_advance(pc_plus(pc, 4), (words - 1) as nat)
    }
}

// ---------------------------------------------------------------------------
// The first pass: label resolution.
// ---------------------------------------------------------------------------
/// The label table after scanning `lines` from index `i` on, with running
/// counter `pc` and the table `m` built so far.  A label-only line binds
/// the label to the address of the next instruction-bearing line.
pub open spec fn spec_parse_labels_from(
    lines: Seq<Seq<char>>,
    i: int,
    pc: u32,
    m: Map<Seq<char>, u32>,
) -> Map<Seq<char>, u32>
    decreases lines.len() - i,
{
    if i < 0 || i >= lines.len() {
        m
    } else {
        let toks = spec_tokenize(lines[i]);
        if toks.len() == 0 {
            spec_parse_labels_from(lines, i + 1, pc, m)
        } else if is_label_def(toks[0]) {
            let m2 = m.insert(toks[0].drop_last(), pc);
            if toks.len() > 1 {
                spec_parse_labels_from(lines, i + 1, pc_plus(pc, 4), m2)
            } else {
                spec_parse_labels_from(lines, i + 1, pc, m2)
            }
        } else {
            spec_parse_labels_from(lines, i + 1, pc_plus(pc, 4), m)
        }
    }
}

/// The label table of a whole program text.
pub open spec fn spec_parse_labels(s: Seq<char>) -> Map<Seq<char>, u32> {
    spec_parse_labels_from(spec_lines(s), 0, 0, Map::empty())
}

/// First pass: bind every label of the program to its byte address.
pub fn parse_labels(program: &str) -> (labels: LabelTable)
    ensures
        labels@ == spec_parse_labels(program@),
{
    let lines = split_lines(program);
    let mut labels = LabelTable::new();
    let mut pc: u32 = 0;
    let mut i: usize = 0;
    while i < lines.len()
        invariant
            i <= lines@.len(),
            lines.deep_view() == spec_lines(program@),
            spec_parse_labels(program@) == spec_parse_labels_from(
                lines.deep_view(),
                i as int,
                pc,
                labels@,
            ),
        decreases lines@.len() - i,
    {
        let toks = tokenize(lines[i].as_str());
        if toks.len() > 0 {
            let t0 = toks[0].as_str();
            let t0_len = t0.unicode_len();
            if t0_len > 0 && t0.get_char(t0_len - 1) == ':' {
                let name = t0.substring_char(0, t0_len - 1).to_owned();
                proof {
                    assert(name@ =~= toks.deep_view()[0].drop_last());
                }
                labels.insert(name, pc);
                if toks.len() > 1 {
                    pc = pc.wrapping_add(4);
                }
            } else {
                pc = pc.wrapping_add(4);
            }
        }
        i = i + 1;
    }
    labels
}

// ---------------------------------------------------------------------------
// Encoding one base instruction.
// ---------------------------------------------------------------------------
/// The word one base instruction's tokens encode to at address `pc`, or the
/// first error found.  Register operands are checked before the immediate,
/// as the fields are packed.
pub open spec fn spec_encode_instr(
    toks: Seq<Seq<char>>,
    labels: Map<Seq<char>, u32>,
    pc: u32,
) -> Result<u32, AssemblerError> {
    if toks.len() == 0 {
        Err(AssemblerError::TooFewTokensError)
    } else {
        match spec_lookup_mnemonic(toks[0]) {
            None => Err(AssemblerError::UnknownMnemonicError),
            Some(d) => match spec_format_of(d.opcode) {
                None => Err(AssemblerError::UnknownMnemonicError),
                Some(fmt) => spec_encode_fields(toks, labels, pc, d, fmt),
            },
        }
    }
}

/// The field resolution and packing of one classified instruction.
pub open spec fn spec_encode_fields(
    toks: Seq<Seq<char>>,
    labels: Map<Seq<char>, u32>,
    pc: u32,
    d: MnemonicInfo,
    fmt: InstructionFormat,
) -> Result<u32, AssemblerError> {
    match fmt {
        InstructionFormat::Rtype => {
            if toks.len() < 4 {
                Err(AssemblerError::TooFewTokensError)
            } else {
                match spec_register_3(toks[1], toks[2], toks[3]) {
                    Err(e) => Err(e),
                    Ok((rd, rs1, rs2)) => Ok(rtype_word(d.opcode, rd, d.func3, rs1, rs2, d.func7)),
                }
            }
        },
        InstructionFormat::Itype => {
            if toks.len() < 4 {
                Err(AssemblerError::TooFewTokensError)
            } else {
                let rs1_tok = if d.opcode == OPCODE_LOAD {
                    toks[3]
                } else {
                    toks[2]
                };
                let imm_tok = if d.opcode == OPCODE_LOAD {
                    toks[2]
                } else {
                    toks[3]
                };
                match spec_register_2(toks[1], rs1_tok) {
                    Err(e) => Err(e),
                    Ok((rd, rs1)) => match spec_resolve_operand(imm_tok, labels) {
                        Err(e) => Err(e),
                        Ok(op) => if fits_i_imm(op.bits) {
                            Ok(itype_word(d.opcode, rd, d.func3, rs1, op.bits))
                        } else {
                            Err(AssemblerError::ImmediateRangeError)
                        },
                    },
                }
            }
        },
        InstructionFormat::Stype => {
            if toks.len() < 4 {
                Err(AssemblerError::TooFewTokensError)
            } else {
                match spec_register_2(toks[1], toks[3]) {
                    Err(e) => Err(e),
                    Ok((rs2, rs1)) => match spec_resolve_operand(toks[2], labels) {
                        Err(e) => Err(e),
                        Ok(op) => if fits_s_imm(op.bits) {
                            Ok(stype_word(d.opcode, d.func3, rs1, rs2, op.bits))
                        } else {
                            Err(AssemblerError::ImmediateRangeError)
                        },
                    },
                }
            }
        },
        InstructionFormat::Btype => {
            if toks.len() < 4 {
                Err(AssemblerError::TooFewTokensError)
            } else {
                match spec_register_2(toks[1], toks[2]) {
                    Err(e) => Err(e),
                    Ok((rs1, rs2)) => match spec_resolve_operand(toks[3], labels) {
                        Err(e) => Err(e),
                        Ok(op) => {
                            let imm = if op.from_label {
                                pc_rel(op.bits, pc)
                            } else {
                                op.bits
                            };
                            if fits_b_imm(imm) {
                                Ok(btype_word(d.opcode, d.func3, rs1, rs2, imm))
                            } else {
                                Err(AssemblerError::ImmediateRangeError)
                            }
                        },
                    },
                }
            }
        },
        InstructionFormat::Utype => {
            if toks.len() < 3 {
                Err(AssemblerError::TooFewTokensError)
            } else {
                match crate::tables::spec_register_of(toks[1]) {
                    None => Err(AssemblerError::UnknownRegisterError),
                    Some(rd) => match spec_resolve_operand(toks[2], labels) {
                        Err(e) => Err(e),
                        Ok(op) => if fits_u_imm(op.bits) {
                            Ok(utype_word(d.opcode, rd, op.bits))
                        } else {
                            Err(AssemblerError::ImmediateRangeError)
                        },
                    },
                }
            }
        },
        InstructionFormat::Jtype => {
            if toks.len() < 3 {
                Err(AssemblerError::TooFewTokensError)
            } else {
                match crate::tables::spec_register_of(toks[1]) {
                    None => Err(AssemblerError::UnknownRegisterError),
                    Some(rd) => match spec_resolve_operand(toks[2], labels) {
                        Err(e) => Err(e),
                        Ok(op) => {
                            let imm = if op.from_label {
                                pc_rel(op.bits, pc)
                            } else {
                                op.bits
                            };
                            if fits_j_imm(imm) {
                                Ok(jtype_word(d.opcode, rd, imm))
                            } else {
                                Err(AssemblerError::ImmediateRangeError)
                            }
                        },
                    },
                }
            }
        },
    }
}

/// Two register operands resolved left to right, the first error winning.
pub open spec fn spec_register_2(a: Seq<char>, b: Seq<char>) -> Result<
    (u32, u32),
    AssemblerError,
> {
    match crate::tables::spec_register_of(a) {
        None => Err(AssemblerError::UnknownRegisterError),
        Some(ra) => match crate::tables::spec_register_of(b) {
            None => Err(AssemblerError::UnknownRegisterError),
            Some(rb) => Ok((ra, rb)),
        },
    }
}

/// Three register operands resolved left to right, the first error winning.
pub open spec fn spec_register_3(a: Seq<char>, b: Seq<char>, c: Seq<char>) -> Result<
    (u32, u32, u32),
    AssemblerError,
> {
    match spec_register_2(a, b) {
        Err(e) => Err(e),
        Ok((ra, rb)) => match crate::tables::spec_register_of(c) {
            None => Err(AssemblerError::UnknownRegisterError),
            Some(rc) => Ok((ra, rb, rc)),
        },
    }
}

/// Encode one base instruction at address `pc`.
pub fn encode_instruction(toks: &Vec<String>, labels: &LabelTable, pc: u32) -> (r: Result<
    u32,
    AssemblerError,
>)
    ensures
        r == spec_encode_instr(toks.deep_view(), labels@, pc),
{
    if toks.len() == 0 {
        return Err(AssemblerError::TooFewTokensError);
    }
    let d = match lookup_mnemonic(toks[0].as_str()) {
        Ok(d) => d,
        Err(e) => return Err(e),
    };
    let fmt = match format_of(d.opcode) {
        Some(f) => f,
        None => return Err(AssemblerError::UnknownMnemonicError),
    };
    match fmt {
        InstructionFormat::Rtype => {
            if toks.len() < 4 {
                return Err(AssemblerError::TooFewTokensError);
            }
            let rd = match crate::tables::match_register(toks[1].as_str()) {
                Ok(r) => r,
                Err(e) => return Err(e),
            };
            let rs1 = match crate::tables::match_register(toks[2].as_str()) {
                Ok(r) => r,
                Err(e) => return Err(e),
            };
            let rs2 = match crate::tables::match_register(toks[3].as_str()) {
                Ok(r) => r,
                Err(e) => return Err(e),
            };
            Ok(encode_rtype(d.opcode, rd, d.func3, rs1, rs2, d.func7))
        },
        InstructionFormat::Itype => {
            if toks.len() < 4 {
                return Err(AssemblerError::TooFewTokensError);
            }
            let rs1_idx: usize = if d.opcode == OPCODE_LOAD {
                3
            } else {
                2
            };
            let imm_idx: usize = if d.opcode == OPCODE_LOAD {
                2
            } else {
                3
            };
            let rd = match crate::tables::match_register(toks[1].as_str()) {
                Ok(r) => r,
                Err(e) => return Err(e),
            };
            let rs1 = match crate::tables::match_register(toks[rs1_idx].as_str()) {
                Ok(r) => r,
                Err(e) => return Err(e),
            };
            let op = match resolve_operand(toks[imm_idx].as_str(), labels) {
                Ok(o) => o,
                Err(e) => return Err(e),
            };
            encode_itype(d.opcode, rd, d.func3, rs1, op.bits)
        },
        InstructionFormat::Stype => {
            if toks.len() < 4 {
                return Err(AssemblerError::TooFewTokensError);
            }
            let rs2 = match crate::tables::match_register(toks[1].as_str()) {
                Ok(r) => r,
                Err(e) => return Err(e),
            };
            let rs1 = match crate::tables::match_register(toks[3].as_str()) {
                Ok(r) => r,
                Err(e) => return Err(e),
            };
            let op = match resolve_operand(toks[2].as_str(), labels) {
                Ok(o) => o,
                Err(e) => return Err(e),
            };
            encode_stype(d.opcode, d.func3, rs1, rs2, op.bits)
        },
        InstructionFormat::Btype => {
            if toks.len() < 4 {
                return Err(AssemblerError::TooFewTokensError);
            }
            let rs1 = match crate::tables::match_register(toks[1].as_str()) {
                Ok(r) => r,
                Err(e) => return Err(e),
            };
            let rs2 = match crate::tables::match_register(toks[2].as_str()) {
                Ok(r) => r,
                Err(e) => return Err(e),
            };
            let op = match resolve_operand(toks[3].as_str(), labels) {
                Ok(o) => o,
                Err(e) => return Err(e),
            };
            let imm = if op.from_label {
                op.bits.wrapping_sub(pc)
            } else {
                op.bits
            };
            encode_btype(d.opcode, d.func3, rs1, rs2, imm)
        },
        InstructionFormat::Utype => {
            if toks.len() < 3 {
                return Err(AssemblerError::TooFewTokensError);
            }
            let rd = match crate::tables::match_register(toks[1].as_str()) {
                Ok(r) => r,
                Err(e) => return Err(e),
            };
            let op = match resolve_operand(toks[2].as_str(), labels) {
                Ok(o) => o,
                Err(e) => return Err(e),
            };
            encode_utype(d.opcode, rd, op.bits)
        },
        InstructionFormat::Jtype => {
            if toks.len() < 3 {
                return Err(AssemblerError::TooFewTokensError);
            }
            let rd = match crate::tables::match_register(toks[1].as_str()) {
                Ok(r) => r,
                Err(e) => return Err(e),
            };
            let op = match resolve_operand(toks[2].as_str(), labels) {
                Ok(o) => o,
                Err(e) => return Err(e),
            };
            let imm = if op.from_label {
                op.bits.wrapping_sub(pc)
            } else {
                op.bits
            };
            encode_jtype(d.opcode, rd, imm)
        },
    }
}

// ---------------------------------------------------------------------------
// One line, then the whole program.
// ---------------------------------------------------------------------------
/// The words of a run of base instructions starting at address `pc`, or the
/// first error found.
pub open spec fn spec_encode_instrs(
    instrs: Seq<Seq<Seq<char>>>,
    labels: Map<Seq<char>, u32>,
    pc: u32,
) -> Result<Seq<u32>, AssemblerError>
    decreases instrs.len(),
{
    if instrs.len() == 0 {
        Ok(Seq::empty())
    } else {
        match spec_encode_instr(instrs[0], labels, pc) {
            Err(e) => Err(e),
            Ok(w) => match spec_encode_instrs(instrs.skip(1), labels, pc_plus(pc, 4)) {
                Err(e) => Err(e),
                Ok(rest) => Ok(seq![w] + rest),
            },
        }
    }
}

/// The words one source line contributes at address `pc`: none for a blank
/// or label-only line, the encodings of its expansion otherwise.  A line of
/// more than five tokens fails before anything else is looked at.
pub open spec fn spec_assemble_ir(
    line: Seq<char>,
    labels: Map<Seq<char>, u32>,
    pc: u32,
) -> Result<Seq<u32>, AssemblerError> {
    let toks = spec_tokenize(line);
    if toks.len() == 0 {
        Ok(Seq::empty())
    } else if toks.len() > 5 {
        Err(AssemblerError::TooManyTokensError)
    } else {
        let rest = if is_label_def(toks[0]) {
            toks.skip(1)
        } else {
            toks
        };
        if rest.len() == 0 {
            Ok(Seq::empty())
        } else {
            spec_encode_instrs(spec_expand(rest), labels, pc)
        }
    }
}

/// Assemble one source line against a label table, advancing the program
/// counter by four bytes for every word emitted.
pub fn assemble_ir(ir_string: &str, labels: &LabelTable, pc: &mut u32) -> (r: Result<
    Vec<u32>,
    AssemblerError,
>)
    ensures
        match r {
            Ok(v) => spec_assemble_ir(ir_string@, labels@, *old(pc)) == Ok::<
                Seq<u32>,
                AssemblerError,
            >(v@) && *final(pc) == pc_advance(*old(pc), v@.len() as nat),
            Err(e) => spec_assemble_ir(ir_string@, labels@, *old(pc)) == Err::<
                Seq<u32>,
                AssemblerError,
            >(e),
        },
{
    let mut line_tokens = tokenize(ir_string);
    let mut binaries: Vec<u32> = Vec::new();
    proof {
        assert(binaries@ =~= Seq::<u32>::empty());
    }
    if line_tokens.len() == 0 {
        return Ok(binaries);
    }
    if line_tokens.len() > 5 {
        return Err(AssemblerError::TooManyTokensError);
    }
    let t0 = line_tokens[0].as_str();
    let t0_len = t0.unicode_len();
    if t0_len > 0 && t0.get_char(t0_len - 1) == ':' {
        let ghost before = line_tokens.deep_view();
        line_tokens.remove(0);
        proof {
            assert(line_tokens.deep_view() =~= before.skip(1));
        }
    }
    if line_tokens.len() == 0 {
        return Ok(binaries);
    }
    let instrs = transform_pseudo(&line_tokens);
    let ghost dv = instrs.deep_view();
    let ghost pc0 = *pc;
    let mut k: usize = 0;
    proof {
        assert(dv.skip(0) =~= dv);
        match spec_encode_instrs(dv, labels@, pc0) {
            Ok(all) => {
                assert(binaries@ + all =~= all);
            },
            Err(_) => {},
        }
    }
    loop
        invariant_except_break
            k <= dv.len(),
            dv == instrs.deep_view(),
            binaries@.len() == k,
            *pc == pc_advance(pc0, k as nat),
            spec_encode_instrs(dv, labels@, pc0) matches Ok(all) ==> (spec_encode_instrs(
                dv.skip(k as int),
                labels@,
                *pc,
            ) matches Ok(rest) && all == binaries@ + rest),
            spec_encode_instrs(dv, labels@, pc0) matches Err(e) ==> spec_encode_instrs(
                dv.skip(k as int),
                labels@,
                *pc,
            ) == Err::<Seq<u32>, AssemblerError>(e),
        invariant
            instrs@.len() == dv.len(),
            pc0 == *old(pc),
            spec_assemble_ir(ir_string@, labels@, pc0) == spec_encode_instrs(dv, labels@, pc0),
        ensures
            spec_encode_instrs(dv, labels@, pc0) == Ok::<Seq<u32>, AssemblerError>(binaries@),
            *pc == pc_advance(pc0, binaries@.len() as nat),
        decreases dv.len() - k,
    {
        if k == instrs.len() {
            proof {
                assert(dv.skip(k as int) =~= Seq::<Seq<Seq<char>>>::empty());
                assert(binaries@ + Seq::<u32>::empty() =~= binaries@);
            }
            break ;
        }
        proof {
            assert(dv.skip(k as int)[0] == dv[k as int]);
        }
        let w = match encode_instruction(&instrs[k], labels, *pc) {
            Ok(w) => w,
            Err(e) => {
                proof {
                    assert(spec_encode_instrs(dv.skip(k as int), labels@, *pc) == Err::<
                        Seq<u32>,
                        AssemblerError,
                    >(e));
                }
                return Err(e);
            },
        };
        let ghost b_prev = binaries@;
        let ghost pc_prev = *pc;
        binaries.push(w);
        *pc = pc.wrapping_add(4);
        k = k + 1;
        proof {
            assert(dv.skip(k as int - 1).skip(1) =~= dv.skip(k as int));
            lemma_pc_advance_snoc(pc0, (k - 1) as nat);
            if spec_encode_instrs(dv, labels@, pc0) matches Ok(all) {
                let rest_prev = spec_encode_instrs(dv.skip(k as int - 1), labels@, pc_prev).unwrap();
                let rest_new = spec_encode_instrs(dv.skip(k as int), labels@, *pc).unwrap();
                assert(rest_prev == seq![w] + rest_new);
                assert(b_prev + (seq![w] + rest_new) =~= binaries@ + rest_new);
            }
        }
    }
    Ok(binaries)
}

/// Advancing one more word is advancing from one word further on.
proof fn lemma_pc_advance_snoc(pc: u32, k: nat)
    ensures
        pc_advance(pc, k + 1) == pc_plus(pc_advance(pc, k), 4),
    decreases k,
{
    if k == 0 {
        assert(pc_advance(pc, 1) == pc_advance(pc_plus(pc, 4), 0));
        assert(pc_advance(pc_plus(pc, 4), 0) == pc_plus(pc, 4));
    } else {
        lemma_pc_advance_snoc(pc_plus(pc, 4), (k - 1) as nat);
    }
}

/// The words of `lines[i..]` assembled at address `pc`, or the first error.
pub open spec fn spec_assemble_from(
    lines: Seq<Seq<char>>,
    labels: Map<Seq<char>, u32>,
    pc: u32,
    i: int,
) -> Result<Seq<u32>, AssemblerError>
    decreases lines.len() - i,
{
    if i < 0 || i >= lines.len() {
        Ok(Seq::empty())
    } else {
        match spec_assemble_ir(lines[i], labels, pc) {
            Err(e) => Err(e),
            Ok(ws) => match spec_assemble_from(
                lines,
                labels,
                pc_advance(pc, ws.len()),
                i + 1,
            ) {
                Err(e) => Err(e),
                Ok(rest) => Ok(ws + rest),
            },
        }
    }
}

/// The machine-code image of a whole program text, or the first error:
/// the label table of the first pass, then every line's words in order.
pub open spec fn spec_assemble_program(s: Seq<char>) -> Result<Seq<u32>, AssemblerError> {
    spec_assemble_from(spec_lines(s), spec_parse_labels(s), 0, 0)
}

/// Assemble a full program of newline-separated lines into its machine-code
/// image, all words in program order, or fail on the first error with no
/// partial output.
pub fn assemble_program(program: &str) -> (r: Result<Vec<u32>, AssemblerError>)
    ensures
        match r {
            Ok(v) => spec_assemble_program(program@) == Ok::<Seq<u32>, AssemblerError>(v@),
            Err(e) => spec_assemble_program(program@) == Err::<Seq<u32>, AssemblerError>(e),
        },
{
    let labels = parse_labels(program);
    let lines = split_lines(program);
    let mut prog: Vec<u32> = Vec::new();
    let mut pc: u32 = 0;
    let mut i: usize = 0;
    proof {
        assert(prog@ =~= Seq::<u32>::empty());
        match spec_assemble_program(program@) {
            Ok(all) => {
                assert(prog@ + all =~= all);
            },
            Err(_) => {},
        }
    }
    while i < lines.len()
        invariant
            i <= lines@.len(),
            lines.deep_view() == spec_lines(program@),
            labels@ == spec_parse_labels(program@),
            spec_assemble_program(program@) matches Ok(all) ==> (spec_assemble_from(
                lines.deep_view(),
                labels@,
                pc,
                i as int,
            ) matches Ok(rest) && all == prog@ + rest),
            spec_assemble_program(program@) matches Err(e) ==> spec_assemble_from(
                lines.deep_view(),
                labels@,
                pc,
                i as int,
            ) == Err::<Seq<u32>, AssemblerError>(e),
        decreases lines@.len() - i,
    {
        let ghost pc_prev = pc;
        let mut ws = match assemble_ir(lines[i].as_str(), &labels, &mut pc) {
            Ok(ws) => ws,
            Err(e) => {
                return Err(e);
            },
        };
        let ghost ws_view = ws@;
        let ghost p_prev = prog@;
        prog.append(&mut ws);
        i = i + 1;
        proof {
            assert(lines.deep_view()[i as int - 1] == lines@[i as int - 1]@);
            assert(spec_assemble_ir(lines.deep_view()[i as int - 1], labels@, pc_prev) == Ok::<
                Seq<u32>,
                AssemblerError,
            >(ws_view));
            assert(pc == pc_advance(pc_prev, ws_view.len()));
            if spec_assemble_program(program@) matches Ok(all) {
                let rest_prev = spec_assemble_from(
                    lines.deep_view(),
                    labels@,
                    pc_prev,
                    i as int - 1,
                ).unwrap();
                let rest_new = spec_assemble_from(lines.deep_view(), labels@, pc, i as int).unwrap();
                assert(rest_prev == ws_view + rest_new);
                assert(p_prev + (ws_view + rest_new) =~= prog@ + rest_new);
            }
        }
    }
    proof {
        assert(prog@ + Seq::<u32>::empty() =~= prog@);
    }
    Ok(prog)
}

} // verus!
