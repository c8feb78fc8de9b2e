//! Bit-field packing of instruction words, one packing function per format.
//!
//! Immediates travel as 32-bit two's-complement bit patterns (`u32`); a
//! pattern `v` stands for the signed value `v` when `v < 2^31` and
//! `v - 2^32` otherwise.  Each format accepts exactly the patterns whose
//! signed value fits its field; everything else is an `ImmediateRangeError`.

use vstd::prelude::*;

use crate::errors::AssemblerError;

verus! {

// ---------------------------------------------------------------------------
// Which immediate bit patterns fit which format.
// ---------------------------------------------------------------------------
/// The signed value of `imm` fits 12 bits: `-2048 <= value <= 2047`.
pub open spec fn fits_i_imm(imm: u32) -> bool {
    imm < 0x800 || imm >= 0xFFFF_F800
}

/// The signed value of `imm` fits 12 bits (same field width as I-type).
pub open spec fn fits_s_imm(imm: u32) -> bool {
    imm < 0x800 || imm >= 0xFFFF_F800
}

/// The signed value of `imm` is even and fits 13 bits:
/// `-4096 <= value <= 4094`, bit 0 clear.
pub open spec fn fits_b_imm(imm: u32) -> bool {
    (imm & 1) == 0 && (imm < 0x1000 || imm >= 0xFFFF_F000)
}

/// The value of `imm` fits the 20-bit U-type field: `0 <= value <= 0xFFFFF`
/// as a raw field, or `-2^19 <= value < 0` sign-extended.
pub open spec fn fits_u_imm(imm: u32) -> bool {
    imm < 0x10_0000 || imm >= 0xFFF8_0000
}

/// The signed value of `imm` is even and fits 21 bits:
/// `-2^20 <= value <= 2^20 - 2`, bit 0 clear.
pub open spec fn fits_j_imm(imm: u32) -> bool {
    (imm & 1) == 0 && (imm < 0x10_0000 || imm >= 0xFFF0_0000)
}

// ---------------------------------------------------------------------------
// The words each format packs, bit 0 the least significant.
// ---------------------------------------------------------------------------
/// R-type: `func7 | rs2 | rs1 | func3 | rd | opcode`.
pub open spec fn rtype_word(opcode: u32, rd: u32, func3: u32, rs1: u32, rs2: u32, func7: u32) -> u32 {
    opcode | (rd << 7) | (func3 << 12) | (rs1 << 15) | (rs2 << 20) | (func7 << 25)
}

/// I-type: `imm[11:0] | rs1 | func3 | rd | opcode`.
pub open spec fn itype_word(opcode: u32, rd: u32, func3: u32, rs1: u32, imm: u32) -> u32 {
    opcode | (rd << 7) | (func3 << 12) | (rs1 << 15) | ((imm & 0xFFF) << 20)
}

/// S-type: `imm[11:5] | rs2 | rs1 | func3 | imm[4:0] | opcode`.
pub open spec fn stype_word(opcode: u32, func3: u32, rs1: u32, rs2: u32, imm: u32) -> u32 {
    opcode | ((imm & 0x1F) << 7) | (func3 << 12) | (rs1 << 15) | (rs2 << 20) | (
    ((imm >> 5) & 0x7F) << 25)
}

/// B-type: the 13-bit branch offset scrambled as
/// `imm[12] | imm[10:5] | rs2 | rs1 | func3 | imm[4:1] | imm[11] | opcode`.
pub open spec fn btype_word(opcode: u32, func3: u32, rs1: u32, rs2: u32, imm: u32) -> u32 {
    opcode | (((imm >> 11) & 1) << 7) | (((imm >> 1) & 0xF) << 8) | (func3 << 12) | (rs1 << 15) | (
    rs2 << 20) | (((imm >> 5) & 0x3F) << 25) | (((imm >> 12) & 1) << 31)
}

/// U-type: `imm[19:0] | rd | opcode`, the field placed in bits 31..12 raw.
pub open spec fn utype_word(opcode: u32, rd: u32, imm: u32) -> u32 {
    opcode | (rd << 7) | ((imm & 0xF_FFFF) << 12)
}

/// J-type: the 21-bit jump offset scrambled as
/// `imm[20] | imm[10:1] | imm[11] | imm[19:12] | rd | opcode`.
pub open spec fn jtype_word(opcode: u32, rd: u32, imm: u32) -> u32 {
    opcode | (rd << 7) | (((imm >> 12) & 0xFF) << 12) | (((imm >> 11) & 1) << 20) | (
    ((imm >> 1) & 0x3FF) << 21) | (((imm >> 20) & 1) << 31)
}

// ---------------------------------------------------------------------------
// The executable encoders: the word of the format, or ImmediateRangeError.
// ---------------------------------------------------------------------------
/// Pack an R-type instruction; R-type has no immediate and never fails.
pub fn encode_rtype(opcode: u32, rd: u32, func3: u32, rs1: u32, rs2: u32, func7: u32) -> (w: u32)
    ensures
        w == rtype_word(opcode, rd, func3, rs1, rs2, func7),
{
    opcode | (rd << 7) | (func3 << 12) | (rs1 << 15) | (rs2 << 20) | (func7 << 25)
}

/// Pack an I-type instruction, rejecting an immediate outside 12 signed bits.
pub fn encode_itype(opcode: u32, rd: u32, func3: u32, rs1: u32, imm: u32) -> (r: Result<
    u32,
    AssemblerError,
>)
    ensures
        fits_i_imm(imm) ==> r == Ok::<u32, AssemblerError>(itype_word(opcode, rd, func3, rs1, imm)),
        !fits_i_imm(imm) ==> r == Err::<u32, AssemblerError>(AssemblerError::ImmediateRangeError),
{
    if imm < 0x800 || imm >= 0xFFFF_F800 {
        Ok(opcode | (rd << 7) | (func3 << 12) | (rs1 << 15) | ((imm & 0xFFF) << 20))
    } else {
        Err(AssemblerError::ImmediateRangeError)
    }
}

/// Pack an S-type instruction, rejecting an immediate outside 12 signed bits.
pub fn encode_stype(opcode: u32, func3: u32, rs1: u32, rs2: u32, imm: u32) -> (r: Result<
    u32,
    AssemblerError,
>)
    ensures
        fits_s_imm(imm) ==> r == Ok::<u32, AssemblerError>(stype_word(opcode, func3, rs1, rs2, imm)),
        !fits_s_imm(imm) ==> r == Err::<u32, AssemblerError>(AssemblerError::ImmediateRangeError),
{
    if imm < 0x800 || imm >= 0xFFFF_F800 {
        Ok(
            opcode | ((imm & 0x1F) << 7) | (func3 << 12) | (rs1 << 15) | (rs2 << 20) | (((imm >> 5)
                & 0x7F) << 25),
        )
    } else {
        Err(AssemblerError::ImmediateRangeError)
    }
}

/// Pack a B-type instruction, rejecting an offset that is odd or outside
/// 13 signed bits.
pub fn encode_btype(opcode: u32, func3: u32, rs1: u32, rs2: u32, imm: u32) -> (r: Result<
    u32,
    AssemblerError,
>)
    ensures
        fits_b_imm(imm) ==> r == Ok::<u32, AssemblerError>(btype_word(opcode, func3, rs1, rs2, imm)),
        !fits_b_imm(imm) ==> r == Err::<u32, AssemblerError>(AssemblerError::ImmediateRangeError),
{
    if (imm & 1) == 0 && (imm < 0x1000 || imm >= 0xFFFF_F000) {
        Ok(
            opcode | (((imm >> 11) & 1) << 7) | (((imm >> 1) & 0xF) << 8) | (func3 << 12) | (rs1
                << 15) | (rs2 << 20) | (((imm >> 5) & 0x3F) << 25) | (((imm >> 12) & 1) << 31),
        )
    } else {
        Err(AssemblerError::ImmediateRangeError)
    }
}

/// Pack a U-type instruction, rejecting an immediate outside its 20-bit field.
pub fn encode_utype(opcode: u32, rd: u32, imm: u32) -> (r: Result<u32, AssemblerError>)
    ensures
        fits_u_imm(imm) ==> r == Ok::<u32, AssemblerError>(utype_word(opcode, rd, imm)),
        !fits_u_imm(imm) ==> r == Err::<u32, AssemblerError>(AssemblerError::ImmediateRangeError),
{
    if imm < 0x10_0000 || imm >= 0xFFF8_0000 {
        Ok(opcode | (rd << 7) | ((imm & 0xF_FFFF) << 12))
    } else {
        Err(AssemblerError::ImmediateRangeError)
    }
}

/// Pack a J-type instruction, rejecting an offset that is odd or outside
/// 21 signed bits.
pub fn encode_jtype(opcode: u32, rd: u32, imm: u32) -> (r: Result<u32, AssemblerError>)
    ensures
        fits_j_imm(imm) ==> r == Ok::<u32, AssemblerError>(jtype_word(opcode, rd, imm)),
        !fits_j_imm(imm) ==> r == Err::<u32, AssemblerError>(AssemblerError::ImmediateRangeError),
{
    if (imm & 1) == 0 && (imm < 0x10_0000 || imm >= 0xFFF0_0000) {
        Ok(
            opcode | (rd << 7) | (((imm >> 12) & 0xFF) << 12) | (((imm >> 11) & 1) << 20) | (((imm
                >> 1) & 0x3FF) << 21) | (((imm >> 20) & 1) << 31),
        )
    } else {
        Err(AssemblerError::ImmediateRangeError)
    }
}

// ---------------------------------------------------------------------------
// Decoding the fields back out of a word.
// ---------------------------------------------------------------------------
/// Bits 6..0 of a word: the opcode.
pub open spec fn decode_opcode(w: u32) -> u32 {
    w & 0x7F
}

/// Bits 11..7 of a word: the destination register.
pub open spec fn decode_rd(w: u32) -> u32 {
    (w >> 7) & 0x1F
}

/// Bits 14..12 of a word: func3.
pub open spec fn decode_func3(w: u32) -> u32 {
    (w >> 12) & 0x7
}

/// Bits 19..15 of a word: the first source register.
pub open spec fn decode_rs1(w: u32) -> u32 {
    (w >> 15) & 0x1F
}

/// Bits 24..20 of a word: the second source register.
pub open spec fn decode_rs2(w: u32) -> u32 {
    (w >> 20) & 0x1F
}

/// Bits 31..25 of a word: func7.
pub open spec fn decode_func7(w: u32) -> u32 {
    (w >> 25) & 0x7F
}

/// The sign-extended 12-bit I-type immediate of a word, as a bit pattern.
pub open spec fn decode_i_imm(w: u32) -> u32 {
    if (w >> 31) & 1 == 1 {
        (w >> 20) | 0xFFFF_F000
    } else {
        w >> 20
    }
}

/// The sign-extended 12-bit S-type immediate of a word, as a bit pattern.
pub open spec fn decode_s_imm(w: u32) -> u32 {
    let v = ((w >> 7) & 0x1F) | (((w >> 25) & 0x7F) << 5);
    if (w >> 31) & 1 == 1 {
        v | 0xFFFF_F000
    } else {
        v
    }
}

/// The sign-extended 13-bit B-type branch offset of a word, as a bit pattern.
pub open spec fn decode_b_imm(w: u32) -> u32 {
    let v = (((w >> 8) & 0xF) << 1) | (((w >> 25) & 0x3F) << 5) | (((w >> 7) & 1) << 11) | (((w
        >> 31) & 1) << 12);
    if (w >> 31) & 1 == 1 {
        v | 0xFFFF_E000
    } else {
        v
    }
}

/// The 20-bit U-type field of a word.
pub open spec fn decode_u_imm(w: u32) -> u32 {
    w >> 12
}

/// The sign-extended 21-bit J-type jump offset of a word, as a bit pattern.
pub open spec fn decode_j_imm(w: u32) -> u32 {
    let v = (((w >> 21) & 0x3FF) << 1) | (((w >> 20) & 1) << 11) | (((w >> 12) & 0xFF) << 12) | (((w
        >> 31) & 1) << 20);
    if (w >> 31) & 1 == 1 {
        v | 0xFFE0_0000
    } else {
        v
    }
}

// ---------------------------------------------------------------------------
// Round-trip laws: decoding an encoded word recovers every operand exactly.
// ---------------------------------------------------------------------------
/// Every field of an R-type word decodes back to the value that was packed.
pub proof fn lemma_rtype_round_trip(opcode: u32, rd: u32, func3: u32, rs1: u32, rs2: u32, func7: u32)
    by (bit_vector)
    requires
        opcode < 0x80,
        rd < 32,
        func3 < 8,
        rs1 < 32,
        rs2 < 32,
        func7 < 0x80,
    ensures
        decode_opcode(rtype_word(opcode, rd, func3, rs1, rs2, func7)) == opcode,
        decode_rd(rtype_word(opcode, rd, func3, rs1, rs2, func7)) == rd,
        decode_func3(rtype_word(opcode, rd, func3, rs1, rs2, func7)) == func3,
        decode_rs1(rtype_word(opcode, rd, func3, rs1, rs2, func7)) == rs1,
        decode_rs2(rtype_word(opcode, rd, func3, rs1, rs2, func7)) == rs2,
        decode_func7(rtype_word(opcode, rd, func3, rs1, rs2, func7)) == func7,
{
}

/// Every field of an I-type word, the sign-extended immediate included,
/// decodes back to the value that was packed.
pub proof fn lemma_itype_round_trip(opcode: u32, rd: u32, func3: u32, rs1: u32, imm: u32)
    by (bit_vector)
    requires
        opcode < 0x80,
        rd < 32,
        func3 < 8,
        rs1 < 32,
        fits_i_imm(imm),
    ensures
        decode_opcode(itype_word(opcode, rd, func3, rs1, imm)) == opcode,
        decode_rd(itype_word(opcode, rd, func3, rs1, imm)) == rd,
        decode_func3(itype_word(opcode, rd, func3, rs1, imm)) == func3,
        decode_rs1(itype_word(opcode, rd, func3, rs1, imm)) == rs1,
        decode_i_imm(itype_word(opcode, rd, func3, rs1, imm)) == imm,
{
}

/// Every field of an S-type word, the sign-extended immediate included,
/// decodes back to the value that was packed.
pub proof fn lemma_stype_round_trip(opcode: u32, func3: u32, rs1: u32, rs2: u32, imm: u32)
    by (bit_vector)
    requires
        opcode < 0x80,
        func3 < 8,
        rs1 < 32,
        rs2 < 32,
        fits_s_imm(imm),
    ensures
        decode_opcode(stype_word(opcode, func3, rs1, rs2, imm)) == opcode,
        decode_func3(stype_word(opcode, func3, rs1, rs2, imm)) == func3,
        decode_rs1(stype_word(opcode, func3, rs1, rs2, imm)) == rs1,
        decode_rs2(stype_word(opcode, func3, rs1, rs2, imm)) == rs2,
        decode_s_imm(stype_word(opcode, func3, rs1, rs2, imm)) == imm,
{
}

/// Every field of a B-type word, the scrambled branch offset included,
/// decodes back to the value that was packed.
pub proof fn lemma_btype_round_trip(opcode: u32, func3: u32, rs1: u32, rs2: u32, imm: u32)
    by (bit_vector)
    requires
        opcode < 0x80,
        func3 < 8,
        rs1 < 32,
        rs2 < 32,
        fits_b_imm(imm),
    ensures
        decode_opcode(btype_word(opcode, func3, rs1, rs2, imm)) == opcode,
        decode_func3(btype_word(opcode, func3, rs1, rs2, imm)) == func3,
        decode_rs1(btype_word(opcode, func3, rs1, rs2, imm)) == rs1,
        decode_rs2(btype_word(opcode, func3, rs1, rs2, imm)) == rs2,
        decode_b_imm(btype_word(opcode, func3, rs1, rs2, imm)) == imm,
{
}

/// Every field of a U-type word decodes back to the value that was packed
/// (the raw 20-bit field, for non-negative fields).
pub proof fn lemma_utype_round_trip(opcode: u32, rd: u32, imm: u32)
    by (bit_vector)
    requires
        opcode < 0x80,
        rd < 32,
        imm < 0x10_0000,
    ensures
        decode_opcode(utype_word(opcode, rd, imm)) == opcode,
        decode_rd(utype_word(opcode, rd, imm)) == rd,
        decode_u_imm(utype_word(opcode, rd, imm)) == imm,
{
}

/// Every field of a J-type word, the scrambled jump offset included,
/// decodes back to the value that was packed.
pub proof fn lemma_jtype_round_trip(opcode: u32, rd: u32, imm: u32)
    by (bit_vector)
    requires
        opcode < 0x80,
        rd < 32,
        fits_j_imm(imm),
    ensures
        decode_opcode(jtype_word(opcode, rd, imm)) == opcode,
        decode_rd(jtype_word(opcode, rd, imm)) == rd,
        decode_j_imm(jtype_word(opcode, rd, imm)) == imm,
{
}

} // verus!
