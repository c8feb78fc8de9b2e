//! The error taxonomy of the assembler.

use vstd::prelude::*;

verus! {

/// Everything that can go wrong while assembling one program.
///
/// The first error found aborts the whole assembly; no partial output is
/// ever returned.
#[derive(Clone, Copy, Debug, PartialEq, Eq, Structural)]
pub enum AssemblerError {
    /// A line holds more than five tokens.
    TooManyTokensError,
    /// An instruction line holds fewer tokens than its format needs.
    TooFewTokensError,
    /// The mnemonic is neither a base instruction nor a pseudo-instruction.
    UnknownMnemonicError,
    /// An operand names no known register, neither `x0`..`x31` nor an ABI alias.
    UnknownRegisterError,
    /// An immediate operand names a label that no line of the program defines.
    UndefinedLabelError,
    /// A literal operand is syntactically numeric but not a 32-bit value.
    ImmediateParseError,
    /// A resolved immediate does not fit the bit field of its format.
    ImmediateRangeError,
}

impl AssemblerError {
    /// A short human-readable name for the error, for the surrounding tooling.
    pub fn describe(&self) -> (r: &'static str)
        ensures
            r@ == self.spec_describe(),
    {
        match self {
            AssemblerError::TooManyTokensError => "too many tokens on one line",
            AssemblerError::TooFewTokensError => "too few tokens for the instruction format",
            AssemblerError::UnknownMnemonicError => "unknown mnemonic",
            AssemblerError::UnknownRegisterError => "unknown register name",
            AssemblerError::UndefinedLabelError => "undefined label",
            AssemblerError::ImmediateParseError => "immediate is not a 32-bit integer",
            AssemblerError::ImmediateRangeError => "immediate does not fit its field",
        }
    }

    /// What `describe` returns for each variant.
    pub open spec fn spec_describe(&self) -> Seq<char> {
        match self {
            AssemblerError::TooManyTokensError => "too many tokens on one line"@,
            AssemblerError::TooFewTokensError => "too few tokens for the instruction format"@,
            AssemblerError::UnknownMnemonicError => "unknown mnemonic"@,
            AssemblerError::UnknownRegisterError => "unknown register name"@,
            AssemblerError::UndefinedLabelError => "undefined label"@,
            AssemblerError::ImmediateParseError => "immediate is not a 32-bit integer"@,
            AssemblerError::ImmediateRangeError => "immediate does not fit its field"@,
        }
    }
}

} // verus!
