//! Pseudo-instruction expansion: purely syntactic rewriting of one
//! instruction's tokens into base-instruction tokens.
//!
//! Every recognized pseudo-instruction expands to exactly one base
//! instruction, so the one-word-per-instruction-line count that the label
//! resolver relies on is exact.  A pseudo mnemonic with the wrong operand
//! count, and any unrecognized mnemonic, passes through unchanged and is
//! judged by the encoder.  Label operands pass through verbatim.

use vstd::prelude::*;

verus! {

/// The recognized pseudo-instruction mnemonics.
pub open spec fn is_pseudo_mnemonic(m: Seq<char>) -> bool {
    m == "nop"@ || m == "mv"@ || m == "not"@ || m == "neg"@ || m == "seqz"@ || m == "snez"@ || m
        == "j"@ || m == "jr"@ || m == "ret"@ || m == "beqz"@ || m == "bnez"@
}

/// The base-instruction tokens one instruction's tokens stand for.
pub open spec fn spec_rewrite(toks: Seq<Seq<char>>) -> Seq<Seq<char>> {
    if toks.len() == 1 && toks[0] == "nop"@ {
        seq!["addi"@, "x0"@, "x0"@, "0"@]
    } else if toks.len() == 3 && toks[0] == "mv"@ {
        seq!["addi"@, toks[1], toks[2], "0"@]
    } else if toks.len() == 3 && toks[0] == "not"@ {
        seq!["xori"@, toks[1], toks[2], "-1"@]
    } else if toks.len() == 3 && toks[0] == "neg"@ {
        seq!["sub"@, toks[1], "x0"@, toks[2]]
    } else if toks.len() == 3 && toks[0] == "seqz"@ {
        seq!["sltiu"@, toks[1], toks[2], "1"@]
    } else if toks.len() == 3 && toks[0] == "snez"@ {
        seq!["sltu"@, toks[1], "x0"@, toks[2]]
    } else if toks.len() == 2 && toks[0] == "j"@ {
        seq!["jal"@, "x0"@, toks[1]]
    } else if toks.len() == 2 && toks[0] == "jr"@ {
        seq!["jalr"@, "x0"@, toks[1], "0"@]
    } else if toks.len() == 1 && toks[0] == "ret"@ {
        seq!["jalr"@, "x0"@, "ra"@, "0"@]
    } else if toks.len() == 3 && toks[0] == "beqz"@ {
        seq!["beq"@, toks[1], "x0"@, toks[2]]
    } else if toks.len() == 3 && toks[0] == "bnez"@ {
        seq!["bne"@, toks[1], "x0"@, toks[2]]
    } else {
        toks
    }
}

/// The ordered base instructions one instruction's tokens expand to.
/// Expansion here is always one instruction long.
pub open spec fn spec_expand(toks: Seq<Seq<char>>) -> Seq<Seq<Seq<char>>> {
    seq![spec_rewrite(toks)]
}

/// Rewrite one instruction's tokens into the equivalent base-instruction
/// token sequences, one `Vec<String>` per base instruction.
pub fn transform_pseudo(toks: &Vec<String>) -> (r: Vec<Vec<String>>)
    ensures
        r.deep_view() == spec_expand(toks.deep_view()),
{
    let rewritten = rewrite(toks);
    let mut r: Vec<Vec<String>> = Vec::new();
    r.push(rewritten);
    proof {
        assert(r.deep_view() =~~= spec_expand(toks.deep_view()));
    }
    r
}

/// Rewrite one recognized pseudo-instruction, or hand the tokens back.
fn rewrite(toks: &Vec<String>) -> (r: Vec<String>)
    ensures
        r.deep_view() == spec_rewrite(toks.deep_view()),
{
    let n = toks.len();
    let mut r: Vec<String> = Vec::new();
    if n == 1 && crate::text::str_eq(toks[0].as_str(), "nop") {
        r.push(String::from_str("addi"));
        r.push(String::from_str("x0"));
        r.push(String::from_str("x0"));
        r.push(String::from_str("0"));
    } else if n == 3 && crate::text::str_eq(toks[0].as_str(), "mv") {
        r.push(String::from_str("addi"));
        r.push(toks[1].clone());
        r.push(toks[2].clone());
        r.push(String::from_str("0"));
    } else if n == 3 && crate::text::str_eq(toks[0].as_str(), "not") {
        r.push(String::from_str("xori"));
        r.push(toks[1].clone());
        r.push(toks[2].clone());
        r.push(String::from_str("-1"));
    } else if n == 3 && crate::text::str_eq(toks[0].as_str(), "neg") {
        r.push(String::from_str("sub"));
        r.push(toks[1].clone());
        r.push(String::from_str("x0"));
        r.push(toks[2].clone());
    } else if n == 3 && crate::text::str_eq(toks[0].as_str(), "seqz") {
        r.push(String::from_str("sltiu"));
        r.push(toks[1].clone());
        r.push(toks[2].clone());
        r.push(String::from_str("1"));
    } else if n == 3 && crate::text::str_eq(toks[0].as_str(), "snez") {
        r.push(String::from_str("sltu"));
        r.push(toks[1].clone());
        r.push(String::from_str("x0"));
        r.push(toks[2].clone());
    } else if n == 2 && crate::text::str_eq(toks[0].as_str(), "j") {
        r.push(String::from_str("jal"));
        r.push(String::from_str("x0"));
        r.push(toks[1].clone());
    } else if n == 2 && crate::text::str_eq(toks[0].as_str(), "jr") {
        r.push(String::from_str("jalr"));
        r.push(String::from_str("x0"));
        r.push(toks[1].clone());
        r.push(String::from_str("0"));
    } else if n == 1 && crate::text::str_eq(toks[0].as_str(), "ret") {
        r.push(String::from_str("jalr"));
        r.push(String::from_str("x0"));
        r.push(String::from_str("ra"));
        r.push(String::from_str("0"));
    } else if n == 3 && crate::text::str_eq(toks[0].as_str(), "beqz") {
        r.push(String::from_str("beq"));
        r.push(toks[1].clone());
        r.push(String::from_str("x0"));
        r.push(toks[2].clone());
    } else if n == 3 && crate::text::str_eq(toks[0].as_str(), "bnez") {
        r.push(String::from_str("bne"));
        r.push(toks[1].clone());
        r.push(String::from_str("x0"));
        r.push(toks[2].clone());
    } else {
        let mut i: usize = 0;
        while i < n
            invariant
                i <= n,
                n == toks@.len(),
                r.deep_view() =~= toks.deep_view().take(i as int),
            decreases n - i,
        {
            let ghost prev = r.deep_view();
            r.push(toks[i].clone());
            i = i + 1;
            proof {
                assert(r.deep_view() =~= prev.push(toks@[i - 1]@));
                assert(r.deep_view() =~= toks.deep_view().take(i as int));
            }
        }
        proof {
            assert(toks.deep_view().take(n as int) =~= toks.deep_view());
            assert(r.deep_view() =~= spec_rewrite(toks.deep_view()));
        }
        return r;
    }
    proof {
        assert(r.deep_view() =~= spec_rewrite(toks.deep_view()));
    }
    r
}

} // verus!
