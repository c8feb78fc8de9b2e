//! Splitting program text into lines and lines into tokens.
//!
//! A line is everything between two line feeds.  Within a line, whitespace
//! and commas separate tokens, and a `#` or `;` starts a comment that runs
//! to the end of the line.  Tokens are never empty.

use vstd::prelude::*;

verus! {

/// Characters that separate tokens: spaces, tabs, carriage returns, commas.
pub open spec fn is_delim(c: char) -> bool {
    c == ' ' || c == '\t' || c == '\r' || c == ','
}

/// Characters that start a comment running to the end of the line.
pub open spec fn is_comment_start(c: char) -> bool {
    c == '#' || c == ';'
}

/// The tokens of `s` from index `i` on, where `s[start..i]` is the token
/// currently being scanned (empty when `start == i`) and `acc` holds the
/// tokens already found.
pub open spec fn spec_tokenize_from(s: Seq<char>, i: int, start: int, acc: Seq<Seq<char>>) -> Seq<
    Seq<char>,
>
    decreases s.len() - i,
{
    if i < 0 || i > s.len() || start < 0 || start > i {
        acc
    } else if i == s.len() || is_comment_start(s[i]) {
        if start < i {
            acc.push(s.subrange(start, i))
        } else {
            acc
        }
    } else if is_delim(s[i]) {
        spec_tokenize_from(
            s,
            i + 1,
            i + 1,
            if start < i {
                acc.push(s.subrange(start, i))
            } else {
                acc
            },
        )
    } else {
        spec_tokenize_from(s, i + 1, start, acc)
    }
}

/// The tokens of one source line: maximal runs of non-delimiter characters
/// before any comment, in order.
pub open spec fn spec_tokenize(s: Seq<char>) -> Seq<Seq<char>> {
    spec_tokenize_from(s, 0, 0, Seq::empty())
}

/// Split one source line into its tokens.
pub fn tokenize(line: &str) -> (tokens: Vec<String>)
    ensures
        tokens.deep_view() == spec_tokenize(line@),
{
    let n = line.unicode_len();
    let mut tokens: Vec<String> = Vec::new();
    let mut i: usize = 0;
    let mut start: usize = 0;
    proof {
        assert(tokens.deep_view() =~= Seq::<Seq<char>>::empty());
    }
    loop
        invariant_except_break
            spec_tokenize(line@) == spec_tokenize_from(
                line@,
                i as int,
                start as int,
                tokens.deep_view(),
            ),
        invariant
            start <= i <= n,
            n == line@.len(),
        ensures
            tokens.deep_view() == spec_tokenize(line@),
        decreases n - i,
    {
        let ghost prev = tokens.deep_view();
        if i == n {
            if start < i {
                let t = line.substring_char(start, i).to_owned();
                tokens.push(t);
                proof {
                    assert(tokens.deep_view() =~= prev.push(
                        line@.subrange(start as int, i as int),
                    ));
                }
            }
            break ;
        }
        let c = line.get_char(i);
        if c == '#' || c == ';' {
            if start < i {
                let t = line.substring_char(start, i).to_owned();
                tokens.push(t);
                proof {
                    assert(tokens.deep_view() =~= prev.push(
                        line@.subrange(start as int, i as int),
                    ));
                }
            }
            break ;
        } else if c == ' ' || c == '\t' || c == '\r' || c == ',' {
            if start < i {
                let t = line.substring_char(start, i).to_owned();
                tokens.push(t);
                proof {
                    assert(tokens.deep_view() =~= prev.push(
                        line@.subrange(start as int, i as int),
                    ));
                }
            }
            i = i + 1;
            start = i;
        } else {
            i = i + 1;
        }
    }
    tokens
}

/// The lines of `s` from index `i` on, where `s[start..i]` is the line
/// currently being scanned and `acc` holds the lines already finished.
/// Every program has one more line than it has line feeds.
pub open spec fn spec_lines_from(s: Seq<char>, i: int, start: int, acc: Seq<Seq<char>>) -> Seq<
    Seq<char>,
>
    decreases s.len() - i,
{
    if i < 0 || i > s.len() || start < 0 || start > i {
        acc
    } else if i == s.len() {
        acc.push(s.subrange(start, i))
    } else if s[i] == '\n' {
        spec_lines_from(s, i + 1, i + 1, acc.push(s.subrange(start, i)))
    } else {
        spec_lines_from(s, i + 1, start, acc)
    }
}

/// The lines of a program text, split at line feeds, in order.
pub open spec fn spec_lines(s: Seq<char>) -> Seq<Seq<char>> {
    spec_lines_from(s, 0, 0, Seq::empty())
}

/// Split a program text into its lines.
pub fn split_lines(program: &str) -> (lines: Vec<String>)
    ensures
        lines.deep_view() == spec_lines(program@),
{
    let n = program.unicode_len();
    let mut lines: Vec<String> = Vec::new();
    let mut i: usize = 0;
    let mut start: usize = 0;
    proof {
        assert(lines.deep_view() =~= Seq::<Seq<char>>::empty());
    }
    loop
        invariant_except_break
            spec_lines(program@) == spec_lines_from(
                program@,
                i as int,
                start as int,
                lines.deep_view(),
            ),
        invariant
            start <= i <= n,
            n == program@.len(),
        ensures
            lines.deep_view() == spec_lines(program@),
        decreases n - i,
    {
        let ghost prev = lines.deep_view();
        if i == n {
            let t = program.substring_char(start, i).to_owned();
            lines.push(t);
            proof {
                assert(lines.deep_view() =~= prev.push(program@.subrange(start as int, i as int)));
            }
            break ;
        }
        let c = program.get_char(i);
        if c == '\n' {
            let t = program.substring_char(start, i).to_owned();
            lines.push(t);
            proof {
                assert(lines.deep_view() =~= prev.push(program@.subrange(start as int, i as int)));
            }
            i = i + 1;
            start = i;
        } else {
            i = i + 1;
        }
    }
    lines
}

/// Compare two string slices by their character sequences.
pub fn str_eq(a: &str, b: &str) -> (r: bool)
    ensures
        r == (a@ == b@),
{
    let sa = a.to_owned();
    let sb = b.to_owned();
    sa == sb
}

} // verus!
