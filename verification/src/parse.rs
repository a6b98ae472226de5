//! Parsing one submitted line into a pipeline of invocations.
//!
//! A line is trimmed, split on the literal three-byte separator `" | "`
//! into pieces, and each piece is split on ASCII whitespace into tokens.
//! A piece with no tokens contributes no invocation, so a blank line
//! parses to the empty pipeline. The first token selects the builtin
//! (`cd`, `exit`) or names an external command; the remaining tokens are
//! its arguments (for `cd`, only the first argument is used).
use vstd::prelude::*;

use crate::text::{copy_bytes, is_ws, spec_trim, trim, ws_byte};

verus! {

/// Whether the separator `" | "` occurs in `s` at position `i`.
pub open spec fn sep_at(s: Seq<u8>, i: int) -> bool {
    &&& 0 <= i
    &&& i + 3 <= s.len()
    &&& s[i] == 32
    &&& s[i + 1] == 124
    &&& s[i + 2] == 32
}

/// The pieces of `s` from `start`, scanning for the separator from `cur`:
/// the leftmost occurrence of `" | "` ends a piece, and the separator's
/// bytes belong to no piece.
pub open spec fn split_pieces(s: Seq<u8>, start: int, cur: int) -> Seq<Seq<u8>>
    recommends
        0 <= start <= cur <= s.len(),
    decreases s.len() - cur,
{
    if 0 <= cur && cur + 3 <= s.len() {
        if sep_at(s, cur) {
            seq![s.subrange(start, cur)] + split_pieces(s, cur + 3, cur + 3)
        } else {
            split_pieces(s, start, cur + 1)
        }
    } else {
        seq![s.subrange(start, s.len() as int)]
    }
}

/// `s` split on every occurrence of `" | "`, leftmost-first.
pub open spec fn spec_split_pipe(s: Seq<u8>) -> Seq<Seq<u8>> {
    split_pieces(s, 0, 0)
}

/// The bytes of `s` from `from` to `to`.
pub fn subrange_vec(s: &Vec<u8>, from: usize, to: usize) -> (r: Vec<u8>)
    requires
        0 <= from <= to <= s@.len(),
    ensures
        r@ == s@.subrange(from as int, to as int),
{
    let mut r: Vec<u8> = Vec::new();
    let mut i: usize = from;
    while i < to
        invariant
            from <= i <= to <= s@.len(),
            r@ == s@.subrange(from as int, i as int),
        decreases to - i,
    {
        r.push(s[i]);
        proof {
            assert(s@.subrange(from as int, i as int + 1) == s@.subrange(
                from as int,
                i as int,
            ).push(s@[i as int]));
        }
        i = i + 1;
    }
    r
}

/// Split `s` on every occurrence of the separator `" | "`.
pub fn split_pipe(s: &Vec<u8>) -> (r: Vec<Vec<u8>>)
    ensures
        r.deep_view() == spec_split_pipe(s@),
        r@.len() >= 1,
{
    let mut pieces: Vec<Vec<u8>> = Vec::new();
    let mut start: usize = 0;
    let mut cur: usize = 0;
    while s.len() >= 3 && cur <= s.len() - 3
        invariant
            0 <= start <= cur <= s@.len(),
            spec_split_pipe(s@) == pieces.deep_view() + split_pieces(
                s@,
                start as int,
                cur as int,
            ),
        decreases s@.len() - cur,
    {
        if s[cur] == 32 && s[cur + 1] == 124 && s[cur + 2] == 32 {
            let piece = subrange_vec(s, start, cur);
            let ghost old_dv = pieces.deep_view();
            pieces.push(piece);
            proof {
                assert(pieces.deep_view() =~~= old_dv.push(s@.subrange(
                    start as int,
                    cur as int,
                )));
                assert(old_dv.push(s@.subrange(start as int, cur as int)) + split_pieces(
                    s@,
                    cur as int + 3,
                    cur as int + 3,
                ) =~= old_dv + split_pieces(s@, start as int, cur as int));
            }
            start = cur + 3;
            cur = cur + 3;
        } else {
            assert(!sep_at(s@, cur as int));
            cur = cur + 1;
        }
    }
    let piece = subrange_vec(s, start, s.len());
    let ghost old_dv = pieces.deep_view();
    pieces.push(piece);
    proof {
        assert(pieces.deep_view() =~~= old_dv.push(s@.subrange(start as int, s@.len() as int)));
        assert(old_dv.push(s@.subrange(start as int, s@.len() as int)) =~= old_dv + split_pieces(
            s@,
            start as int,
            cur as int,
        ));
    }
    pieces
}

/// The whitespace-delimited tokens of `s`, scanning from `i`; when
/// `in_tok` holds, a token began at `start` and is still open.
pub open spec fn tok_pieces(s: Seq<u8>, i: int, start: int, in_tok: bool) -> Seq<Seq<u8>>
    recommends
        0 <= start <= i <= s.len(),
    decreases s.len() - i,
{
    if 0 <= i < s.len() {
        if is_ws(s[i]) {
            if in_tok {
                seq![s.subrange(start, i)] + tok_pieces(s, i + 1, i + 1, false)
            } else {
                tok_pieces(s, i + 1, i + 1, false)
            }
        } else {
            if in_tok {
                tok_pieces(s, i + 1, start, true)
            } else {
                tok_pieces(s, i + 1, i, true)
            }
        }
    } else {
        if in_tok {
            seq![s.subrange(start, s.len() as int)]
        } else {
            Seq::empty()
        }
    }
}

/// The whitespace-delimited tokens of `s`, in order.
pub open spec fn spec_tokens(s: Seq<u8>) -> Seq<Seq<u8>> {
    tok_pieces(s, 0, 0, false)
}

/// Split `s` on ASCII whitespace into its tokens.
pub fn tokens(s: &Vec<u8>) -> (r: Vec<Vec<u8>>)
    ensures
        r.deep_view() == spec_tokens(s@),
{
    let mut toks: Vec<Vec<u8>> = Vec::new();
    let mut i: usize = 0;
    let mut start: usize = 0;
    let mut in_tok: bool = false;
    while i < s.len()
        invariant
            0 <= start <= i <= s@.len(),
            spec_tokens(s@) == toks.deep_view() + tok_pieces(
                s@,
                i as int,
                start as int,
                in_tok,
            ),
        decreases s@.len() - i,
    {
        if ws_byte(s[i]) {
            if in_tok {
                let tok = subrange_vec(s, start, i);
                let ghost old_dv = toks.deep_view();
                toks.push(tok);
                proof {
                    assert(toks.deep_view() =~~= old_dv.push(s@.subrange(
                        start as int,
                        i as int,
                    )));
                    assert(old_dv.push(s@.subrange(start as int, i as int)) + tok_pieces(
                        s@,
                        i as int + 1,
                        i as int + 1,
                        false,
                    ) =~= old_dv + tok_pieces(s@, i as int, start as int, true));
                }
                in_tok = false;
            }
            start = i + 1;
            i = i + 1;
        } else {
            if !in_tok {
                start = i;
                in_tok = true;
            }
            i = i + 1;
        }
    }
    if in_tok {
        let tok = subrange_vec(s, start, s.len());
        let ghost old_dv = toks.deep_view();
        toks.push(tok);
        proof {
            assert(toks.deep_view() =~~= old_dv.push(s@.subrange(start as int, s@.len() as int)));
            assert(old_dv.push(s@.subrange(start as int, s@.len() as int)) =~= old_dv
                + tok_pieces(s@, i as int, start as int, true));
        }
    } else {
        proof {
            assert(toks.deep_view() =~= toks.deep_view() + tok_pieces(
                s@,
                i as int,
                start as int,
                false,
            ));
        }
    }
    toks
}

/// The bytes of the builtin name `cd`.
pub open spec fn cd_name() -> Seq<u8> {
    seq![99u8, 100u8]
}

/// The bytes of the builtin name `exit`.
pub open spec fn exit_name() -> Seq<u8> {
    seq![101u8, 120u8, 105u8, 116u8]
}

/// Mathematical model of one invocation of a pipeline.
pub enum SpecInv {
    /// The `cd` builtin with its optional target argument.
    Cd { arg: Option<Seq<u8>> },
    /// The `exit` builtin.
    Exit,
    /// An external command with its arguments.
    External { name: Seq<u8>, args: Seq<Seq<u8>> },
}

/// One invocation of a pipeline: a builtin, or an external command name
/// with its arguments.
#[derive(Debug, PartialEq, Eq)]
pub enum Invocation {
    /// The `cd` builtin with its optional target argument.
    Cd { arg: Option<Vec<u8>> },
    /// The `exit` builtin.
    Exit,
    /// An external command with its arguments.
    External { name: Vec<u8>, args: Vec<Vec<u8>> },
}

impl View for Invocation {
    type V = SpecInv;

    open spec fn view(&self) -> SpecInv {
        match self {
            Invocation::Cd { arg: Some(a) } => SpecInv::Cd { arg: Some(a@) },
            Invocation::Cd { arg: None } => SpecInv::Cd { arg: None },
            Invocation::Exit => SpecInv::Exit,
            Invocation::External { name, args } => SpecInv::External {
                name: name@,
                args: args.deep_view(),
            },
        }
    }
}

impl DeepView for Invocation {
    type V = SpecInv;

    open spec fn deep_view(&self) -> SpecInv {
        self.view()
    }
}

/// The invocation named by a non-empty token list: `cd` takes its first
/// argument if any (further arguments are ignored), `exit` takes none,
/// and any other first token is an external command with the remaining
/// tokens as its arguments.
pub open spec fn inv_of_tokens(toks: Seq<Seq<u8>>) -> SpecInv
    recommends
        toks.len() > 0,
{
    if toks[0] == cd_name() {
        SpecInv::Cd {
            arg: if toks.len() >= 2 {
                Some(toks[1])
            } else {
                None
            },
        }
    } else if toks[0] == exit_name() {
        SpecInv::Exit
    } else {
        SpecInv::External { name: toks[0], args: toks.skip(1) }
    }
}

/// The invocations of the pieces from index `i` on; a piece without
/// tokens contributes nothing.
pub open spec fn invs_from(pieces: Seq<Seq<u8>>, i: int) -> Seq<SpecInv>
    decreases pieces.len() - i,
{
    if 0 <= i < pieces.len() {
        let t = spec_tokens(pieces[i]);
        if t.len() == 0 {
            invs_from(pieces, i + 1)
        } else {
            seq![inv_of_tokens(t)] + invs_from(pieces, i + 1)
        }
    } else {
        Seq::empty()
    }
}

/// The pipeline denoted by a submitted line: trim it, split it on
/// `" | "`, and read each non-blank piece as one invocation.
pub open spec fn spec_parse(line: Seq<u8>) -> Seq<SpecInv> {
    invs_from(spec_split_pipe(spec_trim(line)), 0)
}

/// Whether the token is the builtin name `cd`.
pub fn is_cd(tok: &Vec<u8>) -> (r: bool)
    ensures
        r <==> tok@ == cd_name(),
{
    if tok.len() == 2 && tok[0] == 99 && tok[1] == 100 {
        proof {
            assert(tok@ =~= cd_name());
        }
        true
    } else {
        proof {
            if tok@ == cd_name() {
                assert(tok@.len() == 2 && tok@[0] == 99 && tok@[1] == 100);
            }
        }
        false
    }
}

/// Whether the token is the builtin name `exit`.
pub fn is_exit(tok: &Vec<u8>) -> (r: bool)
    ensures
        r <==> tok@ == exit_name(),
{
    if tok.len() == 4 && tok[0] == 101 && tok[1] == 120 && tok[2] == 105 && tok[3] == 116 {
        proof {
            assert(tok@ =~= exit_name());
        }
        true
    } else {
        proof {
            if tok@ == exit_name() {
                assert(tok@.len() == 4 && tok@[0] == 101 && tok@[1] == 120 && tok@[2] == 105
                    && tok@[3] == 116);
            }
        }
        false
    }
}

/// Build the invocation of a non-empty token list.
fn build_invocation(toks: &Vec<Vec<u8>>) -> (r: Invocation)
    requires
        toks@.len() > 0,
    ensures
        r@ == inv_of_tokens(toks.deep_view()),
{
    proof {
        assert(toks.deep_view()[0] =~= toks@[0]@);
        if toks@.len() >= 2 {
            assert(toks.deep_view()[1] =~= toks@[1]@);
        }
    }
    let first = &toks[0];
    if is_cd(first) {
        if toks.len() >= 2 {
            let arg = copy_bytes(&toks[1]);
            Invocation::Cd { arg: Some(arg) }
        } else {
            Invocation::Cd { arg: None }
        }
    } else if is_exit(first) {
        Invocation::Exit
    } else {
        let name = copy_bytes(first);
        let mut args: Vec<Vec<u8>> = Vec::new();
        let mut j: usize = 1;
        while j < toks.len()
            invariant
                1 <= j <= toks@.len(),
                args.deep_view() =~~= toks.deep_view().subrange(1, j as int),
            decreases toks@.len() - j,
        {
            let a = copy_bytes(&toks[j]);
            let ghost old_dv = args.deep_view();
            args.push(a);
            proof {
                assert(args.deep_view() =~~= old_dv.push(toks@[j as int]@));
                assert(toks.deep_view().subrange(1, j as int + 1) =~~= old_dv.push(
                    toks@[j as int]@,
                ));
            }
            j = j + 1;
        }
        proof {
            assert(args.deep_view() =~~= toks.deep_view().skip(1));
        }
        Invocation::External { name, args }
    }
}

/// Parse a submitted line into its pipeline of invocations.
pub fn parse_line(line: &Vec<u8>) -> (r: Vec<Invocation>)
    ensures
        r.deep_view() == spec_parse(line@),
{
    let trimmed = trim(line);
    let pieces = split_pipe(&trimmed);
    let ghost ps = pieces.deep_view();
    let mut invs: Vec<Invocation> = Vec::new();
    proof {
        assert(Seq::<SpecInv>::empty() + invs_from(ps, 0) =~= invs_from(ps, 0));
        assert(invs.deep_view() =~= Seq::<SpecInv>::empty());
    }
    let mut i: usize = 0;
    while i < pieces.len()
        invariant
            0 <= i <= pieces@.len(),
            ps == pieces.deep_view(),
            spec_parse(line@) == invs.deep_view() + invs_from(ps, i as int),
        decreases pieces@.len() - i,
    {
        let toks = tokens(&pieces[i]);
        proof {
            assert(pieces@[i as int].deep_view() =~= pieces@[i as int]@);
            assert(toks.deep_view() == spec_tokens(ps[i as int]));
        }
        if toks.len() > 0 {
            let inv = build_invocation(&toks);
            let ghost old_dv = invs.deep_view();
            invs.push(inv);
            proof {
                assert(invs.deep_view() =~~= old_dv.push(inv_of_tokens(toks.deep_view())));
                assert(old_dv.push(inv_of_tokens(toks.deep_view())) + invs_from(ps, i as int + 1)
                    =~= old_dv + invs_from(ps, i as int));
            }
        }
        i = i + 1;
    }
    proof {
        assert(invs.deep_view() + invs_from(ps, i as int) =~= invs.deep_view());
    }
    invs
}

} // verus!
