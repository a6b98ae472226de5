//! The context-aware completion state machine.
//!
//! On every refresh event the line editor classifies the cursor into one
//! of five shapes; the shell then decides whether filename completion is
//! active. The cursor sits over the line's first token (the command
//! name, for which the shell offers no candidates) exactly when it is at
//! offset 0 inside or at the edge of a word, or in whitespace with no
//! word to its left; every other position completes an argument, so
//! filename candidates from the working directory apply.
use vstd::prelude::*;

use crate::text::{spec_starts_with, starts_with};

verus! {

/// Where the cursor sits, as the line editor classifies it on each
/// refresh event.
#[derive(Clone, Copy, PartialEq, Eq, Structural, Debug)]
pub enum CursorShape {
    /// Inside a word, `offset` bytes into the line's words.
    InWord { offset: usize },
    /// In whitespace; `word_to_left` says whether a word stands
    /// somewhere to the cursor's left.
    InSpace { word_to_left: bool },
    /// On the left edge of a word at this offset.
    OnWordLeftEdge { offset: usize },
    /// On the right edge of a word at this offset.
    OnWordRightEdge { offset: usize },
}

/// Whether filename completion is active.
#[derive(Clone, Copy, PartialEq, Eq, Structural, Debug)]
pub enum CompletionMode {
    /// Complete filesystem paths from the working directory.
    Filename,
    /// Offer no candidates (the cursor is on the command name).
    NoCompletion,
}

/// The completion mode each cursor shape selects.
pub open spec fn spec_completion_mode(c: CursorShape) -> CompletionMode {
    match c {
        CursorShape::InWord { offset } => if offset > 0 {
            CompletionMode::Filename
        } else {
            CompletionMode::NoCompletion
        },
        CursorShape::InSpace { word_to_left } => if word_to_left {
            CompletionMode::Filename
        } else {
            CompletionMode::NoCompletion
        },
        CursorShape::OnWordLeftEdge { offset } => if offset >= 1 {
            CompletionMode::Filename
        } else {
            CompletionMode::NoCompletion
        },
        CursorShape::OnWordRightEdge { offset } => if offset >= 1 {
            CompletionMode::Filename
        } else {
            CompletionMode::NoCompletion
        },
    }
}

/// Decide, for one refresh event, whether filename completion is active.
pub fn completion_mode(c: &CursorShape) -> (m: CompletionMode)
    ensures
        m == spec_completion_mode(*c),
{
    match c {
        CursorShape::InWord { offset } => if *offset > 0 {
            CompletionMode::Filename
        } else {
            CompletionMode::NoCompletion
        },
        CursorShape::InSpace { word_to_left } => if *word_to_left {
            CompletionMode::Filename
        } else {
            CompletionMode::NoCompletion
        },
        CursorShape::OnWordLeftEdge { offset } => if *offset >= 1 {
            CompletionMode::Filename
        } else {
            CompletionMode::NoCompletion
        },
        CursorShape::OnWordRightEdge { offset } => if *offset >= 1 {
            CompletionMode::Filename
        } else {
            CompletionMode::NoCompletion
        },
    }
}

/// The candidates offered for one refresh event: none at all when
/// completion is inactive, and otherwise the entries of the working
/// directory that start with the typed prefix, in the order given.
pub fn candidates(mode: CompletionMode, entries: &Vec<Vec<u8>>, prefix: &Vec<u8>) -> (r: Vec<
    Vec<u8>,
>)
    ensures
        mode == CompletionMode::NoCompletion ==> r.deep_view() == Seq::<Seq<u8>>::empty(),
        mode == CompletionMode::Filename ==> r.deep_view() == spec_matching(
            entries.deep_view(),
            prefix@,
        ),
{
    match mode {
        CompletionMode::NoCompletion => {
            let r: Vec<Vec<u8>> = Vec::new();
            proof {
                assert(r.deep_view() =~= Seq::<Seq<u8>>::empty());
            }
            r
        },
        CompletionMode::Filename => filter_prefix(entries, prefix),
    }
}

/// The entries that start with `prefix`, keeping their order.
pub open spec fn spec_matching(entries: Seq<Seq<u8>>, prefix: Seq<u8>) -> Seq<Seq<u8>>
    decreases entries.len(),
{
    if entries.len() == 0 {
        Seq::empty()
    } else {
        let rest = spec_matching(entries.drop_last(), prefix);
        if spec_starts_with(entries.last(), prefix) {
            rest.push(entries.last())
        } else {
            rest
        }
    }
}

/// The candidates for filename completion: the directory entries that
/// start with the typed prefix, in the order given.
pub fn filter_prefix(entries: &Vec<Vec<u8>>, prefix: &Vec<u8>) -> (r: Vec<Vec<u8>>)
    ensures
        r.deep_view() == spec_matching(entries.deep_view(), prefix@),
{
    let mut r: Vec<Vec<u8>> = Vec::new();
    proof {
        assert(r.deep_view() =~= Seq::<Seq<u8>>::empty());
        assert(entries.deep_view().subrange(0, 0) =~= Seq::<Seq<u8>>::empty());
    }
    let mut i: usize = 0;
    while i < entries.len()
        invariant
            0 <= i <= entries@.len(),
            r.deep_view() == spec_matching(entries.deep_view().subrange(0, i as int), prefix@),
        decreases entries@.len() - i,
    {
        let ghost pre = entries.deep_view().subrange(0, i as int);
        let ghost pre1 = entries.deep_view().subrange(0, i as int + 1);
        proof {
            assert(pre1.drop_last() =~= pre);
            assert(pre1.last() =~= entries@[i as int]@);
        }
        if starts_with(&entries[i], prefix) {
            let ghost old_dv = r.deep_view();
            let e = crate::text::copy_bytes(&entries[i]);
            r.push(e);
            proof {
                assert(r.deep_view() =~~= old_dv.push(entries@[i as int]@));
                assert(spec_matching(pre1, prefix@) == old_dv.push(pre1.last()));
            }
        }
        i = i + 1;
    }
    proof {
        assert(entries.deep_view().subrange(0, entries@.len() as int) =~= entries.deep_view());
    }
    r
}

} // verus!
