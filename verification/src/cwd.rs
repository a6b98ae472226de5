//! The `cd` builtin's working-directory state machine.
//!
//! The shell keeps two process-wide paths: the current directory and the
//! directory that was current before the most recent `cd`. A `cd` call
//! first *decides* a target path from the state, the home directory and
//! the optional argument (`cd_decide`); the caller then attempts to enter
//! that target, and *commits* the outcome (`cd_commit`), which yields the
//! next state. A failed attempt never changes the current directory.
use vstd::prelude::*;

verus! {

/// The bytes of the path argument `~`.
pub open spec fn tilde_name() -> Seq<u8> {
    seq![126u8]
}

/// The bytes of the path argument `-`.
pub open spec fn dash_name() -> Seq<u8> {
    seq![45u8]
}

/// Mathematical model of the working-directory state.
pub struct SpecDirState {
    /// The current working directory.
    pub current: Seq<u8>,
    /// The directory that was current before the most recent `cd`.
    pub previous: Seq<u8>,
}

/// The working-directory state: the current directory and the directory
/// that was current before the most recent `cd`.
#[derive(Debug, PartialEq, Eq, Clone)]
pub struct DirState {
    /// The current working directory.
    pub current: Vec<u8>,
    /// The directory that was current before the most recent `cd`.
    pub previous: Vec<u8>,
}

impl View for DirState {
    type V = SpecDirState;

    open spec fn view(&self) -> SpecDirState {
        SpecDirState { current: self.current@, previous: self.previous@ }
    }
}

/// How a `cd` target was chosen; a failed attempt is repaired differently
/// for a plain path than for the other forms.
#[derive(Clone, Copy, PartialEq, Eq, Structural, Debug)]
pub enum CdKind {
    /// The argument names the current directory (or is `~` while already
    /// home): toggle back to the previous directory.
    Toggle,
    /// The argument is `~`: go to the home directory.
    Home,
    /// The argument is `-`: go to the previous directory.
    Back,
    /// Any other argument: go to that path.
    Path,
}

/// The argument a `cd` call acts on: the home directory when absent.
pub open spec fn effective_arg(home: Seq<u8>, arg: Option<Seq<u8>>) -> Seq<u8> {
    match arg {
        None => home,
        Some(a) => a,
    }
}

/// Which row of the `cd` decision table applies.
pub open spec fn spec_cd_kind(st: SpecDirState, home: Seq<u8>, arg: Option<Seq<u8>>) -> CdKind {
    let a = effective_arg(home, arg);
    if a == st.current || (a == tilde_name() && st.current == home) {
        CdKind::Toggle
    } else if a == tilde_name() {
        CdKind::Home
    } else if a == dash_name() {
        CdKind::Back
    } else {
        CdKind::Path
    }
}

/// The path a `cd` call attempts to enter.
pub open spec fn spec_cd_target(st: SpecDirState, home: Seq<u8>, arg: Option<Seq<u8>>) -> Seq<
    u8,
> {
    match spec_cd_kind(st, home, arg) {
        CdKind::Toggle => st.previous,
        CdKind::Home => home,
        CdKind::Back => st.previous,
        CdKind::Path => effective_arg(home, arg),
    }
}

/// The state after a `cd` whose attempt to enter `target` succeeded
/// (`ok`) or failed. On success the old current directory becomes the
/// previous one. On failure the current directory is unchanged; for a
/// plain path the previous directory is kept too, while the other forms
/// record the unchanged current directory as previous.
pub open spec fn spec_cd_apply(st: SpecDirState, kind: CdKind, target: Seq<u8>, ok: bool) -> SpecDirState {
    if ok {
        SpecDirState { current: target, previous: st.current }
    } else if kind == CdKind::Path {
        st
    } else {
        SpecDirState { current: st.current, previous: st.current }
    }
}

/// The state after one whole `cd` call.
pub open spec fn spec_cd_next(
    st: SpecDirState,
    home: Seq<u8>,
    arg: Option<Seq<u8>>,
    ok: bool,
) -> SpecDirState {
    spec_cd_apply(st, spec_cd_kind(st, home, arg), spec_cd_target(st, home, arg), ok)
}

/// View of an optional borrowed path argument.
pub open spec fn opt_arg_view(arg: Option<&Vec<u8>>) -> Option<Seq<u8>> {
    match arg {
        None => None,
        Some(a) => Some(a@),
    }
}

/// The decided row and target of one `cd` call.
#[derive(Debug, PartialEq, Eq)]
pub struct CdPlan {
    /// Which row of the decision table applied.
    pub kind: CdKind,
    /// The path to attempt to enter.
    pub target: Vec<u8>,
}

fn is_single(tok: &Vec<u8>, b: u8) -> (r: bool)
    ensures
        r <==> tok@ == seq![b],
{
    if tok.len() == 1 && tok[0] == b {
        proof {
            assert(tok@ =~= seq![b]);
        }
        true
    } else {
        proof {
            if tok@ == seq![b] {
                assert(tok@.len() == 1 && tok@[0] == b);
            }
        }
        false
    }
}

/// Decide which row of the `cd` table applies and which path to attempt.
pub fn cd_decide(st: &DirState, home: &Vec<u8>, arg: Option<&Vec<u8>>) -> (p: CdPlan)
    ensures
        p.kind == spec_cd_kind(st@, home@, opt_arg_view(arg)),
        p.target@ == spec_cd_target(st@, home@, opt_arg_view(arg)),
{
    let a: &Vec<u8> = match arg {
        Some(a) => a,
        None => home,
    };
    proof {
        assert(a@ == effective_arg(home@, opt_arg_view(arg)));
    }
    if crate::text::bytes_eq(a, &st.current) || (is_single(a, 126) && crate::text::bytes_eq(
        &st.current,
        home,
    )) {
        CdPlan { kind: CdKind::Toggle, target: crate::text::copy_bytes(&st.previous) }
    } else if is_single(a, 126) {
        CdPlan { kind: CdKind::Home, target: crate::text::copy_bytes(home) }
    } else if is_single(a, 45) {
        CdPlan { kind: CdKind::Back, target: crate::text::copy_bytes(&st.previous) }
    } else {
        CdPlan { kind: CdKind::Path, target: crate::text::copy_bytes(a) }
    }
}

/// Commit the outcome of the attempt to enter the planned target.
pub fn cd_commit(st: &DirState, plan: &CdPlan, ok: bool) -> (r: DirState)
    ensures
        r@ == spec_cd_apply(st@, plan.kind, plan.target@, ok),
{
    if ok {
        DirState {
            current: crate::text::copy_bytes(&plan.target),
            previous: crate::text::copy_bytes(&st.current),
        }
    } else if plan.kind == CdKind::Path {
        DirState {
            current: crate::text::copy_bytes(&st.current),
            previous: crate::text::copy_bytes(&st.previous),
        }
    } else {
        DirState {
            current: crate::text::copy_bytes(&st.current),
            previous: crate::text::copy_bytes(&st.current),
        }
    }
}

/// A successful `cd` followed by a successful `cd -` restores the
/// working directory that was current before the first `cd`.
pub proof fn lemma_cd_then_dash_restores(
    st: SpecDirState,
    home: Seq<u8>,
    arg: Option<Seq<u8>>,
)
    ensures
        spec_cd_next(spec_cd_next(st, home, arg, true), home, Some(dash_name()), true).current
            == st.current,
{
    assert(dash_name()[0] != tilde_name()[0]);
}

/// `cd` to the directory that is already current behaves exactly like
/// `cd -`: it toggles to the previous directory, whether or not the
/// attempt succeeds.
pub proof fn lemma_cd_same_is_cd_dash(st: SpecDirState, home: Seq<u8>, ok: bool)
    ensures
        spec_cd_next(st, home, Some(st.current), ok) == spec_cd_next(
            st,
            home,
            Some(dash_name()),
            ok,
        ),
{
    assert(dash_name()[0] != tilde_name()[0]);
}

/// `cd` with no argument goes to the home directory, provided the shell
/// is not already there (then it toggles) and the home path is not the
/// literal name `-`.
pub proof fn lemma_cd_no_arg_goes_home(st: SpecDirState, home: Seq<u8>)
    requires
        st.current != home,
        home != dash_name(),
    ensures
        spec_cd_next(st, home, None, true).current == home,
        spec_cd_next(st, home, None, true).previous == st.current,
{
}

/// A failed `cd` never changes the current directory, and after any
/// successful `cd` the previous directory is exactly the directory that
/// was current when the call began.
pub proof fn lemma_cd_failure_and_previous(
    st: SpecDirState,
    home: Seq<u8>,
    arg: Option<Seq<u8>>,
    ok: bool,
)
    ensures
        !ok ==> spec_cd_next(st, home, arg, ok).current == st.current,
        ok ==> spec_cd_next(st, home, arg, ok).previous == st.current,
{
}

} // verus!
