//! Executing one parsed pipeline, one stage at a time.
//!
//! The shell walks the invocations in order, holding at most one live
//! handle to the previous stage's piped output. For an external command
//! the walk emits a spawn request: its stdin comes from the previous
//! handle when one is live and is inherited otherwise; its stdout is
//! piped exactly when the stage is not the last one. The caller performs
//! the spawn and reports whether it succeeded; a failed spawn clears the
//! live handle, so the next stage falls back to inherited stdin. `cd`
//! spawns nothing and clears the handle; `exit` stops the walk at once.
//! After a completed walk the caller must wait on the last live handle
//! before prompting again, and then record the line in history.
use vstd::prelude::*;

use crate::parse::{parse_line, spec_parse, Invocation, SpecInv};
use crate::text::{copy_bytes, spec_trim, trim};

verus! {

/// Mathematical model of one spawn request: which command, and how its
/// standard streams are wired.
pub struct SpecSpawn {
    /// The command name.
    pub name: Seq<u8>,
    /// The arguments, in order.
    pub args: Seq<Seq<u8>>,
    /// Stdin is connected to the previous stage's piped stdout; when
    /// false it is inherited from the interactive session.
    pub stdin_from_prev: bool,
    /// Stdout is captured for the next stage; when false it is inherited.
    pub stdout_piped: bool,
}

/// The spawn request an external invocation produces, given whether a
/// previous handle is live and whether the stage is the pipeline's last.
pub open spec fn spec_stage_spawn(inv: SpecInv, has_prev: bool, is_last: bool) -> SpecSpawn
    recommends
        inv is External,
{
    SpecSpawn {
        name: inv->External_name,
        args: inv->External_args,
        stdin_from_prev: has_prev,
        stdout_piped: !is_last,
    }
}

/// What a whole walk of a pipeline does: the spawn requests it emits, in
/// order, whether a live handle remains at the end (the one the shell
/// must block on), and whether `exit` stopped the walk.
pub struct WalkOut {
    /// The emitted spawn requests, in order.
    pub spawns: Seq<SpecSpawn>,
    /// Whether a handle to the most recently spawned process is live.
    pub has_prev: bool,
    /// Whether the walk was stopped by the `exit` builtin.
    pub exited: bool,
}

/// The walk of `invs` starting with a live handle iff `has_prev`, where
/// the i-th spawn attempt succeeds iff `oks[i]`.
pub open spec fn spec_walk(invs: Seq<SpecInv>, has_prev: bool, oks: Seq<bool>) -> WalkOut
    decreases invs.len(),
{
    if invs.len() == 0 {
        WalkOut { spawns: Seq::empty(), has_prev, exited: false }
    } else {
        match invs[0] {
            SpecInv::External { .. } => {
                let sp = spec_stage_spawn(invs[0], has_prev, invs.len() == 1);
                let ok = oks.len() > 0 && oks[0];
                let rest_oks = if oks.len() > 0 {
                    oks.skip(1)
                } else {
                    oks
                };
                let rest = spec_walk(invs.skip(1), ok, rest_oks);
                WalkOut {
                    spawns: seq![sp] + rest.spawns,
                    has_prev: rest.has_prev,
                    exited: rest.exited,
                }
            },
            SpecInv::Cd { .. } => spec_walk(invs.skip(1), false, oks),
            SpecInv::Exit => WalkOut { spawns: Seq::empty(), has_prev, exited: true },
        }
    }
}

/// One instruction to the shell's host loop.
#[derive(PartialEq, Eq, Debug)]
pub enum Action {
    /// Spawn this external command with the given stream wiring.
    Spawn { name: Vec<u8>, args: Vec<Vec<u8>>, stdin_from_prev: bool, stdout_piped: bool },
    /// Run the `cd` builtin on this argument.
    ChangeDir { arg: Option<Vec<u8>> },
    /// Leave the shell's loop.
    ExitShell,
}

/// View of an optional owned path argument.
pub open spec fn opt_view(arg: Option<Vec<u8>>) -> Option<Seq<u8>> {
    match arg {
        None => None,
        Some(a) => Some(a@),
    }
}

/// The walk of one submitted line, stepped by the host loop: each call
/// of `next_action` yields the next instruction, and each spawn's
/// outcome is reported back through `note_spawn`.
pub struct PipelineRun {
    /// The parsed pipeline.
    pub invs: Vec<Invocation>,
    /// The next stage to act on.
    pub idx: usize,
    /// Whether a handle to the previous stage's piped stdout is live.
    pub has_prev: bool,
    /// Whether `exit` stopped the walk.
    pub exited: bool,
    /// Whether a spawn was requested whose outcome is not yet reported.
    pub pending: bool,
    /// Whether the submitted line was blank (whitespace only).
    pub blank: bool,
}

impl PipelineRun {
    /// The parsed pipeline being walked.
    pub open spec fn invocations(&self) -> Seq<SpecInv> {
        self.invs.deep_view()
    }

    /// The next stage to act on.
    pub open spec fn index(&self) -> int {
        self.idx as int
    }

    /// Whether a handle to the previous stage's piped stdout is live.
    pub open spec fn prev_live(&self) -> bool {
        self.has_prev
    }

    /// Whether `exit` stopped the walk.
    pub open spec fn spec_exited(&self) -> bool {
        self.exited
    }

    /// Whether a requested spawn's outcome is still unreported.
    pub open spec fn pending_spawn(&self) -> bool {
        self.pending
    }

    /// Whether the submitted line was blank.
    pub open spec fn spec_blank(&self) -> bool {
        self.blank
    }

    /// The walk never leaves the pipeline, and a spawn can be pending
    /// only at an external stage.
    pub open spec fn wf(&self) -> bool {
        &&& self.idx <= self.invs@.len()
        &&& (self.pending ==> self.idx < self.invs@.len() && self.invs@[self.idx as int]@
            is External)
    }

    /// Start the walk of one submitted line.
    pub fn new(line: &Vec<u8>) -> (r: PipelineRun)
        ensures
            r.wf(),
            r.invocations() == spec_parse(line@),
            r.index() == 0,
            !r.prev_live(),
            !r.spec_exited(),
            !r.pending_spawn(),
            r.spec_blank() <==> spec_trim(line@).len() == 0,
    {
        let trimmed = trim(line);
        let invs = parse_line(line);
        PipelineRun {
            invs,
            idx: 0,
            has_prev: false,
            exited: false,
            pending: false,
            blank: trimmed.len() == 0,
        }
    }

    /// Whether the walk is over: every stage was acted on, or `exit`
    /// stopped it.
    pub fn is_done(&self) -> (r: bool)
        requires
            self.wf(),
        ensures
            r <==> (self.spec_exited() || self.index() == self.invocations().len()),
    {
        proof {
            assert(self.invocations().len() == self.invs@.len());
        }
        self.exited || self.idx == self.invs.len()
    }

    /// The instruction for the current stage. A spawn instruction must be
    /// answered through `note_spawn` before the walk goes on; the other
    /// instructions advance the walk at once. `cd` clears the live
    /// handle (a builtin cannot be piped through); `exit` stops the walk.
    pub fn next_action(&mut self) -> (a: Action)
        requires
            old(self).wf(),
            !old(self).pending_spawn(),
            !old(self).spec_exited(),
            old(self).index() < old(self).invocations().len(),
        ensures
            final(self).wf(),
            final(self).invocations() == old(self).invocations(),
            final(self).spec_blank() == old(self).spec_blank(),
            (old(self).invocations()[old(self).index()] matches SpecInv::Cd { arg } ==> {
                &&& (a matches Action::ChangeDir { arg: pa } && opt_view(pa) == arg)
                &&& final(self).index() == old(self).index() + 1
                &&& !final(self).prev_live()
                &&& !final(self).spec_exited()
                &&& !final(self).pending_spawn()
            }),
            (old(self).invocations()[old(self).index()] is Exit ==> {
                &&& a == Action::ExitShell
                &&& final(self).index() == old(self).index()
                &&& final(self).prev_live() == old(self).prev_live()
                &&& final(self).spec_exited()
                &&& !final(self).pending_spawn()
            }),
            (old(self).invocations()[old(self).index()] matches SpecInv::External { name, args }
                ==> {
                &&& (a matches Action::Spawn {
                    name: an,
                    args: aa,
                    stdin_from_prev: si,
                    stdout_piped: so,
                } && an@ == name && aa.deep_view() == args && si == old(self).prev_live() && (so
                    <==> old(self).index() + 1 < old(self).invocations().len()))
                &&& final(self).index() == old(self).index()
                &&& final(self).prev_live() == old(self).prev_live()
                &&& !final(self).spec_exited()
                &&& final(self).pending_spawn()
            }),
    {
        proof {
            assert(self.invocations().len() == self.invs@.len());
            assert(self.invocations()[self.idx as int] == self.invs@[self.idx as int]@);
        }
        let n = self.invs.len();
        assert(self.idx < n);
        let idx = self.idx;
        match &self.invs[idx] {
            Invocation::Cd { arg } => {
                let arg_copy: Option<Vec<u8>> = match arg {
                    Some(a) => Some(copy_bytes(a)),
                    None => None,
                };
                self.idx = idx + 1;
                self.has_prev = false;
                Action::ChangeDir { arg: arg_copy }
            },
            Invocation::Exit => {
                self.exited = true;
                Action::ExitShell
            },
            Invocation::External { name, args } => {
                let name_copy = copy_bytes(name);
                let mut args_copy: Vec<Vec<u8>> = Vec::new();
                let mut j: usize = 0;
                while j < args.len()
                    invariant
                        0 <= j <= args@.len(),
                        args_copy.deep_view() =~~= args.deep_view().subrange(0, j as int),
                    decreases args@.len() - j,
                {
                    let a = copy_bytes(&args[j]);
                    let ghost old_dv = args_copy.deep_view();
                    args_copy.push(a);
                    proof {
                        assert(args_copy.deep_view() =~~= old_dv.push(args@[j as int]@));
                        assert(args.deep_view().subrange(0, j as int + 1) =~~= old_dv.push(
                            args@[j as int]@,
                        ));
                    }
                    j = j + 1;
                }
                proof {
                    assert(args_copy.deep_view() =~~= args.deep_view());
                }
                let piped = idx + 1 < n;
                self.pending = true;
                Action::Spawn {
                    name: name_copy,
                    args: args_copy,
                    stdin_from_prev: self.has_prev,
                    stdout_piped: piped,
                }
            },
        }
    }

    /// Report whether the requested spawn succeeded. On success the new
    /// process's handle replaces the live one; on failure the live
    /// handle is cleared, so the next stage will not read from a
    /// nonexistent predecessor.
    pub fn note_spawn(&mut self, ok: bool)
        requires
            old(self).wf(),
            old(self).pending_spawn(),
        ensures
            final(self).wf(),
            final(self).invocations() == old(self).invocations(),
            final(self).spec_blank() == old(self).spec_blank(),
            final(self).index() == old(self).index() + 1,
            final(self).prev_live() == ok,
            final(self).spec_exited() == old(self).spec_exited(),
            !final(self).pending_spawn(),
    {
        let n = self.invs.len();
        assert(self.idx < n);
        self.idx = self.idx + 1;
        self.has_prev = ok;
        self.pending = false;
    }

    /// Whether, the walk being over, the shell must block on the last
    /// spawned process before prompting again.
    pub fn should_wait(&self) -> (r: bool)
        requires
            self.wf(),
            !self.pending_spawn(),
        ensures
            r <==> (!self.spec_exited() && self.index() == self.invocations().len()
                && self.prev_live()),
    {
        proof {
            assert(self.invocations().len() == self.invs@.len());
        }
        !self.exited && self.idx == self.invs.len() && self.has_prev
    }

    /// Whether, the walk being over, the line must be recorded in
    /// history: a non-blank line is always recorded once its pipeline has
    /// run, however its spawns fared, but `exit` leaves no entry.
    pub fn should_append(&self) -> (r: bool)
        requires
            self.wf(),
            !self.pending_spawn(),
        ensures
            r <==> (!self.spec_exited() && self.index() == self.invocations().len()
                && !self.spec_blank()),
    {
        proof {
            assert(self.invocations().len() == self.invs@.len());
        }
        !self.exited && self.idx == self.invs.len() && !self.blank
    }

    /// Whether `exit` stopped the walk.
    pub fn has_exited(&self) -> (r: bool)
        ensures
            r == self.spec_exited(),
    {
        self.exited
    }

    /// Whether a handle to the previous stage's piped stdout is live.
    pub fn prev_handle_live(&self) -> (r: bool)
        ensures
            r == self.prev_live(),
    {
        self.has_prev
    }
}

/// One spawn request, as the walk hands it to the host loop.
#[derive(Debug, PartialEq, Eq)]
pub struct SpawnReq {
    /// The command name.
    pub name: Vec<u8>,
    /// The arguments, in order.
    pub args: Vec<Vec<u8>>,
    /// Stdin is connected to the previous stage's piped stdout.
    pub stdin_from_prev: bool,
    /// Stdout is captured for the next stage.
    pub stdout_piped: bool,
}

impl View for SpawnReq {
    type V = SpecSpawn;

    open spec fn view(&self) -> SpecSpawn {
        SpecSpawn {
            name: self.name@,
            args: self.args.deep_view(),
            stdin_from_prev: self.stdin_from_prev,
            stdout_piped: self.stdout_piped,
        }
    }
}

impl DeepView for SpawnReq {
    type V = SpecSpawn;

    open spec fn deep_view(&self) -> SpecSpawn {
        self.view()
    }
}

/// Walk one line without touching the OS: collect the spawn requests the
/// machine emits when the i-th spawn attempt succeeds iff `oks[i]`, and
/// report whether `exit` stopped the walk and whether a live handle
/// remains at the end. The result is exactly what `spec_walk` says of
/// the parsed line, so the step machine agrees with the model on every
/// outcome sequence.
pub fn plan_spawns(line: &Vec<u8>, oks: &Vec<bool>) -> (r: (Vec<SpawnReq>, bool, bool))
    requires
        oks@.len() >= spec_parse(line@).len(),
    ensures
        r.0.deep_view() == spec_walk(spec_parse(line@), false, oks@).spawns,
        r.1 == spec_walk(spec_parse(line@), false, oks@).exited,
        r.2 == spec_walk(spec_parse(line@), false, oks@).has_prev,
{
    let mut run = PipelineRun::new(line);
    let ghost all = spec_parse(line@);
    let ghost w_full = spec_walk(all, false, oks@);
    let mut reqs: Vec<SpawnReq> = Vec::new();
    let mut spawned: usize = 0;
    proof {
        assert(all.skip(0) =~= all);
        assert(oks@.skip(0) =~= oks@);
        assert(reqs.deep_view() =~= Seq::<SpecSpawn>::empty());
        assert(Seq::<SpecSpawn>::empty() + w_full.spawns =~= w_full.spawns);
    }
    while !run.is_done()
        invariant
            run.wf(),
            !run.pending_spawn(),
            run.invocations() == all,
            w_full == spec_walk(all, false, oks@),
            oks@.len() >= all.len(),
            0 <= run.index() <= all.len(),
            spawned as int <= run.index(),
            !run.spec_exited() ==> ({
                let rest = spec_walk(
                    all.skip(run.index()),
                    run.prev_live(),
                    oks@.skip(spawned as int),
                );
                &&& w_full.spawns == reqs.deep_view() + rest.spawns
                &&& w_full.has_prev == rest.has_prev
                &&& w_full.exited == rest.exited
            }),
            run.spec_exited() ==> ({
                &&& w_full.spawns == reqs.deep_view()
                &&& w_full.exited
                &&& w_full.has_prev == run.prev_live()
            }),
        decreases all.len() - run.index() + if run.spec_exited() {
            0int
        } else {
            1int
        },
    {
        let ghost idx0 = run.index();
        let ghost hp0 = run.prev_live();
        let ghost rest0 = spec_walk(all.skip(idx0), hp0, oks@.skip(spawned as int));
        match run.next_action() {
            Action::Spawn { name, args, stdin_from_prev, stdout_piped } => {
                proof {
                    assert(all.skip(idx0)[0] == all[idx0]);
                    assert(all[idx0] is External);
                    assert(oks@.skip(spawned as int).len() > 0);
                    assert(oks@.skip(spawned as int)[0] == oks@[spawned as int]);
                }
                let ok = oks[spawned];
                let ghost old_dv = reqs.deep_view();
                let req = SpawnReq {
                    name,
                    args,
                    stdin_from_prev,
                    stdout_piped,
                };
                proof {
                    assert(all.skip(idx0).len() == 1 <==> idx0 + 1 == all.len());
                    assert(req@ == spec_stage_spawn(all[idx0], hp0, all.skip(idx0).len() == 1));
                }
                reqs.push(req);
                run.note_spawn(ok);
                spawned = spawned + 1;
                proof {
                    assert(reqs.deep_view() =~= old_dv.push(spec_stage_spawn(
                        all[idx0],
                        hp0,
                        all.skip(idx0).len() == 1,
                    )));
                    assert(all.skip(idx0).skip(1) =~= all.skip(idx0 + 1));
                    assert(oks@.skip(spawned as int - 1).skip(1) =~= oks@.skip(
                        spawned as int,
                    ));
                    assert(rest0.spawns == seq![
                        spec_stage_spawn(all[idx0], hp0, all.skip(idx0).len() == 1),
                    ] + spec_walk(all.skip(idx0 + 1), ok, oks@.skip(spawned as int)).spawns);
                    assert(w_full.spawns =~= reqs.deep_view() + spec_walk(
                        all.skip(idx0 + 1),
                        ok,
                        oks@.skip(spawned as int),
                    ).spawns);
                }
            },
            Action::ChangeDir { .. } => {
                proof {
                    assert(all.skip(idx0)[0] == all[idx0]);
                    assert(all[idx0] is Cd);
                    assert(all.skip(idx0).skip(1) =~= all.skip(idx0 + 1));
                    assert(rest0 == spec_walk(
                        all.skip(idx0 + 1),
                        false,
                        oks@.skip(spawned as int),
                    ));
                }
            },
            Action::ExitShell => {
                proof {
                    assert(all.skip(idx0)[0] == all[idx0]);
                    assert(all[idx0] is Exit);
                    assert(rest0.spawns =~= Seq::<SpecSpawn>::empty());
                    assert(reqs.deep_view() + rest0.spawns =~= reqs.deep_view());
                }
            },
        }
    }
    proof {
        if !run.spec_exited() {
            assert(all.skip(run.index()) =~= Seq::<SpecInv>::empty());
            assert(spec_walk(all.skip(run.index()), run.prev_live(), oks@.skip(spawned as int))
                == WalkOut {
                spawns: Seq::empty(),
                has_prev: run.prev_live(),
                exited: false,
            });
            assert(w_full.spawns =~= reqs.deep_view());
        }
    }
    let exited = run.has_exited();
    let live = run.prev_handle_live();
    (reqs, exited, live)
}

proof fn lemma_all_external_wiring(invs: Seq<SpecInv>, hp: bool, oks: Seq<bool>)
    requires
        invs.len() >= 1,
        forall|i: int| 0 <= i < invs.len() ==> invs[i] is External,
        oks.len() == invs.len(),
        forall|i: int| 0 <= i < oks.len() ==> oks[i],
    ensures
        spec_walk(invs, hp, oks).spawns.len() == invs.len(),
        !spec_walk(invs, hp, oks).exited,
        spec_walk(invs, hp, oks).has_prev,
        forall|i: int|
            0 <= i < invs.len() ==> spec_walk(invs, hp, oks).spawns[i] == spec_stage_spawn(
                invs[i],
                if i == 0 {
                    hp
                } else {
                    true
                },
                i == invs.len() - 1,
            ),
    decreases invs.len(),
{
    let w = spec_walk(invs, hp, oks);
    if invs.len() == 1 {
        assert(w.spawns =~= seq![spec_stage_spawn(invs[0], hp, true)] + spec_walk(
            invs.skip(1),
            true,
            oks.skip(1),
        ).spawns);
        assert(invs.skip(1).len() == 0);
    } else {
        let tail = invs.skip(1);
        let tail_oks = oks.skip(1);
        assert(forall|i: int| 0 <= i < tail.len() ==> tail[i] is External);
        assert(forall|i: int| 0 <= i < tail_oks.len() ==> tail_oks[i]);
        lemma_all_external_wiring(tail, true, tail_oks);
        let wt = spec_walk(tail, true, tail_oks);
        assert(w.spawns == seq![spec_stage_spawn(invs[0], hp, false)] + wt.spawns);
        assert forall|i: int| 0 <= i < invs.len() implies w.spawns[i] == spec_stage_spawn(
            invs[i],
            if i == 0 {
                hp
            } else {
                true
            },
            i == invs.len() - 1,
        ) by {
            if i > 0 {
                assert(w.spawns[i] == wt.spawns[i - 1]);
                assert(tail[i - 1] == invs[i]);
            }
        }
    }
}

/// A line with no pipe separator naming one external command spawns
/// exactly one process, with stdin and stdout both inherited from the
/// session; after a successful spawn its handle is live, so the loop
/// blocks on its exit before prompting again.
pub proof fn lemma_single_command_wiring(invs: Seq<SpecInv>, oks: Seq<bool>)
    requires
        invs.len() == 1,
        invs[0] is External,
        oks.len() == 1,
        oks[0],
    ensures
        spec_walk(invs, false, oks).spawns.len() == 1,
        !spec_walk(invs, false, oks).spawns[0].stdin_from_prev,
        !spec_walk(invs, false, oks).spawns[0].stdout_piped,
        spec_walk(invs, false, oks).spawns[0].name == invs[0]->External_name,
        spec_walk(invs, false, oks).spawns[0].args == invs[0]->External_args,
        spec_walk(invs, false, oks).has_prev,
        !spec_walk(invs, false, oks).exited,
{
    lemma_all_external_wiring(invs, false, oks);
}

/// A pipeline of n external commands, all of whose spawns succeed,
/// spawns exactly n processes: every stage but the last has piped
/// stdout, every stage but the first reads the previous stage's piped
/// stdout, only the last inherits stdout, and a handle to the last stage
/// is live at the end, so the loop blocks on its exit.
pub proof fn lemma_pipeline_wiring(invs: Seq<SpecInv>, oks: Seq<bool>)
    requires
        invs.len() >= 2,
        forall|i: int| 0 <= i < invs.len() ==> invs[i] is External,
        oks.len() == invs.len(),
        forall|i: int| 0 <= i < oks.len() ==> oks[i],
    ensures
        spec_walk(invs, false, oks).spawns.len() == invs.len(),
        forall|i: int|
            0 <= i < invs.len() ==> (spec_walk(invs, false, oks).spawns[i].stdout_piped <==> i
                < invs.len() - 1),
        forall|i: int|
            0 <= i < invs.len() ==> (spec_walk(invs, false, oks).spawns[i].stdin_from_prev <==> i
                > 0),
        forall|i: int|
            0 <= i < invs.len() ==> spec_walk(invs, false, oks).spawns[i].name
                == invs[i]->External_name,
        forall|i: int|
            0 <= i < invs.len() ==> spec_walk(invs, false, oks).spawns[i].args
                == invs[i]->External_args,
        spec_walk(invs, false, oks).has_prev,
        !spec_walk(invs, false, oks).exited,
{
    lemma_all_external_wiring(invs, false, oks);
}

} // verus!
