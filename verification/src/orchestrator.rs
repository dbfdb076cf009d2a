//! Sequencing the two toolchain steps: compile, then package.
//!
//! The orchestrator is a two-state pipeline with no branching and no retry:
//! each step runs once, and any failure aborts the remaining sequence. The
//! library decides which command runs next from the current phase and the
//! previous step's outcome; the caller performs the actual process launch
//! and reports back whether it succeeded.

use vstd::prelude::*;
use crate::params::Param;
use crate::command::{compile_command, compile_command_of, build_command, build_command_of};

verus! {

/// Where the pipeline stands: before the compile step, before the package
/// step, finished, or aborted after a failed step.
#[derive(PartialEq, Eq, Structural, Clone, Copy, Debug)]
pub enum Phase {
    Compile,
    Package,
    Done,
    Failed,
}

/// The command the pipeline issues in phase `ph`, if any.
pub open spec fn command_of_phase(ph: Phase, p: Param) -> Option<Seq<char>> {
    match ph {
        Phase::Compile => Some(compile_command_of(p)),
        Phase::Package => Some(build_command_of(p)),
        Phase::Done => None,
        Phase::Failed => None,
    }
}

/// The phase after one step whose outcome was `ok`.
pub open spec fn next_phase(ph: Phase, ok: bool) -> Phase {
    match ph {
        Phase::Compile => if ok {
            Phase::Package
        } else {
            Phase::Failed
        },
        Phase::Package => if ok {
            Phase::Done
        } else {
            Phase::Failed
        },
        Phase::Done => Phase::Done,
        Phase::Failed => Phase::Failed,
    }
}

/// The commands a run issues from phase `ph` when the successive step
/// outcomes are `events`: each issued command consumes one outcome, and the
/// run stops as soon as the phase has no command left to issue.
pub open spec fn trace_from(ph: Phase, events: Seq<bool>, p: Param) -> Seq<Seq<char>>
    decreases events.len(),
{
    if events.len() == 0 {
        Seq::empty()
    } else {
        match command_of_phase(ph, p) {
            None => Seq::empty(),
            Some(c) => seq![c] + trace_from(next_phase(ph, events[0]), events.drop_first(), p),
        }
    }
}

/// The phase a fresh run starts in.
pub fn initial_phase() -> (ph: Phase)
    ensures
        ph == Phase::Compile,
{
    Phase::Compile
}

/// The command to launch in phase `ph`, or `None` when the run is over.
pub fn phase_command(ph: &Phase, p: &Param) -> (r: Option<String>)
    ensures
        match r {
            Some(cmd) => command_of_phase(*ph, *p) == Some(cmd@),
            None => command_of_phase(*ph, *p) is None,
        },
{
    match ph {
        Phase::Compile => Some(compile_command(p)),
        Phase::Package => Some(build_command(p)),
        Phase::Done => None,
        Phase::Failed => None,
    }
}

/// Advances the pipeline after a step whose outcome was `ok`.
pub fn advance(ph: &Phase, ok: bool) -> (r: Phase)
    ensures
        r == next_phase(*ph, ok),
{
    match ph {
        Phase::Compile => if ok {
            Phase::Package
        } else {
            Phase::Failed
        },
        Phase::Package => if ok {
            Phase::Done
        } else {
            Phase::Failed
        },
        Phase::Done => Phase::Done,
        Phase::Failed => Phase::Failed,
    }
}

/// The full plan of a run: the compile command, then the package command,
/// in that order and nothing else.
pub fn build(param: &Param) -> (cmds: Vec<String>)
    ensures
        cmds@.len() == 2,
        cmds@[0]@ == compile_command_of(*param),
        cmds@[1]@ == build_command_of(*param),
{
    let mut cmds: Vec<String> = Vec::new();
    cmds.push(compile_command(param));
    cmds.push(build_command(param));
    cmds
}

/// Once the pipeline is finished or aborted, no further command is issued,
/// whatever outcomes are still reported.
pub proof fn lemma_terminal_phase_is_silent(ph: Phase, events: Seq<bool>, p: Param)
    requires
        ph == Phase::Done || ph == Phase::Failed,
    ensures
        trace_from(ph, events, p) == Seq::<Seq<char>>::empty(),
    decreases events.len(),
{
    if events.len() > 0 {
        lemma_terminal_phase_is_silent(next_phase(ph, events[0]), events.drop_first(), p);
    }
}

/// A run issues exactly the compile command and then the package command
/// when the compile step succeeds, and only the compile command when it
/// fails; the package step is never reached after a failed compile, and no
/// third command is ever issued.
pub proof fn lemma_run_is_compile_then_build(events: Seq<bool>, p: Param)
    requires
        events.len() >= 2,
    ensures
        events[0] ==> trace_from(Phase::Compile, events, p) == seq![
            compile_command_of(p),
            build_command_of(p),
        ],
        !events[0] ==> trace_from(Phase::Compile, events, p) == seq![compile_command_of(p)],
{
    let e1 = events.drop_first();
    let e2 = e1.drop_first();
    if events[0] {
        lemma_terminal_phase_is_silent(next_phase(Phase::Package, e1[0]), e2, p);
        assert(trace_from(Phase::Package, e1, p) =~= seq![build_command_of(p)]);
        assert(trace_from(Phase::Compile, events, p) =~= seq![
            compile_command_of(p),
            build_command_of(p),
        ]);
    } else {
        lemma_terminal_phase_is_silent(Phase::Failed, e1, p);
        assert(trace_from(Phase::Compile, events, p) =~= seq![compile_command_of(p)]);
    }
}

} // verus!
