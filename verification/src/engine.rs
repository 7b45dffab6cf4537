//! The step orchestrator's decisions: choose remote dispatch or a local
//! run, stream chunks through the scanner, turn a newly recorded scan
//! impulse into a concurrent follow-on action, and classify the exit status
//! into a synchronous one. The caller performs the outside work — spawning,
//! reading, printing, signalling — and hands the events back.

use vstd::prelude::*;
use vstd::utf8::encode_utf8;
use crate::cfg::{Impulse, LinkTarget, Workflow, WorkflowStep, first_match};
use crate::links::{end_code_spec, end_exit_code, exit_impulse, exit_impulse_spec, resolve_link, resolve_spec};
use crate::remote::{careful_run_command, dispatch_plan, pane_target, pane_target_spec, reinvoke_command, reinvoke_command_spec};
use crate::scan::{ScanState, feed_buffer, feed_impulse, opt_bytes};

verus! {

/// What a resolved link asks the caller to do: run another named step, or
/// end the whole program with this exit code.
#[derive(Debug, Clone)]
pub enum FollowUp {
    RunStep(String),
    EndRun(i32),
}

/// The follow-up owed to an impulse of a step: the resolved link target,
/// with an `End` target carrying the exit code owed to the impulse's
/// direction. No link means no follow-up.
pub open spec fn follow_up_spec(step: WorkflowStep, i: Impulse) -> Option<FollowUp> {
    match resolve_spec(step, i) {
        None => None,
        Some(LinkTarget::Step(name)) => Some(FollowUp::RunStep(name)),
        Some(LinkTarget::End) => Some(FollowUp::EndRun(end_code_spec(i))),
    }
}

/// Resolve a step's link for an impulse into the action owed to the caller.
pub fn follow_up(step: &WorkflowStep, i: Impulse) -> (r: Option<FollowUp>)
    ensures
        r == follow_up_spec(*step, i),
{
    match resolve_link(step, i) {
        None => None,
        Some(t) => match t {
            LinkTarget::Step(name) => Some(FollowUp::RunStep(name.clone())),
            LinkTarget::End => Some(FollowUp::EndRun(end_exit_code(i))),
        },
    }
}

/// The bytes an optional pattern of a step scans for.
pub open spec fn step_pat_bytes(pat: Option<String>) -> Option<Seq<u8>> {
    match pat {
        Some(s) => Some(encode_utf8(s@)),
        None => None,
    }
}

/// The impulse newly recorded by one evaluation: the new impulse if none
/// stood before, nothing otherwise.
pub open spec fn newly_recorded(old_imp: Option<Impulse>, new_imp: Option<Impulse>) -> Option<
    Impulse,
> {
    if old_imp is None {
        new_imp
    } else {
        None
    }
}

/// The action owed after one chunk: only an impulse newly recorded by that
/// very chunk resolves to a follow-up, so one run launches at most one
/// scan-phase follow-up.
pub open spec fn chunk_action_spec(
    step: WorkflowStep,
    old_imp: Option<Impulse>,
    new_imp: Option<Impulse>,
) -> Option<FollowUp> {
    match newly_recorded(old_imp, new_imp) {
        Some(i) => follow_up_spec(step, i),
        None => None,
    }
}

/// One local step run in flight: the step and its scanner state. The caller
/// reads the pseudo-terminal and hands every chunk in; the run hands back
/// the scan-phase action as soon as its impulse is recorded.
pub struct StepExecution<'a> {
    pub step: &'a WorkflowStep,
    pub scan: ScanState,
}

impl<'a> StepExecution<'a> {
    pub open spec fn wf(self) -> bool {
        self.scan.wf()
    }

    /// Begin a local run of this step with a fresh scanner.
    pub fn new(step: &'a WorkflowStep) -> (e: StepExecution<'a>)
        ensures
            e.step == step,
            e.scan.buffer@ == Seq::<u8>::empty(),
            e.scan.impulse is None,
            e.wf(),
    {
        StepExecution { step, scan: ScanState::new() }
    }

    /// One chunk read from the run's pseudo-terminal: strip it, grow the
    /// buffer, scan unless an impulse is already recorded, and resolve a
    /// newly recorded impulse into the scan-phase action. The caller prints
    /// the raw chunk itself and launches a `RunStep` follow-up concurrently,
    /// without blocking further streaming.
    pub fn on_chunk(&mut self, chunk: &[u8]) -> (act: Option<FollowUp>)
        requires
            old(self).wf(),
        ensures
            final(self).step == old(self).step,
            final(self).scan.buffer@ == feed_buffer(old(self).scan.buffer@, chunk@),
            final(self).scan.impulse == feed_impulse(
                old(self).scan.impulse,
                final(self).scan.buffer@,
                step_pat_bytes(old(self).step.scan_ok),
                step_pat_bytes(old(self).step.scan_err),
            ),
            act == chunk_action_spec(
                *old(self).step,
                old(self).scan.impulse,
                final(self).scan.impulse,
            ),
            final(self).wf(),
    {
        let ok: Option<&String> = match &self.step.scan_ok {
            Some(s) => Some(s),
            None => None,
        };
        let err: Option<&String> = match &self.step.scan_err {
            Some(s) => Some(s),
            None => None,
        };
        assert(opt_bytes(ok) == step_pat_bytes(self.step.scan_ok));
        assert(opt_bytes(err) == step_pat_bytes(self.step.scan_err));
        let newly = self.scan.feed(chunk, ok, err);
        match newly {
            Some(i) => follow_up(self.step, i),
            None => None,
        }
    }

    /// The child exited with this status: classify it (zero is success),
    /// resolve the exit-phase link, and hand back the action. A `RunStep`
    /// follow-up is run synchronously by the caller; an `EndRun` ends the
    /// whole program.
    pub fn on_exit(&self, exit_code: u32) -> (act: Option<FollowUp>)
        ensures
            act == follow_up_spec(*self.step, exit_impulse_spec(exit_code)),
    {
        follow_up(self.step, exit_impulse(exit_code))
    }
}

/// Once a run's scan impulse stands, no later chunk owes an action: a run
/// launches at most one scan-phase follow-up, however often its pattern
/// keeps matching.
pub proof fn lemma_one_scan_launch(
    step: WorkflowStep,
    old_imp: Option<Impulse>,
    new_imp: Option<Impulse>,
)
    requires
        old_imp is Some,
    ensures
        chunk_action_spec(step, old_imp, new_imp) is None,
{
}

/// A step with no links and no `final` flag owes no follow-up on any
/// impulse: after exit, no follow-on step runs and no terminate occurs, in
/// either phase.
pub proof fn lemma_no_links_no_follow_up(step: WorkflowStep, i: Impulse)
    requires
        step.links is None,
        !step.final_step,
    ensures
        follow_up_spec(step, i) is None,
{
}

/// A step marked `final` owes no follow-up on any impulse, whatever links
/// it carries: no transition occurs on either scan or exit.
pub proof fn lemma_final_no_follow_up(step: WorkflowStep, i: Impulse)
    requires
        step.final_step,
    ensures
        follow_up_spec(step, i) is None,
{
}

/// An `End` target reached on an error-direction impulse ends the program
/// with exit code 1; on a success-direction impulse, with exit code 0.
pub proof fn lemma_end_follow_up_code(step: WorkflowStep, i: Impulse)
    requires
        resolve_spec(step, i) == Some(LinkTarget::End),
    ensures
        follow_up_spec(step, i) == Some(
            FollowUp::EndRun(
                if crate::cfg::is_err_impulse(i) {
                    1i32
                } else {
                    0i32
                },
            ),
        ),
{
}

/// The terminal size a run is given: what the probe reported, or the fixed
/// 80×24 fallback when the probe found no terminal.
pub open spec fn term_size_spec(probed: Option<(u16, u16)>) -> (u16, u16) {
    match probed {
        Some(s) => s,
        None => (80, 24),
    }
}

/// Apply the fixed fallback to a probed terminal size.
pub fn effective_size(probed: Option<(u16, u16)>) -> (s: (u16, u16))
    ensures
        s == term_size_spec(probed),
{
    match probed {
        Some(s) => s,
        None => (80, 24),
    }
}

/// How a local run is to be spawned: the program and arguments handed to
/// the pseudo-terminal, the step's working-directory override, its output
/// file, and the terminal size.
pub struct LocalSpawn {
    pub program: String,
    pub args: Vec<String>,
    pub pwd: Option<String>,
    pub output_file: Option<String>,
    pub cols: u16,
    pub rows: u16,
}

/// How a step is to be started: forwarded to a multiplexer pane through
/// these control commands, or run locally under a pseudo-terminal.
pub enum StartPlan {
    Remote(Vec<Vec<String>>),
    Local(LocalSpawn),
}

/// The start plan owed to a step: a step with a remote target is dispatched
/// remotely — unless the run is local-only — by telling the pane to
/// re-invoke this program for the step; any other step runs locally, its
/// command line handed to the shell, with the step's overrides and the
/// probed terminal size with its fallback.
pub open spec fn plan_matches(
    p: StartPlan,
    step: WorkflowStep,
    workflow_id: Seq<char>,
    local_only: bool,
    probed: Option<(u16, u16)>,
) -> bool {
    if step.remote is Some && !local_only {
        &&& p matches StartPlan::Remote(cmds)
        &&& cmds.deep_view() == dispatch_plan(
            pane_target_spec(step.remote->0.sess@, step.remote->0.win@),
            reinvoke_command_spec(workflow_id, step.name@),
        )
    } else {
        &&& p matches StartPlan::Local(l)
        &&& l.program@ == "sh"@
        &&& l.args.deep_view() == seq!["-c"@, step.command@]
        &&& l.pwd.deep_view() == step.pwd.deep_view()
        &&& l.output_file.deep_view() == step.output_file.deep_view()
        &&& (l.cols, l.rows) == term_size_spec(probed)
    }
}

/// Decide how a step starts: remote dispatch or a local run.
pub fn plan_step(
    step: &WorkflowStep,
    workflow_id: &str,
    local_only: bool,
    probed: Option<(u16, u16)>,
) -> (p: StartPlan)
    ensures
        plan_matches(p, *step, workflow_id@, local_only, probed),
{
    match &step.remote {
        Some(remote) if !local_only => {
            let target = pane_target(remote.sess.as_str(), remote.win.as_str());
            let cmd = reinvoke_command(workflow_id, step.name.as_str());
            StartPlan::Remote(
                careful_run_command(target.as_str(), cmd.as_str(), remote.fish_vi_mode),
            )
        },
        _ => {
            let (cols, rows) = effective_size(probed);
            let pwd = match &step.pwd {
                Some(s) => Some(s.clone()),
                None => None,
            };
            let output_file = match &step.output_file {
                Some(s) => Some(s.clone()),
                None => None,
            };
            let mut args: Vec<String> = Vec::new();
            args.push(String::from_str("-c"));
            args.push(step.command.clone());
            assert(args.deep_view() =~~= seq!["-c"@, step.command@]);
            StartPlan::Local(
                LocalSpawn {
                    program: String::from_str("sh"),
                    args,
                    pwd,
                    output_file,
                    cols,
                    rows,
                },
            )
        },
    }
}

/// Why a run could not proceed.
#[derive(Debug, Clone)]
pub enum RunError {
    StepNotFound(String),
}

impl RunError {
    /// The message reported for this error.
    pub fn message(&self) -> (m: String)
        ensures
            self matches RunError::StepNotFound(n) ==> m@ == "Step '"@ + n@
                + "' not found in workflow"@,
    {
        match self {
            RunError::StepNotFound(n) => {
                let mut m = String::from_str("Step '");
                m.append(n.as_str());
                m.append("' not found in workflow");
                m
            },
        }
    }
}

/// Run one step of the workflow: look it up by name — absence is the fatal
/// "step not found" error — and decide how it starts. The caller performs
/// the plan, feeds a local run's chunks through its `StepExecution`, and
/// follows the actions handed back.
pub fn run_step<'a>(
    w: &'a Workflow,
    name: &String,
    workflow_id: &str,
    local_only: bool,
    probed: Option<(u16, u16)>,
) -> (r: Result<(StartPlan, &'a WorkflowStep), RunError>)
    ensures
        r is Ok <==> w.has_step(name@),
        r matches Err(e) ==> e matches RunError::StepNotFound(n) && n@ == name@,
        r matches Ok(pair) ==> exists|i: int|
            #[trigger] first_match(w.steps@, name@, i) && *pair.1 == w.steps@[i] && plan_matches(
                pair.0,
                w.steps@[i],
                workflow_id@,
                local_only,
                probed,
            ),
{
    match w.find_step(name) {
        None => Err(RunError::StepNotFound(name.clone())),
        Some(step) => {
            let plan = plan_step(step, workflow_id, local_only, probed);
            Ok((plan, step))
        },
    }
}

} // verus!
