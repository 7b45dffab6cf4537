//! The data model of a workflow: steps, links, link targets and the four
//! impulse kinds, together with step lookup and the parsing of a link target
//! from either of its two written forms.

use vstd::prelude::*;

verus! {

/// One of the four discrete signals a step run can produce: a scan-phase
/// signal from the output scanner, or an exit-phase signal from the child's
/// exit status.
#[derive(Clone, Copy, PartialEq, Eq, Debug, Structural)]
pub enum Impulse {
    ScanOk,
    ScanErr,
    ExitOk,
    ExitErr,
}

/// Whether an impulse belongs to the scan phase of a run.
pub open spec fn is_scan_impulse(i: Impulse) -> bool {
    i is ScanOk || i is ScanErr
}

/// Whether an impulse points in the error direction.
pub open spec fn is_err_impulse(i: Impulse) -> bool {
    i is ScanErr || i is ExitErr
}

/// Where a resolved link leads: run another named step, or end the whole
/// program.
#[derive(Debug, Clone)]
pub enum LinkTarget {
    Step(String),
    End,
}

/// The six optional links of a step: two generic fallbacks (`on_ok`,
/// `on_err`) and four specific overrides, one per impulse kind.
#[derive(Debug, Clone)]
pub struct Links {
    pub on_ok: Option<LinkTarget>,
    pub on_err: Option<LinkTarget>,
    pub on_scan_ok: Option<LinkTarget>,
    pub on_scan_err: Option<LinkTarget>,
    pub on_exit_ok: Option<LinkTarget>,
    pub on_exit_err: Option<LinkTarget>,
}

/// A multiplexer pane that a step is forwarded to instead of running in the
/// current process.
#[derive(Debug, Clone)]
pub struct RemoteTarget {
    pub sess: String,
    pub win: String,
    pub fish_vi_mode: bool,
}

/// One named unit of work: a shell command plus its scan patterns, links and
/// execution-location preference. `final_step` is the step's `final` flag:
/// when set, no transition ever follows the step, whatever links it has.
#[derive(Debug, Clone)]
pub struct WorkflowStep {
    pub name: String,
    pub command: String,
    pub scan_ok: Option<String>,
    pub scan_err: Option<String>,
    pub pwd: Option<String>,
    pub output_file: Option<String>,
    pub remote: Option<RemoteTarget>,
    pub links: Option<Links>,
    pub final_step: bool,
}

/// An ordered collection of steps. Name uniqueness is not enforced; lookup
/// returns the first match.
#[derive(Debug, Clone)]
pub struct Workflow {
    pub steps: Vec<WorkflowStep>,
}

/// `i` is the index of the first step of `steps` named `name`.
pub open spec fn first_match(steps: Seq<WorkflowStep>, name: Seq<char>, i: int) -> bool {
    &&& 0 <= i < steps.len()
    &&& steps[i].name@ == name
    &&& forall|j: int| 0 <= j < i ==> steps[j].name@ != name
}

impl Workflow {
    /// Some step of the workflow bears this name.
    pub open spec fn has_step(&self, name: Seq<char>) -> bool {
        exists|i: int| 0 <= i < self.steps@.len() && self.steps@[i].name@ == name
    }

    /// Look a step up by name: a linear scan returning the first match.
    pub fn find_step(&self, name: &String) -> (r: Option<&WorkflowStep>)
        ensures
            r is Some <==> self.has_step(name@),
            r matches Some(s) ==> exists|i: int|
                #[trigger] first_match(self.steps@, name@, i) && *s == self.steps@[i],
    {
        let n = self.steps.len();
        let mut i: usize = 0;
        while i < n
            invariant
                n == self.steps@.len(),
                0 <= i <= n,
                forall|j: int| 0 <= j < i ==> self.steps@[j].name@ != name@,
            decreases n - i,
        {
            if self.steps[i].name == *name {
                assert(first_match(self.steps@, name@, i as int));
                return Some(&self.steps[i]);
            }
            i = i + 1;
        }
        None
    }
}

/// Why a written link target was rejected.
#[derive(Clone, Copy, PartialEq, Eq, Debug, Structural)]
pub enum CfgError {
    UnknownTargetKind,
    MissingStepName,
}

/// A link target as it is written in a workflow file: either a bare step
/// name, or an explicit object with a `type` tag and an optional step name.
#[derive(Debug, Clone)]
pub enum RawLinkTarget {
    Bare(String),
    Typed { kind: String, step: Option<String> },
}

/// What a written link target resolves to: a bare name is a step target; a
/// tagged object is a step target (which must carry its step name) or an end
/// target. Any other tag is rejected.
pub open spec fn parse_target_spec(raw: RawLinkTarget) -> Result<LinkTarget, CfgError> {
    match raw {
        RawLinkTarget::Bare(s) => Ok(LinkTarget::Step(s)),
        RawLinkTarget::Typed { kind, step } => {
            if kind@ == "step"@ {
                match step {
                    Some(s) => Ok(LinkTarget::Step(s)),
                    None => Err(CfgError::MissingStepName),
                }
            } else if kind@ == "end"@ {
                Ok(LinkTarget::End)
            } else {
                Err(CfgError::UnknownTargetKind)
            }
        },
    }
}

/// Resolve a written link target into the internal tagged variant, once, at
/// load time.
pub fn parse_link_target(raw: RawLinkTarget) -> (r: Result<LinkTarget, CfgError>)
    ensures
        r == parse_target_spec(raw),
{
    match raw {
        RawLinkTarget::Bare(s) => Ok(LinkTarget::Step(s)),
        RawLinkTarget::Typed { kind, step } => {
            let step_kind = String::from_str("step");
            let end_kind = String::from_str("end");
            if kind == step_kind {
                match step {
                    Some(s) => Ok(LinkTarget::Step(s)),
                    None => Err(CfgError::MissingStepName),
                }
            } else if kind == end_kind {
                Ok(LinkTarget::End)
            } else {
                Err(CfgError::UnknownTargetKind)
            }
        },
    }
}

/// A link target written as a bare step name and one written as the explicit
/// tagged object with the same name resolve to the same target.
pub proof fn lemma_target_forms_agree(name: String, kind: String)
    requires
        kind@ == "step"@,
    ensures
        parse_target_spec(RawLinkTarget::Bare(name))
            == parse_target_spec(RawLinkTarget::Typed { kind, step: Some(name) }),
{
}

} // verus!
