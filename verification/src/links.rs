//! Link resolution: the pure mapping from a step and an impulse to the next
//! action, with specific-over-generic fallback and the `final` override, and
//! the classification of an exit status into an impulse.

use vstd::prelude::*;
use crate::cfg::{Impulse, LinkTarget, Links, WorkflowStep};
use crate::cfg::is_err_impulse;

verus! {

/// The specific link of a step for one impulse kind.
pub open spec fn specific_link(links: Links, i: Impulse) -> Option<LinkTarget> {
    match i {
        Impulse::ScanOk => links.on_scan_ok,
        Impulse::ScanErr => links.on_scan_err,
        Impulse::ExitOk => links.on_exit_ok,
        Impulse::ExitErr => links.on_exit_err,
    }
}

/// The generic fallback link for the ok/err direction of an impulse.
pub open spec fn generic_link(links: Links, i: Impulse) -> Option<LinkTarget> {
    if is_err_impulse(i) {
        links.on_err
    } else {
        links.on_ok
    }
}

/// What a step's links resolve to for an impulse: the specific link for that
/// impulse kind if present, else the generic link for the same direction,
/// else nothing. A `final` step resolves to nothing unconditionally; a
/// missing link is never an error — absence means "do nothing".
pub open spec fn resolve_spec(step: WorkflowStep, i: Impulse) -> Option<LinkTarget> {
    if step.final_step {
        None
    } else {
        match step.links {
            None => None,
            Some(links) => match specific_link(links, i) {
                Some(t) => Some(t),
                None => generic_link(links, i),
            },
        }
    }
}

/// Resolve a step's link for an impulse.
pub fn resolve_link<'a>(step: &'a WorkflowStep, i: Impulse) -> (r: Option<&'a LinkTarget>)
    ensures
        r is Some <==> resolve_spec(*step, i) is Some,
        r matches Some(t) ==> resolve_spec(*step, i) == Some(*t),
{
    if step.final_step {
        return None;
    }
    match &step.links {
        None => None,
        Some(links) => {
            let specific = match i {
                Impulse::ScanOk => &links.on_scan_ok,
                Impulse::ScanErr => &links.on_scan_err,
                Impulse::ExitOk => &links.on_exit_ok,
                Impulse::ExitErr => &links.on_exit_err,
            };
            match specific {
                Some(t) => Some(t),
                None => {
                    let generic = match i {
                        Impulse::ScanOk | Impulse::ExitOk => &links.on_ok,
                        Impulse::ScanErr | Impulse::ExitErr => &links.on_err,
                    };
                    match generic {
                        Some(t) => Some(t),
                        None => None,
                    }
                },
            }
        },
    }
}

/// The impulse that classifies a child's exit status: zero is success,
/// anything else is failure.
pub open spec fn exit_impulse_spec(code: u32) -> Impulse {
    if code == 0 {
        Impulse::ExitOk
    } else {
        Impulse::ExitErr
    }
}

/// Classify an exit status into its impulse.
pub fn exit_impulse(code: u32) -> (i: Impulse)
    ensures
        i == exit_impulse_spec(code),
{
    if code == 0 {
        Impulse::ExitOk
    } else {
        Impulse::ExitErr
    }
}

/// The whole-process exit code when an `End` target is reached: 1 for an
/// error-direction impulse, 0 for a success-direction one.
pub open spec fn end_code_spec(i: Impulse) -> i32 {
    if is_err_impulse(i) {
        1
    } else {
        0
    }
}

/// The process exit code owed to an `End` target reached on this impulse.
pub fn end_exit_code(i: Impulse) -> (c: i32)
    ensures
        c == end_code_spec(i),
{
    match i {
        Impulse::ScanErr | Impulse::ExitErr => 1,
        Impulse::ScanOk | Impulse::ExitOk => 0,
    }
}

/// A step with no links and no `final` flag resolves every impulse to no
/// action: no follow-on step and no terminate.
pub proof fn lemma_no_links_no_action(step: WorkflowStep, i: Impulse)
    requires
        step.links is None,
        !step.final_step,
    ensures
        resolve_spec(step, i) is None,
{
}

/// A step marked `final` resolves every impulse to no action, whatever links
/// it carries.
pub proof fn lemma_final_suppresses_all(step: WorkflowStep, i: Impulse)
    requires
        step.final_step,
    ensures
        resolve_spec(step, i) is None,
{
}

/// Generic fallback: on a nonzero exit, a step with `on_err` set and no
/// `on_exit_err` resolves to its `on_err` target.
pub proof fn lemma_generic_fallback(step: WorkflowStep, code: u32)
    requires
        !step.final_step,
        code != 0,
        step.links matches Some(links) && links.on_exit_err is None && links.on_err is Some,
    ensures
        resolve_spec(step, exit_impulse_spec(code)) == step.links->0.on_err,
{
}

/// Specific override: on a nonzero exit, a step with `on_exit_err` set
/// resolves to that target, not to its generic `on_err`.
pub proof fn lemma_specific_override(step: WorkflowStep, code: u32)
    requires
        !step.final_step,
        code != 0,
        step.links matches Some(links) && links.on_exit_err is Some,
    ensures
        resolve_spec(step, exit_impulse_spec(code)) == step.links->0.on_exit_err,
{
}

/// Scan-phase impulses and exit-phase impulses of the same direction fall
/// back to the same generic link.
pub proof fn lemma_directions_share_fallback(links: Links)
    ensures
        generic_link(links, Impulse::ScanOk) == generic_link(links, Impulse::ExitOk),
        generic_link(links, Impulse::ScanErr) == generic_link(links, Impulse::ExitErr),
{
}

} // verus!
