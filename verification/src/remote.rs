//! The remote dispatch bridge: instead of running a step locally, tell a
//! multiplexer session to re-invoke this program for that step. The bridge
//! computes the exact control commands — cancel any active copy mode, send
//! the re-invocation command text, send an Enter keystroke — and the caller
//! performs them, fire-and-forget with respect to the remote outcome.

use vstd::prelude::*;

verus! {

/// The `send-keys` control command that sends one literal key sequence to a
/// multiplexer pane.
pub open spec fn send_keys_argv(target: Seq<char>, keys: Seq<char>) -> Seq<Seq<char>> {
    seq!["send-keys"@, "-t"@, target, keys]
}

/// The control command that cancels any active copy or scroll mode in the
/// pane.
pub open spec fn cancel_argv(target: Seq<char>) -> Seq<Seq<char>> {
    seq!["send-keys"@, "-t"@, target, "-X"@, "cancel"@]
}

/// The three control commands of one remote dispatch, in order: cancel copy
/// mode, send the command text, send Enter to execute it.
pub open spec fn dispatch_plan(target: Seq<char>, cmd: Seq<char>) -> Seq<Seq<Seq<char>>> {
    seq![cancel_argv(target), send_keys_argv(target, cmd), send_keys_argv(target, "Enter"@)]
}

/// The pane a remote step is forwarded to, written `session:window`.
pub open spec fn pane_target_spec(sess: Seq<char>, win: Seq<char>) -> Seq<char> {
    sess + ":"@ + win
}

/// Build the `session:window` pane target.
pub fn pane_target(sess: &str, win: &str) -> (r: String)
    ensures
        r@ == pane_target_spec(sess@, win@),
{
    let mut s = String::from_str(sess);
    s.append(":");
    s.append(win);
    s
}

/// The literal command a remote pane is told to run so that it re-executes
/// the step locally and continues the chain itself.
pub open spec fn reinvoke_command_spec(workflow: Seq<char>, step_name: Seq<char>) -> Seq<char> {
    "flowtee step -l -w "@ + workflow + " -s "@ + step_name
}

/// Build the re-invocation command for a step of a workflow.
pub fn reinvoke_command(workflow: &str, step_name: &str) -> (r: String)
    ensures
        r@ == reinvoke_command_spec(workflow@, step_name@),
{
    let mut s = String::from_str("flowtee step -l -w ");
    s.append(workflow);
    s.append(" -s ");
    s.append(step_name);
    s
}

/// One `send-keys` argument vector for a pane and a literal key sequence.
fn send_keys_vec(target: &str, keys: &str) -> (r: Vec<String>)
    ensures
        r.deep_view() == send_keys_argv(target@, keys@),
{
    let mut v: Vec<String> = Vec::new();
    v.push(String::from_str("send-keys"));
    v.push(String::from_str("-t"));
    v.push(String::from_str(target));
    v.push(String::from_str(keys));
    assert(v.deep_view() =~~= send_keys_argv(target@, keys@));
    v
}

/// The argument vector that cancels any active copy mode in a pane.
fn cancel_vec(target: &str) -> (r: Vec<String>)
    ensures
        r.deep_view() == cancel_argv(target@),
{
    let mut v: Vec<String> = Vec::new();
    v.push(String::from_str("send-keys"));
    v.push(String::from_str("-t"));
    v.push(String::from_str(target));
    v.push(String::from_str("-X"));
    v.push(String::from_str("cancel"));
    assert(v.deep_view() =~~= cancel_argv(target@));
    v
}

/// The full plan of one careful remote command: the multiplexer argument
/// vectors that cancel copy mode, send the command text, and send Enter.
/// The caller runs them against the multiplexer in this order.
pub fn careful_run_command(target: &str, cmd: &str, fish_vim_mode: bool) -> (r: Vec<Vec<String>>)
    ensures
        r.deep_view() == dispatch_plan(target@, cmd@),
{
    let _ = fish_vim_mode;
    let mut r: Vec<Vec<String>> = Vec::new();
    r.push(cancel_vec(target));
    r.push(send_keys_vec(target, cmd));
    r.push(send_keys_vec(target, "Enter"));
    assert(r.deep_view() =~~= dispatch_plan(target@, cmd@));
    r
}

} // verus!
