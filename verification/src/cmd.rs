//! The external-command vocabulary of the driver.
//!
//! A [`Cmd`] is the mathematical image of one external invocation (program
//! name and argument list); a [`Call`] pairs it with the launch outcome that
//! the runner reported. [`CallRecord`] is the executable record of one call,
//! whose view is a [`Call`]. The spec functions below name every command the
//! driver ever issues, and the predicates describe complete and fail-fast
//! partial executions of a planned command sequence.

use vstd::prelude::*;

use crate::digits::dec_rep;

verus! {

/// One planned external invocation: a program name and its arguments.
#[verifier::ext_equal]
pub struct Cmd {
    pub program: Seq<char>,
    pub args: Seq<Seq<char>>,
}

/// One performed external invocation together with its launch outcome.
#[verifier::ext_equal]
pub struct Call {
    pub cmd: Cmd,
    pub ok: bool,
}

/// The executable record of one performed invocation.
#[derive(Debug)]
pub struct CallRecord {
    pub program: String,
    pub args: Vec<String>,
    pub ok: bool,
}

impl View for CallRecord {
    type V = Call;

    open spec fn view(&self) -> Call {
        Call { cmd: Cmd { program: self.program@, args: self.args.deep_view() }, ok: self.ok }
    }
}

impl DeepView for CallRecord {
    type V = Call;

    open spec fn deep_view(&self) -> Call {
        self@
    }
}

/// An invocation of the external multiplexer with the given arguments.
pub open spec fn tmux_cmd(args: Seq<Seq<char>>) -> Cmd {
    Cmd { program: "tmux"@, args }
}

/// The availability probe: query the multiplexer server's information.
pub open spec fn cmd_server_info() -> Cmd {
    tmux_cmd(seq!["server-info"@])
}

/// Create a new detached session with the given name.
pub open spec fn cmd_new_session(name: Seq<char>) -> Cmd {
    tmux_cmd(seq!["new-session"@, "-d"@, "-s"@, name])
}

/// Rename the first window of the session for operator clarity.
pub open spec fn cmd_rename_window() -> Cmd {
    tmux_cmd(seq!["rename-window"@, "-t"@, "0"@, "ssh-sessions"@])
}

/// Split the active pane vertically.
pub open spec fn cmd_vertical_split() -> Cmd {
    tmux_cmd(seq!["split-window"@, "-v"@])
}

/// Split the active pane horizontally.
pub open spec fn cmd_horizontal_split() -> Cmd {
    tmux_cmd(seq!["split-window"@, "-h"@])
}

/// Select the pane with the given address.
pub open spec fn cmd_select_pane(pane: nat) -> Cmd {
    tmux_cmd(seq!["select-pane"@, "-t"@, dec_rep(pane)])
}

/// Select the pane with the given address and title it with the host name.
pub open spec fn cmd_select_pane_titled(pane: nat, host: Seq<char>) -> Cmd {
    tmux_cmd(seq!["select-pane"@, "-t"@, dec_rep(pane), "-T"@, host])
}

/// The quoted remote-shell command text typed into a pane.
pub open spec fn ssh_text(host: Seq<char>) -> Seq<char> {
    "\"ssh "@ + host + "\""@
}

/// Send the remote-shell command for `host`, followed by an execute
/// keystroke, to the pane with the given address.
pub open spec fn cmd_send_ssh_keys(pane: nat, host: Seq<char>) -> Cmd {
    tmux_cmd(seq!["send-keys"@, "-t"@, dec_rep(pane), ssh_text(host), "C-m"@])
}

/// Attach the caller's terminal to the named session's first window.
pub open spec fn cmd_attach(name: Seq<char>) -> Cmd {
    tmux_cmd(seq!["attach-session"@, "-t"@, name + ":0"@])
}

/// The call that launched `c` successfully.
pub open spec fn ok_call(c: Cmd) -> Call {
    Call { cmd: c, ok: true }
}

/// The call on which launching `c` failed.
pub open spec fn failed_call(c: Cmd) -> Call {
    Call { cmd: c, ok: false }
}

/// All commands of `plan`, each launched successfully.
pub open spec fn ok_calls(plan: Seq<Cmd>) -> Seq<Call> {
    Seq::new(plan.len(), |i: int| ok_call(plan[i]))
}

/// The history grew from `h0` to `h1` by a fail-fast execution of `plan`
/// that stopped at position `k`: every command before `k` was launched
/// successfully, the command at `k` failed, and nothing after it was issued.
pub open spec fn failed_at(plan: Seq<Cmd>, h0: Seq<Call>, h1: Seq<Call>, k: int) -> bool {
    &&& 0 <= k < plan.len()
    &&& h1 == h0 + ok_calls(plan.take(k)).push(failed_call(plan[k]))
}

/// The history grew from `h0` to `h1` by a fail-fast execution of `plan`
/// that stopped at some failing command.
pub open spec fn failed_run(plan: Seq<Cmd>, h0: Seq<Call>, h1: Seq<Call>) -> bool {
    exists|k: int| failed_at(plan, h0, h1, k)
}

/// Concatenating two successful executions is a successful execution of the
/// concatenated plan.
pub proof fn lemma_ok_calls_concat(p1: Seq<Cmd>, p2: Seq<Cmd>)
    ensures
        ok_calls(p1 + p2) == ok_calls(p1) + ok_calls(p2),
{
    assert(ok_calls(p1 + p2) =~= ok_calls(p1) + ok_calls(p2));
}

/// Extending a successful execution by one successful command.
pub proof fn lemma_ok_calls_push(plan: Seq<Cmd>, c: Cmd)
    ensures
        ok_calls(plan.push(c)) == ok_calls(plan).push(ok_call(c)),
{
    assert(ok_calls(plan.push(c)) =~= ok_calls(plan).push(ok_call(c)));
}

/// A fail-fast execution of a plan is one of any longer plan with that
/// prefix: the failure position is unchanged.
pub proof fn lemma_failed_at_plan_extension(
    p1: Seq<Cmd>,
    p2: Seq<Cmd>,
    h0: Seq<Call>,
    h1: Seq<Call>,
    k: int,
)
    requires
        failed_at(p1, h0, h1, k),
    ensures
        failed_at(p1 + p2, h0, h1, k),
{
    assert((p1 + p2).take(k) =~= p1.take(k));
    assert((p1 + p2)[k] == p1[k]);
}

/// A fail-fast execution of the tail of a concatenated plan, reached after
/// the head succeeded, is a fail-fast execution of the whole plan.
pub proof fn lemma_failed_run_after_prefix(
    p1: Seq<Cmd>,
    p2: Seq<Cmd>,
    h0: Seq<Call>,
    h1: Seq<Call>,
    k: int,
)
    requires
        failed_at(p2, h0 + ok_calls(p1), h1, k),
    ensures
        failed_at(p1 + p2, h0, h1, p1.len() + k),
{
    assert((p1 + p2).take(p1.len() + k) =~= p1 + p2.take(k));
    lemma_ok_calls_concat(p1, p2.take(k));
    assert((p1 + p2)[p1.len() + k] == p2[k]);
    assert(h0 + ok_calls(p1 + p2.take(k)).push(failed_call(p2[k])) =~= (h0 + ok_calls(p1))
        + ok_calls(p2.take(k)).push(failed_call(p2[k])));
}

} // verus!
