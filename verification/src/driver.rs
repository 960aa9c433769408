//! The session driver.
//!
//! [`Tmux`] turns a session configuration into the ordered sequence of
//! external multiplexer commands that creates the session, builds the pane
//! grid, connects every host and finally attaches the operator's terminal.
//! Every stage is fail-fast: the first command whose launch the runner
//! reports as failed aborts the remaining pipeline, and the stage's typed
//! error names the command kind that failed. The contracts state the exact
//! command sequence issued on the runner's history for every outcome.

use vstd::prelude::*;

use crate::cmd::Call;
use crate::cmd::Cmd;
use crate::cmd::cmd_attach;
use crate::cmd::cmd_horizontal_split;
use crate::cmd::cmd_new_session;
use crate::cmd::cmd_rename_window;
use crate::cmd::cmd_select_pane;
use crate::cmd::cmd_select_pane_titled;
use crate::cmd::cmd_send_ssh_keys;
use crate::cmd::cmd_server_info;
use crate::cmd::cmd_vertical_split;
use crate::cmd::failed_at;
use crate::cmd::failed_call;
use crate::cmd::failed_run;
use crate::cmd::lemma_failed_at_plan_extension;
use crate::cmd::lemma_failed_run_after_prefix;
use crate::cmd::lemma_ok_calls_concat;
use crate::cmd::lemma_ok_calls_push;
use crate::cmd::ok_call;
use crate::cmd::ok_calls;
use crate::digits::dec_rep;
use crate::digits::dec_string;
use crate::layout::plan_horizontal;
use crate::layout::plan_vertical;
use crate::layout::ScitsifreineErrors;
use crate::layout::Splits;
use crate::naming::label_of;
use crate::naming::lemma_name_tail_push;
use crate::naming::leading_label;
use crate::naming::name_tail;
use crate::naming::session_name_spec;
use crate::runner::Runner;

verus! {

/// The possible errors which can happen while creating and managing a
/// session: each names the kind of external command whose launch failed, or
/// the planning step that could not produce a layout.
#[derive(Eq, PartialEq, Structural, Debug)]
pub enum TmuxExecutionErrors {
    CreateSession,
    RenameWindow,
    VerticalSplit,
    HorizontalSplit,
    SelectPane,
    CalculateSplittingForHosts,
    SendKeysToSession,
}

/// The commands that create the named session and label its first window.
pub open spec fn session_window_plan(name: Seq<char>) -> Seq<Cmd> {
    seq![cmd_new_session(name), cmd_rename_window()]
}

/// `v` vertical splits of the active pane.
pub open spec fn vertical_split_plan(v: nat) -> Seq<Cmd> {
    Seq::new(v, |i: int| cmd_vertical_split())
}

/// `h` horizontal splits, each preceded by selecting the target pane; the
/// pane address advances by two per split, alternating which row receives
/// the next column.
pub open spec fn horizontal_split_plan(h: nat) -> Seq<Cmd> {
    Seq::new(
        2 * h,
        |i: int|
            if i % 2 == 0 {
                cmd_select_pane(i as nat)
            } else {
                cmd_horizontal_split()
            },
    )
}

/// All split commands for `n` hosts: the vertical splits first, then the
/// horizontal ones.
pub open spec fn split_plan(n: nat) -> Seq<Cmd> {
    vertical_split_plan(plan_vertical(n)) + horizontal_split_plan(plan_horizontal(n))
}

/// For every host in order: select its target pane (titled with the host
/// name), then type the remote-shell command into it.
pub open spec fn connect_plan(hosts: Seq<Seq<char>>) -> Seq<Cmd> {
    Seq::new(
        2 * hosts.len(),
        |i: int|
            if i % 2 == 0 {
                cmd_select_pane_titled(0, hosts[i / 2])
            } else {
                cmd_send_ssh_keys(0, hosts[i / 2])
            },
    )
}

/// Every command a successful run issues before the final attach, in order.
pub open spec fn open_plan(hosts: Seq<Seq<char>>, name: Seq<char>) -> Seq<Cmd> {
    session_window_plan(name) + split_plan(hosts.len()) + connect_plan(hosts)
}

/// The driver for one multiplexer session.
pub struct Tmux {
    /// The hosts the instance currently manages.
    hosts: Vec<String>,
    /// The name of the session the instance is managing.
    session_name: String,
    /// Should the connections be closed on closing or detaching the session?
    close_on_exit: bool,
    /// Should the operator's terminal be attached once the session stands?
    auto_attach: bool,
}

impl Tmux {
    /// The hosts, as sequences of characters, in pane-assignment order.
    pub closed spec fn hosts_view(&self) -> Seq<Seq<char>> {
        self.hosts@.map_values(|h: String| h@)
    }

    /// The current session name.
    pub closed spec fn name_view(&self) -> Seq<char> {
        self.session_name@
    }

    pub closed spec fn spec_close_on_exit(&self) -> bool {
        self.close_on_exit
    }

    pub closed spec fn spec_auto_attach(&self) -> bool {
        self.auto_attach
    }

    /// Create a new instance of this struct; the operator's terminal will be
    /// attached at the end of a successful `open`.
    pub fn new(hosts: Vec<&str>, close_on_exit: bool) -> (r: Tmux)
        ensures
            r.hosts_view().len() == hosts@.len(),
            forall|k: int| 0 <= k < hosts@.len() ==> r.hosts_view()[k] == hosts@[k]@,
            r.name_view() == Seq::<char>::empty(),
            r.spec_close_on_exit() == close_on_exit,
            r.spec_auto_attach() == true,
    {
        Tmux::new_with_attach(hosts, close_on_exit, true)
    }

    /// Create a new instance, choosing whether a successful `open` ends by
    /// attaching the operator's terminal to the session.
    pub fn new_with_attach(hosts: Vec<&str>, close_on_exit: bool, auto_attach: bool) -> (r: Tmux)
        ensures
            r.hosts_view().len() == hosts@.len(),
            forall|k: int| 0 <= k < hosts@.len() ==> r.hosts_view()[k] == hosts@[k]@,
            r.name_view() == Seq::<char>::empty(),
            r.spec_close_on_exit() == close_on_exit,
            r.spec_auto_attach() == auto_attach,
    {
        let mut owned: Vec<String> = Vec::new();
        let mut i: usize = 0;
        while i < hosts.len()
            invariant
                i <= hosts.len(),
                owned@.len() == i,
                forall|k: int| 0 <= k < i ==> owned@[k]@ == hosts@[k]@,
            decreases hosts.len() - i,
        {
            owned.push(String::from_str(hosts[i]));
            i += 1;
        }
        Tmux { hosts: owned, session_name: String::new(), close_on_exit, auto_attach }
    }

    /// Check if the multiplexer is available, by probing its server
    /// information through the runner.
    pub fn is_tmux_available<R: Runner>(runner: &mut R) -> (r: bool)
        ensures
            final(runner).history() == old(runner).history().push(
                Call { cmd: cmd_server_info(), ok: r },
            ),
    {
        let mut args: Vec<String> = Vec::new();
        args.push(String::from_str("server-info"));
        proof {
            assert(args.deep_view() =~= seq!["server-info"@]);
        }
        Tmux::execute_tmux_command(runner, args)
    }

    /// Execute one multiplexer command through the runner and return whether
    /// its launch succeeded.
    fn execute_tmux_command<R: Runner>(runner: &mut R, arguments: Vec<String>) -> (ok: bool)
        ensures
            final(runner).history() == old(runner).history().push(
                Call { cmd: Cmd { program: "tmux"@, args: arguments.deep_view() }, ok },
            ),
    {
        runner.run("tmux", &arguments)
    }

    /// Issue the session-creation command for the given name.
    fn run_new_session<R: Runner>(runner: &mut R, name: &str) -> (ok: bool)
        ensures
            final(runner).history() == old(runner).history().push(
                Call { cmd: cmd_new_session(name@), ok },
            ),
    {
        let mut args: Vec<String> = Vec::new();
        args.push(String::from_str("new-session"));
        args.push(String::from_str("-d"));
        args.push(String::from_str("-s"));
        args.push(String::from_str(name));
        proof {
            assert(args.deep_view() =~= seq!["new-session"@, "-d"@, "-s"@, name@]);
        }
        Tmux::execute_tmux_command(runner, args)
    }

    /// Issue the window-rename command for the first window.
    fn run_rename_window<R: Runner>(runner: &mut R) -> (ok: bool)
        ensures
            final(runner).history() == old(runner).history().push(
                Call { cmd: cmd_rename_window(), ok },
            ),
    {
        let mut args: Vec<String> = Vec::new();
        args.push(String::from_str("rename-window"));
        args.push(String::from_str("-t"));
        args.push(String::from_str("0"));
        args.push(String::from_str("ssh-sessions"));
        proof {
            assert(args.deep_view() =~= seq!["rename-window"@, "-t"@, "0"@, "ssh-sessions"@]);
        }
        Tmux::execute_tmux_command(runner, args)
    }

    /// Issue one vertical split of the active pane.
    fn run_vertical_split<R: Runner>(runner: &mut R) -> (ok: bool)
        ensures
            final(runner).history() == old(runner).history().push(
                Call { cmd: cmd_vertical_split(), ok },
            ),
    {
        let mut args: Vec<String> = Vec::new();
        args.push(String::from_str("split-window"));
        args.push(String::from_str("-v"));
        proof {
            assert(args.deep_view() =~= seq!["split-window"@, "-v"@]);
        }
        Tmux::execute_tmux_command(runner, args)
    }

    /// Issue one horizontal split of the active pane.
    fn run_horizontal_split<R: Runner>(runner: &mut R) -> (ok: bool)
        ensures
            final(runner).history() == old(runner).history().push(
                Call { cmd: cmd_horizontal_split(), ok },
            ),
    {
        let mut args: Vec<String> = Vec::new();
        args.push(String::from_str("split-window"));
        args.push(String::from_str("-h"));
        proof {
            assert(args.deep_view() =~= seq!["split-window"@, "-h"@]);
        }
        Tmux::execute_tmux_command(runner, args)
    }

    /// Issue a pane-selection command for the given pane address.
    fn run_select_pane<R: Runner>(runner: &mut R, pane: usize) -> (ok: bool)
        ensures
            final(runner).history() == old(runner).history().push(
                Call { cmd: cmd_select_pane(pane as nat), ok },
            ),
    {
        let mut args: Vec<String> = Vec::new();
        args.push(String::from_str("select-pane"));
        args.push(String::from_str("-t"));
        args.push(dec_string(pane));
        proof {
            assert(args.deep_view() =~= seq!["select-pane"@, "-t"@, dec_rep(pane as nat)]);
        }
        Tmux::execute_tmux_command(runner, args)
    }

    /// Issue a pane-selection command that also titles the pane with the
    /// host it will hold.
    fn run_select_pane_titled<R: Runner>(runner: &mut R, pane: usize, host: &str) -> (ok: bool)
        ensures
            final(runner).history() == old(runner).history().push(
                Call { cmd: cmd_select_pane_titled(pane as nat, host@), ok },
            ),
    {
        let mut args: Vec<String> = Vec::new();
        args.push(String::from_str("select-pane"));
        args.push(String::from_str("-t"));
        args.push(dec_string(pane));
        args.push(String::from_str("-T"));
        args.push(String::from_str(host));
        proof {
            assert(args.deep_view() =~= seq![
                "select-pane"@,
                "-t"@,
                dec_rep(pane as nat),
                "-T"@,
                host@,
            ]);
        }
        Tmux::execute_tmux_command(runner, args)
    }

    /// Type the remote-shell command for `host`, followed by an execute
    /// keystroke, into the given pane.
    fn run_send_ssh_keys<R: Runner>(runner: &mut R, pane: usize, host: &str) -> (ok: bool)
        ensures
            final(runner).history() == old(runner).history().push(
                Call { cmd: cmd_send_ssh_keys(pane as nat, host@), ok },
            ),
    {
        let mut text = String::from_str("\"ssh ");
        text.append(host);
        text.append("\"");
        let mut args: Vec<String> = Vec::new();
        args.push(String::from_str("send-keys"));
        args.push(String::from_str("-t"));
        args.push(dec_string(pane));
        args.push(text);
        args.push(String::from_str("C-m"));
        proof {
            assert(args.deep_view() =~= seq![
                "send-keys"@,
                "-t"@,
                dec_rep(pane as nat),
                "\"ssh "@ + host@ + "\""@,
                "C-m"@,
            ]);
        }
        Tmux::execute_tmux_command(runner, args)
    }

    /// Issue the command that attaches the caller's terminal to the named
    /// session's first window.
    fn run_attach<R: Runner>(runner: &mut R, name: &str) -> (ok: bool)
        ensures
            final(runner).history() == old(runner).history().push(
                Call { cmd: cmd_attach(name@), ok },
            ),
    {
        let mut target = String::from_str(name);
        target.append(":0");
        let mut args: Vec<String> = Vec::new();
        args.push(String::from_str("attach-session"));
        args.push(String::from_str("-t"));
        args.push(target);
        proof {
            assert(args.deep_view() =~= seq!["attach-session"@, "-t"@, name@ + ":0"@]);
        }
        Tmux::execute_tmux_command(runner, args)
    }

    /// Calculates how many horizontal and vertical splits are required to
    /// represent all remote-shell connections. Fails exactly on an empty
    /// host list; otherwise the counts follow the two-row grid formula,
    /// saturating at the split counter's maximum.
    pub fn calculate_split_panes_for_hosts(&self) -> (r: Result<Splits, ScitsifreineErrors>)
        ensures
            match r {
                Ok(s) => {
                    &&& self.hosts_view().len() > 0
                    &&& s.horizontal_split_count as nat == plan_horizontal(self.hosts_view().len())
                    &&& s.vertical_split_count as nat == plan_vertical(self.hosts_view().len())
                },
                Err(e) => self.hosts_view().len() == 0 && e == ScitsifreineErrors::NoHosts,
            },
    {
        proof {
            assert(self.hosts_view().len() == self.hosts@.len());
        }
        if self.hosts.is_empty() {
            return Err(ScitsifreineErrors::NoHosts);
        }
        let n: usize = self.hosts.len();
        let horizontal: u8 = if n >= 512 {
            255
        } else {
            ((n + 1) / 2 - 1) as u8
        };
        let vertical: u8 = if n >= 512 {
            255
        } else {
            (n / 2) as u8
        };
        Ok(Splits::new(horizontal, vertical))
    }

    /// Generate a valid session name based on the hosts we should connect
    /// to: the prefix, followed by the leading label of every host,
    /// dash-joined.
    pub fn generate_session_name(&self, prefix: &str) -> (r: String)
        ensures
            r@ == session_name_spec(prefix@, self.hosts_view()),
    {
        proof {
            reveal_strlit("-");
            assert(self.hosts_view().len() == self.hosts@.len());
        }
        let mut name = String::from_str(prefix);
        proof {
            assert(self.hosts_view().take(0) =~= Seq::<Seq<char>>::empty());
            assert(name@ =~= prefix@ + name_tail(self.hosts_view().take(0)));
        }
        let mut j: usize = 0;
        while j < self.hosts.len()
            invariant
                j <= self.hosts.len(),
                self.hosts_view().len() == self.hosts@.len(),
                name@ == prefix@ + name_tail(self.hosts_view().take(j as int)),
            decreases self.hosts.len() - j,
        {
            name.append("-");
            let lbl = leading_label(self.hosts[j].as_str());
            name.append(lbl);
            proof {
                reveal_strlit("-");
                let hv = self.hosts_view();
                lemma_name_tail_push(hv.take(j as int), hv[j as int]);
                assert(hv.take(j + 1) =~= hv.take(j as int).push(hv[j as int]));
                assert("-"@ =~= seq!['-']);
                assert(name@ =~= prefix@ + name_tail(hv.take(j + 1)));
            }
            j += 1;
        }
        proof {
            assert(self.hosts_view().take(self.hosts@.len() as int) =~= self.hosts_view());
        }
        name
    }

    /// Create the named detached session and label its first window. On
    /// failure the error names the command that failed, and nothing after it
    /// was issued.
    pub fn create_tmux_session_and_window<R: Runner>(&self, runner: &mut R) -> (r: Result<
        (),
        TmuxExecutionErrors,
    >)
        ensures
            ({
                let plan = session_window_plan(self.name_view());
                let h0 = old(runner).history();
                let h1 = final(runner).history();
                match r {
                    Ok(_) => h1 == h0 + ok_calls(plan),
                    Err(TmuxExecutionErrors::CreateSession) => failed_at(plan, h0, h1, 0),
                    Err(TmuxExecutionErrors::RenameWindow) => failed_at(plan, h0, h1, 1),
                    Err(_) => false,
                }
            }),
    {
        let ghost plan = session_window_plan(self.name_view());
        let ghost h0 = runner.history();
        if !Tmux::run_new_session(runner, self.session_name.as_str()) {
            proof {
                assert(ok_calls(plan.take(0)) =~= Seq::<Call>::empty());
                assert(runner.history() =~= h0 + ok_calls(plan.take(0)).push(
                    failed_call(plan[0]),
                ));
            }
            return Err(TmuxExecutionErrors::CreateSession);
        }
        if !Tmux::run_rename_window(runner) {
            proof {
                assert(ok_calls(plan.take(1)) =~= seq![ok_call(plan[0])]);
                assert(runner.history() =~= h0 + ok_calls(plan.take(1)).push(
                    failed_call(plan[1]),
                ));
            }
            return Err(TmuxExecutionErrors::RenameWindow);
        }
        proof {
            assert(runner.history() =~= h0 + ok_calls(plan));
        }
        Ok(())
    }

    /// Build the pane grid: plan the split counts for the hosts, then issue
    /// every vertical split and every select-and-split pair for the
    /// horizontal ones, fail-fast. On an empty host list no command is
    /// issued at all.
    #[verifier::loop_isolation(false)]
    pub fn create_split_panes<R: Runner>(&self, runner: &mut R) -> (r: Result<
        (),
        TmuxExecutionErrors,
    >)
        ensures
            ({
                let n = self.hosts_view().len();
                let plan = split_plan(n);
                let v = plan_vertical(n) as int;
                let h0 = old(runner).history();
                let h1 = final(runner).history();
                match r {
                    Ok(_) => n > 0 && h1 == h0 + ok_calls(plan),
                    Err(TmuxExecutionErrors::CalculateSplittingForHosts) => n == 0 && h1 == h0,
                    Err(TmuxExecutionErrors::VerticalSplit) => n > 0 && exists|k: int|
                        #[trigger] failed_at(plan, h0, h1, k) && k < v,
                    Err(TmuxExecutionErrors::SelectPane) => n > 0 && exists|k: int|
                        #[trigger] failed_at(plan, h0, h1, k) && k >= v && (k - v) % 2 == 0,
                    Err(TmuxExecutionErrors::HorizontalSplit) => n > 0 && exists|k: int|
                        #[trigger] failed_at(plan, h0, h1, k) && k >= v && (k - v) % 2 == 1,
                    Err(_) => false,
                }
            }),
    {
        let splits = match self.calculate_split_panes_for_hosts() {
            Ok(s) => s,
            Err(_) => {
                return Err(TmuxExecutionErrors::CalculateSplittingForHosts);
            },
        };
        let ghost n: nat = self.hosts_view().len();
        let ghost plan = split_plan(n);
        let ghost vp = vertical_split_plan(plan_vertical(n));
        let ghost hp = horizontal_split_plan(plan_horizontal(n));
        let ghost h0 = runner.history();

        let total_vertical: u8 = splits.vertical_split_count;
        let mut vertical_splits_remaining = splits.vertical_split_count;
        while vertical_splits_remaining > 0
            invariant
                vertical_splits_remaining <= total_vertical,
                runner.history() == h0 + ok_calls(
                    vp.take(total_vertical - vertical_splits_remaining),
                ),
            decreases vertical_splits_remaining,
        {
            let ghost done: int = total_vertical - vertical_splits_remaining;
            if !Tmux::run_vertical_split(runner) {
                proof {
                    assert(plan.take(done) =~= vp.take(done));
                    assert(plan[done] == cmd_vertical_split());
                    assert(runner.history() =~= h0 + ok_calls(plan.take(done)).push(
                        failed_call(plan[done]),
                    ));
                    assert(failed_at(plan, h0, runner.history(), done) && done < plan_vertical(
                        n,
                    ) as int);
                }
                return Err(TmuxExecutionErrors::VerticalSplit);
            }
            proof {
                assert(vp.take(done + 1) =~= vp.take(done).push(cmd_vertical_split()));
                lemma_ok_calls_push(vp.take(done), cmd_vertical_split());
                assert(runner.history() =~= h0 + ok_calls(vp.take(done + 1)));
            }
            vertical_splits_remaining = vertical_splits_remaining - 1;
        }
        proof {
            assert(vp.take(total_vertical as int) =~= vp);
        }

        let total_horizontal: u8 = splits.horizontal_split_count;
        let mut horizontal_splits_remaining = splits.horizontal_split_count;
        let mut pane_idx: usize = 0;
        while horizontal_splits_remaining > 0
            invariant
                horizontal_splits_remaining <= total_horizontal,
                pane_idx == 2 * (total_horizontal - horizontal_splits_remaining),
                runner.history() == h0 + ok_calls(
                    vp + hp.take(2 * (total_horizontal - horizontal_splits_remaining)),
                ),
            decreases horizontal_splits_remaining,
        {
            let ghost done: int = total_horizontal - horizontal_splits_remaining;
            let ghost issued = vp + hp.take(2 * done);
            if !Tmux::run_select_pane(runner, pane_idx) {
                proof {
                    assert(hp[2 * done] == cmd_select_pane((2 * done) as nat));
                    assert(plan.take(vp.len() + 2 * done) =~= issued);
                    assert(plan[vp.len() + 2 * done] == hp[2 * done]);
                    assert(runner.history() =~= h0 + ok_calls(
                        plan.take(vp.len() + 2 * done),
                    ).push(failed_call(plan[vp.len() + 2 * done])));
                    assert(failed_at(plan, h0, runner.history(), vp.len() + 2 * done));
                }
                return Err(TmuxExecutionErrors::SelectPane);
            }
            if !Tmux::run_horizontal_split(runner) {
                proof {
                    let k = vp.len() + 2 * done + 1;
                    assert(hp[2 * done + 1] == cmd_horizontal_split());
                    assert(hp.take(2 * done + 1) =~= hp.take(2 * done).push(
                        cmd_select_pane((2 * done) as nat),
                    ));
                    lemma_ok_calls_push(issued, cmd_select_pane((2 * done) as nat));
                    assert(plan.take(k) =~= issued.push(cmd_select_pane((2 * done) as nat)));
                    assert(plan[k] == cmd_horizontal_split());
                    assert(runner.history() =~= h0 + ok_calls(plan.take(k)).push(
                        failed_call(plan[k]),
                    ));
                    assert(failed_at(plan, h0, runner.history(), k));
                }
                return Err(TmuxExecutionErrors::HorizontalSplit);
            }
            proof {
                assert(hp.take(2 * done + 2) =~= hp.take(2 * done).push(
                    cmd_select_pane((2 * done) as nat),
                ).push(cmd_horizontal_split()));
                lemma_ok_calls_push(issued, cmd_select_pane((2 * done) as nat));
                lemma_ok_calls_push(
                    issued.push(cmd_select_pane((2 * done) as nat)),
                    cmd_horizontal_split(),
                );
                assert(vp + hp.take(2 * (done + 1)) =~= issued.push(
                    cmd_select_pane((2 * done) as nat),
                ).push(cmd_horizontal_split()));
                assert(runner.history() =~= h0 + ok_calls(vp + hp.take(2 * (done + 1))));
            }
            pane_idx = pane_idx + 2;
            horizontal_splits_remaining = horizontal_splits_remaining - 1;
        }
        proof {
            assert(hp.take(2 * (total_horizontal as int)) =~= hp);
            assert(runner.history() =~= h0 + ok_calls(plan));
        }
        Ok(())
    }

    /// Connect every host in order: select its target pane, then type the
    /// remote-shell command into it, fail-fast.
    #[verifier::loop_isolation(false)]
    pub fn open_ssh_connections<R: Runner>(&self, runner: &mut R) -> (r: Result<
        (),
        TmuxExecutionErrors,
    >)
        ensures
            ({
                let plan = connect_plan(self.hosts_view());
                let h0 = old(runner).history();
                let h1 = final(runner).history();
                match r {
                    Ok(_) => h1 == h0 + ok_calls(plan),
                    Err(TmuxExecutionErrors::SelectPane) => exists|k: int|
                        #[trigger] failed_at(plan, h0, h1, k) && k % 2 == 0,
                    Err(TmuxExecutionErrors::SendKeysToSession) => exists|k: int|
                        #[trigger] failed_at(plan, h0, h1, k) && k % 2 == 1,
                    Err(_) => false,
                }
            }),
    {
        let ghost plan = connect_plan(self.hosts_view());
        let ghost h0 = runner.history();
        let pane_idx: usize = 0;
        let mut j: usize = 0;
        proof {
            assert(self.hosts_view().len() == self.hosts@.len());
        }
        while j < self.hosts.len()
            invariant
                j <= self.hosts.len(),
                runner.history() == h0 + ok_calls(plan.take(2 * j)),
            decreases self.hosts.len() - j,
        {
            let current_host = self.hosts[j].as_str();
            if !Tmux::run_select_pane_titled(runner, pane_idx, current_host) {
                proof {
                    assert(plan[2 * j] == cmd_select_pane_titled(0, self.hosts_view()[j as int]));
                    assert(runner.history() =~= h0 + ok_calls(plan.take(2 * j)).push(
                        failed_call(plan[2 * j]),
                    ));
                    assert(failed_at(plan, h0, runner.history(), 2 * j));
                }
                return Err(TmuxExecutionErrors::SelectPane);
            }
            if !Tmux::run_send_ssh_keys(runner, pane_idx, current_host) {
                proof {
                    assert(plan[2 * j + 1] == cmd_send_ssh_keys(0, self.hosts_view()[j as int]));
                    assert(plan.take(2 * j + 1) =~= plan.take(2 * j).push(plan[2 * j]));
                    lemma_ok_calls_push(plan.take(2 * j), plan[2 * j]);
                    assert(runner.history() =~= h0 + ok_calls(plan.take(2 * j + 1)).push(
                        failed_call(plan[2 * j + 1]),
                    ));
                    assert(failed_at(plan, h0, runner.history(), 2 * j + 1));
                }
                return Err(TmuxExecutionErrors::SendKeysToSession);
            }
            proof {
                assert(plan.take(2 * (j + 1)) =~= plan.take(2 * j).push(plan[2 * j]).push(
                    plan[2 * j + 1],
                ));
                lemma_ok_calls_push(plan.take(2 * j), plan[2 * j]);
                lemma_ok_calls_push(plan.take(2 * j).push(plan[2 * j]), plan[2 * j + 1]);
                assert(runner.history() =~= h0 + ok_calls(plan.take(2 * (j + 1))));
            }
            j += 1;
        }
        proof {
            assert(plan.take(2 * self.hosts@.len() as int) =~= plan);
        }
        Ok(())
    }

    /// Attach the caller's terminal to the session's first window; the
    /// attach is best-effort, so the launch outcome is not inspected.
    pub fn attach_session<R: Runner>(&self, runner: &mut R)
        ensures
            final(runner).history().len() == old(runner).history().len() + 1,
            final(runner).history().drop_last() == old(runner).history(),
            final(runner).history().last().cmd == cmd_attach(self.name_view()),
    {
        let _attached = Tmux::run_attach(runner, self.session_name.as_str());
        proof {
            assert(runner.history().drop_last() =~= old(runner).history());
        }
    }

    /// Run the whole pipeline: derive the session name, create the session
    /// and window, build the pane grid, connect every host, and attach if
    /// configured to. Returns true only if every stage before the attach
    /// succeeded; any failure aborts the remaining stages at once.
    pub fn open<R: Runner>(&mut self, runner: &mut R) -> (r: bool)
        ensures
            final(self).hosts_view() == old(self).hosts_view(),
            final(self).spec_close_on_exit() == old(self).spec_close_on_exit(),
            final(self).spec_auto_attach() == old(self).spec_auto_attach(),
            final(self).name_view() == session_name_spec("multissh"@, old(self).hosts_view()),
            ({
                let name = session_name_spec("multissh"@, old(self).hosts_view());
                let plan = open_plan(old(self).hosts_view(), name);
                let h0 = old(runner).history();
                let h1 = final(runner).history();
                if r {
                    &&& old(self).hosts_view().len() > 0
                    &&& if old(self).spec_auto_attach() {
                        &&& h1.len() == h0.len() + plan.len() + 1
                        &&& h1.drop_last() == h0 + ok_calls(plan)
                        &&& h1.last().cmd == cmd_attach(name)
                    } else {
                        h1 == h0 + ok_calls(plan)
                    }
                } else {
                    if old(self).hosts_view().len() == 0 {
                        h1 == h0 + ok_calls(session_window_plan(name)) || failed_run(
                            session_window_plan(name),
                            h0,
                            h1,
                        )
                    } else {
                        failed_run(plan, h0, h1)
                    }
                }
            }),
    {
        let name = self.generate_session_name("multissh");
        self.session_name = name;
        let ghost hosts = self.hosts_view();
        let ghost sname = self.name_view();
        let ghost swp = session_window_plan(sname);
        let ghost sp = split_plan(hosts.len());
        let ghost cp = connect_plan(hosts);
        let ghost plan = open_plan(hosts, sname);
        let ghost h0 = runner.history();

        if self.create_tmux_session_and_window(runner).is_err() {
            proof {
                let k = choose|k: int| failed_at(swp, h0, runner.history(), k);
                lemma_failed_at_plan_extension(swp, sp + cp, h0, runner.history(), k);
                assert(swp + (sp + cp) =~= plan);
            }
            return false;
        }
        let ghost h1 = runner.history();

        if self.create_split_panes(runner).is_err() {
            proof {
                if hosts.len() > 0 {
                    let k = choose|k: int| failed_at(sp, h1, runner.history(), k);
                    lemma_failed_run_after_prefix(swp, sp, h0, runner.history(), k);
                    lemma_failed_at_plan_extension(
                        swp + sp,
                        cp,
                        h0,
                        runner.history(),
                        swp.len() + k,
                    );
                    assert((swp + sp) + cp =~= plan);
                }
            }
            return false;
        }
        let ghost h2 = runner.history();

        if self.open_ssh_connections(runner).is_err() {
            proof {
                lemma_ok_calls_concat(swp, sp);
                assert(h2 =~= h0 + ok_calls(swp + sp));
                let k = choose|k: int| failed_at(cp, h2, runner.history(), k);
                lemma_failed_run_after_prefix(swp + sp, cp, h0, runner.history(), k);
                assert((swp + sp) + cp =~= plan);
            }
            return false;
        }
        proof {
            lemma_ok_calls_concat(swp, sp);
            lemma_ok_calls_concat(swp + sp, cp);
            assert((swp + sp) + cp =~= plan);
            assert(runner.history() =~= h0 + ok_calls(plan));
        }

        if self.auto_attach {
            self.attach_session(runner);
        }
        true
    }
}

} // verus!
