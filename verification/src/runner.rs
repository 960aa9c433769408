//! The boundary abstraction for launching external commands.
//!
//! A [`Runner`] launches one external program with arguments and reports
//! whether the launch succeeded. Every runner carries a ghost history of the
//! calls made through it, so the driver's contracts can state exactly which
//! commands were issued and in what order. [`ScriptedRunner`] is a verified
//! runner that records every call and answers from a prepared script of
//! outcomes; it is how the driver is exercised without a real multiplexer.

use vstd::prelude::*;

use crate::cmd::Call;
use crate::cmd::CallRecord;
use crate::cmd::Cmd;

verus! {

/// Launches one external program and reports launch success or failure.
///
/// The history is the ordered ghost record of every call made through the
/// runner. `run` promises nothing about the outcome it returns: whether a
/// launch succeeds is the environment's choice, and the contracts of the
/// driver hold whatever comes back.
pub trait Runner: Sized {
    /// The calls made through this runner so far, oldest first. A runner
    /// that is used only from unverified code may keep the default, which
    /// records nothing.
    open spec fn history(&self) -> Seq<Call> {
        Seq::empty()
    }

    /// Launches `program` with `arguments`; the result tells whether the
    /// launch succeeded.
    fn run(&mut self, program: &str, arguments: &Vec<String>) -> (ok: bool)
        ensures
            final(self).history() == old(self).history().push(
                Call { cmd: Cmd { program: program@, args: arguments.deep_view() }, ok },
            ),
    ;
}

/// A runner that records every call and answers from a prepared script.
///
/// The call at index `i` reports the `i`-th scripted outcome; calls beyond
/// the end of the script succeed.
pub struct ScriptedRunner {
    outcomes: Vec<bool>,
    log: Vec<CallRecord>,
}

impl ScriptedRunner {
    /// The scripted outcomes, by call index.
    pub closed spec fn script(&self) -> Seq<bool> {
        self.outcomes@
    }

    pub fn new(outcomes: Vec<bool>) -> (r: ScriptedRunner)
        ensures
            r.history() == Seq::<Call>::empty(),
            r.script() == outcomes@,
    {
        let r = ScriptedRunner { outcomes, log: Vec::new() };
        proof {
            assert(r.history() =~= Seq::<Call>::empty());
        }
        r
    }

    /// A runner for which every launch succeeds.
    pub fn always_succeeding() -> (r: ScriptedRunner)
        ensures
            r.history() == Seq::<Call>::empty(),
            r.script() == Seq::<bool>::empty(),
    {
        let r = ScriptedRunner::new(Vec::new());
        r
    }

    /// The records of the calls made so far, oldest first.
    pub fn calls(&self) -> (r: &Vec<CallRecord>)
        ensures
            r.deep_view() == self.history(),
    {
        proof {
            assert(self.log.deep_view() =~= self.history());
        }
        &self.log
    }
}

impl Runner for ScriptedRunner {
    closed spec fn history(&self) -> Seq<Call> {
        self.log.deep_view()
    }

    fn run(&mut self, program: &str, arguments: &Vec<String>) -> (ok: bool) {
        let idx: usize = self.log.len();
        let ok = if idx < self.outcomes.len() {
            self.outcomes[idx]
        } else {
            true
        };
        let record = CallRecord {
            program: String::from_str(program),
            args: clone_strings(arguments),
            ok,
        };
        proof {
            assert(record.args.deep_view() =~= arguments.deep_view());
            assert(record@ == Call {
                cmd: Cmd { program: program@, args: arguments.deep_view() },
                ok,
            });
        }
        self.log.push(record);
        proof {
            assert(self.history() =~= old(self).history().push(
                Call { cmd: Cmd { program: program@, args: arguments.deep_view() }, ok },
            ));
        }
        ok
    }
}

/// Copies a list of argument strings.
fn clone_strings(v: &Vec<String>) -> (r: Vec<String>)
    ensures
        r@ == v@,
{
    let mut r: Vec<String> = Vec::new();
    let mut i: usize = 0;
    while i < v.len()
        invariant
            i <= v.len(),
            r@ == v@.take(i as int),
        decreases v.len() - i,
    {
        r.push(v[i].clone());
        proof {
            assert(r@ =~= v@.take(i + 1));
        }
        i += 1;
    }
    proof {
        assert(r@ =~= v@);
    }
    r
}

} // verus!
