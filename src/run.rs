use crate::plan::{plan_fits, plan_len, step_at, step_for, Step, EXIT_FAILURE, EXIT_SUCCESS};
use vstd::prelude::*;

verus! {

/// How the step that the caller performed last turned out.
#[derive(Clone, Copy, Debug, PartialEq, Eq, Structural)]
pub enum Outcome {
    Succeeded,
    Failed,
}

/// Abstract state of a run: the plan position of the step handed out last,
/// and the exit code once the run has finished.
pub struct Progress {
    pub position: nat,
    pub exit_code: Option<i32>,
}

/// State of a run that waits for the outcome of the step at `position`.
pub open spec fn running_at(position: nat) -> Progress {
    Progress { position, exit_code: None }
}

/// State of a run that finished at `position` with exit code `code`.
pub open spec fn finished_at(position: nat, code: i32) -> Progress {
    Progress { position, exit_code: Some(code) }
}

/// State of a run before any step has been performed.
pub open spec fn start_progress() -> Progress {
    running_at(0)
}

/// The step that a run over `n` networks asks for in state `p`.
pub open spec fn step_of(n: nat, p: Progress) -> Step {
    match p.exit_code {
        Some(code) => Step::Finish(code),
        None => step_at(n, p.position),
    }
}

/// State of a run over `n` networks after the step of state `p` ended with
/// outcome `o`.
///
/// A finished run stays as it is. A failed step finishes the run with the
/// failure exit code. A successful step moves to the next step of the plan,
/// or finishes the run with the success exit code if it was the last one.
pub open spec fn advanced(n: nat, p: Progress, o: Outcome) -> Progress {
    if p.exit_code is Some {
        p
    } else if o == Outcome::Failed {
        finished_at(p.position, EXIT_FAILURE)
    } else if p.position + 1 >= plan_len(n) {
        finished_at(p.position, EXIT_SUCCESS)
    } else {
        running_at(p.position + 1)
    }
}

/// State of a run over `n` networks after the outcomes `s`, in order,
/// starting from state `p`.
pub open spec fn run_through(n: nat, p: Progress, s: Seq<Outcome>) -> Progress
    decreases s.len(),
{
    if s.len() == 0 {
        p
    } else {
        advanced(n, run_through(n, p, s.drop_last()), s.last())
    }
}

/// A run in which every step succeeds walks the plan in order: after `m`
/// successes with `m` below the plan's length it asks for step `m` of the
/// plan, and once all steps of the plan have succeeded it finishes with the
/// success exit code.
pub proof fn lemma_successful_run(n: nat, s: Seq<Outcome>)
    requires
        s.len() <= plan_len(n),
        forall|j: int| 0 <= j < s.len() ==> s[j] == Outcome::Succeeded,
    ensures
        s.len() < plan_len(n) ==> run_through(n, start_progress(), s) == running_at(s.len()),
        s.len() < plan_len(n) ==> step_of(n, run_through(n, start_progress(), s)) == step_at(
            n,
            s.len(),
        ),
        s.len() == plan_len(n) ==> run_through(n, start_progress(), s) == finished_at(
            (plan_len(n) - 1) as nat,
            EXIT_SUCCESS,
        ),
    decreases s.len(),
{
    if s.len() > 0 {
        lemma_successful_run(n, s.drop_last());
    }
}

/// The first failed step ends the run: if the steps before position `k`
/// succeeded and step `k` failed, the run finishes there with the failure exit
/// code, whatever outcomes are reported afterwards.
pub proof fn lemma_failed_step_ends_run(n: nat, s: Seq<Outcome>, k: nat)
    requires
        k < s.len(),
        k < plan_len(n),
        s[k as int] == Outcome::Failed,
        forall|j: int| 0 <= j < k ==> s[j] == Outcome::Succeeded,
    ensures
        run_through(n, start_progress(), s) == finished_at(k, EXIT_FAILURE),
        step_of(n, run_through(n, start_progress(), s)) == Step::Finish(EXIT_FAILURE),
    decreases s.len(),
{
    let before = s.drop_last();
    if s.len() - 1 == k {
        lemma_successful_run(n, before);
    } else {
        lemma_failed_step_ends_run(n, before, k);
    }
}

/// The chain identifiers a run visits when none are given.
pub fn default_chain_ids() -> (ids: Vec<String>)
    ensures
        ids@.len() == 1,
        ids@[0]@ == "juno-1"@,
{
    let mut ids: Vec<String> = Vec::new();
    ids.push("juno-1".to_owned());
    ids
}

/// A run of the registry update over a list of chain identifiers.
///
/// The caller asks for the current step, performs it, and reports its outcome
/// to `advance`, which returns the next step, until a `Step::Finish`.
pub struct UpdateRun {
    chain_ids: Vec<String>,
    steps: usize,
    position: usize,
    exit_code: Option<i32>,
}

impl UpdateRun {
    /// The chain identifiers the run visits, in order.
    pub closed spec fn chain_ids(&self) -> Seq<String> {
        self.chain_ids@
    }

    /// Number of networks the run visits.
    pub open spec fn network_count(&self) -> nat {
        self.chain_ids().len()
    }

    /// Abstract state of the run.
    pub closed spec fn progress(&self) -> Progress {
        Progress { position: self.position as nat, exit_code: self.exit_code }
    }

    pub closed spec fn wf(&self) -> bool {
        &&& plan_fits(self.chain_ids@.len())
        &&& self.steps == plan_len(self.chain_ids@.len())
        &&& self.position < self.steps
    }

    /// A run over `chain_ids`, before its first step; `None` when the number
    /// of steps would not fit in a `usize`.
    pub fn new(chain_ids: Vec<String>) -> (r: Option<Self>)
        ensures
            r is Some <==> plan_fits(chain_ids@.len()),
            r matches Some(run) ==> {
                &&& run.wf()
                &&& run.chain_ids() == chain_ids@
                &&& run.progress() == start_progress()
            },
    {
        let n = chain_ids.len();
        match n.checked_mul(7) {
            None => None,
            Some(m) => match m.checked_add(2) {
                None => None,
                Some(steps) => Some(UpdateRun { chain_ids, steps, position: 0, exit_code: None }),
            },
        }
    }

    /// Number of networks the run visits.
    pub fn networks(&self) -> (r: usize)
        ensures
            r == self.network_count(),
    {
        self.chain_ids.len()
    }

    /// The chain identifier of the network at index `i`.
    pub fn chain_id(&self, i: usize) -> (r: &String)
        requires
            i < self.network_count(),
        ensures
            *r == self.chain_ids()[i as int],
    {
        &self.chain_ids[i]
    }

    /// The exit code, once the run has finished.
    pub fn exit_code(&self) -> (r: Option<i32>)
        ensures
            r == self.progress().exit_code,
    {
        self.exit_code
    }

    /// The step the caller is asked to perform now.
    pub fn current(&self) -> (s: Step)
        requires
            self.wf(),
        ensures
            s == step_of(self.network_count(), self.progress()),
    {
        match self.exit_code {
            Some(code) => Step::Finish(code),
            None => step_for(self.chain_ids.len(), self.position),
        }
    }

    /// Records the outcome of the current step and returns the next one.
    pub fn advance(&mut self, outcome: Outcome) -> (s: Step)
        requires
            old(self).wf(),
        ensures
            final(self).wf(),
            final(self).chain_ids() == old(self).chain_ids(),
            final(self).progress() == advanced(
                old(self).network_count(),
                old(self).progress(),
                outcome,
            ),
            s == step_of(final(self).network_count(), final(self).progress()),
    {
        if let Some(code) = self.exit_code {
            return Step::Finish(code);
        }
        match outcome {
            Outcome::Failed => {
                self.exit_code = Some(EXIT_FAILURE);
                Step::Finish(EXIT_FAILURE)
            },
            Outcome::Succeeded => {
                if self.position + 1 == self.steps {
                    self.exit_code = Some(EXIT_SUCCESS);
                    Step::Finish(EXIT_SUCCESS)
                } else {
                    self.position = self.position + 1;
                    step_for(self.chain_ids.len(), self.position)
                }
            },
        }
    }
}

} // verus!
