use vstd::arithmetic::div_mod::lemma_fundamental_div_mod_converse;
use vstd::prelude::*;

verus! {

/// One of the six steps made for each network, in the order they run.
#[derive(Clone, Copy, Debug, PartialEq, Eq, Structural)]
pub enum Stage {
    /// Build a chain connection for the network.
    Connect,
    /// Load the deployment that lives on that chain.
    LoadDeployment,
    /// Fetch the registry entries scraped from the reference source.
    FetchScraped,
    /// Fetch the registry entries stored on chain.
    FetchOnChain,
    /// Compute the difference between the two sets of entries.
    Diff,
    /// Upload the difference to the on-chain registry.
    Upload,
}

/// What the caller is asked to do next.
#[derive(Clone, Copy, Debug, PartialEq, Eq, Structural)]
pub enum Step {
    /// Start the asynchronous runtime that later steps run on.
    StartRuntime,
    /// Load the deployment against a local mock chain.
    LoadLocalDeployment,
    /// Resolve the chain identifier at this index into network information.
    ResolveNetwork(usize),
    /// Perform a stage for the network at this index.
    Visit(usize, Stage),
    /// Stop the run and exit the process with this code.
    Finish(i32),
}

/// Number of stages made for each network.
pub const STAGES_PER_NETWORK: usize = 6;

/// Exit code of a run in which every step succeeded.
pub const EXIT_SUCCESS: i32 = 0;

/// Exit code of a run that stopped on a failed step.
pub const EXIT_FAILURE: i32 = 1;

/// The stage at position `i` (0 to 5) of a network's block of steps.
pub open spec fn stage_at(i: int) -> Stage {
    if i == 0 {
        Stage::Connect
    } else if i == 1 {
        Stage::LoadDeployment
    } else if i == 2 {
        Stage::FetchScraped
    } else if i == 3 {
        Stage::FetchOnChain
    } else if i == 4 {
        Stage::Diff
    } else {
        Stage::Upload
    }
}

/// Position of a stage within a network's block of steps.
pub open spec fn stage_index(s: Stage) -> int {
    match s {
        Stage::Connect => 0,
        Stage::LoadDeployment => 1,
        Stage::FetchScraped => 2,
        Stage::FetchOnChain => 3,
        Stage::Diff => 4,
        Stage::Upload => 5,
    }
}

/// Number of steps in a run over `n` networks, when none fails: the two
/// opening steps, one resolution per network, and six stages per network.
pub open spec fn plan_len(n: nat) -> nat {
    2 + n + 6 * n
}

/// The step at position `k` of a run over `n` networks.
///
/// The run starts the runtime, loads the local deployment, resolves every
/// network in order, and then visits the networks in order, each in one
/// block of six consecutive stages.
pub open spec fn step_at(n: nat, k: nat) -> Step {
    if k == 0 {
        Step::StartRuntime
    } else if k == 1 {
        Step::LoadLocalDeployment
    } else if k < 2 + n {
        Step::ResolveNetwork((k - 2) as usize)
    } else {
        let j = k - 2 - n;
        Step::Visit((j / 6) as usize, stage_at(j % 6))
    }
}

/// Position in the plan at which `stage` of network `i` is performed.
pub open spec fn visit_position(n: nat, i: nat, stage: Stage) -> nat {
    (2 + n + 6 * i + stage_index(stage)) as nat
}

/// Whether a run over `n` networks fits the machine's position counter.
pub open spec fn plan_fits(n: nat) -> bool {
    plan_len(n) <= usize::MAX
}

fn stage_from_index(i: usize) -> (s: Stage)
    requires
        i < 6,
    ensures
        s == stage_at(i as int),
{
    if i == 0 {
        Stage::Connect
    } else if i == 1 {
        Stage::LoadDeployment
    } else if i == 2 {
        Stage::FetchScraped
    } else if i == 3 {
        Stage::FetchOnChain
    } else if i == 4 {
        Stage::Diff
    } else {
        Stage::Upload
    }
}

/// The step at position `k` of a run over `n` networks.
pub fn step_for(n: usize, k: usize) -> (s: Step)
    requires
        plan_fits(n as nat),
        k < plan_len(n as nat),
    ensures
        s == step_at(n as nat, k as nat),
{
    if k == 0 {
        Step::StartRuntime
    } else if k == 1 {
        Step::LoadLocalDeployment
    } else if k - 2 < n {
        Step::ResolveNetwork(k - 2)
    } else {
        let j: usize = k - 2 - n;
        Step::Visit(j / STAGES_PER_NETWORK, stage_from_index(j % STAGES_PER_NETWORK))
    }
}

/// Every network is resolved exactly once and every stage of every network is
/// performed exactly once: in a run over `n` networks, network `i` is resolved
/// at position `2 + i` only, and its stage `s` is performed at
/// `visit_position(n, i, s)` only. Networks are visited in order, one whole
/// block of stages after the other, and within a block the stages keep their
/// order.
pub proof fn lemma_each_network_visited_once(n: nat, i: nat, s: Stage, k: nat)
    requires
        plan_fits(n),
        i < n,
        k < plan_len(n),
    ensures
        step_at(n, k) == Step::ResolveNetwork(i as usize) <==> k == 2 + i,
        step_at(n, k) == Step::Visit(i as usize, s) <==> k == visit_position(n, i, s),
        visit_position(n, i, s) < plan_len(n),
        forall|i2: nat, s2: Stage|
            i < i2 ==> #[trigger] visit_position(n, i2, s2) > visit_position(n, i, s),
        forall|s2: Stage|
            stage_index(s) < stage_index(s2) ==> #[trigger] visit_position(n, i, s2)
                > visit_position(n, i, s),
{
    let p = visit_position(n, i, s);
    let jp = 6 * i + stage_index(s);
    lemma_fundamental_div_mod_converse(jp, 6, i as int, stage_index(s));
    assert(step_at(n, p) == Step::Visit(i as usize, s));
    if k >= 2 + n {
        let j = k - 2 - n;
        assert(0 <= j % 6 < 6 && j == 6 * (j / 6) + j % 6) by {
            vstd::arithmetic::div_mod::lemma_fundamental_div_mod(j as int, 6);
        }
        assert(j / 6 < n);
        if step_at(n, k) == Step::Visit(i as usize, s) {
            assert(j / 6 == i);
            assert(stage_at(j % 6) == s);
            assert(j % 6 == stage_index(s));
        }
    }
}

} // verus!
