use update_ans::plan::{step_for, Stage, Step, EXIT_FAILURE, EXIT_SUCCESS};
use update_ans::report::error_report;
use update_ans::run::{default_chain_ids, Outcome, UpdateRun};

const STAGES: [Stage; 6] = [
    Stage::Connect,
    Stage::LoadDeployment,
    Stage::FetchScraped,
    Stage::FetchOnChain,
    Stage::Diff,
    Stage::Upload,
];

fn ids(names: &[&str]) -> Vec<String> {
    names.iter().map(|n| n.to_string()).collect()
}

/// Drives a run, reporting `outcomes` in order (then successes), and returns
/// every step handed out, the final `Finish` included.
fn drive(chain_ids: Vec<String>, outcomes: &[Outcome]) -> Vec<Step> {
    let mut run = UpdateRun::new(chain_ids).unwrap();
    let mut steps = vec![run.current()];
    let mut k = 0;
    while !matches!(steps.last(), Some(Step::Finish(_))) {
        let o = outcomes.get(k).copied().unwrap_or(Outcome::Succeeded);
        steps.push(run.advance(o));
        k += 1;
    }
    steps
}

#[test]
fn default_chain_list_is_juno() {
    assert_eq!(default_chain_ids(), vec!["juno-1".to_string()]);
}

#[test]
fn steps_of_a_single_network_plan() {
    assert_eq!(step_for(1, 0), Step::StartRuntime);
    assert_eq!(step_for(1, 1), Step::LoadLocalDeployment);
    assert_eq!(step_for(1, 2), Step::ResolveNetwork(0));
    for (i, s) in STAGES.iter().enumerate() {
        assert_eq!(step_for(1, 3 + i), Step::Visit(0, *s));
    }
}

#[test]
fn steps_of_a_two_network_plan() {
    assert_eq!(step_for(2, 2), Step::ResolveNetwork(0));
    assert_eq!(step_for(2, 3), Step::ResolveNetwork(1));
    assert_eq!(step_for(2, 4), Step::Visit(0, Stage::Connect));
    assert_eq!(step_for(2, 9), Step::Visit(0, Stage::Upload));
    assert_eq!(step_for(2, 10), Step::Visit(1, Stage::Connect));
    assert_eq!(step_for(2, 15), Step::Visit(1, Stage::Upload));
}

#[test]
fn successful_run_walks_whole_plan_and_exits_zero() {
    let steps = drive(default_chain_ids(), &[]);
    let mut expected = vec![
        Step::StartRuntime,
        Step::LoadLocalDeployment,
        Step::ResolveNetwork(0),
    ];
    for s in STAGES {
        expected.push(Step::Visit(0, s));
    }
    expected.push(Step::Finish(0));
    assert_eq!(steps, expected);
    assert_eq!(EXIT_SUCCESS, 0);
}

#[test]
fn run_without_networks_only_loads_locally() {
    let steps = drive(Vec::new(), &[]);
    assert_eq!(
        steps,
        vec![Step::StartRuntime, Step::LoadLocalDeployment, Step::Finish(0)]
    );
}

#[test]
fn each_network_is_resolved_and_visited_once_in_order() {
    let steps = drive(ids(&["juno-1", "osmosis-1", "neutron-1"]), &[]);
    assert_eq!(steps.len(), 2 + 3 + 18 + 1);
    for net in 0..3 {
        let resolved = steps.iter().filter(|s| **s == Step::ResolveNetwork(net)).count();
        assert_eq!(resolved, 1);
        let mut last = None;
        for stage in STAGES {
            let at: Vec<usize> = steps
                .iter()
                .enumerate()
                .filter(|(_, s)| **s == Step::Visit(net, stage))
                .map(|(k, _)| k)
                .collect();
            assert_eq!(at.len(), 1);
            if let Some(prev) = last {
                assert!(at[0] == prev + 1);
            }
            last = Some(at[0]);
        }
    }
    let first_visit_of = |net: usize| {
        steps.iter().position(|s| *s == Step::Visit(net, Stage::Connect)).unwrap()
    };
    assert!(first_visit_of(0) < first_visit_of(1));
    assert!(first_visit_of(1) < first_visit_of(2));
}

#[test]
fn failed_step_ends_run_with_exit_one() {
    let mut run = UpdateRun::new(ids(&["juno-1", "osmosis-1"])).unwrap();
    assert_eq!(run.current(), Step::StartRuntime);
    assert_eq!(run.advance(Outcome::Succeeded), Step::LoadLocalDeployment);
    assert_eq!(run.advance(Outcome::Succeeded), Step::ResolveNetwork(0));
    assert_eq!(run.advance(Outcome::Succeeded), Step::ResolveNetwork(1));
    assert_eq!(run.advance(Outcome::Succeeded), Step::Visit(0, Stage::Connect));
    assert_eq!(run.advance(Outcome::Succeeded), Step::Visit(0, Stage::LoadDeployment));
    assert_eq!(run.advance(Outcome::Succeeded), Step::Visit(0, Stage::FetchScraped));
    assert_eq!(run.exit_code(), None);
    assert_eq!(run.advance(Outcome::Failed), Step::Finish(1));
    assert_eq!(run.exit_code(), Some(EXIT_FAILURE));
    assert_eq!(run.advance(Outcome::Succeeded), Step::Finish(1));
    assert_eq!(run.current(), Step::Finish(1));
}

#[test]
fn failure_of_the_very_first_step() {
    let steps = drive(default_chain_ids(), &[Outcome::Failed]);
    assert_eq!(steps, vec![Step::StartRuntime, Step::Finish(1)]);
}

#[test]
fn failure_of_the_last_upload() {
    let mut outcomes = vec![Outcome::Succeeded; 8];
    outcomes.push(Outcome::Failed);
    let steps = drive(default_chain_ids(), &outcomes);
    assert_eq!(steps.len(), 10);
    assert_eq!(steps[8], Step::Visit(0, Stage::Upload));
    assert_eq!(steps[9], Step::Finish(1));
}

#[test]
fn run_keeps_its_chain_ids() {
    let run = UpdateRun::new(ids(&["juno-1", "osmosis-1"])).unwrap();
    assert_eq!(run.networks(), 2);
    assert_eq!(run.chain_id(0), "juno-1");
    assert_eq!(run.chain_id(1), "osmosis-1");
    assert_eq!(run.exit_code(), None);
}

#[test]
fn error_report_prefixes_causes() {
    let chain = ids(&["failed to update", "query failed", "connection refused"]);
    assert_eq!(
        error_report(&chain),
        ids(&[
            "failed to update",
            "because: query failed",
            "because: connection refused"
        ])
    );
}

#[test]
fn error_report_of_a_single_error() {
    assert_eq!(error_report(&ids(&["boom"])), ids(&["boom"]));
    assert_eq!(error_report(&Vec::new()), Vec::<String>::new());
}
