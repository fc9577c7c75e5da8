use compose_stack::DockerCompose;
use compose_stack::hooks::HookChain;
use compose_stack::hooks::HookStep;
use compose_stack::lifecycle::OrchestratorCommand;
use compose_stack::teardown::StackState;

#[test]
fn down_issues_the_stop_command() {
    let handle = DockerCompose::new("stack.yml", "logs");
    match handle.down_command() {
        OrchestratorCommand::Stop { manifest } => assert_eq!(manifest, "stack.yml"),
        _ => panic!("down must issue the stop command"),
    }
}

#[test]
fn down_twice_issues_stop_both_times() {
    let handle = DockerCompose::new("stack.yml", "logs");
    let (first_cmd, state) = handle.down_transition(StackState::Running);
    assert!(matches!(first_cmd, OrchestratorCommand::Stop { .. }));
    assert_eq!(state, StackState::Stopped);
    let (second_cmd, state) = handle.down_transition(state);
    assert!(matches!(second_cmd, OrchestratorCommand::Stop { .. }));
    assert_eq!(state, StackState::Stopped);
}

#[test]
fn down_on_a_never_started_stack_still_issues_stop() {
    let handle = DockerCompose::new("stack.yml", "logs");
    let (cmd, state) = handle.down_transition(StackState::Stopped);
    assert!(matches!(cmd, OrchestratorCommand::Stop { .. }));
    assert_eq!(state, StackState::Stopped);
}

#[test]
fn fresh_chain_holds_only_the_prior_behavior() {
    let chain = HookChain::new();
    assert_eq!(chain.len(), 1);
    assert!(matches!(chain.step_at(0), HookStep::PriorBehavior));
}

#[test]
fn install_keeps_prior_behavior_first_and_teardown_last() {
    let handle = DockerCompose::new("stack.yml", "logs");
    let mut chain = HookChain::new();
    chain.install_teardown(&handle);
    assert_eq!(chain.len(), 2);
    assert!(matches!(chain.step_at(0), HookStep::PriorBehavior));
    match chain.step_at(1) {
        HookStep::Teardown(h) => {
            assert_eq!(h.file, "stack.yml");
            assert_eq!(h.logs_dir, "logs");
        }
        _ => panic!("the installed step must be the teardown"),
    }
}

#[test]
fn reinstall_for_the_same_manifest_changes_nothing() {
    let handle = DockerCompose::new("stack.yml", "logs");
    let mut chain = HookChain::new();
    chain.install_teardown(&handle);
    assert_eq!(chain.len(), 2);
    chain.install_teardown(&handle);
    chain.install_teardown(&handle.clone());
    assert_eq!(chain.len(), 2);
    assert!(matches!(chain.step_at(0), HookStep::PriorBehavior));
    assert!(matches!(chain.step_at(1), HookStep::Teardown(_)));
}

#[test]
fn second_install_chains_after_the_first() {
    let first = DockerCompose::new("a.yml", "logs-a");
    let second = DockerCompose::new("b.yml", "logs-b");
    let mut chain = HookChain::new();
    chain.install_teardown(&first);
    chain.install_teardown(&second);
    assert_eq!(chain.len(), 3);
    assert!(matches!(chain.step_at(0), HookStep::PriorBehavior));
    match chain.step_at(1) {
        HookStep::Teardown(h) => assert_eq!(h.file, "a.yml"),
        _ => panic!("the first teardown must keep its place"),
    }
    match chain.step_at(2) {
        HookStep::Teardown(h) => assert_eq!(h.file, "b.yml"),
        _ => panic!("the second teardown must run last"),
    }
}
