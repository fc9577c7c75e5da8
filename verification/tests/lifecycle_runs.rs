use compose_stack::DockerCompose;
use compose_stack::lifecycle::OrchestratorCommand;
use compose_stack::lifecycle::UpAction;
use compose_stack::lifecycle::UpError;
use compose_stack::lifecycle::UpEvent;

struct Recorded {
    kinds: Vec<&'static str>,
    starts: Vec<String>,
    lists: Vec<String>,
    resets: Vec<String>,
    follows: Vec<(String, String, String)>,
    outcome: Option<Result<usize, UpError>>,
}

/// Drive one `up` run against a simulated orchestrator: the start and
/// directory reset succeed or fail as given, the listing command replies
/// with `listing` (or fails on `None`), and follower dispatch `i` succeeds
/// according to `follower_ok`.
fn drive(
    handle: &DockerCompose,
    start_ok: bool,
    dir_ok: bool,
    listing: Option<&str>,
    follower_ok: &[bool],
) -> Recorded {
    let mut rec = Recorded {
        kinds: Vec::new(),
        starts: Vec::new(),
        lists: Vec::new(),
        resets: Vec::new(),
        follows: Vec::new(),
        outcome: None,
    };
    let mut phase = handle.up_initial();
    let mut follower_i: usize = 0;
    loop {
        let event = match handle.up_action(&phase) {
            None => break,
            Some(UpAction::InstallTeardownHook) => {
                rec.kinds.push("hook");
                UpEvent::HookInstalled
            }
            Some(UpAction::RunCommand(OrchestratorCommand::Start { manifest })) => {
                rec.kinds.push("start");
                rec.starts.push(manifest);
                UpEvent::StartFinished { success: start_ok }
            }
            Some(UpAction::ResetDirectory { path }) => {
                rec.kinds.push("reset");
                rec.resets.push(path);
                UpEvent::DirectoryReset { success: dir_ok }
            }
            Some(UpAction::RunCommand(OrchestratorCommand::ListServices { manifest })) => {
                rec.kinds.push("list");
                rec.lists.push(manifest);
                UpEvent::ServicesListed { listing: listing.map(|s| s.to_string()) }
            }
            Some(UpAction::RunCommand(OrchestratorCommand::FollowLogs {
                manifest,
                service,
                log_path,
            })) => {
                rec.kinds.push("follow");
                rec.follows.push((manifest, service, log_path));
                let ok = follower_ok.get(follower_i).copied().unwrap_or(true);
                follower_i += 1;
                UpEvent::FollowerDispatched { success: ok }
            }
            Some(UpAction::RunCommand(OrchestratorCommand::Stop { .. })) => {
                panic!("an up run never issues the stop command")
            }
        };
        phase = handle.up_step(phase, event);
    }
    rec.outcome = handle.up_outcome(&phase);
    rec
}

#[test]
fn scenario_web_db() {
    let handle = DockerCompose::new("docker-compose.yml", "./logs");
    let rec = drive(&handle, true, true, Some("web\ndb\n"), &[true, true]);
    assert_eq!(rec.outcome, Some(Ok(2)));
    assert_eq!(rec.starts, vec!["docker-compose.yml".to_string()]);
    assert_eq!(rec.lists, vec!["docker-compose.yml".to_string()]);
    assert_eq!(rec.resets, vec!["./logs".to_string()]);
    assert_eq!(rec.follows.len(), 2);
    assert_eq!(rec.follows[0].1, "web");
    assert_eq!(rec.follows[0].2, "./logs/web.log");
    assert_eq!(rec.follows[1].1, "db");
    assert_eq!(rec.follows[1].2, "./logs/db.log");
    assert_eq!(rec.kinds, vec!["hook", "start", "reset", "list", "follow", "follow"]);
}

#[test]
fn one_follower_per_service_for_larger_stacks() {
    let handle = DockerCompose::new("stack.yml", "logs");
    let rec = drive(&handle, true, true, Some("a\nb\nc\nd\ne"), &[]);
    assert_eq!(rec.outcome, Some(Ok(5)));
    assert_eq!(rec.follows.len(), 5);
    let paths: Vec<&str> = rec.follows.iter().map(|f| f.2.as_str()).collect();
    assert_eq!(paths, vec!["logs/a.log", "logs/b.log", "logs/c.log", "logs/d.log", "logs/e.log"]);
}

#[test]
fn follower_failure_is_isolated() {
    let handle = DockerCompose::new("stack.yml", "logs");
    let rec = drive(&handle, true, true, Some("a\nb\nc"), &[true, false, true]);
    assert_eq!(rec.outcome, Some(Ok(3)));
    assert_eq!(rec.follows.len(), 3);
    assert_eq!(rec.follows[2].1, "c");
}

#[test]
fn first_follower_failure_still_dispatches_the_rest() {
    let handle = DockerCompose::new("stack.yml", "logs");
    let rec = drive(&handle, true, true, Some("a\nb\nc"), &[false, false, false]);
    assert_eq!(rec.outcome, Some(Ok(3)));
    assert_eq!(rec.follows.len(), 3);
}

#[test]
fn start_failure_is_fatal_before_any_reset() {
    let handle = DockerCompose::new("stack.yml", "logs");
    let rec = drive(&handle, false, true, Some("a\nb"), &[]);
    assert_eq!(rec.outcome, Some(Err(UpError::StartFailure)));
    assert!(rec.resets.is_empty());
    assert!(rec.lists.is_empty());
    assert!(rec.follows.is_empty());
    assert_eq!(rec.kinds, vec!["hook", "start"]);
}

#[test]
fn directory_failure_is_fatal_before_listing() {
    let handle = DockerCompose::new("stack.yml", "logs");
    let rec = drive(&handle, true, false, Some("a\nb"), &[]);
    assert_eq!(rec.outcome, Some(Err(UpError::DirectoryFailure)));
    assert!(rec.lists.is_empty());
    assert!(rec.follows.is_empty());
}

#[test]
fn discovery_failure_is_fatal_before_any_follower() {
    let handle = DockerCompose::new("stack.yml", "logs");
    let rec = drive(&handle, true, true, None, &[]);
    assert_eq!(rec.outcome, Some(Err(UpError::DiscoveryFailure)));
    assert!(rec.follows.is_empty());
}

#[test]
fn empty_listing_completes_with_no_followers() {
    let handle = DockerCompose::new("stack.yml", "logs");
    let rec = drive(&handle, true, true, Some("\n"), &[]);
    assert_eq!(rec.outcome, Some(Ok(0)));
    assert!(rec.follows.is_empty());
}

#[test]
fn hook_installs_before_the_start_command() {
    let handle = DockerCompose::new("stack.yml", "logs");
    let rec = drive(&handle, true, true, Some("a"), &[true]);
    assert_eq!(rec.kinds[0], "hook");
    assert_eq!(rec.kinds[1], "start");
}

#[test]
fn handle_clone_keeps_manifest_and_log_directory() {
    let handle = DockerCompose::new("stack.yml", "logs");
    let copy = handle.clone();
    assert_eq!(copy.file, "stack.yml");
    assert_eq!(copy.logs_dir, "logs");
}
