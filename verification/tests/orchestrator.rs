use build_worker::checker::QueryOutcome;
use build_worker::pipeline::{
    exit_code, outcome_of, step, Action, Event, ExitOutcome, FailureReason, Phase,
};
use build_worker::request::BuildRequest;

const ROOT: &str = "/home/ubuntu/deployment/build";
const DOCKERFILE: &str = "/home/ubuntu/deployment/build/Dockerfile";

fn request() -> BuildRequest {
    BuildRequest {
        service_name: "api".to_string(),
        version: "abc123".to_string(),
        registry_url: "123456789.dkr.ecr.us-east-1.amazonaws.com/api".to_string(),
        dockerfile_path: "Dockerfile".to_string(),
        build_target: None,
        build_args: Vec::new(),
    }
}

fn paths_ok() -> Event {
    Event::PathsChecked {
        root_exists: true,
        dockerfile_exists: true,
        absolute_dockerfile: DOCKERFILE.to_string(),
    }
}

/// Drives the machine from `Init` to its exit, answering the registry
/// query with `outcome` and every command with the next entry of
/// `results`; returns the shell lines of the issued commands and the
/// machine's final outcome.
fn drive(req: &BuildRequest, outcome: QueryOutcome, results: &[bool]) -> (Vec<String>, ExitOutcome) {
    let (mut phase, mut action) = step(req, ROOT, Phase::Init, paths_ok());
    let mut lines: Vec<String> = Vec::new();
    let mut remaining = results.iter();
    loop {
        match action {
            Action::QueryRegistry { ref repository } => {
                assert_eq!(repository, "api");
                let r = step(req, ROOT, phase, Event::RegistryAnswered { outcome });
                phase = r.0;
                action = r.1;
            }
            Action::RunCommand { step: cmd } => {
                assert_eq!(cmd.program, "/bin/sh");
                assert_eq!(cmd.args.len(), 2);
                assert_eq!(cmd.args[0], "-c");
                lines.push(cmd.args[1].clone());
                let success = *remaining.next().expect("more commands issued than results");
                let r = step(req, ROOT, phase, Event::CommandFinished { success });
                phase = r.0;
                action = r.1;
            }
            Action::ExitSuccess | Action::ExitFailure => break,
        }
    }
    let ended = outcome_of(&phase).expect("exit action from a non-terminal phase");
    (lines, ended)
}

#[test]
fn absent_tag_runs_login_build_tag_push_and_exits_zero() {
    let req = request();
    let (lines, ended) = drive(
        &req,
        QueryOutcome::Described { has_images: false },
        &[true, true, true, true],
    );
    assert_eq!(
        lines,
        vec![
            "aws ecr get-login-password | docker login --username AWS --password-stdin 123456789.dkr.ecr.us-east-1.amazonaws.com/api".to_string(),
            "docker build -t api:abc123 -f /home/ubuntu/deployment/build/Dockerfile /home/ubuntu/deployment/build".to_string(),
            "docker tag api:abc123 123456789.dkr.ecr.us-east-1.amazonaws.com/api:abc123".to_string(),
            "docker push 123456789.dkr.ecr.us-east-1.amazonaws.com/api:abc123".to_string(),
        ]
    );
    assert_eq!(ended, ExitOutcome::Success);
    assert_eq!(exit_code(&ended), 0);
}

#[test]
fn present_tag_runs_no_command_and_exits_zero() {
    let req = request();
    let (lines, ended) = drive(&req, QueryOutcome::Described { has_images: true }, &[]);
    assert!(lines.is_empty());
    assert_eq!(ended, ExitOutcome::Skipped);
    assert_eq!(exit_code(&ended), 0);
}

#[test]
fn failed_query_counts_as_absent_and_builds() {
    let req = request();
    let (lines, ended) = drive(&req, QueryOutcome::Failed, &[true, true, true, true]);
    assert_eq!(lines.len(), 4);
    assert_eq!(ended, ExitOutcome::Success);
    assert_eq!(exit_code(&ended), 0);
}

#[test]
fn failing_command_stops_the_sequence_and_exits_nonzero() {
    let req = request();
    let (lines, ended) = drive(
        &req,
        QueryOutcome::Described { has_images: false },
        &[true, false],
    );
    assert_eq!(lines.len(), 2);
    assert!(lines[1].starts_with("docker build"));
    assert_eq!(
        ended,
        ExitOutcome::Failed { reason: FailureReason::CommandFailed { index: 1 } }
    );
    assert_eq!(exit_code(&ended), 1);
}

#[test]
fn missing_deployment_root_fails_before_any_query_or_command() {
    let req = request();
    let event = Event::PathsChecked {
        root_exists: false,
        dockerfile_exists: false,
        absolute_dockerfile: String::new(),
    };
    let (phase, action) = step(&req, ROOT, Phase::Init, event);
    assert!(matches!(action, Action::ExitFailure));
    let ended = outcome_of(&phase).expect("failure must be terminal");
    assert_eq!(
        ended,
        ExitOutcome::Failed { reason: FailureReason::MissingDeploymentRoot }
    );
    assert_eq!(exit_code(&ended), 1);
}

#[test]
fn missing_dockerfile_fails_before_any_query_or_command() {
    let req = request();
    let event = Event::PathsChecked {
        root_exists: true,
        dockerfile_exists: false,
        absolute_dockerfile: String::new(),
    };
    let (phase, action) = step(&req, ROOT, Phase::Init, event);
    assert!(matches!(action, Action::ExitFailure));
    assert_eq!(
        outcome_of(&phase),
        Some(ExitOutcome::Failed { reason: FailureReason::MissingDockerfile })
    );
}

#[test]
fn malformed_registry_url_fails_loudly() {
    let mut req = request();
    req.registry_url = "localhost:5000/api".to_string();
    let (phase, action) = step(&req, ROOT, Phase::Init, paths_ok());
    assert!(matches!(action, Action::ExitFailure));
    let ended = outcome_of(&phase).expect("failure must be terminal");
    assert_eq!(
        ended,
        ExitOutcome::Failed { reason: FailureReason::MalformedRegistryUrl }
    );
    assert_eq!(exit_code(&ended), 1);
}
