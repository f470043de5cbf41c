use build_worker::command::{assemble_plan, image_reference, CommandStep};
use build_worker::request::BuildRequest;

fn request(target: Option<&str>, args: &[&str]) -> BuildRequest {
    BuildRequest {
        service_name: "api".to_string(),
        version: "abc123".to_string(),
        registry_url: "123456789.dkr.ecr.us-east-1.amazonaws.com/api".to_string(),
        dockerfile_path: "Dockerfile".to_string(),
        build_target: target.map(|t| t.to_string()),
        build_args: args.iter().map(|a| a.to_string()).collect(),
    }
}

fn shell_line(step: &CommandStep) -> String {
    assert_eq!(step.program, "/bin/sh");
    assert_eq!(step.args.len(), 2);
    assert_eq!(step.args[0], "-c");
    step.args[1].clone()
}

#[test]
fn image_reference_joins_name_and_version() {
    assert_eq!(image_reference("api", "abc123"), "api:abc123");
    assert_eq!(
        image_reference("123456789.dkr.ecr.us-east-1.amazonaws.com/api", "abc123"),
        "123456789.dkr.ecr.us-east-1.amazonaws.com/api:abc123"
    );
}

#[test]
fn plan_holds_login_build_tag_push_in_order() {
    let req = request(None, &[]);
    let plan = assemble_plan(&req, "/home/ubuntu/deployment/build/Dockerfile", "/home/ubuntu/deployment/build");
    assert_eq!(plan.len(), 4);
    assert_eq!(
        shell_line(&plan[0]),
        "aws ecr get-login-password | docker login --username AWS --password-stdin 123456789.dkr.ecr.us-east-1.amazonaws.com/api"
    );
    assert_eq!(
        shell_line(&plan[1]),
        "docker build -t api:abc123 -f /home/ubuntu/deployment/build/Dockerfile /home/ubuntu/deployment/build"
    );
    assert_eq!(
        shell_line(&plan[2]),
        "docker tag api:abc123 123456789.dkr.ecr.us-east-1.amazonaws.com/api:abc123"
    );
    assert_eq!(
        shell_line(&plan[3]),
        "docker push 123456789.dkr.ecr.us-east-1.amazonaws.com/api:abc123"
    );
}

#[test]
fn build_args_appear_as_distinct_flags_in_order() {
    let req = request(None, &["A=1", "B=2"]);
    let plan = assemble_plan(&req, "/d/Dockerfile", "/d");
    let line = shell_line(&plan[1]);
    let first = line.find("--build-arg A=1").expect("first flag missing");
    let second = line.find("--build-arg B=2").expect("second flag missing");
    assert!(first < second);
    assert_eq!(line.matches("--build-arg").count(), 2);
    assert_eq!(
        line,
        "docker build -t api:abc123 -f /d/Dockerfile /d --build-arg A=1 --build-arg B=2"
    );
}

#[test]
fn present_build_target_inserts_target_flag() {
    let req = request(Some("release"), &[]);
    let plan = assemble_plan(&req, "/d/Dockerfile", "/d");
    let line = shell_line(&plan[1]);
    assert!(line.contains("--target release"));
    assert_eq!(line, "docker build --target release -t api:abc123 -f /d/Dockerfile /d");
}

#[test]
fn absent_build_target_inserts_no_target_flag() {
    let req = request(None, &["A=1"]);
    let plan = assemble_plan(&req, "/d/Dockerfile", "/d");
    let line = shell_line(&plan[1]);
    assert!(!line.contains("--target"));
    assert_eq!(line, "docker build -t api:abc123 -f /d/Dockerfile /d --build-arg A=1");
}
