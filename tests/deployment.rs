use alphadep::configuration::{
    DeploymentBuild, DeploymentBuildMachine, DeploymentConfiguration, DeploymentFiles, DeploymentRuntime,
    DeploymentRuntimeContext, MachineConfiguration, ProjectConfiguration, RuntimeConfiguration,
    SSHIdentityConfiguration, SSHMachineConfiguration, SSHRuntimeConfiguration,
};
use alphadep::deployment::{build, AuthOutcome, DeployAction, DeployEvent, DeployState, Deployment, FailureKind, Phase};
use std::collections::HashMap;

fn configuration(machine: DeploymentBuildMachine, script: Option<&str>) -> DeploymentConfiguration {
    DeploymentConfiguration {
        id: "demo".to_string(),
        runtime: DeploymentRuntime { context: DeploymentRuntimeContext::default(), execute: "./run".to_string() },
        files: DeploymentFiles::default(),
        build: DeploymentBuild { machine, script: script.map(|s| s.to_string()) },
        environment_variables: HashMap::new(),
    }
}

fn to_wrapper(d: &mut Deployment) {
    assert!(matches!(d.step(DeployEvent::Started), DeployAction::Connect));
    assert!(matches!(d.step(DeployEvent::Connected), DeployAction::Authenticate));
    assert!(matches!(d.step(DeployEvent::Authenticated { outcome: AuthOutcome::Success }), DeployAction::Upload));
    assert!(matches!(d.step(DeployEvent::Uploaded), DeployAction::LocateWrapper));
    assert_eq!(d.state, DeployState::ArchiveUploaded);
}

#[test]
fn no_build_script_skips_build() {
    let mut d = Deployment::new(configuration(DeploymentBuildMachine::Master, None));
    to_wrapper(&mut d);
    let a = d.step(DeployEvent::WrapperFound { path: "/bin/w".to_string() });
    assert!(matches!(a, DeployAction::Execute { ref command, .. } if command == "./run"));
    assert_eq!(d.state, DeployState::Executing);
    assert_eq!(d.wrapper.as_deref(), Some("/bin/w"));
}

#[test]
fn build_on_master_runs_before_execute() {
    let mut d = Deployment::new(configuration(DeploymentBuildMachine::Master, Some("make")));
    to_wrapper(&mut d);
    let a = d.step(DeployEvent::WrapperFound { path: "/bin/w".to_string() });
    assert!(matches!(a, DeployAction::RunBuild { ref command, .. } if command == "make"));
    assert_eq!(d.state, DeployState::WrapperLocated);
    let a = d.step(DeployEvent::BuildFinished);
    assert!(matches!(a, DeployAction::Execute { ref command, .. } if command == "./run"));
    assert_eq!(d.state, DeployState::Built);
}

#[test]
fn build_on_target_is_unsupported() {
    let mut d = Deployment::new(configuration(DeploymentBuildMachine::Target, Some("make")));
    to_wrapper(&mut d);
    let a = d.step(DeployEvent::WrapperFound { path: "/bin/w".to_string() });
    assert!(matches!(a, DeployAction::Close));
    assert_eq!(d.state, DeployState::Failed { phase: Phase::Build, kind: FailureKind::UnsupportedOperation });
    assert!(matches!(d.step(DeployEvent::BuildFinished), DeployAction::Stop));
}

#[test]
fn rejected_password_fails_authentication() {
    let mut d = Deployment::new(configuration(DeploymentBuildMachine::Master, None));
    assert!(matches!(d.step(DeployEvent::Started), DeployAction::Connect));
    assert!(matches!(d.step(DeployEvent::Connected), DeployAction::Authenticate));
    let a = d.step(DeployEvent::Authenticated { outcome: AuthOutcome::Failure });
    assert!(matches!(a, DeployAction::Close));
    assert_eq!(d.state, DeployState::Failed { phase: Phase::Authenticate, kind: FailureKind::AuthError });
    assert!(matches!(d.step(DeployEvent::Uploaded), DeployAction::Stop));
}

#[test]
fn partial_authentication_is_fatal() {
    let mut d = Deployment::new(configuration(DeploymentBuildMachine::Master, None));
    d.step(DeployEvent::Connected);
    d.step(DeployEvent::Authenticated { outcome: AuthOutcome::Partial });
    assert_eq!(d.state, DeployState::Failed { phase: Phase::Authenticate, kind: FailureKind::AuthError });
}

#[test]
fn connect_failure_opens_nothing() {
    let mut d = Deployment::new(configuration(DeploymentBuildMachine::Master, None));
    assert!(matches!(d.step(DeployEvent::ConnectFailed), DeployAction::Stop));
    assert_eq!(d.state, DeployState::Failed { phase: Phase::Connect, kind: FailureKind::ConnectError });
}

#[test]
fn upload_and_locate_failures() {
    let mut d = Deployment::new(configuration(DeploymentBuildMachine::Master, None));
    d.step(DeployEvent::Connected);
    d.step(DeployEvent::Authenticated { outcome: AuthOutcome::Success });
    assert!(matches!(d.step(DeployEvent::UploadFailed), DeployAction::Close));
    assert_eq!(d.state, DeployState::Failed { phase: Phase::Upload, kind: FailureKind::ArchiveError });

    let mut d = Deployment::new(configuration(DeploymentBuildMachine::Master, None));
    to_wrapper(&mut d);
    assert!(matches!(d.step(DeployEvent::WrapperNotFound), DeployAction::Close));
    assert_eq!(d.state, DeployState::Failed { phase: Phase::Locate, kind: FailureKind::LocateError });
}

#[test]
fn unexpected_event_is_a_protocol_violation() {
    let mut d = Deployment::new(configuration(DeploymentBuildMachine::Master, None));
    d.step(DeployEvent::Connected);
    assert!(matches!(d.step(DeployEvent::EndOfStream), DeployAction::Close));
    assert_eq!(d.state, DeployState::Failed { phase: Phase::Authenticate, kind: FailureKind::ProtocolViolation });
}

#[test]
fn output_after_exit_status_is_still_forwarded() {
    let mut d = Deployment::new(configuration(DeploymentBuildMachine::Master, None));
    to_wrapper(&mut d);
    d.step(DeployEvent::WrapperFound { path: "/bin/w".to_string() });
    let a = d.step(DeployEvent::Output { data: b"hello ".to_vec() });
    assert!(matches!(a, DeployAction::Forward { ref data } if data == b"hello "));
    assert!(matches!(d.step(DeployEvent::ExitStatus { code: 3 }), DeployAction::Wait));
    assert_eq!(d.state, DeployState::Executing);
    let a = d.step(DeployEvent::Output { data: b"world".to_vec() });
    assert!(matches!(a, DeployAction::Forward { ref data } if data == b"world"));
    assert!(matches!(d.step(DeployEvent::EndOfStream), DeployAction::Close));
    assert_eq!(d.state, DeployState::Done);
    assert_eq!(d.exit_status, Some(3));
}

#[test]
fn channel_failure_during_execution() {
    let mut d = Deployment::new(configuration(DeploymentBuildMachine::Master, None));
    to_wrapper(&mut d);
    d.step(DeployEvent::WrapperFound { path: "/bin/w".to_string() });
    assert!(matches!(d.step(DeployEvent::ChannelFailed), DeployAction::Close));
    assert_eq!(d.state, DeployState::Failed { phase: Phase::Execute, kind: FailureKind::ChannelError });
}

#[test]
fn runtime_configuration_from_project() {
    let mut env = HashMap::new();
    env.insert("A".to_string(), "1".to_string());
    let mut deployment = configuration(DeploymentBuildMachine::Master, Some("make"));
    deployment.environment_variables = env.clone();
    let project = ProjectConfiguration {
        machine: MachineConfiguration::RemoteSSH(SSHMachineConfiguration {
            host: "h".to_string(),
            user: "u".to_string(),
            identity: SSHIdentityConfiguration::Password { value: "p".to_string() },
            runtime: SSHRuntimeConfiguration::default(),
        }),
        deployment,
    };
    let r = RuntimeConfiguration::from(project);
    assert_eq!(r.build.script.as_deref(), Some("make"));
    assert_eq!(r.execution.script, "./run");
    assert_eq!(r.environment_variables, env);
}

#[test]
fn configuration_defaults() {
    assert_eq!(DeploymentRuntimeContext::default(), DeploymentRuntimeContext::Session);
    assert_eq!(DeploymentBuildMachine::default(), DeploymentBuildMachine::Master);
    let b = DeploymentBuild::default();
    assert!(b.script.is_none());
    let r = SSHRuntimeConfiguration::default();
    assert!(!r.always_update && !r.temporary);
}

#[test]
fn build_decision() {
    assert_eq!(build(DeploymentBuildMachine::Master, &None), Ok(None));
    assert_eq!(build(DeploymentBuildMachine::Target, &None), Ok(None));
    assert_eq!(build(DeploymentBuildMachine::Master, &Some("make".to_string())), Ok(Some("make".to_string())));
    assert_eq!(build(DeploymentBuildMachine::Target, &Some("make".to_string())), Err(FailureKind::UnsupportedOperation));
}

#[test]
fn build_and_execute_go_through_the_wrapper() {
    let mut d = Deployment::new(configuration(DeploymentBuildMachine::Master, Some("make")));
    to_wrapper(&mut d);
    let a = d.step(DeployEvent::WrapperFound { path: "/bin/w".to_string() });
    assert!(matches!(a, DeployAction::RunBuild { ref wrapper, .. } if wrapper == "/bin/w"));
    let a = d.step(DeployEvent::BuildFinished);
    assert!(matches!(a, DeployAction::Execute { ref wrapper, .. } if wrapper == "/bin/w"));
    assert!(matches!(d.step(DeployEvent::ExitStatus { code: 0 }), DeployAction::Wait));
    assert_eq!(d.wrapper.as_deref(), Some("/bin/w"));
}
