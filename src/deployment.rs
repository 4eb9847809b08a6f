use crate::configuration::{DeploymentBuildMachine, DeploymentConfiguration};
use vstd::prelude::*;

verus! {

/// A phase of the deployment lifecycle.
#[derive(Debug, Clone, Copy, PartialEq, Eq, Structural)]
pub enum Phase {
    Connect,
    Authenticate,
    Upload,
    Locate,
    Build,
    Execute,
}

/// Why a phase failed.
#[derive(Debug, Clone, Copy, PartialEq, Eq, Structural)]
pub enum FailureKind {
    ConnectError,
    AuthError,
    ArchiveError,
    ChannelError,
    LocateError,
    /// A build on the target machine was asked for; it is not supported.
    UnsupportedOperation,
    /// An event came that the current state does not expect.
    ProtocolViolation,
}

/// Where a deployment stands.
#[derive(Debug, Clone, Copy, PartialEq, Eq, Structural)]
pub enum DeployState {
    Idle,
    Connected,
    Authenticated,
    ArchiveUploaded,
    /// The wrapper is known and the build runs.
    WrapperLocated,
    /// The build finished.
    Built,
    /// The execute command runs and its output streams back.
    Executing,
    Done,
    Failed { phase: Phase, kind: FailureKind },
}

/// How the remote side answered an authentication attempt.
#[derive(Debug, Clone, Copy, PartialEq, Eq, Structural)]
pub enum AuthOutcome {
    Success,
    /// More factors are required.
    Partial,
    Failure,
}

/// What happened since the last action.
#[derive(Debug, Clone)]
pub enum DeployEvent {
    Started,
    Connected,
    ConnectFailed,
    Authenticated { outcome: AuthOutcome },
    /// The attempt itself failed (a key that cannot be loaded, a broken link).
    AuthFailed,
    Uploaded,
    UploadFailed,
    WrapperFound { path: String },
    WrapperNotFound,
    BuildFinished,
    ChannelFailed,
    Output { data: Vec<u8> },
    ExitStatus { code: u32 },
    EndOfStream,
}

/// What the caller does next.
#[derive(Debug, Clone)]
pub enum DeployAction {
    Connect,
    Authenticate,
    /// Select and archive the project files, then upload the archive.
    Upload,
    LocateWrapper,
    /// Run the build command on a new channel and wait for it to end.
    RunBuild { wrapper: String, command: String },
    /// Run the execute command through the wrapper on a new channel and
    /// report its events.
    Execute { wrapper: String, command: String },
    /// Hand these output bytes to the caller's sink now.
    Forward { data: Vec<u8> },
    /// Wait for the next event of the execution channel.
    Wait,
    /// Close the session: the run is over.
    Close,
    /// Nothing is left to do and no session is open.
    Stop,
}

/// The phase that runs while a deployment is in `state`.
pub open spec fn phase_of(state: DeployState) -> Phase {
    match state {
        DeployState::Idle => Phase::Connect,
        DeployState::Connected => Phase::Authenticate,
        DeployState::Authenticated => Phase::Upload,
        DeployState::ArchiveUploaded => Phase::Locate,
        DeployState::WrapperLocated => Phase::Build,
        _ => Phase::Execute,
    }
}

/// What the build phase comes to: nothing to do without a script; the
/// script on the master machine; an unsupported operation on the target.
pub open spec fn build_outcome(machine: DeploymentBuildMachine, script: Option<String>) -> Result<
    Option<String>,
    FailureKind,
> {
    match script {
        None => Ok(None),
        Some(s) => if machine == DeploymentBuildMachine::Master {
            Ok(Some(s))
        } else {
            Err(FailureKind::UnsupportedOperation)
        },
    }
}

/// Decides the build phase: with no script it is skipped; a script on the
/// master machine is the command to run; a script on the target machine is
/// an unsupported operation, never run.
pub fn build(machine: DeploymentBuildMachine, script: &Option<String>) -> (r: Result<
    Option<String>,
    FailureKind,
>)
    ensures
        r == build_outcome(machine, *script),
        script is None ==> r == Ok::<Option<String>, FailureKind>(None),
        machine == DeploymentBuildMachine::Target && script is Some ==> r == Err::<Option<String>, _>(
            FailureKind::UnsupportedOperation,
        ),
{
    match script {
        None => Ok(None),
        Some(s) => {
            if machine == DeploymentBuildMachine::Master {
                Ok(Some(s.clone()))
            } else {
                Err(FailureKind::UnsupportedOperation)
            }
        },
    }
}

/// One deployment: its state, what it was configured with, and what it has
/// learned so far.
pub struct Deployment {
    pub state: DeployState,
    pub build_machine: DeploymentBuildMachine,
    pub build_script: Option<String>,
    pub execute: String,
    pub wrapper: Option<String>,
    pub exit_status: Option<u32>,
}

impl Deployment {
    /// An idle deployment of `configuration`.
    pub fn new(configuration: DeploymentConfiguration) -> (r: Deployment)
        ensures
            r.well_formed(),
            r.state == DeployState::Idle,
            r.build_machine == configuration.build.machine,
            r.build_script == configuration.build.script,
            r.execute == configuration.runtime.execute,
            r.wrapper.is_none(),
            r.exit_status.is_none(),
    {
        Deployment {
            state: DeployState::Idle,
            build_machine: configuration.build.machine,
            build_script: configuration.build.script,
            execute: configuration.runtime.execute,
            wrapper: None,
            exit_status: None,
        }
    }

    /// Once the wrapper is located, it is known for the rest of the run.
    pub open spec fn well_formed(&self) -> bool {
        match self.state {
            DeployState::WrapperLocated | DeployState::Built | DeployState::Executing
            | DeployState::Done => self.wrapper is Some,
            _ => true,
        }
    }

    /// `new` runs the build script through the wrapper at `path`.
    pub open spec fn builds(new: Deployment, path: String, script: String, r: DeployAction) -> bool {
        &&& new.state == DeployState::WrapperLocated
        &&& new.wrapper == Some(path)
        &&& r matches DeployAction::RunBuild { wrapper, command }
        &&& wrapper == path
        &&& command == script
    }

    /// Whether the run is over.
    pub open spec fn is_terminal(state: DeployState) -> bool {
        state == DeployState::Done || state is Failed
    }

    /// The action that follows a failure in `state`: a session is open once
    /// the connection stands, and is then closed.
    pub open spec fn failure_action(state: DeployState, r: DeployAction) -> bool {
        if state == DeployState::Idle {
            r is Stop
        } else {
            r is Close
        }
    }

    /// `new` is `old` failed in the phase of its state with `kind`.
    pub open spec fn failed_with(old: Deployment, new: Deployment, kind: FailureKind, r: DeployAction) -> bool {
        &&& new.state == (DeployState::Failed { phase: phase_of(old.state), kind })
        &&& Self::failure_action(old.state, r)
    }

    /// What the configured execute command becomes: run it and stream.
    pub open spec fn executes(old: Deployment, new: Deployment, r: DeployAction) -> bool {
        r matches DeployAction::Execute { wrapper, command } && command == old.execute && new.wrapper
            == Some(wrapper)
    }

    /// Takes the next event and moves the deployment on:
    /// `Idle → Connected → Authenticated → ArchiveUploaded → WrapperLocated →
    /// Built → Executing → Done`, where the build is skipped when no build
    /// script is configured, and any failure ends in `Failed` with its phase.
    pub fn step(&mut self, event: DeployEvent) -> (r: DeployAction)
        requires
            old(self).well_formed(),
        ensures
            final(self).well_formed(),
            final(self).wrapper == old(self).wrapper || (old(self).state == DeployState::ArchiveUploaded
                && event is WrapperFound),
            final(self).exit_status == old(self).exit_status || ((old(self).state == DeployState::Built
                || old(self).state == DeployState::Executing) && event is ExitStatus),
            final(self).build_machine == old(self).build_machine,
            final(self).build_script == old(self).build_script,
            final(self).execute == old(self).execute,
            // a finished run stays as it is
            Self::is_terminal(old(self).state) ==> *final(self) == *old(self) && r is Stop,
            // connecting
            old(self).state == DeployState::Idle ==> match event {
                DeployEvent::Started => final(self).state == DeployState::Idle && r is Connect,
                DeployEvent::Connected => final(self).state == DeployState::Connected
                    && r is Authenticate,
                DeployEvent::ConnectFailed => Self::failed_with(
                    *old(self),
                    *final(self),
                    FailureKind::ConnectError,
                    r,
                ),
                _ => Self::failed_with(*old(self), *final(self), FailureKind::ProtocolViolation, r),
            },
            // authenticating: anything but a full success is fatal
            old(self).state == DeployState::Connected ==> match event {
                DeployEvent::Authenticated { outcome: AuthOutcome::Success } => final(self).state
                    == DeployState::Authenticated && r is Upload,
                DeployEvent::Authenticated { .. } | DeployEvent::AuthFailed => Self::failed_with(
                    *old(self),
                    *final(self),
                    FailureKind::AuthError,
                    r,
                ),
                _ => Self::failed_with(*old(self), *final(self), FailureKind::ProtocolViolation, r),
            },
            // uploading the archive
            old(self).state == DeployState::Authenticated ==> match event {
                DeployEvent::Uploaded => final(self).state == DeployState::ArchiveUploaded
                    && r is LocateWrapper,
                DeployEvent::UploadFailed => Self::failed_with(
                    *old(self),
                    *final(self),
                    FailureKind::ArchiveError,
                    r,
                ),
                _ => Self::failed_with(*old(self), *final(self), FailureKind::ProtocolViolation, r),
            },
            // locating the wrapper, then building or executing
            old(self).state == DeployState::ArchiveUploaded ==> match event {
                DeployEvent::WrapperFound { path } => match build_outcome(
                    old(self).build_machine,
                    old(self).build_script,
                ) {
                    Ok(None) => final(self).state == DeployState::Executing && final(self).wrapper
                        == Some(path) && Self::executes(*old(self), *final(self), r),
                    Ok(Some(script)) => Self::builds(*final(self), path, script, r),
                    Err(kind) => final(self).state == (DeployState::Failed {
                        phase: Phase::Build,
                        kind,
                    }) && r is Close,
                },
                DeployEvent::WrapperNotFound => Self::failed_with(
                    *old(self),
                    *final(self),
                    FailureKind::LocateError,
                    r,
                ),
                _ => Self::failed_with(*old(self), *final(self), FailureKind::ProtocolViolation, r),
            },
            // waiting for the build
            old(self).state == DeployState::WrapperLocated ==> match event {
                DeployEvent::BuildFinished => final(self).state == DeployState::Built
                    && Self::executes(*old(self), *final(self), r),
                DeployEvent::ChannelFailed => Self::failed_with(
                    *old(self),
                    *final(self),
                    FailureKind::ChannelError,
                    r,
                ),
                _ => Self::failed_with(*old(self), *final(self), FailureKind::ProtocolViolation, r),
            },
            // streaming the execution: output is forwarded at once, an exit
            // status is recorded and the stream is read on to its end
            old(self).state == DeployState::Built || old(self).state == DeployState::Executing
                ==> match event {
                DeployEvent::Output { data } => final(self).state == DeployState::Executing
                    && final(self).exit_status == old(self).exit_status && (
                r matches DeployAction::Forward { data: d } && d == data),
                DeployEvent::ExitStatus { code } => final(self).state == DeployState::Executing
                    && final(self).exit_status == Some(code) && r is Wait,
                DeployEvent::EndOfStream => final(self).state == DeployState::Done
                    && final(self).exit_status == old(self).exit_status && r is Close,
                DeployEvent::ChannelFailed => Self::failed_with(
                    *old(self),
                    *final(self),
                    FailureKind::ChannelError,
                    r,
                ),
                _ => Self::failed_with(*old(self), *final(self), FailureKind::ProtocolViolation, r),
            },
    {
        let failed_here = |kind: FailureKind| -> (s: DeployState)
            ensures
                s == (DeployState::Failed { phase: phase_of(self.state), kind }),
            {
                DeployState::Failed { phase: Self::phase(self.state), kind }
            };
        let leave = if self.state == DeployState::Idle {
            DeployAction::Stop
        } else {
            DeployAction::Close
        };
        match self.state {
            DeployState::Done | DeployState::Failed { .. } => DeployAction::Stop,
            DeployState::Idle => match event {
                DeployEvent::Started => DeployAction::Connect,
                DeployEvent::Connected => {
                    self.state = DeployState::Connected;
                    DeployAction::Authenticate
                },
                DeployEvent::ConnectFailed => {
                    self.state = failed_here(FailureKind::ConnectError);
                    leave
                },
                _ => {
                    self.state = failed_here(FailureKind::ProtocolViolation);
                    leave
                },
            },
            DeployState::Connected => match event {
                DeployEvent::Authenticated { outcome: AuthOutcome::Success } => {
                    self.state = DeployState::Authenticated;
                    DeployAction::Upload
                },
                DeployEvent::Authenticated { .. } | DeployEvent::AuthFailed => {
                    self.state = failed_here(FailureKind::AuthError);
                    leave
                },
                _ => {
                    self.state = failed_here(FailureKind::ProtocolViolation);
                    leave
                },
            },
            DeployState::Authenticated => match event {
                DeployEvent::Uploaded => {
                    self.state = DeployState::ArchiveUploaded;
                    DeployAction::LocateWrapper
                },
                DeployEvent::UploadFailed => {
                    self.state = failed_here(FailureKind::ArchiveError);
                    leave
                },
                _ => {
                    self.state = failed_here(FailureKind::ProtocolViolation);
                    leave
                },
            },
            DeployState::ArchiveUploaded => match event {
                DeployEvent::WrapperFound { path } => match build(self.build_machine, &self.build_script) {
                    Ok(None) => {
                        self.state = DeployState::Executing;
                        let wrapper = path.clone();
                        self.wrapper = Some(path);
                        DeployAction::Execute { wrapper, command: self.execute.clone() }
                    },
                    Ok(Some(command)) => {
                        self.state = DeployState::WrapperLocated;
                        let wrapper = path.clone();
                        self.wrapper = Some(path);
                        DeployAction::RunBuild { wrapper, command }
                    },
                    Err(kind) => {
                        self.state = DeployState::Failed { phase: Phase::Build, kind };
                        DeployAction::Close
                    },
                },
                DeployEvent::WrapperNotFound => {
                    self.state = failed_here(FailureKind::LocateError);
                    leave
                },
                _ => {
                    self.state = failed_here(FailureKind::ProtocolViolation);
                    leave
                },
            },
            DeployState::WrapperLocated => match event {
                DeployEvent::BuildFinished => {
                    self.state = DeployState::Built;
                    let wrapper = match &self.wrapper {
                        Some(w) => w.clone(),
                        None => String::new(),
                    };
                    DeployAction::Execute { wrapper, command: self.execute.clone() }
                },
                DeployEvent::ChannelFailed => {
                    self.state = failed_here(FailureKind::ChannelError);
                    leave
                },
                _ => {
                    self.state = failed_here(FailureKind::ProtocolViolation);
                    leave
                },
            },
            DeployState::Built | DeployState::Executing => match event {
                DeployEvent::Output { data } => {
                    self.state = DeployState::Executing;
                    DeployAction::Forward { data }
                },
                DeployEvent::ExitStatus { code } => {
                    self.state = DeployState::Executing;
                    self.exit_status = Some(code);
                    DeployAction::Wait
                },
                DeployEvent::EndOfStream => {
                    self.state = DeployState::Done;
                    DeployAction::Close
                },
                DeployEvent::ChannelFailed => {
                    self.state = failed_here(FailureKind::ChannelError);
                    leave
                },
                _ => {
                    self.state = failed_here(FailureKind::ProtocolViolation);
                    leave
                },
            },
        }
    }

    /// The phase that runs while a deployment is in `state`.
    pub fn phase(state: DeployState) -> (r: Phase)
        ensures
            r == phase_of(state),
    {
        match state {
            DeployState::Idle => Phase::Connect,
            DeployState::Connected => Phase::Authenticate,
            DeployState::Authenticated => Phase::Upload,
            DeployState::ArchiveUploaded => Phase::Locate,
            DeployState::WrapperLocated => Phase::Build,
            _ => Phase::Execute,
        }
    }
}

} // verus!
