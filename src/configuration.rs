use std::collections::HashMap;
use vstd::prelude::*;

verus! {

/// How the remote process is kept alive.
#[derive(Debug, Clone, Copy, PartialEq, Eq, Structural)]
pub enum DeploymentRuntimeContext {
    Session,
    Service,
}

impl Default for DeploymentRuntimeContext {
    fn default() -> (r: Self)
        ensures
            r == DeploymentRuntimeContext::Session,
    {
        DeploymentRuntimeContext::Session
    }
}

#[derive(Debug, Clone)]
pub struct DeploymentRuntime {
    pub context: DeploymentRuntimeContext,
    pub execute: String,
}

/// Glob patterns that select the project files to deploy.
#[derive(Debug, Clone)]
pub struct DeploymentFiles {
    pub excludes: Vec<String>,
    pub includes: Vec<String>,
}

impl Default for DeploymentFiles {
    fn default() -> (r: Self)
        ensures
            r.excludes@.len() == 0,
            r.includes@.len() == 0,
    {
        DeploymentFiles { excludes: Vec::new(), includes: Vec::new() }
    }
}

/// Where the build script runs.
#[derive(Debug, Clone, Copy, PartialEq, Eq, Structural)]
pub enum DeploymentBuildMachine {
    Master,
    Target,
}

impl Default for DeploymentBuildMachine {
    fn default() -> (r: Self)
        ensures
            r == DeploymentBuildMachine::Master,
    {
        DeploymentBuildMachine::Master
    }
}

#[derive(Debug, Clone)]
pub struct DeploymentBuild {
    pub machine: DeploymentBuildMachine,
    pub script: Option<String>,
}

impl Default for DeploymentBuild {
    fn default() -> (r: Self)
        ensures
            r.machine == DeploymentBuildMachine::Master,
            r.script.is_none(),
    {
        DeploymentBuild { machine: DeploymentBuildMachine::Master, script: None }
    }
}

#[derive(Debug, Clone)]
pub struct DeploymentConfiguration {
    pub id: String,
    pub runtime: DeploymentRuntime,
    pub files: DeploymentFiles,
    pub build: DeploymentBuild,
    pub environment_variables: HashMap<String, String>,
}

/// How to prove the identity of the remote user.
#[derive(Debug, Clone)]
pub enum SSHIdentityConfiguration {
    Key { path: String },
    Password { value: String },
}

#[derive(Debug, Clone, Copy, PartialEq, Eq, Structural)]
pub struct SSHRuntimeConfiguration {
    pub always_update: bool,
    pub temporary: bool,
}

impl Default for SSHRuntimeConfiguration {
    fn default() -> (r: Self)
        ensures
            !r.always_update,
            !r.temporary,
    {
        SSHRuntimeConfiguration { always_update: false, temporary: false }
    }
}

#[derive(Debug, Clone)]
pub struct SSHMachineConfiguration {
    pub host: String,
    pub user: String,
    pub identity: SSHIdentityConfiguration,
    pub runtime: SSHRuntimeConfiguration,
}

/// The kind of machine a project is deployed to.
#[derive(Debug, Clone)]
pub enum MachineConfiguration {
    RemoteSSH(SSHMachineConfiguration),
}

/// The whole project configuration: the target machine and what to deploy.
#[derive(Debug, Clone)]
pub struct ProjectConfiguration {
    pub machine: MachineConfiguration,
    pub deployment: DeploymentConfiguration,
}

#[derive(Debug, Clone)]
pub struct RuntimeBuildConfiguration {
    pub script: Option<String>,
}

#[derive(Debug, Clone)]
pub struct RuntimeExecutionConfiguration {
    pub script: String,
}

/// What the remote runtime wrapper reads: the scripts and their environment.
#[derive(Debug, Clone)]
pub struct RuntimeConfiguration {
    pub build: RuntimeBuildConfiguration,
    pub execution: RuntimeExecutionConfiguration,
    pub environment_variables: HashMap<String, String>,
}

impl From<ProjectConfiguration> for RuntimeConfiguration {
    fn from(value: ProjectConfiguration) -> (r: Self) {
        RuntimeConfiguration {
            build: RuntimeBuildConfiguration { script: value.deployment.build.script },
            execution: RuntimeExecutionConfiguration { script: value.deployment.runtime.execute },
            environment_variables: value.deployment.environment_variables,
        }
    }
}

impl vstd::std_specs::convert::FromSpecImpl<ProjectConfiguration> for RuntimeConfiguration {
    open spec fn obeys_from_spec() -> bool {
        true
    }

    open spec fn from_spec(value: ProjectConfiguration) -> Self {
        RuntimeConfiguration {
            build: RuntimeBuildConfiguration { script: value.deployment.build.script },
            execution: RuntimeExecutionConfiguration { script: value.deployment.runtime.execute },
            environment_variables: value.deployment.environment_variables,
        }
    }
}

/// A project together with the files resolved for it.
pub struct DeploymentSpecs {
    pub project: ProjectConfiguration,
    pub files: Vec<String>,
}

/// A kind of machine that can receive, build and run a project.
pub trait Machine {
    type UpdateError;
    type BuildError;
    type ExecuteError;

    fn update(&self, project: ProjectConfiguration) -> Result<(), Self::UpdateError>;

    fn build(&self, project: ProjectConfiguration) -> Result<(), Self::BuildError>;

    fn execute(&self, runtime: RuntimeConfiguration) -> Result<(), Self::ExecuteError>;
}

} // verus!
