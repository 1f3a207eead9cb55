use crate::provision::{clone_error_text, install_error_text, CloneError, InstallError, Tool};
use crate::runner::{dependency_error_text, DependencyError};
use vstd::prelude::*;

verus! {

/// Progress notices published on the setup-status topic.
#[derive(PartialEq, Eq, Structural, Clone, Copy, Debug)]
pub enum SetupNotice {
    CheckingGit,
    InstallingGit,
    CheckingNode,
    InstallingNode,
    CheckingNpm,
    NpmMissing,
    SettingUpRepository,
    InstallingDependencies,
    Completed,
}

pub open spec fn notice_text(n: SetupNotice) -> Seq<char> {
    match n {
        SetupNotice::CheckingGit => "Checking Git installation..."@,
        SetupNotice::InstallingGit => "Git not found. Installing Git..."@,
        SetupNotice::CheckingNode => "Checking Node.js installation..."@,
        SetupNotice::InstallingNode => "Node.js not found. Installing Node.js..."@,
        SetupNotice::CheckingNpm => "Checking npm installation..."@,
        SetupNotice::NpmMissing => "npm not found. Installing npm..."@,
        SetupNotice::SettingUpRepository => "Setting up repository..."@,
        SetupNotice::InstallingDependencies => "Installing dependencies please wait it may take a while..."@,
        SetupNotice::Completed => "Setup completed successfully!"@,
    }
}

impl SetupNotice {
    pub fn text(&self) -> (r: &'static str)
        ensures
            r@ == notice_text(*self),
    {
        match self {
            SetupNotice::CheckingGit => "Checking Git installation...",
            SetupNotice::InstallingGit => "Git not found. Installing Git...",
            SetupNotice::CheckingNode => "Checking Node.js installation...",
            SetupNotice::InstallingNode => "Node.js not found. Installing Node.js...",
            SetupNotice::CheckingNpm => "Checking npm installation...",
            SetupNotice::NpmMissing => "npm not found. Installing npm...",
            SetupNotice::SettingUpRepository => "Setting up repository...",
            SetupNotice::InstallingDependencies => "Installing dependencies please wait it may take a while...",
            SetupNotice::Completed => "Setup completed successfully!",
        }
    }
}

/// Where environment setup stands.
#[derive(PartialEq, Eq, Structural, Clone, Copy, Debug)]
pub enum SetupPhase {
    NotStarted,
    CheckingGit,
    InstallingGit,
    CheckingNode,
    InstallingNode,
    CheckingNpm,
    ResolvingWorkDir,
    CreatingWorkDir,
    Cloning,
    InstallingDependencies,
    Done,
}

/// Why setup stopped.
pub enum SetupError {
    Install(InstallError),
    /// The working directory could not be resolved or created.
    WorkDir(String),
    Clone(CloneError),
    Dependencies(DependencyError),
    /// An event arrived that the current phase does not expect.
    OutOfOrder,
}

pub open spec fn setup_error_text(e: SetupError) -> Seq<char> {
    match e {
        SetupError::Install(i) => install_error_text(i),
        SetupError::WorkDir(m) => m@,
        SetupError::Clone(c) => clone_error_text(c),
        SetupError::Dependencies(d) => dependency_error_text(d),
        SetupError::OutOfOrder => "Setup received an unexpected event"@,
    }
}

impl SetupError {
    pub fn message(&self) -> (r: String)
        ensures
            r@ == setup_error_text(*self),
    {
        match self {
            SetupError::Install(i) => i.message(),
            SetupError::WorkDir(m) => m.clone(),
            SetupError::Clone(c) => c.message(),
            SetupError::Dependencies(d) => d.message(),
            SetupError::OutOfOrder => String::from_str("Setup received an unexpected event"),
        }
    }
}

/// The next piece of outside work.
pub enum SetupCommand {
    /// Look the tool up on the search path; answer with `ToolChecked`.
    CheckTool(Tool),
    /// Install the tool's package; answer with `ToolInstalled`.
    InstallTool(Tool),
    /// Resolve the working directory and whether it exists; answer with `WorkDirResolved`.
    ResolveWorkDir,
    /// Create the working directory; answer with `WorkDirCreated`.
    CreateWorkDir,
    /// Clone the repository into it; answer with `Cloned`.
    CloneRepository,
    /// Run the dependency install to completion; answer with `DependenciesInstalled`.
    InstallDependencies,
    /// Setup is over, with this result.
    Finish(Result<(), SetupError>),
}

/// The outcome of the last command.
pub enum SetupEvent {
    Started,
    ToolChecked(bool),
    ToolInstalled(Result<(), InstallError>),
    WorkDirResolved(Result<bool, String>),
    WorkDirCreated(Result<(), String>),
    Cloned(Result<(), CloneError>),
    DependenciesInstalled(Result<(), DependencyError>),
}

/// What to do next: publish the notices, in order, then perform the command.
pub struct SetupStep {
    pub notices: Vec<SetupNotice>,
    pub command: SetupCommand,
}

/// The transition taken from `phase` on `event`: the next phase, the
/// notices to publish and the next command. Each failure ends setup at
/// once; a missing npm is reported and setup goes on.
pub open spec fn transition(phase: SetupPhase, event: SetupEvent) -> (SetupPhase, Seq<SetupNotice>, SetupCommand) {
    match (phase, event) {
        (SetupPhase::NotStarted, SetupEvent::Started) =>
            (SetupPhase::CheckingGit, seq![SetupNotice::CheckingGit], SetupCommand::CheckTool(Tool::Git)),
        (SetupPhase::CheckingGit, SetupEvent::ToolChecked(found)) =>
            if found {
                (SetupPhase::CheckingNode, seq![SetupNotice::CheckingNode], SetupCommand::CheckTool(Tool::Node))
            } else {
                (SetupPhase::InstallingGit, seq![SetupNotice::InstallingGit], SetupCommand::InstallTool(Tool::Git))
            },
        (SetupPhase::InstallingGit, SetupEvent::ToolInstalled(res)) =>
            match res {
                Ok(_) => (SetupPhase::CheckingNode, seq![SetupNotice::CheckingNode], SetupCommand::CheckTool(Tool::Node)),
                Err(e) => (SetupPhase::Done, Seq::empty(), SetupCommand::Finish(Err(SetupError::Install(e)))),
            },
        (SetupPhase::CheckingNode, SetupEvent::ToolChecked(found)) =>
            if found {
                (SetupPhase::CheckingNpm, seq![SetupNotice::CheckingNpm], SetupCommand::CheckTool(Tool::Npm))
            } else {
                (SetupPhase::InstallingNode, seq![SetupNotice::InstallingNode], SetupCommand::InstallTool(Tool::Node))
            },
        (SetupPhase::InstallingNode, SetupEvent::ToolInstalled(res)) =>
            match res {
                Ok(_) => (SetupPhase::CheckingNpm, seq![SetupNotice::CheckingNpm], SetupCommand::CheckTool(Tool::Npm)),
                Err(e) => (SetupPhase::Done, Seq::empty(), SetupCommand::Finish(Err(SetupError::Install(e)))),
            },
        (SetupPhase::CheckingNpm, SetupEvent::ToolChecked(found)) =>
            if found {
                (SetupPhase::ResolvingWorkDir, seq![SetupNotice::SettingUpRepository], SetupCommand::ResolveWorkDir)
            } else {
                (
                    SetupPhase::ResolvingWorkDir,
                    seq![SetupNotice::NpmMissing, SetupNotice::SettingUpRepository],
                    SetupCommand::ResolveWorkDir,
                )
            },
        (SetupPhase::ResolvingWorkDir, SetupEvent::WorkDirResolved(res)) =>
            match res {
                Ok(exists) =>
                    if exists {
                        (
                            SetupPhase::InstallingDependencies,
                            seq![SetupNotice::InstallingDependencies],
                            SetupCommand::InstallDependencies,
                        )
                    } else {
                        (SetupPhase::CreatingWorkDir, Seq::empty(), SetupCommand::CreateWorkDir)
                    },
                Err(e) => (SetupPhase::Done, Seq::empty(), SetupCommand::Finish(Err(SetupError::WorkDir(e)))),
            },
        (SetupPhase::CreatingWorkDir, SetupEvent::WorkDirCreated(res)) =>
            match res {
                Ok(_) => (SetupPhase::Cloning, Seq::empty(), SetupCommand::CloneRepository),
                Err(e) => (SetupPhase::Done, Seq::empty(), SetupCommand::Finish(Err(SetupError::WorkDir(e)))),
            },
        (SetupPhase::Cloning, SetupEvent::Cloned(res)) =>
            match res {
                Ok(_) => (
                    SetupPhase::InstallingDependencies,
                    seq![SetupNotice::InstallingDependencies],
                    SetupCommand::InstallDependencies,
                ),
                Err(e) => (SetupPhase::Done, Seq::empty(), SetupCommand::Finish(Err(SetupError::Clone(e)))),
            },
        (SetupPhase::InstallingDependencies, SetupEvent::DependenciesInstalled(res)) =>
            match res {
                Ok(_) => (SetupPhase::Done, seq![SetupNotice::Completed], SetupCommand::Finish(Ok(()))),
                Err(e) => (SetupPhase::Done, Seq::empty(), SetupCommand::Finish(Err(SetupError::Dependencies(e)))),
            },
        _ => (SetupPhase::Done, Seq::empty(), SetupCommand::Finish(Err(SetupError::OutOfOrder))),
    }
}

fn step(next: SetupPhase, notices: Vec<SetupNotice>, command: SetupCommand) -> (r: (SetupPhase, SetupStep))
    ensures
        r.0 == next,
        r.1.notices@ == notices@,
        r.1.command == command,
{
    (next, SetupStep { notices, command })
}

/// Decides the next step of environment setup from the current phase and
/// the outcome of the previous command.
pub fn setup_step(phase: SetupPhase, event: SetupEvent) -> (r: (SetupPhase, SetupStep))
    ensures
        (r.0, r.1.notices@, r.1.command) == transition(phase, event),
{
    let r = match (phase, event) {
        (SetupPhase::NotStarted, SetupEvent::Started) =>
            step(SetupPhase::CheckingGit, vec![SetupNotice::CheckingGit], SetupCommand::CheckTool(Tool::Git)),
        (SetupPhase::CheckingGit, SetupEvent::ToolChecked(found)) =>
            if found {
                step(SetupPhase::CheckingNode, vec![SetupNotice::CheckingNode], SetupCommand::CheckTool(Tool::Node))
            } else {
                step(SetupPhase::InstallingGit, vec![SetupNotice::InstallingGit], SetupCommand::InstallTool(Tool::Git))
            },
        (SetupPhase::InstallingGit, SetupEvent::ToolInstalled(res)) =>
            match res {
                Ok(_) => step(SetupPhase::CheckingNode, vec![SetupNotice::CheckingNode], SetupCommand::CheckTool(Tool::Node)),
                Err(e) => step(SetupPhase::Done, Vec::new(), SetupCommand::Finish(Err(SetupError::Install(e)))),
            },
        (SetupPhase::CheckingNode, SetupEvent::ToolChecked(found)) =>
            if found {
                step(SetupPhase::CheckingNpm, vec![SetupNotice::CheckingNpm], SetupCommand::CheckTool(Tool::Npm))
            } else {
                step(SetupPhase::InstallingNode, vec![SetupNotice::InstallingNode], SetupCommand::InstallTool(Tool::Node))
            },
        (SetupPhase::InstallingNode, SetupEvent::ToolInstalled(res)) =>
            match res {
                Ok(_) => step(SetupPhase::CheckingNpm, vec![SetupNotice::CheckingNpm], SetupCommand::CheckTool(Tool::Npm)),
                Err(e) => step(SetupPhase::Done, Vec::new(), SetupCommand::Finish(Err(SetupError::Install(e)))),
            },
        (SetupPhase::CheckingNpm, SetupEvent::ToolChecked(found)) =>
            if found {
                step(SetupPhase::ResolvingWorkDir, vec![SetupNotice::SettingUpRepository], SetupCommand::ResolveWorkDir)
            } else {
                step(
                    SetupPhase::ResolvingWorkDir,
                    vec![SetupNotice::NpmMissing, SetupNotice::SettingUpRepository],
                    SetupCommand::ResolveWorkDir,
                )
            },
        (SetupPhase::ResolvingWorkDir, SetupEvent::WorkDirResolved(res)) =>
            match res {
                Ok(exists) =>
                    if exists {
                        step(
                            SetupPhase::InstallingDependencies,
                            vec![SetupNotice::InstallingDependencies],
                            SetupCommand::InstallDependencies,
                        )
                    } else {
                        step(SetupPhase::CreatingWorkDir, Vec::new(), SetupCommand::CreateWorkDir)
                    },
                Err(e) => step(SetupPhase::Done, Vec::new(), SetupCommand::Finish(Err(SetupError::WorkDir(e)))),
            },
        (SetupPhase::CreatingWorkDir, SetupEvent::WorkDirCreated(res)) =>
            match res {
                Ok(_) => step(SetupPhase::Cloning, Vec::new(), SetupCommand::CloneRepository),
                Err(e) => step(SetupPhase::Done, Vec::new(), SetupCommand::Finish(Err(SetupError::WorkDir(e)))),
            },
        (SetupPhase::Cloning, SetupEvent::Cloned(res)) =>
            match res {
                Ok(_) => step(
                    SetupPhase::InstallingDependencies,
                    vec![SetupNotice::InstallingDependencies],
                    SetupCommand::InstallDependencies,
                ),
                Err(e) => step(SetupPhase::Done, Vec::new(), SetupCommand::Finish(Err(SetupError::Clone(e)))),
            },
        (SetupPhase::InstallingDependencies, SetupEvent::DependenciesInstalled(res)) =>
            match res {
                Ok(_) => step(SetupPhase::Done, vec![SetupNotice::Completed], SetupCommand::Finish(Ok(()))),
                Err(e) => step(SetupPhase::Done, Vec::new(), SetupCommand::Finish(Err(SetupError::Dependencies(e)))),
            },
        _ => step(SetupPhase::Done, Vec::new(), SetupCommand::Finish(Err(SetupError::OutOfOrder))),
    };
    assert(r.1.notices@ =~= transition(phase, event).1);
    r
}

/// An existing working directory is never cloned into: the repository is
/// cloned only right after a missing working directory was created, and a
/// working directory found to exist leads straight to the dependency install.
pub proof fn lemma_existing_work_dir_skips_clone(phase: SetupPhase, event: SetupEvent)
    ensures
        transition(phase, event).2 is CloneRepository ==> phase == SetupPhase::CreatingWorkDir
            && (event matches SetupEvent::WorkDirCreated(Ok(_))),
        transition(phase, event).0 == SetupPhase::CreatingWorkDir ==> phase
            == SetupPhase::ResolvingWorkDir && (event matches SetupEvent::WorkDirResolved(Ok(false))),
        phase == SetupPhase::ResolvingWorkDir && (event matches SetupEvent::WorkDirResolved(Ok(true)))
            ==> transition(phase, event).0 == SetupPhase::InstallingDependencies
            && transition(phase, event).2 is InstallDependencies,
{
}

/// The version-control tool is installed only when its lookup came back
/// negative, with its own package identifier, and a successful install moves
/// setup on to the next tool without asking to install it again.
pub proof fn lemma_missing_git_installed_once(phase: SetupPhase, event: SetupEvent)
    ensures
        (transition(phase, event).2 matches SetupCommand::InstallTool(t) && t == Tool::Git) <==> (
        phase == SetupPhase::CheckingGit && (event matches SetupEvent::ToolChecked(false))),
        transition(phase, event).0 == SetupPhase::InstallingGit ==> phase == SetupPhase::CheckingGit,
        phase == SetupPhase::InstallingGit && (event matches SetupEvent::ToolInstalled(Ok(_)))
            ==> transition(phase, event).0 == SetupPhase::CheckingNode
            && transition(phase, event).2 == SetupCommand::CheckTool(Tool::Node),
        crate::provision::package_id(Tool::Git) == Some("Git.Git"@),
{
}

} // verus!
