use vstd::prelude::*;

verus! {

/// The views of a list of strings.
pub open spec fn texts(v: Seq<String>) -> Seq<Seq<char>> {
    v.map_values(|s: String| s@)
}

/// How an external command that ran to completion ended.
pub struct CommandReport {
    pub success: bool,
    /// The command's diagnostic output, as text.
    pub stderr: String,
}

/// The prerequisite tools.
#[derive(PartialEq, Eq, Structural, Clone, Copy, Debug)]
pub enum Tool {
    Git,
    Node,
    Npm,
}

pub open spec fn program_name(t: Tool) -> Seq<char> {
    match t {
        Tool::Git => "git"@,
        Tool::Node => "node"@,
        Tool::Npm => "npm"@,
    }
}

/// The package-manager identifier that installs a tool; npm comes with
/// Node.js and is never installed on its own.
pub open spec fn package_id(t: Tool) -> Option<Seq<char>> {
    match t {
        Tool::Git => Some("Git.Git"@),
        Tool::Node => Some("OpenJS.NodeJS"@),
        Tool::Npm => None,
    }
}

impl Tool {
    /// The executable looked up on the search path.
    pub fn program(&self) -> (r: &'static str)
        ensures
            r@ == program_name(*self),
    {
        match self {
            Tool::Git => "git",
            Tool::Node => "node",
            Tool::Npm => "npm",
        }
    }

    pub fn package(&self) -> (r: Option<&'static str>)
        ensures
            r matches Some(p) ==> package_id(*self) == Some(p@),
            r is None ==> package_id(*self) is None,
    {
        match self {
            Tool::Git => Some("Git.Git"),
            Tool::Node => Some("OpenJS.NodeJS"),
            Tool::Npm => None,
        }
    }
}

/// Whether a path lookup found the tool: `probe` is the lookup command's
/// exit success, or `None` where the lookup could not run, which counts as
/// "not available".
pub fn tool_found(probe: Option<bool>) -> (r: bool)
    ensures
        r == (probe == Some(true)),
{
    match probe {
        Some(found) => found,
        None => false,
    }
}

/// Why installing a tool failed.
pub enum InstallError {
    /// The package manager itself is missing.
    ManagerUnavailable,
    /// The package manager could not be started.
    LaunchFailed(String),
    /// The install ran and reported failure.
    InstallFailed { package: String, detail: String },
}

pub open spec fn install_error_text(e: InstallError) -> Seq<char> {
    match e {
        InstallError::ManagerUnavailable => "Winget is not available. Please install it from the Microsoft Store."@,
        InstallError::LaunchFailed(m) => m@,
        InstallError::InstallFailed { package, detail } => "Failed to install "@ + package@ + ": "@ + detail@,
    }
}

impl InstallError {
    pub fn message(&self) -> (r: String)
        ensures
            r@ == install_error_text(*self),
    {
        match self {
            InstallError::ManagerUnavailable => String::from_str(
                "Winget is not available. Please install it from the Microsoft Store.",
            ),
            InstallError::LaunchFailed(m) => m.clone(),
            InstallError::InstallFailed { package, detail } => {
                let mut r = String::from_str("Failed to install ");
                r.append(package.as_str());
                r.append(": ");
                r.append(detail.as_str());
                r
            },
        }
    }
}

/// The arguments of an unattended install of `package`, accepting the
/// source and package agreements.
pub fn install_arguments(package: &str) -> (r: Vec<String>)
    ensures
        texts(r@) == seq![
            "install"@,
            package@,
            "--accept-source-agreements"@,
            "--accept-package-agreements"@,
            "-h"@,
        ],
{
    let r = vec![
        String::from_str("install"),
        package.to_owned(),
        String::from_str("--accept-source-agreements"),
        String::from_str("--accept-package-agreements"),
        String::from_str("-h"),
    ];
    assert(texts(r@) =~= seq![
        "install"@,
        package@,
        "--accept-source-agreements"@,
        "--accept-package-agreements"@,
        "-h"@,
    ]);
    r
}

/// The result of installing `package`: `run` is `None` where the package
/// manager is missing, else how its install command went.
pub fn install_outcome(package: &str, run: Option<Result<CommandReport, String>>) -> (r: Result<(), InstallError>)
    ensures
        run is None ==> r == Err::<(), InstallError>(InstallError::ManagerUnavailable),
        run matches Some(Err(e)) ==> r == Err::<(), InstallError>(InstallError::LaunchFailed(e)),
        run matches Some(Ok(rep)) ==> (rep.success ==> r is Ok) && (!rep.success ==> (r matches Err(InstallError::InstallFailed { package: p, detail: d }) && p@ == package@ && d == rep.stderr)),
{
    match run {
        None => Err(InstallError::ManagerUnavailable),
        Some(Err(e)) => Err(InstallError::LaunchFailed(e)),
        Some(Ok(rep)) => {
            if rep.success {
                Ok(())
            } else {
                Err(InstallError::InstallFailed { package: package.to_owned(), detail: rep.stderr })
            }
        },
    }
}

/// Why materialising the working directory from the remote repository failed.
pub enum CloneError {
    LaunchFailed(String),
    Failed(String),
}

pub open spec fn clone_error_text(e: CloneError) -> Seq<char> {
    match e {
        CloneError::LaunchFailed(m) => m@,
        CloneError::Failed(detail) => "Failed to clone repository: "@ + detail@,
    }
}

impl CloneError {
    pub fn message(&self) -> (r: String)
        ensures
            r@ == clone_error_text(*self),
    {
        match self {
            CloneError::LaunchFailed(m) => m.clone(),
            CloneError::Failed(detail) => {
                let mut r = String::from_str("Failed to clone repository: ");
                r.append(detail.as_str());
                r
            },
        }
    }
}

pub open spec fn repository_url() -> Seq<char> {
    "https://github.com/Vinamra7/mindcraft.git"@
}

pub open spec fn repository_branch() -> Seq<char> {
    "desktop-app"@
}

/// The arguments that clone the fixed branch of the fixed repository into `dest`.
pub fn clone_arguments(dest: &str) -> (r: Vec<String>)
    ensures
        texts(r@) == seq!["clone"@, "-b"@, repository_branch(), repository_url(), dest@],
{
    let r = vec![
        String::from_str("clone"),
        String::from_str("-b"),
        String::from_str("desktop-app"),
        String::from_str("https://github.com/Vinamra7/mindcraft.git"),
        dest.to_owned(),
    ];
    assert(texts(r@) =~= seq!["clone"@, "-b"@, repository_branch(), repository_url(), dest@]);
    r
}

/// The result of the clone command.
pub fn clone_outcome(run: Result<CommandReport, String>) -> (r: Result<(), CloneError>)
    ensures
        run matches Err(e) ==> r == Err::<(), CloneError>(CloneError::LaunchFailed(e)),
        run matches Ok(rep) ==> (rep.success ==> r is Ok) && (!rep.success ==> r == Err::<(), CloneError>(CloneError::Failed(rep.stderr))),
{
    match run {
        Err(e) => Err(CloneError::LaunchFailed(e)),
        Ok(rep) => {
            if rep.success {
                Ok(())
            } else {
                Err(CloneError::Failed(rep.stderr))
            }
        },
    }
}

} // verus!
