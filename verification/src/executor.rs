//! Executors: the three things an intercepted invocation can turn into.
//!
//! An executor describes work for a collaborator outside this library: a
//! process launcher, the package installer, or the toolchain installer.

use vstd::prelude::*;
use crate::manager::PackageManager;
use crate::platform::{execution_context, failure_kind_for, ErrorKind, Platform};
use crate::token::tokens_of;
use crate::tool::{ToolSpec, ToolSpecView};

verus! {

/// Runs the package manager itself, with the arguments as they were given.
#[derive(Clone, Debug, PartialEq, Eq)]
pub struct ToolCommand {
    /// The name of the binary to run.
    pub exe: String,
    /// The arguments of the invocation, as they were given.
    pub args: Vec<Vec<u8>>,
    /// The platform to run under, if any is in effect.
    pub platform: Option<Platform>,
}

/// Installs a third-party package through the version manager.
#[derive(Clone, Debug, PartialEq, Eq)]
pub struct PackageInstallCommand {
    /// The name of the package.
    pub name: String,
    /// The arguments of the invocation, as they were given, so that the
    /// install can honour the other flags among them.
    pub args: Vec<Vec<u8>>,
    /// The platform to install into.
    pub platform: Platform,
    /// The package manager that was invoked.
    pub manager: PackageManager,
}

/// Installs one of the tools that the version manager manages itself.
#[derive(Clone, Debug, PartialEq, Eq)]
pub struct InternalInstallCommand {
    /// The tool to install.
    pub tool: ToolSpec,
}

/// What to do with an intercepted invocation.
#[derive(Clone, Debug, PartialEq, Eq)]
pub enum Executor {
    /// Pass the invocation through to the package manager.
    Tool(ToolCommand),
    /// Install a third-party package through the version manager.
    PackageInstall(PackageInstallCommand),
    /// Install a managed tool with the version manager's own installer.
    InternalInstall(InternalInstallCommand),
}

/// The mathematical value of an [`Executor`].
#[allow(inconsistent_fields)]
pub enum ExecutorView {
    Tool { exe: Seq<char>, args: Seq<Seq<u8>>, platform: Option<Platform> },
    PackageInstall {
        name: Seq<char>,
        args: Seq<Seq<u8>>,
        platform: Platform,
        manager: PackageManager,
    },
    InternalInstall { tool: ToolSpecView },
}

impl View for Executor {
    type V = ExecutorView;

    open spec fn view(&self) -> ExecutorView {
        match *self {
            Executor::Tool(command) => ExecutorView::Tool {
                exe: command.exe@,
                args: tokens_of(command.args@),
                platform: command.platform,
            },
            Executor::PackageInstall(command) => ExecutorView::PackageInstall {
                name: command.name@,
                args: tokens_of(command.args@),
                platform: command.platform,
                manager: command.manager,
            },
            Executor::InternalInstall(command) => ExecutorView::InternalInstall {
                tool: command.tool@,
            },
        }
    }
}

/// What the process launcher is asked to do for a [`ToolCommand`].
#[derive(Clone, Debug, PartialEq, Eq)]
pub struct Launch {
    /// The name of the binary to run.
    pub exe: String,
    /// The arguments to run it with.
    pub args: Vec<Vec<u8>>,
    /// The search path to find it on.
    pub search_path: Vec<u8>,
    /// The error to report if the process fails.
    pub on_failure: ErrorKind,
}

/// The launch that a tool command asks for, once its search path is known.
pub open spec fn launch_of<E>(command: ToolCommand, search_path: Result<Vec<u8>, E>) -> Result<
    Launch,
    E,
> {
    match search_path {
        Ok(path) => Ok(
            Launch {
                exe: command.exe,
                args: command.args,
                search_path: path,
                on_failure: failure_kind_for(command.platform),
            },
        ),
        Err(e) => Err(e),
    }
}

impl ToolCommand {
    /// Describes the launch of this command, given the search path that was
    /// obtained for its platform. The binary and the arguments are those of
    /// the command, untouched; a failure to obtain the path is handed on as
    /// it came.
    pub fn launch<E>(self, search_path: Result<Vec<u8>, E>) -> (launch: Result<Launch, E>)
        ensures
            launch == launch_of(self, search_path),
    {
        match execution_context(self.platform, search_path) {
            Ok((path, kind)) => Ok(
                Launch { exe: self.exe, args: self.args, search_path: path, on_failure: kind },
            ),
            Err(e) => Err(e),
        }
    }
}

} // verus!
