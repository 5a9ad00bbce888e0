//! The dispatcher: from a classified invocation and the platforms that the
//! session reports to the executor that handles it.
//!
//! The session is read only when the decision needs it, so dispatch runs in
//! steps. [`begin`] classifies the invocation and either settles it at once
//! or names the platform it needs to know; [`resume`] takes the session's
//! reply and goes on from there. [`dispatch`] is the same decision with both
//! replies at hand.

use vstd::prelude::*;
use crate::classify::{
    classification,
    classify,
    lemma_classification_is_well_formed,
    Classification,
    ClassificationView,
};
use crate::executor::{
    Executor,
    ExecutorView,
    InternalInstallCommand,
    PackageInstallCommand,
    ToolCommand,
};
use crate::manager::PackageManager;
use crate::platform::Platform;
use crate::token::tokens_of;
use crate::tool::{is_reserved_name, ToolSpec, ToolSpecView};

verus! {

/// A question to the session.
#[derive(Clone, Copy, Debug, PartialEq, Eq, Structural)]
pub enum Query {
    /// The user-wide default platform.
    DefaultPlatform,
    /// The platform in effect: the project's pin, else the default.
    CurrentPlatform,
}

/// How far a pending dispatch has come.
#[derive(Clone, Debug, PartialEq, Eq)]
pub enum Stage {
    /// A global install of the named package waits for the default platform.
    PackageInstall { package: String },
    /// A pass-through waits for the current platform.
    PassThrough,
}

/// A dispatch that waits for a reply from the session.
#[derive(Clone, Debug, PartialEq, Eq)]
pub struct Pending {
    /// The package manager that was invoked.
    pub manager: PackageManager,
    /// The arguments of the invocation, as they were given.
    pub args: Vec<Vec<u8>>,
    /// What the dispatch waits for.
    pub stage: Stage,
}

/// Where a dispatch stands after a step.
#[derive(Debug, PartialEq, Eq)]
pub enum Step<E> {
    /// The session has to answer [`Pending::query`] before dispatch goes on.
    Ask(Pending),
    /// The invocation is settled: this executor handles it.
    Run(Executor),
    /// The session failed to answer; its error ends the invocation.
    Fail(E),
}

/// The mathematical value of a [`Stage`].
pub enum StageView {
    PackageInstall { package: Seq<char> },
    PassThrough,
}

/// The mathematical value of a [`Pending`].
pub struct PendingView {
    pub manager: PackageManager,
    pub args: Seq<Seq<u8>>,
    pub stage: StageView,
}

/// The mathematical value of a [`Step`].
pub enum StepView<E> {
    Ask(PendingView),
    Run(ExecutorView),
    Fail(E),
}

impl View for Stage {
    type V = StageView;

    open spec fn view(&self) -> StageView {
        match *self {
            Stage::PackageInstall { package } => StageView::PackageInstall { package: package@ },
            Stage::PassThrough => StageView::PassThrough,
        }
    }
}

impl View for Pending {
    type V = PendingView;

    open spec fn view(&self) -> PendingView {
        PendingView { manager: self.manager, args: tokens_of(self.args@), stage: self.stage@ }
    }
}

impl<E> View for Step<E> {
    type V = StepView<E>;

    open spec fn view(&self) -> StepView<E> {
        match *self {
            Step::Ask(pending) => StepView::Ask(pending@),
            Step::Run(executor) => StepView::Run(executor@),
            Step::Fail(error) => StepView::Fail(error),
        }
    }
}

impl StageView {
    /// The question that a dispatch at this stage puts to the session.
    pub open spec fn query(self) -> Query {
        match self {
            StageView::PackageInstall { .. } => Query::DefaultPlatform,
            StageView::PassThrough => Query::CurrentPlatform,
        }
    }
}

/// The value of a dispatch result.
pub open spec fn outcome_view<E>(outcome: Result<Executor, E>) -> Result<ExecutorView, E> {
    match outcome {
        Ok(executor) => Ok(executor@),
        Err(error) => Err(error),
    }
}

/// Passing an invocation through: the manager's own binary, the arguments as
/// they were given, and whatever platform is in effect.
pub open spec fn pass_through<E>(
    manager: PackageManager,
    tokens: Seq<Seq<u8>>,
    current: Result<Option<Platform>, E>,
) -> Result<ExecutorView, E> {
    match current {
        Ok(platform) => Ok(
            ExecutorView::Tool { exe: manager.binary_name(), args: tokens, platform },
        ),
        Err(error) => Err(error),
    }
}

/// The executor for an invocation, given what the session would reply about
/// the default and the current platform. A reply that the decision does not
/// need is not looked at.
pub open spec fn dispatched<E>(
    manager: PackageManager,
    tokens: Seq<Seq<u8>>,
    default: Result<Option<Platform>, E>,
    current: Result<Option<Platform>, E>,
) -> Result<ExecutorView, E> {
    match classification(manager, tokens) {
        ClassificationView::GlobalAdd(ToolSpecView::Package(name, _)) => match default {
            Ok(Some(platform)) => Ok(
                ExecutorView::PackageInstall {
                    name,
                    args: tokens,
                    platform: platform.as_default(),
                    manager,
                },
            ),
            Ok(None) => pass_through(manager, tokens, current),
            Err(error) => Err(error),
        },
        ClassificationView::GlobalAdd(tool) => Ok(ExecutorView::InternalInstall { tool }),
        ClassificationView::NotGlobalAdd => pass_through(manager, tokens, current),
    }
}

/// Where dispatch stands once the invocation is classified.
pub open spec fn first_step<E>(manager: PackageManager, tokens: Seq<Seq<u8>>) -> StepView<E> {
    match classification(manager, tokens) {
        ClassificationView::GlobalAdd(ToolSpecView::Package(name, _)) => StepView::Ask(
            PendingView {
                manager,
                args: tokens,
                stage: StageView::PackageInstall { package: name },
            },
        ),
        ClassificationView::GlobalAdd(tool) => StepView::Run(
            ExecutorView::InternalInstall { tool },
        ),
        ClassificationView::NotGlobalAdd => StepView::Ask(
            PendingView { manager, args: tokens, stage: StageView::PassThrough },
        ),
    }
}

/// Where a pending dispatch stands once the session has replied.
pub open spec fn next_step<E>(
    pending: PendingView,
    reply: Result<Option<Platform>, E>,
) -> StepView<E> {
    match reply {
        Err(error) => StepView::Fail(error),
        Ok(platform) => match pending.stage {
            StageView::PackageInstall { package } => match platform {
                Some(default) => StepView::Run(
                    ExecutorView::PackageInstall {
                        name: package,
                        args: pending.args,
                        platform: default.as_default(),
                        manager: pending.manager,
                    },
                ),
                None => StepView::Ask(
                    PendingView {
                        manager: pending.manager,
                        args: pending.args,
                        stage: StageView::PassThrough,
                    },
                ),
            },
            StageView::PassThrough => StepView::Run(
                ExecutorView::Tool {
                    exe: pending.manager.binary_name(),
                    args: pending.args,
                    platform,
                },
            ),
        },
    }
}

/// A step after the session has answered its question, if it had one.
pub open spec fn answered<E>(
    step: StepView<E>,
    default: Result<Option<Platform>, E>,
    current: Result<Option<Platform>, E>,
) -> StepView<E> {
    match step {
        StepView::Ask(pending) => next_step(
            pending,
            match pending.stage.query() {
                Query::DefaultPlatform => default,
                Query::CurrentPlatform => current,
            },
        ),
        _ => step,
    }
}

/// The result that a settled step stands for.
pub open spec fn settled<E>(outcome: Result<ExecutorView, E>) -> StepView<E> {
    match outcome {
        Ok(executor) => StepView::Run(executor),
        Err(error) => StepView::Fail(error),
    }
}

/// Dispatch in steps puts at most two questions to the session, and ends
/// where dispatch with both replies at hand ends.
pub proof fn lemma_steps_agree_with_dispatch<E>(
    manager: PackageManager,
    tokens: Seq<Seq<u8>>,
    default: Result<Option<Platform>, E>,
    current: Result<Option<Platform>, E>,
)
    ensures
        answered(answered(first_step::<E>(manager, tokens), default, current), default, current)
            == settled(dispatched(manager, tokens, default, current)),
{
}

/// A global install of a third-party package becomes a package install into
/// the default platform when there is one. When there is none it is passed
/// through like any other invocation, and ends as a tool command unless the
/// session fails.
pub proof fn lemma_package_install_needs_default<E>(
    manager: PackageManager,
    tokens: Seq<Seq<u8>>,
    default: Result<Option<Platform>, E>,
    current: Result<Option<Platform>, E>,
)
    requires
        classification(manager, tokens) matches ClassificationView::GlobalAdd(tool) && tool
            is Package,
    ensures
        ({
            let outcome = dispatched(manager, tokens, default, current);
            let name = classification(manager, tokens)->GlobalAdd_0->Package_0;
            &&& default matches Ok(Some(platform)) ==> outcome is Ok && outcome->Ok_0 == (
            ExecutorView::PackageInstall {
                name,
                args: tokens,
                platform: platform.as_default(),
                manager,
            })
            &&& default matches Ok(None) ==> outcome == pass_through(manager, tokens, current)
            &&& default matches Ok(None) ==> (current is Ok ==> outcome is Ok && outcome->Ok_0
                is Tool)
        }),
{
}

/// A global install of a tool that the version manager manages itself
/// becomes an internal install, whatever the session would reply.
pub proof fn lemma_core_tool_installs_internally<E>(
    manager: PackageManager,
    tokens: Seq<Seq<u8>>,
    default: Result<Option<Platform>, E>,
    current: Result<Option<Platform>, E>,
)
    requires
        classification(manager, tokens) matches ClassificationView::GlobalAdd(tool)
            && tool.is_core_tool(),
    ensures
        ({
            let outcome = dispatched(manager, tokens, default, current);
            let tool = classification(manager, tokens)->GlobalAdd_0;
            outcome is Ok && outcome->Ok_0 == (ExecutorView::InternalInstall { tool })
        }),
{
}

/// An invocation that is no global add is passed through: it ends as a tool
/// command unless the session fails to report the current platform.
pub proof fn lemma_other_commands_pass_through<E>(
    manager: PackageManager,
    tokens: Seq<Seq<u8>>,
    default: Result<Option<Platform>, E>,
    current: Result<Option<Platform>, E>,
)
    requires
        classification(manager, tokens) is NotGlobalAdd,
    ensures
        dispatched(manager, tokens, default, current) == pass_through(manager, tokens, current),
{
}

/// Every executor that carries arguments carries the list as it was given,
/// and a tool command runs the manager's own binary under the current
/// platform.
pub proof fn lemma_arguments_are_preserved<E>(
    manager: PackageManager,
    tokens: Seq<Seq<u8>>,
    default: Result<Option<Platform>, E>,
    current: Result<Option<Platform>, E>,
)
    ensures
        ({
            let outcome = dispatched(manager, tokens, default, current);
            &&& outcome matches Ok(ExecutorView::Tool { exe, args, platform }) ==> {
                &&& args == tokens
                &&& exe == manager.binary_name()
                &&& current is Ok
                &&& current->Ok_0 == platform
            }
            &&& outcome matches Ok(ExecutorView::PackageInstall { args, .. }) ==> args == tokens
        }),
{
}

/// What dispatch hands to an installer is fit for it: a package install has
/// a platform to install into and names a package that is none of the core
/// tools, and an internal install names one of the core tools.
pub proof fn lemma_installs_are_well_formed<E>(
    manager: PackageManager,
    tokens: Seq<Seq<u8>>,
    default: Result<Option<Platform>, E>,
    current: Result<Option<Platform>, E>,
)
    ensures
        ({
            let outcome = dispatched(manager, tokens, default, current);
            &&& outcome matches Ok(ExecutorView::PackageInstall { name, platform, .. }) ==> {
                &&& name.len() > 0
                &&& !is_reserved_name(name)
                &&& default is Ok
                &&& default->Ok_0 is Some
                &&& platform == default->Ok_0->Some_0.as_default()
            }
            &&& outcome matches Ok(ExecutorView::InternalInstall { tool }) ==> {
                &&& tool.is_core_tool()
                &&& tool.well_formed()
            }
        }),
{
    lemma_classification_is_well_formed(manager, tokens);
}

/// Dispatch invents no error: one that it returns is one that the session
/// replied with, and it returns none when the session replies to both
/// questions.
pub proof fn lemma_errors_come_from_the_session<E>(
    manager: PackageManager,
    tokens: Seq<Seq<u8>>,
    default: Result<Option<Platform>, E>,
    current: Result<Option<Platform>, E>,
)
    ensures
        ({
            let outcome = dispatched(manager, tokens, default, current);
            &&& outcome matches Err(error) ==> {
                ||| default is Err && default->Err_0 == error
                ||| current is Err && current->Err_0 == error
            }
            &&& default is Ok && current is Ok ==> outcome is Ok
        }),
{
}

impl Pending {
    /// The question that the session has to answer before dispatch goes on.
    pub fn query(&self) -> (query: Query)
        ensures
            query == self@.stage.query(),
    {
        match &self.stage {
            Stage::PackageInstall { .. } => Query::DefaultPlatform,
            Stage::PassThrough => Query::CurrentPlatform,
        }
    }
}

/// Starts the dispatch of an invocation of `manager` with the given
/// arguments.
///
/// A global install of a core tool is settled at once. A global install of a
/// third-party package asks for the default platform, and everything else
/// for the current one.
pub fn begin<E>(manager: PackageManager, args: Vec<Vec<u8>>) -> (step: Step<E>)
    ensures
        step@ == first_step::<E>(manager, tokens_of(args@)),
{
    match classify(manager, args.as_slice()) {
        Classification::GlobalAdd(ToolSpec::Package(name, _)) => Step::Ask(
            Pending { manager, args, stage: Stage::PackageInstall { package: name } },
        ),
        Classification::GlobalAdd(tool) => Step::Run(
            Executor::InternalInstall(InternalInstallCommand { tool }),
        ),
        Classification::NotGlobalAdd => Step::Ask(
            Pending { manager, args, stage: Stage::PassThrough },
        ),
    }
}

/// Goes on with a pending dispatch, given the session's reply to its
/// question.
///
/// An error ends the dispatch as it came. With a default platform a package
/// install is settled; without one it falls back to a pass-through, which
/// asks for the current platform and runs under whatever that is.
pub fn resume<E>(pending: Pending, reply: Result<Option<Platform>, E>) -> (step: Step<E>)
    ensures
        step@ == next_step(pending@, reply),
{
    let platform = match reply {
        Ok(platform) => platform,
        Err(error) => {
            return Step::Fail(error);
        },
    };
    let Pending { manager, args, stage } = pending;
    match stage {
        Stage::PackageInstall { package } => match platform {
            Some(default) => Step::Run(
                Executor::PackageInstall(
                    PackageInstallCommand {
                        name: package,
                        args,
                        platform: default.as_default(),
                        manager,
                    },
                ),
            ),
            None => Step::Ask(Pending { manager, args, stage: Stage::PassThrough }),
        },
        Stage::PassThrough => Step::Run(
            Executor::Tool(ToolCommand { exe: manager.binary().to_owned(), args, platform }),
        ),
    }
}

/// Chooses the executor for an invocation of `manager` with the given
/// arguments, with the session's replies about the default and the current
/// platform at hand.
pub fn dispatch<E>(
    manager: PackageManager,
    args: Vec<Vec<u8>>,
    default: Result<Option<Platform>, E>,
    current: Result<Option<Platform>, E>,
) -> (outcome: Result<Executor, E>)
    ensures
        outcome_view(outcome) == dispatched(manager, tokens_of(args@), default, current),
{
    let pending = match begin(manager, args) {
        Step::Ask(pending) => pending,
        Step::Run(executor) => {
            return Ok(executor);
        },
        Step::Fail(error) => {
            return Err(error);
        },
    };
    let step = match pending.query() {
        Query::DefaultPlatform => resume(pending, default),
        Query::CurrentPlatform => {
            return conclude(resume(pending, current));
        },
    };
    match step {
        Step::Ask(pending) => conclude(resume(pending, current)),
        settled => conclude(settled),
    }
}

/// The result of a dispatch that has no question left.
fn conclude<E>(step: Step<E>) -> (outcome: Result<Executor, E>)
    requires
        !(step@ is Ask),
    ensures
        step@ == settled(outcome_view(outcome)),
{
    match step {
        Step::Run(executor) => Ok(executor),
        Step::Fail(error) => Err(error),
        Step::Ask(_) => Err(unreached()),
    }
}

} // verus!
