//! The run as a state machine: which action follows which event.
//!
//! The machine performs nothing itself. Its driver performs each action
//! (reads the credential, calls the repository manager or the message
//! generation service, prints) and reports the outcome as the next event.

use vstd::prelude::*;
use crate::config::{Config, ConfigError};
use crate::error::{ErrorKind, GitError};
use crate::text::{is_blank, spec_is_blank};

verus! {

/// The switches of the command line.
#[derive(Clone, Copy, Debug, PartialEq, Eq, Structural)]
pub struct Options {
    /// Require changes to be staged already; never stage on the user's behalf.
    pub no_auto_stage: bool,
    /// Generate the message, but do not commit.
    pub dry_run: bool,
    /// Raise the log level.
    pub verbose: bool,
}

/// Why a run ends for want of staged changes.
#[derive(Clone, Copy, Debug, PartialEq, Eq, Structural)]
pub enum PolicyError {
    /// Nothing is staged and staging on the user's behalf is switched off.
    NothingStaged,
    /// Nothing is staged even after staging everything.
    NothingToCommit,
}

/// Why a run failed.
#[derive(Debug)]
pub enum RunError {
    /// The credential is missing or blank.
    Configuration(ConfigError),
    /// A repository operation failed.
    Git(GitError),
    /// There is nothing staged to work on.
    Policy(PolicyError),
    /// The staged diff is blank.
    EmptyDiff,
    /// The message generation service failed; its report is attached.
    Generation(String),
}

/// What the machine is waiting for.
#[derive(Clone, Copy, Debug, PartialEq, Eq, Structural)]
pub enum Phase {
    /// The value of the credential variable.
    LoadingCredential,
    /// The repository to be opened.
    OpeningRepository,
    /// The first answer on staged changes.
    CheckingStaged,
    /// Everything to be staged.
    Staging,
    /// The answer on staged changes after staging.
    RecheckingStaged,
    /// The staged diff.
    ExtractingDiff,
    /// The generated message.
    Generating,
    /// The commit to be created.
    Committing,
    /// Nothing: the run succeeded.
    Done,
    /// Nothing: the run failed.
    Failed,
}

/// What the driver reports back.
#[derive(Debug)]
pub enum Event {
    /// The value of the credential variable, `None` when it is not set.
    Credential(Option<String>),
    /// The repository is open.
    RepositoryOpened,
    /// Whether staged changes exist.
    Staged(bool),
    /// Everything has been staged.
    StagedAll,
    /// The staged diff.
    Diff(String),
    /// The generated message.
    Message(String),
    /// The commit has been created.
    Committed,
    /// The repository operation failed.
    GitFailed(GitError),
    /// The message generation service failed, with its report.
    GenerationFailed(String),
}

/// What the driver is to do next.
#[derive(Debug)]
pub enum Action {
    /// Read the credential variable.
    ReadCredential,
    /// Open the repository at the current directory.
    OpenRepository,
    /// Ask whether staged changes exist.
    QueryStaged,
    /// Stage every change.
    StageAll,
    /// Extract the staged diff.
    ExtractDiff,
    /// Ask the service for a message for `diff`, with `api_key`.
    Generate { api_key: String, diff: String },
    /// Print `output`, then commit with `message`.
    Commit { output: String, message: String },
    /// Print `output` and end the run with success.
    Finish { output: String },
    /// End the run with the failure.
    Fail(RunError),
}

/// [`RunError`] with its texts as character sequences.
pub enum RunErrorView {
    Configuration(ConfigError),
    Git(GitError),
    Policy(PolicyError),
    EmptyDiff,
    Generation(Seq<char>),
}

/// [`Event`] with its texts as character sequences.
pub enum EventView {
    Credential(Option<Seq<char>>),
    RepositoryOpened,
    Staged(bool),
    StagedAll,
    Diff(Seq<char>),
    Message(Seq<char>),
    Committed,
    GitFailed(GitError),
    GenerationFailed(Seq<char>),
}

/// [`Action`] with its texts as character sequences.
pub enum ActionView {
    ReadCredential,
    OpenRepository,
    QueryStaged,
    StageAll,
    ExtractDiff,
    Generate { api_key: Seq<char>, diff: Seq<char> },
    Commit { output: Seq<char>, message: Seq<char> },
    Finish { output: Seq<char> },
    Fail(RunErrorView),
}

/// The state of a run: its switches, what it waits for, and the credential
/// once it has been accepted.
pub struct MachineState {
    pub options: Options,
    pub phase: Phase,
    pub api_key: Seq<char>,
}

impl View for RunError {
    type V = RunErrorView;

    open spec fn view(&self) -> RunErrorView {
        match *self {
            RunError::Configuration(e) => RunErrorView::Configuration(e),
            RunError::Git(e) => RunErrorView::Git(e),
            RunError::Policy(e) => RunErrorView::Policy(e),
            RunError::EmptyDiff => RunErrorView::EmptyDiff,
            RunError::Generation(detail) => RunErrorView::Generation(detail@),
        }
    }
}

impl View for Event {
    type V = EventView;

    open spec fn view(&self) -> EventView {
        match *self {
            Event::Credential(Some(value)) => EventView::Credential(Some(value@)),
            Event::Credential(None) => EventView::Credential(None),
            Event::RepositoryOpened => EventView::RepositoryOpened,
            Event::Staged(any) => EventView::Staged(any),
            Event::StagedAll => EventView::StagedAll,
            Event::Diff(diff) => EventView::Diff(diff@),
            Event::Message(message) => EventView::Message(message@),
            Event::Committed => EventView::Committed,
            Event::GitFailed(e) => EventView::GitFailed(e),
            Event::GenerationFailed(detail) => EventView::GenerationFailed(detail@),
        }
    }
}

impl View for Action {
    type V = ActionView;

    open spec fn view(&self) -> ActionView {
        match *self {
            Action::ReadCredential => ActionView::ReadCredential,
            Action::OpenRepository => ActionView::OpenRepository,
            Action::QueryStaged => ActionView::QueryStaged,
            Action::StageAll => ActionView::StageAll,
            Action::ExtractDiff => ActionView::ExtractDiff,
            Action::Generate { api_key, diff } => ActionView::Generate {
                api_key: api_key@,
                diff: diff@,
            },
            Action::Commit { output, message } => ActionView::Commit {
                output: output@,
                message: message@,
            },
            Action::Finish { output } => ActionView::Finish { output: output@ },
            Action::Fail(e) => ActionView::Fail(e@),
        }
    }
}

/// The line drawn above and below the generated message.
pub open spec fn spec_separator() -> Seq<char> {
    "------------------------"@
}

/// The generated message as it is shown: a heading, then the message between
/// two separator lines.
pub open spec fn spec_announcement(message: Seq<char>) -> Seq<char> {
    "Generated commit message:\n"@ + spec_separator() + "\n"@ + message + "\n"@
        + spec_separator() + "\n"@
}

/// The line that closes a dry run.
pub open spec fn spec_dry_run_notice() -> Seq<char> {
    "Dry run mode - commit message generated but not committed.\n"@
}

/// The line that confirms the commit.
pub open spec fn spec_success_notice() -> Seq<char> {
    "\u{2705} Successfully committed changes with AI-generated message!\n"@
}

/// Whether the machine waits for a repository operation in `phase`.
pub open spec fn spec_awaits_repository(phase: Phase) -> bool {
    phase == Phase::OpeningRepository || phase == Phase::CheckingStaged || phase == Phase::Staging
        || phase == Phase::RecheckingStaged || phase == Phase::ExtractingDiff || phase
        == Phase::Committing
}

/// How far a run has come: a number that grows with every step.
pub open spec fn spec_rank(phase: Phase) -> nat {
    match phase {
        Phase::LoadingCredential => 0,
        Phase::OpeningRepository => 1,
        Phase::CheckingStaged => 2,
        Phase::Staging => 3,
        Phase::RecheckingStaged => 4,
        Phase::ExtractingDiff => 5,
        Phase::Generating => 6,
        Phase::Committing => 7,
        Phase::Done => 8,
        Phase::Failed => 8,
    }
}

/// The state in which a run with `options` starts.
pub open spec fn spec_initial(options: Options) -> MachineState {
    MachineState { options, phase: Phase::LoadingCredential, api_key: Seq::empty() }
}

/// The state `state` with `phase` as its phase.
pub open spec fn spec_moved(state: MachineState, phase: Phase) -> MachineState {
    MachineState { options: state.options, phase, api_key: state.api_key }
}

/// The failed state and the action that reports `error`.
pub open spec fn spec_failure(state: MachineState, error: RunErrorView) -> (
    MachineState,
    ActionView,
) {
    (spec_moved(state, Phase::Failed), ActionView::Fail(error))
}

/// The transition function: the state and the action that follow when
/// `event` arrives in `state`, or `None` when `event` does not answer what
/// the machine waits for.
pub open spec fn spec_step(state: MachineState, event: EventView) -> Option<
    (MachineState, ActionView),
> {
    match (state.phase, event) {
        (Phase::LoadingCredential, EventView::Credential(None)) => Some(
            spec_failure(state, RunErrorView::Configuration(ConfigError::Missing)),
        ),
        (Phase::LoadingCredential, EventView::Credential(Some(key))) => if spec_is_blank(key) {
            Some(spec_failure(state, RunErrorView::Configuration(ConfigError::Empty)))
        } else {
            Some(
                (
                    MachineState {
                        options: state.options,
                        phase: Phase::OpeningRepository,
                        api_key: key,
                    },
                    ActionView::OpenRepository,
                ),
            )
        },
        (Phase::OpeningRepository, EventView::RepositoryOpened) => Some(
            (spec_moved(state, Phase::CheckingStaged), ActionView::QueryStaged),
        ),
        (Phase::CheckingStaged, EventView::Staged(any)) => if any {
            Some((spec_moved(state, Phase::ExtractingDiff), ActionView::ExtractDiff))
        } else if state.options.no_auto_stage {
            Some(spec_failure(state, RunErrorView::Policy(PolicyError::NothingStaged)))
        } else {
            Some((spec_moved(state, Phase::Staging), ActionView::StageAll))
        },
        (Phase::Staging, EventView::StagedAll) => Some(
            (spec_moved(state, Phase::RecheckingStaged), ActionView::QueryStaged),
        ),
        (Phase::RecheckingStaged, EventView::Staged(any)) => if any {
            Some((spec_moved(state, Phase::ExtractingDiff), ActionView::ExtractDiff))
        } else {
            Some(spec_failure(state, RunErrorView::Policy(PolicyError::NothingToCommit)))
        },
        (Phase::ExtractingDiff, EventView::Diff(diff)) => if spec_is_blank(diff) {
            Some(spec_failure(state, RunErrorView::EmptyDiff))
        } else {
            Some(
                (
                    spec_moved(state, Phase::Generating),
                    ActionView::Generate { api_key: state.api_key, diff },
                ),
            )
        },
        (Phase::Generating, EventView::Message(message)) => if state.options.dry_run {
            Some(
                (
                    spec_moved(state, Phase::Done),
                    ActionView::Finish {
                        output: spec_announcement(message) + spec_dry_run_notice(),
                    },
                ),
            )
        } else {
            Some(
                (
                    spec_moved(state, Phase::Committing),
                    ActionView::Commit { output: spec_announcement(message), message },
                ),
            )
        },
        (Phase::Generating, EventView::GenerationFailed(detail)) => Some(
            spec_failure(state, RunErrorView::Generation(detail)),
        ),
        (Phase::Committing, EventView::Committed) => Some(
            (
                spec_moved(state, Phase::Done),
                ActionView::Finish { output: spec_success_notice() },
            ),
        ),
        (phase, EventView::GitFailed(error)) => if spec_awaits_repository(phase) {
            Some(spec_failure(state, RunErrorView::Git(error)))
        } else {
            None
        },
        _ => None,
    }
}

/// What holds of every state a run passes through: once the credential has
/// been accepted, it is not blank.
pub open spec fn spec_well_formed(state: MachineState) -> bool {
    state.phase != Phase::LoadingCredential && state.phase != Phase::Failed ==> !spec_is_blank(
        state.api_key,
    )
}

impl PolicyError {
    /// The text that tells the user what to do.
    pub open spec fn spec_message(self) -> Seq<char> {
        match self {
            PolicyError::NothingStaged => "No staged changes found and --no-auto-stage flag is set. Please stage some changes first."@,
            PolicyError::NothingToCommit => "No changes to commit after staging all files."@,
        }
    }

    /// The text that tells the user what to do.
    pub fn message(&self) -> (s: String)
        ensures
            s@ == self.spec_message(),
    {
        match self {
            PolicyError::NothingStaged => "No staged changes found and --no-auto-stage flag is set. Please stage some changes first.".to_owned(),
            PolicyError::NothingToCommit => "No changes to commit after staging all files.".to_owned(),
        }
    }
}

impl RunError {
    /// The kind of failure this error amounts to.
    pub open spec fn spec_kind(self) -> ErrorKind {
        match self {
            RunError::Configuration(_) => ErrorKind::Configuration,
            RunError::Git(e) => e.step.spec_kind(),
            RunError::Policy(_) => ErrorKind::Policy,
            RunError::EmptyDiff => ErrorKind::EmptyDiff,
            RunError::Generation(_) => ErrorKind::Generation,
        }
    }

    /// The text that tells the user what failed.
    pub open spec fn spec_message(self) -> Seq<char> {
        match self {
            RunError::Configuration(e) => e.spec_message(),
            RunError::Git(e) => e.step.spec_context(),
            RunError::Policy(e) => e.spec_message(),
            RunError::EmptyDiff => "No staged changes found to generate commit message for."@,
            RunError::Generation(_) => "Failed to generate commit message from OpenRouter API"@,
        }
    }

    /// The kind of failure this error amounts to.
    pub fn kind(&self) -> (k: ErrorKind)
        ensures
            k == self.spec_kind(),
    {
        match self {
            RunError::Configuration(_) => ErrorKind::Configuration,
            RunError::Git(e) => e.kind(),
            RunError::Policy(_) => ErrorKind::Policy,
            RunError::EmptyDiff => ErrorKind::EmptyDiff,
            RunError::Generation(_) => ErrorKind::Generation,
        }
    }

    /// The text that tells the user what failed.
    pub fn message(&self) -> (s: String)
        ensures
            s@ == self.spec_message(),
    {
        match self {
            RunError::Configuration(e) => e.message(),
            RunError::Git(e) => e.message(),
            RunError::Policy(e) => e.message(),
            RunError::EmptyDiff => "No staged changes found to generate commit message for.".to_owned(),
            RunError::Generation(_) => "Failed to generate commit message from OpenRouter API".to_owned(),
        }
    }
}

/// The generated message as it is shown: a heading, then the message between
/// two separator lines.
pub fn announcement(message: &str) -> (s: String)
    ensures
        s@ == spec_announcement(message@),
{
    let mut s = "Generated commit message:\n".to_owned();
    s.append("------------------------");
    s.append("\n");
    s.append(message);
    s.append("\n");
    s.append("------------------------");
    s.append("\n");
    s
}

/// A run in progress.
pub struct Workflow {
    options: Options,
    phase: Phase,
    api_key: String,
}

impl View for Workflow {
    type V = MachineState;

    closed spec fn view(&self) -> MachineState {
        MachineState { options: self.options, phase: self.phase, api_key: self.api_key@ }
    }
}

impl Workflow {
    /// Starts a run with `options`: the machine and the first action.
    pub fn new(options: Options) -> (r: (Workflow, Action))
        ensures
            r.0@ == spec_initial(options),
            r.1@ == ActionView::ReadCredential,
            spec_well_formed(r.0@),
    {
        (
            Workflow { options, phase: Phase::LoadingCredential, api_key: String::new() },
            Action::ReadCredential,
        )
    }

    /// The switches of the run.
    pub fn options(&self) -> (options: Options)
        ensures
            options == self@.options,
    {
        self.options
    }

    /// What the machine waits for.
    pub fn phase(&self) -> (phase: Phase)
        ensures
            phase == self@.phase,
    {
        self.phase
    }

    /// Whether the run has ended.
    pub fn is_over(&self) -> (over: bool)
        ensures
            over == (self@.phase == Phase::Done || self@.phase == Phase::Failed),
    {
        self.phase == Phase::Done || self.phase == Phase::Failed
    }

    /// Ends the run with `error`.
    fn fail(&mut self, error: RunError) -> (action: Action)
        ensures
            (final(self)@, action@) == spec_failure(old(self)@, error@),
    {
        self.phase = Phase::Failed;
        Action::Fail(error)
    }

    /// Takes `event` as the outcome of the last action and says what to do
    /// next. An event that does not answer the last action is handed back
    /// and changes nothing.
    pub fn step(&mut self, event: Event) -> (r: Result<Action, Event>)
        ensures
            match spec_step(old(self)@, event@) {
                Some((state, action)) => r matches Ok(a) && a@ == action && final(self)@ == state,
                None => r == Err::<Action, Event>(event) && final(self)@ == old(self)@,
            },
            spec_well_formed(old(self)@) ==> spec_well_formed(final(self)@),
    {
        proof {
            if spec_well_formed(self@) {
                lemma_step_keeps_well_formed(self@, event@);
            }
        }
        let phase = self.phase;
        match event {
            Event::Credential(value) => {
                if phase != Phase::LoadingCredential {
                    return Err(Event::Credential(value));
                }
                match Config::load(value) {
                    Ok(config) => {
                        self.api_key = config.openrouter_api_key;
                        self.phase = Phase::OpeningRepository;
                        Ok(Action::OpenRepository)
                    },
                    Err(e) => Ok(self.fail(RunError::Configuration(e))),
                }
            },
            Event::RepositoryOpened => {
                if phase != Phase::OpeningRepository {
                    return Err(Event::RepositoryOpened);
                }
                self.phase = Phase::CheckingStaged;
                Ok(Action::QueryStaged)
            },
            Event::Staged(any) => {
                if phase == Phase::CheckingStaged {
                    if any {
                        self.phase = Phase::ExtractingDiff;
                        Ok(Action::ExtractDiff)
                    } else if self.options.no_auto_stage {
                        Ok(self.fail(RunError::Policy(PolicyError::NothingStaged)))
                    } else {
                        self.phase = Phase::Staging;
                        Ok(Action::StageAll)
                    }
                } else if phase == Phase::RecheckingStaged {
                    if any {
                        self.phase = Phase::ExtractingDiff;
                        Ok(Action::ExtractDiff)
                    } else {
                        Ok(self.fail(RunError::Policy(PolicyError::NothingToCommit)))
                    }
                } else {
                    Err(Event::Staged(any))
                }
            },
            Event::StagedAll => {
                if phase != Phase::Staging {
                    return Err(Event::StagedAll);
                }
                self.phase = Phase::RecheckingStaged;
                Ok(Action::QueryStaged)
            },
            Event::Diff(diff) => {
                if phase != Phase::ExtractingDiff {
                    return Err(Event::Diff(diff));
                }
                if is_blank(diff.as_str()) {
                    Ok(self.fail(RunError::EmptyDiff))
                } else {
                    self.phase = Phase::Generating;
                    Ok(Action::Generate { api_key: self.api_key.clone(), diff })
                }
            },
            Event::Message(message) => {
                if phase != Phase::Generating {
                    return Err(Event::Message(message));
                }
                let mut output = announcement(message.as_str());
                if self.options.dry_run {
                    output.append("Dry run mode - commit message generated but not committed.\n");
                    self.phase = Phase::Done;
                    Ok(Action::Finish { output })
                } else {
                    self.phase = Phase::Committing;
                    Ok(Action::Commit { output, message })
                }
            },
            Event::Committed => {
                if phase != Phase::Committing {
                    return Err(Event::Committed);
                }
                self.phase = Phase::Done;
                Ok(
                    Action::Finish {
                        output: "\u{2705} Successfully committed changes with AI-generated message!\n".to_owned(),
                    },
                )
            },
            Event::GitFailed(error) => {
                if phase == Phase::OpeningRepository || phase == Phase::CheckingStaged || phase
                    == Phase::Staging || phase == Phase::RecheckingStaged || phase
                    == Phase::ExtractingDiff || phase == Phase::Committing {
                    Ok(self.fail(RunError::Git(error)))
                } else {
                    Err(Event::GitFailed(error))
                }
            },
            Event::GenerationFailed(detail) => {
                if phase != Phase::Generating {
                    return Err(Event::GenerationFailed(detail));
                }
                Ok(self.fail(RunError::Generation(detail)))
            },
        }
    }
}

/// Every step keeps the state well formed.
pub proof fn lemma_step_keeps_well_formed(state: MachineState, event: EventView)
    requires
        spec_well_formed(state),
    ensures
        spec_step(state, event) matches Some((next, _)) ==> spec_well_formed(next),
{
}

/// Every step moves the run forward and leaves its switches alone, so a run
/// takes each action at most once on its way and ends after finitely many
/// steps.
pub proof fn lemma_step_advances(state: MachineState, event: EventView)
    ensures
        spec_step(state, event) matches Some((next, _)) ==> spec_rank(next.phase) > spec_rank(
            state.phase,
        ) && next.options == state.options,
{
}

/// A run that has ended takes no further event.
pub proof fn lemma_ended_run_takes_nothing(state: MachineState, event: EventView)
    requires
        state.phase == Phase::Done || state.phase == Phase::Failed,
    ensures
        spec_step(state, event) is None,
{
}

/// A dry run never commits: whatever the state and the event, the action is
/// not a commit.
pub proof fn lemma_dry_run_never_commits(state: MachineState, event: EventView)
    requires
        state.options.dry_run,
    ensures
        spec_step(state, event) matches Some((_, action)) ==> !(action is Commit),
{
}

/// With automatic staging switched off nothing is ever staged: whatever the
/// state and the event, the action is not to stage.
pub proof fn lemma_no_auto_stage_never_stages(state: MachineState, event: EventView)
    requires
        state.options.no_auto_stage,
    ensures
        spec_step(state, event) matches Some((_, action)) ==> !(action is StageAll),
{
}

/// A commit is asked for only in answer to a generated message, outside a
/// dry run, and with that very message: nothing is trimmed from it or added
/// to it.
pub proof fn lemma_commit_takes_message_verbatim(state: MachineState, event: EventView)
    ensures
        spec_step(state, event) matches Some((next, ActionView::Commit { output, message }))
            ==> event == EventView::Message(message) && state.phase == Phase::Generating
            && !state.options.dry_run && next.phase == Phase::Committing && output
            == spec_announcement(message),
{
}

/// The service is asked for a message only for a diff that is not blank,
/// and, in a well-formed state, with a credential that is not blank.
pub proof fn lemma_generation_has_diff_and_credential(state: MachineState, event: EventView)
    requires
        spec_well_formed(state),
    ensures
        spec_step(state, event) matches Some((_, ActionView::Generate { api_key, diff }))
            ==> event == EventView::Diff(diff) && !spec_is_blank(diff) && api_key == state.api_key
            && !spec_is_blank(api_key),
{
}

/// No repository is touched before the credential has been accepted: in
/// answer to the credential the machine either fails or opens the
/// repository, and it opens it only for a credential that is not blank.
pub proof fn lemma_credential_comes_first(options: Options, event: EventView)
    ensures
        match spec_step(spec_initial(options), event) {
            Some((next, ActionView::OpenRepository)) => event matches EventView::Credential(
                Some(key),
            ) && !spec_is_blank(key) && next.api_key == key,
            Some((next, ActionView::Fail(error))) => next.phase == Phase::Failed && (error
                == RunErrorView::Configuration(ConfigError::Missing) || error
                == RunErrorView::Configuration(ConfigError::Empty)),
            Some(_) => false,
            None => !(event is Credential),
        },
{
}

} // verus!
