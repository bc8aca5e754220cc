//! The decisions of an installation, one step at a time.
//!
//! An [`Install`] says which [`Action`] is due, and moves on when it is told
//! the [`Outcome`] of that action. It touches nothing itself.

use vstd::prelude::*;
use crate::artifacts::{
    DISPATCHER_NAME, DISPATCHER_SCRIPT, HOOKS_PATH_KEY, IGNORE_FILE_NAME, IGNORE_RULE,
    PLACEHOLDER_NAME, PLACEHOLDER_TEXT,
};
use crate::config::{Sloughi, SloughiView, SCRIPT_DIR_NAME};
use crate::paths::{join, joined};
use crate::text::{repo_root, root_of};

verus! {

/// Why an installation failed.
#[derive(Clone, Copy, Debug, PartialEq, Eq)]
pub enum InstallError {
    /// The tool is missing, or the working directory is in no repository.
    RepositoryNotFound,
    /// The tool could not be started to set the hooks path, or refused to.
    ConfigurationFailed,
    /// A directory could not be created or a file not written.
    FilesystemFailure,
}

/// A notice for the user that goes with some failures.
#[derive(Clone, Copy, Debug, PartialEq, Eq)]
pub enum Diagnostic {
    /// The tool could not be started to look for the repository.
    NoRepository,
    /// The tool could not be started to set the hooks path.
    HookPathSetup,
    /// The ignore file could not be written.
    IgnoreRuleWrite,
    /// The placeholder hook could not be written.
    PlaceholderWrite,
}

impl Diagnostic {
    /// The text of the notice.
    pub open spec fn text(self) -> Seq<char> {
        match self {
            Diagnostic::NoRepository => "cargo:warning=Could not find a git repository.\n"@,
            Diagnostic::HookPathSetup =>
                "cargo:warning=Could not setup a custom git hook path!\n"@,
            Diagnostic::IgnoreRuleWrite =>
                "cargo:warning=Could not write to .gitignore file!\n"@,
            Diagnostic::PlaceholderWrite =>
                "cargo:warning=Could not write to pre-commit file!\n"@,
        }
    }

    /// The text of the notice, to be printed as a line.
    pub fn message(&self) -> (r: String)
        ensures
            r@ == self.text(),
    {
        match self {
            Diagnostic::NoRepository =>
                "cargo:warning=Could not find a git repository.\n".to_owned(),
            Diagnostic::HookPathSetup =>
                "cargo:warning=Could not setup a custom git hook path!\n".to_owned(),
            Diagnostic::IgnoreRuleWrite =>
                "cargo:warning=Could not write to .gitignore file!\n".to_owned(),
            Diagnostic::PlaceholderWrite =>
                "cargo:warning=Could not write to pre-commit file!\n".to_owned(),
        }
    }
}

/// How far an installation has come.
#[derive(Clone, Copy, Debug, PartialEq, Eq)]
pub enum Phase {
    /// The repository root is to be asked for.
    ResolveRoot,
    /// The hooks path is to be set.
    ConfigureHooks,
    /// The script directory is to be created.
    CreateScriptDir,
    /// The ignore file is to be written.
    WriteIgnoreRule,
    /// The placeholder hook is to be written.
    WritePlaceholder,
    /// The dispatcher script is to be written.
    WriteDispatcher,
    /// Every step succeeded.
    Done,
    /// A step failed, and the steps after it were left out.
    Failed(InstallError, Option<Diagnostic>),
}

impl Phase {
    /// Whether nothing is left to do, for better or worse.
    pub open spec fn is_final(self) -> bool {
        self is Done || self is Failed
    }
}

/// What the caller is to do next.
#[derive(Clone, Debug, PartialEq, Eq)]
pub enum Action {
    /// Ask the tool for the top-level directory of the repository, and
    /// capture what it prints.
    QueryRoot,
    /// Have the tool set the configuration key `key` to `value`.
    SetConfig { key: String, value: String },
    /// Create the directory `path` and those above it that are missing.
    CreateDirAll { path: String },
    /// Write `content` to the file `path`, over what it held.
    WriteFile { path: String, content: String },
    /// Report that the repository is set up.
    Succeed,
    /// Print the notice, if there is one, and report the failure.
    Fail { error: InstallError, diagnostic: Option<Diagnostic> },
}

/// An [`Action`] as mathematical values.
pub ghost enum ActionView {
    QueryRoot,
    SetConfig { key: Seq<char>, value: Seq<char> },
    CreateDirAll { path: Seq<char> },
    WriteFile { path: Seq<char>, content: Seq<char> },
    Succeed,
    Fail { error: InstallError, diagnostic: Option<Diagnostic> },
}

impl View for Action {
    type V = ActionView;

    open spec fn view(&self) -> ActionView {
        match self {
            Action::QueryRoot => ActionView::QueryRoot,
            Action::SetConfig { key, value } => ActionView::SetConfig { key: key@, value: value@ },
            Action::CreateDirAll { path } => ActionView::CreateDirAll { path: path@ },
            Action::WriteFile { path, content } => ActionView::WriteFile {
                path: path@,
                content: content@,
            },
            Action::Succeed => ActionView::Succeed,
            Action::Fail { error, diagnostic } => ActionView::Fail {
                error: *error,
                diagnostic: *diagnostic,
            },
        }
    }
}

/// What came of the action that was due.
#[derive(Clone, Debug, PartialEq, Eq)]
pub enum Outcome {
    /// The tool could not be started.
    NotStarted,
    /// The tool ran and left, with success or without, having printed
    /// `stdout`.
    Exited { success: bool, stdout: Vec<u8> },
    /// The directory stands, or the file is written.
    Completed,
    /// The directory could not be created, or the file not written.
    Refused,
}

/// An [`Outcome`] as mathematical values.
pub ghost enum OutcomeView {
    NotStarted,
    Exited { success: bool, stdout: Seq<u8> },
    Completed,
    Refused,
}

impl View for Outcome {
    type V = OutcomeView;

    open spec fn view(&self) -> OutcomeView {
        match self {
            Outcome::NotStarted => OutcomeView::NotStarted,
            Outcome::Exited { success, stdout } => OutcomeView::Exited {
                success: *success,
                stdout: stdout@,
            },
            Outcome::Completed => OutcomeView::Completed,
            Outcome::Refused => OutcomeView::Refused,
        }
    }
}

impl OutcomeView {
    /// Whether the tool ran and left with success.
    pub open spec fn tool_succeeded(self) -> bool {
        self matches OutcomeView::Exited { success, .. } && success
    }

    /// Whether this outcome lets an installation in `phase` go on. The tool's
    /// steps go on when the tool left with success, the others when the
    /// filesystem did as asked; an outcome of the wrong kind is a failure.
    pub open spec fn succeeds_in(self, phase: Phase) -> bool {
        match phase {
            Phase::ResolveRoot | Phase::ConfigureHooks => self.tool_succeeded(),
            Phase::CreateScriptDir
            | Phase::WriteIgnoreRule
            | Phase::WritePlaceholder
            | Phase::WriteDispatcher => self is Completed,
            Phase::Done | Phase::Failed(..) => false,
        }
    }
}

/// An installation as mathematical values.
pub ghost struct InstallView {
    /// How far it has come.
    pub phase: Phase,
    /// The hooks directory, relative to the root, that it was started with.
    pub relative_path: Seq<char>,
    /// The repository root. Empty until the tool has named it.
    pub root: Seq<char>,
}

impl InstallView {
    /// The installation that a configuration starts.
    pub open spec fn start(config: SloughiView) -> InstallView {
        InstallView {
            phase: Phase::ResolveRoot,
            relative_path: config.relative_path,
            root: Seq::empty(),
        }
    }

    /// The hooks directory.
    pub open spec fn hooks_dir(self) -> Seq<char> {
        joined(self.root, self.relative_path)
    }

    /// The script directory, inside the hooks directory.
    pub open spec fn script_dir(self) -> Seq<char> {
        joined(self.hooks_dir(), SCRIPT_DIR_NAME@)
    }

    /// The action that is due.
    pub open spec fn pending(self) -> ActionView {
        match self.phase {
            Phase::ResolveRoot => ActionView::QueryRoot,
            Phase::ConfigureHooks => ActionView::SetConfig {
                key: HOOKS_PATH_KEY@,
                value: self.relative_path,
            },
            Phase::CreateScriptDir => ActionView::CreateDirAll { path: self.script_dir() },
            Phase::WriteIgnoreRule => ActionView::WriteFile {
                path: joined(self.script_dir(), IGNORE_FILE_NAME@),
                content: IGNORE_RULE@,
            },
            Phase::WritePlaceholder => ActionView::WriteFile {
                path: joined(self.hooks_dir(), PLACEHOLDER_NAME@),
                content: PLACEHOLDER_TEXT@,
            },
            Phase::WriteDispatcher => ActionView::WriteFile {
                path: joined(self.script_dir(), DISPATCHER_NAME@),
                content: DISPATCHER_SCRIPT@,
            },
            Phase::Done => ActionView::Succeed,
            Phase::Failed(error, diagnostic) => ActionView::Fail { error, diagnostic },
        }
    }

    /// The phase that follows `phase` when its action succeeded.
    pub open spec fn phase_after(phase: Phase) -> Phase {
        match phase {
            Phase::ResolveRoot => Phase::ConfigureHooks,
            Phase::ConfigureHooks => Phase::CreateScriptDir,
            Phase::CreateScriptDir => Phase::WriteIgnoreRule,
            Phase::WriteIgnoreRule => Phase::WritePlaceholder,
            Phase::WritePlaceholder => Phase::WriteDispatcher,
            Phase::WriteDispatcher => Phase::Done,
            Phase::Done => Phase::Done,
            Phase::Failed(error, diagnostic) => Phase::Failed(error, diagnostic),
        }
    }

    /// The failure that `outcome` means in `phase`, where it is one.
    pub open spec fn failure_in(phase: Phase, outcome: OutcomeView) -> Phase {
        match phase {
            Phase::ResolveRoot => Phase::Failed(
                InstallError::RepositoryNotFound,
                if outcome is NotStarted {
                    Some(Diagnostic::NoRepository)
                } else {
                    None
                },
            ),
            Phase::ConfigureHooks => Phase::Failed(
                InstallError::ConfigurationFailed,
                if outcome is NotStarted {
                    Some(Diagnostic::HookPathSetup)
                } else {
                    None
                },
            ),
            Phase::CreateScriptDir => Phase::Failed(InstallError::FilesystemFailure, None),
            Phase::WriteIgnoreRule => Phase::Failed(
                InstallError::FilesystemFailure,
                Some(Diagnostic::IgnoreRuleWrite),
            ),
            Phase::WritePlaceholder => Phase::Failed(
                InstallError::FilesystemFailure,
                Some(Diagnostic::PlaceholderWrite),
            ),
            Phase::WriteDispatcher => Phase::Failed(InstallError::FilesystemFailure, None),
            Phase::Done => Phase::Done,
            Phase::Failed(error, diagnostic) => Phase::Failed(error, diagnostic),
        }
    }

    /// The installation after the action that was due had `outcome`. A
    /// success leads to the next step, and the root query's also gives the
    /// root; a failure ends the installation with the error of its step. An
    /// installation that has ended stays as it is.
    pub open spec fn next(self, outcome: OutcomeView) -> InstallView {
        if self.phase.is_final() {
            self
        } else if outcome.succeeds_in(self.phase) {
            InstallView {
                phase: Self::phase_after(self.phase),
                relative_path: self.relative_path,
                root: match (self.phase, outcome) {
                    (Phase::ResolveRoot, OutcomeView::Exited { stdout, .. }) => root_of(stdout),
                    _ => self.root,
                },
            }
        } else {
            InstallView { phase: Self::failure_in(self.phase, outcome), ..self }
        }
    }
}

/// An installation under way.
pub struct Install {
    phase: Phase,
    relative_path: String,
    root: String,
}

impl View for Install {
    type V = InstallView;

    closed spec fn view(&self) -> InstallView {
        InstallView { phase: self.phase, relative_path: self.relative_path@, root: self.root@ }
    }
}

impl Sloughi {
    /// Starts an installation with this configuration. Its first action is
    /// the query for the repository root.
    pub fn install(&self) -> (r: Install)
        ensures
            r@ == InstallView::start(self@),
    {
        Install {
            phase: Phase::ResolveRoot,
            relative_path: self.relative_path().to_owned(),
            root: String::new(),
        }
    }
}

impl Install {
    /// How far the installation has come.
    pub fn phase(&self) -> (r: Phase)
        ensures
            r == self@.phase,
    {
        self.phase
    }

    /// The repository root, empty until the tool has named it.
    pub fn root(&self) -> (r: &str)
        ensures
            r@ == self@.root,
    {
        self.root.as_str()
    }

    /// The action that is due: the step's own while the installation runs,
    /// and its result once it has ended.
    pub fn action(&self) -> (r: Action)
        ensures
            r@ == self@.pending(),
    {
        match self.phase {
            Phase::ResolveRoot => Action::QueryRoot,
            Phase::ConfigureHooks => Action::SetConfig {
                key: HOOKS_PATH_KEY.to_owned(),
                value: self.relative_path.clone(),
            },
            Phase::CreateScriptDir => Action::CreateDirAll { path: self.script_dir() },
            Phase::WriteIgnoreRule => {
                let dir = self.script_dir();
                Action::WriteFile {
                    path: join(dir.as_str(), IGNORE_FILE_NAME),
                    content: IGNORE_RULE.to_owned(),
                }
            },
            Phase::WritePlaceholder => {
                let dir = self.hooks_dir();
                Action::WriteFile {
                    path: join(dir.as_str(), PLACEHOLDER_NAME),
                    content: PLACEHOLDER_TEXT.to_owned(),
                }
            },
            Phase::WriteDispatcher => {
                let dir = self.script_dir();
                Action::WriteFile {
                    path: join(dir.as_str(), DISPATCHER_NAME),
                    content: DISPATCHER_SCRIPT.to_owned(),
                }
            },
            Phase::Done => Action::Succeed,
            Phase::Failed(error, diagnostic) => Action::Fail { error, diagnostic },
        }
    }

    /// Takes the outcome of the action that was due and moves on.
    pub fn advance(self, outcome: Outcome) -> (r: Install)
        ensures
            r@ == self@.next(outcome@),
    {
        let Install { phase, relative_path, root } = self;
        match phase {
            Phase::Done | Phase::Failed(..) => Install { phase, relative_path, root },
            Phase::ResolveRoot => match outcome {
                Outcome::Exited { success: true, stdout } => Install {
                    phase: Phase::ConfigureHooks,
                    relative_path,
                    root: repo_root(stdout.as_slice()),
                },
                Outcome::NotStarted => Install {
                    phase: Phase::Failed(
                        InstallError::RepositoryNotFound,
                        Some(Diagnostic::NoRepository),
                    ),
                    relative_path,
                    root,
                },
                _ => Install {
                    phase: Phase::Failed(InstallError::RepositoryNotFound, None),
                    relative_path,
                    root,
                },
            },
            Phase::ConfigureHooks => match outcome {
                Outcome::Exited { success: true, .. } => Install {
                    phase: Phase::CreateScriptDir,
                    relative_path,
                    root,
                },
                Outcome::NotStarted => Install {
                    phase: Phase::Failed(
                        InstallError::ConfigurationFailed,
                        Some(Diagnostic::HookPathSetup),
                    ),
                    relative_path,
                    root,
                },
                _ => Install {
                    phase: Phase::Failed(InstallError::ConfigurationFailed, None),
                    relative_path,
                    root,
                },
            },
            Phase::CreateScriptDir => match outcome {
                Outcome::Completed => Install {
                    phase: Phase::WriteIgnoreRule,
                    relative_path,
                    root,
                },
                _ => Install {
                    phase: Phase::Failed(InstallError::FilesystemFailure, None),
                    relative_path,
                    root,
                },
            },
            Phase::WriteIgnoreRule => match outcome {
                Outcome::Completed => Install {
                    phase: Phase::WritePlaceholder,
                    relative_path,
                    root,
                },
                _ => Install {
                    phase: Phase::Failed(
                        InstallError::FilesystemFailure,
                        Some(Diagnostic::IgnoreRuleWrite),
                    ),
                    relative_path,
                    root,
                },
            },
            Phase::WritePlaceholder => match outcome {
                Outcome::Completed => Install {
                    phase: Phase::WriteDispatcher,
                    relative_path,
                    root,
                },
                _ => Install {
                    phase: Phase::Failed(
                        InstallError::FilesystemFailure,
                        Some(Diagnostic::PlaceholderWrite),
                    ),
                    relative_path,
                    root,
                },
            },
            Phase::WriteDispatcher => match outcome {
                Outcome::Completed => Install { phase: Phase::Done, relative_path, root },
                _ => Install {
                    phase: Phase::Failed(InstallError::FilesystemFailure, None),
                    relative_path,
                    root,
                },
            },
        }
    }

    fn hooks_dir(&self) -> (r: String)
        ensures
            r@ == self@.hooks_dir(),
    {
        join(self.root.as_str(), self.relative_path.as_str())
    }

    fn script_dir(&self) -> (r: String)
        ensures
            r@ == self@.script_dir(),
    {
        let hooks = self.hooks_dir();
        join(hooks.as_str(), SCRIPT_DIR_NAME)
    }
}

} // verus!
