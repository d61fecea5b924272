//! What the server's start asks of the editor and the system, and what they answer.
use vstd::prelude::*;

use crate::command::{
    result_view, CommandLine, CommandView, EnvVars, EnvView, ProcessResult, ResultView,
};

verus! {

/// Something in the directory that the dotnet installations lie in.
#[derive(Debug)]
pub struct DotnetInstall {
    pub path: String,
    pub is_dir: bool,
    /// Whether there is a file `dotnet` in it.
    pub has_dotnet: bool,
}

/// The text of something in the directory that the dotnet installations lie in.
#[verifier::ext_equal]
pub struct InstallView {
    pub path: Seq<char>,
    pub is_dir: bool,
    pub has_dotnet: bool,
}

impl DeepView for DotnetInstall {
    type V = InstallView;

    open spec fn deep_view(&self) -> InstallView {
        InstallView { path: self.path@, is_dir: self.is_dir, has_dotnet: self.has_dotnet }
    }
}

/// What the installation status shows to the user.
#[derive(Debug, Clone, Copy, PartialEq, Eq, Structural)]
pub enum InstallationStatus {
    Idle,
    Downloading,
    CheckingForUpdate,
}

/// What is done on the way, with no answer to wait for.
#[derive(Debug)]
pub enum Effect {
    SetStatus(InstallationStatus),
    Print(String),
}

/// The text of what is done on the way.
#[verifier::ext_equal]
pub enum EffectView {
    SetStatus(InstallationStatus),
    Print(Seq<char>),
}

impl DeepView for Effect {
    type V = EffectView;

    open spec fn deep_view(&self) -> EffectView {
        match self {
            Effect::SetStatus(status) => EffectView::SetStatus(*status),
            Effect::Print(text) => EffectView::Print(text@),
        }
    }
}

/// What is asked for next.
#[derive(Debug)]
pub enum Action {
    /// The environment of the shell that the worktree is opened in.
    ReadShellEnvironment,
    /// A process, run to its end.
    Run(CommandLine),
    /// The path with all links followed.
    Canonicalize(String),
    /// What lies in a directory.
    ListInstalls(String),
    /// The place of a program on the worktree's search path.
    Locate(String),
}

/// The text of what is asked for next.
#[verifier::ext_equal]
pub enum ActionView {
    ReadShellEnvironment,
    Run(CommandView),
    Canonicalize(Seq<char>),
    ListInstalls(Seq<char>),
    Locate(Seq<char>),
}

impl View for Action {
    type V = ActionView;

    open spec fn view(&self) -> ActionView {
        match self {
            Action::ReadShellEnvironment => ActionView::ReadShellEnvironment,
            Action::Run(line) => ActionView::Run(line@),
            Action::Canonicalize(path) => ActionView::Canonicalize(path@),
            Action::ListInstalls(path) => ActionView::ListInstalls(path@),
            Action::Locate(name) => ActionView::Locate(name@),
        }
    }
}

/// The answer to what was asked for.
#[derive(Debug)]
pub enum Event {
    ShellEnvironment(EnvVars),
    Process(ProcessResult),
    /// No path where the links could not be followed.
    Canonical(Option<String>),
    /// No list where the directory could not be opened; no entry where one could not be read.
    Installs(Option<Vec<Option<DotnetInstall>>>),
    Located(Option<String>),
}

/// The text of the answer.
#[verifier::ext_equal]
pub enum EventView {
    ShellEnvironment(EnvView),
    Process(ResultView),
    Canonical(Option<Seq<char>>),
    Installs(Option<Seq<Option<InstallView>>>),
    Located(Option<Seq<char>>),
}

impl View for Event {
    type V = EventView;

    open spec fn view(&self) -> EventView {
        match self {
            Event::ShellEnvironment(env) => EventView::ShellEnvironment(env.deep_view()),
            Event::Process(result) => EventView::Process(result_view(*result)),
            Event::Canonical(path) => EventView::Canonical(path.deep_view()),
            Event::Installs(installs) => EventView::Installs(installs.deep_view()),
            Event::Located(path) => EventView::Located(path.deep_view()),
        }
    }
}

/// Whether an event is an answer to the action.
pub open spec fn answers(action: ActionView, event: EventView) -> bool {
    match action {
        ActionView::ReadShellEnvironment => event is ShellEnvironment,
        ActionView::Run(_) => event is Process,
        ActionView::Canonicalize(_) => event is Canonical,
        ActionView::ListInstalls(_) => event is Installs,
        ActionView::Locate(_) => event is Located,
    }
}

} // verus!
