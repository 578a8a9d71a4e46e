//! The shell work that the lifecycle operations ask for, what comes back
//! from it, and the steps of an operation.
//!
//! An operation is a machine: it is given an event (first `Begun`, then the
//! outcome of the work it last asked for) and answers with the next step,
//! either more shell work or its result. Whoever drives it performs the work
//! with `dkdc_sh` and feeds the outcome back.

use vstd::prelude::*;

verus! {

/// A failure reported by the shell layer (`dkdc_sh::Error`), held as the
/// text that it renders for it.
#[derive(Debug, PartialEq, Eq)]
pub struct ShellError {
    pub message: String,
}

impl View for ShellError {
    type V = Seq<char>;

    open spec fn view(&self) -> Seq<char> {
        self.message@
    }
}

/// Shell work for a driver to perform.
#[derive(Debug, PartialEq, Eq)]
pub enum ShellAction {
    /// Check that a program is on `PATH` (`dkdc_sh::require`).
    RequireProgram(String),
    /// Check whether a tmux session exists (`dkdc_sh::tmux::has_session`).
    CheckSession(String),
    /// Create a tmux session and run a command in it
    /// (`dkdc_sh::tmux::new_session`).
    CreateSession(String, String),
    /// Kill a tmux session (`dkdc_sh::tmux::kill_session`).
    KillSession(String),
    /// Attach the terminal to a tmux session (`dkdc_sh::tmux::attach`).
    AttachSession(String),
    /// Capture the recent output of a session's pane
    /// (`dkdc_sh::tmux::capture_pane`).
    CapturePane(String, Option<usize>),
}

/// A `ShellAction`, its strings taken as character sequences.
pub enum ActionModel {
    RequireProgram(Seq<char>),
    CheckSession(Seq<char>),
    CreateSession(Seq<char>, Seq<char>),
    KillSession(Seq<char>),
    AttachSession(Seq<char>),
    CapturePane(Seq<char>, Option<usize>),
}

impl View for ShellAction {
    type V = ActionModel;

    open spec fn view(&self) -> ActionModel {
        match self {
            ShellAction::RequireProgram(p) => ActionModel::RequireProgram(p@),
            ShellAction::CheckSession(s) => ActionModel::CheckSession(s@),
            ShellAction::CreateSession(s, c) => ActionModel::CreateSession(s@, c@),
            ShellAction::KillSession(s) => ActionModel::KillSession(s@),
            ShellAction::AttachSession(s) => ActionModel::AttachSession(s@),
            ShellAction::CapturePane(s, lines) => ActionModel::CapturePane(s@, *lines),
        }
    }
}

/// What an operation is told: that it begins, or how the work it asked for
/// turned out.
#[derive(Debug)]
pub enum ShellEvent {
    /// The operation begins.
    Begun,
    /// Outcome of `RequireProgram`.
    ProgramChecked(Result<(), ShellError>),
    /// Outcome of `CheckSession`: whether the session exists.
    SessionChecked(bool),
    /// Outcome of `CreateSession`, `KillSession` or `AttachSession`.
    Completed(Result<(), ShellError>),
    /// Outcome of `CapturePane`: the captured text.
    Captured(Result<String, ShellError>),
}

/// The next step of an operation.
#[derive(Debug)]
pub enum Step<T, E> {
    /// Perform this work, then report its outcome.
    Perform(ShellAction),
    /// The operation is over, with this result.
    Finish(Result<T, E>),
}

/// A `Step`, its parts taken by their views.
pub enum StepModel<T, E> {
    Perform(ActionModel),
    Finish(Result<T, E>),
}

impl<T: View, E: View> View for Step<T, E> {
    type V = StepModel<T::V, E::V>;

    open spec fn view(&self) -> StepModel<T::V, E::V> {
        match self {
            Step::Perform(a) => StepModel::Perform(a@),
            Step::Finish(Ok(t)) => StepModel::Finish(Ok(t@)),
            Step::Finish(Err(e)) => StepModel::Finish(Err(e@)),
        }
    }
}

} // verus!
