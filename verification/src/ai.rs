//! Managing llama-server in the `dkdc-ai` tmux session.
//!
//! The same lifecycle as `crate::lm` under another session name; its errors
//! are either a message of its own or a shell error.

use vstd::prelude::*;
use crate::server::{
    already_running_message, already_running_text, find_preset, launch_command,
    launch_command_line, lemma_default_builtin_is_preset, lemma_launch_command_text,
    lemma_presets_are_flag_and_value, no_session_message, no_session_text, preset_args,
    unknown_model_message, unknown_model_text, SERVER_PROGRAM,
};
pub use crate::server::{BUILTIN_MODELS, DEFAULT_BUILTIN};
use crate::shell::{ActionModel, ShellAction, ShellError, ShellEvent, Step, StepModel};
use crate::text::{
    decimal, join, signed_decimal, split_whitespace, str_texts, texts, to_owned_all, words,
};
use vstd::std_specs::convert::FromSpecImpl;

verus! {

/// Default port for llama-server.
pub const DEFAULT_PORT: u16 = 8080;

/// Tmux session name for llama-server.
pub const TMUX_SESSION: &'static str = "dkdc-ai";

/// Errors returned by the lifecycle operations.
#[derive(Debug)]
pub enum Error {
    /// A refusal, with its message.
    Message(String),
    /// An error from a shell command.
    Shell(ShellError),
}

/// An `Error`, its text taken as a character sequence.
pub enum ErrorModel {
    Message(Seq<char>),
    Shell(Seq<char>),
}

impl View for Error {
    type V = ErrorModel;

    open spec fn view(&self) -> ErrorModel {
        match self {
            Error::Message(m) => ErrorModel::Message(m@),
            Error::Shell(e) => ErrorModel::Shell(e@),
        }
    }
}

/// The text of an error.
pub open spec fn error_text(e: ErrorModel) -> Seq<char> {
    match e {
        ErrorModel::Message(text) => text,
        ErrorModel::Shell(text) => text,
    }
}

impl Error {
    /// The error's message.
    pub fn message(&self) -> (m: String)
        ensures
            m@ == error_text(self@),
    {
        match self {
            Error::Message(m) => m.clone(),
            Error::Shell(e) => e.message.clone(),
        }
    }
}

impl From<ShellError> for Error {
    fn from(e: ShellError) -> (r: Self) {
        Error::Shell(e)
    }
}

impl FromSpecImpl<ShellError> for Error {
    open spec fn obeys_from_spec() -> bool {
        true
    }

    open spec fn from_spec(e: ShellError) -> Self {
        Error::Shell(e)
    }
}

/// What resolving a built-in model name gives: the words of its preset's
/// arguments, or the refusal of an unknown name.
pub open spec fn resolved(name: Seq<char>) -> Result<Seq<Seq<char>>, ErrorModel> {
    match preset_args(name) {
        Some(args) => Ok(words(args)),
        None => Err(ErrorModel::Message(unknown_model_text(name))),
    }
}

/// Resolve a built-in model name to llama-server args.
pub fn resolve_builtin(name: &str) -> (r: Result<Vec<String>, Error>)
    ensures
        match r {
            Ok(args) => resolved(name@) == Ok::<Seq<Seq<char>>, ErrorModel>(texts(args@)),
            Err(e) => resolved(name@) == Err::<Seq<Seq<char>>, ErrorModel>(e@),
        },
{
    match find_preset(name) {
        Some(args) => Ok(split_whitespace(args)),
        None => Err(Error::Message(unknown_model_message(name))),
    }
}

/// Where the model comes from: a local file (`-m`), a Hugging Face
/// repository (`-hf`), or else a built-in preset (the default one if none is
/// named). The first that is given wins.
pub open spec fn model_source(
    model: Option<Seq<char>>,
    hf: Option<Seq<char>>,
    builtin: Option<Seq<char>>,
) -> Result<Seq<Seq<char>>, ErrorModel> {
    match model {
        Some(m) => Ok(seq!["-m"@, m]),
        None => match hf {
            Some(repo) => Ok(seq!["-hf"@, repo]),
            None => match builtin {
                Some(name) => resolved(name),
                None => resolved(DEFAULT_BUILTIN@),
            },
        },
    }
}

/// The text a string option holds.
pub open spec fn option_text(o: Option<String>) -> Option<Seq<char>> {
    match o {
        Some(s) => Some(s@),
        None => None,
    }
}

/// Works out the llama-server arguments that select the model.
pub fn resolve_model_source(model: &Option<String>, hf: &Option<String>, builtin: &Option<String>) -> (r:
    Result<Vec<String>, Error>)
    ensures
        match r {
            Ok(args) => model_source(option_text(*model), option_text(*hf), option_text(*builtin))
                == Ok::<Seq<Seq<char>>, ErrorModel>(texts(args@)),
            Err(e) => model_source(option_text(*model), option_text(*hf), option_text(*builtin))
                == Err::<Seq<Seq<char>>, ErrorModel>(e@),
        },
{
    if let Some(m) = model {
        let mut args: Vec<String> = Vec::new();
        args.push("-m".to_owned());
        args.push(m.clone());
        assert(texts(args@) =~= seq!["-m"@, m@]);
        Ok(args)
    } else if let Some(repo) = hf {
        let mut args: Vec<String> = Vec::new();
        args.push("-hf".to_owned());
        args.push(repo.clone());
        assert(texts(args@) =~= seq!["-hf"@, repo@]);
        Ok(args)
    } else {
        match builtin {
            Some(name) => resolve_builtin(name.as_str()),
            None => resolve_builtin(DEFAULT_BUILTIN),
        }
    }
}

/// The events that `start_step` can be given.
pub open spec fn start_expects(event: ShellEvent) -> bool {
    !(event is Captured)
}

/// Start llama-server in a tmux session: check that the program exists,
/// refuse if the session is already there, else create the session running
/// the launch command.
pub open spec fn start_next(
    model_args: Seq<Seq<char>>,
    port: u16,
    gpu_layers: i32,
    ctx_size: u32,
    event: ShellEvent,
) -> StepModel<(), ErrorModel> {
    match event {
        ShellEvent::Begun => StepModel::Perform(ActionModel::RequireProgram(SERVER_PROGRAM@)),
        ShellEvent::ProgramChecked(Err(e)) => StepModel::Finish(Err(ErrorModel::Shell(e@))),
        ShellEvent::ProgramChecked(Ok(_)) => StepModel::Perform(
            ActionModel::CheckSession(TMUX_SESSION@),
        ),
        ShellEvent::SessionChecked(running) => if running {
            StepModel::Finish(Err(ErrorModel::Message(already_running_text(TMUX_SESSION@))))
        } else {
            StepModel::Perform(
                ActionModel::CreateSession(
                    TMUX_SESSION@,
                    launch_command(model_args, port, gpu_layers, ctx_size),
                ),
            )
        },
        ShellEvent::Completed(Err(e)) => StepModel::Finish(Err(ErrorModel::Shell(e@))),
        ShellEvent::Completed(Ok(_)) => StepModel::Finish(Ok(())),
        ShellEvent::Captured(_) => StepModel::Finish(Ok(())),
    }
}

/// One step of starting llama-server with the given model arguments, port,
/// number of GPU layers and context size.
pub fn start_step(
    model_args: &[&str],
    port: u16,
    gpu_layers: i32,
    ctx_size: u32,
    event: ShellEvent,
) -> (step: Step<(), Error>)
    requires
        start_expects(event),
    ensures
        step@ == start_next(str_texts(model_args@), port, gpu_layers, ctx_size, event),
{
    match event {
        ShellEvent::Begun => Step::Perform(ShellAction::RequireProgram(SERVER_PROGRAM.to_owned())),
        ShellEvent::ProgramChecked(Err(e)) => Step::Finish(Err(Error::Shell(e))),
        ShellEvent::ProgramChecked(Ok(_)) => Step::Perform(
            ShellAction::CheckSession(TMUX_SESSION.to_owned()),
        ),
        ShellEvent::SessionChecked(running) => {
            if running {
                Step::Finish(Err(Error::Message(already_running_message(TMUX_SESSION))))
            } else {
                let owned = to_owned_all(model_args);
                let command = launch_command_line(owned.as_slice(), port, gpu_layers, ctx_size);
                Step::Perform(ShellAction::CreateSession(TMUX_SESSION.to_owned(), command))
            }
        },
        ShellEvent::Completed(Err(e)) => Step::Finish(Err(Error::Shell(e))),
        ShellEvent::Completed(Ok(_)) => Step::Finish(Ok(())),
        ShellEvent::Captured(_) => Step::Finish(Ok(())),
    }
}

/// The events that `stop_step` can be given.
pub open spec fn stop_expects(event: ShellEvent) -> bool {
    event is Begun || event is SessionChecked || event is Completed
}

/// Stop llama-server by killing its tmux session; with no session there is
/// nothing to do.
pub open spec fn stop_next(event: ShellEvent) -> StepModel<(), ErrorModel> {
    match event {
        ShellEvent::SessionChecked(running) => if running {
            StepModel::Perform(ActionModel::KillSession(TMUX_SESSION@))
        } else {
            StepModel::Finish(Ok(()))
        },
        ShellEvent::Completed(Err(e)) => StepModel::Finish(Err(ErrorModel::Shell(e@))),
        ShellEvent::Completed(Ok(_)) => StepModel::Finish(Ok(())),
        _ => StepModel::Perform(ActionModel::CheckSession(TMUX_SESSION@)),
    }
}

/// One step of stopping llama-server.
pub fn stop_step(event: ShellEvent) -> (step: Step<(), Error>)
    requires
        stop_expects(event),
    ensures
        step@ == stop_next(event),
{
    match event {
        ShellEvent::SessionChecked(running) => {
            if running {
                Step::Perform(ShellAction::KillSession(TMUX_SESSION.to_owned()))
            } else {
                Step::Finish(Ok(()))
            }
        },
        ShellEvent::Completed(Err(e)) => Step::Finish(Err(Error::Shell(e))),
        ShellEvent::Completed(Ok(_)) => Step::Finish(Ok(())),
        _ => Step::Perform(ShellAction::CheckSession(TMUX_SESSION.to_owned())),
    }
}

/// The events that `logs_step` can be given.
pub open spec fn logs_expects(event: ShellEvent) -> bool {
    event is Begun || event is SessionChecked || event is Captured
}

/// Capture recent logs from the tmux session (the last `lines` lines, or
/// all visible ones), refusing when there is no session.
pub open spec fn logs_next(lines: Option<usize>, event: ShellEvent) -> StepModel<
    Seq<char>,
    ErrorModel,
> {
    match event {
        ShellEvent::SessionChecked(running) => if running {
            StepModel::Perform(ActionModel::CapturePane(TMUX_SESSION@, lines))
        } else {
            StepModel::Finish(Err(ErrorModel::Message(no_session_text(TMUX_SESSION@))))
        },
        ShellEvent::Captured(Err(e)) => StepModel::Finish(Err(ErrorModel::Shell(e@))),
        ShellEvent::Captured(Ok(output)) => StepModel::Finish(Ok(output@)),
        _ => StepModel::Perform(ActionModel::CheckSession(TMUX_SESSION@)),
    }
}

/// One step of capturing the session's recent output.
pub fn logs_step(lines: Option<usize>, event: ShellEvent) -> (step: Step<String, Error>)
    requires
        logs_expects(event),
    ensures
        step@ == logs_next(lines, event),
{
    match event {
        ShellEvent::SessionChecked(running) => {
            if running {
                Step::Perform(ShellAction::CapturePane(TMUX_SESSION.to_owned(), lines))
            } else {
                Step::Finish(Err(Error::Message(no_session_message(TMUX_SESSION))))
            }
        },
        ShellEvent::Captured(Err(e)) => Step::Finish(Err(Error::Shell(e))),
        ShellEvent::Captured(Ok(output)) => Step::Finish(Ok(output)),
        _ => Step::Perform(ShellAction::CheckSession(TMUX_SESSION.to_owned())),
    }
}

/// Every built-in preset resolves to the words of its own arguments, and a
/// name that is no preset is refused with that very name.
pub proof fn lemma_resolve_builtin_laws(name: Seq<char>)
    ensures
        forall|i: int|
            0 <= i < BUILTIN_MODELS@.len() ==> resolved(#[trigger] BUILTIN_MODELS@[i].0@) == Ok::<
                Seq<Seq<char>>,
                ErrorModel,
            >(words(BUILTIN_MODELS@[i].1@)),
        preset_args(name) is None ==> resolved(name) == Err::<Seq<Seq<char>>, ErrorModel>(
            ErrorModel::Message(unknown_model_text(name)),
        ),
{
    lemma_presets_are_flag_and_value();
}

/// The model source: a local file wins, then a Hugging Face repository, then
/// the named preset (its own arguments, whatever the default is), and with
/// nothing named the default preset, the first of the table.
pub proof fn lemma_model_source_laws(
    model: Option<Seq<char>>,
    hf: Option<Seq<char>>,
    builtin: Option<Seq<char>>,
)
    ensures
        model matches Some(m) ==> model_source(model, hf, builtin) == Ok::<
            Seq<Seq<char>>,
            ErrorModel,
        >(seq!["-m"@, m]),
        model is None ==> (hf matches Some(repo) ==> model_source(model, hf, builtin) == Ok::<
            Seq<Seq<char>>,
            ErrorModel,
        >(seq!["-hf"@, repo])),
        (model is None && hf is None) ==> (builtin matches Some(name) ==> (preset_args(
            name,
        ) matches Some(args) ==> model_source(model, hf, builtin) == Ok::<
            Seq<Seq<char>>,
            ErrorModel,
        >(words(args)))),
        (model is None && hf is None) ==> (builtin matches Some(name) ==> (preset_args(name) is None
            ==> model_source(model, hf, builtin) == Err::<Seq<Seq<char>>, ErrorModel>(
            ErrorModel::Message(unknown_model_text(name)),
        ))),
        model is None && hf is None && builtin is None ==> model_source(model, hf, builtin) == Ok::<
            Seq<Seq<char>>,
            ErrorModel,
        >(words(BUILTIN_MODELS@[0].1@)),
{
    lemma_default_builtin_is_preset();
}

/// Starting checks that `llama-server` exists, then that no session runs;
/// it refuses a running session, and otherwise creates the `dkdc-ai`
/// session running exactly `llama-server <model args> --port P -ngl G -c C`.
/// It succeeds only once the session has been created, and a shell failure
/// at any point ends it with that failure.
pub proof fn lemma_start_laws(
    model_args: Seq<Seq<char>>,
    port: u16,
    gpu_layers: i32,
    ctx_size: u32,
)
    ensures
        start_next(model_args, port, gpu_layers, ctx_size, ShellEvent::Begun) == StepModel::<
            (),
            ErrorModel,
        >::Perform(ActionModel::RequireProgram("llama-server"@)),
        start_next(model_args, port, gpu_layers, ctx_size, ShellEvent::ProgramChecked(Ok(())))
            == StepModel::<(), ErrorModel>::Perform(ActionModel::CheckSession(TMUX_SESSION@)),
        start_next(model_args, port, gpu_layers, ctx_size, ShellEvent::SessionChecked(true))
            == StepModel::<(), ErrorModel>::Finish(Err(ErrorModel::Message(already_running_text(TMUX_SESSION@)))),
        start_next(model_args, port, gpu_layers, ctx_size, ShellEvent::SessionChecked(false))
            == StepModel::<(), ErrorModel>::Perform(
            ActionModel::CreateSession(
                TMUX_SESSION@,
                join(
                    seq!["llama-server"@] + model_args + seq![
                        "--port"@,
                        decimal(port as nat),
                        "-ngl"@,
                        signed_decimal(gpu_layers as int),
                        "-c"@,
                        decimal(ctx_size as nat),
                    ],
                    seq![' '],
                ),
            ),
        ),
        forall|e: ShellEvent|
            start_expects(e) && #[trigger] start_next(model_args, port, gpu_layers, ctx_size, e)
                == StepModel::<(), ErrorModel>::Finish(Ok(())) ==> e is Completed,
        forall|e: ShellError|
            #[trigger] start_next(model_args, port, gpu_layers, ctx_size, ShellEvent::ProgramChecked(Err(e)))
                == StepModel::<(), ErrorModel>::Finish(Err(ErrorModel::Shell(e@))),
        forall|e: ShellError|
            #[trigger] start_next(model_args, port, gpu_layers, ctx_size, ShellEvent::Completed(Err(e)))
                == StepModel::<(), ErrorModel>::Finish(Err(ErrorModel::Shell(e@))),
        start_next(model_args, port, gpu_layers, ctx_size, ShellEvent::Completed(Ok(())))
            == StepModel::<(), ErrorModel>::Finish(Ok(())),
{
    reveal_strlit("llama-server");
    lemma_launch_command_text(model_args, port, gpu_layers, ctx_size);
}

/// Stopping first checks for the session and never finishes before that
/// check: a running session is killed, and only then does stopping succeed;
/// with no session it succeeds at once. It succeeds in no other way.
pub proof fn lemma_stop_laws(running: bool)
    ensures
        stop_next(ShellEvent::Begun) == StepModel::<(), ErrorModel>::Perform(
            ActionModel::CheckSession(TMUX_SESSION@),
        ),
        stop_next(ShellEvent::SessionChecked(running)) == if running {
            StepModel::<(), ErrorModel>::Perform(ActionModel::KillSession(TMUX_SESSION@))
        } else {
            StepModel::<(), ErrorModel>::Finish(Ok(()))
        },
        stop_next(ShellEvent::Completed(Ok(()))) == StepModel::<(), ErrorModel>::Finish(Ok(())),
        forall|e: ShellError|
            #[trigger] stop_next(ShellEvent::Completed(Err(e))) == StepModel::<
                (),
                ErrorModel,
            >::Finish(Err(ErrorModel::Shell(e@))),
        forall|e: ShellEvent|
            stop_expects(e) && #[trigger] stop_next(e) == StepModel::<(), ErrorModel>::Finish(
                Ok(()),
            ) ==> e == ShellEvent::SessionChecked(false) || e is Completed,
{
}

/// Capturing logs first checks for the session, refuses when there is none,
/// and otherwise captures the `dkdc-ai` pane with exactly the caller's line
/// count; it gives back exactly the captured text, and nothing else.
pub proof fn lemma_logs_laws(lines: Option<usize>)
    ensures
        logs_next(lines, ShellEvent::Begun) == StepModel::<Seq<char>, ErrorModel>::Perform(
            ActionModel::CheckSession(TMUX_SESSION@),
        ),
        logs_next(lines, ShellEvent::SessionChecked(true)) matches StepModel::Perform(
            ActionModel::CapturePane(session, count),
        ) && session == TMUX_SESSION@ && count == lines,
        logs_next(lines, ShellEvent::SessionChecked(false)) == StepModel::<
            Seq<char>,
            ErrorModel,
        >::Finish(Err(ErrorModel::Message(no_session_text(TMUX_SESSION@)))),
        forall|output: String|
            #[trigger] logs_next(lines, ShellEvent::Captured(Ok(output))) == StepModel::<
                Seq<char>,
                ErrorModel,
            >::Finish(Ok(output@)),
        forall|e: ShellEvent|
            logs_expects(e) && (#[trigger] logs_next(lines, e) matches StepModel::Finish(Ok(_)))
                ==> (e matches ShellEvent::Captured(Ok(output)) && logs_next(lines, e)
                == StepModel::<Seq<char>, ErrorModel>::Finish(Ok(output@))),
{
}

} // verus!
