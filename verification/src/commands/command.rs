use vstd::prelude::*;

use crate::commands::cd::CdCommand;
use crate::commands::echo::EchoCommand;
use crate::commands::exit::ExitCommand;
use crate::commands::history::HistoryCommand;
use crate::commands::pwd::PwdCommand;
use crate::commands::registry::{CommandRegistry, RegistryModel};
use crate::commands::type_cmd::TypeCommand;
use crate::error::{ErrorModel, ShellError};
use crate::tokenizer::tokens_view;

verus! {

/// Signal returned by a stage or a whole pipeline run: either the
/// interactive session goes on, or the shell should terminate.
#[derive(Debug, PartialEq, Eq, Structural, Clone, Copy)]
pub enum ShellStatus {
    Continue,
    Exit,
}

/// What a builtin asks of its caller. The pure builtins finish on their own
/// (`Complete`); the others name the one operation on the outside world they
/// need, and the caller performs it and derives the stage's result from its
/// outcome.
#[derive(Debug)]
pub enum BuiltinAction {
    /// The builtin is done, successfully or not.
    Complete(Result<ShellStatus, ShellError>),
    /// Change the working directory to `path`; failure means the directory
    /// was not found.
    ChangeDir { path: String },
    /// Read the file at `path` and append its lines to the history.
    ReadHistoryFile { path: String },
    /// Write the history entries from index `start` on to the file at
    /// `path`, appending or truncating.
    WriteHistoryFile { path: String, append: bool, start: usize },
    /// Terminate the session, first writing the whole history to the
    /// session's history file if one is configured, ignoring write errors.
    ExitShell { histfile: Option<String> },
}

/// What one builtin invocation produced: the text written to its output
/// destination so far, and what remains to be done.
#[derive(Debug)]
pub struct BuiltinStep {
    pub output: String,
    pub action: BuiltinAction,
}

/// Abstract value of a [`BuiltinAction`].
pub enum ActionModel {
    Complete(Result<ShellStatus, ErrorModel>),
    ChangeDir { path: Seq<char> },
    ReadHistoryFile { path: Seq<char> },
    WriteHistoryFile { path: Seq<char>, append: bool, start: int },
    ExitShell { histfile: Option<Seq<char>> },
}

/// Abstract value of a [`BuiltinStep`].
pub struct StepModel {
    pub output: Seq<char>,
    pub action: ActionModel,
}

impl View for BuiltinAction {
    type V = ActionModel;

    open spec fn view(&self) -> ActionModel {
        match self {
            BuiltinAction::Complete(r) => ActionModel::Complete(
                match r {
                    Ok(s) => Ok(*s),
                    Err(e) => Err(e@),
                },
            ),
            BuiltinAction::ChangeDir { path } => ActionModel::ChangeDir { path: path@ },
            BuiltinAction::ReadHistoryFile { path } => ActionModel::ReadHistoryFile {
                path: path@,
            },
            BuiltinAction::WriteHistoryFile { path, append, start } => {
                ActionModel::WriteHistoryFile { path: path@, append: *append, start: *start as int }
            },
            BuiltinAction::ExitShell { histfile } => ActionModel::ExitShell {
                histfile: match histfile {
                    Some(p) => Some(p@),
                    None => None,
                },
            },
        }
    }
}

impl View for BuiltinStep {
    type V = StepModel;

    open spec fn view(&self) -> StepModel {
        StepModel { output: self.output@, action: self.action@ }
    }
}

/// The invocation contract every builtin shares: from the arguments and the
/// session state it computes its output text and the action that finishes
/// the stage. `spec_step` pins the whole behaviour; `execute` realizes it.
pub trait Command {
    /// The name under which the builtin is registered.
    spec fn spec_name(&self) -> Seq<char>;

    /// Everything the invocation does, as a function of the arguments and
    /// the session state.
    spec fn spec_step(&self, args: Seq<Seq<char>>, registry: RegistryModel) -> StepModel;

    fn execute(&self, args: &Vec<String>, registry: &CommandRegistry) -> (step: BuiltinStep)
        ensures
            step@ == self.spec_step(tokens_view(args@), registry@),
    ;

    fn get_name(&self) -> (name: &'static str)
        ensures
            name@ == self.spec_name(),
    ;

    /// How the `type` builtin describes this command.
    fn get_type(&self) -> (t: &'static str)
        ensures
            t@ == "shell builtin"@,
    {
        "shell builtin"
    }
}

/// The closed set of builtins, dispatching to the struct that implements
/// each.
#[derive(Debug, PartialEq, Eq, Structural, Clone, Copy)]
pub enum Builtin {
    Echo,
    Cd,
    Pwd,
    Exit,
    Type,
    History,
}

impl Command for Builtin {
    open spec fn spec_name(&self) -> Seq<char> {
        match self {
            Builtin::Echo => EchoCommand.spec_name(),
            Builtin::Cd => CdCommand.spec_name(),
            Builtin::Pwd => PwdCommand.spec_name(),
            Builtin::Exit => ExitCommand.spec_name(),
            Builtin::Type => TypeCommand.spec_name(),
            Builtin::History => HistoryCommand.spec_name(),
        }
    }

    open spec fn spec_step(&self, args: Seq<Seq<char>>, registry: RegistryModel) -> StepModel {
        match self {
            Builtin::Echo => EchoCommand.spec_step(args, registry),
            Builtin::Cd => CdCommand.spec_step(args, registry),
            Builtin::Pwd => PwdCommand.spec_step(args, registry),
            Builtin::Exit => ExitCommand.spec_step(args, registry),
            Builtin::Type => TypeCommand.spec_step(args, registry),
            Builtin::History => HistoryCommand.spec_step(args, registry),
        }
    }

    fn execute(&self, args: &Vec<String>, registry: &CommandRegistry) -> (step: BuiltinStep) {
        match self {
            Builtin::Echo => EchoCommand.execute(args, registry),
            Builtin::Cd => CdCommand.execute(args, registry),
            Builtin::Pwd => PwdCommand.execute(args, registry),
            Builtin::Exit => ExitCommand.execute(args, registry),
            Builtin::Type => TypeCommand.execute(args, registry),
            Builtin::History => HistoryCommand.execute(args, registry),
        }
    }

    fn get_name(&self) -> (name: &'static str) {
        match self {
            Builtin::Echo => EchoCommand.get_name(),
            Builtin::Cd => CdCommand.get_name(),
            Builtin::Pwd => PwdCommand.get_name(),
            Builtin::Exit => ExitCommand.get_name(),
            Builtin::Type => TypeCommand.get_name(),
            Builtin::History => HistoryCommand.get_name(),
        }
    }
}

} // verus!
