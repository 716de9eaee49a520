use vstd::prelude::*;

use crate::commands::command::{ActionModel, BuiltinAction, BuiltinStep, Command, StepModel};
use crate::commands::registry::{CommandRegistry, RegistryModel};

verus! {

/// The `exit` builtin: ends the session, first flushing the history to the
/// configured history file, if there is one.
pub struct ExitCommand;

impl Command for ExitCommand {
    open spec fn spec_name(&self) -> Seq<char> {
        "exit"@
    }

    open spec fn spec_step(&self, args: Seq<Seq<char>>, registry: RegistryModel) -> StepModel {
        StepModel {
            output: Seq::empty(),
            action: ActionModel::ExitShell { histfile: registry.histfile },
        }
    }

    fn execute(&self, args: &Vec<String>, registry: &CommandRegistry) -> (step: BuiltinStep) {
        BuiltinStep {
            output: String::new(),
            action: BuiltinAction::ExitShell { histfile: registry.get_histfile_path() },
        }
    }

    fn get_name(&self) -> (name: &'static str) {
        "exit"
    }
}

} // verus!
