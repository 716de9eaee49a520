use vstd::prelude::*;

use crate::commands::command::{ActionModel, BuiltinAction, BuiltinStep, Command, ShellStatus,
    StepModel};
use crate::commands::registry::{CommandRegistry, RegistryModel};
use crate::strutil::str_eq;

verus! {

/// The `cd` builtin: asks for the working directory to change. With no
/// arguments it does nothing; `~` goes to the session's home directory.
pub struct CdCommand;

impl Command for CdCommand {
    open spec fn spec_name(&self) -> Seq<char> {
        "cd"@
    }

    open spec fn spec_step(&self, args: Seq<Seq<char>>, registry: RegistryModel) -> StepModel {
        if args.len() == 0 {
            StepModel {
                output: Seq::empty(),
                action: ActionModel::Complete(Ok(ShellStatus::Continue)),
            }
        } else if args[0] == "~"@ {
            StepModel {
                output: Seq::empty(),
                action: ActionModel::ChangeDir { path: registry.home },
            }
        } else {
            StepModel { output: Seq::empty(), action: ActionModel::ChangeDir { path: args[0] } }
        }
    }

    fn execute(&self, args: &Vec<String>, registry: &CommandRegistry) -> (step: BuiltinStep) {
        if args.len() == 0 {
            BuiltinStep {
                output: String::new(),
                action: BuiltinAction::Complete(Ok(ShellStatus::Continue)),
            }
        } else if str_eq(args[0].as_str(), "~") {
            BuiltinStep {
                output: String::new(),
                action: BuiltinAction::ChangeDir { path: registry.get_home().clone() },
            }
        } else {
            BuiltinStep {
                output: String::new(),
                action: BuiltinAction::ChangeDir { path: args[0].clone() },
            }
        }
    }

    fn get_name(&self) -> (name: &'static str) {
        "cd"
    }
}

} // verus!
