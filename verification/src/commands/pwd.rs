use vstd::prelude::*;

use crate::commands::command::{ActionModel, BuiltinAction, BuiltinStep, Command, ShellStatus,
    StepModel};
use crate::commands::registry::{CommandRegistry, RegistryModel};

verus! {

/// The `pwd` builtin: prints the session's working directory.
pub struct PwdCommand;

impl Command for PwdCommand {
    open spec fn spec_name(&self) -> Seq<char> {
        "pwd"@
    }

    open spec fn spec_step(&self, args: Seq<Seq<char>>, registry: RegistryModel) -> StepModel {
        StepModel {
            output: registry.cwd + seq!['\n'],
            action: ActionModel::Complete(Ok(ShellStatus::Continue)),
        }
    }

    fn execute(&self, args: &Vec<String>, registry: &CommandRegistry) -> (step: BuiltinStep) {
        let mut out = registry.get_cwd().clone();
        out.append("\n");
        proof {
            reveal_strlit("\n");
            assert(out@ =~= registry@.cwd + seq!['\n']);
        }
        BuiltinStep { output: out, action: BuiltinAction::Complete(Ok(ShellStatus::Continue)) }
    }

    fn get_name(&self) -> (name: &'static str) {
        "pwd"
    }
}

} // verus!
