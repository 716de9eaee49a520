use vstd::prelude::*;

use crate::commands::command::{ActionModel, BuiltinAction, BuiltinStep, Command, ShellStatus,
    StepModel};
use crate::commands::registry::{CommandRegistry, RegistryModel};
use crate::strutil::{join_spaced, join_with_spaces};
use crate::tokenizer::tokens_view;

verus! {

/// The `echo` builtin: prints its arguments joined by single spaces,
/// followed by a newline.
pub struct EchoCommand;

impl Command for EchoCommand {
    open spec fn spec_name(&self) -> Seq<char> {
        "echo"@
    }

    open spec fn spec_step(&self, args: Seq<Seq<char>>, registry: RegistryModel) -> StepModel {
        StepModel {
            output: join_spaced(args) + seq!['\n'],
            action: ActionModel::Complete(Ok(ShellStatus::Continue)),
        }
    }

    fn execute(&self, args: &Vec<String>, registry: &CommandRegistry) -> (step: BuiltinStep) {
        let mut out = join_with_spaces(args);
        out.append("\n");
        proof {
            reveal_strlit("\n");
            assert(out@ =~= join_spaced(tokens_view(args@)) + seq!['\n']);
        }
        BuiltinStep { output: out, action: BuiltinAction::Complete(Ok(ShellStatus::Continue)) }
    }

    fn get_name(&self) -> (name: &'static str) {
        "echo"
    }
}

} // verus!
