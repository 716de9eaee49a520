use vstd::prelude::*;

use crate::commands::command::{ActionModel, BuiltinAction, BuiltinStep, Command, ShellStatus,
    StepModel};
use crate::commands::registry::{find_builtin, find_executable_from, CommandRegistry,
    RegistryModel};
use crate::error::{ErrorModel, ShellError};
use crate::tokenizer::tokens_view;

verus! {

/// The line `type` prints for one name, or nothing if the name is unknown.
pub open spec fn type_line(m: RegistryModel, arg: Seq<char>) -> Option<Seq<char>> {
    if find_builtin(m.builtins, arg) is Some {
        Some(arg + " is a "@ + "shell builtin"@ + seq!['\n'])
    } else {
        match find_executable_from(m.executables, 0, arg) {
            Some(path) => Some(arg + " is "@ + path + seq!['\n']),
            None => None,
        }
    }
}

/// What `type` does from argument `i` on: it describes each name in turn
/// and stops at the first unknown one, which is an error.
pub open spec fn type_step_from(m: RegistryModel, args: Seq<Seq<char>>, i: int) -> StepModel
    decreases args.len() - i,
{
    if i < 0 || i >= args.len() {
        StepModel {
            output: Seq::empty(),
            action: ActionModel::Complete(Ok(ShellStatus::Continue)),
        }
    } else {
        match type_line(m, args[i]) {
            Some(line) => {
                let rest = type_step_from(m, args, i + 1);
                StepModel { output: line + rest.output, action: rest.action }
            },
            None => StepModel {
                output: Seq::empty(),
                action: ActionModel::Complete(Err(ErrorModel::TypeNotFound(args[i]))),
            },
        }
    }
}

/// The `type` builtin: says of each argument whether it is a shell builtin
/// or an executable on the search path.
pub struct TypeCommand;

impl Command for TypeCommand {
    open spec fn spec_name(&self) -> Seq<char> {
        "type"@
    }

    open spec fn spec_step(&self, args: Seq<Seq<char>>, registry: RegistryModel) -> StepModel {
        type_step_from(registry, args, 0)
    }

    fn execute(&self, args: &Vec<String>, registry: &CommandRegistry) -> (step: BuiltinStep) {
        let ghost m = registry@;
        let ghost argsv = tokens_view(args@);
        let mut out = String::new();
        let mut i: usize = 0;
        while i < args.len()
            invariant
                i <= args@.len(),
                m == registry@,
                argsv == tokens_view(args@),
                argsv.len() == args@.len(),
                type_step_from(m, argsv, 0) == (StepModel {
                    output: out@ + type_step_from(m, argsv, i as int).output,
                    action: type_step_from(m, argsv, i as int).action,
                }),
            decreases args@.len() - i,
        {
            let ghost pre_out = out@;
            let arg = &args[i];
            proof {
                assert(argsv[i as int] == args@[i as int]@);
            }
            if let Some(b) = registry.get_builtin(arg.as_str()) {
                out.append(arg.as_str());
                out.append(" is a ");
                out.append(b.get_type());
                out.append("\n");
                proof {
                    reveal_strlit("\n");
                    assert(type_line(m, argsv[i as int]) == Some(
                        argsv[i as int] + " is a "@ + "shell builtin"@ + seq!['\n'],
                    ));
                    assert(out@ =~= pre_out + (argsv[i as int] + " is a "@ + "shell builtin"@
                        + seq!['\n']));
                    let stepi = type_step_from(m, argsv, i as int);
                    let stepn = type_step_from(m, argsv, i + 1);
                    assert(stepi.output == (argsv[i as int] + " is a "@ + "shell builtin"@
                        + seq!['\n']) + stepn.output);
                    assert(pre_out + stepi.output =~= out@ + stepn.output);
                }
            } else {
                let path_opt = registry.lookup_executable(arg.as_str());
                if let Some(path) = path_opt {
                    out.append(arg.as_str());
                    out.append(" is ");
                    out.append(path.as_str());
                    out.append("\n");
                    proof {
                        reveal_strlit("\n");
                        assert(type_line(m, argsv[i as int]) == Some(
                            argsv[i as int] + " is "@ + path@ + seq!['\n'],
                        ));
                        assert(out@ =~= pre_out + (argsv[i as int] + " is "@ + path@
                            + seq!['\n']));
                        let stepi = type_step_from(m, argsv, i as int);
                        let stepn = type_step_from(m, argsv, i + 1);
                        assert(stepi.output == (argsv[i as int] + " is "@ + path@ + seq!['\n'])
                            + stepn.output);
                        assert(pre_out + stepi.output =~= out@ + stepn.output);
                    }
                } else {
                    proof {
                        assert(type_line(m, argsv[i as int]) is None);
                    }
                    return BuiltinStep {
                        output: out,
                        action: BuiltinAction::Complete(
                            Err(ShellError::TypeNotFound(arg.clone())),
                        ),
                    };
                }
            }
            i = i + 1;
        }
        BuiltinStep { output: out, action: BuiltinAction::Complete(Ok(ShellStatus::Continue)) }
    }

    fn get_name(&self) -> (name: &'static str) {
        "type"
    }
}

} // verus!
