pub mod cd;
pub mod command;
pub mod echo;
pub mod executor;
pub mod exit;
pub mod history;
pub mod pwd;
pub mod registry;
pub mod type_cmd;

pub use command::{Builtin, BuiltinAction, BuiltinStep, Command, ShellStatus};
pub use executor::ShellExecutor;
pub use registry::CommandRegistry;
