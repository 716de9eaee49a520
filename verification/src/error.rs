use vstd::prelude::*;

verus! {

/// Every failure the shell core can report. I/O failures carry the
/// underlying cause as plain text, supplied by whoever performed the
/// operation.
#[derive(Debug)]
pub enum ShellError {
    Io(String),
    CommandNotFound(String),
    DirectoryNotFound { path: String },
    TypeNotFound(String),
    HistoryArgRequired { flag: String },
    HistoryInvalidArg { arg: String },
    FileOpen { path: String, source: String },
    ProcessStart { command: String, source: String },
}

/// Abstract value of a [`ShellError`], with each text field as its
/// characters.
pub enum ErrorModel {
    Io(Seq<char>),
    CommandNotFound(Seq<char>),
    DirectoryNotFound { path: Seq<char> },
    TypeNotFound(Seq<char>),
    HistoryArgRequired { flag: Seq<char> },
    HistoryInvalidArg { arg: Seq<char> },
    FileOpen { path: Seq<char>, source: Seq<char> },
    ProcessStart { command: Seq<char>, source: Seq<char> },
}

impl View for ShellError {
    type V = ErrorModel;

    open spec fn view(&self) -> ErrorModel {
        match self {
            ShellError::Io(s) => ErrorModel::Io(s@),
            ShellError::CommandNotFound(c) => ErrorModel::CommandNotFound(c@),
            ShellError::DirectoryNotFound { path } => ErrorModel::DirectoryNotFound {
                path: path@,
            },
            ShellError::TypeNotFound(n) => ErrorModel::TypeNotFound(n@),
            ShellError::HistoryArgRequired { flag } => ErrorModel::HistoryArgRequired {
                flag: flag@,
            },
            ShellError::HistoryInvalidArg { arg } => ErrorModel::HistoryInvalidArg { arg: arg@ },
            ShellError::FileOpen { path, source } => ErrorModel::FileOpen {
                path: path@,
                source: source@,
            },
            ShellError::ProcessStart { command, source } => ErrorModel::ProcessStart {
                command: command@,
                source: source@,
            },
        }
    }
}

/// The one-line description an abstract error renders to.
pub open spec fn model_message(e: ErrorModel) -> Seq<char> {
    match e {
        ErrorModel::Io(s) => "IO error: "@ + s,
        ErrorModel::CommandNotFound(c) => c + ": command not found"@,
        ErrorModel::DirectoryNotFound { path } => "cd: "@ + path + ": No such file or directory"@,
        ErrorModel::TypeNotFound(n) => n + ": not found"@,
        ErrorModel::HistoryArgRequired { flag } => "history: "@ + flag + ": argument required"@,
        ErrorModel::HistoryInvalidArg { arg } => "history: "@ + arg
            + ": numeric argument required"@,
        ErrorModel::FileOpen { path, source } => "Failed to open "@ + path + ": "@ + source,
        ErrorModel::ProcessStart { command, source } => "Failed to start "@ + command + ": "@
            + source,
    }
}

impl ShellError {
    /// Renders the error as the message the interactive loop prints.
    pub fn message(&self) -> (r: String)
        ensures
            r@ == model_message(self@),
    {
        match self {
            ShellError::Io(s) => {
                let mut m = String::from_str("IO error: ");
                m.append(s.as_str());
                m
            },
            ShellError::CommandNotFound(c) => {
                let mut m = c.clone();
                m.append(": command not found");
                m
            },
            ShellError::DirectoryNotFound { path } => {
                let mut m = String::from_str("cd: ");
                m.append(path.as_str());
                m.append(": No such file or directory");
                m
            },
            ShellError::TypeNotFound(n) => {
                let mut m = n.clone();
                m.append(": not found");
                m
            },
            ShellError::HistoryArgRequired { flag } => {
                let mut m = String::from_str("history: ");
                m.append(flag.as_str());
                m.append(": argument required");
                m
            },
            ShellError::HistoryInvalidArg { arg } => {
                let mut m = String::from_str("history: ");
                m.append(arg.as_str());
                m.append(": numeric argument required");
                m
            },
            ShellError::FileOpen { path, source } => {
                let mut m = String::from_str("Failed to open ");
                m.append(path.as_str());
                m.append(": ");
                m.append(source.as_str());
                m
            },
            ShellError::ProcessStart { command, source } => {
                let mut m = String::from_str("Failed to start ");
                m.append(command.as_str());
                m.append(": ");
                m.append(source.as_str());
                m
            },
        }
    }
}

} // verus!
