use vstd::prelude::*;

use crate::commands::command::{Builtin, ShellStatus};
use crate::commands::registry::{find_builtin, CommandRegistry, RegistryModel};
use crate::error::{model_message, ErrorModel, ShellError};
use crate::parser::{CommandModel, ParsedCommand};
use crate::strutil::clone_strings;
use crate::tokenizer::tokens_view;

verus! {

/// What feeds the next stage's standard input between two stages: nothing,
/// a still-running external process whose output pipe is unread, or the
/// captured output of a builtin.
#[derive(Debug)]
pub enum ChannelState {
    Empty,
    Process,
    Buffer(String),
}

/// Abstract value of a [`ChannelState`].
pub enum ChannelModel {
    Empty,
    Process,
    Buffer(Seq<char>),
}

impl View for ChannelState {
    type V = ChannelModel;

    open spec fn view(&self) -> ChannelModel {
        match self {
            ChannelState::Empty => ChannelModel::Empty,
            ChannelState::Process => ChannelModel::Process,
            ChannelState::Buffer(b) => ChannelModel::Buffer(b@),
        }
    }
}

/// Where a builtin stage's output goes, in priority order: an explicit
/// stdout redirection file, the buffer feeding the next stage, or the
/// terminal.
#[derive(Debug)]
pub enum BuiltinSink {
    RedirectFile { path: String, append: bool },
    PipeBuffer,
    Terminal,
}

pub enum BuiltinSinkModel {
    RedirectFile { path: Seq<char>, append: bool },
    PipeBuffer,
    Terminal,
}

impl View for BuiltinSink {
    type V = BuiltinSinkModel;

    open spec fn view(&self) -> BuiltinSinkModel {
        match self {
            BuiltinSink::RedirectFile { path, append } => BuiltinSinkModel::RedirectFile {
                path: path@,
                append: *append,
            },
            BuiltinSink::PipeBuffer => BuiltinSinkModel::PipeBuffer,
            BuiltinSink::Terminal => BuiltinSinkModel::Terminal,
        }
    }
}

/// An external stage's standard input: the carried process's output pipe,
/// a pipe fed the carried buffer's bytes right after the spawn, or the
/// shell's own standard input.
#[derive(Debug)]
pub enum StdinSource {
    FromCarriedProcess,
    FromBuffer(String),
    Inherit,
}

pub enum StdinModel {
    FromCarriedProcess,
    FromBuffer(Seq<char>),
    Inherit,
}

impl View for StdinSource {
    type V = StdinModel;

    open spec fn view(&self) -> StdinModel {
        match self {
            StdinSource::FromCarriedProcess => StdinModel::FromCarriedProcess,
            StdinSource::FromBuffer(b) => StdinModel::FromBuffer(b@),
            StdinSource::Inherit => StdinModel::Inherit,
        }
    }
}

/// An external stage's standard output: an explicit redirection file, a
/// fresh pipe towards the next stage, or the shell's own standard output.
#[derive(Debug)]
pub enum StdoutSink {
    RedirectFile { path: String, append: bool },
    Pipe,
    Inherit,
}

pub enum StdoutModel {
    RedirectFile { path: Seq<char>, append: bool },
    Pipe,
    Inherit,
}

impl View for StdoutSink {
    type V = StdoutModel;

    open spec fn view(&self) -> StdoutModel {
        match self {
            StdoutSink::RedirectFile { path, append } => StdoutModel::RedirectFile {
                path: path@,
                append: *append,
            },
            StdoutSink::Pipe => StdoutModel::Pipe,
            StdoutSink::Inherit => StdoutModel::Inherit,
        }
    }
}

/// An external stage's standard error: an explicit redirection file or the
/// shell's own standard error; it is never captured into the channel.
#[derive(Debug)]
pub enum StderrSink {
    RedirectFile { path: String, append: bool },
    Inherit,
}

pub enum StderrModel {
    RedirectFile { path: Seq<char>, append: bool },
    Inherit,
}

impl View for StderrSink {
    type V = StderrModel;

    open spec fn view(&self) -> StderrModel {
        match self {
            StderrSink::RedirectFile { path, append } => StderrModel::RedirectFile {
                path: path@,
                append: *append,
            },
            StderrSink::Inherit => StderrModel::Inherit,
        }
    }
}

/// One instruction to the driver of a run. `reap_carried` tells the driver
/// that the stage consumes a carried process's pipe, and that it must wait
/// on that process once the stage is underway, so no child is left behind.
#[derive(Debug)]
pub enum StageAction {
    /// Run the named builtin with these arguments, writing its output to
    /// `sink`; `stderr_file` is opened (creating or truncating) before the
    /// builtin runs, whether or not anything is written to it.
    RunBuiltin {
        kind: Builtin,
        args: Vec<String>,
        sink: BuiltinSink,
        stderr_file: Option<(String, bool)>,
        reap_carried: bool,
    },
    /// Resolve `command` on the search path and spawn it with these streams;
    /// `wait` says whether the driver blocks on the child before going on.
    SpawnExternal {
        command: String,
        args: Vec<String>,
        stdin: StdinSource,
        stdout: StdoutSink,
        stderr: StderrSink,
        wait: bool,
        reap_carried: bool,
    },
    /// The stages are done and a process is still carried: wait for it.
    WaitCarried,
}

pub enum StageActionModel {
    RunBuiltin {
        kind: Builtin,
        args: Seq<Seq<char>>,
        sink: BuiltinSinkModel,
        stderr_file: Option<(Seq<char>, bool)>,
        reap_carried: bool,
    },
    SpawnExternal {
        command: Seq<char>,
        args: Seq<Seq<char>>,
        stdin: StdinModel,
        stdout: StdoutModel,
        stderr: StderrModel,
        wait: bool,
        reap_carried: bool,
    },
    WaitCarried,
}

impl View for StageAction {
    type V = StageActionModel;

    open spec fn view(&self) -> StageActionModel {
        match self {
            StageAction::RunBuiltin { kind, args, sink, stderr_file, reap_carried } => {
                StageActionModel::RunBuiltin {
                    kind: *kind,
                    args: tokens_view(args@),
                    sink: sink@,
                    stderr_file: match stderr_file {
                        Some(p) => Some((p.0@, p.1)),
                        None => None,
                    },
                    reap_carried: *reap_carried,
                }
            },
            StageAction::SpawnExternal {
                command,
                args,
                stdin,
                stdout,
                stderr,
                wait,
                reap_carried,
            } => StageActionModel::SpawnExternal {
                command: command@,
                args: tokens_view(args@),
                stdin: stdin@,
                stdout: stdout@,
                stderr: stderr@,
                wait: *wait,
                reap_carried: *reap_carried,
            },
            StageAction::WaitCarried => StageActionModel::WaitCarried,
        }
    }
}

/// One stage of a running pipeline, with its builtin resolved once at the
/// start of the run.
struct PipelineStage {
    cmd: ParsedCommand,
    builtin: Option<Builtin>,
}

/// Abstract value of a stage.
pub struct StageModel {
    pub cmd: CommandModel,
    pub builtin: Option<Builtin>,
}

/// Abstract state of a pipeline run: the stages, how many are finished, the
/// channel carried between stages, and the outcome once the run is over.
pub struct RunModel {
    pub stages: Seq<StageModel>,
    pub idx: int,
    pub channel: ChannelModel,
    pub done: Option<Result<ShellStatus, ErrorModel>>,
}

/// The result a run reports, abstractly.
pub open spec fn res_view(r: Result<ShellStatus, ShellError>) -> Result<ShellStatus, ErrorModel> {
    match r {
        Ok(s) => Ok(s),
        Err(e) => Err(e@),
    }
}

pub open spec fn outcome_view(r: Option<Result<ShellStatus, ShellError>>) -> Option<
    Result<ShellStatus, ErrorModel>,
> {
    match r {
        Some(x) => Some(res_view(x)),
        None => None,
    }
}

/// A pipeline in the middle of execution. The driver repeatedly asks for
/// the next action, performs the outside work it names, and reports what
/// happened; every decision in between is made here.
pub struct PipelineRun {
    stages: Vec<PipelineStage>,
    idx: usize,
    channel: ChannelState,
    done: Option<Result<ShellStatus, ShellError>>,
}

impl View for PipelineRun {
    type V = RunModel;

    closed spec fn view(&self) -> RunModel {
        RunModel {
            stages: self.stages@.map_values(
                |s: PipelineStage| StageModel { cmd: s.cmd@, builtin: s.builtin },
            ),
            idx: self.idx as int,
            channel: self.channel@,
            done: outcome_view(self.done),
        }
    }
}

/// A run state the transitions keep: the position is in range, the run only
/// rests mid-way with a carried process still to be waited on, and a run
/// that ended with `Continue` carries no process.
pub open spec fn run_wf(m: RunModel) -> bool {
    &&& 0 <= m.idx <= m.stages.len()
    &&& (m.done is None && m.idx == m.stages.len() ==> m.channel is Process)
    &&& (m.done == Some(Ok::<ShellStatus, ErrorModel>(ShellStatus::Continue)) ==> !(
    m.channel is Process))
}

/// Where a builtin stage's output goes: an explicit stdout redirection
/// wins; otherwise a stage that is not last feeds the next stage's buffer;
/// the last stage writes to the terminal.
pub open spec fn builtin_sink_spec(c: CommandModel, is_last: bool) -> BuiltinSinkModel {
    match c.stdout_redirect {
        Some(p) => BuiltinSinkModel::RedirectFile { path: p, append: c.stdout_redirect_append },
        None => if !is_last {
            BuiltinSinkModel::PipeBuffer
        } else {
            BuiltinSinkModel::Terminal
        },
    }
}

/// The stderr redirection target a stage names, to be opened before the
/// stage runs.
pub open spec fn stderr_target_spec(c: CommandModel) -> Option<(Seq<char>, bool)> {
    match c.stderr_redirect {
        Some(p) => Some((p, c.stderr_redirect_append)),
        None => None,
    }
}

/// An external stage's standard input, decided by the carried channel.
pub open spec fn external_stdin_spec(ch: ChannelModel) -> StdinModel {
    match ch {
        ChannelModel::Process => StdinModel::FromCarriedProcess,
        ChannelModel::Buffer(b) => StdinModel::FromBuffer(b),
        ChannelModel::Empty => StdinModel::Inherit,
    }
}

/// Whether an external stage feeds the next stage through a fresh pipe:
/// only when it has no stdout redirection and is not last.
pub open spec fn creates_pipe_spec(c: CommandModel, is_last: bool) -> bool {
    c.stdout_redirect is None && !is_last
}

/// An external stage's standard output.
pub open spec fn external_stdout_spec(c: CommandModel, is_last: bool) -> StdoutModel {
    match c.stdout_redirect {
        Some(p) => StdoutModel::RedirectFile { path: p, append: c.stdout_redirect_append },
        None => if !is_last {
            StdoutModel::Pipe
        } else {
            StdoutModel::Inherit
        },
    }
}

/// An external stage's standard error.
pub open spec fn external_stderr_spec(c: CommandModel) -> StderrModel {
    match c.stderr_redirect {
        Some(p) => StderrModel::RedirectFile { path: p, append: c.stderr_redirect_append },
        None => StderrModel::Inherit,
    }
}

/// The next instruction a run state calls for, if any.
pub open spec fn spec_next_action(m: RunModel) -> Option<StageActionModel> {
    if m.done is Some {
        None
    } else if m.idx < m.stages.len() {
        let st = m.stages[m.idx];
        let is_last = m.idx == m.stages.len() - 1;
        match st.builtin {
            Some(kind) => Some(
                StageActionModel::RunBuiltin {
                    kind,
                    args: st.cmd.args,
                    sink: builtin_sink_spec(st.cmd, is_last),
                    stderr_file: stderr_target_spec(st.cmd),
                    reap_carried: m.channel is Process,
                },
            ),
            None => Some(
                StageActionModel::SpawnExternal {
                    command: st.cmd.command,
                    args: st.cmd.args,
                    stdin: external_stdin_spec(m.channel),
                    stdout: external_stdout_spec(st.cmd, is_last),
                    stderr: external_stderr_spec(st.cmd),
                    wait: !creates_pipe_spec(st.cmd, is_last),
                    reap_carried: m.channel is Process,
                },
            ),
        }
    } else if m.channel is Process {
        Some(StageActionModel::WaitCarried)
    } else {
        None
    }
}

/// The state after a builtin stage reported its result, and the line to
/// append to the stage's stderr redirection target if the failure was
/// swallowed: a failing builtin whose stage redirected stderr is recovered,
/// any other failure ends the run; `Exit` ends it at once.
pub open spec fn spec_after_builtin(
    m: RunModel,
    output: Seq<char>,
    result: Result<ShellStatus, ErrorModel>,
) -> (RunModel, Option<(Seq<char>, Seq<char>)>) {
    let st = m.stages[m.idx];
    let is_last = m.idx == m.stages.len() - 1;
    let sink = builtin_sink_spec(st.cmd, is_last);
    match result {
        Ok(status) => {
            if status is Exit {
                (
                    RunModel {
                        stages: m.stages,
                        idx: m.idx + 1,
                        channel: m.channel,
                        done: Some(Ok(ShellStatus::Exit)),
                    },
                    None,
                )
            } else {
                let channel = if sink is PipeBuffer {
                    ChannelModel::Buffer(output)
                } else {
                    ChannelModel::Empty
                };
                let done = if m.idx + 1 == m.stages.len() {
                    Some(Ok::<ShellStatus, ErrorModel>(ShellStatus::Continue))
                } else {
                    None
                };
                (RunModel { stages: m.stages, idx: m.idx + 1, channel, done }, None)
            }
        },
        Err(e) => {
            match st.cmd.stderr_redirect {
                Some(path) => {
                    let done = if m.idx + 1 == m.stages.len() {
                        Some(Ok::<ShellStatus, ErrorModel>(ShellStatus::Continue))
                    } else {
                        None
                    };
                    (
                        RunModel {
                            stages: m.stages,
                            idx: m.idx + 1,
                            channel: ChannelModel::Empty,
                            done,
                        },
                        Some((path, model_message(e) + seq!['\n'])),
                    )
                },
                None => (
                    RunModel {
                        stages: m.stages,
                        idx: m.idx,
                        channel: m.channel,
                        done: Some(Err(e)),
                    },
                    None,
                ),
            }
        },
    }
}

/// The state after an external stage was spawned (and, when the plan said
/// to wait, waited on): a piping stage leaves its child as the carried
/// channel, any other stage leaves nothing.
pub open spec fn spec_after_spawned(m: RunModel) -> RunModel {
    let st = m.stages[m.idx];
    let is_last = m.idx == m.stages.len() - 1;
    let channel = if creates_pipe_spec(st.cmd, is_last) {
        ChannelModel::Process
    } else {
        ChannelModel::Empty
    };
    let done = if m.idx + 1 == m.stages.len() && !(channel is Process) {
        Some(Ok::<ShellStatus, ErrorModel>(ShellStatus::Continue))
    } else {
        None
    };
    RunModel { stages: m.stages, idx: m.idx + 1, channel, done }
}

/// The state after an external command's name could not be resolved: the
/// run fails with command-not-found and nothing later starts.
pub open spec fn spec_after_resolve_failed(m: RunModel) -> RunModel {
    RunModel {
        stages: m.stages,
        idx: m.idx,
        channel: m.channel,
        done: Some(Err(ErrorModel::CommandNotFound(m.stages[m.idx].cmd.command))),
    }
}

/// The state after a spawn failed: the run fails, naming the command and
/// the cause.
pub open spec fn spec_after_spawn_failed(m: RunModel, source: Seq<char>) -> RunModel {
    RunModel {
        stages: m.stages,
        idx: m.idx,
        channel: m.channel,
        done: Some(
            Err(ErrorModel::ProcessStart { command: m.stages[m.idx].cmd.command, source }),
        ),
    }
}

/// The state after any other I/O failure (opening a redirection file,
/// feeding a buffer, waiting on a child): the run fails with that error.
pub open spec fn spec_after_io_failed(m: RunModel, e: ErrorModel) -> RunModel {
    RunModel { stages: m.stages, idx: m.idx, channel: m.channel, done: Some(Err(e)) }
}

/// The state after the carried process of a finished pipeline was reaped.
pub open spec fn spec_after_waited(m: RunModel) -> RunModel {
    RunModel {
        stages: m.stages,
        idx: m.idx,
        channel: ChannelModel::Empty,
        done: Some(Ok(ShellStatus::Continue)),
    }
}

impl PipelineRun {
    /// The next instruction, or nothing once the run is over.
    pub fn next_action(&self) -> (r: Option<StageAction>)
        ensures
            match r {
                Some(a) => spec_next_action(self@) == Some(a@),
                None => spec_next_action(self@) is None,
            },
    {
        if self.done.is_some() {
            return None;
        }
        let reap_carried = matches!(self.channel, ChannelState::Process);
        if self.idx < self.stages.len() {
            let st = &self.stages[self.idx];
            let is_last = self.idx == self.stages.len() - 1;
            let stderr_file = match &st.cmd.stderr_redirect {
                Some(p) => Some((p.clone(), st.cmd.stderr_redirect_append)),
                None => None,
            };
            match st.builtin {
                Some(kind) => {
                    let sink = match &st.cmd.stdout_redirect {
                        Some(p) => BuiltinSink::RedirectFile {
                            path: p.clone(),
                            append: st.cmd.stdout_redirect_append,
                        },
                        None => {
                            if !is_last {
                                BuiltinSink::PipeBuffer
                            } else {
                                BuiltinSink::Terminal
                            }
                        },
                    };
                    Some(
                        StageAction::RunBuiltin {
                            kind,
                            args: clone_strings(&st.cmd.args),
                            sink,
                            stderr_file,
                            reap_carried,
                        },
                    )
                },
                None => {
                    let stdin = match &self.channel {
                        ChannelState::Process => StdinSource::FromCarriedProcess,
                        ChannelState::Buffer(b) => StdinSource::FromBuffer(b.clone()),
                        ChannelState::Empty => StdinSource::Inherit,
                    };
                    let stdout = match &st.cmd.stdout_redirect {
                        Some(p) => StdoutSink::RedirectFile {
                            path: p.clone(),
                            append: st.cmd.stdout_redirect_append,
                        },
                        None => {
                            if !is_last {
                                StdoutSink::Pipe
                            } else {
                                StdoutSink::Inherit
                            }
                        },
                    };
                    let stderr = match &st.cmd.stderr_redirect {
                        Some(p) => StderrSink::RedirectFile {
                            path: p.clone(),
                            append: st.cmd.stderr_redirect_append,
                        },
                        None => StderrSink::Inherit,
                    };
                    let wait = !(st.cmd.stdout_redirect.is_none() && !is_last);
                    Some(
                        StageAction::SpawnExternal {
                            command: st.cmd.command.clone(),
                            args: clone_strings(&st.cmd.args),
                            stdin,
                            stdout,
                            stderr,
                            wait,
                            reap_carried,
                        },
                    )
                },
            }
        } else if matches!(self.channel, ChannelState::Process) {
            Some(StageAction::WaitCarried)
        } else {
            None
        }
    }

    /// Reports what a builtin stage did: its output text and its result.
    /// The returned directive, if any, names the stderr redirection file to
    /// which the driver appends the swallowed failure's message.
    pub fn report_builtin(
        &mut self,
        output: String,
        result: Result<ShellStatus, ShellError>,
    ) -> (directive: Option<(String, String)>)
        requires
            run_wf(old(self)@),
            spec_next_action(old(self)@) matches Some(
                StageActionModel::RunBuiltin { .. },
            ),
        ensures
            run_wf(final(self)@),
            ({
                let (m2, d) = spec_after_builtin(old(self)@, output@, res_view(result));
                final(self)@ == m2 && (match directive {
                    Some(p) => d == Some((p.0@, p.1@)),
                    None => d is None,
                })
            }),
    {
        let is_last = self.idx == self.stages.len() - 1;
        match result {
            Ok(status) => {
                if matches!(status, ShellStatus::Exit) {
                    self.idx = self.idx + 1;
                    self.done = Some(Ok(ShellStatus::Exit));
                    None
                } else {
                    let piping = self.stages[self.idx].cmd.stdout_redirect.is_none() && !is_last;
                    if piping {
                        self.channel = ChannelState::Buffer(output);
                    } else {
                        self.channel = ChannelState::Empty;
                    }
                    self.idx = self.idx + 1;
                    if self.idx == self.stages.len() {
                        self.done = Some(Ok(ShellStatus::Continue));
                    }
                    None
                }
            },
            Err(e) => {
                let redirect = match &self.stages[self.idx].cmd.stderr_redirect {
                    Some(p) => Some(p.clone()),
                    None => None,
                };
                match redirect {
                    Some(path) => {
                        let mut message = e.message();
                        message.append("\n");
                        proof {
                            reveal_strlit("\n");
                            assert(message@ =~= model_message(e@) + seq!['\n']);
                        }
                        self.channel = ChannelState::Empty;
                        self.idx = self.idx + 1;
                        if self.idx == self.stages.len() {
                            self.done = Some(Ok(ShellStatus::Continue));
                        }
                        Some((path, message))
                    },
                    None => {
                        self.done = Some(Err(e));
                        None
                    },
                }
            },
        }
    }

    /// Reports that the external stage was spawned as instructed, and
    /// waited on where the plan said to wait.
    pub fn report_spawned(&mut self)
        requires
            run_wf(old(self)@),
            spec_next_action(old(self)@) matches Some(
                StageActionModel::SpawnExternal { .. },
            ),
        ensures
            run_wf(final(self)@),
            final(self)@ == spec_after_spawned(old(self)@),
    {
        let is_last = self.idx == self.stages.len() - 1;
        let piping = self.stages[self.idx].cmd.stdout_redirect.is_none() && !is_last;
        if piping {
            self.channel = ChannelState::Process;
        } else {
            self.channel = ChannelState::Empty;
        }
        self.idx = self.idx + 1;
        if self.idx == self.stages.len() && !piping {
            self.done = Some(Ok(ShellStatus::Continue));
        }
    }

    /// Reports that the external command's name did not resolve to any
    /// executable: the run fails with command-not-found.
    pub fn report_resolve_failed(&mut self)
        requires
            run_wf(old(self)@),
            spec_next_action(old(self)@) matches Some(
                StageActionModel::SpawnExternal { .. },
            ),
        ensures
            run_wf(final(self)@),
            final(self)@ == spec_after_resolve_failed(old(self)@),
    {
        let command = self.stages[self.idx].cmd.command.clone();
        self.done = Some(Err(ShellError::CommandNotFound(command)));
    }

    /// Reports that spawning the external command failed, with the cause's
    /// text.
    pub fn report_spawn_failed(&mut self, source: String)
        requires
            run_wf(old(self)@),
            spec_next_action(old(self)@) matches Some(
                StageActionModel::SpawnExternal { .. },
            ),
        ensures
            run_wf(final(self)@),
            final(self)@ == spec_after_spawn_failed(old(self)@, source@),
    {
        let command = self.stages[self.idx].cmd.command.clone();
        self.done = Some(Err(ShellError::ProcessStart { command, source }));
    }

    /// Reports any other I/O failure while carrying out the current action:
    /// the run fails with that error.
    pub fn report_io_failed(&mut self, error: ShellError)
        requires
            run_wf(old(self)@),
            spec_next_action(old(self)@) is Some,
        ensures
            run_wf(final(self)@),
            final(self)@ == spec_after_io_failed(old(self)@, error@),
    {
        self.done = Some(Err(error));
    }

    /// Reports that the carried process of a finished pipeline was waited
    /// on: the run completes.
    pub fn report_waited(&mut self)
        requires
            run_wf(old(self)@),
            spec_next_action(old(self)@) == Some(StageActionModel::WaitCarried),
        ensures
            run_wf(final(self)@),
            final(self)@ == spec_after_waited(old(self)@),
    {
        self.channel = ChannelState::Empty;
        self.done = Some(Ok(ShellStatus::Continue));
    }

    /// The run's outcome, once no action remains.
    pub fn into_outcome(self) -> (r: Option<Result<ShellStatus, ShellError>>)
        ensures
            outcome_view(r) == self@.done,
    {
        self.done
    }
}

/// Sets pipelines up against the session registry and starts their runs.
pub struct ShellExecutor<'a> {
    registry: &'a CommandRegistry,
}

impl<'a> ShellExecutor<'a> {
    pub fn new(registry: &'a CommandRegistry) -> (r: ShellExecutor<'a>)
        ensures
            r.spec_registry() == registry@,
    {
        ShellExecutor { registry }
    }

    /// The session registry the executor resolves builtins against.
    pub closed spec fn spec_registry(&self) -> RegistryModel {
        self.registry@
    }

    /// Begins a run: resolves each stage's builtin against the registry and
    /// sets the machine at the first stage. An empty pipeline is already
    /// complete, with `Continue`.
    pub fn start(&self, pipeline: &Vec<ParsedCommand>) -> (run: PipelineRun)
        ensures
            run_wf(run@),
            run@.stages.len() == pipeline@.len(),
            forall|i: int|
                0 <= i < pipeline@.len() ==> (#[trigger] run@.stages[i]).cmd == pipeline@[i]@
                    && run@.stages[i].builtin == find_builtin(
                    self.spec_registry().builtins,
                    pipeline@[i]@.command,
                ),
            run@.idx == 0,
            run@.channel is Empty,
            run@.done == (if pipeline@.len() == 0 {
                Some(Ok::<ShellStatus, ErrorModel>(ShellStatus::Continue))
            } else {
                None::<Result<ShellStatus, ErrorModel>>
            }),
    {
        let mut stages: Vec<PipelineStage> = Vec::new();
        let mut i: usize = 0;
        while i < pipeline.len()
            invariant
                i <= pipeline@.len(),
                stages@.len() == i,
                forall|j: int|
                    0 <= j < i ==> (#[trigger] stages@[j]).cmd@ == pipeline@[j]@
                        && stages@[j].builtin == find_builtin(
                        self.spec_registry().builtins,
                        pipeline@[j]@.command,
                    ),
            decreases pipeline@.len() - i,
        {
            let cmd = pipeline[i].clone();
            let builtin = self.registry.get_builtin(cmd.command.as_str());
            stages.push(PipelineStage { cmd, builtin });
            i = i + 1;
        }
        let done: Option<Result<ShellStatus, ShellError>> = if pipeline.len() == 0 {
            Some(Ok(ShellStatus::Continue))
        } else {
            None
        };
        let run = PipelineRun { stages, idx: 0, channel: ChannelState::Empty, done };
        proof {
            assert forall|i2: int| 0 <= i2 < pipeline@.len() implies ((#[trigger] run@.stages[i2]).cmd
                == pipeline@[i2]@ && run@.stages[i2].builtin == find_builtin(
                self.spec_registry().builtins,
                pipeline@[i2]@.command,
            )) by {
                assert(run@.stages[i2].cmd == stages@[i2].cmd@);
            }
        }
        run
    }
}

/// A builtin stage that pipes forward hands the next stage exactly its own
/// output: after it reports success mid-pipeline with no stdout
/// redirection, the channel buffers precisely its output text, and an
/// external stage that follows is fed exactly those bytes on its standard
/// input.
pub proof fn lemma_builtin_output_feeds_next(m: RunModel, output: Seq<char>)
    requires
        run_wf(m),
        spec_next_action(m) matches Some(StageActionModel::RunBuiltin { sink, .. })
            && sink is PipeBuffer,
    ensures
        ({
            let (m2, _) = spec_after_builtin(m, output, Ok(ShellStatus::Continue));
            &&& m2.channel == ChannelModel::Buffer(output)
            &&& (m2.idx < m2.stages.len() && m2.stages[m2.idx].builtin is None
                ==> (spec_next_action(m2) matches Some(
                StageActionModel::SpawnExternal { stdin, .. },
            ) && stdin == StdinModel::FromBuffer(output)))
        }),
{
    let (m2, _) = spec_after_builtin(m, output, Ok(ShellStatus::Continue));
    assert(m2.channel == ChannelModel::Buffer(output));
}

/// While a process is carried, every instruction the machine issues has it
/// reaped: the stage that consumes its pipe is told to wait on it, and a
/// finished pipeline is told to wait before completing. Together with the
/// run invariant — a run that completed with `Continue` carries no process —
/// every child spawned in such a run is eventually waited on.
pub proof fn lemma_carried_process_always_reaped(m: RunModel)
    requires
        run_wf(m),
        m.channel is Process,
        m.done is None,
    ensures
        match spec_next_action(m) {
            Some(StageActionModel::RunBuiltin { reap_carried, .. }) => reap_carried,
            Some(StageActionModel::SpawnExternal { reap_carried, .. }) => reap_carried,
            Some(StageActionModel::WaitCarried) => true,
            None => false,
        },
{
}

/// A run that completed with `Continue` holds no running process.
pub proof fn lemma_continue_completion_carries_nothing(m: RunModel)
    requires
        run_wf(m),
        m.done == Some(Ok::<ShellStatus, ErrorModel>(ShellStatus::Continue)),
    ensures
        !(m.channel is Process),
{
}

/// An external command that does not resolve fails the whole run with
/// command-not-found, and no later stage of that run is started: the
/// machine issues no further action.
pub proof fn lemma_not_found_stops_run(m: RunModel)
    requires
        run_wf(m),
        spec_next_action(m) matches Some(StageActionModel::SpawnExternal { .. }),
    ensures
        ({
            let m2 = spec_after_resolve_failed(m);
            &&& m2.done == Some(
                Err::<ShellStatus, ErrorModel>(
                    ErrorModel::CommandNotFound(m.stages[m.idx].cmd.command),
                ),
            )
            &&& spec_next_action(m2) is None
        }),
{
}

} // verus!

