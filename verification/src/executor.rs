//! Per-task execution: how a task's command is resolved, when the task is
//! skipped without running, how the end of its process is classified, and
//! what is reported of it.
use crate::cli::Args;
use crate::config::{Settings, TaskConfig, TaskSpec, DEFAULT_TIMEOUT_SECS};
use crate::dispatcher::Bin;
use crate::keychain::command_exists;
use crate::negotiator::{
    auth_action, auth_step, denial_text, involves_user, lemma_denial_text_not_empty, unattended,
    AuthAction, AuthEvent, AuthState, Denial, Purpose,
};
use crate::notifications::{
    failed_notice, interactive_input_notice, notice_specs, timeout_notice, Notice,
    NotificationManager, NoticeSpec,
};
use crate::paths::{expand_tilde, expands_to, path_exists};
use crate::text::{
    contains, decimal, has_substring, is_blank, join, joined, lowercase, to_lowercase, trim,
    trimmed, u64_to_string,
};
use std::collections::HashMap;
use vstd::prelude::*;

verus! {

/// Task execution status.
#[derive(Debug, Clone, Copy, PartialEq, Eq, Structural)]
pub enum TaskStatus {
    Success,
    Failed,
    Skipped,
}

/// A span of time: whole seconds and the nanoseconds beyond them.
#[derive(Debug, Clone, Copy, PartialEq, Eq, Structural)]
pub struct Elapsed {
    pub secs: u64,
    /// Below one second when the value is well formed.
    pub nanos: u32,
}

impl Elapsed {
    /// Whether the nanoseconds stay below one second.
    pub open spec fn wf(self) -> bool {
        self.nanos < 1_000_000_000
    }

    /// The span in nanoseconds.
    pub open spec fn total_nanos(self) -> nat {
        (self.secs * 1_000_000_000 + self.nanos) as nat
    }

    /// A span of `secs` seconds and `nanos` nanoseconds. Whole seconds
    /// among the nanoseconds are carried over; a span beyond the largest
    /// one is the largest one.
    pub fn new(secs: u64, nanos: u32) -> (e: Elapsed)
        ensures
            e.wf(),
            secs + nanos / 1_000_000_000 <= u64::MAX ==> e == (Elapsed {
                secs: (secs + nanos / 1_000_000_000) as u64,
                nanos: nanos % 1_000_000_000,
            }),
            secs + nanos / 1_000_000_000 > u64::MAX ==> e == (Elapsed {
                secs: u64::MAX,
                nanos: 999_999_999,
            }),
    {
        let carry: u64 = (nanos / 1_000_000_000) as u64;
        match secs.checked_add(carry) {
            Some(total) => Elapsed { secs: total, nanos: nanos % 1_000_000_000 },
            None => Elapsed { secs: u64::MAX, nanos: 999_999_999 },
        }
    }

    /// Whole seconds of the span.
    pub fn as_secs(&self) -> (s: u64)
        ensures
            s == self.secs,
    {
        self.secs
    }

    /// Whether this span comes before `other`: fewer seconds, or as many
    /// and fewer nanoseconds.
    pub open spec fn shorter(self, other: Elapsed) -> bool {
        self.secs < other.secs || (self.secs == other.secs && self.nanos < other.nanos)
    }

    /// Whether this span is strictly shorter than `other`.
    pub fn shorter_than(&self, other: &Elapsed) -> (b: bool)
        ensures
            b == self.shorter(*other),
            self.wf() && other.wf() ==> b == (self.total_nanos() < other.total_nanos()),
    {
        self.secs < other.secs || (self.secs == other.secs && self.nanos < other.nanos)
    }
}

/// What a task result says, with every string as its characters.
pub struct ResultSpec {
    pub name: Seq<char>,
    pub group: Seq<char>,
    pub group_icon: Seq<char>,
    pub status: TaskStatus,
    pub duration: Elapsed,
    pub output: Option<Seq<char>>,
}

/// Task execution result.
#[derive(Debug, PartialEq, Eq)]
pub struct TaskResult {
    pub name: String,
    pub group: String,
    pub group_icon: String,
    pub status: TaskStatus,
    pub duration: Elapsed,
    /// Captured standard output on success, the reason on skip and failure.
    pub output: Option<String>,
}

impl View for TaskResult {
    type V = ResultSpec;

    open spec fn view(&self) -> ResultSpec {
        ResultSpec {
            name: self.name@,
            group: self.group@,
            group_icon: self.group_icon@,
            status: self.status,
            duration: self.duration,
            output: self.output.deep_view(),
        }
    }
}

/// The results of `results`, each by its view.
pub open spec fn result_specs(results: Seq<TaskResult>) -> Seq<ResultSpec> {
    Seq::new(results.len(), |i: int| results[i]@)
}

impl TaskResult {
    /// A failure always carries its reason, and the reason is not empty.
    pub open spec fn wf(&self) -> bool {
        self.status == TaskStatus::Failed ==> (self.output matches Some(reason) && reason@.len()
            > 0)
    }
}

/// A number of seconds as shown to the user: seconds alone below a minute,
/// minutes and seconds from there on.
pub open spec fn duration_text(secs: nat) -> Seq<char> {
    if secs < 60 {
        decimal(secs) + "s"@
    } else {
        decimal(secs / 60) + "m "@ + decimal(secs % 60) + "s"@
    }
}

/// Format duration for display.
pub fn format_duration(d: Elapsed) -> (s: String)
    ensures
        s@ == duration_text(d.secs as nat),
{
    let secs = d.as_secs();
    if secs < 60 {
        let mut s = u64_to_string(secs);
        s.append("s");
        s
    } else {
        let mut s = u64_to_string(secs / 60);
        s.append("m ");
        s.append(u64_to_string(secs % 60).as_str());
        s.append("s");
        s
    }
}

/// A group's label: the name alone when the icon is blank, else the icon
/// as given, a space and the name.
pub open spec fn group_label(name: Seq<char>, icon: Seq<char>) -> Seq<char> {
    if is_blank(icon) {
        name
    } else {
        icon + " "@ + name
    }
}

/// A label with a trimmed icon: the name alone when the icon is blank, else
/// the icon without surrounding white space, a space and the name.
pub open spec fn icon_label(name: Seq<char>, icon: Seq<char>) -> Seq<char> {
    if is_blank(icon) {
        name
    } else {
        trimmed(icon) + " "@ + name
    }
}

/// The label of a group in progress messages and log lines.
pub fn format_group_label(name: &str, icon: &str) -> (s: String)
    ensures
        s@ == group_label(name@, icon@),
{
    if trim(icon).is_empty() {
        name.to_owned()
    } else {
        let mut s = icon.to_owned();
        s.append(" ");
        s.append(name);
        s
    }
}

/// The label of a task in progress messages and log lines.
pub fn format_task_label(name: &str, icon: &str) -> (s: String)
    ensures
        s@ == icon_label(name@, icon@),
{
    let icon = trim(icon);
    if icon.is_empty() {
        name.to_owned()
    } else {
        let mut s = icon.to_owned();
        s.append(" ");
        s.append(name);
        s
    }
}

/// The argument vector a task runs with: the task's own, with the
/// escalation command put in front when the task asks for elevation and
/// does not name it itself.
pub open spec fn resolved_command(task: TaskSpec) -> Seq<Seq<char>> {
    if task.sudo && task.command.len() > 0 && task.command[0] != "sudo"@ {
        seq!["sudo"@] + task.command
    } else {
        task.command
    }
}

/// Whether a task runs through the escalation command.
pub open spec fn runs_elevated(task: TaskSpec) -> bool {
    resolved_command(task).len() > 0 && resolved_command(task)[0] == "sudo"@
}

/// The arguments handed to the escalation command for an elevated task:
/// the resolved command without its first word.
pub open spec fn elevated_args(task: TaskSpec) -> Seq<Seq<char>> {
    if resolved_command(task).len() == 0 {
        Seq::empty()
    } else {
        resolved_command(task).skip(1)
    }
}

/// A command as shown in the log.
pub open spec fn command_text(command: Seq<Seq<char>>) -> Seq<char> {
    if command.len() == 0 {
        "<empty command>"@
    } else {
        joined(command, " "@)
    }
}

/// Whether `word` is the escalation command.
pub fn is_escalation(word: &String) -> (b: bool)
    ensures
        b == (word@ == "sudo"@),
{
    let sudo = "sudo".to_owned();
    *word == sudo
}

/// Copies the strings of `words` from index `from` on to the end of `out`.
fn push_words(out: &mut Vec<String>, words: &Vec<String>, from: usize)
    requires
        from <= words.len(),
    ensures
        final(out)@ == old(out)@ + words@.skip(from as int),
        final(out).deep_view() == old(out).deep_view() + words.deep_view().skip(from as int),
{
    let mut i: usize = from;
    while i < words.len()
        invariant
            from <= i <= words.len(),
            out@ == old(out)@ + words@.subrange(from as int, i as int),
        decreases words.len() - i,
    {
        out.push(words[i].clone());
        i += 1;
    }
}

impl TaskConfig {
    /// The argument vector the task runs with.
    pub fn resolved_command(&self) -> (cmd: Vec<String>)
        ensures
            cmd.deep_view() == resolved_command(self@),
    {
        let mut cmd: Vec<String> = Vec::new();
        if self.sudo && self.command.len() > 0 && !is_escalation(&self.command[0]) {
            cmd.push("sudo".to_owned());
        }
        push_words(&mut cmd, &self.command, 0);
        cmd
    }

    /// Whether the task runs through the escalation command.
    pub fn runs_elevated(&self) -> (b: bool)
        ensures
            b == runs_elevated(self@),
    {
        self.command.len() > 0 && (self.sudo || is_escalation(&self.command[0]))
    }

    /// The arguments handed to the escalation command when the task runs
    /// elevated.
    pub fn elevated_args(&self) -> (args: Vec<String>)
        ensures
            args.deep_view() == elevated_args(self@),
    {
        let cmd = self.resolved_command();
        let mut args: Vec<String> = Vec::new();
        if cmd.len() > 0 {
            push_words(&mut args, &cmd, 1);
        }
        args
    }

    /// The task's command as shown in the log.
    pub fn command_display(&self) -> (s: String)
        ensures
            s@ == command_text(resolved_command(self@)),
    {
        let cmd = self.resolved_command();
        if cmd.len() == 0 {
            "<empty command>".to_owned()
        } else {
            join(&cmd, " ")
        }
    }

    /// Seconds the task's command may take: its own timeout, or five
    /// minutes when it names none.
    pub fn timeout_secs(&self) -> (t: u64)
        ensures
            t == match self.timeout {
                Some(t) => t,
                None => DEFAULT_TIMEOUT_SECS,
            },
    {
        match self.timeout {
            Some(t) => t,
            None => DEFAULT_TIMEOUT_SECS,
        }
    }
}

/// Why a task was skipped without running.
#[derive(Debug, PartialEq, Eq)]
pub enum SkipReason {
    /// The run is a dry run.
    DryRun,
    /// The executable the task depends on was not found.
    CommandNotFound { command: String },
    /// The path the task depends on does not exist.
    PathNotFound { path: String },
}

/// Why running a task's command failed.
#[derive(Debug, PartialEq, Eq)]
pub enum Failure {
    /// The task has no command.
    EmptyCommand,
    /// The process ended with a status other than zero.
    Exit { stderr: String },
    /// The process could not be started; `error` holds the system's own
    /// words, which may be none.
    Spawn { error: String },
    /// The escalation command could not be started.
    ElevatedSpawn,
    /// Waiting for the process broke down.
    Join { error: String },
    /// The process did not end within the task's timeout.
    Timeout { seconds: u64 },
    /// Elevation was not authorized.
    NotAuthorized { denial: Denial },
}

/// How running a task ended, before the task's `required` flag is applied.
#[derive(Debug, PartialEq, Eq)]
pub enum RunOutcome {
    /// The process ended with status zero; `stdout` is what it printed.
    Succeeded { stdout: String },
    Skipped { reason: SkipReason },
    Failed { failure: Failure },
}

/// What came of starting a process and waiting for it.
#[derive(Debug, PartialEq, Eq)]
pub enum ProcessOutcome {
    /// The process ended; `success` says whether with status zero.
    Exited { success: bool, stdout: String, stderr: String },
    /// The process could not be started.
    SpawnFailed { error: String },
    /// Waiting for the process broke down.
    JoinFailed { error: String },
    /// The deadline passed first; the process was abandoned.
    TimedOut,
}

/// The reason reported for a skip.
pub open spec fn skip_text(reason: SkipReason) -> Seq<char> {
    match reason {
        SkipReason::DryRun => "Dry run - command not executed"@,
        SkipReason::CommandNotFound { command } => "Command '"@ + command@ + "' not found"@,
        SkipReason::PathNotFound { path } => "Path '"@ + path@ + "' not found"@,
    }
}

/// The reason reported for a failure.
pub open spec fn failure_text(failure: Failure) -> Seq<char> {
    match failure {
        Failure::EmptyCommand => "Empty command"@,
        Failure::Exit { stderr } => "Command failed: "@ + stderr@,
        Failure::Spawn { error } => if error@.len() > 0 {
            error@
        } else {
            "Failed to execute command"@
        },
        Failure::ElevatedSpawn => "Failed to execute sudo command"@,
        Failure::Join { error } => "Command execution error: "@ + error@,
        Failure::Timeout { seconds } => "Command timed out after "@ + decimal(seconds as nat)
            + " seconds. This may indicate the command is waiting for input (like sudo password). Consider setting 'sudo: true' or 'timeout: <seconds>' in the task config."@,
        Failure::NotAuthorized { denial } => denial_text(Purpose::RunElevated, denial),
    }
}

/// The reason reported for a failure is never empty.
pub proof fn lemma_failure_text_not_empty(failure: Failure)
    ensures
        failure_text(failure).len() > 0,
{
    reveal_strlit("Empty command");
    reveal_strlit("Command failed: ");
    reveal_strlit("Failed to execute command");
    reveal_strlit("Failed to execute sudo command");
    reveal_strlit("Command execution error: ");
    reveal_strlit("Command timed out after ");
    if failure is NotAuthorized {
        lemma_denial_text_not_empty(Purpose::RunElevated, failure->denial);
    }
}

/// What a task's result carries as output: the captured standard output on
/// success, else the reason.
pub open spec fn outcome_text(outcome: RunOutcome) -> Seq<char> {
    match outcome {
        RunOutcome::Succeeded { stdout } => stdout@,
        RunOutcome::Skipped { reason } => skip_text(reason),
        RunOutcome::Failed { failure } => failure_text(failure),
    }
}

/// The status a task ends with: a failure counts as such only for a
/// required task, and degrades to a skip for an optional one.
pub open spec fn outcome_status(required: bool, outcome: RunOutcome) -> TaskStatus {
    match outcome {
        RunOutcome::Succeeded { .. } => TaskStatus::Success,
        RunOutcome::Skipped { .. } => TaskStatus::Skipped,
        RunOutcome::Failed { .. } => if required {
            TaskStatus::Failed
        } else {
            TaskStatus::Skipped
        },
    }
}

/// How the end of a process counts. A process that could not be started is
/// reported with the system's words when it ran directly, and plainly as a
/// failure of the escalation command when it ran elevated.
pub open spec fn process_result(elevated: bool, timeout: u64, outcome: ProcessOutcome) -> RunOutcome {
    match outcome {
        ProcessOutcome::Exited { success, stdout, stderr } => if success {
            RunOutcome::Succeeded { stdout }
        } else {
            RunOutcome::Failed { failure: Failure::Exit { stderr } }
        },
        ProcessOutcome::SpawnFailed { error } => if elevated {
            RunOutcome::Failed { failure: Failure::ElevatedSpawn }
        } else {
            RunOutcome::Failed { failure: Failure::Spawn { error } }
        },
        ProcessOutcome::JoinFailed { error } => RunOutcome::Failed {
            failure: Failure::Join { error },
        },
        ProcessOutcome::TimedOut => RunOutcome::Failed {
            failure: Failure::Timeout { seconds: timeout },
        },
    }
}

impl SkipReason {
    /// The reason as reported.
    pub fn message(&self) -> (s: String)
        ensures
            s@ == skip_text(*self),
    {
        match self {
            SkipReason::DryRun => "Dry run - command not executed".to_owned(),
            SkipReason::CommandNotFound { command } => {
                let mut s = "Command '".to_owned();
                s.append(command.as_str());
                s.append("' not found");
                s
            },
            SkipReason::PathNotFound { path } => {
                let mut s = "Path '".to_owned();
                s.append(path.as_str());
                s.append("' not found");
                s
            },
        }
    }
}

impl Failure {
    /// The reason as reported. It is never empty: where the system gave
    /// no word of why a process could not be started, a fixed text stands
    /// in.
    pub fn message(&self) -> (s: String)
        ensures
            s@ == failure_text(*self),
            s@.len() > 0,
    {
        proof {
            lemma_failure_text_not_empty(*self);
        }
        match self {
            Failure::EmptyCommand => "Empty command".to_owned(),
            Failure::Exit { stderr } => {
                let mut s = "Command failed: ".to_owned();
                s.append(stderr.as_str());
                s
            },
            Failure::Spawn { error } => {
                if error.as_str().is_empty() {
                    "Failed to execute command".to_owned()
                } else {
                    error.clone()
                }
            },
            Failure::ElevatedSpawn => "Failed to execute sudo command".to_owned(),
            Failure::Join { error } => {
                let mut s = "Command execution error: ".to_owned();
                s.append(error.as_str());
                s
            },
            Failure::Timeout { seconds } => {
                let mut s = "Command timed out after ".to_owned();
                s.append(u64_to_string(*seconds).as_str());
                s.append(
                    " seconds. This may indicate the command is waiting for input (like sudo password). Consider setting 'sudo: true' or 'timeout: <seconds>' in the task config.",
                );
                s
            },
            Failure::NotAuthorized { denial } => denial.message(Purpose::RunElevated),
        }
    }
}

impl RunOutcome {
    /// What the task's result carries as output.
    pub fn message(&self) -> (s: String)
        ensures
            s@ == outcome_text(*self),
    {
        match self {
            RunOutcome::Succeeded { stdout } => stdout.clone(),
            RunOutcome::Skipped { reason } => reason.message(),
            RunOutcome::Failed { failure } => failure.message(),
        }
    }

    /// The status the task ends with.
    pub fn status(&self, required: bool) -> (status: TaskStatus)
        ensures
            status == outcome_status(required, *self),
    {
        match self {
            RunOutcome::Succeeded { .. } => TaskStatus::Success,
            RunOutcome::Skipped { .. } => TaskStatus::Skipped,
            RunOutcome::Failed { .. } => {
                if required {
                    TaskStatus::Failed
                } else {
                    TaskStatus::Skipped
                }
            },
        }
    }
}

impl ProcessOutcome {
    /// How the end of the process counts for a task with the given timeout.
    pub fn into_result(self, elevated: bool, timeout: u64) -> (r: RunOutcome)
        ensures
            r == process_result(elevated, timeout, self),
    {
        match self {
            ProcessOutcome::Exited { success, stdout, stderr } => {
                if success {
                    RunOutcome::Succeeded { stdout }
                } else {
                    RunOutcome::Failed { failure: Failure::Exit { stderr } }
                }
            },
            ProcessOutcome::SpawnFailed { error } => {
                if elevated {
                    RunOutcome::Failed { failure: Failure::ElevatedSpawn }
                } else {
                    RunOutcome::Failed { failure: Failure::Spawn { error } }
                }
            },
            ProcessOutcome::JoinFailed { error } => RunOutcome::Failed {
                failure: Failure::Join { error },
            },
            ProcessOutcome::TimedOut => RunOutcome::Failed {
                failure: Failure::Timeout { seconds: timeout },
            },
        }
    }
}

/// What a command that is run may read from its standard input. There is
/// the empty source and nothing else: a command is never attached to a
/// terminal or a pipe, so that it cannot wait for an answer that nobody can
/// give.
#[derive(Debug, Clone, Copy, PartialEq, Eq, Structural)]
pub enum StandardInput {
    Empty,
}

/// How a command is run directly.
#[derive(Debug, PartialEq, Eq)]
pub struct DirectRun {
    /// Argument vector; index 0 is the executable.
    pub command: Vec<String>,
    /// What the command may read.
    pub stdin: StandardInput,
    /// Directory to run in, tilde-expanded.
    pub working_dir: Option<String>,
    /// Variables added to the environment.
    pub env: HashMap<String, String>,
    /// Seconds after which the process is abandoned.
    pub timeout_secs: u64,
    /// Whether standard output and error are captured rather than passed
    /// through.
    pub capture_output: bool,
}

/// What a direct run says, with every string as its characters.
pub struct DirectRunSpec {
    pub command: Seq<Seq<char>>,
    pub stdin: StandardInput,
    pub working_dir: Option<Seq<char>>,
    pub env: Map<String, String>,
    pub timeout_secs: u64,
    pub capture_output: bool,
}

impl View for DirectRun {
    type V = DirectRunSpec;

    open spec fn view(&self) -> DirectRunSpec {
        DirectRunSpec {
            command: self.command.deep_view(),
            stdin: self.stdin,
            working_dir: self.working_dir.deep_view(),
            env: self.env@,
            timeout_secs: self.timeout_secs,
            capture_output: self.capture_output,
        }
    }
}

/// Where the execution of one task stands.
#[derive(Debug, PartialEq, Eq)]
pub enum TaskPhase {
    /// Dry run: a short pause stands in for the command.
    Simulating,
    /// The task runs elevated and the session is being negotiated.
    Authorizing(AuthState),
    /// The command is to run, or runs, under the escalation command.
    RunningElevated,
    /// The command is to run, or runs, directly.
    RunningDirect,
    /// The task is over.
    Done(RunOutcome),
}

/// The outside work that a phase asks for.
#[derive(Debug, PartialEq, Eq)]
pub enum TaskAction {
    /// Wait this long.
    Pause { millis: u64 },
    /// Perform a step of the negotiation.
    Negotiate(AuthAction),
    /// Run the escalation command with `args`, for at most `timeout_secs`,
    /// reading from `stdin`.
    SpawnElevated { args: Vec<String>, timeout_secs: u64, stdin: StandardInput },
    /// Run a command directly.
    SpawnDirect(DirectRun),
    /// Nothing: the task is over.
    Finish,
}

/// What the outside work came to.
#[derive(Debug, PartialEq, Eq)]
pub enum TaskEvent {
    /// The pause is over.
    Paused,
    /// A step of the negotiation was answered.
    Negotiated(AuthEvent),
    /// The process is over.
    Exited(ProcessOutcome),
}

/// Milliseconds a dry run pauses in place of the command.
pub const DRY_RUN_PAUSE_MS: u64 = 100;

/// Seconds a task's command may take.
pub open spec fn timeout_of(task: TaskConfig) -> u64 {
    match task.timeout {
        Some(t) => t,
        None => DEFAULT_TIMEOUT_SECS,
    }
}

/// The phase a task starts in. `command_found` and `path_found` answer the
/// task's preconditions; each counts only where the task states that
/// precondition, and neither in a dry run. The executable is looked at
/// before the path.
pub open spec fn start_phase(
    dry_run: bool,
    task: TaskConfig,
    command_found: bool,
    path_found: bool,
) -> TaskPhase {
    if dry_run {
        TaskPhase::Simulating
    } else if task.check_command is Some && !command_found {
        TaskPhase::Done(
            RunOutcome::Skipped {
                reason: SkipReason::CommandNotFound { command: task.check_command->0 },
            },
        )
    } else if task.check_path is Some && !path_found {
        TaskPhase::Done(
            RunOutcome::Skipped { reason: SkipReason::PathNotFound { path: task.check_path->0 } },
        )
    } else if task.command@.len() == 0 {
        TaskPhase::Done(RunOutcome::Failed { failure: Failure::EmptyCommand })
    } else if runs_elevated(task@) {
        TaskPhase::Authorizing(AuthState::Unchecked)
    } else {
        TaskPhase::RunningDirect
    }
}

/// The phase of an elevated task once negotiation stands at `auth`.
pub open spec fn after_negotiation(auth: AuthState) -> TaskPhase {
    if auth.granted() {
        TaskPhase::RunningElevated
    } else {
        match auth.denial() {
            Some(denial) => TaskPhase::Done(
                RunOutcome::Failed { failure: Failure::NotAuthorized { denial } },
            ),
            None => TaskPhase::Authorizing(auth),
        }
    }
}

/// What a negotiation is for when the task runs in `bin`: a task of the
/// sequential bin runs on the coordinator, where the user can be asked; a
/// task of the parallel bin runs in a worker, where nobody can.
pub open spec fn run_purpose(bin: Bin) -> Purpose {
    if bin == Bin::Parallel {
        Purpose::RunUnattended
    } else {
        Purpose::RunElevated
    }
}

/// What a negotiation is for when the task runs in `bin`.
pub fn purpose_of(bin: Bin) -> (purpose: Purpose)
    ensures
        purpose == run_purpose(bin),
{
    match bin {
        Bin::Sequential => Purpose::RunElevated,
        Bin::Parallel => Purpose::RunUnattended,
    }
}

/// The phase that follows `phase` on `event` for a task that runs in `bin`.
/// An event that does not answer what the phase asked for changes nothing.
pub open spec fn task_step(task: TaskConfig, bin: Bin, phase: TaskPhase, event: TaskEvent) -> TaskPhase {
    match (phase, event) {
        (TaskPhase::Simulating, TaskEvent::Paused) => TaskPhase::Done(
            RunOutcome::Skipped { reason: SkipReason::DryRun },
        ),
        (TaskPhase::Authorizing(auth), TaskEvent::Negotiated(answer)) => after_negotiation(
            auth_step(run_purpose(bin), auth, answer),
        ),
        (TaskPhase::RunningElevated, TaskEvent::Exited(outcome)) => TaskPhase::Done(
            process_result(true, timeout_of(task), outcome),
        ),
        (TaskPhase::RunningDirect, TaskEvent::Exited(outcome)) => TaskPhase::Done(
            process_result(false, timeout_of(task), outcome),
        ),
        (phase, _) => phase,
    }
}

/// Whether `run` is how `task` runs directly: its own command, environment
/// and timeout, nothing to read, its working directory after tilde
/// expansion, and output captured unless the run is verbose.
pub open spec fn is_direct_run(verbose: bool, task: TaskSpec, run: DirectRunSpec) -> bool {
    &&& run.command == task.command
    &&& run.stdin == StandardInput::Empty
    &&& run.env == task.env
    &&& run.timeout_secs == match task.timeout {
        Some(t) => t,
        None => DEFAULT_TIMEOUT_SECS,
    }
    &&& run.capture_output == !verbose
    &&& match task.working_dir {
        Some(dir) => run.working_dir matches Some(expanded) && expands_to(dir, expanded),
        None => run.working_dir is None,
    }
}

/// Whether `action` is the outside work that `phase` asks for.
pub open spec fn is_task_action(
    verbose: bool,
    task: TaskConfig,
    bin: Bin,
    phase: TaskPhase,
    action: TaskAction,
) -> bool {
    match phase {
        TaskPhase::Simulating => action == (TaskAction::Pause { millis: DRY_RUN_PAUSE_MS }),
        TaskPhase::Authorizing(auth) => action == TaskAction::Negotiate(
            auth_action(run_purpose(bin), auth),
        ),
        TaskPhase::RunningElevated => action matches TaskAction::SpawnElevated {
            args,
            timeout_secs,
            stdin,
        } && args.deep_view() == elevated_args(task@) && timeout_secs == timeout_of(task)
            && stdin == StandardInput::Empty,
        TaskPhase::RunningDirect => action matches TaskAction::SpawnDirect(run) && is_direct_run(
            verbose,
            task@,
            run@,
        ),
        TaskPhase::Done(_) => action == TaskAction::Finish,
    }
}

/// What is reported of a task that ended with `outcome` after `duration`:
/// its own name and its group's, the status that follows from the outcome
/// and from whether the task is required, and the outcome's text.
pub open spec fn result_of(
    task: TaskSpec,
    group: Seq<char>,
    group_icon: Seq<char>,
    outcome: RunOutcome,
    duration: Elapsed,
) -> ResultSpec {
    ResultSpec {
        name: task.name,
        group,
        group_icon,
        status: outcome_status(task.required, outcome),
        duration,
        output: Some(outcome_text(outcome)),
    }
}

/// The result that is reported of `task` once it ended with `outcome`
/// after `duration`. A failure counts as such only if the task is
/// required; for an optional task it is reported as a skip. A failed
/// result always carries a reason that is not empty.
pub fn task_result(
    task: &TaskConfig,
    group_name: String,
    group_icon: String,
    outcome: &RunOutcome,
    duration: Elapsed,
) -> (r: TaskResult)
    ensures
        r@ == result_of(task@, group_name@, group_icon@, *outcome, duration),
        r.wf(),
        r.status == TaskStatus::Failed ==> task.required && outcome is Failed,
{
    proof {
        if outcome is Failed {
            lemma_failure_text_not_empty(outcome->failure);
        }
    }
    TaskResult {
        name: task.name.clone(),
        group: group_name,
        group_icon,
        status: outcome.status(task.required),
        duration,
        output: Some(outcome.message()),
    }
}

/// Task executor: the settings of a run that bear on every task.
#[derive(Debug)]
pub struct TaskExecutor {
    /// Whether commands are only simulated.
    pub dry_run: bool,
    /// Whether commands' output is passed through and hints are given.
    pub verbose: bool,
    pub notifier: NotificationManager,
    /// Whether task traces go to a log.
    pub logging: bool,
    /// Whether progress is shown with spinners rather than plain lines.
    pub show_progress: bool,
}

impl TaskExecutor {
    /// Create a new task executor.
    pub fn new(
        dry_run: bool,
        verbose: bool,
        notifications_enabled: bool,
        show_progress: bool,
        logging: bool,
    ) -> (e: Self)
        ensures
            e.dry_run == dry_run,
            e.verbose == verbose,
            e.notifier.enabled() == notifications_enabled,
            e.show_progress == show_progress,
            e.logging == logging,
    {
        Self {
            dry_run,
            verbose,
            notifier: NotificationManager::new(notifications_enabled),
            logging,
            show_progress,
        }
    }

    /// The executor of a run: a dry run where the command line asks for
    /// one; verbose where the command line or the settings say so; alerts
    /// and spinners where the settings want them and the run is not quiet.
    pub fn for_run(args: &Args, settings: &Settings, logging: bool) -> (e: Self)
        ensures
            e.dry_run == args.dry_run,
            e.verbose == (args.verbose || settings.verbose),
            e.notifier.enabled() == (settings.desktop_notifications && !args.quiet),
            e.show_progress == (settings.show_progress && !args.quiet),
            e.logging == logging,
    {
        Self::new(
            args.dry_run,
            args.verbose || settings.verbose,
            settings.desktop_notifications && !args.quiet,
            settings.show_progress && !args.quiet,
            logging,
        )
    }

    /// The phase `task` starts in, given the answers to its preconditions.
    pub fn start_phase(&self, task: &TaskConfig, command_found: bool, path_found: bool) -> (phase:
        TaskPhase)
        ensures
            phase == start_phase(self.dry_run, *task, command_found, path_found),
    {
        if self.dry_run {
            return TaskPhase::Simulating;
        }
        if !command_found {
            if let Some(command) = &task.check_command {
                return TaskPhase::Done(
                    RunOutcome::Skipped {
                        reason: SkipReason::CommandNotFound { command: command.clone() },
                    },
                );
            }
        }
        if !path_found {
            if let Some(path) = &task.check_path {
                return TaskPhase::Done(
                    RunOutcome::Skipped { reason: SkipReason::PathNotFound { path: path.clone() } },
                );
            }
        }
        if task.command.len() == 0 {
            TaskPhase::Done(RunOutcome::Failed { failure: Failure::EmptyCommand })
        } else if task.runs_elevated() {
            TaskPhase::Authorizing(AuthState::Unchecked)
        } else {
            TaskPhase::RunningDirect
        }
    }

    /// Starts `task`: in a dry run nothing is looked at; else the task's
    /// preconditions are probed, the executable first and the path, after
    /// tilde expansion, only if the executable was found.
    pub fn begin(&self, task: &TaskConfig) -> (phase: TaskPhase)
        ensures
            exists|command_found: bool, path_found: bool|
                phase == start_phase(self.dry_run, *task, command_found, path_found),
    {
        if self.dry_run {
            return self.start_phase(task, true, true);
        }
        let command_found = match &task.check_command {
            Some(command) => command_exists(command.as_str()),
            None => true,
        };
        if !command_found {
            return self.start_phase(task, false, true);
        }
        let path_found = match &task.check_path {
            Some(path) => path_exists(expand_tilde(path.as_str()).as_str()),
            None => true,
        };
        self.start_phase(task, true, path_found)
    }

    /// How `task` runs directly, given its working directory after tilde
    /// expansion.
    pub fn direct_run(&self, task: &TaskConfig, working_dir: Option<String>) -> (run: DirectRun)
        ensures
            run@ == (DirectRunSpec {
                command: task@.command,
                stdin: StandardInput::Empty,
                working_dir: working_dir.deep_view(),
                env: task@.env,
                timeout_secs: timeout_of(*task),
                capture_output: !self.verbose,
            }),
    {
        let mut command: Vec<String> = Vec::new();
        push_words(&mut command, &task.command, 0);
        assert(command.deep_view() =~= task.command.deep_view());
        DirectRun {
            command,
            stdin: StandardInput::Empty,
            working_dir,
            env: task.env.clone(),
            timeout_secs: task.timeout_secs(),
            capture_output: !self.verbose,
        }
    }

    /// The outside work that is due for `task` in `phase`.
    pub fn next_action(&self, task: &TaskConfig, bin: Bin, phase: &TaskPhase) -> (action:
        TaskAction)
        ensures
            is_task_action(self.verbose, *task, bin, *phase, action),
    {
        match phase {
            TaskPhase::Simulating => TaskAction::Pause { millis: DRY_RUN_PAUSE_MS },
            TaskPhase::Authorizing(auth) => TaskAction::Negotiate(
                auth.action(purpose_of(bin)),
            ),
            TaskPhase::RunningElevated => TaskAction::SpawnElevated {
                args: task.elevated_args(),
                timeout_secs: task.timeout_secs(),
                stdin: StandardInput::Empty,
            },
            TaskPhase::RunningDirect => {
                let working_dir = match &task.working_dir {
                    Some(dir) => Some(expand_tilde(dir.as_str())),
                    None => None,
                };
                TaskAction::SpawnDirect(self.direct_run(task, working_dir))
            },
            TaskPhase::Done(_) => TaskAction::Finish,
        }
    }

    /// Ensure sudo authentication is valid before executing tasks, one step
    /// at a time: moves the pre-authorization on with the answer to the
    /// outside step it asked for. It starts from `AuthState::Unchecked`.
    /// This keeps tasks from waiting on a password prompt later; a denial
    /// is advice to the user and stops no task.
    pub fn ensure_sudo_auth(&self, state: AuthState, event: AuthEvent) -> (next: AuthState)
        ensures
            next == auth_step(Purpose::PreAuthorize, state, event),
    {
        state.advance(Purpose::PreAuthorize, event)
    }

    /// Whether pre-authorization is due, given whether the escalation
    /// command was found: never in a dry run nor in a quiet one.
    pub fn preauthorization_due(&self, quiet: bool, escalation_found: bool) -> (due: bool)
        ensures
            due == (!self.dry_run && !quiet && escalation_found),
    {
        !self.dry_run && !quiet && escalation_found
    }

    /// Whether to pre-authorize before the tasks run: never in a dry run
    /// nor in a quiet one, and else if the escalation command is found.
    pub fn wants_preauthorization(&self, quiet: bool) -> (due: bool)
        ensures
            due ==> !self.dry_run && !quiet,
    {
        if self.dry_run || quiet {
            return false;
        }
        self.preauthorization_due(quiet, command_exists("sudo"))
    }

    /// Execute a single task, one step at a time: moves `phase` on with
    /// what the outside work it asked for came to. `bin` says where the
    /// task runs: in the parallel bin nobody can be asked for a secret.
    pub fn execute_task(
        &self,
        task: &TaskConfig,
        bin: Bin,
        phase: TaskPhase,
        event: TaskEvent,
    ) -> (next: TaskPhase)
        ensures
            next == task_step(*task, bin, phase, event),
    {
        match (phase, event) {
            (TaskPhase::Simulating, TaskEvent::Paused) => TaskPhase::Done(
                RunOutcome::Skipped { reason: SkipReason::DryRun },
            ),
            (TaskPhase::Authorizing(auth), TaskEvent::Negotiated(answer)) => {
                let auth = auth.advance(purpose_of(bin), answer);
                if auth.is_granted() {
                    TaskPhase::RunningElevated
                } else {
                    match auth.into_denial() {
                        Ok(denial) => TaskPhase::Done(
                            RunOutcome::Failed { failure: Failure::NotAuthorized { denial } },
                        ),
                        Err(auth) => TaskPhase::Authorizing(auth),
                    }
                }
            },
            (TaskPhase::RunningElevated, TaskEvent::Exited(outcome)) => TaskPhase::Done(
                outcome.into_result(true, task.timeout_secs()),
            ),
            (TaskPhase::RunningDirect, TaskEvent::Exited(outcome)) => TaskPhase::Done(
                outcome.into_result(false, task.timeout_secs()),
            ),
            (phase, _) => phase,
        }
    }
}

/// Whether a hint is due that a task may ask for elevation by itself: the
/// run is verbose, the task does not ask for elevation, and its command,
/// in lower case, mentions the escalation command.
pub open spec fn hints_at_escalation(verbose: bool, task: TaskSpec) -> bool {
    !task.sudo && verbose && task.command.len() > 0 && has_substring(
        lowercase(joined(task.command, " "@)),
        "sudo"@,
    )
}

/// The hint that a task may ask for elevation by itself.
pub open spec fn escalation_hint(name: Seq<char>) -> Seq<char> {
    "⚠️  Task '"@ + name + "' may call sudo internally. Consider setting 'sudo: true'"@
}

/// Whether a command line, given in lower case, mentions the escalation
/// command.
pub fn mentions_escalation(lowered: &str) -> (b: bool)
    ensures
        b == has_substring(lowered@, "sudo"@),
{
    contains(lowered, "sudo")
}

/// What the log says of a command that is about to run.
pub open spec fn start_line(group_label: Seq<char>, task_label: Seq<char>, command: Seq<char>) -> Seq<
    char,
> {
    "▶ ["@ + group_label + "] "@ + task_label + " :: "@ + command
}

/// The word the log puts before a task that ended with `status`.
pub open spec fn status_prefix(status: TaskStatus) -> Seq<char> {
    match status {
        TaskStatus::Success => "✓ SUCCESS"@,
        TaskStatus::Failed => "✗ FAILED"@,
        TaskStatus::Skipped => "○ SKIPPED"@,
    }
}

/// What the log says of a task that ended.
pub open spec fn completion_line(
    group_label: Seq<char>,
    task_label: Seq<char>,
    status: TaskStatus,
    secs: u64,
) -> Seq<char> {
    status_prefix(status) + " ["@ + group_label + "] "@ + task_label + " ("@ + duration_text(
        secs as nat,
    ) + ")"@
}

/// The line above a task's output in the log.
pub open spec fn output_header(group_label: Seq<char>, task_label: Seq<char>) -> Seq<char> {
    "└ output ["@ + group_label + "] "@ + task_label
}

/// The label under which a task's progress is shown.
pub open spec fn progress_text(group_label: Seq<char>, task_label: Seq<char>) -> Seq<char> {
    "["@ + group_label + "] "@ + task_label
}

/// The label under which a task's progress is shown.
pub fn progress_label(group_label: &str, task_label: &str) -> (s: String)
    ensures
        s@ == progress_text(group_label@, task_label@),
{
    let mut s = "[".to_owned();
    s.append(group_label);
    s.append("] ");
    s.append(task_label);
    s
}

/// A block of output that follows a line in the log.
#[derive(Debug, PartialEq, Eq)]
pub struct LogBlock {
    pub header: String,
    pub body: String,
}

/// What goes to the log when a task ends.
#[derive(Debug, PartialEq, Eq)]
pub struct CompletionLog {
    pub line: String,
    /// The task's output, where it is not blank.
    pub block: Option<LogBlock>,
}

/// The alerts that are due for a task that ended with `outcome`: for a
/// timeout one that the task may wait for input and one that it ran out of
/// time, and for any failure of a required task one that it failed. None
/// where alerts are off.
pub open spec fn due_notices(
    enabled: bool,
    task: Seq<char>,
    group: Seq<char>,
    required: bool,
    outcome: RunOutcome,
) -> Seq<NoticeSpec> {
    if !enabled {
        Seq::empty()
    } else {
        match outcome {
            RunOutcome::Failed { failure } => {
                let timing = match failure {
                    Failure::Timeout { seconds } => seq![
                        interactive_input_notice(task, group),
                        timeout_notice(task, group, seconds),
                    ],
                    _ => Seq::empty(),
                };
                if required {
                    timing.push(failed_notice(task, group, failure_text(failure)))
                } else {
                    timing
                }
            },
            _ => Seq::empty(),
        }
    }
}

impl TaskExecutor {
    /// The hint, if one is due, that `task` may ask for elevation by
    /// itself. It is advice only and never keeps a task from running.
    pub fn escalation_hint(&self, task: &TaskConfig) -> (hint: Option<String>)
        ensures
            hint.is_some() == hints_at_escalation(self.verbose, task@),
            hint matches Some(h) ==> h@ == escalation_hint(task.name@),
    {
        if task.sudo || !self.verbose || task.command.len() == 0 {
            return None;
        }
        let line = to_lowercase(join(&task.command, " ").as_str());
        if !mentions_escalation(line.as_str()) {
            return None;
        }
        let mut h = "⚠️  Task '".to_owned();
        h.append(task.name.as_str());
        h.append("' may call sudo internally. Consider setting 'sudo: true'");
        Some(h)
    }

    /// The result that is reported of `task` once it ended with `outcome`
    /// after `duration`; see [`task_result`].
    pub fn task_result(
        &self,
        task: &TaskConfig,
        group_name: String,
        group_icon: String,
        outcome: &RunOutcome,
        duration: Elapsed,
    ) -> (r: TaskResult)
        ensures
            r@ == result_of(task@, group_name@, group_icon@, *outcome, duration),
            r.wf(),
            r.status == TaskStatus::Failed ==> task.required && outcome is Failed,
    {
        task_result(task, group_name, group_icon, outcome, duration)
    }

    /// The alerts that are due for a task that ended with `outcome`, in
    /// the order in which they go out.
    pub fn notices(&self, task_name: &str, group_name: &str, required: bool, outcome: &RunOutcome) -> (v:
        Vec<Notice>)
        ensures
            notice_specs(v@) == due_notices(
                self.notifier.enabled(),
                task_name@,
                group_name@,
                required,
                *outcome,
            ),
    {
        let mut v: Vec<Notice> = Vec::new();
        if let RunOutcome::Failed { failure } = outcome {
            if let Failure::Timeout { seconds } = failure {
                if let Some(n) = self.notifier.notify_interactive_input_detected(
                    task_name,
                    group_name,
                ) {
                    v.push(n);
                }
                if let Some(n) = self.notifier.notify_task_timeout(task_name, group_name, *seconds) {
                    v.push(n);
                }
            }
            if required {
                let reason = failure.message();
                if let Some(n) = self.notifier.notify_task_failed(
                    task_name,
                    group_name,
                    reason.as_str(),
                ) {
                    v.push(n);
                }
            }
        }
        v
    }

    /// The log line for a command that is about to run; none when nothing
    /// is logged.
    pub fn log_task_start(&self, group_label: &str, task_label: &str, command: &str) -> (line:
        Option<String>)
        ensures
            line.is_some() == self.logging,
            line matches Some(l) ==> l@ == start_line(group_label@, task_label@, command@),
    {
        if !self.logging {
            return None;
        }
        let mut l = "▶ [".to_owned();
        l.append(group_label);
        l.append("] ");
        l.append(task_label);
        l.append(" :: ");
        l.append(command);
        Some(l)
    }

    /// What goes to the log when a task ends: a line with status, labels
    /// and duration, and the task's output, trimmed, where it is not
    /// blank. None when nothing is logged.
    pub fn log_task_completion(
        &self,
        group_label: &str,
        task_label: &str,
        status: TaskStatus,
        duration: Elapsed,
        output: Option<&str>,
    ) -> (log: Option<CompletionLog>)
        ensures
            log.is_some() == self.logging,
            log matches Some(entry) ==> {
                &&& entry.line@ == completion_line(
                    group_label@,
                    task_label@,
                    status,
                    duration.secs,
                )
                &&& entry.block.is_some() == (output matches Some(o) && !is_blank(o@))
                &&& entry.block matches Some(block) ==> {
                    &&& block.header@ == output_header(group_label@, task_label@)
                    &&& block.body@ == trimmed(output->0@)
                }
            },
    {
        if !self.logging {
            return None;
        }
        let mut line = match status {
            TaskStatus::Success => "✓ SUCCESS".to_owned(),
            TaskStatus::Failed => "✗ FAILED".to_owned(),
            TaskStatus::Skipped => "○ SKIPPED".to_owned(),
        };
        line.append(" [");
        line.append(group_label);
        line.append("] ");
        line.append(task_label);
        line.append(" (");
        line.append(format_duration(duration).as_str());
        line.append(")");
        let block = match output {
            Some(o) => {
                let body = trim(o);
                if body.is_empty() {
                    None
                } else {
                    let mut header = "└ output [".to_owned();
                    header.append(group_label);
                    header.append("] ");
                    header.append(task_label);
                    Some(LogBlock { header, body: body.to_owned() })
                }
            },
            None => None,
        };
        Some(CompletionLog { line, block })
    }
}

/// The phase a task is in after `events` were reported one after the
/// other, starting from `phase`.
pub open spec fn task_run(
    task: TaskConfig,
    bin: Bin,
    phase: TaskPhase,
    events: Seq<TaskEvent>,
) -> TaskPhase
    decreases events.len(),
{
    if events.len() == 0 {
        phase
    } else {
        task_run(task, bin, task_step(task, bin, phase, events[0]), events.drop_first())
    }
}

/// Whether a phase asks for a process of any kind, be it the task's
/// command or a step of the negotiation.
pub open spec fn wants_process(phase: TaskPhase) -> bool {
    phase is Authorizing || phase is RunningElevated || phase is RunningDirect
}

/// A task that is over stays as it is, whatever is reported of it.
pub proof fn law_done_is_final(
    task: TaskConfig,
    bin: Bin,
    outcome: RunOutcome,
    events: Seq<TaskEvent>,
)
    ensures
        task_run(task, bin, TaskPhase::Done(outcome), events) == TaskPhase::Done(outcome),
    decreases events.len(),
{
    if events.len() > 0 {
        law_done_is_final(task, bin, outcome, events.drop_first());
    }
}

/// In a dry run no process is ever asked for and the task can only end
/// skipped: whatever its preconditions would answer and whatever is
/// reported, the task is either still pausing or over with the dry-run
/// skip.
pub proof fn law_dry_run_never_spawns(
    task: TaskConfig,
    bin: Bin,
    command_found: bool,
    path_found: bool,
    events: Seq<TaskEvent>,
)
    ensures
        ({
            let end = task_run(task, bin, start_phase(true, task, command_found, path_found), events);
            &&& !wants_process(end)
            &&& end == TaskPhase::Simulating || end == TaskPhase::Done(
                RunOutcome::Skipped { reason: SkipReason::DryRun },
            )
            &&& end matches TaskPhase::Done(outcome) ==> outcome_status(task.required, outcome)
                == TaskStatus::Skipped
        }),
    decreases events.len(),
{
    let skipped = RunOutcome::Skipped { reason: SkipReason::DryRun };
    if events.len() > 0 {
        let next = task_step(task, bin, TaskPhase::Simulating, events[0]);
        if next == TaskPhase::Simulating {
            law_dry_run_never_spawns(task, bin, command_found, path_found, events.drop_first());
        } else {
            law_done_is_final(task, bin, skipped, events.drop_first());
        }
    }
}

/// A task whose precondition executable is missing is over before
/// anything runs: it is skipped, the reason names the executable that was
/// looked for, and nothing that is reported changes that.
pub proof fn law_missing_command_skips(
    task: TaskConfig,
    bin: Bin,
    path_found: bool,
    events: Seq<TaskEvent>,
)
    requires
        task.check_command is Some,
    ensures
        ({
            let outcome = RunOutcome::Skipped {
                reason: SkipReason::CommandNotFound { command: task.check_command->0 },
            };
            &&& start_phase(false, task, false, path_found) == TaskPhase::Done(outcome)
            &&& task_run(task, bin, TaskPhase::Done(outcome), events) == TaskPhase::Done(outcome)
            &&& outcome_status(task.required, outcome) == TaskStatus::Skipped
            &&& has_substring(outcome_text(outcome), task.check_command->0@)
        }),
{
    let command = task.check_command->0;
    let outcome = RunOutcome::Skipped { reason: SkipReason::CommandNotFound { command } };
    law_done_is_final(task, bin, outcome, events);
    let text = outcome_text(outcome);
    let at = "Command '"@.len() as int;
    assert(text.subrange(at, at + command@.len()) =~= command@);
}

/// A process that ends with a status other than zero makes an optional
/// task skipped and a required task failed, however it ran.
pub proof fn law_failure_follows_required(
    elevated: bool,
    timeout: u64,
    stdout: String,
    stderr: String,
)
    ensures
        ({
            let outcome = process_result(
                elevated,
                timeout,
                ProcessOutcome::Exited { success: false, stdout, stderr },
            );
            &&& outcome is Failed
            &&& outcome_status(false, outcome) == TaskStatus::Skipped
            &&& outcome_status(true, outcome) == TaskStatus::Failed
        }),
{
}

/// A process that runs out of time always counts as a failure of the run,
/// whichever way it ran.
pub proof fn law_timeout_fails(elevated: bool, timeout: u64)
    ensures
        process_result(elevated, timeout, ProcessOutcome::TimedOut) == (RunOutcome::Failed {
            failure: Failure::Timeout { seconds: timeout },
        }),
        outcome_status(true, process_result(elevated, timeout, ProcessOutcome::TimedOut))
            == TaskStatus::Failed,
{
}

/// An elevated task that finds a cached session runs its command at once:
/// the first thing asked for is the probe of the session, and on a valid
/// session the next is the command itself under the escalation command.
/// The user is not prompted and the secret store is not touched.
pub proof fn law_cached_session_runs_at_once(
    verbose: bool,
    task: TaskConfig,
    bin: Bin,
    command_found: bool,
    path_found: bool,
    first: TaskAction,
    second: TaskAction,
)
    requires
        runs_elevated(task@),
        task.check_command is Some ==> command_found,
        task.check_path is Some ==> path_found,
        is_task_action(
            verbose,
            task,
            bin,
            start_phase(false, task, command_found, path_found),
            first,
        ),
        is_task_action(
            verbose,
            task,
            bin,
            task_step(
                task,
                bin,
                start_phase(false, task, command_found, path_found),
                TaskEvent::Negotiated(AuthEvent::SessionProbed { valid: true }),
            ),
            second,
        ),
    ensures
        first == TaskAction::Negotiate(AuthAction::ProbeSession),
        second matches TaskAction::SpawnElevated { args, timeout_secs, stdin } && args.deep_view()
            == elevated_args(task@) && timeout_secs == timeout_of(task) && stdin
            == StandardInput::Empty,
{
}

/// Whether an event reports a process that ended with status zero.
pub open spec fn is_clean_exit(event: TaskEvent) -> bool {
    event matches TaskEvent::Exited(ProcessOutcome::Exited { success, .. }) && success
}

/// How a task ended, if the phase says that it is over.
pub open spec fn ended_with(phase: TaskPhase) -> Option<RunOutcome> {
    match phase {
        TaskPhase::Done(outcome) => Some(outcome),
        _ => None,
    }
}

/// A task that has not succeeded yet comes to succeed only through a
/// process that ended with status zero.
proof fn lemma_success_needs_clean_exit(
    task: TaskConfig,
    bin: Bin,
    phase: TaskPhase,
    events: Seq<TaskEvent>,
)
    requires
        !(ended_with(phase) matches Some(outcome) && outcome is Succeeded),
        ended_with(task_run(task, bin, phase, events)) matches Some(outcome) && outcome is Succeeded,
    ensures
        exists|i: int| 0 <= i < events.len() && is_clean_exit(#[trigger] events[i]),
    decreases events.len(),
{
    if events.len() > 0 {
        let next = task_step(task, bin, phase, events[0]);
        if ended_with(next) matches Some(outcome) && outcome is Succeeded {
            assert(is_clean_exit(events[0]));
        } else {
            let rest = events.drop_first();
            lemma_success_needs_clean_exit(task, bin, next, rest);
            let i = choose|i: int| 0 <= i < rest.len() && is_clean_exit(#[trigger] rest[i]);
            assert(rest[i] == events[i + 1]);
        }
    }
}

/// Every status has its cause, whatever is reported of a task. A task is
/// failed only if it is required, the run is no dry run, and there is a
/// reason to give, which is never empty. A task succeeds only if the run
/// is no dry run, every precondition it states was met, and a process
/// ended with status zero.
pub proof fn law_status_has_its_cause(
    dry_run: bool,
    task: TaskConfig,
    bin: Bin,
    command_found: bool,
    path_found: bool,
    events: Seq<TaskEvent>,
)
    ensures
        ended_with(
            task_run(task, bin, start_phase(dry_run, task, command_found, path_found), events),
        ) matches Some(outcome) ==> {
            &&& outcome_status(task.required, outcome) == TaskStatus::Failed ==> {
                &&& task.required
                &&& !dry_run
                &&& outcome_text(outcome).len() > 0
            }
            &&& outcome_status(task.required, outcome) == TaskStatus::Success ==> {
                &&& !dry_run
                &&& task.check_command is Some ==> command_found
                &&& task.check_path is Some ==> path_found
                &&& exists|i: int| 0 <= i < events.len() && is_clean_exit(#[trigger] events[i])
            }
        },
{
    let start = start_phase(dry_run, task, command_found, path_found);
    let end = task_run(task, bin, start, events);
    if ended_with(end) is Some {
        let outcome = ended_with(end)->0;
        if dry_run {
            law_dry_run_never_spawns(task, bin, command_found, path_found, events);
        }
        if outcome is Failed {
            lemma_failure_text_not_empty(outcome->failure);
        }
        if outcome is Succeeded {
            if start is Done {
                law_done_is_final(task, bin, start->Done_0, events);
            }
            lemma_success_needs_clean_exit(task, bin, start, events);
        }
    }
}

/// Whether a phase can be reached by a task in a worker: if it negotiates,
/// then in a state that needs nobody to ask.
pub open spec fn worker_phase(phase: TaskPhase) -> bool {
    phase matches TaskPhase::Authorizing(auth) ==> unattended(auth)
}

/// A task in a worker stays among the phases that need nobody to ask.
proof fn lemma_worker_phase_stays(task: TaskConfig, phase: TaskPhase, events: Seq<TaskEvent>)
    requires
        worker_phase(phase),
    ensures
        worker_phase(task_run(task, Bin::Parallel, phase, events)),
    decreases events.len(),
{
    if events.len() > 0 {
        lemma_worker_phase_stays(
            task,
            task_step(task, Bin::Parallel, phase, events[0]),
            events.drop_first(),
        );
    }
}

/// A task of the parallel bin never asks the user for anything and never
/// writes to the secret store, whatever is reported of it: where a secret
/// would have to be typed, the task fails instead.
pub proof fn law_worker_task_never_asks(
    verbose: bool,
    dry_run: bool,
    task: TaskConfig,
    command_found: bool,
    path_found: bool,
    events: Seq<TaskEvent>,
    action: TaskAction,
)
    requires
        is_task_action(
            verbose,
            task,
            Bin::Parallel,
            task_run(
                task,
                Bin::Parallel,
                start_phase(dry_run, task, command_found, path_found),
                events,
            ),
            action,
        ),
    ensures
        !(action matches TaskAction::Negotiate(step) && involves_user(step)),
{
    lemma_worker_phase_stays(
        task,
        start_phase(dry_run, task, command_found, path_found),
        events,
    );
}

} // verus!
