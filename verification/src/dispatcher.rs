//! Task dispatch: which tasks of a configuration run, in which of the two
//! bins, and when each may start.
use crate::cli::Args;
use crate::config::{Config, GroupSpec, TaskConfig, TaskGroup, TaskSpec};
use crate::executor::{
    lemma_failure_text_not_empty, outcome_status, result_of, result_specs, runs_elevated,
    task_result, Elapsed, ResultSpec, RunOutcome, TaskResult, TaskStatus,
};
use vstd::prelude::*;

verus! {

/// A task that was picked for a run, with what it needs of its group.
#[derive(Debug, PartialEq, Eq)]
pub struct PlannedTask {
    pub task: TaskConfig,
    /// Name of the group the task belongs to.
    pub group: String,
    pub group_icon: String,
    /// Whether the group is marked parallel.
    pub parallel: bool,
}

/// What a planned task says, with every string as its characters.
pub struct PlannedSpec {
    pub task: TaskSpec,
    pub group: Seq<char>,
    pub group_icon: Seq<char>,
    pub parallel: bool,
}

impl View for PlannedTask {
    type V = PlannedSpec;

    open spec fn view(&self) -> PlannedSpec {
        PlannedSpec {
            task: self.task@,
            group: self.group@,
            group_icon: self.group_icon@,
            parallel: self.parallel,
        }
    }
}

/// The planned tasks of `tasks`, each by its view.
pub open spec fn planned_specs(tasks: Seq<PlannedTask>) -> Seq<PlannedSpec> {
    Seq::new(tasks.len(), |i: int| tasks[i]@)
}

/// Whether a group passes the group filters of the command line: it is
/// among the groups asked for where any are, and it is not among those to
/// skip.
pub open spec fn group_listed(
    name: Seq<char>,
    only: Option<Seq<Seq<char>>>,
    skip: Option<Seq<Seq<char>>>,
) -> bool {
    &&& only matches Some(names) ==> names.contains(name)
    &&& skip matches Some(names) ==> !names.contains(name)
}

/// Whether a group takes part in a run: it is enabled and passes the group
/// filters.
pub open spec fn group_selected(
    group: GroupSpec,
    only: Option<Seq<Seq<char>>>,
    skip: Option<Seq<Seq<char>>>,
) -> bool {
    group.enabled && group_listed(group.name, only, skip)
}

/// The enabled tasks among the first `n` of a group, in order, each planned
/// with its group.
pub open spec fn planned_of_group(group: GroupSpec, n: int) -> Seq<PlannedSpec>
    decreases n,
{
    if n <= 0 {
        Seq::empty()
    } else if group.tasks[n - 1].enabled {
        planned_of_group(group, n - 1).push(
            PlannedSpec {
                task: group.tasks[n - 1],
                group: group.name,
                group_icon: group.icon,
                parallel: group.parallel,
            },
        )
    } else {
        planned_of_group(group, n - 1)
    }
}

/// The tasks that a run is made of: the enabled tasks of the first `n`
/// groups as far as those take part, in the order of the configuration.
pub open spec fn planned(
    groups: Seq<GroupSpec>,
    n: int,
    only: Option<Seq<Seq<char>>>,
    skip: Option<Seq<Seq<char>>>,
) -> Seq<PlannedSpec>
    decreases n,
{
    if n <= 0 {
        Seq::empty()
    } else if group_selected(groups[n - 1], only, skip) {
        planned(groups, n - 1, only, skip) + planned_of_group(
            groups[n - 1],
            groups[n - 1].tasks.len() as int,
        )
    } else {
        planned(groups, n - 1, only, skip)
    }
}

/// Whether `name` is one of `names`.
pub fn contains_name(names: &Vec<String>, name: &String) -> (found: bool)
    ensures
        found == names.deep_view().contains(name@),
{
    let mut i: usize = 0;
    while i < names.len()
        invariant
            i <= names.len(),
            forall|j: int| 0 <= j < i ==> names.deep_view()[j] != name@,
        decreases names.len() - i,
    {
        if names[i] == *name {
            assert(names.deep_view()[i as int] == name@);
            return true;
        }
        i += 1;
    }
    false
}

/// Whether the group called `name` passes the group filters, and so is
/// shown when the configured tasks are listed.
pub fn is_group_listed(name: &String, only: &Option<Vec<String>>, skip: &Option<Vec<String>>) -> (listed:
    bool)
    ensures
        listed == group_listed(name@, only.deep_view(), skip.deep_view()),
{
    if let Some(names) = only {
        if !contains_name(names, name) {
            return false;
        }
    }
    if let Some(names) = skip {
        if contains_name(names, name) {
            return false;
        }
    }
    true
}

/// Whether `group` takes part in a run with the given group filters.
pub fn is_group_selected(
    group: &TaskGroup,
    only: &Option<Vec<String>>,
    skip: &Option<Vec<String>>,
) -> (selected: bool)
    ensures
        selected == group_selected(group@, only.deep_view(), skip.deep_view()),
{
    group.enabled && is_group_listed(&group.name, only, skip)
}

/// The tasks that a run is made of: every enabled task of every group that
/// takes part, in the order of the configuration. A disabled task is never
/// among them, nor a task of a disabled or filtered group.
pub fn select_tasks(config: &Config, args: &Args) -> (tasks: Vec<PlannedTask>)
    ensures
        planned_specs(tasks@) == planned(
            config@.groups,
            config@.groups.len() as int,
            args.groups.deep_view(),
            args.skip_groups.deep_view(),
        ),
        forall|i: int| 0 <= i < tasks.len() ==> (#[trigger] tasks[i]).task.enabled,
{
    let ghost only = args.groups.deep_view();
    let ghost skip = args.skip_groups.deep_view();
    let mut tasks: Vec<PlannedTask> = Vec::new();
    let mut g: usize = 0;
    while g < config.groups.len()
        invariant
            g <= config.groups.len(),
            only == args.groups.deep_view(),
            skip == args.skip_groups.deep_view(),
            planned_specs(tasks@) == planned(config@.groups, g as int, only, skip),
            forall|i: int| 0 <= i < tasks.len() ==> (#[trigger] tasks[i]).task.enabled,
        decreases config.groups.len() - g,
    {
        let group = &config.groups[g];
        if is_group_selected(group, &args.groups, &args.skip_groups) {
            let ghost before = planned_specs(tasks@);
            let mut t: usize = 0;
            while t < group.tasks.len()
                invariant
                    t <= group.tasks.len(),
                    planned_specs(tasks@) == before + planned_of_group(group@, t as int),
                    forall|i: int| 0 <= i < tasks.len() ==> (#[trigger] tasks[i]).task.enabled,
                decreases group.tasks.len() - t,
            {
                let task = &group.tasks[t];
                if task.enabled {
                    let planned = PlannedTask {
                        task: task.clone(),
                        group: group.name.clone(),
                        group_icon: group.icon.clone(),
                        parallel: group.parallel,
                    };
                    proof {
                        let spec = planned@;
                        let so_far = planned_of_group(group@, t as int);
                        assert((before + so_far).push(spec) =~= before + so_far.push(spec));
                    }
                    tasks.push(planned);
                }
                t += 1;
            }
        }
        g += 1;
    }
    tasks
}

/// Whether a planned task runs in the parallel bin: its group is marked
/// parallel, or parallel execution is on for the run and the task does not
/// ask for elevation.
pub open spec fn runs_parallel(task: PlannedSpec, parallel_execution: bool) -> bool {
    task.parallel || (parallel_execution && !task.task.sudo)
}

/// The tasks among the first `n` of `tasks` that belong to the parallel bin
/// (`parallel`) or to the sequential one (`!parallel`), in order.
pub open spec fn bin_of(
    tasks: Seq<PlannedSpec>,
    n: int,
    parallel_execution: bool,
    parallel: bool,
) -> Seq<PlannedSpec>
    decreases n,
{
    if n <= 0 {
        Seq::empty()
    } else if runs_parallel(tasks[n - 1], parallel_execution) == parallel {
        bin_of(tasks, n - 1, parallel_execution, parallel).push(tasks[n - 1])
    } else {
        bin_of(tasks, n - 1, parallel_execution, parallel)
    }
}

/// The two bins of a run.
#[derive(Debug, PartialEq, Eq)]
pub struct Bins {
    /// Tasks that run one after the other, in the order of the plan.
    pub sequential: Vec<PlannedTask>,
    /// Tasks that run side by side, in the order of the plan.
    pub parallel: Vec<PlannedTask>,
}

/// Splits the planned tasks into the sequential and the parallel bin. Each
/// task lands in exactly one of them, and each bin keeps the plan's order.
pub fn partition(tasks: Vec<PlannedTask>, parallel_execution: bool) -> (bins: Bins)
    ensures
        planned_specs(bins.sequential@) == bin_of(
            planned_specs(tasks@),
            tasks.len() as int,
            parallel_execution,
            false,
        ),
        planned_specs(bins.parallel@) == bin_of(
            planned_specs(tasks@),
            tasks.len() as int,
            parallel_execution,
            true,
        ),
        bins.sequential.len() + bins.parallel.len() == tasks.len(),
{
    let ghost all = planned_specs(tasks@);
    let ghost total = tasks.len();
    let mut sequential: Vec<PlannedTask> = Vec::new();
    let mut parallel: Vec<PlannedTask> = Vec::new();
    for task in it: tasks
        invariant
            all.len() == total,
            it.seq().len() == total,
            forall|i: int| 0 <= i < total ==> (#[trigger] it.seq()[i])@ == all[i],
            planned_specs(sequential@) == bin_of(all, it.index() as int, parallel_execution, false),
            planned_specs(parallel@) == bin_of(all, it.index() as int, parallel_execution, true),
            sequential.len() + parallel.len() == it.index(),
    {
        if task.parallel || (parallel_execution && !task.task.sudo) {
            parallel.push(task);
        } else {
            sequential.push(task);
        }
    }
    Bins { sequential, parallel }
}

/// Number of parallel tasks that may run at a time: the smaller of what the
/// command line asks for and what the configuration allows, and never less
/// than one.
pub open spec fn worker_limit(requested: usize, configured: usize) -> usize {
    let smaller = if requested <= configured {
        requested
    } else {
        configured
    };
    if smaller < 1 {
        1
    } else {
        smaller
    }
}

/// Number of parallel tasks that may run at a time.
pub fn worker_count(requested: usize, configured: usize) -> (limit: usize)
    ensures
        limit == worker_limit(requested, configured),
        limit >= 1,
        requested >= 1 && configured >= 1 ==> limit <= requested && limit <= configured,
{
    let smaller = if requested <= configured {
        requested
    } else {
        configured
    };
    if smaller < 1 {
        1
    } else {
        smaller
    }
}

/// One of the two bins of a run.
#[derive(Debug, Clone, Copy, PartialEq, Eq, Structural)]
pub enum Bin {
    /// Tasks that run one after the other on the coordinator.
    Sequential,
    /// Tasks that run side by side in workers.
    Parallel,
}

/// Where a task of the parallel bin stands.
#[derive(Debug, Clone, Copy, PartialEq, Eq, Structural)]
pub enum Slot {
    Queued,
    Running,
    Finished,
}

/// Where the pre-authorization of a run stands.
#[derive(Debug, Clone, Copy, PartialEq, Eq, Structural)]
pub enum PreAuth {
    /// It is due and has not begun.
    Pending,
    /// The coordinator is at it.
    Running,
    /// It is over, or was never due.
    Over,
}

/// What the dispatcher decides when asked what to do next.
#[derive(Debug, Clone, Copy, PartialEq, Eq, Structural)]
pub enum Dispatch {
    /// Negotiate elevation on the coordinator, before any task starts.
    PreAuthorize,
    /// Start the task at `index` of `bin`.
    Start { bin: Bin, index: usize },
    /// Nothing can start before what is running ends.
    Wait,
    /// The run is over.
    Done,
}

/// Number of running tasks among the first `n` slots.
pub open spec fn running_among(slots: Seq<Slot>, n: int) -> nat
    decreases n,
{
    if n <= 0 {
        0
    } else if slots[n - 1] == Slot::Running {
        running_among(slots, n - 1) + 1
    } else {
        running_among(slots, n - 1)
    }
}

/// Number of finished tasks among the first `n` slots.
pub open spec fn finished_among(slots: Seq<Slot>, n: int) -> nat
    decreases n,
{
    if n <= 0 {
        0
    } else if slots[n - 1] == Slot::Finished {
        finished_among(slots, n - 1) + 1
    } else {
        finished_among(slots, n - 1)
    }
}

/// Number of running tasks among the first `n` that run elevated.
pub open spec fn elevated_among(tasks: Seq<PlannedSpec>, slots: Seq<Slot>, n: int) -> nat
    decreases n,
{
    if n <= 0 {
        0
    } else if slots[n - 1] == Slot::Running && runs_elevated(tasks[n - 1].task) {
        elevated_among(tasks, slots, n - 1) + 1
    } else {
        elevated_among(tasks, slots, n - 1)
    }
}

/// What is reported of a planned task that ended with `outcome` after
/// `duration`: the result carries the task's own name and group.
pub open spec fn planned_result(task: PlannedSpec, outcome: RunOutcome, duration: Elapsed) -> ResultSpec {
    result_of(task.task, task.group, task.group_icon, outcome, duration)
}

/// Whether a result, if it is a failure, carries a reason that is not
/// empty.
pub open spec fn reasoned(result: ResultSpec) -> bool {
    result.status == TaskStatus::Failed ==> (result.output matches Some(reason) && reason.len()
        > 0)
}

/// The state of a dispatcher.
pub struct DispatchModel {
    pub sequential: Seq<PlannedSpec>,
    pub parallel: Seq<PlannedSpec>,
    /// Number of parallel tasks that may run at a time.
    pub limit: nat,
    /// Whether a failure ends the sequential bin.
    pub skip_on_error: bool,
    /// Where the pre-authorization stands.
    pub preauth: PreAuth,
    /// Sequential tasks started so far.
    pub seq_started: nat,
    /// Whether the sequential task started last is still running.
    pub seq_running: bool,
    /// Whether a failure has ended the sequential bin.
    pub halted: bool,
    /// Where each task of the parallel bin stands.
    pub slots: Seq<Slot>,
    /// Parallel tasks started so far.
    pub par_started: nat,
    /// The results reported so far, in the order they came in.
    pub results: Seq<ResultSpec>,
}

impl DispatchModel {
    /// Number of parallel tasks that are running.
    pub open spec fn in_flight(self) -> nat {
        running_among(self.slots, self.slots.len() as int)
    }

    /// Number of parallel tasks that are running elevated.
    pub open spec fn elevated_in_flight(self) -> nat {
        elevated_among(self.parallel, self.slots, self.slots.len() as int)
    }

    /// Number of tasks that have ended.
    pub open spec fn finished(self) -> nat {
        let sequential: nat = if self.seq_running {
            (self.seq_started - 1) as nat
        } else {
            self.seq_started
        };
        sequential + finished_among(self.slots, self.slots.len() as int)
    }

    /// Whether nothing of the sequential bin runs or will start.
    pub open spec fn sequential_over(self) -> bool {
        !self.seq_running && (self.halted || self.seq_started == self.sequential.len())
    }

    /// Whether the next task of the parallel bin has to wait for an equal:
    /// it runs elevated, and so does a task that is running. Elevation is
    /// negotiated for one task at a time.
    pub open spec fn elevation_blocked(self) -> bool {
        &&& self.par_started < self.parallel.len()
        &&& runs_elevated(self.parallel[self.par_started as int].task)
        &&& self.elevated_in_flight() > 0
    }

    /// Well-formedness: no task starts before the pre-authorization is
    /// over; at least one parallel task may run at a time and never more
    /// run than the limit allows, and never more than one of them elevated;
    /// sequential tasks start in order, one at a time; parallel tasks start
    /// in order, and only once the sequential bin is over; every task that
    /// ended has left exactly one result, and every failed result carries
    /// its reason.
    pub open spec fn wf(self) -> bool {
        &&& self.limit >= 1
        &&& self.sequential.len() <= usize::MAX
        &&& self.parallel.len() <= usize::MAX
        &&& self.preauth != PreAuth::Over ==> self.seq_started == 0 && self.par_started == 0
        &&& self.seq_started <= self.sequential.len()
        &&& self.seq_running ==> self.seq_started >= 1 && !self.halted
        &&& self.slots.len() == self.parallel.len()
        &&& self.par_started <= self.slots.len()
        &&& forall|i: int|
            0 <= i < self.slots.len() ==> ((#[trigger] self.slots[i]) == Slot::Queued <==> i
                >= self.par_started)
        &&& self.in_flight() <= self.limit
        &&& self.elevated_in_flight() <= 1
        &&& self.par_started > 0 ==> self.sequential_over()
        &&& self.results.len() == self.finished()
        &&& forall|i: int| 0 <= i < self.results.len() ==> reasoned(#[trigger] self.results[i])
    }

    /// What is to be done next: the pre-authorization comes before every
    /// task; a sequential task waits for the one before it; the parallel
    /// bin opens when the sequential one is over; a parallel task starts as
    /// soon as fewer run than the limit allows, unless it runs elevated and
    /// another elevated task is still running.
    pub open spec fn decision(self) -> Dispatch {
        if self.preauth == PreAuth::Pending {
            Dispatch::PreAuthorize
        } else if self.preauth == PreAuth::Running {
            Dispatch::Wait
        } else if self.seq_running {
            Dispatch::Wait
        } else if !self.halted && self.seq_started < self.sequential.len() {
            Dispatch::Start { bin: Bin::Sequential, index: self.seq_started as usize }
        } else if self.par_started < self.parallel.len() && self.in_flight() < self.limit
            && !self.elevation_blocked() {
            Dispatch::Start { bin: Bin::Parallel, index: self.par_started as usize }
        } else if self.in_flight() > 0 {
            Dispatch::Wait
        } else {
            Dispatch::Done
        }
    }

    /// The state after the decision was taken: what is to start counts as
    /// running.
    pub open spec fn after_dispatch(self) -> DispatchModel {
        match self.decision() {
            Dispatch::PreAuthorize => DispatchModel { preauth: PreAuth::Running, ..self },
            Dispatch::Start { bin: Bin::Sequential, index } => DispatchModel {
                seq_started: self.seq_started + 1,
                seq_running: true,
                ..self
            },
            Dispatch::Start { bin: Bin::Parallel, index } => DispatchModel {
                slots: self.slots.update(index as int, Slot::Running),
                par_started: self.par_started + 1,
                ..self
            },
            _ => self,
        }
    }

    /// The state after the coordinator reported that the pre-authorization
    /// is over, however it ended. Where none is running nothing changes.
    pub open spec fn after_preauthorization(self) -> DispatchModel {
        if self.preauth == PreAuth::Running {
            DispatchModel { preauth: PreAuth::Over, ..self }
        } else {
            self
        }
    }

    /// Whether the task at `index` of `bin` is running, so that its result
    /// is due.
    pub open spec fn accepts(self, bin: Bin, index: usize) -> bool {
        match bin {
            Bin::Sequential => self.seq_running && index == self.seq_started - 1,
            Bin::Parallel => index < self.slots.len() && self.slots[index as int] == Slot::Running,
        }
    }

    /// The task at `index` of `bin`.
    pub open spec fn task_at(self, bin: Bin, index: usize) -> PlannedSpec {
        match bin {
            Bin::Sequential => self.sequential[index as int],
            Bin::Parallel => self.parallel[index as int],
        }
    }

    /// The state after the task at `index` of `bin` ended with `outcome`
    /// after `duration`. Its result is made of the task's own name and
    /// group and kept, and the task's place is free. The failure of a
    /// required task in the sequential bin ends that bin where the run is
    /// set to skip the rest on error. A report on a task that is not
    /// running changes nothing.
    pub open spec fn after_completion(
        self,
        bin: Bin,
        index: usize,
        outcome: RunOutcome,
        duration: Elapsed,
    ) -> DispatchModel {
        if !self.accepts(bin, index) {
            self
        } else {
            let result = planned_result(self.task_at(bin, index), outcome, duration);
            match bin {
                Bin::Sequential => DispatchModel {
                    seq_running: false,
                    halted: self.halted || (self.skip_on_error && result.status
                        == TaskStatus::Failed),
                    results: self.results.push(result),
                    ..self
                },
                Bin::Parallel => DispatchModel {
                    slots: self.slots.update(index as int, Slot::Finished),
                    results: self.results.push(result),
                    ..self
                },
            }
        }
    }
}

/// The state a run starts in. `preauthorize` says whether a
/// pre-authorization is due.
pub open spec fn initial_dispatch(
    sequential: Seq<PlannedSpec>,
    parallel: Seq<PlannedSpec>,
    limit: nat,
    skip_on_error: bool,
    preauthorize: bool,
) -> DispatchModel {
    DispatchModel {
        sequential,
        parallel,
        limit,
        skip_on_error,
        preauth: if preauthorize {
            PreAuth::Pending
        } else {
            PreAuth::Over
        },
        seq_started: 0,
        seq_running: false,
        halted: false,
        slots: Seq::new(parallel.len(), |i: int| Slot::Queued),
        par_started: 0,
        results: Seq::empty(),
    }
}

/// Changing one slot changes the count of running tasks by that slot alone.
pub proof fn lemma_running_update(slots: Seq<Slot>, n: int, i: int, slot: Slot)
    requires
        0 <= i < slots.len(),
        0 <= n <= slots.len(),
    ensures
        running_among(slots.update(i, slot), n) == running_among(slots, n) + (if i < n && slot
            == Slot::Running {
            1int
        } else {
            0int
        }) - (if i < n && slots[i] == Slot::Running {
            1int
        } else {
            0int
        }),
    decreases n,
{
    if n > 0 {
        lemma_running_update(slots, n - 1, i, slot);
    }
}

/// Changing one slot changes the count of finished tasks by that slot alone.
pub proof fn lemma_finished_update(slots: Seq<Slot>, n: int, i: int, slot: Slot)
    requires
        0 <= i < slots.len(),
        0 <= n <= slots.len(),
    ensures
        finished_among(slots.update(i, slot), n) == finished_among(slots, n) + (if i < n && slot
            == Slot::Finished {
            1int
        } else {
            0int
        }) - (if i < n && slots[i] == Slot::Finished {
            1int
        } else {
            0int
        }),
    decreases n,
{
    if n > 0 {
        lemma_finished_update(slots, n - 1, i, slot);
    }
}

/// Changing one slot changes the count of running elevated tasks by that
/// slot alone.
pub proof fn lemma_elevated_update(
    tasks: Seq<PlannedSpec>,
    slots: Seq<Slot>,
    n: int,
    i: int,
    slot: Slot,
)
    requires
        0 <= i < slots.len(),
        0 <= n <= slots.len(),
    ensures
        elevated_among(tasks, slots.update(i, slot), n) == elevated_among(tasks, slots, n) + (if i
            < n && slot == Slot::Running && runs_elevated(tasks[i].task) {
            1int
        } else {
            0int
        }) - (if i < n && slots[i] == Slot::Running && runs_elevated(tasks[i].task) {
            1int
        } else {
            0int
        }),
    decreases n,
{
    if n > 0 {
        lemma_elevated_update(tasks, slots, n - 1, i, slot);
    }
}

/// No more tasks run elevated than run at all.
pub proof fn lemma_elevated_are_running(tasks: Seq<PlannedSpec>, slots: Seq<Slot>, n: int)
    ensures
        elevated_among(tasks, slots, n) <= running_among(slots, n),
    decreases n,
{
    if n > 0 {
        lemma_elevated_are_running(tasks, slots, n - 1);
    }
}

/// Slots that are all queued hold no running and no finished task.
pub proof fn lemma_all_queued(slots: Seq<Slot>, n: int)
    requires
        0 <= n <= slots.len(),
        forall|i: int| 0 <= i < slots.len() ==> slots[i] == Slot::Queued,
    ensures
        running_among(slots, n) == 0,
        finished_among(slots, n) == 0,
    decreases n,
{
    if n > 0 {
        lemma_all_queued(slots, n - 1);
    }
}

/// Slots of which none is queued and none is running are all finished.
pub proof fn lemma_none_running_all_finished(slots: Seq<Slot>, n: int)
    requires
        0 <= n <= slots.len(),
        forall|i: int| 0 <= i < n ==> slots[i] != Slot::Queued,
        running_among(slots, n) == 0,
    ensures
        finished_among(slots, n) == n,
    decreases n,
{
    if n > 0 {
        lemma_none_running_all_finished(slots, n - 1);
    }
}

/// What is reported of a task carries a reason if it is a failure.
pub proof fn lemma_planned_result_reasoned(task: PlannedSpec, outcome: RunOutcome, duration: Elapsed)
    ensures
        reasoned(planned_result(task, outcome, duration)),
{
    if outcome is Failed {
        lemma_failure_text_not_empty(outcome->failure);
    }
}

/// A run starts well formed, with nothing running.
pub proof fn law_initial_dispatch_wf(
    sequential: Seq<PlannedSpec>,
    parallel: Seq<PlannedSpec>,
    limit: nat,
    skip_on_error: bool,
    preauthorize: bool,
)
    requires
        limit >= 1,
        sequential.len() <= usize::MAX,
        parallel.len() <= usize::MAX,
    ensures
        initial_dispatch(sequential, parallel, limit, skip_on_error, preauthorize).wf(),
        initial_dispatch(sequential, parallel, limit, skip_on_error, preauthorize).in_flight() == 0,
        initial_dispatch(
            sequential,
            parallel,
            limit,
            skip_on_error,
            preauthorize,
        ).elevated_in_flight() == 0,
{
    let m = initial_dispatch(sequential, parallel, limit, skip_on_error, preauthorize);
    lemma_all_queued(m.slots, m.slots.len() as int);
    lemma_elevated_are_running(m.parallel, m.slots, m.slots.len() as int);
}

/// Taking a decision keeps the state well formed; in particular a task
/// starts in the parallel bin only while fewer run than the limit allows,
/// and an elevated one only while no other elevated task runs.
pub proof fn law_dispatch_keeps_wf(m: DispatchModel)
    requires
        m.wf(),
    ensures
        m.after_dispatch().wf(),
        m.after_dispatch().in_flight() <= m.limit,
        m.after_dispatch().elevated_in_flight() <= 1,
{
    match m.decision() {
        Dispatch::Start { bin: Bin::Parallel, index } => {
            let n = m.slots.len() as int;
            lemma_running_update(m.slots, n, index as int, Slot::Running);
            lemma_finished_update(m.slots, n, index as int, Slot::Running);
            lemma_elevated_update(m.parallel, m.slots, n, index as int, Slot::Running);
        },
        _ => {},
    }
}

/// The end of the pre-authorization keeps the state well formed.
pub proof fn law_preauthorization_keeps_wf(m: DispatchModel)
    requires
        m.wf(),
    ensures
        m.after_preauthorization().wf(),
{
}

/// Reporting the end of a task keeps the state well formed, whatever is
/// reported.
pub proof fn law_completion_keeps_wf(
    m: DispatchModel,
    bin: Bin,
    index: usize,
    outcome: RunOutcome,
    duration: Elapsed,
)
    requires
        m.wf(),
    ensures
        m.after_completion(bin, index, outcome, duration).wf(),
        m.after_completion(bin, index, outcome, duration).in_flight() <= m.limit,
        m.after_completion(bin, index, outcome, duration).elevated_in_flight() <= 1,
{
    if m.accepts(bin, index) {
        lemma_planned_result_reasoned(m.task_at(bin, index), outcome, duration);
        if bin == Bin::Parallel {
            let n = m.slots.len() as int;
            lemma_running_update(m.slots, n, index as int, Slot::Finished);
            lemma_finished_update(m.slots, n, index as int, Slot::Finished);
            lemma_elevated_update(m.parallel, m.slots, n, index as int, Slot::Finished);
        }
    }
}

/// Something that happens to a dispatcher.
pub enum DispatchOp {
    /// It is asked what to do next.
    Next,
    /// It is told that the pre-authorization is over.
    PreAuthorized,
    /// It is told that a task ended.
    Complete { bin: Bin, index: usize, outcome: RunOutcome, duration: Elapsed },
}

/// The state after `op` happened to `m`.
pub open spec fn dispatch_step(m: DispatchModel, op: DispatchOp) -> DispatchModel {
    match op {
        DispatchOp::Next => m.after_dispatch(),
        DispatchOp::PreAuthorized => m.after_preauthorization(),
        DispatchOp::Complete { bin, index, outcome, duration } => m.after_completion(
            bin,
            index,
            outcome,
            duration,
        ),
    }
}

/// The state after `ops` happened one after the other, starting from `m`.
pub open spec fn dispatch_run(m: DispatchModel, ops: Seq<DispatchOp>) -> DispatchModel
    decreases ops.len(),
{
    if ops.len() == 0 {
        m
    } else {
        dispatch_run(dispatch_step(m, ops[0]), ops.drop_first())
    }
}

/// One thing that happens to a well-formed dispatcher leaves it well
/// formed.
pub proof fn law_step_keeps_wf(m: DispatchModel, op: DispatchOp)
    requires
        m.wf(),
    ensures
        dispatch_step(m, op).wf(),
        dispatch_step(m, op).limit == m.limit,
{
    match op {
        DispatchOp::Next => {
            law_dispatch_keeps_wf(m);
        },
        DispatchOp::PreAuthorized => {
            law_preauthorization_keeps_wf(m);
        },
        DispatchOp::Complete { bin, index, outcome, duration } => {
            law_completion_keeps_wf(m, bin, index, outcome, duration);
        },
    }
}

/// Whatever happens to a well-formed dispatcher, it stays well formed.
pub proof fn law_run_keeps_wf(m: DispatchModel, ops: Seq<DispatchOp>)
    requires
        m.wf(),
    ensures
        dispatch_run(m, ops).wf(),
        dispatch_run(m, ops).limit == m.limit,
    decreases ops.len(),
{
    if ops.len() > 0 {
        law_step_keeps_wf(m, ops[0]);
        law_run_keeps_wf(dispatch_step(m, ops[0]), ops.drop_first());
    }
}

/// The limit holds: where the command line and the configuration each allow
/// at least one task, the number of parallel tasks that run at a time
/// never exceeds the smaller of the two, whatever tasks there are and in
/// whatever order they start and end.
pub proof fn law_limit_never_exceeded(
    requested: usize,
    configured: usize,
    sequential: Seq<PlannedSpec>,
    parallel: Seq<PlannedSpec>,
    skip_on_error: bool,
    preauthorize: bool,
    ops: Seq<DispatchOp>,
)
    requires
        requested >= 1,
        configured >= 1,
        sequential.len() <= usize::MAX,
        parallel.len() <= usize::MAX,
    ensures
        ({
            let start = initial_dispatch(
                sequential,
                parallel,
                worker_limit(requested, configured) as nat,
                skip_on_error,
                preauthorize,
            );
            &&& dispatch_run(start, ops).in_flight() <= requested
            &&& dispatch_run(start, ops).in_flight() <= configured
        }),
{
    let limit = worker_limit(requested, configured) as nat;
    law_initial_dispatch_wf(sequential, parallel, limit, skip_on_error, preauthorize);
    law_run_keeps_wf(
        initial_dispatch(sequential, parallel, limit, skip_on_error, preauthorize),
        ops,
    );
}

/// Elevation is negotiated for one task at a time: whatever tasks there
/// are and in whatever order they start and end, no two elevated tasks
/// ever run side by side. A sequential task runs alone, and of the
/// parallel tasks that run at most one runs elevated.
pub proof fn law_one_elevated_at_a_time(
    sequential: Seq<PlannedSpec>,
    parallel: Seq<PlannedSpec>,
    limit: nat,
    skip_on_error: bool,
    preauthorize: bool,
    ops: Seq<DispatchOp>,
)
    requires
        limit >= 1,
        sequential.len() <= usize::MAX,
        parallel.len() <= usize::MAX,
    ensures
        ({
            let now = dispatch_run(
                initial_dispatch(sequential, parallel, limit, skip_on_error, preauthorize),
                ops,
            );
            &&& now.elevated_in_flight() <= 1
            &&& now.seq_running ==> now.in_flight() == 0
            &&& now.preauth == PreAuth::Running ==> !now.seq_running && now.in_flight() == 0
        }),
{
    let start = initial_dispatch(sequential, parallel, limit, skip_on_error, preauthorize);
    law_initial_dispatch_wf(sequential, parallel, limit, skip_on_error, preauthorize);
    law_run_keeps_wf(start, ops);
    let now = dispatch_run(start, ops);
    if now.par_started == 0 {
        lemma_all_queued(now.slots, now.slots.len() as int);
    }
}

/// The pre-authorization comes first and comes once: no task starts while
/// it is due or under way, and once it is over it is never asked for
/// again.
pub proof fn law_preauthorization_comes_first(m: DispatchModel, ops: Seq<DispatchOp>)
    requires
        m.wf(),
    ensures
        m.decision() is Start ==> m.preauth == PreAuth::Over,
        m.preauth != PreAuth::Pending ==> dispatch_run(m, ops).preauth != PreAuth::Pending
            && dispatch_run(m, ops).decision() != Dispatch::PreAuthorize,
    decreases ops.len(),
{
    if ops.len() > 0 {
        law_step_keeps_wf(m, ops[0]);
        law_preauthorization_comes_first(dispatch_step(m, ops[0]), ops.drop_first());
    }
}

/// Once a failure has ended the sequential bin it stays ended: whatever
/// happens afterwards, no sequential task is started again.
pub proof fn law_halt_is_final(m: DispatchModel, ops: Seq<DispatchOp>)
    requires
        m.wf(),
        m.halted,
    ensures
        dispatch_run(m, ops).halted,
        dispatch_run(m, ops).seq_started == m.seq_started,
        !(dispatch_run(m, ops).decision() matches Dispatch::Start { bin: Bin::Sequential, .. }),
    decreases ops.len(),
{
    if ops.len() > 0 {
        law_step_keeps_wf(m, ops[0]);
        law_halt_is_final(dispatch_step(m, ops[0]), ops.drop_first());
    }
}

/// Where the run is set to skip the rest on error, the failure of a
/// required sequential task ends the sequential bin: the failed result is
/// kept, no later sequential task starts, and the parallel bin is not held
/// back. The failure of an optional task counts as a skip and ends nothing.
pub proof fn law_failure_ends_sequential_bin(
    m: DispatchModel,
    index: usize,
    outcome: RunOutcome,
    duration: Elapsed,
)
    requires
        m.wf(),
        m.skip_on_error,
        m.accepts(Bin::Sequential, index),
        outcome is Failed,
    ensures
        ({
            let task = m.sequential[index as int];
            let after = m.after_completion(Bin::Sequential, index, outcome, duration);
            &&& after.results == m.results.push(planned_result(task, outcome, duration))
            &&& after.halted == (m.halted || task.task.required)
            &&& task.task.required ==> {
                &&& after.results.last().status == TaskStatus::Failed
                &&& after.sequential_over()
                &&& after.parallel.len() > 0 ==> after.decision() == (Dispatch::Start {
                    bin: Bin::Parallel,
                    index: 0,
                })
                &&& after.parallel.len() == 0 ==> after.decision() == Dispatch::Done
            }
        }),
{
    lemma_all_queued(m.slots, m.slots.len() as int);
    lemma_elevated_are_running(m.parallel, m.slots, m.slots.len() as int);
}

/// A parallel task that ends gives its place back, whatever its outcome:
/// one task fewer is running, and if a task is still queued it is the
/// next thing to start, unless it runs elevated and has to wait for an
/// elevated task that is still running.
pub proof fn law_completion_frees_slot(
    m: DispatchModel,
    index: usize,
    outcome: RunOutcome,
    duration: Elapsed,
)
    requires
        m.wf(),
        m.accepts(Bin::Parallel, index),
    ensures
        ({
            let after = m.after_completion(Bin::Parallel, index, outcome, duration);
            &&& after.in_flight() == m.in_flight() - 1
            &&& m.par_started < m.parallel.len() && !after.elevation_blocked() ==> after.decision()
                == (Dispatch::Start { bin: Bin::Parallel, index: m.par_started as usize })
            &&& runs_elevated(m.parallel[index as int].task) ==> !after.elevation_blocked()
        }),
{
    let n = m.slots.len() as int;
    lemma_running_update(m.slots, n, index as int, Slot::Finished);
    lemma_elevated_update(m.parallel, m.slots, n, index as int, Slot::Finished);
}

/// Every result can be told to its task: the result that a task leaves
/// carries that task's name and the name and icon of its group.
pub proof fn law_results_name_their_task(
    m: DispatchModel,
    bin: Bin,
    index: usize,
    outcome: RunOutcome,
    duration: Elapsed,
)
    requires
        m.wf(),
        m.accepts(bin, index),
    ensures
        ({
            let task = m.task_at(bin, index);
            let after = m.after_completion(bin, index, outcome, duration);
            &&& after.results.len() == m.results.len() + 1
            &&& after.results.last().name == task.task.name
            &&& after.results.last().group == task.group
            &&& after.results.last().group_icon == task.group_icon
            &&& after.results.last().status == outcome_status(task.task.required, outcome)
        }),
{
}

/// A run cannot get stuck: the dispatcher waits only while something is
/// under way, and calls the run over only when nothing runs, nothing is
/// left to start, and every task that started has left exactly one result.
/// In a run that no failure has cut short those are all the tasks of both
/// bins.
pub proof fn law_no_deadlock(m: DispatchModel)
    requires
        m.wf(),
    ensures
        m.decision() == Dispatch::Wait ==> m.preauth == PreAuth::Running || m.seq_running
            || m.in_flight() > 0,
        m.decision() == Dispatch::Done ==> {
            &&& m.preauth == PreAuth::Over
            &&& m.sequential_over()
            &&& m.par_started == m.parallel.len()
            &&& m.in_flight() == 0
            &&& m.results.len() == m.seq_started + m.parallel.len()
            &&& !m.halted ==> m.results.len() == m.sequential.len() + m.parallel.len()
        },
{
    lemma_elevated_are_running(m.parallel, m.slots, m.slots.len() as int);
    if m.decision() == Dispatch::Done {
        lemma_none_running_all_finished(m.slots, m.slots.len() as int);
    }
}

/// A task that asks for elevation and whose group is not marked parallel
/// runs in the sequential bin, on the coordinator, whether or not parallel
/// execution is on.
pub proof fn law_elevation_stays_sequential(task: PlannedSpec, parallel_execution: bool)
    requires
        task.task.sudo,
        !task.parallel,
    ensures
        !runs_parallel(task, parallel_execution),
{
}

/// No disabled task is ever planned: every task of a plan is enabled.
pub proof fn law_disabled_never_planned(
    groups: Seq<GroupSpec>,
    only: Option<Seq<Seq<char>>>,
    skip: Option<Seq<Seq<char>>>,
    i: int,
)
    requires
        0 <= i < planned(groups, groups.len() as int, only, skip).len(),
    ensures
        planned(groups, groups.len() as int, only, skip)[i].task.enabled,
{
    lemma_planned_enabled(groups, groups.len() as int, only, skip, i);
}

/// Every task planned from the first `n` groups is enabled.
pub proof fn lemma_planned_enabled(
    groups: Seq<GroupSpec>,
    n: int,
    only: Option<Seq<Seq<char>>>,
    skip: Option<Seq<Seq<char>>>,
    i: int,
)
    requires
        0 <= i < planned(groups, n, only, skip).len(),
    ensures
        planned(groups, n, only, skip)[i].task.enabled,
    decreases n,
{
    if n > 0 {
        let before = planned(groups, n - 1, only, skip);
        if i < before.len() {
            lemma_planned_enabled(groups, n - 1, only, skip, i);
        } else {
            let group = groups[n - 1];
            lemma_group_enabled(group, group.tasks.len() as int, i - before.len());
        }
    }
}

/// Every task planned from the first `n` tasks of a group is enabled.
pub proof fn lemma_group_enabled(group: GroupSpec, n: int, i: int)
    requires
        0 <= i < planned_of_group(group, n).len(),
    ensures
        planned_of_group(group, n)[i].task.enabled,
    decreases n,
{
    if n > 0 {
        if i < planned_of_group(group, n - 1).len() {
            lemma_group_enabled(group, n - 1, i);
        }
    }
}

/// The dispatcher of a run. It owns the two bins, decides what may start
/// next and makes and collects the results.
#[derive(Debug)]
pub struct Dispatcher {
    sequential: Vec<PlannedTask>,
    parallel: Vec<PlannedTask>,
    limit: usize,
    skip_on_error: bool,
    preauth: PreAuth,
    seq_started: usize,
    seq_running: bool,
    halted: bool,
    slots: Vec<Slot>,
    par_started: usize,
    in_flight: usize,
    elevated_in_flight: usize,
    results: Vec<TaskResult>,
}

impl View for Dispatcher {
    type V = DispatchModel;

    closed spec fn view(&self) -> DispatchModel {
        DispatchModel {
            sequential: planned_specs(self.sequential@),
            parallel: planned_specs(self.parallel@),
            limit: self.limit as nat,
            skip_on_error: self.skip_on_error,
            preauth: self.preauth,
            seq_started: self.seq_started as nat,
            seq_running: self.seq_running,
            halted: self.halted,
            slots: self.slots@,
            par_started: self.par_started as nat,
            results: result_specs(self.results@),
        }
    }
}

impl Dispatcher {
    /// Well-formedness: the state is well formed (see `lemma_wf_state`) and
    /// the counts of running tasks are kept up to date.
    pub closed spec fn wf(&self) -> bool {
        &&& self@.wf()
        &&& self.in_flight == self@.in_flight()
        &&& self.elevated_in_flight == self@.elevated_in_flight()
    }

    /// A well-formed dispatcher has a well-formed state, so that what is
    /// proved of the state holds of the dispatcher in hand: no more
    /// parallel tasks run than the limit allows, and no two elevated tasks
    /// run side by side.
    pub proof fn lemma_wf_state(&self)
        requires
            self.wf(),
        ensures
            self@.wf(),
            self@.in_flight() <= self@.limit,
            self@.elevated_in_flight() <= 1,
    {
    }

    /// A dispatcher for the two bins. As many parallel tasks may run at a
    /// time as the smaller of the two limits says, and at least one.
    /// `preauthorize` says whether elevation is to be negotiated before the
    /// first task.
    pub fn new(
        bins: Bins,
        requested: usize,
        configured: usize,
        skip_optional_on_error: bool,
        preauthorize: bool,
    ) -> (d: Dispatcher)
        ensures
            d.wf(),
            d@.wf(),
            d@ == initial_dispatch(
                planned_specs(bins.sequential@),
                planned_specs(bins.parallel@),
                worker_limit(requested, configured) as nat,
                skip_optional_on_error,
                preauthorize,
            ),
    {
        let Bins { sequential, parallel } = bins;
        let mut slots: Vec<Slot> = Vec::new();
        let mut i: usize = 0;
        while i < parallel.len()
            invariant
                i <= parallel.len(),
                slots.len() == i,
                forall|j: int| 0 <= j < i ==> slots[j] == Slot::Queued,
            decreases parallel.len() - i,
        {
            slots.push(Slot::Queued);
            i += 1;
        }
        let d = Dispatcher {
            sequential,
            parallel,
            limit: worker_count(requested, configured),
            skip_on_error: skip_optional_on_error,
            preauth: if preauthorize {
                PreAuth::Pending
            } else {
                PreAuth::Over
            },
            seq_started: 0,
            seq_running: false,
            halted: false,
            slots,
            par_started: 0,
            in_flight: 0,
            elevated_in_flight: 0,
            results: Vec::new(),
        };
        proof {
            let m = initial_dispatch(
                planned_specs(bins.sequential@),
                planned_specs(bins.parallel@),
                worker_limit(requested, configured) as nat,
                skip_optional_on_error,
                preauthorize,
            );
            assert(m.sequential.len() == d.sequential.len() <= usize::MAX);
            assert(m.parallel.len() == d.parallel.len() <= usize::MAX);
            assert(d@.slots =~= m.slots);
            assert(d@.results =~= m.results);
            law_initial_dispatch_wf(
                m.sequential,
                m.parallel,
                m.limit,
                m.skip_on_error,
                preauthorize,
            );
        }
        d
    }

    /// Decides what is to be done next. What is to start counts as running
    /// from here on.
    pub fn next(&mut self) -> (decision: Dispatch)
        requires
            old(self).wf(),
        ensures
            final(self).wf(),
            final(self)@.wf(),
            decision == old(self)@.decision(),
            final(self)@ == old(self)@.after_dispatch(),
    {
        proof {
            law_dispatch_keeps_wf(self@);
            lemma_elevated_are_running(
                planned_specs(self.parallel@),
                self.slots@,
                self.slots@.len() as int,
            );
        }
        match self.preauth {
            PreAuth::Pending => {
                self.preauth = PreAuth::Running;
                return Dispatch::PreAuthorize;
            },
            PreAuth::Running => {
                return Dispatch::Wait;
            },
            PreAuth::Over => {},
        }
        if self.seq_running {
            Dispatch::Wait
        } else if !self.halted && self.seq_started < self.sequential.len() {
            let index = self.seq_started;
            self.seq_started = index + 1;
            self.seq_running = true;
            Dispatch::Start { bin: Bin::Sequential, index }
        } else if self.par_started < self.parallel.len() && self.in_flight < self.limit {
            let index = self.par_started;
            let elevated = self.parallel[index].task.runs_elevated();
            assert(planned_specs(self.parallel@)[index as int] == self.parallel[index as int]@);
            if elevated && self.elevated_in_flight > 0 {
                return Dispatch::Wait;
            }
            proof {
                let n = self.slots@.len() as int;
                lemma_running_update(self.slots@, n, index as int, Slot::Running);
                lemma_elevated_update(
                    planned_specs(self.parallel@),
                    self.slots@,
                    n,
                    index as int,
                    Slot::Running,
                );
            }
            self.slots.set(index, Slot::Running);
            self.par_started = index + 1;
            self.in_flight = self.in_flight + 1;
            if elevated {
                self.elevated_in_flight = self.elevated_in_flight + 1;
            }
            Dispatch::Start { bin: Bin::Parallel, index }
        } else if self.in_flight > 0 {
            Dispatch::Wait
        } else {
            Dispatch::Done
        }
    }

    /// Reports that the pre-authorization is over, however it ended: a
    /// denial is advice to the user and holds no task back.
    pub fn pre_authorized(&mut self)
        requires
            old(self).wf(),
        ensures
            final(self).wf(),
            final(self)@.wf(),
            final(self)@ == old(self)@.after_preauthorization(),
    {
        match self.preauth {
            PreAuth::Running => {
                self.preauth = PreAuth::Over;
            },
            _ => {},
        }
    }

    /// Reports that the task at `index` of `bin` ended with `outcome`
    /// after `duration`, and says whether the report was due. For a report
    /// that is due the task's result is made and kept, and the task's
    /// place among the running is free again; one that is not due, because
    /// that task is not running, is dropped.
    pub fn complete(&mut self, bin: Bin, index: usize, outcome: RunOutcome, duration: Elapsed) -> (accepted:
        bool)
        requires
            old(self).wf(),
        ensures
            final(self).wf(),
            final(self)@.wf(),
            accepted == old(self)@.accepts(bin, index),
            final(self)@ == old(self)@.after_completion(bin, index, outcome, duration),
    {
        proof {
            law_completion_keeps_wf(self@, bin, index, outcome, duration);
        }
        let ghost before = result_specs(self.results@);
        let result = match bin {
            Bin::Sequential => {
                if !self.seq_running || index != self.seq_started - 1 {
                    return false;
                }
                let planned = &self.sequential[index];
                assert(planned_specs(self.sequential@)[index as int] == planned@);
                let result = task_result(
                    &planned.task,
                    planned.group.clone(),
                    planned.group_icon.clone(),
                    &outcome,
                    duration,
                );
                self.seq_running = false;
                if self.skip_on_error && result.status == TaskStatus::Failed {
                    self.halted = true;
                }
                result
            },
            Bin::Parallel => {
                if index >= self.slots.len() || self.slots[index] != Slot::Running {
                    return false;
                }
                let planned = &self.parallel[index];
                assert(planned_specs(self.parallel@)[index as int] == planned@);
                let elevated = planned.task.runs_elevated();
                let result = task_result(
                    &planned.task,
                    planned.group.clone(),
                    planned.group_icon.clone(),
                    &outcome,
                    duration,
                );
                proof {
                    let n = self.slots@.len() as int;
                    lemma_running_update(self.slots@, n, index as int, Slot::Finished);
                    lemma_elevated_update(
                        planned_specs(self.parallel@),
                        self.slots@,
                        n,
                        index as int,
                        Slot::Finished,
                    );
                }
                self.slots.set(index, Slot::Finished);
                self.in_flight = self.in_flight - 1;
                if elevated {
                    self.elevated_in_flight = self.elevated_in_flight - 1;
                }
                result
            },
        };
        proof {
            assert(result_specs(self.results@.push(result)) =~= before.push(result@));
        }
        self.results.push(result);
        true
    }

    /// The task at `index` of `bin`, if there is one.
    pub fn task(&self, bin: Bin, index: usize) -> (task: Option<&PlannedTask>)
        ensures
            match bin {
                Bin::Sequential => if index < self@.sequential.len() {
                    task matches Some(t) && t@ == self@.sequential[index as int]
                } else {
                    task is None
                },
                Bin::Parallel => if index < self@.parallel.len() {
                    task matches Some(t) && t@ == self@.parallel[index as int]
                } else {
                    task is None
                },
            },
    {
        match bin {
            Bin::Sequential => {
                if index < self.sequential.len() {
                    Some(&self.sequential[index])
                } else {
                    None
                }
            },
            Bin::Parallel => {
                if index < self.parallel.len() {
                    Some(&self.parallel[index])
                } else {
                    None
                }
            },
        }
    }

    /// Number of parallel tasks that are running.
    pub fn in_flight(&self) -> (n: usize)
        requires
            self.wf(),
        ensures
            n == self@.in_flight(),
            n <= self@.limit,
    {
        self.in_flight
    }

    /// Number of parallel tasks that are running elevated: none or one.
    pub fn elevated_in_flight(&self) -> (n: usize)
        requires
            self.wf(),
        ensures
            n == self@.elevated_in_flight(),
            n <= 1,
    {
        self.elevated_in_flight
    }

    /// Number of parallel tasks that may run at a time.
    pub fn limit(&self) -> (n: usize)
        ensures
            n == self@.limit,
    {
        self.limit
    }

    /// Whether a failure has ended the sequential bin.
    pub fn is_halted(&self) -> (b: bool)
        ensures
            b == self@.halted,
    {
        self.halted
    }

    /// The results reported so far, in the order they came in.
    pub fn results(&self) -> (results: &Vec<TaskResult>)
        ensures
            result_specs(results@) == self@.results,
    {
        &self.results
    }

    /// Ends the run and hands out its results, in the order they came in.
    pub fn into_results(self) -> (results: Vec<TaskResult>)
        ensures
            result_specs(results@) == self@.results,
    {
        self.results
    }
}

} // verus!
