use std::collections::HashMap;
use tide::cli::Args;
use tide::config::{Config, Settings, TaskConfig, TaskGroup};
use tide::dispatcher::{
    contains_name, is_group_selected, partition, select_tasks, worker_count, Bin, Bins, Dispatch,
    Dispatcher, PlannedTask,
};
use tide::executor::{Elapsed, Failure, RunOutcome, SkipReason, TaskStatus};

fn task(name: &str) -> TaskConfig {
    TaskConfig {
        name: name.to_string(),
        icon: String::new(),
        command: vec!["true".to_string()],
        required: true,
        sudo: false,
        enabled: true,
        check_command: None,
        check_path: None,
        description: String::new(),
        timeout: None,
        env: HashMap::new(),
        working_dir: None,
    }
}

fn group(name: &str, parallel: bool, tasks: Vec<TaskConfig>) -> TaskGroup {
    TaskGroup {
        name: name.to_string(),
        icon: "*".to_string(),
        enabled: true,
        description: String::new(),
        parallel,
        tasks,
    }
}

fn args() -> Args {
    Args {
        quiet: false,
        dry_run: false,
        groups: None,
        skip_groups: None,
        parallel: 4,
        config: None,
        init: false,
        list: false,
        force: false,
        verbose: false,
    }
}

fn config(groups: Vec<TaskGroup>) -> Config {
    Config { settings: Settings::default(), groups }
}

fn planned(name: &str, parallel: bool, sudo: bool) -> PlannedTask {
    let mut t = task(name);
    t.sudo = sudo;
    PlannedTask { task: t, group: "g".to_string(), group_icon: String::new(), parallel }
}

/// An outcome that gives a required task the status `status`.
fn ended(status: TaskStatus) -> RunOutcome {
    match status {
        TaskStatus::Success => RunOutcome::Succeeded { stdout: String::new() },
        TaskStatus::Failed => RunOutcome::Failed {
            failure: Failure::Exit { stderr: "broken".to_string() },
        },
        TaskStatus::Skipped => RunOutcome::Skipped { reason: SkipReason::DryRun },
    }
}

fn span() -> Elapsed {
    Elapsed { secs: 1, nanos: 0 }
}

fn names(tasks: &[PlannedTask]) -> Vec<String> {
    tasks.iter().map(|p| p.task.name.clone()).collect()
}

fn strings(items: &[&str]) -> Vec<String> {
    items.iter().map(|s| s.to_string()).collect()
}

#[test]
fn disabled_tasks_are_never_planned() {
    let mut off = task("off");
    off.enabled = false;
    let c = config(vec![group("g", false, vec![task("a"), off, task("c")])]);
    let plan = select_tasks(&c, &args());
    assert_eq!(names(&plan), strings(&["a", "c"]));
    assert!(plan.iter().all(|p| p.task.enabled));
}

#[test]
fn disabled_groups_are_never_planned() {
    let mut g = group("g", false, vec![task("a")]);
    g.enabled = false;
    let c = config(vec![g, group("h", true, vec![task("b")])]);
    let plan = select_tasks(&c, &args());
    assert_eq!(names(&plan), strings(&["b"]));
    assert_eq!(plan[0].group, "h");
    assert_eq!(plan[0].group_icon, "*");
    assert!(plan[0].parallel);
}

#[test]
fn plan_follows_the_configuration_order() {
    let c = config(vec![
        group("one", false, vec![task("a"), task("b")]),
        group("two", true, vec![task("c")]),
        group("three", false, vec![task("d"), task("e")]),
    ]);
    let plan = select_tasks(&c, &args());
    assert_eq!(names(&plan), strings(&["a", "b", "c", "d", "e"]));
    let groups: Vec<String> = plan.iter().map(|p| p.group.clone()).collect();
    assert_eq!(groups, strings(&["one", "one", "two", "three", "three"]));
}

#[test]
fn only_the_groups_asked_for_are_planned() {
    let c = config(vec![
        group("one", false, vec![task("a")]),
        group("two", false, vec![task("b")]),
        group("three", false, vec![task("c")]),
    ]);
    let mut a = args();
    a.groups = Some(strings(&["three", "one"]));
    assert_eq!(names(&select_tasks(&c, &a)), strings(&["a", "c"]));
    a.groups = Some(vec![]);
    assert!(select_tasks(&c, &a).is_empty());
}

#[test]
fn skipped_groups_are_left_out() {
    let c = config(vec![
        group("one", false, vec![task("a")]),
        group("two", false, vec![task("b")]),
    ]);
    let mut a = args();
    a.skip_groups = Some(strings(&["one"]));
    assert_eq!(names(&select_tasks(&c, &a)), strings(&["b"]));
    a.groups = Some(strings(&["one"]));
    assert!(select_tasks(&c, &a).is_empty());
}

#[test]
fn empty_configuration_plans_nothing() {
    assert!(select_tasks(&config(vec![]), &args()).is_empty());
    assert!(select_tasks(&config(vec![group("g", false, vec![])]), &args()).is_empty());
}

#[test]
fn group_names_are_matched_exactly() {
    let list = strings(&["Homebrew", "System Updates"]);
    assert!(contains_name(&list, &"Homebrew".to_string()));
    assert!(!contains_name(&list, &"homebrew".to_string()));
    assert!(!contains_name(&list, &"System".to_string()));
    assert!(!contains_name(&vec![], &"x".to_string()));
    let g = group("Homebrew", false, vec![]);
    assert!(is_group_selected(&g, &None, &None));
    assert!(is_group_selected(&g, &Some(list.clone()), &None));
    assert!(!is_group_selected(&g, &None, &Some(list)));
}

#[test]
fn tasks_of_parallel_groups_run_in_parallel() {
    let plan = vec![
        planned("a", false, false),
        planned("b", true, false),
        planned("c", true, true),
        planned("d", false, true),
    ];
    let bins = partition(plan, false);
    assert_eq!(names(&bins.sequential), strings(&["a", "d"]));
    assert_eq!(names(&bins.parallel), strings(&["b", "c"]));
}

#[test]
fn parallel_execution_moves_all_but_elevated_tasks() {
    let plan = vec![
        planned("a", false, false),
        planned("b", false, true),
        planned("c", true, true),
        planned("d", false, false),
    ];
    let bins = partition(plan, true);
    assert_eq!(names(&bins.sequential), strings(&["b"]));
    assert_eq!(names(&bins.parallel), strings(&["a", "c", "d"]));
    let empty = partition(vec![], true);
    assert!(empty.sequential.is_empty() && empty.parallel.is_empty());
}

#[test]
fn worker_count_is_the_smaller_limit_and_at_least_one() {
    assert_eq!(worker_count(4, 2), 2);
    assert_eq!(worker_count(2, 4), 2);
    assert_eq!(worker_count(3, 3), 3);
    assert_eq!(worker_count(0, 4), 1);
    assert_eq!(worker_count(4, 0), 1);
    assert_eq!(worker_count(0, 0), 1);
    assert_eq!(worker_count(1, usize::MAX), 1);
    assert_eq!(worker_count(usize::MAX, usize::MAX), usize::MAX);
}

#[test]
fn failed_required_task_ends_the_sequential_bin() {
    let bins = Bins {
        sequential: vec![planned("A", false, false), planned("B", false, false), planned("C", false, false)],
        parallel: vec![],
    };
    let mut d = Dispatcher::new(bins, 4, 4, true, false);
    assert_eq!(d.next(), Dispatch::Start { bin: Bin::Sequential, index: 0 });
    assert_eq!(d.next(), Dispatch::Wait);
    assert!(d.complete(Bin::Sequential, 0, ended(TaskStatus::Success), span()));
    assert_eq!(d.next(), Dispatch::Start { bin: Bin::Sequential, index: 1 });
    assert!(d.complete(Bin::Sequential, 1, ended(TaskStatus::Failed), span()));
    assert!(d.is_halted());
    assert_eq!(d.next(), Dispatch::Done);
    assert_eq!(d.next(), Dispatch::Done);
    let results = d.into_results();
    let seen: Vec<(String, TaskStatus)> =
        results.iter().map(|r| (r.name.clone(), r.status)).collect();
    assert_eq!(
        seen,
        vec![
            ("A".to_string(), TaskStatus::Success),
            ("B".to_string(), TaskStatus::Failed)
        ]
    );
}

#[test]
fn failure_does_not_end_the_bin_unless_asked_to() {
    let bins = Bins {
        sequential: vec![planned("A", false, false), planned("B", false, false)],
        parallel: vec![],
    };
    let mut d = Dispatcher::new(bins, 4, 4, false, false);
    assert_eq!(d.next(), Dispatch::Start { bin: Bin::Sequential, index: 0 });
    assert!(d.complete(Bin::Sequential, 0, ended(TaskStatus::Failed), span()));
    assert!(!d.is_halted());
    assert_eq!(d.next(), Dispatch::Start { bin: Bin::Sequential, index: 1 });
}

#[test]
fn skipped_task_does_not_end_the_bin() {
    let bins = Bins {
        sequential: vec![planned("A", false, false), planned("B", false, false)],
        parallel: vec![],
    };
    let mut d = Dispatcher::new(bins, 4, 4, true, false);
    assert_eq!(d.next(), Dispatch::Start { bin: Bin::Sequential, index: 0 });
    assert!(d.complete(Bin::Sequential, 0, ended(TaskStatus::Skipped), span()));
    assert_eq!(d.next(), Dispatch::Start { bin: Bin::Sequential, index: 1 });
}

#[test]
fn sequential_failure_leaves_the_parallel_bin_alone() {
    let bins = Bins {
        sequential: vec![planned("A", false, false), planned("B", false, false)],
        parallel: vec![planned("P", true, false), planned("Q", true, false)],
    };
    let mut d = Dispatcher::new(bins, 1, 1, true, false);
    assert_eq!(d.next(), Dispatch::Start { bin: Bin::Sequential, index: 0 });
    assert!(d.complete(Bin::Sequential, 0, ended(TaskStatus::Failed), span()));
    assert_eq!(d.next(), Dispatch::Start { bin: Bin::Parallel, index: 0 });
    assert_eq!(d.next(), Dispatch::Wait);
    assert!(d.complete(Bin::Parallel, 0, ended(TaskStatus::Failed), span()));
    assert_eq!(d.next(), Dispatch::Start { bin: Bin::Parallel, index: 1 });
    assert!(d.complete(Bin::Parallel, 1, ended(TaskStatus::Success), span()));
    assert_eq!(d.next(), Dispatch::Done);
    assert_eq!(d.results().len(), 3);
}

#[test]
fn five_parallel_tasks_never_run_more_than_two_at_a_time() {
    let bins = Bins {
        sequential: vec![],
        parallel: (0..5).map(|i| planned(&format!("job{}", i), true, false)).collect(),
    };
    let mut d = Dispatcher::new(bins, 2, 8, false, false);
    assert_eq!(d.limit(), 2);
    let mut running: Vec<usize> = Vec::new();
    let mut peak = 0;
    let mut steps = 0;
    loop {
        steps += 1;
        assert!(steps < 100);
        match d.next() {
            Dispatch::Start { bin, index } => {
                assert_eq!(bin, Bin::Parallel);
                running.push(index);
            }
            Dispatch::Wait => {
                // The task that started last ends first.
                let index = running.pop().unwrap();
                assert!(d.complete(Bin::Parallel, index, ended(TaskStatus::Success), span()));
            }
            Dispatch::Done => break,
            Dispatch::PreAuthorize => panic!("no pre-authorization is due"),
        }
        assert_eq!(d.in_flight(), running.len());
        assert!(d.in_flight() <= 2);
        peak = peak.max(d.in_flight());
    }
    assert_eq!(peak, 2);
    assert!(running.is_empty());
    let mut done: Vec<String> = d.results().iter().map(|r| r.name.clone()).collect();
    assert_eq!(done.len(), 5);
    done.sort();
    assert_eq!(done, strings(&["job0", "job1", "job2", "job3", "job4"]));
}

#[test]
fn parallel_tasks_start_in_order_once_sequential_ones_are_done() {
    let bins = Bins {
        sequential: vec![planned("s", false, false)],
        parallel: vec![planned("p", true, false), planned("q", true, false)],
    };
    let mut d = Dispatcher::new(bins, 8, 8, false, false);
    assert_eq!(d.next(), Dispatch::Start { bin: Bin::Sequential, index: 0 });
    assert_eq!(d.next(), Dispatch::Wait);
    assert_eq!(d.in_flight(), 0);
    assert!(d.complete(Bin::Sequential, 0, ended(TaskStatus::Success), span()));
    assert_eq!(d.next(), Dispatch::Start { bin: Bin::Parallel, index: 0 });
    assert_eq!(d.next(), Dispatch::Start { bin: Bin::Parallel, index: 1 });
    assert_eq!(d.in_flight(), 2);
    assert_eq!(d.next(), Dispatch::Wait);
    assert!(d.complete(Bin::Parallel, 1, ended(TaskStatus::Success), span()));
    assert_eq!(d.in_flight(), 1);
    assert!(d.complete(Bin::Parallel, 0, ended(TaskStatus::Skipped), span()));
    assert_eq!(d.next(), Dispatch::Done);
    let order: Vec<String> = d.results().iter().map(|r| r.name.clone()).collect();
    assert_eq!(order, strings(&["s", "q", "p"]));
}

#[test]
fn a_task_that_times_out_gives_its_place_back() {
    let bins = Bins {
        sequential: vec![],
        parallel: vec![planned("slow", true, false), planned("next", true, false)],
    };
    let mut d = Dispatcher::new(bins, 1, 1, true, false);
    assert_eq!(d.next(), Dispatch::Start { bin: Bin::Parallel, index: 0 });
    assert_eq!(d.next(), Dispatch::Wait);
    assert_eq!(d.in_flight(), 1);
    assert!(d.complete(Bin::Parallel, 0, ended(TaskStatus::Failed), span()));
    assert_eq!(d.in_flight(), 0);
    assert_eq!(d.next(), Dispatch::Start { bin: Bin::Parallel, index: 1 });
}

#[test]
fn results_that_are_not_due_are_dropped() {
    let bins = Bins {
        sequential: vec![planned("s", false, false)],
        parallel: vec![planned("p", true, false)],
    };
    let mut d = Dispatcher::new(bins, 2, 2, false, false);
    assert!(!d.complete(Bin::Sequential, 0, ended(TaskStatus::Success), span()));
    assert!(!d.complete(Bin::Parallel, 0, ended(TaskStatus::Success), span()));
    assert!(!d.complete(Bin::Parallel, 7, ended(TaskStatus::Success), span()));
    assert!(d.results().is_empty());
    assert_eq!(d.next(), Dispatch::Start { bin: Bin::Sequential, index: 0 });
    assert!(!d.complete(Bin::Sequential, 1, ended(TaskStatus::Success), span()));
    assert!(d.complete(Bin::Sequential, 0, ended(TaskStatus::Success), span()));
    assert!(!d.complete(Bin::Sequential, 0, ended(TaskStatus::Success), span()));
    assert_eq!(d.next(), Dispatch::Start { bin: Bin::Parallel, index: 0 });
    assert!(d.complete(Bin::Parallel, 0, ended(TaskStatus::Success), span()));
    assert!(!d.complete(Bin::Parallel, 0, ended(TaskStatus::Success), span()));
    assert_eq!(d.results().len(), 2);
}

#[test]
fn dispatcher_hands_out_its_tasks() {
    let bins = Bins {
        sequential: vec![planned("s", false, false)],
        parallel: vec![planned("p", true, false)],
    };
    let d = Dispatcher::new(bins, 0, 0, false, false);
    assert_eq!(d.limit(), 1);
    assert_eq!(d.task(Bin::Sequential, 0).unwrap().task.name, "s");
    assert_eq!(d.task(Bin::Parallel, 0).unwrap().task.name, "p");
    assert!(d.task(Bin::Sequential, 1).is_none());
    assert!(d.task(Bin::Parallel, 1).is_none());
}

#[test]
fn empty_run_is_over_at_once() {
    let mut d = Dispatcher::new(Bins { sequential: vec![], parallel: vec![] }, 4, 4, true, false);
    assert_eq!(d.next(), Dispatch::Done);
    assert!(d.into_results().is_empty());
}

#[test]
fn listing_ignores_whether_a_group_is_enabled() {
    let name = "Homebrew".to_string();
    let list = strings(&["Homebrew"]);
    assert!(tide::dispatcher::is_group_listed(&name, &None, &None));
    assert!(tide::dispatcher::is_group_listed(&name, &Some(list.clone()), &None));
    assert!(!tide::dispatcher::is_group_listed(&name, &Some(vec![]), &None));
    assert!(!tide::dispatcher::is_group_listed(&name, &None, &Some(list.clone())));
    assert!(!tide::dispatcher::is_group_listed(&name, &Some(list.clone()), &Some(list)));
    let mut g = group("Homebrew", false, vec![]);
    g.enabled = false;
    assert!(!is_group_selected(&g, &None, &None));
}

#[test]
fn results_carry_the_names_of_their_tasks() {
    let bins = Bins {
        sequential: vec![planned("first", false, false)],
        parallel: vec![planned("second", true, false)],
    };
    let mut d = Dispatcher::new(bins, 2, 2, false, false);
    assert_eq!(d.next(), Dispatch::Start { bin: Bin::Sequential, index: 0 });
    assert!(d.complete(Bin::Sequential, 0, ended(TaskStatus::Success), span()));
    assert_eq!(d.next(), Dispatch::Start { bin: Bin::Parallel, index: 0 });
    assert!(d.complete(
        Bin::Parallel,
        0,
        ended(TaskStatus::Failed),
        Elapsed { secs: 9, nanos: 7 }
    ));
    let results = d.into_results();
    assert_eq!(results[0].name, "first");
    assert_eq!(results[0].group, "g");
    assert_eq!(results[0].status, TaskStatus::Success);
    assert_eq!(results[0].output, Some(String::new()));
    assert_eq!(results[1].name, "second");
    assert_eq!(results[1].status, TaskStatus::Failed);
    assert_eq!(results[1].output, Some("Command failed: broken".to_string()));
    assert_eq!(results[1].duration, Elapsed { secs: 9, nanos: 7 });
}

#[test]
fn failure_of_an_optional_task_counts_as_a_skip_and_ends_nothing() {
    let mut optional = planned("A", false, false);
    optional.task.required = false;
    let bins = Bins {
        sequential: vec![optional, planned("B", false, false)],
        parallel: vec![],
    };
    let mut d = Dispatcher::new(bins, 2, 2, true, false);
    assert_eq!(d.next(), Dispatch::Start { bin: Bin::Sequential, index: 0 });
    assert!(d.complete(Bin::Sequential, 0, ended(TaskStatus::Failed), span()));
    assert!(!d.is_halted());
    assert_eq!(d.results()[0].status, TaskStatus::Skipped);
    assert_eq!(d.next(), Dispatch::Start { bin: Bin::Sequential, index: 1 });
}

#[test]
fn pre_authorization_comes_first_and_once() {
    let bins = Bins {
        sequential: vec![planned("s", false, false)],
        parallel: vec![planned("p", true, false)],
    };
    let mut d = Dispatcher::new(bins, 2, 2, false, true);
    assert_eq!(d.next(), Dispatch::PreAuthorize);
    assert_eq!(d.next(), Dispatch::Wait);
    assert!(!d.complete(Bin::Sequential, 0, ended(TaskStatus::Success), span()));
    d.pre_authorized();
    assert_eq!(d.next(), Dispatch::Start { bin: Bin::Sequential, index: 0 });
    d.pre_authorized();
    assert_eq!(d.next(), Dispatch::Wait);
    assert!(d.complete(Bin::Sequential, 0, ended(TaskStatus::Success), span()));
    assert_eq!(d.next(), Dispatch::Start { bin: Bin::Parallel, index: 0 });
    assert!(d.complete(Bin::Parallel, 0, ended(TaskStatus::Success), span()));
    assert_eq!(d.next(), Dispatch::Done);
}

#[test]
fn pre_authorization_report_changes_nothing_where_none_is_under_way() {
    let bins = Bins { sequential: vec![planned("s", false, false)], parallel: vec![] };
    let mut d = Dispatcher::new(bins, 2, 2, false, false);
    d.pre_authorized();
    assert_eq!(d.next(), Dispatch::Start { bin: Bin::Sequential, index: 0 });
    let mut d = Dispatcher::new(Bins { sequential: vec![], parallel: vec![] }, 2, 2, false, true);
    d.pre_authorized();
    assert_eq!(d.next(), Dispatch::PreAuthorize);
    d.pre_authorized();
    assert_eq!(d.next(), Dispatch::Done);
}

#[test]
fn elevated_tasks_never_run_side_by_side() {
    let bins = Bins {
        sequential: vec![],
        parallel: vec![
            planned("plain", true, false),
            planned("root one", true, true),
            planned("root two", true, true),
            planned("late", true, false),
        ],
    };
    let mut d = Dispatcher::new(bins, 4, 4, false, false);
    assert_eq!(d.next(), Dispatch::Start { bin: Bin::Parallel, index: 0 });
    assert_eq!(d.next(), Dispatch::Start { bin: Bin::Parallel, index: 1 });
    assert_eq!(d.elevated_in_flight(), 1);
    // The second elevated task waits although the limit has room.
    assert_eq!(d.next(), Dispatch::Wait);
    assert_eq!(d.in_flight(), 2);
    assert!(d.complete(Bin::Parallel, 0, ended(TaskStatus::Success), span()));
    assert_eq!(d.next(), Dispatch::Wait);
    assert!(d.complete(Bin::Parallel, 1, ended(TaskStatus::Success), span()));
    assert_eq!(d.elevated_in_flight(), 0);
    assert_eq!(d.next(), Dispatch::Start { bin: Bin::Parallel, index: 2 });
    assert_eq!(d.next(), Dispatch::Start { bin: Bin::Parallel, index: 3 });
    assert_eq!(d.elevated_in_flight(), 1);
    assert!(d.complete(Bin::Parallel, 3, ended(TaskStatus::Success), span()));
    assert!(d.complete(Bin::Parallel, 2, ended(TaskStatus::Failed), span()));
    assert_eq!(d.next(), Dispatch::Done);
    assert_eq!(d.results().len(), 4);
}

#[test]
fn command_that_names_the_escalation_command_counts_as_elevated() {
    let mut first = planned("one", true, false);
    first.task.command = vec!["sudo".to_string(), "ls".to_string()];
    let mut second = planned("two", true, false);
    second.task.command = vec!["sudo".to_string(), "id".to_string()];
    let bins = Bins { sequential: vec![], parallel: vec![first, second] };
    let mut d = Dispatcher::new(bins, 4, 4, false, false);
    assert_eq!(d.next(), Dispatch::Start { bin: Bin::Parallel, index: 0 });
    assert_eq!(d.next(), Dispatch::Wait);
    assert!(d.complete(Bin::Parallel, 0, ended(TaskStatus::Success), span()));
    assert_eq!(d.next(), Dispatch::Start { bin: Bin::Parallel, index: 1 });
}

#[test]
fn elevated_task_of_a_sequential_group_stays_sequential() {
    for parallel_execution in [false, true] {
        let bins = partition(vec![planned("root", false, true)], parallel_execution);
        assert_eq!(names(&bins.sequential), strings(&["root"]));
        assert!(bins.parallel.is_empty());
    }
}
