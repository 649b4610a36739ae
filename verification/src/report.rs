//! Result aggregation: what a run's results add up to.
use crate::executor::{
    format_task_label, icon_label, result_specs, Elapsed, ResultSpec, TaskResult, TaskStatus,
};
use crate::notifications::{complete_notice, Notice, NotificationManager};
use vstd::multiset::Multiset;
use vstd::prelude::*;

verus! {

/// Number of results with `status` among the first `n`.
pub open spec fn count_status(results: Seq<ResultSpec>, n: int, status: TaskStatus) -> nat
    decreases n,
{
    if n <= 0 {
        0
    } else if results[n - 1].status == status {
        count_status(results, n - 1, status) + 1
    } else {
        count_status(results, n - 1, status)
    }
}

/// Index of the result that took longest among the first `n`; of several
/// that took equally long, the last. None where there is no result.
pub open spec fn longest_among(results: Seq<ResultSpec>, n: int) -> Option<int>
    decreases n,
{
    if n <= 0 {
        None
    } else {
        match longest_among(results, n - 1) {
            Some(best) => if results[n - 1].duration.shorter(results[best].duration) {
                Some(best)
            } else {
                Some(n - 1)
            },
            None => Some(n - 1),
        }
    }
}

/// What is shown of a failed task.
pub struct FailureSpec {
    pub name: Seq<char>,
    /// The group's name behind its icon.
    pub group_label: Seq<char>,
    /// The reason, where the result carries one that is not empty.
    pub reason: Option<Seq<char>>,
}

/// What is shown of a failed task.
#[derive(Debug, PartialEq, Eq)]
pub struct FailedTask {
    pub name: String,
    /// The group's name behind its icon.
    pub group_label: String,
    /// The reason, where the result carries one that is not empty.
    pub reason: Option<String>,
}

impl View for FailedTask {
    type V = FailureSpec;

    open spec fn view(&self) -> FailureSpec {
        FailureSpec {
            name: self.name@,
            group_label: self.group_label@,
            reason: self.reason.deep_view(),
        }
    }
}

/// The failures of `failures`, each by its view.
pub open spec fn failure_specs(failures: Seq<FailedTask>) -> Seq<FailureSpec> {
    Seq::new(failures.len(), |i: int| failures[i]@)
}

/// What is shown of the failed result `result`.
pub open spec fn failure_of(result: ResultSpec) -> FailureSpec {
    FailureSpec {
        name: result.name,
        group_label: icon_label(result.group, result.group_icon),
        reason: match result.output {
            Some(text) => if text.len() > 0 {
                Some(text)
            } else {
                None
            },
            None => None,
        },
    }
}

/// The failed tasks among the first `n` results, in order.
pub open spec fn failures_among(results: Seq<ResultSpec>, n: int) -> Seq<FailureSpec>
    decreases n,
{
    if n <= 0 {
        Seq::empty()
    } else if results[n - 1].status == TaskStatus::Failed {
        failures_among(results, n - 1).push(failure_of(results[n - 1]))
    } else {
        failures_among(results, n - 1)
    }
}

/// What a run's results add up to.
pub struct SummarySpec {
    pub success: nat,
    pub failed: nat,
    pub skipped: nat,
    pub total: Elapsed,
    pub longest: Option<int>,
    pub failures: Seq<FailureSpec>,
}

/// The summary of `results` for a run that took `total`.
pub open spec fn summary_of(results: Seq<ResultSpec>, total: Elapsed) -> SummarySpec {
    let n = results.len() as int;
    SummarySpec {
        success: count_status(results, n, TaskStatus::Success),
        failed: count_status(results, n, TaskStatus::Failed),
        skipped: count_status(results, n, TaskStatus::Skipped),
        total,
        longest: longest_among(results, n),
        failures: failures_among(results, n),
    }
}

/// The final report of a run.
#[derive(Debug, PartialEq, Eq)]
pub struct Summary {
    /// Number of tasks that succeeded.
    pub success: usize,
    /// Number of tasks that failed.
    pub failed: usize,
    /// Number of tasks that were skipped.
    pub skipped: usize,
    /// Wall time of the whole run.
    pub total: Elapsed,
    /// Index, among the results, of the task that took longest.
    pub longest: Option<usize>,
    /// The failed tasks, in the order of the results.
    pub failures: Vec<FailedTask>,
}

impl View for Summary {
    type V = SummarySpec;

    open spec fn view(&self) -> SummarySpec {
        SummarySpec {
            success: self.success as nat,
            failed: self.failed as nat,
            skipped: self.skipped as nat,
            total: self.total,
            longest: match self.longest {
                Some(i) => Some(i as int),
                None => None,
            },
            failures: failure_specs(self.failures@),
        }
    }
}

/// The label of a group in the summary.
pub fn format_group_display(name: &str, icon: &str) -> (s: String)
    ensures
        s@ == icon_label(name@, icon@),
{
    format_task_label(name, icon)
}

/// No more results have a given status than there are results.
pub proof fn lemma_count_bounded(results: Seq<ResultSpec>, n: int, status: TaskStatus)
    requires
        0 <= n,
    ensures
        count_status(results, n, status) <= n,
    decreases n,
{
    if n > 0 {
        lemma_count_bounded(results, n - 1, status);
    }
}

/// What is shown of a failed result. A well-formed failed result is shown
/// with its reason.
pub fn failed_task(result: &TaskResult) -> (f: FailedTask)
    ensures
        f@ == failure_of(result@),
        result.wf() && result.status == TaskStatus::Failed ==> f@.reason == result@.output,
{
    let reason = match &result.output {
        Some(text) => {
            if text.as_str().is_empty() {
                None
            } else {
                Some(text.clone())
            }
        },
        None => None,
    };
    FailedTask {
        name: result.name.clone(),
        group_label: format_group_display(result.group.as_str(), result.group_icon.as_str()),
        reason,
    }
}

/// Every result has exactly one of the three statuses.
pub proof fn lemma_counts_add_up(results: Seq<ResultSpec>, n: int)
    requires
        0 <= n,
    ensures
        count_status(results, n, TaskStatus::Success) + count_status(
            results,
            n,
            TaskStatus::Failed,
        ) + count_status(results, n, TaskStatus::Skipped) == n,
    decreases n,
{
    if n > 0 {
        lemma_counts_add_up(results, n - 1);
    }
}

/// Folds the results of a run into its summary: how many tasks ended in
/// each status, which took longest, and which failed and why. The results
/// are only read, so asking again gives the same summary.
pub fn summarize(results: &Vec<TaskResult>, total: Elapsed) -> (summary: Summary)
    ensures
        summary@ == summary_of(result_specs(results@), total),
        summary.success + summary.failed + summary.skipped == results.len(),
        summary.failures.len() == summary.failed,
        summary.longest is Some <==> results.len() > 0,
        summary.longest matches Some(i) ==> i < results.len(),
{
    let ghost specs = result_specs(results@);
    let mut success: usize = 0;
    let mut failed: usize = 0;
    let mut skipped: usize = 0;
    let mut longest: Option<usize> = None;
    let mut failures: Vec<FailedTask> = Vec::new();
    let mut i: usize = 0;
    while i < results.len()
        invariant
            i <= results.len(),
            specs == result_specs(results@),
            success == count_status(specs, i as int, TaskStatus::Success),
            failed == count_status(specs, i as int, TaskStatus::Failed),
            skipped == count_status(specs, i as int, TaskStatus::Skipped),
            match longest {
                Some(best) => longest_among(specs, i as int) == Some(best as int) && best < i,
                None => longest_among(specs, i as int) is None,
            },
            failure_specs(failures@) == failures_among(specs, i as int),
            failures.len() == failed,
        decreases results.len() - i,
    {
        let result = &results[i];
        proof {
            lemma_count_bounded(specs, i as int, TaskStatus::Success);
            lemma_count_bounded(specs, i as int, TaskStatus::Failed);
            lemma_count_bounded(specs, i as int, TaskStatus::Skipped);
        }
        match result.status {
            TaskStatus::Success => {
                success = success + 1;
            },
            TaskStatus::Failed => {
                failed = failed + 1;
                let f = failed_task(result);
                failures.push(f);
            },
            TaskStatus::Skipped => {
                skipped = skipped + 1;
            },
        }
        longest = match longest {
            Some(best) => {
                if result.duration.shorter_than(&results[best].duration) {
                    Some(best)
                } else {
                    Some(i)
                }
            },
            None => Some(i),
        };
        i += 1;
    }
    proof {
        lemma_counts_add_up(specs, i as int);
    }
    Summary { success, failed, skipped, total, longest, failures }
}

/// The alert that ends a run: due when alerts are on, no task failed and at
/// least one succeeded.
pub fn completion_notice(notifier: &NotificationManager, summary: &Summary) -> (notice: Option<
    Notice,
>)
    ensures
        notice.is_some() == (notifier.enabled() && summary.failed == 0 && summary.success > 0),
        notice matches Some(n) ==> n@ == complete_notice(summary.success, summary.total.secs),
{
    if summary.failed == 0 && summary.success > 0 {
        notifier.notify_all_tasks_complete(summary.success, summary.total.as_secs())
    } else {
        None
    }
}

/// Aggregation is idempotent: two summaries of the same results for the
/// same run are the same summary.
pub proof fn law_summary_is_idempotent(
    results: Seq<ResultSpec>,
    total: Elapsed,
    first: SummarySpec,
    second: SummarySpec,
)
    requires
        first == summary_of(results, total),
        second == summary_of(results, total),
    ensures
        first == second,
{
}

/// A count over the first `n` results looks at those results only.
proof fn lemma_count_prefix(a: Seq<ResultSpec>, b: Seq<ResultSpec>, n: int, status: TaskStatus)
    requires
        0 <= n <= a.len(),
        n <= b.len(),
        forall|i: int| 0 <= i < n ==> a[i] == b[i],
    ensures
        count_status(a, n, status) == count_status(b, n, status),
    decreases n,
{
    if n > 0 {
        lemma_count_prefix(a, b, n - 1, status);
    }
}

/// Taking one result out lowers the count of its status by one and no
/// other count.
proof fn lemma_count_remove(b: Seq<ResultSpec>, k: int, status: TaskStatus)
    requires
        0 <= k < b.len(),
    ensures
        count_status(b, b.len() as int, status) == count_status(
            b.remove(k),
            b.len() - 1,
            status,
        ) + (if b[k].status == status {
            1int
        } else {
            0int
        }),
    decreases b.len(),
{
    let n = b.len() as int;
    let c = b.remove(k);
    if k == n - 1 {
        lemma_count_prefix(b, c, n - 1, status);
    } else {
        let front = b.drop_last();
        lemma_count_prefix(b, front, n - 1, status);
        lemma_count_remove(front, k, status);
        assert(front.remove(k) =~= c.drop_last());
        lemma_count_prefix(c, c.drop_last(), n - 2, status);
        assert(c[n - 2] == b[n - 1]);
    }
}

/// The counts do not depend on the order of the results: two lists that
/// hold the same results, each as often as the other, count alike.
pub proof fn law_counts_ignore_order(a: Seq<ResultSpec>, b: Seq<ResultSpec>, status: TaskStatus)
    requires
        a.to_multiset() == b.to_multiset(),
    ensures
        count_status(a, a.len() as int, status) == count_status(b, b.len() as int, status),
    decreases a.len(),
{
    a.to_multiset_ensures();
    b.to_multiset_ensures();
    if a.len() > 0 {
        let last = a.last();
        assert(a.contains(last));
        assert(a.to_multiset().count(last) > 0);
        assert(b.to_multiset().count(last) > 0);
        assert(b.contains(last));
        let k = choose|k: int| 0 <= k < b.len() && b[k] == last;
        let front = a.drop_last();
        assert(front =~= a.remove(a.len() - 1));
        let rest = b.remove(k);
        assert(front.to_multiset() =~= rest.to_multiset());
        law_counts_ignore_order(front, rest, status);
        lemma_count_remove(a, a.len() - 1, status);
        lemma_count_remove(b, k, status);
    }
}

/// No result took longer than the one reported as longest.
pub proof fn law_longest_is_maximal(results: Seq<ResultSpec>, n: int, i: int)
    requires
        0 <= i < n,
    ensures
        longest_among(results, n) matches Some(best) && 0 <= best < n && !results[best].duration.shorter(
            results[i].duration,
        ),
    decreases n,
{
    if i < n - 1 {
        law_longest_is_maximal(results, n - 1, i);
    } else if n > 1 {
        law_longest_is_maximal(results, n - 1, 0);
    }
}

/// The longest duration does not depend on the order of the results.
pub proof fn law_longest_duration_ignores_order(a: Seq<ResultSpec>, b: Seq<ResultSpec>)
    requires
        a.to_multiset() == b.to_multiset(),
        a.len() > 0,
    ensures
        longest_among(a, a.len() as int) matches Some(i) && longest_among(b, b.len() as int) matches Some(
            j,
        ) && a[i].duration == b[j].duration,
{
    a.to_multiset_ensures();
    b.to_multiset_ensures();
    law_longest_is_maximal(a, a.len() as int, 0);
    law_longest_is_maximal(b, b.len() as int, 0);
    let i = longest_among(a, a.len() as int)->0;
    let j = longest_among(b, b.len() as int)->0;
    assert(a.contains(a[i]));
    assert(a.to_multiset().count(a[i]) > 0);
    assert(b.to_multiset().count(a[i]) > 0);
    assert(b.contains(a[i]));
    let jj = choose|jj: int| 0 <= jj < b.len() && b[jj] == a[i];
    law_longest_is_maximal(b, b.len() as int, jj);
    assert(b.contains(b[j]));
    assert(b.to_multiset().count(b[j]) > 0);
    assert(a.to_multiset().count(b[j]) > 0);
    assert(a.contains(b[j]));
    let ii = choose|ii: int| 0 <= ii < a.len() && a[ii] == b[j];
    law_longest_is_maximal(a, a.len() as int, ii);
}

/// The failures among the first `n` results are those of the results
/// themselves.
proof fn lemma_failures_prefix(a: Seq<ResultSpec>, b: Seq<ResultSpec>, n: int)
    requires
        0 <= n <= a.len(),
        n <= b.len(),
        forall|i: int| 0 <= i < n ==> a[i] == b[i],
    ensures
        failures_among(a, n) == failures_among(b, n),
    decreases n,
{
    if n > 0 {
        lemma_failures_prefix(a, b, n - 1);
    }
}

/// What one result adds to the failures: itself if it failed, else
/// nothing.
pub open spec fn failure_share(result: ResultSpec) -> Multiset<FailureSpec> {
    if result.status == TaskStatus::Failed {
        Multiset::singleton(failure_of(result))
    } else {
        Multiset::empty()
    }
}

/// Taking one result out takes its share of the failures out and nothing
/// else.
proof fn lemma_failures_remove(b: Seq<ResultSpec>, k: int)
    requires
        0 <= k < b.len(),
    ensures
        failures_among(b, b.len() as int).to_multiset() == failures_among(
            b.remove(k),
            b.len() - 1,
        ).to_multiset().add(failure_share(b[k])),
    decreases b.len(),
{
    let n = b.len() as int;
    let c = b.remove(k);
    if k == n - 1 {
        lemma_failures_prefix(b, c, n - 1);
        let rest = failures_among(b, n - 1);
        rest.to_multiset_ensures();
        assert(failures_among(b, n).to_multiset() =~= rest.to_multiset().add(
            failure_share(b[k]),
        ));
    } else {
        let front = b.drop_last();
        let last = b[n - 1];
        lemma_failures_prefix(b, front, n - 1);
        lemma_failures_remove(front, k);
        assert(front.remove(k) =~= c.drop_last());
        lemma_failures_prefix(c, c.drop_last(), n - 2);
        assert(c[n - 2] == last);
        let inner = failures_among(c, n - 2);
        inner.to_multiset_ensures();
        failures_among(b, n - 1).to_multiset_ensures();
        assert(failures_among(c, n - 1).to_multiset() =~= inner.to_multiset().add(
            failure_share(last),
        ));
        assert(failures_among(b, n).to_multiset() =~= failures_among(b, n - 1).to_multiset().add(
            failure_share(last),
        ));
        assert(failures_among(b, n).to_multiset() =~= failures_among(c, n - 1).to_multiset().add(
            failure_share(b[k]),
        ));
    }
}

/// The failed tasks do not depend on the order of the results, but for
/// the order they are listed in: two lists that hold the same results,
/// each as often as the other, list the same failures as often.
pub proof fn law_failures_ignore_order(a: Seq<ResultSpec>, b: Seq<ResultSpec>)
    requires
        a.to_multiset() == b.to_multiset(),
    ensures
        failures_among(a, a.len() as int).to_multiset() == failures_among(
            b,
            b.len() as int,
        ).to_multiset(),
    decreases a.len(),
{
    a.to_multiset_ensures();
    b.to_multiset_ensures();
    if a.len() > 0 {
        let last = a.last();
        assert(a.contains(last));
        assert(a.to_multiset().count(last) > 0);
        assert(b.to_multiset().count(last) > 0);
        assert(b.contains(last));
        let k = choose|k: int| 0 <= k < b.len() && b[k] == last;
        let front = a.drop_last();
        assert(front =~= a.remove(a.len() - 1));
        let rest = b.remove(k);
        assert(front.to_multiset() =~= rest.to_multiset());
        law_failures_ignore_order(front, rest);
        lemma_failures_remove(a, a.len() - 1);
        lemma_failures_remove(b, k);
    } else {
        assert(b.len() == 0);
    }
}

} // verus!
