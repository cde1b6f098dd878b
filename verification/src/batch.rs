//! A payload read as a batch: its lines taken in one by one, in parts and in parallel, and the
//! parts merged.

use crate::error::JournalError;
use crate::models::{
    entry_views, failure_views, status_for, status_of, LogEntry, LogEntryFailure,
    LogEntryFailureView, LogEntryView, LogOutput, LogOutputView, OutputStatus, Parser,
};
use crate::plan::Plan;
use crate::record::record_of;
use crate::text::split;
use rayon::iter::ParallelIterator;
use rayon::str::ParallelString;
use vstd::prelude::*;

verus! {

/// What is recorded of a line that is no record: the line itself, a fixed message, and the
/// sentence of the parsing error.
pub open spec fn failure_of(line: Seq<char>) -> LogEntryFailureView {
    LogEntryFailureView {
        log_string: line,
        message: "Unable to parse Logentry"@,
        error_string: "Failed to parse output to response"@,
    }
}

/// The line is not empty and describes a record.
pub open spec fn is_record(line: Seq<char>) -> bool {
    line.len() > 0 && record_of(line) is Ok
}

/// The line is not empty and describes no record.
pub open spec fn is_failure(line: Seq<char>) -> bool {
    line.len() > 0 && record_of(line) is Err
}

/// The records that the lines describe, in the order of the lines.
pub open spec fn records_of(lines: Seq<Seq<char>>) -> Seq<LogEntryView> {
    lines.filter(|line: Seq<char>| is_record(line)).map_values(
        |line: Seq<char>| record_of(line)->Ok_0,
    )
}

/// The failures for the lines that are neither empty nor a record, in the order of the lines.
pub open spec fn failures_of(lines: Seq<Seq<char>>) -> Seq<LogEntryFailureView> {
    lines.filter(|line: Seq<char>| is_failure(line)).map_values(
        |line: Seq<char>| failure_of(line),
    )
}

/// The lines that are not empty.
pub open spec fn nonempty_lines(lines: Seq<Seq<char>>) -> Seq<Seq<char>> {
    lines.filter(|line: Seq<char>| line.len() > 0)
}

/// The batch that a list of lines amounts to.
pub open spec fn batch_of(lines: Seq<Seq<char>>) -> LogOutputView {
    LogOutputView {
        amount: records_of(lines).len(),
        logs: records_of(lines),
        log_failures: failures_of(lines),
        failed_amount: failures_of(lines).len(),
        status: status_of(records_of(lines).len(), failures_of(lines).len()),
    }
}

/// A batch with one more line taken in: an empty line changes nothing, a record joins the
/// records, any other line joins the failures.
pub open spec fn absorbed(batch: LogOutputView, line: Seq<char>) -> LogOutputView {
    if line.len() == 0 {
        batch
    } else {
        match record_of(line) {
            Ok(entry) => LogOutputView {
                amount: batch.amount + 1,
                logs: batch.logs.push(entry),
                log_failures: batch.log_failures,
                failed_amount: batch.failed_amount,
                status: status_of(batch.amount + 1, batch.failed_amount),
            },
            Err(_) => LogOutputView {
                amount: batch.amount,
                logs: batch.logs,
                log_failures: batch.log_failures.push(failure_of(line)),
                failed_amount: batch.failed_amount + 1,
                status: status_of(batch.amount, batch.failed_amount + 1),
            },
        }
    }
}

/// Two batches as one: the lists of the first followed by those of the second, the counts
/// added up, and the status that the sums give.
pub open spec fn merged(first: LogOutputView, second: LogOutputView) -> LogOutputView {
    LogOutputView {
        amount: first.amount + second.amount,
        logs: first.logs + second.logs,
        log_failures: first.log_failures + second.log_failures,
        failed_amount: first.failed_amount + second.failed_amount,
        status: status_of(
            first.amount + second.amount,
            first.failed_amount + second.failed_amount,
        ),
    }
}

/// Two batches hold the same records and the same failures, each as often as the other,
/// whatever the order, and agree in counts and status.
pub open spec fn same_contents(first: LogOutputView, second: LogOutputView) -> bool {
    &&& first.logs.to_multiset() == second.logs.to_multiset()
    &&& first.log_failures.to_multiset() == second.log_failures.to_multiset()
    &&& first.amount == second.amount
    &&& first.failed_amount == second.failed_amount
    &&& first.status == second.status
}

/// No lines give the empty batch.
pub proof fn lemma_batch_empty()
    ensures
        batch_of(Seq::empty()).logs == Seq::<LogEntryView>::empty(),
        batch_of(Seq::empty()).log_failures == Seq::<LogEntryFailureView>::empty(),
        batch_of(Seq::empty()).status == OutputStatus::SUCCESSFUL,
{
    reveal(Seq::filter);
    let none = Seq::<Seq<char>>::empty();
    assert(none.filter(|line: Seq<char>| is_record(line)) =~= none);
    assert(none.filter(|line: Seq<char>| is_failure(line)) =~= none);
    assert(records_of(none) =~= Seq::<LogEntryView>::empty());
    assert(failures_of(none) =~= Seq::<LogEntryFailureView>::empty());
}

/// The batch of two runs of lines, one after the other, is the two batches merged.
pub proof fn lemma_batch_concat(first: Seq<Seq<char>>, second: Seq<Seq<char>>)
    ensures
        batch_of(first + second) == merged(batch_of(first), batch_of(second)),
{
    Seq::filter_distributes_over_add(first, second, |line: Seq<char>| is_record(line));
    Seq::filter_distributes_over_add(first, second, |line: Seq<char>| is_failure(line));
    assert(records_of(first + second) =~= records_of(first) + records_of(second));
    assert(failures_of(first + second) =~= failures_of(first) + failures_of(second));
}

/// The batch of some lines followed by one more line is the batch of the lines with the
/// outcome of that line added at the end.
pub proof fn lemma_batch_push(lines: Seq<Seq<char>>, line: Seq<char>)
    ensures
        batch_of(lines.push(line)) == merged(batch_of(lines), batch_of(seq![line])),
        line.len() == 0 ==> batch_of(lines.push(line)) == batch_of(lines),
        is_record(line) ==> records_of(lines.push(line)) == records_of(lines).push(
            record_of(line)->Ok_0,
        ) && failures_of(lines.push(line)) == failures_of(lines),
        is_failure(line) ==> failures_of(lines.push(line)) == failures_of(lines).push(
            failure_of(line),
        ) && records_of(lines.push(line)) == records_of(lines),
{
    lemma_batch_concat(lines, seq![line]);
    assert(lines.push(line) =~= lines + seq![line]);
    let one = seq![line];
    assert(one =~= Seq::<Seq<char>>::empty().push(line));
    let none = Seq::<Seq<char>>::empty();
    none.lemma_filter_push(line, |line: Seq<char>| is_record(line));
    none.lemma_filter_push(line, |line: Seq<char>| is_failure(line));
    reveal(Seq::filter);
    assert(none.filter(|line: Seq<char>| is_record(line)) =~= none);
    assert(none.filter(|line: Seq<char>| is_failure(line)) =~= none);
    if is_record(line) {
        assert(records_of(one) =~= seq![record_of(line)->Ok_0]);
        assert(failures_of(one) =~= Seq::<LogEntryFailureView>::empty());
        assert(records_of(lines) + records_of(one) =~= records_of(lines).push(
            record_of(line)->Ok_0,
        ));
        assert(failures_of(lines) + failures_of(one) =~= failures_of(lines));
    } else if is_failure(line) {
        assert(failures_of(one) =~= seq![failure_of(line)]);
        assert(records_of(one) =~= Seq::<LogEntryView>::empty());
        assert(failures_of(lines) + failures_of(one) =~= failures_of(lines).push(
            failure_of(line),
        ));
        assert(records_of(lines) + records_of(one) =~= records_of(lines));
    } else {
        assert(failures_of(one) =~= Seq::<LogEntryFailureView>::empty());
        assert(records_of(one) =~= Seq::<LogEntryView>::empty());
        assert(failures_of(lines) + failures_of(one) =~= failures_of(lines));
        assert(records_of(lines) + records_of(one) =~= records_of(lines));
    }
}

/// Taking in one line is merging with the batch of that line alone.
pub proof fn lemma_absorbed(batch: LogOutputView, line: Seq<char>)
    requires
        batch.wf(),
    ensures
        absorbed(batch, line) == merged(batch, batch_of(seq![line])),
        absorbed(batch, line).wf(),
{
    lemma_batch_push(Seq::empty(), line);
    assert(Seq::<Seq<char>>::empty().push(line) =~= seq![line]);
    lemma_batch_empty();
    let one = batch_of(seq![line]);
    assert(batch.logs + Seq::<LogEntryView>::empty() =~= batch.logs);
    assert(batch.log_failures + Seq::<LogEntryFailureView>::empty() =~= batch.log_failures);
    if is_record(line) {
        assert(batch.logs + one.logs =~= batch.logs.push(record_of(line)->Ok_0));
    } else if is_failure(line) {
        assert(batch.log_failures + one.log_failures =~= batch.log_failures.push(
            failure_of(line),
        ));
    }
}

/// Every line that is not empty is either a record or a failure, and never both: the two
/// counts of a batch add up to the number of its non-empty lines.
pub proof fn lemma_counts_cover_nonempty_lines(lines: Seq<Seq<char>>)
    ensures
        batch_of(lines).amount + batch_of(lines).failed_amount == nonempty_lines(lines).len(),
    decreases lines.len(),
{
    if lines.len() == 0 {
        lemma_batch_empty();
        reveal(Seq::filter);
    } else {
        let earlier = lines.drop_last();
        let line = lines.last();
        assert(earlier.push(line) =~= lines);
        lemma_counts_cover_nonempty_lines(earlier);
        lemma_batch_push(earlier, line);
        earlier.lemma_filter_push(line, |line: Seq<char>| line.len() > 0);
    }
}

impl LogOutput {
    /// The counts are those of the two lists, and the status is the one that the counts give.
    pub open spec fn wf(&self) -> bool {
        self@.wf()
    }

    /// The batch of no lines at all.
    pub fn empty() -> (out: Self)
        ensures
            out@ == batch_of(Seq::empty()),
            out.wf(),
            out.amount == 0,
            out.failed_amount == 0,
            out.status == OutputStatus::SUCCESSFUL,
    {
        proof {
            lemma_batch_empty();
        }
        let out = LogOutput {
            amount: 0,
            logs: Vec::new(),
            log_failures: Vec::new(),
            failed_amount: 0,
            status: OutputStatus::SUCCESSFUL,
        };
        assert(out@.logs =~= Seq::<LogEntryView>::empty());
        assert(out@.log_failures =~= Seq::<LogEntryFailureView>::empty());
        out
    }

    /// Takes in one more line: the step of the fold over the lines of a payload.
    pub fn absorb(self, line: &str) -> (out: Self)
        requires
            self.wf(),
        ensures
            out@ == absorbed(self@, line@),
            out.wf(),
    {
        proof {
            lemma_absorbed(self@, line@);
        }
        let mut out = self;
        if line.is_empty() {
            return out;
        }
        match LogEntry::parse(line) {
            Ok(entry) => {
                let ghost before = out.logs@;
                out.logs.push(entry);
                out.amount = out.logs.len();
                assert(entry_views(out.logs@) =~= entry_views(before).push(entry@));
            },
            Err(error) => {
                let ghost before = out.log_failures@;
                let failure = LogEntryFailure {
                    log_string: line.to_owned(),
                    error_string: error.message(),
                    message: "Unable to parse Logentry".to_owned(),
                };
                out.log_failures.push(failure);
                out.failed_amount = out.log_failures.len();
                assert(failure_views(out.log_failures@) =~= failure_views(before).push(
                    failure@,
                ));
            },
        }
        out.status = status_for(out.amount, out.failed_amount);
        out
    }

    /// Two batches as one: the combinator that puts partial batches together, whatever the
    /// payload was cut into and in whatever order the parts are joined.
    pub fn merge(self, other: Self) -> (out: Self)
        requires
            self.wf(),
            other.wf(),
        ensures
            out@ == merged(self@, other@),
            out.wf(),
    {
        let mut out = self;
        let mut other = other;
        let ghost first = out;
        let ghost second = other;
        out.logs.append(&mut other.logs);
        out.log_failures.append(&mut other.log_failures);
        out.amount = out.logs.len();
        out.failed_amount = out.log_failures.len();
        out.status = status_for(out.amount, out.failed_amount);
        assert(entry_views(out.logs@) =~= entry_views(first.logs@) + entry_views(second.logs@));
        assert(failure_views(out.log_failures@) =~= failure_views(first.log_failures@)
            + failure_views(second.log_failures@));
        out
    }
}

/// The batch that a plan for the lines of a payload ends with: each part is the batch of its
/// lines, and two parts are merged.
pub open spec fn batch_outcome(plan: Plan<Seq<char>>) -> LogOutputView
    decreases plan,
{
    match plan {
        Plan::Part(lines) => batch_of(lines),
        Plan::Join { first, second, swapped } => if swapped {
            merged(batch_outcome(*second), batch_outcome(*first))
        } else {
            merged(batch_outcome(*first), batch_outcome(*second))
        },
    }
}

/// The batch is what some plan for the lines, merging in order, ends with.
pub open spec fn follows_a_plan(lines: Seq<Seq<char>>, batch: LogOutputView) -> bool {
    exists|plan: Plan<Seq<char>>|
        plan.in_order() && plan.items() == lines && batch == #[trigger] batch_outcome(plan)
}

/// Whatever the plan, its outcome has the counts of its lists and the status of its counts.
pub proof fn lemma_outcome_wf(plan: Plan<Seq<char>>)
    ensures
        batch_outcome(plan).wf(),
    decreases plan,
{
    match plan {
        Plan::Part(lines) => {},
        Plan::Join { first, second, swapped } => {
            lemma_outcome_wf(*first);
            lemma_outcome_wf(*second);
        },
    }
}

/// A plan that merges in order ends with the very batch of its lines taken in one run.
pub proof fn lemma_in_order_outcome(plan: Plan<Seq<char>>)
    requires
        plan.in_order(),
    ensures
        batch_outcome(plan) == batch_of(plan.items()),
    decreases plan,
{
    match plan {
        Plan::Part(lines) => {},
        Plan::Join { first, second, swapped } => {
            lemma_in_order_outcome(*first);
            lemma_in_order_outcome(*second);
            lemma_batch_concat(first.items(), second.items());
        },
    }
}

/// `par_split`, `fold` and `reduce` of rayon, over the lines of the payload: rayon cuts the
/// lines into runs as it sees fit, folds each run from an empty batch with
/// [`LogOutput::absorb`], and merges the batches of adjacent runs, the earlier run's first,
/// with [`LogOutput::merge`]. Which plan it follows is not known, only that it follows one.
#[verifier::external_body]
fn fold_lines(payload: &str) -> (out: LogOutput)
    ensures
        follows_a_plan(split(payload@, '\n'), out@),
{
    payload.par_split('\n').fold(LogOutput::empty, |batch, line| batch.absorb(line)).reduce(
        LogOutput::empty,
        |first, second| first.merge(second),
    )
}

impl Parser for LogOutput {
    type ParserTarget = LogOutput;

    /// Reads a payload line by line, the lines in parallel. Lines end at a newline; an empty
    /// line is passed over, any other line becomes a record or a failure. A line that is no
    /// record never fails the call.
    fn parse(payload: &str) -> (outcome: Result<LogOutput, JournalError>)
        ensures
            outcome is Ok,
            outcome->Ok_0@ == batch_of(split(payload@, '\n')),
            outcome->Ok_0.wf(),
            outcome->Ok_0.amount + outcome->Ok_0.failed_amount == nonempty_lines(
                split(payload@, '\n'),
            ).len(),
            outcome->Ok_0.status == OutputStatus::SUCCESSFUL <==> outcome->Ok_0.failed_amount
                == 0,
            outcome->Ok_0.status == OutputStatus::WARNINGS <==> outcome->Ok_0.failed_amount > 0
                && outcome->Ok_0.amount > 0,
            outcome->Ok_0.status == OutputStatus::FAILED <==> outcome->Ok_0.failed_amount > 0
                && outcome->Ok_0.amount == 0,
    {
        let out = fold_lines(payload);
        proof {
            let plan = choose|plan: Plan<Seq<char>>|
                plan.in_order() && plan.items() == split(payload@, '\n') && out@
                    == #[trigger] batch_outcome(plan);
            lemma_outcome_wf(plan);
            lemma_in_order_outcome(plan);
            lemma_counts_cover_nonempty_lines(split(payload@, '\n'));
        }
        Ok(out)
    }
}

/// Merging is associative.
pub proof fn lemma_merge_associative(a: LogOutputView, b: LogOutputView, c: LogOutputView)
    ensures
        merged(merged(a, b), c) == merged(a, merged(b, c)),
{
    assert((a.logs + b.logs) + c.logs =~= a.logs + (b.logs + c.logs));
    assert((a.log_failures + b.log_failures) + c.log_failures =~= a.log_failures + (
    b.log_failures + c.log_failures));
}

/// Merging is commutative but for the order within the two lists.
pub proof fn lemma_merge_commutative(a: LogOutputView, b: LogOutputView)
    ensures
        same_contents(merged(a, b), merged(b, a)),
{
    vstd::seq_lib::lemma_seq_union_to_multiset_commutative(a.logs, b.logs);
    vstd::seq_lib::lemma_seq_union_to_multiset_commutative(a.log_failures, b.log_failures);
}

/// The empty batch is the identity of merging, on either side.
pub proof fn lemma_merge_identity(a: LogOutputView)
    requires
        a.wf(),
    ensures
        merged(batch_of(Seq::empty()), a) == a,
        merged(a, batch_of(Seq::empty())) == a,
{
    lemma_batch_empty();
    assert(Seq::<LogEntryView>::empty() + a.logs =~= a.logs);
    assert(a.logs + Seq::<LogEntryView>::empty() =~= a.logs);
    assert(Seq::<LogEntryFailureView>::empty() + a.log_failures =~= a.log_failures);
    assert(a.log_failures + Seq::<LogEntryFailureView>::empty() =~= a.log_failures);
}

/// Merging keeps what two batches hold: batches with the same contents, merged with batches
/// with the same contents, give the same contents.
pub proof fn lemma_merge_keeps_contents(
    a: LogOutputView,
    b: LogOutputView,
    c: LogOutputView,
    d: LogOutputView,
)
    requires
        same_contents(a, c),
        same_contents(b, d),
    ensures
        same_contents(merged(a, b), merged(c, d)),
{
    vstd::seq_lib::lemma_multiset_commutative(a.logs, b.logs);
    vstd::seq_lib::lemma_multiset_commutative(c.logs, d.logs);
    vstd::seq_lib::lemma_multiset_commutative(a.log_failures, b.log_failures);
    vstd::seq_lib::lemma_multiset_commutative(c.log_failures, d.log_failures);
}

/// However the lines are cut into parts and in whatever order the parts are merged, the
/// outcome holds the same records and failures, with the same counts and status, as the
/// batch of the lines taken in one run.
pub proof fn lemma_plan_outcome(plan: Plan<Seq<char>>)
    ensures
        same_contents(batch_outcome(plan), batch_of(plan.items())),
    decreases plan,
{
    match plan {
        Plan::Part(lines) => {},
        Plan::Join { first, second, swapped } => {
            lemma_plan_outcome(*first);
            lemma_plan_outcome(*second);
            lemma_batch_concat(first.items(), second.items());
            lemma_merge_keeps_contents(
                batch_outcome(*first),
                batch_outcome(*second),
                batch_of(first.items()),
                batch_of(second.items()),
            );
            if swapped {
                lemma_merge_commutative(batch_outcome(*second), batch_outcome(*first));
            }
        },
    }
}

/// Two plans for the same lines end with the same records and the same failures, each as
/// often as the other, and with the same counts and status.
pub proof fn lemma_plans_agree(first: Plan<Seq<char>>, second: Plan<Seq<char>>)
    requires
        first.items() == second.items(),
    ensures
        same_contents(batch_outcome(first), batch_outcome(second)),
{
    lemma_plan_outcome(first);
    lemma_plan_outcome(second);
}

} // verus!
