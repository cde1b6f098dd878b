//! Records grouped by their origin.

use crate::error::SshLogParserError;
use crate::models::{LogEntry, LogOutput, OutputStatus};
use crate::origin::{origin_of, pattern_compiles, OriginMatcher, IPV4_PATTERN};
use crate::plan::Plan;
use rayon::iter::IntoParallelRefIterator;
use rayon::iter::ParallelIterator;
use std::collections::HashMap;
use vstd::prelude::*;

verus! {

broadcast use vstd::std_specs::hash::group_hash_axioms;

/// The record has the origin `ip`.
pub open spec fn has_origin(record: LogEntry, ip: u32) -> bool {
    origin_of(record.message@) == Some(ip)
}

/// The records with the origin `ip`, in their order.
pub open spec fn records_from(records: Seq<LogEntry>, ip: u32) -> Seq<LogEntry> {
    records.filter(|record: LogEntry| has_origin(record, ip))
}

/// The records by origin: each origin that some record has, with the records that have it, in
/// their order. A record without an origin is in no group.
pub open spec fn groups_of(records: Seq<LogEntry>) -> Map<u32, Seq<LogEntry>> {
    Map::new(
        |ip: u32| records_from(records, ip).len() > 0,
        |ip: u32| records_from(records, ip),
    )
}

/// The records of one origin in a grouping; none where the grouping lacks the origin.
pub open spec fn group_at(groups: Map<u32, Seq<LogEntry>>, ip: u32) -> Seq<LogEntry> {
    if groups.contains_key(ip) {
        groups[ip]
    } else {
        Seq::empty()
    }
}

/// A grouping with one more record taken in: it joins the end of its origin's group, and a
/// record without an origin changes nothing.
pub open spec fn grouped(groups: Map<u32, Seq<LogEntry>>, record: LogEntry) -> Map<
    u32,
    Seq<LogEntry>,
> {
    match origin_of(record.message@) {
        Some(ip) => groups.insert(ip, group_at(groups, ip).push(record)),
        None => groups,
    }
}

/// Two groupings as one: every origin of either, with the records of the first followed by
/// those of the second.
pub open spec fn merged_groups(
    first: Map<u32, Seq<LogEntry>>,
    second: Map<u32, Seq<LogEntry>>,
) -> Map<u32, Seq<LogEntry>> {
    Map::new(
        |ip: u32| first.contains_key(ip) || second.contains_key(ip),
        |ip: u32| group_at(first, ip) + group_at(second, ip),
    )
}

/// The origins of a grouping are exactly the origins that occur among the records.
pub proof fn lemma_groups_domain(records: Seq<LogEntry>, ip: u32)
    ensures
        groups_of(records).contains_key(ip) <==> exists|i: int|
            0 <= i < records.len() && has_origin(#[trigger] records[i], ip),
{
    let wanted = |record: LogEntry| has_origin(record, ip);
    if groups_of(records).contains_key(ip) {
        let found = records_from(records, ip);
        records.lemma_filter_contains_rev(wanted, found[0]);
        assert(found.contains(found[0]));
        let i = choose|i: int| 0 <= i < records.len() && records[i] == found[0];
        records.lemma_filter_pred(wanted, 0);
        assert(has_origin(records[i], ip));
    }
    if exists|i: int| 0 <= i < records.len() && has_origin(#[trigger] records[i], ip) {
        let i = choose|i: int| 0 <= i < records.len() && has_origin(#[trigger] records[i], ip);
        records.lemma_filter_contains(wanted, i);
    }
}

/// No records, no groups.
pub proof fn lemma_groups_empty()
    ensures
        groups_of(Seq::empty()) == Map::<u32, Seq<LogEntry>>::empty(),
{
    reveal(Seq::filter);
    assert(groups_of(Seq::empty()) =~= Map::<u32, Seq<LogEntry>>::empty());
}

/// The grouping of two runs of records, one after the other, is the two groupings merged.
pub proof fn lemma_groups_concat(first: Seq<LogEntry>, second: Seq<LogEntry>)
    ensures
        groups_of(first + second) == merged_groups(groups_of(first), groups_of(second)),
{
    assert forall|ip: u32|
        records_from(first + second, ip) == #[trigger] records_from(first, ip) + records_from(
            second,
            ip,
        ) by {
        Seq::filter_distributes_over_add(first, second, |record: LogEntry| has_origin(record, ip));
    }
    assert forall|ip: u32|
        #[trigger] groups_of(first + second).contains_key(ip) <==> merged_groups(
            groups_of(first),
            groups_of(second),
        ).contains_key(ip) by {
        assert(records_from(first + second, ip) == records_from(first, ip) + records_from(
            second,
            ip,
        ));
    }
    assert forall|ip: u32| #[trigger] groups_of(first + second).contains_key(ip) implies groups_of(
        first + second,
    )[ip] == merged_groups(groups_of(first), groups_of(second))[ip] by {
        assert(records_from(first + second, ip) == records_from(first, ip) + records_from(
            second,
            ip,
        ));
        assert(group_at(groups_of(first), ip) =~= records_from(first, ip));
        assert(group_at(groups_of(second), ip) =~= records_from(second, ip));
    }
    assert(groups_of(first + second) =~= merged_groups(groups_of(first), groups_of(second)));
}

/// The grouping of some records followed by one more is the grouping with that record
/// taken in.
pub proof fn lemma_groups_push(records: Seq<LogEntry>, record: LogEntry)
    ensures
        groups_of(records.push(record)) == grouped(groups_of(records), record),
{
    let longer = records.push(record);
    assert forall|ip: u32|
        #[trigger] records_from(longer, ip) == if has_origin(record, ip) {
            records_from(records, ip).push(record)
        } else {
            records_from(records, ip)
        } by {
        records.lemma_filter_push(record, |record: LogEntry| has_origin(record, ip));
    }
    let left = groups_of(longer);
    let right = grouped(groups_of(records), record);
    assert forall|ip: u32| left.contains_key(ip) <==> right.contains_key(ip) by {
        assert(records_from(longer, ip).len() >= 0);
    }
    assert forall|ip: u32| #[trigger] left.contains_key(ip) implies left[ip] == right[ip] by {
        assert(records_from(longer, ip).len() >= 0);
        assert(group_at(groups_of(records), ip) =~= records_from(records, ip));
    }
    assert(left =~= right);
}

/// The records behind a list of references.
pub open spec fn referents<'a>(list: Seq<&'a LogEntry>) -> Seq<LogEntry> {
    list.map_values(|record: &'a LogEntry| *record)
}

/// A grouping as mathematical data: for each origin the records of its group.
pub open spec fn group_view<'a>(groups: Map<u32, Vec<&'a LogEntry>>) -> Map<u32, Seq<LogEntry>> {
    groups.map_values(|list: Vec<&'a LogEntry>| referents(list@))
}

/// The grouping of no records.
pub fn no_groups<'a>() -> (groups: HashMap<u32, Vec<&'a LogEntry>>)
    ensures
        group_view(groups@) == groups_of(Seq::empty()),
{
    let groups: HashMap<u32, Vec<&'a LogEntry>> = HashMap::new();
    proof {
        lemma_groups_empty();
        assert(group_view(groups@) =~= Map::<u32, Seq<LogEntry>>::empty());
    }
    groups
}

/// Puts a list of records at the end of the group of `ip`.
fn extend_group<'a>(
    groups: &mut HashMap<u32, Vec<&'a LogEntry>>,
    ip: u32,
    records: &Vec<&'a LogEntry>,
)
    ensures
        group_view(final(groups)@) == group_view(old(groups)@).insert(
            ip,
            group_at(group_view(old(groups)@), ip) + referents(records@),
        ),
{
    let ghost before = group_view(groups@);
    let mut list: Vec<&'a LogEntry> = match groups.remove(&ip) {
        Some(list) => list,
        None => Vec::new(),
    };
    assert(referents(list@) =~= group_at(before, ip));
    let mut i: usize = 0;
    while i < records.len()
        invariant
            i <= records.len(),
            referents(list@) == group_at(before, ip) + referents(records@.take(i as int)),
        decreases records.len() - i,
    {
        let ghost shorter = list@;
        list.push(records[i]);
        proof {
            let taken = records@.take(i as int);
            assert(records@.take(i + 1) =~= taken.push(records@[i as int]));
            assert(referents(list@) =~= referents(shorter).push(*records@[i as int]));
            assert(referents(taken.push(records@[i as int])) =~= referents(taken).push(
                *records@[i as int],
            ));
            assert(referents(list@) =~= group_at(before, ip) + referents(
                records@.take(i + 1),
            ));
        }
        i += 1;
    }
    proof {
        assert(records@.take(records.len() as int) =~= records@);
    }
    groups.insert(ip, list);
    proof {
        assert(group_view(groups@) =~= before.insert(
            ip,
            group_at(before, ip) + referents(records@),
        ));
    }
}

/// Takes one more record into a grouping: the step of the fold over the records of a batch.
pub fn group_record<'a>(
    groups: HashMap<u32, Vec<&'a LogEntry>>,
    record: &'a LogEntry,
    matcher: &OriginMatcher,
) -> (out: HashMap<u32, Vec<&'a LogEntry>>)
    ensures
        group_view(out@) == grouped(group_view(groups@), *record),
{
    let mut out = groups;
    match matcher.extract(record) {
        Some(ip) => {
            let mut one: Vec<&'a LogEntry> = Vec::new();
            one.push(record);
            extend_group(&mut out, ip, &one);
            proof {
                let before = group_view(groups@);
                assert(group_at(before, ip) + referents(one@) =~= group_at(before, ip).push(
                    *record,
                ));
            }
        },
        None => {},
    }
    out
}

/// Two groupings on the way to being one: as [`merged_groups`], but of the second only the
/// groups of the origins in `done` have been taken in.
pub open spec fn merged_so_far(
    first: Map<u32, Seq<LogEntry>>,
    second: Map<u32, Seq<LogEntry>>,
    done: Set<u32>,
) -> Map<u32, Seq<LogEntry>> {
    Map::new(
        |ip: u32| first.contains_key(ip) || (second.contains_key(ip) && done.contains(ip)),
        |ip: u32|
            group_at(first, ip) + if done.contains(ip) {
                group_at(second, ip)
            } else {
                Seq::empty()
            },
    )
}

/// Two groupings as one: the combinator that puts partial groupings together.
pub fn merge_groups<'a>(
    first: HashMap<u32, Vec<&'a LogEntry>>,
    second: HashMap<u32, Vec<&'a LogEntry>>,
) -> (out: HashMap<u32, Vec<&'a LogEntry>>)
    ensures
        group_view(out@) == merged_groups(group_view(first@), group_view(second@)),
{
    let ghost a = group_view(first@);
    let ghost b = group_view(second@);
    let ghost mut done: Set<u32> = Set::empty();
    let mut out = first;
    proof {
        assert(group_view(out@) =~= merged_so_far(a, b, done));
    }
    for pair in it: second.iter()
        invariant
            a == group_view(first@),
            b == group_view(second@),
            it.seq().no_duplicates(),
            forall|j: int|
                0 <= j < it.seq().len() ==> second@.contains_key(*(#[trigger] it.seq()[j]).0)
                    && second@[*it.seq()[j].0] == *it.seq()[j].1,
            forall|ip: u32| #[trigger]
                second@.contains_key(ip) ==> done.contains(ip) || exists|j: int|
                    it.index() <= j < it.seq().len() && *(#[trigger] it.seq()[j]).0 == ip,
            forall|j: int| 0 <= j < it.index() ==> done.contains(*(#[trigger] it.seq()[j]).0),
            forall|ip: u32|
                done.contains(ip) ==> exists|j: int|
                    0 <= j < it.index() && *(#[trigger] it.seq()[j]).0 == ip,
            group_view(out@) == merged_so_far(a, b, done),
    {
        let ghost before = group_view(out@);
        let ghost index = it.index();
        let (ip, list) = pair;
        proof {
            assert(pair == it.seq()[index]);
            if done.contains(*ip) {
                let j = choose|j: int| 0 <= j < index && *(#[trigger] it.seq()[j]).0 == *ip;
                assert(it.seq()[j] == it.seq()[index]);
            }
            assert(group_at(before, *ip) =~= group_at(a, *ip));
            assert(group_at(b, *ip) == referents(list@));
        }
        extend_group(&mut out, *ip, list);
        proof {
            let wider = done.insert(*ip);
            assert(group_view(out@) =~= merged_so_far(a, b, wider));
            done = wider;
        }
    }
    proof {
        assert forall|ip: u32| b.contains_key(ip) implies done.contains(ip) by {
            assert(second@.contains_key(ip));
        }
        assert(merged_so_far(a, b, done) =~= merged_groups(a, b));
    }
    out
}

/// The grouping that a plan for the records of a batch ends with: each part is the grouping
/// of its records, and two parts are merged.
pub open spec fn group_outcome(plan: Plan<LogEntry>) -> Map<u32, Seq<LogEntry>>
    decreases plan,
{
    match plan {
        Plan::Part(records) => groups_of(records),
        Plan::Join { first, second, swapped } => if swapped {
            merged_groups(group_outcome(*second), group_outcome(*first))
        } else {
            merged_groups(group_outcome(*first), group_outcome(*second))
        },
    }
}

/// The grouping is what some plan for the records, merging in order, ends with.
pub open spec fn grouping_follows_a_plan(
    records: Seq<LogEntry>,
    groups: Map<u32, Seq<LogEntry>>,
) -> bool {
    exists|plan: Plan<LogEntry>|
        plan.in_order() && plan.items() == records && groups == #[trigger] group_outcome(plan)
}

/// A plan that merges in order ends with the very grouping of its records taken in one run.
pub proof fn lemma_in_order_grouping(plan: Plan<LogEntry>)
    requires
        plan.in_order(),
    ensures
        group_outcome(plan) == groups_of(plan.items()),
    decreases plan,
{
    match plan {
        Plan::Part(records) => {},
        Plan::Join { first, second, swapped } => {
            lemma_in_order_grouping(*first);
            lemma_in_order_grouping(*second);
            lemma_groups_concat(first.items(), second.items());
        },
    }
}

/// `par_iter`, `fold` and `reduce` of rayon, over the records: rayon cuts the records into
/// runs as it sees fit, folds each run from no groups with [`group_record`], and merges the
/// groupings of adjacent runs, the earlier run's first, with [`merge_groups`]. Which plan it
/// follows is not known, only that it follows one.
#[verifier::external_body]
fn fold_records<'a>(records: &'a Vec<LogEntry>, matcher: &OriginMatcher) -> (groups: HashMap<
    u32,
    Vec<&'a LogEntry>,
>)
    ensures
        grouping_follows_a_plan(records@, group_view(groups@)),
{
    records.par_iter().fold(no_groups, |groups, record| group_record(groups, record, matcher))
        .reduce(no_groups, |first, second| merge_groups(first, second))
}

/// Grouping of the records of a batch by origin.
pub trait SshdLogs {
    fn by_ips(&self) -> Result<HashMap<u32, Vec<&LogEntry>>, SshLogParserError>;
}

impl SshdLogs for LogOutput {
    /// The records of the batch by origin, the records in parallel. A batch of failures only
    /// cannot be grouped. The origins of the outcome are exactly the origins that occur among
    /// the records, each with the records that have it, in the order of the batch; a record
    /// without an origin is left out.
    fn by_ips(&self) -> (outcome: Result<HashMap<u32, Vec<&LogEntry>>, SshLogParserError>)
        ensures
            self.status == OutputStatus::FAILED ==> outcome == Err::<
                HashMap<u32, Vec<&LogEntry>>,
                SshLogParserError,
            >(SshLogParserError::LogExtraction),
            self.status != OutputStatus::FAILED && !pattern_compiles(IPV4_PATTERN@) ==> outcome
                == Err::<HashMap<u32, Vec<&LogEntry>>, SshLogParserError>(
                SshLogParserError::Pattern,
            ),
            self.status != OutputStatus::FAILED && pattern_compiles(IPV4_PATTERN@) ==> outcome
                is Ok && group_view(outcome->Ok_0@) == groups_of(self.logs@),
            outcome matches Ok(groups) ==> forall|ip: u32|
                groups@.contains_key(ip) <==> exists|i: int|
                    0 <= i < self.logs@.len() && has_origin(#[trigger] self.logs@[i], ip),
    {
        if self.status == OutputStatus::FAILED {
            return Err(SshLogParserError::LogExtraction);
        }
        let matcher = match OriginMatcher::new() {
            Some(matcher) => matcher,
            None => {
                return Err(SshLogParserError::Pattern);
            },
        };
        let groups = fold_records(&self.logs, &matcher);
        proof {
            let plan = choose|plan: Plan<LogEntry>|
                plan.in_order() && plan.items() == self.logs@ && group_view(groups@)
                    == #[trigger] group_outcome(plan);
            lemma_in_order_grouping(plan);
            assert forall|ip: u32|
                groups@.contains_key(ip) <==> exists|i: int|
                    0 <= i < self.logs@.len() && has_origin(#[trigger] self.logs@[i], ip) by {
                lemma_groups_domain(self.logs@, ip);
                assert(group_view(groups@).contains_key(ip) <==> groups@.contains_key(ip));
            }
        }
        Ok(groups)
    }
}

} // verus!
