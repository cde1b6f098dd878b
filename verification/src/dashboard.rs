//! What the dashboard shows and how it is moved through: the origins ranked by the number of
//! their records, the tabs, the selected row, and the points on the map.

use crate::geolocation::Coordinate;
use crate::logs::{group_view, referents};
use crate::models::{entry_views, LogEntry};
use std::collections::HashMap;
use vstd::prelude::*;

verus! {

broadcast use vstd::std_specs::hash::group_hash_axioms;

/// One row of the table of origins: the address, its records, and how many there are.
pub type OriginRow = (u32, Vec<LogEntry>, usize);

/// The row shows one group of the grouping: its origin, copies of its records in their
/// order, and their number.
pub open spec fn shows(row: OriginRow, groups: Map<u32, Seq<LogEntry>>) -> bool {
    &&& groups.contains_key(row.0)
    &&& entry_views(row.1@) == entry_views(groups[row.0])
    &&& row.2 == row.1@.len()
}

/// The rows are the groups of the grouping, each once, those with more records first.
pub open spec fn ranks(rows: Seq<OriginRow>, groups: Map<u32, Seq<LogEntry>>) -> bool {
    &&& forall|i: int| 0 <= i < rows.len() ==> shows(#[trigger] rows[i], groups)
    &&& forall|i: int, j: int|
        0 <= i < j < rows.len() ==> (#[trigger] rows[i]).0 != (#[trigger] rows[j]).0
    &&& forall|ip: u32| #[trigger]
        groups.contains_key(ip) ==> exists|i: int|
            0 <= i < rows.len() && (#[trigger] rows[i]).0 == ip
    &&& forall|i: int, j: int|
        0 <= i < j < rows.len() ==> (#[trigger] rows[i]).2 >= (#[trigger] rows[j]).2
}

/// Copies of the records behind a list of references.
fn copies_of(records: &Vec<&LogEntry>) -> (copies: Vec<LogEntry>)
    ensures
        entry_views(copies@) == entry_views(referents(records@)),
{
    let mut copies: Vec<LogEntry> = Vec::new();
    let mut i: usize = 0;
    while i < records.len()
        invariant
            i <= records.len(),
            entry_views(copies@) == entry_views(referents(records@.take(i as int))),
        decreases records.len() - i,
    {
        let ghost shorter = copies@;
        let copy = records[i].clone();
        copies.push(copy);
        proof {
            let taken = records@.take(i as int);
            assert(records@.take(i + 1) =~= taken.push(records@[i as int]));
            assert(entry_views(copies@) =~= entry_views(shorter).push(copy@));
            assert(entry_views(referents(taken.push(records@[i as int]))) =~= entry_views(
                referents(taken),
            ).push(records@[i as int]@));
        }
        i += 1;
    }
    proof {
        assert(records@.take(records.len() as int) =~= records@);
    }
    copies
}

/// The rows are the groups of the origins in `done`, each once, those with more records
/// first.
pub open spec fn ranks_part(
    rows: Seq<OriginRow>,
    groups: Map<u32, Seq<LogEntry>>,
    done: Set<u32>,
) -> bool {
    &&& forall|i: int| 0 <= i < rows.len() ==> shows(#[trigger] rows[i], groups)
    &&& forall|i: int| 0 <= i < rows.len() ==> done.contains((#[trigger] rows[i]).0)
    &&& forall|i: int, j: int|
        0 <= i < j < rows.len() ==> (#[trigger] rows[i]).0 != (#[trigger] rows[j]).0
    &&& forall|ip: u32| #[trigger]
        done.contains(ip) ==> exists|i: int| 0 <= i < rows.len() && (#[trigger] rows[i]).0 == ip
    &&& forall|i: int, j: int|
        0 <= i < j < rows.len() ==> (#[trigger] rows[i]).2 >= (#[trigger] rows[j]).2
}

/// Puts a row after the rows with at least as many records and before the others.
fn place_row(
    rows: &mut Vec<OriginRow>,
    row: OriginRow,
    Ghost(groups): Ghost<Map<u32, Seq<LogEntry>>>,
    Ghost(done): Ghost<Set<u32>>,
)
    requires
        ranks_part(old(rows)@, groups, done),
        shows(row, groups),
        !done.contains(row.0),
    ensures
        ranks_part(final(rows)@, groups, done.insert(row.0)),
{
    let ghost before = rows@;
    let ghost origin = row.0;
    let count = row.2;
    let mut place: usize = 0;
    while place < rows.len() && rows[place].2 >= count
        invariant
            place <= rows.len(),
            rows@ == before,
            forall|i: int| 0 <= i < place ==> (#[trigger] rows@[i]).2 >= count,
        decreases rows.len() - place,
    {
        place += 1;
    }
    rows.insert(place, row);
    proof {
        let after = rows@;
        assert(after[place as int].0 == origin);
        assert forall|i: int| 0 <= i < after.len() implies shows(#[trigger] after[i], groups)
            && done.insert(origin).contains(after[i].0) by {
            if i < place {
                assert(after[i] == before[i]);
            } else if i > place {
                assert(after[i] == before[i - 1]);
            }
        }
        assert forall|i: int, j: int| 0 <= i < j < after.len() implies (#[trigger] after[i]).0
            != (#[trigger] after[j]).0 && after[i].2 >= after[j].2 by {
            if i < place {
                assert(after[i] == before[i]);
            } else if i > place {
                assert(after[i] == before[i - 1]);
            }
            if j < place {
                assert(after[j] == before[j]);
            } else if j > place {
                assert(after[j] == before[j - 1]);
            }
        }
        assert forall|ip: u32| #[trigger] done.insert(origin).contains(ip) implies exists|i: int|
            0 <= i < after.len() && (#[trigger] after[i]).0 == ip by {
            if ip != origin {
                let a = choose|i: int| 0 <= i < before.len() && (#[trigger] before[i]).0 == ip;
                if a < place {
                    assert(after[a] == before[a]);
                } else {
                    assert(after[a + 1] == before[a]);
                }
            }
        }
    }
}

/// The groups of a grouping as rows, those with more records first.
pub fn rank_origins(groups: &HashMap<u32, Vec<&LogEntry>>) -> (rows: Vec<OriginRow>)
    ensures
        ranks(rows@, group_view(groups@)),
{
    let ghost shown = group_view(groups@);
    let ghost mut done: Set<u32> = Set::empty();
    let mut rows: Vec<OriginRow> = Vec::new();
    for pair in it: groups.iter()
        invariant
            shown == group_view(groups@),
            it.seq().no_duplicates(),
            forall|j: int|
                0 <= j < it.seq().len() ==> groups@.contains_key(*(#[trigger] it.seq()[j]).0)
                    && groups@[*it.seq()[j].0] == *it.seq()[j].1,
            forall|ip: u32| #[trigger]
                groups@.contains_key(ip) ==> done.contains(ip) || exists|j: int|
                    it.index() <= j < it.seq().len() && *(#[trigger] it.seq()[j]).0 == ip,
            forall|ip: u32|
                done.contains(ip) ==> exists|j: int|
                    0 <= j < it.index() && *(#[trigger] it.seq()[j]).0 == ip,
            ranks_part(rows@, shown, done),
    {
        let ghost index = it.index();
        let (ip, list) = pair;
        let copies = copies_of(list);
        let count = copies.len();
        proof {
            assert(pair == it.seq()[index]);
            if done.contains(*ip) {
                let j = choose|j: int| 0 <= j < index && *(#[trigger] it.seq()[j]).0 == *ip;
                assert(it.seq()[j] == it.seq()[index]);
            }
        }
        place_row(&mut rows, (*ip, copies, count), Ghost(shown), Ghost(done));
        proof {
            done = done.insert(*ip);
        }
    }
    proof {
        assert forall|ip: u32| #[trigger] shown.contains_key(ip) implies exists|i: int|
            0 <= i < rows.len() && (#[trigger] rows@[i]).0 == ip by {
            assert(groups@.contains_key(ip));
            assert(done.contains(ip));
        }
    }
    rows
}

/// The state of the dashboard.
pub struct App {
    pub tab_titles: Vec<&'static str>,
    pub tab_index: usize,
    pub selected_row: Option<usize>,
    pub ssh_logs: Vec<OriginRow>,
    pub map_locations: Vec<Coordinate>,
}

/// The row after `selected` in a table of `rows` rows, the first one after the last and
/// where none is selected.
pub open spec fn row_below(selected: Option<usize>, rows: nat) -> usize {
    match selected {
        Some(row) => if row >= rows - 1 {
            0
        } else {
            (row + 1) as usize
        },
        None => 0,
    }
}

/// The row before `selected` in a table of `rows` rows, the last one before the first, and
/// the first where none is selected.
pub open spec fn row_above(selected: Option<usize>, rows: nat) -> usize {
    match selected {
        Some(row) => if row == 0 {
            (rows - 1) as usize
        } else {
            (row - 1) as usize
        },
        None => 0,
    }
}

impl App {
    /// There is a tab, and the current tab is one of the tabs.
    pub open spec fn wf(&self) -> bool {
        self.tab_index < self.tab_titles@.len()
    }

    /// A dashboard for a grouping: the table of origins on the first of two tabs, no row
    /// selected, no point on the map.
    pub fn new(groups: &HashMap<u32, Vec<&LogEntry>>) -> (app: App)
        ensures
            app.wf(),
            app.tab_titles@ == seq!["SSH Logs", "Map"],
            app.tab_index == 0,
            app.selected_row is None,
            ranks(app.ssh_logs@, group_view(groups@)),
            app.map_locations@ == Seq::<Coordinate>::empty(),
    {
        let mut tab_titles: Vec<&'static str> = Vec::new();
        tab_titles.push("SSH Logs");
        tab_titles.push("Map");
        assert(tab_titles@ =~= seq!["SSH Logs", "Map"]);
        App {
            tab_titles,
            tab_index: 0,
            selected_row: None,
            ssh_logs: rank_origins(groups),
            map_locations: Vec::new(),
        }
    }

    /// Goes to the next tab, from the last to the first. There must be a tab.
    pub fn next_tab(&mut self)
        requires
            old(self).tab_titles@.len() > 0,
            old(self).tab_index < usize::MAX,
        ensures
            final(self).wf(),
            final(self).tab_index == (old(self).tab_index + 1) % (old(self).tab_titles@.len() as int),
            final(self).tab_titles == old(self).tab_titles,
            final(self).selected_row == old(self).selected_row,
            final(self).ssh_logs == old(self).ssh_logs,
            final(self).map_locations == old(self).map_locations,
    {
        let tabs = self.tab_titles.len();
        self.tab_index = (self.tab_index + 1) % tabs;
    }

    /// Goes to the previous tab, from the first to the last. On the first tab, there must
    /// be a tab.
    pub fn previous_tab(&mut self)
        requires
            old(self).tab_index == 0 ==> old(self).tab_titles@.len() > 0,
        ensures
            old(self).wf() ==> final(self).wf(),
            final(self).tab_index == if old(self).tab_index > 0 {
                old(self).tab_index - 1
            } else {
                old(self).tab_titles@.len() - 1
            },
            final(self).tab_titles == old(self).tab_titles,
            final(self).selected_row == old(self).selected_row,
            final(self).ssh_logs == old(self).ssh_logs,
            final(self).map_locations == old(self).map_locations,
    {
        if self.tab_index > 0 {
            self.tab_index -= 1;
        } else {
            self.tab_index = self.tab_titles.len() - 1;
        }
    }

    /// On the table's tab, selects the row below the selected one; elsewhere nothing. With a
    /// row selected, the table must have rows.
    pub fn down_row(&mut self)
        requires
            old(self).tab_index == 0 && old(self).selected_row is Some ==> old(self).ssh_logs@.len()
                > 0,
        ensures
            final(self).selected_row == if old(self).tab_index == 0 {
                Some(row_below(old(self).selected_row, old(self).ssh_logs@.len()))
            } else {
                old(self).selected_row
            },
            final(self).tab_titles == old(self).tab_titles,
            final(self).tab_index == old(self).tab_index,
            final(self).ssh_logs == old(self).ssh_logs,
            final(self).map_locations == old(self).map_locations,
    {
        if self.tab_index == 0 {
            let row: usize = match self.selected_row {
                Some(row) => {
                    if row >= self.ssh_logs.len() - 1 {
                        0
                    } else {
                        row + 1
                    }
                },
                None => 0,
            };
            self.selected_row = Some(row);
        }
    }

    /// On the table's tab, selects the row above the selected one; elsewhere nothing. With
    /// the first row selected, the table must have rows.
    pub fn up_row(&mut self)
        requires
            old(self).tab_index == 0 && old(self).selected_row == Some(0usize) ==> old(
                self,
            ).ssh_logs@.len() > 0,
        ensures
            final(self).selected_row == if old(self).tab_index == 0 {
                Some(row_above(old(self).selected_row, old(self).ssh_logs@.len()))
            } else {
                old(self).selected_row
            },
            final(self).tab_titles == old(self).tab_titles,
            final(self).tab_index == old(self).tab_index,
            final(self).ssh_logs == old(self).ssh_logs,
            final(self).map_locations == old(self).map_locations,
    {
        if self.tab_index == 0 {
            let row: usize = match self.selected_row {
                Some(row) => {
                    if row == 0 {
                        self.ssh_logs.len() - 1
                    } else {
                        row - 1
                    }
                },
                None => 0,
            };
            self.selected_row = Some(row);
        }
    }

    /// A copy of the table of origins.
    pub fn mut_ssh_logs(&self) -> (rows: Vec<OriginRow>)
        ensures
            rows@.len() == self.ssh_logs@.len(),
            forall|i: int|
                0 <= i < rows@.len() ==> (#[trigger] rows@[i]).0 == self.ssh_logs@[i].0
                    && entry_views(rows@[i].1@) == entry_views(self.ssh_logs@[i].1@) && rows@[i].2
                    == self.ssh_logs@[i].2,
    {
        let mut rows: Vec<OriginRow> = Vec::new();
        let mut i: usize = 0;
        while i < self.ssh_logs.len()
            invariant
                i <= self.ssh_logs.len(),
                rows@.len() == i,
                forall|k: int|
                    0 <= k < i ==> (#[trigger] rows@[k]).0 == self.ssh_logs@[k].0 && entry_views(
                        rows@[k].1@,
                    ) == entry_views(self.ssh_logs@[k].1@) && rows@[k].2 == self.ssh_logs@[k].2,
            decreases self.ssh_logs.len() - i,
        {
            let records = &self.ssh_logs[i].1;
            let mut copies: Vec<LogEntry> = Vec::new();
            let mut k: usize = 0;
            while k < records.len()
                invariant
                    k <= records.len(),
                    entry_views(copies@) == entry_views(records@.take(k as int)),
                decreases records.len() - k,
            {
                let ghost shorter = copies@;
                let copy = records[k].clone();
                copies.push(copy);
                proof {
                    assert(records@.take(k + 1) =~= records@.take(k as int).push(
                        records@[k as int],
                    ));
                    assert(entry_views(copies@) =~= entry_views(shorter).push(copy@));
                    assert(entry_views(records@.take(k as int).push(records@[k as int]))
                        =~= entry_views(records@.take(k as int)).push(records@[k as int]@));
                }
                k += 1;
            }
            proof {
                assert(records@.take(records.len() as int) =~= records@);
            }
            rows.push((self.ssh_logs[i].0, copies, self.ssh_logs[i].2));
            i += 1;
        }
        rows
    }

    /// Puts one more point on the map.
    pub fn add_geolocation(&mut self, location: Coordinate)
        ensures
            final(self).map_locations@ == old(self).map_locations@.push(location),
            final(self).tab_titles == old(self).tab_titles,
            final(self).tab_index == old(self).tab_index,
            final(self).selected_row == old(self).selected_row,
            final(self).ssh_logs == old(self).ssh_logs,
    {
        self.map_locations.push(location);
    }
}

} // verus!
