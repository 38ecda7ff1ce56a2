//! Telling what came of locking the sources.

use vstd::prelude::*;
use vstd::string::*;

use crate::lock_file::FullLock;
use crate::sources::LockResult;
use crate::text::text_of;
use crate::text::texts;

verus! {

/// A source whose lock has changed.
#[derive(Debug)]
pub struct Change {
    /// The name of the source.
    pub name: String,
    /// Its lock as it was.
    pub old: Option<FullLock>,
    /// Its lock as it is now.
    pub current: FullLock,
}

/// What came of locking the sources.
#[derive(Debug)]
pub struct Summary {
    /// The sources whose locks have changed.
    pub changed: Vec<Change>,
    /// The names of the sources whose locks have not changed.
    pub unchanged: Vec<String>,
    /// The locks that go into the lock file, by the names of the sources.
    pub locks: Vec<(String, FullLock)>,
}

/// The changes among the results, in order.
pub open spec fn changes<E>(
    results: Seq<(String, Result<LockResult<FullLock>, E>)>,
) -> Seq<Change>
    decreases results.len(),
{
    if results.len() == 0 {
        Seq::empty()
    } else {
        let before = changes(results.drop_last());
        match results.last() {
            (name, Ok(LockResult::Changed(old, current))) => before.push(
                Change { name, old, current },
            ),
            _ => before,
        }
    }
}

/// The names of the sources among the results whose locks have not changed, in order.
pub open spec fn unchanged_names<E>(
    results: Seq<(String, Result<LockResult<FullLock>, E>)>,
) -> Seq<String>
    decreases results.len(),
{
    if results.len() == 0 {
        Seq::empty()
    } else {
        let before = unchanged_names(results.drop_last());
        match results.last() {
            (name, Ok(LockResult::Unchanged(_))) => before.push(name),
            _ => before,
        }
    }
}

/// The locks among the results, in order.
pub open spec fn new_locks<E>(
    results: Seq<(String, Result<LockResult<FullLock>, E>)>,
) -> Seq<(String, FullLock)>
    decreases results.len(),
{
    if results.len() == 0 {
        Seq::empty()
    } else {
        let before = new_locks(results.drop_last());
        match results.last() {
            (name, Ok(result)) => before.push((name, result.current_lock())),
            _ => before,
        }
    }
}

/// Sorts the results. A source that could not be locked is left out, so that nothing takes the place
/// of the lock that it has in the lock file.
pub fn summarize<E>(results: &Vec<(String, Result<LockResult<FullLock>, E>)>) -> (summary: Summary)
    ensures
        summary.changed@ == changes(results@),
        summary.unchanged@ == unchanged_names(results@),
        summary.locks@ == new_locks(results@),
{
    let mut changed: Vec<Change> = Vec::new();
    let mut unchanged: Vec<String> = Vec::new();
    let mut locks: Vec<(String, FullLock)> = Vec::new();
    let mut i: usize = 0;
    while i < results.len()
        invariant
            i <= results.len(),
            changed@ == changes(results@.take(i as int)),
            unchanged@ == unchanged_names(results@.take(i as int)),
            locks@ == new_locks(results@.take(i as int)),
        decreases results.len() - i,
    {
        let ghost upto = results@.take(i + 1);
        assert(upto.drop_last() =~= results@.take(i as int));
        assert(upto.last() == results@[i as int]);
        let name: &String = &results[i].0;
        if let Ok(result) = &results[i].1 {
            match result {
                LockResult::Changed(old, current) => {
                    let old: Option<FullLock> = match old {
                        Some(old) => Some(old.clone()),
                        None => None,
                    };
                    changed.push(Change { name: name.clone(), old, current: current.clone() });
                },
                LockResult::Unchanged(_) => {
                    unchanged.push(name.clone());
                },
            }
            locks.push((name.clone(), result.current().clone()));
        }
        i += 1;
    }
    assert(results@.take(i as int) =~= results@);
    Summary { changed, unchanged, locks }
}

/// Every source that was locked has either changed or not, and has a lock that goes into the lock
/// file.
pub proof fn law_every_lock_is_told_of<E>(
    results: Seq<(String, Result<LockResult<FullLock>, E>)>,
    i: int,
)
    requires
        0 <= i < results.len(),
        results[i].1 is Ok,
    ensures
        new_locks(results).contains((results[i].0, results[i].1->Ok_0.current_lock())),
        match results[i].1->Ok_0 {
            LockResult::Changed(old, current) => changes(results).contains(
                Change { name: results[i].0, old, current },
            ),
            LockResult::Unchanged(_) => unchanged_names(results).contains(results[i].0),
        },
    decreases results.len(),
{
    let before = results.drop_last();
    if i < results.len() - 1 {
        assert(before[i] == results[i]);
        law_every_lock_is_told_of(before, i);
        let lock = (results[i].0, results[i].1->Ok_0.current_lock());
        let j = choose|j: int| 0 <= j < new_locks(before).len() && new_locks(before)[j] == lock;
        assert(new_locks(results)[j] == lock);
        match results[i].1->Ok_0 {
            LockResult::Changed(old, current) => {
                let change = Change { name: results[i].0, old, current };
                let j = choose|j: int|
                    0 <= j < changes(before).len() && changes(before)[j] == change;
                assert(changes(results)[j] == change);
            },
            LockResult::Unchanged(_) => {
                let j = choose|j: int|
                    0 <= j < unchanged_names(before).len() && unchanged_names(before)[j]
                        == results[i].0;
                assert(unchanged_names(results)[j] == results[i].0);
            },
        }
    } else {
        let locks = new_locks(results);
        assert(locks[locks.len() - 1] == (results[i].0, results[i].1->Ok_0.current_lock()));
        match results[i].1->Ok_0 {
            LockResult::Changed(old, current) => {
                let all = changes(results);
                assert(all[all.len() - 1] == (Change { name: results[i].0, old, current }));
            },
            LockResult::Unchanged(_) => {
                let all = unchanged_names(results);
                assert(all[all.len() - 1] == results[i].0);
            },
        }
    }
}

/// As many sources have changed or not as have locks that go into the lock file, and no more than
/// were to be locked.
pub proof fn law_nothing_is_told_twice<E>(results: Seq<(String, Result<LockResult<FullLock>, E>)>)
    ensures
        changes(results).len() + unchanged_names(results).len() == new_locks(results).len(),
        new_locks(results).len() <= results.len(),
    decreases results.len(),
{
    if results.len() > 0 {
        law_nothing_is_told_twice(results.drop_last());
    }
}

/// Every lock that goes into the lock file is one that a source was locked to, under its name.
pub proof fn law_every_lock_was_found<E>(
    results: Seq<(String, Result<LockResult<FullLock>, E>)>,
    k: int,
)
    requires
        0 <= k < new_locks(results).len(),
    ensures
        exists|i: int|
            {
                &&& 0 <= i < results.len()
                &&& (#[trigger] results[i]).1 is Ok
                &&& new_locks(results)[k] == (results[i].0, results[i].1->Ok_0.current_lock())
            },
    decreases results.len(),
{
    let before = results.drop_last();
    if k < new_locks(before).len() {
        law_every_lock_was_found(before, k);
        let i = choose|i: int|
            {
                &&& 0 <= i < before.len()
                &&& (#[trigger] before[i]).1 is Ok
                &&& new_locks(before)[k] == (before[i].0, before[i].1->Ok_0.current_lock())
            };
        assert(results[i] == before[i]);
    } else {
        assert(results[results.len() - 1].1 is Ok);
    }
}

/// No lock goes into the lock file under the name of a source that could not be locked.
pub proof fn law_a_failure_leaves_the_lock<E>(
    results: Seq<(String, Result<LockResult<FullLock>, E>)>,
    failed: int,
    k: int,
)
    requires
        0 <= failed < results.len(),
        results[failed].1 is Err,
        forall|i: int|
            0 <= i < results.len() && i != failed ==> (#[trigger] results[i]).0@
                != results[failed].0@,
        0 <= k < new_locks(results).len(),
    ensures
        new_locks(results)[k].0@ != results[failed].0@,
{
    law_every_lock_was_found(results, k);
}

/// Whether no two results have the same name.
pub open spec fn no_name_twice<E>(
    results: Seq<(String, Result<LockResult<FullLock>, E>)>,
) -> bool {
    forall|i: int, j: int|
        0 <= i < j < results.len() ==> (#[trigger] results[i]).0@ != (#[trigger] results[j]).0@
}

/// Every change is told under the name of a source whose lock has changed, and every name of a
/// source whose lock has not changed is that of one.
proof fn lemma_names_told<E>(results: Seq<(String, Result<LockResult<FullLock>, E>)>)
    ensures
        forall|k: int|
            0 <= k < changes(results).len() ==> exists|i: int|
                {
                    &&& 0 <= i < results.len()
                    &&& (#[trigger] results[i]).1 matches Ok(result)
                    &&& result is Changed
                    &&& (#[trigger] changes(results)[k]).name == results[i].0
                },
        forall|k: int|
            0 <= k < unchanged_names(results).len() ==> exists|i: int|
                {
                    &&& 0 <= i < results.len()
                    &&& (#[trigger] results[i]).1 matches Ok(result)
                    &&& result is Unchanged
                    &&& (#[trigger] unchanged_names(results)[k]) == results[i].0
                },
    decreases results.len(),
{
    if results.len() > 0 {
        let before = results.drop_last();
        let last = results.len() - 1;
        lemma_names_told(before);
        assert forall|k: int| 0 <= k < changes(results).len() implies exists|i: int|
            {
                &&& 0 <= i < results.len()
                &&& (#[trigger] results[i]).1 matches Ok(result)
                &&& result is Changed
                &&& (#[trigger] changes(results)[k]).name == results[i].0
            } by {
            if k < changes(before).len() {
                assert(changes(results)[k] == changes(before)[k]);
                let i = choose|i: int|
                    {
                        &&& 0 <= i < before.len()
                        &&& (#[trigger] before[i]).1 matches Ok(result)
                        &&& result is Changed
                        &&& changes(before)[k].name == before[i].0
                    };
                assert(results[i] == before[i]);
            } else {
                assert(results[last].1->Ok_0 is Changed);
            }
        }
        assert forall|k: int| 0 <= k < unchanged_names(results).len() implies exists|i: int|
            {
                &&& 0 <= i < results.len()
                &&& (#[trigger] results[i]).1 matches Ok(result)
                &&& result is Unchanged
                &&& (#[trigger] unchanged_names(results)[k]) == results[i].0
            } by {
            if k < unchanged_names(before).len() {
                assert(unchanged_names(results)[k] == unchanged_names(before)[k]);
                let i = choose|i: int|
                    {
                        &&& 0 <= i < before.len()
                        &&& (#[trigger] before[i]).1 matches Ok(result)
                        &&& result is Unchanged
                        &&& unchanged_names(before)[k] == before[i].0
                    };
                assert(results[i] == before[i]);
            } else {
                assert(results[last].1->Ok_0 is Unchanged);
            }
        }
    }
}

/// Where no two results have the same name, no name is told twice: not among the changes, not
/// among the sources that have not changed, not among both, and not among the locks.
pub proof fn law_no_name_is_told_twice<E>(
    results: Seq<(String, Result<LockResult<FullLock>, E>)>,
)
    requires
        no_name_twice(results),
    ensures
        forall|i: int, j: int|
            0 <= i < j < changes(results).len() ==> (#[trigger] changes(results)[i]).name@ != (
            #[trigger] changes(results)[j]).name@,
        forall|i: int, j: int|
            0 <= i < j < unchanged_names(results).len() ==> (#[trigger] unchanged_names(
                results,
            )[i])@ != (#[trigger] unchanged_names(results)[j])@,
        forall|i: int, j: int|
            0 <= i < changes(results).len() && 0 <= j < unchanged_names(results).len() ==> (
            #[trigger] changes(results)[i]).name@ != (#[trigger] unchanged_names(results)[j])@,
        forall|i: int, j: int|
            0 <= i < j < new_locks(results).len() ==> (#[trigger] new_locks(results)[i]).0@ != (
            #[trigger] new_locks(results)[j]).0@,
    decreases results.len(),
{
    if results.len() > 0 {
        let before = results.drop_last();
        let last = results.len() - 1;
        assert(no_name_twice(before)) by {
            assert forall|i: int, j: int| 0 <= i < j < before.len() implies (
            #[trigger] before[i]).0@ != (#[trigger] before[j]).0@ by {
                assert(before[i] == results[i] && before[j] == results[j]);
            }
        }
        law_no_name_is_told_twice(before);
        lemma_names_told(before);
        assert forall|i: int| 0 <= i < before.len() implies (#[trigger] before[i]).0@
            != results[last].0@ by {
            assert(before[i] == results[i]);
        }
        assert forall|k: int| 0 <= k < changes(before).len() implies (#[trigger] changes(
            before,
        )[k]).name@ != results[last].0@ by {}
        assert forall|k: int| 0 <= k < unchanged_names(before).len() implies (
        #[trigger] unchanged_names(before)[k])@ != results[last].0@ by {}
        assert forall|k: int| 0 <= k < new_locks(before).len() implies (#[trigger] new_locks(
            before,
        )[k]).0@ != results[last].0@ by {
            law_every_lock_was_found(before, k);
        }
    }
}

/// The line that tells of a change, given the revisions in a few words.
pub open spec fn change_line(
    name: Seq<char>,
    old_info: Option<Seq<char>>,
    current_info: Seq<char>,
) -> Seq<char> {
    let from = match old_info {
        Some(info) => info,
        None => "∅"@,
    };
    "  "@ + name + " ["@ + from + " -> "@ + current_info + "]"@
}

/// The line that tells of a change, given the revisions in a few words.
pub fn show_change(name: &str, old_info: Option<String>, current_info: &str) -> (line: String)
    ensures
        line@ == change_line(name@, text_of(old_info), current_info@),
{
    let mut line: String = "  ".to_owned();
    line.append(name);
    line.append(" [");
    match old_info {
        Some(info) => line.append(info.as_str()),
        None => line.append("∅"),
    }
    line.append(" -> ");
    line.append(current_info);
    line.append("]");
    line
}

impl Change {
    /// The line that tells of the change.
    pub open spec fn shown(self) -> Seq<char> {
        change_line(
            self.name@,
            match self.old {
                Some(old) => Some(old.info_shown()),
                None => None,
            },
            self.current.info_shown(),
        )
    }

    /// The line that tells of the change.
    pub fn show(&self) -> (line: String)
        ensures
            line@ == self.shown(),
    {
        let old_info: Option<String> = match &self.old {
            Some(old) => Some(old.info()),
            None => None,
        };
        let current_info: String = self.current.info();
        show_change(self.name.as_str(), old_info, current_info.as_str())
    }
}

/// The lines that tell of the sources whose locks have not changed.
pub open spec fn unchanged_lines(names: Seq<String>) -> Seq<Seq<char>> {
    if names.len() == 0 {
        Seq::empty()
    } else {
        seq!["Unchanged:"@] + names.map_values(|name: String| "  "@ + name@)
    }
}

/// The lines that tell of the sources whose locks have changed.
pub open spec fn changed_lines(changed: Seq<Change>) -> Seq<Seq<char>> {
    if changed.len() == 0 {
        Seq::empty()
    } else {
        seq!["Changed:"@] + changed.map_values(|change: Change| change.shown())
    }
}

impl Summary {
    /// The lines that tell what came of locking the sources.
    pub fn report(&self) -> (lines: Vec<String>)
        ensures
            texts(lines@) == seq!["Lock file updated"@] + unchanged_lines(self.unchanged@)
                + changed_lines(self.changed@),
    {
        let mut lines: Vec<String> = Vec::new();
        lines.push("Lock file updated".to_owned());
        assert(texts(lines@) =~= seq!["Lock file updated"@]);
        if self.unchanged.len() > 0 {
            lines.push("Unchanged:".to_owned());
            let ghost above = texts(lines@);
            let ghost told = self.unchanged@.map_values(|name: String| "  "@ + name@);
            let mut i: usize = 0;
            while i < self.unchanged.len()
                invariant
                    i <= self.unchanged.len(),
                    told == self.unchanged@.map_values(|name: String| "  "@ + name@),
                    texts(lines@) =~= above + told.take(i as int),
                decreases self.unchanged.len() - i,
            {
                let ghost before = lines@;
                let mut line: String = "  ".to_owned();
                line.append(self.unchanged[i].as_str());
                lines.push(line);
                assert(texts(lines@) =~= texts(before).push(line@));
                assert(told.take(i + 1) =~= told.take(i as int).push(line@));
                i += 1;
            }
            assert(told.take(i as int) =~= told);
        }
        let ghost head = seq!["Lock file updated"@] + unchanged_lines(self.unchanged@);
        assert(texts(lines@) =~= head);
        if self.changed.len() > 0 {
            lines.push("Changed:".to_owned());
            let ghost above = texts(lines@);
            let ghost told = self.changed@.map_values(|change: Change| change.shown());
            let mut i: usize = 0;
            while i < self.changed.len()
                invariant
                    i <= self.changed.len(),
                    told == self.changed@.map_values(|change: Change| change.shown()),
                    texts(lines@) =~= above + told.take(i as int),
                decreases self.changed.len() - i,
            {
                let ghost before = lines@;
                let line: String = self.changed[i].show();
                lines.push(line);
                assert(texts(lines@) =~= texts(before).push(line@));
                assert(told.take(i + 1) =~= told.take(i as int).push(line@));
                i += 1;
            }
            assert(told.take(i as int) =~= told);
        }
        assert(texts(lines@) =~= head + changed_lines(self.changed@));
        lines
    }
}

} // verus!
