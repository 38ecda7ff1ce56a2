//! Telling what came of locking the sources.

use vstd::prelude::*;

use crate::lock_file::show_info;
use crate::lock_file::shown_time;
use crate::lock_file::FullLock;
use crate::lock_file::Lock;
use crate::report::changed_lines;
use crate::report::changes;
use crate::report::new_locks;
use crate::report::show_change;
use crate::report::summarize;
use crate::report::unchanged_lines;
use crate::report::unchanged_names;
use crate::report::Change;
use crate::report::Summary;
use crate::sources::AnyLock;
use crate::sources::LockResult;
use crate::timestamp::date_time_text;
use crate::timestamp::Timestamp;

verus! {

/// A copy of a lock is the same lock.
pub proof fn law_copies(
    lock: Lock,
    lock_copy: Lock,
    full: FullLock,
    full_copy: FullLock,
    any: AnyLock,
    any_copy: AnyLock,
)
    requires
        call_ensures(<Lock as Clone>::clone, (&lock,), lock_copy),
        call_ensures(<FullLock as Clone>::clone, (&full,), full_copy),
        call_ensures(<AnyLock as Clone>::clone, (&any,), any_copy),
    ensures
        lock_copy == lock,
        full_copy == full,
        any_copy == any,
{
}

/// A revision is told by what people call it, with its time in brackets behind; by one of them
/// where the other is missing; by a question mark where both are.
pub proof fn law_show_info(version: Option<String>, last_modified: Option<String>, text: String)
    requires
        call_ensures(show_info, (version, last_modified), text),
    ensures
        version is Some && last_modified is Some ==> text@ == version->0@ + " ("@
            + last_modified->0@ + ")"@,
        version is Some && last_modified is None ==> text@ == version->0@,
        version is None && last_modified is Some ==> text@ == "("@ + last_modified->0@ + ")"@,
        version is None && last_modified is None ==> text@ == "?"@,
{
}

/// The time that a source knows itself goes before the one of the server.
pub proof fn law_shown_time(
    own: Option<Timestamp>,
    server: Option<Timestamp>,
    time: Option<Timestamp>,
)
    requires
        call_ensures(shown_time, (own, server), time),
    ensures
        own is Some ==> time == own,
        own is None ==> time == server,
{
}

/// A lock is told by its tag, where it is one on GitHub that has a tag, and by the time that the
/// server gave.
pub proof fn law_info(full: FullLock, text: String)
    requires
        call_ensures(FullLock::info, (&full,), text),
    ensures
        ({
            let tag = match full.inner {
                AnyLock::GitHub(lock) => lock.tag,
                AnyLock::Http(_) => None,
            };
            &&& tag is None && full.lock.last_modified is None ==> text@ == "?"@
            &&& full.lock.last_modified is None ==> (tag matches Some(tag) ==> text@ == tag@)
            &&& full.lock.last_modified matches Some(time) ==> {
                let (seconds, nanoseconds, offset) = time.parts();
                let shown = date_time_text(seconds, nanoseconds, offset);
                &&& tag matches Some(tag) ==> text@ == tag@ + " ("@ + shown + ")"@
                &&& tag is None ==> text@ == "("@ + shown + ")"@
            }
        }),
{
}

/// The results of two lots of sources together are told as those of the first, and then those of
/// the second.
pub proof fn law_summaries<E>(
    first: Vec<(String, Result<LockResult<FullLock>, E>)>,
    second: Vec<(String, Result<LockResult<FullLock>, E>)>,
    both: Vec<(String, Result<LockResult<FullLock>, E>)>,
    first_summary: Summary,
    second_summary: Summary,
    summary: Summary,
)
    requires
        call_ensures(summarize::<E>, (&first,), first_summary),
        call_ensures(summarize::<E>, (&second,), second_summary),
        call_ensures(summarize::<E>, (&both,), summary),
        both@ == first@ + second@,
    ensures
        summary.changed@ == first_summary.changed@ + second_summary.changed@,
        summary.unchanged@ == first_summary.unchanged@ + second_summary.unchanged@,
        summary.locks@ == first_summary.locks@ + second_summary.locks@,
{
    lemma_both(first@, second@);
}

proof fn lemma_both<E>(
    first: Seq<(String, Result<LockResult<FullLock>, E>)>,
    second: Seq<(String, Result<LockResult<FullLock>, E>)>,
)
    ensures
        changes(first + second) == changes(first) + changes(second),
        unchanged_names(first + second) == unchanged_names(first) + unchanged_names(second),
        new_locks(first + second) == new_locks(first) + new_locks(second),
    decreases second.len(),
{
    let both = first + second;
    if second.len() == 0 {
        assert(both =~= first);
        assert(changes(both) =~= changes(first) + changes(second));
        assert(unchanged_names(both) =~= unchanged_names(first) + unchanged_names(second));
        assert(new_locks(both) =~= new_locks(first) + new_locks(second));
    } else {
        assert(both.drop_last() =~= first + second.drop_last());
        assert(both.last() == second.last());
        lemma_both(first, second.drop_last());
        assert(changes(both) =~= changes(first) + changes(second));
        assert(unchanged_names(both) =~= unchanged_names(first) + unchanged_names(second));
        assert(new_locks(both) =~= new_locks(first) + new_locks(second));
    }
}

/// One result is told under its name: a change with both locks, no change by its name alone. What
/// was locked goes into the lock file, changed or not, and a failure is not told at all. Nothing
/// comes of nothing.
pub proof fn law_summary_of_one<E>(
    results: Vec<(String, Result<LockResult<FullLock>, E>)>,
    summary: Summary,
)
    requires
        call_ensures(summarize::<E>, (&results,), summary),
        results@.len() <= 1,
    ensures
        results@.len() == 0 || results@[0].1 is Err ==> {
            &&& summary.changed@.len() == 0
            &&& summary.unchanged@.len() == 0
            &&& summary.locks@.len() == 0
        },
        results@.len() == 1 ==> (results@[0].1 matches Ok(LockResult::Unchanged(lock)) ==> {
            &&& summary.changed@.len() == 0
            &&& summary.unchanged@ == seq![results@[0].0]
            &&& summary.locks@ == seq![(results@[0].0, lock)]
        }),
        results@.len() == 1 ==> (results@[0].1 matches Ok(LockResult::Changed(old, lock)) ==> {
            &&& summary.changed@ == seq![Change { name: results@[0].0, old, current: lock }]
            &&& summary.unchanged@.len() == 0
            &&& summary.locks@ == seq![(results@[0].0, lock)]
        }),
{
    if results@.len() == 1 {
        let none = results@.drop_last();
        assert(none.len() == 0);
        assert(results@.last() == results@[0]);
        assert(changes(none) =~= Seq::empty());
        assert(unchanged_names(none) =~= Seq::empty());
        assert(new_locks(none) =~= Seq::empty());
    }
}

/// A change is told by its name and by what it leads from and to, each in its own words; where there
/// was nothing before, by an empty set.
pub proof fn law_show_change(
    name: &str,
    old_info: Option<String>,
    current_info: &str,
    line: String,
)
    requires
        call_ensures(show_change, (name, old_info, current_info), line),
    ensures
        old_info matches Some(info) ==> line@ == "  "@ + name@ + " ["@ + info@ + " -> "@
            + current_info@ + "]"@,
        old_info is None ==> line@ == "  "@ + name@ + " ["@ + "∅"@ + " -> "@ + current_info@
            + "]"@,
{
}

/// The words for a change are those for its two locks.
pub proof fn law_change(change: Change, line: String, old_info: String, current_info: String)
    requires
        call_ensures(Change::show, (&change,), line),
        call_ensures(FullLock::info, (&change.current,), current_info),
        change.old matches Some(old) ==> call_ensures(FullLock::info, (&old,), old_info),
    ensures
        change.old is Some ==> line@ == "  "@ + change.name@ + " ["@ + old_info@ + " -> "@
            + current_info@ + "]"@,
        change.old is None ==> line@ == "  "@ + change.name@ + " ["@ + "∅"@ + " -> "@
            + current_info@ + "]"@,
{
}

/// What came of it is told line by line: first that the lock file was updated, then the names of
/// all sources that are unchanged under a heading, then all changes under a heading. A heading
/// stands only where something is under it.
pub proof fn law_report(summary: Summary, lines: Vec<String>)
    requires
        call_ensures(Summary::report, (&summary,), lines),
    ensures
        ({
            let below: int = if summary.unchanged@.len() > 0 {
                2 + summary.unchanged@.len() as int
            } else {
                1
            };
            &&& lines@.len() == below + (if summary.changed@.len() > 0 {
                1 + summary.changed@.len()
            } else {
                0
            })
            &&& lines@[0]@ == "Lock file updated"@
            &&& summary.unchanged@.len() > 0 ==> lines@[1]@ == "Unchanged:"@
            &&& forall|i: int|
                0 <= i < summary.unchanged@.len() ==> lines@[2 + i]@ == "  "@ + (
                #[trigger] summary.unchanged@[i])@
            &&& summary.changed@.len() > 0 ==> lines@[below]@ == "Changed:"@
            &&& forall|i: int, line: String|
                0 <= i < summary.changed@.len() && #[trigger] call_ensures(
                    Change::show,
                    (&summary.changed@[i],),
                    line,
                ) ==> lines@[below + 1 + i]@ == line@
        }),
{
    let texts = lines@.map_values(|s: String| s@);
    let names = summary.unchanged@.map_values(|name: String| "  "@ + name@);
    let shown = summary.changed@.map_values(|change: Change| change.shown());
    let below: int = if summary.unchanged@.len() > 0 {
        2 + summary.unchanged@.len() as int
    } else {
        1
    };
    let head = seq!["Lock file updated"@] + unchanged_lines(summary.unchanged@);
    assert(texts == head + changed_lines(summary.changed@));
    assert(texts.len() == lines@.len());
    assert(head.len() == below);
    assert(texts[0] == lines@[0]@);
    assert(texts[0] == head[0]);
    if summary.unchanged@.len() > 0 {
        assert(texts[1] == lines@[1]@);
        assert(texts[1] == head[1]);
    }
    assert forall|i: int| 0 <= i < summary.unchanged@.len() implies lines@[2 + i]@ == "  "@ + (
    #[trigger] summary.unchanged@[i])@ by {
        assert(texts[2 + i] == lines@[2 + i]@);
        assert(texts[2 + i] == head[2 + i]);
        assert(head[2 + i] == unchanged_lines(summary.unchanged@)[1 + i]);
        assert(unchanged_lines(summary.unchanged@)[1 + i] == names[i]);
    }
    if summary.changed@.len() > 0 {
        assert(texts[below] == lines@[below]@);
        assert(texts[below] == changed_lines(summary.changed@)[0]);
    }
    assert forall|i: int, line: String|
        0 <= i < summary.changed@.len() && #[trigger] call_ensures(
            Change::show,
            (&summary.changed@[i],),
            line,
        ) implies lines@[below + 1 + i]@ == line@ by {
        assert(texts[below + 1 + i] == lines@[below + 1 + i]@);
        assert(texts[below + 1 + i] == changed_lines(summary.changed@)[1 + i]);
        assert(changed_lines(summary.changed@)[1 + i] == shown[i]);
    }
}

} // verus!
