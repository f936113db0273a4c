//! The history of runs: a list that holds the runs most lately recorded,
//! and the question of what a profile has done of late.

use crate::models::{records, BackupOperation, OperationRecord};
use vstd::prelude::*;
use vstd::seq_lib::to_multiset_insert;

verus! {

/// The most runs that the history holds.
pub const HISTORY_LIMIT: usize = 100;

/// `history` after `operation` has been recorded: it goes to the end, and
/// of the whole only the last [`HISTORY_LIMIT`] stay.
pub open spec fn appended(history: Seq<OperationRecord>, operation: OperationRecord) -> Seq<
    OperationRecord,
> {
    let all = history.push(operation);
    if all.len() > HISTORY_LIMIT {
        all.skip(all.len() - HISTORY_LIMIT)
    } else {
        all
    }
}

/// The runs of `history` that belong to the profile `profile_id`, in the
/// order of the history.
pub open spec fn of_profile(history: Seq<OperationRecord>, profile_id: Seq<char>) -> Seq<
    OperationRecord,
> {
    history.filter(|operation: OperationRecord| operation.profile_id == profile_id)
}

/// Where a run that started at `started_at` goes in a list that has the
/// newest first: behind every run from position `from` on that started at
/// that instant or later.
pub open spec fn place_for(newest: Seq<OperationRecord>, started_at: int, from: int) -> int
    decreases newest.len() - from,
{
    if 0 <= from < newest.len() && newest[from].started_at >= started_at {
        place_for(newest, started_at, from + 1)
    } else {
        from
    }
}

/// `operations` in the order of their starts, the newest first. Runs with
/// the same start keep the order they had.
pub open spec fn newest_first(operations: Seq<OperationRecord>) -> Seq<OperationRecord>
    decreases operations.len(),
{
    if operations.len() == 0 {
        Seq::empty()
    } else {
        let before = newest_first(operations.drop_last());
        before.insert(place_for(before, operations.last().started_at, 0), operations.last())
    }
}

/// The first `limit` of `operations`, or all of them if there is no limit
/// or there are fewer.
pub open spec fn limited(operations: Seq<OperationRecord>, limit: Option<usize>) -> Seq<
    OperationRecord,
> {
    match limit {
        Some(most) => if most < operations.len() {
            operations.take(most as int)
        } else {
            operations
        },
        None => operations,
    }
}

/// What the history tells of the profile `profile_id`: its runs, the
/// newest first, and at most `limit` of them.
pub open spec fn recent(
    history: Seq<OperationRecord>,
    profile_id: Seq<char>,
    limit: Option<usize>,
) -> Seq<OperationRecord> {
    limited(newest_first(of_profile(history, profile_id)), limit)
}

/// No run of the list started before a run that stands behind it.
pub open spec fn is_newest_first(operations: Seq<OperationRecord>) -> bool {
    forall|i: int, j: int|
        0 <= i <= j < operations.len() ==> operations[i].started_at >= operations[j].started_at
}

/// The place for a run lies in the list, behind runs that started no
/// earlier and before a run that started earlier.
proof fn lemma_place_for(newest: Seq<OperationRecord>, started_at: int, from: int)
    requires
        0 <= from <= newest.len(),
    ensures
        from <= place_for(newest, started_at, from) <= newest.len(),
        forall|i: int|
            from <= i < place_for(newest, started_at, from) ==> newest[i].started_at >= started_at,
        place_for(newest, started_at, from) < newest.len() ==> newest[place_for(
            newest,
            started_at,
            from,
        )].started_at < started_at,
    decreases newest.len() - from,
{
    if from < newest.len() && newest[from].started_at >= started_at {
        lemma_place_for(newest, started_at, from + 1);
    }
}

/// Ordering a list changes neither what it holds nor how many, and leaves
/// the newest first.
pub proof fn law_newest_first_orders(operations: Seq<OperationRecord>)
    ensures
        is_newest_first(newest_first(operations)),
        newest_first(operations).to_multiset() == operations.to_multiset(),
        newest_first(operations).len() == operations.len(),
    decreases operations.len(),
{
    if operations.len() == 0 {
        assert(operations =~= Seq::<OperationRecord>::empty());
    } else {
        let rest = operations.drop_last();
        let last = operations.last();
        let before = newest_first(rest);
        law_newest_first_orders(rest);
        let place = place_for(before, last.started_at, 0);
        lemma_place_for(before, last.started_at, 0);
        let after = before.insert(place, last);
        assert forall|i: int, j: int| 0 <= i <= j < after.len() implies after[i].started_at
            >= after[j].started_at by {
            if j < place {
                assert(after[i] == before[i] && after[j] == before[j]);
            } else if i > place {
                assert(after[i] == before[i - 1] && after[j] == before[j - 1]);
            } else if i == place {
                if j > place {
                    assert(after[j] == before[j - 1]);
                    assert(before[place].started_at >= before[j - 1].started_at);
                }
            } else {
                assert(after[i] == before[i]);
                if j > place {
                    assert(after[j] == before[j - 1]);
                    assert(before[i].started_at >= before[j - 1].started_at);
                }
            }
        }
        to_multiset_insert(before, place, last);
        assert(operations =~= rest.push(last));
        vstd::seq_lib::to_multiset_build(rest, last);
        assert(after.to_multiset() == before.to_multiset().insert(last));
        assert(rest.push(last).to_multiset() =~= rest.to_multiset().insert(last));
    }
}

/// Recording a run in a full history drops the run recorded longest ago
/// and keeps all the others, with the new run last. Asked of late runs, the
/// history then tells of these hundred, the newest first.
pub proof fn law_full_history_drops_the_oldest(
    history: Seq<OperationRecord>,
    operation: OperationRecord,
)
    requires
        history.len() == HISTORY_LIMIT,
    ensures
        appended(history, operation) == history.skip(1).push(operation),
        appended(history, operation).len() == HISTORY_LIMIT,
        is_newest_first(newest_first(appended(history, operation))),
        newest_first(appended(history, operation)).to_multiset() == appended(
            history,
            operation,
        ).to_multiset(),
        newest_first(appended(history, operation)).len() == HISTORY_LIMIT,
{
    assert(history.push(operation).skip(1) =~= history.skip(1).push(operation));
    law_newest_first_orders(appended(history, operation));
}

/// Recording a run in a history that is not full keeps every run, with the
/// new run last.
pub proof fn law_history_grows_until_full(history: Seq<OperationRecord>, operation: OperationRecord)
    requires
        history.len() < HISTORY_LIMIT,
    ensures
        appended(history, operation) == history.push(operation),
{
}

/// Records `operation` in `history`, which then holds the runs most lately
/// recorded, at most [`HISTORY_LIMIT`] of them, the latest last.
pub fn record_operation(history: &mut Vec<BackupOperation>, operation: BackupOperation)
    ensures
        records(final(history)@) == appended(records(old(history)@), operation@),
{
    let ghost before = records(history@);
    history.push(operation);
    assert(records(history@) =~= before.push(operation@));
    let ghost all = records(history@);
    let ghost mut dropped: int = 0;
    assert(all.skip(0) =~= all);
    while history.len() > HISTORY_LIMIT
        invariant
            0 <= dropped,
            dropped + history@.len() == all.len(),
            dropped == 0 || history@.len() >= HISTORY_LIMIT,
            records(history@) == all.skip(dropped),
        decreases history.len(),
    {
        let ghost here = records(history@);
        history.remove(0);
        proof {
            assert(records(history@) =~= here.remove(0));
            assert(here.remove(0) =~= all.skip(dropped + 1));
            dropped = dropped + 1;
        }
    }
}

/// Where a run that started at `started_at` goes in `newest`, which has the
/// newest first.
fn find_place(newest: &Vec<BackupOperation>, started_at: i64) -> (place: usize)
    ensures
        place == place_for(records(newest@), started_at as int, 0),
        place <= newest@.len(),
{
    let mut place: usize = 0;
    while place < newest.len() && newest[place].started_at >= started_at
        invariant
            place <= newest.len(),
            place_for(records(newest@), started_at as int, 0) == place_for(
                records(newest@),
                started_at as int,
                place as int,
            ),
        decreases newest.len() - place,
    {
        assert(records(newest@)[place as int].started_at == newest@[place as int].started_at);
        place = place + 1;
    }
    proof {
        if place < newest.len() {
            assert(records(newest@)[place as int].started_at == newest@[place as int].started_at);
        }
    }
    place
}

/// The runs of the profile `profile_id` in `history`, the newest first, and
/// at most `limit` of them.
pub fn recent_operations(history: &[BackupOperation], profile_id: &str, limit: Option<usize>) -> (found:
    Vec<BackupOperation>)
    ensures
        records(found@) == recent(records(history@), profile_id@, limit),
{
    let wanted = String::from_str(profile_id);
    let ghost belongs = |operation: OperationRecord| operation.profile_id == profile_id@;
    let mut found: Vec<BackupOperation> = Vec::new();
    let mut i: usize = 0;
    proof {
        reveal(Seq::filter);
        assert(records(history@).take(0) =~= Seq::<OperationRecord>::empty());
        assert(records(found@) =~= Seq::<OperationRecord>::empty());
    }
    while i < history.len()
        invariant
            i <= history.len(),
            wanted@ == profile_id@,
            belongs == (|operation: OperationRecord| operation.profile_id == profile_id@),
            records(found@) == newest_first(records(history@).take(i as int).filter(belongs)),
        decreases history.len() - i,
    {
        let ghost seen = records(history@).take(i as int);
        let ghost longer = records(history@).take(i + 1);
        proof {
            assert(longer =~= seen.push(history@[i as int]@));
            seen.lemma_filter_push(history@[i as int]@, belongs);
        }
        if history[i].profile_id == wanted {
            let operation = history[i].duplicate();
            let place = find_place(&found, operation.started_at);
            let ghost so_far = records(found@);
            found.insert(place, operation);
            proof {
                assert(records(found@) =~= so_far.insert(place as int, operation@));
                let kept = seen.filter(belongs).push(operation@);
                assert(kept.drop_last() =~= seen.filter(belongs));
                assert(kept.last() == operation@);
            }
        }
        i = i + 1;
    }
    proof {
        assert(records(history@).take(history.len() as int) =~= records(history@));
    }
    match limit {
        Some(most) => {
            if most < found.len() {
                let ghost all = records(found@);
                found.truncate(most);
                assert(records(found@) =~= all.take(most as int));
            }
        },
        None => {},
    }
    found
}

} // verus!
