//! Batches of inserts: one record after the other, and none after a failure.

use vstd::prelude::*;
use crate::errors::{Failure, FailureView, outcome_view};
use crate::models::{KnownCustomersArray, Transactions};

verus! {

/// Where a batch of inserts stands.
#[derive(Debug, PartialEq, Eq)]
pub enum Batch {
    /// The record at this index is to be inserted next.
    Insert(usize),
    /// Every record was inserted.
    Complete,
    /// An insert failed, and no further record is to be inserted.
    Aborted(Failure),
}

/// What a batch position holds.
pub enum BatchView {
    Insert(nat),
    Complete,
    Aborted(FailureView),
}

impl View for Batch {
    type V = BatchView;

    open spec fn view(&self) -> BatchView {
        match self {
            Batch::Insert(index) => BatchView::Insert(*index as nat),
            Batch::Complete => BatchView::Complete,
            Batch::Aborted(failure) => BatchView::Aborted(failure@),
        }
    }
}

/// The position of a batch of `len` records of which the first `attempted`
/// were handed to the store, the latest of them with the outcome `last`
/// (success, where none was handed over yet).
pub open spec fn next_insert(len: nat, attempted: nat, last: Result<(), FailureView>) -> BatchView {
    match last {
        Err(failure) => BatchView::Aborted(failure),
        Ok(()) => if attempted < len {
            BatchView::Insert(attempted)
        } else {
            BatchView::Complete
        },
    }
}

fn advance(len: usize, attempted: usize, last: Result<(), Failure>) -> (batch: Batch)
    ensures
        batch@ == next_insert(len as nat, attempted as nat, outcome_view(last)),
{
    match last {
        Err(failure) => Batch::Aborted(failure),
        Ok(()) => if attempted < len {
            Batch::Insert(attempted)
        } else {
            Batch::Complete
        },
    }
}

/// The next move in inserting every known customer, in the order of the
/// registry. `attempted` counts the customers handed to the store so far and
/// `last` is the outcome of the latest of them (success, before the first).
pub fn insert_all_known_clients(
    known_customers: &KnownCustomersArray,
    attempted: usize,
    last: Result<(), Failure>,
) -> (batch: Batch)
    ensures
        batch@ == next_insert(known_customers@.len(), attempted as nat, outcome_view(last)),
{
    advance(known_customers.known_customers.len(), attempted, last)
}

/// The next move in inserting every transaction, in the order of the
/// collection. `attempted` counts the transactions handed to the store so far
/// and `last` is the outcome of the latest of them (success, before the first).
pub fn insert_all_transactions(
    transactions: &Transactions,
    attempted: usize,
    last: Result<(), Failure>,
) -> (batch: Batch)
    ensures
        batch@ == next_insert(transactions@.len(), attempted as nat, outcome_view(last)),
{
    advance(transactions.transactions.len(), attempted, last)
}

/// The outcome that a batch is resumed with after `attempted` records were
/// handed to a store that answers the insert of record `i` with `answers[i]`.
pub open spec fn latest(answers: Seq<Result<(), FailureView>>, attempted: nat) -> Result<
    (),
    FailureView,
> {
    if attempted == 0 {
        Ok(())
    } else {
        answers[attempted - 1]
    }
}

/// The indices of the records that are handed to the store, in order, when a
/// batch of `len` records runs from the position `attempted` against a store
/// that answers the insert of record `i` with `answers[i]`.
pub open spec fn inserts_from(
    len: nat,
    answers: Seq<Result<(), FailureView>>,
    attempted: nat,
) -> Seq<nat>
    decreases len - attempted,
{
    match next_insert(len, attempted, latest(answers, attempted)) {
        BatchView::Insert(index) => seq![index] + inserts_from(len, answers, attempted + 1),
        _ => Seq::empty(),
    }
}

/// How the same run ends.
pub open spec fn outcome_from(
    len: nat,
    answers: Seq<Result<(), FailureView>>,
    attempted: nat,
) -> Result<(), FailureView>
    decreases len - attempted,
{
    match next_insert(len, attempted, latest(answers, attempted)) {
        BatchView::Insert(_) => outcome_from(len, answers, attempted + 1),
        BatchView::Complete => Ok(()),
        BatchView::Aborted(failure) => Err(failure),
    }
}

/// The number of records that are handed to the store: all of them, or those
/// up to and including the first whose insert fails.
pub open spec fn reach(len: nat, answers: Seq<Result<(), FailureView>>, from: nat) -> nat
    decreases len - from,
{
    if from >= len {
        len
    } else if answers[from as int] is Err {
        from + 1
    } else {
        reach(len, answers, from + 1)
    }
}

/// All or abort. A batch hands its records to the store in order, starting
/// with the first, and stops with the first insert that fails: no record after
/// it is handed over, and the batch ends with that failure. Where no insert
/// fails, every record is handed over and the batch succeeds.
pub proof fn law_inserts_stop_at_first_failure(len: nat, answers: Seq<Result<(), FailureView>>)
    requires
        answers.len() == len,
    ensures
        inserts_from(len, answers, 0) == Seq::new(reach(len, answers, 0), |i: int| i as nat),
        reach(len, answers, 0) <= len,
        forall|i: int| 0 <= i < reach(len, answers, 0) - 1 ==> answers[i] is Ok,
        reach(len, answers, 0) > 0 && answers[reach(len, answers, 0) - 1] is Err
            ==> outcome_from(len, answers, 0) == answers[reach(len, answers, 0) - 1],
        (forall|i: int| 0 <= i < len ==> answers[i] is Ok) <==> outcome_from(len, answers, 0)
            is Ok,
        outcome_from(len, answers, 0) is Ok ==> reach(len, answers, 0) == len,
{
    lemma_run_from(len, answers, 0);
}

proof fn lemma_run_from(len: nat, answers: Seq<Result<(), FailureView>>, from: nat)
    requires
        answers.len() == len,
        from <= len,
        latest(answers, from) is Ok,
    ensures
        from <= reach(len, answers, from) <= len,
        inserts_from(len, answers, from) == Seq::new(
            (reach(len, answers, from) - from) as nat,
            |i: int| (from + i) as nat,
        ),
        forall|i: int| from <= i < reach(len, answers, from) - 1 ==> answers[i] is Ok,
        reach(len, answers, from) > from && answers[reach(len, answers, from) - 1] is Err
            ==> outcome_from(len, answers, from) == answers[reach(len, answers, from) - 1],
        (forall|i: int| from <= i < len ==> answers[i] is Ok) <==> outcome_from(
            len,
            answers,
            from,
        ) is Ok,
        outcome_from(len, answers, from) is Ok ==> reach(len, answers, from) == len,
    decreases len - from,
{
    if from >= len {
        assert(inserts_from(len, answers, from) =~= Seq::new(0, |i: int| (from + i) as nat));
    } else if answers[from as int] is Err {
        assert(latest(answers, from + 1) == answers[from as int]);
        assert(inserts_from(len, answers, from + 1) =~= Seq::<nat>::empty());
        assert(inserts_from(len, answers, from) =~= Seq::new(1, |i: int| (from + i) as nat));
        assert(outcome_from(len, answers, from + 1) == answers[from as int]);
        assert(outcome_from(len, answers, from) == outcome_from(len, answers, from + 1));
    } else {
        assert(latest(answers, from + 1) == answers[from as int]);
        lemma_run_from(len, answers, from + 1);
        let rest = reach(len, answers, from + 1);
        assert(inserts_from(len, answers, from) =~= Seq::new(
            (rest - from) as nat,
            |i: int| (from + i) as nat,
        ));
        assert(outcome_from(len, answers, from) == outcome_from(len, answers, from + 1));
        if outcome_from(len, answers, from) is Ok {
            assert forall|i: int| from <= i < len implies answers[i] is Ok by {
                if i > from {
                    assert(from + 1 <= i);
                }
            }
        }
    }
}

} // verus!
