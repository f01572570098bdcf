//! The deposits to wallets of no known customer: their sum and their count,
//! in one report line.

use vstd::prelude::*;
use crate::config::{Config, ConfigView};
use crate::errors::{
    ErrorKind, Failure, FailureView, no_deposits, no_transactions, outcome_view,
};
use crate::models::Amount;
use crate::protocol::{
    Reply, ReplyView, Report, ReportView, Request, RequestView, answers, reply_failure,
    reply_view,
};

verus! {

/// Where the unknown-customer deposits workflow stands.
#[derive(Debug, Clone, Copy, PartialEq, Eq, Structural)]
pub enum UnknownDepositsState {
    /// Nothing was asked for yet.
    Start,
    /// The connection was asked for.
    Connecting,
    /// The sum of the deposits was asked for.
    QueryingSum,
    /// The count of the deposits was asked for.
    QueryingCount { sum: Amount },
    /// The report line was handed out.
    Emitting,
    /// The workflow has ended.
    Finished,
}

impl View for UnknownDepositsState {
    type V = UnknownDepositsState;

    open spec fn view(&self) -> UnknownDepositsState {
        *self
    }
}

/// Whether `reply` answers what the workflow asked for in `state`.
pub open spec fn unknown_deposits_expects(
    state: UnknownDepositsState,
    reply: Option<ReplyView>,
) -> bool {
    match state {
        UnknownDepositsState::Start => reply is None,
        UnknownDepositsState::Connecting => reply matches Some(ReplyView::Done(_)),
        UnknownDepositsState::QueryingSum => reply matches Some(ReplyView::Amount(_)),
        UnknownDepositsState::QueryingCount { .. } => reply matches Some(ReplyView::Count(_)),
        UnknownDepositsState::Emitting => reply matches Some(ReplyView::Done(_)),
        UnknownDepositsState::Finished => false,
    }
}

/// The workflow ends with `outcome`.
pub open spec fn unknown_deposits_finish(outcome: Result<(), FailureView>) -> (
    UnknownDepositsState,
    RequestView,
) {
    (UnknownDepositsState::Finished, RequestView::Finish(outcome))
}

/// The unknown-customer deposits workflow, one move at a time.
///
/// It connects; asks for the sum of the deposits to wallets of no known
/// customer, then for their count; hands out one report line; and finishes.
/// A sum or a count that the store lacks ends it with a failure, and so does
/// any reply that reports one.
pub open spec fn unknown_deposits_step(
    config: ConfigView,
    state: UnknownDepositsState,
    reply: Option<ReplyView>,
) -> (UnknownDepositsState, RequestView) {
    match (state, reply) {
        (UnknownDepositsState::Start, None) => (
            UnknownDepositsState::Connecting,
            RequestView::Connect(config.db_connection_string),
        ),
        (UnknownDepositsState::Connecting, Some(ReplyView::Done(Ok(())))) => (
            UnknownDepositsState::QueryingSum,
            RequestView::UnknownWalletDepositAmount,
        ),
        (UnknownDepositsState::Connecting, Some(ReplyView::Done(Err(failure)))) => {
            unknown_deposits_finish(Err(failure))
        },
        (UnknownDepositsState::QueryingSum, Some(ReplyView::Amount(Ok(Some(sum))))) => (
            UnknownDepositsState::QueryingCount { sum },
            RequestView::UnknownWalletTransactionCount,
        ),
        (UnknownDepositsState::QueryingSum, Some(ReplyView::Amount(Ok(None)))) => {
            unknown_deposits_finish(Err(no_deposits()))
        },
        (UnknownDepositsState::QueryingSum, Some(ReplyView::Amount(Err(failure)))) => {
            unknown_deposits_finish(Err(failure))
        },
        (UnknownDepositsState::QueryingCount { sum }, Some(ReplyView::Count(Ok(Some(count))))) => (
            UnknownDepositsState::Emitting,
            RequestView::Emit(ReportView::Unreferenced { count, sum }),
        ),
        (UnknownDepositsState::QueryingCount { .. }, Some(ReplyView::Count(Ok(None)))) => {
            unknown_deposits_finish(Err(no_transactions()))
        },
        (UnknownDepositsState::QueryingCount { .. }, Some(ReplyView::Count(Err(failure)))) => {
            unknown_deposits_finish(Err(failure))
        },
        (UnknownDepositsState::Emitting, Some(ReplyView::Done(outcome))) => {
            unknown_deposits_finish(outcome)
        },
        _ => arbitrary(),
    }
}

impl UnknownDepositsState {
    /// Whether the workflow can be resumed from this state with `reply`.
    pub fn accepts(&self, reply: &Option<Reply>) -> (accepted: bool)
        ensures
            accepted == unknown_deposits_expects(self@, reply_view(*reply)),
    {
        match self {
            UnknownDepositsState::Start => reply.is_none(),
            UnknownDepositsState::Connecting => matches!(reply, Some(Reply::Done(_))),
            UnknownDepositsState::QueryingSum => matches!(reply, Some(Reply::Amount(_))),
            UnknownDepositsState::QueryingCount { .. } => matches!(reply, Some(Reply::Count(_))),
            UnknownDepositsState::Emitting => matches!(reply, Some(Reply::Done(_))),
            UnknownDepositsState::Finished => false,
        }
    }
}

fn unknown_finish(outcome: Result<(), Failure>) -> (moved: (UnknownDepositsState, Request))
    ensures
        (moved.0@, moved.1@) == unknown_deposits_finish(outcome_view(outcome)),
{
    (UnknownDepositsState::Finished, Request::Finish(outcome))
}

/// One move of the unknown-customer deposits workflow. Begin with
/// `UnknownDepositsState::Start` and no reply; perform the request that comes
/// back, and call again with the state that comes back and the reply, until
/// the request is `Request::Finish`.
pub fn unknown_customer_deposits(
    config: &Config,
    state: UnknownDepositsState,
    reply: Option<Reply>,
) -> (moved: (UnknownDepositsState, Request))
    requires
        unknown_deposits_expects(state@, reply_view(reply)),
    ensures
        (moved.0@, moved.1@) == unknown_deposits_step(config@, state@, reply_view(reply)),
{
    match state {
        UnknownDepositsState::Start => (
            UnknownDepositsState::Connecting,
            Request::Connect(config.db_connection_string.clone()),
        ),
        UnknownDepositsState::Connecting => match reply {
            Some(Reply::Done(Ok(()))) => (
                UnknownDepositsState::QueryingSum,
                Request::UnknownWalletDepositAmount,
            ),
            Some(Reply::Done(Err(failure))) => unknown_finish(Err(failure)),
            _ => vstd::pervasive::unreached(),
        },
        UnknownDepositsState::QueryingSum => match reply {
            Some(Reply::Amount(Ok(Some(sum)))) => (
                UnknownDepositsState::QueryingCount { sum },
                Request::UnknownWalletTransactionCount,
            ),
            Some(Reply::Amount(Ok(None))) => unknown_finish(
                Err(Failure::new(ErrorKind::MissingResult, "No Deposits Found")),
            ),
            Some(Reply::Amount(Err(failure))) => unknown_finish(Err(failure)),
            _ => vstd::pervasive::unreached(),
        },
        UnknownDepositsState::QueryingCount { sum } => match reply {
            Some(Reply::Count(Ok(Some(count)))) => (
                UnknownDepositsState::Emitting,
                Request::Emit(Report::Unreferenced { count, sum }),
            ),
            Some(Reply::Count(Ok(None))) => unknown_finish(
                Err(Failure::new(ErrorKind::MissingResult, "No Transactions Found")),
            ),
            Some(Reply::Count(Err(failure))) => unknown_finish(Err(failure)),
            _ => vstd::pervasive::unreached(),
        },
        UnknownDepositsState::Emitting => match reply {
            Some(Reply::Done(outcome)) => unknown_finish(outcome),
            _ => vstd::pervasive::unreached(),
        },
        UnknownDepositsState::Finished => vstd::pervasive::unreached(),
    }
}

/// Every step of the unknown-customer deposits workflow must succeed: a
/// reply that reports a failure ends the workflow at once, with that failure
/// unchanged, and nothing answers it any more.
pub proof fn law_unknown_deposits_failure_is_final(
    config: ConfigView,
    state: UnknownDepositsState,
    reply: ReplyView,
    failure: FailureView,
)
    requires
        unknown_deposits_expects(state, Some(reply)),
        reply_failure(reply) == Some(failure),
    ensures
        unknown_deposits_step(config, state, Some(reply)) == unknown_deposits_finish(
            Err(failure),
        ),
        forall|later: Option<ReplyView>|
            !unknown_deposits_expects(unknown_deposits_step(config, state, Some(reply)).0, later),
{
}

/// The unknown-customer deposits workflow waits for exactly the replies that answer the
/// request it has just made.
pub proof fn law_unknown_deposits_expects_the_answer(
    config: ConfigView,
    state: UnknownDepositsState,
    reply: Option<ReplyView>,
    next: ReplyView,
)
    requires
        unknown_deposits_expects(state, reply),
    ensures
        unknown_deposits_expects(unknown_deposits_step(config, state, reply).0, Some(next)) == answers(
            unknown_deposits_step(config, state, reply).1,
            next,
        ),
{
}

/// The requests that the unknown-customer deposits workflow makes, in order, when it is
/// resumed from `state` with `reply` and each of its requests is answered by
/// the next reply of `script`. The run ends with the end of the workflow,
/// with the end of the script, or with a reply that does not answer the
/// request.
pub open spec fn unknown_deposits_run(
    config: ConfigView,
    state: UnknownDepositsState,
    reply: Option<ReplyView>,
    script: Seq<ReplyView>,
) -> Seq<RequestView>
    decreases script.len(),
{
    let (next, request) = unknown_deposits_step(config, state, reply);
    if script.len() > 0 && answers(request, script[0]) {
        seq![request] + unknown_deposits_run(config, next, Some(script[0]), script.drop_first())
    } else {
        seq![request]
    }
}

/// Over whole runs of the unknown-customer deposits workflow, whatever the replies: when the
/// reply to a request reports a failure, the next request is the end of the
/// workflow with that failure, and it is the last.
pub proof fn law_unknown_deposits_stops_at_the_first_failure(
    config: ConfigView,
    script: Seq<ReplyView>,
    i: int,
)
    requires
        0 <= i,
        i + 1 < unknown_deposits_run(config, UnknownDepositsState::Start, None, script).len(),
        reply_failure(script[i]) is Some,
    ensures
        unknown_deposits_run(config, UnknownDepositsState::Start, None, script).len() == i + 2,
        unknown_deposits_run(config, UnknownDepositsState::Start, None, script)[i + 1] == RequestView::Finish(
            Err(reply_failure(script[i])->0),
        ),
{
    lemma_unknown_deposits_run(config, UnknownDepositsState::Start, None, script, i);
}

proof fn lemma_unknown_deposits_run(
    config: ConfigView,
    state: UnknownDepositsState,
    reply: Option<ReplyView>,
    script: Seq<ReplyView>,
    i: int,
)
    requires
        unknown_deposits_expects(state, reply),
        0 <= i,
        i + 1 < unknown_deposits_run(config, state, reply, script).len(),
    ensures
        i < script.len(),
        reply_failure(script[i]) is Some ==> unknown_deposits_run(config, state, reply, script).len()
            == i + 2 && unknown_deposits_run(config, state, reply, script)[i + 1]
            == RequestView::Finish(Err(reply_failure(script[i])->0)),
    decreases script.len(),
{
    let (next, request) = unknown_deposits_step(config, state, reply);
    let run = unknown_deposits_run(config, state, reply, script);
    if script.len() > 0 && answers(request, script[0]) {
        let rest = unknown_deposits_run(config, next, Some(script[0]), script.drop_first());
        assert(run == seq![request] + rest);
        law_unknown_deposits_expects_the_answer(config, state, reply, script[0]);
        if i == 0 {
            if reply_failure(script[0]) is Some {
                let failure = reply_failure(script[0])->0;
                law_unknown_deposits_failure_is_final(config, next, script[0], failure);
                let last = unknown_deposits_step(config, next, Some(script[0])).1;
                assert(last == RequestView::Finish(Err(failure)));
                assert(rest == seq![last]);
                assert(run[1] == rest[0]);
            }
        } else {
            assert(rest.len() == run.len() - 1);
            lemma_unknown_deposits_run(config, next, Some(script[0]), script.drop_first(), i - 1);
            assert(script.drop_first()[i - 1] == script[i]);
            assert(run[i + 1] == rest[i]);
        }
    } else {
        assert(run == seq![request]);
    }
}

/// When nothing fails and the store has both values, the unknown-customer
/// deposits workflow asks for the sum, then for the count, puts out one line
/// with both, and ends in success.
pub proof fn law_unknown_deposits_reports_one_line(config: ConfigView, sum: Amount, count: i32)
    ensures
        unknown_deposits_run(
            config,
            UnknownDepositsState::Start,
            None,
            seq![
                ReplyView::Done(Ok(())),
                ReplyView::Amount(Ok(Some(sum))),
                ReplyView::Count(Ok(Some(count))),
                ReplyView::Done(Ok(())),
            ],
        ) == seq![
            RequestView::Connect(config.db_connection_string),
            RequestView::UnknownWalletDepositAmount,
            RequestView::UnknownWalletTransactionCount,
            RequestView::Emit(ReportView::Unreferenced { count, sum }),
            RequestView::Finish(Ok(())),
        ],
{
    let ok = ReplyView::Done(Ok(()));
    let summed = ReplyView::Amount(Ok(Some(sum)));
    let counted = ReplyView::Count(Ok(Some(count)));
    let first = seq![ok, summed, counted, ok];
    let second = first.drop_first();
    let third = second.drop_first();
    let fourth = third.drop_first();
    let none = fourth.drop_first();
    assert(first[0] == ok && second[0] == summed && third[0] == counted && fourth[0] == ok);
    assert(none.len() == 0);
    let emitted = unknown_deposits_run(config, UnknownDepositsState::Emitting, Some(ok), none);
    assert(emitted == seq![RequestView::Finish(Ok(()))]);
    let counting = unknown_deposits_run(
        config,
        UnknownDepositsState::QueryingCount { sum },
        Some(counted),
        fourth,
    );
    assert(counting == seq![RequestView::Emit(ReportView::Unreferenced { count, sum })]
        + emitted);
    let summing = unknown_deposits_run(
        config,
        UnknownDepositsState::QueryingSum,
        Some(summed),
        third,
    );
    assert(summing == seq![RequestView::UnknownWalletTransactionCount] + counting);
    let connecting = unknown_deposits_run(
        config,
        UnknownDepositsState::Connecting,
        Some(ok),
        second,
    );
    assert(connecting == seq![RequestView::UnknownWalletDepositAmount] + summing);
    let whole = unknown_deposits_run(config, UnknownDepositsState::Start, None, first);
    assert(whole == seq![RequestView::Connect(config.db_connection_string)] + connecting);
    assert(whole =~= seq![
        RequestView::Connect(config.db_connection_string),
        RequestView::UnknownWalletDepositAmount,
        RequestView::UnknownWalletTransactionCount,
        RequestView::Emit(ReportView::Unreferenced { count, sum }),
        RequestView::Finish(Ok(())),
    ]);
}

} // verus!
