//! The range of the confirmed deposits: the smallest and the largest, one
//! report line each.

use vstd::prelude::*;
use crate::config::{Config, ConfigView};
use crate::errors::{ErrorKind, Failure, FailureView, no_max, no_min, outcome_view};
use crate::models::Amount;
use crate::protocol::{
    Reply, ReplyView, Report, ReportView, Request, RequestView, answers, reply_failure,
    reply_view,
};

verus! {

/// Where the range workflow stands.
#[derive(Debug, Clone, Copy, PartialEq, Eq, Structural)]
pub enum RangeState {
    /// Nothing was asked for yet.
    Start,
    /// The connection was asked for.
    Connecting,
    /// The smallest confirmed deposit was asked for.
    QueryingSmallest,
    /// The line of the smallest deposit was handed out.
    EmittingSmallest,
    /// The largest confirmed deposit was asked for.
    QueryingLargest,
    /// The line of the largest deposit was handed out.
    EmittingLargest,
    /// The workflow has ended.
    Finished,
}

impl View for RangeState {
    type V = RangeState;

    open spec fn view(&self) -> RangeState {
        *self
    }
}

/// Whether `reply` answers what the workflow asked for in `state`.
pub open spec fn range_expects(state: RangeState, reply: Option<ReplyView>) -> bool {
    match state {
        RangeState::Start => reply is None,
        RangeState::Connecting => reply matches Some(ReplyView::Done(_)),
        RangeState::QueryingSmallest => reply matches Some(ReplyView::Amount(_)),
        RangeState::EmittingSmallest => reply matches Some(ReplyView::Done(_)),
        RangeState::QueryingLargest => reply matches Some(ReplyView::Amount(_)),
        RangeState::EmittingLargest => reply matches Some(ReplyView::Done(_)),
        RangeState::Finished => false,
    }
}

/// The workflow ends with `outcome`.
pub open spec fn range_finish(outcome: Result<(), FailureView>) -> (RangeState, RequestView) {
    (RangeState::Finished, RequestView::Finish(outcome))
}

/// The range workflow, one move at a time.
///
/// It connects; asks for the smallest confirmed deposit and hands out its
/// line; asks for the largest and hands out its line; and finishes. An amount
/// that the store lacks ends it with a failure, and so does any reply that
/// reports one.
pub open spec fn range_step(config: ConfigView, state: RangeState, reply: Option<ReplyView>) -> (
    RangeState,
    RequestView,
) {
    match (state, reply) {
        (RangeState::Start, None) => (
            RangeState::Connecting,
            RequestView::Connect(config.db_connection_string),
        ),
        (RangeState::Connecting, Some(ReplyView::Done(Ok(())))) => (
            RangeState::QueryingSmallest,
            RequestView::GetSmallestConfirmedAmount,
        ),
        (RangeState::Connecting, Some(ReplyView::Done(Err(failure)))) => range_finish(
            Err(failure),
        ),
        (RangeState::QueryingSmallest, Some(ReplyView::Amount(Ok(Some(amount))))) => (
            RangeState::EmittingSmallest,
            RequestView::Emit(ReportView::Smallest { amount }),
        ),
        (RangeState::QueryingSmallest, Some(ReplyView::Amount(Ok(None)))) => range_finish(
            Err(no_min()),
        ),
        (RangeState::QueryingSmallest, Some(ReplyView::Amount(Err(failure)))) => range_finish(
            Err(failure),
        ),
        (RangeState::EmittingSmallest, Some(ReplyView::Done(Ok(())))) => (
            RangeState::QueryingLargest,
            RequestView::GetMaxConfirmedAmount,
        ),
        (RangeState::EmittingSmallest, Some(ReplyView::Done(Err(failure)))) => range_finish(
            Err(failure),
        ),
        (RangeState::QueryingLargest, Some(ReplyView::Amount(Ok(Some(amount))))) => (
            RangeState::EmittingLargest,
            RequestView::Emit(ReportView::Largest { amount }),
        ),
        (RangeState::QueryingLargest, Some(ReplyView::Amount(Ok(None)))) => range_finish(
            Err(no_max()),
        ),
        (RangeState::QueryingLargest, Some(ReplyView::Amount(Err(failure)))) => range_finish(
            Err(failure),
        ),
        (RangeState::EmittingLargest, Some(ReplyView::Done(outcome))) => range_finish(outcome),
        _ => arbitrary(),
    }
}

impl RangeState {
    /// Whether the workflow can be resumed from this state with `reply`.
    pub fn accepts(&self, reply: &Option<Reply>) -> (accepted: bool)
        ensures
            accepted == range_expects(self@, reply_view(*reply)),
    {
        match self {
            RangeState::Start => reply.is_none(),
            RangeState::Connecting => matches!(reply, Some(Reply::Done(_))),
            RangeState::QueryingSmallest => matches!(reply, Some(Reply::Amount(_))),
            RangeState::EmittingSmallest => matches!(reply, Some(Reply::Done(_))),
            RangeState::QueryingLargest => matches!(reply, Some(Reply::Amount(_))),
            RangeState::EmittingLargest => matches!(reply, Some(Reply::Done(_))),
            RangeState::Finished => false,
        }
    }
}

fn range_end(outcome: Result<(), Failure>) -> (moved: (RangeState, Request))
    ensures
        (moved.0@, moved.1@) == range_finish(outcome_view(outcome)),
{
    (RangeState::Finished, Request::Finish(outcome))
}

/// One move of the range workflow. Begin with `RangeState::Start` and no
/// reply; perform the request that comes back, and call again with the state
/// that comes back and the reply, until the request is `Request::Finish`.
pub fn calculate_range(config: &Config, state: RangeState, reply: Option<Reply>) -> (moved: (
    RangeState,
    Request,
))
    requires
        range_expects(state@, reply_view(reply)),
    ensures
        (moved.0@, moved.1@) == range_step(config@, state@, reply_view(reply)),
{
    match state {
        RangeState::Start => (
            RangeState::Connecting,
            Request::Connect(config.db_connection_string.clone()),
        ),
        RangeState::Connecting => match reply {
            Some(Reply::Done(Ok(()))) => (
                RangeState::QueryingSmallest,
                Request::GetSmallestConfirmedAmount,
            ),
            Some(Reply::Done(Err(failure))) => range_end(Err(failure)),
            _ => vstd::pervasive::unreached(),
        },
        RangeState::QueryingSmallest => match reply {
            Some(Reply::Amount(Ok(Some(amount)))) => (
                RangeState::EmittingSmallest,
                Request::Emit(Report::Smallest { amount }),
            ),
            Some(Reply::Amount(Ok(None))) => range_end(
                Err(Failure::new(ErrorKind::MissingResult, "No Min Found")),
            ),
            Some(Reply::Amount(Err(failure))) => range_end(Err(failure)),
            _ => vstd::pervasive::unreached(),
        },
        RangeState::EmittingSmallest => match reply {
            Some(Reply::Done(Ok(()))) => (
                RangeState::QueryingLargest,
                Request::GetMaxConfirmedAmount,
            ),
            Some(Reply::Done(Err(failure))) => range_end(Err(failure)),
            _ => vstd::pervasive::unreached(),
        },
        RangeState::QueryingLargest => match reply {
            Some(Reply::Amount(Ok(Some(amount)))) => (
                RangeState::EmittingLargest,
                Request::Emit(Report::Largest { amount }),
            ),
            Some(Reply::Amount(Ok(None))) => range_end(
                Err(Failure::new(ErrorKind::MissingResult, "No Max Found")),
            ),
            Some(Reply::Amount(Err(failure))) => range_end(Err(failure)),
            _ => vstd::pervasive::unreached(),
        },
        RangeState::EmittingLargest => match reply {
            Some(Reply::Done(outcome)) => range_end(outcome),
            _ => vstd::pervasive::unreached(),
        },
        RangeState::Finished => vstd::pervasive::unreached(),
    }
}

/// Every step of the range workflow must succeed: a reply that reports a
/// failure ends the workflow at once, with that failure unchanged, and
/// nothing answers it any more.
pub proof fn law_range_failure_is_final(
    config: ConfigView,
    state: RangeState,
    reply: ReplyView,
    failure: FailureView,
)
    requires
        range_expects(state, Some(reply)),
        reply_failure(reply) == Some(failure),
    ensures
        range_step(config, state, Some(reply)) == range_finish(Err(failure)),
        forall|later: Option<ReplyView>|
            !range_expects(range_step(config, state, Some(reply)).0, later),
{
}

/// The range workflow waits for exactly the replies that answer the
/// request it has just made.
pub proof fn law_range_expects_the_answer(
    config: ConfigView,
    state: RangeState,
    reply: Option<ReplyView>,
    next: ReplyView,
)
    requires
        range_expects(state, reply),
    ensures
        range_expects(range_step(config, state, reply).0, Some(next)) == answers(
            range_step(config, state, reply).1,
            next,
        ),
{
}

/// The requests that the range workflow makes, in order, when it is
/// resumed from `state` with `reply` and each of its requests is answered by
/// the next reply of `script`. The run ends with the end of the workflow,
/// with the end of the script, or with a reply that does not answer the
/// request.
pub open spec fn range_run(
    config: ConfigView,
    state: RangeState,
    reply: Option<ReplyView>,
    script: Seq<ReplyView>,
) -> Seq<RequestView>
    decreases script.len(),
{
    let (next, request) = range_step(config, state, reply);
    if script.len() > 0 && answers(request, script[0]) {
        seq![request] + range_run(config, next, Some(script[0]), script.drop_first())
    } else {
        seq![request]
    }
}

/// Over whole runs of the range workflow, whatever the replies: when the
/// reply to a request reports a failure, the next request is the end of the
/// workflow with that failure, and it is the last.
pub proof fn law_range_stops_at_the_first_failure(
    config: ConfigView,
    script: Seq<ReplyView>,
    i: int,
)
    requires
        0 <= i,
        i + 1 < range_run(config, RangeState::Start, None, script).len(),
        reply_failure(script[i]) is Some,
    ensures
        range_run(config, RangeState::Start, None, script).len() == i + 2,
        range_run(config, RangeState::Start, None, script)[i + 1] == RequestView::Finish(
            Err(reply_failure(script[i])->0),
        ),
{
    lemma_range_run(config, RangeState::Start, None, script, i);
}

proof fn lemma_range_run(
    config: ConfigView,
    state: RangeState,
    reply: Option<ReplyView>,
    script: Seq<ReplyView>,
    i: int,
)
    requires
        range_expects(state, reply),
        0 <= i,
        i + 1 < range_run(config, state, reply, script).len(),
    ensures
        i < script.len(),
        reply_failure(script[i]) is Some ==> range_run(config, state, reply, script).len()
            == i + 2 && range_run(config, state, reply, script)[i + 1]
            == RequestView::Finish(Err(reply_failure(script[i])->0)),
    decreases script.len(),
{
    let (next, request) = range_step(config, state, reply);
    let run = range_run(config, state, reply, script);
    if script.len() > 0 && answers(request, script[0]) {
        let rest = range_run(config, next, Some(script[0]), script.drop_first());
        assert(run == seq![request] + rest);
        law_range_expects_the_answer(config, state, reply, script[0]);
        if i == 0 {
            if reply_failure(script[0]) is Some {
                let failure = reply_failure(script[0])->0;
                law_range_failure_is_final(config, next, script[0], failure);
                let last = range_step(config, next, Some(script[0])).1;
                assert(last == RequestView::Finish(Err(failure)));
                assert(rest == seq![last]);
                assert(run[1] == rest[0]);
            }
        } else {
            assert(rest.len() == run.len() - 1);
            lemma_range_run(config, next, Some(script[0]), script.drop_first(), i - 1);
            assert(script.drop_first()[i - 1] == script[i]);
            assert(run[i + 1] == rest[i]);
        }
    } else {
        assert(run == seq![request]);
    }
}

/// When nothing fails and the store has both values, the range workflow asks
/// for the smallest deposit and puts out its line, then asks for the largest
/// and puts out its line, and ends in success.
pub proof fn law_range_reports_both_ends(config: ConfigView, smallest: Amount, largest: Amount)
    ensures
        range_run(
            config,
            RangeState::Start,
            None,
            seq![
                ReplyView::Done(Ok(())),
                ReplyView::Amount(Ok(Some(smallest))),
                ReplyView::Done(Ok(())),
                ReplyView::Amount(Ok(Some(largest))),
                ReplyView::Done(Ok(())),
            ],
        ) == seq![
            RequestView::Connect(config.db_connection_string),
            RequestView::GetSmallestConfirmedAmount,
            RequestView::Emit(ReportView::Smallest { amount: smallest }),
            RequestView::GetMaxConfirmedAmount,
            RequestView::Emit(ReportView::Largest { amount: largest }),
            RequestView::Finish(Ok(())),
        ],
{
    let ok = ReplyView::Done(Ok(()));
    let low = ReplyView::Amount(Ok(Some(smallest)));
    let high = ReplyView::Amount(Ok(Some(largest)));
    let first = seq![ok, low, ok, high, ok];
    let second = first.drop_first();
    let third = second.drop_first();
    let fourth = third.drop_first();
    let fifth = fourth.drop_first();
    let none = fifth.drop_first();
    assert(first[0] == ok && second[0] == low && third[0] == ok && fourth[0] == high
        && fifth[0] == ok);
    assert(none.len() == 0);
    let e2 = range_run(config, RangeState::EmittingLargest, Some(ok), none);
    assert(e2 == seq![RequestView::Finish(Ok(()))]);
    let q2 = range_run(config, RangeState::QueryingLargest, Some(high), fifth);
    assert(q2 == seq![RequestView::Emit(ReportView::Largest { amount: largest })] + e2);
    let e1 = range_run(config, RangeState::EmittingSmallest, Some(ok), fourth);
    assert(e1 == seq![RequestView::GetMaxConfirmedAmount] + q2);
    let q1 = range_run(config, RangeState::QueryingSmallest, Some(low), third);
    assert(q1 == seq![RequestView::Emit(ReportView::Smallest { amount: smallest })] + e1);
    let connecting = range_run(config, RangeState::Connecting, Some(ok), second);
    assert(connecting == seq![RequestView::GetSmallestConfirmedAmount] + q1);
    let whole = range_run(config, RangeState::Start, None, first);
    assert(whole == seq![RequestView::Connect(config.db_connection_string)] + connecting);
    assert(whole =~= seq![
        RequestView::Connect(config.db_connection_string),
        RequestView::GetSmallestConfirmedAmount,
        RequestView::Emit(ReportView::Smallest { amount: smallest }),
        RequestView::GetMaxConfirmedAmount,
        RequestView::Emit(ReportView::Largest { amount: largest }),
        RequestView::Finish(Ok(())),
    ]);
}

} // verus!
