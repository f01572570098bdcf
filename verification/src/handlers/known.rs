//! The deposits of each known customer: for every customer of the registry
//! the sum and the count of its confirmed deposits, one report line each.

use vstd::prelude::*;
use crate::config::{Config, ConfigView};
use crate::errors::{ErrorKind, Failure, FailureView, no_deposits, outcome_view};
use crate::models::{Amount, CustomerView, KnownCustomersArray};
use crate::protocol::{
    Reply, ReplyView, Report, ReportView, Request, RequestView, answers, reply_failure,
    reply_view,
};

verus! {

/// Where the known-customer deposits workflow stands.
#[derive(Debug, PartialEq, Eq)]
pub enum KnownDepositsState {
    /// Nothing was asked for yet.
    Start,
    /// The connection was asked for.
    Connecting,
    /// The known-customers document was asked for.
    ReadingKnownCustomers,
    /// The sum of the deposits of the customer at index `at` was asked for.
    QueryingSum { customers: KnownCustomersArray, at: usize },
    /// The count of the deposits of the customer at index `at` was asked for.
    QueryingCount { customers: KnownCustomersArray, at: usize, sum: Amount },
    /// The report line of the customer at index `at` was handed out.
    Emitting { customers: KnownCustomersArray, at: usize },
    /// The workflow has ended.
    Finished,
}

/// What a state of the known-customer deposits workflow holds.
pub enum KnownDepositsStateView {
    Start,
    Connecting,
    ReadingKnownCustomers,
    QueryingSum { customers: Seq<CustomerView>, at: nat },
    QueryingCount { customers: Seq<CustomerView>, at: nat, sum: Amount },
    Emitting { customers: Seq<CustomerView>, at: nat },
    Finished,
}

impl View for KnownDepositsState {
    type V = KnownDepositsStateView;

    open spec fn view(&self) -> KnownDepositsStateView {
        match self {
            KnownDepositsState::Start => KnownDepositsStateView::Start,
            KnownDepositsState::Connecting => KnownDepositsStateView::Connecting,
            KnownDepositsState::ReadingKnownCustomers => {
                KnownDepositsStateView::ReadingKnownCustomers
            },
            KnownDepositsState::QueryingSum { customers, at } => {
                KnownDepositsStateView::QueryingSum { customers: customers@, at: *at as nat }
            },
            KnownDepositsState::QueryingCount { customers, at, sum } => {
                KnownDepositsStateView::QueryingCount {
                    customers: customers@,
                    at: *at as nat,
                    sum: *sum,
                }
            },
            KnownDepositsState::Emitting { customers, at } => KnownDepositsStateView::Emitting {
                customers: customers@,
                at: *at as nat,
            },
            KnownDepositsState::Finished => KnownDepositsStateView::Finished,
        }
    }
}

/// Whether `reply` answers what the workflow asked for in `state`, and the
/// customer that the state speaks of is one of the registry.
pub open spec fn known_deposits_expects(
    state: KnownDepositsStateView,
    reply: Option<ReplyView>,
) -> bool {
    match state {
        KnownDepositsStateView::Start => reply is None,
        KnownDepositsStateView::Connecting => reply matches Some(ReplyView::Done(_)),
        KnownDepositsStateView::ReadingKnownCustomers => reply matches Some(
            ReplyView::KnownCustomers(_),
        ),
        KnownDepositsStateView::QueryingSum { customers, at } => at < customers.len() && (
        reply matches Some(ReplyView::Amount(_))),
        KnownDepositsStateView::QueryingCount { customers, at, .. } => at < customers.len() && (
        reply matches Some(ReplyView::KnownCount(_))),
        KnownDepositsStateView::Emitting { customers, at } => at < customers.len() && (
        reply matches Some(ReplyView::Done(_))),
        KnownDepositsStateView::Finished => false,
    }
}

/// The workflow ends with `outcome`.
pub open spec fn known_deposits_finish(outcome: Result<(), FailureView>) -> (
    KnownDepositsStateView,
    RequestView,
) {
    (KnownDepositsStateView::Finished, RequestView::Finish(outcome))
}

/// The move to the customer at index `at`: the sum of its deposits is asked
/// for, or, after the last customer, the workflow ends in success.
pub open spec fn known_deposits_visit(customers: Seq<CustomerView>, at: nat) -> (
    KnownDepositsStateView,
    RequestView,
) {
    if at < customers.len() {
        (
            KnownDepositsStateView::QueryingSum { customers, at },
            RequestView::KnownWalletDepositAmount(customers[at as int].address),
        )
    } else {
        known_deposits_finish(Ok(()))
    }
}

/// The known-customer deposits workflow, one move at a time.
///
/// It connects; reads the known-customers document; and for each customer in
/// order asks for the sum of the deposits to its address, then for their
/// count, and hands out one report line. A customer without a sum ends the
/// whole workflow with a failure, and so does any reply that reports one.
pub open spec fn known_deposits_step(
    config: ConfigView,
    state: KnownDepositsStateView,
    reply: Option<ReplyView>,
) -> (KnownDepositsStateView, RequestView) {
    match (state, reply) {
        (KnownDepositsStateView::Start, None) => (
            KnownDepositsStateView::Connecting,
            RequestView::Connect(config.db_connection_string),
        ),
        (KnownDepositsStateView::Connecting, Some(ReplyView::Done(Ok(())))) => (
            KnownDepositsStateView::ReadingKnownCustomers,
            RequestView::ReadKnownCustomers(config.known_customers),
        ),
        (KnownDepositsStateView::Connecting, Some(ReplyView::Done(Err(failure)))) => {
            known_deposits_finish(Err(failure))
        },
        (
            KnownDepositsStateView::ReadingKnownCustomers,
            Some(ReplyView::KnownCustomers(Ok(customers))),
        ) => known_deposits_visit(customers, 0),
        (
            KnownDepositsStateView::ReadingKnownCustomers,
            Some(ReplyView::KnownCustomers(Err(failure))),
        ) => known_deposits_finish(Err(failure)),
        (
            KnownDepositsStateView::QueryingSum { customers, at },
            Some(ReplyView::Amount(Ok(Some(sum)))),
        ) => (
            KnownDepositsStateView::QueryingCount { customers, at, sum },
            RequestView::KnownWalletTransactionCount(customers[at as int].address),
        ),
        (KnownDepositsStateView::QueryingSum { .. }, Some(ReplyView::Amount(Ok(None)))) => {
            known_deposits_finish(Err(no_deposits()))
        },
        (KnownDepositsStateView::QueryingSum { .. }, Some(ReplyView::Amount(Err(failure)))) => {
            known_deposits_finish(Err(failure))
        },
        (
            KnownDepositsStateView::QueryingCount { customers, at, sum },
            Some(ReplyView::KnownCount(Ok(count))),
        ) => (
            KnownDepositsStateView::Emitting { customers, at },
            RequestView::Emit(
                ReportView::KnownCustomer { name: customers[at as int].name, count, sum },
            ),
        ),
        (
            KnownDepositsStateView::QueryingCount { .. },
            Some(ReplyView::KnownCount(Err(failure))),
        ) => known_deposits_finish(Err(failure)),
        (KnownDepositsStateView::Emitting { customers, at }, Some(ReplyView::Done(Ok(())))) => {
            known_deposits_visit(customers, at + 1)
        },
        (KnownDepositsStateView::Emitting { .. }, Some(ReplyView::Done(Err(failure)))) => {
            known_deposits_finish(Err(failure))
        },
        _ => arbitrary(),
    }
}

impl KnownDepositsState {
    /// Whether the workflow can be resumed from this state with `reply`.
    pub fn accepts(&self, reply: &Option<Reply>) -> (accepted: bool)
        ensures
            accepted == known_deposits_expects(self@, reply_view(*reply)),
    {
        match self {
            KnownDepositsState::Start => reply.is_none(),
            KnownDepositsState::Connecting => matches!(reply, Some(Reply::Done(_))),
            KnownDepositsState::ReadingKnownCustomers => matches!(
                reply,
                Some(Reply::KnownCustomers(_))
            ),
            KnownDepositsState::QueryingSum { customers, at } => *at
                < customers.known_customers.len() && matches!(reply, Some(Reply::Amount(_))),
            KnownDepositsState::QueryingCount { customers, at, .. } => *at
                < customers.known_customers.len() && matches!(reply, Some(Reply::KnownCount(_))),
            KnownDepositsState::Emitting { customers, at } => *at
                < customers.known_customers.len() && matches!(reply, Some(Reply::Done(_))),
            KnownDepositsState::Finished => false,
        }
    }
}

fn known_finish(outcome: Result<(), Failure>) -> (moved: (KnownDepositsState, Request))
    ensures
        (moved.0@, moved.1@) == known_deposits_finish(outcome_view(outcome)),
{
    (KnownDepositsState::Finished, Request::Finish(outcome))
}

fn known_visit(customers: KnownCustomersArray, at: usize) -> (moved: (KnownDepositsState, Request))
    ensures
        (moved.0@, moved.1@) == known_deposits_visit(customers@, at as nat),
{
    if at < customers.known_customers.len() {
        let address = customers.known_customers[at].address.clone();
        (KnownDepositsState::QueryingSum { customers, at }, Request::KnownWalletDepositAmount(address))
    } else {
        known_finish(Ok(()))
    }
}

/// One move of the known-customer deposits workflow. Begin with
/// `KnownDepositsState::Start` and no reply; perform the request that comes
/// back, and call again with the state that comes back and the reply, until
/// the request is `Request::Finish`.
pub fn known_customer_deposits(
    config: &Config,
    state: KnownDepositsState,
    reply: Option<Reply>,
) -> (moved: (KnownDepositsState, Request))
    requires
        known_deposits_expects(state@, reply_view(reply)),
    ensures
        (moved.0@, moved.1@) == known_deposits_step(config@, state@, reply_view(reply)),
{
    match state {
        KnownDepositsState::Start => (
            KnownDepositsState::Connecting,
            Request::Connect(config.db_connection_string.clone()),
        ),
        KnownDepositsState::Connecting => match reply {
            Some(Reply::Done(Ok(()))) => (
                KnownDepositsState::ReadingKnownCustomers,
                Request::ReadKnownCustomers(config.known_customers.clone()),
            ),
            Some(Reply::Done(Err(failure))) => known_finish(Err(failure)),
            _ => vstd::pervasive::unreached(),
        },
        KnownDepositsState::ReadingKnownCustomers => match reply {
            Some(Reply::KnownCustomers(Ok(customers))) => known_visit(customers, 0),
            Some(Reply::KnownCustomers(Err(failure))) => known_finish(Err(failure)),
            _ => vstd::pervasive::unreached(),
        },
        KnownDepositsState::QueryingSum { customers, at } => match reply {
            Some(Reply::Amount(Ok(Some(sum)))) => {
                let address = customers.known_customers[at].address.clone();
                (
                    KnownDepositsState::QueryingCount { customers, at, sum },
                    Request::KnownWalletTransactionCount(address),
                )
            },
            Some(Reply::Amount(Ok(None))) => known_finish(
                Err(Failure::new(ErrorKind::MissingResult, "No Deposits Found")),
            ),
            Some(Reply::Amount(Err(failure))) => known_finish(Err(failure)),
            _ => vstd::pervasive::unreached(),
        },
        KnownDepositsState::QueryingCount { customers, at, sum } => match reply {
            Some(Reply::KnownCount(Ok(count))) => {
                let name = customers.known_customers[at].name.clone();
                (
                    KnownDepositsState::Emitting { customers, at },
                    Request::Emit(Report::KnownCustomer { name, count, sum }),
                )
            },
            Some(Reply::KnownCount(Err(failure))) => known_finish(Err(failure)),
            _ => vstd::pervasive::unreached(),
        },
        KnownDepositsState::Emitting { customers, at } => match reply {
            Some(Reply::Done(Ok(()))) => {
                let count: usize = customers.known_customers.len();
                known_visit(customers, at + 1)
            },
            Some(Reply::Done(Err(failure))) => known_finish(Err(failure)),
            _ => vstd::pervasive::unreached(),
        },
        KnownDepositsState::Finished => vstd::pervasive::unreached(),
    }
}

/// Every step of the known-customer deposits workflow must succeed: a reply
/// that reports a failure ends the workflow at once, with that failure
/// unchanged, and nothing answers it any more.
pub proof fn law_known_deposits_failure_is_final(
    config: ConfigView,
    state: KnownDepositsStateView,
    reply: ReplyView,
    failure: FailureView,
)
    requires
        known_deposits_expects(state, Some(reply)),
        reply_failure(reply) == Some(failure),
    ensures
        known_deposits_step(config, state, Some(reply)) == known_deposits_finish(Err(failure)),
        forall|later: Option<ReplyView>|
            !known_deposits_expects(known_deposits_step(config, state, Some(reply)).0, later),
{
}

/// No sum is not a sum of zero. When the store has no sum for a customer, the
/// workflow ends with the missing-result failure; when it has one, whatever
/// its value, the workflow goes on to ask for the count of that customer's
/// deposits and keeps the sum for the report line.
pub proof fn law_absent_sum_is_not_zero(
    config: ConfigView,
    customers: Seq<CustomerView>,
    at: nat,
    sum: Amount,
)
    requires
        at < customers.len(),
    ensures
        known_deposits_step(
            config,
            KnownDepositsStateView::QueryingSum { customers, at },
            Some(ReplyView::Amount(Ok(None))),
        ) == known_deposits_finish(Err(no_deposits())),
        known_deposits_step(
            config,
            KnownDepositsStateView::QueryingSum { customers, at },
            Some(ReplyView::Amount(Ok(Some(sum)))),
        ) == (
            KnownDepositsStateView::QueryingCount { customers, at, sum },
            RequestView::KnownWalletTransactionCount(customers[at as int].address),
        ),
{
}

/// The known-customer deposits workflow waits for exactly the replies that answer the
/// request it has just made.
pub proof fn law_known_deposits_expects_the_answer(
    config: ConfigView,
    state: KnownDepositsStateView,
    reply: Option<ReplyView>,
    next: ReplyView,
)
    requires
        known_deposits_expects(state, reply),
    ensures
        known_deposits_expects(known_deposits_step(config, state, reply).0, Some(next)) == answers(
            known_deposits_step(config, state, reply).1,
            next,
        ),
{
}

/// The requests that the known-customer deposits workflow makes, in order, when it is
/// resumed from `state` with `reply` and each of its requests is answered by
/// the next reply of `script`. The run ends with the end of the workflow,
/// with the end of the script, or with a reply that does not answer the
/// request.
pub open spec fn known_deposits_run(
    config: ConfigView,
    state: KnownDepositsStateView,
    reply: Option<ReplyView>,
    script: Seq<ReplyView>,
) -> Seq<RequestView>
    decreases script.len(),
{
    let (next, request) = known_deposits_step(config, state, reply);
    if script.len() > 0 && answers(request, script[0]) {
        seq![request] + known_deposits_run(config, next, Some(script[0]), script.drop_first())
    } else {
        seq![request]
    }
}

/// Over whole runs of the known-customer deposits workflow, whatever the replies: when the
/// reply to a request reports a failure, the next request is the end of the
/// workflow with that failure, and it is the last.
pub proof fn law_known_deposits_stops_at_the_first_failure(
    config: ConfigView,
    script: Seq<ReplyView>,
    i: int,
)
    requires
        0 <= i,
        i + 1 < known_deposits_run(config, KnownDepositsStateView::Start, None, script).len(),
        reply_failure(script[i]) is Some,
    ensures
        known_deposits_run(config, KnownDepositsStateView::Start, None, script).len() == i + 2,
        known_deposits_run(config, KnownDepositsStateView::Start, None, script)[i + 1] == RequestView::Finish(
            Err(reply_failure(script[i])->0),
        ),
{
    lemma_known_deposits_run(config, KnownDepositsStateView::Start, None, script, i);
}

proof fn lemma_known_deposits_run(
    config: ConfigView,
    state: KnownDepositsStateView,
    reply: Option<ReplyView>,
    script: Seq<ReplyView>,
    i: int,
)
    requires
        known_deposits_expects(state, reply),
        0 <= i,
        i + 1 < known_deposits_run(config, state, reply, script).len(),
    ensures
        i < script.len(),
        reply_failure(script[i]) is Some ==> known_deposits_run(config, state, reply, script).len()
            == i + 2 && known_deposits_run(config, state, reply, script)[i + 1]
            == RequestView::Finish(Err(reply_failure(script[i])->0)),
    decreases script.len(),
{
    let (next, request) = known_deposits_step(config, state, reply);
    let run = known_deposits_run(config, state, reply, script);
    if script.len() > 0 && answers(request, script[0]) {
        let rest = known_deposits_run(config, next, Some(script[0]), script.drop_first());
        assert(run == seq![request] + rest);
        law_known_deposits_expects_the_answer(config, state, reply, script[0]);
        if i == 0 {
            if reply_failure(script[0]) is Some {
                let failure = reply_failure(script[0])->0;
                law_known_deposits_failure_is_final(config, next, script[0], failure);
                let last = known_deposits_step(config, next, Some(script[0])).1;
                assert(last == RequestView::Finish(Err(failure)));
                assert(rest == seq![last]);
                assert(run[1] == rest[0]);
            }
        } else {
            assert(rest.len() == run.len() - 1);
            lemma_known_deposits_run(config, next, Some(script[0]), script.drop_first(), i - 1);
            assert(script.drop_first()[i - 1] == script[i]);
            assert(run[i + 1] == rest[i]);
        }
    } else {
        assert(run == seq![request]);
    }
}

/// What the known-customer deposits workflow asks for, from the customer at
/// index `from` on, when the store has the sum `sums[i]` and the count
/// `counts[i]` for the customer at index `i`: for each customer in the order
/// of the registry the sum, then the count, then one report line.
pub open spec fn known_deposits_rounds(
    customers: Seq<CustomerView>,
    sums: Seq<Amount>,
    counts: Seq<i32>,
    from: nat,
) -> Seq<RequestView>
    decreases customers.len() - from,
{
    if from >= customers.len() {
        Seq::empty()
    } else {
        seq![
            RequestView::KnownWalletDepositAmount(customers[from as int].address),
            RequestView::KnownWalletTransactionCount(customers[from as int].address),
            RequestView::Emit(
                ReportView::KnownCustomer {
                    name: customers[from as int].name,
                    count: counts[from as int],
                    sum: sums[from as int],
                },
            ),
        ] + known_deposits_rounds(customers, sums, counts, from + 1)
    }
}

/// The replies of a store that has the sum `sums[i]` and the count
/// `counts[i]` for the customer at index `i`, from the customer at index
/// `from` on, with every line put out.
pub open spec fn known_deposits_answers(
    sums: Seq<Amount>,
    counts: Seq<i32>,
    from: nat,
) -> Seq<ReplyView>
    decreases sums.len() - from,
{
    if from >= sums.len() {
        Seq::empty()
    } else {
        seq![
            ReplyView::Amount(Ok(Some(sums[from as int]))),
            ReplyView::KnownCount(Ok(counts[from as int])),
            ReplyView::Done(Ok(())),
        ] + known_deposits_answers(sums, counts, from + 1)
    }
}

/// When nothing fails and the store has a sum for every known customer, the
/// known-customer deposits workflow reports every customer, in the order of
/// the registry, with the sum and the count that the store gave for that
/// customer, and ends in success.
pub proof fn law_known_deposits_reports_every_customer(
    config: ConfigView,
    customers: Seq<CustomerView>,
    sums: Seq<Amount>,
    counts: Seq<i32>,
)
    requires
        sums.len() == customers.len(),
        counts.len() == customers.len(),
    ensures
        known_deposits_run(
            config,
            KnownDepositsStateView::Start,
            None,
            seq![ReplyView::Done(Ok(())), ReplyView::KnownCustomers(Ok(customers))]
                + known_deposits_answers(sums, counts, 0),
        ) == seq![
            RequestView::Connect(config.db_connection_string),
            RequestView::ReadKnownCustomers(config.known_customers),
        ] + known_deposits_rounds(customers, sums, counts, 0) + seq![
            RequestView::Finish(Ok(())),
        ],
{
    let opened = ReplyView::Done(Ok(()));
    let read = ReplyView::KnownCustomers(Ok(customers));
    let tail = known_deposits_answers(sums, counts, 0);
    let script = seq![opened, read] + tail;
    assert(script[0] == opened);
    let second = script.drop_first();
    assert(second =~= seq![read] + tail);
    assert(second[0] == read);
    assert(second.drop_first() =~= tail);
    lemma_known_deposits_rounds(
        config,
        KnownDepositsStateView::ReadingKnownCustomers,
        Some(read),
        customers,
        sums,
        counts,
        0,
    );
    let third = known_deposits_run(
        config,
        KnownDepositsStateView::ReadingKnownCustomers,
        Some(read),
        tail,
    );
    assert(known_deposits_run(config, KnownDepositsStateView::Connecting, Some(opened), second)
        == seq![RequestView::ReadKnownCustomers(config.known_customers)] + third);
    assert(known_deposits_run(config, KnownDepositsStateView::Start, None, script) == seq![
        RequestView::Connect(config.db_connection_string),
    ] + known_deposits_run(config, KnownDepositsStateView::Connecting, Some(opened), second));
    assert(known_deposits_run(config, KnownDepositsStateView::Start, None, script) =~= seq![
        RequestView::Connect(config.db_connection_string),
        RequestView::ReadKnownCustomers(config.known_customers),
    ] + known_deposits_rounds(customers, sums, counts, 0) + seq![RequestView::Finish(Ok(()))]);
}

proof fn lemma_known_deposits_rounds(
    config: ConfigView,
    state: KnownDepositsStateView,
    reply: Option<ReplyView>,
    customers: Seq<CustomerView>,
    sums: Seq<Amount>,
    counts: Seq<i32>,
    from: nat,
)
    requires
        sums.len() == customers.len(),
        counts.len() == customers.len(),
        from <= customers.len(),
        known_deposits_step(config, state, reply) == known_deposits_visit(customers, from),
    ensures
        known_deposits_run(config, state, reply, known_deposits_answers(sums, counts, from))
            == known_deposits_rounds(customers, sums, counts, from) + seq![
            RequestView::Finish(Ok(())),
        ],
    decreases customers.len() - from,
{
    let script = known_deposits_answers(sums, counts, from);
    let wanted = known_deposits_rounds(customers, sums, counts, from) + seq![
        RequestView::Finish(Ok(())),
    ];
    if from == customers.len() {
        assert(known_deposits_run(config, state, reply, script) =~= wanted);
    } else {
        let at = from as int;
        let sum = ReplyView::Amount(Ok(Some(sums[at])));
        let count = ReplyView::KnownCount(Ok(counts[at]));
        let put = ReplyView::Done(Ok(()));
        let later = known_deposits_answers(sums, counts, from + 1);
        assert(script == seq![sum, count, put] + later);
        let asking = KnownDepositsStateView::QueryingSum { customers, at: from };
        let counting = KnownDepositsStateView::QueryingCount {
            customers,
            at: from,
            sum: sums[at],
        };
        let emitting = KnownDepositsStateView::Emitting { customers, at: from };
        let first = RequestView::KnownWalletDepositAmount(customers[at].address);
        let second = RequestView::KnownWalletTransactionCount(customers[at].address);
        let third = RequestView::Emit(
            ReportView::KnownCustomer { name: customers[at].name, count: counts[at], sum: sums[at] },
        );
        assert(known_deposits_step(config, state, reply) == (asking, first));
        assert(script[0] == sum);
        let after_sum = script.drop_first();
        assert(after_sum =~= seq![count, put] + later);
        assert(after_sum[0] == count);
        let after_count = after_sum.drop_first();
        assert(after_count =~= seq![put] + later);
        assert(after_count[0] == put);
        assert(after_count.drop_first() =~= later);
        assert(known_deposits_step(config, asking, Some(sum)) == (counting, second));
        assert(known_deposits_step(config, counting, Some(count)) == (emitting, third));
        lemma_known_deposits_rounds(config, emitting, Some(put), customers, sums, counts, from + 1);
        let rest = known_deposits_run(config, emitting, Some(put), later);
        assert(known_deposits_run(config, counting, Some(count), after_count) == seq![third]
            + rest);
        assert(known_deposits_run(config, asking, Some(sum), after_sum) == seq![second]
            + known_deposits_run(config, counting, Some(count), after_count));
        assert(known_deposits_run(config, state, reply, script) == seq![first]
            + known_deposits_run(config, asking, Some(sum), after_sum));
        assert(known_deposits_run(config, state, reply, script) =~= wanted);
    }
}

} // verus!
