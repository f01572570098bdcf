//! The load workflow: the known customers first, then every transaction of
//! every input file, each batch all or abort.

use vstd::prelude::*;
use crate::config::{Config, ConfigView};
use crate::errors::{Failure, FailureView, outcome_view};
use crate::handlers::utils::{
    Batch, BatchView, insert_all_known_clients, insert_all_transactions, next_insert,
};
use crate::models::{
    CustomerView, KnownCustomersArray, TransactionView, Transactions, transactions_view,
};
use crate::protocol::{
    Reply, ReplyView, Request, RequestView, answers, reply_failure, reply_view,
};

verus! {

/// Where the load workflow stands: what it has asked for, and what it holds.
#[derive(Debug, PartialEq, Eq)]
pub enum LoadState {
    /// Nothing was asked for yet.
    Start,
    /// The connection was asked for.
    Connecting,
    /// The known-customers document was asked for.
    ReadingKnownCustomers,
    /// The first `attempted` customers were handed to the store, and the
    /// outcome of the latest of them is awaited.
    InsertingKnownCustomers { customers: KnownCustomersArray, attempted: usize },
    /// The input file at index `file` was asked for. `gathered` holds the
    /// transactions of the files before it, in order.
    ReadingTransactions { file: usize, gathered: Transactions },
    /// The first `attempted` transactions were handed to the store, and the
    /// outcome of the latest of them is awaited.
    InsertingTransactions { transactions: Transactions, attempted: usize },
    /// The workflow has ended.
    Finished,
}

/// What a state of the load workflow holds.
pub enum LoadStateView {
    Start,
    Connecting,
    ReadingKnownCustomers,
    InsertingKnownCustomers { customers: Seq<CustomerView>, attempted: nat },
    ReadingTransactions { file: nat, gathered: Seq<TransactionView> },
    InsertingTransactions { transactions: Seq<TransactionView>, attempted: nat },
    Finished,
}

impl View for LoadState {
    type V = LoadStateView;

    open spec fn view(&self) -> LoadStateView {
        match self {
            LoadState::Start => LoadStateView::Start,
            LoadState::Connecting => LoadStateView::Connecting,
            LoadState::ReadingKnownCustomers => LoadStateView::ReadingKnownCustomers,
            LoadState::InsertingKnownCustomers { customers, attempted } => {
                LoadStateView::InsertingKnownCustomers {
                    customers: customers@,
                    attempted: *attempted as nat,
                }
            },
            LoadState::ReadingTransactions { file, gathered } => {
                LoadStateView::ReadingTransactions { file: *file as nat, gathered: gathered@ }
            },
            LoadState::InsertingTransactions { transactions, attempted } => {
                LoadStateView::InsertingTransactions {
                    transactions: transactions@,
                    attempted: *attempted as nat,
                }
            },
            LoadState::Finished => LoadStateView::Finished,
        }
    }
}

/// Whether `reply` answers what the workflow asked for in `state`. At the
/// start nothing was asked for, so no reply is due; once the workflow has
/// finished, nothing answers it any more.
pub open spec fn load_expects(state: LoadStateView, reply: Option<ReplyView>) -> bool {
    match state {
        LoadStateView::Start => reply is None,
        LoadStateView::Connecting => reply matches Some(ReplyView::Done(_)),
        LoadStateView::ReadingKnownCustomers => reply matches Some(ReplyView::KnownCustomers(_)),
        LoadStateView::InsertingKnownCustomers { .. } => reply matches Some(ReplyView::Done(_)),
        LoadStateView::ReadingTransactions { .. } => reply matches Some(
            ReplyView::Transactions(_),
        ),
        LoadStateView::InsertingTransactions { .. } => reply matches Some(ReplyView::Done(_)),
        LoadStateView::Finished => false,
    }
}

/// The workflow ends with `outcome`.
pub open spec fn load_finish(outcome: Result<(), FailureView>) -> (LoadStateView, RequestView) {
    (LoadStateView::Finished, RequestView::Finish(outcome))
}

/// The move within the batch of transactions.
pub open spec fn load_transactions(
    transactions: Seq<TransactionView>,
    attempted: nat,
    last: Result<(), FailureView>,
) -> (LoadStateView, RequestView) {
    match next_insert(transactions.len(), attempted, last) {
        BatchView::Insert(index) => (
            LoadStateView::InsertingTransactions { transactions, attempted: index + 1 },
            RequestView::InsertTransaction(transactions[index as int]),
        ),
        BatchView::Complete => load_finish(Ok(())),
        BatchView::Aborted(failure) => load_finish(Err(failure)),
    }
}

/// The move once the input files before index `file` were read: the next file
/// is asked for, or, after the last, the gathered transactions are inserted.
pub open spec fn load_files(config: ConfigView, file: nat, gathered: Seq<TransactionView>) -> (
    LoadStateView,
    RequestView,
) {
    if file < config.input_data.len() {
        (
            LoadStateView::ReadingTransactions { file, gathered },
            RequestView::ReadTransactions(config.input_data[file as int]),
        )
    } else {
        load_transactions(gathered, 0, Ok(()))
    }
}

/// The move within the batch of known customers.
pub open spec fn load_customers(
    config: ConfigView,
    customers: Seq<CustomerView>,
    attempted: nat,
    last: Result<(), FailureView>,
) -> (LoadStateView, RequestView) {
    match next_insert(customers.len(), attempted, last) {
        BatchView::Insert(index) => (
            LoadStateView::InsertingKnownCustomers { customers, attempted: index + 1 },
            RequestView::InsertKnownClient(customers[index as int]),
        ),
        BatchView::Complete => load_files(config, 0, Seq::empty()),
        BatchView::Aborted(failure) => load_finish(Err(failure)),
    }
}

/// The load workflow, one move at a time: the state it passes to and the
/// request it makes when it stands in `state` and is resumed with `reply`.
///
/// It connects; reads the known-customers document; inserts each known
/// customer in order; reads each input file in the order of the configuration
/// and puts their transactions one after the other; inserts each transaction
/// in order; and finishes. A reply that reports a failure finishes it at once
/// with that failure.
pub open spec fn load_step(config: ConfigView, state: LoadStateView, reply: Option<ReplyView>) -> (
    LoadStateView,
    RequestView,
) {
    match (state, reply) {
        (LoadStateView::Start, None) => (
            LoadStateView::Connecting,
            RequestView::Connect(config.db_connection_string),
        ),
        (LoadStateView::Connecting, Some(ReplyView::Done(Ok(())))) => (
            LoadStateView::ReadingKnownCustomers,
            RequestView::ReadKnownCustomers(config.known_customers),
        ),
        (LoadStateView::Connecting, Some(ReplyView::Done(Err(failure)))) => load_finish(
            Err(failure),
        ),
        (
            LoadStateView::ReadingKnownCustomers,
            Some(ReplyView::KnownCustomers(Ok(customers))),
        ) => load_customers(config, customers, 0, Ok(())),
        (
            LoadStateView::ReadingKnownCustomers,
            Some(ReplyView::KnownCustomers(Err(failure))),
        ) => load_finish(Err(failure)),
        (
            LoadStateView::InsertingKnownCustomers { customers, attempted },
            Some(ReplyView::Done(outcome)),
        ) => load_customers(config, customers, attempted, outcome),
        (
            LoadStateView::ReadingTransactions { file, gathered },
            Some(ReplyView::Transactions(Ok(transactions))),
        ) => load_files(config, file + 1, gathered + transactions),
        (
            LoadStateView::ReadingTransactions { .. },
            Some(ReplyView::Transactions(Err(failure))),
        ) => load_finish(Err(failure)),
        (
            LoadStateView::InsertingTransactions { transactions, attempted },
            Some(ReplyView::Done(outcome)),
        ) => load_transactions(transactions, attempted, outcome),
        _ => arbitrary(),
    }
}

impl LoadState {
    /// Whether `reply` answers what the workflow asked for in this state.
    pub fn accepts(&self, reply: &Option<Reply>) -> (accepted: bool)
        ensures
            accepted == load_expects(self@, reply_view(*reply)),
    {
        match self {
            LoadState::Start => reply.is_none(),
            LoadState::Connecting => matches!(reply, Some(Reply::Done(_))),
            LoadState::ReadingKnownCustomers => matches!(reply, Some(Reply::KnownCustomers(_))),
            LoadState::InsertingKnownCustomers { .. } => matches!(reply, Some(Reply::Done(_))),
            LoadState::ReadingTransactions { .. } => matches!(reply, Some(Reply::Transactions(_))),
            LoadState::InsertingTransactions { .. } => matches!(reply, Some(Reply::Done(_))),
            LoadState::Finished => false,
        }
    }
}

fn finish(outcome: Result<(), Failure>) -> (moved: (LoadState, Request))
    ensures
        (moved.0@, moved.1@) == load_finish(outcome_view(outcome)),
{
    (LoadState::Finished, Request::Finish(outcome))
}

fn move_transactions(transactions: Transactions, attempted: usize, last: Result<(), Failure>) -> (moved:
    (LoadState, Request))
    ensures
        (moved.0@, moved.1@) == load_transactions(
            transactions@,
            attempted as nat,
            outcome_view(last),
        ),
{
    match insert_all_transactions(&transactions, attempted, last) {
        Batch::Insert(index) => {
            let count: usize = transactions.transactions.len();
            assert(index < count);
            let record = transactions.transactions[index].duplicate();
            (
                LoadState::InsertingTransactions { transactions, attempted: index + 1 },
                Request::InsertTransaction(record),
            )
        },
        Batch::Complete => finish(Ok(())),
        Batch::Aborted(failure) => finish(Err(failure)),
    }
}

fn move_files(config: &Config, file: usize, gathered: Transactions) -> (moved: (
    LoadState,
    Request,
))
    ensures
        (moved.0@, moved.1@) == load_files(config@, file as nat, gathered@),
{
    if file < config.input_data.len() {
        let path = config.input_data[file].clone();
        (LoadState::ReadingTransactions { file, gathered }, Request::ReadTransactions(path))
    } else {
        move_transactions(gathered, 0, Ok(()))
    }
}

fn move_customers(
    config: &Config,
    customers: KnownCustomersArray,
    attempted: usize,
    last: Result<(), Failure>,
) -> (moved: (LoadState, Request))
    ensures
        (moved.0@, moved.1@) == load_customers(
            config@,
            customers@,
            attempted as nat,
            outcome_view(last),
        ),
{
    match insert_all_known_clients(&customers, attempted, last) {
        Batch::Insert(index) => {
            let count: usize = customers.known_customers.len();
            assert(index < count);
            let record = customers.known_customers[index].duplicate();
            (
                LoadState::InsertingKnownCustomers { customers, attempted: index + 1 },
                Request::InsertKnownClient(record),
            )
        },
        Batch::Complete => {
            let gathered = Transactions { transactions: Vec::new() };
            assert(gathered@ =~= Seq::<TransactionView>::empty());
            move_files(config, 0, gathered)
        },
        Batch::Aborted(failure) => finish(Err(failure)),
    }
}

/// One move of the load workflow. Begin with `LoadState::Start` and no reply;
/// perform the request that comes back, and call again with the state that
/// comes back and the reply, until the request is `Request::Finish`.
pub fn load_data(config: &Config, state: LoadState, reply: Option<Reply>) -> (moved: (
    LoadState,
    Request,
))
    requires
        load_expects(state@, reply_view(reply)),
    ensures
        (moved.0@, moved.1@) == load_step(config@, state@, reply_view(reply)),
{
    match state {
        LoadState::Start => (
            LoadState::Connecting,
            Request::Connect(config.db_connection_string.clone()),
        ),
        LoadState::Connecting => match reply {
            Some(Reply::Done(Ok(()))) => (
                LoadState::ReadingKnownCustomers,
                Request::ReadKnownCustomers(config.known_customers.clone()),
            ),
            Some(Reply::Done(Err(failure))) => finish(Err(failure)),
            _ => vstd::pervasive::unreached(),
        },
        LoadState::ReadingKnownCustomers => match reply {
            Some(Reply::KnownCustomers(Ok(customers))) => move_customers(
                config,
                customers,
                0,
                Ok(()),
            ),
            Some(Reply::KnownCustomers(Err(failure))) => finish(Err(failure)),
            _ => vstd::pervasive::unreached(),
        },
        LoadState::InsertingKnownCustomers { customers, attempted } => match reply {
            Some(Reply::Done(outcome)) => move_customers(config, customers, attempted, outcome),
            _ => vstd::pervasive::unreached(),
        },
        LoadState::ReadingTransactions { file, gathered } => match reply {
            Some(Reply::Transactions(Ok(transactions))) => {
                let mut gathered = gathered;
                let mut transactions = transactions;
                let ghost before = gathered@;
                let ghost added = transactions@;
                gathered.transactions.append(&mut transactions.transactions);
                assert(gathered@ =~= before + added);
                let next = if file < config.input_data.len() {
                    file + 1
                } else {
                    file
                };
                move_files(config, next, gathered)
            },
            Some(Reply::Transactions(Err(failure))) => finish(Err(failure)),
            _ => vstd::pervasive::unreached(),
        },
        LoadState::InsertingTransactions { transactions, attempted } => match reply {
            Some(Reply::Done(outcome)) => move_transactions(transactions, attempted, outcome),
            _ => vstd::pervasive::unreached(),
        },
        LoadState::Finished => vstd::pervasive::unreached(),
    }
}

/// Every step must succeed: whatever the load workflow was waiting for, a
/// reply that reports a failure ends it at once, with that failure unchanged.
/// Nothing more is inserted, read or asked.
pub proof fn law_load_failure_is_final(
    config: ConfigView,
    state: LoadStateView,
    reply: ReplyView,
    failure: FailureView,
)
    requires
        load_expects(state, Some(reply)),
        reply_failure(reply) == Some(failure),
    ensures
        load_step(config, state, Some(reply)) == load_finish(Err(failure)),
        !load_expects(load_step(config, state, Some(reply)).0, Some(reply)),
        forall|later: Option<ReplyView>|
            !load_expects(load_step(config, state, Some(reply)).0, later),
{
}

/// The load workflow asks for the input files in the order of the
/// configuration and keeps their transactions in that order: after the file
/// at index `file`, the transactions gathered are those gathered before it
/// followed by the file's own, and the next file asked for is the one at
/// index `file + 1`, if there is one.
pub proof fn law_load_files_in_order(
    config: ConfigView,
    file: nat,
    gathered: Seq<TransactionView>,
    transactions: Seq<TransactionView>,
)
    requires
        file + 1 < config.input_data.len(),
    ensures
        load_step(
            config,
            LoadStateView::ReadingTransactions { file, gathered },
            Some(ReplyView::Transactions(Ok(transactions))),
        ) == (
            LoadStateView::ReadingTransactions { file: file + 1, gathered: gathered + transactions },
            RequestView::ReadTransactions(config.input_data[file as int + 1]),
        ),
{
}

/// The load workflow waits for exactly the replies that answer the request
/// it has just made.
pub proof fn law_load_expects_the_answer(
    config: ConfigView,
    state: LoadStateView,
    reply: Option<ReplyView>,
    next: ReplyView,
)
    requires
        load_expects(state, reply),
    ensures
        load_expects(load_step(config, state, reply).0, Some(next)) == answers(
            load_step(config, state, reply).1,
            next,
        ),
{
}

/// The requests that the load workflow makes, in order, when it is resumed
/// from `state` with `reply` and each of its requests is answered by the next
/// reply of `script`. The run ends with the end of the workflow, with the
/// end of the script, or with a reply that does not answer the request.
pub open spec fn load_run(
    config: ConfigView,
    state: LoadStateView,
    reply: Option<ReplyView>,
    script: Seq<ReplyView>,
) -> Seq<RequestView>
    decreases script.len(),
{
    let (next, request) = load_step(config, state, reply);
    if script.len() > 0 && answers(request, script[0]) {
        seq![request] + load_run(config, next, Some(script[0]), script.drop_first())
    } else {
        seq![request]
    }
}

/// All or abort, over whole runs of the load workflow. Whatever the replies:
/// when the reply to a request reports a failure, the next request is the end
/// of the workflow with that failure, and it is the last. So no customer and
/// no transaction is handed to the store after an insert has failed, and no
/// file is read after one could not be.
pub proof fn law_load_stops_at_the_first_failure(
    config: ConfigView,
    script: Seq<ReplyView>,
    i: int,
)
    requires
        0 <= i,
        i + 1 < load_run(config, LoadStateView::Start, None, script).len(),
        reply_failure(script[i]) is Some,
    ensures
        load_run(config, LoadStateView::Start, None, script).len() == i + 2,
        load_run(config, LoadStateView::Start, None, script)[i + 1] == RequestView::Finish(
            Err(reply_failure(script[i])->0),
        ),
{
    lemma_load_run(config, LoadStateView::Start, None, script, i);
}

proof fn lemma_load_run(
    config: ConfigView,
    state: LoadStateView,
    reply: Option<ReplyView>,
    script: Seq<ReplyView>,
    i: int,
)
    requires
        load_expects(state, reply),
        0 <= i,
        i + 1 < load_run(config, state, reply, script).len(),
    ensures
        i < script.len(),
        reply_failure(script[i]) is Some ==> load_run(config, state, reply, script).len() == i
            + 2 && load_run(config, state, reply, script)[i + 1] == RequestView::Finish(
            Err(reply_failure(script[i])->0),
        ),
    decreases script.len(),
{
    let (next, request) = load_step(config, state, reply);
    let run = load_run(config, state, reply, script);
    if script.len() > 0 && answers(request, script[0]) {
        let rest = load_run(config, next, Some(script[0]), script.drop_first());
        assert(run == seq![request] + rest);
        law_load_expects_the_answer(config, state, reply, script[0]);
        if i == 0 {
            if reply_failure(script[0]) is Some {
                let failure = reply_failure(script[0])->0;
                law_load_failure_is_final(config, next, script[0], failure);
                let last = load_step(config, next, Some(script[0])).1;
                assert(last == RequestView::Finish(Err(failure)));
                assert(rest == seq![last]);
                assert(run[1] == rest[0]);
            }
        } else {
            assert(rest.len() == run.len() - 1);
            lemma_load_run(config, next, Some(script[0]), script.drop_first(), i - 1);
            assert(script.drop_first()[i - 1] == script[i]);
            assert(run[i + 1] == rest[i]);
        }
    } else {
        assert(run == seq![request]);
    }
}

/// As many replies of success as `count`.
pub open spec fn successes(count: nat) -> Seq<ReplyView> {
    Seq::new(count, |i: int| ReplyView::Done(Ok(())))
}

/// The inserts of the customers from index `from` on, in order.
pub open spec fn customer_inserts(customers: Seq<CustomerView>, from: nat) -> Seq<RequestView> {
    Seq::new(
        (customers.len() - from) as nat,
        |i: int| RequestView::InsertKnownClient(customers[from + i]),
    )
}

/// The inserts of the transactions from index `from` on, in order.
pub open spec fn transaction_inserts(transactions: Seq<TransactionView>, from: nat) -> Seq<
    RequestView,
> {
    Seq::new(
        (transactions.len() - from) as nat,
        |i: int| RequestView::InsertTransaction(transactions[from + i]),
    )
}

/// The reads of the configured input files from index `from` on, in order.
pub open spec fn file_reads(config: ConfigView, from: nat) -> Seq<RequestView> {
    Seq::new(
        (config.input_data.len() - from) as nat,
        |i: int| RequestView::ReadTransactions(config.input_data[from + i]),
    )
}

/// The replies that hand over the documents `files` from index `from` on.
pub open spec fn file_replies(files: Seq<Seq<TransactionView>>, from: nat) -> Seq<ReplyView> {
    Seq::new((files.len() - from) as nat, |i: int| ReplyView::Transactions(Ok(files[from + i])))
}

/// The transactions of the first `upto` documents, one document after the
/// other.
pub open spec fn gathered(files: Seq<Seq<TransactionView>>, upto: nat) -> Seq<TransactionView>
    decreases upto,
{
    if upto == 0 || upto > files.len() {
        Seq::empty()
    } else {
        gathered(files, (upto - 1) as nat) + files[upto - 1]
    }
}

/// What the load workflow asks for when nothing fails: the connection; the
/// registry; the insert of each customer in the order of the registry; each
/// input file in the order of the configuration; the insert of each
/// transaction, file after file and in the order of each file; and the end,
/// in success.
pub open spec fn load_plan(
    config: ConfigView,
    customers: Seq<CustomerView>,
    files: Seq<Seq<TransactionView>>,
) -> Seq<RequestView> {
    seq![
        RequestView::Connect(config.db_connection_string),
        RequestView::ReadKnownCustomers(config.known_customers),
    ] + customer_inserts(customers, 0) + file_reads(config, 0) + transaction_inserts(
        gathered(files, files.len()),
        0,
    ) + seq![RequestView::Finish(Ok(()))]
}

/// The replies of surroundings in which nothing fails: the connection opens,
/// the registry holds `customers`, the input files hold `files`, and every
/// insert succeeds.
pub open spec fn load_replies(customers: Seq<CustomerView>, files: Seq<Seq<TransactionView>>) -> Seq<
    ReplyView,
> {
    seq![ReplyView::Done(Ok(())), ReplyView::KnownCustomers(Ok(customers))] + successes(
        customers.len(),
    ) + file_replies(files, 0) + successes(gathered(files, files.len()).len())
}

/// When nothing fails, the load workflow stores everything, in order: it
/// makes exactly the requests of `load_plan`, and ends in success.
pub proof fn law_load_stores_everything_in_order(
    config: ConfigView,
    customers: Seq<CustomerView>,
    files: Seq<Seq<TransactionView>>,
)
    requires
        files.len() == config.input_data.len(),
    ensures
        load_run(config, LoadStateView::Start, None, load_replies(customers, files)) == load_plan(
            config,
            customers,
            files,
        ),
{
    let all = gathered(files, files.len());
    let tail = successes(customers.len()) + file_replies(files, 0) + successes(all.len());
    let script = load_replies(customers, files);
    let opened = ReplyView::Done(Ok(()));
    let read = ReplyView::KnownCustomers(Ok(customers));
    assert(script =~= seq![opened, read] + tail);
    assert(script[0] == opened);
    let second = script.drop_first();
    assert(second =~= seq![read] + tail);
    assert(second[0] == read);
    assert(second.drop_first() =~= tail);
    lemma_customers_run(
        config,
        LoadStateView::ReadingKnownCustomers,
        Some(read),
        customers,
        0,
        files,
    );
    let third = load_run(config, LoadStateView::ReadingKnownCustomers, Some(read), tail);
    assert(load_run(config, LoadStateView::Connecting, Some(opened), second) == seq![
        RequestView::ReadKnownCustomers(config.known_customers),
    ] + third);
    assert(load_run(config, LoadStateView::Start, None, script) == seq![
        RequestView::Connect(config.db_connection_string),
    ] + load_run(config, LoadStateView::Connecting, Some(opened), second));
    assert(load_run(config, LoadStateView::Start, None, script) =~= load_plan(
        config,
        customers,
        files,
    ));
}

proof fn lemma_customers_run(
    config: ConfigView,
    state: LoadStateView,
    reply: Option<ReplyView>,
    customers: Seq<CustomerView>,
    from: nat,
    files: Seq<Seq<TransactionView>>,
)
    requires
        files.len() == config.input_data.len(),
        from <= customers.len(),
        load_step(config, state, reply) == load_customers(config, customers, from, Ok(())),
    ensures
        load_run(
            config,
            state,
            reply,
            successes((customers.len() - from) as nat) + file_replies(files, 0) + successes(
                gathered(files, files.len()).len(),
            ),
        ) == customer_inserts(customers, from) + file_reads(config, 0) + transaction_inserts(
            gathered(files, files.len()),
            0,
        ) + seq![RequestView::Finish(Ok(()))],
    decreases customers.len() - from,
{
    let all = gathered(files, files.len());
    let later = file_replies(files, 0) + successes(all.len());
    let script = successes((customers.len() - from) as nat) + later;
    let wanted = file_reads(config, 0) + transaction_inserts(all, 0) + seq![
        RequestView::Finish(Ok(())),
    ];
    if from == customers.len() {
        assert(script =~= later);
        assert(script =~= successes((customers.len() - from) as nat) + file_replies(files, 0)
            + successes(all.len()));
        assert(gathered(files, 0) == Seq::<TransactionView>::empty());
        lemma_files_run(config, state, reply, files, 0);
        assert(customer_inserts(customers, from) =~= Seq::<RequestView>::empty());
        assert(customer_inserts(customers, from) + file_reads(config, 0) + transaction_inserts(
            all,
            0,
        ) + seq![RequestView::Finish(Ok(()))] =~= wanted);
    } else {
        let (next, request) = load_step(config, state, reply);
        let ok = ReplyView::Done(Ok(()));
        assert(script[0] == ok);
        let rest = successes((customers.len() - from - 1) as nat) + later;
        assert(script.drop_first() =~= rest);
        lemma_customers_run(config, next, Some(ok), customers, from + 1, files);
        assert(rest =~= successes((customers.len() - (from + 1)) as nat) + file_replies(files, 0)
            + successes(all.len()));
        assert(script =~= successes((customers.len() - from) as nat) + file_replies(files, 0)
            + successes(all.len()));
        assert(load_run(config, next, Some(ok), rest) == customer_inserts(customers, from + 1)
            + file_reads(config, 0) + transaction_inserts(all, 0) + seq![
            RequestView::Finish(Ok(())),
        ]);
        assert(load_run(config, state, reply, script) == seq![request] + load_run(
            config,
            next,
            Some(ok),
            rest,
        ));
        assert(customer_inserts(customers, from) =~= seq![request] + customer_inserts(
            customers,
            from + 1,
        ));
        assert(load_run(config, state, reply, script) =~= customer_inserts(customers, from)
            + file_reads(config, 0) + transaction_inserts(all, 0) + seq![
            RequestView::Finish(Ok(())),
        ]);
    }
}

proof fn lemma_files_run(
    config: ConfigView,
    state: LoadStateView,
    reply: Option<ReplyView>,
    files: Seq<Seq<TransactionView>>,
    from: nat,
)
    requires
        files.len() == config.input_data.len(),
        from <= files.len(),
        load_step(config, state, reply) == load_files(config, from, gathered(files, from)),
    ensures
        load_run(
            config,
            state,
            reply,
            file_replies(files, from) + successes(gathered(files, files.len()).len()),
        ) == file_reads(config, from) + transaction_inserts(gathered(files, files.len()), 0)
            + seq![RequestView::Finish(Ok(()))],
    decreases files.len() - from,
{
    let all = gathered(files, files.len());
    let script = file_replies(files, from) + successes(all.len());
    if from == files.len() {
        assert(script =~= successes(all.len()));
        lemma_transactions_run(config, state, reply, all, 0);
        assert(file_reads(config, from) =~= Seq::<RequestView>::empty());
        assert(file_reads(config, from) + transaction_inserts(all, 0) + seq![
            RequestView::Finish(Ok(())),
        ] =~= transaction_inserts(all, 0) + seq![RequestView::Finish(Ok(()))]);
    } else {
        let (next, request) = load_step(config, state, reply);
        let handed = ReplyView::Transactions(Ok(files[from as int]));
        assert(script[0] == handed);
        let rest = file_replies(files, from + 1) + successes(all.len());
        assert(script.drop_first() =~= rest);
        assert(gathered(files, from + 1) == gathered(files, from) + files[from as int]);
        lemma_files_run(config, next, Some(handed), files, from + 1);
        assert(load_run(config, state, reply, script) == seq![request] + load_run(
            config,
            next,
            Some(handed),
            rest,
        ));
        assert(file_reads(config, from) =~= seq![request] + file_reads(config, from + 1));
        assert(load_run(config, state, reply, script) =~= file_reads(config, from)
            + transaction_inserts(all, 0) + seq![RequestView::Finish(Ok(()))]);
    }
}

proof fn lemma_transactions_run(
    config: ConfigView,
    state: LoadStateView,
    reply: Option<ReplyView>,
    transactions: Seq<TransactionView>,
    from: nat,
)
    requires
        from <= transactions.len(),
        load_step(config, state, reply) == load_transactions(transactions, from, Ok(())),
    ensures
        load_run(config, state, reply, successes((transactions.len() - from) as nat))
            == transaction_inserts(transactions, from) + seq![RequestView::Finish(Ok(()))],
    decreases transactions.len() - from,
{
    let script = successes((transactions.len() - from) as nat);
    if from == transactions.len() {
        assert(transaction_inserts(transactions, from) =~= Seq::<RequestView>::empty());
        assert(load_run(config, state, reply, script) =~= transaction_inserts(
            transactions,
            from,
        ) + seq![RequestView::Finish(Ok(()))]);
    } else {
        let (next, request) = load_step(config, state, reply);
        let ok = ReplyView::Done(Ok(()));
        assert(script[0] == ok);
        let rest = successes((transactions.len() - from - 1) as nat);
        assert(script.drop_first() =~= rest);
        lemma_transactions_run(config, next, Some(ok), transactions, from + 1);
        assert(load_run(config, state, reply, script) == seq![request] + load_run(
            config,
            next,
            Some(ok),
            rest,
        ));
        assert(transaction_inserts(transactions, from) =~= seq![request] + transaction_inserts(
            transactions,
            from + 1,
        ));
        assert(load_run(config, state, reply, script) =~= transaction_inserts(
            transactions,
            from,
        ) + seq![RequestView::Finish(Ok(()))]);
    }
}

} // verus!
