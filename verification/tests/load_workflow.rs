use deposits::config::Config;
use deposits::errors::{ErrorKind, Failure};
use deposits::handlers::{
    insert_all_known_clients, insert_all_transactions, load_data, Batch, LoadState,
};
use deposits::models::{Amount, KnownCustomers, KnownCustomersArray, Transaction, Transactions};
use deposits::protocol::{Reply, Request};

fn config(files: &[&str]) -> Config {
    Config {
        db_connection_string: String::from("host=localhost user=ledger"),
        log_file: String::from("log.txt"),
        known_customers: String::from("customers.json"),
        input_data: files.iter().map(|f| String::from(*f)).collect(),
    }
}

fn customer(name: &str, address: &str) -> KnownCustomers {
    KnownCustomers { name: String::from(name), address: String::from(address) }
}

fn transaction(txid: &str, address: &str, amount: f64) -> Transaction {
    Transaction {
        involves_watchonly: true,
        account: String::new(),
        address: String::from(address),
        category: String::from("receive"),
        amount: Amount { bits: amount.to_bits() },
        label: String::new(),
        confirmations: 6,
        blockhash: String::from("00ab"),
        blockindex: 2,
        blocktime: 1_600_000_000,
        txid: String::from(txid),
        vout: 0,
        walletconflicts: Vec::new(),
        time: 1_600_000_001,
        timereceived: 1_600_000_002,
        bip125_replaceable: String::from("no"),
    }
}

fn failure(kind: ErrorKind, message: &str) -> Failure {
    Failure { kind, message: String::from(message) }
}

/// Runs the load workflow to its end. Every request is recorded, and answered
/// by `answer`.
fn run(config: &Config, mut answer: impl FnMut(&Request) -> Reply) -> Vec<Request> {
    let mut requests: Vec<Request> = Vec::new();
    let (mut state, mut request) = load_data(config, LoadState::Start, None);
    loop {
        let finished = matches!(request, Request::Finish(_));
        requests.push(request);
        if finished {
            assert_eq!(state, LoadState::Finished);
            return requests;
        }
        let reply = Some(answer(requests.last().unwrap()));
        assert!(state.accepts(&reply));
        let moved = load_data(config, state, reply);
        state = moved.0;
        request = moved.1;
    }
}

#[test]
fn load_starts_by_connecting() {
    let config = config(&["a.json"]);
    let (state, request) = load_data(&config, LoadState::Start, None);
    assert_eq!(state, LoadState::Connecting);
    assert_eq!(request, Request::Connect(String::from("host=localhost user=ledger")));
}

#[test]
fn load_runs_every_step_in_order() {
    let config = config(&["a.json", "b.json"]);
    let requests = run(&config, |request| match request {
        Request::ReadKnownCustomers(_) => Reply::KnownCustomers(Ok(KnownCustomersArray {
            known_customers: vec![customer("Ann", "addr-a"), customer("Bob", "addr-b")],
        })),
        Request::ReadTransactions(path) if path == "a.json" => Reply::Transactions(Ok(
            Transactions {
                transactions: vec![transaction("t1", "addr-a", 1.5), transaction("t2", "x", 2.0)],
            },
        )),
        Request::ReadTransactions(_) => Reply::Transactions(Ok(Transactions {
            transactions: vec![transaction("t3", "addr-b", 0.25)],
        })),
        _ => Reply::Done(Ok(())),
    });
    assert_eq!(
        requests,
        vec![
            Request::Connect(String::from("host=localhost user=ledger")),
            Request::ReadKnownCustomers(String::from("customers.json")),
            Request::InsertKnownClient(customer("Ann", "addr-a")),
            Request::InsertKnownClient(customer("Bob", "addr-b")),
            Request::ReadTransactions(String::from("a.json")),
            Request::ReadTransactions(String::from("b.json")),
            Request::InsertTransaction(transaction("t1", "addr-a", 1.5)),
            Request::InsertTransaction(transaction("t2", "x", 2.0)),
            Request::InsertTransaction(transaction("t3", "addr-b", 0.25)),
            Request::Finish(Ok(())),
        ]
    );
}

#[test]
fn load_does_not_insert_the_second_customer_after_the_first_failed() {
    let config = config(&["a.json"]);
    let requests = run(&config, |request| match request {
        Request::ReadKnownCustomers(_) => Reply::KnownCustomers(Ok(KnownCustomersArray {
            known_customers: vec![customer("A", "addr-a"), customer("B", "addr-b")],
        })),
        Request::InsertKnownClient(c) if c.name == "A" => {
            Reply::Done(Err(failure(ErrorKind::StoreOperation, "duplicate key")))
        },
        _ => Reply::Done(Ok(())),
    });
    assert_eq!(
        requests,
        vec![
            Request::Connect(String::from("host=localhost user=ledger")),
            Request::ReadKnownCustomers(String::from("customers.json")),
            Request::InsertKnownClient(customer("A", "addr-a")),
            Request::Finish(Err(failure(ErrorKind::StoreOperation, "duplicate key"))),
        ]
    );
}

#[test]
fn load_stops_at_the_first_transaction_that_fails() {
    let config = config(&["a.json"]);
    let requests = run(&config, |request| match request {
        Request::ReadKnownCustomers(_) => {
            Reply::KnownCustomers(Ok(KnownCustomersArray { known_customers: vec![] }))
        },
        Request::ReadTransactions(_) => Reply::Transactions(Ok(Transactions {
            transactions: vec![
                transaction("t1", "a", 1.0),
                transaction("t2", "a", f64::NAN),
                transaction("t3", "a", 3.0),
            ],
        })),
        Request::InsertTransaction(t) if t.txid == "t2" => {
            Reply::Done(Err(failure(ErrorKind::AmountConversion, "Invalid amount")))
        },
        _ => Reply::Done(Ok(())),
    });
    assert_eq!(
        requests,
        vec![
            Request::Connect(String::from("host=localhost user=ledger")),
            Request::ReadKnownCustomers(String::from("customers.json")),
            Request::ReadTransactions(String::from("a.json")),
            Request::InsertTransaction(transaction("t1", "a", 1.0)),
            Request::InsertTransaction(transaction("t2", "a", f64::NAN)),
            Request::Finish(Err(failure(ErrorKind::AmountConversion, "Invalid amount"))),
        ]
    );
}

#[test]
fn load_reports_a_failed_connection_and_asks_nothing_more() {
    let config = config(&["a.json"]);
    let requests = run(&config, |_| {
        Reply::Done(Err(failure(ErrorKind::Connection, "connection refused")))
    });
    assert_eq!(
        requests,
        vec![
            Request::Connect(String::from("host=localhost user=ledger")),
            Request::Finish(Err(failure(ErrorKind::Connection, "connection refused"))),
        ]
    );
}

#[test]
fn load_stops_when_the_customers_file_cannot_be_opened() {
    let config = config(&["a.json"]);
    let requests = run(&config, |request| match request {
        Request::ReadKnownCustomers(_) => {
            Reply::KnownCustomers(Err(failure(ErrorKind::Io, "No such file or directory")))
        },
        _ => Reply::Done(Ok(())),
    });
    assert_eq!(requests.len(), 3);
    assert_eq!(
        requests[2],
        Request::Finish(Err(failure(ErrorKind::Io, "No such file or directory")))
    );
}

#[test]
fn load_inserts_no_transaction_when_a_later_file_does_not_decode() {
    let config = config(&["a.json", "b.json"]);
    let requests = run(&config, |request| match request {
        Request::ReadKnownCustomers(_) => {
            Reply::KnownCustomers(Ok(KnownCustomersArray { known_customers: vec![] }))
        },
        Request::ReadTransactions(path) if path == "a.json" => Reply::Transactions(Ok(
            Transactions { transactions: vec![transaction("t1", "a", 1.0)] },
        )),
        Request::ReadTransactions(_) => {
            Reply::Transactions(Err(failure(ErrorKind::Decode, "expected value at line 1")))
        },
        _ => Reply::Done(Ok(())),
    });
    assert_eq!(
        requests,
        vec![
            Request::Connect(String::from("host=localhost user=ledger")),
            Request::ReadKnownCustomers(String::from("customers.json")),
            Request::ReadTransactions(String::from("a.json")),
            Request::ReadTransactions(String::from("b.json")),
            Request::Finish(Err(failure(ErrorKind::Decode, "expected value at line 1"))),
        ]
    );
}

#[test]
fn load_with_nothing_to_insert_succeeds() {
    let config = config(&[]);
    let requests = run(&config, |request| match request {
        Request::ReadKnownCustomers(_) => {
            Reply::KnownCustomers(Ok(KnownCustomersArray { known_customers: vec![] }))
        },
        _ => Reply::Done(Ok(())),
    });
    assert_eq!(
        requests,
        vec![
            Request::Connect(String::from("host=localhost user=ledger")),
            Request::ReadKnownCustomers(String::from("customers.json")),
            Request::Finish(Ok(())),
        ]
    );
}

#[test]
fn load_accepts_only_the_reply_it_waits_for() {
    assert!(LoadState::Start.accepts(&None));
    assert!(!LoadState::Start.accepts(&Some(Reply::Done(Ok(())))));
    assert!(LoadState::Connecting.accepts(&Some(Reply::Done(Ok(())))));
    assert!(!LoadState::Connecting.accepts(&None));
    assert!(!LoadState::Connecting.accepts(&Some(Reply::Amount(Ok(None)))));
    assert!(!LoadState::ReadingKnownCustomers.accepts(&Some(Reply::Done(Ok(())))));
    assert!(!LoadState::Finished.accepts(&None));
    assert!(!LoadState::Finished.accepts(&Some(Reply::Done(Ok(())))));
}

#[test]
fn batch_of_customers_goes_record_by_record() {
    let customers = KnownCustomersArray {
        known_customers: vec![customer("A", "a"), customer("B", "b")],
    };
    assert_eq!(insert_all_known_clients(&customers, 0, Ok(())), Batch::Insert(0));
    assert_eq!(insert_all_known_clients(&customers, 1, Ok(())), Batch::Insert(1));
    assert_eq!(insert_all_known_clients(&customers, 2, Ok(())), Batch::Complete);
}

#[test]
fn batch_of_customers_aborts_on_a_failure() {
    let customers = KnownCustomersArray {
        known_customers: vec![customer("A", "a"), customer("B", "b")],
    };
    let failed = failure(ErrorKind::StoreOperation, "refused");
    assert_eq!(
        insert_all_known_clients(&customers, 1, Err(failed)),
        Batch::Aborted(failure(ErrorKind::StoreOperation, "refused"))
    );
}

#[test]
fn batch_of_transactions_goes_record_by_record() {
    let none = Transactions { transactions: vec![] };
    assert_eq!(insert_all_transactions(&none, 0, Ok(())), Batch::Complete);
    let one = Transactions { transactions: vec![transaction("t", "a", 1.0)] };
    assert_eq!(insert_all_transactions(&one, 0, Ok(())), Batch::Insert(0));
    assert_eq!(insert_all_transactions(&one, 1, Ok(())), Batch::Complete);
    assert_eq!(
        insert_all_transactions(&one, 1, Err(failure(ErrorKind::StoreOperation, "x"))),
        Batch::Aborted(failure(ErrorKind::StoreOperation, "x"))
    );
}
