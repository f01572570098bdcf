//! What a workflow asks of its surroundings, and what it is told in return.
//!
//! A workflow performs no input or output. It names one request at a time;
//! whoever runs it performs the request and resumes the workflow with the
//! reply.

use vstd::prelude::*;
use vstd::string::*;
use crate::errors::{Failure, FailureView, outcome_view};
use crate::models::{
    Amount, CustomerView, KnownCustomers, KnownCustomersArray, Transaction, TransactionView,
    Transactions,
};
use crate::text::{decimal_text, render_i32};

verus! {

/// One line of a report, before it is put into words.
#[derive(Debug, PartialEq, Eq)]
pub enum Report {
    /// The confirmed deposits of one known customer.
    KnownCustomer { name: String, count: i32, sum: Amount },
    /// The confirmed deposits to wallets of no known customer.
    Unreferenced { count: i32, sum: Amount },
    /// The smallest confirmed deposit.
    Smallest { amount: Amount },
    /// The largest confirmed deposit.
    Largest { amount: Amount },
}

/// What a report line holds.
pub enum ReportView {
    KnownCustomer { name: Seq<char>, count: i32, sum: Amount },
    Unreferenced { count: i32, sum: Amount },
    Smallest { amount: Amount },
    Largest { amount: Amount },
}

impl View for Report {
    type V = ReportView;

    open spec fn view(&self) -> ReportView {
        match self {
            Report::KnownCustomer { name, count, sum } => ReportView::KnownCustomer {
                name: name@,
                count: *count,
                sum: *sum,
            },
            Report::Unreferenced { count, sum } => ReportView::Unreferenced {
                count: *count,
                sum: *sum,
            },
            Report::Smallest { amount } => ReportView::Smallest { amount: *amount },
            Report::Largest { amount } => ReportView::Largest { amount: *amount },
        }
    }
}

/// The amount that a report line shows.
pub open spec fn report_amount(report: ReportView) -> Amount {
    match report {
        ReportView::KnownCustomer { sum, .. } => sum,
        ReportView::Unreferenced { sum, .. } => sum,
        ReportView::Smallest { amount } => amount,
        ReportView::Largest { amount } => amount,
    }
}

/// The words of a report line, given the text that shows its amount.
pub open spec fn report_line(report: ReportView, amount: Seq<char>) -> Seq<char> {
    match report {
        ReportView::KnownCustomer { name, count, .. } => "Deposited for "@ + name + ": count="@
            + decimal_text(count as int) + " sum="@ + amount,
        ReportView::Unreferenced { count, .. } => "Deposited without reference: count="@
            + decimal_text(count as int) + " sum="@ + amount,
        ReportView::Smallest { .. } => "Smallest valid deposit: "@ + amount,
        ReportView::Largest { .. } => "Largest valid deposit: "@ + amount,
    }
}

impl Report {
    /// The amount that the line shows.
    pub fn amount(&self) -> (amount: Amount)
        ensures
            amount == report_amount(self@),
    {
        match self {
            Report::KnownCustomer { sum, .. } => *sum,
            Report::Unreferenced { sum, .. } => *sum,
            Report::Smallest { amount } => *amount,
            Report::Largest { amount } => *amount,
        }
    }

    /// The line in words. `amount` is the text that shows the line's amount.
    pub fn line(&self, amount: &str) -> (line: String)
        ensures
            line@ == report_line(self@, amount@),
    {
        match self {
            Report::KnownCustomer { name, count, .. } => {
                let mut line = String::from_str("Deposited for ");
                line.append(name.as_str());
                line.append(": count=");
                line.append(render_i32(*count).as_str());
                line.append(" sum=");
                line.append(amount);
                line
            },
            Report::Unreferenced { count, .. } => {
                let mut line = String::from_str("Deposited without reference: count=");
                line.append(render_i32(*count).as_str());
                line.append(" sum=");
                line.append(amount);
                line
            },
            Report::Smallest { .. } => {
                let mut line = String::from_str("Smallest valid deposit: ");
                line.append(amount);
                line
            },
            Report::Largest { .. } => {
                let mut line = String::from_str("Largest valid deposit: ");
                line.append(amount);
                line
            },
        }
    }
}

/// What a workflow asks for next.
#[derive(Debug, PartialEq, Eq)]
pub enum Request {
    /// Open a connection to the store at this connection string.
    Connect(String),
    /// Read and decode the known-customers document at this path.
    ReadKnownCustomers(String),
    /// Read and decode the transactions document at this path.
    ReadTransactions(String),
    /// Persist one known customer.
    InsertKnownClient(KnownCustomers),
    /// Persist one transaction.
    InsertTransaction(Transaction),
    /// The sum of the confirmed deposits to this address.
    KnownWalletDepositAmount(String),
    /// The number of the confirmed deposits to this address.
    KnownWalletTransactionCount(String),
    /// The sum of the confirmed deposits to wallets of no known customer.
    UnknownWalletDepositAmount,
    /// The number of the confirmed deposits to wallets of no known customer.
    UnknownWalletTransactionCount,
    /// The smallest confirmed deposit.
    GetSmallestConfirmedAmount,
    /// The largest confirmed deposit.
    GetMaxConfirmedAmount,
    /// Put out one report line.
    Emit(Report),
    /// Nothing more: the workflow has ended with this outcome.
    Finish(Result<(), Failure>),
}

/// What a request holds.
pub enum RequestView {
    Connect(Seq<char>),
    ReadKnownCustomers(Seq<char>),
    ReadTransactions(Seq<char>),
    InsertKnownClient(CustomerView),
    InsertTransaction(TransactionView),
    KnownWalletDepositAmount(Seq<char>),
    KnownWalletTransactionCount(Seq<char>),
    UnknownWalletDepositAmount,
    UnknownWalletTransactionCount,
    GetSmallestConfirmedAmount,
    GetMaxConfirmedAmount,
    Emit(ReportView),
    Finish(Result<(), FailureView>),
}

impl View for Request {
    type V = RequestView;

    open spec fn view(&self) -> RequestView {
        match self {
            Request::Connect(s) => RequestView::Connect(s@),
            Request::ReadKnownCustomers(s) => RequestView::ReadKnownCustomers(s@),
            Request::ReadTransactions(s) => RequestView::ReadTransactions(s@),
            Request::InsertKnownClient(c) => RequestView::InsertKnownClient(c@),
            Request::InsertTransaction(t) => RequestView::InsertTransaction(t@),
            Request::KnownWalletDepositAmount(s) => RequestView::KnownWalletDepositAmount(s@),
            Request::KnownWalletTransactionCount(s) => RequestView::KnownWalletTransactionCount(
                s@,
            ),
            Request::UnknownWalletDepositAmount => RequestView::UnknownWalletDepositAmount,
            Request::UnknownWalletTransactionCount => RequestView::UnknownWalletTransactionCount,
            Request::GetSmallestConfirmedAmount => RequestView::GetSmallestConfirmedAmount,
            Request::GetMaxConfirmedAmount => RequestView::GetMaxConfirmedAmount,
            Request::Emit(r) => RequestView::Emit(r@),
            Request::Finish(outcome) => RequestView::Finish(outcome_view(*outcome)),
        }
    }
}

/// What a workflow is told after its request was performed.
#[derive(Debug, PartialEq, Eq)]
pub enum Reply {
    /// The outcome of connecting, of an insert, or of putting out a line.
    Done(Result<(), Failure>),
    /// The decoded known-customers document, or why there is none.
    KnownCustomers(Result<KnownCustomersArray, Failure>),
    /// The decoded transactions document, or why there is none.
    Transactions(Result<Transactions, Failure>),
    /// An amount, which the store may lack.
    Amount(Result<Option<Amount>, Failure>),
    /// The number of deposits to one known address.
    KnownCount(Result<i32, Failure>),
    /// The number of deposits to unknown wallets, which the store may lack.
    Count(Result<Option<i32>, Failure>),
}

/// What a reply holds.
pub enum ReplyView {
    Done(Result<(), FailureView>),
    KnownCustomers(Result<Seq<CustomerView>, FailureView>),
    Transactions(Result<Seq<TransactionView>, FailureView>),
    Amount(Result<Option<Amount>, FailureView>),
    KnownCount(Result<i32, FailureView>),
    Count(Result<Option<i32>, FailureView>),
}

impl View for Reply {
    type V = ReplyView;

    open spec fn view(&self) -> ReplyView {
        match self {
            Reply::Done(Ok(())) => ReplyView::Done(Ok(())),
            Reply::Done(Err(f)) => ReplyView::Done(Err(f@)),
            Reply::KnownCustomers(Ok(c)) => ReplyView::KnownCustomers(Ok(c@)),
            Reply::KnownCustomers(Err(f)) => ReplyView::KnownCustomers(Err(f@)),
            Reply::Transactions(Ok(t)) => ReplyView::Transactions(Ok(t@)),
            Reply::Transactions(Err(f)) => ReplyView::Transactions(Err(f@)),
            Reply::Amount(Ok(a)) => ReplyView::Amount(Ok(*a)),
            Reply::Amount(Err(f)) => ReplyView::Amount(Err(f@)),
            Reply::KnownCount(Ok(n)) => ReplyView::KnownCount(Ok(*n)),
            Reply::KnownCount(Err(f)) => ReplyView::KnownCount(Err(f@)),
            Reply::Count(Ok(n)) => ReplyView::Count(Ok(*n)),
            Reply::Count(Err(f)) => ReplyView::Count(Err(f@)),
        }
    }
}

/// Whether `reply` is of the kind that answers `request`. Nothing answers
/// the end of a workflow.
pub open spec fn answers(request: RequestView, reply: ReplyView) -> bool {
    match request {
        RequestView::Connect(_) => reply is Done,
        RequestView::ReadKnownCustomers(_) => reply is KnownCustomers,
        RequestView::ReadTransactions(_) => reply is Transactions,
        RequestView::InsertKnownClient(_) => reply is Done,
        RequestView::InsertTransaction(_) => reply is Done,
        RequestView::KnownWalletDepositAmount(_) => reply is Amount,
        RequestView::KnownWalletTransactionCount(_) => reply is KnownCount,
        RequestView::UnknownWalletDepositAmount => reply is Amount,
        RequestView::UnknownWalletTransactionCount => reply is Count,
        RequestView::GetSmallestConfirmedAmount => reply is Amount,
        RequestView::GetMaxConfirmedAmount => reply is Amount,
        RequestView::Emit(_) => reply is Done,
        RequestView::Finish(_) => false,
    }
}

impl Request {
    /// Whether `reply` is of the kind that answers this request.
    pub fn answered_by(&self, reply: &Reply) -> (answered: bool)
        ensures
            answered == answers(self@, reply@),
    {
        match self {
            Request::Connect(_) => matches!(reply, Reply::Done(_)),
            Request::ReadKnownCustomers(_) => matches!(reply, Reply::KnownCustomers(_)),
            Request::ReadTransactions(_) => matches!(reply, Reply::Transactions(_)),
            Request::InsertKnownClient(_) => matches!(reply, Reply::Done(_)),
            Request::InsertTransaction(_) => matches!(reply, Reply::Done(_)),
            Request::KnownWalletDepositAmount(_) => matches!(reply, Reply::Amount(_)),
            Request::KnownWalletTransactionCount(_) => matches!(reply, Reply::KnownCount(_)),
            Request::UnknownWalletDepositAmount => matches!(reply, Reply::Amount(_)),
            Request::UnknownWalletTransactionCount => matches!(reply, Reply::Count(_)),
            Request::GetSmallestConfirmedAmount => matches!(reply, Reply::Amount(_)),
            Request::GetMaxConfirmedAmount => matches!(reply, Reply::Amount(_)),
            Request::Emit(_) => matches!(reply, Reply::Done(_)),
            Request::Finish(_) => false,
        }
    }
}

/// The view of a reply that may not have come yet.
pub open spec fn reply_view(reply: Option<Reply>) -> Option<ReplyView> {
    match reply {
        Some(r) => Some(r@),
        None => None,
    }
}

/// The failure that a reply reports, if it reports one.
pub open spec fn reply_failure(reply: ReplyView) -> Option<FailureView> {
    match reply {
        ReplyView::Done(Err(f)) => Some(f),
        ReplyView::KnownCustomers(Err(f)) => Some(f),
        ReplyView::Transactions(Err(f)) => Some(f),
        ReplyView::Amount(Err(f)) => Some(f),
        ReplyView::KnownCount(Err(f)) => Some(f),
        ReplyView::Count(Err(f)) => Some(f),
        _ => None,
    }
}

} // verus!
