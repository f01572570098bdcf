//! The store's side of the workflows: which stored procedure each operation
//! calls, with which parameters in which order, and what an operation answers
//! when there is no connection to send it over.

use vstd::prelude::*;
use vstd::string::*;
use crate::errors::{ErrorKind, Failure, FailureView, failure_of, no_transactions};
use crate::models::{
    DecimalAmount, KnownCustomers, CustomerView, Transaction, TransactionView, duplicate_strings,
    strings_view,
};
use crate::models::Amount;

verus! {

/// One positional parameter of a statement.
#[derive(Debug, PartialEq, Eq)]
pub enum Param {
    Bool(bool),
    Text(String),
    Int4(i32),
    Int8(i64),
    Numeric(DecimalAmount),
    TextArray(Vec<String>),
}

/// What a parameter holds.
pub enum ParamView {
    Bool(bool),
    Text(Seq<char>),
    Int4(i32),
    Int8(i64),
    Numeric(DecimalAmount),
    TextArray(Seq<Seq<char>>),
}

impl View for Param {
    type V = ParamView;

    open spec fn view(&self) -> ParamView {
        match self {
            Param::Bool(b) => ParamView::Bool(*b),
            Param::Text(s) => ParamView::Text(s@),
            Param::Int4(n) => ParamView::Int4(*n),
            Param::Int8(n) => ParamView::Int8(*n),
            Param::Numeric(d) => ParamView::Numeric(*d),
            Param::TextArray(v) => ParamView::TextArray(strings_view(v@)),
        }
    }
}

/// A statement to send to the store: its text, and its parameters in the
/// order of the placeholders `$1`, `$2` and so on.
#[derive(Debug, PartialEq, Eq)]
pub struct Call {
    pub statement: String,
    pub params: Vec<Param>,
}

/// What a call holds.
pub struct CallView {
    pub statement: Seq<char>,
    pub params: Seq<ParamView>,
}

impl View for Call {
    type V = CallView;

    open spec fn view(&self) -> CallView {
        CallView {
            statement: self.statement@,
            params: self.params@.map_values(|p: Param| p@),
        }
    }
}

/// What to do for one operation of the driver whose answer is a `T`.
#[derive(Debug, PartialEq, Eq)]
pub enum Plan<T> {
    /// Send this call to the store; its result is the operation's answer.
    Send(Call),
    /// Send nothing: this is the operation's answer.
    Settled(T),
}

/// The call of a stored function or procedure.
pub open spec fn call_of(statement: &str, params: Seq<ParamView>) -> CallView {
    CallView { statement: statement@, params }
}

/// The sum of the confirmed deposits to one address.
pub open spec fn known_wallet_deposit_amount_call(address: Seq<char>) -> CallView {
    call_of("SELECT get_total_confirmed_amount($1)", seq![ParamView::Text(address)])
}

/// The number of the confirmed deposits to one address.
pub open spec fn known_wallet_transaction_count_call(address: Seq<char>) -> CallView {
    call_of("SELECT get_confirmed_transaction_count($1)", seq![ParamView::Text(address)])
}

/// The sum of the confirmed deposits to wallets of no known customer.
pub open spec fn unknown_wallet_deposit_amount_call() -> CallView {
    call_of("SELECT get_total_confirmed_amount_excluding_known_clients()", Seq::empty())
}

/// The number of the confirmed deposits to wallets of no known customer.
pub open spec fn unknown_wallet_transaction_count_call() -> CallView {
    call_of("SELECT get_confirmed_transaction_count_excluding_known_clients()", Seq::empty())
}

/// The smallest confirmed deposit.
pub open spec fn get_smallest_confirmed_amount_call() -> CallView {
    call_of("SELECT get_smallest_confirmed_amount()", Seq::empty())
}

/// The largest confirmed deposit.
pub open spec fn get_max_confirmed_amount_call() -> CallView {
    call_of("SELECT get_max_confirmed_amount()", Seq::empty())
}

/// The insert of one known customer: the name, then the address.
pub open spec fn insert_known_client_call(customer: CustomerView) -> CallView {
    call_of(
        "CALL insert_known_client($1, $2)",
        seq![ParamView::Text(customer.name), ParamView::Text(customer.address)],
    )
}

/// The sixteen parameters of the insert of one transaction, in the order in
/// which the store takes them: the flag; the seven texts `account`, `address`,
/// `category`, `label`, `blockhash`, `txid` and `bip125_replaceable`; the
/// amount, as the exact decimal `amount`; the three 32-bit numbers
/// `confirmations`, `blockindex` and `vout`; the three times `blocktime`,
/// `time` and `timereceived`; and the conflicting transactions.
pub open spec fn insert_transaction_params(
    transaction: TransactionView,
    amount: DecimalAmount,
) -> Seq<ParamView> {
    seq![
        ParamView::Bool(transaction.involves_watchonly),
        ParamView::Text(transaction.account),
        ParamView::Text(transaction.address),
        ParamView::Text(transaction.category),
        ParamView::Text(transaction.label),
        ParamView::Text(transaction.blockhash),
        ParamView::Text(transaction.txid),
        ParamView::Text(transaction.bip125_replaceable),
        ParamView::Numeric(amount),
        ParamView::Int4(transaction.confirmations),
        ParamView::Int4(transaction.blockindex),
        ParamView::Int4(transaction.vout),
        ParamView::Int8(transaction.blocktime),
        ParamView::Int8(transaction.time),
        ParamView::Int8(transaction.timereceived),
        ParamView::TextArray(transaction.walletconflicts),
    ]
}

/// The insert of one transaction.
pub open spec fn insert_transaction_call(
    transaction: TransactionView,
    amount: DecimalAmount,
) -> CallView {
    call_of(
        "CALL insert_transaction($1, $2, $3, $4, $5, $6, $7, $8, $9, $10, $11, $12, $13, $14, $15, $16)",
        insert_transaction_params(transaction, amount),
    )
}

/// The failure of an amount that has no exact decimal.
pub open spec fn invalid_amount() -> FailureView {
    failure_of(ErrorKind::AmountConversion, "Invalid amount")
}

/// The failure of a sum, a minimum or a maximum of the store that is no
/// binary amount.
pub open spec fn unreadable_amount() -> FailureView {
    failure_of(ErrorKind::AmountConversion, "Failed to convert Decimal to f64")
}

/// The exact decimal of `amount`, given the decimal `converted` that the
/// conversion of the amount gave and the amount `read_back` that this decimal
/// stands for: it is `converted` where the decimal reads back as the very same
/// amount, and nothing where the conversion gave nothing or lost precision.
pub open spec fn exact_decimal(
    amount: Amount,
    converted: Option<DecimalAmount>,
    read_back: Option<Amount>,
) -> Option<DecimalAmount> {
    if read_back == Some(amount) {
        converted
    } else {
        None
    }
}

/// The failure of a count asked for without a connection.
pub open spec fn no_client() -> FailureView {
    failure_of(ErrorKind::Connection, "No database client available")
}

/// The driver for a store that speaks the PostgreSQL protocol, without the
/// connection itself: it knows whether there is one, and says for each
/// operation what is to be sent over it.
#[derive(Debug)]
pub struct PostgresDriver {
    connected: bool,
}

impl PostgresDriver {
    /// Whether the driver has a connection.
    pub closed spec fn is_connected(&self) -> bool {
        self.connected
    }

    /// A driver without a connection.
    pub fn new() -> (driver: PostgresDriver)
        ensures
            !driver.is_connected(),
    {
        PostgresDriver { connected: false }
    }

    /// Whether the driver has a connection.
    pub fn connected(&self) -> (connected: bool)
        ensures
            connected == self.is_connected(),
    {
        self.connected
    }

    /// Takes note of an attempt to open a connection. After a success the
    /// driver has a connection. A failure is handed back as it is, and leaves
    /// the driver as it was.
    pub fn connect(&mut self, opened: Result<(), Failure>) -> (outcome: Result<(), Failure>)
        ensures
            opened is Ok ==> outcome is Ok && final(self).is_connected(),
            opened matches Err(failure) ==> (outcome matches Err(same) && same@ == failure@)
                && final(self).is_connected() == old(self).is_connected(),
    {
        match opened {
            Ok(()) => {
                self.connected = true;
                Ok(())
            },
            Err(failure) => Err(failure),
        }
    }

    /// The sum of the confirmed deposits to `address`.
    pub fn known_wallet_deposit_amount(&self, address: &str) -> (plan: Plan<
        Result<Option<Amount>, Failure>,
    >)
        ensures
            self.is_connected() ==> (plan matches Plan::Send(call) && call@
                == known_wallet_deposit_amount_call(address@)),
            !self.is_connected() ==> plan == Plan::<Result<Option<Amount>, Failure>>::Settled(
                Ok(None),
            ),
    {
        if self.connected {
            Plan::Send(text_call("SELECT get_total_confirmed_amount($1)", address))
        } else {
            Plan::Settled(Ok(None))
        }
    }

    /// The number of the confirmed deposits to `address`. Unlike a sum, a
    /// count is always owed: without a connection the answer is a failure.
    pub fn known_wallet_transaction_count(&self, address: &str) -> (plan: Plan<
        Result<i32, Failure>,
    >)
        ensures
            self.is_connected() ==> (plan matches Plan::Send(call) && call@
                == known_wallet_transaction_count_call(address@)),
            !self.is_connected() ==> (plan matches Plan::Settled(Err(failure)) && failure@
                == no_client()),
    {
        if self.connected {
            Plan::Send(text_call("SELECT get_confirmed_transaction_count($1)", address))
        } else {
            Plan::Settled(Err(missing_client()))
        }
    }

    /// The sum of the confirmed deposits to wallets of no known customer.
    pub fn unknown_wallet_deposit_amount(&self) -> (plan: Plan<Result<Option<Amount>, Failure>>)
        ensures
            self.is_connected() ==> (plan matches Plan::Send(call) && call@
                == unknown_wallet_deposit_amount_call()),
            !self.is_connected() ==> plan == Plan::<Result<Option<Amount>, Failure>>::Settled(
                Ok(None),
            ),
    {
        if self.connected {
            Plan::Send(
                bare_call("SELECT get_total_confirmed_amount_excluding_known_clients()"),
            )
        } else {
            Plan::Settled(Ok(None))
        }
    }

    /// The number of the confirmed deposits to wallets of no known customer.
    pub fn unknown_wallet_transaction_count(&self) -> (plan: Plan<Result<Option<i32>, Failure>>)
        ensures
            self.is_connected() ==> (plan matches Plan::Send(call) && call@
                == unknown_wallet_transaction_count_call()),
            !self.is_connected() ==> plan == Plan::<Result<Option<i32>, Failure>>::Settled(
                Ok(None),
            ),
    {
        if self.connected {
            Plan::Send(
                bare_call("SELECT get_confirmed_transaction_count_excluding_known_clients()"),
            )
        } else {
            Plan::Settled(Ok(None))
        }
    }

    /// The smallest confirmed deposit.
    pub fn get_smallest_confirmed_amount(&self) -> (plan: Plan<Result<Option<Amount>, Failure>>)
        ensures
            self.is_connected() ==> (plan matches Plan::Send(call) && call@
                == get_smallest_confirmed_amount_call()),
            !self.is_connected() ==> plan == Plan::<Result<Option<Amount>, Failure>>::Settled(
                Ok(None),
            ),
    {
        if self.connected {
            Plan::Send(bare_call("SELECT get_smallest_confirmed_amount()"))
        } else {
            Plan::Settled(Ok(None))
        }
    }

    /// The largest confirmed deposit.
    pub fn get_max_confirmed_amount(&self) -> (plan: Plan<Result<Option<Amount>, Failure>>)
        ensures
            self.is_connected() ==> (plan matches Plan::Send(call) && call@
                == get_max_confirmed_amount_call()),
            !self.is_connected() ==> plan == Plan::<Result<Option<Amount>, Failure>>::Settled(
                Ok(None),
            ),
    {
        if self.connected {
            Plan::Send(bare_call("SELECT get_max_confirmed_amount()"))
        } else {
            Plan::Settled(Ok(None))
        }
    }

    /// The insert of one known customer.
    pub fn insert_known_client(&self, known_customer: &KnownCustomers) -> (plan: Plan<
        Result<(), Failure>,
    >)
        ensures
            self.is_connected() ==> (plan matches Plan::Send(call) && call@
                == insert_known_client_call(known_customer@)),
            !self.is_connected() ==> plan == Plan::<Result<(), Failure>>::Settled(Ok(())),
    {
        if self.connected {
            let mut params: Vec<Param> = Vec::new();
            params.push(Param::Text(known_customer.name.clone()));
            params.push(Param::Text(known_customer.address.clone()));
            let call = Call {
                statement: String::from_str("CALL insert_known_client($1, $2)"),
                params,
            };
            assert(call@.params =~= insert_known_client_call(known_customer@).params);
            Plan::Send(call)
        } else {
            Plan::Settled(Ok(()))
        }
    }

    /// The insert of one transaction. `converted` is the decimal that the
    /// conversion of the transaction's amount gave, if it gave one, and
    /// `read_back` is the amount that this decimal stands for.
    ///
    /// With a connection, an amount without an exact decimal is refused and
    /// nothing is sent: that is an amount whose conversion gave nothing, or
    /// gave a decimal that does not read back as the same amount. Otherwise
    /// the call carries the sixteen parameters of
    /// `insert_transaction_params`, the amount as that decimal. Without a
    /// connection the answer is success, and nothing is stored.
    pub fn insert_transaction(
        &self,
        transaction: &Transaction,
        converted: Option<DecimalAmount>,
        read_back: Option<Amount>,
    ) -> (plan: Plan<Result<(), Failure>>)
        ensures
            !self.is_connected() ==> plan == Plan::<Result<(), Failure>>::Settled(Ok(())),
            self.is_connected() && exact_decimal(transaction@.amount, converted, read_back)
                is None ==> (plan matches Plan::Settled(Err(failure)) && failure@
                == invalid_amount()),
            self.is_connected() ==> (exact_decimal(transaction@.amount, converted, read_back)
                matches Some(decimal) ==> (plan matches Plan::Send(call) && call@
                == insert_transaction_call(transaction@, decimal))),
    {
        if !self.connected {
            return Plan::Settled(Ok(()));
        }
        match exact_amount(transaction.amount, converted, read_back) {
            None => Plan::Settled(
                Err(Failure::new(ErrorKind::AmountConversion, "Invalid amount")),
            ),
            Some(decimal) => {
                let mut params: Vec<Param> = Vec::new();
                params.push(Param::Bool(transaction.involves_watchonly));
                params.push(Param::Text(transaction.account.clone()));
                params.push(Param::Text(transaction.address.clone()));
                params.push(Param::Text(transaction.category.clone()));
                params.push(Param::Text(transaction.label.clone()));
                params.push(Param::Text(transaction.blockhash.clone()));
                params.push(Param::Text(transaction.txid.clone()));
                params.push(Param::Text(transaction.bip125_replaceable.clone()));
                params.push(Param::Numeric(decimal));
                params.push(Param::Int4(transaction.confirmations));
                params.push(Param::Int4(transaction.blockindex));
                params.push(Param::Int4(transaction.vout));
                params.push(Param::Int8(transaction.blocktime));
                params.push(Param::Int8(transaction.time));
                params.push(Param::Int8(transaction.timereceived));
                params.push(Param::TextArray(duplicate_strings(&transaction.walletconflicts)));
                let call = Call {
                    statement: String::from_str(
                        "CALL insert_transaction($1, $2, $3, $4, $5, $6, $7, $8, $9, $10, $11, $12, $13, $14, $15, $16)",
                    ),
                    params,
                };
                assert(call@.params =~= insert_transaction_params(transaction@, decimal));
                Plan::Send(call)
            },
        }
    }

    /// Lets go of the connection, if there is one.
    pub fn close(&mut self)
        ensures
            !final(self).is_connected(),
    {
        self.connected = false;
    }
}

/// The failure of an operation that needs a connection where there is none.
pub fn missing_client() -> (failure: Failure)
    ensures
        failure@ == no_client(),
{
    Failure::new(ErrorKind::Connection, "No database client available")
}

/// The exact decimal of `amount`: `converted`, the decimal that the
/// conversion of the amount gave, where `read_back`, the amount that this
/// decimal stands for, is the very same amount; nothing otherwise.
pub fn exact_amount(
    amount: Amount,
    converted: Option<DecimalAmount>,
    read_back: Option<Amount>,
) -> (exact: Option<DecimalAmount>)
    ensures
        exact == exact_decimal(amount, converted, read_back),
{
    match read_back {
        Some(back) => if back.bits == amount.bits {
            converted
        } else {
            None
        },
        None => None,
    }
}

/// The amount that a cell of the store holds. An empty cell is no amount,
/// which is not a failure. For a cell that holds a decimal, `cell` holds what
/// the conversion of that decimal to a binary amount gave: the amount, or
/// nothing, which is a failure.
pub fn owed_amount(cell: Option<Option<Amount>>) -> (answer: Result<Option<Amount>, Failure>)
    ensures
        cell is None ==> answer == Ok::<Option<Amount>, Failure>(None),
        cell matches Some(Some(amount)) ==> answer == Ok::<Option<Amount>, Failure>(
            Some(amount),
        ),
        cell == Some(None::<Amount>) ==> (answer matches Err(failure) && failure@
            == unreadable_amount()),
{
    match cell {
        None => Ok(None),
        Some(Some(amount)) => Ok(Some(amount)),
        Some(None) => Err(
            Failure::new(ErrorKind::AmountConversion, "Failed to convert Decimal to f64"),
        ),
    }
}

/// The count of deposits that a cell of the store holds. A count is always
/// owed: an empty cell is a failure, not a count of zero.
pub fn owed_count(cell: Option<i32>) -> (count: Result<i32, Failure>)
    ensures
        cell matches Some(n) ==> count == Ok::<i32, Failure>(n),
        cell is None ==> (count matches Err(failure) && failure@ == no_transactions()),
{
    match cell {
        Some(n) => Ok(n),
        None => Err(Failure::new(ErrorKind::MissingResult, "No Transactions Found")),
    }
}

fn bare_call(statement: &str) -> (call: Call)
    ensures
        call@ == call_of(statement, Seq::empty()),
{
    let call = Call { statement: String::from_str(statement), params: Vec::new() };
    assert(call@.params =~= Seq::<ParamView>::empty());
    call
}

fn text_call(statement: &str, text: &str) -> (call: Call)
    ensures
        call@ == call_of(statement, seq![ParamView::Text(text@)]),
{
    let mut params: Vec<Param> = Vec::new();
    params.push(Param::Text(String::from_str(text)));
    let call = Call { statement: String::from_str(statement), params };
    assert(call@.params =~= seq![ParamView::Text(text@)]);
    call
}

} // verus!
