//! The records that the workflows move: wallet transactions, known customers,
//! and the two forms in which a currency amount travels.

use vstd::prelude::*;

verus! {

/// A currency amount as an input document carries it: an IEEE 754 binary64
/// number, held by its 64-bit pattern. The library never does arithmetic on
/// it; it carries the pattern from the document to the store's boundary.
#[derive(Debug, Clone, Copy, PartialEq, Eq, Structural)]
pub struct Amount {
    pub bits: u64,
}

/// The largest scale of an exact decimal.
pub const MAX_SCALE: u32 = 28;

/// The bound on the magnitude of an exact decimal's mantissa: 2 to the 96th.
pub const MANTISSA_LIMIT: i128 = 0x1_0000_0000_0000_0000_0000_0000;

/// An exact decimal: `mantissa` divided by ten to the power `scale`. This is
/// the form in which the store takes an amount.
#[derive(Debug, Clone, Copy, PartialEq, Eq, Structural)]
pub struct DecimalAmount {
    pub mantissa: i128,
    pub scale: u32,
}

impl DecimalAmount {
    /// A 96-bit magnitude and a scale of at most 28.
    pub open spec fn valid(self) -> bool {
        &&& -MANTISSA_LIMIT < self.mantissa < MANTISSA_LIMIT
        &&& self.scale <= MAX_SCALE
    }

    /// The decimal with the given mantissa and scale, if both are in range.
    pub fn new(mantissa: i128, scale: u32) -> (made: Option<DecimalAmount>)
        ensures
            made is Some <==> (DecimalAmount { mantissa, scale }).valid(),
            made is Some ==> made->0 == (DecimalAmount { mantissa, scale }),
    {
        if -MANTISSA_LIMIT < mantissa && mantissa < MANTISSA_LIMIT && scale <= MAX_SCALE {
            Some(DecimalAmount { mantissa, scale })
        } else {
            None
        }
    }
}

/// What a sequence of strings holds, as sequences of characters.
pub open spec fn strings_view(strings: Seq<String>) -> Seq<Seq<char>> {
    strings.map_values(|s: String| s@)
}

/// A copy of a list of strings.
pub fn duplicate_strings(strings: &Vec<String>) -> (copy: Vec<String>)
    ensures
        strings_view(copy@) == strings_view(strings@),
{
    let mut copy: Vec<String> = Vec::new();
    let mut i: usize = 0;
    while i < strings.len()
        invariant
            i <= strings.len(),
            copy.len() == i,
            forall|j: int| 0 <= j < i ==> copy@[j]@ == strings@[j]@,
        decreases strings.len() - i,
    {
        copy.push(strings[i].clone());
        i = i + 1;
    }
    assert(strings_view(copy@) =~= strings_view(strings@));
    copy
}

/// A wallet address that belongs to an identified account holder.
#[derive(Debug, PartialEq, Eq)]
pub struct KnownCustomers {
    pub name: String,
    pub address: String,
}

/// What a known customer record holds.
pub struct CustomerView {
    pub name: Seq<char>,
    pub address: Seq<char>,
}

impl View for KnownCustomers {
    type V = CustomerView;

    open spec fn view(&self) -> CustomerView {
        CustomerView { name: self.name@, address: self.address@ }
    }
}

impl KnownCustomers {
    /// A copy of the record.
    pub fn duplicate(&self) -> (copy: KnownCustomers)
        ensures
            copy@ == self@,
    {
        KnownCustomers { name: self.name.clone(), address: self.address.clone() }
    }
}

/// What a sequence of known customer records holds.
pub open spec fn customers_view(customers: Seq<KnownCustomers>) -> Seq<CustomerView> {
    customers.map_values(|c: KnownCustomers| c@)
}

/// The registry of known customers, in the order of the document.
#[derive(Debug, PartialEq, Eq)]
pub struct KnownCustomersArray {
    pub known_customers: Vec<KnownCustomers>,
}

impl View for KnownCustomersArray {
    type V = Seq<CustomerView>;

    open spec fn view(&self) -> Seq<CustomerView> {
        customers_view(self.known_customers@)
    }
}

/// One wallet transaction, with the fields of the input document.
#[derive(Debug, PartialEq, Eq)]
pub struct Transaction {
    pub involves_watchonly: bool,
    pub account: String,
    pub address: String,
    pub category: String,
    pub amount: Amount,
    pub label: String,
    pub confirmations: i32,
    pub blockhash: String,
    pub blockindex: i32,
    pub blocktime: i64,
    pub txid: String,
    pub vout: i32,
    pub walletconflicts: Vec<String>,
    pub time: i64,
    pub timereceived: i64,
    pub bip125_replaceable: String,
}

/// What a transaction holds.
pub struct TransactionView {
    pub involves_watchonly: bool,
    pub account: Seq<char>,
    pub address: Seq<char>,
    pub category: Seq<char>,
    pub amount: Amount,
    pub label: Seq<char>,
    pub confirmations: i32,
    pub blockhash: Seq<char>,
    pub blockindex: i32,
    pub blocktime: i64,
    pub txid: Seq<char>,
    pub vout: i32,
    pub walletconflicts: Seq<Seq<char>>,
    pub time: i64,
    pub timereceived: i64,
    pub bip125_replaceable: Seq<char>,
}

impl View for Transaction {
    type V = TransactionView;

    open spec fn view(&self) -> TransactionView {
        TransactionView {
            involves_watchonly: self.involves_watchonly,
            account: self.account@,
            address: self.address@,
            category: self.category@,
            amount: self.amount,
            label: self.label@,
            confirmations: self.confirmations,
            blockhash: self.blockhash@,
            blockindex: self.blockindex,
            blocktime: self.blocktime,
            txid: self.txid@,
            vout: self.vout,
            walletconflicts: strings_view(self.walletconflicts@),
            time: self.time,
            timereceived: self.timereceived,
            bip125_replaceable: self.bip125_replaceable@,
        }
    }
}

impl Transaction {
    /// A copy of the record.
    pub fn duplicate(&self) -> (copy: Transaction)
        ensures
            copy@ == self@,
    {
        Transaction {
            involves_watchonly: self.involves_watchonly,
            account: self.account.clone(),
            address: self.address.clone(),
            category: self.category.clone(),
            amount: self.amount,
            label: self.label.clone(),
            confirmations: self.confirmations,
            blockhash: self.blockhash.clone(),
            blockindex: self.blockindex,
            blocktime: self.blocktime,
            txid: self.txid.clone(),
            vout: self.vout,
            walletconflicts: duplicate_strings(&self.walletconflicts),
            time: self.time,
            timereceived: self.timereceived,
            bip125_replaceable: self.bip125_replaceable.clone(),
        }
    }
}

/// What a sequence of transactions holds.
pub open spec fn transactions_view(transactions: Seq<Transaction>) -> Seq<TransactionView> {
    transactions.map_values(|t: Transaction| t@)
}

/// The transactions of one input document, or of several in turn.
#[derive(Debug, PartialEq, Eq)]
pub struct Transactions {
    pub transactions: Vec<Transaction>,
}

impl View for Transactions {
    type V = Seq<TransactionView>;

    open spec fn view(&self) -> Seq<TransactionView> {
        transactions_view(self.transactions@)
    }
}

} // verus!
