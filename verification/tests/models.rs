use deposits::errors::{ErrorKind, Failure};
use deposits::models::{
    duplicate_strings, Amount, KnownCustomers, KnownCustomersArray, Transaction, Transactions,
};

fn sample() -> Transaction {
    Transaction {
        involves_watchonly: false,
        account: String::from("acct"),
        address: String::from("mvd6qFeVkqH6MNAS2Y2cLifbdaX5XUkbZJ"),
        category: String::from("receive"),
        amount: Amount { bits: 1.23456789_f64.to_bits() },
        label: String::from("label"),
        confirmations: 42,
        blockhash: String::from("3125fc0ebdcbdae25051f0f5e69ac2969cf910bdf5017349ef55a0ef9d76d591"),
        blockindex: 17,
        blocktime: 1_627_000_000,
        txid: String::from("146a2f6f4bb7b5e550e1b1c1a0a4b1c5a1b1e1f1"),
        vout: 3,
        walletconflicts: vec![String::from("one"), String::from("two")],
        time: 1_627_000_001,
        timereceived: 1_627_000_002,
        bip125_replaceable: String::from("no"),
    }
}

#[test]
fn a_copy_of_a_transaction_holds_the_same() {
    let original = sample();
    let copy = original.duplicate();
    assert_eq!(copy, original);
    assert_eq!(copy.walletconflicts, vec![String::from("one"), String::from("two")]);
    assert_eq!(f64::from_bits(copy.amount.bits), 1.23456789);
}

#[test]
fn a_copy_of_a_customer_holds_the_same() {
    let original = KnownCustomers { name: String::from("Wesley Crusher"), address: String::from("mvd6q") };
    assert_eq!(original.duplicate(), original);
}

#[test]
fn a_copy_of_a_list_of_strings_keeps_the_order() {
    let list = vec![String::from("b"), String::from("a"), String::from("b")];
    assert_eq!(duplicate_strings(&list), list);
    assert_eq!(duplicate_strings(&Vec::new()), Vec::<String>::new());
}

#[test]
fn collections_keep_the_order_of_their_records() {
    let registry = KnownCustomersArray {
        known_customers: vec![
            KnownCustomers { name: String::from("B"), address: String::from("2") },
            KnownCustomers { name: String::from("A"), address: String::from("1") },
        ],
    };
    assert_eq!(registry.known_customers[0].name, "B");
    assert_eq!(registry.known_customers[1].name, "A");
    let transactions = Transactions { transactions: vec![sample(), sample()] };
    assert_eq!(transactions.transactions.len(), 2);
}

#[test]
fn an_amount_is_its_bit_pattern() {
    assert_eq!(Amount { bits: 0.0015_f64.to_bits() }, Amount { bits: 0.00150000_f64.to_bits() });
    assert_ne!(Amount { bits: 0.0_f64.to_bits() }, Amount { bits: (-0.0_f64).to_bits() });
}

#[test]
fn a_failure_has_a_kind_and_a_message() {
    let failure = Failure::new(ErrorKind::Decode, "missing field `name`");
    assert_eq!(failure.kind, ErrorKind::Decode);
    assert_eq!(failure.message, "missing field `name`");
    assert_eq!(failure.to_string(), "missing field `name`");
    assert_eq!(failure.duplicate(), failure);
    let other = Failure::new(ErrorKind::Io, "missing field `name`");
    assert_ne!(other, failure);
}
