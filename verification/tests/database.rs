use deposits::database::{
    exact_amount, missing_client, owed_amount, Call, Param, Plan, PostgresDriver,
};
use deposits::errors::{ErrorKind, Failure};
use deposits::models::{Amount, DecimalAmount, KnownCustomers, Transaction};
use rust_decimal::prelude::FromPrimitive;
use rust_decimal::Decimal;

fn connected() -> PostgresDriver {
    let mut driver = PostgresDriver::new();
    assert_eq!(driver.connect(Ok(())), Ok(()));
    driver
}

fn transaction(amount: f64) -> Transaction {
    Transaction {
        involves_watchonly: true,
        account: String::from("acct"),
        address: String::from("1A2b3C"),
        category: String::from("receive"),
        amount: Amount { bits: amount.to_bits() },
        label: String::from("lbl"),
        confirmations: 6,
        blockhash: String::from("00ab"),
        blockindex: 2,
        blocktime: 1_600_000_000,
        txid: String::from("tx-1"),
        vout: 4,
        walletconflicts: vec![String::from("tx-0"), String::from("tx-9")],
        time: 1_600_000_001,
        timereceived: 1_600_000_002,
        bip125_replaceable: String::from("no"),
    }
}

/// What converting a binary amount to a decimal gives, and the binary amount
/// that the decimal stands for.
fn conversions(amount: Amount) -> (Option<DecimalAmount>, Option<Amount>) {
    let decimal = Decimal::from_f64(f64::from_bits(amount.bits));
    let converted = decimal.and_then(|d| DecimalAmount::new(d.mantissa(), d.scale()));
    let read_back = decimal
        .and_then(|d| d.to_string().parse::<f64>().ok())
        .map(|value| Amount { bits: value.to_bits() });
    (converted, read_back)
}

fn invalid() -> Failure {
    Failure { kind: ErrorKind::AmountConversion, message: String::from("Invalid amount") }
}

#[test]
fn a_new_driver_has_no_connection() {
    let driver = PostgresDriver::new();
    assert!(!driver.connected());
}

#[test]
fn connect_keeps_a_failure_and_the_state() {
    let mut driver = PostgresDriver::new();
    let refused = Failure { kind: ErrorKind::Connection, message: String::from("refused") };
    assert_eq!(
        driver.connect(Err(refused)),
        Err(Failure { kind: ErrorKind::Connection, message: String::from("refused") })
    );
    assert!(!driver.connected());
    assert_eq!(driver.connect(Ok(())), Ok(()));
    assert!(driver.connected());
    let again = Failure { kind: ErrorKind::Connection, message: String::from("later") };
    assert!(driver.connect(Err(again)).is_err());
    assert!(driver.connected());
}

#[test]
fn close_is_idempotent_and_safe_without_a_connection() {
    let mut never = PostgresDriver::new();
    never.close();
    assert!(!never.connected());
    let mut driver = connected();
    driver.close();
    assert!(!driver.connected());
    driver.close();
    assert!(!driver.connected());
}

#[test]
fn queries_call_the_stored_functions() {
    let driver = connected();
    assert_eq!(
        driver.known_wallet_deposit_amount("1A2b3C"),
        Plan::Send(Call {
            statement: String::from("SELECT get_total_confirmed_amount($1)"),
            params: vec![Param::Text(String::from("1A2b3C"))],
        })
    );
    assert_eq!(
        driver.known_wallet_transaction_count("1A2b3C"),
        Plan::Send(Call {
            statement: String::from("SELECT get_confirmed_transaction_count($1)"),
            params: vec![Param::Text(String::from("1A2b3C"))],
        })
    );
    assert_eq!(
        driver.unknown_wallet_deposit_amount(),
        Plan::Send(Call {
            statement: String::from(
                "SELECT get_total_confirmed_amount_excluding_known_clients()"
            ),
            params: vec![],
        })
    );
    assert_eq!(
        driver.unknown_wallet_transaction_count(),
        Plan::Send(Call {
            statement: String::from(
                "SELECT get_confirmed_transaction_count_excluding_known_clients()"
            ),
            params: vec![],
        })
    );
    assert_eq!(
        driver.get_smallest_confirmed_amount(),
        Plan::Send(Call {
            statement: String::from("SELECT get_smallest_confirmed_amount()"),
            params: vec![],
        })
    );
    assert_eq!(
        driver.get_max_confirmed_amount(),
        Plan::Send(Call {
            statement: String::from("SELECT get_max_confirmed_amount()"),
            params: vec![],
        })
    );
}

#[test]
fn without_a_connection_nothing_is_sent() {
    let driver = PostgresDriver::new();
    assert_eq!(driver.known_wallet_deposit_amount("a"), Plan::Settled(Ok(None)));
    assert_eq!(driver.unknown_wallet_deposit_amount(), Plan::Settled(Ok(None)));
    assert_eq!(driver.unknown_wallet_transaction_count(), Plan::Settled(Ok(None)));
    assert_eq!(driver.get_smallest_confirmed_amount(), Plan::Settled(Ok(None)));
    assert_eq!(driver.get_max_confirmed_amount(), Plan::Settled(Ok(None)));
    assert_eq!(
        driver.known_wallet_transaction_count("a"),
        Plan::Settled(Err(Failure {
            kind: ErrorKind::Connection,
            message: String::from("No database client available"),
        }))
    );
    let customer = KnownCustomers { name: String::from("A"), address: String::from("a") };
    assert_eq!(driver.insert_known_client(&customer), Plan::Settled(Ok(())));
    assert_eq!(
        driver.insert_transaction(&transaction(1.0), None, None),
        Plan::Settled(Ok(()))
    );
}

#[test]
fn insert_known_client_sends_name_then_address() {
    let driver = connected();
    let customer = KnownCustomers { name: String::from("Alice"), address: String::from("1A2b3C") };
    assert_eq!(
        driver.insert_known_client(&customer),
        Plan::Send(Call {
            statement: String::from("CALL insert_known_client($1, $2)"),
            params: vec![
                Param::Text(String::from("Alice")),
                Param::Text(String::from("1A2b3C")),
            ],
        })
    );
}

#[test]
fn insert_transaction_sends_sixteen_parameters_in_the_order_of_the_store() {
    let driver = connected();
    let record = transaction(0.0015);
    let decimal = DecimalAmount { mantissa: 15, scale: 4 };
    assert_eq!(
        driver.insert_transaction(&record, Some(decimal), Some(record.amount)),
        Plan::Send(Call {
            statement: String::from(
                "CALL insert_transaction($1, $2, $3, $4, $5, $6, $7, $8, $9, $10, $11, $12, $13, $14, $15, $16)"
            ),
            params: vec![
                Param::Bool(true),
                Param::Text(String::from("acct")),
                Param::Text(String::from("1A2b3C")),
                Param::Text(String::from("receive")),
                Param::Text(String::from("lbl")),
                Param::Text(String::from("00ab")),
                Param::Text(String::from("tx-1")),
                Param::Text(String::from("no")),
                Param::Numeric(DecimalAmount { mantissa: 15, scale: 4 }),
                Param::Int4(6),
                Param::Int4(2),
                Param::Int4(4),
                Param::Int8(1_600_000_000),
                Param::Int8(1_600_000_001),
                Param::Int8(1_600_000_002),
                Param::TextArray(vec![String::from("tx-0"), String::from("tx-9")]),
            ],
        })
    );
}

#[test]
fn insert_transaction_refuses_an_amount_without_a_decimal() {
    let driver = connected();
    assert_eq!(
        driver.insert_transaction(&transaction(f64::NAN), None, None),
        Plan::Settled(Err(invalid()))
    );
}

#[test]
fn insert_transaction_refuses_a_decimal_that_does_not_read_back() {
    let driver = connected();
    let record = transaction(0.0015);
    let decimal = DecimalAmount { mantissa: 15, scale: 4 };
    let other = Amount { bits: 0.0016_f64.to_bits() };
    assert_eq!(
        driver.insert_transaction(&record, Some(decimal), Some(other)),
        Plan::Settled(Err(invalid()))
    );
    assert_eq!(
        driver.insert_transaction(&record, Some(decimal), None),
        Plan::Settled(Err(invalid()))
    );
    assert_eq!(
        driver.insert_transaction(&record, None, Some(record.amount)),
        Plan::Settled(Err(invalid()))
    );
}

#[test]
fn amounts_of_up_to_eight_fractional_digits_keep_their_value() {
    let driver = connected();
    for (text, value) in [
        ("0.0015", 0.0015_f64),
        ("0.00150000", 0.00150000_f64),
        ("12.34567891", 12.34567891_f64),
        ("0.00000001", 0.00000001_f64),
        ("21000000", 21000000.0_f64),
        ("0", 0.0_f64),
    ] {
        let record = transaction(value);
        let (converted, read_back) = conversions(record.amount);
        let decimal = converted.expect("a decimal");
        let wanted: Decimal = text.parse().unwrap();
        assert_eq!(Decimal::from_i128_with_scale(decimal.mantissa, decimal.scale), wanted);
        assert_eq!(read_back, Some(record.amount));
        assert_eq!(exact_amount(record.amount, converted, read_back), Some(decimal));
        match driver.insert_transaction(&record, converted, read_back) {
            Plan::Send(call) => {
                assert_eq!(call.params.len(), 16);
                assert_eq!(call.params[8], Param::Numeric(decimal));
            },
            other => panic!("nothing was sent: {:?}", other),
        }
    }
}

#[test]
fn amounts_beyond_the_decimal_range_are_refused() {
    let driver = connected();
    for value in [f64::NAN, f64::INFINITY, f64::NEG_INFINITY, 1.0e40_f64, f64::MAX] {
        let record = transaction(value);
        let (converted, read_back) = conversions(record.amount);
        assert_eq!(converted, None);
        assert_eq!(read_back, None);
        assert_eq!(
            driver.insert_transaction(&record, converted, read_back),
            Plan::Settled(Err(invalid()))
        );
    }
}

#[test]
fn amounts_that_need_more_precision_are_refused() {
    let driver = connected();
    for value in [0.1_f64 + 0.2_f64, 0.12345678901234567_f64, 1.0e-30_f64] {
        let record = transaction(value);
        let (converted, read_back) = conversions(record.amount);
        assert!(converted.is_some());
        assert_ne!(read_back, Some(record.amount));
        assert_eq!(exact_amount(record.amount, converted, read_back), None);
        assert_eq!(
            driver.insert_transaction(&record, converted, read_back),
            Plan::Settled(Err(invalid()))
        );
    }
}

#[test]
fn an_exact_amount_is_one_that_reads_back() {
    let amount = Amount { bits: 2.5_f64.to_bits() };
    let other = Amount { bits: 2.25_f64.to_bits() };
    let decimal = DecimalAmount { mantissa: 25, scale: 1 };
    assert_eq!(exact_amount(amount, Some(decimal), Some(amount)), Some(decimal));
    assert_eq!(exact_amount(amount, Some(decimal), Some(other)), None);
    assert_eq!(exact_amount(amount, Some(decimal), None), None);
    assert_eq!(exact_amount(amount, None, Some(amount)), None);
    assert_eq!(exact_amount(amount, None, None), None);
}

#[test]
fn an_empty_cell_is_no_amount_and_no_failure() {
    let amount = Amount { bits: 0.0_f64.to_bits() };
    assert_eq!(owed_amount(None), Ok(None));
    assert_eq!(owed_amount(Some(Some(amount))), Ok(Some(amount)));
    assert_eq!(
        owed_amount(Some(None)),
        Err(Failure {
            kind: ErrorKind::AmountConversion,
            message: String::from("Failed to convert Decimal to f64"),
        })
    );
}

#[test]
fn an_operation_without_a_client_has_its_failure() {
    assert_eq!(
        missing_client(),
        Failure {
            kind: ErrorKind::Connection,
            message: String::from("No database client available"),
        }
    );
}

#[test]
fn decimal_amounts_are_bounded() {
    assert_eq!(DecimalAmount::new(15, 4), Some(DecimalAmount { mantissa: 15, scale: 4 }));
    assert_eq!(DecimalAmount::new(-15, 28), Some(DecimalAmount { mantissa: -15, scale: 28 }));
    assert_eq!(DecimalAmount::new(15, 29), None);
    let limit: i128 = 1 << 96;
    assert_eq!(DecimalAmount::new(limit, 0), None);
    assert_eq!(DecimalAmount::new(-limit, 0), None);
    assert!(DecimalAmount::new(limit - 1, 0).is_some());
    assert!(DecimalAmount::new(1 - limit, 0).is_some());
}

#[test]
fn a_count_is_always_owed() {
    assert_eq!(deposits::database::owed_count(Some(0)), Ok(0));
    assert_eq!(deposits::database::owed_count(Some(17)), Ok(17));
    assert_eq!(
        deposits::database::owed_count(None),
        Err(Failure {
            kind: ErrorKind::MissingResult,
            message: String::from("No Transactions Found"),
        })
    );
}

#[test]
fn an_amount_that_the_conversion_distorts_is_refused_and_not_stored_distorted() {
    let driver = connected();
    let record = transaction(4261.75981757_f64);
    let (converted, read_back) = conversions(record.amount);
    let decimal = converted.expect("a decimal");
    let wanted: Decimal = "4261.75981757".parse().unwrap();
    assert_ne!(Decimal::from_i128_with_scale(decimal.mantissa, decimal.scale), wanted);
    assert_ne!(read_back, Some(record.amount));
    assert_eq!(
        driver.insert_transaction(&record, converted, read_back),
        Plan::Settled(Err(invalid()))
    );
}
