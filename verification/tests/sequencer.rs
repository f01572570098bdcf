use deposits::errors::{ErrorKind, Failure};
use deposits::sequencer::{outcome_message, Workflow};

fn failed() -> Result<(), Failure> {
    Err(Failure { kind: ErrorKind::Connection, message: String::from("connection refused") })
}

#[test]
fn the_four_workflows_run_in_order() {
    let mut order = vec![Workflow::first()];
    while let Some(next) = order.last().unwrap().next(&Ok(())) {
        order.push(next);
    }
    assert_eq!(
        order,
        vec![
            Workflow::LoadData,
            Workflow::KnownCustomerDeposits,
            Workflow::UnknownCustomerDeposits,
            Workflow::CalculateRange,
        ]
    );
}

#[test]
fn a_failure_skips_no_workflow() {
    let mut order = vec![Workflow::first()];
    while let Some(next) = order.last().unwrap().next(&failed()) {
        order.push(next);
    }
    assert_eq!(order.len(), 4);
    assert_eq!(order[3], Workflow::CalculateRange);
    assert_eq!(Workflow::CalculateRange.next(&failed()), None);
}

#[test]
fn a_success_is_logged_with_the_time_it_took() {
    assert_eq!(
        outcome_message(Workflow::LoadData, &Ok(()), "1.5s"),
        "Load Data Execution Time: 1.5s"
    );
    assert_eq!(
        outcome_message(Workflow::KnownCustomerDeposits, &Ok(()), "20ms"),
        "Known Customer Deposits Execution Time: 20ms"
    );
    assert_eq!(
        outcome_message(Workflow::UnknownCustomerDeposits, &Ok(()), "3µs"),
        "Unknown Customer Deposits Execution Time: 3µs"
    );
    assert_eq!(
        outcome_message(Workflow::CalculateRange, &Ok(()), ""),
        "Calculate Range Execution Time: "
    );
}

#[test]
fn a_failure_is_logged_with_its_message() {
    assert_eq!(
        outcome_message(Workflow::LoadData, &failed(), "1s"),
        "Error load_data: connection refused"
    );
    assert_eq!(
        outcome_message(Workflow::KnownCustomerDeposits, &failed(), "1s"),
        "Error known_customer_deposits: connection refused"
    );
    assert_eq!(
        outcome_message(Workflow::UnknownCustomerDeposits, &failed(), "1s"),
        "Error unknown_customer_deposits: connection refused"
    );
    assert_eq!(
        outcome_message(Workflow::CalculateRange, &failed(), "1s"),
        "Error calculate_range: connection refused"
    );
}
