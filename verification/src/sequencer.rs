//! The order in which the workflows run, and what is logged when one ends.

use vstd::prelude::*;
use vstd::string::*;
use crate::errors::{Failure, FailureView};

verus! {

/// The four workflows.
#[derive(Debug, Clone, Copy, PartialEq, Eq, Structural)]
pub enum Workflow {
    LoadData,
    KnownCustomerDeposits,
    UnknownCustomerDeposits,
    CalculateRange,
}

/// The workflows in the order in which they run.
pub open spec fn schedule() -> Seq<Workflow> {
    seq![
        Workflow::LoadData,
        Workflow::KnownCustomerDeposits,
        Workflow::UnknownCustomerDeposits,
        Workflow::CalculateRange,
    ]
}

impl Workflow {
    /// The place of the workflow in the schedule.
    pub open spec fn position(self) -> int {
        match self {
            Workflow::LoadData => 0,
            Workflow::KnownCustomerDeposits => 1,
            Workflow::UnknownCustomerDeposits => 2,
            Workflow::CalculateRange => 3,
        }
    }

    /// The workflow that runs after this one, if any.
    pub open spec fn successor(self) -> Option<Workflow> {
        if self.position() + 1 < schedule().len() {
            Some(schedule()[self.position() + 1])
        } else {
            None
        }
    }

    /// The name under which the workflow's duration is logged.
    pub open spec fn spec_title(self) -> Seq<char> {
        match self {
            Workflow::LoadData => "Load Data"@,
            Workflow::KnownCustomerDeposits => "Known Customer Deposits"@,
            Workflow::UnknownCustomerDeposits => "Unknown Customer Deposits"@,
            Workflow::CalculateRange => "Calculate Range"@,
        }
    }

    /// The name under which the workflow's failure is logged.
    pub open spec fn spec_name(self) -> Seq<char> {
        match self {
            Workflow::LoadData => "load_data"@,
            Workflow::KnownCustomerDeposits => "known_customer_deposits"@,
            Workflow::UnknownCustomerDeposits => "unknown_customer_deposits"@,
            Workflow::CalculateRange => "calculate_range"@,
        }
    }

    /// The workflow that runs first.
    pub fn first() -> (workflow: Workflow)
        ensures
            workflow == schedule()[0],
    {
        Workflow::LoadData
    }

    /// The workflow that runs after this one has ended with `outcome`, if
    /// any. The outcome has no say in it: a failure skips nothing.
    pub fn next(self, outcome: &Result<(), Failure>) -> (following: Option<Workflow>)
        ensures
            following == self.successor(),
    {
        match self {
            Workflow::LoadData => Some(Workflow::KnownCustomerDeposits),
            Workflow::KnownCustomerDeposits => Some(Workflow::UnknownCustomerDeposits),
            Workflow::UnknownCustomerDeposits => Some(Workflow::CalculateRange),
            Workflow::CalculateRange => None,
        }
    }

    /// The name under which the workflow's duration is logged.
    pub fn title(self) -> (title: &'static str)
        ensures
            title@ == self.spec_title(),
    {
        match self {
            Workflow::LoadData => "Load Data",
            Workflow::KnownCustomerDeposits => "Known Customer Deposits",
            Workflow::UnknownCustomerDeposits => "Unknown Customer Deposits",
            Workflow::CalculateRange => "Calculate Range",
        }
    }

    /// The name under which the workflow's failure is logged.
    pub fn name(self) -> (name: &'static str)
        ensures
            name@ == self.spec_name(),
    {
        match self {
            Workflow::LoadData => "load_data",
            Workflow::KnownCustomerDeposits => "known_customer_deposits",
            Workflow::UnknownCustomerDeposits => "unknown_customer_deposits",
            Workflow::CalculateRange => "calculate_range",
        }
    }
}

/// What is logged when a workflow ends: after a success its title and the
/// time it took, after a failure its name and the failure's message.
pub open spec fn outcome_text(
    workflow: Workflow,
    outcome: Result<(), FailureView>,
    elapsed: Seq<char>,
) -> Seq<char> {
    match outcome {
        Ok(()) => workflow.spec_title() + " Execution Time: "@ + elapsed,
        Err(failure) => "Error "@ + workflow.spec_name() + ": "@ + failure.message,
    }
}

/// The message to log when `workflow` has ended with `outcome`. `elapsed` is
/// the text that shows how long it ran.
pub fn outcome_message(workflow: Workflow, outcome: &Result<(), Failure>, elapsed: &str) -> (message:
    String)
    ensures
        message@ == outcome_text(
            workflow,
            match outcome {
                Ok(()) => Ok(()),
                Err(failure) => Err(failure@),
            },
            elapsed@,
        ),
{
    match outcome {
        Ok(()) => {
            let mut message = String::from_str(workflow.title());
            message.append(" Execution Time: ");
            message.append(elapsed);
            message
        },
        Err(failure) => {
            let mut message = String::from_str("Error ");
            message.append(workflow.name());
            message.append(": ");
            message.append(failure.message.as_str());
            message
        },
    }
}

/// The workflows that run, in order, from `workflow` on, when the workflows
/// end with `outcomes` in turn.
pub open spec fn runs_from(workflow: Workflow, outcomes: Seq<Result<(), FailureView>>) -> Seq<
    Workflow,
>
    decreases schedule().len() - workflow.position(),
{
    match workflow.successor() {
        Some(following) => seq![workflow] + runs_from(following, outcomes.drop_first()),
        None => seq![workflow],
    }
}

/// Every workflow runs, in the order of the schedule, whatever the outcomes
/// of those before it.
pub proof fn law_every_workflow_runs(outcomes: Seq<Result<(), FailureView>>)
    ensures
        runs_from(schedule()[0], outcomes) == schedule(),
{
    let second = outcomes.drop_first();
    let third = second.drop_first();
    let fourth = third.drop_first();
    assert(runs_from(Workflow::CalculateRange, fourth) == seq![Workflow::CalculateRange]);
    assert(runs_from(Workflow::UnknownCustomerDeposits, third) == seq![
        Workflow::UnknownCustomerDeposits,
    ] + runs_from(Workflow::CalculateRange, fourth));
    assert(runs_from(Workflow::KnownCustomerDeposits, second) == seq![
        Workflow::KnownCustomerDeposits,
    ] + runs_from(Workflow::UnknownCustomerDeposits, third));
    assert(runs_from(Workflow::LoadData, outcomes) == seq![Workflow::LoadData] + runs_from(
        Workflow::KnownCustomerDeposits,
        second,
    ));
    assert(runs_from(schedule()[0], outcomes) =~= schedule());
}

} // verus!
