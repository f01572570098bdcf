//! What holds of all four workflows alike.

use vstd::prelude::*;
use crate::config::ConfigView;
use crate::errors::FailureView;
use crate::handlers::load::{LoadStateView, load_run};
use crate::handlers::known::{KnownDepositsStateView, known_deposits_run};
use crate::handlers::range::{RangeState, range_run};
use crate::handlers::unknown::{UnknownDepositsState, unknown_deposits_run};
use crate::protocol::{ReplyView, RequestView};

verus! {

/// An unreachable store ends every workflow on its own. Each of the four
/// begins by asking for a connection to the configured store; when that
/// fails, each ends at once with the failure of the connection, whatever
/// further replies stand ready, and has asked for nothing else.
pub proof fn law_unreachable_store_ends_every_workflow(
    config: ConfigView,
    failure: FailureView,
    later: Seq<ReplyView>,
)
    ensures
        load_run(
            config,
            LoadStateView::Start,
            None,
            seq![ReplyView::Done(Err(failure))] + later,
        ) == seq![
            RequestView::Connect(config.db_connection_string),
            RequestView::Finish(Err(failure)),
        ],
        known_deposits_run(
            config,
            KnownDepositsStateView::Start,
            None,
            seq![ReplyView::Done(Err(failure))] + later,
        ) == seq![
            RequestView::Connect(config.db_connection_string),
            RequestView::Finish(Err(failure)),
        ],
        unknown_deposits_run(
            config,
            UnknownDepositsState::Start,
            None,
            seq![ReplyView::Done(Err(failure))] + later,
        ) == seq![
            RequestView::Connect(config.db_connection_string),
            RequestView::Finish(Err(failure)),
        ],
        range_run(
            config,
            RangeState::Start,
            None,
            seq![ReplyView::Done(Err(failure))] + later,
        ) == seq![
            RequestView::Connect(config.db_connection_string),
            RequestView::Finish(Err(failure)),
        ],
{
    let script = seq![ReplyView::Done(Err(failure))] + later;
    let rest = script.drop_first();
    let wanted = seq![
        RequestView::Connect(config.db_connection_string),
        RequestView::Finish(Err(failure)),
    ];
    assert(script[0] == ReplyView::Done(Err(failure)));
    assert(load_run(config, LoadStateView::Connecting, Some(script[0]), rest) == seq![
        RequestView::Finish(Err(failure)),
    ]);
    assert(load_run(config, LoadStateView::Start, None, script) =~= wanted);
    assert(known_deposits_run(config, KnownDepositsStateView::Connecting, Some(script[0]), rest)
        == seq![RequestView::Finish(Err(failure))]);
    assert(known_deposits_run(config, KnownDepositsStateView::Start, None, script) =~= wanted);
    assert(unknown_deposits_run(config, UnknownDepositsState::Connecting, Some(script[0]), rest)
        == seq![RequestView::Finish(Err(failure))]);
    assert(unknown_deposits_run(config, UnknownDepositsState::Start, None, script) =~= wanted);
    assert(range_run(config, RangeState::Connecting, Some(script[0]), rest) == seq![
        RequestView::Finish(Err(failure)),
    ]);
    assert(range_run(config, RangeState::Start, None, script) =~= wanted);
}

} // verus!
