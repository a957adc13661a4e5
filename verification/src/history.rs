//! What holds of a record over its whole life: how its statistics move under one
//! committed trade and under any sequence of calls.

use vstd::prelude::*;
use crate::model::SwapAgent;

verus! {

/// The record after a sequence of calls. Each entry is the outcome of one call as the
/// record sees it: `Some(profit)` for a trade committed with that realized profit,
/// `None` for a call that failed or that does not trade at all.
pub open spec fn spec_after_calls(agent: SwapAgent, outcomes: Seq<Option<u64>>) -> SwapAgent
    decreases outcomes.len(),
{
    if outcomes.len() == 0 {
        agent
    } else {
        let before = spec_after_calls(agent, outcomes.drop_last());
        match outcomes.last() {
            Some(profit) => before.with_trade(profit),
            None => before,
        }
    }
}

/// How many of the calls committed a trade.
pub open spec fn spec_committed_count(outcomes: Seq<Option<u64>>) -> nat
    decreases outcomes.len(),
{
    if outcomes.len() == 0 {
        0
    } else {
        spec_committed_count(outcomes.drop_last()) + if outcomes.last() is Some {
            1nat
        } else {
            0nat
        }
    }
}

/// A committed trade raises the trade counter by exactly one while the counter is under
/// the numeric ceiling, and leaves it at the ceiling once it is there.
pub proof fn lemma_trade_counts_once(agent: SwapAgent, profit: u64)
    ensures
        agent.total_trades < u64::MAX ==> agent.with_trade(profit).total_trades
            == agent.total_trades + 1,
        agent.total_trades == u64::MAX ==> agent.with_trade(profit).total_trades == u64::MAX,
{
}

/// A committed trade adds its profit to the total, stopping at the numeric ceiling; it
/// never lowers either statistic, and it changes neither the authority, nor the policy,
/// nor the address proof.
pub proof fn lemma_trade_keeps_record(agent: SwapAgent, profit: u64)
    ensures
        agent.total_profit + profit <= u64::MAX ==> agent.with_trade(profit).total_profit
            == agent.total_profit + profit,
        agent.with_trade(profit).total_profit >= agent.total_profit,
        agent.with_trade(profit).total_trades >= agent.total_trades,
        agent.with_trade(profit).authority == agent.authority,
        agent.with_trade(profit).min_profit_threshold == agent.min_profit_threshold,
        agent.with_trade(profit).max_slippage_bps == agent.max_slippage_bps,
        agent.with_trade(profit).bump == agent.bump,
        agent.wf() ==> agent.with_trade(profit).wf(),
{
}

/// Over any sequence of calls neither statistic ever decreases, and the authority, the
/// policy and the well-formedness of the record stay as they were.
pub proof fn lemma_statistics_never_decrease(agent: SwapAgent, outcomes: Seq<Option<u64>>)
    ensures
        spec_after_calls(agent, outcomes).total_profit >= agent.total_profit,
        spec_after_calls(agent, outcomes).total_trades >= agent.total_trades,
        spec_after_calls(agent, outcomes).authority == agent.authority,
        spec_after_calls(agent, outcomes).min_profit_threshold == agent.min_profit_threshold,
        spec_after_calls(agent, outcomes).max_slippage_bps == agent.max_slippage_bps,
        agent.wf() ==> spec_after_calls(agent, outcomes).wf(),
    decreases outcomes.len(),
{
    if outcomes.len() > 0 {
        lemma_statistics_never_decrease(agent, outcomes.drop_last());
    }
}

/// While the counter stays under the numeric ceiling, it has risen by exactly the number
/// of committed trades: one per success, none per failure.
pub proof fn lemma_trades_count_successes(agent: SwapAgent, outcomes: Seq<Option<u64>>)
    requires
        agent.total_trades + spec_committed_count(outcomes) <= u64::MAX,
    ensures
        spec_after_calls(agent, outcomes).total_trades == agent.total_trades
            + spec_committed_count(outcomes),
    decreases outcomes.len(),
{
    if outcomes.len() > 0 {
        lemma_trades_count_successes(agent, outcomes.drop_last());
    }
}

} // verus!
