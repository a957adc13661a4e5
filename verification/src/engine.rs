//! The execution engine: the cheap check of what the caller declares, the legs in order
//! through their venues, the check of what was measured, and the commit.

use vstd::prelude::*;
use crate::model::{
    ArbitrageExecuted, BalanceView, DexType, ExecuteArbitrageSwap, SwapAgent, SwapData,
    SwapError, SwapInstruction, TokenAccount, MAX_SWAP_PATH_LEN,
};

verus! {

/// The venues a path can be routed through, one entry per venue.
///
/// A leg changes the trader's balances through `balances` and answers `Ok`, or fails
/// with the venue's own code. Each entry is only ever handed legs of its own venue.
///
/// Two things are taken on faith of every implementation, and everything the engine
/// proves about a run of legs rests on them:
/// - what an entry answers, the balances it leaves and the state it moves to are fixed
///   by its state and its arguments, and are what the implementation's own
///   `leg_outcome` gives for them; an implementation whose answer hangs on anything
///   else carries that in its state;
/// - an entry that fails leaves the balances exactly as it found them.
pub trait SwapVenues: Sized {
    /// The answer to one leg: the outcome, the balances afterwards, and the venues
    /// afterwards.
    spec fn leg_outcome(
        &self,
        balances: BalanceView,
        swap_instruction: SwapInstruction,
        swap_agent: SwapAgent,
        step: usize,
    ) -> (Result<(), u32>, BalanceView, Self);

    fn execute_jupiter_swap(
        &mut self,
        balances: &mut BalanceView,
        swap_instruction: &SwapInstruction,
        swap_agent: &SwapAgent,
        step: usize,
    ) -> (outcome: Result<(), u32>)
        requires
            swap_instruction.dex_type == DexType::Jupiter,
        ensures
            (outcome, *final(balances), *final(self)) == old(self).leg_outcome(
                *old(balances),
                *swap_instruction,
                *swap_agent,
                step,
            ),
            outcome is Err ==> *final(balances) == *old(balances),
    ;

    fn execute_raydium_swap(
        &mut self,
        balances: &mut BalanceView,
        swap_instruction: &SwapInstruction,
        swap_agent: &SwapAgent,
        step: usize,
    ) -> (outcome: Result<(), u32>)
        requires
            swap_instruction.dex_type == DexType::Raydium,
        ensures
            (outcome, *final(balances), *final(self)) == old(self).leg_outcome(
                *old(balances),
                *swap_instruction,
                *swap_agent,
                step,
            ),
            outcome is Err ==> *final(balances) == *old(balances),
    ;

    fn execute_phoenix_swap(
        &mut self,
        balances: &mut BalanceView,
        swap_instruction: &SwapInstruction,
        swap_agent: &SwapAgent,
        step: usize,
    ) -> (outcome: Result<(), u32>)
        requires
            swap_instruction.dex_type == DexType::Phoenix,
        ensures
            (outcome, *final(balances), *final(self)) == old(self).leg_outcome(
                *old(balances),
                *swap_instruction,
                *swap_agent,
                step,
            ),
            outcome is Err ==> *final(balances) == *old(balances),
    ;

    fn execute_meteora_swap(
        &mut self,
        balances: &mut BalanceView,
        swap_instruction: &SwapInstruction,
        swap_agent: &SwapAgent,
        step: usize,
    ) -> (outcome: Result<(), u32>)
        requires
            swap_instruction.dex_type == DexType::Meteora,
        ensures
            (outcome, *final(balances), *final(self)) == old(self).leg_outcome(
                *old(balances),
                *swap_instruction,
                *swap_agent,
                step,
            ),
            outcome is Err ==> *final(balances) == *old(balances),
    ;
}

/// Realized gain on the primary asset: the rise of its balance, floored at zero.
pub open spec fn spec_realized_profit(initial_balance: u64, final_balance: u64) -> u64 {
    if final_balance >= initial_balance {
        (final_balance - initial_balance) as u64
    } else {
        0u64
    }
}

/// Computes the realized gain between two readings of the primary balance.
pub fn realized_profit(initial_balance: u64, final_balance: u64) -> (profit: u64)
    ensures
        profit == spec_realized_profit(initial_balance, final_balance),
{
    final_balance.saturating_sub(initial_balance)
}

/// The answer of the check made before any venue is touched. The declared profit is
/// looked at first, then the slippage, then the length of the path.
pub open spec fn spec_check_swap_parameters(agent: SwapAgent, swap_data: SwapData) -> Result<
    (),
    SwapError,
> {
    if swap_data.expected_profit < agent.min_profit_threshold {
        Err(SwapError::InsufficientProfit)
    } else if swap_data.slippage_bps > agent.max_slippage_bps {
        Err(SwapError::ExcessiveSlippage)
    } else if swap_data.swap_instructions@.len() == 0 || swap_data.swap_instructions@.len()
        > MAX_SWAP_PATH_LEN {
        Err(SwapError::SwapPathTooLong)
    } else {
        Ok(())
    }
}

/// Checks what the caller declares against the record's policy.
pub fn check_swap_parameters(agent: &SwapAgent, swap_data: &SwapData) -> (result: Result<
    (),
    SwapError,
>)
    ensures
        result == spec_check_swap_parameters(*agent, *swap_data),
{
    if swap_data.expected_profit < agent.min_profit_threshold {
        Err(SwapError::InsufficientProfit)
    } else if swap_data.slippage_bps > agent.max_slippage_bps {
        Err(SwapError::ExcessiveSlippage)
    } else if swap_data.swap_instructions.len() == 0 || swap_data.swap_instructions.len()
        > MAX_SWAP_PATH_LEN {
        Err(SwapError::SwapPathTooLong)
    } else {
        Ok(())
    }
}

/// The engine's reading of a venue's answer for a leg: a failure carries the leg's venue
/// and the venue's code.
pub open spec fn spec_leg_result(swap_instruction: SwapInstruction, outcome: Result<(), u32>)
    -> Result<(), SwapError> {
    match outcome {
        Ok(_) => Ok(()),
        Err(cause) => Err(SwapError::VenueFailure { venue: swap_instruction.dex_type, cause }),
    }
}

/// Turns a venue's answer for a leg into the engine's.
pub fn leg_result(swap_instruction: &SwapInstruction, outcome: Result<(), u32>) -> (result: Result<
    (),
    SwapError,
>)
    ensures
        result == spec_leg_result(*swap_instruction, outcome),
{
    match outcome {
        Ok(()) => Ok(()),
        Err(cause) => Err(SwapError::VenueFailure { venue: swap_instruction.dex_type, cause }),
    }
}

/// Hands one leg to the entry of its venue. The balances and the venues afterwards are
/// the ones the entry answered with; the result is the entry's outcome, a failure
/// turned into `VenueFailure` with the leg's venue and the entry's code. A failed leg
/// leaves the balances as they were.
pub fn dispatch_leg<V: SwapVenues>(
    venues: &mut V,
    balances: &mut BalanceView,
    swap_instruction: &SwapInstruction,
    swap_agent: &SwapAgent,
    step: usize,
) -> (result: Result<(), SwapError>)
    ensures
        result == spec_leg_result(
            *swap_instruction,
            old(venues).leg_outcome(*old(balances), *swap_instruction, *swap_agent, step).0,
        ),
        *final(balances) == old(venues).leg_outcome(
            *old(balances),
            *swap_instruction,
            *swap_agent,
            step,
        ).1,
        *final(venues) == old(venues).leg_outcome(
            *old(balances),
            *swap_instruction,
            *swap_agent,
            step,
        ).2,
        result is Err ==> *final(balances) == *old(balances),
{
    let outcome = match swap_instruction.dex_type {
        DexType::Jupiter => venues.execute_jupiter_swap(
            balances,
            swap_instruction,
            swap_agent,
            step,
        ),
        DexType::Raydium => venues.execute_raydium_swap(
            balances,
            swap_instruction,
            swap_agent,
            step,
        ),
        DexType::Phoenix => venues.execute_phoenix_swap(
            balances,
            swap_instruction,
            swap_agent,
            step,
        ),
        DexType::Meteora => venues.execute_meteora_swap(
            balances,
            swap_instruction,
            swap_agent,
            step,
        ),
    };
    leg_result(swap_instruction, outcome)
}

/// Lists the venues of a path in the order of its legs.
pub fn dex_path(swap_data: &SwapData) -> (path: Vec<DexType>)
    ensures
        path@ == swap_data.path(),
{
    let mut path: Vec<DexType> = Vec::new();
    let n: usize = swap_data.swap_instructions.len();
    let mut i: usize = 0;
    while i < n
        invariant
            n == swap_data.swap_instructions@.len(),
            i <= n,
            path@.len() == i,
            forall|j: int| 0 <= j < i ==> path@[j] == swap_data.swap_instructions@[j].dex_type,
        decreases n - i,
    {
        path.push(swap_data.swap_instructions[i].dex_type);
        i = i + 1;
    }
    assert(path@ =~= swap_data.path());
    path
}

impl ExecuteArbitrageSwap {
    /// The trader's two balances as the accounts hold them.
    pub open spec fn balances(&self) -> BalanceView {
        BalanceView {
            token_a: self.user_token_account_a.amount,
            token_b: self.user_token_account_b.amount,
        }
    }

    /// The accounts after a trade is committed with the balances the venues left: the
    /// balances are taken over and the record counts the trade and its realized profit.
    pub open spec fn committed(&self, balances: BalanceView) -> ExecuteArbitrageSwap {
        ExecuteArbitrageSwap {
            swap_agent: self.swap_agent.with_trade(
                spec_realized_profit(self.user_token_account_a.amount, balances.token_a),
            ),
            user_token_account_a: TokenAccount {
                amount: balances.token_a,
                ..self.user_token_account_a
            },
            user_token_account_b: TokenAccount {
                amount: balances.token_b,
                ..self.user_token_account_b
            },
            ..*self
        }
    }
}

/// The second check and the commit. `balances` is what the venues left after the last
/// leg; `ctx` still holds the balances from before the first. Where the measured profit
/// falls short of the declared one nothing is changed; otherwise the balances are taken
/// over, the record counts the trade, and the event is made.
pub fn settle_arbitrage_swap(
    ctx: &mut ExecuteArbitrageSwap,
    swap_data: &SwapData,
    balances: BalanceView,
) -> (result: Result<ArbitrageExecuted, SwapError>)
    ensures
        spec_realized_profit(old(ctx).user_token_account_a.amount, balances.token_a)
            < swap_data.expected_profit ==> {
            &&& result == Err::<ArbitrageExecuted, SwapError>(SwapError::ProfitTargetNotMet)
            &&& *final(ctx) == *old(ctx)
        },
        spec_realized_profit(old(ctx).user_token_account_a.amount, balances.token_a)
            >= swap_data.expected_profit ==> {
            &&& result matches Ok(event)
            &&& event.user == old(ctx).user
            &&& event.profit == spec_realized_profit(
                old(ctx).user_token_account_a.amount,
                balances.token_a,
            )
            &&& event.dex_path@ == swap_data.path()
            &&& event.trade_id == final(ctx).swap_agent.total_trades
            &&& *final(ctx) == old(ctx).committed(balances)
        },
{
    let actual_profit: u64 = realized_profit(ctx.user_token_account_a.amount, balances.token_a);
    if actual_profit < swap_data.expected_profit {
        return Err(SwapError::ProfitTargetNotMet);
    }
    ctx.swap_agent.total_trades = ctx.swap_agent.total_trades.saturating_add(1);
    ctx.swap_agent.total_profit = ctx.swap_agent.total_profit.saturating_add(actual_profit);
    ctx.user_token_account_a.amount = balances.token_a;
    ctx.user_token_account_b.amount = balances.token_b;
    Ok(
        ArbitrageExecuted {
            user: ctx.user,
            profit: actual_profit,
            dex_path: dex_path(swap_data),
            trade_id: ctx.swap_agent.total_trades,
        },
    )
}

/// What a run of the legs from index `from` on comes to, starting from the given
/// balances and venues: each leg in order goes to its venue at its own step with the
/// balances the leg before it left, and the first leg that fails ends the run with its
/// venue and code. The balances and venues are those after the last leg that was run.
pub open spec fn spec_run_legs<V: SwapVenues>(
    venues: V,
    balances: BalanceView,
    legs: Seq<SwapInstruction>,
    swap_agent: SwapAgent,
    from: int,
) -> (Result<(), SwapError>, BalanceView, V)
    decreases legs.len() - from,
{
    if from < 0 || from >= legs.len() {
        (Ok(()), balances, venues)
    } else {
        let answer = venues.leg_outcome(balances, legs[from], swap_agent, from as usize);
        match spec_leg_result(legs[from], answer.0) {
            Err(e) => (Err(e), answer.1, answer.2),
            Ok(_) => spec_run_legs(answer.2, answer.1, legs, swap_agent, from + 1),
        }
    }
}

/// The first failed leg decides a run. Where the legs before leg `k` all go through,
/// and leg `k`, handed the balances and venues they left, fails with `cause`, the whole
/// run ends with `VenueFailure` of leg `k`'s venue and that cause, however many legs
/// would have followed.
pub proof fn lemma_first_failed_leg_ends_run<V: SwapVenues>(
    venues: V,
    balances: BalanceView,
    legs: Seq<SwapInstruction>,
    swap_agent: SwapAgent,
    from: int,
    k: int,
    cause: u32,
)
    requires
        0 <= from <= k < legs.len(),
        spec_run_legs(venues, balances, legs.take(k), swap_agent, from).0 is Ok,
        ({
            let before = spec_run_legs(venues, balances, legs.take(k), swap_agent, from);
            before.2.leg_outcome(before.1, legs[k], swap_agent, k as usize).0 == Err::<(), u32>(
                cause,
            )
        }),
    ensures
        spec_run_legs(venues, balances, legs, swap_agent, from).0 == Err::<(), SwapError>(
            SwapError::VenueFailure { venue: legs[k].dex_type, cause },
        ),
    decreases k - from,
{
    if from < k {
        assert(legs.take(k)[from] == legs[from]);
        let answer = venues.leg_outcome(balances, legs[from], swap_agent, from as usize);
        lemma_first_failed_leg_ends_run(answer.2, answer.1, legs, swap_agent, from + 1, k, cause);
    }
}

/// Runs a whole request: checks what is declared, routes every leg in order through
/// its venue, checks what was measured, and commits.
///
/// A request that fails the first check is turned down with its error before any venue
/// is touched. Otherwise the legs are run as `spec_run_legs` says: a failed leg ends
/// the request with that leg's `VenueFailure`; when all legs went through, the request
/// commits exactly when the profit measured on the primary balance reaches the declared
/// one, and fails with `ProfitTargetNotMet` when it does not. Whatever fails, the
/// accounts are left exactly as they were. A success has realized at least the declared
/// profit, which is at least the record's threshold; the record counts one more trade
/// and that profit, and the event carries the trader, the profit, the path and the new
/// count.
pub fn execute_arbitrage_swap<V: SwapVenues>(
    ctx: &mut ExecuteArbitrageSwap,
    swap_data: &SwapData,
    venues: &mut V,
) -> (result: Result<ArbitrageExecuted, SwapError>)
    ensures
        spec_check_swap_parameters(old(ctx).swap_agent, *swap_data) matches Err(e) ==> {
            &&& result == Err::<ArbitrageExecuted, SwapError>(e)
            &&& *final(venues) == *old(venues)
        },
        spec_check_swap_parameters(old(ctx).swap_agent, *swap_data) is Ok ==> ({
            let run = spec_run_legs(
                *old(venues),
                old(ctx).balances(),
                swap_data.swap_instructions@,
                old(ctx).swap_agent,
                0,
            );
            let profit = spec_realized_profit(
                old(ctx).user_token_account_a.amount,
                run.1.token_a,
            );
            &&& *final(venues) == run.2
            &&& (run.0 matches Err(e) ==> result == Err::<ArbitrageExecuted, SwapError>(e))
            &&& (run.0 is Ok && profit < swap_data.expected_profit ==> result == Err::<
                ArbitrageExecuted,
                SwapError,
            >(SwapError::ProfitTargetNotMet))
            &&& (run.0 is Ok && profit >= swap_data.expected_profit ==> {
                &&& result matches Ok(event)
                &&& event.user == old(ctx).user
                &&& event.profit == profit
                &&& event.dex_path@ == swap_data.path()
                &&& event.trade_id == final(ctx).swap_agent.total_trades
                &&& *final(ctx) == old(ctx).committed(run.1)
            })
        }),
        result is Err ==> *final(ctx) == *old(ctx),
        final(ctx).swap_agent == (match result {
            Ok(event) => old(ctx).swap_agent.with_trade(event.profit),
            Err(_) => old(ctx).swap_agent,
        }),
        result matches Ok(event) ==> {
            &&& event.profit >= swap_data.expected_profit
            &&& swap_data.expected_profit >= old(ctx).swap_agent.min_profit_threshold
        },
{
    match check_swap_parameters(&ctx.swap_agent, swap_data) {
        Err(e) => {
            return Err(e);
        },
        Ok(()) => {},
    }
    let swap_agent: SwapAgent = ctx.swap_agent;
    let mut balances = BalanceView {
        token_a: ctx.user_token_account_a.amount,
        token_b: ctx.user_token_account_b.amount,
    };
    let n: usize = swap_data.swap_instructions.len();
    let mut i: usize = 0;
    while i < n
        invariant
            n == swap_data.swap_instructions@.len(),
            i <= n,
            *ctx == *old(ctx),
            swap_agent == old(ctx).swap_agent,
            spec_check_swap_parameters(old(ctx).swap_agent, *swap_data) is Ok,
            spec_run_legs(
                *old(venues),
                old(ctx).balances(),
                swap_data.swap_instructions@,
                swap_agent,
                0,
            ) == spec_run_legs(
                *venues,
                balances,
                swap_data.swap_instructions@,
                swap_agent,
                i as int,
            ),
        decreases n - i,
    {
        let swap_instruction: SwapInstruction = swap_data.swap_instructions[i];
        match dispatch_leg(venues, &mut balances, &swap_instruction, &swap_agent, i) {
            Err(e) => {
                return Err(e);
            },
            Ok(()) => {},
        }
        i = i + 1;
    }
    settle_arbitrage_swap(ctx, swap_data, balances)
}

} // verus!
