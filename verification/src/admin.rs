//! Creation of the per-authority record, and the authority's emergency recovery of
//! funds, which stands apart from the trading path.

use vstd::prelude::*;
use crate::model::{EmergencyWithdraw, Initialize, SwapAgent, SwapError, TokenAccount, MAX_BPS};

verus! {

/// The fixed tag under which every record's address is derived.
pub open spec fn spec_seed_tag() -> Seq<u8> {
    seq![115u8, 119u8, 97u8, 112u8, 95u8, 97u8, 103u8, 101u8, 110u8, 116u8]
}

/// Creates the record of the authority in `ctx`: the policy as given, both counters at
/// zero, and the address proof of the accounts.
///
/// The slippage ceiling is a number of basis points, so it may not lie over `MAX_BPS`.
pub fn initialize(ctx: &Initialize, min_profit_threshold: u64, max_slippage_bps: u16) -> (record:
    SwapAgent)
    requires
        max_slippage_bps <= MAX_BPS,
    ensures
        record == (SwapAgent {
            authority: ctx.authority,
            min_profit_threshold,
            max_slippage_bps,
            total_trades: 0,
            total_profit: 0,
            bump: ctx.bump,
        }),
        record.wf(),
{
    SwapAgent {
        authority: ctx.authority,
        min_profit_threshold,
        max_slippage_bps,
        total_trades: 0,
        total_profit: 0,
        bump: ctx.bump,
    }
}

impl SwapAgent {
    /// The seeds with which the record signs for the funds it administers: the fixed
    /// tag, the authority's bytes, and the address proof.
    pub open spec fn spec_signer_seeds(&self) -> Seq<Seq<u8>> {
        seq![spec_seed_tag(), self.authority@, seq![self.bump]]
    }

    /// Builds the record's signer seeds.
    pub fn signer_seeds(&self) -> (seeds: Vec<Vec<u8>>)
        ensures
            seeds@.len() == 3,
            forall|i: int| 0 <= i < 3 ==> (#[trigger] seeds@[i])@ == self.spec_signer_seeds()[i],
    {
        let tag_bytes: [u8; 10] = [115, 119, 97, 112, 95, 97, 103, 101, 110, 116];
        let mut tag: Vec<u8> = Vec::new();
        let mut i: usize = 0;
        while i < 10
            invariant
                i <= 10,
                tag@.len() == i,
                tag_bytes@ =~= spec_seed_tag(),
                forall|j: int| 0 <= j < i ==> tag@[j] == tag_bytes@[j],
            decreases 10 - i,
        {
            tag.push(tag_bytes[i]);
            i = i + 1;
        }
        let mut authority: Vec<u8> = Vec::new();
        let mut k: usize = 0;
        while k < 32
            invariant
                k <= 32,
                authority@.len() == k,
                forall|j: int| 0 <= j < k ==> authority@[j] == self.authority.bytes@[j],
            decreases 32 - k,
        {
            authority.push(self.authority.bytes[k]);
            k = k + 1;
        }
        let mut proof_byte: Vec<u8> = Vec::new();
        proof_byte.push(self.bump);
        assert(tag@ =~= spec_seed_tag());
        assert(authority@ =~= self.authority@);
        assert(proof_byte@ =~= seq![self.bump]);
        let mut seeds: Vec<Vec<u8>> = Vec::new();
        seeds.push(tag);
        seeds.push(authority);
        seeds.push(proof_byte);
        seeds
    }
}

/// What the recovery answers: the caller must be the record's authority, the vault must
/// hold the amount, and the destination must have room for it.
pub open spec fn spec_emergency_withdraw(ctx: EmergencyWithdraw, amount: u64) -> Result<
    (),
    SwapError,
> {
    if ctx.authority@ != ctx.swap_agent.authority@ {
        Err(SwapError::Unauthorized)
    } else if ctx.vault_token_account.amount < amount || ctx.authority_token_account.amount
        + amount > u64::MAX {
        Err(SwapError::TransferFailure)
    } else {
        Ok(())
    }
}

/// Moves `amount` from the vault to the authority's own holding. Only the record's
/// authority may ask. A refusal changes nothing, and the record's statistics are
/// never touched.
pub fn emergency_withdraw(ctx: &mut EmergencyWithdraw, amount: u64) -> (result: Result<
    (),
    SwapError,
>)
    ensures
        result == spec_emergency_withdraw(*old(ctx), amount),
        old(ctx).authority@ != old(ctx).swap_agent.authority@ ==> result == Err::<(), SwapError>(
            SwapError::Unauthorized,
        ),
        result is Err ==> *final(ctx) == *old(ctx),
        result is Ok ==> *final(ctx) == (EmergencyWithdraw {
            vault_token_account: TokenAccount {
                amount: (old(ctx).vault_token_account.amount - amount) as u64,
                ..old(ctx).vault_token_account
            },
            authority_token_account: TokenAccount {
                amount: (old(ctx).authority_token_account.amount + amount) as u64,
                ..old(ctx).authority_token_account
            },
            ..*old(ctx)
        }),
        final(ctx).swap_agent == old(ctx).swap_agent,
{
    if !ctx.authority.same_as(&ctx.swap_agent.authority) {
        return Err(SwapError::Unauthorized);
    }
    if ctx.vault_token_account.amount < amount {
        return Err(SwapError::TransferFailure);
    }
    if ctx.authority_token_account.amount > u64::MAX - amount {
        return Err(SwapError::TransferFailure);
    }
    ctx.vault_token_account.amount = ctx.vault_token_account.amount - amount;
    ctx.authority_token_account.amount = ctx.authority_token_account.amount + amount;
    Ok(())
}

} // verus!
