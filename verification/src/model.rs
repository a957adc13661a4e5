//! The data the engine works on: identities, legs, requests, the per-authority record,
//! the emitted event and the error taxonomy.

use vstd::prelude::*;

verus! {

/// Largest number of legs a single swap path may hold.
pub const MAX_SWAP_PATH_LEN: usize = 8;

/// Upper end of the basis-point scale: 10000 bps are 100%.
pub const MAX_BPS: u16 = 10000;

/// A 32-byte identity: an owner, a signer, or an asset.
#[derive(Clone, Copy, Debug, PartialEq, Eq)]
pub struct Pubkey {
    pub bytes: [u8; 32],
}

impl View for Pubkey {
    type V = Seq<u8>;

    open spec fn view(&self) -> Seq<u8> {
        self.bytes@
    }
}

impl Pubkey {
    /// Wraps 32 raw bytes as an identity.
    pub fn new(bytes: [u8; 32]) -> (key: Pubkey)
        ensures
            key@ == bytes@,
            key.bytes == bytes,
    {
        Pubkey { bytes }
    }

    /// Tells whether two identities are the same, byte for byte.
    pub fn same_as(&self, other: &Pubkey) -> (same: bool)
        ensures
            same == (self@ == other@),
    {
        let mut i: usize = 0;
        while i < 32
            invariant
                i <= 32,
                forall|j: int| 0 <= j < i ==> self.bytes@[j] == other.bytes@[j],
            decreases 32 - i,
        {
            if self.bytes[i] != other.bytes[i] {
                return false;
            }
            i = i + 1;
        }
        assert(self@ =~= other@);
        true
    }
}

/// The exchange venue that carries out one leg.
#[derive(Clone, Copy, Debug, PartialEq, Eq, Structural)]
pub enum DexType {
    Jupiter,
    Raydium,
    Phoenix,
    Meteora,
}

/// One hop of a swap path, routed through a single venue.
#[derive(Clone, Copy, Debug, PartialEq, Eq)]
pub struct SwapInstruction {
    pub dex_type: DexType,
    pub amount_in: u64,
    pub minimum_amount_out: u64,
    pub token_mint_in: Pubkey,
    pub token_mint_out: Pubkey,
}

/// A caller's request: the profit it claims, the slippage it accepts, and the path.
#[derive(Clone, Debug, PartialEq, Eq)]
pub struct SwapData {
    pub expected_profit: u64,
    pub slippage_bps: u16,
    pub swap_instructions: Vec<SwapInstruction>,
}

impl SwapData {
    /// The venues of the path, in the order the legs run.
    pub open spec fn path(&self) -> Seq<DexType> {
        Seq::new(self.swap_instructions@.len(), |i: int| self.swap_instructions@[i].dex_type)
    }
}

/// The per-authority record: its policy and its cumulative statistics.
#[derive(Clone, Copy, Debug, PartialEq, Eq)]
pub struct SwapAgent {
    pub authority: Pubkey,
    pub min_profit_threshold: u64,
    pub max_slippage_bps: u16,
    pub total_trades: u64,
    pub total_profit: u64,
    pub bump: u8,
}

impl SwapAgent {
    /// A record is well formed when its slippage ceiling lies on the basis-point scale.
    pub open spec fn wf(&self) -> bool {
        self.max_slippage_bps <= MAX_BPS
    }

    /// The record after one committed trade that realized `profit`: one more trade
    /// counted and `profit` added to the total, both stopping at the numeric ceiling.
    pub open spec fn with_trade(&self, profit: u64) -> SwapAgent {
        SwapAgent {
            total_trades: if self.total_trades < u64::MAX {
                (self.total_trades + 1) as u64
            } else {
                u64::MAX
            },
            total_profit: if self.total_profit + profit <= u64::MAX {
                (self.total_profit + profit) as u64
            } else {
                u64::MAX
            },
            ..*self
        }
    }
}

/// A holding of one asset by one owner.
#[derive(Clone, Copy, Debug, PartialEq, Eq)]
pub struct TokenAccount {
    pub mint: Pubkey,
    pub owner: Pubkey,
    pub amount: u64,
}

/// The trader's two balances as the venues see and change them while a path runs.
#[derive(Clone, Copy, Debug, PartialEq, Eq)]
pub struct BalanceView {
    pub token_a: u64,
    pub token_b: u64,
}

/// The audit event of one committed trade.
#[derive(Clone, Debug, PartialEq, Eq)]
pub struct ArbitrageExecuted {
    pub user: Pubkey,
    pub profit: u64,
    pub dex_path: Vec<DexType>,
    pub trade_id: u64,
}

/// Everything that can make an operation fail.
#[derive(Clone, Copy, Debug, PartialEq, Eq, Structural)]
pub enum SwapError {
    /// The declared profit lies under the record's threshold.
    InsufficientProfit,
    /// The accepted slippage lies over the record's ceiling.
    ExcessiveSlippage,
    /// The measured profit lies under the declared one.
    ProfitTargetNotMet,
    /// A venue is not set up for the leg it was given.
    InvalidDexConfig,
    /// The path is empty or longer than `MAX_SWAP_PATH_LEN`.
    SwapPathTooLong,
    /// The caller is not the record's authority.
    Unauthorized,
    /// The balance transfer could not be carried out.
    TransferFailure,
    /// A venue failed a leg; `cause` is the venue's own code.
    VenueFailure { venue: DexType, cause: u32 },
}

/// The accounts of `initialize`: the authority creating its record.
#[derive(Clone, Copy, Debug, PartialEq, Eq)]
pub struct Initialize {
    pub authority: Pubkey,
    /// The value that proves the record's derived address.
    pub bump: u8,
}

/// The accounts of `execute_arbitrage_swap`.
#[derive(Clone, Copy, Debug, PartialEq, Eq)]
pub struct ExecuteArbitrageSwap {
    pub swap_agent: SwapAgent,
    pub user: Pubkey,
    /// The primary asset: profit is measured on this balance.
    pub user_token_account_a: TokenAccount,
    pub user_token_account_b: TokenAccount,
    pub token_mint_a: Pubkey,
    pub token_mint_b: Pubkey,
}

/// The accounts of `emergency_withdraw`.
#[derive(Clone, Copy, Debug, PartialEq, Eq)]
pub struct EmergencyWithdraw {
    pub swap_agent: SwapAgent,
    /// The caller, who must be the record's authority.
    pub authority: Pubkey,
    pub vault_token_account: TokenAccount,
    pub authority_token_account: TokenAccount,
}

} // verus!
