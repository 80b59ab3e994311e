use vstd::prelude::*;

use crate::keys::Pubkey;

verus! {

/// The fee, in lamports, that a buyer pays to the treasury on top of the price (0.0001 SOL).
pub const PLATFORM_FEE_LAMPORTS: u64 = 100_000;

/// The marketplace's configuration account.
#[derive(Clone, Copy, Debug, PartialEq, Eq)]
pub struct MarketplaceConfig {
    pub admin: Pubkey,
    pub treasury: Pubkey,
    pub platform_fee_lamports: u64,
    pub bump: u8,
}

impl MarketplaceConfig {
    /// Serialized size of the fields: two keys, a `u64` and a `u8`.
    pub const LEN: usize = 73;
}

/// A listing account: one per asset, at the address derived from the asset key.
#[derive(Clone, Copy, Debug, PartialEq, Eq)]
pub struct Listing {
    pub asset: Pubkey,
    pub seller: Pubkey,
    pub price_lamports: u64,
    pub active: bool,
    pub bump: u8,
}

impl Listing {
    /// Serialized size of the fields: two keys, a `u64`, a `bool` and a `u8`.
    pub const LEN: usize = 74;
}

/// A royalty creator as the minter gives it: an address and its percentage share.
#[derive(Clone, Copy, Debug, PartialEq, Eq)]
pub struct CreatorInput {
    pub address: Pubkey,
    pub percentage: u8,
}

/// The size in bytes of each field of a configuration account, in order.
pub open spec fn config_field_sizes() -> Seq<nat> {
    seq![32, 32, 8, 1]
}

/// The size in bytes of each field of a listing account, in order.
pub open spec fn listing_field_sizes() -> Seq<nat> {
    seq![32, 32, 8, 1, 1]
}

pub open spec fn sum_sizes(s: Seq<nat>) -> nat
    decreases s.len(),
{
    if s.len() == 0 {
        0
    } else {
        s.last() + sum_sizes(s.drop_last())
    }
}

/// The account sizes are the sums of their fields' sizes.
pub proof fn lemma_account_lengths()
    ensures
        MarketplaceConfig::LEN == sum_sizes(config_field_sizes()),
        Listing::LEN == sum_sizes(listing_field_sizes()),
{
    reveal_with_fuel(sum_sizes, 6);
}

} // verus!
