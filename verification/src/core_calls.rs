use vstd::prelude::*;

use crate::keys::{ListingSigner, Pubkey};

verus! {

/// Core answers "Plugin not found" with this custom error code.
pub const CORE_ERR_PLUGIN_NOT_FOUND: u32 = 0x4;

/// Core answers "Plugin already exists" with this custom error code.
pub const CORE_ERR_PLUGIN_ALREADY_EXISTS: u32 = 0xF;

/// The owner-managed plugins that the marketplace delegates while an asset is listed.
#[derive(Clone, Copy, Debug, PartialEq, Eq, Structural)]
pub enum PluginType {
    TransferDelegate,
    FreezeDelegate,
}

/// A delegate plugin as it is added to, or updated on, an asset.
#[derive(Clone, Copy, Debug, PartialEq, Eq)]
pub enum DelegatePlugin {
    TransferDelegate,
    FreezeDelegate { frozen: bool },
}

/// Who may manage a plugin. `NoAuthority` (Core's `None`) makes the plugin immutable.
#[derive(Clone, Copy, Debug, PartialEq, Eq)]
pub enum PluginAuthority {
    NoAuthority,
    Owner,
    UpdateAuthority,
    Address { address: Pubkey },
}

/// A key/value attribute written on the asset.
#[derive(Debug, PartialEq, Eq)]
pub struct Attribute {
    pub key: String,
    pub value: String,
}

/// A royalty creator of an asset.
#[derive(Clone, Copy, Debug, PartialEq, Eq)]
pub struct Creator {
    pub address: Pubkey,
    pub percentage: u8,
}

/// The royalty rules of an asset; the marketplace sets none (Core's `RuleSet::None`).
#[derive(Clone, Copy, Debug, PartialEq, Eq)]
pub enum RuleSet {
    NoRules,
}

/// A plugin created together with an asset.
#[derive(Debug, PartialEq, Eq)]
pub enum Plugin {
    Attributes { attribute_list: Vec<Attribute> },
    TransferDelegate,
    FreezeDelegate { frozen: bool },
    Royalties { basis_points: u16, creators: Vec<Creator>, rule_set: RuleSet },
}

/// A plugin with the authority that manages it (`None`: the owner, by Core's default).
#[derive(Debug, PartialEq, Eq)]
pub struct PluginAuthorityPair {
    pub plugin: Plugin,
    pub authority: Option<PluginAuthority>,
}

/// Where Core keeps an asset's data.
#[derive(Clone, Copy, Debug, PartialEq, Eq, Structural)]
pub enum DataState {
    AccountState,
    LedgerState,
}

/// Creation of an asset in Core, with its plugins: the asset, its collection,
/// the payer, the authority that signs, the owner, the update authority and
/// where its data is kept.
#[derive(Debug, PartialEq, Eq)]
pub struct CreateAsset {
    pub asset: Pubkey,
    pub collection: Option<Pubkey>,
    pub payer: Pubkey,
    pub authority: Pubkey,
    pub owner: Pubkey,
    pub update_authority: Option<Pubkey>,
    pub data_state: DataState,
    pub name: String,
    pub uri: String,
    pub plugins: Vec<PluginAuthorityPair>,
}

/// One call into another program that an instruction makes. The Core calls
/// name the asset's collection (the marketplace's assets have none).
#[derive(Clone, Copy, Debug, PartialEq, Eq)]
pub enum CpiCall {
    /// A system-program transfer of lamports.
    TransferSol { from: Pubkey, to: Pubkey, lamports: u64 },
    /// Core: give the authority over an asset's plugin to `new_authority`.
    ApprovePluginAuthority {
        asset: Pubkey,
        collection: Option<Pubkey>,
        payer: Pubkey,
        authority: Pubkey,
        plugin_type: PluginType,
        new_authority: PluginAuthority,
    },
    /// Core: add a plugin to an asset.
    AddPlugin {
        asset: Pubkey,
        collection: Option<Pubkey>,
        payer: Pubkey,
        authority: Pubkey,
        plugin: DelegatePlugin,
    },
    /// Core: update a plugin of an asset, signed by the listing account.
    UpdatePlugin {
        asset: Pubkey,
        collection: Option<Pubkey>,
        payer: Pubkey,
        authority: Pubkey,
        plugin: DelegatePlugin,
        signer: ListingSigner,
    },
    /// Core: give the authority over an asset's plugin back to its owner.
    RevokePluginAuthority {
        asset: Pubkey,
        collection: Option<Pubkey>,
        payer: Pubkey,
        authority: Pubkey,
        plugin_type: PluginType,
    },
    /// Core: transfer an asset to a new owner, signed by the listing account;
    /// `log_wrapper` is the optional no-op logging program, and
    /// `compression_proof` whether a proof of a compressed asset goes with it.
    TransferAsset {
        asset: Pubkey,
        collection: Option<Pubkey>,
        payer: Pubkey,
        authority: Pubkey,
        new_owner: Pubkey,
        log_wrapper: Option<Pubkey>,
        compression_proof: bool,
        signer: ListingSigner,
    },
}

/// How a call into another program ended.
#[derive(Clone, Copy, Debug, PartialEq, Eq, Structural)]
pub enum CallOutcome {
    Success,
    /// The program failed with this custom error code.
    Custom(u32),
    /// The program failed in any other way.
    Failed,
}

/// A system-program transfer of `lamports` from one account to another.
pub fn transfer_sol(from: &Pubkey, to: &Pubkey, lamports: u64) -> (c: CpiCall)
    ensures
        c == (CpiCall::TransferSol { from: *from, to: *to, lamports }),
{
    CpiCall::TransferSol { from: *from, to: *to, lamports }
}

/// Gives the authority over a plugin back to the asset's owner.
pub fn revoke_plugin_to_owner(
    asset: &Pubkey,
    payer: &Pubkey,
    owner_authority: &Pubkey,
    plugin_type: PluginType,
) -> (c: CpiCall)
    ensures
        c == (CpiCall::RevokePluginAuthority {
            asset: *asset,
            collection: None,
            payer: *payer,
            authority: *owner_authority,
            plugin_type,
        }),
{
    CpiCall::RevokePluginAuthority {
        asset: *asset,
        collection: None,
        payer: *payer,
        authority: *owner_authority,
        plugin_type,
    }
}

} // verus!
