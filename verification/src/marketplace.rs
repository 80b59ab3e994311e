use vstd::prelude::*;

use crate::core_calls::{
    Attribute, CpiCall, CreateAsset, Creator, DataState, DelegatePlugin, Plugin, PluginAuthority,
    PluginAuthorityPair, PluginType, RuleSet, revoke_plugin_to_owner, transfer_sol,
};
use crate::delegation::{list_delegation_start, list_start_step, ListStep};
use crate::error::MarketplaceError;
use crate::keys::{base58_of, key_to_string, keys_eq, ListingSigner, Pubkey};
use crate::state::{CreatorInput, Listing, MarketplaceConfig, PLATFORM_FEE_LAMPORTS};

verus! {

/// Longest asset name, in bytes.
pub const MAX_NAME_LEN: usize = 64;

/// Longest asset URI, in bytes.
pub const MAX_URI_LEN: usize = 200;

/// Longest asset type, in bytes.
pub const MAX_TYPE_LEN: usize = 32;

/// Royalties are given in basis points: at most 100%.
pub const MAX_ROYALTIES_BPS: u16 = 10_000;

/* ----------------------------- Accounts ----------------------------- */

/// The accounts of `initialize`: the signing admin, the treasury account, the
/// configuration account being created and the bump of its address.
#[derive(Clone, Copy, Debug, PartialEq, Eq)]
pub struct Initialize {
    pub admin: Pubkey,
    pub treasury: Pubkey,
    pub config: MarketplaceConfig,
    pub config_bump: u8,
}

/// The accounts of `mint_asset`: the signing minter, the payer and the new asset.
#[derive(Clone, Copy, Debug, PartialEq, Eq)]
pub struct MintAsset {
    pub minter: Pubkey,
    pub payer: Pubkey,
    pub asset: Pubkey,
}

/// The accounts of `list`: the signing seller, the configuration, the listing
/// account being created (its data, its address and the bump of its address)
/// and the asset.
#[derive(Clone, Copy, Debug, PartialEq, Eq)]
pub struct List {
    pub seller: Pubkey,
    pub config: MarketplaceConfig,
    pub listing: Listing,
    pub listing_key: Pubkey,
    pub listing_bump: u8,
    pub asset: Pubkey,
}

/// The accounts of `cancel`: the signing seller, the configuration, the listing
/// account (its data and its address) and the asset.
#[derive(Clone, Copy, Debug, PartialEq, Eq)]
pub struct Cancel {
    pub seller: Pubkey,
    pub config: MarketplaceConfig,
    pub listing: Listing,
    pub listing_key: Pubkey,
    pub asset: Pubkey,
}

/// The accounts of `buy`: the signing buyer, the configuration, the treasury,
/// the seller, the listing account (its data and its address) and the asset.
#[derive(Clone, Copy, Debug, PartialEq, Eq)]
pub struct Buy {
    pub buyer: Pubkey,
    pub config: MarketplaceConfig,
    pub treasury: Pubkey,
    pub seller: Pubkey,
    pub listing: Listing,
    pub listing_key: Pubkey,
    pub asset: Pubkey,
}

/* ----------------------------- initialize ----------------------------- */

/// Writes the configuration: the admin is the signer, the treasury the one given,
/// the fee the platform fee.
pub fn initialize(accounts: &mut Initialize, treasury: Pubkey) -> (r: Result<(), MarketplaceError>)
    ensures
        r is Ok,
        final(accounts).config == (MarketplaceConfig {
            admin: old(accounts).admin,
            treasury,
            platform_fee_lamports: PLATFORM_FEE_LAMPORTS,
            bump: old(accounts).config_bump,
        }),
        final(accounts).admin == old(accounts).admin,
        final(accounts).treasury == old(accounts).treasury,
        final(accounts).config_bump == old(accounts).config_bump,
{
    accounts.config = MarketplaceConfig {
        admin: accounts.admin,
        treasury,
        platform_fee_lamports: PLATFORM_FEE_LAMPORTS,
        bump: accounts.config_bump,
    };
    Ok(())
}

/* ----------------------------- mint_asset ----------------------------- */

/// The length of a text in bytes (UTF-8).
pub open spec fn utf8_len(s: Seq<char>) -> nat {
    vstd::utf8::encode_utf8(s).len()
}

/// The sum of the creators' percentages.
pub open spec fn percentage_total(creators: Seq<CreatorInput>) -> int
    decreases creators.len(),
{
    if creators.len() == 0 {
        0
    } else {
        percentage_total(creators.drop_last()) + creators.last().percentage
    }
}

pub open spec fn option_text(t: Option<String>) -> Option<Seq<char>> {
    match t {
        Some(s) => Some(s@),
        None => None,
    }
}

/// The error with which `mint_asset` refuses its arguments, checked in this order;
/// `None` where it accepts them.
pub open spec fn mint_asset_error(
    name: Seq<char>,
    uri: Seq<char>,
    optional_type: Option<Seq<char>>,
    royalties_bps: Option<u16>,
    creators: Seq<CreatorInput>,
) -> Option<MarketplaceError> {
    if utf8_len(name) > MAX_NAME_LEN {
        Some(MarketplaceError::NameTooLong)
    } else if utf8_len(uri) > MAX_URI_LEN {
        Some(MarketplaceError::UriTooLong)
    } else if optional_type matches Some(t) && utf8_len(t) > MAX_TYPE_LEN {
        Some(MarketplaceError::TypeTooLong)
    } else if royalties_bps matches Some(bps) && bps > MAX_ROYALTIES_BPS {
        Some(MarketplaceError::BadRoyaltiesBps)
    } else if royalties_bps is Some && percentage_total(creators) != 100 {
        Some(MarketplaceError::BadCreatorPercentages)
    } else {
        None
    }
}

/// The attributes written on a new asset: the minter (the text of its key), then the type if given.
pub open spec fn attributes_are(
    list: Seq<Attribute>,
    minter_text: Seq<char>,
    optional_type: Option<Seq<char>>,
) -> bool {
    &&& list.len() == if optional_type is Some { 2nat } else { 1nat }
    &&& list[0].key@ == "minter"@
    &&& list[0].value@ == minter_text
    &&& optional_type matches Some(t) ==> list[1].key@ == "type"@ && list[1].value@ == t
}

/// The royalty creators are the given ones, in order.
pub open spec fn creators_are(mapped: Seq<Creator>, creators: Seq<CreatorInput>) -> bool {
    &&& mapped.len() == creators.len()
    &&& forall|i: int|
        0 <= i < creators.len() ==> #[trigger] mapped[i].address == creators[i].address
            && mapped[i].percentage == creators[i].percentage
}

/// The plugins of a new asset: immutable attributes, the transfer and freeze
/// delegates (owner-managed, not frozen), and immutable royalties when a rate is given.
pub open spec fn plugins_are(
    plugins: Seq<PluginAuthorityPair>,
    minter_text: Seq<char>,
    optional_type: Option<Seq<char>>,
    royalties_bps: Option<u16>,
    creators: Seq<CreatorInput>,
) -> bool {
    &&& plugins.len() == if royalties_bps is Some { 4nat } else { 3nat }
    &&& plugins[0].plugin matches Plugin::Attributes { attribute_list }
        && attributes_are(attribute_list@, minter_text, optional_type)
    &&& plugins[0].authority == Some(PluginAuthority::NoAuthority)
    &&& plugins[1].plugin is TransferDelegate
    &&& plugins[1].authority is None
    &&& plugins[2].plugin matches Plugin::FreezeDelegate { frozen } && !frozen
    &&& plugins[2].authority is None
    &&& royalties_bps matches Some(bps) ==> {
        &&& plugins[3].plugin matches Plugin::Royalties { basis_points, creators: mapped, rule_set }
            && basis_points == bps && rule_set == RuleSet::NoRules
            && creators_are(mapped@, creators)
        &&& plugins[3].authority == Some(PluginAuthority::NoAuthority)
    }
}

proof fn lemma_percentage_total_nonneg(creators: Seq<CreatorInput>)
    ensures
        percentage_total(creators) >= 0,
    decreases creators.len(),
{
    if creators.len() > 0 {
        lemma_percentage_total_nonneg(creators.drop_last());
    }
}

/// Maps the creators to Core's and adds up their percentages, saturating at `u16::MAX`.
fn map_creators(creators: &Vec<CreatorInput>) -> (r: (Vec<Creator>, u16))
    ensures
        creators_are(r.0@, creators@),
        r.1 == if percentage_total(creators@) > u16::MAX {
            u16::MAX as int
        } else {
            percentage_total(creators@)
        },
{
    let mut mapped: Vec<Creator> = Vec::with_capacity(creators.len());
    let mut pct_sum: u16 = 0;
    let mut i: usize = 0;
    while i < creators.len()
        invariant
            i <= creators@.len(),
            creators_are(mapped@, creators@.take(i as int)),
            pct_sum == if percentage_total(creators@.take(i as int)) > u16::MAX {
                u16::MAX as int
            } else {
                percentage_total(creators@.take(i as int))
            },
        decreases creators@.len() - i,
    {
        let c = creators[i];
        proof {
            assert(creators@.take(i + 1).drop_last() =~= creators@.take(i as int));
            lemma_percentage_total_nonneg(creators@.take(i as int));
        }
        pct_sum = pct_sum.saturating_add(c.percentage as u16);
        mapped.push(Creator { address: c.address, percentage: c.percentage });
        i = i + 1;
        proof {
            assert forall|j: int| 0 <= j < i implies #[trigger] mapped@[j].address
                == creators@.take(i as int)[j].address && mapped@[j].percentage
                == creators@.take(i as int)[j].percentage by {
                if j < i - 1 {
                    assert(creators@.take(i as int)[j] == creators@.take(i - 1)[j]);
                }
            }
        }
    }
    assert(creators@.take(creators@.len() as int) =~= creators@);
    (mapped, pct_sum)
}

/// Checks the metadata of a new asset and describes its creation in Core: the
/// minter owns the asset and is its authority; it carries immutable attributes
/// (the minter's key in base58, and the type if given), the transfer and freeze
/// delegates for listing, and immutable royalties when a rate is given.
pub fn mint_asset(
    accounts: &MintAsset,
    name: String,
    uri: String,
    optional_type: Option<String>,
    royalties_bps: Option<u16>,
    creators: Vec<CreatorInput>,
) -> (r: Result<CreateAsset, MarketplaceError>)
    ensures
        mint_asset_error(name@, uri@, option_text(optional_type), royalties_bps, creators@)
            matches Some(e) ==> r == Err::<CreateAsset, MarketplaceError>(e),
        mint_asset_error(name@, uri@, option_text(optional_type), royalties_bps, creators@)
            is None ==> r is Ok,
        r matches Ok(c) ==> {
            &&& c.asset == accounts.asset
            &&& c.collection is None
            &&& c.payer == accounts.payer
            &&& c.authority == accounts.minter
            &&& c.owner == accounts.minter
            &&& c.update_authority is None
            &&& c.data_state == DataState::AccountState
            &&& c.name@ == name@
            &&& c.uri@ == uri@
            &&& plugins_are(
                c.plugins@,
                base58_of(accounts.minter@),
                option_text(optional_type),
                royalties_bps,
                creators@,
            )
        },
{
    if name.as_str().as_bytes().len() > MAX_NAME_LEN {
        return Err(MarketplaceError::NameTooLong);
    }
    if uri.as_str().as_bytes().len() > MAX_URI_LEN {
        return Err(MarketplaceError::UriTooLong);
    }
    let minter_text = key_to_string(&accounts.minter);
    let ghost minter_view = minter_text@;
    let mut attrs: Vec<Attribute> = Vec::new();
    attrs.push(Attribute { key: "minter".to_string(), value: minter_text });
    let ghost type_text = option_text(optional_type);
    if let Some(t) = optional_type {
        if t.as_str().as_bytes().len() > MAX_TYPE_LEN {
            return Err(MarketplaceError::TypeTooLong);
        }
        attrs.push(Attribute { key: "type".to_string(), value: t });
    }
    assert(attributes_are(attrs@, minter_view, type_text));
    let mut plugin_pairs: Vec<PluginAuthorityPair> = Vec::new();
    plugin_pairs.push(
        PluginAuthorityPair {
            plugin: Plugin::Attributes { attribute_list: attrs },
            authority: Some(PluginAuthority::NoAuthority),
        },
    );
    plugin_pairs.push(PluginAuthorityPair { plugin: Plugin::TransferDelegate, authority: None });
    plugin_pairs.push(
        PluginAuthorityPair { plugin: Plugin::FreezeDelegate { frozen: false }, authority: None },
    );
    if let Some(bps) = royalties_bps {
        if bps > MAX_ROYALTIES_BPS {
            return Err(MarketplaceError::BadRoyaltiesBps);
        }
        let (mapped, pct_sum) = map_creators(&creators);
        if pct_sum != 100 {
            return Err(MarketplaceError::BadCreatorPercentages);
        }
        plugin_pairs.push(
            PluginAuthorityPair {
                plugin: Plugin::Royalties {
                    basis_points: bps,
                    creators: mapped,
                    rule_set: RuleSet::NoRules,
                },
                authority: Some(PluginAuthority::NoAuthority),
            },
        );
    }
    Ok(
        CreateAsset {
            asset: accounts.asset,
            collection: None,
            payer: accounts.payer,
            authority: accounts.minter,
            owner: accounts.minter,
            update_authority: None,
            data_state: DataState::AccountState,
            name,
            uri,
            plugins: plugin_pairs,
        },
    )
}


} // verus!

verus! {

/* ----------------------------- list ----------------------------- */

/// The error with which `list` refuses, or `None`.
pub open spec fn list_error(accounts: List, price_lamports: u64) -> Option<MarketplaceError> {
    if price_lamports == 0 {
        Some(MarketplaceError::BadPrice)
    } else if accounts.listing.active {
        Some(MarketplaceError::AlreadyListed)
    } else {
        None
    }
}

/// The listing that `list` writes: this asset, this seller, this price, active.
pub open spec fn listed(accounts: List, price_lamports: u64) -> Listing {
    Listing {
        asset: accounts.asset,
        seller: accounts.seller,
        price_lamports,
        active: true,
        bump: accounts.listing_bump,
    }
}

/// The listing's accounts after `list` wrote the listing.
pub open spec fn after_list(accounts: List, price_lamports: u64) -> List {
    List { listing: listed(accounts, price_lamports), ..accounts }
}

/// Checks the price and that the listing is not active yet, writes the listing,
/// and starts the delegation of the asset to the listing account: first its
/// transfer delegate, then its freeze delegate and the freeze, one call at a time
/// (`list_delegation_next` continues with each call's outcome). The instruction
/// succeeds only if the delegations end with `Done`.
pub fn list(accounts: &mut List, price_lamports: u64) -> (r: Result<ListStep, MarketplaceError>)
    ensures
        list_error(*old(accounts), price_lamports) matches Some(e) ==> r == Err::<
            ListStep,
            MarketplaceError,
        >(e) && *final(accounts) == *old(accounts),
        list_error(*old(accounts), price_lamports) is None ==> r is Ok && *final(accounts)
            == after_list(*old(accounts), price_lamports),
        r matches Ok(step) ==> step == list_start_step(*final(accounts)),
{
    if price_lamports == 0 {
        return Err(MarketplaceError::BadPrice);
    }
    if accounts.listing.active {
        return Err(MarketplaceError::AlreadyListed);
    }
    accounts.listing = Listing {
        asset: accounts.asset,
        seller: accounts.seller,
        price_lamports,
        active: true,
        bump: accounts.listing_bump,
    };
    Ok(list_delegation_start(accounts))
}

/* ----------------------------- cancel ----------------------------- */

/// The error with which `cancel` refuses, or `None`.
pub open spec fn cancel_error(accounts: Cancel) -> Option<MarketplaceError> {
    if accounts.listing.active && accounts.listing.seller@ != accounts.seller@ {
        Some(MarketplaceError::NotSeller)
    } else {
        None
    }
}

/// The thaw of a listed asset, signed by the listing account, paid by `payer`.
pub open spec fn thaw_call(asset: Pubkey, payer: Pubkey, listing_key: Pubkey, listing: Listing) -> CpiCall {
    CpiCall::UpdatePlugin {
        asset,
        collection: None,
        payer,
        authority: listing_key,
        plugin: DelegatePlugin::FreezeDelegate { frozen: false },
        signer: ListingSigner { asset: listing.asset, bump: listing.bump },
    }
}

/// The calls of a cancel: thaw the asset (a frozen asset's freeze delegate cannot
/// be revoked), then give both delegates back to the seller.
pub open spec fn cancel_calls(accounts: Cancel) -> Seq<CpiCall> {
    seq![
        thaw_call(accounts.asset, accounts.seller, accounts.listing_key, accounts.listing),
        CpiCall::RevokePluginAuthority {
            asset: accounts.asset,
            collection: None,
            payer: accounts.seller,
            authority: accounts.seller,
            plugin_type: PluginType::TransferDelegate,
        },
        CpiCall::RevokePluginAuthority {
            asset: accounts.asset,
            collection: None,
            payer: accounts.seller,
            authority: accounts.seller,
            plugin_type: PluginType::FreezeDelegate,
        },
    ]
}

/// The listing with `active` cleared.
pub open spec fn deactivated(listing: Listing) -> Listing {
    Listing { active: false, ..listing }
}

/// Thaws the asset with the listing account's signature (for `cancel`).
pub fn thaw_with_listing_pda_cancel(accounts: &Cancel) -> (c: CpiCall)
    ensures
        c == thaw_call(accounts.asset, accounts.seller, accounts.listing_key, accounts.listing),
{
    CpiCall::UpdatePlugin {
        asset: accounts.asset,
        collection: None,
        payer: accounts.seller,
        authority: accounts.listing_key,
        plugin: DelegatePlugin::FreezeDelegate { frozen: false },
        signer: ListingSigner { asset: accounts.listing.asset, bump: accounts.listing.bump },
    }
}

/// Cancels a listing. An inactive listing is left as it is, with no call (the
/// account is then closed); an active one only its seller may cancel: the asset
/// is thawed, both delegates go back to the seller, and the listing becomes inactive.
/// The instruction succeeds only if every returned call succeeds, in order.
pub fn cancel(accounts: &mut Cancel) -> (r: Result<Vec<CpiCall>, MarketplaceError>)
    ensures
        cancel_error(*old(accounts)) matches Some(e) ==> r == Err::<Vec<CpiCall>, MarketplaceError>(e)
            && *final(accounts) == *old(accounts),
        cancel_error(*old(accounts)) is None ==> r is Ok && *final(accounts) == (Cancel {
            listing: deactivated(old(accounts).listing),
            ..*old(accounts)
        }),
        r matches Ok(calls) ==> calls@ == if old(accounts).listing.active {
            cancel_calls(*old(accounts))
        } else {
            Seq::<CpiCall>::empty()
        },
{
    let mut calls: Vec<CpiCall> = Vec::new();
    if accounts.listing.active {
        if !keys_eq(&accounts.listing.seller, &accounts.seller) {
            return Err(MarketplaceError::NotSeller);
        }
        calls.push(thaw_with_listing_pda_cancel(accounts));
        calls.push(
            revoke_plugin_to_owner(
                &accounts.asset,
                &accounts.seller,
                &accounts.seller,
                PluginType::TransferDelegate,
            ),
        );
        calls.push(
            revoke_plugin_to_owner(
                &accounts.asset,
                &accounts.seller,
                &accounts.seller,
                PluginType::FreezeDelegate,
            ),
        );
        accounts.listing.active = false;
        assert(calls@ =~= cancel_calls(*old(accounts)));
    }
    Ok(calls)
}

/* ----------------------------- buy ----------------------------- */

/// The error with which `buy` refuses, or `None`.
pub open spec fn buy_error(accounts: Buy) -> Option<MarketplaceError> {
    if !accounts.listing.active {
        Some(MarketplaceError::NotListed)
    } else if accounts.listing.seller@ != accounts.seller@ {
        Some(MarketplaceError::NotSeller)
    } else {
        None
    }
}

/// The calls of a purchase: the buyer pays the fee to the treasury and the price
/// to the seller; the listing account thaws the asset and transfers it to the
/// buyer; both delegates go back to the buyer.
pub open spec fn buy_calls(accounts: Buy) -> Seq<CpiCall> {
    let signer = ListingSigner { asset: accounts.listing.asset, bump: accounts.listing.bump };
    seq![
        CpiCall::TransferSol {
            from: accounts.buyer,
            to: accounts.treasury,
            lamports: accounts.config.platform_fee_lamports,
        },
        CpiCall::TransferSol {
            from: accounts.buyer,
            to: accounts.seller,
            lamports: accounts.listing.price_lamports,
        },
        thaw_call(accounts.asset, accounts.buyer, accounts.listing_key, accounts.listing),
        CpiCall::TransferAsset {
            asset: accounts.asset,
            collection: None,
            payer: accounts.buyer,
            authority: accounts.listing_key,
            new_owner: accounts.buyer,
            log_wrapper: None,
            compression_proof: false,
            signer,
        },
        CpiCall::RevokePluginAuthority {
            asset: accounts.asset,
            collection: None,
            payer: accounts.buyer,
            authority: accounts.buyer,
            plugin_type: PluginType::TransferDelegate,
        },
        CpiCall::RevokePluginAuthority {
            asset: accounts.asset,
            collection: None,
            payer: accounts.buyer,
            authority: accounts.buyer,
            plugin_type: PluginType::FreezeDelegate,
        },
    ]
}

/// Thaws the asset with the listing account's signature (for `buy`).
pub fn thaw_with_listing_pda(accounts: &Buy) -> (c: CpiCall)
    ensures
        c == thaw_call(accounts.asset, accounts.buyer, accounts.listing_key, accounts.listing),
{
    CpiCall::UpdatePlugin {
        asset: accounts.asset,
        collection: None,
        payer: accounts.buyer,
        authority: accounts.listing_key,
        plugin: DelegatePlugin::FreezeDelegate { frozen: false },
        signer: ListingSigner { asset: accounts.listing.asset, bump: accounts.listing.bump },
    }
}

/// Buys a listed asset: the listing must be active and the seller account the
/// listing's seller. The instruction succeeds only if every returned call
/// succeeds, in order; the listing then becomes inactive (the account is closed).
pub fn buy(accounts: &mut Buy) -> (r: Result<Vec<CpiCall>, MarketplaceError>)
    ensures
        buy_error(*old(accounts)) matches Some(e) ==> r == Err::<Vec<CpiCall>, MarketplaceError>(e)
            && *final(accounts) == *old(accounts),
        buy_error(*old(accounts)) is None ==> r is Ok && *final(accounts) == (Buy {
            listing: deactivated(old(accounts).listing),
            ..*old(accounts)
        }),
        r matches Ok(calls) ==> calls@ == buy_calls(*old(accounts)),
{
    if !accounts.listing.active {
        return Err(MarketplaceError::NotListed);
    }
    if !keys_eq(&accounts.listing.seller, &accounts.seller) {
        return Err(MarketplaceError::NotSeller);
    }
    let price = accounts.listing.price_lamports;
    let fee = accounts.config.platform_fee_lamports;
    let mut calls: Vec<CpiCall> = Vec::new();
    calls.push(transfer_sol(&accounts.buyer, &accounts.treasury, fee));
    calls.push(transfer_sol(&accounts.buyer, &accounts.seller, price));
    calls.push(thaw_with_listing_pda(accounts));
    calls.push(
        CpiCall::TransferAsset {
            asset: accounts.asset,
            collection: None,
            payer: accounts.buyer,
            authority: accounts.listing_key,
            new_owner: accounts.buyer,
            log_wrapper: None,
            compression_proof: false,
            signer: ListingSigner { asset: accounts.listing.asset, bump: accounts.listing.bump },
        },
    );
    calls.push(
        revoke_plugin_to_owner(
            &accounts.asset,
            &accounts.buyer,
            &accounts.buyer,
            PluginType::TransferDelegate,
        ),
    );
    calls.push(
        revoke_plugin_to_owner(
            &accounts.asset,
            &accounts.buyer,
            &accounts.buyer,
            PluginType::FreezeDelegate,
        ),
    );
    accounts.listing.active = false;
    assert(calls@ =~= buy_calls(*old(accounts)));
    Ok(calls)
}

} // verus!
