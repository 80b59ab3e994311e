use game_core_marketplace::core_calls::{
    CallOutcome, CpiCall, CreateAsset, Creator, DataState, DelegatePlugin, Plugin, PluginAuthority,
    PluginType, RuleSet, CORE_ERR_PLUGIN_ALREADY_EXISTS, CORE_ERR_PLUGIN_NOT_FOUND,
};
use game_core_marketplace::delegation::{
    ensure_delegated_freeze_and_freeze_now, ensure_delegated_transfer, list_delegation_next,
    DelegationStage, FlowStep, ListPhase, ListStep,
};
use game_core_marketplace::error::MarketplaceError;
use game_core_marketplace::keys::{
    key_to_string, keys_eq, listing_signer_seeds, ListingSigner, Pubkey, LISTING_SEED,
    MARKETPLACE_SEED,
};
use game_core_marketplace::marketplace::{
    buy, cancel, initialize, list, mint_asset, Buy, Cancel, Initialize, List,
    MintAsset,
};
use game_core_marketplace::state::{
    CreatorInput, Listing, MarketplaceConfig, PLATFORM_FEE_LAMPORTS,
};

fn key(b: u8) -> Pubkey {
    Pubkey { bytes: [b; 32] }
}

const ADMIN: u8 = 1;
const TREASURY: u8 = 2;
const SELLER: u8 = 3;
const BUYER: u8 = 4;
const ASSET: u8 = 5;
const LISTING: u8 = 6;
const OTHER: u8 = 7;

fn config() -> MarketplaceConfig {
    MarketplaceConfig {
        admin: key(ADMIN),
        treasury: key(TREASURY),
        platform_fee_lamports: PLATFORM_FEE_LAMPORTS,
        bump: 254,
    }
}

fn empty_listing() -> Listing {
    Listing { asset: key(0), seller: key(0), price_lamports: 0, active: false, bump: 0 }
}

fn active_listing(price: u64) -> Listing {
    Listing { asset: key(ASSET), seller: key(SELLER), price_lamports: price, active: true, bump: 251 }
}

fn list_accounts() -> List {
    List {
        seller: key(SELLER),
        config: config(),
        listing: empty_listing(),
        listing_key: key(LISTING),
        listing_bump: 251,
        asset: key(ASSET),
    }
}

fn cancel_accounts(listing: Listing, seller: u8) -> Cancel {
    Cancel { seller: key(seller), config: config(), listing, listing_key: key(LISTING), asset: key(ASSET) }
}

fn buy_accounts(listing: Listing, seller: u8) -> Buy {
    Buy {
        buyer: key(BUYER),
        config: config(),
        treasury: key(TREASURY),
        seller: key(seller),
        listing,
        listing_key: key(LISTING),
        asset: key(ASSET),
    }
}

fn signer() -> ListingSigner {
    ListingSigner { asset: key(ASSET), bump: 251 }
}

/* ----------------------------- keys ----------------------------- */

#[test]
fn key_text_is_base58() {
    assert_eq!(key_to_string(&key(0)), "11111111111111111111111111111111");
    assert_eq!(key_to_string(&key(1)), "4vJ9JU1bJJE96FWSJKvHsmmFADCg4gpZQff4P3bkLKi");
    let mut last_one = [0u8; 32];
    last_one[31] = 1;
    assert_eq!(key_to_string(&Pubkey::new(last_one)), "11111111111111111111111111111112");
}

#[test]
fn keys_compare_by_bytes() {
    assert!(keys_eq(&key(3), &key(3)));
    assert!(!keys_eq(&key(3), &key(4)));
    let mut almost = [3u8; 32];
    almost[31] = 4;
    assert!(!keys_eq(&key(3), &Pubkey::new(almost)));
}

#[test]
fn listing_seeds_are_seed_asset_bump() {
    let seeds = listing_signer_seeds(&signer());
    assert_eq!(seeds, vec![b"listing".to_vec(), vec![ASSET; 32], vec![251u8]]);
    assert_eq!(&LISTING_SEED[..], b"listing");
    assert_eq!(&MARKETPLACE_SEED[..], b"marketplace");
}

/* ----------------------------- errors ----------------------------- */

#[test]
fn error_numbers_and_messages() {
    assert_eq!(MarketplaceError::BadPrice.code(), 6000);
    assert_eq!(MarketplaceError::NotSeller.code(), 6003);
    assert_eq!(MarketplaceError::BadCreatorPercentages.code(), 6009);
    assert_eq!(MarketplaceError::BadPrice.message(), "Bad price.");
    assert_eq!(MarketplaceError::UriTooLong.message(), "URI too long.");
    assert_eq!(
        MarketplaceError::BadCreatorPercentages.message(),
        "Bad creator percentages (must sum to 100)."
    );
    assert_eq!(MarketplaceError::NotAssetOwner.name(), "NotAssetOwner");
}

/* ----------------------------- initialize ----------------------------- */

#[test]
fn initialize_writes_config() {
    let mut accounts = Initialize {
        admin: key(ADMIN),
        treasury: key(OTHER),
        config: MarketplaceConfig { admin: key(0), treasury: key(0), platform_fee_lamports: 0, bump: 0 },
        config_bump: 254,
    };
    assert_eq!(initialize(&mut accounts, key(TREASURY)), Ok(()));
    assert_eq!(accounts.config, config());
    assert_eq!(accounts.config.platform_fee_lamports, 100_000);
}

/* ----------------------------- mint_asset ----------------------------- */

fn mint_accounts() -> MintAsset {
    MintAsset { minter: key(1), payer: key(2), asset: key(ASSET) }
}

#[test]
fn mint_without_royalties() {
    let plan = mint_asset(
        &mint_accounts(),
        "Sword".to_string(),
        "https://example.com/sword.json".to_string(),
        Some("weapon".to_string()),
        None,
        vec![CreatorInput { address: key(9), percentage: 7 }],
    )
    .unwrap();
    assert_eq!(plan.asset, key(ASSET));
    assert_eq!(plan.payer, key(2));
    assert_eq!(plan.authority, key(1));
    assert_eq!(plan.owner, key(1));
    assert_eq!(plan.collection, None);
    assert_eq!(plan.update_authority, None);
    assert_eq!(plan.data_state, DataState::AccountState);
    assert_eq!(plan.name, "Sword");
    assert_eq!(plan.uri, "https://example.com/sword.json");
    assert_eq!(plan.plugins.len(), 3);
    match &plan.plugins[0].plugin {
        Plugin::Attributes { attribute_list } => {
            assert_eq!(attribute_list.len(), 2);
            assert_eq!(attribute_list[0].key, "minter");
            assert_eq!(attribute_list[0].value, "4vJ9JU1bJJE96FWSJKvHsmmFADCg4gpZQff4P3bkLKi");
            assert_eq!(attribute_list[1].key, "type");
            assert_eq!(attribute_list[1].value, "weapon");
        }
        other => panic!("unexpected plugin {:?}", other),
    }
    assert_eq!(plan.plugins[0].authority, Some(PluginAuthority::NoAuthority));
    assert_eq!(plan.plugins[1].plugin, Plugin::TransferDelegate);
    assert_eq!(plan.plugins[1].authority, None);
    assert_eq!(plan.plugins[2].plugin, Plugin::FreezeDelegate { frozen: false });
    assert_eq!(plan.plugins[2].authority, None);
}

#[test]
fn mint_with_royalties() {
    let creators = vec![
        CreatorInput { address: key(8), percentage: 60 },
        CreatorInput { address: key(9), percentage: 40 },
    ];
    let plan: CreateAsset = mint_asset(
        &mint_accounts(),
        "Shield".to_string(),
        "u".to_string(),
        None,
        Some(500),
        creators,
    )
    .unwrap();
    assert_eq!(plan.plugins.len(), 4);
    match &plan.plugins[0].plugin {
        Plugin::Attributes { attribute_list } => {
            assert_eq!(attribute_list.len(), 1);
            assert_eq!(attribute_list[0].key, "minter");
            assert_eq!(attribute_list[0].value, "4vJ9JU1bJJE96FWSJKvHsmmFADCg4gpZQff4P3bkLKi");
        }
        other => panic!("unexpected plugin {:?}", other),
    }
    assert_eq!(
        plan.plugins[3].plugin,
        Plugin::Royalties {
            basis_points: 500,
            creators: vec![
                Creator { address: key(8), percentage: 60 },
                Creator { address: key(9), percentage: 40 },
            ],
            rule_set: RuleSet::NoRules,
        }
    );
    assert_eq!(plan.plugins[3].authority, Some(PluginAuthority::NoAuthority));
}

#[test]
fn mint_name_limit_counts_bytes() {
    let ok = mint_asset(&mint_accounts(), "a".repeat(64), "u".to_string(), None, None, vec![]);
    assert!(ok.is_ok());
    let long = mint_asset(&mint_accounts(), "a".repeat(65), "u".to_string(), None, None, vec![]);
    assert_eq!(long, Err(MarketplaceError::NameTooLong));
    // 33 characters of two bytes each: 66 bytes.
    let wide = mint_asset(&mint_accounts(), "\u{e9}".repeat(33), "u".to_string(), None, None, vec![]);
    assert_eq!(wide, Err(MarketplaceError::NameTooLong));
}

#[test]
fn mint_uri_and_type_limits() {
    let ok = mint_asset(&mint_accounts(), "n".to_string(), "u".repeat(200), Some("t".repeat(32)), None, vec![]);
    assert!(ok.is_ok());
    let uri = mint_asset(&mint_accounts(), "n".to_string(), "u".repeat(201), None, None, vec![]);
    assert_eq!(uri, Err(MarketplaceError::UriTooLong));
    let ty = mint_asset(&mint_accounts(), "n".to_string(), "u".to_string(), Some("t".repeat(33)), None, vec![]);
    assert_eq!(ty, Err(MarketplaceError::TypeTooLong));
}

#[test]
fn mint_checks_in_order() {
    let both = mint_asset(&mint_accounts(), "a".repeat(65), "u".repeat(201), Some("t".repeat(33)), Some(20_000), vec![]);
    assert_eq!(both, Err(MarketplaceError::NameTooLong));
    let uri_type = mint_asset(&mint_accounts(), "n".to_string(), "u".repeat(201), Some("t".repeat(33)), None, vec![]);
    assert_eq!(uri_type, Err(MarketplaceError::UriTooLong));
    let type_bps = mint_asset(&mint_accounts(), "n".to_string(), "u".to_string(), Some("t".repeat(33)), Some(20_000), vec![]);
    assert_eq!(type_bps, Err(MarketplaceError::TypeTooLong));
    let bps_pct = mint_asset(&mint_accounts(), "n".to_string(), "u".to_string(), None, Some(10_001), vec![]);
    assert_eq!(bps_pct, Err(MarketplaceError::BadRoyaltiesBps));
}

#[test]
fn mint_royalty_rate_and_shares() {
    let full = vec![CreatorInput { address: key(8), percentage: 100 }];
    assert!(mint_asset(&mint_accounts(), "n".to_string(), "u".to_string(), None, Some(10_000), full).is_ok());
    let short = vec![
        CreatorInput { address: key(8), percentage: 50 },
        CreatorInput { address: key(9), percentage: 49 },
    ];
    assert_eq!(
        mint_asset(&mint_accounts(), "n".to_string(), "u".to_string(), None, Some(100), short),
        Err(MarketplaceError::BadCreatorPercentages)
    );
    assert_eq!(
        mint_asset(&mint_accounts(), "n".to_string(), "u".to_string(), None, Some(100), vec![]),
        Err(MarketplaceError::BadCreatorPercentages)
    );
    // 257 * 255 exceeds u16::MAX: the sum saturates and is not 100.
    let many = vec![CreatorInput { address: key(8), percentage: 255 }; 257];
    assert_eq!(
        mint_asset(&mint_accounts(), "n".to_string(), "u".to_string(), None, Some(100), many),
        Err(MarketplaceError::BadCreatorPercentages)
    );
}

/* ----------------------------- list ----------------------------- */

#[test]
fn list_rejects_zero_price() {
    let mut accounts = list_accounts();
    assert_eq!(list(&mut accounts, 0), Err(MarketplaceError::BadPrice));
    assert_eq!(accounts, list_accounts());
}

#[test]
fn list_writes_active_listing() {
    let mut accounts = list_accounts();
    assert!(list(&mut accounts, 1_000).is_ok());
    assert_eq!(accounts.listing, active_listing(1_000));
    assert_eq!(list(&mut accounts, 2_000), Err(MarketplaceError::AlreadyListed));
    assert_eq!(accounts.listing, active_listing(1_000));
}

fn listed_accounts() -> List {
    let mut accounts = list_accounts();
    list(&mut accounts, 1_000).unwrap();
    accounts
}

fn approve(plugin_type: PluginType) -> CpiCall {
    CpiCall::ApprovePluginAuthority {
        asset: key(ASSET),
        collection: None,
        payer: key(SELLER),
        authority: key(SELLER),
        plugin_type,
        new_authority: PluginAuthority::Address { address: key(LISTING) },
    }
}

fn freeze_call() -> CpiCall {
    CpiCall::UpdatePlugin {
        asset: key(ASSET),
        collection: None,
        payer: key(SELLER),
        authority: key(LISTING),
        plugin: DelegatePlugin::FreezeDelegate { frozen: true },
        signer: signer(),
    }
}

#[test]
fn transfer_delegation_fast_path() {
    let a = listed_accounts();
    let start = ensure_delegated_transfer(&a, key(LISTING), None);
    assert_eq!(start, FlowStep::Call(approve(PluginType::TransferDelegate), DelegationStage::Approving));
    let next = ensure_delegated_transfer(&a, key(LISTING), Some((DelegationStage::Approving, CallOutcome::Success)));
    assert_eq!(next, FlowStep::Done);
}

#[test]
fn transfer_delegation_adds_missing_plugin() {
    let a = listed_accounts();
    let add = ensure_delegated_transfer(
        &a,
        key(LISTING),
        Some((DelegationStage::Approving, CallOutcome::Custom(CORE_ERR_PLUGIN_NOT_FOUND))),
    );
    assert_eq!(
        add,
        FlowStep::Call(
            CpiCall::AddPlugin {
                asset: key(ASSET),
                collection: None,
                payer: key(SELLER),
                authority: key(SELLER),
                plugin: DelegatePlugin::TransferDelegate,
            },
            DelegationStage::AddingPlugin
        )
    );
    for answer in [CallOutcome::Success, CallOutcome::Custom(CORE_ERR_PLUGIN_ALREADY_EXISTS)] {
        let again = ensure_delegated_transfer(&a, key(LISTING), Some((DelegationStage::AddingPlugin, answer)));
        assert_eq!(again, FlowStep::Call(approve(PluginType::TransferDelegate), DelegationStage::Reapproving));
    }
    let done = ensure_delegated_transfer(&a, key(LISTING), Some((DelegationStage::Reapproving, CallOutcome::Success)));
    assert_eq!(done, FlowStep::Done);
}

#[test]
fn transfer_delegation_propagates_other_errors() {
    let a = listed_accounts();
    let d = key(LISTING);
    assert_eq!(ensure_delegated_transfer(&a, d, Some((DelegationStage::Approving, CallOutcome::Failed))), FlowStep::Propagate);
    assert_eq!(ensure_delegated_transfer(&a, d, Some((DelegationStage::Approving, CallOutcome::Custom(CORE_ERR_PLUGIN_ALREADY_EXISTS)))), FlowStep::Propagate);
    assert_eq!(ensure_delegated_transfer(&a, d, Some((DelegationStage::AddingPlugin, CallOutcome::Custom(CORE_ERR_PLUGIN_NOT_FOUND)))), FlowStep::Propagate);
    assert_eq!(ensure_delegated_transfer(&a, d, Some((DelegationStage::AddingPlugin, CallOutcome::Failed))), FlowStep::Propagate);
    assert_eq!(ensure_delegated_transfer(&a, d, Some((DelegationStage::Reapproving, CallOutcome::Custom(CORE_ERR_PLUGIN_NOT_FOUND)))), FlowStep::Propagate);
}

#[test]
fn freeze_delegation_freezes_after_approval() {
    let a = listed_accounts();
    let d = key(LISTING);
    assert_eq!(
        ensure_delegated_freeze_and_freeze_now(&a, d, None),
        FlowStep::Call(approve(PluginType::FreezeDelegate), DelegationStage::Approving)
    );
    assert_eq!(
        ensure_delegated_freeze_and_freeze_now(&a, d, Some((DelegationStage::Approving, CallOutcome::Success))),
        FlowStep::Call(freeze_call(), DelegationStage::Freezing)
    );
    assert_eq!(
        ensure_delegated_freeze_and_freeze_now(&a, d, Some((DelegationStage::Freezing, CallOutcome::Success))),
        FlowStep::Done
    );
    assert_eq!(
        ensure_delegated_freeze_and_freeze_now(&a, d, Some((DelegationStage::Freezing, CallOutcome::Custom(1)))),
        FlowStep::Propagate
    );
}

#[test]
fn freeze_delegation_adds_unfrozen_plugin() {
    let a = listed_accounts();
    let d = key(LISTING);
    assert_eq!(
        ensure_delegated_freeze_and_freeze_now(
            &a,
            d,
            Some((DelegationStage::Approving, CallOutcome::Custom(CORE_ERR_PLUGIN_NOT_FOUND)))
        ),
        FlowStep::Call(
            CpiCall::AddPlugin {
                asset: key(ASSET),
                collection: None,
                payer: key(SELLER),
                authority: key(SELLER),
                plugin: DelegatePlugin::FreezeDelegate { frozen: false },
            },
            DelegationStage::AddingPlugin
        )
    );
    assert_eq!(
        ensure_delegated_freeze_and_freeze_now(
            &a,
            d,
            Some((DelegationStage::AddingPlugin, CallOutcome::Custom(CORE_ERR_PLUGIN_ALREADY_EXISTS)))
        ),
        FlowStep::Call(approve(PluginType::FreezeDelegate), DelegationStage::Reapproving)
    );
    assert_eq!(
        ensure_delegated_freeze_and_freeze_now(&a, d, Some((DelegationStage::Reapproving, CallOutcome::Success))),
        FlowStep::Call(freeze_call(), DelegationStage::Freezing)
    );
    assert_eq!(
        ensure_delegated_freeze_and_freeze_now(&a, d, Some((DelegationStage::Reapproving, CallOutcome::Failed))),
        FlowStep::Propagate
    );
}

/// Drives a delegation with the given answers, as the program does; returns the
/// calls made and how it ended.
fn drive(
    step: impl Fn(Option<(DelegationStage, CallOutcome)>) -> FlowStep,
    answers: &[CallOutcome],
) -> (Vec<CpiCall>, FlowStep) {
    let mut calls = Vec::new();
    let mut next = step(None);
    let mut i = 0;
    while let FlowStep::Call(call, stage) = next {
        calls.push(call);
        next = step(Some((stage, answers[i])));
        i += 1;
    }
    (calls, next)
}

#[test]
fn delegation_runs_end_within_bounds() {
    let a = listed_accounts();
    let nf = CallOutcome::Custom(CORE_ERR_PLUGIN_NOT_FOUND);
    let ok = CallOutcome::Success;
    let (calls, end) = drive(|p| ensure_delegated_transfer(&a, key(LISTING), p), &[nf, ok, ok]);
    assert_eq!(calls.len(), 3);
    assert_eq!(end, FlowStep::Done);
    assert_eq!(calls[2], approve(PluginType::TransferDelegate));
    let (calls, end) = drive(|p| ensure_delegated_freeze_and_freeze_now(&a, key(LISTING), p), &[nf, ok, ok, ok]);
    assert_eq!(calls.len(), 4);
    assert_eq!(end, FlowStep::Done);
    assert_eq!(calls[3], freeze_call());

    let (calls, end) = drive(|p| ensure_delegated_transfer(&a, key(LISTING), p), &[ok]);
    assert_eq!(calls, vec![approve(PluginType::TransferDelegate)]);
    assert_eq!(end, FlowStep::Done);
    let (calls, end) = drive(|p| ensure_delegated_freeze_and_freeze_now(&a, key(LISTING), p), &[ok, ok]);
    assert_eq!(calls, vec![approve(PluginType::FreezeDelegate), freeze_call()]);
    assert_eq!(end, FlowStep::Done);
    let (calls, end) = drive(|p| ensure_delegated_freeze_and_freeze_now(&a, key(LISTING), p), &[CallOutcome::Failed]);
    assert_eq!(calls.len(), 1);
    assert_eq!(end, FlowStep::Propagate);
    let (calls, end) = drive(|p| ensure_delegated_transfer(&a, key(LISTING), p), &[nf, CallOutcome::Custom(CORE_ERR_PLUGIN_ALREADY_EXISTS), CallOutcome::Custom(9)]);
    assert_eq!(calls.len(), 3);
    assert_eq!(end, FlowStep::Propagate);
}

/* ----------------------------- cancel ----------------------------- */

#[test]
fn cancel_inactive_is_noop() {
    let mut accounts = cancel_accounts(empty_listing(), OTHER);
    let before = accounts;
    assert_eq!(cancel(&mut accounts), Ok(vec![]));
    assert_eq!(accounts, before);
}

#[test]
fn cancel_by_other_is_refused() {
    let mut accounts = cancel_accounts(active_listing(10), OTHER);
    assert_eq!(cancel(&mut accounts), Err(MarketplaceError::NotSeller));
    assert!(accounts.listing.active);
}

#[test]
fn cancel_by_seller_thaws_then_revokes() {
    let mut accounts = cancel_accounts(active_listing(10), SELLER);
    let calls = cancel(&mut accounts).unwrap();
    assert_eq!(
        calls,
        vec![
            CpiCall::UpdatePlugin {
                asset: key(ASSET),
                collection: None,
                payer: key(SELLER),
                authority: key(LISTING),
                plugin: DelegatePlugin::FreezeDelegate { frozen: false },
                signer: signer(),
            },
            CpiCall::RevokePluginAuthority {
                asset: key(ASSET),
                collection: None,
                payer: key(SELLER),
                authority: key(SELLER),
                plugin_type: PluginType::TransferDelegate,
            },
            CpiCall::RevokePluginAuthority {
                asset: key(ASSET),
                collection: None,
                payer: key(SELLER),
                authority: key(SELLER),
                plugin_type: PluginType::FreezeDelegate,
            },
        ]
    );
    assert!(!accounts.listing.active);
    assert_eq!(accounts.listing.price_lamports, 10);
    // Cancelling again does nothing.
    assert_eq!(cancel(&mut accounts), Ok(vec![]));
}

/* ----------------------------- buy ----------------------------- */

#[test]
fn buy_requires_active_listing() {
    let mut accounts = buy_accounts(empty_listing(), SELLER);
    assert_eq!(buy(&mut accounts), Err(MarketplaceError::NotListed));
    let mut inactive = buy_accounts(Listing { active: false, ..active_listing(10) }, OTHER);
    assert_eq!(buy(&mut inactive), Err(MarketplaceError::NotListed));
}

#[test]
fn buy_requires_listed_seller() {
    let mut accounts = buy_accounts(active_listing(10), OTHER);
    assert_eq!(buy(&mut accounts), Err(MarketplaceError::NotSeller));
    assert!(accounts.listing.active);
}

#[test]
fn buy_pays_and_transfers() {
    let mut accounts = buy_accounts(active_listing(1_000_000), SELLER);
    let calls = buy(&mut accounts).unwrap();
    assert_eq!(
        calls,
        vec![
            CpiCall::TransferSol { from: key(BUYER), to: key(TREASURY), lamports: 100_000 },
            CpiCall::TransferSol { from: key(BUYER), to: key(SELLER), lamports: 1_000_000 },
            CpiCall::UpdatePlugin {
                asset: key(ASSET),
                collection: None,
                payer: key(BUYER),
                authority: key(LISTING),
                plugin: DelegatePlugin::FreezeDelegate { frozen: false },
                signer: signer(),
            },
            CpiCall::TransferAsset {
                asset: key(ASSET),
                collection: None,
                payer: key(BUYER),
                authority: key(LISTING),
                new_owner: key(BUYER),
                log_wrapper: None,
                compression_proof: false,
                signer: signer(),
            },
            CpiCall::RevokePluginAuthority {
                asset: key(ASSET),
                collection: None,
                payer: key(BUYER),
                authority: key(BUYER),
                plugin_type: PluginType::TransferDelegate,
            },
            CpiCall::RevokePluginAuthority {
                asset: key(ASSET),
                collection: None,
                payer: key(BUYER),
                authority: key(BUYER),
                plugin_type: PluginType::FreezeDelegate,
            },
        ]
    );
    assert!(!accounts.listing.active);
    let paid: u64 = calls
        .iter()
        .map(|c| match c {
            CpiCall::TransferSol { from, lamports, .. } if *from == key(BUYER) => *lamports,
            _ => 0,
        })
        .sum();
    assert_eq!(paid, 1_000_000 + PLATFORM_FEE_LAMPORTS);
}

#[test]
fn listing_lifecycle() {
    // list, then buy, then neither buy nor cancel can do anything more.
    let mut l = list_accounts();
    list(&mut l, 500).unwrap();
    let mut b = buy_accounts(l.listing, SELLER);
    assert!(buy(&mut b).is_ok());
    let mut again = buy_accounts(b.listing, SELLER);
    assert_eq!(buy(&mut again), Err(MarketplaceError::NotListed));
    let mut c = cancel_accounts(b.listing, OTHER);
    assert_eq!(cancel(&mut c), Ok(vec![]));

    // list, then cancel, then the listing cannot be bought.
    let mut l = list_accounts();
    list(&mut l, 500).unwrap();
    let mut c = cancel_accounts(l.listing, SELLER);
    assert_eq!(cancel(&mut c).unwrap().len(), 3);
    let mut b = buy_accounts(c.listing, SELLER);
    assert_eq!(buy(&mut b), Err(MarketplaceError::NotListed));
}

#[test]
fn account_sizes() {
    assert_eq!(MarketplaceConfig::LEN, 32 + 32 + 8 + 1);
    assert_eq!(Listing::LEN, 32 + 32 + 8 + 1 + 1);
}

/// Runs `list` and its delegations with the given answers, as the program does;
/// returns the calls made and how the delegations ended.
fn run_list(answers: &[CallOutcome]) -> (Vec<CpiCall>, ListStep) {
    let mut accounts = list_accounts();
    let mut next = list(&mut accounts, 1_000).unwrap();
    let mut calls = Vec::new();
    let mut i = 0;
    while let ListStep::Call(call, at) = next {
        assert_eq!(at.accounts, accounts);
        calls.push(call);
        next = list_delegation_next(&at, answers[i]);
        i += 1;
    }
    (calls, next)
}

#[test]
fn list_delegates_transfer_then_freeze() {
    let ok = CallOutcome::Success;
    let (calls, end) = run_list(&[ok, ok, ok]);
    assert_eq!(
        calls,
        vec![approve(PluginType::TransferDelegate), approve(PluginType::FreezeDelegate), freeze_call()]
    );
    assert_eq!(end, ListStep::Done);
}

#[test]
fn list_adds_missing_plugins_in_order() {
    let ok = CallOutcome::Success;
    let nf = CallOutcome::Custom(CORE_ERR_PLUGIN_NOT_FOUND);
    let exists = CallOutcome::Custom(CORE_ERR_PLUGIN_ALREADY_EXISTS);
    let (calls, end) = run_list(&[nf, exists, ok, nf, ok, ok, ok]);
    assert_eq!(calls.len(), 7);
    assert_eq!(calls[0], approve(PluginType::TransferDelegate));
    assert!(matches!(calls[1], CpiCall::AddPlugin { plugin: DelegatePlugin::TransferDelegate, .. }));
    assert_eq!(calls[2], approve(PluginType::TransferDelegate));
    assert_eq!(calls[3], approve(PluginType::FreezeDelegate));
    assert!(matches!(calls[4], CpiCall::AddPlugin { plugin: DelegatePlugin::FreezeDelegate { frozen: false }, .. }));
    assert_eq!(calls[5], approve(PluginType::FreezeDelegate));
    assert_eq!(calls[6], freeze_call());
    assert_eq!(end, ListStep::Done);
}

#[test]
fn list_stops_at_failed_transfer_delegation() {
    let (calls, end) = run_list(&[CallOutcome::Failed]);
    assert_eq!(calls, vec![approve(PluginType::TransferDelegate)]);
    assert_eq!(end, ListStep::Propagate);
    let (calls, end) = run_list(&[CallOutcome::Success, CallOutcome::Custom(3)]);
    assert_eq!(calls.len(), 2);
    assert_eq!(end, ListStep::Propagate);
}

#[test]
fn list_first_step_is_transfer_approval() {
    let mut accounts = list_accounts();
    match list(&mut accounts, 5).unwrap() {
        ListStep::Call(call, at) => {
            assert_eq!(call, approve(PluginType::TransferDelegate));
            assert_eq!(at.phase, ListPhase::DelegatingTransfer);
            assert_eq!(at.stage, DelegationStage::Approving);
            assert_eq!(at.accounts.listing, Listing { price_lamports: 5, ..active_listing(5) });
        }
        other => panic!("unexpected step {:?}", other),
    }
}
