use vstd::prelude::*;

use crate::core_calls::{
    Attribute, CallOutcome, CpiCall, DelegatePlugin, Plugin, PluginAuthority,
    PluginAuthorityPair, PluginType,
};
use crate::delegation::{
    add_call, approve_call, freeze_call, freeze_delegation_step, in_phase, list_next_step,
    list_start_step, transfer_delegation_step, DelegationStage, FlowStep, ListPhase, ListStep,
};
use crate::error::MarketplaceError;
use crate::keys::{listing_seeds_spec, ListingSigner, Pubkey, LISTING_SEED};
use crate::state::{CreatorInput, Listing};
use crate::marketplace::{
    after_list, buy_calls, buy_error, cancel_calls, cancel_error, deactivated, list_error, listed,
    mint_asset_error, percentage_total, plugins_are, utf8_len, Buy, Cancel, List,
};

verus! {

/* ------------------------- delegation runs ------------------------- */

/// The step makes the call `c`.
pub open spec fn makes_call(step: FlowStep, c: CpiCall) -> bool {
    step matches FlowStep::Call(made, _) && made == c
}

/// The step that the transfer delegation reaches when its calls are answered, in
/// order, by `answers` (answers after its end change nothing).
pub open spec fn transfer_delegation_after(
    accounts: List,
    delegate: Pubkey,
    answers: Seq<CallOutcome>,
) -> FlowStep
    decreases answers.len(),
{
    if answers.len() == 0 {
        transfer_delegation_step(accounts, delegate, None)
    } else {
        match transfer_delegation_after(accounts, delegate, answers.drop_last()) {
            FlowStep::Call(_, stage) => transfer_delegation_step(
                accounts,
                delegate,
                Some((stage, answers.last())),
            ),
            other => other,
        }
    }
}

/// The step that the freeze delegation reaches when its calls are answered, in
/// order, by `answers` (answers after its end change nothing).
pub open spec fn freeze_delegation_after(
    accounts: List,
    delegate: Pubkey,
    answers: Seq<CallOutcome>,
) -> FlowStep
    decreases answers.len(),
{
    if answers.len() == 0 {
        freeze_delegation_step(accounts, delegate, None)
    } else {
        match freeze_delegation_after(accounts, delegate, answers.drop_last()) {
            FlowStep::Call(_, stage) => freeze_delegation_step(
                accounts,
                delegate,
                Some((stage, answers.last())),
            ),
            other => other,
        }
    }
}

proof fn lemma_transfer_calls(accounts: List, delegate: Pubkey, answers: Seq<CallOutcome>)
    ensures
        transfer_delegation_after(accounts, delegate, answers) matches FlowStep::Call(c, s) ==> {
            ||| answers.len() == 0 && s is Approving
                && c == approve_call(accounts, delegate, PluginType::TransferDelegate)
            ||| answers.len() == 1 && s is AddingPlugin
            ||| answers.len() == 2 && s is Reapproving
                && c == approve_call(accounts, delegate, PluginType::TransferDelegate)
        },
    decreases answers.len(),
{
    if answers.len() > 0 {
        lemma_transfer_calls(accounts, delegate, answers.drop_last());
    }
}

/// The transfer delegation makes at most three calls: whatever the answers, it
/// has ended once three of its calls are answered.
pub proof fn law_transfer_delegation_ends(accounts: List, delegate: Pubkey, answers: Seq<CallOutcome>)
    requires
        answers.len() >= 3,
    ensures
        !(transfer_delegation_after(accounts, delegate, answers) is Call),
{
    lemma_transfer_calls(accounts, delegate, answers);
}

/// The transfer delegation ends successfully only right after an approval of the
/// delegate over the transfer-delegate plugin was answered with success.
pub proof fn law_transfer_delegation_done_after_approval(
    accounts: List,
    delegate: Pubkey,
    answers: Seq<CallOutcome>,
)
    ensures
        transfer_delegation_after(accounts, delegate, answers) is Done ==> exists|k: int|
            0 <= k < answers.len() && makes_call(#[trigger] transfer_delegation_after(
                accounts,
                delegate,
                answers.take(k),
            ), approve_call(
                accounts,
                delegate,
                PluginType::TransferDelegate,
            )) && answers[k] is Success,
    decreases answers.len(),
{
    if answers.len() > 0 {
        let prefix = answers.drop_last();
        let n = answers.len() - 1;
        assert(answers.take(n) =~= prefix);
        lemma_transfer_calls(accounts, delegate, prefix);
        law_transfer_delegation_done_after_approval(accounts, delegate, prefix);
        if transfer_delegation_after(accounts, delegate, answers) is Done {
            if transfer_delegation_after(accounts, delegate, prefix) is Done {
                let k = choose|k: int|
                    0 <= k < prefix.len() && makes_call(#[trigger] transfer_delegation_after(
                        accounts,
                        delegate,
                        prefix.take(k),
                    ), approve_call(
                        accounts,
                        delegate,
                        PluginType::TransferDelegate,
                    )) && prefix[k] is Success;
                assert(prefix.take(k) =~= answers.take(k));
                assert(makes_call(transfer_delegation_after(accounts, delegate, answers.take(k)), approve_call(
                    accounts,
                    delegate,
                    PluginType::TransferDelegate,
                )));
            } else {
                assert(makes_call(transfer_delegation_after(accounts, delegate, answers.take(n)), approve_call(
                    accounts,
                    delegate,
                    PluginType::TransferDelegate,
                )));
            }
        }
    }
}

proof fn lemma_freeze_calls(accounts: List, delegate: Pubkey, answers: Seq<CallOutcome>)
    ensures
        freeze_delegation_after(accounts, delegate, answers) matches FlowStep::Call(c, s) ==> {
            ||| answers.len() == 0 && s is Approving
                && c == approve_call(accounts, delegate, PluginType::FreezeDelegate)
            ||| answers.len() == 1 && s is AddingPlugin
            ||| answers.len() == 2 && s is Reapproving
                && c == approve_call(accounts, delegate, PluginType::FreezeDelegate)
            ||| (answers.len() == 1 || answers.len() == 3) && s is Freezing && c == freeze_call(
                accounts,
            ) && answers.last() is Success && makes_call(freeze_delegation_after(
                accounts,
                delegate,
                answers.drop_last(),
            ), approve_call(
                accounts,
                delegate,
                PluginType::FreezeDelegate,
            ))
        },
    decreases answers.len(),
{
    if answers.len() > 0 {
        lemma_freeze_calls(accounts, delegate, answers.drop_last());
    }
}

/// The freeze delegation makes at most four calls: whatever the answers, it has
/// ended once four of its calls are answered.
pub proof fn law_freeze_delegation_ends(accounts: List, delegate: Pubkey, answers: Seq<CallOutcome>)
    requires
        answers.len() >= 4,
    ensures
        !(freeze_delegation_after(accounts, delegate, answers) is Call),
{
    lemma_freeze_calls(accounts, delegate, answers);
}

/// The freeze delegation ends successfully only when an approval of the delegate
/// over the freeze-delegate plugin was answered with success, and the freeze
/// that followed it was answered with success too.
pub proof fn law_freeze_delegation_done_after_freeze(
    accounts: List,
    delegate: Pubkey,
    answers: Seq<CallOutcome>,
)
    ensures
        freeze_delegation_after(accounts, delegate, answers) is Done ==> exists|k: int|
            0 <= k && k + 1 < answers.len() && makes_call(#[trigger] freeze_delegation_after(
                accounts,
                delegate,
                answers.take(k),
            ), approve_call(
                accounts,
                delegate,
                PluginType::FreezeDelegate,
            )) && answers[k] is Success && freeze_delegation_after(
                accounts,
                delegate,
                answers.take(k + 1),
            ) == FlowStep::Call(freeze_call(accounts), DelegationStage::Freezing)
                && answers[k + 1] is Success,
    decreases answers.len(),
{
    if answers.len() > 0 {
        let prefix = answers.drop_last();
        let n = answers.len() - 1;
        assert(answers.take(n) =~= prefix);
        lemma_freeze_calls(accounts, delegate, prefix);
        law_freeze_delegation_done_after_freeze(accounts, delegate, prefix);
        if freeze_delegation_after(accounts, delegate, answers) is Done {
            if freeze_delegation_after(accounts, delegate, prefix) is Done {
                let k = choose|k: int|
                    0 <= k && k + 1 < prefix.len() && makes_call(#[trigger] freeze_delegation_after(
                        accounts,
                        delegate,
                        prefix.take(k),
                    ), approve_call(
                        accounts,
                        delegate,
                        PluginType::FreezeDelegate,
                    )) && prefix[k] is Success && freeze_delegation_after(
                        accounts,
                        delegate,
                        prefix.take(k + 1),
                    ) == FlowStep::Call(freeze_call(accounts), DelegationStage::Freezing)
                        && prefix[k + 1] is Success;
                assert(prefix.take(k) =~= answers.take(k));
                assert(prefix.take(k + 1) =~= answers.take(k + 1));
                assert(makes_call(freeze_delegation_after(accounts, delegate, answers.take(k)), approve_call(
                    accounts,
                    delegate,
                    PluginType::FreezeDelegate,
                )));
            } else {
                let k = n - 1;
                assert(prefix.drop_last() =~= answers.take(k));
                assert(makes_call(freeze_delegation_after(accounts, delegate, answers.take(k)), approve_call(
                    accounts,
                    delegate,
                    PluginType::FreezeDelegate,
                )));
            }
        }
    }
}

/// The transfer delegation fails only with the error of one of its calls: it
/// ends with `Propagate` only after a call was answered with a failure.
pub proof fn law_transfer_delegation_fails_on_failure(
    accounts: List,
    delegate: Pubkey,
    answers: Seq<CallOutcome>,
)
    ensures
        transfer_delegation_after(accounts, delegate, answers) is Propagate ==> exists|k: int|
            0 <= k < answers.len() && !(#[trigger] answers[k] is Success),
    decreases answers.len(),
{
    if answers.len() > 0 {
        let prefix = answers.drop_last();
        lemma_transfer_calls(accounts, delegate, prefix);
        law_transfer_delegation_fails_on_failure(accounts, delegate, prefix);
        if transfer_delegation_after(accounts, delegate, answers) is Propagate {
            if transfer_delegation_after(accounts, delegate, prefix) is Propagate {
                let k = choose|k: int| 0 <= k < prefix.len() && !(#[trigger] prefix[k] is Success);
                assert(answers[k] == prefix[k]);
            } else {
                assert(!(answers[answers.len() - 1] is Success));
            }
        }
    }
}

/// The freeze delegation fails only with the error of one of its calls: it ends
/// with `Propagate` only after a call was answered with a failure.
pub proof fn law_freeze_delegation_fails_on_failure(
    accounts: List,
    delegate: Pubkey,
    answers: Seq<CallOutcome>,
)
    ensures
        freeze_delegation_after(accounts, delegate, answers) is Propagate ==> exists|k: int|
            0 <= k < answers.len() && !(#[trigger] answers[k] is Success),
    decreases answers.len(),
{
    if answers.len() > 0 {
        let prefix = answers.drop_last();
        law_freeze_delegation_fails_on_failure(accounts, delegate, prefix);
        if freeze_delegation_after(accounts, delegate, answers) is Propagate {
            if freeze_delegation_after(accounts, delegate, prefix) is Propagate {
                let k = choose|k: int| 0 <= k < prefix.len() && !(#[trigger] prefix[k] is Success);
                assert(answers[k] == prefix[k]);
            } else {
                assert(!(answers[answers.len() - 1] is Success));
            }
        }
    }
}

/* ------------------------- the listing's delegations ------------------------- */

/// The step that a new listing's delegations reach when their calls are
/// answered, in order, by `answers` (answers after their end change nothing).
pub open spec fn list_delegations_after(accounts: List, answers: Seq<CallOutcome>) -> ListStep
    decreases answers.len(),
{
    if answers.len() == 0 {
        list_start_step(accounts)
    } else {
        match list_delegations_after(accounts, answers.drop_last()) {
            ListStep::Call(_, at) => list_next_step(at, answers.last()),
            other => other,
        }
    }
}

proof fn lemma_transfer_after_ended(
    accounts: List,
    delegate: Pubkey,
    answers: Seq<CallOutcome>,
    n: int,
)
    requires
        0 <= n <= answers.len(),
        !(transfer_delegation_after(accounts, delegate, answers.take(n)) is Call),
    ensures
        transfer_delegation_after(accounts, delegate, answers) == transfer_delegation_after(
            accounts,
            delegate,
            answers.take(n),
        ),
    decreases answers.len() - n,
{
    if n == answers.len() {
        assert(answers.take(n) =~= answers);
    } else {
        let prefix = answers.drop_last();
        assert(prefix.take(n) =~= answers.take(n));
        lemma_transfer_after_ended(accounts, delegate, prefix, n);
    }
}

/// A new listing's delegations run in order: the transfer delegation alone, on
/// the first answers, until it is done (a failure of it ends everything with its
/// error); once it is done, after `n` answers, the freeze delegation runs on the
/// answers that follow. Both delegate to the listing account.
pub proof fn law_list_delegations_in_order(accounts: List, answers: Seq<CallOutcome>, n: int)
    ensures
        !(transfer_delegation_after(accounts, accounts.listing_key, answers) is Done)
            ==> list_delegations_after(accounts, answers) == in_phase(
            accounts,
            ListPhase::DelegatingTransfer,
            transfer_delegation_after(accounts, accounts.listing_key, answers),
        ),
        0 < n <= answers.len() && transfer_delegation_after(
            accounts,
            accounts.listing_key,
            answers.take(n),
        ) is Done && transfer_delegation_after(
            accounts,
            accounts.listing_key,
            answers.take(n - 1),
        ) is Call ==> list_delegations_after(accounts, answers) == in_phase(
            accounts,
            ListPhase::DelegatingFreeze,
            freeze_delegation_after(accounts, accounts.listing_key, answers.skip(n)),
        ),
    decreases answers.len(),
{
    let key = accounts.listing_key;
    if answers.len() > 0 {
        let len = answers.len() as int;
        let prefix = answers.drop_last();
        assert(answers.take(len) =~= answers);
        assert(answers.take(len - 1) =~= prefix);
        if 0 <= n < len {
            assert(prefix.take(n) =~= answers.take(n));
        }
        if 0 < n && n - 1 < len {
            assert(prefix.take(n - 1) =~= answers.take(n - 1));
        }
        law_list_delegations_in_order(accounts, prefix, n);
        match transfer_delegation_after(accounts, key, prefix) {
            FlowStep::Call(_, _) => {
                if 0 < n < len && transfer_delegation_after(accounts, key, answers.take(n)) is Done {
                    lemma_transfer_after_ended(accounts, key, prefix, n);
                }
                if n == len {
                    assert(answers.skip(n) =~= Seq::<CallOutcome>::empty());
                }
            },
            _ => {
                if 0 < n <= len && transfer_delegation_after(accounts, key, answers.take(n)) is Done
                    && transfer_delegation_after(accounts, key, answers.take(n - 1)) is Call {
                    assert(n < len);
                    assert(answers.skip(n).drop_last() =~= prefix.skip(n));
                }
            },
        }
    }
}

/// The listing account is approved as the delegate.
pub open spec fn approves_delegate(c: CpiCall, delegate: Pubkey) -> bool {
    c matches CpiCall::ApprovePluginAuthority { new_authority, .. } ==> new_authority
        == (PluginAuthority::Address { address: delegate })
}

/// A plugin update is signed with these listing seeds.
pub open spec fn signed_with(c: CpiCall, signer: ListingSigner) -> bool {
    c matches CpiCall::UpdatePlugin { signer: s, .. } ==> s == signer
}

/// The calls of a new listing's delegations are: approvals of the listing
/// account over the transfer and freeze delegates, the additions of these
/// plugins, and the freeze, signed by the listing account.
pub proof fn law_list_delegation_calls(accounts: List, answers: Seq<CallOutcome>)
    ensures
        list_delegations_after(accounts, answers) matches ListStep::Call(c, at) ==> {
            &&& at.accounts == accounts
            &&& {
                ||| c == approve_call(accounts, accounts.listing_key, PluginType::TransferDelegate)
                ||| c == add_call(accounts, DelegatePlugin::TransferDelegate)
                ||| c == approve_call(accounts, accounts.listing_key, PluginType::FreezeDelegate)
                ||| c == add_call(accounts, DelegatePlugin::FreezeDelegate { frozen: false })
                ||| c == freeze_call(accounts)
            }
        },
    decreases answers.len(),
{
    if answers.len() > 0 {
        law_list_delegation_calls(accounts, answers.drop_last());
    }
}

/// After a successful `list`, every approval in the delegations names the new
/// listing account as the delegate, and the freeze is signed with the seeds of
/// the listing just written: the listing seed, the asset, the listing's bump.
pub proof fn law_list_freeze_signed_by_new_listing(
    accounts: List,
    price_lamports: u64,
    answers: Seq<CallOutcome>,
)
    requires
        list_error(accounts, price_lamports) is None,
    ensures
        list_delegations_after(after_list(accounts, price_lamports), answers) matches ListStep::Call(
            c,
            _,
        ) ==> approves_delegate(c, accounts.listing_key) && signed_with(
            c,
            ListingSigner { asset: accounts.asset, bump: accounts.listing_bump },
        ),
{
    law_list_delegation_calls(after_list(accounts, price_lamports), answers);
}

} // verus!

verus! {

/* ------------------------- payments ------------------------- */

/// The lamports that the calls move out of `payer`'s account.
pub open spec fn lamports_paid_by(calls: Seq<CpiCall>, payer: Pubkey) -> int
    decreases calls.len(),
{
    if calls.len() == 0 {
        0
    } else {
        lamports_paid_by(calls.drop_last(), payer) + match calls.last() {
            CpiCall::TransferSol { from, lamports, .. } => if from == payer {
                lamports as int
            } else {
                0
            },
            _ => 0,
        }
    }
}

/// The system-program transfers among the calls: (from, to, lamports), in order.
pub open spec fn sol_transfers(calls: Seq<CpiCall>) -> Seq<(Pubkey, Pubkey, u64)>
    decreases calls.len(),
{
    if calls.len() == 0 {
        seq![]
    } else {
        sol_transfers(calls.drop_last()) + match calls.last() {
            CpiCall::TransferSol { from, to, lamports } => seq![(from, to, lamports)],
            _ => Seq::<(Pubkey, Pubkey, u64)>::empty(),
        }
    }
}

/// A purchase moves exactly two payments, both from the buyer: the platform fee
/// to the treasury, then the price to the seller; the buyer pays price + fee.
pub proof fn law_buyer_pays_price_plus_fee(accounts: Buy)
    requires
        buy_error(accounts) is None,
    ensures
        sol_transfers(buy_calls(accounts)) == seq![
            (accounts.buyer, accounts.treasury, accounts.config.platform_fee_lamports),
            (accounts.buyer, accounts.seller, accounts.listing.price_lamports),
        ],
        lamports_paid_by(buy_calls(accounts), accounts.buyer) == accounts.listing.price_lamports
            + accounts.config.platform_fee_lamports,
{
    let calls = buy_calls(accounts);
    reveal_with_fuel(sol_transfers, 7);
    reveal_with_fuel(lamports_paid_by, 7);
    assert(calls.drop_last().drop_last().drop_last().drop_last().drop_last().drop_last()
        =~= Seq::<CpiCall>::empty());
    assert(sol_transfers(calls) =~= seq![
        (accounts.buyer, accounts.treasury, accounts.config.platform_fee_lamports),
        (accounts.buyer, accounts.seller, accounts.listing.price_lamports),
    ]);
}

/* ------------------------- thaw first ------------------------- */

/// The call thaws the asset.
pub open spec fn is_thaw(c: CpiCall) -> bool {
    c matches CpiCall::UpdatePlugin { plugin, .. } && plugin == (DelegatePlugin::FreezeDelegate {
        frozen: false,
    })
}

/// Every call that revokes a delegate or moves the asset comes after a thaw.
pub open spec fn thawed_first(calls: Seq<CpiCall>) -> bool {
    forall|j: int|
        0 <= j < calls.len() && (calls[j] is RevokePluginAuthority || calls[j] is TransferAsset)
            ==> exists|i: int| 0 <= i < j && #[trigger] is_thaw(calls[i])
}

/// Cancelling and buying thaw the asset before they revoke its delegates (a
/// frozen asset's freeze delegate cannot be revoked) or transfer it.
pub proof fn law_thaw_before_revoke(cancel: Cancel, buy: Buy)
    ensures
        thawed_first(cancel_calls(cancel)),
        thawed_first(buy_calls(buy)),
{
    assert(is_thaw(cancel_calls(cancel)[0]));
    assert(is_thaw(buy_calls(buy)[2]));
}

/* ------------------------- listing lifecycle ------------------------- */

/// A listing that `list` wrote is active, at the given price, for the signing seller.
pub proof fn law_list_activates(accounts: List, price_lamports: u64)
    requires
        list_error(accounts, price_lamports) is None,
    ensures
        listed(accounts, price_lamports).active,
        listed(accounts, price_lamports).price_lamports == price_lamports,
        listed(accounts, price_lamports).seller == accounts.seller,
        listed(accounts, price_lamports).asset == accounts.asset,
{
}

/// An active listing cannot be listed again.
pub proof fn law_no_relisting(accounts: List, price_lamports: u64, again: u64)
    requires
        list_error(accounts, price_lamports) is None,
        again > 0,
    ensures
        list_error(List { listing: listed(accounts, price_lamports), ..accounts }, again)
            == Some(MarketplaceError::AlreadyListed),
{
}

/// A listing that `list` wrote can be bought by anyone who names its seller, and
/// the buyer then pays the listed price plus the platform fee.
pub proof fn law_listed_can_be_bought(accounts: List, price_lamports: u64, buy: Buy)
    requires
        list_error(accounts, price_lamports) is None,
        buy.listing == listed(accounts, price_lamports),
        buy.seller == accounts.seller,
    ensures
        buy_error(buy) is None,
        lamports_paid_by(buy_calls(buy), buy.buyer) == price_lamports
            + buy.config.platform_fee_lamports,
{
    law_buyer_pays_price_plus_fee(buy);
}

/// A bought listing is inactive: buying it again is refused as not listed, and
/// cancelling it does nothing.
pub proof fn law_bought_is_closed(buy: Buy, again: Buy, cancel: Cancel)
    requires
        buy_error(buy) is None,
        again.listing == deactivated(buy.listing),
        cancel.listing == deactivated(buy.listing),
    ensures
        buy_error(again) == Some(MarketplaceError::NotListed),
        cancel_error(cancel) is None,
        !cancel.listing.active,
{
}

/// A cancelled listing is inactive: it cannot be bought, and cancelling it again
/// succeeds without any call.
pub proof fn law_cancelled_is_closed(cancel: Cancel, buy: Buy, again: Cancel)
    requires
        cancel_error(cancel) is None,
        buy.listing == deactivated(cancel.listing),
        again.listing == deactivated(cancel.listing),
    ensures
        buy_error(buy) == Some(MarketplaceError::NotListed),
        cancel_error(again) is None,
        !again.listing.active,
{
}

/// Of an active listing, only its seller can cancel it.
pub proof fn law_only_seller_cancels(cancel: Cancel)
    requires
        cancel.listing.active,
    ensures
        cancel_error(cancel) is None <==> cancel.listing.seller@ == cancel.seller@,
{
}

/// A listing is never active at price zero.
pub open spec fn listing_well_formed(listing: Listing) -> bool {
    listing.active ==> listing.price_lamports > 0
}

/// Listing, cancelling and buying keep every listing well formed: `list` writes
/// an active listing only at a positive price, and `cancel` and `buy` leave it
/// inactive.
pub proof fn law_listings_stay_well_formed(accounts: List, price_lamports: u64, cancel: Cancel, buy: Buy)
    requires
        listing_well_formed(accounts.listing),
        listing_well_formed(cancel.listing),
        listing_well_formed(buy.listing),
    ensures
        list_error(accounts, price_lamports) is None ==> listing_well_formed(
            listed(accounts, price_lamports),
        ),
        cancel_error(cancel) is None ==> listing_well_formed(deactivated(cancel.listing)),
        buy_error(buy) is None ==> listing_well_formed(deactivated(buy.listing)),
{
}

/* ------------------------- what each instruction is for ------------------------- */

/// The attributes of the first plugin, as (key, value) texts; none if it is not
/// the attributes plugin.
pub open spec fn attribute_entries(plugins: Seq<PluginAuthorityPair>) -> Seq<(Seq<char>, Seq<char>)> {
    match plugins[0].plugin {
        Plugin::Attributes { attribute_list } => attribute_list@.map_values(
            |a: Attribute| (a.key@, a.value@),
        ),
        _ => Seq::empty(),
    }
}

/// A minted asset records its minter first, and, whenever a type is given, the
/// attribute ("type", t), whatever the royalties.
pub proof fn law_mint_records_minter_and_type(
    plugins: Seq<PluginAuthorityPair>,
    minter_text: Seq<char>,
    optional_type: Option<Seq<char>>,
    royalties_bps: Option<u16>,
    creators: Seq<CreatorInput>,
)
    requires
        plugins_are(plugins, minter_text, optional_type, royalties_bps, creators),
    ensures
        attribute_entries(plugins).len() >= 1,
        attribute_entries(plugins)[0] == ("minter"@, minter_text),
        optional_type matches Some(t) ==> attribute_entries(plugins).contains(("type"@, t)),
        optional_type is None ==> attribute_entries(plugins).len() == 1,
{
    if let Some(t) = optional_type {
        assert(attribute_entries(plugins)[1] == ("type"@, t));
    }
}

/// The attributes of a minted asset depend on the minter and the type alone: not
/// on the royalties or the creators.
pub proof fn law_mint_attributes_ignore_royalties(
    first: Seq<PluginAuthorityPair>,
    second: Seq<PluginAuthorityPair>,
    minter_text: Seq<char>,
    optional_type: Option<Seq<char>>,
    first_bps: Option<u16>,
    first_creators: Seq<CreatorInput>,
    second_bps: Option<u16>,
    second_creators: Seq<CreatorInput>,
)
    requires
        plugins_are(first, minter_text, optional_type, first_bps, first_creators),
        plugins_are(second, minter_text, optional_type, second_bps, second_creators),
    ensures
        attribute_entries(first) == attribute_entries(second),
{
    assert(attribute_entries(first) =~= attribute_entries(second));
}

/// A minted asset has the transfer and the freeze delegates (owner-managed, not
/// frozen), and a royalties plugin exactly when a rate is given: immutable, at
/// that rate, paying the given creators their given shares, in order.
pub proof fn law_mint_delegates_and_royalties(
    plugins: Seq<PluginAuthorityPair>,
    minter_text: Seq<char>,
    optional_type: Option<Seq<char>>,
    royalties_bps: Option<u16>,
    creators: Seq<CreatorInput>,
)
    requires
        plugins_are(plugins, minter_text, optional_type, royalties_bps, creators),
    ensures
        exists|i: int| 0 <= i < plugins.len() && #[trigger] plugins[i].plugin is TransferDelegate
            && plugins[i].authority is None,
        exists|i: int| 0 <= i < plugins.len() && #[trigger] plugins[i].plugin == (Plugin::FreezeDelegate {
            frozen: false,
        }) && plugins[i].authority is None,
        royalties_bps is None ==> forall|i: int|
            0 <= i < plugins.len() ==> !(#[trigger] plugins[i].plugin is Royalties),
        royalties_bps matches Some(bps) ==> {
            &&& plugins.last().authority == Some(PluginAuthority::NoAuthority)
            &&& plugins.last().plugin matches Plugin::Royalties { basis_points, creators: paid, .. }
                && basis_points == bps && paid@.len() == creators.len() && forall|k: int|
                0 <= k < creators.len() ==> (#[trigger] paid@[k]).address == creators[k].address
                    && paid@[k].percentage == creators[k].percentage
        },
{
    assert(plugins[1].plugin is TransferDelegate);
    assert(plugins[2].plugin == (Plugin::FreezeDelegate { frozen: false }));
}

/// Royalties are accepted only when the creators' shares add up to exactly 100,
/// however many creators there are; the sum is the only condition on them.
pub proof fn law_mint_royalty_shares_total_100(
    name: Seq<char>,
    uri: Seq<char>,
    optional_type: Option<Seq<char>>,
    bps: u16,
    creators: Seq<CreatorInput>,
)
    ensures
        mint_asset_error(name, uri, optional_type, Some(bps), creators) is None
            ==> percentage_total(creators) == 100,
        utf8_len(name) <= 64 && utf8_len(uri) <= 200 && (optional_type matches Some(t)
            ==> utf8_len(t) <= 32) && bps <= 10_000 && percentage_total(creators) == 100
            ==> mint_asset_error(name, uri, optional_type, Some(bps), creators) is None,
        mint_asset_error(name, uri, optional_type, None, creators) is None <==> utf8_len(name)
            <= 64 && utf8_len(uri) <= 200 && (optional_type matches Some(t) ==> utf8_len(t) <= 32),
{
}

/// Any positive price lists an inactive listing, at that price, for the signing
/// seller; only a zero price and an active listing are refused.
pub proof fn law_list_accepts_any_positive_price(accounts: List, price_lamports: u64)
    ensures
        list_error(accounts, price_lamports) is None <==> price_lamports > 0
            && !accounts.listing.active,
        list_error(accounts, price_lamports) == Some(MarketplaceError::BadPrice) <==> price_lamports
            == 0,
        price_lamports > 0 && !accounts.listing.active ==> after_list(accounts, price_lamports).listing
            == (Listing {
            asset: accounts.asset,
            seller: accounts.seller,
            price_lamports,
            active: true,
            bump: accounts.listing_bump,
        }),
{
}

/// The number of calls that transfer `asset` to `new_owner`.
pub open spec fn asset_transfers_to(calls: Seq<CpiCall>, asset: Pubkey, new_owner: Pubkey) -> nat
    decreases calls.len(),
{
    if calls.len() == 0 {
        0
    } else {
        asset_transfers_to(calls.drop_last(), asset, new_owner) + if calls.last() matches CpiCall::TransferAsset {
            asset: a,
            new_owner: o,
            ..
        } && a == asset && o == new_owner {
            1nat
        } else {
            0nat
        }
    }
}

/// The number of calls that transfer an asset, to anyone.
pub open spec fn asset_transfers(calls: Seq<CpiCall>) -> nat
    decreases calls.len(),
{
    if calls.len() == 0 {
        0
    } else {
        asset_transfers(calls.drop_last()) + if calls.last() is TransferAsset {
            1nat
        } else {
            0nat
        }
    }
}

/// The number of calls that give the authority over `plugin_type` of `asset`
/// back, with `authority` signing.
pub open spec fn revokes(
    calls: Seq<CpiCall>,
    asset: Pubkey,
    authority: Pubkey,
    plugin_type: PluginType,
) -> nat
    decreases calls.len(),
{
    if calls.len() == 0 {
        0
    } else {
        revokes(calls.drop_last(), asset, authority, plugin_type) + if calls.last() matches CpiCall::RevokePluginAuthority {
            asset: a,
            authority: au,
            plugin_type: t,
            ..
        } && a == asset && au == authority && t == plugin_type {
            1nat
        } else {
            0nat
        }
    }
}

/// The number of calls that give a plugin's authority back, of any asset, to anyone.
pub open spec fn all_revokes(calls: Seq<CpiCall>) -> nat
    decreases calls.len(),
{
    if calls.len() == 0 {
        0
    } else {
        all_revokes(calls.drop_last()) + if calls.last() is RevokePluginAuthority {
            1nat
        } else {
            0nat
        }
    }
}

/// A purchase transfers the listed asset exactly once, to the buyer, and to no
/// one else; it gives each delegate back once, to the buyer. It goes through
/// exactly when the listing is active and the seller account is its seller.
pub proof fn law_buyer_gets_the_asset(accounts: Buy)
    ensures
        buy_error(accounts) is None <==> accounts.listing.active && accounts.listing.seller@
            == accounts.seller@,
        buy_error(accounts) is None ==> {
            &&& asset_transfers_to(buy_calls(accounts), accounts.asset, accounts.buyer) == 1
            &&& asset_transfers(buy_calls(accounts)) == 1
            &&& revokes(
                buy_calls(accounts),
                accounts.asset,
                accounts.buyer,
                PluginType::TransferDelegate,
            ) == 1
            &&& revokes(
                buy_calls(accounts),
                accounts.asset,
                accounts.buyer,
                PluginType::FreezeDelegate,
            ) == 1
            &&& all_revokes(buy_calls(accounts)) == 2
        },
{
    reveal_with_fuel(asset_transfers_to, 7);
    reveal_with_fuel(asset_transfers, 7);
    reveal_with_fuel(revokes, 7);
    reveal_with_fuel(all_revokes, 7);
    let calls = buy_calls(accounts);
    assert(calls.drop_last().drop_last().drop_last().drop_last().drop_last().drop_last()
        =~= Seq::<CpiCall>::empty());
}

/// Cancelling an active listing gives each of the two delegates, transfer and
/// freeze, back to the seller exactly once, and revokes nothing else.
pub proof fn law_cancel_revokes_both_delegates(accounts: Cancel)
    requires
        accounts.listing.active,
        cancel_error(accounts) is None,
    ensures
        revokes(
            cancel_calls(accounts),
            accounts.asset,
            accounts.seller,
            PluginType::TransferDelegate,
        ) == 1,
        revokes(cancel_calls(accounts), accounts.asset, accounts.seller, PluginType::FreezeDelegate)
            == 1,
        all_revokes(cancel_calls(accounts)) == 2,
        asset_transfers(cancel_calls(accounts)) == 0,
{
    reveal_with_fuel(revokes, 4);
    reveal_with_fuel(all_revokes, 4);
    reveal_with_fuel(asset_transfers, 4);
    let calls = cancel_calls(accounts);
    assert(calls.drop_last().drop_last().drop_last() =~= Seq::<CpiCall>::empty());
}

/// An active listing may be cancelled only by its seller; an inactive one by
/// anyone (it is only closed).
pub proof fn law_cancel_refused_only_to_others(accounts: Cancel)
    ensures
        cancel_error(accounts) is None <==> !accounts.listing.active || accounts.listing.seller@
            == accounts.seller@,
        cancel_error(accounts) is Some ==> cancel_error(accounts) == Some(
            MarketplaceError::NotSeller,
        ),
{
}

/// The thaw of a cancel or a purchase is of the listed asset, with the listing
/// account as authority, signed with the listing's seeds (its asset and bump),
/// paid by the signer of the instruction.
pub proof fn law_thaw_is_signed_by_listing(cancel: Cancel, buy: Buy)
    ensures
        cancel_calls(cancel)[0] == (CpiCall::UpdatePlugin {
            asset: cancel.asset,
            collection: None,
            payer: cancel.seller,
            authority: cancel.listing_key,
            plugin: DelegatePlugin::FreezeDelegate { frozen: false },
            signer: ListingSigner { asset: cancel.listing.asset, bump: cancel.listing.bump },
        }),
        buy_calls(buy)[2] == (CpiCall::UpdatePlugin {
            asset: buy.asset,
            collection: None,
            payer: buy.buyer,
            authority: buy.listing_key,
            plugin: DelegatePlugin::FreezeDelegate { frozen: false },
            signer: ListingSigner { asset: buy.listing.asset, bump: buy.listing.bump },
        }),
        buy_calls(buy)[3] matches CpiCall::TransferAsset { authority, signer, .. } && authority
            == buy.listing_key && signer == (ListingSigner {
            asset: buy.listing.asset,
            bump: buy.listing.bump,
        }),
{
}

/// A type is given and is longer than `limit` bytes.
pub open spec fn type_longer_than(optional_type: Option<Seq<char>>, limit: nat) -> bool {
    match optional_type {
        Some(t) => utf8_len(t) > limit,
        None => false,
    }
}

/// A royalty rate is given and is above `limit`.
pub open spec fn rate_above(royalties_bps: Option<u16>, limit: u16) -> bool {
    match royalties_bps {
        Some(bps) => bps > limit,
        None => false,
    }
}

/// Of several faults in a mint, the first in this order is reported: the name
/// (over 64 bytes), the URI (over 200 bytes), the type (over 32 bytes), the
/// royalty rate (over 10,000 basis points), the creators' shares (not totalling 100).
pub proof fn law_mint_error_order(
    name: Seq<char>,
    uri: Seq<char>,
    optional_type: Option<Seq<char>>,
    royalties_bps: Option<u16>,
    creators: Seq<CreatorInput>,
)
    ensures
        utf8_len(name) > 64 ==> mint_asset_error(name, uri, optional_type, royalties_bps, creators)
            == Some(MarketplaceError::NameTooLong),
        utf8_len(name) <= 64 && utf8_len(uri) > 200 ==> mint_asset_error(
            name,
            uri,
            optional_type,
            royalties_bps,
            creators,
        ) == Some(MarketplaceError::UriTooLong),
        utf8_len(name) <= 64 && utf8_len(uri) <= 200 && type_longer_than(optional_type, 32)
            ==> mint_asset_error(name, uri, optional_type, royalties_bps, creators) == Some(
            MarketplaceError::TypeTooLong,
        ),
        utf8_len(name) <= 64 && utf8_len(uri) <= 200 && !type_longer_than(optional_type, 32)
            && rate_above(royalties_bps, 10_000) ==> mint_asset_error(
            name,
            uri,
            optional_type,
            royalties_bps,
            creators,
        ) == Some(MarketplaceError::BadRoyaltiesBps),
        utf8_len(name) <= 64 && utf8_len(uri) <= 200 && !type_longer_than(optional_type, 32)
            && royalties_bps is Some && !rate_above(royalties_bps, 10_000) && percentage_total(
            creators,
        ) != 100 ==> mint_asset_error(name, uri, optional_type, royalties_bps, creators) == Some(
            MarketplaceError::BadCreatorPercentages,
        ),
{
}

/// How each delegation answers each outcome, for the listing account `delegate`:
/// an approval that succeeds ends the transfer delegation and leads to the freeze;
/// one refused as "plugin not found" (Core's error 0x4) leads to adding the
/// plugin, and any other refusal ends with that error; an addition that succeeds
/// or finds the plugin already there (Core's error 0xF) leads to approving again,
/// any other failure ends with it; the second approval and the freeze end the
/// delegation when they succeed and with their error otherwise.
pub proof fn law_delegation_answers(accounts: List, delegate: Pubkey, outcome: CallOutcome)
    ensures
        transfer_delegation_step(accounts, delegate, None) == FlowStep::Call(
            approve_call(accounts, delegate, PluginType::TransferDelegate),
            DelegationStage::Approving,
        ),
        freeze_delegation_step(accounts, delegate, None) == FlowStep::Call(
            approve_call(accounts, delegate, PluginType::FreezeDelegate),
            DelegationStage::Approving,
        ),
        transfer_delegation_step(accounts, delegate, Some((DelegationStage::Approving, outcome)))
            == if outcome == CallOutcome::Success {
            FlowStep::Done
        } else if outcome == CallOutcome::Custom(0x4) {
            FlowStep::Call(
                add_call(accounts, DelegatePlugin::TransferDelegate),
                DelegationStage::AddingPlugin,
            )
        } else {
            FlowStep::Propagate
        },
        freeze_delegation_step(accounts, delegate, Some((DelegationStage::Approving, outcome)))
            == if outcome == CallOutcome::Success {
            FlowStep::Call(freeze_call(accounts), DelegationStage::Freezing)
        } else if outcome == CallOutcome::Custom(0x4) {
            FlowStep::Call(
                add_call(accounts, DelegatePlugin::FreezeDelegate { frozen: false }),
                DelegationStage::AddingPlugin,
            )
        } else {
            FlowStep::Propagate
        },
        transfer_delegation_step(accounts, delegate, Some((DelegationStage::AddingPlugin, outcome)))
            == if outcome == CallOutcome::Success || outcome == CallOutcome::Custom(0xF) {
            FlowStep::Call(
                approve_call(accounts, delegate, PluginType::TransferDelegate),
                DelegationStage::Reapproving,
            )
        } else {
            FlowStep::Propagate
        },
        freeze_delegation_step(accounts, delegate, Some((DelegationStage::AddingPlugin, outcome)))
            == if outcome == CallOutcome::Success || outcome == CallOutcome::Custom(0xF) {
            FlowStep::Call(
                approve_call(accounts, delegate, PluginType::FreezeDelegate),
                DelegationStage::Reapproving,
            )
        } else {
            FlowStep::Propagate
        },
        transfer_delegation_step(accounts, delegate, Some((DelegationStage::Reapproving, outcome)))
            == if outcome == CallOutcome::Success {
            FlowStep::Done
        } else {
            FlowStep::Propagate
        },
        freeze_delegation_step(accounts, delegate, Some((DelegationStage::Reapproving, outcome)))
            == if outcome == CallOutcome::Success {
            FlowStep::Call(freeze_call(accounts), DelegationStage::Freezing)
        } else {
            FlowStep::Propagate
        },
        freeze_delegation_step(accounts, delegate, Some((DelegationStage::Freezing, outcome)))
            == if outcome == CallOutcome::Success {
            FlowStep::Done
        } else {
            FlowStep::Propagate
        },
        approve_call(accounts, delegate, PluginType::TransferDelegate) == (CpiCall::ApprovePluginAuthority {
            asset: accounts.asset,
            collection: None,
            payer: accounts.seller,
            authority: accounts.seller,
            plugin_type: PluginType::TransferDelegate,
            new_authority: PluginAuthority::Address { address: delegate },
        }),
        approve_call(accounts, delegate, PluginType::FreezeDelegate) == (CpiCall::ApprovePluginAuthority {
            asset: accounts.asset,
            collection: None,
            payer: accounts.seller,
            authority: accounts.seller,
            plugin_type: PluginType::FreezeDelegate,
            new_authority: PluginAuthority::Address { address: delegate },
        }),
        freeze_call(accounts) == (CpiCall::UpdatePlugin {
            asset: accounts.asset,
            collection: None,
            payer: accounts.seller,
            authority: accounts.listing_key,
            plugin: DelegatePlugin::FreezeDelegate { frozen: true },
            signer: ListingSigner { asset: accounts.listing.asset, bump: accounts.listing.bump },
        }),
{
}

/// A listing signs with three seeds: the bytes of "listing", the asset's key and
/// the listing's bump.
pub proof fn law_listing_seeds(signer: ListingSigner)
    ensures
        listing_seeds_spec(signer) == seq![
            seq![108u8, 105u8, 115u8, 116u8, 105u8, 110u8, 103u8],
            signer.asset@,
            seq![signer.bump],
        ],
{
    assert(LISTING_SEED@ =~= seq![108u8, 105u8, 115u8, 116u8, 105u8, 110u8, 103u8]);
}

} // verus!
