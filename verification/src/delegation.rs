use vstd::prelude::*;

use crate::core_calls::{
    CallOutcome, CpiCall, DelegatePlugin, PluginAuthority, PluginType,
    CORE_ERR_PLUGIN_ALREADY_EXISTS, CORE_ERR_PLUGIN_NOT_FOUND,
};
use crate::keys::{ListingSigner, Pubkey};
use crate::marketplace::List;

verus! {

/// Where a delegation is: which call it is waiting on.
#[derive(Clone, Copy, Debug, PartialEq, Eq, Structural)]
pub enum DelegationStage {
    /// The first approval of the delegate.
    Approving,
    /// The addition of the missing plugin.
    AddingPlugin,
    /// The approval after the plugin was added.
    Reapproving,
    /// The freeze of the asset.
    Freezing,
}

/// What a delegation does next: make a call and wait on it in the given stage,
/// end successfully, or end with the error of the call it just made.
#[derive(Clone, Copy, Debug, PartialEq, Eq)]
pub enum FlowStep {
    Call(CpiCall, DelegationStage),
    Done,
    Propagate,
}

/// The seller approves `delegate` as the authority over the asset's plugin.
pub open spec fn approve_call(accounts: List, delegate: Pubkey, plugin_type: PluginType) -> CpiCall {
    CpiCall::ApprovePluginAuthority {
        asset: accounts.asset,
        collection: None,
        payer: accounts.seller,
        authority: accounts.seller,
        plugin_type,
        new_authority: PluginAuthority::Address { address: delegate },
    }
}

/// The seller adds the plugin to the asset.
pub open spec fn add_call(accounts: List, plugin: DelegatePlugin) -> CpiCall {
    CpiCall::AddPlugin {
        asset: accounts.asset,
        collection: None,
        payer: accounts.seller,
        authority: accounts.seller,
        plugin,
    }
}

/// The listing account freezes the asset, with its signature.
pub open spec fn freeze_call(accounts: List) -> CpiCall {
    CpiCall::UpdatePlugin {
        asset: accounts.asset,
        collection: None,
        payer: accounts.seller,
        authority: accounts.listing_key,
        plugin: DelegatePlugin::FreezeDelegate { frozen: true },
        signer: ListingSigner { asset: accounts.listing.asset, bump: accounts.listing.bump },
    }
}

/// Core could not find the plugin.
pub open spec fn is_plugin_not_found(o: CallOutcome) -> bool {
    o == CallOutcome::Custom(CORE_ERR_PLUGIN_NOT_FOUND)
}

/// Adding the plugin went through, or it was there already.
pub open spec fn plugin_added(o: CallOutcome) -> bool {
    o is Success || o == CallOutcome::Custom(CORE_ERR_PLUGIN_ALREADY_EXISTS)
}

/// One step of the transfer-delegate delegation: approve the delegate; if the
/// plugin is missing, add it (that it exists already is no failure) and approve again.
pub open spec fn transfer_delegation_step(
    accounts: List,
    delegate: Pubkey,
    progress: Option<(DelegationStage, CallOutcome)>,
) -> FlowStep {
    let approve = approve_call(accounts, delegate, PluginType::TransferDelegate);
    match progress {
        None => FlowStep::Call(approve, DelegationStage::Approving),
        Some((stage, outcome)) => match stage {
            DelegationStage::Approving => if outcome is Success {
                FlowStep::Done
            } else if is_plugin_not_found(outcome) {
                FlowStep::Call(
                    add_call(accounts, DelegatePlugin::TransferDelegate),
                    DelegationStage::AddingPlugin,
                )
            } else {
                FlowStep::Propagate
            },
            DelegationStage::AddingPlugin => if plugin_added(outcome) {
                FlowStep::Call(approve, DelegationStage::Reapproving)
            } else {
                FlowStep::Propagate
            },
            DelegationStage::Reapproving => if outcome is Success {
                FlowStep::Done
            } else {
                FlowStep::Propagate
            },
            DelegationStage::Freezing => FlowStep::Propagate,
        },
    }
}

/// One step of the freeze-delegate delegation: approve the delegate; if the plugin
/// is missing, add it unfrozen (that it exists already is no failure) and approve
/// again; then freeze the asset with the listing account's signature.
pub open spec fn freeze_delegation_step(
    accounts: List,
    delegate: Pubkey,
    progress: Option<(DelegationStage, CallOutcome)>,
) -> FlowStep {
    let approve = approve_call(accounts, delegate, PluginType::FreezeDelegate);
    let freeze = FlowStep::Call(freeze_call(accounts), DelegationStage::Freezing);
    match progress {
        None => FlowStep::Call(approve, DelegationStage::Approving),
        Some((stage, outcome)) => match stage {
            DelegationStage::Approving => if outcome is Success {
                freeze
            } else if is_plugin_not_found(outcome) {
                FlowStep::Call(
                    add_call(accounts, DelegatePlugin::FreezeDelegate { frozen: false }),
                    DelegationStage::AddingPlugin,
                )
            } else {
                FlowStep::Propagate
            },
            DelegationStage::AddingPlugin => if plugin_added(outcome) {
                FlowStep::Call(approve, DelegationStage::Reapproving)
            } else {
                FlowStep::Propagate
            },
            DelegationStage::Reapproving => if outcome is Success {
                freeze
            } else {
                FlowStep::Propagate
            },
            DelegationStage::Freezing => if outcome is Success {
                FlowStep::Done
            } else {
                FlowStep::Propagate
            },
        },
    }
}

fn approve(accounts: &List, delegate: &Pubkey, plugin_type: PluginType) -> (c: CpiCall)
    ensures
        c == approve_call(*accounts, *delegate, plugin_type),
{
    CpiCall::ApprovePluginAuthority {
        asset: accounts.asset,
        collection: None,
        payer: accounts.seller,
        authority: accounts.seller,
        plugin_type,
        new_authority: PluginAuthority::Address { address: *delegate },
    }
}

fn add_plugin(accounts: &List, plugin: DelegatePlugin) -> (c: CpiCall)
    ensures
        c == add_call(*accounts, plugin),
{
    CpiCall::AddPlugin {
        asset: accounts.asset,
        collection: None,
        payer: accounts.seller,
        authority: accounts.seller,
        plugin,
    }
}

fn freeze_now(accounts: &List) -> (c: CpiCall)
    ensures
        c == freeze_call(*accounts),
{
    CpiCall::UpdatePlugin {
        asset: accounts.asset,
        collection: None,
        payer: accounts.seller,
        authority: accounts.listing_key,
        plugin: DelegatePlugin::FreezeDelegate { frozen: true },
        signer: ListingSigner { asset: accounts.listing.asset, bump: accounts.listing.bump },
    }
}

fn outcome_is_plugin_not_found(o: CallOutcome) -> (b: bool)
    ensures
        b == is_plugin_not_found(o),
{
    match o {
        CallOutcome::Custom(code) => code == CORE_ERR_PLUGIN_NOT_FOUND,
        _ => false,
    }
}

fn outcome_plugin_added(o: CallOutcome) -> (b: bool)
    ensures
        b == plugin_added(o),
{
    match o {
        CallOutcome::Success => true,
        CallOutcome::Custom(code) => code == CORE_ERR_PLUGIN_ALREADY_EXISTS,
        CallOutcome::Failed => false,
    }
}

/// Delegates the asset's transfer-delegate plugin to `delegate` (the listing
/// account), one call at a time: `progress` is `None` at the start, then the
/// stage returned last with the outcome of its call.
pub fn ensure_delegated_transfer(
    accounts: &List,
    delegate: Pubkey,
    progress: Option<(DelegationStage, CallOutcome)>,
) -> (s: FlowStep)
    ensures
        s == transfer_delegation_step(*accounts, delegate, progress),
{
    match progress {
        None => FlowStep::Call(
            approve(accounts, &delegate, PluginType::TransferDelegate),
            DelegationStage::Approving,
        ),
        Some((stage, outcome)) => match stage {
            DelegationStage::Approving => {
                if outcome == CallOutcome::Success {
                    FlowStep::Done
                } else if outcome_is_plugin_not_found(outcome) {
                    FlowStep::Call(
                        add_plugin(accounts, DelegatePlugin::TransferDelegate),
                        DelegationStage::AddingPlugin,
                    )
                } else {
                    FlowStep::Propagate
                }
            },
            DelegationStage::AddingPlugin => {
                if outcome_plugin_added(outcome) {
                    FlowStep::Call(
                        approve(accounts, &delegate, PluginType::TransferDelegate),
                        DelegationStage::Reapproving,
                    )
                } else {
                    FlowStep::Propagate
                }
            },
            DelegationStage::Reapproving => {
                if outcome == CallOutcome::Success {
                    FlowStep::Done
                } else {
                    FlowStep::Propagate
                }
            },
            DelegationStage::Freezing => FlowStep::Propagate,
        },
    }
}

/// Delegates the asset's freeze-delegate plugin to `delegate` (the listing
/// account) and then freezes the asset, one call at a time: `progress` is `None`
/// at the start, then the stage returned last with the outcome of its call.
pub fn ensure_delegated_freeze_and_freeze_now(
    accounts: &List,
    delegate: Pubkey,
    progress: Option<(DelegationStage, CallOutcome)>,
) -> (s: FlowStep)
    ensures
        s == freeze_delegation_step(*accounts, delegate, progress),
{
    match progress {
        None => FlowStep::Call(
            approve(accounts, &delegate, PluginType::FreezeDelegate),
            DelegationStage::Approving,
        ),
        Some((stage, outcome)) => match stage {
            DelegationStage::Approving => {
                if outcome == CallOutcome::Success {
                    FlowStep::Call(freeze_now(accounts), DelegationStage::Freezing)
                } else if outcome_is_plugin_not_found(outcome) {
                    FlowStep::Call(
                        add_plugin(accounts, DelegatePlugin::FreezeDelegate { frozen: false }),
                        DelegationStage::AddingPlugin,
                    )
                } else {
                    FlowStep::Propagate
                }
            },
            DelegationStage::AddingPlugin => {
                if outcome_plugin_added(outcome) {
                    FlowStep::Call(
                        approve(accounts, &delegate, PluginType::FreezeDelegate),
                        DelegationStage::Reapproving,
                    )
                } else {
                    FlowStep::Propagate
                }
            },
            DelegationStage::Reapproving => {
                if outcome == CallOutcome::Success {
                    FlowStep::Call(freeze_now(accounts), DelegationStage::Freezing)
                } else {
                    FlowStep::Propagate
                }
            },
            DelegationStage::Freezing => {
                if outcome == CallOutcome::Success {
                    FlowStep::Done
                } else {
                    FlowStep::Propagate
                }
            },
        },
    }
}

/* ------------------------- the listing's delegations ------------------------- */

/// Which of the listing's two delegations is running.
#[derive(Clone, Copy, Debug, PartialEq, Eq, Structural)]
pub enum ListPhase {
    DelegatingTransfer,
    DelegatingFreeze,
}

/// Where the delegations of a new listing are: the listing's accounts (with the
/// listing as `list` wrote it), the delegation that runs and the call it waits on.
#[derive(Clone, Copy, Debug, PartialEq, Eq)]
pub struct ListDelegation {
    pub accounts: List,
    pub phase: ListPhase,
    pub stage: DelegationStage,
}

/// What the listing's delegations do next: make a call and wait on it, end
/// successfully, or end with the error of the call just made.
#[derive(Clone, Copy, Debug, PartialEq, Eq)]
pub enum ListStep {
    Call(CpiCall, ListDelegation),
    Done,
    Propagate,
}

/// A step of one delegation, as a step of the listing's delegations.
pub open spec fn in_phase(accounts: List, phase: ListPhase, step: FlowStep) -> ListStep {
    match step {
        FlowStep::Call(call, stage) => ListStep::Call(
            call,
            ListDelegation { accounts, phase, stage },
        ),
        FlowStep::Done => ListStep::Done,
        FlowStep::Propagate => ListStep::Propagate,
    }
}

/// The first call of a new listing's delegations: the transfer delegation starts,
/// with the listing account as the delegate.
pub open spec fn list_start_step(accounts: List) -> ListStep {
    in_phase(
        accounts,
        ListPhase::DelegatingTransfer,
        transfer_delegation_step(accounts, accounts.listing_key, None),
    )
}

/// The next step of a new listing's delegations, given the outcome of the call
/// made at `at`: the transfer delegation runs first; only when it is done does
/// the freeze delegation start; both delegate to the listing account.
pub open spec fn list_next_step(at: ListDelegation, outcome: CallOutcome) -> ListStep {
    let accounts = at.accounts;
    let delegate = accounts.listing_key;
    match at.phase {
        ListPhase::DelegatingTransfer => match transfer_delegation_step(
            accounts,
            delegate,
            Some((at.stage, outcome)),
        ) {
            FlowStep::Done => in_phase(
                accounts,
                ListPhase::DelegatingFreeze,
                freeze_delegation_step(accounts, delegate, None),
            ),
            step => in_phase(accounts, ListPhase::DelegatingTransfer, step),
        },
        ListPhase::DelegatingFreeze => in_phase(
            accounts,
            ListPhase::DelegatingFreeze,
            freeze_delegation_step(accounts, delegate, Some((at.stage, outcome))),
        ),
    }
}

fn step_in_phase(accounts: &List, phase: ListPhase, step: FlowStep) -> (r: ListStep)
    ensures
        r == in_phase(*accounts, phase, step),
{
    match step {
        FlowStep::Call(call, stage) => ListStep::Call(
            call,
            ListDelegation { accounts: *accounts, phase, stage },
        ),
        FlowStep::Done => ListStep::Done,
        FlowStep::Propagate => ListStep::Propagate,
    }
}

/// Starts the delegations of a listing that `list` just wrote.
pub fn list_delegation_start(accounts: &List) -> (r: ListStep)
    ensures
        r == list_start_step(*accounts),
{
    let first = ensure_delegated_transfer(accounts, accounts.listing_key, None);
    step_in_phase(accounts, ListPhase::DelegatingTransfer, first)
}

/// Continues the delegations of a new listing after the call made at `at`
/// ended with `outcome`.
pub fn list_delegation_next(at: &ListDelegation, outcome: CallOutcome) -> (r: ListStep)
    ensures
        r == list_next_step(*at, outcome),
{
    let accounts = &at.accounts;
    let delegate = accounts.listing_key;
    match at.phase {
        ListPhase::DelegatingTransfer => {
            let step = ensure_delegated_transfer(accounts, delegate, Some((at.stage, outcome)));
            match step {
                FlowStep::Done => {
                    let first = ensure_delegated_freeze_and_freeze_now(accounts, delegate, None);
                    step_in_phase(accounts, ListPhase::DelegatingFreeze, first)
                },
                _ => step_in_phase(accounts, ListPhase::DelegatingTransfer, step),
            }
        },
        ListPhase::DelegatingFreeze => {
            let step = ensure_delegated_freeze_and_freeze_now(
                accounts,
                delegate,
                Some((at.stage, outcome)),
            );
            step_in_phase(accounts, ListPhase::DelegatingFreeze, step)
        },
    }
}

} // verus!
