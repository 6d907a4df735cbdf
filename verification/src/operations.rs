use vstd::prelude::*;

use crate::addresses::{
    eth_ledger_canister, eth_ledger_text, eth_minter_canister, eth_minter_text,
    usdc_ledger_canister, usdc_ledger_text,
};
use crate::deposit::{derive_deposit_subaccount, derived_subaccount};
use crate::identity::{AccountRef, PrincipalId};

verus! {

/// An approval request as the remote ledger expects it: the source
/// sub-identity, the spender account, the amount, and the optional
/// allowance-ceiling, expiry, fee, timestamp and memo fields.
#[derive(Clone, Debug, PartialEq, Eq)]
pub struct ApproveRequest {
    pub from_subaccount: Option<Vec<u8>>,
    pub spender: String,
    pub spender_subaccount: Option<Vec<u8>>,
    pub amount: u128,
    pub expected_allowance: Option<u128>,
    pub expires_at: Option<u64>,
    pub fee: Option<u128>,
    pub memo: Option<Vec<u8>>,
    pub created_at_time: Option<u64>,
}

/// An approval together with the ledger it is dispatched to.
#[derive(Clone, Debug, PartialEq, Eq)]
pub struct ApproveCall {
    pub ledger: String,
    pub args: ApproveRequest,
}

/// A withdrawal request as the minter expects it: the ledger holding the
/// bridged token, the destination chain address, and the amount.
#[derive(Clone, Debug, PartialEq, Eq)]
pub struct WithdrawErc20Args {
    pub ckerc20_ledger: String,
    pub recipient: String,
    pub amount: u128,
}

/// A withdrawal together with the minter it is dispatched to.
#[derive(Clone, Debug, PartialEq, Eq)]
pub struct WithdrawCall {
    pub minter: String,
    pub args: WithdrawErc20Args,
}

/// A transfer request as the remote ledger expects it.
#[derive(Clone, Debug, PartialEq, Eq)]
pub struct TransferArgs {
    pub amount: u128,
    pub to_account: AccountRef,
}

/// A transfer together with the ledger it is dispatched to.
#[derive(Clone, Debug, PartialEq, Eq)]
pub struct TransferCall {
    pub ledger: String,
    pub args: TransferArgs,
}

/// A balance query: the ledger to ask and the account to ask about.
#[derive(Clone, Debug, PartialEq, Eq)]
pub struct BalanceQuery {
    pub ledger: String,
    pub account: AccountRef,
}

/// The fields every approval assembled here shares: the source sub-identity
/// is present and equal to the deposit derivation of the caller's identity,
/// the spender is the fixed minter with no sub-identity, and the optional
/// allowance-ceiling, expiry, fee, timestamp and memo fields are all absent.
pub open spec fn approve_request_wf(args: ApproveRequest, user: PrincipalId, amount: u128) -> bool {
    &&& args.from_subaccount matches Some(s) && s@ == derived_subaccount(user.bytes@)
    &&& args.spender@ == eth_minter_text()
    &&& args.spender_subaccount is None
    &&& args.amount == amount
    &&& args.expected_allowance is None
    &&& args.expires_at is None
    &&& args.fee is None
    &&& args.memo is None
    &&& args.created_at_time is None
}

fn approve_request(user: &PrincipalId, amount: u128) -> (args: ApproveRequest)
    requires
        user.wf(),
    ensures
        approve_request_wf(args, *user, amount),
{
    let from_subaccount = derive_deposit_subaccount(user);
    ApproveRequest {
        from_subaccount: Some(from_subaccount),
        spender: eth_minter_canister(),
        spender_subaccount: None,
        amount,
        expected_allowance: None,
        expires_at: None,
        fee: None,
        memo: None,
        created_at_time: None,
    }
}

/// The approval that lets the minter burn the caller's ETH-bridged funds:
/// dispatched to the fixed ETH ledger, sourced from the caller's derived
/// sub-identity, with every optional field absent.
pub fn approve_cketh_burning(user: &PrincipalId, amount: u128) -> (c: ApproveCall)
    requires
        user.wf(),
    ensures
        c.ledger@ == eth_ledger_text(),
        approve_request_wf(c.args, *user, amount),
{
    ApproveCall { ledger: eth_ledger_canister(), args: approve_request(user, amount) }
}

/// The approval that lets the minter burn the caller's USDC-bridged funds:
/// dispatched to the fixed USDC ledger, sourced from the caller's derived
/// sub-identity, with every optional field absent.
pub fn approve_usdc_burning(user: &PrincipalId, amount: u128) -> (c: ApproveCall)
    requires
        user.wf(),
    ensures
        c.ledger@ == usdc_ledger_text(),
        approve_request_wf(c.args, *user, amount),
{
    ApproveCall { ledger: usdc_ledger_canister(), args: approve_request(user, amount) }
}

/// The withdrawal of bridged USDC to an external chain address: its ledger
/// field is always the fixed USDC ledger — never caller-supplied — and it is
/// dispatched to the fixed minter.
pub fn withdraw_ckusdc_to_ethereum(amount: u128, eth_address: String) -> (c: WithdrawCall)
    ensures
        c.minter@ == eth_minter_text(),
        c.args.ckerc20_ledger@ == usdc_ledger_text(),
        c.args.recipient == eth_address,
        c.args.amount == amount,
{
    WithdrawCall {
        minter: eth_minter_canister(),
        args: WithdrawErc20Args {
            ckerc20_ledger: usdc_ledger_canister(),
            recipient: eth_address,
            amount,
        },
    }
}

/// The transfer of bridged USDC to another local identity, with no
/// sub-identity: dispatched to the fixed USDC ledger.
pub fn transfer_ckusdc_to_principal(amount: u128, to: PrincipalId) -> (c: TransferCall)
    ensures
        c.ledger@ == usdc_ledger_text(),
        c.args.amount == amount,
        c.args.to_account.owner == to,
        c.args.to_account.subaccount is None,
{
    TransferCall {
        ledger: usdc_ledger_canister(),
        args: TransferArgs { amount, to_account: AccountRef { owner: to, subaccount: None } },
    }
}

/// The balance query for a caller-supplied identity, with no sub-identity,
/// against the fixed USDC ledger.
pub fn check_ckusdc_balance(owner: PrincipalId) -> (q: BalanceQuery)
    ensures
        q.ledger@ == usdc_ledger_text(),
        q.account.owner == owner,
        q.account.subaccount is None,
{
    BalanceQuery {
        ledger: usdc_ledger_canister(),
        account: AccountRef { owner, subaccount: None },
    }
}

} // verus!
