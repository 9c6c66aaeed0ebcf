//! The escrow: one configurable deposit and one pool of collected deposits.

use crate::accounts::{Account, AccountInfo, Signer};
use crate::errors::ChainSignaturesError;
use crate::pubkey::Pubkey;
use crate::state::ProgramState;
use vstd::prelude::*;

verus! {

/// Moves the required deposit from `payer` to the pool.
///
/// The amount is always the configured deposit. Where the payer's balance
/// does not cover it, nothing moves.
pub fn collect(pool: &mut Account<ProgramState>, payer: &mut Signer) -> (paid: Result<
    u64,
    ChainSignaturesError,
>)
    requires
        old(payer).lamports >= old(pool).data.signature_deposit ==> old(pool).lamports + old(
            pool,
        ).data.signature_deposit <= u64::MAX,
    ensures
        final(pool).data == old(pool).data,
        final(payer).key == old(payer).key,
        old(payer).lamports < old(pool).data.signature_deposit ==> {
            &&& paid == Err::<u64, ChainSignaturesError>(ChainSignaturesError::InsufficientDeposit)
            &&& final(pool).lamports == old(pool).lamports
            &&& final(payer).lamports == old(payer).lamports
        },
        old(payer).lamports >= old(pool).data.signature_deposit ==> {
            &&& paid == Ok::<u64, ChainSignaturesError>(old(pool).data.signature_deposit)
            &&& final(pool).lamports == old(pool).lamports + old(pool).data.signature_deposit
            &&& final(payer).lamports == old(payer).lamports - old(pool).data.signature_deposit
        },
{
    let deposit: u64 = pool.data.signature_deposit;
    if payer.lamports < deposit {
        return Err(ChainSignaturesError::InsufficientDeposit);
    }
    payer.lamports = payer.lamports - deposit;
    pool.lamports = pool.lamports + deposit;
    Ok(deposit)
}

/// Replaces the required deposit, on behalf of `caller`, and returns the
/// deposit that was required until now.
///
/// Only the admin may do so.
pub fn configure(state: &mut ProgramState, caller: &Pubkey, new_deposit: u64) -> (replaced: Result<
    u64,
    ChainSignaturesError,
>)
    ensures
        final(state).admin == old(state).admin,
        final(state).chain_id == old(state).chain_id,
        *caller != old(state).admin ==> {
            &&& replaced == Err::<u64, ChainSignaturesError>(ChainSignaturesError::Unauthorized)
            &&& final(state).signature_deposit == old(state).signature_deposit
        },
        *caller == old(state).admin ==> {
            &&& replaced == Ok::<u64, ChainSignaturesError>(old(state).signature_deposit)
            &&& final(state).signature_deposit == new_deposit
        },
{
    if *caller != state.admin {
        return Err(ChainSignaturesError::Unauthorized);
    }
    let old_deposit: u64 = state.signature_deposit;
    state.signature_deposit = new_deposit;
    Ok(old_deposit)
}

/// Which condition, if any, refuses the withdrawal of `amount` from a pool
/// that holds `pool_lamports`, asked for by `caller`, in favour of
/// `recipient`. The conditions are tested in this order.
pub open spec fn withdrawal_refused(
    admin: Pubkey,
    pool_lamports: u64,
    caller: Pubkey,
    recipient: Pubkey,
    amount: u64,
) -> Option<ChainSignaturesError> {
    if caller != admin {
        Some(ChainSignaturesError::Unauthorized)
    } else if pool_lamports < amount {
        Some(ChainSignaturesError::InsufficientFunds)
    } else if recipient.is_null() {
        Some(ChainSignaturesError::InvalidRecipient)
    } else {
        None
    }
}

/// Tells which condition, if any, refuses the withdrawal of `amount` from
/// `pool`, asked for by `caller`, in favour of `recipient`.
pub fn withdrawal_refusal(
    pool: &Account<ProgramState>,
    caller: &Pubkey,
    recipient: &AccountInfo,
    amount: u64,
) -> (refused: Option<ChainSignaturesError>)
    ensures
        refused == withdrawal_refused(
            pool.data.admin,
            pool.lamports,
            *caller,
            recipient.key,
            amount,
        ),
{
    if *caller != pool.data.admin {
        Some(ChainSignaturesError::Unauthorized)
    } else if pool.lamports < amount {
        Some(ChainSignaturesError::InsufficientFunds)
    } else if recipient.key.is_default() {
        Some(ChainSignaturesError::InvalidRecipient)
    } else {
        None
    }
}

/// Moves `amount` from the pool to `recipient`, on behalf of `caller`.
///
/// Only the admin may do so, the pool must hold the amount, and the
/// recipient may not be the null identity. The pool never pays out more
/// than it holds.
pub fn withdraw(
    pool: &mut Account<ProgramState>,
    caller: &Pubkey,
    recipient: &mut AccountInfo,
    amount: u64,
) -> (done: Result<(), ChainSignaturesError>)
    requires
        withdrawal_refused(
            old(pool).data.admin,
            old(pool).lamports,
            *caller,
            old(recipient).key,
            amount,
        ) is None ==> old(recipient).lamports + amount <= u64::MAX,
    ensures
        final(pool).data == old(pool).data,
        final(recipient).key == old(recipient).key,
        match withdrawal_refused(
            old(pool).data.admin,
            old(pool).lamports,
            *caller,
            old(recipient).key,
            amount,
        ) {
            Some(error) => {
                &&& done == Err::<(), ChainSignaturesError>(error)
                &&& final(pool).lamports == old(pool).lamports
                &&& final(recipient).lamports == old(recipient).lamports
            },
            None => {
                &&& done is Ok
                &&& final(pool).lamports == old(pool).lamports - amount
                &&& final(recipient).lamports == old(recipient).lamports + amount
            },
        },
{
    if let Some(error) = withdrawal_refusal(pool, caller, recipient, amount) {
        return Err(error);
    }
    pool.lamports = pool.lamports - amount;
    recipient.lamports = recipient.lamports + amount;
    Ok(())
}

} // verus!
