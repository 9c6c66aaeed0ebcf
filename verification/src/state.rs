//! The program's configuration.

use crate::pubkey::Pubkey;
use vstd::prelude::*;

verus! {

/// The configuration of one deployment. There is one such record per
/// deployment; the account that holds it also holds the pooled deposits.
#[derive(Clone, Debug)]
pub struct ProgramState {
    /// The identity that may change the deposit and withdraw funds.
    pub admin: Pubkey,
    /// The deposit, in lamports, that every signature request pays.
    pub signature_deposit: u64,
    /// The CAIP-2 identifier of the ledger this deployment runs on.
    pub chain_id: String,
}

} // verus!
