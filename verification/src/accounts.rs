//! The accounts of an operation, as plain values.
//!
//! Each value stands for one account of the ledger and holds what the
//! protocol reads of it. Two values in one operation stand for two
//! different accounts.

use crate::pubkey::Pubkey;
use crate::state::ProgramState;
use vstd::prelude::*;

verus! {

/// An account that carries data of type `T`.
#[derive(Clone, Debug)]
pub struct Account<T> {
    /// The balance of the account, in lamports.
    pub lamports: u64,
    /// What the account stores.
    pub data: T,
}

/// An account whose owner has signed the operation.
#[derive(Clone, Copy, Debug)]
pub struct Signer {
    /// The address of the account.
    pub key: Pubkey,
    /// The balance of the account, in lamports.
    pub lamports: u64,
}

/// An account of which nothing is known but its address and balance.
#[derive(Clone, Copy, Debug)]
pub struct AccountInfo {
    /// The address of the account.
    pub key: Pubkey,
    /// The balance of the account, in lamports.
    pub lamports: u64,
}

/// The accounts of `initialize`.
#[derive(Clone, Debug)]
pub struct Initialize {
    /// The account that is to hold the configuration. A fresh account holds
    /// none; an account that holds one has been initialized before.
    pub program_state: Account<Option<ProgramState>>,
    /// The signer that becomes the admin.
    pub admin: Signer,
}

impl Initialize {
    /// Whether the account is fresh: whether it holds no configuration yet.
    pub open spec fn fresh(self) -> bool {
        self.program_state.data is None
    }

    /// The accounts once the configuration is set up, with the signer as
    /// admin.
    pub open spec fn after_initialization(
        self,
        signature_deposit: u64,
        chain_id: String,
    ) -> Initialize {
        Initialize {
            program_state: Account {
                lamports: self.program_state.lamports,
                data: Some(ProgramState { admin: self.admin.key, signature_deposit, chain_id }),
            },
            admin: self.admin,
        }
    }
}

/// The accounts of an operation that only the admin may perform.
#[derive(Clone, Debug)]
pub struct AdminOnly {
    pub program_state: Account<ProgramState>,
    /// The signer that claims to be the admin.
    pub admin: Signer,
}

impl AdminOnly {
    /// Whether the signer is the admin that the configuration names.
    pub open spec fn authorized(self) -> bool {
        self.admin.key == self.program_state.data.admin
    }
}

/// The accounts of `withdraw_funds`.
#[derive(Clone, Debug)]
pub struct WithdrawFunds {
    pub program_state: Account<ProgramState>,
    /// The signer that claims to be the admin.
    pub admin: Signer,
    /// The account that receives the funds.
    pub recipient: AccountInfo,
}

impl WithdrawFunds {
    /// Whether the signer is the admin that the configuration names.
    pub open spec fn authorized(self) -> bool {
        self.admin.key == self.program_state.data.admin
    }

    /// The accounts once `amount` has moved from the pool to the recipient.
    pub open spec fn after_withdrawal(self, amount: u64) -> WithdrawFunds {
        WithdrawFunds {
            program_state: Account {
                lamports: (self.program_state.lamports - amount) as u64,
                data: self.program_state.data,
            },
            admin: self.admin,
            recipient: AccountInfo {
                key: self.recipient.key,
                lamports: (self.recipient.lamports + amount) as u64,
            },
        }
    }

    /// A withdrawal moves the amount as a whole: the recipient gains exactly
    /// what the pool loses, and the pool does not fall below zero.
    pub proof fn lemma_withdrawal_moves(self, amount: u64)
        requires
            self.program_state.lamports >= amount,
            self.recipient.lamports + amount <= u64::MAX,
        ensures
            self.after_withdrawal(amount).program_state.lamports == self.program_state.lamports
                - amount,
            self.after_withdrawal(amount).recipient.lamports == self.recipient.lamports + amount,
            self.after_withdrawal(amount).program_state.lamports + self.after_withdrawal(
                amount,
            ).recipient.lamports == self.program_state.lamports + self.recipient.lamports,
            self.after_withdrawal(amount).program_state.data == self.program_state.data,
            self.after_withdrawal(amount).admin == self.admin,
    {
    }
}

/// The accounts of `sign`.
#[derive(Clone, Debug)]
pub struct Sign {
    pub program_state: Account<ProgramState>,
    /// The party that asks for the signature and owns the derived key.
    pub requester: Signer,
    /// The party that pays the deposit, where it is not the requester.
    pub fee_payer: Option<Signer>,
}

impl Sign {
    /// The account that pays the deposit.
    pub open spec fn payer(self) -> Signer {
        match self.fee_payer {
            Some(fee_payer) => fee_payer,
            None => self.requester,
        }
    }

    /// The deposit that the request has to pay.
    pub open spec fn deposit(self) -> u64 {
        self.program_state.data.signature_deposit
    }

    /// The accounts once the deposit has moved from the payer to the pool.
    pub open spec fn after_deposit(self) -> Sign {
        let paid = Signer {
            key: self.payer().key,
            lamports: (self.payer().lamports - self.deposit()) as u64,
        };
        Sign {
            program_state: Account {
                lamports: (self.program_state.lamports + self.deposit()) as u64,
                data: self.program_state.data,
            },
            requester: if self.fee_payer is Some { self.requester } else { paid },
            fee_payer: if self.fee_payer is Some { Some(paid) } else { None },
        }
    }

    /// The deposit moves as a whole: the pool gains exactly what the payer
    /// loses, which is the required deposit, and no other balance changes.
    pub proof fn lemma_deposit_moves(self)
        requires
            self.payer().lamports >= self.deposit(),
            self.program_state.lamports + self.deposit() <= u64::MAX,
        ensures
            self.after_deposit().program_state.lamports == self.program_state.lamports
                + self.deposit(),
            self.after_deposit().payer().lamports == self.payer().lamports - self.deposit(),
            self.after_deposit().payer().key == self.payer().key,
            self.after_deposit().program_state.data == self.program_state.data,
            self.after_deposit().requester.key == self.requester.key,
            self.fee_payer is Some ==> self.after_deposit().requester == self.requester,
            self.after_deposit().program_state.lamports + self.after_deposit().payer().lamports
                == self.program_state.lamports + self.payer().lamports,
    {
    }
}

/// The accounts of `sign_bidirectional`.
#[derive(Clone, Debug)]
pub struct SignBidirectional {
    pub program_state: Account<ProgramState>,
    /// The party that asks for the signature and owns the derived key.
    pub requester: Signer,
    /// The party that pays the deposit, where it is not the requester.
    pub fee_payer: Option<Signer>,
}

impl SignBidirectional {
    /// The account that pays the deposit.
    pub open spec fn payer(self) -> Signer {
        match self.fee_payer {
            Some(fee_payer) => fee_payer,
            None => self.requester,
        }
    }

    /// The deposit that the request has to pay.
    pub open spec fn deposit(self) -> u64 {
        self.program_state.data.signature_deposit
    }

    /// The accounts once the deposit has moved from the payer to the pool.
    pub open spec fn after_deposit(self) -> SignBidirectional {
        let paid = Signer {
            key: self.payer().key,
            lamports: (self.payer().lamports - self.deposit()) as u64,
        };
        SignBidirectional {
            program_state: Account {
                lamports: (self.program_state.lamports + self.deposit()) as u64,
                data: self.program_state.data,
            },
            requester: if self.fee_payer is Some { self.requester } else { paid },
            fee_payer: if self.fee_payer is Some { Some(paid) } else { None },
        }
    }

    /// The deposit moves as a whole: the pool gains exactly what the payer
    /// loses, which is the required deposit, and no other balance changes.
    pub proof fn lemma_deposit_moves(self)
        requires
            self.payer().lamports >= self.deposit(),
            self.program_state.lamports + self.deposit() <= u64::MAX,
        ensures
            self.after_deposit().program_state.lamports == self.program_state.lamports
                + self.deposit(),
            self.after_deposit().payer().lamports == self.payer().lamports - self.deposit(),
            self.after_deposit().payer().key == self.payer().key,
            self.after_deposit().program_state.data == self.program_state.data,
            self.after_deposit().requester.key == self.requester.key,
            self.fee_payer is Some ==> self.after_deposit().requester == self.requester,
            self.after_deposit().program_state.lamports + self.after_deposit().payer().lamports
                == self.program_state.lamports + self.payer().lamports,
    {
    }
}

/// The accounts of `respond`.
#[derive(Clone, Copy, Debug)]
pub struct Respond {
    /// Whoever submits the signatures. Nothing is trusted on its account.
    pub responder: Signer,
}

/// The accounts of `respond_error`.
#[derive(Clone, Copy, Debug)]
pub struct RespondError {
    /// Whoever submits the errors. Nothing is trusted on its account.
    pub responder: Signer,
}

/// The accounts of `get_signature_deposit`.
#[derive(Clone, Debug)]
pub struct GetSignatureDeposit {
    pub program_state: Account<ProgramState>,
}

/// The accounts of `respond_bidirectional`.
#[derive(Clone, Copy, Debug)]
pub struct ReadRespond {
    /// Whoever submits the result. Nothing is trusted on its account.
    pub responder: Signer,
}

} // verus!
