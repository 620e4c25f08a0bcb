use crate::pool::{Pool, PoolView};
use crate::pubkey::Pubkey;
use vstd::prelude::*;

verus! {

/// What the runtime tells of an account that a transaction names.
#[derive(Clone, Copy, Debug, PartialEq, Eq)]
pub struct AccountInfo {
    /// The account's address.
    pub key: Pubkey,
    /// The account signed the transaction.
    pub is_signer: bool,
}

/// An account that holds the record of a pool.
#[derive(Clone, Debug, PartialEq, Eq)]
pub struct PoolAccount {
    /// The account's address.
    pub key: Pubkey,
    /// The record that the account holds.
    pub data: Pool,
}

/// A pool's account as a plain value.
pub struct PoolAccountView {
    pub key: Pubkey,
    pub data: PoolView,
}

impl View for PoolAccount {
    type V = PoolAccountView;

    open spec fn view(&self) -> PoolAccountView {
        PoolAccountView { key: self.key, data: self.data@ }
    }
}

/// The accounts that the runtime binds to `new_pool`.
#[derive(Clone, Copy, Debug, PartialEq, Eq)]
pub struct NewPool {
    /// The address of the slot in which the pool is to be made.
    pub pool: Pubkey,
    /// Who pays for the storage and becomes the pool's owner.
    pub user: AccountInfo,
    /// The service that makes accounts.
    pub system_program: Pubkey,
}

/// The accounts that the runtime binds to `pay_pool`.
#[derive(Clone, Debug, PartialEq, Eq)]
pub struct PayPool {
    /// The pool that is paid into.
    pub pool: PoolAccount,
    /// The account said to own the pool. It anchors the seeds and is held
    /// against the owner on record; nothing is taken from it.
    pub pool_owner: Pubkey,
    /// Who pays.
    pub user: AccountInfo,
    /// The service that moves native currency.
    pub system_program: Pubkey,
}

/// The accounts of `pay_pool` as a plain value.
pub struct PayPoolView {
    pub pool: PoolAccountView,
    pub pool_owner: Pubkey,
    pub user: AccountInfo,
    pub system_program: Pubkey,
}

impl View for PayPool {
    type V = PayPoolView;

    open spec fn view(&self) -> PayPoolView {
        PayPoolView {
            pool: self.pool@,
            pool_owner: self.pool_owner,
            user: self.user,
            system_program: self.system_program,
        }
    }
}

impl PayPoolView {
    /// The same accounts when the user has been put on record as a payer.
    pub open spec fn paid(self) -> PayPoolView {
        PayPoolView {
            pool: PoolAccountView { data: self.pool.data.with_payer(self.user.key), ..self.pool },
            ..self
        }
    }

    /// The same accounts when the payer put on record last has been taken
    /// off again.
    pub open spec fn unpaid(self) -> PayPoolView {
        PayPoolView {
            pool: PoolAccountView { data: self.pool.data.without_last_payer(), ..self.pool },
            ..self
        }
    }
}

} // verus!
