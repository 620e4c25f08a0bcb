use crate::accounts::{AccountInfo, NewPool, PayPoolView, PoolAccountView};
use crate::error::{Failure, PoolError};
use crate::new_pool::{new_pool_creation, new_pool_refusal};
use crate::pay_pool::pay_pool_refusal;
use crate::pubkey::Pubkey;
use crate::seeds::{name_seed_spec, pool_address};
use vstd::prelude::*;
use vstd::utf8::encode_utf8;

verus! {

/// One call of `pay_pool` against a pool, with the runtime's answer to the
/// transfer that the call asks for, should it ask.
pub struct Payment {
    /// The account bound as the pool's owner.
    pub pool_owner: Pubkey,
    /// The account bound as the user.
    pub user: AccountInfo,
    /// The account bound as the system program.
    pub system_program: Pubkey,
    /// The name given for the pool.
    pub pool_name: Seq<char>,
    /// The runtime's answer to the transfer.
    pub transferred: Result<(), u64>,
}

impl Payment {
    /// The accounts of the call when it is made against `pool`.
    pub open spec fn accounts(self, pool: PoolAccountView) -> PayPoolView {
        PayPoolView {
            pool,
            pool_owner: self.pool_owner,
            user: self.user,
            system_program: self.system_program,
        }
    }

    /// Why `pay_pool` turns the call down, if it does.
    pub open spec fn refusal(self, program_id: Pubkey, pool: PoolAccountView) -> Option<Failure> {
        pay_pool_refusal(
            pool_address(
                program_id,
                self.pool_owner,
                encode_utf8(self.pool_name),
                pool.data.bump,
            ) == Some(pool.key@),
            self.accounts(pool),
        )
    }

    /// The transfer is made: the call asks for it and the runtime grants
    /// it.
    pub open spec fn transfers(self, program_id: Pubkey, pool: PoolAccountView) -> bool {
        self.refusal(program_id, pool) is None && self.transferred is Ok
    }

    /// The pool once the call is over: what `pay_pool` leaves, and then
    /// `settle_payment` where `pay_pool` asked for the transfer.
    pub open spec fn leaves(self, program_id: Pubkey, pool: PoolAccountView) -> PoolAccountView {
        if self.refusal(program_id, pool) is Some {
            pool
        } else if self.transferred is Ok {
            self.accounts(pool).paid().pool
        } else {
            self.accounts(pool).paid().unpaid().pool
        }
    }
}

/// The pool after a run of calls, one after the other.
pub open spec fn after_payments(
    program_id: Pubkey,
    pool: PoolAccountView,
    payments: Seq<Payment>,
) -> PoolAccountView
    decreases payments.len(),
{
    if payments.len() == 0 {
        pool
    } else {
        payments.last().leaves(program_id, after_payments(program_id, pool, payments.drop_last()))
    }
}

/// A payment is all or nothing: either the transfer is made and the user
/// stands at the end of the payers, or no transfer is made and the pool is
/// as it was.
pub proof fn lemma_payment_is_atomic(program_id: Pubkey, pool: PoolAccountView, payment: Payment)
    ensures
        payment.transfers(program_id, pool) ==> payment.leaves(program_id, pool)
            == (PoolAccountView { data: pool.data.with_payer(payment.user.key), ..pool }),
        !payment.transfers(program_id, pool) ==> payment.leaves(program_id, pool) == pool,
{
    let staged = pool.data.with_payer(payment.user.key);
    assert(staged.payers.drop_last() =~= pool.data.payers);
}

/// A payment that is made takes the next free slot, and fills the pool
/// exactly when that slot was the last.
pub proof fn lemma_payment_takes_one_slot(
    program_id: Pubkey,
    pool: PoolAccountView,
    payment: Payment,
)
    requires
        payment.transfers(program_id, pool),
    ensures
        !pool.data.is_full(),
        payment.leaves(program_id, pool).data.payers.len() == pool.data.payers.len() + 1,
        payment.leaves(program_id, pool).data.payers.last() == payment.user.key,
        payment.leaves(program_id, pool).data.is_full() <==> pool.data.payers.len() + 1
            == pool.data.capacity,
{
}

/// A call that binds another account as the owner than the one on record
/// fails with `WrongPoolOwner`, whatever else it brings, and changes
/// nothing.
pub proof fn lemma_wrong_owner_is_refused(
    program_id: Pubkey,
    pool: PoolAccountView,
    payment: Payment,
)
    requires
        payment.pool_owner != pool.data.pool_owner,
    ensures
        payment.refusal(program_id, pool) == Some(Failure::Pool(PoolError::WrongPoolOwner)),
        payment.leaves(program_id, pool) == pool,
{
}

/// A full pool takes no further payer: every call to it fails, and where
/// nothing else is wrong with the call it fails with `PayersFull`.
pub proof fn lemma_full_pool_refuses(program_id: Pubkey, pool: PoolAccountView, payment: Payment)
    requires
        pool.data.is_full(),
    ensures
        payment.refusal(program_id, pool) is Some,
        payment.leaves(program_id, pool) == pool,
        payment.pool_owner == pool.data.pool_owner && pool_address(
            program_id,
            payment.pool_owner,
            encode_utf8(payment.pool_name),
            pool.data.bump,
        ) == Some(pool.key@) ==> payment.refusal(program_id, pool) == Some(
            Failure::Pool(PoolError::PayersFull),
        ),
{
}

/// Whatever calls are made against a pool whose payers fit its capacity,
/// in whatever order and with whatever outcome, the payers fit the capacity
/// after each of them. The calls only ever add to the end of the payers,
/// and leave the address, the owner, the bump, the capacity and the name
/// alone: a pool that lay at the address of its seeds still does.
pub proof fn lemma_capacity_is_kept(
    program_id: Pubkey,
    pool: PoolAccountView,
    payments: Seq<Payment>,
)
    requires
        pool.data.wf(),
    ensures
        after_payments(program_id, pool, payments).data.wf(),
        pool.data.payers.is_prefix_of(after_payments(program_id, pool, payments).data.payers),
        after_payments(program_id, pool, payments).key == pool.key,
        after_payments(program_id, pool, payments).data.pool_owner == pool.data.pool_owner,
        after_payments(program_id, pool, payments).data.bump == pool.data.bump,
        after_payments(program_id, pool, payments).data.capacity == pool.data.capacity,
        after_payments(program_id, pool, payments).data.name == pool.data.name,
        pool_address(program_id, pool.data.pool_owner, pool.data.name_bytes(), pool.data.bump)
            == Some(pool.key@) ==> ({
            let after = after_payments(program_id, pool, payments);
            pool_address(program_id, after.data.pool_owner, after.data.name_bytes(), after.data.bump)
                == Some(after.key@)
        }),
    decreases payments.len(),
{
    if payments.len() > 0 {
        lemma_capacity_is_kept(program_id, pool, payments.drop_last());
    }
}

/// The payers fit the capacity in every state that a run of calls passes
/// through, not only in the last.
pub proof fn lemma_capacity_is_kept_throughout(
    program_id: Pubkey,
    pool: PoolAccountView,
    payments: Seq<Payment>,
    seen: int,
)
    requires
        pool.data.wf(),
        0 <= seen <= payments.len(),
    ensures
        after_payments(program_id, pool, payments.take(seen)).data.wf(),
{
    lemma_capacity_is_kept(program_id, pool, payments.take(seen));
}

/// A pool that `new_pool` has made is well formed and empty, and it is
/// found again: under the name it was made with, and under every name with
/// the same seed, the owner's address and the bump on record derive the
/// address of its account.
pub proof fn lemma_created_pool_is_found(
    program_id: Pubkey,
    accounts: NewPool,
    name: Seq<char>,
    capacity: u16,
    bump: u8,
    pool_name: Seq<char>,
)
    requires
        new_pool_refusal(
            pool_address(program_id, accounts.user.key, encode_utf8(name), bump) == Some(
                accounts.pool@,
            ),
            accounts,
        ) is None,
        name_seed_spec(encode_utf8(pool_name)) == name_seed_spec(encode_utf8(name)),
    ensures
        ({
            let pool = new_pool_creation(program_id, accounts, name, capacity, bump).pool;
            &&& pool.wf()
            &&& pool.payers.len() == 0
            &&& pool_address(program_id, pool.pool_owner, encode_utf8(pool_name), pool.bump)
                == Some(accounts.pool@)
        }),
{
}

/// The first payment into a fresh pool goes through: where the pool takes
/// a payer at all, a signed call that binds the owner and gives the name
/// is not turned down.
pub proof fn lemma_created_pool_takes_payment(
    program_id: Pubkey,
    accounts: NewPool,
    name: Seq<char>,
    capacity: u16,
    bump: u8,
    payment: Payment,
)
    requires
        new_pool_refusal(
            pool_address(program_id, accounts.user.key, encode_utf8(name), bump) == Some(
                accounts.pool@,
            ),
            accounts,
        ) is None,
        capacity > 0,
        payment.pool_owner == accounts.user.key,
        payment.pool_name == name,
        payment.user.is_signer,
    ensures
        ({
            let pool = PoolAccountView {
                key: accounts.pool,
                data: new_pool_creation(program_id, accounts, name, capacity, bump).pool,
            };
            payment.refusal(program_id, pool) is None
        }),
{
}

} // verus!
