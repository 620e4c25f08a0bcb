use crate::accounts::{NewPool, PoolAccount};
use crate::error::Failure;
use crate::pool::{fits_machine_word, record_len, Pool, PoolView};
use crate::pubkey::{program_address, seed_bytes, Pubkey};
use crate::seeds::{derive_pool_address, pool_address, pool_seeds, pool_seeds_spec};
use vstd::prelude::*;
use vstd::utf8::{encode_utf8, is_ascii_chars};

verus! {

/// What `new_pool` asks of the service that makes accounts.
#[derive(Clone, Debug, PartialEq, Eq)]
pub struct Allocation {
    /// Where the account is made.
    pub address: Pubkey,
    /// How many bytes it gets, once and for all.
    pub space: usize,
    /// Who pays for them.
    pub payer: Pubkey,
    /// The program that the account is assigned to.
    pub owner: Pubkey,
    /// The seeds, bump included, that derive the address under that
    /// program: with them the program signs for the address.
    pub seeds: Vec<Vec<u8>>,
    /// The service that is asked.
    pub system_program: Pubkey,
}

/// An allocation as a plain value.
pub struct AllocationView {
    pub address: Pubkey,
    pub space: usize,
    pub payer: Pubkey,
    pub owner: Pubkey,
    pub seeds: Seq<Seq<u8>>,
    pub system_program: Pubkey,
}

impl View for Allocation {
    type V = AllocationView;

    open spec fn view(&self) -> AllocationView {
        AllocationView {
            address: self.address,
            space: self.space,
            payer: self.payer,
            owner: self.owner,
            seeds: seed_bytes(self.seeds@),
            system_program: self.system_program,
        }
    }
}

/// A pool that is ready to be made: the storage to ask for, and the record
/// to put there once the storage is granted.
#[derive(Clone, Debug, PartialEq, Eq)]
pub struct Creation {
    pub allocation: Allocation,
    pub pool: Pool,
}

/// A creation as a plain value.
pub struct CreationView {
    pub allocation: AllocationView,
    pub pool: PoolView,
}

impl View for Creation {
    type V = CreationView;

    open spec fn view(&self) -> CreationView {
        CreationView { allocation: self.allocation@, pool: self.pool@ }
    }
}

/// Why `new_pool` turns a call down, if it does: first where the seeds and
/// the bump do not derive the address of the slot, then where the user has
/// not signed. `address_matches` says whether the seeds and the bump derive
/// the address of the slot.
pub open spec fn new_pool_refusal(address_matches: bool, accounts: NewPool) -> Option<Failure> {
    if !address_matches {
        Some(Failure::SeedsMismatch)
    } else if !accounts.user.is_signer {
        Some(Failure::MissingSignature)
    } else {
        None
    }
}

/// What `new_pool` prepares where it does not turn the call down: storage
/// of exactly the record's length at the slot, paid for by the user and
/// assigned to the program, and a record without payers that the user owns.
pub open spec fn new_pool_creation(
    program_id: Pubkey,
    accounts: NewPool,
    name: Seq<char>,
    capacity: u16,
    bump: u8,
) -> CreationView {
    CreationView {
        allocation: AllocationView {
            address: accounts.pool,
            space: record_len(encode_utf8(name).len(), capacity) as usize,
            payer: accounts.user.key,
            owner: program_id,
            seeds: pool_seeds_spec(accounts.user.key@, encode_utf8(name), bump),
            system_program: accounts.system_program,
        },
        pool: PoolView {
            pool_owner: accounts.user.key,
            bump,
            capacity,
            name,
            payers: Seq::empty(),
        },
    }
}

/// `new_pool` from the point where the address has been derived: `derived`
/// is what the seeds and the bump yield under the program.
pub fn new_pool_with_address(
    derived: Option<Pubkey>,
    program_id: &Pubkey,
    accounts: &NewPool,
    name: String,
    capacity: u16,
    bump: u8,
) -> (r: Result<Creation, Failure>)
    requires
        fits_machine_word(name@, capacity),
    ensures
        match new_pool_refusal(derived == Some(accounts.pool), *accounts) {
            Some(failure) => r == Err::<Creation, Failure>(failure),
            None => r matches Ok(creation) && creation@ == new_pool_creation(
                *program_id,
                *accounts,
                name@,
                capacity,
                bump,
            ),
        },
        r matches Ok(creation) ==> creation.pool.wf(),
        r matches Ok(creation) ==> is_ascii_chars(name@) ==> creation.allocation.space
            == record_len(name@.len(), capacity),
{
    let matches_slot = match derived {
        Some(address) => address == accounts.pool,
        None => false,
    };
    if !matches_slot {
        return Err(Failure::SeedsMismatch);
    }
    if !accounts.user.is_signer {
        return Err(Failure::MissingSignature);
    }
    let space = Pool::space(name.as_str(), capacity);
    let seeds = pool_seeds(&accounts.user.key, name.as_str(), bump);
    Ok(
        Creation {
            allocation: Allocation {
                address: accounts.pool,
                space,
                payer: accounts.user.key,
                owner: *program_id,
                seeds,
                system_program: accounts.system_program,
            },
            pool: Pool {
                pool_owner: accounts.user.key,
                bump,
                capacity,
                name,
                payers: Vec::new(),
            },
        },
    )
}

/// Prepares the pool that the user holds under `name`, for `capacity`
/// payers. The caller supplies the bump; none is searched for. Nothing
/// exists until the runtime has granted the allocation: see
/// `Creation::finish`.
pub fn new_pool(program_id: &Pubkey, accounts: &NewPool, name: String, capacity: u16, bump: u8) -> (r:
    Result<Creation, Failure>)
    requires
        fits_machine_word(name@, capacity),
    ensures
        match new_pool_refusal(
            pool_address(*program_id, accounts.user.key, encode_utf8(name@), bump) == Some(
                accounts.pool@,
            ),
            *accounts,
        ) {
            Some(failure) => r == Err::<Creation, Failure>(failure),
            None => r matches Ok(creation) && creation@ == new_pool_creation(
                *program_id,
                *accounts,
                name@,
                capacity,
                bump,
            ),
        },
        r matches Ok(creation) ==> program_address(creation@.allocation.seeds, program_id@)
            == Some(creation.allocation.address@),
        r matches Ok(creation) ==> creation.pool.wf(),
        r matches Ok(creation) ==> is_ascii_chars(name@) ==> creation.allocation.space
            == record_len(name@.len(), capacity),
{
    let derived = derive_pool_address(program_id, &accounts.user.key, name.as_str(), bump);
    proof {
        if let Some(address) = derived {
            Pubkey::lemma_view_injective(address, accounts.pool);
        }
    }
    new_pool_with_address(derived, program_id, accounts, name, capacity, bump)
}

impl Creation {
    /// Ends the creation with the runtime's answer to the allocation: the
    /// pool's account with its first record where the storage was granted,
    /// the runtime's refusal handed on where it was not.
    pub fn finish(self, allocated: Result<(), u64>) -> (r: Result<PoolAccount, Failure>)
        ensures
            match allocated {
                Ok(_) => r == Ok::<PoolAccount, Failure>(
                    (PoolAccount { key: self.allocation.address, data: self.pool }),
                ),
                Err(code) => r == Err::<PoolAccount, Failure>((Failure::Host { code })),
            },
    {
        match allocated {
            Ok(_) => Ok(PoolAccount { key: self.allocation.address, data: self.pool }),
            Err(code) => Err(Failure::Host { code }),
        }
    }
}

} // verus!
