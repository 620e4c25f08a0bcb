use anchor_lang::solana_program::program_error::ProgramError;
use anchor_lang::solana_program::pubkey::Pubkey as HostPubkey;
use learnsolana::instruction::SYSTEM_PROGRAM_BYTES;
use learnsolana::{
    name_seed, new_pool, pay_pool, settle_payment, AccountInfo, Allocation, Failure, Invocation,
    NewPool, PayPool, PoolAccount, PoolError, Pubkey,
};
use std::collections::HashMap;

const PROGRAM_ID: [u8; 32] = [
    218, 7, 92, 178, 255, 94, 198, 129, 118, 19, 222, 83, 11, 105, 42, 135, 53, 71, 119, 105, 218,
    71, 67, 12, 189, 129, 84, 51, 92, 74, 131, 39,
];

/// What the stand-in runtime charges for a byte of storage.
const RENT_PER_BYTE: u64 = 7;

fn key(byte: u8) -> Pubkey {
    Pubkey::new_from_array([byte; 32])
}

fn signer(byte: u8) -> AccountInfo {
    AccountInfo { key: key(byte), is_signer: true }
}

fn system_program() -> Pubkey {
    Pubkey::new_from_array(SYSTEM_PROGRAM_BYTES)
}

fn account_in_use() -> u64 {
    u64::from(ProgramError::Custom(0))
}

fn insufficient_funds() -> u64 {
    u64::from(ProgramError::Custom(1))
}

/// The bump that a client finds for a pool, and the pool's address.
fn find_pool(owner: &Pubkey, name: &str) -> (Pubkey, u8) {
    let (address, bump) = HostPubkey::find_program_address(
        &[b"pool", &owner.bytes, name_seed(name)],
        &HostPubkey::new_from_array(PROGRAM_ID),
    );
    (Pubkey::new_from_array(address.to_bytes()), bump)
}

/// A stand-in for the runtime: it keeps balances and pool accounts, makes
/// accounts and transfers, and drops what a failed transaction did.
struct Host {
    program_id: Pubkey,
    lamports: HashMap<Pubkey, u64>,
    pools: HashMap<Pubkey, PoolAccount>,
}

impl Host {
    fn new() -> Host {
        Host { program_id: Pubkey::new_from_array(PROGRAM_ID), lamports: HashMap::new(), pools: HashMap::new() }
    }

    fn fund(&mut self, account: Pubkey, lamports: u64) {
        *self.lamports.entry(account).or_insert(0) += lamports;
    }

    fn balance(&self, account: &Pubkey) -> u64 {
        self.lamports.get(account).copied().unwrap_or(0)
    }

    fn payers(&self, pool: &Pubkey) -> Vec<Pubkey> {
        self.pools[pool].data.payers.clone()
    }

    fn move_lamports(&mut self, from: Pubkey, to: Pubkey, lamports: u64) -> Result<(), u64> {
        if self.balance(&from) < lamports {
            return Err(insufficient_funds());
        }
        *self.lamports.entry(from).or_insert(0) -= lamports;
        *self.lamports.entry(to).or_insert(0) += lamports;
        Ok(())
    }

    fn allocate(&mut self, allocation: &Allocation) -> Result<(), u64> {
        let seeds: Vec<&[u8]> = allocation.seeds.iter().map(|seed| seed.as_slice()).collect();
        let signed_for = HostPubkey::create_program_address(
            &seeds,
            &HostPubkey::new_from_array(allocation.owner.bytes),
        );
        assert_eq!(signed_for.map(|k| k.to_bytes()), Ok(allocation.address.bytes));
        assert_eq!(allocation.system_program, system_program());
        if self.pools.contains_key(&allocation.address) || self.balance(&allocation.address) > 0 {
            return Err(account_in_use());
        }
        self.move_lamports(allocation.payer, allocation.address, allocation.space as u64 * RENT_PER_BYTE)
    }

    fn invoke(&mut self, invocation: &Invocation) -> Result<(), u64> {
        let instruction = &invocation.instruction;
        assert_eq!(instruction.program_id, system_program());
        assert!(invocation.accounts.contains(&instruction.program_id));
        assert_eq!(instruction.data.len(), 12);
        assert_eq!(instruction.data[..4], [2, 0, 0, 0]);
        let mut amount = [0u8; 8];
        amount.copy_from_slice(&instruction.data[4..]);
        let from = instruction.accounts[0];
        let to = instruction.accounts[1];
        assert!(from.is_signer && from.is_writable && to.is_writable);
        assert!(invocation.accounts.contains(&from.pubkey));
        assert!(invocation.accounts.contains(&to.pubkey));
        self.move_lamports(from.pubkey, to.pubkey, u64::from_le_bytes(amount))
    }

    fn create(
        &mut self,
        user: AccountInfo,
        slot: Pubkey,
        name: &str,
        capacity: u16,
        bump: u8,
    ) -> Result<(), Failure> {
        let accounts = NewPool { pool: slot, user, system_program: system_program() };
        let creation = new_pool(&self.program_id, &accounts, name.to_string(), capacity, bump)?;
        let allocated = self.allocate(&creation.allocation);
        let account = creation.finish(allocated)?;
        self.pools.insert(account.key, account);
        Ok(())
    }

    fn pay(
        &mut self,
        pool: Pubkey,
        pool_owner: Pubkey,
        user: AccountInfo,
        name: &str,
        payment: u64,
    ) -> Result<(), Failure> {
        let mut accounts = PayPool {
            pool: self.pools[&pool].clone(),
            pool_owner,
            user,
            system_program: system_program(),
        };
        let invocation = pay_pool(&self.program_id, &mut accounts, name.to_string(), payment)?;
        let transferred = self.invoke(&invocation);
        let settled = settle_payment(&mut accounts, transferred);
        self.pools.insert(pool, accounts.pool);
        settled
    }
}

/// A runtime with a funded owner and the owner's pool under `name`.
fn host_with_pool(name: &str, capacity: u16) -> (Host, Pubkey) {
    let mut host = Host::new();
    let owner = signer(1);
    host.fund(owner.key, 1_000_000_000);
    let (address, bump) = find_pool(&owner.key, name);
    assert_eq!(host.create(owner, address, name, capacity, bump), Ok(()));
    (host, address)
}

#[test]
fn create_then_fill() {
    let (mut host, pool) = host_with_pool("demo", 2);
    let record = &host.pools[&pool].data;
    assert_eq!(record.pool_owner, key(1));
    assert_eq!(record.capacity, 2);
    assert_eq!(record.name, "demo");
    assert_eq!(record.bump, 255);
    assert!(record.payers.is_empty());
    let rent = 119 * RENT_PER_BYTE;
    assert_eq!(host.balance(&pool), rent);
    assert_eq!(host.balance(&key(1)), 1_000_000_000 - rent);

    host.fund(key(2), 5_000_000);
    host.fund(key(3), 5_000_000);
    host.fund(key(4), 5_000_000);
    assert_eq!(host.pay(pool, key(1), signer(2), "demo", 1_000_000), Ok(()));
    assert_eq!(host.payers(&pool), vec![key(2)]);
    assert_eq!(host.pay(pool, key(1), signer(3), "demo", 1_000_000), Ok(()));
    assert_eq!(host.payers(&pool), vec![key(2), key(3)]);
    assert_eq!(host.balance(&pool), rent + 2_000_000);
    assert_eq!(host.balance(&key(2)), 4_000_000);
    assert_eq!(host.balance(&key(3)), 4_000_000);

    assert_eq!(
        host.pay(pool, key(1), signer(4), "demo", 1_000_000),
        Err(Failure::Pool(PoolError::PayersFull))
    );
    assert_eq!(host.payers(&pool), vec![key(2), key(3)]);
    assert_eq!(host.balance(&pool), rent + 2_000_000);
    assert_eq!(host.balance(&key(4)), 5_000_000);
}

#[test]
fn wrong_owner() {
    let (mut host, pool) = host_with_pool("demo", 2);
    host.fund(key(2), 5_000_000);
    let before = host.balance(&pool);
    assert_eq!(
        host.pay(pool, key(9), signer(2), "demo", 1_000_000),
        Err(Failure::Pool(PoolError::WrongPoolOwner))
    );
    assert!(host.payers(&pool).is_empty());
    assert_eq!(host.balance(&pool), before);
    assert_eq!(host.balance(&key(2)), 5_000_000);
}

#[test]
fn wrong_name_seed() {
    let (mut host, pool) = host_with_pool("alpha", 2);
    host.fund(key(2), 5_000_000);
    let before = host.pools[&pool].clone();
    let balance = host.balance(&pool);
    assert_eq!(host.pay(pool, key(1), signer(2), "beta", 1), Err(Failure::SeedsMismatch));
    assert_eq!(host.pools[&pool], before);
    assert_eq!(host.balance(&pool), balance);
    assert_eq!(host.balance(&key(2)), 5_000_000);
}

#[test]
fn long_name() {
    let name = "ABCDEFGHIJKLMNOPQRSTUVWXYZABCDEFGHIJKLMNOPQRSTUVWXYZ0123456789AB";
    let twin = "ABCDEFGHIJKLMNOPQRSTUVWXYZABCDEF, which is where the likeness ends";
    assert_eq!(name.len(), 64);
    assert_ne!(name, twin);
    let (mut host, pool) = host_with_pool(name, 1);
    assert_eq!(host.pools[&pool].data.name, name);

    // The derivation reads the first 32 bytes only.
    let (short, bump) = find_pool(&key(1), &name[..32]);
    assert_eq!(short, pool);
    assert_eq!(find_pool(&key(1), twin), (pool, bump));

    // The twin is aimed at the same address, where an account exists.
    let owner_before = host.balance(&key(1));
    assert_eq!(
        host.create(signer(1), pool, twin, 1, bump),
        Err(Failure::Host { code: account_in_use() })
    );
    assert_eq!(host.pools.len(), 1);
    assert_eq!(host.pools[&pool].data.name, name);
    assert_eq!(host.balance(&key(1)), owner_before);

    // The pool is paid into under either name.
    host.fund(key(2), 10);
    assert_eq!(host.pay(pool, key(1), signer(2), twin, 3), Ok(()));
    assert_eq!(host.payers(&pool), vec![key(2)]);
}

#[test]
fn duplicate_payer_allowed() {
    let (mut host, pool) = host_with_pool("demo", 3);
    host.fund(key(2), 100);
    assert_eq!(host.pay(pool, key(1), signer(2), "demo", 10), Ok(()));
    assert_eq!(host.pay(pool, key(1), signer(2), "demo", 20), Ok(()));
    assert_eq!(host.payers(&pool), vec![key(2), key(2)]);
    assert_eq!(host.balance(&key(2)), 70);
}

#[test]
fn the_owner_may_pay_into_the_own_pool() {
    let (mut host, pool) = host_with_pool("demo", 3);
    assert_eq!(host.pay(pool, key(1), signer(1), "demo", 10), Ok(()));
    assert_eq!(host.payers(&pool), vec![key(1)]);
}

#[test]
fn transfer_failure_rolls_back() {
    let (mut host, pool) = host_with_pool("demo", 2);
    host.fund(key(2), 999);
    let before = host.pools[&pool].clone();
    let balance = host.balance(&pool);
    assert_eq!(
        host.pay(pool, key(1), signer(2), "demo", 1_000),
        Err(Failure::Host { code: insufficient_funds() })
    );
    assert_eq!(host.pools[&pool], before);
    assert!(host.payers(&pool).is_empty());
    assert_eq!(host.balance(&pool), balance);
    assert_eq!(host.balance(&key(2)), 999);

    // The slot is still free for one who can pay.
    assert_eq!(host.pay(pool, key(1), signer(2), "demo", 999), Ok(()));
    assert_eq!(host.payers(&pool), vec![key(2)]);
}

#[test]
fn transfer_failure_rolls_back_to_the_payers_before() {
    let (mut host, pool) = host_with_pool("demo", 3);
    host.fund(key(2), 50);
    assert_eq!(host.pay(pool, key(1), signer(2), "demo", 50), Ok(()));
    assert_eq!(
        host.pay(pool, key(1), signer(3), "demo", 1),
        Err(Failure::Host { code: insufficient_funds() })
    );
    assert_eq!(host.payers(&pool), vec![key(2)]);
}

#[test]
fn payers_never_exceed_the_capacity() {
    for capacity in 0..5u16 {
        let (mut host, pool) = host_with_pool("demo", capacity);
        for round in 0..8u8 {
            let user = signer(10 + round);
            // Every third payer cannot pay.
            if round % 3 != 2 {
                host.fund(user.key, 5);
            }
            let _ = host.pay(pool, key(1), user, "demo", 5);
            let record = &host.pools[&pool].data;
            assert!(record.payers.len() <= capacity as usize);
            assert_eq!(record.capacity, capacity);
            assert_eq!(record.pool_owner, key(1));
        }
        assert_eq!(host.payers(&pool).len(), capacity as usize);
    }
}

#[test]
fn a_pool_without_capacity_takes_no_payer() {
    let (mut host, pool) = host_with_pool("demo", 0);
    host.fund(key(2), 5);
    assert_eq!(
        host.pay(pool, key(1), signer(2), "demo", 5),
        Err(Failure::Pool(PoolError::PayersFull))
    );
}

#[test]
fn creation_fails_where_the_user_cannot_pay_the_rent() {
    let mut host = Host::new();
    let rent = 119 * RENT_PER_BYTE;
    host.fund(key(1), rent - 1);
    let (address, bump) = find_pool(&key(1), "demo");
    assert_eq!(
        host.create(signer(1), address, "demo", 2, bump),
        Err(Failure::Host { code: insufficient_funds() })
    );
    assert!(host.pools.is_empty());
    host.fund(key(1), 1);
    assert_eq!(host.create(signer(1), address, "demo", 2, bump), Ok(()));
    assert_eq!(host.balance(&key(1)), 0);
}

#[test]
fn creation_fails_where_the_pool_exists() {
    let (mut host, pool) = host_with_pool("demo", 2);
    host.fund(key(2), 5);
    assert_eq!(host.pay(pool, key(1), signer(2), "demo", 5), Ok(()));
    assert_eq!(
        host.create(signer(1), pool, "demo", 7, 255),
        Err(Failure::Host { code: account_in_use() })
    );
    assert_eq!(host.pools[&pool].data.capacity, 2);
    assert_eq!(host.payers(&pool), vec![key(2)]);
}

#[test]
fn two_owners_hold_pools_of_one_name_at_different_addresses() {
    let mut host = Host::new();
    host.fund(key(1), 1_000_000);
    host.fund(key(2), 1_000_000);
    let (first, first_bump) = find_pool(&key(1), "demo");
    let (second, second_bump) = find_pool(&key(2), "demo");
    assert_ne!(first, second);
    assert_eq!(host.create(signer(1), first, "demo", 1, first_bump), Ok(()));
    assert_eq!(host.create(signer(2), second, "demo", 1, second_bump), Ok(()));
    assert_eq!(host.pools[&first].data.pool_owner, key(1));
    assert_eq!(host.pools[&second].data.pool_owner, key(2));
}
