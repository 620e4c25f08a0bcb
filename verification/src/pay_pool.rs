use crate::accounts::{PayPool, PayPoolView};
use crate::error::{Failure, PoolError};
use crate::instruction::{
    lemma_transfer_data_len, system_transfer, transfer_instruction, Instruction, InstructionView,
};
use crate::pubkey::Pubkey;
use crate::seeds::{derive_pool_address, pool_address};
use vstd::prelude::*;
use vstd::utf8::encode_utf8;

verus! {

/// What `pay_pool` asks of the runtime: an instruction, and the accounts
/// that the runtime is to bring to it.
#[derive(Clone, Debug, PartialEq, Eq)]
pub struct Invocation {
    pub instruction: Instruction,
    /// The accounts handed over with the instruction: the source, the
    /// destination, and the service that is called.
    pub accounts: Vec<Pubkey>,
}

/// An invocation as a plain value.
pub struct InvocationView {
    pub instruction: InstructionView,
    pub accounts: Seq<Pubkey>,
}

impl View for Invocation {
    type V = InvocationView;

    open spec fn view(&self) -> InvocationView {
        InvocationView { instruction: self.instruction@, accounts: self.accounts@ }
    }
}

/// Why `pay_pool` turns a call down, if it does. The tests are made in this
/// order and the first that fails decides: the account bound as the owner
/// is the owner on record; the owner's address, the name and the bump on
/// record derive the pool's address; a payer slot is free; the user has
/// signed. `address_matches` says whether the seeds and the bump derive the
/// pool's address.
pub open spec fn pay_pool_refusal(address_matches: bool, accounts: PayPoolView) -> Option<
    Failure,
> {
    if accounts.pool.data.pool_owner != accounts.pool_owner {
        Some(Failure::Pool(PoolError::WrongPoolOwner))
    } else if !address_matches {
        Some(Failure::SeedsMismatch)
    } else if accounts.pool.data.is_full() {
        Some(Failure::Pool(PoolError::PayersFull))
    } else if !accounts.user.is_signer {
        Some(Failure::MissingSignature)
    } else {
        None
    }
}

/// The transfer that goes with a payment: `payment` from the user to the
/// pool, by the system program.
pub open spec fn payment_transfer(accounts: PayPoolView, payment: u64) -> InvocationView {
    InvocationView {
        instruction: transfer_instruction(accounts.user.key, accounts.pool.key, payment),
        accounts: seq![accounts.user.key, accounts.pool.key, accounts.system_program],
    }
}

/// `pay_pool` from the point where the address has been derived: `derived`
/// is what the owner's address, the name and the bump on record yield under
/// the program.
pub fn pay_pool_with_address(derived: Option<Pubkey>, accounts: &mut PayPool, payment: u64) -> (r:
    Result<Invocation, Failure>)
    ensures
        match pay_pool_refusal(derived == Some(old(accounts).pool.key), old(accounts)@) {
            Some(failure) => r == Err::<Invocation, Failure>(failure) && *final(accounts) == *old(
                accounts,
            ),
            None => r matches Ok(invocation) && invocation@ == payment_transfer(
                old(accounts)@,
                payment,
            ) && final(accounts)@ == old(accounts)@.paid(),
        },
        r matches Ok(invocation) ==> invocation.instruction.data@.len() == 12,
        old(accounts).pool.data.wf() ==> final(accounts).pool.data.wf(),
{
    proof {
        lemma_transfer_data_len(payment);
    }
    if accounts.pool.data.pool_owner != accounts.pool_owner {
        return Err(Failure::Pool(PoolError::WrongPoolOwner));
    }
    let matches_pool = match derived {
        Some(address) => address == accounts.pool.key,
        None => false,
    };
    if !matches_pool {
        return Err(Failure::SeedsMismatch);
    }
    if accounts.pool.data.is_full() {
        return Err(Failure::Pool(PoolError::PayersFull));
    }
    if !accounts.user.is_signer {
        return Err(Failure::MissingSignature);
    }
    accounts.pool.data.payers.push(accounts.user.key);
    let instruction = system_transfer(&accounts.user.key, &accounts.pool.key, payment);
    let mut handed: Vec<Pubkey> = Vec::new();
    handed.push(accounts.user.key);
    handed.push(accounts.pool.key);
    handed.push(accounts.system_program);
    assert(handed@ =~= payment_transfer(old(accounts)@, payment).accounts);
    Ok(Invocation { instruction, accounts: handed })
}

/// Puts the user on record as a payer of the pool and asks for the transfer
/// of `payment` from the user to the pool. Where the call is turned down,
/// nothing changes and no transfer is asked for. The payment stands only
/// once the runtime has made the transfer: see `settle_payment`.
pub fn pay_pool(program_id: &Pubkey, accounts: &mut PayPool, pool_name: String, payment: u64) -> (r:
    Result<Invocation, Failure>)
    ensures
        match pay_pool_refusal(
            pool_address(
                *program_id,
                old(accounts).pool_owner,
                encode_utf8(pool_name@),
                old(accounts).pool.data.bump,
            ) == Some(old(accounts).pool.key@),
            old(accounts)@,
        ) {
            Some(failure) => r == Err::<Invocation, Failure>(failure) && *final(accounts) == *old(
                accounts,
            ),
            None => r matches Ok(invocation) && invocation@ == payment_transfer(
                old(accounts)@,
                payment,
            ) && final(accounts)@ == old(accounts)@.paid(),
        },
        r matches Ok(invocation) ==> invocation.instruction.data@.len() == 12,
        old(accounts).pool.data.wf() ==> final(accounts).pool.data.wf(),
{
    proof {
        lemma_transfer_data_len(payment);
    }
    let derived = derive_pool_address(
        program_id,
        &accounts.pool_owner,
        pool_name.as_str(),
        accounts.pool.data.bump,
    );
    proof {
        if let Some(address) = derived {
            Pubkey::lemma_view_injective(address, accounts.pool.key);
        }
    }
    pay_pool_with_address(derived, accounts, payment)
}

/// Ends a payment that `pay_pool` has begun, with the runtime's answer to
/// the transfer. Where the transfer was made, the payer stays on record.
/// Where it was not, the payer is taken off again, so that the pool is as
/// it was before the payment, and the runtime's refusal is handed on.
pub fn settle_payment(accounts: &mut PayPool, transferred: Result<(), u64>) -> (r: Result<
    (),
    Failure,
>)
    ensures
        match transferred {
            Ok(_) => r is Ok && *final(accounts) == *old(accounts),
            Err(code) => r == Err::<(), Failure>((Failure::Host { code })) && final(accounts)@
                == old(accounts)@.unpaid(),
        },
        old(accounts).pool.data.wf() ==> final(accounts).pool.data.wf(),
{
    match transferred {
        Ok(_) => Ok(()),
        Err(code) => {
            accounts.pool.data.payers.pop();
            Err(Failure::Host { code })
        },
    }
}

} // verus!
