use vstd::prelude::*;

verus! {

/// The pool's own reasons to turn a payment down.
#[derive(Clone, Copy, Debug, PartialEq, Eq, Structural)]
pub enum PoolError {
    /// Every payer slot of the pool is taken.
    PayersFull,
    /// The account bound as the pool's owner is not the owner on record.
    WrongPoolOwner,
}

impl PoolError {
    /// The text that clients are shown for the error.
    pub open spec fn message_spec(self) -> Seq<char> {
        match self {
            PoolError::PayersFull => "Payer list is full"@,
            PoolError::WrongPoolOwner => "Pool owner is wrong"@,
        }
    }

    /// The text that clients are shown for the error.
    pub fn message(&self) -> (text: String)
        ensures
            text@ == self.message_spec(),
    {
        match self {
            PoolError::PayersFull => "Payer list is full".to_string(),
            PoolError::WrongPoolOwner => "Pool owner is wrong".to_string(),
        }
    }
}

/// Why an entry point ended without effect. Whatever the reason, nothing
/// that the call did is kept.
#[derive(Clone, Copy, Debug, PartialEq, Eq, Structural)]
pub enum Failure {
    /// One of the pool's own errors.
    Pool(PoolError),
    /// The seeds and the bump do not derive the address of the account
    /// bound as the pool.
    SeedsMismatch,
    /// The user did not sign the transaction.
    MissingSignature,
    /// The runtime refused what the entry point asked of it, with this code.
    Host { code: u64 },
}

/// Why bytes are not the record of a pool.
#[derive(Clone, Copy, Debug, PartialEq, Eq, Structural)]
pub enum RecordError {
    /// The bytes do not begin with the type tag of a pool.
    WrongType,
    /// The bytes end before the record does.
    Truncated,
    /// The bytes of the name are not UTF-8.
    InvalidName,
    /// More payers are on record than the pool takes.
    TooManyPayers,
}

} // verus!
