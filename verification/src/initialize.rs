use crate::error::Failure;
use vstd::prelude::*;

verus! {

/// The accounts that the runtime binds to `initialize`: none.
#[derive(Clone, Copy, Debug, PartialEq, Eq)]
pub struct Initialize {}

/// The entry point of a program that has nothing to set up: it reads
/// nothing, changes nothing, and succeeds.
pub fn initialize(accounts: &Initialize) -> (r: Result<(), Failure>)
    ensures
        r is Ok,
{
    Ok(())
}

} // verus!
