use crate::pubkey::Pubkey;
use vstd::prelude::*;
use vstd::string::StringSliceAdditionalSpecFns;
use vstd::utf8::encode_utf8;

verus! {

/// The record of one pool: who owns it, how many payers it takes, and who
/// has paid so far.
#[derive(Clone, Debug, PartialEq, Eq)]
pub struct Pool {
    /// The account that created the pool. Never changes.
    pub pool_owner: Pubkey,
    /// The bump with which the seeds derive the pool's address.
    pub bump: u8,
    /// The most payers that the pool takes.
    pub capacity: u16,
    /// The pool's name.
    pub name: String,
    /// Who has paid, in order of arrival; one account may stand there more
    /// than once.
    pub payers: Vec<Pubkey>,
}

/// A pool record as a plain value.
pub struct PoolView {
    pub pool_owner: Pubkey,
    pub bump: u8,
    pub capacity: u16,
    pub name: Seq<char>,
    pub payers: Seq<Pubkey>,
}

impl PoolView {
    /// The payers fit the capacity.
    pub open spec fn wf(self) -> bool {
        self.payers.len() <= self.capacity
    }

    /// No payer slot is left.
    pub open spec fn is_full(self) -> bool {
        self.payers.len() >= self.capacity
    }

    /// The record with one more payer at the end.
    pub open spec fn with_payer(self, payer: Pubkey) -> PoolView {
        PoolView { payers: self.payers.push(payer), ..self }
    }

    /// The record without its last payer; the same record where it has
    /// none.
    pub open spec fn without_last_payer(self) -> PoolView {
        if self.payers.len() > 0 {
            PoolView { payers: self.payers.drop_last(), ..self }
        } else {
            self
        }
    }

    /// The bytes of the pool's name.
    pub open spec fn name_bytes(self) -> Seq<u8> {
        encode_utf8(self.name)
    }

    /// The length of the name can be said in the four bytes that stand in
    /// front of it in the record. It is enough that it could be if each
    /// character of the name took four bytes.
    pub open spec fn name_fits(self) -> bool {
        self.name_bytes().len() <= u32::MAX || 4 * self.name.len() <= u32::MAX
    }
}

impl View for Pool {
    type V = PoolView;

    open spec fn view(&self) -> PoolView {
        PoolView {
            pool_owner: self.pool_owner,
            bump: self.bump,
            capacity: self.capacity,
            name: self.name@,
            payers: self.payers@,
        }
    }
}

/// Bytes that the type tag in front of every record takes.
pub const DISCRIMINATOR_LEN: usize = 8;

/// Bytes that one payer slot takes.
pub const PAYER_SLOT_LEN: usize = 32;

/// Bytes that the record of a pool takes whose name has `name_len` bytes
/// and which takes `capacity` payers: the type tag, the owner, the bump, the
/// capacity, the name behind its length, and the payer slots behind their
/// count.
pub open spec fn record_len(name_len: nat, capacity: u16) -> nat {
    8 + 32 + 1 + 2 + (4 + name_len) + (4 + (capacity as nat) * 32)
}

/// The record of a pool named `name` that takes `capacity` payers is not
/// longer than a machine word can say. It is enough that it would not be if
/// each character of the name took four bytes, the most that a character
/// takes.
pub open spec fn fits_machine_word(name: Seq<char>, capacity: u16) -> bool {
    record_len(encode_utf8(name).len(), capacity) <= usize::MAX || record_len(
        4 * name.len(),
        capacity,
    ) <= usize::MAX
}

/// Bytes of a record that are in use when the name has `name_len` bytes and
/// `payers` payers are on record.
pub open spec fn used_len(name_len: nat, payers: nat) -> nat {
    8 + 32 + 1 + 2 + (4 + name_len) + (4 + payers * 32)
}

impl Pool {
    /// The payers fit the capacity.
    pub open spec fn wf(&self) -> bool {
        self@.wf()
    }

    /// Bytes to reserve for the record of a pool named `name` that takes
    /// `capacity` payers. Reserved once, when the pool is made: the record
    /// never grows. A name of ASCII characters takes a byte for each.
    pub fn space(name: &str, capacity: u16) -> (bytes: usize)
        requires
            fits_machine_word(name@, capacity),
        ensures
            bytes == record_len(name.spec_bytes().len(), capacity),
            name.is_ascii() ==> bytes == record_len(name@.len(), capacity),
    {
        proof {
            lemma_utf8_len(name@);
        }
        // type tag + owner + bump + capacity
        DISCRIMINATOR_LEN + 32 + 1 + 2
        // the name behind its length
        + 4 + name.len()
        // the payer slots behind their count
        + 4 + (capacity as usize) * PAYER_SLOT_LEN
    }

    /// `space` for a caller who does not know how long the name is: the
    /// bytes to reserve, or nothing where their count does not fit a machine
    /// word.
    pub fn checked_space(name: &str, capacity: u16) -> (bytes: Option<usize>)
        ensures
            bytes is Some <==> fits_machine_word(name@, capacity),
            bytes matches Some(count) ==> count == record_len(name.spec_bytes().len(), capacity),
            bytes matches Some(count) ==> name.is_ascii() ==> count == record_len(
                name@.len(),
                capacity,
            ),
    {
        proof {
            lemma_utf8_len(name@);
        }
        let fixed: usize = DISCRIMINATOR_LEN + 32 + 1 + 2 + 4 + 4 + (capacity as usize)
            * PAYER_SLOT_LEN;
        let name_len = name.as_bytes().len();
        if name_len <= usize::MAX - fixed {
            Some(Pool::space(name, capacity))
        } else {
            None
        }
    }

    /// Whether every payer slot is taken.
    pub fn is_full(&self) -> (full: bool)
        ensures
            full == self@.is_full(),
    {
        self.payers.len() >= self.capacity as usize
    }
}

/// A text takes at least one byte for each of its characters, and at most
/// four.
pub proof fn lemma_utf8_len(text: Seq<char>)
    ensures
        text.len() <= encode_utf8(text).len() <= 4 * text.len(),
    decreases text.len(),
{
    if text.len() > 0 {
        lemma_utf8_len(text.drop_first());
    }
}

/// A record never outgrows what was reserved for it, and fills it to the
/// last byte when the last slot is taken.
pub proof fn lemma_record_fits(pool: PoolView)
    requires
        pool.wf(),
    ensures
        used_len(pool.name_bytes().len(), pool.payers.len()) <= record_len(
            pool.name_bytes().len(),
            pool.capacity,
        ),
        pool.is_full() <==> used_len(pool.name_bytes().len(), pool.payers.len()) == record_len(
            pool.name_bytes().len(),
            pool.capacity,
        ),
{
}

} // verus!
