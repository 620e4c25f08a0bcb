use crate::error::RecordError;
use crate::pool::{lemma_utf8_len, record_len, used_len, Pool, PoolView};
use crate::pubkey::Pubkey;
use vstd::bytes::{
    lemma_auto_spec_u16_to_from_le_bytes, lemma_auto_spec_u32_to_from_le_bytes,
    spec_u16_from_le_bytes, spec_u16_to_le_bytes, spec_u32_from_le_bytes, spec_u32_to_le_bytes,
    u16_from_le_bytes, u16_to_le_bytes, u32_from_le_bytes, u32_to_le_bytes,
};
use vstd::prelude::*;
use vstd::slice::slice_to_vec;
use vstd::utf8::{encode_utf8, encode_utf8_decode_utf8, encode_utf8_valid_utf8, valid_utf8};

verus! {

/// Where the owner lies in a record, behind the type tag.
pub const OWNER_OFFSET: usize = 8;

/// Where the bump lies in a record.
pub const BUMP_OFFSET: usize = 40;

/// Where the capacity lies in a record.
pub const CAPACITY_OFFSET: usize = 41;

/// Where the length of the name lies in a record; the name follows it.
pub const NAME_OFFSET: usize = 43;

/// The payers' addresses, one after the other.
pub open spec fn payer_bytes(payers: Seq<Pubkey>) -> Seq<u8>
    decreases payers.len(),
{
    if payers.len() == 0 {
        Seq::empty()
    } else {
        payer_bytes(payers.drop_last()) + payers.last()@
    }
}

/// Zero bytes, `count` of them.
pub open spec fn zeros(count: nat) -> Seq<u8> {
    Seq::new(count, |i: int| 0u8)
}

/// The part of a record that means something: the type tag, the owner, the
/// bump, the capacity, the name behind its length, and the payers behind
/// their count. Numbers are little-endian.
pub open spec fn used_bytes(discriminator: Seq<u8>, pool: PoolView) -> Seq<u8> {
    discriminator + pool.pool_owner@ + seq![pool.bump] + spec_u16_to_le_bytes(pool.capacity)
        + spec_u32_to_le_bytes(pool.name_bytes().len() as u32) + pool.name_bytes()
        + spec_u32_to_le_bytes(pool.payers.len() as u32) + payer_bytes(pool.payers)
}

/// A record as it is stored: the part that means something, and zeros in
/// the payer slots that are still free.
pub open spec fn record_bytes(discriminator: Seq<u8>, pool: PoolView) -> Seq<u8> {
    used_bytes(discriminator, pool) + zeros((32 * (pool.capacity - pool.payers.len())) as nat)
}

/// `bytes` hold the record of `pool`: they begin with the part of the
/// record that means something, and go on at least to the end of the last
/// payer slot. What the free slots hold does not matter.
pub open spec fn holds_record(discriminator: Seq<u8>, bytes: Seq<u8>, pool: PoolView) -> bool {
    &&& pool.wf()
    &&& pool.name_bytes().len() <= u32::MAX
    &&& used_bytes(discriminator, pool).is_prefix_of(bytes)
    &&& bytes.len() >= record_len(pool.name_bytes().len(), pool.capacity)
}

/// What is wrong with `bytes` as the record of a pool, if anything. The
/// first of these decides: the bytes do not begin with the type tag; they
/// end before the name does, or before the count of the payers; the name is
/// not UTF-8; more payers are counted than the capacity allows; the bytes
/// end before the last payer slot does.
pub open spec fn record_fault(discriminator: Seq<u8>, bytes: Seq<u8>) -> Option<RecordError> {
    if bytes.len() < 8 || bytes.subrange(0, 8) != discriminator {
        Some(RecordError::WrongType)
    } else if bytes.len() < 47 {
        Some(RecordError::Truncated)
    } else {
        let capacity = spec_u16_from_le_bytes(bytes.subrange(41, 43)) as int;
        let n = spec_u32_from_le_bytes(bytes.subrange(43, 47)) as int;
        if bytes.len() < 51 + n {
            Some(RecordError::Truncated)
        } else if !valid_utf8(bytes.subrange(47, 47 + n)) {
            Some(RecordError::InvalidName)
        } else if spec_u32_from_le_bytes(bytes.subrange(47 + n, 51 + n)) > capacity {
            Some(RecordError::TooManyPayers)
        } else if bytes.len() < 51 + n + 32 * capacity {
            Some(RecordError::Truncated)
        } else {
            None
        }
    }
}

/// `String::from_utf8` of std: the text that the bytes encode, where they
/// are UTF-8, and nothing where they are not.
#[verifier::external_body]
fn string_from_utf8(bytes: Vec<u8>) -> (text: Option<String>)
    ensures
        text is Some <==> valid_utf8(bytes@),
        text matches Some(t) ==> encode_utf8(t@) == bytes@,
{
    match String::from_utf8(bytes) {
        Ok(t) => Some(t),
        Err(_) => None,
    }
}

/// Appends `bytes` to `out`.
fn append(out: &mut Vec<u8>, bytes: &[u8])
    ensures
        final(out)@ == old(out)@ + bytes@,
{
    let mut i: usize = 0;
    while i < bytes.len()
        invariant
            i <= bytes.len(),
            out@ == old(out)@ + bytes@.take(i as int),
        decreases bytes.len() - i,
    {
        out.push(bytes[i]);
        i += 1;
    }
}

/// Whether `bytes` begin with `prefix`.
fn starts_with(bytes: &[u8], prefix: &[u8]) -> (r: bool)
    requires
        prefix@.len() <= bytes@.len(),
    ensures
        r == (bytes@.subrange(0, prefix@.len() as int) == prefix@),
{
    let mut i: usize = 0;
    while i < prefix.len()
        invariant
            i <= prefix.len(),
            prefix@.len() <= bytes@.len(),
            forall|j: int| 0 <= j < i ==> bytes@[j] == prefix@[j],
        decreases prefix.len() - i,
    {
        if bytes[i] != prefix[i] {
            return false;
        }
        i += 1;
    }
    assert(bytes@.subrange(0, prefix@.len() as int) =~= prefix@);
    true
}

/// The address that lies in `bytes` at `offset`.
fn key_at(bytes: &[u8], offset: usize) -> (key: Pubkey)
    requires
        offset + 32 <= bytes@.len(),
    ensures
        key@ == bytes@.subrange(offset as int, offset + 32),
{
    let total = bytes.len();
    let mut key = Pubkey { bytes: [0u8; 32] };
    let mut i: usize = 0;
    while i < 32
        invariant
            i <= 32,
            offset + 32 <= total == bytes@.len(),
            forall|j: int| 0 <= j < i ==> key.bytes[j] == bytes@[offset + j],
        decreases 32 - i,
    {
        key.bytes[i] = bytes[offset + i];
        i += 1;
    }
    key
}

impl Pool {
    /// The record as it is stored behind the type tag `discriminator`: as
    /// long as the storage reserved for the pool, with zeros in the free
    /// slots.
    pub fn encode(&self, discriminator: &[u8; 8]) -> (bytes: Vec<u8>)
        requires
            self.wf(),
            self@.name_fits(),
        ensures
            bytes@ == record_bytes(discriminator@, self@),
            holds_record(discriminator@, bytes@, self@),
    {
        proof {
            lemma_utf8_len(self.name@);
            lemma_encoded_record_holds(discriminator@, self@);
        }
        let mut out: Vec<u8> = Vec::new();
        append(&mut out, discriminator.as_slice());
        append(&mut out, self.pool_owner.bytes.as_slice());
        out.push(self.bump);
        append(&mut out, u16_to_le_bytes(self.capacity).as_slice());
        let name = self.name.as_str().as_bytes();
        append(&mut out, u32_to_le_bytes(name.len() as u32).as_slice());
        append(&mut out, name);
        append(&mut out, u32_to_le_bytes(self.payers.len() as u32).as_slice());
        let ghost header = out@;
        let mut i: usize = 0;
        while i < self.payers.len()
            invariant
                i <= self.payers.len(),
                out@ == header + payer_bytes(self.payers@.take(i as int)),
            decreases self.payers.len() - i,
        {
            append(&mut out, self.payers[i].bytes.as_slice());
            i += 1;
            proof {
                let done = self.payers@.take(i as int);
                assert(done.drop_last() =~= self.payers@.take(i - 1));
            }
        }
        assert(self.payers@.take(i as int) =~= self.payers@);
        let free: usize = (self.capacity as usize - self.payers.len()) * 32;
        let mut j: usize = 0;
        while j < free
            invariant
                j <= free,
                out@ == used_bytes(discriminator@, self@) + zeros(j as nat),
            decreases free - j,
        {
            out.push(0);
            j += 1;
        }
        out
    }

    /// Reads the record of a pool from the bytes of its account, which
    /// begin with the type tag `discriminator`. The free slots and what
    /// follows the last slot are not read. Bytes that hold the record of a
    /// pool are read as that pool and no other.
    pub fn decode(bytes: &[u8], discriminator: &[u8; 8]) -> (r: Result<Pool, RecordError>)
        ensures
            match r {
                Ok(pool) => record_fault(discriminator@, bytes@) is None && holds_record(
                    discriminator@,
                    bytes@,
                    pool@,
                ),
                Err(fault) => record_fault(discriminator@, bytes@) == Some(fault),
            },
            forall|held: PoolView| #[trigger]
                holds_record(discriminator@, bytes@, held) ==> (r matches Ok(pool) && pool@
                    == held),
    {
        proof {
            assert forall|held: PoolView| #[trigger]
                holds_record(discriminator@, bytes@, held) implies record_fault(
                discriminator@,
                bytes@,
            ) is None by {
                lemma_held_record_has_no_fault(discriminator@, bytes@, held);
            }
        }
        if bytes.len() < 8 || !starts_with(bytes, discriminator.as_slice()) {
            return Err(RecordError::WrongType);
        }
        if bytes.len() < 47 {
            return Err(RecordError::Truncated);
        }
        let pool_owner = key_at(bytes, OWNER_OFFSET);
        let bump = bytes[BUMP_OFFSET];
        let capacity = u16_from_le_bytes(&bytes[CAPACITY_OFFSET..NAME_OFFSET]);
        let n = u32_from_le_bytes(&bytes[NAME_OFFSET..47]) as usize;
        if bytes.len() - 47 < 4 || bytes.len() - 51 < n {
            return Err(RecordError::Truncated);
        }
        let name = match string_from_utf8(slice_to_vec(&bytes[47..47 + n])) {
            Some(text) => text,
            None => {
                return Err(RecordError::InvalidName);
            },
        };
        let count = u32_from_le_bytes(&bytes[47 + n..51 + n]) as usize;
        if count > capacity as usize {
            return Err(RecordError::TooManyPayers);
        }
        if bytes.len() - 51 - n < 32 * (capacity as usize) {
            return Err(RecordError::Truncated);
        }
        let total = bytes.len();
        let slots = 51 + n;
        let mut payers: Vec<Pubkey> = Vec::new();
        let mut i: usize = 0;
        while i < count
            invariant
                i <= count,
                count <= capacity,
                slots + 32 * capacity <= total == bytes@.len(),
                payers@.len() == i,
                payer_bytes(payers@) == bytes@.subrange(slots as int, slots + 32 * i),
            decreases count - i,
        {
            let ghost read = payers@;
            payers.push(key_at(bytes, slots + 32 * i));
            i += 1;
            proof {
                assert(payers@.drop_last() =~= read);
            }
        }
        let pool = Pool { pool_owner, bump, capacity, name, payers };
        proof {
            lemma_auto_spec_u16_to_from_le_bytes();
            lemma_auto_spec_u32_to_from_le_bytes();
            assert(holds_record(discriminator@, bytes@, pool@));
            assert forall|held: PoolView| #[trigger]
                holds_record(discriminator@, bytes@, held) implies pool@ == held by {
                lemma_record_is_unique(discriminator@, bytes@, pool@, held);
            }
        }
        Ok(pool)
    }
}

/// Each payer takes 32 bytes, and lies at 32 times its place.
pub proof fn lemma_payer_bytes_slot(payers: Seq<Pubkey>, i: int)
    requires
        0 <= i < payers.len(),
    ensures
        payer_bytes(payers).len() == 32 * payers.len(),
        payer_bytes(payers).subrange(32 * i, 32 * i + 32) == payers[i]@,
    decreases payers.len(),
{
    lemma_payer_bytes_len(payers.drop_last());
    if i == payers.len() - 1 {
    } else {
        lemma_payer_bytes_slot(payers.drop_last(), i);
        assert(payer_bytes(payers).subrange(32 * i, 32 * i + 32) =~= payer_bytes(
            payers.drop_last(),
        ).subrange(32 * i, 32 * i + 32));
    }
}

/// Each payer takes 32 bytes.
pub proof fn lemma_payer_bytes_len(payers: Seq<Pubkey>)
    ensures
        payer_bytes(payers).len() == 32 * payers.len(),
    decreases payers.len(),
{
    if payers.len() > 0 {
        lemma_payer_bytes_len(payers.drop_last());
    }
}

/// The layout of a record. It is exactly as long as the storage reserved
/// for the pool, and each field lies at its offset: the type tag at 0, the
/// owner at 8, the bump at 40, the capacity at 41, the length of the name at
/// 43 and the name at 47; behind the name the count of the payers, and then
/// the payers, 32 bytes each. The free slots hold zeros.
pub proof fn lemma_record_layout(discriminator: Seq<u8>, pool: PoolView)
    requires
        discriminator.len() == 8,
        pool.wf(),
    ensures
        ({
            let record = record_bytes(discriminator, pool);
            let used = used_bytes(discriminator, pool);
            let n = pool.name_bytes().len() as int;
            let k = pool.payers.len() as int;
            &&& record.len() == record_len(pool.name_bytes().len(), pool.capacity)
            &&& used.len() == used_len(pool.name_bytes().len(), pool.payers.len())
            &&& used.is_prefix_of(record)
            &&& used.subrange(0, 8) == discriminator
            &&& used.subrange(8, 40) == pool.pool_owner@
            &&& used[40] == pool.bump
            &&& used.subrange(41, 43) == spec_u16_to_le_bytes(pool.capacity)
            &&& used.subrange(43, 47) == spec_u32_to_le_bytes(n as u32)
            &&& used.subrange(47, 47 + n) == pool.name_bytes()
            &&& used.subrange(47 + n, 51 + n) == spec_u32_to_le_bytes(k as u32)
            &&& used.subrange(51 + n, 51 + n + 32 * k) == payer_bytes(pool.payers)
            &&& forall|i: int|
                0 <= i < k ==> #[trigger] used.subrange(51 + n + 32 * i, 51 + n + 32 * i + 32)
                    == pool.payers[i]@
            &&& forall|j: int| used.len() <= j < record.len() ==> record[j] == 0
        }),
{
    let used = used_bytes(discriminator, pool);
    let n = pool.name_bytes().len() as int;
    let k = pool.payers.len() as int;
    lemma_auto_spec_u16_to_from_le_bytes();
    lemma_auto_spec_u32_to_from_le_bytes();
    lemma_payer_bytes_len(pool.payers);
    assert forall|i: int| 0 <= i < k implies #[trigger] used.subrange(
        51 + n + 32 * i,
        51 + n + 32 * i + 32,
    ) == pool.payers[i]@ by {
        lemma_payer_bytes_slot(pool.payers, i);
        assert(used.subrange(51 + n + 32 * i, 51 + n + 32 * i + 32) =~= payer_bytes(
            pool.payers,
        ).subrange(32 * i, 32 * i + 32));
    }
}

/// What `encode` writes for a pool holds the record of that pool.
pub proof fn lemma_encoded_record_holds(discriminator: Seq<u8>, pool: PoolView)
    requires
        discriminator.len() == 8,
        pool.wf(),
        pool.name_fits(),
    ensures
        holds_record(discriminator, record_bytes(discriminator, pool), pool),
{
    lemma_utf8_len(pool.name);
    lemma_record_layout(discriminator, pool);
}

/// Bytes that hold the record of a pool have no fault: `decode` reads them.
pub proof fn lemma_held_record_has_no_fault(discriminator: Seq<u8>, bytes: Seq<u8>, pool: PoolView)
    requires
        discriminator.len() == 8,
        holds_record(discriminator, bytes, pool),
    ensures
        record_fault(discriminator, bytes) is None,
{
    let used = used_bytes(discriminator, pool);
    let n = pool.name_bytes().len() as int;
    lemma_record_layout(discriminator, pool);
    lemma_auto_spec_u16_to_from_le_bytes();
    lemma_auto_spec_u32_to_from_le_bytes();
    encode_utf8_valid_utf8(pool.name);
    assert(bytes.subrange(0, 8) =~= used.subrange(0, 8));
    assert(bytes.subrange(41, 43) =~= used.subrange(41, 43));
    assert(bytes.subrange(43, 47) =~= used.subrange(43, 47));
    assert(bytes.subrange(47, 47 + n) =~= used.subrange(47, 47 + n));
    assert(bytes.subrange(47 + n, 51 + n) =~= used.subrange(47 + n, 51 + n));
}

/// Bytes hold the record of one pool at most: what `decode` reads from
/// them is the only pool whose record they hold.
pub proof fn lemma_record_is_unique(
    discriminator: Seq<u8>,
    bytes: Seq<u8>,
    pool: PoolView,
    other: PoolView,
)
    requires
        discriminator.len() == 8,
        holds_record(discriminator, bytes, pool),
        holds_record(discriminator, bytes, other),
    ensures
        pool == other,
{
    let used = used_bytes(discriminator, pool);
    let used2 = used_bytes(discriminator, other);
    let n = pool.name_bytes().len() as int;
    let k = pool.payers.len() as int;
    lemma_record_layout(discriminator, pool);
    lemma_record_layout(discriminator, other);
    lemma_auto_spec_u16_to_from_le_bytes();
    lemma_auto_spec_u32_to_from_le_bytes();
    assert(pool.pool_owner == other.pool_owner) by {
        assert(bytes.subrange(8, 40) =~= used.subrange(8, 40));
        assert(bytes.subrange(8, 40) =~= used2.subrange(8, 40));
        Pubkey::lemma_view_injective(pool.pool_owner, other.pool_owner);
    }
    assert(pool.bump == other.bump) by {
    }
    assert(pool.capacity == other.capacity) by {
        assert(bytes.subrange(41, 43) =~= used.subrange(41, 43));
        assert(bytes.subrange(41, 43) =~= used2.subrange(41, 43));
    }
    assert(other.name_bytes().len() == n) by {
        assert(bytes.subrange(43, 47) =~= used.subrange(43, 47));
        assert(bytes.subrange(43, 47) =~= used2.subrange(43, 47));
    }
    assert(pool.name == other.name) by {
        assert(bytes.subrange(47, 47 + n) =~= used.subrange(47, 47 + n));
        assert(bytes.subrange(47, 47 + n) =~= used2.subrange(47, 47 + n));
        encode_utf8_decode_utf8(pool.name);
        encode_utf8_decode_utf8(other.name);
    }
    assert(other.payers.len() == k) by {
        assert(bytes.subrange(47 + n, 51 + n) =~= used.subrange(47 + n, 51 + n));
        assert(bytes.subrange(47 + n, 51 + n) =~= used2.subrange(47 + n, 51 + n));
    }
    assert forall|i: int| 0 <= i < k implies pool.payers[i] == other.payers[i] by {
        let at = 51 + n + 32 * i;
        assert(bytes.subrange(at, at + 32) =~= used2.subrange(at, at + 32));
        Pubkey::lemma_view_injective(pool.payers[i], other.payers[i]);
    }
    assert(pool.payers =~= other.payers);
}

/// Writing a record and reading it back gives the pool that was written:
/// the bytes have no fault, and the pool is the only one that they hold.
pub proof fn lemma_round_trip(discriminator: Seq<u8>, pool: PoolView, read: PoolView)
    requires
        discriminator.len() == 8,
        pool.wf(),
        pool.name_fits(),
        holds_record(discriminator, record_bytes(discriminator, pool), read),
    ensures
        record_fault(discriminator, record_bytes(discriminator, pool)) is None,
        read == pool,
{
    lemma_encoded_record_holds(discriminator, pool);
    lemma_held_record_has_no_fault(discriminator, record_bytes(discriminator, pool), pool);
    lemma_record_is_unique(discriminator, record_bytes(discriminator, pool), pool, read);
}

} // verus!
