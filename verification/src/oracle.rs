use vstd::bytes::spec_u64_from_le_bytes;
use vstd::prelude::*;

verus! {

// Raw layout of an oracle randomness record, as the oracle crate lays it out:
// an 8-byte discriminator, then a packed record whose fields of interest sit
// at fixed offsets from the start of the raw bytes:
//   [0, 8)      discriminator
//   [104, 112)  seed checkpoint, little endian
//   [144, 152)  reveal checkpoint, little endian
//   [152, 184)  the 32 revealed random bytes
// and the whole record is 408 bytes long.

/// The discriminator that opens every well-formed oracle randomness record.
pub open spec fn record_discriminator() -> Seq<u8> {
    seq![10u8, 66u8, 229u8, 135u8, 220u8, 239u8, 217u8, 114u8]
}

/// Whether raw bytes parse as an oracle randomness record: long enough and
/// opened by the record discriminator.
pub open spec fn record_parses(data: Seq<u8>) -> bool {
    &&& data.len() >= 408
    &&& data.subrange(0, 8) == record_discriminator()
}

/// The checkpoint at which randomness was seeded, as stored in the record.
pub open spec fn record_seed_slot(data: Seq<u8>) -> u64 {
    spec_u64_from_le_bytes(data.subrange(104, 112))
}

/// The checkpoint at which the random value is revealed, as stored in the record.
pub open spec fn record_reveal_slot(data: Seq<u8>) -> u64 {
    spec_u64_from_le_bytes(data.subrange(144, 152))
}

/// The 32 revealed random bytes stored in the record.
pub open spec fn record_value(data: Seq<u8>) -> Seq<u8> {
    data.subrange(152, 184)
}

/// The parsed view of an oracle randomness record: exactly the fields the
/// settlement engine reads.
pub struct OracleRecord {
    /// The checkpoint at which randomness was seeded.
    pub seed_slot: u64,
    /// The revealed random bytes, if the record resolves at the queried
    /// checkpoint; `None` while the randomness is not yet resolved there.
    pub value: Option<Vec<u8>>,
}

impl OracleRecord {
    /// A resolved record always carries the oracle's full 32 value bytes.
    pub open spec fn wf(self) -> bool {
        self.value is Some ==> self.value->Some_0@.len() == 32
    }
}

/// Reads an oracle randomness record out of raw account bytes, resolving it
/// at the given current checkpoint.
///
/// Relies on `switchboard_on_demand::RandomnessAccountData::parse`, which
/// accepts exactly the bytes that open with the record discriminator and are
/// at least 408 bytes long, and on
/// `switchboard_on_demand::RandomnessAccountData::get_value`, which returns
/// the record's 32 value bytes exactly when the queried checkpoint equals the
/// record's reveal checkpoint and fails otherwise. The bytes are first copied
/// into an 8-aligned buffer, so that the parse's alignment requirement is met
/// and the outcome depends on the byte content alone.
#[verifier::external_body]
pub fn read_oracle(data: &Vec<u8>, current_slot: u64) -> (r: Option<OracleRecord>)
    ensures
        r is Some <==> record_parses(data@),
        r is Some ==> (r->Some_0).wf(),
        r is Some ==> (r->Some_0).seed_slot == record_seed_slot(data@),
        r is Some ==> ((r->Some_0).value is Some <==> current_slot == record_reveal_slot(data@)),
        r is Some && (r->Some_0).value is Some ==> (r->Some_0).value->Some_0@ == record_value(
            data@,
        ),
{
    let mut buf: Vec<u64> = vec![0u64; data.len() / 8 + 1];
    let bytes: &mut [u8] = bytemuck::cast_slice_mut(buf.as_mut_slice());
    let slice: &mut [u8] = &mut bytes[..data.len()];
    slice.copy_from_slice(data.as_slice());
    let cell = std::cell::RefCell::new(slice);
    let parsed = match switchboard_on_demand::RandomnessAccountData::parse(cell.borrow()) {
        Ok(rec) => Some(
            OracleRecord {
                seed_slot: rec.seed_slot,
                value: rec.get_value(current_slot).ok().map(|v| v.to_vec()),
            },
        ),
        Err(_) => None,
    };
    parsed
}

} // verus!
