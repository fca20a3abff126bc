//! The persisted layout of an entry record, and the header tags.
//!
//! Every stored record is prefixed with a fixed-width eight-byte tag that
//! distinguishes a live typed record from closed / tombstoned storage. The
//! tag is the sole signal the reclamation sweep trusts. An entry record is
//! 82 bytes: the tag, a one-byte init flag, the 32-byte user address, a
//! one-byte address disambiguator, an eight-byte little-endian timestamp,
//! and the 32-byte token-account address.

use vstd::prelude::*;
use vstd::bytes::{spec_u64_from_le_bytes, spec_u64_to_le_bytes, u64_from_le_bytes, u64_to_le_bytes};
use crate::entry::LotteryAccount;
use crate::keys::Pubkey;

verus! {

/// Total bytes backing one entry record.
pub const RECORD_SPACE: usize = 82;

/// Length of the header tag.
pub const TAG_LEN: usize = 8;

/// Every byte of the closed tombstone tag.
pub const CLOSED_TAG_BYTE: u8 = 255;

/// The tag that marks a live entry record.
pub open spec fn entry_tag() -> Seq<u8> {
    seq![101u8, 110u8, 116u8, 114u8, 121u8, 114u8, 101u8, 99u8]
}

/// The tag that marks closed / tombstoned storage.
pub open spec fn closed_tag() -> Seq<u8> {
    seq![255u8, 255u8, 255u8, 255u8, 255u8, 255u8, 255u8, 255u8]
}

/// The header tag of stored bytes.
pub open spec fn tag_of(d: Seq<u8>) -> Seq<u8>
    recommends
        d.len() >= 8,
{
    d.subrange(0, 8)
}

/// Whether stored bytes are tombstoned: long enough to carry a tag, and the
/// tag equals the closed tombstone value.
pub open spec fn is_tombstone(d: Seq<u8>) -> bool {
    d.len() >= 8 && tag_of(d) == closed_tag()
}

/// The init flag of a live entry record's bytes.
pub open spec fn init_flag_of(d: Seq<u8>) -> bool
    recommends
        is_live_entry(d),
{
    d[8] == 1u8
}

/// The owning user's address in a live entry record's bytes.
pub open spec fn user_of(d: Seq<u8>) -> Seq<u8>
    recommends
        is_live_entry(d),
{
    d.subrange(9, 41)
}

/// The address disambiguator in a live entry record's bytes.
pub open spec fn bump_of(d: Seq<u8>) -> u8
    recommends
        is_live_entry(d),
{
    d[41]
}

/// The creation timestamp in a live entry record's bytes.
pub open spec fn timestamp_of(d: Seq<u8>) -> int
    recommends
        is_live_entry(d),
{
    spec_u64_from_le_bytes(d.subrange(42, 50)) as int
}

/// The bound token account in a live entry record's bytes.
pub open spec fn token_account_of(d: Seq<u8>) -> Seq<u8>
    recommends
        is_live_entry(d),
{
    d.subrange(50, 82)
}

/// Whether stored bytes are a well-formed live entry record: exactly the
/// record size, the live tag, a boolean init byte, and a timestamp that fits
/// a signed 64-bit second count.
pub open spec fn is_live_entry(d: Seq<u8>) -> bool {
    &&& d.len() == 82
    &&& tag_of(d) == entry_tag()
    &&& (d[8] == 0u8 || d[8] == 1u8)
    &&& spec_u64_from_le_bytes(d.subrange(42, 50)) <= i64::MAX as u64
}

/// The exact bytes that persist an entry record.
pub open spec fn spec_serialize(e: LotteryAccount) -> Seq<u8> {
    entry_tag() + seq![if e.is_initialized { 1u8 } else { 0u8 }] + e.user@ + seq![e.bump]
        + spec_u64_to_le_bytes(e.timestamp as u64) + e.user_ata@
}

/// Tombstoning keeps the stored bytes but overwrites the tag with the closed
/// value, exactly as the host's close path does.
pub open spec fn tombstone_of(d: Seq<u8>) -> Seq<u8> {
    closed_tag() + d.skip(8)
}

/// Serialization is faithful: each field of the record can be read back from
/// the exact position the layout gives it, and the result is a live entry.
pub proof fn lemma_serialize_fields(e: LotteryAccount)
    requires
        0 <= e.timestamp,
    ensures
        spec_serialize(e).len() == 82,
        is_live_entry(spec_serialize(e)),
        !is_tombstone(spec_serialize(e)),
        init_flag_of(spec_serialize(e)) == e.is_initialized,
        user_of(spec_serialize(e)) == e.user@,
        bump_of(spec_serialize(e)) == e.bump,
        timestamp_of(spec_serialize(e)) == e.timestamp,
        token_account_of(spec_serialize(e)) == e.user_ata@,
{
    vstd::bytes::lemma_auto_spec_u64_to_from_le_bytes();
    let d = spec_serialize(e);
    assert(d.len() == 82);
    assert(tag_of(d) =~= entry_tag());
    assert(user_of(d) =~= e.user@);
    assert(d.subrange(42, 50) =~= spec_u64_to_le_bytes(e.timestamp as u64));
    assert(token_account_of(d) =~= e.user_ata@);
}

/// A tombstoned record keeps its length and its body, carries the closed
/// tag, and is never a live entry.
pub proof fn lemma_tombstone(d: Seq<u8>)
    requires
        d.len() >= 8,
    ensures
        tombstone_of(d).len() == d.len(),
        is_tombstone(tombstone_of(d)),
        !is_live_entry(tombstone_of(d)),
        tombstone_of(d).skip(8) == d.skip(8),
{
    let t = tombstone_of(d);
    assert(tag_of(t) =~= closed_tag());
    assert(t.skip(8) =~= d.skip(8));
    assert(tag_of(t) != entry_tag()) by {
        assert(tag_of(t)[0] == 255u8);
        assert(entry_tag()[0] == 101u8);
    }
}

/// One byte of the live entry tag.
fn entry_tag_byte(i: usize) -> (r: u8)
    requires
        i < 8,
    ensures
        r == entry_tag()[i as int],
{
    if i == 0 {
        101
    } else if i == 1 {
        110
    } else if i == 2 {
        116
    } else if i == 3 {
        114
    } else if i == 4 {
        121
    } else if i == 5 {
        114
    } else if i == 6 {
        101
    } else {
        99
    }
}

/// Writes an entry record in its persisted layout.
pub fn serialize_entry(e: &LotteryAccount) -> (r: Vec<u8>)
    requires
        0 <= e.timestamp,
    ensures
        r@ == spec_serialize(*e),
        r@.len() == 82,
{
    let mut out: Vec<u8> = Vec::new();
    let mut i: usize = 0;
    while i < 8
        invariant
            i <= 8,
            out@ =~= entry_tag().take(i as int),
        decreases 8 - i,
    {
        out.push(entry_tag_byte(i));
        i += 1;
    }
    out.push(if e.is_initialized { 1 } else { 0 });
    out.extend_from_slice(e.user.bytes.as_slice());
    out.push(e.bump);
    let ts = u64_to_le_bytes(e.timestamp as u64);
    out.extend_from_slice(ts.as_slice());
    out.extend_from_slice(e.user_ata.bytes.as_slice());
    proof {
        assert(out@ =~= spec_serialize(*e));
    }
    out
}

/// Reads the header tag and decides whether the bytes are tombstoned.
pub fn has_closed_tag(data: &Vec<u8>) -> (r: bool)
    requires
        data@.len() >= 8,
    ensures
        r == is_tombstone(data@),
{
    let mut i: usize = 0;
    while i < 8
        invariant
            i <= 8,
            data@.len() >= 8,
            forall|j: int| 0 <= j < i ==> data@[j] == 255u8,
        decreases 8 - i,
    {
        if data[i] != CLOSED_TAG_BYTE {
            proof {
                assert(tag_of(data@)[i as int] != closed_tag()[i as int]);
            }
            return false;
        }
        i += 1;
    }
    proof {
        assert(tag_of(data@) =~= closed_tag());
    }
    true
}

/// Decides whether stored bytes are a well-formed live entry record.
pub fn check_live(data: &Vec<u8>) -> (r: bool)
    ensures
        r == is_live_entry(data@),
{
    if data.len() != RECORD_SPACE {
        return false;
    }
    let mut i: usize = 0;
    while i < 8
        invariant
            i <= 8,
            data@.len() == 82,
            forall|j: int| 0 <= j < i ==> data@[j] == entry_tag()[j],
        decreases 8 - i,
    {
        if data[i] != entry_tag_byte(i) {
            proof {
                assert(tag_of(data@)[i as int] != entry_tag()[i as int]);
            }
            return false;
        }
        i += 1;
    }
    proof {
        assert(tag_of(data@) =~= entry_tag());
    }
    if data[8] > 1 {
        return false;
    }
    let ts = read_timestamp_raw(data);
    if ts > i64::MAX as u64 {
        return false;
    }
    true
}

/// Reads the stored timestamp bytes as an unsigned count.
fn read_timestamp_raw(data: &Vec<u8>) -> (r: u64)
    requires
        data@.len() == 82,
    ensures
        r == spec_u64_from_le_bytes(data@.subrange(42, 50)),
{
    let mut ts_bytes: Vec<u8> = Vec::new();
    let mut i: usize = 42;
    while i < 50
        invariant
            42 <= i <= 50,
            data@.len() == 82,
            ts_bytes@ =~= data@.subrange(42, i as int),
        decreases 50 - i,
    {
        ts_bytes.push(data[i]);
        i += 1;
    }
    u64_from_le_bytes(ts_bytes.as_slice())
}

/// Reads the creation timestamp of a live entry record.
pub fn read_timestamp(data: &Vec<u8>) -> (r: i64)
    requires
        is_live_entry(data@),
    ensures
        r == timestamp_of(data@),
        0 <= r,
{
    let raw = read_timestamp_raw(data);
    raw as i64
}

/// Reads stored bytes back as a typed entry record; succeeds exactly on a
/// well-formed live entry, and then returns the record the bytes persist.
pub fn parse_entry(data: &Vec<u8>) -> (r: Option<LotteryAccount>)
    ensures
        match r {
            Some(e) => {
                &&& is_live_entry(data@)
                &&& e.is_initialized == init_flag_of(data@)
                &&& e.user@ == user_of(data@)
                &&& e.bump == bump_of(data@)
                &&& e.timestamp == timestamp_of(data@)
                &&& e.user_ata@ == token_account_of(data@)
            },
            None => !is_live_entry(data@),
        },
{
    if !check_live(data) {
        return None;
    }
    let mut user = [0u8; 32];
    let mut i: usize = 0;
    while i < 32
        invariant
            i <= 32,
            data@.len() == 82,
            forall|j: int| 0 <= j < i ==> user@[j] == data@[9 + j],
        decreases 32 - i,
    {
        user[i] = data[9 + i];
        i += 1;
    }
    let mut ata = [0u8; 32];
    let mut k: usize = 0;
    while k < 32
        invariant
            k <= 32,
            data@.len() == 82,
            forall|j: int| 0 <= j < k ==> ata@[j] == data@[50 + j],
        decreases 32 - k,
    {
        ata[k] = data[50 + k];
        k += 1;
    }
    let timestamp = read_timestamp(data);
    proof {
        assert(user@ =~= user_of(data@));
        assert(ata@ =~= token_account_of(data@));
    }
    Some(
        LotteryAccount {
            is_initialized: data[8] == 1,
            user: Pubkey { bytes: user },
            bump: data[41],
            timestamp,
            user_ata: Pubkey { bytes: ata },
        },
    )
}

/// Round trip: the persisted bytes of a record pin the record itself. Any
/// record whose fields read back from `spec_serialize(e)` is `e` - so
/// parsing what was serialized returns the record that was written.
pub proof fn lemma_codec_round_trip(e: LotteryAccount, e2: LotteryAccount)
    requires
        0 <= e.timestamp,
        e2.is_initialized == init_flag_of(spec_serialize(e)),
        e2.user@ == user_of(spec_serialize(e)),
        e2.bump == bump_of(spec_serialize(e)),
        e2.timestamp == timestamp_of(spec_serialize(e)),
        e2.user_ata@ == token_account_of(spec_serialize(e)),
    ensures
        e2 == e,
{
    lemma_serialize_fields(e);
    assert(e2.user.bytes =~= e.user.bytes);
    assert(e2.user_ata.bytes =~= e.user_ata.bytes);
}

/// Compares 32 stored bytes, starting at `off`, against an address.
pub(crate) fn bytes_eq_at(data: &Vec<u8>, off: usize, key: &Pubkey) -> (r: bool)
    requires
        off + 32 <= data@.len(),
    ensures
        r <==> data@.subrange(off as int, off as int + 32) == key@,
{
    let n = data.len();
    let mut i: usize = 0;
    while i < 32
        invariant
            i <= 32,
            off + 32 <= n == data@.len(),
            forall|j: int| 0 <= j < i ==> data@[off + j] == key@[j],
        decreases 32 - i,
    {
        if data[off + i] != key.bytes[i] {
            proof {
                assert(data@.subrange(off as int, off as int + 32)[i as int] != key@[i as int]);
            }
            return false;
        }
        i += 1;
    }
    proof {
        assert(data@.subrange(off as int, off as int + 32) =~= key@);
    }
    true
}

} // verus!
