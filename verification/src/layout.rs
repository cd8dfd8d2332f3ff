use vstd::prelude::*;
use vstd::bytes::lemma_auto_spec_u64_to_from_le_bytes;
use vstd::bytes::spec_u64_to_le_bytes;
use vstd::bytes::u64_from_le_bytes;
use vstd::bytes::u64_to_le_bytes;
use vstd::slice::slice_index_get;
use vstd::slice::slice_subrange;
use crate::stake::StakeAccount;

verus! {

/// Width in bytes of one stored stake record: a 32-byte owner, three
/// 8-byte little-endian integers, one flag byte. Any header the host
/// prepends to the stored account stands outside this record.
pub const RECORD_BYTES: usize = 57;

/// The 64-bit storage pattern of a signed second count: its value modulo
/// 2^64, i.e. two's complement.
pub open spec fn spec_time_bits(x: i64) -> u64 {
    if x >= 0 {
        x as u64
    } else {
        (x + 0x10000000000000000) as u64
    }
}

/// The stored form of a record: owner words, amount, the two times and the
/// consumption flag, each little-endian, in the order of the data model.
pub open spec fn spec_encode_record(rec: StakeAccount) -> Seq<u8> {
    spec_u64_to_le_bytes(rec.owner.w0) + spec_u64_to_le_bytes(rec.owner.w1)
        + spec_u64_to_le_bytes(rec.owner.w2) + spec_u64_to_le_bytes(rec.owner.w3)
        + spec_u64_to_le_bytes(rec.amount) + spec_u64_to_le_bytes(spec_time_bits(rec.start_time))
        + spec_u64_to_le_bytes(spec_time_bits(rec.end_time)) + seq![
        if rec.withdrawn {
            1u8
        } else {
            0u8
        },
    ]
}

/// Packs a signed time into its 64-bit storage pattern.
fn time_to_bits(x: i64) -> (r: u64)
    ensures
        r == spec_time_bits(x),
{
    if x >= 0 {
        x as u64
    } else {
        ((x as i128) + 0x10000000000000000i128) as u64
    }
}

/// Recovers a signed time from its 64-bit storage pattern.
fn bits_to_time(u: u64) -> (r: i64)
    ensures
        spec_time_bits(r) == u,
{
    if u <= i64::MAX as u64 {
        u as i64
    } else {
        ((u as i128) - 0x10000000000000000i128) as i64
    }
}

/// Two distinct times never share a storage pattern.
proof fn lemma_time_bits_injective(a: i64, b: i64)
    requires
        spec_time_bits(a) == spec_time_bits(b),
    ensures
        a == b,
{
}

/// Serializes a stake record into its fixed-width stored form.
pub fn encode_record(rec: &StakeAccount) -> (out: Vec<u8>)
    ensures
        out@ == spec_encode_record(*rec),
        out@.len() == RECORD_BYTES,
{
    proof {
        lemma_auto_spec_u64_to_from_le_bytes();
    }
    let mut out: Vec<u8> = Vec::new();
    let mut part = u64_to_le_bytes(rec.owner.w0);
    out.append(&mut part);
    let mut part = u64_to_le_bytes(rec.owner.w1);
    out.append(&mut part);
    let mut part = u64_to_le_bytes(rec.owner.w2);
    out.append(&mut part);
    let mut part = u64_to_le_bytes(rec.owner.w3);
    out.append(&mut part);
    let mut part = u64_to_le_bytes(rec.amount);
    out.append(&mut part);
    let mut part = u64_to_le_bytes(time_to_bits(rec.start_time));
    out.append(&mut part);
    let mut part = u64_to_le_bytes(time_to_bits(rec.end_time));
    out.append(&mut part);
    out.push(if rec.withdrawn {
        1u8
    } else {
        0u8
    });
    proof {
        assert(out@ =~= spec_encode_record(*rec));
    }
    out
}

/// Deserializes a stored stake record.
///
/// Returns `None` exactly when no record has this stored form: a length
/// other than `RECORD_BYTES`, or a flag byte that is neither 0 nor 1.
pub fn decode_record(bytes: &[u8]) -> (r: Option<StakeAccount>)
    ensures
        match r {
            Some(rec) => bytes@ == spec_encode_record(rec),
            None => bytes@.len() != RECORD_BYTES || (bytes@[56] != 0 && bytes@[56] != 1),
        },
{
    proof {
        lemma_auto_spec_u64_to_from_le_bytes();
    }
    if bytes.len() != RECORD_BYTES {
        return None;
    }
    let flag: u8 = *slice_index_get(bytes, 56);
    if flag != 0 && flag != 1 {
        return None;
    }
    let rec = StakeAccount {
        owner: crate::identity::AccountId {
            w0: u64_from_le_bytes(slice_subrange(bytes, 0, 8)),
            w1: u64_from_le_bytes(slice_subrange(bytes, 8, 16)),
            w2: u64_from_le_bytes(slice_subrange(bytes, 16, 24)),
            w3: u64_from_le_bytes(slice_subrange(bytes, 24, 32)),
        },
        amount: u64_from_le_bytes(slice_subrange(bytes, 32, 40)),
        start_time: bits_to_time(u64_from_le_bytes(slice_subrange(bytes, 40, 48))),
        end_time: bits_to_time(u64_from_le_bytes(slice_subrange(bytes, 48, 56))),
        withdrawn: flag == 1,
    };
    proof {
        assert(bytes@ =~= spec_encode_record(rec));
    }
    Some(rec)
}

/// Storage is faithful: two records with the same stored form are the same
/// record, so decoding what `encode_record` wrote gives the record back.
pub proof fn lemma_encode_injective(r1: StakeAccount, r2: StakeAccount)
    requires
        spec_encode_record(r1) == spec_encode_record(r2),
    ensures
        r1 == r2,
{
    lemma_auto_spec_u64_to_from_le_bytes();
    let s1 = spec_encode_record(r1);
    let s2 = spec_encode_record(r2);
    assert(s1.subrange(0, 8) =~= spec_u64_to_le_bytes(r1.owner.w0));
    assert(s1.subrange(8, 16) =~= spec_u64_to_le_bytes(r1.owner.w1));
    assert(s1.subrange(16, 24) =~= spec_u64_to_le_bytes(r1.owner.w2));
    assert(s1.subrange(24, 32) =~= spec_u64_to_le_bytes(r1.owner.w3));
    assert(s1.subrange(32, 40) =~= spec_u64_to_le_bytes(r1.amount));
    assert(s1.subrange(40, 48) =~= spec_u64_to_le_bytes(spec_time_bits(r1.start_time)));
    assert(s1.subrange(48, 56) =~= spec_u64_to_le_bytes(spec_time_bits(r1.end_time)));
    assert(s2.subrange(0, 8) =~= spec_u64_to_le_bytes(r2.owner.w0));
    assert(s2.subrange(8, 16) =~= spec_u64_to_le_bytes(r2.owner.w1));
    assert(s2.subrange(16, 24) =~= spec_u64_to_le_bytes(r2.owner.w2));
    assert(s2.subrange(24, 32) =~= spec_u64_to_le_bytes(r2.owner.w3));
    assert(s2.subrange(32, 40) =~= spec_u64_to_le_bytes(r2.amount));
    assert(s2.subrange(40, 48) =~= spec_u64_to_le_bytes(spec_time_bits(r2.start_time)));
    assert(s2.subrange(48, 56) =~= spec_u64_to_le_bytes(spec_time_bits(r2.end_time)));
    lemma_time_bits_injective(r1.start_time, r2.start_time);
    lemma_time_bits_injective(r1.end_time, r2.end_time);
    assert(s1.subrange(56, 57) =~= seq![
        if r1.withdrawn {
            1u8
        } else {
            0u8
        },
    ]);
    assert(s2.subrange(56, 57) =~= seq![
        if r2.withdrawn {
            1u8
        } else {
            0u8
        },
    ]);
    assert(s1.subrange(56, 57)[0] == s2.subrange(56, 57)[0]);
    assert(seq![
        if r1.withdrawn {
            1u8
        } else {
            0u8
        },
    ][0] == if r1.withdrawn {
        1u8
    } else {
        0u8
    });
    assert(seq![
        if r2.withdrawn {
            1u8
        } else {
            0u8
        },
    ][0] == if r2.withdrawn {
        1u8
    } else {
        0u8
    });
    assert(r1.withdrawn == r2.withdrawn);
}

} // verus!
