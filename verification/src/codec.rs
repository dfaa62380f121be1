//! Canonical byte representation of the quota cache blob.
//!
//! The blob held in the shared store under the well-known cache key is the
//! serialized snapshot of all quota records. Its schema is private to this
//! filter and the management backend, so the library fixes one canonical,
//! explicitly versioned layout:
//!
//! ```text
//! blob   := version:u8  count:u64le  record*
//! record := path_len:u64le  path_bytes  quota:u64le  used:u64le
//! ```
//!
//! Decoding is the exact inverse of encoding (`lemma_blob_round_trip`), so
//! a blob pushed to the management service and echoed back unchanged leaves
//! every `used` count unchanged.

use vstd::prelude::*;
use vstd::bytes::{
    lemma_auto_spec_u64_to_from_le_bytes, spec_u64_from_le_bytes, spec_u64_to_le_bytes,
    u64_from_le_bytes, u64_to_le_bytes,
};
use vstd::slice::{slice_subrange, slice_to_vec};
use crate::records::{QuotaRecord, QuotaRecordModel};

verus! {

/// Version tag of the canonical blob layout.
pub const BLOB_VERSION: u8 = 1;

/// Byte encoding of one record.
pub open spec fn spec_encode_record(r: QuotaRecordModel) -> Seq<u8> {
    spec_u64_to_le_bytes(r.path.len() as u64) + r.path + spec_u64_to_le_bytes(r.quota)
        + spec_u64_to_le_bytes(r.used)
}

/// Byte encoding of a record sequence, record after record.
pub open spec fn spec_encode_records(rs: Seq<QuotaRecordModel>) -> Seq<u8>
    decreases rs.len(),
{
    if rs.len() == 0 {
        Seq::empty()
    } else {
        spec_encode_record(rs[0]) + spec_encode_records(rs.drop_first())
    }
}

/// Byte encoding of the whole blob: version, record count, records.
pub open spec fn spec_encode_blob(rs: Seq<QuotaRecordModel>) -> Seq<u8> {
    seq![BLOB_VERSION] + spec_u64_to_le_bytes(rs.len() as u64) + spec_encode_records(rs)
}

/// Whether the length fields of `rs` fit their fixed-width encoding.
/// Records held in a `Vec<QuotaRecord>` always satisfy this.
pub open spec fn records_encodable(rs: Seq<QuotaRecordModel>) -> bool {
    &&& rs.len() <= u64::MAX
    &&& forall|i: int| 0 <= i < rs.len() ==> (#[trigger] rs[i]).path.len() <= u64::MAX
}

/// Decoding of exactly `n` records from `b`, requiring that `b` holds
/// nothing else. `None` on any malformed input.
pub open spec fn spec_decode_records(b: Seq<u8>, n: nat) -> Option<Seq<QuotaRecordModel>>
    decreases n,
{
    if n == 0 {
        if b.len() == 0 {
            Some(Seq::empty())
        } else {
            None
        }
    } else if b.len() < 8 {
        None
    } else {
        let plen = spec_u64_from_le_bytes(b.take(8)) as int;
        if b.len() < 24 + plen {
            None
        } else {
            let r = QuotaRecordModel {
                path: b.subrange(8, 8 + plen),
                quota: spec_u64_from_le_bytes(b.subrange(8 + plen, 16 + plen)),
                used: spec_u64_from_le_bytes(b.subrange(16 + plen, 24 + plen)),
            };
            match spec_decode_records(b.skip(24 + plen), (n - 1) as nat) {
                None => None,
                Some(rest) => Some(seq![r] + rest),
            }
        }
    }
}

/// Decoding of a whole blob. `None` on a missing or foreign version tag,
/// a truncated input, or trailing bytes.
pub open spec fn spec_decode_blob(b: Seq<u8>) -> Option<Seq<QuotaRecordModel>> {
    if b.len() < 9 || b[0] != BLOB_VERSION {
        None
    } else {
        let n = spec_u64_from_le_bytes(b.subrange(1, 9));
        spec_decode_records(b.skip(9), n as nat)
    }
}

/// Decoding a record sequence's encoding gives the records back.
pub proof fn lemma_records_round_trip(rs: Seq<QuotaRecordModel>)
    requires
        records_encodable(rs),
    ensures
        spec_decode_records(spec_encode_records(rs), rs.len()) == Some(rs),
    decreases rs.len(),
{
    lemma_auto_spec_u64_to_from_le_bytes();
    if rs.len() == 0 {
        assert(spec_encode_records(rs).len() == 0);
        assert(Seq::<QuotaRecordModel>::empty() =~= rs);
    } else {
        let r = rs[0];
        let enc_r = spec_encode_record(r);
        let rest = spec_encode_records(rs.drop_first());
        let b = spec_encode_records(rs);
        assert(b == enc_r + rest);
        let lb = spec_u64_to_le_bytes(r.path.len() as u64);
        assert(enc_r.len() == 24 + r.path.len());
        assert(b.take(8) =~= lb);
        let plen = spec_u64_from_le_bytes(b.take(8)) as int;
        assert(plen == r.path.len());
        assert(b.len() >= 24 + plen);
        assert(b.subrange(8, 8 + plen) =~= r.path);
        assert(b.subrange(8 + plen, 16 + plen) =~= spec_u64_to_le_bytes(r.quota));
        assert(b.subrange(16 + plen, 24 + plen) =~= spec_u64_to_le_bytes(r.used));
        assert(b.skip(24 + plen) =~= rest);
        assert(rs.drop_first().len() < rs.len());
        lemma_records_round_trip(rs.drop_first());
        let decoded = QuotaRecordModel {
            path: b.subrange(8, 8 + plen),
            quota: spec_u64_from_le_bytes(b.subrange(8 + plen, 16 + plen)),
            used: spec_u64_from_le_bytes(b.subrange(16 + plen, 24 + plen)),
        };
        assert(decoded == r);
        assert(seq![r] + rs.drop_first() =~= rs);
    }
}

/// Round trip of the whole blob: decoding an encoded blob gives the
/// records back, for every record set a `Vec` can hold.
pub proof fn lemma_blob_round_trip(rs: Seq<QuotaRecordModel>)
    requires
        records_encodable(rs),
    ensures
        spec_decode_blob(spec_encode_blob(rs)) == Some(rs),
{
    lemma_auto_spec_u64_to_from_le_bytes();
    let b = spec_encode_blob(rs);
    assert(b.len() == 9 + spec_encode_records(rs).len());
    assert(b[0] == BLOB_VERSION);
    assert(b.subrange(1, 9) =~= spec_u64_to_le_bytes(rs.len() as u64));
    assert(b.skip(9) =~= spec_encode_records(rs));
    lemma_records_round_trip(rs);
}

/// Whatever decodes is encodable again: a successful decode of `n`
/// records yields exactly `n` records whose path lengths fit `u64`.
pub proof fn lemma_decode_records_encodable(b: Seq<u8>, n: nat)
    requires
        n <= u64::MAX,
        spec_decode_records(b, n) is Some,
    ensures
        records_encodable(spec_decode_records(b, n)->Some_0),
        (spec_decode_records(b, n)->Some_0).len() == n,
    decreases n,
{
    if n == 0 {
    } else {
        let plen = spec_u64_from_le_bytes(b.take(8)) as int;
        let tail = b.skip(24 + plen);
        lemma_decode_records_encodable(tail, (n - 1) as nat);
        let rest = spec_decode_records(tail, (n - 1) as nat)->Some_0;
        let rs = spec_decode_records(b, n)->Some_0;
        assert(rs[0].path.len() == plen);
        assert(forall|i: int| 1 <= i < rs.len() ==> rs[i] == rest[i - 1]);
    }
}

/// Whatever decodes as a blob is encodable again.
pub proof fn lemma_decoded_blob_encodable(b: Seq<u8>)
    requires
        spec_decode_blob(b) is Some,
    ensures
        records_encodable(spec_decode_blob(b)->Some_0),
{
    let n = spec_u64_from_le_bytes(b.subrange(1, 9));
    lemma_decode_records_encodable(b.skip(9), n as nat);
}

/// Appending one record to a sequence appends its encoding to the bytes.
proof fn lemma_encode_records_push(rs: Seq<QuotaRecordModel>, r: QuotaRecordModel)
    ensures
        spec_encode_records(rs.push(r)) == spec_encode_records(rs) + spec_encode_record(r),
    decreases rs.len(),
{
    if rs.len() == 0 {
        assert(rs.push(r)[0] == r);
        assert(rs.push(r).drop_first() =~= Seq::<QuotaRecordModel>::empty());
        assert(spec_encode_records(Seq::<QuotaRecordModel>::empty()) == Seq::<u8>::empty());
        assert(spec_encode_records(rs.push(r)) == spec_encode_record(r) + Seq::<u8>::empty());
        assert(spec_encode_record(r) + Seq::<u8>::empty() =~= spec_encode_record(r));
        assert(spec_encode_records(rs) + spec_encode_record(r) =~= spec_encode_record(r));
    } else {
        assert(rs.push(r)[0] == rs[0]);
        assert(rs.push(r).drop_first() =~= rs.drop_first().push(r));
        lemma_encode_records_push(rs.drop_first(), r);
        assert(spec_encode_records(rs.push(r)) == spec_encode_record(rs[0])
            + (spec_encode_records(rs.drop_first()) + spec_encode_record(r)));
        assert(spec_encode_record(rs[0]) + (spec_encode_records(rs.drop_first())
            + spec_encode_record(r)) =~= (spec_encode_record(rs[0]) + spec_encode_records(
            rs.drop_first(),
        )) + spec_encode_record(r));
        assert(spec_encode_records(rs) == spec_encode_record(rs[0]) + spec_encode_records(
            rs.drop_first(),
        ));
    }
}

/// Encodes the record set into the canonical blob bytes.
pub fn encode_blob(records: &Vec<QuotaRecord>) -> (out: Vec<u8>)
    ensures
        out@ == spec_encode_blob(records.deep_view()),
{
    let ghost all = records.deep_view();
    let mut out: Vec<u8> = Vec::new();
    out.push(BLOB_VERSION);
    let mut count_bytes = u64_to_le_bytes(records.len() as u64);
    out.append(&mut count_bytes);
    assert(out@ =~= seq![BLOB_VERSION] + spec_u64_to_le_bytes(all.len() as u64));
    let ghost prefix = out@;
    let mut i: usize = 0;
    assert(all.take(0) =~= Seq::<QuotaRecordModel>::empty());
    while i < records.len()
        invariant
            0 <= i <= records@.len(),
            all == records.deep_view(),
            all.len() == records@.len(),
            forall|j: int| 0 <= j < records@.len() ==> all[j] == records@[j]@,
            out@ == prefix + spec_encode_records(all.take(i as int)),
        decreases records@.len() - i,
    {
        let ghost done = all.take(i as int);
        let r = &records[i];
        let mut len_bytes = u64_to_le_bytes(r.path.len() as u64);
        out.append(&mut len_bytes);
        out.extend_from_slice(r.path.as_slice());
        let mut quota_bytes = u64_to_le_bytes(r.quota);
        out.append(&mut quota_bytes);
        let mut used_bytes = u64_to_le_bytes(r.used);
        out.append(&mut used_bytes);
        proof {
            lemma_encode_records_push(done, all[i as int]);
            assert(all.take(i + 1) =~= done.push(all[i as int]));
            assert(out@ =~= prefix + (spec_encode_records(done) + spec_encode_record(
                all[i as int],
            )));
        }
        i = i + 1;
    }
    assert(all.take(records@.len() as int) =~= all);
    out
}

/// Decodes a blob; the exact inverse of `encode_blob` on well-formed
/// input, `None` on anything else.
pub fn decode_blob(b: &[u8]) -> (r: Option<Vec<QuotaRecord>>)
    ensures
        match r {
            Some(v) => spec_decode_blob(b@) == Some(v.deep_view()),
            None => spec_decode_blob(b@) is None,
        },
{
    if b.len() < 9 {
        return None;
    }
    if b[0] != BLOB_VERSION {
        return None;
    }
    let count = u64_from_le_bytes(slice_subrange(b, 1, 9));
    let mut pos: usize = 9;
    let mut remaining: u64 = count;
    let mut acc: Vec<QuotaRecord> = Vec::new();
    assert(acc.deep_view() =~= Seq::<QuotaRecordModel>::empty());
    while remaining > 0
        invariant
            9 <= pos <= b@.len(),
            spec_decode_blob(b@) == match spec_decode_records(
                b@.skip(pos as int),
                remaining as nat,
            ) {
                None => None::<Seq<QuotaRecordModel>>,
                Some(rest) => Some(acc.deep_view() + rest),
            },
        decreases remaining,
    {
        let ghost tail = b@.skip(pos as int);
        let avail = b.len() - pos;
        if avail < 8 {
            return None;
        }
        let plen64 = u64_from_le_bytes(slice_subrange(b, pos, pos + 8));
        assert(b@.subrange(pos as int, pos + 8) =~= tail.take(8));
        if avail < 24 {
            return None;
        }
        if plen64 > (avail - 24) as u64 {
            return None;
        }
        let plen = plen64 as usize;
        let path = slice_to_vec(slice_subrange(b, pos + 8, pos + 8 + plen));
        let quota = u64_from_le_bytes(slice_subrange(b, pos + 8 + plen, pos + 16 + plen));
        let used = u64_from_le_bytes(slice_subrange(b, pos + 16 + plen, pos + 24 + plen));
        proof {
            assert(b@.subrange(pos + 8, pos + 8 + plen) =~= tail.subrange(8, 8 + plen as int));
            assert(b@.subrange(pos + 8 + plen, pos + 16 + plen) =~= tail.subrange(
                8 + plen as int,
                16 + plen as int,
            ));
            assert(b@.subrange(pos + 16 + plen, pos + 24 + plen) =~= tail.subrange(
                16 + plen as int,
                24 + plen as int,
            ));
        }
        let rec = QuotaRecord { path, quota, used };
        let ghost old_acc = acc.deep_view();
        acc.push(rec);
        proof {
            assert(acc.deep_view() =~= old_acc.push(rec@));
            assert(b@.skip(pos + 24 + plen) =~= tail.skip(24 + plen as int));
            assert(forall|rest: Seq<QuotaRecordModel>| #![auto]
                (old_acc + (seq![rec@] + rest)) =~= (acc.deep_view() + rest));
        }
        pos = pos + 24 + plen;
        remaining = remaining - 1;
    }
    if pos != b.len() {
        assert(b@.skip(pos as int).len() != 0);
        return None;
    }
    assert(b@.skip(pos as int).len() == 0);
    assert(acc.deep_view() + Seq::<QuotaRecordModel>::empty() =~= acc.deep_view());
    Some(acc)
}

} // verus!
