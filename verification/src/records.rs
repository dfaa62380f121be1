//! Per-route quota records and lookup over a decoded record set.

use vstd::prelude::*;

verus! {

/// One quota record per rate-limited route: the route's path (as raw
/// bytes), the maximum number of calls permitted per refresh window, and
/// the number of calls consumed since the last synchronization.
pub struct QuotaRecord {
    pub path: Vec<u8>,
    pub quota: u64,
    pub used: u64,
}

/// Mathematical model of a `QuotaRecord`.
pub struct QuotaRecordModel {
    pub path: Seq<u8>,
    pub quota: u64,
    pub used: u64,
}

impl View for QuotaRecord {
    type V = QuotaRecordModel;

    open spec fn view(&self) -> QuotaRecordModel {
        QuotaRecordModel { path: self.path@, quota: self.quota, used: self.used }
    }
}

impl DeepView for QuotaRecord {
    type V = QuotaRecordModel;

    open spec fn deep_view(&self) -> QuotaRecordModel {
        self.view()
    }
}

/// The first record whose path equals `path`, if any.
pub open spec fn spec_find_record(rs: Seq<QuotaRecordModel>, path: Seq<u8>) -> Option<QuotaRecordModel>
    decreases rs.len(),
{
    if rs.len() == 0 {
        None
    } else if rs[0].path == path {
        Some(rs[0])
    } else {
        spec_find_record(rs.drop_first(), path)
    }
}

/// `r` with one more call consumed.
pub open spec fn spec_inc_used(r: QuotaRecordModel) -> QuotaRecordModel {
    QuotaRecordModel { path: r.path, quota: r.quota, used: (r.used + 1) as u64 }
}

/// The record set after an admitted request to `path`: the first record
/// for `path` has `used` one higher, every other record is unchanged.
pub open spec fn spec_increment_first(rs: Seq<QuotaRecordModel>, path: Seq<u8>) -> Seq<
    QuotaRecordModel,
>
    decreases rs.len(),
{
    if rs.len() == 0 {
        rs
    } else if rs[0].path == path {
        rs.update(0, spec_inc_used(rs[0]))
    } else {
        seq![rs[0]] + spec_increment_first(rs.drop_first(), path)
    }
}

/// Where `i` is the first index whose record matches `path`, the
/// increment is a pointwise update at `i`.
pub proof fn lemma_increment_first_at(rs: Seq<QuotaRecordModel>, path: Seq<u8>, i: int)
    requires
        0 <= i < rs.len(),
        rs[i].path == path,
        forall|j: int| 0 <= j < i ==> (#[trigger] rs[j]).path != path,
    ensures
        spec_increment_first(rs, path) == rs.update(i, spec_inc_used(rs[i])),
    decreases i,
{
    if i == 0 {
    } else {
        lemma_increment_first_at(rs.drop_first(), path, i - 1);
        assert(seq![rs[0]] + rs.drop_first().update(i - 1, spec_inc_used(rs.drop_first()[i - 1]))
            =~= rs.update(i, spec_inc_used(rs[i])));
    }
}

/// An admitted request to `path` leaves the lookup of every other path
/// unchanged.
pub proof fn lemma_find_other_after_increment(
    rs: Seq<QuotaRecordModel>,
    path: Seq<u8>,
    q: Seq<u8>,
)
    requires
        q != path,
    ensures
        spec_find_record(spec_increment_first(rs, path), q) == spec_find_record(rs, q),
    decreases rs.len(),
{
    if rs.len() == 0 {
    } else if rs[0].path == path {
        let rs2 = rs.update(0, spec_inc_used(rs[0]));
        assert(rs2[0].path == path);
        assert(rs2.drop_first() =~= rs.drop_first());
    } else {
        let rs2 = seq![rs[0]] + spec_increment_first(rs.drop_first(), path);
        assert(rs2[0] == rs[0]);
        if rs[0].path == q {
        } else {
            lemma_find_other_after_increment(rs.drop_first(), path, q);
            assert(rs2.drop_first() =~= spec_increment_first(rs.drop_first(), path));
        }
    }
}

/// An admitted request to `path` raises exactly that record's `used` by
/// one, as seen by a later lookup of the same path.
pub proof fn lemma_find_same_after_increment(rs: Seq<QuotaRecordModel>, path: Seq<u8>)
    requires
        spec_find_record(rs, path) is Some,
    ensures
        spec_find_record(spec_increment_first(rs, path), path) == Some(
            spec_inc_used(spec_find_record(rs, path)->Some_0),
        ),
    decreases rs.len(),
{
    if rs.len() == 0 {
    } else if rs[0].path == path {
        let rs2 = rs.update(0, spec_inc_used(rs[0]));
        assert(rs2[0] == spec_inc_used(rs[0]));
    } else {
        let rs2 = seq![rs[0]] + spec_increment_first(rs.drop_first(), path);
        assert(rs2[0] == rs[0]);
        lemma_find_same_after_increment(rs.drop_first(), path);
        assert(rs2.drop_first() =~= spec_increment_first(rs.drop_first(), path));
    }
}

/// The increment keeps the set's length and every record's path.
pub proof fn lemma_increment_shape(rs: Seq<QuotaRecordModel>, path: Seq<u8>)
    ensures
        spec_increment_first(rs, path).len() == rs.len(),
        forall|i: int|
            0 <= i < rs.len() ==> (#[trigger] spec_increment_first(rs, path)[i]).path
                == rs[i].path,
    decreases rs.len(),
{
    if rs.len() == 0 {
    } else if rs[0].path == path {
    } else {
        lemma_increment_shape(rs.drop_first(), path);
        let rs2 = seq![rs[0]] + spec_increment_first(rs.drop_first(), path);
        assert(forall|i: int|
            1 <= i < rs.len() ==> (#[trigger] rs2[i]).path == spec_increment_first(
                rs.drop_first(),
                path,
            )[i - 1].path);
    }
}

/// Whether two byte strings hold the same bytes.
pub fn bytes_eq(a: &[u8], b: &[u8]) -> (r: bool)
    ensures
        r == (a@ == b@),
{
    if a.len() != b.len() {
        return false;
    }
    let mut i: usize = 0;
    while i < a.len()
        invariant
            0 <= i <= a@.len(),
            a@.len() == b@.len(),
            forall|j: int| 0 <= j < i ==> a@[j] == b@[j],
        decreases a@.len() - i,
    {
        if a[i] != b[i] {
            return false;
        }
        i = i + 1;
    }
    assert(a@ =~= b@);
    true
}

/// Index of the first record in `records` whose path equals `path`.
pub fn find_record_index(records: &Vec<QuotaRecord>, path: &[u8]) -> (r: Option<usize>)
    ensures
        match r {
            Some(i) => {
                &&& i < records@.len()
                &&& spec_find_record(records.deep_view(), path@) == Some(records[i as int]@)
                &&& records[i as int]@.path == path@
                &&& forall|j: int| 0 <= j < i ==> (#[trigger] records[j]@).path != path@
            },
            None => spec_find_record(records.deep_view(), path@) is None,
        },
{
    let mut i: usize = 0;
    assert(records.deep_view().skip(0) =~= records.deep_view());
    while i < records.len()
        invariant
            0 <= i <= records@.len(),
            records.deep_view().len() == records@.len(),
            forall|j: int| 0 <= j < records@.len() ==> records.deep_view()[j] == records@[j]@,
            spec_find_record(records.deep_view(), path@)
                == spec_find_record(records.deep_view().skip(i as int), path@),
            forall|j: int| 0 <= j < i ==> records@[j]@.path != path@,
        decreases records@.len() - i,
    {
        if bytes_eq(records[i].path.as_slice(), path) {
            assert(records.deep_view().skip(i as int)[0] == records@[i as int]@);
            return Some(i);
        }
        assert(records.deep_view().skip(i as int).drop_first()
            =~= records.deep_view().skip(i + 1));
        i = i + 1;
    }
    assert(records.deep_view().skip(i as int).len() == 0);
    None
}

/// Raises `used` by one on the first record for `path`, if any; reports
/// whether a record was found.
pub fn increment_used(records: &mut Vec<QuotaRecord>, path: &[u8]) -> (r: bool)
    requires
        match spec_find_record(old(records).deep_view(), path@) {
            Some(rec) => rec.used < u64::MAX,
            None => true,
        },
    ensures
        r == (spec_find_record(old(records).deep_view(), path@) is Some),
        r ==> final(records).deep_view() == spec_increment_first(
            old(records).deep_view(),
            path@,
        ),
        !r ==> *final(records) == *old(records),
{
    let ghost rs = records.deep_view();
    match find_record_index(records, path) {
        None => false,
        Some(i) => {
            let new_used = records[i].used + 1;
            records[i].used = new_used;
            proof {
                lemma_increment_first_at(rs, path@, i as int);
                assert(records.deep_view() =~= rs.update(
                    i as int,
                    spec_inc_used(rs[i as int]),
                ));
            }
            true
        },
    }
}

} // verus!
