use vstd::prelude::*;
use vstd::seq_lib::group_to_multiset_ensures;

use crate::errors::PipelineError;
use crate::metadata::extract_capture_time;
use crate::metadata::spec_extract;
use crate::timestamp::Timestamp;
use crate::timestamp::lemma_le_total;
use crate::timestamp::lemma_le_trans;

verus! {

/// One candidate file found under the input directory: its path and
/// the bytes read from it.
#[derive(Debug)]
pub struct SourceImage {
    pub path: String,
    pub bytes: Vec<u8>,
}

/// One source image together with the capture timestamp read from its
/// metadata.
#[derive(Debug)]
pub struct ImageRecord {
    pub path: String,
    pub taken: Timestamp,
}

/// The corpus invariant after sorting: every record is captured no
/// later than every record after it.
pub open spec fn chronological(s: Seq<ImageRecord>) -> bool {
    forall|i: int, j: int| 0 <= i <= j < s.len() ==> s[i].taken.spec_le(s[j].taken)
}

/// It is enough to order each adjacent pair: a corpus whose
/// neighbouring records are in order is in order throughout.
pub proof fn lemma_chronological_iff_adjacent(s: Seq<ImageRecord>)
    ensures
        chronological(s) <==> (forall|i: int|
            0 <= i < s.len() - 1 ==> #[trigger] s[i].taken.spec_le(s[i + 1].taken)),
{
    if forall|i: int| 0 <= i < s.len() - 1 ==> #[trigger] s[i].taken.spec_le(s[i + 1].taken) {
        assert forall|i: int, j: int| 0 <= i <= j < s.len() implies s[i].taken.spec_le(
            s[j].taken,
        ) by {
            lemma_span_ordered(s, i, j);
        }
    }
}

proof fn lemma_span_ordered(s: Seq<ImageRecord>, i: int, j: int)
    requires
        forall|k: int| 0 <= k < s.len() - 1 ==> #[trigger] s[k].taken.spec_le(s[k + 1].taken),
        0 <= i <= j < s.len(),
    ensures
        s[i].taken.spec_le(s[j].taken),
    decreases j - i,
{
    if i < j {
        lemma_span_ordered(s, i, j - 1);
        assert(s[j - 1].taken.spec_le(s[(j - 1) + 1].taken));
        lemma_le_trans(s[i].taken, s[j - 1].taken, s[j].taken);
    }
}

/// The subsequence of records captured at exactly the given time, in
/// their current order. Sorting must not disturb it: that is what
/// makes the tie order stable.
pub open spec fn with_time(s: Seq<ImageRecord>, t: Timestamp) -> Seq<ImageRecord>
    decreases s.len(),
{
    if s.len() == 0 {
        Seq::empty()
    } else {
        let rest = with_time(s.drop_last(), t);
        if s.last().taken == t {
            rest.push(s.last())
        } else {
            rest
        }
    }
}

proof fn lemma_with_time_add(a: Seq<ImageRecord>, b: Seq<ImageRecord>, t: Timestamp)
    ensures
        with_time(a + b, t) == with_time(a, t) + with_time(b, t),
    decreases b.len(),
{
    if b.len() == 0 {
        assert(a + b =~= a);
        assert(with_time(a, t) + with_time(b, t) =~= with_time(a, t));
    } else {
        lemma_with_time_add(a, b.drop_last(), t);
        assert((a + b).drop_last() =~= a + b.drop_last());
        assert((a + b).last() == b.last());
        if b.last().taken == t {
            assert(with_time(a, t) + with_time(b, t) =~= (with_time(a, t) + with_time(
                b.drop_last(),
                t,
            )).push(b.last()));
        }
    }
}

proof fn lemma_with_time_absent(s: Seq<ImageRecord>, t: Timestamp)
    requires
        forall|k: int| 0 <= k < s.len() ==> s[k].taken != t,
    ensures
        with_time(s, t) == Seq::<ImageRecord>::empty(),
    decreases s.len(),
{
    if s.len() > 0 {
        lemma_with_time_absent(s.drop_last(), t);
    }
}

/// One insertion step of the sort keeps every equal-timestamp
/// subsequence intact: the record taken out at `i` is put back at
/// `pos`, jumping only over records that are strictly later.
proof fn lemma_stable_step(before: Seq<ImageRecord>, rec: ImageRecord, pos: int, i: int, t: Timestamp)
    requires
        0 <= pos <= i < before.len(),
        before[i] == rec,
        chronological(before.take(i)),
        forall|k: int| 0 <= k < pos ==> before[k].taken.spec_le(rec.taken),
        pos < i ==> !before[pos].taken.spec_le(rec.taken),
    ensures
        with_time(before.remove(i).insert(pos, rec), t) == with_time(before, t),
{
    let p = before.take(pos);
    let b = before.subrange(pos, i);
    let c = before.subrange(i + 1, before.len() as int);
    let after = before.remove(i).insert(pos, rec);
    assert(before =~= p + b + seq![rec] + c);
    assert(after =~= p + seq![rec] + b + c);
    assert(seq![rec].drop_last() =~= Seq::<ImageRecord>::empty());
    if t == rec.taken {
        // No record between pos and i shares rec's timestamp: each is
        // strictly later, else transitivity would put before[pos] at
        // or before rec, against the scan's exit condition.
        assert forall|k: int| 0 <= k < b.len() implies b[k].taken != t by {
            if b[k].taken == t {
                assert(before.take(i)[pos] == before[pos]);
                assert(before.take(i)[pos + k] == before[pos + k]);
                assert(before[pos].taken.spec_le(before[pos + k].taken));
                assert(before[pos + k].taken.spec_le(rec.taken));
                lemma_le_trans(before[pos].taken, before[pos + k].taken, rec.taken);
            }
        }
        lemma_with_time_absent(b, t);
    } else {
        assert(with_time(Seq::<ImageRecord>::empty(), t) =~= Seq::<ImageRecord>::empty());
        assert(seq![rec].last() == rec);
        assert(with_time(seq![rec], t) =~= Seq::<ImageRecord>::empty());
    }
    lemma_with_time_add(p, b, t);
    lemma_with_time_add(p + b, seq![rec], t);
    lemma_with_time_add(p + b + seq![rec], c, t);
    lemma_with_time_add(p, seq![rec], t);
    lemma_with_time_add(p + seq![rec], b, t);
    lemma_with_time_add(p + seq![rec] + b, c, t);
    assert(with_time(after, t) =~= with_time(before, t));
}

/// Extracts a capture timestamp from every candidate file. One file
/// without a usable capture time fails the whole corpus: the result is
/// `Ok` exactly when every file yields a timestamp, and the records
/// keep the files' order, paths and timestamps.
pub fn build_corpus(files: &Vec<SourceImage>) -> (r: Result<Vec<ImageRecord>, PipelineError>)
    ensures
        r is Ok <==> (forall|i: int|
            0 <= i < files@.len() ==> spec_extract(files@[i].bytes@) is Some),
        r is Ok ==> r->Ok_0@.len() == files@.len(),
        r is Ok ==> (forall|i: int|
            0 <= i < files@.len() ==> r->Ok_0@[i].path@ == files@[i].path@ && r->Ok_0@[i].taken
                == spec_extract(files@[i].bytes@)->Some_0),
        r is Err ==> r->Err_0 == PipelineError::Metadata,
{
    let mut recs: Vec<ImageRecord> = Vec::new();
    let mut idx: usize = 0;
    while idx < files.len()
        invariant
            idx <= files@.len(),
            recs@.len() == idx,
            forall|i: int| 0 <= i < idx ==> spec_extract(files@[i].bytes@) is Some,
            forall|i: int|
                0 <= i < idx ==> recs@[i].path@ == files@[i].path@ && recs@[i].taken
                    == spec_extract(files@[i].bytes@)->Some_0,
        decreases files@.len() - idx,
    {
        let f = &files[idx];
        match extract_capture_time(&f.bytes) {
            Result::Err(e) => {
                return Err(e);
            },
            Result::Ok(ts) => {
                recs.push(ImageRecord { path: f.path.clone(), taken: ts });
            },
        }
        idx = idx + 1;
    }
    Ok(recs)
}

/// Sorts the corpus by capture timestamp, ascending. The records after
/// the call are exactly the records before it, reordered, and the sort
/// is stable: records sharing a capture timestamp keep their relative
/// order, which makes the tie order deterministic.
pub fn sort_corpus(v: &mut Vec<ImageRecord>)
    ensures
        chronological(final(v)@),
        final(v)@.to_multiset() == old(v)@.to_multiset(),
        forall|t: Timestamp| #[trigger] with_time(final(v)@, t) == with_time(old(v)@, t),
{
    let ghost orig = v@;
    if v.len() < 2 {
        return ;
    }
    let mut i: usize = 1;
    while i < v.len()
        invariant
            1 <= i <= v@.len(),
            v@.len() == orig.len(),
            v@.to_multiset() == orig.to_multiset(),
            forall|t: Timestamp| #[trigger] with_time(v@, t) == with_time(orig, t),
            chronological(v@.take(i as int)),
        decreases v@.len() - i,
    {
        proof {
            broadcast use group_to_multiset_ensures;

            assert(v@.contains(v@[i as int]));
        }
        let ghost before = v@;
        let rec = v.remove(i);
        let ghost removed = v@;
        proof {
            assert(removed.take(i as int) =~= before.take(i as int));
        }
        let mut pos: usize = 0;
        while pos < i
            invariant
                pos <= i,
                i < before.len(),
                v@ == removed,
                i <= removed.len(),
                forall|k: int| 0 <= k < pos ==> removed[k].taken.spec_le(rec.taken),
            ensures
                pos <= i,
                v@ == removed,
                forall|k: int| 0 <= k < pos ==> removed[k].taken.spec_le(rec.taken),
                pos < i ==> !removed[pos as int].taken.spec_le(rec.taken),
            decreases i - pos,
        {
            if v[pos].taken.le(&rec.taken) {
                pos = pos + 1;
            } else {
                break ;
            }
        }
        proof {
            if pos < i {
                lemma_le_total(rec.taken, removed[pos as int].taken);
            }
        }
        v.insert(pos, rec);
        proof {
            broadcast use group_to_multiset_ensures;

            let after = v@;
            assert(after == removed.insert(pos as int, rec));
            assert(forall|k: int| 0 <= k < i ==> removed[k] == before[k]);
            assert forall|t: Timestamp| #[trigger] with_time(after, t) == with_time(orig, t) by {
                lemma_stable_step(before, rec, pos as int, i as int, t);
            }
            assert(after.to_multiset() =~= orig.to_multiset()) by {
                assert(removed.to_multiset() == before.to_multiset().remove(before[i as int]));
                assert(after.to_multiset() == removed.to_multiset().insert(rec));
                assert(before.to_multiset().count(rec) > 0);
            }
            assert(chronological(after.take(i as int + 1))) by {
                let t = after.take(i as int + 1);
                let p = before.take(i as int);
                assert forall|a: int, b: int| 0 <= a <= b < t.len() implies t[a].taken.spec_le(
                    t[b].taken,
                ) by {
                    assert(forall|k: int| 0 <= k < i ==> removed[k] == p[k]);
                    assert(forall|k: int| 0 <= k < pos ==> t[k] == p[k]);
                    assert(t[pos as int] == rec);
                    assert(forall|k: int| pos < k <= i ==> t[k] == p[k - 1]);
                    assert(forall|k: int| 0 <= k < pos ==> p[k].taken.spec_le(rec.taken));
                    if pos < i {
                        assert(rec.taken.spec_le(p[pos as int].taken));
                    }
                    if a == b {
                    } else if b < pos as int {
                        assert(p[a].taken.spec_le(p[b].taken));
                    } else if b == pos as int {
                        // a < pos, so p[a] precedes rec by the scan
                        assert(p[a].taken.spec_le(rec.taken));
                    } else if a == pos as int {
                        // rec precedes p[pos], which precedes p[b - 1]
                        assert(p[pos as int].taken.spec_le(p[b - 1].taken));
                        lemma_le_trans(rec.taken, p[pos as int].taken, p[b - 1].taken);
                    } else if a < pos as int {
                        // two entries of the sorted prefix
                        assert(p[a].taken.spec_le(p[b - 1].taken));
                    } else {
                        assert(p[a - 1].taken.spec_le(p[b - 1].taken));
                    }
                }
            }
        }
        i = i + 1;
    }
    proof {
        assert(v@.take(v@.len() as int) =~= v@);
    }
}

} // verus!
