//! The state-space synthesizer.  Every required field owns one
//! compile-time boolean slot; the slot index is the field's rank among the
//! required fields in declaration order, so the numbering is stable and
//! deterministic, no two fields share a slot, and a record with no
//! required fields has the empty slot space.

use vstd::prelude::*;
use crate::classify::{Category, FieldSpec};

verus! {

/// The number of required fields among the first `n` fields.
pub open spec fn spec_num_required(s: Seq<FieldSpec>, n: int) -> int
    decreases n,
{
    if n <= 0 {
        0
    } else {
        spec_num_required(s, n - 1) + if s[n - 1].category is Required {
            1int
        } else {
            0int
        }
    }
}

/// The slot of field `i`: its rank among the required fields, or nothing
/// when the field owns no slot.
pub open spec fn spec_slot_of(s: Seq<FieldSpec>, i: int) -> Option<int> {
    if s[i].category is Required {
        Some(spec_num_required(s, i))
    } else {
        None
    }
}

/// The rank never exceeds the number of fields counted.
pub proof fn lemma_num_required_le(s: Seq<FieldSpec>, n: int)
    requires
        0 <= n,
    ensures
        0 <= spec_num_required(s, n) <= n,
    decreases n,
{
    if n > 0 {
        lemma_num_required_le(s, n - 1);
    }
}

/// Counting more fields never lowers the rank.
pub proof fn lemma_num_required_monotone(s: Seq<FieldSpec>, i: int, j: int)
    requires
        0 <= i <= j,
    ensures
        spec_num_required(s, i) <= spec_num_required(s, j),
    decreases j - i,
{
    if i < j {
        lemma_num_required_monotone(s, i, j - 1);
    }
}

/// Slot indices are in range: a required field's slot lies strictly below
/// the slot count.
pub proof fn lemma_slot_in_range(s: Seq<FieldSpec>, i: int)
    requires
        0 <= i < s.len(),
        s[i].category is Required,
    ensures
        0 <= spec_num_required(s, i) < spec_num_required(s, s.len() as int),
{
    lemma_num_required_le(s, i);
    lemma_num_required_monotone(s, i + 1, s.len() as int);
}

/// No two required fields share a slot: the numbering is strictly
/// increasing along the declaration order.
pub proof fn lemma_slot_injective(s: Seq<FieldSpec>, i: int, j: int)
    requires
        0 <= i < j < s.len(),
        s[i].category is Required,
        s[j].category is Required,
    ensures
        spec_num_required(s, i) < spec_num_required(s, j),
{
    lemma_num_required_monotone(s, i + 1, j);
}

/// Every slot below the count belongs to some required field: the
/// numbering leaves no gap.
pub proof fn lemma_slot_surjective(s: Seq<FieldSpec>, n: int, k: int)
    requires
        0 <= n <= s.len(),
        0 <= k < spec_num_required(s, n),
    ensures
        exists|i: int|
            0 <= i < n && s[i].category is Required && spec_num_required(s, i) == k,
    decreases n,
{
    if n > 0 {
        if s[n - 1].category is Required && spec_num_required(s, n - 1) == k {
            assert(0 <= n - 1 < n && s[n - 1].category is Required && spec_num_required(s, n - 1)
                == k);
        } else {
            lemma_slot_surjective(s, n - 1, k);
            let i = choose|i: int|
                0 <= i < n - 1 && s[i].category is Required && spec_num_required(s, i) == k;
            assert(0 <= i < n && s[i].category is Required && spec_num_required(s, i) == k);
        }
    }
}

/// Assigns slots: for each field its slot index if it owns one, and the
/// total slot count.  A record with no required fields gets the count 0.
pub fn assign_slots(fields: &Vec<FieldSpec>) -> (r: (Vec<Option<usize>>, usize))
    ensures
        r.0@.len() == fields@.len(),
        forall|i: int|
            0 <= i < fields@.len() ==> #[trigger] r.0@[i] == (match spec_slot_of(fields@, i) {
                Some(k) => Some(k as usize),
                None => None::<usize>,
            }),
        r.1 as int == spec_num_required(fields@, fields@.len() as int),
{
    let mut out: Vec<Option<usize>> = Vec::new();
    let mut count: usize = 0;
    let mut i: usize = 0;
    #[verifier::loop_isolation(false)]
    while i < fields.len()
        invariant
            0 <= i <= fields@.len(),
            out@.len() == i,
            count as int == spec_num_required(fields@, i as int),
            forall|j: int|
                0 <= j < i ==> #[trigger] out@[j] == (match spec_slot_of(fields@, j) {
                    Some(k) => Some(k as usize),
                    None => None::<usize>,
                }),
        decreases fields@.len() - i,
    {
        proof {
            lemma_num_required_le(fields@, i as int);
        }
        let is_req = match fields[i].category {
            Category::Required => true,
            _ => false,
        };
        if is_req {
            out.push(Some(count));
            count = count + 1;
        } else {
            out.push(None);
        }
        i = i + 1;
    }
    (out, count)
}

} // verus!
