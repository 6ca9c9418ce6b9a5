//! The laws of the builder state machine, proved over the spec-level
//! transitions of [`crate::machine`].  Each public proof function states
//! one property of the synthesized builder's behaviour; the executable
//! operations are tied to the same transitions by their contracts.

use vstd::prelude::*;
use crate::machine::{
    BuilderV,
    DatumV,
    FieldRtV,
    ItemV,
    cell_wf,
    lazy_val,
    spec_each_items,
    spec_init,
    spec_out_val,
    spec_ready,
    spec_satisfied,
    spec_set,
    spec_set_each,
    spec_set_lazy,
    wf_field_v,
    wf_schema_v,
    wf_state,
};

verus! {

/// Folds a sequence of base-setter calls, each a field index with the
/// value stored, over a builder state.
pub open spec fn apply_calls(b: BuilderV, calls: Seq<(int, DatumV)>) -> BuilderV
    decreases calls.len(),
{
    if calls.len() == 0 {
        b
    } else {
        apply_calls(spec_set(b, calls[0].0, calls[0].1), calls.subrange(1, calls.len() as int))
    }
}

/// Each call targets a distinct required field with a fitting value
/// shape, and every required field is targeted: the calls are the
/// required setters in some permutation.
pub open spec fn calls_cover_required(s: Seq<FieldRtV>, calls: Seq<(int, DatumV)>) -> bool {
    &&& forall|k: int|
        0 <= k < calls.len() ==> {
            &&& 0 <= #[trigger] calls[k].0 < s.len()
            &&& s[calls[k].0].category is Required
            &&& (s[calls[k].0].each ==> calls[k].1 is List)
        }
    &&& forall|k1: int, k2: int|
        0 <= k1 < k2 < calls.len() ==> (#[trigger] calls[k1].0) != (#[trigger] calls[k2].0)
    &&& forall|i: int|
        0 <= i < s.len() && (#[trigger] s[i]).category is Required ==> exists|k: int|
            0 <= k < calls.len() && calls[k].0 == i
}

/// The initial state is well formed.
pub proof fn lemma_init_wf(s: Seq<FieldRtV>)
    requires
        wf_schema_v(s),
    ensures
        wf_state(spec_init(s)),
{
    let b = spec_init(s);
    assert forall|i: int| 0 <= i < b.schema.len() implies cell_wf(b, i) by {
        assert(wf_field_v(s[i]));
    }
}

/// The base-setter transition preserves well-formedness.
pub proof fn lemma_spec_set_wf(b: BuilderV, i: int, v: DatumV)
    requires
        wf_state(b),
        0 <= i < b.schema.len(),
        b.schema[i].each ==> v is List,
    ensures
        wf_state(spec_set(b, i, v)),
{
    let b2 = spec_set(b, i, v);
    assert forall|j: int| 0 <= j < b2.schema.len() implies cell_wf(b2, j) by {
        assert(cell_wf(b, j));
    }
}

/// No operation lowers a slot: once a field is supplied it stays
/// supplied, through any further base, repeated-element or lazy setter —
/// the state machine is monotonic and irreversible.
pub proof fn lemma_slots_monotone(b: BuilderV, i: int, v: DatumV, e: ItemV, j: int)
    requires
        0 <= i < b.given.len(),
        0 <= j < b.given.len(),
        b.given[j],
    ensures
        spec_set(b, i, v).given[j],
        spec_set_each(b, i, e).given[j],
        spec_set_lazy(b, i, v).given[j],
{
}

/// The effect of a sequence of distinct required-setter calls: every
/// targeted cell holds its call's value with its slot true, every other
/// field is untouched, and the schema and resolver store never change.
pub proof fn lemma_apply_calls(b: BuilderV, calls: Seq<(int, DatumV)>)
    requires
        wf_state(b),
        forall|k: int|
            0 <= k < calls.len() ==> {
                &&& 0 <= #[trigger] calls[k].0 < b.schema.len()
                &&& b.schema[calls[k].0].category is Required
                &&& (b.schema[calls[k].0].each ==> calls[k].1 is List)
            },
        forall|k1: int, k2: int|
            0 <= k1 < k2 < calls.len() ==> (#[trigger] calls[k1].0) != (#[trigger] calls[k2].0),
    ensures
        wf_state(apply_calls(b, calls)),
        apply_calls(b, calls).schema == b.schema,
        apply_calls(b, calls).lazies == b.lazies,
        apply_calls(b, calls).cells.len() == b.cells.len(),
        apply_calls(b, calls).given.len() == b.given.len(),
        forall|k: int|
            0 <= k < calls.len() ==> {
                &&& apply_calls(b, calls).cells[#[trigger] calls[k].0] == Some(calls[k].1)
                &&& apply_calls(b, calls).given[calls[k].0]
            },
        forall|i: int|
            #![trigger b.cells[i]]
            0 <= i < b.schema.len() && (forall|k: int|
                0 <= k < calls.len() ==> (#[trigger] calls[k].0) != i) ==> {
                &&& apply_calls(b, calls).cells[i] == b.cells[i]
                &&& apply_calls(b, calls).given[i] == b.given[i]
            },
    decreases calls.len(),
{
    if calls.len() > 0 {
        let i0 = calls[0].0;
        let v0 = calls[0].1;
        let b1 = spec_set(b, i0, v0);
        let rest = calls.subrange(1, calls.len() as int);
        lemma_spec_set_wf(b, i0, v0);
        assert forall|k: int| 0 <= k < rest.len() implies {
            &&& 0 <= #[trigger] rest[k].0 < b1.schema.len()
            &&& b1.schema[rest[k].0].category is Required
            &&& (b1.schema[rest[k].0].each ==> rest[k].1 is List)
        } by {
            assert(rest[k] == calls[k + 1]);
        }
        assert forall|k1: int, k2: int| 0 <= k1 < k2 < rest.len() implies (#[trigger] rest[k1].0)
            != (#[trigger] rest[k2].0) by {
            assert(rest[k1] == calls[k1 + 1]);
            assert(rest[k2] == calls[k2 + 1]);
        }
        lemma_apply_calls(b1, rest);
        let b2 = apply_calls(b1, rest);
        assert(apply_calls(b, calls) == b2);
        assert forall|k: int| 0 <= k < calls.len() implies {
            &&& b2.cells[#[trigger] calls[k].0] == Some(calls[k].1)
            &&& b2.given[calls[k].0]
        } by {
            if k == 0 {
                assert forall|m: int| 0 <= m < rest.len() implies (#[trigger] rest[m].0) != i0 by {
                    assert(rest[m] == calls[m + 1]);
                }
                assert(b2.cells[i0] == b1.cells[i0]);
                assert(b1.cells[i0] == Some(v0));
            } else {
                assert(rest[k - 1] == calls[k]);
            }
        }
        assert forall|i: int|
            #![trigger b.cells[i]]
            0 <= i < b.schema.len() && (forall|k: int|
                0 <= k < calls.len() ==> (#[trigger] calls[k].0) != i) implies {
            &&& b2.cells[i] == b.cells[i]
            &&& b2.given[i] == b.given[i]
        } by {
            assert(calls[0].0 != i);
            assert forall|m: int| 0 <= m < rest.len() implies (#[trigger] rest[m].0) != i by {
                assert(rest[m] == calls[m + 1]);
                assert(calls[m + 1].0 != i);
            }
            assert(b1.cells[i] == b.cells[i]);
            assert(b1.given[i] == b.given[i]);
            assert(b2.cells[i] == b1.cells[i]);
            assert(b2.given[i] == b1.given[i]);
        }
    }
}

/// Order independence of required setters: starting from the initial
/// state, calling all required setters in any permutation makes finalize
/// available, and the finished record holds, for every required field,
/// exactly the value its setter stored.  Fields whose lazy resolver
/// overrides are excluded: for them the resolver wins by design.
pub proof fn lemma_required_any_order(s: Seq<FieldRtV>, calls: Seq<(int, DatumV)>)
    requires
        wf_schema_v(s),
        calls_cover_required(s, calls),
        forall|i: int|
            0 <= i < s.len() && (#[trigger] s[i]).category is Required ==> !s[i].lazy_override,
    ensures
        spec_ready(apply_calls(spec_init(s), calls)),
        forall|k: int|
            0 <= k < calls.len() ==> spec_out_val(
                apply_calls(spec_init(s), calls),
                #[trigger] calls[k].0,
            ) == Some(calls[k].1),
{
    let b0 = spec_init(s);
    lemma_init_wf(s);
    lemma_apply_calls(b0, calls);
    let b = apply_calls(b0, calls);
    assert forall|i: int|
        0 <= i < b.schema.len() && (#[trigger] b.schema[i]).category is Required implies
        spec_satisfied(b, i) by {
        let k = choose|k: int| 0 <= k < calls.len() && calls[k].0 == i;
        assert(b.given[calls[k].0]);
    }
    assert forall|k: int| 0 <= k < calls.len() implies spec_out_val(b, #[trigger] calls[k].0)
        == Some(calls[k].1) by {
        let i = calls[k].0;
        assert(b.cells[i] == Some(calls[k].1));
        assert(!b.schema[i].lazy_override);
    }
}

/// Omitting a required field blocks finalize: while any required field's
/// guard is unsatisfied, the builder is not ready, and finalize reports
/// the first such field.
pub proof fn lemma_missing_required_blocks(b: BuilderV, i: int)
    requires
        0 <= i < b.schema.len(),
        b.schema[i].category is Required,
        !spec_satisfied(b, i),
    ensures
        !spec_ready(b),
{
}

/// An eagerly stored value decides the field's final value whenever no
/// overriding lazy resolver stands: setting then finalizing yields
/// exactly the value set.  This is the setter half of the optional-field
/// and defaulted-field laws.
pub proof fn lemma_eager_set_wins(b: BuilderV, i: int, v: DatumV)
    requires
        0 <= i < b.cells.len(),
        0 <= i < b.schema.len(),
        !(b.schema[i].lazy_override && lazy_val(b, i) is Some),
    ensures
        spec_out_val(spec_set(b, i, v), i) == Some(v),
{
}

/// An optional field never supplied contributes absence: in the initial
/// state, with no lazy resolver attached, the field's final value is the
/// container's empty state.
pub proof fn lemma_optional_unset_empty(s: Seq<FieldRtV>, i: int)
    requires
        wf_schema_v(s),
        0 <= i < s.len(),
        s[i].category is Optional,
        s[i].lazy_default is None,
    ensures
        spec_out_val(spec_init(s), i) is None,
{
    assert(wf_field_v(s[i]));
}

/// A defaulted field never supplied contributes its declared fallback,
/// as long as no overriding lazy resolver stands.
pub proof fn lemma_defaulted_fallback(s: Seq<FieldRtV>, i: int)
    requires
        wf_schema_v(s),
        0 <= i < s.len(),
        s[i].category is Defaulted,
        !(s[i].lazy_override && s[i].lazy_default is Some),
    ensures
        spec_out_val(spec_init(s), i) == s[i].fallback,
{
    assert(wf_field_v(s[i]));
}

/// Repeated-element setters accumulate in call order: two calls append
/// their two elements in sequence, and a later whole-container setter
/// replaces the accumulated container entirely.
pub proof fn lemma_each_accumulates(b: BuilderV, i: int, e1: ItemV, e2: ItemV, vs: Seq<ItemV>)
    requires
        0 <= i < b.cells.len(),
    ensures
        spec_each_items(spec_set_each(b, i, e1), i) == spec_each_items(b, i).push(e1),
        spec_each_items(spec_set_each(spec_set_each(b, i, e1), i, e2), i) == spec_each_items(
            b,
            i,
        ).push(e1).push(e2),
        spec_each_items(spec_set(b, i, DatumV::List(vs)), i) == vs,
{
}

/// An overriding lazy resolver always decides the field's final value,
/// even when an eager value was stored afterwards or before.
pub proof fn lemma_lazy_override_wins(b: BuilderV, i: int, v: DatumV, w: DatumV)
    requires
        0 <= i < b.cells.len(),
        0 <= i < b.lazies.len(),
        0 <= i < b.schema.len(),
        b.schema[i].lazy_override,
    ensures
        spec_out_val(spec_set_lazy(spec_set(b, i, v), i, w), i) == Some(w),
        spec_out_val(spec_set(spec_set_lazy(b, i, w), i, v), i) == Some(w),
{
}

/// A non-overriding lazy resolver is only a fallback: it decides the
/// field's final value exactly when no eager value was ever stored.
pub proof fn lemma_lazy_fallback(b: BuilderV, i: int, w: DatumV)
    requires
        0 <= i < b.cells.len(),
        0 <= i < b.lazies.len(),
        0 <= i < b.schema.len(),
        !b.schema[i].lazy_override,
    ensures
        b.cells[i] is Some ==> spec_out_val(spec_set_lazy(b, i, w), i) == b.cells[i],
        b.cells[i] is None ==> spec_out_val(spec_set_lazy(b, i, w), i) == Some(w),
{
}

} // verus!
