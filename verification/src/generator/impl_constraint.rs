//! The constraint synthesizer: one guard trait per required field,
//! satisfied by every builder state whose slot for that field is true,
//! universally over all other slots.  Finalize is gated on the
//! conjunction of all guards, and the conjunction holds exactly on the
//! all-true slot vector — proved below, so "forgot a required field" can
//! only name a state that the generated code makes unreachable.

use vstd::prelude::*;
use convert_case::Casing;
use crate::classify::FieldSpec;
use crate::generator::{Generator, Guard, GuardV, guards_view, has_prefix, has_prefix_bytes};
use crate::ident::ident_concat;
use crate::slots::{
    lemma_num_required_le,
    lemma_slot_in_range,
    lemma_slot_surjective,
    spec_num_required,
};

verus! {

/// The upper-camel spelling of an identifier, as the case-conversion
/// library computes it from the characters alone.
pub uninterp spec fn camel_of(s: Seq<u8>) -> Seq<u8>;

/// Relies on convert_case's `Casing::to_case` with the upper-camel case:
/// the result depends on the input text alone.
#[verifier::external_body]
fn to_upper_camel(s: &Vec<u8>) -> (r: Vec<u8>)
    ensures
        r@ == camel_of(s@),
{
    let text = String::from_utf8_lossy(s).to_string();
    let converted = text.to_case(convert_case::Case::UpperCamel);
    converted.into_bytes()
}

/// The guard of the required field at position `i`: its slot is the
/// field's rank, and its trait is named after the field in upper camel
/// case behind the guard prefix.
pub open spec fn spec_guard(s: Seq<FieldSpec>, i: int) -> GuardV {
    GuardV { slot: spec_num_required(s, i), trait_name: has_prefix() + camel_of(s[i].name@) }
}

/// The guards of the required fields among the first `n`, in slot order.
pub open spec fn spec_guards(s: Seq<FieldSpec>, n: int) -> Seq<GuardV>
    decreases n,
{
    if n <= 0 {
        Seq::empty()
    } else {
        spec_guards(s, n - 1) + (if s[n - 1].category is Required {
            seq![spec_guard(s, n - 1)]
        } else {
            Seq::empty()
        })
    }
}

/// There are as many guards as slots, and the guard at a required
/// field's slot index is that field's guard.
pub proof fn lemma_guards_characterize(s: Seq<FieldSpec>, n: int)
    requires
        0 <= n <= s.len(),
    ensures
        spec_guards(s, n).len() == spec_num_required(s, n),
        forall|i: int|
            0 <= i < n && (#[trigger] s[i]).category is Required ==> spec_guards(s, n)[
                spec_num_required(s, i)
            ] == spec_guard(s, i),
    decreases n,
{
    if n > 0 {
        lemma_guards_characterize(s, n - 1);
        assert forall|i: int|
            0 <= i < n && (#[trigger] s[i]).category is Required implies spec_guards(s, n)[
            spec_num_required(s, i)
        ] == spec_guard(s, i) by {
            lemma_num_required_le(s, i);
            if i < n - 1 {
                crate::slots::lemma_num_required_monotone(s, i + 1, n - 1);
            }
        }
    }
}

/// Whether a builder state with slot vector `slots` satisfies the guard:
/// exactly when the guard's own slot is true, independent of every other
/// slot.
pub open spec fn guard_satisfied(g: GuardV, slots: Seq<bool>) -> bool {
    0 <= g.slot < slots.len() && slots[g.slot]
}

/// Whether a slot vector satisfies the conjunction of all guards — the
/// gate on finalize.
pub open spec fn all_guards_satisfied(gs: Seq<GuardV>, slots: Seq<bool>) -> bool {
    forall|k: int| 0 <= k < gs.len() ==> guard_satisfied(#[trigger] gs[k], slots)
}

/// A guard reads only its own slot: two slot vectors that agree there
/// satisfy it alike, whatever the other slots hold.
pub proof fn lemma_guard_independent(g: GuardV, s1: Seq<bool>, s2: Seq<bool>)
    requires
        s1.len() == s2.len(),
        0 <= g.slot < s1.len() ==> s1[g.slot] == s2[g.slot],
    ensures
        guard_satisfied(g, s1) == guard_satisfied(g, s2),
{
}

/// The conjunction of all guards holds exactly on the all-true slot
/// vector: finalize is reachable from precisely one state shape, and
/// omitting any required setter excludes it.
pub proof fn lemma_guard_conjunction(s: Seq<FieldSpec>, slots: Seq<bool>)
    requires
        slots.len() as int == spec_num_required(s, s.len() as int),
    ensures
        all_guards_satisfied(spec_guards(s, s.len() as int), slots) <==> (forall|j: int|
            0 <= j < slots.len() ==> slots[j]),
{
    let n = s.len() as int;
    let gs = spec_guards(s, n);
    lemma_guards_characterize(s, n);
    if all_guards_satisfied(gs, slots) {
        assert forall|j: int| 0 <= j < slots.len() implies slots[j] by {
            lemma_slot_surjective(s, n, j);
            let i = choose|i: int|
                0 <= i < n && s[i].category is Required && spec_num_required(s, i) == j;
            assert(gs[j] == spec_guard(s, i));
            assert(guard_satisfied(gs[j], slots));
        }
    }
    if forall|j: int| 0 <= j < slots.len() ==> slots[j] {
        assert forall|k: int| 0 <= k < gs.len() implies guard_satisfied(#[trigger] gs[k], slots) by {
            lemma_slot_surjective(s, n, k);
            let i = choose|i: int|
                0 <= i < n && s[i].category is Required && spec_num_required(s, i) == k;
            lemma_slot_in_range(s, i);
            assert(gs[k] == spec_guard(s, i));
            assert(slots[k]);
        }
    }
}

/// Omitting any one required field excludes finalize: while that field's
/// slot is false, its own guard — and with it the conjunction — cannot
/// be satisfied, whatever the other slots hold.
pub proof fn lemma_omitted_field_fails_guards(s: Seq<FieldSpec>, slots: Seq<bool>, i: int)
    requires
        slots.len() as int == spec_num_required(s, s.len() as int),
        0 <= i < s.len(),
        s[i].category is Required,
        !slots[spec_num_required(s, i)],
    ensures
        !all_guards_satisfied(spec_guards(s, s.len() as int), slots),
{
    let n = s.len() as int;
    lemma_guards_characterize(s, n);
    crate::slots::lemma_slot_in_range(s, i);
    assert(spec_guards(s, n)[spec_num_required(s, i)] == spec_guard(s, i));
    assert(!guard_satisfied(spec_guards(s, n)[spec_num_required(s, i)], slots));
}

impl Generator {
    /// The guard traits of the required fields, in slot order.
    pub fn guards(&self) -> (r: Vec<Guard>)
        requires
            self.wf(),
        ensures
            guards_view(r@) == spec_guards(self.fields@, self.fields@.len() as int),
    {
        let ghost s = self.fields@;
        let prefix = has_prefix_bytes();
        let mut out: Vec<Guard> = Vec::new();
        let mut count: usize = 0;
        let mut i: usize = 0;
        #[verifier::loop_isolation(false)]
        while i < self.fields.len()
            invariant
                0 <= i <= s.len(),
                prefix@ == has_prefix(),
                count as int == spec_num_required(s, i as int),
                guards_view(out@) =~= spec_guards(s, i as int),
            decreases s.len() - i,
        {
            proof {
                lemma_num_required_le(s, i as int);
            }
            let is_req = match self.fields[i].category {
                crate::classify::Category::Required => true,
                _ => false,
            };
            if is_req {
                let camel = to_upper_camel(&self.fields[i].name);
                let g = Guard { slot: count, trait_name: ident_concat(&prefix, &camel) };
                proof {
                    assert(g@ == spec_guard(s, i as int));
                }
                out.push(g);
                count = count + 1;
            }
            proof {
                assert(guards_view(out@) =~= spec_guards(s, i + 1));
            }
            i = i + 1;
        }
        out
    }
}

} // verus!
