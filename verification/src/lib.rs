//! A verified model of a type-state builder generator.
//!
//! Given a record declaration whose fields carry directives (skip, hide,
//! once, into, each, value, name, check, lazy), the library classifies each
//! field as required, optional, defaulted or value-provided, assigns one
//! boolean slot per required field, and synthesizes a description of the
//! builder type: its cells, its state-transition setters, the guards that
//! gate finalization, and the finalize operation itself.  A runtime model
//! of the synthesized builder is verified against the same classification,
//! so the order-independence of required setters, the precedence of lazy
//! resolvers, and the behaviour of validators are proved, not only tested.

pub mod attrs;
pub mod classify;
pub mod err;
pub mod generator;
pub mod generics;
pub mod ident;
pub mod laws;
pub mod machine;
pub mod parse;
pub mod slots;
pub mod wrap;

use vstd::prelude::*;
use crate::classify::{spec_classified, spec_classify_error};
use crate::err::Error;
use crate::generator::{BuilderPlan, Generator, RecordSpec};

verus! {

/// The generator's entry point: classifies the record's fields and
/// synthesizes the builder description, or reports the first rejected
/// field's position and rejection.
pub fn builder(record: RecordSpec) -> (r: Result<BuilderPlan, (usize, Error)>)
    ensures
        match r {
            Ok(plan) => {
                &&& plan.fields@.len() == record.fields@.len()
                &&& forall|i: int|
                    0 <= i < record.fields@.len() ==> spec_classified(
                        record.fields@[i],
                        #[trigger] plan.fields@[i],
                    )
                &&& plan.s_ident@ == record.ident@
                &&& plan.b_ident@ == record.ident@ + crate::generator::builder_suffix()
                &&& plan.slot_count as int == crate::slots::spec_num_required(
                    plan.fields@,
                    plan.fields@.len() as int,
                )
                &&& plan.slot_of@.len() == plan.fields@.len()
                &&& forall|i: int|
                    0 <= i < plan.fields@.len() ==> #[trigger] plan.slot_of@[i] == (
                    match crate::slots::spec_slot_of(plan.fields@, i) {
                        Some(k) => Some(k as usize),
                        None => None::<usize>,
                    })
                &&& crate::generator::cells_plan_view(plan.cells@)
                    == crate::generator::spec_cells_req(plan.fields@, plan.fields@.len() as int)
                    + crate::generator::spec_cells_opt(plan.fields@, plan.fields@.len() as int)
                    + crate::generator::spec_cells_def(plan.fields@, plan.fields@.len() as int)
                &&& crate::generator::setters_view(plan.setters@)
                    == crate::generator::spec_setters_req(plan.fields@, plan.fields@.len() as int)
                    + crate::generator::spec_setters_opt(plan.fields@, plan.fields@.len() as int)
                    + crate::generator::spec_setters_def(plan.fields@, plan.fields@.len() as int)
                    + crate::generator::spec_setters_lazy(plan.fields@, plan.fields@.len() as int)
                &&& crate::generator::guards_view(plan.guards@)
                    == crate::generator::impl_constraint::spec_guards(
                    plan.fields@,
                    plan.fields@.len() as int,
                )
                &&& plan.entry_async == exists|i: int|
                    0 <= i < plan.fields@.len() && crate::generator::field_entry_async(
                        #[trigger] plan.fields@[i],
                    )
                &&& plan.build_async == exists|i: int|
                    0 <= i < plan.fields@.len() && crate::generator::field_build_async(
                        #[trigger] plan.fields@[i],
                    )
                &&& plan.build_fallible == exists|i: int|
                    0 <= i < plan.fields@.len() && crate::generator::field_fallible(
                        #[trigger] plan.fields@[i],
                    )
                &&& plan.impl_default == (crate::slots::spec_num_required(
                    plan.fields@,
                    plan.fields@.len() as int,
                ) == 0)
            },
            Err(ie) => {
                &&& 0 <= (ie.0 as int) < record.fields@.len()
                &&& spec_classify_error(record.fields@[ie.0 as int]) == Some(ie.1)
                &&& forall|j: int|
                    0 <= j < ie.0 ==> spec_classify_error(#[trigger] record.fields@[j]) is None
            },
        },
{
    let g = match Generator::new(record) {
        Ok(g) => g,
        Err(ie) => {
            return Err(ie);
        },
    };
    Ok(g.generate())
}

} // verus!
