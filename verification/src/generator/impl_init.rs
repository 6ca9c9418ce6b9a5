//! The init passes: they collect the builder's cells, grouped as the
//! builder struct lays them out — the required fields first, then the
//! optional fields, then the valued fields — each group in declaration
//! order.

use vstd::prelude::*;
use crate::classify::Category;
use crate::generator::{
    CellPlan,
    Generator,
    cells_plan_view,
    spec_cell,
    spec_cells_def,
    spec_cells_opt,
    spec_cells_req,
};
use crate::ident::ident_clone;

verus! {

impl Generator {
    /// Collects the cells of the required fields: each is stored wrapped
    /// in the optional-value constructor and starts empty, so that the
    /// all-slots-false entry state can hold it before it is supplied.
    pub fn req_init(&mut self)
        ensures
            final(self).fields == old(self).fields,
            final(self).s_ident == old(self).s_ident,
            final(self).b_ident == old(self).b_ident,
            final(self).st_lifetime_p == old(self).st_lifetime_p,
            final(self).st_const_p == old(self).st_const_p,
            final(self).st_type_p == old(self).st_type_p,
            final(self).slot_of == old(self).slot_of,
            final(self).slot_count == old(self).slot_count,
            cells_plan_view(final(self).cells@) == cells_plan_view(old(self).cells@)
                + spec_cells_req(old(self).fields@, old(self).fields@.len() as int),
    {
        let ghost s = self.fields@;
        let ghost cells0 = cells_plan_view(old(self).cells@);
        let mut i: usize = 0;
        #[verifier::loop_isolation(false)]
        while i < self.fields.len()
            invariant
                0 <= i <= s.len(),
                self.fields@ == s,
                self.s_ident == old(self).s_ident,
                self.b_ident == old(self).b_ident,
                self.st_lifetime_p == old(self).st_lifetime_p,
                self.st_const_p == old(self).st_const_p,
                self.st_type_p == old(self).st_type_p,
                self.slot_of == old(self).slot_of,
                self.slot_count == old(self).slot_count,
                self.fields == old(self).fields,
                cells_plan_view(self.cells@) =~= cells0 + spec_cells_req(s, i as int),
            decreases s.len() - i,
        {
            let is_req = match self.fields[i].category {
                Category::Required => true,
                _ => false,
            };
            let ghost before = cells_plan_view(self.cells@);
            if is_req {
                let cell = CellPlan {
                    field: i,
                    name: ident_clone(&self.fields[i].name),
                    wrapped: true,
                    init_fallback: false,
                };
                proof {
                    assert(cell@ == spec_cell(s, i as int));
                }
                self.cells.push(cell);
                proof {
                    assert(cells_plan_view(self.cells@) =~= before.push(spec_cell(s, i as int)));
                }
            }
            proof {
                assert(spec_cells_req(s, i + 1) == spec_cells_req(s, i as int) + (
                if s[i as int].category is Required {
                    seq![spec_cell(s, i as int)]
                } else {
                    Seq::empty()
                }));
                assert(cells_plan_view(self.cells@) =~= cells0 + spec_cells_req(s, i + 1));
            }
            i = i + 1;
        }
    }

    /// Collects the cells of the optional fields: the declared type is
    /// already the optional-value constructor, so each is stored as it is
    /// and starts empty.
    pub fn opt_init(&mut self)
        ensures
            final(self).fields == old(self).fields,
            final(self).s_ident == old(self).s_ident,
            final(self).b_ident == old(self).b_ident,
            final(self).st_lifetime_p == old(self).st_lifetime_p,
            final(self).st_const_p == old(self).st_const_p,
            final(self).st_type_p == old(self).st_type_p,
            final(self).slot_of == old(self).slot_of,
            final(self).slot_count == old(self).slot_count,
            cells_plan_view(final(self).cells@) == cells_plan_view(old(self).cells@)
                + spec_cells_opt(old(self).fields@, old(self).fields@.len() as int),
    {
        let ghost s = self.fields@;
        let ghost cells0 = cells_plan_view(old(self).cells@);
        let mut i: usize = 0;
        #[verifier::loop_isolation(false)]
        while i < self.fields.len()
            invariant
                0 <= i <= s.len(),
                self.fields@ == s,
                self.s_ident == old(self).s_ident,
                self.b_ident == old(self).b_ident,
                self.st_lifetime_p == old(self).st_lifetime_p,
                self.st_const_p == old(self).st_const_p,
                self.st_type_p == old(self).st_type_p,
                self.slot_of == old(self).slot_of,
                self.slot_count == old(self).slot_count,
                self.fields == old(self).fields,
                cells_plan_view(self.cells@) =~= cells0 + spec_cells_opt(s, i as int),
            decreases s.len() - i,
        {
            let is_opt = match self.fields[i].category {
                Category::Optional => true,
                _ => false,
            };
            let ghost before = cells_plan_view(self.cells@);
            if is_opt {
                let cell = CellPlan {
                    field: i,
                    name: ident_clone(&self.fields[i].name),
                    wrapped: false,
                    init_fallback: false,
                };
                proof {
                    assert(cell@ == spec_cell(s, i as int));
                }
                self.cells.push(cell);
                proof {
                    assert(cells_plan_view(self.cells@) =~= before.push(spec_cell(s, i as int)));
                }
            }
            proof {
                assert(spec_cells_opt(s, i + 1) == spec_cells_opt(s, i as int) + (
                if s[i as int].category is Optional {
                    seq![spec_cell(s, i as int)]
                } else {
                    Seq::empty()
                }));
                assert(cells_plan_view(self.cells@) =~= cells0 + spec_cells_opt(s, i + 1));
            }
            i = i + 1;
        }
    }

    /// Collects the cells of the valued fields: a defaulted field is
    /// stored unwrapped and initialized from its fallback expression; a
    /// value-provided field is stored wrapped and empty until its
    /// resolver runs at finalize time.
    pub fn def_init(&mut self)
        ensures
            final(self).fields == old(self).fields,
            final(self).s_ident == old(self).s_ident,
            final(self).b_ident == old(self).b_ident,
            final(self).st_lifetime_p == old(self).st_lifetime_p,
            final(self).st_const_p == old(self).st_const_p,
            final(self).st_type_p == old(self).st_type_p,
            final(self).slot_of == old(self).slot_of,
            final(self).slot_count == old(self).slot_count,
            cells_plan_view(final(self).cells@) == cells_plan_view(old(self).cells@)
                + spec_cells_def(old(self).fields@, old(self).fields@.len() as int),
    {
        let ghost s = self.fields@;
        let ghost cells0 = cells_plan_view(old(self).cells@);
        let mut i: usize = 0;
        #[verifier::loop_isolation(false)]
        while i < self.fields.len()
            invariant
                0 <= i <= s.len(),
                self.fields@ == s,
                self.s_ident == old(self).s_ident,
                self.b_ident == old(self).b_ident,
                self.st_lifetime_p == old(self).st_lifetime_p,
                self.st_const_p == old(self).st_const_p,
                self.st_type_p == old(self).st_type_p,
                self.slot_of == old(self).slot_of,
                self.slot_count == old(self).slot_count,
                self.fields == old(self).fields,
                cells_plan_view(self.cells@) =~= cells0 + spec_cells_def(s, i as int),
            decreases s.len() - i,
        {
            let group = match self.fields[i].category {
                Category::Defaulted => Some(false),
                Category::ValueProvided => Some(true),
                _ => None,
            };
            let ghost before = cells_plan_view(self.cells@);
            if let Some(wrapped) = group {
                let cell = CellPlan {
                    field: i,
                    name: ident_clone(&self.fields[i].name),
                    wrapped,
                    init_fallback: !wrapped,
                };
                proof {
                    assert(cell@ == spec_cell(s, i as int));
                }
                self.cells.push(cell);
                proof {
                    assert(cells_plan_view(self.cells@) =~= before.push(spec_cell(s, i as int)));
                }
            }
            proof {
                assert(spec_cells_def(s, i + 1) == spec_cells_def(s, i as int) + (
                if s[i as int].category is Defaulted || s[i as int].category is ValueProvided {
                    seq![spec_cell(s, i as int)]
                } else {
                    Seq::empty()
                }));
                assert(cells_plan_view(self.cells@) =~= cells0 + spec_cells_def(s, i + 1));
            }
            i = i + 1;
        }
    }
}

} // verus!
