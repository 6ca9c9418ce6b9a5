//! The setter synthesizer: one block of state-transition operations per
//! field category, and the lazy setters.  A required field's setters
//! return the builder with exactly that field's slot flipped true; the
//! other categories' setters preserve the state type.  The shape of each
//! operation — validated, convertible, hidden, once-gated — follows the
//! field's directives.

use vstd::prelude::*;
use crate::classify::Category;
use crate::generator::{
    Generator,
    Setter,
    SetterKind,
    has_base,
    has_each,
    has_lazy_setter,
    lazy_prefix_bytes,
    setters_view,
    spec_base_setter,
    spec_each_setter,
    spec_field_setters,
    spec_lazy_setter,
    spec_setters_def,
    spec_setters_lazy,
    spec_setters_opt,
    spec_setters_req,
};
use crate::ident::{ident_clone, ident_concat, ident_eq};
use crate::slots::lemma_num_required_le;

verus! {

impl Generator {
    /// Appends the setters of field `i` in their block order: the
    /// repeated-element setter first, then the base setter when it is
    /// neither skipped nor shadowed by a repeated-element setter of the
    /// same name.
    fn field_setters_into(&self, i: usize, out: &mut Vec<Setter>)
        requires
            self.wf(),
            i < self.fields@.len(),
        ensures
            setters_view(final(out)@) == setters_view(old(out)@) + spec_field_setters(
                self.fields@,
                i as int,
            ),
    {
        let ghost s = self.fields@;
        let ghost out0 = setters_view(old(out)@);
        proof {
            lemma_num_required_le(s, i as int);
        }
        let f = &self.fields[i];
        if let Some(e) = &f.attrs.each {
            let st = Setter {
                field: i,
                name: ident_clone(&e.ident),
                kind: SetterKind::Each,
                flips: self.slot_of[i],
                into: false,
                fallible: e.callable.is_some(),
                is_async: match &e.callable {
                    Some(c) => c.asyncness,
                    None => false,
                },
                hidden: f.attrs.props.hide,
                once_gate: if f.attrs.props.once {
                    self.slot_of[i]
                } else {
                    None
                },
            };
            proof {
                assert(st@ == spec_each_setter(s, i as int));
            }
            out.push(st);
        }
        let base_name: &Vec<u8> = match &f.attrs.name {
            Some(n) => n,
            None => &f.name,
        };
        let shadowed = match &f.attrs.each {
            Some(e) => ident_eq(&e.ident, base_name),
            None => false,
        };
        if !f.attrs.props.skip && !shadowed {
            let st = Setter {
                field: i,
                name: ident_clone(base_name),
                kind: SetterKind::Base,
                flips: self.slot_of[i],
                into: f.attrs.props.into,
                fallible: f.attrs.check.is_some(),
                is_async: match &f.attrs.check {
                    Some(c) => c.asyncness,
                    None => false,
                },
                hidden: f.attrs.props.hide,
                once_gate: if f.attrs.props.once {
                    self.slot_of[i]
                } else {
                    None
                },
            };
            proof {
                assert(has_base(s[i as int]));
                assert(st@ == spec_base_setter(s, i as int));
            }
            out.push(st);
        } else {
            proof {
                assert(!has_base(s[i as int]));
            }
        }
        proof {
            assert(setters_view(out@) =~= out0 + spec_field_setters(s, i as int));
        }
    }

    /// The setters of the required fields, in declaration order.
    pub fn req_setters(&self) -> (r: Vec<Setter>)
        requires
            self.wf(),
        ensures
            setters_view(r@) == spec_setters_req(self.fields@, self.fields@.len() as int),
    {
        let ghost s = self.fields@;
        let mut out: Vec<Setter> = Vec::new();
        let mut i: usize = 0;
        #[verifier::loop_isolation(false)]
        while i < self.fields.len()
            invariant
                0 <= i <= s.len(),
                setters_view(out@) =~= spec_setters_req(s, i as int),
            decreases s.len() - i,
        {
            let is_req = match self.fields[i].category {
                Category::Required => true,
                _ => false,
            };
            if is_req {
                self.field_setters_into(i, &mut out);
            }
            proof {
                assert(setters_view(out@) =~= spec_setters_req(s, i + 1));
            }
            i = i + 1;
        }
        out
    }

    /// The setters of the optional fields, in declaration order.
    pub fn opt_setters(&self) -> (r: Vec<Setter>)
        requires
            self.wf(),
        ensures
            setters_view(r@) == spec_setters_opt(self.fields@, self.fields@.len() as int),
    {
        let ghost s = self.fields@;
        let mut out: Vec<Setter> = Vec::new();
        let mut i: usize = 0;
        #[verifier::loop_isolation(false)]
        while i < self.fields.len()
            invariant
                0 <= i <= s.len(),
                setters_view(out@) =~= spec_setters_opt(s, i as int),
            decreases s.len() - i,
        {
            let is_opt = match self.fields[i].category {
                Category::Optional => true,
                _ => false,
            };
            if is_opt {
                self.field_setters_into(i, &mut out);
            }
            proof {
                assert(setters_view(out@) =~= spec_setters_opt(s, i + 1));
            }
            i = i + 1;
        }
        out
    }

    /// The setters of the valued fields — defaulted or value-provided —
    /// in declaration order.
    pub fn def_setters(&self) -> (r: Vec<Setter>)
        requires
            self.wf(),
        ensures
            setters_view(r@) == spec_setters_def(self.fields@, self.fields@.len() as int),
    {
        let ghost s = self.fields@;
        let mut out: Vec<Setter> = Vec::new();
        let mut i: usize = 0;
        #[verifier::loop_isolation(false)]
        while i < self.fields.len()
            invariant
                0 <= i <= s.len(),
                setters_view(out@) =~= spec_setters_def(s, i as int),
            decreases s.len() - i,
        {
            let is_def = match self.fields[i].category {
                Category::Defaulted => true,
                Category::ValueProvided => true,
                _ => false,
            };
            if is_def {
                self.field_setters_into(i, &mut out);
            }
            proof {
                assert(setters_view(out@) =~= spec_setters_def(s, i + 1));
            }
            i = i + 1;
        }
        out
    }

    /// The lazy setters: one per `lazy`-flagged field, named with the
    /// lazy prefix in front of the field's identifier.  Storing a
    /// resolver flips no slot.
    pub fn lazy_setters(&self) -> (r: Vec<Setter>)
        requires
            self.wf(),
        ensures
            setters_view(r@) == spec_setters_lazy(self.fields@, self.fields@.len() as int),
    {
        let ghost s = self.fields@;
        let prefix = lazy_prefix_bytes();
        let mut out: Vec<Setter> = Vec::new();
        let mut i: usize = 0;
        #[verifier::loop_isolation(false)]
        while i < self.fields.len()
            invariant
                0 <= i <= s.len(),
                prefix@ == crate::generator::lazy_prefix(),
                setters_view(out@) =~= spec_setters_lazy(s, i as int),
            decreases s.len() - i,
        {
            let f = &self.fields[i];
            if f.attrs.lazy.is_some() {
                let st = Setter {
                    field: i,
                    name: ident_concat(&prefix, &f.name),
                    kind: SetterKind::Lazy,
                    flips: None,
                    into: false,
                    fallible: false,
                    is_async: false,
                    hidden: f.attrs.props.hide,
                    once_gate: None,
                };
                proof {
                    assert(has_lazy_setter(s[i as int]));
                    assert(st@ == spec_lazy_setter(s, i as int));
                }
                out.push(st);
            }
            proof {
                assert(setters_view(out@) =~= spec_setters_lazy(s, i + 1));
            }
            i = i + 1;
        }
        out
    }
}

} // verus!
