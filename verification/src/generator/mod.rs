//! The generator: from a classified record to the complete description of
//! the builder type — its name, its cells, its state-transition setters,
//! the guard traits that gate finalization, and the asynchrony and
//! fallibility of its entry points.  The description is the type-state
//! encoding itself; rendering it to source text is mechanical and stays
//! outside the library.

pub mod impl_constraint;
pub mod impl_default;
pub mod impl_init;
pub mod impl_setter;

use vstd::prelude::*;
use crate::attrs::{Lazy, Value};
use crate::classify::{Category, FieldDecl, FieldSpec, classify_fields, spec_classified,
    spec_classify_error};
use crate::err::Error;
use crate::generics::{GenericParam, split_params};
use crate::ident::ident_concat;
use crate::slots::{assign_slots, spec_num_required, spec_slot_of};

verus! {

/// The suffix appended to the record's identifier to name the builder
/// type.
pub open spec fn builder_suffix() -> Seq<u8> {
    seq![66u8, 117u8, 105u8, 108u8, 100u8, 101u8, 114u8]
}

/// The byte spelling of the builder-name suffix.
pub fn builder_suffix_bytes() -> (r: Vec<u8>)
    ensures
        r@ == builder_suffix(),
{
    let mut r: Vec<u8> = Vec::new();
    r.push(66);
    r.push(117);
    r.push(105);
    r.push(108);
    r.push(100);
    r.push(101);
    r.push(114);
    proof {
        assert(r@ =~= builder_suffix());
    }
    r
}

/// The prefix of every lazy setter's name.
pub open spec fn lazy_prefix() -> Seq<u8> {
    seq![108u8, 97u8, 122u8, 121u8, 95u8]
}

/// The byte spelling of the lazy-setter prefix.
pub fn lazy_prefix_bytes() -> (r: Vec<u8>)
    ensures
        r@ == lazy_prefix(),
{
    let mut r: Vec<u8> = Vec::new();
    r.push(108);
    r.push(97);
    r.push(122);
    r.push(121);
    r.push(95);
    proof {
        assert(r@ =~= lazy_prefix());
    }
    r
}

/// The prefix of every guard trait's name.
pub open spec fn has_prefix() -> Seq<u8> {
    seq![72u8, 97u8, 115u8]
}

/// The byte spelling of the guard-trait prefix.
pub fn has_prefix_bytes() -> (r: Vec<u8>)
    ensures
        r@ == has_prefix(),
{
    let mut r: Vec<u8> = Vec::new();
    r.push(72);
    r.push(97);
    r.push(115);
    proof {
        assert(r@ =~= has_prefix());
    }
    r
}

/// The record declaration the generator consumes: the record's
/// identifier, its generic parameters, and its fields with their parsed
/// directives.
pub struct RecordSpec {
    pub ident: Vec<u8>,
    pub generics: Vec<GenericParam>,
    pub fields: Vec<FieldDecl>,
}

/// The kind of a synthesized state-transition operation.
#[derive(Clone, Copy, PartialEq, Eq, Structural, Debug)]
pub enum SetterKind {
    /// The base setter: stores the whole value.
    Base,
    /// The repeated-element setter: appends one element.
    Each,
    /// The lazy setter: stores a deferred resolver.
    Lazy,
}

/// One synthesized setter: which field it serves, its method name, its
/// kind, the slot its return type flips (required fields only), and the
/// shape flags — convertible parameter, result-wrapped on a validator,
/// asynchronous on an asynchronous validator, hidden, and gated to the
/// specialization where its slot is still false.
pub struct Setter {
    pub field: usize,
    pub name: Vec<u8>,
    pub kind: SetterKind,
    pub flips: Option<usize>,
    pub into: bool,
    pub fallible: bool,
    pub is_async: bool,
    pub hidden: bool,
    pub once_gate: Option<usize>,
}

/// The mathematical value of a synthesized setter.
#[verifier::ext_equal]
pub ghost struct SetterV {
    pub field: int,
    pub name: Seq<u8>,
    pub kind: SetterKind,
    pub flips: Option<int>,
    pub into: bool,
    pub fallible: bool,
    pub is_async: bool,
    pub hidden: bool,
    pub once_gate: Option<int>,
}

/// The mathematical value of an optional slot index.
pub open spec fn slot_opt_view(o: Option<usize>) -> Option<int> {
    match o {
        Some(k) => Some(k as int),
        None => None,
    }
}

impl View for Setter {
    type V = SetterV;

    open spec fn view(&self) -> SetterV {
        SetterV {
            field: self.field as int,
            name: self.name@,
            kind: self.kind,
            flips: slot_opt_view(self.flips),
            into: self.into,
            fallible: self.fallible,
            is_async: self.is_async,
            hidden: self.hidden,
            once_gate: slot_opt_view(self.once_gate),
        }
    }
}

/// The mathematical value of a sequence of setters.
pub open spec fn setters_view(s: Seq<Setter>) -> Seq<SetterV> {
    s.map_values(|st: Setter| st@)
}

/// One guard: a marker trait satisfied by every builder state whose slot
/// is true, regardless of all other slots.
pub struct Guard {
    pub slot: usize,
    pub trait_name: Vec<u8>,
}

/// The mathematical value of a guard.
#[verifier::ext_equal]
pub ghost struct GuardV {
    pub slot: int,
    pub trait_name: Seq<u8>,
}

impl View for Guard {
    type V = GuardV;

    open spec fn view(&self) -> GuardV {
        GuardV { slot: self.slot as int, trait_name: self.trait_name@ }
    }
}

/// The mathematical value of a sequence of guards.
pub open spec fn guards_view(s: Seq<Guard>) -> Seq<GuardV> {
    s.map_values(|g: Guard| g@)
}

/// One builder cell: which field it stores, under its name, whether the
/// stored type is wrapped in the optional-value constructor, and whether
/// its initializer is the field's fallback expression rather than empty.
pub struct CellPlan {
    pub field: usize,
    pub name: Vec<u8>,
    pub wrapped: bool,
    pub init_fallback: bool,
}

/// The mathematical value of a builder cell.
#[verifier::ext_equal]
pub ghost struct CellPlanV {
    pub field: int,
    pub name: Seq<u8>,
    pub wrapped: bool,
    pub init_fallback: bool,
}

impl View for CellPlan {
    type V = CellPlanV;

    open spec fn view(&self) -> CellPlanV {
        CellPlanV {
            field: self.field as int,
            name: self.name@,
            wrapped: self.wrapped,
            init_fallback: self.init_fallback,
        }
    }
}

/// The mathematical value of a sequence of cells.
pub open spec fn cells_plan_view(s: Seq<CellPlan>) -> Seq<CellPlanV> {
    s.map_values(|c: CellPlan| c@)
}

/// The name of a field's base setter: its rename when the `name`
/// directive gave one, else the field's own identifier.
pub open spec fn base_setter_name(f: FieldSpec) -> Seq<u8> {
    match f.attrs.name {
        Some(n) => n@,
        None => f.name@,
    }
}

/// Whether the field gets a base setter: `skip` suppresses it, and a
/// repeated-element setter under the same name takes precedence over it.
pub open spec fn has_base(f: FieldSpec) -> bool {
    &&& !f.attrs.props.skip
    &&& !(f.attrs.each matches Some(e) && e.ident@ == base_setter_name(f))
}

/// Whether the field gets a repeated-element setter.
pub open spec fn has_each(f: FieldSpec) -> bool {
    f.attrs.each is Some
}

/// Whether the field gets a lazy setter.
pub open spec fn has_lazy_setter(f: FieldSpec) -> bool {
    f.attrs.lazy is Some
}

/// The field's base setter.
pub open spec fn spec_base_setter(s: Seq<FieldSpec>, i: int) -> SetterV {
    SetterV {
        field: i,
        name: base_setter_name(s[i]),
        kind: SetterKind::Base,
        flips: spec_slot_of(s, i),
        into: s[i].attrs.props.into,
        fallible: s[i].attrs.check is Some,
        is_async: s[i].attrs.check matches Some(c) && c.asyncness,
        hidden: s[i].attrs.props.hide,
        once_gate: if s[i].attrs.props.once {
            spec_slot_of(s, i)
        } else {
            None
        },
    }
}

/// The field's repeated-element setter.
pub open spec fn spec_each_setter(s: Seq<FieldSpec>, i: int) -> SetterV {
    SetterV {
        field: i,
        name: match s[i].attrs.each {
            Some(e) => e.ident@,
            None => Seq::empty(),
        },
        kind: SetterKind::Each,
        flips: spec_slot_of(s, i),
        into: false,
        fallible: s[i].attrs.each matches Some(e) && e.callable is Some,
        is_async: s[i].attrs.each matches Some(e) && e.callable matches Some(c) && c.asyncness,
        hidden: s[i].attrs.props.hide,
        once_gate: if s[i].attrs.props.once {
            spec_slot_of(s, i)
        } else {
            None
        },
    }
}

/// The field's lazy setter: it stores a resolver without flipping any
/// slot, so it is never result-wrapped and never gated.
pub open spec fn spec_lazy_setter(s: Seq<FieldSpec>, i: int) -> SetterV {
    SetterV {
        field: i,
        name: lazy_prefix() + s[i].name@,
        kind: SetterKind::Lazy,
        flips: None,
        into: false,
        fallible: false,
        is_async: false,
        hidden: s[i].attrs.props.hide,
        once_gate: None,
    }
}

/// The setters one field contributes to its category's block: its
/// repeated-element setter first, then its base setter when not
/// suppressed.
pub open spec fn spec_field_setters(s: Seq<FieldSpec>, i: int) -> Seq<SetterV> {
    (if has_each(s[i]) {
        seq![spec_each_setter(s, i)]
    } else {
        Seq::empty()
    }) + (if has_base(s[i]) {
        seq![spec_base_setter(s, i)]
    } else {
        Seq::empty()
    })
}

/// The setters of the required fields among the first `n`, in
/// declaration order.
pub open spec fn spec_setters_req(s: Seq<FieldSpec>, n: int) -> Seq<SetterV>
    decreases n,
{
    if n <= 0 {
        Seq::empty()
    } else {
        spec_setters_req(s, n - 1) + (if s[n - 1].category is Required {
            spec_field_setters(s, n - 1)
        } else {
            Seq::empty()
        })
    }
}

/// The setters of the optional fields among the first `n`.
pub open spec fn spec_setters_opt(s: Seq<FieldSpec>, n: int) -> Seq<SetterV>
    decreases n,
{
    if n <= 0 {
        Seq::empty()
    } else {
        spec_setters_opt(s, n - 1) + (if s[n - 1].category is Optional {
            spec_field_setters(s, n - 1)
        } else {
            Seq::empty()
        })
    }
}

/// The setters of the valued fields — defaulted or value-provided —
/// among the first `n`.
pub open spec fn spec_setters_def(s: Seq<FieldSpec>, n: int) -> Seq<SetterV>
    decreases n,
{
    if n <= 0 {
        Seq::empty()
    } else {
        spec_setters_def(s, n - 1) + (if s[n - 1].category is Defaulted || s[n
            - 1].category is ValueProvided {
            spec_field_setters(s, n - 1)
        } else {
            Seq::empty()
        })
    }
}

/// The lazy setters of the first `n` fields, one per `lazy`-flagged
/// field, in declaration order.
pub open spec fn spec_setters_lazy(s: Seq<FieldSpec>, n: int) -> Seq<SetterV>
    decreases n,
{
    if n <= 0 {
        Seq::empty()
    } else {
        spec_setters_lazy(s, n - 1) + (if has_lazy_setter(s[n - 1]) {
            seq![spec_lazy_setter(s, n - 1)]
        } else {
            Seq::empty()
        })
    }
}

/// The cell of one field: required cells are wrapped and start empty,
/// optional cells keep the declared type and start empty, defaulted
/// cells keep the declared type and start at the fallback, and
/// value-provided cells are wrapped and start empty until their resolver
/// runs.
pub open spec fn spec_cell(s: Seq<FieldSpec>, i: int) -> CellPlanV {
    CellPlanV {
        field: i,
        name: s[i].name@,
        wrapped: s[i].category is Required || s[i].category is ValueProvided,
        init_fallback: s[i].category is Defaulted,
    }
}

/// The cells of the required fields among the first `n`.
pub open spec fn spec_cells_req(s: Seq<FieldSpec>, n: int) -> Seq<CellPlanV>
    decreases n,
{
    if n <= 0 {
        Seq::empty()
    } else {
        spec_cells_req(s, n - 1) + (if s[n - 1].category is Required {
            seq![spec_cell(s, n - 1)]
        } else {
            Seq::empty()
        })
    }
}

/// The cells of the optional fields among the first `n`.
pub open spec fn spec_cells_opt(s: Seq<FieldSpec>, n: int) -> Seq<CellPlanV>
    decreases n,
{
    if n <= 0 {
        Seq::empty()
    } else {
        spec_cells_opt(s, n - 1) + (if s[n - 1].category is Optional {
            seq![spec_cell(s, n - 1)]
        } else {
            Seq::empty()
        })
    }
}

/// The cells of the valued fields among the first `n`.
pub open spec fn spec_cells_def(s: Seq<FieldSpec>, n: int) -> Seq<CellPlanV>
    decreases n,
{
    if n <= 0 {
        Seq::empty()
    } else {
        spec_cells_def(s, n - 1) + (if s[n - 1].category is Defaulted || s[n
            - 1].category is ValueProvided {
            seq![spec_cell(s, n - 1)]
        } else {
            Seq::empty()
        })
    }
}

/// Whether a lazy directive's resolution is asynchronous: its own
/// `async` marker, or an asynchronous default resolver.
pub open spec fn lazy_is_async(l: Lazy) -> bool {
    l.asyncness || (l.callable matches Some(c) && c.asyncness)
}

/// Whether the field makes the builder-construction entry point
/// asynchronous: a defaulted field whose fallback callable is
/// asynchronous, or a value-provided field with an asynchronous
/// resolver.
pub open spec fn field_entry_async(f: FieldSpec) -> bool {
    ||| f.category is Defaulted && (f.attrs.value matches Some(v) && v matches Value::Callable(c)
        && c.asyncness)
    ||| f.category is ValueProvided && (f.attrs.lazy matches Some(l) && lazy_is_async(l))
}

/// Whether the field makes the finalize operation asynchronous: an
/// asynchronous lazy resolver or an asynchronous validator.
pub open spec fn field_build_async(f: FieldSpec) -> bool {
    ||| f.attrs.check matches Some(c) && c.asyncness
    ||| f.attrs.lazy matches Some(l) && lazy_is_async(l)
    ||| f.attrs.each matches Some(e) && e.callable matches Some(c) && c.asyncness
}

/// Whether the field can make finalization fail: it carries a
/// whole-value validator.
pub open spec fn field_fallible(f: FieldSpec) -> bool {
    f.attrs.check is Some
}

/// The generator's working state: the classified fields, the record's and
/// builder's identifiers, the record's generic parameters split by kind,
/// the slot assignment, and the builder cells the init passes collect.
pub struct Generator {
    pub fields: Vec<FieldSpec>,
    pub s_ident: Vec<u8>,
    pub b_ident: Vec<u8>,
    pub st_lifetime_p: Vec<GenericParam>,
    pub st_const_p: Vec<GenericParam>,
    pub st_type_p: Vec<GenericParam>,
    pub slot_of: Vec<Option<usize>>,
    pub slot_count: usize,
    pub cells: Vec<CellPlan>,
}

impl Generator {
    /// The generator's invariant: the slot assignment stored in
    /// `slot_of` and `slot_count` is the rank numbering of the required
    /// fields.
    pub open spec fn wf(&self) -> bool {
        &&& self.slot_of@.len() == self.fields@.len()
        &&& forall|i: int|
            0 <= i < self.fields@.len() ==> #[trigger] self.slot_of@[i] == (
            match spec_slot_of(self.fields@, i) {
                Some(k) => Some(k as usize),
                None => None::<usize>,
            })
        &&& self.slot_count as int == spec_num_required(self.fields@, self.fields@.len() as int)
    }

    /// Classifies the record's fields, assigns the slots, splits the
    /// generic parameters, and runs the three init passes.  The first
    /// classification rejection aborts the whole record and names the
    /// offending field's position.
    pub fn new(record: RecordSpec) -> (r: Result<Generator, (usize, Error)>)
        ensures
            match r {
                Ok(g) => {
                    &&& g.wf()
                    &&& g.fields@.len() == record.fields@.len()
                    &&& forall|i: int|
                        0 <= i < record.fields@.len() ==> spec_classified(
                            record.fields@[i],
                            #[trigger] g.fields@[i],
                        )
                    &&& g.s_ident@ == record.ident@
                    &&& g.b_ident@ == record.ident@ + builder_suffix()
                    &&& g.st_lifetime_p@ == record.generics@.filter(
                        |p: GenericParam| p.name is Lifetime,
                    )
                    &&& g.st_const_p@ == record.generics@.filter(
                        |p: GenericParam| p.name is Const,
                    )
                    &&& g.st_type_p@ == record.generics@.filter(|p: GenericParam| p.name is Type)
                    &&& cells_plan_view(g.cells@) == spec_cells_req(
                        g.fields@,
                        g.fields@.len() as int,
                    ) + spec_cells_opt(g.fields@, g.fields@.len() as int) + spec_cells_def(
                        g.fields@,
                        g.fields@.len() as int,
                    )
                },
                Err(ie) => {
                    &&& 0 <= (ie.0 as int) < record.fields@.len()
                    &&& spec_classify_error(record.fields@[ie.0 as int]) == Some(ie.1)
                    &&& forall|j: int|
                        0 <= j < ie.0 ==> spec_classify_error(#[trigger] record.fields@[j]) is None
                },
            },
    {
        let RecordSpec { ident, generics, fields } = record;
        let fields = match classify_fields(fields) {
            Ok(fs) => fs,
            Err(ie) => {
                return Err(ie);
            },
        };
        let suffix = builder_suffix_bytes();
        let b_ident = ident_concat(&ident, &suffix);
        let (st_lifetime_p, st_const_p, st_type_p) = split_params(generics);
        let (slot_of, slot_count) = assign_slots(&fields);
        let mut g = Generator {
            fields,
            s_ident: ident,
            b_ident,
            st_lifetime_p,
            st_const_p,
            st_type_p,
            slot_of,
            slot_count,
            cells: Vec::new(),
        };
        let ghost fs = g.fields@;
        let ghost n = fs.len() as int;
        g.req_init();
        g.opt_init();
        g.def_init();
        proof {
            assert(cells_plan_view(g.cells@) =~= spec_cells_req(fs, n) + spec_cells_opt(fs, n)
                + spec_cells_def(fs, n));
        }
        Ok(g)
    }

    /// Assembles the finished plan: the four setter blocks in their
    /// order, the guards, the default-construction flag, and the
    /// asynchrony and fallibility of the two entry points, each computed
    /// as a fixed point over all fields.
    pub fn generate(self) -> (r: BuilderPlan)
        requires
            self.wf(),
        ensures
            r.s_ident == self.s_ident,
            r.b_ident == self.b_ident,
            r.st_lifetime_p == self.st_lifetime_p,
            r.st_const_p == self.st_const_p,
            r.st_type_p == self.st_type_p,
            r.fields == self.fields,
            r.slot_of == self.slot_of,
            r.slot_count == self.slot_count,
            r.cells == self.cells,
            setters_view(r.setters@) == spec_setters_req(self.fields@, self.fields@.len() as int)
                + spec_setters_opt(self.fields@, self.fields@.len() as int) + spec_setters_def(
                self.fields@,
                self.fields@.len() as int,
            ) + spec_setters_lazy(self.fields@, self.fields@.len() as int),
            guards_view(r.guards@) == impl_constraint::spec_guards(
                self.fields@,
                self.fields@.len() as int,
            ),
            r.entry_async == exists|i: int|
                0 <= i < self.fields@.len() && field_entry_async(#[trigger] self.fields@[i]),
            r.build_async == exists|i: int|
                0 <= i < self.fields@.len() && field_build_async(#[trigger] self.fields@[i]),
            r.build_fallible == exists|i: int|
                0 <= i < self.fields@.len() && field_fallible(#[trigger] self.fields@[i]),
            r.impl_default == (spec_num_required(self.fields@, self.fields@.len() as int) == 0),
    {
        let ghost fs = self.fields@;
        let ghost n = fs.len() as int;
        let mut setters = self.req_setters();
        let mut opt = self.opt_setters();
        let mut def = self.def_setters();
        let mut lazy = self.lazy_setters();
        let ghost v_req = setters_view(setters@);
        setters.append(&mut opt);
        proof {
            assert(setters_view(setters@) =~= v_req + spec_setters_opt(fs, n));
        }
        let ghost v2 = setters_view(setters@);
        setters.append(&mut def);
        proof {
            assert(setters_view(setters@) =~= v2 + spec_setters_def(fs, n));
        }
        let ghost v3 = setters_view(setters@);
        setters.append(&mut lazy);
        proof {
            assert(setters_view(setters@) =~= v3 + spec_setters_lazy(fs, n));
            assert(setters_view(setters@) =~= spec_setters_req(fs, n) + spec_setters_opt(fs, n)
                + spec_setters_def(fs, n) + spec_setters_lazy(fs, n));
        }
        let guards = self.guards();
        let impl_default = self.default_trait();
        let mut entry_async = false;
        let mut build_async = false;
        let mut build_fallible = false;
        let mut i: usize = 0;
        #[verifier::loop_isolation(false)]
        while i < self.fields.len()
            invariant
                0 <= i <= n,
                entry_async == exists|j: int|
                    0 <= j < i && field_entry_async(#[trigger] fs[j]),
                build_async == exists|j: int|
                    0 <= j < i && field_build_async(#[trigger] fs[j]),
                build_fallible == exists|j: int|
                    0 <= j < i && field_fallible(#[trigger] fs[j]),
            decreases n - i,
        {
            if is_entry_async(&self.fields[i]) {
                proof {
                    assert(field_entry_async(fs[i as int]));
                }
                entry_async = true;
            }
            if is_build_async(&self.fields[i]) {
                proof {
                    assert(field_build_async(fs[i as int]));
                }
                build_async = true;
            }
            if is_fallible(&self.fields[i]) {
                proof {
                    assert(field_fallible(fs[i as int]));
                }
                build_fallible = true;
            }
            i = i + 1;
        }
        BuilderPlan {
            s_ident: self.s_ident,
            b_ident: self.b_ident,
            st_lifetime_p: self.st_lifetime_p,
            st_const_p: self.st_const_p,
            st_type_p: self.st_type_p,
            fields: self.fields,
            slot_of: self.slot_of,
            slot_count: self.slot_count,
            cells: self.cells,
            setters,
            guards,
            entry_async,
            build_async,
            build_fallible,
            impl_default,
        }
    }
}

/// Whether the field makes the builder-construction entry point
/// asynchronous, decided from its directives.
pub fn is_entry_async(f: &FieldSpec) -> (r: bool)
    ensures
        r == field_entry_async(*f),
{
    match f.category {
        Category::Defaulted => match &f.attrs.value {
            Some(Value::Callable(c)) => c.asyncness,
            _ => false,
        },
        Category::ValueProvided => match &f.attrs.lazy {
            Some(l) => l.asyncness || match &l.callable {
                Some(c) => c.asyncness,
                None => false,
            },
            None => false,
        },
        _ => false,
    }
}

/// Whether the field makes the finalize operation asynchronous, decided
/// from its directives.
pub fn is_build_async(f: &FieldSpec) -> (r: bool)
    ensures
        r == field_build_async(*f),
{
    let check_async = match &f.attrs.check {
        Some(c) => c.asyncness,
        None => false,
    };
    let lazy_async = match &f.attrs.lazy {
        Some(l) => l.asyncness || match &l.callable {
            Some(c) => c.asyncness,
            None => false,
        },
        None => false,
    };
    let each_async = match &f.attrs.each {
        Some(e) => match &e.callable {
            Some(c) => c.asyncness,
            None => false,
        },
        None => false,
    };
    check_async || lazy_async || each_async
}

/// Whether the field can make finalization fail: it carries a
/// whole-value validator.
pub fn is_fallible(f: &FieldSpec) -> (r: bool)
    ensures
        r == field_fallible(*f),
{
    f.attrs.check.is_some()
}

/// The finished description of the builder: everything the mechanical
/// rendering needs, and nothing it decides itself.
pub struct BuilderPlan {
    pub s_ident: Vec<u8>,
    pub b_ident: Vec<u8>,
    pub st_lifetime_p: Vec<GenericParam>,
    pub st_const_p: Vec<GenericParam>,
    pub st_type_p: Vec<GenericParam>,
    pub fields: Vec<FieldSpec>,
    pub slot_of: Vec<Option<usize>>,
    pub slot_count: usize,
    pub cells: Vec<CellPlan>,
    pub setters: Vec<Setter>,
    pub guards: Vec<Guard>,
    pub entry_async: bool,
    pub build_async: bool,
    pub build_fallible: bool,
    pub impl_default: bool,
}

} // verus!
