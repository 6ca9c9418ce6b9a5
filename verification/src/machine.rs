//! The runtime meaning of a synthesized builder.  The type-state encoding
//! makes every state a distinct type; this model keeps the slot vector as
//! run-time booleans instead, checked once at finalize time, so the
//! transition discipline of the generated operations can be stated and
//! proved over one type.  Setters consume a verdict for every validator
//! they would run: the model then holds for every behaviour of the user's
//! validator callables, and a lazy resolver is modelled by the value it
//! resolves to.

use vstd::prelude::*;
use crate::classify::Category;

verus! {

/// A scalar field value: a number, a truth value, or a piece of text.
#[derive(PartialEq, Eq, Debug)]
pub enum Scalar {
    U64(u64),
    Bool(bool),
    Text(Vec<u8>),
}

/// The mathematical value of a scalar.
pub ghost enum ScalarV {
    U64(u64),
    Bool(bool),
    Text(Seq<u8>),
}

impl View for Scalar {
    type V = ScalarV;

    open spec fn view(&self) -> ScalarV {
        match self {
            Scalar::U64(n) => ScalarV::U64(*n),
            Scalar::Bool(b) => ScalarV::Bool(*b),
            Scalar::Text(t) => ScalarV::Text(t@),
        }
    }
}

/// One element of a container field: a single scalar, or a key-value
/// pair as a map-like container holds it.
#[derive(PartialEq, Eq, Debug)]
pub enum Item {
    Single(Scalar),
    Pair(Scalar, Scalar),
}

/// The mathematical value of an element.
pub ghost enum ItemV {
    Single(ScalarV),
    Pair(ScalarV, ScalarV),
}

impl View for Item {
    type V = ItemV;

    open spec fn view(&self) -> ItemV {
        match self {
            Item::Single(s) => ItemV::Single(s@),
            Item::Pair(k, v) => ItemV::Pair(k@, v@),
        }
    }
}

/// The mathematical value of a sequence of elements.
pub open spec fn items_view(xs: Seq<Item>) -> Seq<ItemV> {
    xs.map_values(|it: Item| it@)
}

/// A stored field value: one element, or a whole container of elements.
#[derive(PartialEq, Eq, Debug)]
pub enum Datum {
    Item(Item),
    List(Vec<Item>),
}

/// The mathematical value of a stored field value.
pub ghost enum DatumV {
    Item(ItemV),
    List(Seq<ItemV>),
}

impl View for Datum {
    type V = DatumV;

    open spec fn view(&self) -> DatumV {
        match self {
            Datum::Item(it) => DatumV::Item(it@),
            Datum::List(xs) => DatumV::List(items_view(xs@)),
        }
    }
}

/// The mathematical value of an optionally present datum.
pub open spec fn opt_view(o: Option<Datum>) -> Option<DatumV> {
    match o {
        Some(d) => Some(d@),
        None => None,
    }
}

/// The mathematical value of a sequence of cells.
pub open spec fn cells_view(s: Seq<Option<Datum>>) -> Seq<Option<DatumV>> {
    s.map_values(|c: Option<Datum>| opt_view(c))
}

impl Scalar {
    /// A copy with the same mathematical value.
    pub fn dup(&self) -> (r: Scalar)
        ensures
            r@ == self@,
    {
        match self {
            Scalar::U64(n) => Scalar::U64(*n),
            Scalar::Bool(b) => Scalar::Bool(*b),
            Scalar::Text(t) => {
                let mut c: Vec<u8> = Vec::new();
                let mut i: usize = 0;
                #[verifier::loop_isolation(false)]
                while i < t.len()
                    invariant
                        0 <= i <= t@.len(),
                        c@ =~= t@.subrange(0, i as int),
                    decreases t@.len() - i,
                {
                    c.push(t[i]);
                    i = i + 1;
                }
                proof {
                    assert(c@ =~= t@);
                }
                Scalar::Text(c)
            },
        }
    }
}

impl Item {
    /// A copy with the same mathematical value.
    pub fn dup(&self) -> (r: Item)
        ensures
            r@ == self@,
    {
        match self {
            Item::Single(s) => Item::Single(s.dup()),
            Item::Pair(k, v) => Item::Pair(k.dup(), v.dup()),
        }
    }
}

impl Datum {
    /// A copy with the same mathematical value.
    pub fn dup(&self) -> (r: Datum)
        ensures
            r@ == self@,
    {
        match self {
            Datum::Item(it) => Datum::Item(it.dup()),
            Datum::List(xs) => {
                let mut c: Vec<Item> = Vec::new();
                let mut i: usize = 0;
                #[verifier::loop_isolation(false)]
                while i < xs.len()
                    invariant
                        0 <= i <= xs@.len(),
                        c@.len() == i,
                        forall|j: int| 0 <= j < i ==> (#[trigger] c@[j])@ == xs@[j]@,
                    decreases xs@.len() - i,
                {
                    let d = xs[i].dup();
                    c.push(d);
                    i = i + 1;
                }
                proof {
                    assert(items_view(c@) =~= items_view(xs@));
                }
                Datum::List(c)
            },
        }
    }
}

/// A copy of an optionally present datum, with the same mathematical
/// value.
pub fn opt_dup(o: &Option<Datum>) -> (r: Option<Datum>)
    ensures
        opt_view(r) == opt_view(*o),
{
    match o {
        Some(d) => Some(d.dup()),
        None => None,
    }
}

/// The runtime description of one field, as the classifier and the
/// driver's resolution of fallback expressions hand it to the builder:
/// the category, the entry-time fallback value for a defaulted field, the
/// lazy-resolver flags with the default resolver's value, and which
/// validators and setter shapes the field carries.
#[derive(Debug)]
pub struct FieldRt {
    pub category: Category,
    pub fallback: Option<Datum>,
    pub has_lazy: bool,
    pub lazy_override: bool,
    pub lazy_default: Option<Datum>,
    pub has_check: bool,
    pub each: bool,
    pub each_check: bool,
    pub once: bool,
    pub skip: bool,
}

/// The mathematical value of a field description.
pub ghost struct FieldRtV {
    pub category: Category,
    pub fallback: Option<DatumV>,
    pub has_lazy: bool,
    pub lazy_override: bool,
    pub lazy_default: Option<DatumV>,
    pub has_check: bool,
    pub each: bool,
    pub each_check: bool,
    pub once: bool,
    pub skip: bool,
}

impl View for FieldRt {
    type V = FieldRtV;

    open spec fn view(&self) -> FieldRtV {
        FieldRtV {
            category: self.category,
            fallback: opt_view(self.fallback),
            has_lazy: self.has_lazy,
            lazy_override: self.lazy_override,
            lazy_default: opt_view(self.lazy_default),
            has_check: self.has_check,
            each: self.each,
            each_check: self.each_check,
            once: self.once,
            skip: self.skip,
        }
    }
}

/// The mathematical value of a schema.
pub open spec fn fields_view(s: Seq<FieldRt>) -> Seq<FieldRtV> {
    s.map_values(|f: FieldRt| f@)
}

impl FieldRt {
    /// Builds the runtime description of one classified field.  The
    /// caller — the driver, which alone can run user callables —
    /// supplies the resolved fallback value for a defaulted field and
    /// the resolved default-resolver value for a `lazy` directive that
    /// carries one.
    pub fn of_spec(
        spec: &crate::classify::FieldSpec,
        fallback: Option<Datum>,
        lazy_default: Option<Datum>,
    ) -> (r: FieldRt)
        requires
            fallback is Some <==> spec.category is Defaulted,
            lazy_default is Some <==> (spec.attrs.lazy matches Some(l) && l.callable is Some),
            spec.attrs.each is Some ==> (fallback matches Some(d) ==> d@ is List),
            spec.attrs.each is Some ==> (lazy_default matches Some(d) ==> d@ is List),
            spec.attrs.props.once ==> spec.category is Required,
            spec.attrs.props.skip ==> !(spec.category is Required),
            spec.category is ValueProvided ==> (spec.attrs.lazy matches Some(l)
                && l.callable is Some),
        ensures
            r@ == (FieldRtV {
                category: spec.category,
                fallback: opt_view(fallback),
                has_lazy: spec.attrs.lazy is Some,
                lazy_override: spec.attrs.lazy matches Some(l) && l.do_override,
                lazy_default: opt_view(lazy_default),
                has_check: spec.attrs.check is Some,
                each: spec.attrs.each is Some,
                each_check: spec.attrs.each matches Some(e) && e.callable is Some,
                once: spec.attrs.props.once,
                skip: spec.attrs.props.skip,
            }),
            wf_field_v(r@),
    {
        let (has_lazy, lazy_override) = match &spec.attrs.lazy {
            Some(l) => (true, l.do_override),
            None => (false, false),
        };
        let (each, each_check) = match &spec.attrs.each {
            Some(e) => (true, e.callable.is_some()),
            None => (false, false),
        };
        FieldRt {
            category: spec.category,
            fallback,
            has_lazy,
            lazy_override,
            lazy_default,
            has_check: spec.attrs.check.is_some(),
            each,
            each_check,
            once: spec.attrs.props.once,
            skip: spec.attrs.props.skip,
        }
    }
}

/// A well-formed field description: flags agree with the category the
/// classifier assigned, and container fields carry container-shaped
/// fallbacks.
pub open spec fn wf_field_v(f: FieldRtV) -> bool {
    &&& (f.fallback is Some <==> f.category is Defaulted)
    &&& (f.lazy_default is Some ==> f.has_lazy)
    &&& (f.lazy_override ==> f.has_lazy)
    &&& (f.category is ValueProvided ==> f.has_lazy && f.lazy_default is Some)
    &&& (f.once ==> f.category is Required)
    &&& (f.skip ==> !(f.category is Required))
    &&& (f.each ==> (f.fallback matches Some(d) ==> d is List))
    &&& (f.each ==> (f.lazy_default matches Some(d) ==> d is List))
    &&& (f.each_check ==> f.each)
}

pub open spec fn wf_schema_v(s: Seq<FieldRtV>) -> bool {
    forall|i: int| 0 <= i < s.len() ==> wf_field_v(#[trigger] s[i])
}

/// The whole builder state: the fixed schema, one storage cell per field,
/// one stored lazy resolver per field, and one supplied flag per field —
/// the run-time form of the slot vector.
pub struct Builder {
    pub schema: Vec<FieldRt>,
    pub cells: Vec<Option<Datum>>,
    pub lazies: Vec<Option<Datum>>,
    pub given: Vec<bool>,
}

/// The mathematical value of a builder state.
#[verifier::ext_equal]
pub ghost struct BuilderV {
    pub schema: Seq<FieldRtV>,
    pub cells: Seq<Option<DatumV>>,
    pub lazies: Seq<Option<DatumV>>,
    pub given: Seq<bool>,
}

impl View for Builder {
    type V = BuilderV;

    open spec fn view(&self) -> BuilderV {
        BuilderV {
            schema: fields_view(self.schema@),
            cells: cells_view(self.cells@),
            lazies: cells_view(self.lazies@),
            given: self.given@,
        }
    }
}

/// What a cell holds at entry: a defaulted field starts at its fallback,
/// every other cell starts empty.
pub open spec fn init_cell(f: FieldRtV) -> Option<DatumV> {
    if f.category is Defaulted {
        f.fallback
    } else {
        None
    }
}

/// The initial state: all cells empty or defaulted, no resolver stored,
/// all slots false.
pub open spec fn spec_init(s: Seq<FieldRtV>) -> BuilderV {
    BuilderV {
        schema: s,
        cells: Seq::new(s.len(), |i: int| init_cell(s[i])),
        lazies: Seq::new(s.len(), |i: int| None),
        given: Seq::new(s.len(), |i: int| false),
    }
}

/// The per-field state invariant every operation preserves.
pub open spec fn cell_wf(b: BuilderV, i: int) -> bool {
    &&& (b.schema[i].each ==> (b.cells[i] matches Some(d) ==> d is List))
    &&& (b.schema[i].each ==> (b.lazies[i] matches Some(d) ==> d is List))
    &&& (b.schema[i].category is Required && b.given[i] ==> b.cells[i] is Some)
    &&& (b.schema[i].category is Defaulted ==> b.cells[i] is Some)
    &&& (b.lazies[i] is Some ==> b.schema[i].has_lazy)
}

/// A well-formed builder state.
pub open spec fn wf_state(b: BuilderV) -> bool {
    &&& wf_schema_v(b.schema)
    &&& b.cells.len() == b.schema.len()
    &&& b.lazies.len() == b.schema.len()
    &&& b.given.len() == b.schema.len()
    &&& forall|i: int| 0 <= i < b.schema.len() ==> cell_wf(b, i)
}

/// The base setter's transition: store the value, flip the field's flag,
/// leave everything else unchanged.
pub open spec fn spec_set(b: BuilderV, i: int, v: DatumV) -> BuilderV {
    BuilderV { cells: b.cells.update(i, Some(v)), given: b.given.update(i, true), ..b }
}

/// The container a repeated-element setter extends: the stored one, or
/// the empty container when the cell is still empty.
pub open spec fn spec_each_items(b: BuilderV, i: int) -> Seq<ItemV> {
    match b.cells[i] {
        Some(DatumV::List(xs)) => xs,
        _ => Seq::empty(),
    }
}

/// The repeated-element setter's transition: append one element in call
/// order, flip the field's flag.
pub open spec fn spec_set_each(b: BuilderV, i: int, e: ItemV) -> BuilderV {
    BuilderV {
        cells: b.cells.update(i, Some(DatumV::List(spec_each_items(b, i).push(e)))),
        given: b.given.update(i, true),
        ..b
    }
}

/// The lazy setter's transition: store the resolver, leave every cell and
/// every flag unchanged — the field counts as proven only at finalize
/// time.
pub open spec fn spec_set_lazy(b: BuilderV, i: int, v: DatumV) -> BuilderV {
    BuilderV { lazies: b.lazies.update(i, Some(v)), ..b }
}

/// The lazy value available for a field at finalize time: a stored
/// resolver wins over the directive's default resolver.
pub open spec fn lazy_val(b: BuilderV, i: int) -> Option<DatumV> {
    if b.lazies[i] is Some {
        b.lazies[i]
    } else {
        b.schema[i].lazy_default
    }
}

/// Whether a required field's guard is satisfied: its slot is true, or a
/// lazy resolver stands ready to produce it at finalize time.
pub open spec fn spec_satisfied(b: BuilderV, i: int) -> bool {
    b.given[i] || lazy_val(b, i) is Some
}

/// Whether finalization is available: the conjunction of all guards.
pub open spec fn spec_ready(b: BuilderV) -> bool {
    forall|i: int|
        0 <= i < b.schema.len() && (#[trigger] b.schema[i]).category is Required
            ==> spec_satisfied(b, i)
}

/// The value a field contributes to the finished record: an overriding
/// lazy resolver always wins; otherwise the stored cell; otherwise the
/// lazy resolver as a fallback; otherwise absence.
pub open spec fn spec_out_val(b: BuilderV, i: int) -> Option<DatumV> {
    if b.schema[i].lazy_override && lazy_val(b, i) is Some {
        lazy_val(b, i)
    } else if b.cells[i] is Some {
        b.cells[i]
    } else {
        lazy_val(b, i)
    }
}

/// A rejection one of the builder's operations returns.
#[derive(Clone, Copy, PartialEq, Eq, Structural, Debug)]
pub enum BuildError {
    /// Finalize was reached while this required field's guard is not
    /// satisfied.  In the generated code this state is a compile error,
    /// never a run-time path.
    Missing(usize),
    /// The field's whole-value validator rejected the candidate.
    CheckRejected(usize),
    /// The field's per-element validator rejected the element.
    ElementRejected(usize),
}

/// The finished record: one value per field, in declaration order, with
/// absence only where an optional field was never supplied.
#[derive(PartialEq, Eq, Debug)]
pub struct Record {
    pub values: Vec<Option<Datum>>,
}

impl View for Record {
    type V = Seq<Option<DatumV>>;

    open spec fn view(&self) -> Seq<Option<DatumV>> {
        cells_view(self.values@)
    }
}

impl Builder {
    /// The state invariant, at the exec boundary.
    pub open spec fn wf(&self) -> bool {
        wf_state(self@)
    }

    /// The builder-construction entry point: every cell empty or
    /// defaulted, no resolver stored, every slot false.
    pub fn new(schema: Vec<FieldRt>) -> (r: Builder)
        requires
            wf_schema_v(fields_view(schema@)),
        ensures
            r.wf(),
            r@ =~= spec_init(fields_view(schema@)),
    {
        let mut cells: Vec<Option<Datum>> = Vec::new();
        let mut lazies: Vec<Option<Datum>> = Vec::new();
        let mut given: Vec<bool> = Vec::new();
        let ghost sv = fields_view(schema@);
        let mut i: usize = 0;
        #[verifier::loop_isolation(false)]
        while i < schema.len()
            invariant
                0 <= i <= schema@.len(),
                cells@.len() == i,
                lazies@.len() == i,
                given@.len() == i,
                forall|j: int|
                    0 <= j < i ==> opt_view(#[trigger] cells@[j]) == init_cell(sv[j]),
                forall|j: int| 0 <= j < i ==> #[trigger] lazies@[j] is None,
                forall|j: int| 0 <= j < i ==> #[trigger] given@[j] == false,
            decreases schema@.len() - i,
        {
            let init = match schema[i].category {
                Category::Defaulted => opt_dup(&schema[i].fallback),
                _ => None,
            };
            proof {
                assert(sv[i as int] == schema@[i as int]@);
                assert(opt_view(init) == init_cell(sv[i as int]));
            }
            cells.push(init);
            lazies.push(None);
            given.push(false);
            i = i + 1;
        }
        let r = Builder { schema, cells, lazies, given };
        proof {
            assert(r@.cells =~= spec_init(sv).cells);
            assert(r@.lazies =~= spec_init(sv).lazies);
            assert(r@.given =~= spec_init(sv).given);
            assert(r@ =~= spec_init(sv));
            assert forall|j: int| 0 <= j < r@.schema.len() implies cell_wf(r@, j) by {
                assert(wf_field_v(sv[j]));
            }
        }
        r
    }

    /// The base setter.  `ok` is the verdict of the field's whole-value
    /// validator on the candidate; a field without a validator is always
    /// accepted.  On acceptance the value is stored and the field's slot
    /// flips true; on rejection nothing changes and the error is
    /// returned, so the stored cell keeps its prior value.
    pub fn set(&mut self, i: usize, v: Datum, ok: bool) -> (r: Result<(), BuildError>)
        requires
            old(self).wf(),
            i < old(self)@.schema.len(),
            !old(self)@.schema[i as int].skip,
            old(self)@.schema[i as int].once ==> !old(self)@.given[i as int],
            old(self)@.schema[i as int].each ==> v@ is List,
            !old(self)@.schema[i as int].has_check ==> ok,
        ensures
            final(self).wf(),
            ok ==> r == Ok::<(), BuildError>(()) && final(self)@ =~= spec_set(
                old(self)@,
                i as int,
                v@,
            ),
            !ok ==> r == Err::<(), BuildError>(BuildError::CheckRejected(i)) && final(self)@
                == old(self)@,
    {
        if !ok {
            return Err(BuildError::CheckRejected(i));
        }
        let ghost bv = old(self)@;
        self.cells.set(i, Some(v));
        self.given.set(i, true);
        proof {
            assert(self@.cells =~= spec_set(bv, i as int, v@).cells);
            assert(self@.given =~= spec_set(bv, i as int, v@).given);
            assert(self@ =~= spec_set(bv, i as int, v@));
            assert forall|j: int| 0 <= j < self@.schema.len() implies cell_wf(self@, j) by {
                assert(cell_wf(bv, j));
            }
        }
        Ok(())
    }

    /// The repeated-element setter.  `ok` is the verdict of the per-element
    /// validator on the element.  On acceptance the element is appended in
    /// call order, creating the container if the cell was empty, and the
    /// field's slot flips true; on rejection nothing changes, so the
    /// invalid element is never appended.
    pub fn set_each(&mut self, i: usize, e: Item, ok: bool) -> (r: Result<(), BuildError>)
        requires
            old(self).wf(),
            i < old(self)@.schema.len(),
            old(self)@.schema[i as int].each,
            old(self)@.schema[i as int].once ==> !old(self)@.given[i as int],
            !old(self)@.schema[i as int].each_check ==> ok,
        ensures
            final(self).wf(),
            ok ==> r == Ok::<(), BuildError>(()) && final(self)@ =~= spec_set_each(
                old(self)@,
                i as int,
                e@,
            ),
            !ok ==> r == Err::<(), BuildError>(BuildError::ElementRejected(i)) && final(self)@
                == old(self)@,
    {
        if !ok {
            return Err(BuildError::ElementRejected(i));
        }
        let ghost bv = old(self)@;
        let cell = self.cells.remove(i);
        let mut xs: Vec<Item> = match cell {
            Some(Datum::List(xs)) => xs,
            Some(Datum::Item(_)) => Vec::new(),
            None => Vec::new(),
        };
        proof {
            assert(bv.cells[i as int] == opt_view(old(self).cells@[i as int]));
            assert(cell_wf(bv, i as int));
            assert(items_view(xs@) =~= spec_each_items(bv, i as int));
        }
        xs.push(e);
        proof {
            assert(items_view(xs@) =~= spec_each_items(bv, i as int).push(e@));
        }
        self.cells.insert(i, Some(Datum::List(xs)));
        self.given.set(i, true);
        proof {
            assert(self.cells@ =~= old(self).cells@.update(
                i as int,
                self.cells@[i as int],
            ));
            assert(self@.cells =~= spec_set_each(bv, i as int, e@).cells);
            assert(self@.given =~= spec_set_each(bv, i as int, e@).given);
            assert(self@ =~= spec_set_each(bv, i as int, e@));
            assert forall|j: int| 0 <= j < self@.schema.len() implies cell_wf(self@, j) by {
                assert(cell_wf(bv, j));
            }
        }
        Ok(())
    }

    /// The lazy setter: stores the resolver, modelled by the value it
    /// will produce.  No slot changes; the field is only considered
    /// proven at finalize time.
    pub fn set_lazy(&mut self, i: usize, v: Datum)
        requires
            old(self).wf(),
            i < old(self)@.schema.len(),
            old(self)@.schema[i as int].has_lazy,
            old(self)@.schema[i as int].each ==> v@ is List,
        ensures
            final(self).wf(),
            final(self)@ =~= spec_set_lazy(old(self)@, i as int, v@),
    {
        let ghost bv = old(self)@;
        self.lazies.set(i, Some(v));
        proof {
            assert(self@.lazies =~= spec_set_lazy(bv, i as int, v@).lazies);
            assert(self@ =~= spec_set_lazy(bv, i as int, v@));
            assert forall|j: int| 0 <= j < self@.schema.len() implies cell_wf(self@, j) by {
                assert(cell_wf(bv, j));
            }
        }
    }

    /// The finalize operation.  It consumes the builder; it succeeds
    /// exactly when every required field's guard is satisfied, and then
    /// every field contributes its value under the lazy-precedence rules;
    /// otherwise it names the first required field, in declaration order,
    /// whose guard fails.
    pub fn build(self) -> (r: Result<Record, BuildError>)
        requires
            self.wf(),
        ensures
            spec_ready(self@) ==> (r matches Ok(rec) && rec@.len() == self@.schema.len()
                && forall|i: int|
                    0 <= i < self@.schema.len() ==> #[trigger] rec@[i] == spec_out_val(
                        self@,
                        i,
                    )),
            !spec_ready(self@) ==> (r matches Err(e) && e matches BuildError::Missing(k) && {
                &&& 0 <= (k as int) < self@.schema.len()
                &&& self@.schema[k as int].category is Required
                &&& !spec_satisfied(self@, k as int)
                &&& forall|j: int|
                    0 <= j < k && (#[trigger] self@.schema[j]).category is Required
                        ==> spec_satisfied(self@, j)
            }),
    {
        let ghost bv = self@;
        let n = self.schema.len();
        let mut i: usize = 0;
        #[verifier::loop_isolation(false)]
        while i < n
            invariant
                0 <= i <= n,
                forall|j: int|
                    0 <= j < i && (#[trigger] bv.schema[j]).category is Required
                        ==> spec_satisfied(bv, j),
            decreases n - i,
        {
            proof {
                assert(bv.schema[i as int] == self.schema@[i as int]@);
                assert(bv.lazies[i as int] == opt_view(self.lazies@[i as int]));
            }
            let is_req = match self.schema[i].category {
                Category::Required => true,
                _ => false,
            };
            if is_req {
                let has_lazy_value = self.lazies[i].is_some()
                    || self.schema[i].lazy_default.is_some();
                if !self.given[i] && !has_lazy_value {
                    proof {
                        assert(!spec_satisfied(bv, i as int));
                        assert(!spec_ready(bv));
                    }
                    return Err(BuildError::Missing(i));
                }
                proof {
                    assert(spec_satisfied(bv, i as int));
                }
            }
            i = i + 1;
        }
        proof {
            assert(spec_ready(bv));
        }
        let mut values: Vec<Option<Datum>> = Vec::new();
        let mut k: usize = 0;
        #[verifier::loop_isolation(false)]
        while k < n
            invariant
                0 <= k <= n,
                values@.len() == k,
                forall|j: int|
                    0 <= j < k ==> opt_view(#[trigger] values@[j]) == spec_out_val(bv, j),
            decreases n - k,
        {
            proof {
                assert(bv.schema[k as int] == self.schema@[k as int]@);
                assert(bv.lazies[k as int] == opt_view(self.lazies@[k as int]));
                assert(bv.cells[k as int] == opt_view(self.cells@[k as int]));
            }
            let lazy_avail: Option<Datum> = if self.lazies[k].is_some() {
                opt_dup(&self.lazies[k])
            } else {
                opt_dup(&self.schema[k].lazy_default)
            };
            proof {
                assert(opt_view(lazy_avail) == lazy_val(bv, k as int));
            }
            let out: Option<Datum> = if self.schema[k].lazy_override && lazy_avail.is_some() {
                lazy_avail
            } else if self.cells[k].is_some() {
                opt_dup(&self.cells[k])
            } else {
                lazy_avail
            };
            proof {
                assert(opt_view(out) == spec_out_val(bv, k as int));
            }
            values.push(out);
            k = k + 1;
        }
        let rec = Record { values };
        proof {
            assert(rec@.len() == bv.schema.len());
        }
        Ok(rec)
    }
}

} // verus!
