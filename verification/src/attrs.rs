//! The attribute model: the structured form of the field directives
//! `skip`, `hide`, `once`, `into`, `each`, `value`, `name`, `check` and
//! `lazy`.  Identifiers and expression texts are carried as byte vectors.

use vstd::prelude::*;

verus! {

/// The bare flag directives collected on one field: `skip` suppresses the
/// base setter, `hide` makes the generated setters non-exported, `once`
/// exposes the setter only while the field's slot is false, and `into`
/// widens the setter parameter to anything convertible to the field type.
#[derive(Debug)]
pub struct Props {
    pub skip: bool,
    pub hide: bool,
    pub once: bool,
    pub into: bool,
}

impl Props {
    /// The empty flag set: no flag directive given.
    pub fn none() -> (r: Props)
        ensures
            !r.skip && !r.hide && !r.once && !r.into,
    {
        Props { skip: false, hide: false, once: false, into: false }
    }
}

/// A callable expression: either a path to a function or a closure,
/// kept as opaque text.
#[derive(Debug)]
pub enum Callable {
    Function(Vec<u8>),
    Closure(Vec<u8>),
}

/// A callable together with its asynchrony: the `async` marker a directive
/// may put in front of a path, or the `async` of a closure.
#[derive(Debug)]
pub struct CallableItem {
    pub asyncness: bool,
    pub callable: Callable,
}

/// The `each = <name>[, <callable>]` directive: a repeated-element setter
/// under `ident`, optionally validating every element with `callable`.
#[derive(Debug)]
pub struct Each {
    pub ident: Vec<u8>,
    pub callable: Option<CallableItem>,
}

/// The `value = ...` directive: a fallback that is either the type's
/// default, a literal kept as text, or a zero-argument callable.
#[derive(Debug)]
pub enum Value {
    Default,
    Lit(Vec<u8>),
    Callable(CallableItem),
}

/// The `lazy[= override][, async][, <callable>]` directive: a resolver
/// deferred to finalize time.  `do_override` makes the deferred result win
/// over any eagerly-set value; `callable` is an optional default resolver.
#[derive(Debug)]
pub struct Lazy {
    pub do_override: bool,
    pub asyncness: bool,
    pub callable: Option<CallableItem>,
}

/// The mathematical value of a callable expression.
pub ghost enum CallableV {
    Function(Seq<u8>),
    Closure(Seq<u8>),
}

impl View for Callable {
    type V = CallableV;

    open spec fn view(&self) -> CallableV {
        match self {
            Callable::Function(t) => CallableV::Function(t@),
            Callable::Closure(t) => CallableV::Closure(t@),
        }
    }
}

/// The mathematical value of a callable with its asynchrony.
pub ghost struct CallableItemV {
    pub asyncness: bool,
    pub callable: CallableV,
}

impl View for CallableItem {
    type V = CallableItemV;

    open spec fn view(&self) -> CallableItemV {
        CallableItemV { asyncness: self.asyncness, callable: self.callable@ }
    }
}

/// The mathematical value of an optionally present callable.
pub open spec fn opt_callable_view(o: Option<CallableItem>) -> Option<CallableItemV> {
    match o {
        Some(c) => Some(c@),
        None => None,
    }
}

/// The mathematical value of an `each` directive.
pub ghost struct EachV {
    pub ident: Seq<u8>,
    pub callable: Option<CallableItemV>,
}

impl View for Each {
    type V = EachV;

    open spec fn view(&self) -> EachV {
        EachV { ident: self.ident@, callable: opt_callable_view(self.callable) }
    }
}

/// The mathematical value of a `value` directive.
pub ghost enum ValueV {
    Default,
    Lit(Seq<u8>),
    Callable(CallableItemV),
}

impl View for Value {
    type V = ValueV;

    open spec fn view(&self) -> ValueV {
        match self {
            Value::Default => ValueV::Default,
            Value::Lit(t) => ValueV::Lit(t@),
            Value::Callable(c) => ValueV::Callable(c@),
        }
    }
}

/// The mathematical value of a `lazy` directive.
pub ghost struct LazyV {
    pub do_override: bool,
    pub asyncness: bool,
    pub callable: Option<CallableItemV>,
}

impl View for Lazy {
    type V = LazyV;

    open spec fn view(&self) -> LazyV {
        LazyV {
            do_override: self.do_override,
            asyncness: self.asyncness,
            callable: opt_callable_view(self.callable),
        }
    }
}

/// One parsed directive.
#[derive(Debug)]
pub enum FieldAttr {
    Skip,
    Hide,
    Once,
    Into,
    Each(Each),
    Value(Value),
    Name(Vec<u8>),
    Check(CallableItem),
    Lazy(Lazy),
}

/// The mathematical value of one parsed directive.
pub ghost enum FieldAttrV {
    Skip,
    Hide,
    Once,
    Into,
    Each(EachV),
    Value(ValueV),
    Name(Seq<u8>),
    Check(CallableItemV),
    Lazy(LazyV),
}

impl View for FieldAttr {
    type V = FieldAttrV;

    open spec fn view(&self) -> FieldAttrV {
        match self {
            FieldAttr::Skip => FieldAttrV::Skip,
            FieldAttr::Hide => FieldAttrV::Hide,
            FieldAttr::Once => FieldAttrV::Once,
            FieldAttr::Into => FieldAttrV::Into,
            FieldAttr::Each(e) => FieldAttrV::Each(e@),
            FieldAttr::Value(v) => FieldAttrV::Value(v@),
            FieldAttr::Name(n) => FieldAttrV::Name(n@),
            FieldAttr::Check(c) => FieldAttrV::Check(c@),
            FieldAttr::Lazy(l) => FieldAttrV::Lazy(l@),
        }
    }
}

/// All directives of one field, folded together.  A directive given twice
/// keeps its last occurrence, as the contract of [`Attributes::apply`]
/// states.
#[derive(Debug)]
pub struct Attributes {
    pub props: Props,
    pub value: Option<Value>,
    pub each: Option<Each>,
    pub name: Option<Vec<u8>>,
    pub lazy: Option<Lazy>,
    pub check: Option<CallableItem>,
}

/// The mathematical value of a field's folded directives.
#[verifier::ext_equal]
pub ghost struct AttributesV {
    pub props: Props,
    pub value: Option<ValueV>,
    pub each: Option<EachV>,
    pub name: Option<Seq<u8>>,
    pub lazy: Option<LazyV>,
    pub check: Option<CallableItemV>,
}

impl View for Attributes {
    type V = AttributesV;

    open spec fn view(&self) -> AttributesV {
        AttributesV {
            props: self.props,
            value: match self.value {
                Some(v) => Some(v@),
                None => None,
            },
            each: match self.each {
                Some(e) => Some(e@),
                None => None,
            },
            name: match self.name {
                Some(n) => Some(n@),
                None => None,
            },
            lazy: match self.lazy {
                Some(l) => Some(l@),
                None => None,
            },
            check: opt_callable_view(self.check),
        }
    }
}

/// Whether a field with these directives has a value of its own: either a
/// fallback from `value`, or a lazy default resolver.
pub open spec fn spec_has_value(a: Attributes) -> bool {
    a.value is Some || (a.lazy matches Some(l) && l.callable is Some)
}

impl Attributes {
    /// The directive set of a field that carries no directive at all.
    pub fn empty() -> (r: Attributes)
        ensures
            !r.props.skip && !r.props.hide && !r.props.once && !r.props.into,
            r.value is None,
            r.each is None,
            r.name is None,
            r.lazy is None,
            r.check is None,
    {
        Attributes {
            props: Props::none(),
            value: None,
            each: None,
            name: None,
            lazy: None,
            check: None,
        }
    }

    /// True when the field is given a value by directive: a `value`
    /// fallback or a lazy default resolver.
    pub fn has_value(&self) -> (r: bool)
        ensures
            r == spec_has_value(*self),
    {
        match (&self.value, &self.lazy) {
            (Some(_), _) => true,
            (None, Some(l)) => l.callable.is_some(),
            (None, None) => false,
        }
    }

    /// Folds one parsed directive into the set, replacing any earlier
    /// occurrence of the same directive.
    pub fn apply(&mut self, attr: FieldAttr)
        ensures
            final(self).props.skip == (old(self).props.skip || attr is Skip),
            final(self).props.hide == (old(self).props.hide || attr is Hide),
            final(self).props.once == (old(self).props.once || attr is Once),
            final(self).props.into == (old(self).props.into || attr is Into),
            final(self).value == (match attr {
                FieldAttr::Value(v) => Some(v),
                _ => old(self).value,
            }),
            final(self).each == (match attr {
                FieldAttr::Each(e) => Some(e),
                _ => old(self).each,
            }),
            final(self).name == (match attr {
                FieldAttr::Name(n) => Some(n),
                _ => old(self).name,
            }),
            final(self).lazy == (match attr {
                FieldAttr::Lazy(l) => Some(l),
                _ => old(self).lazy,
            }),
            final(self).check == (match attr {
                FieldAttr::Check(c) => Some(c),
                _ => old(self).check,
            }),
    {
        match attr {
            FieldAttr::Skip => { self.props.skip = true; },
            FieldAttr::Hide => { self.props.hide = true; },
            FieldAttr::Once => { self.props.once = true; },
            FieldAttr::Into => { self.props.into = true; },
            FieldAttr::Each(e) => { self.each = Some(e); },
            FieldAttr::Value(v) => { self.value = Some(v); },
            FieldAttr::Name(n) => { self.name = Some(n); },
            FieldAttr::Check(c) => { self.check = Some(c); },
            FieldAttr::Lazy(l) => { self.lazy = Some(l); },
        }
    }
}

} // verus!
