//! The field classifier.  Every field falls into exactly one of four
//! categories: required (owns a slot), optional (wrapped in the
//! optional-value constructor), defaulted (a `value` fallback), or
//! value-provided (a lazy default resolver).  Contradictory directive
//! combinations are rejected here, before any synthesis runs, and the
//! first rejection aborts generation for the whole record.

use vstd::prelude::*;
use crate::attrs::{Attributes, spec_has_value};
use crate::err::Error;
use crate::wrap::{TypeModel, is_option, spec_option_name, spec_wrapped_in};

verus! {

/// The category of a field.  Exactly the required fields own slots; the
/// other three categories have state-preserving setters.
#[derive(Clone, Copy, PartialEq, Eq, Structural, Debug)]
pub enum Category {
    Required,
    Optional,
    Defaulted,
    ValueProvided,
}

/// One declared field handed in by the driver: its identifier, its
/// declared type, and its parsed directives.
pub struct FieldDecl {
    pub name: Vec<u8>,
    pub ty: TypeModel,
    pub attrs: Attributes,
}

/// One classified field: the declaration together with its category.
pub struct FieldSpec {
    pub name: Vec<u8>,
    pub ty: TypeModel,
    pub attrs: Attributes,
    pub category: Category,
}

/// Whether the declared type is wrapped in the optional-value constructor.
pub open spec fn spec_is_optional(d: FieldDecl) -> bool {
    spec_wrapped_in(d.ty, spec_option_name())
}

/// The category the classifier assigns: optional wins over everything, a
/// `value` fallback makes the field defaulted, a lazy default resolver
/// makes it value-provided, and a field with none of these is required.
pub open spec fn spec_category(d: FieldDecl) -> Category {
    if spec_is_optional(d) {
        Category::Optional
    } else if d.attrs.value is Some {
        Category::Defaulted
    } else if d.attrs.lazy matches Some(l) && l.callable is Some {
        Category::ValueProvided
    } else {
        Category::Required
    }
}

/// The first rejection the classifier raises for this declaration, if
/// any: a fallback on an optional field, `once` off a required field, or
/// `skip` on a required field.
pub open spec fn spec_classify_error(d: FieldDecl) -> Option<Error> {
    if spec_is_optional(d) {
        if d.attrs.value is Some {
            Some(Error::OptionalWithValue)
        } else if d.attrs.props.once {
            Some(Error::OnceOnNonRequired)
        } else {
            None
        }
    } else if !spec_has_value(d.attrs) {
        if d.attrs.props.skip {
            Some(Error::SkipOnRequired)
        } else {
            None
        }
    } else {
        if d.attrs.props.once {
            Some(Error::OnceOnNonRequired)
        } else {
            None
        }
    }
}

/// Whether `f` is the classifier's output for declaration `d`.
pub open spec fn spec_classified(d: FieldDecl, f: FieldSpec) -> bool {
    &&& spec_classify_error(d) is None
    &&& f.name == d.name
    &&& f.ty == d.ty
    &&& f.attrs == d.attrs
    &&& f.category == spec_category(d)
}

/// Classifies one field, or raises the first rejection its directives
/// deserve.
pub fn classify(decl: FieldDecl) -> (r: Result<FieldSpec, Error>)
    ensures
        match r {
            Ok(f) => spec_classified(decl, f),
            Err(e) => spec_classify_error(decl) == Some(e),
        },
{
    let optional = is_option(&decl.ty).is_some();
    let has_value = decl.attrs.has_value();
    if optional {
        if decl.attrs.value.is_some() {
            return Err(Error::OptionalWithValue);
        }
        if decl.attrs.props.once {
            return Err(Error::OnceOnNonRequired);
        }
    } else if !has_value {
        if decl.attrs.props.skip {
            return Err(Error::SkipOnRequired);
        }
    } else {
        if decl.attrs.props.once {
            return Err(Error::OnceOnNonRequired);
        }
    }
    let category = if optional {
        Category::Optional
    } else if decl.attrs.value.is_some() {
        Category::Defaulted
    } else if has_value {
        Category::ValueProvided
    } else {
        Category::Required
    };
    Ok(FieldSpec { name: decl.name, ty: decl.ty, attrs: decl.attrs, category })
}

/// Classifies every field in declaration order.  The first rejection
/// aborts the whole record and names the offending field's position.
pub fn classify_fields(decls: Vec<FieldDecl>) -> (r: Result<Vec<FieldSpec>, (usize, Error)>)
    ensures
        match r {
            Ok(fs) => {
                &&& fs@.len() == decls@.len()
                &&& forall|i: int|
                    0 <= i < decls@.len() ==> spec_classified(decls@[i], #[trigger] fs@[i])
            },
            Err(ie) => {
                &&& 0 <= (ie.0 as int) < decls@.len()
                &&& spec_classify_error(decls@[ie.0 as int]) == Some(ie.1)
                &&& forall|j: int|
                    0 <= j < ie.0 ==> spec_classify_error(#[trigger] decls@[j]) is None
            },
        },
{
    let ghost s = decls@;
    let mut rest = decls;
    let mut out: Vec<FieldSpec> = Vec::new();
    #[verifier::loop_isolation(false)]
    while rest.len() > 0
        invariant
            rest@.len() <= s.len(),
            rest@ == s.subrange(s.len() - rest@.len(), s.len() as int),
            out@.len() == s.len() - rest@.len(),
            forall|i: int| 0 <= i < out@.len() ==> spec_classified(s[i], #[trigger] out@[i]),
        decreases rest@.len(),
    {
        let ghost k = s.len() - rest@.len();
        let d = rest.remove(0);
        proof {
            assert(d == s[k as int]);
            assert(rest@ =~= s.subrange(s.len() - rest@.len(), s.len() as int));
        }
        match classify(d) {
            Ok(f) => {
                out.push(f);
            },
            Err(e) => {
                let idx = out.len();
                proof {
                    assert forall|j: int| 0 <= j < idx implies spec_classify_error(
                        #[trigger] s[j],
                    ) is None by {
                        assert(spec_classified(s[j], out@[j]));
                    }
                }
                return Err((idx, e));
            },
        }
    }
    Ok(out)
}

} // verus!
