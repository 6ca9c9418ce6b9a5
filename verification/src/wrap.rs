//! The declared-type model.  The generator reads only two things from a
//! field's type: the identifier of its outermost constructor and the
//! arguments inside its angle brackets, so a type is modelled as exactly
//! that pair.  Recognition of the optional-value wrapper is a name match on
//! the outer constructor, with no aliasing resolved.

use vstd::prelude::*;
use crate::ident::ident_eq;

verus! {

/// The outermost constructor of a declared type, and its angle-bracketed
/// arguments.  `Vec<u8>` is `name: "Vec", args: ["u8"]`; a plain `u8` has
/// no arguments.
pub struct TypeModel {
    pub name: Vec<u8>,
    pub args: Vec<TypeModel>,
}

/// Whether the type's outer constructor is called `name` and wraps at
/// least one argument.
pub open spec fn spec_wrapped_in(ty: TypeModel, name: Seq<u8>) -> bool {
    ty.name@ == name && ty.args@.len() > 0
}

/// The inner type of a wrapper: its first angle-bracketed argument.
pub open spec fn spec_inner(ty: TypeModel) -> TypeModel
    recommends
        ty.args@.len() > 0,
{
    ty.args@[0]
}

/// The name of the single supported optional-value constructor.
pub open spec fn spec_option_name() -> Seq<u8> {
    seq![79u8, 112u8, 116u8, 105u8, 111u8, 110u8]
}

/// The byte spelling of the optional-value constructor's name.
pub fn option_name() -> (r: Vec<u8>)
    ensures
        r@ == spec_option_name(),
{
    let mut r: Vec<u8> = Vec::new();
    r.push(79);
    r.push(112);
    r.push(116);
    r.push(105);
    r.push(111);
    r.push(110);
    proof {
        assert(r@ =~= spec_option_name());
    }
    r
}

/// Returns the inner type of `wrapper` if its outer constructor matches
/// `wrapper_name` (or any constructor when no name is asked for) and it
/// has angle-bracketed arguments; `None` otherwise.
pub fn wrapped_in<'a>(wrapper: &'a TypeModel, wrapper_name: Option<&Vec<u8>>) -> (r: Option<
    &'a TypeModel,
>)
    ensures
        match r {
            Some(inner) => {
                &&& wrapper.args@.len() > 0
                &&& *inner == spec_inner(*wrapper)
                &&& (wrapper_name matches Some(n) ==> wrapper.name@ == n@)
            },
            None => (match wrapper_name {
                Some(n) => !spec_wrapped_in(*wrapper, n@),
                None => wrapper.args@.len() == 0,
            }),
        },
{
    if let Some(name) = wrapper_name {
        if !ident_eq(&wrapper.name, name) {
            return None;
        }
    }
    if wrapper.args.len() > 0 {
        Some(&wrapper.args[0])
    } else {
        None
    }
}

/// The identifier of the type's outer constructor.
pub fn type_ident<'a>(wrapper: &'a TypeModel) -> (r: &'a Vec<u8>)
    ensures
        r@ == wrapper.name@,
{
    &wrapper.name
}

/// Returns the inner type of an optional-value wrapper, and `None` when
/// the type is not one.
pub fn is_option<'a>(ty: &'a TypeModel) -> (r: Option<&'a TypeModel>)
    ensures
        match r {
            Some(inner) => spec_wrapped_in(*ty, spec_option_name()) && *inner == spec_inner(*ty),
            None => !spec_wrapped_in(*ty, spec_option_name()),
        },
{
    let name = option_name();
    wrapped_in(ty, Some(&name))
}

/// Returns the inner type of an optional-value wrapper, and `None` when
/// the type is not one.
pub fn wrapped_in_option<'a>(ty: &'a TypeModel) -> (r: Option<&'a TypeModel>)
    ensures
        match r {
            Some(inner) => spec_wrapped_in(*ty, spec_option_name()) && *inner == spec_inner(*ty),
            None => !spec_wrapped_in(*ty, spec_option_name()),
        },
{
    is_option(ty)
}

} // verus!
