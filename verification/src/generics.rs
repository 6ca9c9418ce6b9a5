//! The generic-parameter model.  The builder type repeats the record's
//! generic parameters in front of its own slot parameters, so the
//! generator needs each parameter's name and kind, and needs them split
//! into lifetime, const and type groups with declaration order kept.

use vstd::prelude::*;

verus! {

/// The name of one generic parameter, tagged with its kind: the `T` of
/// `T: Display`, the `'a` of `'a: 'b`, or the `N` of `const N: usize`.
pub enum GenericParamName {
    Type(Vec<u8>),
    Lifetime(Vec<u8>),
    Const(Vec<u8>),
}

/// One full generic parameter: its tagged name and the complete parameter
/// text with bounds, kept opaque for re-emission.
pub struct GenericParam {
    pub name: GenericParamName,
    pub decl: Vec<u8>,
}

/// Whether two tagged names carry the same kind and the same spelling.
pub open spec fn same_name(a: GenericParamName, b: GenericParamName) -> bool {
    match (a, b) {
        (GenericParamName::Type(x), GenericParamName::Type(y)) => x@ == y@,
        (GenericParamName::Lifetime(x), GenericParamName::Lifetime(y)) => x@ == y@,
        (GenericParamName::Const(x), GenericParamName::Const(y)) => x@ == y@,
        _ => false,
    }
}

/// Extracts the tagged name of each generic parameter, in order.
pub fn param_to_name(generics: &Vec<GenericParam>) -> (r: Vec<GenericParamName>)
    ensures
        r@.len() == generics@.len(),
        forall|i: int|
            0 <= i < generics@.len() ==> same_name(#[trigger] r@[i], generics@[i].name),
{
    let mut r: Vec<GenericParamName> = Vec::new();
    let mut i: usize = 0;
    while i < generics.len()
        invariant
            0 <= i <= generics@.len(),
            r@.len() == i,
            forall|j: int| 0 <= j < i ==> same_name(#[trigger] r@[j], generics@[j].name),
        decreases generics@.len() - i,
    {
        let name = match &generics[i].name {
            GenericParamName::Type(n) => GenericParamName::Type(n.clone()),
            GenericParamName::Lifetime(n) => GenericParamName::Lifetime(n.clone()),
            GenericParamName::Const(n) => GenericParamName::Const(n.clone()),
        };
        proof {
            assert(same_name(name, generics@[i as int].name));
        }
        r.push(name);
        i = i + 1;
    }
    r
}

/// Splits tagged parameter names into lifetime, const and type groups,
/// each keeping declaration order.
pub fn split_param_names(param_names: Vec<GenericParamName>) -> (r: (
    Vec<GenericParamName>,
    Vec<GenericParamName>,
    Vec<GenericParamName>,
))
    ensures
        r.0@ == param_names@.filter(|p: GenericParamName| p is Lifetime),
        r.1@ == param_names@.filter(|p: GenericParamName| p is Const),
        r.2@ == param_names@.filter(|p: GenericParamName| p is Type),
{
    let mut lifetimes: Vec<GenericParamName> = Vec::new();
    let mut consts: Vec<GenericParamName> = Vec::new();
    let mut types: Vec<GenericParamName> = Vec::new();
    let ghost s = param_names@;
    let mut rest = param_names;
    proof {
        assert(s.subrange(0, 0) =~= Seq::<GenericParamName>::empty());
        reveal(Seq::filter);
    }
    while rest.len() > 0
        invariant
            rest@.len() <= s.len(),
            rest@ == s.subrange(s.len() - rest@.len(), s.len() as int),
            lifetimes@ == s.subrange(0, s.len() - rest@.len()).filter(
                |p: GenericParamName| p is Lifetime,
            ),
            consts@ == s.subrange(0, s.len() - rest@.len()).filter(
                |p: GenericParamName| p is Const,
            ),
            types@ == s.subrange(0, s.len() - rest@.len()).filter(
                |p: GenericParamName| p is Type,
            ),
        decreases rest@.len(),
    {
        let ghost k = s.len() - rest@.len();
        let p = rest.remove(0);
        proof {
            reveal(Seq::filter);
            assert(p == s[k as int]);
            assert(s.subrange(0, k + 1).drop_last() =~= s.subrange(0, k as int));
            assert(s.subrange(0, k + 1).last() == s[k as int]);
            assert(rest@ =~= s.subrange(s.len() - rest@.len(), s.len() as int));
        }
        match p {
            GenericParamName::Lifetime(_) => lifetimes.push(p),
            GenericParamName::Const(_) => consts.push(p),
            GenericParamName::Type(_) => types.push(p),
        }
    }
    proof {
        assert(s.subrange(0, s.len() as int) =~= s);
    }
    (lifetimes, consts, types)
}

/// Splits full generic parameters into lifetime, const and type groups,
/// each keeping declaration order.
pub fn split_params(params: Vec<GenericParam>) -> (r: (
    Vec<GenericParam>,
    Vec<GenericParam>,
    Vec<GenericParam>,
))
    ensures
        r.0@ == params@.filter(|p: GenericParam| p.name is Lifetime),
        r.1@ == params@.filter(|p: GenericParam| p.name is Const),
        r.2@ == params@.filter(|p: GenericParam| p.name is Type),
{
    let mut lifetimes: Vec<GenericParam> = Vec::new();
    let mut consts: Vec<GenericParam> = Vec::new();
    let mut types: Vec<GenericParam> = Vec::new();
    let ghost s = params@;
    let mut rest = params;
    proof {
        assert(s.subrange(0, 0) =~= Seq::<GenericParam>::empty());
        reveal(Seq::filter);
    }
    while rest.len() > 0
        invariant
            rest@.len() <= s.len(),
            rest@ == s.subrange(s.len() - rest@.len(), s.len() as int),
            lifetimes@ == s.subrange(0, s.len() - rest@.len()).filter(
                |p: GenericParam| p.name is Lifetime,
            ),
            consts@ == s.subrange(0, s.len() - rest@.len()).filter(
                |p: GenericParam| p.name is Const,
            ),
            types@ == s.subrange(0, s.len() - rest@.len()).filter(
                |p: GenericParam| p.name is Type,
            ),
        decreases rest@.len(),
    {
        let ghost k = s.len() - rest@.len();
        let p = rest.remove(0);
        proof {
            reveal(Seq::filter);
            assert(p == s[k as int]);
            assert(s.subrange(0, k + 1).drop_last() =~= s.subrange(0, k as int));
            assert(s.subrange(0, k + 1).last() == s[k as int]);
            assert(rest@ =~= s.subrange(s.len() - rest@.len(), s.len() as int));
        }
        match &p.name {
            GenericParamName::Lifetime(_) => lifetimes.push(p),
            GenericParamName::Const(_) => consts.push(p),
            GenericParamName::Type(_) => types.push(p),
        }
    }
    proof {
        assert(s.subrange(0, s.len() as int) =~= s);
    }
    (lifetimes, consts, types)
}

} // verus!
