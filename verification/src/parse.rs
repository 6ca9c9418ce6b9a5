//! The directive parser: from the text inside one directive annotation to
//! the structured attribute model.  The grammar is small — a keyword,
//! optionally `=` and a right-hand side; callables are kept as opaque
//! expression text and only checked to parse as a function path or a
//! closure.  The parser is a byte-level function whose contract is the
//! grammar itself, written as a specification-level parser.

use vstd::prelude::*;
use crate::attrs::{
    Attributes,
    AttributesV,
    Callable,
    CallableItem,
    CallableItemV,
    CallableV,
    Each,
    EachV,
    FieldAttr,
    FieldAttrV,
    Lazy,
    LazyV,
    Value,
    ValueV,
};
use crate::err::Error;
use crate::ident::ident_eq;

verus! {

/// Whether the byte is horizontal whitespace.
pub open spec fn is_space(b: u8) -> bool {
    b == 32 || b == 9
}

/// Whether the byte can stand in an identifier.
pub open spec fn is_ident_byte(b: u8) -> bool {
    (48 <= b <= 57) || (65 <= b <= 90) || (97 <= b <= 122) || b == 95
}

/// Whether the byte opens a literal: a digit, a quote, or a minus sign.
pub open spec fn is_lit_start(b: u8) -> bool {
    (48 <= b <= 57) || b == 34 || b == 39 || b == 45
}

/// The text with its leading whitespace dropped.
pub open spec fn spec_trim_start(s: Seq<u8>) -> Seq<u8>
    decreases s.len(),
{
    if s.len() > 0 && is_space(s[0]) {
        spec_trim_start(s.drop_first())
    } else {
        s
    }
}

/// The text with its trailing whitespace dropped.
pub open spec fn spec_trim_end(s: Seq<u8>) -> Seq<u8>
    decreases s.len(),
{
    if s.len() > 0 && is_space(s[s.len() - 1]) {
        spec_trim_end(s.drop_last())
    } else {
        s
    }
}

/// The text with whitespace dropped on both ends.
pub open spec fn spec_trim(s: Seq<u8>) -> Seq<u8> {
    spec_trim_end(spec_trim_start(s))
}

/// The length of the identifier the text starts with.
pub open spec fn spec_ident_len(s: Seq<u8>) -> int
    decreases s.len(),
{
    if s.len() > 0 && is_ident_byte(s[0]) {
        1 + spec_ident_len(s.drop_first())
    } else {
        0
    }
}

/// Dropping leading whitespace is the same as cutting any all-space
/// prefix.
proof fn lemma_trim_start_at(s: Seq<u8>, i: int)
    requires
        0 <= i <= s.len(),
        forall|j: int| 0 <= j < i ==> is_space(#[trigger] s[j]),
    ensures
        spec_trim_start(s) == spec_trim_start(s.subrange(i, s.len() as int)),
    decreases i,
{
    if i == 0 {
        assert(s.subrange(0, s.len() as int) =~= s);
    } else {
        assert(is_space(s[0]));
        lemma_trim_start_at(s.drop_first(), i - 1);
        assert(s.drop_first().subrange(i - 1, s.drop_first().len() as int) =~= s.subrange(
            i,
            s.len() as int,
        ));
    }
}

/// Dropping trailing whitespace is the same as cutting any all-space
/// suffix.
proof fn lemma_trim_end_at(s: Seq<u8>, m: int)
    requires
        0 <= m <= s.len(),
        forall|j: int| m <= j < s.len() ==> is_space(#[trigger] s[j]),
        m == 0 || !is_space(s[m - 1]),
    ensures
        spec_trim_end(s) == s.subrange(0, m),
    decreases s.len(),
{
    if s.len() > m {
        assert(is_space(s[s.len() - 1]));
        lemma_trim_end_at(s.drop_last(), m);
        assert(s.drop_last().subrange(0, m) =~= s.subrange(0, m));
    } else {
        if m == 0 {
            assert(s.subrange(0, 0) =~= spec_trim_end(s));
        } else {
            assert(!is_space(s[s.len() - 1]));
            assert(s.subrange(0, m) =~= s);
        }
    }
}

/// The identifier prefix ends at the first non-identifier byte.
proof fn lemma_ident_len_at(s: Seq<u8>, i: int)
    requires
        0 <= i <= s.len(),
        forall|j: int| 0 <= j < i ==> is_ident_byte(#[trigger] s[j]),
        i == s.len() || !is_ident_byte(s[i]),
    ensures
        spec_ident_len(s) == i,
    decreases i,
{
    if i == 0 {
    } else {
        assert(is_ident_byte(s[0]));
        lemma_ident_len_at(s.drop_first(), i - 1);
    }
}

/// A copy of the byte range `a..b` of the text.
fn subvec(v: &Vec<u8>, a: usize, b: usize) -> (r: Vec<u8>)
    requires
        a <= b <= v@.len(),
    ensures
        r@ == v@.subrange(a as int, b as int),
{
    let mut r: Vec<u8> = Vec::new();
    let mut i: usize = a;
    #[verifier::loop_isolation(false)]
    while i < b
        invariant
            a <= i <= b,
            r@ =~= v@.subrange(a as int, i as int),
        decreases b - i,
    {
        r.push(v[i]);
        i = i + 1;
    }
    proof {
        assert(r@ =~= v@.subrange(a as int, b as int));
    }
    r
}

/// The text with whitespace dropped on both ends.
fn trim(v: &Vec<u8>) -> (r: Vec<u8>)
    ensures
        r@ == spec_trim(v@),
{
    let mut a: usize = 0;
    #[verifier::loop_isolation(false)]
    while a < v.len() && (v[a] == 32 || v[a] == 9)
        invariant
            0 <= a <= v@.len(),
            forall|j: int| 0 <= j < a ==> is_space(#[trigger] v@[j]),
        decreases v@.len() - a,
    {
        a = a + 1;
    }
    let mut b: usize = v.len();
    #[verifier::loop_isolation(false)]
    while b > a && (v[b - 1] == 32 || v[b - 1] == 9)
        invariant
            a <= b <= v@.len(),
            forall|j: int| b <= j < v@.len() ==> is_space(#[trigger] v@[j]),
        decreases b,
    {
        b = b - 1;
    }
    proof {
        lemma_trim_start_at(v@, a as int);
        let t = v@.subrange(a as int, v@.len() as int);
        assert(spec_trim_start(v@) == t);
        assert forall|j: int| b - a <= j < t.len() implies is_space(#[trigger] t[j]) by {
            assert(t[j] == v@[a + j]);
        }
        if b > a {
            assert(t[b - a - 1] == v@[b - 1]);
        }
        lemma_trim_end_at(t, b - a);
        assert(t.subrange(0, b - a) =~= v@.subrange(a as int, b as int));
    }
    subvec(v, a, b)
}

/// The text with leading whitespace dropped.
fn trim_start(v: &Vec<u8>) -> (r: Vec<u8>)
    ensures
        r@ == spec_trim_start(v@),
{
    let mut a: usize = 0;
    #[verifier::loop_isolation(false)]
    while a < v.len() && (v[a] == 32 || v[a] == 9)
        invariant
            0 <= a <= v@.len(),
            forall|j: int| 0 <= j < a ==> is_space(#[trigger] v@[j]),
        decreases v@.len() - a,
    {
        a = a + 1;
    }
    proof {
        lemma_trim_start_at(v@, a as int);
    }
    subvec(v, a, v.len())
}

/// The length of the identifier the text starts with.
fn ident_len(v: &Vec<u8>) -> (r: usize)
    ensures
        r as int == spec_ident_len(v@),
        r <= v@.len(),
{
    let mut i: usize = 0;
    #[verifier::loop_isolation(false)]
    while i < v.len() && (v[i] == 95 || (48 <= v[i] && v[i] <= 57) || (65 <= v[i] && v[i] <= 90)
        || (97 <= v[i] && v[i] <= 122))
        invariant
            0 <= i <= v@.len(),
            forall|j: int| 0 <= j < i ==> is_ident_byte(#[trigger] v@[j]),
        decreases v@.len() - i,
    {
        i = i + 1;
    }
    proof {
        lemma_ident_len_at(v@, i as int);
    }
    i
}

/// A directive keyword.
#[derive(Clone, Copy, PartialEq, Eq, Structural, Debug)]
pub enum Kw {
    Skip,
    Hide,
    Once,
    Into,
    Each,
    Value,
    Name,
    Check,
    Lazy,
    Default,
    Override,
    Async,
    True,
    False,
}

/// The byte spelling of a keyword.
pub open spec fn kw_seq(k: Kw) -> Seq<u8> {
    match k {
        Kw::Skip => seq![115u8, 107u8, 105u8, 112u8],
        Kw::Hide => seq![104u8, 105u8, 100u8, 101u8],
        Kw::Once => seq![111u8, 110u8, 99u8, 101u8],
        Kw::Into => seq![105u8, 110u8, 116u8, 111u8],
        Kw::Each => seq![101u8, 97u8, 99u8, 104u8],
        Kw::Value => seq![118u8, 97u8, 108u8, 117u8, 101u8],
        Kw::Name => seq![110u8, 97u8, 109u8, 101u8],
        Kw::Check => seq![99u8, 104u8, 101u8, 99u8, 107u8],
        Kw::Lazy => seq![108u8, 97u8, 122u8, 121u8],
        Kw::Default => seq![100u8, 101u8, 102u8, 97u8, 117u8, 108u8, 116u8],
        Kw::Override => seq![111u8, 118u8, 101u8, 114u8, 114u8, 105u8, 100u8, 101u8],
        Kw::Async => seq![97u8, 115u8, 121u8, 110u8, 99u8],
        Kw::True => seq![116u8, 114u8, 117u8, 101u8],
        Kw::False => seq![102u8, 97u8, 108u8, 115u8, 101u8],
    }
}

/// The byte spelling of a keyword, as a vector.
fn kw_bytes(k: Kw) -> (r: Vec<u8>)
    ensures
        r@ == kw_seq(k),
{
    let mut r: Vec<u8> = Vec::new();
    match k {
        Kw::Skip => {
            r.push(115);
            r.push(107);
            r.push(105);
            r.push(112);
        },
        Kw::Hide => {
            r.push(104);
            r.push(105);
            r.push(100);
            r.push(101);
        },
        Kw::Once => {
            r.push(111);
            r.push(110);
            r.push(99);
            r.push(101);
        },
        Kw::Into => {
            r.push(105);
            r.push(110);
            r.push(116);
            r.push(111);
        },
        Kw::Each => {
            r.push(101);
            r.push(97);
            r.push(99);
            r.push(104);
        },
        Kw::Value => {
            r.push(118);
            r.push(97);
            r.push(108);
            r.push(117);
            r.push(101);
        },
        Kw::Name => {
            r.push(110);
            r.push(97);
            r.push(109);
            r.push(101);
        },
        Kw::Check => {
            r.push(99);
            r.push(104);
            r.push(101);
            r.push(99);
            r.push(107);
        },
        Kw::Lazy => {
            r.push(108);
            r.push(97);
            r.push(122);
            r.push(121);
        },
        Kw::Default => {
            r.push(100);
            r.push(101);
            r.push(102);
            r.push(97);
            r.push(117);
            r.push(108);
            r.push(116);
        },
        Kw::Override => {
            r.push(111);
            r.push(118);
            r.push(101);
            r.push(114);
            r.push(114);
            r.push(105);
            r.push(100);
            r.push(101);
        },
        Kw::Async => {
            r.push(97);
            r.push(115);
            r.push(121);
            r.push(110);
            r.push(99);
        },
        Kw::True => {
            r.push(116);
            r.push(114);
            r.push(117);
            r.push(101);
        },
        Kw::False => {
            r.push(102);
            r.push(97);
            r.push(108);
            r.push(115);
            r.push(101);
        },
    }
    proof {
        assert(r@ =~= kw_seq(k));
    }
    r
}

/// Whether the text is exactly the keyword.
fn is_kw(v: &Vec<u8>, k: Kw) -> (r: bool)
    ensures
        r == (v@ == kw_seq(k)),
{
    let kb = kw_bytes(k);
    ident_eq(v, &kb)
}

/// Whether the text starts with the keyword as a whole word.
pub open spec fn spec_starts_with_word(s: Seq<u8>, k: Kw) -> bool {
    let w = kw_seq(k);
    s.len() >= w.len() && s.subrange(0, w.len() as int) == w && (s.len() == w.len()
        || !is_ident_byte(s[w.len() as int]))
}

/// Whether the text starts with the keyword as a whole word.
fn starts_with_word(v: &Vec<u8>, k: Kw) -> (r: bool)
    ensures
        r == spec_starts_with_word(v@, k),
{
    let kb = kw_bytes(k);
    if v.len() < kb.len() {
        return false;
    }
    let head = subvec(v, 0, kb.len());
    if !ident_eq(&head, &kb) {
        return false;
    }
    if v.len() == kb.len() {
        return true;
    }
    let b = v[kb.len()];
    let r = !(b == 95 || (48 <= b && b <= 57) || (65 <= b && b <= 90) || (97 <= b && b <= 122));
    proof {
        assert(r == !is_ident_byte(v@[kw_seq(k).len() as int]));
    }
    r
}

/// Whether the name of the directive's result is a function path, as the
/// expression parser decides it.  The answer depends on the text alone.
pub uninterp spec fn parses_as_path(s: Seq<u8>) -> bool;

/// Relies on syn's `parse_str::<syn::Path>`: whether the text parses as a
/// plain function path.  The answer is deterministic in the text.
#[verifier::external_body]
fn is_path_expr(s: &Vec<u8>) -> (r: bool)
    ensures
        r == parses_as_path(s@),
{
    match std::str::from_utf8(s) {
        Ok(t) => syn::parse_str::<syn::Path>(t).is_ok(),
        Err(_) => false,
    }
}

/// Whether the text is a closure expression, as the expression parser
/// decides it.  The answer depends on the text alone.
pub uninterp spec fn parses_as_closure(s: Seq<u8>) -> bool;

/// Relies on syn's `parse_str::<syn::ExprClosure>`: whether the text
/// parses as a closure.  The answer is deterministic in the text.
#[verifier::external_body]
fn is_closure_expr(s: &Vec<u8>) -> (r: bool)
    ensures
        r == parses_as_closure(s@),
{
    match std::str::from_utf8(s) {
        Ok(t) => syn::parse_str::<syn::ExprClosure>(t).is_ok(),
        Err(_) => false,
    }
}

/// The grammar of a callable: optional `async` word, then a closure
/// (opened by a bar) or a function path, kept as opaque text.
pub open spec fn spec_parse_callable(s: Seq<u8>) -> Result<CallableItemV, Error> {
    let t = spec_trim(s);
    if t.len() == 0 {
        Err(Error::MalformedCallable)
    } else {
        let asy = spec_starts_with_word(t, Kw::Async);
        let body = if asy {
            spec_trim_start(t.subrange(5, t.len() as int))
        } else {
            t
        };
        if body.len() == 0 {
            Err(Error::MalformedCallable)
        } else if body[0] == 124 {
            if parses_as_closure(body) {
                Ok(CallableItemV { asyncness: asy, callable: CallableV::Closure(body) })
            } else {
                Err(Error::MalformedCallable)
            }
        } else {
            if parses_as_path(body) {
                Ok(CallableItemV { asyncness: asy, callable: CallableV::Function(body) })
            } else {
                Err(Error::MalformedCallable)
            }
        }
    }
}

/// Parses a callable expression.
fn parse_callable(s: &Vec<u8>) -> (r: Result<CallableItem, Error>)
    ensures
        match (r, spec_parse_callable(s@)) {
            (Ok(c), Ok(cv)) => c@ == cv,
            (Err(e), Err(ev)) => e == ev,
            _ => false,
        },
{
    let t = trim(s);
    if t.len() == 0 {
        return Err(Error::MalformedCallable);
    }
    let asy = starts_with_word(&t, Kw::Async);
    let body = if asy {
        let rest = subvec(&t, 5, t.len());
        trim_start(&rest)
    } else {
        t
    };
    if body.len() == 0 {
        return Err(Error::MalformedCallable);
    }
    if body[0] == 124 {
        if is_closure_expr(&body) {
            Ok(CallableItem { asyncness: asy, callable: Callable::Closure(body) })
        } else {
            Err(Error::MalformedCallable)
        }
    } else {
        if is_path_expr(&body) {
            Ok(CallableItem { asyncness: asy, callable: Callable::Function(body) })
        } else {
            Err(Error::MalformedCallable)
        }
    }
}

/// The grammar of the lazy directive's right-hand side: an optional
/// `override` word, an optional `async` word, and an optional default
/// resolver, comma-separated; an `async` word directly followed by more
/// text belongs to the callable instead.
pub open spec fn spec_parse_lazy(rhs: Seq<u8>) -> Result<LazyV, Error> {
    let (ov, r1) = if spec_starts_with_word(rhs, Kw::Override) {
        (true, spec_trim_start(rhs.subrange(8, rhs.len() as int)))
    } else {
        (false, rhs)
    };
    if ov && r1.len() > 0 && r1[0] != 44 {
        Err(Error::MalformedAttr)
    } else {
        let r2 = if ov && r1.len() > 0 {
            spec_trim_start(r1.drop_first())
        } else {
            r1
        };
        if r2.len() == 0 {
            Ok(LazyV { do_override: ov, asyncness: false, callable: None })
        } else if spec_starts_with_word(r2, Kw::Async) && spec_trim_start(
            r2.subrange(5, r2.len() as int),
        ).len() == 0 {
            Ok(LazyV { do_override: ov, asyncness: true, callable: None })
        } else if spec_starts_with_word(r2, Kw::Async) && spec_trim_start(
            r2.subrange(5, r2.len() as int),
        )[0] == 44 {
            match spec_parse_callable(
                spec_trim_start(r2.subrange(5, r2.len() as int)).drop_first(),
            ) {
                Ok(c) => Ok(LazyV { do_override: ov, asyncness: true, callable: Some(c) }),
                Err(e) => Err(e),
            }
        } else {
            match spec_parse_callable(r2) {
                Ok(c) => Ok(LazyV { do_override: ov, asyncness: false, callable: Some(c) }),
                Err(e) => Err(e),
            }
        }
    }
}

/// Parses the lazy directive's right-hand side.
fn parse_lazy(rhs: &Vec<u8>) -> (r: Result<Lazy, Error>)
    ensures
        match (r, spec_parse_lazy(rhs@)) {
            (Ok(l), Ok(lv)) => l@ == lv,
            (Err(e), Err(ev)) => e == ev,
            _ => false,
        },
{
    let (ov, r1) = if starts_with_word(rhs, Kw::Override) {
        let rest = subvec(rhs, 8, rhs.len());
        (true, trim_start(&rest))
    } else {
        (false, subvec(rhs, 0, rhs.len()))
    };
    proof {
        if !spec_starts_with_word(rhs@, Kw::Override) {
            assert(r1@ =~= rhs@);
        }
    }
    if ov && r1.len() > 0 && r1[0] != 44 {
        return Err(Error::MalformedAttr);
    }
    let r2 = if ov && r1.len() > 0 {
        let rest = subvec(&r1, 1, r1.len());
        proof {
            assert(rest@ =~= r1@.drop_first());
        }
        trim_start(&rest)
    } else {
        r1
    };
    if r2.len() == 0 {
        return Ok(Lazy { do_override: ov, asyncness: false, callable: None });
    }
    if starts_with_word(&r2, Kw::Async) {
        let rest = subvec(&r2, 5, r2.len());
        let after = trim_start(&rest);
        if after.len() == 0 {
            return Ok(Lazy { do_override: ov, asyncness: true, callable: None });
        }
        if after[0] == 44 {
            let tail = subvec(&after, 1, after.len());
            proof {
                assert(tail@ =~= after@.drop_first());
            }
            return match parse_callable(&tail) {
                Ok(c) => Ok(Lazy { do_override: ov, asyncness: true, callable: Some(c) }),
                Err(e) => Err(e),
            };
        }
    }
    match parse_callable(&r2) {
        Ok(c) => Ok(Lazy { do_override: ov, asyncness: false, callable: Some(c) }),
        Err(e) => Err(e),
    }
}

/// The grammar of one directive: a keyword, either alone (the flag
/// directives, and `lazy` in its bare form) or followed by `=` and its
/// right-hand side.  An unknown keyword is its own rejection; a known
/// keyword with the wrong shape is malformed.
pub open spec fn spec_parse_attr(s: Seq<u8>) -> Result<FieldAttrV, Error> {
    let t = spec_trim(s);
    let kl = spec_ident_len(t);
    if kl == 0 {
        Err(Error::MalformedAttr)
    } else {
        let key = t.subrange(0, kl);
        let after = spec_trim_start(t.subrange(kl, t.len() as int));
        if after.len() == 0 {
            if key == kw_seq(Kw::Skip) {
                Ok(FieldAttrV::Skip)
            } else if key == kw_seq(Kw::Hide) {
                Ok(FieldAttrV::Hide)
            } else if key == kw_seq(Kw::Once) {
                Ok(FieldAttrV::Once)
            } else if key == kw_seq(Kw::Into) {
                Ok(FieldAttrV::Into)
            } else if key == kw_seq(Kw::Lazy) {
                Ok(FieldAttrV::Lazy(LazyV { do_override: false, asyncness: false, callable: None }))
            } else if key == kw_seq(Kw::Each) || key == kw_seq(Kw::Value) || key == kw_seq(
                Kw::Name,
            ) || key == kw_seq(Kw::Check) {
                Err(Error::MalformedAttr)
            } else {
                Err(Error::UnknownAttr)
            }
        } else if after[0] != 61 {
            Err(Error::MalformedAttr)
        } else {
            let rhs = spec_trim(after.drop_first());
            if key == kw_seq(Kw::Skip) || key == kw_seq(Kw::Hide) || key == kw_seq(Kw::Once)
                || key == kw_seq(Kw::Into) {
                Err(Error::MalformedAttr)
            } else if key == kw_seq(Kw::Name) {
                if rhs.len() > 0 && spec_ident_len(rhs) == rhs.len() {
                    Ok(FieldAttrV::Name(rhs))
                } else {
                    Err(Error::MalformedAttr)
                }
            } else if key == kw_seq(Kw::Each) {
                let il = spec_ident_len(rhs);
                if il == 0 {
                    Err(Error::MalformedAttr)
                } else {
                    let id = rhs.subrange(0, il);
                    let rem = spec_trim_start(rhs.subrange(il, rhs.len() as int));
                    if rem.len() == 0 {
                        Ok(FieldAttrV::Each(EachV { ident: id, callable: None }))
                    } else if rem[0] == 44 {
                        match spec_parse_callable(rem.drop_first()) {
                            Ok(c) => Ok(FieldAttrV::Each(EachV { ident: id, callable: Some(c) })),
                            Err(e) => Err(e),
                        }
                    } else {
                        Err(Error::MalformedAttr)
                    }
                }
            } else if key == kw_seq(Kw::Value) {
                if rhs == kw_seq(Kw::Default) {
                    Ok(FieldAttrV::Value(ValueV::Default))
                } else if (rhs.len() > 0 && is_lit_start(rhs[0])) || rhs == kw_seq(Kw::True)
                    || rhs == kw_seq(Kw::False) {
                    Ok(FieldAttrV::Value(ValueV::Lit(rhs)))
                } else {
                    match spec_parse_callable(rhs) {
                        Ok(c) => Ok(FieldAttrV::Value(ValueV::Callable(c))),
                        Err(e) => Err(e),
                    }
                }
            } else if key == kw_seq(Kw::Check) {
                match spec_parse_callable(rhs) {
                    Ok(c) => Ok(FieldAttrV::Check(c)),
                    Err(e) => Err(e),
                }
            } else if key == kw_seq(Kw::Lazy) {
                if rhs.len() == 0 {
                    Err(Error::MalformedAttr)
                } else {
                    match spec_parse_lazy(rhs) {
                        Ok(l) => Ok(FieldAttrV::Lazy(l)),
                        Err(e) => Err(e),
                    }
                }
            } else {
                Err(Error::UnknownAttr)
            }
        }
    }
}

/// Parses one directive.
pub fn parse_attr(s: &Vec<u8>) -> (r: Result<FieldAttr, Error>)
    ensures
        match (r, spec_parse_attr(s@)) {
            (Ok(a), Ok(av)) => a@ == av,
            (Err(e), Err(ev)) => e == ev,
            _ => false,
        },
{
    let t = trim(s);
    let kl = ident_len(&t);
    if kl == 0 {
        return Err(Error::MalformedAttr);
    }
    let key = subvec(&t, 0, kl);
    let tail = subvec(&t, kl, t.len());
    let after = trim_start(&tail);
    if after.len() == 0 {
        if is_kw(&key, Kw::Skip) {
            Ok(FieldAttr::Skip)
        } else if is_kw(&key, Kw::Hide) {
            Ok(FieldAttr::Hide)
        } else if is_kw(&key, Kw::Once) {
            Ok(FieldAttr::Once)
        } else if is_kw(&key, Kw::Into) {
            Ok(FieldAttr::Into)
        } else if is_kw(&key, Kw::Lazy) {
            Ok(FieldAttr::Lazy(Lazy { do_override: false, asyncness: false, callable: None }))
        } else if is_kw(&key, Kw::Each) || is_kw(&key, Kw::Value) || is_kw(&key, Kw::Name)
            || is_kw(&key, Kw::Check) {
            Err(Error::MalformedAttr)
        } else {
            Err(Error::UnknownAttr)
        }
    } else if after[0] != 61 {
        Err(Error::MalformedAttr)
    } else {
        let after_eq = subvec(&after, 1, after.len());
        proof {
            assert(after_eq@ =~= after@.drop_first());
        }
        let rhs = trim(&after_eq);
        if is_kw(&key, Kw::Skip) || is_kw(&key, Kw::Hide) || is_kw(&key, Kw::Once) || is_kw(
            &key,
            Kw::Into,
        ) {
            Err(Error::MalformedAttr)
        } else if is_kw(&key, Kw::Name) {
            let il = ident_len(&rhs);
            if rhs.len() > 0 && il == rhs.len() {
                Ok(FieldAttr::Name(rhs))
            } else {
                Err(Error::MalformedAttr)
            }
        } else if is_kw(&key, Kw::Each) {
            let il = ident_len(&rhs);
            if il == 0 {
                Err(Error::MalformedAttr)
            } else {
                let id = subvec(&rhs, 0, il);
                let rem_raw = subvec(&rhs, il, rhs.len());
                let rem = trim_start(&rem_raw);
                if rem.len() == 0 {
                    Ok(FieldAttr::Each(Each { ident: id, callable: None }))
                } else if rem[0] == 44 {
                    let tail2 = subvec(&rem, 1, rem.len());
                    proof {
                        assert(tail2@ =~= rem@.drop_first());
                    }
                    match parse_callable(&tail2) {
                        Ok(c) => Ok(FieldAttr::Each(Each { ident: id, callable: Some(c) })),
                        Err(e) => Err(e),
                    }
                } else {
                    Err(Error::MalformedAttr)
                }
            }
        } else if is_kw(&key, Kw::Value) {
            if is_kw(&rhs, Kw::Default) {
                Ok(FieldAttr::Value(Value::Default))
            } else if (rhs.len() > 0 && {
                let b = rhs[0];
                (48 <= b && b <= 57) || b == 34 || b == 39 || b == 45
            }) || is_kw(&rhs, Kw::True) || is_kw(&rhs, Kw::False) {
                Ok(FieldAttr::Value(Value::Lit(rhs)))
            } else {
                match parse_callable(&rhs) {
                    Ok(c) => Ok(FieldAttr::Value(Value::Callable(c))),
                    Err(e) => Err(e),
                }
            }
        } else if is_kw(&key, Kw::Check) {
            match parse_callable(&rhs) {
                Ok(c) => Ok(FieldAttr::Check(c)),
                Err(e) => Err(e),
            }
        } else if is_kw(&key, Kw::Lazy) {
            if rhs.len() == 0 {
                Err(Error::MalformedAttr)
            } else {
                match parse_lazy(&rhs) {
                    Ok(l) => Ok(FieldAttr::Lazy(l)),
                    Err(e) => Err(e),
                }
            }
        } else {
            Err(Error::UnknownAttr)
        }
    }
}

/// The folding of one parsed directive into the set, over mathematical
/// values: a directive given twice keeps its last occurrence.
pub open spec fn spec_apply(a: AttributesV, v: FieldAttrV) -> AttributesV {
    AttributesV {
        props: crate::attrs::Props {
            skip: a.props.skip || v is Skip,
            hide: a.props.hide || v is Hide,
            once: a.props.once || v is Once,
            into: a.props.into || v is Into,
        },
        value: match v {
            FieldAttrV::Value(x) => Some(x),
            _ => a.value,
        },
        each: match v {
            FieldAttrV::Each(x) => Some(x),
            _ => a.each,
        },
        name: match v {
            FieldAttrV::Name(x) => Some(x),
            _ => a.name,
        },
        lazy: match v {
            FieldAttrV::Lazy(x) => Some(x),
            _ => a.lazy,
        },
        check: match v {
            FieldAttrV::Check(x) => Some(x),
            _ => a.check,
        },
    }
}

/// The directive set of a field with no directives.
pub open spec fn spec_empty_attrs() -> AttributesV {
    AttributesV {
        props: crate::attrs::Props { skip: false, hide: false, once: false, into: false },
        value: None,
        each: None,
        name: None,
        lazy: None,
        check: None,
    }
}

/// The grammar of a field's whole directive list: each directive parsed
/// and folded in order, aborting on the first rejection.
pub open spec fn spec_parse_attrs(ss: Seq<Seq<u8>>, n: int) -> Result<AttributesV, Error>
    decreases n,
{
    if n <= 0 {
        Ok(spec_empty_attrs())
    } else {
        match spec_parse_attrs(ss, n - 1) {
            Err(e) => Err(e),
            Ok(a) => match spec_parse_attr(ss[n - 1]) {
                Err(e) => Err(e),
                Ok(v) => Ok(spec_apply(a, v)),
            },
        }
    }
}

/// The mathematical value of a list of directive texts.
pub open spec fn texts_view(s: Seq<Vec<u8>>) -> Seq<Seq<u8>> {
    s.map_values(|v: Vec<u8>| v@)
}

/// A rejection among the first directives decides the whole list.
proof fn lemma_parse_attrs_err(ss: Seq<Seq<u8>>, n: int, m: int)
    requires
        0 <= n <= m,
        spec_parse_attrs(ss, n) is Err,
    ensures
        spec_parse_attrs(ss, m) == spec_parse_attrs(ss, n),
    decreases m - n,
{
    if n < m {
        lemma_parse_attrs_err(ss, n, m - 1);
    }
}

/// Parses and folds all directives of one field, in order, aborting on
/// the first rejection.
pub fn parse_attrs(inputs: &Vec<Vec<u8>>) -> (r: Result<Attributes, Error>)
    ensures
        match (r, spec_parse_attrs(texts_view(inputs@), inputs@.len() as int)) {
            (Ok(a), Ok(av)) => a@ == av,
            (Err(e), Err(ev)) => e == ev,
            _ => false,
        },
{
    let ghost ss = texts_view(inputs@);
    let mut acc = Attributes::empty();
    proof {
        assert(acc@ =~= spec_empty_attrs());
    }
    let mut i: usize = 0;
    #[verifier::loop_isolation(false)]
    while i < inputs.len()
        invariant
            0 <= i <= inputs@.len(),
            spec_parse_attrs(ss, i as int) == Ok::<AttributesV, Error>(acc@),
        decreases inputs@.len() - i,
    {
        let attr = match parse_attr(&inputs[i]) {
            Ok(a) => a,
            Err(e) => {
                proof {
                    assert(ss[i as int] == inputs@[i as int]@);
                    assert(spec_parse_attrs(ss, i + 1) == Err::<AttributesV, Error>(e));
                    lemma_parse_attrs_err(ss, i + 1, inputs@.len() as int);
                }
                return Err(e);
            },
        };
        let ghost acc0 = acc@;
        let ghost attr_v = attr@;
        acc.apply(attr);
        proof {
            assert(ss[i as int] == inputs@[i as int]@);
            assert(acc@ =~= spec_apply(acc0, attr_v));
            assert(spec_parse_attrs(ss, i + 1) == Ok::<AttributesV, Error>(acc@));
        }
        i = i + 1;
    }
    Ok(acc)
}

} // verus!
