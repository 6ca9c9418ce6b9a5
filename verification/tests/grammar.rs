use tidy_builder::attrs::{Callable, FieldAttr, Value};
use tidy_builder::err::Error;
use tidy_builder::parse::{parse_attr, parse_attrs};

fn bytes(s: &str) -> Vec<u8> {
    s.as_bytes().to_vec()
}

#[test]
fn parse_flag_directives() {
    assert!(matches!(parse_attr(&bytes("skip")), Ok(FieldAttr::Skip)));
    assert!(matches!(parse_attr(&bytes("  hide  ")), Ok(FieldAttr::Hide)));
    assert!(matches!(parse_attr(&bytes("once")), Ok(FieldAttr::Once)));
    assert!(matches!(parse_attr(&bytes("into")), Ok(FieldAttr::Into)));
    assert_eq!(parse_attr(&bytes("skip = yes")).unwrap_err(), Error::MalformedAttr);
}

#[test]
fn parse_name_directive() {
    match parse_attr(&bytes("name = new_field7")).unwrap() {
        FieldAttr::Name(n) => assert_eq!(n, bytes("new_field7")),
        other => panic!("unexpected directive: {:?}", other),
    }
    assert_eq!(parse_attr(&bytes("name = not an ident")).unwrap_err(), Error::MalformedAttr);
    assert_eq!(parse_attr(&bytes("name =")).unwrap_err(), Error::MalformedAttr);
}

#[test]
fn parse_each_directive() {
    match parse_attr(&bytes("each = arg")).unwrap() {
        FieldAttr::Each(e) => {
            assert_eq!(e.ident, bytes("arg"));
            assert!(e.callable.is_none());
        },
        _ => panic!("expected a repeated-element directive"),
    }
    match parse_attr(&bytes("each = arg, is_even")).unwrap() {
        FieldAttr::Each(e) => {
            assert_eq!(e.ident, bytes("arg"));
            let c = e.callable.unwrap();
            assert!(!c.asyncness);
            match c.callable {
                Callable::Function(f) => assert_eq!(f, bytes("is_even")),
                Callable::Closure(_) => panic!("expected a path"),
            }
        },
        _ => panic!("expected a repeated-element directive"),
    }
    match parse_attr(&bytes("each = kv, |&(k, _)| k % 2 == 0")).unwrap() {
        FieldAttr::Each(e) => {
            assert_eq!(e.ident, bytes("kv"));
            match e.callable.unwrap().callable {
                Callable::Closure(c) => assert_eq!(c, bytes("|&(k, _)| k % 2 == 0")),
                Callable::Function(_) => panic!("expected a closure"),
            }
        },
        _ => panic!("expected a repeated-element directive"),
    }
    assert_eq!(parse_attr(&bytes("each = ")).unwrap_err(), Error::MalformedAttr);
    assert_eq!(parse_attr(&bytes("each = arg, 123")).unwrap_err(), Error::MalformedCallable);
}

#[test]
fn parse_value_directive() {
    assert!(matches!(parse_attr(&bytes("value = default")), Ok(FieldAttr::Value(Value::Default))));
    match parse_attr(&bytes("value = 42")).unwrap() {
        FieldAttr::Value(Value::Lit(l)) => assert_eq!(l, bytes("42")),
        _ => panic!("expected a literal fallback"),
    }
    match parse_attr(&bytes("value = \"Name\"")).unwrap() {
        FieldAttr::Value(Value::Lit(l)) => assert_eq!(l, bytes("\"Name\"")),
        _ => panic!("expected a literal fallback"),
    }
    match parse_attr(&bytes("value = false")).unwrap() {
        FieldAttr::Value(Value::Lit(l)) => assert_eq!(l, bytes("false")),
        _ => panic!("expected a literal fallback"),
    }
    match parse_attr(&bytes("value = || 2")).unwrap() {
        FieldAttr::Value(Value::Callable(c)) => {
            assert!(!c.asyncness);
            assert!(matches!(c.callable, Callable::Closure(_)));
        },
        _ => panic!("expected a callable fallback"),
    }
    match parse_attr(&bytes("value = async give_eight")).unwrap() {
        FieldAttr::Value(Value::Callable(c)) => {
            assert!(c.asyncness);
            match c.callable {
                Callable::Function(f) => assert_eq!(f, bytes("give_eight")),
                Callable::Closure(_) => panic!("expected a path"),
            }
        },
        _ => panic!("expected a callable fallback"),
    }
}

#[test]
fn parse_check_directive() {
    match parse_attr(&bytes("check = is_even")).unwrap() {
        FieldAttr::Check(c) => {
            assert!(!c.asyncness);
            match c.callable {
                Callable::Function(f) => assert_eq!(f, bytes("is_even")),
                Callable::Closure(_) => panic!("expected a path"),
            }
        },
        _ => panic!("expected a validator directive"),
    }
    match parse_attr(&bytes("check = |num| num % 2 == 0")).unwrap() {
        FieldAttr::Check(c) => {
            match c.callable {
                Callable::Closure(t) => assert_eq!(t, bytes("|num| num % 2 == 0")),
                Callable::Function(_) => panic!("expected a closure"),
            }
        },
        _ => panic!("expected a validator directive"),
    }
    assert_eq!(parse_attr(&bytes("check = 123")).unwrap_err(), Error::MalformedCallable);
    assert_eq!(parse_attr(&bytes("check =")).unwrap_err(), Error::MalformedCallable);
}

#[test]
fn parse_lazy_directive() {
    match parse_attr(&bytes("lazy")).unwrap() {
        FieldAttr::Lazy(l) => {
            assert!(!l.do_override);
            assert!(!l.asyncness);
            assert!(l.callable.is_none());
        },
        _ => panic!("expected a lazy directive"),
    }
    match parse_attr(&bytes("lazy = override")).unwrap() {
        FieldAttr::Lazy(l) => {
            assert!(l.do_override);
            assert!(!l.asyncness);
            assert!(l.callable.is_none());
        },
        _ => panic!("expected a lazy directive"),
    }
    match parse_attr(&bytes("lazy = async")).unwrap() {
        FieldAttr::Lazy(l) => {
            assert!(!l.do_override);
            assert!(l.asyncness);
            assert!(l.callable.is_none());
        },
        _ => panic!("expected a lazy directive"),
    }
    match parse_attr(&bytes("lazy = override, async")).unwrap() {
        FieldAttr::Lazy(l) => {
            assert!(l.do_override);
            assert!(l.asyncness);
            assert!(l.callable.is_none());
        },
        _ => panic!("expected a lazy directive"),
    }
    match parse_attr(&bytes("lazy = override, async, make_value")).unwrap() {
        FieldAttr::Lazy(l) => {
            assert!(l.do_override);
            assert!(l.asyncness);
            match l.callable.unwrap().callable {
                Callable::Function(f) => assert_eq!(f, bytes("make_value")),
                Callable::Closure(_) => panic!("expected a path"),
            }
        },
        _ => panic!("expected a lazy directive"),
    }
    match parse_attr(&bytes("lazy = make_value")).unwrap() {
        FieldAttr::Lazy(l) => {
            assert!(!l.do_override);
            assert!(!l.asyncness);
            assert!(l.callable.is_some());
        },
        _ => panic!("expected a lazy directive"),
    }
}

#[test]
fn parse_rejections() {
    assert_eq!(parse_attr(&bytes("bogus = 3")).unwrap_err(), Error::UnknownAttr);
    assert_eq!(parse_attr(&bytes("frobnicate")).unwrap_err(), Error::UnknownAttr);
    assert_eq!(parse_attr(&bytes("")).unwrap_err(), Error::MalformedAttr);
    assert_eq!(parse_attr(&bytes("value default")).unwrap_err(), Error::MalformedAttr);
}

#[test]
fn parse_attrs_folds_in_order() {
    let inputs = vec![
        bytes("value = 8"),
        bytes("into"),
        bytes("check = |n| n % 2 == 0"),
        bytes("name = set_foo"),
        bytes("lazy"),
    ];
    let attrs = parse_attrs(&inputs).unwrap();
    assert!(attrs.props.into);
    assert!(!attrs.props.skip);
    assert!(matches!(attrs.value, Some(Value::Lit(_))));
    assert!(attrs.check.is_some());
    assert_eq!(attrs.name.unwrap(), bytes("set_foo"));
    assert!(attrs.lazy.is_some());
    assert!(attrs.each.is_none());

    // A later occurrence of a directive replaces the earlier one.
    let inputs = vec![bytes("value = 1"), bytes("value = 2")];
    let attrs = parse_attrs(&inputs).unwrap();
    match attrs.value.unwrap() {
        Value::Lit(l) => assert_eq!(l, bytes("2")),
        _ => panic!("expected a literal fallback"),
    }

    // The first rejection aborts the whole list.
    let inputs = vec![bytes("skip"), bytes("wat = 1"), bytes("hide")];
    assert_eq!(parse_attrs(&inputs).unwrap_err(), Error::UnknownAttr);
}

#[test]
fn has_value_reads_fallback_and_lazy_resolver() {
    let attrs = parse_attrs(&vec![bytes("value = 3")]).unwrap();
    assert!(attrs.has_value());
    let attrs = parse_attrs(&vec![bytes("lazy = override, make_value")]).unwrap();
    assert!(attrs.has_value());
    let attrs = parse_attrs(&vec![bytes("lazy")]).unwrap();
    assert!(!attrs.has_value());
    let attrs = parse_attrs(&vec![bytes("once")]).unwrap();
    assert!(!attrs.has_value());
}
