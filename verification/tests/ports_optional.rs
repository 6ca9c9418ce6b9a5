use tidy_builder::classify::Category;
use tidy_builder::machine::{Builder, Datum, FieldRt, Item, Scalar};

fn field(cat: Category) -> FieldRt {
    FieldRt {
        category: cat,
        fallback: None,
        has_lazy: false,
        lazy_override: false,
        lazy_default: None,
        has_check: false,
        each: false,
        each_check: false,
        once: false,
        skip: false,
    }
}

fn u(n: u64) -> Datum {
    Datum::Item(Item::Single(Scalar::U64(n)))
}

fn boolean(b: bool) -> Datum {
    Datum::Item(Item::Single(Scalar::Bool(b)))
}

fn single(n: u64) -> Item {
    Item::Single(Scalar::U64(n))
}

fn pair_ut(k: u64, v: &str) -> Item {
    Item::Pair(Scalar::U64(k), Scalar::Text(v.as_bytes().to_vec()))
}

#[test]
fn all_optional() {
    // field0 is skipped, field1..field7 take even values through their
    // validators, and args is a validated optional container that is
    // never supplied.
    let mut fields = Vec::new();
    let mut f0 = field(Category::Optional);
    f0.skip = true;
    fields.push(f0);
    for i in 1..8 {
        let mut f = field(Category::Optional);
        if i >= 4 {
            f.has_check = true;
        }
        fields.push(f);
    }
    let mut args = field(Category::Optional);
    args.each = true;
    args.each_check = true;
    args.has_check = true;
    fields.push(args);

    let mut b = Builder::new(fields);
    b.set(1, u(1), true).unwrap();
    b.set(2, u(2), true).unwrap();
    b.set(3, u(3), true).unwrap();
    b.set(4, u(4), true).unwrap();
    b.set(5, u(6), true).unwrap();
    b.set(6, u(8), true).unwrap();
    b.set(7, u(10), true).unwrap();
    let test = b.build().unwrap();

    assert_eq!(test.values[0], None);
    assert_eq!(test.values[1], Some(u(1)));
    assert_eq!(test.values[2], Some(u(2)));
    assert_eq!(test.values[3], Some(u(3)));
    assert_eq!(test.values[4], Some(u(4)));
    assert_eq!(test.values[5], Some(u(6)));
    assert_eq!(test.values[6], Some(u(8)));
    assert_eq!(test.values[7], Some(u(10)));
}

#[test]
fn optional() {
    // foo: lazy without override — the eager value wins; bar: lazy with
    // override — the resolver wins; baz: override without any resolver —
    // the eager value stands; qux and quxx accumulate elements.
    let mut foo = field(Category::Optional);
    foo.has_check = true;
    foo.has_lazy = true;
    let mut bar = field(Category::Optional);
    bar.has_check = true;
    bar.has_lazy = true;
    bar.lazy_override = true;
    let mut baz = field(Category::Optional);
    baz.has_lazy = true;
    baz.lazy_override = true;
    let mut qux = field(Category::Optional);
    qux.each = true;
    qux.each_check = true;
    let mut quxx = field(Category::Optional);
    quxx.each = true;
    quxx.each_check = true;
    let fields = vec![foo, bar, baz, qux, quxx];

    let mut b = Builder::new(fields);
    b.set(0, u(0), true).unwrap();
    b.set_lazy(0, u(2));
    b.set(1, u(0), true).unwrap();
    b.set_lazy(1, u(2));
    b.set(2, boolean(true), true).unwrap();
    b.set_each(3, single(0), true).unwrap();
    b.set_each(3, single(2), true).unwrap();
    b.set_each(4, pair_ut(0, "ferris"), true).unwrap();
    let test = b.build().unwrap();

    assert_eq!(test.values[0], Some(u(0)));
    assert_eq!(test.values[1], Some(u(2)));
    assert_eq!(test.values[2], Some(boolean(true)));
    assert_eq!(test.values[3], Some(Datum::List(vec![single(0), single(2)])));
    assert_eq!(test.values[4], Some(Datum::List(vec![pair_ut(0, "ferris")])));
}

#[test]
fn stable_all_optional_default_values() {
    let fields = vec![field(Category::Optional), field(Category::Optional)];
    let b = Builder::new(fields);
    let my_struct = b.build().unwrap();

    assert!(my_struct.values[0].is_none());
    assert!(my_struct.values[1].is_none());
}
