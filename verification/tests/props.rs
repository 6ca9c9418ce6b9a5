use tidy_builder::classify::Category;
use tidy_builder::machine::{BuildError, Builder, Datum, FieldRt, Item, Scalar};

fn field(cat: Category) -> FieldRt {
    FieldRt {
        category: cat,
        fallback: None,
        has_lazy: false,
        lazy_override: false,
        lazy_default: None,
        has_check: false,
        each: false,
        each_check: false,
        once: false,
        skip: false,
    }
}

fn u(n: u64) -> Datum {
    Datum::Item(Item::Single(Scalar::U64(n)))
}

fn single(n: u64) -> Item {
    Item::Single(Scalar::U64(n))
}

#[test]
fn required_setters_in_any_permutation() {
    // Three required fields set in two different orders produce the same
    // record: the slots are independent of call order.
    let make = || {
        vec![
            field(Category::Required),
            field(Category::Required),
            field(Category::Required),
        ]
    };

    let mut b1 = Builder::new(make());
    b1.set(0, u(10), true).unwrap();
    b1.set(1, u(20), true).unwrap();
    b1.set(2, u(30), true).unwrap();
    let r1 = b1.build().unwrap();

    let mut b2 = Builder::new(make());
    b2.set(2, u(30), true).unwrap();
    b2.set(0, u(10), true).unwrap();
    b2.set(1, u(20), true).unwrap();
    let r2 = b2.build().unwrap();

    assert_eq!(r1.values, r2.values);
    assert_eq!(r1.values[0], Some(u(10)));
    assert_eq!(r1.values[1], Some(u(20)));
    assert_eq!(r1.values[2], Some(u(30)));
}

#[test]
fn omitted_required_field_blocks_finalize() {
    // In the generated code finalizing without a required field is a
    // compile error; the runtime model reports the first missing field.
    let fields = vec![
        field(Category::Required),
        field(Category::Required),
        field(Category::Required),
    ];
    let mut b = Builder::new(fields);
    b.set(0, u(1), true).unwrap();
    b.set(2, u(3), true).unwrap();
    assert_eq!(b.build(), Err(BuildError::Missing(1)));
}

#[test]
fn defaulted_field_keeps_fallback_until_set() {
    let make = || {
        let mut f = field(Category::Defaulted);
        f.fallback = Some(u(7));
        vec![f]
    };
    let rec = Builder::new(make()).build().unwrap();
    assert_eq!(rec.values[0], Some(u(7)));

    let mut b = Builder::new(make());
    b.set(0, u(9), true).unwrap();
    let rec = b.build().unwrap();
    assert_eq!(rec.values[0], Some(u(9)));
}

#[test]
fn lazy_override_beats_eager_value() {
    let make = |ov: bool| {
        let mut f = field(Category::Required);
        f.has_lazy = true;
        f.lazy_override = ov;
        vec![f]
    };

    let mut b = Builder::new(make(true));
    b.set(0, u(1), true).unwrap();
    b.set_lazy(0, u(2));
    let rec = b.build().unwrap();
    assert_eq!(rec.values[0], Some(u(2)));

    let mut b = Builder::new(make(false));
    b.set(0, u(1), true).unwrap();
    b.set_lazy(0, u(2));
    let rec = b.build().unwrap();
    assert_eq!(rec.values[0], Some(u(1)));

    let mut b = Builder::new(make(false));
    b.set_lazy(0, u(2));
    let rec = b.build().unwrap();
    assert_eq!(rec.values[0], Some(u(2)));
}

#[test]
fn rejected_candidate_leaves_cell_unchanged() {
    // Set a valid value, attempt an invalid overwrite: the builder still
    // reflects the valid value, and the error names the field.
    let mut f = field(Category::Required);
    f.has_check = true;
    let mut b = Builder::new(vec![f]);
    b.set(0, u(4), true).unwrap();
    assert_eq!(b.set(0, u(3), false), Err(BuildError::CheckRejected(0)));
    let rec = b.build().unwrap();
    assert_eq!(rec.values[0], Some(u(4)));
}

#[test]
fn rejected_element_is_never_appended() {
    let mut f = field(Category::Required);
    f.each = true;
    f.each_check = true;
    let mut b = Builder::new(vec![f]);
    b.set_each(0, single(2), true).unwrap();
    assert_eq!(b.set_each(0, single(3), false), Err(BuildError::ElementRejected(0)));
    b.set_each(0, single(4), true).unwrap();
    let rec = b.build().unwrap();
    assert_eq!(rec.values[0], Some(Datum::List(vec![single(2), single(4)])));
}

#[test]
fn required_and_optional_scenario() {
    // a: required, b: optional.  Setting only a yields {a: 5, b: empty};
    // setting both yields {a: 5, b: 7}; never setting a blocks finalize,
    // which in the generated code is a failure to compile.
    let make = || vec![field(Category::Required), field(Category::Optional)];

    let mut b = Builder::new(make());
    b.set(0, u(5), true).unwrap();
    let rec = b.build().unwrap();
    assert_eq!(rec.values[0], Some(u(5)));
    assert_eq!(rec.values[1], None);

    let mut b = Builder::new(make());
    b.set(0, u(5), true).unwrap();
    b.set(1, u(7), true).unwrap();
    let rec = b.build().unwrap();
    assert_eq!(rec.values[0], Some(u(5)));
    assert_eq!(rec.values[1], Some(u(7)));

    assert_eq!(Builder::new(make()).build(), Err(BuildError::Missing(0)));
}

#[test]
fn repeated_elements_accumulate_in_call_order() {
    let mut args = field(Category::Required);
    args.each = true;
    let mut b = Builder::new(vec![args]);
    b.set_each(0, single(1), true).unwrap();
    b.set_each(0, single(2), true).unwrap();
    let rec = b.build().unwrap();
    assert_eq!(rec.values[0], Some(Datum::List(vec![single(1), single(2)])));
}

#[test]
fn required_lazy_resolver_satisfies_guard_at_finalize() {
    // A required field with only a stored resolver is proven at finalize
    // time: the build succeeds and the resolver's value is used.
    let mut f = field(Category::Required);
    f.has_lazy = true;
    let mut b = Builder::new(vec![f]);
    b.set_lazy(0, u(42));
    let rec = b.build().unwrap();
    assert_eq!(rec.values[0], Some(u(42)));
}
