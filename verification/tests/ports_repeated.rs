use tidy_builder::classify::Category;
use tidy_builder::machine::{Builder, Datum, FieldRt, Item, Scalar};

fn field(cat: Category) -> FieldRt {
    FieldRt {
        category: cat,
        fallback: None,
        has_lazy: false,
        lazy_override: false,
        lazy_default: None,
        has_check: false,
        each: false,
        each_check: false,
        once: false,
        skip: false,
    }
}

fn text_item(s: &str) -> Item {
    Item::Single(Scalar::Text(s.as_bytes().to_vec()))
}

fn list_of(rec: &Option<Datum>) -> &Vec<Item> {
    match rec {
        Some(Datum::List(xs)) => xs,
        _ => panic!("expected a container value"),
    }
}

#[test]
fn repeated_setters_repeated_setters() {
    let mut args = field(Category::Required);
    args.each = true;
    let mut b = Builder::new(vec![args]);
    b.set_each(0, text_item("arg1"), true).unwrap();
    b.set_each(0, text_item("arg2"), true).unwrap();
    let my_struct = b.build().unwrap();

    let xs = list_of(&my_struct.values[0]);
    assert_eq!(xs.len(), 2);
    assert!(xs.contains(&text_item("arg1")));
    assert!(xs.contains(&text_item("arg2")));
}

#[test]
fn stable_repeated_setters_for_default_fields_repeated_setters() {
    let make = || {
        let mut args = field(Category::Defaulted);
        args.fallback = Some(Datum::List(Vec::new()));
        args.each = true;
        vec![args]
    };

    let mut b = Builder::new(make());
    b.set_each(0, text_item("arg1"), true).unwrap();
    b.set_each(0, text_item("arg2"), true).unwrap();
    let my_struct = b.build().unwrap();
    let my_struct_empty = Builder::new(make()).build().unwrap();

    assert_eq!(list_of(&my_struct_empty.values[0]).len(), 0);

    let xs = list_of(&my_struct.values[0]);
    assert_eq!(xs.len(), 2);
    assert!(xs.contains(&text_item("arg1")));
    assert!(xs.contains(&text_item("arg2")));
}

#[test]
fn stable_repeated_setters_for_optionals_repeated_setters() {
    let mut args = field(Category::Required);
    args.each = true;
    let mut optional_args = field(Category::Optional);
    optional_args.each = true;
    let mut b = Builder::new(vec![args, optional_args]);
    b.set_each(0, text_item("arg1"), true).unwrap();
    b.set_each(0, text_item("arg2"), true).unwrap();
    b.set_each(1, text_item("opt_arg1"), true).unwrap();
    b.set_each(1, text_item("opt_arg2"), true).unwrap();
    let my_struct = b.build().unwrap();

    let xs = list_of(&my_struct.values[0]);
    assert_eq!(xs.len(), 2);
    assert!(xs.contains(&text_item("arg1")));
    assert!(xs.contains(&text_item("arg1")));

    let ys = list_of(&my_struct.values[1]);
    assert_eq!(ys.len(), 2);
    assert!(ys.contains(&text_item("opt_arg1")));
    assert!(ys.contains(&text_item("opt_arg2")));
}

#[test]
fn stable_repeated_setters_overrided_with_setter_repeated_setters() {
    // The whole-container setter after repeated-element calls replaces
    // the accumulated container entirely.
    let mut args = field(Category::Required);
    args.each = true;
    let mut b = Builder::new(vec![args]);
    b.set_each(0, text_item("arg1"), true).unwrap();
    b.set_each(0, text_item("arg2"), true).unwrap();
    b.set(0, Datum::List(vec![text_item("arg3"), text_item("arg4")]), true).unwrap();
    let my_struct = b.build().unwrap();

    let xs = list_of(&my_struct.values[0]);
    assert_eq!(xs.len(), 2);
    assert!(xs.contains(&text_item("arg3")));
    assert!(xs.contains(&text_item("arg4")));
}
