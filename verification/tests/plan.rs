use tidy_builder::attrs::{Attributes, Each, FieldAttr, Lazy, Value};
use tidy_builder::err::BuilderError;
use tidy_builder::generics::{
    GenericParam, GenericParamName, param_to_name, split_param_names, split_params,
};
use tidy_builder::wrap::{is_option, type_ident, wrapped_in, wrapped_in_option};
use tidy_builder::builder;
use tidy_builder::classify::FieldDecl;
use tidy_builder::err::Error;
use tidy_builder::generator::{RecordSpec, SetterKind};
use tidy_builder::wrap::TypeModel;

fn expect_rejection(
    r: Result<tidy_builder::generator::BuilderPlan, (usize, Error)>,
) -> (usize, Error) {
    match r {
        Err(e) => e,
        Ok(_) => panic!("expected a rejection"),
    }
}

fn plain_ty(name: &str) -> TypeModel {
    TypeModel { name: name.as_bytes().to_vec(), args: Vec::new() }
}

fn option_ty(inner: &str) -> TypeModel {
    TypeModel { name: b"Option".to_vec(), args: vec![plain_ty(inner)] }
}

fn vec_ty(inner: &str) -> TypeModel {
    TypeModel { name: b"Vec".to_vec(), args: vec![plain_ty(inner)] }
}

fn decl(name: &str, ty: TypeModel, attrs: Vec<FieldAttr>) -> FieldDecl {
    let mut folded = Attributes::empty();
    for a in attrs {
        folded.apply(a);
    }
    FieldDecl { name: name.as_bytes().to_vec(), ty, attrs: folded }
}

#[test]
fn plan_names_slots_and_guards() {
    let record = RecordSpec {
        ident: b"Test".to_vec(),
        generics: Vec::new(),
        fields: vec![
            decl("my_field", plain_ty("usize"), vec![]),
            decl("opt1", option_ty("usize"), vec![]),
            decl("second_one", plain_ty("u8"), vec![]),
        ],
    };
    let plan = builder(record).unwrap();

    assert_eq!(plan.b_ident, b"TestBuilder".to_vec());
    assert_eq!(plan.slot_count, 2);
    assert_eq!(plan.slot_of, vec![Some(0), None, Some(1)]);
    assert!(!plan.impl_default);

    // One guard per required field, in slot order, named in upper camel
    // case behind the guard prefix.
    assert_eq!(plan.guards.len(), 2);
    assert_eq!(plan.guards[0].slot, 0);
    assert_eq!(plan.guards[0].trait_name, b"HasMyField".to_vec());
    assert_eq!(plan.guards[1].slot, 1);
    assert_eq!(plan.guards[1].trait_name, b"HasSecondOne".to_vec());

    // The required setters flip exactly their own slot; the optional
    // setter preserves the state.
    assert_eq!(plan.setters.len(), 3);
    assert_eq!(plan.setters[0].name, b"my_field".to_vec());
    assert_eq!(plan.setters[0].flips, Some(0));
    assert_eq!(plan.setters[1].name, b"second_one".to_vec());
    assert_eq!(plan.setters[1].flips, Some(1));
    assert_eq!(plan.setters[2].name, b"opt1".to_vec());
    assert_eq!(plan.setters[2].flips, None);
    assert!(!plan.entry_async);
    assert!(!plan.build_async);
    assert!(!plan.build_fallible);
}

#[test]
fn plan_setter_shapes() {
    let record = RecordSpec {
        ident: b"Test".to_vec(),
        generics: Vec::new(),
        fields: vec![
            decl(
                "args",
                vec_ty("usize"),
                vec![FieldAttr::Each(Each { ident: b"arg".to_vec(), callable: None })],
            ),
            decl("renamed", plain_ty("usize"), vec![FieldAttr::Name(b"set_renamed".to_vec())]),
            decl("gated", plain_ty("usize"), vec![FieldAttr::Once]),
            decl("hidden_one", plain_ty("usize"), vec![FieldAttr::Hide]),
            decl(
                "skipped",
                option_ty("usize"),
                vec![FieldAttr::Skip],
            ),
        ],
    };
    let plan = builder(record).unwrap();

    // args: the repeated-element setter and the whole-container setter,
    // both flipping slot 0.
    assert_eq!(plan.setters[0].name, b"arg".to_vec());
    assert_eq!(plan.setters[0].kind, SetterKind::Each);
    assert_eq!(plan.setters[0].flips, Some(0));
    assert_eq!(plan.setters[1].name, b"args".to_vec());
    assert_eq!(plan.setters[1].kind, SetterKind::Base);
    assert_eq!(plan.setters[1].flips, Some(0));

    // renamed: the base setter under its new name.
    assert_eq!(plan.setters[2].name, b"set_renamed".to_vec());

    // gated: exposed only while its own slot is false.
    assert_eq!(plan.setters[3].name, b"gated".to_vec());
    assert_eq!(plan.setters[3].once_gate, Some(2));

    // hidden_one: present but not exported.
    assert_eq!(plan.setters[4].name, b"hidden_one".to_vec());
    assert!(plan.setters[4].hidden);

    // skipped: no setter at all for the skipped optional field.
    assert_eq!(plan.setters.len(), 5);
    assert!(plan.setters.iter().all(|s| s.field != 4));
}

#[test]
fn plan_each_setter_shadows_base_of_same_name() {
    let record = RecordSpec {
        ident: b"Test".to_vec(),
        generics: Vec::new(),
        fields: vec![
            decl(
                "args",
                vec_ty("usize"),
                vec![FieldAttr::Each(Each { ident: b"args".to_vec(), callable: None })],
            ),
        ],
    };
    let plan = builder(record).unwrap();
    assert_eq!(plan.setters.len(), 1);
    assert_eq!(plan.setters[0].name, b"args".to_vec());
    assert_eq!(plan.setters[0].kind, SetterKind::Each);
}

#[test]
fn plan_lazy_setters_and_async_flags() {
    let record = RecordSpec {
        ident: b"Test".to_vec(),
        generics: Vec::new(),
        fields: vec![
            decl(
                "foo",
                plain_ty("usize"),
                vec![FieldAttr::Lazy(Lazy { do_override: true, asyncness: true, callable: None })],
            ),
            decl(
                "bar",
                plain_ty("usize"),
                vec![FieldAttr::Value(Value::Lit(b"5".to_vec()))],
            ),
        ],
    };
    let plan = builder(record).unwrap();

    // foo stays required: a lazy directive without a default resolver
    // gives the field no value of its own.
    assert_eq!(plan.slot_of, vec![Some(0), None]);
    let lazy = plan.setters.iter().find(|s| s.kind == SetterKind::Lazy).unwrap();
    assert_eq!(lazy.name, b"lazy_foo".to_vec());
    assert_eq!(lazy.flips, None);

    assert!(!plan.entry_async);
    assert!(plan.build_async);
    assert!(!plan.build_fallible);
}

#[test]
fn plan_default_entry_for_zero_required_fields() {
    let record = RecordSpec {
        ident: b"Test".to_vec(),
        generics: Vec::new(),
        fields: vec![decl("opt1", option_ty("usize"), vec![])],
    };
    let plan = builder(record).unwrap();
    assert_eq!(plan.slot_count, 0);
    assert!(plan.impl_default);
}

#[test]
fn classifier_rejections() {
    // A fallback on an optional field is contradictory.
    let record = RecordSpec {
        ident: b"Test".to_vec(),
        generics: Vec::new(),
        fields: vec![
            decl("ok_field", plain_ty("usize"), vec![]),
            decl(
                "bad",
                option_ty("usize"),
                vec![FieldAttr::Value(Value::Default)],
            ),
        ],
    };
    assert_eq!(expect_rejection(builder(record)), (1, Error::OptionalWithValue));

    // Skipping a required field leaves no way to supply it.
    let record = RecordSpec {
        ident: b"Test".to_vec(),
        generics: Vec::new(),
        fields: vec![decl("bad", plain_ty("usize"), vec![FieldAttr::Skip])],
    };
    assert_eq!(expect_rejection(builder(record)), (0, Error::SkipOnRequired));

    // `once` off a required field is meaningless.
    let record = RecordSpec {
        ident: b"Test".to_vec(),
        generics: Vec::new(),
        fields: vec![decl("bad", option_ty("usize"), vec![FieldAttr::Once])],
    };
    assert_eq!(expect_rejection(builder(record)), (0, Error::OnceOnNonRequired));

    let record = RecordSpec {
        ident: b"Test".to_vec(),
        generics: Vec::new(),
        fields: vec![
            decl(
                "bad",
                plain_ty("usize"),
                vec![FieldAttr::Value(Value::Lit(b"1".to_vec())), FieldAttr::Once],
            ),
        ],
    };
    assert_eq!(expect_rejection(builder(record)), (0, Error::OnceOnNonRequired));
}

#[test]
fn error_messages() {
    assert_eq!(Error::OptionalWithValue.message(), "optional field cannot have default value");
    assert_eq!(Error::SkipOnRequired.message(), "cannot skip a required field");
    assert_eq!(
        Error::OnceOnNonRequired.message(),
        "once cannot be applied to optional or valued fields",
    );
    assert_eq!(Error::UnknownAttr.message(), "unknown attribute");
    assert_eq!(Error::MalformedAttr.message(), "malformed attribute");
    assert_eq!(Error::MalformedCallable.message(), "expected a function path or a closure");
    assert_eq!(BuilderError::Enum.message(), "Builder does not support enums");
    assert_eq!(BuilderError::Union.message(), "Builder does not support unions");
    assert_eq!(BuilderError::UnnamedFields.message(), "Builder does not support unnamed fields");
    assert_eq!(BuilderError::UnitStruct.message(), "Builder does not support unit structs");
}

#[test]
fn type_wrappers() {
    let opt = option_ty("usize");
    let plain = plain_ty("usize");
    let vecs = vec_ty("u8");

    assert!(is_option(&opt).is_some());
    assert_eq!(is_option(&opt).unwrap().name, b"usize".to_vec());
    assert!(is_option(&plain).is_none());
    assert!(wrapped_in_option(&vecs).is_none());
    assert_eq!(type_ident(&vecs), &b"Vec".to_vec());
    assert!(wrapped_in(&vecs, Some(&b"Vec".to_vec())).is_some());
    assert!(wrapped_in(&vecs, Some(&b"Option".to_vec())).is_none());
    assert_eq!(wrapped_in(&vecs, None).unwrap().name, b"u8".to_vec());
}

#[test]
fn generic_parameters_split_by_kind() {
    let params = vec![
        GenericParam {
            name: GenericParamName::Lifetime(b"'a".to_vec()),
            decl: b"'a: 'b".to_vec(),
        },
        GenericParam {
            name: GenericParamName::Type(b"T".to_vec()),
            decl: b"T: Display".to_vec(),
        },
        GenericParam {
            name: GenericParamName::Const(b"N".to_vec()),
            decl: b"const N: usize".to_vec(),
        },
        GenericParam { name: GenericParamName::Type(b"U".to_vec()), decl: b"U".to_vec() },
    ];
    let names = param_to_name(&params);
    assert_eq!(names.len(), 4);
    let (lt_n, ct_n, ty_n) = split_param_names(names);
    assert_eq!(lt_n.len(), 1);
    assert_eq!(ct_n.len(), 1);
    assert_eq!(ty_n.len(), 2);
    let (lt, ct, ty) = split_params(params);
    assert_eq!(lt.len(), 1);
    assert_eq!(lt[0].decl, b"'a: 'b".to_vec());
    assert_eq!(ct.len(), 1);
    assert_eq!(ct[0].decl, b"const N: usize".to_vec());
    assert_eq!(ty.len(), 2);
    assert_eq!(ty[0].decl, b"T: Display".to_vec());
    assert_eq!(ty[1].decl, b"U".to_vec());
}
