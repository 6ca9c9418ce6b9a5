use tidy_builder::builder;
use tidy_builder::classify::{Category, FieldDecl};
use tidy_builder::generator::RecordSpec;
use tidy_builder::machine::{BuildError, Builder, Datum, FieldRt, Item, Scalar};
use tidy_builder::parse::parse_attrs;
use tidy_builder::wrap::TypeModel;

fn bytes(s: &str) -> Vec<u8> {
    s.as_bytes().to_vec()
}

fn u(n: u64) -> Datum {
    Datum::Item(Item::Single(Scalar::U64(n)))
}

fn single(n: u64) -> Item {
    Item::Single(Scalar::U64(n))
}

fn plain_ty(name: &str) -> TypeModel {
    TypeModel { name: bytes(name), args: Vec::new() }
}

fn decl(name: &str, ty: TypeModel, directives: &[&str]) -> FieldDecl {
    let texts: Vec<Vec<u8>> = directives.iter().map(|d| bytes(d)).collect();
    FieldDecl { name: bytes(name), ty, attrs: parse_attrs(&texts).unwrap() }
}

#[test]
fn directives_to_plan_to_record() {
    // The whole path: directive texts through the parser, fields through
    // the classifier and synthesizer, and the synthesized schema run on
    // the builder state machine.
    let record = RecordSpec {
        ident: bytes("Test"),
        generics: Vec::new(),
        fields: vec![
            decl("a", plain_ty("u8"), &[]),
            decl(
                "b",
                TypeModel { name: bytes("Option"), args: vec![plain_ty("u8")] },
                &[],
            ),
            decl("c", plain_ty("u8"), &["value = 7"]),
            decl(
                "args",
                TypeModel { name: bytes("Vec"), args: vec![plain_ty("u8")] },
                &["each = arg"],
            ),
        ],
    };
    let plan = builder(record).unwrap();
    assert_eq!(plan.slot_count, 2);
    assert_eq!(plan.fields[0].category, Category::Required);
    assert_eq!(plan.fields[1].category, Category::Optional);
    assert_eq!(plan.fields[2].category, Category::Defaulted);
    assert_eq!(plan.fields[3].category, Category::Required);

    // The driver resolves the fallback expression `7`; everything else
    // comes from the classified fields.
    let schema: Vec<FieldRt> = plan
        .fields
        .iter()
        .map(|f| {
            let fallback = if f.category == Category::Defaulted { Some(u(7)) } else { None };
            FieldRt::of_spec(f, fallback, None)
        })
        .collect();

    // a(5).arg(1).arg(2).build() succeeds with b empty and c defaulted.
    let mut b = Builder::new(schema);
    b.set(0, u(5), true).unwrap();
    b.set_each(3, single(1), true).unwrap();
    b.set_each(3, single(2), true).unwrap();
    let rec = b.build().unwrap();
    assert_eq!(rec.values[0], Some(u(5)));
    assert_eq!(rec.values[1], None);
    assert_eq!(rec.values[2], Some(u(7)));
    assert_eq!(rec.values[3], Some(Datum::List(vec![single(1), single(2)])));
}

#[test]
fn omitting_one_required_setter_in_the_pipeline() {
    let record = RecordSpec {
        ident: bytes("Test"),
        generics: Vec::new(),
        fields: vec![decl("a", plain_ty("u8"), &[]), decl("z", plain_ty("u8"), &[])],
    };
    let plan = builder(record).unwrap();
    let schema: Vec<FieldRt> =
        plan.fields.iter().map(|f| FieldRt::of_spec(f, None, None)).collect();
    let mut b = Builder::new(schema);
    b.set(0, u(5), true).unwrap();
    assert_eq!(b.build(), Err(BuildError::Missing(1)));
}
