use nom_derive::compile::{add_verify, build_field, get_parser, get_type_parser, patch_condition, GenError};
use nom_derive::config::{Config, ConfigError, Meta};
use nom_derive::record::{get_optional_lifetime, impl_nom};
use nom_derive::schema::{Annotation, AnnotationValue, FieldSchema, RecordBody, RecordSchema, TypeArgs, TypeSyntax};
use nom_derive::text::str_eq;
use nom_derive::tree::ParserTree;

fn path(name: &str, args: Vec<TypeSyntax>) -> TypeSyntax {
    TypeSyntax::Path { segments: vec![name.to_string()], args: TypeArgs::Angle(args) }
}

fn ty(name: &str) -> TypeSyntax {
    path(name, vec![])
}

fn ann(key: &str, value: &str) -> Annotation {
    Annotation { key: key.to_string(), value: AnnotationValue::Str(value.to_string()) }
}

fn field(name: &str, t: TypeSyntax, attrs: Vec<Annotation>) -> FieldSchema {
    FieldSchema { name: name.to_string(), ty: t, attrs }
}

fn record(name: &str, metas: Vec<Meta>, fields: Vec<FieldSchema>) -> RecordSchema {
    RecordSchema {
        name: name.to_string(),
        lifetimes: vec![],
        type_params: 0,
        metas,
        body: RecordBody::Named(fields),
    }
}

fn ab_record(metas: Vec<Meta>) -> RecordSchema {
    record("S", metas, vec![field("a", ty("u32"), vec![]), field("b", ty("u64"), vec![])])
}

fn tree_text(f: &FieldSchema, big_endian: bool) -> String {
    build_field(f, big_endian).ok().unwrap().render()
}

#[test]
fn round_trip_record_big_endian() {
    let text = impl_nom(&ab_record(vec![Meta::BigEndian])).ok().unwrap();
    assert_eq!(
        text,
        "impl S { fn parse(i: &[u8]) -> IResult<&[u8], S> { do_parse!{ i, a: be_u32 >> b: be_u64 >> ( S { a, b, } ) } } }"
    );
}

#[test]
fn round_trip_record_default_is_big_endian() {
    let text = impl_nom(&ab_record(vec![])).ok().unwrap();
    assert!(text.contains("a: be_u32 >> b: be_u64 >> "));
}

#[test]
fn round_trip_record_little_endian() {
    let text = impl_nom(&ab_record(vec![Meta::LittleEndian])).ok().unwrap();
    assert_eq!(
        text,
        "impl S { fn parse(i: &[u8]) -> IResult<&[u8], S> { do_parse!{ i, a: le_u32 >> b: le_u64 >> ( S { a, b, } ) } } }"
    );
}

#[test]
fn compile_twice_is_identical() {
    let s = record(
        "R",
        vec![],
        vec![
            field("n", ty("u8"), vec![]),
            field("o", path("Option", vec![ty("u16")]), vec![ann("Cond", "n > 0"), ann("Verify", "o.is_some()")]),
        ],
    );
    let first = impl_nom(&s).ok().unwrap();
    let second = impl_nom(&s).ok().unwrap();
    assert_eq!(first, second);
}

#[test]
fn fields_keep_declaration_order() {
    let s = record(
        "R",
        vec![],
        vec![
            field("z", ty("u8"), vec![ann("Verify", "z < 4")]),
            field("y", ty("Other"), vec![]),
            field("x", ty("i16"), vec![ann("ParseOverride", "take!(2)")]),
        ],
    );
    let text = impl_nom(&s).ok().unwrap();
    let z = text.find("z: verify!(be_u8, |z| { z < 4 }) >> ").unwrap();
    let y = text.find("y: call!(Other::parse) >> ").unwrap();
    let x = text.find("x: take!(2) >> ").unwrap();
    assert!(z < y && y < x);
    assert!(text.contains("( R { z, y, x, } )"));
}

#[test]
fn override_replaces_any_type() {
    let f = field("t", TypeSyntax::Other, vec![ann("ParseOverride", "take!(3)")]);
    match get_parser(&f, true).ok().unwrap() {
        Some(ParserTree::Raw(s)) => assert_eq!(s, "take!(3)"),
        _ => panic!("override not taken"),
    }
    assert_eq!(tree_text(&f, true), "take!(3)");
}

#[test]
fn override_skips_condition() {
    let f = field("t", ty("u8"), vec![ann("Cond", "true"), ann("ParseOverride", "be_u8")]);
    assert_eq!(tree_text(&f, true), "be_u8");
}

#[test]
fn override_then_verify() {
    let f = field("t", ty("u8"), vec![ann("ParseOverride", "take!(1)"), ann("Verify", "t.len() == 1")]);
    assert_eq!(tree_text(&f, true), "verify!(take!(1), |t| { t.len() == 1 })");
}

#[test]
fn cond_on_plain_field_fails() {
    let f = field("n", ty("u32"), vec![ann("Cond", "flag")]);
    match build_field(&f, true) {
        Err(GenError::CondOnNonOptional(name)) => assert_eq!(name, "n"),
        _ => panic!("expected a condition error"),
    }
}

#[test]
fn cond_on_vec_field_fails() {
    let f = field("v", path("Vec", vec![ty("u8")]), vec![ann("Cond", "flag")]);
    assert!(matches!(build_field(&f, true), Err(GenError::CondOnNonOptional(_))));
}

#[test]
fn cond_on_option_strips_complete() {
    let f = field("o", path("Option", vec![ty("u8")]), vec![ann("Cond", "a == 1")]);
    match build_field(&f, true).ok().unwrap() {
        ParserTree::Cond(inner, c) => {
            assert_eq!(c, "a == 1");
            assert!(matches!(*inner, ParserTree::Primitive(_)));
        }
        _ => panic!("expected a conditional tree"),
    }
    assert_eq!(tree_text(&f, true), "cond!(a == 1, be_u8)");
}

#[test]
fn patch_condition_without_cond_keeps_tree() {
    let f = field("o", ty("u8"), vec![]);
    let p = patch_condition(&f, ParserTree::Primitive("be_u8".to_string())).ok().unwrap();
    assert_eq!(p.render(), "be_u8");
}

#[test]
fn verify_wraps_conditioned_tree() {
    let f = field(
        "x",
        path("Option", vec![ty("u16")]),
        vec![ann("Verify", "x.is_none()"), ann("Cond", "c")],
    );
    assert_eq!(tree_text(&f, false), "verify!(cond!(c, le_u16), |x| { x.is_none() })");
}

#[test]
fn add_verify_binds_field_name() {
    let f = field("len", ty("u8"), vec![ann("Verify", "len < 10")]);
    let p = add_verify(&f, ParserTree::Primitive("be_u8".to_string())).ok().unwrap();
    assert_eq!(p.render(), "verify!(be_u8, |len| { len < 10 })");
}

#[test]
fn option_without_argument_fails() {
    match get_type_parser(&path("Option", vec![]), true) {
        Err(GenError::TypeArity(name)) => assert_eq!(name, "Option"),
        _ => panic!("expected an arity error"),
    }
}

#[test]
fn vec_with_two_arguments_fails() {
    match get_type_parser(&path("Vec", vec![ty("u8"), ty("u8")]), true) {
        Err(GenError::TypeArity(name)) => assert_eq!(name, "Vec"),
        _ => panic!("expected an arity error"),
    }
}

#[test]
fn parenthesized_option_fails() {
    let t = TypeSyntax::Path { segments: vec!["Option".to_string()], args: TypeArgs::Paren };
    assert!(matches!(get_type_parser(&t, true), Err(GenError::TypeParameters(_))));
}

#[test]
fn named_type_with_arguments_fails() {
    let t = path("Foo", vec![ty("u8")]);
    match get_type_parser(&t, true) {
        Err(GenError::TypeParameters(name)) => assert_eq!(name, "Foo"),
        _ => panic!("expected a parameter error"),
    }
}

#[test]
fn multi_segment_path_fails() {
    let t = TypeSyntax::Path {
        segments: vec!["std".to_string(), "Foo".to_string()],
        args: TypeArgs::Angle(vec![]),
    };
    assert!(matches!(get_type_parser(&t, true), Err(GenError::MultipleSegments)));
}

#[test]
fn arity_error_aborts_record() {
    let s = record("R", vec![], vec![field("a", ty("u8"), vec![]), field("v", path("Vec", vec![]), vec![])]);
    assert!(matches!(impl_nom(&s), Err(GenError::TypeArity(_))));
}

#[test]
fn unclassified_type_has_no_parser() {
    assert!(matches!(get_type_parser(&TypeSyntax::Other, true), Ok(None)));
    let s = record("R", vec![], vec![field("t", TypeSyntax::Other, vec![])]);
    match impl_nom(&s) {
        Err(GenError::UnresolvedField(name)) => assert_eq!(name, "t"),
        _ => panic!("expected an unresolved field"),
    }
}

#[test]
fn nested_wrappers_lower_recursively() {
    let t = path("Vec", vec![path("Option", vec![ty("Inner")])]);
    let p = get_type_parser(&t, true).ok().unwrap().unwrap();
    assert_eq!(p.render(), "many0!(opt!(complete!(call!(Inner::parse))))");
    let q = get_type_parser(&path("Option", vec![TypeSyntax::Other]), true).ok().unwrap();
    assert!(q.is_none());
}

#[test]
fn every_integer_width_and_sign() {
    for (name, be, le) in [
        ("u8", "be_u8", "le_u8"),
        ("u16", "be_u16", "le_u16"),
        ("u32", "be_u32", "le_u32"),
        ("u64", "be_u64", "le_u64"),
        ("i8", "be_i8", "le_i8"),
        ("i16", "be_i16", "le_i16"),
        ("i32", "be_i32", "le_i32"),
        ("i64", "be_i64", "le_i64"),
    ] {
        assert_eq!(get_type_parser(&ty(name), true).ok().unwrap().unwrap().render(), be);
        assert_eq!(get_type_parser(&ty(name), false).ok().unwrap().unwrap().render(), le);
    }
    assert_eq!(get_type_parser(&ty("u128"), true).ok().unwrap().unwrap().render(), "call!(u128::parse)");
}

#[test]
fn both_byte_orders_fail_config() {
    let r = Config::from_meta_list("S".to_string(), &[Meta::BigEndian, Meta::LittleEndian]);
    assert!(matches!(r, Err(ConfigError)));
    let s = record("S", vec![Meta::LittleEndian, Meta::BigEndian], vec![field("t", TypeSyntax::Other, vec![])]);
    assert!(matches!(impl_nom(&s), Err(GenError::Config(ConfigError))));
}

#[test]
fn config_reads_settings() {
    let c = Config::from_meta_list("S".to_string(), &[Meta::Debug, Meta::LittleEndian]).ok().unwrap();
    assert_eq!(c.struct_name, "S");
    assert!(!c.big_endian);
    assert!(c.debug);
    let d = Config::from_meta_list("T".to_string(), &[]).ok().unwrap();
    assert!(d.big_endian);
    assert!(!d.debug);
}

#[test]
fn non_string_annotation_fails() {
    let f = field("n", ty("u8"), vec![Annotation { key: "Verify".to_string(), value: AnnotationValue::Literal }]);
    match build_field(&f, true) {
        Err(GenError::NonStringAnnotation(name)) => assert_eq!(name, "n"),
        _ => panic!("expected an annotation error"),
    }
}

#[test]
fn first_annotation_wins_and_bare_keys_are_skipped() {
    let f = field(
        "n",
        ty("u8"),
        vec![
            Annotation { key: "Verify".to_string(), value: AnnotationValue::Absent },
            ann("Other", "ignored"),
            ann("Verify", "n > 1"),
            ann("Verify", "n > 2"),
        ],
    );
    assert_eq!(tree_text(&f, true), "verify!(be_u8, |n| { n > 1 })");
}

#[test]
fn lifetimes_are_carried() {
    let mut s = ab_record(vec![]);
    s.lifetimes = vec!["'a".to_string(), "'b".to_string()];
    assert_eq!(get_optional_lifetime(&s).ok().unwrap().unwrap(), "<'a,'b>");
    let text = impl_nom(&s).ok().unwrap();
    assert!(text.starts_with("impl<'a,'b> S<'a,'b> { "));
}

#[test]
fn no_lifetimes_give_none() {
    let s = ab_record(vec![]);
    assert!(get_optional_lifetime(&s).ok().unwrap().is_none());
}

#[test]
fn type_parameters_fail() {
    let mut s = ab_record(vec![]);
    s.lifetimes = vec!["'a".to_string()];
    s.type_params = 1;
    assert!(matches!(get_optional_lifetime(&s), Err(GenError::GenericsUnsupported)));
    assert!(matches!(impl_nom(&s), Err(GenError::GenericsUnsupported)));
}

#[test]
fn unsupported_record_shapes_fail() {
    let mut s = ab_record(vec![]);
    s.body = RecordBody::Enum;
    assert!(matches!(impl_nom(&s), Err(GenError::EnumUnsupported)));
    s.body = RecordBody::Tuple;
    assert!(matches!(impl_nom(&s), Err(GenError::PositionalUnsupported)));
    s.body = RecordBody::Unit;
    assert!(matches!(impl_nom(&s), Err(GenError::PositionalUnsupported)));
}

#[test]
fn empty_record() {
    let s = record("E", vec![], vec![]);
    assert_eq!(
        impl_nom(&s).ok().unwrap(),
        "impl E { fn parse(i: &[u8]) -> IResult<&[u8], E> { do_parse!{ i, ( E { } ) } } }"
    );
}

#[test]
fn render_each_variant() {
    let leaf = || Box::new(ParserTree::Primitive("be_u8".to_string()));
    assert_eq!(ParserTree::Cond(leaf(), "c".to_string()).render(), "cond!(c, be_u8)");
    assert_eq!(
        ParserTree::Verify(leaf(), "v".to_string(), "v > 0".to_string()).render(),
        "verify!(be_u8, |v| { v > 0 })"
    );
    assert_eq!(ParserTree::Complete(leaf()).render(), "complete!(be_u8)");
    assert_eq!(ParserTree::Opt(leaf()).render(), "opt!(be_u8)");
    assert_eq!(ParserTree::Many0(leaf()).render(), "many0!(be_u8)");
    assert_eq!(ParserTree::CallParse("Sub".to_string()).render(), "call!(Sub::parse)");
    assert_eq!(ParserTree::Raw("tag!(\"x\")".to_string()).render(), "tag!(\"x\")");
}

#[test]
fn string_comparison() {
    assert!(str_eq("abc", "abc"));
    assert!(!str_eq("abc", "abd"));
    assert!(!str_eq("ab", "abc"));
    assert!(str_eq("", ""));
}
