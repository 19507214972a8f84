use vstd::prelude::*;
use vstd::string::*;
use crate::config::ConfigError;
use crate::schema::{Annotation, AnnotationValue, FieldSchema, TypeArgs, TypeSyntax};
use crate::text::str_eq;
use crate::tree::{ParserTree, TreeModel};

verus! {

/// Why a record could not be compiled. Each variant names the offending
/// field or type where there is one.
#[derive(Debug)]
pub enum GenError {
    /// A type path with more than one segment (`a::B`).
    MultipleSegments,
    /// `Option` or `Vec` with zero or several type arguments.
    TypeArity(String),
    /// Type arguments of a form that the type does not take.
    TypeParameters(String),
    /// The field's type has no parser (a tuple, a reference, ...).
    UnresolvedField(String),
    /// `Cond` on a field whose type is not `Option<...>`.
    CondOnNonOptional(String),
    /// A recognized annotation whose value is not a string literal.
    NonStringAnnotation(String),
    /// A record with type parameters.
    GenericsUnsupported,
    /// A tagged union.
    EnumUnsupported,
    /// A record without named fields.
    PositionalUnsupported,
    /// The record's settings are contradictory.
    Config(ConfigError),
}

/// The mathematical value of a [`GenError`].
pub enum GenErrorModel {
    MultipleSegments,
    TypeArity(Seq<char>),
    TypeParameters(Seq<char>),
    UnresolvedField(Seq<char>),
    CondOnNonOptional(Seq<char>),
    NonStringAnnotation(Seq<char>),
    GenericsUnsupported,
    EnumUnsupported,
    PositionalUnsupported,
    Config,
}

impl View for GenError {
    type V = GenErrorModel;

    open spec fn view(&self) -> GenErrorModel {
        match self {
            GenError::MultipleSegments => GenErrorModel::MultipleSegments,
            GenError::TypeArity(s) => GenErrorModel::TypeArity(s@),
            GenError::TypeParameters(s) => GenErrorModel::TypeParameters(s@),
            GenError::UnresolvedField(s) => GenErrorModel::UnresolvedField(s@),
            GenError::CondOnNonOptional(s) => GenErrorModel::CondOnNonOptional(s@),
            GenError::NonStringAnnotation(s) => GenErrorModel::NonStringAnnotation(s@),
            GenError::GenericsUnsupported => GenErrorModel::GenericsUnsupported,
            GenError::EnumUnsupported => GenErrorModel::EnumUnsupported,
            GenError::PositionalUnsupported => GenErrorModel::PositionalUnsupported,
            GenError::Config(_) => GenErrorModel::Config,
        }
    }
}

pub open spec fn opt_tree_model(r: Result<Option<ParserTree>, GenError>) -> Result<
    Option<TreeModel>,
    GenErrorModel,
> {
    match r {
        Ok(Some(t)) => Ok(Some(t@)),
        Ok(None) => Ok(None),
        Err(e) => Err(e@),
    }
}

pub open spec fn tree_result_model(r: Result<ParserTree, GenError>) -> Result<
    TreeModel,
    GenErrorModel,
> {
    match r {
        Ok(t) => Ok(t@),
        Err(e) => Err(e@),
    }
}

/// The fixed-width integer types.
pub open spec fn is_int_name(s: Seq<char>) -> bool {
    s == "u8"@ || s == "u16"@ || s == "u32"@ || s == "u64"@ || s == "i8"@ || s == "i16"@ || s
        == "i32"@ || s == "i64"@
}

/// The runtime's reader for integer type `ty` in the given byte order.
pub open spec fn prim_name(ty: Seq<char>, big_endian: bool) -> Seq<char> {
    (if big_endian {
        "be_"@
    } else {
        "le_"@
    }) + ty
}

/// The last segment carries no type arguments.
pub open spec fn no_args(args: TypeArgs) -> bool {
    match args {
        TypeArgs::Angle(ts) => ts.len() == 0,
        TypeArgs::Paren => false,
    }
}

/// The tree inferred from a declared type: `Ok(None)` when the type has no
/// classification, an error when its shape is unsupported.
pub open spec fn type_tree(ty: TypeSyntax, big_endian: bool) -> Result<
    Option<TreeModel>,
    GenErrorModel,
>
    decreases ty,
{
    match ty {
        TypeSyntax::Other => Ok(None),
        TypeSyntax::Path { segments, args } => {
            if segments.len() != 1 {
                Err(GenErrorModel::MultipleSegments)
            } else {
                let id = segments[0]@;
                if id == "Option"@ || id == "Vec"@ {
                    match args {
                        TypeArgs::Angle(ts) => {
                            if ts.len() != 1 {
                                Err(GenErrorModel::TypeArity(id))
                            } else {
                                match type_tree(ts[0], big_endian) {
                                    Ok(Some(t)) => Ok(
                                        Some(
                                            if id == "Option"@ {
                                                TreeModel::Opt(
                                                    Box::new(TreeModel::Complete(Box::new(t))),
                                                )
                                            } else {
                                                TreeModel::Many0(Box::new(t))
                                            },
                                        ),
                                    ),
                                    other => other,
                                }
                            }
                        },
                        TypeArgs::Paren => Err(GenErrorModel::TypeParameters(id)),
                    }
                } else if !no_args(args) {
                    Err(GenErrorModel::TypeParameters(id))
                } else if is_int_name(id) {
                    Ok(Some(TreeModel::Primitive(prim_name(id, big_endian))))
                } else {
                    Ok(Some(TreeModel::CallParse(id)))
                }
            }
        },
    }
}

fn is_int_type(s: &str) -> (r: bool)
    ensures
        r == is_int_name(s@),
{
    str_eq(s, "u8") || str_eq(s, "u16") || str_eq(s, "u32") || str_eq(s, "u64") || str_eq(s, "i8")
        || str_eq(s, "i16") || str_eq(s, "i32") || str_eq(s, "i64")
}

/// Infers the parser of a declared type: integers read in the record's byte
/// order, `Option<T>` as `opt!(complete!(T))`, `Vec<T>` as `many0!(T)`, any
/// other single identifier as a call of that record's parser.
pub fn get_type_parser(ty: &TypeSyntax, big_endian: bool) -> (r: Result<
    Option<ParserTree>,
    GenError,
>)
    ensures
        opt_tree_model(r) == type_tree(*ty, big_endian),
    decreases ty,
{
    match ty {
        TypeSyntax::Other => Ok(None),
        TypeSyntax::Path { segments, args } => {
            if segments.len() != 1 {
                return Err(GenError::MultipleSegments);
            }
            let ident = &segments[0];
            let is_opt = str_eq(ident.as_str(), "Option");
            let is_vec = str_eq(ident.as_str(), "Vec");
            if is_opt || is_vec {
                match args {
                    TypeArgs::Angle(ts) => {
                        if ts.len() != 1 {
                            return Err(GenError::TypeArity(ident.clone()));
                        }
                        match get_type_parser(&ts[0], big_endian) {
                            Ok(Some(t)) => {
                                proof {
                                    reveal_strlit("Option");
                                    reveal_strlit("Vec");
                                }
                                if is_opt {
                                    let ghost c = ParserTree::Complete(Box::new(t));
                                    assert(c@ == TreeModel::Complete(Box::new(t@)));
                                    Ok(
                                        Some(
                                            ParserTree::Opt(
                                                Box::new(ParserTree::Complete(Box::new(t))),
                                            ),
                                        ),
                                    )
                                } else {
                                    Ok(Some(ParserTree::Many0(Box::new(t))))
                                }
                            },
                            Ok(None) => Ok(None),
                            Err(e) => Err(e),
                        }
                    },
                    TypeArgs::Paren => Err(GenError::TypeParameters(ident.clone())),
                }
            } else {
                let bare = match args {
                    TypeArgs::Angle(ts) => ts.len() == 0,
                    TypeArgs::Paren => false,
                };
                if !bare {
                    Err(GenError::TypeParameters(ident.clone()))
                } else if is_int_type(ident.as_str()) {
                    let mut name = String::from_str(
                        if big_endian {
                            "be_"
                        } else {
                            "le_"
                        },
                    );
                    name.append(ident.as_str());
                    Ok(Some(ParserTree::Primitive(name)))
                } else {
                    Ok(Some(ParserTree::CallParse(ident.clone())))
                }
            }
        },
    }
}

/// Entry `a` gives a value for `key`. Entries without a value are skipped.
pub open spec fn is_entry(a: Annotation, key: Seq<char>) -> bool {
    a.key@ == key && !(a.value is Absent)
}

/// The index of the first entry at or after `i` that gives a value for `key`.
pub open spec fn find_from(attrs: Seq<Annotation>, key: Seq<char>, i: int) -> Option<int>
    decreases attrs.len() - i,
{
    if i < 0 || i >= attrs.len() {
        None
    } else if is_entry(attrs[i], key) {
        Some(i)
    } else {
        find_from(attrs, key, i + 1)
    }
}

/// The first value that field `f` gives for `key`: `Ok(None)` when it gives
/// none, an error when that value is not a string literal. Later entries of
/// the same key are ignored.
pub open spec fn annotation(f: FieldSchema, key: Seq<char>) -> Result<
    Option<Seq<char>>,
    GenErrorModel,
> {
    match find_from(f.attrs@, key, 0) {
        None => Ok(None),
        Some(i) => match f.attrs@[i].value {
            AnnotationValue::Str(s) => Ok(Some(s@)),
            _ => Err(GenErrorModel::NonStringAnnotation(f.name@)),
        },
    }
}

/// The tree before any `Cond` or `Verify`: the override when there is one,
/// else what the declared type gives.
pub open spec fn field_parser(f: FieldSchema, big_endian: bool) -> Result<
    Option<TreeModel>,
    GenErrorModel,
> {
    match annotation(f, "ParseOverride"@) {
        Err(e) => Err(e),
        Ok(Some(x)) => Ok(Some(TreeModel::Raw(x))),
        Ok(None) => type_tree(f.ty, big_endian),
    }
}

/// `t` without its outer `complete!`.
pub open spec fn strip_complete(t: TreeModel) -> TreeModel {
    match t {
        TreeModel::Complete(x) => *x,
        _ => t,
    }
}

/// `t` under the field's `Cond`, which only an optional tree may take.
pub open spec fn with_cond(f: FieldSchema, t: TreeModel) -> Result<TreeModel, GenErrorModel> {
    match annotation(f, "Cond"@) {
        Err(e) => Err(e),
        Ok(None) => Ok(t),
        Ok(Some(c)) => match t {
            TreeModel::Opt(sub) => Ok(TreeModel::Cond(Box::new(strip_complete(*sub)), c)),
            _ => Err(GenErrorModel::CondOnNonOptional(f.name@)),
        },
    }
}

/// `t` under the field's `Verify`, bound to the field's name.
pub open spec fn with_verify(f: FieldSchema, t: TreeModel) -> Result<TreeModel, GenErrorModel> {
    match annotation(f, "Verify"@) {
        Err(e) => Err(e),
        Ok(None) => Ok(t),
        Ok(Some(v)) => Ok(TreeModel::Verify(Box::new(t), f.name@, v)),
    }
}

/// The tree of a field before `Verify`: override or type, then condition
/// (which an override bypasses).
pub open spec fn resolved_tree(f: FieldSchema, big_endian: bool) -> Result<TreeModel, GenErrorModel> {
    match field_parser(f, big_endian) {
        Err(e) => Err(e),
        Ok(None) => Err(GenErrorModel::UnresolvedField(f.name@)),
        Ok(Some(t)) => if annotation(f, "ParseOverride"@) is Ok && annotation(
            f,
            "ParseOverride"@,
        )->Ok_0 is Some {
            Ok(t)
        } else {
            with_cond(f, t)
        },
    }
}

/// The complete tree of a field: the resolved tree under its `Verify`.
pub open spec fn field_tree(f: FieldSchema, big_endian: bool) -> Result<TreeModel, GenErrorModel> {
    match resolved_tree(f, big_endian) {
        Err(e) => Err(e),
        Ok(t) => with_verify(f, t),
    }
}

fn find_annotation(attrs: &Vec<Annotation>, key: &str) -> (r: Option<usize>)
    ensures
        match r {
            None => find_from(attrs@, key@, 0) is None,
            Some(i) => find_from(attrs@, key@, 0) == Some(i as int) && i < attrs@.len(),
        },
{
    let mut i: usize = 0;
    while i < attrs.len()
        invariant
            0 <= i <= attrs@.len(),
            find_from(attrs@, key@, 0) == find_from(attrs@, key@, i as int),
        decreases attrs@.len() - i,
    {
        let a = &attrs[i];
        let present = match a.value {
            AnnotationValue::Absent => false,
            _ => true,
        };
        if present && str_eq(a.key.as_str(), key) {
            return Some(i);
        }
        i = i + 1;
    }
    None
}

fn annotation_text(f: &FieldSchema, key: &str) -> (r: Result<Option<String>, GenError>)
    ensures
        match r {
            Ok(Some(s)) => annotation(*f, key@) == Ok::<_, GenErrorModel>(Some(s@)),
            Ok(None) => annotation(*f, key@) == Ok::<_, GenErrorModel>(None::<Seq<char>>),
            Err(e) => annotation(*f, key@) == Err::<Option<Seq<char>>, _>(e@),
        },
{
    match find_annotation(&f.attrs, key) {
        None => Ok(None),
        Some(i) => match &f.attrs[i].value {
            AnnotationValue::Str(s) => Ok(Some(s.clone())),
            _ => Err(GenError::NonStringAnnotation(f.name.clone())),
        },
    }
}

/// The tree of a field before `Cond` and `Verify`: its `ParseOverride` text
/// when it has one, whatever its type; else the tree of its type.
pub fn get_parser(field: &FieldSchema, big_endian: bool) -> (r: Result<
    Option<ParserTree>,
    GenError,
>)
    ensures
        opt_tree_model(r) == field_parser(*field, big_endian),
{
    match annotation_text(field, "ParseOverride") {
        Err(e) => Err(e),
        Ok(Some(x)) => Ok(Some(ParserTree::Raw(x))),
        Ok(None) => get_type_parser(&field.ty, big_endian),
    }
}

/// Applies the field's `Cond`: `opt!(complete!(t))` becomes `cond!(c, t)`;
/// on any other tree a condition is an error.
pub fn patch_condition(field: &FieldSchema, p: ParserTree) -> (r: Result<ParserTree, GenError>)
    ensures
        tree_result_model(r) == with_cond(*field, p@),
{
    let ghost pm = p@;
    match annotation_text(field, "Cond") {
        Err(e) => Err(e),
        Ok(None) => Ok(p),
        Ok(Some(c)) => match p {
            ParserTree::Opt(sub) => {
                let ghost sm = (*sub)@;
                assert(pm == TreeModel::Opt(Box::new(sm)));
                let inner = match *sub {
                    ParserTree::Complete(x) => {
                        assert(sm == TreeModel::Complete(Box::new((*x)@)));
                        *x
                    },
                    other => other,
                };
                assert(inner@ == strip_complete(sm));
                Ok(ParserTree::Cond(Box::new(inner), c))
            },
            _ => Err(GenError::CondOnNonOptional(field.name.clone())),
        },
    }
}

/// Applies the field's `Verify` around `p`, binding the field's name.
pub fn add_verify(field: &FieldSchema, p: ParserTree) -> (r: Result<ParserTree, GenError>)
    ensures
        tree_result_model(r) == with_verify(*field, p@),
{
    match annotation_text(field, "Verify") {
        Err(e) => Err(e),
        Ok(None) => Ok(p),
        Ok(Some(v)) => Ok(ParserTree::Verify(Box::new(p), field.name.clone(), v)),
    }
}

/// The complete tree of one field.
pub fn build_field(field: &FieldSchema, big_endian: bool) -> (r: Result<ParserTree, GenError>)
    ensures
        tree_result_model(r) == field_tree(*field, big_endian),
{
    let overridden = match annotation_text(field, "ParseOverride") {
        Ok(Some(_)) => true,
        _ => false,
    };
    match get_parser(field, big_endian) {
        Err(e) => Err(e),
        Ok(None) => Err(GenError::UnresolvedField(field.name.clone())),
        Ok(Some(p)) => {
            let conditioned = if overridden {
                Ok(p)
            } else {
                patch_condition(field, p)
            };
            match conditioned {
                Err(e) => Err(e),
                Ok(p2) => add_verify(field, p2),
            }
        },
    }
}

} // verus!
