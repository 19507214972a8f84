use vstd::prelude::*;
use vstd::string::*;
use crate::compile::{build_field, field_tree, tree_result_model, GenError, GenErrorModel};
use crate::config::{conflicting_byte_order, Config, Meta};
use crate::schema::{FieldSchema, RecordBody, RecordSchema};
use crate::tree::{render_model, TreeModel};

verus! {

/// The lifetimes `lts[0..n]`, separated by commas.
pub open spec fn lifetime_list(lts: Seq<String>, n: int) -> Seq<char>
    decreases n,
{
    if n <= 0 {
        Seq::empty()
    } else if n == 1 {
        lts[0]@
    } else {
        lifetime_list(lts, n - 1) + ","@ + lts[n - 1]@
    }
}

/// The record's generic parameter list (`<'a,'b>`): `None` when it has no
/// lifetimes; type parameters beside lifetimes are an error.
pub open spec fn lifetime_params(s: RecordSchema) -> Result<Option<Seq<char>>, GenErrorModel> {
    if s.lifetimes@.len() == 0 {
        Ok(None)
    } else if s.type_params > 0 {
        Err(GenErrorModel::GenericsUnsupported)
    } else {
        Ok(Some("<"@ + lifetime_list(s.lifetimes@, s.lifetimes@.len() as int) + ">"@))
    }
}

/// The byte order of a record with these settings: big-endian unless
/// little-endian is declared.
pub open spec fn big_endian_of(metas: Seq<Meta>) -> bool {
    !metas.contains(Meta::LittleEndian)
}

/// The trees of `fields[0..n]`, or the error of the first field that has none.
pub open spec fn field_trees(fields: Seq<FieldSchema>, big_endian: bool, n: int) -> Result<
    Seq<TreeModel>,
    GenErrorModel,
>
    decreases n,
{
    if n <= 0 {
        Ok(Seq::empty())
    } else {
        match field_trees(fields, big_endian, n - 1) {
            Err(e) => Err(e),
            Ok(ts) => match field_tree(fields[n - 1], big_endian) {
                Err(e) => Err(e),
                Ok(t) => Ok(ts.push(t)),
            },
        }
    }
}

/// One step of the sequential parse: bind `name` to what `t` parses.
pub open spec fn field_step(name: Seq<char>, t: TreeModel) -> Seq<char> {
    name + ": "@ + render_model(t) + " >> "@
}

/// The steps of the first `trees.len()` fields, in declaration order.
pub open spec fn steps_text(fields: Seq<FieldSchema>, trees: Seq<TreeModel>) -> Seq<char>
    decreases trees.len(),
{
    if trees.len() == 0 {
        Seq::empty()
    } else {
        steps_text(fields, trees.drop_last()) + field_step(
            fields[trees.len() - 1].name@,
            trees.last(),
        )
    }
}

/// The names of `fields[0..n]`, each followed by a comma.
pub open spec fn idents_text(fields: Seq<FieldSchema>, n: int) -> Seq<char>
    decreases n,
{
    if n <= 0 {
        Seq::empty()
    } else {
        idents_text(fields, n - 1) + fields[n - 1].name@ + ", "@
    }
}

/// The generated parse method of record `name`.
pub open spec fn procedure_text(
    name: Seq<char>,
    lt: Seq<char>,
    steps: Seq<char>,
    idents: Seq<char>,
) -> Seq<char> {
    "impl"@ + lt + " "@ + name + lt + " { fn parse(i: &[u8]) -> IResult<&[u8], "@ + name
        + "> { do_parse!{ i, "@ + steps + "( "@ + name + " { "@ + idents + "} ) } } }"@
}

/// What compiling record `s` gives: its settings are checked first, then its
/// generics and shape, then each field in order.
pub open spec fn record_text(s: RecordSchema) -> Result<Seq<char>, GenErrorModel> {
    if conflicting_byte_order(s.metas@) {
        Err(GenErrorModel::Config)
    } else {
        match lifetime_params(s) {
            Err(e) => Err(e),
            Ok(lt) => match s.body {
                RecordBody::Enum => Err(GenErrorModel::EnumUnsupported),
                RecordBody::Tuple => Err(GenErrorModel::PositionalUnsupported),
                RecordBody::Unit => Err(GenErrorModel::PositionalUnsupported),
                RecordBody::Named(fields) => match field_trees(
                    fields@,
                    big_endian_of(s.metas@),
                    fields@.len() as int,
                ) {
                    Err(e) => Err(e),
                    Ok(ts) => Ok(
                        procedure_text(
                            s.name@,
                            match lt {
                                Some(l) => l,
                                None => Seq::empty(),
                            },
                            steps_text(fields@, ts),
                            idents_text(fields@, fields@.len() as int),
                        ),
                    ),
                },
            },
        }
    }
}

pub open spec fn text_result_model(r: Result<String, GenError>) -> Result<Seq<char>, GenErrorModel> {
    match r {
        Ok(s) => Ok(s@),
        Err(e) => Err(e@),
    }
}

/// Once a field fails, every longer prefix fails with the same error.
proof fn lemma_trees_err(fields: Seq<FieldSchema>, big_endian: bool, i: int, n: int)
    requires
        i <= n,
        field_trees(fields, big_endian, i) is Err,
    ensures
        field_trees(fields, big_endian, n) == field_trees(fields, big_endian, i),
    decreases n - i,
{
    if i < n {
        lemma_trees_err(fields, big_endian, i, n - 1);
    }
}

/// The record's generic parameter list, if it has lifetimes.
pub fn get_optional_lifetime(ast: &RecordSchema) -> (r: Result<Option<String>, GenError>)
    ensures
        match r {
            Ok(Some(s)) => lifetime_params(*ast) == Ok::<_, GenErrorModel>(Some(s@)),
            Ok(None) => lifetime_params(*ast) == Ok::<_, GenErrorModel>(None::<Seq<char>>),
            Err(e) => lifetime_params(*ast) == Err::<Option<Seq<char>>, _>(e@),
        },
{
    let n = ast.lifetimes.len();
    if n == 0 {
        return Ok(None);
    }
    if ast.type_params > 0 {
        return Err(GenError::GenericsUnsupported);
    }
    let mut res = String::from_str("<");
    res.append(ast.lifetimes[0].as_str());
    let mut i: usize = 1;
    while i < n
        invariant
            n == ast.lifetimes@.len(),
            1 <= i <= n,
            res@ == "<"@ + lifetime_list(ast.lifetimes@, i as int),
        decreases n - i,
    {
        res.append(",");
        res.append(ast.lifetimes[i].as_str());
        i = i + 1;
    }
    res.append(">");
    Ok(Some(res))
}

/// Compiles a record into the text of its parse method: the fields are read
/// in declaration order, each bound to its name, and the record is built from
/// the bindings.
pub fn impl_nom(ast: &RecordSchema) -> (r: Result<String, GenError>)
    ensures
        text_result_model(r) == record_text(*ast),
{
    let config = match Config::from_meta_list(ast.name.clone(), ast.metas.as_slice()) {
        Ok(c) => c,
        Err(e) => {
            return Err(GenError::Config(e));
        },
    };
    let lifetime = match get_optional_lifetime(ast) {
        Ok(Some(l)) => l,
        Ok(None) => String::new(),
        Err(e) => {
            return Err(e);
        },
    };
    let fields = match &ast.body {
        RecordBody::Enum => {
            return Err(GenError::EnumUnsupported);
        },
        RecordBody::Tuple => {
            return Err(GenError::PositionalUnsupported);
        },
        RecordBody::Unit => {
            return Err(GenError::PositionalUnsupported);
        },
        RecordBody::Named(fields) => fields,
    };
    let big_endian = config.big_endian;
    let mut steps = String::new();
    let mut idents = String::new();
    let ghost mut trees: Seq<TreeModel> = Seq::empty();
    let mut i: usize = 0;
    while i < fields.len()
        invariant
            big_endian == big_endian_of(ast.metas@),
            !conflicting_byte_order(ast.metas@),
            ast.body == RecordBody::Named(*fields),
            lifetime_params(*ast) is Ok,
            lifetime@ == match lifetime_params(*ast) {
                Ok(Some(l)) => l,
                _ => Seq::empty(),
            },
            0 <= i <= fields@.len(),
            trees.len() == i,
            field_trees(fields@, big_endian, i as int) == Ok::<_, GenErrorModel>(trees),
            steps@ == steps_text(fields@, trees),
            idents@ == idents_text(fields@, i as int),
        decreases fields@.len() - i,
    {
        let field = &fields[i];
        match build_field(field, big_endian) {
            Err(e) => {
                proof {
                    assert(fields@[i as int] == *field);
                    assert(field_trees(fields@, big_endian, i + 1) == Err::<Seq<TreeModel>, _>(
                        e@,
                    ));
                    lemma_trees_err(fields@, big_endian, i + 1, fields@.len() as int);
                }
                return Err(e);
            },
            Ok(t) => {
                let ghost next = trees.push(t@);
                assert(next.drop_last() == trees);
                steps.append(field.name.as_str());
                steps.append(": ");
                let text = t.render();
                steps.append(text.as_str());
                steps.append(" >> ");
                idents.append(field.name.as_str());
                idents.append(", ");
                proof {
                    trees = next;
                }
            },
        }
        i = i + 1;
    }
    let mut out = String::from_str("impl");
    out.append(lifetime.as_str());
    out.append(" ");
    out.append(ast.name.as_str());
    out.append(lifetime.as_str());
    out.append(" { fn parse(i: &[u8]) -> IResult<&[u8], ");
    out.append(ast.name.as_str());
    out.append("> { do_parse!{ i, ");
    out.append(steps.as_str());
    out.append("( ");
    out.append(ast.name.as_str());
    out.append(" { ");
    out.append(idents.as_str());
    out.append("} ) } } }");
    Ok(out)
}

} // verus!
