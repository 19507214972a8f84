use vstd::prelude::*;
use crate::compile::{annotation, field_tree, resolved_tree, type_tree, GenError, GenErrorModel};
use crate::config::Meta;
use crate::record::{field_step, field_trees, record_text, steps_text, text_result_model};
use crate::schema::{FieldSchema, RecordSchema, TypeSyntax};
use crate::tree::TreeModel;

verus! {

/// Compiling one record twice gives the same text: what `impl_nom` returns
/// is determined by the record alone.
pub proof fn lemma_compile_deterministic(
    s: RecordSchema,
    first: Result<String, GenError>,
    second: Result<String, GenError>,
)
    requires
        text_result_model(first) == record_text(s),
        text_result_model(second) == record_text(s),
    ensures
        text_result_model(first) == text_result_model(second),
{
}

/// The trees of a prefix of the fields are each field's own tree, in order.
pub proof fn lemma_field_trees_pointwise(fields: Seq<FieldSchema>, big_endian: bool, n: int)
    requires
        0 <= n <= fields.len(),
        field_trees(fields, big_endian, n) is Ok,
    ensures
        field_trees(fields, big_endian, n)->Ok_0.len() == n,
        forall|k: int|
            0 <= k < n ==> field_tree(fields[k], big_endian) == Ok::<_, GenErrorModel>(
                #[trigger] field_trees(fields, big_endian, n)->Ok_0[k],
            ),
    decreases n,
{
    if n > 0 {
        lemma_field_trees_pointwise(fields, big_endian, n - 1);
    }
}

/// The steps of the first `k` fields begin the steps of the first `m`.
pub proof fn lemma_steps_prefix(fields: Seq<FieldSchema>, trees: Seq<TreeModel>, k: int, m: int)
    requires
        0 <= k <= m <= trees.len(),
    ensures
        steps_text(fields, trees.take(k)).len() <= steps_text(fields, trees.take(m)).len(),
        steps_text(fields, trees.take(m)).subrange(0, steps_text(fields, trees.take(k)).len() as int)
            == steps_text(fields, trees.take(k)),
    decreases m - k,
{
    let a = steps_text(fields, trees.take(k));
    if k < m {
        lemma_steps_prefix(fields, trees, k, m - 1);
        assert(trees.take(m).drop_last() == trees.take(m - 1));
        let b = steps_text(fields, trees.take(m - 1));
        let c = steps_text(fields, trees.take(m));
        assert(c.subrange(0, a.len() as int) == b.subrange(0, a.len() as int));
    } else {
        assert(a.subrange(0, a.len() as int) == a);
    }
}

/// The step of field `k` stands in the whole step sequence right after the
/// steps of the fields before it.
pub proof fn lemma_step_at(fields: Seq<FieldSchema>, trees: Seq<TreeModel>, k: int)
    requires
        0 <= k < trees.len(),
    ensures
        ({
            let all = steps_text(fields, trees);
            let before = steps_text(fields, trees.take(k));
            let step = field_step(fields[k].name@, trees[k]);
            &&& steps_text(fields, trees.take(k + 1)) == before + step
            &&& before.len() + step.len() <= all.len()
            &&& all.subrange(before.len() as int, (before.len() + step.len()) as int) == step
        }),
{
    let n = trees.len() as int;
    let all = steps_text(fields, trees);
    let before = steps_text(fields, trees.take(k));
    let step = field_step(fields[k].name@, trees[k]);
    assert(trees.take(n) == trees);
    assert(trees.take(k + 1).drop_last() == trees.take(k));
    let upto = steps_text(fields, trees.take(k + 1));
    assert(upto == before + step);
    lemma_steps_prefix(fields, trees, k + 1, n);
    assert(all.subrange(before.len() as int, (before.len() + step.len()) as int) == upto.subrange(
        before.len() as int,
        (before.len() + step.len()) as int,
    ));
    assert(upto.subrange(before.len() as int, (before.len() + step.len()) as int) == step);
}

/// The fields are read in declaration order whatever their annotations: the
/// step of field `i`, built from its own tree alone, ends before the step of
/// any later field `j` begins, and all of them stand in the step sequence of
/// the record.
pub proof fn lemma_fields_in_order(s: RecordSchema, i: int, j: int)
    requires
        record_text(s) is Ok,
        s.body is Named,
        0 <= i < j < s.body->Named_0@.len(),
    ensures
        ({
            let fields = s.body->Named_0@;
            let big_endian = !s.metas@.contains(Meta::LittleEndian);
            let trees = field_trees(fields, big_endian, fields.len() as int)->Ok_0;
            let step_i = field_step(fields[i].name@, trees[i]);
            let step_j = field_step(fields[j].name@, trees[j]);
            let before_i = steps_text(fields, trees.take(i));
            let before_j = steps_text(fields, trees.take(j));
            let all = steps_text(fields, trees);
            &&& field_tree(fields[i], big_endian) == Ok::<_, GenErrorModel>(trees[i])
            &&& field_tree(fields[j], big_endian) == Ok::<_, GenErrorModel>(trees[j])
            &&& before_i.len() + step_i.len() <= before_j.len()
            &&& before_j.len() + step_j.len() <= all.len()
            &&& all.subrange(before_i.len() as int, (before_i.len() + step_i.len()) as int) == step_i
            &&& all.subrange(before_j.len() as int, (before_j.len() + step_j.len()) as int) == step_j
        }),
{
    let fields = s.body->Named_0@;
    let big_endian = !s.metas@.contains(Meta::LittleEndian);
    let n = fields.len() as int;
    let trees = field_trees(fields, big_endian, n)->Ok_0;
    lemma_field_trees_pointwise(fields, big_endian, n);
    lemma_step_at(fields, trees, i);
    lemma_step_at(fields, trees, j);
    lemma_steps_prefix(fields, trees, i + 1, j);
}

/// A field with a `ParseOverride` and no `Verify` is parsed by exactly the
/// override's text, whatever its declared type, even one that no parser
/// could be inferred for.
pub proof fn lemma_override_precedence(f: FieldSchema, big_endian: bool, x: Seq<char>)
    requires
        annotation(f, "ParseOverride"@) == Ok::<_, GenErrorModel>(Some(x)),
        annotation(f, "Verify"@) == Ok::<_, GenErrorModel>(None::<Seq<char>>),
    ensures
        field_tree(f, big_endian) == Ok::<_, GenErrorModel>(TreeModel::Raw(x)),
{
}

/// `Cond` on a field without override is legal exactly when its type gives
/// an optional tree `opt!(complete!(t))`, which then becomes `cond!(c, t)`;
/// on any other tree it is an error naming the field.
pub proof fn lemma_cond_legality(f: FieldSchema, big_endian: bool, c: Seq<char>, t: TreeModel)
    requires
        annotation(f, "ParseOverride"@) == Ok::<_, GenErrorModel>(None::<Seq<char>>),
        annotation(f, "Cond"@) == Ok::<_, GenErrorModel>(Some(c)),
        type_tree(f.ty, big_endian) == Ok::<_, GenErrorModel>(Some(t)),
    ensures
        !(t is Opt) ==> resolved_tree(f, big_endian) == Err::<TreeModel, _>(
            GenErrorModel::CondOnNonOptional(f.name@),
        ),
        !(t is Opt) ==> field_tree(f, big_endian) == Err::<TreeModel, _>(
            GenErrorModel::CondOnNonOptional(f.name@),
        ),
        t is Opt ==> *t->Opt_0 is Complete,
        t is Opt ==> resolved_tree(f, big_endian) == Ok::<_, GenErrorModel>(
            TreeModel::Cond(Box::new(*(*t->Opt_0)->Complete_0), c),
        ),
{
    reveal_strlit("Option");
    reveal_strlit("Vec");
}

/// `Verify` applies last: it wraps the tree that override, type and
/// condition resolved, and binds the field's own name.
pub proof fn lemma_verify_outermost(f: FieldSchema, big_endian: bool, v: Seq<char>)
    requires
        annotation(f, "Verify"@) == Ok::<_, GenErrorModel>(Some(v)),
    ensures
        field_tree(f, big_endian) == match resolved_tree(f, big_endian) {
            Ok(t) => Ok(TreeModel::Verify(Box::new(t), f.name@, v)),
            Err(e) => Err(e),
        },
{
}

/// `Option` or `Vec` with zero or several type arguments is an error that
/// names the type.
pub proof fn lemma_wrapper_arity(ty: TypeSyntax, big_endian: bool)
    requires
        ty is Path,
        ty->segments@.len() == 1,
        ty->segments@[0]@ == "Option"@ || ty->segments@[0]@ == "Vec"@,
        ty->args is Angle,
        ty->args->Angle_0@.len() != 1,
    ensures
        type_tree(ty, big_endian) == Err::<Option<TreeModel>, _>(
            GenErrorModel::TypeArity(ty->segments@[0]@),
        ),
{
}

/// A type path of several segments is an error.
pub proof fn lemma_multi_segment_path(ty: TypeSyntax, big_endian: bool)
    requires
        ty is Path,
        ty->segments@.len() >= 2,
    ensures
        type_tree(ty, big_endian) == Err::<Option<TreeModel>, _>(GenErrorModel::MultipleSegments),
{
}

/// A record that declares both byte orders is refused for its settings,
/// whatever its fields.
pub proof fn lemma_both_byte_orders(s: RecordSchema)
    requires
        s.metas@.contains(Meta::BigEndian),
        s.metas@.contains(Meta::LittleEndian),
    ensures
        record_text(s) == Err::<Seq<char>, _>(GenErrorModel::Config),
{
}

} // verus!
