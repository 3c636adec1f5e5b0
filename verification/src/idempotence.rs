//! Expansion has nothing to do on what is settled: it hands it back as it
//! is and reports nothing.
use crate::context::{Env, InvariantViolation, SpecError};
use crate::semantics::{
    expand_aggregate_forms, expand_annotation, expand_assign, expand_assign_field,
    expand_assign_fields, expand_assign_list, expand_assigns, expand_base, expand_base_at,
    expand_bases, expand_bases_at, expand_bind, expand_bind_field, expand_bind_fields,
    expand_bind_list, expand_binds, expand_block_forms, expand_body, expand_branch_forms,
    expand_builtin, expand_call, expand_call_forms, expand_exp, expand_exp_list,
    expand_exp_list_item, expand_expected, expand_expecteds, expand_node, expand_operand_forms,
    expand_pack_field, expand_pack_fields, expand_parameters, expand_sequence, expand_sequence_item,
    expand_signature, expand_single, expand_singles, expand_type, expand_typed_forms, nesting_bound,
    Step,
};
use crate::settled::{
    assign_field_settled, assign_fields_settled, assign_settled, assigns_settled, base_settled,
    bases_settled, bind_field_settled, bind_fields_settled, bind_settled, binds_settled,
    body_settled, builtin_settled, call_settled, exp_list_item_settled, exp_list_settled,
    exp_settled, expected_settled, expecteds_settled, node_settled, pack_field_settled,
    pack_fields_settled, parameters_settled, sequence_item_settled, sequence_settled,
    signature_settled, single_settled, singles_settled, type_settled,
};
use crate::syntax::{
    SpecAssign, SpecAssignField, SpecAssignList, SpecAssign_, SpecBind, SpecBindField, SpecBindList,
    SpecBind_, SpecBuiltinFunction, SpecBuiltinFunction_, SpecExp, SpecExpListItem,
    SpecFunctionBody_, SpecModuleCall, SpecPackField, SpecSequenceItem, SpecSequenceItem_,
    SpecUnannotatedExp, SpecUnannotatedExp_,
};
use crate::types::{
    SpecBaseType, SpecBaseType_, SpecFunctionSignature, SpecParameter, SpecSingleType,
    SpecSingleType_, SpecType, SpecType_,
};
use vstd::prelude::*;

verus! {

/// A settled base type comes out of expansion as it went in, and nothing is reported.
pub proof fn lemma_base_fixed(env: Env, errors: Seq<SpecError>, bt: SpecBaseType, depth: nat)
    requires
        base_settled(bt),
    ensures
        expand_base_at(env, errors, bt, depth) == Ok::<Step<SpecBaseType>, InvariantViolation>(
            Step { value: bt, errors },
        ),
    decreases depth, bt,
{
    reveal(expand_base_at);
    reveal(expand_bases_at);
    match bt.value {
        SpecBaseType_::Apply(_, _, args) => {
            lemma_bases_fixed(env, errors, args, depth);
        },
        _ => {},
    }
}

/// Settled base types come out of expansion as they went in, and nothing is reported.
pub proof fn lemma_bases_fixed(
    env: Env,
    errors: Seq<SpecError>,
    items: Seq<SpecBaseType>,
    depth: nat,
)
    requires
        bases_settled(items),
    ensures
        expand_bases_at(env, errors, items, depth) == Ok::<
            Step<Seq<SpecBaseType>>,
            InvariantViolation,
        >(
            Step { value: items, errors },
        ),
    decreases depth, items,
{
    reveal(expand_bases_at);
    reveal(expand_base_at);
    if items.len() > 0 {
        assert(base_settled(items[0]));
        lemma_base_fixed(env, errors, items[0], depth);
        assert forall|i: int| 0 <= i < items.drop_first().len() implies base_settled(
            #[trigger] items.drop_first()[i],
        ) by {
            assert(items.drop_first()[i] == items[i + 1]);
        }
        lemma_bases_fixed(env, errors, items.drop_first(), depth);
        assert(seq![items[0]] + items.drop_first() =~= items);
    } else {
        assert(items =~= Seq::<SpecBaseType>::empty());
    }
}

/// A settled base type stays as it is however deep expansion goes.
pub proof fn lemma_whole_base_fixed(env: Env, errors: Seq<SpecError>, bt: SpecBaseType)
    requires
        base_settled(bt),
    ensures
        expand_base(env, errors, bt) == Ok::<Step<SpecBaseType>, InvariantViolation>(
            Step { value: bt, errors },
        ),
{
    reveal(expand_base);
    lemma_base_fixed(env, errors, bt, nesting_bound(env));
}

/// Settled base types stay as they are however deep expansion goes.
pub proof fn lemma_whole_bases_fixed(env: Env, errors: Seq<SpecError>, items: Seq<SpecBaseType>)
    requires
        bases_settled(items),
    ensures
        expand_bases(env, errors, items) == Ok::<Step<Seq<SpecBaseType>>, InvariantViolation>(
            Step { value: items, errors },
        ),
{
    reveal(expand_bases);
    lemma_bases_fixed(env, errors, items, nesting_bound(env));
}

/// A settled single type comes out of expansion as it went in, and nothing is reported.
pub proof fn lemma_single_fixed(env: Env, errors: Seq<SpecError>, st: SpecSingleType)
    requires
        single_settled(st),
    ensures
        expand_single(env, errors, st) == Ok::<Step<SpecSingleType>, InvariantViolation>(
            Step { value: st, errors },
        ),
{
    reveal(expand_single);
    match st.value {
        SpecSingleType_::Base(b) => {
            lemma_whole_base_fixed(env, errors, b);
        },
        SpecSingleType_::Ref(_, b) => {
            lemma_whole_base_fixed(env, errors, b);
        },
    }
}

/// Settled single types come out of expansion as they went in, and nothing is reported.
pub proof fn lemma_singles_fixed(env: Env, errors: Seq<SpecError>, items: Seq<SpecSingleType>)
    requires
        singles_settled(items),
    ensures
        expand_singles(env, errors, items) == Ok::<Step<Seq<SpecSingleType>>, InvariantViolation>(
            Step { value: items, errors },
        ),
    decreases items.len(),
{
    reveal(expand_singles);
    if items.len() > 0 {
        assert(single_settled(items[0]));
        lemma_single_fixed(env, errors, items[0]);
        assert forall|i: int| 0 <= i < items.drop_first().len() implies single_settled(
            #[trigger] items.drop_first()[i],
        ) by {
            assert(items.drop_first()[i] == items[i + 1]);
        }
        lemma_singles_fixed(env, errors, items.drop_first());
        assert(seq![items[0]] + items.drop_first() =~= items);
    } else {
        assert(items =~= Seq::<SpecSingleType>::empty());
    }
}

/// A settled expected type comes out of expansion as it went in, and nothing is reported.
pub proof fn lemma_expected_fixed(env: Env, errors: Seq<SpecError>, st: Option<SpecSingleType>)
    requires
        expected_settled(st),
    ensures
        expand_expected(env, errors, st) == Ok::<Step<Option<SpecSingleType>>, InvariantViolation>(
            Step { value: st, errors },
        ),
{
    reveal(expand_expected);
    match st {
        Some(s) => {
            lemma_single_fixed(env, errors, s);
        },
        None => {},
    }
}

/// Settled expected types come out of expansion as they went in, and nothing is reported.
pub proof fn lemma_expecteds_fixed(
    env: Env,
    errors: Seq<SpecError>,
    items: Seq<Option<SpecSingleType>>,
)
    requires
        expecteds_settled(items),
    ensures
        expand_expecteds(env, errors, items) == Ok::<
            Step<Seq<Option<SpecSingleType>>>,
            InvariantViolation,
        >(
            Step { value: items, errors },
        ),
    decreases items.len(),
{
    reveal(expand_expecteds);
    if items.len() > 0 {
        assert(expected_settled(items[0]));
        lemma_expected_fixed(env, errors, items[0]);
        assert forall|i: int| 0 <= i < items.drop_first().len() implies expected_settled(
            #[trigger] items.drop_first()[i],
        ) by {
            assert(items.drop_first()[i] == items[i + 1]);
        }
        lemma_expecteds_fixed(env, errors, items.drop_first());
        assert(seq![items[0]] + items.drop_first() =~= items);
    } else {
        assert(items =~= Seq::<Option<SpecSingleType>>::empty());
    }
}

/// A settled type comes out of expansion as it went in, and nothing is reported.
pub proof fn lemma_type_fixed(env: Env, errors: Seq<SpecError>, ty: SpecType)
    requires
        type_settled(ty),
    ensures
        expand_type(env, errors, ty) == Ok::<Step<SpecType>, InvariantViolation>(
            Step { value: ty, errors },
        ),
{
    reveal(expand_type);
    match ty.value {
        SpecType_::Unit => {},
        SpecType_::Single(s) => {
            lemma_single_fixed(env, errors, s);
        },
        SpecType_::Multiple(ss) => {
            lemma_singles_fixed(env, errors, ss);
        },
    }
}

/// Settled parameters come out of expansion as they went in, and nothing is reported.
pub proof fn lemma_parameters_fixed(env: Env, errors: Seq<SpecError>, items: Seq<SpecParameter>)
    requires
        parameters_settled(items),
    ensures
        expand_parameters(env, errors, items) == Ok::<Step<Seq<SpecParameter>>, InvariantViolation>(
            Step { value: items, errors },
        ),
    decreases items.len(),
{
    reveal(expand_parameters);
    if items.len() > 0 {
        assert(single_settled(items[0].ty));
        lemma_single_fixed(env, errors, items[0].ty);
        assert forall|i: int| 0 <= i < items.drop_first().len() implies single_settled(
            (#[trigger] items.drop_first()[i]).ty,
        ) by {
            assert(items.drop_first()[i] == items[i + 1]);
        }
        lemma_parameters_fixed(env, errors, items.drop_first());
        assert(seq![items[0]] + items.drop_first() =~= items);
    } else {
        assert(items =~= Seq::<SpecParameter>::empty());
    }
}

/// A settled signature comes out of expansion as it went in, and nothing is reported.
pub proof fn lemma_signature_fixed(env: Env, errors: Seq<SpecError>, sig: SpecFunctionSignature)
    requires
        signature_settled(sig),
    ensures
        expand_signature(env, errors, sig) == Ok::<Step<SpecFunctionSignature>, InvariantViolation>(
            Step { value: sig, errors },
        ),
{
    reveal(expand_signature);
    lemma_parameters_fixed(env, errors, sig.parameters);
    lemma_type_fixed(env, errors, sig.return_type);
}

/// A settled binder comes out of expansion as it went in, and nothing is reported.
pub proof fn lemma_bind_fixed(env: Env, errors: Seq<SpecError>, b: SpecBind)
    requires
        bind_settled(b),
    ensures
        expand_bind(env, errors, b) == Ok::<Step<SpecBind>, InvariantViolation>(
            Step { value: b, errors },
        ),
    decreases b,
{
    reveal(expand_bind);
    reveal(expand_bind_fields);
    match b.value {
        SpecBind_::Var(_, Some(st)) => {
            lemma_single_fixed(env, errors, st);
        },
        SpecBind_::Unpack(_, _, bts, fields) => {
            lemma_whole_bases_fixed(env, errors, bts);
            lemma_bind_fields_fixed(env, errors, fields);
        },
        SpecBind_::BorrowUnpack(_, _, _, bts, fields) => {
            lemma_whole_bases_fixed(env, errors, bts);
            lemma_bind_fields_fixed(env, errors, fields);
        },
        _ => {},
    }
}

/// A settled field of a binder comes out of expansion as it went in.
pub proof fn lemma_bind_field_fixed(env: Env, errors: Seq<SpecError>, f: SpecBindField)
    requires
        bind_field_settled(f),
    ensures
        expand_bind_field(env, errors, f) == Ok::<Step<SpecBindField>, InvariantViolation>(
            Step { value: f, errors },
        ),
    decreases f,
{
    reveal(expand_bind_field);
    reveal(expand_bind);
    lemma_whole_base_fixed(env, errors, f.ty);
    lemma_bind_fixed(env, errors, f.bind);
}

/// Settled fields of a binder come out of expansion as they went in, and nothing is reported.
pub proof fn lemma_bind_fields_fixed(env: Env, errors: Seq<SpecError>, items: Seq<SpecBindField>)
    requires
        bind_fields_settled(items),
    ensures
        expand_bind_fields(env, errors, items) == Ok::<
            Step<Seq<SpecBindField>>,
            InvariantViolation,
        >(
            Step { value: items, errors },
        ),
    decreases items,
{
    reveal(expand_bind_fields);
    reveal(expand_bind_field);
    if items.len() > 0 {
        assert(bind_field_settled(items[0]));
        lemma_bind_field_fixed(env, errors, items[0]);
        assert forall|i: int| 0 <= i < items.drop_first().len() implies bind_field_settled(
            #[trigger] items.drop_first()[i],
        ) by {
            assert(items.drop_first()[i] == items[i + 1]);
        }
        lemma_bind_fields_fixed(env, errors, items.drop_first());
        assert(seq![items[0]] + items.drop_first() =~= items);
    } else {
        assert(items =~= Seq::<SpecBindField>::empty());
    }
}

/// Settled binders come out of expansion as they went in, and nothing is reported.
pub proof fn lemma_binds_fixed(env: Env, errors: Seq<SpecError>, items: Seq<SpecBind>)
    requires
        binds_settled(items),
    ensures
        expand_binds(env, errors, items) == Ok::<Step<Seq<SpecBind>>, InvariantViolation>(
            Step { value: items, errors },
        ),
    decreases items.len(),
{
    reveal(expand_binds);
    if items.len() > 0 {
        assert(bind_settled(items[0]));
        lemma_bind_fixed(env, errors, items[0]);
        assert forall|i: int| 0 <= i < items.drop_first().len() implies bind_settled(
            #[trigger] items.drop_first()[i],
        ) by {
            assert(items.drop_first()[i] == items[i + 1]);
        }
        lemma_binds_fixed(env, errors, items.drop_first());
        assert(seq![items[0]] + items.drop_first() =~= items);
    } else {
        assert(items =~= Seq::<SpecBind>::empty());
    }
}

/// A settled list of binders comes out of expansion as it went in.
pub proof fn lemma_bind_list_fixed(env: Env, errors: Seq<SpecError>, list: SpecBindList)
    requires
        binds_settled(list.value),
    ensures
        expand_bind_list(env, errors, list) == Ok::<Step<SpecBindList>, InvariantViolation>(
            Step { value: list, errors },
        ),
{
    reveal(expand_bind_list);
    lemma_binds_fixed(env, errors, list.value);
}

/// A settled assignment pattern comes out of expansion as it went in, and nothing is reported.
pub proof fn lemma_assign_fixed(env: Env, errors: Seq<SpecError>, a: SpecAssign)
    requires
        assign_settled(a),
    ensures
        expand_assign(env, errors, a) == Ok::<Step<SpecAssign>, InvariantViolation>(
            Step { value: a, errors },
        ),
    decreases a,
{
    reveal(expand_assign);
    reveal(expand_assign_fields);
    match a.value {
        SpecAssign_::Var(_, st) => {
            lemma_single_fixed(env, errors, st);
        },
        SpecAssign_::Unpack(_, _, bts, fields) => {
            lemma_whole_bases_fixed(env, errors, bts);
            lemma_assign_fields_fixed(env, errors, fields);
        },
        SpecAssign_::BorrowUnpack(_, _, _, bts, fields) => {
            lemma_whole_bases_fixed(env, errors, bts);
            lemma_assign_fields_fixed(env, errors, fields);
        },
        _ => {},
    }
}

/// A settled field of an assignment comes out of expansion as it went in.
pub proof fn lemma_assign_field_fixed(env: Env, errors: Seq<SpecError>, f: SpecAssignField)
    requires
        assign_field_settled(f),
    ensures
        expand_assign_field(env, errors, f) == Ok::<Step<SpecAssignField>, InvariantViolation>(
            Step { value: f, errors },
        ),
    decreases f,
{
    reveal(expand_assign_field);
    reveal(expand_assign);
    lemma_whole_base_fixed(env, errors, f.ty);
    lemma_assign_fixed(env, errors, f.assign);
}

/// Settled fields of an assignment come out of expansion as they went in, and nothing is reported.
pub proof fn lemma_assign_fields_fixed(
    env: Env,
    errors: Seq<SpecError>,
    items: Seq<SpecAssignField>,
)
    requires
        assign_fields_settled(items),
    ensures
        expand_assign_fields(env, errors, items) == Ok::<
            Step<Seq<SpecAssignField>>,
            InvariantViolation,
        >(
            Step { value: items, errors },
        ),
    decreases items,
{
    reveal(expand_assign_fields);
    reveal(expand_assign_field);
    if items.len() > 0 {
        assert(assign_field_settled(items[0]));
        lemma_assign_field_fixed(env, errors, items[0]);
        assert forall|i: int| 0 <= i < items.drop_first().len() implies assign_field_settled(
            #[trigger] items.drop_first()[i],
        ) by {
            assert(items.drop_first()[i] == items[i + 1]);
        }
        lemma_assign_fields_fixed(env, errors, items.drop_first());
        assert(seq![items[0]] + items.drop_first() =~= items);
    } else {
        assert(items =~= Seq::<SpecAssignField>::empty());
    }
}

/// Settled assignment patterns come out of expansion as they went in, and nothing is reported.
pub proof fn lemma_assigns_fixed(env: Env, errors: Seq<SpecError>, items: Seq<SpecAssign>)
    requires
        assigns_settled(items),
    ensures
        expand_assigns(env, errors, items) == Ok::<Step<Seq<SpecAssign>>, InvariantViolation>(
            Step { value: items, errors },
        ),
    decreases items.len(),
{
    reveal(expand_assigns);
    if items.len() > 0 {
        assert(assign_settled(items[0]));
        lemma_assign_fixed(env, errors, items[0]);
        assert forall|i: int| 0 <= i < items.drop_first().len() implies assign_settled(
            #[trigger] items.drop_first()[i],
        ) by {
            assert(items.drop_first()[i] == items[i + 1]);
        }
        lemma_assigns_fixed(env, errors, items.drop_first());
        assert(seq![items[0]] + items.drop_first() =~= items);
    } else {
        assert(items =~= Seq::<SpecAssign>::empty());
    }
}

/// A settled list of assignment patterns comes out of expansion as it went in.
pub proof fn lemma_assign_list_fixed(env: Env, errors: Seq<SpecError>, list: SpecAssignList)
    requires
        assigns_settled(list.value),
    ensures
        expand_assign_list(env, errors, list) == Ok::<Step<SpecAssignList>, InvariantViolation>(
            Step { value: list, errors },
        ),
{
    reveal(expand_assign_list);
    lemma_assigns_fixed(env, errors, list.value);
}

/// A settled builtin operation comes out of expansion as it went in.
pub proof fn lemma_builtin_fixed(env: Env, errors: Seq<SpecError>, b: SpecBuiltinFunction)
    requires
        builtin_settled(b),
    ensures
        expand_builtin(env, errors, b) == Ok::<Step<SpecBuiltinFunction>, InvariantViolation>(
            Step { value: b, errors },
        ),
{
    reveal(expand_builtin);
    match b.value {
        SpecBuiltinFunction_::MoveToSender(bt) => {
            lemma_whole_base_fixed(env, errors, bt);
        },
        SpecBuiltinFunction_::MoveFrom(bt) => {
            lemma_whole_base_fixed(env, errors, bt);
        },
        SpecBuiltinFunction_::BorrowGlobal(_, bt) => {
            lemma_whole_base_fixed(env, errors, bt);
        },
        SpecBuiltinFunction_::Exists(bt) => {
            lemma_whole_base_fixed(env, errors, bt);
        },
        SpecBuiltinFunction_::Freeze(bt) => {
            lemma_whole_base_fixed(env, errors, bt);
        },
    }
}

/// A settled expression comes out of expansion as it went in, and nothing is reported.
pub proof fn lemma_exp_fixed(env: Env, errors: Seq<SpecError>, e: SpecExp)
    requires
        exp_settled(e),
    ensures
        expand_exp(env, errors, e) == Ok::<Step<SpecExp>, InvariantViolation>(
            Step { value: e, errors },
        ),
    decreases e,
{
    reveal(expand_exp);
    reveal(expand_annotation);
    reveal(expand_node);
    lemma_type_fixed(env, errors, e.ty);
    lemma_node_fixed(env, errors, e.ty, e.exp);
}

/// What a settled expression is made of comes out of expansion as it went in.
pub proof fn lemma_node_fixed(
    env: Env,
    errors: Seq<SpecError>,
    ty: SpecType,
    exp: SpecUnannotatedExp,
)
    requires
        node_settled(exp),
    ensures
        expand_node(env, errors, ty, exp) == Ok::<Step<SpecUnannotatedExp_>, InvariantViolation>(
            Step { value: exp.value, errors },
        ),
    decreases exp, 1nat,
{
    reveal(expand_node);
    reveal(expand_operand_forms);
    lemma_operand_forms_fixed(env, errors, exp);
    reveal(expand_branch_forms);
    lemma_branch_forms_fixed(env, errors, exp);
    reveal(expand_typed_forms);
    lemma_typed_forms_fixed(env, errors, exp);
    reveal(expand_call_forms);
    lemma_call_forms_fixed(env, errors, exp);
    reveal(expand_block_forms);
    lemma_block_forms_fixed(env, errors, exp);
    reveal(expand_aggregate_forms);
    lemma_aggregate_forms_fixed(env, errors, exp);
}

/// Settled, a form with one expression inside comes out of expansion as it went in.
pub proof fn lemma_operand_forms_fixed(env: Env, errors: Seq<SpecError>, exp: SpecUnannotatedExp)
    requires
        node_settled(exp),
    ensures
        expand_operand_forms(env, errors, exp) == Ok::<
            Step<SpecUnannotatedExp_>,
            InvariantViolation,
        >(
            Step { value: exp.value, errors },
        ),
    decreases exp, 0nat,
{
    reveal(expand_operand_forms);
    reveal(expand_exp);
    match exp.value {
        SpecUnannotatedExp_::Return(er) => {
            lemma_exp_fixed(env, errors, *er);
        },
        SpecUnannotatedExp_::Abort(er) => {
            lemma_exp_fixed(env, errors, *er);
        },
        SpecUnannotatedExp_::Dereference(er) => {
            lemma_exp_fixed(env, errors, *er);
        },
        SpecUnannotatedExp_::UnaryExp(_, er) => {
            lemma_exp_fixed(env, errors, *er);
        },
        SpecUnannotatedExp_::Borrow(_, er, _) => {
            lemma_exp_fixed(env, errors, *er);
        },
        SpecUnannotatedExp_::TempBorrow(_, er) => {
            lemma_exp_fixed(env, errors, *er);
        },
        SpecUnannotatedExp_::Loop { has_break: _, body } => {
            lemma_exp_fixed(env, errors, *body);
        },
        _ => {},
    }
}

/// Settled, a form with several expressions inside comes out of expansion as it went in.
pub proof fn lemma_branch_forms_fixed(env: Env, errors: Seq<SpecError>, exp: SpecUnannotatedExp)
    requires
        node_settled(exp),
    ensures
        expand_branch_forms(env, errors, exp) == Ok::<
            Step<SpecUnannotatedExp_>,
            InvariantViolation,
        >(
            Step { value: exp.value, errors },
        ),
    decreases exp, 0nat,
{
    reveal(expand_branch_forms);
    reveal(expand_exp);
    match exp.value {
        SpecUnannotatedExp_::IfElse(eb, et, ef) => {
            lemma_exp_fixed(env, errors, *eb);
            lemma_exp_fixed(env, errors, *et);
            lemma_exp_fixed(env, errors, *ef);
        },
        SpecUnannotatedExp_::While(eb, eloop) => {
            lemma_exp_fixed(env, errors, *eb);
            lemma_exp_fixed(env, errors, *eloop);
        },
        SpecUnannotatedExp_::Mutate(el, er) => {
            lemma_exp_fixed(env, errors, *el);
            lemma_exp_fixed(env, errors, *er);
        },
        _ => {},
    }
}

/// Settled, a form that carries a type of its own comes out of expansion as it went in.
pub proof fn lemma_typed_forms_fixed(env: Env, errors: Seq<SpecError>, exp: SpecUnannotatedExp)
    requires
        node_settled(exp),
    ensures
        expand_typed_forms(env, errors, exp) == Ok::<Step<SpecUnannotatedExp_>, InvariantViolation>(
            Step { value: exp.value, errors },
        ),
    decreases exp, 0nat,
{
    reveal(expand_typed_forms);
    reveal(expand_exp);
    match exp.value {
        SpecUnannotatedExp_::BinopExp(el, _, operand_ty, er) => {
            lemma_exp_fixed(env, errors, *el);
            lemma_exp_fixed(env, errors, *er);
            lemma_type_fixed(env, errors, *operand_ty);
        },
        SpecUnannotatedExp_::Cast(el, rhs_ty) => {
            lemma_exp_fixed(env, errors, *el);
            lemma_type_fixed(env, errors, *rhs_ty);
        },
        SpecUnannotatedExp_::Annotate(el, rhs_ty) => {
            lemma_exp_fixed(env, errors, *el);
            lemma_type_fixed(env, errors, *rhs_ty);
        },
        _ => {},
    }
}

/// Settled, a call comes out of expansion as it went in.
pub proof fn lemma_call_forms_fixed(env: Env, errors: Seq<SpecError>, exp: SpecUnannotatedExp)
    requires
        node_settled(exp),
    ensures
        expand_call_forms(env, errors, exp) == Ok::<Step<SpecUnannotatedExp_>, InvariantViolation>(
            Step { value: exp.value, errors },
        ),
    decreases exp, 0nat,
{
    reveal(expand_call_forms);
    reveal(expand_exp);
    reveal(expand_call);
    match exp.value {
        SpecUnannotatedExp_::ModuleCall(call) => {
            lemma_call_fixed(env, errors, *call);
        },
        SpecUnannotatedExp_::Builtin(b, args) => {
            lemma_builtin_fixed(env, errors, *b);
            lemma_exp_fixed(env, errors, *args);
        },
        _ => {},
    }
}

/// Settled, a block or an assignment comes out of expansion as it went in.
pub proof fn lemma_block_forms_fixed(env: Env, errors: Seq<SpecError>, exp: SpecUnannotatedExp)
    requires
        node_settled(exp),
    ensures
        expand_block_forms(env, errors, exp) == Ok::<Step<SpecUnannotatedExp_>, InvariantViolation>(
            Step { value: exp.value, errors },
        ),
    decreases exp, 0nat,
{
    reveal(expand_block_forms);
    reveal(expand_exp);
    reveal(expand_sequence);
    match exp.value {
        SpecUnannotatedExp_::Block(items) => {
            lemma_sequence_fixed(env, errors, items);
        },
        SpecUnannotatedExp_::Assign(assigns, tys, er) => {
            lemma_assign_list_fixed(env, errors, assigns);
            lemma_expecteds_fixed(env, errors, tys);
            lemma_exp_fixed(env, errors, *er);
        },
        _ => {},
    }
}

/// Settled, a struct that is built or a tuple comes out of expansion as it went in.
pub proof fn lemma_aggregate_forms_fixed(env: Env, errors: Seq<SpecError>, exp: SpecUnannotatedExp)
    requires
        node_settled(exp),
    ensures
        expand_aggregate_forms(env, errors, exp) == Ok::<
            Step<SpecUnannotatedExp_>,
            InvariantViolation,
        >(
            Step { value: exp.value, errors },
        ),
    decreases exp, 0nat,
{
    reveal(expand_aggregate_forms);
    reveal(expand_pack_fields);
    reveal(expand_exp_list);
    match exp.value {
        SpecUnannotatedExp_::Pack(_, _, bs, fields) => {
            lemma_whole_bases_fixed(env, errors, bs);
            lemma_pack_fields_fixed(env, errors, fields);
        },
        SpecUnannotatedExp_::ExpList(items) => {
            lemma_exp_list_fixed(env, errors, items);
        },
        _ => {},
    }
}

/// A settled call comes out of expansion as it went in.
pub proof fn lemma_call_fixed(env: Env, errors: Seq<SpecError>, call: SpecModuleCall)
    requires
        call_settled(call),
    ensures
        expand_call(env, errors, call) == Ok::<Step<SpecModuleCall>, InvariantViolation>(
            Step { value: call, errors },
        ),
    decreases call,
{
    reveal(expand_call);
    reveal(expand_exp);
    lemma_whole_bases_fixed(env, errors, call.type_arguments);
    lemma_exp_fixed(env, errors, *call.arguments);
    lemma_singles_fixed(env, errors, call.parameter_types);
}

/// A settled field of a struct that is built comes out of expansion as it went in.
pub proof fn lemma_pack_field_fixed(env: Env, errors: Seq<SpecError>, f: SpecPackField)
    requires
        pack_field_settled(f),
    ensures
        expand_pack_field(env, errors, f) == Ok::<Step<SpecPackField>, InvariantViolation>(
            Step { value: f, errors },
        ),
    decreases f,
{
    reveal(expand_pack_field);
    reveal(expand_exp);
    lemma_whole_base_fixed(env, errors, f.ty);
    lemma_exp_fixed(env, errors, f.exp);
}

/// Settled fields of a struct that is built come out of expansion as they
/// went in, and nothing is reported.
pub proof fn lemma_pack_fields_fixed(env: Env, errors: Seq<SpecError>, items: Seq<SpecPackField>)
    requires
        pack_fields_settled(items),
    ensures
        expand_pack_fields(env, errors, items) == Ok::<
            Step<Seq<SpecPackField>>,
            InvariantViolation,
        >(
            Step { value: items, errors },
        ),
    decreases items,
{
    reveal(expand_pack_fields);
    reveal(expand_pack_field);
    if items.len() > 0 {
        assert(pack_field_settled(items[0]));
        lemma_pack_field_fixed(env, errors, items[0]);
        assert forall|i: int| 0 <= i < items.drop_first().len() implies pack_field_settled(
            #[trigger] items.drop_first()[i],
        ) by {
            assert(items.drop_first()[i] == items[i + 1]);
        }
        lemma_pack_fields_fixed(env, errors, items.drop_first());
        assert(seq![items[0]] + items.drop_first() =~= items);
    } else {
        assert(items =~= Seq::<SpecPackField>::empty());
    }
}

/// A settled entry of a tuple comes out of expansion as it went in.
pub proof fn lemma_exp_list_item_fixed(env: Env, errors: Seq<SpecError>, item: SpecExpListItem)
    requires
        exp_list_item_settled(item),
    ensures
        expand_exp_list_item(env, errors, item) == Ok::<Step<SpecExpListItem>, InvariantViolation>(
            Step { value: item, errors },
        ),
    decreases item,
{
    reveal(expand_exp_list_item);
    reveal(expand_exp);
    match item {
        SpecExpListItem::Single(e, st) => {
            lemma_exp_fixed(env, errors, e);
            lemma_single_fixed(env, errors, *st);
        },
        SpecExpListItem::Splat(_, e, ss) => {
            lemma_exp_fixed(env, errors, e);
            lemma_singles_fixed(env, errors, ss);
        },
    }
}

/// Settled entries of a tuple come out of expansion as they went in, and nothing is reported.
pub proof fn lemma_exp_list_fixed(env: Env, errors: Seq<SpecError>, items: Seq<SpecExpListItem>)
    requires
        exp_list_settled(items),
    ensures
        expand_exp_list(env, errors, items) == Ok::<Step<Seq<SpecExpListItem>>, InvariantViolation>(
            Step { value: items, errors },
        ),
    decreases items,
{
    reveal(expand_exp_list);
    reveal(expand_exp_list_item);
    if items.len() > 0 {
        assert(exp_list_item_settled(items[0]));
        lemma_exp_list_item_fixed(env, errors, items[0]);
        assert forall|i: int| 0 <= i < items.drop_first().len() implies exp_list_item_settled(
            #[trigger] items.drop_first()[i],
        ) by {
            assert(items.drop_first()[i] == items[i + 1]);
        }
        lemma_exp_list_fixed(env, errors, items.drop_first());
        assert(seq![items[0]] + items.drop_first() =~= items);
    } else {
        assert(items =~= Seq::<SpecExpListItem>::empty());
    }
}

/// A settled item of a sequence comes out of expansion as it went in.
pub proof fn lemma_sequence_item_fixed(env: Env, errors: Seq<SpecError>, item: SpecSequenceItem)
    requires
        sequence_item_settled(item),
    ensures
        expand_sequence_item(env, errors, item) == Ok::<Step<SpecSequenceItem>, InvariantViolation>(
            Step { value: item, errors },
        ),
    decreases item,
{
    reveal(expand_sequence_item);
    reveal(expand_exp);
    match item.value {
        SpecSequenceItem_::Eval(e) => {
            lemma_exp_fixed(env, errors, *e);
        },
        SpecSequenceItem_::Declare(binds) => {
            lemma_bind_list_fixed(env, errors, binds);
        },
        SpecSequenceItem_::Bind(binds, tys, e) => {
            lemma_bind_list_fixed(env, errors, binds);
            lemma_expecteds_fixed(env, errors, tys);
            lemma_exp_fixed(env, errors, *e);
        },
    }
}

/// Settled items of a sequence come out of expansion as they went in, and nothing is reported.
pub proof fn lemma_sequence_fixed(env: Env, errors: Seq<SpecError>, items: Seq<SpecSequenceItem>)
    requires
        sequence_settled(items),
    ensures
        expand_sequence(env, errors, items) == Ok::<
            Step<Seq<SpecSequenceItem>>,
            InvariantViolation,
        >(
            Step { value: items, errors },
        ),
    decreases items,
{
    reveal(expand_sequence);
    reveal(expand_sequence_item);
    if items.len() > 0 {
        assert(sequence_item_settled(items[0]));
        lemma_sequence_item_fixed(env, errors, items[0]);
        assert forall|i: int| 0 <= i < items.drop_first().len() implies sequence_item_settled(
            #[trigger] items.drop_first()[i],
        ) by {
            assert(items.drop_first()[i] == items[i + 1]);
        }
        lemma_sequence_fixed(env, errors, items.drop_first());
        assert(seq![items[0]] + items.drop_first() =~= items);
    } else {
        assert(items =~= Seq::<SpecSequenceItem>::empty());
    }
}

/// A settled function body comes out of expansion as it went in, and nothing is reported.
pub proof fn lemma_body_fixed(env: Env, errors: Seq<SpecError>, b: SpecFunctionBody_)
    requires
        body_settled(b),
    ensures
        expand_body(env, errors, b) == Ok::<Step<SpecFunctionBody_>, InvariantViolation>(
            Step { value: b, errors },
        ),
{
    reveal(expand_body);
    match b {
        SpecFunctionBody_::Native => {},
        SpecFunctionBody_::Defined(items) => {
            lemma_sequence_fixed(env, errors, items);
        },
    }
}

} // verus!
