//! Expansion leaves nothing undone: whatever it hands back is settled.
use crate::context::{unfold_base, unfold_var, Env, SpecError};
use crate::semantics::{
    aggregate_form, block_form, branch_form, call_form, control_exit, expand_aggregate_forms,
    expand_annotation, expand_assign, expand_assign_field, expand_assign_fields, expand_assign_list,
    expand_assigns, expand_base, expand_base_at, expand_bases, expand_bases_at, expand_bind,
    expand_bind_field, expand_bind_fields, expand_bind_list, expand_binds, expand_block_forms,
    expand_body, expand_branch_forms, expand_builtin, expand_call, expand_call_forms, expand_exp,
    expand_exp_list, expand_exp_list_item, expand_expected, expand_expecteds, expand_literal,
    expand_node, expand_operand_forms, expand_pack_field, expand_pack_fields, expand_parameters,
    expand_rewritten_forms, expand_sequence, expand_sequence_item, expand_signature, expand_single,
    expand_singles, expand_type, expand_typed_forms, expand_use, nesting_bound, operand_form,
    typed_form,
};
use crate::settled::{
    assign_field_settled, assign_fields_settled, assign_settled, assigns_settled, base_settled,
    bases_settled, bind_field_settled, bind_fields_settled, bind_settled, binds_settled,
    body_settled, builtin_settled, call_settled, exp_list_item_settled, exp_list_settled,
    exp_settled, expected_settled, expecteds_settled, node_settled, pack_field_settled,
    pack_fields_settled, parameters_settled, sequence_item_settled, sequence_settled,
    signature_settled, single_settled, singles_settled, type_settled,
};
use crate::syntax::{
    SpecAssign, SpecAssignField, SpecAssignList, SpecAssign_, SpecBind, SpecBindField, SpecBindList,
    SpecBind_, SpecBuiltinFunction, SpecBuiltinFunction_, SpecExp, SpecExpListItem,
    SpecFunctionBody_, SpecModuleCall, SpecPackField, SpecSequenceItem, SpecSequenceItem_,
    SpecUnannotatedExp, SpecUnannotatedExp_,
};
use crate::types::{
    Loc, SpecBaseType, SpecBaseType_, SpecFunctionSignature, SpecParameter, SpecSingleType,
    SpecSingleType_, SpecType, SpecType_, TVar,
};
use vstd::prelude::*;

verus! {

/// What the substitution holds at the end of a chain of variables is no variable.
pub proof fn lemma_unfold_var_solved(
    subst: Map<u64, SpecBaseType>,
    loc: Loc,
    tvar: TVar,
    hops: nat,
)
    ensures
        match unfold_var(subst, loc, tvar, hops) {
            Ok(t) => !(t.value is Var),
            Err(_) => true,
        },
    decreases hops,
{
    if subst.contains_key(tvar.0) {
        match subst[tvar.0].value {
            SpecBaseType_::Var(next) => {
                if hops > 0 {
                    lemma_unfold_var_solved(subst, loc, next, (hops - 1) as nat);
                }
            },
            _ => {},
        }
    }
}

/// An expanded base type is settled.
pub proof fn lemma_base_settles(env: Env, errors: Seq<SpecError>, bt: SpecBaseType, depth: nat)
    ensures
        match expand_base_at(env, errors, bt, depth) {
            Ok(done) => base_settled(done.value),
            Err(_) => true,
        },
    decreases depth, bt,
{
    reveal(expand_base_at);
    reveal(expand_bases_at);
    match bt.value {
        SpecBaseType_::Var(tvar) => {
            lemma_unfold_var_solved(env.subst, bt.loc, tvar, env.subst.dom().len());
            match unfold_base(env.subst, bt) {
                Ok(t) => {
                    if t.value is Apply && depth > 0 {
                        lemma_base_settles(env, errors, t, (depth - 1) as nat);
                    }
                },
                Err(_) => {},
            }
        },
        SpecBaseType_::Apply(_, _, args) => {
            lemma_bases_settle(env, errors, args, depth);
        },
        _ => {},
    }
}

/// Expanded base types are as many as before, and each is settled.
pub proof fn lemma_bases_settle(
    env: Env,
    errors: Seq<SpecError>,
    items: Seq<SpecBaseType>,
    depth: nat,
)
    ensures
        match expand_bases_at(env, errors, items, depth) {
            Ok(done) => bases_settled(done.value) && done.value.len() == items.len(),
            Err(_) => true,
        },
    decreases depth, items,
{
    reveal(expand_bases_at);
    reveal(expand_base_at);
    if items.len() > 0 {
        lemma_base_settles(env, errors, items[0], depth);
        match expand_base_at(env, errors, items[0], depth) {
            Ok(first) => {
                lemma_bases_settle(env, first.errors, items.drop_first(), depth);
                match expand_bases_at(env, first.errors, items.drop_first(), depth) {
                    Ok(rest) => {
                        let head = first.value;
                        let all = seq![head] + rest.value;
                        assert(base_settled(head));
                        assert forall|i: int| 0 <= i < all.len() implies base_settled(
                            #[trigger] all[i],
                        ) by {
                            if i > 0 {
                                assert(all[i] == rest.value[i - 1]);
                            }
                        }
                    },
                    Err(_) => {},
                }
            },
            Err(_) => {},
        }
    }
}

/// A base type expanded as deep as the substitution is large is settled.
pub proof fn lemma_whole_base_settles(env: Env, errors: Seq<SpecError>, bt: SpecBaseType)
    ensures
        match expand_base(env, errors, bt) {
            Ok(done) => base_settled(done.value),
            Err(_) => true,
        },
{
    reveal(expand_base);
    lemma_base_settles(env, errors, bt, nesting_bound(env));
}

/// Base types expanded as deep as the substitution is large are settled.
pub proof fn lemma_whole_bases_settles(env: Env, errors: Seq<SpecError>, items: Seq<SpecBaseType>)
    ensures
        match expand_bases(env, errors, items) {
            Ok(done) => bases_settled(done.value) && done.value.len() == items.len(),
            Err(_) => true,
        },
{
    reveal(expand_bases);
    lemma_bases_settle(env, errors, items, nesting_bound(env));
}

/// An expanded single type is settled.
pub proof fn lemma_single_settles(env: Env, errors: Seq<SpecError>, st: SpecSingleType)
    ensures
        match expand_single(env, errors, st) {
            Ok(done) => single_settled(done.value),
            Err(_) => true,
        },
{
    reveal(expand_single);
    match st.value {
        SpecSingleType_::Base(b) => {
            lemma_whole_base_settles(env, errors, b);
        },
        SpecSingleType_::Ref(_, b) => {
            lemma_whole_base_settles(env, errors, b);
        },
    }
}

/// Expanded single types are as many as before, and each is settled.
pub proof fn lemma_singles_settle(env: Env, errors: Seq<SpecError>, items: Seq<SpecSingleType>)
    ensures
        match expand_singles(env, errors, items) {
            Ok(done) => singles_settled(done.value) && done.value.len() == items.len(),
            Err(_) => true,
        },
    decreases items.len(),
{
    reveal(expand_singles);
    if items.len() > 0 {
        lemma_single_settles(env, errors, items[0]);
        match expand_single(env, errors, items[0]) {
            Ok(first) => {
                lemma_singles_settle(env, first.errors, items.drop_first());
                match expand_singles(env, first.errors, items.drop_first()) {
                    Ok(rest) => {
                        let head = first.value;
                        let all = seq![head] + rest.value;
                        assert(single_settled(head));
                        assert forall|i: int| 0 <= i < all.len() implies single_settled(
                            #[trigger] all[i],
                        ) by {
                            if i > 0 {
                                assert(all[i] == rest.value[i - 1]);
                            }
                        }
                    },
                    Err(_) => {},
                }
            },
            Err(_) => {},
        }
    }
}

/// An expanded expected type is settled.
pub proof fn lemma_expected_settles(env: Env, errors: Seq<SpecError>, st: Option<SpecSingleType>)
    ensures
        match expand_expected(env, errors, st) {
            Ok(done) => expected_settled(done.value),
            Err(_) => true,
        },
{
    reveal(expand_expected);
    match st {
        Some(s) => {
            lemma_single_settles(env, errors, s);
        },
        None => {},
    }
}

/// Expanded expected types are as many as before, and each is settled.
pub proof fn lemma_expecteds_settle(
    env: Env,
    errors: Seq<SpecError>,
    items: Seq<Option<SpecSingleType>>,
)
    ensures
        match expand_expecteds(env, errors, items) {
            Ok(done) => expecteds_settled(done.value) && done.value.len() == items.len(),
            Err(_) => true,
        },
    decreases items.len(),
{
    reveal(expand_expecteds);
    if items.len() > 0 {
        lemma_expected_settles(env, errors, items[0]);
        match expand_expected(env, errors, items[0]) {
            Ok(first) => {
                lemma_expecteds_settle(env, first.errors, items.drop_first());
                match expand_expecteds(env, first.errors, items.drop_first()) {
                    Ok(rest) => {
                        let head = first.value;
                        let all = seq![head] + rest.value;
                        assert(expected_settled(head));
                        assert forall|i: int| 0 <= i < all.len() implies expected_settled(
                            #[trigger] all[i],
                        ) by {
                            if i > 0 {
                                assert(all[i] == rest.value[i - 1]);
                            }
                        }
                    },
                    Err(_) => {},
                }
            },
            Err(_) => {},
        }
    }
}

/// An expanded type is settled.
pub proof fn lemma_type_settles(env: Env, errors: Seq<SpecError>, ty: SpecType)
    ensures
        match expand_type(env, errors, ty) {
            Ok(done) => type_settled(done.value),
            Err(_) => true,
        },
{
    reveal(expand_type);
    match ty.value {
        SpecType_::Unit => {},
        SpecType_::Single(s) => {
            lemma_single_settles(env, errors, s);
        },
        SpecType_::Multiple(ss) => {
            lemma_singles_settle(env, errors, ss);
        },
    }
}

/// Expanded parameters are as many as before, and each is settled.
pub proof fn lemma_parameters_settle(env: Env, errors: Seq<SpecError>, items: Seq<SpecParameter>)
    ensures
        match expand_parameters(env, errors, items) {
            Ok(done) => parameters_settled(done.value) && done.value.len() == items.len(),
            Err(_) => true,
        },
    decreases items.len(),
{
    reveal(expand_parameters);
    if items.len() > 0 {
        lemma_single_settles(env, errors, items[0].ty);
        match expand_single(env, errors, items[0].ty) {
            Ok(first) => {
                lemma_parameters_settle(env, first.errors, items.drop_first());
                match expand_parameters(env, first.errors, items.drop_first()) {
                    Ok(rest) => {
                        let head = SpecParameter { var: items[0].var, ty: first.value };
                        let all = seq![head] + rest.value;
                        assert(single_settled(head.ty));
                        assert forall|i: int| 0 <= i < all.len() implies single_settled(
                            (#[trigger] all[i]).ty,
                        ) by {
                            if i > 0 {
                                assert(all[i] == rest.value[i - 1]);
                            }
                        }
                    },
                    Err(_) => {},
                }
            },
            Err(_) => {},
        }
    }
}

/// An expanded signature is settled.
pub proof fn lemma_signature_settles(env: Env, errors: Seq<SpecError>, sig: SpecFunctionSignature)
    ensures
        match expand_signature(env, errors, sig) {
            Ok(done) => signature_settled(done.value),
            Err(_) => true,
        },
{
    reveal(expand_signature);
    lemma_parameters_settle(env, errors, sig.parameters);
    match expand_parameters(env, errors, sig.parameters) {
        Ok(s0) => {
            lemma_type_settles(env, s0.errors, sig.return_type);
        },
        Err(_) => {},
    }
}

/// An expanded binder is settled.
pub proof fn lemma_bind_settles(env: Env, errors: Seq<SpecError>, b: SpecBind)
    ensures
        match expand_bind(env, errors, b) {
            Ok(done) => bind_settled(done.value),
            Err(_) => true,
        },
    decreases b,
{
    reveal(expand_bind);
    reveal(expand_bind_fields);
    match b.value {
        SpecBind_::Var(_, Some(st)) => {
            lemma_single_settles(env, errors, st);
        },
        SpecBind_::Unpack(_, _, bts, fields) => {
            lemma_whole_bases_settles(env, errors, bts);
            match expand_bases(env, errors, bts) {
                Ok(s0) => {
                    lemma_bind_fields_settle(env, s0.errors, fields);
                },
                Err(_) => {},
            }
        },
        SpecBind_::BorrowUnpack(_, _, _, bts, fields) => {
            lemma_whole_bases_settles(env, errors, bts);
            match expand_bases(env, errors, bts) {
                Ok(s0) => {
                    lemma_bind_fields_settle(env, s0.errors, fields);
                },
                Err(_) => {},
            }
        },
        _ => {},
    }
}

/// An expanded field of a binder is settled.
pub proof fn lemma_bind_field_settles(env: Env, errors: Seq<SpecError>, f: SpecBindField)
    ensures
        match expand_bind_field(env, errors, f) {
            Ok(done) => bind_field_settled(done.value),
            Err(_) => true,
        },
    decreases f,
{
    reveal(expand_bind_field);
    reveal(expand_bind);
    lemma_whole_base_settles(env, errors, f.ty);
    match expand_base(env, errors, f.ty) {
        Ok(s0) => {
            lemma_bind_settles(env, s0.errors, f.bind);
        },
        Err(_) => {},
    }
}

/// Expanded fields of a binder are as many as before, and each is settled.
pub proof fn lemma_bind_fields_settle(env: Env, errors: Seq<SpecError>, items: Seq<SpecBindField>)
    ensures
        match expand_bind_fields(env, errors, items) {
            Ok(done) => bind_fields_settled(done.value) && done.value.len() == items.len(),
            Err(_) => true,
        },
    decreases items,
{
    reveal(expand_bind_fields);
    reveal(expand_bind_field);
    if items.len() > 0 {
        lemma_bind_field_settles(env, errors, items[0]);
        match expand_bind_field(env, errors, items[0]) {
            Ok(first) => {
                lemma_bind_fields_settle(env, first.errors, items.drop_first());
                match expand_bind_fields(env, first.errors, items.drop_first()) {
                    Ok(rest) => {
                        let head = first.value;
                        let all = seq![head] + rest.value;
                        assert(bind_field_settled(head));
                        assert forall|i: int| 0 <= i < all.len() implies bind_field_settled(
                            #[trigger] all[i],
                        ) by {
                            if i > 0 {
                                assert(all[i] == rest.value[i - 1]);
                            }
                        }
                    },
                    Err(_) => {},
                }
            },
            Err(_) => {},
        }
    }
}

/// Expanded binders are as many as before, and each is settled.
pub proof fn lemma_binds_settle(env: Env, errors: Seq<SpecError>, items: Seq<SpecBind>)
    ensures
        match expand_binds(env, errors, items) {
            Ok(done) => binds_settled(done.value) && done.value.len() == items.len(),
            Err(_) => true,
        },
    decreases items.len(),
{
    reveal(expand_binds);
    if items.len() > 0 {
        lemma_bind_settles(env, errors, items[0]);
        match expand_bind(env, errors, items[0]) {
            Ok(first) => {
                lemma_binds_settle(env, first.errors, items.drop_first());
                match expand_binds(env, first.errors, items.drop_first()) {
                    Ok(rest) => {
                        let head = first.value;
                        let all = seq![head] + rest.value;
                        assert(bind_settled(head));
                        assert forall|i: int| 0 <= i < all.len() implies bind_settled(
                            #[trigger] all[i],
                        ) by {
                            if i > 0 {
                                assert(all[i] == rest.value[i - 1]);
                            }
                        }
                    },
                    Err(_) => {},
                }
            },
            Err(_) => {},
        }
    }
}

/// An expanded list of binders is settled.
pub proof fn lemma_bind_list_settles(env: Env, errors: Seq<SpecError>, list: SpecBindList)
    ensures
        match expand_bind_list(env, errors, list) {
            Ok(done) => binds_settled(done.value.value),
            Err(_) => true,
        },
{
    reveal(expand_bind_list);
    lemma_binds_settle(env, errors, list.value);
}

/// An expanded assignment pattern is settled.
pub proof fn lemma_assign_settles(env: Env, errors: Seq<SpecError>, a: SpecAssign)
    ensures
        match expand_assign(env, errors, a) {
            Ok(done) => assign_settled(done.value),
            Err(_) => true,
        },
    decreases a,
{
    reveal(expand_assign);
    reveal(expand_assign_fields);
    match a.value {
        SpecAssign_::Var(_, st) => {
            lemma_single_settles(env, errors, st);
        },
        SpecAssign_::Unpack(_, _, bts, fields) => {
            lemma_whole_bases_settles(env, errors, bts);
            match expand_bases(env, errors, bts) {
                Ok(s0) => {
                    lemma_assign_fields_settle(env, s0.errors, fields);
                },
                Err(_) => {},
            }
        },
        SpecAssign_::BorrowUnpack(_, _, _, bts, fields) => {
            lemma_whole_bases_settles(env, errors, bts);
            match expand_bases(env, errors, bts) {
                Ok(s0) => {
                    lemma_assign_fields_settle(env, s0.errors, fields);
                },
                Err(_) => {},
            }
        },
        _ => {},
    }
}

/// An expanded field of an assignment is settled.
pub proof fn lemma_assign_field_settles(env: Env, errors: Seq<SpecError>, f: SpecAssignField)
    ensures
        match expand_assign_field(env, errors, f) {
            Ok(done) => assign_field_settled(done.value),
            Err(_) => true,
        },
    decreases f,
{
    reveal(expand_assign_field);
    reveal(expand_assign);
    lemma_whole_base_settles(env, errors, f.ty);
    match expand_base(env, errors, f.ty) {
        Ok(s0) => {
            lemma_assign_settles(env, s0.errors, f.assign);
        },
        Err(_) => {},
    }
}

/// Expanded fields of an assignment are as many as before, and each is settled.
pub proof fn lemma_assign_fields_settle(
    env: Env,
    errors: Seq<SpecError>,
    items: Seq<SpecAssignField>,
)
    ensures
        match expand_assign_fields(env, errors, items) {
            Ok(done) => assign_fields_settled(done.value) && done.value.len() == items.len(),
            Err(_) => true,
        },
    decreases items,
{
    reveal(expand_assign_fields);
    reveal(expand_assign_field);
    if items.len() > 0 {
        lemma_assign_field_settles(env, errors, items[0]);
        match expand_assign_field(env, errors, items[0]) {
            Ok(first) => {
                lemma_assign_fields_settle(env, first.errors, items.drop_first());
                match expand_assign_fields(env, first.errors, items.drop_first()) {
                    Ok(rest) => {
                        let head = first.value;
                        let all = seq![head] + rest.value;
                        assert(assign_field_settled(head));
                        assert forall|i: int| 0 <= i < all.len() implies assign_field_settled(
                            #[trigger] all[i],
                        ) by {
                            if i > 0 {
                                assert(all[i] == rest.value[i - 1]);
                            }
                        }
                    },
                    Err(_) => {},
                }
            },
            Err(_) => {},
        }
    }
}

/// Expanded assignment patterns are as many as before, and each is settled.
pub proof fn lemma_assigns_settle(env: Env, errors: Seq<SpecError>, items: Seq<SpecAssign>)
    ensures
        match expand_assigns(env, errors, items) {
            Ok(done) => assigns_settled(done.value) && done.value.len() == items.len(),
            Err(_) => true,
        },
    decreases items.len(),
{
    reveal(expand_assigns);
    if items.len() > 0 {
        lemma_assign_settles(env, errors, items[0]);
        match expand_assign(env, errors, items[0]) {
            Ok(first) => {
                lemma_assigns_settle(env, first.errors, items.drop_first());
                match expand_assigns(env, first.errors, items.drop_first()) {
                    Ok(rest) => {
                        let head = first.value;
                        let all = seq![head] + rest.value;
                        assert(assign_settled(head));
                        assert forall|i: int| 0 <= i < all.len() implies assign_settled(
                            #[trigger] all[i],
                        ) by {
                            if i > 0 {
                                assert(all[i] == rest.value[i - 1]);
                            }
                        }
                    },
                    Err(_) => {},
                }
            },
            Err(_) => {},
        }
    }
}

/// An expanded list of assignment patterns is settled.
pub proof fn lemma_assign_list_settles(env: Env, errors: Seq<SpecError>, list: SpecAssignList)
    ensures
        match expand_assign_list(env, errors, list) {
            Ok(done) => assigns_settled(done.value.value),
            Err(_) => true,
        },
{
    reveal(expand_assign_list);
    lemma_assigns_settle(env, errors, list.value);
}

/// An expanded builtin operation is settled.
pub proof fn lemma_builtin_settles(env: Env, errors: Seq<SpecError>, b: SpecBuiltinFunction)
    ensures
        match expand_builtin(env, errors, b) {
            Ok(done) => builtin_settled(done.value),
            Err(_) => true,
        },
{
    reveal(expand_builtin);
    match b.value {
        SpecBuiltinFunction_::MoveToSender(bt) => {
            lemma_whole_base_settles(env, errors, bt);
        },
        SpecBuiltinFunction_::MoveFrom(bt) => {
            lemma_whole_base_settles(env, errors, bt);
        },
        SpecBuiltinFunction_::BorrowGlobal(_, bt) => {
            lemma_whole_base_settles(env, errors, bt);
        },
        SpecBuiltinFunction_::Exists(bt) => {
            lemma_whole_base_settles(env, errors, bt);
        },
        SpecBuiltinFunction_::Freeze(bt) => {
            lemma_whole_base_settles(env, errors, bt);
        },
    }
}

/// An expanded expression is settled.
pub proof fn lemma_exp_settles(env: Env, errors: Seq<SpecError>, e: SpecExp)
    ensures
        match expand_exp(env, errors, e) {
            Ok(done) => exp_settled(done.value),
            Err(_) => true,
        },
    decreases e,
{
    reveal(expand_exp);
    reveal(expand_annotation);
    reveal(expand_node);
    lemma_type_settles(env, errors, e.ty);
    match expand_annotation(env, errors, e) {
        Ok(ty) => {
            lemma_node_settles(env, ty.errors, ty.value, e.exp);
        },
        Err(_) => {},
    }
}

/// What an expanded expression is made of is settled, and the expression
/// leaves its place exactly if it did before.
pub proof fn lemma_node_settles(
    env: Env,
    errors: Seq<SpecError>,
    ty: SpecType,
    exp: SpecUnannotatedExp,
)
    ensures
        match expand_node(env, errors, ty, exp) {
            Ok(done) => node_settled(SpecUnannotatedExp { loc: exp.loc, value: done.value })
                && control_exit(done.value) == control_exit(exp.value),
            Err(_) => true,
        },
    decreases exp, 1nat,
{
    reveal(expand_node);
    reveal(expand_rewritten_forms);
    reveal(expand_use);
    reveal(expand_literal);
    reveal(expand_operand_forms);
    lemma_operand_forms_settle(env, errors, exp);
    reveal(expand_branch_forms);
    lemma_branch_forms_settle(env, errors, exp);
    reveal(expand_typed_forms);
    lemma_typed_forms_settle(env, errors, exp);
    reveal(expand_call_forms);
    lemma_call_forms_settle(env, errors, exp);
    reveal(expand_block_forms);
    lemma_block_forms_settle(env, errors, exp);
    reveal(expand_aggregate_forms);
    lemma_aggregate_forms_settle(env, errors, exp);
}

/// Expanded, a form with one expression inside is settled, and it leaves its
/// place exactly if it did before.
pub proof fn lemma_operand_forms_settle(env: Env, errors: Seq<SpecError>, exp: SpecUnannotatedExp)
    ensures
        match expand_operand_forms(env, errors, exp) {
            Ok(done) => operand_form(exp.value) ==> node_settled(
                SpecUnannotatedExp { loc: exp.loc, value: done.value },
            ) && control_exit(done.value) == control_exit(exp.value),
            Err(_) => true,
        },
    decreases exp, 0nat,
{
    reveal(expand_operand_forms);
    reveal(expand_exp);
    match exp.value {
        SpecUnannotatedExp_::Return(er) => {
            lemma_exp_settles(env, errors, *er);
        },
        SpecUnannotatedExp_::Abort(er) => {
            lemma_exp_settles(env, errors, *er);
        },
        SpecUnannotatedExp_::Dereference(er) => {
            lemma_exp_settles(env, errors, *er);
        },
        SpecUnannotatedExp_::UnaryExp(_, er) => {
            lemma_exp_settles(env, errors, *er);
        },
        SpecUnannotatedExp_::Borrow(_, er, _) => {
            lemma_exp_settles(env, errors, *er);
        },
        SpecUnannotatedExp_::TempBorrow(_, er) => {
            lemma_exp_settles(env, errors, *er);
        },
        SpecUnannotatedExp_::Loop { has_break: _, body } => {
            lemma_exp_settles(env, errors, *body);
        },
        _ => {},
    }
}

/// Expanded, a form with several expressions inside is settled, and it leaves
/// its place exactly if it did before.
pub proof fn lemma_branch_forms_settle(env: Env, errors: Seq<SpecError>, exp: SpecUnannotatedExp)
    ensures
        match expand_branch_forms(env, errors, exp) {
            Ok(done) => branch_form(exp.value) ==> node_settled(
                SpecUnannotatedExp { loc: exp.loc, value: done.value },
            ) && control_exit(done.value) == control_exit(exp.value),
            Err(_) => true,
        },
    decreases exp, 0nat,
{
    reveal(expand_branch_forms);
    reveal(expand_exp);
    match exp.value {
        SpecUnannotatedExp_::IfElse(eb, et, ef) => {
            lemma_exp_settles(env, errors, *eb);
            match expand_exp(env, errors, *eb) {
                Ok(s0) => {
                    lemma_exp_settles(env, s0.errors, *et);
                    match expand_exp(env, s0.errors, *et) {
                        Ok(s1) => {
                            lemma_exp_settles(env, s1.errors, *ef);
                        },
                        Err(_) => {},
                    }
                },
                Err(_) => {},
            }
        },
        SpecUnannotatedExp_::While(eb, eloop) => {
            lemma_exp_settles(env, errors, *eb);
            match expand_exp(env, errors, *eb) {
                Ok(s0) => {
                    lemma_exp_settles(env, s0.errors, *eloop);
                },
                Err(_) => {},
            }
        },
        SpecUnannotatedExp_::Mutate(el, er) => {
            lemma_exp_settles(env, errors, *el);
            match expand_exp(env, errors, *el) {
                Ok(s0) => {
                    lemma_exp_settles(env, s0.errors, *er);
                },
                Err(_) => {},
            }
        },
        _ => {},
    }
}

/// Expanded, a form that carries a type of its own is settled, and it leaves
/// its place exactly if it did before.
pub proof fn lemma_typed_forms_settle(env: Env, errors: Seq<SpecError>, exp: SpecUnannotatedExp)
    ensures
        match expand_typed_forms(env, errors, exp) {
            Ok(done) => typed_form(exp.value) ==> node_settled(
                SpecUnannotatedExp { loc: exp.loc, value: done.value },
            ) && control_exit(done.value) == control_exit(exp.value),
            Err(_) => true,
        },
    decreases exp, 0nat,
{
    reveal(expand_typed_forms);
    reveal(expand_exp);
    match exp.value {
        SpecUnannotatedExp_::BinopExp(el, _, operand_ty, er) => {
            lemma_exp_settles(env, errors, *el);
            match expand_exp(env, errors, *el) {
                Ok(s0) => {
                    lemma_exp_settles(env, s0.errors, *er);
                    match expand_exp(env, s0.errors, *er) {
                        Ok(s1) => {
                            lemma_type_settles(env, s1.errors, *operand_ty);
                        },
                        Err(_) => {},
                    }
                },
                Err(_) => {},
            }
        },
        SpecUnannotatedExp_::Cast(el, rhs_ty) => {
            lemma_exp_settles(env, errors, *el);
            match expand_exp(env, errors, *el) {
                Ok(s0) => {
                    lemma_type_settles(env, s0.errors, *rhs_ty);
                },
                Err(_) => {},
            }
        },
        SpecUnannotatedExp_::Annotate(el, rhs_ty) => {
            lemma_exp_settles(env, errors, *el);
            match expand_exp(env, errors, *el) {
                Ok(s0) => {
                    lemma_type_settles(env, s0.errors, *rhs_ty);
                },
                Err(_) => {},
            }
        },
        _ => {},
    }
}

/// Expanded, a call is settled, and it leaves its place exactly if it did before.
pub proof fn lemma_call_forms_settle(env: Env, errors: Seq<SpecError>, exp: SpecUnannotatedExp)
    ensures
        match expand_call_forms(env, errors, exp) {
            Ok(done) => call_form(exp.value) ==> node_settled(
                SpecUnannotatedExp { loc: exp.loc, value: done.value },
            ) && control_exit(done.value) == control_exit(exp.value),
            Err(_) => true,
        },
    decreases exp, 0nat,
{
    reveal(expand_call_forms);
    reveal(expand_exp);
    reveal(expand_call);
    match exp.value {
        SpecUnannotatedExp_::ModuleCall(call) => {
            lemma_call_settles(env, errors, *call);
        },
        SpecUnannotatedExp_::Builtin(b, args) => {
            lemma_builtin_settles(env, errors, *b);
            match expand_builtin(env, errors, *b) {
                Ok(s0) => {
                    lemma_exp_settles(env, s0.errors, *args);
                },
                Err(_) => {},
            }
        },
        _ => {},
    }
}

/// Expanded, a block or an assignment is settled, and it leaves its place exactly if it did before.
pub proof fn lemma_block_forms_settle(env: Env, errors: Seq<SpecError>, exp: SpecUnannotatedExp)
    ensures
        match expand_block_forms(env, errors, exp) {
            Ok(done) => block_form(exp.value) ==> node_settled(
                SpecUnannotatedExp { loc: exp.loc, value: done.value },
            ) && control_exit(done.value) == control_exit(exp.value),
            Err(_) => true,
        },
    decreases exp, 0nat,
{
    reveal(expand_block_forms);
    reveal(expand_exp);
    reveal(expand_sequence);
    match exp.value {
        SpecUnannotatedExp_::Block(items) => {
            lemma_sequence_settle(env, errors, items);
        },
        SpecUnannotatedExp_::Assign(assigns, tys, er) => {
            lemma_assign_list_settles(env, errors, assigns);
            match expand_assign_list(env, errors, assigns) {
                Ok(s0) => {
                    lemma_expecteds_settle(env, s0.errors, tys);
                    match expand_expecteds(env, s0.errors, tys) {
                        Ok(s1) => {
                            lemma_exp_settles(env, s1.errors, *er);
                        },
                        Err(_) => {},
                    }
                },
                Err(_) => {},
            }
        },
        _ => {},
    }
}

/// Expanded, a struct that is built or a tuple is settled, and it leaves its
/// place exactly if it did before.
pub proof fn lemma_aggregate_forms_settle(env: Env, errors: Seq<SpecError>, exp: SpecUnannotatedExp)
    ensures
        match expand_aggregate_forms(env, errors, exp) {
            Ok(done) => aggregate_form(exp.value) ==> node_settled(
                SpecUnannotatedExp { loc: exp.loc, value: done.value },
            ) && control_exit(done.value) == control_exit(exp.value),
            Err(_) => true,
        },
    decreases exp, 0nat,
{
    reveal(expand_aggregate_forms);
    reveal(expand_pack_fields);
    reveal(expand_exp_list);
    match exp.value {
        SpecUnannotatedExp_::Pack(_, _, bs, fields) => {
            lemma_whole_bases_settles(env, errors, bs);
            match expand_bases(env, errors, bs) {
                Ok(s0) => {
                    lemma_pack_fields_settle(env, s0.errors, fields);
                },
                Err(_) => {},
            }
        },
        SpecUnannotatedExp_::ExpList(items) => {
            lemma_exp_list_settle(env, errors, items);
        },
        _ => {},
    }
}

/// An expanded call is settled.
pub proof fn lemma_call_settles(env: Env, errors: Seq<SpecError>, call: SpecModuleCall)
    ensures
        match expand_call(env, errors, call) {
            Ok(done) => call_settled(done.value),
            Err(_) => true,
        },
    decreases call,
{
    reveal(expand_call);
    reveal(expand_exp);
    lemma_whole_bases_settles(env, errors, call.type_arguments);
    match expand_bases(env, errors, call.type_arguments) {
        Ok(s0) => {
            lemma_exp_settles(env, s0.errors, *call.arguments);
            match expand_exp(env, s0.errors, *call.arguments) {
                Ok(s1) => {
                    lemma_singles_settle(env, s1.errors, call.parameter_types);
                },
                Err(_) => {},
            }
        },
        Err(_) => {},
    }
}

/// An expanded field of a struct that is built is settled.
pub proof fn lemma_pack_field_settles(env: Env, errors: Seq<SpecError>, f: SpecPackField)
    ensures
        match expand_pack_field(env, errors, f) {
            Ok(done) => pack_field_settled(done.value),
            Err(_) => true,
        },
    decreases f,
{
    reveal(expand_pack_field);
    reveal(expand_exp);
    lemma_whole_base_settles(env, errors, f.ty);
    match expand_base(env, errors, f.ty) {
        Ok(s0) => {
            lemma_exp_settles(env, s0.errors, f.exp);
        },
        Err(_) => {},
    }
}

/// Expanded fields of a struct that is built are as many as before, and each is settled.
pub proof fn lemma_pack_fields_settle(env: Env, errors: Seq<SpecError>, items: Seq<SpecPackField>)
    ensures
        match expand_pack_fields(env, errors, items) {
            Ok(done) => pack_fields_settled(done.value) && done.value.len() == items.len(),
            Err(_) => true,
        },
    decreases items,
{
    reveal(expand_pack_fields);
    reveal(expand_pack_field);
    if items.len() > 0 {
        lemma_pack_field_settles(env, errors, items[0]);
        match expand_pack_field(env, errors, items[0]) {
            Ok(first) => {
                lemma_pack_fields_settle(env, first.errors, items.drop_first());
                match expand_pack_fields(env, first.errors, items.drop_first()) {
                    Ok(rest) => {
                        let head = first.value;
                        let all = seq![head] + rest.value;
                        assert(pack_field_settled(head));
                        assert forall|i: int| 0 <= i < all.len() implies pack_field_settled(
                            #[trigger] all[i],
                        ) by {
                            if i > 0 {
                                assert(all[i] == rest.value[i - 1]);
                            }
                        }
                    },
                    Err(_) => {},
                }
            },
            Err(_) => {},
        }
    }
}

/// An expanded entry of a tuple is settled.
pub proof fn lemma_exp_list_item_settles(env: Env, errors: Seq<SpecError>, item: SpecExpListItem)
    ensures
        match expand_exp_list_item(env, errors, item) {
            Ok(done) => exp_list_item_settled(done.value),
            Err(_) => true,
        },
    decreases item,
{
    reveal(expand_exp_list_item);
    reveal(expand_exp);
    match item {
        SpecExpListItem::Single(e, st) => {
            lemma_exp_settles(env, errors, e);
            match expand_exp(env, errors, e) {
                Ok(s0) => {
                    lemma_single_settles(env, s0.errors, *st);
                },
                Err(_) => {},
            }
        },
        SpecExpListItem::Splat(_, e, ss) => {
            lemma_exp_settles(env, errors, e);
            match expand_exp(env, errors, e) {
                Ok(s0) => {
                    lemma_singles_settle(env, s0.errors, ss);
                },
                Err(_) => {},
            }
        },
    }
}

/// Expanded entries of a tuple are as many as before, and each is settled.
pub proof fn lemma_exp_list_settle(env: Env, errors: Seq<SpecError>, items: Seq<SpecExpListItem>)
    ensures
        match expand_exp_list(env, errors, items) {
            Ok(done) => exp_list_settled(done.value) && done.value.len() == items.len(),
            Err(_) => true,
        },
    decreases items,
{
    reveal(expand_exp_list);
    reveal(expand_exp_list_item);
    if items.len() > 0 {
        lemma_exp_list_item_settles(env, errors, items[0]);
        match expand_exp_list_item(env, errors, items[0]) {
            Ok(first) => {
                lemma_exp_list_settle(env, first.errors, items.drop_first());
                match expand_exp_list(env, first.errors, items.drop_first()) {
                    Ok(rest) => {
                        let head = first.value;
                        let all = seq![head] + rest.value;
                        assert(exp_list_item_settled(head));
                        assert forall|i: int| 0 <= i < all.len() implies exp_list_item_settled(
                            #[trigger] all[i],
                        ) by {
                            if i > 0 {
                                assert(all[i] == rest.value[i - 1]);
                            }
                        }
                    },
                    Err(_) => {},
                }
            },
            Err(_) => {},
        }
    }
}

/// An expanded item of a sequence is settled.
pub proof fn lemma_sequence_item_settles(env: Env, errors: Seq<SpecError>, item: SpecSequenceItem)
    ensures
        match expand_sequence_item(env, errors, item) {
            Ok(done) => sequence_item_settled(done.value),
            Err(_) => true,
        },
    decreases item,
{
    reveal(expand_sequence_item);
    reveal(expand_exp);
    match item.value {
        SpecSequenceItem_::Eval(e) => {
            lemma_exp_settles(env, errors, *e);
        },
        SpecSequenceItem_::Declare(binds) => {
            lemma_bind_list_settles(env, errors, binds);
        },
        SpecSequenceItem_::Bind(binds, tys, e) => {
            lemma_bind_list_settles(env, errors, binds);
            match expand_bind_list(env, errors, binds) {
                Ok(s0) => {
                    lemma_expecteds_settle(env, s0.errors, tys);
                    match expand_expecteds(env, s0.errors, tys) {
                        Ok(s1) => {
                            lemma_exp_settles(env, s1.errors, *e);
                        },
                        Err(_) => {},
                    }
                },
                Err(_) => {},
            }
        },
    }
}

/// Expanded items of a sequence are as many as before, and each is settled.
pub proof fn lemma_sequence_settle(env: Env, errors: Seq<SpecError>, items: Seq<SpecSequenceItem>)
    ensures
        match expand_sequence(env, errors, items) {
            Ok(done) => sequence_settled(done.value) && done.value.len() == items.len(),
            Err(_) => true,
        },
    decreases items,
{
    reveal(expand_sequence);
    reveal(expand_sequence_item);
    if items.len() > 0 {
        lemma_sequence_item_settles(env, errors, items[0]);
        match expand_sequence_item(env, errors, items[0]) {
            Ok(first) => {
                lemma_sequence_settle(env, first.errors, items.drop_first());
                match expand_sequence(env, first.errors, items.drop_first()) {
                    Ok(rest) => {
                        let head = first.value;
                        let all = seq![head] + rest.value;
                        assert(sequence_item_settled(head));
                        assert forall|i: int| 0 <= i < all.len() implies sequence_item_settled(
                            #[trigger] all[i],
                        ) by {
                            if i > 0 {
                                assert(all[i] == rest.value[i - 1]);
                            }
                        }
                    },
                    Err(_) => {},
                }
            },
            Err(_) => {},
        }
    }
}

/// An expanded function body is settled.
pub proof fn lemma_body_settles(env: Env, errors: Seq<SpecError>, b: SpecFunctionBody_)
    ensures
        match expand_body(env, errors, b) {
            Ok(done) => body_settled(done.value),
            Err(_) => true,
        },
{
    reveal(expand_body);
    match b {
        SpecFunctionBody_::Native => {},
        SpecFunctionBody_::Defined(items) => {
            lemma_sequence_settle(env, errors, items);
        },
    }
}

} // verus!
