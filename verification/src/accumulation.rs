//! Expansion only adds to what is reported: a diagnostic, once reported, stays
//! where it is in the list.
use crate::context::{unfold_base, Env, SpecError};
use crate::semantics::{
    expand_aggregate_forms, expand_annotation, expand_assign, expand_assign_field,
    expand_assign_fields, expand_assign_list, expand_assigns, expand_base, expand_base_at,
    expand_bases, expand_bases_at, expand_bind, expand_bind_field, expand_bind_fields,
    expand_bind_list, expand_binds, expand_block_forms, expand_body, expand_branch_forms,
    expand_builtin, expand_call, expand_call_forms, expand_exp, expand_exp_list,
    expand_exp_list_item, expand_expected, expand_expecteds, expand_literal, expand_node,
    expand_operand_forms, expand_pack_field, expand_pack_fields, expand_parameters,
    expand_rewritten_forms, expand_sequence, expand_sequence_item, expand_signature, expand_single,
    expand_singles, expand_type, expand_typed_forms, expand_use, nesting_bound,
};
use crate::syntax::{
    SpecAssign, SpecAssignField, SpecAssignList, SpecAssign_, SpecBind, SpecBindField, SpecBindList,
    SpecBind_, SpecBuiltinFunction, SpecBuiltinFunction_, SpecExp, SpecExpListItem,
    SpecFunctionBody_, SpecModuleCall, SpecPackField, SpecSequenceItem, SpecSequenceItem_,
    SpecUnannotatedExp, SpecUnannotatedExp_,
};
use crate::types::{
    SpecBaseType, SpecBaseType_, SpecFunctionSignature, SpecParameter, SpecSingleType,
    SpecSingleType_, SpecType, SpecType_,
};
use vstd::prelude::*;

verus! {

/// A list that begins a list that begins a third begins the third.
pub proof fn lemma_prefix_trans(a: Seq<SpecError>, b: Seq<SpecError>, c: Seq<SpecError>)
    requires
        a.is_prefix_of(b),
        b.is_prefix_of(c),
    ensures
        a.is_prefix_of(c),
{
    assert(a =~= c.subrange(0, a.len() as int));
}

/// What was reported before a base type is expanded is still there after.
pub proof fn lemma_base_grows(env: Env, errors: Seq<SpecError>, bt: SpecBaseType, depth: nat)
    ensures
        match expand_base_at(env, errors, bt, depth) {
            Ok(done) => errors.is_prefix_of(done.errors),
            Err(_) => true,
        },
    decreases depth, bt,
{
    reveal(expand_base_at);
    reveal(expand_bases_at);
    match bt.value {
        SpecBaseType_::Var(_) => {
            match unfold_base(env.subst, bt) {
                Ok(t) => {
                    if t.value is Apply && depth > 0 {
                        lemma_base_grows(env, errors, t, (depth - 1) as nat);
                    }
                },
                Err(_) => {},
            }
        },
        SpecBaseType_::Apply(_, _, args) => {
            lemma_bases_grow(env, errors, args, depth);
        },
        _ => {},
    }
}

/// What was reported before base types are expanded is still there after.
pub proof fn lemma_bases_grow(
    env: Env,
    errors: Seq<SpecError>,
    items: Seq<SpecBaseType>,
    depth: nat,
)
    ensures
        match expand_bases_at(env, errors, items, depth) {
            Ok(done) => errors.is_prefix_of(done.errors),
            Err(_) => true,
        },
    decreases depth, items,
{
    reveal(expand_bases_at);
    reveal(expand_base_at);
    if items.len() > 0 {
        lemma_base_grows(env, errors, items[0], depth);
        match expand_base_at(env, errors, items[0], depth) {
            Ok(first) => {
                lemma_bases_grow(env, first.errors, items.drop_first(), depth);
                match expand_bases_at(env, first.errors, items.drop_first(), depth) {
                    Ok(rest) => {
                        lemma_prefix_trans(errors, first.errors, rest.errors);
                    },
                    Err(_) => {},
                }
            },
            Err(_) => {},
        }
    }
}

/// What was reported before a base type is expanded is still there after.
pub proof fn lemma_whole_base_grows(env: Env, errors: Seq<SpecError>, bt: SpecBaseType)
    ensures
        match expand_base(env, errors, bt) {
            Ok(done) => errors.is_prefix_of(done.errors),
            Err(_) => true,
        },
{
    reveal(expand_base);
    lemma_base_grows(env, errors, bt, nesting_bound(env));
}

/// What was reported before base types are expanded is still there after.
pub proof fn lemma_whole_bases_grows(env: Env, errors: Seq<SpecError>, items: Seq<SpecBaseType>)
    ensures
        match expand_bases(env, errors, items) {
            Ok(done) => errors.is_prefix_of(done.errors),
            Err(_) => true,
        },
{
    reveal(expand_bases);
    lemma_bases_grow(env, errors, items, nesting_bound(env));
}

/// What was reported before a single type is expanded is still there after.
pub proof fn lemma_single_grows(env: Env, errors: Seq<SpecError>, st: SpecSingleType)
    ensures
        match expand_single(env, errors, st) {
            Ok(done) => errors.is_prefix_of(done.errors),
            Err(_) => true,
        },
{
    reveal(expand_single);
    match st.value {
        SpecSingleType_::Base(b) => {
            lemma_whole_base_grows(env, errors, b);
        },
        SpecSingleType_::Ref(_, b) => {
            lemma_whole_base_grows(env, errors, b);
        },
    }
}

/// What was reported before single types are expanded is still there after.
pub proof fn lemma_singles_grow(env: Env, errors: Seq<SpecError>, items: Seq<SpecSingleType>)
    ensures
        match expand_singles(env, errors, items) {
            Ok(done) => errors.is_prefix_of(done.errors),
            Err(_) => true,
        },
    decreases items.len(),
{
    reveal(expand_singles);
    if items.len() > 0 {
        lemma_single_grows(env, errors, items[0]);
        match expand_single(env, errors, items[0]) {
            Ok(first) => {
                lemma_singles_grow(env, first.errors, items.drop_first());
                match expand_singles(env, first.errors, items.drop_first()) {
                    Ok(rest) => {
                        lemma_prefix_trans(errors, first.errors, rest.errors);
                    },
                    Err(_) => {},
                }
            },
            Err(_) => {},
        }
    }
}

/// What was reported before an expected type is expanded is still there after.
pub proof fn lemma_expected_grows(env: Env, errors: Seq<SpecError>, st: Option<SpecSingleType>)
    ensures
        match expand_expected(env, errors, st) {
            Ok(done) => errors.is_prefix_of(done.errors),
            Err(_) => true,
        },
{
    reveal(expand_expected);
    match st {
        Some(s) => {
            lemma_single_grows(env, errors, s);
        },
        None => {},
    }
}

/// What was reported before expected types are expanded is still there after.
pub proof fn lemma_expecteds_grow(
    env: Env,
    errors: Seq<SpecError>,
    items: Seq<Option<SpecSingleType>>,
)
    ensures
        match expand_expecteds(env, errors, items) {
            Ok(done) => errors.is_prefix_of(done.errors),
            Err(_) => true,
        },
    decreases items.len(),
{
    reveal(expand_expecteds);
    if items.len() > 0 {
        lemma_expected_grows(env, errors, items[0]);
        match expand_expected(env, errors, items[0]) {
            Ok(first) => {
                lemma_expecteds_grow(env, first.errors, items.drop_first());
                match expand_expecteds(env, first.errors, items.drop_first()) {
                    Ok(rest) => {
                        lemma_prefix_trans(errors, first.errors, rest.errors);
                    },
                    Err(_) => {},
                }
            },
            Err(_) => {},
        }
    }
}

/// What was reported before a type is expanded is still there after.
pub proof fn lemma_type_grows(env: Env, errors: Seq<SpecError>, ty: SpecType)
    ensures
        match expand_type(env, errors, ty) {
            Ok(done) => errors.is_prefix_of(done.errors),
            Err(_) => true,
        },
{
    reveal(expand_type);
    match ty.value {
        SpecType_::Unit => {},
        SpecType_::Single(s) => {
            lemma_single_grows(env, errors, s);
        },
        SpecType_::Multiple(ss) => {
            lemma_singles_grow(env, errors, ss);
        },
    }
}

/// What was reported before the parameters are expanded is still there after.
pub proof fn lemma_parameters_grow(env: Env, errors: Seq<SpecError>, items: Seq<SpecParameter>)
    ensures
        match expand_parameters(env, errors, items) {
            Ok(done) => errors.is_prefix_of(done.errors),
            Err(_) => true,
        },
    decreases items.len(),
{
    reveal(expand_parameters);
    if items.len() > 0 {
        lemma_single_grows(env, errors, items[0].ty);
        match expand_single(env, errors, items[0].ty) {
            Ok(first) => {
                lemma_parameters_grow(env, first.errors, items.drop_first());
                match expand_parameters(env, first.errors, items.drop_first()) {
                    Ok(rest) => {
                        lemma_prefix_trans(errors, first.errors, rest.errors);
                    },
                    Err(_) => {},
                }
            },
            Err(_) => {},
        }
    }
}

/// What was reported before a signature is expanded is still there after.
pub proof fn lemma_signature_grows(env: Env, errors: Seq<SpecError>, sig: SpecFunctionSignature)
    ensures
        match expand_signature(env, errors, sig) {
            Ok(done) => errors.is_prefix_of(done.errors),
            Err(_) => true,
        },
{
    reveal(expand_signature);
    lemma_parameters_grow(env, errors, sig.parameters);
    match expand_parameters(env, errors, sig.parameters) {
        Ok(s0) => {
            lemma_type_grows(env, s0.errors, sig.return_type);
            match expand_type(env, s0.errors, sig.return_type) {
                Ok(s1) => {
                    lemma_prefix_trans(errors, s0.errors, s1.errors);
                },
                Err(_) => {},
            }
        },
        Err(_) => {},
    }
}

/// What was reported before a binder is expanded is still there after.
pub proof fn lemma_bind_grows(env: Env, errors: Seq<SpecError>, b: SpecBind)
    ensures
        match expand_bind(env, errors, b) {
            Ok(done) => errors.is_prefix_of(done.errors),
            Err(_) => true,
        },
    decreases b,
{
    reveal(expand_bind);
    reveal(expand_bind_fields);
    match b.value {
        SpecBind_::Var(_, Some(st)) => {
            lemma_single_grows(env, errors, st);
        },
        SpecBind_::Unpack(_, _, bts, fields) => {
            lemma_whole_bases_grows(env, errors, bts);
            match expand_bases(env, errors, bts) {
                Ok(s0) => {
                    lemma_bind_fields_grow(env, s0.errors, fields);
                    match expand_bind_fields(env, s0.errors, fields) {
                        Ok(s1) => {
                            lemma_prefix_trans(errors, s0.errors, s1.errors);
                        },
                        Err(_) => {},
                    }
                },
                Err(_) => {},
            }
        },
        SpecBind_::BorrowUnpack(_, _, _, bts, fields) => {
            lemma_whole_bases_grows(env, errors, bts);
            match expand_bases(env, errors, bts) {
                Ok(s0) => {
                    lemma_bind_fields_grow(env, s0.errors, fields);
                    match expand_bind_fields(env, s0.errors, fields) {
                        Ok(s1) => {
                            lemma_prefix_trans(errors, s0.errors, s1.errors);
                        },
                        Err(_) => {},
                    }
                },
                Err(_) => {},
            }
        },
        _ => {},
    }
}

/// What was reported before a field of a binder is expanded is still there after.
pub proof fn lemma_bind_field_grows(env: Env, errors: Seq<SpecError>, f: SpecBindField)
    ensures
        match expand_bind_field(env, errors, f) {
            Ok(done) => errors.is_prefix_of(done.errors),
            Err(_) => true,
        },
    decreases f,
{
    reveal(expand_bind_field);
    reveal(expand_bind);
    lemma_whole_base_grows(env, errors, f.ty);
    match expand_base(env, errors, f.ty) {
        Ok(s0) => {
            lemma_bind_grows(env, s0.errors, f.bind);
            match expand_bind(env, s0.errors, f.bind) {
                Ok(s1) => {
                    lemma_prefix_trans(errors, s0.errors, s1.errors);
                },
                Err(_) => {},
            }
        },
        Err(_) => {},
    }
}

/// What was reported before the fields of a binder are expanded is still there after.
pub proof fn lemma_bind_fields_grow(env: Env, errors: Seq<SpecError>, items: Seq<SpecBindField>)
    ensures
        match expand_bind_fields(env, errors, items) {
            Ok(done) => errors.is_prefix_of(done.errors),
            Err(_) => true,
        },
    decreases items,
{
    reveal(expand_bind_fields);
    reveal(expand_bind_field);
    if items.len() > 0 {
        lemma_bind_field_grows(env, errors, items[0]);
        match expand_bind_field(env, errors, items[0]) {
            Ok(first) => {
                lemma_bind_fields_grow(env, first.errors, items.drop_first());
                match expand_bind_fields(env, first.errors, items.drop_first()) {
                    Ok(rest) => {
                        lemma_prefix_trans(errors, first.errors, rest.errors);
                    },
                    Err(_) => {},
                }
            },
            Err(_) => {},
        }
    }
}

/// What was reported before binders are expanded is still there after.
pub proof fn lemma_binds_grow(env: Env, errors: Seq<SpecError>, items: Seq<SpecBind>)
    ensures
        match expand_binds(env, errors, items) {
            Ok(done) => errors.is_prefix_of(done.errors),
            Err(_) => true,
        },
    decreases items.len(),
{
    reveal(expand_binds);
    if items.len() > 0 {
        lemma_bind_grows(env, errors, items[0]);
        match expand_bind(env, errors, items[0]) {
            Ok(first) => {
                lemma_binds_grow(env, first.errors, items.drop_first());
                match expand_binds(env, first.errors, items.drop_first()) {
                    Ok(rest) => {
                        lemma_prefix_trans(errors, first.errors, rest.errors);
                    },
                    Err(_) => {},
                }
            },
            Err(_) => {},
        }
    }
}

/// What was reported before a list of binders is expanded is still there after.
pub proof fn lemma_bind_list_grows(env: Env, errors: Seq<SpecError>, list: SpecBindList)
    ensures
        match expand_bind_list(env, errors, list) {
            Ok(done) => errors.is_prefix_of(done.errors),
            Err(_) => true,
        },
{
    reveal(expand_bind_list);
    lemma_binds_grow(env, errors, list.value);
}

/// What was reported before an assignment pattern is expanded is still there after.
pub proof fn lemma_assign_grows(env: Env, errors: Seq<SpecError>, a: SpecAssign)
    ensures
        match expand_assign(env, errors, a) {
            Ok(done) => errors.is_prefix_of(done.errors),
            Err(_) => true,
        },
    decreases a,
{
    reveal(expand_assign);
    reveal(expand_assign_fields);
    match a.value {
        SpecAssign_::Var(_, st) => {
            lemma_single_grows(env, errors, st);
        },
        SpecAssign_::Unpack(_, _, bts, fields) => {
            lemma_whole_bases_grows(env, errors, bts);
            match expand_bases(env, errors, bts) {
                Ok(s0) => {
                    lemma_assign_fields_grow(env, s0.errors, fields);
                    match expand_assign_fields(env, s0.errors, fields) {
                        Ok(s1) => {
                            lemma_prefix_trans(errors, s0.errors, s1.errors);
                        },
                        Err(_) => {},
                    }
                },
                Err(_) => {},
            }
        },
        SpecAssign_::BorrowUnpack(_, _, _, bts, fields) => {
            lemma_whole_bases_grows(env, errors, bts);
            match expand_bases(env, errors, bts) {
                Ok(s0) => {
                    lemma_assign_fields_grow(env, s0.errors, fields);
                    match expand_assign_fields(env, s0.errors, fields) {
                        Ok(s1) => {
                            lemma_prefix_trans(errors, s0.errors, s1.errors);
                        },
                        Err(_) => {},
                    }
                },
                Err(_) => {},
            }
        },
        _ => {},
    }
}

/// What was reported before a field of an assignment is expanded is still there after.
pub proof fn lemma_assign_field_grows(env: Env, errors: Seq<SpecError>, f: SpecAssignField)
    ensures
        match expand_assign_field(env, errors, f) {
            Ok(done) => errors.is_prefix_of(done.errors),
            Err(_) => true,
        },
    decreases f,
{
    reveal(expand_assign_field);
    reveal(expand_assign);
    lemma_whole_base_grows(env, errors, f.ty);
    match expand_base(env, errors, f.ty) {
        Ok(s0) => {
            lemma_assign_grows(env, s0.errors, f.assign);
            match expand_assign(env, s0.errors, f.assign) {
                Ok(s1) => {
                    lemma_prefix_trans(errors, s0.errors, s1.errors);
                },
                Err(_) => {},
            }
        },
        Err(_) => {},
    }
}

/// What was reported before the fields of an assignment are expanded is still there after.
pub proof fn lemma_assign_fields_grow(env: Env, errors: Seq<SpecError>, items: Seq<SpecAssignField>)
    ensures
        match expand_assign_fields(env, errors, items) {
            Ok(done) => errors.is_prefix_of(done.errors),
            Err(_) => true,
        },
    decreases items,
{
    reveal(expand_assign_fields);
    reveal(expand_assign_field);
    if items.len() > 0 {
        lemma_assign_field_grows(env, errors, items[0]);
        match expand_assign_field(env, errors, items[0]) {
            Ok(first) => {
                lemma_assign_fields_grow(env, first.errors, items.drop_first());
                match expand_assign_fields(env, first.errors, items.drop_first()) {
                    Ok(rest) => {
                        lemma_prefix_trans(errors, first.errors, rest.errors);
                    },
                    Err(_) => {},
                }
            },
            Err(_) => {},
        }
    }
}

/// What was reported before assignment patterns are expanded is still there after.
pub proof fn lemma_assigns_grow(env: Env, errors: Seq<SpecError>, items: Seq<SpecAssign>)
    ensures
        match expand_assigns(env, errors, items) {
            Ok(done) => errors.is_prefix_of(done.errors),
            Err(_) => true,
        },
    decreases items.len(),
{
    reveal(expand_assigns);
    if items.len() > 0 {
        lemma_assign_grows(env, errors, items[0]);
        match expand_assign(env, errors, items[0]) {
            Ok(first) => {
                lemma_assigns_grow(env, first.errors, items.drop_first());
                match expand_assigns(env, first.errors, items.drop_first()) {
                    Ok(rest) => {
                        lemma_prefix_trans(errors, first.errors, rest.errors);
                    },
                    Err(_) => {},
                }
            },
            Err(_) => {},
        }
    }
}

/// What was reported before a list of assignment patterns is expanded is still there after.
pub proof fn lemma_assign_list_grows(env: Env, errors: Seq<SpecError>, list: SpecAssignList)
    ensures
        match expand_assign_list(env, errors, list) {
            Ok(done) => errors.is_prefix_of(done.errors),
            Err(_) => true,
        },
{
    reveal(expand_assign_list);
    lemma_assigns_grow(env, errors, list.value);
}

/// What was reported before a builtin operation is expanded is still there after.
pub proof fn lemma_builtin_grows(env: Env, errors: Seq<SpecError>, b: SpecBuiltinFunction)
    ensures
        match expand_builtin(env, errors, b) {
            Ok(done) => errors.is_prefix_of(done.errors),
            Err(_) => true,
        },
{
    reveal(expand_builtin);
    match b.value {
        SpecBuiltinFunction_::MoveToSender(bt) => {
            lemma_whole_base_grows(env, errors, bt);
        },
        SpecBuiltinFunction_::MoveFrom(bt) => {
            lemma_whole_base_grows(env, errors, bt);
        },
        SpecBuiltinFunction_::BorrowGlobal(_, bt) => {
            lemma_whole_base_grows(env, errors, bt);
        },
        SpecBuiltinFunction_::Exists(bt) => {
            lemma_whole_base_grows(env, errors, bt);
        },
        SpecBuiltinFunction_::Freeze(bt) => {
            lemma_whole_base_grows(env, errors, bt);
        },
    }
}

/// What was reported before an expression is expanded is still there after.
pub proof fn lemma_exp_grows(env: Env, errors: Seq<SpecError>, e: SpecExp)
    ensures
        match expand_exp(env, errors, e) {
            Ok(done) => errors.is_prefix_of(done.errors),
            Err(_) => true,
        },
    decreases e,
{
    reveal(expand_exp);
    reveal(expand_annotation);
    reveal(expand_node);
    lemma_type_grows(env, errors, e.ty);
    match expand_annotation(env, errors, e) {
        Ok(ty) => {
            lemma_node_grows(env, ty.errors, ty.value, e.exp);
            match expand_node(env, ty.errors, ty.value, e.exp) {
                Ok(node) => {
                    lemma_prefix_trans(errors, ty.errors, node.errors);
                },
                Err(_) => {},
            }
        },
        Err(_) => {},
    }
}

/// What was reported before the parts of an expression are expanded is still
/// there after.
pub proof fn lemma_node_grows(
    env: Env,
    errors: Seq<SpecError>,
    ty: SpecType,
    exp: SpecUnannotatedExp,
)
    ensures
        match expand_node(env, errors, ty, exp) {
            Ok(done) => errors.is_prefix_of(done.errors),
            Err(_) => true,
        },
    decreases exp, 1nat,
{
    reveal(expand_node);
    reveal(expand_rewritten_forms);
    reveal(expand_use);
    reveal(expand_literal);
    reveal(expand_operand_forms);
    lemma_operand_forms_grow(env, errors, exp);
    reveal(expand_branch_forms);
    lemma_branch_forms_grow(env, errors, exp);
    reveal(expand_typed_forms);
    lemma_typed_forms_grow(env, errors, exp);
    reveal(expand_call_forms);
    lemma_call_forms_grow(env, errors, exp);
    reveal(expand_block_forms);
    lemma_block_forms_grow(env, errors, exp);
    reveal(expand_aggregate_forms);
    lemma_aggregate_forms_grow(env, errors, exp);
}

/// What was reported before a form with one expression inside is expanded is still there after.
pub proof fn lemma_operand_forms_grow(env: Env, errors: Seq<SpecError>, exp: SpecUnannotatedExp)
    ensures
        match expand_operand_forms(env, errors, exp) {
            Ok(done) => errors.is_prefix_of(done.errors),
            Err(_) => true,
        },
    decreases exp, 0nat,
{
    reveal(expand_operand_forms);
    reveal(expand_exp);
    match exp.value {
        SpecUnannotatedExp_::Return(er) => {
            lemma_exp_grows(env, errors, *er);
        },
        SpecUnannotatedExp_::Abort(er) => {
            lemma_exp_grows(env, errors, *er);
        },
        SpecUnannotatedExp_::Dereference(er) => {
            lemma_exp_grows(env, errors, *er);
        },
        SpecUnannotatedExp_::UnaryExp(_, er) => {
            lemma_exp_grows(env, errors, *er);
        },
        SpecUnannotatedExp_::Borrow(_, er, _) => {
            lemma_exp_grows(env, errors, *er);
        },
        SpecUnannotatedExp_::TempBorrow(_, er) => {
            lemma_exp_grows(env, errors, *er);
        },
        SpecUnannotatedExp_::Loop { has_break: _, body } => {
            lemma_exp_grows(env, errors, *body);
        },
        _ => {},
    }
}

/// What was reported before a form with several expressions inside is
/// expanded is still there after.
pub proof fn lemma_branch_forms_grow(env: Env, errors: Seq<SpecError>, exp: SpecUnannotatedExp)
    ensures
        match expand_branch_forms(env, errors, exp) {
            Ok(done) => errors.is_prefix_of(done.errors),
            Err(_) => true,
        },
    decreases exp, 0nat,
{
    reveal(expand_branch_forms);
    reveal(expand_exp);
    match exp.value {
        SpecUnannotatedExp_::IfElse(eb, et, ef) => {
            lemma_exp_grows(env, errors, *eb);
            match expand_exp(env, errors, *eb) {
                Ok(s0) => {
                    lemma_exp_grows(env, s0.errors, *et);
                    match expand_exp(env, s0.errors, *et) {
                        Ok(s1) => {
                            lemma_exp_grows(env, s1.errors, *ef);
                            match expand_exp(env, s1.errors, *ef) {
                                Ok(s2) => {
                                    lemma_prefix_trans(errors, s0.errors, s1.errors);
                                    lemma_prefix_trans(errors, s1.errors, s2.errors);
                                },
                                Err(_) => {},
                            }
                        },
                        Err(_) => {},
                    }
                },
                Err(_) => {},
            }
        },
        SpecUnannotatedExp_::While(eb, eloop) => {
            lemma_exp_grows(env, errors, *eb);
            match expand_exp(env, errors, *eb) {
                Ok(s0) => {
                    lemma_exp_grows(env, s0.errors, *eloop);
                    match expand_exp(env, s0.errors, *eloop) {
                        Ok(s1) => {
                            lemma_prefix_trans(errors, s0.errors, s1.errors);
                        },
                        Err(_) => {},
                    }
                },
                Err(_) => {},
            }
        },
        SpecUnannotatedExp_::Mutate(el, er) => {
            lemma_exp_grows(env, errors, *el);
            match expand_exp(env, errors, *el) {
                Ok(s0) => {
                    lemma_exp_grows(env, s0.errors, *er);
                    match expand_exp(env, s0.errors, *er) {
                        Ok(s1) => {
                            lemma_prefix_trans(errors, s0.errors, s1.errors);
                        },
                        Err(_) => {},
                    }
                },
                Err(_) => {},
            }
        },
        _ => {},
    }
}

/// What was reported before a form that carries a type of its own is expanded is still there after.
pub proof fn lemma_typed_forms_grow(env: Env, errors: Seq<SpecError>, exp: SpecUnannotatedExp)
    ensures
        match expand_typed_forms(env, errors, exp) {
            Ok(done) => errors.is_prefix_of(done.errors),
            Err(_) => true,
        },
    decreases exp, 0nat,
{
    reveal(expand_typed_forms);
    reveal(expand_exp);
    match exp.value {
        SpecUnannotatedExp_::BinopExp(el, _, operand_ty, er) => {
            lemma_exp_grows(env, errors, *el);
            match expand_exp(env, errors, *el) {
                Ok(s0) => {
                    lemma_exp_grows(env, s0.errors, *er);
                    match expand_exp(env, s0.errors, *er) {
                        Ok(s1) => {
                            lemma_type_grows(env, s1.errors, *operand_ty);
                            match expand_type(env, s1.errors, *operand_ty) {
                                Ok(s2) => {
                                    lemma_prefix_trans(errors, s0.errors, s1.errors);
                                    lemma_prefix_trans(errors, s1.errors, s2.errors);
                                },
                                Err(_) => {},
                            }
                        },
                        Err(_) => {},
                    }
                },
                Err(_) => {},
            }
        },
        SpecUnannotatedExp_::Cast(el, rhs_ty) => {
            lemma_exp_grows(env, errors, *el);
            match expand_exp(env, errors, *el) {
                Ok(s0) => {
                    lemma_type_grows(env, s0.errors, *rhs_ty);
                    match expand_type(env, s0.errors, *rhs_ty) {
                        Ok(s1) => {
                            lemma_prefix_trans(errors, s0.errors, s1.errors);
                        },
                        Err(_) => {},
                    }
                },
                Err(_) => {},
            }
        },
        SpecUnannotatedExp_::Annotate(el, rhs_ty) => {
            lemma_exp_grows(env, errors, *el);
            match expand_exp(env, errors, *el) {
                Ok(s0) => {
                    lemma_type_grows(env, s0.errors, *rhs_ty);
                    match expand_type(env, s0.errors, *rhs_ty) {
                        Ok(s1) => {
                            lemma_prefix_trans(errors, s0.errors, s1.errors);
                        },
                        Err(_) => {},
                    }
                },
                Err(_) => {},
            }
        },
        _ => {},
    }
}

/// What was reported before a call is expanded is still there after.
pub proof fn lemma_call_forms_grow(env: Env, errors: Seq<SpecError>, exp: SpecUnannotatedExp)
    ensures
        match expand_call_forms(env, errors, exp) {
            Ok(done) => errors.is_prefix_of(done.errors),
            Err(_) => true,
        },
    decreases exp, 0nat,
{
    reveal(expand_call_forms);
    reveal(expand_exp);
    reveal(expand_call);
    match exp.value {
        SpecUnannotatedExp_::ModuleCall(call) => {
            lemma_call_grows(env, errors, *call);
        },
        SpecUnannotatedExp_::Builtin(b, args) => {
            lemma_builtin_grows(env, errors, *b);
            match expand_builtin(env, errors, *b) {
                Ok(s0) => {
                    lemma_exp_grows(env, s0.errors, *args);
                    match expand_exp(env, s0.errors, *args) {
                        Ok(s1) => {
                            lemma_prefix_trans(errors, s0.errors, s1.errors);
                        },
                        Err(_) => {},
                    }
                },
                Err(_) => {},
            }
        },
        _ => {},
    }
}

/// What was reported before a block or an assignment is expanded is still there after.
pub proof fn lemma_block_forms_grow(env: Env, errors: Seq<SpecError>, exp: SpecUnannotatedExp)
    ensures
        match expand_block_forms(env, errors, exp) {
            Ok(done) => errors.is_prefix_of(done.errors),
            Err(_) => true,
        },
    decreases exp, 0nat,
{
    reveal(expand_block_forms);
    reveal(expand_exp);
    reveal(expand_sequence);
    match exp.value {
        SpecUnannotatedExp_::Block(items) => {
            lemma_sequence_grow(env, errors, items);
        },
        SpecUnannotatedExp_::Assign(assigns, tys, er) => {
            lemma_assign_list_grows(env, errors, assigns);
            match expand_assign_list(env, errors, assigns) {
                Ok(s0) => {
                    lemma_expecteds_grow(env, s0.errors, tys);
                    match expand_expecteds(env, s0.errors, tys) {
                        Ok(s1) => {
                            lemma_exp_grows(env, s1.errors, *er);
                            match expand_exp(env, s1.errors, *er) {
                                Ok(s2) => {
                                    lemma_prefix_trans(errors, s0.errors, s1.errors);
                                    lemma_prefix_trans(errors, s1.errors, s2.errors);
                                },
                                Err(_) => {},
                            }
                        },
                        Err(_) => {},
                    }
                },
                Err(_) => {},
            }
        },
        _ => {},
    }
}

/// What was reported before a struct that is built or a tuple is expanded is still there after.
pub proof fn lemma_aggregate_forms_grow(env: Env, errors: Seq<SpecError>, exp: SpecUnannotatedExp)
    ensures
        match expand_aggregate_forms(env, errors, exp) {
            Ok(done) => errors.is_prefix_of(done.errors),
            Err(_) => true,
        },
    decreases exp, 0nat,
{
    reveal(expand_aggregate_forms);
    reveal(expand_pack_fields);
    reveal(expand_exp_list);
    match exp.value {
        SpecUnannotatedExp_::Pack(_, _, bs, fields) => {
            lemma_whole_bases_grows(env, errors, bs);
            match expand_bases(env, errors, bs) {
                Ok(s0) => {
                    lemma_pack_fields_grow(env, s0.errors, fields);
                    match expand_pack_fields(env, s0.errors, fields) {
                        Ok(s1) => {
                            lemma_prefix_trans(errors, s0.errors, s1.errors);
                        },
                        Err(_) => {},
                    }
                },
                Err(_) => {},
            }
        },
        SpecUnannotatedExp_::ExpList(items) => {
            lemma_exp_list_grow(env, errors, items);
        },
        _ => {},
    }
}

/// What was reported before a call is expanded is still there after.
pub proof fn lemma_call_grows(env: Env, errors: Seq<SpecError>, call: SpecModuleCall)
    ensures
        match expand_call(env, errors, call) {
            Ok(done) => errors.is_prefix_of(done.errors),
            Err(_) => true,
        },
    decreases call,
{
    reveal(expand_call);
    reveal(expand_exp);
    lemma_whole_bases_grows(env, errors, call.type_arguments);
    match expand_bases(env, errors, call.type_arguments) {
        Ok(s0) => {
            lemma_exp_grows(env, s0.errors, *call.arguments);
            match expand_exp(env, s0.errors, *call.arguments) {
                Ok(s1) => {
                    lemma_singles_grow(env, s1.errors, call.parameter_types);
                    match expand_singles(env, s1.errors, call.parameter_types) {
                        Ok(s2) => {
                            lemma_prefix_trans(errors, s0.errors, s1.errors);
                            lemma_prefix_trans(errors, s1.errors, s2.errors);
                        },
                        Err(_) => {},
                    }
                },
                Err(_) => {},
            }
        },
        Err(_) => {},
    }
}

/// What was reported before a field of a struct that is built is expanded is still there after.
pub proof fn lemma_pack_field_grows(env: Env, errors: Seq<SpecError>, f: SpecPackField)
    ensures
        match expand_pack_field(env, errors, f) {
            Ok(done) => errors.is_prefix_of(done.errors),
            Err(_) => true,
        },
    decreases f,
{
    reveal(expand_pack_field);
    reveal(expand_exp);
    lemma_whole_base_grows(env, errors, f.ty);
    match expand_base(env, errors, f.ty) {
        Ok(s0) => {
            lemma_exp_grows(env, s0.errors, f.exp);
            match expand_exp(env, s0.errors, f.exp) {
                Ok(s1) => {
                    lemma_prefix_trans(errors, s0.errors, s1.errors);
                },
                Err(_) => {},
            }
        },
        Err(_) => {},
    }
}

/// What was reported before the fields of a struct that is built are expanded is still there after.
pub proof fn lemma_pack_fields_grow(env: Env, errors: Seq<SpecError>, items: Seq<SpecPackField>)
    ensures
        match expand_pack_fields(env, errors, items) {
            Ok(done) => errors.is_prefix_of(done.errors),
            Err(_) => true,
        },
    decreases items,
{
    reveal(expand_pack_fields);
    reveal(expand_pack_field);
    if items.len() > 0 {
        lemma_pack_field_grows(env, errors, items[0]);
        match expand_pack_field(env, errors, items[0]) {
            Ok(first) => {
                lemma_pack_fields_grow(env, first.errors, items.drop_first());
                match expand_pack_fields(env, first.errors, items.drop_first()) {
                    Ok(rest) => {
                        lemma_prefix_trans(errors, first.errors, rest.errors);
                    },
                    Err(_) => {},
                }
            },
            Err(_) => {},
        }
    }
}

/// What was reported before an entry of a tuple is expanded is still there after.
pub proof fn lemma_exp_list_item_grows(env: Env, errors: Seq<SpecError>, item: SpecExpListItem)
    ensures
        match expand_exp_list_item(env, errors, item) {
            Ok(done) => errors.is_prefix_of(done.errors),
            Err(_) => true,
        },
    decreases item,
{
    reveal(expand_exp_list_item);
    reveal(expand_exp);
    match item {
        SpecExpListItem::Single(e, st) => {
            lemma_exp_grows(env, errors, e);
            match expand_exp(env, errors, e) {
                Ok(s0) => {
                    lemma_single_grows(env, s0.errors, *st);
                    match expand_single(env, s0.errors, *st) {
                        Ok(s1) => {
                            lemma_prefix_trans(errors, s0.errors, s1.errors);
                        },
                        Err(_) => {},
                    }
                },
                Err(_) => {},
            }
        },
        SpecExpListItem::Splat(_, e, ss) => {
            lemma_exp_grows(env, errors, e);
            match expand_exp(env, errors, e) {
                Ok(s0) => {
                    lemma_singles_grow(env, s0.errors, ss);
                    match expand_singles(env, s0.errors, ss) {
                        Ok(s1) => {
                            lemma_prefix_trans(errors, s0.errors, s1.errors);
                        },
                        Err(_) => {},
                    }
                },
                Err(_) => {},
            }
        },
    }
}

/// What was reported before the entries of a tuple are expanded is still there after.
pub proof fn lemma_exp_list_grow(env: Env, errors: Seq<SpecError>, items: Seq<SpecExpListItem>)
    ensures
        match expand_exp_list(env, errors, items) {
            Ok(done) => errors.is_prefix_of(done.errors),
            Err(_) => true,
        },
    decreases items,
{
    reveal(expand_exp_list);
    reveal(expand_exp_list_item);
    if items.len() > 0 {
        lemma_exp_list_item_grows(env, errors, items[0]);
        match expand_exp_list_item(env, errors, items[0]) {
            Ok(first) => {
                lemma_exp_list_grow(env, first.errors, items.drop_first());
                match expand_exp_list(env, first.errors, items.drop_first()) {
                    Ok(rest) => {
                        lemma_prefix_trans(errors, first.errors, rest.errors);
                    },
                    Err(_) => {},
                }
            },
            Err(_) => {},
        }
    }
}

/// What was reported before an item of a sequence is expanded is still there after.
pub proof fn lemma_sequence_item_grows(env: Env, errors: Seq<SpecError>, item: SpecSequenceItem)
    ensures
        match expand_sequence_item(env, errors, item) {
            Ok(done) => errors.is_prefix_of(done.errors),
            Err(_) => true,
        },
    decreases item,
{
    reveal(expand_sequence_item);
    reveal(expand_exp);
    match item.value {
        SpecSequenceItem_::Eval(e) => {
            lemma_exp_grows(env, errors, *e);
        },
        SpecSequenceItem_::Declare(binds) => {
            lemma_bind_list_grows(env, errors, binds);
        },
        SpecSequenceItem_::Bind(binds, tys, e) => {
            lemma_bind_list_grows(env, errors, binds);
            match expand_bind_list(env, errors, binds) {
                Ok(s0) => {
                    lemma_expecteds_grow(env, s0.errors, tys);
                    match expand_expecteds(env, s0.errors, tys) {
                        Ok(s1) => {
                            lemma_exp_grows(env, s1.errors, *e);
                            match expand_exp(env, s1.errors, *e) {
                                Ok(s2) => {
                                    lemma_prefix_trans(errors, s0.errors, s1.errors);
                                    lemma_prefix_trans(errors, s1.errors, s2.errors);
                                },
                                Err(_) => {},
                            }
                        },
                        Err(_) => {},
                    }
                },
                Err(_) => {},
            }
        },
    }
}

/// What was reported before the items of a sequence are expanded is still there after.
pub proof fn lemma_sequence_grow(env: Env, errors: Seq<SpecError>, items: Seq<SpecSequenceItem>)
    ensures
        match expand_sequence(env, errors, items) {
            Ok(done) => errors.is_prefix_of(done.errors),
            Err(_) => true,
        },
    decreases items,
{
    reveal(expand_sequence);
    reveal(expand_sequence_item);
    if items.len() > 0 {
        lemma_sequence_item_grows(env, errors, items[0]);
        match expand_sequence_item(env, errors, items[0]) {
            Ok(first) => {
                lemma_sequence_grow(env, first.errors, items.drop_first());
                match expand_sequence(env, first.errors, items.drop_first()) {
                    Ok(rest) => {
                        lemma_prefix_trans(errors, first.errors, rest.errors);
                    },
                    Err(_) => {},
                }
            },
            Err(_) => {},
        }
    }
}

/// What was reported before a function body is expanded is still there after.
pub proof fn lemma_body_grows(env: Env, errors: Seq<SpecError>, b: SpecFunctionBody_)
    ensures
        match expand_body(env, errors, b) {
            Ok(done) => errors.is_prefix_of(done.errors),
            Err(_) => true,
        },
{
    reveal(expand_body);
    match b {
        SpecFunctionBody_::Native => {},
        SpecFunctionBody_::Defined(items) => {
            lemma_sequence_grow(env, errors, items);
        },
    }
}

} // verus!
