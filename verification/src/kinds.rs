//! Expansion brings in no unknown kind: where no applied type carries it
//! before, neither in the function nor in what the variables are bound to,
//! none carries it after.
use crate::context::{unfold_base, unfold_var, Env, SpecError};
use crate::known::{
    assign_field_known, assign_fields_known, assign_known, assigns_known, base_known, bases_known,
    bind_field_known, bind_fields_known, bind_known, binds_known, body_known, builtin_known,
    call_known, env_known, exp_known, exp_list_item_known, exp_list_known, expected_known,
    expecteds_known, node_known, pack_field_known, pack_fields_known, parameters_known,
    sequence_item_known, sequence_known, signature_known, single_known, singles_known, type_known,
};
use crate::semantics::{
    expand_aggregate_forms, expand_annotation, expand_assign, expand_assign_field,
    expand_assign_fields, expand_assign_list, expand_assigns, expand_base, expand_base_at,
    expand_bases, expand_bases_at, expand_bind, expand_bind_field, expand_bind_fields,
    expand_bind_list, expand_binds, expand_block_forms, expand_body, expand_branch_forms,
    expand_builtin, expand_call, expand_call_forms, expand_exp, expand_exp_list,
    expand_exp_list_item, expand_expected, expand_expecteds, expand_literal, expand_node,
    expand_operand_forms, expand_pack_field, expand_pack_fields, expand_parameters,
    expand_rewritten_forms, expand_sequence, expand_sequence_item, expand_signature, expand_single,
    expand_singles, expand_type, expand_typed_forms, expand_use, nesting_bound,
};
use crate::syntax::{
    SpecAssign, SpecAssignField, SpecAssignList, SpecAssign_, SpecBind, SpecBindField, SpecBindList,
    SpecBind_, SpecBuiltinFunction, SpecBuiltinFunction_, SpecExp, SpecExpListItem,
    SpecFunctionBody_, SpecModuleCall, SpecPackField, SpecSequenceItem, SpecSequenceItem_,
    SpecUnannotatedExp, SpecUnannotatedExp_,
};
use crate::types::{
    Loc, SpecBaseType, SpecBaseType_, SpecFunctionSignature, SpecParameter, SpecSingleType,
    SpecSingleType_, SpecType, SpecType_, TVar,
};
use vstd::prelude::*;

verus! {

/// What a chain of variables ends at is what some variable is bound to,
/// unless the chain ends unbound.
pub proof fn lemma_unfold_var_yields_what_is_bound(
    subst: Map<u64, SpecBaseType>,
    loc: Loc,
    tvar: TVar,
    hops: nat,
)
    ensures
        match unfold_var(subst, loc, tvar, hops) {
            Ok(t) => t == SpecBaseType_::anything(loc) || exists|w: u64|
                subst.contains_key(w) && #[trigger] subst[w] == t,
            Err(_) => true,
        },
    decreases hops,
{
    if subst.contains_key(tvar.0) {
        match subst[tvar.0].value {
            SpecBaseType_::Var(next) => {
                if hops > 0 {
                    lemma_unfold_var_yields_what_is_bound(subst, loc, next, (hops - 1) as nat);
                }
            },
            _ => {
                assert(subst[tvar.0] == subst[tvar.0]);
            },
        }
    }
}

/// Expansion brings no unknown kind into a base type.
pub proof fn lemma_base_stays_known(env: Env, errors: Seq<SpecError>, bt: SpecBaseType, depth: nat)
    requires
        env_known(env),
        base_known(bt),
    ensures
        match expand_base_at(env, errors, bt, depth) {
            Ok(done) => base_known(done.value),
            Err(_) => true,
        },
    decreases depth, bt,
{
    reveal(expand_base_at);
    reveal(expand_bases_at);
    match bt.value {
        SpecBaseType_::Var(tvar) => {
            lemma_unfold_var_yields_what_is_bound(
                env.subst,
                bt.loc,
                tvar,
                env.subst.dom().len(),
            );
            match unfold_base(env.subst, bt) {
                Ok(t) => {
                    if t.value is Apply && depth > 0 {
                        lemma_base_stays_known(env, errors, t, (depth - 1) as nat);
                    }
                },
                Err(_) => {},
            }
        },
        SpecBaseType_::Apply(_, _, args) => {
            lemma_bases_stay_known(env, errors, args, depth);
        },
        _ => {},
    }
}

/// Expansion brings no unknown kind into base types.
pub proof fn lemma_bases_stay_known(
    env: Env,
    errors: Seq<SpecError>,
    items: Seq<SpecBaseType>,
    depth: nat,
)
    requires
        env_known(env),
        bases_known(items),
    ensures
        match expand_bases_at(env, errors, items, depth) {
            Ok(done) => bases_known(done.value),
            Err(_) => true,
        },
    decreases depth, items,
{
    reveal(expand_bases_at);
    reveal(expand_base_at);
    if items.len() > 0 {
        assert(base_known(items[0]));
        assert forall|i: int| 0 <= i < items.drop_first().len() implies base_known(
            #[trigger] items.drop_first()[i],
        ) by {
            assert(items.drop_first()[i] == items[i + 1]);
        }
        lemma_base_stays_known(env, errors, items[0], depth);
        match expand_base_at(env, errors, items[0], depth) {
            Ok(first) => {
                lemma_bases_stay_known(env, first.errors, items.drop_first(), depth);
                match expand_bases_at(env, first.errors, items.drop_first(), depth) {
                    Ok(rest) => {
                        let head = first.value;
                        let all = seq![head] + rest.value;
                        assert(base_known(head));
                        assert forall|i: int| 0 <= i < all.len() implies base_known(
                            #[trigger] all[i],
                        ) by {
                            if i > 0 {
                                assert(all[i] == rest.value[i - 1]);
                            }
                        }
                    },
                    Err(_) => {},
                }
            },
            Err(_) => {},
        }
    }
}

/// Expansion brings no unknown kind into a base type.
pub proof fn lemma_whole_base_stays_known(env: Env, errors: Seq<SpecError>, bt: SpecBaseType)
    requires
        env_known(env),
        base_known(bt),
    ensures
        match expand_base(env, errors, bt) {
            Ok(done) => base_known(done.value),
            Err(_) => true,
        },
{
    reveal(expand_base);
    lemma_base_stays_known(env, errors, bt, nesting_bound(env));
}

/// Expansion brings no unknown kind into base types.
pub proof fn lemma_whole_bases_stays_known(
    env: Env,
    errors: Seq<SpecError>,
    items: Seq<SpecBaseType>,
)
    requires
        env_known(env),
        bases_known(items),
    ensures
        match expand_bases(env, errors, items) {
            Ok(done) => bases_known(done.value),
            Err(_) => true,
        },
{
    reveal(expand_bases);
    lemma_bases_stay_known(env, errors, items, nesting_bound(env));
}

/// Expansion brings no unknown kind into a single type.
pub proof fn lemma_single_stays_known(env: Env, errors: Seq<SpecError>, st: SpecSingleType)
    requires
        env_known(env),
        single_known(st),
    ensures
        match expand_single(env, errors, st) {
            Ok(done) => single_known(done.value),
            Err(_) => true,
        },
{
    reveal(expand_single);
    match st.value {
        SpecSingleType_::Base(b) => {
            lemma_whole_base_stays_known(env, errors, b);
        },
        SpecSingleType_::Ref(_, b) => {
            lemma_whole_base_stays_known(env, errors, b);
        },
    }
}

/// Expansion brings no unknown kind into single types.
pub proof fn lemma_singles_stay_known(env: Env, errors: Seq<SpecError>, items: Seq<SpecSingleType>)
    requires
        env_known(env),
        singles_known(items),
    ensures
        match expand_singles(env, errors, items) {
            Ok(done) => singles_known(done.value),
            Err(_) => true,
        },
    decreases items.len(),
{
    reveal(expand_singles);
    if items.len() > 0 {
        assert(single_known(items[0]));
        assert forall|i: int| 0 <= i < items.drop_first().len() implies single_known(
            #[trigger] items.drop_first()[i],
        ) by {
            assert(items.drop_first()[i] == items[i + 1]);
        }
        lemma_single_stays_known(env, errors, items[0]);
        match expand_single(env, errors, items[0]) {
            Ok(first) => {
                lemma_singles_stay_known(env, first.errors, items.drop_first());
                match expand_singles(env, first.errors, items.drop_first()) {
                    Ok(rest) => {
                        let head = first.value;
                        let all = seq![head] + rest.value;
                        assert(single_known(head));
                        assert forall|i: int| 0 <= i < all.len() implies single_known(
                            #[trigger] all[i],
                        ) by {
                            if i > 0 {
                                assert(all[i] == rest.value[i - 1]);
                            }
                        }
                    },
                    Err(_) => {},
                }
            },
            Err(_) => {},
        }
    }
}

/// Expansion brings no unknown kind into an expected type.
pub proof fn lemma_expected_stays_known(
    env: Env,
    errors: Seq<SpecError>,
    st: Option<SpecSingleType>,
)
    requires
        env_known(env),
        expected_known(st),
    ensures
        match expand_expected(env, errors, st) {
            Ok(done) => expected_known(done.value),
            Err(_) => true,
        },
{
    reveal(expand_expected);
    match st {
        Some(s) => {
            lemma_single_stays_known(env, errors, s);
        },
        None => {},
    }
}

/// Expansion brings no unknown kind into expected types.
pub proof fn lemma_expecteds_stay_known(
    env: Env,
    errors: Seq<SpecError>,
    items: Seq<Option<SpecSingleType>>,
)
    requires
        env_known(env),
        expecteds_known(items),
    ensures
        match expand_expecteds(env, errors, items) {
            Ok(done) => expecteds_known(done.value),
            Err(_) => true,
        },
    decreases items.len(),
{
    reveal(expand_expecteds);
    if items.len() > 0 {
        assert(expected_known(items[0]));
        assert forall|i: int| 0 <= i < items.drop_first().len() implies expected_known(
            #[trigger] items.drop_first()[i],
        ) by {
            assert(items.drop_first()[i] == items[i + 1]);
        }
        lemma_expected_stays_known(env, errors, items[0]);
        match expand_expected(env, errors, items[0]) {
            Ok(first) => {
                lemma_expecteds_stay_known(env, first.errors, items.drop_first());
                match expand_expecteds(env, first.errors, items.drop_first()) {
                    Ok(rest) => {
                        let head = first.value;
                        let all = seq![head] + rest.value;
                        assert(expected_known(head));
                        assert forall|i: int| 0 <= i < all.len() implies expected_known(
                            #[trigger] all[i],
                        ) by {
                            if i > 0 {
                                assert(all[i] == rest.value[i - 1]);
                            }
                        }
                    },
                    Err(_) => {},
                }
            },
            Err(_) => {},
        }
    }
}

/// Expansion brings no unknown kind into a type.
pub proof fn lemma_type_stays_known(env: Env, errors: Seq<SpecError>, ty: SpecType)
    requires
        env_known(env),
        type_known(ty),
    ensures
        match expand_type(env, errors, ty) {
            Ok(done) => type_known(done.value),
            Err(_) => true,
        },
{
    reveal(expand_type);
    match ty.value {
        SpecType_::Unit => {},
        SpecType_::Single(s) => {
            lemma_single_stays_known(env, errors, s);
        },
        SpecType_::Multiple(ss) => {
            lemma_singles_stay_known(env, errors, ss);
        },
    }
}

/// Expansion brings no unknown kind into the parameters.
pub proof fn lemma_parameters_stay_known(
    env: Env,
    errors: Seq<SpecError>,
    items: Seq<SpecParameter>,
)
    requires
        env_known(env),
        parameters_known(items),
    ensures
        match expand_parameters(env, errors, items) {
            Ok(done) => parameters_known(done.value),
            Err(_) => true,
        },
    decreases items.len(),
{
    reveal(expand_parameters);
    if items.len() > 0 {
        assert(single_known(items[0].ty));
        assert forall|i: int| 0 <= i < items.drop_first().len() implies single_known(
            (#[trigger] items.drop_first()[i]).ty,
        ) by {
            assert(items.drop_first()[i] == items[i + 1]);
        }
        lemma_single_stays_known(env, errors, items[0].ty);
        match expand_single(env, errors, items[0].ty) {
            Ok(first) => {
                lemma_parameters_stay_known(env, first.errors, items.drop_first());
                match expand_parameters(env, first.errors, items.drop_first()) {
                    Ok(rest) => {
                        let head = SpecParameter { var: items[0].var, ty: first.value };
                        let all = seq![head] + rest.value;
                        assert(single_known(head.ty));
                        assert forall|i: int| 0 <= i < all.len() implies single_known(
                            (#[trigger] all[i]).ty,
                        ) by {
                            if i > 0 {
                                assert(all[i] == rest.value[i - 1]);
                            }
                        }
                    },
                    Err(_) => {},
                }
            },
            Err(_) => {},
        }
    }
}

/// Expansion brings no unknown kind into a signature.
pub proof fn lemma_signature_stays_known(
    env: Env,
    errors: Seq<SpecError>,
    sig: SpecFunctionSignature,
)
    requires
        env_known(env),
        signature_known(sig),
    ensures
        match expand_signature(env, errors, sig) {
            Ok(done) => signature_known(done.value),
            Err(_) => true,
        },
{
    reveal(expand_signature);
    lemma_parameters_stay_known(env, errors, sig.parameters);
    match expand_parameters(env, errors, sig.parameters) {
        Ok(s0) => {
            lemma_type_stays_known(env, s0.errors, sig.return_type);
        },
        Err(_) => {},
    }
}

/// Expansion brings no unknown kind into a binder.
pub proof fn lemma_bind_stays_known(env: Env, errors: Seq<SpecError>, b: SpecBind)
    requires
        env_known(env),
        bind_known(b),
    ensures
        match expand_bind(env, errors, b) {
            Ok(done) => bind_known(done.value),
            Err(_) => true,
        },
    decreases b,
{
    reveal(expand_bind);
    reveal(expand_bind_fields);
    match b.value {
        SpecBind_::Var(_, Some(st)) => {
            lemma_single_stays_known(env, errors, st);
        },
        SpecBind_::Unpack(_, _, bts, fields) => {
            lemma_whole_bases_stays_known(env, errors, bts);
            match expand_bases(env, errors, bts) {
                Ok(s0) => {
                    lemma_bind_fields_stay_known(env, s0.errors, fields);
                },
                Err(_) => {},
            }
        },
        SpecBind_::BorrowUnpack(_, _, _, bts, fields) => {
            lemma_whole_bases_stays_known(env, errors, bts);
            match expand_bases(env, errors, bts) {
                Ok(s0) => {
                    lemma_bind_fields_stay_known(env, s0.errors, fields);
                },
                Err(_) => {},
            }
        },
        _ => {},
    }
}

/// Expansion brings no unknown kind into a field of a binder.
pub proof fn lemma_bind_field_stays_known(env: Env, errors: Seq<SpecError>, f: SpecBindField)
    requires
        env_known(env),
        bind_field_known(f),
    ensures
        match expand_bind_field(env, errors, f) {
            Ok(done) => bind_field_known(done.value),
            Err(_) => true,
        },
    decreases f,
{
    reveal(expand_bind_field);
    reveal(expand_bind);
    lemma_whole_base_stays_known(env, errors, f.ty);
    match expand_base(env, errors, f.ty) {
        Ok(s0) => {
            lemma_bind_stays_known(env, s0.errors, f.bind);
        },
        Err(_) => {},
    }
}

/// Expansion brings no unknown kind into the fields of a binder.
pub proof fn lemma_bind_fields_stay_known(
    env: Env,
    errors: Seq<SpecError>,
    items: Seq<SpecBindField>,
)
    requires
        env_known(env),
        bind_fields_known(items),
    ensures
        match expand_bind_fields(env, errors, items) {
            Ok(done) => bind_fields_known(done.value),
            Err(_) => true,
        },
    decreases items,
{
    reveal(expand_bind_fields);
    reveal(expand_bind_field);
    if items.len() > 0 {
        assert(bind_field_known(items[0]));
        assert forall|i: int| 0 <= i < items.drop_first().len() implies bind_field_known(
            #[trigger] items.drop_first()[i],
        ) by {
            assert(items.drop_first()[i] == items[i + 1]);
        }
        lemma_bind_field_stays_known(env, errors, items[0]);
        match expand_bind_field(env, errors, items[0]) {
            Ok(first) => {
                lemma_bind_fields_stay_known(env, first.errors, items.drop_first());
                match expand_bind_fields(env, first.errors, items.drop_first()) {
                    Ok(rest) => {
                        let head = first.value;
                        let all = seq![head] + rest.value;
                        assert(bind_field_known(head));
                        assert forall|i: int| 0 <= i < all.len() implies bind_field_known(
                            #[trigger] all[i],
                        ) by {
                            if i > 0 {
                                assert(all[i] == rest.value[i - 1]);
                            }
                        }
                    },
                    Err(_) => {},
                }
            },
            Err(_) => {},
        }
    }
}

/// Expansion brings no unknown kind into binders.
pub proof fn lemma_binds_stay_known(env: Env, errors: Seq<SpecError>, items: Seq<SpecBind>)
    requires
        env_known(env),
        binds_known(items),
    ensures
        match expand_binds(env, errors, items) {
            Ok(done) => binds_known(done.value),
            Err(_) => true,
        },
    decreases items.len(),
{
    reveal(expand_binds);
    if items.len() > 0 {
        assert(bind_known(items[0]));
        assert forall|i: int| 0 <= i < items.drop_first().len() implies bind_known(
            #[trigger] items.drop_first()[i],
        ) by {
            assert(items.drop_first()[i] == items[i + 1]);
        }
        lemma_bind_stays_known(env, errors, items[0]);
        match expand_bind(env, errors, items[0]) {
            Ok(first) => {
                lemma_binds_stay_known(env, first.errors, items.drop_first());
                match expand_binds(env, first.errors, items.drop_first()) {
                    Ok(rest) => {
                        let head = first.value;
                        let all = seq![head] + rest.value;
                        assert(bind_known(head));
                        assert forall|i: int| 0 <= i < all.len() implies bind_known(
                            #[trigger] all[i],
                        ) by {
                            if i > 0 {
                                assert(all[i] == rest.value[i - 1]);
                            }
                        }
                    },
                    Err(_) => {},
                }
            },
            Err(_) => {},
        }
    }
}

/// Expansion brings no unknown kind into a list of binders.
pub proof fn lemma_bind_list_stays_known(env: Env, errors: Seq<SpecError>, list: SpecBindList)
    requires
        env_known(env),
        binds_known(list.value),
    ensures
        match expand_bind_list(env, errors, list) {
            Ok(done) => binds_known(done.value.value),
            Err(_) => true,
        },
{
    reveal(expand_bind_list);
    lemma_binds_stay_known(env, errors, list.value);
}

/// Expansion brings no unknown kind into an assignment pattern.
pub proof fn lemma_assign_stays_known(env: Env, errors: Seq<SpecError>, a: SpecAssign)
    requires
        env_known(env),
        assign_known(a),
    ensures
        match expand_assign(env, errors, a) {
            Ok(done) => assign_known(done.value),
            Err(_) => true,
        },
    decreases a,
{
    reveal(expand_assign);
    reveal(expand_assign_fields);
    match a.value {
        SpecAssign_::Var(_, st) => {
            lemma_single_stays_known(env, errors, st);
        },
        SpecAssign_::Unpack(_, _, bts, fields) => {
            lemma_whole_bases_stays_known(env, errors, bts);
            match expand_bases(env, errors, bts) {
                Ok(s0) => {
                    lemma_assign_fields_stay_known(env, s0.errors, fields);
                },
                Err(_) => {},
            }
        },
        SpecAssign_::BorrowUnpack(_, _, _, bts, fields) => {
            lemma_whole_bases_stays_known(env, errors, bts);
            match expand_bases(env, errors, bts) {
                Ok(s0) => {
                    lemma_assign_fields_stay_known(env, s0.errors, fields);
                },
                Err(_) => {},
            }
        },
        _ => {},
    }
}

/// Expansion brings no unknown kind into a field of an assignment.
pub proof fn lemma_assign_field_stays_known(env: Env, errors: Seq<SpecError>, f: SpecAssignField)
    requires
        env_known(env),
        assign_field_known(f),
    ensures
        match expand_assign_field(env, errors, f) {
            Ok(done) => assign_field_known(done.value),
            Err(_) => true,
        },
    decreases f,
{
    reveal(expand_assign_field);
    reveal(expand_assign);
    lemma_whole_base_stays_known(env, errors, f.ty);
    match expand_base(env, errors, f.ty) {
        Ok(s0) => {
            lemma_assign_stays_known(env, s0.errors, f.assign);
        },
        Err(_) => {},
    }
}

/// Expansion brings no unknown kind into the fields of an assignment.
pub proof fn lemma_assign_fields_stay_known(
    env: Env,
    errors: Seq<SpecError>,
    items: Seq<SpecAssignField>,
)
    requires
        env_known(env),
        assign_fields_known(items),
    ensures
        match expand_assign_fields(env, errors, items) {
            Ok(done) => assign_fields_known(done.value),
            Err(_) => true,
        },
    decreases items,
{
    reveal(expand_assign_fields);
    reveal(expand_assign_field);
    if items.len() > 0 {
        assert(assign_field_known(items[0]));
        assert forall|i: int| 0 <= i < items.drop_first().len() implies assign_field_known(
            #[trigger] items.drop_first()[i],
        ) by {
            assert(items.drop_first()[i] == items[i + 1]);
        }
        lemma_assign_field_stays_known(env, errors, items[0]);
        match expand_assign_field(env, errors, items[0]) {
            Ok(first) => {
                lemma_assign_fields_stay_known(env, first.errors, items.drop_first());
                match expand_assign_fields(env, first.errors, items.drop_first()) {
                    Ok(rest) => {
                        let head = first.value;
                        let all = seq![head] + rest.value;
                        assert(assign_field_known(head));
                        assert forall|i: int| 0 <= i < all.len() implies assign_field_known(
                            #[trigger] all[i],
                        ) by {
                            if i > 0 {
                                assert(all[i] == rest.value[i - 1]);
                            }
                        }
                    },
                    Err(_) => {},
                }
            },
            Err(_) => {},
        }
    }
}

/// Expansion brings no unknown kind into assignment patterns.
pub proof fn lemma_assigns_stay_known(env: Env, errors: Seq<SpecError>, items: Seq<SpecAssign>)
    requires
        env_known(env),
        assigns_known(items),
    ensures
        match expand_assigns(env, errors, items) {
            Ok(done) => assigns_known(done.value),
            Err(_) => true,
        },
    decreases items.len(),
{
    reveal(expand_assigns);
    if items.len() > 0 {
        assert(assign_known(items[0]));
        assert forall|i: int| 0 <= i < items.drop_first().len() implies assign_known(
            #[trigger] items.drop_first()[i],
        ) by {
            assert(items.drop_first()[i] == items[i + 1]);
        }
        lemma_assign_stays_known(env, errors, items[0]);
        match expand_assign(env, errors, items[0]) {
            Ok(first) => {
                lemma_assigns_stay_known(env, first.errors, items.drop_first());
                match expand_assigns(env, first.errors, items.drop_first()) {
                    Ok(rest) => {
                        let head = first.value;
                        let all = seq![head] + rest.value;
                        assert(assign_known(head));
                        assert forall|i: int| 0 <= i < all.len() implies assign_known(
                            #[trigger] all[i],
                        ) by {
                            if i > 0 {
                                assert(all[i] == rest.value[i - 1]);
                            }
                        }
                    },
                    Err(_) => {},
                }
            },
            Err(_) => {},
        }
    }
}

/// Expansion brings no unknown kind into a list of assignment patterns.
pub proof fn lemma_assign_list_stays_known(env: Env, errors: Seq<SpecError>, list: SpecAssignList)
    requires
        env_known(env),
        assigns_known(list.value),
    ensures
        match expand_assign_list(env, errors, list) {
            Ok(done) => assigns_known(done.value.value),
            Err(_) => true,
        },
{
    reveal(expand_assign_list);
    lemma_assigns_stay_known(env, errors, list.value);
}

/// Expansion brings no unknown kind into a builtin operation.
pub proof fn lemma_builtin_stays_known(env: Env, errors: Seq<SpecError>, b: SpecBuiltinFunction)
    requires
        env_known(env),
        builtin_known(b),
    ensures
        match expand_builtin(env, errors, b) {
            Ok(done) => builtin_known(done.value),
            Err(_) => true,
        },
{
    reveal(expand_builtin);
    match b.value {
        SpecBuiltinFunction_::MoveToSender(bt) => {
            lemma_whole_base_stays_known(env, errors, bt);
        },
        SpecBuiltinFunction_::MoveFrom(bt) => {
            lemma_whole_base_stays_known(env, errors, bt);
        },
        SpecBuiltinFunction_::BorrowGlobal(_, bt) => {
            lemma_whole_base_stays_known(env, errors, bt);
        },
        SpecBuiltinFunction_::Exists(bt) => {
            lemma_whole_base_stays_known(env, errors, bt);
        },
        SpecBuiltinFunction_::Freeze(bt) => {
            lemma_whole_base_stays_known(env, errors, bt);
        },
    }
}

/// Expansion brings no unknown kind into an expression.
pub proof fn lemma_exp_stays_known(env: Env, errors: Seq<SpecError>, e: SpecExp)
    requires
        env_known(env),
        exp_known(e),
    ensures
        match expand_exp(env, errors, e) {
            Ok(done) => exp_known(done.value),
            Err(_) => true,
        },
    decreases e,
{
    reveal(expand_exp);
    reveal(expand_annotation);
    reveal(expand_node);
    lemma_type_stays_known(env, errors, e.ty);
    match expand_annotation(env, errors, e) {
        Ok(ty) => {
            lemma_node_stays_known(env, ty.errors, ty.value, e.exp);
        },
        Err(_) => {},
    }
}

/// Expansion brings no unknown kind into what an expression is made of.
pub proof fn lemma_node_stays_known(
    env: Env,
    errors: Seq<SpecError>,
    ty: SpecType,
    exp: SpecUnannotatedExp,
)
    requires
        env_known(env),
        node_known(exp),
    ensures
        match expand_node(env, errors, ty, exp) {
            Ok(done) => node_known(SpecUnannotatedExp { loc: exp.loc, value: done.value }),
            Err(_) => true,
        },
    decreases exp, 1nat,
{
    reveal(expand_node);
    reveal(expand_rewritten_forms);
    reveal(expand_use);
    reveal(expand_literal);
    reveal(expand_operand_forms);
    lemma_operand_forms_stay_known(env, errors, exp);
    reveal(expand_branch_forms);
    lemma_branch_forms_stay_known(env, errors, exp);
    reveal(expand_typed_forms);
    lemma_typed_forms_stay_known(env, errors, exp);
    reveal(expand_call_forms);
    lemma_call_forms_stay_known(env, errors, exp);
    reveal(expand_block_forms);
    lemma_block_forms_stay_known(env, errors, exp);
    reveal(expand_aggregate_forms);
    lemma_aggregate_forms_stay_known(env, errors, exp);
}

/// Expansion brings no unknown kind into a form with one expression inside.
pub proof fn lemma_operand_forms_stay_known(
    env: Env,
    errors: Seq<SpecError>,
    exp: SpecUnannotatedExp,
)
    requires
        env_known(env),
        node_known(exp),
    ensures
        match expand_operand_forms(env, errors, exp) {
            Ok(done) => node_known(SpecUnannotatedExp { loc: exp.loc, value: done.value }),
            Err(_) => true,
        },
    decreases exp, 0nat,
{
    reveal(expand_operand_forms);
    reveal(expand_exp);
    match exp.value {
        SpecUnannotatedExp_::Return(er) => {
            lemma_exp_stays_known(env, errors, *er);
        },
        SpecUnannotatedExp_::Abort(er) => {
            lemma_exp_stays_known(env, errors, *er);
        },
        SpecUnannotatedExp_::Dereference(er) => {
            lemma_exp_stays_known(env, errors, *er);
        },
        SpecUnannotatedExp_::UnaryExp(_, er) => {
            lemma_exp_stays_known(env, errors, *er);
        },
        SpecUnannotatedExp_::Borrow(_, er, _) => {
            lemma_exp_stays_known(env, errors, *er);
        },
        SpecUnannotatedExp_::TempBorrow(_, er) => {
            lemma_exp_stays_known(env, errors, *er);
        },
        SpecUnannotatedExp_::Loop { has_break: _, body } => {
            lemma_exp_stays_known(env, errors, *body);
        },
        _ => {},
    }
}

/// Expansion brings no unknown kind into a form with several expressions inside.
pub proof fn lemma_branch_forms_stay_known(
    env: Env,
    errors: Seq<SpecError>,
    exp: SpecUnannotatedExp,
)
    requires
        env_known(env),
        node_known(exp),
    ensures
        match expand_branch_forms(env, errors, exp) {
            Ok(done) => node_known(SpecUnannotatedExp { loc: exp.loc, value: done.value }),
            Err(_) => true,
        },
    decreases exp, 0nat,
{
    reveal(expand_branch_forms);
    reveal(expand_exp);
    match exp.value {
        SpecUnannotatedExp_::IfElse(eb, et, ef) => {
            lemma_exp_stays_known(env, errors, *eb);
            match expand_exp(env, errors, *eb) {
                Ok(s0) => {
                    lemma_exp_stays_known(env, s0.errors, *et);
                    match expand_exp(env, s0.errors, *et) {
                        Ok(s1) => {
                            lemma_exp_stays_known(env, s1.errors, *ef);
                        },
                        Err(_) => {},
                    }
                },
                Err(_) => {},
            }
        },
        SpecUnannotatedExp_::While(eb, eloop) => {
            lemma_exp_stays_known(env, errors, *eb);
            match expand_exp(env, errors, *eb) {
                Ok(s0) => {
                    lemma_exp_stays_known(env, s0.errors, *eloop);
                },
                Err(_) => {},
            }
        },
        SpecUnannotatedExp_::Mutate(el, er) => {
            lemma_exp_stays_known(env, errors, *el);
            match expand_exp(env, errors, *el) {
                Ok(s0) => {
                    lemma_exp_stays_known(env, s0.errors, *er);
                },
                Err(_) => {},
            }
        },
        _ => {},
    }
}

/// Expansion brings no unknown kind into a form that carries a type of its own.
pub proof fn lemma_typed_forms_stay_known(env: Env, errors: Seq<SpecError>, exp: SpecUnannotatedExp)
    requires
        env_known(env),
        node_known(exp),
    ensures
        match expand_typed_forms(env, errors, exp) {
            Ok(done) => node_known(SpecUnannotatedExp { loc: exp.loc, value: done.value }),
            Err(_) => true,
        },
    decreases exp, 0nat,
{
    reveal(expand_typed_forms);
    reveal(expand_exp);
    match exp.value {
        SpecUnannotatedExp_::BinopExp(el, _, operand_ty, er) => {
            lemma_exp_stays_known(env, errors, *el);
            match expand_exp(env, errors, *el) {
                Ok(s0) => {
                    lemma_exp_stays_known(env, s0.errors, *er);
                    match expand_exp(env, s0.errors, *er) {
                        Ok(s1) => {
                            lemma_type_stays_known(env, s1.errors, *operand_ty);
                        },
                        Err(_) => {},
                    }
                },
                Err(_) => {},
            }
        },
        SpecUnannotatedExp_::Cast(el, rhs_ty) => {
            lemma_exp_stays_known(env, errors, *el);
            match expand_exp(env, errors, *el) {
                Ok(s0) => {
                    lemma_type_stays_known(env, s0.errors, *rhs_ty);
                },
                Err(_) => {},
            }
        },
        SpecUnannotatedExp_::Annotate(el, rhs_ty) => {
            lemma_exp_stays_known(env, errors, *el);
            match expand_exp(env, errors, *el) {
                Ok(s0) => {
                    lemma_type_stays_known(env, s0.errors, *rhs_ty);
                },
                Err(_) => {},
            }
        },
        _ => {},
    }
}

/// Expansion brings no unknown kind into a call.
pub proof fn lemma_call_forms_stay_known(env: Env, errors: Seq<SpecError>, exp: SpecUnannotatedExp)
    requires
        env_known(env),
        node_known(exp),
    ensures
        match expand_call_forms(env, errors, exp) {
            Ok(done) => node_known(SpecUnannotatedExp { loc: exp.loc, value: done.value }),
            Err(_) => true,
        },
    decreases exp, 0nat,
{
    reveal(expand_call_forms);
    reveal(expand_exp);
    reveal(expand_call);
    match exp.value {
        SpecUnannotatedExp_::ModuleCall(call) => {
            lemma_call_stays_known(env, errors, *call);
        },
        SpecUnannotatedExp_::Builtin(b, args) => {
            lemma_builtin_stays_known(env, errors, *b);
            match expand_builtin(env, errors, *b) {
                Ok(s0) => {
                    lemma_exp_stays_known(env, s0.errors, *args);
                },
                Err(_) => {},
            }
        },
        _ => {},
    }
}

/// Expansion brings no unknown kind into a block or an assignment.
pub proof fn lemma_block_forms_stay_known(env: Env, errors: Seq<SpecError>, exp: SpecUnannotatedExp)
    requires
        env_known(env),
        node_known(exp),
    ensures
        match expand_block_forms(env, errors, exp) {
            Ok(done) => node_known(SpecUnannotatedExp { loc: exp.loc, value: done.value }),
            Err(_) => true,
        },
    decreases exp, 0nat,
{
    reveal(expand_block_forms);
    reveal(expand_exp);
    reveal(expand_sequence);
    match exp.value {
        SpecUnannotatedExp_::Block(items) => {
            lemma_sequence_stay_known(env, errors, items);
        },
        SpecUnannotatedExp_::Assign(assigns, tys, er) => {
            lemma_assign_list_stays_known(env, errors, assigns);
            match expand_assign_list(env, errors, assigns) {
                Ok(s0) => {
                    lemma_expecteds_stay_known(env, s0.errors, tys);
                    match expand_expecteds(env, s0.errors, tys) {
                        Ok(s1) => {
                            lemma_exp_stays_known(env, s1.errors, *er);
                        },
                        Err(_) => {},
                    }
                },
                Err(_) => {},
            }
        },
        _ => {},
    }
}

/// Expansion brings no unknown kind into a struct that is built or a tuple.
pub proof fn lemma_aggregate_forms_stay_known(
    env: Env,
    errors: Seq<SpecError>,
    exp: SpecUnannotatedExp,
)
    requires
        env_known(env),
        node_known(exp),
    ensures
        match expand_aggregate_forms(env, errors, exp) {
            Ok(done) => node_known(SpecUnannotatedExp { loc: exp.loc, value: done.value }),
            Err(_) => true,
        },
    decreases exp, 0nat,
{
    reveal(expand_aggregate_forms);
    reveal(expand_pack_fields);
    reveal(expand_exp_list);
    match exp.value {
        SpecUnannotatedExp_::Pack(_, _, bs, fields) => {
            lemma_whole_bases_stays_known(env, errors, bs);
            match expand_bases(env, errors, bs) {
                Ok(s0) => {
                    lemma_pack_fields_stay_known(env, s0.errors, fields);
                },
                Err(_) => {},
            }
        },
        SpecUnannotatedExp_::ExpList(items) => {
            lemma_exp_list_stay_known(env, errors, items);
        },
        _ => {},
    }
}

/// Expansion brings no unknown kind into a call.
pub proof fn lemma_call_stays_known(env: Env, errors: Seq<SpecError>, call: SpecModuleCall)
    requires
        env_known(env),
        call_known(call),
    ensures
        match expand_call(env, errors, call) {
            Ok(done) => call_known(done.value),
            Err(_) => true,
        },
    decreases call,
{
    reveal(expand_call);
    reveal(expand_exp);
    lemma_whole_bases_stays_known(env, errors, call.type_arguments);
    match expand_bases(env, errors, call.type_arguments) {
        Ok(s0) => {
            lemma_exp_stays_known(env, s0.errors, *call.arguments);
            match expand_exp(env, s0.errors, *call.arguments) {
                Ok(s1) => {
                    lemma_singles_stay_known(env, s1.errors, call.parameter_types);
                },
                Err(_) => {},
            }
        },
        Err(_) => {},
    }
}

/// Expansion brings no unknown kind into a field of a struct that is built.
pub proof fn lemma_pack_field_stays_known(env: Env, errors: Seq<SpecError>, f: SpecPackField)
    requires
        env_known(env),
        pack_field_known(f),
    ensures
        match expand_pack_field(env, errors, f) {
            Ok(done) => pack_field_known(done.value),
            Err(_) => true,
        },
    decreases f,
{
    reveal(expand_pack_field);
    reveal(expand_exp);
    lemma_whole_base_stays_known(env, errors, f.ty);
    match expand_base(env, errors, f.ty) {
        Ok(s0) => {
            lemma_exp_stays_known(env, s0.errors, f.exp);
        },
        Err(_) => {},
    }
}

/// Expansion brings no unknown kind into the fields of a struct that is built.
pub proof fn lemma_pack_fields_stay_known(
    env: Env,
    errors: Seq<SpecError>,
    items: Seq<SpecPackField>,
)
    requires
        env_known(env),
        pack_fields_known(items),
    ensures
        match expand_pack_fields(env, errors, items) {
            Ok(done) => pack_fields_known(done.value),
            Err(_) => true,
        },
    decreases items,
{
    reveal(expand_pack_fields);
    reveal(expand_pack_field);
    if items.len() > 0 {
        assert(pack_field_known(items[0]));
        assert forall|i: int| 0 <= i < items.drop_first().len() implies pack_field_known(
            #[trigger] items.drop_first()[i],
        ) by {
            assert(items.drop_first()[i] == items[i + 1]);
        }
        lemma_pack_field_stays_known(env, errors, items[0]);
        match expand_pack_field(env, errors, items[0]) {
            Ok(first) => {
                lemma_pack_fields_stay_known(env, first.errors, items.drop_first());
                match expand_pack_fields(env, first.errors, items.drop_first()) {
                    Ok(rest) => {
                        let head = first.value;
                        let all = seq![head] + rest.value;
                        assert(pack_field_known(head));
                        assert forall|i: int| 0 <= i < all.len() implies pack_field_known(
                            #[trigger] all[i],
                        ) by {
                            if i > 0 {
                                assert(all[i] == rest.value[i - 1]);
                            }
                        }
                    },
                    Err(_) => {},
                }
            },
            Err(_) => {},
        }
    }
}

/// Expansion brings no unknown kind into an entry of a tuple.
pub proof fn lemma_exp_list_item_stays_known(
    env: Env,
    errors: Seq<SpecError>,
    item: SpecExpListItem,
)
    requires
        env_known(env),
        exp_list_item_known(item),
    ensures
        match expand_exp_list_item(env, errors, item) {
            Ok(done) => exp_list_item_known(done.value),
            Err(_) => true,
        },
    decreases item,
{
    reveal(expand_exp_list_item);
    reveal(expand_exp);
    match item {
        SpecExpListItem::Single(e, st) => {
            lemma_exp_stays_known(env, errors, e);
            match expand_exp(env, errors, e) {
                Ok(s0) => {
                    lemma_single_stays_known(env, s0.errors, *st);
                },
                Err(_) => {},
            }
        },
        SpecExpListItem::Splat(_, e, ss) => {
            lemma_exp_stays_known(env, errors, e);
            match expand_exp(env, errors, e) {
                Ok(s0) => {
                    lemma_singles_stay_known(env, s0.errors, ss);
                },
                Err(_) => {},
            }
        },
    }
}

/// Expansion brings no unknown kind into the entries of a tuple.
pub proof fn lemma_exp_list_stay_known(
    env: Env,
    errors: Seq<SpecError>,
    items: Seq<SpecExpListItem>,
)
    requires
        env_known(env),
        exp_list_known(items),
    ensures
        match expand_exp_list(env, errors, items) {
            Ok(done) => exp_list_known(done.value),
            Err(_) => true,
        },
    decreases items,
{
    reveal(expand_exp_list);
    reveal(expand_exp_list_item);
    if items.len() > 0 {
        assert(exp_list_item_known(items[0]));
        assert forall|i: int| 0 <= i < items.drop_first().len() implies exp_list_item_known(
            #[trigger] items.drop_first()[i],
        ) by {
            assert(items.drop_first()[i] == items[i + 1]);
        }
        lemma_exp_list_item_stays_known(env, errors, items[0]);
        match expand_exp_list_item(env, errors, items[0]) {
            Ok(first) => {
                lemma_exp_list_stay_known(env, first.errors, items.drop_first());
                match expand_exp_list(env, first.errors, items.drop_first()) {
                    Ok(rest) => {
                        let head = first.value;
                        let all = seq![head] + rest.value;
                        assert(exp_list_item_known(head));
                        assert forall|i: int| 0 <= i < all.len() implies exp_list_item_known(
                            #[trigger] all[i],
                        ) by {
                            if i > 0 {
                                assert(all[i] == rest.value[i - 1]);
                            }
                        }
                    },
                    Err(_) => {},
                }
            },
            Err(_) => {},
        }
    }
}

/// Expansion brings no unknown kind into an item of a sequence.
pub proof fn lemma_sequence_item_stays_known(
    env: Env,
    errors: Seq<SpecError>,
    item: SpecSequenceItem,
)
    requires
        env_known(env),
        sequence_item_known(item),
    ensures
        match expand_sequence_item(env, errors, item) {
            Ok(done) => sequence_item_known(done.value),
            Err(_) => true,
        },
    decreases item,
{
    reveal(expand_sequence_item);
    reveal(expand_exp);
    match item.value {
        SpecSequenceItem_::Eval(e) => {
            lemma_exp_stays_known(env, errors, *e);
        },
        SpecSequenceItem_::Declare(binds) => {
            lemma_bind_list_stays_known(env, errors, binds);
        },
        SpecSequenceItem_::Bind(binds, tys, e) => {
            lemma_bind_list_stays_known(env, errors, binds);
            match expand_bind_list(env, errors, binds) {
                Ok(s0) => {
                    lemma_expecteds_stay_known(env, s0.errors, tys);
                    match expand_expecteds(env, s0.errors, tys) {
                        Ok(s1) => {
                            lemma_exp_stays_known(env, s1.errors, *e);
                        },
                        Err(_) => {},
                    }
                },
                Err(_) => {},
            }
        },
    }
}

/// Expansion brings no unknown kind into the items of a sequence.
pub proof fn lemma_sequence_stay_known(
    env: Env,
    errors: Seq<SpecError>,
    items: Seq<SpecSequenceItem>,
)
    requires
        env_known(env),
        sequence_known(items),
    ensures
        match expand_sequence(env, errors, items) {
            Ok(done) => sequence_known(done.value),
            Err(_) => true,
        },
    decreases items,
{
    reveal(expand_sequence);
    reveal(expand_sequence_item);
    if items.len() > 0 {
        assert(sequence_item_known(items[0]));
        assert forall|i: int| 0 <= i < items.drop_first().len() implies sequence_item_known(
            #[trigger] items.drop_first()[i],
        ) by {
            assert(items.drop_first()[i] == items[i + 1]);
        }
        lemma_sequence_item_stays_known(env, errors, items[0]);
        match expand_sequence_item(env, errors, items[0]) {
            Ok(first) => {
                lemma_sequence_stay_known(env, first.errors, items.drop_first());
                match expand_sequence(env, first.errors, items.drop_first()) {
                    Ok(rest) => {
                        let head = first.value;
                        let all = seq![head] + rest.value;
                        assert(sequence_item_known(head));
                        assert forall|i: int| 0 <= i < all.len() implies sequence_item_known(
                            #[trigger] all[i],
                        ) by {
                            if i > 0 {
                                assert(all[i] == rest.value[i - 1]);
                            }
                        }
                    },
                    Err(_) => {},
                }
            },
            Err(_) => {},
        }
    }
}

/// Expansion brings no unknown kind into a function body.
pub proof fn lemma_body_stays_known(env: Env, errors: Seq<SpecError>, b: SpecFunctionBody_)
    requires
        env_known(env),
        body_known(b),
    ensures
        match expand_body(env, errors, b) {
            Ok(done) => body_known(done.value),
            Err(_) => true,
        },
{
    reveal(expand_body);
    match b {
        SpecFunctionBody_::Native => {},
        SpecFunctionBody_::Defined(items) => {
            lemma_sequence_stay_known(env, errors, items);
        },
    }
}

} // verus!
