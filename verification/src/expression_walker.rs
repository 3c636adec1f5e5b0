//! The expression walker: it visits every form of expression and applies
//! the other parts of the pass to it.
use crate::accumulation::lemma_exp_grows;
use crate::context::{Context, InvariantViolation};
use crate::node_walker::exp_node;
use crate::semantics::{
    achieves, after, control_exit, expand_annotation, expand_builtin, expand_call, expand_exp,
    expand_node, expand_pack_field, expand_pack_fields, lemma_after_none, lemma_after_push,
};
use crate::settled::exp_settled;
use crate::syntax::{
    pack_field_models, BuiltinFunction, BuiltinFunction_, Exp, ModuleCall, PackField,
    UnannotatedExp_,
};
use crate::totality::lemma_exp_settles;
use crate::type_expander::{base_type, base_types, single_types, type_};
use crate::types::Type_;
use vstd::prelude::*;

verus! {

/// An expression leaves its place exactly if its model does.
proof fn lemma_control_exit(v: UnannotatedExp_)
    ensures
        control_exit(v@) == (v is Break || v is Continue || v is Return || v is Abort),
{
    reveal(UnannotatedExp_::model);
}

/// Expands an expression in place.
pub fn exp(context: &mut Context, e: &mut Exp) -> (r: Result<(), InvariantViolation>)
    ensures
        final(context).env() == old(context).env(),
        achieves(
            expand_exp(old(context).env(), old(context).reported(), old(e)@),
            r,
            final(e)@,
            final(context).reported(),
        ),
        r is Ok ==> exp_settled(final(e)@),
        r is Ok ==> old(context).reported().is_prefix_of(final(context).reported()),
    decreases *old(e),
{
    proof {
        lemma_exp_grows(context.env(), context.reported(), e@);
        lemma_exp_settles(context.env(), context.reported(), e@);
        reveal(Exp::model);
        reveal(expand_exp);
        reveal(expand_annotation);
        reveal(expand_node);
        lemma_control_exit(e.exp.value);
    }
    let exits = match &e.exp.value {
        UnannotatedExp_::Break
        | UnannotatedExp_::Continue
        | UnannotatedExp_::Return(_)
        | UnannotatedExp_::Abort(_) => true,
        _ => false,
    };
    if exits {
        if !e.ty.value.is_anything() {
            match type_(context, &mut e.ty) {
                Ok(_) => {},
                Err(err) => {
                    return Err(err);
                },
            }
            e.ty = Type_::anything(e.ty.loc);
        }
    } else {
        match type_(context, &mut e.ty) {
            Ok(_) => {},
            Err(err) => {
                return Err(err);
            },
        }
    }
    exp_node(context, &e.ty, &mut e.exp)
}

/// Expands the type of a builtin operation in place.
pub fn builtin_function(context: &mut Context, b: &mut BuiltinFunction) -> (r: Result<
    (),
    InvariantViolation,
>)
    ensures
        final(context).env() == old(context).env(),
        achieves(
            expand_builtin(old(context).env(), old(context).reported(), old(b)@),
            r,
            final(b)@,
            final(context).reported(),
        ),
{
    proof {
        reveal(expand_builtin);
    }
    let bt = match &mut b.value {
        BuiltinFunction_::MoveToSender(bt) => bt,
        BuiltinFunction_::MoveFrom(bt) => bt,
        BuiltinFunction_::BorrowGlobal(_, bt) => bt,
        BuiltinFunction_::Exists(bt) => bt,
        BuiltinFunction_::Freeze(bt) => bt,
    };
    match base_type(context, bt) {
        Ok(_) => Ok(()),
        Err(e) => Err(e),
    }
}

/// Expands a call in place: its type arguments, its argument, the types of the parameters.
pub fn module_call(context: &mut Context, call: &mut ModuleCall) -> (r: Result<
    (),
    InvariantViolation,
>)
    ensures
        final(context).env() == old(context).env(),
        achieves(
            expand_call(old(context).env(), old(context).reported(), old(call)@),
            r,
            final(call)@,
            final(context).reported(),
        ),
    decreases *old(call),
{
    proof {
        reveal(Exp::model);
        reveal(expand_call);
        reveal(expand_exp);
    }
    match base_types(context, &mut call.type_arguments) {
        Ok(_) => {},
        Err(e) => {
            return Err(e);
        },
    }
    match exp(context, &mut *call.arguments) {
        Ok(_) => {},
        Err(e) => {
            return Err(e);
        },
    }
    single_types(context, &mut call.parameter_types)
}

/// Expands in place the fields of a struct that is built, first to last.
pub fn pack_fields(
    context: &mut Context,
    fields: &mut Vec<PackField>,
) -> (r: Result<(), InvariantViolation>)
    ensures
        final(context).env() == old(context).env(),
        achieves(
            expand_pack_fields(
                old(context).env(),
                old(context).reported(),
                pack_field_models(old(fields)@),
            ),
            r,
            pack_field_models(final(fields)@),
            final(context).reported(),
        ),
    decreases *old(fields),
{
    proof {
        reveal(Exp::model);
        reveal(expand_pack_fields);
        reveal(expand_pack_field);
        reveal(expand_exp);
    }
    let ghost env = context.env();
    let ghost start = context.reported();
    let ghost before = pack_field_models(fields@);
    let mut i: usize = 0;
    proof {
        assert(before.skip(0) =~= before);
        assert(pack_field_models(fields@).take(0) =~= Seq::empty());
        assert(Seq::empty() + before =~= before);
    }
    while i < fields.len()
        invariant
            i <= fields@.len(),
            fields@.len() == old(fields)@.len(),
            before == pack_field_models(old(fields)@),
            context.env() == env,
            env == old(context).env(),
            start == old(context).reported(),
            forall|j: int| i <= j < fields@.len() ==> fields@[j] == old(fields)@[j],
            expand_pack_fields(env, start, before) == after(
                pack_field_models(fields@).take(i as int),
                expand_pack_fields(env, context.reported(), before.skip(i as int)),
            ),
        decreases fields.len() - i,
    {
        let ghost front = pack_field_models(fields@).take(i as int);
        proof {
            reveal(Exp::model);
            reveal(expand_pack_fields);
            reveal(expand_pack_field);
            reveal(expand_exp);
            assert(before.skip(i as int).drop_first() =~= before.skip(i + 1));
        }
        let ghost item = fields@[i as int]@;
        let ghost errors = context.reported();
        proof {
            let rest = before.skip(i + 1);
            assert(before.skip(i as int)[0] == item);
            let whole = expand_pack_fields(env, errors, before.skip(i as int));
            assert(whole == match expand_pack_field(env, errors, item) {
                Err(e) => Err(e),
                Ok(first) => after(seq![first.value], expand_pack_fields(env, first.errors, rest)),
            });
        }
        match base_type(context, &mut fields[i].ty) {
            Ok(_) => {},
            Err(e) => {
                return Err(e);
            },
        }
        proof {
            assert(fields@[i as int].exp@ == item.exp);
        }
        match exp(context, &mut fields[i].exp) {
            Ok(_) => {},
            Err(e) => {
                return Err(e);
            },
        }
        proof {
            assert(pack_field_models(fields@).take(i + 1) =~= front.push(fields@[i as int]@));
            lemma_after_push(
                front,
                fields@[i as int]@,
                expand_pack_fields(env, context.reported(), before.skip(i + 1)),
            );
        }
        i = i + 1;
    }
    proof {
        assert(pack_field_models(fields@).take(i as int) =~= pack_field_models(fields@));
        lemma_after_none(pack_field_models(fields@), context.reported());
    }
    Ok(())
}

} // verus!
