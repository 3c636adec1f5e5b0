//! The expansion pass: it runs over a function once inference is done,
//! replaces every unification variable by its solution, gives every applied
//! type its kind, turns each use of a variable into a copy or a move, and
//! fixes the width of each number literal.
use crate::accumulation::{lemma_body_grows, lemma_signature_grows};
use crate::context::{Context, InvariantViolation};
use crate::semantics::{
    achieves, after, expand_body, expand_parameters, expand_signature, lemma_after_none,
    lemma_after_push,
};
use crate::settled::{body_settled, signature_settled};
use crate::syntax::FunctionBody_;
use crate::totality::{lemma_body_settles, lemma_signature_settles};
use crate::types::{parameter_models, FunctionSignature};
use vstd::prelude::*;

pub use crate::expression_walker::{builtin_function, exp, module_call};
pub use crate::pattern_expander::{assign, assign_list, bind, bind_list};
pub use crate::sequence_walker::{exp_list, exp_list_item, sequence, sequence_item};
pub use crate::type_expander::{
    base_type, base_types, expected_types, get_kind, get_kind_base, single_type, single_types,
    type_,
};

verus! {

/// Expands the body of a function in place.
pub fn function_body_(
    context: &mut Context,
    b_: &mut FunctionBody_,
) -> (r: Result<(), InvariantViolation>)
    ensures
        final(context).env() == old(context).env(),
        achieves(
            expand_body(old(context).env(), old(context).reported(), old(b_)@),
            r,
            final(b_)@,
            final(context).reported(),
        ),
        r is Ok ==> body_settled(final(b_)@),
        r is Ok ==> old(context).reported().is_prefix_of(final(context).reported()),
{
    proof {
        lemma_body_grows(context.env(), context.reported(), b_@);
        lemma_body_settles(context.env(), context.reported(), b_@);
        reveal(expand_body);
    }
    match b_ {
        FunctionBody_::Native => Ok(()),
        FunctionBody_::Defined(es) => sequence(context, es),
    }
}

/// Expands the types of a signature in place: those of the parameters, first
/// to last, then the return type.
pub fn function_signature(context: &mut Context, sig: &mut FunctionSignature) -> (r: Result<
    (),
    InvariantViolation,
>)
    ensures
        final(context).env() == old(context).env(),
        achieves(
            expand_signature(old(context).env(), old(context).reported(), old(sig)@),
            r,
            final(sig)@,
            final(context).reported(),
        ),
        r is Ok ==> signature_settled(final(sig)@),
        r is Ok ==> old(context).reported().is_prefix_of(final(context).reported()),
{
    proof {
        lemma_signature_grows(context.env(), context.reported(), sig@);
        lemma_signature_settles(context.env(), context.reported(), sig@);
        reveal(expand_signature);
        reveal(expand_parameters);
    }
    let ghost env = context.env();
    let ghost start = context.reported();
    let ghost before = parameter_models(sig.parameters@);
    let mut i: usize = 0;
    proof {
        assert(before.skip(0) =~= before);
        assert(parameter_models(sig.parameters@).take(0) =~= Seq::empty());
        assert(Seq::empty() + before =~= before);
    }
    while i < sig.parameters.len()
        invariant
            i <= sig.parameters@.len(),
            sig.parameters@.len() == before.len(),
            sig.type_parameters == old(sig).type_parameters,
            sig.return_type == old(sig).return_type,
            before == parameter_models(old(sig).parameters@),
            context.env() == env,
            env == old(context).env(),
            start == old(context).reported(),
            forall|j: int|
                i <= j < sig.parameters@.len() ==> (#[trigger] sig.parameters@[j])@ == before[j],
            expand_parameters(env, start, before) == after(
                parameter_models(sig.parameters@).take(i as int),
                expand_parameters(env, context.reported(), before.skip(i as int)),
            ),
        decreases sig.parameters.len() - i,
    {
        let ghost front = parameter_models(sig.parameters@).take(i as int);
        proof {
            reveal(expand_signature);
            reveal(expand_parameters);
            assert(before.skip(i as int).drop_first() =~= before.skip(i + 1));
        }
        match single_type(context, &mut sig.parameters[i].ty) {
            Ok(_) => {},
            Err(e) => {
                return Err(e);
            },
        }
        proof {
            assert(parameter_models(sig.parameters@).take(i + 1) =~= front.push(
                sig.parameters@[i as int]@,
            ));
            lemma_after_push(
                front,
                sig.parameters@[i as int]@,
                expand_parameters(env, context.reported(), before.skip(i + 1)),
            );
        }
        i = i + 1;
    }
    proof {
        assert(parameter_models(sig.parameters@).take(i as int) =~= parameter_models(
            sig.parameters@,
        ));
        lemma_after_none(parameter_models(sig.parameters@), context.reported());
    }
    type_(context, &mut sig.return_type)
}

} // verus!
