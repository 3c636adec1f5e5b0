//! The walk over sequences of statements and over tuple expressions.
use crate::context::{Context, InvariantViolation};
use crate::expression_walker::exp;
use crate::pattern_expander::bind_list;
use crate::semantics::{
    achieves, after, expand_exp, expand_exp_list, expand_exp_list_item, expand_sequence,
    expand_sequence_item, lemma_after_none, lemma_after_push,
};
use crate::syntax::{
    exp_list_models, sequence_models, Exp, ExpListItem, Sequence, SequenceItem, SequenceItem_,
};
use crate::type_expander::{expected_types, single_type, single_types};
use vstd::prelude::*;

verus! {

/// Expands the items of a sequence in place, first to last.
pub fn sequence(context: &mut Context, items: &mut Sequence) -> (r: Result<(), InvariantViolation>)
    ensures
        final(context).env() == old(context).env(),
        achieves(
            expand_sequence(
                old(context).env(),
                old(context).reported(),
                sequence_models(old(items)@),
            ),
            r,
            sequence_models(final(items)@),
            final(context).reported(),
        ),
    decreases *old(items),
{
    proof {
        reveal(expand_sequence);
        reveal(expand_sequence_item);
    }
    let ghost env = context.env();
    let ghost start = context.reported();
    let ghost before = sequence_models(items@);
    let mut i: usize = 0;
    proof {
        assert(before.skip(0) =~= before);
        assert(sequence_models(items@).take(0) =~= Seq::empty());
        assert(Seq::empty() + before =~= before);
    }
    while i < items.len()
        invariant
            i <= items@.len(),
            items@.len() == old(items)@.len(),
            before == sequence_models(old(items)@),
            context.env() == env,
            env == old(context).env(),
            start == old(context).reported(),
            forall|j: int| i <= j < items@.len() ==> items@[j] == old(items)@[j],
            expand_sequence(env, start, before) == after(
                sequence_models(items@).take(i as int),
                expand_sequence(env, context.reported(), before.skip(i as int)),
            ),
        decreases items.len() - i,
    {
        let ghost front = sequence_models(items@).take(i as int);
        proof {
            reveal(expand_sequence);
            reveal(expand_sequence_item);
            assert(before.skip(i as int).drop_first() =~= before.skip(i + 1));
        }
        match sequence_item(context, &mut items[i]) {
            Ok(_) => {},
            Err(e) => {
                return Err(e);
            },
        }
        proof {
            assert(sequence_models(items@).take(i + 1) =~= front.push(items@[i as int]@));
            lemma_after_push(
                front,
                items@[i as int]@,
                expand_sequence(env, context.reported(), before.skip(i + 1)),
            );
        }
        i = i + 1;
    }
    proof {
        assert(sequence_models(items@).take(i as int) =~= sequence_models(items@));
        lemma_after_none(sequence_models(items@), context.reported());
    }
    Ok(())
}

/// Expands an item of a sequence in place.
pub fn sequence_item(
    context: &mut Context,
    item: &mut SequenceItem,
) -> (r: Result<(), InvariantViolation>)
    ensures
        final(context).env() == old(context).env(),
        achieves(
            expand_sequence_item(old(context).env(), old(context).reported(), old(item)@),
            r,
            final(item)@,
            final(context).reported(),
        ),
    decreases *old(item),
{
    proof {
        reveal(Exp::model);
        reveal(expand_sequence_item);
        reveal(expand_exp);
    }
    match &mut item.value {
        SequenceItem_::Eval(te) => exp(context, &mut **te),
        SequenceItem_::Declare(tbind) => bind_list(context, tbind),
        SequenceItem_::Bind(tbind, tys, te) => {
            match bind_list(context, tbind) {
                Ok(_) => {},
                Err(e) => {
                    return Err(e);
                },
            }
            match expected_types(context, tys) {
                Ok(_) => {},
                Err(e) => {
                    return Err(e);
                },
            }
            exp(context, &mut **te)
        },
    }
}

/// Expands the entries of a tuple expression in place, first to last.
pub fn exp_list(
    context: &mut Context,
    items: &mut Vec<ExpListItem>,
) -> (r: Result<(), InvariantViolation>)
    ensures
        final(context).env() == old(context).env(),
        achieves(
            expand_exp_list(
                old(context).env(),
                old(context).reported(),
                exp_list_models(old(items)@),
            ),
            r,
            exp_list_models(final(items)@),
            final(context).reported(),
        ),
    decreases *old(items),
{
    proof {
        reveal(expand_exp_list);
        reveal(expand_exp_list_item);
    }
    let ghost env = context.env();
    let ghost start = context.reported();
    let ghost before = exp_list_models(items@);
    let mut i: usize = 0;
    proof {
        assert(before.skip(0) =~= before);
        assert(exp_list_models(items@).take(0) =~= Seq::empty());
        assert(Seq::empty() + before =~= before);
    }
    while i < items.len()
        invariant
            i <= items@.len(),
            items@.len() == old(items)@.len(),
            before == exp_list_models(old(items)@),
            context.env() == env,
            env == old(context).env(),
            start == old(context).reported(),
            forall|j: int| i <= j < items@.len() ==> items@[j] == old(items)@[j],
            expand_exp_list(env, start, before) == after(
                exp_list_models(items@).take(i as int),
                expand_exp_list(env, context.reported(), before.skip(i as int)),
            ),
        decreases items.len() - i,
    {
        let ghost front = exp_list_models(items@).take(i as int);
        proof {
            reveal(expand_exp_list);
            reveal(expand_exp_list_item);
            assert(before.skip(i as int).drop_first() =~= before.skip(i + 1));
        }
        match exp_list_item(context, &mut items[i]) {
            Ok(_) => {},
            Err(e) => {
                return Err(e);
            },
        }
        proof {
            assert(exp_list_models(items@).take(i + 1) =~= front.push(items@[i as int]@));
            lemma_after_push(
                front,
                items@[i as int]@,
                expand_exp_list(env, context.reported(), before.skip(i + 1)),
            );
        }
        i = i + 1;
    }
    proof {
        assert(exp_list_models(items@).take(i as int) =~= exp_list_models(items@));
        lemma_after_none(exp_list_models(items@), context.reported());
    }
    Ok(())
}

/// Expands an entry of a tuple expression in place.
pub fn exp_list_item(
    context: &mut Context,
    item: &mut ExpListItem,
) -> (r: Result<(), InvariantViolation>)
    ensures
        final(context).env() == old(context).env(),
        achieves(
            expand_exp_list_item(old(context).env(), old(context).reported(), old(item)@),
            r,
            final(item)@,
            final(context).reported(),
        ),
    decreases *old(item),
{
    proof {
        reveal(Exp::model);
        reveal(expand_exp_list_item);
        reveal(expand_exp);
    }
    match item {
        ExpListItem::Single(e, st) => {
            match exp(context, e) {
                Ok(_) => {},
                Err(e) => {
                    return Err(e);
                },
            }
            match single_type(context, &mut **st) {
                Ok(_) => Ok(()),
                Err(e) => Err(e),
            }
        },
        ExpListItem::Splat(_, e, ss) => {
            match exp(context, e) {
                Ok(_) => {},
                Err(e) => {
                    return Err(e);
                },
            }
            single_types(context, ss)
        },
    }
}

} // verus!
