//! The pattern expander: it expands the types inside binders and assignment
//! patterns, and reports locals that are bound and never used.
use crate::context::{Context, InvariantViolation};
use crate::messages::unused_local;
use crate::semantics::{
    achieves, after, expand_assign, expand_assign_field, expand_assign_fields, expand_assign_list,
    expand_assigns, expand_bind, expand_bind_field, expand_bind_fields, expand_bind_list,
    expand_binds, lemma_after_none, lemma_after_push,
};
use crate::syntax::{
    assign_field_models, assign_models, bind_field_models, bind_models, Assign, AssignField,
    AssignList, Assign_, Bind, BindField, BindList, Bind_,
};
use crate::type_expander::{base_type, base_types, single_type};
use vstd::prelude::*;

verus! {

/// Expands the types in a binder in place.
pub fn bind(context: &mut Context, b: &mut Bind) -> (r: Result<(), InvariantViolation>)
    ensures
        final(context).env() == old(context).env(),
        achieves(
            expand_bind(old(context).env(), old(context).reported(), old(b)@),
            r,
            final(b)@,
            final(context).reported(),
        ),
    decreases *old(b),
{
    proof {
        reveal(expand_bind);
        reveal(expand_bind_fields);
    }
    let unused = match &b.value {
        Bind_::Var(v, st) => match st {
            None => Some(unused_local(b.loc, &v.value)),
            Some(_) => None,
        },
        _ => None,
    };
    match unused {
        Some(e) => {
            context.error(e);
            b.value = Bind_::Ignore;
            return Ok(());
        },
        None => {},
    }
    match &mut b.value {
        Bind_::Ignore => Ok(()),
        Bind_::Var(_, st) => match st {
            Some(s) => match single_type(context, s) {
                Ok(_) => Ok(()),
                Err(e) => Err(e),
            },
            None => Ok(()),
        },
        Bind_::Unpack(_, _, bts, fields) => {
            match base_types(context, bts) {
                Ok(_) => {},
                Err(e) => {
                    return Err(e);
                },
            }
            bind_fields(context, fields)
        },
        Bind_::BorrowUnpack(_, _, _, bts, fields) => {
            match base_types(context, bts) {
                Ok(_) => {},
                Err(e) => {
                    return Err(e);
                },
            }
            bind_fields(context, fields)
        },
    }
}

/// Expands the fields of a destructuring binder in place, first to last.
fn bind_fields(
    context: &mut Context,
    fields: &mut Vec<BindField>,
) -> (r: Result<(), InvariantViolation>)
    ensures
        final(context).env() == old(context).env(),
        achieves(
            expand_bind_fields(
                old(context).env(),
                old(context).reported(),
                bind_field_models(old(fields)@),
            ),
            r,
            bind_field_models(final(fields)@),
            final(context).reported(),
        ),
    decreases *old(fields),
{
    proof {
        reveal(expand_bind_fields);
        reveal(expand_bind_field);
        reveal(expand_bind);
    }
    let ghost env = context.env();
    let ghost start = context.reported();
    let ghost before = bind_field_models(fields@);
    let mut i: usize = 0;
    proof {
        assert(before.skip(0) =~= before);
        assert(bind_field_models(fields@).take(0) =~= Seq::empty());
        assert(Seq::empty() + before =~= before);
    }
    while i < fields.len()
        invariant
            i <= fields@.len(),
            fields@.len() == old(fields)@.len(),
            before == bind_field_models(old(fields)@),
            context.env() == env,
            env == old(context).env(),
            start == old(context).reported(),
            forall|j: int| i <= j < fields@.len() ==> fields@[j] == old(fields)@[j],
            expand_bind_fields(env, start, before) == after(
                bind_field_models(fields@).take(i as int),
                expand_bind_fields(env, context.reported(), before.skip(i as int)),
            ),
        decreases fields.len() - i,
    {
        let ghost front = bind_field_models(fields@).take(i as int);
        proof {
            reveal(expand_bind_fields);
            reveal(expand_bind_field);
            reveal(expand_bind);
            assert(before.skip(i as int).drop_first() =~= before.skip(i + 1));
        }
        let ghost item = fields@[i as int]@;
        let ghost errors = context.reported();
        proof {
            let rest = before.skip(i + 1);
            assert(before.skip(i as int)[0] == item);
            let whole = expand_bind_fields(env, errors, before.skip(i as int));
            assert(whole == match expand_bind_field(env, errors, item) {
                Err(e) => Err(e),
                Ok(first) => after(seq![first.value], expand_bind_fields(env, first.errors, rest)),
            });
        }
        match base_type(context, &mut fields[i].ty) {
            Ok(_) => {},
            Err(e) => {
                return Err(e);
            },
        }
        proof {
            assert(fields@[i as int].bind@ == item.bind);
        }
        match bind(context, &mut fields[i].bind) {
            Ok(_) => {},
            Err(e) => {
                return Err(e);
            },
        }
        proof {
            assert(bind_field_models(fields@).take(i + 1) =~= front.push(fields@[i as int]@));
            lemma_after_push(
                front,
                fields@[i as int]@,
                expand_bind_fields(env, context.reported(), before.skip(i + 1)),
            );
        }
        i = i + 1;
    }
    proof {
        assert(bind_field_models(fields@).take(i as int) =~= bind_field_models(fields@));
        lemma_after_none(bind_field_models(fields@), context.reported());
    }
    Ok(())
}

/// Expands binders in place, first to last.
fn bind_list_items(
    context: &mut Context,
    items: &mut Vec<Bind>,
) -> (r: Result<(), InvariantViolation>)
    ensures
        final(context).env() == old(context).env(),
        achieves(
            expand_binds(old(context).env(), old(context).reported(), bind_models(old(items)@)),
            r,
            bind_models(final(items)@),
            final(context).reported(),
        ),
{
    proof {
        reveal(expand_binds);
    }
    let ghost env = context.env();
    let ghost start = context.reported();
    let ghost before = bind_models(items@);
    let mut i: usize = 0;
    proof {
        assert(before.skip(0) =~= before);
        assert(bind_models(items@).take(0) =~= Seq::empty());
        assert(Seq::empty() + before =~= before);
    }
    while i < items.len()
        invariant
            i <= items@.len(),
            items@.len() == old(items)@.len(),
            before == bind_models(old(items)@),
            context.env() == env,
            env == old(context).env(),
            start == old(context).reported(),
            forall|j: int| i <= j < items@.len() ==> items@[j] == old(items)@[j],
            expand_binds(env, start, before) == after(
                bind_models(items@).take(i as int),
                expand_binds(env, context.reported(), before.skip(i as int)),
            ),
        decreases items.len() - i,
    {
        let ghost front = bind_models(items@).take(i as int);
        proof {
            reveal(expand_binds);
            assert(before.skip(i as int).drop_first() =~= before.skip(i + 1));
        }
        match bind(context, &mut items[i]) {
            Ok(_) => {},
            Err(e) => {
                return Err(e);
            },
        }
        proof {
            assert(bind_models(items@).take(i + 1) =~= front.push(items@[i as int]@));
            lemma_after_push(
                front,
                items@[i as int]@,
                expand_binds(env, context.reported(), before.skip(i + 1)),
            );
        }
        i = i + 1;
    }
    proof {
        assert(bind_models(items@).take(i as int) =~= bind_models(items@));
        lemma_after_none(bind_models(items@), context.reported());
    }
    Ok(())
}

/// Expands the binders of a list in place, first to last.
pub fn bind_list(context: &mut Context, binds: &mut BindList) -> (r: Result<
    (),
    InvariantViolation,
>)
    ensures
        final(context).env() == old(context).env(),
        achieves(
            expand_bind_list(old(context).env(), old(context).reported(), old(binds)@),
            r,
            final(binds)@,
            final(context).reported(),
        ),
{
    proof {
        reveal(expand_bind_list);
    }
    bind_list_items(context, &mut binds.value)
}

/// Expands the types in an assignment pattern in place.
pub fn assign(context: &mut Context, a: &mut Assign) -> (r: Result<(), InvariantViolation>)
    ensures
        final(context).env() == old(context).env(),
        achieves(
            expand_assign(old(context).env(), old(context).reported(), old(a)@),
            r,
            final(a)@,
            final(context).reported(),
        ),
    decreases *old(a),
{
    proof {
        reveal(expand_assign);
        reveal(expand_assign_fields);
    }
    match &mut a.value {
        Assign_::Ignore => Ok(()),
        Assign_::Var(_, st) => match single_type(context, st) {
            Ok(_) => Ok(()),
            Err(e) => Err(e),
        },
        Assign_::Unpack(_, _, bts, fields) => {
            match base_types(context, bts) {
                Ok(_) => {},
                Err(e) => {
                    return Err(e);
                },
            }
            assign_fields(context, fields)
        },
        Assign_::BorrowUnpack(_, _, _, bts, fields) => {
            match base_types(context, bts) {
                Ok(_) => {},
                Err(e) => {
                    return Err(e);
                },
            }
            assign_fields(context, fields)
        },
    }
}

/// Expands the fields of a destructuring assignment in place, first to last.
fn assign_fields(
    context: &mut Context,
    fields: &mut Vec<AssignField>,
) -> (r: Result<(), InvariantViolation>)
    ensures
        final(context).env() == old(context).env(),
        achieves(
            expand_assign_fields(
                old(context).env(),
                old(context).reported(),
                assign_field_models(old(fields)@),
            ),
            r,
            assign_field_models(final(fields)@),
            final(context).reported(),
        ),
    decreases *old(fields),
{
    proof {
        reveal(expand_assign_fields);
        reveal(expand_assign_field);
        reveal(expand_assign);
    }
    let ghost env = context.env();
    let ghost start = context.reported();
    let ghost before = assign_field_models(fields@);
    let mut i: usize = 0;
    proof {
        assert(before.skip(0) =~= before);
        assert(assign_field_models(fields@).take(0) =~= Seq::empty());
        assert(Seq::empty() + before =~= before);
    }
    while i < fields.len()
        invariant
            i <= fields@.len(),
            fields@.len() == old(fields)@.len(),
            before == assign_field_models(old(fields)@),
            context.env() == env,
            env == old(context).env(),
            start == old(context).reported(),
            forall|j: int| i <= j < fields@.len() ==> fields@[j] == old(fields)@[j],
            expand_assign_fields(env, start, before) == after(
                assign_field_models(fields@).take(i as int),
                expand_assign_fields(env, context.reported(), before.skip(i as int)),
            ),
        decreases fields.len() - i,
    {
        let ghost front = assign_field_models(fields@).take(i as int);
        proof {
            reveal(expand_assign_fields);
            reveal(expand_assign_field);
            reveal(expand_assign);
            assert(before.skip(i as int).drop_first() =~= before.skip(i + 1));
        }
        let ghost item = fields@[i as int]@;
        let ghost errors = context.reported();
        proof {
            let rest = before.skip(i + 1);
            assert(before.skip(i as int)[0] == item);
            let whole = expand_assign_fields(env, errors, before.skip(i as int));
            assert(whole == match expand_assign_field(env, errors, item) {
                Err(e) => Err(e),
                Ok(first) => after(
                    seq![first.value],
                    expand_assign_fields(env, first.errors, rest),
                ),
            });
        }
        match base_type(context, &mut fields[i].ty) {
            Ok(_) => {},
            Err(e) => {
                return Err(e);
            },
        }
        proof {
            assert(fields@[i as int].assign@ == item.assign);
        }
        match assign(context, &mut fields[i].assign) {
            Ok(_) => {},
            Err(e) => {
                return Err(e);
            },
        }
        proof {
            assert(assign_field_models(fields@).take(i + 1) =~= front.push(fields@[i as int]@));
            lemma_after_push(
                front,
                fields@[i as int]@,
                expand_assign_fields(env, context.reported(), before.skip(i + 1)),
            );
        }
        i = i + 1;
    }
    proof {
        assert(assign_field_models(fields@).take(i as int) =~= assign_field_models(fields@));
        lemma_after_none(assign_field_models(fields@), context.reported());
    }
    Ok(())
}

/// Expands assignment patterns in place, first to last.
fn assign_list_items(
    context: &mut Context,
    items: &mut Vec<Assign>,
) -> (r: Result<(), InvariantViolation>)
    ensures
        final(context).env() == old(context).env(),
        achieves(
            expand_assigns(old(context).env(), old(context).reported(), assign_models(old(items)@)),
            r,
            assign_models(final(items)@),
            final(context).reported(),
        ),
{
    proof {
        reveal(expand_assigns);
    }
    let ghost env = context.env();
    let ghost start = context.reported();
    let ghost before = assign_models(items@);
    let mut i: usize = 0;
    proof {
        assert(before.skip(0) =~= before);
        assert(assign_models(items@).take(0) =~= Seq::empty());
        assert(Seq::empty() + before =~= before);
    }
    while i < items.len()
        invariant
            i <= items@.len(),
            items@.len() == old(items)@.len(),
            before == assign_models(old(items)@),
            context.env() == env,
            env == old(context).env(),
            start == old(context).reported(),
            forall|j: int| i <= j < items@.len() ==> items@[j] == old(items)@[j],
            expand_assigns(env, start, before) == after(
                assign_models(items@).take(i as int),
                expand_assigns(env, context.reported(), before.skip(i as int)),
            ),
        decreases items.len() - i,
    {
        let ghost front = assign_models(items@).take(i as int);
        proof {
            reveal(expand_assigns);
            assert(before.skip(i as int).drop_first() =~= before.skip(i + 1));
        }
        match assign(context, &mut items[i]) {
            Ok(_) => {},
            Err(e) => {
                return Err(e);
            },
        }
        proof {
            assert(assign_models(items@).take(i + 1) =~= front.push(items@[i as int]@));
            lemma_after_push(
                front,
                items@[i as int]@,
                expand_assigns(env, context.reported(), before.skip(i + 1)),
            );
        }
        i = i + 1;
    }
    proof {
        assert(assign_models(items@).take(i as int) =~= assign_models(items@));
        lemma_after_none(assign_models(items@), context.reported());
    }
    Ok(())
}

/// Expands the assignment patterns of a list in place, first to last.
pub fn assign_list(context: &mut Context, assigns: &mut AssignList) -> (r: Result<
    (),
    InvariantViolation,
>)
    ensures
        final(context).env() == old(context).env(),
        achieves(
            expand_assign_list(old(context).env(), old(context).reported(), old(assigns)@),
            r,
            final(assigns)@,
            final(context).reported(),
        ),
{
    proof {
        reveal(expand_assign_list);
    }
    assign_list_items(context, &mut assigns.value)
}

} // verus!
