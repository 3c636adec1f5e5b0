//! The type and kind expander: it replaces unification variables by what they
//! stand for and gives applied types their kinds, throughout a type.
use crate::accumulation::lemma_whole_base_grows;
use crate::context::{base_kind, infer_kind_base, unfold_type_base, Context, InvariantViolation};
use crate::messages::uninferred_type;
use crate::semantics::{
    achieves, after, expand_base, expand_base_at, expand_bases, expand_bases_at, expand_expected,
    expand_expecteds, expand_single, expand_singles, expand_type, lemma_after_none,
    lemma_after_push, single_kind, single_replaced,
};
use crate::settled::base_settled;
use crate::totality::lemma_whole_base_settles;
use crate::types::{
    base_type_models, expected_type_model, expected_type_models, single_type_models, BaseType,
    BaseType_, Kind, Kind_, Loc, SingleType, SingleType_, SpecBaseType, SpecSingleType, Type, Type_,
};
use vstd::prelude::*;

verus! {

/// Expands a base type in place, following the substitution `depth` levels
/// deep. Says whether another node took its place.
fn base_type_at(context: &mut Context, bt: &mut BaseType, depth: usize) -> (r: Result<
    bool,
    InvariantViolation,
>)
    ensures
        final(context).env() == old(context).env(),
        achieves(
            expand_base_at(old(context).env(), old(context).reported(), old(bt)@, depth as nat),
            r,
            final(bt)@,
            final(context).reported(),
        ),
        r is Ok ==> r->Ok_0 == (old(bt)@.value is Var),
    decreases depth, *old(bt),
{
    proof {
        reveal(expand_base_at);
        reveal(expand_bases_at);
    }
    let is_var = match &bt.value {
        BaseType_::Var(_) => true,
        _ => false,
    };
    if is_var {
        let replacement = match unfold_type_base(&context.subst, bt) {
            Ok(t) => t,
            Err(e) => {
                return Err(e);
            },
        };
        let applied = match &replacement.value {
            BaseType_::Anything => {
                context.error(uninferred_type(bt.loc));
                false
            },
            BaseType_::Apply(_, _, _) => true,
            _ => false,
        };
        *bt = replacement;
        if applied {
            if depth == 0 {
                return Err(InvariantViolation::UnresolvableVariable);
            }
            match base_type_at(context, bt, depth - 1) {
                Ok(_) => {},
                Err(e) => {
                    return Err(e);
                },
            }
        }
        return Ok(true);
    }
    match &mut bt.value {
        BaseType_::Apply(k, n, args) => {
            match base_types_at(context, args, depth) {
                Ok(_) => {},
                Err(e) => {
                    return Err(e);
                },
            }
            if k.is_none() {
                match infer_kind_base(context, n, args) {
                    Some(kind) => {
                        *k = Some(kind);
                    },
                    None => {
                        return Err(InvariantViolation::UnclassifiableType);
                    },
                }
            }
        },
        _ => {},
    }
    Ok(false)
}

/// Expands the base types of a list in place, first to last, following the
/// substitution `depth` levels deep.
fn base_types_at(context: &mut Context, bs: &mut Vec<BaseType>, depth: usize) -> (r: Result<
    (),
    InvariantViolation,
>)
    ensures
        final(context).env() == old(context).env(),
        achieves(
            expand_bases_at(
                old(context).env(),
                old(context).reported(),
                base_type_models(old(bs)@),
                depth as nat,
            ),
            r,
            base_type_models(final(bs)@),
            final(context).reported(),
        ),
    decreases depth, *old(bs),
{
    proof {
        reveal(expand_bases_at);
    }
    let ghost env = context.env();
    let ghost start = context.reported();
    let ghost before = base_type_models(bs@);
    let mut i: usize = 0;
    proof {
        assert(before.skip(0) =~= before);
        assert(base_type_models(bs@).take(0) =~= Seq::<SpecBaseType>::empty());
        assert(Seq::<SpecBaseType>::empty() + before =~= before);
    }
    while i < bs.len()
        invariant
            i <= bs@.len(),
            bs@.len() == old(bs)@.len(),
            before == base_type_models(old(bs)@),
            context.env() == env,
            env == old(context).env(),
            start == old(context).reported(),
            forall|j: int| i <= j < bs@.len() ==> bs@[j] == old(bs)@[j],
            expand_bases_at(env, start, before, depth as nat) == after(
                base_type_models(bs@).take(i as int),
                expand_bases_at(env, context.reported(), before.skip(i as int), depth as nat),
            ),
        decreases bs.len() - i,
    {
        let ghost front = base_type_models(bs@).take(i as int);
        proof {
            reveal(expand_bases_at);
            reveal(expand_base_at);
            assert(before.skip(i as int).drop_first() =~= before.skip(i + 1));
        }
        match base_type_at(context, &mut bs[i], depth) {
            Ok(_) => {},
            Err(e) => {
                return Err(e);
            },
        }
        proof {
            assert(base_type_models(bs@).take(i + 1) =~= front.push(bs@[i as int]@));
            lemma_after_push(
                front,
                bs@[i as int]@,
                expand_bases_at(env, context.reported(), before.skip(i + 1), depth as nat),
            );
        }
        i = i + 1;
    }
    proof {
        assert(base_type_models(bs@).take(i as int) =~= base_type_models(bs@));
        lemma_after_none(base_type_models(bs@), context.reported());
    }
    Ok(())
}

/// Expands a base type in place. Says whether another node took its place.
pub fn base_type(context: &mut Context, bt: &mut BaseType) -> (r: Result<
    bool,
    InvariantViolation,
>)
    ensures
        final(context).env() == old(context).env(),
        achieves(
            expand_base(old(context).env(), old(context).reported(), old(bt)@),
            r,
            final(bt)@,
            final(context).reported(),
        ),
        r is Ok ==> base_settled(final(bt)@),
        r is Ok ==> old(context).reported().is_prefix_of(final(context).reported()),
        r is Ok ==> r->Ok_0 == (old(bt)@.value is Var),
{
    proof {
        lemma_whole_base_grows(context.env(), context.reported(), bt@);
        lemma_whole_base_settles(context.env(), context.reported(), bt@);
        reveal(expand_base);
    }
    let depth = context.subst.len();
    base_type_at(context, bt, depth)
}

/// Expands the base types of a list in place, first to last.
pub fn base_types(context: &mut Context, bs: &mut Vec<BaseType>) -> (r: Result<
    (),
    InvariantViolation,
>)
    ensures
        final(context).env() == old(context).env(),
        achieves(
            expand_bases(old(context).env(), old(context).reported(), base_type_models(old(bs)@)),
            r,
            base_type_models(final(bs)@),
            final(context).reported(),
        ),
{
    proof {
        reveal(expand_bases);
    }
    let depth = context.subst.len();
    base_types_at(context, bs, depth)
}

/// Expands a single type in place. Says whether another node took its place.
pub fn single_type(context: &mut Context, st: &mut SingleType) -> (r: Result<
    bool,
    InvariantViolation,
>)
    ensures
        final(context).env() == old(context).env(),
        achieves(
            expand_single(old(context).env(), old(context).reported(), old(st)@),
            r,
            final(st)@,
            final(context).reported(),
        ),
        r is Ok ==> r->Ok_0 == single_replaced(old(st)@),
{
    proof {
        reveal(expand_single);
    }
    let mut moved: Option<Loc> = None;
    match &mut st.value {
        SingleType_::Ref(_, b) => {
            match base_type(context, b) {
                Ok(_) => {},
                Err(e) => {
                    return Err(e);
                },
            }
        },
        SingleType_::Base(b) => {
            match base_type(context, b) {
                Ok(replaced) => {
                    if replaced {
                        moved = Some(b.loc);
                    }
                },
                Err(e) => {
                    return Err(e);
                },
            }
        },
    }
    match moved {
        Some(loc) => {
            st.loc = loc;
            Ok(true)
        },
        None => Ok(false),
    }
}

/// Expands the single types of a list in place, first to last.
pub fn single_types(context: &mut Context, ss: &mut Vec<SingleType>) -> (r: Result<
    (),
    InvariantViolation,
>)
    ensures
        final(context).env() == old(context).env(),
        achieves(
            expand_singles(
                old(context).env(),
                old(context).reported(),
                single_type_models(old(ss)@),
            ),
            r,
            single_type_models(final(ss)@),
            final(context).reported(),
        ),
{
    proof {
        reveal(expand_singles);
    }
    let ghost env = context.env();
    let ghost start = context.reported();
    let ghost before = single_type_models(ss@);
    let mut i: usize = 0;
    proof {
        assert(before.skip(0) =~= before);
        assert(single_type_models(ss@).take(0) =~= Seq::<SpecSingleType>::empty());
        assert(Seq::<SpecSingleType>::empty() + before =~= before);
    }
    while i < ss.len()
        invariant
            i <= ss@.len(),
            ss@.len() == before.len(),
            before == single_type_models(old(ss)@),
            context.env() == env,
            env == old(context).env(),
            start == old(context).reported(),
            forall|j: int| i <= j < ss@.len() ==> (#[trigger] ss@[j])@ == before[j],
            expand_singles(env, start, before) == after(
                single_type_models(ss@).take(i as int),
                expand_singles(env, context.reported(), before.skip(i as int)),
            ),
        decreases ss.len() - i,
    {
        let ghost front = single_type_models(ss@).take(i as int);
        proof {
            reveal(expand_singles);
            assert(before.skip(i as int).drop_first() =~= before.skip(i + 1));
        }
        match single_type(context, &mut ss[i]) {
            Ok(_) => {},
            Err(e) => {
                return Err(e);
            },
        }
        proof {
            assert(single_type_models(ss@).take(i + 1) =~= front.push(ss@[i as int]@));
            lemma_after_push(
                front,
                ss@[i as int]@,
                expand_singles(env, context.reported(), before.skip(i + 1)),
            );
        }
        i = i + 1;
    }
    proof {
        assert(single_type_models(ss@).take(i as int) =~= single_type_models(ss@));
        lemma_after_none(single_type_models(ss@), context.reported());
    }
    Ok(())
}

/// Expands in place the types that the right side of a binding or of an
/// assignment is expected to have, where they are known.
pub fn expected_types(context: &mut Context, ss: &mut Vec<Option<SingleType>>) -> (r: Result<
    (),
    InvariantViolation,
>)
    ensures
        final(context).env() == old(context).env(),
        achieves(
            expand_expecteds(
                old(context).env(),
                old(context).reported(),
                expected_type_models(old(ss)@),
            ),
            r,
            expected_type_models(final(ss)@),
            final(context).reported(),
        ),
{
    proof {
        reveal(expand_expecteds);
        reveal(expand_expected);
    }
    let ghost env = context.env();
    let ghost start = context.reported();
    let ghost before = expected_type_models(ss@);
    let mut i: usize = 0;
    proof {
        assert(before.skip(0) =~= before);
        assert(expected_type_models(ss@).take(0) =~= Seq::<Option<SpecSingleType>>::empty());
        assert(Seq::<Option<SpecSingleType>>::empty() + before =~= before);
    }
    while i < ss.len()
        invariant
            i <= ss@.len(),
            ss@.len() == before.len(),
            before == expected_type_models(old(ss)@),
            context.env() == env,
            env == old(context).env(),
            start == old(context).reported(),
            forall|j: int|
                i <= j < ss@.len() ==> expected_type_model(#[trigger] ss@[j]) == before[j],
            expand_expecteds(env, start, before) == after(
                expected_type_models(ss@).take(i as int),
                expand_expecteds(env, context.reported(), before.skip(i as int)),
            ),
        decreases ss.len() - i,
    {
        let ghost front = expected_type_models(ss@).take(i as int);
        proof {
            reveal(expand_expecteds);
            reveal(expand_expected);
            assert(before.skip(i as int).drop_first() =~= before.skip(i + 1));
        }
        match &mut ss[i] {
            Some(st) => {
                match single_type(context, st) {
                    Ok(_) => {},
                    Err(e) => {
                        return Err(e);
                    },
                }
            },
            None => {},
        }
        proof {
            assert(expected_type_models(ss@).take(i + 1) =~= front.push(
                expected_type_model(ss@[i as int]),
            ));
            lemma_after_push(
                front,
                expected_type_model(ss@[i as int]),
                expand_expecteds(env, context.reported(), before.skip(i + 1)),
            );
        }
        i = i + 1;
    }
    proof {
        assert(expected_type_models(ss@).take(i as int) =~= expected_type_models(ss@));
        lemma_after_none(expected_type_models(ss@), context.reported());
    }
    Ok(())
}

/// Expands a type in place.
pub fn type_(context: &mut Context, ty: &mut Type) -> (r: Result<(), InvariantViolation>)
    ensures
        final(context).env() == old(context).env(),
        achieves(
            expand_type(old(context).env(), old(context).reported(), old(ty)@),
            r,
            final(ty)@,
            final(context).reported(),
        ),
{
    proof {
        reveal(expand_type);
    }
    let mut moved: Option<Loc> = None;
    match &mut ty.value {
        Type_::Unit => {},
        Type_::Multiple(ss) => {
            match single_types(context, ss) {
                Ok(_) => {},
                Err(e) => {
                    return Err(e);
                },
            }
        },
        Type_::Single(s) => {
            match single_type(context, s) {
                Ok(replaced) => {
                    if replaced {
                        moved = Some(s.loc);
                    }
                },
                Err(e) => {
                    return Err(e);
                },
            }
        },
    }
    match moved {
        Some(loc) => {
            ty.loc = loc;
        },
        None => {},
    }
    Ok(())
}

/// The kind of a base type that is expanded.
pub fn get_kind_base(b: &BaseType) -> (r: Result<Kind, InvariantViolation>)
    ensures
        match base_kind(b@) {
            Some(k) => r == Ok::<Kind, InvariantViolation>(k),
            None => r == Err::<Kind, InvariantViolation>(InvariantViolation::UnexpandedType),
        },
{
    match &b.value {
        BaseType_::Var(_) => Err(InvariantViolation::UnexpandedType),
        BaseType_::Anything => Ok(Kind { loc: b.loc, value: Kind_::Unrestricted }),
        BaseType_::Param(tp) => Ok(tp.kind),
        BaseType_::Apply(k, _, _) => match k {
            Some(kind) => Ok(*kind),
            None => Err(InvariantViolation::UnexpandedType),
        },
    }
}

/// The kind of a single type that is expanded.
pub fn get_kind(s: &SingleType) -> (r: Result<Kind, InvariantViolation>)
    ensures
        match single_kind(s@) {
            Some(k) => r == Ok::<Kind, InvariantViolation>(k),
            None => r == Err::<Kind, InvariantViolation>(InvariantViolation::UnexpandedType),
        },
{
    match &s.value {
        SingleType_::Ref(_, _) => Ok(Kind { loc: s.loc, value: Kind_::Unrestricted }),
        SingleType_::Base(b) => get_kind_base(b),
    }
}

} // verus!
