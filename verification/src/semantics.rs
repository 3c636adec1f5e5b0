//! What expansion makes of each part of a function, as mathematical
//! functions over the models. Each takes the diagnostics reported so far and
//! gives the expanded part together with the diagnostics reported after it,
//! or the broken promise that stops the run.
use crate::context::{base_kind, classify, unfold_base, Env, InvariantViolation, SpecError};
use crate::messages::{literal_too_large_error, uninferred_type_error, unused_local_error};
use crate::syntax::{
    SpecAssign, SpecAssignField, SpecAssignList, SpecAssign_, SpecBind, SpecBindField, SpecBindList,
    SpecBind_, SpecBuiltinFunction, SpecBuiltinFunction_, SpecExp, SpecExpListItem,
    SpecFunctionBody_, SpecModuleCall, SpecPackField, SpecSequenceItem, SpecSequenceItem_,
    SpecUnannotatedExp, SpecUnannotatedExp_, SpecValue, SpecValue_,
};
use crate::types::{
    BuiltinTypeName_, Kind, Kind_, Loc, SpecBaseType, SpecBaseType_, SpecFunctionSignature,
    SpecName, SpecParameter, SpecSingleType, SpecSingleType_, SpecType, SpecType_,
};
use vstd::prelude::*;

verus! {

/// An expanded part, and all the diagnostics reported once it is done.
pub struct Step<T> {
    pub value: T,
    pub errors: Seq<SpecError>,
}

/// What expanding a part comes to: the part expanded, or the broken promise.
pub type Outcome<T> = Result<Step<T>, InvariantViolation>;

/// Whether a run did what `out` says: it ended well, left `value` in place of
/// the part and `errors` as the reported diagnostics; or it stopped with the
/// broken promise that `out` names.
pub open spec fn achieves<T, R>(
    out: Outcome<T>,
    r: Result<R, InvariantViolation>,
    value: T,
    errors: Seq<SpecError>,
) -> bool {
    match out {
        Ok(done) => r is Ok && value == done.value && errors == done.errors,
        Err(e) => r == Err::<R, InvariantViolation>(e),
    }
}

/// Puts the parts that are done in front of what the rest comes to.
pub open spec fn after<T>(front: Seq<T>, rest: Outcome<Seq<T>>) -> Outcome<Seq<T>> {
    match rest {
        Ok(done) => Ok(Step { value: front + done.value, errors: done.errors }),
        Err(e) => Err(e),
    }
}

/// A base type with every variable replaced by what the substitution holds
/// for it, and every applied type given its kind. A variable that stays
/// unsolved becomes the type of a diverging expression and is reported. An
/// applied type is classified once its arguments are expanded, and keeps a
/// kind that it already has. What a variable stands for is expanded in turn,
/// `depth` levels deep.
#[verifier::opaque]
pub open spec fn expand_base_at(
    env: Env,
    errors: Seq<SpecError>,
    bt: SpecBaseType,
    depth: nat,
) -> Outcome<SpecBaseType>
    decreases depth, bt,
{
    match bt.value {
        SpecBaseType_::Var(_) => match unfold_base(env.subst, bt) {
            Err(e) => Err(e),
            Ok(t) => match t.value {
                SpecBaseType_::Anything => Ok(
                    Step { value: t, errors: errors.push(uninferred_type_error(bt.loc)) },
                ),
                SpecBaseType_::Apply(_, _, _) => if depth == 0 {
                    Err(InvariantViolation::UnresolvableVariable)
                } else {
                    expand_base_at(env, errors, t, (depth - 1) as nat)
                },
                _ => Ok(Step { value: t, errors }),
            },
        },
        SpecBaseType_::Apply(k, n, args) => match expand_bases_at(env, errors, args, depth) {
            Err(e) => Err(e),
            Ok(done) => match k {
                Some(_) => Ok(
                    Step {
                        value: SpecBaseType {
                            loc: bt.loc,
                            value: SpecBaseType_::Apply(k, n, done.value),
                        },
                        errors: done.errors,
                    },
                ),
                None => match classify(env.structs, n, done.value) {
                    None => Err(InvariantViolation::UnclassifiableType),
                    Some(kind) => Ok(
                        Step {
                            value: SpecBaseType {
                                loc: bt.loc,
                                value: SpecBaseType_::Apply(Some(kind), n, done.value),
                            },
                            errors: done.errors,
                        },
                    ),
                },
            },
        },
        _ => Ok(Step { value: bt, errors }),
    }
}

/// The base types of a list expanded one after the other, first to last.
#[verifier::opaque]
pub open spec fn expand_bases_at(
    env: Env,
    errors: Seq<SpecError>,
    bts: Seq<SpecBaseType>,
    depth: nat,
) -> Outcome<Seq<SpecBaseType>>
    decreases depth, bts,
{
    if bts.len() == 0 {
        Ok(Step { value: Seq::empty(), errors })
    } else {
        match expand_base_at(env, errors, bts[0], depth) {
            Err(e) => Err(e),
            Ok(first) => after(
                seq![first.value],
                expand_bases_at(env, first.errors, bts.drop_first(), depth),
            ),
        }
    }
}

/// How deep the types that variables stand for can be nested in one another
/// before a variable must come up inside its own solution: the number of
/// bindings. Whatever a greater depth expands, this depth expands to the same.
pub open spec fn nesting_bound(env: Env) -> nat {
    env.subst.dom().len()
}

/// A base type expanded as deep as any substitution without a circle needs.
#[verifier::opaque]
pub open spec fn expand_base(env: Env, errors: Seq<SpecError>, bt: SpecBaseType) -> Outcome<
    SpecBaseType,
> {
    expand_base_at(env, errors, bt, nesting_bound(env))
}

/// The base types of a list expanded as deep as any substitution without a
/// circle needs.
#[verifier::opaque]
pub open spec fn expand_bases(
    env: Env,
    errors: Seq<SpecError>,
    bts: Seq<SpecBaseType>,
) -> Outcome<Seq<SpecBaseType>> {
    expand_bases_at(env, errors, bts, nesting_bound(env))
}

/// Whether expansion puts another node in the place of this single type.
pub open spec fn single_replaced(st: SpecSingleType) -> bool {
    match st.value {
        SpecSingleType_::Base(b) => b.value is Var,
        SpecSingleType_::Ref(_, _) => false,
    }
}

/// A single type with its base type expanded. Where a variable stood, the
/// single type takes the place of what the variable stands for.
#[verifier::opaque]
pub open spec fn expand_single(env: Env, errors: Seq<SpecError>, st: SpecSingleType) -> Outcome<
    SpecSingleType,
> {
    match st.value {
        SpecSingleType_::Ref(m, b) => match expand_base(env, errors, b) {
            Err(e) => Err(e),
            Ok(done) => Ok(
                Step {
                    value: SpecSingleType {
                        loc: st.loc,
                        value: SpecSingleType_::Ref(m, done.value),
                    },
                    errors: done.errors,
                },
            ),
        },
        SpecSingleType_::Base(b) => match expand_base(env, errors, b) {
            Err(e) => Err(e),
            Ok(done) => Ok(
                Step {
                    value: SpecSingleType {
                        loc: if b.value is Var {
                            done.value.loc
                        } else {
                            st.loc
                        },
                        value: SpecSingleType_::Base(done.value),
                    },
                    errors: done.errors,
                },
            ),
        },
    }
}

/// The single types of a list expanded one after the other, first to last.
#[verifier::opaque]
pub open spec fn expand_singles(
    env: Env,
    errors: Seq<SpecError>,
    ss: Seq<SpecSingleType>,
) -> Outcome<Seq<SpecSingleType>>
    decreases ss.len(),
{
    if ss.len() == 0 {
        Ok(Step { value: Seq::empty(), errors })
    } else {
        match expand_single(env, errors, ss[0]) {
            Err(e) => Err(e),
            Ok(first) => after(
                seq![first.value],
                expand_singles(env, first.errors, ss.drop_first()),
            ),
        }
    }
}

/// A single type that may be missing, expanded where it is there.
#[verifier::opaque]
pub open spec fn expand_expected(
    env: Env,
    errors: Seq<SpecError>,
    st: Option<SpecSingleType>,
) -> Outcome<Option<SpecSingleType>> {
    match st {
        None => Ok(Step { value: None, errors }),
        Some(s) => match expand_single(env, errors, s) {
            Err(e) => Err(e),
            Ok(done) => Ok(Step { value: Some(done.value), errors: done.errors }),
        },
    }
}

/// The expected types of a list expanded one after the other, first to last.
#[verifier::opaque]
pub open spec fn expand_expecteds(
    env: Env,
    errors: Seq<SpecError>,
    ss: Seq<Option<SpecSingleType>>,
) -> Outcome<Seq<Option<SpecSingleType>>>
    decreases ss.len(),
{
    if ss.len() == 0 {
        Ok(Step { value: Seq::empty(), errors })
    } else {
        match expand_expected(env, errors, ss[0]) {
            Err(e) => Err(e),
            Ok(first) => after(
                seq![first.value],
                expand_expecteds(env, first.errors, ss.drop_first()),
            ),
        }
    }
}

/// A type with every single type in it expanded. Where a variable stood
/// alone, the type takes the place of what the variable stands for.
#[verifier::opaque]
pub open spec fn expand_type(env: Env, errors: Seq<SpecError>, ty: SpecType) -> Outcome<SpecType> {
    match ty.value {
        SpecType_::Unit => Ok(Step { value: ty, errors }),
        SpecType_::Multiple(ss) => match expand_singles(env, errors, ss) {
            Err(e) => Err(e),
            Ok(done) => Ok(
                Step {
                    value: SpecType { loc: ty.loc, value: SpecType_::Multiple(done.value) },
                    errors: done.errors,
                },
            ),
        },
        SpecType_::Single(s) => match expand_single(env, errors, s) {
            Err(e) => Err(e),
            Ok(done) => Ok(
                Step {
                    value: SpecType {
                        loc: if single_replaced(s) {
                            done.value.loc
                        } else {
                            ty.loc
                        },
                        value: SpecType_::Single(done.value),
                    },
                    errors: done.errors,
                },
            ),
        },
    }
}

/// The kind of a single type: a reference is unrestricted whatever it refers
/// to, and a base type has the kind it shows.
pub open spec fn single_kind(s: SpecSingleType) -> Option<Kind> {
    match s.value {
        SpecSingleType_::Ref(_, _) => Some(
            Kind { loc: s.loc, value: Kind_::Unrestricted },
        ),
        SpecSingleType_::Base(b) => base_kind(b),
    }
}

/// The declared parameters with their types expanded, first to last.
#[verifier::opaque]
pub open spec fn expand_parameters(
    env: Env,
    errors: Seq<SpecError>,
    ps: Seq<SpecParameter>,
) -> Outcome<Seq<SpecParameter>>
    decreases ps.len(),
{
    if ps.len() == 0 {
        Ok(Step { value: Seq::empty(), errors })
    } else {
        match expand_single(env, errors, ps[0].ty) {
            Err(e) => Err(e),
            Ok(first) => after(
                seq![SpecParameter { var: ps[0].var, ty: first.value }],
                expand_parameters(env, first.errors, ps.drop_first()),
            ),
        }
    }
}

/// A signature with the types of its parameters expanded, then its return type.
#[verifier::opaque]
pub open spec fn expand_signature(
    env: Env,
    errors: Seq<SpecError>,
    sig: SpecFunctionSignature,
) -> Outcome<SpecFunctionSignature> {
    match expand_parameters(env, errors, sig.parameters) {
        Err(e) => Err(e),
        Ok(ps) => match expand_type(env, ps.errors, sig.return_type) {
            Err(e) => Err(e),
            Ok(ret) => Ok(
                Step {
                    value: SpecFunctionSignature {
                        type_parameters: sig.type_parameters,
                        parameters: ps.value,
                        return_type: ret.value,
                    },
                    errors: ret.errors,
                },
            ),
        },
    }
}

/// A binder with the types in it expanded. A local that is declared without
/// a type was never used: it is reported and the binder ignores the value.
#[verifier::opaque]
pub open spec fn expand_bind(env: Env, errors: Seq<SpecError>, b: SpecBind) -> Outcome<SpecBind>
    decreases b,
{
    match b.value {
        SpecBind_::Ignore => Ok(Step { value: b, errors }),
        SpecBind_::Var(v, None) => Ok(
            Step {
                value: SpecBind { loc: b.loc, value: SpecBind_::Ignore },
                errors: errors.push(unused_local_error(b.loc, v.value)),
            },
        ),
        SpecBind_::Var(v, Some(st)) => match expand_single(env, errors, st) {
            Err(e) => Err(e),
            Ok(done) => Ok(
                Step {
                    value: SpecBind { loc: b.loc, value: SpecBind_::Var(v, Some(done.value)) },
                    errors: done.errors,
                },
            ),
        },
        SpecBind_::Unpack(m, n, bts, fields) => match expand_bases(env, errors, bts) {
            Err(e) => Err(e),
            Ok(tys) => match expand_bind_fields(env, tys.errors, fields) {
                Err(e) => Err(e),
                Ok(fs) => Ok(
                    Step {
                        value: SpecBind {
                            loc: b.loc,
                            value: SpecBind_::Unpack(m, n, tys.value, fs.value),
                        },
                        errors: fs.errors,
                    },
                ),
            },
        },
        SpecBind_::BorrowUnpack(mutable, m, n, bts, fields) => match expand_bases(
            env,
            errors,
            bts,
        ) {
            Err(e) => Err(e),
            Ok(tys) => match expand_bind_fields(env, tys.errors, fields) {
                Err(e) => Err(e),
                Ok(fs) => Ok(
                    Step {
                        value: SpecBind {
                            loc: b.loc,
                            value: SpecBind_::BorrowUnpack(mutable, m, n, tys.value, fs.value),
                        },
                        errors: fs.errors,
                    },
                ),
            },
        },
    }
}

/// A field of a destructuring binder: its declared type is expanded, then its binder.
#[verifier::opaque]
pub open spec fn expand_bind_field(env: Env, errors: Seq<SpecError>, f: SpecBindField) -> Outcome<SpecBindField>
    decreases f,
{
    match expand_base(env, errors, f.ty) {
        Err(e) => Err(e),
        Ok(ty) => match expand_bind(env, ty.errors, f.bind) {
            Err(e) => Err(e),
            Ok(inner) => Ok(
                Step {
                    value: SpecBindField {
                        field: f.field,
                        idx: f.idx,
                        ty: ty.value,
                        bind: inner.value,
                    },
                    errors: inner.errors,
                },
            ),
        },
    }
}

/// The fields of a destructuring binder expanded one after the other, first to last.
#[verifier::opaque]
pub open spec fn expand_bind_fields(
    env: Env,
    errors: Seq<SpecError>,
    fs: Seq<SpecBindField>,
) -> Outcome<Seq<SpecBindField>>
    decreases fs,
{
    if fs.len() == 0 {
        Ok(Step { value: Seq::empty(), errors })
    } else {
        match expand_bind_field(env, errors, fs[0]) {
            Err(e) => Err(e),
            Ok(first) => after(
                seq![first.value],
                expand_bind_fields(env, first.errors, fs.drop_first()),
            ),
        }
    }
}

/// Binders expanded one after the other, first to last.
#[verifier::opaque]
pub open spec fn expand_binds(env: Env, errors: Seq<SpecError>, bs: Seq<SpecBind>) -> Outcome<
    Seq<SpecBind>,
>
    decreases bs.len(),
{
    if bs.len() == 0 {
        Ok(Step { value: Seq::empty(), errors })
    } else {
        match expand_bind(env, errors, bs[0]) {
            Err(e) => Err(e),
            Ok(first) => after(seq![first.value], expand_binds(env, first.errors, bs.drop_first())),
        }
    }
}

/// The binders of a list expanded one after the other, first to last.
#[verifier::opaque]
pub open spec fn expand_bind_list(env: Env, errors: Seq<SpecError>, bl: SpecBindList) -> Outcome<
    SpecBindList,
> {
    match expand_binds(env, errors, bl.value) {
        Err(e) => Err(e),
        Ok(done) => Ok(
            Step { value: SpecBindList { loc: bl.loc, value: done.value }, errors: done.errors },
        ),
    }
}

/// An assignment pattern with the types in it expanded.
#[verifier::opaque]
pub open spec fn expand_assign(env: Env, errors: Seq<SpecError>, a: SpecAssign) -> Outcome<SpecAssign>
    decreases a,
{
    match a.value {
        SpecAssign_::Ignore => Ok(Step { value: a, errors }),
        SpecAssign_::Var(v, st) => match expand_single(env, errors, st) {
            Err(e) => Err(e),
            Ok(done) => Ok(
                Step {
                    value: SpecAssign { loc: a.loc, value: SpecAssign_::Var(v, done.value) },
                    errors: done.errors,
                },
            ),
        },
        SpecAssign_::Unpack(m, n, bts, fields) => match expand_bases(env, errors, bts) {
            Err(e) => Err(e),
            Ok(tys) => match expand_assign_fields(env, tys.errors, fields) {
                Err(e) => Err(e),
                Ok(fs) => Ok(
                    Step {
                        value: SpecAssign {
                            loc: a.loc,
                            value: SpecAssign_::Unpack(m, n, tys.value, fs.value),
                        },
                        errors: fs.errors,
                    },
                ),
            },
        },
        SpecAssign_::BorrowUnpack(mutable, m, n, bts, fields) => match expand_bases(
            env,
            errors,
            bts,
        ) {
            Err(e) => Err(e),
            Ok(tys) => match expand_assign_fields(env, tys.errors, fields) {
                Err(e) => Err(e),
                Ok(fs) => Ok(
                    Step {
                        value: SpecAssign {
                            loc: a.loc,
                            value: SpecAssign_::BorrowUnpack(mutable, m, n, tys.value, fs.value),
                        },
                        errors: fs.errors,
                    },
                ),
            },
        },
    }
}

/// A field of a destructuring assignment: its declared type is expanded, then its pattern.
#[verifier::opaque]
pub open spec fn expand_assign_field(
    env: Env,
    errors: Seq<SpecError>,
    f: SpecAssignField,
) -> Outcome<SpecAssignField>
    decreases f,
{
    match expand_base(env, errors, f.ty) {
        Err(e) => Err(e),
        Ok(ty) => match expand_assign(env, ty.errors, f.assign) {
            Err(e) => Err(e),
            Ok(inner) => Ok(
                Step {
                    value: SpecAssignField {
                        field: f.field,
                        idx: f.idx,
                        ty: ty.value,
                        assign: inner.value,
                    },
                    errors: inner.errors,
                },
            ),
        },
    }
}

/// The fields of a destructuring assignment expanded one after the other, first to last.
#[verifier::opaque]
pub open spec fn expand_assign_fields(
    env: Env,
    errors: Seq<SpecError>,
    fs: Seq<SpecAssignField>,
) -> Outcome<Seq<SpecAssignField>>
    decreases fs,
{
    if fs.len() == 0 {
        Ok(Step { value: Seq::empty(), errors })
    } else {
        match expand_assign_field(env, errors, fs[0]) {
            Err(e) => Err(e),
            Ok(first) => after(
                seq![first.value],
                expand_assign_fields(env, first.errors, fs.drop_first()),
            ),
        }
    }
}

/// Assignment patterns expanded one after the other, first to last.
#[verifier::opaque]
pub open spec fn expand_assigns(env: Env, errors: Seq<SpecError>, xs: Seq<SpecAssign>) -> Outcome<
    Seq<SpecAssign>,
>
    decreases xs.len(),
{
    if xs.len() == 0 {
        Ok(Step { value: Seq::empty(), errors })
    } else {
        match expand_assign(env, errors, xs[0]) {
            Err(e) => Err(e),
            Ok(first) => after(
                seq![first.value],
                expand_assigns(env, first.errors, xs.drop_first()),
            ),
        }
    }
}

/// The patterns of a list expanded one after the other, first to last.
#[verifier::opaque]
pub open spec fn expand_assign_list(
    env: Env,
    errors: Seq<SpecError>,
    al: SpecAssignList,
) -> Outcome<SpecAssignList> {
    match expand_assigns(env, errors, al.value) {
        Err(e) => Err(e),
        Ok(done) => Ok(
            Step {
                value: SpecAssignList { loc: al.loc, value: done.value },
                errors: done.errors,
            },
        ),
    }
}

/// Whether evaluating the expression leaves the place where it stands.
pub open spec fn control_exit(v: SpecUnannotatedExp_) -> bool {
    v is Break || v is Continue || v is Return || v is Abort
}

/// The type that an expression carries once it is expanded. An expression
/// that leaves its place yields no value there: whatever type inference gave
/// it, it ends as the type of a diverging expression, placed where its
/// expanded type is. One that already has that type keeps it as it is.
#[verifier::opaque]
pub open spec fn expand_annotation(env: Env, errors: Seq<SpecError>, e: SpecExp) -> Outcome<
    SpecType,
> {
    if control_exit(e.exp.value) {
        if e.ty.value.is_anything() {
            Ok(Step { value: e.ty, errors })
        } else {
            match expand_type(env, errors, e.ty) {
                Err(err) => Err(err),
                Ok(done) => Ok(
                    Step { value: SpecType_::anything(done.value.loc), errors: done.errors },
                ),
            }
        }
    } else {
        expand_type(env, errors, e.ty)
    }
}

/// How a variable of the given kind is read: copied if the kind is
/// unrestricted, moved if it is anything else.
pub open spec fn rewrite_use(var: SpecName, kind: Kind_) -> SpecUnannotatedExp_ {
    if kind == Kind_::Unrestricted {
        SpecUnannotatedExp_::Copy { from_user: false, var }
    } else {
        SpecUnannotatedExp_::Move { from_user: false, var }
    }
}

/// What a use of a variable becomes at the expanded type `ty`. A variable
/// has a single type, and expanded types show their kinds.
#[verifier::opaque]
pub open spec fn expand_use(ty: SpecType, var: SpecName) -> Result<
    SpecUnannotatedExp_,
    InvariantViolation,
> {
    match ty.value {
        SpecType_::Single(st) => match single_kind(st) {
            Some(k) => Ok(rewrite_use(var, k.value)),
            None => Err(InvariantViolation::UnexpandedType),
        },
        _ => Err(InvariantViolation::VariableNotSingle),
    }
}

/// The largest number that an unsigned integer type holds.
pub open spec fn max_value(bt: BuiltinTypeName_) -> u128 {
    match bt {
        BuiltinTypeName_::U8 => 0xff,
        BuiltinTypeName_::U64 => 0xffff_ffff_ffff_ffff,
        _ => 0xffff_ffff_ffff_ffff_ffff_ffff_ffff_ffff,
    }
}

/// The type that is suggested for a literal that is too large for its own:
/// the 64-bit integers wherever they hold the value, the 128-bit integers
/// beyond them.
pub open spec fn suggested_type(v: u128) -> BuiltinTypeName_ {
    if v > 0xffff_ffff_ffff_ffff {
        BuiltinTypeName_::U128
    } else {
        BuiltinTypeName_::U64
    }
}

/// The number `v` as a value of the unsigned integer type `bt`, which holds it.
pub open spec fn sized_value(v: u128, bt: BuiltinTypeName_) -> SpecValue_ {
    match bt {
        BuiltinTypeName_::U8 => SpecValue_::U8(v as u8),
        BuiltinTypeName_::U64 => SpecValue_::U64(v as u64),
        _ => SpecValue_::U128(v),
    }
}

/// What a number literal written at `loc` becomes at the expanded type `ty`,
/// which must be one of the unsigned integers: a value of that type, or, if
/// the number is too large for it, a reported error.
#[verifier::opaque]
pub open spec fn expand_literal(
    errors: Seq<SpecError>,
    ty: SpecType,
    loc: Loc,
    v: u128,
) -> Outcome<SpecUnannotatedExp_> {
    match ty.value.builtin_name() {
        Some(bt) => if !bt.value.numeric() {
            Err(InvariantViolation::LiteralNotNumeric)
        } else if v > max_value(bt.value) {
            Ok(
                Step {
                    value: SpecUnannotatedExp_::UnresolvedError,
                    errors: errors.push(
                        literal_too_large_error(loc, ty.loc, v, bt.value, suggested_type(v)),
                    ),
                },
            )
        } else {
            Ok(
                Step {
                    value: SpecUnannotatedExp_::Value(
                        SpecValue { loc, value: sized_value(v, bt.value) },
                    ),
                    errors,
                },
            )
        },
        None => Err(InvariantViolation::LiteralNotNumeric),
    }
}

/// A builtin operation with its type expanded.
#[verifier::opaque]
pub open spec fn expand_builtin(
    env: Env,
    errors: Seq<SpecError>,
    b: SpecBuiltinFunction,
) -> Outcome<SpecBuiltinFunction> {
    match b.value {
        SpecBuiltinFunction_::MoveToSender(bt) => match expand_base(env, errors, bt) {
            Err(e) => Err(e),
            Ok(t) => Ok(
                Step {
                    value: SpecBuiltinFunction {
                        loc: b.loc,
                        value: SpecBuiltinFunction_::MoveToSender(t.value),
                    },
                    errors: t.errors,
                },
            ),
        },
        SpecBuiltinFunction_::MoveFrom(bt) => match expand_base(env, errors, bt) {
            Err(e) => Err(e),
            Ok(t) => Ok(
                Step {
                    value: SpecBuiltinFunction {
                        loc: b.loc,
                        value: SpecBuiltinFunction_::MoveFrom(t.value),
                    },
                    errors: t.errors,
                },
            ),
        },
        SpecBuiltinFunction_::BorrowGlobal(m, bt) => match expand_base(env, errors, bt) {
            Err(e) => Err(e),
            Ok(t) => Ok(
                Step {
                    value: SpecBuiltinFunction {
                        loc: b.loc,
                        value: SpecBuiltinFunction_::BorrowGlobal(m, t.value),
                    },
                    errors: t.errors,
                },
            ),
        },
        SpecBuiltinFunction_::Exists(bt) => match expand_base(env, errors, bt) {
            Err(e) => Err(e),
            Ok(t) => Ok(
                Step {
                    value: SpecBuiltinFunction {
                        loc: b.loc,
                        value: SpecBuiltinFunction_::Exists(t.value),
                    },
                    errors: t.errors,
                },
            ),
        },
        SpecBuiltinFunction_::Freeze(bt) => match expand_base(env, errors, bt) {
            Err(e) => Err(e),
            Ok(t) => Ok(
                Step {
                    value: SpecBuiltinFunction {
                        loc: b.loc,
                        value: SpecBuiltinFunction_::Freeze(t.value),
                    },
                    errors: t.errors,
                },
            ),
        },
    }
}

/// An expression expanded: first the type it carries, then what it is made of.
#[verifier::opaque]
pub open spec fn expand_exp(env: Env, errors: Seq<SpecError>, e: SpecExp) -> Outcome<SpecExp>
    decreases e,
{
    match expand_annotation(env, errors, e) {
        Err(err) => Err(err),
        Ok(ty) => match expand_node(env, ty.errors, ty.value, e.exp) {
            Err(err) => Err(err),
            Ok(node) => Ok(
                Step {
                    value: SpecExp {
                        ty: ty.value,
                        exp: SpecUnannotatedExp { loc: e.exp.loc, value: node.value },
                    },
                    errors: node.errors,
                },
            ),
        },
    }
}

/// Whether the form holds one expression and nothing else to expand.
pub open spec fn operand_form(v: SpecUnannotatedExp_) -> bool {
    v is Return || v is Abort || v is Dereference || v is UnaryExp || v is Borrow ||
        v is TempBorrow || v is Loop
}

/// Whether the form holds several expressions and nothing else to expand.
pub open spec fn branch_form(v: SpecUnannotatedExp_) -> bool {
    v is IfElse || v is While || v is Mutate
}

/// Whether the form carries a type of its own.
pub open spec fn typed_form(v: SpecUnannotatedExp_) -> bool {
    v is BinopExp || v is Cast || v is Annotate
}

/// Whether the form is a call.
pub open spec fn call_form(v: SpecUnannotatedExp_) -> bool {
    v is ModuleCall || v is Builtin
}

/// Whether the form is a block or an assignment.
pub open spec fn block_form(v: SpecUnannotatedExp_) -> bool {
    v is Block || v is Assign
}

/// Whether the form builds a struct or a tuple.
pub open spec fn aggregate_form(v: SpecUnannotatedExp_) -> bool {
    v is Pack || v is ExpList
}

/// What a use of a variable or a number literal at `exp` becomes under the
/// expanded type `ty`: a copy or a move; a value of the type of the literal.
#[verifier::opaque]
pub open spec fn expand_rewritten_forms(
    errors: Seq<SpecError>,
    ty: SpecType,
    exp: SpecUnannotatedExp,
) -> Outcome<SpecUnannotatedExp_> {
    match exp.value {
        SpecUnannotatedExp_::Use(v) => match expand_use(ty, v) {
            Err(e) => Err(e),
            Ok(value) => Ok(Step { value, errors }),
        },
        SpecUnannotatedExp_::InferredNum(v) => expand_literal(errors, ty, exp.loc, v),
        _ => Ok(Step { value: exp.value, errors }),
    }
}

/// What an expression is made of, expanded under its expanded type `ty`. A
/// form that has no type and no expression inside stays as it is.
#[verifier::opaque]
pub open spec fn expand_node(
    env: Env,
    errors: Seq<SpecError>,
    ty: SpecType,
    exp: SpecUnannotatedExp,
) -> Outcome<SpecUnannotatedExp_>
    decreases exp, 1nat,
{
    match exp.value {
        SpecUnannotatedExp_::Use(..)
        | SpecUnannotatedExp_::InferredNum(..) => expand_rewritten_forms(errors, ty, exp),
        SpecUnannotatedExp_::Return(..)
        | SpecUnannotatedExp_::Abort(..)
        | SpecUnannotatedExp_::Dereference(..)
        | SpecUnannotatedExp_::UnaryExp(..)
        | SpecUnannotatedExp_::Borrow(..)
        | SpecUnannotatedExp_::TempBorrow(..)
        | SpecUnannotatedExp_::Loop { .. } => expand_operand_forms(env, errors, exp),
        SpecUnannotatedExp_::IfElse(..)
        | SpecUnannotatedExp_::While(..)
        | SpecUnannotatedExp_::Mutate(..) => expand_branch_forms(env, errors, exp),
        SpecUnannotatedExp_::BinopExp(..)
        | SpecUnannotatedExp_::Cast(..)
        | SpecUnannotatedExp_::Annotate(..) => expand_typed_forms(env, errors, exp),
        SpecUnannotatedExp_::ModuleCall(..)
        | SpecUnannotatedExp_::Builtin(..) => expand_call_forms(env, errors, exp),
        SpecUnannotatedExp_::Block(..)
        | SpecUnannotatedExp_::Assign(..) => expand_block_forms(env, errors, exp),
        SpecUnannotatedExp_::Pack(..)
        | SpecUnannotatedExp_::ExpList(..) => expand_aggregate_forms(env, errors, exp),
        _ => Ok(Step { value: exp.value, errors }),
    }
}

/// The forms with one expression inside: it is expanded.
#[verifier::opaque]
pub open spec fn expand_operand_forms(
    env: Env,
    errors: Seq<SpecError>,
    exp: SpecUnannotatedExp,
) -> Outcome<SpecUnannotatedExp_>
    decreases exp, 0nat,
{
    match exp.value {
        SpecUnannotatedExp_::Return(er) => match expand_exp(env, errors, *er) {
            Err(e) => Err(e),
            Ok(r) => Ok(
                Step { value: SpecUnannotatedExp_::Return(Box::new(r.value)), errors: r.errors },
            ),
        },
        SpecUnannotatedExp_::Abort(er) => match expand_exp(env, errors, *er) {
            Err(e) => Err(e),
            Ok(r) => Ok(
                Step { value: SpecUnannotatedExp_::Abort(Box::new(r.value)), errors: r.errors },
            ),
        },
        SpecUnannotatedExp_::Dereference(er) => match expand_exp(env, errors, *er) {
            Err(e) => Err(e),
            Ok(r) => Ok(
                Step {
                    value: SpecUnannotatedExp_::Dereference(Box::new(r.value)),
                    errors: r.errors,
                },
            ),
        },
        SpecUnannotatedExp_::UnaryExp(op, er) => match expand_exp(env, errors, *er) {
            Err(e) => Err(e),
            Ok(r) => Ok(
                Step {
                    value: SpecUnannotatedExp_::UnaryExp(op, Box::new(r.value)),
                    errors: r.errors,
                },
            ),
        },
        SpecUnannotatedExp_::Borrow(mutable, er, field) => match expand_exp(env, errors, *er) {
            Err(e) => Err(e),
            Ok(r) => Ok(
                Step {
                    value: SpecUnannotatedExp_::Borrow(mutable, Box::new(r.value), field),
                    errors: r.errors,
                },
            ),
        },
        SpecUnannotatedExp_::TempBorrow(mutable, er) => match expand_exp(env, errors, *er) {
            Err(e) => Err(e),
            Ok(r) => Ok(
                Step {
                    value: SpecUnannotatedExp_::TempBorrow(mutable, Box::new(r.value)),
                    errors: r.errors,
                },
            ),
        },
        SpecUnannotatedExp_::Loop { has_break, body } => match expand_exp(env, errors, *body) {
            Err(e) => Err(e),
            Ok(l) => Ok(
                Step {
                    value: SpecUnannotatedExp_::Loop { has_break, body: Box::new(l.value) },
                    errors: l.errors,
                },
            ),
        },
        _ => Ok(Step { value: exp.value, errors }),
    }
}

/// The forms with several expressions inside: they are expanded as they are
/// written, left to right.
#[verifier::opaque]
pub open spec fn expand_branch_forms(
    env: Env,
    errors: Seq<SpecError>,
    exp: SpecUnannotatedExp,
) -> Outcome<SpecUnannotatedExp_>
    decreases exp, 0nat,
{
    match exp.value {
        SpecUnannotatedExp_::IfElse(eb, et, ef) => match expand_exp(env, errors, *eb) {
            Err(e) => Err(e),
            Ok(b) => match expand_exp(env, b.errors, *et) {
                Err(e) => Err(e),
                Ok(t) => match expand_exp(env, t.errors, *ef) {
                    Err(e) => Err(e),
                    Ok(f) => Ok(
                        Step {
                            value: SpecUnannotatedExp_::IfElse(
                                Box::new(b.value),
                                Box::new(t.value),
                                Box::new(f.value),
                            ),
                            errors: f.errors,
                        },
                    ),
                },
            },
        },
        SpecUnannotatedExp_::While(eb, eloop) => match expand_exp(env, errors, *eb) {
            Err(e) => Err(e),
            Ok(b) => match expand_exp(env, b.errors, *eloop) {
                Err(e) => Err(e),
                Ok(l) => Ok(
                    Step {
                        value: SpecUnannotatedExp_::While(Box::new(b.value), Box::new(l.value)),
                        errors: l.errors,
                    },
                ),
            },
        },
        SpecUnannotatedExp_::Mutate(el, er) => match expand_exp(env, errors, *el) {
            Err(e) => Err(e),
            Ok(l) => match expand_exp(env, l.errors, *er) {
                Err(e) => Err(e),
                Ok(r) => Ok(
                    Step {
                        value: SpecUnannotatedExp_::Mutate(Box::new(l.value), Box::new(r.value)),
                        errors: r.errors,
                    },
                ),
            },
        },
        _ => Ok(Step { value: exp.value, errors }),
    }
}

/// The forms that carry a type of their own: the expressions are expanded,
/// then the type.
#[verifier::opaque]
pub open spec fn expand_typed_forms(
    env: Env,
    errors: Seq<SpecError>,
    exp: SpecUnannotatedExp,
) -> Outcome<SpecUnannotatedExp_>
    decreases exp, 0nat,
{
    match exp.value {
        SpecUnannotatedExp_::BinopExp(el, op, operand_ty, er) => match expand_exp(
            env,
            errors,
            *el,
        ) {
            Err(e) => Err(e),
            Ok(l) => match expand_exp(env, l.errors, *er) {
                Err(e) => Err(e),
                Ok(r) => match expand_type(env, r.errors, *operand_ty) {
                    Err(e) => Err(e),
                    Ok(t) => Ok(
                        Step {
                            value: SpecUnannotatedExp_::BinopExp(
                                Box::new(l.value),
                                op,
                                Box::new(t.value),
                                Box::new(r.value),
                            ),
                            errors: t.errors,
                        },
                    ),
                },
            },
        },
        SpecUnannotatedExp_::Cast(el, rhs_ty) => match expand_exp(env, errors, *el) {
            Err(e) => Err(e),
            Ok(l) => match expand_type(env, l.errors, *rhs_ty) {
                Err(e) => Err(e),
                Ok(t) => Ok(
                    Step {
                        value: SpecUnannotatedExp_::Cast(Box::new(l.value), Box::new(t.value)),
                        errors: t.errors,
                    },
                ),
            },
        },
        SpecUnannotatedExp_::Annotate(el, rhs_ty) => match expand_exp(env, errors, *el) {
            Err(e) => Err(e),
            Ok(l) => match expand_type(env, l.errors, *rhs_ty) {
                Err(e) => Err(e),
                Ok(t) => Ok(
                    Step {
                        value: SpecUnannotatedExp_::Annotate(Box::new(l.value), Box::new(t.value)),
                        errors: t.errors,
                    },
                ),
            },
        },
        _ => Ok(Step { value: exp.value, errors }),
    }
}

/// The calls: of a function of a module, and of a builtin operation, whose
/// type is expanded before its argument.
#[verifier::opaque]
pub open spec fn expand_call_forms(
    env: Env,
    errors: Seq<SpecError>,
    exp: SpecUnannotatedExp,
) -> Outcome<SpecUnannotatedExp_>
    decreases exp, 0nat,
{
    match exp.value {
        SpecUnannotatedExp_::ModuleCall(call) => match expand_call(env, errors, *call) {
            Err(e) => Err(e),
            Ok(c) => Ok(
                Step {
                    value: SpecUnannotatedExp_::ModuleCall(Box::new(c.value)),
                    errors: c.errors,
                },
            ),
        },
        SpecUnannotatedExp_::Builtin(b, args) => match expand_builtin(env, errors, *b) {
            Err(e) => Err(e),
            Ok(f) => match expand_exp(env, f.errors, *args) {
                Err(e) => Err(e),
                Ok(a) => Ok(
                    Step {
                        value: SpecUnannotatedExp_::Builtin(Box::new(f.value), Box::new(a.value)),
                        errors: a.errors,
                    },
                ),
            },
        },
        _ => Ok(Step { value: exp.value, errors }),
    }
}

/// A block, and an assignment: its patterns are expanded, then the expected
/// types, then the right side.
#[verifier::opaque]
pub open spec fn expand_block_forms(
    env: Env,
    errors: Seq<SpecError>,
    exp: SpecUnannotatedExp,
) -> Outcome<SpecUnannotatedExp_>
    decreases exp, 0nat,
{
    match exp.value {
        SpecUnannotatedExp_::Block(items) => match expand_sequence(env, errors, items) {
            Err(e) => Err(e),
            Ok(s) => Ok(Step { value: SpecUnannotatedExp_::Block(s.value), errors: s.errors }),
        },
        SpecUnannotatedExp_::Assign(assigns, tys, er) => match expand_assign_list(
            env,
            errors,
            assigns,
        ) {
            Err(e) => Err(e),
            Ok(a) => match expand_expecteds(env, a.errors, tys) {
                Err(e) => Err(e),
                Ok(t) => match expand_exp(env, t.errors, *er) {
                    Err(e) => Err(e),
                    Ok(r) => Ok(
                        Step {
                            value: SpecUnannotatedExp_::Assign(a.value, t.value, Box::new(r.value)),
                            errors: r.errors,
                        },
                    ),
                },
            },
        },
        _ => Ok(Step { value: exp.value, errors }),
    }
}

/// A struct that is built: its type arguments are expanded, then its fields.
/// A tuple: its entries are expanded.
#[verifier::opaque]
pub open spec fn expand_aggregate_forms(
    env: Env,
    errors: Seq<SpecError>,
    exp: SpecUnannotatedExp,
) -> Outcome<SpecUnannotatedExp_>
    decreases exp, 0nat,
{
    match exp.value {
        SpecUnannotatedExp_::Pack(m, n, bs, fields) => match expand_bases(env, errors, bs) {
            Err(e) => Err(e),
            Ok(t) => match expand_pack_fields(env, t.errors, fields) {
                Err(e) => Err(e),
                Ok(f) => Ok(
                    Step {
                        value: SpecUnannotatedExp_::Pack(m, n, t.value, f.value),
                        errors: f.errors,
                    },
                ),
            },
        },
        SpecUnannotatedExp_::ExpList(items) => match expand_exp_list(env, errors, items) {
            Err(e) => Err(e),
            Ok(l) => Ok(Step { value: SpecUnannotatedExp_::ExpList(l.value), errors: l.errors }),
        },
        _ => Ok(Step { value: exp.value, errors }),
    }
}

/// A call with its type arguments expanded, then its argument, then the
/// declared types of the parameters.
#[verifier::opaque]
pub open spec fn expand_call(env: Env, errors: Seq<SpecError>, call: SpecModuleCall) -> Outcome<SpecModuleCall>
    decreases call,
{
    match expand_bases(env, errors, call.type_arguments) {
        Err(e) => Err(e),
        Ok(t) => match expand_exp(env, t.errors, *call.arguments) {
            Err(e) => Err(e),
            Ok(a) => match expand_singles(env, a.errors, call.parameter_types) {
                Err(e) => Err(e),
                Ok(p) => Ok(
                    Step {
                        value: SpecModuleCall {
                            module: call.module,
                            name: call.name,
                            type_arguments: t.value,
                            arguments: Box::new(a.value),
                            parameter_types: p.value,
                            acquires: call.acquires,
                        },
                        errors: p.errors,
                    },
                ),
            },
        },
    }
}

/// A field of a struct that is built: its declared type is expanded, then its value.
#[verifier::opaque]
pub open spec fn expand_pack_field(env: Env, errors: Seq<SpecError>, f: SpecPackField) -> Outcome<SpecPackField>
    decreases f,
{
    match expand_base(env, errors, f.ty) {
        Err(e) => Err(e),
        Ok(t) => match expand_exp(env, t.errors, f.exp) {
            Err(e) => Err(e),
            Ok(x) => Ok(
                Step {
                    value: SpecPackField { field: f.field, idx: f.idx, ty: t.value, exp: x.value },
                    errors: x.errors,
                },
            ),
        },
    }
}

/// The fields of a struct that is built expanded one after the other, first to last.
#[verifier::opaque]
pub open spec fn expand_pack_fields(
    env: Env,
    errors: Seq<SpecError>,
    items: Seq<SpecPackField>,
) -> Outcome<Seq<SpecPackField>>
    decreases items,
{
    if items.len() == 0 {
        Ok(Step { value: Seq::empty(), errors })
    } else {
        match expand_pack_field(env, errors, items[0]) {
            Err(e) => Err(e),
            Ok(first) => after(
                seq![first.value],
                expand_pack_fields(env, first.errors, items.drop_first()),
            ),
        }
    }
}

/// An entry of a tuple expression: the expression is expanded, then the types.
#[verifier::opaque]
pub open spec fn expand_exp_list_item(
    env: Env,
    errors: Seq<SpecError>,
    item: SpecExpListItem,
) -> Outcome<SpecExpListItem>
    decreases item,
{
    match item {
        SpecExpListItem::Single(e, st) => match expand_exp(env, errors, e) {
            Err(e) => Err(e),
            Ok(x) => match expand_single(env, x.errors, *st) {
                Err(e) => Err(e),
                Ok(t) => Ok(
                    Step {
                        value: SpecExpListItem::Single(x.value, Box::new(t.value)),
                        errors: t.errors,
                    },
                ),
            },
        },
        SpecExpListItem::Splat(loc, e, ss) => match expand_exp(env, errors, e) {
            Err(e) => Err(e),
            Ok(x) => match expand_singles(env, x.errors, ss) {
                Err(e) => Err(e),
                Ok(t) => Ok(
                    Step { value: SpecExpListItem::Splat(loc, x.value, t.value), errors: t.errors },
                ),
            },
        },
    }
}

/// The entries of a tuple expression expanded one after the other, first to last.
#[verifier::opaque]
pub open spec fn expand_exp_list(
    env: Env,
    errors: Seq<SpecError>,
    items: Seq<SpecExpListItem>,
) -> Outcome<Seq<SpecExpListItem>>
    decreases items,
{
    if items.len() == 0 {
        Ok(Step { value: Seq::empty(), errors })
    } else {
        match expand_exp_list_item(env, errors, items[0]) {
            Err(e) => Err(e),
            Ok(first) => after(
                seq![first.value],
                expand_exp_list(env, first.errors, items.drop_first()),
            ),
        }
    }
}

/// An item of a sequence: binders first, then the expected types, then the expression.
#[verifier::opaque]
pub open spec fn expand_sequence_item(
    env: Env,
    errors: Seq<SpecError>,
    item: SpecSequenceItem,
) -> Outcome<SpecSequenceItem>
    decreases item,
{
    match item.value {
        SpecSequenceItem_::Eval(e) => match expand_exp(env, errors, *e) {
            Err(e) => Err(e),
            Ok(x) => Ok(
                Step {
                    value: SpecSequenceItem {
                        loc: item.loc,
                        value: SpecSequenceItem_::Eval(Box::new(x.value)),
                    },
                    errors: x.errors,
                },
            ),
        },
        SpecSequenceItem_::Declare(binds) => match expand_bind_list(env, errors, binds) {
            Err(e) => Err(e),
            Ok(b) => Ok(
                Step {
                    value: SpecSequenceItem {
                        loc: item.loc,
                        value: SpecSequenceItem_::Declare(b.value),
                    },
                    errors: b.errors,
                },
            ),
        },
        SpecSequenceItem_::Bind(binds, tys, e) => match expand_bind_list(env, errors, binds) {
            Err(e) => Err(e),
            Ok(b) => match expand_expecteds(env, b.errors, tys) {
                Err(e) => Err(e),
                Ok(t) => match expand_exp(env, t.errors, *e) {
                    Err(e) => Err(e),
                    Ok(x) => Ok(
                        Step {
                            value: SpecSequenceItem {
                                loc: item.loc,
                                value: SpecSequenceItem_::Bind(b.value, t.value, Box::new(x.value)),
                            },
                            errors: x.errors,
                        },
                    ),
                },
            },
        },
    }
}

/// The items of a sequence expanded one after the other, first to last.
#[verifier::opaque]
pub open spec fn expand_sequence(
    env: Env,
    errors: Seq<SpecError>,
    items: Seq<SpecSequenceItem>,
) -> Outcome<Seq<SpecSequenceItem>>
    decreases items,
{
    if items.len() == 0 {
        Ok(Step { value: Seq::empty(), errors })
    } else {
        match expand_sequence_item(env, errors, items[0]) {
            Err(e) => Err(e),
            Ok(first) => after(
                seq![first.value],
                expand_sequence(env, first.errors, items.drop_first()),
            ),
        }
    }
}

/// The body of a function expanded. A native function has none.
#[verifier::opaque]
pub open spec fn expand_body(env: Env, errors: Seq<SpecError>, b: SpecFunctionBody_) -> Outcome<
    SpecFunctionBody_,
> {
    match b {
        SpecFunctionBody_::Native => Ok(Step { value: b, errors }),
        SpecFunctionBody_::Defined(items) => match expand_sequence(env, errors, items) {
            Err(e) => Err(e),
            Ok(s) => Ok(Step { value: SpecFunctionBody_::Defined(s.value), errors: s.errors }),
        },
    }
}

/// One more part done: it moves from the rest to the front.
pub proof fn lemma_after_push<T>(front: Seq<T>, item: T, rest: Outcome<Seq<T>>)
    ensures
        after(front, after(seq![item], rest)) == after(front.push(item), rest),
{
    match rest {
        Ok(done) => {
            assert(front + (seq![item] + done.value) =~= front.push(item) + done.value);
        },
        Err(_) => {},
    }
}

/// Nothing is left to do: the front is the whole.
pub proof fn lemma_after_none<T>(front: Seq<T>, errors: Seq<SpecError>)
    ensures
        after(front, Ok(Step { value: Seq::<T>::empty(), errors })) == Ok::<
            Step<Seq<T>>,
            InvariantViolation,
        >(Step { value: front, errors }),
{
    assert(front + Seq::<T>::empty() =~= front);
}

} // verus!
