//! What holds of expansion as a whole.
use crate::accumulation::{lemma_body_grows, lemma_signature_grows};
use crate::context::{classify, Env, InvariantViolation, SpecError, SpecStructDefinition};
use crate::idempotence::{lemma_body_fixed, lemma_exp_fixed, lemma_signature_fixed};
use crate::kinds::{lemma_body_stays_known, lemma_signature_stays_known};
use crate::known::{body_known, env_known, signature_known};
use crate::messages::unused_local_error;
use crate::semantics::{
    control_exit, expand_annotation, expand_bind, expand_body, expand_exp, expand_literal,
    expand_node, expand_rewritten_forms, expand_signature, expand_use, max_value, rewrite_use,
    single_kind, Step,
};
use crate::settled::{body_settled, signature_settled, single_settled};
use crate::syntax::{
    SpecBind, SpecBind_, SpecExp, SpecFunctionBody_, SpecUnannotatedExp_, SpecValue_,
};
use crate::totality::{lemma_body_settles, lemma_exp_settles, lemma_signature_settles};
use crate::types::{
    BuiltinTypeName_, Kind_, Loc, SpecBaseType, SpecFunctionSignature, SpecName, SpecSingleType,
    SpecType, SpecTypeName, SpecType_,
};
use vstd::prelude::*;

verus! {

/// Whenever the body of a function is expanded without a broken promise, the
/// result is settled: no unification variable is left in it, every applied
/// type carries a kind, every use of a variable is a copy or a move, every
/// number literal has a width, and every expression that leaves its place
/// has the type of a diverging expression.
pub proof fn lemma_expanded_body_is_settled(
    env: Env,
    errors: Seq<SpecError>,
    b: SpecFunctionBody_,
)
    ensures
        match expand_body(env, errors, b) {
            Ok(done) => body_settled(done.value),
            Err(_) => true,
        },
{
    lemma_body_settles(env, errors, b);
}

/// Whenever a signature is expanded without a broken promise, no unification
/// variable is left in it and every applied type in it carries a kind.
pub proof fn lemma_expanded_signature_is_settled(
    env: Env,
    errors: Seq<SpecError>,
    sig: SpecFunctionSignature,
)
    ensures
        match expand_signature(env, errors, sig) {
            Ok(done) => signature_settled(done.value),
            Err(_) => true,
        },
{
    lemma_signature_settles(env, errors, sig);
}

/// Where no applied type carries the unknown kind before the body of a
/// function is expanded, neither in the body nor in what the variables are
/// bound to, none carries it after.
pub proof fn lemma_expanded_body_has_no_unknown_kind(
    env: Env,
    errors: Seq<SpecError>,
    b: SpecFunctionBody_,
)
    requires
        env_known(env),
        body_known(b),
    ensures
        match expand_body(env, errors, b) {
            Ok(done) => body_known(done.value),
            Err(_) => true,
        },
{
    lemma_body_stays_known(env, errors, b);
}

/// Where no applied type carries the unknown kind before a signature is
/// expanded, none carries it after.
pub proof fn lemma_expanded_signature_has_no_unknown_kind(
    env: Env,
    errors: Seq<SpecError>,
    sig: SpecFunctionSignature,
)
    requires
        env_known(env),
        signature_known(sig),
    ensures
        match expand_signature(env, errors, sig) {
            Ok(done) => signature_known(done.value),
            Err(_) => true,
        },
{
    lemma_signature_stays_known(env, errors, sig);
}

/// A kind that expansion fills in is never the unknown kind.
pub proof fn lemma_classified_kind_is_known(
    structs: Seq<SpecStructDefinition>,
    name: SpecTypeName,
    args: Seq<SpecBaseType>,
)
    ensures
        match classify(structs, name, args) {
            Some(kind) => kind.value == Kind_::Resource || kind.value == Kind_::Unrestricted,
            None => true,
        },
{
}

/// A settled single type shows its kind, so the kind of an expanded type is
/// there whenever a use of a variable asks for it.
pub proof fn lemma_settled_single_has_kind(st: SpecSingleType)
    requires
        single_settled(st),
    ensures
        single_kind(st) is Some,
{
}

/// A use of a variable is rewritten by the kind of its expanded type alone:
/// it becomes a copy if and only if that kind is unrestricted, and a move
/// otherwise. Neither is marked as written by the user.
pub proof fn lemma_use_becomes_copy_or_move(
    env: Env,
    errors: Seq<SpecError>,
    e: SpecExp,
    var: SpecName,
)
    requires
        e.exp.value == SpecUnannotatedExp_::Use(var),
    ensures
        match expand_exp(env, errors, e) {
            Ok(done) => {
                &&& done.value.ty.value is Single
                &&& single_kind(done.value.ty.value->Single_0) is Some
                &&& done.value.exp.value == rewrite_use(
                    var,
                    single_kind(done.value.ty.value->Single_0)->0.value,
                )
                &&& (done.value.exp.value == SpecUnannotatedExp_::Copy { from_user: false, var })
                    <==> single_kind(done.value.ty.value->Single_0)->0.value
                    == Kind_::Unrestricted
                &&& (done.value.exp.value == SpecUnannotatedExp_::Move { from_user: false, var })
                    <==> single_kind(done.value.ty.value->Single_0)->0.value
                    != Kind_::Unrestricted
            },
            Err(_) => true,
        },
{
    reveal(expand_exp);
    reveal(expand_annotation);
    reveal(expand_node);
    reveal(expand_rewritten_forms);
    reveal(expand_use);
}

/// A number literal that its type can hold becomes a value of that type
/// which holds the same number, and nothing is reported.
pub proof fn lemma_literal_keeps_its_number(
    errors: Seq<SpecError>,
    ty: SpecType,
    loc: Loc,
    v: u128,
)
    requires
        ty.value.builtin_name() is Some,
        ty.value.builtin_name()->0.value.numeric(),
        v <= max_value(ty.value.builtin_name()->0.value),
    ensures
        expand_literal(errors, ty, loc, v) is Ok,
        expand_literal(errors, ty, loc, v)->Ok_0.errors == errors,
        match expand_literal(errors, ty, loc, v)->Ok_0.value {
            SpecUnannotatedExp_::Value(value) => value.loc == loc && match value.value {
                SpecValue_::U8(n) => n == v && ty.value.builtin_name()->0.value
                    == BuiltinTypeName_::U8,
                SpecValue_::U64(n) => n == v && ty.value.builtin_name()->0.value
                    == BuiltinTypeName_::U64,
                SpecValue_::U128(n) => n == v && ty.value.builtin_name()->0.value
                    == BuiltinTypeName_::U128,
                _ => false,
            },
            _ => false,
        },
{
    reveal(expand_literal);
}

/// A number literal that its type cannot hold becomes an error that later
/// passes skip, and exactly one diagnostic is reported for it.
pub proof fn lemma_literal_too_large_is_reported(
    errors: Seq<SpecError>,
    ty: SpecType,
    loc: Loc,
    v: u128,
)
    requires
        ty.value.builtin_name() is Some,
        ty.value.builtin_name()->0.value.numeric(),
        v > max_value(ty.value.builtin_name()->0.value),
    ensures
        expand_literal(errors, ty, loc, v) is Ok,
        expand_literal(errors, ty, loc, v)->Ok_0.value == SpecUnannotatedExp_::UnresolvedError,
        expand_literal(errors, ty, loc, v)->Ok_0.errors.len() == errors.len() + 1,
        expand_literal(errors, ty, loc, v)->Ok_0.errors.drop_last() == errors,
{
    reveal(expand_literal);
    let after = expand_literal(errors, ty, loc, v)->Ok_0.errors;
    assert(after.drop_last() =~= errors);
}

/// An expression that leaves its place ends with the type of a diverging
/// expression, whatever type inference gave it. It keeps a type of that
/// form as it is.
pub proof fn lemma_control_exit_type_is_erased(env: Env, errors: Seq<SpecError>, e: SpecExp)
    requires
        control_exit(e.exp.value),
    ensures
        match expand_exp(env, errors, e) {
            Ok(done) => {
                &&& done.value.ty.value.is_anything()
                &&& e.ty.value.is_anything() ==> done.value.ty == e.ty
                &&& !e.ty.value.is_anything() ==> done.value.ty == SpecType_::anything(
                    done.value.ty.loc,
                )
            },
            Err(_) => true,
        },
{
    reveal(expand_exp);
    reveal(expand_annotation);
}

/// A binder that declares a local without a type becomes one that ignores
/// the value, and exactly one diagnostic is reported, which names the local.
pub proof fn lemma_unused_local_is_ignored(
    env: Env,
    errors: Seq<SpecError>,
    b: SpecBind,
    var: SpecName,
)
    requires
        b.value == SpecBind_::Var(var, None),
    ensures
        expand_bind(env, errors, b) == Ok::<Step<SpecBind>, InvariantViolation>(
            Step {
                value: SpecBind { loc: b.loc, value: SpecBind_::Ignore },
                errors: errors.push(unused_local_error(b.loc, var.value)),
            },
        ),
{
    reveal(expand_bind);
}

/// Expanding the body of a function only adds to what is reported: every
/// diagnostic that was reported before is reported after, where it was.
pub proof fn lemma_body_expansion_keeps_diagnostics(
    env: Env,
    errors: Seq<SpecError>,
    b: SpecFunctionBody_,
)
    ensures
        match expand_body(env, errors, b) {
            Ok(done) => errors.is_prefix_of(done.errors),
            Err(_) => true,
        },
{
    lemma_body_grows(env, errors, b);
}

/// Expanding a signature only adds to what is reported.
pub proof fn lemma_signature_expansion_keeps_diagnostics(
    env: Env,
    errors: Seq<SpecError>,
    sig: SpecFunctionSignature,
)
    ensures
        match expand_signature(env, errors, sig) {
            Ok(done) => errors.is_prefix_of(done.errors),
            Err(_) => true,
        },
{
    lemma_signature_grows(env, errors, sig);
}

/// Expanding an expanded expression changes nothing and reports nothing.
pub proof fn lemma_exp_expansion_is_idempotent(env: Env, errors: Seq<SpecError>, e: SpecExp)
    ensures
        match expand_exp(env, errors, e) {
            Ok(done) => expand_exp(env, done.errors, done.value) == Ok::<
                Step<SpecExp>,
                InvariantViolation,
            >(done),
            Err(_) => true,
        },
{
    lemma_exp_settles(env, errors, e);
    match expand_exp(env, errors, e) {
        Ok(done) => {
            lemma_exp_fixed(env, done.errors, done.value);
        },
        Err(_) => {},
    }
}

/// Expanding an expanded function body changes nothing and reports nothing.
pub proof fn lemma_body_expansion_is_idempotent(
    env: Env,
    errors: Seq<SpecError>,
    b: SpecFunctionBody_,
)
    ensures
        match expand_body(env, errors, b) {
            Ok(done) => expand_body(env, done.errors, done.value) == Ok::<
                Step<SpecFunctionBody_>,
                InvariantViolation,
            >(done),
            Err(_) => true,
        },
{
    lemma_body_settles(env, errors, b);
    match expand_body(env, errors, b) {
        Ok(done) => {
            lemma_body_fixed(env, done.errors, done.value);
        },
        Err(_) => {},
    }
}

/// Expanding an expanded signature changes nothing and reports nothing.
pub proof fn lemma_signature_expansion_is_idempotent(
    env: Env,
    errors: Seq<SpecError>,
    sig: SpecFunctionSignature,
)
    ensures
        match expand_signature(env, errors, sig) {
            Ok(done) => expand_signature(env, done.errors, done.value) == Ok::<
                Step<SpecFunctionSignature>,
                InvariantViolation,
            >(done),
            Err(_) => true,
        },
{
    lemma_signature_settles(env, errors, sig);
    match expand_signature(env, errors, sig) {
        Ok(done) => {
            lemma_signature_fixed(env, done.errors, done.value);
        },
        Err(_) => {},
    }
}

} // verus!
