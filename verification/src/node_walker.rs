//! The walk over the forms of expression: what each form is made of is
//! expanded in place, part by part.
use crate::context::{Context, Env, InvariantViolation, SpecError};
use crate::expression_walker::{builtin_function, exp, module_call, pack_fields};
use crate::literal_resolver::inferred_num;
use crate::pattern_expander::assign_list;
use crate::semantics::{
    achieves, expand_aggregate_forms, expand_block_forms, expand_branch_forms, expand_call_forms,
    expand_node, expand_operand_forms, expand_rewritten_forms, expand_typed_forms, Step,
};
use crate::sequence_walker::{exp_list, sequence};
use crate::syntax::{SpecUnannotatedExp_, UnannotatedExp, UnannotatedExp_};
use crate::type_expander::{base_types, expected_types, type_};
use crate::types::{SpecType, Type};
use crate::use_rewriter::use_exp;
use vstd::prelude::*;

verus! {

/// A form that has no type and no expression inside comes out as it went in.
proof fn lemma_plain_forms(env: Env, errors: Seq<SpecError>, ty: SpecType, node: UnannotatedExp)
    requires
        node.value is Unit || node.value is Value || node.value is Move ||
            node.value is Copy || node.value is BorrowLocal || node.value is Break ||
            node.value is Continue || node.value is UnresolvedError,
    ensures
        expand_node(env, errors, ty, node@) == Ok::<Step<SpecUnannotatedExp_>, InvariantViolation>(
            Step { value: node@.value, errors },
        ),
{
    reveal(UnannotatedExp_::model);
    reveal(expand_node);
}

/// Rewrites in place a use of a variable or a number literal, under its
/// expanded type.
fn rewritten_forms(context: &mut Context, ty: &Type, node: &mut UnannotatedExp) -> (r: Result<
    (),
    InvariantViolation,
>)
    requires
        old(node).value is Use || old(node).value is InferredNum,
    ensures
        final(context).env() == old(context).env(),
        final(node).loc == old(node).loc,
        achieves(
            expand_node(old(context).env(), old(context).reported(), ty@, old(node)@),
            r,
            final(node)@.value,
            final(context).reported(),
        ),
{
    proof {
        reveal(UnannotatedExp_::model);
        reveal(expand_node);
        reveal(expand_rewritten_forms);
    }
    let rewritten = match &node.value {
        UnannotatedExp_::Use(v) => use_exp(ty, v),
        UnannotatedExp_::InferredNum(v) => inferred_num(context, ty, node.loc, *v),
        _ => {
            return Ok(());
        },
    };
    match rewritten {
        Ok(value) => {
            node.value = value;
            Ok(())
        },
        Err(e) => Err(e),
    }
}

/// Expands in place the expression inside a form that holds one.
fn operand_forms(context: &mut Context, ty: &Type, node: &mut UnannotatedExp) -> (r: Result<
    (),
    InvariantViolation,
>)
    requires
        old(node).value is Return || old(node).value is Abort ||
            old(node).value is Dereference || old(node).value is UnaryExp ||
            old(node).value is Borrow || old(node).value is TempBorrow ||
            old(node).value is Loop,
    ensures
        final(context).env() == old(context).env(),
        final(node).loc == old(node).loc,
        achieves(
            expand_node(old(context).env(), old(context).reported(), ty@, old(node)@),
            r,
            final(node)@.value,
            final(context).reported(),
        ),
    decreases *old(node), 0nat,
{
    proof {
        reveal(UnannotatedExp_::model);
        reveal(expand_node);
        reveal(expand_operand_forms);
    }
    match &mut node.value {
        UnannotatedExp_::Return(er) => {
            match exp(context, &mut **er) {
                Ok(_) => {},
                Err(e) => {
                    return Err(e);
                },
            }
        },
        UnannotatedExp_::Abort(er) => {
            match exp(context, &mut **er) {
                Ok(_) => {},
                Err(e) => {
                    return Err(e);
                },
            }
        },
        UnannotatedExp_::Dereference(er) => {
            match exp(context, &mut **er) {
                Ok(_) => {},
                Err(e) => {
                    return Err(e);
                },
            }
        },
        UnannotatedExp_::UnaryExp(_, er) => {
            match exp(context, &mut **er) {
                Ok(_) => {},
                Err(e) => {
                    return Err(e);
                },
            }
        },
        UnannotatedExp_::Borrow(_, er, _) => {
            match exp(context, &mut **er) {
                Ok(_) => {},
                Err(e) => {
                    return Err(e);
                },
            }
        },
        UnannotatedExp_::TempBorrow(_, er) => {
            match exp(context, &mut **er) {
                Ok(_) => {},
                Err(e) => {
                    return Err(e);
                },
            }
        },
        UnannotatedExp_::Loop { has_break: _, body } => {
            match exp(context, &mut **body) {
                Ok(_) => {},
                Err(e) => {
                    return Err(e);
                },
            }
        },
        _ => {},
    }
    Ok(())
}

/// Expands in place the expressions inside a form that holds several, left to right.
fn branch_forms(context: &mut Context, ty: &Type, node: &mut UnannotatedExp) -> (r: Result<
    (),
    InvariantViolation,
>)
    requires
        old(node).value is IfElse || old(node).value is While || old(node).value is Mutate,
    ensures
        final(context).env() == old(context).env(),
        final(node).loc == old(node).loc,
        achieves(
            expand_node(old(context).env(), old(context).reported(), ty@, old(node)@),
            r,
            final(node)@.value,
            final(context).reported(),
        ),
    decreases *old(node), 0nat,
{
    proof {
        reveal(UnannotatedExp_::model);
        reveal(expand_node);
        reveal(expand_branch_forms);
    }
    match &mut node.value {
        UnannotatedExp_::IfElse(eb, et, ef) => {
            match exp(context, &mut **eb) {
                Ok(_) => {},
                Err(e) => {
                    return Err(e);
                },
            }
            match exp(context, &mut **et) {
                Ok(_) => {},
                Err(e) => {
                    return Err(e);
                },
            }
            match exp(context, &mut **ef) {
                Ok(_) => {},
                Err(e) => {
                    return Err(e);
                },
            }
        },
        UnannotatedExp_::While(eb, eloop) => {
            match exp(context, &mut **eb) {
                Ok(_) => {},
                Err(e) => {
                    return Err(e);
                },
            }
            match exp(context, &mut **eloop) {
                Ok(_) => {},
                Err(e) => {
                    return Err(e);
                },
            }
        },
        UnannotatedExp_::Mutate(el, er) => {
            match exp(context, &mut **el) {
                Ok(_) => {},
                Err(e) => {
                    return Err(e);
                },
            }
            match exp(context, &mut **er) {
                Ok(_) => {},
                Err(e) => {
                    return Err(e);
                },
            }
        },
        _ => {},
    }
    Ok(())
}

/// Expands in place a form that carries a type of its own: its expressions, then the type.
fn typed_forms(context: &mut Context, ty: &Type, node: &mut UnannotatedExp) -> (r: Result<
    (),
    InvariantViolation,
>)
    requires
        old(node).value is BinopExp || old(node).value is Cast || old(node).value is Annotate,
    ensures
        final(context).env() == old(context).env(),
        final(node).loc == old(node).loc,
        achieves(
            expand_node(old(context).env(), old(context).reported(), ty@, old(node)@),
            r,
            final(node)@.value,
            final(context).reported(),
        ),
    decreases *old(node), 0nat,
{
    proof {
        reveal(UnannotatedExp_::model);
        reveal(expand_node);
        reveal(expand_typed_forms);
    }
    match &mut node.value {
        UnannotatedExp_::BinopExp(el, _, operand_ty, er) => {
            match exp(context, &mut **el) {
                Ok(_) => {},
                Err(e) => {
                    return Err(e);
                },
            }
            match exp(context, &mut **er) {
                Ok(_) => {},
                Err(e) => {
                    return Err(e);
                },
            }
            match type_(context, &mut **operand_ty) {
                Ok(_) => {},
                Err(e) => {
                    return Err(e);
                },
            }
        },
        UnannotatedExp_::Cast(el, rhs_ty) => {
            match exp(context, &mut **el) {
                Ok(_) => {},
                Err(e) => {
                    return Err(e);
                },
            }
            match type_(context, &mut **rhs_ty) {
                Ok(_) => {},
                Err(e) => {
                    return Err(e);
                },
            }
        },
        UnannotatedExp_::Annotate(el, rhs_ty) => {
            match exp(context, &mut **el) {
                Ok(_) => {},
                Err(e) => {
                    return Err(e);
                },
            }
            match type_(context, &mut **rhs_ty) {
                Ok(_) => {},
                Err(e) => {
                    return Err(e);
                },
            }
        },
        _ => {},
    }
    Ok(())
}

/// Expands a call in place.
fn call_forms(context: &mut Context, ty: &Type, node: &mut UnannotatedExp) -> (r: Result<
    (),
    InvariantViolation,
>)
    requires
        old(node).value is ModuleCall || old(node).value is Builtin,
    ensures
        final(context).env() == old(context).env(),
        final(node).loc == old(node).loc,
        achieves(
            expand_node(old(context).env(), old(context).reported(), ty@, old(node)@),
            r,
            final(node)@.value,
            final(context).reported(),
        ),
    decreases *old(node), 0nat,
{
    proof {
        reveal(UnannotatedExp_::model);
        reveal(expand_node);
        reveal(expand_call_forms);
    }
    match &mut node.value {
        UnannotatedExp_::ModuleCall(call) => {
            match module_call(context, &mut **call) {
                Ok(_) => {},
                Err(e) => {
                    return Err(e);
                },
            }
        },
        UnannotatedExp_::Builtin(b, args) => {
            match builtin_function(context, &mut **b) {
                Ok(_) => {},
                Err(e) => {
                    return Err(e);
                },
            }
            match exp(context, &mut **args) {
                Ok(_) => {},
                Err(e) => {
                    return Err(e);
                },
            }
        },
        _ => {},
    }
    Ok(())
}

/// Expands a block or an assignment in place.
fn block_forms(context: &mut Context, ty: &Type, node: &mut UnannotatedExp) -> (r: Result<
    (),
    InvariantViolation,
>)
    requires
        old(node).value is Block || old(node).value is Assign,
    ensures
        final(context).env() == old(context).env(),
        final(node).loc == old(node).loc,
        achieves(
            expand_node(old(context).env(), old(context).reported(), ty@, old(node)@),
            r,
            final(node)@.value,
            final(context).reported(),
        ),
    decreases *old(node), 0nat,
{
    proof {
        reveal(UnannotatedExp_::model);
        reveal(expand_node);
        reveal(expand_block_forms);
    }
    match &mut node.value {
        UnannotatedExp_::Block(items) => {
            match sequence(context, items) {
                Ok(_) => {},
                Err(e) => {
                    return Err(e);
                },
            }
        },
        UnannotatedExp_::Assign(assigns, tys, er) => {
            match assign_list(context, assigns) {
                Ok(_) => {},
                Err(e) => {
                    return Err(e);
                },
            }
            match expected_types(context, tys) {
                Ok(_) => {},
                Err(e) => {
                    return Err(e);
                },
            }
            match exp(context, &mut **er) {
                Ok(_) => {},
                Err(e) => {
                    return Err(e);
                },
            }
        },
        _ => {},
    }
    Ok(())
}

/// Expands in place a struct that is built, or a tuple.
fn aggregate_forms(context: &mut Context, ty: &Type, node: &mut UnannotatedExp) -> (r: Result<
    (),
    InvariantViolation,
>)
    requires
        old(node).value is Pack || old(node).value is ExpList,
    ensures
        final(context).env() == old(context).env(),
        final(node).loc == old(node).loc,
        achieves(
            expand_node(old(context).env(), old(context).reported(), ty@, old(node)@),
            r,
            final(node)@.value,
            final(context).reported(),
        ),
    decreases *old(node), 0nat,
{
    proof {
        reveal(UnannotatedExp_::model);
        reveal(expand_node);
        reveal(expand_aggregate_forms);
    }
    match &mut node.value {
        UnannotatedExp_::Pack(_, _, bs, fields) => {
            match base_types(context, bs) {
                Ok(_) => {},
                Err(e) => {
                    return Err(e);
                },
            }
            match pack_fields(context, fields) {
                Ok(_) => {},
                Err(e) => {
                    return Err(e);
                },
            }
        },
        UnannotatedExp_::ExpList(items) => {
            match exp_list(context, items) {
                Ok(_) => {},
                Err(e) => {
                    return Err(e);
                },
            }
        },
        _ => {},
    }
    Ok(())
}

/// Expands in place what an expression is made of, under its expanded type.
pub fn exp_node(context: &mut Context, ty: &Type, node: &mut UnannotatedExp) -> (r: Result<
    (),
    InvariantViolation,
>)
    ensures
        final(context).env() == old(context).env(),
        final(node).loc == old(node).loc,
        achieves(
            expand_node(old(context).env(), old(context).reported(), ty@, old(node)@),
            r,
            final(node)@.value,
            final(context).reported(),
        ),
    decreases *old(node), 1nat,
{
    match node.value {
        UnannotatedExp_::Use(..) | UnannotatedExp_::InferredNum(..) => rewritten_forms(
            context,
            ty,
            node,
        ),
        UnannotatedExp_::Return(..)
        | UnannotatedExp_::Abort(..)
        | UnannotatedExp_::Dereference(..)
        | UnannotatedExp_::UnaryExp(..)
        | UnannotatedExp_::Borrow(..)
        | UnannotatedExp_::TempBorrow(..)
        | UnannotatedExp_::Loop { .. } => operand_forms(context, ty, node),
        UnannotatedExp_::IfElse(..)
        | UnannotatedExp_::While(..)
        | UnannotatedExp_::Mutate(..) => branch_forms(context, ty, node),
        UnannotatedExp_::BinopExp(..)
        | UnannotatedExp_::Cast(..)
        | UnannotatedExp_::Annotate(..) => typed_forms(context, ty, node),
        UnannotatedExp_::ModuleCall(..)
        | UnannotatedExp_::Builtin(..) => call_forms(context, ty, node),
        UnannotatedExp_::Block(..)
        | UnannotatedExp_::Assign(..) => block_forms(context, ty, node),
        UnannotatedExp_::Pack(..)
        | UnannotatedExp_::ExpList(..) => aggregate_forms(context, ty, node),
        _ => {
            proof {
                lemma_plain_forms(context.env(), context.reported(), ty@, *node);
            }
            Ok(())
        },
    }
}

} // verus!
