//! The use rewriter: it decides whether a variable is read by copy or by move.
use crate::context::InvariantViolation;
use crate::semantics::expand_use;
use crate::syntax::UnannotatedExp_;
use crate::type_expander::get_kind;
use crate::types::{Kind_, Type, Type_, Var};
use vstd::prelude::*;

verus! {

/// Decides how a variable is read at the expanded type `ty`: by copy where
/// the kind of the type is unrestricted, by move everywhere else.
pub fn use_exp(ty: &Type, var: &Var) -> (r: Result<UnannotatedExp_, InvariantViolation>)
    ensures
        match expand_use(ty@, var@) {
            Ok(value) => r is Ok && r->Ok_0@ == value,
            Err(e) => r == Err::<UnannotatedExp_, InvariantViolation>(e),
        },
{
    proof {
        reveal(expand_use);
        reveal(UnannotatedExp_::model);
    }
    let st = match &ty.value {
        Type_::Single(st) => st,
        _ => {
            return Err(InvariantViolation::VariableNotSingle);
        },
    };
    let from_user = false;
    match get_kind(st) {
        Err(e) => Err(e),
        Ok(kind) => match kind.value {
            Kind_::Unrestricted => Ok(UnannotatedExp_::Copy { from_user, var: var.duplicate() }),
            _ => Ok(UnannotatedExp_::Move { from_user, var: var.duplicate() }),
        },
    }
}

} // verus!
