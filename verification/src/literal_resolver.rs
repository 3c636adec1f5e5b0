//! The literal resolver: it gives number literals the width of their type.
use crate::context::{Context, InvariantViolation};
use crate::messages::literal_too_large;
use crate::semantics::expand_literal;
use crate::syntax::{UnannotatedExp_, Value, Value_};
use crate::types::{BuiltinTypeName_, Loc, Type};
use vstd::prelude::*;

verus! {

/// Gives the number literal `v`, written at `loc`, the width of its expanded
/// type `ty`. A number that the type cannot hold is reported.
pub fn inferred_num(context: &mut Context, ty: &Type, loc: Loc, v: u128) -> (r: Result<
    UnannotatedExp_,
    InvariantViolation,
>)
    ensures
        final(context).env() == old(context).env(),
        match expand_literal(old(context).reported(), ty@, loc, v) {
            Ok(done) => r is Ok && r->Ok_0@ == done.value && final(context).reported()
                == done.errors,
            Err(e) => r == Err::<UnannotatedExp_, InvariantViolation>(e),
        },
{
    proof {
        reveal(expand_literal);
        reveal(UnannotatedExp_::model);
    }
    let bt = match ty.value.builtin_name() {
        Some(b) => {
            if !b.value.is_numeric() {
                return Err(InvariantViolation::LiteralNotNumeric);
            }
            b.value
        },
        None => {
            return Err(InvariantViolation::LiteralNotNumeric);
        },
    };
    let u8_max: u128 = 0xff;
    let u64_max: u128 = 0xffff_ffff_ffff_ffff;
    let u128_max: u128 = 0xffff_ffff_ffff_ffff_ffff_ffff_ffff_ffff;
    let max: u128 = match bt {
        BuiltinTypeName_::U8 => u8_max,
        BuiltinTypeName_::U64 => u64_max,
        _ => u128_max,
    };
    if v > max {
        let fix = if v > u64_max {
            BuiltinTypeName_::U128
        } else {
            BuiltinTypeName_::U64
        };
        context.error(literal_too_large(loc, ty.loc, v, bt, fix));
        Ok(UnannotatedExp_::UnresolvedError)
    } else {
        let value = match bt {
            BuiltinTypeName_::U8 => Value_::U8(v as u8),
            BuiltinTypeName_::U64 => Value_::U64(v as u64),
            _ => Value_::U128(v),
        };
        Ok(UnannotatedExp_::Value(Value { loc, value }))
    }
}

} // verus!
