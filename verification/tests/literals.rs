use type_expansion::context::{Context, InvariantViolation, Subst};
use type_expansion::expand::exp;
use type_expansion::messages::{builtin_str, decimal_string};
use type_expansion::syntax::{Exp, UnannotatedExp, UnannotatedExp_, Value, Value_};
use type_expansion::types::{
    BaseType, BaseType_, BuiltinTypeName, BuiltinTypeName_, Kind, Kind_, Loc, SingleType,
    SingleType_, TVar, Type, TypeName, TypeName_, Type_,
};

fn loc(n: u32) -> Loc {
    Loc { file: 0, start: n, end: n + 1 }
}

fn builtin(n: u32, bt: BuiltinTypeName_) -> Type {
    let name = TypeName {
        loc: loc(n),
        value: TypeName_::Builtin(BuiltinTypeName { loc: loc(n), value: bt }),
    };
    let kind = Kind { loc: loc(n), value: Kind_::Unrestricted };
    let base = BaseType { loc: loc(n), value: BaseType_::Apply(Some(kind), name, vec![]) };
    let single = SingleType { loc: loc(n), value: SingleType_::Base(base) };
    Type { loc: loc(n), value: Type_::Single(single) }
}

fn literal(v: u128, bt: BuiltinTypeName_) -> Exp {
    Exp {
        ty: builtin(7, bt),
        exp: UnannotatedExp { loc: loc(3), value: UnannotatedExp_::InferredNum(v) },
    }
}

#[test]
fn literal_255_fits_u8() {
    let mut context = Context::new(Subst::new(), vec![]);
    let mut e = literal(255, BuiltinTypeName_::U8);
    assert_eq!(exp(&mut context, &mut e), Ok(()));
    assert_eq!(e.exp.value, UnannotatedExp_::Value(Value { loc: loc(3), value: Value_::U8(255) }));
    assert!(context.errors.is_empty());
}

#[test]
fn literal_256_overflows_u8_and_suggests_u64() {
    let mut context = Context::new(Subst::new(), vec![]);
    let mut e = literal(256, BuiltinTypeName_::U8);
    assert_eq!(exp(&mut context, &mut e), Ok(()));
    assert_eq!(e.exp.value, UnannotatedExp_::UnresolvedError);
    assert_eq!(
        context.errors,
        vec![vec![
            (loc(3), "Invalid numerical literal".to_string()),
            (loc(7), "Expected a literal of type 'u8', but the value is too large.".to_string()),
            (loc(3), "Annotating the literal might help inference: '256u64'".to_string()),
        ]]
    );
}

#[test]
fn literal_max_u128_fits_u128() {
    let mut context = Context::new(Subst::new(), vec![]);
    let mut e = literal(u128::MAX, BuiltinTypeName_::U128);
    assert_eq!(exp(&mut context, &mut e), Ok(()));
    assert_eq!(
        e.exp.value,
        UnannotatedExp_::Value(Value { loc: loc(3), value: Value_::U128(u128::MAX) })
    );
    assert!(context.errors.is_empty());
}

#[test]
fn literal_max_u64_fits_u64() {
    let mut context = Context::new(Subst::new(), vec![]);
    let mut e = literal(u64::MAX as u128, BuiltinTypeName_::U64);
    assert_eq!(exp(&mut context, &mut e), Ok(()));
    assert_eq!(
        e.exp.value,
        UnannotatedExp_::Value(Value { loc: loc(3), value: Value_::U64(u64::MAX) })
    );
    assert!(context.errors.is_empty());
}

#[test]
fn literal_zero_fits_every_width() {
    for (bt, value) in [
        (BuiltinTypeName_::U8, Value_::U8(0)),
        (BuiltinTypeName_::U64, Value_::U64(0)),
        (BuiltinTypeName_::U128, Value_::U128(0)),
    ] {
        let mut context = Context::new(Subst::new(), vec![]);
        let mut e = literal(0, bt);
        assert_eq!(exp(&mut context, &mut e), Ok(()));
        assert_eq!(e.exp.value, UnannotatedExp_::Value(Value { loc: loc(3), value }));
    }
}

#[test]
fn literal_beyond_u64_overflows_u64_and_suggests_u128() {
    let mut context = Context::new(Subst::new(), vec![]);
    let mut e = literal(18446744073709551616, BuiltinTypeName_::U64);
    assert_eq!(exp(&mut context, &mut e), Ok(()));
    assert_eq!(e.exp.value, UnannotatedExp_::UnresolvedError);
    assert_eq!(
        context.errors,
        vec![vec![
            (loc(3), "Invalid numerical literal".to_string()),
            (loc(7), "Expected a literal of type 'u64', but the value is too large.".to_string()),
            (
                loc(3),
                "Annotating the literal might help inference: '18446744073709551616u128'"
                    .to_string()
            ),
        ]]
    );
}

#[test]
fn literal_beyond_u64_overflows_u8_and_suggests_u128() {
    let mut context = Context::new(Subst::new(), vec![]);
    let mut e = literal(u128::MAX, BuiltinTypeName_::U8);
    assert_eq!(exp(&mut context, &mut e), Ok(()));
    assert_eq!(e.exp.value, UnannotatedExp_::UnresolvedError);
    assert_eq!(context.errors.len(), 1);
    assert_eq!(
        context.errors[0][2].1,
        "Annotating the literal might help inference: \
         '340282366920938463463374607431768211455u128'"
    );
}

#[test]
fn literal_max_u64_overflows_u8_and_suggests_u64() {
    let mut context = Context::new(Subst::new(), vec![]);
    let mut e = literal(u64::MAX as u128, BuiltinTypeName_::U8);
    assert_eq!(exp(&mut context, &mut e), Ok(()));
    assert_eq!(
        context.errors[0][2].1,
        "Annotating the literal might help inference: '18446744073709551615u64'"
    );
}

#[test]
fn literal_at_a_type_that_is_no_number_breaks_a_promise() {
    for bt in [BuiltinTypeName_::Bool, BuiltinTypeName_::Address, BuiltinTypeName_::Bytearray] {
        let mut context = Context::new(Subst::new(), vec![]);
        let mut e = literal(1, bt);
        assert_eq!(exp(&mut context, &mut e), Err(InvariantViolation::LiteralNotNumeric));
    }
}

#[test]
fn literal_at_the_unit_type_breaks_a_promise() {
    let mut context = Context::new(Subst::new(), vec![]);
    let mut e = Exp {
        ty: Type { loc: loc(7), value: Type_::Unit },
        exp: UnannotatedExp { loc: loc(3), value: UnannotatedExp_::InferredNum(1) },
    };
    assert_eq!(exp(&mut context, &mut e), Err(InvariantViolation::LiteralNotNumeric));
}

#[test]
fn literal_takes_the_width_that_inference_solved() {
    let mut subst = Subst::new();
    let name = TypeName {
        loc: loc(20),
        value: TypeName_::Builtin(BuiltinTypeName { loc: loc(21), value: BuiltinTypeName_::U8 }),
    };
    subst.insert(TVar(5), BaseType { loc: loc(22), value: BaseType_::Apply(None, name, vec![]) });
    let mut context = Context::new(subst, vec![]);
    let var = BaseType { loc: loc(8), value: BaseType_::Var(TVar(5)) };
    let single = SingleType { loc: loc(9), value: SingleType_::Base(var) };
    let mut e = Exp {
        ty: Type { loc: loc(10), value: Type_::Single(single) },
        exp: UnannotatedExp { loc: loc(3), value: UnannotatedExp_::InferredNum(300) },
    };
    assert_eq!(exp(&mut context, &mut e), Ok(()));
    assert_eq!(e.exp.value, UnannotatedExp_::UnresolvedError);
    assert_eq!(e.ty.loc, loc(22));
    assert_eq!(
        context.errors,
        vec![vec![
            (loc(3), "Invalid numerical literal".to_string()),
            (loc(22), "Expected a literal of type 'u8', but the value is too large.".to_string()),
            (loc(3), "Annotating the literal might help inference: '300u64'".to_string()),
        ]]
    );
}

#[test]
fn numbers_are_written_in_decimal() {
    assert_eq!(decimal_string(0), "0");
    assert_eq!(decimal_string(7), "7");
    assert_eq!(decimal_string(10), "10");
    assert_eq!(decimal_string(1234567890), "1234567890");
    assert_eq!(decimal_string(u128::MAX), "340282366920938463463374607431768211455");
}

#[test]
fn builtin_types_are_written_as_in_source() {
    assert_eq!(builtin_str(BuiltinTypeName_::Address), "address");
    assert_eq!(builtin_str(BuiltinTypeName_::U8), "u8");
    assert_eq!(builtin_str(BuiltinTypeName_::U64), "u64");
    assert_eq!(builtin_str(BuiltinTypeName_::U128), "u128");
    assert_eq!(builtin_str(BuiltinTypeName_::Bool), "bool");
    assert_eq!(builtin_str(BuiltinTypeName_::Bytearray), "bytearray");
}
