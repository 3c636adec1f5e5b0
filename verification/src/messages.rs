//! The wording of the diagnostics that expansion reports.
use crate::context::{error_model, Error, SpecError};
use crate::types::{BuiltinTypeName_, Loc};
use vstd::prelude::*;

verus! {

/// How a builtin type is written in source text.
pub open spec fn builtin_text(bt: BuiltinTypeName_) -> Seq<char> {
    match bt {
        BuiltinTypeName_::Address => "address"@,
        BuiltinTypeName_::U8 => "u8"@,
        BuiltinTypeName_::U64 => "u64"@,
        BuiltinTypeName_::U128 => "u128"@,
        BuiltinTypeName_::Bool => "bool"@,
        BuiltinTypeName_::Bytearray => "bytearray"@,
    }
}

/// How a builtin type is written in source text.
pub fn builtin_str(bt: BuiltinTypeName_) -> (r: &'static str)
    ensures
        r@ == builtin_text(bt),
{
    match bt {
        BuiltinTypeName_::Address => "address",
        BuiltinTypeName_::U8 => "u8",
        BuiltinTypeName_::U64 => "u64",
        BuiltinTypeName_::U128 => "u128",
        BuiltinTypeName_::Bool => "bool",
        BuiltinTypeName_::Bytearray => "bytearray",
    }
}

/// The decimal digit that stands for a number below ten.
pub open spec fn digit_text(d: nat) -> Seq<char> {
    if d == 0 {
        "0"@
    } else if d == 1 {
        "1"@
    } else if d == 2 {
        "2"@
    } else if d == 3 {
        "3"@
    } else if d == 4 {
        "4"@
    } else if d == 5 {
        "5"@
    } else if d == 6 {
        "6"@
    } else if d == 7 {
        "7"@
    } else if d == 8 {
        "8"@
    } else {
        "9"@
    }
}

/// A number written in decimal, without leading zeros.
pub open spec fn decimal_text(n: nat) -> Seq<char>
    decreases n,
{
    if n < 10 {
        digit_text(n)
    } else {
        decimal_text(n / 10) + digit_text(n % 10)
    }
}

/// The decimal digit that stands for a number below ten.
fn digit_str(d: u128) -> (r: &'static str)
    requires
        d < 10,
    ensures
        r@ == digit_text(d as nat),
{
    if d == 0 {
        "0"
    } else if d == 1 {
        "1"
    } else if d == 2 {
        "2"
    } else if d == 3 {
        "3"
    } else if d == 4 {
        "4"
    } else if d == 5 {
        "5"
    } else if d == 6 {
        "6"
    } else if d == 7 {
        "7"
    } else if d == 8 {
        "8"
    } else {
        "9"
    }
}

/// Writes a number in decimal.
pub fn decimal_string(v: u128) -> (r: String)
    ensures
        r@ == decimal_text(v as nat),
    decreases v,
{
    if v < 10 {
        String::from_str(digit_str(v))
    } else {
        let mut s = decimal_string(v / 10);
        s.append(digit_str(v % 10));
        s
    }
}

/// Told where a unification variable was left without a type.
pub open spec fn uninferred_type_error(loc: Loc) -> SpecError {
    seq![(loc, "Could not infer this type. Try adding an annotation"@)]
}

/// The diagnostic for a unification variable that was left without a type.
pub fn uninferred_type(loc: Loc) -> (r: Error)
    ensures
        error_model(r) == uninferred_type_error(loc),
{
    let mut e: Error = Vec::new();
    e.push((loc, String::from_str("Could not infer this type. Try adding an annotation")));
    assert(error_model(e) =~= uninferred_type_error(loc));
    e
}

/// Told where a local is declared with no type and never used.
pub open spec fn unused_local_error(loc: Loc, name: Seq<char>) -> SpecError {
    seq![
        (
            loc,
            "Unused local '"@ + name
                + "'. Consider removing or prefixing with an underscore: '_"@ + name + "'"@,
        ),
    ]
}

/// The diagnostic for a local that is declared with no type and never used.
pub fn unused_local(loc: Loc, name: &String) -> (r: Error)
    ensures
        error_model(r) == unused_local_error(loc, name@),
{
    let mut msg = String::from_str("Unused local '");
    msg.append(name.as_str());
    msg.append("'. Consider removing or prefixing with an underscore: '_");
    msg.append(name.as_str());
    msg.append("'");
    let mut e: Error = Vec::new();
    e.push((loc, msg));
    assert(error_model(e) =~= unused_local_error(loc, name@));
    e
}

/// Told where a number literal does not fit the type that inference gave it:
/// at the literal, at the type, and at the literal once more with the type
/// `fix` that would hold the value.
pub open spec fn literal_too_large_error(
    exp_loc: Loc,
    ty_loc: Loc,
    value: u128,
    bt: BuiltinTypeName_,
    fix: BuiltinTypeName_,
) -> SpecError {
    seq![
        (exp_loc, "Invalid numerical literal"@),
        (
            ty_loc,
            "Expected a literal of type '"@ + builtin_text(bt)
                + "', but the value is too large."@,
        ),
        (
            exp_loc,
            "Annotating the literal might help inference: '"@ + decimal_text(value as nat)
                + builtin_text(fix) + "'"@,
        ),
    ]
}

/// The diagnostic for a number literal that does not fit its type.
pub fn literal_too_large(
    exp_loc: Loc,
    ty_loc: Loc,
    value: u128,
    bt: BuiltinTypeName_,
    fix: BuiltinTypeName_,
) -> (r: Error)
    ensures
        error_model(r) == literal_too_large_error(exp_loc, ty_loc, value, bt, fix),
{
    let mut msg = String::from_str("Expected a literal of type '");
    msg.append(builtin_str(bt));
    msg.append("', but the value is too large.");
    let mut hint = String::from_str("Annotating the literal might help inference: '");
    let digits = decimal_string(value);
    hint.append(digits.as_str());
    hint.append(builtin_str(fix));
    hint.append("'");
    let mut e: Error = Vec::new();
    e.push((exp_loc, String::from_str("Invalid numerical literal")));
    e.push((ty_loc, msg));
    e.push((exp_loc, hint));
    assert(error_model(e) =~= literal_too_large_error(exp_loc, ty_loc, value, bt, fix));
    e
}

} // verus!
