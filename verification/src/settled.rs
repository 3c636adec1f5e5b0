//! What it means for a part of a function to be settled: nothing is left in
//! it for expansion to do. No unification variable stands in a type, every
//! applied type carries its kind, no variable is merely used and no number
//! literal is without a width, an expression that leaves its place has the
//! type of a diverging expression, and every local that a binder declares
//! has a type.
use crate::semantics::control_exit;
use crate::syntax::{
    SpecAssign, SpecAssignField, SpecAssign_, SpecBind, SpecBindField, SpecBind_,
    SpecBuiltinFunction, SpecBuiltinFunction_, SpecExp, SpecExpListItem, SpecFunctionBody_,
    SpecModuleCall, SpecPackField, SpecSequenceItem, SpecSequenceItem_, SpecUnannotatedExp,
    SpecUnannotatedExp_,
};
use crate::types::{
    SpecBaseType, SpecBaseType_, SpecFunctionSignature, SpecParameter, SpecSingleType,
    SpecSingleType_, SpecType, SpecType_,
};
use vstd::prelude::*;

verus! {

/// No variable is left in the base type, and every applied type in it carries a kind.
pub open spec fn base_settled(bt: SpecBaseType) -> bool
    decreases bt,
{
    match bt.value {
        SpecBaseType_::Var(_) => false,
        SpecBaseType_::Apply(k, _, args) => k is Some && bases_settled(args),
        _ => true,
    }
}

/// Each of the base types is settled.
pub open spec fn bases_settled(bts: Seq<SpecBaseType>) -> bool
    decreases bts,
{
    forall|i: int| 0 <= i < bts.len() ==> base_settled(#[trigger] bts[i])
}

/// The base type of the single type is settled.
pub open spec fn single_settled(st: SpecSingleType) -> bool {
    match st.value {
        SpecSingleType_::Base(b) => base_settled(b),
        SpecSingleType_::Ref(_, b) => base_settled(b),
    }
}

/// Each of the single types is settled.
pub open spec fn singles_settled(ss: Seq<SpecSingleType>) -> bool {
    forall|i: int| 0 <= i < ss.len() ==> #[trigger] single_settled(ss[i])
}

/// The expected type is settled, if there is one.
pub open spec fn expected_settled(st: Option<SpecSingleType>) -> bool {
    match st {
        Some(s) => single_settled(s),
        None => true,
    }
}

/// Each of the expected types is settled.
pub open spec fn expecteds_settled(ss: Seq<Option<SpecSingleType>>) -> bool {
    forall|i: int| 0 <= i < ss.len() ==> #[trigger] expected_settled(ss[i])
}

/// Every single type in the type is settled.
pub open spec fn type_settled(ty: SpecType) -> bool {
    match ty.value {
        SpecType_::Unit => true,
        SpecType_::Single(s) => single_settled(s),
        SpecType_::Multiple(ss) => singles_settled(ss),
    }
}

/// The type of each parameter is settled.
pub open spec fn parameters_settled(ps: Seq<SpecParameter>) -> bool {
    forall|i: int| 0 <= i < ps.len() ==> single_settled((#[trigger] ps[i]).ty)
}

/// The types of the parameters and the return type are settled.
pub open spec fn signature_settled(sig: SpecFunctionSignature) -> bool {
    parameters_settled(sig.parameters) && type_settled(sig.return_type)
}

/// The types in the binder are settled, and each local in it has a type.
pub open spec fn bind_settled(b: SpecBind) -> bool
    decreases b,
{
    match b.value {
        SpecBind_::Ignore => true,
        SpecBind_::Var(_, st) => st is Some && expected_settled(st),
        SpecBind_::Unpack(_, _, bts, fields) => bases_settled(bts) && bind_fields_settled(fields),
        SpecBind_::BorrowUnpack(_, _, _, bts, fields) => bases_settled(bts)
            && bind_fields_settled(fields),
    }
}

/// The declared type of the field and its binder are settled.
pub open spec fn bind_field_settled(f: SpecBindField) -> bool
    decreases f,
{
    base_settled(f.ty) && bind_settled(f.bind)
}

/// Each field of the destructuring binder is settled.
pub open spec fn bind_fields_settled(fs: Seq<SpecBindField>) -> bool
    decreases fs,
{
    forall|i: int| 0 <= i < fs.len() ==> bind_field_settled(#[trigger] fs[i])
}

/// Each of the binders is settled.
pub open spec fn binds_settled(bs: Seq<SpecBind>) -> bool {
    forall|i: int| 0 <= i < bs.len() ==> #[trigger] bind_settled(bs[i])
}

/// The types in the assignment pattern are settled.
pub open spec fn assign_settled(a: SpecAssign) -> bool
    decreases a,
{
    match a.value {
        SpecAssign_::Ignore => true,
        SpecAssign_::Var(_, st) => single_settled(st),
        SpecAssign_::Unpack(_, _, bts, fields) => bases_settled(bts) && assign_fields_settled(
            fields,
        ),
        SpecAssign_::BorrowUnpack(_, _, _, bts, fields) => bases_settled(bts)
            && assign_fields_settled(fields),
    }
}

/// The declared type of the field and its pattern are settled.
pub open spec fn assign_field_settled(f: SpecAssignField) -> bool
    decreases f,
{
    base_settled(f.ty) && assign_settled(f.assign)
}

/// Each field of the destructuring assignment is settled.
pub open spec fn assign_fields_settled(fs: Seq<SpecAssignField>) -> bool
    decreases fs,
{
    forall|i: int| 0 <= i < fs.len() ==> assign_field_settled(#[trigger] fs[i])
}

/// Each of the assignment patterns is settled.
pub open spec fn assigns_settled(xs: Seq<SpecAssign>) -> bool {
    forall|i: int| 0 <= i < xs.len() ==> #[trigger] assign_settled(xs[i])
}

/// The type of the builtin operation is settled.
pub open spec fn builtin_settled(b: SpecBuiltinFunction) -> bool {
    match b.value {
        SpecBuiltinFunction_::MoveToSender(bt) => base_settled(bt),
        SpecBuiltinFunction_::MoveFrom(bt) => base_settled(bt),
        SpecBuiltinFunction_::BorrowGlobal(_, bt) => base_settled(bt),
        SpecBuiltinFunction_::Exists(bt) => base_settled(bt),
        SpecBuiltinFunction_::Freeze(bt) => base_settled(bt),
    }
}

/// The expression is settled: its type is, it has the type of a diverging
/// expression if it leaves its place, and what it is made of is settled.
pub open spec fn exp_settled(e: SpecExp) -> bool
    decreases e,
{
    &&& type_settled(e.ty)
    &&& control_exit(e.exp.value) ==> e.ty.value.is_anything()
    &&& node_settled(e.exp)
}

/// What the expression is made of is settled: it is no mere use of a
/// variable and no number literal without a width, and every type and every
/// expression inside it is settled.
pub open spec fn node_settled(exp: SpecUnannotatedExp) -> bool
    decreases exp,
{
    match exp.value {
        SpecUnannotatedExp_::Use(_) => false,
        SpecUnannotatedExp_::InferredNum(_) => false,
        SpecUnannotatedExp_::ModuleCall(call) => call_settled(*call),
        SpecUnannotatedExp_::Builtin(b, args) => builtin_settled(*b) && exp_settled(*args),
        SpecUnannotatedExp_::IfElse(eb, et, ef) => exp_settled(*eb) && exp_settled(*et)
            && exp_settled(*ef),
        SpecUnannotatedExp_::While(eb, eloop) => exp_settled(*eb) && exp_settled(*eloop),
        SpecUnannotatedExp_::Loop { has_break: _, body } => exp_settled(*body),
        SpecUnannotatedExp_::Block(items) => sequence_settled(items),
        SpecUnannotatedExp_::Assign(assigns, tys, er) => assigns_settled(assigns.value)
            && expecteds_settled(tys) && exp_settled(*er),
        SpecUnannotatedExp_::Mutate(el, er) => exp_settled(*el) && exp_settled(*er),
        SpecUnannotatedExp_::Return(er) => exp_settled(*er),
        SpecUnannotatedExp_::Abort(er) => exp_settled(*er),
        SpecUnannotatedExp_::Dereference(er) => exp_settled(*er),
        SpecUnannotatedExp_::UnaryExp(_, er) => exp_settled(*er),
        SpecUnannotatedExp_::BinopExp(el, _, operand_ty, er) => exp_settled(*el) && exp_settled(
            *er,
        ) && type_settled(*operand_ty),
        SpecUnannotatedExp_::Pack(_, _, bs, fields) => bases_settled(bs) && pack_fields_settled(
            fields,
        ),
        SpecUnannotatedExp_::ExpList(items) => exp_list_settled(items),
        SpecUnannotatedExp_::Borrow(_, er, _) => exp_settled(*er),
        SpecUnannotatedExp_::TempBorrow(_, er) => exp_settled(*er),
        SpecUnannotatedExp_::Cast(el, rhs_ty) => exp_settled(*el) && type_settled(*rhs_ty),
        SpecUnannotatedExp_::Annotate(el, rhs_ty) => exp_settled(*el) && type_settled(*rhs_ty),
        _ => true,
    }
}

/// The type arguments, the argument and the parameter types of the call are settled.
pub open spec fn call_settled(call: SpecModuleCall) -> bool
    decreases call,
{
    bases_settled(call.type_arguments) && exp_settled(*call.arguments) && singles_settled(
        call.parameter_types,
    )
}

/// The declared type of the field and its value are settled.
pub open spec fn pack_field_settled(f: SpecPackField) -> bool
    decreases f,
{
    base_settled(f.ty) && exp_settled(f.exp)
}

/// Each field of the struct that is built is settled.
pub open spec fn pack_fields_settled(fs: Seq<SpecPackField>) -> bool
    decreases fs,
{
    forall|i: int| 0 <= i < fs.len() ==> pack_field_settled(#[trigger] fs[i])
}

/// The expression and the types of the entry are settled.
pub open spec fn exp_list_item_settled(item: SpecExpListItem) -> bool
    decreases item,
{
    match item {
        SpecExpListItem::Single(e, st) => exp_settled(e) && single_settled(*st),
        SpecExpListItem::Splat(_, e, ss) => exp_settled(e) && singles_settled(ss),
    }
}

/// Each entry of the tuple is settled.
pub open spec fn exp_list_settled(items: Seq<SpecExpListItem>) -> bool
    decreases items,
{
    forall|i: int| 0 <= i < items.len() ==> exp_list_item_settled(#[trigger] items[i])
}

/// The binders, the expected types and the expression of the item are settled.
pub open spec fn sequence_item_settled(item: SpecSequenceItem) -> bool
    decreases item,
{
    match item.value {
        SpecSequenceItem_::Eval(e) => exp_settled(*e),
        SpecSequenceItem_::Declare(binds) => binds_settled(binds.value),
        SpecSequenceItem_::Bind(binds, tys, e) => binds_settled(binds.value) && expecteds_settled(
            tys,
        ) && exp_settled(*e),
    }
}

/// Each item of the sequence is settled.
pub open spec fn sequence_settled(items: Seq<SpecSequenceItem>) -> bool
    decreases items,
{
    forall|i: int| 0 <= i < items.len() ==> sequence_item_settled(#[trigger] items[i])
}

/// Each item of the body is settled. A native function has none.
pub open spec fn body_settled(b: SpecFunctionBody_) -> bool {
    match b {
        SpecFunctionBody_::Native => true,
        SpecFunctionBody_::Defined(items) => sequence_settled(items),
    }
}

} // verus!
