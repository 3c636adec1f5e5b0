//! What it means for a part of a function to be free of the unknown kind:
//! no applied type in it carries that kind. Type parameters may: they have
//! the kind that their declaration gives them.
use crate::context::Env;
use crate::syntax::{
    SpecAssign, SpecAssignField, SpecAssign_, SpecBind, SpecBindField, SpecBind_,
    SpecBuiltinFunction, SpecBuiltinFunction_, SpecExp, SpecExpListItem, SpecFunctionBody_,
    SpecModuleCall, SpecPackField, SpecSequenceItem, SpecSequenceItem_, SpecUnannotatedExp,
    SpecUnannotatedExp_,
};
use crate::types::{
    Kind, Kind_, SpecBaseType, SpecBaseType_, SpecFunctionSignature, SpecParameter, SpecSingleType,
    SpecSingleType_, SpecType, SpecType_,
};
use vstd::prelude::*;

verus! {

/// Whether the kind is missing or known.
pub open spec fn kind_known(k: Option<Kind>) -> bool {
    match k {
        Some(kind) => kind.value != Kind_::Unknown,
        None => true,
    }
}

/// No applied type in the base type carries the unknown kind.
pub open spec fn base_known(bt: SpecBaseType) -> bool
    decreases bt,
{
    match bt.value {
        SpecBaseType_::Apply(k, _, args) => kind_known(k) && bases_known(args),
        _ => true,
    }
}

/// No applied type in what a variable is bound to carries the unknown kind.
pub open spec fn env_known(env: Env) -> bool {
    forall|w: u64| env.subst.contains_key(w) ==> base_known(#[trigger] env.subst[w])
}

/// Each of the base types is free of the unknown kind.
pub open spec fn bases_known(bts: Seq<SpecBaseType>) -> bool
    decreases bts,
{
    forall|i: int| 0 <= i < bts.len() ==> base_known(#[trigger] bts[i])
}

/// The base type of the single type is free of the unknown kind.
pub open spec fn single_known(st: SpecSingleType) -> bool {
    match st.value {
        SpecSingleType_::Base(b) => base_known(b),
        SpecSingleType_::Ref(_, b) => base_known(b),
    }
}

/// Each of the single types is free of the unknown kind.
pub open spec fn singles_known(ss: Seq<SpecSingleType>) -> bool {
    forall|i: int| 0 <= i < ss.len() ==> #[trigger] single_known(ss[i])
}

/// The expected type is free of the unknown kind, if there is one.
pub open spec fn expected_known(st: Option<SpecSingleType>) -> bool {
    match st {
        Some(s) => single_known(s),
        None => true,
    }
}

/// Each of the expected types is free of the unknown kind.
pub open spec fn expecteds_known(ss: Seq<Option<SpecSingleType>>) -> bool {
    forall|i: int| 0 <= i < ss.len() ==> #[trigger] expected_known(ss[i])
}

/// Every single type in the type is free of the unknown kind.
pub open spec fn type_known(ty: SpecType) -> bool {
    match ty.value {
        SpecType_::Unit => true,
        SpecType_::Single(s) => single_known(s),
        SpecType_::Multiple(ss) => singles_known(ss),
    }
}

/// The type of each parameter is free of the unknown kind.
pub open spec fn parameters_known(ps: Seq<SpecParameter>) -> bool {
    forall|i: int| 0 <= i < ps.len() ==> single_known((#[trigger] ps[i]).ty)
}

/// The types of the parameters and the return type are free of the unknown kind.
pub open spec fn signature_known(sig: SpecFunctionSignature) -> bool {
    parameters_known(sig.parameters) && type_known(sig.return_type)
}

/// The types in the binder are free of the unknown kind.
pub open spec fn bind_known(b: SpecBind) -> bool
    decreases b,
{
    match b.value {
        SpecBind_::Ignore => true,
        SpecBind_::Var(_, st) => expected_known(st),
        SpecBind_::Unpack(_, _, bts, fields) => bases_known(bts) && bind_fields_known(fields),
        SpecBind_::BorrowUnpack(_, _, _, bts, fields) => bases_known(bts)
            && bind_fields_known(fields),
    }
}

/// The declared type of the field and its binder are free of the unknown kind.
pub open spec fn bind_field_known(f: SpecBindField) -> bool
    decreases f,
{
    base_known(f.ty) && bind_known(f.bind)
}

/// Each field of the destructuring binder is free of the unknown kind.
pub open spec fn bind_fields_known(fs: Seq<SpecBindField>) -> bool
    decreases fs,
{
    forall|i: int| 0 <= i < fs.len() ==> bind_field_known(#[trigger] fs[i])
}

/// Each of the binders is free of the unknown kind.
pub open spec fn binds_known(bs: Seq<SpecBind>) -> bool {
    forall|i: int| 0 <= i < bs.len() ==> #[trigger] bind_known(bs[i])
}

/// The types in the assignment pattern are free of the unknown kind.
pub open spec fn assign_known(a: SpecAssign) -> bool
    decreases a,
{
    match a.value {
        SpecAssign_::Ignore => true,
        SpecAssign_::Var(_, st) => single_known(st),
        SpecAssign_::Unpack(_, _, bts, fields) => bases_known(bts) && assign_fields_known(
            fields,
        ),
        SpecAssign_::BorrowUnpack(_, _, _, bts, fields) => bases_known(bts)
            && assign_fields_known(fields),
    }
}

/// The declared type of the field and its pattern are free of the unknown kind.
pub open spec fn assign_field_known(f: SpecAssignField) -> bool
    decreases f,
{
    base_known(f.ty) && assign_known(f.assign)
}

/// Each field of the destructuring assignment is free of the unknown kind.
pub open spec fn assign_fields_known(fs: Seq<SpecAssignField>) -> bool
    decreases fs,
{
    forall|i: int| 0 <= i < fs.len() ==> assign_field_known(#[trigger] fs[i])
}

/// Each of the assignment patterns is free of the unknown kind.
pub open spec fn assigns_known(xs: Seq<SpecAssign>) -> bool {
    forall|i: int| 0 <= i < xs.len() ==> #[trigger] assign_known(xs[i])
}

/// The type of the builtin operation is free of the unknown kind.
pub open spec fn builtin_known(b: SpecBuiltinFunction) -> bool {
    match b.value {
        SpecBuiltinFunction_::MoveToSender(bt) => base_known(bt),
        SpecBuiltinFunction_::MoveFrom(bt) => base_known(bt),
        SpecBuiltinFunction_::BorrowGlobal(_, bt) => base_known(bt),
        SpecBuiltinFunction_::Exists(bt) => base_known(bt),
        SpecBuiltinFunction_::Freeze(bt) => base_known(bt),
    }
}

/// The type of the expression and all it is made of are free of the unknown kind.
pub open spec fn exp_known(e: SpecExp) -> bool
    decreases e,
{
    type_known(e.ty) && node_known(e.exp)
}

/// Every type and every expression inside the expression is free of the
/// unknown kind.
pub open spec fn node_known(exp: SpecUnannotatedExp) -> bool
    decreases exp,
{
    match exp.value {
        SpecUnannotatedExp_::ModuleCall(call) => call_known(*call),
        SpecUnannotatedExp_::Builtin(b, args) => builtin_known(*b) && exp_known(*args),
        SpecUnannotatedExp_::IfElse(eb, et, ef) => exp_known(*eb) && exp_known(*et)
            && exp_known(*ef),
        SpecUnannotatedExp_::While(eb, eloop) => exp_known(*eb) && exp_known(*eloop),
        SpecUnannotatedExp_::Loop { has_break: _, body } => exp_known(*body),
        SpecUnannotatedExp_::Block(items) => sequence_known(items),
        SpecUnannotatedExp_::Assign(assigns, tys, er) => assigns_known(assigns.value)
            && expecteds_known(tys) && exp_known(*er),
        SpecUnannotatedExp_::Mutate(el, er) => exp_known(*el) && exp_known(*er),
        SpecUnannotatedExp_::Return(er) => exp_known(*er),
        SpecUnannotatedExp_::Abort(er) => exp_known(*er),
        SpecUnannotatedExp_::Dereference(er) => exp_known(*er),
        SpecUnannotatedExp_::UnaryExp(_, er) => exp_known(*er),
        SpecUnannotatedExp_::BinopExp(el, _, operand_ty, er) => exp_known(*el) && exp_known(
            *er,
        ) && type_known(*operand_ty),
        SpecUnannotatedExp_::Pack(_, _, bs, fields) => bases_known(bs) && pack_fields_known(
            fields,
        ),
        SpecUnannotatedExp_::ExpList(items) => exp_list_known(items),
        SpecUnannotatedExp_::Borrow(_, er, _) => exp_known(*er),
        SpecUnannotatedExp_::TempBorrow(_, er) => exp_known(*er),
        SpecUnannotatedExp_::Cast(el, rhs_ty) => exp_known(*el) && type_known(*rhs_ty),
        SpecUnannotatedExp_::Annotate(el, rhs_ty) => exp_known(*el) && type_known(*rhs_ty),
        _ => true,
    }
}

/// The type arguments, the argument and the parameter types of the call are free of the unknown kind.
pub open spec fn call_known(call: SpecModuleCall) -> bool
    decreases call,
{
    bases_known(call.type_arguments) && exp_known(*call.arguments) && singles_known(
        call.parameter_types,
    )
}

/// The declared type of the field and its value are free of the unknown kind.
pub open spec fn pack_field_known(f: SpecPackField) -> bool
    decreases f,
{
    base_known(f.ty) && exp_known(f.exp)
}

/// Each field of the struct that is built is free of the unknown kind.
pub open spec fn pack_fields_known(fs: Seq<SpecPackField>) -> bool
    decreases fs,
{
    forall|i: int| 0 <= i < fs.len() ==> pack_field_known(#[trigger] fs[i])
}

/// The expression and the types of the entry are free of the unknown kind.
pub open spec fn exp_list_item_known(item: SpecExpListItem) -> bool
    decreases item,
{
    match item {
        SpecExpListItem::Single(e, st) => exp_known(e) && single_known(*st),
        SpecExpListItem::Splat(_, e, ss) => exp_known(e) && singles_known(ss),
    }
}

/// Each entry of the tuple is free of the unknown kind.
pub open spec fn exp_list_known(items: Seq<SpecExpListItem>) -> bool
    decreases items,
{
    forall|i: int| 0 <= i < items.len() ==> exp_list_item_known(#[trigger] items[i])
}

/// The binders, the expected types and the expression of the item are free of the unknown kind.
pub open spec fn sequence_item_known(item: SpecSequenceItem) -> bool
    decreases item,
{
    match item.value {
        SpecSequenceItem_::Eval(e) => exp_known(*e),
        SpecSequenceItem_::Declare(binds) => binds_known(binds.value),
        SpecSequenceItem_::Bind(binds, tys, e) => binds_known(binds.value) && expecteds_known(
            tys,
        ) && exp_known(*e),
    }
}

/// Each item of the sequence is free of the unknown kind.
pub open spec fn sequence_known(items: Seq<SpecSequenceItem>) -> bool
    decreases items,
{
    forall|i: int| 0 <= i < items.len() ==> sequence_item_known(#[trigger] items[i])
}

/// Each item of the body is free of the unknown kind. A native function has none.
pub open spec fn body_known(b: SpecFunctionBody_) -> bool {
    match b {
        SpecFunctionBody_::Native => true,
        SpecFunctionBody_::Defined(items) => sequence_known(items),
    }
}

} // verus!
