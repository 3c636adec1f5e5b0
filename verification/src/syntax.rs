//! The typed syntax tree of a function body, with its mathematical model.
use crate::types::{
    base_type_models, expected_type_model, expected_type_models, single_type_models, BaseType,
    Field, FunctionName, Loc, ModuleIdent, SingleType, SpecBaseType, SpecModuleIdent, SpecName,
    SpecSingleType, SpecType, StructName, Type, Var,
};
use vstd::prelude::*;

verus! {

/// A value that is written out in the source.
#[derive(Clone, Debug, PartialEq, Eq)]
pub enum Value_ {
    Address(u128),
    U8(u8),
    U64(u64),
    U128(u128),
    Bool(bool),
    Bytearray(Vec<u8>),
}

/// A value with the place where it is written.
#[derive(Clone, Debug, PartialEq, Eq)]
pub struct Value {
    pub loc: Loc,
    pub value: Value_,
}

/// The model of a [`Value_`].
pub enum SpecValue_ {
    Address(u128),
    U8(u8),
    U64(u64),
    U128(u128),
    Bool(bool),
    Bytearray(Seq<u8>),
}

/// The model of a [`Value`].
pub struct SpecValue {
    pub loc: Loc,
    pub value: SpecValue_,
}

impl View for Value_ {
    type V = SpecValue_;

    open spec fn view(&self) -> SpecValue_ {
        match self {
            Value_::Address(a) => SpecValue_::Address(*a),
            Value_::U8(v) => SpecValue_::U8(*v),
            Value_::U64(v) => SpecValue_::U64(*v),
            Value_::U128(v) => SpecValue_::U128(*v),
            Value_::Bool(b) => SpecValue_::Bool(*b),
            Value_::Bytearray(bytes) => SpecValue_::Bytearray(bytes@),
        }
    }
}

impl View for Value {
    type V = SpecValue;

    open spec fn view(&self) -> SpecValue {
        SpecValue { loc: self.loc, value: self.value@ }
    }
}

/// An operator with one operand.
#[derive(Clone, Copy, Debug, PartialEq, Eq, Structural)]
pub enum UnaryOp_ {
    Not,
}

/// An operator with one operand, and the place where it is written.
#[derive(Clone, Copy, Debug, PartialEq, Eq, Structural)]
pub struct UnaryOp {
    pub loc: Loc,
    pub value: UnaryOp_,
}

/// An operator with two operands.
#[derive(Clone, Copy, Debug, PartialEq, Eq, Structural)]
pub enum BinOp_ {
    Add,
    Sub,
    Mul,
    Mod,
    Div,
    BitOr,
    BitAnd,
    Xor,
    Shl,
    Shr,
    And,
    Or,
    Eq,
    Neq,
    Lt,
    Gt,
    Le,
    Ge,
}

/// An operator with two operands, and the place where it is written.
#[derive(Clone, Copy, Debug, PartialEq, Eq, Structural)]
pub struct BinOp {
    pub loc: Loc,
    pub value: BinOp_,
}

/// A pattern that introduces locals.
#[derive(Debug, PartialEq, Eq)]
pub enum Bind_ {
    Ignore,
    /// A local, with the type it is first given where it is given one.
    Var(Var, Option<SingleType>),
    Unpack(ModuleIdent, StructName, Vec<BaseType>, Vec<BindField>),
    BorrowUnpack(bool, ModuleIdent, StructName, Vec<BaseType>, Vec<BindField>),
}

/// A binder with the place where it is written.
#[derive(Debug, PartialEq, Eq)]
pub struct Bind {
    pub loc: Loc,
    pub value: Bind_,
}

/// One field of a destructuring binder: its declared type and what binds it.
#[derive(Debug, PartialEq, Eq)]
pub struct BindField {
    pub field: Field,
    pub idx: usize,
    pub ty: BaseType,
    pub bind: Bind,
}

/// The binders on the left of a declaration.
#[derive(Debug, PartialEq, Eq)]
pub struct BindList {
    pub loc: Loc,
    pub value: Vec<Bind>,
}

/// The model of a [`Bind_`].
pub enum SpecBind_ {
    Ignore,
    Var(SpecName, Option<SpecSingleType>),
    Unpack(SpecModuleIdent, SpecName, Seq<SpecBaseType>, Seq<SpecBindField>),
    BorrowUnpack(bool, SpecModuleIdent, SpecName, Seq<SpecBaseType>, Seq<SpecBindField>),
}

/// The model of a [`Bind`].
pub struct SpecBind {
    pub loc: Loc,
    pub value: SpecBind_,
}

/// The model of a [`BindField`].
pub struct SpecBindField {
    pub field: SpecName,
    pub idx: usize,
    pub ty: SpecBaseType,
    pub bind: SpecBind,
}

/// The model of a [`BindList`].
pub struct SpecBindList {
    pub loc: Loc,
    pub value: Seq<SpecBind>,
}

/// The models of the fields of a destructuring binder, one for one.
pub open spec fn bind_field_models(fs: Seq<BindField>) -> Seq<SpecBindField>
    decreases fs,
{
    Seq::new(fs.len(), |i: int| if 0 <= i < fs.len() { fs[i].model() } else { arbitrary() })
}

/// The models of a list of binders, one for one.
pub open spec fn bind_models(bs: Seq<Bind>) -> Seq<SpecBind> {
    Seq::new(bs.len(), |i: int| bs[i].model())
}

impl Bind_ {
    /// The model of this value.
    pub open spec fn model(self) -> SpecBind_
        decreases self,
    {
        match self {
            Bind_::Ignore => SpecBind_::Ignore,
            Bind_::Var(v, st) => SpecBind_::Var(v@, expected_type_model(st)),
            Bind_::Unpack(m, n, bts, fields) => SpecBind_::Unpack(
                m@,
                n@,
                base_type_models(bts@),
                bind_field_models(fields@),
            ),
            Bind_::BorrowUnpack(mutable, m, n, bts, fields) => SpecBind_::BorrowUnpack(
                mutable,
                m@,
                n@,
                base_type_models(bts@),
                bind_field_models(fields@),
            ),
        }
    }
}

impl Bind {
    /// The model of this value.
    pub open spec fn model(self) -> SpecBind
        decreases self,
    {
        SpecBind { loc: self.loc, value: self.value.model() }
    }
}

impl BindField {
    /// The model of this value.
    pub open spec fn model(self) -> SpecBindField
        decreases self,
    {
        SpecBindField {
            field: self.field@,
            idx: self.idx,
            ty: self.ty@,
            bind: self.bind.model(),
        }
    }
}

impl View for Bind_ {
    type V = SpecBind_;

    open spec fn view(&self) -> SpecBind_ {
        self.model()
    }
}

impl View for Bind {
    type V = SpecBind;

    open spec fn view(&self) -> SpecBind {
        self.model()
    }
}

impl View for BindField {
    type V = SpecBindField;

    open spec fn view(&self) -> SpecBindField {
        self.model()
    }
}

impl View for BindList {
    type V = SpecBindList;

    open spec fn view(&self) -> SpecBindList {
        SpecBindList { loc: self.loc, value: bind_models(self.value@) }
    }
}

/// A pattern that assigns to locals that exist.
#[derive(Debug, PartialEq, Eq)]
pub enum Assign_ {
    Ignore,
    Var(Var, SingleType),
    Unpack(ModuleIdent, StructName, Vec<BaseType>, Vec<AssignField>),
    BorrowUnpack(bool, ModuleIdent, StructName, Vec<BaseType>, Vec<AssignField>),
}

/// An assignment pattern with the place where it is written.
#[derive(Debug, PartialEq, Eq)]
pub struct Assign {
    pub loc: Loc,
    pub value: Assign_,
}

/// One field of a destructuring assignment: its declared type and what takes it.
#[derive(Debug, PartialEq, Eq)]
pub struct AssignField {
    pub field: Field,
    pub idx: usize,
    pub ty: BaseType,
    pub assign: Assign,
}

/// The patterns on the left of an assignment.
#[derive(Debug, PartialEq, Eq)]
pub struct AssignList {
    pub loc: Loc,
    pub value: Vec<Assign>,
}

/// The model of an [`Assign_`].
pub enum SpecAssign_ {
    Ignore,
    Var(SpecName, SpecSingleType),
    Unpack(SpecModuleIdent, SpecName, Seq<SpecBaseType>, Seq<SpecAssignField>),
    BorrowUnpack(bool, SpecModuleIdent, SpecName, Seq<SpecBaseType>, Seq<SpecAssignField>),
}

/// The model of an [`Assign`].
pub struct SpecAssign {
    pub loc: Loc,
    pub value: SpecAssign_,
}

/// The model of an [`AssignField`].
pub struct SpecAssignField {
    pub field: SpecName,
    pub idx: usize,
    pub ty: SpecBaseType,
    pub assign: SpecAssign,
}

/// The model of an [`AssignList`].
pub struct SpecAssignList {
    pub loc: Loc,
    pub value: Seq<SpecAssign>,
}

/// The models of the fields of a destructuring assignment, one for one.
pub open spec fn assign_field_models(fs: Seq<AssignField>) -> Seq<SpecAssignField>
    decreases fs,
{
    Seq::new(fs.len(), |i: int| if 0 <= i < fs.len() { fs[i].model() } else { arbitrary() })
}

/// The models of a list of assignment patterns, one for one.
pub open spec fn assign_models(xs: Seq<Assign>) -> Seq<SpecAssign> {
    Seq::new(xs.len(), |i: int| xs[i].model())
}

impl Assign_ {
    /// The model of this value.
    pub open spec fn model(self) -> SpecAssign_
        decreases self,
    {
        match self {
            Assign_::Ignore => SpecAssign_::Ignore,
            Assign_::Var(v, st) => SpecAssign_::Var(v@, st@),
            Assign_::Unpack(m, n, bts, fields) => SpecAssign_::Unpack(
                m@,
                n@,
                base_type_models(bts@),
                assign_field_models(fields@),
            ),
            Assign_::BorrowUnpack(mutable, m, n, bts, fields) => SpecAssign_::BorrowUnpack(
                mutable,
                m@,
                n@,
                base_type_models(bts@),
                assign_field_models(fields@),
            ),
        }
    }
}

impl Assign {
    /// The model of this value.
    pub open spec fn model(self) -> SpecAssign
        decreases self,
    {
        SpecAssign { loc: self.loc, value: self.value.model() }
    }
}

impl AssignField {
    /// The model of this value.
    pub open spec fn model(self) -> SpecAssignField
        decreases self,
    {
        SpecAssignField {
            field: self.field@,
            idx: self.idx,
            ty: self.ty@,
            assign: self.assign.model(),
        }
    }
}

impl View for Assign_ {
    type V = SpecAssign_;

    open spec fn view(&self) -> SpecAssign_ {
        self.model()
    }
}

impl View for Assign {
    type V = SpecAssign;

    open spec fn view(&self) -> SpecAssign {
        self.model()
    }
}

impl View for AssignField {
    type V = SpecAssignField;

    open spec fn view(&self) -> SpecAssignField {
        self.model()
    }
}

impl View for AssignList {
    type V = SpecAssignList;

    open spec fn view(&self) -> SpecAssignList {
        SpecAssignList { loc: self.loc, value: assign_models(self.value@) }
    }
}

/// An operation of the language that takes a type.
#[derive(Debug, PartialEq, Eq)]
pub enum BuiltinFunction_ {
    MoveToSender(BaseType),
    MoveFrom(BaseType),
    BorrowGlobal(bool, BaseType),
    Exists(BaseType),
    Freeze(BaseType),
}

/// A builtin operation with the place where it is written.
#[derive(Debug, PartialEq, Eq)]
pub struct BuiltinFunction {
    pub loc: Loc,
    pub value: BuiltinFunction_,
}

/// The model of a [`BuiltinFunction_`].
pub enum SpecBuiltinFunction_ {
    MoveToSender(SpecBaseType),
    MoveFrom(SpecBaseType),
    BorrowGlobal(bool, SpecBaseType),
    Exists(SpecBaseType),
    Freeze(SpecBaseType),
}

/// The model of a [`BuiltinFunction`].
pub struct SpecBuiltinFunction {
    pub loc: Loc,
    pub value: SpecBuiltinFunction_,
}

impl View for BuiltinFunction_ {
    type V = SpecBuiltinFunction_;

    open spec fn view(&self) -> SpecBuiltinFunction_ {
        match self {
            BuiltinFunction_::MoveToSender(bt) => SpecBuiltinFunction_::MoveToSender(bt@),
            BuiltinFunction_::MoveFrom(bt) => SpecBuiltinFunction_::MoveFrom(bt@),
            BuiltinFunction_::BorrowGlobal(m, bt) => SpecBuiltinFunction_::BorrowGlobal(*m, bt@),
            BuiltinFunction_::Exists(bt) => SpecBuiltinFunction_::Exists(bt@),
            BuiltinFunction_::Freeze(bt) => SpecBuiltinFunction_::Freeze(bt@),
        }
    }
}

impl View for BuiltinFunction {
    type V = SpecBuiltinFunction;

    open spec fn view(&self) -> SpecBuiltinFunction {
        SpecBuiltinFunction { loc: self.loc, value: self.value@ }
    }
}

/// A call of a function of a module.
#[derive(Debug, PartialEq, Eq)]
pub struct ModuleCall {
    pub module: ModuleIdent,
    pub name: FunctionName,
    pub type_arguments: Vec<BaseType>,
    pub arguments: Box<Exp>,
    pub parameter_types: Vec<SingleType>,
    pub acquires: Vec<StructName>,
}

/// The model of a [`ModuleCall`].
pub struct SpecModuleCall {
    pub module: SpecModuleIdent,
    pub name: SpecName,
    pub type_arguments: Seq<SpecBaseType>,
    pub arguments: Box<SpecExp>,
    pub parameter_types: Seq<SpecSingleType>,
    pub acquires: Seq<SpecName>,
}

/// The models of a list of names, one for one.
pub open spec fn name_models(ns: Seq<Var>) -> Seq<SpecName> {
    Seq::new(ns.len(), |i: int| ns[i]@)
}

/// One field of a struct that is built: its declared type and its value.
#[derive(Debug, PartialEq, Eq)]
pub struct PackField {
    pub field: Field,
    pub idx: usize,
    pub ty: BaseType,
    pub exp: Exp,
}

/// The model of a [`PackField`].
pub struct SpecPackField {
    pub field: SpecName,
    pub idx: usize,
    pub ty: SpecBaseType,
    pub exp: SpecExp,
}

/// One entry of a tuple expression.
#[derive(Debug, PartialEq, Eq)]
pub enum ExpListItem {
    Single(Exp, Box<SingleType>),
    Splat(Loc, Exp, Vec<SingleType>),
}

/// The model of an [`ExpListItem`].
pub enum SpecExpListItem {
    Single(SpecExp, Box<SpecSingleType>),
    Splat(Loc, SpecExp, Seq<SpecSingleType>),
}

/// A statement of a block.
#[derive(Debug, PartialEq, Eq)]
pub enum SequenceItem_ {
    /// An expression evaluated for what it does.
    Eval(Box<Exp>),
    Declare(BindList),
    Bind(BindList, Vec<Option<SingleType>>, Box<Exp>),
}

/// A statement of a block with the place where it is written.
#[derive(Debug, PartialEq, Eq)]
pub struct SequenceItem {
    pub loc: Loc,
    pub value: SequenceItem_,
}

/// The statements of a block, in order.
pub type Sequence = Vec<SequenceItem>;

/// The model of a [`SequenceItem_`].
pub enum SpecSequenceItem_ {
    Eval(Box<SpecExp>),
    Declare(SpecBindList),
    Bind(SpecBindList, Seq<Option<SpecSingleType>>, Box<SpecExp>),
}

/// The model of a [`SequenceItem`].
pub struct SpecSequenceItem {
    pub loc: Loc,
    pub value: SpecSequenceItem_,
}

/// The forms of expression.
#[derive(Debug, PartialEq, Eq)]
pub enum UnannotatedExp_ {
    Unit,
    Value(Value),
    /// A number literal whose width inference had yet to fix.
    InferredNum(u128),
    Move { from_user: bool, var: Var },
    Copy { from_user: bool, var: Var },
    /// A variable that is read, before it is known whether by copy or by move.
    Use(Var),
    ModuleCall(Box<ModuleCall>),
    Builtin(Box<BuiltinFunction>, Box<Exp>),
    IfElse(Box<Exp>, Box<Exp>, Box<Exp>),
    While(Box<Exp>, Box<Exp>),
    Loop { has_break: bool, body: Box<Exp> },
    Block(Sequence),
    Assign(AssignList, Vec<Option<SingleType>>, Box<Exp>),
    Mutate(Box<Exp>, Box<Exp>),
    Return(Box<Exp>),
    Abort(Box<Exp>),
    Break,
    Continue,
    Dereference(Box<Exp>),
    UnaryExp(UnaryOp, Box<Exp>),
    BinopExp(Box<Exp>, BinOp, Box<Type>, Box<Exp>),
    Pack(ModuleIdent, StructName, Vec<BaseType>, Vec<PackField>),
    ExpList(Vec<ExpListItem>),
    Borrow(bool, Box<Exp>, Field),
    TempBorrow(bool, Box<Exp>),
    BorrowLocal(bool, Var),
    Cast(Box<Exp>, Box<Type>),
    Annotate(Box<Exp>, Box<Type>),
    /// What is left of an expression that was reported.
    UnresolvedError,
}

/// What an expression is made of, with the place where it is written.
#[derive(Debug, PartialEq, Eq)]
pub struct UnannotatedExp {
    pub loc: Loc,
    pub value: UnannotatedExp_,
}

/// An expression with the type that inference gave it.
#[derive(Debug, PartialEq, Eq)]
pub struct Exp {
    pub ty: Type,
    pub exp: UnannotatedExp,
}

/// The model of an [`UnannotatedExp_`].
pub enum SpecUnannotatedExp_ {
    Unit,
    Value(SpecValue),
    InferredNum(u128),
    Move { from_user: bool, var: SpecName },
    Copy { from_user: bool, var: SpecName },
    Use(SpecName),
    ModuleCall(Box<SpecModuleCall>),
    Builtin(Box<SpecBuiltinFunction>, Box<SpecExp>),
    IfElse(Box<SpecExp>, Box<SpecExp>, Box<SpecExp>),
    While(Box<SpecExp>, Box<SpecExp>),
    Loop { has_break: bool, body: Box<SpecExp> },
    Block(Seq<SpecSequenceItem>),
    Assign(SpecAssignList, Seq<Option<SpecSingleType>>, Box<SpecExp>),
    Mutate(Box<SpecExp>, Box<SpecExp>),
    Return(Box<SpecExp>),
    Abort(Box<SpecExp>),
    Break,
    Continue,
    Dereference(Box<SpecExp>),
    UnaryExp(UnaryOp, Box<SpecExp>),
    BinopExp(Box<SpecExp>, BinOp, Box<SpecType>, Box<SpecExp>),
    Pack(SpecModuleIdent, SpecName, Seq<SpecBaseType>, Seq<SpecPackField>),
    ExpList(Seq<SpecExpListItem>),
    Borrow(bool, Box<SpecExp>, SpecName),
    TempBorrow(bool, Box<SpecExp>),
    BorrowLocal(bool, SpecName),
    Cast(Box<SpecExp>, Box<SpecType>),
    Annotate(Box<SpecExp>, Box<SpecType>),
    UnresolvedError,
}

/// The model of an [`UnannotatedExp`].
pub struct SpecUnannotatedExp {
    pub loc: Loc,
    pub value: SpecUnannotatedExp_,
}

/// The model of an [`Exp`].
pub struct SpecExp {
    pub ty: SpecType,
    pub exp: SpecUnannotatedExp,
}

/// The models of the items of a sequence, one for one.
pub open spec fn sequence_models(items: Seq<SequenceItem>) -> Seq<SpecSequenceItem>
    decreases items,
{
    Seq::new(
        items.len(),
        |i: int| if 0 <= i < items.len() { items[i].model() } else { arbitrary() },
    )
}

/// The models of the fields of a struct that is built, one for one.
pub open spec fn pack_field_models(fs: Seq<PackField>) -> Seq<SpecPackField>
    decreases fs,
{
    Seq::new(fs.len(), |i: int| if 0 <= i < fs.len() { fs[i].model() } else { arbitrary() })
}

/// The models of the entries of a tuple expression, one for one.
pub open spec fn exp_list_models(items: Seq<ExpListItem>) -> Seq<SpecExpListItem>
    decreases items,
{
    Seq::new(
        items.len(),
        |i: int| if 0 <= i < items.len() { items[i].model() } else { arbitrary() },
    )
}

impl SequenceItem_ {
    /// The model of this value.
    pub open spec fn model(self) -> SpecSequenceItem_
        decreases self,
    {
        match self {
            SequenceItem_::Eval(e) => SpecSequenceItem_::Eval(Box::new((*e).model())),
            SequenceItem_::Declare(binds) => SpecSequenceItem_::Declare(binds@),
            SequenceItem_::Bind(binds, tys, e) => SpecSequenceItem_::Bind(
                binds@,
                expected_type_models(tys@),
                Box::new((*e).model()),
            ),
        }
    }
}

impl SequenceItem {
    /// The model of this value.
    pub open spec fn model(self) -> SpecSequenceItem
        decreases self,
    {
        SpecSequenceItem { loc: self.loc, value: self.value.model() }
    }
}

impl PackField {
    /// The model of this value.
    pub open spec fn model(self) -> SpecPackField
        decreases self,
    {
        SpecPackField { field: self.field@, idx: self.idx, ty: self.ty@, exp: self.exp.model() }
    }
}

impl ExpListItem {
    /// The model of this value.
    pub open spec fn model(self) -> SpecExpListItem
        decreases self,
    {
        match self {
            ExpListItem::Single(e, st) => SpecExpListItem::Single(e.model(), Box::new((*st)@)),
            ExpListItem::Splat(loc, e, ss) => SpecExpListItem::Splat(
                loc,
                e.model(),
                single_type_models(ss@),
            ),
        }
    }
}

impl ModuleCall {
    /// The model of this value.
    pub open spec fn model(self) -> SpecModuleCall
        decreases self,
    {
        SpecModuleCall {
            module: self.module@,
            name: self.name@,
            type_arguments: base_type_models(self.type_arguments@),
            arguments: Box::new((*self.arguments).model()),
            parameter_types: single_type_models(self.parameter_types@),
            acquires: name_models(self.acquires@),
        }
    }
}

impl UnannotatedExp_ {
    /// The model of this value.
    #[verifier::opaque]
    pub open spec fn model(self) -> SpecUnannotatedExp_
        decreases self,
    {
        match self {
            UnannotatedExp_::Unit => SpecUnannotatedExp_::Unit,
            UnannotatedExp_::Value(v) => SpecUnannotatedExp_::Value(v@),
            UnannotatedExp_::InferredNum(v) => SpecUnannotatedExp_::InferredNum(v),
            UnannotatedExp_::Move { from_user, var } => SpecUnannotatedExp_::Move {
                from_user,
                var: var@,
            },
            UnannotatedExp_::Copy { from_user, var } => SpecUnannotatedExp_::Copy {
                from_user,
                var: var@,
            },
            UnannotatedExp_::Use(v) => SpecUnannotatedExp_::Use(v@),
            UnannotatedExp_::ModuleCall(call) => SpecUnannotatedExp_::ModuleCall(
                Box::new((*call).model()),
            ),
            UnannotatedExp_::Builtin(b, args) => SpecUnannotatedExp_::Builtin(
                Box::new((*b)@),
                Box::new((*args).model()),
            ),
            UnannotatedExp_::IfElse(eb, et, ef) => SpecUnannotatedExp_::IfElse(
                Box::new((*eb).model()),
                Box::new((*et).model()),
                Box::new((*ef).model()),
            ),
            UnannotatedExp_::While(eb, eloop) => SpecUnannotatedExp_::While(
                Box::new((*eb).model()),
                Box::new((*eloop).model()),
            ),
            UnannotatedExp_::Loop { has_break, body } => SpecUnannotatedExp_::Loop {
                has_break,
                body: Box::new((*body).model()),
            },
            UnannotatedExp_::Block(items) => SpecUnannotatedExp_::Block(sequence_models(items@)),
            UnannotatedExp_::Assign(assigns, tys, er) => SpecUnannotatedExp_::Assign(
                assigns@,
                expected_type_models(tys@),
                Box::new((*er).model()),
            ),
            UnannotatedExp_::Mutate(el, er) => SpecUnannotatedExp_::Mutate(
                Box::new((*el).model()),
                Box::new((*er).model()),
            ),
            UnannotatedExp_::Return(er) => SpecUnannotatedExp_::Return(Box::new((*er).model())),
            UnannotatedExp_::Abort(er) => SpecUnannotatedExp_::Abort(Box::new((*er).model())),
            UnannotatedExp_::Break => SpecUnannotatedExp_::Break,
            UnannotatedExp_::Continue => SpecUnannotatedExp_::Continue,
            UnannotatedExp_::Dereference(er) => SpecUnannotatedExp_::Dereference(
                Box::new((*er).model()),
            ),
            UnannotatedExp_::UnaryExp(op, er) => SpecUnannotatedExp_::UnaryExp(
                op,
                Box::new((*er).model()),
            ),
            UnannotatedExp_::BinopExp(el, op, ty, er) => SpecUnannotatedExp_::BinopExp(
                Box::new((*el).model()),
                op,
                Box::new((*ty)@),
                Box::new((*er).model()),
            ),
            UnannotatedExp_::Pack(m, n, bts, fields) => SpecUnannotatedExp_::Pack(
                m@,
                n@,
                base_type_models(bts@),
                pack_field_models(fields@),
            ),
            UnannotatedExp_::ExpList(items) => SpecUnannotatedExp_::ExpList(
                exp_list_models(items@),
            ),
            UnannotatedExp_::Borrow(mutable, er, f) => SpecUnannotatedExp_::Borrow(
                mutable,
                Box::new((*er).model()),
                f@,
            ),
            UnannotatedExp_::TempBorrow(mutable, er) => SpecUnannotatedExp_::TempBorrow(
                mutable,
                Box::new((*er).model()),
            ),
            UnannotatedExp_::BorrowLocal(mutable, v) => SpecUnannotatedExp_::BorrowLocal(
                mutable,
                v@,
            ),
            UnannotatedExp_::Cast(el, ty) => SpecUnannotatedExp_::Cast(
                Box::new((*el).model()),
                Box::new((*ty)@),
            ),
            UnannotatedExp_::Annotate(el, ty) => SpecUnannotatedExp_::Annotate(
                Box::new((*el).model()),
                Box::new((*ty)@),
            ),
            UnannotatedExp_::UnresolvedError => SpecUnannotatedExp_::UnresolvedError,
        }
    }
}

impl UnannotatedExp {
    /// The model of this value.
    pub open spec fn model(self) -> SpecUnannotatedExp
        decreases self,
    {
        SpecUnannotatedExp { loc: self.loc, value: self.value.model() }
    }
}

impl Exp {
    /// The model of this value.
    #[verifier::opaque]
    pub open spec fn model(self) -> SpecExp
        decreases self,
    {
        SpecExp { ty: self.ty@, exp: self.exp.model() }
    }
}

impl View for SequenceItem_ {
    type V = SpecSequenceItem_;

    open spec fn view(&self) -> SpecSequenceItem_ {
        self.model()
    }
}

impl View for SequenceItem {
    type V = SpecSequenceItem;

    open spec fn view(&self) -> SpecSequenceItem {
        self.model()
    }
}

impl View for PackField {
    type V = SpecPackField;

    open spec fn view(&self) -> SpecPackField {
        self.model()
    }
}

impl View for ExpListItem {
    type V = SpecExpListItem;

    open spec fn view(&self) -> SpecExpListItem {
        self.model()
    }
}

impl View for ModuleCall {
    type V = SpecModuleCall;

    open spec fn view(&self) -> SpecModuleCall {
        self.model()
    }
}

impl View for UnannotatedExp_ {
    type V = SpecUnannotatedExp_;

    open spec fn view(&self) -> SpecUnannotatedExp_ {
        self.model()
    }
}

impl View for UnannotatedExp {
    type V = SpecUnannotatedExp;

    open spec fn view(&self) -> SpecUnannotatedExp {
        self.model()
    }
}

impl View for Exp {
    type V = SpecExp;

    open spec fn view(&self) -> SpecExp {
        self.model()
    }
}

/// The body of a function, unless the function is native.
#[derive(Debug, PartialEq, Eq)]
pub enum FunctionBody_ {
    Defined(Sequence),
    Native,
}

/// The model of a [`FunctionBody_`].
pub enum SpecFunctionBody_ {
    Defined(Seq<SpecSequenceItem>),
    Native,
}

impl View for FunctionBody_ {
    type V = SpecFunctionBody_;

    open spec fn view(&self) -> SpecFunctionBody_ {
        match self {
            FunctionBody_::Defined(items) => SpecFunctionBody_::Defined(sequence_models(items@)),
            FunctionBody_::Native => SpecFunctionBody_::Native,
        }
    }
}

} // verus!
