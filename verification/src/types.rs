//! The type language: source locations, names, kinds, and the three layers of
//! types (base, single, full), each with its mathematical model.
use vstd::prelude::*;

verus! {

/// A span of source text, carried through unchanged.
#[derive(Clone, Copy, Debug, PartialEq, Eq, Structural)]
pub struct Loc {
    pub file: u32,
    pub start: u32,
    pub end: u32,
}

/// An identifier together with the place where it was written.
#[derive(Clone, Debug, PartialEq, Eq)]
pub struct Name {
    pub loc: Loc,
    pub value: String,
}

/// The name of a local.
pub type Var = Name;

/// The name of a struct.
pub type StructName = Name;

/// The name of a function.
pub type FunctionName = Name;

/// The name of a field.
pub type Field = Name;

/// The model of a [`Name`].
pub struct SpecName {
    pub loc: Loc,
    pub value: Seq<char>,
}

impl View for Name {
    type V = SpecName;

    open spec fn view(&self) -> SpecName {
        SpecName { loc: self.loc, value: self.value@ }
    }
}

impl Name {
    /// A fresh copy of the identifier.
    pub fn duplicate(&self) -> (r: Name)
        ensures
            r@ == self@,
    {
        Name { loc: self.loc, value: self.value.clone() }
    }
}

/// The module that declares a struct or a function.
#[derive(Clone, Debug, PartialEq, Eq)]
pub struct ModuleIdent {
    pub loc: Loc,
    pub address: u128,
    pub name: String,
}

/// The model of a [`ModuleIdent`].
pub struct SpecModuleIdent {
    pub loc: Loc,
    pub address: u128,
    pub name: Seq<char>,
}

impl View for ModuleIdent {
    type V = SpecModuleIdent;

    open spec fn view(&self) -> SpecModuleIdent {
        SpecModuleIdent { loc: self.loc, address: self.address, name: self.name@ }
    }
}

impl ModuleIdent {
    /// A fresh copy of the module identifier.
    pub fn duplicate(&self) -> (r: ModuleIdent)
        ensures
            r@ == self@,
    {
        ModuleIdent { loc: self.loc, address: self.address, name: self.name.clone() }
    }
}

/// How values of a type may be duplicated and dropped.
#[derive(Clone, Copy, Debug, PartialEq, Eq, Structural)]
pub enum Kind_ {
    /// Not classified yet.
    Unknown,
    /// Used exactly once: never copied, never dropped implicitly.
    Resource,
    /// Used at most once: never copied, but may be dropped.
    Affine,
    /// Freely copied and dropped.
    Unrestricted,
}

/// A kind with the place that gives the reason for it.
#[derive(Clone, Copy, Debug, PartialEq, Eq, Structural)]
pub struct Kind {
    pub loc: Loc,
    pub value: Kind_,
}

/// A type parameter of a function or struct, with its declared kind.
#[derive(Clone, Debug, PartialEq, Eq)]
pub struct TParam {
    pub debug: Name,
    pub id: u64,
    pub kind: Kind,
}

/// The model of a [`TParam`].
pub struct SpecTParam {
    pub debug: SpecName,
    pub id: u64,
    pub kind: Kind,
}

impl View for TParam {
    type V = SpecTParam;

    open spec fn view(&self) -> SpecTParam {
        SpecTParam { debug: self.debug@, id: self.id, kind: self.kind }
    }
}

impl TParam {
    /// A fresh copy of the type parameter.
    pub fn duplicate(&self) -> (r: TParam)
        ensures
            r@ == self@,
    {
        TParam { debug: self.debug.duplicate(), id: self.id, kind: self.kind }
    }
}

/// The types that are built into the language.
#[derive(Clone, Copy, Debug, PartialEq, Eq, Structural)]
pub enum BuiltinTypeName_ {
    Address,
    U8,
    U64,
    U128,
    Bool,
    Bytearray,
}

impl BuiltinTypeName_ {
    /// Whether literals of this type are unsigned integers of a fixed width.
    pub open spec fn numeric(self) -> bool {
        self == BuiltinTypeName_::U8 || self == BuiltinTypeName_::U64 || self
            == BuiltinTypeName_::U128
    }

    /// Whether literals of this type are unsigned integers of a fixed width.
    #[verifier::when_used_as_spec(numeric)]
    pub fn is_numeric(self) -> (r: bool)
        ensures
            r == self.numeric(),
    {
        match self {
            BuiltinTypeName_::U8 | BuiltinTypeName_::U64 | BuiltinTypeName_::U128 => true,
            _ => false,
        }
    }
}

/// A builtin type with the place where it is named.
#[derive(Clone, Copy, Debug, PartialEq, Eq, Structural)]
pub struct BuiltinTypeName {
    pub loc: Loc,
    pub value: BuiltinTypeName_,
}

/// What an applied type applies: a builtin type, or a struct of a module.
#[derive(Clone, Debug, PartialEq, Eq)]
pub enum TypeName_ {
    Builtin(BuiltinTypeName),
    ModuleType(ModuleIdent, StructName),
}

/// The model of a [`TypeName_`].
pub enum SpecTypeName_ {
    Builtin(BuiltinTypeName),
    ModuleType(SpecModuleIdent, SpecName),
}

impl View for TypeName_ {
    type V = SpecTypeName_;

    open spec fn view(&self) -> SpecTypeName_ {
        match self {
            TypeName_::Builtin(b) => SpecTypeName_::Builtin(*b),
            TypeName_::ModuleType(m, s) => SpecTypeName_::ModuleType(m@, s@),
        }
    }
}

/// The name of a type with the place where it is written.
#[derive(Clone, Debug, PartialEq, Eq)]
pub struct TypeName {
    pub loc: Loc,
    pub value: TypeName_,
}

/// The model of a [`TypeName`].
pub struct SpecTypeName {
    pub loc: Loc,
    pub value: SpecTypeName_,
}

impl View for TypeName {
    type V = SpecTypeName;

    open spec fn view(&self) -> SpecTypeName {
        SpecTypeName { loc: self.loc, value: self.value@ }
    }
}

impl TypeName {
    /// A fresh copy of the type name.
    pub fn duplicate(&self) -> (r: TypeName)
        ensures
            r@ == self@,
    {
        let value = match &self.value {
            TypeName_::Builtin(b) => TypeName_::Builtin(*b),
            TypeName_::ModuleType(m, s) => TypeName_::ModuleType(m.duplicate(), s.duplicate()),
        };
        TypeName { loc: self.loc, value }
    }
}

/// A unification variable: a type that inference had yet to find.
#[derive(Clone, Copy, Debug, PartialEq, Eq, Structural)]
pub struct TVar(pub u64);

/// A type that is no reference and no tuple.
#[derive(Debug, PartialEq, Eq)]
pub enum BaseType_ {
    /// A type parameter; its kind is the declared one.
    Param(TParam),
    /// A type constructor applied to arguments; the kind is filled in once.
    Apply(Option<Kind>, TypeName, Vec<BaseType>),
    /// A unification variable.
    Var(TVar),
    /// Any type at all: what a diverging expression has.
    Anything,
}

/// A base type with the place where it is written.
#[derive(Debug, PartialEq, Eq)]
pub struct BaseType {
    pub loc: Loc,
    pub value: BaseType_,
}

/// The model of a [`BaseType_`].
pub enum SpecBaseType_ {
    Param(SpecTParam),
    Apply(Option<Kind>, SpecTypeName, Seq<SpecBaseType>),
    Var(TVar),
    Anything,
}

/// The model of a [`BaseType`].
pub struct SpecBaseType {
    pub loc: Loc,
    pub value: SpecBaseType_,
}

/// The models of a sequence of base types, one for one.
pub open spec fn base_type_models(bs: Seq<BaseType>) -> Seq<SpecBaseType>
    decreases bs,
{
    Seq::new(bs.len(), |i: int| if 0 <= i < bs.len() { bs[i].model() } else { arbitrary() })
}

impl BaseType_ {
    /// The model of this value.
    pub open spec fn model(self) -> SpecBaseType_
        decreases self,
    {
        match self {
            BaseType_::Param(tp) => SpecBaseType_::Param(tp@),
            BaseType_::Apply(k, n, args) => SpecBaseType_::Apply(k, n@, base_type_models(args@)),
            BaseType_::Var(v) => SpecBaseType_::Var(v),
            BaseType_::Anything => SpecBaseType_::Anything,
        }
    }
}

impl BaseType {
    /// The model of this value.
    pub open spec fn model(self) -> SpecBaseType
        decreases self,
    {
        SpecBaseType { loc: self.loc, value: self.value.model() }
    }
}

impl View for BaseType_ {
    type V = SpecBaseType_;

    open spec fn view(&self) -> SpecBaseType_ {
        self.model()
    }
}

impl View for BaseType {
    type V = SpecBaseType;

    open spec fn view(&self) -> SpecBaseType {
        self.model()
    }
}

impl BaseType_ {
    /// The base type of a diverging expression.
    pub fn anything(loc: Loc) -> (r: BaseType)
        ensures
            r@ == SpecBaseType_::anything(loc),
    {
        BaseType { loc, value: BaseType_::Anything }
    }

    /// The builtin that this type applies, if it applies one.
    pub fn builtin_name(&self) -> (r: Option<BuiltinTypeName>)
        ensures
            r == self@.builtin_name(),
    {
        match self {
            BaseType_::Apply(_, n, _) => match &n.value {
                TypeName_::Builtin(b) => Some(*b),
                TypeName_::ModuleType(_, _) => None,
            },
            _ => None,
        }
    }
}

impl SpecBaseType_ {
    /// The base type of a diverging expression, placed at `loc`.
    pub open spec fn anything(loc: Loc) -> SpecBaseType {
        SpecBaseType { loc, value: SpecBaseType_::Anything }
    }

    /// The builtin that this type applies, if it applies one.
    pub open spec fn builtin_name(self) -> Option<BuiltinTypeName> {
        match self {
            SpecBaseType_::Apply(_, n, _) => match n.value {
                SpecTypeName_::Builtin(b) => Some(b),
                SpecTypeName_::ModuleType(_, _) => None,
            },
            _ => None,
        }
    }
}

impl BaseType {
    /// A fresh copy of the whole type.
    pub fn duplicate(&self) -> (r: BaseType)
        ensures
            r@ == self@,
        decreases self,
    {
        let value = match &self.value {
            BaseType_::Param(tp) => BaseType_::Param(tp.duplicate()),
            BaseType_::Apply(k, n, args) => BaseType_::Apply(
                *k,
                n.duplicate(),
                duplicate_base_types(args),
            ),
            BaseType_::Var(v) => BaseType_::Var(*v),
            BaseType_::Anything => BaseType_::Anything,
        };
        BaseType { loc: self.loc, value }
    }
}

/// Fresh copies of all the base types of a list.
pub fn duplicate_base_types(bs: &Vec<BaseType>) -> (r: Vec<BaseType>)
    ensures
        base_type_models(r@) == base_type_models(bs@),
    decreases bs,
{
    let mut copies: Vec<BaseType> = Vec::new();
    let mut i: usize = 0;
    while i < bs.len()
        invariant
            i <= bs.len(),
            copies@.len() == i,
            forall|j: int| 0 <= j < i ==> (#[trigger] copies@[j])@ == bs@[j]@,
        decreases bs.len() - i,
    {
        copies.push(bs[i].duplicate());
        i = i + 1;
    }
    proof {
        assert(base_type_models(copies@) =~= base_type_models(bs@));
    }
    copies
}

/// The type of one value: a base type or a reference to one.
#[derive(Debug, PartialEq, Eq)]
pub enum SingleType_ {
    Base(BaseType),
    /// A reference, mutable where the flag is set.
    Ref(bool, BaseType),
}

/// A single type with the place where it is written.
#[derive(Debug, PartialEq, Eq)]
pub struct SingleType {
    pub loc: Loc,
    pub value: SingleType_,
}

/// The model of a [`SingleType_`].
pub enum SpecSingleType_ {
    Base(SpecBaseType),
    Ref(bool, SpecBaseType),
}

/// The model of a [`SingleType`].
pub struct SpecSingleType {
    pub loc: Loc,
    pub value: SpecSingleType_,
}

impl View for SingleType_ {
    type V = SpecSingleType_;

    open spec fn view(&self) -> SpecSingleType_ {
        match self {
            SingleType_::Base(b) => SpecSingleType_::Base(b@),
            SingleType_::Ref(m, b) => SpecSingleType_::Ref(*m, b@),
        }
    }
}

impl View for SingleType {
    type V = SpecSingleType;

    open spec fn view(&self) -> SpecSingleType {
        SpecSingleType { loc: self.loc, value: self.value@ }
    }
}

/// The models of a sequence of single types, one for one.
pub open spec fn single_type_models(ss: Seq<SingleType>) -> Seq<SpecSingleType> {
    Seq::new(ss.len(), |i: int| ss[i]@)
}

/// The model of a single type that may be missing.
pub open spec fn expected_type_model(s: Option<SingleType>) -> Option<SpecSingleType> {
    match s {
        Some(st) => Some(st@),
        None => None,
    }
}

/// The models of a sequence of single types that may be missing, one for one.
pub open spec fn expected_type_models(ss: Seq<Option<SingleType>>) -> Seq<Option<SpecSingleType>> {
    Seq::new(ss.len(), |i: int| expected_type_model(ss[i]))
}

impl SingleType_ {
    /// The single type of a diverging expression.
    pub fn anything(loc: Loc) -> (r: SingleType)
        ensures
            r@ == SpecSingleType_::anything(loc),
    {
        SingleType { loc, value: SingleType_::Base(BaseType_::anything(loc)) }
    }

    /// The builtin that this type applies, if it is no reference and applies one.
    pub fn builtin_name(&self) -> (r: Option<BuiltinTypeName>)
        ensures
            r == self@.builtin_name(),
    {
        match self {
            SingleType_::Ref(_, _) => None,
            SingleType_::Base(b) => b.value.builtin_name(),
        }
    }
}

impl SpecSingleType_ {
    /// The single type of a diverging expression, placed at `loc`.
    pub open spec fn anything(loc: Loc) -> SpecSingleType {
        SpecSingleType { loc, value: SpecSingleType_::Base(SpecBaseType_::anything(loc)) }
    }

    /// The builtin that this type applies, if it is no reference and applies one.
    pub open spec fn builtin_name(self) -> Option<BuiltinTypeName> {
        match self {
            SpecSingleType_::Ref(_, _) => None,
            SpecSingleType_::Base(b) => b.value.builtin_name(),
        }
    }
}

/// The type of an expression: nothing, one value, or several.
#[derive(Debug, PartialEq, Eq)]
pub enum Type_ {
    Unit,
    Single(SingleType),
    Multiple(Vec<SingleType>),
}

/// A type with the place where it is written.
#[derive(Debug, PartialEq, Eq)]
pub struct Type {
    pub loc: Loc,
    pub value: Type_,
}

/// The model of a [`Type_`].
pub enum SpecType_ {
    Unit,
    Single(SpecSingleType),
    Multiple(Seq<SpecSingleType>),
}

/// The model of a [`Type`].
pub struct SpecType {
    pub loc: Loc,
    pub value: SpecType_,
}

impl View for Type_ {
    type V = SpecType_;

    open spec fn view(&self) -> SpecType_ {
        match self {
            Type_::Unit => SpecType_::Unit,
            Type_::Single(s) => SpecType_::Single(s@),
            Type_::Multiple(ss) => SpecType_::Multiple(single_type_models(ss@)),
        }
    }
}

impl View for Type {
    type V = SpecType;

    open spec fn view(&self) -> SpecType {
        SpecType { loc: self.loc, value: self.value@ }
    }
}

impl Type_ {
    /// The type of a diverging expression.
    pub fn anything(loc: Loc) -> (r: Type)
        ensures
            r@ == SpecType_::anything(loc),
    {
        Type { loc, value: Type_::Single(SingleType_::anything(loc)) }
    }

    /// The builtin that this type applies, if it is a single type that does.
    pub fn builtin_name(&self) -> (r: Option<BuiltinTypeName>)
        ensures
            r == self@.builtin_name(),
    {
        match self {
            Type_::Single(s) => s.value.builtin_name(),
            _ => None,
        }
    }

    /// Whether this is the type of a diverging expression, wherever it was written.
    pub fn is_anything(&self) -> (r: bool)
        ensures
            r == self@.is_anything(),
    {
        match self {
            Type_::Single(s) => match &s.value {
                SingleType_::Base(b) => match &b.value {
                    BaseType_::Anything => true,
                    _ => false,
                },
                _ => false,
            },
            _ => false,
        }
    }
}

impl SpecType_ {
    /// The type of a diverging expression, placed at `loc`.
    pub open spec fn anything(loc: Loc) -> SpecType {
        SpecType { loc, value: SpecType_::Single(SpecSingleType_::anything(loc)) }
    }

    /// The builtin that this type applies, if it is a single type that does.
    pub open spec fn builtin_name(self) -> Option<BuiltinTypeName> {
        match self {
            SpecType_::Single(s) => s.value.builtin_name(),
            _ => None,
        }
    }

    /// Whether this is the type of a diverging expression, wherever it was written.
    pub open spec fn is_anything(self) -> bool {
        match self {
            SpecType_::Single(s) => match s.value {
                SpecSingleType_::Base(b) => b.value is Anything,
                _ => false,
            },
            _ => false,
        }
    }
}

/// A declared parameter of a function: its name and its type.
#[derive(Debug, PartialEq, Eq)]
pub struct Parameter {
    pub var: Var,
    pub ty: SingleType,
}

/// The model of a [`Parameter`].
pub struct SpecParameter {
    pub var: SpecName,
    pub ty: SpecSingleType,
}

impl View for Parameter {
    type V = SpecParameter;

    open spec fn view(&self) -> SpecParameter {
        SpecParameter { var: self.var@, ty: self.ty@ }
    }
}

/// The models of a parameter list, one for one.
pub open spec fn parameter_models(ps: Seq<Parameter>) -> Seq<SpecParameter> {
    Seq::new(ps.len(), |i: int| ps[i]@)
}

/// The models of a list of type parameters, one for one.
pub open spec fn tparam_models(ts: Seq<TParam>) -> Seq<SpecTParam> {
    Seq::new(ts.len(), |i: int| ts[i]@)
}

/// What a function declares of its type parameters, parameters and result.
#[derive(Debug, PartialEq, Eq)]
pub struct FunctionSignature {
    pub type_parameters: Vec<TParam>,
    pub parameters: Vec<Parameter>,
    pub return_type: Type,
}

/// The model of a [`FunctionSignature`].
pub struct SpecFunctionSignature {
    pub type_parameters: Seq<SpecTParam>,
    pub parameters: Seq<SpecParameter>,
    pub return_type: SpecType,
}

impl View for FunctionSignature {
    type V = SpecFunctionSignature;

    open spec fn view(&self) -> SpecFunctionSignature {
        SpecFunctionSignature {
            type_parameters: tparam_models(self.type_parameters@),
            parameters: parameter_models(self.parameters@),
            return_type: self.return_type@,
        }
    }
}

} // verus!
