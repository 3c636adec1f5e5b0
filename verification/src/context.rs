//! What inference hands over: the substitution that solves the unification
//! variables, the declared structs from which kinds are read, and the list of
//! diagnostics that grows while a function is expanded.
use crate::types::{
    base_type_models, BaseType, BaseType_, Kind, Kind_, Loc, ModuleIdent, SpecBaseType,
    SpecBaseType_, SpecModuleIdent, SpecName, SpecTypeName, SpecTypeName_, StructName, TVar,
    TypeName, TypeName_,
};
use std::collections::HashMap;
use vstd::prelude::*;

verus! {

broadcast use vstd::std_specs::hash::group_hash_axioms;

/// A broken promise of an earlier stage. Expansion stops at the first one.
#[derive(Clone, Copy, Debug, PartialEq, Eq, Structural)]
pub enum InvariantViolation {
    /// The substitution leads from a variable back to a variable without end.
    UnresolvableVariable,
    /// A kind was asked of a type that still holds a variable or lacks its kind.
    UnexpandedType,
    /// An applied type has no kind: its struct is not declared, or an argument has no kind.
    UnclassifiableType,
    /// A variable is used at the unit type or at a tuple type.
    VariableNotSingle,
    /// A number literal whose type is not one of the unsigned integers.
    LiteralNotNumeric,
}

/// One reported problem: messages, each with the place it speaks of.
pub type Error = Vec<(Loc, String)>;

/// All that was reported, oldest first.
pub type Errors = Vec<Error>;

/// The model of one reported problem.
pub type SpecError = Seq<(Loc, Seq<char>)>;

/// The model of one reported problem: each message as the text it holds.
pub open spec fn error_model(e: Error) -> SpecError {
    Seq::new(e@.len(), |i: int| (e@[i].0, e@[i].1@))
}

/// The models of the reported problems, one for one.
pub open spec fn errors_model(es: Seq<Error>) -> Seq<SpecError> {
    Seq::new(es.len(), |i: int| error_model(es[i]))
}

/// What the declaration of a struct says of its kind.
#[derive(Clone, Debug, PartialEq, Eq)]
pub struct StructDefinition {
    pub module: ModuleIdent,
    pub name: StructName,
    /// Where the struct is declared a resource, if it is.
    pub resource_opt: Option<Loc>,
}

/// The model of a [`StructDefinition`].
pub struct SpecStructDefinition {
    pub module: SpecModuleIdent,
    pub name: SpecName,
    pub resource_opt: Option<Loc>,
}

impl View for StructDefinition {
    type V = SpecStructDefinition;

    open spec fn view(&self) -> SpecStructDefinition {
        SpecStructDefinition {
            module: self.module@,
            name: self.name@,
            resource_opt: self.resource_opt,
        }
    }
}

/// The models of the declarations, one for one.
pub open spec fn struct_models(ds: Seq<StructDefinition>) -> Seq<SpecStructDefinition> {
    Seq::new(ds.len(), |i: int| ds[i]@)
}

impl SpecStructDefinition {
    /// Whether this is the declaration of struct `n` of module `m`. Places do not count.
    pub open spec fn declares(self, m: SpecModuleIdent, n: SpecName) -> bool {
        self.module.address == m.address && self.module.name == m.name && self.name.value
            == n.value
    }
}

impl StructDefinition {
    /// Whether this is the declaration of struct `n` of module `m`.
    pub fn declares(&self, m: &ModuleIdent, n: &StructName) -> (r: bool)
        ensures
            r == self@.declares(m@, n@),
    {
        self.module.address == m.address && self.module.name == m.name && self.name.value
            == n.value
    }
}

/// The first declaration of struct `n` of module `m` in the list.
pub open spec fn find_struct(
    structs: Seq<SpecStructDefinition>,
    m: SpecModuleIdent,
    n: SpecName,
) -> Option<SpecStructDefinition>
    decreases structs.len(),
{
    if structs.len() == 0 {
        None
    } else if structs[0].declares(m, n) {
        Some(structs[0])
    } else {
        find_struct(structs.drop_first(), m, n)
    }
}

/// The solution of inference: the type found for each unification variable.
#[derive(Debug)]
pub struct Subst {
    pub tvars: HashMap<u64, BaseType>,
}

impl View for Subst {
    type V = Map<u64, SpecBaseType>;

    open spec fn view(&self) -> Map<u64, SpecBaseType> {
        Map::new(|k: u64| self.tvars@.contains_key(k), |k: u64| self.tvars@[k]@)
    }
}

impl Subst {
    /// The substitution that binds no variable.
    pub fn new() -> (r: Subst)
        ensures
            r@ == Map::<u64, SpecBaseType>::empty(),
    {
        let r = Subst { tvars: HashMap::new() };
        assert(r@ =~= Map::<u64, SpecBaseType>::empty());
        r
    }

    /// Binds a variable to a type. An earlier binding of the variable is dropped.
    pub fn insert(&mut self, tvar: TVar, bt: BaseType)
        ensures
            final(self)@ == old(self)@.insert(tvar.0, bt@),
    {
        self.tvars.insert(tvar.0, bt);
        assert(self@ =~= old(self)@.insert(tvar.0, bt@));
    }

    /// The type that a variable is bound to, if it is bound.
    pub fn get(&self, tvar: TVar) -> (r: Option<&BaseType>)
        ensures
            match r {
                Some(bt) => self@.contains_key(tvar.0) && bt@ == self@[tvar.0],
                None => !self@.contains_key(tvar.0),
            },
    {
        self.tvars.get(&tvar.0)
    }

    /// No substitution binds more than finitely many variables.
    pub proof fn lemma_bindings_are_finite(&self)
        ensures
            self@.dom().finite(),
    {
        assert(self@.dom() =~= self.tvars@.dom());
    }

    /// The number of variables that are bound.
    pub fn len(&self) -> (r: usize)
        ensures
            r == self@.dom().len(),
    {
        assert(self@.dom() =~= self.tvars@.dom());
        self.tvars.len()
    }
}

/// The type at the end of the chain of variables that starts at `tvar`: the
/// first binding that is no variable, or the type of a diverging expression,
/// placed at `loc`, where the chain ends unbound. A chain of more than `hops`
/// bound variables is given up.
pub open spec fn unfold_var(
    subst: Map<u64, SpecBaseType>,
    loc: Loc,
    tvar: TVar,
    hops: nat,
) -> Result<SpecBaseType, InvariantViolation>
    decreases hops,
{
    if !subst.contains_key(tvar.0) {
        Ok(SpecBaseType_::anything(loc))
    } else {
        match subst[tvar.0].value {
            SpecBaseType_::Var(next) => if hops == 0 {
                Err(InvariantViolation::UnresolvableVariable)
            } else {
                unfold_var(subst, loc, next, (hops - 1) as nat)
            },
            _ => Ok(subst[tvar.0]),
        }
    }
}

/// What the substitution makes of a base type at its root. A chain of
/// variables is followed through as many bindings as there are: one that
/// has not ended by then passes some variable twice and never ends.
pub open spec fn unfold_base(subst: Map<u64, SpecBaseType>, bt: SpecBaseType) -> Result<
    SpecBaseType,
    InvariantViolation,
> {
    match bt.value {
        SpecBaseType_::Var(tvar) => unfold_var(subst, bt.loc, tvar, subst.dom().len()),
        _ => Ok(bt),
    }
}

/// Resolves the variable at the root of a base type, if there is one.
pub fn unfold_type_base(subst: &Subst, bt: &BaseType) -> (r: Result<BaseType, InvariantViolation>)
    ensures
        match unfold_base(subst@, bt@) {
            Ok(t) => r is Ok && r->Ok_0@ == t,
            Err(e) => r == Err::<BaseType, InvariantViolation>(e),
        },
        r is Ok ==> !(r->Ok_0@.value is Var),
{
    match &bt.value {
        BaseType_::Var(tvar) => {
            let mut cur: TVar = *tvar;
            let mut hops: usize = subst.len();
            loop
                invariant
                    bt@.value is Var,
                    unfold_base(subst@, bt@) == unfold_var(subst@, bt.loc, cur, hops as nat),
                decreases hops,
            {
                match subst.get(cur) {
                    None => {
                        return Ok(BaseType_::anything(bt.loc));
                    },
                    Some(bound) => match &bound.value {
                        BaseType_::Var(next) => {
                            if hops == 0 {
                                return Err(InvariantViolation::UnresolvableVariable);
                            }
                            cur = *next;
                            hops = hops - 1;
                        },
                        _ => {
                            return Ok(bound.duplicate());
                        },
                    },
                }
            }
        },
        _ => Ok(bt.duplicate()),
    }
}

/// The kind that a base type shows at its root: a type parameter its declared
/// kind, an applied type the kind it carries, the type of a diverging
/// expression the unrestricted kind. A variable shows none, nor does an
/// applied type whose kind is not filled in.
pub open spec fn base_kind(b: SpecBaseType) -> Option<Kind> {
    match b.value {
        SpecBaseType_::Var(_) => None,
        SpecBaseType_::Anything => Some(Kind { loc: b.loc, value: Kind_::Unrestricted }),
        SpecBaseType_::Param(tp) => Some(tp.kind),
        SpecBaseType_::Apply(k, _, _) => k,
    }
}

/// Whether values of this kind must not be copied.
pub open spec fn restricted(k: Option<Kind>) -> bool {
    match k {
        Some(kind) => kind.value == Kind_::Resource || kind.value == Kind_::Affine,
        None => false,
    }
}

/// Whether each of the type arguments shows a kind.
pub open spec fn all_classified(args: Seq<SpecBaseType>) -> bool {
    forall|i: int| 0 <= i < args.len() ==> (#[trigger] base_kind(args[i])) is Some
}

/// Whether one of the type arguments is of a kind that must not be copied.
pub open spec fn owns_restricted(args: Seq<SpecBaseType>) -> bool {
    exists|i: int| 0 <= i < args.len() && restricted(#[trigger] base_kind(args[i]))
}

/// The kind of the type `name` applied to `args`. A builtin is unrestricted.
/// A declared struct is a resource if it is declared one or if an argument
/// must not be copied, and unrestricted otherwise. There is no kind where an
/// argument shows none or the struct is not declared.
pub open spec fn classify(
    structs: Seq<SpecStructDefinition>,
    name: SpecTypeName,
    args: Seq<SpecBaseType>,
) -> Option<Kind> {
    if !all_classified(args) {
        None
    } else {
        match name.value {
            SpecTypeName_::Builtin(b) => Some(Kind { loc: b.loc, value: Kind_::Unrestricted }),
            SpecTypeName_::ModuleType(m, n) => match find_struct(structs, m, n) {
                None => None,
                Some(d) => match d.resource_opt {
                    Some(loc) => Some(Kind { loc, value: Kind_::Resource }),
                    None => Some(
                        Kind {
                            loc: d.name.loc,
                            value: if owns_restricted(args) {
                                Kind_::Resource
                            } else {
                                Kind_::Unrestricted
                            },
                        },
                    ),
                },
            },
        }
    }
}

/// What expansion reads but never changes.
pub struct Env {
    pub subst: Map<u64, SpecBaseType>,
    pub structs: Seq<SpecStructDefinition>,
}

/// The state of one run of expansion.
#[derive(Debug)]
pub struct Context {
    pub subst: Subst,
    pub structs: Vec<StructDefinition>,
    pub errors: Errors,
}

impl Context {
    /// What expansion reads of this state.
    pub open spec fn env(&self) -> Env {
        Env { subst: self.subst@, structs: struct_models(self.structs@) }
    }

    /// The diagnostics reported so far, oldest first.
    pub open spec fn reported(&self) -> Seq<SpecError> {
        errors_model(self.errors@)
    }

    /// The state at the start of a run: nothing is reported yet.
    pub fn new(subst: Subst, structs: Vec<StructDefinition>) -> (r: Context)
        ensures
            r.env() == (Env { subst: subst@, structs: struct_models(structs@) }),
            r.reported() == Seq::<SpecError>::empty(),
    {
        let r = Context { subst, structs, errors: Vec::new() };
        assert(r.reported() =~= Seq::<SpecError>::empty());
        r
    }

    /// Reports one more problem.
    pub fn error(&mut self, e: Error)
        ensures
            final(self).env() == old(self).env(),
            final(self).reported() == old(self).reported().push(error_model(e)),
    {
        self.errors.push(e);
        assert(self.reported() =~= old(self).reported().push(error_model(e)));
    }

    /// The declaration of struct `n` of module `m`, if there is one.
    pub fn struct_definition(&self, m: &ModuleIdent, n: &StructName) -> (r: Option<
        &StructDefinition,
    >)
        ensures
            match r {
                Some(d) => find_struct(self.env().structs, m@, n@) == Some(d@),
                None => find_struct(self.env().structs, m@, n@) is None,
            },
    {
        let ghost all = self.env().structs;
        let mut i: usize = 0;
        assert(all.skip(0) =~= all);
        while i < self.structs.len()
            invariant
                i <= self.structs.len(),
                all == self.env().structs,
                find_struct(all, m@, n@) == find_struct(all.skip(i as int), m@, n@),
            decreases self.structs.len() - i,
        {
            proof {
                assert(all.skip(i as int).drop_first() =~= all.skip(i + 1));
            }
            if self.structs[i].declares(m, n) {
                return Some(&self.structs[i]);
            }
            i = i + 1;
        }
        None
    }
}

/// The kind of an applied type whose arguments all show their kinds.
pub fn infer_kind_base(context: &Context, name: &TypeName, args: &Vec<BaseType>) -> (r: Option<
    Kind,
>)
    ensures
        r == classify(context.env().structs, name@, base_type_models(args@)),
{
    let ghost models = base_type_models(args@);
    let mut owns: bool = false;
    let mut i: usize = 0;
    while i < args.len()
        invariant
            i <= args.len(),
            models == base_type_models(args@),
            forall|j: int| 0 <= j < i ==> (#[trigger] base_kind(models[j])) is Some,
            owns == exists|j: int| 0 <= j < i && restricted(#[trigger] base_kind(models[j])),
        decreases args.len() - i,
    {
        let shown = match &args[i].value {
            BaseType_::Var(_) => None,
            BaseType_::Anything => Some(Kind_::Unrestricted),
            BaseType_::Param(tp) => Some(tp.kind.value),
            BaseType_::Apply(k, _, _) => match k {
                Some(kind) => Some(kind.value),
                None => None,
            },
        };
        assert(models[i as int] == args@[i as int]@);
        assert(match shown {
            Some(k) => base_kind(models[i as int]) is Some && base_kind(models[i as int])->0.value
                == k,
            None => base_kind(models[i as int]) is None,
        });
        match shown {
            None => {
                return None;
            },
            Some(k) => {
                if k == Kind_::Resource || k == Kind_::Affine {
                    owns = true;
                }
            },
        }
        assert(owns == (exists|j: int|
            0 <= j < i + 1 && restricted(#[trigger] base_kind(models[j])))) by {
            if restricted(base_kind(models[i as int])) {
            } else if owns {
                let j = choose|j: int| 0 <= j < i && restricted(#[trigger] base_kind(models[j]));
                assert(0 <= j < i + 1 && restricted(base_kind(models[j])));
            } else {
                assert forall|j: int| 0 <= j < i + 1 implies !restricted(
                    #[trigger] base_kind(models[j]),
                ) by {
                    if j < i {
                    }
                }
            }
        }
        i = i + 1;
    }
    assert(owns == owns_restricted(models));
    match &name.value {
        TypeName_::Builtin(b) => Some(Kind { loc: b.loc, value: Kind_::Unrestricted }),
        TypeName_::ModuleType(m, n) => match context.struct_definition(m, n) {
            None => None,
            Some(d) => match d.resource_opt {
                Some(loc) => Some(Kind { loc, value: Kind_::Resource }),
                None => Some(
                    Kind {
                        loc: d.name.loc,
                        value: if owns {
                            Kind_::Resource
                        } else {
                            Kind_::Unrestricted
                        },
                    },
                ),
            },
        },
    }
}

} // verus!
