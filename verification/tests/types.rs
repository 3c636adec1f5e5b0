use type_expansion::context::{Context, InvariantViolation, StructDefinition, Subst};
use type_expansion::expand::{
    base_type, base_types, expected_types, function_signature, get_kind, get_kind_base,
    single_type, single_types, type_,
};
use type_expansion::types::{
    BaseType, BaseType_, BuiltinTypeName, BuiltinTypeName_, FunctionSignature, Kind, Kind_, Loc,
    ModuleIdent, Name, Parameter, SingleType, SingleType_, TParam, TVar, Type, TypeName,
    TypeName_, Type_,
};

fn at(n: u32) -> Loc {
    Loc { file: 1, start: n, end: n + 2 }
}

fn name(n: u32, s: &str) -> Name {
    Name { loc: at(n), value: s.to_string() }
}

fn module(n: u32) -> ModuleIdent {
    ModuleIdent { loc: at(n), address: 1, name: "Bank".to_string() }
}

fn kind(n: u32, k: Kind_) -> Kind {
    Kind { loc: at(n), value: k }
}

fn var(n: u32, id: u64) -> BaseType {
    BaseType { loc: at(n), value: BaseType_::Var(TVar(id)) }
}

fn anything(n: u32) -> BaseType {
    BaseType { loc: at(n), value: BaseType_::Anything }
}

fn param(n: u32, k: Kind_) -> BaseType {
    let tp = TParam { debug: name(n, "T"), id: 9, kind: kind(n, k) };
    BaseType { loc: at(n), value: BaseType_::Param(tp) }
}

fn builtin(n: u32, bt: BuiltinTypeName_, k: Option<Kind>) -> BaseType {
    let tn = TypeName {
        loc: at(n),
        value: TypeName_::Builtin(BuiltinTypeName { loc: at(n + 100), value: bt }),
    };
    BaseType { loc: at(n), value: BaseType_::Apply(k, tn, vec![]) }
}

fn applied(n: u32, s: &str, k: Option<Kind>, args: Vec<BaseType>) -> BaseType {
    let tn = TypeName { loc: at(n), value: TypeName_::ModuleType(module(n), name(n, s)) };
    BaseType { loc: at(n), value: BaseType_::Apply(k, tn, args) }
}

fn base(n: u32, b: BaseType) -> SingleType {
    SingleType { loc: at(n), value: SingleType_::Base(b) }
}

fn reference(n: u32, mutable: bool, b: BaseType) -> SingleType {
    SingleType { loc: at(n), value: SingleType_::Ref(mutable, b) }
}

fn declared() -> Vec<StructDefinition> {
    vec![
        StructDefinition {
            module: module(500),
            name: name(501, "Coin"),
            resource_opt: Some(at(502)),
        },
        StructDefinition { module: module(510), name: name(511, "Pair"), resource_opt: None },
        StructDefinition { module: module(520), name: name(521, "Coin"), resource_opt: None },
    ]
}

fn context(bindings: Vec<(u64, BaseType)>) -> Context {
    let mut subst = Subst::new();
    for (id, bt) in bindings {
        subst.insert(TVar(id), bt);
    }
    Context::new(subst, declared())
}

fn uninferred(n: u32) -> Vec<(Loc, String)> {
    vec![(at(n), "Could not infer this type. Try adding an annotation".to_string())]
}

#[test]
fn bound_variable_is_replaced_by_its_type() {
    let mut context = context(vec![(0, builtin(40, BuiltinTypeName_::U64, None))]);
    let mut bt = var(7, 0);
    assert_eq!(base_type(&mut context, &mut bt), Ok(true));
    assert_eq!(
        bt,
        builtin(40, BuiltinTypeName_::U64, Some(kind(140, Kind_::Unrestricted)))
    );
    assert!(context.errors.is_empty());
}

#[test]
fn chain_of_variables_is_followed_to_its_end() {
    let mut context = context(vec![
        (0, var(10, 1)),
        (1, var(11, 2)),
        (2, builtin(12, BuiltinTypeName_::Bool, None)),
    ]);
    let mut bt = var(7, 0);
    assert_eq!(base_type(&mut context, &mut bt), Ok(true));
    assert_eq!(
        bt,
        builtin(12, BuiltinTypeName_::Bool, Some(kind(112, Kind_::Unrestricted)))
    );
}

#[test]
fn unbound_variable_becomes_anything_and_is_reported() {
    let mut context = context(vec![]);
    let mut bt = var(7, 3);
    assert_eq!(base_type(&mut context, &mut bt), Ok(true));
    assert_eq!(bt, anything(7));
    assert_eq!(context.errors, vec![uninferred(7)]);
}

#[test]
fn chain_that_ends_unbound_is_reported_at_the_first_variable() {
    let mut context = context(vec![(0, var(10, 1))]);
    let mut bt = var(7, 0);
    assert_eq!(base_type(&mut context, &mut bt), Ok(true));
    assert_eq!(bt, anything(7));
    assert_eq!(context.errors, vec![uninferred(7)]);
}

#[test]
fn variable_bound_to_anything_is_reported_and_takes_its_place() {
    let mut context = context(vec![(0, anything(30))]);
    let mut bt = var(7, 0);
    assert_eq!(base_type(&mut context, &mut bt), Ok(true));
    assert_eq!(bt, anything(30));
    assert_eq!(context.errors, vec![uninferred(7)]);
}

#[test]
fn variable_bound_to_a_type_parameter_is_replaced() {
    let mut context = context(vec![(0, param(30, Kind_::Affine))]);
    let mut bt = var(7, 0);
    assert_eq!(base_type(&mut context, &mut bt), Ok(true));
    assert_eq!(bt, param(30, Kind_::Affine));
    assert!(context.errors.is_empty());
}

#[test]
fn circle_of_variables_breaks_off() {
    let mut context = context(vec![(0, var(10, 1)), (1, var(11, 0))]);
    let mut bt = var(7, 0);
    assert_eq!(
        base_type(&mut context, &mut bt),
        Err(InvariantViolation::UnresolvableVariable)
    );
}

#[test]
fn variable_bound_to_itself_breaks_off() {
    let mut context = context(vec![(4, var(10, 4))]);
    let mut bt = var(7, 4);
    assert_eq!(
        base_type(&mut context, &mut bt),
        Err(InvariantViolation::UnresolvableVariable)
    );
}

#[test]
fn type_that_holds_itself_breaks_off() {
    let mut context = context(vec![(0, applied(20, "Pair", None, vec![var(21, 0)]))]);
    let mut bt = var(7, 0);
    assert_eq!(
        base_type(&mut context, &mut bt),
        Err(InvariantViolation::UnresolvableVariable)
    );
}

#[test]
fn nesting_as_deep_as_the_substitution_is_large_is_expanded() {
    let mut context = context(vec![
        (0, applied(20, "Pair", None, vec![var(21, 1)])),
        (1, applied(22, "Pair", None, vec![var(23, 2)])),
        (2, builtin(24, BuiltinTypeName_::U8, None)),
    ]);
    let mut bt = var(7, 0);
    assert_eq!(base_type(&mut context, &mut bt), Ok(true));
    let u8_ = builtin(24, BuiltinTypeName_::U8, Some(kind(124, Kind_::Unrestricted)));
    let inner = applied(22, "Pair", Some(kind(511, Kind_::Unrestricted)), vec![u8_]);
    assert_eq!(bt, applied(20, "Pair", Some(kind(511, Kind_::Unrestricted)), vec![inner]));
}

#[test]
fn applied_type_without_variables_is_not_replaced() {
    let mut context = context(vec![]);
    let mut bt = builtin(5, BuiltinTypeName_::Address, None);
    assert_eq!(base_type(&mut context, &mut bt), Ok(false));
    assert_eq!(
        bt,
        builtin(5, BuiltinTypeName_::Address, Some(kind(105, Kind_::Unrestricted)))
    );
}

#[test]
fn struct_declared_a_resource_is_a_resource() {
    let mut context = context(vec![]);
    let mut bt = applied(5, "Coin", None, vec![]);
    assert_eq!(base_type(&mut context, &mut bt), Ok(false));
    assert_eq!(bt, applied(5, "Coin", Some(kind(502, Kind_::Resource)), vec![]));
}

#[test]
fn struct_that_owns_a_resource_is_a_resource() {
    let mut context = context(vec![]);
    let mut bt = applied(5, "Pair", None, vec![applied(6, "Coin", None, vec![])]);
    assert_eq!(base_type(&mut context, &mut bt), Ok(false));
    let coin = applied(6, "Coin", Some(kind(502, Kind_::Resource)), vec![]);
    assert_eq!(bt, applied(5, "Pair", Some(kind(511, Kind_::Resource)), vec![coin]));
}

#[test]
fn struct_that_owns_an_affine_parameter_is_a_resource() {
    let mut context = context(vec![]);
    let mut bt = applied(5, "Pair", None, vec![param(6, Kind_::Affine)]);
    assert_eq!(base_type(&mut context, &mut bt), Ok(false));
    assert_eq!(
        bt,
        applied(5, "Pair", Some(kind(511, Kind_::Resource)), vec![param(6, Kind_::Affine)])
    );
}

#[test]
fn struct_of_unrestricted_arguments_is_unrestricted() {
    let mut context = context(vec![(0, builtin(30, BuiltinTypeName_::U64, None))]);
    let mut bt = applied(5, "Pair", None, vec![var(6, 0), param(8, Kind_::Unrestricted)]);
    assert_eq!(base_type(&mut context, &mut bt), Ok(false));
    let u64_ = builtin(30, BuiltinTypeName_::U64, Some(kind(130, Kind_::Unrestricted)));
    assert_eq!(
        bt,
        applied(
            5,
            "Pair",
            Some(kind(511, Kind_::Unrestricted)),
            vec![u64_, param(8, Kind_::Unrestricted)]
        )
    );
}

#[test]
fn argument_left_unsolved_does_not_restrict_the_struct() {
    let mut context = context(vec![]);
    let mut bt = applied(5, "Pair", None, vec![var(6, 0)]);
    assert_eq!(base_type(&mut context, &mut bt), Ok(false));
    assert_eq!(bt, applied(5, "Pair", Some(kind(511, Kind_::Unrestricted)), vec![anything(6)]));
    assert_eq!(context.errors, vec![uninferred(6)]);
}

#[test]
fn kind_that_is_set_is_kept() {
    let mut context = context(vec![]);
    let mut bt = applied(5, "Coin", Some(kind(77, Kind_::Affine)), vec![var(6, 0)]);
    assert_eq!(base_type(&mut context, &mut bt), Ok(false));
    assert_eq!(bt, applied(5, "Coin", Some(kind(77, Kind_::Affine)), vec![anything(6)]));
}

#[test]
fn struct_that_is_not_declared_has_no_kind() {
    let mut context = context(vec![]);
    let mut bt = applied(5, "Vault", None, vec![]);
    assert_eq!(
        base_type(&mut context, &mut bt),
        Err(InvariantViolation::UnclassifiableType)
    );
}

#[test]
fn struct_of_another_module_is_not_found() {
    let mut context = context(vec![]);
    let tn = TypeName {
        loc: at(5),
        value: TypeName_::ModuleType(
            ModuleIdent { loc: at(5), address: 2, name: "Bank".to_string() },
            name(5, "Coin"),
        ),
    };
    let mut bt = BaseType { loc: at(5), value: BaseType_::Apply(None, tn, vec![]) };
    assert_eq!(
        base_type(&mut context, &mut bt),
        Err(InvariantViolation::UnclassifiableType)
    );
}

#[test]
fn first_declaration_of_a_struct_counts() {
    let mut context = context(vec![]);
    let mut bt = applied(5, "Coin", None, vec![]);
    assert_eq!(base_type(&mut context, &mut bt), Ok(false));
    assert_eq!(get_kind_base(&bt), Ok(kind(502, Kind_::Resource)));
}

#[test]
fn parameter_and_anything_stay_as_they_are() {
    let mut context = context(vec![]);
    let mut p = param(5, Kind_::Unknown);
    assert_eq!(base_type(&mut context, &mut p), Ok(false));
    assert_eq!(p, param(5, Kind_::Unknown));
    let mut a = anything(6);
    assert_eq!(base_type(&mut context, &mut a), Ok(false));
    assert_eq!(a, anything(6));
    assert!(context.errors.is_empty());
}

#[test]
fn base_types_are_expanded_first_to_last() {
    let mut context = context(vec![(1, builtin(30, BuiltinTypeName_::U8, None))]);
    let mut bs = vec![var(5, 0), var(6, 1), var(7, 2)];
    assert_eq!(base_types(&mut context, &mut bs), Ok(()));
    assert_eq!(
        bs,
        vec![
            anything(5),
            builtin(30, BuiltinTypeName_::U8, Some(kind(130, Kind_::Unrestricted))),
            anything(7),
        ]
    );
    assert_eq!(context.errors, vec![uninferred(5), uninferred(7)]);
}

#[test]
fn single_type_takes_the_place_of_what_replaced_it() {
    let mut context = context(vec![(0, builtin(30, BuiltinTypeName_::U64, None))]);
    let mut st = base(3, var(4, 0));
    assert_eq!(single_type(&mut context, &mut st), Ok(true));
    assert_eq!(
        st,
        base(30, builtin(30, BuiltinTypeName_::U64, Some(kind(130, Kind_::Unrestricted))))
    );
}

#[test]
fn single_type_that_is_not_replaced_keeps_its_place() {
    let mut context = context(vec![]);
    let mut st = base(3, builtin(4, BuiltinTypeName_::U64, None));
    assert_eq!(single_type(&mut context, &mut st), Ok(false));
    assert_eq!(
        st,
        base(3, builtin(4, BuiltinTypeName_::U64, Some(kind(104, Kind_::Unrestricted))))
    );
}

#[test]
fn reference_is_never_replaced() {
    let mut context = context(vec![(0, applied(30, "Coin", None, vec![]))]);
    let mut st = reference(3, true, var(4, 0));
    assert_eq!(single_type(&mut context, &mut st), Ok(false));
    assert_eq!(
        st,
        reference(3, true, applied(30, "Coin", Some(kind(502, Kind_::Resource)), vec![]))
    );
}

#[test]
fn single_types_are_expanded_first_to_last() {
    let mut context = context(vec![]);
    let mut ss = vec![base(1, var(2, 0)), reference(3, false, var(4, 1))];
    assert_eq!(single_types(&mut context, &mut ss), Ok(()));
    assert_eq!(ss, vec![base(2, anything(2)), reference(3, false, anything(4))]);
    assert_eq!(context.errors, vec![uninferred(2), uninferred(4)]);
}

#[test]
fn expected_types_are_expanded_where_they_are_known() {
    let mut context = context(vec![(0, builtin(30, BuiltinTypeName_::Bool, None))]);
    let mut ss = vec![None, Some(base(1, var(2, 0))), None];
    assert_eq!(expected_types(&mut context, &mut ss), Ok(()));
    assert_eq!(
        ss,
        vec![
            None,
            Some(
                base(30, builtin(30, BuiltinTypeName_::Bool, Some(kind(130, Kind_::Unrestricted)))),
            ),
            None,
        ]
    );
}

#[test]
fn type_takes_the_place_of_what_replaced_it() {
    let mut context = context(vec![(0, builtin(30, BuiltinTypeName_::U64, None))]);
    let mut ty = Type { loc: at(1), value: Type_::Single(base(3, var(4, 0))) };
    assert_eq!(type_(&mut context, &mut ty), Ok(()));
    assert_eq!(
        ty,
        Type {
            loc: at(30),
            value: Type_::Single(base(
                30,
                builtin(30, BuiltinTypeName_::U64, Some(kind(130, Kind_::Unrestricted)))
            )),
        }
    );
}

#[test]
fn unit_and_tuple_types_keep_their_place() {
    let mut context = context(vec![]);
    let mut unit = Type { loc: at(1), value: Type_::Unit };
    assert_eq!(type_(&mut context, &mut unit), Ok(()));
    assert_eq!(unit, Type { loc: at(1), value: Type_::Unit });
    let mut tuple = Type { loc: at(2), value: Type_::Multiple(vec![base(3, var(4, 0))]) };
    assert_eq!(type_(&mut context, &mut tuple), Ok(()));
    assert_eq!(tuple, Type { loc: at(2), value: Type_::Multiple(vec![base(4, anything(4))]) });
}

#[test]
fn kinds_of_expanded_types() {
    assert_eq!(get_kind_base(&anything(3)), Ok(kind(3, Kind_::Unrestricted)));
    assert_eq!(get_kind_base(&param(3, Kind_::Affine)), Ok(kind(3, Kind_::Affine)));
    assert_eq!(
        get_kind_base(&applied(3, "Coin", Some(kind(8, Kind_::Resource)), vec![])),
        Ok(kind(8, Kind_::Resource))
    );
    assert_eq!(
        get_kind(&reference(4, false, applied(3, "Coin", Some(kind(8, Kind_::Resource)), vec![]))),
        Ok(kind(4, Kind_::Unrestricted))
    );
    assert_eq!(get_kind(&base(4, param(3, Kind_::Unknown))), Ok(kind(3, Kind_::Unknown)));
}

#[test]
fn kinds_of_types_that_are_not_expanded() {
    assert_eq!(get_kind_base(&var(3, 0)), Err(InvariantViolation::UnexpandedType));
    assert_eq!(
        get_kind_base(&applied(3, "Coin", None, vec![])),
        Err(InvariantViolation::UnexpandedType)
    );
    assert_eq!(get_kind(&base(4, var(3, 0))), Err(InvariantViolation::UnexpandedType));
    assert_eq!(
        get_kind(&reference(4, true, var(3, 0))),
        Ok(kind(4, Kind_::Unrestricted))
    );
}

#[test]
fn signature_is_expanded_parameters_first() {
    let mut context = context(vec![(0, applied(30, "Coin", None, vec![]))]);
    let mut sig = FunctionSignature {
        type_parameters: vec![TParam { debug: name(1, "T"), id: 9, kind: kind(1, Kind_::Unknown) }],
        parameters: vec![
            Parameter { var: name(2, "a"), ty: base(3, var(4, 0)) },
            Parameter { var: name(5, "b"), ty: reference(6, false, var(7, 1)) },
        ],
        return_type: Type { loc: at(8), value: Type_::Single(base(9, var(10, 2))) },
    };
    assert_eq!(function_signature(&mut context, &mut sig), Ok(()));
    assert_eq!(
        sig.parameters,
        vec![
            Parameter {
                var: name(2, "a"),
                ty: base(30, applied(30, "Coin", Some(kind(502, Kind_::Resource)), vec![])),
            },
            Parameter { var: name(5, "b"), ty: reference(6, false, anything(7)) },
        ]
    );
    assert_eq!(sig.return_type, Type { loc: at(10), value: Type_::Single(base(10, anything(10))) });
    assert_eq!(context.errors, vec![uninferred(7), uninferred(10)]);
    let reported = context.errors.len();
    assert_eq!(function_signature(&mut context, &mut sig), Ok(()));
    assert_eq!(context.errors.len(), reported);
}

#[test]
fn signature_stops_at_a_broken_promise() {
    let mut context = context(vec![(0, var(1, 0))]);
    let mut sig = FunctionSignature {
        type_parameters: vec![],
        parameters: vec![Parameter { var: name(2, "a"), ty: base(3, var(4, 0)) }],
        return_type: Type { loc: at(8), value: Type_::Unit },
    };
    assert_eq!(
        function_signature(&mut context, &mut sig),
        Err(InvariantViolation::UnresolvableVariable)
    );
}
