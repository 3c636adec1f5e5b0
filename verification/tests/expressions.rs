use type_expansion::context::{Context, InvariantViolation, StructDefinition, Subst};
use type_expansion::expand::{
    builtin_function, exp, exp_list, exp_list_item, function_body_, module_call, sequence,
    sequence_item,
};
use type_expansion::syntax::{
    Assign, AssignList, Assign_, BinOp, BinOp_, Bind, BindList, Bind_, BuiltinFunction,
    BuiltinFunction_, Exp, ExpListItem, FunctionBody_, ModuleCall, PackField, SequenceItem,
    SequenceItem_, UnannotatedExp, UnannotatedExp_, UnaryOp, UnaryOp_, Value, Value_,
};
use type_expansion::types::{
    BaseType, BaseType_, BuiltinTypeName, BuiltinTypeName_, Kind, Kind_, Loc, ModuleIdent, Name,
    SingleType, SingleType_, TParam, TVar, Type, TypeName, TypeName_, Type_,
};
use type_expansion::use_rewriter::use_exp;

fn at(n: u32) -> Loc {
    Loc { file: 3, start: n, end: n + 1 }
}

fn name(n: u32, s: &str) -> Name {
    Name { loc: at(n), value: s.to_string() }
}

fn module(n: u32) -> ModuleIdent {
    ModuleIdent { loc: at(n), address: 1, name: "Bank".to_string() }
}

fn kind(n: u32, k: Kind_) -> Kind {
    Kind { loc: at(n), value: k }
}

fn var(n: u32, id: u64) -> BaseType {
    BaseType { loc: at(n), value: BaseType_::Var(TVar(id)) }
}

fn anything(n: u32) -> BaseType {
    BaseType { loc: at(n), value: BaseType_::Anything }
}

fn param(n: u32, k: Kind_) -> BaseType {
    let tp = TParam { debug: name(n, "T"), id: 9, kind: kind(n, k) };
    BaseType { loc: at(n), value: BaseType_::Param(tp) }
}

fn builtin(n: u32, bt: BuiltinTypeName_, expanded: bool) -> BaseType {
    let tn = TypeName {
        loc: at(n),
        value: TypeName_::Builtin(BuiltinTypeName { loc: at(n), value: bt }),
    };
    let k = if expanded { Some(kind(n, Kind_::Unrestricted)) } else { None };
    BaseType { loc: at(n), value: BaseType_::Apply(k, tn, vec![]) }
}

fn coin(n: u32, expanded: bool) -> BaseType {
    let tn = TypeName { loc: at(n), value: TypeName_::ModuleType(module(n), name(n, "Coin")) };
    let k = if expanded { Some(kind(902, Kind_::Resource)) } else { None };
    BaseType { loc: at(n), value: BaseType_::Apply(k, tn, vec![]) }
}

fn base(n: u32, b: BaseType) -> SingleType {
    SingleType { loc: at(n), value: SingleType_::Base(b) }
}

fn reference(n: u32, b: BaseType) -> SingleType {
    SingleType { loc: at(n), value: SingleType_::Ref(false, b) }
}

fn single(n: u32, s: SingleType) -> Type {
    Type { loc: at(n), value: Type_::Single(s) }
}

fn unit(n: u32) -> Type {
    Type { loc: at(n), value: Type_::Unit }
}

fn e(ty: Type, n: u32, value: UnannotatedExp_) -> Exp {
    Exp { ty, exp: UnannotatedExp { loc: at(n), value } }
}

fn unit_exp(n: u32) -> Exp {
    e(unit(n), n, UnannotatedExp_::Unit)
}

/// A use of `x` at a type that inference left to variable `id`.
fn use_at(n: u32, id: u64) -> Exp {
    e(single(n, base(n, var(n, id))), n, UnannotatedExp_::Use(name(n, "x")))
}

fn copied(n: u32, to: u32) -> Exp {
    let ty = single(to, base(to, builtin(to, BuiltinTypeName_::U64, true)));
    e(ty, n, UnannotatedExp_::Copy { from_user: false, var: name(n, "x") })
}

fn moved(n: u32, to: u32) -> Exp {
    let ty = single(to, base(to, coin(to, true)));
    e(ty, n, UnannotatedExp_::Move { from_user: false, var: name(n, "x") })
}

/// Variable 0 is a `u64`, variable 1 is the resource `Coin`, variable 2 runs
/// in a circle, and every other variable is unsolved.
fn context() -> Context {
    let mut subst = Subst::new();
    subst.insert(TVar(0), builtin(800, BuiltinTypeName_::U64, false));
    subst.insert(TVar(1), coin(801, false));
    subst.insert(TVar(2), var(802, 2));
    let structs = vec![StructDefinition {
        module: module(900),
        name: name(901, "Coin"),
        resource_opt: Some(at(902)),
    }];
    Context::new(subst, structs)
}

fn uninferred(n: u32) -> Vec<(Loc, String)> {
    vec![(at(n), "Could not infer this type. Try adding an annotation".to_string())]
}

#[test]
fn use_of_an_integer_becomes_a_copy() {
    let mut context = context();
    let mut x = use_at(5, 0);
    assert_eq!(exp(&mut context, &mut x), Ok(()));
    assert_eq!(x, copied(5, 800));
    assert!(context.errors.is_empty());
}

#[test]
fn use_of_a_resource_becomes_a_move() {
    let mut context = context();
    let mut x = use_at(5, 1);
    assert_eq!(exp(&mut context, &mut x), Ok(()));
    assert_eq!(x, moved(5, 801));
    assert!(context.errors.is_empty());
}

#[test]
fn use_of_a_reference_to_a_resource_becomes_a_copy() {
    let mut context = context();
    let mut x = e(single(4, reference(5, var(6, 1))), 7, UnannotatedExp_::Use(name(8, "r")));
    assert_eq!(exp(&mut context, &mut x), Ok(()));
    assert_eq!(
        x,
        e(
            single(4, reference(5, coin(801, true))),
            7,
            UnannotatedExp_::Copy { from_user: false, var: name(8, "r") }
        )
    );
}

#[test]
fn use_is_decided_by_the_kind_alone() {
    for (k, copy) in [
        (Kind_::Unrestricted, true),
        (Kind_::Affine, false),
        (Kind_::Resource, false),
        (Kind_::Unknown, false),
    ] {
        let mut context = context();
        let ty = single(4, base(5, param(6, k)));
        let mut x = e(ty, 7, UnannotatedExp_::Use(name(8, "p")));
        assert_eq!(exp(&mut context, &mut x), Ok(()));
        let expected = if copy {
            UnannotatedExp_::Copy { from_user: false, var: name(8, "p") }
        } else {
            UnannotatedExp_::Move { from_user: false, var: name(8, "p") }
        };
        assert_eq!(x.exp.value, expected);
    }
}

#[test]
fn use_at_an_unsolved_type_becomes_a_copy() {
    let mut context = context();
    let mut x = use_at(5, 77);
    assert_eq!(exp(&mut context, &mut x), Ok(()));
    assert_eq!(
        x,
        e(
            single(5, base(5, anything(5))),
            5,
            UnannotatedExp_::Copy { from_user: false, var: name(5, "x") }
        )
    );
    assert_eq!(context.errors, vec![uninferred(5)]);
}

#[test]
fn use_at_a_type_that_is_not_single_breaks_a_promise() {
    let mut context = context();
    let mut x = e(unit(4), 7, UnannotatedExp_::Use(name(8, "x")));
    assert_eq!(exp(&mut context, &mut x), Err(InvariantViolation::VariableNotSingle));
    let tuple = Type { loc: at(4), value: Type_::Multiple(vec![base(5, var(6, 0))]) };
    let mut y = e(tuple, 7, UnannotatedExp_::Use(name(8, "x")));
    assert_eq!(exp(&mut context, &mut y), Err(InvariantViolation::VariableNotSingle));
}

#[test]
fn use_rewriter_wants_an_expanded_type() {
    let ty = single(4, base(5, var(6, 0)));
    assert_eq!(use_exp(&ty, &name(8, "x")), Err(InvariantViolation::UnexpandedType));
    let ty = single(4, base(5, coin(6, false)));
    assert_eq!(use_exp(&ty, &name(8, "x")), Err(InvariantViolation::UnexpandedType));
    let ty = single(4, base(5, coin(6, true)));
    assert_eq!(
        use_exp(&ty, &name(8, "x")),
        Ok(UnannotatedExp_::Move { from_user: false, var: name(8, "x") })
    );
}

#[test]
fn expression_that_leaves_its_place_has_its_type_erased() {
    let exits: Vec<fn() -> UnannotatedExp_> = vec![
        || UnannotatedExp_::Break,
        || UnannotatedExp_::Continue,
        || UnannotatedExp_::Return(Box::new(unit_exp(20))),
        || UnannotatedExp_::Abort(Box::new(unit_exp(20))),
    ];
    for exit in exits {
        // a type that inference solved: erased where the solution was written
        let mut context = context();
        let mut x = e(single(4, base(5, var(6, 0))), 7, exit());
        assert_eq!(exp(&mut context, &mut x), Ok(()));
        assert_eq!(x, e(single(800, base(800, anything(800))), 7, exit()));
        assert!(context.errors.is_empty());
        // a type that needs no solving: erased where it stands
        let mut y = e(unit(4), 7, exit());
        assert_eq!(exp(&mut context, &mut y), Ok(()));
        assert_eq!(y, e(single(4, base(4, anything(4))), 7, exit()));
        // a tuple type
        let tuple = Type { loc: at(4), value: Type_::Multiple(vec![base(5, coin(6, false))]) };
        let mut z = e(tuple, 7, exit());
        assert_eq!(exp(&mut context, &mut z), Ok(()));
        assert_eq!(z, e(single(4, base(4, anything(4))), 7, exit()));
        assert!(context.errors.is_empty());
    }
}

#[test]
fn erased_type_is_left_alone_when_seen_again() {
    let mut context = context();
    let ty = Type { loc: at(1), value: Type_::Single(base(2, anything(3))) };
    let mut x = e(ty, 7, UnannotatedExp_::Break);
    assert_eq!(exp(&mut context, &mut x), Ok(()));
    let ty = Type { loc: at(1), value: Type_::Single(base(2, anything(3))) };
    assert_eq!(x, e(ty, 7, UnannotatedExp_::Break));
}

#[test]
fn unsolved_type_of_an_expression_that_leaves_is_still_reported() {
    let mut context = context();
    let mut x = e(single(4, base(5, var(6, 77))), 7, UnannotatedExp_::Continue);
    assert_eq!(exp(&mut context, &mut x), Ok(()));
    assert_eq!(x, e(single(6, base(6, anything(6))), 7, UnannotatedExp_::Continue));
    assert_eq!(context.errors, vec![uninferred(6)]);
}

#[test]
fn expression_inside_a_return_is_expanded() {
    let mut context = context();
    let mut x = e(unit(4), 7, UnannotatedExp_::Return(Box::new(use_at(9, 1))));
    assert_eq!(exp(&mut context, &mut x), Ok(()));
    assert_eq!(
        x,
        e(single(4, base(4, anything(4))), 7, UnannotatedExp_::Return(Box::new(moved(9, 801))))
    );
}

#[test]
fn forms_without_parts_stay_as_they_are() {
    let leaves: Vec<fn() -> UnannotatedExp_> = vec![
        || UnannotatedExp_::Unit,
        || UnannotatedExp_::Value(Value { loc: at(1), value: Value_::Bool(true) }),
        || UnannotatedExp_::Value(Value { loc: at(1), value: Value_::Bytearray(vec![1, 2]) }),
        || UnannotatedExp_::Value(Value { loc: at(1), value: Value_::Address(5) }),
        || UnannotatedExp_::Move { from_user: true, var: name(1, "m") },
        || UnannotatedExp_::Copy { from_user: true, var: name(1, "c") },
        || UnannotatedExp_::BorrowLocal(true, name(1, "b")),
        || UnannotatedExp_::UnresolvedError,
    ];
    for leaf in leaves {
        let mut context = context();
        let mut x = e(single(4, base(5, var(6, 1))), 7, leaf());
        assert_eq!(exp(&mut context, &mut x), Ok(()));
        assert_eq!(x, e(single(801, base(801, coin(801, true))), 7, leaf()));
        assert!(context.errors.is_empty());
    }
}

#[test]
fn forms_with_one_expression_inside_expand_it() {
    let forms: Vec<fn(Exp) -> UnannotatedExp_> = vec![
        |x| UnannotatedExp_::Dereference(Box::new(x)),
        |x| UnannotatedExp_::UnaryExp(UnaryOp { loc: at(1), value: UnaryOp_::Not }, Box::new(x)),
        |x| UnannotatedExp_::Borrow(true, Box::new(x), name(2, "f")),
        |x| UnannotatedExp_::TempBorrow(false, Box::new(x)),
        |x| UnannotatedExp_::Loop { has_break: true, body: Box::new(x) },
    ];
    for form in forms {
        let mut context = context();
        let mut x = e(unit(4), 7, form(use_at(9, 0)));
        assert_eq!(exp(&mut context, &mut x), Ok(()));
        assert_eq!(x, e(unit(4), 7, form(copied(9, 800))));
        let mut bad = e(unit(4), 7, form(use_at(9, 2)));
        assert_eq!(exp(&mut context, &mut bad), Err(InvariantViolation::UnresolvableVariable));
    }
}

#[test]
fn branches_are_expanded_left_to_right() {
    let mut context = context();
    let form = UnannotatedExp_::IfElse(
        Box::new(use_at(10, 70)),
        Box::new(use_at(11, 0)),
        Box::new(use_at(12, 71)),
    );
    let mut x = e(single(1, base(2, var(3, 72))), 7, form);
    assert_eq!(exp(&mut context, &mut x), Ok(()));
    assert_eq!(x.exp.value, UnannotatedExp_::IfElse(
        Box::new(e(
            single(10, base(10, anything(10))),
            10,
            UnannotatedExp_::Copy { from_user: false, var: name(10, "x") }
        )),
        Box::new(copied(11, 800)),
        Box::new(e(
            single(12, base(12, anything(12))),
            12,
            UnannotatedExp_::Copy { from_user: false, var: name(12, "x") }
        )),
    ));
    assert_eq!(context.errors, vec![uninferred(3), uninferred(10), uninferred(12)]);
}

#[test]
fn while_and_mutate_expand_both_sides() {
    let mut context = context();
    let mut w = e(
        unit(1),
        7,
        UnannotatedExp_::While(Box::new(use_at(10, 0)), Box::new(use_at(11, 1))),
    );
    assert_eq!(exp(&mut context, &mut w), Ok(()));
    assert_eq!(
        w,
        e(unit(1), 7, UnannotatedExp_::While(Box::new(copied(10, 800)), Box::new(moved(11, 801))))
    );
    let mut m = e(
        unit(1),
        7,
        UnannotatedExp_::Mutate(Box::new(use_at(10, 1)), Box::new(use_at(11, 0))),
    );
    assert_eq!(exp(&mut context, &mut m), Ok(()));
    assert_eq!(
        m,
        e(unit(1), 7, UnannotatedExp_::Mutate(Box::new(moved(10, 801)), Box::new(copied(11, 800))))
    );
}

#[test]
fn binary_operation_expands_its_operands_then_their_type() {
    let mut context = context();
    let op = BinOp { loc: at(20), value: BinOp_::Add };
    let operand_ty = single(21, base(22, var(23, 73)));
    let form = UnannotatedExp_::BinopExp(
        Box::new(use_at(10, 74)),
        op,
        Box::new(operand_ty),
        Box::new(use_at(11, 75)),
    );
    let mut x = e(unit(1), 7, form);
    assert_eq!(exp(&mut context, &mut x), Ok(()));
    match &x.exp.value {
        UnannotatedExp_::BinopExp(_, _, ty, _) => {
            assert_eq!(**ty, single(23, base(23, anything(23))));
        }
        other => panic!("a binary operation became {:?}", other),
    }
    assert_eq!(context.errors, vec![uninferred(10), uninferred(11), uninferred(23)]);
}

#[test]
fn cast_and_annotation_expand_the_expression_then_the_type() {
    let forms: Vec<fn(Exp, Type) -> UnannotatedExp_> = vec![
        |x, t| UnannotatedExp_::Cast(Box::new(x), Box::new(t)),
        |x, t| UnannotatedExp_::Annotate(Box::new(x), Box::new(t)),
    ];
    for form in forms {
        let mut context = context();
        let mut x = e(unit(1), 7, form(use_at(10, 74), single(21, base(22, var(23, 0)))));
        assert_eq!(exp(&mut context, &mut x), Ok(()));
        let expanded = e(
            single(10, base(10, anything(10))),
            10,
            UnannotatedExp_::Copy { from_user: false, var: name(10, "x") },
        );
        let ty = single(800, base(800, builtin(800, BuiltinTypeName_::U64, true)));
        assert_eq!(x, e(unit(1), 7, form(expanded, ty)));
        assert_eq!(context.errors, vec![uninferred(10)]);
    }
}

fn call(
    type_arguments: Vec<BaseType>,
    arguments: Exp,
    parameter_types: Vec<SingleType>,
) -> ModuleCall {
    ModuleCall {
        module: module(30),
        name: name(31, "deposit"),
        type_arguments,
        arguments: Box::new(arguments),
        parameter_types,
        acquires: vec![name(32, "Coin")],
    }
}

#[test]
fn call_expands_type_arguments_then_argument_then_parameter_types() {
    let mut context = context();
    let mut c = call(vec![var(40, 76)], use_at(41, 77), vec![base(42, var(43, 78))]);
    assert_eq!(module_call(&mut context, &mut c), Ok(()));
    let argument = e(
        single(41, base(41, anything(41))),
        41,
        UnannotatedExp_::Copy { from_user: false, var: name(41, "x") },
    );
    assert_eq!(c, call(vec![anything(40)], argument, vec![base(43, anything(43))]));
    assert_eq!(context.errors, vec![uninferred(40), uninferred(41), uninferred(43)]);
}

#[test]
fn call_inside_an_expression_is_expanded() {
    let mut context = context();
    let c = call(vec![var(40, 1)], use_at(41, 1), vec![base(42, var(43, 0))]);
    let mut x = e(unit(1), 7, UnannotatedExp_::ModuleCall(Box::new(c)));
    assert_eq!(exp(&mut context, &mut x), Ok(()));
    let expected = call(
        vec![coin(801, true)],
        moved(41, 801),
        vec![base(800, builtin(800, BuiltinTypeName_::U64, true))],
    );
    assert_eq!(x, e(unit(1), 7, UnannotatedExp_::ModuleCall(Box::new(expected))));
}

#[test]
fn builtin_operations_expand_their_type() {
    let forms: Vec<fn(BaseType) -> BuiltinFunction_> = vec![
        BuiltinFunction_::MoveToSender,
        BuiltinFunction_::MoveFrom,
        |b| BuiltinFunction_::BorrowGlobal(true, b),
        BuiltinFunction_::Exists,
        BuiltinFunction_::Freeze,
    ];
    for form in forms {
        let mut context = context();
        let mut b = BuiltinFunction { loc: at(50), value: form(var(51, 1)) };
        assert_eq!(builtin_function(&mut context, &mut b), Ok(()));
        assert_eq!(b, BuiltinFunction { loc: at(50), value: form(coin(801, true)) });
        let mut bad = BuiltinFunction { loc: at(50), value: form(var(51, 2)) };
        assert_eq!(
            builtin_function(&mut context, &mut bad),
            Err(InvariantViolation::UnresolvableVariable)
        );
    }
}

#[test]
fn builtin_call_expands_its_type_before_its_argument() {
    let mut context = context();
    let b = BuiltinFunction { loc: at(50), value: BuiltinFunction_::Exists(var(51, 79)) };
    let mut x = e(unit(1), 7, UnannotatedExp_::Builtin(Box::new(b), Box::new(use_at(52, 80))));
    assert_eq!(exp(&mut context, &mut x), Ok(()));
    assert_eq!(context.errors, vec![uninferred(51), uninferred(52)]);
}

#[test]
fn struct_that_is_built_expands_type_arguments_then_fields() {
    let mut context = context();
    let fields = vec![
        PackField { field: name(60, "a"), idx: 0, ty: var(61, 81), exp: use_at(62, 82) },
        PackField { field: name(63, "b"), idx: 1, ty: var(64, 0), exp: use_at(65, 1) },
    ];
    let form = UnannotatedExp_::Pack(module(66), name(67, "Coin"), vec![var(68, 83)], fields);
    let mut x = e(unit(1), 7, form);
    assert_eq!(exp(&mut context, &mut x), Ok(()));
    let a = e(
        single(62, base(62, anything(62))),
        62,
        UnannotatedExp_::Copy { from_user: false, var: name(62, "x") },
    );
    let fields = vec![
        PackField { field: name(60, "a"), idx: 0, ty: anything(61), exp: a },
        PackField {
            field: name(63, "b"),
            idx: 1,
            ty: builtin(800, BuiltinTypeName_::U64, true),
            exp: moved(65, 801),
        },
    ];
    let form = UnannotatedExp_::Pack(module(66), name(67, "Coin"), vec![anything(68)], fields);
    assert_eq!(x, e(unit(1), 7, form));
    assert_eq!(context.errors, vec![uninferred(68), uninferred(61), uninferred(62)]);
}

#[test]
fn tuple_entries_expand_the_expression_then_the_types() {
    let mut context = context();
    let mut one = ExpListItem::Single(use_at(70, 84), Box::new(base(71, var(72, 85))));
    assert_eq!(exp_list_item(&mut context, &mut one), Ok(()));
    assert_eq!(context.errors, vec![uninferred(70), uninferred(72)]);
    let mut many = vec![
        ExpListItem::Single(use_at(70, 0), Box::new(base(71, var(72, 0)))),
        ExpListItem::Splat(at(73), use_at(74, 1), vec![base(75, var(76, 1)), base(77, var(78, 0))]),
    ];
    assert_eq!(exp_list(&mut context, &mut many), Ok(()));
    let u64_ = || base(800, builtin(800, BuiltinTypeName_::U64, true));
    assert_eq!(
        many,
        vec![
            ExpListItem::Single(copied(70, 800), Box::new(u64_())),
            ExpListItem::Splat(at(73), moved(74, 801), vec![base(801, coin(801, true)), u64_()]),
        ]
    );
    let mut x = e(unit(1), 7, UnannotatedExp_::ExpList(vec![ExpListItem::Single(
        use_at(70, 2),
        Box::new(base(71, var(72, 0))),
    )]));
    assert_eq!(exp(&mut context, &mut x), Err(InvariantViolation::UnresolvableVariable));
}

#[test]
fn assignment_expands_patterns_then_expected_types_then_the_right_side() {
    let mut context = context();
    let assigns = AssignList {
        loc: at(80),
        value: vec![Assign {
            loc: at(81),
            value: Assign_::Var(name(82, "a"), base(83, var(84, 86))),
        }],
    };
    let form = UnannotatedExp_::Assign(
        assigns,
        vec![Some(base(85, var(86, 87)))],
        Box::new(use_at(87, 88)),
    );
    let mut x = e(unit(1), 7, form);
    assert_eq!(exp(&mut context, &mut x), Ok(()));
    assert_eq!(context.errors, vec![uninferred(84), uninferred(86), uninferred(87)]);
}

fn body() -> Vec<SequenceItem> {
    let declare = BindList {
        loc: at(90),
        value: vec![Bind { loc: at(91), value: Bind_::Var(name(92, "unused"), None) }],
    };
    let bound = BindList {
        loc: at(93),
        value: vec![Bind {
            loc: at(94),
            value: Bind_::Var(name(95, "c"), Some(base(96, var(97, 1)))),
        }],
    };
    let literal = e(single(98, base(98, var(98, 0))), 99, UnannotatedExp_::InferredNum(42));
    let block = e(
        unit(100),
        100,
        UnannotatedExp_::Block(vec![SequenceItem {
            loc: at(101),
            value: SequenceItem_::Eval(Box::new(e(
                single(102, base(102, var(102, 0))),
                103,
                UnannotatedExp_::Return(Box::new(literal)),
            ))),
        }]),
    );
    vec![
        SequenceItem { loc: at(110), value: SequenceItem_::Declare(declare) },
        SequenceItem {
            loc: at(111),
            value: SequenceItem_::Bind(
                bound,
                vec![Some(base(112, var(113, 1)))],
                Box::new(use_at(114, 1)),
            ),
        },
        SequenceItem { loc: at(115), value: SequenceItem_::Eval(Box::new(block)) },
    ]
}

fn expanded_body() -> Vec<SequenceItem> {
    let declare = BindList { loc: at(90), value: vec![Bind { loc: at(91), value: Bind_::Ignore }] };
    let bound = BindList {
        loc: at(93),
        value: vec![Bind {
            loc: at(94),
            value: Bind_::Var(name(95, "c"), Some(base(801, coin(801, true)))),
        }],
    };
    let literal = e(
        single(800, base(800, builtin(800, BuiltinTypeName_::U64, true))),
        99,
        UnannotatedExp_::Value(Value { loc: at(99), value: Value_::U64(42) }),
    );
    let block = e(
        unit(100),
        100,
        UnannotatedExp_::Block(vec![SequenceItem {
            loc: at(101),
            value: SequenceItem_::Eval(Box::new(e(
                single(800, base(800, anything(800))),
                103,
                UnannotatedExp_::Return(Box::new(literal)),
            ))),
        }]),
    );
    vec![
        SequenceItem { loc: at(110), value: SequenceItem_::Declare(declare) },
        SequenceItem {
            loc: at(111),
            value: SequenceItem_::Bind(
                bound,
                vec![Some(base(801, coin(801, true)))],
                Box::new(moved(114, 801)),
            ),
        },
        SequenceItem { loc: at(115), value: SequenceItem_::Eval(Box::new(block)) },
    ]
}

#[test]
fn function_body_is_expanded_item_by_item() {
    let mut context = context();
    let mut b = FunctionBody_::Defined(body());
    assert_eq!(function_body_(&mut context, &mut b), Ok(()));
    assert_eq!(b, FunctionBody_::Defined(expanded_body()));
    assert_eq!(
        context.errors,
        vec![vec![(
            at(91),
            "Unused local 'unused'. Consider removing or prefixing with an underscore: '_unused'"
                .to_string()
        )]]
    );
}

#[test]
fn native_function_has_nothing_to_expand() {
    let mut context = context();
    let mut b = FunctionBody_::Native;
    assert_eq!(function_body_(&mut context, &mut b), Ok(()));
    assert_eq!(b, FunctionBody_::Native);
    assert!(context.errors.is_empty());
}

#[test]
fn expanding_twice_changes_nothing_and_reports_nothing() {
    let mut context = context();
    let mut b = FunctionBody_::Defined(body());
    assert_eq!(function_body_(&mut context, &mut b), Ok(()));
    let reported = context.errors.clone();
    assert_eq!(function_body_(&mut context, &mut b), Ok(()));
    assert_eq!(b, FunctionBody_::Defined(expanded_body()));
    assert_eq!(context.errors, reported);
}

#[test]
fn expanding_twice_keeps_a_literal_that_was_reported() {
    let mut context = context();
    let mut x = e(single(1, base(2, var(3, 0))), 7, UnannotatedExp_::InferredNum(u128::MAX));
    assert_eq!(exp(&mut context, &mut x), Ok(()));
    assert_eq!(context.errors.len(), 1);
    assert_eq!(exp(&mut context, &mut x), Ok(()));
    assert_eq!(x.exp.value, UnannotatedExp_::UnresolvedError);
    assert_eq!(context.errors.len(), 1);
}

#[test]
fn sequence_stops_at_the_first_broken_promise() {
    let mut context = context();
    let mut items = vec![
        SequenceItem { loc: at(1), value: SequenceItem_::Eval(Box::new(use_at(2, 70))) },
        SequenceItem {
            loc: at(3),
            value: SequenceItem_::Eval(Box::new(e(unit(4), 5, UnannotatedExp_::Use(name(6, "u"))))),
        },
        SequenceItem { loc: at(7), value: SequenceItem_::Eval(Box::new(use_at(8, 2))) },
    ];
    assert_eq!(sequence(&mut context, &mut items), Err(InvariantViolation::VariableNotSingle));
    let mut item = SequenceItem { loc: at(7), value: SequenceItem_::Eval(Box::new(use_at(8, 2))) };
    assert_eq!(
        sequence_item(&mut context, &mut item),
        Err(InvariantViolation::UnresolvableVariable)
    );
}

fn base_settled(b: &BaseType) -> bool {
    match &b.value {
        BaseType_::Var(_) => false,
        BaseType_::Apply(k, _, args) => {
            k.map_or(false, |k| k.value != Kind_::Unknown) && args.iter().all(base_settled)
        }
        _ => true,
    }
}

fn single_settled(s: &SingleType) -> bool {
    match &s.value {
        SingleType_::Base(b) | SingleType_::Ref(_, b) => base_settled(b),
    }
}

fn type_settled(t: &Type) -> bool {
    match &t.value {
        Type_::Unit => true,
        Type_::Single(s) => single_settled(s),
        Type_::Multiple(ss) => ss.iter().all(single_settled),
    }
}

fn bind_settled(b: &Bind) -> bool {
    match &b.value {
        Bind_::Ignore => true,
        Bind_::Var(_, st) => st.as_ref().map_or(false, single_settled),
        Bind_::Unpack(_, _, bts, fs) | Bind_::BorrowUnpack(_, _, _, bts, fs) => {
            bts.iter().all(base_settled)
                && fs.iter().all(|f| base_settled(&f.ty) && bind_settled(&f.bind))
        }
    }
}

fn exp_settled(x: &Exp) -> bool {
    let exits = matches!(
        x.exp.value,
        UnannotatedExp_::Break
            | UnannotatedExp_::Continue
            | UnannotatedExp_::Return(_)
            | UnannotatedExp_::Abort(_)
    );
    let erased = x.ty.value == Type_::Single(base(0, anything(0)))
        || matches!(
            &x.ty.value,
            Type_::Single(s) if matches!(
                &s.value,
                SingleType_::Base(b) if b.value == BaseType_::Anything,
            ),
        );
    if exits && !erased {
        return false;
    }
    type_settled(&x.ty)
        && match &x.exp.value {
            UnannotatedExp_::Use(_) | UnannotatedExp_::InferredNum(_) => false,
            UnannotatedExp_::Return(r) | UnannotatedExp_::Abort(r) => exp_settled(r),
            UnannotatedExp_::Block(items) => items.iter().all(item_settled),
            _ => true,
        }
}

fn item_settled(item: &SequenceItem) -> bool {
    match &item.value {
        SequenceItem_::Eval(x) => exp_settled(x),
        SequenceItem_::Declare(bs) => bs.value.iter().all(bind_settled),
        SequenceItem_::Bind(bs, tys, x) => {
            bs.value.iter().all(bind_settled)
                && tys.iter().all(|t| t.as_ref().map_or(true, single_settled))
                && exp_settled(x)
        }
    }
}

#[test]
fn nothing_is_left_to_expand_in_an_expanded_body() {
    assert!(!body().iter().all(item_settled));
    let mut context = context();
    let mut b = FunctionBody_::Defined(body());
    assert_eq!(function_body_(&mut context, &mut b), Ok(()));
    match &b {
        FunctionBody_::Defined(items) => assert!(items.iter().all(item_settled)),
        FunctionBody_::Native => unreachable!(),
    }
}
