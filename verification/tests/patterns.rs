use type_expansion::context::{Context, InvariantViolation, StructDefinition, Subst};
use type_expansion::expand::{assign, assign_list, bind, bind_list};
use type_expansion::syntax::{
    Assign, AssignField, AssignList, Assign_, Bind, BindField, BindList, Bind_,
};
use type_expansion::types::{
    BaseType, BaseType_, BuiltinTypeName, BuiltinTypeName_, Kind, Kind_, Loc, ModuleIdent, Name,
    SingleType, SingleType_, TVar, TypeName, TypeName_,
};

fn at(n: u32) -> Loc {
    Loc { file: 2, start: n, end: n + 1 }
}

fn name(n: u32, s: &str) -> Name {
    Name { loc: at(n), value: s.to_string() }
}

fn module(n: u32) -> ModuleIdent {
    ModuleIdent { loc: at(n), address: 7, name: "M".to_string() }
}

fn var(n: u32, id: u64) -> BaseType {
    BaseType { loc: at(n), value: BaseType_::Var(TVar(id)) }
}

fn anything(n: u32) -> BaseType {
    BaseType { loc: at(n), value: BaseType_::Anything }
}

fn u64_(n: u32, expanded: bool) -> BaseType {
    let tn = TypeName {
        loc: at(n),
        value: TypeName_::Builtin(BuiltinTypeName { loc: at(n), value: BuiltinTypeName_::U64 }),
    };
    let k = if expanded { Some(Kind { loc: at(n), value: Kind_::Unrestricted }) } else { None };
    BaseType { loc: at(n), value: BaseType_::Apply(k, tn, vec![]) }
}

fn base(n: u32, b: BaseType) -> SingleType {
    SingleType { loc: at(n), value: SingleType_::Base(b) }
}

fn context() -> Context {
    let mut subst = Subst::new();
    subst.insert(TVar(0), u64_(90, false));
    subst.insert(TVar(1), var(91, 1));
    let structs =
        vec![StructDefinition { module: module(80), name: name(81, "S"), resource_opt: None }];
    Context::new(subst, structs)
}

fn unused(n: u32, x: &str) -> Vec<(Loc, String)> {
    vec![(
        at(n),
        format!(
            "Unused local '{}'. Consider removing or prefixing with an underscore: '_{}'",
            x, x
        ),
    )]
}

fn uninferred(n: u32) -> Vec<(Loc, String)> {
    vec![(at(n), "Could not infer this type. Try adding an annotation".to_string())]
}

#[test]
fn local_that_is_never_used_is_reported_and_ignored() {
    let mut context = context();
    let mut b = Bind { loc: at(4), value: Bind_::Var(name(5, "x"), None) };
    assert_eq!(bind(&mut context, &mut b), Ok(()));
    assert_eq!(b, Bind { loc: at(4), value: Bind_::Ignore });
    assert_eq!(
        context.errors,
        vec![vec![(
            at(4),
            "Unused local 'x'. Consider removing or prefixing with an underscore: '_x'"
                .to_string()
        )]]
    );
}

#[test]
fn local_with_a_longer_name_is_named_in_full() {
    let mut context = context();
    let mut b = Bind { loc: at(4), value: Bind_::Var(name(5, "total_supply"), None) };
    assert_eq!(bind(&mut context, &mut b), Ok(()));
    assert_eq!(context.errors, vec![unused(4, "total_supply")]);
}

#[test]
fn local_with_a_type_keeps_its_binder() {
    let mut context = context();
    let mut b = Bind { loc: at(4), value: Bind_::Var(name(5, "x"), Some(base(6, var(7, 0)))) };
    assert_eq!(bind(&mut context, &mut b), Ok(()));
    assert_eq!(
        b,
        Bind { loc: at(4), value: Bind_::Var(name(5, "x"), Some(base(90, u64_(90, true)))) }
    );
    assert!(context.errors.is_empty());
}

#[test]
fn ignoring_binder_stays_as_it_is() {
    let mut context = context();
    let mut b = Bind { loc: at(4), value: Bind_::Ignore };
    assert_eq!(bind(&mut context, &mut b), Ok(()));
    assert_eq!(b, Bind { loc: at(4), value: Bind_::Ignore });
    assert!(context.errors.is_empty());
}

fn unpack_bind(borrow: bool, bts: Vec<BaseType>, fields: Vec<BindField>) -> Bind {
    let value = if borrow {
        Bind_::BorrowUnpack(true, module(1), name(2, "S"), bts, fields)
    } else {
        Bind_::Unpack(module(1), name(2, "S"), bts, fields)
    };
    Bind { loc: at(3), value }
}

#[test]
fn destructuring_binder_is_expanded_inside_out_in_order() {
    for borrow in [false, true] {
        let mut context = context();
        let inner = unpack_bind(
            borrow,
            vec![],
            vec![BindField {
                field: name(20, "g"),
                idx: 0,
                ty: var(21, 8),
                bind: Bind { loc: at(22), value: Bind_::Var(name(23, "z"), None) },
            }],
        );
        let mut b = unpack_bind(
            borrow,
            vec![var(10, 9), var(11, 0)],
            vec![
                BindField {
                    field: name(12, "f"),
                    idx: 0,
                    ty: var(13, 0),
                    bind: Bind { loc: at(14), value: Bind_::Var(name(15, "y"), None) },
                },
                BindField { field: name(16, "h"), idx: 1, ty: var(17, 7), bind: inner },
            ],
        );
        assert_eq!(bind(&mut context, &mut b), Ok(()));
        let inner = unpack_bind(
            borrow,
            vec![],
            vec![BindField {
                field: name(20, "g"),
                idx: 0,
                ty: anything(21),
                bind: Bind { loc: at(22), value: Bind_::Ignore },
            }],
        );
        let expected = unpack_bind(
            borrow,
            vec![anything(10), u64_(90, true)],
            vec![
                BindField {
                    field: name(12, "f"),
                    idx: 0,
                    ty: u64_(90, true),
                    bind: Bind { loc: at(14), value: Bind_::Ignore },
                },
                BindField { field: name(16, "h"), idx: 1, ty: anything(17), bind: inner },
            ],
        );
        assert_eq!(b, expected);
        assert_eq!(
            context.errors,
            vec![uninferred(10), unused(14, "y"), uninferred(17), uninferred(21), unused(22, "z")]
        );
    }
}

#[test]
fn binders_of_a_list_are_expanded_first_to_last() {
    let mut context = context();
    let mut binds = BindList {
        loc: at(1),
        value: vec![
            Bind { loc: at(2), value: Bind_::Var(name(3, "a"), None) },
            Bind { loc: at(4), value: Bind_::Ignore },
            Bind { loc: at(5), value: Bind_::Var(name(6, "b"), None) },
        ],
    };
    assert_eq!(bind_list(&mut context, &mut binds), Ok(()));
    assert_eq!(
        binds,
        BindList {
            loc: at(1),
            value: vec![
                Bind { loc: at(2), value: Bind_::Ignore },
                Bind { loc: at(4), value: Bind_::Ignore },
                Bind { loc: at(5), value: Bind_::Ignore },
            ],
        }
    );
    assert_eq!(context.errors, vec![unused(2, "a"), unused(5, "b")]);
}

#[test]
fn binder_stops_at_a_broken_promise() {
    let mut context = context();
    let mut b = Bind { loc: at(4), value: Bind_::Var(name(5, "x"), Some(base(6, var(7, 1)))) };
    assert_eq!(bind(&mut context, &mut b), Err(InvariantViolation::UnresolvableVariable));
    let mut binds = BindList { loc: at(1), value: vec![b] };
    assert_eq!(
        bind_list(&mut context, &mut binds),
        Err(InvariantViolation::UnresolvableVariable)
    );
}

#[test]
fn assigned_local_has_its_type_expanded() {
    let mut context = context();
    let mut a = Assign { loc: at(4), value: Assign_::Var(name(5, "x"), base(6, var(7, 0))) };
    assert_eq!(assign(&mut context, &mut a), Ok(()));
    assert_eq!(
        a,
        Assign { loc: at(4), value: Assign_::Var(name(5, "x"), base(90, u64_(90, true))) }
    );
    let mut ignore = Assign { loc: at(8), value: Assign_::Ignore };
    assert_eq!(assign(&mut context, &mut ignore), Ok(()));
    assert_eq!(ignore, Assign { loc: at(8), value: Assign_::Ignore });
    assert!(context.errors.is_empty());
}

fn unpack_assign(borrow: bool, bts: Vec<BaseType>, fields: Vec<AssignField>) -> Assign {
    let value = if borrow {
        Assign_::BorrowUnpack(false, module(1), name(2, "S"), bts, fields)
    } else {
        Assign_::Unpack(module(1), name(2, "S"), bts, fields)
    };
    Assign { loc: at(3), value }
}

#[test]
fn destructuring_assignment_is_expanded_in_order() {
    for borrow in [false, true] {
        let mut context = context();
        let field = |ty: BaseType, st: SingleType| AssignField {
            field: name(12, "f"),
            idx: 0,
            ty,
            assign: Assign { loc: at(14), value: Assign_::Var(name(15, "y"), st) },
        };
        let mut a = unpack_assign(
            borrow,
            vec![var(10, 9)],
            vec![field(var(13, 8), base(16, var(17, 0)))],
        );
        assert_eq!(assign(&mut context, &mut a), Ok(()));
        assert_eq!(
            a,
            unpack_assign(
                borrow,
                vec![anything(10)],
                vec![field(anything(13), base(90, u64_(90, true)))]
            )
        );
        assert_eq!(context.errors, vec![uninferred(10), uninferred(13)]);
    }
}

#[test]
fn assignments_of_a_list_are_expanded_first_to_last() {
    let mut context = context();
    let mut assigns = AssignList {
        loc: at(1),
        value: vec![
            Assign { loc: at(2), value: Assign_::Var(name(3, "a"), base(4, var(5, 8))) },
            Assign { loc: at(6), value: Assign_::Var(name(7, "b"), base(8, var(9, 9))) },
        ],
    };
    assert_eq!(assign_list(&mut context, &mut assigns), Ok(()));
    assert_eq!(
        assigns,
        AssignList {
            loc: at(1),
            value: vec![
                Assign { loc: at(2), value: Assign_::Var(name(3, "a"), base(5, anything(5))) },
                Assign { loc: at(6), value: Assign_::Var(name(7, "b"), base(9, anything(9))) },
            ],
        }
    );
    assert_eq!(context.errors, vec![uninferred(5), uninferred(9)]);
}

#[test]
fn assignment_stops_at_a_broken_promise() {
    let mut context = context();
    let mut a = Assign { loc: at(4), value: Assign_::Var(name(5, "x"), base(6, var(7, 1))) };
    assert_eq!(assign(&mut context, &mut a), Err(InvariantViolation::UnresolvableVariable));
}
