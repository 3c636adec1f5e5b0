use type_expansion::context::{
    infer_kind_base, unfold_type_base, Context, InvariantViolation, StructDefinition, Subst,
};
use type_expansion::messages::{literal_too_large, uninferred_type, unused_local};
use type_expansion::types::{
    duplicate_base_types, BaseType, BaseType_, BuiltinTypeName, BuiltinTypeName_, Kind, Kind_,
    Loc, ModuleIdent, Name, SingleType_, TParam, TVar, TypeName, TypeName_, Type_,
};

fn at(n: u32) -> Loc {
    Loc { file: 4, start: n, end: n + 3 }
}

fn name(n: u32, s: &str) -> Name {
    Name { loc: at(n), value: s.to_string() }
}

fn module(address: u128, s: &str) -> ModuleIdent {
    ModuleIdent { loc: at(0), address, name: s.to_string() }
}

fn var(n: u32, id: u64) -> BaseType {
    BaseType { loc: at(n), value: BaseType_::Var(TVar(id)) }
}

fn builtin_name(n: u32, bt: BuiltinTypeName_) -> TypeName {
    TypeName { loc: at(n), value: TypeName_::Builtin(BuiltinTypeName { loc: at(n), value: bt }) }
}

fn struct_name(n: u32, address: u128, m: &str, s: &str) -> TypeName {
    TypeName { loc: at(n), value: TypeName_::ModuleType(module(address, m), name(n, s)) }
}

fn with_kind(n: u32, k: Kind_) -> BaseType {
    let kind = Kind { loc: at(n), value: k };
    BaseType {
        loc: at(n),
        value: BaseType_::Apply(Some(kind), builtin_name(n, BuiltinTypeName_::Bool), vec![]),
    }
}

fn declaration(address: u128, m: &str, n: u32, resource_opt: Option<Loc>) -> StructDefinition {
    StructDefinition { module: module(address, m), name: name(n, "S"), resource_opt }
}

fn declared() -> Vec<StructDefinition> {
    vec![
        declaration(1, "A", 10, None),
        declaration(1, "B", 11, Some(at(12))),
        declaration(2, "A", 13, Some(at(14))),
        declaration(1, "A", 15, Some(at(16))),
    ]
}

#[test]
fn substitution_keeps_the_last_binding_of_a_variable() {
    let mut subst = Subst::new();
    assert_eq!(subst.len(), 0);
    assert_eq!(subst.get(TVar(1)), None);
    subst.insert(TVar(1), var(2, 5));
    subst.insert(TVar(3), with_kind(4, Kind_::Affine));
    subst.insert(TVar(1), var(6, 7));
    assert_eq!(subst.len(), 2);
    assert_eq!(subst.get(TVar(1)), Some(&var(6, 7)));
    assert_eq!(subst.get(TVar(3)), Some(&with_kind(4, Kind_::Affine)));
    assert_eq!(subst.get(TVar(5)), None);
}

#[test]
fn unfolding_leaves_what_is_no_variable_as_it_is() {
    let subst = Subst::new();
    let bt = with_kind(3, Kind_::Resource);
    assert_eq!(unfold_type_base(&subst, &bt), Ok(with_kind(3, Kind_::Resource)));
}

#[test]
fn unfolding_follows_variables_to_the_first_type() {
    let mut subst = Subst::new();
    subst.insert(TVar(0), var(10, 1));
    subst.insert(TVar(1), var(11, 2));
    subst.insert(TVar(2), with_kind(12, Kind_::Affine));
    subst.insert(TVar(3), var(13, 9));
    assert_eq!(unfold_type_base(&subst, &var(5, 0)), Ok(with_kind(12, Kind_::Affine)));
    assert_eq!(unfold_type_base(&subst, &var(5, 2)), Ok(with_kind(12, Kind_::Affine)));
    let anything = BaseType { loc: at(5), value: BaseType_::Anything };
    assert_eq!(unfold_type_base(&subst, &var(5, 3)), Ok(anything));
}

#[test]
fn unfolding_follows_a_chain_through_every_binding() {
    let mut subst = Subst::new();
    subst.insert(TVar(0), var(10, 1));
    subst.insert(TVar(1), var(11, 2));
    subst.insert(TVar(2), var(12, 3));
    let anything = BaseType { loc: at(5), value: BaseType_::Anything };
    assert_eq!(unfold_type_base(&subst, &var(5, 0)), Ok(anything));
}

#[test]
fn unfolding_gives_up_a_chain_that_never_ends() {
    let mut subst = Subst::new();
    subst.insert(TVar(0), var(10, 1));
    subst.insert(TVar(1), var(11, 2));
    subst.insert(TVar(2), var(12, 1));
    assert_eq!(
        unfold_type_base(&subst, &var(5, 0)),
        Err(InvariantViolation::UnresolvableVariable)
    );
}

#[test]
fn builtin_types_are_unrestricted() {
    let context = Context::new(Subst::new(), declared());
    for bt in [
        BuiltinTypeName_::Address,
        BuiltinTypeName_::U8,
        BuiltinTypeName_::U64,
        BuiltinTypeName_::U128,
        BuiltinTypeName_::Bool,
        BuiltinTypeName_::Bytearray,
    ] {
        assert_eq!(
            infer_kind_base(&context, &builtin_name(7, bt), &vec![]),
            Some(Kind { loc: at(7), value: Kind_::Unrestricted })
        );
    }
}

#[test]
fn struct_is_found_by_address_module_and_name() {
    let context = Context::new(Subst::new(), declared());
    assert_eq!(
        infer_kind_base(&context, &struct_name(7, 1, "A", "S"), &vec![]),
        Some(Kind { loc: at(10), value: Kind_::Unrestricted })
    );
    assert_eq!(
        infer_kind_base(&context, &struct_name(7, 1, "B", "S"), &vec![]),
        Some(Kind { loc: at(12), value: Kind_::Resource })
    );
    assert_eq!(
        infer_kind_base(&context, &struct_name(7, 2, "A", "S"), &vec![]),
        Some(Kind { loc: at(14), value: Kind_::Resource })
    );
    assert_eq!(infer_kind_base(&context, &struct_name(7, 2, "B", "S"), &vec![]), None);
    assert_eq!(infer_kind_base(&context, &struct_name(7, 1, "A", "T"), &vec![]), None);
    assert_eq!(
        context.struct_definition(&module(1, "A"), &name(99, "S")),
        Some(&StructDefinition { module: module(1, "A"), name: name(10, "S"), resource_opt: None })
    );
    assert_eq!(context.struct_definition(&module(3, "A"), &name(99, "S")), None);
}

#[test]
fn struct_takes_its_kind_from_its_arguments() {
    let context = Context::new(Subst::new(), declared());
    let plain = struct_name(7, 1, "A", "S");
    let unrestricted = Some(Kind { loc: at(10), value: Kind_::Unrestricted });
    let resource = Some(Kind { loc: at(10), value: Kind_::Resource });
    let anything = BaseType { loc: at(8), value: BaseType_::Anything };
    let param = |k: Kind_| BaseType {
        loc: at(8),
        value: BaseType_::Param(TParam {
            debug: name(8, "T"),
            id: 0,
            kind: Kind { loc: at(8), value: k },
        }),
    };
    assert_eq!(infer_kind_base(&context, &plain, &vec![anything]), unrestricted);
    assert_eq!(infer_kind_base(&context, &plain, &vec![param(Kind_::Unknown)]), unrestricted);
    assert_eq!(infer_kind_base(&context, &plain, &vec![param(Kind_::Unrestricted)]), unrestricted);
    assert_eq!(infer_kind_base(&context, &plain, &vec![param(Kind_::Affine)]), resource);
    assert_eq!(infer_kind_base(&context, &plain, &vec![param(Kind_::Resource)]), resource);
    assert_eq!(
        infer_kind_base(
            &context,
            &plain,
            &vec![with_kind(8, Kind_::Unrestricted), with_kind(9, Kind_::Resource)]
        ),
        resource
    );
    assert_eq!(
        infer_kind_base(
            &context,
            &plain,
            &vec![with_kind(8, Kind_::Affine), with_kind(9, Kind_::Unrestricted)]
        ),
        resource
    );
}

#[test]
fn kind_needs_the_kinds_of_all_arguments() {
    let context = Context::new(Subst::new(), declared());
    let plain = struct_name(7, 1, "A", "S");
    assert_eq!(infer_kind_base(&context, &plain, &vec![var(8, 0)]), None);
    let unstamped = BaseType {
        loc: at(8),
        value: BaseType_::Apply(None, builtin_name(8, BuiltinTypeName_::U8), vec![]),
    };
    assert_eq!(
        infer_kind_base(&context, &plain, &vec![with_kind(9, Kind_::Resource), unstamped]),
        None
    );
    assert_eq!(
        infer_kind_base(&context, &builtin_name(7, BuiltinTypeName_::U8), &vec![var(8, 0)]),
        None
    );
}

#[test]
fn context_reports_in_order() {
    let mut context = Context::new(Subst::new(), vec![]);
    assert!(context.errors.is_empty());
    context.error(uninferred_type(at(1)));
    context.error(unused_local(at(2), &"coin".to_string()));
    let too_large =
        literal_too_large(at(3), at(4), 999, BuiltinTypeName_::U8, BuiltinTypeName_::U64);
    context.error(too_large);
    assert_eq!(
        context.errors,
        vec![
            vec![(at(1), "Could not infer this type. Try adding an annotation".to_string())],
            vec![(
                at(2),
                "Unused local 'coin'. Consider removing or prefixing with an underscore: '_coin'"
                    .to_string()
            )],
            vec![
                (at(3), "Invalid numerical literal".to_string()),
                (at(4), "Expected a literal of type 'u8', but the value is too large.".to_string()),
                (at(3), "Annotating the literal might help inference: '999u64'".to_string()),
            ],
        ]
    );
}

#[test]
fn copies_are_equal_to_what_they_copy() {
    let tree = BaseType {
        loc: at(1),
        value: BaseType_::Apply(
            None,
            struct_name(2, 1, "A", "S"),
            vec![var(3, 4), with_kind(5, Kind_::Affine)],
        ),
    };
    assert_eq!(tree.duplicate(), tree);
    assert_eq!(name(6, "x").duplicate(), name(6, "x"));
    assert_eq!(module(9, "M").duplicate(), module(9, "M"));
    assert_eq!(struct_name(2, 1, "A", "S").duplicate(), struct_name(2, 1, "A", "S"));
    let kind = Kind { loc: at(8), value: Kind_::Unknown };
    let tp = TParam { debug: name(8, "T"), id: 3, kind };
    assert_eq!(tp.duplicate(), tp);
    let list = vec![var(3, 4), with_kind(5, Kind_::Affine)];
    assert_eq!(duplicate_base_types(&list), list);
}

#[test]
fn types_of_diverging_expressions() {
    let ty = Type_::anything(at(3));
    assert!(ty.value.is_anything());
    assert_eq!(ty.loc, at(3));
    assert_eq!(ty.value, Type_::Single(SingleType_::anything(at(3))));
    assert_eq!(SingleType_::anything(at(3)).value, SingleType_::Base(BaseType_::anything(at(3))));
    assert!(!Type_::Unit.is_anything());
    assert!(!Type_::Multiple(vec![SingleType_::anything(at(3))]).is_anything());
}

#[test]
fn builtin_name_of_a_type() {
    let u8_ = BuiltinTypeName { loc: at(5), value: BuiltinTypeName_::U8 };
    let base = BaseType {
        loc: at(5),
        value: BaseType_::Apply(None, builtin_name(5, BuiltinTypeName_::U8), vec![]),
    };
    assert_eq!(base.value.builtin_name(), Some(u8_));
    assert_eq!(var(1, 2).value.builtin_name(), None);
    assert_eq!(SingleType_::Ref(true, base.duplicate()).builtin_name(), None);
    assert_eq!(SingleType_::Base(base.duplicate()).builtin_name(), Some(u8_));
    assert_eq!(Type_::Unit.builtin_name(), None);
    assert!(BuiltinTypeName_::U8.is_numeric());
    assert!(BuiltinTypeName_::U64.is_numeric());
    assert!(BuiltinTypeName_::U128.is_numeric());
    assert!(!BuiltinTypeName_::Bool.is_numeric());
    assert!(!BuiltinTypeName_::Address.is_numeric());
    assert!(!BuiltinTypeName_::Bytearray.is_numeric());
}
