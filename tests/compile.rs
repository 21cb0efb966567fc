use pg_aggregate::compiler::{compile, synthesize, CompiledAggregate};
use pg_aggregate::resolve::{get_target_path, validate};
use pg_aggregate::error::{AggregateError, ConstKind, ConstSlot, Required};
use pg_aggregate::model::{
    AggregateSpec, Component, ConstItem, ConstValue, Literal, MethodItem, TypeExpr, TypeItem, TypeKind,
};

fn path(text: &str, segments: &[&str], args: Vec<TypeExpr>) -> TypeExpr {
    TypeExpr {
        text: text.to_string(),
        kind: TypeKind::Path { segments: segments.iter().map(|s| s.to_string()).collect(), args },
        site: 0,
    }
}

fn simple(name: &str) -> TypeExpr {
    path(name, &[name], Vec::new())
}

fn tuple(elems: Vec<TypeExpr>) -> TypeExpr {
    let text = format!("({})", elems.iter().map(|e| e.text.clone()).collect::<Vec<_>>().join(", "));
    TypeExpr { text, kind: TypeKind::Tuple { elems }, site: 0 }
}

fn variadic(inner: TypeExpr) -> TypeExpr {
    TypeExpr {
        text: format!("pgx::variadic!({})", inner.text),
        kind: TypeKind::Macro { segments: vec!["pgx".to_string(), "variadic".to_string()], args: vec![inner] },
        site: 7,
    }
}

fn ty_item(name: &str, ty: TypeExpr) -> TypeItem {
    TypeItem { name: name.to_string(), ty, site: 0 }
}

fn method(name: &str) -> MethodItem {
    MethodItem { name: name.to_string(), site: 0 }
}

fn str_const(name: &str, v: &str) -> ConstItem {
    ConstItem {
        name: name.to_string(),
        value: ConstValue::Lit(Literal::Str(v.to_string())),
        text: format!("{:?}", v),
        site: 3,
    }
}

fn other_const(name: &str, value: ConstValue, text: &str) -> ConstItem {
    ConstItem { name: name.to_string(), value, text: text.to_string(), site: 5 }
}

fn spec(target: TypeExpr, args: TypeExpr, methods: &[&str]) -> AggregateSpec {
    AggregateSpec {
        self_ty: target,
        trait_path: Some(vec!["Aggregate".to_string()]),
        trait_site: 1,
        types: vec![ty_item("Args", args)],
        methods: methods.iter().map(|m| method(m)).collect(),
        consts: vec![str_const("NAME", "my_sum")],
        site: 9,
    }
}

fn ok(s: &AggregateSpec) -> CompiledAggregate {
    match compile(s) {
        Ok(c) => c,
        Err(e) => panic!("compile failed: {:?}", e),
    }
}

fn params(c: &CompiledAggregate, i: usize) -> Vec<(String, String)> {
    c.functions[i].params.iter().map(|p| (p.name.clone(), p.ty.clone())).collect()
}

fn pairs(v: &[(&str, &str)]) -> Vec<(String, String)> {
    v.iter().map(|(a, b)| (a.to_string(), b.to_string())).collect()
}

#[test]
fn scenario_single_argument_state_only() {
    let s = spec(simple("MySum"), simple("i32"), &["state"]);
    let c = ok(&s);
    assert_eq!(c.functions.len(), 1);
    let f = &c.functions[0];
    assert_eq!(f.component, Component::State);
    assert_eq!(f.name, "my_sum_state");
    assert_eq!(params(&c, 0), pairs(&[("this", "MySum"), ("arg_one", "i32")]));
    assert_eq!(f.ret, "MySum");
    assert_eq!(f.call, "<MySum as pgx::Aggregate>::state(this, arg_one)");
    let d = &c.descriptor;
    assert_eq!(d.name, "my_sum");
    assert_eq!(d.state_type, "MySum");
    assert_eq!(d.state_function, "my_sum_state");
    assert_eq!(d.combine_function, None);
    assert_eq!(d.finalize_function, None);
    assert!(!d.hypothetical);
    assert_eq!(c.stubs.len(), 7);
    assert_eq!(c.defaulted_types, vec!["MovingState", "OrderBy", "Finalize"]);
}

#[test]
fn scenario_missing_state() {
    let s = spec(simple("MySum"), simple("i32"), &["combine"]);
    match compile(&s) {
        Err(AggregateError::MissingRequiredComponent { component, site }) => {
            assert_eq!(component, Required::State);
            assert_eq!(component.name(), "state");
            assert_eq!(site, 9);
        },
        _ => panic!("expected a missing state"),
    }
}

#[test]
fn scenario_hypothetical_not_boolean() {
    let mut s = spec(simple("MySum"), simple("i32"), &["state"]);
    s.consts.push(other_const("HYPOTHETICAL", ConstValue::Lit(Literal::Str("yes".to_string())), "\"yes\""));
    assert_eq!(
        compile(&s).err(),
        Some(AggregateError::InvalidConstantType { constant: ConstSlot::Hypothetical, expected: ConstKind::Bool, site: 5 })
    );
    assert_eq!(ConstSlot::Hypothetical.name(), "HYPOTHETICAL");
}

#[test]
fn scenario_two_arguments_with_combine_and_finalize() {
    let s = spec(simple("MySum"), tuple(vec![simple("i32"), simple("f64")]), &["state", "combine", "finalize"]);
    let c = ok(&s);
    assert_eq!(c.functions.len(), 3);
    assert_eq!(params(&c, 0), pairs(&[("this", "MySum"), ("arg_one", "i32"), ("arg_two", "f64")]));
    assert_eq!(c.functions[0].call, "<MySum as pgx::Aggregate>::state(this, arg_one, arg_two)");
    assert_eq!(c.functions[1].name, "my_sum_combine");
    assert_eq!(params(&c, 1), pairs(&[("this", "MySum"), ("v", "MySum")]));
    assert_eq!(c.functions[2].name, "my_sum_finalize");
    assert_eq!(c.functions[2].ret, "<MySum as pgx::Aggregate>::Finalize");
    assert_eq!(c.descriptor.combine_function.as_deref(), Some("my_sum_combine"));
    assert_eq!(c.descriptor.finalize_function.as_deref(), Some("my_sum_finalize"));
    assert_eq!(c.stubs.len(), 5);
}

#[test]
fn compiling_twice_gives_the_same_output() {
    let s = spec(simple("DemoAgg"), tuple(vec![simple("i32"), simple("i64")]), &["state", "serial"]);
    let a = ok(&s);
    let b = ok(&s);
    assert_eq!(a.functions.len(), b.functions.len());
    for i in 0..a.functions.len() {
        assert_eq!(a.functions[i].name, b.functions[i].name);
        assert_eq!(params(&a, i), params(&b, i));
        assert_eq!(a.functions[i].ret, b.functions[i].ret);
        assert_eq!(a.functions[i].call, b.functions[i].call);
    }
    assert_eq!(a.descriptor.state_function, b.descriptor.state_function);
    assert_eq!(a.descriptor.serial_function, b.descriptor.serial_function);
    assert_eq!(a.descriptor.serial_function.as_deref(), Some("demo_agg_serial"));
}

#[test]
fn tuple_arguments_keep_their_order() {
    let elems = vec![simple("i32"), simple("bool"), simple("String"), simple("i64")];
    let s = spec(simple("Ordered"), tuple(elems), &["state"]);
    let c = ok(&s);
    assert_eq!(
        params(&c, 0),
        pairs(&[("this", "Ordered"), ("arg_one", "i32"), ("arg_two", "bool"), ("arg_three", "String"), ("arg_four", "i64")])
    );
    assert_eq!(c.descriptor.args.len(), 4);
}

#[test]
fn thirty_two_arguments_are_accepted() {
    let elems: Vec<TypeExpr> = (0..32).map(|_| simple("i32")).collect();
    let s = spec(simple("Wide"), tuple(elems), &["state"]);
    let c = ok(&s);
    assert_eq!(c.functions[0].params.len(), 33);
    assert_eq!(c.functions[0].params[32].name, "arg_thirty_two");
}

#[test]
fn thirty_three_arguments_are_refused() {
    let elems: Vec<TypeExpr> = (0..33).map(|_| simple("i32")).collect();
    let mut args = tuple(elems);
    args.site = 4;
    let s = spec(simple("Wide"), args, &["state"]);
    assert_eq!(compile(&s).err(), Some(AggregateError::UnsupportedArgCount { count: 33, site: 4 }));
}

#[test]
fn unit_args_give_no_arguments() {
    let s = spec(simple("Counter"), tuple(Vec::new()), &["state", "moving_state"]);
    let c = ok(&s);
    assert_eq!(params(&c, 0), pairs(&[("this", "Counter")]));
    assert_eq!(c.functions[1].call, "<Counter as pgx::Aggregate>::moving_state(mstate, ())");
}

#[test]
fn absent_operations_get_stubs_only() {
    let s = spec(simple("MySum"), simple("i32"), &["state", "combine"]);
    let c = ok(&s);
    assert!(c.functions.iter().all(|f| f.component != Component::Finalize));
    assert_eq!(c.descriptor.finalize_function, None);
    assert_eq!(c.descriptor.serial_function, None);
    assert_eq!(c.descriptor.moving_finalize_function, None);
    let stub = c.stubs.iter().find(|s| s.component == Component::Finalize).expect("a finalize stub");
    assert_eq!(stub.message, "Call to finalize on an aggregate which does not support it.");
    assert_eq!(stub.ret, "Self::Finalize");
    assert!(c.stubs.iter().all(|s| s.component != Component::Combine));
    let names: Vec<Component> = c.stubs.iter().map(|s| s.component).collect();
    assert_eq!(
        names,
        vec![
            Component::Finalize,
            Component::Serial,
            Component::Deserial,
            Component::MovingState,
            Component::MovingStateInverse,
            Component::MovingFinalize
        ]
    );
}

#[test]
fn variadic_args_form_the_last_argument() {
    let s = spec(simple("Many"), variadic(simple("i32")), &["state"]);
    let c = ok(&s);
    assert_eq!(c.descriptor.args.len(), 1);
    let a = &c.descriptor.args[0];
    assert_eq!(a.name, "arg_one");
    assert_eq!(a.ty, "pgx::variadic!(i32)");
    assert_eq!(a.variadic_ty.as_deref(), Some("i32"));
    assert_eq!(params(&c, 0), pairs(&[("this", "Many"), ("arg_one", "i32")]));
}

#[test]
fn variadic_last_in_tuple_is_accepted() {
    let s = spec(simple("Many"), tuple(vec![simple("text"), variadic(simple("i32"))]), &["state"]);
    let c = ok(&s);
    assert_eq!(c.descriptor.args[0].variadic_ty, None);
    assert_eq!(c.descriptor.args[1].ty, "pgx::variadic!(i32)");
    assert_eq!(c.descriptor.args[1].variadic_ty.as_deref(), Some("i32"));
    assert_eq!(params(&c, 0), pairs(&[("this", "Many"), ("arg_one", "text"), ("arg_two", "i32")]));
}

#[test]
fn variadic_before_last_is_refused() {
    let mut args = tuple(vec![variadic(simple("i32")), simple("text")]);
    args.site = 6;
    let s = spec(simple("Many"), args, &["state"]);
    assert_eq!(compile(&s).err(), Some(AggregateError::MisplacedVariadic { site: 6 }));
}

#[test]
fn wrapped_state_reaches_every_state_signature() {
    let wrapped = path("pgx::PgVarlena<MyState>", &["pgx", "PgVarlena"], vec![simple("MyState")]);
    let s = spec(wrapped, simple("i32"), &["state", "combine", "finalize", "serial", "deserial"]);
    let c = ok(&s);
    assert_eq!(c.functions.len(), 5);
    for f in &c.functions {
        assert_eq!(f.params[0].ty, "pgx::PgVarlena<MyState>");
    }
    assert_eq!(c.functions[0].name, "my_state_state");
    assert_eq!(c.functions[0].ret, "pgx::PgVarlena<MyState>");
    assert_eq!(c.functions[4].ret, "pgx::PgBox<pgx::PgVarlena<MyState>>");
    assert_eq!(c.descriptor.state_type, "MyState");
    assert_eq!(c.descriptor.full_path, "MyState");
}

#[test]
fn state_type_wrapper_wraps_signatures() {
    let mut s = spec(simple("Avg"), simple("i32"), &["state"]);
    s.types.push(ty_item("State", path("PgVarlena<Avg>", &["PgVarlena"], vec![simple("Avg")])));
    let c = ok(&s);
    assert_eq!(c.functions[0].params[0].ty, "pgx::PgVarlena<Avg>");
    assert_eq!(c.descriptor.state_type, "Avg");
}

#[test]
fn same_named_wrapper_elsewhere_is_not_the_wrapper() {
    let mut s = spec(simple("Avg"), simple("i32"), &["state"]);
    s.types.push(ty_item("State", path("other::PgVarlena<Avg>", &["other", "PgVarlena"], vec![simple("Avg")])));
    let c = ok(&s);
    assert_eq!(c.functions[0].params[0].ty, "Avg");
}

#[test]
fn wrapper_without_inner_type_is_malformed() {
    let mut wrapped = path("PgVarlena", &["PgVarlena"], Vec::new());
    wrapped.site = 2;
    let s = spec(wrapped, simple("i32"), &["state"]);
    assert_eq!(compile(&s).err(), Some(AggregateError::MalformedTypePath { site: 2 }));
}

#[test]
fn non_path_target_is_malformed() {
    let mut t = tuple(Vec::new());
    t.site = 8;
    let s = spec(t, simple("i32"), &["state"]);
    assert_eq!(compile(&s).err(), Some(AggregateError::MalformedTypePath { site: 8 }));
}

#[test]
fn other_trait_is_refused() {
    let mut s = spec(simple("MySum"), simple("i32"), &["state"]);
    s.trait_path = Some(vec!["Iterator".to_string()]);
    assert_eq!(compile(&s).err(), Some(AggregateError::InvalidTraitTarget { site: 1 }));
}

#[test]
fn missing_args_is_refused() {
    let mut s = spec(simple("MySum"), simple("i32"), &["state"]);
    s.types.clear();
    assert_eq!(
        compile(&s).err(),
        Some(AggregateError::MissingRequiredComponent { component: Required::Args, site: 9 })
    );
}

#[test]
fn missing_name_is_refused() {
    let mut s = spec(simple("MySum"), simple("i32"), &["state"]);
    s.consts.clear();
    assert_eq!(
        compile(&s).err(),
        Some(AggregateError::MissingRequiredComponent { component: Required::Name, site: 9 })
    );
}

#[test]
fn string_constant_of_wrong_kind_is_refused() {
    let mut s = spec(simple("MySum"), simple("i32"), &["state"]);
    s.consts.push(other_const("INITIAL_CONDITION", ConstValue::Lit(Literal::Other), "0"));
    assert_eq!(
        compile(&s).err(),
        Some(AggregateError::InvalidConstantType {
            constant: ConstSlot::InitialCondition,
            expected: ConstKind::Str,
            site: 5
        })
    );
}

#[test]
fn constants_reach_the_descriptor() {
    let mut s = spec(simple("MySum"), simple("i32"), &["state"]);
    s.consts.push(other_const("INITIAL_CONDITION", ConstValue::SomeLit(Literal::Str("0".to_string())), "Some(\"0\")"));
    s.consts.push(str_const("SORT_OPERATOR", ">"));
    s.consts.push(other_const("MOVING_INITIAL_CONDITION", ConstValue::NoneValue, "None"));
    s.consts.push(other_const("PARALLEL", ConstValue::Other, "Some(pgx::ParallelOption::Safe)"));
    s.consts.push(other_const("HYPOTHETICAL", ConstValue::Lit(Literal::Bool(true)), "true"));
    let c = ok(&s);
    let d = &c.descriptor;
    assert_eq!(d.initial_condition.as_deref(), Some("0"));
    assert_eq!(d.sort_operator.as_deref(), Some(">"));
    assert_eq!(d.moving_initial_condition, None);
    assert_eq!(d.parallel.as_deref(), Some("Some(pgx::ParallelOption::Safe)"));
    assert_eq!(d.finalize_modify, None);
    assert!(d.hypothetical);
}

#[test]
fn moving_operations_take_the_argument_tuple() {
    let mut s = spec(
        simple("Window"),
        tuple(vec![simple("i32"), simple("i64")]),
        &["state", "moving_state", "moving_state_inverse", "moving_finalize"],
    );
    s.types.push(ty_item("MovingState", simple("Vec<i32>")));
    let c = ok(&s);
    assert_eq!(c.functions.len(), 4);
    let ms = "<Window as pgx::Aggregate>::MovingState";
    assert_eq!(params(&c, 1), pairs(&[("mstate", ms), ("arg_one", "i32"), ("arg_two", "i64")]));
    assert_eq!(c.functions[1].call, "<Window as pgx::Aggregate>::moving_state(mstate, (arg_one, arg_two))");
    assert_eq!(c.functions[2].name, "window_moving_state_inverse");
    assert_eq!(c.functions[2].call, "<Window as pgx::Aggregate>::moving_state_inverse(mstate, (arg_one, arg_two))");
    assert_eq!(c.functions[3].ret, "<Window as pgx::Aggregate>::Finalize");
    assert_eq!(c.descriptor.moving_state_type.as_deref(), Some("Vec<i32>"));
    assert_eq!(c.defaulted_types, vec!["OrderBy", "Finalize"]);
}

#[test]
fn order_by_lists_its_types() {
    let mut s = spec(simple("Ranked"), simple("i32"), &["state"]);
    s.types.push(ty_item("OrderBy", tuple(vec![simple("i32"), simple("text")])));
    let c = ok(&s);
    assert_eq!(c.descriptor.order_by, Some(vec!["i32".to_string(), "text".to_string()]));
}

#[test]
fn last_declaration_of_a_name_counts() {
    let mut s = spec(simple("MySum"), simple("i32"), &["state"]);
    s.types.push(ty_item("Args", simple("i64")));
    let c = ok(&s);
    assert_eq!(params(&c, 0), pairs(&[("this", "MySum"), ("arg_one", "i64")]));
}

#[test]
fn synthesis_names_wrappers_from_the_given_base() {
    let s = spec(simple("MySum"), simple("i32"), &["state", "deserial"]);
    let v = match validate(&s) {
        Ok(v) => v,
        Err(e) => panic!("validation failed: {:?}", e),
    };
    let c = synthesize(v, "custom");
    assert_eq!(c.functions[0].name, "custom_state");
    assert_eq!(c.functions[1].name, "custom_deserial");
    assert_eq!(
        params(&c, 1),
        pairs(&[("this", "MySum"), ("buf", "Vec<u8>"), ("internal", "pgx::PgBox<MySum>")])
    );
    assert_eq!(c.functions[1].call, "<MySum as pgx::Aggregate>::deserial(this, buf, internal)");
    assert_eq!(c.descriptor.deserial_function.as_deref(), Some("custom_deserial"));
    assert_eq!(c.descriptor.state_function, "custom_state");
}

#[test]
fn non_ascii_target_name_is_refused_before_snake_casing() {
    let mut t = simple("aÉ");
    t.site = 11;
    let s = spec(t, simple("i32"), &["state"]);
    assert_eq!(compile(&s).err(), Some(AggregateError::NonAsciiTargetName { site: 11 }));
    let mut wrapped = path("PgVarlena<éBc>", &["PgVarlena"], vec![simple("éBc")]);
    wrapped.site = 12;
    let s = spec(wrapped, simple("i32"), &["state"]);
    assert_eq!(compile(&s).err(), Some(AggregateError::NonAsciiTargetName { site: 12 }));
}

#[test]
fn non_ascii_target_path_resolves_unchanged() {
    let t = path("pgx::aÉ", &["pgx", "aÉ"], Vec::new());
    let target = match get_target_path(&t) {
        Ok(t) => t,
        Err(e) => panic!("resolution failed: {:?}", e),
    };
    assert_eq!(target.path, "pgx::aÉ");
    assert_eq!(target.ident, "aÉ");
    assert!(!target.wrapped);
    let s = spec(simple("aÉ"), simple("i32"), &["state"]);
    assert!(validate(&s).is_ok());
}

#[test]
fn entity_function_keeps_the_whole_name() {
    let s = spec(simple("FooState"), simple("i32"), &["state"]);
    let c = ok(&s);
    assert_eq!(c.functions[0].name, "foo_state_state");
    assert_eq!(c.entity_function, "__pgx_internals_aggregate_foo_state");
    let s = spec(simple("Foo"), simple("i32"), &["state"]);
    assert_eq!(ok(&s).entity_function, "__pgx_internals_aggregate_foo");
}
