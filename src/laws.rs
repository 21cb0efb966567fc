//! Properties that hold of every compilation.
use vstd::prelude::*;
use vstd::utf8::is_ascii_chars;
use crate::compiler::{compile_post, compiled, snake_case_of, synthesized, CompiledAggregate};
use crate::error::AggregateError;
use crate::model::{is_by_value_wrapper, is_variadic, AggregateSpec, Component, MethodItem, TypeExpr, TypeItem};
use crate::names::arg_name;
use crate::resolve::{
    arg_model, arg_types, find_method, find_type, resolve_args, slots_of, state_wrapped, target_of,
    validated, ArgModel, Slots, ValidatedModel,
};
use crate::synth::{
    absent_components, arg_params, boxed, call_text, function_model, function_name, joined,
    opt_component, param_names, pm, present_components, state_type, unsupported_message,
};

verus! {

/// Compiling the same description twice gives the same outcome: the same
/// error, or the same functions, stubs, default types and descriptor.
pub proof fn compile_is_deterministic(
    s: AggregateSpec,
    r1: Result<CompiledAggregate, AggregateError>,
    r2: Result<CompiledAggregate, AggregateError>,
)
    requires
        compile_post(s, r1),
        compile_post(s, r2),
    ensures
        match (r1, r2) {
            (Ok(a), Ok(b)) => a@ == b@,
            (Err(x), Err(y)) => x == y,
            _ => false,
        },
{
}

proof fn lemma_concat_contains(a: Seq<Component>, b: Seq<Component>, c: Component)
    ensures
        (a + b).contains(c) <==> (a.contains(c) || b.contains(c)),
{
    if a.contains(c) {
        let i = choose|i: int| 0 <= i < a.len() && a[i] == c;
        assert((a + b)[i] == c);
    }
    if b.contains(c) {
        let j = choose|j: int| 0 <= j < b.len() && b[j] == c;
        assert((a + b)[a.len() + j] == c);
    }
    if (a + b).contains(c) {
        let k = choose|k: int| 0 <= k < (a + b).len() && (a + b)[k] == c;
        if k < a.len() {
            assert(a[k] == c);
        } else {
            assert(b[k - a.len()] == c);
        }
    }
}

proof fn lemma_opt_contains(b: bool, x: Component, c: Component)
    ensures
        opt_component(b, x).contains(c) <==> (b && x == c),
{
    if b && x == c {
        assert(opt_component(b, x)[0] == c);
    }
}

/// The operations that get a wrapper are `state` and the present optional
/// ones.
proof fn lemma_present_list(sl: Slots, c: Component)
    ensures
        present_components(sl).contains(c) <==> sl.has(c),
{
    let o1 = opt_component(sl.combine, Component::Combine);
    let o2 = opt_component(sl.finalize, Component::Finalize);
    let o3 = opt_component(sl.serial, Component::Serial);
    let o4 = opt_component(sl.deserial, Component::Deserial);
    let o5 = opt_component(sl.moving_state, Component::MovingState);
    let o6 = opt_component(sl.moving_state_inverse, Component::MovingStateInverse);
    let o7 = opt_component(sl.moving_finalize, Component::MovingFinalize);
    let p0 = seq![Component::State];
    assert(p0.contains(c) <==> c == Component::State) by {
        if c == Component::State {
            assert(p0[0] == c);
        }
    }
    lemma_concat_contains(p0, o1, c);
    lemma_concat_contains(p0 + o1, o2, c);
    lemma_concat_contains(p0 + o1 + o2, o3, c);
    lemma_concat_contains(p0 + o1 + o2 + o3, o4, c);
    lemma_concat_contains(p0 + o1 + o2 + o3 + o4, o5, c);
    lemma_concat_contains(p0 + o1 + o2 + o3 + o4 + o5, o6, c);
    lemma_concat_contains(p0 + o1 + o2 + o3 + o4 + o5 + o6, o7, c);
    lemma_opt_contains(sl.combine, Component::Combine, c);
    lemma_opt_contains(sl.finalize, Component::Finalize, c);
    lemma_opt_contains(sl.serial, Component::Serial, c);
    lemma_opt_contains(sl.deserial, Component::Deserial, c);
    lemma_opt_contains(sl.moving_state, Component::MovingState, c);
    lemma_opt_contains(sl.moving_state_inverse, Component::MovingStateInverse, c);
    lemma_opt_contains(sl.moving_finalize, Component::MovingFinalize, c);
}

/// The operations that get a stub are the absent optional ones.
proof fn lemma_absent_list(sl: Slots, c: Component)
    ensures
        absent_components(sl).contains(c) <==> (c != Component::State && !sl.has(c)),
{
    let a1 = opt_component(!sl.combine, Component::Combine);
    let a2 = opt_component(!sl.finalize, Component::Finalize);
    let a3 = opt_component(!sl.serial, Component::Serial);
    let a4 = opt_component(!sl.deserial, Component::Deserial);
    let a5 = opt_component(!sl.moving_state, Component::MovingState);
    let a6 = opt_component(!sl.moving_state_inverse, Component::MovingStateInverse);
    let a7 = opt_component(!sl.moving_finalize, Component::MovingFinalize);
    let e = Seq::<Component>::empty();
    lemma_concat_contains(e, a1, c);
    lemma_concat_contains(e + a1, a2, c);
    lemma_concat_contains(e + a1 + a2, a3, c);
    lemma_concat_contains(e + a1 + a2 + a3, a4, c);
    lemma_concat_contains(e + a1 + a2 + a3 + a4, a5, c);
    lemma_concat_contains(e + a1 + a2 + a3 + a4 + a5, a6, c);
    lemma_concat_contains(e + a1 + a2 + a3 + a4 + a5 + a6, a7, c);
    lemma_opt_contains(!sl.combine, Component::Combine, c);
    lemma_opt_contains(!sl.finalize, Component::Finalize, c);
    lemma_opt_contains(!sl.serial, Component::Serial, c);
    lemma_opt_contains(!sl.deserial, Component::Deserial, c);
    lemma_opt_contains(!sl.moving_state, Component::MovingState, c);
    lemma_opt_contains(!sl.moving_state_inverse, Component::MovingStateInverse, c);
    lemma_opt_contains(!sl.moving_finalize, Component::MovingFinalize, c);
}

/// What a checked description carries, as read from the description.
proof fn lemma_validated(s: AggregateSpec)
    requires
        validated(s) is Ok,
    ensures
        target_of(s.self_ty) is Ok,
        validated(s)->Ok_0.target == target_of(s.self_ty)->Ok_0,
        validated(s)->Ok_0.wrapped_state == state_wrapped(s, target_of(s.self_ty)->Ok_0),
        validated(s)->Ok_0.slots == slots_of(s.methods@),
        find_type(s.types@, "Args"@) is Some,
        resolve_args(find_type(s.types@, "Args"@)->Some_0.ty) == Ok::<Seq<ArgModel>, AggregateError>(
            validated(s)->Ok_0.args,
        ),
{
    reveal(validated);
}

/// An optional operation's slot is set exactly when a method of its name
/// is defined.
proof fn lemma_slot_has(m: Seq<MethodItem>, c: Component)
    ensures
        slots_of(m).has(c) <==> (c == Component::State || find_method(m, c.spec_name()) is Some),
{
}

/// A compiled description is a checked one, synthesized from the
/// snake-cased target name.
proof fn lemma_compiled(s: AggregateSpec)
    requires
        compiled(s) is Ok,
    ensures
        validated(s) is Ok,
        is_ascii_chars(validated(s)->Ok_0.target.ident),
        compiled(s)->Ok_0 == synthesized(validated(s)->Ok_0, snake_case_of(validated(s)->Ok_0.target.ident)),
{
}

/// An optional operation that the description leaves out gets no wrapper
/// and no descriptor field; it gets a stub whose call fails as an
/// unsupported operation named after it.
pub proof fn absent_operations_are_stubbed(s: AggregateSpec, c: Component)
    requires
        compiled(s) is Ok,
        c != Component::State,
        find_method(s.methods@, c.spec_name()) is None,
    ensures
        compiled(s)->Ok_0.descriptor.function_for(c) is None,
        forall|i: int|
            0 <= i < compiled(s)->Ok_0.functions.len() ==> (#[trigger] compiled(s)->Ok_0.functions[i]).component != c,
        exists|i: int|
            0 <= i < compiled(s)->Ok_0.stubs.len() && (#[trigger] compiled(s)->Ok_0.stubs[i]).component == c
                && compiled(s)->Ok_0.stubs[i].message == unsupported_message(c),
{
    lemma_compiled(s);
    lemma_validated(s);
    let v = validated(s)->Ok_0;
    lemma_slot_has(s.methods@, c);
    lemma_present_list(v.slots, c);
    lemma_absent_list(v.slots, c);
    let out = compiled(s)->Ok_0;
    let present = present_components(v.slots);
    assert forall|i: int| 0 <= i < out.functions.len() implies (#[trigger] out.functions[i]).component != c by {
        assert(out.functions[i].component == present[i]);
    }
    let absent = absent_components(v.slots);
    let j = choose|j: int| 0 <= j < absent.len() && absent[j] == c;
    assert(out.stubs[j].component == c);
}

/// An operation that the description defines (and `state`, always) gets a
/// wrapper named from the snake-cased target name, and the descriptor
/// names it.
pub proof fn present_operations_are_wrapped(s: AggregateSpec, c: Component)
    requires
        compiled(s) is Ok,
        c == Component::State || find_method(s.methods@, c.spec_name()) is Some,
    ensures
        compiled(s)->Ok_0.descriptor.function_for(c) == Some(
            function_name(snake_case_of(validated(s)->Ok_0.target.ident), c),
        ),
        exists|i: int|
            0 <= i < compiled(s)->Ok_0.functions.len() && (#[trigger] compiled(s)->Ok_0.functions[i]).component == c
                && compiled(s)->Ok_0.functions[i].name == function_name(
                snake_case_of(validated(s)->Ok_0.target.ident),
                c,
            ),
{
    lemma_compiled(s);
    lemma_validated(s);
    let v = validated(s)->Ok_0;
    lemma_slot_has(s.methods@, c);
    lemma_present_list(v.slots, c);
    let present = present_components(v.slots);
    let j = choose|j: int| 0 <= j < present.len() && present[j] == c;
    assert(compiled(s)->Ok_0.functions[j].component == c);
}

/// The position of an operation in the order wrappers are made in.
pub open spec fn rank(c: Component) -> int {
    match c {
        Component::State => 0,
        Component::Combine => 1,
        Component::Finalize => 2,
        Component::Serial => 3,
        Component::Deserial => 4,
        Component::MovingState => 5,
        Component::MovingStateInverse => 6,
        Component::MovingFinalize => 7,
    }
}

pub open spec fn ranks_increase(p: Seq<Component>) -> bool {
    forall|i: int, j: int| 0 <= i < j < p.len() ==> rank(#[trigger] p[i]) < rank(#[trigger] p[j])
}

pub open spec fn ranks_below(p: Seq<Component>, r: int) -> bool {
    forall|i: int| 0 <= i < p.len() ==> rank(#[trigger] p[i]) < r
}

proof fn lemma_rank_step(p: Seq<Component>, b: bool, c: Component)
    requires
        ranks_increase(p),
        ranks_below(p, rank(c)),
    ensures
        ranks_increase(p + opt_component(b, c)),
        ranks_below(p + opt_component(b, c), rank(c) + 1),
{
    let q = p + opt_component(b, c);
    assert forall|i: int, j: int| 0 <= i < j < q.len() implies rank(#[trigger] q[i]) < rank(#[trigger] q[j]) by {
        if j >= p.len() {
            assert(q[j] == c);
            assert(q[i] == p[i]);
        } else {
            assert(q[i] == p[i] && q[j] == p[j]);
        }
    }
    assert forall|i: int| 0 <= i < q.len() implies rank(#[trigger] q[i]) < rank(c) + 1 by {
        if i < p.len() {
            assert(q[i] == p[i]);
        } else {
            assert(q[i] == c);
        }
    }
}

/// The wrapped operations come in a fixed order, so none comes twice.
proof fn lemma_present_ranks(sl: Slots)
    ensures
        ranks_increase(present_components(sl)),
{
    let p0 = seq![Component::State];
    let p1 = p0 + opt_component(sl.combine, Component::Combine);
    let p2 = p1 + opt_component(sl.finalize, Component::Finalize);
    let p3 = p2 + opt_component(sl.serial, Component::Serial);
    let p4 = p3 + opt_component(sl.deserial, Component::Deserial);
    let p5 = p4 + opt_component(sl.moving_state, Component::MovingState);
    let p6 = p5 + opt_component(sl.moving_state_inverse, Component::MovingStateInverse);
    assert(ranks_below(p0, 1));
    lemma_rank_step(p0, sl.combine, Component::Combine);
    lemma_rank_step(p1, sl.finalize, Component::Finalize);
    lemma_rank_step(p2, sl.serial, Component::Serial);
    lemma_rank_step(p3, sl.deserial, Component::Deserial);
    lemma_rank_step(p4, sl.moving_state, Component::MovingState);
    lemma_rank_step(p5, sl.moving_state_inverse, Component::MovingStateInverse);
    lemma_rank_step(p6, sl.moving_finalize, Component::MovingFinalize);
}

/// The stubbed operations come in a fixed order, so none comes twice.
proof fn lemma_absent_ranks(sl: Slots)
    ensures
        ranks_increase(absent_components(sl)),
{
    let p0 = Seq::<Component>::empty();
    let p1 = p0 + opt_component(!sl.combine, Component::Combine);
    let p2 = p1 + opt_component(!sl.finalize, Component::Finalize);
    let p3 = p2 + opt_component(!sl.serial, Component::Serial);
    let p4 = p3 + opt_component(!sl.deserial, Component::Deserial);
    let p5 = p4 + opt_component(!sl.moving_state, Component::MovingState);
    let p6 = p5 + opt_component(!sl.moving_state_inverse, Component::MovingStateInverse);
    lemma_rank_step(p0, !sl.combine, Component::Combine);
    lemma_rank_step(p1, !sl.finalize, Component::Finalize);
    lemma_rank_step(p2, !sl.serial, Component::Serial);
    lemma_rank_step(p3, !sl.deserial, Component::Deserial);
    lemma_rank_step(p4, !sl.moving_state, Component::MovingState);
    lemma_rank_step(p5, !sl.moving_state_inverse, Component::MovingStateInverse);
    lemma_rank_step(p6, !sl.moving_finalize, Component::MovingFinalize);
}

/// Each absent operation gets one stub only: no two stubs stand for the
/// same operation.
pub proof fn stubs_are_unique(s: AggregateSpec, i: int, j: int)
    requires
        compiled(s) is Ok,
        0 <= i < compiled(s)->Ok_0.stubs.len(),
        0 <= j < compiled(s)->Ok_0.stubs.len(),
        compiled(s)->Ok_0.stubs[i].component == compiled(s)->Ok_0.stubs[j].component,
    ensures
        i == j,
{
    lemma_compiled(s);
    let v = validated(s)->Ok_0;
    let absent = absent_components(v.slots);
    lemma_absent_ranks(v.slots);
    let out = compiled(s)->Ok_0;
    assert(out.stubs[i].component == absent[i]);
    assert(out.stubs[j].component == absent[j]);
    if i < j {
        assert(rank(absent[i]) < rank(absent[j]));
    } else if j < i {
        assert(rank(absent[j]) < rank(absent[i]));
    }
}

/// The length and first character of each operation's name; no two
/// operations share both.
proof fn lemma_name_shape(c: Component)
    ensures
        c.spec_name().len() == match c {
            Component::State => 5int,
            Component::Combine => 7,
            Component::Finalize => 8,
            Component::Serial => 6,
            Component::Deserial => 8,
            Component::MovingState => 12,
            Component::MovingStateInverse => 20,
            Component::MovingFinalize => 15,
        },
        c.spec_name()[0] == match c {
            Component::State => 's',
            Component::Combine => 'c',
            Component::Finalize => 'f',
            Component::Serial => 's',
            Component::Deserial => 'd',
            _ => 'm',
        },
{
    reveal_strlit("state");
    reveal_strlit("combine");
    reveal_strlit("finalize");
    reveal_strlit("serial");
    reveal_strlit("deserial");
    reveal_strlit("moving_state");
    reveal_strlit("moving_state_inverse");
    reveal_strlit("moving_finalize");
}

/// Wrappers of two different operations have different names.
pub proof fn function_names_differ(base: Seq<char>, c1: Component, c2: Component)
    requires
        c1 != c2,
    ensures
        function_name(base, c1) != function_name(base, c2),
{
    if function_name(base, c1) == function_name(base, c2) {
        let p = base + "_"@;
        let n1 = function_name(base, c1);
        assert(n1.subrange(p.len() as int, n1.len() as int) =~= c1.spec_name());
        assert(n1.subrange(p.len() as int, n1.len() as int) =~= c2.spec_name());
        lemma_name_shape(c1);
        lemma_name_shape(c2);
    }
}

/// No two generated functions share a name: each name, the state
/// wrapper's included, belongs to exactly one of them.
pub proof fn function_names_are_unique(s: AggregateSpec, i: int, j: int)
    requires
        compiled(s) is Ok,
        0 <= i < compiled(s)->Ok_0.functions.len(),
        0 <= j < compiled(s)->Ok_0.functions.len(),
        compiled(s)->Ok_0.functions[i].name == compiled(s)->Ok_0.functions[j].name,
    ensures
        i == j,
{
    lemma_compiled(s);
    let v = validated(s)->Ok_0;
    let base = snake_case_of(v.target.ident);
    let present = present_components(v.slots);
    lemma_present_ranks(v.slots);
    let out = compiled(s)->Ok_0;
    assert(out.functions[i] == function_model(v, base, present[i]));
    assert(out.functions[j] == function_model(v, base, present[j]));
    if i != j {
        if i < j {
            assert(rank(present[i]) < rank(present[j]));
        } else {
            assert(rank(present[j]) < rank(present[i]));
        }
        function_names_differ(base, present[i], present[j]);
    }
}

/// The state wrapper of a checked description whose arguments are the
/// ordinary arguments `elems`.
proof fn lemma_state_function(v: ValidatedModel, base: Seq<char>, elems: Seq<TypeExpr>)
    requires
        v.args == Seq::new(elems.len(), |i: int| arg_model(i, elems[i])),
        forall|i: int| 0 <= i < elems.len() ==> !is_variadic(#[trigger] elems[i]),
    ensures
        function_model(v, base, Component::State).params.len() == elems.len() + 1,
        forall|i: int|
            0 <= i < elems.len() ==> function_model(v, base, Component::State).params[i + 1] == pm(
                arg_name(i),
                (#[trigger] elems[i]).text@,
            ),
        function_model(v, base, Component::State).call == "<"@ + v.target.path + " as pgx::Aggregate>::"@
            + "state"@ + "("@ + joined(seq!["this"@] + Seq::new(elems.len(), |i: int| arg_name(i))) + ")"@,
{
    let f = function_model(v, base, Component::State);
    assert forall|i: int| 0 <= i < elems.len() implies f.params[i + 1] == pm(arg_name(i), (#[trigger] elems[i]).text@) by {
        assert(v.args[i] == arg_model(i, elems[i]));
        assert(arg_params(v.args)[i] == pm(arg_name(i), elems[i].text@));
    }
    assert(param_names(f.params) =~= seq!["this"@] + Seq::new(elems.len(), |i: int| arg_name(i)));
    assert(f.call == call_text(v, Component::State));
}

/// With `Args` a tuple of types none of which is variadic, the state
/// wrapper takes the state and then one parameter per element, in the
/// tuple's order, named from the pool and typed as the element; it passes
/// them on in that order to the target's `state`.
pub proof fn state_wrapper_follows_args(s: AggregateSpec, a: TypeItem, elems: Seq<TypeExpr>)
    requires
        compiled(s) is Ok,
        find_type(s.types@, "Args"@) == Some(a),
        a.ty.kind is Tuple,
        a.ty.kind->Tuple_elems@ == elems,
        forall|i: int| 0 <= i < elems.len() ==> !is_variadic(#[trigger] elems[i]),
    ensures
        compiled(s)->Ok_0.functions[0].component == Component::State,
        compiled(s)->Ok_0.functions[0].params.len() == elems.len() + 1,
        forall|i: int|
            0 <= i < elems.len() ==> compiled(s)->Ok_0.functions[0].params[i + 1] == pm(
                arg_name(i),
                (#[trigger] elems[i]).text@,
            ),
        compiled(s)->Ok_0.functions[0].call == "<"@ + compiled(s)->Ok_0.descriptor.full_path
            + " as pgx::Aggregate>::"@ + "state"@ + "("@ + joined(
            seq!["this"@] + Seq::new(elems.len(), |i: int| arg_name(i)),
        ) + ")"@,
{
    lemma_compiled(s);
    lemma_validated(s);
    let v = validated(s)->Ok_0;
    let base = snake_case_of(v.target.ident);
    assert(arg_types(a.ty) == elems);
    assert(v.args =~= Seq::new(elems.len(), |i: int| arg_model(i, elems[i])));
    let present = present_components(v.slots);
    assert(present[0] == Component::State);
    assert(compiled(s)->Ok_0.functions[0] == function_model(v, base, Component::State));
    lemma_state_function(v, base, elems);
}

/// A variadic argument can only be the last one: every entry before the
/// last of a compiled argument list is an ordinary argument.
pub proof fn variadic_only_last(s: AggregateSpec, i: int)
    requires
        compiled(s) is Ok,
        0 <= i < compiled(s)->Ok_0.descriptor.args.len() - 1,
    ensures
        compiled(s)->Ok_0.descriptor.args[i].variadic_ty is None,
{
    lemma_compiled(s);
    lemma_validated(s);
    let v = validated(s)->Ok_0;
    let a = find_type(s.types@, "Args"@)->Some_0;
    let ts = arg_types(a.ty);
    assert(v.args[i] == arg_model(i, ts[i]));
    assert(!is_variadic(ts[i]));
}

/// With `Args` the variadic wrapper around `T`, the argument list is one
/// entry, marked variadic: it records the wrapper type as written and the
/// flattened `T`, and the state wrapper's last parameter has type `T`.
pub proof fn variadic_args_form_the_tail(s: AggregateSpec, a: TypeItem)
    requires
        compiled(s) is Ok,
        find_type(s.types@, "Args"@) == Some(a),
        is_variadic(a.ty),
    ensures
        compiled(s)->Ok_0.descriptor.args.len() == 1,
        compiled(s)->Ok_0.descriptor.args.last().ty == a.ty.text@,
        compiled(s)->Ok_0.descriptor.args.last().variadic_ty == Some(a.ty.kind->Macro_args@[0].text@),
        compiled(s)->Ok_0.functions[0].params.last().ty == a.ty.kind->Macro_args@[0].text@,
{
    lemma_compiled(s);
    lemma_validated(s);
    let v = validated(s)->Ok_0;
    assert(arg_types(a.ty) == seq![a.ty]);
    assert(v.args[0] == arg_model(0, a.ty));
    let present = present_components(v.slots);
    assert(present[0] == Component::State);
    let f = compiled(s)->Ok_0.functions[0];
    assert(f == function_model(v, snake_case_of(v.target.ident), Component::State));
    assert(f.params.last() == arg_params(v.args)[0]);
}

/// The type a state has in signatures: the wrapper around the target when
/// the state travels wrapped, the bare target otherwise.
pub open spec fn signature_state(s: AggregateSpec) -> Seq<char> {
    if state_wrapped(s, target_of(s.self_ty)->Ok_0) {
        "pgx::PgVarlena<"@ + target_of(s.self_ty)->Ok_0.path + ">"@
    } else {
        target_of(s.self_ty)->Ok_0.path
    }
}

/// Every wrapper that takes or returns a state uses one state type: the
/// by-value wrapper around the target when the description implements the
/// trait for the wrapper or declares `State` as the wrapper, the bare
/// target otherwise. The descriptor names the state by the target's own,
/// unwrapped, name.
pub proof fn state_encoding_reaches_signatures(s: AggregateSpec, i: int)
    requires
        compiled(s) is Ok,
        0 <= i < compiled(s)->Ok_0.functions.len(),
        match compiled(s)->Ok_0.functions[i].component {
            Component::State | Component::Combine | Component::Finalize | Component::Serial
            | Component::Deserial => true,
            _ => false,
        },
    ensures
        compiled(s)->Ok_0.functions[i].params[0].ty == signature_state(s),
        compiled(s)->Ok_0.functions[i].component == Component::Combine ==> compiled(s)->Ok_0.functions[i].params[1].ty
            == signature_state(s),
        (compiled(s)->Ok_0.functions[i].component == Component::State || compiled(s)->Ok_0.functions[i].component
            == Component::Combine) ==> compiled(s)->Ok_0.functions[i].ret == signature_state(s),
        compiled(s)->Ok_0.functions[i].component == Component::Deserial ==> compiled(s)->Ok_0.functions[i].ret
            == boxed(signature_state(s)),
        compiled(s)->Ok_0.descriptor.state_type == target_of(s.self_ty)->Ok_0.ident,
        compiled(s)->Ok_0.descriptor.full_path == target_of(s.self_ty)->Ok_0.path,
{
    lemma_compiled(s);
    lemma_validated(s);
    let v = validated(s)->Ok_0;
    let present = present_components(v.slots);
    let f = compiled(s)->Ok_0.functions[i];
    assert(f == function_model(v, snake_case_of(v.target.ident), present[i]));
    assert(state_type(v) == signature_state(s));
}

/// The state travels wrapped when the description implements the trait for
/// the wrapper around its target, or declares `State` as the wrapper; a
/// wrapped target is then the type inside the wrapper.
pub proof fn wrapped_encoding_is_detected(s: AggregateSpec)
    requires
        compiled(s) is Ok,
        target_of(s.self_ty)->Ok_0.wrapped || (find_type(s.types@, "State"@) is Some && is_by_value_wrapper(
            find_type(s.types@, "State"@)->Some_0.ty,
        )),
    ensures
        state_wrapped(s, target_of(s.self_ty)->Ok_0),
        target_of(s.self_ty)->Ok_0.wrapped ==> compiled(s)->Ok_0.descriptor.full_path
            == s.self_ty.kind->Path_args@[0].text@,
{
    lemma_compiled(s);
    lemma_validated(s);
}

} // verus!
