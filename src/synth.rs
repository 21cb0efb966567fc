//! Synthesis of the entry points: one wrapper for each present operation,
//! and a stub for each absent one.
use vstd::prelude::*;
use crate::model::Component;
use crate::resolve::{args_view, signature_type, texts, ArgEntry, ArgModel, Slots, Validated, ValidatedModel};

verus! {

/// A parameter of a generated function: its name and type as source text.
pub struct Param {
    pub name: String,
    pub ty: String,
}

pub struct ParamModel {
    pub name: Seq<char>,
    pub ty: Seq<char>,
}

impl View for Param {
    type V = ParamModel;

    open spec fn view(&self) -> ParamModel {
        ParamModel { name: self.name@, ty: self.ty@ }
    }
}

pub open spec fn params_view(v: Seq<Param>) -> Seq<ParamModel> {
    v.map_values(|p: Param| p@)
}

pub open spec fn pm(name: Seq<char>, ty: Seq<char>) -> ParamModel {
    ParamModel { name, ty }
}

/// The type a state value has in the signatures: the target type, or the
/// by-value wrapper around it.
pub open spec fn state_type(v: ValidatedModel) -> Seq<char> {
    if v.wrapped_state {
        "pgx::PgVarlena<"@ + v.target.path + ">"@
    } else {
        v.target.path
    }
}

/// An item of the target's `Aggregate` implementation, as a qualified path.
pub open spec fn assoc(v: ValidatedModel, member: Seq<char>) -> Seq<char> {
    "<"@ + v.target.path + " as pgx::Aggregate>::"@ + member
}

pub open spec fn boxed(t: Seq<char>) -> Seq<char> {
    "pgx::PgBox<"@ + t + ">"@
}

/// The name of the wrapper for `c`: the snake-cased target name, an
/// underscore, and the operation's name.
pub open spec fn function_name(base: Seq<char>, c: Component) -> Seq<char> {
    base + "_"@ + c.spec_name()
}

/// The argument list as parameters, each with its call-signature type.
pub open spec fn arg_params(args: Seq<ArgModel>) -> Seq<ParamModel> {
    args.map_values(|a: ArgModel| pm(a.name, signature_type(a)))
}

/// The parameters of the wrapper for `c`.
pub open spec fn wrapper_params(v: ValidatedModel, c: Component) -> Seq<ParamModel> {
    let st = state_type(v);
    let ms = assoc(v, "MovingState"@);
    match c {
        Component::State => seq![pm("this"@, st)] + arg_params(v.args),
        Component::Combine => seq![pm("this"@, st), pm("v"@, st)],
        Component::Finalize => seq![pm("this"@, st)],
        Component::Serial => seq![pm("this"@, st)],
        Component::Deserial => seq![pm("this"@, st), pm("buf"@, "Vec<u8>"@), pm("internal"@, boxed(st))],
        Component::MovingState => seq![pm("mstate"@, ms)] + arg_params(v.args),
        Component::MovingStateInverse => seq![pm("mstate"@, ms)] + arg_params(v.args),
        Component::MovingFinalize => seq![pm("mstate"@, ms)],
    }
}

/// The return type of the wrapper for `c`.
pub open spec fn wrapper_ret(v: ValidatedModel, c: Component) -> Seq<char> {
    match c {
        Component::State => state_type(v),
        Component::Combine => state_type(v),
        Component::Finalize => assoc(v, "Finalize"@),
        Component::Serial => "Vec<u8>"@,
        Component::Deserial => boxed(state_type(v)),
        Component::MovingState => assoc(v, "MovingState"@),
        Component::MovingStateInverse => assoc(v, "MovingState"@),
        Component::MovingFinalize => assoc(v, "Finalize"@),
    }
}

/// Items separated by `, `.
pub open spec fn joined(items: Seq<Seq<char>>) -> Seq<char>
    decreases items.len(),
{
    if items.len() == 0 {
        Seq::empty()
    } else if items.len() == 1 {
        items[0]
    } else {
        joined(items.drop_last()) + ", "@ + items.last()
    }
}

pub open spec fn param_names(ps: Seq<ParamModel>) -> Seq<Seq<char>> {
    ps.map_values(|p: ParamModel| p.name)
}

/// What the wrapper for `c` hands to the user's operation: its own
/// parameters, except that the moving-window operations take the
/// arguments as one tuple.
pub open spec fn call_args(v: ValidatedModel, c: Component) -> Seq<Seq<char>> {
    match c {
        Component::MovingState | Component::MovingStateInverse => seq![
            "mstate"@,
            "("@ + joined(v.args.map_values(|a: ArgModel| a.name)) + ")"@,
        ],
        _ => param_names(wrapper_params(v, c)),
    }
}

/// The call that the wrapper for `c` makes.
pub open spec fn call_text(v: ValidatedModel, c: Component) -> Seq<char> {
    assoc(v, c.spec_name()) + "("@ + joined(call_args(v, c)) + ")"@
}

/// A function to export: the operation it wraps, its name, its parameters,
/// its return type and the call it delegates to.
pub struct GeneratedFunction {
    pub component: Component,
    pub name: String,
    pub params: Vec<Param>,
    pub ret: String,
    pub call: String,
}

pub struct FunctionModel {
    pub component: Component,
    pub name: Seq<char>,
    pub params: Seq<ParamModel>,
    pub ret: Seq<char>,
    pub call: Seq<char>,
}

impl View for GeneratedFunction {
    type V = FunctionModel;

    open spec fn view(&self) -> FunctionModel {
        FunctionModel {
            component: self.component,
            name: self.name@,
            params: params_view(self.params@),
            ret: self.ret@,
            call: self.call@,
        }
    }
}

/// The wrapper for `c`.
pub open spec fn function_model(v: ValidatedModel, base: Seq<char>, c: Component) -> FunctionModel {
    FunctionModel {
        component: c,
        name: function_name(base, c),
        params: wrapper_params(v, c),
        ret: wrapper_ret(v, c),
        call: call_text(v, c),
    }
}

fn text_of(parts: &str) -> (r: String)
    ensures
        r@ == parts@,
{
    String::from_str(parts)
}

fn param(name: &str, ty: String) -> (r: Param)
    ensures
        r@ == pm(name@, ty@),
{
    Param { name: String::from_str(name), ty }
}

fn state_type_text(v: &Validated) -> (r: String)
    ensures
        r@ == state_type(v@),
{
    if v.wrapped_state {
        let mut s = String::from_str("pgx::PgVarlena<");
        s.append(v.target.path.as_str());
        s.append(">");
        s
    } else {
        v.target.path.clone()
    }
}

fn assoc_text(v: &Validated, member: &str) -> (r: String)
    ensures
        r@ == assoc(v@, member@),
{
    let mut s = String::from_str("<");
    s.append(v.target.path.as_str());
    s.append(" as pgx::Aggregate>::");
    s.append(member);
    s
}

fn boxed_text(t: &String) -> (r: String)
    ensures
        r@ == boxed(t@),
{
    let mut s = String::from_str("pgx::PgBox<");
    s.append(t.as_str());
    s.append(">");
    s
}

/// The name of the wrapper for `c`, from the snake-cased target name.
pub fn function_name_text(base: &str, c: Component) -> (r: String)
    ensures
        r@ == function_name(base@, c),
{
    let mut s = String::from_str(base);
    s.append("_");
    s.append(c.name());
    s
}

fn arg_param(a: &ArgEntry) -> (r: Param)
    ensures
        r@ == pm(a@.name, signature_type(a@)),
{
    let ty = match &a.variadic_ty {
        Some(t) => t.clone(),
        None => a.ty.clone(),
    };
    Param { name: a.name.clone(), ty }
}

/// Appends the argument list, as parameters, to `out`.
fn push_arg_params(out: &mut Vec<Param>, args: &Vec<ArgEntry>)
    ensures
        params_view(final(out)@) == params_view(old(out)@) + arg_params(args_view(args@)),
{
    let ghost start = params_view(out@);
    let mut i: usize = 0;
    while i < args.len()
        invariant
            i <= args@.len(),
            params_view(out@) =~= start + arg_params(args_view(args@.subrange(0, i as int))),
        decreases args.len() - i,
    {
        let p = arg_param(&args[i]);
        let ghost prev = out@;
        out.push(p);
        assert(params_view(out@) =~= params_view(prev).push(p@));
        assert(args@.subrange(0, i + 1) =~= args@.subrange(0, i as int).push(args@[i as int]));
        i += 1;
    }
    assert(args@.subrange(0, args@.len() as int) =~= args@);
}

/// The parameters of the wrapper for `c`.
pub fn build_wrapper_params(v: &Validated, c: Component) -> (r: Vec<Param>)
    ensures
        params_view(r@) == wrapper_params(v@, c),
{
    let mut out: Vec<Param> = Vec::new();
    match c {
        Component::State => {
            out.push(param("this", state_type_text(v)));
            push_arg_params(&mut out, &v.args);
        },
        Component::Combine => {
            out.push(param("this", state_type_text(v)));
            out.push(param("v", state_type_text(v)));
        },
        Component::Finalize | Component::Serial => {
            out.push(param("this", state_type_text(v)));
        },
        Component::Deserial => {
            let st = state_type_text(v);
            let bx = boxed_text(&st);
            out.push(param("this", st));
            out.push(param("buf", text_of("Vec<u8>")));
            out.push(param("internal", bx));
        },
        Component::MovingState | Component::MovingStateInverse => {
            out.push(param("mstate", assoc_text(v, "MovingState")));
            push_arg_params(&mut out, &v.args);
        },
        Component::MovingFinalize => {
            out.push(param("mstate", assoc_text(v, "MovingState")));
        },
    }
    assert(params_view(out@) =~= wrapper_params(v@, c));
    out
}

/// The return type of the wrapper for `c`.
pub fn build_wrapper_ret(v: &Validated, c: Component) -> (r: String)
    ensures
        r@ == wrapper_ret(v@, c),
{
    match c {
        Component::State | Component::Combine => state_type_text(v),
        Component::Finalize | Component::MovingFinalize => assoc_text(v, "Finalize"),
        Component::Serial => text_of("Vec<u8>"),
        Component::Deserial => boxed_text(&state_type_text(v)),
        Component::MovingState | Component::MovingStateInverse => assoc_text(v, "MovingState"),
    }
}

/// The items separated by `, `.
pub fn join_names(items: &Vec<String>) -> (r: String)
    ensures
        r@ == joined(texts(items@)),
{
    let mut s = String::new();
    let mut i: usize = 0;
    while i < items.len()
        invariant
            i <= items@.len(),
            s@ == joined(texts(items@.subrange(0, i as int))),
        decreases items.len() - i,
    {
        let ghost prefix = texts(items@.subrange(0, i + 1));
        assert(prefix.drop_last() =~= texts(items@.subrange(0, i as int)));
        if i > 0 {
            s.append(", ");
        } else {
            assert(prefix.len() == 1);
        }
        s.append(items[i].as_str());
        i += 1;
    }
    assert(items@.subrange(0, items@.len() as int) =~= items@);
    s
}

fn param_name_list(ps: &Vec<Param>) -> (r: Vec<String>)
    ensures
        texts(r@) == param_names(params_view(ps@)),
{
    let mut out: Vec<String> = Vec::new();
    let mut i: usize = 0;
    while i < ps.len()
        invariant
            i <= ps@.len(),
            texts(out@) =~= param_names(params_view(ps@.subrange(0, i as int))),
        decreases ps.len() - i,
    {
        let ghost prev = out@;
        out.push(ps[i].name.clone());
        assert(texts(out@) =~= texts(prev).push(ps@[i as int].name@));
        assert(ps@.subrange(0, i + 1) =~= ps@.subrange(0, i as int).push(ps@[i as int]));
        i += 1;
    }
    assert(ps@.subrange(0, ps@.len() as int) =~= ps@);
    out
}

fn arg_name_list(args: &Vec<ArgEntry>) -> (r: Vec<String>)
    ensures
        texts(r@) == args_view(args@).map_values(|a: ArgModel| a.name),
{
    let mut out: Vec<String> = Vec::new();
    let mut i: usize = 0;
    while i < args.len()
        invariant
            i <= args@.len(),
            texts(out@) =~= args_view(args@.subrange(0, i as int)).map_values(|a: ArgModel| a.name),
        decreases args.len() - i,
    {
        let ghost prev = out@;
        out.push(args[i].name.clone());
        assert(texts(out@) =~= texts(prev).push(args@[i as int].name@));
        assert(args@.subrange(0, i + 1) =~= args@.subrange(0, i as int).push(args@[i as int]));
        i += 1;
    }
    assert(args@.subrange(0, args@.len() as int) =~= args@);
    out
}

/// The call that the wrapper for `c`, with parameters `params`, makes.
fn build_call(v: &Validated, c: Component, params: &Vec<Param>) -> (r: String)
    requires
        params_view(params@) == wrapper_params(v@, c),
    ensures
        r@ == call_text(v@, c),
{
    let mut names: Vec<String> = Vec::new();
    match c {
        Component::MovingState | Component::MovingStateInverse => {
            names.push(text_of("mstate"));
            let arg_names = arg_name_list(&v.args);
            let mut tuple = String::from_str("(");
            tuple.append(join_names(&arg_names).as_str());
            tuple.append(")");
            names.push(tuple);
        },
        _ => {
            names = param_name_list(params);
        },
    }
    assert(texts(names@) =~= call_args(v@, c));
    let mut s = assoc_text(v, c.name());
    s.append("(");
    s.append(join_names(&names).as_str());
    s.append(")");
    s
}

/// The wrapper for `c`.
pub fn generate_function(v: &Validated, base: &str, c: Component) -> (r: GeneratedFunction)
    ensures
        r@ == function_model(v@, base@, c),
{
    let params = build_wrapper_params(v, c);
    let call = build_call(v, c, &params);
    GeneratedFunction {
        component: c,
        name: function_name_text(base, c),
        params,
        ret: build_wrapper_ret(v, c),
        call,
    }
}

/// The parameters of the stub that stands in for an absent `c`.
pub open spec fn stub_params(v: ValidatedModel, c: Component) -> Seq<ParamModel> {
    let st = state_type(v);
    let ms = assoc(v, "MovingState"@);
    match c {
        Component::State => seq![pm("current"@, st), pm("_v"@, "Self::Args"@)],
        Component::Combine => seq![pm("current"@, st), pm("_other"@, st)],
        Component::Finalize => seq![pm("current"@, st)],
        Component::Serial => seq![pm("current"@, st)],
        Component::Deserial => seq![pm("current"@, st), pm("_buf"@, "Vec<u8>"@), pm("_internal"@, boxed("Self"@))],
        Component::MovingState => seq![pm("_mstate"@, ms), pm("_v"@, "Self::Args"@)],
        Component::MovingStateInverse => seq![pm("_mstate"@, ms), pm("_v"@, "Self::Args"@)],
        Component::MovingFinalize => seq![pm("_mstate"@, "Self::MovingState"@)],
    }
}

/// The return type of the stub for `c`.
pub open spec fn stub_ret(v: ValidatedModel, c: Component) -> Seq<char> {
    match c {
        Component::State => state_type(v),
        Component::Combine => state_type(v),
        Component::Finalize => "Self::Finalize"@,
        Component::Serial => "Vec<u8>"@,
        Component::Deserial => boxed("Self"@),
        Component::MovingState => assoc(v, "MovingState"@),
        Component::MovingStateInverse => assoc(v, "MovingState"@),
        Component::MovingFinalize => "Self::Finalize"@,
    }
}

/// The message of the failure that a stub raises when called.
pub open spec fn unsupported_message(c: Component) -> Seq<char> {
    "Call to "@ + c.spec_name() + " on an aggregate which does not support it."@
}

/// A trait method that stands in for an operation the description leaves
/// out. Calling it fails with an unsupported-operation error that carries
/// `message`.
pub struct Stub {
    pub component: Component,
    pub params: Vec<Param>,
    pub ret: String,
    pub message: String,
}

pub struct StubModel {
    pub component: Component,
    pub params: Seq<ParamModel>,
    pub ret: Seq<char>,
    pub message: Seq<char>,
}

impl View for Stub {
    type V = StubModel;

    open spec fn view(&self) -> StubModel {
        StubModel {
            component: self.component,
            params: params_view(self.params@),
            ret: self.ret@,
            message: self.message@,
        }
    }
}

pub open spec fn stub_model(v: ValidatedModel, c: Component) -> StubModel {
    StubModel { component: c, params: stub_params(v, c), ret: stub_ret(v, c), message: unsupported_message(c) }
}

/// The message of the failure that the stub for `c` raises.
pub fn unsupported_message_text(c: Component) -> (r: String)
    ensures
        r@ == unsupported_message(c),
{
    let mut s = String::from_str("Call to ");
    s.append(c.name());
    s.append(" on an aggregate which does not support it.");
    s
}

/// The stub for an absent `c`.
pub fn generate_stub(v: &Validated, c: Component) -> (r: Stub)
    ensures
        r@ == stub_model(v@, c),
{
    let mut params: Vec<Param> = Vec::new();
    let ret: String;
    match c {
        Component::State => {
            params.push(param("current", state_type_text(v)));
            params.push(param("_v", text_of("Self::Args")));
            ret = state_type_text(v);
        },
        Component::Combine => {
            params.push(param("current", state_type_text(v)));
            params.push(param("_other", state_type_text(v)));
            ret = state_type_text(v);
        },
        Component::Finalize => {
            params.push(param("current", state_type_text(v)));
            ret = text_of("Self::Finalize");
        },
        Component::Serial => {
            params.push(param("current", state_type_text(v)));
            ret = text_of("Vec<u8>");
        },
        Component::Deserial => {
            params.push(param("current", state_type_text(v)));
            params.push(param("_buf", text_of("Vec<u8>")));
            params.push(param("_internal", boxed_text(&text_of("Self"))));
            ret = boxed_text(&text_of("Self"));
        },
        Component::MovingState | Component::MovingStateInverse => {
            params.push(param("_mstate", assoc_text(v, "MovingState")));
            params.push(param("_v", text_of("Self::Args")));
            ret = assoc_text(v, "MovingState");
        },
        Component::MovingFinalize => {
            params.push(param("_mstate", text_of("Self::MovingState")));
            ret = text_of("Self::Finalize");
        },
    }
    assert(params_view(params@) =~= stub_params(v@, c));
    Stub { component: c, params, ret, message: unsupported_message_text(c) }
}

pub open spec fn opt_component(b: bool, c: Component) -> Seq<Component> {
    if b {
        seq![c]
    } else {
        Seq::empty()
    }
}

/// The operations that get a wrapper, in order: `state`, then each present
/// optional one.
pub open spec fn present_components(sl: Slots) -> Seq<Component> {
    seq![Component::State]
        + opt_component(sl.combine, Component::Combine)
        + opt_component(sl.finalize, Component::Finalize)
        + opt_component(sl.serial, Component::Serial)
        + opt_component(sl.deserial, Component::Deserial)
        + opt_component(sl.moving_state, Component::MovingState)
        + opt_component(sl.moving_state_inverse, Component::MovingStateInverse)
        + opt_component(sl.moving_finalize, Component::MovingFinalize)
}

/// The optional operations that get a stub, in order.
pub open spec fn absent_components(sl: Slots) -> Seq<Component> {
    Seq::<Component>::empty()
        + opt_component(!sl.combine, Component::Combine)
        + opt_component(!sl.finalize, Component::Finalize)
        + opt_component(!sl.serial, Component::Serial)
        + opt_component(!sl.deserial, Component::Deserial)
        + opt_component(!sl.moving_state, Component::MovingState)
        + opt_component(!sl.moving_state_inverse, Component::MovingStateInverse)
        + opt_component(!sl.moving_finalize, Component::MovingFinalize)
}

fn push_component_if(out: &mut Vec<Component>, b: bool, c: Component)
    ensures
        final(out)@ == old(out)@ + opt_component(b, c),
{
    if b {
        out.push(c);
    }
    assert(final(out)@ =~= old(out)@ + opt_component(b, c));
}

/// The operations that get a wrapper.
pub fn present_component_list(sl: Slots) -> (r: Vec<Component>)
    ensures
        r@ == present_components(sl),
{
    let mut out: Vec<Component> = Vec::new();
    out.push(Component::State);
    assert(out@ =~= seq![Component::State]);
    push_component_if(&mut out, sl.combine, Component::Combine);
    push_component_if(&mut out, sl.finalize, Component::Finalize);
    push_component_if(&mut out, sl.serial, Component::Serial);
    push_component_if(&mut out, sl.deserial, Component::Deserial);
    push_component_if(&mut out, sl.moving_state, Component::MovingState);
    push_component_if(&mut out, sl.moving_state_inverse, Component::MovingStateInverse);
    push_component_if(&mut out, sl.moving_finalize, Component::MovingFinalize);
    out
}

/// The optional operations that get a stub.
pub fn absent_component_list(sl: Slots) -> (r: Vec<Component>)
    ensures
        r@ == absent_components(sl),
{
    let mut out: Vec<Component> = Vec::new();
    assert(out@ =~= Seq::<Component>::empty());
    push_component_if(&mut out, !sl.combine, Component::Combine);
    push_component_if(&mut out, !sl.finalize, Component::Finalize);
    push_component_if(&mut out, !sl.serial, Component::Serial);
    push_component_if(&mut out, !sl.deserial, Component::Deserial);
    push_component_if(&mut out, !sl.moving_state, Component::MovingState);
    push_component_if(&mut out, !sl.moving_state_inverse, Component::MovingStateInverse);
    push_component_if(&mut out, !sl.moving_finalize, Component::MovingFinalize);
    out
}

} // verus!
