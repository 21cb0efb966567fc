//! The descriptor, and the whole pass from a description to the exported
//! functions and the descriptor.
use vstd::prelude::*;
use vstd::string::StringExecFnsIsAscii;
use vstd::utf8::is_ascii_chars;
use convert_case::{Case, Casing};
use crate::error::AggregateError;
use crate::model::{AggregateSpec, Component};
use crate::resolve::{
    args_view, opt_text, opt_texts, validate, validated, ArgEntry, ArgModel, Slots, Validated,
    ValidatedModel,
};
use crate::synth::{
    absent_component_list, absent_components, function_model, function_name, function_name_text,
    generate_function, generate_stub, present_component_list, present_components, stub_model,
    FunctionModel, GeneratedFunction, Stub, StubModel,
};

verus! {

/// The record that registers an aggregate with the SQL generator.
/// `state_type` is the target's own name, also where the state travels
/// wrapped; each optional field is set exactly when the description
/// holds the matching operation, type or constant.
pub struct AggregateDescriptor {
    pub name: String,
    pub full_path: String,
    pub type_ident: String,
    pub args: Vec<ArgEntry>,
    pub order_by: Option<Vec<String>>,
    pub state_type: String,
    pub state_function: String,
    pub combine_function: Option<String>,
    pub finalize_function: Option<String>,
    pub serial_function: Option<String>,
    pub deserial_function: Option<String>,
    pub moving_state_function: Option<String>,
    pub moving_state_inverse_function: Option<String>,
    pub moving_finalize_function: Option<String>,
    pub moving_state_type: Option<String>,
    pub sort_operator: Option<String>,
    pub initial_condition: Option<String>,
    pub moving_initial_condition: Option<String>,
    pub parallel: Option<String>,
    pub finalize_modify: Option<String>,
    pub moving_finalize_modify: Option<String>,
    pub hypothetical: bool,
}

pub struct DescriptorModel {
    pub name: Seq<char>,
    pub full_path: Seq<char>,
    pub type_ident: Seq<char>,
    pub args: Seq<ArgModel>,
    pub order_by: Option<Seq<Seq<char>>>,
    pub state_type: Seq<char>,
    pub state_function: Seq<char>,
    pub combine_function: Option<Seq<char>>,
    pub finalize_function: Option<Seq<char>>,
    pub serial_function: Option<Seq<char>>,
    pub deserial_function: Option<Seq<char>>,
    pub moving_state_function: Option<Seq<char>>,
    pub moving_state_inverse_function: Option<Seq<char>>,
    pub moving_finalize_function: Option<Seq<char>>,
    pub moving_state_type: Option<Seq<char>>,
    pub sort_operator: Option<Seq<char>>,
    pub initial_condition: Option<Seq<char>>,
    pub moving_initial_condition: Option<Seq<char>>,
    pub parallel: Option<Seq<char>>,
    pub finalize_modify: Option<Seq<char>>,
    pub moving_finalize_modify: Option<Seq<char>>,
    pub hypothetical: bool,
}

impl DescriptorModel {
    /// The field that names the wrapper for `c`.
    pub open spec fn function_for(self, c: Component) -> Option<Seq<char>> {
        match c {
            Component::State => Some(self.state_function),
            Component::Combine => self.combine_function,
            Component::Finalize => self.finalize_function,
            Component::Serial => self.serial_function,
            Component::Deserial => self.deserial_function,
            Component::MovingState => self.moving_state_function,
            Component::MovingStateInverse => self.moving_state_inverse_function,
            Component::MovingFinalize => self.moving_finalize_function,
        }
    }
}

impl View for AggregateDescriptor {
    type V = DescriptorModel;

    open spec fn view(&self) -> DescriptorModel {
        DescriptorModel {
            name: self.name@,
            full_path: self.full_path@,
            type_ident: self.type_ident@,
            args: args_view(self.args@),
            order_by: opt_texts(self.order_by),
            state_type: self.state_type@,
            state_function: self.state_function@,
            combine_function: opt_text(self.combine_function),
            finalize_function: opt_text(self.finalize_function),
            serial_function: opt_text(self.serial_function),
            deserial_function: opt_text(self.deserial_function),
            moving_state_function: opt_text(self.moving_state_function),
            moving_state_inverse_function: opt_text(self.moving_state_inverse_function),
            moving_finalize_function: opt_text(self.moving_finalize_function),
            moving_state_type: opt_text(self.moving_state_type),
            sort_operator: opt_text(self.sort_operator),
            initial_condition: opt_text(self.initial_condition),
            moving_initial_condition: opt_text(self.moving_initial_condition),
            parallel: opt_text(self.parallel),
            finalize_modify: opt_text(self.finalize_modify),
            moving_finalize_modify: opt_text(self.moving_finalize_modify),
            hypothetical: self.hypothetical,
        }
    }
}

pub open spec fn named_if(sl: Slots, base: Seq<char>, c: Component) -> Option<Seq<char>> {
    if sl.has(c) {
        Some(function_name(base, c))
    } else {
        None
    }
}

/// The descriptor of a checked description whose wrappers are named from
/// `base`.
pub open spec fn descriptor_model(v: ValidatedModel, base: Seq<char>) -> DescriptorModel {
    DescriptorModel {
        name: v.name,
        full_path: v.target.path,
        type_ident: v.target.ident,
        args: v.args,
        order_by: v.order_by,
        state_type: v.target.ident,
        state_function: function_name(base, Component::State),
        combine_function: named_if(v.slots, base, Component::Combine),
        finalize_function: named_if(v.slots, base, Component::Finalize),
        serial_function: named_if(v.slots, base, Component::Serial),
        deserial_function: named_if(v.slots, base, Component::Deserial),
        moving_state_function: named_if(v.slots, base, Component::MovingState),
        moving_state_inverse_function: named_if(v.slots, base, Component::MovingStateInverse),
        moving_finalize_function: named_if(v.slots, base, Component::MovingFinalize),
        moving_state_type: v.moving_state_ty,
        sort_operator: v.sort_operator,
        initial_condition: v.initial_condition,
        moving_initial_condition: v.moving_initial_condition,
        parallel: v.parallel,
        finalize_modify: v.finalize_modify,
        moving_finalize_modify: v.moving_finalize_modify,
        hypothetical: v.hypothetical,
    }
}

fn name_if(sl: Slots, base: &str, c: Component) -> (r: Option<String>)
    ensures
        opt_text(r) == named_if(sl, base@, c),
{
    let present = match c {
        Component::State => true,
        Component::Combine => sl.combine,
        Component::Finalize => sl.finalize,
        Component::Serial => sl.serial,
        Component::Deserial => sl.deserial,
        Component::MovingState => sl.moving_state,
        Component::MovingStateInverse => sl.moving_state_inverse,
        Component::MovingFinalize => sl.moving_finalize,
    };
    if present {
        Some(function_name_text(base, c))
    } else {
        None
    }
}

/// Builds the descriptor of a checked description whose wrappers are
/// named from `base`.
pub fn build_descriptor(v: Validated, base: &str) -> (r: AggregateDescriptor)
    ensures
        r@ == descriptor_model(v@, base@),
{
    let sl = v.slots;
    AggregateDescriptor {
        name: v.name,
        full_path: v.target.path,
        state_type: v.target.ident.clone(),
        type_ident: v.target.ident,
        args: v.args,
        order_by: v.order_by,
        state_function: function_name_text(base, Component::State),
        combine_function: name_if(sl, base, Component::Combine),
        finalize_function: name_if(sl, base, Component::Finalize),
        serial_function: name_if(sl, base, Component::Serial),
        deserial_function: name_if(sl, base, Component::Deserial),
        moving_state_function: name_if(sl, base, Component::MovingState),
        moving_state_inverse_function: name_if(sl, base, Component::MovingStateInverse),
        moving_finalize_function: name_if(sl, base, Component::MovingFinalize),
        moving_state_type: v.moving_state_ty,
        sort_operator: v.sort_operator,
        initial_condition: v.initial_condition,
        moving_initial_condition: v.moving_initial_condition,
        parallel: v.parallel,
        finalize_modify: v.finalize_modify,
        moving_finalize_modify: v.moving_finalize_modify,
        hypothetical: v.hypothetical,
    }
}

pub open spec fn opt_name(b: bool, name: Seq<char>) -> Seq<Seq<char>> {
    if b {
        seq![name]
    } else {
        Seq::empty()
    }
}

/// The associated types that the description leaves out and that are
/// declared as `()` in the completed implementation.
pub open spec fn defaulted_types(v: ValidatedModel) -> Seq<Seq<char>> {
    Seq::<Seq<char>>::empty()
        + opt_name(v.moving_state_ty is None, "MovingState"@)
        + opt_name(v.order_by is None, "OrderBy"@)
        + opt_name(v.finalize_ty is None, "Finalize"@)
}

/// The name of the function that hands the descriptor to the SQL
/// generator, from the snake-cased target name.
pub open spec fn entity_name(base: Seq<char>) -> Seq<char> {
    "__pgx_internals_aggregate_"@ + base
}

/// The name of the function that hands the descriptor to the SQL generator.
pub fn entity_function_name(base: &str) -> (r: String)
    ensures
        r@ == entity_name(base@),
{
    let mut s = String::from_str("__pgx_internals_aggregate_");
    s.append(base);
    s
}

/// What compiling one description yields: the functions to export, the
/// stubs that complete the implementation, the associated types declared
/// as `()`, the descriptor, and the name of the function that hands the
/// descriptor over.
pub struct CompiledAggregate {
    pub functions: Vec<GeneratedFunction>,
    pub stubs: Vec<Stub>,
    pub defaulted_types: Vec<String>,
    pub descriptor: AggregateDescriptor,
    pub entity_function: String,
}

pub struct CompiledModel {
    pub functions: Seq<FunctionModel>,
    pub stubs: Seq<StubModel>,
    pub defaulted_types: Seq<Seq<char>>,
    pub descriptor: DescriptorModel,
    pub entity_function: Seq<char>,
}

impl View for CompiledAggregate {
    type V = CompiledModel;

    open spec fn view(&self) -> CompiledModel {
        CompiledModel {
            functions: self.functions@.map_values(|f: GeneratedFunction| f@),
            stubs: self.stubs@.map_values(|s: Stub| s@),
            defaulted_types: self.defaulted_types@.map_values(|s: String| s@),
            descriptor: self.descriptor@,
            entity_function: self.entity_function@,
        }
    }
}

/// What a checked description compiles to when its wrappers are named from
/// `base`.
pub open spec fn synthesized(v: ValidatedModel, base: Seq<char>) -> CompiledModel {
    CompiledModel {
        functions: present_components(v.slots).map_values(|c: Component| function_model(v, base, c)),
        stubs: absent_components(v.slots).map_values(|c: Component| stub_model(v, c)),
        defaulted_types: defaulted_types(v),
        descriptor: descriptor_model(v, base),
        entity_function: entity_name(base),
    }
}

fn push_name_if(out: &mut Vec<String>, b: bool, name: &str)
    ensures
        final(out)@.map_values(|s: String| s@) == old(out)@.map_values(|s: String| s@) + opt_name(b, name@),
{
    if b {
        out.push(String::from_str(name));
    }
    assert(final(out)@.map_values(|s: String| s@) =~= old(out)@.map_values(|s: String| s@) + opt_name(b, name@));
}

/// Compiles a checked description, naming its wrappers from `base`.
pub fn synthesize(v: Validated, base: &str) -> (r: CompiledAggregate)
    ensures
        r@ == synthesized(v@, base@),
{
    let comps = present_component_list(v.slots);
    let mut functions: Vec<GeneratedFunction> = Vec::new();
    let mut i: usize = 0;
    while i < comps.len()
        invariant
            i <= comps@.len(),
            functions@.map_values(|f: GeneratedFunction| f@) =~= comps@.subrange(0, i as int).map_values(
                |c: Component| function_model(v@, base@, c),
            ),
        decreases comps.len() - i,
    {
        let f = generate_function(&v, base, comps[i]);
        let ghost prev = functions@;
        functions.push(f);
        assert(functions@.map_values(|f: GeneratedFunction| f@) =~= prev.map_values(|f: GeneratedFunction| f@).push(f@));
        assert(comps@.subrange(0, i + 1) =~= comps@.subrange(0, i as int).push(comps@[i as int]));
        i += 1;
    }
    assert(comps@.subrange(0, comps@.len() as int) =~= comps@);

    let absent = absent_component_list(v.slots);
    let mut stubs: Vec<Stub> = Vec::new();
    let mut k: usize = 0;
    while k < absent.len()
        invariant
            k <= absent@.len(),
            stubs@.map_values(|s: Stub| s@) =~= absent@.subrange(0, k as int).map_values(|c: Component| stub_model(v@, c)),
        decreases absent.len() - k,
    {
        let st = generate_stub(&v, absent[k]);
        let ghost prev = stubs@;
        stubs.push(st);
        assert(stubs@.map_values(|s: Stub| s@) =~= prev.map_values(|s: Stub| s@).push(st@));
        assert(absent@.subrange(0, k + 1) =~= absent@.subrange(0, k as int).push(absent@[k as int]));
        k += 1;
    }
    assert(absent@.subrange(0, absent@.len() as int) =~= absent@);

    let mut defaulted: Vec<String> = Vec::new();
    assert(defaulted@.map_values(|s: String| s@) =~= Seq::<Seq<char>>::empty());
    push_name_if(&mut defaulted, v.moving_state_ty.is_none(), "MovingState");
    push_name_if(&mut defaulted, v.order_by.is_none(), "OrderBy");
    push_name_if(&mut defaulted, v.finalize_ty.is_none(), "Finalize");

    let descriptor = build_descriptor(v, base);
    let entity_function = entity_function_name(base);
    CompiledAggregate { functions, stubs, defaulted_types: defaulted, descriptor, entity_function }
}

/// The snake-cased form of a name, as convert_case writes it.
pub uninterp spec fn snake_case_of(s: Seq<char>) -> Seq<char>;

/// Relies on convert_case's `Casing::to_case` for `str`, with `Case::Snake`:
/// it splits the name into words and joins them lower-cased with `_`; the
/// result depends on the characters of the name alone.
/// Its word splitting cuts the string at character positions taken as
/// byte offsets, which panics inside a multi-byte character; on ASCII
/// text the two agree.
#[verifier::external_body]
fn to_snake_case(s: &str) -> (r: String)
    requires
        is_ascii_chars(s@),
    ensures
        r@ == snake_case_of(s@),
{
    s.to_case(Case::Snake)
}

/// What a description compiles to: the first fault that checking finds; a
/// refusal of a target name that is not ASCII, which cannot be snake-cased;
/// or the output whose wrappers are named from the snake-cased target name.
pub open spec fn compiled(s: AggregateSpec) -> Result<CompiledModel, AggregateError> {
    match validated(s) {
        Err(e) => Err(e),
        Ok(v) => if !is_ascii_chars(v.target.ident) {
            Err(AggregateError::NonAsciiTargetName { site: s.self_ty.site })
        } else {
            Ok(synthesized(v, snake_case_of(v.target.ident)))
        },
    }
}

/// The outcome of a call of `compile` on `s`.
pub open spec fn compile_post(s: AggregateSpec, r: Result<CompiledAggregate, AggregateError>) -> bool {
    match r {
        Ok(c) => compiled(s) == Ok::<CompiledModel, AggregateError>(c@),
        Err(e) => compiled(s) == Err::<CompiledModel, AggregateError>(e),
    }
}

/// Compiles one description of an aggregate into the functions to export,
/// the stubs and default types that complete its implementation, and its
/// descriptor; or reports the first fault in it. Nothing is produced when
/// a check fails.
pub fn compile(s: &AggregateSpec) -> (r: Result<CompiledAggregate, AggregateError>)
    ensures
        compile_post(*s, r),
{
    let v = match validate(s) {
        Ok(v) => v,
        Err(e) => return Err(e),
    };
    if !v.target.ident.is_ascii() {
        return Err(AggregateError::NonAsciiTargetName { site: s.self_ty.site });
    }
    let base = to_snake_case(v.target.ident.as_str());
    Ok(synthesize(v, base.as_str()))
}

} // verus!
