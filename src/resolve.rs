//! Reading and checking a description: lookups, the target type, the
//! argument list and the constants.
use vstd::prelude::*;
use crate::error::{AggregateError, ConstKind, ConstSlot, Required};
use crate::names::{arg_name, arg_name_at, MAX_ARGS};
use crate::model::{AggregateSpec, Component, names_marker, path_names_marker, is_by_value_wrapper, is_variadic, type_is_variadic, type_is_by_value_wrapper, Marker, same_text, ConstItem, ConstValue, Literal, MethodItem, TypeExpr, TypeItem, TypeKind};

verus! {

/// `r` refers to the item that `s` holds, if any.
pub open spec fn found_as<T>(r: Option<&T>, s: Option<T>) -> bool {
    match r {
        Some(x) => s == Some(*x),
        None => s is None,
    }
}

/// The last associated type of that name.
pub open spec fn find_type(items: Seq<TypeItem>, name: Seq<char>) -> Option<TypeItem>
    decreases items.len(),
{
    if items.len() == 0 {
        None
    } else if items.last().name@ == name {
        Some(items.last())
    } else {
        find_type(items.drop_last(), name)
    }
}

/// The last method of that name.
pub open spec fn find_method(items: Seq<MethodItem>, name: Seq<char>) -> Option<MethodItem>
    decreases items.len(),
{
    if items.len() == 0 {
        None
    } else if items.last().name@ == name {
        Some(items.last())
    } else {
        find_method(items.drop_last(), name)
    }
}

/// The last constant of that name.
pub open spec fn find_const(items: Seq<ConstItem>, name: Seq<char>) -> Option<ConstItem>
    decreases items.len(),
{
    if items.len() == 0 {
        None
    } else if items.last().name@ == name {
        Some(items.last())
    } else {
        find_const(items.drop_last(), name)
    }
}

/// Finds the associated type called `name`; where several are, the last.
pub fn get_impl_type_by_name<'a>(items: &'a Vec<TypeItem>, name: &str) -> (r: Option<&'a TypeItem>)
    ensures
        found_as(r, find_type(items@, name@)),
{
    let mut needle: Option<&'a TypeItem> = None;
    let mut i: usize = 0;
    while i < items.len()
        invariant
            i <= items@.len(),
            found_as(needle, find_type(items@.subrange(0, i as int), name@)),
        decreases items.len() - i,
    {
        assert(items@.subrange(0, i + 1).drop_last() =~= items@.subrange(0, i as int));
        if same_text(&items[i].name, name) {
            needle = Some(&items[i]);
        }
        i += 1;
    }
    assert(items@.subrange(0, items@.len() as int) =~= items@);
    needle
}

/// Finds the method called `name`; where several are, the last.
pub fn get_impl_func_by_name<'a>(items: &'a Vec<MethodItem>, name: &str) -> (r: Option<&'a MethodItem>)
    ensures
        found_as(r, find_method(items@, name@)),
{
    let mut needle: Option<&'a MethodItem> = None;
    let mut i: usize = 0;
    while i < items.len()
        invariant
            i <= items@.len(),
            found_as(needle, find_method(items@.subrange(0, i as int), name@)),
        decreases items.len() - i,
    {
        assert(items@.subrange(0, i + 1).drop_last() =~= items@.subrange(0, i as int));
        if same_text(&items[i].name, name) {
            needle = Some(&items[i]);
        }
        i += 1;
    }
    assert(items@.subrange(0, items@.len() as int) =~= items@);
    needle
}

/// Finds the constant called `name`; where several are, the last.
pub fn get_impl_const_by_name<'a>(items: &'a Vec<ConstItem>, name: &str) -> (r: Option<&'a ConstItem>)
    ensures
        found_as(r, find_const(items@, name@)),
{
    let mut needle: Option<&'a ConstItem> = None;
    let mut i: usize = 0;
    while i < items.len()
        invariant
            i <= items@.len(),
            found_as(needle, find_const(items@.subrange(0, i as int), name@)),
        decreases items.len() - i,
    {
        assert(items@.subrange(0, i + 1).drop_last() =~= items@.subrange(0, i as int));
        if same_text(&items[i].name, name) {
            needle = Some(&items[i]);
        }
        i += 1;
    }
    assert(items@.subrange(0, items@.len() as int) =~= items@);
    needle
}

/// The type an aggregate is for: its path, the last segment of that path,
/// and whether the description wrapped it in the by-value wrapper.
pub struct Target {
    pub path: String,
    pub ident: String,
    pub wrapped: bool,
}

pub struct TargetModel {
    pub path: Seq<char>,
    pub ident: Seq<char>,
    pub wrapped: bool,
}

impl View for Target {
    type V = TargetModel;

    open spec fn view(&self) -> TargetModel {
        TargetModel { path: self.path@, ident: self.ident@, wrapped: self.wrapped }
    }
}

/// A path type with at least one segment.
pub open spec fn is_plain_path(t: TypeExpr) -> bool {
    t.kind is Path && t.kind->Path_segments@.len() > 0
}

pub open spec fn target_model(t: TypeExpr, wrapped: bool) -> TargetModel {
    TargetModel { path: t.text@, ident: t.kind->Path_segments@.last()@, wrapped }
}

/// The target of an implementation for `self_ty`: the type itself, or the
/// type inside the by-value wrapper, which is then recorded as wrapped.
pub open spec fn target_of(self_ty: TypeExpr) -> Result<TargetModel, AggregateError> {
    if !is_plain_path(self_ty) {
        Err(AggregateError::MalformedTypePath { site: self_ty.site })
    } else if is_by_value_wrapper(self_ty) {
        let args = self_ty.kind->Path_args@;
        if args.len() > 0 && is_plain_path(args[0]) {
            Ok(target_model(args[0], true))
        } else {
            Err(AggregateError::MalformedTypePath { site: self_ty.site })
        }
    } else {
        Ok(target_model(self_ty, false))
    }
}

/// The last segment of a path type.
fn get_target_ident(t: &TypeExpr) -> (r: Result<String, AggregateError>)
    ensures
        is_plain_path(*t) ==> r is Ok && r->Ok_0@ == t.kind->Path_segments@.last()@,
        !is_plain_path(*t) ==> r == Err::<String, AggregateError>(AggregateError::MalformedTypePath { site: t.site }),
{
    match &t.kind {
        TypeKind::Path { segments, .. } => {
            if segments.len() == 0 {
                Err(AggregateError::MalformedTypePath { site: t.site })
            } else {
                Ok(segments[segments.len() - 1].clone())
            }
        },
        _ => Err(AggregateError::MalformedTypePath { site: t.site }),
    }
}

/// Resolves the target type of an implementation for `self_ty`.
pub fn get_target_path(self_ty: &TypeExpr) -> (r: Result<Target, AggregateError>)
    ensures
        match r {
            Ok(t) => target_of(*self_ty) == Ok::<TargetModel, AggregateError>(t@),
            Err(e) => target_of(*self_ty) == Err::<TargetModel, AggregateError>(e),
        },
{
    if !type_is_by_value_wrapper(self_ty) {
        return match get_target_ident(self_ty) {
            Ok(ident) => Ok(Target { path: self_ty.text.clone(), ident, wrapped: false }),
            Err(e) => Err(e),
        };
    }
    match &self_ty.kind {
        TypeKind::Path { args, .. } => {
            if args.len() == 0 {
                return Err(AggregateError::MalformedTypePath { site: self_ty.site });
            }
            let inner = &args[0];
            match get_target_ident(inner) {
                Ok(inner_ident) => Ok(Target { path: inner.text.clone(), ident: inner_ident, wrapped: true }),
                Err(_) => Err(AggregateError::MalformedTypePath { site: self_ty.site }),
            }
        },
        _ => Err(AggregateError::MalformedTypePath { site: self_ty.site }),
    }
}

/// One argument of the aggregate. `ty` is the type as written in `Args`;
/// a variadic argument, written as the variadic wrapper around a type,
/// also has `variadic_ty`, that element type, which stands in the call
/// signature.
pub struct ArgEntry {
    pub name: String,
    pub ty: String,
    pub variadic_ty: Option<String>,
}

pub struct ArgModel {
    pub name: Seq<char>,
    pub ty: Seq<char>,
    pub variadic_ty: Option<Seq<char>>,
}

impl View for ArgEntry {
    type V = ArgModel;

    open spec fn view(&self) -> ArgModel {
        ArgModel { name: self.name@, ty: self.ty@, variadic_ty: opt_text(self.variadic_ty) }
    }
}

pub open spec fn opt_text(o: Option<String>) -> Option<Seq<char>> {
    match o {
        Some(s) => Some(s@),
        None => None,
    }
}

pub open spec fn texts(v: Seq<String>) -> Seq<Seq<char>> {
    v.map_values(|s: String| s@)
}

pub open spec fn args_view(v: Seq<ArgEntry>) -> Seq<ArgModel> {
    v.map_values(|a: ArgEntry| a@)
}

/// The type of an argument in a call signature: the element type of a
/// variadic argument, the written type of any other.
pub open spec fn signature_type(a: ArgModel) -> Seq<char> {
    match a.variadic_ty {
        Some(v) => v,
        None => a.ty,
    }
}

/// The types that `Args` lists: a tuple's elements, or the one type.
pub open spec fn arg_types(t: TypeExpr) -> Seq<TypeExpr> {
    match t.kind {
        TypeKind::Tuple { elems } => elems@,
        _ => seq![t],
    }
}

/// The argument at position `i`, declared with type `t`.
pub open spec fn arg_model(i: int, t: TypeExpr) -> ArgModel {
    if is_variadic(t) {
        let inner = t.kind->Macro_args@[0];
        ArgModel { name: arg_name(i), ty: t.text@, variadic_ty: Some(inner.text@) }
    } else {
        ArgModel { name: arg_name(i), ty: t.text@, variadic_ty: None }
    }
}

pub open spec fn variadic_before_last(ts: Seq<TypeExpr>) -> bool {
    exists|i: int| 0 <= i < ts.len() - 1 && #[trigger] is_variadic(ts[i])
}

/// The argument list that `Args = t` declares.
pub open spec fn resolve_args(t: TypeExpr) -> Result<Seq<ArgModel>, AggregateError> {
    let ts = arg_types(t);
    if ts.len() > MAX_ARGS {
        Err(AggregateError::UnsupportedArgCount { count: ts.len() as usize, site: t.site })
    } else if variadic_before_last(ts) {
        Err(AggregateError::MisplacedVariadic { site: t.site })
    } else {
        Ok(Seq::new(ts.len(), |i: int| arg_model(i, ts[i])))
    }
}

/// The argument at position `i`, declared with type `t`.
fn arg_entry(i: usize, t: &TypeExpr) -> (r: ArgEntry)
    requires
        i < MAX_ARGS,
    ensures
        r@ == arg_model(i as int, *t),
{
    let name = String::from_str(arg_name_at(i));
    if type_is_variadic(t) {
        match &t.kind {
            TypeKind::Macro { args, .. } => {
                let inner = &args[0];
                ArgEntry { name, ty: t.text.clone(), variadic_ty: Some(inner.text.clone()) }
            },
            _ => ArgEntry { name, ty: t.text.clone(), variadic_ty: None },
        }
    } else {
        ArgEntry { name, ty: t.text.clone(), variadic_ty: None }
    }
}

/// Resolves `Args = t` into the argument list of the aggregate.
pub fn resolve_arg_list(t: &TypeExpr) -> (r: Result<Vec<ArgEntry>, AggregateError>)
    ensures
        match r {
            Ok(v) => resolve_args(*t) == Ok::<Seq<ArgModel>, AggregateError>(args_view(v@)),
            Err(e) => resolve_args(*t) == Err::<Seq<ArgModel>, AggregateError>(e),
        },
{
    let mut out: Vec<ArgEntry> = Vec::new();
    match &t.kind {
        TypeKind::Tuple { elems } => {
            let n = elems.len();
            if n > MAX_ARGS {
                return Err(AggregateError::UnsupportedArgCount { count: n, site: t.site });
            }
            assert(arg_types(*t) == elems@);
            let mut i: usize = 0;
            while i + 1 < n
                invariant
                    n == elems@.len(),
                    n <= MAX_ARGS,
                    arg_types(*t) == elems@,
                    i <= n,
                    forall|j: int| 0 <= j < i ==> !is_variadic(#[trigger] elems@[j]),
                decreases n - i,
            {
                if type_is_variadic(&elems[i]) {
                    assert(is_variadic(arg_types(*t)[i as int]));
                    return Err(AggregateError::MisplacedVariadic { site: t.site });
                }
                i += 1;
            }
            let mut k: usize = 0;
            while k < n
                invariant
                    n == elems@.len(),
                    n <= MAX_ARGS,
                    k <= n,
                    arg_types(*t) == elems@,
                    args_view(out@) =~= Seq::new(k as nat, |j: int| arg_model(j, elems@[j])),
                decreases n - k,
            {
                let e = arg_entry(k, &elems[k]);
                let ghost prev = out@;
                out.push(e);
                assert(args_view(out@) =~= args_view(prev).push(e@));
                k += 1;
            }
            assert(args_view(out@) =~= Seq::new(n as nat, |j: int| arg_model(j, arg_types(*t)[j])));
        },
        _ => {
            out.push(arg_entry(0, t));
            assert(args_view(out@) =~= Seq::new(1, |j: int| arg_model(j, arg_types(*t)[j])));
        },
    }
    Ok(out)
}

/// The types that a type list names: a tuple's elements, or the one type.
pub open spec fn type_list(t: TypeExpr) -> Seq<Seq<char>> {
    match t.kind {
        TypeKind::Tuple { elems } => elems@.map_values(|e: TypeExpr| e.text@),
        _ => seq![t.text@],
    }
}

/// The texts of the types that `t` lists.
pub fn resolve_type_list(t: &TypeExpr) -> (r: Vec<String>)
    ensures
        texts(r@) == type_list(*t),
{
    let mut out: Vec<String> = Vec::new();
    match &t.kind {
        TypeKind::Tuple { elems } => {
            let mut k: usize = 0;
            while k < elems.len()
                invariant
                    k <= elems@.len(),
                    texts(out@) =~= elems@.subrange(0, k as int).map_values(|e: TypeExpr| e.text@),
                decreases elems.len() - k,
            {
                let ghost prev = out@;
                out.push(elems[k].text.clone());
                assert(texts(out@) =~= texts(prev).push(elems@[k as int].text@));
                assert(elems@.subrange(0, k + 1) =~= elems@.subrange(0, k as int).push(elems@[k as int]));
                k += 1;
            }
            assert(elems@.subrange(0, elems@.len() as int) =~= elems@);
        },
        _ => {
            out.push(t.text.clone());
        },
    }
    assert(texts(out@) =~= type_list(*t));
    out
}

/// Which optional operations the description defines.
#[derive(Clone, Copy, Debug, PartialEq, Eq, Structural)]
pub struct Slots {
    pub combine: bool,
    pub finalize: bool,
    pub serial: bool,
    pub deserial: bool,
    pub moving_state: bool,
    pub moving_state_inverse: bool,
    pub moving_finalize: bool,
}

impl Slots {
    /// Whether operation `c` is present; `state` always is.
    pub open spec fn has(self, c: Component) -> bool {
        match c {
            Component::State => true,
            Component::Combine => self.combine,
            Component::Finalize => self.finalize,
            Component::Serial => self.serial,
            Component::Deserial => self.deserial,
            Component::MovingState => self.moving_state,
            Component::MovingStateInverse => self.moving_state_inverse,
            Component::MovingFinalize => self.moving_finalize,
        }
    }
}

/// A description that passed every check, with what the compiler read
/// from it.
pub struct Validated {
    pub target: Target,
    /// Whether the state travels in the by-value wrapper.
    pub wrapped_state: bool,
    pub args: Vec<ArgEntry>,
    pub order_by: Option<Vec<String>>,
    pub moving_state_ty: Option<String>,
    pub finalize_ty: Option<String>,
    pub slots: Slots,
    pub name: String,
    pub parallel: Option<String>,
    pub finalize_modify: Option<String>,
    pub moving_finalize_modify: Option<String>,
    pub initial_condition: Option<String>,
    pub sort_operator: Option<String>,
    pub moving_initial_condition: Option<String>,
    pub hypothetical: bool,
}

pub struct ValidatedModel {
    pub target: TargetModel,
    pub wrapped_state: bool,
    pub args: Seq<ArgModel>,
    pub order_by: Option<Seq<Seq<char>>>,
    pub moving_state_ty: Option<Seq<char>>,
    pub finalize_ty: Option<Seq<char>>,
    pub slots: Slots,
    pub name: Seq<char>,
    pub parallel: Option<Seq<char>>,
    pub finalize_modify: Option<Seq<char>>,
    pub moving_finalize_modify: Option<Seq<char>>,
    pub initial_condition: Option<Seq<char>>,
    pub sort_operator: Option<Seq<char>>,
    pub moving_initial_condition: Option<Seq<char>>,
    pub hypothetical: bool,
}

pub open spec fn opt_texts(o: Option<Vec<String>>) -> Option<Seq<Seq<char>>> {
    match o {
        Some(v) => Some(texts(v@)),
        None => None,
    }
}

impl View for Validated {
    type V = ValidatedModel;

    open spec fn view(&self) -> ValidatedModel {
        ValidatedModel {
            target: self.target@,
            wrapped_state: self.wrapped_state,
            args: args_view(self.args@),
            order_by: opt_texts(self.order_by),
            moving_state_ty: opt_text(self.moving_state_ty),
            finalize_ty: opt_text(self.finalize_ty),
            slots: self.slots,
            name: self.name@,
            parallel: opt_text(self.parallel),
            finalize_modify: opt_text(self.finalize_modify),
            moving_finalize_modify: opt_text(self.moving_finalize_modify),
            initial_condition: opt_text(self.initial_condition),
            sort_operator: opt_text(self.sort_operator),
            moving_initial_condition: opt_text(self.moving_initial_condition),
            hypothetical: self.hypothetical,
        }
    }
}

/// The constant declared for `slot`.
pub open spec fn lookup_const(s: AggregateSpec, slot: ConstSlot) -> Option<ConstItem> {
    find_const(s.consts@, slot.spec_name())
}

/// The value of a string constant: a string literal, `Some` of one, or
/// `None`; any other value has the wrong kind.
pub open spec fn string_const(c: Option<ConstItem>, slot: ConstSlot) -> Result<Option<Seq<char>>, AggregateError> {
    match c {
        None => Ok(None),
        Some(item) => match item.value {
            ConstValue::Lit(Literal::Str(v)) => Ok(Some(v@)),
            ConstValue::SomeLit(Literal::Str(v)) => Ok(Some(v@)),
            ConstValue::NoneValue => Ok(None),
            _ => Err(AggregateError::InvalidConstantType { constant: slot, expected: ConstKind::Str, site: item.site }),
        },
    }
}

/// The source text of an expression constant; every value is accepted.
pub open spec fn expr_const(c: Option<ConstItem>) -> Option<Seq<char>> {
    match c {
        Some(item) => Some(item.text@),
        None => None,
    }
}

/// The value of `HYPOTHETICAL`: a boolean literal, `false` when absent.
pub open spec fn bool_const(c: Option<ConstItem>) -> Result<bool, AggregateError> {
    match c {
        None => Ok(false),
        Some(item) => match item.value {
            ConstValue::Lit(Literal::Bool(b)) => Ok(b),
            _ => Err(AggregateError::InvalidConstantType {
                constant: ConstSlot::Hypothetical,
                expected: ConstKind::Bool,
                site: item.site,
            }),
        },
    }
}

/// The value of `NAME`, which must be present as a string literal.
pub open spec fn name_const(c: Option<ConstItem>, site: usize) -> Result<Seq<char>, AggregateError> {
    match c {
        None => Err(AggregateError::MissingRequiredComponent { component: Required::Name, site }),
        Some(item) => match item.value {
            ConstValue::Lit(Literal::Str(v)) => Ok(v@),
            _ => Err(AggregateError::InvalidConstantType {
                constant: ConstSlot::Name,
                expected: ConstKind::Str,
                site: item.site,
            }),
        },
    }
}

/// The named trait, if any, is `Aggregate`.
pub open spec fn trait_ok(p: Option<Vec<String>>) -> bool {
    match p {
        None => true,
        Some(segments) => segments@.len() == 0 || names_marker(segments@, Marker::AggregateTrait),
    }
}

pub open spec fn slots_of(methods: Seq<MethodItem>) -> Slots {
    Slots {
        combine: find_method(methods, "combine"@) is Some,
        finalize: find_method(methods, "finalize"@) is Some,
        serial: find_method(methods, "serial"@) is Some,
        deserial: find_method(methods, "deserial"@) is Some,
        moving_state: find_method(methods, "moving_state"@) is Some,
        moving_state_inverse: find_method(methods, "moving_state_inverse"@) is Some,
        moving_finalize: find_method(methods, "moving_finalize"@) is Some,
    }
}

pub open spec fn type_text(t: Option<TypeItem>) -> Option<Seq<char>> {
    match t {
        Some(item) => Some(item.ty.text@),
        None => None,
    }
}

/// The state travels in the by-value wrapper when the target was wrapped
/// or `State` is the wrapper.
pub open spec fn state_wrapped(s: AggregateSpec, target: TargetModel) -> bool {
    target.wrapped || match find_type(s.types@, "State"@) {
        Some(t) => is_by_value_wrapper(t.ty),
        None => false,
    }
}

/// What a description yields when checked: the first fault, in the order
/// target type, trait, `Args`, `state`, `NAME`, the string constants and
/// `HYPOTHETICAL`; or what the compiler reads from it.
#[verifier::opaque]
pub open spec fn validated(s: AggregateSpec) -> Result<ValidatedModel, AggregateError> {
    match target_of(s.self_ty) {
        Err(e) => Err(e),
        Ok(target) => if !trait_ok(s.trait_path) {
            Err(AggregateError::InvalidTraitTarget { site: s.trait_site })
        } else {
            match find_type(s.types@, "Args"@) {
                None => Err(AggregateError::MissingRequiredComponent { component: Required::Args, site: s.site }),
                Some(a) => match resolve_args(a.ty) {
                    Err(e) => Err(e),
                    Ok(args) => if find_method(s.methods@, "state"@) is None {
                        Err(AggregateError::MissingRequiredComponent { component: Required::State, site: s.site })
                    } else {
                        validated_consts(s, target, args)
                    },
                },
            }
        },
    }
}

/// The constants of a description whose types and methods passed.
pub open spec fn validated_consts(s: AggregateSpec, target: TargetModel, args: Seq<ArgModel>) -> Result<ValidatedModel, AggregateError> {
    match name_const(lookup_const(s, ConstSlot::Name), s.site) {
        Err(e) => Err(e),
        Ok(name) => match string_const(lookup_const(s, ConstSlot::InitialCondition), ConstSlot::InitialCondition) {
            Err(e) => Err(e),
            Ok(ic) => match string_const(lookup_const(s, ConstSlot::SortOperator), ConstSlot::SortOperator) {
                Err(e) => Err(e),
                Ok(so) => match string_const(
                    lookup_const(s, ConstSlot::MovingInitialCondition),
                    ConstSlot::MovingInitialCondition,
                ) {
                    Err(e) => Err(e),
                    Ok(mic) => match bool_const(lookup_const(s, ConstSlot::Hypothetical)) {
                        Err(e) => Err(e),
                        Ok(h) => Ok(ValidatedModel {
                            target,
                            wrapped_state: state_wrapped(s, target),
                            args,
                            order_by: match find_type(s.types@, "OrderBy"@) {
                                Some(t) => Some(type_list(t.ty)),
                                None => None,
                            },
                            moving_state_ty: type_text(find_type(s.types@, "MovingState"@)),
                            finalize_ty: type_text(find_type(s.types@, "Finalize"@)),
                            slots: slots_of(s.methods@),
                            name,
                            parallel: expr_const(lookup_const(s, ConstSlot::Parallel)),
                            finalize_modify: expr_const(lookup_const(s, ConstSlot::FinalizeModify)),
                            moving_finalize_modify: expr_const(lookup_const(s, ConstSlot::MovingFinalizeModify)),
                            initial_condition: ic,
                            sort_operator: so,
                            moving_initial_condition: mic,
                            hypothetical: h,
                        }),
                    },
                },
            },
        },
    }
}

/// Reads a string constant: a string literal, `Some` of one, or `None`.
pub fn get_const_litstr(item: &ConstItem, slot: ConstSlot) -> (r: Result<Option<String>, AggregateError>)
    ensures
        match r {
            Ok(v) => string_const(Some(*item), slot) == Ok::<Option<Seq<char>>, AggregateError>(opt_text(v)),
            Err(e) => string_const(Some(*item), slot) == Err::<Option<Seq<char>>, AggregateError>(e),
        },
{
    match &item.value {
        ConstValue::Lit(Literal::Str(v)) => Ok(Some(v.clone())),
        ConstValue::SomeLit(Literal::Str(v)) => Ok(Some(v.clone())),
        ConstValue::NoneValue => Ok(None),
        _ => Err(AggregateError::InvalidConstantType { constant: slot, expected: ConstKind::Str, site: item.site }),
    }
}

fn find_slot<'a>(s: &'a AggregateSpec, slot: ConstSlot) -> (r: Option<&'a ConstItem>)
    ensures
        found_as(r, lookup_const(*s, slot)),
{
    get_impl_const_by_name(&s.consts, slot.name())
}

fn read_string_const(s: &AggregateSpec, slot: ConstSlot) -> (r: Result<Option<String>, AggregateError>)
    ensures
        match r {
            Ok(v) => string_const(lookup_const(*s, slot), slot) == Ok::<Option<Seq<char>>, AggregateError>(opt_text(v)),
            Err(e) => string_const(lookup_const(*s, slot), slot) == Err::<Option<Seq<char>>, AggregateError>(e),
        },
{
    match find_slot(s, slot) {
        Some(item) => get_const_litstr(item, slot),
        None => Ok(None),
    }
}

fn read_expr_const(s: &AggregateSpec, slot: ConstSlot) -> (r: Option<String>)
    ensures
        opt_text(r) == expr_const(lookup_const(*s, slot)),
{
    match find_slot(s, slot) {
        Some(item) => Some(item.text.clone()),
        None => None,
    }
}

fn read_name(s: &AggregateSpec) -> (r: Result<String, AggregateError>)
    ensures
        match r {
            Ok(v) => name_const(lookup_const(*s, ConstSlot::Name), s.site) == Ok::<Seq<char>, AggregateError>(v@),
            Err(e) => name_const(lookup_const(*s, ConstSlot::Name), s.site) == Err::<Seq<char>, AggregateError>(e),
        },
{
    match find_slot(s, ConstSlot::Name) {
        None => Err(AggregateError::MissingRequiredComponent { component: Required::Name, site: s.site }),
        Some(item) => match &item.value {
            ConstValue::Lit(Literal::Str(v)) => Ok(v.clone()),
            _ => Err(AggregateError::InvalidConstantType {
                constant: ConstSlot::Name,
                expected: ConstKind::Str,
                site: item.site,
            }),
        },
    }
}

fn read_hypothetical(s: &AggregateSpec) -> (r: Result<bool, AggregateError>)
    ensures
        r == bool_const(lookup_const(*s, ConstSlot::Hypothetical)),
{
    match find_slot(s, ConstSlot::Hypothetical) {
        None => Ok(false),
        Some(item) => match &item.value {
            ConstValue::Lit(Literal::Bool(b)) => Ok(*b),
            _ => Err(AggregateError::InvalidConstantType {
                constant: ConstSlot::Hypothetical,
                expected: ConstKind::Bool,
                site: item.site,
            }),
        },
    }
}

fn trait_is_aggregate(p: &Option<Vec<String>>) -> (r: bool)
    ensures
        r == trait_ok(*p),
{
    match p {
        None => true,
        Some(segments) => segments.len() == 0 || path_names_marker(segments, Marker::AggregateTrait),
    }
}

fn has_method(s: &AggregateSpec, name: &str) -> (r: bool)
    ensures
        r == (find_method(s.methods@, name@) is Some),
{
    get_impl_func_by_name(&s.methods, name).is_some()
}

fn read_type_text(s: &AggregateSpec, name: &str) -> (r: Option<String>)
    ensures
        opt_text(r) == type_text(find_type(s.types@, name@)),
{
    match get_impl_type_by_name(&s.types, name) {
        Some(t) => Some(t.ty.text.clone()),
        None => None,
    }
}

/// Checks a description and reads from it what the compiler needs: the
/// target type, the argument list, the encoding of the state, which
/// optional operations and types are present, and the constants.
pub fn validate(s: &AggregateSpec) -> (r: Result<Validated, AggregateError>)
    ensures
        match r {
            Ok(v) => validated(*s) == Ok::<ValidatedModel, AggregateError>(v@),
            Err(e) => validated(*s) == Err::<ValidatedModel, AggregateError>(e),
        },
{
    proof {
        reveal(validated);
    }
    let target = match get_target_path(&s.self_ty) {
        Ok(t) => t,
        Err(e) => return Err(e),
    };
    if !trait_is_aggregate(&s.trait_path) {
        return Err(AggregateError::InvalidTraitTarget { site: s.trait_site });
    }
    let args_item = match get_impl_type_by_name(&s.types, "Args") {
        Some(a) => a,
        None => return Err(AggregateError::MissingRequiredComponent { component: Required::Args, site: s.site }),
    };
    let args = match resolve_arg_list(&args_item.ty) {
        Ok(a) => a,
        Err(e) => return Err(e),
    };
    if !has_method(s, "state") {
        return Err(AggregateError::MissingRequiredComponent { component: Required::State, site: s.site });
    }
    let name = match read_name(s) {
        Ok(n) => n,
        Err(e) => return Err(e),
    };
    let initial_condition = match read_string_const(s, ConstSlot::InitialCondition) {
        Ok(v) => v,
        Err(e) => return Err(e),
    };
    let sort_operator = match read_string_const(s, ConstSlot::SortOperator) {
        Ok(v) => v,
        Err(e) => return Err(e),
    };
    let moving_initial_condition = match read_string_const(s, ConstSlot::MovingInitialCondition) {
        Ok(v) => v,
        Err(e) => return Err(e),
    };
    let hypothetical = match read_hypothetical(s) {
        Ok(v) => v,
        Err(e) => return Err(e),
    };
    let state_is_wrapper = match get_impl_type_by_name(&s.types, "State") {
        Some(t) => type_is_by_value_wrapper(&t.ty),
        None => false,
    };
    let order_by = match get_impl_type_by_name(&s.types, "OrderBy") {
        Some(t) => Some(resolve_type_list(&t.ty)),
        None => None,
    };
    let slots = Slots {
        combine: has_method(s, "combine"),
        finalize: has_method(s, "finalize"),
        serial: has_method(s, "serial"),
        deserial: has_method(s, "deserial"),
        moving_state: has_method(s, "moving_state"),
        moving_state_inverse: has_method(s, "moving_state_inverse"),
        moving_finalize: has_method(s, "moving_finalize"),
    };
    let wrapped_state = target.wrapped || state_is_wrapper;
    Ok(Validated {
        target,
        wrapped_state,
        args,
        order_by,
        moving_state_ty: read_type_text(s, "MovingState"),
        finalize_ty: read_type_text(s, "Finalize"),
        slots,
        name,
        parallel: read_expr_const(s, ConstSlot::Parallel),
        finalize_modify: read_expr_const(s, ConstSlot::FinalizeModify),
        moving_finalize_modify: read_expr_const(s, ConstSlot::MovingFinalizeModify),
        initial_condition,
        sort_operator,
        moving_initial_condition,
        hypothetical,
    })
}

} // verus!
