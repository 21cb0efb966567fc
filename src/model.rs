//! The description of an aggregate, as plain values.
use vstd::prelude::*;

verus! {

/// The shape of a type as written in the description.
pub enum TypeKind {
    /// A path such as `pgx::PgVarlena<T>`; `args` are the generic type
    /// arguments of its last segment.
    Path { segments: Vec<String>, args: Vec<TypeExpr> },
    /// A type written as a macro call such as `pgx::variadic!(T)`; `args`
    /// holds the macro's input read as one type, when it is one.
    Macro { segments: Vec<String>, args: Vec<TypeExpr> },
    /// A tuple type; `()` is the tuple of no elements.
    Tuple { elems: Vec<TypeExpr> },
    /// Any other type.
    Other,
}

/// A type of the description: its source text, its shape, and the site it
/// was written at.
pub struct TypeExpr {
    pub text: String,
    pub kind: TypeKind,
    pub site: usize,
}

/// A literal value.
pub enum Literal {
    Str(String),
    Bool(bool),
    /// A literal of another kind (a number, a character, bytes).
    Other,
}

/// The value given to a constant.
pub enum ConstValue {
    /// A bare literal.
    Lit(Literal),
    /// `Some(literal)`.
    SomeLit(Literal),
    /// `None`.
    NoneValue,
    /// Any other expression.
    Other,
}

/// An associated type: `type <name> = <ty>;`.
pub struct TypeItem {
    pub name: String,
    pub ty: TypeExpr,
    pub site: usize,
}

/// A method that the description defines.
pub struct MethodItem {
    pub name: String,
    pub site: usize,
}

/// An associated constant: `const <name>: _ = <value>;`, with the value's
/// source text.
pub struct ConstItem {
    pub name: String,
    pub value: ConstValue,
    pub text: String,
    pub site: usize,
}

/// The description of one aggregate: the implementation of the `Aggregate`
/// trait for a target type.
pub struct AggregateSpec {
    /// The type the trait is implemented for.
    pub self_ty: TypeExpr,
    /// The path of the implemented trait, when one is named.
    pub trait_path: Option<Vec<String>>,
    pub trait_site: usize,
    pub types: Vec<TypeItem>,
    pub methods: Vec<MethodItem>,
    pub consts: Vec<ConstItem>,
    pub site: usize,
}

/// The names that the compiler recognises in paths.
#[derive(Clone, Copy, Debug, PartialEq, Eq, Structural)]
pub enum Marker {
    /// The trait an aggregate implements.
    AggregateTrait,
    /// The wrapper that passes a type by value as a flat varlena.
    ByValueWrapper,
    /// The wrapper that makes an argument variadic.
    VariadicWrapper,
}

impl Marker {
    pub open spec fn spec_name(self) -> Seq<char> {
        match self {
            Marker::AggregateTrait => "Aggregate"@,
            Marker::ByValueWrapper => "PgVarlena"@,
            Marker::VariadicWrapper => "variadic"@,
        }
    }

    pub fn name(&self) -> (r: &'static str)
        ensures
            r@ == self.spec_name(),
    {
        match self {
            Marker::AggregateTrait => "Aggregate",
            Marker::ByValueWrapper => "PgVarlena",
            Marker::VariadicWrapper => "variadic",
        }
    }
}

/// A path names a marker when its last segment is the marker's name and it
/// is either that one segment or starts at the `pgx` crate.
pub open spec fn names_marker(segments: Seq<String>, m: Marker) -> bool {
    &&& segments.len() >= 1
    &&& segments.last()@ == m.spec_name()
    &&& (segments.len() == 1 || segments[0]@ == "pgx"@)
}

/// Whether `a` holds the text `b`.
pub fn same_text(a: &String, b: &str) -> (r: bool)
    ensures
        r == (a@ == b@),
{
    let t = String::from_str(b);
    a.eq(&t)
}

/// Whether the path names the marker `m`.
pub fn path_names_marker(segments: &Vec<String>, m: Marker) -> (r: bool)
    ensures
        r == names_marker(segments@, m),
{
    let n = segments.len();
    if n == 0 {
        return false;
    }
    if !same_text(&segments[n - 1], m.name()) {
        return false;
    }
    n == 1 || same_text(&segments[0], "pgx")
}

/// A type that is the by-value wrapper.
pub open spec fn is_by_value_wrapper(t: TypeExpr) -> bool {
    match t.kind {
        TypeKind::Path { segments, .. } => names_marker(segments@, Marker::ByValueWrapper),
        _ => false,
    }
}

/// A type that is the variadic wrapper around exactly one type.
pub open spec fn is_variadic(t: TypeExpr) -> bool {
    match t.kind {
        TypeKind::Macro { segments, args } => names_marker(segments@, Marker::VariadicWrapper)
            && args@.len() == 1,
        _ => false,
    }
}

/// Whether `t` is the by-value wrapper.
pub fn type_is_by_value_wrapper(t: &TypeExpr) -> (r: bool)
    ensures
        r == is_by_value_wrapper(*t),
{
    match &t.kind {
        TypeKind::Path { segments, .. } => path_names_marker(segments, Marker::ByValueWrapper),
        _ => false,
    }
}

/// Whether `t` is the variadic wrapper around one type.
pub fn type_is_variadic(t: &TypeExpr) -> (r: bool)
    ensures
        r == is_variadic(*t),
{
    match &t.kind {
        TypeKind::Macro { segments, args } => path_names_marker(segments, Marker::VariadicWrapper)
            && args.len() == 1,
        _ => false,
    }
}

} // verus!

verus! {

/// One operation of an aggregate.
#[derive(Clone, Copy, Debug, PartialEq, Eq, Structural)]
pub enum Component {
    State,
    Combine,
    Finalize,
    Serial,
    Deserial,
    MovingState,
    MovingStateInverse,
    MovingFinalize,
}

impl Component {
    pub open spec fn spec_name(self) -> Seq<char> {
        match self {
            Component::State => "state"@,
            Component::Combine => "combine"@,
            Component::Finalize => "finalize"@,
            Component::Serial => "serial"@,
            Component::Deserial => "deserial"@,
            Component::MovingState => "moving_state"@,
            Component::MovingStateInverse => "moving_state_inverse"@,
            Component::MovingFinalize => "moving_finalize"@,
        }
    }

    /// The name of the trait method that implements the operation.
    pub fn name(&self) -> (r: &'static str)
        ensures
            r@ == self.spec_name(),
    {
        match self {
            Component::State => "state",
            Component::Combine => "combine",
            Component::Finalize => "finalize",
            Component::Serial => "serial",
            Component::Deserial => "deserial",
            Component::MovingState => "moving_state",
            Component::MovingStateInverse => "moving_state_inverse",
            Component::MovingFinalize => "moving_finalize",
        }
    }
}

} // verus!
