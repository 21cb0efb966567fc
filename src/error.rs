use vstd::prelude::*;

verus! {

/// The literal kind that a constant of the description must have.
#[derive(Clone, Copy, Debug, PartialEq, Eq, Structural)]
pub enum ConstKind {
    Str,
    Bool,
}

/// What the description must hold and may not leave out.
#[derive(Clone, Copy, Debug, PartialEq, Eq, Structural)]
pub enum Required {
    Args,
    State,
    Name,
}

/// A constant slot of the description.
#[derive(Clone, Copy, Debug, PartialEq, Eq, Structural)]
pub enum ConstSlot {
    Name,
    Parallel,
    FinalizeModify,
    MovingFinalizeModify,
    InitialCondition,
    SortOperator,
    MovingInitialCondition,
    Hypothetical,
}

/// Why a description could not be compiled. Each error carries the site
/// (an index into the caller's table of source locations) of the fragment
/// at fault.
#[derive(Clone, Copy, Debug, PartialEq, Eq, Structural)]
pub enum AggregateError {
    /// The description implements another trait than `Aggregate`.
    InvalidTraitTarget { site: usize },
    /// `Args`, `state` or `NAME` is missing.
    MissingRequiredComponent { component: Required, site: usize },
    /// A constant is present with the wrong literal kind.
    InvalidConstantType { constant: ConstSlot, expected: ConstKind, site: usize },
    /// `Args` names more arguments than the name pool holds.
    UnsupportedArgCount { count: usize, site: usize },
    /// A variadic argument stands elsewhere than in the last position.
    MisplacedVariadic { site: usize },
    /// The target type, or the type inside a wrapper, is not a path with a
    /// final segment.
    MalformedTypePath { site: usize },
    /// The target's name holds characters outside ASCII, which the
    /// snake-casing of wrapper names cannot take.
    NonAsciiTargetName { site: usize },
}

impl Required {
    pub open spec fn spec_name(self) -> Seq<char> {
        match self {
            Required::Args => "Args"@,
            Required::State => "state"@,
            Required::Name => "NAME"@,
        }
    }

    /// The name under which the missing piece is declared.
    pub fn name(&self) -> (r: &'static str)
        ensures
            r@ == self.spec_name(),
    {
        match self {
            Required::Args => "Args",
            Required::State => "state",
            Required::Name => "NAME",
        }
    }
}

impl ConstSlot {
    pub open spec fn spec_name(self) -> Seq<char> {
        match self {
            ConstSlot::Name => "NAME"@,
            ConstSlot::Parallel => "PARALLEL"@,
            ConstSlot::FinalizeModify => "FINALIZE_MODIFY"@,
            ConstSlot::MovingFinalizeModify => "MOVING_FINALIZE_MODIFY"@,
            ConstSlot::InitialCondition => "INITIAL_CONDITION"@,
            ConstSlot::SortOperator => "SORT_OPERATOR"@,
            ConstSlot::MovingInitialCondition => "MOVING_INITIAL_CONDITION"@,
            ConstSlot::Hypothetical => "HYPOTHETICAL"@,
        }
    }

    /// The name under which the constant is declared.
    pub fn name(&self) -> (r: &'static str)
        ensures
            r@ == self.spec_name(),
    {
        match self {
            ConstSlot::Name => "NAME",
            ConstSlot::Parallel => "PARALLEL",
            ConstSlot::FinalizeModify => "FINALIZE_MODIFY",
            ConstSlot::MovingFinalizeModify => "MOVING_FINALIZE_MODIFY",
            ConstSlot::InitialCondition => "INITIAL_CONDITION",
            ConstSlot::SortOperator => "SORT_OPERATOR",
            ConstSlot::MovingInitialCondition => "MOVING_INITIAL_CONDITION",
            ConstSlot::Hypothetical => "HYPOTHETICAL",
        }
    }
}

} // verus!
