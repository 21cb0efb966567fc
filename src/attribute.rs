//! The options that mark exported functions (immutable, strict, ...).
use vstd::prelude::*;

verus! {

/// One option of an exported function.
#[derive(Debug)]
pub enum Attribute {
    Immutable,
    Strict,
    Stable,
    Volatile,
    Raw,
    NoGuard,
    ParallelSafe,
    ParallelUnsafe,
    ParallelRestricted,
    Error(String),
    Schema(String),
    Name(String),
    SkipInventory,
}

pub enum AttributeModel {
    Immutable,
    Strict,
    Stable,
    Volatile,
    Raw,
    NoGuard,
    ParallelSafe,
    ParallelUnsafe,
    ParallelRestricted,
    Error(Seq<char>),
    Schema(Seq<char>),
    Name(Seq<char>),
    SkipInventory,
}

impl View for Attribute {
    type V = AttributeModel;

    open spec fn view(&self) -> AttributeModel {
        match self {
            Attribute::Immutable => AttributeModel::Immutable,
            Attribute::Strict => AttributeModel::Strict,
            Attribute::Stable => AttributeModel::Stable,
            Attribute::Volatile => AttributeModel::Volatile,
            Attribute::Raw => AttributeModel::Raw,
            Attribute::NoGuard => AttributeModel::NoGuard,
            Attribute::ParallelSafe => AttributeModel::ParallelSafe,
            Attribute::ParallelUnsafe => AttributeModel::ParallelUnsafe,
            Attribute::ParallelRestricted => AttributeModel::ParallelRestricted,
            Attribute::SkipInventory => AttributeModel::SkipInventory,
            Attribute::Error(s) => AttributeModel::Error(s@),
            Attribute::Schema(s) => AttributeModel::Schema(s@),
            Attribute::Name(s) => AttributeModel::Name(s@),
        }
    }
}

/// A list of options, in the order written.
pub struct PgxAttributes {
    pub attrs: Vec<Attribute>,
}

/// Why an option could not be read.
#[derive(Clone, Copy, Debug, PartialEq, Eq, Structural)]
pub enum AttributeError {
    /// The keyword names no option.
    InvalidOption,
    /// The option takes a string (`name = "..."`) and none was given.
    MissingValue,
    /// The option takes no value and one was given.
    UnexpectedValue,
}

/// The option that a bare keyword names.
pub open spec fn flag_option(k: Seq<char>) -> Option<AttributeModel> {
    if k == "immutable"@ {
        Some(AttributeModel::Immutable)
    } else if k == "strict"@ {
        Some(AttributeModel::Strict)
    } else if k == "stable"@ {
        Some(AttributeModel::Stable)
    } else if k == "volatile"@ {
        Some(AttributeModel::Volatile)
    } else if k == "raw"@ {
        Some(AttributeModel::Raw)
    } else if k == "no_guard"@ {
        Some(AttributeModel::NoGuard)
    } else if k == "parallel_safe"@ {
        Some(AttributeModel::ParallelSafe)
    } else if k == "parallel_unsafe"@ {
        Some(AttributeModel::ParallelUnsafe)
    } else if k == "parallel_restricted"@ {
        Some(AttributeModel::ParallelRestricted)
    } else if k == "skip_inventory"@ {
        Some(AttributeModel::SkipInventory)
    } else {
        None
    }
}

/// The option that a keyword with the string `v` names.
pub open spec fn valued_option(k: Seq<char>, v: Seq<char>) -> Option<AttributeModel> {
    if k == "error"@ {
        Some(AttributeModel::Error(v))
    } else if k == "schema"@ {
        Some(AttributeModel::Schema(v))
    } else if k == "name"@ {
        Some(AttributeModel::Name(v))
    } else {
        None
    }
}

/// The option written as `keyword`, or `keyword = "value"`.
pub open spec fn option_of(k: Seq<char>, value: Option<Seq<char>>) -> Result<AttributeModel, AttributeError> {
    match value {
        None => match flag_option(k) {
            Some(a) => Ok(a),
            None => if valued_option(k, Seq::empty()) is Some {
                Err(AttributeError::MissingValue)
            } else {
                Err(AttributeError::InvalidOption)
            },
        },
        Some(v) => match valued_option(k, v) {
            Some(a) => Ok(a),
            None => if flag_option(k) is Some {
                Err(AttributeError::UnexpectedValue)
            } else {
                Err(AttributeError::InvalidOption)
            },
        },
    }
}

fn same(a: &str, b: &str) -> (r: bool)
    ensures
        r == (a@ == b@),
{
    let x = String::from_str(a);
    let y = String::from_str(b);
    x.eq(&y)
}

fn flag_from(keyword: &str) -> (r: Option<Attribute>)
    ensures
        match r {
            Some(a) => flag_option(keyword@) == Some(a@),
            None => flag_option(keyword@) is None,
        },
{
    let a = if same(keyword, "immutable") {
        Attribute::Immutable
    } else if same(keyword, "strict") {
        Attribute::Strict
    } else if same(keyword, "stable") {
        Attribute::Stable
    } else if same(keyword, "volatile") {
        Attribute::Volatile
    } else if same(keyword, "raw") {
        Attribute::Raw
    } else if same(keyword, "no_guard") {
        Attribute::NoGuard
    } else if same(keyword, "parallel_safe") {
        Attribute::ParallelSafe
    } else if same(keyword, "parallel_unsafe") {
        Attribute::ParallelUnsafe
    } else if same(keyword, "parallel_restricted") {
        Attribute::ParallelRestricted
    } else if same(keyword, "skip_inventory") {
        Attribute::SkipInventory
    } else {
        return None;
    };
    Some(a)
}

impl Attribute {
    /// Reads the option written as `keyword`, or as `keyword = "value"` when
    /// `value` is given.
    pub fn from_option(keyword: &str, value: Option<String>) -> (r: Result<Attribute, AttributeError>)
        ensures
            match r {
                Ok(a) => option_of(keyword@, opt_view(value)) == Ok::<AttributeModel, AttributeError>(a@),
                Err(e) => option_of(keyword@, opt_view(value)) == Err::<AttributeModel, AttributeError>(e),
            },
    {
        let takes_value = same(keyword, "error") || same(keyword, "schema") || same(keyword, "name");
        match value {
            None => match flag_from(keyword) {
                Some(a) => Ok(a),
                None => if takes_value {
                    Err(AttributeError::MissingValue)
                } else {
                    Err(AttributeError::InvalidOption)
                },
            },
            Some(text) => {
                if same(keyword, "error") {
                    Ok(Attribute::Error(text))
                } else if same(keyword, "schema") {
                    Ok(Attribute::Schema(text))
                } else if same(keyword, "name") {
                    Ok(Attribute::Name(text))
                } else if flag_from(keyword).is_some() {
                    Err(AttributeError::UnexpectedValue)
                } else {
                    Err(AttributeError::InvalidOption)
                }
            },
        }
    }

    /// The variant of the engine's extern-argument enum that stands for the
    /// option.
    pub fn extern_arg_variant(&self) -> (r: &'static str)
        ensures
            r@ == extern_arg_variant_of(self@),
    {
        match self {
            Attribute::Immutable => "Immutable",
            Attribute::Strict => "Strict",
            Attribute::Stable => "Stable",
            Attribute::Volatile => "Volatile",
            Attribute::Raw => "Raw",
            Attribute::NoGuard => "NoGuard",
            Attribute::ParallelSafe => "ParallelSafe",
            Attribute::ParallelUnsafe => "ParallelUnsafe",
            Attribute::ParallelRestricted => "ParallelRestricted",
            Attribute::SkipInventory => "SkipInventory",
            Attribute::Error(_) => "Error",
            Attribute::Schema(_) => "Schema",
            Attribute::Name(_) => "Name",
        }
    }
}

pub open spec fn opt_view(o: Option<String>) -> Option<Seq<char>> {
    match o {
        Some(s) => Some(s@),
        None => None,
    }
}

pub open spec fn extern_arg_variant_of(a: AttributeModel) -> Seq<char> {
    match a {
            AttributeModel::Immutable => "Immutable"@,
            AttributeModel::Strict => "Strict"@,
            AttributeModel::Stable => "Stable"@,
            AttributeModel::Volatile => "Volatile"@,
            AttributeModel::Raw => "Raw"@,
            AttributeModel::NoGuard => "NoGuard"@,
            AttributeModel::ParallelSafe => "ParallelSafe"@,
            AttributeModel::ParallelUnsafe => "ParallelUnsafe"@,
            AttributeModel::ParallelRestricted => "ParallelRestricted"@,
            AttributeModel::SkipInventory => "SkipInventory"@,
            AttributeModel::Error(_) => "Error"@,
            AttributeModel::Schema(_) => "Schema"@,
            AttributeModel::Name(_) => "Name"@,
    }
}

impl PgxAttributes {
    /// Reads a list of options, each a keyword and maybe a string; the
    /// first option that cannot be read makes the whole list fail.
    pub fn from_options(options: &Vec<(String, Option<String>)>) -> (r: Result<PgxAttributes, AttributeError>)
        ensures
            match r {
                Ok(p) => p.attrs@.len() == options@.len() && forall|i: int|
                    0 <= i < options@.len() ==> option_of(
                        (#[trigger] options@[i]).0@,
                        opt_view(options@[i].1),
                    ) == Ok::<AttributeModel, AttributeError>(p.attrs@[i]@),
                Err(e) => exists|i: int|
                    0 <= i < options@.len() && option_of(
                        (#[trigger] options@[i]).0@,
                        opt_view(options@[i].1),
                    ) == Err::<AttributeModel, AttributeError>(e) && forall|j: int|
                        0 <= j < i ==> (#[trigger] option_of(options@[j].0@, opt_view(options@[j].1))) is Ok,
            },
    {
        let mut attrs: Vec<Attribute> = Vec::new();
        let mut i: usize = 0;
        while i < options.len()
            invariant
                i <= options@.len(),
                attrs@.len() == i,
                forall|j: int|
                    0 <= j < i ==> option_of(
                        (#[trigger] options@[j]).0@,
                        opt_view(options@[j].1),
                    ) == Ok::<AttributeModel, AttributeError>(attrs@[j]@),
            decreases options.len() - i,
        {
            let (keyword, value) = &options[i];
            match Attribute::from_option(keyword.as_str(), value.clone()) {
                Ok(a) => attrs.push(a),
                Err(e) => return Err(e),
            }
            i += 1;
        }
        Ok(PgxAttributes { attrs })
    }
}

} // verus!
