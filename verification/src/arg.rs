//! ink! attribute argument model: kinds, priority ranks and expected value kinds.

use vstd::prelude::*;

use crate::meta::{MetaName, MetaNameValue, MetaOption, MetaValue, MetaValueKind};
use crate::strutil::str_eq;
use crate::TextRange;

verus! {

/// The ink! attribute argument kind.
#[derive(Debug, Clone, Copy, PartialEq, Eq, Hash, Structural)]
pub enum InkArgKind {
    /// `additional_contracts`
    AdditionalContracts,
    /// `anonymous`
    Anonymous,
    /// `constructor`
    Constructor,
    /// `default`
    Default,
    /// `derive`
    Derive,
    /// `env`
    Env,
    /// `environment`
    Environment,
    /// `event`
    Event,
    /// `extension`
    Extension,
    /// `handle_status`
    HandleStatus,
    /// `impl`
    Impl,
    /// `keep_attr`
    KeepAttr,
    /// `message`
    Message,
    /// `namespace`
    Namespace,
    /// `payable`
    Payable,
    /// `selector`
    Selector,
    /// `storage`
    Storage,
    /// `topic`
    Topic,
    /// An unrecognized argument name.
    Unknown,
}

/// The argument kind selected by a meta item name.
pub open spec fn spec_arg_kind_from_name(s: Seq<char>) -> InkArgKind {
    if s == "additional_contracts"@ {
        InkArgKind::AdditionalContracts
    } else if s == "anonymous"@ {
        InkArgKind::Anonymous
    } else if s == "constructor"@ {
        InkArgKind::Constructor
    } else if s == "default"@ {
        InkArgKind::Default
    } else if s == "derive"@ {
        InkArgKind::Derive
    } else if s == "env"@ {
        InkArgKind::Env
    } else if s == "environment"@ {
        InkArgKind::Environment
    } else if s == "event"@ {
        InkArgKind::Event
    } else if s == "extension"@ {
        InkArgKind::Extension
    } else if s == "handle_status"@ {
        InkArgKind::HandleStatus
    } else if s == "impl"@ {
        InkArgKind::Impl
    } else if s == "keep_attr"@ {
        InkArgKind::KeepAttr
    } else if s == "message"@ {
        InkArgKind::Message
    } else if s == "namespace"@ {
        InkArgKind::Namespace
    } else if s == "payable"@ {
        InkArgKind::Payable
    } else if s == "selector"@ {
        InkArgKind::Selector
    } else if s == "storage"@ {
        InkArgKind::Storage
    } else if s == "topic"@ {
        InkArgKind::Topic
    } else {
        InkArgKind::Unknown
    }
}

/// The ascending priority rank of an argument kind: rank 0 for entity-defining
/// arguments, rank 1 for complementary arguments, rank 10 for unknown ones.
/// A lower rank means a higher priority.
pub open spec fn spec_ink_arg_kind_sort_order(arg_kind: InkArgKind) -> u8 {
    match arg_kind {
        InkArgKind::Constructor
        | InkArgKind::Event
        | InkArgKind::Extension
        | InkArgKind::Impl
        | InkArgKind::Message
        | InkArgKind::Storage
        | InkArgKind::Topic => 0,
        InkArgKind::AdditionalContracts
        | InkArgKind::Anonymous
        | InkArgKind::Default
        | InkArgKind::Derive
        | InkArgKind::Env
        | InkArgKind::Environment
        | InkArgKind::HandleStatus
        | InkArgKind::KeepAttr
        | InkArgKind::Namespace
        | InkArgKind::Payable
        | InkArgKind::Selector => 1,
        InkArgKind::Unknown => 10,
    }
}

/// Assigns a sort ascending rank (i.e. 0 is the highest rank) to ink! attribute
/// argument kinds, so that the best kind is chosen for an attribute regardless
/// of the actual ordering of its arguments in the source code.
pub fn ink_arg_kind_sort_order(arg_kind: InkArgKind) -> (r: u8)
    ensures
        r == spec_ink_arg_kind_sort_order(arg_kind),
{
    match arg_kind {
        InkArgKind::Constructor
        | InkArgKind::Event
        | InkArgKind::Extension
        | InkArgKind::Impl
        | InkArgKind::Message
        | InkArgKind::Storage
        | InkArgKind::Topic => 0,
        InkArgKind::AdditionalContracts
        | InkArgKind::Anonymous
        | InkArgKind::Default
        | InkArgKind::Derive
        | InkArgKind::Env
        | InkArgKind::Environment
        | InkArgKind::HandleStatus
        | InkArgKind::KeepAttr
        | InkArgKind::Namespace
        | InkArgKind::Payable
        | InkArgKind::Selector => 1,
        InkArgKind::Unknown => 10,
    }
}

/// The canonical source name of an argument kind (empty for unknown kinds).
pub open spec fn spec_arg_kind_name(arg_kind: InkArgKind) -> Seq<char> {
    match arg_kind {
        InkArgKind::AdditionalContracts => "additional_contracts"@,
        InkArgKind::Anonymous => "anonymous"@,
        InkArgKind::Constructor => "constructor"@,
        InkArgKind::Default => "default"@,
        InkArgKind::Derive => "derive"@,
        InkArgKind::Env => "env"@,
        InkArgKind::Environment => "environment"@,
        InkArgKind::Event => "event"@,
        InkArgKind::Extension => "extension"@,
        InkArgKind::HandleStatus => "handle_status"@,
        InkArgKind::Impl => "impl"@,
        InkArgKind::KeepAttr => "keep_attr"@,
        InkArgKind::Message => "message"@,
        InkArgKind::Namespace => "namespace"@,
        InkArgKind::Payable => "payable"@,
        InkArgKind::Selector => "selector"@,
        InkArgKind::Storage => "storage"@,
        InkArgKind::Topic => "topic"@,
        InkArgKind::Unknown => "unknown"@,
    }
}

impl InkArgKind {
    /// Converts a meta item name into an ink! attribute argument kind;
    /// unrecognized names become `Unknown`.
    pub fn from_name(arg_name: &str) -> (r: InkArgKind)
        ensures
            r == spec_arg_kind_from_name(arg_name@),
    {
        if str_eq(arg_name, "additional_contracts") {
            InkArgKind::AdditionalContracts
        } else if str_eq(arg_name, "anonymous") {
            InkArgKind::Anonymous
        } else if str_eq(arg_name, "constructor") {
            InkArgKind::Constructor
        } else if str_eq(arg_name, "default") {
            InkArgKind::Default
        } else if str_eq(arg_name, "derive") {
            InkArgKind::Derive
        } else if str_eq(arg_name, "env") {
            InkArgKind::Env
        } else if str_eq(arg_name, "environment") {
            InkArgKind::Environment
        } else if str_eq(arg_name, "event") {
            InkArgKind::Event
        } else if str_eq(arg_name, "extension") {
            InkArgKind::Extension
        } else if str_eq(arg_name, "handle_status") {
            InkArgKind::HandleStatus
        } else if str_eq(arg_name, "impl") {
            InkArgKind::Impl
        } else if str_eq(arg_name, "keep_attr") {
            InkArgKind::KeepAttr
        } else if str_eq(arg_name, "message") {
            InkArgKind::Message
        } else if str_eq(arg_name, "namespace") {
            InkArgKind::Namespace
        } else if str_eq(arg_name, "payable") {
            InkArgKind::Payable
        } else if str_eq(arg_name, "selector") {
            InkArgKind::Selector
        } else if str_eq(arg_name, "storage") {
            InkArgKind::Storage
        } else if str_eq(arg_name, "topic") {
            InkArgKind::Topic
        } else {
            InkArgKind::Unknown
        }
    }

    /// The canonical source name of the argument kind, e.g. `event` for
    /// `InkArgKind::Event` (the name `unknown` stands for unknown kinds).
    pub fn name_as_str(&self) -> (r: &'static str)
        ensures
            r@ == spec_arg_kind_name(*self),
    {
        match self {
            InkArgKind::AdditionalContracts => "additional_contracts",
            InkArgKind::Anonymous => "anonymous",
            InkArgKind::Constructor => "constructor",
            InkArgKind::Default => "default",
            InkArgKind::Derive => "derive",
            InkArgKind::Env => "env",
            InkArgKind::Environment => "environment",
            InkArgKind::Event => "event",
            InkArgKind::Extension => "extension",
            InkArgKind::HandleStatus => "handle_status",
            InkArgKind::Impl => "impl",
            InkArgKind::KeepAttr => "keep_attr",
            InkArgKind::Message => "message",
            InkArgKind::Namespace => "namespace",
            InkArgKind::Payable => "payable",
            InkArgKind::Selector => "selector",
            InkArgKind::Storage => "storage",
            InkArgKind::Topic => "topic",
            InkArgKind::Unknown => "unknown",
        }
    }

    /// Returns true if the ink! argument kind is an "entity type"
    /// (i.e. `storage`, `event`, `impl`, `constructor`, `message`, `extension` e.t.c).
    pub fn is_entity_type(&self) -> (r: bool)
        ensures
            r == (spec_ink_arg_kind_sort_order(*self) == 0),
    {
        ink_arg_kind_sort_order(*self) == 0
    }

    /// Returns true if the ink! argument kind is "complementary": an optional
    /// argument that complements an entity-level argument (e.g. `anonymous`,
    /// `payable`, `selector`), a macro-level argument (e.g. `env`, `keep_attr`,
    /// `derive`) or an ambiguous argument (e.g. `namespace`).
    pub fn is_complementary(&self) -> (r: bool)
        ensures
            r == (spec_ink_arg_kind_sort_order(*self) == 1),
    {
        ink_arg_kind_sort_order(*self) == 1
    }

    /// Returns extra details/docs about the ink! attribute argument kind.
    pub fn detail(&self) -> (r: &'static str)
        ensures
            r@ == spec_arg_kind_detail(*self),
    {
        match self {
            InkArgKind::AdditionalContracts => "Tells the ink! e2e test runner which additional contracts to build before executing the test.",
            InkArgKind::Anonymous => "Tells the ink! codegen to treat the ink! event as anonymous which omits the event signature as topic upon emitting.",
            InkArgKind::Constructor => "Flags a function for the ink! storage `struct` as a constructor making it available to the API for instantiating the contract.",
            InkArgKind::Default => "Tells UI to treat the ink! message or ink! constructor as the default choice in selection widgets (e.g dropdowns).",
            InkArgKind::Derive => "A configuration parameter used to enable/disable auto deriving of all required storage traits.",
            InkArgKind::Env => "Tells the ink! code generator which environment to use for the ink! smart contract.",
            InkArgKind::Environment => "Tells the ink! code generator which environment to use for the ink! smart contract.",
            InkArgKind::Event => "Defines an ink! event.",
            InkArgKind::Extension => "Determines the unique function ID of the chain extension function.",
            InkArgKind::HandleStatus => "Assumes that the returned status code of the chain extension function always indicates success and therefore always loads and decodes the output buffer of the call.",
            InkArgKind::Impl => "Tells the ink! codegen that some implementation block shall be granted access to ink! internals even without it containing any ink! messages or ink! constructors.",
            InkArgKind::KeepAttr => "Tells the ink! code generator which attributes should be passed to call builders.",
            InkArgKind::Message => "Flags a method for the ink! storage `struct` as a message making it available to the API for calling the contract.",
            InkArgKind::Namespace => "Changes the resulting selectors of all the ink! messages and ink! constructors within the trait implementation.",
            InkArgKind::Payable => "Allows receiving value as part of the call of the ink! message.",
            InkArgKind::Selector => "The `u32` variant specifies a concrete dispatch selector for the flagged entity, which allows a contract author to precisely control the selectors of their APIs making it possible to rename their API without breakage.\n\nWhile the `_` variant specifies a fallback message that is invoked if no other ink! message matches a selector.",
            InkArgKind::Storage => "Defines the ink! storage `struct`.",
            InkArgKind::Topic => "Tells the ink! codegen to provide a topic hash for the given field.",
            InkArgKind::Unknown => "",
        }
    }
}

/// Extra details/docs about an ink! attribute argument kind.
pub open spec fn spec_arg_kind_detail(arg_kind: InkArgKind) -> Seq<char> {
    match arg_kind {
        InkArgKind::AdditionalContracts => "Tells the ink! e2e test runner which additional contracts to build before executing the test."@,
        InkArgKind::Anonymous => "Tells the ink! codegen to treat the ink! event as anonymous which omits the event signature as topic upon emitting."@,
        InkArgKind::Constructor => "Flags a function for the ink! storage `struct` as a constructor making it available to the API for instantiating the contract."@,
        InkArgKind::Default => "Tells UI to treat the ink! message or ink! constructor as the default choice in selection widgets (e.g dropdowns)."@,
        InkArgKind::Derive => "A configuration parameter used to enable/disable auto deriving of all required storage traits."@,
        InkArgKind::Env => "Tells the ink! code generator which environment to use for the ink! smart contract."@,
        InkArgKind::Environment => "Tells the ink! code generator which environment to use for the ink! smart contract."@,
        InkArgKind::Event => "Defines an ink! event."@,
        InkArgKind::Extension => "Determines the unique function ID of the chain extension function."@,
        InkArgKind::HandleStatus => "Assumes that the returned status code of the chain extension function always indicates success and therefore always loads and decodes the output buffer of the call."@,
        InkArgKind::Impl => "Tells the ink! codegen that some implementation block shall be granted access to ink! internals even without it containing any ink! messages or ink! constructors."@,
        InkArgKind::KeepAttr => "Tells the ink! code generator which attributes should be passed to call builders."@,
        InkArgKind::Message => "Flags a method for the ink! storage `struct` as a message making it available to the API for calling the contract."@,
        InkArgKind::Namespace => "Changes the resulting selectors of all the ink! messages and ink! constructors within the trait implementation."@,
        InkArgKind::Payable => "Allows receiving value as part of the call of the ink! message."@,
        InkArgKind::Selector => "The `u32` variant specifies a concrete dispatch selector for the flagged entity, which allows a contract author to precisely control the selectors of their APIs making it possible to rename their API without breakage.\n\nWhile the `_` variant specifies a fallback message that is invoked if no other ink! message matches a selector."@,
        InkArgKind::Storage => "Defines the ink! storage `struct`."@,
        InkArgKind::Topic => "Tells the ink! codegen to provide a topic hash for the given field."@,
        InkArgKind::Unknown => ""@,
    }
}

/// The ink! attribute argument value string kind.
#[derive(Debug, Clone, Copy, PartialEq, Eq, Hash, Structural)]
pub enum InkArgValueStringKind {
    CommaList,
    Plain,
    Identifier,
    SpaceList,
}

/// The ink! attribute argument value path kind.
#[derive(Debug, Clone, Copy, PartialEq, Eq, Hash, Structural)]
pub enum InkArgValuePathKind {
    Plain,
    Environment,
}

/// The ink! attribute argument value kind.
#[derive(Debug, Clone, Copy, PartialEq, Eq, Hash, Structural)]
pub enum InkArgValueKind {
    NoValue,
    U32,
    U32OrWildcard,
    Str(InkArgValueStringKind),
    Bool,
    Path(InkArgValuePathKind),
}

/// The value kind expected by each argument kind.
pub open spec fn spec_arg_value_kind(arg_kind: InkArgKind) -> InkArgValueKind {
    match arg_kind {
        InkArgKind::AdditionalContracts => InkArgValueKind::Str(InkArgValueStringKind::SpaceList),
        InkArgKind::Env | InkArgKind::Environment => InkArgValueKind::Path(
            InkArgValuePathKind::Environment,
        ),
        InkArgKind::Extension => InkArgValueKind::U32,
        InkArgKind::HandleStatus | InkArgKind::Derive => InkArgValueKind::Bool,
        InkArgKind::KeepAttr => InkArgValueKind::Str(InkArgValueStringKind::CommaList),
        InkArgKind::Namespace => InkArgValueKind::Str(InkArgValueStringKind::Identifier),
        InkArgKind::Selector => InkArgValueKind::U32OrWildcard,
        _ => InkArgValueKind::NoValue,
    }
}

impl InkArgValueKind {
    /// Converts an ink! attribute argument kind to the value kind it expects.
    pub fn from_arg_kind(arg_kind: InkArgKind) -> (r: InkArgValueKind)
        ensures
            r == spec_arg_value_kind(arg_kind),
    {
        match arg_kind {
            InkArgKind::AdditionalContracts => InkArgValueKind::Str(
                InkArgValueStringKind::SpaceList,
            ),
            InkArgKind::Env | InkArgKind::Environment => InkArgValueKind::Path(
                InkArgValuePathKind::Environment,
            ),
            InkArgKind::Extension => InkArgValueKind::U32,
            InkArgKind::HandleStatus | InkArgKind::Derive => InkArgValueKind::Bool,
            InkArgKind::KeepAttr => InkArgValueKind::Str(InkArgValueStringKind::CommaList),
            InkArgKind::Namespace => InkArgValueKind::Str(InkArgValueStringKind::Identifier),
            InkArgKind::Selector => InkArgValueKind::U32OrWildcard,
            _ => InkArgValueKind::NoValue,
        }
    }

    /// Returns extra details/docs about the ink! attribute argument value kind
    /// (e.g. details about further validation applied to the value kind).
    pub fn detail(&self) -> (r: &'static str)
        ensures
            (*self == InkArgValueKind::Str(InkArgValueStringKind::CommaList)) ==> r@
                == "A comma separated list."@,
            (*self == InkArgValueKind::Str(InkArgValueStringKind::Identifier)) ==> r@
                == "A valid Rust identifier."@,
            (*self == InkArgValueKind::Str(InkArgValueStringKind::SpaceList)) ==> r@
                == "A space separated list."@,
            !(*self matches InkArgValueKind::Str(k) && k != InkArgValueStringKind::Plain) ==> r@
                == ""@,
    {
        match self {
            InkArgValueKind::Str(InkArgValueStringKind::CommaList) => "A comma separated list.",
            InkArgValueKind::Str(InkArgValueStringKind::Identifier) => "A valid Rust identifier.",
            InkArgValueKind::Str(InkArgValueStringKind::SpaceList) => "A space separated list.",
            _ => "",
        }
    }

    /// Whether a parsed meta value (or its absence) matches this expected kind.
    pub open spec fn spec_accepts(self, value: MetaOption<MetaValue>) -> bool {
        match self {
            InkArgValueKind::NoValue => value is Missing,
            InkArgValueKind::U32 => value matches MetaOption::Present(v) && v.kind
                == MetaValueKind::Int,
            InkArgValueKind::U32OrWildcard => value matches MetaOption::Present(v) && (v.kind
                == MetaValueKind::Int || v.kind == MetaValueKind::Wildcard),
            InkArgValueKind::Str(_) => value matches MetaOption::Present(v) && v.kind
                == MetaValueKind::Str,
            InkArgValueKind::Bool => value matches MetaOption::Present(v) && (v.kind
                == MetaValueKind::True || v.kind == MetaValueKind::False),
            InkArgValueKind::Path(_) => value matches MetaOption::Present(v) && v.kind
                == MetaValueKind::Path,
        }
    }

    /// Whether a parsed meta value (or its absence) matches this expected kind.
    pub fn accepts(&self, value: &MetaOption<MetaValue>) -> (r: bool)
        ensures
            r == self.spec_accepts(*value),
    {
        match self {
            InkArgValueKind::NoValue => matches!(value, MetaOption::Missing),
            InkArgValueKind::U32 => match value {
                MetaOption::Present(v) => v.kind == MetaValueKind::Int,
                _ => false,
            },
            InkArgValueKind::U32OrWildcard => match value {
                MetaOption::Present(v) => v.kind == MetaValueKind::Int || v.kind
                    == MetaValueKind::Wildcard,
                _ => false,
            },
            InkArgValueKind::Str(_) => match value {
                MetaOption::Present(v) => v.kind == MetaValueKind::Str,
                _ => false,
            },
            InkArgValueKind::Bool => match value {
                MetaOption::Present(v) => v.kind == MetaValueKind::True || v.kind
                    == MetaValueKind::False,
                _ => false,
            },
            InkArgValueKind::Path(_) => match value {
                MetaOption::Present(v) => v.kind == MetaValueKind::Path,
                _ => false,
            },
        }
    }
}

/// An ink! attribute argument.
#[derive(Debug)]
pub struct InkArg {
    /// The kind of the ink! attribute argument.
    pub kind: InkArgKind,
    /// The meta item for the ink! attribute argument.
    pub meta: MetaNameValue,
}

/// The argument kind derived from a meta item: its name's kind when the name
/// is present and well formed, `Unknown` otherwise.
pub open spec fn spec_kind_of_meta(meta: MetaNameValue) -> InkArgKind {
    match meta.name {
        MetaOption::Present(n) => spec_arg_kind_from_name(n.text@),
        _ => InkArgKind::Unknown,
    }
}

impl Clone for InkArg {
    fn clone(&self) -> (r: Self)
        ensures
            r == *self,
    {
        InkArg { kind: self.kind, meta: self.meta.clone() }
    }
}

impl InkArg {
    /// Builds an ink! attribute argument from a parsed meta item.
    pub fn new(meta: MetaNameValue) -> (r: InkArg)
        ensures
            r.meta == meta,
            r.kind == spec_kind_of_meta(meta),
    {
        let kind = match &meta.name {
            MetaOption::Present(n) => InkArgKind::from_name(n.text.as_str()),
            _ => InkArgKind::Unknown,
        };
        InkArg { kind, meta }
    }

    /// Returns the ink! attribute argument kind.
    pub fn kind(&self) -> (r: &InkArgKind)
        ensures
            r == &self.kind,
    {
        &self.kind
    }

    /// Returns the meta item for the ink! attribute argument.
    pub fn meta(&self) -> (r: &MetaNameValue)
        ensures
            r == &self.meta,
    {
        &self.meta
    }

    /// Returns the text range of the ink! attribute argument.
    pub fn text_range(&self) -> (r: TextRange)
        ensures
            r == self.meta.range,
    {
        self.meta.range
    }

    /// Returns the valid meta name (if any).
    pub fn name(&self) -> (r: Option<&MetaName>)
        ensures
            match self.meta.name {
                MetaOption::Present(n) => r matches Some(m) && *m == n,
                _ => r is None,
            },
    {
        self.meta.name.as_ref()
    }

    /// Returns the valid meta value (if any).
    pub fn value(&self) -> (r: Option<&MetaValue>)
        ensures
            match self.meta.value {
                MetaOption::Present(v) => r matches Some(m) && *m == v,
                _ => r is None,
            },
    {
        self.meta.value.as_ref()
    }
}

} // verus!
