//! The grammar that the walker reads: the kinds of node, and which node may
//! hold which.

use vstd::prelude::*;

verus! {

/// The kinds of node of a syntax tree: one for each rule of the grammar that
/// the walker reads, and `Other` for every rule that it does not.
#[derive(Debug, Clone, Copy, PartialEq, Eq, Structural)]
pub enum Rule {
    File,
    Module,
    Submodule,
    Body,
    DataDef,
    Container,
    Leaf,
    LeafList,
    List,
    Choice,
    LongCase,
    ShortCase,
    Anydata,
    Anyxml,
    Uses,
    Refine,
    Grouping,
    TypeDef,
    TypeInfo,
    NumericalRestriction,
    Decimal64Specification,
    StringRestriction,
    EnumSpecification,
    Enum,
    LeafrefSpecification,
    IdentityrefSpecification,
    InstanceIdentifierSpecification,
    BitsSpecification,
    BinarySpecification,
    UnionSpecification,
    Extension,
    Feature,
    Identity,
    Augment,
    Deviation,
    DeviateAdd,
    DeviateDelete,
    DeviateReplace,
    DeviationNotSupported,
    Rpc,
    Action,
    Input,
    Output,
    Notification,
    Import,
    Include,
    BelongsTo,
    Revision,
    String,
    UnquotedString,
    SingleQuotedString,
    DoubleQuotedString,
    Integer,
    Prefix,
    Namespace,
    YangVersion,
    Organization,
    Contact,
    Description,
    Reference,
    RevisionDate,
    When,
    Must,
    IfFeature,
    Presence,
    Config,
    Mandatory,
    Status,
    Units,
    Default,
    Key,
    Unique,
    MinElements,
    MaxElements,
    OrderedBy,
    Modifier,
    ErrorMessage,
    ErrorAppTag,
    Value,
    Position,
    Base,
    Argument,
    YinElement,
    Bit,
    Length,
    Pattern,
    Range,
    FractionDigits,
    RequireInstance,
    Other,
}

/// The nodes that are read as a string.
pub open spec fn carries_string(rule: Rule) -> bool {
    match rule {
        Rule::String | Rule::Prefix | Rule::Namespace | Rule::YangVersion
        | Rule::Organization | Rule::Contact | Rule::Description | Rule::Reference
        | Rule::RevisionDate | Rule::IfFeature | Rule::Presence | Rule::Units
        | Rule::Default | Rule::Key | Rule::Unique | Rule::ErrorMessage
        | Rule::ErrorAppTag | Rule::Base | Rule::FractionDigits => true,
        _ => false,
    }
}

/// Whether a node of this kind is read as a string.
pub fn is_string_carrier(rule: Rule) -> (res: bool)
    ensures
        res == carries_string(rule),
{
    match rule {
        Rule::String | Rule::Prefix | Rule::Namespace | Rule::YangVersion
        | Rule::Organization | Rule::Contact | Rule::Description | Rule::Reference
        | Rule::RevisionDate | Rule::IfFeature | Rule::Presence | Rule::Units
        | Rule::Default | Rule::Key | Rule::Unique | Rule::ErrorMessage
        | Rule::ErrorAppTag | Rule::Base | Rule::FractionDigits => true,
        _ => false,
    }
}

/// The nodes that are read as a boolean.
pub open spec fn carries_boolean(rule: Rule) -> bool {
    match rule {
        Rule::Config | Rule::Mandatory | Rule::RequireInstance | Rule::YinElement => true,
        _ => false,
    }
}

/// Whether a node of this kind is read as a boolean.
pub fn is_boolean_carrier(rule: Rule) -> (res: bool)
    ensures
        res == carries_boolean(rule),
{
    match rule {
        Rule::Config | Rule::Mandatory | Rule::RequireInstance | Rule::YinElement => true,
        _ => false,
    }
}

/// The nodes that are read as an integer.
pub open spec fn carries_integer(rule: Rule) -> bool {
    match rule {
        Rule::MinElements | Rule::Value | Rule::Position | Rule::Integer => true,
        _ => false,
    }
}

/// Whether a node of this kind is read as an integer.
pub fn is_integer_carrier(rule: Rule) -> (res: bool)
    ensures
        res == carries_integer(rule),
{
    match rule {
        Rule::MinElements | Rule::Value | Rule::Position | Rule::Integer => true,
        _ => false,
    }
}

/// The statements whose first child is their name.
pub open spec fn is_named(rule: Rule) -> bool {
    match rule {
        Rule::Container | Rule::List | Rule::Rpc | Rule::Action | Rule::Notification
        | Rule::Feature | Rule::Grouping | Rule::TypeDef | Rule::Identity => true,
        _ => false,
    }
}

/// Whether the first child of a statement of this kind is its name.
pub fn is_named_statement(rule: Rule) -> (res: bool)
    ensures
        res == is_named(rule),
{
    match rule {
        Rule::Container | Rule::List | Rule::Rpc | Rule::Action | Rule::Notification
        | Rule::Feature | Rule::Grouping | Rule::TypeDef | Rule::Identity => true,
        _ => false,
    }
}

/// The nodes that stand for one of several statements, given by their first child.
pub open spec fn is_wrapper(rule: Rule) -> bool {
    match rule {
        Rule::Body | Rule::DataDef | Rule::ShortCase => true,
        _ => false,
    }
}

/// Whether a node of this kind stands for one of several statements.
pub fn is_wrapper_node(rule: Rule) -> (res: bool)
    ensures
        res == is_wrapper(rule),
{
    match rule {
        Rule::Body | Rule::DataDef | Rule::ShortCase => true,
        _ => false,
    }
}

/// The nodes that a string is made of.
pub open spec fn is_string_piece(rule: Rule) -> bool {
    match rule {
        Rule::String | Rule::UnquotedString | Rule::DoubleQuotedString
        | Rule::SingleQuotedString => true,
        _ => false,
    }
}

/// Whether a string may be made of a node of this kind.
pub fn is_string_piece_node(rule: Rule) -> (res: bool)
    ensures
        res == is_string_piece(rule),
{
    match rule {
        Rule::String | Rule::UnquotedString | Rule::DoubleQuotedString
        | Rule::SingleQuotedString => true,
        _ => false,
    }
}

/// The grammar of statements: whether a `parent` node may hold a `child` node.
/// For a statement that starts with its name, this speaks of the children
/// after the name; for a node that stands for one of several statements, of
/// its first child.
pub open spec fn allowed_child(parent: Rule, child: Rule) -> bool {
    match parent {
        Rule::Module => match child {
            Rule::String | Rule::Prefix | Rule::Namespace | Rule::YangVersion
            | Rule::Organization | Rule::Contact | Rule::Description | Rule::Reference
            | Rule::Revision | Rule::Import | Rule::Include | Rule::Body => true,
            _ => false,
        },
        Rule::Submodule => match child {
            Rule::String | Rule::BelongsTo | Rule::YangVersion | Rule::Organization
            | Rule::Contact | Rule::Description | Rule::Reference | Rule::Revision
            | Rule::Import | Rule::Include | Rule::Body => true,
            _ => false,
        },
        Rule::Body => match child {
            Rule::DataDef | Rule::Rpc | Rule::Notification | Rule::Extension
            | Rule::Feature | Rule::Identity | Rule::TypeDef | Rule::Augment
            | Rule::Deviation | Rule::Grouping => true,
            _ => false,
        },
        Rule::DataDef => match child {
            Rule::Container | Rule::Leaf | Rule::LeafList | Rule::List | Rule::Choice
            | Rule::Anydata | Rule::Anyxml | Rule::Uses => true,
            _ => false,
        },
        Rule::Container => match child {
            Rule::When | Rule::IfFeature | Rule::Must | Rule::Presence | Rule::Config
            | Rule::Status | Rule::Description | Rule::Reference | Rule::TypeDef
            | Rule::Grouping | Rule::DataDef | Rule::Action | Rule::Notification => true,
            _ => false,
        },
        Rule::Leaf => match child {
            Rule::String | Rule::When | Rule::IfFeature | Rule::TypeInfo | Rule::Units
            | Rule::Must | Rule::Default | Rule::Config | Rule::Mandatory | Rule::Status
            | Rule::Description | Rule::Reference => true,
            _ => false,
        },
        Rule::LeafList => match child {
            Rule::String | Rule::When | Rule::IfFeature | Rule::TypeInfo | Rule::Units
            | Rule::Must | Rule::Default | Rule::Config | Rule::OrderedBy
            | Rule::MinElements | Rule::MaxElements | Rule::Status | Rule::Description
            | Rule::Reference => true,
            _ => false,
        },
        Rule::List => match child {
            Rule::When | Rule::IfFeature | Rule::Must | Rule::Key | Rule::Unique
            | Rule::Config | Rule::MinElements | Rule::MaxElements | Rule::OrderedBy
            | Rule::Status | Rule::Description | Rule::Reference | Rule::TypeDef
            | Rule::Grouping | Rule::DataDef | Rule::Action | Rule::Notification => true,
            _ => false,
        },
        Rule::Choice => match child {
            Rule::String | Rule::When | Rule::IfFeature | Rule::Default | Rule::Config
            | Rule::Mandatory | Rule::Status | Rule::Description | Rule::Reference
            | Rule::LongCase | Rule::ShortCase => true,
            _ => false,
        },
        Rule::LongCase => match child {
            Rule::String | Rule::When | Rule::IfFeature | Rule::Status
            | Rule::Description | Rule::Reference | Rule::DataDef => true,
            _ => false,
        },
        Rule::ShortCase => match child {
            Rule::Choice | Rule::Container | Rule::Leaf | Rule::LeafList | Rule::List
            | Rule::Anydata | Rule::Anyxml => true,
            _ => false,
        },
        Rule::Anydata => match child {
            Rule::String | Rule::When | Rule::IfFeature | Rule::Must | Rule::Config
            | Rule::Mandatory | Rule::Status | Rule::Description | Rule::Reference => true,
            _ => false,
        },
        Rule::Anyxml => match child {
            Rule::String | Rule::When | Rule::IfFeature | Rule::Must | Rule::Config
            | Rule::Mandatory | Rule::Status | Rule::Description | Rule::Reference => true,
            _ => false,
        },
        Rule::Uses => match child {
            Rule::String | Rule::When | Rule::IfFeature | Rule::Status
            | Rule::Description | Rule::Reference | Rule::Refine | Rule::Augment => true,
            _ => false,
        },
        Rule::Refine => match child {
            Rule::String | Rule::IfFeature | Rule::Must | Rule::Presence | Rule::Default
            | Rule::Config | Rule::Mandatory | Rule::MinElements | Rule::MaxElements
            | Rule::Description | Rule::Reference => true,
            _ => false,
        },
        Rule::Grouping => match child {
            Rule::Status | Rule::Description | Rule::Reference | Rule::TypeDef
            | Rule::Grouping | Rule::DataDef | Rule::Action | Rule::Notification => true,
            _ => false,
        },
        Rule::TypeDef => match child {
            Rule::TypeInfo | Rule::Units | Rule::Default | Rule::Status
            | Rule::Description | Rule::Reference => true,
            _ => false,
        },
        Rule::TypeInfo => match child {
            Rule::String | Rule::NumericalRestriction | Rule::Decimal64Specification
            | Rule::StringRestriction | Rule::EnumSpecification
            | Rule::LeafrefSpecification | Rule::IdentityrefSpecification
            | Rule::BitsSpecification | Rule::BinarySpecification
            | Rule::UnionSpecification | Rule::InstanceIdentifierSpecification => true,
            _ => false,
        },
        Rule::StringRestriction => match child {
            Rule::Length | Rule::Pattern => true,
            _ => false,
        },
        Rule::EnumSpecification => match child {
            Rule::Enum => true,
            _ => false,
        },
        Rule::Enum => match child {
            Rule::String | Rule::IfFeature | Rule::Value | Rule::Status
            | Rule::Description | Rule::Reference => true,
            _ => false,
        },
        Rule::IdentityrefSpecification => match child {
            Rule::Base => true,
            _ => false,
        },
        Rule::BitsSpecification => match child {
            Rule::Bit => true,
            _ => false,
        },
        Rule::UnionSpecification => match child {
            Rule::TypeInfo => true,
            _ => false,
        },
        Rule::Extension => match child {
            Rule::String | Rule::Argument | Rule::Status | Rule::Description
            | Rule::Reference => true,
            _ => false,
        },
        Rule::Feature => match child {
            Rule::IfFeature | Rule::Status | Rule::Description | Rule::Reference => true,
            _ => false,
        },
        Rule::Identity => match child {
            Rule::IfFeature | Rule::Base | Rule::Status | Rule::Description
            | Rule::Reference => true,
            _ => false,
        },
        Rule::Augment => match child {
            Rule::String | Rule::When | Rule::IfFeature | Rule::Status
            | Rule::Description | Rule::Reference | Rule::DataDef | Rule::LongCase
            | Rule::Action | Rule::Notification => true,
            _ => false,
        },
        Rule::Deviation => match child {
            Rule::String | Rule::Description | Rule::Reference
            | Rule::DeviationNotSupported | Rule::DeviateAdd | Rule::DeviateDelete
            | Rule::DeviateReplace => true,
            _ => false,
        },
        Rule::DeviateAdd => match child {
            Rule::Units | Rule::Must | Rule::Unique | Rule::Default | Rule::Config
            | Rule::Mandatory | Rule::MinElements | Rule::MaxElements => true,
            _ => false,
        },
        Rule::DeviateDelete => match child {
            Rule::Units | Rule::Default | Rule::Must | Rule::Unique => true,
            _ => false,
        },
        Rule::DeviateReplace => match child {
            Rule::TypeInfo | Rule::Units | Rule::Default | Rule::Config
            | Rule::Mandatory | Rule::MinElements | Rule::MaxElements => true,
            _ => false,
        },
        Rule::Rpc => match child {
            Rule::Input | Rule::Output | Rule::IfFeature | Rule::Must | Rule::Status
            | Rule::Description | Rule::Reference | Rule::TypeDef | Rule::Grouping => true,
            _ => false,
        },
        Rule::Action => match child {
            Rule::Input | Rule::Output | Rule::IfFeature | Rule::Must | Rule::Status
            | Rule::Description | Rule::Reference | Rule::TypeDef | Rule::Grouping => true,
            _ => false,
        },
        Rule::Input => match child {
            Rule::Must | Rule::TypeDef | Rule::Grouping | Rule::DataDef => true,
            _ => false,
        },
        Rule::Output => match child {
            Rule::Must | Rule::TypeDef | Rule::Grouping | Rule::DataDef => true,
            _ => false,
        },
        Rule::Notification => match child {
            Rule::DataDef | Rule::IfFeature | Rule::Must | Rule::Status
            | Rule::Description | Rule::Reference | Rule::TypeDef | Rule::Grouping => true,
            _ => false,
        },
        Rule::Import => match child {
            Rule::String | Rule::Prefix | Rule::RevisionDate | Rule::Description
            | Rule::Reference => true,
            _ => false,
        },
        Rule::Include => match child {
            Rule::String | Rule::RevisionDate | Rule::Description | Rule::Reference => true,
            _ => false,
        },
        Rule::BelongsTo => match child {
            Rule::String | Rule::Prefix => true,
            _ => false,
        },
        Rule::Revision => match child {
            Rule::String | Rule::Description | Rule::Reference => true,
            _ => false,
        },
        Rule::When => match child {
            Rule::String | Rule::Description | Rule::Reference => true,
            _ => false,
        },
        Rule::Must => match child {
            Rule::String | Rule::ErrorMessage | Rule::ErrorAppTag | Rule::Description
            | Rule::Reference => true,
            _ => false,
        },
        Rule::Bit => match child {
            Rule::String | Rule::IfFeature | Rule::Position | Rule::Status
            | Rule::Description | Rule::Reference => true,
            _ => false,
        },
        Rule::Length => match child {
            Rule::String | Rule::ErrorMessage | Rule::ErrorAppTag | Rule::Description
            | Rule::Reference => true,
            _ => false,
        },
        Rule::Pattern => match child {
            Rule::String | Rule::ErrorMessage | Rule::ErrorAppTag | Rule::Description
            | Rule::Reference | Rule::Modifier => true,
            _ => false,
        },
        Rule::Range => match child {
            Rule::String | Rule::ErrorMessage | Rule::ErrorAppTag | Rule::Description
            | Rule::Reference => true,
            _ => false,
        },
        _ => false,
    }
}

/// Whether a `parent` node may hold a `child` node.
pub fn is_allowed_child(parent: Rule, child: Rule) -> (res: bool)
    ensures
        res == allowed_child(parent, child),
{
    match parent {
        Rule::Module => match child {
            Rule::String | Rule::Prefix | Rule::Namespace | Rule::YangVersion
            | Rule::Organization | Rule::Contact | Rule::Description | Rule::Reference
            | Rule::Revision | Rule::Import | Rule::Include | Rule::Body => true,
            _ => false,
        },
        Rule::Submodule => match child {
            Rule::String | Rule::BelongsTo | Rule::YangVersion | Rule::Organization
            | Rule::Contact | Rule::Description | Rule::Reference | Rule::Revision
            | Rule::Import | Rule::Include | Rule::Body => true,
            _ => false,
        },
        Rule::Body => match child {
            Rule::DataDef | Rule::Rpc | Rule::Notification | Rule::Extension
            | Rule::Feature | Rule::Identity | Rule::TypeDef | Rule::Augment
            | Rule::Deviation | Rule::Grouping => true,
            _ => false,
        },
        Rule::DataDef => match child {
            Rule::Container | Rule::Leaf | Rule::LeafList | Rule::List | Rule::Choice
            | Rule::Anydata | Rule::Anyxml | Rule::Uses => true,
            _ => false,
        },
        Rule::Container => match child {
            Rule::When | Rule::IfFeature | Rule::Must | Rule::Presence | Rule::Config
            | Rule::Status | Rule::Description | Rule::Reference | Rule::TypeDef
            | Rule::Grouping | Rule::DataDef | Rule::Action | Rule::Notification => true,
            _ => false,
        },
        Rule::Leaf => match child {
            Rule::String | Rule::When | Rule::IfFeature | Rule::TypeInfo | Rule::Units
            | Rule::Must | Rule::Default | Rule::Config | Rule::Mandatory | Rule::Status
            | Rule::Description | Rule::Reference => true,
            _ => false,
        },
        Rule::LeafList => match child {
            Rule::String | Rule::When | Rule::IfFeature | Rule::TypeInfo | Rule::Units
            | Rule::Must | Rule::Default | Rule::Config | Rule::OrderedBy
            | Rule::MinElements | Rule::MaxElements | Rule::Status | Rule::Description
            | Rule::Reference => true,
            _ => false,
        },
        Rule::List => match child {
            Rule::When | Rule::IfFeature | Rule::Must | Rule::Key | Rule::Unique
            | Rule::Config | Rule::MinElements | Rule::MaxElements | Rule::OrderedBy
            | Rule::Status | Rule::Description | Rule::Reference | Rule::TypeDef
            | Rule::Grouping | Rule::DataDef | Rule::Action | Rule::Notification => true,
            _ => false,
        },
        Rule::Choice => match child {
            Rule::String | Rule::When | Rule::IfFeature | Rule::Default | Rule::Config
            | Rule::Mandatory | Rule::Status | Rule::Description | Rule::Reference
            | Rule::LongCase | Rule::ShortCase => true,
            _ => false,
        },
        Rule::LongCase => match child {
            Rule::String | Rule::When | Rule::IfFeature | Rule::Status
            | Rule::Description | Rule::Reference | Rule::DataDef => true,
            _ => false,
        },
        Rule::ShortCase => match child {
            Rule::Choice | Rule::Container | Rule::Leaf | Rule::LeafList | Rule::List
            | Rule::Anydata | Rule::Anyxml => true,
            _ => false,
        },
        Rule::Anydata => match child {
            Rule::String | Rule::When | Rule::IfFeature | Rule::Must | Rule::Config
            | Rule::Mandatory | Rule::Status | Rule::Description | Rule::Reference => true,
            _ => false,
        },
        Rule::Anyxml => match child {
            Rule::String | Rule::When | Rule::IfFeature | Rule::Must | Rule::Config
            | Rule::Mandatory | Rule::Status | Rule::Description | Rule::Reference => true,
            _ => false,
        },
        Rule::Uses => match child {
            Rule::String | Rule::When | Rule::IfFeature | Rule::Status
            | Rule::Description | Rule::Reference | Rule::Refine | Rule::Augment => true,
            _ => false,
        },
        Rule::Refine => match child {
            Rule::String | Rule::IfFeature | Rule::Must | Rule::Presence | Rule::Default
            | Rule::Config | Rule::Mandatory | Rule::MinElements | Rule::MaxElements
            | Rule::Description | Rule::Reference => true,
            _ => false,
        },
        Rule::Grouping => match child {
            Rule::Status | Rule::Description | Rule::Reference | Rule::TypeDef
            | Rule::Grouping | Rule::DataDef | Rule::Action | Rule::Notification => true,
            _ => false,
        },
        Rule::TypeDef => match child {
            Rule::TypeInfo | Rule::Units | Rule::Default | Rule::Status
            | Rule::Description | Rule::Reference => true,
            _ => false,
        },
        Rule::TypeInfo => match child {
            Rule::String | Rule::NumericalRestriction | Rule::Decimal64Specification
            | Rule::StringRestriction | Rule::EnumSpecification
            | Rule::LeafrefSpecification | Rule::IdentityrefSpecification
            | Rule::BitsSpecification | Rule::BinarySpecification
            | Rule::UnionSpecification | Rule::InstanceIdentifierSpecification => true,
            _ => false,
        },
        Rule::StringRestriction => match child {
            Rule::Length | Rule::Pattern => true,
            _ => false,
        },
        Rule::EnumSpecification => match child {
            Rule::Enum => true,
            _ => false,
        },
        Rule::Enum => match child {
            Rule::String | Rule::IfFeature | Rule::Value | Rule::Status
            | Rule::Description | Rule::Reference => true,
            _ => false,
        },
        Rule::IdentityrefSpecification => match child {
            Rule::Base => true,
            _ => false,
        },
        Rule::BitsSpecification => match child {
            Rule::Bit => true,
            _ => false,
        },
        Rule::UnionSpecification => match child {
            Rule::TypeInfo => true,
            _ => false,
        },
        Rule::Extension => match child {
            Rule::String | Rule::Argument | Rule::Status | Rule::Description
            | Rule::Reference => true,
            _ => false,
        },
        Rule::Feature => match child {
            Rule::IfFeature | Rule::Status | Rule::Description | Rule::Reference => true,
            _ => false,
        },
        Rule::Identity => match child {
            Rule::IfFeature | Rule::Base | Rule::Status | Rule::Description
            | Rule::Reference => true,
            _ => false,
        },
        Rule::Augment => match child {
            Rule::String | Rule::When | Rule::IfFeature | Rule::Status
            | Rule::Description | Rule::Reference | Rule::DataDef | Rule::LongCase
            | Rule::Action | Rule::Notification => true,
            _ => false,
        },
        Rule::Deviation => match child {
            Rule::String | Rule::Description | Rule::Reference
            | Rule::DeviationNotSupported | Rule::DeviateAdd | Rule::DeviateDelete
            | Rule::DeviateReplace => true,
            _ => false,
        },
        Rule::DeviateAdd => match child {
            Rule::Units | Rule::Must | Rule::Unique | Rule::Default | Rule::Config
            | Rule::Mandatory | Rule::MinElements | Rule::MaxElements => true,
            _ => false,
        },
        Rule::DeviateDelete => match child {
            Rule::Units | Rule::Default | Rule::Must | Rule::Unique => true,
            _ => false,
        },
        Rule::DeviateReplace => match child {
            Rule::TypeInfo | Rule::Units | Rule::Default | Rule::Config
            | Rule::Mandatory | Rule::MinElements | Rule::MaxElements => true,
            _ => false,
        },
        Rule::Rpc => match child {
            Rule::Input | Rule::Output | Rule::IfFeature | Rule::Must | Rule::Status
            | Rule::Description | Rule::Reference | Rule::TypeDef | Rule::Grouping => true,
            _ => false,
        },
        Rule::Action => match child {
            Rule::Input | Rule::Output | Rule::IfFeature | Rule::Must | Rule::Status
            | Rule::Description | Rule::Reference | Rule::TypeDef | Rule::Grouping => true,
            _ => false,
        },
        Rule::Input => match child {
            Rule::Must | Rule::TypeDef | Rule::Grouping | Rule::DataDef => true,
            _ => false,
        },
        Rule::Output => match child {
            Rule::Must | Rule::TypeDef | Rule::Grouping | Rule::DataDef => true,
            _ => false,
        },
        Rule::Notification => match child {
            Rule::DataDef | Rule::IfFeature | Rule::Must | Rule::Status
            | Rule::Description | Rule::Reference | Rule::TypeDef | Rule::Grouping => true,
            _ => false,
        },
        Rule::Import => match child {
            Rule::String | Rule::Prefix | Rule::RevisionDate | Rule::Description
            | Rule::Reference => true,
            _ => false,
        },
        Rule::Include => match child {
            Rule::String | Rule::RevisionDate | Rule::Description | Rule::Reference => true,
            _ => false,
        },
        Rule::BelongsTo => match child {
            Rule::String | Rule::Prefix => true,
            _ => false,
        },
        Rule::Revision => match child {
            Rule::String | Rule::Description | Rule::Reference => true,
            _ => false,
        },
        Rule::When => match child {
            Rule::String | Rule::Description | Rule::Reference => true,
            _ => false,
        },
        Rule::Must => match child {
            Rule::String | Rule::ErrorMessage | Rule::ErrorAppTag | Rule::Description
            | Rule::Reference => true,
            _ => false,
        },
        Rule::Bit => match child {
            Rule::String | Rule::IfFeature | Rule::Position | Rule::Status
            | Rule::Description | Rule::Reference => true,
            _ => false,
        },
        Rule::Length => match child {
            Rule::String | Rule::ErrorMessage | Rule::ErrorAppTag | Rule::Description
            | Rule::Reference => true,
            _ => false,
        },
        Rule::Pattern => match child {
            Rule::String | Rule::ErrorMessage | Rule::ErrorAppTag | Rule::Description
            | Rule::Reference | Rule::Modifier => true,
            _ => false,
        },
        Rule::Range => match child {
            Rule::String | Rule::ErrorMessage | Rule::ErrorAppTag | Rule::Description
            | Rule::Reference => true,
            _ => false,
        },
        _ => false,
    }
}

} // verus!
