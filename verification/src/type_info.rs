//! The `type` statement: what it says, and how it is read from its syntax
//! tree. A union type holds types of its own.

use crate::grammar::Rule;
use crate::restrictions::{all_bits, all_enum_values, all_patterns, last_length};
use crate::tree::{all_conform, conforms, parse_trees_view, ParseTree, ParseTreeView};
use crate::values::{
    all_strings, boolean_of, find_last, lemma_children, name_of, parse_boolean, parse_name,
    parse_second_boolean, req_string, required_string, second_boolean, strings,
};
use crate::yang::{
    type_infos_view, Bit, EnumValue, Length, LengthView, Pattern, Range, RangeView, TypeBody,
    TypeBodyView, TypeInfo, TypeInfoView,
};
use vstd::prelude::*;

verus! {

/// The range that the first child says; an empty range where there is no child.
pub open spec fn first_range(cs: Seq<ParseTreeView>) -> RangeView {
    if cs.len() >= 1 {
        RangeView::of(cs[0])
    } else {
        RangeView::of_children(Seq::empty())
    }
}

/// The range that the second child says, if there is one.
pub open spec fn second_range(cs: Seq<ParseTreeView>) -> Option<RangeView> {
    if cs.len() >= 2 {
        Some(RangeView::of(cs[1]))
    } else {
        None
    }
}

/// The length that the first child says, if there is one.
pub open spec fn first_length(cs: Seq<ParseTreeView>) -> Option<LengthView> {
    if cs.len() >= 1 {
        Some(LengthView::of(cs[0]))
    } else {
        None
    }
}

/// The boolean of the first child; `false` where there is none.
pub open spec fn first_boolean(cs: Seq<ParseTreeView>) -> bool {
    if cs.len() >= 1 {
        boolean_of(cs[0])
    } else {
        false
    }
}

/// The restrictions that the node `t` states, where `t` is one of the nodes
/// that state restrictions of a type.
pub open spec fn type_body_of(t: ParseTreeView) -> Option<TypeBodyView>
    decreases t, 0nat,
{
    let cs = t.children;
    match t.rule {
        Rule::NumericalRestriction => Some(TypeBodyView::Numerical { range: first_range(cs) }),
        Rule::Decimal64Specification => Some(
            TypeBodyView::Decimal64 { fraction_digits: name_of(cs), range: second_range(cs) },
        ),
        Rule::StringRestriction => Some(
            TypeBodyView::String { length: last_length(cs), patterns: all_patterns(cs) },
        ),
        Rule::EnumSpecification => Some(TypeBodyView::Enum { enums: all_enum_values(cs) }),
        Rule::LeafrefSpecification => Some(
            TypeBodyView::Leafref { path: name_of(cs), require_instance: second_boolean(cs) },
        ),
        Rule::IdentityrefSpecification => Some(
            TypeBodyView::Identityref { bases: strings(cs, Rule::Base) },
        ),
        Rule::InstanceIdentifierSpecification => Some(
            TypeBodyView::InstanceIdentifier { require_instance: first_boolean(cs) },
        ),
        Rule::BitsSpecification => Some(TypeBodyView::Bits { bits: all_bits(cs) }),
        Rule::UnionSpecification => Some(TypeBodyView::Union { types: all_type_infos(cs) }),
        Rule::BinarySpecification => Some(TypeBodyView::Binary { length: first_length(cs) }),
        _ => None,
    }
}

/// The restrictions that the last of `cs` to state any states.
pub open spec fn last_type_body(cs: Seq<ParseTreeView>) -> Option<TypeBodyView>
    decreases cs, 1nat,
{
    if cs.len() == 0 {
        None
    } else {
        match type_body_of(cs.last()) {
            Some(body) => Some(body),
            None => last_type_body(cs.drop_last()),
        }
    }
}

/// What the `type` statement `t` says.
pub open spec fn type_info_of(t: ParseTreeView) -> TypeInfoView
    decreases t, 2nat,
{
    TypeInfoView {
        name: req_string(t.children, Rule::String),
        type_body: last_type_body(t.children),
    }
}

/// What the `type` statements among `cs` say, in their order.
pub open spec fn all_type_infos(cs: Seq<ParseTreeView>) -> Seq<TypeInfoView>
    decreases cs, 1nat,
{
    if cs.len() == 0 {
        Seq::empty()
    } else if cs.last().rule == Rule::TypeInfo {
        all_type_infos(cs.drop_last()).push(type_info_of(cs.last()))
    } else {
        all_type_infos(cs.drop_last())
    }
}

/// What the last `type` statement among `cs` says, if there is one.
pub open spec fn last_type_info(cs: Seq<ParseTreeView>) -> Option<TypeInfoView> {
    match crate::values::last_of(cs, Rule::TypeInfo) {
        Some(c) => Some(type_info_of(c)),
        None => None,
    }
}

/// A type without a name and without restrictions.
pub open spec fn no_type_info() -> TypeInfoView {
    TypeInfoView { name: Seq::empty(), type_body: None }
}

/// What the last `type` statement among `cs` says; [`no_type_info`] where
/// there is none.
pub open spec fn required_type_info(cs: Seq<ParseTreeView>) -> TypeInfoView {
    match last_type_info(cs) {
        Some(t) => t,
        None => no_type_info(),
    }
}

impl TypeBody {
    /// Reads the restrictions of a numerical type.
    pub fn parse_numerical(input: &ParseTree) -> (res: Self)
        requires
            conforms(input@),
            input@.rule == Rule::NumericalRestriction,
        ensures
            Some(res@) == type_body_of(input@),
    {
        proof {
            lemma_children(input);
        }
        let cs = &input.children;
        let range = if cs.len() >= 1 {
            Range::parse(&cs[0])
        } else {
            let none: Vec<ParseTree> = Vec::new();
            assert(parse_trees_view(none@) =~= Seq::empty());
            Range::parse_children(&none)
        };
        TypeBody::Numerical { range }
    }

    /// Reads the specification of a decimal64 type.
    pub fn parse_decimal(input: &ParseTree) -> (res: Self)
        requires
            conforms(input@),
            input@.rule == Rule::Decimal64Specification,
        ensures
            Some(res@) == type_body_of(input@),
    {
        proof {
            lemma_children(input);
        }
        let cs = &input.children;
        let fraction_digits = parse_name(cs);
        let range = if cs.len() >= 2 {
            Some(Range::parse(&cs[1]))
        } else {
            None
        };
        TypeBody::Decimal64 { fraction_digits, range }
    }

    /// Reads the restrictions of a string type.
    pub fn parse_string_restriction(input: &ParseTree) -> (res: Self)
        requires
            conforms(input@),
            input@.rule == Rule::StringRestriction,
        ensures
            Some(res@) == type_body_of(input@),
    {
        proof {
            lemma_children(input);
        }
        let cs = &input.children;
        TypeBody::String { length: Length::parse_last(cs), patterns: Pattern::parse_all(cs) }
    }

    /// Reads the specification of an enumeration type.
    pub fn parse_enum(input: &ParseTree) -> (res: Self)
        requires
            conforms(input@),
            input@.rule == Rule::EnumSpecification,
        ensures
            Some(res@) == type_body_of(input@),
    {
        proof {
            lemma_children(input);
        }
        TypeBody::Enum { enums: EnumValue::parse_all(&input.children) }
    }

    /// Reads the specification of a leafref type.
    pub fn parse_leafref(input: &ParseTree) -> (res: Self)
        requires
            conforms(input@),
            input@.rule == Rule::LeafrefSpecification,
        ensures
            Some(res@) == type_body_of(input@),
    {
        proof {
            lemma_children(input);
        }
        let cs = &input.children;
        TypeBody::Leafref { path: parse_name(cs), require_instance: parse_second_boolean(cs) }
    }

    /// Reads the specification of an identityref type.
    pub fn parse_identityref(input: &ParseTree) -> (res: Self)
        requires
            conforms(input@),
            input@.rule == Rule::IdentityrefSpecification,
        ensures
            Some(res@) == type_body_of(input@),
    {
        proof {
            lemma_children(input);
        }
        TypeBody::Identityref { bases: all_strings(&input.children, Rule::Base) }
    }

    /// Reads the specification of an instance-identifier type.
    pub fn parse_instance_identifier(input: &ParseTree) -> (res: Self)
        requires
            conforms(input@),
            input@.rule == Rule::InstanceIdentifierSpecification,
        ensures
            Some(res@) == type_body_of(input@),
    {
        proof {
            lemma_children(input);
        }
        let cs = &input.children;
        let require_instance = if cs.len() >= 1 {
            parse_boolean(&cs[0])
        } else {
            false
        };
        TypeBody::InstanceIdentifier { require_instance }
    }

    /// Reads the specification of a bits type.
    pub fn parse_bit_specification(input: &ParseTree) -> (res: Self)
        requires
            conforms(input@),
            input@.rule == Rule::BitsSpecification,
        ensures
            Some(res@) == type_body_of(input@),
    {
        proof {
            lemma_children(input);
        }
        TypeBody::Bits { bits: Bit::parse_all(&input.children) }
    }

    /// Reads the specification of a binary type.
    pub fn parse_binary_specification(input: &ParseTree) -> (res: Self)
        requires
            conforms(input@),
            input@.rule == Rule::BinarySpecification,
        ensures
            Some(res@) == type_body_of(input@),
    {
        proof {
            lemma_children(input);
        }
        let cs = &input.children;
        let length = if cs.len() >= 1 {
            Some(Length::parse(&cs[0]))
        } else {
            None
        };
        TypeBody::Binary { length }
    }

    /// Reads the specification of a union type.
    pub fn parse_union_specification(input: &ParseTree) -> (res: Self)
        requires
            conforms(input@),
            input@.rule == Rule::UnionSpecification,
        ensures
            Some(res@) == type_body_of(input@),
        decreases input, 0nat,
    {
        proof {
            lemma_children(input);
        }
        TypeBody::Union { types: TypeInfo::parse_all(&input.children) }
    }

    /// Reads the restrictions that `input` states, where it is one of the
    /// nodes that state restrictions of a type.
    pub fn parse_body(input: &ParseTree) -> (res: Option<Self>)
        requires
            conforms(input@),
        ensures
            res.deep_view() == type_body_of(input@),
        decreases input, 1nat,
    {
        match input.rule {
            Rule::NumericalRestriction => Some(TypeBody::parse_numerical(input)),
            Rule::Decimal64Specification => Some(TypeBody::parse_decimal(input)),
            Rule::StringRestriction => Some(TypeBody::parse_string_restriction(input)),
            Rule::EnumSpecification => Some(TypeBody::parse_enum(input)),
            Rule::LeafrefSpecification => Some(TypeBody::parse_leafref(input)),
            Rule::IdentityrefSpecification => Some(TypeBody::parse_identityref(input)),
            Rule::InstanceIdentifierSpecification => Some(
                TypeBody::parse_instance_identifier(input),
            ),
            Rule::BitsSpecification => Some(TypeBody::parse_bit_specification(input)),
            Rule::UnionSpecification => Some(TypeBody::parse_union_specification(input)),
            Rule::BinarySpecification => Some(TypeBody::parse_binary_specification(input)),
            _ => None,
        }
    }
}

impl TypeInfo {
    /// Reads a `type` statement.
    pub fn parse(input: &ParseTree) -> (res: Self)
        requires
            conforms(input@),
        ensures
            res@ == type_info_of(input@),
        decreases input, 2nat,
    {
        proof {
            lemma_children(input);
        }
        let cs = &input.children;
        let ghost views = input@.children;
        let name = required_string(cs, Rule::String);
        let mut type_body: Option<TypeBody> = None;
        let mut i: usize = cs.len();
        assert(views.take(cs.len() as int) =~= views);
        while i > 0
            invariant
                i <= cs.len(),
                views == parse_trees_view(cs@),
                views == input@.children,
                cs == &input.children,
                all_conform(views),
                type_body is None,
                name@ == req_string(views, Rule::String),
                last_type_body(views) == last_type_body(views.take(i as int)),
            decreases i,
        {
            i -= 1;
            proof {
                assert(views.take(i + 1).drop_last() =~= views.take(i as int));
                assert(views.take(i + 1).last() == views[i as int]);
                assert(views[i as int] == cs[i as int]@);
            }
            match TypeBody::parse_body(&cs[i]) {
                Some(body) => {
                    assert(type_body_of(views[i as int]) == Some(body@));
                    assert(last_type_body(views.take(i + 1)) == Some(body@));
                    type_body = Some(body);
                    return TypeInfo { name, type_body };
                },
                None => {},
            }
        }
        assert(views.take(0) =~= Seq::empty());
        TypeInfo { name, type_body }
    }

    /// Reads the `type` statements among `cs`, in their order.
    pub fn parse_all(cs: &Vec<ParseTree>) -> (res: Vec<Self>)
        requires
            all_conform(parse_trees_view(cs@)),
        ensures
            type_infos_view(res@) == all_type_infos(parse_trees_view(cs@)),
        decreases cs, 3nat,
    {
        let ghost views = parse_trees_view(cs@);
        let mut out: Vec<TypeInfo> = Vec::new();
        let mut i: usize = 0;
        proof {
            assert(views.take(0) =~= Seq::empty());
            assert(type_infos_view(out@) =~= Seq::empty());
        }
        while i < cs.len()
            invariant
                i <= cs.len(),
                views == parse_trees_view(cs@),
                all_conform(views),
                type_infos_view(out@) == all_type_infos(views.take(i as int)),
            decreases cs.len() - i,
        {
            proof {
                assert(views.take(i + 1).drop_last() =~= views.take(i as int));
                assert(views.take(i + 1).last() == views[i as int]);
                assert(views[i as int] == cs[i as int]@);
            }
            if cs[i].rule == Rule::TypeInfo {
                let ghost before = type_infos_view(out@);
                let value = TypeInfo::parse(&cs[i]);
                out.push(value);
                assert(type_infos_view(out@) =~= before.push(value@));
            }
            i += 1;
        }
        assert(views.take(cs.len() as int) =~= views);
        out
    }

    /// Reads the last `type` statement among `cs`, if there is one.
    pub fn parse_last(cs: &Vec<ParseTree>) -> (res: Option<Self>)
        requires
            all_conform(parse_trees_view(cs@)),
        ensures
            res.deep_view() == last_type_info(parse_trees_view(cs@)),
    {
        match find_last(cs, Rule::TypeInfo) {
            Some(i) => {
                assert(parse_trees_view(cs@)[i as int] == cs[i as int]@);
                Some(TypeInfo::parse(&cs[i]))
            },
            None => None,
        }
    }

    /// Reads the last `type` statement among `cs`; a type without a name and
    /// without restrictions where there is none.
    pub fn parse_required(cs: &Vec<ParseTree>) -> (res: Self)
        requires
            all_conform(parse_trees_view(cs@)),
        ensures
            res@ == required_type_info(parse_trees_view(cs@)),
    {
        match TypeInfo::parse_last(cs) {
            Some(t) => t,
            None => TypeInfo { name: String::new(), type_body: None },
        }
    }
}

} // verus!
