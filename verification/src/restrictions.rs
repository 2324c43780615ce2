//! The statements that restrict a type or a node: what each says, and how it
//! is read from its syntax tree.

use crate::grammar::Rule;
use crate::tree::{all_conform, conforms, parse_trees_view, ParseTree, ParseTreeView};
use crate::values::{
    all_strings, find_last, last_of, lemma_children, opt_integer, opt_status, opt_string,
    optional_integer, optional_status, optional_string, req_string, required_string, strings,
};
use crate::yang::{
    Bit, BitView, EnumValue, EnumValueView, Length, LengthView, Must, MustView, Pattern,
    PatternView, Range, RangeView, When, WhenView,
};
use vstd::prelude::*;

verus! {

/// The modifier of a pattern: the text of the first child of the last
/// `modifier` child, if there is one.
pub open spec fn opt_modifier(cs: Seq<ParseTreeView>) -> Option<Seq<char>> {
    match last_of(cs, Rule::Modifier) {
        Some(c) => if c.children.len() >= 1 {
            Some(c.children[0].text)
        } else {
            Some(Seq::empty())
        },
        None => None,
    }
}

/// Reads the modifier of a pattern.
pub fn optional_modifier(cs: &Vec<ParseTree>) -> (res: Option<String>)
    requires
        all_conform(parse_trees_view(cs@)),
    ensures
        res.deep_view() == opt_modifier(parse_trees_view(cs@)),
{
    match find_last(cs, Rule::Modifier) {
        Some(i) => {
            assert(parse_trees_view(cs@)[i as int] == cs[i as int]@);
            proof {
                lemma_children(&cs[i as int]);
            }
            if cs[i].children.len() >= 1 {
                Some(cs[i].children[0].text.clone())
            } else {
                Some(String::new())
            }
        },
        None => None,
    }
}

impl MustView {
    /// What a `must` statement with the children `cs` says.
    pub open spec fn of_children(cs: Seq<ParseTreeView>) -> MustView {
        MustView {
            condition: req_string(cs, Rule::String),
            error_message: opt_string(cs, Rule::ErrorMessage),
            error_app_tag: opt_string(cs, Rule::ErrorAppTag),
            description: opt_string(cs, Rule::Description),
            reference: opt_string(cs, Rule::Reference),
        }
    }

    /// What the `must` statement `t` says.
    pub open spec fn of(t: ParseTreeView) -> MustView {
        MustView::of_children(t.children)
    }
}

/// What the `must` statements among `cs` say, in their order.
pub open spec fn all_musts(cs: Seq<ParseTreeView>) -> Seq<MustView>
    decreases cs.len(),
{
    if cs.len() == 0 {
        Seq::empty()
    } else if cs.last().rule == Rule::Must {
        all_musts(cs.drop_last()).push(MustView::of(cs.last()))
    } else {
        all_musts(cs.drop_last())
    }
}

impl Must {
    /// Reads a `must` statement from its children.
    pub fn parse_children(cs: &Vec<ParseTree>) -> (res: Self)
        requires
            all_conform(parse_trees_view(cs@)),
        ensures
            res@ == MustView::of_children(parse_trees_view(cs@)),
    {
        Must {
            condition: required_string(cs, Rule::String),
            error_message: optional_string(cs, Rule::ErrorMessage),
            error_app_tag: optional_string(cs, Rule::ErrorAppTag),
            description: optional_string(cs, Rule::Description),
            reference: optional_string(cs, Rule::Reference),
        }
    }

    /// Reads a `must` statement.
    pub fn parse(input: &ParseTree) -> (res: Self)
        requires
            conforms(input@),
        ensures
            res@ == MustView::of(input@),
    {
        proof {
            lemma_children(input);
        }
        Must::parse_children(&input.children)
    }

    /// Reads the `must` statements among `cs`, in their order.
    pub fn parse_all(cs: &Vec<ParseTree>) -> (res: Vec<Self>)
        requires
            all_conform(parse_trees_view(cs@)),
        ensures
            res.deep_view() == all_musts(parse_trees_view(cs@)),
    {
        let ghost views = parse_trees_view(cs@);
        let mut out: Vec<Must> = Vec::new();
        let mut i: usize = 0;
        proof {
            assert(views.take(0) =~= Seq::empty());
            assert(out.deep_view() =~= Seq::empty());
        }
        while i < cs.len()
            invariant
                i <= cs.len(),
                views == parse_trees_view(cs@),
                all_conform(views),
                out.deep_view() == all_musts(views.take(i as int)),
            decreases cs.len() - i,
        {
            proof {
                assert(views.take(i + 1).drop_last() =~= views.take(i as int));
                assert(views.take(i + 1).last() == views[i as int]);
                assert(views[i as int] == cs[i as int]@);
            }
            if cs[i].rule == Rule::Must {
                let ghost before = out.deep_view();
                let value = Must::parse(&cs[i]);
                out.push(value);
                assert(out.deep_view() =~= before.push(value@));
            }
            i += 1;
        }
        assert(views.take(cs.len() as int) =~= views);
        out
    }
}

impl WhenView {
    /// What a `when` statement with the children `cs` says.
    pub open spec fn of_children(cs: Seq<ParseTreeView>) -> WhenView {
        WhenView {
            condition: req_string(cs, Rule::String),
            description: opt_string(cs, Rule::Description),
            reference: opt_string(cs, Rule::Reference),
        }
    }

    /// What the `when` statement `t` says.
    pub open spec fn of(t: ParseTreeView) -> WhenView {
        WhenView::of_children(t.children)
    }
}

/// What the last `when` statement among `cs` says, if there is one.
pub open spec fn last_when(cs: Seq<ParseTreeView>) -> Option<WhenView> {
    match last_of(cs, Rule::When) {
        Some(c) => Some(WhenView::of(c)),
        None => None,
    }
}

impl When {
    /// Reads a `when` statement from its children.
    pub fn parse_children(cs: &Vec<ParseTree>) -> (res: Self)
        requires
            all_conform(parse_trees_view(cs@)),
        ensures
            res@ == WhenView::of_children(parse_trees_view(cs@)),
    {
        When {
            condition: required_string(cs, Rule::String),
            description: optional_string(cs, Rule::Description),
            reference: optional_string(cs, Rule::Reference),
        }
    }

    /// Reads a `when` statement.
    pub fn parse(input: &ParseTree) -> (res: Self)
        requires
            conforms(input@),
        ensures
            res@ == WhenView::of(input@),
    {
        proof {
            lemma_children(input);
        }
        When::parse_children(&input.children)
    }

    /// Reads the last `when` statement among `cs`, if there is one.
    pub fn parse_last(cs: &Vec<ParseTree>) -> (res: Option<Self>)
        requires
            all_conform(parse_trees_view(cs@)),
        ensures
            res.deep_view() == last_when(parse_trees_view(cs@)),
    {
        match find_last(cs, Rule::When) {
            Some(i) => {
                assert(parse_trees_view(cs@)[i as int] == cs[i as int]@);
                Some(When::parse(&cs[i]))
            },
            None => None,
        }
    }
}

impl RangeView {
    /// What a `range` statement with the children `cs` says.
    pub open spec fn of_children(cs: Seq<ParseTreeView>) -> RangeView {
        RangeView {
            value: req_string(cs, Rule::String),
            error_message: opt_string(cs, Rule::ErrorMessage),
            error_app_tag: opt_string(cs, Rule::ErrorAppTag),
            description: opt_string(cs, Rule::Description),
            reference: opt_string(cs, Rule::Reference),
        }
    }

    /// What the `range` statement `t` says.
    pub open spec fn of(t: ParseTreeView) -> RangeView {
        RangeView::of_children(t.children)
    }
}

impl Range {
    /// Reads a `range` statement from its children.
    pub fn parse_children(cs: &Vec<ParseTree>) -> (res: Self)
        requires
            all_conform(parse_trees_view(cs@)),
        ensures
            res@ == RangeView::of_children(parse_trees_view(cs@)),
    {
        Range {
            value: required_string(cs, Rule::String),
            error_message: optional_string(cs, Rule::ErrorMessage),
            error_app_tag: optional_string(cs, Rule::ErrorAppTag),
            description: optional_string(cs, Rule::Description),
            reference: optional_string(cs, Rule::Reference),
        }
    }

    /// Reads a `range` statement.
    pub fn parse(input: &ParseTree) -> (res: Self)
        requires
            conforms(input@),
        ensures
            res@ == RangeView::of(input@),
    {
        proof {
            lemma_children(input);
        }
        Range::parse_children(&input.children)
    }
}

impl LengthView {
    /// What a `length` statement with the children `cs` says.
    pub open spec fn of_children(cs: Seq<ParseTreeView>) -> LengthView {
        LengthView {
            value: req_string(cs, Rule::String),
            error_message: opt_string(cs, Rule::ErrorMessage),
            error_app_tag: opt_string(cs, Rule::ErrorAppTag),
            description: opt_string(cs, Rule::Description),
            reference: opt_string(cs, Rule::Reference),
        }
    }

    /// What the `length` statement `t` says.
    pub open spec fn of(t: ParseTreeView) -> LengthView {
        LengthView::of_children(t.children)
    }
}

/// What the last `length` statement among `cs` says, if there is one.
pub open spec fn last_length(cs: Seq<ParseTreeView>) -> Option<LengthView> {
    match last_of(cs, Rule::Length) {
        Some(c) => Some(LengthView::of(c)),
        None => None,
    }
}

impl Length {
    /// Reads a `length` statement from its children.
    pub fn parse_children(cs: &Vec<ParseTree>) -> (res: Self)
        requires
            all_conform(parse_trees_view(cs@)),
        ensures
            res@ == LengthView::of_children(parse_trees_view(cs@)),
    {
        Length {
            value: required_string(cs, Rule::String),
            error_message: optional_string(cs, Rule::ErrorMessage),
            error_app_tag: optional_string(cs, Rule::ErrorAppTag),
            description: optional_string(cs, Rule::Description),
            reference: optional_string(cs, Rule::Reference),
        }
    }

    /// Reads a `length` statement.
    pub fn parse(input: &ParseTree) -> (res: Self)
        requires
            conforms(input@),
        ensures
            res@ == LengthView::of(input@),
    {
        proof {
            lemma_children(input);
        }
        Length::parse_children(&input.children)
    }

    /// Reads the last `length` statement among `cs`, if there is one.
    pub fn parse_last(cs: &Vec<ParseTree>) -> (res: Option<Self>)
        requires
            all_conform(parse_trees_view(cs@)),
        ensures
            res.deep_view() == last_length(parse_trees_view(cs@)),
    {
        match find_last(cs, Rule::Length) {
            Some(i) => {
                assert(parse_trees_view(cs@)[i as int] == cs[i as int]@);
                Some(Length::parse(&cs[i]))
            },
            None => None,
        }
    }
}

impl PatternView {
    /// What a `pattern` statement with the children `cs` says.
    pub open spec fn of_children(cs: Seq<ParseTreeView>) -> PatternView {
        PatternView {
            value: req_string(cs, Rule::String),
            modifier: opt_modifier(cs),
            error_message: opt_string(cs, Rule::ErrorMessage),
            error_app_tag: opt_string(cs, Rule::ErrorAppTag),
            description: opt_string(cs, Rule::Description),
            reference: opt_string(cs, Rule::Reference),
        }
    }

    /// What the `pattern` statement `t` says.
    pub open spec fn of(t: ParseTreeView) -> PatternView {
        PatternView::of_children(t.children)
    }
}

/// What the `pattern` statements among `cs` say, in their order.
pub open spec fn all_patterns(cs: Seq<ParseTreeView>) -> Seq<PatternView>
    decreases cs.len(),
{
    if cs.len() == 0 {
        Seq::empty()
    } else if cs.last().rule == Rule::Pattern {
        all_patterns(cs.drop_last()).push(PatternView::of(cs.last()))
    } else {
        all_patterns(cs.drop_last())
    }
}

impl Pattern {
    /// Reads a `pattern` statement from its children.
    pub fn parse_children(cs: &Vec<ParseTree>) -> (res: Self)
        requires
            all_conform(parse_trees_view(cs@)),
        ensures
            res@ == PatternView::of_children(parse_trees_view(cs@)),
    {
        Pattern {
            value: required_string(cs, Rule::String),
            modifier: optional_modifier(cs),
            error_message: optional_string(cs, Rule::ErrorMessage),
            error_app_tag: optional_string(cs, Rule::ErrorAppTag),
            description: optional_string(cs, Rule::Description),
            reference: optional_string(cs, Rule::Reference),
        }
    }

    /// Reads a `pattern` statement.
    pub fn parse(input: &ParseTree) -> (res: Self)
        requires
            conforms(input@),
        ensures
            res@ == PatternView::of(input@),
    {
        proof {
            lemma_children(input);
        }
        Pattern::parse_children(&input.children)
    }

    /// Reads the `pattern` statements among `cs`, in their order.
    pub fn parse_all(cs: &Vec<ParseTree>) -> (res: Vec<Self>)
        requires
            all_conform(parse_trees_view(cs@)),
        ensures
            res.deep_view() == all_patterns(parse_trees_view(cs@)),
    {
        let ghost views = parse_trees_view(cs@);
        let mut out: Vec<Pattern> = Vec::new();
        let mut i: usize = 0;
        proof {
            assert(views.take(0) =~= Seq::empty());
            assert(out.deep_view() =~= Seq::empty());
        }
        while i < cs.len()
            invariant
                i <= cs.len(),
                views == parse_trees_view(cs@),
                all_conform(views),
                out.deep_view() == all_patterns(views.take(i as int)),
            decreases cs.len() - i,
        {
            proof {
                assert(views.take(i + 1).drop_last() =~= views.take(i as int));
                assert(views.take(i + 1).last() == views[i as int]);
                assert(views[i as int] == cs[i as int]@);
            }
            if cs[i].rule == Rule::Pattern {
                let ghost before = out.deep_view();
                let value = Pattern::parse(&cs[i]);
                out.push(value);
                assert(out.deep_view() =~= before.push(value@));
            }
            i += 1;
        }
        assert(views.take(cs.len() as int) =~= views);
        out
    }
}

impl EnumValueView {
    /// What an `enum` statement with the children `cs` says.
    pub open spec fn of_children(cs: Seq<ParseTreeView>) -> EnumValueView {
        EnumValueView {
            name: req_string(cs, Rule::String),
            if_features: strings(cs, Rule::IfFeature),
            value: opt_integer(cs, Rule::Value),
            status: opt_status(cs),
            description: opt_string(cs, Rule::Description),
            reference: opt_string(cs, Rule::Reference),
        }
    }

    /// What the `enum` statement `t` says.
    pub open spec fn of(t: ParseTreeView) -> EnumValueView {
        EnumValueView::of_children(t.children)
    }
}

/// What the `enum` statements among `cs` say, in their order.
pub open spec fn all_enum_values(cs: Seq<ParseTreeView>) -> Seq<EnumValueView>
    decreases cs.len(),
{
    if cs.len() == 0 {
        Seq::empty()
    } else if cs.last().rule == Rule::Enum {
        all_enum_values(cs.drop_last()).push(EnumValueView::of(cs.last()))
    } else {
        all_enum_values(cs.drop_last())
    }
}

impl EnumValue {
    /// Reads an `enum` statement from its children.
    pub fn parse_children(cs: &Vec<ParseTree>) -> (res: Self)
        requires
            all_conform(parse_trees_view(cs@)),
        ensures
            res@ == EnumValueView::of_children(parse_trees_view(cs@)),
    {
        EnumValue {
            name: required_string(cs, Rule::String),
            if_features: all_strings(cs, Rule::IfFeature),
            value: optional_integer(cs, Rule::Value),
            status: optional_status(cs),
            description: optional_string(cs, Rule::Description),
            reference: optional_string(cs, Rule::Reference),
        }
    }

    /// Reads an `enum` statement.
    pub fn parse(input: &ParseTree) -> (res: Self)
        requires
            conforms(input@),
        ensures
            res@ == EnumValueView::of(input@),
    {
        proof {
            lemma_children(input);
        }
        EnumValue::parse_children(&input.children)
    }

    /// Reads the `enum` statements among `cs`, in their order.
    pub fn parse_all(cs: &Vec<ParseTree>) -> (res: Vec<Self>)
        requires
            all_conform(parse_trees_view(cs@)),
        ensures
            res.deep_view() == all_enum_values(parse_trees_view(cs@)),
    {
        let ghost views = parse_trees_view(cs@);
        let mut out: Vec<EnumValue> = Vec::new();
        let mut i: usize = 0;
        proof {
            assert(views.take(0) =~= Seq::empty());
            assert(out.deep_view() =~= Seq::empty());
        }
        while i < cs.len()
            invariant
                i <= cs.len(),
                views == parse_trees_view(cs@),
                all_conform(views),
                out.deep_view() == all_enum_values(views.take(i as int)),
            decreases cs.len() - i,
        {
            proof {
                assert(views.take(i + 1).drop_last() =~= views.take(i as int));
                assert(views.take(i + 1).last() == views[i as int]);
                assert(views[i as int] == cs[i as int]@);
            }
            if cs[i].rule == Rule::Enum {
                let ghost before = out.deep_view();
                let value = EnumValue::parse(&cs[i]);
                out.push(value);
                assert(out.deep_view() =~= before.push(value@));
            }
            i += 1;
        }
        assert(views.take(cs.len() as int) =~= views);
        out
    }
}

impl BitView {
    /// What a `bit` statement with the children `cs` says.
    pub open spec fn of_children(cs: Seq<ParseTreeView>) -> BitView {
        BitView {
            name: req_string(cs, Rule::String),
            if_features: strings(cs, Rule::IfFeature),
            position: opt_integer(cs, Rule::Position),
            status: opt_status(cs),
            description: opt_string(cs, Rule::Description),
            reference: opt_string(cs, Rule::Reference),
        }
    }

    /// What the `bit` statement `t` says.
    pub open spec fn of(t: ParseTreeView) -> BitView {
        BitView::of_children(t.children)
    }
}

/// What the `bit` statements among `cs` say, in their order.
pub open spec fn all_bits(cs: Seq<ParseTreeView>) -> Seq<BitView>
    decreases cs.len(),
{
    if cs.len() == 0 {
        Seq::empty()
    } else if cs.last().rule == Rule::Bit {
        all_bits(cs.drop_last()).push(BitView::of(cs.last()))
    } else {
        all_bits(cs.drop_last())
    }
}

impl Bit {
    /// Reads a `bit` statement from its children.
    pub fn parse_children(cs: &Vec<ParseTree>) -> (res: Self)
        requires
            all_conform(parse_trees_view(cs@)),
        ensures
            res@ == BitView::of_children(parse_trees_view(cs@)),
    {
        Bit {
            name: required_string(cs, Rule::String),
            if_features: all_strings(cs, Rule::IfFeature),
            position: optional_integer(cs, Rule::Position),
            status: optional_status(cs),
            description: optional_string(cs, Rule::Description),
            reference: optional_string(cs, Rule::Reference),
        }
    }

    /// Reads a `bit` statement.
    pub fn parse(input: &ParseTree) -> (res: Self)
        requires
            conforms(input@),
        ensures
            res@ == BitView::of(input@),
    {
        proof {
            lemma_children(input);
        }
        Bit::parse_children(&input.children)
    }

    /// Reads the `bit` statements among `cs`, in their order.
    pub fn parse_all(cs: &Vec<ParseTree>) -> (res: Vec<Self>)
        requires
            all_conform(parse_trees_view(cs@)),
        ensures
            res.deep_view() == all_bits(parse_trees_view(cs@)),
    {
        let ghost views = parse_trees_view(cs@);
        let mut out: Vec<Bit> = Vec::new();
        let mut i: usize = 0;
        proof {
            assert(views.take(0) =~= Seq::empty());
            assert(out.deep_view() =~= Seq::empty());
        }
        while i < cs.len()
            invariant
                i <= cs.len(),
                views == parse_trees_view(cs@),
                all_conform(views),
                out.deep_view() == all_bits(views.take(i as int)),
            decreases cs.len() - i,
        {
            proof {
                assert(views.take(i + 1).drop_last() =~= views.take(i as int));
                assert(views.take(i + 1).last() == views[i as int]);
                assert(views[i as int] == cs[i as int]@);
            }
            if cs[i].rule == Rule::Bit {
                let ghost before = out.deep_view();
                let value = Bit::parse(&cs[i]);
                out.push(value);
                assert(out.deep_view() =~= before.push(value@));
            }
            i += 1;
        }
        assert(views.take(cs.len() as int) =~= views);
        out
    }
}

} // verus!
