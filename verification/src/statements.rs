//! The statements that stand alone: what each says, and how it is read from
//! its syntax tree. None of them opens a scope or declares a reference target
//! inside itself.

use crate::grammar::Rule;
use crate::tree::{all_conform, conforms, parse_trees_view, ParseTree, ParseTreeView};
use crate::restrictions::{all_musts, last_when};
use crate::type_info::{last_type_info, required_type_info};
use crate::values::{
    all_strings, find_last, last_of, lemma_children, name_of, opt_boolean, opt_integer,
    opt_max_elements, opt_ordered_by, opt_status, opt_string, optional_boolean, optional_integer,
    optional_max_elements, optional_ordered_by, optional_status, optional_string, parse_name,
    parse_second_boolean, req_string, required_string, second_boolean, strings,
};
use crate::yang::{
    Anydata, AnydataView, Anyxml, AnyxmlView, Argument, ArgumentView, BelongsTo, BelongsToView,
    DeviateAdd, DeviateAddView, DeviateDelete, DeviateDeleteView, DeviateReplace,
    DeviateReplaceView, Deviation, DeviationView, Extension, ExtensionView, Feature, FeatureView,
    Identity, IdentityView, Import, ImportView, Include, IncludeView, Leaf, LeafList, LeafListView,
    LeafView, MetaInfo, MetaInfoView, Must, Refine, RefineView, Revision, RevisionView, TypeDef,
    TypeDefView, TypeInfo, When,
};
use vstd::prelude::*;

verus! {

impl TypeDefView {
    /// What a `typedef` statement with the children `cs` says.
    pub open spec fn of_children(cs: Seq<ParseTreeView>) -> TypeDefView {
        TypeDefView {
            name: name_of(cs),
            type_info: required_type_info(cs),
            units: opt_string(cs, Rule::Units),
            default: opt_string(cs, Rule::Default),
            status: opt_status(cs),
            description: opt_string(cs, Rule::Description),
            reference: opt_string(cs, Rule::Reference),
        }
    }

    /// What the `typedef` statement `t` says.
    pub open spec fn of(t: ParseTreeView) -> TypeDefView {
        TypeDefView::of_children(t.children)
    }
}

impl TypeDef {
    /// Reads a `typedef` statement from its children.
    pub fn parse_children(cs: &Vec<ParseTree>) -> (res: Self)
        requires
            all_conform(parse_trees_view(cs@)),
        ensures
            res@ == TypeDefView::of_children(parse_trees_view(cs@)),
    {
        TypeDef {
            name: parse_name(cs),
            type_info: TypeInfo::parse_required(cs),
            units: optional_string(cs, Rule::Units),
            default: optional_string(cs, Rule::Default),
            status: optional_status(cs),
            description: optional_string(cs, Rule::Description),
            reference: optional_string(cs, Rule::Reference),
        }
    }

    /// Reads a `typedef` statement.
    pub fn parse(input: &ParseTree) -> (res: Self)
        requires
            conforms(input@),
        ensures
            res@ == TypeDefView::of(input@),
    {
        proof {
            lemma_children(input);
        }
        TypeDef::parse_children(&input.children)
    }
}

impl LeafView {
    /// What a `leaf` statement with the children `cs` says.
    pub open spec fn of_children(cs: Seq<ParseTreeView>) -> LeafView {
        LeafView {
            name: req_string(cs, Rule::String),
            when: last_when(cs),
            if_features: strings(cs, Rule::IfFeature),
            type_info: required_type_info(cs),
            units: opt_string(cs, Rule::Units),
            must: all_musts(cs),
            default: opt_string(cs, Rule::Default),
            config: opt_boolean(cs, Rule::Config),
            mandatory: opt_boolean(cs, Rule::Mandatory),
            status: opt_status(cs),
            description: opt_string(cs, Rule::Description),
            reference: opt_string(cs, Rule::Reference),
        }
    }

    /// What the `leaf` statement `t` says.
    pub open spec fn of(t: ParseTreeView) -> LeafView {
        LeafView::of_children(t.children)
    }
}

impl Leaf {
    /// Reads a `leaf` statement from its children.
    pub fn parse_children(cs: &Vec<ParseTree>) -> (res: Self)
        requires
            all_conform(parse_trees_view(cs@)),
        ensures
            res@ == LeafView::of_children(parse_trees_view(cs@)),
    {
        Leaf {
            name: required_string(cs, Rule::String),
            when: When::parse_last(cs),
            if_features: all_strings(cs, Rule::IfFeature),
            type_info: TypeInfo::parse_required(cs),
            units: optional_string(cs, Rule::Units),
            must: Must::parse_all(cs),
            default: optional_string(cs, Rule::Default),
            config: optional_boolean(cs, Rule::Config),
            mandatory: optional_boolean(cs, Rule::Mandatory),
            status: optional_status(cs),
            description: optional_string(cs, Rule::Description),
            reference: optional_string(cs, Rule::Reference),
        }
    }

    /// Reads a `leaf` statement.
    pub fn parse(input: &ParseTree) -> (res: Self)
        requires
            conforms(input@),
        ensures
            res@ == LeafView::of(input@),
    {
        proof {
            lemma_children(input);
        }
        Leaf::parse_children(&input.children)
    }
}

impl LeafListView {
    /// What a `leaf-list` statement with the children `cs` says.
    pub open spec fn of_children(cs: Seq<ParseTreeView>) -> LeafListView {
        LeafListView {
            name: req_string(cs, Rule::String),
            when: last_when(cs),
            if_features: strings(cs, Rule::IfFeature),
            type_info: required_type_info(cs),
            units: opt_string(cs, Rule::Units),
            must: all_musts(cs),
            default: strings(cs, Rule::Default),
            config: opt_boolean(cs, Rule::Config),
            min_elements: opt_integer(cs, Rule::MinElements),
            max_elements: opt_max_elements(cs),
            ordered_by: opt_ordered_by(cs),
            status: opt_status(cs),
            description: opt_string(cs, Rule::Description),
            reference: opt_string(cs, Rule::Reference),
        }
    }

    /// What the `leaf-list` statement `t` says.
    pub open spec fn of(t: ParseTreeView) -> LeafListView {
        LeafListView::of_children(t.children)
    }
}

impl LeafList {
    /// Reads a `leaf-list` statement from its children.
    pub fn parse_children(cs: &Vec<ParseTree>) -> (res: Self)
        requires
            all_conform(parse_trees_view(cs@)),
        ensures
            res@ == LeafListView::of_children(parse_trees_view(cs@)),
    {
        LeafList {
            name: required_string(cs, Rule::String),
            when: When::parse_last(cs),
            if_features: all_strings(cs, Rule::IfFeature),
            type_info: TypeInfo::parse_required(cs),
            units: optional_string(cs, Rule::Units),
            must: Must::parse_all(cs),
            default: all_strings(cs, Rule::Default),
            config: optional_boolean(cs, Rule::Config),
            min_elements: optional_integer(cs, Rule::MinElements),
            max_elements: optional_max_elements(cs),
            ordered_by: optional_ordered_by(cs),
            status: optional_status(cs),
            description: optional_string(cs, Rule::Description),
            reference: optional_string(cs, Rule::Reference),
        }
    }

    /// Reads a `leaf-list` statement.
    pub fn parse(input: &ParseTree) -> (res: Self)
        requires
            conforms(input@),
        ensures
            res@ == LeafListView::of(input@),
    {
        proof {
            lemma_children(input);
        }
        LeafList::parse_children(&input.children)
    }
}

impl AnydataView {
    /// What an `anydata` statement with the children `cs` says.
    pub open spec fn of_children(cs: Seq<ParseTreeView>) -> AnydataView {
        AnydataView {
            name: req_string(cs, Rule::String),
            when: last_when(cs),
            if_features: strings(cs, Rule::IfFeature),
            must: all_musts(cs),
            config: opt_boolean(cs, Rule::Config),
            mandatory: opt_boolean(cs, Rule::Mandatory),
            status: opt_status(cs),
            description: opt_string(cs, Rule::Description),
            reference: opt_string(cs, Rule::Reference),
        }
    }

    /// What the `anydata` statement `t` says.
    pub open spec fn of(t: ParseTreeView) -> AnydataView {
        AnydataView::of_children(t.children)
    }
}

impl Anydata {
    /// Reads an `anydata` statement from its children.
    pub fn parse_children(cs: &Vec<ParseTree>) -> (res: Self)
        requires
            all_conform(parse_trees_view(cs@)),
        ensures
            res@ == AnydataView::of_children(parse_trees_view(cs@)),
    {
        Anydata {
            name: required_string(cs, Rule::String),
            when: When::parse_last(cs),
            if_features: all_strings(cs, Rule::IfFeature),
            must: Must::parse_all(cs),
            config: optional_boolean(cs, Rule::Config),
            mandatory: optional_boolean(cs, Rule::Mandatory),
            status: optional_status(cs),
            description: optional_string(cs, Rule::Description),
            reference: optional_string(cs, Rule::Reference),
        }
    }

    /// Reads an `anydata` statement.
    pub fn parse(input: &ParseTree) -> (res: Self)
        requires
            conforms(input@),
        ensures
            res@ == AnydataView::of(input@),
    {
        proof {
            lemma_children(input);
        }
        Anydata::parse_children(&input.children)
    }
}

impl AnyxmlView {
    /// What an `anyxml` statement with the children `cs` says.
    pub open spec fn of_children(cs: Seq<ParseTreeView>) -> AnyxmlView {
        AnyxmlView {
            name: req_string(cs, Rule::String),
            when: last_when(cs),
            if_features: strings(cs, Rule::IfFeature),
            must: all_musts(cs),
            config: opt_boolean(cs, Rule::Config),
            mandatory: opt_boolean(cs, Rule::Mandatory),
            status: opt_status(cs),
            description: opt_string(cs, Rule::Description),
            reference: opt_string(cs, Rule::Reference),
        }
    }

    /// What the `anyxml` statement `t` says.
    pub open spec fn of(t: ParseTreeView) -> AnyxmlView {
        AnyxmlView::of_children(t.children)
    }
}

impl Anyxml {
    /// Reads an `anyxml` statement from its children.
    pub fn parse_children(cs: &Vec<ParseTree>) -> (res: Self)
        requires
            all_conform(parse_trees_view(cs@)),
        ensures
            res@ == AnyxmlView::of_children(parse_trees_view(cs@)),
    {
        Anyxml {
            name: required_string(cs, Rule::String),
            when: When::parse_last(cs),
            if_features: all_strings(cs, Rule::IfFeature),
            must: Must::parse_all(cs),
            config: optional_boolean(cs, Rule::Config),
            mandatory: optional_boolean(cs, Rule::Mandatory),
            status: optional_status(cs),
            description: optional_string(cs, Rule::Description),
            reference: optional_string(cs, Rule::Reference),
        }
    }

    /// Reads an `anyxml` statement.
    pub fn parse(input: &ParseTree) -> (res: Self)
        requires
            conforms(input@),
        ensures
            res@ == AnyxmlView::of(input@),
    {
        proof {
            lemma_children(input);
        }
        Anyxml::parse_children(&input.children)
    }
}

impl RefineView {
    /// What a `refine` statement with the children `cs` says.
    pub open spec fn of_children(cs: Seq<ParseTreeView>) -> RefineView {
        RefineView {
            target: req_string(cs, Rule::String),
            if_features: strings(cs, Rule::IfFeature),
            must: all_musts(cs),
            presence: opt_string(cs, Rule::Presence),
            default: strings(cs, Rule::Default),
            config: opt_boolean(cs, Rule::Config),
            mandatory: opt_boolean(cs, Rule::Mandatory),
            min_elements: opt_integer(cs, Rule::MinElements),
            max_elements: opt_max_elements(cs),
            description: opt_string(cs, Rule::Description),
            reference: opt_string(cs, Rule::Reference),
        }
    }

    /// What the `refine` statement `t` says.
    pub open spec fn of(t: ParseTreeView) -> RefineView {
        RefineView::of_children(t.children)
    }
}

/// What the `refine` statements among `cs` say, in their order.
pub open spec fn all_refines(cs: Seq<ParseTreeView>) -> Seq<RefineView>
    decreases cs.len(),
{
    if cs.len() == 0 {
        Seq::empty()
    } else if cs.last().rule == Rule::Refine {
        all_refines(cs.drop_last()).push(RefineView::of(cs.last()))
    } else {
        all_refines(cs.drop_last())
    }
}

impl Refine {
    /// Reads a `refine` statement from its children.
    pub fn parse_children(cs: &Vec<ParseTree>) -> (res: Self)
        requires
            all_conform(parse_trees_view(cs@)),
        ensures
            res@ == RefineView::of_children(parse_trees_view(cs@)),
    {
        Refine {
            target: required_string(cs, Rule::String),
            if_features: all_strings(cs, Rule::IfFeature),
            must: Must::parse_all(cs),
            presence: optional_string(cs, Rule::Presence),
            default: all_strings(cs, Rule::Default),
            config: optional_boolean(cs, Rule::Config),
            mandatory: optional_boolean(cs, Rule::Mandatory),
            min_elements: optional_integer(cs, Rule::MinElements),
            max_elements: optional_max_elements(cs),
            description: optional_string(cs, Rule::Description),
            reference: optional_string(cs, Rule::Reference),
        }
    }

    /// Reads a `refine` statement.
    pub fn parse(input: &ParseTree) -> (res: Self)
        requires
            conforms(input@),
        ensures
            res@ == RefineView::of(input@),
    {
        proof {
            lemma_children(input);
        }
        Refine::parse_children(&input.children)
    }

    /// Reads the `refine` statements among `cs`, in their order.
    pub fn parse_all(cs: &Vec<ParseTree>) -> (res: Vec<Self>)
        requires
            all_conform(parse_trees_view(cs@)),
        ensures
            res.deep_view() == all_refines(parse_trees_view(cs@)),
    {
        let ghost views = parse_trees_view(cs@);
        let mut out: Vec<Refine> = Vec::new();
        let mut i: usize = 0;
        proof {
            assert(views.take(0) =~= Seq::empty());
            assert(out.deep_view() =~= Seq::empty());
        }
        while i < cs.len()
            invariant
                i <= cs.len(),
                views == parse_trees_view(cs@),
                all_conform(views),
                out.deep_view() == all_refines(views.take(i as int)),
            decreases cs.len() - i,
        {
            proof {
                assert(views.take(i + 1).drop_last() =~= views.take(i as int));
                assert(views.take(i + 1).last() == views[i as int]);
                assert(views[i as int] == cs[i as int]@);
            }
            if cs[i].rule == Rule::Refine {
                let ghost before = out.deep_view();
                let value = Refine::parse(&cs[i]);
                out.push(value);
                assert(out.deep_view() =~= before.push(value@));
            }
            i += 1;
        }
        assert(views.take(cs.len() as int) =~= views);
        out
    }
}

impl ArgumentView {
    /// What an `argument` statement with the children `cs` says.
    pub open spec fn of_children(cs: Seq<ParseTreeView>) -> ArgumentView {
        ArgumentView {
            name: name_of(cs),
            yin_element: second_boolean(cs),
        }
    }

    /// What the `argument` statement `t` says.
    pub open spec fn of(t: ParseTreeView) -> ArgumentView {
        ArgumentView::of_children(t.children)
    }
}

/// What the last `argument` statement among `cs` says, if there is one.
pub open spec fn last_argument(cs: Seq<ParseTreeView>) -> Option<ArgumentView> {
    match last_of(cs, Rule::Argument) {
        Some(c) => Some(ArgumentView::of(c)),
        None => None,
    }
}

impl Argument {
    /// Reads an `argument` statement from its children.
    pub fn parse_children(cs: &Vec<ParseTree>) -> (res: Self)
        requires
            all_conform(parse_trees_view(cs@)),
        ensures
            res@ == ArgumentView::of_children(parse_trees_view(cs@)),
    {
        Argument {
            name: parse_name(cs),
            yin_element: parse_second_boolean(cs),
        }
    }

    /// Reads an `argument` statement.
    pub fn parse(input: &ParseTree) -> (res: Self)
        requires
            conforms(input@),
        ensures
            res@ == ArgumentView::of(input@),
    {
        proof {
            lemma_children(input);
        }
        Argument::parse_children(&input.children)
    }

    /// Reads the last `argument` statement among `cs`, if there is one.
    pub fn parse_last(cs: &Vec<ParseTree>) -> (res: Option<Self>)
        requires
            all_conform(parse_trees_view(cs@)),
        ensures
            res.deep_view() == last_argument(parse_trees_view(cs@)),
    {
        match find_last(cs, Rule::Argument) {
            Some(i) => {
                assert(parse_trees_view(cs@)[i as int] == cs[i as int]@);
                Some(Argument::parse(&cs[i]))
            },
            None => None,
        }
    }
}

impl ExtensionView {
    /// What an `extension` statement with the children `cs` says.
    pub open spec fn of_children(cs: Seq<ParseTreeView>) -> ExtensionView {
        ExtensionView {
            name: req_string(cs, Rule::String),
            argument: last_argument(cs),
            status: opt_status(cs),
            description: opt_string(cs, Rule::Description),
            reference: opt_string(cs, Rule::Reference),
        }
    }

    /// What the `extension` statement `t` says.
    pub open spec fn of(t: ParseTreeView) -> ExtensionView {
        ExtensionView::of_children(t.children)
    }
}

impl Extension {
    /// Reads an `extension` statement from its children.
    pub fn parse_children(cs: &Vec<ParseTree>) -> (res: Self)
        requires
            all_conform(parse_trees_view(cs@)),
        ensures
            res@ == ExtensionView::of_children(parse_trees_view(cs@)),
    {
        Extension {
            name: required_string(cs, Rule::String),
            argument: Argument::parse_last(cs),
            status: optional_status(cs),
            description: optional_string(cs, Rule::Description),
            reference: optional_string(cs, Rule::Reference),
        }
    }

    /// Reads an `extension` statement.
    pub fn parse(input: &ParseTree) -> (res: Self)
        requires
            conforms(input@),
        ensures
            res@ == ExtensionView::of(input@),
    {
        proof {
            lemma_children(input);
        }
        Extension::parse_children(&input.children)
    }
}

impl FeatureView {
    /// What a `feature` statement with the children `cs` says.
    pub open spec fn of_children(cs: Seq<ParseTreeView>) -> FeatureView {
        FeatureView {
            name: name_of(cs),
            if_features: strings(cs, Rule::IfFeature),
            status: opt_status(cs),
            description: opt_string(cs, Rule::Description),
            reference: opt_string(cs, Rule::Reference),
        }
    }

    /// What the `feature` statement `t` says.
    pub open spec fn of(t: ParseTreeView) -> FeatureView {
        FeatureView::of_children(t.children)
    }
}

impl Feature {
    /// Reads a `feature` statement from its children.
    pub fn parse_children(cs: &Vec<ParseTree>) -> (res: Self)
        requires
            all_conform(parse_trees_view(cs@)),
        ensures
            res@ == FeatureView::of_children(parse_trees_view(cs@)),
    {
        Feature {
            name: parse_name(cs),
            if_features: all_strings(cs, Rule::IfFeature),
            status: optional_status(cs),
            description: optional_string(cs, Rule::Description),
            reference: optional_string(cs, Rule::Reference),
        }
    }

    /// Reads a `feature` statement.
    pub fn parse(input: &ParseTree) -> (res: Self)
        requires
            conforms(input@),
        ensures
            res@ == FeatureView::of(input@),
    {
        proof {
            lemma_children(input);
        }
        Feature::parse_children(&input.children)
    }
}

impl IdentityView {
    /// What an `identity` statement with the children `cs` says.
    pub open spec fn of_children(cs: Seq<ParseTreeView>) -> IdentityView {
        IdentityView {
            name: name_of(cs),
            if_features: strings(cs, Rule::IfFeature),
            bases: strings(cs, Rule::Base),
            status: opt_status(cs),
            description: opt_string(cs, Rule::Description),
            reference: opt_string(cs, Rule::Reference),
        }
    }

    /// What the `identity` statement `t` says.
    pub open spec fn of(t: ParseTreeView) -> IdentityView {
        IdentityView::of_children(t.children)
    }
}

impl Identity {
    /// Reads an `identity` statement from its children.
    pub fn parse_children(cs: &Vec<ParseTree>) -> (res: Self)
        requires
            all_conform(parse_trees_view(cs@)),
        ensures
            res@ == IdentityView::of_children(parse_trees_view(cs@)),
    {
        Identity {
            name: parse_name(cs),
            if_features: all_strings(cs, Rule::IfFeature),
            bases: all_strings(cs, Rule::Base),
            status: optional_status(cs),
            description: optional_string(cs, Rule::Description),
            reference: optional_string(cs, Rule::Reference),
        }
    }

    /// Reads an `identity` statement.
    pub fn parse(input: &ParseTree) -> (res: Self)
        requires
            conforms(input@),
        ensures
            res@ == IdentityView::of(input@),
    {
        proof {
            lemma_children(input);
        }
        Identity::parse_children(&input.children)
    }
}

impl DeviateAddView {
    /// What a `deviate add` statement with the children `cs` says.
    pub open spec fn of_children(cs: Seq<ParseTreeView>) -> DeviateAddView {
        DeviateAddView {
            units: opt_string(cs, Rule::Units),
            must: all_musts(cs),
            unique: strings(cs, Rule::Unique),
            default: strings(cs, Rule::Default),
            config: opt_boolean(cs, Rule::Config),
            mandatory: opt_boolean(cs, Rule::Mandatory),
            min_elements: opt_integer(cs, Rule::MinElements),
            max_elements: opt_max_elements(cs),
        }
    }

    /// What the `deviate add` statement `t` says.
    pub open spec fn of(t: ParseTreeView) -> DeviateAddView {
        DeviateAddView::of_children(t.children)
    }
}

/// What the `deviate add` statements among `cs` say, in their order.
pub open spec fn all_deviate_adds(cs: Seq<ParseTreeView>) -> Seq<DeviateAddView>
    decreases cs.len(),
{
    if cs.len() == 0 {
        Seq::empty()
    } else if cs.last().rule == Rule::DeviateAdd {
        all_deviate_adds(cs.drop_last()).push(DeviateAddView::of(cs.last()))
    } else {
        all_deviate_adds(cs.drop_last())
    }
}

impl DeviateAdd {
    /// Reads a `deviate add` statement from its children.
    pub fn parse_children(cs: &Vec<ParseTree>) -> (res: Self)
        requires
            all_conform(parse_trees_view(cs@)),
        ensures
            res@ == DeviateAddView::of_children(parse_trees_view(cs@)),
    {
        DeviateAdd {
            units: optional_string(cs, Rule::Units),
            must: Must::parse_all(cs),
            unique: all_strings(cs, Rule::Unique),
            default: all_strings(cs, Rule::Default),
            config: optional_boolean(cs, Rule::Config),
            mandatory: optional_boolean(cs, Rule::Mandatory),
            min_elements: optional_integer(cs, Rule::MinElements),
            max_elements: optional_max_elements(cs),
        }
    }

    /// Reads a `deviate add` statement.
    pub fn parse(input: &ParseTree) -> (res: Self)
        requires
            conforms(input@),
        ensures
            res@ == DeviateAddView::of(input@),
    {
        proof {
            lemma_children(input);
        }
        DeviateAdd::parse_children(&input.children)
    }

    /// Reads the `deviate add` statements among `cs`, in their order.
    pub fn parse_all(cs: &Vec<ParseTree>) -> (res: Vec<Self>)
        requires
            all_conform(parse_trees_view(cs@)),
        ensures
            res.deep_view() == all_deviate_adds(parse_trees_view(cs@)),
    {
        let ghost views = parse_trees_view(cs@);
        let mut out: Vec<DeviateAdd> = Vec::new();
        let mut i: usize = 0;
        proof {
            assert(views.take(0) =~= Seq::empty());
            assert(out.deep_view() =~= Seq::empty());
        }
        while i < cs.len()
            invariant
                i <= cs.len(),
                views == parse_trees_view(cs@),
                all_conform(views),
                out.deep_view() == all_deviate_adds(views.take(i as int)),
            decreases cs.len() - i,
        {
            proof {
                assert(views.take(i + 1).drop_last() =~= views.take(i as int));
                assert(views.take(i + 1).last() == views[i as int]);
                assert(views[i as int] == cs[i as int]@);
            }
            if cs[i].rule == Rule::DeviateAdd {
                let ghost before = out.deep_view();
                let value = DeviateAdd::parse(&cs[i]);
                out.push(value);
                assert(out.deep_view() =~= before.push(value@));
            }
            i += 1;
        }
        assert(views.take(cs.len() as int) =~= views);
        out
    }
}

impl DeviateDeleteView {
    /// What a `deviate delete` statement with the children `cs` says.
    pub open spec fn of_children(cs: Seq<ParseTreeView>) -> DeviateDeleteView {
        DeviateDeleteView {
            units: opt_string(cs, Rule::Units),
            must: all_musts(cs),
            unique: strings(cs, Rule::Unique),
            default: strings(cs, Rule::Default),
        }
    }

    /// What the `deviate delete` statement `t` says.
    pub open spec fn of(t: ParseTreeView) -> DeviateDeleteView {
        DeviateDeleteView::of_children(t.children)
    }
}

/// What the `deviate delete` statements among `cs` say, in their order.
pub open spec fn all_deviate_deletes(cs: Seq<ParseTreeView>) -> Seq<DeviateDeleteView>
    decreases cs.len(),
{
    if cs.len() == 0 {
        Seq::empty()
    } else if cs.last().rule == Rule::DeviateDelete {
        all_deviate_deletes(cs.drop_last()).push(DeviateDeleteView::of(cs.last()))
    } else {
        all_deviate_deletes(cs.drop_last())
    }
}

impl DeviateDelete {
    /// Reads a `deviate delete` statement from its children.
    pub fn parse_children(cs: &Vec<ParseTree>) -> (res: Self)
        requires
            all_conform(parse_trees_view(cs@)),
        ensures
            res@ == DeviateDeleteView::of_children(parse_trees_view(cs@)),
    {
        DeviateDelete {
            units: optional_string(cs, Rule::Units),
            must: Must::parse_all(cs),
            unique: all_strings(cs, Rule::Unique),
            default: all_strings(cs, Rule::Default),
        }
    }

    /// Reads a `deviate delete` statement.
    pub fn parse(input: &ParseTree) -> (res: Self)
        requires
            conforms(input@),
        ensures
            res@ == DeviateDeleteView::of(input@),
    {
        proof {
            lemma_children(input);
        }
        DeviateDelete::parse_children(&input.children)
    }

    /// Reads the `deviate delete` statements among `cs`, in their order.
    pub fn parse_all(cs: &Vec<ParseTree>) -> (res: Vec<Self>)
        requires
            all_conform(parse_trees_view(cs@)),
        ensures
            res.deep_view() == all_deviate_deletes(parse_trees_view(cs@)),
    {
        let ghost views = parse_trees_view(cs@);
        let mut out: Vec<DeviateDelete> = Vec::new();
        let mut i: usize = 0;
        proof {
            assert(views.take(0) =~= Seq::empty());
            assert(out.deep_view() =~= Seq::empty());
        }
        while i < cs.len()
            invariant
                i <= cs.len(),
                views == parse_trees_view(cs@),
                all_conform(views),
                out.deep_view() == all_deviate_deletes(views.take(i as int)),
            decreases cs.len() - i,
        {
            proof {
                assert(views.take(i + 1).drop_last() =~= views.take(i as int));
                assert(views.take(i + 1).last() == views[i as int]);
                assert(views[i as int] == cs[i as int]@);
            }
            if cs[i].rule == Rule::DeviateDelete {
                let ghost before = out.deep_view();
                let value = DeviateDelete::parse(&cs[i]);
                out.push(value);
                assert(out.deep_view() =~= before.push(value@));
            }
            i += 1;
        }
        assert(views.take(cs.len() as int) =~= views);
        out
    }
}

impl DeviateReplaceView {
    /// What a `deviate replace` statement with the children `cs` says.
    pub open spec fn of_children(cs: Seq<ParseTreeView>) -> DeviateReplaceView {
        DeviateReplaceView {
            type_info: last_type_info(cs),
            units: opt_string(cs, Rule::Units),
            default: strings(cs, Rule::Default),
            config: opt_boolean(cs, Rule::Config),
            mandatory: opt_boolean(cs, Rule::Mandatory),
            min_elements: opt_integer(cs, Rule::MinElements),
            max_elements: opt_max_elements(cs),
        }
    }

    /// What the `deviate replace` statement `t` says.
    pub open spec fn of(t: ParseTreeView) -> DeviateReplaceView {
        DeviateReplaceView::of_children(t.children)
    }
}

/// What the `deviate replace` statements among `cs` say, in their order.
pub open spec fn all_deviate_replaces(cs: Seq<ParseTreeView>) -> Seq<DeviateReplaceView>
    decreases cs.len(),
{
    if cs.len() == 0 {
        Seq::empty()
    } else if cs.last().rule == Rule::DeviateReplace {
        all_deviate_replaces(cs.drop_last()).push(DeviateReplaceView::of(cs.last()))
    } else {
        all_deviate_replaces(cs.drop_last())
    }
}

impl DeviateReplace {
    /// Reads a `deviate replace` statement from its children.
    pub fn parse_children(cs: &Vec<ParseTree>) -> (res: Self)
        requires
            all_conform(parse_trees_view(cs@)),
        ensures
            res@ == DeviateReplaceView::of_children(parse_trees_view(cs@)),
    {
        DeviateReplace {
            type_info: TypeInfo::parse_last(cs),
            units: optional_string(cs, Rule::Units),
            default: all_strings(cs, Rule::Default),
            config: optional_boolean(cs, Rule::Config),
            mandatory: optional_boolean(cs, Rule::Mandatory),
            min_elements: optional_integer(cs, Rule::MinElements),
            max_elements: optional_max_elements(cs),
        }
    }

    /// Reads a `deviate replace` statement.
    pub fn parse(input: &ParseTree) -> (res: Self)
        requires
            conforms(input@),
        ensures
            res@ == DeviateReplaceView::of(input@),
    {
        proof {
            lemma_children(input);
        }
        DeviateReplace::parse_children(&input.children)
    }

    /// Reads the `deviate replace` statements among `cs`, in their order.
    pub fn parse_all(cs: &Vec<ParseTree>) -> (res: Vec<Self>)
        requires
            all_conform(parse_trees_view(cs@)),
        ensures
            res.deep_view() == all_deviate_replaces(parse_trees_view(cs@)),
    {
        let ghost views = parse_trees_view(cs@);
        let mut out: Vec<DeviateReplace> = Vec::new();
        let mut i: usize = 0;
        proof {
            assert(views.take(0) =~= Seq::empty());
            assert(out.deep_view() =~= Seq::empty());
        }
        while i < cs.len()
            invariant
                i <= cs.len(),
                views == parse_trees_view(cs@),
                all_conform(views),
                out.deep_view() == all_deviate_replaces(views.take(i as int)),
            decreases cs.len() - i,
        {
            proof {
                assert(views.take(i + 1).drop_last() =~= views.take(i as int));
                assert(views.take(i + 1).last() == views[i as int]);
                assert(views[i as int] == cs[i as int]@);
            }
            if cs[i].rule == Rule::DeviateReplace {
                let ghost before = out.deep_view();
                let value = DeviateReplace::parse(&cs[i]);
                out.push(value);
                assert(out.deep_view() =~= before.push(value@));
            }
            i += 1;
        }
        assert(views.take(cs.len() as int) =~= views);
        out
    }
}

impl DeviationView {
    /// What a `deviation` statement with the children `cs` says.
    pub open spec fn of_children(cs: Seq<ParseTreeView>) -> DeviationView {
        DeviationView {
            target: req_string(cs, Rule::String),
            description: opt_string(cs, Rule::Description),
            reference: opt_string(cs, Rule::Reference),
            not_supported: last_of(cs, Rule::DeviationNotSupported) is Some,
            add: all_deviate_adds(cs),
            delete: all_deviate_deletes(cs),
            replace: all_deviate_replaces(cs),
        }
    }

    /// What the `deviation` statement `t` says.
    pub open spec fn of(t: ParseTreeView) -> DeviationView {
        DeviationView::of_children(t.children)
    }
}

impl Deviation {
    /// Reads a `deviation` statement from its children.
    pub fn parse_children(cs: &Vec<ParseTree>) -> (res: Self)
        requires
            all_conform(parse_trees_view(cs@)),
        ensures
            res@ == DeviationView::of_children(parse_trees_view(cs@)),
    {
        Deviation {
            target: required_string(cs, Rule::String),
            description: optional_string(cs, Rule::Description),
            reference: optional_string(cs, Rule::Reference),
            not_supported: find_last(cs, Rule::DeviationNotSupported).is_some(),
            add: DeviateAdd::parse_all(cs),
            delete: DeviateDelete::parse_all(cs),
            replace: DeviateReplace::parse_all(cs),
        }
    }

    /// Reads a `deviation` statement.
    pub fn parse(input: &ParseTree) -> (res: Self)
        requires
            conforms(input@),
        ensures
            res@ == DeviationView::of(input@),
    {
        proof {
            lemma_children(input);
        }
        Deviation::parse_children(&input.children)
    }
}

impl BelongsToView {
    /// What a `belongs-to` statement with the children `cs` says.
    pub open spec fn of_children(cs: Seq<ParseTreeView>) -> BelongsToView {
        BelongsToView {
            module: req_string(cs, Rule::String),
            prefix: req_string(cs, Rule::Prefix),
        }
    }

    /// What the `belongs-to` statement `t` says.
    pub open spec fn of(t: ParseTreeView) -> BelongsToView {
        BelongsToView::of_children(t.children)
    }
}

/// What the last `belongs-to` statement among `cs` says, if there is one.
pub open spec fn last_belongs_to(cs: Seq<ParseTreeView>) -> Option<BelongsToView> {
    match last_of(cs, Rule::BelongsTo) {
        Some(c) => Some(BelongsToView::of(c)),
        None => None,
    }
}

impl BelongsTo {
    /// Reads a `belongs-to` statement from its children.
    pub fn parse_children(cs: &Vec<ParseTree>) -> (res: Self)
        requires
            all_conform(parse_trees_view(cs@)),
        ensures
            res@ == BelongsToView::of_children(parse_trees_view(cs@)),
    {
        BelongsTo {
            module: required_string(cs, Rule::String),
            prefix: required_string(cs, Rule::Prefix),
        }
    }

    /// Reads a `belongs-to` statement.
    pub fn parse(input: &ParseTree) -> (res: Self)
        requires
            conforms(input@),
        ensures
            res@ == BelongsToView::of(input@),
    {
        proof {
            lemma_children(input);
        }
        BelongsTo::parse_children(&input.children)
    }

    /// Reads the last `belongs-to` statement among `cs`, if there is one.
    pub fn parse_last(cs: &Vec<ParseTree>) -> (res: Option<Self>)
        requires
            all_conform(parse_trees_view(cs@)),
        ensures
            res.deep_view() == last_belongs_to(parse_trees_view(cs@)),
    {
        match find_last(cs, Rule::BelongsTo) {
            Some(i) => {
                assert(parse_trees_view(cs@)[i as int] == cs[i as int]@);
                Some(BelongsTo::parse(&cs[i]))
            },
            None => None,
        }
    }
}

impl ImportView {
    /// What an `import` statement with the children `cs` says.
    pub open spec fn of_children(cs: Seq<ParseTreeView>) -> ImportView {
        ImportView {
            module: req_string(cs, Rule::String),
            prefix: req_string(cs, Rule::Prefix),
            revision_date: opt_string(cs, Rule::RevisionDate),
            description: opt_string(cs, Rule::Description),
            reference: opt_string(cs, Rule::Reference),
        }
    }

    /// What the `import` statement `t` says.
    pub open spec fn of(t: ParseTreeView) -> ImportView {
        ImportView::of_children(t.children)
    }
}

/// What the `import` statements among `cs` say, in their order.
pub open spec fn all_imports(cs: Seq<ParseTreeView>) -> Seq<ImportView>
    decreases cs.len(),
{
    if cs.len() == 0 {
        Seq::empty()
    } else if cs.last().rule == Rule::Import {
        all_imports(cs.drop_last()).push(ImportView::of(cs.last()))
    } else {
        all_imports(cs.drop_last())
    }
}

impl Import {
    /// Reads an `import` statement from its children.
    pub fn parse_children(cs: &Vec<ParseTree>) -> (res: Self)
        requires
            all_conform(parse_trees_view(cs@)),
        ensures
            res@ == ImportView::of_children(parse_trees_view(cs@)),
    {
        Import {
            module: required_string(cs, Rule::String),
            prefix: required_string(cs, Rule::Prefix),
            revision_date: optional_string(cs, Rule::RevisionDate),
            description: optional_string(cs, Rule::Description),
            reference: optional_string(cs, Rule::Reference),
        }
    }

    /// Reads an `import` statement.
    pub fn parse(input: &ParseTree) -> (res: Self)
        requires
            conforms(input@),
        ensures
            res@ == ImportView::of(input@),
    {
        proof {
            lemma_children(input);
        }
        Import::parse_children(&input.children)
    }

    /// Reads the `import` statements among `cs`, in their order.
    pub fn parse_all(cs: &Vec<ParseTree>) -> (res: Vec<Self>)
        requires
            all_conform(parse_trees_view(cs@)),
        ensures
            res.deep_view() == all_imports(parse_trees_view(cs@)),
    {
        let ghost views = parse_trees_view(cs@);
        let mut out: Vec<Import> = Vec::new();
        let mut i: usize = 0;
        proof {
            assert(views.take(0) =~= Seq::empty());
            assert(out.deep_view() =~= Seq::empty());
        }
        while i < cs.len()
            invariant
                i <= cs.len(),
                views == parse_trees_view(cs@),
                all_conform(views),
                out.deep_view() == all_imports(views.take(i as int)),
            decreases cs.len() - i,
        {
            proof {
                assert(views.take(i + 1).drop_last() =~= views.take(i as int));
                assert(views.take(i + 1).last() == views[i as int]);
                assert(views[i as int] == cs[i as int]@);
            }
            if cs[i].rule == Rule::Import {
                let ghost before = out.deep_view();
                let value = Import::parse(&cs[i]);
                out.push(value);
                assert(out.deep_view() =~= before.push(value@));
            }
            i += 1;
        }
        assert(views.take(cs.len() as int) =~= views);
        out
    }
}

impl IncludeView {
    /// What an `include` statement with the children `cs` says.
    pub open spec fn of_children(cs: Seq<ParseTreeView>) -> IncludeView {
        IncludeView {
            module: req_string(cs, Rule::String),
            revision_date: opt_string(cs, Rule::RevisionDate),
            description: opt_string(cs, Rule::Description),
            reference: opt_string(cs, Rule::Reference),
        }
    }

    /// What the `include` statement `t` says.
    pub open spec fn of(t: ParseTreeView) -> IncludeView {
        IncludeView::of_children(t.children)
    }
}

/// What the `include` statements among `cs` say, in their order.
pub open spec fn all_includes(cs: Seq<ParseTreeView>) -> Seq<IncludeView>
    decreases cs.len(),
{
    if cs.len() == 0 {
        Seq::empty()
    } else if cs.last().rule == Rule::Include {
        all_includes(cs.drop_last()).push(IncludeView::of(cs.last()))
    } else {
        all_includes(cs.drop_last())
    }
}

impl Include {
    /// Reads an `include` statement from its children.
    pub fn parse_children(cs: &Vec<ParseTree>) -> (res: Self)
        requires
            all_conform(parse_trees_view(cs@)),
        ensures
            res@ == IncludeView::of_children(parse_trees_view(cs@)),
    {
        Include {
            module: required_string(cs, Rule::String),
            revision_date: optional_string(cs, Rule::RevisionDate),
            description: optional_string(cs, Rule::Description),
            reference: optional_string(cs, Rule::Reference),
        }
    }

    /// Reads an `include` statement.
    pub fn parse(input: &ParseTree) -> (res: Self)
        requires
            conforms(input@),
        ensures
            res@ == IncludeView::of(input@),
    {
        proof {
            lemma_children(input);
        }
        Include::parse_children(&input.children)
    }

    /// Reads the `include` statements among `cs`, in their order.
    pub fn parse_all(cs: &Vec<ParseTree>) -> (res: Vec<Self>)
        requires
            all_conform(parse_trees_view(cs@)),
        ensures
            res.deep_view() == all_includes(parse_trees_view(cs@)),
    {
        let ghost views = parse_trees_view(cs@);
        let mut out: Vec<Include> = Vec::new();
        let mut i: usize = 0;
        proof {
            assert(views.take(0) =~= Seq::empty());
            assert(out.deep_view() =~= Seq::empty());
        }
        while i < cs.len()
            invariant
                i <= cs.len(),
                views == parse_trees_view(cs@),
                all_conform(views),
                out.deep_view() == all_includes(views.take(i as int)),
            decreases cs.len() - i,
        {
            proof {
                assert(views.take(i + 1).drop_last() =~= views.take(i as int));
                assert(views.take(i + 1).last() == views[i as int]);
                assert(views[i as int] == cs[i as int]@);
            }
            if cs[i].rule == Rule::Include {
                let ghost before = out.deep_view();
                let value = Include::parse(&cs[i]);
                out.push(value);
                assert(out.deep_view() =~= before.push(value@));
            }
            i += 1;
        }
        assert(views.take(cs.len() as int) =~= views);
        out
    }
}

impl RevisionView {
    /// What a `revision` statement with the children `cs` says.
    pub open spec fn of_children(cs: Seq<ParseTreeView>) -> RevisionView {
        RevisionView {
            date: req_string(cs, Rule::String),
            description: opt_string(cs, Rule::Description),
            reference: opt_string(cs, Rule::Reference),
        }
    }

    /// What the `revision` statement `t` says.
    pub open spec fn of(t: ParseTreeView) -> RevisionView {
        RevisionView::of_children(t.children)
    }
}

/// What the `revision` statements among `cs` say, in their order.
pub open spec fn all_revisions(cs: Seq<ParseTreeView>) -> Seq<RevisionView>
    decreases cs.len(),
{
    if cs.len() == 0 {
        Seq::empty()
    } else if cs.last().rule == Rule::Revision {
        all_revisions(cs.drop_last()).push(RevisionView::of(cs.last()))
    } else {
        all_revisions(cs.drop_last())
    }
}

impl Revision {
    /// Reads a `revision` statement from its children.
    pub fn parse_children(cs: &Vec<ParseTree>) -> (res: Self)
        requires
            all_conform(parse_trees_view(cs@)),
        ensures
            res@ == RevisionView::of_children(parse_trees_view(cs@)),
    {
        Revision {
            date: required_string(cs, Rule::String),
            description: optional_string(cs, Rule::Description),
            reference: optional_string(cs, Rule::Reference),
        }
    }

    /// Reads a `revision` statement.
    pub fn parse(input: &ParseTree) -> (res: Self)
        requires
            conforms(input@),
        ensures
            res@ == RevisionView::of(input@),
    {
        proof {
            lemma_children(input);
        }
        Revision::parse_children(&input.children)
    }

    /// Reads the `revision` statements among `cs`, in their order.
    pub fn parse_all(cs: &Vec<ParseTree>) -> (res: Vec<Self>)
        requires
            all_conform(parse_trees_view(cs@)),
        ensures
            res.deep_view() == all_revisions(parse_trees_view(cs@)),
    {
        let ghost views = parse_trees_view(cs@);
        let mut out: Vec<Revision> = Vec::new();
        let mut i: usize = 0;
        proof {
            assert(views.take(0) =~= Seq::empty());
            assert(out.deep_view() =~= Seq::empty());
        }
        while i < cs.len()
            invariant
                i <= cs.len(),
                views == parse_trees_view(cs@),
                all_conform(views),
                out.deep_view() == all_revisions(views.take(i as int)),
            decreases cs.len() - i,
        {
            proof {
                assert(views.take(i + 1).drop_last() =~= views.take(i as int));
                assert(views.take(i + 1).last() == views[i as int]);
                assert(views[i as int] == cs[i as int]@);
            }
            if cs[i].rule == Rule::Revision {
                let ghost before = out.deep_view();
                let value = Revision::parse(&cs[i]);
                out.push(value);
                assert(out.deep_view() =~= before.push(value@));
            }
            i += 1;
        }
        assert(views.take(cs.len() as int) =~= views);
        out
    }
}

impl MetaInfoView {
    /// The meta statements among the children `cs` of a module.
    pub open spec fn of_children(cs: Seq<ParseTreeView>) -> MetaInfoView {
        MetaInfoView {
            organization: opt_string(cs, Rule::Organization),
            contact: opt_string(cs, Rule::Contact),
            description: opt_string(cs, Rule::Description),
            reference: opt_string(cs, Rule::Reference),
        }
    }
}

impl MetaInfo {
    /// Reads the meta statements among the children `cs` of a module.
    pub fn parse_children(cs: &Vec<ParseTree>) -> (res: Self)
        requires
            all_conform(parse_trees_view(cs@)),
        ensures
            res@ == MetaInfoView::of_children(parse_trees_view(cs@)),
    {
        MetaInfo {
            organization: optional_string(cs, Rule::Organization),
            contact: optional_string(cs, Rule::Contact),
            description: optional_string(cs, Rule::Description),
            reference: optional_string(cs, Rule::Reference),
        }
    }
}

} // verus!
