//! What the walker yields, stated over the values of trees and of the model.
//!
//! The statements read here open scopes and declare reference targets. Each
//! function takes the scope path at which the statement stands, the prefix of
//! the `belongs-to` statement where a submodule is being read, and the
//! reference tables so far; it gives the tables as the statement leaves them.

use crate::grammar::Rule;
use crate::path::{child_path, path_key};
use crate::resolution::{input_scope, output_scope};
use crate::restrictions::{all_musts, last_when};
use crate::statements::all_refines;
use crate::tree::ParseTreeView;
use crate::values::{
    name_of, opt_boolean, opt_integer, opt_max_elements, opt_ordered_by, opt_status, opt_string,
    req_string, strings,
};
use crate::yang::{
    ActionView, AnydataView, AnyxmlView, AugmentView, BelongsToView, CaseView, ChoiceView,
    ContainerView, DataDefView, DeviationView, ExtensionView, FeatureView, GroupingView,
    IdentityView, InputView, LeafListView, LeafView, ListView, LongCaseView, NotificationView,
    OutputView, ReferenceNodesView, RpcView, SchemaNodeView, ShortCaseView, TypeDefView, UsesView,
};
use vstd::prelude::*;

verus! {

/// What the children of a statement add to the data tree, kind by kind.
pub ghost struct MembersView {
    pub data_defs: Seq<DataDefView>,
    pub actions: Seq<ActionView>,
    pub notifications: Seq<NotificationView>,
    pub cases: Seq<CaseView>,
    pub input: Option<InputView>,
    pub output: Option<OutputView>,
}

impl MembersView {
    /// No members.
    pub open spec fn empty() -> MembersView {
        MembersView {
            data_defs: Seq::empty(),
            actions: Seq::empty(),
            notifications: Seq::empty(),
            cases: Seq::empty(),
            input: None,
            output: None,
        }
    }
}

/// The grouping name of a `uses`: where a submodule is being read and the
/// name starts with the prefix of its `belongs-to` statement and a colon,
/// the name without the two; any other name as it is.
pub open spec fn strip_prefix(name: Seq<char>, prefix: Option<Seq<char>>) -> Seq<char> {
    match prefix {
        Some(p) => if (p + seq![':']).is_prefix_of(name) {
            name.skip(p.len() as int + 1)
        } else {
            name
        },
        None => name,
    }
}

/// A data definition that says nothing: what stands for a node that holds
/// no statement.
pub open spec fn no_data_def() -> DataDefView {
    DataDefView::Leaf(LeafView::of_children(Seq::empty()))
}

/// What the data definition under the node `t` is, and the tables after it.
pub open spec fn walk_data_def(
    t: ParseTreeView,
    path: Seq<char>,
    prefix: Option<Seq<char>>,
    refs: ReferenceNodesView,
) -> (DataDefView, ReferenceNodesView)
    decreases t, 2nat,
{
    if t.children.len() >= 1 {
        let c = t.children[0];
        match c.rule {
            Rule::Container => {
                let (x, r) = walk_container(c, path, prefix, refs);
                (DataDefView::Container(x), r)
            },
            Rule::Leaf => (DataDefView::Leaf(LeafView::of(c)), refs),
            Rule::LeafList => (DataDefView::LeafList(LeafListView::of(c)), refs),
            Rule::List => {
                let (x, r) = walk_list(c, path, prefix, refs);
                (DataDefView::List(x), r)
            },
            Rule::Choice => {
                let (x, r) = walk_choice(c, path, prefix, refs);
                (DataDefView::Choice(x), r)
            },
            Rule::Anydata => (DataDefView::AnyData(AnydataView::of(c)), refs),
            Rule::Anyxml => (DataDefView::Anyxml(AnyxmlView::of(c)), refs),
            Rule::Uses => {
                let (x, r) = walk_uses(c, path, prefix, refs);
                (DataDefView::Uses(x), r)
            },
            _ => (no_data_def(), refs),
        }
    } else {
        (no_data_def(), refs)
    }
}

/// What the short case under the node `t` is, and the tables after it.
pub open spec fn walk_short_case(
    t: ParseTreeView,
    path: Seq<char>,
    prefix: Option<Seq<char>>,
    refs: ReferenceNodesView,
) -> (ShortCaseView, ReferenceNodesView)
    decreases t, 2nat,
{
    if t.children.len() >= 1 {
        let c = t.children[0];
        match c.rule {
            Rule::Choice => {
                let (x, r) = walk_choice(c, path, prefix, refs);
                (ShortCaseView::Choice(x), r)
            },
            Rule::Container => {
                let (x, r) = walk_container(c, path, prefix, refs);
                (ShortCaseView::Container(x), r)
            },
            Rule::Leaf => (ShortCaseView::Leaf(LeafView::of(c)), refs),
            Rule::LeafList => (ShortCaseView::LeafList(LeafListView::of(c)), refs),
            Rule::List => {
                let (x, r) = walk_list(c, path, prefix, refs);
                (ShortCaseView::List(x), r)
            },
            Rule::Anydata => (ShortCaseView::Anydata(AnydataView::of(c)), refs),
            Rule::Anyxml => (ShortCaseView::Anyxml(AnyxmlView::of(c)), refs),
            _ => (ShortCaseView::Leaf(LeafView::of_children(Seq::empty())), refs),
        }
    } else {
        (ShortCaseView::Leaf(LeafView::of_children(Seq::empty())), refs)
    }
}

/// What one child `c` of a statement adds to the members `m` and to the
/// tables: a data-tree node joins the members of its kind, a reference
/// target goes to the tables, and any other child adds nothing to either.
pub open spec fn walk_member(
    c: ParseTreeView,
    path: Seq<char>,
    prefix: Option<Seq<char>>,
    m: MembersView,
    refs: ReferenceNodesView,
) -> (MembersView, ReferenceNodesView)
    decreases c, 3nat,
{
    match c.rule {
        Rule::DataDef => {
            let (x, r) = walk_data_def(c, path, prefix, refs);
            (MembersView { data_defs: m.data_defs.push(x), ..m }, r)
        },
        Rule::Action => {
            let (x, r) = walk_action(c, path, prefix, refs);
            (MembersView { actions: m.actions.push(x), ..m }, r)
        },
        Rule::Notification => {
            let (x, r) = walk_notification(c, path, prefix, refs);
            (MembersView { notifications: m.notifications.push(x), ..m }, r)
        },
        Rule::LongCase => {
            let (x, r) = walk_long_case(c, path, prefix, refs);
            (MembersView { cases: m.cases.push(CaseView::LongCase(x)), ..m }, r)
        },
        Rule::ShortCase => {
            let (x, r) = walk_short_case(c, path, prefix, refs);
            (MembersView { cases: m.cases.push(CaseView::ShortCase(x)), ..m }, r)
        },
        Rule::Input => {
            let (x, r) = walk_input(c, path, prefix, refs);
            (MembersView { input: Some(x), ..m }, r)
        },
        Rule::Output => {
            let (x, r) = walk_output(c, path, prefix, refs);
            (MembersView { output: Some(x), ..m }, r)
        },
        Rule::TypeDef => (
            m,
            refs.with_type_def(path_key(path, name_of(c.children)), TypeDefView::of(c)),
        ),
        Rule::Grouping => (m, walk_grouping(c, path, prefix, refs)),
        Rule::Augment => (m, walk_augment(c, path, prefix, refs)),
        _ => (m, refs),
    }
}

/// What the children `cs` of a statement add, one after the other in their
/// order, to the members `m` and to the tables.
pub open spec fn walk_members(
    cs: Seq<ParseTreeView>,
    path: Seq<char>,
    prefix: Option<Seq<char>>,
    m: MembersView,
    refs: ReferenceNodesView,
) -> (MembersView, ReferenceNodesView)
    decreases cs, 4nat,
{
    if cs.len() == 0 {
        (m, refs)
    } else {
        let (m1, r1) = walk_members(cs.drop_last(), path, prefix, m, refs);
        walk_member(cs.last(), path, prefix, m1, r1)
    }
}

/// The members of a statement with the children `cs`, read in the scope
/// `path`, and the tables after them.
pub open spec fn members_of(
    cs: Seq<ParseTreeView>,
    path: Seq<char>,
    prefix: Option<Seq<char>>,
    refs: ReferenceNodesView,
) -> (MembersView, ReferenceNodesView)
    decreases cs, 5nat,
{
    walk_members(cs, path, prefix, MembersView::empty(), refs)
}

/// What the `container` statement `t` says, and the tables after it. A
/// container opens the scope of its name.
pub open spec fn walk_container(
    t: ParseTreeView,
    path: Seq<char>,
    prefix: Option<Seq<char>>,
    refs: ReferenceNodesView,
) -> (ContainerView, ReferenceNodesView)
    decreases t, 1nat,
{
    let cs = t.children;
    let name = name_of(cs);
    let (m, r) = members_of(cs, child_path(path, name), prefix, refs);
    (
        ContainerView {
            name,
            when: last_when(cs),
            if_features: strings(cs, Rule::IfFeature),
            must: all_musts(cs),
            presence: opt_string(cs, Rule::Presence),
            config: opt_boolean(cs, Rule::Config),
            status: opt_status(cs),
            description: opt_string(cs, Rule::Description),
            reference: opt_string(cs, Rule::Reference),
            data_defs: m.data_defs,
            actions: m.actions,
            notifications: m.notifications,
        },
        r,
    )
}

/// What the `list` statement `t` says, and the tables after it. A list opens
/// the scope of its name.
pub open spec fn walk_list(
    t: ParseTreeView,
    path: Seq<char>,
    prefix: Option<Seq<char>>,
    refs: ReferenceNodesView,
) -> (ListView, ReferenceNodesView)
    decreases t, 1nat,
{
    let cs = t.children;
    let name = name_of(cs);
    let (m, r) = members_of(cs, child_path(path, name), prefix, refs);
    (
        ListView {
            name,
            when: last_when(cs),
            if_features: strings(cs, Rule::IfFeature),
            must: all_musts(cs),
            key: opt_string(cs, Rule::Key),
            unique: strings(cs, Rule::Unique),
            config: opt_boolean(cs, Rule::Config),
            min_elements: opt_integer(cs, Rule::MinElements),
            max_elements: opt_max_elements(cs),
            ordered_by: opt_ordered_by(cs),
            status: opt_status(cs),
            description: opt_string(cs, Rule::Description),
            reference: opt_string(cs, Rule::Reference),
            data_defs: m.data_defs,
            actions: m.actions,
            notifications: m.notifications,
        },
        r,
    )
}

/// What the `choice` statement `t` says, and the tables after it. A choice
/// opens no scope.
pub open spec fn walk_choice(
    t: ParseTreeView,
    path: Seq<char>,
    prefix: Option<Seq<char>>,
    refs: ReferenceNodesView,
) -> (ChoiceView, ReferenceNodesView)
    decreases t, 1nat,
{
    let cs = t.children;
    let (m, r) = members_of(cs, path, prefix, refs);
    (
        ChoiceView {
            name: req_string(cs, Rule::String),
            when: last_when(cs),
            if_features: strings(cs, Rule::IfFeature),
            default: opt_string(cs, Rule::Default),
            config: opt_boolean(cs, Rule::Config),
            mandatory: opt_boolean(cs, Rule::Mandatory),
            status: opt_status(cs),
            description: opt_string(cs, Rule::Description),
            reference: opt_string(cs, Rule::Reference),
            cases: m.cases,
        },
        r,
    )
}

/// What the `case` statement `t` says, and the tables after it. A case opens
/// no scope.
pub open spec fn walk_long_case(
    t: ParseTreeView,
    path: Seq<char>,
    prefix: Option<Seq<char>>,
    refs: ReferenceNodesView,
) -> (LongCaseView, ReferenceNodesView)
    decreases t, 1nat,
{
    let cs = t.children;
    let (m, r) = members_of(cs, path, prefix, refs);
    (
        LongCaseView {
            name: req_string(cs, Rule::String),
            when: last_when(cs),
            if_features: strings(cs, Rule::IfFeature),
            status: opt_status(cs),
            description: opt_string(cs, Rule::Description),
            reference: opt_string(cs, Rule::Reference),
            data_defs: m.data_defs,
        },
        r,
    )
}

/// What the `uses` statement `t` says, and the tables after it. The augments
/// written inside a `uses` go to the tables, not into the `uses`.
pub open spec fn walk_uses(
    t: ParseTreeView,
    path: Seq<char>,
    prefix: Option<Seq<char>>,
    refs: ReferenceNodesView,
) -> (UsesView, ReferenceNodesView)
    decreases t, 1nat,
{
    let cs = t.children;
    let (m, r) = members_of(cs, path, prefix, refs);
    (
        UsesView {
            grouping: strip_prefix(req_string(cs, Rule::String), prefix),
            when: last_when(cs),
            if_features: strings(cs, Rule::IfFeature),
            status: opt_status(cs),
            description: opt_string(cs, Rule::Description),
            reference: opt_string(cs, Rule::Reference),
            refines: all_refines(cs),
            augments: Seq::empty(),
        },
        r,
    )
}

/// The `augment` statement `t` as it is collected.
pub open spec fn augment_of(cs: Seq<ParseTreeView>, m: MembersView) -> AugmentView {
    AugmentView {
        target: req_string(cs, Rule::String),
        when: last_when(cs),
        if_features: strings(cs, Rule::IfFeature),
        status: opt_status(cs),
        description: opt_string(cs, Rule::Description),
        reference: opt_string(cs, Rule::Reference),
        data_defs: m.data_defs,
        cases: m.cases,
        actions: m.actions,
        notifications: m.notifications,
    }
}

/// The tables after the `augment` statement `t`: what it declares inside,
/// and then the augment itself at the end of the augments. An augment opens
/// no scope.
pub open spec fn walk_augment(
    t: ParseTreeView,
    path: Seq<char>,
    prefix: Option<Seq<char>>,
    refs: ReferenceNodesView,
) -> ReferenceNodesView
    decreases t, 1nat,
{
    let cs = t.children;
    let (m, r) = members_of(cs, path, prefix, refs);
    r.with_augment(augment_of(cs, m))
}

/// What the `input` statement `t` says, and the tables after it. It opens
/// the scope `input`.
pub open spec fn walk_input(
    t: ParseTreeView,
    path: Seq<char>,
    prefix: Option<Seq<char>>,
    refs: ReferenceNodesView,
) -> (InputView, ReferenceNodesView)
    decreases t, 1nat,
{
    let cs = t.children;
    let (m, r) = members_of(cs, child_path(path, input_scope()), prefix, refs);
    (InputView { must: all_musts(cs), data_defs: m.data_defs }, r)
}

/// What the `output` statement `t` says, and the tables after it. It opens
/// the scope `output`.
pub open spec fn walk_output(
    t: ParseTreeView,
    path: Seq<char>,
    prefix: Option<Seq<char>>,
    refs: ReferenceNodesView,
) -> (OutputView, ReferenceNodesView)
    decreases t, 1nat,
{
    let cs = t.children;
    let (m, r) = members_of(cs, child_path(path, output_scope()), prefix, refs);
    (OutputView { must: all_musts(cs), data_defs: m.data_defs }, r)
}

/// What the `action` statement `t` says, and the tables after it. An action
/// opens the scope of its name.
pub open spec fn walk_action(
    t: ParseTreeView,
    path: Seq<char>,
    prefix: Option<Seq<char>>,
    refs: ReferenceNodesView,
) -> (ActionView, ReferenceNodesView)
    decreases t, 1nat,
{
    let cs = t.children;
    let name = name_of(cs);
    let (m, r) = members_of(cs, child_path(path, name), prefix, refs);
    (
        ActionView {
            name,
            if_features: strings(cs, Rule::IfFeature),
            must: all_musts(cs),
            status: opt_status(cs),
            description: opt_string(cs, Rule::Description),
            reference: opt_string(cs, Rule::Reference),
            input: m.input,
            output: m.output,
        },
        r,
    )
}

/// What the `rpc` statement `t` says, and the tables after it. An rpc opens
/// the scope of its name.
pub open spec fn walk_rpc(
    t: ParseTreeView,
    path: Seq<char>,
    prefix: Option<Seq<char>>,
    refs: ReferenceNodesView,
) -> (RpcView, ReferenceNodesView) {
    let cs = t.children;
    let name = name_of(cs);
    let (m, r) = members_of(cs, child_path(path, name), prefix, refs);
    (
        RpcView {
            name,
            if_features: strings(cs, Rule::IfFeature),
            must: all_musts(cs),
            status: opt_status(cs),
            description: opt_string(cs, Rule::Description),
            reference: opt_string(cs, Rule::Reference),
            input: m.input,
            output: m.output,
        },
        r,
    )
}

/// What the `notification` statement `t` says, and the tables after it. A
/// notification opens the scope of its name.
pub open spec fn walk_notification(
    t: ParseTreeView,
    path: Seq<char>,
    prefix: Option<Seq<char>>,
    refs: ReferenceNodesView,
) -> (NotificationView, ReferenceNodesView)
    decreases t, 1nat,
{
    let cs = t.children;
    let name = name_of(cs);
    let (m, r) = members_of(cs, child_path(path, name), prefix, refs);
    (
        NotificationView {
            name,
            if_features: strings(cs, Rule::IfFeature),
            must: all_musts(cs),
            status: opt_status(cs),
            description: opt_string(cs, Rule::Description),
            reference: opt_string(cs, Rule::Reference),
            data_defs: m.data_defs,
        },
        r,
    )
}

/// The `grouping` statement with the children `cs` and the members `m`.
pub open spec fn grouping_of(cs: Seq<ParseTreeView>, m: MembersView) -> GroupingView {
    GroupingView {
        name: name_of(cs),
        status: opt_status(cs),
        description: opt_string(cs, Rule::Description),
        reference: opt_string(cs, Rule::Reference),
        data_defs: m.data_defs,
        actions: m.actions,
        notifications: m.notifications,
    }
}

/// The tables after the `grouping` statement `t`: what it declares inside,
/// in the scope of its name, and then the grouping itself, filed under the
/// scope it stands in and its name.
pub open spec fn walk_grouping(
    t: ParseTreeView,
    path: Seq<char>,
    prefix: Option<Seq<char>>,
    refs: ReferenceNodesView,
) -> ReferenceNodesView
    decreases t, 1nat,
{
    let cs = t.children;
    let name = name_of(cs);
    let (m, r) = members_of(cs, child_path(path, name), prefix, refs);
    r.with_grouping(path_key(path, name), grouping_of(cs, m))
}

/// What the statement under the `body` node `t` adds: a data-tree node is
/// given as the node of the body that it becomes; a reference target goes to
/// the tables and gives no node.
pub open spec fn walk_body(
    t: ParseTreeView,
    path: Seq<char>,
    prefix: Option<Seq<char>>,
    refs: ReferenceNodesView,
) -> (Option<SchemaNodeView>, ReferenceNodesView) {
    if t.children.len() >= 1 {
        let c = t.children[0];
        match c.rule {
            Rule::DataDef => {
                let (x, r) = walk_data_def(c, path, prefix, refs);
                (Some(SchemaNodeView::DataDef(x)), r)
            },
            Rule::Rpc => {
                let (x, r) = walk_rpc(c, path, prefix, refs);
                (Some(SchemaNodeView::Rpc(x)), r)
            },
            Rule::Notification => {
                let (x, r) = walk_notification(c, path, prefix, refs);
                (Some(SchemaNodeView::Notification(x)), r)
            },
            Rule::Extension => (None, refs.with_extension(ExtensionView::of(c))),
            Rule::Feature => (
                None,
                refs.with_feature(path_key(path, name_of(c.children)), FeatureView::of(c)),
            ),
            Rule::Identity => (
                None,
                refs.with_identity(path_key(path, name_of(c.children)), IdentityView::of(c)),
            ),
            Rule::TypeDef => (
                None,
                refs.with_type_def(path_key(path, name_of(c.children)), TypeDefView::of(c)),
            ),
            Rule::Augment => (None, walk_augment(c, path, prefix, refs)),
            Rule::Deviation => (None, refs.with_deviation(DeviationView::of(c))),
            Rule::Grouping => (None, walk_grouping(c, path, prefix, refs)),
            _ => (None, refs),
        }
    } else {
        (None, refs)
    }
}

/// What reading the children of a module or submodule has come to: the nodes
/// of the body so far, the `belongs-to` prefix in force, and the tables.
pub ghost struct TopView {
    pub body: Seq<SchemaNodeView>,
    pub prefix: Option<Seq<char>>,
    pub refs: ReferenceNodesView,
}

/// What one child `c` of a module or submodule adds: a `body` child adds what
/// [`walk_body`] says, a `belongs-to` child puts its prefix in force for
/// what follows, and any other child adds nothing here.
pub open spec fn walk_top_child(c: ParseTreeView, path: Seq<char>, top: TopView) -> TopView {
    match c.rule {
        Rule::Body => {
            let (node, r) = walk_body(c, path, top.prefix, top.refs);
            match node {
                Some(n) => TopView { body: top.body.push(n), refs: r, ..top },
                None => TopView { refs: r, ..top },
            }
        },
        Rule::BelongsTo => TopView { prefix: Some(BelongsToView::of(c).prefix), ..top },
        _ => top,
    }
}

/// What the children `cs` of a module or submodule add, one after the other
/// in their order.
pub open spec fn walk_top(cs: Seq<ParseTreeView>, path: Seq<char>, top: TopView) -> TopView
    decreases cs.len(),
{
    if cs.len() == 0 {
        top
    } else {
        walk_top_child(cs.last(), path, walk_top(cs.drop_last(), path, top))
    }
}

} // verus!
