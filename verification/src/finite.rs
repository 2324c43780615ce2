//! The tables stay finite: the walker adds to them one entry at a time, and
//! the loader one module at a time. Resolution counts on it: it ends because
//! only finitely many groupings can be under expansion at once.

use crate::grammar::Rule;
use crate::parser::{top_of, walk_file, YangParserView};
use crate::path::child_path;
use crate::resolution::{input_scope, output_scope};
use crate::resolver::{held_groupings, holds_grouping, GroupingIdView, ReferenceResolverView};
use crate::tree::ParseTreeView;
use crate::values::name_of;
use crate::walk::{
    members_of, walk_action, walk_augment, walk_body, walk_choice, walk_container, walk_data_def,
    walk_grouping, walk_input, walk_list, walk_long_case, walk_member, walk_members,
    walk_notification, walk_output, walk_rpc, walk_short_case, walk_top, walk_top_child, walk_uses,
    MembersView, TopView,
};
use crate::yang::{GroupingView, ReferenceNodesView};
use vstd::prelude::*;

verus! {

/// The table of groupings is finite.
pub open spec fn groupings_are_finite(refs: ReferenceNodesView) -> bool {
    refs.groupings.dom().finite()
}

/// The groupings of the module at hand, as the resolver names them.
pub open spec fn local_ids(groupings: Map<Seq<char>, GroupingView>) -> Set<GroupingIdView> {
    Set::new(|id: GroupingIdView| id.module is None && groupings.contains_key(id.key))
}

/// The groupings of the imported module `module`, as the resolver names them.
pub open spec fn module_ids(module: Seq<char>, groupings: Map<Seq<char>, GroupingView>) -> Set<
    GroupingIdView,
> {
    Set::new(|id: GroupingIdView| id.module == Some(module) && groupings.contains_key(id.key))
}

/// The groupings of all imported modules, as the resolver names them.
pub open spec fn imported_ids(imported: Map<Seq<char>, ReferenceNodesView>) -> Set<GroupingIdView> {
    Set::new(
        |id: GroupingIdView|
            id.module matches Some(module) && imported.contains_key(module)
                && imported[module].groupings.contains_key(id.key),
    )
}

/// A finite table holds finitely many groupings, under either kind of name.
pub proof fn lemma_ids_of_a_finite_table(module: Seq<char>, groupings: Map<Seq<char>, GroupingView>)
    requires
        groupings.dom().finite(),
    ensures
        local_ids(groupings).finite(),
        module_ids(module, groupings).finite(),
{
    let local = |k: Seq<char>| GroupingIdView { module: None, key: k };
    let far = |k: Seq<char>| GroupingIdView { module: Some(module), key: k };
    groupings.dom().lemma_map_finite(local);
    groupings.dom().lemma_map_finite(far);
    assert forall|id: GroupingIdView| local_ids(groupings).contains(id) implies groupings.dom().map(
        local,
    ).contains(id) by {
        assert(groupings.dom().contains(id.key) && local(id.key) == id);
    }
    assert(local_ids(groupings).subset_of(groupings.dom().map(local)));
    vstd::set_lib::lemma_set_subset_finite(groupings.dom().map(local), local_ids(groupings));
    assert forall|id: GroupingIdView| module_ids(module, groupings).contains(
        id,
    ) implies groupings.dom().map(far).contains(id) by {
        assert(groupings.dom().contains(id.key) && far(id.key) == id);
    }
    assert(module_ids(module, groupings).subset_of(groupings.dom().map(far)));
    vstd::set_lib::lemma_set_subset_finite(groupings.dom().map(far), module_ids(module, groupings));
}

/// No imported modules hold no groupings.
pub proof fn lemma_imported_ids_empty()
    ensures
        imported_ids(Map::empty()).finite(),
{
    assert(imported_ids(Map::empty()) =~= Set::empty());
}

/// One more imported module, with a finite table, leaves the groupings of
/// the imported modules finite.
pub proof fn lemma_imported_ids_insert(
    imported: Map<Seq<char>, ReferenceNodesView>,
    module: Seq<char>,
    refs: ReferenceNodesView,
)
    requires
        imported_ids(imported).finite(),
        groupings_are_finite(refs),
    ensures
        imported_ids(imported.insert(module, refs)).finite(),
{
    lemma_ids_of_a_finite_table(module, refs.groupings);
    let all = imported_ids(imported).union(module_ids(module, refs.groupings));
    assert(imported_ids(imported.insert(module, refs)).subset_of(all));
    vstd::set_lib::lemma_set_subset_finite(all, imported_ids(imported.insert(module, refs)));
}

/// Finite tables make a finite resolver.
pub proof fn lemma_resolver_is_finite(r: ReferenceResolverView)
    requires
        groupings_are_finite(r.reference_nodes),
        imported_ids(r.imported_modules).finite(),
    ensures
        r.is_finite(),
{
    lemma_ids_of_a_finite_table(Seq::empty(), r.reference_nodes.groupings);
    let all = local_ids(r.reference_nodes.groupings).union(imported_ids(r.imported_modules));
    assert(held_groupings(r).subset_of(all)) by {
        assert forall|id: GroupingIdView| held_groupings(r).contains(id) implies all.contains(
            id,
        ) by {
            assert(holds_grouping(r, id));
        }
    }
    vstd::set_lib::lemma_set_subset_finite(all, held_groupings(r));
}

/// The data definition under a node leaves the table of groupings finite.
pub proof fn lemma_walk_data_def_finite(
    t: ParseTreeView,
    path: Seq<char>,
    prefix: Option<Seq<char>>,
    refs: ReferenceNodesView,
)
    requires
        groupings_are_finite(refs),
    ensures
        groupings_are_finite(walk_data_def(t, path, prefix, refs).1),
    decreases t, 2nat,
{
    if t.children.len() >= 1 {
        let c = t.children[0];
        match c.rule {
            Rule::Container => lemma_walk_scoped_finite(c, path, prefix, refs),
            Rule::List => lemma_walk_scoped_finite(c, path, prefix, refs),
            Rule::Choice => lemma_walk_unscoped_finite(c, path, prefix, refs),
            Rule::Uses => lemma_walk_unscoped_finite(c, path, prefix, refs),
            _ => {},
        }
    }
}

/// The short case under a node leaves the table of groupings finite.
pub proof fn lemma_walk_short_case_finite(
    t: ParseTreeView,
    path: Seq<char>,
    prefix: Option<Seq<char>>,
    refs: ReferenceNodesView,
)
    requires
        groupings_are_finite(refs),
    ensures
        groupings_are_finite(walk_short_case(t, path, prefix, refs).1),
    decreases t, 2nat,
{
    if t.children.len() >= 1 {
        let c = t.children[0];
        match c.rule {
            Rule::Container => lemma_walk_scoped_finite(c, path, prefix, refs),
            Rule::List => lemma_walk_scoped_finite(c, path, prefix, refs),
            Rule::Choice => lemma_walk_unscoped_finite(c, path, prefix, refs),
            _ => {},
        }
    }
}

/// A statement that opens the scope of its name leaves the table of groupings finite,
/// whichever such statement the node is read as.
pub proof fn lemma_walk_scoped_finite(
    t: ParseTreeView,
    path: Seq<char>,
    prefix: Option<Seq<char>>,
    refs: ReferenceNodesView,
)
    requires
        groupings_are_finite(refs),
    ensures
        groupings_are_finite(walk_container(t, path, prefix, refs).1),
        groupings_are_finite(walk_list(t, path, prefix, refs).1),
        groupings_are_finite(walk_action(t, path, prefix, refs).1),
        groupings_are_finite(walk_notification(t, path, prefix, refs).1),
        groupings_are_finite(walk_rpc(t, path, prefix, refs).1),
        groupings_are_finite(walk_grouping(t, path, prefix, refs)),
        groupings_are_finite(walk_input(t, path, prefix, refs).1),
        groupings_are_finite(walk_output(t, path, prefix, refs).1),
    decreases t, 1nat,
{
    let name = name_of(t.children);
    lemma_members_finite(t.children, child_path(path, name), prefix, refs);
    lemma_members_finite(t.children, child_path(path, input_scope()), prefix, refs);
    lemma_members_finite(t.children, child_path(path, output_scope()), prefix, refs);
}

/// A statement that opens no scope leaves the table of groupings finite, whichever such
/// statement the node is read as.
pub proof fn lemma_walk_unscoped_finite(
    t: ParseTreeView,
    path: Seq<char>,
    prefix: Option<Seq<char>>,
    refs: ReferenceNodesView,
)
    requires
        groupings_are_finite(refs),
    ensures
        groupings_are_finite(walk_choice(t, path, prefix, refs).1),
        groupings_are_finite(walk_long_case(t, path, prefix, refs).1),
        groupings_are_finite(walk_uses(t, path, prefix, refs).1),
        groupings_are_finite(walk_augment(t, path, prefix, refs)),
    decreases t, 1nat,
{
    lemma_members_finite(t.children, path, prefix, refs);
}

/// The members of a statement leave the table of groupings finite.
pub proof fn lemma_members_finite(
    cs: Seq<ParseTreeView>,
    path: Seq<char>,
    prefix: Option<Seq<char>>,
    refs: ReferenceNodesView,
)
    requires
        groupings_are_finite(refs),
    ensures
        groupings_are_finite(members_of(cs, path, prefix, refs).1),
    decreases cs, 5nat,
{
    lemma_walk_members_finite(cs, path, prefix, MembersView::empty(), refs);
}

/// The children of a statement, one after the other, leave the table of groupings finite.
pub proof fn lemma_walk_members_finite(
    cs: Seq<ParseTreeView>,
    path: Seq<char>,
    prefix: Option<Seq<char>>,
    m: MembersView,
    refs: ReferenceNodesView,
)
    requires
        groupings_are_finite(refs),
    ensures
        groupings_are_finite(walk_members(cs, path, prefix, m, refs).1),
    decreases cs, 4nat,
{
    if cs.len() > 0 {
        lemma_walk_members_finite(cs.drop_last(), path, prefix, m, refs);
        let (m1, r1) = walk_members(cs.drop_last(), path, prefix, m, refs);
        lemma_walk_member_finite(cs.last(), path, prefix, m1, r1);
    }
}

/// One child of a statement leaves the table of groupings finite.
pub proof fn lemma_walk_member_finite(
    c: ParseTreeView,
    path: Seq<char>,
    prefix: Option<Seq<char>>,
    m: MembersView,
    refs: ReferenceNodesView,
)
    requires
        groupings_are_finite(refs),
    ensures
        groupings_are_finite(walk_member(c, path, prefix, m, refs).1),
    decreases c, 3nat,
{
    match c.rule {
        Rule::DataDef => lemma_walk_data_def_finite(c, path, prefix, refs),
        Rule::ShortCase => lemma_walk_short_case_finite(c, path, prefix, refs),
        Rule::Action | Rule::Notification | Rule::Input | Rule::Output | Rule::Grouping => {
            lemma_walk_scoped_finite(c, path, prefix, refs)
        },
        Rule::LongCase | Rule::Augment => lemma_walk_unscoped_finite(c, path, prefix, refs),
        _ => {},
    }
}

/// The statement under a `body` node leaves the table of groupings finite.
pub proof fn lemma_walk_body_finite(
    t: ParseTreeView,
    path: Seq<char>,
    prefix: Option<Seq<char>>,
    refs: ReferenceNodesView,
)
    requires
        groupings_are_finite(refs),
    ensures
        groupings_are_finite(walk_body(t, path, prefix, refs).1),
{
    if t.children.len() >= 1 {
        let c = t.children[0];
        match c.rule {
            Rule::DataDef => lemma_walk_data_def_finite(c, path, prefix, refs),
            Rule::Rpc | Rule::Notification | Rule::Grouping => lemma_walk_scoped_finite(
                c,
                path,
                prefix,
                refs,
            ),
            Rule::Augment => lemma_walk_unscoped_finite(c, path, prefix, refs),
            _ => {},
        }
    }
}

/// The children of a module or submodule leave the table of groupings finite.
pub proof fn lemma_walk_top_finite(cs: Seq<ParseTreeView>, path: Seq<char>, top: TopView)
    requires
        groupings_are_finite(top.refs),
    ensures
        groupings_are_finite(walk_top(cs, path, top).refs),
    decreases cs.len(),
{
    if cs.len() > 0 {
        lemma_walk_top_finite(cs.drop_last(), path, top);
        let before = walk_top(cs.drop_last(), path, top);
        if cs.last().rule == Rule::Body {
            lemma_walk_body_finite(cs.last(), path, before.prefix, before.refs);
        }
        assert(walk_top(cs, path, top) == walk_top_child(cs.last(), path, before));
    }
}

/// The walker leaves the table of groupings finite, whatever file it reads.
pub proof fn lemma_walk_file_finite(t: ParseTreeView, st: YangParserView)
    requires
        groupings_are_finite(st.reference_nodes),
    ensures
        groupings_are_finite(walk_file(t, st).1.reference_nodes),
        groupings_are_finite(YangParserView::initial().reference_nodes),
{
    lemma_walk_top_finite(
        t.children,
        st.current_path,
        TopView { body: Seq::empty(), prefix: st.belongs_to_prefix, refs: st.reference_nodes },
    );
    assert(top_of(t.children, st).refs == walk_top(
        t.children,
        st.current_path,
        TopView { body: Seq::empty(), prefix: st.belongs_to_prefix, refs: st.reference_nodes },
    ).refs);
}

} // verus!
