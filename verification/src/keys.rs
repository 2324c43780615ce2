//! The keys under which the walker files reference targets are absolute
//! paths: each starts at the root, with a slash.

use crate::grammar::Rule;
use crate::parser::{top_of, walk_file, YangParserView};
use crate::path::{child_path, is_scope_path, path_key};
use crate::resolution::{input_scope, output_scope};
use crate::tree::ParseTreeView;
use crate::values::name_of;
use crate::walk::{
    members_of, walk_action, walk_augment, walk_body, walk_choice, walk_container, walk_data_def,
    walk_grouping, walk_input, walk_list, walk_long_case, walk_member, walk_members,
    walk_notification, walk_output, walk_rpc, walk_short_case, walk_top, walk_top_child,
    walk_uses, MembersView, TopView,
};
use crate::yang::ReferenceNodesView;
use vstd::prelude::*;

verus! {

/// An absolute path: it starts with a slash.
pub open spec fn is_absolute(key: Seq<char>) -> bool {
    key.len() >= 1 && key[0] == '/'
}

/// Every key of the keyed tables is an absolute path.
pub open spec fn keys_are_absolute(refs: ReferenceNodesView) -> bool {
    &&& forall|k: Seq<char>| #[trigger] refs.groupings.contains_key(k) ==> is_absolute(k)
    &&& forall|k: Seq<char>| #[trigger] refs.type_defs.contains_key(k) ==> is_absolute(k)
    &&& forall|k: Seq<char>| #[trigger] refs.features.contains_key(k) ==> is_absolute(k)
    &&& forall|k: Seq<char>| #[trigger] refs.identities.contains_key(k) ==> is_absolute(k)
}

/// A scope inside a scope is a scope, and what is declared in a scope is
/// filed under an absolute path.
pub proof fn lemma_scope_paths(path: Seq<char>, name: Seq<char>)
    requires
        is_scope_path(path),
    ensures
        is_scope_path(child_path(path, name)),
        is_absolute(path_key(path, name)),
{
}

/// The data definition under a node leaves the keys absolute.
pub proof fn lemma_walk_data_def_keys(
    t: ParseTreeView,
    path: Seq<char>,
    prefix: Option<Seq<char>>,
    refs: ReferenceNodesView,
)
    requires
        is_scope_path(path),
        keys_are_absolute(refs),
    ensures
        keys_are_absolute(walk_data_def(t, path, prefix, refs).1),
    decreases t, 2nat,
{
    if t.children.len() >= 1 {
        let c = t.children[0];
        match c.rule {
            Rule::Container => lemma_walk_scoped_keys(c, path, prefix, refs),
            Rule::List => lemma_walk_scoped_keys(c, path, prefix, refs),
            Rule::Choice => lemma_walk_unscoped_keys(c, path, prefix, refs),
            Rule::Uses => lemma_walk_unscoped_keys(c, path, prefix, refs),
            _ => {},
        }
    }
}

/// The short case under a node leaves the keys absolute.
pub proof fn lemma_walk_short_case_keys(
    t: ParseTreeView,
    path: Seq<char>,
    prefix: Option<Seq<char>>,
    refs: ReferenceNodesView,
)
    requires
        is_scope_path(path),
        keys_are_absolute(refs),
    ensures
        keys_are_absolute(walk_short_case(t, path, prefix, refs).1),
    decreases t, 2nat,
{
    if t.children.len() >= 1 {
        let c = t.children[0];
        match c.rule {
            Rule::Container => lemma_walk_scoped_keys(c, path, prefix, refs),
            Rule::List => lemma_walk_scoped_keys(c, path, prefix, refs),
            Rule::Choice => lemma_walk_unscoped_keys(c, path, prefix, refs),
            _ => {},
        }
    }
}

/// A statement that opens the scope of its name leaves the keys absolute,
/// whichever such statement the node is read as.
pub proof fn lemma_walk_scoped_keys(
    t: ParseTreeView,
    path: Seq<char>,
    prefix: Option<Seq<char>>,
    refs: ReferenceNodesView,
)
    requires
        is_scope_path(path),
        keys_are_absolute(refs),
    ensures
        keys_are_absolute(walk_container(t, path, prefix, refs).1),
        keys_are_absolute(walk_list(t, path, prefix, refs).1),
        keys_are_absolute(walk_action(t, path, prefix, refs).1),
        keys_are_absolute(walk_notification(t, path, prefix, refs).1),
        keys_are_absolute(walk_rpc(t, path, prefix, refs).1),
        keys_are_absolute(walk_grouping(t, path, prefix, refs)),
        keys_are_absolute(walk_input(t, path, prefix, refs).1),
        keys_are_absolute(walk_output(t, path, prefix, refs).1),
    decreases t, 1nat,
{
    let name = name_of(t.children);
    lemma_scope_paths(path, name);
    lemma_scope_paths(path, input_scope());
    lemma_scope_paths(path, output_scope());
    lemma_members_keys(t.children, child_path(path, name), prefix, refs);
    lemma_members_keys(t.children, child_path(path, input_scope()), prefix, refs);
    lemma_members_keys(t.children, child_path(path, output_scope()), prefix, refs);
}

/// A statement that opens no scope leaves the keys absolute, whichever such
/// statement the node is read as.
pub proof fn lemma_walk_unscoped_keys(
    t: ParseTreeView,
    path: Seq<char>,
    prefix: Option<Seq<char>>,
    refs: ReferenceNodesView,
)
    requires
        is_scope_path(path),
        keys_are_absolute(refs),
    ensures
        keys_are_absolute(walk_choice(t, path, prefix, refs).1),
        keys_are_absolute(walk_long_case(t, path, prefix, refs).1),
        keys_are_absolute(walk_uses(t, path, prefix, refs).1),
        keys_are_absolute(walk_augment(t, path, prefix, refs)),
    decreases t, 1nat,
{
    lemma_members_keys(t.children, path, prefix, refs);
}

/// The members of a statement leave the keys absolute.
pub proof fn lemma_members_keys(
    cs: Seq<ParseTreeView>,
    path: Seq<char>,
    prefix: Option<Seq<char>>,
    refs: ReferenceNodesView,
)
    requires
        is_scope_path(path),
        keys_are_absolute(refs),
    ensures
        keys_are_absolute(members_of(cs, path, prefix, refs).1),
    decreases cs, 5nat,
{
    lemma_walk_members_keys(cs, path, prefix, MembersView::empty(), refs);
}

/// The children of a statement, one after the other, leave the keys absolute.
pub proof fn lemma_walk_members_keys(
    cs: Seq<ParseTreeView>,
    path: Seq<char>,
    prefix: Option<Seq<char>>,
    m: MembersView,
    refs: ReferenceNodesView,
)
    requires
        is_scope_path(path),
        keys_are_absolute(refs),
    ensures
        keys_are_absolute(walk_members(cs, path, prefix, m, refs).1),
    decreases cs, 4nat,
{
    if cs.len() > 0 {
        lemma_walk_members_keys(cs.drop_last(), path, prefix, m, refs);
        let (m1, r1) = walk_members(cs.drop_last(), path, prefix, m, refs);
        lemma_walk_member_keys(cs.last(), path, prefix, m1, r1);
    }
}

/// One child of a statement leaves the keys absolute.
pub proof fn lemma_walk_member_keys(
    c: ParseTreeView,
    path: Seq<char>,
    prefix: Option<Seq<char>>,
    m: MembersView,
    refs: ReferenceNodesView,
)
    requires
        is_scope_path(path),
        keys_are_absolute(refs),
    ensures
        keys_are_absolute(walk_member(c, path, prefix, m, refs).1),
    decreases c, 3nat,
{
    match c.rule {
        Rule::DataDef => lemma_walk_data_def_keys(c, path, prefix, refs),
        Rule::ShortCase => lemma_walk_short_case_keys(c, path, prefix, refs),
        Rule::Action | Rule::Notification | Rule::Input | Rule::Output | Rule::Grouping => {
            lemma_walk_scoped_keys(c, path, prefix, refs)
        },
        Rule::LongCase | Rule::Augment => lemma_walk_unscoped_keys(c, path, prefix, refs),
        Rule::TypeDef => lemma_scope_paths(path, name_of(c.children)),
        _ => {},
    }
}

/// The statement under a `body` node leaves the keys absolute.
pub proof fn lemma_walk_body_keys(
    t: ParseTreeView,
    path: Seq<char>,
    prefix: Option<Seq<char>>,
    refs: ReferenceNodesView,
)
    requires
        is_scope_path(path),
        keys_are_absolute(refs),
    ensures
        keys_are_absolute(walk_body(t, path, prefix, refs).1),
{
    if t.children.len() >= 1 {
        let c = t.children[0];
        lemma_scope_paths(path, name_of(c.children));
        match c.rule {
            Rule::DataDef => lemma_walk_data_def_keys(c, path, prefix, refs),
            Rule::Rpc | Rule::Notification | Rule::Grouping => lemma_walk_scoped_keys(
                c,
                path,
                prefix,
                refs,
            ),
            Rule::Augment => lemma_walk_unscoped_keys(c, path, prefix, refs),
            _ => {},
        }
    }
}

/// The children of a module or submodule leave the keys absolute.
pub proof fn lemma_walk_top_keys(cs: Seq<ParseTreeView>, path: Seq<char>, top: TopView)
    requires
        is_scope_path(path),
        keys_are_absolute(top.refs),
    ensures
        keys_are_absolute(walk_top(cs, path, top).refs),
    decreases cs.len(),
{
    if cs.len() > 0 {
        lemma_walk_top_keys(cs.drop_last(), path, top);
        let before = walk_top(cs.drop_last(), path, top);
        if cs.last().rule == Rule::Body {
            lemma_walk_body_keys(cs.last(), path, before.prefix, before.refs);
        }
        assert(walk_top(cs, path, top) == walk_top_child(cs.last(), path, before));
    }
}

/// Keys are absolute. A walker that stands in a scope and holds absolute
/// keys only, as a new walker does, holds absolute keys only after any file.
pub proof fn lemma_keys_stay_absolute(t: ParseTreeView, st: YangParserView)
    requires
        is_scope_path(st.current_path),
        keys_are_absolute(st.reference_nodes),
    ensures
        keys_are_absolute(walk_file(t, st).1.reference_nodes),
        is_scope_path(walk_file(t, st).1.current_path),
        keys_are_absolute(YangParserView::initial().reference_nodes),
        is_scope_path(YangParserView::initial().current_path),
{
    lemma_walk_top_keys(
        t.children,
        st.current_path,
        TopView { body: Seq::empty(), prefix: st.belongs_to_prefix, refs: st.reference_nodes },
    );
    assert(top_of(t.children, st).refs == walk_top(
        t.children,
        st.current_path,
        TopView { body: Seq::empty(), prefix: st.belongs_to_prefix, refs: st.reference_nodes },
    ).refs);
}

} // verus!
