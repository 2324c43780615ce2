//! Resolution of `uses` references: every `uses` whose grouping is found is
//! replaced, where it stands, by the data definitions of that grouping.

use crate::finite::{
    groupings_are_finite, imported_ids, lemma_imported_ids_empty, lemma_resolver_is_finite,
};
use crate::path::{
    ascend, ascend_path, chars_of, child_path, child_path_string, is_scope_path,
    is_scope_path_string, lemma_ascend_scope_path, path_key, path_key_string, root_path,
    root_path_string,
};
use crate::resolution::{
    as_schema_nodes, expand_body, expand_data_def, input_scope, lemma_resolve_body_push,
    lemma_resolve_data_defs_empty, lemma_resolve_data_defs_push, output_scope, resolve_action,
    resolve_action_at, resolve_actions, resolve_augment, resolve_body, resolve_case,
    resolve_case_at, resolve_cases, resolve_choice, resolve_container, resolve_data_def,
    resolve_data_defs, resolve_input, resolve_list, resolve_long_case, resolve_module,
    resolve_notification, resolve_notification_at, resolve_notifications, resolve_output,
    resolve_rpc, resolve_schema_node, resolve_short_case,
};
use crate::text::str_equal;
use crate::yang::{
    actions_view, cases_view, data_defs_view, notifications_view, Action, Augment, Case, Choice,
    Container, DataDef, Grouping, GroupingView, Input, List, LongCase, Module, Notification, Output,
    ReferenceNodes, ReferenceNodesView, Rpc, SchemaNode, SchemaNodeView, ShortCase,
};
use vstd::hash_map::StringHashMap;
use vstd::prelude::*;

verus! {

/// The tables that references are resolved against: those of the module at
/// hand, those of the modules it imports, by module name, and the module that
/// each import prefix stands for.
pub struct ReferenceResolver {
    pub reference_nodes: ReferenceNodes,
    pub imported_modules: StringHashMap<ReferenceNodes>,
    pub prefix_to_module: StringHashMap<String>,
}

/// What a [`ReferenceResolver`] holds, as a mathematical value.
pub ghost struct ReferenceResolverView {
    pub reference_nodes: ReferenceNodesView,
    pub imported_modules: Map<Seq<char>, ReferenceNodesView>,
    pub prefix_to_module: Map<Seq<char>, Seq<char>>,
}

impl View for ReferenceResolver {
    type V = ReferenceResolverView;

    open spec fn view(&self) -> ReferenceResolverView {
        ReferenceResolverView {
            reference_nodes: self.reference_nodes@,
            imported_modules: self.imported_modules@.map_values(|x: ReferenceNodes| x@),
            prefix_to_module: self.prefix_to_module@.map_values(|x: String| x@),
        }
    }
}

/// The index of the first `c` in `s`, if there is one.
pub open spec fn find_char(s: Seq<char>, c: char) -> Option<int>
    decreases s.len(),
{
    if s.len() == 0 {
        None
    } else if s[0] == c {
        Some(0int)
    } else {
        match find_char(s.drop_first(), c) {
            Some(i) => Some(i + 1),
            None => None,
        }
    }
}

/// `find_char` gives the least index that holds `c`, and `None` only where
/// `c` does not occur.
pub proof fn lemma_find_char(s: Seq<char>, c: char)
    ensures
        match find_char(s, c) {
            Some(i) => 0 <= i < s.len() && s[i] == c && forall|k: int| 0 <= k < i ==> s[k] != c,
            None => forall|k: int| 0 <= k < s.len() ==> s[k] != c,
        },
    decreases s.len(),
{
    if s.len() > 0 && s[0] != c {
        let t = s.drop_first();
        lemma_find_char(t, c);
        match find_char(t, c) {
            Some(i) => {
                assert forall|k: int| 0 <= k < i + 1 implies s[k] != c by {
                    if k > 0 {
                        assert(t[k - 1] == s[k]);
                    }
                }
            },
            None => {
                assert forall|k: int| 0 <= k < s.len() implies s[k] != c by {
                    if k > 0 {
                        assert(t[k - 1] == s[k]);
                    }
                }
            },
        }
    }
}

/// Which grouping: the module whose tables hold it, where that is an
/// imported module, and the key it is filed under there.
#[derive(Debug, PartialEq, Eq)]
pub struct GroupingId {
    pub module: Option<String>,
    pub key: String,
}

/// What a [`GroupingId`] holds, as a mathematical value.
pub ghost struct GroupingIdView {
    pub module: Option<Seq<char>>,
    pub key: Seq<char>,
}

impl View for GroupingId {
    type V = GroupingIdView;

    open spec fn view(&self) -> GroupingIdView {
        GroupingIdView { module: self.module.deep_view(), key: self.key@ }
    }
}

impl DeepView for GroupingId {
    type V = GroupingIdView;

    open spec fn deep_view(&self) -> GroupingIdView {
        self@
    }
}

impl Clone for GroupingId {
    fn clone(&self) -> (res: Self)
        ensures
            res@ == self@,
    {
        GroupingId { module: self.module.clone(), key: self.key.clone() }
    }
}

/// Lexical lookup of `name` in the tables of one module: the scope `path`
/// first, then each enclosing scope in turn, up to the root. Gives the key
/// under which the grouping is filed.
pub open spec fn locate_local_grouping(
    groupings: Map<Seq<char>, GroupingView>,
    name: Seq<char>,
    path: Seq<char>,
) -> Option<Seq<char>>
    decreases path.len(),
{
    if groupings.contains_key(path_key(path, name)) {
        Some(path_key(path, name))
    } else if path.len() <= 1 || !is_scope_path(path) {
        None
    } else {
        proof {
            lemma_ascend_scope_path(path);
        }
        locate_local_grouping(groupings, name, ascend(path))
    }
}

/// Lookup of `prefix:name` through the import tables: the grouping `name` at
/// the top level of the module that `prefix` stands for.
pub open spec fn locate_imported_grouping(
    r: ReferenceResolverView,
    prefix: Seq<char>,
    name: Seq<char>,
) -> Option<GroupingIdView> {
    if r.prefix_to_module.contains_key(prefix) {
        let module = r.prefix_to_module[prefix];
        let key = path_key(root_path(), name);
        if r.imported_modules.contains_key(module)
            && r.imported_modules[module].groupings.contains_key(key) {
            Some(GroupingIdView { module: Some(module), key })
        } else {
            None
        }
    } else {
        None
    }
}

/// Where the grouping is that a `uses` of `name` written in the scope `path`
/// refers to. A name with a colon is `prefix:name` and goes through the
/// imports; any other name is looked up lexically in the module's own tables.
pub open spec fn locate_grouping(
    r: ReferenceResolverView,
    name: Seq<char>,
    path: Seq<char>,
) -> Option<GroupingIdView> {
    match find_char(name, ':') {
        Some(i) => locate_imported_grouping(
            r,
            name.subrange(0, i),
            name.subrange(i + 1, name.len() as int),
        ),
        None => match locate_local_grouping(r.reference_nodes.groupings, name, path) {
            Some(key) => Some(GroupingIdView { module: None, key }),
            None => None,
        },
    }
}

/// The tables hold a grouping at `id`.
pub open spec fn holds_grouping(r: ReferenceResolverView, id: GroupingIdView) -> bool {
    match id.module {
        Some(module) => r.imported_modules.contains_key(module)
            && r.imported_modules[module].groupings.contains_key(id.key),
        None => r.reference_nodes.groupings.contains_key(id.key),
    }
}

/// The groupings that the tables hold.
pub open spec fn held_groupings(r: ReferenceResolverView) -> Set<GroupingIdView> {
    Set::new(|id: GroupingIdView| holds_grouping(r, id))
}

impl ReferenceResolverView {
    /// The tables hold finitely many groupings, as every table built from
    /// an empty one by insertions does.
    pub open spec fn is_finite(self) -> bool {
        held_groupings(self).finite()
    }
}

/// The groupings that the tables hold and that are not under expansion.
pub open spec fn expandable(r: ReferenceResolverView, active: Seq<GroupingIdView>) -> Set<
    GroupingIdView,
> {
    Set::new(|id: GroupingIdView| holds_grouping(r, id) && !active.contains(id))
}

/// How many groupings are held and not under expansion.
pub open spec fn unexpanded(r: ReferenceResolverView, active: Seq<GroupingIdView>) -> nat {
    expandable(r, active).len()
}

/// Taking a grouping under expansion leaves fewer to expand.
pub proof fn lemma_unexpanded_decreases(
    r: ReferenceResolverView,
    active: Seq<GroupingIdView>,
    id: GroupingIdView,
)
    requires
        r.is_finite(),
        holds_grouping(r, id),
        !active.contains(id),
    ensures
        unexpanded(r, active.push(id)) < unexpanded(r, active),
{
    let before = expandable(r, active);
    let after = expandable(r, active.push(id));
    assert(before.subset_of(held_groupings(r)));
    vstd::set_lib::lemma_set_subset_finite(held_groupings(r), before);
    assert(before.contains(id));
    assert(active.push(id)[active.len() as int] == id);
    assert forall|x: GroupingIdView| after.contains(x) <==> before.remove(id).contains(x) by {
        if active.push(id).contains(x) && x != id {
            let k = choose|k: int| 0 <= k < active.push(id).len() && active.push(id)[k] == x;
            assert(active[k] == x);
        }
        if active.contains(x) {
            let k = choose|k: int| 0 <= k < active.len() && active[k] == x;
            assert(active.push(id)[k] == x);
        }
    }
    assert(after =~= before.remove(id));
}

/// The grouping that the tables hold at `id`.
pub open spec fn grouping_at(r: ReferenceResolverView, id: GroupingIdView) -> GroupingView
    recommends
        holds_grouping(r, id),
{
    match id.module {
        Some(module) => r.imported_modules[module].groupings[id.key],
        None => r.reference_nodes.groupings[id.key],
    }
}

/// The grouping that a `uses` of `name` written in the scope `path` refers to.
pub open spec fn find_grouping(
    r: ReferenceResolverView,
    name: Seq<char>,
    path: Seq<char>,
) -> Option<
    GroupingView,
> {
    match locate_grouping(r, name, path) {
        Some(id) => Some(grouping_at(r, id)),
        None => None,
    }
}

/// What is located is there.
pub proof fn lemma_located_grouping_is_held(
    r: ReferenceResolverView,
    name: Seq<char>,
    path: Seq<char>,
)
    ensures
        locate_grouping(r, name, path) matches Some(id) ==> holds_grouping(r, id),
{
    if find_char(name, ':') is None {
        lemma_located_local(r.reference_nodes.groupings, name, path);
    }
}

/// A key that the lexical lookup gives is a key of the table.
pub proof fn lemma_located_local(
    groupings: Map<Seq<char>, GroupingView>,
    name: Seq<char>,
    path: Seq<char>,
)
    ensures
        locate_local_grouping(groupings, name, path) matches Some(key) ==> groupings.contains_key(
            key,
        ),
    decreases path.len(),
{
    if !groupings.contains_key(path_key(path, name)) && path.len() > 1 && is_scope_path(path) {
        lemma_ascend_scope_path(path);
        lemma_located_local(groupings, name, ascend(path));
    }
}

/// Whether `ids` holds `id`.
pub fn contains_id(ids: &Vec<GroupingId>, id: &GroupingId) -> (res: bool)
    ensures
        res == ids.deep_view().contains(id@),
{
    let mut i: usize = 0;
    while i < ids.len()
        invariant
            i <= ids.len(),
            forall|k: int| 0 <= k < i ==> ids.deep_view()[k] != id@,
        decreases ids.len() - i,
    {
        let same_module = match (&ids[i].module, &id.module) {
            (Some(a), Some(b)) => str_equal(a.as_str(), b.as_str()),
            (None, None) => true,
            _ => false,
        };
        if same_module && str_equal(ids[i].key.as_str(), id.key.as_str()) {
            assert(ids.deep_view()[i as int] == id@);
            return true;
        }
        i += 1;
    }
    false
}

impl ReferenceResolver {
    /// A resolver over the given tables. It is finite where the tables are:
    /// tables of a module built by insertion and, for the imported modules,
    /// none at all or finitely many groupings in all.
    pub fn new(
        reference_nodes: ReferenceNodes,
        imported_modules: StringHashMap<ReferenceNodes>,
        prefix_to_module: StringHashMap<String>,
    ) -> (res: Self)
        ensures
            res.reference_nodes == reference_nodes,
            res.imported_modules == imported_modules,
            res.prefix_to_module == prefix_to_module,
            groupings_are_finite(reference_nodes@) && imported_modules@ == Map::<
                Seq<char>,
                ReferenceNodes,
            >::empty() ==> res@.is_finite(),
            groupings_are_finite(reference_nodes@) && imported_ids(res@.imported_modules).finite()
                ==> res@.is_finite(),
    {
        let res = ReferenceResolver { reference_nodes, imported_modules, prefix_to_module };
        proof {
            if groupings_are_finite(reference_nodes@) {
                if imported_modules@ == Map::<Seq<char>, ReferenceNodes>::empty() {
                    assert(res@.imported_modules =~= Map::empty());
                    lemma_imported_ids_empty();
                }
                if imported_ids(res@.imported_modules).finite() {
                    lemma_resolver_is_finite(res@);
                }
            }
        }
        res
    }

    /// Looks `grouping_name` up from the scope `current_path`.
    pub fn find_grouping(&self, grouping_name: &str, current_path: &str) -> (res: Option<&Grouping>)
        ensures
            match res {
                Some(g) => find_grouping(self@, grouping_name@, current_path@) == Some(g@),
                None => find_grouping(self@, grouping_name@, current_path@) is None,
            },
    {
        match self.locate_grouping(grouping_name, current_path) {
            Some(id) => Some(self.grouping_at(&id)),
            None => None,
        }
    }

    /// Says where the grouping is that `grouping_name` refers to from the
    /// scope `current_path`.
    pub fn locate_grouping(
        &self,
        grouping_name: &str,
        current_path: &str,
    ) -> (res: Option<GroupingId>)
        ensures
            res.deep_view() == locate_grouping(self@, grouping_name@, current_path@),
            res matches Some(id) ==> holds_grouping(self@, id@),
    {
        proof {
            lemma_located_grouping_is_held(self@, grouping_name@, current_path@);
        }
        let chars = chars_of(grouping_name);
        let mut i: usize = 0;
        while i < chars.len()
            invariant
                chars@ == grouping_name@,
                i <= chars.len(),
                forall|k: int| 0 <= k < i ==> chars[k] != ':',
            decreases chars.len() - i,
        {
            if chars[i] == ':' {
                proof {
                    lemma_find_char(grouping_name@, ':');
                }
                let prefix = grouping_name.substring_char(0, i);
                let name = grouping_name.substring_char(i + 1, chars.len());
                return self.locate_imported(prefix, name);
            }
            i += 1;
        }
        proof {
            lemma_find_char(grouping_name@, ':');
        }
        match self.locate_local(grouping_name, current_path) {
            Some(key) => Some(GroupingId { module: None, key }),
            None => None,
        }
    }

    /// The grouping that the tables hold at `id`.
    pub fn grouping_at(&self, id: &GroupingId) -> (res: &Grouping)
        requires
            holds_grouping(self@, id@),
        ensures
            res@ == grouping_at(self@, id@),
    {
        match &id.module {
            Some(module) => {
                let nodes = self.imported_modules.get(module.as_str());
                let found = nodes.unwrap().groupings.get(id.key.as_str());
                found.unwrap()
            },
            None => {
                let found = self.reference_nodes.groupings.get(id.key.as_str());
                found.unwrap()
            },
        }
    }

    /// Looks `name` up at the top level of the module that `prefix` stands for.
    pub fn locate_imported(&self, prefix: &str, name: &str) -> (res: Option<GroupingId>)
        ensures
            res.deep_view() == locate_imported_grouping(self@, prefix@, name@),
    {
        match self.prefix_to_module.get(prefix) {
            Some(module_name) => match self.imported_modules.get(module_name.as_str()) {
                Some(ref_nodes) => {
                    let key = path_key_string(root_path_string().as_str(), name);
                    if ref_nodes.groupings.contains_key(key.as_str()) {
                        Some(GroupingId { module: Some(module_name.clone()), key })
                    } else {
                        None
                    }
                },
                None => None,
            },
            None => None,
        }
    }

    /// Looks `name` up in the module's own tables, from the scope `current_path`
    /// outwards, and gives the key it is filed under.
    pub fn locate_local(&self, name: &str, current_path: &str) -> (res: Option<String>)
        ensures
            res.deep_view() == locate_local_grouping(
                self@.reference_nodes.groupings,
                name@,
                current_path@,
            ),
    {
        let ghost groupings = self@.reference_nodes.groupings;
        let mut search_path = current_path.to_owned();
        loop
            invariant
                groupings == self@.reference_nodes.groupings,
                locate_local_grouping(groupings, name@, search_path@) == locate_local_grouping(
                    groupings,
                    name@,
                    current_path@,
                ),
            decreases search_path@.len(),
        {
            let key = path_key_string(search_path.as_str(), name);
            if self.reference_nodes.groupings.contains_key(key.as_str()) {
                return Some(key);
            }
            if search_path.as_str().unicode_len() <= 1 || !is_scope_path_string(
                search_path.as_str(),
            ) {
                return None;
            }
            proof {
                lemma_ascend_scope_path(search_path@);
            }
            search_path = ascend_path(search_path.as_str());
        }
    }

    /// Resolves the references in the body of `module`: every `uses` whose
    /// grouping is found is replaced by the data definitions of that grouping,
    /// themselves resolved; all else stays, in its order. Only a `uses` of a
    /// grouping inside the expansion of that same grouping is left as it is,
    /// for it would expand without end.
    ///
    /// The tables are to be finite, as tables built by insertion are: see
    /// `lemma_resolver_is_finite`.
    pub fn resolve_references(&self, module: &mut Module)
        requires
            self@.is_finite(),
        ensures
            final(module)@ == resolve_module(self@, old(module)@),
    {
        let active: Vec<GroupingId> = Vec::new();
        assert(active.deep_view() =~= Seq::empty());
        let body = self.resolve_body(&module.body, &active);
        module.body = body;
    }

    /// The body of a module, resolved.
    pub fn resolve_body(
        &self,
        body: &Vec<SchemaNode>,
        active: &Vec<GroupingId>,
    ) -> (res: Vec<SchemaNode>)
        requires
            self@.is_finite(),
        ensures
            res.deep_view() == resolve_body(
                self@,
                body.deep_view(),
                active.deep_view(),
            ),
    {
        let ghost nodes = body.deep_view();
        let root = root_path_string();
        let mut out: Vec<SchemaNode> = Vec::new();
        let mut i: usize = 0;
        proof {
            assert(nodes.take(0) =~= Seq::empty());
            assert(
                expand_body(self@, Seq::empty(), active.deep_view()) =~= Seq::empty()
            );
            assert(out.deep_view() =~= Seq::empty());
        }
        while i < body.len()
            invariant
                self@.is_finite(),
                i <= body.len(),
                nodes == body.deep_view(),
                root@ == root_path(),
                out.deep_view() == resolve_body(
                    self@,
                    nodes.take(i as int),
                    active.deep_view(),
                ),
            decreases body.len() - i,
        {
            proof {
                assert(nodes.take(i + 1) =~= nodes.take(i as int).push(nodes[i as int]));
                lemma_resolve_body_push(
                    self@,
                    nodes.take(i as int),
                    nodes[i as int],
                    active.deep_view(),
                );
            }
            let ghost before = out.deep_view();
            match &body[i] {
                SchemaNode::DataDef(d) => {
                    let mut block = self.expand_data_def(d, root.as_str(), active);
                    let ghost added = data_defs_view(block@);
                    let mut j: usize = 0;
                    while j < block.len()
                        invariant
                            self@.is_finite(),
                            j <= block.len(),
                            added == data_defs_view(block@),
                            out.deep_view() == before + as_schema_nodes(added).take(j as int),
                        decreases block.len() - j,
                    {
                        let ghost prev = out.deep_view();
                        out.push(SchemaNode::DataDef(block[j].clone()));
                        assert(
                            out.deep_view() =~= prev.push(SchemaNodeView::DataDef(added[j as int]))
                        );
                        assert(as_schema_nodes(added).take(j + 1) =~= as_schema_nodes(added).take(
                            j as int,
                        ).push(SchemaNodeView::DataDef(added[j as int])));
                        j += 1;
                    }
                    assert(as_schema_nodes(added).take(block.len() as int) =~= as_schema_nodes(
                        added,
                    ));
                },
                _ => {
                    let node = self.resolve_schema_node_references(
                        &body[i],
                        root.as_str(),
                        active,
                    );
                    out.push(node);
                    assert(out.deep_view() =~= before + seq![node@]);
                },
            }
            i += 1;
        }
        assert(nodes.take(body.len() as int) =~= nodes);
        out
    }

    /// A node of a module body other than a `uses`, with the references below
    /// it resolved. `path` is the scope that the node stands in.
    pub fn resolve_schema_node_references(
        &self,
        node: &SchemaNode,
        path: &str,
        active: &Vec<GroupingId>,
    ) -> (res: SchemaNode)
        requires
            self@.is_finite(),
        ensures
            res@ == resolve_schema_node(self@, node@, path@, active.deep_view()),
    {
        match node {
            SchemaNode::DataDef(data_def) => SchemaNode::DataDef(
                self.resolve_data_def_references(data_def, path, active),
            ),
            SchemaNode::Rpc(rpc) => {
                let rpc_path = child_path_string(path, rpc.name.as_str());
                SchemaNode::Rpc(self.resolve_rpc_references(rpc, rpc_path.as_str(), active))
            },
            SchemaNode::Notification(notification) => {
                let notification_path = child_path_string(path, notification.name.as_str());
                SchemaNode::Notification(
                    self.resolve_notification_references(
                        notification,
                        notification_path.as_str(),
                        active,
                    ),
                )
            },
        }
    }

    /// A data definition other than a `uses`, with the references below it
    /// resolved. `path` is the scope that the definition stands in.
    pub fn resolve_data_def_references(
        &self,
        data_def: &DataDef,
        path: &str,
        active: &Vec<GroupingId>,
    ) -> (res: DataDef)
        requires
            self@.is_finite(),
        ensures
            res@ == resolve_data_def(self@, data_def@, path@, active.deep_view()),
        decreases unexpanded(self@, active.deep_view()), data_def, 0nat,
    {
        match data_def {
            DataDef::Container(container) => {
                let container_path = child_path_string(path, container.name.as_str());
                DataDef::Container(
                    self.resolve_container_references(
                        container,
                        container_path.as_str(),
                        active,
                    ),
                )
            },
            DataDef::List(list) => {
                let list_path = child_path_string(path, list.name.as_str());
                DataDef::List(self.resolve_list_references(list, list_path.as_str(), active))
            },
            DataDef::Choice(choice) => DataDef::Choice(
                self.resolve_choice_references(choice, path, active),
            ),
            _ => data_def.clone(),
        }
    }

    /// What one data definition becomes; see [`expand_data_def`].
    pub fn expand_data_def(
        &self,
        data_def: &DataDef,
        path: &str,
        active: &Vec<GroupingId>,
    ) -> (res: Vec<DataDef>)
        requires
            self@.is_finite(),
        ensures
            data_defs_view(res@) == expand_data_def(
                self@,
                data_def@,
                path@,
                active.deep_view(),
            ),
        decreases unexpanded(self@, active.deep_view()), data_def, 1nat,
    {
        let mut out: Vec<DataDef> = Vec::new();
        match data_def {
            DataDef::Uses(uses) => {
                match self.locate_grouping(uses.grouping.as_str(), path) {
                    Some(id) => {
                        if !contains_id(active, &id) {
                            proof {
                                lemma_unexpanded_decreases(self@, active.deep_view(), id@);
                            }
                            let grouping = self.grouping_at(&id);
                            let mut deeper = active.clone();
                            let ghost before = deeper.deep_view();
                            assert(before =~= active.deep_view());
                            deeper.push(id);
                            assert(deeper.deep_view() =~= before.push(id@));
                            return self.resolve_data_defs(&grouping.data_defs, path, &deeper);
                        }
                    },
                    None => {},
                }
                out.push(data_def.clone());
            },
            _ => {
                out.push(self.resolve_data_def_references(data_def, path, active));
            },
        }
        assert(data_defs_view(out@) =~= seq![out[0]@]);
        out
    }

    /// A sequence of data definitions, resolved in the scope `path`.
    pub fn resolve_data_defs(
        &self,
        data_defs: &Vec<DataDef>,
        path: &str,
        active: &Vec<GroupingId>,
    ) -> (res: Vec<DataDef>)
        requires
            self@.is_finite(),
        ensures
            data_defs_view(res@) == resolve_data_defs(
                self@,
                data_defs_view(data_defs@),
                path@,
                active.deep_view(),
            ),
        decreases unexpanded(self@, active.deep_view()), data_defs, 0nat,
    {
        let ghost defs = data_defs_view(data_defs@);
        let mut out: Vec<DataDef> = Vec::new();
        let mut i: usize = 0;
        proof {
            assert(defs.take(0) =~= Seq::empty());
            lemma_resolve_data_defs_empty(self@, path@, active.deep_view());
            assert(data_defs_view(out@) =~= Seq::empty());
        }
        while i < data_defs.len()
            invariant
                self@.is_finite(),
                i <= data_defs.len(),
                defs == data_defs_view(data_defs@),
                data_defs_view(out@) == resolve_data_defs(
                    self@,
                    defs.take(i as int),
                    path@,
                    active.deep_view(),
                ),
            decreases data_defs.len() - i,
        {
            proof {
                assert(defs.take(i + 1) =~= defs.take(i as int).push(defs[i as int]));
                lemma_resolve_data_defs_push(
                    self@,
                    defs.take(i as int),
                    defs[i as int],
                    path@,
                    active.deep_view(),
                );
            }
            let ghost before = data_defs_view(out@);
            let mut block = self.expand_data_def(&data_defs[i], path, active);
            let ghost added = data_defs_view(block@);
            out.append(&mut block);
            assert(data_defs_view(out@) =~= before + added);
            i += 1;
        }
        assert(defs.take(data_defs.len() as int) =~= defs);
        out
    }

    /// A container, resolved; `path` is the container's own scope.
    pub fn resolve_container_references(
        &self,
        container: &Container,
        path: &str,
        active: &Vec<GroupingId>,
    ) -> (res: Container)
        requires
            self@.is_finite(),
        ensures
            res@ == resolve_container(self@, container@, path@, active.deep_view()),
        decreases unexpanded(self@, active.deep_view()), container, 0nat,
    {
        let data_defs = self.resolve_data_defs(&container.data_defs, path, active);
        let actions = self.resolve_actions(&container.actions, path, active);
        let notifications = self.resolve_notifications(
            &container.notifications,
            path,
            active,
        );
        container.with_members(data_defs, actions, notifications)
    }

    /// A list, resolved; `path` is the list's own scope.
    pub fn resolve_list_references(
        &self,
        list: &List,
        path: &str,
        active: &Vec<GroupingId>,
    ) -> (res: List)
        requires
            self@.is_finite(),
        ensures
            res@ == resolve_list(self@, list@, path@, active.deep_view()),
        decreases unexpanded(self@, active.deep_view()), list, 0nat,
    {
        let data_defs = self.resolve_data_defs(&list.data_defs, path, active);
        let actions = self.resolve_actions(&list.actions, path, active);
        let notifications = self.resolve_notifications(&list.notifications, path, active);
        list.with_members(data_defs, actions, notifications)
    }

    /// A choice, resolved; `path` is the scope that the choice stands in.
    pub fn resolve_choice_references(
        &self,
        choice: &Choice,
        path: &str,
        active: &Vec<GroupingId>,
    ) -> (res: Choice)
        requires
            self@.is_finite(),
        ensures
            res@ == resolve_choice(self@, choice@, path@, active.deep_view()),
        decreases unexpanded(self@, active.deep_view()), choice, 0nat,
    {
        let cases = self.resolve_cases(&choice.cases, path, active);
        choice.with_members(cases)
    }

    /// The cases of a choice or augment, each resolved.
    pub fn resolve_cases(
        &self,
        cases: &Vec<Case>,
        path: &str,
        active: &Vec<GroupingId>,
    ) -> (res: Vec<Case>)
        requires
            self@.is_finite(),
        ensures
            cases_view(res@) == resolve_cases(
                self@,
                cases_view(cases@),
                path@,
                active.deep_view(),
            ),
        decreases unexpanded(self@, active.deep_view()), cases, 0nat,
    {
        let ghost views = cases_view(cases@);
        let mut out: Vec<Case> = Vec::new();
        let mut i: usize = 0;
        while i < cases.len()
            invariant
                self@.is_finite(),
                i <= cases.len(),
                out.len() == i,
                views == cases_view(cases@),
                forall|j: int|
                    0 <= j < i ==> out[j]@ == resolve_case_at(
                        self@,
                        views,
                        j,
                        path@,
                        active.deep_view(),
                    ),
            decreases cases.len() - i,
        {
            let case = match &cases[i] {
                Case::LongCase(long_case) => Case::LongCase(
                    self.resolve_long_case_references(long_case, path, active),
                ),
                Case::ShortCase(short_case) => Case::ShortCase(
                    self.resolve_short_case_references(short_case, path, active),
                ),
            };
            assert(
                case@ == resolve_case(
                    self@,
                    views[i as int],
                    path@,
                    active.deep_view(),
                )
            );
            out.push(case);
            i += 1;
        }
        assert forall|j: int| 0 <= j < out.len() implies cases_view(out@)[j] == resolve_cases(
            self@,
            views,
            path@,
            active.deep_view(),
        )[j] by {
            assert(
                out[j]@ == resolve_case_at(
                    self@,
                    views,
                    j,
                    path@,
                    active.deep_view(),
                )
            );
        }
        assert(
            cases_view(out@) =~= resolve_cases(
                self@,
                views,
                path@,
                active.deep_view(),
            )
        );
        out
    }

    /// A case written in full, resolved.
    pub fn resolve_long_case_references(
        &self,
        long_case: &LongCase,
        path: &str,
        active: &Vec<GroupingId>,
    ) -> (res: LongCase)
        requires
            self@.is_finite(),
        ensures
            res@ == resolve_long_case(self@, long_case@, path@, active.deep_view()),
        decreases unexpanded(self@, active.deep_view()), long_case, 0nat,
    {
        let data_defs = self.resolve_data_defs(&long_case.data_defs, path, active);
        long_case.with_members(data_defs)
    }

    /// A case in short form, resolved.
    pub fn resolve_short_case_references(
        &self,
        short_case: &ShortCase,
        path: &str,
        active: &Vec<GroupingId>,
    ) -> (res: ShortCase)
        requires
            self@.is_finite(),
        ensures
            res@ == resolve_short_case(self@, short_case@, path@, active.deep_view()),
        decreases unexpanded(self@, active.deep_view()), short_case, 0nat,
    {
        match short_case {
            ShortCase::Container(container) => {
                let container_path = child_path_string(path, container.name.as_str());
                ShortCase::Container(
                    self.resolve_container_references(
                        container,
                        container_path.as_str(),
                        active,
                    ),
                )
            },
            ShortCase::List(list) => {
                let list_path = child_path_string(path, list.name.as_str());
                ShortCase::List(
                    self.resolve_list_references(list, list_path.as_str(), active),
                )
            },
            ShortCase::Choice(choice) => ShortCase::Choice(
                self.resolve_choice_references(choice, path, active),
            ),
            _ => short_case.clone(),
        }
    }

    /// An augment, resolved, with `path` as its scope.
    pub fn resolve_augment_references(
        &self,
        augment: &Augment,
        path: &str,
        active: &Vec<GroupingId>,
    ) -> (res: Augment)
        requires
            self@.is_finite(),
        ensures
            res@ == resolve_augment(self@, augment@, path@, active.deep_view()),
    {
        let data_defs = self.resolve_data_defs(&augment.data_defs, path, active);
        let cases = self.resolve_cases(&augment.cases, path, active);
        let actions = self.resolve_actions(&augment.actions, path, active);
        let notifications = self.resolve_notifications(&augment.notifications, path, active);
        augment.with_members(data_defs, cases, actions, notifications)
    }

    /// The actions of a node whose scope is `path`, each resolved.
    pub fn resolve_actions(
        &self,
        actions: &Vec<Action>,
        path: &str,
        active: &Vec<GroupingId>,
    ) -> (res: Vec<Action>)
        requires
            self@.is_finite(),
        ensures
            actions_view(res@) == resolve_actions(
                self@,
                actions_view(actions@),
                path@,
                active.deep_view(),
            ),
        decreases unexpanded(self@, active.deep_view()), actions, 0nat,
    {
        let ghost views = actions_view(actions@);
        let mut out: Vec<Action> = Vec::new();
        let mut i: usize = 0;
        while i < actions.len()
            invariant
                self@.is_finite(),
                i <= actions.len(),
                out.len() == i,
                views == actions_view(actions@),
                forall|j: int|
                    0 <= j < i ==> out[j]@ == resolve_action_at(
                        self@,
                        views,
                        j,
                        path@,
                        active.deep_view(),
                    ),
            decreases actions.len() - i,
        {
            let action_path = child_path_string(path, actions[i].name.as_str());
            out.push(
                self.resolve_action_references(&actions[i], action_path.as_str(), active),
            );
            i += 1;
        }
        assert forall|j: int| 0 <= j < out.len() implies actions_view(out@)[j] == resolve_actions(
            self@,
            views,
            path@,
            active.deep_view(),
        )[j] by {
            assert(
                out[j]@ == resolve_action_at(
                    self@,
                    views,
                    j,
                    path@,
                    active.deep_view(),
                )
            );
        }
        assert(
            actions_view(out@) =~= resolve_actions(
                self@,
                views,
                path@,
                active.deep_view(),
            )
        );
        out
    }

    /// An action, resolved; `path` is the action's own scope.
    pub fn resolve_action_references(
        &self,
        action: &Action,
        path: &str,
        active: &Vec<GroupingId>,
    ) -> (res: Action)
        requires
            self@.is_finite(),
        ensures
            res@ == resolve_action(self@, action@, path@, active.deep_view()),
        decreases unexpanded(self@, active.deep_view()), action, 0nat,
    {
        let input = match &action.input {
            Some(input) => Some(self.resolve_input(input, path, active)),
            None => None,
        };
        let output = match &action.output {
            Some(output) => Some(self.resolve_output(output, path, active)),
            None => None,
        };
        action.with_members(input, output)
    }

    /// An rpc, resolved; `path` is the rpc's own scope.
    pub fn resolve_rpc_references(
        &self,
        rpc: &Rpc,
        path: &str,
        active: &Vec<GroupingId>,
    ) -> (res: Rpc)
        requires
            self@.is_finite(),
        ensures
            res@ == resolve_rpc(self@, rpc@, path@, active.deep_view()),
    {
        let input = match &rpc.input {
            Some(input) => Some(self.resolve_input(input, path, active)),
            None => None,
        };
        let output = match &rpc.output {
            Some(output) => Some(self.resolve_output(output, path, active)),
            None => None,
        };
        rpc.with_members(input, output)
    }

    /// The input of the rpc or action whose scope is `path`, resolved.
    pub fn resolve_input(
        &self,
        input: &Input,
        path: &str,
        active: &Vec<GroupingId>,
    ) -> (res: Input)
        requires
            self@.is_finite(),
        ensures
            res@ == resolve_input(
                self@,
                input@,
                child_path(path@, input_scope()),
                active.deep_view(),
            ),
        decreases unexpanded(self@, active.deep_view()), input, 0nat,
    {
        proof {
            reveal_strlit("input");
            assert("input"@ =~= input_scope());
        }
        let input_path = child_path_string(path, "input");
        let data_defs = self.resolve_data_defs(
            &input.data_defs,
            input_path.as_str(),
            active,
        );
        input.with_members(data_defs)
    }

    /// The output of the rpc or action whose scope is `path`, resolved.
    pub fn resolve_output(
        &self,
        output: &Output,
        path: &str,
        active: &Vec<GroupingId>,
    ) -> (res: Output)
        requires
            self@.is_finite(),
        ensures
            res@ == resolve_output(
                self@,
                output@,
                child_path(path@, output_scope()),
                active.deep_view(),
            ),
        decreases unexpanded(self@, active.deep_view()), output, 0nat,
    {
        proof {
            reveal_strlit("output");
            assert("output"@ =~= output_scope());
        }
        let output_path = child_path_string(path, "output");
        let data_defs = self.resolve_data_defs(
            &output.data_defs,
            output_path.as_str(),
            active,
        );
        output.with_members(data_defs)
    }

    /// The notifications of a node whose scope is `path`, each resolved.
    pub fn resolve_notifications(
        &self,
        notifications: &Vec<Notification>,
        path: &str,
        active: &Vec<GroupingId>,
    ) -> (res: Vec<Notification>)
        requires
            self@.is_finite(),
        ensures
            notifications_view(res@) == resolve_notifications(
                self@,
                notifications_view(notifications@),
                path@,
                active.deep_view(),
            ),
        decreases unexpanded(self@, active.deep_view()), notifications, 0nat,
    {
        let ghost views = notifications_view(notifications@);
        let mut out: Vec<Notification> = Vec::new();
        let mut i: usize = 0;
        while i < notifications.len()
            invariant
                self@.is_finite(),
                i <= notifications.len(),
                out.len() == i,
                views == notifications_view(notifications@),
                forall|j: int|
                    0 <= j < i ==> out[j]@ == resolve_notification_at(
                        self@,
                        views,
                        j,
                        path@,
                        active.deep_view(),
                    ),
            decreases notifications.len() - i,
        {
            let notification_path = child_path_string(path, notifications[i].name.as_str());
            out.push(
                self.resolve_notification_references(
                    &notifications[i],
                    notification_path.as_str(),
                    active,
                ),
            );
            i += 1;
        }
        assert forall|j: int| 0 <= j < out.len() implies notifications_view(out@)[j]
            == resolve_notifications(self@, views, path@, active.deep_view())[j] by {
            assert(
                out[j]@ == resolve_notification_at(
                    self@,
                    views,
                    j,
                    path@,
                    active.deep_view(),
                )
            );
        }
        assert(notifications_view(out@) =~= resolve_notifications(
            self@,
            views,
            path@,
            active.deep_view(),
        ));
        out
    }

    /// A notification, resolved; `path` is the notification's own scope.
    pub fn resolve_notification_references(
        &self,
        notification: &Notification,
        path: &str,
        active: &Vec<GroupingId>,
    ) -> (res: Notification)
        requires
            self@.is_finite(),
        ensures
            res@ == resolve_notification(
                self@,
                notification@,
                path@,
                active.deep_view(),
            ),
        decreases unexpanded(self@, active.deep_view()), notification, 0nat,
    {
        let data_defs = self.resolve_data_defs(&notification.data_defs, path, active);
        notification.with_members(data_defs)
    }
}

} // verus!
