//! The walker: reads the syntax tree of one YANG file into the model. Data
//! definitions go into the value that it returns; reference targets, imports
//! and the names of the submodules to merge go into the state of the walker.

use crate::grammar::Rule;
use crate::path::{chars_of, child_path, path_key, path_key_string, root_path, root_path_string};
use crate::resolution::{input_scope, output_scope};
use crate::statements::{all_imports, all_includes, all_revisions, last_belongs_to};
use crate::tree::{all_conform, conforms, parse_trees_view, ParseTree, ParseTreeView};
use crate::values::{
    all_strings, lemma_children, name_of, opt_string, optional_boolean, optional_integer,
    optional_max_elements, optional_ordered_by, optional_status, optional_string, parse_name,
    req_string, required_string,
};
use crate::walk::{
    members_of, strip_prefix, walk_action, walk_augment, walk_body, walk_choice, walk_container,
    walk_data_def, walk_grouping, walk_input, walk_list, walk_long_case, walk_member, walk_members,
    walk_notification, walk_output, walk_rpc, walk_short_case, walk_top, walk_top_child, walk_uses,
    MembersView, TopView,
};
use crate::yang::{
    actions_view, augments_view, cases_view, data_defs_view, notifications_view, Action, Anydata,
    Anyxml, Augment, BelongsTo, BelongsToView, Case, CaseView, Choice, Container, DataDef,
    Deviation, DeviationView, Extension, ExtensionView, Feature, FeatureView, Grouping, Identity,
    IdentityView, Import, ImportView, Include, IncludeView, Input, Leaf, LeafList, List, LongCase,
    MetaInfo, MetaInfoView, Module, ModuleView, Must, Notification, Output, ReferenceNodes,
    ReferenceNodesView, Refine, Revision, Rpc, SchemaNode, SchemaNodeView, ShortCase, Submodule,
    SubmoduleView, TypeDef, TypeDefView, Uses, When, YangFile, YangFileView,
};
use vstd::prelude::*;
use vstd::string::StringExecFns;

verus! {

/// The walker and its state.
pub struct YangParser {
    /// The imports met so far.
    pub imports: Vec<Import>,
    /// The submodules to merge, as met so far.
    pub includes: Vec<Include>,
    /// The reference targets met so far.
    pub reference_nodes: ReferenceNodes,
    /// The scope that the walker stands in.
    pub current_path: String,
    /// The prefix of the `belongs-to` statement, while a submodule is read.
    pub current_belongs_to_prefix: Option<String>,
}

/// What a [`YangParser`] holds, as a mathematical value.
pub ghost struct YangParserView {
    pub imports: Seq<ImportView>,
    pub includes: Seq<IncludeView>,
    pub reference_nodes: ReferenceNodesView,
    pub current_path: Seq<char>,
    pub belongs_to_prefix: Option<Seq<char>>,
}

impl View for YangParser {
    type V = YangParserView;

    open spec fn view(&self) -> YangParserView {
        YangParserView {
            imports: self.imports.deep_view(),
            includes: self.includes.deep_view(),
            reference_nodes: self.reference_nodes@,
            current_path: self.current_path@,
            belongs_to_prefix: self.current_belongs_to_prefix.deep_view(),
        }
    }
}

impl YangParserView {
    /// The state of a walker that has read nothing: no imports, no
    /// submodules to merge, empty tables, the root scope, no prefix.
    pub open spec fn initial() -> YangParserView {
        YangParserView {
            imports: Seq::empty(),
            includes: Seq::empty(),
            reference_nodes: ReferenceNodesView::empty(),
            current_path: root_path(),
            belongs_to_prefix: None,
        }
    }

    /// The state with the tables `refs` in place of its own.
    pub open spec fn with_refs(self, refs: ReferenceNodesView) -> YangParserView {
        YangParserView { reference_nodes: refs, ..self }
    }
}

/// What the children of a statement add to the data tree, kind by kind.
pub struct Members {
    pub data_defs: Vec<DataDef>,
    pub actions: Vec<Action>,
    pub notifications: Vec<Notification>,
    pub cases: Vec<Case>,
    pub input: Option<Input>,
    pub output: Option<Output>,
}

impl View for Members {
    type V = MembersView;

    open spec fn view(&self) -> MembersView {
        MembersView {
            data_defs: data_defs_view(self.data_defs@),
            actions: actions_view(self.actions@),
            notifications: notifications_view(self.notifications@),
            cases: cases_view(self.cases@),
            input: self.input.deep_view(),
            output: self.output.deep_view(),
        }
    }
}

impl Members {
    /// No members.
    pub fn new() -> (res: Self)
        ensures
            res@ == MembersView::empty(),
    {
        let res = Members {
            data_defs: Vec::new(),
            actions: Vec::new(),
            notifications: Vec::new(),
            cases: Vec::new(),
            input: None,
            output: None,
        };
        proof {
            assert(res@.data_defs =~= Seq::empty());
            assert(res@.actions =~= Seq::empty());
            assert(res@.notifications =~= Seq::empty());
            assert(res@.cases =~= Seq::empty());
        }
        res
    }
}

/// The grouping name of a `uses`, without the prefix of the `belongs-to`
/// statement where it has it; see [`strip_prefix`].
pub fn strip_belongs_to_prefix(name: String, prefix: &Option<String>) -> (res: String)
    ensures
        res@ == strip_prefix(name@, prefix.deep_view()),
{
    match prefix {
        Some(p) => {
            let lead = chars_of(p.as_str());
            let chars = chars_of(name.as_str());
            let ghost full = p@ + seq![':'];
            if chars.len() <= lead.len() {
                return name;
            }
            let mut i: usize = 0;
            while i < lead.len()
                invariant
                    i <= lead.len(),
                    lead.len() < chars.len(),
                    lead@ == p@,
                    chars@ == name@,
                    full == p@ + seq![':'],
                    prefix.deep_view() == Some(p@),
                    forall|k: int| 0 <= k < i ==> chars[k] == lead[k],
                decreases lead.len() - i,
            {
                if chars[i] != lead[i] {
                    proof {
                        assert(full[i as int] == lead[i as int]);
                        if full.is_prefix_of(name@) {
                            assert(name@.subrange(0, full.len() as int)[i as int]
                                == full[i as int]);
                        }
                    }
                    return name;
                }
                i += 1;
            }
            if chars[lead.len()] != ':' {
                proof {
                    assert(full[lead.len() as int] == ':');
                    if full.is_prefix_of(name@) {
                        assert(name@.subrange(0, full.len() as int)[lead.len() as int]
                            == full[lead.len() as int]);
                    }
                }
                return name;
            }
            assert(full.is_prefix_of(name@)) by {
                assert(full =~= name@.subrange(0, full.len() as int));
            }
            let rest = name.as_str().substring_char(lead.len() + 1, chars.len());
            assert(rest@ =~= name@.skip(p@.len() as int + 1));
            rest.to_owned()
        },
        None => name,
    }
}

/// What a module with the children `cs` and the walked body `body` says.
pub open spec fn module_of(cs: Seq<ParseTreeView>, body: Seq<SchemaNodeView>) -> ModuleView {
    ModuleView {
        name: req_string(cs, Rule::String),
        yang_version: opt_string(cs, Rule::YangVersion),
        namespace: req_string(cs, Rule::Namespace),
        prefix: req_string(cs, Rule::Prefix),
        meta: MetaInfoView::of_children(cs),
        revisions: all_revisions(cs),
        body,
    }
}

/// The `belongs-to` statement among `cs`; an empty one where there is none.
pub open spec fn belongs_to_of(cs: Seq<ParseTreeView>) -> BelongsToView {
    match last_belongs_to(cs) {
        Some(b) => b,
        None => BelongsToView::of_children(Seq::empty()),
    }
}

/// What a submodule with the children `cs` and the walked body `body` says.
pub open spec fn submodule_of(cs: Seq<ParseTreeView>, body: Seq<SchemaNodeView>) -> SubmoduleView {
    SubmoduleView {
        name: req_string(cs, Rule::String),
        yang_version: opt_string(cs, Rule::YangVersion),
        belongs_to: belongs_to_of(cs),
        meta: MetaInfoView::of_children(cs),
        revisions: all_revisions(cs),
        body,
    }
}

/// Where the walk of the children `cs` of a module or submodule starts from
/// the state `st`, what it has come to at the end.
pub open spec fn top_of(cs: Seq<ParseTreeView>, st: YangParserView) -> TopView {
    walk_top(
        cs,
        st.current_path,
        TopView { body: Seq::empty(), prefix: st.belongs_to_prefix, refs: st.reference_nodes },
    )
}

/// The state of the walker after a module or submodule with the children
/// `cs`, but for the `belongs-to` prefix: the imports and the submodules to
/// merge are added at the end of those met before, in their order, and the
/// tables hold what the body declared.
pub open spec fn state_after(cs: Seq<ParseTreeView>, st: YangParserView) -> YangParserView {
    YangParserView {
        imports: st.imports + all_imports(cs),
        includes: st.includes + all_includes(cs),
        reference_nodes: top_of(cs, st).refs,
        current_path: st.current_path,
        belongs_to_prefix: top_of(cs, st).prefix,
    }
}

/// What the module `t` says, and the state of the walker after it.
pub open spec fn walk_module(t: ParseTreeView, st: YangParserView) -> (ModuleView, YangParserView) {
    (module_of(t.children, top_of(t.children, st).body), state_after(t.children, st))
}

/// What the submodule `t` says, and the state of the walker after it. The
/// prefix of its `belongs-to` statement is in force from that statement to
/// the end of the submodule, and no further.
pub open spec fn walk_submodule(t: ParseTreeView, st: YangParserView) -> (
    SubmoduleView,
    YangParserView,
) {
    (
        submodule_of(t.children, top_of(t.children, st).body),
        YangParserView { belongs_to_prefix: None, ..state_after(t.children, st) },
    )
}

/// What the file `t` says, and the state of the walker after it: a
/// submodule under the rule `submodule`, a module under any other.
pub open spec fn walk_file(t: ParseTreeView, st: YangParserView) -> (YangFileView, YangParserView) {
    if t.rule == Rule::Submodule {
        let (s, after) = walk_submodule(t, st);
        (YangFileView::Submodule(s), after)
    } else {
        let (m, after) = walk_module(t, st);
        (YangFileView::Module(m), after)
    }
}

impl YangParser {
    /// A walker that has read nothing.
    pub fn new() -> (res: Self)
        ensures
            res@ == YangParserView::initial(),
    {
        let res = YangParser {
            reference_nodes: ReferenceNodes::new(),
            imports: Vec::new(),
            includes: Vec::new(),
            current_path: root_path_string(),
            current_belongs_to_prefix: None,
        };
        proof {
            assert(res@.imports =~= Seq::empty());
            assert(res@.includes =~= Seq::empty());
        }
        res
    }

    /// Hands out the submodules to merge that were met so far, and forgets them.
    pub fn take_includes(&mut self) -> (res: Vec<Include>)
        ensures
            res.deep_view() == old(self)@.includes,
            final(self)@ == (YangParserView { includes: Seq::empty(), ..old(self)@ }),
    {
        let mut taken: Vec<Include> = Vec::new();
        taken.append(&mut self.includes);
        proof {
            assert(taken.deep_view() =~= old(self)@.includes);
            assert(self@.includes =~= Seq::empty());
        }
        taken
    }

    /// Reads the file `input`: a submodule under the rule `submodule`, a
    /// module under any other.
    pub fn parse(&mut self, input: &ParseTree) -> (res: YangFile)
        requires
            conforms(input@),
            input@.rule == Rule::Module || input@.rule == Rule::Submodule,
        ensures
            (res@, final(self)@) == walk_file(input@, old(self)@),
    {
        match input.rule {
            Rule::Submodule => YangFile::Submodule(self.parse_submodule(input)),
            _ => YangFile::Module(self.parse_module(input)),
        }
    }

    /// Reads the children of a module or submodule that add to the body or to
    /// the state of the walker.
    pub fn parse_top(&mut self, cs: &Vec<ParseTree>) -> (res: Vec<SchemaNode>)
        requires
            all_conform(parse_trees_view(cs@)),
        ensures
            res.deep_view() == top_of(parse_trees_view(cs@), old(self)@).body,
            final(self)@ == (YangParserView {
                reference_nodes: top_of(parse_trees_view(cs@), old(self)@).refs,
                belongs_to_prefix: top_of(parse_trees_view(cs@), old(self)@).prefix,
                ..old(self)@
            }),
    {
        let ghost views = parse_trees_view(cs@);
        let ghost start = self@;
        let ghost first = TopView {
            body: Seq::empty(),
            prefix: start.belongs_to_prefix,
            refs: start.reference_nodes,
        };
        let mut body: Vec<SchemaNode> = Vec::new();
        let mut i: usize = 0;
        proof {
            assert(views.take(0) =~= Seq::empty());
            assert(body.deep_view() =~= Seq::empty());
        }
        while i < cs.len()
            invariant
                i <= cs.len(),
                views == parse_trees_view(cs@),
                all_conform(views),
                first == (TopView {
                    body: Seq::empty(),
                    prefix: start.belongs_to_prefix,
                    refs: start.reference_nodes,
                }),
                body.deep_view() == walk_top(views.take(i as int), start.current_path, first).body,
                self@ == (YangParserView {
                    reference_nodes: walk_top(
                        views.take(i as int),
                        start.current_path,
                        first,
                    ).refs,
                    belongs_to_prefix: walk_top(
                        views.take(i as int),
                        start.current_path,
                        first,
                    ).prefix,
                    ..start
                }),
            decreases cs.len() - i,
        {
            let child = &cs[i];
            proof {
                assert(views.take(i + 1).drop_last() =~= views.take(i as int));
                assert(views.take(i + 1).last() == views[i as int]);
                assert(views[i as int] == child@);
                assert(walk_top(views.take(i + 1), start.current_path, first) == walk_top_child(
                    child@,
                    start.current_path,
                    walk_top(views.take(i as int), start.current_path, first),
                ));
            }
            match child.rule {
                Rule::Body => {
                    let ghost before = body.deep_view();
                    match self.parse_body(child) {
                        Some(node) => {
                            body.push(node);
                            assert(body.deep_view() =~= before.push(node@));
                        },
                        None => {},
                    }
                },
                Rule::BelongsTo => {
                    let belongs_to = BelongsTo::parse(child);
                    self.current_belongs_to_prefix = Some(belongs_to.prefix);
                },
                _ => {},
            }
            i += 1;
        }
        assert(views.take(cs.len() as int) =~= views);
        body
    }

    /// Reads a module.
    pub fn parse_module(&mut self, input: &ParseTree) -> (res: Module)
        requires
            conforms(input@),
        ensures
            (res@, final(self)@) == walk_module(input@, old(self)@),
    {
        proof {
            lemma_children(input);
        }
        let cs = &input.children;
        let ghost start = self@;
        let mut imports = Import::parse_all(cs);
        let mut includes = Include::parse_all(cs);
        let ghost new_imports = imports.deep_view();
        let ghost new_includes = includes.deep_view();
        self.imports.append(&mut imports);
        self.includes.append(&mut includes);
        proof {
            assert(self@.imports =~= start.imports + new_imports);
            assert(self@.includes =~= start.includes + new_includes);
        }
        let body = self.parse_top(cs);
        Module {
            name: required_string(cs, Rule::String),
            yang_version: optional_string(cs, Rule::YangVersion),
            namespace: required_string(cs, Rule::Namespace),
            prefix: required_string(cs, Rule::Prefix),
            meta: MetaInfo::parse_children(cs),
            revisions: Revision::parse_all(cs),
            body,
        }
    }

    /// Reads a submodule.
    pub fn parse_submodule(&mut self, input: &ParseTree) -> (res: Submodule)
        requires
            conforms(input@),
        ensures
            (res@, final(self)@) == walk_submodule(input@, old(self)@),
    {
        proof {
            lemma_children(input);
        }
        let cs = &input.children;
        let ghost start = self@;
        let mut imports = Import::parse_all(cs);
        let mut includes = Include::parse_all(cs);
        let ghost new_imports = imports.deep_view();
        let ghost new_includes = includes.deep_view();
        self.imports.append(&mut imports);
        self.includes.append(&mut includes);
        proof {
            assert(self@.imports =~= start.imports + new_imports);
            assert(self@.includes =~= start.includes + new_includes);
        }
        let body = self.parse_top(cs);
        self.current_belongs_to_prefix = None;
        let belongs_to = match BelongsTo::parse_last(cs) {
            Some(b) => b,
            None => {
                let none: Vec<ParseTree> = Vec::new();
                assert(parse_trees_view(none@) =~= Seq::empty());
                BelongsTo::parse_children(&none)
            },
        };
        Submodule {
            name: required_string(cs, Rule::String),
            yang_version: optional_string(cs, Rule::YangVersion),
            belongs_to,
            meta: MetaInfo::parse_children(cs),
            revisions: Revision::parse_all(cs),
            body,
        }
    }

    /// Reads the statement under a `body` node: a data-tree node is returned,
    /// a reference target goes to the tables.
    pub fn parse_body(&mut self, input: &ParseTree) -> (res: Option<SchemaNode>)
        requires
            conforms(input@),
        ensures
            (res.deep_view(), final(self)@.reference_nodes) == walk_body(
                input@,
                old(self)@.current_path,
                old(self)@.belongs_to_prefix,
                old(self)@.reference_nodes,
            ),
            final(self)@ == old(self)@.with_refs(final(self)@.reference_nodes),
    {
        proof {
            lemma_children(input);
        }
        if input.children.len() == 0 {
            return None;
        }
        let node = &input.children[0];
        assert(conforms(input@.children[0]));
        proof {
            lemma_children(node);
        }
        match node.rule {
            Rule::DataDef => Some(SchemaNode::DataDef(self.parse_data_def(node))),
            Rule::Rpc => Some(SchemaNode::Rpc(self.parse_rpc(node))),
            Rule::Notification => Some(SchemaNode::Notification(self.parse_notification(node))),
            Rule::Extension => {
                self.parse_extension(node);
                None
            },
            Rule::Feature => {
                self.parse_feature(node);
                None
            },
            Rule::Identity => {
                self.parse_identity(node);
                None
            },
            Rule::TypeDef => {
                self.parse_type_def(node);
                None
            },
            Rule::Augment => {
                self.parse_augment(node);
                None
            },
            Rule::Deviation => {
                self.parse_deviation(node);
                None
            },
            Rule::Grouping => {
                self.parse_grouping(node);
                None
            },
            _ => None,
        }
    }

    /// Reads a `deviation` statement into the tables.
    pub fn parse_deviation(&mut self, input: &ParseTree)
        requires
            conforms(input@),
        ensures
            final(self)@ == old(self)@.with_refs(
                old(self)@.reference_nodes.with_deviation(DeviationView::of(input@)),
            ),
    {
        let deviation = Deviation::parse(input);
        self.reference_nodes.add_deviation(deviation);
    }

    /// Reads an `extension` statement into the tables.
    pub fn parse_extension(&mut self, input: &ParseTree)
        requires
            conforms(input@),
        ensures
            final(self)@ == old(self)@.with_refs(
                old(self)@.reference_nodes.with_extension(ExtensionView::of(input@)),
            ),
    {
        let extension = Extension::parse(input);
        self.reference_nodes.add_extension(extension);
    }

    /// Reads a `feature` statement into the tables, under the scope that the
    /// walker stands in and the name of the feature.
    pub fn parse_feature(&mut self, input: &ParseTree)
        requires
            conforms(input@),
        ensures
            final(self)@ == old(self)@.with_refs(
                old(self)@.reference_nodes.with_feature(
                    path_key(old(self)@.current_path, name_of(input@.children)),
                    FeatureView::of(input@),
                ),
            ),
    {
        let feature = Feature::parse(input);
        let key = path_key_string(self.current_path.as_str(), feature.name.as_str());
        self.reference_nodes.add_feature(key, feature);
    }

    /// Reads an `identity` statement into the tables, under the scope that
    /// the walker stands in and the name of the identity.
    pub fn parse_identity(&mut self, input: &ParseTree)
        requires
            conforms(input@),
        ensures
            final(self)@ == old(self)@.with_refs(
                old(self)@.reference_nodes.with_identity(
                    path_key(old(self)@.current_path, name_of(input@.children)),
                    IdentityView::of(input@),
                ),
            ),
    {
        let identity = Identity::parse(input);
        let key = path_key_string(self.current_path.as_str(), identity.name.as_str());
        self.reference_nodes.add_identity(key, identity);
    }

    /// Reads a `typedef` statement into the tables, under the scope that the
    /// walker stands in and the name of the typedef.
    pub fn parse_type_def(&mut self, input: &ParseTree)
        requires
            conforms(input@),
        ensures
            final(self)@ == old(self)@.with_refs(
                old(self)@.reference_nodes.with_type_def(
                    path_key(old(self)@.current_path, name_of(input@.children)),
                    TypeDefView::of(input@),
                ),
            ),
    {
        let type_def = TypeDef::parse(input);
        let key = path_key_string(self.current_path.as_str(), type_def.name.as_str());
        self.reference_nodes.add_type_def(key, type_def);
    }

    /// Reads the data definition under a `data_def` node.
    pub fn parse_data_def(&mut self, input: &ParseTree) -> (res: DataDef)
        requires
            conforms(input@),
        ensures
            (res@, final(self)@.reference_nodes) == walk_data_def(
                input@,
                old(self)@.current_path,
                old(self)@.belongs_to_prefix,
                old(self)@.reference_nodes,
            ),
            final(self)@ == old(self)@.with_refs(final(self)@.reference_nodes),
        decreases input, 2nat,
    {
        proof {
            lemma_children(input);
        }
        if input.children.len() == 0 {
            let none: Vec<ParseTree> = Vec::new();
            assert(parse_trees_view(none@) =~= Seq::empty());
            return DataDef::Leaf(Leaf::parse_children(&none));
        }
        let node = &input.children[0];
        assert(conforms(input@.children[0]));
        match node.rule {
            Rule::Container => DataDef::Container(self.parse_container(node)),
            Rule::Leaf => DataDef::Leaf(Leaf::parse(node)),
            Rule::LeafList => DataDef::LeafList(LeafList::parse(node)),
            Rule::List => DataDef::List(self.parse_list(node)),
            Rule::Choice => DataDef::Choice(self.parse_choice(node)),
            Rule::Anydata => DataDef::AnyData(Anydata::parse(node)),
            Rule::Anyxml => DataDef::Anyxml(Anyxml::parse(node)),
            Rule::Uses => DataDef::Uses(self.parse_uses(node)),
            _ => {
                let none: Vec<ParseTree> = Vec::new();
                assert(parse_trees_view(none@) =~= Seq::empty());
                DataDef::Leaf(Leaf::parse_children(&none))
            },
        }
    }

    /// Reads the short case under a `short_case` node.
    pub fn parse_short_case(&mut self, input: &ParseTree) -> (res: ShortCase)
        requires
            conforms(input@),
        ensures
            (res@, final(self)@.reference_nodes) == walk_short_case(
                input@,
                old(self)@.current_path,
                old(self)@.belongs_to_prefix,
                old(self)@.reference_nodes,
            ),
            final(self)@ == old(self)@.with_refs(final(self)@.reference_nodes),
        decreases input, 2nat,
    {
        proof {
            lemma_children(input);
        }
        if input.children.len() == 0 {
            let none: Vec<ParseTree> = Vec::new();
            assert(parse_trees_view(none@) =~= Seq::empty());
            return ShortCase::Leaf(Leaf::parse_children(&none));
        }
        let node = &input.children[0];
        assert(conforms(input@.children[0]));
        match node.rule {
            Rule::Choice => ShortCase::Choice(self.parse_choice(node)),
            Rule::Container => ShortCase::Container(self.parse_container(node)),
            Rule::Leaf => ShortCase::Leaf(Leaf::parse(node)),
            Rule::LeafList => ShortCase::LeafList(LeafList::parse(node)),
            Rule::List => ShortCase::List(self.parse_list(node)),
            Rule::Anydata => ShortCase::Anydata(Anydata::parse(node)),
            Rule::Anyxml => ShortCase::Anyxml(Anyxml::parse(node)),
            _ => {
                let none: Vec<ParseTree> = Vec::new();
                assert(parse_trees_view(none@) =~= Seq::empty());
                ShortCase::Leaf(Leaf::parse_children(&none))
            },
        }
    }

    /// Reads what the children of a statement add to the data tree and to the
    /// tables, in the scope that the walker stands in.
    pub fn parse_members(&mut self, children: &Vec<ParseTree>) -> (res: Members)
        requires
            all_conform(parse_trees_view(children@)),
        ensures
            (res@, final(self)@.reference_nodes) == members_of(
                parse_trees_view(children@),
                old(self)@.current_path,
                old(self)@.belongs_to_prefix,
                old(self)@.reference_nodes,
            ),
            final(self)@ == old(self)@.with_refs(final(self)@.reference_nodes),
        decreases children, 5nat,
    {
        let ghost views = parse_trees_view(children@);
        let ghost start = self@;
        let mut m = Members::new();
        let mut i: usize = 0;
        proof {
            assert(views.take(0) =~= Seq::empty());
        }
        while i < children.len()
            invariant
                i <= children.len(),
                views == parse_trees_view(children@),
                all_conform(views),
                self@ == start.with_refs(self@.reference_nodes),
                (m@, self@.reference_nodes) == walk_members(
                    views.take(i as int),
                    start.current_path,
                    start.belongs_to_prefix,
                    MembersView::empty(),
                    start.reference_nodes,
                ),
            decreases children.len() - i,
        {
            let child = &children[i];
            let ghost before = m@;
            let ghost refs = self@.reference_nodes;
            proof {
                assert(views.take(i + 1).drop_last() =~= views.take(i as int));
                assert(views.take(i + 1).last() == views[i as int]);
                assert(views[i as int] == child@);
                assert(walk_members(
                    views.take(i + 1),
                    start.current_path,
                    start.belongs_to_prefix,
                    MembersView::empty(),
                    start.reference_nodes,
                ) == walk_member(
                    child@,
                    start.current_path,
                    start.belongs_to_prefix,
                    before,
                    refs,
                ));
                lemma_children(child);
            }
            match child.rule {
                Rule::DataDef => {
                    let x = self.parse_data_def(child);
                    m.data_defs.push(x);
                    assert(m@.data_defs =~= before.data_defs.push(x@));
                },
                Rule::Action => {
                    let x = self.parse_action(child);
                    m.actions.push(x);
                    assert(m@.actions =~= before.actions.push(x@));
                },
                Rule::Notification => {
                    let x = self.parse_notification(child);
                    m.notifications.push(x);
                    assert(m@.notifications =~= before.notifications.push(x@));
                },
                Rule::LongCase => {
                    let x = self.parse_long_case(child);
                    m.cases.push(Case::LongCase(x));
                    assert(m@.cases =~= before.cases.push(CaseView::LongCase(x@)));
                },
                Rule::ShortCase => {
                    let x = self.parse_short_case(child);
                    m.cases.push(Case::ShortCase(x));
                    assert(m@.cases =~= before.cases.push(CaseView::ShortCase(x@)));
                },
                Rule::Input => {
                    let x = self.parse_input(child);
                    m.input = Some(x);
                },
                Rule::Output => {
                    let x = self.parse_output(child);
                    m.output = Some(x);
                },
                Rule::TypeDef => {
                    self.parse_type_def(child);
                },
                Rule::Grouping => {
                    self.parse_grouping(child);
                },
                Rule::Augment => {
                    self.parse_augment(child);
                },
                _ => {},
            }
            i += 1;
        }
        assert(views.take(children.len() as int) =~= views);
        m
    }

    /// Reads the members among `children` in the scope `name` inside the scope
    /// that the walker stands in, and comes back to the scope it stood in.
    pub fn with_path_scope(&mut self, name: &str, children: &Vec<ParseTree>) -> (res: Members)
        requires
            all_conform(parse_trees_view(children@)),
        ensures
            (res@, final(self)@.reference_nodes) == members_of(
                parse_trees_view(children@),
                child_path(old(self)@.current_path, name@),
                old(self)@.belongs_to_prefix,
                old(self)@.reference_nodes,
            ),
            final(self)@ == old(self)@.with_refs(final(self)@.reference_nodes),
        decreases children, 6nat,
    {
        proof {
            reveal_strlit("/");
        }
        let original_path = self.current_path.clone();
        self.current_path.append(name);
        self.current_path.append("/");
        assert(self.current_path@ =~= child_path(old(self)@.current_path, name@));
        let result = self.parse_members(children);
        self.current_path = original_path;
        result
    }

    /// Reads a `container` statement.
    pub fn parse_container(&mut self, input: &ParseTree) -> (res: Container)
        requires
            conforms(input@),
        ensures
            (res@, final(self)@.reference_nodes) == walk_container(
                input@,
                old(self)@.current_path,
                old(self)@.belongs_to_prefix,
                old(self)@.reference_nodes,
            ),
            final(self)@ == old(self)@.with_refs(final(self)@.reference_nodes),
        decreases input, 1nat,
    {
        proof {
            lemma_children(input);
        }
        let cs = &input.children;
        let name = parse_name(cs);
        let m = self.with_path_scope(name.as_str(), cs);
        Container {
            name,
            when: When::parse_last(cs),
            if_features: all_strings(cs, Rule::IfFeature),
            must: Must::parse_all(cs),
            presence: optional_string(cs, Rule::Presence),
            config: optional_boolean(cs, Rule::Config),
            status: optional_status(cs),
            description: optional_string(cs, Rule::Description),
            reference: optional_string(cs, Rule::Reference),
            data_defs: m.data_defs,
            actions: m.actions,
            notifications: m.notifications,
        }
    }

    /// Reads a `list` statement.
    pub fn parse_list(&mut self, input: &ParseTree) -> (res: List)
        requires
            conforms(input@),
        ensures
            (res@, final(self)@.reference_nodes) == walk_list(
                input@,
                old(self)@.current_path,
                old(self)@.belongs_to_prefix,
                old(self)@.reference_nodes,
            ),
            final(self)@ == old(self)@.with_refs(final(self)@.reference_nodes),
        decreases input, 1nat,
    {
        proof {
            lemma_children(input);
        }
        let cs = &input.children;
        let name = parse_name(cs);
        let m = self.with_path_scope(name.as_str(), cs);
        List {
            name,
            when: When::parse_last(cs),
            if_features: all_strings(cs, Rule::IfFeature),
            must: Must::parse_all(cs),
            key: optional_string(cs, Rule::Key),
            unique: all_strings(cs, Rule::Unique),
            config: optional_boolean(cs, Rule::Config),
            min_elements: optional_integer(cs, Rule::MinElements),
            max_elements: optional_max_elements(cs),
            ordered_by: optional_ordered_by(cs),
            status: optional_status(cs),
            description: optional_string(cs, Rule::Description),
            reference: optional_string(cs, Rule::Reference),
            data_defs: m.data_defs,
            actions: m.actions,
            notifications: m.notifications,
        }
    }

    /// Reads a `choice` statement.
    pub fn parse_choice(&mut self, input: &ParseTree) -> (res: Choice)
        requires
            conforms(input@),
        ensures
            (res@, final(self)@.reference_nodes) == walk_choice(
                input@,
                old(self)@.current_path,
                old(self)@.belongs_to_prefix,
                old(self)@.reference_nodes,
            ),
            final(self)@ == old(self)@.with_refs(final(self)@.reference_nodes),
        decreases input, 1nat,
    {
        proof {
            lemma_children(input);
        }
        let cs = &input.children;
        let m = self.parse_members(cs);
        Choice {
            name: required_string(cs, Rule::String),
            when: When::parse_last(cs),
            if_features: all_strings(cs, Rule::IfFeature),
            default: optional_string(cs, Rule::Default),
            config: optional_boolean(cs, Rule::Config),
            mandatory: optional_boolean(cs, Rule::Mandatory),
            status: optional_status(cs),
            description: optional_string(cs, Rule::Description),
            reference: optional_string(cs, Rule::Reference),
            cases: m.cases,
        }
    }

    /// Reads a `case` statement.
    pub fn parse_long_case(&mut self, input: &ParseTree) -> (res: LongCase)
        requires
            conforms(input@),
        ensures
            (res@, final(self)@.reference_nodes) == walk_long_case(
                input@,
                old(self)@.current_path,
                old(self)@.belongs_to_prefix,
                old(self)@.reference_nodes,
            ),
            final(self)@ == old(self)@.with_refs(final(self)@.reference_nodes),
        decreases input, 1nat,
    {
        proof {
            lemma_children(input);
        }
        let cs = &input.children;
        let m = self.parse_members(cs);
        LongCase {
            name: required_string(cs, Rule::String),
            when: When::parse_last(cs),
            if_features: all_strings(cs, Rule::IfFeature),
            status: optional_status(cs),
            description: optional_string(cs, Rule::Description),
            reference: optional_string(cs, Rule::Reference),
            data_defs: m.data_defs,
        }
    }

    /// Reads a `uses` statement. While a submodule is read, a grouping name
    /// that starts with the prefix of its `belongs-to` statement loses that
    /// prefix.
    pub fn parse_uses(&mut self, input: &ParseTree) -> (res: Uses)
        requires
            conforms(input@),
        ensures
            (res@, final(self)@.reference_nodes) == walk_uses(
                input@,
                old(self)@.current_path,
                old(self)@.belongs_to_prefix,
                old(self)@.reference_nodes,
            ),
            final(self)@ == old(self)@.with_refs(final(self)@.reference_nodes),
        decreases input, 1nat,
    {
        proof {
            lemma_children(input);
        }
        let cs = &input.children;
        let grouping = strip_belongs_to_prefix(
            required_string(cs, Rule::String),
            &self.current_belongs_to_prefix,
        );
        let _ = self.parse_members(cs);
        let augments: Vec<Augment> = Vec::new();
        assert(augments_view(augments@) =~= Seq::empty());
        Uses {
            grouping,
            when: When::parse_last(cs),
            if_features: all_strings(cs, Rule::IfFeature),
            status: optional_status(cs),
            description: optional_string(cs, Rule::Description),
            reference: optional_string(cs, Rule::Reference),
            refines: Refine::parse_all(cs),
            augments,
        }
    }

    /// Reads an `augment` statement into the tables.
    pub fn parse_augment(&mut self, input: &ParseTree)
        requires
            conforms(input@),
        ensures
            final(self)@.reference_nodes == walk_augment(
                input@,
                old(self)@.current_path,
                old(self)@.belongs_to_prefix,
                old(self)@.reference_nodes,
            ),
            final(self)@ == old(self)@.with_refs(final(self)@.reference_nodes),
        decreases input, 1nat,
    {
        proof {
            lemma_children(input);
        }
        let cs = &input.children;
        let m = self.parse_members(cs);
        let augment = Augment {
            target: required_string(cs, Rule::String),
            when: When::parse_last(cs),
            if_features: all_strings(cs, Rule::IfFeature),
            status: optional_status(cs),
            description: optional_string(cs, Rule::Description),
            reference: optional_string(cs, Rule::Reference),
            data_defs: m.data_defs,
            cases: m.cases,
            actions: m.actions,
            notifications: m.notifications,
        };
        self.reference_nodes.add_augment(augment);
    }

    /// Reads an `output` statement.
    pub fn parse_output(&mut self, input: &ParseTree) -> (res: Output)
        requires
            conforms(input@),
        ensures
            (res@, final(self)@.reference_nodes) == walk_output(
                input@,
                old(self)@.current_path,
                old(self)@.belongs_to_prefix,
                old(self)@.reference_nodes,
            ),
            final(self)@ == old(self)@.with_refs(final(self)@.reference_nodes),
        decreases input, 1nat,
    {
        proof {
            lemma_children(input);
            reveal_strlit("output");
            assert("output"@ =~= output_scope());
        }
        let cs = &input.children;
        let m = self.with_path_scope("output", cs);
        Output { must: Must::parse_all(cs), data_defs: m.data_defs }
    }

    /// Reads an `input` statement.
    pub fn parse_input(&mut self, input: &ParseTree) -> (res: Input)
        requires
            conforms(input@),
        ensures
            (res@, final(self)@.reference_nodes) == walk_input(
                input@,
                old(self)@.current_path,
                old(self)@.belongs_to_prefix,
                old(self)@.reference_nodes,
            ),
            final(self)@ == old(self)@.with_refs(final(self)@.reference_nodes),
        decreases input, 1nat,
    {
        proof {
            lemma_children(input);
            reveal_strlit("input");
            assert("input"@ =~= input_scope());
        }
        let cs = &input.children;
        let m = self.with_path_scope("input", cs);
        Input { must: Must::parse_all(cs), data_defs: m.data_defs }
    }

    /// Reads an `rpc` statement.
    pub fn parse_rpc(&mut self, input: &ParseTree) -> (res: Rpc)
        requires
            conforms(input@),
        ensures
            (res@, final(self)@.reference_nodes) == walk_rpc(
                input@,
                old(self)@.current_path,
                old(self)@.belongs_to_prefix,
                old(self)@.reference_nodes,
            ),
            final(self)@ == old(self)@.with_refs(final(self)@.reference_nodes),
    {
        proof {
            lemma_children(input);
        }
        let cs = &input.children;
        let name = parse_name(cs);
        let m = self.with_path_scope(name.as_str(), cs);
        Rpc {
            name,
            if_features: all_strings(cs, Rule::IfFeature),
            must: Must::parse_all(cs),
            status: optional_status(cs),
            description: optional_string(cs, Rule::Description),
            reference: optional_string(cs, Rule::Reference),
            input: m.input,
            output: m.output,
        }
    }

    /// Reads an `action` statement.
    pub fn parse_action(&mut self, input: &ParseTree) -> (res: Action)
        requires
            conforms(input@),
        ensures
            (res@, final(self)@.reference_nodes) == walk_action(
                input@,
                old(self)@.current_path,
                old(self)@.belongs_to_prefix,
                old(self)@.reference_nodes,
            ),
            final(self)@ == old(self)@.with_refs(final(self)@.reference_nodes),
        decreases input, 1nat,
    {
        proof {
            lemma_children(input);
        }
        let cs = &input.children;
        let name = parse_name(cs);
        let m = self.with_path_scope(name.as_str(), cs);
        Action {
            name,
            if_features: all_strings(cs, Rule::IfFeature),
            must: Must::parse_all(cs),
            status: optional_status(cs),
            description: optional_string(cs, Rule::Description),
            reference: optional_string(cs, Rule::Reference),
            input: m.input,
            output: m.output,
        }
    }

    /// Reads a `notification` statement.
    pub fn parse_notification(&mut self, input: &ParseTree) -> (res: Notification)
        requires
            conforms(input@),
        ensures
            (res@, final(self)@.reference_nodes) == walk_notification(
                input@,
                old(self)@.current_path,
                old(self)@.belongs_to_prefix,
                old(self)@.reference_nodes,
            ),
            final(self)@ == old(self)@.with_refs(final(self)@.reference_nodes),
        decreases input, 1nat,
    {
        proof {
            lemma_children(input);
        }
        let cs = &input.children;
        let name = parse_name(cs);
        let m = self.with_path_scope(name.as_str(), cs);
        Notification {
            name,
            if_features: all_strings(cs, Rule::IfFeature),
            must: Must::parse_all(cs),
            status: optional_status(cs),
            description: optional_string(cs, Rule::Description),
            reference: optional_string(cs, Rule::Reference),
            data_defs: m.data_defs,
        }
    }

    /// Reads a `grouping` statement into the tables, under the scope that the
    /// walker stands in and the name of the grouping.
    pub fn parse_grouping(&mut self, input: &ParseTree)
        requires
            conforms(input@),
        ensures
            final(self)@.reference_nodes == walk_grouping(
                input@,
                old(self)@.current_path,
                old(self)@.belongs_to_prefix,
                old(self)@.reference_nodes,
            ),
            final(self)@ == old(self)@.with_refs(final(self)@.reference_nodes),
        decreases input, 1nat,
    {
        proof {
            lemma_children(input);
        }
        let cs = &input.children;
        let name = parse_name(cs);
        let m = self.with_path_scope(name.as_str(), cs);
        let key = path_key_string(self.current_path.as_str(), name.as_str());
        let grouping = Grouping {
            name,
            status: optional_status(cs),
            description: optional_string(cs, Rule::Description),
            reference: optional_string(cs, Rule::Reference),
            data_defs: m.data_defs,
            actions: m.actions,
            notifications: m.notifications,
        };
        self.reference_nodes.add_grouping(key, grouping);
    }
}

} // verus!
