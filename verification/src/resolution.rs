//! What resolution yields, stated over the values of the model.
//!
//! Every function here takes the tables `r`, the scope path at which it
//! works, and the groupings `active` that are being expanded around it,
//! the outermost first.

use crate::path::{child_path, root_path};
use crate::resolver::{
    grouping_at, lemma_located_grouping_is_held, lemma_unexpanded_decreases, locate_grouping,
    unexpanded, GroupingIdView, ReferenceResolverView,
};
use crate::yang::{
    ActionView, AugmentView, CaseView, ChoiceView, ContainerView, DataDefView, InputView, ListView,
    LongCaseView, ModuleView, NotificationView, OutputView, RpcView, SchemaNodeView, ShortCaseView,
};
use vstd::prelude::*;

verus! {

/// The name of the scope that holds the input of an rpc or action.
pub open spec fn input_scope() -> Seq<char> {
    seq!['i', 'n', 'p', 'u', 't']
}

/// The name of the scope that holds the output of an rpc or action.
pub open spec fn output_scope() -> Seq<char> {
    seq!['o', 'u', 't', 'p', 'u', 't']
}

/// A data definition other than `uses`, with the references below it
/// resolved. `path` is the scope that the definition stands in.
pub open spec fn resolve_data_def(
    r: ReferenceResolverView,
    d: DataDefView,
    path: Seq<char>,
    active: Seq<GroupingIdView>,
) -> DataDefView
    decreases unexpanded(r, active), d, 0nat,
{
    match d {
        DataDefView::Container(c) => DataDefView::Container(
            resolve_container(r, c, child_path(path, c.name), active),
        ),
        DataDefView::List(l) => DataDefView::List(
            resolve_list(r, l, child_path(path, l.name), active),
        ),
        DataDefView::Choice(c) => DataDefView::Choice(resolve_choice(r, c, path, active)),
        _ => d,
    }
}

/// Whether the `uses` of the grouping at `id` is expanded: it is, unless
/// that grouping is under expansion already. The tables are taken to be
/// finite, as tables in memory are.
pub open spec fn expands(
    r: ReferenceResolverView,
    id: GroupingIdView,
    active: Seq<GroupingIdView>,
) -> bool {
    r.is_finite() && !active.contains(id)
}

/// What one data definition becomes. A `uses` whose grouping is found
/// becomes the resolved data definitions of that grouping, unless the
/// grouping is under expansion already: such a `uses` would never end, and
/// stays. A `uses` that finds no grouping stays. Anything else stays one
/// definition, resolved below.
pub open spec fn expand_data_def(
    r: ReferenceResolverView,
    d: DataDefView,
    path: Seq<char>,
    active: Seq<GroupingIdView>,
) -> Seq<DataDefView>
    decreases unexpanded(r, active), d, 1nat,
{
    match d {
        DataDefView::Uses(u) => match locate_grouping(r, u.grouping, path) {
            Some(id) => if expands(r, id, active) {
                proof {
                    lemma_located_grouping_is_held(r, u.grouping, path);
                    lemma_unexpanded_decreases(r, active, id);
                }
                resolve_data_defs(r, grouping_at(r, id).data_defs, path, active.push(id))
            } else {
                seq![d]
            },
            None => seq![d],
        },
        _ => seq![resolve_data_def(r, d, path, active)],
    }
}

/// What element `i` of `defs` becomes.
pub open spec fn expand_data_def_at(
    r: ReferenceResolverView,
    defs: Seq<DataDefView>,
    i: int,
    path: Seq<char>,
    active: Seq<GroupingIdView>,
) -> Seq<DataDefView>
    decreases unexpanded(r, active), defs, 0nat,
{
    if 0 <= i < defs.len() {
        expand_data_def(r, defs[i], path, active)
    } else {
        Seq::empty()
    }
}

/// What each element of `defs` becomes, element by element.
pub open spec fn expand_data_defs(
    r: ReferenceResolverView,
    defs: Seq<DataDefView>,
    path: Seq<char>,
    active: Seq<GroupingIdView>,
) -> Seq<Seq<DataDefView>>
    decreases unexpanded(r, active), defs, 1nat,
{
    Seq::new(defs.len(), |i: int| expand_data_def_at(r, defs, i, path, active))
}

/// A sequence of data definitions, resolved: what each element becomes, in
/// the order of the elements.
pub open spec fn resolve_data_defs(
    r: ReferenceResolverView,
    defs: Seq<DataDefView>,
    path: Seq<char>,
    active: Seq<GroupingIdView>,
) -> Seq<DataDefView>
    decreases unexpanded(r, active), defs, 2nat,
{
    expand_data_defs(r, defs, path, active).flatten()
}

/// A container, resolved; `path` is the container's own scope.
pub open spec fn resolve_container(
    r: ReferenceResolverView,
    c: ContainerView,
    path: Seq<char>,
    active: Seq<GroupingIdView>,
) -> ContainerView
    decreases unexpanded(r, active), c, 0nat,
{
    ContainerView {
        data_defs: resolve_data_defs(r, c.data_defs, path, active),
        actions: resolve_actions(r, c.actions, path, active),
        notifications: resolve_notifications(r, c.notifications, path, active),
        ..c
    }
}

/// A list, resolved; `path` is the list's own scope.
pub open spec fn resolve_list(
    r: ReferenceResolverView,
    l: ListView,
    path: Seq<char>,
    active: Seq<GroupingIdView>,
) -> ListView
    decreases unexpanded(r, active), l, 0nat,
{
    ListView {
        data_defs: resolve_data_defs(r, l.data_defs, path, active),
        actions: resolve_actions(r, l.actions, path, active),
        notifications: resolve_notifications(r, l.notifications, path, active),
        ..l
    }
}

/// A choice, resolved. A choice opens no scope: `path` is the scope that the
/// choice stands in.
pub open spec fn resolve_choice(
    r: ReferenceResolverView,
    c: ChoiceView,
    path: Seq<char>,
    active: Seq<GroupingIdView>,
) -> ChoiceView
    decreases unexpanded(r, active), c, 0nat,
{
    ChoiceView { cases: resolve_cases(r, c.cases, path, active), ..c }
}

/// Case `i` of `cases`, resolved.
pub open spec fn resolve_case_at(
    r: ReferenceResolverView,
    cases: Seq<CaseView>,
    i: int,
    path: Seq<char>,
    active: Seq<GroupingIdView>,
) -> CaseView
    decreases unexpanded(r, active), cases, 0nat,
{
    if 0 <= i < cases.len() {
        resolve_case(r, cases[i], path, active)
    } else {
        arbitrary()
    }
}

/// The cases of a choice, each resolved.
pub open spec fn resolve_cases(
    r: ReferenceResolverView,
    cases: Seq<CaseView>,
    path: Seq<char>,
    active: Seq<GroupingIdView>,
) -> Seq<CaseView>
    decreases unexpanded(r, active), cases, 1nat,
{
    Seq::new(cases.len(), |i: int| resolve_case_at(r, cases, i, path, active))
}

/// A case, resolved. A case opens no scope.
pub open spec fn resolve_case(
    r: ReferenceResolverView,
    c: CaseView,
    path: Seq<char>,
    active: Seq<GroupingIdView>,
) -> CaseView
    decreases unexpanded(r, active), c, 0nat,
{
    match c {
        CaseView::LongCase(l) => CaseView::LongCase(resolve_long_case(r, l, path, active)),
        CaseView::ShortCase(s) => CaseView::ShortCase(resolve_short_case(r, s, path, active)),
    }
}

/// A case written in full, resolved.
pub open spec fn resolve_long_case(
    r: ReferenceResolverView,
    l: LongCaseView,
    path: Seq<char>,
    active: Seq<GroupingIdView>,
) -> LongCaseView
    decreases unexpanded(r, active), l, 0nat,
{
    LongCaseView { data_defs: resolve_data_defs(r, l.data_defs, path, active), ..l }
}

/// A case in short form, resolved.
pub open spec fn resolve_short_case(
    r: ReferenceResolverView,
    s: ShortCaseView,
    path: Seq<char>,
    active: Seq<GroupingIdView>,
) -> ShortCaseView
    decreases unexpanded(r, active), s, 0nat,
{
    match s {
        ShortCaseView::Container(c) => ShortCaseView::Container(
            resolve_container(r, c, child_path(path, c.name), active),
        ),
        ShortCaseView::List(l) => ShortCaseView::List(
            resolve_list(r, l, child_path(path, l.name), active),
        ),
        ShortCaseView::Choice(c) => ShortCaseView::Choice(resolve_choice(r, c, path, active)),
        _ => s,
    }
}

/// Action `i` of `actions`, resolved. An action opens the scope of its name.
pub open spec fn resolve_action_at(
    r: ReferenceResolverView,
    actions: Seq<ActionView>,
    i: int,
    path: Seq<char>,
    active: Seq<GroupingIdView>,
) -> ActionView
    decreases unexpanded(r, active), actions, 0nat,
{
    if 0 <= i < actions.len() {
        resolve_action(r, actions[i], child_path(path, actions[i].name), active)
    } else {
        arbitrary()
    }
}

/// The actions of a node whose scope is `path`, each resolved.
pub open spec fn resolve_actions(
    r: ReferenceResolverView,
    actions: Seq<ActionView>,
    path: Seq<char>,
    active: Seq<GroupingIdView>,
) -> Seq<ActionView>
    decreases unexpanded(r, active), actions, 1nat,
{
    Seq::new(actions.len(), |i: int| resolve_action_at(r, actions, i, path, active))
}

/// An action, resolved; `path` is the action's own scope.
pub open spec fn resolve_action(
    r: ReferenceResolverView,
    a: ActionView,
    path: Seq<char>,
    active: Seq<GroupingIdView>,
) -> ActionView
    decreases unexpanded(r, active), a, 0nat,
{
    ActionView {
        input: match a.input {
            Some(i) => Some(resolve_input(r, i, child_path(path, input_scope()), active)),
            None => None,
        },
        output: match a.output {
            Some(o) => Some(resolve_output(r, o, child_path(path, output_scope()), active)),
            None => None,
        },
        ..a
    }
}

/// An input, resolved; `path` is the input's own scope.
pub open spec fn resolve_input(
    r: ReferenceResolverView,
    i: InputView,
    path: Seq<char>,
    active: Seq<GroupingIdView>,
) -> InputView
    decreases unexpanded(r, active), i, 0nat,
{
    InputView { data_defs: resolve_data_defs(r, i.data_defs, path, active), ..i }
}

/// An output, resolved; `path` is the output's own scope.
pub open spec fn resolve_output(
    r: ReferenceResolverView,
    o: OutputView,
    path: Seq<char>,
    active: Seq<GroupingIdView>,
) -> OutputView
    decreases unexpanded(r, active), o, 0nat,
{
    OutputView { data_defs: resolve_data_defs(r, o.data_defs, path, active), ..o }
}

/// Notification `i` of `notifications`, resolved. A notification opens the
/// scope of its name.
pub open spec fn resolve_notification_at(
    r: ReferenceResolverView,
    notifications: Seq<NotificationView>,
    i: int,
    path: Seq<char>,
    active: Seq<GroupingIdView>,
) -> NotificationView
    decreases unexpanded(r, active), notifications, 0nat,
{
    if 0 <= i < notifications.len() {
        resolve_notification(
            r,
            notifications[i],
            child_path(path, notifications[i].name),
            active,
        )
    } else {
        arbitrary()
    }
}

/// The notifications of a node whose scope is `path`, each resolved.
pub open spec fn resolve_notifications(
    r: ReferenceResolverView,
    notifications: Seq<NotificationView>,
    path: Seq<char>,
    active: Seq<GroupingIdView>,
) -> Seq<NotificationView>
    decreases unexpanded(r, active), notifications, 1nat,
{
    Seq::new(
        notifications.len(),
        |i: int| resolve_notification_at(r, notifications, i, path, active),
    )
}

/// A notification, resolved; `path` is the notification's own scope.
pub open spec fn resolve_notification(
    r: ReferenceResolverView,
    n: NotificationView,
    path: Seq<char>,
    active: Seq<GroupingIdView>,
) -> NotificationView
    decreases unexpanded(r, active), n, 0nat,
{
    NotificationView { data_defs: resolve_data_defs(r, n.data_defs, path, active), ..n }
}

/// An augment, resolved, with `path` as its scope.
pub open spec fn resolve_augment(
    r: ReferenceResolverView,
    a: AugmentView,
    path: Seq<char>,
    active: Seq<GroupingIdView>,
) -> AugmentView {
    AugmentView {
        data_defs: resolve_data_defs(r, a.data_defs, path, active),
        cases: resolve_cases(r, a.cases, path, active),
        actions: resolve_actions(r, a.actions, path, active),
        notifications: resolve_notifications(r, a.notifications, path, active),
        ..a
    }
}

/// An rpc, resolved; `path` is the rpc's own scope.
pub open spec fn resolve_rpc(
    r: ReferenceResolverView,
    x: RpcView,
    path: Seq<char>,
    active: Seq<GroupingIdView>,
) -> RpcView {
    RpcView {
        input: match x.input {
            Some(i) => Some(resolve_input(r, i, child_path(path, input_scope()), active)),
            None => None,
        },
        output: match x.output {
            Some(o) => Some(resolve_output(r, o, child_path(path, output_scope()), active)),
            None => None,
        },
        ..x
    }
}

/// A node of a module body, with the references below it resolved. `path` is
/// the scope that the node stands in.
pub open spec fn resolve_schema_node(
    r: ReferenceResolverView,
    n: SchemaNodeView,
    path: Seq<char>,
    active: Seq<GroupingIdView>,
) -> SchemaNodeView {
    match n {
        SchemaNodeView::DataDef(d) => SchemaNodeView::DataDef(
            resolve_data_def(r, d, path, active),
        ),
        SchemaNodeView::Rpc(x) => SchemaNodeView::Rpc(
            resolve_rpc(r, x, child_path(path, x.name), active),
        ),
        SchemaNodeView::Notification(x) => SchemaNodeView::Notification(
            resolve_notification(r, x, child_path(path, x.name), active),
        ),
    }
}

/// Data definitions as nodes of a module body.
pub open spec fn as_schema_nodes(defs: Seq<DataDefView>) -> Seq<SchemaNodeView> {
    Seq::new(defs.len(), |i: int| SchemaNodeView::DataDef(defs[i]))
}

/// What one node of a module body becomes: a data definition becomes what
/// [`expand_data_def`] says, any other node stays one node, resolved below.
pub open spec fn expand_schema_node(
    r: ReferenceResolverView,
    n: SchemaNodeView,
    path: Seq<char>,
    active: Seq<GroupingIdView>,
) -> Seq<SchemaNodeView> {
    match n {
        SchemaNodeView::DataDef(d) => as_schema_nodes(expand_data_def(r, d, path, active)),
        _ => seq![resolve_schema_node(r, n, path, active)],
    }
}

/// What each node of a module body becomes, node by node.
pub open spec fn expand_body(
    r: ReferenceResolverView,
    body: Seq<SchemaNodeView>,
    active: Seq<GroupingIdView>,
) -> Seq<Seq<SchemaNodeView>> {
    Seq::new(body.len(), |i: int| expand_schema_node(r, body[i], root_path(), active))
}

/// The body of a module, resolved: what each node becomes, in the order of
/// the nodes. The body is the root scope.
pub open spec fn resolve_body(
    r: ReferenceResolverView,
    body: Seq<SchemaNodeView>,
    active: Seq<GroupingIdView>,
) -> Seq<SchemaNodeView> {
    expand_body(r, body, active).flatten()
}

/// A module, resolved: its body is resolved, the rest is as it was.
pub open spec fn resolve_module(r: ReferenceResolverView, m: ModuleView) -> ModuleView {
    ModuleView { body: resolve_body(r, m.body, Seq::empty()), ..m }
}

/// Resolution goes through a sequence of data definitions piece by piece and
/// keeps the order of the pieces: what `a + b` becomes is what `a` becomes,
/// followed by what `b` becomes.
pub proof fn lemma_resolve_data_defs_concat(
    r: ReferenceResolverView,
    a: Seq<DataDefView>,
    b: Seq<DataDefView>,
    path: Seq<char>,
    active: Seq<GroupingIdView>,
)
    ensures
        resolve_data_defs(r, a + b, path, active) == resolve_data_defs(
            r,
            a,
            path,
            active,
        )
            + resolve_data_defs(r, b, path, active),
{
    let fa = expand_data_defs(r, a, path, active);
    let fb = expand_data_defs(r, b, path, active);
    assert(expand_data_defs(r, a + b, path, active) =~= fa + fb);
    vstd::seq_lib::lemma_flatten_concat(fa, fb);
}

/// A single data definition becomes what [`expand_data_def`] says: a `uses`
/// gives way to the resolved definitions of its grouping, in their order.
pub proof fn lemma_resolve_data_defs_one(
    r: ReferenceResolverView,
    d: DataDefView,
    path: Seq<char>,
    active: Seq<GroupingIdView>,
)
    ensures
        resolve_data_defs(r, seq![d], path, active) == expand_data_def(
            r,
            d,
            path,
            active,
        ),
{
    let f = expand_data_defs(r, seq![d], path, active);
    assert(f.len() == 1);
    f.lemma_flatten_singleton();
}

/// No data definitions become none.
pub proof fn lemma_resolve_data_defs_empty(
    r: ReferenceResolverView,
    path: Seq<char>,
    active: Seq<GroupingIdView>,
)
    ensures
        resolve_data_defs(r, Seq::empty(), path, active) == Seq::<DataDefView>::empty(),
{
    let f = expand_data_defs(r, Seq::empty(), path, active);
    assert(f =~= Seq::<Seq<DataDefView>>::empty());
}

/// What `defs` followed by `d` becomes.
pub proof fn lemma_resolve_data_defs_push(
    r: ReferenceResolverView,
    defs: Seq<DataDefView>,
    d: DataDefView,
    path: Seq<char>,
    active: Seq<GroupingIdView>,
)
    ensures
        resolve_data_defs(r, defs.push(d), path, active) == resolve_data_defs(
            r,
            defs,
            path,
            active,
        )
            + expand_data_def(r, d, path, active),
{
    assert(defs.push(d) =~= defs + seq![d]);
    lemma_resolve_data_defs_concat(r, defs, seq![d], path, active);
    lemma_resolve_data_defs_one(r, d, path, active);
}

/// Order preservation. The resolved children of a node are its children in
/// their source order, with each one replaced by what it becomes: what stands
/// before child `i` becomes what stands before its replacement, and what
/// stands after it becomes what stands after. A `uses` that finds its
/// grouping is replaced by the resolved data definitions of that grouping, in
/// their order; see [`expand_data_def`].
pub proof fn lemma_order_preservation(
    r: ReferenceResolverView,
    defs: Seq<DataDefView>,
    i: int,
    path: Seq<char>,
    active: Seq<GroupingIdView>,
)
    requires
        0 <= i < defs.len(),
    ensures
        resolve_data_defs(r, defs, path, active) == resolve_data_defs(
            r,
            defs.take(i),
            path,
            active,
        )
            + expand_data_def(r, defs[i], path, active) + resolve_data_defs(
            r,
            defs.skip(i + 1),
            path,
            active,
        ),
{
    let before = defs.take(i);
    let after = defs.skip(i + 1);
    assert(defs =~= before + seq![defs[i]] + after);
    lemma_resolve_data_defs_concat(r, before + seq![defs[i]], after, path, active);
    lemma_resolve_data_defs_concat(r, before, seq![defs[i]], path, active);
    lemma_resolve_data_defs_one(r, defs[i], path, active);
}

/// The body of a module is gone through piece by piece, in order, like any
/// sequence of data definitions.
pub proof fn lemma_resolve_body_concat(
    r: ReferenceResolverView,
    a: Seq<SchemaNodeView>,
    b: Seq<SchemaNodeView>,
    active: Seq<GroupingIdView>,
)
    ensures
        resolve_body(r, a + b, active) == resolve_body(r, a, active) + resolve_body(
            r,
            b,
            active,
        ),
{
    let fa = expand_body(r, a, active);
    let fb = expand_body(r, b, active);
    assert(expand_body(r, a + b, active) =~= fa + fb);
    vstd::seq_lib::lemma_flatten_concat(fa, fb);
}

/// What a body followed by the node `n` becomes.
pub proof fn lemma_resolve_body_push(
    r: ReferenceResolverView,
    body: Seq<SchemaNodeView>,
    n: SchemaNodeView,
    active: Seq<GroupingIdView>,
)
    ensures
        resolve_body(r, body.push(n), active) == resolve_body(r, body, active)
            + expand_schema_node(r, n, root_path(), active),
{
    assert(body.push(n) =~= body + seq![n]);
    lemma_resolve_body_concat(r, body, seq![n], active);
    let f = expand_body(r, seq![n], active);
    assert(f.len() == 1);
    f.lemma_flatten_singleton();
}

} // verus!
