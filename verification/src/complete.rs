//! When resolution leaves no `uses` behind: exactly when every `uses` it
//! meets finds its grouping and is expanded, which is to say that the
//! grouping is not under expansion already.

use crate::path::{child_path, root_path};
use crate::resolution::{
    as_schema_nodes, expand_body, expand_data_def, expand_data_defs, expand_schema_node, expands,
    input_scope, output_scope, resolve_action, resolve_action_at, resolve_actions, resolve_case,
    resolve_case_at, resolve_cases, resolve_container, resolve_data_def, resolve_data_defs,
    resolve_list, resolve_module, resolve_notification_at, resolve_notifications,
    resolve_schema_node,
};
use crate::resolved::{
    action_is_resolved, actions_are_resolved, body_is_resolved, case_is_resolved,
    cases_are_resolved, container_is_resolved, data_def_is_resolved, data_defs_are_resolved,
    list_is_resolved, module_is_resolved, notification_is_resolved, notifications_are_resolved,
    schema_node_is_resolved,
};
use crate::resolver::{
    grouping_at, lemma_located_grouping_is_held, lemma_unexpanded_decreases, locate_grouping,
    unexpanded, GroupingIdView, ReferenceResolverView,
};
use crate::yang::{
    ActionView, CaseView, ChoiceView, ContainerView, DataDefView, ListView, ModuleView,
    NotificationView, SchemaNodeView, ShortCaseView,
};
use vstd::prelude::*;

verus! {

/// Every `uses` at or below `d` finds its grouping and is expanded, and so
/// does every `uses` that an expansion brings in.
pub open spec fn data_def_resolves_fully(
    r: ReferenceResolverView,
    d: DataDefView,
    path: Seq<char>,
    active: Seq<GroupingIdView>,
) -> bool
    decreases unexpanded(r, active), d, 0nat,
{
    match d {
        DataDefView::Uses(u) => match locate_grouping(r, u.grouping, path) {
            Some(id) => if expands(r, id, active) {
                proof {
                    lemma_located_grouping_is_held(r, u.grouping, path);
                    lemma_unexpanded_decreases(r, active, id);
                }
                data_defs_resolve_fully(r, grouping_at(r, id).data_defs, path, active.push(id))
            } else {
                false
            },
            None => false,
        },
        DataDefView::Container(c) => container_resolves_fully(
            r,
            c,
            child_path(path, c.name),
            active,
        ),
        DataDefView::List(l) => list_resolves_fully(r, l, child_path(path, l.name), active),
        DataDefView::Choice(c) => choice_resolves_fully(r, c, path, active),
        _ => true,
    }
}

/// Each of `defs` resolves fully in the scope `path`.
pub open spec fn data_defs_resolve_fully(
    r: ReferenceResolverView,
    defs: Seq<DataDefView>,
    path: Seq<char>,
    active: Seq<GroupingIdView>,
) -> bool
    decreases unexpanded(r, active), defs, 1nat,
{
    forall|i: int|
        0 <= i < defs.len() ==> data_def_resolves_fully(r, #[trigger] defs[i], path, active)
}

/// The members of the container whose scope is `path` resolve fully.
pub open spec fn container_resolves_fully(
    r: ReferenceResolverView,
    c: ContainerView,
    path: Seq<char>,
    active: Seq<GroupingIdView>,
) -> bool
    decreases unexpanded(r, active), c, 0nat,
{
    &&& data_defs_resolve_fully(r, c.data_defs, path, active)
    &&& actions_resolve_fully(r, c.actions, path, active)
    &&& notifications_resolve_fully(r, c.notifications, path, active)
}

/// The members of the list whose scope is `path` resolve fully.
pub open spec fn list_resolves_fully(
    r: ReferenceResolverView,
    l: ListView,
    path: Seq<char>,
    active: Seq<GroupingIdView>,
) -> bool
    decreases unexpanded(r, active), l, 0nat,
{
    &&& data_defs_resolve_fully(r, l.data_defs, path, active)
    &&& actions_resolve_fully(r, l.actions, path, active)
    &&& notifications_resolve_fully(r, l.notifications, path, active)
}

/// The cases of the choice resolve fully.
pub open spec fn choice_resolves_fully(
    r: ReferenceResolverView,
    c: ChoiceView,
    path: Seq<char>,
    active: Seq<GroupingIdView>,
) -> bool
    decreases unexpanded(r, active), c, 0nat,
{
    cases_resolve_fully(r, c.cases, path, active)
}

/// Each of `cases` resolves fully.
pub open spec fn cases_resolve_fully(
    r: ReferenceResolverView,
    cases: Seq<CaseView>,
    path: Seq<char>,
    active: Seq<GroupingIdView>,
) -> bool
    decreases unexpanded(r, active), cases, 1nat,
{
    forall|i: int| 0 <= i < cases.len() ==> case_resolves_fully(
        r,
        #[trigger] cases[i],
        path,
        active,
    )
}

/// The case resolves fully.
pub open spec fn case_resolves_fully(
    r: ReferenceResolverView,
    c: CaseView,
    path: Seq<char>,
    active: Seq<GroupingIdView>,
) -> bool
    decreases unexpanded(r, active), c, 0nat,
{
    match c {
        CaseView::LongCase(l) => data_defs_resolve_fully(r, l.data_defs, path, active),
        CaseView::ShortCase(s) => match s {
            ShortCaseView::Container(c) => container_resolves_fully(
                r,
                c,
                child_path(path, c.name),
                active,
            ),
            ShortCaseView::List(l) => list_resolves_fully(
                r,
                l,
                child_path(path, l.name),
                active,
            ),
            ShortCaseView::Choice(c) => choice_resolves_fully(r, c, path, active),
            _ => true,
        },
    }
}

/// Each of the actions of the node whose scope is `path` resolves fully.
pub open spec fn actions_resolve_fully(
    r: ReferenceResolverView,
    actions: Seq<ActionView>,
    path: Seq<char>,
    active: Seq<GroupingIdView>,
) -> bool
    decreases unexpanded(r, active), actions, 1nat,
{
    forall|i: int|
        0 <= i < actions.len() ==> action_resolves_fully(
            r,
            #[trigger] actions[i],
            child_path(path, actions[i].name),
            active,
        )
}

/// The input and output of the action whose scope is `path` resolve fully.
pub open spec fn action_resolves_fully(
    r: ReferenceResolverView,
    a: ActionView,
    path: Seq<char>,
    active: Seq<GroupingIdView>,
) -> bool
    decreases unexpanded(r, active), a, 0nat,
{
    &&& a.input matches Some(i) ==> data_defs_resolve_fully(
        r,
        i.data_defs,
        child_path(path, input_scope()),
        active,
    )
    &&& a.output matches Some(o) ==> data_defs_resolve_fully(
        r,
        o.data_defs,
        child_path(path, output_scope()),
        active,
    )
}

/// Each of the notifications of the node whose scope is `path` resolves fully.
pub open spec fn notifications_resolve_fully(
    r: ReferenceResolverView,
    notifications: Seq<NotificationView>,
    path: Seq<char>,
    active: Seq<GroupingIdView>,
) -> bool
    decreases unexpanded(r, active), notifications, 1nat,
{
    forall|i: int|
        0 <= i < notifications.len() ==> data_defs_resolve_fully(
            r,
            (#[trigger] notifications[i]).data_defs,
            child_path(path, notifications[i].name),
            active,
        )
}

/// The node of a module body resolves fully; `path` is the scope it stands in.
pub open spec fn schema_node_resolves_fully(
    r: ReferenceResolverView,
    n: SchemaNodeView,
    path: Seq<char>,
    active: Seq<GroupingIdView>,
) -> bool {
    match n {
        SchemaNodeView::DataDef(d) => data_def_resolves_fully(r, d, path, active),
        SchemaNodeView::Rpc(x) => {
            let own = child_path(path, x.name);
            &&& x.input matches Some(i) ==> data_defs_resolve_fully(
                r,
                i.data_defs,
                child_path(own, input_scope()),
                active,
            )
            &&& x.output matches Some(o) ==> data_defs_resolve_fully(
                r,
                o.data_defs,
                child_path(own, output_scope()),
                active,
            )
        },
        SchemaNodeView::Notification(x) => data_defs_resolve_fully(
            r,
            x.data_defs,
            child_path(path, x.name),
            active,
        ),
    }
}

/// Every `uses` that the resolution of `m` meets finds its grouping, and no
/// grouping is met inside its own expansion.
pub open spec fn module_resolves_fully(r: ReferenceResolverView, m: ModuleView) -> bool {
    forall|i: int|
        0 <= i < m.body.len() ==> schema_node_resolves_fully(
            r,
            #[trigger] m.body[i],
            root_path(),
            Seq::empty(),
        )
}

/// Pieces put end to end hold no `uses` exactly when no piece holds one.
pub proof fn lemma_flatten_resolved(parts: Seq<Seq<DataDefView>>)
    ensures
        data_defs_are_resolved(parts.flatten()) <==> forall|i: int|
            0 <= i < parts.len() ==> data_defs_are_resolved(#[trigger] parts[i]),
    decreases parts.len(),
{
    if parts.len() == 0 {
        assert(parts.flatten() =~= Seq::empty());
    } else {
        let head = parts.drop_last();
        let last = parts.last();
        lemma_flatten_resolved(head);
        assert(parts =~= head.push(last));
        head.lemma_flatten_push(last);
        let whole = head.flatten() + last;
        assert(parts.flatten() =~= whole);
        if data_defs_are_resolved(whole) {
            assert forall|k: int| 0 <= k < head.flatten().len() implies data_def_is_resolved(
                #[trigger] head.flatten()[k],
            ) by {
                assert(whole[k] == head.flatten()[k]);
            }
            assert forall|k: int| 0 <= k < last.len() implies data_def_is_resolved(
                #[trigger] last[k],
            ) by {
                assert(whole[head.flatten().len() + k] == last[k]);
            }
            assert forall|i: int| 0 <= i < parts.len() implies data_defs_are_resolved(
                #[trigger] parts[i],
            ) by {
                if i < head.len() {
                    assert(head[i] == parts[i]);
                }
            }
        }
        if forall|i: int| 0 <= i < parts.len() ==> data_defs_are_resolved(#[trigger] parts[i]) {
            assert forall|i: int| 0 <= i < head.len() implies data_defs_are_resolved(
                #[trigger] head[i],
            ) by {
                assert(head[i] == parts[i]);
            }
            assert(data_defs_are_resolved(parts[parts.len() - 1]));
            assert forall|k: int| 0 <= k < whole.len() implies data_def_is_resolved(
                #[trigger] whole[k],
            ) by {
                if k < head.flatten().len() {
                    assert(whole[k] == head.flatten()[k]);
                } else {
                    assert(whole[k] == last[k - head.flatten().len()]);
                }
            }
        }
    }
}

/// What a data definition becomes holds no `uses` exactly when the
/// definition resolves fully.
pub proof fn lemma_data_def_resolved_iff(
    r: ReferenceResolverView,
    d: DataDefView,
    path: Seq<char>,
    active: Seq<GroupingIdView>,
)
    ensures
        data_defs_are_resolved(expand_data_def(r, d, path, active))
            <==> data_def_resolves_fully(r, d, path, active),
        !(d is Uses) ==> (data_def_is_resolved(resolve_data_def(r, d, path, active))
            <==> data_def_resolves_fully(r, d, path, active)),
    decreases unexpanded(r, active), d, 0nat,
{
    match d {
        DataDefView::Uses(u) => {
            match locate_grouping(r, u.grouping, path) {
                Some(id) => {
                    if expands(r, id, active) {
                        lemma_located_grouping_is_held(r, u.grouping, path);
                        lemma_unexpanded_decreases(r, active, id);
                        lemma_data_defs_resolved_iff(
                            r,
                            grouping_at(r, id).data_defs,
                            path,
                            active.push(id),
                        );
                    } else {
                        assert(!data_def_is_resolved(seq![d][0]));
                    }
                },
                None => {
                    assert(!data_def_is_resolved(seq![d][0]));
                },
            }
        },
        DataDefView::Container(c) => {
            lemma_container_resolved_iff(r, c, child_path(path, c.name), active);
            let one = seq![resolve_data_def(r, d, path, active)];
            assert(data_defs_are_resolved(one) <==> data_def_is_resolved(one[0]));
        },
        DataDefView::List(l) => {
            lemma_list_resolved_iff(r, l, child_path(path, l.name), active);
            let one = seq![resolve_data_def(r, d, path, active)];
            assert(data_defs_are_resolved(one) <==> data_def_is_resolved(one[0]));
        },
        DataDefView::Choice(c) => {
            lemma_cases_resolved_iff(r, c.cases, path, active);
            let one = seq![resolve_data_def(r, d, path, active)];
            assert(data_defs_are_resolved(one) <==> data_def_is_resolved(one[0]));
        },
        _ => {
            let one = seq![resolve_data_def(r, d, path, active)];
            assert(data_defs_are_resolved(one) <==> data_def_is_resolved(one[0]));
        },
    }
}

/// Resolved data definitions hold no `uses` exactly when each of them
/// resolves fully.
pub proof fn lemma_data_defs_resolved_iff(
    r: ReferenceResolverView,
    defs: Seq<DataDefView>,
    path: Seq<char>,
    active: Seq<GroupingIdView>,
)
    ensures
        data_defs_are_resolved(resolve_data_defs(r, defs, path, active))
            <==> data_defs_resolve_fully(r, defs, path, active),
    decreases unexpanded(r, active), defs, 1nat,
{
    let parts = expand_data_defs(r, defs, path, active);
    lemma_flatten_resolved(parts);
    assert forall|i: int| 0 <= i < defs.len() implies (data_defs_are_resolved(#[trigger] parts[i])
        <==> data_def_resolves_fully(r, defs[i], path, active)) by {
        lemma_data_def_resolved_iff(r, defs[i], path, active);
    }
    if data_defs_resolve_fully(r, defs, path, active) {
        assert forall|i: int| 0 <= i < parts.len() implies data_defs_are_resolved(
            #[trigger] parts[i],
        ) by {
            assert(data_def_resolves_fully(r, defs[i], path, active));
        }
    }
    if data_defs_are_resolved(parts.flatten()) {
        assert forall|i: int| 0 <= i < defs.len() implies data_def_resolves_fully(
            r,
            #[trigger] defs[i],
            path,
            active,
        ) by {
            assert(data_defs_are_resolved(parts[i]));
        }
    }
}

/// A resolved container holds no `uses` exactly when its members resolve fully.
pub proof fn lemma_container_resolved_iff(
    r: ReferenceResolverView,
    c: ContainerView,
    path: Seq<char>,
    active: Seq<GroupingIdView>,
)
    ensures
        container_is_resolved(resolve_container(r, c, path, active))
            <==> container_resolves_fully(r, c, path, active),
    decreases unexpanded(r, active), c, 0nat,
{
    lemma_data_defs_resolved_iff(r, c.data_defs, path, active);
    lemma_actions_resolved_iff(r, c.actions, path, active);
    lemma_notifications_resolved_iff(r, c.notifications, path, active);
}

/// A resolved list holds no `uses` exactly when its members resolve fully.
pub proof fn lemma_list_resolved_iff(
    r: ReferenceResolverView,
    l: ListView,
    path: Seq<char>,
    active: Seq<GroupingIdView>,
)
    ensures
        list_is_resolved(resolve_list(r, l, path, active)) <==> list_resolves_fully(
            r,
            l,
            path,
            active,
        ),
    decreases unexpanded(r, active), l, 0nat,
{
    lemma_data_defs_resolved_iff(r, l.data_defs, path, active);
    lemma_actions_resolved_iff(r, l.actions, path, active);
    lemma_notifications_resolved_iff(r, l.notifications, path, active);
}

/// Resolved cases hold no `uses` exactly when each of them resolves fully.
pub proof fn lemma_cases_resolved_iff(
    r: ReferenceResolverView,
    cases: Seq<CaseView>,
    path: Seq<char>,
    active: Seq<GroupingIdView>,
)
    ensures
        cases_are_resolved(resolve_cases(r, cases, path, active)) <==> cases_resolve_fully(
            r,
            cases,
            path,
            active,
        ),
    decreases unexpanded(r, active), cases, 1nat,
{
    let out = resolve_cases(r, cases, path, active);
    assert forall|i: int| 0 <= i < cases.len() implies (case_is_resolved(#[trigger] out[i])
        <==> case_resolves_fully(r, cases[i], path, active)) by {
        assert(out[i] == resolve_case_at(r, cases, i, path, active));
        lemma_case_resolved_iff(r, cases[i], path, active);
    }
    if cases_resolve_fully(r, cases, path, active) {
        assert forall|i: int| 0 <= i < out.len() implies case_is_resolved(#[trigger] out[i]) by {
            assert(case_resolves_fully(r, cases[i], path, active));
        }
    }
    if cases_are_resolved(out) {
        assert forall|i: int| 0 <= i < cases.len() implies case_resolves_fully(
            r,
            #[trigger] cases[i],
            path,
            active,
        ) by {
            assert(case_is_resolved(out[i]));
        }
    }
}

/// A resolved case holds no `uses` exactly when the case resolves fully.
pub proof fn lemma_case_resolved_iff(
    r: ReferenceResolverView,
    c: CaseView,
    path: Seq<char>,
    active: Seq<GroupingIdView>,
)
    ensures
        case_is_resolved(resolve_case(r, c, path, active)) <==> case_resolves_fully(
            r,
            c,
            path,
            active,
        ),
    decreases unexpanded(r, active), c, 0nat,
{
    match c {
        CaseView::LongCase(l) => {
            lemma_data_defs_resolved_iff(r, l.data_defs, path, active);
        },
        CaseView::ShortCase(s) => {
            match s {
                ShortCaseView::Container(c) => lemma_container_resolved_iff(
                    r,
                    c,
                    child_path(path, c.name),
                    active,
                ),
                ShortCaseView::List(l) => lemma_list_resolved_iff(
                    r,
                    l,
                    child_path(path, l.name),
                    active,
                ),
                ShortCaseView::Choice(c) => lemma_cases_resolved_iff(
                    r,
                    c.cases,
                    path,
                    active,
                ),
                _ => {},
            }
        },
    }
}

/// Resolved actions hold no `uses` exactly when each of them resolves fully.
pub proof fn lemma_actions_resolved_iff(
    r: ReferenceResolverView,
    actions: Seq<ActionView>,
    path: Seq<char>,
    active: Seq<GroupingIdView>,
)
    ensures
        actions_are_resolved(resolve_actions(r, actions, path, active))
            <==> actions_resolve_fully(r, actions, path, active),
    decreases unexpanded(r, active), actions, 1nat,
{
    let out = resolve_actions(r, actions, path, active);
    assert forall|i: int| 0 <= i < actions.len() implies (action_is_resolved(#[trigger] out[i])
        <==> action_resolves_fully(
        r,
        actions[i],
        child_path(path, actions[i].name),
        active,
    )) by {
        assert(out[i] == resolve_action_at(r, actions, i, path, active));
        lemma_action_resolved_iff(r, actions[i], child_path(path, actions[i].name), active);
    }
    if actions_resolve_fully(r, actions, path, active) {
        assert forall|i: int| 0 <= i < out.len() implies action_is_resolved(#[trigger] out[i]) by {
            assert(action_resolves_fully(
                r,
                actions[i],
                child_path(path, actions[i].name),
                active,
            ));
        }
    }
    if actions_are_resolved(out) {
        assert forall|i: int| 0 <= i < actions.len() implies action_resolves_fully(
            r,
            #[trigger] actions[i],
            child_path(path, actions[i].name),
            active,
        ) by {
            assert(action_is_resolved(out[i]));
        }
    }
}

/// A resolved action holds no `uses` exactly when the action resolves fully.
pub proof fn lemma_action_resolved_iff(
    r: ReferenceResolverView,
    a: ActionView,
    path: Seq<char>,
    active: Seq<GroupingIdView>,
)
    ensures
        action_is_resolved(resolve_action(r, a, path, active)) <==> action_resolves_fully(
            r,
            a,
            path,
            active,
        ),
    decreases unexpanded(r, active), a, 0nat,
{
    match a.input {
        Some(i) => lemma_data_defs_resolved_iff(
            r,
            i.data_defs,
            child_path(path, input_scope()),
            active,
        ),
        None => {},
    }
    match a.output {
        Some(o) => lemma_data_defs_resolved_iff(
            r,
            o.data_defs,
            child_path(path, output_scope()),
            active,
        ),
        None => {},
    }
}

/// Resolved notifications hold no `uses` exactly when each of them resolves
/// fully.
pub proof fn lemma_notifications_resolved_iff(
    r: ReferenceResolverView,
    notifications: Seq<NotificationView>,
    path: Seq<char>,
    active: Seq<GroupingIdView>,
)
    ensures
        notifications_are_resolved(resolve_notifications(r, notifications, path, active))
            <==> notifications_resolve_fully(r, notifications, path, active),
    decreases unexpanded(r, active), notifications, 1nat,
{
    let out = resolve_notifications(r, notifications, path, active);
    assert forall|i: int| 0 <= i < notifications.len() implies (notification_is_resolved(
        #[trigger] out[i],
    ) <==> data_defs_resolve_fully(
        r,
        notifications[i].data_defs,
        child_path(path, notifications[i].name),
        active,
    )) by {
        assert(out[i] == resolve_notification_at(r, notifications, i, path, active));
        lemma_data_defs_resolved_iff(
            r,
            notifications[i].data_defs,
            child_path(path, notifications[i].name),
            active,
        );
    }
    if notifications_resolve_fully(r, notifications, path, active) {
        assert forall|i: int| 0 <= i < out.len() implies notification_is_resolved(
            #[trigger] out[i],
        ) by {
            assert(data_defs_resolve_fully(
                r,
                notifications[i].data_defs,
                child_path(path, notifications[i].name),
                active,
            ));
        }
    }
    if notifications_are_resolved(out) {
        assert forall|i: int| 0 <= i < notifications.len() implies data_defs_resolve_fully(
            r,
            (#[trigger] notifications[i]).data_defs,
            child_path(path, notifications[i].name),
            active,
        ) by {
            assert(notification_is_resolved(out[i]));
        }
    }
}

/// Pieces of a module body put end to end hold no `uses` exactly when no
/// piece holds one.
pub proof fn lemma_flatten_resolved_body(parts: Seq<Seq<SchemaNodeView>>)
    ensures
        body_is_resolved(parts.flatten()) <==> forall|i: int|
            0 <= i < parts.len() ==> body_is_resolved(#[trigger] parts[i]),
    decreases parts.len(),
{
    if parts.len() == 0 {
        assert(parts.flatten() =~= Seq::empty());
    } else {
        let head = parts.drop_last();
        let last = parts.last();
        lemma_flatten_resolved_body(head);
        assert(parts =~= head.push(last));
        head.lemma_flatten_push(last);
        let whole = head.flatten() + last;
        assert(parts.flatten() =~= whole);
        if body_is_resolved(whole) {
            assert forall|k: int| 0 <= k < head.flatten().len() implies schema_node_is_resolved(
                #[trigger] head.flatten()[k],
            ) by {
                assert(whole[k] == head.flatten()[k]);
            }
            assert forall|k: int| 0 <= k < last.len() implies schema_node_is_resolved(
                #[trigger] last[k],
            ) by {
                assert(whole[head.flatten().len() + k] == last[k]);
            }
            assert forall|i: int| 0 <= i < parts.len() implies body_is_resolved(
                #[trigger] parts[i],
            ) by {
                if i < head.len() {
                    assert(head[i] == parts[i]);
                }
            }
        }
        if forall|i: int| 0 <= i < parts.len() ==> body_is_resolved(#[trigger] parts[i]) {
            assert forall|i: int| 0 <= i < head.len() implies body_is_resolved(
                #[trigger] head[i],
            ) by {
                assert(head[i] == parts[i]);
            }
            assert(body_is_resolved(parts[parts.len() - 1]));
            assert forall|k: int| 0 <= k < whole.len() implies schema_node_is_resolved(
                #[trigger] whole[k],
            ) by {
                if k < head.flatten().len() {
                    assert(whole[k] == head.flatten()[k]);
                } else {
                    assert(whole[k] == last[k - head.flatten().len()]);
                }
            }
        }
    }
}

/// What a node of a module body becomes holds no `uses` exactly when the
/// node resolves fully.
pub proof fn lemma_schema_node_resolved_iff(
    r: ReferenceResolverView,
    n: SchemaNodeView,
    path: Seq<char>,
    active: Seq<GroupingIdView>,
)
    ensures
        body_is_resolved(expand_schema_node(r, n, path, active))
            <==> schema_node_resolves_fully(r, n, path, active),
{
    match n {
        SchemaNodeView::DataDef(d) => {
            lemma_data_def_resolved_iff(r, d, path, active);
            let defs = expand_data_def(r, d, path, active);
            let nodes = as_schema_nodes(defs);
            if data_defs_are_resolved(defs) {
                assert forall|i: int| 0 <= i < nodes.len() implies schema_node_is_resolved(
                    #[trigger] nodes[i],
                ) by {
                    assert(data_def_is_resolved(defs[i]));
                }
            }
            if body_is_resolved(nodes) {
                assert forall|i: int| 0 <= i < defs.len() implies data_def_is_resolved(
                    #[trigger] defs[i],
                ) by {
                    assert(schema_node_is_resolved(nodes[i]));
                }
            }
        },
        SchemaNodeView::Rpc(x) => {
            let own = child_path(path, x.name);
            match x.input {
                Some(i) => lemma_data_defs_resolved_iff(
                    r,
                    i.data_defs,
                    child_path(own, input_scope()),
                    active,
                ),
                None => {},
            }
            match x.output {
                Some(o) => lemma_data_defs_resolved_iff(
                    r,
                    o.data_defs,
                    child_path(own, output_scope()),
                    active,
                ),
                None => {},
            }
            let one = seq![resolve_schema_node(r, n, path, active)];
            assert(body_is_resolved(one) <==> schema_node_is_resolved(one[0]));
        },
        SchemaNodeView::Notification(x) => {
            lemma_data_defs_resolved_iff(r, x.data_defs, child_path(path, x.name), active);
            let one = seq![resolve_schema_node(r, n, path, active)];
            assert(body_is_resolved(one) <==> schema_node_is_resolved(one[0]));
        },
    }
}

/// No `uses` after resolution: the resolved module holds no `uses` anywhere
/// exactly when every `uses` that resolution meets finds its grouping, and
/// no grouping is met inside its own expansion. A `uses` that finds none
/// stays, and so does one that would expand without end, so nothing weaker
/// will do.
pub proof fn lemma_module_resolved_iff(r: ReferenceResolverView, m: ModuleView)
    ensures
        module_is_resolved(resolve_module(r, m)) <==> module_resolves_fully(r, m),
{
    let active = Seq::<GroupingIdView>::empty();
    let parts = expand_body(r, m.body, active);
    lemma_flatten_resolved_body(parts);
    assert forall|i: int| 0 <= i < m.body.len() implies (body_is_resolved(#[trigger] parts[i])
        <==> schema_node_resolves_fully(r, m.body[i], root_path(), active)) by {
        lemma_schema_node_resolved_iff(r, m.body[i], root_path(), active);
    }
    if module_resolves_fully(r, m) {
        assert forall|i: int| 0 <= i < parts.len() implies body_is_resolved(
            #[trigger] parts[i],
        ) by {
            assert(schema_node_resolves_fully(r, m.body[i], root_path(), active));
        }
    }
    if body_is_resolved(parts.flatten()) {
        assert forall|i: int| 0 <= i < m.body.len() implies schema_node_resolves_fully(
            r,
            #[trigger] m.body[i],
            root_path(),
            active,
        ) by {
            assert(body_is_resolved(parts[i]));
        }
    }
}

} // verus!
