//! Resolved models: trees that hold no `uses`, and what resolution does to them.

use crate::path::{child_path, root_path};
use crate::resolution::{
    as_schema_nodes, expand_body, expand_data_def, expand_data_defs, expand_schema_node,
    input_scope, output_scope, resolve_action, resolve_action_at, resolve_actions, resolve_case,
    resolve_case_at, resolve_cases, resolve_choice, resolve_container, resolve_data_def,
    resolve_data_defs, resolve_list, resolve_module, resolve_notification_at, resolve_notifications,
};
use crate::resolver::{GroupingIdView, ReferenceResolverView};
use crate::yang::{
    ActionView, CaseView, ChoiceView, ContainerView, DataDefView, ListView, ModuleView,
    NotificationView, RpcView, SchemaNodeView, ShortCaseView,
};
use vstd::prelude::*;

verus! {

/// No `uses` stands at or below this data definition.
pub open spec fn data_def_is_resolved(d: DataDefView) -> bool
    decreases d, 0nat,
{
    match d {
        DataDefView::Uses(_) => false,
        DataDefView::Container(c) => container_is_resolved(c),
        DataDefView::List(l) => list_is_resolved(l),
        DataDefView::Choice(c) => choice_is_resolved(c),
        _ => true,
    }
}

/// No `uses` stands in or below these data definitions.
pub open spec fn data_defs_are_resolved(defs: Seq<DataDefView>) -> bool
    decreases defs, 1nat,
{
    forall|i: int| 0 <= i < defs.len() ==> data_def_is_resolved(#[trigger] defs[i])
}

/// No `uses` stands below this container.
pub open spec fn container_is_resolved(c: ContainerView) -> bool
    decreases c, 0nat,
{
    &&& data_defs_are_resolved(c.data_defs)
    &&& actions_are_resolved(c.actions)
    &&& notifications_are_resolved(c.notifications)
}

/// No `uses` stands below this list.
pub open spec fn list_is_resolved(l: ListView) -> bool
    decreases l, 0nat,
{
    &&& data_defs_are_resolved(l.data_defs)
    &&& actions_are_resolved(l.actions)
    &&& notifications_are_resolved(l.notifications)
}

/// No `uses` stands below this choice.
pub open spec fn choice_is_resolved(c: ChoiceView) -> bool
    decreases c, 0nat,
{
    cases_are_resolved(c.cases)
}

/// No `uses` stands below these cases.
pub open spec fn cases_are_resolved(cases: Seq<CaseView>) -> bool
    decreases cases, 1nat,
{
    forall|i: int| 0 <= i < cases.len() ==> case_is_resolved(#[trigger] cases[i])
}

/// No `uses` stands below this case.
pub open spec fn case_is_resolved(c: CaseView) -> bool
    decreases c, 0nat,
{
    match c {
        CaseView::LongCase(l) => data_defs_are_resolved(l.data_defs),
        CaseView::ShortCase(s) => short_case_is_resolved(s),
    }
}

/// No `uses` stands below this short case.
pub open spec fn short_case_is_resolved(s: ShortCaseView) -> bool
    decreases s, 0nat,
{
    match s {
        ShortCaseView::Container(c) => container_is_resolved(c),
        ShortCaseView::List(l) => list_is_resolved(l),
        ShortCaseView::Choice(c) => choice_is_resolved(c),
        _ => true,
    }
}

/// No `uses` stands below these actions.
pub open spec fn actions_are_resolved(actions: Seq<ActionView>) -> bool
    decreases actions, 1nat,
{
    forall|i: int| 0 <= i < actions.len() ==> action_is_resolved(#[trigger] actions[i])
}

/// No `uses` stands below this action.
pub open spec fn action_is_resolved(a: ActionView) -> bool
    decreases a, 0nat,
{
    &&& a.input matches Some(i) ==> data_defs_are_resolved(i.data_defs)
    &&& a.output matches Some(o) ==> data_defs_are_resolved(o.data_defs)
}

/// No `uses` stands below these notifications.
pub open spec fn notifications_are_resolved(notifications: Seq<NotificationView>) -> bool
    decreases notifications, 1nat,
{
    forall|i: int|
        0 <= i < notifications.len() ==> notification_is_resolved(#[trigger] notifications[i])
}

/// No `uses` stands below this notification.
pub open spec fn notification_is_resolved(n: NotificationView) -> bool
    decreases n, 0nat,
{
    data_defs_are_resolved(n.data_defs)
}

/// No `uses` stands below this rpc.
pub open spec fn rpc_is_resolved(x: RpcView) -> bool {
    &&& x.input matches Some(i) ==> data_defs_are_resolved(i.data_defs)
    &&& x.output matches Some(o) ==> data_defs_are_resolved(o.data_defs)
}

/// No `uses` stands at or below this node of a module body.
pub open spec fn schema_node_is_resolved(n: SchemaNodeView) -> bool {
    match n {
        SchemaNodeView::DataDef(d) => data_def_is_resolved(d),
        SchemaNodeView::Rpc(x) => rpc_is_resolved(x),
        SchemaNodeView::Notification(x) => notification_is_resolved(x),
    }
}

/// No `uses` stands anywhere in this body.
pub open spec fn body_is_resolved(body: Seq<SchemaNodeView>) -> bool {
    forall|i: int| 0 <= i < body.len() ==> schema_node_is_resolved(#[trigger] body[i])
}

/// A resolved module: no `uses` stands anywhere in its body.
pub open spec fn module_is_resolved(m: ModuleView) -> bool {
    body_is_resolved(m.body)
}

/// Singletons, flattened, give back the sequence they were made from.
pub proof fn lemma_flatten_singletons<A>(s: Seq<A>, parts: Seq<Seq<A>>)
    requires
        parts.len() == s.len(),
        forall|i: int| 0 <= i < s.len() ==> #[trigger] parts[i] == seq![s[i]],
    ensures
        parts.flatten() == s,
    decreases s.len(),
{
    if s.len() == 0 {
        assert(parts.flatten() =~= s);
    } else {
        let head = parts.drop_last();
        lemma_flatten_singletons(s.drop_last(), head);
        assert(parts =~= head.push(parts.last()));
        head.lemma_flatten_push(parts.last());
        assert(parts.flatten() =~= s);
    }
}

/// Resolution leaves a resolved data definition as it is.
pub proof fn lemma_resolved_data_def_stays(
    r: ReferenceResolverView,
    d: DataDefView,
    path: Seq<char>,
    active: Seq<GroupingIdView>,
)
    requires
        data_def_is_resolved(d),
    ensures
        resolve_data_def(r, d, path, active) == d,
        expand_data_def(r, d, path, active) == seq![d],
    decreases d, 0nat,
{
    match d {
        DataDefView::Container(c) => lemma_resolved_container_stays(
            r,
            c,
            child_path(path, c.name),
            active,
        ),
        DataDefView::List(l) => lemma_resolved_list_stays(
            r,
            l,
            child_path(path, l.name),
            active,
        ),
        DataDefView::Choice(c) => lemma_resolved_choice_stays(r, c, path, active),
        _ => {},
    }
}

/// Resolution leaves resolved data definitions as they are.
pub proof fn lemma_resolved_data_defs_stay(
    r: ReferenceResolverView,
    defs: Seq<DataDefView>,
    path: Seq<char>,
    active: Seq<GroupingIdView>,
)
    requires
        data_defs_are_resolved(defs),
    ensures
        resolve_data_defs(r, defs, path, active) == defs,
    decreases defs, 1nat,
{
    let parts = expand_data_defs(r, defs, path, active);
    assert forall|i: int| 0 <= i < defs.len() implies #[trigger] parts[i] == seq![defs[i]] by {
        assert(data_def_is_resolved(defs[i]));
        lemma_resolved_data_def_stays(r, defs[i], path, active);
    }
    lemma_flatten_singletons(defs, parts);
}

/// Resolution leaves a resolved container as it is.
pub proof fn lemma_resolved_container_stays(
    r: ReferenceResolverView,
    c: ContainerView,
    path: Seq<char>,
    active: Seq<GroupingIdView>,
)
    requires
        container_is_resolved(c),
    ensures
        resolve_container(r, c, path, active) == c,
    decreases c, 0nat,
{
    lemma_resolved_data_defs_stay(r, c.data_defs, path, active);
    lemma_resolved_actions_stay(r, c.actions, path, active);
    lemma_resolved_notifications_stay(r, c.notifications, path, active);
}

/// Resolution leaves a resolved list as it is.
pub proof fn lemma_resolved_list_stays(
    r: ReferenceResolverView,
    l: ListView,
    path: Seq<char>,
    active: Seq<GroupingIdView>,
)
    requires
        list_is_resolved(l),
    ensures
        resolve_list(r, l, path, active) == l,
    decreases l, 0nat,
{
    lemma_resolved_data_defs_stay(r, l.data_defs, path, active);
    lemma_resolved_actions_stay(r, l.actions, path, active);
    lemma_resolved_notifications_stay(r, l.notifications, path, active);
}

/// Resolution leaves a resolved choice as it is.
pub proof fn lemma_resolved_choice_stays(
    r: ReferenceResolverView,
    c: ChoiceView,
    path: Seq<char>,
    active: Seq<GroupingIdView>,
)
    requires
        choice_is_resolved(c),
    ensures
        resolve_choice(r, c, path, active) == c,
    decreases c, 0nat,
{
    lemma_resolved_cases_stay(r, c.cases, path, active);
}

/// Resolution leaves resolved cases as they are.
pub proof fn lemma_resolved_cases_stay(
    r: ReferenceResolverView,
    cases: Seq<CaseView>,
    path: Seq<char>,
    active: Seq<GroupingIdView>,
)
    requires
        cases_are_resolved(cases),
    ensures
        resolve_cases(r, cases, path, active) == cases,
    decreases cases, 1nat,
{
    assert forall|i: int| 0 <= i < cases.len() implies resolve_case_at(
        r,
        cases,
        i,
        path,
        active,
    )
        == cases[i] by {
        assert(case_is_resolved(cases[i]));
        lemma_resolved_case_stays(r, cases[i], path, active);
    }
    assert(resolve_cases(r, cases, path, active) =~= cases);
}

/// Resolution leaves a resolved case as it is.
pub proof fn lemma_resolved_case_stays(
    r: ReferenceResolverView,
    c: CaseView,
    path: Seq<char>,
    active: Seq<GroupingIdView>,
)
    requires
        case_is_resolved(c),
    ensures
        resolve_case(r, c, path, active) == c,
    decreases c, 0nat,
{
    match c {
        CaseView::LongCase(l) => {
            lemma_resolved_data_defs_stay(r, l.data_defs, path, active);
        },
        CaseView::ShortCase(s) => {
            match s {
                ShortCaseView::Container(c) => lemma_resolved_container_stays(
                    r,
                    c,
                    child_path(path, c.name),
                    active,
                ),
                ShortCaseView::List(l) => lemma_resolved_list_stays(
                    r,
                    l,
                    child_path(path, l.name),
                    active,
                ),
                ShortCaseView::Choice(c) => lemma_resolved_choice_stays(r, c, path, active),
                _ => {},
            }
        },
    }
}

/// Resolution leaves resolved actions as they are.
pub proof fn lemma_resolved_actions_stay(
    r: ReferenceResolverView,
    actions: Seq<ActionView>,
    path: Seq<char>,
    active: Seq<GroupingIdView>,
)
    requires
        actions_are_resolved(actions),
    ensures
        resolve_actions(r, actions, path, active) == actions,
    decreases actions, 1nat,
{
    assert forall|i: int| 0 <= i < actions.len() implies resolve_action_at(
        r,
        actions,
        i,
        path,
        active,
    ) == actions[i] by {
        assert(action_is_resolved(actions[i]));
        lemma_resolved_action_stays(
            r,
            actions[i],
            child_path(path, actions[i].name),
            active,
        );
    }
    assert(resolve_actions(r, actions, path, active) =~= actions);
}

/// Resolution leaves a resolved action as it is.
pub proof fn lemma_resolved_action_stays(
    r: ReferenceResolverView,
    a: ActionView,
    path: Seq<char>,
    active: Seq<GroupingIdView>,
)
    requires
        action_is_resolved(a),
    ensures
        resolve_action(r, a, path, active) == a,
    decreases a, 0nat,
{
    match a.input {
        Some(i) => lemma_resolved_data_defs_stay(
            r,
            i.data_defs,
            child_path(path, input_scope()),
            active,
        ),
        None => {},
    }
    match a.output {
        Some(o) => lemma_resolved_data_defs_stay(
            r,
            o.data_defs,
            child_path(path, output_scope()),
            active,
        ),
        None => {},
    }
}

/// Resolution leaves resolved notifications as they are.
pub proof fn lemma_resolved_notifications_stay(
    r: ReferenceResolverView,
    notifications: Seq<NotificationView>,
    path: Seq<char>,
    active: Seq<GroupingIdView>,
)
    requires
        notifications_are_resolved(notifications),
    ensures
        resolve_notifications(r, notifications, path, active) == notifications,
    decreases notifications, 1nat,
{
    assert forall|i: int| 0 <= i < notifications.len() implies resolve_notification_at(
        r,
        notifications,
        i,
        path,
        active,
    ) == notifications[i] by {
        assert(notification_is_resolved(notifications[i]));
        lemma_resolved_data_defs_stay(
            r,
            notifications[i].data_defs,
            child_path(path, notifications[i].name),
            active,
        );
    }
    assert(resolve_notifications(r, notifications, path, active) =~= notifications);
}

/// Resolution leaves a resolved node of a module body as it is.
pub proof fn lemma_resolved_schema_node_stays(
    r: ReferenceResolverView,
    n: SchemaNodeView,
    path: Seq<char>,
    active: Seq<GroupingIdView>,
)
    requires
        schema_node_is_resolved(n),
    ensures
        expand_schema_node(r, n, path, active) == seq![n],
{
    match n {
        SchemaNodeView::DataDef(d) => {
            lemma_resolved_data_def_stays(r, d, path, active);
            assert(as_schema_nodes(seq![d]) =~= seq![n]);
        },
        SchemaNodeView::Rpc(x) => {
            let own = child_path(path, x.name);
            match x.input {
                Some(i) => lemma_resolved_data_defs_stay(
                    r,
                    i.data_defs,
                    child_path(own, input_scope()),
                    active,
                ),
                None => {},
            }
            match x.output {
                Some(o) => lemma_resolved_data_defs_stay(
                    r,
                    o.data_defs,
                    child_path(own, output_scope()),
                    active,
                ),
                None => {},
            }
        },
        SchemaNodeView::Notification(x) => {
            lemma_resolved_data_defs_stay(
                r,
                x.data_defs,
                child_path(path, x.name),
                active,
            );
        },
    }
}

/// Resolution is idempotent on resolved models: a module that holds no `uses`
/// comes out of resolution as it went in, whatever the tables and the bound.
pub proof fn lemma_resolve_resolved_module(r: ReferenceResolverView, m: ModuleView)
    requires
        module_is_resolved(m),
    ensures
        resolve_module(r, m) == m,
{
    let active = Seq::<GroupingIdView>::empty();
    let parts = expand_body(r, m.body, active);
    assert forall|i: int| 0 <= i < m.body.len() implies #[trigger] parts[i] == seq![m.body[i]] by {
        assert(schema_node_is_resolved(m.body[i]));
        lemma_resolved_schema_node_stays(r, m.body[i], root_path(), active);
    }
    lemma_flatten_singletons(m.body, parts);
}

} // verus!
