//! A second run is a no-op. Where the groupings that a module uses do not
//! lead back to themselves, resolving the resolved module changes nothing:
//! a `uses` that stayed found no grouping from where it stands, and finds
//! none the second time, for where it stands has not changed.

use crate::path::{child_path, root_path};
use crate::resolution::{
    as_schema_nodes, expand_body, expand_data_def, expand_data_defs, expand_schema_node, expands,
    input_scope, lemma_resolve_body_concat, lemma_resolve_data_defs_concat,
    lemma_resolve_data_defs_empty, lemma_resolve_data_defs_one, output_scope, resolve_action,
    resolve_action_at, resolve_actions, resolve_body, resolve_case, resolve_case_at, resolve_cases,
    resolve_container, resolve_data_def, resolve_data_defs, resolve_list, resolve_module,
    resolve_notification_at, resolve_notifications, resolve_schema_node,
};
use crate::resolver::{
    grouping_at, lemma_located_grouping_is_held, lemma_unexpanded_decreases, locate_grouping,
    unexpanded, GroupingIdView, ReferenceResolverView,
};
use crate::yang::{
    ActionView, CaseView, ChoiceView, ContainerView, DataDefView, ListView, ModuleView,
    NotificationView, SchemaNodeView, ShortCaseView,
};
use vstd::prelude::*;

verus! {

/// No `uses` at or below `d`, nor any that an expansion brings in, finds a
/// grouping that is under expansion already. A `uses` that finds no grouping
/// at all meets no cycle.
pub open spec fn data_def_meets_no_cycle(
    r: ReferenceResolverView,
    d: DataDefView,
    path: Seq<char>,
    active: Seq<GroupingIdView>,
) -> bool
    decreases unexpanded(r, active), d, 0nat,
{
    match d {
        DataDefView::Uses(u) => match locate_grouping(r, u.grouping, path) {
            Some(id) => if expands(r, id, active) {
                proof {
                    lemma_located_grouping_is_held(r, u.grouping, path);
                    lemma_unexpanded_decreases(r, active, id);
                }
                data_defs_meet_no_cycle(r, grouping_at(r, id).data_defs, path, active.push(id))
            } else {
                false
            },
            None => true,
        },
        DataDefView::Container(c) => container_meets_no_cycle(
            r,
            c,
            child_path(path, c.name),
            active,
        ),
        DataDefView::List(l) => list_meets_no_cycle(r, l, child_path(path, l.name), active),
        DataDefView::Choice(c) => choice_meets_no_cycle(r, c, path, active),
        _ => true,
    }
}

/// None of `defs` meets a cycle in the scope `path`.
pub open spec fn data_defs_meet_no_cycle(
    r: ReferenceResolverView,
    defs: Seq<DataDefView>,
    path: Seq<char>,
    active: Seq<GroupingIdView>,
) -> bool
    decreases unexpanded(r, active), defs, 1nat,
{
    forall|i: int|
        0 <= i < defs.len() ==> data_def_meets_no_cycle(r, #[trigger] defs[i], path, active)
}

/// The members of the container whose scope is `path` meet no cycle.
pub open spec fn container_meets_no_cycle(
    r: ReferenceResolverView,
    c: ContainerView,
    path: Seq<char>,
    active: Seq<GroupingIdView>,
) -> bool
    decreases unexpanded(r, active), c, 0nat,
{
    &&& data_defs_meet_no_cycle(r, c.data_defs, path, active)
    &&& actions_meet_no_cycle(r, c.actions, path, active)
    &&& notifications_meet_no_cycle(r, c.notifications, path, active)
}

/// The members of the list whose scope is `path` meet no cycle.
pub open spec fn list_meets_no_cycle(
    r: ReferenceResolverView,
    l: ListView,
    path: Seq<char>,
    active: Seq<GroupingIdView>,
) -> bool
    decreases unexpanded(r, active), l, 0nat,
{
    &&& data_defs_meet_no_cycle(r, l.data_defs, path, active)
    &&& actions_meet_no_cycle(r, l.actions, path, active)
    &&& notifications_meet_no_cycle(r, l.notifications, path, active)
}

/// The cases of the choice meet no cycle.
pub open spec fn choice_meets_no_cycle(
    r: ReferenceResolverView,
    c: ChoiceView,
    path: Seq<char>,
    active: Seq<GroupingIdView>,
) -> bool
    decreases unexpanded(r, active), c, 0nat,
{
    cases_meet_no_cycle(r, c.cases, path, active)
}

/// None of `cases` meets a cycle.
pub open spec fn cases_meet_no_cycle(
    r: ReferenceResolverView,
    cases: Seq<CaseView>,
    path: Seq<char>,
    active: Seq<GroupingIdView>,
) -> bool
    decreases unexpanded(r, active), cases, 1nat,
{
    forall|i: int| 0 <= i < cases.len() ==> case_meets_no_cycle(
        r,
        #[trigger] cases[i],
        path,
        active,
    )
}

/// The case meets no cycle.
pub open spec fn case_meets_no_cycle(
    r: ReferenceResolverView,
    c: CaseView,
    path: Seq<char>,
    active: Seq<GroupingIdView>,
) -> bool
    decreases unexpanded(r, active), c, 0nat,
{
    match c {
        CaseView::LongCase(l) => data_defs_meet_no_cycle(r, l.data_defs, path, active),
        CaseView::ShortCase(s) => match s {
            ShortCaseView::Container(c) => container_meets_no_cycle(
                r,
                c,
                child_path(path, c.name),
                active,
            ),
            ShortCaseView::List(l) => list_meets_no_cycle(
                r,
                l,
                child_path(path, l.name),
                active,
            ),
            ShortCaseView::Choice(c) => choice_meets_no_cycle(r, c, path, active),
            _ => true,
        },
    }
}

/// None of the actions of the node whose scope is `path` meets a cycle.
pub open spec fn actions_meet_no_cycle(
    r: ReferenceResolverView,
    actions: Seq<ActionView>,
    path: Seq<char>,
    active: Seq<GroupingIdView>,
) -> bool
    decreases unexpanded(r, active), actions, 1nat,
{
    forall|i: int|
        0 <= i < actions.len() ==> action_meets_no_cycle(
            r,
            #[trigger] actions[i],
            child_path(path, actions[i].name),
            active,
        )
}

/// The input and output of the action whose scope is `path` meet no cycle.
pub open spec fn action_meets_no_cycle(
    r: ReferenceResolverView,
    a: ActionView,
    path: Seq<char>,
    active: Seq<GroupingIdView>,
) -> bool
    decreases unexpanded(r, active), a, 0nat,
{
    &&& a.input matches Some(i) ==> data_defs_meet_no_cycle(
        r,
        i.data_defs,
        child_path(path, input_scope()),
        active,
    )
    &&& a.output matches Some(o) ==> data_defs_meet_no_cycle(
        r,
        o.data_defs,
        child_path(path, output_scope()),
        active,
    )
}

/// None of the notifications of the node whose scope is `path` meets a cycle.
pub open spec fn notifications_meet_no_cycle(
    r: ReferenceResolverView,
    notifications: Seq<NotificationView>,
    path: Seq<char>,
    active: Seq<GroupingIdView>,
) -> bool
    decreases unexpanded(r, active), notifications, 1nat,
{
    forall|i: int|
        0 <= i < notifications.len() ==> data_defs_meet_no_cycle(
            r,
            (#[trigger] notifications[i]).data_defs,
            child_path(path, notifications[i].name),
            active,
        )
}

/// The node of a module body meets no cycle; `path` is the scope it stands in.
pub open spec fn schema_node_meets_no_cycle(
    r: ReferenceResolverView,
    n: SchemaNodeView,
    path: Seq<char>,
    active: Seq<GroupingIdView>,
) -> bool {
    match n {
        SchemaNodeView::DataDef(d) => data_def_meets_no_cycle(r, d, path, active),
        SchemaNodeView::Rpc(x) => {
            let own = child_path(path, x.name);
            &&& x.input matches Some(i) ==> data_defs_meet_no_cycle(
                r,
                i.data_defs,
                child_path(own, input_scope()),
                active,
            )
            &&& x.output matches Some(o) ==> data_defs_meet_no_cycle(
                r,
                o.data_defs,
                child_path(own, output_scope()),
                active,
            )
        },
        SchemaNodeView::Notification(x) => data_defs_meet_no_cycle(
            r,
            x.data_defs,
            child_path(path, x.name),
            active,
        ),
    }
}

/// The resolution of `m` meets no grouping inside its own expansion: the
/// groupings that `m` uses do not lead back to themselves.
pub open spec fn module_meets_no_cycle(r: ReferenceResolverView, m: ModuleView) -> bool {
    forall|i: int|
        0 <= i < m.body.len() ==> schema_node_meets_no_cycle(
            r,
            #[trigger] m.body[i],
            root_path(),
            Seq::empty(),
        )
}

/// Pieces that a second run leaves as they are make a whole that it leaves
/// as it is.
pub proof fn lemma_flatten_stays(
    r: ReferenceResolverView,
    parts: Seq<Seq<DataDefView>>,
    path: Seq<char>,
    again: Seq<GroupingIdView>,
)
    requires
        forall|i: int|
            0 <= i < parts.len() ==> resolve_data_defs(r, #[trigger] parts[i], path, again)
                == parts[i],
    ensures
        resolve_data_defs(r, parts.flatten(), path, again) == parts.flatten(),
    decreases parts.len(),
{
    if parts.len() == 0 {
        assert(parts.flatten() =~= Seq::empty());
        lemma_resolve_data_defs_empty(r, path, again);
    } else {
        let head = parts.drop_last();
        let last = parts.last();
        assert forall|i: int| 0 <= i < head.len() implies resolve_data_defs(
            r,
            #[trigger] head[i],
            path,
            again,
        ) == head[i] by {
            assert(head[i] == parts[i]);
        }
        lemma_flatten_stays(r, head, path, again);
        assert(parts =~= head.push(last));
        head.lemma_flatten_push(last);
        assert(parts.flatten() =~= head.flatten() + last);
        lemma_resolve_data_defs_concat(r, head.flatten(), last, path, again);
        assert(resolve_data_defs(r, last, path, again) == last);
    }
}

/// What a data definition has become, a second run leaves as it is.
pub proof fn lemma_data_def_again(
    r: ReferenceResolverView,
    d: DataDefView,
    path: Seq<char>,
    active: Seq<GroupingIdView>,
    again: Seq<GroupingIdView>,
)
    requires
        data_def_meets_no_cycle(r, d, path, active),
    ensures
        resolve_data_defs(r, expand_data_def(r, d, path, active), path, again) == expand_data_def(
            r,
            d,
            path,
            active,
        ),
        !(d is Uses) ==> resolve_data_def(r, resolve_data_def(r, d, path, active), path, again)
            == resolve_data_def(r, d, path, active),
    decreases unexpanded(r, active), d, 0nat,
{
    match d {
        DataDefView::Uses(u) => {
            match locate_grouping(r, u.grouping, path) {
                Some(id) => {
                    lemma_located_grouping_is_held(r, u.grouping, path);
                    lemma_unexpanded_decreases(r, active, id);
                    lemma_data_defs_again(
                        r,
                        grouping_at(r, id).data_defs,
                        path,
                        active.push(id),
                        again,
                    );
                },
                None => {
                    lemma_resolve_data_defs_one(r, d, path, again);
                },
            }
        },
        DataDefView::Container(c) => {
            lemma_container_again(r, c, child_path(path, c.name), active, again);
            lemma_resolve_data_defs_one(r, resolve_data_def(r, d, path, active), path, again);
        },
        DataDefView::List(l) => {
            lemma_list_again(r, l, child_path(path, l.name), active, again);
            lemma_resolve_data_defs_one(r, resolve_data_def(r, d, path, active), path, again);
        },
        DataDefView::Choice(c) => {
            lemma_cases_again(r, c.cases, path, active, again);
            lemma_resolve_data_defs_one(r, resolve_data_def(r, d, path, active), path, again);
        },
        _ => {
            lemma_resolve_data_defs_one(r, resolve_data_def(r, d, path, active), path, again);
        },
    }
}

/// What data definitions have become, a second run leaves as it is.
pub proof fn lemma_data_defs_again(
    r: ReferenceResolverView,
    defs: Seq<DataDefView>,
    path: Seq<char>,
    active: Seq<GroupingIdView>,
    again: Seq<GroupingIdView>,
)
    requires
        data_defs_meet_no_cycle(r, defs, path, active),
    ensures
        resolve_data_defs(r, resolve_data_defs(r, defs, path, active), path, again)
            == resolve_data_defs(r, defs, path, active),
    decreases unexpanded(r, active), defs, 1nat,
{
    let parts = expand_data_defs(r, defs, path, active);
    assert forall|i: int| 0 <= i < parts.len() implies resolve_data_defs(
        r,
        #[trigger] parts[i],
        path,
        again,
    ) == parts[i] by {
        assert(data_def_meets_no_cycle(r, defs[i], path, active));
        lemma_data_def_again(r, defs[i], path, active, again);
    }
    lemma_flatten_stays(r, parts, path, again);
}

/// What a container has become, a second run leaves as it is.
pub proof fn lemma_container_again(
    r: ReferenceResolverView,
    c: ContainerView,
    path: Seq<char>,
    active: Seq<GroupingIdView>,
    again: Seq<GroupingIdView>,
)
    requires
        container_meets_no_cycle(r, c, path, active),
    ensures
        resolve_container(r, resolve_container(r, c, path, active), path, again)
            == resolve_container(r, c, path, active),
    decreases unexpanded(r, active), c, 0nat,
{
    lemma_data_defs_again(r, c.data_defs, path, active, again);
    lemma_actions_again(r, c.actions, path, active, again);
    lemma_notifications_again(r, c.notifications, path, active, again);
}

/// What a list has become, a second run leaves as it is.
pub proof fn lemma_list_again(
    r: ReferenceResolverView,
    l: ListView,
    path: Seq<char>,
    active: Seq<GroupingIdView>,
    again: Seq<GroupingIdView>,
)
    requires
        list_meets_no_cycle(r, l, path, active),
    ensures
        resolve_list(r, resolve_list(r, l, path, active), path, again) == resolve_list(
            r,
            l,
            path,
            active,
        ),
    decreases unexpanded(r, active), l, 0nat,
{
    lemma_data_defs_again(r, l.data_defs, path, active, again);
    lemma_actions_again(r, l.actions, path, active, again);
    lemma_notifications_again(r, l.notifications, path, active, again);
}

/// What cases have become, a second run leaves as it is.
pub proof fn lemma_cases_again(
    r: ReferenceResolverView,
    cases: Seq<CaseView>,
    path: Seq<char>,
    active: Seq<GroupingIdView>,
    again: Seq<GroupingIdView>,
)
    requires
        cases_meet_no_cycle(r, cases, path, active),
    ensures
        resolve_cases(r, resolve_cases(r, cases, path, active), path, again) == resolve_cases(
            r,
            cases,
            path,
            active,
        ),
    decreases unexpanded(r, active), cases, 1nat,
{
    let out = resolve_cases(r, cases, path, active);
    assert forall|i: int| 0 <= i < out.len() implies resolve_case_at(r, out, i, path, again)
        == out[i] by {
        assert(out[i] == resolve_case_at(r, cases, i, path, active));
        assert(case_meets_no_cycle(r, cases[i], path, active));
        lemma_case_again(r, cases[i], path, active, again);
    }
    assert(resolve_cases(r, out, path, again) =~= out);
}

/// What a case has become, a second run leaves as it is.
pub proof fn lemma_case_again(
    r: ReferenceResolverView,
    c: CaseView,
    path: Seq<char>,
    active: Seq<GroupingIdView>,
    again: Seq<GroupingIdView>,
)
    requires
        case_meets_no_cycle(r, c, path, active),
    ensures
        resolve_case(r, resolve_case(r, c, path, active), path, again) == resolve_case(
            r,
            c,
            path,
            active,
        ),
    decreases unexpanded(r, active), c, 0nat,
{
    match c {
        CaseView::LongCase(l) => {
            lemma_data_defs_again(r, l.data_defs, path, active, again);
        },
        CaseView::ShortCase(s) => {
            match s {
                ShortCaseView::Container(c) => lemma_container_again(
                    r,
                    c,
                    child_path(path, c.name),
                    active,
                    again,
                ),
                ShortCaseView::List(l) => lemma_list_again(
                    r,
                    l,
                    child_path(path, l.name),
                    active,
                    again,
                ),
                ShortCaseView::Choice(c) => lemma_cases_again(r, c.cases, path, active, again),
                _ => {},
            }
        },
    }
}

/// What actions have become, a second run leaves as it is.
pub proof fn lemma_actions_again(
    r: ReferenceResolverView,
    actions: Seq<ActionView>,
    path: Seq<char>,
    active: Seq<GroupingIdView>,
    again: Seq<GroupingIdView>,
)
    requires
        actions_meet_no_cycle(r, actions, path, active),
    ensures
        resolve_actions(r, resolve_actions(r, actions, path, active), path, again)
            == resolve_actions(r, actions, path, active),
    decreases unexpanded(r, active), actions, 1nat,
{
    let out = resolve_actions(r, actions, path, active);
    assert forall|i: int| 0 <= i < out.len() implies resolve_action_at(r, out, i, path, again)
        == out[i] by {
        assert(out[i] == resolve_action_at(r, actions, i, path, active));
        assert(action_meets_no_cycle(r, actions[i], child_path(path, actions[i].name), active));
        lemma_action_again(r, actions[i], child_path(path, actions[i].name), active, again);
    }
    assert(resolve_actions(r, out, path, again) =~= out);
}

/// What an action has become, a second run leaves as it is.
pub proof fn lemma_action_again(
    r: ReferenceResolverView,
    a: ActionView,
    path: Seq<char>,
    active: Seq<GroupingIdView>,
    again: Seq<GroupingIdView>,
)
    requires
        action_meets_no_cycle(r, a, path, active),
    ensures
        resolve_action(r, resolve_action(r, a, path, active), path, again) == resolve_action(
            r,
            a,
            path,
            active,
        ),
    decreases unexpanded(r, active), a, 0nat,
{
    match a.input {
        Some(i) => lemma_data_defs_again(
            r,
            i.data_defs,
            child_path(path, input_scope()),
            active,
            again,
        ),
        None => {},
    }
    match a.output {
        Some(o) => lemma_data_defs_again(
            r,
            o.data_defs,
            child_path(path, output_scope()),
            active,
            again,
        ),
        None => {},
    }
}

/// What notifications have become, a second run leaves as it is.
pub proof fn lemma_notifications_again(
    r: ReferenceResolverView,
    notifications: Seq<NotificationView>,
    path: Seq<char>,
    active: Seq<GroupingIdView>,
    again: Seq<GroupingIdView>,
)
    requires
        notifications_meet_no_cycle(r, notifications, path, active),
    ensures
        resolve_notifications(
            r,
            resolve_notifications(r, notifications, path, active),
            path,
            again,
        ) == resolve_notifications(r, notifications, path, active),
    decreases unexpanded(r, active), notifications, 1nat,
{
    let out = resolve_notifications(r, notifications, path, active);
    assert forall|i: int| 0 <= i < out.len() implies resolve_notification_at(
        r,
        out,
        i,
        path,
        again,
    ) == out[i] by {
        assert(out[i] == resolve_notification_at(r, notifications, i, path, active));
        assert(data_defs_meet_no_cycle(
            r,
            notifications[i].data_defs,
            child_path(path, notifications[i].name),
            active,
        ));
        lemma_data_defs_again(
            r,
            notifications[i].data_defs,
            child_path(path, notifications[i].name),
            active,
            again,
        );
    }
    assert(resolve_notifications(r, out, path, again) =~= out);
}

/// Data definitions that stand in a module body are resolved there as
/// anywhere in the root scope.
pub proof fn lemma_resolve_body_of_data_defs(
    r: ReferenceResolverView,
    defs: Seq<DataDefView>,
    again: Seq<GroupingIdView>,
)
    ensures
        resolve_body(r, as_schema_nodes(defs), again) == as_schema_nodes(
            resolve_data_defs(r, defs, root_path(), again),
        ),
    decreases defs.len(),
{
    if defs.len() == 0 {
        lemma_resolve_data_defs_empty(r, root_path(), again);
        assert(as_schema_nodes(defs) =~= Seq::empty());
        assert(expand_body(r, Seq::empty(), again) =~= Seq::empty());
        assert(as_schema_nodes(Seq::<DataDefView>::empty()) =~= Seq::empty());
    } else {
        let head = defs.drop_last();
        let last = defs.last();
        lemma_resolve_body_of_data_defs(r, head, again);
        assert(defs =~= head + seq![last]);
        assert(as_schema_nodes(defs) =~= as_schema_nodes(head) + as_schema_nodes(seq![last]));
        lemma_resolve_body_concat(r, as_schema_nodes(head), as_schema_nodes(seq![last]), again);
        lemma_resolve_data_defs_concat(r, head, seq![last], root_path(), again);
        lemma_resolve_data_defs_one(r, last, root_path(), again);
        let one = expand_body(r, as_schema_nodes(seq![last]), again);
        assert(one.len() == 1);
        one.lemma_flatten_singleton();
        assert(as_schema_nodes(seq![last])[0] == SchemaNodeView::DataDef(last));
        let a = resolve_data_defs(r, head, root_path(), again);
        let b = expand_data_def(r, last, root_path(), again);
        assert(as_schema_nodes(a + b) =~= as_schema_nodes(a) + as_schema_nodes(b));
    }
}

/// What a node of a module body has become, a second run leaves as it is.
pub proof fn lemma_schema_node_again(
    r: ReferenceResolverView,
    n: SchemaNodeView,
    active: Seq<GroupingIdView>,
    again: Seq<GroupingIdView>,
)
    requires
        schema_node_meets_no_cycle(r, n, root_path(), active),
    ensures
        resolve_body(r, expand_schema_node(r, n, root_path(), active), again)
            == expand_schema_node(r, n, root_path(), active),
{
    let path = root_path();
    match n {
        SchemaNodeView::DataDef(d) => {
            lemma_data_def_again(r, d, path, active, again);
            lemma_resolve_body_of_data_defs(r, expand_data_def(r, d, path, active), again);
        },
        SchemaNodeView::Rpc(x) => {
            let own = child_path(path, x.name);
            match x.input {
                Some(i) => lemma_data_defs_again(
                    r,
                    i.data_defs,
                    child_path(own, input_scope()),
                    active,
                    again,
                ),
                None => {},
            }
            match x.output {
                Some(o) => lemma_data_defs_again(
                    r,
                    o.data_defs,
                    child_path(own, output_scope()),
                    active,
                    again,
                ),
                None => {},
            }
            let kept = resolve_schema_node(r, n, path, active);
            let one = expand_body(r, seq![kept], again);
            assert(one.len() == 1);
            one.lemma_flatten_singleton();
        },
        SchemaNodeView::Notification(x) => {
            lemma_data_defs_again(r, x.data_defs, child_path(path, x.name), active, again);
            let kept = resolve_schema_node(r, n, path, active);
            let one = expand_body(r, seq![kept], again);
            assert(one.len() == 1);
            one.lemma_flatten_singleton();
        },
    }
}

/// Pieces of a body that a second run leaves as they are make a body that
/// it leaves as it is.
pub proof fn lemma_flatten_body_stays(
    r: ReferenceResolverView,
    parts: Seq<Seq<SchemaNodeView>>,
    again: Seq<GroupingIdView>,
)
    requires
        forall|i: int|
            0 <= i < parts.len() ==> resolve_body(r, #[trigger] parts[i], again) == parts[i],
    ensures
        resolve_body(r, parts.flatten(), again) == parts.flatten(),
    decreases parts.len(),
{
    if parts.len() == 0 {
        assert(parts.flatten() =~= Seq::empty());
        assert(expand_body(r, Seq::empty(), again) =~= Seq::empty());
    } else {
        let head = parts.drop_last();
        let last = parts.last();
        assert forall|i: int| 0 <= i < head.len() implies resolve_body(
            r,
            #[trigger] head[i],
            again,
        ) == head[i] by {
            assert(head[i] == parts[i]);
        }
        lemma_flatten_body_stays(r, head, again);
        assert(parts =~= head.push(last));
        head.lemma_flatten_push(last);
        assert(parts.flatten() =~= head.flatten() + last);
        lemma_resolve_body_concat(r, head.flatten(), last, again);
        assert(resolve_body(r, last, again) == last);
    }
}

/// Idempotent resolve. A second run is a no-op: where the resolution of
/// `m` meets no grouping inside its own expansion, resolving the resolved
/// module gives the resolved module. A `uses` that is left found no
/// grouping from its site, and finds none on the second run.
pub proof fn lemma_resolve_twice(r: ReferenceResolverView, m: ModuleView)
    requires
        module_meets_no_cycle(r, m),
    ensures
        resolve_module(r, resolve_module(r, m)) == resolve_module(r, m),
{
    let none = Seq::<GroupingIdView>::empty();
    let parts = expand_body(r, m.body, none);
    assert forall|i: int| 0 <= i < parts.len() implies resolve_body(r, #[trigger] parts[i], none)
        == parts[i] by {
        assert(schema_node_meets_no_cycle(r, m.body[i], root_path(), none));
        lemma_schema_node_again(r, m.body[i], none, none);
    }
    lemma_flatten_body_stays(r, parts, none);
}

} // verus!
