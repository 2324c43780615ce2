//! The data tree: data definitions and what they nest.

use crate::yang::common::{MaxElements, Must, MustView, OrderedBy, Status, When, WhenView};
use crate::yang::types::{TypeInfo, TypeInfoView};
use vstd::prelude::*;

verus! {

/// The value of element `i` of a sequence of [`DataDef`].
pub open spec fn data_def_at(v: Seq<DataDef>, i: int) -> DataDefView
    decreases v, 0nat,
{
    if 0 <= i < v.len() {
        v[i]@
    } else {
        arbitrary()
    }
}

/// The values of a sequence of [`DataDef`], element by element.
pub open spec fn data_defs_view(v: Seq<DataDef>) -> Seq<DataDefView>
    decreases v, 1nat,
{
    Seq::new(v.len(), |i: int| data_def_at(v, i))
}

/// A deep copy of a vector of [`DataDef`].
pub fn clone_data_defs(v: &Vec<DataDef>) -> (res: Vec<DataDef>)
    ensures
        data_defs_view(res@) == data_defs_view(v@),
    decreases v,
{
    let mut res: Vec<DataDef> = Vec::new();
    let mut i: usize = 0;
    while i < v.len()
        invariant
            i <= v.len(),
            res.len() == i,
            forall|j: int| 0 <= j < i ==> res[j]@ == v[j]@,
        decreases v.len() - i,
    {
        res.push(v[i].clone());
        i += 1;
    }
    assert(data_defs_view(res@) =~= data_defs_view(v@));
    res
}

/// The value of element `i` of a sequence of [`Action`].
pub open spec fn action_at(v: Seq<Action>, i: int) -> ActionView
    decreases v, 0nat,
{
    if 0 <= i < v.len() {
        v[i]@
    } else {
        arbitrary()
    }
}

/// The values of a sequence of [`Action`], element by element.
pub open spec fn actions_view(v: Seq<Action>) -> Seq<ActionView>
    decreases v, 1nat,
{
    Seq::new(v.len(), |i: int| action_at(v, i))
}

/// A deep copy of a vector of [`Action`].
pub fn clone_actions(v: &Vec<Action>) -> (res: Vec<Action>)
    ensures
        actions_view(res@) == actions_view(v@),
    decreases v,
{
    let mut res: Vec<Action> = Vec::new();
    let mut i: usize = 0;
    while i < v.len()
        invariant
            i <= v.len(),
            res.len() == i,
            forall|j: int| 0 <= j < i ==> res[j]@ == v[j]@,
        decreases v.len() - i,
    {
        res.push(v[i].clone());
        i += 1;
    }
    assert(actions_view(res@) =~= actions_view(v@));
    res
}

/// The value of element `i` of a sequence of [`Notification`].
pub open spec fn notification_at(v: Seq<Notification>, i: int) -> NotificationView
    decreases v, 0nat,
{
    if 0 <= i < v.len() {
        v[i]@
    } else {
        arbitrary()
    }
}

/// The values of a sequence of [`Notification`], element by element.
pub open spec fn notifications_view(v: Seq<Notification>) -> Seq<NotificationView>
    decreases v, 1nat,
{
    Seq::new(v.len(), |i: int| notification_at(v, i))
}

/// A deep copy of a vector of [`Notification`].
pub fn clone_notifications(v: &Vec<Notification>) -> (res: Vec<Notification>)
    ensures
        notifications_view(res@) == notifications_view(v@),
    decreases v,
{
    let mut res: Vec<Notification> = Vec::new();
    let mut i: usize = 0;
    while i < v.len()
        invariant
            i <= v.len(),
            res.len() == i,
            forall|j: int| 0 <= j < i ==> res[j]@ == v[j]@,
        decreases v.len() - i,
    {
        res.push(v[i].clone());
        i += 1;
    }
    assert(notifications_view(res@) =~= notifications_view(v@));
    res
}

/// The value of element `i` of a sequence of [`Case`].
pub open spec fn case_at(v: Seq<Case>, i: int) -> CaseView
    decreases v, 0nat,
{
    if 0 <= i < v.len() {
        v[i]@
    } else {
        arbitrary()
    }
}

/// The values of a sequence of [`Case`], element by element.
pub open spec fn cases_view(v: Seq<Case>) -> Seq<CaseView>
    decreases v, 1nat,
{
    Seq::new(v.len(), |i: int| case_at(v, i))
}

/// A deep copy of a vector of [`Case`].
pub fn clone_cases(v: &Vec<Case>) -> (res: Vec<Case>)
    ensures
        cases_view(res@) == cases_view(v@),
    decreases v,
{
    let mut res: Vec<Case> = Vec::new();
    let mut i: usize = 0;
    while i < v.len()
        invariant
            i <= v.len(),
            res.len() == i,
            forall|j: int| 0 <= j < i ==> res[j]@ == v[j]@,
        decreases v.len() - i,
    {
        res.push(v[i].clone());
        i += 1;
    }
    assert(cases_view(res@) =~= cases_view(v@));
    res
}

/// The value of element `i` of a sequence of [`Augment`].
pub open spec fn augment_at(v: Seq<Augment>, i: int) -> AugmentView
    decreases v, 0nat,
{
    if 0 <= i < v.len() {
        v[i]@
    } else {
        arbitrary()
    }
}

/// The values of a sequence of [`Augment`], element by element.
pub open spec fn augments_view(v: Seq<Augment>) -> Seq<AugmentView>
    decreases v, 1nat,
{
    Seq::new(v.len(), |i: int| augment_at(v, i))
}

/// A deep copy of a vector of [`Augment`].
pub fn clone_augments(v: &Vec<Augment>) -> (res: Vec<Augment>)
    ensures
        augments_view(res@) == augments_view(v@),
    decreases v,
{
    let mut res: Vec<Augment> = Vec::new();
    let mut i: usize = 0;
    while i < v.len()
        invariant
            i <= v.len(),
            res.len() == i,
            forall|j: int| 0 <= j < i ==> res[j]@ == v[j]@,
        decreases v.len() - i,
    {
        res.push(v[i].clone());
        i += 1;
    }
    assert(augments_view(res@) =~= augments_view(v@));
    res
}

/// A `leaf` statement.
#[derive(Debug, Default, PartialEq, Eq)]
pub struct Leaf {
    pub name: String,
    pub when: Option<When>,
    pub if_features: Vec<String>,
    pub type_info: TypeInfo,
    pub units: Option<String>,
    pub must: Vec<Must>,
    pub default: Option<String>,
    pub config: Option<bool>,
    pub mandatory: Option<bool>,
    pub status: Option<Status>,
    pub description: Option<String>,
    pub reference: Option<String>,
}

/// What a [`Leaf`] holds, as a mathematical value.
pub ghost struct LeafView {
    pub name: Seq<char>,
    pub when: Option<WhenView>,
    pub if_features: Seq<Seq<char>>,
    pub type_info: TypeInfoView,
    pub units: Option<Seq<char>>,
    pub must: Seq<MustView>,
    pub default: Option<Seq<char>>,
    pub config: Option<bool>,
    pub mandatory: Option<bool>,
    pub status: Option<Status>,
    pub description: Option<Seq<char>>,
    pub reference: Option<Seq<char>>,
}

impl View for Leaf {
    type V = LeafView;

    open spec fn view(&self) -> LeafView {
        LeafView {
            name: self.name@,
            when: self.when.deep_view(),
            if_features: self.if_features.deep_view(),
            type_info: self.type_info@,
            units: self.units.deep_view(),
            must: self.must.deep_view(),
            default: self.default.deep_view(),
            config: self.config,
            mandatory: self.mandatory,
            status: self.status,
            description: self.description.deep_view(),
            reference: self.reference.deep_view(),
        }
    }
}

impl DeepView for Leaf {
    type V = LeafView;

    open spec fn deep_view(&self) -> LeafView {
        self@
    }
}

impl Clone for Leaf {
    fn clone(&self) -> (res: Self)
        ensures
            res@ == self@,
    {
        let res = Leaf {
            name: self.name.clone(),
            when: self.when.clone(),
            if_features: self.if_features.clone(),
            type_info: self.type_info.clone(),
            units: self.units.clone(),
            must: self.must.clone(),
            default: self.default.clone(),
            config: self.config,
            mandatory: self.mandatory,
            status: self.status,
            description: self.description.clone(),
            reference: self.reference.clone(),
        };
        proof {
            assert(res.if_features.deep_view() =~= self.if_features.deep_view());
            assert(res.must.deep_view() =~= self.must.deep_view());
        }
        res
    }
}

/// A `leaf-list` statement.
#[derive(Debug, Default, PartialEq, Eq)]
pub struct LeafList {
    pub name: String,
    pub when: Option<When>,
    pub if_features: Vec<String>,
    pub type_info: TypeInfo,
    pub units: Option<String>,
    pub must: Vec<Must>,
    pub default: Vec<String>,
    pub config: Option<bool>,
    pub min_elements: Option<i64>,
    pub max_elements: Option<MaxElements>,
    pub ordered_by: Option<OrderedBy>,
    pub status: Option<Status>,
    pub description: Option<String>,
    pub reference: Option<String>,
}

/// What a [`LeafList`] holds, as a mathematical value.
pub ghost struct LeafListView {
    pub name: Seq<char>,
    pub when: Option<WhenView>,
    pub if_features: Seq<Seq<char>>,
    pub type_info: TypeInfoView,
    pub units: Option<Seq<char>>,
    pub must: Seq<MustView>,
    pub default: Seq<Seq<char>>,
    pub config: Option<bool>,
    pub min_elements: Option<i64>,
    pub max_elements: Option<MaxElements>,
    pub ordered_by: Option<OrderedBy>,
    pub status: Option<Status>,
    pub description: Option<Seq<char>>,
    pub reference: Option<Seq<char>>,
}

impl View for LeafList {
    type V = LeafListView;

    open spec fn view(&self) -> LeafListView {
        LeafListView {
            name: self.name@,
            when: self.when.deep_view(),
            if_features: self.if_features.deep_view(),
            type_info: self.type_info@,
            units: self.units.deep_view(),
            must: self.must.deep_view(),
            default: self.default.deep_view(),
            config: self.config,
            min_elements: self.min_elements,
            max_elements: self.max_elements,
            ordered_by: self.ordered_by,
            status: self.status,
            description: self.description.deep_view(),
            reference: self.reference.deep_view(),
        }
    }
}

impl DeepView for LeafList {
    type V = LeafListView;

    open spec fn deep_view(&self) -> LeafListView {
        self@
    }
}

impl Clone for LeafList {
    fn clone(&self) -> (res: Self)
        ensures
            res@ == self@,
    {
        let res = LeafList {
            name: self.name.clone(),
            when: self.when.clone(),
            if_features: self.if_features.clone(),
            type_info: self.type_info.clone(),
            units: self.units.clone(),
            must: self.must.clone(),
            default: self.default.clone(),
            config: self.config,
            min_elements: self.min_elements,
            max_elements: self.max_elements,
            ordered_by: self.ordered_by,
            status: self.status,
            description: self.description.clone(),
            reference: self.reference.clone(),
        };
        proof {
            assert(res.if_features.deep_view() =~= self.if_features.deep_view());
            assert(res.must.deep_view() =~= self.must.deep_view());
            assert(res.default.deep_view() =~= self.default.deep_view());
        }
        res
    }
}

/// An `anydata` statement.
#[derive(Debug, Default, PartialEq, Eq)]
pub struct Anydata {
    pub name: String,
    pub when: Option<When>,
    pub if_features: Vec<String>,
    pub must: Vec<Must>,
    pub config: Option<bool>,
    pub mandatory: Option<bool>,
    pub status: Option<Status>,
    pub description: Option<String>,
    pub reference: Option<String>,
}

/// What a [`Anydata`] holds, as a mathematical value.
pub ghost struct AnydataView {
    pub name: Seq<char>,
    pub when: Option<WhenView>,
    pub if_features: Seq<Seq<char>>,
    pub must: Seq<MustView>,
    pub config: Option<bool>,
    pub mandatory: Option<bool>,
    pub status: Option<Status>,
    pub description: Option<Seq<char>>,
    pub reference: Option<Seq<char>>,
}

impl View for Anydata {
    type V = AnydataView;

    open spec fn view(&self) -> AnydataView {
        AnydataView {
            name: self.name@,
            when: self.when.deep_view(),
            if_features: self.if_features.deep_view(),
            must: self.must.deep_view(),
            config: self.config,
            mandatory: self.mandatory,
            status: self.status,
            description: self.description.deep_view(),
            reference: self.reference.deep_view(),
        }
    }
}

impl DeepView for Anydata {
    type V = AnydataView;

    open spec fn deep_view(&self) -> AnydataView {
        self@
    }
}

impl Clone for Anydata {
    fn clone(&self) -> (res: Self)
        ensures
            res@ == self@,
    {
        let res = Anydata {
            name: self.name.clone(),
            when: self.when.clone(),
            if_features: self.if_features.clone(),
            must: self.must.clone(),
            config: self.config,
            mandatory: self.mandatory,
            status: self.status,
            description: self.description.clone(),
            reference: self.reference.clone(),
        };
        proof {
            assert(res.if_features.deep_view() =~= self.if_features.deep_view());
            assert(res.must.deep_view() =~= self.must.deep_view());
        }
        res
    }
}

/// An `anyxml` statement.
#[derive(Debug, Default, PartialEq, Eq)]
pub struct Anyxml {
    pub name: String,
    pub when: Option<When>,
    pub if_features: Vec<String>,
    pub must: Vec<Must>,
    pub config: Option<bool>,
    pub mandatory: Option<bool>,
    pub status: Option<Status>,
    pub description: Option<String>,
    pub reference: Option<String>,
}

/// What a [`Anyxml`] holds, as a mathematical value.
pub ghost struct AnyxmlView {
    pub name: Seq<char>,
    pub when: Option<WhenView>,
    pub if_features: Seq<Seq<char>>,
    pub must: Seq<MustView>,
    pub config: Option<bool>,
    pub mandatory: Option<bool>,
    pub status: Option<Status>,
    pub description: Option<Seq<char>>,
    pub reference: Option<Seq<char>>,
}

impl View for Anyxml {
    type V = AnyxmlView;

    open spec fn view(&self) -> AnyxmlView {
        AnyxmlView {
            name: self.name@,
            when: self.when.deep_view(),
            if_features: self.if_features.deep_view(),
            must: self.must.deep_view(),
            config: self.config,
            mandatory: self.mandatory,
            status: self.status,
            description: self.description.deep_view(),
            reference: self.reference.deep_view(),
        }
    }
}

impl DeepView for Anyxml {
    type V = AnyxmlView;

    open spec fn deep_view(&self) -> AnyxmlView {
        self@
    }
}

impl Clone for Anyxml {
    fn clone(&self) -> (res: Self)
        ensures
            res@ == self@,
    {
        let res = Anyxml {
            name: self.name.clone(),
            when: self.when.clone(),
            if_features: self.if_features.clone(),
            must: self.must.clone(),
            config: self.config,
            mandatory: self.mandatory,
            status: self.status,
            description: self.description.clone(),
            reference: self.reference.clone(),
        };
        proof {
            assert(res.if_features.deep_view() =~= self.if_features.deep_view());
            assert(res.must.deep_view() =~= self.must.deep_view());
        }
        res
    }
}

/// A `refine` statement of a `uses`.
#[derive(Debug, Default, PartialEq, Eq)]
pub struct Refine {
    pub target: String,
    pub if_features: Vec<String>,
    pub must: Vec<Must>,
    pub presence: Option<String>,
    pub default: Vec<String>,
    pub config: Option<bool>,
    pub mandatory: Option<bool>,
    pub min_elements: Option<i64>,
    pub max_elements: Option<MaxElements>,
    pub description: Option<String>,
    pub reference: Option<String>,
}

/// What a [`Refine`] holds, as a mathematical value.
pub ghost struct RefineView {
    pub target: Seq<char>,
    pub if_features: Seq<Seq<char>>,
    pub must: Seq<MustView>,
    pub presence: Option<Seq<char>>,
    pub default: Seq<Seq<char>>,
    pub config: Option<bool>,
    pub mandatory: Option<bool>,
    pub min_elements: Option<i64>,
    pub max_elements: Option<MaxElements>,
    pub description: Option<Seq<char>>,
    pub reference: Option<Seq<char>>,
}

impl View for Refine {
    type V = RefineView;

    open spec fn view(&self) -> RefineView {
        RefineView {
            target: self.target@,
            if_features: self.if_features.deep_view(),
            must: self.must.deep_view(),
            presence: self.presence.deep_view(),
            default: self.default.deep_view(),
            config: self.config,
            mandatory: self.mandatory,
            min_elements: self.min_elements,
            max_elements: self.max_elements,
            description: self.description.deep_view(),
            reference: self.reference.deep_view(),
        }
    }
}

impl DeepView for Refine {
    type V = RefineView;

    open spec fn deep_view(&self) -> RefineView {
        self@
    }
}

impl Clone for Refine {
    fn clone(&self) -> (res: Self)
        ensures
            res@ == self@,
    {
        let res = Refine {
            target: self.target.clone(),
            if_features: self.if_features.clone(),
            must: self.must.clone(),
            presence: self.presence.clone(),
            default: self.default.clone(),
            config: self.config,
            mandatory: self.mandatory,
            min_elements: self.min_elements,
            max_elements: self.max_elements,
            description: self.description.clone(),
            reference: self.reference.clone(),
        };
        proof {
            assert(res.if_features.deep_view() =~= self.if_features.deep_view());
            assert(res.must.deep_view() =~= self.must.deep_view());
            assert(res.default.deep_view() =~= self.default.deep_view());
        }
        res
    }
}

/// A data definition: a node of the data tree.
#[derive(Debug, PartialEq, Eq)]
pub enum DataDef {
    Container(Container),
    Leaf(Leaf),
    LeafList(LeafList),
    List(List),
    Choice(Choice),
    AnyData(Anydata),
    Anyxml(Anyxml),
    Uses(Uses),
}

/// What a [`DataDef`] holds, as a mathematical value.
pub ghost enum DataDefView {
    Container(ContainerView),
    Leaf(LeafView),
    LeafList(LeafListView),
    List(ListView),
    Choice(ChoiceView),
    AnyData(AnydataView),
    Anyxml(AnyxmlView),
    Uses(UsesView),
}

impl View for DataDef {
    type V = DataDefView;

    open spec fn view(&self) -> DataDefView
        decreases self, 0nat,
    {
        match self {
            DataDef::Container(x) => DataDefView::Container(x@),
            DataDef::Leaf(x) => DataDefView::Leaf(x@),
            DataDef::LeafList(x) => DataDefView::LeafList(x@),
            DataDef::List(x) => DataDefView::List(x@),
            DataDef::Choice(x) => DataDefView::Choice(x@),
            DataDef::AnyData(x) => DataDefView::AnyData(x@),
            DataDef::Anyxml(x) => DataDefView::Anyxml(x@),
            DataDef::Uses(x) => DataDefView::Uses(x@),
        }
    }
}

impl DeepView for DataDef {
    type V = DataDefView;

    open spec fn deep_view(&self) -> DataDefView {
        self@
    }
}

impl Clone for DataDef {
    fn clone(&self) -> (res: Self)
        ensures
            res@ == self@,
        decreases self,
    {
        match self {
            DataDef::Container(x) => DataDef::Container(x.clone()),
            DataDef::Leaf(x) => DataDef::Leaf(x.clone()),
            DataDef::LeafList(x) => DataDef::LeafList(x.clone()),
            DataDef::List(x) => DataDef::List(x.clone()),
            DataDef::Choice(x) => DataDef::Choice(x.clone()),
            DataDef::AnyData(x) => DataDef::AnyData(x.clone()),
            DataDef::Anyxml(x) => DataDef::Anyxml(x.clone()),
            DataDef::Uses(x) => DataDef::Uses(x.clone()),
        }
    }
}

/// A `container` statement.
#[derive(Debug, Default, PartialEq, Eq)]
pub struct Container {
    pub name: String,
    pub when: Option<When>,
    pub if_features: Vec<String>,
    pub must: Vec<Must>,
    pub presence: Option<String>,
    pub config: Option<bool>,
    pub status: Option<Status>,
    pub description: Option<String>,
    pub reference: Option<String>,
    pub data_defs: Vec<DataDef>,
    pub actions: Vec<Action>,
    pub notifications: Vec<Notification>,
}

/// What a [`Container`] holds, as a mathematical value.
pub ghost struct ContainerView {
    pub name: Seq<char>,
    pub when: Option<WhenView>,
    pub if_features: Seq<Seq<char>>,
    pub must: Seq<MustView>,
    pub presence: Option<Seq<char>>,
    pub config: Option<bool>,
    pub status: Option<Status>,
    pub description: Option<Seq<char>>,
    pub reference: Option<Seq<char>>,
    pub data_defs: Seq<DataDefView>,
    pub actions: Seq<ActionView>,
    pub notifications: Seq<NotificationView>,
}

impl View for Container {
    type V = ContainerView;

    open spec fn view(&self) -> ContainerView
        decreases self, 0nat,
    {
        ContainerView {
            name: self.name@,
            when: self.when.deep_view(),
            if_features: self.if_features.deep_view(),
            must: self.must.deep_view(),
            presence: self.presence.deep_view(),
            config: self.config,
            status: self.status,
            description: self.description.deep_view(),
            reference: self.reference.deep_view(),
            data_defs: data_defs_view(self.data_defs@),
            actions: actions_view(self.actions@),
            notifications: notifications_view(self.notifications@),
        }
    }
}

impl DeepView for Container {
    type V = ContainerView;

    open spec fn deep_view(&self) -> ContainerView {
        self@
    }
}

impl Clone for Container {
    fn clone(&self) -> (res: Self)
        ensures
            res@ == self@,
        decreases self,
    {
        let res = Container {
            name: self.name.clone(),
            when: self.when.clone(),
            if_features: self.if_features.clone(),
            must: self.must.clone(),
            presence: self.presence.clone(),
            config: self.config,
            status: self.status,
            description: self.description.clone(),
            reference: self.reference.clone(),
            data_defs: clone_data_defs(&self.data_defs),
            actions: clone_actions(&self.actions),
            notifications: clone_notifications(&self.notifications),
        };
        proof {
            assert(res.if_features.deep_view() =~= self.if_features.deep_view());
            assert(res.must.deep_view() =~= self.must.deep_view());
        }
        res
    }
}

impl Container {
    /// A copy of `self` that holds the given members in place of its own.
    pub fn with_members(
        &self,
        data_defs: Vec<DataDef>,
        actions: Vec<Action>,
        notifications: Vec<Notification>,
    ) -> (res: Self)
        ensures
            res@ == (ContainerView {
                data_defs: data_defs_view(data_defs@),
                actions: actions_view(actions@),
                notifications: notifications_view(notifications@),
                ..self@
            }),
    {
        let res = Container {
            name: self.name.clone(),
            when: self.when.clone(),
            if_features: self.if_features.clone(),
            must: self.must.clone(),
            presence: self.presence.clone(),
            config: self.config,
            status: self.status,
            description: self.description.clone(),
            reference: self.reference.clone(),
            data_defs,
            actions,
            notifications,
        };
        proof {
            assert(res.if_features.deep_view() =~= self.if_features.deep_view());
            assert(res.must.deep_view() =~= self.must.deep_view());
        }
        res
    }
}

/// A `list` statement.
#[derive(Debug, Default, PartialEq, Eq)]
pub struct List {
    pub name: String,
    pub when: Option<When>,
    pub if_features: Vec<String>,
    pub must: Vec<Must>,
    pub key: Option<String>,
    pub unique: Vec<String>,
    pub config: Option<bool>,
    pub min_elements: Option<i64>,
    pub max_elements: Option<MaxElements>,
    pub ordered_by: Option<OrderedBy>,
    pub status: Option<Status>,
    pub description: Option<String>,
    pub reference: Option<String>,
    pub data_defs: Vec<DataDef>,
    pub actions: Vec<Action>,
    pub notifications: Vec<Notification>,
}

/// What a [`List`] holds, as a mathematical value.
pub ghost struct ListView {
    pub name: Seq<char>,
    pub when: Option<WhenView>,
    pub if_features: Seq<Seq<char>>,
    pub must: Seq<MustView>,
    pub key: Option<Seq<char>>,
    pub unique: Seq<Seq<char>>,
    pub config: Option<bool>,
    pub min_elements: Option<i64>,
    pub max_elements: Option<MaxElements>,
    pub ordered_by: Option<OrderedBy>,
    pub status: Option<Status>,
    pub description: Option<Seq<char>>,
    pub reference: Option<Seq<char>>,
    pub data_defs: Seq<DataDefView>,
    pub actions: Seq<ActionView>,
    pub notifications: Seq<NotificationView>,
}

impl View for List {
    type V = ListView;

    open spec fn view(&self) -> ListView
        decreases self, 0nat,
    {
        ListView {
            name: self.name@,
            when: self.when.deep_view(),
            if_features: self.if_features.deep_view(),
            must: self.must.deep_view(),
            key: self.key.deep_view(),
            unique: self.unique.deep_view(),
            config: self.config,
            min_elements: self.min_elements,
            max_elements: self.max_elements,
            ordered_by: self.ordered_by,
            status: self.status,
            description: self.description.deep_view(),
            reference: self.reference.deep_view(),
            data_defs: data_defs_view(self.data_defs@),
            actions: actions_view(self.actions@),
            notifications: notifications_view(self.notifications@),
        }
    }
}

impl DeepView for List {
    type V = ListView;

    open spec fn deep_view(&self) -> ListView {
        self@
    }
}

impl Clone for List {
    fn clone(&self) -> (res: Self)
        ensures
            res@ == self@,
        decreases self,
    {
        let res = List {
            name: self.name.clone(),
            when: self.when.clone(),
            if_features: self.if_features.clone(),
            must: self.must.clone(),
            key: self.key.clone(),
            unique: self.unique.clone(),
            config: self.config,
            min_elements: self.min_elements,
            max_elements: self.max_elements,
            ordered_by: self.ordered_by,
            status: self.status,
            description: self.description.clone(),
            reference: self.reference.clone(),
            data_defs: clone_data_defs(&self.data_defs),
            actions: clone_actions(&self.actions),
            notifications: clone_notifications(&self.notifications),
        };
        proof {
            assert(res.if_features.deep_view() =~= self.if_features.deep_view());
            assert(res.must.deep_view() =~= self.must.deep_view());
            assert(res.unique.deep_view() =~= self.unique.deep_view());
        }
        res
    }
}

impl List {
    /// A copy of `self` that holds the given members in place of its own.
    pub fn with_members(
        &self,
        data_defs: Vec<DataDef>,
        actions: Vec<Action>,
        notifications: Vec<Notification>,
    ) -> (res: Self)
        ensures
            res@ == (ListView {
                data_defs: data_defs_view(data_defs@),
                actions: actions_view(actions@),
                notifications: notifications_view(notifications@),
                ..self@
            }),
    {
        let res = List {
            name: self.name.clone(),
            when: self.when.clone(),
            if_features: self.if_features.clone(),
            must: self.must.clone(),
            key: self.key.clone(),
            unique: self.unique.clone(),
            config: self.config,
            min_elements: self.min_elements,
            max_elements: self.max_elements,
            ordered_by: self.ordered_by,
            status: self.status,
            description: self.description.clone(),
            reference: self.reference.clone(),
            data_defs,
            actions,
            notifications,
        };
        proof {
            assert(res.if_features.deep_view() =~= self.if_features.deep_view());
            assert(res.must.deep_view() =~= self.must.deep_view());
            assert(res.unique.deep_view() =~= self.unique.deep_view());
        }
        res
    }
}

/// A `choice` statement.
#[derive(Debug, Default, PartialEq, Eq)]
pub struct Choice {
    pub name: String,
    pub when: Option<When>,
    pub if_features: Vec<String>,
    pub default: Option<String>,
    pub config: Option<bool>,
    pub mandatory: Option<bool>,
    pub status: Option<Status>,
    pub description: Option<String>,
    pub reference: Option<String>,
    pub cases: Vec<Case>,
}

/// What a [`Choice`] holds, as a mathematical value.
pub ghost struct ChoiceView {
    pub name: Seq<char>,
    pub when: Option<WhenView>,
    pub if_features: Seq<Seq<char>>,
    pub default: Option<Seq<char>>,
    pub config: Option<bool>,
    pub mandatory: Option<bool>,
    pub status: Option<Status>,
    pub description: Option<Seq<char>>,
    pub reference: Option<Seq<char>>,
    pub cases: Seq<CaseView>,
}

impl View for Choice {
    type V = ChoiceView;

    open spec fn view(&self) -> ChoiceView
        decreases self, 0nat,
    {
        ChoiceView {
            name: self.name@,
            when: self.when.deep_view(),
            if_features: self.if_features.deep_view(),
            default: self.default.deep_view(),
            config: self.config,
            mandatory: self.mandatory,
            status: self.status,
            description: self.description.deep_view(),
            reference: self.reference.deep_view(),
            cases: cases_view(self.cases@),
        }
    }
}

impl DeepView for Choice {
    type V = ChoiceView;

    open spec fn deep_view(&self) -> ChoiceView {
        self@
    }
}

impl Clone for Choice {
    fn clone(&self) -> (res: Self)
        ensures
            res@ == self@,
        decreases self,
    {
        let res = Choice {
            name: self.name.clone(),
            when: self.when.clone(),
            if_features: self.if_features.clone(),
            default: self.default.clone(),
            config: self.config,
            mandatory: self.mandatory,
            status: self.status,
            description: self.description.clone(),
            reference: self.reference.clone(),
            cases: clone_cases(&self.cases),
        };
        proof {
            assert(res.if_features.deep_view() =~= self.if_features.deep_view());
        }
        res
    }
}

impl Choice {
    /// A copy of `self` that holds the given members in place of its own.
    pub fn with_members(&self, cases: Vec<Case>) -> (res: Self)
        ensures
            res@ == (ChoiceView {
                cases: cases_view(cases@),
                ..self@
            }),
    {
        let res = Choice {
            name: self.name.clone(),
            when: self.when.clone(),
            if_features: self.if_features.clone(),
            default: self.default.clone(),
            config: self.config,
            mandatory: self.mandatory,
            status: self.status,
            description: self.description.clone(),
            reference: self.reference.clone(),
            cases,
        };
        proof {
            assert(res.if_features.deep_view() =~= self.if_features.deep_view());
        }
        res
    }
}

/// A case of a choice, written in full or in its short form.
#[derive(Debug, PartialEq, Eq)]
pub enum Case {
    LongCase(LongCase),
    ShortCase(ShortCase),
}

/// What a [`Case`] holds, as a mathematical value.
pub ghost enum CaseView {
    LongCase(LongCaseView),
    ShortCase(ShortCaseView),
}

impl View for Case {
    type V = CaseView;

    open spec fn view(&self) -> CaseView
        decreases self, 0nat,
    {
        match self {
            Case::LongCase(x) => CaseView::LongCase(x@),
            Case::ShortCase(x) => CaseView::ShortCase(x@),
        }
    }
}

impl DeepView for Case {
    type V = CaseView;

    open spec fn deep_view(&self) -> CaseView {
        self@
    }
}

impl Clone for Case {
    fn clone(&self) -> (res: Self)
        ensures
            res@ == self@,
        decreases self,
    {
        match self {
            Case::LongCase(x) => Case::LongCase(x.clone()),
            Case::ShortCase(x) => Case::ShortCase(x.clone()),
        }
    }
}

/// A `case` statement.
#[derive(Debug, Default, PartialEq, Eq)]
pub struct LongCase {
    pub name: String,
    pub when: Option<When>,
    pub if_features: Vec<String>,
    pub status: Option<Status>,
    pub description: Option<String>,
    pub reference: Option<String>,
    pub data_defs: Vec<DataDef>,
}

/// What a [`LongCase`] holds, as a mathematical value.
pub ghost struct LongCaseView {
    pub name: Seq<char>,
    pub when: Option<WhenView>,
    pub if_features: Seq<Seq<char>>,
    pub status: Option<Status>,
    pub description: Option<Seq<char>>,
    pub reference: Option<Seq<char>>,
    pub data_defs: Seq<DataDefView>,
}

impl View for LongCase {
    type V = LongCaseView;

    open spec fn view(&self) -> LongCaseView
        decreases self, 0nat,
    {
        LongCaseView {
            name: self.name@,
            when: self.when.deep_view(),
            if_features: self.if_features.deep_view(),
            status: self.status,
            description: self.description.deep_view(),
            reference: self.reference.deep_view(),
            data_defs: data_defs_view(self.data_defs@),
        }
    }
}

impl DeepView for LongCase {
    type V = LongCaseView;

    open spec fn deep_view(&self) -> LongCaseView {
        self@
    }
}

impl Clone for LongCase {
    fn clone(&self) -> (res: Self)
        ensures
            res@ == self@,
        decreases self,
    {
        let res = LongCase {
            name: self.name.clone(),
            when: self.when.clone(),
            if_features: self.if_features.clone(),
            status: self.status,
            description: self.description.clone(),
            reference: self.reference.clone(),
            data_defs: clone_data_defs(&self.data_defs),
        };
        proof {
            assert(res.if_features.deep_view() =~= self.if_features.deep_view());
        }
        res
    }
}

impl LongCase {
    /// A copy of `self` that holds the given members in place of its own.
    pub fn with_members(&self, data_defs: Vec<DataDef>) -> (res: Self)
        ensures
            res@ == (LongCaseView {
                data_defs: data_defs_view(data_defs@),
                ..self@
            }),
    {
        let res = LongCase {
            name: self.name.clone(),
            when: self.when.clone(),
            if_features: self.if_features.clone(),
            status: self.status,
            description: self.description.clone(),
            reference: self.reference.clone(),
            data_defs,
        };
        proof {
            assert(res.if_features.deep_view() =~= self.if_features.deep_view());
        }
        res
    }
}

/// A case given by a single data definition, without the `case` keyword.
#[derive(Debug, PartialEq, Eq)]
pub enum ShortCase {
    Choice(Choice),
    Container(Container),
    Leaf(Leaf),
    LeafList(LeafList),
    List(List),
    Anydata(Anydata),
    Anyxml(Anyxml),
}

/// What a [`ShortCase`] holds, as a mathematical value.
pub ghost enum ShortCaseView {
    Choice(ChoiceView),
    Container(ContainerView),
    Leaf(LeafView),
    LeafList(LeafListView),
    List(ListView),
    Anydata(AnydataView),
    Anyxml(AnyxmlView),
}

impl View for ShortCase {
    type V = ShortCaseView;

    open spec fn view(&self) -> ShortCaseView
        decreases self, 0nat,
    {
        match self {
            ShortCase::Choice(x) => ShortCaseView::Choice(x@),
            ShortCase::Container(x) => ShortCaseView::Container(x@),
            ShortCase::Leaf(x) => ShortCaseView::Leaf(x@),
            ShortCase::LeafList(x) => ShortCaseView::LeafList(x@),
            ShortCase::List(x) => ShortCaseView::List(x@),
            ShortCase::Anydata(x) => ShortCaseView::Anydata(x@),
            ShortCase::Anyxml(x) => ShortCaseView::Anyxml(x@),
        }
    }
}

impl DeepView for ShortCase {
    type V = ShortCaseView;

    open spec fn deep_view(&self) -> ShortCaseView {
        self@
    }
}

impl Clone for ShortCase {
    fn clone(&self) -> (res: Self)
        ensures
            res@ == self@,
        decreases self,
    {
        match self {
            ShortCase::Choice(x) => ShortCase::Choice(x.clone()),
            ShortCase::Container(x) => ShortCase::Container(x.clone()),
            ShortCase::Leaf(x) => ShortCase::Leaf(x.clone()),
            ShortCase::LeafList(x) => ShortCase::LeafList(x.clone()),
            ShortCase::List(x) => ShortCase::List(x.clone()),
            ShortCase::Anydata(x) => ShortCase::Anydata(x.clone()),
            ShortCase::Anyxml(x) => ShortCase::Anyxml(x.clone()),
        }
    }
}

/// A `uses` statement: a reference to a grouping.
#[derive(Debug, Default, PartialEq, Eq)]
pub struct Uses {
    pub grouping: String,
    pub when: Option<When>,
    pub if_features: Vec<String>,
    pub status: Option<Status>,
    pub description: Option<String>,
    pub reference: Option<String>,
    pub refines: Vec<Refine>,
    pub augments: Vec<Augment>,
}

/// What a [`Uses`] holds, as a mathematical value.
pub ghost struct UsesView {
    pub grouping: Seq<char>,
    pub when: Option<WhenView>,
    pub if_features: Seq<Seq<char>>,
    pub status: Option<Status>,
    pub description: Option<Seq<char>>,
    pub reference: Option<Seq<char>>,
    pub refines: Seq<RefineView>,
    pub augments: Seq<AugmentView>,
}

impl View for Uses {
    type V = UsesView;

    open spec fn view(&self) -> UsesView
        decreases self, 0nat,
    {
        UsesView {
            grouping: self.grouping@,
            when: self.when.deep_view(),
            if_features: self.if_features.deep_view(),
            status: self.status,
            description: self.description.deep_view(),
            reference: self.reference.deep_view(),
            refines: self.refines.deep_view(),
            augments: augments_view(self.augments@),
        }
    }
}

impl DeepView for Uses {
    type V = UsesView;

    open spec fn deep_view(&self) -> UsesView {
        self@
    }
}

impl Clone for Uses {
    fn clone(&self) -> (res: Self)
        ensures
            res@ == self@,
        decreases self,
    {
        let res = Uses {
            grouping: self.grouping.clone(),
            when: self.when.clone(),
            if_features: self.if_features.clone(),
            status: self.status,
            description: self.description.clone(),
            reference: self.reference.clone(),
            refines: self.refines.clone(),
            augments: clone_augments(&self.augments),
        };
        proof {
            assert(res.if_features.deep_view() =~= self.if_features.deep_view());
            assert(res.refines.deep_view() =~= self.refines.deep_view());
        }
        res
    }
}

/// An `augment` statement; it is collected, never applied.
#[derive(Debug, Default, PartialEq, Eq)]
pub struct Augment {
    pub target: String,
    pub when: Option<When>,
    pub if_features: Vec<String>,
    pub status: Option<Status>,
    pub description: Option<String>,
    pub reference: Option<String>,
    pub data_defs: Vec<DataDef>,
    pub cases: Vec<Case>,
    pub actions: Vec<Action>,
    pub notifications: Vec<Notification>,
}

/// What a [`Augment`] holds, as a mathematical value.
pub ghost struct AugmentView {
    pub target: Seq<char>,
    pub when: Option<WhenView>,
    pub if_features: Seq<Seq<char>>,
    pub status: Option<Status>,
    pub description: Option<Seq<char>>,
    pub reference: Option<Seq<char>>,
    pub data_defs: Seq<DataDefView>,
    pub cases: Seq<CaseView>,
    pub actions: Seq<ActionView>,
    pub notifications: Seq<NotificationView>,
}

impl View for Augment {
    type V = AugmentView;

    open spec fn view(&self) -> AugmentView
        decreases self, 0nat,
    {
        AugmentView {
            target: self.target@,
            when: self.when.deep_view(),
            if_features: self.if_features.deep_view(),
            status: self.status,
            description: self.description.deep_view(),
            reference: self.reference.deep_view(),
            data_defs: data_defs_view(self.data_defs@),
            cases: cases_view(self.cases@),
            actions: actions_view(self.actions@),
            notifications: notifications_view(self.notifications@),
        }
    }
}

impl DeepView for Augment {
    type V = AugmentView;

    open spec fn deep_view(&self) -> AugmentView {
        self@
    }
}

impl Clone for Augment {
    fn clone(&self) -> (res: Self)
        ensures
            res@ == self@,
        decreases self,
    {
        let res = Augment {
            target: self.target.clone(),
            when: self.when.clone(),
            if_features: self.if_features.clone(),
            status: self.status,
            description: self.description.clone(),
            reference: self.reference.clone(),
            data_defs: clone_data_defs(&self.data_defs),
            cases: clone_cases(&self.cases),
            actions: clone_actions(&self.actions),
            notifications: clone_notifications(&self.notifications),
        };
        proof {
            assert(res.if_features.deep_view() =~= self.if_features.deep_view());
        }
        res
    }
}

impl Augment {
    /// A copy of `self` that holds the given members in place of its own.
    pub fn with_members(
        &self,
        data_defs: Vec<DataDef>,
        cases: Vec<Case>,
        actions: Vec<Action>,
        notifications: Vec<Notification>,
    ) -> (res: Self)
        ensures
            res@ == (AugmentView {
                data_defs: data_defs_view(data_defs@),
                cases: cases_view(cases@),
                actions: actions_view(actions@),
                notifications: notifications_view(notifications@),
                ..self@
            }),
    {
        let res = Augment {
            target: self.target.clone(),
            when: self.when.clone(),
            if_features: self.if_features.clone(),
            status: self.status,
            description: self.description.clone(),
            reference: self.reference.clone(),
            data_defs,
            cases,
            actions,
            notifications,
        };
        proof {
            assert(res.if_features.deep_view() =~= self.if_features.deep_view());
        }
        res
    }
}

/// The `input` of an rpc or action.
#[derive(Debug, Default, PartialEq, Eq)]
pub struct Input {
    pub must: Vec<Must>,
    pub data_defs: Vec<DataDef>,
}

/// What a [`Input`] holds, as a mathematical value.
pub ghost struct InputView {
    pub must: Seq<MustView>,
    pub data_defs: Seq<DataDefView>,
}

impl View for Input {
    type V = InputView;

    open spec fn view(&self) -> InputView
        decreases self, 0nat,
    {
        InputView {
            must: self.must.deep_view(),
            data_defs: data_defs_view(self.data_defs@),
        }
    }
}

impl DeepView for Input {
    type V = InputView;

    open spec fn deep_view(&self) -> InputView {
        self@
    }
}

impl Clone for Input {
    fn clone(&self) -> (res: Self)
        ensures
            res@ == self@,
        decreases self,
    {
        let res = Input {
            must: self.must.clone(),
            data_defs: clone_data_defs(&self.data_defs),
        };
        proof {
            assert(res.must.deep_view() =~= self.must.deep_view());
        }
        res
    }
}

impl Input {
    /// A copy of `self` that holds the given members in place of its own.
    pub fn with_members(&self, data_defs: Vec<DataDef>) -> (res: Self)
        ensures
            res@ == (InputView {
                data_defs: data_defs_view(data_defs@),
                ..self@
            }),
    {
        let res = Input {
            must: self.must.clone(),
            data_defs,
        };
        proof {
            assert(res.must.deep_view() =~= self.must.deep_view());
        }
        res
    }
}

/// The `output` of an rpc or action.
#[derive(Debug, Default, PartialEq, Eq)]
pub struct Output {
    pub must: Vec<Must>,
    pub data_defs: Vec<DataDef>,
}

/// What a [`Output`] holds, as a mathematical value.
pub ghost struct OutputView {
    pub must: Seq<MustView>,
    pub data_defs: Seq<DataDefView>,
}

impl View for Output {
    type V = OutputView;

    open spec fn view(&self) -> OutputView
        decreases self, 0nat,
    {
        OutputView {
            must: self.must.deep_view(),
            data_defs: data_defs_view(self.data_defs@),
        }
    }
}

impl DeepView for Output {
    type V = OutputView;

    open spec fn deep_view(&self) -> OutputView {
        self@
    }
}

impl Clone for Output {
    fn clone(&self) -> (res: Self)
        ensures
            res@ == self@,
        decreases self,
    {
        let res = Output {
            must: self.must.clone(),
            data_defs: clone_data_defs(&self.data_defs),
        };
        proof {
            assert(res.must.deep_view() =~= self.must.deep_view());
        }
        res
    }
}

impl Output {
    /// A copy of `self` that holds the given members in place of its own.
    pub fn with_members(&self, data_defs: Vec<DataDef>) -> (res: Self)
        ensures
            res@ == (OutputView {
                data_defs: data_defs_view(data_defs@),
                ..self@
            }),
    {
        let res = Output {
            must: self.must.clone(),
            data_defs,
        };
        proof {
            assert(res.must.deep_view() =~= self.must.deep_view());
        }
        res
    }
}

/// An `action` statement.
#[derive(Debug, Default, PartialEq, Eq)]
pub struct Action {
    pub name: String,
    pub if_features: Vec<String>,
    pub must: Vec<Must>,
    pub status: Option<Status>,
    pub description: Option<String>,
    pub reference: Option<String>,
    pub input: Option<Input>,
    pub output: Option<Output>,
}

/// What a [`Action`] holds, as a mathematical value.
pub ghost struct ActionView {
    pub name: Seq<char>,
    pub if_features: Seq<Seq<char>>,
    pub must: Seq<MustView>,
    pub status: Option<Status>,
    pub description: Option<Seq<char>>,
    pub reference: Option<Seq<char>>,
    pub input: Option<InputView>,
    pub output: Option<OutputView>,
}

impl View for Action {
    type V = ActionView;

    open spec fn view(&self) -> ActionView
        decreases self, 0nat,
    {
        ActionView {
            name: self.name@,
            if_features: self.if_features.deep_view(),
            must: self.must.deep_view(),
            status: self.status,
            description: self.description.deep_view(),
            reference: self.reference.deep_view(),
            input: match self.input {
                Some(x) => Some(x@),
                None => None,
            },
            output: match self.output {
                Some(x) => Some(x@),
                None => None,
            },
        }
    }
}

impl DeepView for Action {
    type V = ActionView;

    open spec fn deep_view(&self) -> ActionView {
        self@
    }
}

impl Clone for Action {
    fn clone(&self) -> (res: Self)
        ensures
            res@ == self@,
        decreases self,
    {
        let res = Action {
            name: self.name.clone(),
            if_features: self.if_features.clone(),
            must: self.must.clone(),
            status: self.status,
            description: self.description.clone(),
            reference: self.reference.clone(),
            input: match &self.input {
                Some(x) => Some(x.clone()),
                None => None,
            },
            output: match &self.output {
                Some(x) => Some(x.clone()),
                None => None,
            },
        };
        proof {
            assert(res.if_features.deep_view() =~= self.if_features.deep_view());
            assert(res.must.deep_view() =~= self.must.deep_view());
        }
        res
    }
}

impl Action {
    /// A copy of `self` that holds the given members in place of its own.
    pub fn with_members(&self, input: Option<Input>, output: Option<Output>) -> (res: Self)
        ensures
            res@ == (ActionView {
                input: input.deep_view(),
                output: output.deep_view(),
                ..self@
            }),
    {
        let res = Action {
            name: self.name.clone(),
            if_features: self.if_features.clone(),
            must: self.must.clone(),
            status: self.status,
            description: self.description.clone(),
            reference: self.reference.clone(),
            input,
            output,
        };
        proof {
            assert(res.if_features.deep_view() =~= self.if_features.deep_view());
            assert(res.must.deep_view() =~= self.must.deep_view());
        }
        res
    }
}

/// A `notification` statement.
#[derive(Debug, Default, PartialEq, Eq)]
pub struct Notification {
    pub name: String,
    pub if_features: Vec<String>,
    pub must: Vec<Must>,
    pub status: Option<Status>,
    pub description: Option<String>,
    pub reference: Option<String>,
    pub data_defs: Vec<DataDef>,
}

/// What a [`Notification`] holds, as a mathematical value.
pub ghost struct NotificationView {
    pub name: Seq<char>,
    pub if_features: Seq<Seq<char>>,
    pub must: Seq<MustView>,
    pub status: Option<Status>,
    pub description: Option<Seq<char>>,
    pub reference: Option<Seq<char>>,
    pub data_defs: Seq<DataDefView>,
}

impl View for Notification {
    type V = NotificationView;

    open spec fn view(&self) -> NotificationView
        decreases self, 0nat,
    {
        NotificationView {
            name: self.name@,
            if_features: self.if_features.deep_view(),
            must: self.must.deep_view(),
            status: self.status,
            description: self.description.deep_view(),
            reference: self.reference.deep_view(),
            data_defs: data_defs_view(self.data_defs@),
        }
    }
}

impl DeepView for Notification {
    type V = NotificationView;

    open spec fn deep_view(&self) -> NotificationView {
        self@
    }
}

impl Clone for Notification {
    fn clone(&self) -> (res: Self)
        ensures
            res@ == self@,
        decreases self,
    {
        let res = Notification {
            name: self.name.clone(),
            if_features: self.if_features.clone(),
            must: self.must.clone(),
            status: self.status,
            description: self.description.clone(),
            reference: self.reference.clone(),
            data_defs: clone_data_defs(&self.data_defs),
        };
        proof {
            assert(res.if_features.deep_view() =~= self.if_features.deep_view());
            assert(res.must.deep_view() =~= self.must.deep_view());
        }
        res
    }
}

impl Notification {
    /// A copy of `self` that holds the given members in place of its own.
    pub fn with_members(&self, data_defs: Vec<DataDef>) -> (res: Self)
        ensures
            res@ == (NotificationView {
                data_defs: data_defs_view(data_defs@),
                ..self@
            }),
    {
        let res = Notification {
            name: self.name.clone(),
            if_features: self.if_features.clone(),
            must: self.must.clone(),
            status: self.status,
            description: self.description.clone(),
            reference: self.reference.clone(),
            data_defs,
        };
        proof {
            assert(res.if_features.deep_view() =~= self.if_features.deep_view());
            assert(res.must.deep_view() =~= self.must.deep_view());
        }
        res
    }
}

} // verus!
