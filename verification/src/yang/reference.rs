//! Reference targets: the nodes that are referred to and kept in side tables.

use crate::yang::common::{MaxElements, Must, MustView, Status};
use crate::yang::data::{
    actions_view, augments_view, clone_actions, clone_data_defs, clone_notifications,
    data_defs_view, notifications_view, Action, ActionView, Augment, AugmentView, DataDef,
    DataDefView, Notification, NotificationView,
};
use crate::yang::types::{TypeDef, TypeDefView, TypeInfo, TypeInfoView};
use vstd::hash_map::StringHashMap;
use vstd::prelude::*;

verus! {

/// A `grouping` statement: a named bundle of data definitions.
#[derive(Debug, Default, PartialEq, Eq)]
pub struct Grouping {
    pub name: String,
    pub status: Option<Status>,
    pub description: Option<String>,
    pub reference: Option<String>,
    pub data_defs: Vec<DataDef>,
    pub actions: Vec<Action>,
    pub notifications: Vec<Notification>,
}

/// What a [`Grouping`] holds, as a mathematical value.
pub ghost struct GroupingView {
    pub name: Seq<char>,
    pub status: Option<Status>,
    pub description: Option<Seq<char>>,
    pub reference: Option<Seq<char>>,
    pub data_defs: Seq<DataDefView>,
    pub actions: Seq<ActionView>,
    pub notifications: Seq<NotificationView>,
}

impl View for Grouping {
    type V = GroupingView;

    open spec fn view(&self) -> GroupingView {
        GroupingView {
            name: self.name@,
            status: self.status,
            description: self.description.deep_view(),
            reference: self.reference.deep_view(),
            data_defs: data_defs_view(self.data_defs@),
            actions: actions_view(self.actions@),
            notifications: notifications_view(self.notifications@),
        }
    }
}

impl DeepView for Grouping {
    type V = GroupingView;

    open spec fn deep_view(&self) -> GroupingView {
        self@
    }
}

impl Clone for Grouping {
    fn clone(&self) -> (res: Self)
        ensures
            res@ == self@,
    {
        let res = Grouping {
            name: self.name.clone(),
            status: self.status,
            description: self.description.clone(),
            reference: self.reference.clone(),
            data_defs: clone_data_defs(&self.data_defs),
            actions: clone_actions(&self.actions),
            notifications: clone_notifications(&self.notifications),
        };
        res
    }
}

/// The `argument` of an extension.
#[derive(Debug, Default, PartialEq, Eq)]
pub struct Argument {
    pub name: String,
    pub yin_element: Option<bool>,
}

/// What a [`Argument`] holds, as a mathematical value.
pub ghost struct ArgumentView {
    pub name: Seq<char>,
    pub yin_element: Option<bool>,
}

impl View for Argument {
    type V = ArgumentView;

    open spec fn view(&self) -> ArgumentView {
        ArgumentView {
            name: self.name@,
            yin_element: self.yin_element,
        }
    }
}

impl DeepView for Argument {
    type V = ArgumentView;

    open spec fn deep_view(&self) -> ArgumentView {
        self@
    }
}

impl Clone for Argument {
    fn clone(&self) -> (res: Self)
        ensures
            res@ == self@,
    {
        let res = Argument {
            name: self.name.clone(),
            yin_element: self.yin_element,
        };
        res
    }
}

/// An `extension` statement.
#[derive(Debug, Default, PartialEq, Eq)]
pub struct Extension {
    pub name: String,
    pub argument: Option<Argument>,
    pub status: Option<Status>,
    pub description: Option<String>,
    pub reference: Option<String>,
}

/// What a [`Extension`] holds, as a mathematical value.
pub ghost struct ExtensionView {
    pub name: Seq<char>,
    pub argument: Option<ArgumentView>,
    pub status: Option<Status>,
    pub description: Option<Seq<char>>,
    pub reference: Option<Seq<char>>,
}

impl View for Extension {
    type V = ExtensionView;

    open spec fn view(&self) -> ExtensionView {
        ExtensionView {
            name: self.name@,
            argument: self.argument.deep_view(),
            status: self.status,
            description: self.description.deep_view(),
            reference: self.reference.deep_view(),
        }
    }
}

impl DeepView for Extension {
    type V = ExtensionView;

    open spec fn deep_view(&self) -> ExtensionView {
        self@
    }
}

impl Clone for Extension {
    fn clone(&self) -> (res: Self)
        ensures
            res@ == self@,
    {
        let res = Extension {
            name: self.name.clone(),
            argument: self.argument.clone(),
            status: self.status,
            description: self.description.clone(),
            reference: self.reference.clone(),
        };
        res
    }
}

/// A `feature` statement.
#[derive(Debug, Default, PartialEq, Eq)]
pub struct Feature {
    pub name: String,
    pub if_features: Vec<String>,
    pub status: Option<Status>,
    pub description: Option<String>,
    pub reference: Option<String>,
}

/// What a [`Feature`] holds, as a mathematical value.
pub ghost struct FeatureView {
    pub name: Seq<char>,
    pub if_features: Seq<Seq<char>>,
    pub status: Option<Status>,
    pub description: Option<Seq<char>>,
    pub reference: Option<Seq<char>>,
}

impl View for Feature {
    type V = FeatureView;

    open spec fn view(&self) -> FeatureView {
        FeatureView {
            name: self.name@,
            if_features: self.if_features.deep_view(),
            status: self.status,
            description: self.description.deep_view(),
            reference: self.reference.deep_view(),
        }
    }
}

impl DeepView for Feature {
    type V = FeatureView;

    open spec fn deep_view(&self) -> FeatureView {
        self@
    }
}

impl Clone for Feature {
    fn clone(&self) -> (res: Self)
        ensures
            res@ == self@,
    {
        let res = Feature {
            name: self.name.clone(),
            if_features: self.if_features.clone(),
            status: self.status,
            description: self.description.clone(),
            reference: self.reference.clone(),
        };
        proof {
            assert(res.if_features.deep_view() =~= self.if_features.deep_view());
        }
        res
    }
}

/// An `identity` statement.
#[derive(Debug, Default, PartialEq, Eq)]
pub struct Identity {
    pub name: String,
    pub if_features: Vec<String>,
    pub bases: Vec<String>,
    pub status: Option<Status>,
    pub description: Option<String>,
    pub reference: Option<String>,
}

/// What a [`Identity`] holds, as a mathematical value.
pub ghost struct IdentityView {
    pub name: Seq<char>,
    pub if_features: Seq<Seq<char>>,
    pub bases: Seq<Seq<char>>,
    pub status: Option<Status>,
    pub description: Option<Seq<char>>,
    pub reference: Option<Seq<char>>,
}

impl View for Identity {
    type V = IdentityView;

    open spec fn view(&self) -> IdentityView {
        IdentityView {
            name: self.name@,
            if_features: self.if_features.deep_view(),
            bases: self.bases.deep_view(),
            status: self.status,
            description: self.description.deep_view(),
            reference: self.reference.deep_view(),
        }
    }
}

impl DeepView for Identity {
    type V = IdentityView;

    open spec fn deep_view(&self) -> IdentityView {
        self@
    }
}

impl Clone for Identity {
    fn clone(&self) -> (res: Self)
        ensures
            res@ == self@,
    {
        let res = Identity {
            name: self.name.clone(),
            if_features: self.if_features.clone(),
            bases: self.bases.clone(),
            status: self.status,
            description: self.description.clone(),
            reference: self.reference.clone(),
        };
        proof {
            assert(res.if_features.deep_view() =~= self.if_features.deep_view());
            assert(res.bases.deep_view() =~= self.bases.deep_view());
        }
        res
    }
}

/// A `deviate add` statement.
#[derive(Debug, Default, PartialEq, Eq)]
pub struct DeviateAdd {
    pub units: Option<String>,
    pub must: Vec<Must>,
    pub unique: Vec<String>,
    pub default: Vec<String>,
    pub config: Option<bool>,
    pub mandatory: Option<bool>,
    pub min_elements: Option<i64>,
    pub max_elements: Option<MaxElements>,
}

/// What a [`DeviateAdd`] holds, as a mathematical value.
pub ghost struct DeviateAddView {
    pub units: Option<Seq<char>>,
    pub must: Seq<MustView>,
    pub unique: Seq<Seq<char>>,
    pub default: Seq<Seq<char>>,
    pub config: Option<bool>,
    pub mandatory: Option<bool>,
    pub min_elements: Option<i64>,
    pub max_elements: Option<MaxElements>,
}

impl View for DeviateAdd {
    type V = DeviateAddView;

    open spec fn view(&self) -> DeviateAddView {
        DeviateAddView {
            units: self.units.deep_view(),
            must: self.must.deep_view(),
            unique: self.unique.deep_view(),
            default: self.default.deep_view(),
            config: self.config,
            mandatory: self.mandatory,
            min_elements: self.min_elements,
            max_elements: self.max_elements,
        }
    }
}

impl DeepView for DeviateAdd {
    type V = DeviateAddView;

    open spec fn deep_view(&self) -> DeviateAddView {
        self@
    }
}

impl Clone for DeviateAdd {
    fn clone(&self) -> (res: Self)
        ensures
            res@ == self@,
    {
        let res = DeviateAdd {
            units: self.units.clone(),
            must: self.must.clone(),
            unique: self.unique.clone(),
            default: self.default.clone(),
            config: self.config,
            mandatory: self.mandatory,
            min_elements: self.min_elements,
            max_elements: self.max_elements,
        };
        proof {
            assert(res.must.deep_view() =~= self.must.deep_view());
            assert(res.unique.deep_view() =~= self.unique.deep_view());
            assert(res.default.deep_view() =~= self.default.deep_view());
        }
        res
    }
}

/// A `deviate delete` statement.
#[derive(Debug, Default, PartialEq, Eq)]
pub struct DeviateDelete {
    pub units: Option<String>,
    pub must: Vec<Must>,
    pub unique: Vec<String>,
    pub default: Vec<String>,
}

/// What a [`DeviateDelete`] holds, as a mathematical value.
pub ghost struct DeviateDeleteView {
    pub units: Option<Seq<char>>,
    pub must: Seq<MustView>,
    pub unique: Seq<Seq<char>>,
    pub default: Seq<Seq<char>>,
}

impl View for DeviateDelete {
    type V = DeviateDeleteView;

    open spec fn view(&self) -> DeviateDeleteView {
        DeviateDeleteView {
            units: self.units.deep_view(),
            must: self.must.deep_view(),
            unique: self.unique.deep_view(),
            default: self.default.deep_view(),
        }
    }
}

impl DeepView for DeviateDelete {
    type V = DeviateDeleteView;

    open spec fn deep_view(&self) -> DeviateDeleteView {
        self@
    }
}

impl Clone for DeviateDelete {
    fn clone(&self) -> (res: Self)
        ensures
            res@ == self@,
    {
        let res = DeviateDelete {
            units: self.units.clone(),
            must: self.must.clone(),
            unique: self.unique.clone(),
            default: self.default.clone(),
        };
        proof {
            assert(res.must.deep_view() =~= self.must.deep_view());
            assert(res.unique.deep_view() =~= self.unique.deep_view());
            assert(res.default.deep_view() =~= self.default.deep_view());
        }
        res
    }
}

/// A `deviate replace` statement.
#[derive(Debug, Default, PartialEq, Eq)]
pub struct DeviateReplace {
    pub type_info: Option<TypeInfo>,
    pub units: Option<String>,
    pub default: Vec<String>,
    pub config: Option<bool>,
    pub mandatory: Option<bool>,
    pub min_elements: Option<i64>,
    pub max_elements: Option<MaxElements>,
}

/// What a [`DeviateReplace`] holds, as a mathematical value.
pub ghost struct DeviateReplaceView {
    pub type_info: Option<TypeInfoView>,
    pub units: Option<Seq<char>>,
    pub default: Seq<Seq<char>>,
    pub config: Option<bool>,
    pub mandatory: Option<bool>,
    pub min_elements: Option<i64>,
    pub max_elements: Option<MaxElements>,
}

impl View for DeviateReplace {
    type V = DeviateReplaceView;

    open spec fn view(&self) -> DeviateReplaceView {
        DeviateReplaceView {
            type_info: self.type_info.deep_view(),
            units: self.units.deep_view(),
            default: self.default.deep_view(),
            config: self.config,
            mandatory: self.mandatory,
            min_elements: self.min_elements,
            max_elements: self.max_elements,
        }
    }
}

impl DeepView for DeviateReplace {
    type V = DeviateReplaceView;

    open spec fn deep_view(&self) -> DeviateReplaceView {
        self@
    }
}

impl Clone for DeviateReplace {
    fn clone(&self) -> (res: Self)
        ensures
            res@ == self@,
    {
        let res = DeviateReplace {
            type_info: self.type_info.clone(),
            units: self.units.clone(),
            default: self.default.clone(),
            config: self.config,
            mandatory: self.mandatory,
            min_elements: self.min_elements,
            max_elements: self.max_elements,
        };
        proof {
            assert(res.default.deep_view() =~= self.default.deep_view());
        }
        res
    }
}

/// A `deviation` statement; it is collected, never applied.
#[derive(Debug, Default, PartialEq, Eq)]
pub struct Deviation {
    pub target: String,
    pub description: Option<String>,
    pub reference: Option<String>,
    pub not_supported: bool,
    pub add: Vec<DeviateAdd>,
    pub delete: Vec<DeviateDelete>,
    pub replace: Vec<DeviateReplace>,
}

/// What a [`Deviation`] holds, as a mathematical value.
pub ghost struct DeviationView {
    pub target: Seq<char>,
    pub description: Option<Seq<char>>,
    pub reference: Option<Seq<char>>,
    pub not_supported: bool,
    pub add: Seq<DeviateAddView>,
    pub delete: Seq<DeviateDeleteView>,
    pub replace: Seq<DeviateReplaceView>,
}

impl View for Deviation {
    type V = DeviationView;

    open spec fn view(&self) -> DeviationView {
        DeviationView {
            target: self.target@,
            description: self.description.deep_view(),
            reference: self.reference.deep_view(),
            not_supported: self.not_supported,
            add: self.add.deep_view(),
            delete: self.delete.deep_view(),
            replace: self.replace.deep_view(),
        }
    }
}

impl DeepView for Deviation {
    type V = DeviationView;

    open spec fn deep_view(&self) -> DeviationView {
        self@
    }
}

impl Clone for Deviation {
    fn clone(&self) -> (res: Self)
        ensures
            res@ == self@,
    {
        let res = Deviation {
            target: self.target.clone(),
            description: self.description.clone(),
            reference: self.reference.clone(),
            not_supported: self.not_supported,
            add: self.add.clone(),
            delete: self.delete.clone(),
            replace: self.replace.clone(),
        };
        proof {
            assert(res.add.deep_view() =~= self.add.deep_view());
            assert(res.delete.deep_view() =~= self.delete.deep_view());
            assert(res.replace.deep_view() =~= self.replace.deep_view());
        }
        res
    }
}

/// The reference targets of one module: what its statements refer to, and what
/// sits outside the data tree. The keyed tables are indexed by absolute path,
/// `/<scope>/.../<name>`; the other three keep the order of the source.
pub struct ReferenceNodes {
    pub augments: Vec<Augment>,
    pub deviations: Vec<Deviation>,
    pub extensions: Vec<Extension>,
    pub features: StringHashMap<Feature>,
    pub groupings: StringHashMap<Grouping>,
    pub identities: StringHashMap<Identity>,
    pub type_defs: StringHashMap<TypeDef>,
}

/// What a [`ReferenceNodes`] holds, as a mathematical value.
pub ghost struct ReferenceNodesView {
    pub augments: Seq<AugmentView>,
    pub deviations: Seq<DeviationView>,
    pub extensions: Seq<ExtensionView>,
    pub features: Map<Seq<char>, FeatureView>,
    pub groupings: Map<Seq<char>, GroupingView>,
    pub identities: Map<Seq<char>, IdentityView>,
    pub type_defs: Map<Seq<char>, TypeDefView>,
}

impl ReferenceNodesView {
    /// The tables with nothing in them.
    pub open spec fn empty() -> ReferenceNodesView {
        ReferenceNodesView {
            augments: Seq::empty(),
            deviations: Seq::empty(),
            extensions: Seq::empty(),
            features: Map::empty(),
            groupings: Map::empty(),
            identities: Map::empty(),
            type_defs: Map::empty(),
        }
    }

    /// The tables with the grouping `g` filed under `key`.
    pub open spec fn with_grouping(self, key: Seq<char>, g: GroupingView) -> ReferenceNodesView {
        ReferenceNodesView { groupings: self.groupings.insert(key, g), ..self }
    }

    /// The tables with the typedef `t` filed under `key`.
    pub open spec fn with_type_def(self, key: Seq<char>, t: TypeDefView) -> ReferenceNodesView {
        ReferenceNodesView { type_defs: self.type_defs.insert(key, t), ..self }
    }

    /// The tables with the feature `f` filed under `key`.
    pub open spec fn with_feature(self, key: Seq<char>, f: FeatureView) -> ReferenceNodesView {
        ReferenceNodesView { features: self.features.insert(key, f), ..self }
    }

    /// The tables with the identity `i` filed under `key`.
    pub open spec fn with_identity(self, key: Seq<char>, i: IdentityView) -> ReferenceNodesView {
        ReferenceNodesView { identities: self.identities.insert(key, i), ..self }
    }

    /// The tables with the augment `a` added at the end.
    pub open spec fn with_augment(self, a: AugmentView) -> ReferenceNodesView {
        ReferenceNodesView { augments: self.augments.push(a), ..self }
    }

    /// The tables with the deviation `d` added at the end.
    pub open spec fn with_deviation(self, d: DeviationView) -> ReferenceNodesView {
        ReferenceNodesView { deviations: self.deviations.push(d), ..self }
    }

    /// The tables with the extension `e` added at the end.
    pub open spec fn with_extension(self, e: ExtensionView) -> ReferenceNodesView {
        ReferenceNodesView { extensions: self.extensions.push(e), ..self }
    }
}

impl View for ReferenceNodes {
    type V = ReferenceNodesView;

    open spec fn view(&self) -> ReferenceNodesView {
        ReferenceNodesView {
            augments: augments_view(self.augments@),
            deviations: self.deviations.deep_view(),
            extensions: self.extensions.deep_view(),
            features: self.features@.map_values(|x: Feature| x@),
            groupings: self.groupings@.map_values(|x: Grouping| x@),
            identities: self.identities@.map_values(|x: Identity| x@),
            type_defs: self.type_defs@.map_values(|x: TypeDef| x@),
        }
    }
}

impl ReferenceNodes {
    /// Empty tables.
    pub fn new() -> (res: Self)
        ensures
            res@ == ReferenceNodesView::empty(),
    {
        let res = ReferenceNodes {
            augments: Vec::new(),
            deviations: Vec::new(),
            extensions: Vec::new(),
            features: StringHashMap::new(),
            groupings: StringHashMap::new(),
            identities: StringHashMap::new(),
            type_defs: StringHashMap::new(),
        };
        proof {
            assert(res@.augments =~= Seq::empty());
            assert(res@.deviations =~= Seq::empty());
            assert(res@.extensions =~= Seq::empty());
            assert(res@.features =~= Map::empty());
            assert(res@.groupings =~= Map::empty());
            assert(res@.identities =~= Map::empty());
            assert(res@.type_defs =~= Map::empty());
        }
        res
    }
}

impl ReferenceNodes {
    /// Files the grouping `g` under `key`; a grouping filed there before gives way.
    pub fn add_grouping(&mut self, key: String, g: Grouping)
        ensures
            final(self)@ == old(self)@.with_grouping(key@, g@),
    {
        self.groupings.insert(key, g);
        assert(self@.groupings =~= old(self)@.groupings.insert(key@, g@));
    }

    /// Files the typedef `t` under `key`; a typedef filed there before gives way.
    pub fn add_type_def(&mut self, key: String, t: TypeDef)
        ensures
            final(self)@ == old(self)@.with_type_def(key@, t@),
    {
        self.type_defs.insert(key, t);
        assert(self@.type_defs =~= old(self)@.type_defs.insert(key@, t@));
    }

    /// Files the feature `f` under `key`; a feature filed there before gives way.
    pub fn add_feature(&mut self, key: String, f: Feature)
        ensures
            final(self)@ == old(self)@.with_feature(key@, f@),
    {
        self.features.insert(key, f);
        assert(self@.features =~= old(self)@.features.insert(key@, f@));
    }

    /// Files the identity `i` under `key`; an identity filed there before gives way.
    pub fn add_identity(&mut self, key: String, i: Identity)
        ensures
            final(self)@ == old(self)@.with_identity(key@, i@),
    {
        self.identities.insert(key, i);
        assert(self@.identities =~= old(self)@.identities.insert(key@, i@));
    }

    /// Adds the augment `a` at the end of the augments.
    pub fn add_augment(&mut self, a: Augment)
        ensures
            final(self)@ == old(self)@.with_augment(a@),
    {
        self.augments.push(a);
        assert(self@.augments =~= old(self)@.augments.push(a@));
    }

    /// Adds the deviation `d` at the end of the deviations.
    pub fn add_deviation(&mut self, d: Deviation)
        ensures
            final(self)@ == old(self)@.with_deviation(d@),
    {
        self.deviations.push(d);
        assert(self@.deviations =~= old(self)@.deviations.push(d@));
    }

    /// Adds the extension `e` at the end of the extensions.
    pub fn add_extension(&mut self, e: Extension)
        ensures
            final(self)@ == old(self)@.with_extension(e@),
    {
        self.extensions.push(e);
        assert(self@.extensions =~= old(self)@.extensions.push(e@));
    }
}

} // verus!
