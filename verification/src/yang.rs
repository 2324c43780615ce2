//! The model of a parsed YANG file.

pub mod common;
pub mod data;
pub mod module;
pub mod reference;
pub mod types;

pub use crate::yang::common::{MaxElements, Must, MustView, OrderedBy, Status, When, WhenView};
pub use crate::yang::data::{
    actions_view, augments_view, cases_view, clone_actions, clone_augments, clone_cases,
    clone_data_defs, clone_notifications, data_defs_view, notifications_view, Action, ActionView,
    Anydata, AnydataView, Anyxml, AnyxmlView, Augment, AugmentView, Case, CaseView, Choice,
    ChoiceView, Container, ContainerView, DataDef, DataDefView, Input, InputView, Leaf, LeafList,
    LeafListView, LeafView, List, ListView, LongCase, LongCaseView, Notification, NotificationView,
    Output, OutputView, Refine, RefineView, ShortCase, ShortCaseView, Uses, UsesView,
};
pub use crate::yang::module::{
    BelongsTo, BelongsToView, Import, ImportView, Include, IncludeView, MetaInfo, MetaInfoView,
    Module, ModuleView, Revision, RevisionView, Rpc, RpcView, SchemaNode, SchemaNodeView, Submodule,
    SubmoduleView, YangFile, YangFileView,
};
pub use crate::yang::reference::{
    Argument, ArgumentView, DeviateAdd, DeviateAddView, DeviateDelete, DeviateDeleteView,
    DeviateReplace, DeviateReplaceView, Deviation, DeviationView, Extension, ExtensionView, Feature,
    FeatureView, Grouping, GroupingView, Identity, IdentityView, ReferenceNodes, ReferenceNodesView,
};
pub use crate::yang::types::{
    clone_type_infos, type_infos_view, Bit, BitView, EnumValue, EnumValueView, Length, LengthView,
    Pattern, PatternView, Range, RangeView, TypeBody, TypeBodyView, TypeDef, TypeDefView, TypeInfo,
    TypeInfoView,
};
