//! Modules, submodules and their headers.

use crate::yang::common::{Must, MustView, Status};
use crate::yang::data::{
    DataDef, DataDefView, Input, InputView, Notification, NotificationView, Output, OutputView,
};
use vstd::prelude::*;

verus! {

/// The `belongs-to` statement of a submodule.
#[derive(Debug, Default, PartialEq, Eq)]
pub struct BelongsTo {
    pub module: String,
    pub prefix: String,
}

/// What a [`BelongsTo`] holds, as a mathematical value.
pub ghost struct BelongsToView {
    pub module: Seq<char>,
    pub prefix: Seq<char>,
}

impl View for BelongsTo {
    type V = BelongsToView;

    open spec fn view(&self) -> BelongsToView {
        BelongsToView {
            module: self.module@,
            prefix: self.prefix@,
        }
    }
}

impl DeepView for BelongsTo {
    type V = BelongsToView;

    open spec fn deep_view(&self) -> BelongsToView {
        self@
    }
}

impl Clone for BelongsTo {
    fn clone(&self) -> (res: Self)
        ensures
            res@ == self@,
    {
        let res = BelongsTo {
            module: self.module.clone(),
            prefix: self.prefix.clone(),
        };
        res
    }
}

/// An `import` statement.
#[derive(Debug, Default, PartialEq, Eq)]
pub struct Import {
    pub module: String,
    pub prefix: String,
    pub revision_date: Option<String>,
    pub description: Option<String>,
    pub reference: Option<String>,
}

/// What a [`Import`] holds, as a mathematical value.
pub ghost struct ImportView {
    pub module: Seq<char>,
    pub prefix: Seq<char>,
    pub revision_date: Option<Seq<char>>,
    pub description: Option<Seq<char>>,
    pub reference: Option<Seq<char>>,
}

impl View for Import {
    type V = ImportView;

    open spec fn view(&self) -> ImportView {
        ImportView {
            module: self.module@,
            prefix: self.prefix@,
            revision_date: self.revision_date.deep_view(),
            description: self.description.deep_view(),
            reference: self.reference.deep_view(),
        }
    }
}

impl DeepView for Import {
    type V = ImportView;

    open spec fn deep_view(&self) -> ImportView {
        self@
    }
}

impl Clone for Import {
    fn clone(&self) -> (res: Self)
        ensures
            res@ == self@,
    {
        let res = Import {
            module: self.module.clone(),
            prefix: self.prefix.clone(),
            revision_date: self.revision_date.clone(),
            description: self.description.clone(),
            reference: self.reference.clone(),
        };
        res
    }
}

/// An `include` statement.
#[derive(Debug, Default, PartialEq, Eq)]
pub struct Include {
    pub module: String,
    pub revision_date: Option<String>,
    pub description: Option<String>,
    pub reference: Option<String>,
}

/// What a [`Include`] holds, as a mathematical value.
pub ghost struct IncludeView {
    pub module: Seq<char>,
    pub revision_date: Option<Seq<char>>,
    pub description: Option<Seq<char>>,
    pub reference: Option<Seq<char>>,
}

impl View for Include {
    type V = IncludeView;

    open spec fn view(&self) -> IncludeView {
        IncludeView {
            module: self.module@,
            revision_date: self.revision_date.deep_view(),
            description: self.description.deep_view(),
            reference: self.reference.deep_view(),
        }
    }
}

impl DeepView for Include {
    type V = IncludeView;

    open spec fn deep_view(&self) -> IncludeView {
        self@
    }
}

impl Clone for Include {
    fn clone(&self) -> (res: Self)
        ensures
            res@ == self@,
    {
        let res = Include {
            module: self.module.clone(),
            revision_date: self.revision_date.clone(),
            description: self.description.clone(),
            reference: self.reference.clone(),
        };
        res
    }
}

/// The meta statements of a module.
#[derive(Debug, Default, PartialEq, Eq)]
pub struct MetaInfo {
    pub organization: Option<String>,
    pub contact: Option<String>,
    pub description: Option<String>,
    pub reference: Option<String>,
}

/// What a [`MetaInfo`] holds, as a mathematical value.
pub ghost struct MetaInfoView {
    pub organization: Option<Seq<char>>,
    pub contact: Option<Seq<char>>,
    pub description: Option<Seq<char>>,
    pub reference: Option<Seq<char>>,
}

impl View for MetaInfo {
    type V = MetaInfoView;

    open spec fn view(&self) -> MetaInfoView {
        MetaInfoView {
            organization: self.organization.deep_view(),
            contact: self.contact.deep_view(),
            description: self.description.deep_view(),
            reference: self.reference.deep_view(),
        }
    }
}

impl DeepView for MetaInfo {
    type V = MetaInfoView;

    open spec fn deep_view(&self) -> MetaInfoView {
        self@
    }
}

impl Clone for MetaInfo {
    fn clone(&self) -> (res: Self)
        ensures
            res@ == self@,
    {
        let res = MetaInfo {
            organization: self.organization.clone(),
            contact: self.contact.clone(),
            description: self.description.clone(),
            reference: self.reference.clone(),
        };
        res
    }
}

/// A `revision` statement.
#[derive(Debug, Default, PartialEq, Eq)]
pub struct Revision {
    pub date: String,
    pub description: Option<String>,
    pub reference: Option<String>,
}

/// What a [`Revision`] holds, as a mathematical value.
pub ghost struct RevisionView {
    pub date: Seq<char>,
    pub description: Option<Seq<char>>,
    pub reference: Option<Seq<char>>,
}

impl View for Revision {
    type V = RevisionView;

    open spec fn view(&self) -> RevisionView {
        RevisionView {
            date: self.date@,
            description: self.description.deep_view(),
            reference: self.reference.deep_view(),
        }
    }
}

impl DeepView for Revision {
    type V = RevisionView;

    open spec fn deep_view(&self) -> RevisionView {
        self@
    }
}

impl Clone for Revision {
    fn clone(&self) -> (res: Self)
        ensures
            res@ == self@,
    {
        let res = Revision {
            date: self.date.clone(),
            description: self.description.clone(),
            reference: self.reference.clone(),
        };
        res
    }
}

/// An `rpc` statement.
#[derive(Debug, Default, PartialEq, Eq)]
pub struct Rpc {
    pub name: String,
    pub if_features: Vec<String>,
    pub must: Vec<Must>,
    pub status: Option<Status>,
    pub description: Option<String>,
    pub reference: Option<String>,
    pub input: Option<Input>,
    pub output: Option<Output>,
}

/// What a [`Rpc`] holds, as a mathematical value.
pub ghost struct RpcView {
    pub name: Seq<char>,
    pub if_features: Seq<Seq<char>>,
    pub must: Seq<MustView>,
    pub status: Option<Status>,
    pub description: Option<Seq<char>>,
    pub reference: Option<Seq<char>>,
    pub input: Option<InputView>,
    pub output: Option<OutputView>,
}

impl View for Rpc {
    type V = RpcView;

    open spec fn view(&self) -> RpcView {
        RpcView {
            name: self.name@,
            if_features: self.if_features.deep_view(),
            must: self.must.deep_view(),
            status: self.status,
            description: self.description.deep_view(),
            reference: self.reference.deep_view(),
            input: self.input.deep_view(),
            output: self.output.deep_view(),
        }
    }
}

impl DeepView for Rpc {
    type V = RpcView;

    open spec fn deep_view(&self) -> RpcView {
        self@
    }
}

impl Clone for Rpc {
    fn clone(&self) -> (res: Self)
        ensures
            res@ == self@,
    {
        let res = Rpc {
            name: self.name.clone(),
            if_features: self.if_features.clone(),
            must: self.must.clone(),
            status: self.status,
            description: self.description.clone(),
            reference: self.reference.clone(),
            input: self.input.clone(),
            output: self.output.clone(),
        };
        proof {
            assert(res.if_features.deep_view() =~= self.if_features.deep_view());
            assert(res.must.deep_view() =~= self.must.deep_view());
        }
        res
    }
}

impl Rpc {
    /// A copy of `self` that holds the given members in place of its own.
    pub fn with_members(&self, input: Option<Input>, output: Option<Output>) -> (res: Self)
        ensures
            res@ == (RpcView {
                input: input.deep_view(),
                output: output.deep_view(),
                ..self@
            }),
    {
        let res = Rpc {
            name: self.name.clone(),
            if_features: self.if_features.clone(),
            must: self.must.clone(),
            status: self.status,
            description: self.description.clone(),
            reference: self.reference.clone(),
            input,
            output,
        };
        proof {
            assert(res.if_features.deep_view() =~= self.if_features.deep_view());
            assert(res.must.deep_view() =~= self.must.deep_view());
        }
        res
    }
}

/// A node of a module body.
#[derive(Debug, PartialEq, Eq)]
pub enum SchemaNode {
    Rpc(Rpc),
    Notification(Notification),
    DataDef(DataDef),
}

/// What a [`SchemaNode`] holds, as a mathematical value.
pub ghost enum SchemaNodeView {
    Rpc(RpcView),
    Notification(NotificationView),
    DataDef(DataDefView),
}

impl View for SchemaNode {
    type V = SchemaNodeView;

    open spec fn view(&self) -> SchemaNodeView {
        match self {
            SchemaNode::Rpc(x) => SchemaNodeView::Rpc(x@),
            SchemaNode::Notification(x) => SchemaNodeView::Notification(x@),
            SchemaNode::DataDef(x) => SchemaNodeView::DataDef(x@),
        }
    }
}

impl DeepView for SchemaNode {
    type V = SchemaNodeView;

    open spec fn deep_view(&self) -> SchemaNodeView {
        self@
    }
}

impl Clone for SchemaNode {
    fn clone(&self) -> (res: Self)
        ensures
            res@ == self@,
    {
        match self {
            SchemaNode::Rpc(x) => SchemaNode::Rpc(x.clone()),
            SchemaNode::Notification(x) => SchemaNode::Notification(x.clone()),
            SchemaNode::DataDef(x) => SchemaNode::DataDef(x.clone()),
        }
    }
}

/// A YANG module.
#[derive(Debug, Default, PartialEq, Eq)]
pub struct Module {
    pub name: String,
    pub yang_version: Option<String>,
    pub namespace: String,
    pub prefix: String,
    pub meta: MetaInfo,
    pub revisions: Vec<Revision>,
    pub body: Vec<SchemaNode>,
}

/// What a [`Module`] holds, as a mathematical value.
pub ghost struct ModuleView {
    pub name: Seq<char>,
    pub yang_version: Option<Seq<char>>,
    pub namespace: Seq<char>,
    pub prefix: Seq<char>,
    pub meta: MetaInfoView,
    pub revisions: Seq<RevisionView>,
    pub body: Seq<SchemaNodeView>,
}

impl View for Module {
    type V = ModuleView;

    open spec fn view(&self) -> ModuleView {
        ModuleView {
            name: self.name@,
            yang_version: self.yang_version.deep_view(),
            namespace: self.namespace@,
            prefix: self.prefix@,
            meta: self.meta@,
            revisions: self.revisions.deep_view(),
            body: self.body.deep_view(),
        }
    }
}

impl DeepView for Module {
    type V = ModuleView;

    open spec fn deep_view(&self) -> ModuleView {
        self@
    }
}

impl Clone for Module {
    fn clone(&self) -> (res: Self)
        ensures
            res@ == self@,
    {
        let res = Module {
            name: self.name.clone(),
            yang_version: self.yang_version.clone(),
            namespace: self.namespace.clone(),
            prefix: self.prefix.clone(),
            meta: self.meta.clone(),
            revisions: self.revisions.clone(),
            body: self.body.clone(),
        };
        proof {
            assert(res.revisions.deep_view() =~= self.revisions.deep_view());
            assert(res.body.deep_view() =~= self.body.deep_view());
        }
        res
    }
}

/// A YANG submodule.
#[derive(Debug, Default, PartialEq, Eq)]
pub struct Submodule {
    pub name: String,
    pub yang_version: Option<String>,
    pub belongs_to: BelongsTo,
    pub meta: MetaInfo,
    pub revisions: Vec<Revision>,
    pub body: Vec<SchemaNode>,
}

/// What a [`Submodule`] holds, as a mathematical value.
pub ghost struct SubmoduleView {
    pub name: Seq<char>,
    pub yang_version: Option<Seq<char>>,
    pub belongs_to: BelongsToView,
    pub meta: MetaInfoView,
    pub revisions: Seq<RevisionView>,
    pub body: Seq<SchemaNodeView>,
}

impl View for Submodule {
    type V = SubmoduleView;

    open spec fn view(&self) -> SubmoduleView {
        SubmoduleView {
            name: self.name@,
            yang_version: self.yang_version.deep_view(),
            belongs_to: self.belongs_to@,
            meta: self.meta@,
            revisions: self.revisions.deep_view(),
            body: self.body.deep_view(),
        }
    }
}

impl DeepView for Submodule {
    type V = SubmoduleView;

    open spec fn deep_view(&self) -> SubmoduleView {
        self@
    }
}

impl Clone for Submodule {
    fn clone(&self) -> (res: Self)
        ensures
            res@ == self@,
    {
        let res = Submodule {
            name: self.name.clone(),
            yang_version: self.yang_version.clone(),
            belongs_to: self.belongs_to.clone(),
            meta: self.meta.clone(),
            revisions: self.revisions.clone(),
            body: self.body.clone(),
        };
        proof {
            assert(res.revisions.deep_view() =~= self.revisions.deep_view());
            assert(res.body.deep_view() =~= self.body.deep_view());
        }
        res
    }
}

/// A parsed YANG file.
#[derive(Debug, PartialEq, Eq)]
pub enum YangFile {
    Module(Module),
    Submodule(Submodule),
}

/// What a [`YangFile`] holds, as a mathematical value.
pub ghost enum YangFileView {
    Module(ModuleView),
    Submodule(SubmoduleView),
}

impl View for YangFile {
    type V = YangFileView;

    open spec fn view(&self) -> YangFileView {
        match self {
            YangFile::Module(x) => YangFileView::Module(x@),
            YangFile::Submodule(x) => YangFileView::Submodule(x@),
        }
    }
}

impl DeepView for YangFile {
    type V = YangFileView;

    open spec fn deep_view(&self) -> YangFileView {
        self@
    }
}

impl Clone for YangFile {
    fn clone(&self) -> (res: Self)
        ensures
            res@ == self@,
    {
        match self {
            YangFile::Module(x) => YangFile::Module(x.clone()),
            YangFile::Submodule(x) => YangFile::Submodule(x.clone()),
        }
    }
}

} // verus!
