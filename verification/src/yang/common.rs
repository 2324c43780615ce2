//! Statements and values that the other parts of the model share.

use vstd::prelude::*;

verus! {

/// The `status` of a definition.
#[derive(Debug, Clone, Copy, PartialEq, Eq, Default)]
pub enum Status {
    #[default]
    Current,
    Obsolete,
    Deprecated,
}

/// The `ordered-by` of a list or leaf-list.
#[derive(Debug, Clone, Copy, PartialEq, Eq, Default)]
pub enum OrderedBy {
    User,
    #[default]
    System,
}

/// The `max-elements` of a list or leaf-list: a number, or no bound.
#[derive(Debug, Clone, Copy, PartialEq, Eq, Default)]
pub enum MaxElements {
    #[default]
    Unbounded,
    Value(i64),
}

/// A `must` constraint: an XPath condition, carried verbatim.
#[derive(Debug, Default, PartialEq, Eq)]
pub struct Must {
    pub condition: String,
    pub error_message: Option<String>,
    pub error_app_tag: Option<String>,
    pub description: Option<String>,
    pub reference: Option<String>,
}

/// What a [`Must`] holds, as a mathematical value.
pub ghost struct MustView {
    pub condition: Seq<char>,
    pub error_message: Option<Seq<char>>,
    pub error_app_tag: Option<Seq<char>>,
    pub description: Option<Seq<char>>,
    pub reference: Option<Seq<char>>,
}

impl View for Must {
    type V = MustView;

    open spec fn view(&self) -> MustView {
        MustView {
            condition: self.condition@,
            error_message: self.error_message.deep_view(),
            error_app_tag: self.error_app_tag.deep_view(),
            description: self.description.deep_view(),
            reference: self.reference.deep_view(),
        }
    }
}

impl DeepView for Must {
    type V = MustView;

    open spec fn deep_view(&self) -> MustView {
        self@
    }
}

impl Clone for Must {
    fn clone(&self) -> (res: Self)
        ensures
            res@ == self@,
    {
        let res = Must {
            condition: self.condition.clone(),
            error_message: self.error_message.clone(),
            error_app_tag: self.error_app_tag.clone(),
            description: self.description.clone(),
            reference: self.reference.clone(),
        };
        res
    }
}

/// A `when` condition, carried verbatim.
#[derive(Debug, Default, PartialEq, Eq)]
pub struct When {
    pub condition: String,
    pub description: Option<String>,
    pub reference: Option<String>,
}

/// What a [`When`] holds, as a mathematical value.
pub ghost struct WhenView {
    pub condition: Seq<char>,
    pub description: Option<Seq<char>>,
    pub reference: Option<Seq<char>>,
}

impl View for When {
    type V = WhenView;

    open spec fn view(&self) -> WhenView {
        WhenView {
            condition: self.condition@,
            description: self.description.deep_view(),
            reference: self.reference.deep_view(),
        }
    }
}

impl DeepView for When {
    type V = WhenView;

    open spec fn deep_view(&self) -> WhenView {
        self@
    }
}

impl Clone for When {
    fn clone(&self) -> (res: Self)
        ensures
            res@ == self@,
    {
        let res = When {
            condition: self.condition.clone(),
            description: self.description.clone(),
            reference: self.reference.clone(),
        };
        res
    }
}

} // verus!
