//! Syntax trees: what the grammar engine hands over for one YANG file, and
//! what a tree must look like for the walker to read it.

use crate::grammar::{
    allowed_child, carries_boolean, carries_integer, carries_string, is_allowed_child,
    is_boolean_carrier, is_integer_carrier, is_named, is_named_statement, is_string_carrier,
    is_string_piece, is_string_piece_node, is_wrapper, is_wrapper_node, Rule,
};
use crate::text::{boolean_value, i64_value, is_quoted, parse_bool, parse_i64, str_equal};
use crate::values::{lemma_children, parse_string, string_value};
use crate::path::chars_of;
use crate::yang::{OrderedBy, Status};
use vstd::prelude::*;

verus! {

/// A node of a syntax tree: the rule that matched, the text it matched, and
/// the nodes of the rules that matched inside it, in the order of the text.
#[derive(Debug, PartialEq, Eq)]
pub struct ParseTree {
    pub rule: Rule,
    pub text: String,
    pub children: Vec<ParseTree>,
}

/// What a [`ParseTree`] holds, as a mathematical value.
pub ghost struct ParseTreeView {
    pub rule: Rule,
    pub text: Seq<char>,
    pub children: Seq<ParseTreeView>,
}

/// The value of element `i` of a sequence of trees.
pub open spec fn parse_tree_at(v: Seq<ParseTree>, i: int) -> ParseTreeView
    decreases v, 0nat,
{
    if 0 <= i < v.len() {
        v[i]@
    } else {
        arbitrary()
    }
}

/// The values of a sequence of trees, element by element.
pub open spec fn parse_trees_view(v: Seq<ParseTree>) -> Seq<ParseTreeView>
    decreases v, 1nat,
{
    Seq::new(v.len(), |i: int| parse_tree_at(v, i))
}

impl View for ParseTree {
    type V = ParseTreeView;

    open spec fn view(&self) -> ParseTreeView
        decreases self, 0nat,
    {
        ParseTreeView {
            rule: self.rule,
            text: self.text@,
            children: parse_trees_view(self.children@),
        }
    }
}

/// The status that `s` writes.
pub open spec fn status_value(s: Seq<char>) -> Option<Status> {
    if s == "current"@ {
        Some(Status::Current)
    } else if s == "obsolete"@ {
        Some(Status::Obsolete)
    } else if s == "deprecated"@ {
        Some(Status::Deprecated)
    } else {
        None
    }
}

/// The ordering that `s` writes.
pub open spec fn ordered_by_value(s: Seq<char>) -> Option<OrderedBy> {
    if s == "user"@ {
        Some(OrderedBy::User)
    } else if s == "system"@ {
        Some(OrderedBy::System)
    } else {
        None
    }
}

/// Reads a status.
pub fn parse_status_text(s: &str) -> (res: Option<Status>)
    ensures
        res == status_value(s@),
{
    if str_equal(s, "current") {
        Some(Status::Current)
    } else if str_equal(s, "obsolete") {
        Some(Status::Obsolete)
    } else if str_equal(s, "deprecated") {
        Some(Status::Deprecated)
    } else {
        None
    }
}

/// Reads an ordering.
pub fn parse_ordered_by_text(s: &str) -> (res: Option<OrderedBy>)
    ensures
        res == ordered_by_value(s@),
{
    if str_equal(s, "user") {
        Some(OrderedBy::User)
    } else if str_equal(s, "system") {
        Some(OrderedBy::System)
    } else {
        None
    }
}

/// Every child from index `from` on is one that `parent` may hold.
pub open spec fn children_allowed(parent: Rule, cs: Seq<ParseTreeView>, from: int) -> bool {
    forall|i: int| from <= i < cs.len() ==> allowed_child(parent, (#[trigger] cs[i]).rule)
}

/// Every child is a node that a string may be made of.
pub open spec fn children_are_string_pieces(cs: Seq<ParseTreeView>) -> bool {
    forall|i: int| 0 <= i < cs.len() ==> is_string_piece((#[trigger] cs[i]).rule)
}

/// What a `max-elements` statement holds: the word `unbounded`, or an integer
/// that is not negative.
pub open spec fn is_bound(c: ParseTreeView) -> bool {
    if c.rule == Rule::String {
        string_value(c) == "unbounded"@
    } else {
        &&& c.rule == Rule::Integer
        &&& c.children.len() >= 1
        &&& i64_value(c.children[0].text) matches Some(v) && v >= 0
    }
}

/// What the walker asks of a node itself, whatever lies below its children:
/// a node read as a value holds that value, a statement holds only what the
/// grammar allows it, and what is read by position stands at that position.
pub open spec fn node_conforms(t: ParseTreeView) -> bool {
    let cs = t.children;
    if carries_string(t.rule) {
        cs.len() >= 1 && children_are_string_pieces(cs)
    } else if carries_boolean(t.rule) {
        cs.len() >= 1 && boolean_value(cs[0].text) is Some
    } else if carries_integer(t.rule) {
        cs.len() >= 1 && i64_value(cs[0].text) is Some
    } else if is_named(t.rule) {
        cs.len() >= 1 && cs[0].rule == Rule::String && children_allowed(t.rule, cs, 1)
    } else if is_wrapper(t.rule) {
        cs.len() >= 1 && allowed_child(t.rule, cs[0].rule)
    } else {
        match t.rule {
            Rule::DoubleQuotedString => is_quoted(t.text, '"'),
            Rule::SingleQuotedString => is_quoted(t.text, '\''),
            Rule::Status => cs.len() >= 1 && status_value(cs[0].text) is Some,
            Rule::OrderedBy => cs.len() >= 1 && ordered_by_value(cs[0].text) is Some,
            Rule::MaxElements => cs.len() >= 1 && is_bound(cs[0]),
            Rule::Modifier => cs.len() >= 1,
            Rule::Argument => cs.len() >= 1 && cs[0].rule == Rule::String && (cs.len() >= 2
                ==> cs[1].rule == Rule::YinElement),
            Rule::LeafrefSpecification => cs.len() >= 1 && cs[0].rule == Rule::String && (cs.len()
                >= 2 ==> cs[1].rule == Rule::RequireInstance),
            Rule::InstanceIdentifierSpecification => cs.len() >= 1 && cs[0].rule
                == Rule::RequireInstance,
            Rule::Decimal64Specification => cs.len() >= 1 && cs[0].rule == Rule::FractionDigits
                && (cs.len() >= 2 ==> cs[1].rule == Rule::Range),
            Rule::NumericalRestriction => cs.len() >= 1 && cs[0].rule == Rule::Range,
            Rule::BinarySpecification => cs.len() >= 1 ==> cs[0].rule == Rule::Length,
            Rule::UnquotedString | Rule::DeviationNotSupported | Rule::Other | Rule::File => true,
            _ => children_allowed(t.rule, cs, 0),
        }
    }
}

/// The trees that the walker reads: every node of the tree is as
/// [`node_conforms`] asks.
pub open spec fn conforms(t: ParseTreeView) -> bool
    decreases t,
{
    &&& node_conforms(t)
    &&& forall|i: int| 0 <= i < t.children.len() ==> conforms(#[trigger] t.children[i])
}

/// Every tree of `cs` conforms.
pub open spec fn all_conform(cs: Seq<ParseTreeView>) -> bool {
    forall|i: int| 0 <= i < cs.len() ==> conforms(#[trigger] cs[i])
}

impl ParseTree {
    /// A node with the given rule, text and children.
    pub fn new(rule: Rule, text: String, children: Vec<ParseTree>) -> (res: Self)
        ensures
            res.rule == rule,
            res.text == text,
            res.children == children,
    {
        ParseTree { rule, text, children }
    }

    /// Whether every child from index `from` on is one that this node may hold.
    fn has_allowed_children(&self, from: usize) -> (res: bool)
        ensures
            res == children_allowed(self.rule, self@.children, from as int),
    {
        let mut i: usize = from;
        while i < self.children.len()
            invariant
                from <= i,
                forall|k: int|
                    from <= k < i && k < self.children.len() ==> allowed_child(
                        self.rule,
                        (#[trigger] self@.children[k]).rule,
                    ),
            decreases self.children.len() - i,
        {
            if !is_allowed_child(self.rule, self.children[i].rule) {
                assert(self@.children[i as int] == self.children[i as int]@);
                return false;
            }
            assert(self@.children[i as int] == self.children[i as int]@);
            i += 1;
        }
        true
    }

    /// Whether every child is a node that a string may be made of.
    fn has_string_pieces(&self) -> (res: bool)
        ensures
            res == children_are_string_pieces(self@.children),
    {
        let mut i: usize = 0;
        while i < self.children.len()
            invariant
                i <= self.children.len(),
                forall|k: int| 0 <= k < i ==> is_string_piece((#[trigger] self@.children[k]).rule),
            decreases self.children.len() - i,
        {
            assert(self@.children[i as int] == self.children[i as int]@);
            if !is_string_piece_node(self.children[i].rule) {
                return false;
            }
            i += 1;
        }
        true
    }

    /// Whether the child at `index` is there and has the rule `rule`.
    fn child_is(&self, index: usize, rule: Rule) -> (res: bool)
        ensures
            res == (index < self@.children.len() && self@.children[index as int].rule == rule),
    {
        if index < self.children.len() {
            assert(self@.children[index as int] == self.children[index as int]@);
            self.children[index].rule == rule
        } else {
            false
        }
    }

    /// Whether the child is what a `max-elements` statement holds.
    fn holds_bound(&self) -> (res: bool)
        requires
            conforms(self@),
        ensures
            res == is_bound(self@),
    {
        proof {
            lemma_children(self);
        }
        match self.rule {
            Rule::String => str_equal(parse_string(self).as_str(), "unbounded"),
            Rule::Integer => self.children.len() >= 1 && match parse_i64(
                self.children[0].text.as_str(),
            ) {
                Some(v) => v >= 0,
                None => false,
            },
            _ => false,
        }
    }

    /// Whether the node itself is as the walker asks, where its children are;
    /// see [`node_conforms`].
    pub fn node_conforms(&self) -> (res: bool)
        requires
            all_conform(self@.children),
        ensures
            res == node_conforms(self@),
    {
        let n = self.children.len();
        proof {
            if n >= 1 {
                assert(self@.children[0] == self.children[0]@);
            }
            if n >= 2 {
                assert(self@.children[1] == self.children[1]@);
            }
        }
        if is_string_carrier(self.rule) {
            n >= 1 && self.has_string_pieces()
        } else if is_boolean_carrier(self.rule) {
            n >= 1 && parse_bool(self.children[0].text.as_str()).is_some()
        } else if is_integer_carrier(self.rule) {
            n >= 1 && parse_i64(self.children[0].text.as_str()).is_some()
        } else if is_named_statement(self.rule) {
            self.child_is(0, Rule::String) && self.has_allowed_children(1)
        } else if is_wrapper_node(self.rule) {
            n >= 1 && is_allowed_child(self.rule, self.children[0].rule)
        } else {
            match self.rule {
                Rule::DoubleQuotedString => has_quotes(self.text.as_str(), '"'),
                Rule::SingleQuotedString => has_quotes(self.text.as_str(), '\''),
                Rule::Status => n >= 1 && parse_status_text(
                    self.children[0].text.as_str(),
                ).is_some(),
                Rule::OrderedBy => n >= 1 && parse_ordered_by_text(
                    self.children[0].text.as_str(),
                ).is_some(),
                Rule::MaxElements => n >= 1 && self.children[0].holds_bound(),
                Rule::Modifier => n >= 1,
                Rule::Argument => self.child_is(0, Rule::String) && (n < 2 || self.child_is(
                    1,
                    Rule::YinElement,
                )),
                Rule::LeafrefSpecification => self.child_is(0, Rule::String) && (n < 2
                    || self.child_is(1, Rule::RequireInstance)),
                Rule::InstanceIdentifierSpecification => self.child_is(0, Rule::RequireInstance),
                Rule::Decimal64Specification => self.child_is(0, Rule::FractionDigits) && (n < 2
                    || self.child_is(1, Rule::Range)),
                Rule::NumericalRestriction => self.child_is(0, Rule::Range),
                Rule::BinarySpecification => n < 1 || self.child_is(0, Rule::Length),
                Rule::UnquotedString
                | Rule::DeviationNotSupported
                | Rule::Other
                | Rule::File => true,
                _ => self.has_allowed_children(0),
            }
        }
    }

    /// Whether the walker can read this tree; see [`conforms`].
    pub fn conforms(&self) -> (res: bool)
        ensures
            res == conforms(self@),
        decreases self,
    {
        let mut i: usize = 0;
        while i < self.children.len()
            invariant
                i <= self.children.len(),
                forall|k: int| 0 <= k < i ==> conforms(#[trigger] self@.children[k]),
            decreases self.children.len() - i,
        {
            assert(self@.children[i as int] == self.children[i as int]@);
            if !self.children[i].conforms() {
                return false;
            }
            i += 1;
        }
        self.node_conforms()
    }
}

/// Whether `s` is some text between two `quote` characters.
pub fn has_quotes(s: &str, quote: char) -> (res: bool)
    ensures
        res == is_quoted(s@, quote),
{
    let chars = chars_of(s);
    let n = chars.len();
    n >= 2 && chars[0] == quote && chars[n - 1] == quote
}

} // verus!
