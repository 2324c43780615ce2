//! The values that single nodes carry: strings, booleans, integers and the
//! enumerated attributes, and how a statement's children are searched for them.

use crate::grammar::Rule;
use crate::text::{
    boolean_value, i64_value, lemma_unquoted_quoted, parse_bool, parse_i64, strip_quotes, unquoted,
};
use crate::tree::{
    all_conform, conforms, ordered_by_value, parse_ordered_by_text, parse_status_text,
    parse_trees_view, status_value, ParseTree, ParseTreeView,
};
use crate::yang::{MaxElements, OrderedBy, Status};
use vstd::prelude::*;
use vstd::string::StringExecFns;

verus! {

/// The text that one piece of a string stands for: an unquoted token stands
/// for itself, a quoted token for what is between its quotes, and a nested
/// string for its own value.
pub open spec fn piece_value(c: ParseTreeView) -> Seq<char>
    decreases c, 0nat,
{
    match c.rule {
        Rule::String => pieces_value(c.children),
        Rule::UnquotedString => c.text,
        Rule::DoubleQuotedString | Rule::SingleQuotedString => unquoted(c.text),
        _ => Seq::empty(),
    }
}

/// The values of the pieces, one after the other.
pub open spec fn pieces_value(cs: Seq<ParseTreeView>) -> Seq<char>
    decreases cs, 1nat,
{
    if cs.len() == 0 {
        Seq::empty()
    } else {
        pieces_value(cs.drop_last()) + piece_value(cs.last())
    }
}

/// The string that a node carries: the values of its pieces, one after the
/// other. A node with one piece carries the value of that piece.
pub open spec fn string_value(t: ParseTreeView) -> Seq<char> {
    pieces_value(t.children)
}

/// The boolean that a node carries in its first child; `false` where there
/// is none.
pub open spec fn boolean_of(t: ParseTreeView) -> bool {
    if t.children.len() >= 1 {
        match boolean_value(t.children[0].text) {
            Some(b) => b,
            None => false,
        }
    } else {
        false
    }
}

/// The integer that a node carries in its first child; 0 where there is none.
pub open spec fn integer_of(t: ParseTreeView) -> i64 {
    if t.children.len() >= 1 {
        match i64_value(t.children[0].text) {
            Some(v) => v,
            None => 0,
        }
    } else {
        0
    }
}

/// The status that a node carries in its first child.
pub open spec fn status_of(t: ParseTreeView) -> Status {
    if t.children.len() >= 1 {
        match status_value(t.children[0].text) {
            Some(v) => v,
            None => Status::Current,
        }
    } else {
        Status::Current
    }
}

/// The ordering that a node carries in its first child.
pub open spec fn ordered_by_of(t: ParseTreeView) -> OrderedBy {
    if t.children.len() >= 1 {
        match ordered_by_value(t.children[0].text) {
            Some(v) => v,
            None => OrderedBy::System,
        }
    } else {
        OrderedBy::System
    }
}

/// The bound that a `max-elements` node carries: the number under an integer
/// child, and no bound under the word `unbounded`.
pub open spec fn max_elements_of(t: ParseTreeView) -> MaxElements {
    if t.children.len() >= 1 && t.children[0].rule == Rule::Integer {
        MaxElements::Value(integer_of(t.children[0]))
    } else {
        MaxElements::Unbounded
    }
}

/// The index of the last of `cs` that has the rule `rule`.
pub open spec fn last_index(cs: Seq<ParseTreeView>, rule: Rule) -> Option<int>
    decreases cs.len(),
{
    if cs.len() == 0 {
        None
    } else if cs.last().rule == rule {
        Some(cs.len() - 1)
    } else {
        last_index(cs.drop_last(), rule)
    }
}

/// The last of `cs` that has the rule `rule`: where a statement repeats a
/// substatement that it holds once, the last one counts.
pub open spec fn last_of(cs: Seq<ParseTreeView>, rule: Rule) -> Option<ParseTreeView> {
    match last_index(cs, rule) {
        Some(i) => Some(cs[i]),
        None => None,
    }
}

/// What `last_index` finds: the greatest index with that rule.
pub proof fn lemma_last_index(cs: Seq<ParseTreeView>, rule: Rule)
    ensures
        match last_index(cs, rule) {
            Some(i) => 0 <= i < cs.len() && cs[i].rule == rule && forall|k: int|
                i < k < cs.len() ==> cs[k].rule != rule,
            None => forall|k: int| 0 <= k < cs.len() ==> cs[k].rule != rule,
        },
    decreases cs.len(),
{
    if cs.len() > 0 && cs.last().rule != rule {
        let head = cs.drop_last();
        lemma_last_index(head, rule);
        match last_index(head, rule) {
            Some(i) => {
                assert(head[i] == cs[i]);
                assert forall|k: int| i < k < cs.len() implies cs[k].rule != rule by {
                    if k < head.len() {
                        assert(head[k] == cs[k]);
                    }
                }
            },
            None => {
                assert forall|k: int| 0 <= k < cs.len() implies cs[k].rule != rule by {
                    if k < head.len() {
                        assert(head[k] == cs[k]);
                    }
                }
            },
        }
    }
}

/// The string of the last child with the rule `rule`, if there is one.
pub open spec fn opt_string(cs: Seq<ParseTreeView>, rule: Rule) -> Option<Seq<char>> {
    match last_of(cs, rule) {
        Some(c) => Some(string_value(c)),
        None => None,
    }
}

/// The string of the last child with the rule `rule`; empty where there is none.
pub open spec fn req_string(cs: Seq<ParseTreeView>, rule: Rule) -> Seq<char> {
    match last_of(cs, rule) {
        Some(c) => string_value(c),
        None => Seq::empty(),
    }
}

/// The strings of the children with the rule `rule`, in their order.
pub open spec fn strings(cs: Seq<ParseTreeView>, rule: Rule) -> Seq<Seq<char>>
    decreases cs.len(),
{
    if cs.len() == 0 {
        Seq::empty()
    } else if cs.last().rule == rule {
        strings(cs.drop_last(), rule).push(string_value(cs.last()))
    } else {
        strings(cs.drop_last(), rule)
    }
}

/// The boolean of the last child with the rule `rule`, if there is one.
pub open spec fn opt_boolean(cs: Seq<ParseTreeView>, rule: Rule) -> Option<bool> {
    match last_of(cs, rule) {
        Some(c) => Some(boolean_of(c)),
        None => None,
    }
}

/// The integer of the last child with the rule `rule`, if there is one.
pub open spec fn opt_integer(cs: Seq<ParseTreeView>, rule: Rule) -> Option<i64> {
    match last_of(cs, rule) {
        Some(c) => Some(integer_of(c)),
        None => None,
    }
}

/// The status of the last `status` child, if there is one.
pub open spec fn opt_status(cs: Seq<ParseTreeView>) -> Option<Status> {
    match last_of(cs, Rule::Status) {
        Some(c) => Some(status_of(c)),
        None => None,
    }
}

/// The ordering of the last `ordered-by` child, if there is one.
pub open spec fn opt_ordered_by(cs: Seq<ParseTreeView>) -> Option<OrderedBy> {
    match last_of(cs, Rule::OrderedBy) {
        Some(c) => Some(ordered_by_of(c)),
        None => None,
    }
}

/// The bound of the last `max-elements` child, if there is one.
pub open spec fn opt_max_elements(cs: Seq<ParseTreeView>) -> Option<MaxElements> {
    match last_of(cs, Rule::MaxElements) {
        Some(c) => Some(max_elements_of(c)),
        None => None,
    }
}

/// The trees of `cs` up to `n` conform where all of `cs` do, and the view of
/// a child is the child of the view.
pub proof fn lemma_children(t: &ParseTree)
    ensures
        t@.children == parse_trees_view(t.children@),
        t@.children.len() == t.children.len(),
        forall|i: int| 0 <= i < t.children.len() ==> #[trigger] t@.children[i] == t.children[i]@,
        conforms(t@) ==> all_conform(parse_trees_view(t.children@)),
{
    assert forall|i: int| 0 <= i < t.children.len() implies #[trigger] t@.children[i]
        == t.children[i]@ by {}
}

/// Reads the string that a node carries.
pub fn parse_string(input: &ParseTree) -> (res: String)
    requires
        conforms(input@),
    ensures
        res@ == string_value(input@),
    decreases input,
{
    let mut out = String::new();
    let mut i: usize = 0;
    let ghost cs = input@.children;
    proof {
        lemma_children(input);
        assert(cs.take(0) =~= Seq::empty());
    }
    while i < input.children.len()
        invariant
            i <= input.children.len(),
            cs == input@.children,
            cs == parse_trees_view(input.children@),
            all_conform(cs),
            out@ == pieces_value(cs.take(i as int)),
        decreases input.children.len() - i,
    {
        let child = &input.children[i];
        proof {
            assert(cs.take(i + 1).drop_last() =~= cs.take(i as int));
            assert(cs.take(i + 1).last() == cs[i as int]);
            assert(cs[i as int] == child@);
            assert(conforms(cs[i as int]));
            lemma_children(child);
            assert(pieces_value(cs.take(i + 1)) == pieces_value(cs.take(i as int)) + piece_value(
                cs[i as int],
            ));
        }
        match child.rule {
            Rule::String => {
                let piece = parse_string(child);
                out.append(piece.as_str());
            },
            Rule::UnquotedString => {
                out.append(child.text.as_str());
            },
            Rule::DoubleQuotedString | Rule::SingleQuotedString => {
                let piece = strip_quotes(child.text.as_str());
                out.append(piece.as_str());
            },
            _ => {
                assert(out@ + Seq::<char>::empty() =~= out@);
            },
        }
        i += 1;
    }
    assert(cs.take(input.children.len() as int) =~= cs);
    out
}

/// Reads the boolean that a node carries.
pub fn parse_boolean(input: &ParseTree) -> (res: bool)
    requires
        conforms(input@),
    ensures
        res == boolean_of(input@),
{
    proof {
        lemma_children(input);
    }
    if input.children.len() >= 1 {
        match parse_bool(input.children[0].text.as_str()) {
            Some(b) => b,
            None => false,
        }
    } else {
        false
    }
}

/// Reads the integer that a node carries.
pub fn parse_integer(input: &ParseTree) -> (res: i64)
    requires
        conforms(input@),
    ensures
        res == integer_of(input@),
{
    proof {
        lemma_children(input);
    }
    if input.children.len() >= 1 {
        match parse_i64(input.children[0].text.as_str()) {
            Some(v) => v,
            None => 0,
        }
    } else {
        0
    }
}

/// The index of the last child with the rule `rule`.
pub fn find_last(cs: &Vec<ParseTree>, rule: Rule) -> (res: Option<usize>)
    ensures
        match res {
            Some(i) => last_index(parse_trees_view(cs@), rule) == Some(i as int) && i < cs.len(),
            None => last_index(parse_trees_view(cs@), rule) is None,
        },
{
    let ghost views = parse_trees_view(cs@);
    proof {
        lemma_last_index(views, rule);
    }
    let mut i: usize = cs.len();
    while i > 0
        invariant
            i <= cs.len(),
            views == parse_trees_view(cs@),
            forall|k: int| i <= k < cs.len() ==> views[k].rule != rule,
        decreases i,
    {
        i -= 1;
        assert(views[i as int] == cs[i as int]@);
        if cs[i].rule == rule {
            proof {
                lemma_last_index(views, rule);
            }
            return Some(i);
        }
    }
    proof {
        lemma_last_index(views, rule);
    }
    None
}

/// Reads the status that a node carries.
pub fn parse_status(input: &ParseTree) -> (res: Status)
    requires
        conforms(input@),
    ensures
        res == status_of(input@),
{
    proof {
        lemma_children(input);
    }
    if input.children.len() >= 1 {
        match parse_status_text(input.children[0].text.as_str()) {
            Some(v) => v,
            None => Status::Current,
        }
    } else {
        Status::Current
    }
}

/// Reads the ordering that a node carries.
pub fn parse_ordered_by(input: &ParseTree) -> (res: OrderedBy)
    requires
        conforms(input@),
    ensures
        res == ordered_by_of(input@),
{
    proof {
        lemma_children(input);
    }
    if input.children.len() >= 1 {
        match parse_ordered_by_text(input.children[0].text.as_str()) {
            Some(v) => v,
            None => OrderedBy::System,
        }
    } else {
        OrderedBy::System
    }
}

/// Reads the bound that a `max-elements` node carries.
pub fn parse_max_elements(input: &ParseTree) -> (res: MaxElements)
    requires
        conforms(input@),
    ensures
        res == max_elements_of(input@),
{
    proof {
        lemma_children(input);
    }
    if input.children.len() >= 1 {
        let child = &input.children[0];
        assert(conforms(input@.children[0]));
        match child.rule {
            Rule::Integer => MaxElements::Value(parse_integer(child)),
            _ => MaxElements::Unbounded,
        }
    } else {
        MaxElements::Unbounded
    }
}

/// The string of the last child with the rule `rule`, if there is one.
pub fn optional_string(cs: &Vec<ParseTree>, rule: Rule) -> (res: Option<String>)
    requires
        all_conform(parse_trees_view(cs@)),
    ensures
        res.deep_view() == opt_string(parse_trees_view(cs@), rule),
{
    match find_last(cs, rule) {
        Some(i) => {
            assert(parse_trees_view(cs@)[i as int] == cs[i as int]@);
            Some(parse_string(&cs[i]))
        },
        None => None,
    }
}

/// The string of the last child with the rule `rule`; empty where there is none.
pub fn required_string(cs: &Vec<ParseTree>, rule: Rule) -> (res: String)
    requires
        all_conform(parse_trees_view(cs@)),
    ensures
        res@ == req_string(parse_trees_view(cs@), rule),
{
    match find_last(cs, rule) {
        Some(i) => {
            assert(parse_trees_view(cs@)[i as int] == cs[i as int]@);
            parse_string(&cs[i])
        },
        None => String::new(),
    }
}

/// The strings of the children with the rule `rule`, in their order.
pub fn all_strings(cs: &Vec<ParseTree>, rule: Rule) -> (res: Vec<String>)
    requires
        all_conform(parse_trees_view(cs@)),
    ensures
        res.deep_view() == strings(parse_trees_view(cs@), rule),
{
    let ghost views = parse_trees_view(cs@);
    let mut out: Vec<String> = Vec::new();
    let mut i: usize = 0;
    proof {
        assert(views.take(0) =~= Seq::empty());
        assert(out.deep_view() =~= Seq::empty());
    }
    while i < cs.len()
        invariant
            i <= cs.len(),
            views == parse_trees_view(cs@),
            all_conform(views),
            out.deep_view() == strings(views.take(i as int), rule),
        decreases cs.len() - i,
    {
        proof {
            assert(views.take(i + 1).drop_last() =~= views.take(i as int));
            assert(views.take(i + 1).last() == views[i as int]);
            assert(views[i as int] == cs[i as int]@);
        }
        if cs[i].rule == rule {
            let ghost before = out.deep_view();
            let value = parse_string(&cs[i]);
            out.push(value);
            assert(out.deep_view() =~= before.push(value@));
        }
        i += 1;
    }
    assert(views.take(cs.len() as int) =~= views);
    out
}

/// The boolean of the last child with the rule `rule`, if there is one.
pub fn optional_boolean(cs: &Vec<ParseTree>, rule: Rule) -> (res: Option<bool>)
    requires
        all_conform(parse_trees_view(cs@)),
    ensures
        res == opt_boolean(parse_trees_view(cs@), rule),
{
    match find_last(cs, rule) {
        Some(i) => {
            assert(parse_trees_view(cs@)[i as int] == cs[i as int]@);
            Some(parse_boolean(&cs[i]))
        },
        None => None,
    }
}

/// The integer of the last child with the rule `rule`, if there is one.
pub fn optional_integer(cs: &Vec<ParseTree>, rule: Rule) -> (res: Option<i64>)
    requires
        all_conform(parse_trees_view(cs@)),
    ensures
        res == opt_integer(parse_trees_view(cs@), rule),
{
    match find_last(cs, rule) {
        Some(i) => {
            assert(parse_trees_view(cs@)[i as int] == cs[i as int]@);
            Some(parse_integer(&cs[i]))
        },
        None => None,
    }
}

/// The status of the last `status` child, if there is one.
pub fn optional_status(cs: &Vec<ParseTree>) -> (res: Option<Status>)
    requires
        all_conform(parse_trees_view(cs@)),
    ensures
        res == opt_status(parse_trees_view(cs@)),
{
    match find_last(cs, Rule::Status) {
        Some(i) => {
            assert(parse_trees_view(cs@)[i as int] == cs[i as int]@);
            Some(parse_status(&cs[i]))
        },
        None => None,
    }
}

/// The ordering of the last `ordered-by` child, if there is one.
pub fn optional_ordered_by(cs: &Vec<ParseTree>) -> (res: Option<OrderedBy>)
    requires
        all_conform(parse_trees_view(cs@)),
    ensures
        res == opt_ordered_by(parse_trees_view(cs@)),
{
    match find_last(cs, Rule::OrderedBy) {
        Some(i) => {
            assert(parse_trees_view(cs@)[i as int] == cs[i as int]@);
            Some(parse_ordered_by(&cs[i]))
        },
        None => None,
    }
}

/// The bound of the last `max-elements` child, if there is one.
pub fn optional_max_elements(cs: &Vec<ParseTree>) -> (res: Option<MaxElements>)
    requires
        all_conform(parse_trees_view(cs@)),
    ensures
        res == opt_max_elements(parse_trees_view(cs@)),
{
    match find_last(cs, Rule::MaxElements) {
        Some(i) => {
            assert(parse_trees_view(cs@)[i as int] == cs[i as int]@);
            Some(parse_max_elements(&cs[i]))
        },
        None => None,
    }
}

/// The name of a statement that starts with its name: the string of the
/// first child.
pub open spec fn name_of(cs: Seq<ParseTreeView>) -> Seq<char> {
    if cs.len() >= 1 {
        string_value(cs[0])
    } else {
        Seq::empty()
    }
}

/// Reads the name of a statement that starts with its name.
pub fn parse_name(cs: &Vec<ParseTree>) -> (res: String)
    requires
        all_conform(parse_trees_view(cs@)),
    ensures
        res@ == name_of(parse_trees_view(cs@)),
{
    if cs.len() >= 1 {
        assert(parse_trees_view(cs@)[0] == cs[0]@);
        parse_string(&cs[0])
    } else {
        String::new()
    }
}

/// The boolean of the second child, if there is one.
pub open spec fn second_boolean(cs: Seq<ParseTreeView>) -> Option<bool> {
    if cs.len() >= 2 {
        Some(boolean_of(cs[1]))
    } else {
        None
    }
}

/// Reads the boolean of the second child, if there is one.
pub fn parse_second_boolean(cs: &Vec<ParseTree>) -> (res: Option<bool>)
    requires
        all_conform(parse_trees_view(cs@)),
    ensures
        res == second_boolean(parse_trees_view(cs@)),
{
    if cs.len() >= 2 {
        assert(parse_trees_view(cs@)[1] == cs[1]@);
        Some(parse_boolean(&cs[1]))
    } else {
        None
    }
}

/// String round trip: a string node over a single token carries the same
/// text whether the token is written bare, between double quotes or between
/// single quotes.
pub proof fn lemma_string_round_trip(text: Seq<char>, rule: Rule, other: Seq<ParseTreeView>)
    ensures
        string_value(
            ParseTreeView {
                rule,
                text,
                children: seq![
                    ParseTreeView { rule: Rule::UnquotedString, text, children: other },
                ],
            },
        ) == text,
        string_value(
            ParseTreeView {
                rule,
                text,
                children: seq![
                    ParseTreeView {
                        rule: Rule::DoubleQuotedString,
                        text: seq!['"'] + text + seq!['"'],
                        children: other,
                    },
                ],
            },
        ) == text,
        string_value(
            ParseTreeView {
                rule,
                text,
                children: seq![
                    ParseTreeView {
                        rule: Rule::SingleQuotedString,
                        text: seq!['\''] + text + seq!['\''],
                        children: other,
                    },
                ],
            },
        ) == text,
{
    let bare = ParseTreeView { rule: Rule::UnquotedString, text, children: other };
    let double = ParseTreeView {
        rule: Rule::DoubleQuotedString,
        text: seq!['"'] + text + seq!['"'],
        children: other,
    };
    let single = ParseTreeView {
        rule: Rule::SingleQuotedString,
        text: seq!['\''] + text + seq!['\''],
        children: other,
    };
    lemma_unquoted_quoted(text, '"');
    lemma_unquoted_quoted(text, '\'');
    lemma_one_piece(bare);
    lemma_one_piece(double);
    lemma_one_piece(single);
}

/// A single piece stands for its own value.
pub proof fn lemma_one_piece(c: ParseTreeView)
    ensures
        pieces_value(seq![c]) == piece_value(c),
{
    assert(seq![c].drop_last() =~= Seq::empty());
    assert(pieces_value(seq![c]) == pieces_value(Seq::empty()) + piece_value(c));
    assert(pieces_value(Seq::<ParseTreeView>::empty()) + piece_value(c) =~= piece_value(c));
}

} // verus!
