use yang_rs::grammar::Rule;
use yang_rs::parser::{strip_belongs_to_prefix, YangParser};
use yang_rs::tree::ParseTree;
use yang_rs::values::{
    parse_boolean, parse_integer, parse_max_elements, parse_ordered_by, parse_status, parse_string,
};
use yang_rs::yang::{
    Case, DataDef, Leaf, LeafList, MaxElements, Must, OrderedBy, Pattern, SchemaNode, ShortCase,
    Status, TypeBody, TypeInfo, YangFile,
};

fn token(rule: Rule, text: &str) -> ParseTree {
    ParseTree::new(rule, text.to_string(), Vec::new())
}

fn node(rule: Rule, children: Vec<ParseTree>) -> ParseTree {
    ParseTree::new(rule, String::new(), children)
}

fn string(text: &str) -> ParseTree {
    node(Rule::String, vec![token(Rule::UnquotedString, text)])
}

fn keyword(rule: Rule, text: &str) -> ParseTree {
    node(rule, vec![string(text)])
}

fn value(rule: Rule, text: &str) -> ParseTree {
    node(rule, vec![token(Rule::Other, text)])
}

fn named(rule: Rule, name: &str, mut children: Vec<ParseTree>) -> ParseTree {
    let mut all = vec![string(name)];
    all.append(&mut children);
    node(rule, all)
}

fn data_def(statement: ParseTree) -> ParseTree {
    node(Rule::DataDef, vec![statement])
}

fn body(statement: ParseTree) -> ParseTree {
    node(Rule::Body, vec![statement])
}

fn module(children: Vec<ParseTree>) -> ParseTree {
    named(Rule::Module, "m", children)
}

fn walk(tree: &ParseTree) -> (YangFile, YangParser) {
    assert!(tree.conforms());
    let mut parser = YangParser::new();
    let file = parser.parse(tree);
    (file, parser)
}

#[test]
fn string_round_trip() {
    let bare = node(Rule::String, vec![token(Rule::UnquotedString, "abc")]);
    let double = node(Rule::String, vec![token(Rule::DoubleQuotedString, "\"abc\"")]);
    let single = node(Rule::String, vec![token(Rule::SingleQuotedString, "'abc'")]);
    assert_eq!(parse_string(&bare), "abc");
    assert_eq!(parse_string(&double), "abc");
    assert_eq!(parse_string(&single), "abc");
}

#[test]
fn exactly_one_layer_of_quotes_is_stripped() {
    let nested = node(Rule::String, vec![token(Rule::DoubleQuotedString, "\"'a\"b'\"")]);
    assert_eq!(parse_string(&nested), "'a\"b'");
    let empty = node(Rule::String, vec![token(Rule::SingleQuotedString, "''")]);
    assert_eq!(parse_string(&empty), "");
    let accents = node(Rule::String, vec![token(Rule::DoubleQuotedString, "\"é€\"")]);
    assert_eq!(parse_string(&accents), "é€");
}

#[test]
fn concatenated_strings_are_joined() {
    let joined = node(
        Rule::Description,
        vec![node(
            Rule::String,
            vec![
                token(Rule::DoubleQuotedString, "\"a\""),
                node(
                    Rule::String,
                    vec![token(Rule::SingleQuotedString, "'b'"), token(Rule::UnquotedString, "c")],
                ),
            ],
        )],
    );
    assert!(joined.conforms());
    assert_eq!(parse_string(&joined), "abc");
}

#[test]
fn booleans_and_integers() {
    assert!(parse_boolean(&value(Rule::Config, "true")));
    assert!(!parse_boolean(&value(Rule::Config, "false")));
    assert_eq!(parse_integer(&value(Rule::MinElements, "0")), 0);
    assert_eq!(parse_integer(&value(Rule::MinElements, "42")), 42);
    assert_eq!(parse_integer(&value(Rule::Value, "-7")), -7);
    assert_eq!(parse_integer(&value(Rule::Value, "+7")), 7);
    assert_eq!(parse_integer(&value(Rule::Value, "9223372036854775807")), i64::MAX);
    assert_eq!(parse_integer(&value(Rule::Value, "-9223372036854775808")), i64::MIN);
}

#[test]
fn enumerated_attributes() {
    assert_eq!(parse_status(&value(Rule::Status, "current")), Status::Current);
    assert_eq!(parse_status(&value(Rule::Status, "obsolete")), Status::Obsolete);
    assert_eq!(parse_status(&value(Rule::Status, "deprecated")), Status::Deprecated);
    assert_eq!(parse_ordered_by(&value(Rule::OrderedBy, "user")), OrderedBy::User);
    assert_eq!(parse_ordered_by(&value(Rule::OrderedBy, "system")), OrderedBy::System);
}

#[test]
fn max_elements_is_a_number_or_unbounded() {
    let bounded = node(Rule::MaxElements, vec![value(Rule::Integer, "16")]);
    let unbounded = node(Rule::MaxElements, vec![string("unbounded")]);
    assert!(bounded.conforms() && unbounded.conforms());
    assert_eq!(parse_max_elements(&bounded), MaxElements::Value(16));
    assert_eq!(parse_max_elements(&unbounded), MaxElements::Unbounded);
}

#[test]
fn conformance_rejects_what_the_grammar_does_not_allow() {
    assert!(!value(Rule::Config, "maybe").conforms());
    assert!(!value(Rule::Status, "old").conforms());
    assert!(!value(Rule::OrderedBy, "nobody").conforms());
    assert!(!value(Rule::MinElements, "12x").conforms());
    assert!(!value(Rule::MinElements, "9223372036854775808").conforms());
    assert!(!value(Rule::MinElements, "").conforms());
    assert!(node(Rule::MaxElements, vec![value(Rule::Integer, "0")]).conforms());
    assert!(!node(Rule::MaxElements, vec![value(Rule::Integer, "-1")]).conforms());
    assert!(!node(Rule::MaxElements, vec![string("many")]).conforms());
    assert!(!node(Rule::MaxElements, vec![token(Rule::Other, "unbounded")]).conforms());
    assert!(!node(Rule::MaxElements, vec![]).conforms());
    assert!(!node(Rule::Config, vec![]).conforms());
    assert!(!node(Rule::Description, vec![]).conforms());
    assert!(!token(Rule::DoubleQuotedString, "\"").conforms());
    assert!(!token(Rule::DoubleQuotedString, "'a'").conforms());
    assert!(!token(Rule::SingleQuotedString, "'a\"").conforms());
    assert!(!node(Rule::Leaf, vec![string("x"), keyword(Rule::Key, "k")]).conforms());
    assert!(!node(Rule::Container, vec![keyword(Rule::Presence, "p")]).conforms());
    assert!(!node(Rule::Container, vec![string("c"), string("again")]).conforms());
    assert!(!node(Rule::DataDef, vec![]).conforms());
    assert!(!node(Rule::DataDef, vec![named(Rule::Grouping, "g", vec![])]).conforms());
    assert!(!node(Rule::Body, vec![named(Rule::Leaf, "x", vec![])]).conforms());
    assert!(!module(vec![body(data_def(node(Rule::Leaf, vec![value(Rule::Config, "yes")])))])
        .conforms());
    assert!(module(vec![body(data_def(node(Rule::Leaf, vec![value(Rule::Config, "true")])))])
        .conforms());
}

#[test]
fn a_leaf_with_all_its_substatements() {
    let tree = node(
        Rule::Leaf,
        vec![
            string("speed"),
            node(Rule::When, vec![string("../enabled"), keyword(Rule::Description, "only then")]),
            keyword(Rule::IfFeature, "fast"),
            keyword(Rule::IfFeature, "faster"),
            node(Rule::TypeInfo, vec![string("uint32")]),
            keyword(Rule::Units, "mbps"),
            node(Rule::Must, vec![string(". > 0"), keyword(Rule::ErrorMessage, "too slow")]),
            keyword(Rule::Default, "100"),
            value(Rule::Config, "false"),
            value(Rule::Mandatory, "true"),
            value(Rule::Status, "deprecated"),
            keyword(Rule::Description, "first"),
            keyword(Rule::Description, "the speed"),
            keyword(Rule::Reference, "RFC 0"),
        ],
    );
    assert!(tree.conforms());
    let leaf = Leaf::parse(&tree);
    assert_eq!(leaf.name, "speed");
    assert_eq!(leaf.when.as_ref().unwrap().condition, "../enabled");
    assert_eq!(leaf.when.as_ref().unwrap().description, Some("only then".to_string()));
    assert_eq!(leaf.if_features, vec!["fast".to_string(), "faster".to_string()]);
    assert_eq!(leaf.type_info, TypeInfo { name: "uint32".to_string(), type_body: None });
    assert_eq!(leaf.units, Some("mbps".to_string()));
    assert_eq!(
        leaf.must,
        vec![Must {
            condition: ". > 0".to_string(),
            error_message: Some("too slow".to_string()),
            ..Must::default()
        }]
    );
    assert_eq!(leaf.default, Some("100".to_string()));
    assert_eq!(leaf.config, Some(false));
    assert_eq!(leaf.mandatory, Some(true));
    assert_eq!(leaf.status, Some(Status::Deprecated));
    assert_eq!(leaf.description, Some("the speed".to_string()));
    assert_eq!(leaf.reference, Some("RFC 0".to_string()));
}

#[test]
fn a_leaf_list_with_bounds() {
    let tree = node(
        Rule::LeafList,
        vec![
            string("servers"),
            node(Rule::TypeInfo, vec![string("string")]),
            keyword(Rule::Default, "a"),
            keyword(Rule::Default, "b"),
            value(Rule::MinElements, "1"),
            node(Rule::MaxElements, vec![value(Rule::Integer, "8")]),
            value(Rule::OrderedBy, "user"),
        ],
    );
    assert!(tree.conforms());
    let list = LeafList::parse(&tree);
    assert_eq!(list.name, "servers");
    assert_eq!(list.default, vec!["a".to_string(), "b".to_string()]);
    assert_eq!(list.min_elements, Some(1));
    assert_eq!(list.max_elements, Some(MaxElements::Value(8)));
    assert_eq!(list.ordered_by, Some(OrderedBy::User));
    assert_eq!(list.status, None);
}

#[test]
fn type_bodies() {
    let range = node(Rule::Range, vec![string("1..10")]);
    let numerical = node(
        Rule::TypeInfo,
        vec![string("int8"), node(Rule::NumericalRestriction, vec![range])],
    );
    assert!(numerical.conforms());
    match TypeInfo::parse(&numerical).type_body {
        Some(TypeBody::Numerical { range }) => assert_eq!(range.value, "1..10"),
        other => panic!("unexpected body {:?}", other),
    }
    let decimal = node(
        Rule::Decimal64Specification,
        vec![keyword(Rule::FractionDigits, "2"), node(Rule::Range, vec![string("0..1")])],
    );
    assert!(decimal.conforms());
    match TypeBody::parse_decimal(&decimal) {
        TypeBody::Decimal64 { fraction_digits, range } => {
            assert_eq!(fraction_digits, "2");
            assert_eq!(range.unwrap().value, "0..1");
        }
        other => panic!("unexpected body {:?}", other),
    }
    let text = node(
        Rule::StringRestriction,
        vec![
            node(Rule::Length, vec![string("1..8")]),
            node(
                Rule::Pattern,
                vec![
                    string("[a-z]+"),
                    node(Rule::Modifier, vec![token(Rule::Other, "invert-match")]),
                ],
            ),
            node(Rule::Pattern, vec![string("x*")]),
        ],
    );
    assert!(text.conforms());
    match TypeBody::parse_string_restriction(&text) {
        TypeBody::String { length, patterns } => {
            assert_eq!(length.unwrap().value, "1..8");
            assert_eq!(
                patterns,
                vec![
                    Pattern {
                        value: "[a-z]+".to_string(),
                        modifier: Some("invert-match".to_string()),
                        ..Pattern::default()
                    },
                    Pattern { value: "x*".to_string(), ..Pattern::default() },
                ]
            );
        }
        other => panic!("unexpected body {:?}", other),
    }
    let enums = node(
        Rule::EnumSpecification,
        vec![
            node(Rule::Enum, vec![string("up"), value(Rule::Value, "1")]),
            node(Rule::Enum, vec![string("down"), value(Rule::Value, "-1")]),
        ],
    );
    assert!(enums.conforms());
    match TypeBody::parse_enum(&enums) {
        TypeBody::Enum { enums } => {
            assert_eq!(enums.len(), 2);
            assert_eq!((enums[0].name.as_str(), enums[0].value), ("up", Some(1)));
            assert_eq!((enums[1].name.as_str(), enums[1].value), ("down", Some(-1)));
        }
        other => panic!("unexpected body {:?}", other),
    }
    let leafref = node(
        Rule::LeafrefSpecification,
        vec![string("/a/b"), value(Rule::RequireInstance, "false")],
    );
    assert!(leafref.conforms());
    match TypeBody::parse_leafref(&leafref) {
        TypeBody::Leafref { path, require_instance } => {
            assert_eq!(path, "/a/b");
            assert_eq!(require_instance, Some(false));
        }
        other => panic!("unexpected body {:?}", other),
    }
    let identityref = node(
        Rule::IdentityrefSpecification,
        vec![keyword(Rule::Base, "one"), keyword(Rule::Base, "two")],
    );
    match TypeBody::parse_identityref(&identityref) {
        TypeBody::Identityref { bases } => {
            assert_eq!(bases, vec!["one".to_string(), "two".to_string()])
        }
        other => panic!("unexpected body {:?}", other),
    }
    let instance = node(
        Rule::InstanceIdentifierSpecification,
        vec![value(Rule::RequireInstance, "true")],
    );
    assert!(matches!(
        TypeBody::parse_instance_identifier(&instance),
        TypeBody::InstanceIdentifier { require_instance: true }
    ));
    let bits = node(
        Rule::BitsSpecification,
        vec![node(Rule::Bit, vec![string("flag"), value(Rule::Position, "3")])],
    );
    match TypeBody::parse_bit_specification(&bits) {
        TypeBody::Bits { bits } => {
            assert_eq!((bits[0].name.as_str(), bits[0].position), ("flag", Some(3)))
        }
        other => panic!("unexpected body {:?}", other),
    }
    let binary = node(Rule::BinarySpecification, vec![]);
    assert!(matches!(
        TypeBody::parse_binary_specification(&binary),
        TypeBody::Binary { length: None }
    ));
    let union = node(
        Rule::UnionSpecification,
        vec![
            node(Rule::TypeInfo, vec![string("int8")]),
            node(
                Rule::TypeInfo,
                vec![
                    string("union"),
                    node(
                        Rule::UnionSpecification,
                        vec![node(Rule::TypeInfo, vec![string("string")])],
                    ),
                ],
            ),
        ],
    );
    assert!(union.conforms());
    match TypeBody::parse_union_specification(&union) {
        TypeBody::Union { types } => {
            assert_eq!(types.len(), 2);
            assert_eq!(types[0].name, "int8");
            match &types[1].type_body {
                Some(TypeBody::Union { types }) => assert_eq!(types[0].name, "string"),
                other => panic!("unexpected body {:?}", other),
            }
        }
        other => panic!("unexpected body {:?}", other),
    }
}

#[test]
fn reference_targets_are_filed_under_their_scope() {
    let tree = module(vec![
        body(named(Rule::Grouping, "top", vec![named(Rule::Grouping, "inside", vec![])])),
        body(named(Rule::TypeDef, "percent", vec![node(Rule::TypeInfo, vec![string("uint8")])])),
        body(named(Rule::Feature, "fast", vec![])),
        body(named(Rule::Identity, "base-id", vec![keyword(Rule::Base, "root-id")])),
        body(node(Rule::Extension, vec![string("ext"), node(Rule::Argument, vec![string("arg")])])),
        body(node(
            Rule::Deviation,
            vec![string("/a/b"), node(Rule::DeviationNotSupported, vec![])],
        )),
        body(node(Rule::Augment, vec![string("/a"), data_def(named(Rule::Leaf, "added", vec![]))])),
        body(data_def(named(
            Rule::Container,
            "c",
            vec![
                named(Rule::Grouping, "g", vec![data_def(named(Rule::Leaf, "x", vec![]))]),
                named(Rule::TypeDef, "t", vec![]),
                data_def(named(
                    Rule::List,
                    "l",
                    vec![
                        named(Rule::Grouping, "g", vec![]),
                        named(
                            Rule::Action,
                            "act",
                            vec![node(Rule::Input, vec![named(Rule::Grouping, "g", vec![])])],
                        ),
                        named(Rule::Notification, "note", vec![named(Rule::Grouping, "g", vec![])]),
                    ],
                )),
                data_def(node(
                    Rule::Choice,
                    vec![
                        string("ch"),
                        node(
                            Rule::ShortCase,
                            vec![named(
                                Rule::Container,
                                "box",
                                vec![named(Rule::Grouping, "g", vec![])],
                            )],
                        ),
                    ],
                )),
            ],
        ))),
        body(named(
            Rule::Rpc,
            "call",
            vec![node(Rule::Output, vec![named(Rule::Grouping, "g", vec![])])],
        )),
    ]);
    let (file, parser) = walk(&tree);
    let refs = &parser.reference_nodes;
    for key in [
        "/top",
        "/top/inside",
        "/c/g",
        "/c/l/g",
        "/c/l/act/input/g",
        "/c/l/note/g",
        "/c/box/g",
        "/call/output/g",
    ] {
        assert!(refs.groupings.contains_key(key), "no grouping under {}", key);
    }
    assert_eq!(refs.groupings.len(), 8);
    assert!(refs.type_defs.contains_key("/percent"));
    assert!(refs.type_defs.contains_key("/c/t"));
    assert_eq!(refs.type_defs.get("/percent").unwrap().type_info.name, "uint8");
    assert!(refs.features.contains_key("/fast"));
    assert_eq!(refs.identities.get("/base-id").unwrap().name, "base-id");
    assert_eq!(refs.identities.get("/base-id").unwrap().bases, vec!["root-id".to_string()]);
    assert_eq!(refs.extensions.len(), 1);
    assert_eq!(refs.extensions[0].argument.as_ref().unwrap().name, "arg");
    assert_eq!(refs.deviations.len(), 1);
    assert!(refs.deviations[0].not_supported);
    assert_eq!(refs.augments.len(), 1);
    assert_eq!(refs.augments[0].target, "/a");
    assert_eq!(refs.augments[0].data_defs.len(), 1);
    assert_eq!(refs.groupings.get("/c/g").unwrap().data_defs.len(), 1);
    assert_eq!(parser.current_path, "/");
    let module = match file {
        YangFile::Module(m) => m,
        YangFile::Submodule(_) => panic!("a module was walked"),
    };
    assert_eq!(module.body.len(), 2);
    match &module.body[0] {
        SchemaNode::DataDef(DataDef::Container(c)) => {
            assert_eq!(c.data_defs.len(), 2);
            match &c.data_defs[1] {
                DataDef::Choice(ch) => {
                    assert!(matches!(
                        &ch.cases[0],
                        Case::ShortCase(ShortCase::Container(b)) if b.name == "box"
                    ))
                }
                other => panic!("unexpected node {:?}", other),
            }
        }
        other => panic!("unexpected node {:?}", other),
    }
    assert!(matches!(
        &module.body[1],
        SchemaNode::Rpc(r) if r.name == "call" && r.output.is_some()
    ));
}

#[test]
fn a_later_target_under_the_same_key_replaces_the_earlier() {
    let tree = module(vec![
        body(named(Rule::Grouping, "g", vec![data_def(named(Rule::Leaf, "first", vec![]))])),
        body(named(Rule::Grouping, "g", vec![data_def(named(Rule::Leaf, "second", vec![]))])),
    ]);
    let (_, parser) = walk(&tree);
    assert_eq!(parser.reference_nodes.groupings.len(), 1);
    let g = parser.reference_nodes.groupings.get("/g").unwrap();
    assert!(matches!(&g.data_defs[0], DataDef::Leaf(l) if l.name == "first") == false);
    assert!(matches!(&g.data_defs[0], DataDef::Leaf(l) if l.name == "second"));
}

#[test]
fn augments_inside_uses_go_to_the_tables() {
    let tree = module(vec![body(data_def(node(
        Rule::Uses,
        vec![
            string("g"),
            node(Rule::Refine, vec![string("x"), value(Rule::Mandatory, "true")]),
            node(Rule::Augment, vec![string("x/y")]),
        ],
    )))]);
    let (file, parser) = walk(&tree);
    assert_eq!(parser.reference_nodes.augments.len(), 1);
    assert_eq!(parser.reference_nodes.augments[0].target, "x/y");
    match file {
        YangFile::Module(m) => match &m.body[0] {
            SchemaNode::DataDef(DataDef::Uses(u)) => {
                assert_eq!(u.grouping, "g");
                assert!(u.augments.is_empty());
                assert_eq!(u.refines.len(), 1);
                assert_eq!(u.refines[0].target, "x");
                assert_eq!(u.refines[0].mandatory, Some(true));
            }
            other => panic!("unexpected node {:?}", other),
        },
        YangFile::Submodule(_) => panic!("a module was walked"),
    }
}

#[test]
fn module_header_imports_and_revisions() {
    let tree = node(
        Rule::Module,
        vec![
            string("net"),
            keyword(Rule::YangVersion, "1.1"),
            keyword(Rule::Namespace, "urn:net"),
            keyword(Rule::Prefix, "n"),
            node(
                Rule::Import,
                vec![
                    string("types"),
                    keyword(Rule::Prefix, "t"),
                    keyword(Rule::RevisionDate, "2020-01-01"),
                ],
            ),
            node(Rule::Include, vec![string("net-part")]),
            keyword(Rule::Organization, "org"),
            keyword(Rule::Contact, "me"),
            keyword(Rule::Description, "about"),
            node(Rule::Revision, vec![string("2024-02-02"), keyword(Rule::Description, "second")]),
            node(Rule::Revision, vec![string("2023-01-01")]),
        ],
    );
    let (file, parser) = walk(&tree);
    let m = match file {
        YangFile::Module(m) => m,
        YangFile::Submodule(_) => panic!("a module was walked"),
    };
    assert_eq!(m.name, "net");
    assert_eq!(m.yang_version, Some("1.1".to_string()));
    assert_eq!(m.namespace, "urn:net");
    assert_eq!(m.prefix, "n");
    assert_eq!(m.meta.organization, Some("org".to_string()));
    assert_eq!(m.meta.contact, Some("me".to_string()));
    assert_eq!(m.meta.description, Some("about".to_string()));
    assert_eq!(m.meta.reference, None);
    assert_eq!(m.revisions.len(), 2);
    assert_eq!(m.revisions[0].date, "2024-02-02");
    assert_eq!(m.revisions[0].description, Some("second".to_string()));
    assert_eq!(m.revisions[1].date, "2023-01-01");
    assert!(m.body.is_empty());
    assert_eq!(parser.imports.len(), 1);
    assert_eq!(parser.imports[0].module, "types");
    assert_eq!(parser.imports[0].prefix, "t");
    assert_eq!(parser.imports[0].revision_date, Some("2020-01-01".to_string()));
    assert_eq!(parser.includes.len(), 1);
    assert_eq!(parser.includes[0].module, "net-part");
}

#[test]
fn a_submodule_strips_its_own_prefix_only() {
    let tree = node(
        Rule::Submodule,
        vec![
            string("part"),
            node(Rule::BelongsTo, vec![string("whole"), keyword(Rule::Prefix, "w")]),
            body(data_def(node(Rule::Uses, vec![string("w:g")]))),
            body(data_def(node(Rule::Uses, vec![string("other:g")]))),
            body(data_def(node(Rule::Uses, vec![string("w:w:g")]))),
            body(data_def(node(Rule::Uses, vec![string("wg")]))),
        ],
    );
    let (file, parser) = walk(&tree);
    assert_eq!(parser.current_belongs_to_prefix, None);
    let s = match file {
        YangFile::Submodule(s) => s,
        YangFile::Module(_) => panic!("a submodule was walked"),
    };
    assert_eq!(s.name, "part");
    assert_eq!(s.belongs_to.module, "whole");
    assert_eq!(s.belongs_to.prefix, "w");
    let names: Vec<&str> = s
        .body
        .iter()
        .map(|n| match n {
            SchemaNode::DataDef(DataDef::Uses(u)) => u.grouping.as_str(),
            other => panic!("unexpected node {:?}", other),
        })
        .collect();
    assert_eq!(names, vec!["g", "other:g", "w:g", "wg"]);
}

#[test]
fn stripping_a_prefix() {
    let prefix = Some("mn".to_string());
    assert_eq!(strip_belongs_to_prefix("mn:g".to_string(), &prefix), "g");
    assert_eq!(strip_belongs_to_prefix("g".to_string(), &prefix), "g");
    assert_eq!(strip_belongs_to_prefix("mn:".to_string(), &prefix), "");
    assert_eq!(strip_belongs_to_prefix("mn".to_string(), &prefix), "mn");
    assert_eq!(strip_belongs_to_prefix("mng".to_string(), &prefix), "mng");
    assert_eq!(strip_belongs_to_prefix("xmn:g".to_string(), &prefix), "xmn:g");
    assert_eq!(strip_belongs_to_prefix("mn:g".to_string(), &None), "mn:g");
    assert_eq!(strip_belongs_to_prefix(":g".to_string(), &Some(String::new())), "g");
}

#[test]
fn deviations_with_their_deviates() {
    let tree = node(
        Rule::Deviation,
        vec![
            string("/sys/name"),
            keyword(Rule::Description, "differs"),
            node(
                Rule::DeviateAdd,
                vec![
                    keyword(Rule::Units, "s"),
                    node(Rule::Must, vec![string("a")]),
                    keyword(Rule::Unique, "u"),
                    keyword(Rule::Default, "d1"),
                    keyword(Rule::Default, "d2"),
                    value(Rule::Config, "true"),
                    value(Rule::Mandatory, "false"),
                    value(Rule::MinElements, "2"),
                    node(Rule::MaxElements, vec![string("unbounded")]),
                ],
            ),
            node(
                Rule::DeviateDelete,
                vec![keyword(Rule::Units, "ms"), keyword(Rule::Default, "x")],
            ),
            node(
                Rule::DeviateReplace,
                vec![node(Rule::TypeInfo, vec![string("int16")]), value(Rule::MinElements, "-3")],
            ),
        ],
    );
    assert!(tree.conforms());
    let deviation = yang_rs::yang::Deviation::parse(&tree);
    assert_eq!(deviation.target, "/sys/name");
    assert_eq!(deviation.description, Some("differs".to_string()));
    assert!(!deviation.not_supported);
    assert_eq!(deviation.add.len(), 1);
    let add = &deviation.add[0];
    assert_eq!(add.units, Some("s".to_string()));
    assert_eq!(add.must.len(), 1);
    assert_eq!(add.unique, vec!["u".to_string()]);
    assert_eq!(add.default, vec!["d1".to_string(), "d2".to_string()]);
    assert_eq!((add.config, add.mandatory), (Some(true), Some(false)));
    assert_eq!(add.min_elements, Some(2));
    assert_eq!(add.max_elements, Some(MaxElements::Unbounded));
    assert_eq!(deviation.delete.len(), 1);
    assert_eq!(deviation.delete[0].units, Some("ms".to_string()));
    assert_eq!(deviation.delete[0].default, vec!["x".to_string()]);
    assert_eq!(deviation.replace.len(), 1);
    assert_eq!(deviation.replace[0].type_info.as_ref().unwrap().name, "int16");
    assert_eq!(deviation.replace[0].min_elements, Some(-3));
}

#[test]
fn an_extension_with_its_argument() {
    let with_yin = node(
        Rule::Extension,
        vec![
            string("annotate"),
            node(Rule::Argument, vec![string("text"), value(Rule::YinElement, "true")]),
            value(Rule::Status, "obsolete"),
        ],
    );
    assert!(with_yin.conforms());
    let extension = yang_rs::yang::Extension::parse(&with_yin);
    assert_eq!(extension.name, "annotate");
    let argument = extension.argument.unwrap();
    assert_eq!(argument.name, "text");
    assert_eq!(argument.yin_element, Some(true));
    assert_eq!(extension.status, Some(Status::Obsolete));
    let bare = node(Rule::Extension, vec![string("mark"), node(Rule::Argument, vec![string("a")])]);
    assert_eq!(yang_rs::yang::Extension::parse(&bare).argument.unwrap().yin_element, None);
}

#[test]
fn what_a_statement_does_not_say_is_absent() {
    let tree = node(Rule::Leaf, vec![string("bare")]);
    let leaf = Leaf::parse(&tree);
    assert_eq!(leaf, Leaf { name: "bare".to_string(), ..Leaf::default() });
    let nameless = node(Rule::Leaf, vec![]);
    assert_eq!(Leaf::parse(&nameless), Leaf::default());
    let list = LeafList::parse(&node(Rule::LeafList, vec![string("l")]));
    assert_eq!(list, LeafList { name: "l".to_string(), ..LeafList::default() });
}

#[test]
fn a_choice_with_both_kinds_of_case() {
    let tree = module(vec![body(data_def(node(
        Rule::Choice,
        vec![
            string("transport"),
            keyword(Rule::Default, "tcp"),
            value(Rule::Mandatory, "true"),
            node(
                Rule::LongCase,
                vec![string("tcp"), data_def(named(Rule::Leaf, "port", vec![]))],
            ),
            node(Rule::ShortCase, vec![named(Rule::Leaf, "pipe", vec![])]),
            node(Rule::ShortCase, vec![node(Rule::Choice, vec![string("inner")])]),
        ],
    )))]);
    let (file, _) = walk(&tree);
    let m = match file {
        YangFile::Module(m) => m,
        YangFile::Submodule(_) => panic!("a module was walked"),
    };
    let choice = match &m.body[0] {
        SchemaNode::DataDef(DataDef::Choice(c)) => c,
        other => panic!("unexpected node {:?}", other),
    };
    assert_eq!(choice.name, "transport");
    assert_eq!(choice.default, Some("tcp".to_string()));
    assert_eq!(choice.mandatory, Some(true));
    assert_eq!(choice.cases.len(), 3);
    match &choice.cases[0] {
        Case::LongCase(l) => {
            assert_eq!(l.name, "tcp");
            assert_eq!(l.data_defs.len(), 1);
        }
        other => panic!("unexpected case {:?}", other),
    }
    assert!(matches!(&choice.cases[1], Case::ShortCase(ShortCase::Leaf(l)) if l.name == "pipe"));
    assert!(matches!(
        &choice.cases[2],
        Case::ShortCase(ShortCase::Choice(c)) if c.name == "inner"
    ));
}
