use vstd::hash_map::StringHashMap;
use yang_rs::resolver::ReferenceResolver;
use yang_rs::yang::{
    Action, Case, Choice, Container, DataDef, Grouping, Input, Leaf, List, LongCase, Module,
    Notification, Output, ReferenceNodes, Rpc, SchemaNode, ShortCase, Uses,
};

fn leaf(name: &str) -> DataDef {
    DataDef::Leaf(Leaf { name: name.to_string(), ..Leaf::default() })
}

fn uses(name: &str) -> DataDef {
    DataDef::Uses(Uses { grouping: name.to_string(), ..Uses::default() })
}

fn container(name: &str, data_defs: Vec<DataDef>) -> DataDef {
    DataDef::Container(Container { name: name.to_string(), data_defs, ..Container::default() })
}

fn grouping(name: &str, data_defs: Vec<DataDef>) -> Grouping {
    Grouping { name: name.to_string(), data_defs, ..Grouping::default() }
}

fn tables(groupings: Vec<(&str, Grouping)>) -> ReferenceNodes {
    let mut nodes = ReferenceNodes::new();
    for (key, g) in groupings {
        nodes.add_grouping(key.to_string(), g);
    }
    nodes
}

fn local_resolver(groupings: Vec<(&str, Grouping)>) -> ReferenceResolver {
    ReferenceResolver::new(tables(groupings), StringHashMap::new(), StringHashMap::new())
}

fn module(body: Vec<DataDef>) -> Module {
    Module {
        name: "m".to_string(),
        body: body.into_iter().map(SchemaNode::DataDef).collect(),
        ..Module::default()
    }
}

fn body_defs(module: &Module) -> Vec<DataDef> {
    module
        .body
        .iter()
        .map(|n| match n {
            SchemaNode::DataDef(d) => d.clone(),
            other => panic!("unexpected node {:?}", other),
        })
        .collect()
}

#[test]
fn order_preservation() {
    let resolver = local_resolver(vec![
        ("/g", grouping("g", vec![leaf("g1"), leaf("g2")])),
        ("/h", grouping("h", vec![leaf("h1")])),
        ("/empty", grouping("empty", vec![])),
    ]);
    let mut m = module(vec![container(
        "c",
        vec![leaf("a"), uses("g"), leaf("b"), uses("empty"), uses("h"), uses("g"), leaf("z")],
    )]);
    resolver.resolve_references(&mut m);
    assert_eq!(
        body_defs(&m),
        vec![container(
            "c",
            vec![
                leaf("a"),
                leaf("g1"),
                leaf("g2"),
                leaf("b"),
                leaf("h1"),
                leaf("g1"),
                leaf("g2"),
                leaf("z")
            ]
        )]
    );
}

#[test]
fn uses_inside_a_grouping_is_resolved_where_the_grouping_is_used() {
    let resolver = local_resolver(vec![
        ("/outer", grouping("outer", vec![leaf("first"), uses("inner"), leaf("last")])),
        ("/inner", grouping("inner", vec![leaf("middle"), container("box", vec![uses("tiny")])])),
        ("/tiny", grouping("tiny", vec![leaf("t")])),
    ]);
    let mut m = module(vec![uses("outer")]);
    resolver.resolve_references(&mut m);
    assert_eq!(
        body_defs(&m),
        vec![leaf("first"), leaf("middle"), container("box", vec![leaf("t")]), leaf("last")]
    );
}

#[test]
fn no_uses_after_resolve_when_every_grouping_is_found() {
    let resolver = local_resolver(vec![
        ("/g", grouping("g", vec![leaf("x"), uses("h")])),
        ("/h", grouping("h", vec![container("k", vec![uses("i")])])),
        ("/i", grouping("i", vec![leaf("y")])),
    ]);
    let mut m = module(vec![uses("g"), container("c", vec![uses("h"), uses("i")])]);
    resolver.resolve_references(&mut m);
    fn holds_uses(defs: &Vec<DataDef>) -> bool {
        defs.iter().any(|d| match d {
            DataDef::Uses(_) => true,
            DataDef::Container(c) => holds_uses(&c.data_defs),
            DataDef::List(l) => holds_uses(&l.data_defs),
            _ => false,
        })
    }
    assert!(!holds_uses(&body_defs(&m)));
}

#[test]
fn idempotent_resolve() {
    let resolver = local_resolver(vec![("/g", grouping("g", vec![leaf("x"), uses("absent")]))]);
    let mut m = module(vec![uses("g"), container("c", vec![uses("g"), leaf("y")])]);
    resolver.resolve_references(&mut m);
    let once = m.clone();
    resolver.resolve_references(&mut m);
    assert_eq!(m, once);
    let mut plain = module(vec![leaf("a"), container("c", vec![leaf("b")])]);
    let before = plain.clone();
    resolver.resolve_references(&mut plain);
    assert_eq!(plain, before);
}

#[test]
fn lexical_shadowing() {
    let resolver = local_resolver(vec![
        ("/g", grouping("g", vec![leaf("outer")])),
        ("/c/g", grouping("g", vec![leaf("inner")])),
    ]);
    assert_eq!(resolver.find_grouping("g", "/c/").unwrap().data_defs, vec![leaf("inner")]);
    assert_eq!(resolver.find_grouping("g", "/").unwrap().data_defs, vec![leaf("outer")]);
    assert_eq!(resolver.find_grouping("g", "/d/").unwrap().data_defs, vec![leaf("outer")]);
    assert_eq!(resolver.find_grouping("g", "/c/deep/er/").unwrap().data_defs, vec![leaf("inner")]);
    assert!(resolver.find_grouping("h", "/c/").is_none());
}

#[test]
fn lookup_does_not_descend() {
    let resolver = local_resolver(vec![("/c/g", grouping("g", vec![leaf("inner")]))]);
    assert!(resolver.find_grouping("g", "/").is_none());
    assert!(resolver.find_grouping("g", "/d/").is_none());
    assert!(resolver.find_grouping("g", "/c/").is_some());
}

#[test]
fn prefix_symmetry() {
    let mut imported: StringHashMap<ReferenceNodes> = StringHashMap::new();
    imported.insert(
        "lib".to_string(),
        tables(vec![
            ("/g", grouping("g", vec![leaf("from-lib")])),
            ("/c/nested", grouping("nested", vec![leaf("hidden")])),
        ]),
    );
    let mut prefixes: StringHashMap<String> = StringHashMap::new();
    prefixes.insert("p".to_string(), "lib".to_string());
    prefixes.insert("dangling".to_string(), "nowhere".to_string());
    let importer = ReferenceResolver::new(
        tables(vec![("/g", grouping("g", vec![leaf("own")]))]),
        imported,
        prefixes,
    );
    let inside_lib = local_resolver(vec![
        ("/g", grouping("g", vec![leaf("from-lib")])),
        ("/c/nested", grouping("nested", vec![leaf("hidden")])),
    ]);
    assert_eq!(
        importer.find_grouping("p:g", "/some/where/").map(|g| g.data_defs.clone()),
        inside_lib.find_grouping("g", "/").map(|g| g.data_defs.clone())
    );
    assert_eq!(importer.find_grouping("p:g", "/").unwrap().data_defs, vec![leaf("from-lib")]);
    assert_eq!(importer.find_grouping("g", "/").unwrap().data_defs, vec![leaf("own")]);
    assert!(importer.find_grouping("p:nested", "/c/").is_none());
    assert!(importer.find_grouping("q:g", "/").is_none());
    assert!(importer.find_grouping("dangling:g", "/").is_none());
    assert!(importer.find_grouping("p:", "/").is_none());
}

#[test]
fn only_the_first_colon_parts_prefix_and_name() {
    let mut imported: StringHashMap<ReferenceNodes> = StringHashMap::new();
    imported.insert("lib".to_string(), tables(vec![("/a:b", grouping("a:b", vec![leaf("odd")]))]));
    let mut prefixes: StringHashMap<String> = StringHashMap::new();
    prefixes.insert("p".to_string(), "lib".to_string());
    let resolver = ReferenceResolver::new(ReferenceNodes::new(), imported, prefixes);
    assert_eq!(resolver.find_grouping("p:a:b", "/").unwrap().data_defs, vec![leaf("odd")]);
}

#[test]
fn scopes_of_lists_actions_and_notifications() {
    let resolver = local_resolver(vec![
        ("/l/g", grouping("g", vec![leaf("in-list")])),
        ("/l/act/input/g", grouping("g", vec![leaf("in-input")])),
        ("/l/act/g", grouping("g", vec![leaf("in-action")])),
        ("/l/note/g", grouping("g", vec![leaf("in-notification")])),
    ]);
    let list = List {
        name: "l".to_string(),
        data_defs: vec![uses("g")],
        actions: vec![Action {
            name: "act".to_string(),
            input: Some(Input { must: vec![], data_defs: vec![uses("g")] }),
            output: Some(Output { must: vec![], data_defs: vec![uses("g")] }),
            ..Action::default()
        }],
        notifications: vec![Notification {
            name: "note".to_string(),
            data_defs: vec![uses("g")],
            ..Notification::default()
        }],
        ..List::default()
    };
    let mut m = module(vec![DataDef::List(list)]);
    resolver.resolve_references(&mut m);
    let resolved = match &m.body[0] {
        SchemaNode::DataDef(DataDef::List(l)) => l.clone(),
        other => panic!("unexpected node {:?}", other),
    };
    assert_eq!(resolved.data_defs, vec![leaf("in-list")]);
    assert_eq!(resolved.actions[0].input.as_ref().unwrap().data_defs, vec![leaf("in-input")]);
    assert_eq!(resolved.actions[0].output.as_ref().unwrap().data_defs, vec![leaf("in-action")]);
    assert_eq!(resolved.notifications[0].data_defs, vec![leaf("in-notification")]);
}

#[test]
fn choices_and_cases_open_no_scope() {
    let resolver = local_resolver(vec![
        ("/g", grouping("g", vec![leaf("top")])),
        ("/ch/g", grouping("g", vec![leaf("never")])),
        ("/box/g", grouping("g", vec![leaf("in-box")])),
    ]);
    let choice = Choice {
        name: "ch".to_string(),
        cases: vec![
            Case::LongCase(LongCase {
                name: "long".to_string(),
                data_defs: vec![uses("g")],
                ..LongCase::default()
            }),
            Case::ShortCase(ShortCase::Container(Container {
                name: "box".to_string(),
                data_defs: vec![uses("g")],
                ..Container::default()
            })),
            Case::ShortCase(ShortCase::Leaf(Leaf { name: "plain".to_string(), ..Leaf::default() })),
        ],
        ..Choice::default()
    };
    let mut m = module(vec![DataDef::Choice(choice)]);
    resolver.resolve_references(&mut m);
    let resolved = match &m.body[0] {
        SchemaNode::DataDef(DataDef::Choice(c)) => c.clone(),
        other => panic!("unexpected node {:?}", other),
    };
    match &resolved.cases[0] {
        Case::LongCase(l) => assert_eq!(l.data_defs, vec![leaf("top")]),
        other => panic!("unexpected case {:?}", other),
    }
    match &resolved.cases[1] {
        Case::ShortCase(ShortCase::Container(c)) => assert_eq!(c.data_defs, vec![leaf("in-box")]),
        other => panic!("unexpected case {:?}", other),
    }
    assert!(matches!(&resolved.cases[2], Case::ShortCase(ShortCase::Leaf(l)) if l.name == "plain"));
}

#[test]
fn rpcs_and_notifications_at_the_top_open_their_scope() {
    let resolver = local_resolver(vec![
        ("/call/input/g", grouping("g", vec![leaf("in")])),
        ("/call/output/g", grouping("g", vec![leaf("out")])),
        ("/event/g", grouping("g", vec![leaf("ev")])),
    ]);
    let mut m = Module {
        body: vec![
            SchemaNode::Rpc(Rpc {
                name: "call".to_string(),
                input: Some(Input { must: vec![], data_defs: vec![uses("g")] }),
                output: Some(Output { must: vec![], data_defs: vec![uses("g")] }),
                ..Rpc::default()
            }),
            SchemaNode::Notification(Notification {
                name: "event".to_string(),
                data_defs: vec![uses("g")],
                ..Notification::default()
            }),
        ],
        ..Module::default()
    };
    resolver.resolve_references(&mut m);
    match &m.body[0] {
        SchemaNode::Rpc(r) => {
            assert_eq!(r.input.as_ref().unwrap().data_defs, vec![leaf("in")]);
            assert_eq!(r.output.as_ref().unwrap().data_defs, vec![leaf("out")]);
        }
        other => panic!("unexpected node {:?}", other),
    }
    match &m.body[1] {
        SchemaNode::Notification(n) => assert_eq!(n.data_defs, vec![leaf("ev")]),
        other => panic!("unexpected node {:?}", other),
    }
}

#[test]
fn a_grouping_that_uses_itself_is_expanded_once() {
    let resolver =
        local_resolver(vec![("/g", grouping("g", vec![leaf("x"), uses("g"), uses("g")]))]);
    let mut m = module(vec![uses("g")]);
    resolver.resolve_references(&mut m);
    assert_eq!(body_defs(&m), vec![leaf("x"), uses("g"), uses("g")]);
}

#[test]
fn groupings_that_use_each_other_end() {
    let resolver = local_resolver(vec![
        ("/a", grouping("a", vec![leaf("in-a"), container("box", vec![uses("b")])])),
        ("/b", grouping("b", vec![leaf("in-b"), uses("a")])),
    ]);
    let mut m = module(vec![uses("a"), uses("b")]);
    resolver.resolve_references(&mut m);
    assert_eq!(
        body_defs(&m),
        vec![
            leaf("in-a"),
            container("box", vec![leaf("in-b"), uses("a")]),
            leaf("in-b"),
            leaf("in-a"),
            container("box", vec![uses("b")]),
        ]
    );
}

#[test]
fn the_same_grouping_may_be_used_side_by_side() {
    let resolver = local_resolver(vec![
        ("/pair", grouping("pair", vec![uses("one"), uses("one")])),
        ("/one", grouping("one", vec![leaf("x")])),
    ]);
    let mut m = module(vec![uses("pair"), uses("pair")]);
    resolver.resolve_references(&mut m);
    assert_eq!(body_defs(&m), vec![leaf("x"), leaf("x"), leaf("x"), leaf("x")]);
}

fn chain(count: usize) -> ReferenceResolver {
    let names: Vec<String> = (0..count).map(|i| format!("g{}", i)).collect();
    let keys: Vec<String> = names.iter().map(|n| format!("/{}", n)).collect();
    let mut groupings = Vec::new();
    for i in 0..count {
        let mut defs = vec![leaf(&format!("l{}", i))];
        if i + 1 < count {
            defs.push(uses(&names[i + 1]));
        }
        groupings.push((keys[i].as_str(), grouping(&names[i], defs)));
    }
    local_resolver(groupings)
}

#[test]
fn expansions_nest_as_deep_as_the_groupings_go() {
    let count = 200;
    let resolver = chain(count);
    let mut m = module(vec![uses("g0")]);
    resolver.resolve_references(&mut m);
    let defs = body_defs(&m);
    assert_eq!(defs.len(), count);
    for (i, d) in defs.iter().enumerate() {
        assert_eq!(d, &leaf(&format!("l{}", i)));
    }
}

#[test]
fn a_second_run_changes_nothing_on_a_long_chain() {
    let resolver = chain(65);
    let mut m = module(vec![uses("g0"), container("c", vec![uses("g64"), uses("absent")])]);
    resolver.resolve_references(&mut m);
    let once = m.clone();
    resolver.resolve_references(&mut m);
    assert_eq!(m, once);
    assert_eq!(body_defs(&m).len(), 66);
}

#[test]
fn locating_a_grouping() {
    let mut imported: StringHashMap<ReferenceNodes> = StringHashMap::new();
    imported.insert("lib".to_string(), tables(vec![("/g", grouping("g", vec![leaf("far")]))]));
    let mut prefixes: StringHashMap<String> = StringHashMap::new();
    prefixes.insert("p".to_string(), "lib".to_string());
    let resolver = ReferenceResolver::new(
        tables(vec![("/c/g", grouping("g", vec![leaf("near")]))]),
        imported,
        prefixes,
    );
    let near = resolver.locate_grouping("g", "/c/d/").unwrap();
    assert_eq!((near.module.clone(), near.key.as_str()), (None, "/c/g"));
    assert_eq!(resolver.grouping_at(&near).data_defs, vec![leaf("near")]);
    let far = resolver.locate_grouping("p:g", "/c/d/").unwrap();
    assert_eq!((far.module.clone(), far.key.as_str()), (Some("lib".to_string()), "/g"));
    assert_eq!(resolver.grouping_at(&far).data_defs, vec![leaf("far")]);
    assert_eq!(resolver.locate_grouping("g", "/"), None);
}

#[test]
fn everything_but_the_data_definitions_stays() {
    let resolver = local_resolver(vec![("/g", grouping("g", vec![leaf("x")]))]);
    let c = Container {
        name: "c".to_string(),
        presence: Some("here".to_string()),
        config: Some(true),
        description: Some("a container".to_string()),
        if_features: vec!["f1".to_string(), "f2".to_string()],
        data_defs: vec![uses("g")],
        ..Container::default()
    };
    let mut m = Module {
        name: "m".to_string(),
        namespace: "u:m".to_string(),
        prefix: "mp".to_string(),
        body: vec![SchemaNode::DataDef(DataDef::Container(c.clone()))],
        ..Module::default()
    };
    resolver.resolve_references(&mut m);
    assert_eq!(m.name, "m");
    assert_eq!(m.namespace, "u:m");
    assert_eq!(m.prefix, "mp");
    let expected = Container { data_defs: vec![leaf("x")], ..c };
    assert_eq!(m.body, vec![SchemaNode::DataDef(DataDef::Container(expected))]);
}

#[test]
fn lookup_from_a_path_that_is_no_scope_path_ends() {
    let resolver = local_resolver(vec![
        ("/g", grouping("g", vec![leaf("top")])),
        ("c/g", grouping("g", vec![leaf("odd")])),
    ]);
    assert_eq!(resolver.find_grouping("g", "c/").unwrap().data_defs, vec![leaf("odd")]);
    assert!(resolver.find_grouping("h", "c/").is_none());
    assert!(resolver.find_grouping("g", "/a/b").is_none());
    assert!(resolver.find_grouping("g", "").is_none());
    assert!(resolver.find_grouping("g", "x").is_none());
    assert!(resolver.find_grouping("", "").is_none());
    assert_eq!(resolver.find_grouping("g", "//").unwrap().data_defs, vec![leaf("top")]);
}
