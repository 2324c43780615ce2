use yang_rs::error::ParserError;
use yang_rs::load::{parse, SourceFile};
use yang_rs::grammar::Rule;
use yang_rs::module_loader::{ModuleLoader, Step};
use yang_rs::tree::ParseTree;
use yang_rs::yang::{DataDef, SchemaNode, YangFile};

fn token(rule: Rule, text: &str) -> ParseTree {
    ParseTree::new(rule, text.to_string(), Vec::new())
}

fn node(rule: Rule, children: Vec<ParseTree>) -> ParseTree {
    ParseTree::new(rule, String::new(), children)
}

fn string(text: &str) -> ParseTree {
    node(Rule::String, vec![token(Rule::UnquotedString, text)])
}

fn keyword(rule: Rule, text: &str) -> ParseTree {
    node(rule, vec![string(text)])
}

fn type_info(name: &str) -> ParseTree {
    node(Rule::TypeInfo, vec![string(name)])
}

fn data_def(statement: ParseTree) -> ParseTree {
    node(Rule::DataDef, vec![statement])
}

fn body(statement: ParseTree) -> ParseTree {
    node(Rule::Body, vec![statement])
}

fn leaf(name: &str, type_of_leaf: &str) -> ParseTree {
    data_def(node(Rule::Leaf, vec![string(name), type_info(type_of_leaf)]))
}

fn uses(name: &str) -> ParseTree {
    data_def(node(Rule::Uses, vec![string(name)]))
}

fn container(name: &str, mut children: Vec<ParseTree>) -> ParseTree {
    let mut all = vec![string(name)];
    all.append(&mut children);
    data_def(node(Rule::Container, all))
}

fn grouping(name: &str, mut children: Vec<ParseTree>) -> ParseTree {
    let mut all = vec![string(name)];
    all.append(&mut children);
    node(Rule::Grouping, all)
}

fn module(name: &str, mut rest: Vec<ParseTree>) -> ParseTree {
    let mut all = vec![
        string(name),
        keyword(Rule::Namespace, &format!("u:{}", name)),
        keyword(Rule::Prefix, name),
    ];
    all.append(&mut rest);
    node(Rule::Module, all)
}

fn submodule(name: &str, belongs_to: &str, prefix: &str, mut rest: Vec<ParseTree>) -> ParseTree {
    let mut all = vec![
        string(name),
        node(Rule::BelongsTo, vec![string(belongs_to), keyword(Rule::Prefix, prefix)]),
    ];
    all.append(&mut rest);
    node(Rule::Submodule, all)
}

fn import(module: &str, prefix: &str) -> ParseTree {
    node(Rule::Import, vec![string(module), keyword(Rule::Prefix, prefix)])
}

fn inclusion(module: &str) -> ParseTree {
    node(Rule::Include, vec![string(module)])
}

/// Loads `entry` with the files `files` beside it.
fn load(entry: ParseTree, files: Vec<(&str, ParseTree)>) -> Result<YangFile, ParserError> {
    assert!(entry.conforms());
    let files: Vec<SourceFile> = files
        .into_iter()
        .map(|(name, tree)| {
            assert!(tree.conforms());
            SourceFile { name: name.to_string(), tree }
        })
        .collect();
    parse(&entry, &files)
}

/// Drives a load step by step, as a driver would over a directory.
fn drive(entry: ParseTree, files: Vec<(&str, ParseTree)>) -> Result<YangFile, ParserError> {
    assert!(entry.conforms());
    let mut loader = ModuleLoader::new();
    loader.load_entry(&entry)?;
    let mut steps = 0;
    loop {
        steps += 1;
        assert!(steps < 10_000, "the load does not end");
        match loader.step() {
            Step::Continue => {}
            Step::Finished => break,
            Step::ReadSubmodule(file) | Step::ReadModule(file) => {
                match files.iter().find(|(name, _)| *name == file) {
                    Some((name, tree)) => {
                        assert!(tree.conforms());
                        loader.supply(format!("dir/{}", name), tree)?;
                    }
                    None => return Err(ParserError::InvalidFile(file)),
                }
            }
        }
    }
    Ok(loader.finish())
}

fn body_of(file: YangFile) -> Vec<SchemaNode> {
    match file {
        YangFile::Module(m) => m.body,
        YangFile::Submodule(_) => panic!("a load gives a module"),
    }
}

#[test]
fn minimal_module() {
    let entry = module("m", vec![body(leaf("hostname", "string"))]);
    let file = load(entry, vec![]).unwrap();
    let module = match file {
        YangFile::Module(m) => m,
        YangFile::Submodule(_) => panic!("a load gives a module"),
    };
    assert_eq!(module.name, "m");
    assert_eq!(module.namespace, "u:m");
    assert_eq!(module.prefix, "m");
    assert_eq!(module.body.len(), 1);
    match &module.body[0] {
        SchemaNode::DataDef(DataDef::Leaf(l)) => {
            assert_eq!(l.name, "hostname");
            assert_eq!(l.type_info.name, "string");
        }
        other => panic!("unexpected node {:?}", other),
    }
}

fn data_defs_of_container(node: &SchemaNode) -> &Vec<DataDef> {
    match node {
        SchemaNode::DataDef(DataDef::Container(c)) => &c.data_defs,
        other => panic!("not a container: {:?}", other),
    }
}

fn leaf_name(def: &DataDef) -> &str {
    match def {
        DataDef::Leaf(l) => &l.name,
        other => panic!("not a leaf: {:?}", other),
    }
}

#[test]
fn local_grouping() {
    let entry = module(
        "m",
        vec![
            body(grouping("g", vec![leaf("x", "int32")])),
            body(container("c", vec![uses("g")])),
        ],
    );
    let nodes = body_of(load(entry, vec![]).unwrap());
    assert_eq!(nodes.len(), 1);
    let defs = data_defs_of_container(&nodes[0]);
    assert_eq!(defs.len(), 1);
    match &defs[0] {
        DataDef::Leaf(l) => {
            assert_eq!(l.name, "x");
            assert_eq!(l.type_info.name, "int32");
        }
        other => panic!("unexpected node {:?}", other),
    }
}

#[test]
fn nested_lexical_resolution() {
    let entry = module(
        "m",
        vec![
            body(grouping("g", vec![leaf("outer", "string")])),
            body(container(
                "c",
                vec![
                    grouping("g", vec![leaf("inner", "string")]),
                    container("d", vec![uses("g")]),
                ],
            )),
        ],
    );
    let nodes = body_of(load(entry, vec![]).unwrap());
    let c = data_defs_of_container(&nodes[0]);
    assert_eq!(c.len(), 1);
    let d = match &c[0] {
        DataDef::Container(d) => d,
        other => panic!("unexpected node {:?}", other),
    };
    assert_eq!(d.name, "d");
    assert_eq!(d.data_defs.len(), 1);
    assert_eq!(leaf_name(&d.data_defs[0]), "inner");
}

#[test]
fn uses_outside_the_container_takes_the_outer_grouping() {
    let entry = module(
        "m",
        vec![
            body(grouping("g", vec![leaf("outer", "string")])),
            body(container("c", vec![grouping("g", vec![leaf("inner", "string")]), uses("g")])),
            body(container("other", vec![uses("g")])),
            body(uses("g")),
        ],
    );
    let nodes = body_of(load(entry, vec![]).unwrap());
    assert_eq!(nodes.len(), 3);
    assert_eq!(leaf_name(&data_defs_of_container(&nodes[0])[0]), "inner");
    assert_eq!(leaf_name(&data_defs_of_container(&nodes[1])[0]), "outer");
    match &nodes[2] {
        SchemaNode::DataDef(d) => assert_eq!(leaf_name(d), "outer"),
        other => panic!("unexpected node {:?}", other),
    }
}

#[test]
fn merge_of_a_submodule() {
    let entry = module("main", vec![inclusion("sub"), body(leaf("own", "string"))]);
    let sub = submodule(
        "sub",
        "main",
        "mn",
        vec![
            body(container("x", vec![])),
            body(grouping("g", vec![leaf("a", "string"), leaf("b", "string")])),
            body(uses("g")),
        ],
    );
    let nodes = body_of(load(entry, vec![("sub.yang", sub)]).unwrap());
    assert_eq!(nodes.len(), 4);
    match &nodes[0] {
        SchemaNode::DataDef(d) => assert_eq!(leaf_name(d), "own"),
        other => panic!("unexpected node {:?}", other),
    }
    match &nodes[1] {
        SchemaNode::DataDef(DataDef::Container(c)) => assert_eq!(c.name, "x"),
        other => panic!("unexpected node {:?}", other),
    }
    match (&nodes[2], &nodes[3]) {
        (SchemaNode::DataDef(a), SchemaNode::DataDef(b)) => {
            assert_eq!(leaf_name(a), "a");
            assert_eq!(leaf_name(b), "b");
        }
        other => panic!("unexpected nodes {:?}", other),
    }
}

#[test]
fn nested_submodules_are_merged_before_the_one_that_names_them() {
    let entry = module("main", vec![inclusion("first"), inclusion("second")]);
    let first = submodule(
        "first",
        "main",
        "mn",
        vec![inclusion("inner"), body(leaf("from-first", "string"))],
    );
    let inner = submodule("inner", "main", "mn", vec![body(leaf("from-inner", "string"))]);
    let second = submodule("second", "main", "mn", vec![body(leaf("from-second", "string"))]);
    let nodes = body_of(
        load(
            entry,
            vec![("first.yang", first), ("inner.yang", inner), ("second.yang", second)],
        )
        .unwrap(),
    );
    let names: Vec<&str> = nodes
        .iter()
        .map(|n| match n {
            SchemaNode::DataDef(d) => leaf_name(d),
            other => panic!("unexpected node {:?}", other),
        })
        .collect();
    assert_eq!(names, vec!["from-inner", "from-first", "from-second"]);
}

#[test]
fn a_submodule_named_twice_is_merged_once() {
    let entry = module("main", vec![inclusion("a"), inclusion("b")]);
    let a = submodule("a", "main", "mn", vec![inclusion("b"), body(leaf("in-a", "string"))]);
    let b = submodule("b", "main", "mn", vec![inclusion("a"), body(leaf("in-b", "string"))]);
    let nodes = body_of(load(entry, vec![("a.yang", a), ("b.yang", b)]).unwrap());
    let names: Vec<&str> = nodes
        .iter()
        .map(|n| match n {
            SchemaNode::DataDef(d) => leaf_name(d),
            other => panic!("unexpected node {:?}", other),
        })
        .collect();
    assert_eq!(names, vec!["in-b", "in-a"]);
}

#[test]
fn submodule_prefix_is_stripped_from_uses() {
    let entry = module(
        "main",
        vec![inclusion("sub"), body(grouping("g", vec![leaf("v", "string")]))],
    );
    let sub = submodule(
        "sub",
        "main",
        "mn",
        vec![
            body(container("with-prefix", vec![uses("mn:g")])),
            body(container("bare", vec![uses("g")])),
        ],
    );
    let nodes = body_of(load(entry, vec![("sub.yang", sub)]).unwrap());
    assert_eq!(nodes.len(), 2);
    assert_eq!(data_defs_of_container(&nodes[0]), data_defs_of_container(&nodes[1]));
    assert_eq!(leaf_name(&data_defs_of_container(&nodes[0])[0]), "v");
}

#[test]
fn cross_module_import() {
    let a = module("a", vec![import("b", "bp"), body(container("c", vec![uses("bp:gb")]))]);
    let b = module("b", vec![body(grouping("gb", vec![leaf("v", "string")]))]);
    let nodes = body_of(load(a, vec![("b.yang", b)]).unwrap());
    assert_eq!(nodes.len(), 1);
    let defs = data_defs_of_container(&nodes[0]);
    assert_eq!(defs.len(), 1);
    assert_eq!(leaf_name(&defs[0]), "v");
}

#[test]
fn imported_grouping_must_be_at_the_top_of_its_module() {
    let a = module("a", vec![import("b", "bp"), body(container("c", vec![uses("bp:deep")]))]);
    let b = module(
        "b",
        vec![body(container("holder", vec![grouping("deep", vec![leaf("v", "string")])]))],
    );
    let nodes = body_of(load(a, vec![("b.yang", b)]).unwrap());
    let defs = data_defs_of_container(&nodes[0]);
    assert_eq!(defs.len(), 1);
    assert!(matches!(&defs[0], DataDef::Uses(u) if u.grouping == "bp:deep"));
}

#[test]
fn imports_that_form_a_cycle_end() {
    let a = module("a", vec![import("b", "bp"), body(container("c", vec![uses("bp:gb")]))]);
    let b = module(
        "b",
        vec![
            import("a", "ap"),
            import("b", "self"),
            body(grouping("gb", vec![leaf("v", "string")])),
        ],
    );
    let nodes = body_of(load(a, vec![("b.yang", b)]).unwrap());
    assert_eq!(leaf_name(&data_defs_of_container(&nodes[0])[0]), "v");
}

#[test]
fn one_module_under_two_prefixes() {
    let a = module(
        "a",
        vec![
            import("b", "one"),
            import("b", "two"),
            body(container("c", vec![uses("one:gb"), uses("two:gb")])),
        ],
    );
    let b = module("b", vec![body(grouping("gb", vec![leaf("v", "string")]))]);
    let nodes = body_of(load(a, vec![("b.yang", b)]).unwrap());
    let defs = data_defs_of_container(&nodes[0]);
    assert_eq!(defs.len(), 2);
    assert_eq!(leaf_name(&defs[0]), "v");
    assert_eq!(leaf_name(&defs[1]), "v");
}

#[test]
fn unresolved_uses_tolerated() {
    let entry = module("m", vec![body(uses("missing")), body(container("c", vec![uses("gone")]))]);
    let nodes = body_of(load(entry, vec![]).unwrap());
    assert_eq!(nodes.len(), 2);
    assert!(matches!(&nodes[0], SchemaNode::DataDef(DataDef::Uses(u)) if u.grouping == "missing"));
    let defs = data_defs_of_container(&nodes[1]);
    assert!(matches!(&defs[0], DataDef::Uses(u) if u.grouping == "gone"));
}

#[test]
fn entry_must_be_a_module() {
    let entry = submodule("s", "m", "mp", vec![]);
    assert_eq!(load(entry, vec![]), Err(ParserError::InvalidParserEntrypoint));
}

#[test]
fn merged_file_must_be_a_submodule() {
    let entry = module("main", vec![inclusion("other")]);
    let other = module("other", vec![]);
    assert_eq!(
        load(entry, vec![("other.yang", other)]),
        Err(ParserError::InvalidInclude("other.yang".to_string()))
    );
}

#[test]
fn imported_file_must_be_a_module() {
    let entry = module("main", vec![import("other", "o")]);
    let other = submodule("other", "main", "mn", vec![]);
    assert_eq!(
        load(entry, vec![("other.yang", other)]),
        Err(ParserError::InvalidImport("other.yang".to_string()))
    );
}

#[test]
fn the_loader_asks_for_files_by_name() {
    let entry = module("main", vec![inclusion("part"), import("lib", "l")]);
    let mut loader = ModuleLoader::new();
    loader.load_entry(&entry).unwrap();
    assert_eq!(loader.step(), Step::ReadSubmodule("part.yang".to_string()));
    loader.supply("part.yang".to_string(), &submodule("part", "main", "mn", vec![])).unwrap();
    assert_eq!(loader.step(), Step::Continue);
    assert_eq!(loader.step(), Step::Continue);
    assert_eq!(loader.step(), Step::ReadModule("lib.yang".to_string()));
    loader.supply("lib.yang".to_string(), &module("lib", vec![])).unwrap();
    assert_eq!(loader.step(), Step::Continue);
    assert_eq!(loader.step(), Step::Finished);
    assert_eq!(loader.step(), Step::Finished);
    assert!(loader.imported_modules.contains_key("lib"));
    assert_eq!(loader.prefix_to_module.get("l"), Some(&"lib".to_string()));
}

#[test]
fn error_messages() {
    assert_eq!(
        ParserError::InvalidParserEntrypoint.message(),
        "entrypoint must be a YANG module, not submodule"
    );
    assert_eq!(
        ParserError::ParseError("line 3".to_string()).message(),
        "invalid YANG file: line 3"
    );
    assert_eq!(
        ParserError::InvalidFile("dir/x.yang".to_string()).message(),
        "invalid input file: dir/x.yang"
    );
    assert_eq!(
        ParserError::InvalidInclude("dir/x.yang".to_string()).message(),
        "included file has to be a submodule, not module: dir/x.yang"
    );
    assert_eq!(
        ParserError::InvalidImport("dir/y.yang".to_string()).message(),
        "imported file has to be a module, not submodule: dir/y.yang"
    );
}

#[test]
fn a_file_that_is_not_there() {
    let entry = module("main", vec![import("absent", "a")]);
    assert_eq!(load(entry, vec![]), Err(ParserError::InvalidFile("absent.yang".to_string())));
    let entry = module("main", vec![inclusion("part")]);
    let other = module("other", vec![]);
    assert_eq!(
        load(entry, vec![("other.yang", other)]),
        Err(ParserError::InvalidFile("part.yang".to_string()))
    );
}

#[test]
fn the_first_file_of_a_name_counts() {
    let entry = module("a", vec![import("b", "bp"), body(container("c", vec![uses("bp:g")]))]);
    let first = module("b", vec![body(grouping("g", vec![leaf("first", "string")]))]);
    let second = module("b", vec![body(grouping("g", vec![leaf("second", "string")]))]);
    let nodes = body_of(load(entry, vec![("b.yang", first), ("b.yang", second)]).unwrap());
    assert_eq!(leaf_name(&data_defs_of_container(&nodes[0])[0]), "first");
}

#[test]
fn a_driver_gives_the_path_of_a_wrong_file() {
    let entry = module("main", vec![inclusion("other")]);
    let other = module("other", vec![]);
    assert_eq!(
        drive(entry, vec![("other.yang", other)]),
        Err(ParserError::InvalidInclude("dir/other.yang".to_string()))
    );
    let entry = module("main", vec![import("other", "o")]);
    let other = submodule("other", "main", "mn", vec![]);
    assert_eq!(
        drive(entry, vec![("other.yang", other)]),
        Err(ParserError::InvalidImport("dir/other.yang".to_string()))
    );
}

#[test]
fn a_driver_and_the_load_from_memory_agree() {
    let make = || {
        let a = module(
            "a",
            vec![
                inclusion("part"),
                import("b", "bp"),
                body(container("c", vec![uses("bp:gb"), uses("local")])),
            ],
        );
        let part = submodule(
            "part",
            "a",
            "ap",
            vec![body(grouping("local", vec![leaf("l", "string")])), body(uses("ap:local"))],
        );
        let b = module(
            "b",
            vec![import("a", "back"), body(grouping("gb", vec![leaf("v", "string")]))],
        );
        (a, vec![("part.yang", part), ("b.yang", b)])
    };
    let (entry, files) = make();
    let driven = drive(entry, files).unwrap();
    let (entry, files) = make();
    let loaded = load(entry, files).unwrap();
    assert_eq!(driven, loaded);
    let nodes = body_of(loaded);
    assert_eq!(nodes.len(), 2);
    let defs = data_defs_of_container(&nodes[0]);
    assert_eq!(leaf_name(&defs[0]), "v");
    assert_eq!(leaf_name(&defs[1]), "l");
}
