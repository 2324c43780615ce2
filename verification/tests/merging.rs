use yang_rs::module_loader::ModuleLoader;
use yang_rs::yang::{DataDef, Leaf, Module, Revision, SchemaNode, Submodule};

fn revision(date: &str, description: &str) -> Revision {
    Revision { date: date.to_string(), description: Some(description.to_string()), reference: None }
}

fn leaf_node(name: &str) -> SchemaNode {
    SchemaNode::DataDef(DataDef::Leaf(Leaf { name: name.to_string(), ..Leaf::default() }))
}

#[test]
fn revision_dedup() {
    let mut module = Module {
        name: "main".to_string(),
        revisions: vec![revision("2024-01-01", "main one"), revision("2023-01-01", "main two")],
        body: vec![leaf_node("a")],
        ..Module::default()
    };
    let submodule = Submodule {
        name: "sub".to_string(),
        revisions: vec![
            revision("2023-01-01", "sub one"),
            revision("2022-01-01", "sub two"),
            revision("2022-01-01", "sub three"),
        ],
        body: vec![leaf_node("b"), leaf_node("c")],
        ..Submodule::default()
    };
    ModuleLoader::merge_submodule_into_module(&submodule, &mut module);
    assert_eq!(
        module.revisions,
        vec![
            revision("2024-01-01", "main one"),
            revision("2023-01-01", "main two"),
            revision("2022-01-01", "sub two"),
        ]
    );
    assert_eq!(module.body, vec![leaf_node("a"), leaf_node("b"), leaf_node("c")]);
    assert_eq!(module.name, "main");
}

#[test]
fn merging_an_empty_submodule_changes_nothing() {
    let mut module = Module {
        name: "main".to_string(),
        revisions: vec![revision("2024-01-01", "one")],
        body: vec![leaf_node("a")],
        ..Module::default()
    };
    let before = module.clone();
    ModuleLoader::merge_submodule_into_module(&Submodule::default(), &mut module);
    assert_eq!(module, before);
}

#[test]
fn merging_twice_adds_the_body_twice_and_the_revisions_once() {
    let mut module = Module::default();
    let submodule = Submodule {
        revisions: vec![revision("2024-01-01", "one")],
        body: vec![leaf_node("b")],
        ..Submodule::default()
    };
    ModuleLoader::merge_submodule_into_module(&submodule, &mut module);
    ModuleLoader::merge_submodule_into_module(&submodule, &mut module);
    assert_eq!(module.revisions.len(), 1);
    assert_eq!(module.body.len(), 2);
}
