use pymodule::{Diagnostic, ErrorKind, ItemKind, Module, ModuleItem, Span};

fn registry_item(kind: ItemKind, ident: &str, name: &str) -> ModuleItem {
    ModuleItem::new(kind, ident.to_string(), name.to_string())
}

fn registry_guards(texts: &[&str]) -> Vec<String> {
    texts.iter().map(|text| text.to_string()).collect()
}

#[test]
fn new_registry_is_empty() {
    let module = Module::default();
    assert_eq!(module.len(), 0);
    assert!(!module.contains(&"foo".to_string(), &Vec::new()));
}

#[test]
fn item_accessors_give_the_parts() {
    let item = registry_item(ItemKind::EvaluatedAttr, "make_answer", "answer");
    assert_eq!(item.name(), "answer");
    assert_eq!(item.ident(), "make_answer");
    assert_eq!(item.kind(), ItemKind::EvaluatedAttr);
    assert_eq!(
        item,
        ModuleItem::EvaluatedAttr {
            item_ident: "make_answer".to_string(),
            py_name: "answer".to_string()
        }
    );
    assert_eq!(
        registry_item(ItemKind::Function, "f", "g"),
        ModuleItem::Function { item_ident: "f".to_string(), py_name: "g".to_string() }
    );
    assert_eq!(
        registry_item(ItemKind::Class, "T", "t"),
        ModuleItem::Class { item_ident: "T".to_string(), py_name: "t".to_string() }
    );
}

#[test]
fn insertion_appends_in_order() {
    let mut module = Module::default();
    assert_eq!(
        module.add_item(registry_item(ItemKind::Function, "a", "a"), Vec::new(), Span { id: 1 }),
        Ok(())
    );
    assert_eq!(
        module.add_item(registry_item(ItemKind::Class, "B", "b"), Vec::new(), Span { id: 2 }),
        Ok(())
    );
    assert_eq!(module.len(), 2);
    assert_eq!(module.get(0).item.name(), "a");
    assert_eq!(module.get(1).item.name(), "b");
    assert!(module.contains(&"a".to_string(), &Vec::new()));
    assert!(module.contains(&"b".to_string(), &Vec::new()));
    assert!(!module.contains(&"c".to_string(), &Vec::new()));
}

#[test]
fn second_insertion_under_same_key_fails() {
    let mut module = Module::default();
    let first = registry_item(ItemKind::Function, "first", "baz");
    let second = registry_item(ItemKind::Class, "Second", "baz");
    assert_eq!(module.add_item(first.clone(), Vec::new(), Span { id: 10 }), Ok(()));
    let failed = module.add_item(second, Vec::new(), Span { id: 20 });
    assert_eq!(
        failed,
        Err(Diagnostic {
            span: Span { id: 20 },
            kind: ErrorKind::Duplicate,
            message: "Duplicate #[py*] attribute on pymodule: baz".to_string(),
        })
    );
    assert_eq!(module.len(), 1);
    assert_eq!(module.get(0).item, first);
}

#[test]
fn second_insertion_under_same_guards_fails() {
    let mut module = Module::default();
    let guards = registry_guards(&["cfg(unix)", "cfg(feature = \"x\")"]);
    assert_eq!(
        module.add_item(
            registry_item(ItemKind::Function, "f", "name"),
            guards.clone(),
            Span { id: 1 }
        ),
        Ok(())
    );
    let failed = module
        .add_item(registry_item(ItemKind::Function, "g", "name"), guards.clone(), Span { id: 2 })
        .unwrap_err();
    assert_eq!(failed.kind, ErrorKind::Duplicate);
    assert_eq!(failed.span, Span { id: 2 });
    assert_eq!(failed.to_string(), "Duplicate #[py*] attribute on pymodule: name");
    assert_eq!(module.len(), 1);
    assert_eq!(module.get(0).cfgs, guards);
}

#[test]
fn different_guards_disambiguate() {
    let mut module = Module::default();
    let unix = registry_guards(&["cfg(unix)"]);
    let windows = registry_guards(&["cfg(windows)"]);
    assert_eq!(
        module.add_item(registry_item(ItemKind::Function, "f", "open"), unix.clone(), Span { id: 1 }),
        Ok(())
    );
    assert_eq!(
        module.add_item(
            registry_item(ItemKind::Function, "g", "open"),
            windows.clone(),
            Span { id: 2 }
        ),
        Ok(())
    );
    assert_eq!(
        module.add_item(registry_item(ItemKind::Function, "h", "open"), Vec::new(), Span { id: 3 }),
        Ok(())
    );
    assert_eq!(module.len(), 3);
    assert!(module.contains(&"open".to_string(), &unix));
    assert!(module.contains(&"open".to_string(), &windows));
    assert!(module.contains(&"open".to_string(), &Vec::new()));
    assert_eq!(module.get(0).item.ident(), "f");
    assert_eq!(module.get(1).item.ident(), "g");
    assert_eq!(module.get(2).item.ident(), "h");
}

#[test]
fn guard_order_is_part_of_the_key() {
    let mut module = Module::default();
    let one = registry_guards(&["cfg(unix)", "cfg(debug_assertions)"]);
    let other = registry_guards(&["cfg(debug_assertions)", "cfg(unix)"]);
    assert_eq!(
        module.add_item(registry_item(ItemKind::Class, "A", "t"), one.clone(), Span { id: 1 }),
        Ok(())
    );
    assert!(!module.contains(&"t".to_string(), &other));
    assert_eq!(
        module.add_item(registry_item(ItemKind::Class, "B", "t"), other, Span { id: 2 }),
        Ok(())
    );
    assert_eq!(module.len(), 2);
}

#[test]
fn a_prefix_of_the_guards_is_another_key() {
    let mut module = Module::default();
    let long = registry_guards(&["cfg(unix)", "cfg(debug_assertions)"]);
    let short = registry_guards(&["cfg(unix)"]);
    assert_eq!(
        module.add_item(registry_item(ItemKind::Class, "A", "t"), long, Span { id: 1 }),
        Ok(())
    );
    assert!(!module.contains(&"t".to_string(), &short));
    assert_eq!(
        module.add_item(registry_item(ItemKind::Class, "B", "t"), short, Span { id: 2 }),
        Ok(())
    );
}

#[test]
fn the_item_kind_is_no_part_of_the_key() {
    let mut module = Module::default();
    assert_eq!(
        module.add_item(registry_item(ItemKind::Function, "f", "x"), Vec::new(), Span { id: 1 }),
        Ok(())
    );
    assert!(module
        .add_item(registry_item(ItemKind::EvaluatedAttr, "g", "x"), Vec::new(), Span { id: 2 })
        .is_err());
    assert!(module
        .add_item(registry_item(ItemKind::Class, "H", "x"), Vec::new(), Span { id: 3 })
        .is_err());
    assert_eq!(module.len(), 1);
    assert_eq!(module.get(0).item.kind(), ItemKind::Function);
}

#[test]
fn failed_insertion_does_not_block_later_ones() {
    let mut module = Module::default();
    assert!(module
        .add_item(registry_item(ItemKind::Function, "f", "x"), Vec::new(), Span { id: 1 })
        .is_ok());
    assert!(module
        .add_item(registry_item(ItemKind::Function, "g", "x"), Vec::new(), Span { id: 2 })
        .is_err());
    assert!(module
        .add_item(registry_item(ItemKind::Function, "h", "y"), Vec::new(), Span { id: 3 })
        .is_ok());
    assert_eq!(module.len(), 2);
    assert_eq!(module.get(1).item.name(), "y");
}

#[test]
fn guard_lists_are_compared_text_by_text() {
    assert!(pymodule::registry::same_guards(&Vec::new(), &Vec::new()));
    assert!(pymodule::registry::same_guards(
        &registry_guards(&["cfg(unix)", "cfg(test)"]),
        &registry_guards(&["cfg(unix)", "cfg(test)"])
    ));
    assert!(!pymodule::registry::same_guards(
        &registry_guards(&["cfg(unix)", "cfg(test)"]),
        &registry_guards(&["cfg(test)", "cfg(unix)"])
    ));
    assert!(!pymodule::registry::same_guards(
        &registry_guards(&["cfg(unix)"]),
        &registry_guards(&["cfg(unix)", "cfg(unix)"])
    ));
    assert!(!pymodule::registry::same_guards(&registry_guards(&["cfg(unix)"]), &Vec::new()));
    assert!(!pymodule::registry::same_guards(
        &registry_guards(&["cfg(unix)"]),
        &registry_guards(&["cfg (unix)"])
    ));
}
