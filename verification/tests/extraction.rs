use pymodule::{
    def_to_name, meta_to_vec, resolve_external_name, Attribute, Diagnostic, ErrorKind, ItemIdent,
    ItemKind, ItemMeta, ItemType, Keyword, Lit, Meta, MetaForm, Module, ModuleItem, NameSet,
    NestedMeta, Span,
};

fn bare(name: &str, id: usize) -> Meta {
    Meta {
        span: Span { id },
        ident: Some(name.to_string()),
        form: MetaForm::Path,
        tokens: name.to_string(),
    }
}

fn listed(name: &str, nested: Vec<NestedMeta>, tokens: &str, id: usize) -> Meta {
    Meta {
        span: Span { id },
        ident: Some(name.to_string()),
        form: MetaForm::List(nested),
        tokens: tokens.to_string(),
    }
}

fn assigned(name: &str, value: &str, id: usize) -> Meta {
    Meta {
        span: Span { id },
        ident: Some(name.to_string()),
        form: MetaForm::NameValue(Lit::Str(value.to_string())),
        tokens: format!("{} = {:?}", name, value),
    }
}

fn pair(key: &str, value: &str) -> NestedMeta {
    NestedMeta::NameValue { ident: Some(key.to_string()), lit: Lit::Str(value.to_string()) }
}

fn word(key: &str) -> NestedMeta {
    NestedMeta::Path { ident: Some(key.to_string()) }
}

fn attached(meta: Meta) -> Attribute {
    Attribute { span: meta.span, meta: Some(meta) }
}

fn declaration(typ: ItemType, ident: &str, metas: Vec<Meta>) -> ItemIdent {
    ItemIdent { typ, attrs: metas.into_iter().map(attached).collect(), ident: ident.to_string() }
}

fn shape_text(keyword: &str) -> String {
    format!(
        "#[{} = \"...\"] cannot be a name/value, you probably meant #[{}(name = \"...\")]",
        keyword, keyword
    )
}

#[test]
fn bare_annotation_has_no_arguments() {
    assert_eq!(meta_to_vec(bare("pyfunction", 1)), Ok(Vec::new()));
}

#[test]
fn parenthesized_annotation_gives_its_arguments_verbatim() {
    let nested = vec![
        pair("name", "x"),
        NestedMeta::Lit(Lit::Other),
        NestedMeta::List { ident: Some("any".to_string()) },
        word("flag"),
        NestedMeta::Path { ident: None },
    ];
    assert_eq!(
        meta_to_vec(listed("pyfunction", nested.clone(), "pyfunction(..)", 1)),
        Ok(nested)
    );
    assert_eq!(meta_to_vec(listed("pyfunction", Vec::new(), "pyfunction()", 1)), Ok(Vec::new()));
}

#[test]
fn name_value_annotation_is_handed_back() {
    let meta = assigned("pyfunction", "f", 3);
    assert_eq!(meta_to_vec(meta.clone()), Err(meta));
}

#[test]
fn keywords_are_matched_exactly() {
    assert_eq!(Keyword::parse(&"pyfunction".to_string()), Some(Keyword::PyFunction));
    assert_eq!(Keyword::parse(&"pyattr".to_string()), Some(Keyword::PyAttr));
    assert_eq!(Keyword::parse(&"pyclass".to_string()), Some(Keyword::PyClass));
    assert_eq!(Keyword::parse(&"pystruct_sequence".to_string()), Some(Keyword::PyStructSequence));
    assert_eq!(Keyword::parse(&"cfg".to_string()), None);
    assert_eq!(Keyword::parse(&"pyfunctions".to_string()), None);
    assert_eq!(Keyword::parse(&"PyFunction".to_string()), None);
    assert_eq!(Keyword::parse(&"".to_string()), None);
    assert_eq!(Keyword::PyFunction.as_str(), "pyfunction");
    assert_eq!(Keyword::PyAttr.as_str(), "pyattr");
    assert_eq!(Keyword::PyClass.as_str(), "pyclass");
    assert_eq!(Keyword::PyStructSequence.as_str(), "pystruct_sequence");
}

#[test]
fn keywords_declare_their_argument_sets_and_kinds() {
    assert_eq!(Keyword::PyFunction.name_set(), NameSet::Simple);
    assert_eq!(Keyword::PyAttr.name_set(), NameSet::Simple);
    assert_eq!(Keyword::PyClass.name_set(), NameSet::Simple);
    assert_eq!(Keyword::PyStructSequence.name_set(), NameSet::StructSequence);
    assert!(Keyword::PyFunction.allowed_on(ItemType::Fn));
    assert!(!Keyword::PyFunction.allowed_on(ItemType::Struct));
    assert!(!Keyword::PyFunction.allowed_on(ItemType::Enum));
    assert!(Keyword::PyAttr.allowed_on(ItemType::Fn));
    assert!(!Keyword::PyAttr.allowed_on(ItemType::Struct));
    assert!(Keyword::PyClass.allowed_on(ItemType::Struct));
    assert!(!Keyword::PyClass.allowed_on(ItemType::Fn));
    assert!(!Keyword::PyClass.allowed_on(ItemType::Enum));
    assert!(Keyword::PyStructSequence.allowed_on(ItemType::Struct));
    assert!(!Keyword::PyStructSequence.allowed_on(ItemType::Fn));
}

#[test]
fn argument_sets_admit_their_keys() {
    assert!(NameSet::Simple.contains(&"name".to_string()));
    assert!(!NameSet::Simple.contains(&"module".to_string()));
    assert!(!NameSet::Simple.contains(&"names".to_string()));
    assert!(NameSet::StructSequence.contains(&"name".to_string()));
    assert!(NameSet::StructSequence.contains(&"module".to_string()));
    assert!(!NameSet::StructSequence.contains(&"magic".to_string()));
    assert_eq!(NameSet::Simple.join(), "name");
    assert_eq!(NameSet::StructSequence.join(), "module, name");
}

#[test]
fn explicit_name_overrides_the_identifier() {
    assert_eq!(resolve_external_name("foo", None), "foo");
    assert_eq!(resolve_external_name("foo", Some("bar".to_string())), "bar");
    assert_eq!(resolve_external_name("foo", Some(String::new())), "");
}

#[test]
fn function_binding_defaults_to_the_declared_name() {
    assert_eq!(
        Module::extract_function("foo", bare("pyfunction", 1)),
        Ok(ModuleItem::Function { item_ident: "foo".to_string(), py_name: "foo".to_string() })
    );
    assert_eq!(
        Module::extract_function("foo", listed("pyfunction", Vec::new(), "pyfunction()", 1)),
        Ok(ModuleItem::Function { item_ident: "foo".to_string(), py_name: "foo".to_string() })
    );
}

#[test]
fn function_binding_takes_the_explicit_name() {
    let meta = listed("pyfunction", vec![pair("name", "bar")], "pyfunction(name = \"bar\")", 1);
    assert_eq!(
        Module::extract_function("foo", meta),
        Ok(ModuleItem::Function { item_ident: "foo".to_string(), py_name: "bar".to_string() })
    );
}

#[test]
fn each_extractor_gives_its_kind_of_item() {
    let named = |keyword: &str| listed(keyword, vec![pair("name", "n")], "..", 1);
    assert_eq!(
        Module::extract_attr("f", named("pyattr")),
        Ok(ModuleItem::EvaluatedAttr { item_ident: "f".to_string(), py_name: "n".to_string() })
    );
    assert_eq!(
        Module::extract_class("T", named("pyclass")),
        Ok(ModuleItem::Class { item_ident: "T".to_string(), py_name: "n".to_string() })
    );
    assert_eq!(
        Module::extract_struct_sequence("T", named("pystruct_sequence")),
        Ok(ModuleItem::Class { item_ident: "T".to_string(), py_name: "n".to_string() })
    );
    assert_eq!(
        Module::extract_attr("f", bare("pyattr", 1)).unwrap().kind(),
        ItemKind::EvaluatedAttr
    );
    assert_eq!(Module::extract_class("T", bare("pyclass", 1)).unwrap().name(), "T");
    assert_eq!(
        Module::extract_struct_sequence("T", bare("pystruct_sequence", 1)).unwrap().name(),
        "T"
    );
}

#[test]
fn name_value_form_is_a_shape_error_for_every_keyword() {
    let expect = |keyword: &str, id: usize| {
        Err(Diagnostic {
            span: Span { id },
            kind: ErrorKind::Shape,
            message: shape_text(keyword),
        })
    };
    assert_eq!(
        Module::extract_function("f", assigned("pyfunction", "x", 11)),
        expect("pyfunction", 11)
    );
    assert_eq!(Module::extract_attr("f", assigned("pyattr", "x", 12)), expect("pyattr", 12));
    assert_eq!(Module::extract_class("T", assigned("pyclass", "x", 13)), expect("pyclass", 13));
    assert_eq!(
        Module::extract_struct_sequence("T", assigned("pystruct_sequence", "x", 14)),
        expect("pystruct_sequence", 14)
    );
}

#[test]
fn class_binding_in_name_value_form_recommends_the_parenthesized_form() {
    let failed = Module::extract_class("Foo", assigned("pyclass", "Bar", 5)).unwrap_err();
    assert_eq!(failed.kind, ErrorKind::Shape);
    assert_eq!(failed.span, Span { id: 5 });
    assert_eq!(
        failed.to_string(),
        "#[pyclass = \"...\"] cannot be a name/value, you probably meant #[pyclass(name = \"...\")]"
    );
    assert!(failed.message.contains("#[pyclass(name = \"...\")]"));
}

#[test]
fn name_value_form_with_another_literal_is_a_shape_error_too() {
    let meta = Meta {
        span: Span { id: 2 },
        ident: Some("pyattr".to_string()),
        form: MetaForm::NameValue(Lit::Other),
        tokens: "pyattr = 3".to_string(),
    };
    let failed = Module::extract_attr("f", meta).unwrap_err();
    assert_eq!(failed.kind, ErrorKind::Shape);
    assert_eq!(failed.message, shape_text("pyattr"));
}

#[test]
fn unknown_argument_is_an_argument_error() {
    let meta = listed("pyfunction", vec![word("magic")], "pyfunction(magic)", 8);
    assert_eq!(
        Module::extract_function("f", meta),
        Err(Diagnostic {
            span: Span { id: 8 },
            kind: ErrorKind::Argument,
            message: "#[pyfunction(magic)] is not one of allowed attributes name".to_string(),
        })
    );
}

#[test]
fn struct_sequence_admits_module_and_class_does_not() {
    let nested = vec![pair("module", "os"), pair("name", "stat_result")];
    assert_eq!(
        Module::extract_struct_sequence(
            "StatResult",
            listed("pystruct_sequence", nested.clone(), "..", 1)
        ),
        Ok(ModuleItem::Class {
            item_ident: "StatResult".to_string(),
            py_name: "stat_result".to_string()
        })
    );
    assert_eq!(
        Module::extract_class("StatResult", listed("pyclass", nested, "..", 4)),
        Err(Diagnostic {
            span: Span { id: 4 },
            kind: ErrorKind::Argument,
            message: "#[pyclass(module)] is not one of allowed attributes name".to_string(),
        })
    );
    assert_eq!(
        Module::extract_struct_sequence(
            "T",
            listed("pystruct_sequence", vec![word("magic")], "..", 6)
        ),
        Err(Diagnostic {
            span: Span { id: 6 },
            kind: ErrorKind::Argument,
            message: "#[pystruct_sequence(magic)] is not one of allowed attributes module, name"
                .to_string(),
        })
    );
}

#[test]
fn repeated_argument_is_an_argument_error() {
    let meta = listed("pyattr", vec![pair("name", "a"), pair("name", "b")], "..", 9);
    assert_eq!(
        Module::extract_attr("f", meta),
        Err(Diagnostic {
            span: Span { id: 9 },
            kind: ErrorKind::Argument,
            message: "#[pyattr] must have only one 'name'".to_string(),
        })
    );
}

#[test]
fn first_offending_argument_decides_the_error() {
    let meta = listed(
        "pyclass",
        vec![pair("name", "a"), word("other"), pair("name", "b")],
        "..",
        9,
    );
    assert_eq!(
        Module::extract_class("T", meta).unwrap_err().message,
        "#[pyclass(other)] is not one of allowed attributes name"
    );
    let meta =
        listed("pyclass", vec![pair("name", "a"), pair("name", "b"), word("other")], "..", 9);
    assert_eq!(
        Module::extract_class("T", meta).unwrap_err().message,
        "#[pyclass] must have only one 'name'"
    );
}

#[test]
fn name_must_be_a_string() {
    let nested = vec![NestedMeta::NameValue { ident: Some("name".to_string()), lit: Lit::Other }];
    assert_eq!(
        Module::extract_function("f", listed("pyfunction", nested, "pyfunction(name = 3)", 2)),
        Err(Diagnostic {
            span: Span { id: 2 },
            kind: ErrorKind::Argument,
            message: "#[pyfunction(name = ...)] must be a string".to_string(),
        })
    );
}

#[test]
fn name_must_have_a_value() {
    assert_eq!(
        Module::extract_function("f", listed("pyfunction", vec![word("name")], "..", 2)),
        Err(Diagnostic {
            span: Span { id: 2 },
            kind: ErrorKind::Argument,
            message: "#[pyfunction(name = ...)] is expected".to_string(),
        })
    );
}

#[test]
fn arguments_without_a_key_are_passed_over() {
    let nested = vec![
        NestedMeta::Lit(Lit::Str("loose".to_string())),
        NestedMeta::List { ident: Some("name".to_string()) },
        NestedMeta::Path { ident: None },
        NestedMeta::NameValue { ident: None, lit: Lit::Str("x".to_string()) },
        pair("name", "real"),
    ];
    assert_eq!(
        Module::extract_function("f", listed("pyfunction", nested, "..", 1)).unwrap().name(),
        "real"
    );
}

#[test]
fn validated_arguments_resolve_the_name() {
    let nested = vec![pair("module", "os"), pair("name", "n")];
    let meta = ItemMeta::from_nested_meta(
        "pystruct_sequence",
        "T",
        Span { id: 1 },
        &nested,
        NameSet::StructSequence,
    );
    assert_eq!(meta.ok().unwrap().simple_name(), Ok("n".to_string()));
    let nested = vec![pair("module", "os")];
    let meta = ItemMeta::from_nested_meta(
        "pystruct_sequence",
        "T",
        Span { id: 1 },
        &nested,
        NameSet::StructSequence,
    );
    assert_eq!(meta.ok().unwrap().simple_name(), Ok("T".to_string()));
    let nested = vec![pair("module", "os")];
    assert_eq!(
        ItemMeta::from_nested_meta("pyclass", "T", Span { id: 3 }, &nested, NameSet::Simple)
            .err()
            .unwrap(),
        Diagnostic {
            span: Span { id: 3 },
            kind: ErrorKind::Argument,
            message: "#[pyclass(module)] is not one of allowed attributes name".to_string(),
        }
    );
}

#[test]
fn module_name_comes_from_the_annotation_or_the_identifier() {
    assert_eq!(def_to_name("my_mod", "pymodule", Vec::new(), Span { id: 1 }), Ok("my_mod".to_string()));
    assert_eq!(
        def_to_name("my_mod", "pymodule", vec![pair("name", "sys")], Span { id: 1 }),
        Ok("sys".to_string())
    );
    assert_eq!(
        def_to_name("my_mod", "pymodule", vec![word("other")], Span { id: 4 }),
        Err(Diagnostic {
            span: Span { id: 4 },
            kind: ErrorKind::Argument,
            message: "#[pymodule(other)] is not one of allowed attributes name".to_string(),
        })
    );
}

#[test]
fn annotations_tell_their_keyword() {
    assert_eq!(attached(bare("pyfunction", 1)).binding(), Some(Keyword::PyFunction));
    assert_eq!(attached(assigned("pyclass", "x", 1)).binding(), Some(Keyword::PyClass));
    assert_eq!(attached(bare("cfg", 1)).binding(), None);
    assert_eq!(attached(bare("inline", 1)).binding(), None);
    assert_eq!(Attribute { span: Span { id: 1 }, meta: None }.binding(), None);
    let pathed = Meta {
        span: Span { id: 1 },
        ident: None,
        form: MetaForm::Path,
        tokens: "rustfmt::skip".to_string(),
    };
    assert_eq!(attached(pathed).binding(), None);
}

#[test]
fn function_declaration_is_extracted_and_stripped() {
    let mut module = Module::default();
    let mut item = declaration(ItemType::Fn, "foo", vec![bare("pyfunction", 1)]);
    assert_eq!(module.extract_item_from_syn(&mut item), Ok(()));
    assert_eq!(module.len(), 1);
    assert_eq!(
        module.get(0).item,
        ModuleItem::Function { item_ident: "foo".to_string(), py_name: "foo".to_string() }
    );
    assert!(module.get(0).cfgs.is_empty());
    assert!(item.attrs.is_empty());
    assert_eq!(item.ident, "foo");
    assert_eq!(item.typ, ItemType::Fn);
}

#[test]
fn order_of_the_remaining_annotations_is_preserved() {
    let mut module = Module::default();
    let before = bare("inline", 1);
    let after = listed("allow", vec![word("dead_code")], "allow(dead_code)", 3);
    let mut item = declaration(
        ItemType::Fn,
        "foo",
        vec![before.clone(), bare("pyfunction", 2), after.clone()],
    );
    assert_eq!(module.extract_item_from_syn(&mut item), Ok(()));
    assert_eq!(item.attrs, vec![attached(before), attached(after)]);
}

#[test]
fn every_binding_annotation_is_consumed() {
    let mut module = Module::default();
    let keep = bare("derive_more", 2);
    let mut item = declaration(
        ItemType::Fn,
        "foo",
        vec![
            bare("pyfunction", 1),
            keep.clone(),
            listed("pyattr", vec![pair("name", "foo_attr")], "pyattr(name = \"foo_attr\")", 3),
        ],
    );
    assert_eq!(module.extract_item_from_syn(&mut item), Ok(()));
    assert_eq!(item.attrs, vec![attached(keep)]);
    assert_eq!(module.len(), 2);
    assert_eq!(module.get(0).item.kind(), ItemKind::Function);
    assert_eq!(module.get(0).item.name(), "foo");
    assert_eq!(module.get(1).item.kind(), ItemKind::EvaluatedAttr);
    assert_eq!(module.get(1).item.name(), "foo_attr");

    let mut class = declaration(
        ItemType::Struct,
        "Point",
        vec![bare("pyclass", 1), bare("derive", 2)],
    );
    assert_eq!(module.extract_item_from_syn(&mut class), Ok(()));
    assert_eq!(class.attrs, vec![attached(bare("derive", 2))]);
    let mut sequence =
        declaration(ItemType::Struct, "Times", vec![bare("pystruct_sequence", 1)]);
    assert_eq!(module.extract_item_from_syn(&mut sequence), Ok(()));
    assert!(sequence.attrs.is_empty());
    assert_eq!(module.get(2).item.kind(), ItemKind::Class);
    assert_eq!(module.get(3).item.kind(), ItemKind::Class);
}

#[test]
fn second_extraction_finds_nothing() {
    let mut module = Module::default();
    let mut item = declaration(
        ItemType::Fn,
        "foo",
        vec![
            bare("inline", 1),
            bare("pyfunction", 2),
            listed("cfg", vec![word("unix")], "cfg(unix)", 3),
        ],
    );
    assert_eq!(module.extract_item_from_syn(&mut item), Ok(()));
    let stripped = item.attrs.clone();
    assert_eq!(stripped.len(), 2);
    assert_eq!(module.extract_item_from_syn(&mut item), Ok(()));
    assert_eq!(item.attrs, stripped);
    assert_eq!(module.len(), 1);
}

#[test]
fn guards_stay_on_the_declaration_and_go_with_the_item() {
    let mut module = Module::default();
    let guard = listed("cfg", vec![word("unix")], "cfg(unix)", 1);
    let mut item =
        declaration(ItemType::Struct, "Point", vec![guard.clone(), bare("pyclass", 2)]);
    assert_eq!(module.extract_item_from_syn(&mut item), Ok(()));
    assert_eq!(item.attrs, vec![attached(guard)]);
    assert_eq!(module.len(), 1);
    assert_eq!(module.get(0).cfgs, vec!["cfg(unix)".to_string()]);
    assert_eq!(
        module.get(0).item,
        ModuleItem::Class { item_ident: "Point".to_string(), py_name: "Point".to_string() }
    );
}

#[test]
fn guards_after_the_binding_annotation_count_too() {
    let mut module = Module::default();
    let mut item = declaration(
        ItemType::Fn,
        "f",
        vec![
            listed("cfg", vec![word("unix")], "cfg(unix)", 1),
            bare("pyfunction", 2),
            listed("cfg", vec![pair("feature", "x")], "cfg(feature = \"x\")", 3),
            listed("pyattr", vec![pair("name", "g")], "..", 4),
        ],
    );
    assert_eq!(module.extract_item_from_syn(&mut item), Ok(()));
    let guards = vec!["cfg(unix)".to_string(), "cfg(feature = \"x\")".to_string()];
    assert_eq!(module.len(), 2);
    assert_eq!(module.get(0).cfgs, guards);
    assert_eq!(module.get(1).cfgs, guards);
    assert_eq!(item.attrs.len(), 2);
}

#[test]
fn unstructured_and_pathed_annotations_are_left_alone() {
    let mut module = Module::default();
    let loose = Attribute { span: Span { id: 1 }, meta: None };
    let pathed = attached(Meta {
        span: Span { id: 2 },
        ident: None,
        form: MetaForm::Path,
        tokens: "some::pyfunction".to_string(),
    });
    let mut item = ItemIdent {
        typ: ItemType::Enum,
        attrs: vec![loose.clone(), pathed.clone()],
        ident: "E".to_string(),
    };
    assert_eq!(module.extract_item_from_syn(&mut item), Ok(()));
    assert_eq!(item.attrs, vec![loose, pathed]);
    assert_eq!(module.len(), 0);
}

#[test]
fn annotation_error_changes_nothing() {
    let mut module = Module::default();
    let mut item = declaration(
        ItemType::Fn,
        "f",
        vec![bare("pyfunction", 1), bare("inline", 2), assigned("pyattr", "x", 3)],
    );
    let untouched = item.clone();
    let failed = module.extract_item_from_syn(&mut item).unwrap_err();
    assert_eq!(failed.kind, ErrorKind::Shape);
    assert_eq!(failed.span, Span { id: 3 });
    assert_eq!(failed.message, shape_text("pyattr"));
    assert_eq!(item, untouched);
    assert_eq!(module.len(), 0);
}

#[test]
fn first_annotation_error_is_reported() {
    let mut module = Module::default();
    let mut item = declaration(
        ItemType::Fn,
        "f",
        vec![
            listed("pyfunction", vec![word("bogus")], "pyfunction(bogus)", 1),
            assigned("pyattr", "x", 2),
        ],
    );
    let failed = module.extract_item_from_syn(&mut item).unwrap_err();
    assert_eq!(failed.kind, ErrorKind::Argument);
    assert_eq!(failed.span, Span { id: 1 });
    assert_eq!(item.attrs.len(), 2);
}

#[test]
fn failed_insertion_keeps_earlier_items_and_all_annotations() {
    let mut module = Module::default();
    let mut item = declaration(
        ItemType::Fn,
        "f",
        vec![
            listed("pyfunction", vec![pair("name", "one")], "..", 1),
            listed("pyattr", vec![pair("name", "one")], "..", 2),
            listed("pyattr", vec![pair("name", "two")], "..", 3),
        ],
    );
    let untouched = item.clone();
    assert_eq!(
        module.extract_item_from_syn(&mut item),
        Err(Diagnostic {
            span: Span { id: 2 },
            kind: ErrorKind::Duplicate,
            message: "Duplicate #[py*] attribute on pymodule: one".to_string(),
        })
    );
    assert_eq!(item, untouched);
    assert_eq!(module.len(), 1);
    assert_eq!(module.get(0).item.kind(), ItemKind::Function);
}

#[test]
fn declaration_without_annotations_gives_nothing() {
    let mut module = Module::default();
    let mut item = declaration(ItemType::Enum, "E", Vec::new());
    assert_eq!(module.extract_item_from_syn(&mut item), Ok(()));
    assert!(item.attrs.is_empty());
    assert_eq!(module.len(), 0);
}

#[test]
fn legality_follows_the_declaration_kind() {
    assert!(declaration(ItemType::Fn, "f", vec![bare("pyfunction", 1), bare("pyattr", 2)])
        .is_legal());
    assert!(declaration(ItemType::Struct, "S", vec![bare("pyclass", 1)]).is_legal());
    assert!(declaration(ItemType::Struct, "S", vec![bare("pystruct_sequence", 1)]).is_legal());
    assert!(declaration(ItemType::Enum, "E", vec![bare("derive", 1), bare("cfg", 2)]).is_legal());
    assert!(declaration(ItemType::Enum, "E", Vec::new()).is_legal());
    assert!(!declaration(ItemType::Fn, "f", vec![bare("pyclass", 1)]).is_legal());
    assert!(!declaration(ItemType::Fn, "f", vec![bare("pyfunction", 1), bare("pystruct_sequence", 2)])
        .is_legal());
    assert!(!declaration(ItemType::Struct, "S", vec![bare("inline", 1), bare("pyattr", 2)])
        .is_legal());
    assert!(!declaration(ItemType::Enum, "E", vec![bare("pyclass", 1)]).is_legal());
    assert!(!declaration(ItemType::Enum, "E", vec![assigned("pyfunction", "x", 1)]).is_legal());
}

#[test]
fn diagnostics_are_built_with_their_wording() {
    assert_eq!(
        Diagnostic::shape("pyattr", Span { id: 3 }),
        Diagnostic { span: Span { id: 3 }, kind: ErrorKind::Shape, message: shape_text("pyattr") }
    );
    assert_eq!(
        Diagnostic::duplicate("spam", Span { id: 4 }),
        Diagnostic {
            span: Span { id: 4 },
            kind: ErrorKind::Duplicate,
            message: "Duplicate #[py*] attribute on pymodule: spam".to_string(),
        }
    );
    let plain = Diagnostic::span_error(Span { id: 5 }, ErrorKind::Argument, "text".to_string());
    assert_eq!(plain.to_string(), "text");
    assert_eq!(plain.clone(), plain);
}

#[test]
fn annotations_behind_an_error_are_not_reached() {
    let mut item = declaration(
        ItemType::Fn,
        "f",
        vec![assigned("pyfunction", "x", 1), bare("pyclass", 2)],
    );
    assert!(item.is_legal());
    let mut module = Module::default();
    let failed = module.extract_item_from_syn(&mut item).unwrap_err();
    assert_eq!(failed.kind, ErrorKind::Shape);
    assert_eq!(failed.span, Span { id: 1 });
    assert_eq!(item.attrs.len(), 2);
    assert!(!declaration(
        ItemType::Fn,
        "f",
        vec![bare("pyclass", 1), assigned("pyfunction", "x", 2)]
    )
    .is_legal());
    assert!(!declaration(
        ItemType::Fn,
        "f",
        vec![bare("pyfunction", 1), bare("pyclass", 2), assigned("pyattr", "x", 3)]
    )
    .is_legal());
}
