use specta::datatype::{
    DataType, DataTypeExt, DataTypeReference, Field, Fields, PrimitiveType, StructType,
};
use specta::export::{ts, TypeRegistry};
use specta::references::references;
use specta::specta_id::{ImplLocation, SpectaID};
use specta::ts::{datatype, export_datatype, ExportConfiguration};
use specta::type_map::{ResolveError, TypeCatalog, TypeDefs};

fn field(ty: DataType) -> Field {
    Field { skip: false, optional: false, flatten: false, deprecated: None, docs: String::new(), ty }
}

fn refer(name: &'static str, hash: u64, generics: Vec<DataType>) -> DataType {
    DataType::Reference(DataTypeReference {
        name: name.to_string(),
        sid: SpectaID::new(name, hash),
        generics,
    })
}

fn declare(name: &'static str, hash: u64, generics: &[&str], fields: Vec<(&str, DataType)>) -> DataTypeExt {
    DataTypeExt {
        name: name.to_string(),
        docs: String::new(),
        sid: SpectaID::new(name, hash),
        impl_location: ImplLocation::new("tests/resolve.rs"),
        export: None,
        inner: DataType::Struct(StructType {
            name: name.to_string(),
            generics: generics.iter().map(|g| g.to_string()).collect(),
            fields: Fields::Named(fields.into_iter().map(|(n, t)| (n.to_string(), field(t))).collect()),
        }),
    }
}

fn string_shape() -> DataType {
    DataType::Primitive(PrimitiveType::String)
}

fn i32_shape() -> DataType {
    DataType::Primitive(PrimitiveType::I32)
}

fn list_node() -> DataTypeExt {
    declare("A", 1, &[], vec![("next", DataType::Nullable(Box::new(refer("A", 1, vec![]))))])
}

#[test]
fn references_are_listed_in_order() {
    let d = DataType::Tuple(vec![
        refer("X", 10, vec![refer("Y", 20, vec![])]),
        DataType::List(Box::new(refer("Z", 30, vec![]))),
        i32_shape(),
        DataType::Result(Box::new(refer("X", 10, vec![])), Box::new(string_shape())),
    ]);
    assert_eq!(references(&d), vec![10, 20, 30, 10]);
    assert_eq!(references(&i32_shape()), Vec::<u64>::new());
    assert_eq!(references(&list_node().inner), vec![1]);
}

#[test]
fn a_catalog_refuses_two_declarations_of_one_identity() {
    let r = TypeCatalog::new(vec![
        declare("First", 7, &[], vec![]),
        declare("Other", 8, &[], vec![]),
        declare("Second", 7, &[], vec![]),
    ]);
    assert_eq!(r.err(), Some(ResolveError::DuplicateIdentity("Second".to_string())));
}

#[test]
fn a_catalog_refuses_a_reference_to_an_undeclared_type() {
    let r = TypeCatalog::new(vec![
        declare("Fine", 1, &[], vec![("a", i32_shape())]),
        declare("Broken", 2, &[], vec![("b", refer("Missing", 99, vec![]))]),
    ]);
    assert_eq!(r.err(), Some(ResolveError::DanglingReference("Broken".to_string())));
}

#[test]
fn a_catalog_holds_its_declarations_in_order() {
    let c = TypeCatalog::new(vec![declare("B", 2, &[], vec![]), declare("A", 1, &[], vec![])]).unwrap();
    assert_eq!(c.len(), 2);
    assert_eq!(c.entry(0).unwrap().name, "B");
    assert_eq!(c.entry(1).unwrap().name, "A");
    assert!(c.entry(2).is_none());
    assert_eq!(c.get(&SpectaID::new("whatever", 1)).unwrap().name, "A");
    assert!(c.get(&SpectaID::new("A", 3)).is_none());
}

#[test]
fn an_unknown_type_resolves_to_nothing() {
    let c = TypeCatalog::new(vec![list_node()]).unwrap();
    let mut defs = TypeDefs::new();
    assert!(c.resolve_named(&SpectaID::new("B", 2), vec![], &mut defs).is_none());
    assert_eq!(defs.len(), 0);
    assert_eq!(
        c.resolve_inline(&SpectaID::new("B", 2), &vec![], &mut defs),
        Err(ResolveError::UnknownType("B".to_string()))
    );
    assert_eq!(defs.len(), 0);
}

#[test]
fn a_type_that_refers_to_itself_resolves_and_renders_as_a_self_reference() {
    let c = TypeCatalog::new(vec![list_node()]).unwrap();
    let mut defs = TypeDefs::new();
    let sid = SpectaID::new("A", 1);
    let r = c.resolve_named(&sid, vec![], &mut defs).unwrap();
    assert_eq!(r.name, "A");
    assert!(r.sid == sid);
    assert!(r.generics.is_empty());
    assert_eq!(defs.len(), 1);
    assert!(defs.contains(&sid));
    let def = defs.get(&sid).unwrap();
    assert_eq!(*def, list_node());
    assert_eq!(
        export_datatype(&ExportConfiguration::default(), def),
        Ok("export type A = { next: A | null; }".to_string())
    );
}

#[test]
fn resolving_twice_gives_one_definition_and_the_same_reference() {
    let c = TypeCatalog::new(vec![list_node()]).unwrap();
    let mut defs = TypeDefs::new();
    let sid = SpectaID::new("A", 1);
    let first = c.resolve_named(&sid, vec![], &mut defs).unwrap();
    let second = c.resolve_named(&sid, vec![], &mut defs).unwrap();
    assert_eq!(first, second);
    assert!(first.sid == second.sid);
    assert_eq!(defs.len(), 1);
}

#[test]
fn types_that_refer_to_each_other_resolve_once_each() {
    let c = TypeCatalog::new(vec![
        declare("A", 1, &[], vec![("b", DataType::List(Box::new(refer("B", 2, vec![]))))]),
        declare("B", 2, &[], vec![("a", DataType::Nullable(Box::new(refer("A", 1, vec![])))), ("c", refer("C", 3, vec![]))]),
        declare("C", 3, &[], vec![("n", i32_shape())]),
        declare("Unused", 4, &[], vec![]),
    ])
    .unwrap();
    let mut defs = TypeDefs::new();
    c.resolve_named(&SpectaID::new("A", 1), vec![], &mut defs).unwrap();
    assert_eq!(defs.len(), 3);
    assert!(defs.contains(&SpectaID::new("A", 1)));
    assert!(defs.contains(&SpectaID::new("B", 2)));
    assert!(defs.contains(&SpectaID::new("C", 3)));
    assert!(!defs.contains(&SpectaID::new("Unused", 4)));
    assert!(defs.get(&SpectaID::new("Unused", 4)).is_none());
    c.resolve_named(&SpectaID::new("B", 2), vec![], &mut defs).unwrap();
    assert_eq!(defs.len(), 3);
}

#[test]
fn a_generic_struct_shares_one_declaration_between_its_uses() {
    let foo = declare("Foo", 5, &["T"], vec![("a", DataType::Generic("T".to_string()))]);
    let c = TypeCatalog::new(vec![foo]).unwrap();
    let mut defs = TypeDefs::new();
    let sid = SpectaID::new("Foo", 5);
    let with_string = c.resolve_named(&sid, vec![string_shape()], &mut defs).unwrap();
    let with_int = c.resolve_named(&sid, vec![i32_shape()], &mut defs).unwrap();
    assert_eq!(defs.len(), 1);
    assert_eq!(datatype(&DataType::Reference(with_string), "U", &vec![]), Ok("Foo<string>".to_string()));
    assert_eq!(datatype(&DataType::Reference(with_int), "U", &vec![]), Ok("Foo<number>".to_string()));
    assert_eq!(
        export_datatype(&ExportConfiguration::default(), defs.get(&sid).unwrap()),
        Ok("export type Foo<T> = { a: T; }".to_string())
    );
}

#[test]
fn a_generic_struct_inlines_with_the_shapes_in_the_place_of_its_parameters() {
    let foo = declare(
        "Foo",
        5,
        &["T"],
        vec![
            ("a", DataType::Generic("T".to_string())),
            ("b", DataType::List(Box::new(DataType::Generic("T".to_string())))),
            ("c", DataType::Generic("Other".to_string())),
        ],
    );
    let c = TypeCatalog::new(vec![foo]).unwrap();
    let mut defs = TypeDefs::new();
    let sid = SpectaID::new("Foo", 5);
    let s = c.resolve_inline(&sid, &vec![string_shape()], &mut defs).unwrap();
    let i = c.resolve_inline(&sid, &vec![DataType::Primitive(PrimitiveType::Bool)], &mut defs).unwrap();
    assert_eq!(
        s,
        declare(
            "Foo",
            5,
            &["T"],
            vec![("a", string_shape()), ("b", DataType::List(Box::new(string_shape()))), ("c", DataType::Generic("Other".to_string()))]
        )
        .inner
    );
    assert_eq!(datatype(&s, "Foo", &vec!["Other".to_string()]), Ok("{ a: string; b: string[]; c: Other; }".to_string()));
    assert_eq!(datatype(&i, "Foo", &vec!["Other".to_string()]), Ok("{ a: boolean; b: boolean[]; c: Other; }".to_string()));
    assert_eq!(defs.len(), 0);
}

#[test]
fn inlining_needs_one_shape_for_each_parameter() {
    let c = TypeCatalog::new(vec![declare("Foo", 5, &["T"], vec![("a", DataType::Generic("T".to_string()))])]).unwrap();
    let mut defs = TypeDefs::new();
    let sid = SpectaID::new("Foo", 5);
    assert_eq!(c.resolve_inline(&sid, &vec![], &mut defs), Err(ResolveError::GenericCount("Foo".to_string())));
    assert_eq!(
        c.resolve_inline(&sid, &vec![i32_shape(), i32_shape()], &mut defs),
        Err(ResolveError::GenericCount("Foo".to_string()))
    );
}

#[test]
fn inlining_gives_the_types_referred_to_their_definitions() {
    let c = TypeCatalog::new(vec![
        declare("Outer", 1, &[], vec![("inner", refer("Inner", 2, vec![]))]),
        declare("Inner", 2, &[], vec![("n", i32_shape())]),
    ])
    .unwrap();
    let mut defs = TypeDefs::new();
    let shape = c.resolve_inline(&SpectaID::new("Outer", 1), &vec![], &mut defs).unwrap();
    assert_eq!(datatype(&shape, "Outer", &vec![]), Ok("{ inner: Inner; }".to_string()));
    assert_eq!(defs.len(), 1);
    assert!(defs.contains(&SpectaID::new("Inner", 2)));
    assert!(!defs.contains(&SpectaID::new("Outer", 1)));
}

#[test]
fn substitution_leaves_other_parameters_alone() {
    let d = DataType::Tuple(vec![
        DataType::Generic("A".to_string()),
        DataType::Generic("B".to_string()),
        DataType::Generic("C".to_string()),
    ]);
    let r = d.substitute(&vec!["A".to_string(), "B".to_string()], &vec![i32_shape()]);
    assert_eq!(
        r,
        DataType::Tuple(vec![i32_shape(), DataType::Generic("B".to_string()), DataType::Generic("C".to_string())])
    );
    assert_eq!(d.duplicate(), d);
    assert_eq!(d.clone(), d);
}

#[test]
fn substitution_takes_the_first_of_two_parameters_of_one_name() {
    let d = DataType::Generic("A".to_string());
    let r = d.substitute(&vec!["A".to_string(), "A".to_string()], &vec![i32_shape(), string_shape()]);
    assert_eq!(r, i32_shape());
}

#[test]
fn substitution_reaches_the_arguments_of_references() {
    let d = refer("Foo", 5, vec![DataType::Generic("T".to_string())]);
    let r = d.substitute(&vec!["T".to_string()], &vec![string_shape()]);
    assert_eq!(r, refer("Foo", 5, vec![string_shape()]));
}

#[test]
fn resolved_definitions_export_through_the_registry() {
    let c = TypeCatalog::new(vec![
        declare("B", 2, &[], vec![("a", refer("A", 1, vec![]))]),
        declare("A", 1, &[], vec![("n", i32_shape())]),
    ])
    .unwrap();
    let mut defs = TypeDefs::new();
    c.resolve_named(&SpectaID::new("B", 2), vec![], &mut defs).unwrap();
    let mut registry = TypeRegistry::new();
    let mut i = 0;
    while let Some(d) = c.entry(i) {
        if let Some(def) = defs.get(&d.sid) {
            registry.register(def.name.clone(), def.clone());
        }
        i += 1;
    }
    assert_eq!(
        ts(&registry),
        Ok("// This file has been generated by Specta. DO NOT EDIT.\n\nexport type A = { n: number; }\n\nexport type B = { a: A; }\n\n".to_string())
    );
}

#[test]
fn a_context_tells_whether_a_shape_dangles() {
    let c = TypeCatalog::new(vec![
        declare("A", 1, &[], vec![("b", refer("B", 2, vec![]))]),
        declare("B", 2, &[], vec![]),
        declare("C", 3, &[], vec![]),
    ])
    .unwrap();
    let mut defs = TypeDefs::new();
    let shape = DataType::List(Box::new(refer("A", 1, vec![refer("C", 3, vec![])])));
    assert!(defs.resolves(&i32_shape()));
    assert!(!defs.resolves(&shape));
    c.resolve_named(&SpectaID::new("A", 1), vec![], &mut defs).unwrap();
    assert!(!defs.resolves(&shape));
    c.resolve_named(&SpectaID::new("C", 3), vec![], &mut defs).unwrap();
    assert!(defs.resolves(&shape));
    assert!(defs.resolves(&defs.get(&SpectaID::new("A", 1)).unwrap().inner));
}

#[test]
fn the_parent_decides_between_the_shape_and_the_reference() {
    let c = TypeCatalog::new(vec![declare("Foo", 5, &["T"], vec![("a", DataType::Generic("T".to_string()))])]).unwrap();
    let sid = SpectaID::new("Foo", 5);
    let mut defs = TypeDefs::new();
    let inline = c.resolve(&sid, vec![string_shape()], true, &mut defs).unwrap();
    assert_eq!(datatype(&inline, "Foo", &vec![]), Ok("{ a: string; }".to_string()));
    assert_eq!(defs.len(), 0);
    let named = c.resolve(&sid, vec![string_shape()], false, &mut defs).unwrap();
    assert_eq!(named, refer("Foo", 5, vec![string_shape()]));
    assert_eq!(defs.len(), 1);
    let unknown = SpectaID::new("Bar", 6);
    assert_eq!(
        c.resolve(&unknown, vec![], false, &mut defs),
        Err(ResolveError::UnknownType("Bar".to_string()))
    );
    assert_eq!(
        c.resolve(&unknown, vec![], true, &mut defs),
        Err(ResolveError::UnknownType("Bar".to_string()))
    );
    assert_eq!(
        c.resolve(&sid, vec![], true, &mut defs),
        Err(ResolveError::GenericCount("Foo".to_string()))
    );
    assert_eq!(defs.len(), 1);
}
