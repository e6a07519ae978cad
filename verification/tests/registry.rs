use specta::datatype::{DataType, DataTypeExt, Field, Fields, PrimitiveType, StructType};
use specta::export::{ts, ts_with_cfg, TypeRegistry};
use specta::specta_id::{ImplLocation, SpectaID};
use specta::ts::{ExportConfiguration, TsExportError};

const HEADER: &str = "// This file has been generated by Specta. DO NOT EDIT.\n\n";

fn field(ty: DataType) -> Field {
    Field { skip: false, optional: false, flatten: false, deprecated: None, docs: String::new(), ty }
}

fn alias(name: &'static str, hash: u64, export: Option<bool>, inner: DataType) -> DataTypeExt {
    DataTypeExt {
        name: name.to_string(),
        docs: String::new(),
        sid: SpectaID::new(name, hash),
        impl_location: ImplLocation::new("tests/registry.rs"),
        export,
        inner,
    }
}

fn point(export: Option<bool>) -> DataTypeExt {
    alias(
        "Point",
        1,
        export,
        DataType::Struct(StructType {
            name: "Point".to_string(),
            generics: vec![],
            fields: Fields::Named(vec![
                ("x".to_string(), field(DataType::Primitive(PrimitiveType::F64))),
                ("y".to_string(), field(DataType::Primitive(PrimitiveType::F64))),
            ]),
        }),
    )
}

#[test]
fn an_empty_registry_exports_the_header_alone() {
    let r = TypeRegistry::new();
    assert_eq!(r.len(), 0);
    assert_eq!(ts(&r), Ok(HEADER.to_string()));
}

#[test]
fn point_exports_below_the_header() {
    let mut r = TypeRegistry::new();
    assert!(r.register("Point".to_string(), point(Some(true))));
    let out = ts(&r).unwrap();
    assert!(out.starts_with(HEADER));
    assert_eq!(
        out,
        format!("{}export type Point = {{ x: number; y: number; }}\n\n", HEADER)
    );
}

#[test]
fn exporting_twice_gives_the_same_bytes() {
    let mut r = TypeRegistry::new();
    r.register("Point".to_string(), point(None));
    r.register("Id".to_string(), alias("Id", 2, None, DataType::Primitive(PrimitiveType::U64)));
    let first = ts(&r).unwrap();
    let second = ts(&r).unwrap();
    assert_eq!(first.as_bytes(), second.as_bytes());
}

#[test]
fn entries_export_in_the_order_of_their_names() {
    let mut r = TypeRegistry::new();
    r.register("b".to_string(), alias("B", 1, None, DataType::Primitive(PrimitiveType::Bool)));
    r.register("c".to_string(), alias("C", 2, None, DataType::Primitive(PrimitiveType::String)));
    r.register("a".to_string(), alias("A", 3, None, DataType::Primitive(PrimitiveType::U8)));
    assert_eq!(r.len(), 3);
    assert_eq!(r.entry(0).unwrap().0, "a");
    assert_eq!(r.entry(1).unwrap().0, "b");
    assert_eq!(r.entry(2).unwrap().0, "c");
    assert!(r.entry(3).is_none());
    assert_eq!(
        ts(&r),
        Ok(format!(
            "{}export type A = number\n\nexport type B = boolean\n\nexport type C = string\n\n",
            HEADER
        ))
    );
}

#[test]
fn a_name_is_registered_once() {
    let mut r = TypeRegistry::new();
    assert!(r.register("Id".to_string(), alias("Id", 1, None, DataType::Primitive(PrimitiveType::U64))));
    assert!(!r.register("Id".to_string(), alias("Id", 1, None, DataType::Primitive(PrimitiveType::Bool))));
    assert_eq!(r.len(), 1);
    assert_eq!(r.get("Id").unwrap().inner, DataType::Primitive(PrimitiveType::U64));
    assert!(r.get("Other").is_none());
    assert_eq!(ts(&r), Ok(format!("{}export type Id = number\n\n", HEADER)));
}

#[test]
fn an_entry_that_says_no_is_registered_and_not_exported() {
    let mut r = TypeRegistry::new();
    r.register("Point".to_string(), point(Some(false)));
    assert_eq!(r.len(), 1);
    assert!(r.get("Point").is_some());
    assert_eq!(ts(&r), Ok(HEADER.to_string()));
    for default in [None, Some(true), Some(false)] {
        let cfg = ExportConfiguration { export_by_default: default };
        assert_eq!(ts_with_cfg(&cfg, &r), Ok(HEADER.to_string()));
    }
}

#[test]
fn the_configuration_decides_for_entries_that_do_not() {
    let mut r = TypeRegistry::new();
    r.register("Point".to_string(), point(None));
    r.register("Id".to_string(), alias("Id", 2, Some(true), DataType::Primitive(PrimitiveType::U64)));
    let off = ExportConfiguration { export_by_default: Some(false) };
    assert_eq!(ts_with_cfg(&off, &r), Ok(format!("{}export type Id = number\n\n", HEADER)));
    let on = ExportConfiguration { export_by_default: Some(true) };
    assert_eq!(
        ts_with_cfg(&on, &r),
        Ok(format!(
            "{}export type Id = number\n\nexport type Point = {{ x: number; y: number; }}\n\n",
            HEADER
        ))
    );
    assert_eq!(ts_with_cfg(&ExportConfiguration::default(), &r), ts_with_cfg(&on, &r));
    assert_eq!(ExportConfiguration::default().export_by_default, None);
}

#[test]
fn an_entry_that_cannot_be_rendered_fails_the_export() {
    let mut r = TypeRegistry::new();
    r.register("A".to_string(), alias("A", 1, None, DataType::Primitive(PrimitiveType::U8)));
    r.register(
        "B".to_string(),
        alias(
            "B",
            2,
            None,
            DataType::Record(
                Box::new(DataType::Primitive(PrimitiveType::Bool)),
                Box::new(DataType::Any),
            ),
        ),
    );
    assert_eq!(ts(&r), Err(TsExportError::UnsupportedMapKey("B".to_string())));
    assert_eq!(r.len(), 2);
}

#[test]
fn an_entry_that_is_not_exported_is_not_rendered() {
    let mut r = TypeRegistry::new();
    r.register(
        "B".to_string(),
        alias(
            "B",
            2,
            Some(false),
            DataType::Record(
                Box::new(DataType::Primitive(PrimitiveType::Bool)),
                Box::new(DataType::Any),
            ),
        ),
    );
    assert_eq!(ts(&r), Ok(HEADER.to_string()));
}
