use specta::datatype::{
    DataType, DataTypeExt, DataTypeReference, EnumRepr, EnumType, EnumVariant, Field, Fields,
    LiteralType, PrimitiveType, StructType,
};
use specta::specta_id::{ImplLocation, SpectaID};
use specta::ts::{datatype, export_datatype, ExportConfiguration, TsExportError};

fn prim(p: PrimitiveType) -> DataType {
    DataType::Primitive(p)
}

fn field(ty: DataType) -> Field {
    Field { skip: false, optional: false, flatten: false, deprecated: None, docs: String::new(), ty }
}

fn named(name: &str, ty: DataType) -> (String, Field) {
    (name.to_string(), field(ty))
}

fn variant(name: &str, fields: Fields) -> EnumVariant {
    EnumVariant { name: name.to_string(), skip: false, docs: String::new(), deprecated: None, fields }
}

fn strukt(name: &str, generics: &[&str], fields: Fields) -> DataType {
    DataType::Struct(StructType {
        name: name.to_string(),
        generics: generics.iter().map(|g| g.to_string()).collect(),
        fields,
    })
}

fn enumeration(name: &str, repr: EnumRepr, variants: Vec<EnumVariant>) -> DataType {
    DataType::Enum(EnumType { name: name.to_string(), repr, generics: vec![], variants })
}

fn entry(name: &'static str, hash: u64, inner: DataType) -> DataTypeExt {
    DataTypeExt {
        name: name.to_string(),
        docs: String::new(),
        sid: SpectaID::new(name, hash),
        impl_location: ImplLocation::new("tests/render.rs"),
        export: None,
        inner,
    }
}

fn reference(name: &'static str, hash: u64, generics: Vec<DataType>) -> DataType {
    DataType::Reference(DataTypeReference {
        name: name.to_string(),
        sid: SpectaID::new(name, hash),
        generics,
    })
}

fn text(d: &DataType) -> Result<String, TsExportError> {
    datatype(d, "T", &vec![])
}

#[test]
fn scalars_render_as_number_boolean_or_string() {
    let numbers = [
        PrimitiveType::I8,
        PrimitiveType::I16,
        PrimitiveType::I32,
        PrimitiveType::I64,
        PrimitiveType::I128,
        PrimitiveType::Isize,
        PrimitiveType::U8,
        PrimitiveType::U16,
        PrimitiveType::U32,
        PrimitiveType::U64,
        PrimitiveType::U128,
        PrimitiveType::Usize,
        PrimitiveType::F32,
        PrimitiveType::F64,
    ];
    for p in numbers {
        assert_eq!(text(&prim(p)), Ok("number".to_string()));
    }
    assert_eq!(text(&prim(PrimitiveType::Bool)), Ok("boolean".to_string()));
    assert_eq!(text(&prim(PrimitiveType::Char)), Ok("string".to_string()));
    assert_eq!(text(&prim(PrimitiveType::String)), Ok("string".to_string()));
}

#[test]
fn any_and_literal_render() {
    assert_eq!(text(&DataType::Any), Ok("any".to_string()));
    assert_eq!(text(&DataType::Literal(LiteralType::Unit)), Ok("null".to_string()));
}

#[test]
fn lists_render_with_brackets_after_the_element() {
    let l = DataType::List(Box::new(prim(PrimitiveType::U8)));
    assert_eq!(text(&l), Ok("number[]".to_string()));
    let s = DataType::Unordered(Box::new(prim(PrimitiveType::String)));
    assert_eq!(text(&s), Ok("string[]".to_string()));
    let nested = DataType::List(Box::new(l));
    assert_eq!(text(&nested), Ok("number[][]".to_string()));
}

#[test]
fn a_list_of_a_union_puts_the_union_in_brackets() {
    let l = DataType::List(Box::new(DataType::Nullable(Box::new(prim(PrimitiveType::String)))));
    assert_eq!(text(&l), Ok("(string | null)[]".to_string()));
    let r = DataType::List(Box::new(DataType::Result(
        Box::new(prim(PrimitiveType::U8)),
        Box::new(prim(PrimitiveType::String)),
    )));
    assert_eq!(text(&r), Ok("(number | string)[]".to_string()));
}

#[test]
fn maps_render_as_index_signatures() {
    let m = DataType::Record(
        Box::new(prim(PrimitiveType::String)),
        Box::new(prim(PrimitiveType::I32)),
    );
    assert_eq!(text(&m), Ok("{ [key: string]: number }".to_string()));
    let n = DataType::Record(Box::new(prim(PrimitiveType::U64)), Box::new(DataType::Any));
    assert_eq!(text(&n), Ok("{ [key: number]: any }".to_string()));
}

#[test]
fn a_map_keyed_by_a_boolean_is_refused_with_the_type_name() {
    let m = DataType::Record(Box::new(prim(PrimitiveType::Bool)), Box::new(prim(PrimitiveType::I32)));
    assert_eq!(
        datatype(&m, "Flags", &vec![]),
        Err(TsExportError::UnsupportedMapKey("Flags".to_string()))
    );
}

#[test]
fn a_map_keyed_by_a_struct_is_refused() {
    let key = strukt("K", &[], Fields::Named(vec![named("a", prim(PrimitiveType::U8))]));
    let m = DataType::Record(Box::new(key), Box::new(prim(PrimitiveType::I32)));
    let e = entry("Table", 1, m);
    let r = export_datatype(&ExportConfiguration::default(), &e);
    assert_eq!(r, Err(TsExportError::UnsupportedMapKey("Table".to_string())));
    assert_eq!(r.unwrap_err().type_of(), "Table");
}

#[test]
fn nullable_renders_as_union_with_null() {
    let n = DataType::Nullable(Box::new(prim(PrimitiveType::F64)));
    assert_eq!(text(&n), Ok("number | null".to_string()));
}

#[test]
fn tuples_render_by_length() {
    assert_eq!(text(&DataType::Tuple(vec![])), Ok("null".to_string()));
    assert_eq!(text(&DataType::Tuple(vec![prim(PrimitiveType::U8)])), Ok("[number]".to_string()));
    let t = DataType::Tuple(vec![prim(PrimitiveType::U8), prim(PrimitiveType::String), prim(PrimitiveType::Bool)]);
    assert_eq!(text(&t), Ok("[number, string, boolean]".to_string()));
}

#[test]
fn a_tuple_of_twelve_is_the_longest_that_renders() {
    let twelve = DataType::Tuple((0..12).map(|_| prim(PrimitiveType::U8)).collect());
    assert_eq!(
        text(&twelve),
        Ok("[number, number, number, number, number, number, number, number, number, number, number, number]".to_string())
    );
    let thirteen = DataType::Tuple((0..13).map(|_| prim(PrimitiveType::U8)).collect());
    assert_eq!(datatype(&thirteen, "Wide", &vec![]), Err(TsExportError::TupleTooLong("Wide".to_string())));
}

#[test]
fn result_and_either_render_as_unions() {
    let r = DataType::Result(Box::new(prim(PrimitiveType::U8)), Box::new(prim(PrimitiveType::String)));
    assert_eq!(text(&r), Ok("number | string".to_string()));
    let e = DataType::Either(Box::new(prim(PrimitiveType::Bool)), Box::new(DataType::Any));
    assert_eq!(text(&e), Ok("boolean | any".to_string()));
}

#[test]
fn the_first_error_from_the_left_is_reported() {
    let bad_key = DataType::Record(Box::new(prim(PrimitiveType::Bool)), Box::new(DataType::Any));
    let unbound = DataType::Generic("Q".to_string());
    let r = DataType::Result(Box::new(unbound), Box::new(bad_key));
    assert_eq!(
        datatype(&r, "R", &vec![]),
        Err(TsExportError::UnresolvedGeneric("R".to_string(), "Q".to_string()))
    );
}

#[test]
fn point_exports_as_a_struct_of_two_numbers() {
    let p = entry(
        "Point",
        1,
        strukt(
            "Point",
            &[],
            Fields::Named(vec![named("x", prim(PrimitiveType::F64)), named("y", prim(PrimitiveType::F64))]),
        ),
    );
    assert_eq!(
        export_datatype(&ExportConfiguration::default(), &p),
        Ok("export type Point = { x: number; y: number; }".to_string())
    );
}

#[test]
fn optional_skipped_and_flattened_fields() {
    let mut b = field(prim(PrimitiveType::String));
    b.optional = true;
    let mut c = field(prim(PrimitiveType::Bool));
    c.skip = true;
    let mut d = field(reference("Base", 9, vec![]));
    d.flatten = true;
    let s = strukt(
        "S",
        &[],
        Fields::Named(vec![
            named("a", prim(PrimitiveType::U8)),
            ("b".to_string(), b),
            ("c".to_string(), c),
            ("d".to_string(), d),
        ]),
    );
    assert_eq!(text(&s), Ok("{ a: number; b?: string; } & (Base)".to_string()));
}

#[test]
fn a_struct_without_fields_renders_as_an_empty_object() {
    let s = strukt("S", &[], Fields::Named(vec![]));
    assert_eq!(text(&s), Ok("{ }".to_string()));
    let u = strukt("U", &[], Fields::Unit);
    assert_eq!(text(&u), Ok("null".to_string()));
}

#[test]
fn unnamed_fields_render_by_the_number_that_is_exported() {
    let none = strukt("N", &[], Fields::Unnamed(vec![]));
    assert_eq!(text(&none), Ok("null".to_string()));
    let one = strukt("W", &[], Fields::Unnamed(vec![field(prim(PrimitiveType::String))]));
    assert_eq!(text(&one), Ok("string".to_string()));
    let two = strukt(
        "P",
        &[],
        Fields::Unnamed(vec![field(prim(PrimitiveType::U8)), field(prim(PrimitiveType::Bool))]),
    );
    assert_eq!(text(&two), Ok("[number, boolean]".to_string()));
    let mut hidden = field(prim(PrimitiveType::U8));
    hidden.skip = true;
    let skipping = strukt(
        "Q",
        &[],
        Fields::Unnamed(vec![hidden, field(prim(PrimitiveType::Bool))]),
    );
    assert_eq!(text(&skipping), Ok("boolean".to_string()));
}

#[test]
fn ok_and_err_render_as_separately_keyed_cases_in_declared_order() {
    let e = entry(
        "Outcome",
        2,
        enumeration(
            "Outcome",
            EnumRepr::External,
            vec![
                variant("Ok", Fields::Unnamed(vec![field(prim(PrimitiveType::String))])),
                variant("Err", Fields::Unnamed(vec![field(prim(PrimitiveType::String))])),
            ],
        ),
    );
    assert_eq!(
        export_datatype(&ExportConfiguration::default(), &e),
        Ok("export type Outcome = { Ok: string } | { Err: string }".to_string())
    );
}

#[test]
fn externally_tagged_variants() {
    let e = enumeration(
        "E",
        EnumRepr::External,
        vec![
            variant("A", Fields::Unit),
            variant("B", Fields::Named(vec![named("x", prim(PrimitiveType::U8))])),
            variant(
                "C",
                Fields::Unnamed(vec![field(prim(PrimitiveType::U8)), field(prim(PrimitiveType::Bool))]),
            ),
        ],
    );
    assert_eq!(
        text(&e),
        Ok("\"A\" | { B: { x: number; } } | { C: [number, boolean] }".to_string())
    );
}

#[test]
fn internally_tagged_variants() {
    let e = enumeration(
        "E",
        EnumRepr::Internal { tag: "type".to_string() },
        vec![
            variant("A", Fields::Unit),
            variant("B", Fields::Named(vec![named("x", prim(PrimitiveType::U8))])),
            variant("C", Fields::Unnamed(vec![field(prim(PrimitiveType::String))])),
        ],
    );
    assert_eq!(
        text(&e),
        Ok("{ type: \"A\" } | { type: \"B\"; x: number; } | ({ type: \"C\" } & string)".to_string())
    );
}

#[test]
fn adjacently_tagged_variants() {
    let e = enumeration(
        "E",
        EnumRepr::Adjacent { tag: "t".to_string(), content: "c".to_string() },
        vec![
            variant("A", Fields::Unit),
            variant("B", Fields::Unnamed(vec![field(prim(PrimitiveType::U8))])),
            variant("C", Fields::Named(vec![named("x", prim(PrimitiveType::Bool))])),
        ],
    );
    assert_eq!(
        text(&e),
        Ok("{ t: \"A\" } | { t: \"B\"; c: number } | { t: \"C\"; c: { x: boolean; } }".to_string())
    );
}

#[test]
fn untagged_variants_render_in_declared_order() {
    let e = enumeration(
        "E",
        EnumRepr::Untagged,
        vec![
            variant("A", Fields::Unit),
            variant("B", Fields::Unnamed(vec![field(prim(PrimitiveType::U8))])),
            variant("C", Fields::Named(vec![named("x", prim(PrimitiveType::Bool))])),
        ],
    );
    assert_eq!(text(&e), Ok("null | number | { x: boolean; }".to_string()));
    let swapped = enumeration(
        "E",
        EnumRepr::Untagged,
        vec![
            variant("B", Fields::Unnamed(vec![field(prim(PrimitiveType::U8))])),
            variant("A", Fields::Unit),
        ],
    );
    assert_eq!(text(&swapped), Ok("number | null".to_string()));
}

#[test]
fn skipped_variants_are_left_out() {
    let mut hidden = variant("A", Fields::Unit);
    hidden.skip = true;
    let e = enumeration("E", EnumRepr::External, vec![hidden, variant("B", Fields::Unit)]);
    assert_eq!(text(&e), Ok("\"B\"".to_string()));
}

#[test]
fn an_enum_without_exported_variants_is_never() {
    let e = enumeration("E", EnumRepr::External, vec![]);
    assert_eq!(text(&e), Ok("never".to_string()));
    let mut hidden = variant("A", Fields::Unit);
    hidden.skip = true;
    let f = enumeration("F", EnumRepr::Untagged, vec![hidden]);
    assert_eq!(text(&f), Ok("never".to_string()));
}

#[test]
fn a_declared_generic_renders_as_its_name() {
    let g = DataType::Generic("T".to_string());
    assert_eq!(datatype(&g, "Foo", &vec!["T".to_string()]), Ok("T".to_string()));
}

#[test]
fn an_undeclared_generic_is_refused_with_both_names() {
    let g = DataType::Generic("U".to_string());
    assert_eq!(
        datatype(&g, "Foo", &vec!["T".to_string()]),
        Err(TsExportError::UnresolvedGeneric("Foo".to_string(), "U".to_string()))
    );
}

#[test]
fn a_generic_struct_declares_its_parameters() {
    let e = entry(
        "Pair",
        3,
        strukt(
            "Pair",
            &["A", "B"],
            Fields::Named(vec![
                named("first", DataType::Generic("A".to_string())),
                named("second", DataType::Generic("B".to_string())),
            ]),
        ),
    );
    assert_eq!(
        export_datatype(&ExportConfiguration::default(), &e),
        Ok("export type Pair<A, B> = { first: A; second: B; }".to_string())
    );
}

#[test]
fn references_render_by_name_with_their_arguments() {
    assert_eq!(text(&reference("Foo", 4, vec![])), Ok("Foo".to_string()));
    let r = reference("Foo", 4, vec![prim(PrimitiveType::String), prim(PrimitiveType::I32)]);
    assert_eq!(text(&r), Ok("Foo<string, number>".to_string()));
}

#[test]
fn a_definition_that_is_no_struct_or_enum_exports_as_an_alias() {
    let e = entry("Id", 5, prim(PrimitiveType::U64));
    assert_eq!(
        export_datatype(&ExportConfiguration::default(), &e),
        Ok("export type Id = number".to_string())
    );
}

#[test]
fn a_self_reference_renders_as_the_name() {
    let a = entry(
        "A",
        6,
        strukt(
            "A",
            &[],
            Fields::Named(vec![named("next", DataType::Nullable(Box::new(reference("A", 6, vec![]))))]),
        ),
    );
    assert_eq!(
        export_datatype(&ExportConfiguration::default(), &a),
        Ok("export type A = { next: A | null; }".to_string())
    );
}
