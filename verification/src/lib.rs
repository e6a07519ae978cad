//! Describes the shape of data types and renders those shapes as TypeScript
//! declarations, so that two programs can share one definition of their data.
//!
//! A shape is a [`DataType`]. The types that need no declaration get their
//! shape from [`TypeExpr`]; the named types are declared in a
//! [`TypeCatalog`] and resolved against a [`TypeDefs`], which holds every
//! definition once, however the types refer to each other. The definitions
//! that are to be exported stand in a [`TypeRegistry`], and [`ts`] renders
//! them in the order of their names.

pub mod datatype;
pub mod export;
pub mod impls;
pub mod references;
pub mod specta_id;
pub mod substitute;
pub mod text;
pub mod ts;
pub mod type_map;

pub use datatype::{
    DataType, DataTypeExt, DataTypeReference, EnumRepr, EnumType, EnumVariant, Field, Fields,
    LiteralType, PrimitiveType, StructType,
};
pub use export::{ts, ts_with_cfg, TypeRegistry};
pub use impls::{Alias, Infallible, TypeExpr, Wrapper};
pub use specta_id::{ImplLocation, SpectaID};
pub use ts::{export_datatype, ExportConfiguration, TsExportError};
pub use type_map::{ResolveError, TypeCatalog, TypeDefs};
