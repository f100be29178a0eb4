//! Set algebra over RDF graph documents.
//!
//! An operand is described by a file or by inline data, as text or as records.
//! The library loads it, applies the prefix table, runs a set operation or a
//! pattern query with the help of the graph engine, and hands the result back as
//! a text, as records or through a writer.

pub mod algebra;
pub mod engine;
pub mod error;
pub mod filter;
pub mod laws;
pub mod loader;
pub mod model;
pub mod normalize;
pub mod prefix;
pub mod record;
pub mod response;
pub mod translate;

pub use algebra::{difference, intersection, merge, BinaryRequest, Operation};
pub use error::{Error, ErrorKind};
pub use filter::{filter, filter_statements, statements, Pattern, UnaryRequest};
pub use loader::{make_doc, Descriptor, DocType, FileSource, InlineData, Options, Route};
pub use normalize::rdf_json_triple_to_doc;
pub use prefix::PrefixEntry;
pub use record::{NodeEntry, NodeRecord, TripleRecord};
pub use response::{make_response, Mode, OutputConfig, Response};
