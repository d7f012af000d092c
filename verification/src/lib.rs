//! A typed-deserialization layer over XML documents accessed through XPath
//! query expressions.
//!
//! Callers parse a document once, build a reader against it, and then ask the
//! reader for typed values selected by XPath queries.  The query engine and
//! document tree are supplied by the `sxd-document` and `sxd-xpath` crates;
//! this crate contributes the reader abstraction, the conversion protocol for
//! turning query results into typed values, and the error taxonomy shared by
//! both.

pub mod errors;
pub mod reader;
pub mod scalar;

pub use errors::FromXmlError;
pub use errors::XpathError;
pub use reader::FromXml;
pub use reader::FromXmlContained;
pub use reader::FromXmlElement;
pub use reader::OptionFromXml;
pub use reader::QueryValue;
pub use reader::XpathNodeReader;
pub use reader::XpathReader;
pub use reader::XpathStrReader;
