//! The error taxonomy shared by every fallible operation of this crate.
//!
//! Failures of the document parser and the query engine, absence of a
//! required node, and scalar-conversion failures are all reported through the
//! single closed enum [`XpathError`], so that callers can distinguish
//! "absent" from "malformed" structurally.

use vstd::prelude::*;
use vstd::string::StringExecFns;

verus! {

/// Every way a read against an XML document can fail.
#[derive(Debug, Clone, PartialEq, Eq)]
pub enum XpathError {
    /// The document parser rejected the raw XML text; holds its message.
    XmlParseError(String),
    /// The XPath query string failed to compile; holds the engine's message.
    XpathParseError(String),
    /// A compiled query failed while being evaluated; holds the engine's
    /// message.
    XpathExecuteError(String),
    /// The query compiled and evaluated but yielded an empty node-set where a
    /// node was required; holds a copy of the query string.
    NodeNotFound(String),
    /// A conversion from XML text to a typed value failed; wraps the message
    /// of the originating parse error.
    FromXmlError(String),
    /// A required value was absent from the document; holds a description of
    /// what was missing.
    MissingValue(String),
    /// Any other failure, described by a plain message.
    Message(String),
}

/// The error kinds that query compilation and evaluation can produce, and
/// that the derived read operations always propagate unchanged.
pub open spec fn is_engine_error(e: XpathError) -> bool {
    e is XpathParseError || e is XpathExecuteError || e is Message
}

impl XpathError {
    /// The human-readable description of each error kind.
    pub open spec fn message_spec(&self) -> Seq<char> {
        match self {
            XpathError::XmlParseError(info) => "Failed to parse the XML document: "@ + info@,
            XpathError::XpathParseError(info) => "Failed to parse the XPath expression: "@
                + info@,
            XpathError::XpathExecuteError(info) => "Failed to execute the XPath expression: "@
                + info@,
            XpathError::NodeNotFound(q) => "XPath expression '"@ + q@
                + "' failed to find a node."@,
            XpathError::FromXmlError(info) => "Conversion from XML failed: "@ + info@,
            XpathError::MissingValue(info) => "A required value was missing from the document: "@
                + info@,
            XpathError::Message(info) => info@,
        }
    }

    /// A human-readable description of the failure.
    pub fn message(&self) -> (r: String)
        ensures
            r@ == self.message_spec(),
    {
        match self {
            XpathError::XmlParseError(info) => String::from_str(
                "Failed to parse the XML document: ",
            ).concat(info.as_str()),
            XpathError::XpathParseError(info) => String::from_str(
                "Failed to parse the XPath expression: ",
            ).concat(info.as_str()),
            XpathError::XpathExecuteError(info) => String::from_str(
                "Failed to execute the XPath expression: ",
            ).concat(info.as_str()),
            XpathError::NodeNotFound(q) => String::from_str("XPath expression '").concat(
                q.as_str(),
            ).concat("' failed to find a node."),
            XpathError::FromXmlError(info) => String::from_str("Conversion from XML failed: ").concat(info.as_str()),
            XpathError::MissingValue(info) => String::from_str(
                "A required value was missing from the document: ",
            ).concat(info.as_str()),
            XpathError::Message(info) => info.clone(),
        }
    }
}

/// An error which can occur during the conversion of types from XML.
#[derive(Debug)]
pub enum FromXmlError {
    /// Any error occurring during conversion of a type from XML.
    Other(XpathError),
}

impl FromXmlError {
    /// Unwraps the conversion error back into the shared error taxonomy.
    pub fn into_xpath_error(self) -> (r: XpathError)
        ensures
            self matches FromXmlError::Other(e) && r == e,
    {
        match self {
            FromXmlError::Other(err) => err,
        }
    }

    /// A short, fixed description of what this error type stands for.
    pub fn description(&self) -> (r: &'static str)
        ensures
            r@ == "There was an error converting this type from XML."@,
    {
        "There was an error converting this type from XML."
    }

    /// A human-readable description of the wrapped failure.
    pub fn message(&self) -> (r: String)
        ensures
            self matches FromXmlError::Other(e) && r@ == e.message_spec(),
    {
        match self {
            FromXmlError::Other(err) => err.message(),
        }
    }
}

impl From<XpathError> for FromXmlError {
    fn from(e: XpathError) -> (r: Self) {
        FromXmlError::Other(e)
    }
}

impl vstd::std_specs::convert::FromSpecImpl<XpathError> for FromXmlError {
    open spec fn obeys_from_spec() -> bool {
        true
    }

    open spec fn from_spec(e: XpathError) -> Self {
        FromXmlError::Other(e)
    }
}

} // verus!
