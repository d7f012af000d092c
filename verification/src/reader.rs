//! The reader abstraction: evaluate XPath queries against a bound root and
//! convert the results into typed values.
//!
//! A reader binds a root point (the document root, or an arbitrary node) to
//! an evaluation context.  The derived read operations — required single
//! value, optional single value, and collection — are built on top of the raw
//! `evaluate` capability, and dispatch the conversion of the selected node
//! through the [`FromXml`] / [`OptionFromXml`] protocol.

use vstd::prelude::*;
use vstd::string::StrSliceExecFns;
use vstd::string::StringExecFns;
use crate::errors::XpathError;
use crate::errors::is_engine_error;
use crate::scalar;

verus! {

#[verifier::external_type_specification]
#[verifier::external_body]
pub struct ExPackage(sxd_document::Package);

#[verifier::external_type_specification]
#[verifier::external_body]
pub struct ExFactory(sxd_xpath::Factory);

#[verifier::external_type_specification]
#[verifier::external_body]
pub struct ExXPath(sxd_xpath::XPath);

#[verifier::external_type_specification]
#[verifier::external_body]
pub struct ExContext<'d>(sxd_xpath::context::Context<'d>);

#[verifier::external_type_specification]
#[verifier::external_body]
pub struct ExNode<'d>(sxd_xpath::nodeset::Node<'d>);

#[verifier::external_type_specification]
#[verifier::external_body]
pub struct ExValue<'d>(sxd_xpath::Value<'d>);

/// The result of evaluating an XPath query, classified for this crate.
///
/// A node-set result carries its nodes in document order; a scalar result
/// carries its value, with a numeric result kept in the engine's own
/// representation.
#[derive(Debug)]
pub enum QueryValue<'d> {
    /// The query selected nodes; they are held in document order.
    Nodes(Vec<sxd_xpath::nodeset::Node<'d>>),
    /// The query evaluated to a string.
    Text(String),
    /// The query evaluated to a boolean.
    Boolean(bool),
    /// The query evaluated to a number; the engine's value is kept whole so
    /// that unverified callers can still extract the floating-point number.
    Number(sxd_xpath::Value<'d>),
}

/// Whether the colon at position `i` of a query text stands beside another
/// colon (an axis separator such as `child::x`), never alone.
pub open spec fn colon_ok_at(q: Seq<char>, i: int) -> bool {
    q[i] == ':' ==> ((i > 0 && q[i - 1] == ':') || (i + 1 < q.len() && q[i + 1] == ':'))
}

/// Whether a query text holds no lone colon, and so no prefixed name test
/// such as `x:y`.
///
/// The query engine aborts the process when a name test carries a namespace
/// prefix that the evaluation context does not define, so queries admitted to
/// evaluation are restricted to this conservative grammar.  It also excludes
/// a lone colon inside a quoted literal, which would be harmless.
pub open spec fn prefix_free(q: Seq<char>) -> bool {
    forall|i: int| 0 <= i < q.len() ==> #[trigger] colon_ok_at(q, i)
}

/// Decides [`prefix_free`] for a query text.
pub fn is_prefix_free(q: &str) -> (b: bool)
    ensures
        b == prefix_free(q@),
{
    let n = q.unicode_len();
    let mut i: usize = 0;
    while i < n
        invariant
            i <= n,
            n == q@.len(),
            forall|j: int| 0 <= j < i ==> #[trigger] colon_ok_at(q@, j),
        decreases n - i,
    {
        let c = q.get_char(i);
        if c == ':' {
            let beside_before = i > 0 && q.get_char(i - 1) == ':';
            let beside_after = i + 1 < n && q.get_char(i + 1) == ':';
            if !beside_before && !beside_after {
                proof {
                    assert(!colon_ok_at(q@, i as int));
                }
                return false;
            }
        }
        i = i + 1;
    }
    true
}

/// A compiled XPath expression, paired with the query text it was compiled
/// from; [`build_xpath`] is its only constructor.
pub struct CompiledXpath {
    xpath: sxd_xpath::XPath,
    text: Ghost<Seq<char>>,
}

impl CompiledXpath {
    /// The query text this expression was compiled from.
    pub closed spec fn text(&self) -> Seq<char> {
        self.text@
    }
}

/// Whether the document parser accepts a text as well-formed XML; the
/// verdict is a function of the text alone.
pub uninterp spec fn well_formed_xml(s: Seq<char>) -> bool;

/// Whether the query compiler turns a query text into an expression; the
/// verdict is a function of the text alone.
pub uninterp spec fn query_compiles(q: Seq<char>) -> bool;

/// Relies on `sxd_document::parser::parse`: parses raw XML text into a
/// document package, or reports the parser's message.
#[verifier::external_body]
fn parse_document(xml: &str) -> (r: Result<sxd_document::Package, String>)
    ensures
        r is Ok <==> well_formed_xml(xml@),
{
    match sxd_document::parser::parse(xml) {
        Ok(package) => Ok(package),
        Err(e) => Err(format!("{}", e)),
    }
}

/// Relies on `sxd_xpath::Factory::new`: a fresh query compiler.
#[verifier::external_body]
fn new_factory() -> (r: sxd_xpath::Factory) {
    sxd_xpath::Factory::new()
}

/// Relies on `sxd_xpath::Factory::build`: compiles a query string, returning
/// `None` for an empty expression or the parser's message on bad syntax.
#[verifier::external_body]
fn factory_build(factory: &sxd_xpath::Factory, xpath_expr: &str) -> (r: Result<
    Option<sxd_xpath::XPath>,
    String,
>)
    ensures
        (r matches Ok(o) && o is Some) <==> query_compiles(xpath_expr@),
{
    match factory.build(xpath_expr) {
        Ok(x) => Ok(x),
        Err(e) => Err(format!("{}", e)),
    }
}

/// Relies on `sxd_document::Package::as_document` and
/// `sxd_document::dom::Document::root`: the root node of a parsed document.
#[verifier::external_body]
fn document_root<'d>(package: &'d sxd_document::Package) -> (r: sxd_xpath::nodeset::Node<'d>) {
    package.as_document().root().into()
}

/// Relies on `sxd_xpath::XPath::evaluate`: runs a compiled query against the
/// given context and root node, returning the engine's value or its error
/// message.  Nothing is assumed of the outcome: the context may carry
/// caller-supplied functions.
///
/// The engine aborts the process on a name test whose namespace prefix the
/// context does not define — it has no error path there — so only
/// expressions compiled from prefix-free query texts are admitted.
#[verifier::external_body]
fn xpath_evaluate<'d>(
    xpath: &CompiledXpath,
    context: &sxd_xpath::context::Context<'d>,
    node: sxd_xpath::nodeset::Node<'d>,
) -> (r: Result<sxd_xpath::Value<'d>, String>)
    requires
        prefix_free(xpath.text()),
{
    match xpath.xpath.evaluate(context, node) {
        Ok(v) => Ok(v),
        Err(e) => Err(format!("{}", e)),
    }
}

/// Relies on `sxd_xpath::nodeset::Nodeset::document_order`: the matched
/// nodes, sorted in document order.
#[verifier::external_body]
fn classify_value<'d>(v: sxd_xpath::Value<'d>) -> (r: QueryValue<'d>) {
    match v {
        sxd_xpath::Value::Nodeset(ns) => QueryValue::Nodes(ns.document_order()),
        sxd_xpath::Value::String(s) => QueryValue::Text(s),
        sxd_xpath::Value::Boolean(b) => QueryValue::Boolean(b),
        n @ sxd_xpath::Value::Number(_) => QueryValue::Number(n),
    }
}

/// Relies on `sxd_xpath::nodeset::Node::string_value`: the string value of a
/// node, e.g. the concatenated text descendants of an element or the value
/// of an attribute.
#[verifier::external_body]
fn node_string_value<'d>(node: &sxd_xpath::nodeset::Node<'d>) -> (r: String) {
    node.string_value()
}

/// Relies on `sxd_xpath::Value::string`: the XPath string form of a value.
#[verifier::external_body]
fn value_string<'d>(v: &sxd_xpath::Value<'d>) -> (r: String) {
    v.string()
}

/// Relies on the derived `Clone` of `sxd_xpath::nodeset::Node`, which copies
/// the node handle.
#[verifier::external_body]
fn copy_node<'d>(node: &sxd_xpath::nodeset::Node<'d>) -> (r: sxd_xpath::nodeset::Node<'d>)
    ensures
        r == *node,
{
    node.clone()
}

impl<'d> QueryValue<'d> {
    /// The XPath string form of this value: the text itself for a string,
    /// `true`/`false` for a boolean, the string value of the first node (in
    /// document order) for a node-set, and the empty string for an empty
    /// node-set.
    pub fn string_value(&self) -> (r: String)
        ensures
            *self matches QueryValue::Text(s) ==> r@ == s@,
            *self matches QueryValue::Boolean(b) ==> r@ == (if b {
                "true"@
            } else {
                "false"@
            }),
            *self matches QueryValue::Nodes(ns) ==> (ns@.len() == 0 ==> r@ == Seq::<
                char,
            >::empty()),
    {
        match self {
            QueryValue::Nodes(ns) => {
                if ns.len() == 0 {
                    String::new()
                } else {
                    node_string_value(&ns[0])
                }
            },
            QueryValue::Text(s) => s.clone(),
            QueryValue::Boolean(b) => {
                if *b {
                    "true".to_owned()
                } else {
                    "false".to_owned()
                }
            },
            QueryValue::Number(v) => value_string(v),
        }
    }
}

/// A trait to abstract the idea of something that can be parsed from XML.
pub trait FromXml where Self: Sized {
    /// Read an instance of `Self` from the provided node-scoped `reader`.
    ///
    /// The reader is always relative to a specific node.  Whether that node
    /// contains the element to be parsed or is the element to be parsed is
    /// specified by the additional traits [`FromXmlContained`] and
    /// [`FromXmlElement`].
    fn from_xml<'d>(reader: &'d XpathNodeReader<'d>) -> (r: Result<Self, XpathError>);
}

/// Similar to `FromXml`, abstracts the idea of an `Option` of something that
/// can be parsed from XML: emptiness is reported as absence, not as failure.
pub trait OptionFromXml where Self: Sized {
    fn option_from_xml<'d>(reader: &'d XpathNodeReader<'d>) -> (r: Result<Option<Self>, XpathError>);
}

/// `FromXml` takes a reader as input whose root element **contains** the
/// relevant element.
pub trait FromXmlContained: FromXml {

}

/// `FromXml` takes a reader as input whose root element **is** the relevant
/// element.
pub trait FromXmlElement: FromXml {

}

/// Whether `r` is a result that `V`'s required conversion can produce for
/// some node reader sharing `context`.
pub open spec fn conversion_result<'d, V: FromXml>(
    context: &'d sxd_xpath::context::Context<'d>,
    r: Result<V, XpathError>,
) -> bool {
    exists|rd: &XpathNodeReader<'d>|
        #[trigger] call_ensures(V::from_xml, (rd,), r) && rd.context_spec() == context
}

/// Whether `r` is a result that `V`'s required conversion can produce for a
/// reader rooted at `node` and sharing `context`.
pub open spec fn conversion_result_at<'d, V: FromXml>(
    node: sxd_xpath::nodeset::Node<'d>,
    context: &'d sxd_xpath::context::Context<'d>,
    r: Result<V, XpathError>,
) -> bool {
    exists|rd: &XpathNodeReader<'d>|
        #[trigger] call_ensures(V::from_xml, (rd,), r) && rd.root_node() == node
            && rd.context_spec() == context
}

/// Whether some value of `Item` can come out of `Item`'s required conversion
/// for a reader rooted at `node` and sharing `context`.
pub open spec fn some_conversion_at<'d, Item: FromXml>(
    node: sxd_xpath::nodeset::Node<'d>,
    context: &'d sxd_xpath::context::Context<'d>,
) -> bool {
    exists|it: Item| #[trigger] conversion_result_at(node, context, Ok::<Item, XpathError>(it))
}

/// Whether `r` is a result that `V`'s optional conversion can produce for
/// some node reader sharing `context`.
pub open spec fn optional_conversion_result<'d, V: OptionFromXml>(
    context: &'d sxd_xpath::context::Context<'d>,
    r: Result<Option<V>, XpathError>,
) -> bool {
    exists|rd: &XpathNodeReader<'d>|
        #[trigger] call_ensures(V::option_from_xml, (rd,), r) && rd.context_spec() == context
}

/// Whether `r` is a result that `V`'s optional conversion can produce for a
/// reader rooted at `node` and sharing `context`.
pub open spec fn optional_conversion_result_at<'d, V: OptionFromXml>(
    node: sxd_xpath::nodeset::Node<'d>,
    context: &'d sxd_xpath::context::Context<'d>,
    r: Result<Option<V>, XpathError>,
) -> bool {
    exists|rd: &XpathNodeReader<'d>|
        #[trigger] call_ensures(V::option_from_xml, (rd,), r) && rd.root_node() == node
            && rd.context_spec() == context
}

/// Builds a node reader on the first node, in document order, of a node-set
/// query value.
///
/// A non-empty node-set yields a reader rooted at the node at document-order
/// index zero — never any other index.  An empty node-set is reported as
/// `NodeNotFound` carrying the query string; a scalar value is a usage error.
pub fn first_node_reader<'d>(
    value: QueryValue<'d>,
    xpath_expr: &str,
    context: &'d sxd_xpath::context::Context<'d>,
) -> (r: Result<XpathNodeReader<'d>, XpathError>)
    ensures
        value matches QueryValue::Nodes(ns) ==> ({
            &&& ns@.len() > 0 ==> (r matches Ok(rd) && rd.root_node() == ns@[0]
                && rd.context_spec() == context)
            &&& ns@.len() == 0 ==> (r matches Err(e) && e matches XpathError::NodeNotFound(q)
                && q@ == xpath_expr@)
        }),
        !(value is Nodes) ==> (r matches Err(e) && e matches XpathError::Message(m) && m@
            == "XPath didn't specify a nodeset: '"@ + xpath_expr@ + "'"@),
{
    match value {
        QueryValue::Nodes(nodes) => {
            if nodes.len() == 0 {
                Err(XpathError::NodeNotFound(xpath_expr.to_owned()))
            } else {
                let node = copy_node(&nodes[0]);
                XpathNodeReader::new(node, context)
            }
        },
        _ => Err(
            XpathError::Message(
                String::from_str("XPath didn't specify a nodeset: '").concat(xpath_expr).concat(
                    "'",
                ),
            ),
        ),
    }
}

/// Applies `V`'s required conversion to the first node of a query value.
///
/// Absence of the node (an empty node-set) is reported as `NodeNotFound`,
/// exactly as `first_node_reader` reports it.
pub fn read_value<'d, V: FromXml>(
    value: QueryValue<'d>,
    xpath_expr: &str,
    context: &'d sxd_xpath::context::Context<'d>,
) -> (r: Result<V, XpathError>)
    ensures
        value matches QueryValue::Nodes(ns) ==> ({
            &&& ns@.len() > 0 ==> conversion_result_at::<V>(ns@[0], context, r)
            &&& ns@.len() == 0 ==> (r matches Err(e) && e matches XpathError::NodeNotFound(q)
                && q@ == xpath_expr@)
        }),
        !(value is Nodes) ==> (r matches Err(e) && e matches XpathError::Message(m) && m@
            == "XPath didn't specify a nodeset: '"@ + xpath_expr@ + "'"@),
        conversion_result(context, r) || (r matches Err(e) && ((e matches
        XpathError::NodeNotFound(q) && q@ == xpath_expr@) || e is Message)),
{
    let reader = match first_node_reader(value, xpath_expr, context) {
        Ok(rd) => rd,
        Err(e) => return Err(e),
    };
    V::from_xml(&reader)
}

/// Applies `V`'s optional conversion to the first node of a query value,
/// treating an empty node-set as absence rather than failure.
pub fn read_option_value<'d, V: OptionFromXml>(
    value: QueryValue<'d>,
    xpath_expr: &str,
    context: &'d sxd_xpath::context::Context<'d>,
) -> (r: Result<Option<V>, XpathError>)
    ensures
        value matches QueryValue::Nodes(ns) ==> (ns@.len() == 0 ==> (r matches Ok(o) && o
            is None)),
        value matches QueryValue::Nodes(ns) ==> (ns@.len() > 0 ==> optional_conversion_result_at::<
            V,
        >(ns@[0], context, r)),
        !(value is Nodes) ==> (r matches Err(e) && e matches XpathError::Message(m) && m@
            == "XPath didn't specify a nodeset: '"@ + xpath_expr@ + "'"@),
        (r matches Ok(o) && o is None) || optional_conversion_result(context, r) || (r matches
        Err(e) && e is Message),
{
    match first_node_reader(value, xpath_expr, context) {
        Ok(reader) => V::option_from_xml(&reader),
        Err(e) => {
            match e {
                XpathError::NodeNotFound(_) => Ok(None),
                other => Err(other),
            }
        },
    }
}

/// Applies `Item`'s required conversion to every node of a node-set query
/// value, in document order; a scalar value is treated as "no items".  The
/// first conversion failure aborts the whole read: there are no partial
/// results on failure.
pub fn read_vec_value<'d, Item: FromXml>(
    value: QueryValue<'d>,
    context: &'d sxd_xpath::context::Context<'d>,
) -> (r: Result<Vec<Item>, XpathError>)
    ensures
        !(value is Nodes) ==> (r matches Ok(v) && v@.len() == 0),
        value matches QueryValue::Nodes(ns) ==> (ns@.len() == 0 ==> (r matches Ok(v) && v@.len()
            == 0)),
        value matches QueryValue::Nodes(ns) ==> (r matches Ok(v) ==> v@.len() == ns@.len()),
        value matches QueryValue::Nodes(ns) ==> (r matches Ok(v) ==> (forall|k: int|
            0 <= k < ns@.len() ==> #[trigger] conversion_result_at(
                ns@[k],
                context,
                Ok::<Item, XpathError>(v@[k]),
            ))),
        r matches Ok(v) ==> (forall|k: int| 0 <= k < v@.len() ==> #[trigger] conversion_result(
            context,
            Ok::<Item, XpathError>(v@[k]),
        )),
        r matches Err(e) ==> (value matches QueryValue::Nodes(ns) && (exists|k: int|
            0 <= k < ns@.len() && #[trigger] conversion_result_at(
                ns@[k],
                context,
                Err::<Item, XpathError>(e),
            ) && (forall|j: int| 0 <= j < k ==> #[trigger] some_conversion_at::<Item>(
                ns@[j],
                context,
            )))),
        r matches Err(e) ==> conversion_result(context, Err::<Item, XpathError>(e)),
{
    match &value {
        QueryValue::Nodes(nodes) => {
            let mut items: Vec<Item> = Vec::new();
            let mut i: usize = 0;
            while i < nodes.len()
                invariant
                    i <= nodes@.len(),
                    items@.len() == i,
                    value matches QueryValue::Nodes(nsv) && nsv@ == nodes@,
                    forall|k: int| 0 <= k < i ==> #[trigger] conversion_result_at(
                        nodes@[k],
                        context,
                        Ok::<Item, XpathError>(items@[k]),
                    ),
                    forall|k: int| 0 <= k < i ==> #[trigger] conversion_result(
                        context,
                        Ok::<Item, XpathError>(items@[k]),
                    ),
                decreases nodes@.len() - i,
            {
                let node = copy_node(&nodes[i]);
                let reader = match XpathNodeReader::new(node, context) {
                    Ok(rd) => rd,
                    Err(e) => return Err(e),
                };
                match Item::from_xml(&reader) {
                    Ok(item) => {
                        proof {
                            assert(call_ensures(
                                Item::from_xml,
                                (&reader,),
                                Ok::<Item, XpathError>(item),
                            ));
                            assert(conversion_result_at(
                                nodes@[i as int],
                                context,
                                Ok::<Item, XpathError>(item),
                            ));
                        }
                        items.push(item);
                    },
                    Err(e) => {
                        proof {
                            assert(call_ensures(
                                Item::from_xml,
                                (&reader,),
                                Err::<Item, XpathError>(e),
                            ));
                            assert(conversion_result_at(
                                nodes@[i as int],
                                context,
                                Err::<Item, XpathError>(e),
                            ));
                            assert forall|j: int| 0 <= j < i implies #[trigger] some_conversion_at::<
                                Item,
                            >(nodes@[j], context) by {
                                assert(conversion_result_at(
                                    nodes@[j],
                                    context,
                                    Ok::<Item, XpathError>(items@[j]),
                                ));
                            }
                        }
                        return Err(e);
                    },
                }
                i = i + 1;
            }
            Ok(items)
        },
        _ => Ok(Vec::new()),
    }
}

/// Allows executing XPath expressions on some kind of document.
///
/// Different implementors have different root nodes: the whole document for
/// [`XpathStrReader`], an arbitrary node for [`XpathNodeReader`].
pub trait XpathReader<'d> {
    /// The evaluation context this reader was built against.
    spec fn ctx(&self) -> &'d sxd_xpath::context::Context<'d>;

    /// Evaluate an XPath expression on the root of this reader.
    ///
    /// Normally you won't have to use this method at all and use `read`,
    /// `read_option` or `read_vec` instead.  A failure is always one of the
    /// engine's own kinds: a compile failure or an evaluation failure.
    fn evaluate(&'d self, xpath_expr: &str) -> (r: Result<QueryValue<'d>, XpathError>)
        requires
            prefix_free(xpath_expr@),
        ensures
            r matches Err(e) ==> is_engine_error(e),
            !query_compiles(xpath_expr@) ==> (r matches Err(e) && (e is XpathParseError || (
            e matches XpathError::Message(m) && m@ == "Xpath instance was `None`!"@))),
            query_compiles(xpath_expr@) ==> (r matches Err(e) ==> e is XpathExecuteError),
    ;

    /// Returns a reference to the `Context` used by the reader instance.
    fn context(&'d self) -> (r: &'d sxd_xpath::context::Context<'d>)
        ensures
            r == self.ctx(),
    ;

    /// Read the result of the xpath expression into a value of type `V`.
    ///
    /// The result is `V`'s required conversion of a node reader sharing this
    /// reader's context, or a propagated failure: an engine failure, or
    /// `NodeNotFound` carrying this very query when it matched no node.
    fn read<V: FromXml>(&'d self, xpath_expr: &str) -> (r: Result<V, XpathError>)
        requires
            prefix_free(xpath_expr@),
        ensures
            conversion_result(self.ctx(), r) || (r matches Err(e) && (is_engine_error(e) || (
            e matches XpathError::NodeNotFound(q) && q@ == xpath_expr@))),
    ;

    /// Read the result of the xpath expression into a value of type
    /// `Option<V>`: a query that matches no node yields `None` rather than an
    /// error.
    ///
    /// Only `NodeNotFound` is downgraded, to `None`; any other failure is an
    /// engine failure propagated unchanged, or `V`'s optional conversion's
    /// own result for a node reader sharing this reader's context.
    fn read_option<V: OptionFromXml>(&'d self, xpath_expr: &str) -> (r: Result<
        Option<V>,
        XpathError,
    >)
        requires
            prefix_free(xpath_expr@),
        ensures
            (r matches Ok(o) && o is None) || optional_conversion_result(self.ctx(), r) || (
            r matches Err(e) && is_engine_error(e)),
    ;

    /// Execute an Xpath expression and parse the result into a vector of
    /// `Item` instances, in document order.  A scalar result is treated as
    /// "no items"; the first conversion failure aborts the whole read.
    ///
    /// Every returned item is `Item`'s required conversion of a node reader
    /// sharing this reader's context; an error is an engine failure or the
    /// failure of one of those conversions.
    fn read_vec<Item: FromXml>(&'d self, xpath_expr: &str) -> (r: Result<Vec<Item>, XpathError>)
        requires
            prefix_free(xpath_expr@),
        ensures
            r matches Ok(v) ==> (forall|k: int| 0 <= k < v@.len()
                ==> #[trigger] conversion_result(self.ctx(), Ok::<Item, XpathError>(v@[k]))),
            r matches Err(e) ==> (is_engine_error(e) || conversion_result(
                self.ctx(),
                Err::<Item, XpathError>(e),
            )),
    ;

    /// Evaluates an Xpath query, takes the first returned node in document
    /// order and creates a new `XpathNodeReader` rooted at that node, sharing
    /// this reader's context.
    fn relative(&'d self, xpath_expr: &str) -> (r: Result<XpathNodeReader<'d>, XpathError>)
        requires
            prefix_free(xpath_expr@),
        ensures
            r matches Ok(rd) ==> rd.context_spec() == self.ctx(),
            r matches Err(e) ==> is_engine_error(e) || e is NodeNotFound,
            r matches Err(e) ==> (e matches XpathError::NodeNotFound(q) ==> q@ == xpath_expr@),
    ;
}

/// Reader that parses an XML string and runs expressions against its root
/// element.
pub struct XpathStrReader<'d> {
    context: &'d sxd_xpath::context::Context<'d>,
    factory: sxd_xpath::Factory,
    package: sxd_document::Package,
}

impl<'d> XpathStrReader<'d> {
    /// The evaluation context this reader was built against.
    pub closed spec fn context_spec(&self) -> &'d sxd_xpath::context::Context<'d> {
        self.context
    }

    pub fn new(xml: &str, context: &'d sxd_xpath::context::Context<'d>) -> (r: Result<
        Self,
        XpathError,
    >)
        ensures
            r is Ok <==> well_formed_xml(xml@),
            r matches Ok(rd) ==> rd.context_spec() == context,
            r matches Err(e) ==> e is XmlParseError,
    {
        match parse_document(xml) {
            Ok(package) => Ok(
                XpathStrReader { context: context, factory: new_factory(), package: package },
            ),
            Err(msg) => Err(XpathError::XmlParseError(msg)),
        }
    }

    /// Evaluate an XPath expression against the root of the parsed document.
    /// A failure is always one of the engine's own kinds: a compile failure
    /// or an evaluation failure.
    pub fn evaluate_doc(&'d self, xpath_expr: &str) -> (r: Result<QueryValue<'d>, XpathError>)
        requires
            prefix_free(xpath_expr@),
        ensures
            r matches Err(e) ==> is_engine_error(e),
            !query_compiles(xpath_expr@) ==> (r matches Err(e) && (e is XpathParseError || (
            e matches XpathError::Message(m) && m@ == "Xpath instance was `None`!"@))),
            query_compiles(xpath_expr@) ==> (r matches Err(e) ==> e is XpathExecuteError),
    {
        let xpath = match build_xpath(&self.factory, xpath_expr) {
            Ok(x) => x,
            Err(e) => return Err(e),
        };
        match xpath_evaluate(&xpath, self.context, document_root(&self.package)) {
            Ok(v) => Ok(classify_value(v)),
            Err(msg) => Err(XpathError::XpathExecuteError(msg)),
        }
    }
}

/// Compiles an XPath expression with the given factory.
fn build_xpath(factory: &sxd_xpath::Factory, xpath_expr: &str) -> (r: Result<
    CompiledXpath,
    XpathError,
>)
    ensures
        r is Ok <==> query_compiles(xpath_expr@),
        r matches Ok(x) ==> x.text() == xpath_expr@,
        r matches Err(e) ==> (e is XpathParseError || (e matches XpathError::Message(m) && m@
            == "Xpath instance was `None`!"@)),
{
    match factory_build(factory, xpath_expr) {
        Ok(Some(xpath)) => Ok(CompiledXpath { xpath: xpath, text: Ghost(xpath_expr@) }),
        Ok(None) => Err(XpathError::Message("Xpath instance was `None`!".to_owned())),
        Err(msg) => Err(XpathError::XpathParseError(msg)),
    }
}

impl<'d> XpathReader<'d> for XpathStrReader<'d> {
    open spec fn ctx(&self) -> &'d sxd_xpath::context::Context<'d> {
        self.context_spec()
    }

    fn evaluate(&'d self, xpath_expr: &str) -> (r: Result<QueryValue<'d>, XpathError>) {
        self.evaluate_doc(xpath_expr)
    }

    fn context(&'d self) -> (r: &'d sxd_xpath::context::Context<'d>) {
        self.context
    }

    fn read<V: FromXml>(&'d self, xpath_expr: &str) -> (r: Result<V, XpathError>) {
        let value = match self.evaluate_doc(xpath_expr) {
            Ok(v) => v,
            Err(e) => return Err(e),
        };
        read_value::<V>(value, xpath_expr, self.context)
    }

    fn read_option<V: OptionFromXml>(&'d self, xpath_expr: &str) -> (r: Result<
        Option<V>,
        XpathError,
    >) {
        let value = match self.evaluate_doc(xpath_expr) {
            Ok(v) => v,
            Err(e) => return Err(e),
        };
        read_option_value::<V>(value, xpath_expr, self.context)
    }

    fn read_vec<Item: FromXml>(&'d self, xpath_expr: &str) -> (r: Result<Vec<Item>, XpathError>) {
        let value = match self.evaluate_doc(xpath_expr) {
            Ok(v) => v,
            Err(e) => return Err(e),
        };
        read_vec_value::<Item>(value, self.context)
    }

    fn relative(&'d self, xpath_expr: &str) -> (r: Result<XpathNodeReader<'d>, XpathError>) {
        let value = match self.evaluate_doc(xpath_expr) {
            Ok(v) => v,
            Err(e) => return Err(e),
        };
        first_node_reader(value, xpath_expr, self.context)
    }
}

/// Reader that takes a node as input and runs expressions against this node
/// as root.
pub struct XpathNodeReader<'d> {
    factory: sxd_xpath::Factory,
    node: sxd_xpath::nodeset::Node<'d>,
    context: &'d sxd_xpath::context::Context<'d>,
}

impl<'d> XpathNodeReader<'d> {
    /// The node this reader is rooted at.
    pub closed spec fn root_node(&self) -> sxd_xpath::nodeset::Node<'d> {
        self.node
    }

    /// The evaluation context this reader was built against.
    pub closed spec fn context_spec(&self) -> &'d sxd_xpath::context::Context<'d> {
        self.context
    }

    pub fn new(node: sxd_xpath::nodeset::Node<'d>, context: &'d sxd_xpath::context::Context<'d>)
        -> (r: Result<Self, XpathError>)
        ensures
            r matches Ok(rd) && rd.root_node() == node && rd.context_spec() == context,
    {
        Ok(XpathNodeReader { node: node, factory: new_factory(), context: context })
    }

    /// Evaluate an XPath expression against this reader's node.  A failure
    /// is always one of the engine's own kinds: a compile failure or an
    /// evaluation failure.
    pub fn evaluate_node(&'d self, xpath_expr: &str) -> (r: Result<QueryValue<'d>, XpathError>)
        requires
            prefix_free(xpath_expr@),
        ensures
            r matches Err(e) ==> is_engine_error(e),
            !query_compiles(xpath_expr@) ==> (r matches Err(e) && (e is XpathParseError || (
            e matches XpathError::Message(m) && m@ == "Xpath instance was `None`!"@))),
            query_compiles(xpath_expr@) ==> (r matches Err(e) ==> e is XpathExecuteError),
    {
        let xpath = match build_xpath(&self.factory, xpath_expr) {
            Ok(x) => x,
            Err(e) => return Err(e),
        };
        match xpath_evaluate(&xpath, self.context, copy_node(&self.node)) {
            Ok(v) => Ok(classify_value(v)),
            Err(msg) => Err(XpathError::XpathExecuteError(msg)),
        }
    }
}

impl<'d> XpathReader<'d> for XpathNodeReader<'d> {
    open spec fn ctx(&self) -> &'d sxd_xpath::context::Context<'d> {
        self.context_spec()
    }

    fn evaluate(&'d self, xpath_expr: &str) -> (r: Result<QueryValue<'d>, XpathError>) {
        self.evaluate_node(xpath_expr)
    }

    fn context(&'d self) -> (r: &'d sxd_xpath::context::Context<'d>) {
        self.context
    }

    fn read<V: FromXml>(&'d self, xpath_expr: &str) -> (r: Result<V, XpathError>) {
        let value = match self.evaluate_node(xpath_expr) {
            Ok(v) => v,
            Err(e) => return Err(e),
        };
        read_value::<V>(value, xpath_expr, self.context)
    }

    fn read_option<V: OptionFromXml>(&'d self, xpath_expr: &str) -> (r: Result<
        Option<V>,
        XpathError,
    >) {
        let value = match self.evaluate_node(xpath_expr) {
            Ok(v) => v,
            Err(e) => return Err(e),
        };
        read_option_value::<V>(value, xpath_expr, self.context)
    }

    fn read_vec<Item: FromXml>(&'d self, xpath_expr: &str) -> (r: Result<Vec<Item>, XpathError>) {
        let value = match self.evaluate_node(xpath_expr) {
            Ok(v) => v,
            Err(e) => return Err(e),
        };
        read_vec_value::<Item>(value, self.context)
    }

    fn relative(&'d self, xpath_expr: &str) -> (r: Result<XpathNodeReader<'d>, XpathError>) {
        let value = match self.evaluate_node(xpath_expr) {
            Ok(v) => v,
            Err(e) => return Err(e),
        };
        first_node_reader(value, xpath_expr, self.context)
    }
}

/// Turns an empty text into absence and keeps any other text.
pub fn optional_text(s: String) -> (r: Option<String>)
    ensures
        s@.len() == 0 ==> r is None,
        s@.len() > 0 ==> r == Some(s),
{
    if s.as_str().unicode_len() == 0 {
        None
    } else {
        Some(s)
    }
}

impl FromXmlElement for String {

}

impl FromXml for String {
    /// The string value of the reader's own root; an element or attribute
    /// with no text content converts to the empty string, not an error.
    fn from_xml<'d>(reader: &'d XpathNodeReader<'d>) -> (r: Result<Self, XpathError>)
        ensures
            r matches Err(e) ==> is_engine_error(e),
    {
        proof {
            reveal_strlit(".");
            assert forall|i: int| 0 <= i < "."@.len() implies #[trigger] colon_ok_at(
                "."@,
                i,
            ) by {
                assert("."@[i] == '.');
            }
        }
        match reader.evaluate_node(".") {
            Ok(value) => Ok(value.string_value()),
            Err(e) => Err(e),
        }
    }
}

impl OptionFromXml for String {
    /// An empty string is parsed to `None` while any other string is parsed
    /// to `Some(String)` containing the string value.
    fn option_from_xml<'d>(reader: &'d XpathNodeReader<'d>) -> (r: Result<Option<Self>, XpathError>)
        ensures
            r matches Ok(o) ==> (o matches Some(s) ==> s@.len() > 0),
            r matches Err(e) ==> is_engine_error(e),
    {
        let s = match String::from_xml(reader) {
            Ok(s) => s,
            Err(e) => return Err(e),
        };
        Ok(optional_text(s))
    }
}

impl FromXmlElement for bool {

}

impl FromXml for bool {
    /// The text `true` or `false`, exactly; any other text fails the
    /// conversion.
    fn from_xml<'d>(reader: &'d XpathNodeReader<'d>) -> (r: Result<Self, XpathError>)
        ensures
            r matches Err(e) ==> is_engine_error(e) || e is FromXmlError,
    {
        let s = match String::from_xml(reader) {
            Ok(s) => s,
            Err(e) => return Err(e),
        };
        scalar::bool_from_text(s.as_str())
    }
}

impl FromXmlElement for u8 {

}

impl FromXml for u8 {
    /// The text of the reader's root, parsed as a decimal unsigned integer.
    fn from_xml<'d>(reader: &'d XpathNodeReader<'d>) -> (r: Result<Self, XpathError>)
        ensures
            r matches Err(e) ==> is_engine_error(e) || e is FromXmlError,
    {
        let s = match String::from_xml(reader) {
            Ok(s) => s,
            Err(e) => return Err(e),
        };
        scalar::u8_from_text(s.as_str())
    }
}

impl FromXmlElement for u16 {

}

impl FromXml for u16 {
    /// The text of the reader's root, parsed as a decimal unsigned integer.
    fn from_xml<'d>(reader: &'d XpathNodeReader<'d>) -> (r: Result<Self, XpathError>)
        ensures
            r matches Err(e) ==> is_engine_error(e) || e is FromXmlError,
    {
        let s = match String::from_xml(reader) {
            Ok(s) => s,
            Err(e) => return Err(e),
        };
        scalar::u16_from_text(s.as_str())
    }
}

impl FromXmlElement for u32 {

}

impl FromXml for u32 {
    /// The text of the reader's root, parsed as a decimal unsigned integer.
    fn from_xml<'d>(reader: &'d XpathNodeReader<'d>) -> (r: Result<Self, XpathError>)
        ensures
            r matches Err(e) ==> is_engine_error(e) || e is FromXmlError,
    {
        let s = match String::from_xml(reader) {
            Ok(s) => s,
            Err(e) => return Err(e),
        };
        scalar::u32_from_text(s.as_str())
    }
}

impl FromXmlElement for u64 {

}

impl FromXml for u64 {
    /// The text of the reader's root, parsed as a decimal unsigned integer.
    fn from_xml<'d>(reader: &'d XpathNodeReader<'d>) -> (r: Result<Self, XpathError>)
        ensures
            r matches Err(e) ==> is_engine_error(e) || e is FromXmlError,
    {
        let s = match String::from_xml(reader) {
            Ok(s) => s,
            Err(e) => return Err(e),
        };
        scalar::u64_from_text(s.as_str())
    }
}

impl FromXmlElement for i8 {

}

impl FromXml for i8 {
    /// The text of the reader's root, parsed as a decimal signed integer.
    fn from_xml<'d>(reader: &'d XpathNodeReader<'d>) -> (r: Result<Self, XpathError>)
        ensures
            r matches Err(e) ==> is_engine_error(e) || e is FromXmlError,
    {
        let s = match String::from_xml(reader) {
            Ok(s) => s,
            Err(e) => return Err(e),
        };
        scalar::i8_from_text(s.as_str())
    }
}

impl FromXmlElement for i16 {

}

impl FromXml for i16 {
    /// The text of the reader's root, parsed as a decimal signed integer.
    fn from_xml<'d>(reader: &'d XpathNodeReader<'d>) -> (r: Result<Self, XpathError>)
        ensures
            r matches Err(e) ==> is_engine_error(e) || e is FromXmlError,
    {
        let s = match String::from_xml(reader) {
            Ok(s) => s,
            Err(e) => return Err(e),
        };
        scalar::i16_from_text(s.as_str())
    }
}

impl FromXmlElement for i32 {

}

impl FromXml for i32 {
    /// The text of the reader's root, parsed as a decimal signed integer.
    fn from_xml<'d>(reader: &'d XpathNodeReader<'d>) -> (r: Result<Self, XpathError>)
        ensures
            r matches Err(e) ==> is_engine_error(e) || e is FromXmlError,
    {
        let s = match String::from_xml(reader) {
            Ok(s) => s,
            Err(e) => return Err(e),
        };
        scalar::i32_from_text(s.as_str())
    }
}

impl FromXmlElement for i64 {

}

impl FromXml for i64 {
    /// The text of the reader's root, parsed as a decimal signed integer.
    fn from_xml<'d>(reader: &'d XpathNodeReader<'d>) -> (r: Result<Self, XpathError>)
        ensures
            r matches Err(e) ==> is_engine_error(e) || e is FromXmlError,
    {
        let s = match String::from_xml(reader) {
            Ok(s) => s,
            Err(e) => return Err(e),
        };
        scalar::i64_from_text(s.as_str())
    }
}

} // verus!
