//! Readers: a document or one of its nodes, and path expressions evaluated
//! from there into text, identifiers, dates, lists and readers of sub-nodes.

use crate::entities::date::{parse_date, Date};
use crate::errors::{result_view, DataProblem, ReadError, ReadErrorView, XpathFailure};
use crate::expression::{
    has_bound_prefixes, lemma_supported_names_bound_prefixes, names_bound_prefixes, supported,
};
use crate::mbid::{parse_mbid, Mbid};
use crate::text::{chars_of, decimal_value, lemma_decimal_value_bounded, parse_decimal};
use crate::sxd::{
    bound_xpath, compile_xpath, context_with_namespace, evaluate_xpath, failure_location,
    location_of, mb_context, nodes_of, package_root, parse_xml, plain_value, plain_xpath, root_of,
    string_of, value_nodes, value_string, xml_parsed, xpath_compiled, xpath_evaluated,
};
use sxd_document::Package;
use sxd_xpath::nodeset::Node;
use sxd_xpath::{Context, ExecutionError, ParserError, Value, XPath};
use vstd::prelude::*;

verus! {

/// The context in which every reader evaluates: the core functions of XPath
/// and the namespace of the web service under the prefix `mb`.
pub fn default_musicbrainz_context<'d>() -> (context: Context<'d>)
    ensures
        context == mb_context(),
{
    context_with_namespace("mb", "http://musicbrainz.org/ns/mmd-2.0#")
}

/// The compiled form of `expr`, or why there is none: the expression names a
/// prefix other than `mb`, it is not well-formed, or it is empty.
pub open spec fn build_outcome(expr: Seq<char>) -> Result<XPath, XpathFailure> {
    if !names_bound_prefixes(expr) {
        Err(XpathFailure::UnboundPrefix)
    } else {
        match xpath_compiled(expr) {
            Err(_) => Err(XpathFailure::Syntax),
            Ok(None) => Err(XpathFailure::Empty),
            Ok(Some(xpath)) => Ok(xpath),
        }
    }
}

/// The failure with which `expr` is turned away before it is evaluated, if it
/// is turned away. This is so of every expression, plain or not.
pub open spec fn refusal(expr: Seq<char>) -> Option<ReadErrorView> {
    match build_outcome(expr) {
        Err(failure) => Some(ReadErrorView::XmlXpathError { failure, expr }),
        Ok(_) => None,
    }
}

/// The failure that a failed evaluation of `expr` reports: why it has no
/// compiled form, or else that its execution failed.
pub open spec fn failure_of(expr: Seq<char>) -> ReadErrorView {
    match build_outcome(expr) {
        Err(failure) => ReadErrorView::XmlXpathError { failure, expr },
        Ok(_) => ReadErrorView::XmlXpathError { failure: XpathFailure::Execution, expr },
    }
}

/// What the plain path `expr` evaluates to at the node `root`. No plain path
/// is turned away for its prefixes.
pub open spec fn evaluation(root: Node, expr: Seq<char>) -> Result<Value<'static>, XpathFailure> {
    match xpath_compiled(expr) {
        Err(_) => Err(XpathFailure::Syntax),
        Ok(None) => Err(XpathFailure::Empty),
        Ok(Some(xpath)) => match xpath_evaluated(xpath, mb_context(), root) {
            Err(_) => Err(XpathFailure::Execution),
            Ok(value) => Ok(value),
        },
    }
}

/// The node at which the document `text` is read, or the failure to parse it.
pub open spec fn document_root(text: Seq<char>) -> Result<Node<'static>, ReadErrorView> {
    match xml_parsed(text) {
        Ok(package) => Ok(package_root(package)),
        Err(error) => Err(ReadErrorView::XmlParserError { location: failure_location(error) }),
    }
}

/// The text that `expr` gives at `root`: the string value of what it evaluates
/// to, which is empty where it selects nothing.
pub open spec fn text_at(root: Node, expr: Seq<char>) -> Result<Seq<char>, ReadErrorView> {
    match evaluation(root, expr) {
        Ok(value) => Ok(value_string(value)),
        Err(failure) => Err(ReadErrorView::XmlXpathError { failure, expr }),
    }
}

/// `None` for the empty text, the text itself otherwise.
pub open spec fn optional(text: Seq<char>) -> Option<Seq<char>> {
    if text.len() == 0 {
        None
    } else {
        Some(text)
    }
}

/// The text of an optional string.
pub open spec fn text_option(text: Option<String>) -> Option<Seq<char>> {
    match text {
        Some(text) => Some(text@),
        None => None,
    }
}

/// The view of an optional value.
pub open spec fn option_view<T: View>(value: Option<T>) -> Option<T::V> {
    match value {
        Some(value) => Some(value@),
        None => None,
    }
}

/// The text that `expr` gives at `root`, if it is not empty.
pub open spec fn optional_text_at(root: Node, expr: Seq<char>) -> Result<
    Option<Seq<char>>,
    ReadErrorView,
> {
    match text_at(root, expr) {
        Ok(text) => Ok(optional(text)),
        Err(e) => Err(e),
    }
}

/// The identifier that `expr` gives at `root`.
pub open spec fn mbid_at(root: Node, expr: Seq<char>) -> Result<Mbid, ReadErrorView> {
    match text_at(root, expr) {
        Ok(text) => parse_mbid(text),
        Err(e) => Err(e),
    }
}

/// The date that the text `text` spells, as a field that must be a date.
pub open spec fn required_date(text: Seq<char>) -> Result<Date, ReadErrorView> {
    match parse_date(text) {
        Ok(date) => Ok(date),
        Err(e) => Err(ReadErrorView::InvalidData { problem: DataProblem::Date(e), text }),
    }
}

/// The date that `expr` gives at `root`.
pub open spec fn date_at(root: Node, expr: Seq<char>) -> Result<Date, ReadErrorView> {
    match text_at(root, expr) {
        Ok(text) => required_date(text),
        Err(e) => Err(e),
    }
}

/// The date that the text `text` spells, as a field that may be unknown: a
/// text that is no date stands for no date.
pub open spec fn lenient_date(text: Seq<char>) -> Option<Date> {
    match parse_date(text) {
        Ok(date) => Some(date),
        Err(_) => None,
    }
}

/// The date that `expr` gives at `root`, if it gives one.
pub open spec fn optional_date_at(root: Node, expr: Seq<char>) -> Result<
    Option<Date>,
    ReadErrorView,
> {
    match text_at(root, expr) {
        Ok(text) => Ok(lenient_date(text)),
        Err(e) => Err(e),
    }
}

/// The number of at most `limit` that the text `text` spells.
pub open spec fn required_number(text: Seq<char>, limit: nat) -> Result<nat, ReadErrorView> {
    match decimal_value(text, limit) {
        Ok(number) => Ok(number),
        Err(e) => Err(ReadErrorView::InvalidData { problem: DataProblem::Number(e), text }),
    }
}

/// The number of at most `limit` that `expr` gives at `root`.
pub open spec fn number_at(root: Node, expr: Seq<char>, limit: nat) -> Result<nat, ReadErrorView> {
    match text_at(root, expr) {
        Ok(text) => required_number(text, limit),
        Err(e) => Err(e),
    }
}

/// The nodes that `expr` selects at `root`, in document order; none where it
/// evaluates to something that is no node set.
pub open spec fn nodes_at(root: Node, expr: Seq<char>) -> Result<Seq<Node<'static>>, ReadErrorView> {
    match evaluation(root, expr) {
        Ok(value) => match value_nodes(value) {
            Some(nodes) => Ok(nodes),
            None => Ok(Seq::empty()),
        },
        Err(failure) => Err(ReadErrorView::XmlXpathError { failure, expr }),
    }
}

/// The first node in document order that `expr` selects at `root`. That it
/// selects none, or evaluates to no node set, is a failure here.
pub open spec fn first_node_at(root: Node, expr: Seq<char>) -> Result<Node<'static>, ReadErrorView> {
    match evaluation(root, expr) {
        Ok(value) => match value_nodes(value) {
            Some(nodes) => if nodes.len() > 0 {
                Ok(nodes[0])
            } else {
                Err(ReadErrorView::InvalidData { problem: DataProblem::MissingNode, text: expr })
            },
            None => Err(
                ReadErrorView::InvalidData { problem: DataProblem::NotANodeset, text: expr },
            ),
        },
        Err(failure) => Err(ReadErrorView::XmlXpathError { failure, expr }),
    }
}

/// Whether `expr` selects nodes at `root` and finds none: the element or
/// attribute that it asks for is missing.
pub open spec fn selects_nothing(root: Node, expr: Seq<char>) -> bool {
    evaluation(root, expr) matches Ok(value) && value_nodes(value) == Some(
        Seq::<Node<'static>>::empty(),
    )
}

/// What a path expression evaluated to.
pub struct XPathValue<'d> {
    value: Value<'d>,
    context: &'d Context<'d>,
}

impl<'d> XPathValue<'d> {
    #[verifier::type_invariant]
    spec fn inv(self) -> bool {
        *self.context == mb_context()
    }

    /// The value of the evaluator that this one holds.
    pub closed spec fn value(&self) -> Value<'d> {
        self.value
    }

    /// The string value. Of what a plain path evaluated to it is the named
    /// string value, which is empty for a node set without nodes.
    pub fn string(&self) -> (r: String)
        ensures
            plain_value(self.value()) ==> r@ == value_string(self.value()),
            plain_value(self.value()) && value_nodes(self.value()) == Some(
                Seq::<Node<'static>>::empty(),
            ) ==> r@.len() == 0,
    {
        string_of(&self.value)
    }

    /// Readers at the nodes of a node set, in document order; `None` for a
    /// value that is no node set.
    pub fn document_order(&self) -> (r: Option<Vec<XPathNodeReader<'d>>>)
        ensures
            plain_value(self.value()) ==> match r {
                Some(readers) => value_nodes(self.value()) == Some(roots(readers@)),
                None => value_nodes(self.value()) is None,
            },
    {
        proof {
            use_type_invariant(self);
        }
        match nodes_of(&self.value) {
            None => None,
            Some(nodes) => {
                let mut readers: Vec<XPathNodeReader<'d>> = Vec::new();
                let mut i: usize = 0;
                while i < nodes.len()
                    invariant
                        i <= nodes.len(),
                        *self.context == mb_context(),
                        roots(readers@) == nodes@.take(i as int),
                    decreases nodes.len() - i,
                {
                    let ghost before = readers@;
                    readers.push(XPathNodeReader::new(nodes[i], self.context));
                    assert(roots(readers@) == roots(before).push(nodes@[i as int]));
                    assert(nodes@.take(i + 1) == nodes@.take(i as int).push(nodes@[i as int]));
                    i = i + 1;
                }
                assert(nodes@.take(nodes@.len() as int) == nodes@);
                Some(readers)
            },
        }
    }
}

/// The nodes at which the readers `readers` stand.
pub open spec fn roots<'d>(readers: Seq<XPathNodeReader<'d>>) -> Seq<Node<'d>> {
    Seq::new(readers.len(), |i: int| readers[i].node())
}

/// Compiles an expression that names no other prefix than `mb`.
pub fn build_xpath(xpath_expr: &str) -> (r: Result<XPath, ReadError>)
    ensures
        match r {
            Ok(xpath) => build_outcome(xpath_expr@) == Ok::<XPath, XpathFailure>(xpath),
            Err(e) => build_outcome(xpath_expr@) is Err && refusal(xpath_expr@) == Some(e@),
        },
{
    if !has_bound_prefixes(xpath_expr) {
        return Err(ReadError::xpath(XpathFailure::UnboundPrefix, xpath_expr));
    }
    match compile_xpath(xpath_expr) {
        Ok(Some(xpath)) => Ok(xpath),
        Ok(None) => Err(ReadError::xpath(XpathFailure::Empty, xpath_expr)),
        Err(_) => Err(ReadError::xpath(XpathFailure::Syntax, xpath_expr)),
    }
}

/// What evaluating `xpath_expr` at `node` returned. An expression that has no
/// compiled form fails, and with that reason; any other failure is one of
/// execution. For a plain path the result is the value, or the failure, that
/// the document and the path determine.
pub open spec fn evaluated<'d>(
    node: Node<'d>,
    xpath_expr: Seq<char>,
    r: Result<XPathValue<'d>, ReadError>,
) -> bool {
    &&& build_outcome(xpath_expr) is Err ==> r is Err
    &&& r matches Err(e) ==> e@ == failure_of(xpath_expr)
    &&& supported(xpath_expr) ==> match r {
        Ok(value) => plain_value(value.value()) && evaluation(node, xpath_expr) == Ok::<
            Value<'static>,
            XpathFailure,
        >(value.value()),
        Err(e) => evaluation(node, xpath_expr) matches Err(failure) && e@ == (
        ReadErrorView::XmlXpathError { failure, expr: xpath_expr }),
    }
}

fn evaluate_at<'d>(context: &'d Context<'d>, node: Node<'d>, xpath_expr: &str) -> (r: Result<
    XPathValue<'d>,
    ReadError,
>)
    requires
        *context == mb_context(),
    ensures
        evaluated(node, xpath_expr@, r),
{
    proof {
        if supported(xpath_expr@) {
            lemma_supported_names_bound_prefixes(xpath_expr@);
        }
    }
    let xpath = build_xpath(xpath_expr)?;
    proof {
        assert(xpath_compiled(xpath_expr@) == Ok::<Option<XPath>, ParserError>(Some(xpath)));
        assert(bound_xpath(xpath));
        if supported(xpath_expr@) {
            assert(plain_xpath(xpath));
        }
    }
    match evaluate_xpath(&xpath, context, node) {
        Ok(value) => {
            proof {
                if supported(xpath_expr@) {
                    assert(xpath_evaluated(xpath, mb_context(), node) == Ok::<
                        Value<'static>,
                        ExecutionError,
                    >(value));
                    assert(plain_value(value));
                }
            }
            Ok(XPathValue { value, context })
        },
        Err(_) => Err(ReadError::xpath(XpathFailure::Execution, xpath_expr)),
    }
}

/// Allows to execute XPath expressions on some kind of abstract document
/// structure.
pub trait XPathReader<'d>: Sized {
    /// The node at which this reader evaluates.
    spec fn root(&self) -> Node<'d>;

    /// Evaluate an XPath expression on the root of this reader.
    fn evaluate(&'d self, xpath_expr: &str) -> (r: Result<XPathValue<'d>, ReadError>)
        ensures
            evaluated(self.root(), xpath_expr@, r),
    ;

    /// Return a reference to the context of the reader.
    fn context(&'d self) -> (context: &'d Context<'d>)
        ensures
            *context == mb_context(),
    ;

    /// Evaluate an XPath expression, parsing the result into a `Mbid`.
    fn read_mbid(&'d self, xpath_expr: &str) -> (r: Result<Mbid, ReadError>)
        ensures
            supported(xpath_expr@) ==> result_view(r) == mbid_at(self.root(), xpath_expr@),
            turned_away(xpath_expr@, r),
    {
        let text = self.read_string(xpath_expr)?;
        Mbid::parse_str(text.as_str())
    }

    /// Evaluate an XPath expression, parsing the result into a `String`. Where
    /// a plain path selects no node, the string is empty.
    fn read_string(&'d self, xpath_expr: &str) -> (r: Result<String, ReadError>)
        ensures
            supported(xpath_expr@) ==> result_view(r) == text_at(self.root(), xpath_expr@),
            supported(xpath_expr@) && selects_nothing(self.root(), xpath_expr@) ==> (r matches Ok(
                text,
            ) && text@.len() == 0),
            turned_away(xpath_expr@, r),
            r matches Err(e) ==> e@ == failure_of(xpath_expr@),
    {
        Ok(self.evaluate(xpath_expr)?.string())
    }

    /// Evaluate an XPath expression, parsing the result into an
    /// `Option<String>` which is `None` when it would be parsed into an empty
    /// string otherwise.
    fn read_nstring(&'d self, xpath_expr: &str) -> (r: Result<Option<String>, ReadError>)
        ensures
            supported(xpath_expr@) ==> match r {
                Ok(text) => optional_text_at(self.root(), xpath_expr@) == Ok::<
                    Option<Seq<char>>,
                    ReadErrorView,
                >(text_option(text)),
                Err(e) => optional_text_at(self.root(), xpath_expr@) == Err::<
                    Option<Seq<char>>,
                    ReadErrorView,
                >(e@),
            },
            supported(xpath_expr@) && selects_nothing(self.root(), xpath_expr@) ==> (r matches Ok(
                None,
            )),
            (r matches Ok(Some(text)) ==> text@.len() > 0),
            turned_away(xpath_expr@, r),
            r matches Err(e) ==> e@ == failure_of(xpath_expr@),
    {
        let text = self.read_string(xpath_expr)?;
        Ok(crate::text::non_empty_string(text))
    }

    /// Evaluate an XPath expression, parsing the result into a `Date`.
    fn read_date(&'d self, xpath_expr: &str) -> (r: Result<Date, ReadError>)
        ensures
            supported(xpath_expr@) ==> result_view(r) == date_at(self.root(), xpath_expr@),
            turned_away(xpath_expr@, r),
    {
        let text = self.read_string(xpath_expr)?;
        match Date::from_str(text.as_str()) {
            Ok(date) => Ok(date),
            Err(e) => Err(ReadError::invalid(DataProblem::Date(e), text.as_str())),
        }
    }

    /// Evaluate an XPath expression, parsing the result into a `Date` where it
    /// is one. A text that is no date, the empty one too, gives `None`.
    fn read_date_option(&'d self, xpath_expr: &str) -> (r: Result<Option<Date>, ReadError>)
        ensures
            supported(xpath_expr@) ==> result_view(r) == optional_date_at(
                self.root(),
                xpath_expr@,
            ),
            turned_away(xpath_expr@, r),
            r matches Err(e) ==> e@ == failure_of(xpath_expr@),
    {
        let text = self.read_string(xpath_expr)?;
        match Date::from_str(text.as_str()) {
            Ok(date) => Ok(Some(date)),
            Err(_) => Ok(None),
        }
    }

    /// Evaluate an XPath expression, parsing the result into a number of at
    /// most `limit`.
    fn read_number(&'d self, xpath_expr: &str, limit: u64) -> (r: Result<u64, ReadError>)
        ensures
            supported(xpath_expr@) ==> match r {
                Ok(number) => number_at(self.root(), xpath_expr@, limit as nat) == Ok::<
                    nat,
                    ReadErrorView,
                >(number as nat),
                Err(e) => number_at(self.root(), xpath_expr@, limit as nat) == Err::<
                    nat,
                    ReadErrorView,
                >(e@),
            },
            r matches Ok(number) ==> number <= limit,
            turned_away(xpath_expr@, r),
    {
        let text = self.read_string(xpath_expr)?;
        let chars = chars_of(text.as_str());
        match parse_decimal(&chars, limit) {
            Ok(number) => {
                proof {
                    lemma_decimal_value_bounded(chars@, limit as nat);
                }
                Ok(number)
            },
            Err(e) => Err(ReadError::invalid(DataProblem::Number(e), text.as_str())),
        }
    }

    /// Evaluates an XPath query, takes the first returned node (in document
    /// order) and creates a new reader with that node as its root.
    fn relative_reader(&'d self, xpath_expr: &str) -> (r: Result<XPathNodeReader<'d>, ReadError>)
        ensures
            supported(xpath_expr@) ==> match r {
                Ok(reader) => first_node_at(self.root(), xpath_expr@) == Ok::<
                    Node<'static>,
                    ReadErrorView,
                >(reader.node()),
                Err(e) => first_node_at(self.root(), xpath_expr@) == Err::<
                    Node<'static>,
                    ReadErrorView,
                >(e@),
            },
            turned_away(xpath_expr@, r),
    {
        let value = self.evaluate(xpath_expr)?;
        match value.document_order() {
            Some(mut readers) => {
                if readers.len() > 0 {
                    Ok(readers.swap_remove(0))
                } else {
                    Err(ReadError::invalid(DataProblem::MissingNode, xpath_expr))
                }
            },
            None => Err(ReadError::invalid(DataProblem::NotANodeset, xpath_expr)),
        }
    }
}

/// Whether `r` is the failure with which `expr` is turned away, where it is
/// turned away.
pub open spec fn turned_away<T>(expr: Seq<char>, r: Result<T, ReadError>) -> bool {
    refusal(expr) matches Some(e) ==> (r matches Err(x) && x@ == e)
}

/// Reader that parses an XML string and runs expressions against the root
/// element.
pub struct XPathStrReader {
    context: Context<'static>,
    package: Package,
}

/// Reader that takes another node as input and allows parsing against this
/// node as root.
pub struct XPathNodeReader<'d> {
    node: Node<'d>,
    context: &'d Context<'d>,
}

impl XPathStrReader {
    #[verifier::type_invariant]
    spec fn inv(self) -> bool {
        self.context == mb_context()
    }

    /// Parses `xml` and makes a reader at the root of the document.
    pub fn new(xml: &str) -> (r: Result<Self, ReadError>)
        ensures
            match r {
                Ok(reader) => document_root(xml@) == Ok::<Node<'static>, ReadErrorView>(
                    reader.root(),
                ),
                Err(e) => document_root(xml@) == Err::<Node<'static>, ReadErrorView>(e@),
            },
    {
        match parse_xml(xml) {
            Ok(package) => Ok(XPathStrReader { context: default_musicbrainz_context(), package }),
            Err(error) => Err(ReadError::XmlParserError { location: location_of(&error) }),
        }
    }
}

impl<'d> XPathReader<'d> for XPathStrReader {
    closed spec fn root(&self) -> Node<'d> {
        package_root(self.package)
    }

    fn evaluate(&'d self, xpath_expr: &str) -> (r: Result<XPathValue<'d>, ReadError>) {
        proof {
            use_type_invariant(self);
        }
        evaluate_at(&self.context, root_of(&self.package), xpath_expr)
    }

    fn context(&'d self) -> (context: &'d Context<'d>) {
        proof {
            use_type_invariant(self);
        }
        &self.context
    }
}

impl<'d> XPathNodeReader<'d> {
    #[verifier::type_invariant]
    spec fn inv(self) -> bool {
        *self.context == mb_context()
    }

    /// The node that this reader stands at.
    pub closed spec fn node(&self) -> Node<'d> {
        self.node
    }

    /// A reader at `node`, which evaluates in `context`: the context that
    /// `default_musicbrainz_context` makes. The document of the node must not
    /// be changed as long as a reader stands in it.
    pub fn new(node: Node<'d>, context: &'d Context<'d>) -> (r: Self)
        requires
            *context == mb_context(),
        ensures
            r.node() == node,
    {
        XPathNodeReader { node, context }
    }
}

impl<'d> XPathReader<'d> for XPathNodeReader<'d> {
    open spec fn root(&self) -> Node<'d> {
        self.node()
    }

    fn evaluate(&'d self, xpath_expr: &str) -> (r: Result<XPathValue<'d>, ReadError>) {
        proof {
            use_type_invariant(self);
        }
        evaluate_at(self.context, self.node, xpath_expr)
    }

    fn context(&'d self) -> (context: &'d Context<'d>) {
        proof {
            use_type_invariant(self);
        }
        self.context
    }
}

/// A trait to abstract the idea of something that can be parsed from XML.
pub trait FromXml: Sized + View {
    /// What reading an instance at the node `root` gives.
    spec fn decoded(root: Node) -> Result<Self::V, ReadErrorView>;

    /// Read an instance of `Self` from the provided `reader`.
    ///
    /// The reader can be relative to a specific element. Whether the root of
    /// the document contains the element to be parsed or is the element to be
    /// parsed can be specified by the additional traits `FromXmlContained` and
    /// `FromXmlElement`.
    fn from_xml<'d, R: XPathReader<'d>>(reader: &'d R) -> (r: Result<Self, ReadError>)
        ensures
            result_view(r) == Self::decoded(reader.root()),
    ;
}

/// `FromXml` takes a reader as input whose root element **contains** the
/// relevant element.
pub trait FromXmlContained: FromXml {

}

/// `FromXml` takes a reader as input whose root element **is** the relevant
/// element.
pub trait FromXmlElement: FromXml {

}

impl FromXmlElement for String {

}

impl FromXml for String {
    open spec fn decoded(root: Node) -> Result<Seq<char>, ReadErrorView> {
        text_at(root, "."@)
    }

    fn from_xml<'d, R: XPathReader<'d>>(reader: &'d R) -> (r: Result<Self, ReadError>) {
        proof {
            assert(supported("."@)) by {
                reveal_strlit(".");
            }
        }
        reader.read_string(".")
    }
}

/// The views of the items of a list.
pub open spec fn views<T: View>(items: Seq<T>) -> Seq<T::V> {
    Seq::new(items.len(), |i: int| items[i]@)
}

/// What reading one `Item` at each of `nodes` gives, in their order: the
/// items, or the failure at the first node that has one.
pub open spec fn decoded_all<Item: FromXml>(nodes: Seq<Node>) -> Result<
    Seq<Item::V>,
    ReadErrorView,
>
    decreases nodes.len(),
{
    if nodes.len() == 0 {
        Ok(Seq::empty())
    } else {
        match decoded_all::<Item>(nodes.drop_last()) {
            Err(e) => Err(e),
            Ok(items) => match Item::decoded(nodes.last()) {
                Err(e) => Err(e),
                Ok(item) => Ok(items.push(item)),
            },
        }
    }
}

/// The list of `Item` that `expr` gives at `root`: one for each node that it
/// selects, in document order.
pub open spec fn list_at<Item: FromXml>(root: Node, expr: Seq<char>) -> Result<
    Seq<Item::V>,
    ReadErrorView,
> {
    match nodes_at(root, expr) {
        Ok(nodes) => decoded_all::<Item>(nodes),
        Err(e) => Err(e),
    }
}

/// Read the nodeset specified by the `xpath_expr`, which can be anything which
/// can be deserialized from XML, into a `Vec`. If something other than a
/// nodeset or nothing is found an empty vector will be returned.
pub fn read_vec<'d, R: XPathReader<'d>, Item: FromXmlElement>(reader: &'d R, xpath_expr: &str) -> (r:
    Result<Vec<Item>, ReadError>)
    ensures
        supported(xpath_expr@) ==> match r {
            Ok(items) => list_at::<Item>(reader.root(), xpath_expr@) == Ok::<
                Seq<Item::V>,
                ReadErrorView,
            >(views(items@)),
            Err(e) => list_at::<Item>(reader.root(), xpath_expr@) == Err::<
                Seq<Item::V>,
                ReadErrorView,
            >(e@),
        },
        turned_away(xpath_expr@, r),
{
    let value = reader.evaluate(xpath_expr)?;
    let mut items: Vec<Item> = Vec::new();
    assert(views(items@) == Seq::<Item::V>::empty());
    match value.document_order() {
        None => Ok(items),
        Some(readers) => {
            let ghost nodes = roots(readers@);
            let ghost plain = supported(xpath_expr@);
            let ghost expected = list_at::<Item>(reader.root(), xpath_expr@);
            assert(nodes.take(0).len() == 0);
            let mut i: usize = 0;
            while i < readers.len()
                invariant
                    i <= readers.len(),
                    nodes == roots(readers@),
                    plain == supported(xpath_expr@),
                    expected == list_at::<Item>(reader.root(), xpath_expr@),
                    plain ==> expected == decoded_all::<Item>(nodes),
                    refusal(xpath_expr@) is None,
                    decoded_all::<Item>(nodes.take(i as int)) == Ok::<Seq<Item::V>, ReadErrorView>(
                        views(items@),
                    ),
                decreases readers.len() - i,
            {
                proof {
                    assert(nodes.take(i + 1).drop_last() == nodes.take(i as int));
                    assert(nodes.take(i + 1).last() == readers@[i as int].node());
                }
                match Item::from_xml(&readers[i]) {
                    Ok(item) => {
                        let ghost before = items@;
                        items.push(item);
                        assert(views(items@) == views(before).push(item@));
                    },
                    Err(e) => {
                        proof {
                            assert(decoded_all::<Item>(nodes.take(i + 1)) == Err::<
                                Seq<Item::V>,
                                ReadErrorView,
                            >(e@));
                            lemma_decoded_all_failure_lasts::<Item>(nodes, i + 1);
                        }
                        return Err(e);
                    },
                }
                i = i + 1;
            }
            assert(nodes.take(nodes.len() as int) == nodes);
            Ok(items)
        },
    }
}

/// Once the reading of the first `k` nodes has failed, the reading of all of
/// them fails in the same way.
pub proof fn lemma_decoded_all_failure_lasts<Item: FromXml>(nodes: Seq<Node>, k: int)
    requires
        0 <= k <= nodes.len(),
        decoded_all::<Item>(nodes.take(k)) is Err,
    ensures
        decoded_all::<Item>(nodes) == decoded_all::<Item>(nodes.take(k)),
    decreases nodes.len() - k,
{
    if k < nodes.len() {
        assert(nodes.take(k + 1).drop_last() == nodes.take(k));
        lemma_decoded_all_failure_lasts::<Item>(nodes, k + 1);
    } else {
        assert(nodes.take(k) == nodes);
    }
}

/// An optional text is never the empty text: a field whose element is missing
/// and a field whose element is there without text both read as `None`.
pub proof fn lemma_optional_text_is_never_empty(root: Node, expr: Seq<char>)
    ensures
        optional_text_at(root, expr) matches Ok(Some(text)) ==> text.len() > 0,
        text_at(root, expr) matches Ok(text) ==> (optional_text_at(root, expr) == Ok::<
            Option<Seq<char>>,
            ReadErrorView,
        >(None) <==> text.len() == 0),
        text_at(root, expr) is Err ==> optional_text_at(root, expr) is Err,
{
}

/// A list that was read holds one item for each node, in the order of the
/// nodes: the item at each place is what reading the node at that place gives.
pub proof fn lemma_list_keeps_order<Item: FromXml>(nodes: Seq<Node>)
    ensures
        decoded_all::<Item>(nodes) matches Ok(items) ==> items.len() == nodes.len() && forall|
            i: int,
        |
            0 <= i < nodes.len() ==> #[trigger] Item::decoded(nodes[i]) == Ok::<
                Item::V,
                ReadErrorView,
            >(items[i]),
    decreases nodes.len(),
{
    if nodes.len() > 0 {
        lemma_list_keeps_order::<Item>(nodes.drop_last());
        if decoded_all::<Item>(nodes) is Ok {
            let before = decoded_all::<Item>(nodes.drop_last())->Ok_0;
            let items = decoded_all::<Item>(nodes)->Ok_0;
            assert forall|i: int| 0 <= i < nodes.len() implies #[trigger] Item::decoded(nodes[i])
                == Ok::<Item::V, ReadErrorView>(items[i]) by {
                if i < nodes.len() - 1 {
                    assert(nodes.drop_last()[i] == nodes[i]);
                    assert(items[i] == before[i]);
                }
            }
        }
    }
}

/// No item is left out of a list: where reading fails at one node, the list
/// fails, and with the failure of the first such node.
pub proof fn lemma_list_fails_fast<Item: FromXml>(nodes: Seq<Node>, i: int)
    requires
        0 <= i < nodes.len(),
        Item::decoded(nodes[i]) is Err,
        forall|j: int| 0 <= j < i ==> (#[trigger] Item::decoded(nodes[j])) is Ok,
    ensures
        decoded_all::<Item>(nodes) == Err::<Seq<Item::V>, ReadErrorView>(
            Item::decoded(nodes[i])->Err_0,
        ),
{
    lemma_prefix_is_read::<Item>(nodes, i);
    assert(nodes.take(i + 1).drop_last() == nodes.take(i));
    assert(nodes.take(i + 1).last() == nodes[i]);
    lemma_decoded_all_failure_lasts::<Item>(nodes, i + 1);
}

/// Where reading succeeds at each of the first `k` nodes, the list of these
/// nodes is read.
pub proof fn lemma_prefix_is_read<Item: FromXml>(nodes: Seq<Node>, k: int)
    requires
        0 <= k <= nodes.len(),
        forall|j: int| 0 <= j < k ==> (#[trigger] Item::decoded(nodes[j])) is Ok,
    ensures
        decoded_all::<Item>(nodes.take(k)) is Ok,
    decreases k,
{
    if k > 0 {
        lemma_prefix_is_read::<Item>(nodes, k - 1);
        assert(nodes.take(k).drop_last() == nodes.take(k - 1));
        assert(nodes.take(k).last() == nodes[k - 1]);
    }
}

/// Where reading fails at any node, the list fails.
pub proof fn lemma_list_fails_with_any<Item: FromXml>(nodes: Seq<Node>, i: int)
    requires
        0 <= i < nodes.len(),
        Item::decoded(nodes[i]) is Err,
    ensures
        decoded_all::<Item>(nodes) is Err,
{
    if decoded_all::<Item>(nodes) is Ok {
        lemma_list_keeps_order::<Item>(nodes);
    }
}

} // verus!
