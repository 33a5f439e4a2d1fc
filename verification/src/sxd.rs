//! The XML parser and the XPath evaluator: the types and calls of
//! `sxd_document` and `sxd_xpath` that the readers rest on.
//!
//! A document is parsed once and never changed afterwards, and a node stands
//! for one place in it. What is said here of a call is therefore said of the
//! text that was parsed and of the expression alone.

use crate::expression::{names_bound_prefixes, supported};
use sxd_document::Package;
use sxd_xpath::nodeset::Node;
use sxd_xpath::{Context, ExecutionError, ParserError, Value, XPath};
use vstd::prelude::*;

verus! {

#[verifier::external_type_specification]
#[verifier::external_body]
pub struct ExPackage(Package);

#[verifier::external_type_specification]
#[verifier::external_body]
pub struct ExDocumentError(sxd_document::parser::Error);

#[verifier::external_type_specification]
#[verifier::external_body]
pub struct ExNode<'d>(Node<'d>);

#[verifier::external_type_specification]
#[verifier::external_body]
pub struct ExContext<'d>(Context<'d>);

#[verifier::external_type_specification]
#[verifier::external_body]
pub struct ExValue<'d>(Value<'d>);

#[verifier::external_type_specification]
#[verifier::external_body]
pub struct ExXPath(XPath);

#[verifier::external_type_specification]
#[verifier::external_body]
pub struct ExParserError(ParserError);

#[verifier::external_type_specification]
#[verifier::external_body]
pub struct ExExecutionError(ExecutionError);

/// The document that the XML parser makes of `text`, or its refusal.
pub uninterp spec fn xml_parsed(text: Seq<char>) -> Result<Package, sxd_document::parser::Error>;

/// The offset in the text at which the XML parser gave up.
pub uninterp spec fn failure_location(error: sxd_document::parser::Error) -> usize;

/// The root node of a document.
pub uninterp spec fn package_root(package: Package) -> Node<'static>;

/// The evaluation context with the core functions of XPath and one namespace:
/// `uri`, bound to `prefix`.
pub uninterp spec fn namespace_context(prefix: Seq<char>, uri: Seq<char>) -> Context<'static>;

/// What the XPath compiler makes of `expr`.
pub uninterp spec fn xpath_compiled(expr: Seq<char>) -> Result<Option<XPath>, ParserError>;

/// What the evaluation of an expression that was compiled from a plain path
/// gives at `node`.
pub uninterp spec fn xpath_evaluated(xpath: XPath, context: Context, node: Node) -> Result<
    Value<'static>,
    ExecutionError,
>;

/// The string value of what a plain path evaluated to; for a node set, that of
/// its first node in document order, and the empty string if it has no node.
pub uninterp spec fn value_string(value: Value) -> Seq<char>;

/// The nodes of what a plain path evaluated to, in document order; `None` for
/// a value that is no node set.
pub uninterp spec fn value_nodes(value: Value) -> Option<Seq<Node<'static>>>;

/// The prefix that the path expressions of this library use.
pub open spec fn mb_prefix() -> Seq<char> {
    "mb"@
}

/// The namespace of the documents of the MusicBrainz web service.
pub open spec fn mb_namespace() -> Seq<char> {
    "http://musicbrainz.org/ns/mmd-2.0#"@
}

/// The context in which the readers evaluate: the namespace of the web
/// service under the prefix `mb`.
pub open spec fn mb_context() -> Context<'static> {
    namespace_context(mb_prefix(), mb_namespace())
}

/// Whether `xpath` was compiled from a plain path.
pub open spec fn plain_xpath(xpath: XPath) -> bool {
    exists|expr: Seq<char>| supported(expr) && #[trigger] xpath_compiled(expr) == Ok::<
        Option<XPath>,
        ParserError,
    >(Some(xpath))
}

/// Whether `xpath` was compiled from an expression that names no other prefix
/// than `mb`.
pub open spec fn bound_xpath(xpath: XPath) -> bool {
    exists|expr: Seq<char>|
        names_bound_prefixes(expr) && #[trigger] xpath_compiled(expr) == Ok::<
            Option<XPath>,
            ParserError,
        >(Some(xpath))
}

/// Whether `value` is what a plain path evaluated to.
pub open spec fn plain_value(value: Value) -> bool {
    exists|xpath: XPath, node: Node|
        plain_xpath(xpath) && #[trigger] xpath_evaluated(xpath, mb_context(), node) == Ok::<
            Value,
            ExecutionError,
        >(value)
}

/// `sxd_document::parser::parse`: the document depends on the text alone.
#[verifier::external_body]
pub(crate) fn parse_xml(text: &str) -> (r: Result<Package, sxd_document::parser::Error>)
    ensures
        r == xml_parsed(text@),
{
    sxd_document::parser::parse(text)
}

/// `sxd_document::parser::Error::location`.
#[verifier::external_body]
pub(crate) fn location_of(error: &sxd_document::parser::Error) -> (r: usize)
    ensures
        r == failure_location(*error),
{
    error.location()
}

/// `Package::as_document`, then `Document::root`, as a node of the evaluator.
#[verifier::external_body]
pub(crate) fn root_of<'d>(package: &'d Package) -> (r: Node<'d>)
    ensures
        r == package_root(*package),
{
    Node::Root(package.as_document().root())
}

/// `Context::new`, then `Context::set_namespace` with the one binding.
#[verifier::external_body]
pub(crate) fn context_with_namespace<'d>(prefix: &str, uri: &str) -> (r: Context<'d>)
    ensures
        r == namespace_context(prefix@, uri@),
{
    let mut context = Context::new();
    context.set_namespace(prefix, uri);
    context
}

/// `Factory::build` on a new `Factory`: the compiled expression, nothing for
/// an expression without tokens, or the refusal, by the expression alone.
#[verifier::external_body]
pub(crate) fn compile_xpath(expr: &str) -> (r: Result<Option<XPath>, ParserError>)
    ensures
        r == xpath_compiled(expr@),
{
    sxd_xpath::Factory::new().build(expr)
}

/// `XPath::evaluate`. With every prefix of the expression bound in the
/// context, the evaluator meets no unbound prefix. For an expression compiled
/// from a plain path, what it gives depends on the expression and the node
/// alone; of another expression nothing is said.
#[verifier::external_body]
pub(crate) fn evaluate_xpath<'d>(xpath: &XPath, context: &Context<'d>, node: Node<'d>) -> (r:
    Result<Value<'d>, ExecutionError>)
    requires
        bound_xpath(*xpath),
        *context == mb_context(),
    ensures
        plain_xpath(*xpath) ==> r == xpath_evaluated(*xpath, *context, node),
{
    xpath.evaluate(context, node)
}

/// `Value::string`. Of what a plain path evaluated to, the string depends on
/// the value alone, and the string value of a node set without nodes is the
/// empty string.
#[verifier::external_body]
pub(crate) fn string_of<'d>(value: &Value<'d>) -> (r: String)
    ensures
        plain_value(*value) ==> r@ == value_string(*value),
        plain_value(*value) && value_nodes(*value) == Some(Seq::<Node<'static>>::empty())
            ==> r@.len() == 0,
{
    value.string()
}

/// `Nodeset::document_order` on a value that is a node set. Of what a plain
/// path evaluated to, the nodes and their order depend on the value alone.
#[verifier::external_body]
pub(crate) fn nodes_of<'d>(value: &Value<'d>) -> (r: Option<Vec<Node<'d>>>)
    ensures
        plain_value(*value) ==> match r {
            Some(nodes) => value_nodes(*value) == Some(nodes@),
            None => value_nodes(*value) is None,
        },
{
    match value {
        Value::Nodeset(nodes) => Some(nodes.document_order()),
        _ => None,
    }
}

} // verus!
