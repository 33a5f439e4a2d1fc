use musicbrainz::entities::{
    default_musicbrainz_context, read_vec, FromXml, Mbid, XPathNodeReader, XPathReader,
    XPathStrReader,
};
use musicbrainz::{DataProblem, ReadError, XpathFailure};
use sxd_xpath::Value::Nodeset;

const DOC_1: &'static str =
    r#"<?xml version="1.0" encoding="UTF-8"?><root><child name="Hello World"/></root>"#;

#[test]
fn xpath_str_reader() {
    let reader = XPathStrReader::new(DOC_1).unwrap();
    assert_eq!(
        reader.evaluate(".//child/@name").unwrap().string(),
        "Hello World".to_string()
    );
}

#[test]
fn xpath_node_reader() {
    let package = sxd_document::parser::parse(DOC_1).unwrap();
    let document = package.as_document();
    match sxd_xpath::evaluate_xpath(&document, ".//child").unwrap() {
        Nodeset(nodeset) => {
            let node = nodeset.document_order_first().unwrap();
            let context = default_musicbrainz_context();
            let node_reader = XPathNodeReader::new(node, &context);

            assert_eq!(
                node_reader.evaluate(".//@name").unwrap().string(),
                "Hello World".to_string()
            );
        }
        _ => panic!("Nodeset not found!"),
    };
}

#[test]
fn readers_at_the_nodes_of_a_value() {
    let str_reader = XPathStrReader::new(DOC_1).unwrap();
    let readers = str_reader.evaluate(".//child").unwrap().document_order().unwrap();
    assert_eq!(readers.len(), 1);
    assert_eq!(readers[0].evaluate(".//@name").unwrap().string(), "Hello World".to_string());
    assert!(str_reader.evaluate("position()").unwrap().document_order().is_none());
    let context = str_reader.context();
    let again = readers[0].context();
    assert!(std::ptr::eq(context, again));
}

#[test]
fn text_of_a_missing_node_is_empty() {
    let reader = XPathStrReader::new(DOC_1).unwrap();
    assert_eq!(reader.read_string(".//nothing/text()").unwrap(), "".to_string());
    assert_eq!(reader.read_nstring(".//nothing/text()").unwrap(), None);
    assert_eq!(reader.read_nstring(".//child/@name").unwrap(), Some("Hello World".to_string()));
    assert_eq!(reader.read_string(".//child/text()").unwrap(), "".to_string());
    assert_eq!(reader.read_nstring(".//child/text()").unwrap(), None);
}

#[test]
fn relative_reader_needs_a_node() {
    let reader = XPathStrReader::new(DOC_1).unwrap();
    let child = reader.relative_reader(".//child").unwrap();
    assert_eq!(child.read_string("@name").unwrap(), "Hello World".to_string());
    assert_eq!(
        reader.relative_reader(".//nothing").err().unwrap(),
        ReadError::InvalidData { problem: DataProblem::MissingNode, text: ".//nothing".to_string() }
    );
    assert_eq!(
        reader.relative_reader("position()").err().unwrap(),
        ReadError::InvalidData { problem: DataProblem::NotANodeset, text: "position()".to_string() }
    );
    assert_eq!(
        reader.relative_reader(".//text()").err().unwrap(),
        ReadError::InvalidData { problem: DataProblem::MissingNode, text: ".//text()".to_string() }
    );
}

#[test]
fn expressions_that_give_no_value() {
    let reader = XPathStrReader::new(DOC_1).unwrap();
    let failure = |expr: &str| match reader.read_string(expr) {
        Err(ReadError::XmlXpathError { failure, expr: e }) => {
            assert_eq!(e, expr.to_string());
            failure
        }
        other => panic!("unexpected: {:?}", other),
    };
    assert_eq!(failure(".//other:child"), XpathFailure::UnboundPrefix);
    assert_eq!(failure(".//child[@other:name]"), XpathFailure::UnboundPrefix);
    assert_eq!(failure("xmb:child"), XpathFailure::UnboundPrefix);
    assert_eq!(failure("namespace::other:x"), XpathFailure::UnboundPrefix);
    assert_eq!(failure("//"), XpathFailure::Syntax);
    assert_eq!(failure(".//child["), XpathFailure::Syntax);
    assert_eq!(failure(""), XpathFailure::Empty);
    assert_eq!(failure("unknown()"), XpathFailure::Execution);
    assert_eq!(failure("$unknown"), XpathFailure::Execution);
}

#[test]
fn expressions_that_are_no_plain_paths() {
    let xml = r#"<root><child name="Hello World">a</child><child name="b:c">b</child></root>"#;
    let reader = XPathStrReader::new(xml).unwrap();
    assert_eq!(reader.read_string(".//child[2]").unwrap(), "b");
    assert_eq!(reader.read_string(".//child[@name = 'b:c']").unwrap(), "b");
    assert_eq!(reader.read_string(".//child[@name = \"Hello World\"]/text()").unwrap(), "a");
    assert_eq!(reader.read_string("count(.//child)").unwrap(), "2");
    assert_eq!(reader.read_string("concat(.//child[1], '-', .//child[2])").unwrap(), "a-b");
    assert_eq!(reader.read_string(".//child[1] | .//child[2]").unwrap(), "a");
    assert_eq!(reader.read_string("descendant::child[last()]").unwrap(), "b");
    assert_eq!(reader.read_string("name(*)").unwrap(), "root");
    assert_eq!(reader.read_nstring(".//child[3]").unwrap(), None);
    assert_eq!(reader.relative_reader(".//child[2]").unwrap().read_string("@name").unwrap(), "b:c");
    let texts: Vec<String> = read_vec(&reader, ".//child[@name]").unwrap();
    assert_eq!(texts, vec!["a".to_string(), "b".to_string()]);
    assert_eq!(reader.read_number("count(.//child) + 1", 10).unwrap(), 3);
}

#[test]
fn the_prefix_of_the_web_service_is_bound() {
    let xml = r#"<metadata xmlns="http://musicbrainz.org/ns/mmd-2.0#"><a><b>1</b><b>2</b></a><c xmlns="urn:other">3</c></metadata>"#;
    let reader = XPathStrReader::new(xml).unwrap();
    assert_eq!(reader.read_string(".//mb:a/mb:b/text()").unwrap(), "1".to_string());
    assert_eq!(reader.read_string(".//mb:c/text()").unwrap(), "".to_string());
    assert_eq!(reader.read_string(".//b/text()").unwrap(), "".to_string());
    assert_eq!(reader.read_string(".//mb:*/text()").unwrap(), "1".to_string());
    let items: Vec<String> = read_vec(&reader, ".//mb:b").unwrap();
    assert_eq!(items, vec!["1".to_string(), "2".to_string()]);
    let none: Vec<String> = read_vec(&reader, ".//mb:d").unwrap();
    assert_eq!(none, Vec::<String>::new());
    let no_nodes: Vec<String> = read_vec(&reader, "position()").unwrap();
    assert_eq!(no_nodes, Vec::<String>::new());
    assert_eq!(String::from_xml(&reader).unwrap(), "123".to_string());
}

#[test]
fn typed_reads() {
    let xml = r#"<r id="a1411661-be21-4290-8dc1-50f3d8e3ea67" n="+42" d="2017-4"/>"#;
    let reader = XPathStrReader::new(xml).unwrap();
    assert_eq!(
        reader.read_mbid(".//@id").unwrap(),
        Mbid::from_u128(0xa1411661_be21_4290_8dc1_50f3d8e3ea67)
    );
    assert_eq!(reader.read_number(".//@n", 42).unwrap(), 42);
    match reader.read_number(".//@n", 41) {
        Err(ReadError::InvalidData { problem: DataProblem::Number(_), text }) => {
            assert_eq!(text, "+42".to_string())
        }
        other => panic!("unexpected: {:?}", other),
    }
    assert_eq!(reader.read_date(".//@d").unwrap().month(), 4);
    assert_eq!(reader.read_date_option(".//@d").unwrap().unwrap().year(), 2017);
    assert_eq!(reader.read_date_option(".//@n").unwrap().unwrap().year(), 42);
    assert_eq!(reader.read_date_option(".//@id").unwrap(), None);
    assert!(reader.read_date(".//@id").is_err());
    assert_eq!(
        reader.read_mbid(".//@n").err().unwrap(),
        ReadError::InvalidData { problem: DataProblem::Mbid, text: "+42".to_string() }
    );
}
