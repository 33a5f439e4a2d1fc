use musicbrainz::entities::{Date, FromXml, Label, LabelType, Mbid, Resource, XPathStrReader};
use musicbrainz::{DataProblem, ReadError};

#[test]
fn label_read_xml1() {
    let xml = r#"<?xml version="1.0" encoding="UTF-8"?><metadata xmlns="http://musicbrainz.org/ns/mmd-2.0#"><label id="c029628b-6633-439e-bcee-ed02e8a338f7" type="Original Production" type-id="7aaa37fe-2def-3476-b359-80245850062d"><name>EMI</name><sort-name>EMI</sort-name><disambiguation>EMI Records, since 1972</disambiguation><label-code>542</label-code><country>GB</country><area id="8a754a16-0027-3a29-b6d7-2b40ea0481ed"><name>United Kingdom</name><sort-name>United Kingdom</sort-name><iso-3166-1-code-list><iso-3166-1-code>GB</iso-3166-1-code></iso-3166-1-code-list></area><life-span><begin>1972</begin></life-span></label></metadata>"#;
    let reader = XPathStrReader::new(xml).unwrap();
    let label = Label::from_xml(&reader).unwrap();

    assert_eq!(label.mbid, Mbid::parse_str("c029628b-6633-439e-bcee-ed02e8a338f7").unwrap());
    assert_eq!(label.name, "EMI".to_string());
    assert_eq!(label.sort_name, "EMI".to_string());
    assert_eq!(label.disambiguation, Some("EMI Records, since 1972".to_string()));
    assert_eq!(label.aliases, Vec::<String>::new());
    assert_eq!(label.label_code, Some("542".to_string()));
    assert_eq!(label.label_type, LabelType::ProductionOriginal);
    assert_eq!(label.country, Some("GB".to_string()));
    assert_eq!(label.ipi_code, None);
    assert_eq!(label.isni_code, None);
    assert_eq!(label.begin_date, Some(Date::Year { year: 1972 }));
    assert_eq!(label.end_date, None);
}

#[test]
fn read_aliases() {
    // url: https://musicbrainz.org/ws/2/label/168f48c8-057e-4974-9600-aa9956d21e1a?inc=aliases
    let xml = r#"<?xml version="1.0" encoding="UTF-8"?><metadata xmlns="http://musicbrainz.org/ns/mmd-2.0#"><label type-id="7aaa37fe-2def-3476-b359-80245850062d" id="168f48c8-057e-4974-9600-aa9956d21e1a" type="Original Production"><name>avex trax</name><sort-name>avex trax</sort-name><country>JP</country><area id="2db42837-c832-3c27-b4a3-08198f75693c"><name>Japan</name><sort-name>Japan</sort-name><iso-3166-1-code-list><iso-3166-1-code>JP</iso-3166-1-code></iso-3166-1-code-list></area><life-span><begin>1990-09</begin></life-span><alias-list count="2"><alias sort-name="Avex Trax Japan">Avex Trax Japan</alias><alias sort-name="エイベックス・トラックス">エイベックス・トラックス</alias></alias-list></label></metadata>"#;
    let reader = XPathStrReader::new(xml).unwrap();
    let label = Label::from_xml(&reader).unwrap();

    let mut expected =
        vec!["Avex Trax Japan".to_string(), "エイベックス・トラックス".to_string()];
    expected.sort();
    let mut actual = label.aliases.clone();
    actual.sort();

    assert_eq!(actual, expected);
}

#[test]
fn label_type_literals() {
    assert_eq!(LabelType::from_str("Imprint").unwrap(), LabelType::Imprint);
    assert_eq!(LabelType::from_str("Original Production").unwrap(), LabelType::ProductionOriginal);
    assert_eq!(LabelType::from_str("Bootleg Production").unwrap(), LabelType::ProductionBootleg);
    assert_eq!(LabelType::from_str("Reissue Production").unwrap(), LabelType::ProductionReissue);
    assert_eq!(LabelType::from_str("Distribution").unwrap(), LabelType::Distribution);
    assert_eq!(LabelType::from_str("Holding").unwrap(), LabelType::Holding);
    assert_eq!(LabelType::from_str("RightsSociety").unwrap(), LabelType::RightsSociety);
}

#[test]
fn label_type_is_not_the_name_of_the_variant() {
    assert_eq!(
        LabelType::from_str("ProductionOriginal").err().unwrap(),
        ReadError::InvalidData {
            problem: DataProblem::LabelType,
            text: "ProductionOriginal".to_string()
        }
    );
    assert_eq!("Original Production".parse::<LabelType>().unwrap(), LabelType::ProductionOriginal);
}

#[test]
fn label_resource() {
    assert_eq!(Label::get_name(), "label");
    assert_eq!(Label::get_incs(), "aliases");
}
