use musicbrainz::entities::{Area, AreaType, FromXml, Mbid, XPathStrReader};
use musicbrainz::{DataProblem, ReadError, XpathFailure};

const HONOLULU: &str = r#"<?xml version="1.0" encoding="UTF-8"?>
                    <metadata xmlns="http://musicbrainz.org/ns/mmd-2.0#">
                        <area id="a1411661-be21-4290-8dc1-50f3d8e3ea67" type="City" type-id="6fd8f29a-3d0a-32fc-980d-ea697b69da78">
                            <name>Honolulu</name>
                            <sort-name>Honolulu</sort-name>
                        </area>
                    </metadata>"#;

const JAPAN: &str = r#"<?xml version="1.0" encoding="UTF-8"?><metadata xmlns="http://musicbrainz.org/ns/mmd-2.0#"><area type-id="06dd0ae4-8c74-30bb-b43d-95dcedf961de" type="Country" id="2db42837-c832-3c27-b4a3-08198f75693c"><name>Japan</name><sort-name>Japan</sort-name><iso-3166-1-code-list><iso-3166-1-code>JP</iso-3166-1-code></iso-3166-1-code-list></area></metadata>"#;

#[test]
fn entities_area_read_xml1() {
    let result = Area::read_xml(HONOLULU).unwrap();

    assert_eq!(result.mbid, Mbid::parse_str("a1411661-be21-4290-8dc1-50f3d8e3ea67").unwrap());
    assert_eq!(result.name, "Honolulu".to_string());
    assert_eq!(result.area_type, AreaType::City);
    assert_eq!(result.iso_3166, None);
}

#[test]
fn entities_area_read_xml2() {
    let result = Area::read_xml(JAPAN).unwrap();

    assert_eq!(result.mbid, Mbid::parse_str("2db42837-c832-3c27-b4a3-08198f75693c").unwrap());
    assert_eq!(result.name, "Japan".to_string());
    assert_eq!(result.area_type, AreaType::Country);
    assert_eq!(result.iso_3166, Some("JP".to_string()));
}

#[test]
fn area_area_read_xml1() {
    let mbid = Mbid::from_str("a1411661-be21-4290-8dc1-50f3d8e3ea67").unwrap();
    let reader = XPathStrReader::new(HONOLULU).unwrap();
    let area = Area::from_xml(&reader).unwrap();

    assert_eq!(area.mbid, mbid);
    assert_eq!(area.name, "Honolulu".to_string());
    assert_eq!(area.sort_name, "Honolulu".to_string());
    assert_eq!(area.area_type, AreaType::City);
    assert_eq!(area.iso_3166, None);
}

#[test]
fn area_area_read_xml2() {
    let mbid = Mbid::from_str("2db42837-c832-3c27-b4a3-08198f75693c").unwrap();
    let reader = XPathStrReader::new(JAPAN).unwrap();
    let area = Area::from_xml(&reader).unwrap();

    assert_eq!(area.mbid, mbid);
    assert_eq!(area.name, "Japan".to_string());
    assert_eq!(area.sort_name, "Japan".to_string());
    assert_eq!(area.area_type, AreaType::Country);
    assert_eq!(area.iso_3166, Some("JP".to_string()));
}

#[test]
fn area_is_the_whole_record() {
    let area = Area::read_xml(HONOLULU).unwrap();
    assert_eq!(
        area,
        Area {
            mbid: Mbid::parse_str("a1411661-be21-4290-8dc1-50f3d8e3ea67").unwrap(),
            name: "Honolulu".to_string(),
            sort_name: "Honolulu".to_string(),
            area_type: AreaType::City,
            iso_3166: None,
        }
    );
}

#[test]
fn area_with_empty_code_has_no_code() {
    let xml = r#"<metadata xmlns="http://musicbrainz.org/ns/mmd-2.0#"><area id="2db42837-c832-3c27-b4a3-08198f75693c" type="Country"><name>Japan</name><sort-name>Japan</sort-name><iso-3166-1-code-list><iso-3166-1-code></iso-3166-1-code></iso-3166-1-code-list></area></metadata>"#;
    let area = Area::read_xml(xml).unwrap();
    assert_eq!(area.iso_3166, None);
}

#[test]
fn area_of_unknown_type_is_invalid_data() {
    let xml = r#"<metadata xmlns="http://musicbrainz.org/ns/mmd-2.0#"><area id="2db42837-c832-3c27-b4a3-08198f75693c" type="Continent"><name>Asia</name><sort-name>Asia</sort-name></area></metadata>"#;
    assert_eq!(
        Area::read_xml(xml).err().unwrap(),
        ReadError::InvalidData { problem: DataProblem::AreaType, text: "Continent".to_string() }
    );
}

#[test]
fn area_without_identifier_is_invalid_data() {
    let xml = r#"<metadata xmlns="http://musicbrainz.org/ns/mmd-2.0#"><area type="City"><name>Honolulu</name><sort-name>Honolulu</sort-name></area></metadata>"#;
    assert_eq!(
        Area::read_xml(xml).err().unwrap(),
        ReadError::InvalidData { problem: DataProblem::Mbid, text: "".to_string() }
    );
}

#[test]
fn area_in_text_that_is_no_document() {
    match Area::read_xml("<metadata><area>") {
        Err(ReadError::XmlParserError { .. }) => {}
        other => panic!("unexpected: {:?}", other),
    }
    assert!(XpathFailure::Syntax != XpathFailure::UnboundPrefix);
}
