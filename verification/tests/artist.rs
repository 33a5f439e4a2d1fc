use musicbrainz::entities::{
    Artist, ArtistType, Date, FromXml, Gender, Mbid, Resource, XPathStrReader,
};
use musicbrainz::{DataProblem, ReadError};

#[test]
fn artist_read_xml1() {
    // url: https://musicbrainz.org/ws/2/artist/90e7c2f9-273b-4d6c-a662-ab2d73ea4b8e?inc=aliases
    let xml = r#"<?xml version="1.0" encoding="UTF-8"?><metadata xmlns="http://musicbrainz.org/ns/mmd-2.0#"><artist type-id="e431f5f6-b5d2-343d-8b36-72607fffb74b" id="90e7c2f9-273b-4d6c-a662-ab2d73ea4b8e" type="Group"><name>NECRONOMIDOL</name><sort-name>NECRONOMIDOL</sort-name><country>JP</country><area id="2db42837-c832-3c27-b4a3-08198f75693c"><name>Japan</name><sort-name>Japan</sort-name><iso-3166-1-code-list><iso-3166-1-code>JP</iso-3166-1-code></iso-3166-1-code-list></area><begin-area id="8dc97297-ac95-4d33-82bc-e07fab26fb5f"><name>Tokyo</name><sort-name>Tokyo</sort-name><iso-3166-2-code-list><iso-3166-2-code>JP-13</iso-3166-2-code></iso-3166-2-code-list></begin-area><life-span><begin>2014-03</begin></life-span></artist></metadata>"#;
    let reader = XPathStrReader::new(xml).unwrap();
    let result = Artist::from_xml(&reader).unwrap();

    assert_eq!(result.mbid, Mbid::from_str("90e7c2f9-273b-4d6c-a662-ab2d73ea4b8e").unwrap());
    assert_eq!(result.name, "NECRONOMIDOL".to_string());
    assert_eq!(result.sort_name, "NECRONOMIDOL".to_string());
    assert_eq!(result.aliases, Vec::<String>::new());

    assert_eq!(result.begin_date, Some(Date::Month { year: 2014, month: 3 }));
    assert_eq!(result.end_date, None);

    let area = result.area.unwrap();
    assert_eq!(area.mbid, Mbid::from_str("2db42837-c832-3c27-b4a3-08198f75693c").unwrap());
    assert_eq!(area.name, "Japan".to_string());
    assert_eq!(area.sort_name, "Japan".to_string());
    assert_eq!(area.iso_3166, Some("JP".to_string()));

    assert_eq!(result.artist_type, ArtistType::Group);
    assert_eq!(result.gender, None);
    assert_eq!(result.ipi_code, None);
    assert_eq!(result.isni_code, None);
}

#[test]
fn artist_read_xml2() {
    // url: https://musicbrainz.org/ws/2/artist/650e7db6-b795-4eb5-a702-5ea2fc46c848?inc=aliases
    let xml = r#"<?xml version="1.0" encoding="UTF-8"?><metadata xmlns="http://musicbrainz.org/ns/mmd-2.0#"><artist id="650e7db6-b795-4eb5-a702-5ea2fc46c848" type="Person" type-id="b6e035f4-3ce9-331c-97df-83397230b0df"><name>Lady Gaga</name><sort-name>Lady Gaga</sort-name><ipi>00519338442</ipi><ipi-list><ipi>00519338442</ipi><ipi>00519338540</ipi></ipi-list><isni-list><isni>0000000120254559</isni></isni-list><gender id="93452b5a-a947-30c8-934f-6a4056b151c2">Female</gender><country>US</country><area id="489ce91b-6658-3307-9877-795b68554c98"><name>United States</name><sort-name>United States</sort-name><iso-3166-1-code-list><iso-3166-1-code>US</iso-3166-1-code></iso-3166-1-code-list></area><begin-area id="261962ea-d8c2-4eaf-a80c-f14376ffadb0"><name>Manhattan</name><sort-name>Manhattan</sort-name></begin-area><life-span><begin>1986-03-28</begin></life-span><alias-list count="2"><alias sort-name="Lady Ga Ga">Lady Ga Ga</alias><alias type="Legal name" sort-name="Germanotta, Stefani Joanne Angelina" type-id="d4dcd0c0-b341-3612-a332-c0ce797b25cf">Stefani Joanne Angelina Germanotta</alias></alias-list></artist></metadata>"#;
    let reader = XPathStrReader::new(xml).unwrap();
    let result = Artist::from_xml(&reader).unwrap();

    assert_eq!(result.mbid, Mbid::from_str("650e7db6-b795-4eb5-a702-5ea2fc46c848").unwrap());
    assert_eq!(result.name, "Lady Gaga".to_string());
    assert_eq!(result.sort_name, "Lady Gaga".to_string());
    let mut aliases_sorted = result.aliases.clone();
    aliases_sorted.sort();
    assert_eq!(
        aliases_sorted,
        vec!["Lady Ga Ga".to_string(), "Stefani Joanne Angelina Germanotta".to_string()]
    );

    assert_eq!(result.begin_date, Some(Date::Day { year: 1986, month: 3, day: 28 }));
    assert_eq!(result.end_date, None);

    let area = result.area.unwrap();
    assert_eq!(area.mbid, Mbid::from_str("489ce91b-6658-3307-9877-795b68554c98").unwrap());
    assert_eq!(area.name, "United States".to_string());
    assert_eq!(area.sort_name, "United States".to_string());
    assert_eq!(area.iso_3166, Some("US".to_string()));

    assert_eq!(result.artist_type, ArtistType::Person);
    assert_eq!(result.gender, Some(Gender::Female));
    assert_eq!(result.ipi_code, Some("00519338442".to_string()));
    assert_eq!(result.isni_code, Some("0000000120254559".to_string()));

    // The aliases come in the order of the document.
    assert_eq!(
        result.aliases,
        vec!["Lady Ga Ga".to_string(), "Stefani Joanne Angelina Germanotta".to_string()]
    );
}

#[test]
fn gender_keeps_what_it_does_not_know() {
    assert_eq!(Gender::from_str("Female"), Some(Gender::Female));
    assert_eq!(Gender::from_str("Male"), Some(Gender::Male));
    assert_eq!(Gender::from_str(""), None);
    assert_eq!(Gender::from_str("Non-binary"), Some(Gender::Other("Non-binary".to_string())));
    assert_eq!(Gender::from_str("female"), Some(Gender::Other("female".to_string())));
}

#[test]
fn artist_type_literals() {
    assert_eq!(ArtistType::from_str("Person").unwrap(), ArtistType::Person);
    assert_eq!(ArtistType::from_str("Group").unwrap(), ArtistType::Group);
    assert_eq!(ArtistType::from_str("Orchestra").unwrap(), ArtistType::Orchestra);
    assert_eq!(ArtistType::from_str("Choir").unwrap(), ArtistType::Choir);
    assert_eq!(ArtistType::from_str("Character").unwrap(), ArtistType::Character);
    assert_eq!(ArtistType::from_str("Other").unwrap(), ArtistType::Other);
    assert_eq!(
        ArtistType::from_str("Band").err().unwrap(),
        ReadError::InvalidData { problem: DataProblem::ArtistType, text: "Band".to_string() }
    );
    assert_eq!(
        ArtistType::from_str("").err().unwrap(),
        ReadError::InvalidData { problem: DataProblem::ArtistType, text: "".to_string() }
    );
}

#[test]
fn artist_with_malformed_date_has_no_date() {
    let xml = r#"<metadata xmlns="http://musicbrainz.org/ns/mmd-2.0#"><artist id="90e7c2f9-273b-4d6c-a662-ab2d73ea4b8e" type="Group"><name>N</name><sort-name>N</sort-name><area id="2db42837-c832-3c27-b4a3-08198f75693c"><name>Japan</name><sort-name>Japan</sort-name></area><life-span><begin>spring 2014</begin><end>2015-1-2-3</end></life-span></artist></metadata>"#;
    let reader = XPathStrReader::new(xml).unwrap();
    let artist = Artist::from_xml(&reader).unwrap();
    assert_eq!(artist.begin_date, None);
    assert_eq!(artist.end_date, None);
    assert_eq!(artist.area.unwrap().iso_3166, None);
}

#[test]
fn artist_without_area_has_no_area() {
    let xml = r#"<metadata xmlns="http://musicbrainz.org/ns/mmd-2.0#"><artist id="90e7c2f9-273b-4d6c-a662-ab2d73ea4b8e" type="Group"><name>N</name><sort-name>N sorted</sort-name><begin-area id="8dc97297-ac95-4d33-82bc-e07fab26fb5f"><name>Tokyo</name><sort-name>Tokyo</sort-name></begin-area></artist></metadata>"#;
    let reader = XPathStrReader::new(xml).unwrap();
    let artist = Artist::from_xml(&reader).unwrap();
    assert_eq!(artist.area, None);
    assert_eq!(artist.mbid, Mbid::from_str("90e7c2f9-273b-4d6c-a662-ab2d73ea4b8e").unwrap());
    assert_eq!(artist.name, "N".to_string());
    assert_eq!(artist.sort_name, "N sorted".to_string());
    assert_eq!(artist.artist_type, ArtistType::Group);
    assert_eq!(artist.gender, None);
}

#[test]
fn artist_with_an_area_that_cannot_be_read_fails() {
    let xml = r#"<metadata xmlns="http://musicbrainz.org/ns/mmd-2.0#"><artist id="90e7c2f9-273b-4d6c-a662-ab2d73ea4b8e" type="Group"><name>N</name><sort-name>N</sort-name><area id="Japan"><name>Japan</name><sort-name>Japan</sort-name></area></artist></metadata>"#;
    let reader = XPathStrReader::new(xml).unwrap();
    assert_eq!(
        Artist::from_xml(&reader).err().unwrap(),
        ReadError::InvalidData { problem: DataProblem::Mbid, text: "Japan".to_string() }
    );
}

#[test]
fn artist_resource() {
    assert_eq!(Artist::get_name(), "artist");
    assert_eq!(Artist::get_incs(), "aliases");
}
