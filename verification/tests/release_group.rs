use musicbrainz::entities::{
    ArtistRef, Date, FromXml, Mbid, ReleaseGroup, ReleaseGroupPrimaryType,
    ReleaseGroupSecondaryType, ReleaseRef, ReleaseStatus, Resource, XPathStrReader,
};
use musicbrainz::{DataProblem, ReadError};

const MIXTAPE: &str = r#"<?xml version="1.0" encoding="UTF-8"?><metadata xmlns="http://musicbrainz.org/ns/mmd-2.0#"><release-group type="Mixtape/Street" id="76a4e2c2-bf7a-445e-8081-5a1e291f3b16"><title>Mixtape</title><first-release-date>2012-03</first-release-date><primary-type>Album</primary-type><secondary-type-list><secondary-type>Mixtape/Street</secondary-type></secondary-type-list><artist-credit><name-credit><artist id="0e6b3a2c-6a42-4b43-a4f6-c6625c5855de"><name>POP ETC</name><sort-name>POP ETC</sort-name></artist></name-credit></artist-credit><release-list count="1"><release id="289bf4e7-0af5-433c-b5a2-493b863b4b47"><title>Mixtape</title><status>Official</status><quality>normal</quality><text-representation><language>eng</language><script>Latn</script></text-representation><date>2012-03</date><country>US</country><release-event-list count="1"><release-event><date>2012-03</date><area id="489ce91b-6658-3307-9877-795b68554c98"><name>United States</name><sort-name>United States</sort-name><iso-3166-1-code-list><iso-3166-1-code>US</iso-3166-1-code></iso-3166-1-code-list></area></release-event></release-event-list></release></release-list></release-group></metadata>"#;

#[test]
fn read_1() {
    let mbid = Mbid::from_str("76a4e2c2-bf7a-445e-8081-5a1e291f3b16").unwrap();
    let reader = XPathStrReader::new(MIXTAPE).unwrap();
    let rg = ReleaseGroup::from_xml(&reader).unwrap();

    assert_eq!(rg.mbid, mbid);
    assert_eq!(rg.title, "Mixtape".to_string());
    assert_eq!(
        rg.artists,
        vec![ArtistRef {
            mbid: Mbid::from_str("0e6b3a2c-6a42-4b43-a4f6-c6625c5855de").unwrap(),
            name: "POP ETC".to_string(),
            sort_name: "POP ETC".to_string(),
        },]
    );
    assert_eq!(
        rg.releases,
        vec![ReleaseRef {
            mbid: Mbid::from_str("289bf4e7-0af5-433c-b5a2-493b863b4b47").unwrap(),
            title: "Mixtape".to_string(),
            date: Some(Date::from_str("2012-03").unwrap()),
            status: Some(ReleaseStatus::Official),
            country: Some("US".to_string()),
        },]
    );
    assert_eq!(rg.release_type.primary, Some(ReleaseGroupPrimaryType::Album));
    assert_eq!(rg.release_type.secondary, vec![ReleaseGroupSecondaryType::MixtapeStreet]);
    assert_eq!(rg.disambiguation, None);
    assert_eq!(rg.annotation, None);
}

#[test]
fn unknown_secondary_type_fails_the_group() {
    let xml = MIXTAPE.replace(
        "<secondary-type>Mixtape/Street</secondary-type>",
        "<secondary-type>Live</secondary-type><secondary-type>Bootleg</secondary-type>",
    );
    let reader = XPathStrReader::new(&xml).unwrap();
    assert_eq!(
        ReleaseGroup::from_xml(&reader).err().unwrap(),
        ReadError::InvalidData {
            problem: DataProblem::ReleaseGroupSecondaryType,
            text: "Bootleg".to_string()
        }
    );
}

#[test]
fn group_without_types_and_releases() {
    let xml = r#"<metadata xmlns="http://musicbrainz.org/ns/mmd-2.0#"><release-group id="76a4e2c2-bf7a-445e-8081-5a1e291f3b16"><title>Mixtape</title><disambiguation>the first</disambiguation></release-group></metadata>"#;
    let reader = XPathStrReader::new(xml).unwrap();
    let rg = ReleaseGroup::from_xml(&reader).unwrap();
    assert_eq!(rg.release_type.primary, None);
    assert_eq!(rg.release_type.secondary, Vec::new());
    assert_eq!(rg.releases, Vec::new());
    assert_eq!(rg.artists, Vec::new());
    assert_eq!(rg.disambiguation, Some("the first".to_string()));
}

#[test]
fn release_in_a_group_may_lack_date_status_and_country() {
    let xml = MIXTAPE
        .replace("<status>Official</status>", "")
        .replace("<date>2012-03</date><country>US</country>", "<date>March 2012</date>");
    let reader = XPathStrReader::new(&xml).unwrap();
    let rg = ReleaseGroup::from_xml(&reader).unwrap();
    assert_eq!(rg.releases[0].date, None);
    assert_eq!(rg.releases[0].status, None);
    assert_eq!(rg.releases[0].country, None);
}

#[test]
fn group_type_literals() {
    assert_eq!(ReleaseGroupPrimaryType::from_str("Album").unwrap(), ReleaseGroupPrimaryType::Album);
    assert_eq!(ReleaseGroupPrimaryType::from_str("Single").unwrap(), ReleaseGroupPrimaryType::Single);
    assert_eq!(ReleaseGroupPrimaryType::from_str("EP").unwrap(), ReleaseGroupPrimaryType::EP);
    assert_eq!(
        ReleaseGroupPrimaryType::from_str("Broadcast").unwrap(),
        ReleaseGroupPrimaryType::Broadcast
    );
    assert_eq!(ReleaseGroupPrimaryType::from_str("Other").unwrap(), ReleaseGroupPrimaryType::Other);
    assert_eq!(
        ReleaseGroupPrimaryType::from_str("LP").err().unwrap(),
        ReadError::InvalidData {
            problem: DataProblem::ReleaseGroupPrimaryType,
            text: "LP".to_string()
        }
    );
    let secondary = [
        ("Compilation", ReleaseGroupSecondaryType::Compilation),
        ("Soundtrack", ReleaseGroupSecondaryType::Soundtrack),
        ("Spokenword", ReleaseGroupSecondaryType::Spokenword),
        ("Interview", ReleaseGroupSecondaryType::Interview),
        ("Audiobook", ReleaseGroupSecondaryType::Audiobook),
        ("Live", ReleaseGroupSecondaryType::Live),
        ("Remix", ReleaseGroupSecondaryType::Remix),
        ("DJ-mix", ReleaseGroupSecondaryType::DjMix),
        ("Mixtape/Street", ReleaseGroupSecondaryType::MixtapeStreet),
    ];
    for (text, value) in secondary {
        assert_eq!(ReleaseGroupSecondaryType::from_str(text).unwrap(), value);
    }
    assert_eq!(
        ReleaseGroupSecondaryType::from_str("DjMix").err().unwrap(),
        ReadError::InvalidData {
            problem: DataProblem::ReleaseGroupSecondaryType,
            text: "DjMix".to_string()
        }
    );
}

#[test]
fn group_resource() {
    assert_eq!(ReleaseGroup::get_name(), "release-group");
    assert_eq!(ReleaseGroup::get_incs(), "annotation+artists+releases");
}
