use crate::entities::xpath_reader::{
    document_root, mbid_at, optional_text_at, text_at, text_option, FromXml, FromXmlContained,
    FromXmlElement, XPathReader, XPathStrReader,
};
use crate::entities::Resource;
use crate::errors::{result_view, DataProblem, ReadError, ReadErrorView};
use crate::mbid::Mbid;
use crate::text::{chars_of, spells};
use std::str::FromStr;
use sxd_xpath::nodeset::Node;
use crate::expression::supported;
use crate::entities::xpath_reader::turned_away;
use vstd::prelude::*;

verus! {

/// Specifies what a specific `Area` instance actually is.
#[derive(Clone, Copy, Debug, PartialEq, Eq, Structural)]
pub enum AreaType {
    /// Areas included (or previously included) in ISO 3166-1.
    Country,
    /// Main administrative divisions of a country.
    Subdivision,
    /// Smaller administrative divisions of a country, which are not one of the
    /// main administrative divisions but are also not municipalities.
    County,
    /// Small administrative divisions. Urban municipalities often contain only a
    /// single city and a few surrounding villages, while rural municipalities
    /// often group several villages together.
    Municipality,
    /// Settlements of any size, including towns and villages.
    City,
    /// Used for a division of a large city.
    District,
    /// Islands and atolls which don't form subdivisions of their own.
    Island,
}

impl View for AreaType {
    type V = AreaType;

    open spec fn view(&self) -> AreaType {
        *self
    }
}

impl AreaType {
    /// The text that the web service writes for this value.
    pub open spec fn literal(self) -> Seq<char> {
        match self {
            AreaType::Country => "Country"@,
            AreaType::Subdivision => "Subdivision"@,
            AreaType::County => "County"@,
            AreaType::Municipality => "Municipality"@,
            AreaType::City => "City"@,
            AreaType::District => "District"@,
            AreaType::Island => "Island"@,
        }
    }

    /// The text that the web service writes for this value.
    pub fn as_str(&self) -> (r: &'static str)
        ensures
            r@ == self.literal(),
    {
        match self {
            AreaType::Country => "Country",
            AreaType::Subdivision => "Subdivision",
            AreaType::County => "County",
            AreaType::Municipality => "Municipality",
            AreaType::City => "City",
            AreaType::District => "District",
            AreaType::Island => "Island",
        }
    }

    /// The value that `text` stands for, if it stands for one.
    pub open spec fn from_literal(text: Seq<char>) -> Option<AreaType> {
        if text == "Country"@ {
            Some(AreaType::Country)
        } else if text == "Subdivision"@ {
            Some(AreaType::Subdivision)
        } else if text == "County"@ {
            Some(AreaType::County)
        } else if text == "Municipality"@ {
            Some(AreaType::Municipality)
        } else if text == "City"@ {
            Some(AreaType::City)
        } else if text == "District"@ {
            Some(AreaType::District)
        } else if text == "Island"@ {
            Some(AreaType::Island)
        } else {
            None
        }
    }

    /// The value that `text` stands for; any other text is invalid data.
    pub open spec fn parsed(text: Seq<char>) -> Result<AreaType, ReadErrorView> {
        match AreaType::from_literal(text) {
            Some(value) => Ok(value),
            None => Err(ReadErrorView::InvalidData { problem: DataProblem::AreaType, text }),
        }
    }

    /// Reads the value that `s` stands for.
    pub fn from_str(s: &str) -> (r: Result<AreaType, ReadError>)
        ensures
            result_view(r) == AreaType::parsed(s@),
    {
        let chars = chars_of(s);
        if spells(&chars, "Country") {
            Ok(AreaType::Country)
        } else if spells(&chars, "Subdivision") {
            Ok(AreaType::Subdivision)
        } else if spells(&chars, "County") {
            Ok(AreaType::County)
        } else if spells(&chars, "Municipality") {
            Ok(AreaType::Municipality)
        } else if spells(&chars, "City") {
            Ok(AreaType::City)
        } else if spells(&chars, "District") {
            Ok(AreaType::District)
        } else if spells(&chars, "Island") {
            Ok(AreaType::Island)
        } else {
            Err(ReadError::invalid(DataProblem::AreaType, s))
        }
    }

    /// The value that `expr` gives at `root`.
    pub open spec fn at(root: Node, expr: Seq<char>) -> Result<AreaType, ReadErrorView> {
        match text_at(root, expr) {
            Ok(text) => AreaType::parsed(text),
            Err(e) => Err(e),
        }
    }

    /// Evaluates an XPath expression and reads the value that its text stands
    /// for.
    pub fn read<'d, R: XPathReader<'d>>(reader: &'d R, xpath_expr: &str) -> (r: Result<
        AreaType,
        ReadError,
    >)
        ensures
            supported(xpath_expr@) ==> result_view(r) == AreaType::at(reader.root(), xpath_expr@),
            turned_away(xpath_expr@, r),
    {
        let text = reader.read_string(xpath_expr)?;
        AreaType::from_str(text.as_str())
    }

    /// Every value is read back from the text that stands for it.
    pub proof fn lemma_literal_round_trip(value: AreaType)
        ensures
            AreaType::from_literal(value.literal()) == Some(value),
            AreaType::parsed(value.literal()) == Ok::<AreaType, ReadErrorView>(value),
    {
        reveal_strlit("Country");
        reveal_strlit("Subdivision");
        reveal_strlit("County");
        reveal_strlit("Municipality");
        reveal_strlit("City");
        reveal_strlit("District");
        reveal_strlit("Island");
        assert("Country"@.len() == 7);
        assert("Subdivision"@.len() == 11);
        assert("County"@.len() == 6);
        assert("Municipality"@.len() == 12);
        assert("City"@.len() == 4);
        assert("District"@.len() == 8);
        assert("Island"@.len() == 6);
        assert("County"@[0] == 'C');
        assert("Island"@[0] == 'I');
    }

    /// A text that stands for no value is refused as invalid data, with the
    /// text in the failure.
    pub proof fn lemma_unknown_literal(text: Seq<char>)
        requires
            forall|value: AreaType| text != value.literal(),
        ensures
            AreaType::parsed(text) == Err::<AreaType, ReadErrorView>(
                ReadErrorView::InvalidData { problem: DataProblem::AreaType, text },
            ),
    {
        assert(text != AreaType::Country.literal());
        assert(text != AreaType::Subdivision.literal());
        assert(text != AreaType::County.literal());
        assert(text != AreaType::Municipality.literal());
        assert(text != AreaType::City.literal());
        assert(text != AreaType::District.literal());
        assert(text != AreaType::Island.literal());
    }
}

impl FromStr for AreaType {
    type Err = ReadError;

    /// Reads the value that `s` stands for, as `AreaType::from_str` does.
    fn from_str(s: &str) -> (r: Result<Self, Self::Err>)
        ensures
            result_view(r) == AreaType::parsed(s@),
    {
        AreaType::from_str(s)
    }
}

impl FromXmlElement for AreaType {

}

impl FromXml for AreaType {
    open spec fn decoded(root: Node) -> Result<AreaType, ReadErrorView> {
        AreaType::at(root, "."@)
    }

    fn from_xml<'d, R: XPathReader<'d>>(reader: &'d R) -> (r: Result<Self, ReadError>) {
        proof {
            assert(supported("."@)) by {
                reveal_strlit(".");
            }
        }
        AreaType::read(reader, ".")
    }
}

/// A geographic region or settlement.
/// 
/// The exact type is distinguished by the `area_type` field.
/// This is one of the *core entities* of MusicBrainz.
/// 
/// [MusicBrainz documentation](https://musicbrainz.org/doc/Area).
#[derive(Clone, Debug, PartialEq, Eq)]
pub struct Area {
    /// MBID of the entity in the MusicBrainz database.
    pub mbid: Mbid,
    /// The name of the area.
    pub name: String,
    /// Name that is supposed to be used for sorting, containing only latin
    /// characters.
    pub sort_name: String,
    /// Type of the area, gives more information about what it is.
    pub area_type: AreaType,
    /// ISO 3166 code, assigned to countries and subdivisions.
    pub iso_3166: Option<String>,
}

/// An `Area` with its texts as sequences of characters.
pub struct AreaView {
    pub mbid: Mbid,
    pub name: Seq<char>,
    pub sort_name: Seq<char>,
    pub area_type: AreaType,
    pub iso_3166: Option<Seq<char>>,
}

impl View for Area {
    type V = AreaView;

    open spec fn view(&self) -> AreaView {
        AreaView {
            mbid: self.mbid,
            name: self.name@,
            sort_name: self.sort_name@,
            area_type: self.area_type,
            iso_3166: text_option(self.iso_3166),
        }
    }
}

impl FromXmlContained for Area {

}

impl FromXml for Area {
    open spec fn decoded(root: Node) -> Result<AreaView, ReadErrorView> {
        let mbid = mbid_at(root, ".//mb:area/@id"@);
        let name = text_at(root, ".//mb:area/mb:name/text()"@);
        let sort_name = text_at(root, ".//mb:area/mb:sort-name/text()"@);
        let area_type = AreaType::at(root, ".//mb:area/@type"@);
        let iso_3166 = optional_text_at(
            root,
            ".//mb:area/mb:iso-3166-1-code-list/mb:iso-3166-1-code/text()"@,
        );
        if mbid is Err {
            Err(mbid->Err_0)
        } else if name is Err {
            Err(name->Err_0)
        } else if sort_name is Err {
            Err(sort_name->Err_0)
        } else if area_type is Err {
            Err(area_type->Err_0)
        } else if iso_3166 is Err {
            Err(iso_3166->Err_0)
        } else {
            Ok(
                AreaView {
                    mbid: mbid->Ok_0,
                    name: name->Ok_0,
                    sort_name: sort_name->Ok_0,
                    area_type: area_type->Ok_0,
                    iso_3166: iso_3166->Ok_0,
                },
            )
        }
    }

    fn from_xml<'d, R: XPathReader<'d>>(reader: &'d R) -> (r: Result<Self, ReadError>) {
        proof {
            assert(supported(".//mb:area/@id"@)) by {
                reveal_strlit(".//mb:area/@id");
            }
            assert(supported(".//mb:area/mb:name/text()"@)) by {
                reveal_strlit(".//mb:area/mb:name/text()");
            }
            assert(supported(".//mb:area/mb:sort-name/text()"@)) by {
                reveal_strlit(".//mb:area/mb:sort-name/text()");
            }
            assert(supported(".//mb:area/@type"@)) by {
                reveal_strlit(".//mb:area/@type");
            }
            assert(supported(".//mb:area/mb:iso-3166-1-code-list/mb:iso-3166-1-code/text()"@)) by {
                reveal_strlit(".//mb:area/mb:iso-3166-1-code-list/mb:iso-3166-1-code/text()");
            }
        }
        let mbid = reader.read_mbid(".//mb:area/@id")?;
        let name = reader.read_string(".//mb:area/mb:name/text()")?;
        let sort_name = reader.read_string(".//mb:area/mb:sort-name/text()")?;
        let area_type = AreaType::read(reader, ".//mb:area/@type")?;
        let iso_3166 = reader.read_nstring(
            ".//mb:area/mb:iso-3166-1-code-list/mb:iso-3166-1-code/text()",
        )?;
        Ok(
            Area {
                mbid,
                name,
                sort_name,
                area_type,
                iso_3166,
            },
        )
    }
}

/// The area that the document `xml` describes.
pub open spec fn area_of_document(xml: Seq<char>) -> Result<AreaView, ReadErrorView> {
    match document_root(xml) {
        Ok(root) => Area::decoded(root),
        Err(e) => Err(e),
    }
}

impl Area {
    /// Parses the document `xml` and reads the area that it describes.
    pub fn read_xml(xml: &str) -> (r: Result<Area, ReadError>)
        ensures
            result_view(r) == area_of_document(xml@),
    {
        let reader = XPathStrReader::new(xml)?;
        Area::from_xml(&reader)
    }
}

impl Resource for Area {
    open spec fn name() -> Seq<char> {
        "area"@
    }

    open spec fn incs() -> Seq<char> {
        ""@
    }

    fn get_name() -> (r: &'static str) {
        "area"
    }

    fn get_incs() -> (r: &'static str) {
        ""
    }
}

} // verus!
