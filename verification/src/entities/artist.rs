use crate::entities::refs::{AreaRef, AreaRefView};
use crate::entities::xpath_reader::{
    first_node_at, list_at, mbid_at, option_view, optional_date_at, optional_text_at, read_vec,
    roots, selects_nothing, text_at, text_option, views, FromXml, FromXmlContained, FromXmlElement, XPathReader,
};
use crate::entities::{Date, Resource};
use crate::errors::{result_view, DataProblem, ReadError, ReadErrorView};
use crate::mbid::Mbid;
use crate::text::{chars_of, spells};
use std::str::FromStr;
use sxd_xpath::nodeset::Node;
use crate::expression::supported;
use crate::entities::xpath_reader::turned_away;
use vstd::prelude::*;

verus! {

/// The gender of an artist. The web service names more than the two that have
/// a variant of their own here: the others are kept as their text.
#[derive(Debug, Clone, Eq, PartialEq)]
pub enum Gender {
    Female,
    Male,
    Other(String),
}

/// A `Gender` with its text as a sequence of characters.
pub enum GenderView {
    Female,
    Male,
    Other(Seq<char>),
}

impl View for Gender {
    type V = GenderView;

    open spec fn view(&self) -> GenderView {
        match *self {
            Gender::Female => GenderView::Female,
            Gender::Male => GenderView::Male,
            Gender::Other(text) => GenderView::Other(text@),
        }
    }
}

impl Gender {
    /// The gender that `text` stands for: none for the empty text, and
    /// `Other` with the text itself for every text but `Female` and `Male`.
    pub open spec fn parsed(text: Seq<char>) -> Option<GenderView> {
        if text == "Female"@ {
            Some(GenderView::Female)
        } else if text == "Male"@ {
            Some(GenderView::Male)
        } else if text.len() == 0 {
            None
        } else {
            Some(GenderView::Other(text))
        }
    }

    /// The gender that `expr` gives at `root`, if it gives any text.
    pub open spec fn at(root: Node, expr: Seq<char>) -> Result<Option<GenderView>, ReadErrorView> {
        match text_at(root, expr) {
            Ok(text) => Ok(Gender::parsed(text)),
            Err(e) => Err(e),
        }
    }

    /// Reads the gender that `s` stands for.
    pub fn from_str(s: &str) -> (r: Option<Gender>)
        ensures
            option_view(r) == Gender::parsed(s@),
    {
        let chars = chars_of(s);
        if spells(&chars, "Female") {
            Some(Gender::Female)
        } else if spells(&chars, "Male") {
            Some(Gender::Male)
        } else if chars.len() == 0 {
            None
        } else {
            Some(Gender::Other(s.to_owned()))
        }
    }

    /// Evaluates an XPath expression and reads the gender that its text stands
    /// for.
    pub fn read<'d, R: XPathReader<'d>>(reader: &'d R, xpath_expr: &str) -> (r: Result<
        Option<Gender>,
        ReadError,
    >)
        ensures
            supported(xpath_expr@) ==> match r {
                Ok(gender) => Gender::at(reader.root(), xpath_expr@) == Ok::<
                    Option<GenderView>,
                    ReadErrorView,
                >(option_view(gender)),
                Err(e) => Gender::at(reader.root(), xpath_expr@) == Err::<
                    Option<GenderView>,
                    ReadErrorView,
                >(e@),
            },
            turned_away(xpath_expr@, r),
    {
        let text = reader.read_string(xpath_expr)?;
        Ok(Gender::from_str(text.as_str()))
    }

    /// The two genders with a variant of their own are read from their names.
    pub proof fn lemma_known_literals()
        ensures
            Gender::parsed("Female"@) == Some(GenderView::Female),
            Gender::parsed("Male"@) == Some(GenderView::Male),
    {
        reveal_strlit("Female");
        reveal_strlit("Male");
        assert("Female"@.len() == 6);
        assert("Male"@.len() == 4);
    }

    /// Every text but the two names and the empty text is kept as it is: no
    /// text is refused.
    pub proof fn lemma_other_literal(text: Seq<char>)
        requires
            text != "Female"@,
            text != "Male"@,
            text.len() > 0,
        ensures
            Gender::parsed(text) == Some(GenderView::Other(text)),
    {
    }
}

/// Whether an artist is a person, a group or something else.
#[derive(Clone, Copy, Debug, PartialEq, Eq, Structural)]
pub enum ArtistType {
    Person,
    Group,
    Orchestra,
    Choir,
    Character,
    Other,
}

impl View for ArtistType {
    type V = ArtistType;

    open spec fn view(&self) -> ArtistType {
        *self
    }
}

impl ArtistType {
    /// The text that the web service writes for this value.
    pub open spec fn literal(self) -> Seq<char> {
        match self {
            ArtistType::Person => "Person"@,
            ArtistType::Group => "Group"@,
            ArtistType::Orchestra => "Orchestra"@,
            ArtistType::Choir => "Choir"@,
            ArtistType::Character => "Character"@,
            ArtistType::Other => "Other"@,
        }
    }

    /// The text that the web service writes for this value.
    pub fn as_str(&self) -> (r: &'static str)
        ensures
            r@ == self.literal(),
    {
        match self {
            ArtistType::Person => "Person",
            ArtistType::Group => "Group",
            ArtistType::Orchestra => "Orchestra",
            ArtistType::Choir => "Choir",
            ArtistType::Character => "Character",
            ArtistType::Other => "Other",
        }
    }

    /// The value that `text` stands for, if it stands for one.
    pub open spec fn from_literal(text: Seq<char>) -> Option<ArtistType> {
        if text == "Person"@ {
            Some(ArtistType::Person)
        } else if text == "Group"@ {
            Some(ArtistType::Group)
        } else if text == "Orchestra"@ {
            Some(ArtistType::Orchestra)
        } else if text == "Choir"@ {
            Some(ArtistType::Choir)
        } else if text == "Character"@ {
            Some(ArtistType::Character)
        } else if text == "Other"@ {
            Some(ArtistType::Other)
        } else {
            None
        }
    }

    /// The value that `text` stands for; any other text is invalid data.
    pub open spec fn parsed(text: Seq<char>) -> Result<ArtistType, ReadErrorView> {
        match ArtistType::from_literal(text) {
            Some(value) => Ok(value),
            None => Err(ReadErrorView::InvalidData { problem: DataProblem::ArtistType, text }),
        }
    }

    /// Reads the value that `s` stands for.
    pub fn from_str(s: &str) -> (r: Result<ArtistType, ReadError>)
        ensures
            result_view(r) == ArtistType::parsed(s@),
    {
        let chars = chars_of(s);
        if spells(&chars, "Person") {
            Ok(ArtistType::Person)
        } else if spells(&chars, "Group") {
            Ok(ArtistType::Group)
        } else if spells(&chars, "Orchestra") {
            Ok(ArtistType::Orchestra)
        } else if spells(&chars, "Choir") {
            Ok(ArtistType::Choir)
        } else if spells(&chars, "Character") {
            Ok(ArtistType::Character)
        } else if spells(&chars, "Other") {
            Ok(ArtistType::Other)
        } else {
            Err(ReadError::invalid(DataProblem::ArtistType, s))
        }
    }

    /// The value that `expr` gives at `root`.
    pub open spec fn at(root: Node, expr: Seq<char>) -> Result<ArtistType, ReadErrorView> {
        match text_at(root, expr) {
            Ok(text) => ArtistType::parsed(text),
            Err(e) => Err(e),
        }
    }

    /// Evaluates an XPath expression and reads the value that its text stands
    /// for.
    pub fn read<'d, R: XPathReader<'d>>(reader: &'d R, xpath_expr: &str) -> (r: Result<
        ArtistType,
        ReadError,
    >)
        ensures
            supported(xpath_expr@) ==> result_view(r) == ArtistType::at(reader.root(), xpath_expr@),
            turned_away(xpath_expr@, r),
    {
        let text = reader.read_string(xpath_expr)?;
        ArtistType::from_str(text.as_str())
    }

    /// Every value is read back from the text that stands for it.
    pub proof fn lemma_literal_round_trip(value: ArtistType)
        ensures
            ArtistType::from_literal(value.literal()) == Some(value),
            ArtistType::parsed(value.literal()) == Ok::<ArtistType, ReadErrorView>(value),
    {
        reveal_strlit("Person");
        reveal_strlit("Group");
        reveal_strlit("Orchestra");
        reveal_strlit("Choir");
        reveal_strlit("Character");
        reveal_strlit("Other");
        assert("Person"@.len() == 6);
        assert("Group"@.len() == 5);
        assert("Orchestra"@.len() == 9);
        assert("Choir"@.len() == 5);
        assert("Character"@.len() == 9);
        assert("Other"@.len() == 5);
        assert("Group"@[0] == 'G');
        assert("Choir"@[0] == 'C');
        assert("Other"@[0] == 'O');
        assert("Orchestra"@[0] == 'O');
        assert("Character"@[0] == 'C');
    }

    /// A text that stands for no value is refused as invalid data, with the
    /// text in the failure.
    pub proof fn lemma_unknown_literal(text: Seq<char>)
        requires
            forall|value: ArtistType| text != value.literal(),
        ensures
            ArtistType::parsed(text) == Err::<ArtistType, ReadErrorView>(
                ReadErrorView::InvalidData { problem: DataProblem::ArtistType, text },
            ),
    {
        assert(text != ArtistType::Person.literal());
        assert(text != ArtistType::Group.literal());
        assert(text != ArtistType::Orchestra.literal());
        assert(text != ArtistType::Choir.literal());
        assert(text != ArtistType::Character.literal());
        assert(text != ArtistType::Other.literal());
    }
}

impl FromStr for ArtistType {
    type Err = ReadError;

    /// Reads the value that `s` stands for, as `ArtistType::from_str` does.
    fn from_str(s: &str) -> (r: Result<Self, Self::Err>)
        ensures
            result_view(r) == ArtistType::parsed(s@),
    {
        ArtistType::from_str(s)
    }
}

impl FromXmlElement for ArtistType {

}

impl FromXml for ArtistType {
    open spec fn decoded(root: Node) -> Result<ArtistType, ReadErrorView> {
        ArtistType::at(root, "."@)
    }

    fn from_xml<'d, R: XPathReader<'d>>(reader: &'d R) -> (r: Result<Self, ReadError>) {
        proof {
            assert(supported("."@)) by {
                reveal_strlit(".");
            }
        }
        ArtistType::read(reader, ".")
    }
}

/// A musician, a group or another music professional. There are also a couple
/// special purpose artists.
/// 
/// Additional information can be found in the MusicBrainz wiki:
/// https://musicbrainz.org/doc/Artist
#[derive(Clone, Debug, PartialEq, Eq)]
pub struct Artist {
    /// MBID of the entity in the MusicBrainz database.
    pub mbid: Mbid,
    /// The official name of the artist.
    pub name: String,
    /// Name to properly sort the artist by.
    /// Even for artists whose `name` is written in a different script this one
    /// will be in latin script.
    pub sort_name: String,
    /// Aliases of the artist name. These include alternative official spellings,
    /// and common misspellings, versions in different scripts and other
    /// variations of the artist name.
    pub aliases: Vec<String>,
    /// Whether this Artist is a person, group, or something else.
    pub artist_type: ArtistType,
    /// If the Artist is a single person this indicates their gender.
    pub gender: Option<Gender>,
    /// The area an artist is primarily identified with. Often, but not always,
    /// birth/formation country of the artist/group.
    pub area: Option<AreaRef>,
    /// The date of birth of a person, or of the founding of a group.
    pub begin_date: Option<Date>,
    /// The date of death of a person, or of the dissolution of a group.
    pub end_date: Option<Date>,
    /// The code of the artist in the register of interested parties of CISAC.
    pub ipi_code: Option<String>,
    /// The International Standard Name Identifier of the artist.
    pub isni_code: Option<String>,
}

/// An `Artist` with its texts as sequences of characters.
pub struct ArtistView {
    pub mbid: Mbid,
    pub name: Seq<char>,
    pub sort_name: Seq<char>,
    pub aliases: Seq<Seq<char>>,
    pub artist_type: ArtistType,
    pub gender: Option<GenderView>,
    pub area: Option<AreaRefView>,
    pub begin_date: Option<Date>,
    pub end_date: Option<Date>,
    pub ipi_code: Option<Seq<char>>,
    pub isni_code: Option<Seq<char>>,
}

impl View for Artist {
    type V = ArtistView;

    open spec fn view(&self) -> ArtistView {
        ArtistView {
            mbid: self.mbid,
            name: self.name@,
            sort_name: self.sort_name@,
            aliases: views(self.aliases@),
            artist_type: self.artist_type,
            gender: option_view(self.gender),
            area: option_view(self.area),
            begin_date: self.begin_date,
            end_date: self.end_date,
            ipi_code: text_option(self.ipi_code),
            isni_code: text_option(self.isni_code),
        }
    }
}

/// The area of the artist that is read at `root`. An artist without an `area`
/// element has no area. Otherwise the area is read inside the first `artist`
/// element, and a failure there is a failure of the artist.
pub open spec fn artist_area(root: Node) -> Result<Option<AreaRefView>, ReadErrorView> {
    if selects_nothing(root, ".//mb:artist/mb:area"@) {
        Ok(None)
    } else {
        match first_node_at(root, ".//mb:artist"@) {
            Ok(node) => match AreaRef::decoded(node) {
                Ok(area) => Ok(Some(area)),
                Err(e) => Err(e),
            },
            Err(_) => Ok(None),
        }
    }
}

/// Whether the artist that `reader` stands at has no `area` element.
fn lacks_area<'d, R: XPathReader<'d>>(reader: &'d R) -> (r: bool)
    ensures
        r == selects_nothing(reader.root(), ".//mb:artist/mb:area"@),
{
    proof {
        assert(supported(".//mb:artist/mb:area"@)) by {
            reveal_strlit(".//mb:artist/mb:area");
        }
    }
    match reader.evaluate(".//mb:artist/mb:area") {
        Ok(value) => match value.document_order() {
            Some(areas) => {
                assert(roots(areas@).len() == areas.len());
                assert(areas.len() == 0 ==> roots(areas@) =~= Seq::<Node<'static>>::empty());
                areas.len() == 0
            },
            None => false,
        },
        Err(_) => false,
    }
}

fn read_artist_area<'d, R: XPathReader<'d>>(reader: &'d R) -> (r: Result<Option<AreaRef>, ReadError>)
    ensures
        match r {
            Ok(area) => artist_area(reader.root()) == Ok::<Option<AreaRefView>, ReadErrorView>(
                option_view(area),
            ),
            Err(e) => artist_area(reader.root()) == Err::<Option<AreaRefView>, ReadErrorView>(e@),
        },
{
    proof {
        assert(supported(".//mb:artist"@)) by {
            reveal_strlit(".//mb:artist");
        }
    }
    if lacks_area(reader) {
        return Ok(None);
    }
    match reader.relative_reader(".//mb:artist") {
        Ok(artist) => Ok(Some(AreaRef::from_xml(&artist)?)),
        Err(_) => Ok(None),
    }
}

/// An artist without an `area` element is read, and has no area: the missing
/// element is no failure.
pub proof fn lemma_artist_without_area(root: Node)
    requires
        selects_nothing(root, ".//mb:artist/mb:area"@),
    ensures
        artist_area(root) == Ok::<Option<AreaRefView>, ReadErrorView>(None),
        Artist::decoded(root) matches Ok(artist) ==> artist.area is None,
{
}

impl FromXmlContained for Artist {

}

impl FromXml for Artist {
    /// The area is read first, then the fields in the order of the record.
    open spec fn decoded(root: Node) -> Result<ArtistView, ReadErrorView> {
        let area = artist_area(root);
        let mbid = mbid_at(root, ".//mb:artist/@id"@);
        let name = text_at(root, ".//mb:artist/mb:name/text()"@);
        let sort_name = text_at(root, ".//mb:artist/mb:sort-name/text()"@);
        let aliases = list_at::<String>(root, ".//mb:artist/mb:alias-list/mb:alias/text()"@);
        let artist_type = ArtistType::at(root, ".//mb:artist/@type"@);
        let gender = Gender::at(root, ".//mb:artist/mb:gender/text()"@);
        let begin_date = optional_date_at(root, ".//mb:artist/mb:life-span/mb:begin/text()"@);
        let end_date = optional_date_at(root, ".//mb:artist/mb:life-span/mb:end/text()"@);
        let ipi_code = optional_text_at(root, ".//mb:artist/mb:ipi/text()"@);
        let isni_code = optional_text_at(root, ".//mb:artist/mb:isni-list/mb:isni/text()"@);
        if area is Err {
            Err(area->Err_0)
        } else if mbid is Err {
            Err(mbid->Err_0)
        } else if name is Err {
            Err(name->Err_0)
        } else if sort_name is Err {
            Err(sort_name->Err_0)
        } else if aliases is Err {
            Err(aliases->Err_0)
        } else if artist_type is Err {
            Err(artist_type->Err_0)
        } else if gender is Err {
            Err(gender->Err_0)
        } else if begin_date is Err {
            Err(begin_date->Err_0)
        } else if end_date is Err {
            Err(end_date->Err_0)
        } else if ipi_code is Err {
            Err(ipi_code->Err_0)
        } else if isni_code is Err {
            Err(isni_code->Err_0)
        } else {
            Ok(
                ArtistView {
                    mbid: mbid->Ok_0,
                    name: name->Ok_0,
                    sort_name: sort_name->Ok_0,
                    aliases: aliases->Ok_0,
                    artist_type: artist_type->Ok_0,
                    gender: gender->Ok_0,
                    area: area->Ok_0,
                    begin_date: begin_date->Ok_0,
                    end_date: end_date->Ok_0,
                    ipi_code: ipi_code->Ok_0,
                    isni_code: isni_code->Ok_0,
                },
            )
        }
    }

    fn from_xml<'d, R: XPathReader<'d>>(reader: &'d R) -> (r: Result<Self, ReadError>) {
        proof {
            assert(supported(".//mb:artist/@id"@)) by {
                reveal_strlit(".//mb:artist/@id");
            }
            assert(supported(".//mb:artist/mb:name/text()"@)) by {
                reveal_strlit(".//mb:artist/mb:name/text()");
            }
            assert(supported(".//mb:artist/mb:sort-name/text()"@)) by {
                reveal_strlit(".//mb:artist/mb:sort-name/text()");
            }
            assert(supported(".//mb:artist/mb:alias-list/mb:alias/text()"@)) by {
                reveal_strlit(".//mb:artist/mb:alias-list/mb:alias/text()");
            }
            assert(supported(".//mb:artist/@type"@)) by {
                reveal_strlit(".//mb:artist/@type");
            }
            assert(supported(".//mb:artist/mb:gender/text()"@)) by {
                reveal_strlit(".//mb:artist/mb:gender/text()");
            }
            assert(supported(".//mb:artist/mb:life-span/mb:begin/text()"@)) by {
                reveal_strlit(".//mb:artist/mb:life-span/mb:begin/text()");
            }
            assert(supported(".//mb:artist/mb:life-span/mb:end/text()"@)) by {
                reveal_strlit(".//mb:artist/mb:life-span/mb:end/text()");
            }
            assert(supported(".//mb:artist/mb:ipi/text()"@)) by {
                reveal_strlit(".//mb:artist/mb:ipi/text()");
            }
            assert(supported(".//mb:artist/mb:isni-list/mb:isni/text()"@)) by {
                reveal_strlit(".//mb:artist/mb:isni-list/mb:isni/text()");
            }
        }
        let area = read_artist_area(reader)?;
        let mbid = reader.read_mbid(".//mb:artist/@id")?;
        let name = reader.read_string(".//mb:artist/mb:name/text()")?;
        let sort_name = reader.read_string(".//mb:artist/mb:sort-name/text()")?;
        let aliases = read_vec::<R, String>(reader, ".//mb:artist/mb:alias-list/mb:alias/text()")?;
        let artist_type = ArtistType::read(reader, ".//mb:artist/@type")?;
        let gender = Gender::read(reader, ".//mb:artist/mb:gender/text()")?;
        let begin_date = reader.read_date_option(".//mb:artist/mb:life-span/mb:begin/text()")?;
        let end_date = reader.read_date_option(".//mb:artist/mb:life-span/mb:end/text()")?;
        let ipi_code = reader.read_nstring(".//mb:artist/mb:ipi/text()")?;
        let isni_code = reader.read_nstring(".//mb:artist/mb:isni-list/mb:isni/text()")?;
        Ok(
            Artist {
                mbid,
                name,
                sort_name,
                aliases,
                artist_type,
                gender,
                area,
                begin_date,
                end_date,
                ipi_code,
                isni_code,
            },
        )
    }
}

impl Resource for Artist {
    open spec fn name() -> Seq<char> {
        "artist"@
    }

    open spec fn incs() -> Seq<char> {
        "aliases"@
    }

    fn get_name() -> (r: &'static str) {
        "artist"
    }

    fn get_incs() -> (r: &'static str) {
        "aliases"
    }
}

} // verus!
