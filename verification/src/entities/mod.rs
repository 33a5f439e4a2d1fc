//! The entities of the MusicBrainz database and the values they are made of.

use crate::entities::xpath_reader::text_at;
use crate::errors::{result_view, DataProblem, ReadError, ReadErrorView};
use crate::mbid::uuid_text;
use crate::text::{chars_of, spells};
use std::str::FromStr;
use sxd_xpath::nodeset::Node;
use crate::expression::supported;
use crate::entities::xpath_reader::turned_away;
use vstd::prelude::*;

pub mod area;
pub mod artist;
pub mod date;
pub mod event;
pub mod label;
pub mod recording;
pub mod refs;
pub mod release;
pub mod release_group;
pub mod xpath_reader;

pub use self::area::{Area, AreaType, AreaView};
pub use self::artist::{Artist, ArtistType, ArtistView, Gender, GenderView};
pub use self::date::{parse_date, Date, ParseDateError};
pub use self::event::{Event, EventType};
pub use self::label::{Label, LabelView};
pub use self::recording::{Recording, RecordingView};
pub use self::refs::{
    AreaRef, AreaRefView, ArtistRef, ArtistRefView, LabelRef, LabelRefView, RecordingRef,
    RecordingRefView, ReleaseRef, ReleaseRefView,
};
pub use self::release::{
    Release, ReleaseMedium, ReleaseMediumView, ReleaseStatus, ReleaseTrack, ReleaseTrackView,
    ReleaseView,
};
pub use self::release_group::{
    ReleaseGroup, ReleaseGroupPrimaryType, ReleaseGroupSecondaryType, ReleaseGroupType,
    ReleaseGroupTypeView, ReleaseGroupView,
};
pub use self::xpath_reader::{
    default_musicbrainz_context, read_vec, FromXml, FromXmlContained, FromXmlElement,
    XPathNodeReader, XPathReader, XPathStrReader, XPathValue,
};
pub use crate::mbid::Mbid;
pub use crate::text::non_empty_string;

verus! {

/// A length of time, counted in milliseconds.
#[derive(Clone, Copy, Debug, PartialEq, Eq, Structural)]
pub struct Duration {
    millis: u64,
}

impl View for Duration {
    type V = Duration;

    open spec fn view(&self) -> Duration {
        *self
    }
}

impl Duration {
    pub closed spec fn spec_from_millis(millis: u64) -> Duration {
        Duration { millis }
    }

    pub closed spec fn spec_as_millis(&self) -> u64 {
        self.millis
    }

    /// The duration of `millis` milliseconds.
    #[verifier::when_used_as_spec(spec_from_millis)]
    pub fn from_millis(millis: u64) -> (r: Duration)
        ensures
            r == Duration::spec_from_millis(millis),
            r.spec_as_millis() == millis,
    {
        Duration { millis }
    }

    /// The number of milliseconds in this duration.
    #[verifier::when_used_as_spec(spec_as_millis)]
    pub fn as_millis(&self) -> (r: u64)
        ensures
            r == self.spec_as_millis(),
            Duration::spec_from_millis(r) == *self,
    {
        self.millis
    }
}

/// What the web service needs to know of a kind of entity to hand out one
/// instance of it by its identifier.
pub trait Resource {
    /// The name of the kind of entity in the paths of the web service.
    spec fn name() -> Seq<char>;

    /// The related data that is asked for along with an entity, as the value of
    /// the `inc` parameter.
    spec fn incs() -> Seq<char>;

    /// Returns the name of the resource part in the path of the web service,
    /// `artist` for example.
    fn get_name() -> (r: &'static str)
        ensures
            r@ == Self::name(),
    ;

    /// Returns the inclusions that are asked for when an entity is fetched,
    /// `aliases` for example; `+` separates them.
    fn get_incs() -> (r: &'static str)
        ensures
            r@ == Self::incs(),
    ;

    /// Base url of the entity, for example:
    /// `https://musicbrainz.org/ws/2/artist/`. Searches start from it.
    fn base_url() -> (r: String)
        ensures
            r@ == base_url_of(Self::name()),
    {
        let mut url = "https://musicbrainz.org/ws/2/".to_owned();
        url.append(Self::get_name());
        url.append("/");
        url
    }

    /// Returns the url where one can get a resource in the valid format for
    /// parsing from.
    fn get_url(mbid: &Mbid) -> (r: String)
        ensures
            r@ == lookup_url_of(Self::name(), uuid_text(mbid.spec_as_u128()), Self::incs()),
    {
        let mut url = Self::base_url();
        url.append(mbid.to_string().as_str());
        url.append("?inc=");
        url.append(Self::get_incs());
        url
    }
}

/// The address under which the web service keeps the entities of the kind
/// `name`.
pub open spec fn base_url_of(name: Seq<char>) -> Seq<char> {
    "https://musicbrainz.org/ws/2/"@ + name + "/"@
}

/// The address of the entity with the identifier `mbid` among those of the
/// kind `name`, with the inclusions `incs`.
pub open spec fn lookup_url_of(name: Seq<char>, mbid: Seq<char>, incs: Seq<char>) -> Seq<char> {
    base_url_of(name) + mbid + "?inc="@ + incs
}

pub struct Instrument {

}

/// What a label mainly does.
#[derive(Clone, Copy, Debug, PartialEq, Eq, Structural)]
pub enum LabelType {
    /// The main `LabelType` in the MusicBrainz database.
    /// That is a brand (and trademark) associated with the marketing of a release.
    Imprint,
    /// Production company producing entirely new releases.
    ProductionOriginal,
    /// Known bootleg production companies, not sanctioned by the rights owners of
    /// the released work.
    ProductionBootleg,
    /// Companies specialized in catalog reissues.
    ProductionReissue,
    /// Companies mainly distributing other labels production, often in a specfic
    /// region of the world.
    Distribution,
    /// Holdings, conglomerates or other financial entities that don't mainly
    /// produce records but manage a large set of recording labels owned by them.
    Holding,
    /// An organization which collects royalties on behalf of the artists.
    RightsSociety,
}

impl View for LabelType {
    type V = LabelType;

    open spec fn view(&self) -> LabelType {
        *self
    }
}

impl LabelType {
    /// The text that the web service writes for this value.
    pub open spec fn literal(self) -> Seq<char> {
        match self {
            LabelType::Imprint => "Imprint"@,
            LabelType::ProductionOriginal => "Original Production"@,
            LabelType::ProductionBootleg => "Bootleg Production"@,
            LabelType::ProductionReissue => "Reissue Production"@,
            LabelType::Distribution => "Distribution"@,
            LabelType::Holding => "Holding"@,
            LabelType::RightsSociety => "RightsSociety"@,
        }
    }

    /// The text that the web service writes for this value.
    pub fn as_str(&self) -> (r: &'static str)
        ensures
            r@ == self.literal(),
    {
        match self {
            LabelType::Imprint => "Imprint",
            LabelType::ProductionOriginal => "Original Production",
            LabelType::ProductionBootleg => "Bootleg Production",
            LabelType::ProductionReissue => "Reissue Production",
            LabelType::Distribution => "Distribution",
            LabelType::Holding => "Holding",
            LabelType::RightsSociety => "RightsSociety",
        }
    }

    /// The value that `text` stands for, if it stands for one.
    pub open spec fn from_literal(text: Seq<char>) -> Option<LabelType> {
        if text == "Imprint"@ {
            Some(LabelType::Imprint)
        } else if text == "Original Production"@ {
            Some(LabelType::ProductionOriginal)
        } else if text == "Bootleg Production"@ {
            Some(LabelType::ProductionBootleg)
        } else if text == "Reissue Production"@ {
            Some(LabelType::ProductionReissue)
        } else if text == "Distribution"@ {
            Some(LabelType::Distribution)
        } else if text == "Holding"@ {
            Some(LabelType::Holding)
        } else if text == "RightsSociety"@ {
            Some(LabelType::RightsSociety)
        } else {
            None
        }
    }

    /// The value that `text` stands for; any other text is invalid data.
    pub open spec fn parsed(text: Seq<char>) -> Result<LabelType, ReadErrorView> {
        match LabelType::from_literal(text) {
            Some(value) => Ok(value),
            None => Err(ReadErrorView::InvalidData { problem: DataProblem::LabelType, text }),
        }
    }

    /// Reads the value that `s` stands for.
    pub fn from_str(s: &str) -> (r: Result<LabelType, ReadError>)
        ensures
            result_view(r) == LabelType::parsed(s@),
    {
        let chars = chars_of(s);
        if spells(&chars, "Imprint") {
            Ok(LabelType::Imprint)
        } else if spells(&chars, "Original Production") {
            Ok(LabelType::ProductionOriginal)
        } else if spells(&chars, "Bootleg Production") {
            Ok(LabelType::ProductionBootleg)
        } else if spells(&chars, "Reissue Production") {
            Ok(LabelType::ProductionReissue)
        } else if spells(&chars, "Distribution") {
            Ok(LabelType::Distribution)
        } else if spells(&chars, "Holding") {
            Ok(LabelType::Holding)
        } else if spells(&chars, "RightsSociety") {
            Ok(LabelType::RightsSociety)
        } else {
            Err(ReadError::invalid(DataProblem::LabelType, s))
        }
    }

    /// The value that `expr` gives at `root`.
    pub open spec fn at(root: Node, expr: Seq<char>) -> Result<LabelType, ReadErrorView> {
        match text_at(root, expr) {
            Ok(text) => LabelType::parsed(text),
            Err(e) => Err(e),
        }
    }

    /// Evaluates an XPath expression and reads the value that its text stands
    /// for.
    pub fn read<'d, R: XPathReader<'d>>(reader: &'d R, xpath_expr: &str) -> (r: Result<
        LabelType,
        ReadError,
    >)
        ensures
            supported(xpath_expr@) ==> result_view(r) == LabelType::at(reader.root(), xpath_expr@),
            turned_away(xpath_expr@, r),
    {
        let text = reader.read_string(xpath_expr)?;
        LabelType::from_str(text.as_str())
    }

    /// Every value is read back from the text that stands for it.
    pub proof fn lemma_literal_round_trip(value: LabelType)
        ensures
            LabelType::from_literal(value.literal()) == Some(value),
            LabelType::parsed(value.literal()) == Ok::<LabelType, ReadErrorView>(value),
    {
        reveal_strlit("Imprint");
        reveal_strlit("Original Production");
        reveal_strlit("Bootleg Production");
        reveal_strlit("Reissue Production");
        reveal_strlit("Distribution");
        reveal_strlit("Holding");
        reveal_strlit("RightsSociety");
        assert("Imprint"@.len() == 7);
        assert("Original Production"@.len() == 19);
        assert("Bootleg Production"@.len() == 18);
        assert("Reissue Production"@.len() == 18);
        assert("Distribution"@.len() == 12);
        assert("Holding"@.len() == 7);
        assert("RightsSociety"@.len() == 13);
        assert("Imprint"@[0] == 'I');
        assert("Holding"@[0] == 'H');
        assert("Bootleg Production"@[0] == 'B');
        assert("Reissue Production"@[0] == 'R');
    }

    /// A text that stands for no value is refused as invalid data, with the
    /// text in the failure.
    pub proof fn lemma_unknown_literal(text: Seq<char>)
        requires
            forall|value: LabelType| text != value.literal(),
        ensures
            LabelType::parsed(text) == Err::<LabelType, ReadErrorView>(
                ReadErrorView::InvalidData { problem: DataProblem::LabelType, text },
            ),
    {
        assert(text != LabelType::Imprint.literal());
        assert(text != LabelType::ProductionOriginal.literal());
        assert(text != LabelType::ProductionBootleg.literal());
        assert(text != LabelType::ProductionReissue.literal());
        assert(text != LabelType::Distribution.literal());
        assert(text != LabelType::Holding.literal());
        assert(text != LabelType::RightsSociety.literal());
    }
}

impl FromStr for LabelType {
    type Err = ReadError;

    /// Reads the value that `s` stands for, as `LabelType::from_str` does.
    fn from_str(s: &str) -> (r: Result<Self, Self::Err>)
        ensures
            result_view(r) == LabelType::parsed(s@),
    {
        LabelType::from_str(s)
    }
}

impl FromXmlElement for LabelType {

}

impl FromXml for LabelType {
    open spec fn decoded(root: Node) -> Result<LabelType, ReadErrorView> {
        LabelType::at(root, "."@)
    }

    fn from_xml<'d, R: XPathReader<'d>>(reader: &'d R) -> (r: Result<Self, ReadError>) {
        proof {
            assert(supported("."@)) by {
                reveal_strlit(".");
            }
        }
        LabelType::read(reader, ".")
    }
}

pub struct Series {

}

pub struct Work {

}

pub struct Url {

}

} // verus!
