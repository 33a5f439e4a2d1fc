use crate::entities::refs::{ArtistRef, ArtistRefView, ReleaseRef, ReleaseRefView};
use crate::entities::xpath_reader::{
    first_node_at, list_at, mbid_at, optional_text_at, read_vec, text_at, text_option, views,
    FromXml, FromXmlContained, FromXmlElement, XPathReader,
};
use crate::entities::Resource;
use crate::errors::{result_view, DataProblem, ReadError, ReadErrorView};
use crate::mbid::Mbid;
use crate::text::{chars_of, spells};
use std::str::FromStr;
use sxd_xpath::nodeset::Node;
use crate::expression::supported;
use crate::entities::xpath_reader::turned_away;
use vstd::prelude::*;

verus! {

/// The primary type of a release group.
#[derive(Clone, Copy, Debug, PartialEq, Eq, Structural)]
pub enum ReleaseGroupPrimaryType {
    Album,
    Single,
    EP,
    Broadcast,
    Other,
}

impl View for ReleaseGroupPrimaryType {
    type V = ReleaseGroupPrimaryType;

    open spec fn view(&self) -> ReleaseGroupPrimaryType {
        *self
    }
}

impl ReleaseGroupPrimaryType {
    /// The text that the web service writes for this value.
    pub open spec fn literal(self) -> Seq<char> {
        match self {
            ReleaseGroupPrimaryType::Album => "Album"@,
            ReleaseGroupPrimaryType::Single => "Single"@,
            ReleaseGroupPrimaryType::EP => "EP"@,
            ReleaseGroupPrimaryType::Broadcast => "Broadcast"@,
            ReleaseGroupPrimaryType::Other => "Other"@,
        }
    }

    /// The text that the web service writes for this value.
    pub fn as_str(&self) -> (r: &'static str)
        ensures
            r@ == self.literal(),
    {
        match self {
            ReleaseGroupPrimaryType::Album => "Album",
            ReleaseGroupPrimaryType::Single => "Single",
            ReleaseGroupPrimaryType::EP => "EP",
            ReleaseGroupPrimaryType::Broadcast => "Broadcast",
            ReleaseGroupPrimaryType::Other => "Other",
        }
    }

    /// The value that `text` stands for, if it stands for one.
    pub open spec fn from_literal(text: Seq<char>) -> Option<ReleaseGroupPrimaryType> {
        if text == "Album"@ {
            Some(ReleaseGroupPrimaryType::Album)
        } else if text == "Single"@ {
            Some(ReleaseGroupPrimaryType::Single)
        } else if text == "EP"@ {
            Some(ReleaseGroupPrimaryType::EP)
        } else if text == "Broadcast"@ {
            Some(ReleaseGroupPrimaryType::Broadcast)
        } else if text == "Other"@ {
            Some(ReleaseGroupPrimaryType::Other)
        } else {
            None
        }
    }

    /// The value that `text` stands for; any other text is invalid data.
    pub open spec fn parsed(text: Seq<char>) -> Result<ReleaseGroupPrimaryType, ReadErrorView> {
        match ReleaseGroupPrimaryType::from_literal(text) {
            Some(value) => Ok(value),
            None => Err(ReadErrorView::InvalidData { problem: DataProblem::ReleaseGroupPrimaryType, text }),
        }
    }

    /// Reads the value that `s` stands for.
    pub fn from_str(s: &str) -> (r: Result<ReleaseGroupPrimaryType, ReadError>)
        ensures
            result_view(r) == ReleaseGroupPrimaryType::parsed(s@),
    {
        let chars = chars_of(s);
        if spells(&chars, "Album") {
            Ok(ReleaseGroupPrimaryType::Album)
        } else if spells(&chars, "Single") {
            Ok(ReleaseGroupPrimaryType::Single)
        } else if spells(&chars, "EP") {
            Ok(ReleaseGroupPrimaryType::EP)
        } else if spells(&chars, "Broadcast") {
            Ok(ReleaseGroupPrimaryType::Broadcast)
        } else if spells(&chars, "Other") {
            Ok(ReleaseGroupPrimaryType::Other)
        } else {
            Err(ReadError::invalid(DataProblem::ReleaseGroupPrimaryType, s))
        }
    }

    /// The value that `expr` gives at `root`.
    pub open spec fn at(root: Node, expr: Seq<char>) -> Result<ReleaseGroupPrimaryType, ReadErrorView> {
        match text_at(root, expr) {
            Ok(text) => ReleaseGroupPrimaryType::parsed(text),
            Err(e) => Err(e),
        }
    }

    /// Evaluates an XPath expression and reads the value that its text stands
    /// for.
    pub fn read<'d, R: XPathReader<'d>>(reader: &'d R, xpath_expr: &str) -> (r: Result<
        ReleaseGroupPrimaryType,
        ReadError,
    >)
        ensures
            supported(xpath_expr@) ==> result_view(r) == ReleaseGroupPrimaryType::at(reader.root(), xpath_expr@),
            turned_away(xpath_expr@, r),
    {
        let text = reader.read_string(xpath_expr)?;
        ReleaseGroupPrimaryType::from_str(text.as_str())
    }

    /// Every value is read back from the text that stands for it.
    pub proof fn lemma_literal_round_trip(value: ReleaseGroupPrimaryType)
        ensures
            ReleaseGroupPrimaryType::from_literal(value.literal()) == Some(value),
            ReleaseGroupPrimaryType::parsed(value.literal()) == Ok::<ReleaseGroupPrimaryType, ReadErrorView>(value),
    {
        reveal_strlit("Album");
        reveal_strlit("Single");
        reveal_strlit("EP");
        reveal_strlit("Broadcast");
        reveal_strlit("Other");
        assert("Album"@.len() == 5);
        assert("Single"@.len() == 6);
        assert("EP"@.len() == 2);
        assert("Broadcast"@.len() == 9);
        assert("Other"@.len() == 5);
        assert("Album"@[0] == 'A');
        assert("Other"@[0] == 'O');
    }

    /// A text that stands for no value is refused as invalid data, with the
    /// text in the failure.
    pub proof fn lemma_unknown_literal(text: Seq<char>)
        requires
            forall|value: ReleaseGroupPrimaryType| text != value.literal(),
        ensures
            ReleaseGroupPrimaryType::parsed(text) == Err::<ReleaseGroupPrimaryType, ReadErrorView>(
                ReadErrorView::InvalidData { problem: DataProblem::ReleaseGroupPrimaryType, text },
            ),
    {
        assert(text != ReleaseGroupPrimaryType::Album.literal());
        assert(text != ReleaseGroupPrimaryType::Single.literal());
        assert(text != ReleaseGroupPrimaryType::EP.literal());
        assert(text != ReleaseGroupPrimaryType::Broadcast.literal());
        assert(text != ReleaseGroupPrimaryType::Other.literal());
    }
}

impl FromStr for ReleaseGroupPrimaryType {
    type Err = ReadError;

    /// Reads the value that `s` stands for, as `ReleaseGroupPrimaryType::from_str` does.
    fn from_str(s: &str) -> (r: Result<Self, Self::Err>)
        ensures
            result_view(r) == ReleaseGroupPrimaryType::parsed(s@),
    {
        ReleaseGroupPrimaryType::from_str(s)
    }
}

impl FromXmlElement for ReleaseGroupPrimaryType {

}

impl FromXml for ReleaseGroupPrimaryType {
    open spec fn decoded(root: Node) -> Result<ReleaseGroupPrimaryType, ReadErrorView> {
        ReleaseGroupPrimaryType::at(root, "."@)
    }

    fn from_xml<'d, R: XPathReader<'d>>(reader: &'d R) -> (r: Result<Self, ReadError>) {
        proof {
            assert(supported("."@)) by {
                reveal_strlit(".");
            }
        }
        ReleaseGroupPrimaryType::read(reader, ".")
    }
}

/// The primary type that `text` stands for, in a field that may be absent:
/// none for the empty text.
pub open spec fn optional_primary_type(text: Seq<char>) -> Result<
    Option<ReleaseGroupPrimaryType>,
    ReadErrorView,
> {
    if text.len() == 0 {
        Ok(None)
    } else {
        match ReleaseGroupPrimaryType::parsed(text) {
            Ok(primary) => Ok(Some(primary)),
            Err(e) => Err(e),
        }
    }
}

/// The primary type that `expr` gives at `root`, if it gives any text.
pub open spec fn optional_primary_type_at(root: Node, expr: Seq<char>) -> Result<
    Option<ReleaseGroupPrimaryType>,
    ReadErrorView,
> {
    match text_at(root, expr) {
        Ok(text) => optional_primary_type(text),
        Err(e) => Err(e),
    }
}

impl ReleaseGroupPrimaryType {
    /// Evaluates an XPath expression and reads the primary type that its text
    /// stands for; the empty text stands for no type.
    pub fn read_option<'d, R: XPathReader<'d>>(reader: &'d R, xpath_expr: &str) -> (r: Result<
        Option<ReleaseGroupPrimaryType>,
        ReadError,
    >)
        ensures
            supported(xpath_expr@) ==> result_view(r) == optional_primary_type_at(reader.root(), xpath_expr@),
            turned_away(xpath_expr@, r),
    {
        let text = reader.read_string(xpath_expr)?;
        if text.as_str().unicode_len() == 0 {
            Ok(None)
        } else {
            Ok(Some(ReleaseGroupPrimaryType::from_str(text.as_str())?))
        }
    }
}

/// Secondary types of a release group. There can be any number of secondary
/// types.
#[derive(Clone, Copy, Debug, PartialEq, Eq, Structural)]
pub enum ReleaseGroupSecondaryType {
    Compilation,
    Soundtrack,
    Spokenword,
    Interview,
    Audiobook,
    Live,
    Remix,
    DjMix,
    MixtapeStreet,
}

impl View for ReleaseGroupSecondaryType {
    type V = ReleaseGroupSecondaryType;

    open spec fn view(&self) -> ReleaseGroupSecondaryType {
        *self
    }
}

impl ReleaseGroupSecondaryType {
    /// The text that the web service writes for this value.
    pub open spec fn literal(self) -> Seq<char> {
        match self {
            ReleaseGroupSecondaryType::Compilation => "Compilation"@,
            ReleaseGroupSecondaryType::Soundtrack => "Soundtrack"@,
            ReleaseGroupSecondaryType::Spokenword => "Spokenword"@,
            ReleaseGroupSecondaryType::Interview => "Interview"@,
            ReleaseGroupSecondaryType::Audiobook => "Audiobook"@,
            ReleaseGroupSecondaryType::Live => "Live"@,
            ReleaseGroupSecondaryType::Remix => "Remix"@,
            ReleaseGroupSecondaryType::DjMix => "DJ-mix"@,
            ReleaseGroupSecondaryType::MixtapeStreet => "Mixtape/Street"@,
        }
    }

    /// The text that the web service writes for this value.
    pub fn as_str(&self) -> (r: &'static str)
        ensures
            r@ == self.literal(),
    {
        match self {
            ReleaseGroupSecondaryType::Compilation => "Compilation",
            ReleaseGroupSecondaryType::Soundtrack => "Soundtrack",
            ReleaseGroupSecondaryType::Spokenword => "Spokenword",
            ReleaseGroupSecondaryType::Interview => "Interview",
            ReleaseGroupSecondaryType::Audiobook => "Audiobook",
            ReleaseGroupSecondaryType::Live => "Live",
            ReleaseGroupSecondaryType::Remix => "Remix",
            ReleaseGroupSecondaryType::DjMix => "DJ-mix",
            ReleaseGroupSecondaryType::MixtapeStreet => "Mixtape/Street",
        }
    }

    /// The value that `text` stands for, if it stands for one.
    pub open spec fn from_literal(text: Seq<char>) -> Option<ReleaseGroupSecondaryType> {
        if text == "Compilation"@ {
            Some(ReleaseGroupSecondaryType::Compilation)
        } else if text == "Soundtrack"@ {
            Some(ReleaseGroupSecondaryType::Soundtrack)
        } else if text == "Spokenword"@ {
            Some(ReleaseGroupSecondaryType::Spokenword)
        } else if text == "Interview"@ {
            Some(ReleaseGroupSecondaryType::Interview)
        } else if text == "Audiobook"@ {
            Some(ReleaseGroupSecondaryType::Audiobook)
        } else if text == "Live"@ {
            Some(ReleaseGroupSecondaryType::Live)
        } else if text == "Remix"@ {
            Some(ReleaseGroupSecondaryType::Remix)
        } else if text == "DJ-mix"@ {
            Some(ReleaseGroupSecondaryType::DjMix)
        } else if text == "Mixtape/Street"@ {
            Some(ReleaseGroupSecondaryType::MixtapeStreet)
        } else {
            None
        }
    }

    /// The value that `text` stands for; any other text is invalid data.
    pub open spec fn parsed(text: Seq<char>) -> Result<ReleaseGroupSecondaryType, ReadErrorView> {
        match ReleaseGroupSecondaryType::from_literal(text) {
            Some(value) => Ok(value),
            None => Err(ReadErrorView::InvalidData { problem: DataProblem::ReleaseGroupSecondaryType, text }),
        }
    }

    /// Reads the value that `s` stands for.
    pub fn from_str(s: &str) -> (r: Result<ReleaseGroupSecondaryType, ReadError>)
        ensures
            result_view(r) == ReleaseGroupSecondaryType::parsed(s@),
    {
        let chars = chars_of(s);
        if spells(&chars, "Compilation") {
            Ok(ReleaseGroupSecondaryType::Compilation)
        } else if spells(&chars, "Soundtrack") {
            Ok(ReleaseGroupSecondaryType::Soundtrack)
        } else if spells(&chars, "Spokenword") {
            Ok(ReleaseGroupSecondaryType::Spokenword)
        } else if spells(&chars, "Interview") {
            Ok(ReleaseGroupSecondaryType::Interview)
        } else if spells(&chars, "Audiobook") {
            Ok(ReleaseGroupSecondaryType::Audiobook)
        } else if spells(&chars, "Live") {
            Ok(ReleaseGroupSecondaryType::Live)
        } else if spells(&chars, "Remix") {
            Ok(ReleaseGroupSecondaryType::Remix)
        } else if spells(&chars, "DJ-mix") {
            Ok(ReleaseGroupSecondaryType::DjMix)
        } else if spells(&chars, "Mixtape/Street") {
            Ok(ReleaseGroupSecondaryType::MixtapeStreet)
        } else {
            Err(ReadError::invalid(DataProblem::ReleaseGroupSecondaryType, s))
        }
    }

    /// The value that `expr` gives at `root`.
    pub open spec fn at(root: Node, expr: Seq<char>) -> Result<ReleaseGroupSecondaryType, ReadErrorView> {
        match text_at(root, expr) {
            Ok(text) => ReleaseGroupSecondaryType::parsed(text),
            Err(e) => Err(e),
        }
    }

    /// Evaluates an XPath expression and reads the value that its text stands
    /// for.
    pub fn read<'d, R: XPathReader<'d>>(reader: &'d R, xpath_expr: &str) -> (r: Result<
        ReleaseGroupSecondaryType,
        ReadError,
    >)
        ensures
            supported(xpath_expr@) ==> result_view(r) == ReleaseGroupSecondaryType::at(reader.root(), xpath_expr@),
            turned_away(xpath_expr@, r),
    {
        let text = reader.read_string(xpath_expr)?;
        ReleaseGroupSecondaryType::from_str(text.as_str())
    }

    /// Every value is read back from the text that stands for it.
    pub proof fn lemma_literal_round_trip(value: ReleaseGroupSecondaryType)
        ensures
            ReleaseGroupSecondaryType::from_literal(value.literal()) == Some(value),
            ReleaseGroupSecondaryType::parsed(value.literal()) == Ok::<ReleaseGroupSecondaryType, ReadErrorView>(value),
    {
        reveal_strlit("Compilation");
        reveal_strlit("Soundtrack");
        reveal_strlit("Spokenword");
        reveal_strlit("Interview");
        reveal_strlit("Audiobook");
        reveal_strlit("Live");
        reveal_strlit("Remix");
        reveal_strlit("DJ-mix");
        reveal_strlit("Mixtape/Street");
        assert("Compilation"@.len() == 11);
        assert("Soundtrack"@.len() == 10);
        assert("Spokenword"@.len() == 10);
        assert("Interview"@.len() == 9);
        assert("Audiobook"@.len() == 9);
        assert("Live"@.len() == 4);
        assert("Remix"@.len() == 5);
        assert("DJ-mix"@.len() == 6);
        assert("Mixtape/Street"@.len() == 14);
        assert("Soundtrack"@[1] == 'o');
        assert("Spokenword"@[1] == 'p');
        assert("Interview"@[0] == 'I');
        assert("Audiobook"@[0] == 'A');
    }

    /// A text that stands for no value is refused as invalid data, with the
    /// text in the failure.
    pub proof fn lemma_unknown_literal(text: Seq<char>)
        requires
            forall|value: ReleaseGroupSecondaryType| text != value.literal(),
        ensures
            ReleaseGroupSecondaryType::parsed(text) == Err::<ReleaseGroupSecondaryType, ReadErrorView>(
                ReadErrorView::InvalidData { problem: DataProblem::ReleaseGroupSecondaryType, text },
            ),
    {
        assert(text != ReleaseGroupSecondaryType::Compilation.literal());
        assert(text != ReleaseGroupSecondaryType::Soundtrack.literal());
        assert(text != ReleaseGroupSecondaryType::Spokenword.literal());
        assert(text != ReleaseGroupSecondaryType::Interview.literal());
        assert(text != ReleaseGroupSecondaryType::Audiobook.literal());
        assert(text != ReleaseGroupSecondaryType::Live.literal());
        assert(text != ReleaseGroupSecondaryType::Remix.literal());
        assert(text != ReleaseGroupSecondaryType::DjMix.literal());
        assert(text != ReleaseGroupSecondaryType::MixtapeStreet.literal());
    }
}

impl FromStr for ReleaseGroupSecondaryType {
    type Err = ReadError;

    /// Reads the value that `s` stands for, as `ReleaseGroupSecondaryType::from_str` does.
    fn from_str(s: &str) -> (r: Result<Self, Self::Err>)
        ensures
            result_view(r) == ReleaseGroupSecondaryType::parsed(s@),
    {
        ReleaseGroupSecondaryType::from_str(s)
    }
}

impl FromXmlElement for ReleaseGroupSecondaryType {

}

impl FromXml for ReleaseGroupSecondaryType {
    open spec fn decoded(root: Node) -> Result<ReleaseGroupSecondaryType, ReadErrorView> {
        ReleaseGroupSecondaryType::at(root, "."@)
    }

    fn from_xml<'d, R: XPathReader<'d>>(reader: &'d R) -> (r: Result<Self, ReadError>) {
        proof {
            assert(supported("."@)) by {
                reveal_strlit(".");
            }
        }
        ReleaseGroupSecondaryType::read(reader, ".")
    }
}

/// The type of a `ReleaseGroup`.
/// 
/// For more information consult: https://musicbrainz.org/doc/Release_Group/Type
#[derive(Clone, Debug, PartialEq, Eq)]
pub struct ReleaseGroupType {
    pub primary: Option<ReleaseGroupPrimaryType>,
    pub secondary: Vec<ReleaseGroupSecondaryType>,
}

/// A `ReleaseGroupType` with its texts as sequences of characters.
pub struct ReleaseGroupTypeView {
    pub primary: Option<ReleaseGroupPrimaryType>,
    pub secondary: Seq<ReleaseGroupSecondaryType>,
}

impl View for ReleaseGroupType {
    type V = ReleaseGroupTypeView;

    open spec fn view(&self) -> ReleaseGroupTypeView {
        ReleaseGroupTypeView {
            primary: self.primary,
            secondary: views(self.secondary@),
        }
    }
}

impl FromXmlElement for ReleaseGroupType {

}

impl FromXml for ReleaseGroupType {
    open spec fn decoded(root: Node) -> Result<ReleaseGroupTypeView, ReadErrorView> {
        let primary = optional_primary_type_at(root, ".//mb:primary-type/text()"@);
        let secondary = list_at::<ReleaseGroupSecondaryType>(
            root,
            ".//mb:secondary-type-list/mb:secondary-type/text()"@,
        );
        if primary is Err {
            Err(primary->Err_0)
        } else if secondary is Err {
            Err(secondary->Err_0)
        } else {
            Ok(
                ReleaseGroupTypeView {
                    primary: primary->Ok_0,
                    secondary: secondary->Ok_0,
                },
            )
        }
    }

    fn from_xml<'d, R: XPathReader<'d>>(reader: &'d R) -> (r: Result<Self, ReadError>) {
        proof {
            assert(supported(".//mb:primary-type/text()"@)) by {
                reveal_strlit(".//mb:primary-type/text()");
            }
            assert(supported(".//mb:secondary-type-list/mb:secondary-type/text()"@)) by {
                reveal_strlit(".//mb:secondary-type-list/mb:secondary-type/text()");
            }
        }
        let primary = ReleaseGroupPrimaryType::read_option(reader, ".//mb:primary-type/text()")?;
        let secondary = read_vec::<R, ReleaseGroupSecondaryType>(
            reader,
            ".//mb:secondary-type-list/mb:secondary-type/text()",
        )?;
        Ok(
            ReleaseGroupType {
                primary,
                secondary,
            },
        )
    }
}

/// Groups multiple `Release`s into one a single logical entity.
/// 
/// Even if there is only one `Release` of a kind, it belongs to exactly one
/// `ReleaseGroup`.
#[derive(Clone, Debug, PartialEq, Eq)]
pub struct ReleaseGroup {
    /// MBID of the entity in the MusicBrainz database.
    pub mbid: Mbid,
    /// Title of the release group, usually the same as the title of the
    /// releases.
    pub title: String,
    /// The artists of a release group.
    pub artists: Vec<ArtistRef>,
    /// Releases of this release group.
    pub releases: Vec<ReleaseRef>,
    /// The type of this release group.
    pub release_type: ReleaseGroupType,
    /// Additional disambiguation if there are multiple `ReleaseGroup`s with
    /// the same name.
    pub disambiguation: Option<String>,
    /// Any additional free form annotation for this `ReleaseGroup`.
    pub annotation: Option<String>,
}

/// A `ReleaseGroup` with its texts as sequences of characters.
pub struct ReleaseGroupView {
    pub mbid: Mbid,
    pub title: Seq<char>,
    pub artists: Seq<ArtistRefView>,
    pub releases: Seq<ReleaseRefView>,
    pub release_type: ReleaseGroupTypeView,
    pub disambiguation: Option<Seq<char>>,
    pub annotation: Option<Seq<char>>,
}

impl View for ReleaseGroup {
    type V = ReleaseGroupView;

    open spec fn view(&self) -> ReleaseGroupView {
        ReleaseGroupView {
            mbid: self.mbid,
            title: self.title@,
            artists: views(self.artists@),
            releases: views(self.releases@),
            release_type: self.release_type@,
            disambiguation: text_option(self.disambiguation),
            annotation: text_option(self.annotation),
        }
    }
}

/// The type of the release group that is read at `root`: it is read at the
/// first `release-group` element, which must be there.
pub open spec fn group_type(root: Node) -> Result<ReleaseGroupTypeView, ReadErrorView> {
    match first_node_at(root, ".//mb:release-group"@) {
        Ok(node) => ReleaseGroupType::decoded(node),
        Err(e) => Err(e),
    }
}

fn read_group_type<'d, R: XPathReader<'d>>(reader: &'d R) -> (r: Result<
    ReleaseGroupType,
    ReadError,
>)
    ensures
        result_view(r) == group_type(reader.root()),
{
    proof {
        assert(supported(".//mb:release-group"@)) by {
            reveal_strlit(".//mb:release-group");
        }
    }
    let group = reader.relative_reader(".//mb:release-group")?;
    ReleaseGroupType::from_xml(&group)
}

impl FromXmlContained for ReleaseGroup {

}

impl FromXml for ReleaseGroup {
    open spec fn decoded(root: Node) -> Result<ReleaseGroupView, ReadErrorView> {
        let mbid = mbid_at(root, ".//mb:release-group/@id"@);
        let title = text_at(root, ".//mb:release-group/mb:title/text()"@);
        let releases = list_at::<ReleaseRef>(
            root,
            ".//mb:release-group/mb:release-list/mb:release"@,
        );
        let artists = list_at::<ArtistRef>(
            root,
            ".//mb:release-group/mb:artist-credit/mb:name-credit/mb:artist"@,
        );
        let release_type = group_type(root);
        let disambiguation = optional_text_at(root, ".//mb:release-group/mb:disambiguation/text()"@);
        let annotation = optional_text_at(root, ".//mb:release-group/mb:annotation/text()"@);
        if mbid is Err {
            Err(mbid->Err_0)
        } else if title is Err {
            Err(title->Err_0)
        } else if releases is Err {
            Err(releases->Err_0)
        } else if artists is Err {
            Err(artists->Err_0)
        } else if release_type is Err {
            Err(release_type->Err_0)
        } else if disambiguation is Err {
            Err(disambiguation->Err_0)
        } else if annotation is Err {
            Err(annotation->Err_0)
        } else {
            Ok(
                ReleaseGroupView {
                    mbid: mbid->Ok_0,
                    title: title->Ok_0,
                    artists: artists->Ok_0,
                    releases: releases->Ok_0,
                    release_type: release_type->Ok_0,
                    disambiguation: disambiguation->Ok_0,
                    annotation: annotation->Ok_0,
                },
            )
        }
    }

    fn from_xml<'d, R: XPathReader<'d>>(reader: &'d R) -> (r: Result<Self, ReadError>) {
        proof {
            assert(supported(".//mb:release-group/@id"@)) by {
                reveal_strlit(".//mb:release-group/@id");
            }
            assert(supported(".//mb:release-group/mb:title/text()"@)) by {
                reveal_strlit(".//mb:release-group/mb:title/text()");
            }
            assert(supported(".//mb:release-group/mb:release-list/mb:release"@)) by {
                reveal_strlit(".//mb:release-group/mb:release-list/mb:release");
            }
            assert(supported(".//mb:release-group/mb:artist-credit/mb:name-credit/mb:artist"@)) by {
                reveal_strlit(".//mb:release-group/mb:artist-credit/mb:name-credit/mb:artist");
            }
            assert(supported(".//mb:release-group/mb:disambiguation/text()"@)) by {
                reveal_strlit(".//mb:release-group/mb:disambiguation/text()");
            }
            assert(supported(".//mb:release-group/mb:annotation/text()"@)) by {
                reveal_strlit(".//mb:release-group/mb:annotation/text()");
            }
        }
        let mbid = reader.read_mbid(".//mb:release-group/@id")?;
        let title = reader.read_string(".//mb:release-group/mb:title/text()")?;
        let releases = read_vec::<R, ReleaseRef>(
            reader,
            ".//mb:release-group/mb:release-list/mb:release",
        )?;
        let artists = read_vec::<R, ArtistRef>(
            reader,
            ".//mb:release-group/mb:artist-credit/mb:name-credit/mb:artist",
        )?;
        let release_type = read_group_type(reader)?;
        let disambiguation = reader.read_nstring(".//mb:release-group/mb:disambiguation/text()")?;
        let annotation = reader.read_nstring(".//mb:release-group/mb:annotation/text()")?;
        Ok(
            ReleaseGroup {
                mbid,
                title,
                artists,
                releases,
                release_type,
                disambiguation,
                annotation,
            },
        )
    }
}

impl Resource for ReleaseGroup {
    open spec fn name() -> Seq<char> {
        "release-group"@
    }

    open spec fn incs() -> Seq<char> {
        "annotation+artists+releases"@
    }

    fn get_name() -> (r: &'static str) {
        "release-group"
    }

    fn get_incs() -> (r: &'static str) {
        "annotation+artists+releases"
    }
}

} // verus!
