use crate::entities::refs::{ArtistRef, ArtistRefView, LabelRef, LabelRefView, RecordingRef, RecordingRefView};
use crate::entities::xpath_reader::{
    first_node_at, lemma_list_fails_with_any, lemma_list_keeps_order, list_at, mbid_at,
    nodes_at, number_at, optional_date_at, optional_text_at, read_vec, text_at,
    text_option, views, FromXml, FromXmlContained, FromXmlElement, XPathReader,
};
use crate::entities::{parse_date, Date, Duration, Resource};
use crate::errors::{result_view, DataProblem, ReadError, ReadErrorView};
use crate::mbid::Mbid;
use crate::text::{chars_of, spells};
use std::str::FromStr;
use sxd_xpath::nodeset::Node;
use crate::expression::supported;
use crate::entities::xpath_reader::turned_away;
use vstd::prelude::*;

verus! {

/// One track of a medium of a release.
#[derive(Clone, Debug, PartialEq, Eq)]
pub struct ReleaseTrack {
    /// MBID of the entity in the MusicBrainz database.
    pub mbid: Mbid,
    /// The place of the track on its medium, counted from 1.
    pub position: u16,
    /// The number of the track as the release gives it.
    pub number: u16,
    /// The title of the track.
    pub title: String,
    /// The length of the track.
    pub length: Duration,
    /// The recording used for the track.
    pub recording: RecordingRef,
}

/// A `ReleaseTrack` with its texts as sequences of characters.
pub struct ReleaseTrackView {
    pub mbid: Mbid,
    pub position: u16,
    pub number: u16,
    pub title: Seq<char>,
    pub length: Duration,
    pub recording: RecordingRefView,
}

impl View for ReleaseTrack {
    type V = ReleaseTrackView;

    open spec fn view(&self) -> ReleaseTrackView {
        ReleaseTrackView {
            mbid: self.mbid,
            position: self.position,
            number: self.number,
            title: self.title@,
            length: self.length,
            recording: self.recording@,
        }
    }
}

/// What reading the recording of a track at the node `root` gives: the track
/// must hold a `recording` element, and the first one is read.
pub open spec fn track_recording(root: Node) -> Result<RecordingRefView, ReadErrorView> {
    match first_node_at(root, ".//mb:recording"@) {
        Ok(node) => RecordingRef::decoded(node),
        Err(e) => Err(e),
    }
}

impl FromXmlElement for ReleaseTrack {

}

impl FromXml for ReleaseTrack {
    open spec fn decoded(root: Node) -> Result<ReleaseTrackView, ReadErrorView> {
        let mbid = mbid_at(root, ".//@id"@);
        let position = number_at(root, ".//mb:position/text()"@, u16::MAX as nat);
        let number = number_at(root, ".//mb:number/text()"@, u16::MAX as nat);
        let title = text_at(root, ".//mb:title/text()"@);
        let length = number_at(root, ".//mb:length/text()"@, u64::MAX as nat);
        let recording = track_recording(root);
        if mbid is Err {
            Err(mbid->Err_0)
        } else if position is Err {
            Err(position->Err_0)
        } else if number is Err {
            Err(number->Err_0)
        } else if title is Err {
            Err(title->Err_0)
        } else if length is Err {
            Err(length->Err_0)
        } else if recording is Err {
            Err(recording->Err_0)
        } else {
            Ok(
                ReleaseTrackView {
                    mbid: mbid->Ok_0,
                    position: position->Ok_0 as u16,
                    number: number->Ok_0 as u16,
                    title: title->Ok_0,
                    length: Duration::from_millis(length->Ok_0 as u64),
                    recording: recording->Ok_0,
                },
            )
        }
    }

    fn from_xml<'d, R: XPathReader<'d>>(reader: &'d R) -> (r: Result<Self, ReadError>) {
        proof {
            assert(supported(".//@id"@)) by {
                reveal_strlit(".//@id");
            }
            assert(supported(".//mb:position/text()"@)) by {
                reveal_strlit(".//mb:position/text()");
            }
            assert(supported(".//mb:number/text()"@)) by {
                reveal_strlit(".//mb:number/text()");
            }
            assert(supported(".//mb:title/text()"@)) by {
                reveal_strlit(".//mb:title/text()");
            }
            assert(supported(".//mb:length/text()"@)) by {
                reveal_strlit(".//mb:length/text()");
            }
        }
        let mbid = reader.read_mbid(".//@id")?;
        let position = reader.read_number(".//mb:position/text()", u16::MAX as u64)?;
        let number = reader.read_number(".//mb:number/text()", u16::MAX as u64)?;
        let title = reader.read_string(".//mb:title/text()")?;
        let length = reader.read_number(".//mb:length/text()", u64::MAX)?;
        let recording = read_track_recording(reader)?;
        Ok(
            ReleaseTrack {
                mbid,
                position: position as u16,
                number: number as u16,
                title,
                length: Duration::from_millis(length),
                recording,
            },
        )
    }
}

fn read_track_recording<'d, R: XPathReader<'d>>(reader: &'d R) -> (r: Result<
    RecordingRef,
    ReadError,
>)
    ensures
        result_view(r) == track_recording(reader.root()),
{
    proof {
        assert(supported(".//mb:recording"@)) by {
            reveal_strlit(".//mb:recording");
        }
    }
    let recording = reader.relative_reader(".//mb:recording")?;
    RecordingRef::from_xml(&recording)
}

/// A medium is a collection of multiple `ReleaseTrack`. For physical releases one
/// medium might equal one CD, so an album released as a release with two CDs
/// would have two associated `ReleaseMedium` instances.
#[derive(Clone, Debug, PartialEq, Eq)]
pub struct ReleaseMedium {
    /// The medium's position number providing a total order between all mediums
    /// of one `Release`.
    pub position: u16,
    /// The tracks stored on this medium.
    pub tracks: Vec<ReleaseTrack>,
}

/// A `ReleaseMedium` with its texts as sequences of characters.
pub struct ReleaseMediumView {
    pub position: u16,
    pub tracks: Seq<ReleaseTrackView>,
}

impl View for ReleaseMedium {
    type V = ReleaseMediumView;

    open spec fn view(&self) -> ReleaseMediumView {
        ReleaseMediumView {
            position: self.position,
            tracks: views(self.tracks@),
        }
    }
}

impl FromXmlElement for ReleaseMedium {

}

impl FromXml for ReleaseMedium {
    open spec fn decoded(root: Node) -> Result<ReleaseMediumView, ReadErrorView> {
        let tracks = list_at::<ReleaseTrack>(root, ".//mb:track-list/mb:track"@);
        let position = number_at(root, ".//mb:position/text()"@, u16::MAX as nat);
        if tracks is Err {
            Err(tracks->Err_0)
        } else if position is Err {
            Err(position->Err_0)
        } else {
            Ok(
                ReleaseMediumView {
                    position: position->Ok_0 as u16,
                    tracks: tracks->Ok_0,
                },
            )
        }
    }

    fn from_xml<'d, R: XPathReader<'d>>(reader: &'d R) -> (r: Result<Self, ReadError>) {
        proof {
            assert(supported(".//mb:track-list/mb:track"@)) by {
                reveal_strlit(".//mb:track-list/mb:track");
            }
            assert(supported(".//mb:position/text()"@)) by {
                reveal_strlit(".//mb:position/text()");
            }
        }
        let tracks = read_vec::<R, ReleaseTrack>(reader, ".//mb:track-list/mb:track")?;
        let position = reader.read_number(".//mb:position/text()", u16::MAX as u64)?;
        Ok(
            ReleaseMedium {
                position: position as u16,
                tracks,
            },
        )
    }
}

/// How official a release is.
#[derive(Clone, Copy, Debug, PartialEq, Eq, Structural)]
pub enum ReleaseStatus {
    /// Release officially sanctioned by the artist and/or their record company.
    Official,
    /// A give-away release or a release intended to promote an upcoming official
    /// release.
    Promotional,
    /// Unofficial/underground release that was not sanctioned by the artist and/or
    /// the record company. Includes unofficial live recordings and pirated releases.
    Bootleg,
    /// An alternate version of a release where the titles have been changed.
    /// These don't correspond to any real release and should be linked to the
    /// original release using the transliteration relationship.
    PseudoRelease,
}

impl View for ReleaseStatus {
    type V = ReleaseStatus;

    open spec fn view(&self) -> ReleaseStatus {
        *self
    }
}

impl ReleaseStatus {
    /// The text that the web service writes for this value.
    pub open spec fn literal(self) -> Seq<char> {
        match self {
            ReleaseStatus::Official => "Official"@,
            ReleaseStatus::Promotional => "Promotional"@,
            ReleaseStatus::Bootleg => "Bootleg"@,
            ReleaseStatus::PseudoRelease => "PseudoRelease"@,
        }
    }

    /// The text that the web service writes for this value.
    pub fn as_str(&self) -> (r: &'static str)
        ensures
            r@ == self.literal(),
    {
        match self {
            ReleaseStatus::Official => "Official",
            ReleaseStatus::Promotional => "Promotional",
            ReleaseStatus::Bootleg => "Bootleg",
            ReleaseStatus::PseudoRelease => "PseudoRelease",
        }
    }

    /// The value that `text` stands for, if it stands for one.
    pub open spec fn from_literal(text: Seq<char>) -> Option<ReleaseStatus> {
        if text == "Official"@ {
            Some(ReleaseStatus::Official)
        } else if text == "Promotional"@ {
            Some(ReleaseStatus::Promotional)
        } else if text == "Bootleg"@ {
            Some(ReleaseStatus::Bootleg)
        } else if text == "PseudoRelease"@ {
            Some(ReleaseStatus::PseudoRelease)
        } else {
            None
        }
    }

    /// The value that `text` stands for; any other text is invalid data.
    pub open spec fn parsed(text: Seq<char>) -> Result<ReleaseStatus, ReadErrorView> {
        match ReleaseStatus::from_literal(text) {
            Some(value) => Ok(value),
            None => Err(ReadErrorView::InvalidData { problem: DataProblem::ReleaseStatus, text }),
        }
    }

    /// Reads the value that `s` stands for.
    pub fn from_str(s: &str) -> (r: Result<ReleaseStatus, ReadError>)
        ensures
            result_view(r) == ReleaseStatus::parsed(s@),
    {
        let chars = chars_of(s);
        if spells(&chars, "Official") {
            Ok(ReleaseStatus::Official)
        } else if spells(&chars, "Promotional") {
            Ok(ReleaseStatus::Promotional)
        } else if spells(&chars, "Bootleg") {
            Ok(ReleaseStatus::Bootleg)
        } else if spells(&chars, "PseudoRelease") {
            Ok(ReleaseStatus::PseudoRelease)
        } else {
            Err(ReadError::invalid(DataProblem::ReleaseStatus, s))
        }
    }

    /// The value that `expr` gives at `root`.
    pub open spec fn at(root: Node, expr: Seq<char>) -> Result<ReleaseStatus, ReadErrorView> {
        match text_at(root, expr) {
            Ok(text) => ReleaseStatus::parsed(text),
            Err(e) => Err(e),
        }
    }

    /// Evaluates an XPath expression and reads the value that its text stands
    /// for.
    pub fn read<'d, R: XPathReader<'d>>(reader: &'d R, xpath_expr: &str) -> (r: Result<
        ReleaseStatus,
        ReadError,
    >)
        ensures
            supported(xpath_expr@) ==> result_view(r) == ReleaseStatus::at(reader.root(), xpath_expr@),
            turned_away(xpath_expr@, r),
    {
        let text = reader.read_string(xpath_expr)?;
        ReleaseStatus::from_str(text.as_str())
    }

    /// Every value is read back from the text that stands for it.
    pub proof fn lemma_literal_round_trip(value: ReleaseStatus)
        ensures
            ReleaseStatus::from_literal(value.literal()) == Some(value),
            ReleaseStatus::parsed(value.literal()) == Ok::<ReleaseStatus, ReadErrorView>(value),
    {
        reveal_strlit("Official");
        reveal_strlit("Promotional");
        reveal_strlit("Bootleg");
        reveal_strlit("PseudoRelease");
        assert("Official"@.len() == 8);
        assert("Promotional"@.len() == 11);
        assert("Bootleg"@.len() == 7);
        assert("PseudoRelease"@.len() == 13);
    }

    /// A text that stands for no value is refused as invalid data, with the
    /// text in the failure.
    pub proof fn lemma_unknown_literal(text: Seq<char>)
        requires
            forall|value: ReleaseStatus| text != value.literal(),
        ensures
            ReleaseStatus::parsed(text) == Err::<ReleaseStatus, ReadErrorView>(
                ReadErrorView::InvalidData { problem: DataProblem::ReleaseStatus, text },
            ),
    {
        assert(text != ReleaseStatus::Official.literal());
        assert(text != ReleaseStatus::Promotional.literal());
        assert(text != ReleaseStatus::Bootleg.literal());
        assert(text != ReleaseStatus::PseudoRelease.literal());
    }
}

impl FromStr for ReleaseStatus {
    type Err = ReadError;

    /// Reads the value that `s` stands for, as `ReleaseStatus::from_str` does.
    fn from_str(s: &str) -> (r: Result<Self, Self::Err>)
        ensures
            result_view(r) == ReleaseStatus::parsed(s@),
    {
        ReleaseStatus::from_str(s)
    }
}

impl FromXmlElement for ReleaseStatus {

}

impl FromXml for ReleaseStatus {
    open spec fn decoded(root: Node) -> Result<ReleaseStatus, ReadErrorView> {
        ReleaseStatus::at(root, "."@)
    }

    fn from_xml<'d, R: XPathReader<'d>>(reader: &'d R) -> (r: Result<Self, ReadError>) {
        proof {
            assert(supported("."@)) by {
                reveal_strlit(".");
            }
        }
        ReleaseStatus::read(reader, ".")
    }
}

/// The status that `text` stands for, in a field that may be absent: none for
/// the empty text.
pub open spec fn optional_status(text: Seq<char>) -> Result<Option<ReleaseStatus>, ReadErrorView> {
    if text.len() == 0 {
        Ok(None)
    } else {
        match ReleaseStatus::parsed(text) {
            Ok(status) => Ok(Some(status)),
            Err(e) => Err(e),
        }
    }
}

/// The status that `expr` gives at `root`, if it gives any text.
pub open spec fn optional_status_at(root: Node, expr: Seq<char>) -> Result<
    Option<ReleaseStatus>,
    ReadErrorView,
> {
    match text_at(root, expr) {
        Ok(text) => optional_status(text),
        Err(e) => Err(e),
    }
}

impl ReleaseStatus {
    /// Evaluates an XPath expression and reads the status that its text stands
    /// for; the empty text stands for no status.
    pub fn read_option<'d, R: XPathReader<'d>>(reader: &'d R, xpath_expr: &str) -> (r: Result<
        Option<ReleaseStatus>,
        ReadError,
    >)
        ensures
            supported(xpath_expr@) ==> result_view(r) == optional_status_at(reader.root(), xpath_expr@),
            turned_away(xpath_expr@, r),
    {
        let text = reader.read_string(xpath_expr)?;
        if text.as_str().unicode_len() == 0 {
            Ok(None)
        } else {
            Ok(Some(ReleaseStatus::from_str(text.as_str())?))
        }
    }
}

/// A release: one issue of a product, with its own track list, on one or
/// several mediums.
#[derive(Clone, Debug, PartialEq, Eq)]
pub struct Release {
    /// MBID of the entity in the MusicBrainz database.
    pub mbid: Mbid,
    /// The title of the release.
    pub title: String,
    /// The artists that the release is primarily credited to.
    pub artists: Vec<ArtistRef>,
    /// The date the release was issued, if the document gives one. A text
    /// that is no date stands for an unknown date.
    pub date: Option<Date>,
    /// The country the release was issued in.
    pub country: String,
    /// The label which issued this release.
    pub labels: Vec<LabelRef>,
    /// Number assigned to the release by the label.
    pub catalogue_number: Option<String>,
    /// Barcode of the release, if it has one.
    pub barcode: Option<String>,
    /// Official status of the release.
    pub status: ReleaseStatus,
    /// Packaging of the release.
    pub packaging: Option<String>,
    /// Language of the release. ISO 639-3 conformant string.
    pub language: String,
    /// Script used to write the track list. ISO 15924 conformant string.
    pub script: String,
    /// A disambiguation comment if present, which allows to differentiate this
    /// release easily from other releases with the same or very similar name.
    pub disambiguation: Option<String>,
    /// The mediums (disks) of the release.
    pub mediums: Vec<ReleaseMedium>,
}

/// A `Release` with its texts as sequences of characters.
pub struct ReleaseView {
    pub mbid: Mbid,
    pub title: Seq<char>,
    pub artists: Seq<ArtistRefView>,
    pub date: Option<Date>,
    pub country: Seq<char>,
    pub labels: Seq<LabelRefView>,
    pub catalogue_number: Option<Seq<char>>,
    pub barcode: Option<Seq<char>>,
    pub status: ReleaseStatus,
    pub packaging: Option<Seq<char>>,
    pub language: Seq<char>,
    pub script: Seq<char>,
    pub disambiguation: Option<Seq<char>>,
    pub mediums: Seq<ReleaseMediumView>,
}

impl View for Release {
    type V = ReleaseView;

    open spec fn view(&self) -> ReleaseView {
        ReleaseView {
            mbid: self.mbid,
            title: self.title@,
            artists: views(self.artists@),
            date: self.date,
            country: self.country@,
            labels: views(self.labels@),
            catalogue_number: text_option(self.catalogue_number),
            barcode: text_option(self.barcode),
            status: self.status,
            packaging: text_option(self.packaging),
            language: self.language@,
            script: self.script@,
            disambiguation: text_option(self.disambiguation),
            mediums: views(self.mediums@),
        }
    }
}

/// The paths to the lists of a release are plain paths.
proof fn lemma_release_lists_are_plain()
    ensures
        supported(".//mb:release/mb:artist-credit/mb:name-credit"@),
        supported(".//mb:release/mb:label-info-list/mb:label-info"@),
        supported(".//mb:release/mb:medium-list/mb:medium"@),
{
    assert(supported(".//mb:release/mb:artist-credit/mb:name-credit"@)) by {
        reveal_strlit(".//mb:release/mb:artist-credit/mb:name-credit");
    }
    assert(supported(".//mb:release/mb:label-info-list/mb:label-info"@)) by {
        reveal_strlit(".//mb:release/mb:label-info-list/mb:label-info");
    }
    assert(supported(".//mb:release/mb:medium-list/mb:medium"@)) by {
        reveal_strlit(".//mb:release/mb:medium-list/mb:medium");
    }
}

/// The paths to the fields of a release are plain paths.
proof fn lemma_release_fields_are_plain()
    ensures
        supported(".//mb:release/@id"@),
        supported(".//mb:release/mb:title/text()"@),
        supported(".//mb:release/mb:date/text()"@),
        supported(".//mb:release/mb:country/text()"@),
        supported(".//mb:release/mb:label-info-list/mb:label-info/mb:catalog-number/text()"@),
        supported(".//mb:release/mb:barcode/text()"@),
        supported(".//mb:release/mb:status/text()"@),
        supported(".//mb:release/mb:packaging/text()"@),
        supported(".//mb:release/mb:text-representation/mb:language/text()"@),
        supported(".//mb:release/mb:text-representation/mb:script/text()"@),
        supported(".//mb:release/mb:disambiguation/text()"@),
{
    assert(supported(".//mb:release/@id"@)) by {
        reveal_strlit(".//mb:release/@id");
    }
    assert(supported(".//mb:release/mb:title/text()"@)) by {
        reveal_strlit(".//mb:release/mb:title/text()");
    }
    assert(supported(".//mb:release/mb:date/text()"@)) by {
        reveal_strlit(".//mb:release/mb:date/text()");
    }
    assert(supported(".//mb:release/mb:country/text()"@)) by {
        reveal_strlit(".//mb:release/mb:country/text()");
    }
    assert(supported(".//mb:release/mb:label-info-list/mb:label-info/mb:catalog-number/text()"@)) by {
        reveal_strlit(".//mb:release/mb:label-info-list/mb:label-info/mb:catalog-number/text()");
    }
    assert(supported(".//mb:release/mb:barcode/text()"@)) by {
        reveal_strlit(".//mb:release/mb:barcode/text()");
    }
    assert(supported(".//mb:release/mb:status/text()"@)) by {
        reveal_strlit(".//mb:release/mb:status/text()");
    }
    assert(supported(".//mb:release/mb:packaging/text()"@)) by {
        reveal_strlit(".//mb:release/mb:packaging/text()");
    }
    assert(supported(".//mb:release/mb:text-representation/mb:language/text()"@)) by {
        reveal_strlit(".//mb:release/mb:text-representation/mb:language/text()");
    }
    assert(supported(".//mb:release/mb:text-representation/mb:script/text()"@)) by {
        reveal_strlit(".//mb:release/mb:text-representation/mb:script/text()");
    }
    assert(supported(".//mb:release/mb:disambiguation/text()"@)) by {
        reveal_strlit(".//mb:release/mb:disambiguation/text()");
    }
}

impl FromXmlContained for Release {

}

impl FromXml for Release {
    /// The lists are read first, then the fields in the order of the record.
    open spec fn decoded(root: Node) -> Result<ReleaseView, ReadErrorView> {
        let artists = list_at::<ArtistRef>(
            root,
            ".//mb:release/mb:artist-credit/mb:name-credit"@,
        );
        let labels = list_at::<LabelRef>(
            root,
            ".//mb:release/mb:label-info-list/mb:label-info"@,
        );
        let mediums = list_at::<ReleaseMedium>(
            root,
            ".//mb:release/mb:medium-list/mb:medium"@,
        );
        let mbid = mbid_at(root, ".//mb:release/@id"@);
        let title = text_at(root, ".//mb:release/mb:title/text()"@);
        let date = optional_date_at(root, ".//mb:release/mb:date/text()"@);
        let country = text_at(root, ".//mb:release/mb:country/text()"@);
        let catalogue_number = optional_text_at(
            root,
            ".//mb:release/mb:label-info-list/mb:label-info/mb:catalog-number/text()"@,
        );
        let barcode = optional_text_at(root, ".//mb:release/mb:barcode/text()"@);
        let status = ReleaseStatus::at(root, ".//mb:release/mb:status/text()"@);
        let packaging = optional_text_at(root, ".//mb:release/mb:packaging/text()"@);
        let language = text_at(
            root,
            ".//mb:release/mb:text-representation/mb:language/text()"@,
        );
        let script = text_at(
            root,
            ".//mb:release/mb:text-representation/mb:script/text()"@,
        );
        let disambiguation = optional_text_at(root, ".//mb:release/mb:disambiguation/text()"@);
        if artists is Err {
            Err(artists->Err_0)
        } else if labels is Err {
            Err(labels->Err_0)
        } else if mediums is Err {
            Err(mediums->Err_0)
        } else if mbid is Err {
            Err(mbid->Err_0)
        } else if title is Err {
            Err(title->Err_0)
        } else if date is Err {
            Err(date->Err_0)
        } else if country is Err {
            Err(country->Err_0)
        } else if catalogue_number is Err {
            Err(catalogue_number->Err_0)
        } else if barcode is Err {
            Err(barcode->Err_0)
        } else if status is Err {
            Err(status->Err_0)
        } else if packaging is Err {
            Err(packaging->Err_0)
        } else if language is Err {
            Err(language->Err_0)
        } else if script is Err {
            Err(script->Err_0)
        } else if disambiguation is Err {
            Err(disambiguation->Err_0)
        } else {
            Ok(
                ReleaseView {
                    mbid: mbid->Ok_0,
                    title: title->Ok_0,
                    artists: artists->Ok_0,
                    date: date->Ok_0,
                    country: country->Ok_0,
                    labels: labels->Ok_0,
                    catalogue_number: catalogue_number->Ok_0,
                    barcode: barcode->Ok_0,
                    status: status->Ok_0,
                    packaging: packaging->Ok_0,
                    language: language->Ok_0,
                    script: script->Ok_0,
                    disambiguation: disambiguation->Ok_0,
                    mediums: mediums->Ok_0,
                },
            )
        }
    }

    fn from_xml<'d, R: XPathReader<'d>>(reader: &'d R) -> (r: Result<Self, ReadError>) {
        proof {
            lemma_release_lists_are_plain();
            lemma_release_fields_are_plain();
        }
        let artists = read_vec::<R, ArtistRef>(
            reader,
            ".//mb:release/mb:artist-credit/mb:name-credit",
        )?;
        let labels = read_vec::<R, LabelRef>(
            reader,
            ".//mb:release/mb:label-info-list/mb:label-info",
        )?;
        let mediums = read_vec::<R, ReleaseMedium>(
            reader,
            ".//mb:release/mb:medium-list/mb:medium",
        )?;
        let mbid = reader.read_mbid(".//mb:release/@id")?;
        let title = reader.read_string(".//mb:release/mb:title/text()")?;
        let date = reader.read_date_option(".//mb:release/mb:date/text()")?;
        let country = reader.read_string(".//mb:release/mb:country/text()")?;
        let catalogue_number = reader.read_nstring(
            ".//mb:release/mb:label-info-list/mb:label-info/mb:catalog-number/text()",
        )?;
        let barcode = reader.read_nstring(".//mb:release/mb:barcode/text()")?;
        let status = ReleaseStatus::read(reader, ".//mb:release/mb:status/text()")?;
        let packaging = reader.read_nstring(".//mb:release/mb:packaging/text()")?;
        let language = reader.read_string(
            ".//mb:release/mb:text-representation/mb:language/text()",
        )?;
        let script = reader.read_string(
            ".//mb:release/mb:text-representation/mb:script/text()",
        )?;
        let disambiguation = reader.read_nstring(".//mb:release/mb:disambiguation/text()")?;
        Ok(
            Release {
                mbid,
                title,
                artists,
                date,
                country,
                labels,
                catalogue_number,
                barcode,
                status,
                packaging,
                language,
                script,
                disambiguation,
                mediums,
            },
        )
    }
}

impl Resource for Release {
    open spec fn name() -> Seq<char> {
        "release"@
    }

    open spec fn incs() -> Seq<char> {
        "aliases+artists+labels+recordings"@
    }

    fn get_name() -> (r: &'static str) {
        "release"
    }

    fn get_incs() -> (r: &'static str) {
        "aliases+artists+labels+recordings"
    }
}

/// The date of a release is read leniently: a text that is no date, the empty
/// one too, gives a release without a date and is no failure of the release.
pub proof fn lemma_release_date_is_lenient(root: Node)
    ensures
        text_at(root, ".//mb:release/mb:date/text()"@) matches Ok(text) ==> optional_date_at(
            root,
            ".//mb:release/mb:date/text()"@,
        ) == Ok::<Option<Date>, ReadErrorView>(
            match parse_date(text) {
                Ok(date) => Some(date),
                Err(_) => None,
            },
        ),
        Release::decoded(root) matches Ok(release) ==> (text_at(
            root,
            ".//mb:release/mb:date/text()"@,
        ) matches Ok(text) && (release.date is None <==> parse_date(text) is Err)),
{
}

/// A track without a recording is no track: where its node holds no
/// `recording` element, reading the track fails.
pub proof fn lemma_track_needs_recording(root: Node)
    requires
        first_node_at(root, ".//mb:recording"@) is Err,
    ensures
        ReleaseTrack::decoded(root) is Err,
{
}

/// A release is read whole or not at all: where reading fails at one track of
/// one of its mediums, reading the release fails, and no track is left out.
pub proof fn lemma_release_fails_with_track(release: Node, medium: int, track: int)
    requires
        nodes_at(release, ".//mb:release/mb:medium-list/mb:medium"@) matches Ok(mediums) && 0
            <= medium < mediums.len() && (nodes_at(
            mediums[medium],
            ".//mb:track-list/mb:track"@,
        ) matches Ok(tracks) && 0 <= track < tracks.len() && ReleaseTrack::decoded(tracks[track])
            is Err),
    ensures
        Release::decoded(release) is Err,
{
    let mediums = nodes_at(release, ".//mb:release/mb:medium-list/mb:medium"@)->Ok_0;
    let tracks = nodes_at(mediums[medium], ".//mb:track-list/mb:track"@)->Ok_0;
    lemma_list_fails_with_any::<ReleaseTrack>(tracks, track);
    assert(ReleaseMedium::decoded(mediums[medium]) is Err);
    lemma_list_fails_with_any::<ReleaseMedium>(mediums, medium);
}

/// The tracks of a medium that was read stand in the order of their elements
/// in the document.
pub proof fn lemma_tracks_keep_order(medium: Node)
    ensures
        ReleaseMedium::decoded(medium) matches Ok(read) ==> (nodes_at(
            medium,
            ".//mb:track-list/mb:track"@,
        ) matches Ok(tracks) && read.tracks.len() == tracks.len() && forall|i: int|
            0 <= i < tracks.len() ==> #[trigger] ReleaseTrack::decoded(tracks[i]) == Ok::<
                ReleaseTrackView,
                ReadErrorView,
            >(read.tracks[i])),
{
    if ReleaseMedium::decoded(medium) is Ok {
        let tracks = nodes_at(medium, ".//mb:track-list/mb:track"@)->Ok_0;
        lemma_list_keeps_order::<ReleaseTrack>(tracks);
    }
}

} // verus!
