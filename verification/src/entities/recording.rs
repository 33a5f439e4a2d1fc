use crate::entities::refs::{ArtistRef, ArtistRefView};
use crate::entities::xpath_reader::{
    list_at, mbid_at, number_at, optional_text_at, read_vec, text_at, text_option, views, FromXml,
    FromXmlContained, XPathReader,
};
use crate::entities::{Duration, Resource};
use crate::errors::{ReadError, ReadErrorView};
use crate::mbid::Mbid;
use sxd_xpath::nodeset::Node;
use crate::expression::supported;
use vstd::prelude::*;

verus! {

/// Represents a unique audio that has been used to produce at least one released
/// track through copying or mastering.
#[derive(Clone, Debug, PartialEq, Eq)]
pub struct Recording {
    /// MBID of the entity in the MusicBrainz database.
    pub mbid: Mbid,
    /// The title of the recording.
    pub title: String,
    /// The artists that the recording is primarily credited to.
    pub artists: Vec<ArtistRef>,
    /// Approximation of the length of the recording, calculated from the tracks
    /// using it.
    pub duration: Duration,
    /// ISRC (International Standard Recording Code) assigned to the recording.
    pub isrc_code: Option<String>,
    /// Disambiguation comment.
    pub disambiguation: Option<String>,
    /// Annotation if present.
    pub annotation: Option<String>,
}

/// A `Recording` with its texts as sequences of characters.
pub struct RecordingView {
    pub mbid: Mbid,
    pub title: Seq<char>,
    pub artists: Seq<ArtistRefView>,
    pub duration: Duration,
    pub isrc_code: Option<Seq<char>>,
    pub disambiguation: Option<Seq<char>>,
    pub annotation: Option<Seq<char>>,
}

impl View for Recording {
    type V = RecordingView;

    open spec fn view(&self) -> RecordingView {
        RecordingView {
            mbid: self.mbid,
            title: self.title@,
            artists: views(self.artists@),
            duration: self.duration,
            isrc_code: text_option(self.isrc_code),
            disambiguation: text_option(self.disambiguation),
            annotation: text_option(self.annotation),
        }
    }
}

impl FromXmlContained for Recording {

}

impl FromXml for Recording {
    open spec fn decoded(root: Node) -> Result<RecordingView, ReadErrorView> {
        let mbid = mbid_at(root, ".//mb:recording/@id"@);
        let title = text_at(root, ".//mb:recording/mb:title/text()"@);
        let artists = list_at::<ArtistRef>(
            root,
            ".//mb:recording/mb:artist-credit/mb:name-credit"@,
        );
        let duration = number_at(root, ".//mb:recording/mb:length/text()"@, u64::MAX as nat);
        let isrc_code = optional_text_at(root, ".//mb:recording/mb:isrc-list/mb:isrc/@id"@);
        let disambiguation = optional_text_at(root, ".//mb:recording/mb:disambiguation/text()"@);
        let annotation = optional_text_at(root, ".//mb:recording/mb:annotation/text()"@);
        if mbid is Err {
            Err(mbid->Err_0)
        } else if title is Err {
            Err(title->Err_0)
        } else if artists is Err {
            Err(artists->Err_0)
        } else if duration is Err {
            Err(duration->Err_0)
        } else if isrc_code is Err {
            Err(isrc_code->Err_0)
        } else if disambiguation is Err {
            Err(disambiguation->Err_0)
        } else if annotation is Err {
            Err(annotation->Err_0)
        } else {
            Ok(
                RecordingView {
                    mbid: mbid->Ok_0,
                    title: title->Ok_0,
                    artists: artists->Ok_0,
                    duration: Duration::from_millis(duration->Ok_0 as u64),
                    isrc_code: isrc_code->Ok_0,
                    disambiguation: disambiguation->Ok_0,
                    annotation: annotation->Ok_0,
                },
            )
        }
    }

    fn from_xml<'d, R: XPathReader<'d>>(reader: &'d R) -> (r: Result<Self, ReadError>) {
        proof {
            assert(supported(".//mb:recording/@id"@)) by {
                reveal_strlit(".//mb:recording/@id");
            }
            assert(supported(".//mb:recording/mb:title/text()"@)) by {
                reveal_strlit(".//mb:recording/mb:title/text()");
            }
            assert(supported(".//mb:recording/mb:artist-credit/mb:name-credit"@)) by {
                reveal_strlit(".//mb:recording/mb:artist-credit/mb:name-credit");
            }
            assert(supported(".//mb:recording/mb:length/text()"@)) by {
                reveal_strlit(".//mb:recording/mb:length/text()");
            }
            assert(supported(".//mb:recording/mb:isrc-list/mb:isrc/@id"@)) by {
                reveal_strlit(".//mb:recording/mb:isrc-list/mb:isrc/@id");
            }
            assert(supported(".//mb:recording/mb:disambiguation/text()"@)) by {
                reveal_strlit(".//mb:recording/mb:disambiguation/text()");
            }
            assert(supported(".//mb:recording/mb:annotation/text()"@)) by {
                reveal_strlit(".//mb:recording/mb:annotation/text()");
            }
        }
        let mbid = reader.read_mbid(".//mb:recording/@id")?;
        let title = reader.read_string(".//mb:recording/mb:title/text()")?;
        let artists = read_vec::<R, ArtistRef>(
            reader,
            ".//mb:recording/mb:artist-credit/mb:name-credit",
        )?;
        let duration = reader.read_number(".//mb:recording/mb:length/text()", u64::MAX)?;
        let isrc_code = reader.read_nstring(".//mb:recording/mb:isrc-list/mb:isrc/@id")?;
        let disambiguation = reader.read_nstring(".//mb:recording/mb:disambiguation/text()")?;
        let annotation = reader.read_nstring(".//mb:recording/mb:annotation/text()")?;
        Ok(
            Recording {
                mbid,
                title,
                artists,
                duration: Duration::from_millis(duration),
                isrc_code,
                disambiguation,
                annotation,
            },
        )
    }
}

impl Resource for Recording {
    open spec fn name() -> Seq<char> {
        "recording"@
    }

    open spec fn incs() -> Seq<char> {
        "artists+annotation+isrcs"@
    }

    fn get_name() -> (r: &'static str) {
        "recording"
    }

    fn get_incs() -> (r: &'static str) {
        "artists+annotation+isrcs"
    }
}

} // verus!
