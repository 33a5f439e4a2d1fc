//! Search entities.
//!
//! Don't confuse these with the entities in the top level module `entities`.
//! They are only contained in search results and provide a means to retrieve
//! the full entity in a further API request.

use crate::entities::refs::{ArtistRef, ArtistRefView, ReleaseRef, ReleaseRefView};
use crate::entities::xpath_reader::{
    list_at, mbid_at, read_vec, text_at, text_option, views, FromXml, FromXmlElement, XPathReader,
};
use crate::entities::ReleaseStatus;
use crate::errors::{ReadError, ReadErrorView};
use crate::mbid::Mbid;
use sxd_xpath::nodeset::Node;
use crate::expression::supported;
use vstd::prelude::*;

verus! {

/// A release as a search result gives it.
pub struct Release {
    pub mbid: Mbid,
    pub title: String,
    pub status: ReleaseStatus,
    pub language: Option<String>,
    pub script: Option<String>,
    pub artists: Vec<ArtistRef>,
}

/// A `Release` with its texts as sequences of characters.
pub struct ReleaseView {
    pub mbid: Mbid,
    pub title: Seq<char>,
    pub status: ReleaseStatus,
    pub language: Option<Seq<char>>,
    pub script: Option<Seq<char>>,
    pub artists: Seq<ArtistRefView>,
}

impl View for Release {
    type V = ReleaseView;

    open spec fn view(&self) -> ReleaseView {
        ReleaseView {
            mbid: self.mbid,
            title: self.title@,
            status: self.status,
            language: text_option(self.language),
            script: text_option(self.script),
            artists: views(self.artists@),
        }
    }
}

/// A release group as a search result gives it.
#[derive(Clone, Debug, PartialEq, Eq)]
pub struct ReleaseGroup {
    pub mbid: Mbid,
    pub title: String,
    pub artists: Vec<ArtistRef>,
    pub releases: Vec<ReleaseRef>,
}

/// A `ReleaseGroup` with its texts as sequences of characters.
pub struct ReleaseGroupView {
    pub mbid: Mbid,
    pub title: Seq<char>,
    pub artists: Seq<ArtistRefView>,
    pub releases: Seq<ReleaseRefView>,
}

impl View for ReleaseGroup {
    type V = ReleaseGroupView;

    open spec fn view(&self) -> ReleaseGroupView {
        ReleaseGroupView {
            mbid: self.mbid,
            title: self.title@,
            artists: views(self.artists@),
            releases: views(self.releases@),
        }
    }
}

impl FromXmlElement for ReleaseGroup {

}

impl FromXml for ReleaseGroup {
    open spec fn decoded(root: Node) -> Result<ReleaseGroupView, ReadErrorView> {
        let mbid = mbid_at(root, ".//@id"@);
        let title = text_at(root, ".//mb:title"@);
        let artists = list_at::<ArtistRef>(root, ".//mb:artist-credit/mb:name-credit/mb:artist"@);
        let releases = list_at::<ReleaseRef>(root, ".//mb:release-list/mb:release"@);
        if mbid is Err {
            Err(mbid->Err_0)
        } else if title is Err {
            Err(title->Err_0)
        } else if artists is Err {
            Err(artists->Err_0)
        } else if releases is Err {
            Err(releases->Err_0)
        } else {
            Ok(
                ReleaseGroupView {
                    mbid: mbid->Ok_0,
                    title: title->Ok_0,
                    artists: artists->Ok_0,
                    releases: releases->Ok_0,
                },
            )
        }
    }

    fn from_xml<'d, R: XPathReader<'d>>(reader: &'d R) -> (r: Result<Self, ReadError>) {
        proof {
            assert(supported(".//@id"@)) by {
                reveal_strlit(".//@id");
            }
            assert(supported(".//mb:title"@)) by {
                reveal_strlit(".//mb:title");
            }
            assert(supported(".//mb:artist-credit/mb:name-credit/mb:artist"@)) by {
                reveal_strlit(".//mb:artist-credit/mb:name-credit/mb:artist");
            }
            assert(supported(".//mb:release-list/mb:release"@)) by {
                reveal_strlit(".//mb:release-list/mb:release");
            }
        }
        let mbid = reader.read_mbid(".//@id")?;
        let title = reader.read_string(".//mb:title")?;
        let artists = read_vec::<R, ArtistRef>(
            reader,
            ".//mb:artist-credit/mb:name-credit/mb:artist",
        )?;
        let releases = read_vec::<R, ReleaseRef>(reader, ".//mb:release-list/mb:release")?;
        Ok(ReleaseGroup { mbid, title, artists, releases })
    }
}

} // verus!
