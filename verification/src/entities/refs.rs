//! Reference types: they hold some basic data of an entity and its
//! identifier, by which the full entity can be fetched.

use crate::entities::release::{optional_status_at, ReleaseStatus};
use crate::entities::xpath_reader::{
    mbid_at, number_at, optional_date_at, optional_text_at, text_at, text_option, FromXml,
    FromXmlContained, FromXmlElement, XPathReader,
};
use crate::entities::{Date, Duration};
use crate::errors::{ReadError, ReadErrorView};
use crate::mbid::Mbid;
use sxd_xpath::nodeset::Node;
use crate::expression::supported;
use vstd::prelude::*;

verus! {

/// A reference to an area.
#[derive(Clone, Debug, PartialEq, Eq)]
pub struct AreaRef {
    pub mbid: Mbid,
    pub name: String,
    pub sort_name: String,
    pub iso_3166: Option<String>,
}

/// An `AreaRef` with its texts as sequences of characters.
pub struct AreaRefView {
    pub mbid: Mbid,
    pub name: Seq<char>,
    pub sort_name: Seq<char>,
    pub iso_3166: Option<Seq<char>>,
}

impl View for AreaRef {
    type V = AreaRefView;

    open spec fn view(&self) -> AreaRefView {
        AreaRefView {
            mbid: self.mbid,
            name: self.name@,
            sort_name: self.sort_name@,
            iso_3166: text_option(self.iso_3166),
        }
    }
}

impl FromXmlContained for AreaRef {

}

impl FromXml for AreaRef {
    open spec fn decoded(root: Node) -> Result<AreaRefView, ReadErrorView> {
        let mbid = mbid_at(root, ".//mb:area/@id"@);
        let name = text_at(root, ".//mb:area/mb:name/text()"@);
        let sort_name = text_at(root, ".//mb:area/mb:sort-name/text()"@);
        let iso_3166 = optional_text_at(
            root,
            ".//mb:area/mb:iso-3166-1-code-list/mb:iso-3166-1-code/text()"@,
        );
        if mbid is Err {
            Err(mbid->Err_0)
        } else if name is Err {
            Err(name->Err_0)
        } else if sort_name is Err {
            Err(sort_name->Err_0)
        } else if iso_3166 is Err {
            Err(iso_3166->Err_0)
        } else {
            Ok(
                AreaRefView {
                    mbid: mbid->Ok_0,
                    name: name->Ok_0,
                    sort_name: sort_name->Ok_0,
                    iso_3166: iso_3166->Ok_0,
                },
            )
        }
    }

    fn from_xml<'d, R: XPathReader<'d>>(reader: &'d R) -> (r: Result<Self, ReadError>) {
        proof {
            assert(supported(".//mb:area/@id"@)) by {
                reveal_strlit(".//mb:area/@id");
            }
            assert(supported(".//mb:area/mb:name/text()"@)) by {
                reveal_strlit(".//mb:area/mb:name/text()");
            }
            assert(supported(".//mb:area/mb:sort-name/text()"@)) by {
                reveal_strlit(".//mb:area/mb:sort-name/text()");
            }
            assert(supported(".//mb:area/mb:iso-3166-1-code-list/mb:iso-3166-1-code/text()"@)) by {
                reveal_strlit(".//mb:area/mb:iso-3166-1-code-list/mb:iso-3166-1-code/text()");
            }
        }
        let mbid = reader.read_mbid(".//mb:area/@id")?;
        let name = reader.read_string(".//mb:area/mb:name/text()")?;
        let sort_name = reader.read_string(".//mb:area/mb:sort-name/text()")?;
        let iso_3166 = reader.read_nstring(
            ".//mb:area/mb:iso-3166-1-code-list/mb:iso-3166-1-code/text()",
        )?;
        Ok(
            AreaRef {
                mbid,
                name,
                sort_name,
                iso_3166,
            },
        )
    }
}

/// A small variation of `Artist` which is used only to refer to an actual artist
/// entity from other entities.
#[derive(Clone, Debug, PartialEq, Eq)]
pub struct ArtistRef {
    pub mbid: Mbid,
    pub name: String,
    pub sort_name: String,
}

/// An `ArtistRef` with its texts as sequences of characters.
pub struct ArtistRefView {
    pub mbid: Mbid,
    pub name: Seq<char>,
    pub sort_name: Seq<char>,
}

impl View for ArtistRef {
    type V = ArtistRefView;

    open spec fn view(&self) -> ArtistRefView {
        ArtistRefView {
            mbid: self.mbid,
            name: self.name@,
            sort_name: self.sort_name@,
        }
    }
}

impl FromXmlElement for ArtistRef {

}

impl FromXml for ArtistRef {
    open spec fn decoded(root: Node) -> Result<ArtistRefView, ReadErrorView> {
        let mbid = mbid_at(root, ".//@id"@);
        let name = text_at(root, ".//mb:name/text()"@);
        let sort_name = text_at(root, ".//mb:sort-name/text()"@);
        if mbid is Err {
            Err(mbid->Err_0)
        } else if name is Err {
            Err(name->Err_0)
        } else if sort_name is Err {
            Err(sort_name->Err_0)
        } else {
            Ok(
                ArtistRefView {
                    mbid: mbid->Ok_0,
                    name: name->Ok_0,
                    sort_name: sort_name->Ok_0,
                },
            )
        }
    }

    fn from_xml<'d, R: XPathReader<'d>>(reader: &'d R) -> (r: Result<Self, ReadError>) {
        proof {
            assert(supported(".//@id"@)) by {
                reveal_strlit(".//@id");
            }
            assert(supported(".//mb:name/text()"@)) by {
                reveal_strlit(".//mb:name/text()");
            }
            assert(supported(".//mb:sort-name/text()"@)) by {
                reveal_strlit(".//mb:sort-name/text()");
            }
        }
        let mbid = reader.read_mbid(".//@id")?;
        let name = reader.read_string(".//mb:name/text()")?;
        let sort_name = reader.read_string(".//mb:sort-name/text()")?;
        Ok(
            ArtistRef {
                mbid,
                name,
                sort_name,
            },
        )
    }
}

/// A reference to a label.
#[derive(Clone, Debug, PartialEq, Eq)]
pub struct LabelRef {
    pub mbid: Mbid,
    pub name: String,
    pub sort_name: String,
    pub label_code: Option<String>,
}

/// A `LabelRef` with its texts as sequences of characters.
pub struct LabelRefView {
    pub mbid: Mbid,
    pub name: Seq<char>,
    pub sort_name: Seq<char>,
    pub label_code: Option<Seq<char>>,
}

impl View for LabelRef {
    type V = LabelRefView;

    open spec fn view(&self) -> LabelRefView {
        LabelRefView {
            mbid: self.mbid,
            name: self.name@,
            sort_name: self.sort_name@,
            label_code: text_option(self.label_code),
        }
    }
}

impl FromXmlElement for LabelRef {

}

impl FromXml for LabelRef {
    open spec fn decoded(root: Node) -> Result<LabelRefView, ReadErrorView> {
        let mbid = mbid_at(root, ".//@id"@);
        let name = text_at(root, ".//mb:name/text()"@);
        let sort_name = text_at(root, ".//mb:sort-name/text()"@);
        let label_code = optional_text_at(root, ".//mb:label-code/text()"@);
        if mbid is Err {
            Err(mbid->Err_0)
        } else if name is Err {
            Err(name->Err_0)
        } else if sort_name is Err {
            Err(sort_name->Err_0)
        } else if label_code is Err {
            Err(label_code->Err_0)
        } else {
            Ok(
                LabelRefView {
                    mbid: mbid->Ok_0,
                    name: name->Ok_0,
                    sort_name: sort_name->Ok_0,
                    label_code: label_code->Ok_0,
                },
            )
        }
    }

    fn from_xml<'d, R: XPathReader<'d>>(reader: &'d R) -> (r: Result<Self, ReadError>) {
        proof {
            assert(supported(".//@id"@)) by {
                reveal_strlit(".//@id");
            }
            assert(supported(".//mb:name/text()"@)) by {
                reveal_strlit(".//mb:name/text()");
            }
            assert(supported(".//mb:sort-name/text()"@)) by {
                reveal_strlit(".//mb:sort-name/text()");
            }
            assert(supported(".//mb:label-code/text()"@)) by {
                reveal_strlit(".//mb:label-code/text()");
            }
        }
        let mbid = reader.read_mbid(".//@id")?;
        let name = reader.read_string(".//mb:name/text()")?;
        let sort_name = reader.read_string(".//mb:sort-name/text()")?;
        let label_code = reader.read_nstring(".//mb:label-code/text()")?;
        Ok(
            LabelRef {
                mbid,
                name,
                sort_name,
                label_code,
            },
        )
    }
}

/// A reference to a recording.
#[derive(Clone, Debug, PartialEq, Eq)]
pub struct RecordingRef {
    pub mbid: Mbid,
    pub title: String,
    pub length: Duration,
}

/// A `RecordingRef` with its texts as sequences of characters.
pub struct RecordingRefView {
    pub mbid: Mbid,
    pub title: Seq<char>,
    pub length: Duration,
}

impl View for RecordingRef {
    type V = RecordingRefView;

    open spec fn view(&self) -> RecordingRefView {
        RecordingRefView {
            mbid: self.mbid,
            title: self.title@,
            length: self.length,
        }
    }
}

impl FromXmlElement for RecordingRef {

}

impl FromXml for RecordingRef {
    open spec fn decoded(root: Node) -> Result<RecordingRefView, ReadErrorView> {
        let mbid = mbid_at(root, ".//@id"@);
        let title = text_at(root, ".//mb:title/text()"@);
        let length = number_at(root, ".//mb:length/text()"@, u64::MAX as nat);
        if mbid is Err {
            Err(mbid->Err_0)
        } else if title is Err {
            Err(title->Err_0)
        } else if length is Err {
            Err(length->Err_0)
        } else {
            Ok(
                RecordingRefView {
                    mbid: mbid->Ok_0,
                    title: title->Ok_0,
                    length: Duration::from_millis(length->Ok_0 as u64),
                },
            )
        }
    }

    fn from_xml<'d, R: XPathReader<'d>>(reader: &'d R) -> (r: Result<Self, ReadError>) {
        proof {
            assert(supported(".//@id"@)) by {
                reveal_strlit(".//@id");
            }
            assert(supported(".//mb:title/text()"@)) by {
                reveal_strlit(".//mb:title/text()");
            }
            assert(supported(".//mb:length/text()"@)) by {
                reveal_strlit(".//mb:length/text()");
            }
        }
        let mbid = reader.read_mbid(".//@id")?;
        let title = reader.read_string(".//mb:title/text()")?;
        let length = reader.read_number(".//mb:length/text()", u64::MAX)?;
        Ok(
            RecordingRef {
                mbid,
                title,
                length: Duration::from_millis(length),
            },
        )
    }
}

/// A reference to a release.
#[derive(Clone, Debug, PartialEq, Eq)]
pub struct ReleaseRef {
    pub mbid: Mbid,
    pub title: String,
    pub date: Option<Date>,
    pub status: Option<ReleaseStatus>,
    pub country: Option<String>,
}

/// A `ReleaseRef` with its texts as sequences of characters.
pub struct ReleaseRefView {
    pub mbid: Mbid,
    pub title: Seq<char>,
    pub date: Option<Date>,
    pub status: Option<ReleaseStatus>,
    pub country: Option<Seq<char>>,
}

impl View for ReleaseRef {
    type V = ReleaseRefView;

    open spec fn view(&self) -> ReleaseRefView {
        ReleaseRefView {
            mbid: self.mbid,
            title: self.title@,
            date: self.date,
            status: self.status,
            country: text_option(self.country),
        }
    }
}

impl FromXmlElement for ReleaseRef {

}

impl FromXml for ReleaseRef {
    /// The root of the reader is the `release` element that is read.
    open spec fn decoded(root: Node) -> Result<ReleaseRefView, ReadErrorView> {
        let mbid = mbid_at(root, ".//@id"@);
        let title = text_at(root, ".//mb:title/text()"@);
        let date = optional_date_at(root, ".//mb:date/text()"@);
        let status = optional_status_at(root, ".//mb:status/text()"@);
        let country = optional_text_at(root, ".//mb:country/text()"@);
        if mbid is Err {
            Err(mbid->Err_0)
        } else if title is Err {
            Err(title->Err_0)
        } else if date is Err {
            Err(date->Err_0)
        } else if status is Err {
            Err(status->Err_0)
        } else if country is Err {
            Err(country->Err_0)
        } else {
            Ok(
                ReleaseRefView {
                    mbid: mbid->Ok_0,
                    title: title->Ok_0,
                    date: date->Ok_0,
                    status: status->Ok_0,
                    country: country->Ok_0,
                },
            )
        }
    }

    fn from_xml<'d, R: XPathReader<'d>>(reader: &'d R) -> (r: Result<Self, ReadError>) {
        proof {
            assert(supported(".//@id"@)) by {
                reveal_strlit(".//@id");
            }
            assert(supported(".//mb:title/text()"@)) by {
                reveal_strlit(".//mb:title/text()");
            }
            assert(supported(".//mb:date/text()"@)) by {
                reveal_strlit(".//mb:date/text()");
            }
            assert(supported(".//mb:status/text()"@)) by {
                reveal_strlit(".//mb:status/text()");
            }
            assert(supported(".//mb:country/text()"@)) by {
                reveal_strlit(".//mb:country/text()");
            }
        }
        let mbid = reader.read_mbid(".//@id")?;
        let title = reader.read_string(".//mb:title/text()")?;
        let date = reader.read_date_option(".//mb:date/text()")?;
        let status = ReleaseStatus::read_option(reader, ".//mb:status/text()")?;
        let country = reader.read_nstring(".//mb:country/text()")?;
        Ok(
            ReleaseRef {
                mbid,
                title,
                date,
                status,
                country,
            },
        )
    }
}

} // verus!
