use crate::entities::xpath_reader::{
    list_at, mbid_at, optional_date_at, optional_text_at, read_vec, text_at, text_option, views,
    FromXml, FromXmlContained, XPathReader,
};
use crate::entities::{Date, LabelType, Resource};
use crate::errors::{ReadError, ReadErrorView};
use crate::mbid::Mbid;
use sxd_xpath::nodeset::Node;
use crate::expression::supported;
use vstd::prelude::*;

verus! {

/// A label entity in the MusicBrainz database.
/// There is quite some controversy in the music industry what a 'label'
/// constitutes.
/// 
/// For a complete disambiguation see the `LabelType` enum. The labels in
/// MusicBrainz are mostly imprints.
#[derive(Clone, Debug, PartialEq, Eq)]
pub struct Label {
    /// MBID of the entity in the MusicBrainz database.
    pub mbid: Mbid,
    /// The official name of the label.
    pub name: String,
    /// Version of the `name` converted to latin characters for sorting.
    pub sort_name: String,
    /// If there are multiple labels with the same name in the database, a short
    /// disambiguation comment is provided which allows to differentiate the
    /// entities.
    pub disambiguation: Option<String>,
    /// Variants of the name mainly used as search help.
    /// These can be variants, spellings of names, missing titles and common
    /// misspellings.
    pub aliases: Vec<String>,
    /// LC code of the label, as issued by the IFPI.
    pub label_code: Option<String>,
    /// Describes the main activity of the label.
    pub label_type: LabelType,
    /// ISO 3166 country of origin for the label.
    pub country: Option<String>,
    /// Identifying number of the label as assigned by the CISAC database. It is
    /// not read from the documents and always `None`.
    pub ipi_code: Option<String>,
    /// ISNI code of the label. It is not read from the documents and always
    /// `None`.
    pub isni_code: Option<String>,
    /// The date when this label was founded.
    pub begin_date: Option<Date>,
    /// The date when this label ceased to exist or its last release ever was
    /// released.
    pub end_date: Option<Date>,
}

/// A `Label` with its texts as sequences of characters.
pub struct LabelView {
    pub mbid: Mbid,
    pub name: Seq<char>,
    pub sort_name: Seq<char>,
    pub disambiguation: Option<Seq<char>>,
    pub aliases: Seq<Seq<char>>,
    pub label_code: Option<Seq<char>>,
    pub label_type: LabelType,
    pub country: Option<Seq<char>>,
    pub ipi_code: Option<Seq<char>>,
    pub isni_code: Option<Seq<char>>,
    pub begin_date: Option<Date>,
    pub end_date: Option<Date>,
}

impl View for Label {
    type V = LabelView;

    open spec fn view(&self) -> LabelView {
        LabelView {
            mbid: self.mbid,
            name: self.name@,
            sort_name: self.sort_name@,
            disambiguation: text_option(self.disambiguation),
            aliases: views(self.aliases@),
            label_code: text_option(self.label_code),
            label_type: self.label_type,
            country: text_option(self.country),
            ipi_code: text_option(self.ipi_code),
            isni_code: text_option(self.isni_code),
            begin_date: self.begin_date,
            end_date: self.end_date,
        }
    }
}

impl FromXmlContained for Label {

}

impl FromXml for Label {
    /// The aliases are read first, then the fields in the order of the record.
    open spec fn decoded(root: Node) -> Result<LabelView, ReadErrorView> {
        let aliases = list_at::<String>(root, ".//mb:label/mb:alias-list/mb:alias/text()"@);
        let mbid = mbid_at(root, ".//mb:label/@id"@);
        let name = text_at(root, ".//mb:label/mb:name/text()"@);
        let sort_name = text_at(root, ".//mb:label/mb:sort-name/text()"@);
        let disambiguation = optional_text_at(root, ".//mb:label/mb:disambiguation/text()"@);
        let label_code = optional_text_at(root, ".//mb:label/mb:label-code/text()"@);
        let label_type = LabelType::at(root, ".//mb:label/@type"@);
        let country = optional_text_at(root, ".//mb:label/mb:country/text()"@);
        let begin_date = optional_date_at(root, ".//mb:label/mb:life-span/mb:begin/text()"@);
        let end_date = optional_date_at(root, ".//mb:label/mb:life-span/mb:end/text()"@);
        if aliases is Err {
            Err(aliases->Err_0)
        } else if mbid is Err {
            Err(mbid->Err_0)
        } else if name is Err {
            Err(name->Err_0)
        } else if sort_name is Err {
            Err(sort_name->Err_0)
        } else if disambiguation is Err {
            Err(disambiguation->Err_0)
        } else if label_code is Err {
            Err(label_code->Err_0)
        } else if label_type is Err {
            Err(label_type->Err_0)
        } else if country is Err {
            Err(country->Err_0)
        } else if begin_date is Err {
            Err(begin_date->Err_0)
        } else if end_date is Err {
            Err(end_date->Err_0)
        } else {
            Ok(
                LabelView {
                    mbid: mbid->Ok_0,
                    name: name->Ok_0,
                    sort_name: sort_name->Ok_0,
                    disambiguation: disambiguation->Ok_0,
                    aliases: aliases->Ok_0,
                    label_code: label_code->Ok_0,
                    label_type: label_type->Ok_0,
                    country: country->Ok_0,
                    ipi_code: None,
                    isni_code: None,
                    begin_date: begin_date->Ok_0,
                    end_date: end_date->Ok_0,
                },
            )
        }
    }

    fn from_xml<'d, R: XPathReader<'d>>(reader: &'d R) -> (r: Result<Self, ReadError>) {
        proof {
            assert(supported(".//mb:label/mb:alias-list/mb:alias/text()"@)) by {
                reveal_strlit(".//mb:label/mb:alias-list/mb:alias/text()");
            }
            assert(supported(".//mb:label/@id"@)) by {
                reveal_strlit(".//mb:label/@id");
            }
            assert(supported(".//mb:label/mb:name/text()"@)) by {
                reveal_strlit(".//mb:label/mb:name/text()");
            }
            assert(supported(".//mb:label/mb:sort-name/text()"@)) by {
                reveal_strlit(".//mb:label/mb:sort-name/text()");
            }
            assert(supported(".//mb:label/mb:disambiguation/text()"@)) by {
                reveal_strlit(".//mb:label/mb:disambiguation/text()");
            }
            assert(supported(".//mb:label/mb:label-code/text()"@)) by {
                reveal_strlit(".//mb:label/mb:label-code/text()");
            }
            assert(supported(".//mb:label/@type"@)) by {
                reveal_strlit(".//mb:label/@type");
            }
            assert(supported(".//mb:label/mb:country/text()"@)) by {
                reveal_strlit(".//mb:label/mb:country/text()");
            }
            assert(supported(".//mb:label/mb:life-span/mb:begin/text()"@)) by {
                reveal_strlit(".//mb:label/mb:life-span/mb:begin/text()");
            }
            assert(supported(".//mb:label/mb:life-span/mb:end/text()"@)) by {
                reveal_strlit(".//mb:label/mb:life-span/mb:end/text()");
            }
        }
        let aliases = read_vec::<R, String>(reader, ".//mb:label/mb:alias-list/mb:alias/text()")?;
        let mbid = reader.read_mbid(".//mb:label/@id")?;
        let name = reader.read_string(".//mb:label/mb:name/text()")?;
        let sort_name = reader.read_string(".//mb:label/mb:sort-name/text()")?;
        let disambiguation = reader.read_nstring(".//mb:label/mb:disambiguation/text()")?;
        let label_code = reader.read_nstring(".//mb:label/mb:label-code/text()")?;
        let label_type = LabelType::read(reader, ".//mb:label/@type")?;
        let country = reader.read_nstring(".//mb:label/mb:country/text()")?;
        let begin_date = reader.read_date_option(".//mb:label/mb:life-span/mb:begin/text()")?;
        let end_date = reader.read_date_option(".//mb:label/mb:life-span/mb:end/text()")?;
        Ok(
            Label {
                mbid,
                name,
                sort_name,
                disambiguation,
                aliases,
                label_code,
                label_type,
                country,
                ipi_code: None,
                isni_code: None,
                begin_date,
                end_date,
            },
        )
    }
}

impl Resource for Label {
    open spec fn name() -> Seq<char> {
        "label"@
    }

    open spec fn incs() -> Seq<char> {
        "aliases"@
    }

    fn get_name() -> (r: &'static str) {
        "label"
    }

    fn get_incs() -> (r: &'static str) {
        "aliases"
    }
}

} // verus!
