//! Identifiers of entities.

use crate::errors::{DataProblem, ReadError, ReadErrorView};
use std::str::FromStr;
use vstd::prelude::*;

verus! {

#[verifier::external_type_specification]
#[verifier::external_body]
pub struct ExUuidError(uuid::Error);

/// The 128 bits of the UUID that `text` spells, in any of the forms that the
/// `uuid` crate reads, or `None` where it spells none.
pub uninterp spec fn uuid_value(text: Seq<char>) -> Option<u128>;

/// `uuid::Uuid::parse_str`, then `uuid::Uuid::as_u128` on what was parsed.
/// Whether the text is a UUID, and which, depends on the text alone.
#[verifier::external_body]
fn parse_uuid(text: &str) -> (r: Result<u128, uuid::Error>)
    ensures
        match r {
            Ok(value) => uuid_value(text@) == Some(value),
            Err(_) => uuid_value(text@) is None,
        },
{
    uuid::Uuid::parse_str(text).map(|uuid| uuid.as_u128())
}

/// The text of the UUID with the bits `value`: 32 hexadecimal digits in lower
/// case, in five groups separated by hyphens.
pub uninterp spec fn uuid_text(value: u128) -> Seq<char>;

/// `uuid::Uuid::from_u128`, then `Uuid::hyphenated` and its `to_string`: the
/// text depends on the bits alone.
#[verifier::external_body]
fn format_uuid(value: u128) -> (r: String)
    ensures
        r@ == uuid_text(value),
{
    uuid::Uuid::from_u128(value).hyphenated().to_string()
}

/// Identifier of an entity in the MusicBrainz database: a UUID, held as its
/// 128 bits.
#[derive(Clone, Copy, Debug, PartialEq, Eq, Hash, Structural)]
pub struct Mbid {
    value: u128,
}

impl View for Mbid {
    type V = Mbid;

    open spec fn view(&self) -> Mbid {
        *self
    }
}

/// The identifier that `text` spells.
pub open spec fn parse_mbid(text: Seq<char>) -> Result<Mbid, ReadErrorView> {
    match uuid_value(text) {
        Some(value) => Ok(Mbid::spec_from_u128(value)),
        None => Err(ReadErrorView::InvalidData { problem: DataProblem::Mbid, text }),
    }
}

impl Mbid {
    pub closed spec fn spec_as_u128(&self) -> u128 {
        self.value
    }

    pub closed spec fn spec_from_u128(value: u128) -> Mbid {
        Mbid { value }
    }

    /// The identifier with the bits `value`.
    #[verifier::when_used_as_spec(spec_from_u128)]
    pub fn from_u128(value: u128) -> (r: Mbid)
        ensures
            r == Mbid::spec_from_u128(value),
            r.spec_as_u128() == value,
    {
        Mbid { value }
    }

    /// The 128 bits of the identifier.
    #[verifier::when_used_as_spec(spec_as_u128)]
    pub fn as_u128(&self) -> (r: u128)
        ensures
            r == self.spec_as_u128(),
            Mbid::spec_from_u128(r) == *self,
    {
        self.value
    }

    /// The text of the identifier, as the web service writes it.
    pub fn to_string(&self) -> (r: String)
        ensures
            r@ == uuid_text(self.spec_as_u128()),
    {
        format_uuid(self.value)
    }

    /// Reads an identifier from the text of a UUID.
    pub fn parse_str(text: &str) -> (r: Result<Mbid, ReadError>)
        ensures
            match r {
                Ok(mbid) => parse_mbid(text@) == Ok::<Mbid, ReadErrorView>(mbid),
                Err(e) => parse_mbid(text@) == Err::<Mbid, ReadErrorView>(e@),
            },
    {
        match parse_uuid(text) {
            Ok(value) => Ok(Mbid { value }),
            Err(_) => Err(ReadError::invalid(DataProblem::Mbid, text)),
        }
    }

    /// Reads an identifier from the text of a UUID.
    pub fn from_str(text: &str) -> (r: Result<Mbid, ReadError>)
        ensures
            match r {
                Ok(mbid) => parse_mbid(text@) == Ok::<Mbid, ReadErrorView>(mbid),
                Err(e) => parse_mbid(text@) == Err::<Mbid, ReadErrorView>(e@),
            },
    {
        Mbid::parse_str(text)
    }
}

impl FromStr for Mbid {
    type Err = ReadError;

    /// Reads an identifier from the text of a UUID, as `Mbid::parse_str` does.
    fn from_str(text: &str) -> (r: Result<Self, Self::Err>)
        ensures
            match r {
                Ok(mbid) => parse_mbid(text@) == Ok::<Mbid, ReadErrorView>(mbid),
                Err(e) => parse_mbid(text@) == Err::<Mbid, ReadErrorView>(e@),
            },
    {
        Mbid::parse_str(text)
    }
}

} // verus!
