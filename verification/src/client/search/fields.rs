//! The fields by which release groups are searched.

use crate::client::search::{ReleaseGroupSearchField, SearchField};
use crate::entities::ReleaseGroupPrimaryType;
use crate::mbid::{uuid_text, Mbid};
use crate::text::{decimal_digits, decimal_string};
use vstd::prelude::*;

verus! {

/// The identifier of an artist of the release group.
pub struct ArtistId(pub Mbid);

impl SearchField for ArtistId {
    open spec fn text(&self) -> Seq<char> {
        uuid_text(self.0.spec_as_u128())
    }

    fn to_string(&self) -> (r: String) {
        self.0.to_string()
    }
}

impl ReleaseGroupSearchField for ArtistId {
    open spec fn key() -> Seq<char> {
        "arid"@
    }

    fn name() -> (r: &'static str) {
        "arid"
    }
}

/// The artist of the release group as credited.
pub struct ArtistCredit(pub String);

impl SearchField for ArtistCredit {
    open spec fn text(&self) -> Seq<char> {
        self.0@
    }

    fn to_string(&self) -> (r: String) {
        self.0.clone()
    }
}

impl ReleaseGroupSearchField for ArtistCredit {
    open spec fn key() -> Seq<char> {
        "artist"@
    }

    fn name() -> (r: &'static str) {
        "artist"
    }
}

/// The name of an artist of the release group.
pub struct ArtistName(pub String);

impl SearchField for ArtistName {
    open spec fn text(&self) -> Seq<char> {
        self.0@
    }

    fn to_string(&self) -> (r: String) {
        self.0.clone()
    }
}

impl ReleaseGroupSearchField for ArtistName {
    open spec fn key() -> Seq<char> {
        "artistname"@
    }

    fn name() -> (r: &'static str) {
        "artistname"
    }
}

/// The disambiguation comment of the release group.
pub struct Comment(pub String);

impl SearchField for Comment {
    open spec fn text(&self) -> Seq<char> {
        self.0@
    }

    fn to_string(&self) -> (r: String) {
        self.0.clone()
    }
}

impl ReleaseGroupSearchField for Comment {
    open spec fn key() -> Seq<char> {
        "comment"@
    }

    fn name() -> (r: &'static str) {
        "comment"
    }
}

/// The name under which an artist is credited on the release group.
pub struct CreditName(pub String);

impl SearchField for CreditName {
    open spec fn text(&self) -> Seq<char> {
        self.0@
    }

    fn to_string(&self) -> (r: String) {
        self.0.clone()
    }
}

impl ReleaseGroupSearchField for CreditName {
    open spec fn key() -> Seq<char> {
        "creditname"@
    }

    fn name() -> (r: &'static str) {
        "creditname"
    }
}

/// The primary type of the release group.
pub struct PrimaryType(pub ReleaseGroupPrimaryType);

impl SearchField for PrimaryType {
    open spec fn text(&self) -> Seq<char> {
        self.0.literal()
    }

    fn to_string(&self) -> (r: String) {
        self.0.as_str().to_owned()
    }
}

impl ReleaseGroupSearchField for PrimaryType {
    open spec fn key() -> Seq<char> {
        "primarytype"@
    }

    fn name() -> (r: &'static str) {
        "primarytype"
    }
}

/// The identifier of the release group.
pub struct ReleaseGroupId(pub Mbid);

impl SearchField for ReleaseGroupId {
    open spec fn text(&self) -> Seq<char> {
        uuid_text(self.0.spec_as_u128())
    }

    fn to_string(&self) -> (r: String) {
        self.0.to_string()
    }
}

impl ReleaseGroupSearchField for ReleaseGroupId {
    open spec fn key() -> Seq<char> {
        "rgid"@
    }

    fn name() -> (r: &'static str) {
        "rgid"
    }
}

/// The name of the release group.
pub struct ReleaseGroupName(pub String);

impl SearchField for ReleaseGroupName {
    open spec fn text(&self) -> Seq<char> {
        self.0@
    }

    fn to_string(&self) -> (r: String) {
        self.0.clone()
    }
}

impl ReleaseGroupSearchField for ReleaseGroupName {
    open spec fn key() -> Seq<char> {
        "releasegroup"@
    }

    fn name() -> (r: &'static str) {
        "releasegroup"
    }
}

/// The name of the release group with its accented characters.
pub struct ReleaseGroupNameAccent(pub String);

impl SearchField for ReleaseGroupNameAccent {
    open spec fn text(&self) -> Seq<char> {
        self.0@
    }

    fn to_string(&self) -> (r: String) {
        self.0.clone()
    }
}

impl ReleaseGroupSearchField for ReleaseGroupNameAccent {
    open spec fn key() -> Seq<char> {
        "releasegroupaccent"@
    }

    fn name() -> (r: &'static str) {
        "releasegroupaccent"
    }
}

/// The number of releases in the release group.
pub struct ReleaseNumber(pub u16);

impl SearchField for ReleaseNumber {
    open spec fn text(&self) -> Seq<char> {
        decimal_digits(self.0 as nat)
    }

    fn to_string(&self) -> (r: String) {
        decimal_string(self.0 as u64)
    }
}

impl ReleaseGroupSearchField for ReleaseNumber {
    open spec fn key() -> Seq<char> {
        "releases"@
    }

    fn name() -> (r: &'static str) {
        "releases"
    }
}

/// The name of a release in the release group.
pub struct ReleaseName(pub String);

impl SearchField for ReleaseName {
    open spec fn text(&self) -> Seq<char> {
        self.0@
    }

    fn to_string(&self) -> (r: String) {
        self.0.clone()
    }
}

impl ReleaseGroupSearchField for ReleaseName {
    open spec fn key() -> Seq<char> {
        "release"@
    }

    fn name() -> (r: &'static str) {
        "release"
    }
}

/// The identifier of a release in the release group.
pub struct ReleaseId(pub Mbid);

impl SearchField for ReleaseId {
    open spec fn text(&self) -> Seq<char> {
        uuid_text(self.0.spec_as_u128())
    }

    fn to_string(&self) -> (r: String) {
        self.0.to_string()
    }
}

impl ReleaseGroupSearchField for ReleaseId {
    open spec fn key() -> Seq<char> {
        "reid"@
    }

    fn name() -> (r: &'static str) {
        "reid"
    }
}

/// A secondary type of the release group.
pub struct SecondaryType(pub String);

impl SearchField for SecondaryType {
    open spec fn text(&self) -> Seq<char> {
        self.0@
    }

    fn to_string(&self) -> (r: String) {
        self.0.clone()
    }
}

impl ReleaseGroupSearchField for SecondaryType {
    open spec fn key() -> Seq<char> {
        "secondarytype"@
    }

    fn name() -> (r: &'static str) {
        "secondarytype"
    }
}

/// The status of a release in the release group.
pub struct ReleaseStatus(pub crate::entities::ReleaseStatus);

impl SearchField for ReleaseStatus {
    open spec fn text(&self) -> Seq<char> {
        self.0.literal()
    }

    fn to_string(&self) -> (r: String) {
        self.0.as_str().to_owned()
    }
}

impl ReleaseGroupSearchField for ReleaseStatus {
    open spec fn key() -> Seq<char> {
        "status"@
    }

    fn name() -> (r: &'static str) {
        "status"
    }
}

/// A tag attached to the release group.
pub struct Tag(pub String);

impl SearchField for Tag {
    open spec fn text(&self) -> Seq<char> {
        self.0@
    }

    fn to_string(&self) -> (r: String) {
        self.0.clone()
    }
}

impl ReleaseGroupSearchField for Tag {
    open spec fn key() -> Seq<char> {
        "tag"@
    }

    fn name() -> (r: &'static str) {
        "tag"
    }
}

} // verus!
