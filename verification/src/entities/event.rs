use crate::entities::Date;
use crate::mbid::Mbid;
use vstd::prelude::*;

verus! {

/// What kind of event an event is.
#[derive(Clone, Copy, Debug, PartialEq, Eq, Structural)]
pub enum EventType {
    Concert,
    Festival,
    LaunchEvent,
    ConventionExpo,
    MasterclassClinic,
}

/// An organised event which people can attend, such as a concert or a
/// festival. No document is read into it yet.
pub struct Event {
    /// MBID of the entity in the MusicBrainz database.
    pub mbid: Mbid,
    /// The official name of the event or a descriptive name if the event
    /// doesn't have an official name.
    pub name: String,
    /// Describes what type of event this is exactly.
    pub event_type: EventType,
    /// True if the event was cancelled.
    pub cancelled: bool,
    /// List of songs played at the event, in the text format of the web
    /// service.
    pub setlist: String,
    pub begin_date: Date,
    pub end_date: Date,
    pub aliases: Vec<String>,
    pub disambiguation: Option<String>,
    pub annotation: Option<String>,
}

} // verus!
