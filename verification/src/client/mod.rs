//! What a client of the web service needs besides the entities: its
//! configuration and the addresses of searches.

use vstd::prelude::*;

pub mod search;

verus! {

/// Configuration for the client.
pub struct ClientConfig {
    /// The user-agent to be sent with every request to the API.
    ///
    /// Provide a meaningful one as it will be used by MusicBrainz to identify
    /// your application and without a user agent severe throttling will be
    /// undertaken. The official suggestion is to use either one of the
    /// following two options:
    ///
    /// * `Application name/<version> ( contact-url )`
    /// * `Application name/<version> ( contact-email )`
    ///
    /// For more information see:
    /// https://musicbrainz.org/doc/XML_Web_Service/Rate_Limiting
    pub user_agent: String,
}

} // verus!
