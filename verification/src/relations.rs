//! `GET /_matrix/client/*/rooms/{roomId}/relations/{eventId}/{relType}/{eventType}`
//!
//! Retrieves the events that relate to a given event, optionally only those
//! of one relation type and one event type. The endpoint has one path, an
//! unstable one, and takes an access token.

pub mod request;
pub mod response;

pub use request::{IncomingRequest, Request};
pub use response::Response;

use vstd::prelude::*;
use crate::auth::AuthScheme;
use crate::message::Method;
use crate::metadata::{Metadata, MetadataView, PathCandidate, PathCandidateView};
use crate::path::{is_removed_in, lemma_unbound_path_is_fallback, selected_path};
use crate::version::MatrixVersion;

verus! {

/// The endpoint's metadata: one unstable path, authentication by access
/// token.
pub open spec fn metadata_view() -> MetadataView {
    MetadataView {
        description: "Get the related events for a given event, with optional filters."@,
        method: Method::Get,
        name: "get_events_relating_to_event"@,
        rate_limited: false,
        authentication: AuthScheme::AccessToken,
        added: None,
        deprecated: None,
        removed: None,
        path_candidates: seq![
            PathCandidateView {
                path: "/_matrix/client/unstable/rooms/:room_id/relations/:event_id/:rel_type/:event_type"@,
                added: None,
            },
        ],
    }
}

/// The endpoint's metadata.
pub fn metadata() -> (r: Metadata)
    ensures
        r@ == metadata_view(),
        r.wf(),
{
    let r = Metadata {
        description: "Get the related events for a given event, with optional filters.",
        method: Method::Get,
        name: "get_events_relating_to_event",
        rate_limited: false,
        authentication: AuthScheme::AccessToken,
        added: None,
        deprecated: None,
        removed: None,
        path_candidates: vec![
            PathCandidate {
                path: "/_matrix/client/unstable/rooms/:room_id/relations/:event_id/:rel_type/:event_type",
                added: None,
            },
        ],
    };
    assert(r@.path_candidates =~= metadata_view().path_candidates);
    r
}

/// The endpoint's one path is selected whatever versions are offered.
pub proof fn lemma_path_is_always_selected(versions: Seq<MatrixVersion>)
    ensures
        selected_path(versions, metadata_view()) == Some(0int),
{
    if versions.len() > 0 {
        assert(!is_removed_in(metadata_view().removed, versions[0]));
    }
    lemma_unbound_path_is_fallback(versions, metadata_view(), 0);
}

} // verus!
