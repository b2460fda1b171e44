//! The fixed description of an endpoint.

use vstd::prelude::*;
use crate::auth::AuthScheme;
use crate::message::Method;
use crate::version::MatrixVersion;

verus! {

/// One path under which an endpoint can be reached.
///
/// The path is a template: a segment that begins with `:` stands for a path
/// argument.
#[derive(Clone, Copy, Debug)]
pub struct PathCandidate {
    /// The path template.
    pub path: &'static str,
    /// The version from which on this path can be used; `None` for a path
    /// that is bound to no version, such as an unstable one.
    pub added: Option<MatrixVersion>,
}

/// Metadata about an API endpoint.
#[derive(Clone, Debug)]
pub struct Metadata {
    /// A human-readable description of the endpoint.
    pub description: &'static str,
    /// The HTTP method used by this endpoint.
    pub method: Method,
    /// A unique identifier for this endpoint.
    pub name: &'static str,
    /// Whether or not this endpoint is rate limited by the server.
    pub rate_limited: bool,
    /// What authentication scheme the server uses for this endpoint.
    pub authentication: AuthScheme,
    /// The Matrix version that this endpoint was added in; `None` while the
    /// endpoint is unstable.
    pub added: Option<MatrixVersion>,
    /// The Matrix version that deprecated this endpoint.
    pub deprecated: Option<MatrixVersion>,
    /// The Matrix version that removed this endpoint.
    pub removed: Option<MatrixVersion>,
    /// The paths of this endpoint, the most stable first.
    pub path_candidates: Vec<PathCandidate>,
}

/// What a [`PathCandidate`] holds, as mathematical values.
pub struct PathCandidateView {
    pub path: Seq<char>,
    pub added: Option<MatrixVersion>,
}

/// What a [`Metadata`] record holds, as mathematical values.
pub struct MetadataView {
    pub description: Seq<char>,
    pub method: Method,
    pub name: Seq<char>,
    pub rate_limited: bool,
    pub authentication: AuthScheme,
    pub added: Option<MatrixVersion>,
    pub deprecated: Option<MatrixVersion>,
    pub removed: Option<MatrixVersion>,
    pub path_candidates: Seq<PathCandidateView>,
}

impl View for PathCandidate {
    type V = PathCandidateView;

    open spec fn view(&self) -> PathCandidateView {
        PathCandidateView { path: self.path@, added: self.added }
    }
}

impl View for Metadata {
    type V = MetadataView;

    open spec fn view(&self) -> MetadataView {
        MetadataView {
            description: self.description@,
            method: self.method,
            name: self.name@,
            rate_limited: self.rate_limited,
            authentication: self.authentication,
            added: self.added,
            deprecated: self.deprecated,
            removed: self.removed,
            path_candidates: Seq::new(
                self.path_candidates@.len(),
                |i: int| self.path_candidates@[i]@,
            ),
        }
    }
}

impl MetadataView {
    /// Whether the record describes an endpoint: it has at least one path.
    pub open spec fn wf(self) -> bool {
        self.path_candidates.len() > 0
    }
}

impl Metadata {
    /// Whether the record describes an endpoint: it has at least one path.
    pub open spec fn wf(&self) -> bool {
        self@.wf()
    }

    /// Makes the record of an endpoint with the given paths, the most stable
    /// first, and no date of addition, deprecation or removal.
    ///
    /// Returns `None` where no path is given: an endpoint has at least one.
    pub fn new(
        name: &'static str,
        description: &'static str,
        method: Method,
        rate_limited: bool,
        authentication: AuthScheme,
        path_candidates: Vec<PathCandidate>,
    ) -> (r: Option<Metadata>)
        ensures
            match r {
                Some(metadata) => {
                    &&& metadata.wf()
                    &&& metadata.name == name
                    &&& metadata.description == description
                    &&& metadata.method == method
                    &&& metadata.rate_limited == rate_limited
                    &&& metadata.authentication == authentication
                    &&& metadata.added is None
                    &&& metadata.deprecated is None
                    &&& metadata.removed is None
                    &&& metadata.path_candidates == path_candidates
                },
                None => path_candidates@.len() == 0,
            },
    {
        if path_candidates.len() == 0 {
            return None;
        }
        Some(
            Metadata {
                description,
                method,
                name,
                rate_limited,
                authentication,
                added: None,
                deprecated: None,
                removed: None,
                path_candidates,
            },
        )
    }

    /// Checks that the record has at least one path.
    pub fn is_well_formed(&self) -> (r: bool)
        ensures
            r == self.wf(),
    {
        self.path_candidates.len() > 0
    }
}

} // verus!
