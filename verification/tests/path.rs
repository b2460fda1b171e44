use ruma_api::auth::AuthScheme;
use ruma_api::error::NoMatchingPathError;
use ruma_api::message::Method;
use ruma_api::metadata::{Metadata, PathCandidate};
use ruma_api::path::{
    is_removed_for_all, matches_versions, removed_in, render_path, select_path,
};
use ruma_api::version::MatrixVersion::{self, V1_0, V1_1, V1_2};

fn endpoint(candidates: Vec<PathCandidate>, removed: Option<MatrixVersion>) -> Metadata {
    Metadata {
        description: "Does something.",
        method: Method::Get,
        name: "some_endpoint",
        rate_limited: false,
        authentication: AuthScheme::NoAuthentication,
        added: None,
        deprecated: None,
        removed,
        path_candidates: candidates,
    }
}

fn stable_and_unstable() -> Vec<PathCandidate> {
    vec![
        PathCandidate { path: "/v3/foo/:id", added: Some(V1_1) },
        PathCandidate { path: "/unstable/foo/:id", added: None },
    ]
}

#[test]
fn metadata_needs_a_path() {
    assert!(Metadata::new("n", "d", Method::Get, true, AuthScheme::AccessToken, vec![]).is_none());
    let m = Metadata::new(
        "n",
        "d",
        Method::Post,
        true,
        AuthScheme::AccessToken,
        stable_and_unstable(),
    )
    .unwrap();
    assert!(m.is_well_formed());
    assert_eq!((m.name, m.description, m.method, m.rate_limited), ("n", "d", Method::Post, true));
    assert_eq!(m.authentication, AuthScheme::AccessToken);
    assert_eq!((m.added, m.deprecated, m.removed), (None, None, None));
    assert_eq!(m.path_candidates.len(), 2);
    assert_eq!(select_path(&[V1_1], &m), Ok("/v3/foo/:id"));
}

#[test]
fn old_versions_select_the_unstable_path() {
    let m = endpoint(stable_and_unstable(), None);
    assert_eq!(select_path(&[V1_0], &m), Ok("/unstable/foo/:id"));
}

#[test]
fn new_versions_select_the_stable_path() {
    let m = endpoint(stable_and_unstable(), None);
    assert_eq!(select_path(&[V1_2], &m), Ok("/v3/foo/:id"));
    assert_eq!(select_path(&[V1_1], &m), Ok("/v3/foo/:id"));
    assert_eq!(select_path(&[V1_0, V1_1], &m), Ok("/v3/foo/:id"));
}

#[test]
fn removed_endpoint_selects_no_path() {
    let m = endpoint(stable_and_unstable(), Some(V1_1));
    assert_eq!(select_path(&[V1_1], &m), Err(NoMatchingPathError));
    assert_eq!(select_path(&[V1_1, V1_2], &m), Err(NoMatchingPathError));
    assert_eq!(select_path(&[V1_2], &m), Err(NoMatchingPathError));
}

#[test]
fn removed_versions_do_not_count_for_a_match() {
    let m = endpoint(
        vec![
            PathCandidate { path: "/v3/foo", added: Some(V1_1) },
            PathCandidate { path: "/r0/foo", added: Some(V1_0) },
            PathCandidate { path: "/unstable/foo", added: None },
        ],
        Some(V1_1),
    );
    assert_eq!(select_path(&[V1_0, V1_2], &m), Ok("/r0/foo"));
    assert_eq!(select_path(&[V1_0], &m), Ok("/r0/foo"));
    assert_eq!(select_path(&[V1_2], &m), Err(NoMatchingPathError));
}

#[test]
fn first_match_wins() {
    let m = endpoint(
        vec![
            PathCandidate { path: "/r0/foo", added: Some(V1_0) },
            PathCandidate { path: "/v3/foo", added: Some(V1_1) },
        ],
        None,
    );
    assert_eq!(select_path(&[V1_2], &m), Ok("/r0/foo"));
}

#[test]
fn no_matching_candidate_is_an_error() {
    let m = endpoint(vec![PathCandidate { path: "/v3/foo", added: Some(V1_2) }], None);
    assert_eq!(select_path(&[V1_0, V1_1], &m), Err(NoMatchingPathError));
    assert_eq!(select_path(&[], &m), Err(NoMatchingPathError));
    let none = endpoint(vec![], None);
    assert!(!none.is_well_formed());
    assert_eq!(select_path(&[V1_2], &none), Err(NoMatchingPathError));
}

#[test]
fn empty_offer_takes_the_unbound_path() {
    let m = endpoint(stable_and_unstable(), Some(V1_1));
    assert!(m.is_well_formed());
    assert_eq!(select_path(&[], &m), Ok("/unstable/foo/:id"));
}

#[test]
fn selection_ignores_order_and_repetition() {
    let m = endpoint(stable_and_unstable(), Some(V1_2));
    let a = select_path(&[V1_0, V1_1, V1_2], &m);
    assert_eq!(a, Ok("/v3/foo/:id"));
    assert_eq!(select_path(&[V1_2, V1_1, V1_0], &m), a);
    assert_eq!(select_path(&[V1_1, V1_0, V1_2, V1_1, V1_0], &m), a);
    assert_eq!(select_path(&[V1_0, V1_1, V1_2], &m), a);
}

#[test]
fn removal_helpers() {
    assert!(removed_in(Some(V1_1), V1_1));
    assert!(removed_in(Some(V1_1), V1_2));
    assert!(!removed_in(Some(V1_1), V1_0));
    assert!(!removed_in(None, V1_2));
    assert!(is_removed_for_all(&[V1_1, V1_2], Some(V1_1)));
    assert!(!is_removed_for_all(&[V1_0, V1_2], Some(V1_1)));
    assert!(!is_removed_for_all(&[], Some(V1_0)));
    let c = PathCandidate { path: "/x", added: Some(V1_1) };
    assert!(matches_versions(&c, &[V1_0, V1_1], None));
    assert!(!matches_versions(&c, &[V1_0], None));
    assert!(!matches_versions(&c, &[V1_1], Some(V1_1)));
    assert!(matches_versions(&PathCandidate { path: "/x", added: None }, &[], Some(V1_0)));
}

#[test]
fn placeholders_take_percent_encoded_arguments() {
    assert_eq!(render_path("/v3/foo/:id", &["a b"]), "/v3/foo/a%20b");
    assert_eq!(
        render_path("/rooms/:room_id/relations/:event_id", &["!r:x.org", "$e/1?"]),
        "/rooms/%21r%3Ax%2Eorg/relations/%24e%2F1%3F"
    );
    assert_eq!(render_path("/a/:b/c", &["é"]), "/a/%C3%A9/c");
    assert_eq!(render_path("/a/:b/c", &["AZaz09"]), "/a/AZaz09/c");
}

#[test]
fn path_ends_where_arguments_run_out() {
    assert_eq!(render_path("/a/:b/:c/:d", &["1", "2"]), "/a/1/2");
    assert_eq!(render_path("/a/:b/:c/:d", &["1", "2", "3"]), "/a/1/2/3");
    assert_eq!(render_path("/a/:b/c/:d", &["1"]), "/a/1/c");
    assert_eq!(render_path("/a/:b", &[]), "/a");
    assert_eq!(render_path("/:a", &[]), "");
}

#[test]
fn templates_without_placeholders_are_kept() {
    assert_eq!(render_path("/_matrix/client/versions", &[]), "/_matrix/client/versions");
    assert_eq!(render_path("/a/b", &["unused"]), "/a/b");
    assert_eq!(render_path("", &["unused"]), "");
    assert_eq!(render_path("/a:b/c", &["x"]), "/a:b/c");
    assert_eq!(render_path(":a/b", &["x"]), ":a/b");
    assert_eq!(render_path("/a/", &[]), "/a/");
}

#[test]
fn arguments_add_only_letters_digits_and_escapes() {
    for arg in ["a/b", "?x=1#frag", "../..", "é ü", "%2F", "\u{0}\n\t", "🦀"] {
        let path = render_path("/:a", &[arg]);
        assert!(path.starts_with('/'));
        assert!(path[1..].chars().all(|c| c.is_ascii_alphanumeric() || c == '%'));
    }
    assert_eq!(render_path("/:a", &["%2F"]), "/%252F");
    assert_eq!(render_path("/:a", &["🦀"]), "/%F0%9F%A6%80");
    assert_eq!(render_path("/:a", &["\u{0}\n\t"]), "/%00%0A%09");
}
