use yucil::fetcher::{
    classify_listing_failure, music_playlist_ids, FetchError, FetchEvent, FetchState,
    ListingFailure, RemoteErrorKind,
};
use yucil::order::lex_le;
use yucil::playlist::{starts_with_music_prefix, PlaylistSummary};

fn record(id: Option<&str>, title: Option<&str>) -> PlaylistSummary {
    PlaylistSummary {
        id: id.map(|s| s.to_string()),
        title: title.map(|s| s.to_string()),
    }
}

#[test]
fn filters_and_sorts_by_title() {
    let items = vec![
        record(Some("b"), Some("music-chill")),
        record(Some("a"), Some("music-rock")),
        record(Some("c"), Some("podcast-talk")),
    ];
    assert_eq!(music_playlist_ids(&items), vec!["b".to_string(), "a".to_string()]);
}

#[test]
fn prefix_match_is_case_sensitive() {
    let items = vec![record(Some("x"), Some("Music-Loud"))];
    assert_eq!(music_playlist_ids(&items), Vec::<String>::new());
}

#[test]
fn empty_input_yields_empty_output() {
    let items: Vec<PlaylistSummary> = Vec::new();
    assert_eq!(music_playlist_ids(&items), Vec::<String>::new());
}

#[test]
fn no_matching_title_yields_empty_output() {
    let items = vec![
        record(Some("a"), Some("podcast-news")),
        record(Some("b"), Some("mix-music-")),
        record(Some("c"), Some("musi")),
    ];
    assert_eq!(music_playlist_ids(&items), Vec::<String>::new());
}

#[test]
fn record_without_id_is_dropped() {
    let items = vec![
        record(None, Some("music-a")),
        record(Some("kept"), Some("music-b")),
    ];
    assert_eq!(music_playlist_ids(&items), vec!["kept".to_string()]);
}

#[test]
fn record_without_title_is_dropped() {
    let items = vec![record(Some("a"), None), record(Some("b"), Some("music-b"))];
    assert_eq!(music_playlist_ids(&items), vec!["b".to_string()]);
}

#[test]
fn bare_prefix_title_matches() {
    let items = vec![record(Some("only"), Some("music-"))];
    assert_eq!(music_playlist_ids(&items), vec!["only".to_string()]);
}

#[test]
fn equal_titles_keep_input_order() {
    let items = vec![
        record(Some("first"), Some("music-same")),
        record(Some("second"), Some("music-same")),
        record(Some("zeroth"), Some("music-a")),
    ];
    assert_eq!(
        music_playlist_ids(&items),
        vec!["zeroth".to_string(), "first".to_string(), "second".to_string()]
    );
}

#[test]
fn repeated_calls_give_identical_output() {
    let items = vec![
        record(Some("b"), Some("music-chill")),
        record(Some("a"), Some("music-rock")),
    ];
    let once = music_playlist_ids(&items);
    let twice = music_playlist_ids(&items);
    assert_eq!(once, twice);
    assert_eq!(once, vec!["b".to_string(), "a".to_string()]);
}

#[test]
fn lexicographic_comparison_on_strings() {
    assert!(lex_le("", ""));
    assert!(lex_le("", "a"));
    assert!(!lex_le("a", ""));
    assert!(lex_le("a", "b"));
    assert!(!lex_le("b", "a"));
    assert!(lex_le("music-a", "music-ab"));
    assert!(!lex_le("music-ab", "music-a"));
    assert!(lex_le("music-a", "music-a"));
}

#[test]
fn prefix_check_exact_cases() {
    assert!(starts_with_music_prefix("music-"));
    assert!(starts_with_music_prefix("music-rock"));
    assert!(!starts_with_music_prefix("music"));
    assert!(!starts_with_music_prefix("Music-rock"));
    assert!(!starts_with_music_prefix(""));
    assert!(!starts_with_music_prefix("mix-music-"));
}

#[test]
fn listing_failures_keep_their_category() {
    assert_eq!(
        classify_listing_failure(ListingFailure::Transport),
        FetchError::TransportError
    );
    assert_eq!(classify_listing_failure(ListingFailure::Io), FetchError::TransportError);
    assert_eq!(
        classify_listing_failure(ListingFailure::MissingToken),
        FetchError::AuthorizationFailed
    );
    assert_eq!(
        classify_listing_failure(ListingFailure::Remote(RemoteErrorKind::BadRequest)),
        FetchError::RemoteApiError(RemoteErrorKind::BadRequest)
    );
    assert_eq!(
        classify_listing_failure(ListingFailure::Remote(RemoteErrorKind::StatusFailure)),
        FetchError::RemoteApiError(RemoteErrorKind::StatusFailure)
    );
    assert_eq!(
        classify_listing_failure(ListingFailure::Remote(RemoteErrorKind::MissingApiKey)),
        FetchError::RemoteApiError(RemoteErrorKind::MissingApiKey)
    );
    assert_eq!(
        classify_listing_failure(ListingFailure::Remote(RemoteErrorKind::FieldClash)),
        FetchError::RemoteApiError(RemoteErrorKind::FieldClash)
    );
    assert_eq!(
        classify_listing_failure(ListingFailure::Remote(RemoteErrorKind::UploadSizeLimit)),
        FetchError::RemoteApiError(RemoteErrorKind::UploadSizeLimit)
    );
    assert_eq!(
        classify_listing_failure(ListingFailure::Remote(RemoteErrorKind::Cancelled)),
        FetchError::RemoteApiError(RemoteErrorKind::Cancelled)
    );
    assert_eq!(
        classify_listing_failure(ListingFailure::Remote(RemoteErrorKind::DecodeFailure)),
        FetchError::RemoteApiError(RemoteErrorKind::DecodeFailure)
    );
}

#[test]
fn missing_secret_ends_with_config_missing() {
    let next = yucil::fetcher::fetch_step(FetchState::NeedSecret, FetchEvent::SecretMissing);
    match next {
        FetchState::Done(Err(FetchError::ConfigMissing)) => {}
        _ => panic!("a missing client secret must end the flow with ConfigMissing"),
    }
}

#[test]
fn denied_authorization_ends_with_authorization_failed() {
    let next = yucil::fetcher::fetch_step(
        FetchState::NeedAuthorization,
        FetchEvent::AuthorizationDenied,
    );
    match next {
        FetchState::Done(Err(FetchError::AuthorizationFailed)) => {}
        _ => panic!("a denied authorization must end the flow with AuthorizationFailed"),
    }
}

#[test]
fn absent_items_field_is_a_malformed_response() {
    let next = yucil::fetcher::fetch_step(
        FetchState::NeedListing,
        FetchEvent::ListingReturned(Ok(None)),
    );
    match next {
        FetchState::Done(Err(FetchError::MalformedResponse)) => {}
        _ => panic!("an absent items field must end the flow with MalformedResponse"),
    }
}

#[test]
fn failed_listing_reports_its_classified_error() {
    let next = yucil::fetcher::fetch_step(
        FetchState::NeedListing,
        FetchEvent::ListingReturned(Err(ListingFailure::Transport)),
    );
    match next {
        FetchState::Done(Err(FetchError::TransportError)) => {}
        _ => panic!("a failed listing call must end the flow with its classified error"),
    }
}

#[test]
fn full_flow_returns_sorted_music_ids() {
    let mut state = yucil::fetcher::fetch_step(FetchState::NeedSecret, FetchEvent::SecretLoaded);
    match state {
        FetchState::NeedAuthorization => {}
        _ => panic!("a loaded secret must lead to the authorization step"),
    }
    state = yucil::fetcher::fetch_step(state, FetchEvent::Authorized);
    match state {
        FetchState::NeedListing => {}
        _ => panic!("a granted authorization must lead to the listing step"),
    }
    let items = vec![
        record(Some("b"), Some("music-chill")),
        record(Some("a"), Some("music-rock")),
        record(Some("c"), Some("podcast-talk")),
    ];
    state = yucil::fetcher::fetch_step(state, FetchEvent::ListingReturned(Ok(Some(items))));
    match state {
        FetchState::Done(Ok(ids)) => {
            assert_eq!(ids, vec!["b".to_string(), "a".to_string()]);
        }
        _ => panic!("a returned item list must end the flow with the music ids"),
    }
}
