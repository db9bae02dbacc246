//! The playlist fetch flow.
//!
//! `music_playlist_ids` is the computational core: from the records of one
//! listing response it produces the identifiers of the playlists whose title
//! starts with `music-`, ordered by title ascending. The surrounding flow —
//! load the client secret, run the authorization flow, issue the listing
//! call — is I/O performed by the embedding application; its decisions are
//! the verified transition function `fetch_step`.

use vstd::prelude::*;
use crate::playlist::{music_entries, EntryModel, PlaylistSummary, RecordModel};
use crate::sort::sort_entries;

verus! {

/// The identifiers of the kept records, ordered by title ascending;
/// records with equal titles keep their input order.
pub open spec fn music_ids(s: Seq<RecordModel>) -> Seq<Seq<char>> {
    sort_entries(music_entries(s)).map_values(|e: EntryModel| e.id)
}

/// Computes `music_ids` of one listing response: the identifiers of the
/// records whose title starts with `music-` and whose identifier is
/// present, ordered by title ascending.
pub fn music_playlist_ids(items: &Vec<PlaylistSummary>) -> (r: Vec<String>)
    ensures
        r.deep_view() == music_ids(items.deep_view()),
{
    let entries = crate::playlist::music_entries_of(items);
    let sorted = crate::sort::sort_music_entries(entries);
    let ghost sorted_model = sorted.deep_view();
    let mut out: Vec<String> = Vec::new();
    let mut k: usize = 0;
    while k < sorted.len()
        invariant
            k <= sorted.len(),
            sorted_model == sorted.deep_view(),
            out.deep_view() == sorted_model.subrange(0, k as int).map_values(
                |e: EntryModel| e.id,
            ),
        decreases sorted.len() - k,
    {
        let ghost pre_out = out.deep_view();
        let ghost prev_out = out@;
        out.push(sorted[k].id.clone());
        proof {
            let rhs = sorted_model.subrange(0, k as int + 1).map_values(|e: EntryModel| e.id);
            assert(pre_out.len() == prev_out.len());
            assert(out.deep_view().len() == k as int + 1);
            assert(rhs.len() == k as int + 1);
            assert forall|j: int| 0 <= j < k as int + 1 implies out.deep_view()[j] == rhs[j] by {
                if j < k as int {
                    assert(out@[j] == prev_out[j]);
                    assert(out.deep_view()[j] == pre_out[j]);
                    assert(pre_out[j] == sorted_model[j].id);
                } else {
                    assert(out.deep_view()[j] == sorted_model[k as int].id);
                }
            }
            assert(out.deep_view() =~= rhs);
        }
        k += 1;
    }
    proof {
        assert(sorted_model.subrange(0, sorted.len() as int) =~= sorted_model);
    }
    out
}

/// The category of a structured error returned by the listing endpoint.
#[derive(PartialEq, Eq, Structural, Clone, Copy, Debug)]
pub enum RemoteErrorKind {
    /// The request was not understood by the server.
    BadRequest,
    /// The response carried a non-success HTTP status.
    StatusFailure,
    /// An API key was required and absent.
    MissingApiKey,
    /// A free-form parameter clashed with a built-in one.
    FieldClash,
    /// The upload size limit was exceeded.
    UploadSizeLimit,
    /// The operation was cancelled.
    Cancelled,
    /// The success response could not be decoded.
    DecodeFailure,
}

/// Why a fetch failed.
#[derive(PartialEq, Eq, Structural, Clone, Copy, Debug)]
pub enum FetchError {
    /// The client-secret file is absent or unreadable.
    ConfigMissing,
    /// The authorization flow did not complete.
    AuthorizationFailed,
    /// A network or I/O failure on the way to either endpoint.
    TransportError,
    /// The listing endpoint returned a structured error.
    RemoteApiError(RemoteErrorKind),
    /// The success response lacks the items field.
    MalformedResponse,
}

/// The failure of one listing call, as the embedding application observed
/// it.
#[derive(PartialEq, Eq, Structural, Clone, Copy, Debug)]
pub enum ListingFailure {
    /// The HTTP connection failed.
    Transport,
    /// An I/O failure while reading the response.
    Io,
    /// A token was required and the authenticator produced none.
    MissingToken,
    /// A structured error from the endpoint.
    Remote(RemoteErrorKind),
}

/// Maps the failure of a listing call to the error the fetch reports:
/// connection and read failures are transport errors, a refused token is
/// an authorization failure, and structured errors keep their category.
pub fn classify_listing_failure(f: ListingFailure) -> (r: FetchError)
    ensures
        r == spec_classify_listing_failure(f),
{
    match f {
        ListingFailure::Transport => FetchError::TransportError,
        ListingFailure::Io => FetchError::TransportError,
        ListingFailure::MissingToken => FetchError::AuthorizationFailed,
        ListingFailure::Remote(kind) => FetchError::RemoteApiError(kind),
    }
}

/// What `classify_listing_failure` returns.
pub open spec fn spec_classify_listing_failure(f: ListingFailure) -> FetchError {
    match f {
        ListingFailure::Transport => FetchError::TransportError,
        ListingFailure::Io => FetchError::TransportError,
        ListingFailure::MissingToken => FetchError::AuthorizationFailed,
        ListingFailure::Remote(kind) => FetchError::RemoteApiError(kind),
    }
}

/// Where the fetch flow stands. Each non-final state names the one I/O
/// step the embedding application performs next; `Done` carries the result
/// it reports to its caller.
pub enum FetchState {
    /// Read the client-secret file.
    NeedSecret,
    /// Run the installed-application authorization flow.
    NeedAuthorization,
    /// Issue the listing request for the user's own playlists.
    NeedListing,
    /// The flow is over.
    Done(Result<Vec<String>, FetchError>),
}

/// What one I/O step reported.
pub enum FetchEvent {
    /// The client-secret file was read.
    SecretLoaded,
    /// The client-secret file is absent or unreadable.
    SecretMissing,
    /// The authorization flow produced a credential.
    Authorized,
    /// The authorization flow failed or was declined.
    AuthorizationDenied,
    /// The listing call returned: its items, absent items field, or its
    /// failure.
    ListingReturned(Result<Option<Vec<PlaylistSummary>>, ListingFailure>),
}

/// The event belongs to the step the state asks for.
pub open spec fn event_fits(state: FetchState, event: FetchEvent) -> bool {
    match state {
        FetchState::NeedSecret => event is SecretLoaded || event is SecretMissing,
        FetchState::NeedAuthorization => event is Authorized || event is AuthorizationDenied,
        FetchState::NeedListing => event is ListingReturned,
        FetchState::Done(_) => false,
    }
}

/// The decision core of the fetch flow: from the current state and what
/// the I/O step reported, the next state. A missing secret file ends the
/// flow with `ConfigMissing`, a failed authorization with
/// `AuthorizationFailed`, a failed listing call with its classified error,
/// an absent items field with `MalformedResponse`, and returned items with
/// their `music_ids`. No failure is ever reported as a success.
pub fn fetch_step(state: FetchState, event: FetchEvent) -> (next: FetchState)
    requires
        event_fits(state, event),
    ensures
        state is NeedSecret && event is SecretLoaded ==> next is NeedAuthorization,
        state is NeedSecret && event is SecretMissing ==> next == FetchState::Done(
            Result::<Vec<String>, FetchError>::Err(FetchError::ConfigMissing),
        ),
        state is NeedAuthorization && event is Authorized ==> next is NeedListing,
        state is NeedAuthorization && event is AuthorizationDenied ==> next == FetchState::Done(
            Result::<Vec<String>, FetchError>::Err(FetchError::AuthorizationFailed),
        ),
        state is NeedListing ==> (match event {
            FetchEvent::ListingReturned(listing) => match listing {
                Err(f) => next == FetchState::Done(
                    Result::<Vec<String>, FetchError>::Err(spec_classify_listing_failure(f)),
                ),
                Ok(None) => next == FetchState::Done(
                    Result::<Vec<String>, FetchError>::Err(FetchError::MalformedResponse),
                ),
                Ok(Some(items)) => next matches FetchState::Done(r) && r matches Ok(ids)
                    && ids.deep_view() == music_ids(items.deep_view()),
            },
            _ => true,
        }),
{
    match (state, event) {
        (FetchState::NeedSecret, FetchEvent::SecretLoaded) => FetchState::NeedAuthorization,
        (FetchState::NeedSecret, FetchEvent::SecretMissing) => FetchState::Done(
            Err(FetchError::ConfigMissing),
        ),
        (FetchState::NeedAuthorization, FetchEvent::Authorized) => FetchState::NeedListing,
        (FetchState::NeedAuthorization, FetchEvent::AuthorizationDenied) => FetchState::Done(
            Err(FetchError::AuthorizationFailed),
        ),
        (FetchState::NeedListing, FetchEvent::ListingReturned(listing)) => match listing {
            Err(f) => FetchState::Done(Err(classify_listing_failure(f))),
            Ok(None) => FetchState::Done(Err(FetchError::MalformedResponse)),
            Ok(Some(items)) => FetchState::Done(Ok(music_playlist_ids(&items))),
        },
        _ => FetchState::Done(Err(FetchError::MalformedResponse)),
    }
}

} // verus!
