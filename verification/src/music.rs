//! The music endpoint: the request for the track that is playing, the
//! reading of the provider's answer, and the refresh-and-retry flow.

use vstd::prelude::*;
use crate::config::Config;
use crate::text::joined;
use crate::tokens::TokenStorage;

verus! {

/// One track, in the shape handed to callers.
#[derive(Debug, Clone, PartialEq, Eq)]
pub struct TrackItem {
    pub title: String,
    pub release_date: String,
    pub artist: String,
    pub image_url: String,
    pub is_playing: bool,
    pub explicit: bool,
    pub duration_ms: i64,
    pub progress_ms: i64,
}

/// What the endpoint answers: whether anything is playing, and what.
#[derive(Debug, Clone, PartialEq, Eq)]
pub struct TrackData {
    pub is_active: bool,
    pub track: Option<TrackItem>,
}

/// The provider's answer for the track that is playing.
#[derive(Debug, Clone, PartialEq, Eq)]
pub struct ApiTrackData {
    pub progress_ms: i64,
    pub is_playing: bool,
    pub item: ApiTrackItem,
}

#[derive(Debug, Clone, PartialEq, Eq)]
pub struct ApiTrackItem {
    pub name: String,
    pub artists: Vec<ApiTrackArtist>,
    pub album: ApiTrackAlbum,
    pub explicit: bool,
    pub duration_ms: i64,
}

#[derive(Debug, Clone, PartialEq, Eq)]
pub struct ApiTrackArtist {
    pub name: String,
}

#[derive(Debug, Clone, PartialEq, Eq)]
pub struct ApiTrackAlbum {
    pub release_date: String,
    pub images: Vec<ApiTrackImage>,
}

#[derive(Debug, Clone, PartialEq, Eq)]
pub struct ApiTrackImage {
    pub url: String,
}

/// The GET that asks the provider for the track that is playing.
#[derive(Debug, Clone, PartialEq, Eq)]
pub struct TrackRequest {
    pub url: String,
    pub accept_encoding: String,
    pub authorization: String,
}

/// Status with which the provider answers a request whose access token has
/// expired.
pub const STATUS_UNAUTHORIZED: u16 = 401;

/// Status with which the provider answers when nothing is playing.
pub const STATUS_NO_CONTENT: u16 = 204;

/// Status of an answer that carries a track.
pub const STATUS_OK: u16 = 200;

/// Status of this service's own answer when the provider failed.
pub const STATUS_INTERNAL_ERROR: u16 = 500;

/// Address of the provider's resource for the track that is playing.
pub open spec fn track_url(api: Seq<char>) -> Seq<char> {
    api + "/me/player/currently-playing"@
}

/// Bearer authorization for an access token.
pub open spec fn bearer_authorization(access_token: Seq<char>) -> Seq<char> {
    "Bearer "@ + access_token
}

impl ApiTrackData {
    /// The answer names at least one artist and at least two images: the
    /// entries that the normalized track is made of.
    pub open spec fn has_display_fields(&self) -> bool {
        self.item.artists@.len() >= 1 && self.item.album.images@.len() >= 2
    }

    /// The normalized track: the first artist and the second image, which by
    /// the provider's convention is the medium-sized one.
    pub open spec fn normalized(self) -> TrackData
        recommends
            self.has_display_fields(),
    {
        TrackData {
            is_active: true,
            track: Some(
                TrackItem {
                    title: self.item.name,
                    release_date: self.item.album.release_date,
                    artist: self.item.artists@[0].name,
                    image_url: self.item.album.images@[1].url,
                    is_playing: self.is_playing,
                    explicit: self.item.explicit,
                    duration_ms: self.item.duration_ms,
                    progress_ms: self.progress_ms,
                },
            ),
        }
    }

    /// Whether the entries that `normalized` reads are there.
    pub fn can_normalize(&self) -> (present: bool)
        ensures
            present == self.has_display_fields(),
    {
        self.item.artists.len() >= 1 && self.item.album.images.len() >= 2
    }
}

impl TrackData {
    /// The answer for a player that is idle.
    pub open spec fn idle() -> TrackData {
        TrackData { is_active: false, track: None }
    }
}

/// What one fetch attempt yields: the track on status 200 with a readable
/// body that names an artist and two images, else the status itself (200
/// where the body could not be read or lacks those entries).
pub open spec fn fetch_outcome(status: u16, parsed: Option<ApiTrackData>) -> Result<
    TrackData,
    u16,
> {
    if status == STATUS_OK && parsed is Some && parsed->0.has_display_fields() {
        Ok(parsed->0.normalized())
    } else {
        Err(status)
    }
}

/// A fetch succeeds exactly on status 200 with a readable body that names an
/// artist and two images, and every failure carries the status it came with.
pub proof fn fetch_fails_with_its_status(status: u16, parsed: Option<ApiTrackData>)
    ensures
        fetch_outcome(status, parsed) is Ok <==> status == STATUS_OK && parsed is Some
            && parsed->0.has_display_fields(),
        fetch_outcome(status, parsed) is Err ==> fetch_outcome(status, parsed)->Err_0 == status,
{
}

/// Builds the request for the track that is playing, authorized by the
/// stored access token.
pub fn track_request(storage: &TokenStorage, config: &Config) -> (request: TrackRequest)
    ensures
        request.url@ == track_url(config.base_url.spotify_api@),
        request.accept_encoding@ == "gzip, deflate, br"@,
        request.authorization@ == bearer_authorization(storage.access_token@),
{
    TrackRequest {
        url: joined(config.base_url.spotify_api.as_str(), "/me/player/currently-playing"),
        accept_encoding: "gzip, deflate, br".to_owned(),
        authorization: joined("Bearer ", storage.access_token.as_str()),
    }
}

/// Reads the provider's answer to one fetch. `parsed` is the body read as a
/// track, or `None` where it could not be read so. A track without an artist
/// or with fewer than two images is no usable answer, and is signalled as
/// its status like any other.
pub fn get_track_data(status: u16, parsed: Option<ApiTrackData>) -> (outcome: Result<
    TrackData,
    u16,
>)
    ensures
        outcome == fetch_outcome(status, parsed),
{
    if status != STATUS_OK {
        return Err(status);
    }
    match parsed {
        Some(api) => {
            if !api.can_normalize() {
                return Err(status);
            }
            let artist = api.item.artists[0].name.clone();
            let image_url = api.item.album.images[1].url.clone();
            Ok(
                TrackData {
                    is_active: true,
                    track: Some(
                        TrackItem {
                            title: api.item.name,
                            release_date: api.item.album.release_date,
                            artist,
                            image_url,
                            is_playing: api.is_playing,
                            explicit: api.item.explicit,
                            duration_ms: api.item.duration_ms,
                            progress_ms: api.progress_ms,
                        },
                    ),
                },
            )
        },
        None => Err(status),
    }
}

/// The outcome of a fetch that the provider never answered: there is no
/// status to hand on, so it is signalled as an internal error, which the
/// handler answers like every other failure.
pub fn fetch_without_answer() -> (outcome: Result<TrackData, u16>)
    ensures
        outcome == Err::<TrackData, u16>(STATUS_INTERNAL_ERROR),
{
    Err(STATUS_INTERNAL_ERROR)
}

/// Where the handling of one music request stands.
#[derive(Debug, Clone, PartialEq, Eq)]
pub enum MusicPhase {
    /// Nothing was done yet.
    Start,
    /// The first fetch was sent and its outcome is awaited.
    FirstAttempt,
    /// The first fetch was unauthorized; the token refresh is under way.
    Refreshing,
    /// The fetch after the refresh was sent and its outcome is awaited.
    SecondAttempt,
    /// The answer was given.
    Finished,
}

/// What happened outside since the last action.
#[derive(Debug, PartialEq, Eq)]
pub enum MusicEvent {
    /// The request came in.
    Begin,
    /// A fetch came back.
    Fetched(Result<TrackData, u16>),
    /// The token refresh ended, with or without new credentials.
    Refreshed,
}

/// What the caller is to do next.
#[derive(Debug, Clone, PartialEq, Eq)]
pub enum MusicAction {
    /// Send the track request, built from the credentials as stored now.
    Fetch,
    /// Run the token refresh.
    Refresh,
    /// Answer the request.
    Respond(MusicReply),
}

/// The answer to a music request.
#[derive(Debug, Clone, PartialEq, Eq)]
pub enum MusicReply {
    /// Status 200 with the track data as JSON.
    Track(TrackData),
    /// Status 401 with a fixed message.
    Unauthorized,
    /// Status 500 with a fixed message.
    Failure,
}

impl MusicReply {
    /// The HTTP status of the answer.
    pub open spec fn status(self) -> u16 {
        match self {
            MusicReply::Track(_) => STATUS_OK,
            MusicReply::Unauthorized => STATUS_UNAUTHORIZED,
            MusicReply::Failure => STATUS_INTERNAL_ERROR,
        }
    }

    /// The fixed text of an answer that carries no track.
    pub open spec fn message(self) -> Option<Seq<char>> {
        match self {
            MusicReply::Track(_) => None,
            MusicReply::Unauthorized => Some("Check your credentials!"@),
            MusicReply::Failure => Some("Cannot get currently playing Spotify track."@),
        }
    }

    /// The HTTP status of the answer.
    pub fn status_code(&self) -> (code: u16)
        ensures
            code == self.status(),
    {
        match self {
            MusicReply::Track(_) => STATUS_OK,
            MusicReply::Unauthorized => STATUS_UNAUTHORIZED,
            MusicReply::Failure => STATUS_INTERNAL_ERROR,
        }
    }

    /// The fixed text of an answer that carries no track; `None` for one
    /// that does.
    pub fn body_text(&self) -> (text: Option<String>)
        ensures
            text is Some == self.message() is Some,
            text is Some ==> text->0@ == self.message()->0,
    {
        match self {
            MusicReply::Track(_) => None,
            MusicReply::Unauthorized => Some("Check your credentials!".to_owned()),
            MusicReply::Failure => Some("Cannot get currently playing Spotify track.".to_owned()),
        }
    }
}

/// The decision after the first fetch: a track is handed on; an expired token
/// starts the refresh; an idle player is answered as such; anything else is
/// a failure.
pub open spec fn after_first_attempt(outcome: Result<TrackData, u16>) -> (MusicPhase, MusicAction) {
    match outcome {
        Ok(track) => (MusicPhase::Finished, MusicAction::Respond(MusicReply::Track(track))),
        Err(code) => if code == STATUS_UNAUTHORIZED {
            (MusicPhase::Refreshing, MusicAction::Refresh)
        } else if code == STATUS_NO_CONTENT {
            (MusicPhase::Finished, MusicAction::Respond(MusicReply::Track(TrackData::idle())))
        } else {
            (MusicPhase::Finished, MusicAction::Respond(MusicReply::Failure))
        },
    }
}

/// The decision after the fetch that follows a refresh: a track is handed
/// on, and every failure is answered as unauthorized.
pub open spec fn after_second_attempt(outcome: Result<TrackData, u16>) -> (
    MusicPhase,
    MusicAction,
) {
    match outcome {
        Ok(track) => (MusicPhase::Finished, MusicAction::Respond(MusicReply::Track(track))),
        Err(_) => (MusicPhase::Finished, MusicAction::Respond(MusicReply::Unauthorized)),
    }
}

/// The transition of the music handler: the next phase and the action to
/// take, or `None` where `event` is not one that `phase` waits for.
pub open spec fn music_step(phase: MusicPhase, event: MusicEvent) -> Option<
    (MusicPhase, MusicAction),
> {
    match (phase, event) {
        (MusicPhase::Start, MusicEvent::Begin) => Some(
            (MusicPhase::FirstAttempt, MusicAction::Fetch),
        ),
        (MusicPhase::FirstAttempt, MusicEvent::Fetched(outcome)) => Some(
            after_first_attempt(outcome),
        ),
        (MusicPhase::Refreshing, MusicEvent::Refreshed) => Some(
            (MusicPhase::SecondAttempt, MusicAction::Fetch),
        ),
        (MusicPhase::SecondAttempt, MusicEvent::Fetched(outcome)) => Some(
            after_second_attempt(outcome),
        ),
        _ => None,
    }
}

/// One step of the music handler. The caller starts in `MusicPhase::Start`
/// with `MusicEvent::Begin`, performs each action it is handed and reports
/// back with the event that the action ended in, until the action is a
/// reply.
pub fn get_currently_playing_track(phase: MusicPhase, event: MusicEvent) -> (next: Option<
    (MusicPhase, MusicAction),
>)
    ensures
        next == music_step(phase, event),
{
    match (phase, event) {
        (MusicPhase::Start, MusicEvent::Begin) => Some(
            (MusicPhase::FirstAttempt, MusicAction::Fetch),
        ),
        (MusicPhase::FirstAttempt, MusicEvent::Fetched(outcome)) => {
            match outcome {
                Ok(track) => Some(
                    (MusicPhase::Finished, MusicAction::Respond(MusicReply::Track(track))),
                ),
                Err(code) => {
                    if code == STATUS_UNAUTHORIZED {
                        Some((MusicPhase::Refreshing, MusicAction::Refresh))
                    } else if code == STATUS_NO_CONTENT {
                        let idle = TrackData { is_active: false, track: None };
                        Some((MusicPhase::Finished, MusicAction::Respond(MusicReply::Track(idle))))
                    } else {
                        Some((MusicPhase::Finished, MusicAction::Respond(MusicReply::Failure)))
                    }
                },
            }
        },
        (MusicPhase::Refreshing, MusicEvent::Refreshed) => Some(
            (MusicPhase::SecondAttempt, MusicAction::Fetch),
        ),
        (MusicPhase::SecondAttempt, MusicEvent::Fetched(outcome)) => {
            match outcome {
                Ok(track) => Some(
                    (MusicPhase::Finished, MusicAction::Respond(MusicReply::Track(track))),
                ),
                Err(_) => Some(
                    (MusicPhase::Finished, MusicAction::Respond(MusicReply::Unauthorized)),
                ),
            }
        },
        _ => None,
    }
}

/// The actions of a whole run, in order, where the first fetch ends in
/// `first` and a second one, if it is made, in `second`. The run ends with
/// the first reply.
pub open spec fn music_run(first: Result<TrackData, u16>, second: Result<TrackData, u16>) -> Seq<
    MusicAction,
> {
    let opening = music_step(MusicPhase::Start, MusicEvent::Begin)->0;
    let decided = music_step(opening.0, MusicEvent::Fetched(first))->0;
    if decided.1 is Respond {
        seq![opening.1, decided.1]
    } else {
        let retried = music_step(decided.0, MusicEvent::Refreshed)->0;
        let closing = music_step(retried.0, MusicEvent::Fetched(second))->0;
        seq![opening.1, decided.1, retried.1, closing.1]
    }
}

/// Number of actions in `actions` that are a token refresh.
pub open spec fn refresh_count(actions: Seq<MusicAction>) -> nat {
    actions.filter(|action: MusicAction| action is Refresh).len()
}

/// Number of actions in `actions` that are a fetch.
pub open spec fn fetch_count(actions: Seq<MusicAction>) -> nat {
    actions.filter(|action: MusicAction| action is Fetch).len()
}

/// A finished request waits for nothing: no event moves it on.
pub proof fn finished_is_final(event: MusicEvent)
    ensures
        music_step(MusicPhase::Finished, event) is None,
{
}

/// Where the first fetch is unauthorized, the run is one fetch, one refresh,
/// one more fetch and the reply: status 200 with the track of the second
/// fetch where that succeeded, status 401 where it failed, whatever its
/// status.
pub proof fn unauthorized_refreshes_once(second: Result<TrackData, u16>)
    ensures
        music_run(Err(STATUS_UNAUTHORIZED), second) == seq![
            MusicAction::Fetch,
            MusicAction::Refresh,
            MusicAction::Fetch,
            MusicAction::Respond(
                match second {
                    Ok(track) => MusicReply::Track(track),
                    Err(_) => MusicReply::Unauthorized,
                },
            ),
        ],
        refresh_count(music_run(Err(STATUS_UNAUTHORIZED), second)) == 1,
        fetch_count(music_run(Err(STATUS_UNAUTHORIZED), second)) == 2,
        second is Ok ==> music_run(Err(STATUS_UNAUTHORIZED), second).last()
            == MusicAction::Respond(MusicReply::Track(second->Ok_0))
            && MusicReply::Track(second->Ok_0).status() == STATUS_OK,
        second is Err ==> music_run(Err(STATUS_UNAUTHORIZED), second).last()
            == MusicAction::Respond(MusicReply::Unauthorized)
            && MusicReply::Unauthorized.status() == STATUS_UNAUTHORIZED,
{
    let run = music_run(Err(STATUS_UNAUTHORIZED), second);
    let refreshes = |action: MusicAction| action is Refresh;
    let fetches = |action: MusicAction| action is Fetch;
    count_of_four(run, refreshes);
    count_of_four(run, fetches);
}

/// Where the first fetch finds the player idle, the run is one fetch and the
/// reply: no refresh, status 200, nothing active and no track.
pub proof fn idle_player_is_answered_at_once(second: Result<TrackData, u16>)
    ensures
        music_run(Err(STATUS_NO_CONTENT), second) == seq![
            MusicAction::Fetch,
            MusicAction::Respond(MusicReply::Track(TrackData { is_active: false, track: None })),
        ],
        refresh_count(music_run(Err(STATUS_NO_CONTENT), second)) == 0,
        fetch_count(music_run(Err(STATUS_NO_CONTENT), second)) == 1,
        MusicReply::Track(TrackData { is_active: false, track: None }).status() == STATUS_OK,
{
    let run = music_run(Err(STATUS_NO_CONTENT), second);
    let refreshes = |action: MusicAction| action is Refresh;
    let fetches = |action: MusicAction| action is Fetch;
    count_of_two(run, refreshes);
    count_of_two(run, fetches);
}

/// A refresh is made only where the first fetch was unauthorized, and a
/// second fetch only after a refresh.
pub proof fn refresh_only_when_unauthorized(
    first: Result<TrackData, u16>,
    second: Result<TrackData, u16>,
)
    requires
        first != Err::<TrackData, u16>(STATUS_UNAUTHORIZED),
    ensures
        music_run(first, second).len() == 2,
        music_run(first, second)[0] == MusicAction::Fetch,
        music_run(first, second)[1] is Respond,
        refresh_count(music_run(first, second)) == 0,
        fetch_count(music_run(first, second)) == 1,
{
    let run = music_run(first, second);
    let refreshes = |action: MusicAction| action is Refresh;
    let fetches = |action: MusicAction| action is Fetch;
    count_of_two(run, refreshes);
    count_of_two(run, fetches);
}

/// How many of two actions meet `wanted`.
proof fn count_of_two(actions: Seq<MusicAction>, wanted: spec_fn(MusicAction) -> bool)
    requires
        actions.len() == 2,
    ensures
        actions.filter(wanted).len() == (if wanted(actions[0]) {
            1nat
        } else {
            0
        }) + (if wanted(actions[1]) {
            1nat
        } else {
            0
        }),
{
    reveal_with_fuel(Seq::filter, 3);
    assert(actions.drop_last().drop_last() =~= Seq::<MusicAction>::empty());
}

/// How many of four actions meet `wanted`.
proof fn count_of_four(actions: Seq<MusicAction>, wanted: spec_fn(MusicAction) -> bool)
    requires
        actions.len() == 4,
    ensures
        actions.filter(wanted).len() == (if wanted(actions[0]) {
            1nat
        } else {
            0
        }) + (if wanted(actions[1]) {
            1nat
        } else {
            0
        }) + (if wanted(actions[2]) {
            1nat
        } else {
            0
        }) + (if wanted(actions[3]) {
            1nat
        } else {
            0
        }),
{
    let front = actions.drop_last().drop_last();
    count_of_two(front, wanted);
    reveal_with_fuel(Seq::filter, 3);
    assert(actions.drop_last().drop_last() == front);
    assert(actions.drop_last().last() == actions[2]);
    assert(front[0] == actions[0] && front[1] == actions[1]);
}

} // verus!
