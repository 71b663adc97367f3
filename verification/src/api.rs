//! The response envelope of the Subsonic protocol, the errors of a run, the
//! classification of what a request came to, and the checks that every
//! envelope has to pass before its payload is read.

use vstd::prelude::*;
use vstd::string::*;

use crate::request::{
    decimal, decimal_text, query_start, strip_query, without_query, without_query_has_no_query,
};

verus! {

/// Seconds that one request may take.
pub const REQUEST_TIMEOUT_SECS: u64 = 5;

/// Seconds that connecting may take.
pub const CONNECT_TIMEOUT_SECS: u64 = 5;

/// Seconds that a request may take in all, whatever else is set.
pub const TOTAL_TIMEOUT_SECS: u64 = 30;

/// Seconds after which an idle connection is closed.
pub const POOL_IDLE_TIMEOUT_SECS: u64 = 90;

/// Idle connections kept for each host.
pub const POOL_MAX_IDLE_PER_HOST: usize = 10;

/// The protocol version that every request names.
pub fn api_version() -> (version: &'static str)
    ensures
        version@ == "1.14.0"@,
{
    "1.14.0"
}

/// The name by which the client makes itself known to the server.
pub fn user_agent() -> (agent: &'static str)
    ensures
        agent@ == "graplsub/0.1.0"@,
{
    "graplsub/0.1.0"
}

/// A playlist: its id, and the name it is looked up by.
#[derive(Debug, Clone, PartialEq, Eq)]
pub struct Playlist {
    pub id: String,
    pub name: String,
}

/// The playlists of a listing. `playlist` is absent where the server has none.
#[derive(Debug, Clone, PartialEq, Eq)]
pub struct Playlists {
    pub playlist: Option<Vec<Playlist>>,
}

/// A song, known by its id alone.
#[derive(Debug, Clone, PartialEq, Eq)]
pub struct Song {
    pub id: String,
}

/// An album. `song` is present only where the album was asked for by itself.
#[derive(Debug, Clone, PartialEq, Eq)]
pub struct Album {
    pub id: String,
    pub song: Option<Vec<Song>>,
}

/// The albums of a listing. `album` is absent where the listing is empty.
#[derive(Debug, Clone, PartialEq, Eq)]
pub struct AlbumList {
    pub album: Option<Vec<Album>>,
}

/// The envelope of every response. Which payload is expected depends on the
/// request; the envelope itself allows any.
#[derive(Debug, Clone, PartialEq, Eq)]
pub struct SubsonicResponse {
    pub album: Option<Album>,
    pub album_list: Option<AlbumList>,
    pub playlist: Option<Playlist>,
    pub playlists: Option<Playlists>,
    pub status: String,
}

/// The document that wraps the envelope.
#[derive(Debug, Clone, PartialEq, Eq)]
pub struct TopLevel {
    pub subsonic_response: SubsonicResponse,
}

pub struct PlaylistView {
    pub id: Seq<char>,
    pub name: Seq<char>,
}

pub struct PlaylistsView {
    pub playlist: Option<Seq<PlaylistView>>,
}

pub struct SongView {
    pub id: Seq<char>,
}

pub struct AlbumView {
    pub id: Seq<char>,
    pub song: Option<Seq<SongView>>,
}

pub struct AlbumListView {
    pub album: Option<Seq<AlbumView>>,
}

pub struct SubsonicResponseView {
    pub album: Option<AlbumView>,
    pub album_list: Option<AlbumListView>,
    pub playlist: Option<PlaylistView>,
    pub playlists: Option<PlaylistsView>,
    pub status: Seq<char>,
}

pub struct TopLevelView {
    pub subsonic_response: SubsonicResponseView,
}

impl View for Playlist {
    type V = PlaylistView;

    open spec fn view(&self) -> PlaylistView {
        PlaylistView { id: self.id@, name: self.name@ }
    }
}

impl View for Playlists {
    type V = PlaylistsView;

    open spec fn view(&self) -> PlaylistsView {
        PlaylistsView {
            playlist: match self.playlist {
                Some(lists) => Some(Seq::new(lists@.len(), |i: int| lists@[i]@)),
                None => None,
            },
        }
    }
}

impl View for Song {
    type V = SongView;

    open spec fn view(&self) -> SongView {
        SongView { id: self.id@ }
    }
}

impl View for Album {
    type V = AlbumView;

    open spec fn view(&self) -> AlbumView {
        AlbumView {
            id: self.id@,
            song: match self.song {
                Some(songs) => Some(Seq::new(songs@.len(), |i: int| songs@[i]@)),
                None => None,
            },
        }
    }
}

impl View for AlbumList {
    type V = AlbumListView;

    open spec fn view(&self) -> AlbumListView {
        AlbumListView {
            album: match self.album {
                Some(albums) => Some(Seq::new(albums@.len(), |i: int| albums@[i]@)),
                None => None,
            },
        }
    }
}

impl View for SubsonicResponse {
    type V = SubsonicResponseView;

    open spec fn view(&self) -> SubsonicResponseView {
        SubsonicResponseView {
            album: match self.album {
                Some(album) => Some(album@),
                None => None,
            },
            album_list: match self.album_list {
                Some(list) => Some(list@),
                None => None,
            },
            playlist: match self.playlist {
                Some(playlist) => Some(playlist@),
                None => None,
            },
            playlists: match self.playlists {
                Some(lists) => Some(lists@),
                None => None,
            },
            status: self.status@,
        }
    }
}

impl View for TopLevel {
    type V = TopLevelView;

    open spec fn view(&self) -> TopLevelView {
        TopLevelView { subsonic_response: self.subsonic_response@ }
    }
}

/// An envelope that cannot be used. Each variant carries the body as it was
/// received.
#[derive(Debug, Clone, PartialEq, Eq)]
pub enum RespParseError {
    MissingAlbum { response: String },
    MissingAlbumList { response: String },
    MissingPlaylist { response: String },
    MissingPlaylists { response: String },
    ResponseNotOk { response: String },
}

pub enum RespParseErrorView {
    MissingAlbum { response: Seq<char> },
    MissingAlbumList { response: Seq<char> },
    MissingPlaylist { response: Seq<char> },
    MissingPlaylists { response: Seq<char> },
    ResponseNotOk { response: Seq<char> },
}

impl View for RespParseError {
    type V = RespParseErrorView;

    open spec fn view(&self) -> RespParseErrorView {
        match self {
            RespParseError::MissingAlbum { response } => RespParseErrorView::MissingAlbum {
                response: response@,
            },
            RespParseError::MissingAlbumList { response } => RespParseErrorView::MissingAlbumList {
                response: response@,
            },
            RespParseError::MissingPlaylist { response } => RespParseErrorView::MissingPlaylist {
                response: response@,
            },
            RespParseError::MissingPlaylists { response } => RespParseErrorView::MissingPlaylists {
                response: response@,
            },
            RespParseError::ResponseNotOk { response } => RespParseErrorView::ResponseNotOk {
                response: response@,
            },
        }
    }
}

/// Whatever ends a run.
#[derive(Debug, Clone, PartialEq, Eq)]
pub enum Error {
    /// No response, or none that could be read: DNS, connect, timeout.
    Network { detail: String },
    /// The server answered 404. `resource` is the URL without its query.
    NotFound { resource: String },
    /// The server answered with another status than 200 or 404.
    Http { status: u16, url: String },
    /// The envelope did not pass its checks.
    RespParse(RespParseError),
    /// The body is no response document. `detail` says where it went wrong.
    SerdeError { response: String, detail: String },
}

pub enum ErrorView {
    Network { detail: Seq<char> },
    NotFound { resource: Seq<char> },
    Http { status: u16, url: Seq<char> },
    RespParse(RespParseErrorView),
    SerdeError { response: Seq<char>, detail: Seq<char> },
}

impl View for Error {
    type V = ErrorView;

    open spec fn view(&self) -> ErrorView {
        match self {
            Error::Network { detail } => ErrorView::Network { detail: detail@ },
            Error::NotFound { resource } => ErrorView::NotFound { resource: resource@ },
            Error::Http { status, url } => ErrorView::Http { status: *status, url: url@ },
            Error::RespParse(inner) => ErrorView::RespParse(inner@),
            Error::SerdeError { response, detail } => ErrorView::SerdeError {
                response: response@,
                detail: detail@,
            },
        }
    }
}

/// The message of an envelope error: what is wrong, then the body.
pub open spec fn parse_message(error: RespParseErrorView) -> Seq<char> {
    match error {
        RespParseErrorView::MissingAlbum { response } => "Subsonic response was missing an album: "@
            + response,
        RespParseErrorView::MissingAlbumList { response } =>
            "Subsonic response was missing an albumList: "@ + response,
        RespParseErrorView::MissingPlaylist { response } =>
            "Subsonic response was missing a playlist: "@ + response,
        RespParseErrorView::MissingPlaylists { response } =>
            "Subsonic response was missing a playlists: "@ + response,
        RespParseErrorView::ResponseNotOk { response } =>
            "Subsonic response did not have 'ok' status: "@ + response,
    }
}

/// The message of an error, as it is shown to the user.
pub open spec fn error_message(error: ErrorView) -> Seq<char> {
    match error {
        ErrorView::Network { detail } => "Network error: "@ + detail,
        ErrorView::NotFound { resource } => "Resource not found: "@ + resource,
        ErrorView::Http { status, url } => "HTTP error: status "@ + decimal(status as nat)
            + " for url ("@ + url + ")"@,
        ErrorView::RespParse(inner) => "Response parsing error: "@ + parse_message(inner),
        ErrorView::SerdeError { response, detail } => detail,
    }
}

impl RespParseError {
    /// The text that tells the user of this error.
    pub fn message(&self) -> (text: String)
        ensures
            text@ == parse_message(self@),
    {
        match self {
            RespParseError::MissingAlbum { response } => {
                let mut text = String::from_str("Subsonic response was missing an album: ");
                text.append(response.as_str());
                text
            },
            RespParseError::MissingAlbumList { response } => {
                let mut text = String::from_str("Subsonic response was missing an albumList: ");
                text.append(response.as_str());
                text
            },
            RespParseError::MissingPlaylist { response } => {
                let mut text = String::from_str("Subsonic response was missing a playlist: ");
                text.append(response.as_str());
                text
            },
            RespParseError::MissingPlaylists { response } => {
                let mut text = String::from_str("Subsonic response was missing a playlists: ");
                text.append(response.as_str());
                text
            },
            RespParseError::ResponseNotOk { response } => {
                let mut text = String::from_str("Subsonic response did not have 'ok' status: ");
                text.append(response.as_str());
                text
            },
        }
    }
}

impl Error {
    /// The text that tells the user of this error.
    pub fn message(&self) -> (text: String)
        ensures
            text@ == error_message(self@),
    {
        match self {
            Error::Network { detail } => {
                let mut text = String::from_str("Network error: ");
                text.append(detail.as_str());
                text
            },
            Error::NotFound { resource } => {
                let mut text = String::from_str("Resource not found: ");
                text.append(resource.as_str());
                text
            },
            Error::Http { status, url } => {
                let code = decimal_text(*status);
                let mut text = String::from_str("HTTP error: status ");
                text.append(code.as_str());
                text.append(" for url (");
                text.append(url.as_str());
                text.append(")");
                text
            },
            Error::RespParse(inner) => {
                let reason = inner.message();
                let mut text = String::from_str("Response parsing error: ");
                text.append(reason.as_str());
                text
            },
            Error::SerdeError { response, detail } => detail.clone(),
        }
    }
}

/// What the transport saw of one request, before any of it is judged.
#[derive(Debug, Clone, PartialEq, Eq)]
pub enum Fetched {
    /// No response came.
    Unreachable { detail: String },
    /// A response came, and reading its body failed.
    Unread { status: u16, url: String, detail: String },
    /// A response came whose body is no response document.
    Malformed { status: u16, url: String, text: String, detail: String },
    /// A response came whose body is the document `document`.
    Document { status: u16, url: String, text: String, document: TopLevel },
}

pub enum FetchedView {
    Unreachable { detail: Seq<char> },
    Unread { status: u16, url: Seq<char>, detail: Seq<char> },
    Malformed { status: u16, url: Seq<char>, text: Seq<char>, detail: Seq<char> },
    Document { status: u16, url: Seq<char>, text: Seq<char>, document: TopLevelView },
}

impl View for Fetched {
    type V = FetchedView;

    open spec fn view(&self) -> FetchedView {
        match self {
            Fetched::Unreachable { detail } => FetchedView::Unreachable { detail: detail@ },
            Fetched::Unread { status, url, detail } => FetchedView::Unread {
                status: *status,
                url: url@,
                detail: detail@,
            },
            Fetched::Malformed { status, url, text, detail } => FetchedView::Malformed {
                status: *status,
                url: url@,
                text: text@,
                detail: detail@,
            },
            Fetched::Document { status, url, text, document } => FetchedView::Document {
                status: *status,
                url: url@,
                text: text@,
                document: document@,
            },
        }
    }
}

/// What a request came to: the document with its text, or the error.
pub type Reply = Result<(TopLevel, String), Error>;

pub type ReplyView = Result<(TopLevelView, Seq<char>), ErrorView>;

pub open spec fn reply_view(reply: Reply) -> ReplyView {
    match reply {
        Ok((document, text)) => Ok((document@, text@)),
        Err(error) => Err(error@),
    }
}

/// The reply that `fetched` stands for.
///
/// Status 200 gives the document, or the reason why there is none. Status 404
/// gives `NotFound` with the URL stripped of its query, whatever the body
/// was. Any other status gives `Http`.
pub open spec fn classify(fetched: FetchedView) -> ReplyView {
    match fetched {
        FetchedView::Unreachable { detail } => Err(ErrorView::Network { detail }),
        FetchedView::Unread { status, url, detail } => if status == 200 {
            Err(ErrorView::Network { detail })
        } else {
            Err(refusal(status, url))
        },
        FetchedView::Malformed { status, url, text, detail } => if status == 200 {
            Err(ErrorView::SerdeError { response: text, detail })
        } else {
            Err(refusal(status, url))
        },
        FetchedView::Document { status, url, text, document } => if status == 200 {
            Ok((document, text))
        } else {
            Err(refusal(status, url))
        },
    }
}

/// The error for a response whose status is not 200.
pub open spec fn refusal(status: u16, url: Seq<char>) -> ErrorView {
    if status == 404 {
        ErrorView::NotFound { resource: without_query(url) }
    } else {
        ErrorView::Http { status, url }
    }
}

fn refuse(status: u16, url: String) -> (error: Error)
    ensures
        error@ == refusal(status, url@),
{
    if status == 404 {
        Error::NotFound { resource: strip_query(url.as_str()) }
    } else {
        Error::Http { status, url }
    }
}

/// Judges what the transport saw of one request.
pub fn get(fetched: Fetched) -> (reply: Reply)
    ensures
        reply_view(reply) == classify(fetched@),
{
    match fetched {
        Fetched::Unreachable { detail } => Err(Error::Network { detail }),
        Fetched::Unread { status, url, detail } => {
            if status == 200 {
                Err(Error::Network { detail })
            } else {
                Err(refuse(status, url))
            }
        },
        Fetched::Malformed { status, url, text, detail } => {
            if status == 200 {
                Err(Error::SerdeError { response: text, detail })
            } else {
                Err(refuse(status, url))
            }
        },
        Fetched::Document { status, url, text, document } => {
            if status == 200 {
                Ok((document, text))
            } else {
                Err(refuse(status, url))
            }
        },
    }
}

/// A response with status 404 is reported as not found, never as a network
/// error, and the resource it names has no query: none of the parameters that
/// carry the user, the token and the salt.
pub proof fn not_found_names_no_query(fetched: FetchedView)
    requires
        match fetched {
            FetchedView::Unreachable { detail } => false,
            FetchedView::Unread { status, url, detail } => status == 404,
            FetchedView::Malformed { status, url, text, detail } => status == 404,
            FetchedView::Document { status, url, text, document } => status == 404,
        },
    ensures
        classify(fetched) matches Err(ErrorView::NotFound { resource }) && query_start(resource)
            is None,
{
    match fetched {
        FetchedView::Unreachable { detail } => {},
        FetchedView::Unread { status, url, detail } => {
            without_query_has_no_query(url);
        },
        FetchedView::Malformed { status, url, text, detail } => {
            without_query_has_no_query(url);
        },
        FetchedView::Document { status, url, text, document } => {
            without_query_has_no_query(url);
        },
    }
}

/// The payload that a request expects in its envelope.
#[derive(Debug, Clone, Copy, PartialEq, Eq, Structural)]
pub enum Payload {
    Album,
    AlbumList,
    Playlist,
    Playlists,
    /// The envelope alone, as for a delete or an update.
    Nothing,
}

/// Whether the envelope reports success.
pub open spec fn status_ok(resp: TopLevelView) -> bool {
    resp.subsonic_response.status == "ok"@
}

/// Whether the payload `expected` is there. What the payload holds is not
/// looked at: a wrapper without entries counts as present.
pub open spec fn has_payload(resp: TopLevelView, expected: Payload) -> bool {
    match expected {
        Payload::Album => resp.subsonic_response.album is Some,
        Payload::AlbumList => resp.subsonic_response.album_list is Some,
        Payload::Playlist => resp.subsonic_response.playlist is Some,
        Payload::Playlists => resp.subsonic_response.playlists is Some,
        Payload::Nothing => true,
    }
}

/// The error for an envelope that reports success and lacks `expected`.
pub open spec fn missing(expected: Payload, json: Seq<char>) -> RespParseErrorView
    recommends
        expected != Payload::Nothing,
{
    match expected {
        Payload::Album => RespParseErrorView::MissingAlbum { response: json },
        Payload::AlbumList => RespParseErrorView::MissingAlbumList { response: json },
        Payload::Playlist => RespParseErrorView::MissingPlaylist { response: json },
        _ => RespParseErrorView::MissingPlaylists { response: json },
    }
}

/// The judgement on an envelope for a request that expects `expected`:
/// first the status, and only for status `ok` the payload.
pub open spec fn verdict(resp: TopLevelView, json: Seq<char>, expected: Payload) -> Result<
    (),
    RespParseErrorView,
> {
    if !status_ok(resp) {
        Err(RespParseErrorView::ResponseNotOk { response: json })
    } else if !has_payload(resp, expected) {
        Err(missing(expected, json))
    } else {
        Ok(())
    }
}

pub open spec fn check_view(checked: Result<(), RespParseError>) -> Result<(), RespParseErrorView> {
    match checked {
        Ok(()) => Ok(()),
        Err(error) => Err(error@),
    }
}

/// The error that `reply` ends the run with when it is awaited for a request
/// that expects `expected`, if it does: the error of the transport, or that
/// of the envelope's checks.
pub open spec fn failure(reply: ReplyView, expected: Payload) -> Option<ErrorView> {
    match reply {
        Err(error) => Some(error),
        Ok((resp, json)) => match verdict(resp, json, expected) {
            Err(error) => Some(ErrorView::RespParse(error)),
            Ok(_) => None,
        },
    }
}

/// The check that every envelope has to pass: its status is `ok`.
pub fn check_generic_response(resp: &TopLevel, json: &str) -> (checked: Result<(), RespParseError>)
    ensures
        check_view(checked) == verdict(resp@, json@, Payload::Nothing),
{
    let ok = String::from_str("ok");
    if resp.subsonic_response.status != ok {
        return Err(RespParseError::ResponseNotOk { response: String::from_str(json) });
    }
    Ok(())
}

/// Checks an envelope for a request that expects `expected`.
pub fn check_response(resp: &TopLevel, json: &str, expected: Payload) -> (checked: Result<
    (),
    RespParseError,
>)
    ensures
        check_view(checked) == verdict(resp@, json@, expected),
{
    match check_generic_response(resp, json) {
        Err(error) => {
            return Err(error);
        },
        Ok(()) => {},
    }
    match expected {
        Payload::Album => {
            if resp.subsonic_response.album.is_none() {
                return Err(RespParseError::MissingAlbum { response: String::from_str(json) });
            }
        },
        Payload::AlbumList => {
            if resp.subsonic_response.album_list.is_none() {
                return Err(RespParseError::MissingAlbumList { response: String::from_str(json) });
            }
        },
        Payload::Playlist => {
            if resp.subsonic_response.playlist.is_none() {
                return Err(RespParseError::MissingPlaylist { response: String::from_str(json) });
            }
        },
        Payload::Playlists => {
            if resp.subsonic_response.playlists.is_none() {
                return Err(RespParseError::MissingPlaylists { response: String::from_str(json) });
            }
        },
        Payload::Nothing => {},
    }
    Ok(())
}

/// An envelope whose status is anything but `ok` is refused as not ok,
/// whatever it carries and whatever was expected.
pub proof fn not_ok_is_refused(resp: TopLevelView, json: Seq<char>, expected: Payload)
    requires
        resp.subsonic_response.status != "ok"@,
    ensures
        verdict(resp, json, expected) == Err::<(), RespParseErrorView>(
            RespParseErrorView::ResponseNotOk { response: json },
        ),
{
}

/// An envelope with status `ok` that lacks the expected payload is refused
/// with the error of that payload, whichever of the four it is.
pub proof fn missing_payload_is_refused(resp: TopLevelView, json: Seq<char>)
    requires
        resp.subsonic_response.status == "ok"@,
    ensures
        resp.subsonic_response.album is None ==> verdict(resp, json, Payload::Album) == Err::<
            (),
            RespParseErrorView,
        >(RespParseErrorView::MissingAlbum { response: json }),
        resp.subsonic_response.album_list is None ==> verdict(resp, json, Payload::AlbumList)
            == Err::<(), RespParseErrorView>(
            RespParseErrorView::MissingAlbumList { response: json },
        ),
        resp.subsonic_response.playlist is None ==> verdict(resp, json, Payload::Playlist)
            == Err::<(), RespParseErrorView>(
            RespParseErrorView::MissingPlaylist { response: json },
        ),
        resp.subsonic_response.playlists is None ==> verdict(resp, json, Payload::Playlists)
            == Err::<(), RespParseErrorView>(
            RespParseErrorView::MissingPlaylists { response: json },
        ),
{
}

/// An envelope with status `ok` whose expected payload is there is accepted,
/// whatever the payload holds.
pub proof fn present_payload_is_accepted(resp: TopLevelView, json: Seq<char>, expected: Payload)
    requires
        resp.subsonic_response.status == "ok"@,
        has_payload(resp, expected),
    ensures
        verdict(resp, json, expected) is Ok,
{
}

/// A listing that is there and lists nothing is accepted: the wrapper may
/// lack its sequence, or hold an empty one.
pub proof fn empty_listing_is_accepted(resp: TopLevelView, json: Seq<char>)
    requires
        resp.subsonic_response.status == "ok"@,
    ensures
        resp.subsonic_response.playlists == Some(PlaylistsView { playlist: None }) ==> verdict(
            resp,
            json,
            Payload::Playlists,
        ) is Ok,
        resp.subsonic_response.playlists == Some(
            PlaylistsView { playlist: Some(Seq::<PlaylistView>::empty()) },
        ) ==> verdict(resp, json, Payload::Playlists) is Ok,
        resp.subsonic_response.album_list == Some(AlbumListView { album: None }) ==> verdict(
            resp,
            json,
            Payload::AlbumList,
        ) is Ok,
        resp.subsonic_response.album_list == Some(
            AlbumListView { album: Some(Seq::<AlbumView>::empty()) },
        ) ==> verdict(resp, json, Payload::AlbumList) is Ok,
        forall|id: Seq<char>|
            resp.subsonic_response.album == Some(AlbumView { id, song: None }) ==> verdict(
                resp,
                json,
                Payload::Album,
            ) is Ok,
{
}

} // verus!
