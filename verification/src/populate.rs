//! The steps by which the songs of randomly chosen albums are appended to a
//! playlist: ask for the albums, then for each album in turn ask for its
//! songs and append each of them, one request at a time.

use vstd::prelude::*;
use vstd::string::*;

use crate::album::{get_url, random_list_url};
use crate::api::{
    check_view, failure, reply_view, verdict, Album, AlbumListView, AlbumView, Error, ErrorView,
    Payload, Reply, ReplyView, RespParseError, Song, TopLevel, TopLevelView,
};
use crate::config::{Config, ConfigView};
use crate::playlist::update_url;

verus! {

/// The request whose reply is awaited while the playlist is filled.
#[derive(Debug, Clone, Copy, PartialEq, Eq, Structural)]
pub enum Phase {
    /// The random album list.
    Sampling,
    /// One album with its songs.
    Fetching,
    /// The appending of one song.
    Adding,
}

/// What is left to do while a reply is awaited.
///
/// `albums` holds the ids of the sampled albums and `next_album` counts
/// those that were asked for; `songs` and `next_song` do the same for the
/// songs of the album that was fetched last.
#[derive(Debug, Clone, PartialEq, Eq)]
pub struct Pending {
    pub phase: Phase,
    pub playlist_id: String,
    pub albums: Vec<String>,
    pub next_album: usize,
    pub songs: Vec<String>,
    pub next_song: usize,
}

/// A [`Pending`] as plain values: the phase, the playlist, and the ids of the
/// albums and songs that no request was sent for yet, in order.
pub struct PendingView {
    pub phase: Phase,
    pub playlist_id: Seq<char>,
    pub albums: Seq<Seq<char>>,
    pub songs: Seq<Seq<char>>,
}

/// The texts of `ids` from index `from` on; none where `from` is past the
/// end.
pub open spec fn left(ids: Seq<String>, from: usize) -> Seq<Seq<char>> {
    if from <= ids.len() {
        Seq::new((ids.len() - from) as nat, |i: int| ids[from + i]@)
    } else {
        Seq::empty()
    }
}

impl View for Pending {
    type V = PendingView;

    open spec fn view(&self) -> PendingView {
        PendingView {
            phase: self.phase,
            playlist_id: self.playlist_id@,
            albums: left(self.albums@, self.next_album),
            songs: left(self.songs@, self.next_song),
        }
    }
}

/// What is to happen next while the playlist is filled.
#[derive(Debug, Clone, PartialEq, Eq)]
pub enum Turn {
    /// Send `url`, and come back with its reply and `state`.
    Ask { state: Pending, url: String },
    /// Every song of every album was appended.
    Done,
    /// The reply awaited in `phase` ended the run with `error`.
    Stop { phase: Phase, error: Error },
}

pub enum TurnView {
    Ask { state: PendingView, url: Seq<char> },
    Done,
    Stop { phase: Phase, error: ErrorView },
}

impl View for Turn {
    type V = TurnView;

    open spec fn view(&self) -> TurnView {
        match self {
            Turn::Ask { state, url } => TurnView::Ask { state: state@, url: url@ },
            Turn::Done => TurnView::Done,
            Turn::Stop { phase, error } => TurnView::Stop { phase: *phase, error: error@ },
        }
    }
}

/// The payload that the reply awaited in `phase` has to carry.
pub open spec fn expected_in(phase: Phase) -> Payload {
    match phase {
        Phase::Sampling => Payload::AlbumList,
        Phase::Fetching => Payload::Album,
        Phase::Adding => Payload::Nothing,
    }
}

/// The ids of the albums of a listing, in the order of the server. A listing
/// without a sequence lists nothing.
pub open spec fn album_ids(resp: TopLevelView) -> Seq<Seq<char>> {
    match resp.subsonic_response.album_list {
        Some(AlbumListView { album: Some(albums) }) => Seq::new(
            albums.len(),
            |i: int| albums[i].id,
        ),
        _ => Seq::empty(),
    }
}

/// The ids of the songs of the album in `resp`, in the order of the server.
/// An album without a sequence has no songs.
pub open spec fn song_ids(resp: TopLevelView) -> Seq<Seq<char>> {
    match resp.subsonic_response.album {
        Some(AlbumView { id, song: Some(songs) }) => Seq::new(songs.len(), |i: int| songs[i].id),
        _ => Seq::empty(),
    }
}

/// The next request when the albums `albums` and, of the album at hand, the
/// songs `songs` are left: the first song is appended; where no song is
/// left, the first album is fetched; where neither is left, the run is done.
pub open spec fn proceed(
    playlist_id: Seq<char>,
    albums: Seq<Seq<char>>,
    songs: Seq<Seq<char>>,
    conf: ConfigView,
    api_ver: Seq<char>,
) -> TurnView {
    if songs.len() > 0 {
        TurnView::Ask {
            state: PendingView {
                phase: Phase::Adding,
                playlist_id,
                albums,
                songs: songs.drop_first(),
            },
            url: update_url(conf, api_ver, playlist_id, songs[0]),
        }
    } else if albums.len() > 0 {
        TurnView::Ask {
            state: PendingView {
                phase: Phase::Fetching,
                playlist_id,
                albums: albums.drop_first(),
                songs: Seq::empty(),
            },
            url: get_url(conf, api_ver, albums[0]),
        }
    } else {
        TurnView::Done
    }
}

/// What follows the reply `reply` awaited in the state `state`.
///
/// A reply that fails stops the run. A good album list sets the albums that
/// are left; a good album sets the songs that are left; a good appending
/// changes neither. Then the run goes on as [`proceed`] says.
pub open spec fn populate_turn(
    state: PendingView,
    reply: ReplyView,
    conf: ConfigView,
    api_ver: Seq<char>,
) -> TurnView {
    match failure(reply, expected_in(state.phase)) {
        Some(error) => TurnView::Stop { phase: state.phase, error },
        None => {
            let resp = reply->Ok_0.0;
            match state.phase {
                Phase::Sampling => proceed(
                    state.playlist_id,
                    album_ids(resp),
                    Seq::empty(),
                    conf,
                    api_ver,
                ),
                Phase::Fetching => proceed(
                    state.playlist_id,
                    state.albums,
                    song_ids(resp),
                    conf,
                    api_ver,
                ),
                Phase::Adding => proceed(
                    state.playlist_id,
                    state.albums,
                    state.songs,
                    conf,
                    api_ver,
                ),
            }
        },
    }
}

/// The requests that are sent from `turn` on when the replies come as
/// `replies` has them, one for each request, for as long as they last.
pub open spec fn requests(
    turn: TurnView,
    replies: Seq<ReplyView>,
    conf: ConfigView,
    api_ver: Seq<char>,
) -> Seq<Seq<char>>
    decreases replies.len(),
{
    match turn {
        TurnView::Ask { state, url } => if replies.len() == 0 {
            seq![url]
        } else {
            seq![url] + requests(
                populate_turn(state, replies[0], conf, api_ver),
                replies.drop_first(),
                conf,
                api_ver,
            )
        },
        _ => Seq::empty(),
    }
}

fn check_in(phase: Phase, resp: &TopLevel, json: &str) -> (checked: Result<(), RespParseError>)
    ensures
        check_view(checked) == verdict(resp@, json@, expected_in(phase)),
{
    match phase {
        Phase::Sampling => crate::album::check_list_response(resp, json),
        Phase::Fetching => crate::album::check_get_response(resp, json),
        Phase::Adding => crate::playlist::check_update_response(resp, json),
    }
}

fn ids_of_albums(albums: &Vec<Album>) -> (ids: Vec<String>)
    ensures
        left(ids@, 0) == Seq::new(albums@.len(), |i: int| albums@[i]@.id),
{
    let mut ids: Vec<String> = Vec::new();
    let mut at: usize = 0;
    while at < albums.len()
        invariant
            at <= albums@.len(),
            ids@.len() == at,
            forall|i: int| 0 <= i < at ==> (#[trigger] ids@[i])@ == albums@[i].id@,
        decreases albums@.len() - at,
    {
        ids.push(albums[at].id.clone());
        at += 1;
    }
    assert(left(ids@, 0) =~= Seq::new(albums@.len(), |i: int| albums@[i]@.id));
    ids
}

fn ids_of_songs(songs: &Vec<Song>) -> (ids: Vec<String>)
    ensures
        left(ids@, 0) == Seq::new(songs@.len(), |i: int| songs@[i]@.id),
{
    let mut ids: Vec<String> = Vec::new();
    let mut at: usize = 0;
    while at < songs.len()
        invariant
            at <= songs@.len(),
            ids@.len() == at,
            forall|i: int| 0 <= i < at ==> (#[trigger] ids@[i])@ == songs@[i].id@,
        decreases songs@.len() - at,
    {
        ids.push(songs[at].id.clone());
        at += 1;
    }
    assert(left(ids@, 0) =~= Seq::new(songs@.len(), |i: int| songs@[i]@.id));
    ids
}

/// Chooses the next request for what `state` has left.
fn advance(state: Pending, conf: &Config, api_ver: &str) -> (turn: Turn)
    ensures
        turn@ == proceed(state@.playlist_id, state@.albums, state@.songs, conf@, api_ver@),
{
    let mut state = state;
    let ghost before = state@;
    if state.next_song < state.songs.len() {
        let url = crate::playlist::update(
            conf,
            api_ver,
            state.playlist_id.as_str(),
            state.songs[state.next_song].as_str(),
        );
        state.next_song = state.next_song + 1;
        state.phase = Phase::Adding;
        assert(state@.songs =~= before.songs.drop_first());
        Turn::Ask { state, url }
    } else if state.next_album < state.albums.len() {
        let url = crate::album::get(conf, api_ver, state.albums[state.next_album].as_str());
        state.next_album = state.next_album + 1;
        state.songs = Vec::new();
        state.next_song = 0;
        state.phase = Phase::Fetching;
        assert(state@.albums =~= before.albums.drop_first());
        assert(state@.songs =~= Seq::<Seq<char>>::empty());
        Turn::Ask { state, url }
    } else {
        assert(before.songs.len() == 0);
        assert(before.albums.len() == 0);
        Turn::Done
    }
}

/// The first step: ask for a random list of albums. The songs will go to the
/// playlist `playlist_id`.
pub fn begin(playlist_id: String, conf: &Config, api_ver: &str) -> (turn: Turn)
    ensures
        turn@ == (TurnView::Ask {
            state: PendingView {
                phase: Phase::Sampling,
                playlist_id: playlist_id@,
                albums: Seq::empty(),
                songs: Seq::empty(),
            },
            url: random_list_url(conf@, api_ver@),
        }),
{
    let state = Pending {
        phase: Phase::Sampling,
        playlist_id,
        albums: Vec::new(),
        next_album: 0,
        songs: Vec::new(),
        next_song: 0,
    };
    assert(state@.albums =~= Seq::<Seq<char>>::empty());
    assert(state@.songs =~= Seq::<Seq<char>>::empty());
    Turn::Ask { state, url: crate::album::random_list(conf, api_ver) }
}

/// One step of filling the playlist: takes the reply that `state` was
/// waiting for and says what is to happen next.
///
/// Albums are fetched in the order of the list, and the songs of each are
/// appended in their order before the next album is fetched. The first reply
/// that fails ends the run.
pub fn populate(state: Pending, reply: Reply, conf: &Config, api_ver: &str) -> (turn: Turn)
    ensures
        turn@ == populate_turn(state@, reply_view(reply), conf@, api_ver@),
{
    let mut state = state;
    let (resp, json) = match reply {
        Err(error) => {
            return Turn::Stop { phase: state.phase, error };
        },
        Ok(pair) => pair,
    };
    match check_in(state.phase, &resp, json.as_str()) {
        Err(error) => {
            return Turn::Stop { phase: state.phase, error: Error::RespParse(error) };
        },
        Ok(()) => {},
    }
    match state.phase {
        Phase::Sampling => {
            let ids = match &resp.subsonic_response.album_list {
                Some(list) => match &list.album {
                    Some(albums) => ids_of_albums(albums),
                    None => Vec::new(),
                },
                None => Vec::new(),
            };
            assert(left(ids@, 0) =~= album_ids(resp@));
            state.albums = ids;
            state.next_album = 0;
            state.songs = Vec::new();
            state.next_song = 0;
            assert(state@.songs =~= Seq::<Seq<char>>::empty());
        },
        Phase::Fetching => {
            let ids = match &resp.subsonic_response.album {
                Some(album) => match &album.song {
                    Some(songs) => ids_of_songs(songs),
                    None => Vec::new(),
                },
                None => Vec::new(),
            };
            assert(left(ids@, 0) =~= song_ids(resp@));
            state.songs = ids;
            state.next_song = 0;
        },
        Phase::Adding => {},
    }
    advance(state, conf, api_ver)
}

/// A reply that fails ends the run: the step stops with the reply's error,
/// and no request follows, whatever replies might still be on offer. No
/// later album is fetched and no later song appended.
pub proof fn failure_ends_population(
    state: PendingView,
    reply: ReplyView,
    later: Seq<ReplyView>,
    conf: ConfigView,
    api_ver: Seq<char>,
)
    requires
        failure(reply, expected_in(state.phase)) is Some,
    ensures
        populate_turn(state, reply, conf, api_ver) == (TurnView::Stop {
            phase: state.phase,
            error: failure(reply, expected_in(state.phase))->Some_0,
        }),
        requests(populate_turn(state, reply, conf, api_ver), later, conf, api_ver)
            == Seq::<Seq<char>>::empty(),
{
}

} // verus!
