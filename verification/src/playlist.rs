//! Requests on playlists, the checks on what they return, and the steps by
//! which the configured playlist is made afresh.

use vstd::prelude::*;
use vstd::string::*;

use crate::api::{
    check_response, check_view, failure, reply_view, verdict, Error, ErrorView, Payload, Playlist,
    PlaylistView, PlaylistsView, Reply, ReplyView, RespParseError, TopLevel, TopLevelView,
};
use crate::config::{Config, ConfigView};
use crate::request::{endpoint_url, push_param, rest_url, with_param};

verus! {

/// The request for all playlists.
pub open spec fn list_all_url(conf: ConfigView, api_ver: Seq<char>) -> Seq<char> {
    rest_url(conf, api_ver, "getPlaylists"@)
}

/// The request that deletes the playlist `id`.
pub open spec fn delete_url(conf: ConfigView, api_ver: Seq<char>, id: Seq<char>) -> Seq<char> {
    with_param(rest_url(conf, api_ver, "deletePlaylist"@), "id"@, id)
}

/// The request that creates a playlist under the configured name.
pub open spec fn create_url(conf: ConfigView, api_ver: Seq<char>) -> Seq<char> {
    with_param(rest_url(conf, api_ver, "createPlaylist"@), "name"@, conf.playlist_name)
}

/// The request that appends the song `song_id` to the playlist `playlist_id`.
pub open spec fn update_url(
    conf: ConfigView,
    api_ver: Seq<char>,
    playlist_id: Seq<char>,
    song_id: Seq<char>,
) -> Seq<char> {
    with_param(
        with_param(rest_url(conf, api_ver, "updatePlaylist"@), "playlistId"@, playlist_id),
        "songIdToAdd"@,
        song_id,
    )
}

/// The URL that asks for all playlists.
pub fn list_all(conf: &Config, api_ver: &str) -> (url: String)
    ensures
        url@ == list_all_url(conf@, api_ver@),
{
    endpoint_url(conf, api_ver, "getPlaylists")
}

/// Checks the reply to [`list_all`]: status `ok`, and a playlist listing.
pub fn check_playlist_response(resp: &TopLevel, json: &str) -> (checked: Result<
    (),
    RespParseError,
>)
    ensures
        check_view(checked) == verdict(resp@, json@, Payload::Playlists),
{
    check_response(resp, json, Payload::Playlists)
}

/// The URL that deletes the playlist `id`.
pub fn delete(conf: &Config, api_ver: &str, id: &str) -> (url: String)
    ensures
        url@ == delete_url(conf@, api_ver@, id@),
{
    let mut url = endpoint_url(conf, api_ver, "deletePlaylist");
    push_param(&mut url, "id", id);
    url
}

/// Checks the reply to [`delete`]: status `ok`, and nothing more.
pub fn check_delete_response(resp: &TopLevel, json: &str) -> (checked: Result<(), RespParseError>)
    ensures
        check_view(checked) == verdict(resp@, json@, Payload::Nothing),
{
    check_response(resp, json, Payload::Nothing)
}

/// The URL that creates a playlist under the configured name.
pub fn create(conf: &Config, api_ver: &str) -> (url: String)
    ensures
        url@ == create_url(conf@, api_ver@),
{
    let mut url = endpoint_url(conf, api_ver, "createPlaylist");
    push_param(&mut url, "name", conf.playlist_name.as_str());
    url
}

/// Checks the reply to [`create`]: status `ok`, and the playlist.
pub fn check_create_response(resp: &TopLevel, json: &str) -> (checked: Result<(), RespParseError>)
    ensures
        check_view(checked) == verdict(resp@, json@, Payload::Playlist),
{
    check_response(resp, json, Payload::Playlist)
}

/// The URL that appends the song `song_id` to the playlist `playlist_id`.
pub fn update(conf: &Config, api_ver: &str, playlist_id: &str, song_id: &str) -> (url: String)
    ensures
        url@ == update_url(conf@, api_ver@, playlist_id@, song_id@),
{
    let mut url = endpoint_url(conf, api_ver, "updatePlaylist");
    push_param(&mut url, "playlistId", playlist_id);
    push_param(&mut url, "songIdToAdd", song_id);
    url
}

/// Checks the reply to [`update`]: status `ok`, and nothing more.
pub fn check_update_response(resp: &TopLevel, json: &str) -> (checked: Result<(), RespParseError>)
    ensures
        check_view(checked) == verdict(resp@, json@, Payload::Nothing),
{
    check_response(resp, json, Payload::Nothing)
}

/// The request whose reply is awaited while the playlist is made afresh.
#[derive(Debug, Clone, Copy, PartialEq, Eq, Structural)]
pub enum Stage {
    Listing,
    Deleting,
    Creating,
}

/// What is to happen next while the playlist is made afresh.
#[derive(Debug, Clone, PartialEq, Eq)]
pub enum Turn {
    /// Send `url`, and come back with its reply at `stage`.
    Ask { stage: Stage, url: String },
    /// The playlist exists, new and empty, under `id`.
    Ready { id: String },
    /// The reply awaited at `stage` ended the run with `error`.
    Stop { stage: Stage, error: Error },
}

pub enum TurnView {
    Ask { stage: Stage, url: Seq<char> },
    Ready { id: Seq<char> },
    Stop { stage: Stage, error: ErrorView },
}

impl View for Turn {
    type V = TurnView;

    open spec fn view(&self) -> TurnView {
        match self {
            Turn::Ask { stage, url } => TurnView::Ask { stage: *stage, url: url@ },
            Turn::Ready { id } => TurnView::Ready { id: id@ },
            Turn::Stop { stage, error } => TurnView::Stop { stage: *stage, error: error@ },
        }
    }
}

/// The payload that the reply awaited at `stage` has to carry.
pub open spec fn expected_at(stage: Stage) -> Payload {
    match stage {
        Stage::Listing => Payload::Playlists,
        Stage::Deleting => Payload::Nothing,
        Stage::Creating => Payload::Playlist,
    }
}

/// The playlists of a listing, in the order of the server. A listing without
/// a sequence lists nothing.
pub open spec fn listed(resp: TopLevelView) -> Seq<PlaylistView> {
    match resp.subsonic_response.playlists {
        Some(PlaylistsView { playlist: Some(lists) }) => lists,
        _ => Seq::empty(),
    }
}

/// The id of the first playlist of `lists` that is called `name`.
pub open spec fn find_by_name(lists: Seq<PlaylistView>, name: Seq<char>) -> Option<Seq<char>>
    decreases lists.len(),
{
    if lists.len() == 0 {
        None
    } else if lists[0].name == name {
        Some(lists[0].id)
    } else {
        find_by_name(lists.drop_first(), name)
    }
}

/// What follows the reply `reply` awaited at `stage`.
///
/// A reply that fails stops the run. A good listing leads to the deletion of
/// the first playlist of the configured name, or straight to the creation
/// where there is none; a good deletion leads to the creation; a good
/// creation gives the id of the new playlist.
pub open spec fn recreate_turn(
    stage: Stage,
    reply: ReplyView,
    conf: ConfigView,
    api_ver: Seq<char>,
) -> TurnView {
    match failure(reply, expected_at(stage)) {
        Some(error) => TurnView::Stop { stage, error },
        None => {
            let resp = reply->Ok_0.0;
            match stage {
                Stage::Listing => match find_by_name(listed(resp), conf.playlist_name) {
                    Some(id) => TurnView::Ask {
                        stage: Stage::Deleting,
                        url: delete_url(conf, api_ver, id),
                    },
                    None => TurnView::Ask {
                        stage: Stage::Creating,
                        url: create_url(conf, api_ver),
                    },
                },
                Stage::Deleting => TurnView::Ask {
                    stage: Stage::Creating,
                    url: create_url(conf, api_ver),
                },
                Stage::Creating => TurnView::Ready { id: resp.subsonic_response.playlist->Some_0.id },
            }
        },
    }
}

/// The requests that are sent from `turn` on when the replies come as
/// `replies` has them, one for each request, for as long as they last.
pub open spec fn requests(
    turn: TurnView,
    replies: Seq<ReplyView>,
    conf: ConfigView,
    api_ver: Seq<char>,
) -> Seq<Seq<char>>
    decreases replies.len(),
{
    match turn {
        TurnView::Ask { stage, url } => if replies.len() == 0 {
            seq![url]
        } else {
            seq![url] + requests(
                recreate_turn(stage, replies[0], conf, api_ver),
                replies.drop_first(),
                conf,
                api_ver,
            )
        },
        _ => Seq::empty(),
    }
}

fn check_at(stage: Stage, resp: &TopLevel, json: &str) -> (checked: Result<(), RespParseError>)
    ensures
        check_view(checked) == verdict(resp@, json@, expected_at(stage)),
{
    match stage {
        Stage::Listing => check_playlist_response(resp, json),
        Stage::Deleting => check_delete_response(resp, json),
        Stage::Creating => check_create_response(resp, json),
    }
}

/// Looks `name` up among `lists`: the id of the first playlist so called.
pub fn find(lists: &Vec<Playlist>, name: &String) -> (found: Option<String>)
    ensures
        match found {
            Some(id) => find_by_name(Seq::new(lists@.len(), |i: int| lists@[i]@), name@) == Some(
                id@,
            ),
            None => find_by_name(Seq::new(lists@.len(), |i: int| lists@[i]@), name@) is None,
        },
{
    let ghost all = Seq::new(lists@.len(), |i: int| lists@[i]@);
    let mut at: usize = 0;
    assert(all.skip(0) =~= all);
    while at < lists.len()
        invariant
            at <= lists@.len(),
            all == Seq::new(lists@.len(), |i: int| lists@[i]@),
            find_by_name(all, name@) == find_by_name(all.skip(at as int), name@),
        decreases lists@.len() - at,
    {
        assert(all.skip(at as int)[0] == lists@[at as int]@);
        if lists[at].name == *name {
            return Some(lists[at].id.clone());
        }
        assert(all.skip(at as int).drop_first() =~= all.skip(at + 1));
        at += 1;
    }
    None
}

/// The first step: ask for all playlists.
pub fn begin(conf: &Config, api_ver: &str) -> (turn: Turn)
    ensures
        turn@ == (TurnView::Ask { stage: Stage::Listing, url: list_all_url(conf@, api_ver@) }),
{
    Turn::Ask { stage: Stage::Listing, url: list_all(conf, api_ver) }
}

/// One step of making the playlist afresh: takes the reply that was awaited
/// at `stage` and says what is to happen next.
///
/// The steps are: list the playlists; delete the first one of the configured
/// name, if there is one; create the playlist; hand out its id. The first
/// reply that fails ends the run, and nothing is undone.
pub fn recreate(stage: Stage, reply: Reply, conf: &Config, api_ver: &str) -> (turn: Turn)
    ensures
        turn@ == recreate_turn(stage, reply_view(reply), conf@, api_ver@),
{
    let (resp, json) = match reply {
        Err(error) => {
            return Turn::Stop { stage, error };
        },
        Ok(pair) => pair,
    };
    match check_at(stage, &resp, json.as_str()) {
        Err(error) => {
            return Turn::Stop { stage, error: Error::RespParse(error) };
        },
        Ok(()) => {},
    }
    match stage {
        Stage::Listing => {
            let found = match &resp.subsonic_response.playlists {
                Some(wrapper) => match &wrapper.playlist {
                    Some(lists) => find(lists, &conf.playlist_name),
                    None => None,
                },
                None => None,
            };
            match found {
                Some(id) => Turn::Ask { stage: Stage::Deleting, url: delete(conf, api_ver, id.as_str()) },
                None => Turn::Ask { stage: Stage::Creating, url: create(conf, api_ver) },
            }
        },
        Stage::Deleting => Turn::Ask { stage: Stage::Creating, url: create(conf, api_ver) },
        Stage::Creating => Turn::Ready { id: resp.subsonic_response.playlist.unwrap().id },
    }
}

/// A reply that fails ends the run: the step stops with the reply's error,
/// and no request follows, whatever replies might still be on offer.
pub proof fn failure_ends_recreation(
    stage: Stage,
    reply: ReplyView,
    later: Seq<ReplyView>,
    conf: ConfigView,
    api_ver: Seq<char>,
)
    requires
        failure(reply, expected_at(stage)) is Some,
    ensures
        recreate_turn(stage, reply, conf, api_ver) == (TurnView::Stop {
            stage,
            error: failure(reply, expected_at(stage))->Some_0,
        }),
        requests(recreate_turn(stage, reply, conf, api_ver), later, conf, api_ver)
            == Seq::<Seq<char>>::empty(),
{
}

/// A playlist of the configured name is deleted before the new one is
/// created, and where there is none, the creation is the next request.
pub proof fn deletion_precedes_creation(
    resp: TopLevelView,
    json: Seq<char>,
    conf: ConfigView,
    api_ver: Seq<char>,
)
    requires
        verdict(resp, json, Payload::Playlists) is Ok,
    ensures
        match find_by_name(listed(resp), conf.playlist_name) {
            Some(id) => recreate_turn(Stage::Listing, Ok((resp, json)), conf, api_ver)
                == (TurnView::Ask { stage: Stage::Deleting, url: delete_url(conf, api_ver, id) }),
            None => recreate_turn(Stage::Listing, Ok((resp, json)), conf, api_ver)
                == (TurnView::Ask { stage: Stage::Creating, url: create_url(conf, api_ver) }),
        },
        forall|answer: TopLevelView, text: Seq<char>|
            verdict(answer, text, Payload::Nothing) is Ok ==> #[trigger] recreate_turn(
                Stage::Deleting,
                Ok((answer, text)),
                conf,
                api_ver,
            ) == (TurnView::Ask { stage: Stage::Creating, url: create_url(conf, api_ver) }),
{
}

/// What [`find_by_name`] finds is the id of a playlist of that name before
/// which none of that name stands; it finds none only where none is so
/// called.
pub proof fn find_by_name_is_first(lists: Seq<PlaylistView>, name: Seq<char>)
    ensures
        match find_by_name(lists, name) {
            Some(id) => exists|at: int|
                0 <= at < lists.len() && #[trigger] lists[at].name == name && lists[at].id == id
                    && forall|before: int|
                    0 <= before < at ==> (#[trigger] lists[before]).name != name,
            None => forall|at: int| 0 <= at < lists.len() ==> (#[trigger] lists[at]).name != name,
        },
    decreases lists.len(),
{
    if lists.len() == 0 {
    } else if lists[0].name == name {
        assert(lists[0].name == name && lists[0].id == lists[0].id);
    } else {
        let rest = lists.drop_first();
        find_by_name_is_first(rest, name);
        match find_by_name(rest, name) {
            Some(id) => {
                let at = choose|at: int|
                    0 <= at < rest.len() && #[trigger] rest[at].name == name && rest[at].id == id
                        && forall|before: int|
                        0 <= before < at ==> (#[trigger] rest[before]).name != name;
                assert(lists[at + 1] == rest[at]);
                assert forall|before: int| 0 <= before < at + 1 implies (
                #[trigger] lists[before]).name != name by {
                    if before > 0 {
                        assert(lists[before] == rest[before - 1]);
                    }
                }
                assert(lists[at + 1].name == name && lists[at + 1].id == id);
            },
            None => {
                assert forall|at: int| 0 <= at < lists.len() implies (#[trigger] lists[at]).name
                    != name by {
                    if at > 0 {
                        assert(lists[at] == rest[at - 1]);
                    }
                }
            },
        }
    }
}

} // verus!
