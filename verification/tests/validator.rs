use graplsub::album::{check_get_response, check_list_response};
use graplsub::api::{
    check_generic_response, check_response, Album, AlbumList, Error, Payload, Playlist, Playlists,
    RespParseError, Song, SubsonicResponse, TopLevel,
};
use graplsub::playlist::{
    check_create_response, check_delete_response, check_playlist_response, check_update_response,
};

fn envelope(status: &str) -> TopLevel {
    TopLevel {
        subsonic_response: SubsonicResponse {
            album: None,
            album_list: None,
            playlist: None,
            playlists: None,
            status: status.to_string(),
        },
    }
}

fn full(status: &str) -> TopLevel {
    let mut resp = envelope(status);
    resp.subsonic_response.album = Some(Album {
        id: "a".to_string(),
        song: Some(vec![Song { id: "s".to_string() }]),
    });
    resp.subsonic_response.album_list =
        Some(AlbumList { album: Some(vec![Album { id: "a".to_string(), song: None }]) });
    resp.subsonic_response.playlist =
        Some(Playlist { id: "1".to_string(), name: "n".to_string() });
    resp.subsonic_response.playlists = Some(Playlists {
        playlist: Some(vec![Playlist { id: "1".to_string(), name: "n".to_string() }]),
    });
    resp
}

const KINDS: [Payload; 5] =
    [Payload::Album, Payload::AlbumList, Payload::Playlist, Payload::Playlists, Payload::Nothing];

#[test]
fn generic_check_accepts_ok() {
    assert_eq!(check_generic_response(&envelope("ok"), "{}"), Ok(()));
}

#[test]
fn generic_check_refuses_failed() {
    assert_eq!(
        check_generic_response(&envelope("failed"), "{\"x\":1}"),
        Err(RespParseError::ResponseNotOk { response: "{\"x\":1}".to_string() })
    );
}

#[test]
fn any_status_but_ok_is_not_ok_whatever_the_payload() {
    for status in ["failed", "", "OK", "Ok", "ok ", " ok", "okay", "o", "error"] {
        for expected in KINDS {
            for resp in [envelope(status), full(status)] {
                assert_eq!(
                    check_response(&resp, "body", expected),
                    Err(RespParseError::ResponseNotOk { response: "body".to_string() })
                );
            }
        }
    }
}

#[test]
fn missing_album_is_reported() {
    assert_eq!(
        check_get_response(&envelope("ok"), "raw"),
        Err(RespParseError::MissingAlbum { response: "raw".to_string() })
    );
    assert_eq!(
        check_response(&envelope("ok"), "raw", Payload::Album),
        Err(RespParseError::MissingAlbum { response: "raw".to_string() })
    );
}

#[test]
fn missing_album_list_is_reported() {
    assert_eq!(
        check_list_response(&envelope("ok"), "raw"),
        Err(RespParseError::MissingAlbumList { response: "raw".to_string() })
    );
}

#[test]
fn missing_playlist_is_reported() {
    assert_eq!(
        check_create_response(&envelope("ok"), "raw"),
        Err(RespParseError::MissingPlaylist { response: "raw".to_string() })
    );
}

#[test]
fn missing_playlists_is_reported() {
    assert_eq!(
        check_playlist_response(&envelope("ok"), "raw"),
        Err(RespParseError::MissingPlaylists { response: "raw".to_string() })
    );
}

#[test]
fn each_payload_is_checked_by_itself() {
    let mut resp = full("ok");
    resp.subsonic_response.album = None;
    assert!(check_get_response(&resp, "r").is_err());
    assert_eq!(check_list_response(&resp, "r"), Ok(()));
    assert_eq!(check_create_response(&resp, "r"), Ok(()));
    assert_eq!(check_playlist_response(&resp, "r"), Ok(()));

    let mut resp = full("ok");
    resp.subsonic_response.album_list = None;
    assert_eq!(check_get_response(&resp, "r"), Ok(()));
    assert!(check_list_response(&resp, "r").is_err());

    let mut resp = full("ok");
    resp.subsonic_response.playlist = None;
    assert!(check_create_response(&resp, "r").is_err());
    assert_eq!(check_playlist_response(&resp, "r"), Ok(()));

    let mut resp = full("ok");
    resp.subsonic_response.playlists = None;
    assert_eq!(check_create_response(&resp, "r"), Ok(()));
    assert!(check_playlist_response(&resp, "r").is_err());
}

#[test]
fn delete_and_update_expect_the_envelope_alone() {
    assert_eq!(check_delete_response(&envelope("ok"), "r"), Ok(()));
    assert_eq!(check_update_response(&envelope("ok"), "r"), Ok(()));
    assert_eq!(check_response(&envelope("ok"), "r", Payload::Nothing), Ok(()));
    assert_eq!(
        check_delete_response(&envelope("failed"), "r"),
        Err(RespParseError::ResponseNotOk { response: "r".to_string() })
    );
    assert_eq!(
        check_update_response(&envelope("failed"), "r"),
        Err(RespParseError::ResponseNotOk { response: "r".to_string() })
    );
}

#[test]
fn empty_playlists_wrapper_is_accepted() {
    let mut resp = envelope("ok");
    resp.subsonic_response.playlists = Some(Playlists { playlist: None });
    assert_eq!(check_playlist_response(&resp, "r"), Ok(()));
    resp.subsonic_response.playlists = Some(Playlists { playlist: Some(vec![]) });
    assert_eq!(check_playlist_response(&resp, "r"), Ok(()));
}

#[test]
fn empty_album_list_wrapper_is_accepted() {
    let mut resp = envelope("ok");
    resp.subsonic_response.album_list = Some(AlbumList { album: None });
    assert_eq!(check_list_response(&resp, "r"), Ok(()));
    resp.subsonic_response.album_list = Some(AlbumList { album: Some(vec![]) });
    assert_eq!(check_list_response(&resp, "r"), Ok(()));
}

#[test]
fn album_without_songs_is_accepted() {
    let mut resp = envelope("ok");
    resp.subsonic_response.album = Some(Album { id: "a".to_string(), song: None });
    assert_eq!(check_get_response(&resp, "r"), Ok(()));
    resp.subsonic_response.album = Some(Album { id: "a".to_string(), song: Some(vec![]) });
    assert_eq!(check_get_response(&resp, "r"), Ok(()));
}

#[test]
fn messages_of_envelope_errors() {
    let r = "{}".to_string();
    assert_eq!(
        RespParseError::MissingAlbum { response: r.clone() }.message(),
        "Subsonic response was missing an album: {}"
    );
    assert_eq!(
        RespParseError::MissingAlbumList { response: r.clone() }.message(),
        "Subsonic response was missing an albumList: {}"
    );
    assert_eq!(
        RespParseError::MissingPlaylist { response: r.clone() }.message(),
        "Subsonic response was missing a playlist: {}"
    );
    assert_eq!(
        RespParseError::MissingPlaylists { response: r.clone() }.message(),
        "Subsonic response was missing a playlists: {}"
    );
    assert_eq!(
        RespParseError::ResponseNotOk { response: r }.message(),
        "Subsonic response did not have 'ok' status: {}"
    );
}

#[test]
fn messages_of_errors() {
    assert_eq!(
        Error::Network { detail: "timed out".to_string() }.message(),
        "Network error: timed out"
    );
    assert_eq!(
        Error::NotFound { resource: "http://h/rest/x".to_string() }.message(),
        "Resource not found: http://h/rest/x"
    );
    assert_eq!(
        Error::Http { status: 503, url: "http://h/rest/x?u=a".to_string() }.message(),
        "HTTP error: status 503 for url (http://h/rest/x?u=a)"
    );
    assert_eq!(
        Error::RespParse(RespParseError::ResponseNotOk { response: "b".to_string() }).message(),
        "Response parsing error: Subsonic response did not have 'ok' status: b"
    );
    assert_eq!(
        Error::SerdeError { response: "<html>".to_string(), detail: "expected value".to_string() }
            .message(),
        "expected value"
    );
}
