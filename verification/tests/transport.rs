use graplsub::api::{get, Error, Fetched, SubsonicResponse, TopLevel};

fn document() -> TopLevel {
    TopLevel {
        subsonic_response: SubsonicResponse {
            album: None,
            album_list: None,
            playlist: None,
            playlists: None,
            status: "ok".to_string(),
        },
    }
}

const URL: &str = "http://h:4533/rest/getAlbum?u=alice&t=0123abcd&s=c19b2d&f=json&v=1.14.0&c=graplsub&id=9";

fn every_shape(status: u16) -> Vec<Fetched> {
    vec![
        Fetched::Unread { status, url: URL.to_string(), detail: "reset".to_string() },
        Fetched::Malformed {
            status,
            url: URL.to_string(),
            text: "<html>".to_string(),
            detail: "expected value".to_string(),
        },
        Fetched::Document {
            status,
            url: URL.to_string(),
            text: "{}".to_string(),
            document: document(),
        },
    ]
}

#[test]
fn no_response_is_a_network_error() {
    assert_eq!(
        get(Fetched::Unreachable { detail: "dns".to_string() }),
        Err(Error::Network { detail: "dns".to_string() })
    );
}

#[test]
fn status_200_with_document_gives_document_and_text() {
    let fetched = Fetched::Document {
        status: 200,
        url: URL.to_string(),
        text: "{\"a\":1}".to_string(),
        document: document(),
    };
    assert_eq!(get(fetched), Ok((document(), "{\"a\":1}".to_string())));
}

#[test]
fn status_200_with_unreadable_body_is_a_network_error() {
    let fetched =
        Fetched::Unread { status: 200, url: URL.to_string(), detail: "timed out".to_string() };
    assert_eq!(get(fetched), Err(Error::Network { detail: "timed out".to_string() }));
}

#[test]
fn status_200_with_malformed_body_is_a_parse_error_with_the_body() {
    let fetched = Fetched::Malformed {
        status: 200,
        url: URL.to_string(),
        text: "<html>".to_string(),
        detail: "expected value at line 1".to_string(),
    };
    assert_eq!(
        get(fetched),
        Err(Error::SerdeError {
            response: "<html>".to_string(),
            detail: "expected value at line 1".to_string()
        })
    );
}

#[test]
fn status_404_is_not_found_without_credentials() {
    for fetched in every_shape(404) {
        let reply = get(fetched);
        assert_eq!(
            reply,
            Err(Error::NotFound { resource: "http://h:4533/rest/getAlbum".to_string() })
        );
        let Err(Error::NotFound { resource }) = reply else {
            panic!("not a NotFound");
        };
        assert!(!resource.contains('?'));
        assert!(!resource.contains("u="));
        assert!(!resource.contains("t="));
        assert!(!resource.contains("s="));
        assert!(!resource.contains("alice"));
        assert!(!resource.contains("0123abcd"));
        assert!(!resource.contains("c19b2d"));
    }
}

#[test]
fn other_statuses_are_http_errors_with_status_and_url() {
    for status in [0u16, 100, 201, 204, 301, 400, 401, 403, 405, 500, 503, 599, u16::MAX] {
        for fetched in every_shape(status) {
            assert_eq!(get(fetched), Err(Error::Http { status, url: URL.to_string() }));
        }
    }
}
