//! Requests for albums, and the checks on what they return.

use vstd::prelude::*;
use vstd::string::*;

use crate::api::{check_response, check_view, verdict, Payload, RespParseError, TopLevel};
use crate::config::{Config, ConfigView, MAX_ALBUMS};
use crate::request::{
    decimal, decimal_text, endpoint_url, push_param, rest_url, with_param,
};

verus! {

/// The number of albums that is asked for: what is configured, and never
/// more than [`MAX_ALBUMS`].
pub open spec fn sample_size(num_albums: u16) -> u16 {
    if num_albums > MAX_ALBUMS {
        MAX_ALBUMS
    } else {
        num_albums
    }
}

/// The request for the album `id` with its songs.
pub open spec fn get_url(conf: ConfigView, api_ver: Seq<char>, id: Seq<char>) -> Seq<char> {
    with_param(rest_url(conf, api_ver, "getAlbum"@), "id"@, id)
}

/// The request for a random list of [`sample_size`] albums.
pub open spec fn random_list_url(conf: ConfigView, api_ver: Seq<char>) -> Seq<char> {
    with_param(
        with_param(rest_url(conf, api_ver, "getAlbumList"@), "type"@, "random"@),
        "size"@,
        decimal(sample_size(conf.num_albums) as nat),
    )
}

/// The size that is sent is the configured number where that is within the
/// cap, and the cap where it is above.
pub proof fn sample_size_is_capped(num_albums: u16)
    ensures
        sample_size(num_albums) <= MAX_ALBUMS,
        num_albums <= MAX_ALBUMS ==> sample_size(num_albums) == num_albums,
        num_albums > MAX_ALBUMS ==> sample_size(num_albums) == MAX_ALBUMS,
        forall|conf: ConfigView, api_ver: Seq<char>|
            conf.num_albums > MAX_ALBUMS ==> #[trigger] random_list_url(conf, api_ver)
                == with_param(
                with_param(rest_url(conf, api_ver, "getAlbumList"@), "type"@, "random"@),
                "size"@,
                decimal(MAX_ALBUMS as nat),
            ),
{
}

/// The URL that asks for the album `id`.
pub fn get(conf: &Config, api_ver: &str, id: &str) -> (url: String)
    ensures
        url@ == get_url(conf@, api_ver@, id@),
{
    let mut url = endpoint_url(conf, api_ver, "getAlbum");
    push_param(&mut url, "id", id);
    url
}

/// Checks the reply to [`get`]: status `ok`, and an album.
pub fn check_get_response(resp: &TopLevel, json: &str) -> (checked: Result<(), RespParseError>)
    ensures
        check_view(checked) == verdict(resp@, json@, Payload::Album),
{
    check_response(resp, json, Payload::Album)
}

/// The URL that asks for random albums. The size it names is the configured
/// number, capped at [`MAX_ALBUMS`].
pub fn random_list(conf: &Config, api_ver: &str) -> (url: String)
    ensures
        url@ == random_list_url(conf@, api_ver@),
{
    let size: u16 = if conf.num_albums > MAX_ALBUMS {
        MAX_ALBUMS
    } else {
        conf.num_albums
    };
    let size_text = decimal_text(size);
    let mut url = endpoint_url(conf, api_ver, "getAlbumList");
    push_param(&mut url, "type", "random");
    push_param(&mut url, "size", size_text.as_str());
    url
}

/// Checks the reply to [`random_list`]: status `ok`, and an album list.
pub fn check_list_response(resp: &TopLevel, json: &str) -> (checked: Result<(), RespParseError>)
    ensures
        check_view(checked) == verdict(resp@, json@, Payload::AlbumList),
{
    check_response(resp, json, Payload::AlbumList)
}

} // verus!
