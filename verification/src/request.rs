//! Request URLs as text: how they are put together, and how the part that
//! carries the credentials is taken out again.

use vstd::prelude::*;
use vstd::string::*;

use crate::config::{Config, ConfigView};

verus! {

/// Client identifier sent with every request.
pub open spec fn client_id() -> Seq<char> {
    "graplsub"@
}

/// The character that writes the digit `d`.
pub open spec fn digit_char(d: nat) -> char
    recommends
        d < 10,
{
    seq!['0', '1', '2', '3', '4', '5', '6', '7', '8', '9'][d as int]
}

/// `n` in decimal, without sign or leading zeros.
pub open spec fn decimal(n: nat) -> Seq<char>
    decreases n,
{
    if n < 10 {
        seq![digit_char(n)]
    } else {
        decimal(n / 10).push(digit_char(n % 10))
    }
}

/// The URL of `endpoint` with the parameters that every request carries:
/// user, token, salt, the JSON format, the protocol version and the client.
pub open spec fn rest_url(conf: ConfigView, api_ver: Seq<char>, endpoint: Seq<char>) -> Seq<char> {
    conf.base_url + "/rest/"@ + endpoint + "?u="@ + conf.user + "&t="@ + conf.md5_pass_salt
        + "&s="@ + conf.salt + "&f=json&v="@ + api_ver + "&c="@ + client_id()
}

/// `url` followed by one more parameter.
pub open spec fn with_param(url: Seq<char>, key: Seq<char>, value: Seq<char>) -> Seq<char> {
    url + "&"@ + key + "="@ + value
}

/// Where the fragment of `url` begins: the index of its first `#`, or its
/// length where it has none.
pub open spec fn fragment_start(url: Seq<char>) -> int {
    match url.index_of_first('#') {
        Some(at) => at,
        None => url.len() as int,
    }
}

/// Where the query of `url` begins: the index of the first `?` that stands
/// before the fragment, if there is one.
pub open spec fn query_start(url: Seq<char>) -> Option<int> {
    url.take(fragment_start(url)).index_of_first('?')
}

/// `url` without its query: what stands before the first `?`, followed by the
/// fragment. A URL that has no query is left as it is.
pub open spec fn without_query(url: Seq<char>) -> Seq<char> {
    match query_start(url) {
        Some(q) => url.take(q) + url.skip(fragment_start(url)),
        None => url,
    }
}

fn digit_str(d: u16) -> (text: &'static str)
    requires
        d < 10,
    ensures
        text@ == seq![digit_char(d as nat)],
{
    proof {
        reveal_strlit("0");
        reveal_strlit("1");
        reveal_strlit("2");
        reveal_strlit("3");
        reveal_strlit("4");
        reveal_strlit("5");
        reveal_strlit("6");
        reveal_strlit("7");
        reveal_strlit("8");
        reveal_strlit("9");
    }
    let text = match d {
        0 => "0",
        1 => "1",
        2 => "2",
        3 => "3",
        4 => "4",
        5 => "5",
        6 => "6",
        7 => "7",
        8 => "8",
        _ => "9",
    };
    assert(text@ =~= seq![digit_char(d as nat)]);
    text
}

/// `n` written in decimal.
pub fn decimal_text(n: u16) -> (text: String)
    ensures
        text@ == decimal(n as nat),
    decreases n,
{
    if n < 10 {
        String::from_str(digit_str(n))
    } else {
        let mut text = decimal_text(n / 10);
        text.append(digit_str(n % 10));
        assert(text@ =~= decimal(n as nat));
        text
    }
}

/// The URL of `endpoint` for this configuration, with the common parameters.
pub fn endpoint_url(conf: &Config, api_ver: &str, endpoint: &str) -> (url: String)
    ensures
        url@ == rest_url(conf@, api_ver@, endpoint@),
{
    let mut url = conf.base_url.clone();
    url.append("/rest/");
    url.append(endpoint);
    url.append("?u=");
    url.append(conf.user.as_str());
    url.append("&t=");
    url.append(conf.md5_pass_salt.as_str());
    url.append("&s=");
    url.append(conf.salt.as_str());
    url.append("&f=json&v=");
    url.append(api_ver);
    url.append("&c=");
    url.append("graplsub");
    url
}

/// Appends the parameter `key=value` to `url`.
pub fn push_param(url: &mut String, key: &str, value: &str)
    ensures
        final(url)@ == with_param(old(url)@, key@, value@),
{
    url.append("&");
    url.append(key);
    url.append("=");
    url.append(value);
}

/// Index of the first `wanted` in `text` before `end`, or `end` where there
/// is none.
fn first_before(text: &str, wanted: char, end: usize) -> (at: usize)
    requires
        end <= text@.len(),
    ensures
        at <= end,
        at < end ==> text@[at as int] == wanted,
        forall|i: int| 0 <= i < at ==> text@[i] != wanted,
{
    let mut at: usize = 0;
    while at < end
        invariant
            at <= end <= text@.len(),
            forall|i: int| 0 <= i < at ==> text@[i] != wanted,
        decreases end - at,
    {
        if text.get_char(at) == wanted {
            return at;
        }
        at += 1;
    }
    at
}

/// `url` with its query taken out, so that what is reported of a request
/// names the resource and not the credentials.
pub fn strip_query(url: &str) -> (stripped: String)
    ensures
        stripped@ == without_query(url@),
        query_start(stripped@) is None,
{
    let len = url.unicode_len();
    let frag = first_before(url, '#', len);
    let query = first_before(url, '?', frag);
    proof {
        lemma_fragment_start(url@, frag as int);
        lemma_query_start(url@, frag as int, query as int);
    }
    if query < frag {
        let mut stripped = String::from_str(url.substring_char(0, query));
        stripped.append(url.substring_char(frag, len));
        proof {
            assert(url@.subrange(0, query as int) =~= url@.take(query as int));
            assert(url@.subrange(frag as int, len as int) =~= url@.skip(frag as int));
            without_query_has_no_query(url@);
        }
        stripped
    } else {
        String::from_str(url)
    }
}

proof fn lemma_fragment_start(url: Seq<char>, frag: int)
    requires
        0 <= frag <= url.len(),
        frag < url.len() ==> url[frag] == '#',
        forall|i: int| 0 <= i < frag ==> url[i] != '#',
    ensures
        fragment_start(url) == frag,
{
    url.index_of_first_ensures('#');
}

proof fn lemma_query_start(url: Seq<char>, frag: int, query: int)
    requires
        fragment_start(url) == frag,
        0 <= query <= frag <= url.len(),
        query < frag ==> url[query] == '?',
        forall|i: int| 0 <= i < query ==> url[i] != '?',
    ensures
        query_start(url) == if query < frag {
            Some(query)
        } else {
            None::<int>
        },
{
    let head = url.take(frag);
    head.index_of_first_ensures('?');
    if query < frag {
        assert(head[query] == '?');
    }
    assert(forall|i: int| 0 <= i < query ==> head[i] == url[i]);
}

/// What [`without_query`] gives has no query of its own.
pub proof fn without_query_has_no_query(url: Seq<char>)
    ensures
        query_start(without_query(url)) is None,
{
    let frag = fragment_start(url);
    match query_start(url) {
        Some(q) => {
            let head = url.take(frag);
            let out = without_query(url);
            url.index_of_first_ensures('#');
            head.index_of_first_ensures('?');
            assert(head[q] == '?');
            assert(forall|i: int| 0 <= i < q ==> head[i] != '?');
            assert(forall|i: int| 0 <= i < frag ==> url[i] != '#');
            assert forall|i: int| 0 <= i < q implies out[i] != '#' && out[i] != '?' by {
                assert(out[i] == url[i]);
                assert(head[i] == url[i]);
            }
            if frag < url.len() {
                assert(out[q] == url[frag]);
                assert(url[frag] == '#');
                lemma_fragment_start(out, q);
            } else {
                assert(out.len() == q);
                lemma_fragment_start(out, q);
            }
            lemma_query_start(out, q, q);
        },
        None => {},
    }
}

} // verus!
