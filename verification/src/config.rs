//! Process configuration and the salted token that stands in for the password.

use vstd::prelude::*;
use vstd::string::*;
use vstd::utf8::*;

verus! {

/// Most albums that one run may ask the server for.
pub const MAX_ALBUMS: u16 = 500;

/// What a run is configured with. `salt` and `md5_pass_salt` are empty until
/// [`build_secrets`] fills them.
#[derive(Debug, Clone, PartialEq, Eq)]
pub struct Config {
    pub base_url: String,
    pub md5_pass_salt: String,
    pub num_albums: u16,
    pub pass: String,
    pub user: String,
    pub playlist_name: String,
    pub salt: String,
}

/// A [`Config`] as plain values.
pub struct ConfigView {
    pub base_url: Seq<char>,
    pub md5_pass_salt: Seq<char>,
    pub num_albums: u16,
    pub pass: Seq<char>,
    pub user: Seq<char>,
    pub playlist_name: Seq<char>,
    pub salt: Seq<char>,
}

impl View for Config {
    type V = ConfigView;

    open spec fn view(&self) -> ConfigView {
        ConfigView {
            base_url: self.base_url@,
            md5_pass_salt: self.md5_pass_salt@,
            num_albums: self.num_albums,
            pass: self.pass@,
            user: self.user@,
            playlist_name: self.playlist_name@,
            salt: self.salt@,
        }
    }
}

/// The sixteen lowercase hexadecimal digits, in order of value.
pub open spec fn hex_digits() -> Seq<char> {
    seq!['0', '1', '2', '3', '4', '5', '6', '7', '8', '9', 'a', 'b', 'c', 'd', 'e', 'f']
}

/// Whether `c` is one of `0`-`9` or `a`-`f`.
pub open spec fn is_lower_hex(c: char) -> bool {
    ('0' <= c && c <= '9') || ('a' <= c && c <= 'f')
}

/// Whether every character of `text` is a lowercase hexadecimal digit.
pub open spec fn all_lower_hex(text: Seq<char>) -> bool {
    forall|i: int| 0 <= i < text.len() ==> is_lower_hex(#[trigger] text[i])
}

/// Lowercase hexadecimal text of `bytes`: two digits for each byte, the high
/// half first.
pub open spec fn hex_lower(bytes: Seq<u8>) -> Seq<char> {
    Seq::new(
        2 * bytes.len(),
        |i: int|
            if i % 2 == 0 {
                hex_digits()[bytes[i / 2] as int / 16]
            } else {
                hex_digits()[bytes[i / 2] as int % 16]
            },
    )
}

/// The MD5 digest of `data`, as the `md5` crate computes it.
pub uninterp spec fn md5_digest(data: Seq<u8>) -> Seq<u8>;

/// The token sent in place of the password: the lowercase hexadecimal MD5 of
/// the password's UTF-8 bytes followed by those of the salt.
pub open spec fn auth_token(pass: Seq<char>, salt: Seq<char>) -> Seq<char> {
    hex_lower(md5_digest(encode_utf8(pass + salt)))
}

/// Hexadecimal text is twice as long as its bytes and holds lowercase
/// hexadecimal digits only.
pub proof fn hex_lower_shape(bytes: Seq<u8>)
    ensures
        hex_lower(bytes).len() == 2 * bytes.len(),
        all_lower_hex(hex_lower(bytes)),
{
    assert forall|i: int| 0 <= i < hex_lower(bytes).len() implies is_lower_hex(
        #[trigger] hex_lower(bytes)[i],
    ) by {
        let b = bytes[i / 2] as int;
        assert(0 <= b / 16 < 16 && 0 <= b % 16 < 16);
        assert(forall|d: int| 0 <= d < 16 ==> is_lower_hex(#[trigger] hex_digits()[d]));
    }
}

/// Three bytes drawn with `RngCore::fill_bytes` from `rand::rng()`, the
/// generator of the calling thread. Nothing is claimed of their value. The
/// generator is taken to be available: `rand` does not return where the
/// system gives it no seed.
#[verifier::external_body]
fn random_salt() -> (bytes: [u8; 3]) {
    let mut bytes = [0u8; 3];
    rand::RngCore::fill_bytes(&mut rand::rng(), &mut bytes);
    bytes
}

/// `hex::encode`: the text of `bytes` in lowercase hexadecimal, two digits a
/// byte with the high half first, taken from the table `0123456789abcdef`.
#[verifier::external_body]
fn hex_encode(bytes: &[u8]) -> (text: String)
    ensures
        text@ == hex_lower(bytes@),
{
    hex::encode(bytes)
}

/// `md5::compute`: the sixteen bytes of the digest of `data`. The digest is a
/// function of the bytes alone and is named, not spelled out.
#[verifier::external_body]
fn md5_compute(data: &[u8]) -> (digest: [u8; 16])
    ensures
        digest@ == md5_digest(data@),
{
    md5::compute(data).0
}

pub fn default_base_url() -> (url: String)
    ensures
        url@ == "http://localhost:4533"@,
{
    String::from_str("http://localhost:4533")
}

pub fn default_playlist_name() -> (name: String)
    ensures
        name@ == "graplsub_random_albums"@,
{
    String::from_str("graplsub_random_albums")
}

pub fn default_num_albums() -> (n: u16)
    ensures
        n == 100,
{
    100
}

/// Salt and token for `pass` from three salt bytes.
///
/// The salt is the bytes in lowercase hexadecimal, six characters; the token
/// is [`auth_token`] of password and salt, thirty-two lowercase hexadecimal
/// characters.
pub fn derive_secrets(pass: &str, salt_bytes: &[u8; 3]) -> (secrets: (String, String))
    ensures
        secrets.0@ == hex_lower(salt_bytes@),
        secrets.0@.len() == 6,
        all_lower_hex(secrets.0@),
        secrets.1@ == auth_token(pass@, secrets.0@),
        secrets.1@.len() == 32,
        all_lower_hex(secrets.1@),
{
    let salt = hex_encode(salt_bytes.as_slice());
    let mut salted = String::from_str(pass);
    salted.append(salt.as_str());
    let digest = md5_compute(salted.as_str().as_bytes());
    let token = hex_encode(digest.as_slice());
    proof {
        hex_lower_shape(salt_bytes@);
        hex_lower_shape(digest@);
    }
    (salt, token)
}

/// Fills `salt` and `md5_pass_salt` of `conf` from a fresh random salt and
/// leaves every other field as it was.
pub fn build_secrets(conf: &mut Config)
    ensures
        final(conf)@ == (ConfigView {
            salt: final(conf)@.salt,
            md5_pass_salt: auth_token(old(conf)@.pass, final(conf)@.salt),
            ..old(conf)@
        }),
        exists|bytes: Seq<u8>| bytes.len() == 3 && final(conf)@.salt == #[trigger] hex_lower(bytes),
        final(conf)@.salt.len() == 6,
        all_lower_hex(final(conf)@.salt),
        final(conf)@.md5_pass_salt.len() == 32,
        all_lower_hex(final(conf)@.md5_pass_salt),
{
    let bytes = random_salt();
    let (salt, token) = derive_secrets(conf.pass.as_str(), &bytes);
    conf.salt = salt;
    conf.md5_pass_salt = token;
    assert(bytes@.len() == 3);
}

/// Caps `num_albums` at [`MAX_ALBUMS`]. Returns the value that was asked for
/// when it was above the cap, so that the caller can say so.
pub fn clamp_num_albums(conf: &mut Config) -> (asked: Option<u16>)
    ensures
        final(conf)@ == (ConfigView {
            num_albums: if old(conf).num_albums > MAX_ALBUMS {
                MAX_ALBUMS
            } else {
                old(conf).num_albums
            },
            ..old(conf)@
        }),
        final(conf).num_albums <= MAX_ALBUMS,
        asked == if old(conf).num_albums > MAX_ALBUMS {
            Some(old(conf).num_albums)
        } else {
            None::<u16>
        },
{
    if conf.num_albums > MAX_ALBUMS {
        let asked: u16 = conf.num_albums;
        conf.num_albums = MAX_ALBUMS;
        Some(asked)
    } else {
        None
    }
}

} // verus!
