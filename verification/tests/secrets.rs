use graplsub::config::{
    build_secrets, clamp_num_albums, default_base_url, default_num_albums, default_playlist_name,
    derive_secrets, Config, MAX_ALBUMS,
};

fn config(pass: &str, num_albums: u16) -> Config {
    Config {
        base_url: default_base_url(),
        md5_pass_salt: String::new(),
        num_albums,
        pass: pass.to_string(),
        user: "alice".to_string(),
        playlist_name: default_playlist_name(),
        salt: String::new(),
    }
}

fn is_lower_hex(text: &str) -> bool {
    text.chars().all(|c| c.is_ascii_digit() || ('a'..='f').contains(&c))
}

#[test]
fn defaults_are_as_documented() {
    assert_eq!(default_base_url(), "http://localhost:4533");
    assert_eq!(default_playlist_name(), "graplsub_random_albums");
    assert_eq!(default_num_albums(), 100);
    assert_eq!(MAX_ALBUMS, 500);
}

#[test]
fn derive_secrets_gives_hex_salt_and_md5_token() {
    let (salt, token) = derive_secrets("sesame", &[0xc1, 0x9b, 0x2d]);
    assert_eq!(salt, "c19b2d");
    assert_eq!(token, "26719a1196d2a940705a59634eb18eab");
}

#[test]
fn derive_secrets_with_empty_password_and_zero_salt() {
    let (salt, token) = derive_secrets("", &[0, 0, 0]);
    assert_eq!(salt, "000000");
    assert_eq!(token, "670b14728ad9902aecba32e22fa4f6bd");
}

#[test]
fn derive_secrets_hashes_utf8_bytes_of_the_password() {
    let (salt, token) = derive_secrets("päss", &[0x00, 0xff, 0x10]);
    assert_eq!(salt, "00ff10");
    assert_eq!(token, "9945b7f9bfe2382b99e17163733b8037");
}

#[test]
fn derive_secrets_pads_each_byte_to_two_digits() {
    let (salt, token) = derive_secrets("x", &[0x01, 0x0a, 0xf0]);
    assert_eq!(salt, "010af0");
    assert_eq!(token.len(), 32);
    assert!(is_lower_hex(&token));
}

#[test]
fn build_secrets_fills_salt_and_token_only() {
    let mut conf = config("sesame", 100);
    build_secrets(&mut conf);
    assert_eq!(conf.salt.len(), 6);
    assert!(is_lower_hex(&conf.salt));
    assert_eq!(conf.md5_pass_salt.len(), 32);
    assert!(is_lower_hex(&conf.md5_pass_salt));
    let expected = hex::encode(md5::compute(format!("sesame{}", conf.salt)).0);
    assert_eq!(conf.md5_pass_salt, expected);
    assert_eq!(conf.pass, "sesame");
    assert_eq!(conf.user, "alice");
    assert_eq!(conf.num_albums, 100);
    assert_eq!(conf.base_url, "http://localhost:4533");
    assert_eq!(conf.playlist_name, "graplsub_random_albums");
}

#[test]
fn build_secrets_token_matches_derive_secrets_for_its_salt() {
    let mut conf = config("hunter2", 7);
    build_secrets(&mut conf);
    let bytes = hex::decode(&conf.salt).unwrap();
    let (salt, token) = derive_secrets("hunter2", &[bytes[0], bytes[1], bytes[2]]);
    assert_eq!(salt, conf.salt);
    assert_eq!(token, conf.md5_pass_salt);
}

#[test]
fn clamp_leaves_small_numbers_alone() {
    let mut conf = config("p", 100);
    assert_eq!(clamp_num_albums(&mut conf), None);
    assert_eq!(conf.num_albums, 100);
    let mut conf = config("p", 0);
    assert_eq!(clamp_num_albums(&mut conf), None);
    assert_eq!(conf.num_albums, 0);
}

#[test]
fn clamp_accepts_the_cap_itself() {
    let mut conf = config("p", 500);
    assert_eq!(clamp_num_albums(&mut conf), None);
    assert_eq!(conf.num_albums, 500);
}

#[test]
fn clamp_caps_large_numbers_and_reports_what_was_asked() {
    let mut conf = config("p", 501);
    assert_eq!(clamp_num_albums(&mut conf), Some(501));
    assert_eq!(conf.num_albums, 500);
    let mut conf = config("p", u16::MAX);
    assert_eq!(clamp_num_albums(&mut conf), Some(u16::MAX));
    assert_eq!(conf.num_albums, 500);
    assert_eq!(conf.pass, "p");
    assert_eq!(conf.user, "alice");
}
