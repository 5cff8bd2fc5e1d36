use banana::client::BananaErr;
use aes_gcm::aead::{Aead, KeyInit};
use base64::Engine;
use banana::headers::{
    cipher_key, decimal_digits, request_time, seal_request_time, REQUEST_TIME_SECRET,
};
use banana::login::{finish_login, launch_value_of, prepare_login, session_cookie_of};
use banana::text::{find_char, same_text};
use banana::utils::{format_error, format_line, format_println, get_current_timestamp, now, Level};

#[test]
fn login_without_fragment_fails() {
    assert_eq!(prepare_login("https://t.me/OfficialBananaBot/banana"), Err(BananaErr::LoginFailed));
    assert_eq!(prepare_login("not a url"), Err(BananaErr::LoginFailed));
}

#[test]
fn login_payload_is_decoded_first_value() {
    let link = "https://t.me/app#tgWebAppData=query_id%3DAA%26user%3D1&tgWebAppVersion=7.4";
    assert_eq!(prepare_login(link), Ok("query_id=AA&user=1".to_string()));
    assert_eq!(prepare_login("https://t.me/app#k=plain"), Ok("plain".to_string()));
    assert_eq!(prepare_login("https://t.me/app#novalue&x=1"), Err(BananaErr::LoginFailed));
}

#[test]
fn launch_value_cases() {
    assert_eq!(launch_value_of("a=b&c=d"), Some("b".to_string()));
    assert_eq!(launch_value_of("a=b=c&d"), Some("b".to_string()));
    assert_eq!(launch_value_of("a="), Some("".to_string()));
    assert_eq!(launch_value_of("abc&x=y"), None);
    assert_eq!(launch_value_of(""), None);
}

#[test]
fn session_cookie_is_first_matching_header() {
    let headers = vec![
        "other=1; Path=/".to_string(),
        "banana-game:user:token=xyz; Path=/; HttpOnly".to_string(),
        "banana-game:user:token=later".to_string(),
    ];
    assert_eq!(session_cookie_of(&headers), Some("banana-game:user:tokenxyz".to_string()));
    assert_eq!(session_cookie_of(&vec!["other=1".to_string()]), None);
    assert_eq!(session_cookie_of(&Vec::new()), None);
}

#[test]
fn finish_login_needs_status_cookie_and_token() {
    let headers = vec!["banana-game:user:token=xyz".to_string()];
    assert_eq!(
        finish_login(true, &headers, Some("T".to_string())),
        Ok(("T".to_string(), "banana-game:user:tokenxyz".to_string()))
    );
    assert_eq!(finish_login(false, &headers, Some("T".to_string())), Err(BananaErr::LoginFailed));
    assert_eq!(finish_login(true, &headers, None), Err(BananaErr::LoginFailed));
    assert_eq!(finish_login(true, &Vec::new(), Some("T".to_string())), Err(BananaErr::LoginFailed));
}

#[test]
fn decimal_digits_of_numbers() {
    assert_eq!(decimal_digits(0), b"0".to_vec());
    assert_eq!(decimal_digits(1720000000123), b"1720000000123".to_vec());
    assert_eq!(decimal_digits(u64::MAX), b"18446744073709551615".to_vec());
}

#[test]
fn cipher_key_pads_secret() {
    let k = cipher_key("1,1,0").unwrap();
    assert_eq!(k.len(), 32);
    assert_eq!(&k[..5], b"1,1,0");
    assert!(k[5..].iter().all(|&b| b == 0));
    assert_eq!(cipher_key("0123456789abcdef0123456789abcdefX"), None);
}

#[test]
fn request_time_is_base64_of_nonce_and_sealed_digits() {
    let v = request_time(REQUEST_TIME_SECRET, 1720000000123).unwrap();
    // 12 nonce bytes + 13 digits + 16 tag bytes = 41 bytes -> 56 base64 characters
    assert_eq!(v.len(), 56);
    assert!(v.ends_with('='));
    let w = request_time(REQUEST_TIME_SECRET, 1720000000123).unwrap();
    assert_ne!(v, w);
    assert_eq!(request_time("0123456789abcdef0123456789abcdefX", 1), None);
}

#[test]
fn text_helpers() {
    assert!(same_text("abc", "abc"));
    assert!(!same_text("abc", "abd"));
    assert!(!same_text("abc", "ab"));
    assert_eq!(find_char("a&b", '&'), 1);
    assert_eq!(find_char("ab", '&'), 2);
}

#[test]
fn log_lines() {
    assert_eq!(format_line("2024-01-02 03:04:05", "acc", "hello"), "[2024-01-02 03:04:05] [acc]: hello");
    let l = format_println("acc", "click done!");
    assert_eq!(l.level, Level::Info);
    assert!(l.text.starts_with('['));
    assert!(l.text.ends_with("] [acc]: click done!"));
    let e = format_error("acc", "failed");
    assert_eq!(e.level, Level::Error);
    assert!(e.text.ends_with("] [acc]: failed"));
}

#[test]
fn timestamp_is_after_2020() {
    assert!(get_current_timestamp() > 1_577_836_800_000);
}

#[test]
fn sealed_request_time_opens_to_the_timestamp() {
    let nonce = vec![7u8; 12];
    let v = seal_request_time(REQUEST_TIME_SECRET, &nonce, 1720000000123).unwrap();
    assert_eq!(v.len(), 56);
    let bytes = base64::engine::general_purpose::STANDARD.decode(&v).unwrap();
    assert_eq!(bytes.len(), 12 + 13 + 16);
    assert_eq!(&bytes[..12], &nonce[..]);
    let key = cipher_key(REQUEST_TIME_SECRET).unwrap();
    let cipher = aes_gcm::Aes256Gcm::new(aes_gcm::Key::<aes_gcm::Aes256Gcm>::from_slice(&key));
    let plain = cipher.decrypt(aes_gcm::Nonce::from_slice(&nonce), &bytes[12..]).unwrap();
    assert_eq!(plain, b"1720000000123".to_vec());
    assert_eq!(seal_request_time(REQUEST_TIME_SECRET, &nonce, 1720000000123), Some(v));
    assert_eq!(seal_request_time("0123456789abcdef0123456789abcdefX", &nonce, 1), None);
}

#[test]
fn now_ends_with_time_of_day() {
    let t = now();
    let tail: Vec<char> = t.chars().rev().take(9).collect();
    assert_eq!(tail.len(), 9);
    assert_eq!(tail[8], ' ');
    assert_eq!(tail[2], ':');
    assert_eq!(tail[5], ':');
    for i in [0, 1, 3, 4, 6, 7] {
        assert!(tail[i].is_ascii_digit());
    }
    assert_eq!(t.len(), 19);
}
