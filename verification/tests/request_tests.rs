use netease_ratui::crypto::{eapi_res_decrypt, CryptoMode};
use netease_ratui::cookie_jar::CookieJar;
use netease_ratui::request::{
    request_cookies, encrypt_form, fallback_url, linux_forward_url, request_url, user_agent, UA_API_IPHONE,
    UA_LINUX, UA_WEAPI_PC,
};

#[test]
fn request_urls_per_mode() {
    let d = "https://music.163.com/";
    let a = "https://interface.music.163.com/";
    assert_eq!(
        request_url(CryptoMode::Weapi, d, a, "/api/nuser/account/get"),
        "https://music.163.com/weapi/nuser/account/get"
    );
    assert_eq!(
        request_url(CryptoMode::Eapi, d, a, "/api/song/lyric"),
        "https://interface.music.163.com/eapi/song/lyric"
    );
    assert_eq!(
        request_url(CryptoMode::Linuxapi, d, a, "/api/song/lyric"),
        "https://music.163.com/api/linux/forward"
    );
}

#[test]
fn request_url_trims_every_trailing_slash_and_api_prefix() {
    assert_eq!(
        request_url(CryptoMode::Weapi, "https://h//", "x", "/api//api/a"),
        "https://h/weapi/a"
    );
    assert_eq!(
        request_url(CryptoMode::Weapi, "https://h", "x", "/api/api/a"),
        "https://h/weapi/api/a"
    );
    assert_eq!(request_url(CryptoMode::Eapi, "x", "https://e", "/b"), "https://e/eapi//b");
}

#[test]
fn linux_forward_url_joins_domain_and_uri() {
    assert_eq!(
        linux_forward_url("https://music.163.com/", "/api/song/lyric"),
        "https://music.163.com/api/song/lyric"
    );
}

#[test]
fn fallback_only_for_the_api_host() {
    assert_eq!(
        fallback_url("https://interface.music.163.com/eapi/song/lyric").as_deref(),
        Some("https://music.163.com/eapi/song/lyric")
    );
    assert_eq!(fallback_url("https://music.163.com/weapi/x"), None);
    assert_eq!(fallback_url(""), None);
}

#[test]
fn user_agents_per_mode() {
    assert_eq!(user_agent(CryptoMode::Weapi), UA_WEAPI_PC);
    assert_eq!(user_agent(CryptoMode::Linuxapi), UA_LINUX);
    assert_eq!(user_agent(CryptoMode::Eapi), UA_API_IPHONE);
    assert!(UA_API_IPHONE.starts_with("NeteaseMusic"));
}

#[test]
fn encrypted_forms_name_their_fields() {
    let w = encrypt_form(CryptoMode::Weapi, "/api/x", "{}").ok().unwrap();
    assert_eq!(w.len(), 2);
    assert_eq!(w[0].0, "params");
    assert_eq!(w[1].0, "encSecKey");
    assert_eq!(w[1].1.len(), 256);

    let l = encrypt_form(CryptoMode::Linuxapi, "/api/x", "{}").ok().unwrap();
    assert_eq!(l.len(), 1);
    assert_eq!(l[0].0, "eparams");
    assert_eq!(l[0].1, netease_ratui::crypto::linuxapi("{}").ok().unwrap().eparams);

    let e = encrypt_form(CryptoMode::Eapi, "/api/x", "{\"a\":1}").ok().unwrap();
    assert_eq!(e.len(), 1);
    assert_eq!(e[0].0, "params");
    let plain = eapi_res_decrypt(&e[0].1).ok().unwrap();
    assert!(plain.starts_with("/api/x-36cd479b6b5-{\"a\":1}-36cd479b6b5-"));
}

fn jar(pairs: &[(&str, &str)]) -> CookieJar {
    let mut j = CookieJar::new();
    for (k, v) in pairs {
        j.insert(k.to_string(), v.to_string());
    }
    j
}

#[test]
fn weapi_request_cookies_carry_csrf_and_pc() {
    let r = request_cookies(CryptoMode::Weapi, jar(&[("__csrf", "tok"), ("os", "ios")]), "dev");
    assert_eq!(r.csrf_token.as_deref(), Some("tok"));
    assert_eq!(r.cookie.get("os").map(|s| s.as_str()), Some("pc"));
    assert_eq!(r.cookie_header, "__csrf=tok; os=pc");
    assert!(r.eapi_header.is_none());
    assert!(r.session_os.is_none());
    let none = request_cookies(CryptoMode::Weapi, jar(&[]), "dev");
    assert_eq!(none.csrf_token.as_deref(), Some(""));
    assert_eq!(none.cookie_header, "os=pc");
}

#[test]
fn linuxapi_and_eapi_request_cookies() {
    let l = request_cookies(CryptoMode::Linuxapi, jar(&[("a", "1")]), "dev");
    assert_eq!(l.cookie_header, "a=1");
    assert!(l.csrf_token.is_none());
    let e = request_cookies(CryptoMode::Eapi, jar(&[("os", "ios"), ("appver", "9.0")]), "dev");
    assert_eq!(e.session_os.as_deref(), Some("ios"));
    let h = e.eapi_header.as_ref().unwrap();
    assert_eq!(h.get("deviceId").map(|s| s.as_str()), Some("dev"));
    assert!(e.cookie_header.contains("deviceId=dev"));
    let d = request_cookies(CryptoMode::Eapi, jar(&[]), "dev");
    assert_eq!(d.session_os.as_deref(), Some("pc"));
}
