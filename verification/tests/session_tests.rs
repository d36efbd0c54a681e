use netease_ratui::cookie_jar::CookieJar;
use netease_ratui::session::{
    build_eapi_header, build_eapi_header_with, chain_id_with, cookie_obj_to_string,
    create_header_cookie, generate_chain_id, process_cookie_object, process_cookie_object_with,
    random_hex_string, state_path, update_cookies, wnmcid, ClientState, NeteaseClientConfig,
    OsProfile, QrPlatform,
};

fn jar(pairs: &[(&str, &str)]) -> CookieJar {
    let mut j = CookieJar::new();
    for (k, v) in pairs {
        j.insert(k.to_string(), v.to_string());
    }
    j
}

fn get(j: &CookieJar, k: &str) -> Option<String> {
    j.get(k).cloned()
}

#[test]
fn jar_insert_replaces_and_keeps_order() {
    let mut j = jar(&[("a", "1"), ("b", "2")]);
    j.insert("a".to_string(), "3".to_string());
    assert_eq!(j.len(), 2);
    assert_eq!(get(&j, "a"), Some("3".to_string()));
    let (k0, v0) = j.entry(0);
    assert_eq!((k0.as_str(), v0.as_str()), ("a", "3"));
    j.set_default("a", "9".to_string());
    j.set_default("c", "4".to_string());
    assert_eq!(get(&j, "a"), Some("3".to_string()));
    assert_eq!(get(&j, "c"), Some("4".to_string()));
    assert!(!j.contains_key("zz"));
}

#[test]
fn processed_cookies_fill_defaults() {
    let c = jar(&[]);
    let out = process_cookie_object_with(
        &c,
        "DEV",
        "/api/search",
        1234,
        "nuid0".to_string(),
        "abcdef.1.01.0".to_string(),
        "nm".to_string(),
    );
    assert_eq!(get(&out, "_ntes_nuid"), Some("nuid0".to_string()));
    assert_eq!(get(&out, "_ntes_nnid"), Some("nuid0,1234".to_string()));
    assert_eq!(get(&out, "__remember_me"), Some("true".to_string()));
    assert_eq!(get(&out, "ntes_kaola_ad"), Some("1".to_string()));
    assert_eq!(get(&out, "WNMCID"), Some("abcdef.1.01.0".to_string()));
    assert_eq!(get(&out, "WEVNSM"), Some("1.0.0".to_string()));
    assert_eq!(get(&out, "os"), Some("pc".to_string()));
    assert_eq!(get(&out, "appver"), Some("3.1.17.204416".to_string()));
    assert_eq!(get(&out, "channel"), Some("netease".to_string()));
    assert_eq!(get(&out, "deviceId"), Some("DEV".to_string()));
    assert_eq!(get(&out, "NMTID"), Some("nm".to_string()));
}

#[test]
fn processed_cookies_keep_existing_and_follow_os() {
    let c = jar(&[("os", "android"), ("_ntes_nuid", "keep"), ("__remember_me", "false")]);
    let out = process_cookie_object_with(&c, "DEV", "/api/login/qrcode", 5, "x".to_string(), "w".to_string(), "n".to_string());
    assert_eq!(get(&out, "_ntes_nuid"), Some("keep".to_string()));
    assert_eq!(get(&out, "_ntes_nnid"), Some("keep,5".to_string()));
    assert_eq!(get(&out, "__remember_me"), Some("true".to_string()));
    assert_eq!(get(&out, "osver"), Some("14".to_string()));
    assert_eq!(get(&out, "channel"), Some("xiaomi".to_string()));
    assert_eq!(get(&out, "os"), Some("android".to_string()));
    assert_eq!(get(&out, "NMTID"), None);
}

#[test]
fn processed_cookies_with_fresh_ids() {
    let out = process_cookie_object(&jar(&[]), "DEV", "/api/x");
    assert_eq!(get(&out, "_ntes_nuid").unwrap().len(), 64);
    assert_eq!(get(&out, "NMTID").unwrap().len(), 32);
}

#[test]
fn eapi_header_defaults_and_request_id() {
    let c = jar(&[("MUSIC_U", "u"), ("__csrf", "tok")]);
    let h = build_eapi_header_with(&c, "DEV", 77, 1_000, 7);
    assert_eq!(get(&h, "osver"), Some("undefined".to_string()));
    assert_eq!(get(&h, "deviceId"), Some("DEV".to_string()));
    assert_eq!(get(&h, "os"), Some("pc".to_string()));
    assert_eq!(get(&h, "appver"), Some("8.20.20.231215173437".to_string()));
    assert_eq!(get(&h, "versioncode"), Some("140".to_string()));
    assert_eq!(get(&h, "mobilename"), Some("".to_string()));
    assert_eq!(get(&h, "buildver"), Some("77".to_string()));
    assert_eq!(get(&h, "resolution"), Some("1920x1080".to_string()));
    assert_eq!(get(&h, "__csrf"), Some("tok".to_string()));
    assert_eq!(get(&h, "channel"), Some("netease".to_string()));
    assert_eq!(get(&h, "requestId"), Some("1000_0007".to_string()));
    assert_eq!(get(&h, "MUSIC_U"), Some("u".to_string()));
    assert_eq!(get(&h, "MUSIC_A"), None);
    let fresh = build_eapi_header(&c, "DEV");
    assert!(get(&fresh, "requestId").unwrap().contains('_'));
}

#[test]
fn chain_ids() {
    assert_eq!(chain_id_with(&jar(&[("sDeviceId", "S1")]), 5, 99), "v1_S1_web_login_99");
    assert_eq!(chain_id_with(&jar(&[]), 5, 99), "v1_unknown-5_web_login_99");
    assert!(generate_chain_id(&jar(&[])).starts_with("v1_unknown-"));
}

#[test]
fn cookie_strings_are_url_encoded() {
    let c = jar(&[("a b", "x/y"), ("k", "v~-._")]);
    assert_eq!(cookie_obj_to_string(&c), "a%20b=x%2Fy; k=v~-._");
    assert_eq!(create_header_cookie(&c), "a%20b=x%2Fy; k=v~-._");
    assert_eq!(cookie_obj_to_string(&jar(&[("名", "值")])), "%E5%90%8D=%E5%80%BC");
}

#[test]
fn set_cookie_headers_update_the_jar() {
    let mut c = jar(&[("a", "1")]);
    update_cookies(
        &mut c,
        &[
            "MUSIC_U=abc; Path=/; HttpOnly".to_string(),
            "a=2".to_string(),
            "".to_string(),
        ],
    );
    assert_eq!(get(&c, "MUSIC_U"), Some("abc".to_string()));
    assert_eq!(get(&c, "a"), Some("2".to_string()));
    assert_eq!(c.len(), 2);
}

#[test]
fn random_parts_have_their_shapes() {
    let h = random_hex_string(16);
    assert_eq!(h.len(), 32);
    assert!(h.chars().all(|c| c.is_ascii_hexdigit() && !c.is_ascii_uppercase()));
    let w = wnmcid();
    assert!(w.ends_with(".01.0"));
    assert!(w[..6].chars().all(|c| c.is_ascii_lowercase()));
    assert_eq!(&w[6..7], ".");
}

#[test]
fn profiles() {
    assert_eq!(OsProfile::pc().os, "pc");
    assert_eq!(OsProfile::linux().osver, "Deepin 20.9");
    assert_eq!(OsProfile::android().channel, "xiaomi");
    assert_eq!(OsProfile::iphone().os, "iPhone OS");
}

#[test]
fn client_state_login_and_urls() {
    let mut st = ClientState::new();
    assert!(!st.is_logged_in());
    assert!(st.needs_anonymous());
    assert_eq!(st.device_id(), "UNKNOWN");
    st.set_login_cookie("u1");
    assert!(st.is_logged_in());
    assert!(!st.needs_anonymous());
    assert_eq!(st.cookie_string(), "MUSIC_U=u1");
    assert_eq!(
        st.login_qr_url("KEY", QrPlatform::Pc),
        "https://music.163.com/login?codekey=KEY"
    );
    assert!(st
        .login_qr_url("KEY", QrPlatform::Web)
        .starts_with("https://music.163.com/login?codekey=KEY&chainId=v1_"));
    st.logout_local();
    assert!(!st.is_logged_in());
}

#[test]
fn paths_and_config() {
    assert_eq!(state_path("/data"), "/data/netease_state.json");
    assert_eq!(state_path("/data/"), "/data/netease_state.json");
    let cfg = NeteaseClientConfig::with_data_dir("/d".to_string());
    assert_eq!(cfg.domain, "https://music.163.com");
    assert_eq!(cfg.api_domain, "https://interface.music.163.com");
}

#[test]
fn set_cookie_pairs_are_trimmed_and_checked() {
    let mut c = jar(&[]);
    update_cookies(
        &mut c,
        &[
            "  name = v=1 ; Secure".to_string(),
            "novalue; a=b".to_string(),
            " =x".to_string(),
            "\u{3000}k\u{3000}=\u{a0}w".to_string(),
        ],
    );
    assert_eq!(get(&c, "name"), Some("v=1".to_string()));
    assert_eq!(get(&c, "k"), Some("w".to_string()));
    assert_eq!(get(&c, "a"), None);
    assert_eq!(c.len(), 2);
}
