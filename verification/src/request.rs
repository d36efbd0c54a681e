//! How a request to the service is addressed and encoded: its URL, its user
//! agent, its fallback host, and its encrypted form fields.
use vstd::prelude::*;
use vstd::utf8::encode_utf8;
use crate::crypto::{
    CryptoError, CryptoMode, ecb_hex_upper, eapi, eapi_payload, linuxapi, rsa_hex, weapi,
    weapi_params, EAPI_KEY, LINUXAPI_KEY,
};
use crate::text::{chars_of, push_char, push_chars, push_str, slice_to_vec, string_from_chars};
use crate::cookie_jar::CookieJar;
use crate::session::{build_eapi_header, cookie_obj_to_string, create_header_cookie, eapi_header, encoded_pairs};

verus! {

/// The user agent of weapi requests.
pub const UA_WEAPI_PC: &'static str = "Mozilla/5.0 (Macintosh; Intel Mac OS X 10_15_7) AppleWebKit/537.36 (KHTML, like Gecko) Chrome/124.0.0.0 Safari/537.36 Edg/124.0.0.0";

/// The user agent of linuxapi requests.
pub const UA_LINUX: &'static str = "Mozilla/5.0 (X11; Linux x86_64) AppleWebKit/537.36 (KHTML, like Gecko) Chrome/60.0.3112.90 Safari/537.36";

/// The user agent of eapi requests.
pub const UA_API_IPHONE: &'static str = "NeteaseMusic 9.0.90/5038 (iPhone; iOS 16.2; zh_CN)";

/// The user agent a request of the given mode presents.
pub fn user_agent(mode: CryptoMode) -> (r: &'static str)
    ensures
        mode == CryptoMode::Weapi ==> r@ == UA_WEAPI_PC@,
        mode == CryptoMode::Linuxapi ==> r@ == UA_LINUX@,
        mode == CryptoMode::Eapi ==> r@ == UA_API_IPHONE@,
{
    match mode {
        CryptoMode::Weapi => UA_WEAPI_PC,
        CryptoMode::Linuxapi => UA_LINUX,
        CryptoMode::Eapi => UA_API_IPHONE,
    }
}

/// `s` without its trailing `c`s (what `trim_end_matches(c)` gives).
pub open spec fn trim_end_char(s: Seq<char>, c: char) -> Seq<char>
    decreases s.len(),
{
    if s.len() > 0 && s.last() == c {
        trim_end_char(s.drop_last(), c)
    } else {
        s
    }
}

/// `s` without the leading repetitions of `p` (what `trim_start_matches(p)` gives).
pub open spec fn trim_start_seq(s: Seq<char>, p: Seq<char>) -> Seq<char>
    decreases s.len(),
{
    if p.len() > 0 && p.len() <= s.len() && s.take(p.len() as int) == p {
        trim_start_seq(s.skip(p.len() as int), p)
    } else {
        s
    }
}

fn trim_end_char_exec(s: &[char], c: char) -> (r: Vec<char>)
    ensures
        r@ == trim_end_char(s@, c),
{
    let mut n = s.len();
    assert(s@.take(n as int) == s@);
    while n > 0 && s[n - 1] == c
        invariant
            n <= s@.len(),
            trim_end_char(s@.take(n as int), c) == trim_end_char(s@, c),
        decreases n,
    {
        assert(s@.take(n as int).drop_last() == s@.take(n - 1));
        n = n - 1;
    }
    slice_to_vec(s, 0, n)
}

fn starts_with_at(s: &[char], i: usize, p: &[char]) -> (r: bool)
    requires
        i <= s@.len(),
    ensures
        r == (p@.len() <= s@.len() - i && s@.skip(i as int).take(p@.len() as int) == p@),
{
    if p.len() > s.len() - i {
        return false;
    }
    let n = s.len();
    let mut k: usize = 0;
    while k < p.len()
        invariant
            n == s@.len(),
            i <= s@.len(),
            p@.len() <= s@.len() - i,
            k <= p@.len(),
            forall|j: int| 0 <= j < k ==> s@[i + j] == p@[j],
        decreases p@.len() - k,
    {
        if s[i + k] != p[k] {
            assert(s@.skip(i as int).take(p@.len() as int)[k as int] != p@[k as int]);
            return false;
        }
        k = k + 1;
    }
    assert(s@.skip(i as int).take(p@.len() as int) =~= p@);
    true
}

fn trim_start_seq_exec(s: &[char], p: &[char]) -> (r: Vec<char>)
    ensures
        r@ == trim_start_seq(s@, p@),
{
    if p.len() == 0 {
        return slice_to_vec(s, 0, s.len());
    }
    let mut i: usize = 0;
    let n = s.len();
    assert(s@.skip(0) == s@);
    while starts_with_at(s, i, p)
        invariant
            n == s@.len(),
            i <= s@.len(),
            p@.len() > 0,
            trim_start_seq(s@.skip(i as int), p@) == trim_start_seq(s@, p@),
        decreases s@.len() - i,
    {
        assert(s@.skip(i as int).skip(p@.len() as int) == s@.skip(i + p@.len()));
        assert(i + p@.len() <= s@.len());
        i = i + p.len();
    }
    let r = slice_to_vec(s, i, s.len());
    assert(r@ == s@.skip(i as int));
    r
}

/// The URL of a request to `uri`: weapi and eapi requests go to `/weapi/` and
/// `/eapi/` with the URI's leading `/api/`s dropped (eapi on the API host);
/// linuxapi requests go to the forwarding endpoint.
pub open spec fn request_url_text(mode: CryptoMode, domain: Seq<char>, api_domain: Seq<char>, uri: Seq<char>) -> Seq<char> {
    match mode {
        CryptoMode::Weapi => trim_end_char(domain, '/') + "/weapi/"@ + trim_start_seq(uri, "/api/"@),
        CryptoMode::Eapi => trim_end_char(api_domain, '/') + "/eapi/"@ + trim_start_seq(
            uri,
            "/api/"@,
        ),
        CryptoMode::Linuxapi => trim_end_char(domain, '/') + "/api/linux/forward"@,
    }
}

/// Builds the URL of a request to `uri`.
pub fn request_url(mode: CryptoMode, domain: &str, api_domain: &str, uri: &str) -> (r: String)
    ensures
        r@ == request_url_text(mode, domain@, api_domain@, uri@),
{
    let host = match mode {
        CryptoMode::Eapi => chars_of(api_domain),
        _ => chars_of(domain),
    };
    let base = trim_end_char_exec(host.as_slice(), '/');
    let mut out = string_from_chars(base.as_slice());
    match mode {
        CryptoMode::Linuxapi => {
            push_str(&mut out, "/api/linux/forward");
        },
        _ => {
            match mode {
                CryptoMode::Eapi => push_str(&mut out, "/eapi/"),
                _ => push_str(&mut out, "/weapi/"),
            }
            let u = chars_of(uri);
            let api = chars_of("/api/");
            let rest = trim_start_seq_exec(u.as_slice(), api.as_slice());
            push_chars(&mut out, rest.as_slice());
        },
    }
    out
}

/// The URL the linuxapi request forwards to: the domain without trailing `/`
/// and the URI.
pub fn linux_forward_url(domain: &str, uri: &str) -> (r: String)
    ensures
        r@ == trim_end_char(domain@, '/') + uri@,
{
    let d = chars_of(domain);
    let base = trim_end_char_exec(d.as_slice(), '/');
    let mut out = string_from_chars(base.as_slice());
    push_str(&mut out, uri);
    out
}

/// `s` with every occurrence of `pat` replaced by `rep`, scanning from the
/// left without overlaps (what `str::replace` gives).
pub open spec fn replace_all(s: Seq<char>, pat: Seq<char>, rep: Seq<char>) -> Seq<char>
    decreases s.len(),
{
    if s.len() == 0 || pat.len() == 0 {
        s
    } else if pat.len() <= s.len() && s.take(pat.len() as int) == pat {
        rep + replace_all(s.skip(pat.len() as int), pat, rep)
    } else {
        seq![s[0]] + replace_all(s.skip(1), pat, rep)
    }
}

/// The API host that a failed request falls back from.
pub const API_HOST: &'static str = "https://interface.music.163.com/";

/// The host a failed API request falls back to.
pub const MAIN_HOST: &'static str = "https://music.163.com/";

/// The URL to retry a failed request at: where it addressed the API host,
/// the same URL on the main host; none otherwise.
pub fn fallback_url(url: &str) -> (r: Option<String>)
    ensures
        r is Some <==> crate::text::contains_seq(url@, API_HOST@),
        r matches Some(f) ==> f@ == replace_all(url@, API_HOST@, MAIN_HOST@),
{
    let s = chars_of(url);
    let pat = chars_of(API_HOST);
    let rep = chars_of(MAIN_HOST);
    if !crate::text::contains_chars(s.as_slice(), pat.as_slice()) {
        return None;
    }
    proof {
        reveal_strlit("https://interface.music.163.com/");
    }
    let mut out: Vec<char> = Vec::new();
    let mut i: usize = 0;
    assert(s@.skip(0) == s@);
    assert(out@ + replace_all(s@, pat@, rep@) =~= replace_all(s@, pat@, rep@));
    while i < s.len()
        invariant
            i <= s@.len(),
            pat@ == API_HOST@,
            pat@.len() > 0,
            out@ + replace_all(s@.skip(i as int), pat@, rep@) == replace_all(s@, pat@, rep@),
        decreases s@.len() - i,
    {
        let ghost rest = s@.skip(i as int);
        if starts_with_at(s.as_slice(), i, pat.as_slice()) {
            assert(rest.skip(pat@.len() as int) == s@.skip(i + pat@.len()));
            assert(i + pat@.len() <= s@.len());
            crate::text::extend_chars(&mut out, rep.as_slice());
            i = i + pat.len();
        } else {
            assert(rest.skip(1) == s@.skip(i + 1));
            out.push(s[i]);
            i = i + 1;
        }
    }
    assert(s@.skip(s@.len() as int) =~= Seq::<char>::empty());
    Some(string_from_chars(out.as_slice()))
}

/// The form fields of a request of the given mode carrying the JSON text:
/// weapi sends `params` and `encSecKey`, linuxapi `eparams`, eapi `params`.
pub fn encrypt_form(mode: CryptoMode, uri: &str, text: &str) -> (r: Result<Vec<(&'static str, String)>, CryptoError>)
    ensures
        mode == CryptoMode::Linuxapi ==> match ecb_hex_upper(encode_utf8(text@), encode_utf8(LINUXAPI_KEY@)) {
            Some(h) => r matches Ok(v) && v@.len() == 1 && v@[0].0@ == "eparams"@ && v@[0].1@ == h,
            None => r matches Err(CryptoError::EncryptPad),
        },
        mode == CryptoMode::Eapi ==> match ecb_hex_upper(encode_utf8(eapi_payload(uri@, text@)), encode_utf8(EAPI_KEY@)) {
            Some(h) => r matches Ok(v) && v@.len() == 1 && v@[0].0@ == "params"@ && v@[0].1@ == h,
            None => r matches Err(CryptoError::EncryptPad),
        },
        mode == CryptoMode::Weapi ==> exists|sk: Seq<u8>|
            sk.len() == 16 && match weapi_params(text@, sk) {
                None => r matches Err(CryptoError::EncryptPad),
                Some(p) => match rsa_hex(sk.reverse()) {
                    Ok(k) => r matches Ok(v) && v@.len() == 2 && v@[0].0@ == "params"@ && v@[0].1@
                        == p && v@[1].0@ == "encSecKey"@ && v@[1].1@ == k,
                    Err(e) => r matches Err(CryptoError::BadPublicKey(m)) && m@ == e,
                },
            },
{
    match mode {
        CryptoMode::Weapi => {
            let f = weapi(text)?;
            let mut v: Vec<(&'static str, String)> = Vec::new();
            v.push(("params", f.params));
            v.push(("encSecKey", f.enc_sec_key));
            Ok(v)
        },
        CryptoMode::Linuxapi => {
            let f = linuxapi(text)?;
            let mut v: Vec<(&'static str, String)> = Vec::new();
            v.push(("eparams", f.eparams));
            Ok(v)
        },
        CryptoMode::Eapi => {
            let f = eapi(uri, text)?;
            let mut v: Vec<(&'static str, String)> = Vec::new();
            v.push(("params", f.params));
            Ok(v)
        },
    }
}

/// What a request takes from its cookies, besides its body.
pub struct RequestCookies {
    /// The cookies the request sends: a weapi request adds `os=pc`.
    pub cookie: CookieJar,
    /// The body's `csrf_token` of a weapi request: the `__csrf` cookie, or empty.
    pub csrf_token: Option<String>,
    /// The header object an eapi request puts into its body.
    pub eapi_header: Option<CookieJar>,
    /// The `Cookie` header line: the request's cookies, or for eapi the header object.
    pub cookie_header: String,
    /// The `os` cookie the session keeps after an eapi request: the request's
    /// `os` cookie, or `pc`.
    pub session_os: Option<String>,
}

/// A cookie's value, or `d` where it is not set.
pub open spec fn cookie_or(m: Map<Seq<char>, Seq<char>>, k: Seq<char>, d: Seq<char>) -> Seq<char> {
    if m.dom().contains(k) {
        m[k]
    } else {
        d
    }
}

/// The cookie side of a request from its processed cookies (see
/// `process_cookie_object`): the CSRF token and `os=pc` for weapi, the eapi
/// header object and the `os` the session keeps for eapi, and the `Cookie`
/// header line that each mode sends.
pub fn request_cookies(mode: CryptoMode, cookie: CookieJar, device_id: &str) -> (r: RequestCookies)
    requires
        cookie.wf(),
    ensures
        r.cookie.wf(),
        mode == CryptoMode::Weapi ==> {
            &&& r.cookie@ == cookie@.insert("os"@, "pc"@)
            &&& r.csrf_token matches Some(t) && t@ == cookie_or(cookie@, "__csrf"@, ""@)
            &&& r.eapi_header is None
            &&& r.session_os is None
            &&& r.cookie_header@ == encoded_pairs(r.cookie.ordered())
        },
        mode == CryptoMode::Linuxapi ==> {
            &&& r.cookie == cookie
            &&& r.csrf_token is None
            &&& r.eapi_header is None
            &&& r.session_os is None
            &&& r.cookie_header@ == encoded_pairs(r.cookie.ordered())
        },
        mode == CryptoMode::Eapi ==> {
            &&& r.cookie == cookie
            &&& r.csrf_token is None
            &&& r.session_os matches Some(os) && os@ == cookie_or(cookie@, "os"@, "pc"@)
            &&& r.eapi_header matches Some(h) && h.wf() && r.cookie_header@ == encoded_pairs(h.ordered())
                && exists|secs: u64, ms: u128, rnd: usize|
                rnd < 1000 && h@ == eapi_header(cookie@, device_id@, secs, ms, rnd)
        },
{
    let mut cookie = cookie;
    match mode {
        CryptoMode::Weapi => {
            let csrf = match cookie.get("__csrf") {
                Some(v) => v.clone(),
                None => "".to_string(),
            };
            cookie.insert("os".to_string(), "pc".to_string());
            let cookie_header = cookie_obj_to_string(&cookie);
            RequestCookies { cookie, csrf_token: Some(csrf), eapi_header: None, cookie_header, session_os: None }
        },
        CryptoMode::Linuxapi => {
            let cookie_header = cookie_obj_to_string(&cookie);
            RequestCookies { cookie, csrf_token: None, eapi_header: None, cookie_header, session_os: None }
        },
        CryptoMode::Eapi => {
            let header = build_eapi_header(&cookie, device_id);
            let cookie_header = create_header_cookie(&header);
            let os = match cookie.get("os") {
                Some(v) => v.clone(),
                None => "pc".to_string(),
            };
            RequestCookies {
                cookie,
                csrf_token: None,
                eapi_header: Some(header),
                cookie_header,
                session_os: Some(os),
            }
        },
    }
}

} // verus!
