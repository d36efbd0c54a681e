//! The session with the service: its cookies, the cookies and header fields
//! sent with each request, and the strings built from them.
use vstd::prelude::*;
use vstd::utf8::encode_utf8;
use crate::cookie_jar::CookieJar;
use crate::text::{
    contains_chars, contains_seq, chars_of, dec_digits, join_seqs, push_char, push_chars,
    push_str, signed_dec, str_is, u128_dec_chars, u64_dec_chars, zero_pad, zero_pad_chars,
};
use crate::rng::{random_below, random_bytes};
pub use crate::clock::{now_millis, now_secs};
use crate::codec::hex_digit_upper;

verus! {

/// Whether a byte is left as it is by URL encoding: ASCII letters, digits, `-`, `.`, `_`, `~`.
pub open spec fn url_unreserved(b: u8) -> bool {
    (48 <= b <= 57) || (65 <= b <= 90) || (97 <= b <= 122) || b == 45 || b == 46 || b == 95
        || b == 126
}

/// Percent-encoding of bytes: unreserved bytes stay, every other byte becomes
/// `%` and two upper-case hexadecimal digits.
pub open spec fn url_encode_bytes(bs: Seq<u8>) -> Seq<char>
    decreases bs.len(),
{
    if bs.len() == 0 {
        seq![]
    } else {
        let b = bs[0];
        (if url_unreserved(b) {
            seq![b as char]
        } else {
            seq!['%', hex_digit_upper((b / 16) as int), hex_digit_upper((b % 16) as int)]
        }) + url_encode_bytes(bs.drop_first())
    }
}

/// The URL encoding of a text: its UTF-8 bytes, percent-encoded.
pub open spec fn url_encoded(s: Seq<char>) -> Seq<char> {
    url_encode_bytes(encode_utf8(s))
}

/// Percent-encodes a text through `urlencoding::encode`, which encodes every
/// UTF-8 byte except ASCII alphanumerics and `-`, `_`, `.`, `~`, with
/// upper-case hexadecimal digits.
#[verifier::external_body]
fn url_encode(s: &str) -> (r: String)
    ensures
        r@ == url_encoded(s@),
{
    urlencoding::encode(s).into_owned()
}

/// Whether a character has Unicode's `White_Space` property, which std's
/// `str::trim` removes.
pub open spec fn is_white_space(c: char) -> bool {
    ||| '\u{9}' <= c <= '\u{d}'
    ||| c == ' '
    ||| c == '\u{85}'
    ||| c == '\u{a0}'
    ||| c == '\u{1680}'
    ||| '\u{2000}' <= c <= '\u{200a}'
    ||| c == '\u{2028}'
    ||| c == '\u{2029}'
    ||| c == '\u{202f}'
    ||| c == '\u{205f}'
    ||| c == '\u{3000}'
}

/// The text without its leading white space.
pub open spec fn trim_start(s: Seq<char>) -> Seq<char>
    decreases s.len(),
{
    if s.len() > 0 && is_white_space(s[0]) {
        trim_start(s.drop_first())
    } else {
        s
    }
}

/// The text without its trailing white space.
pub open spec fn trim_end(s: Seq<char>) -> Seq<char>
    decreases s.len(),
{
    if s.len() > 0 && is_white_space(s.last()) {
        trim_end(s.drop_last())
    } else {
        s
    }
}

/// The text without white space at either end.
pub open spec fn trimmed(s: Seq<char>) -> Seq<char> {
    trim_end(trim_start(s))
}

/// Where `c` first occurs in `s`, if it does.
pub open spec fn first_index_of(s: Seq<char>, c: char) -> Option<int>
    decreases s.len(),
{
    if s.len() == 0 {
        None
    } else if s[0] == c {
        Some(0)
    } else {
        match first_index_of(s.drop_first(), c) {
            Some(i) => Some(i + 1),
            None => None,
        }
    }
}

/// The name and value of a `Set-Cookie` header as `cookie::Cookie::parse`
/// finds them: the text before the first `;`, split at its first `=`, each
/// side trimmed of white space; none where there is no `=` or the name is
/// empty.
pub open spec fn set_cookie_pair(header: Seq<char>) -> Option<(Seq<char>, Seq<char>)> {
    let kv = match first_index_of(header, ';') {
        Some(i) => header.take(i),
        None => header,
    };
    match first_index_of(kv, '=') {
        None => None,
        Some(i) => {
            let name = trimmed(kv.take(i));
            if name.len() == 0 {
                None
            } else {
                Some((name, trimmed(kv.skip(i + 1))))
            }
        },
    }
}

/// Parses a `Set-Cookie` header through `cookie::Cookie::parse` and keeps the
/// name and the value (`name()`, `value()`). Its `parse_inner` takes the part
/// before the first `;`, splits it at the first `=` and trims both sides with
/// `str::trim`; it refuses a missing `=` or an empty name, and skips what it
/// does not understand among the attributes.
#[verifier::external_body]
fn parse_set_cookie(header: &str) -> (r: Option<(String, String)>)
    ensures
        match r {
            Some((n, v)) => set_cookie_pair(header@) == Some((n@, v@)),
            None => set_cookie_pair(header@) is None,
        },
{
    match cookie::Cookie::parse(header.to_owned()) {
        Ok(c) => Some((c.name().to_owned(), c.value().to_owned())),
        Err(_) => None,
    }
}

/// `m` with `k` set to `v` where `k` has no value yet.
pub open spec fn with_default(m: Map<Seq<char>, Seq<char>>, k: Seq<char>, v: Seq<char>) -> Map<
    Seq<char>,
    Seq<char>,
> {
    if m.dom().contains(k) {
        m
    } else {
        m.insert(k, v)
    }
}

/// The value of `k`, or `d` where it has none.
pub open spec fn get_or(m: Map<Seq<char>, Seq<char>>, k: Seq<char>, d: Seq<char>) -> Seq<char> {
    if m.dom().contains(k) {
        m[k]
    } else {
        d
    }
}

/// The client identity a platform presents.
pub struct OsProfile {
    pub os: &'static str,
    pub appver: &'static str,
    pub osver: &'static str,
    pub channel: &'static str,
}

/// The profile (os, app version, os version, channel) for a platform name:
/// `linux`, `android` and `iphone` have their own, anything else is the PC one.
pub open spec fn profile_for(os: Seq<char>) -> (Seq<char>, Seq<char>, Seq<char>, Seq<char>) {
    if os == "linux"@ {
        ("linux"@, "1.2.1.0428"@, "Deepin 20.9"@, "netease"@)
    } else if os == "android"@ {
        ("android"@, "8.20.20.231215173437"@, "14"@, "xiaomi"@)
    } else if os == "iphone"@ {
        ("iPhone OS"@, "9.0.90"@, "16.2"@, "distribution"@)
    } else {
        ("pc"@, "3.1.17.204416"@, "Microsoft-Windows-10-Professional-build-19045-64bit"@, "netease"@)
    }
}

/// The profile as plain values.
pub open spec fn profile_view(p: OsProfile) -> (Seq<char>, Seq<char>, Seq<char>, Seq<char>) {
    (p.os@, p.appver@, p.osver@, p.channel@)
}

proof fn reveal_profile_names()
    ensures
        "pc"@ != "linux"@,
        "pc"@ != "android"@,
        "pc"@ != "iphone"@,
        "iphone"@ != "linux"@,
        "iphone"@ != "android"@,
        "android"@ != "linux"@,
{
    reveal_strlit("pc");
    reveal_strlit("linux");
    reveal_strlit("android");
    reveal_strlit("iphone");
    assert("pc"@.len() != "linux"@.len());
    assert("pc"@.len() != "android"@.len());
    assert("pc"@.len() != "iphone"@.len());
    assert("iphone"@[0] != "linux"@[0]);
    assert("iphone"@.len() != "android"@.len());
    assert("android"@.len() != "linux"@.len());
}

impl OsProfile {
    /// The Windows desktop client.
    pub fn pc() -> (r: Self)
        ensures
            profile_view(r) == profile_for("pc"@),
    {
        proof {
            reveal_profile_names();
        }
        OsProfile {
            os: "pc",
            appver: "3.1.17.204416",
            osver: "Microsoft-Windows-10-Professional-build-19045-64bit",
            channel: "netease",
        }
    }

    /// The Linux desktop client.
    pub fn linux() -> (r: Self)
        ensures
            profile_view(r) == profile_for("linux"@),
    {
        proof {
            reveal_profile_names();
        }
        OsProfile { os: "linux", appver: "1.2.1.0428", osver: "Deepin 20.9", channel: "netease" }
    }

    /// The Android client.
    pub fn android() -> (r: Self)
        ensures
            profile_view(r) == profile_for("android"@),
    {
        proof {
            reveal_profile_names();
        }
        OsProfile {
            os: "android",
            appver: "8.20.20.231215173437",
            osver: "14",
            channel: "xiaomi",
        }
    }

    /// The iPhone client.
    pub fn iphone() -> (r: Self)
        ensures
            profile_view(r) == profile_for("iphone"@),
    {
        proof {
            reveal_profile_names();
        }
        OsProfile { os: "iPhone OS", appver: "9.0.90", osver: "16.2", channel: "distribution" }
    }
}

fn profile_of_os(os: &str) -> (r: OsProfile)
    ensures
        profile_view(r) == profile_for(os@),
{
    proof {
        reveal_strlit("linux");
        reveal_strlit("android");
        reveal_strlit("iphone");
        reveal_strlit("pc");
    }
    if str_is(os, "linux") {
        OsProfile::linux()
    } else if str_is(os, "android") {
        OsProfile::android()
    } else if str_is(os, "iphone") {
        OsProfile::iphone()
    } else {
        OsProfile::pc()
    }
}

/// The cookies sent with a request to `uri`, from the session's cookies: the
/// tracking ids (`nuid`, made of it the `_ntes_nnid` with the time, the
/// `WNMCID` and, off the login pages, the `NMTID`) where missing, the fixed
/// flags, and the platform profile's fields where missing.
pub open spec fn processed_cookies(
    m: Map<Seq<char>, Seq<char>>,
    device_id: Seq<char>,
    uri: Seq<char>,
    now_ms: u128,
    nuid: Seq<char>,
    wnmcid: Seq<char>,
    nmtid: Seq<char>,
) -> Map<Seq<char>, Seq<char>> {
    let nuid_v = get_or(m, "_ntes_nuid"@, nuid);
    let m1 = with_default(m, "_ntes_nuid"@, nuid);
    let m2 = m1.insert("__remember_me"@, "true"@).insert("ntes_kaola_ad"@, "1"@);
    let m3 = with_default(m2, "_ntes_nnid"@, nuid_v + ","@ + dec_digits(now_ms as nat));
    let m4 = with_default(m3, "WNMCID"@, wnmcid);
    let m5 = with_default(m4, "WEVNSM"@, "1.0.0"@);
    let p = profile_for(get_or(m5, "os"@, "pc"@));
    let m6 = with_default(m5, "osver"@, p.2);
    let m7 = with_default(m6, "deviceId"@, device_id);
    let m8 = with_default(m7, "os"@, p.0);
    let m9 = with_default(m8, "channel"@, p.3);
    let m10 = with_default(m9, "appver"@, p.1);
    if contains_seq(uri, "login"@) {
        m10
    } else {
        with_default(m10, "NMTID"@, nmtid)
    }
}

/// Builds the request cookies from the session's cookies, given the time and
/// the tracking ids to use where they are missing.
pub fn process_cookie_object_with(
    cookies: &CookieJar,
    device_id: &str,
    uri: &str,
    now_ms: u128,
    nuid: String,
    wnmcid: String,
    nmtid: String,
) -> (r: CookieJar)
    requires
        cookies.wf(),
    ensures
        r.wf(),
        r@ == processed_cookies(cookies@, device_id@, uri@, now_ms, nuid@, wnmcid@, nmtid@),
{
    proof {
        reveal_strlit("login");
        reveal_strlit(",");
    }
    let mut c = cookies.duplicate();
    c.set_default("_ntes_nuid", nuid);
    let nuid_v = match c.get("_ntes_nuid") {
        Some(v) => v.clone(),
        None => String::new(),
    };
    c.insert("__remember_me".to_string(), "true".to_string());
    c.insert("ntes_kaola_ad".to_string(), "1".to_string());
    let mut nnid = nuid_v;
    push_str(&mut nnid, ",");
    push_chars(&mut nnid, u128_dec_chars(now_ms).as_slice());
    c.set_default("_ntes_nnid", nnid);
    c.set_default("WNMCID", wnmcid);
    c.set_default("WEVNSM", "1.0.0".to_string());
    let profile = match c.get("os") {
        Some(os) => profile_of_os(os.as_str()),
        None => OsProfile::pc(),
    };
    c.set_default("osver", profile.osver.to_string());
    c.set_default("deviceId", device_id.to_string());
    c.set_default("os", profile.os.to_string());
    c.set_default("channel", profile.channel.to_string());
    c.set_default("appver", profile.appver.to_string());
    let uri_chars = chars_of(uri);
    let login = chars_of("login");
    if !contains_chars(uri_chars.as_slice(), login.as_slice()) {
        c.set_default("NMTID", nmtid);
    }
    c
}

/// `n` random bytes as lower-case hexadecimal.
pub fn random_hex_string(bytes: usize) -> (r: String)
    ensures
        exists|b: Seq<u8>| b.len() == bytes && r@ == crate::codec::hex_lower(b),
{
    let b = random_bytes(bytes);
    crate::codec::hex_encode(b.as_slice())
}

/// The `WNMCID` cookie: six letters from `a` to `z`, then `.`, the time in
/// milliseconds, and `.01.0`.
pub open spec fn wnmcid_text(letters: Seq<char>, now_ms: u128) -> Seq<char> {
    letters + seq!['.'] + dec_digits(now_ms as nat) + ".01.0"@
}

/// Whether every character is a lower-case ASCII letter.
pub open spec fn all_lowercase(s: Seq<char>) -> bool {
    forall|i: int| 0 <= i < s.len() ==> 'a' <= #[trigger] s[i] <= 'z'
}

fn letter_at(i: usize) -> (c: char)
    requires
        i < 26,
    ensures
        c == (97 + i) as char,
        'a' <= c <= 'z',
{
    let b: u8 = 97u8 + (i as u8);
    b as char
}

/// A fresh `WNMCID` value, from random letters and the clock.
pub fn wnmcid() -> (r: String)
    ensures
        exists|letters: Seq<char>, ms: u128|
            letters.len() == 6 && all_lowercase(letters) && r@ == wnmcid_text(letters, ms),
{
    let mut letters: Vec<char> = Vec::new();
    let mut k: usize = 0;
    while k < 6
        invariant
            k <= 6,
            letters@.len() == k,
            all_lowercase(letters@),
        decreases 6 - k,
    {
        let idx = random_below(26);
        letters.push(letter_at(idx));
        k = k + 1;
    }
    let ms = now_millis();
    let mut out = String::new();
    push_chars(&mut out, letters.as_slice());
    push_char(&mut out, '.');
    push_chars(&mut out, u128_dec_chars(ms).as_slice());
    push_str(&mut out, ".01.0");
    proof {
        assert(out@ =~= wnmcid_text(letters@, ms));
    }
    out
}

/// Builds the request cookies from the session's cookies, with fresh
/// tracking ids and the current time where they are needed.
pub fn process_cookie_object(cookies: &CookieJar, device_id: &str, uri: &str) -> (r: CookieJar)
    requires
        cookies.wf(),
    ensures
        r.wf(),
        exists|now_ms: u128, nuid: Seq<char>, w: Seq<char>, nmtid: Seq<char>|
            r@ == processed_cookies(cookies@, device_id@, uri@, now_ms, nuid, w, nmtid),
{
    let now_ms = now_millis();
    let nuid = random_hex_string(32);
    let w = wnmcid();
    let nmtid = random_hex_string(16);
    process_cookie_object_with(cookies, device_id, uri, now_ms, nuid, w, nmtid)
}

/// The header fields of an encrypted-API request: the profile fields and the
/// CSRF token from the cookies, with defaults where missing (the build version
/// defaults to the time in seconds), a request id made of the time in
/// milliseconds, `_` and a four-digit number, and the login cookies where present.
pub open spec fn eapi_header(
    m: Map<Seq<char>, Seq<char>>,
    device_id: Seq<char>,
    now_secs: u64,
    now_ms: u128,
    rnd: usize,
) -> Map<Seq<char>, Seq<char>> {
    let h = Map::<Seq<char>, Seq<char>>::empty().insert(
        "osver"@,
        get_or(m, "osver"@, "undefined"@),
    ).insert("deviceId"@, get_or(m, "deviceId"@, device_id)).insert(
        "os"@,
        get_or(m, "os"@, "pc"@),
    ).insert("appver"@, get_or(m, "appver"@, "8.20.20.231215173437"@)).insert(
        "versioncode"@,
        get_or(m, "versioncode"@, "140"@),
    ).insert("mobilename"@, get_or(m, "mobilename"@, ""@)).insert(
        "buildver"@,
        get_or(m, "buildver"@, dec_digits(now_secs as nat)),
    ).insert("resolution"@, get_or(m, "resolution"@, "1920x1080"@)).insert(
        "__csrf"@,
        get_or(m, "__csrf"@, ""@),
    ).insert("channel"@, get_or(m, "channel"@, "netease"@)).insert(
        "requestId"@,
        dec_digits(now_ms as nat) + seq!['_'] + zero_pad(dec_digits(rnd as nat), 4),
    );
    let h2 = if m.dom().contains("MUSIC_U"@) {
        h.insert("MUSIC_U"@, m["MUSIC_U"@])
    } else {
        h
    };
    if m.dom().contains("MUSIC_A"@) {
        h2.insert("MUSIC_A"@, m["MUSIC_A"@])
    } else {
        h2
    }
}

fn get_or_string(c: &CookieJar, k: &str, d: &str) -> (r: String)
    requires
        c.wf(),
    ensures
        r@ == get_or(c@, k@, d@),
{
    match c.get(k) {
        Some(v) => v.clone(),
        None => d.to_string(),
    }
}

/// Builds the encrypted-API header fields, given the time and the random
/// part of the request id.
pub fn build_eapi_header_with(
    cookie: &CookieJar,
    device_id: &str,
    now_secs: u64,
    now_ms: u128,
    rnd: usize,
) -> (r: CookieJar)
    requires
        cookie.wf(),
    ensures
        r.wf(),
        r@ == eapi_header(cookie@, device_id@, now_secs, now_ms, rnd),
{
    let mut h = CookieJar::new();
    h.insert("osver".to_string(), get_or_string(cookie, "osver", "undefined"));
    h.insert("deviceId".to_string(), get_or_string(cookie, "deviceId", device_id));
    h.insert("os".to_string(), get_or_string(cookie, "os", "pc"));
    h.insert("appver".to_string(), get_or_string(cookie, "appver", "8.20.20.231215173437"));
    h.insert("versioncode".to_string(), get_or_string(cookie, "versioncode", "140"));
    h.insert("mobilename".to_string(), get_or_string(cookie, "mobilename", ""));
    let buildver = match cookie.get("buildver") {
        Some(v) => v.clone(),
        None => {
            let mut s = String::new();
            push_chars(&mut s, u64_dec_chars(now_secs).as_slice());
            s
        },
    };
    h.insert("buildver".to_string(), buildver);
    h.insert("resolution".to_string(), get_or_string(cookie, "resolution", "1920x1080"));
    h.insert("__csrf".to_string(), get_or_string(cookie, "__csrf", ""));
    h.insert("channel".to_string(), get_or_string(cookie, "channel", "netease"));
    let mut rid = String::new();
    push_chars(&mut rid, u128_dec_chars(now_ms).as_slice());
    push_char(&mut rid, '_');
    let digits = u64_dec_chars(rnd as u64);
    push_chars(&mut rid, zero_pad_chars(digits.as_slice(), 4).as_slice());
    proof {
        assert(rid@ =~= dec_digits(now_ms as nat) + seq!['_'] + zero_pad(dec_digits(rnd as nat), 4));
    }
    h.insert("requestId".to_string(), rid);
    if let Some(v) = cookie.get("MUSIC_U") {
        h.insert("MUSIC_U".to_string(), v.clone());
    }
    if let Some(v) = cookie.get("MUSIC_A") {
        h.insert("MUSIC_A".to_string(), v.clone());
    }
    h
}

/// Builds the encrypted-API header fields with the current time and a random
/// request number below 1000.
pub fn build_eapi_header(cookie: &CookieJar, device_id: &str) -> (r: CookieJar)
    requires
        cookie.wf(),
    ensures
        r.wf(),
        exists|secs: u64, ms: u128, rnd: usize|
            rnd < 1000 && r@ == eapi_header(cookie@, device_id@, secs, ms, rnd),
{
    let secs = now_secs();
    let ms = now_millis();
    let rnd = random_below(1000);
    build_eapi_header_with(cookie, device_id, secs, ms, rnd)
}

/// The chain id of a web QR login: `v1_`, the `sDeviceId` cookie (or
/// `unknown-` and a random number), `_web_login_`, the time in milliseconds.
pub open spec fn chain_id_text(m: Map<Seq<char>, Seq<char>>, random_num: u32, ts: u128) -> Seq<char> {
    "v1_"@ + get_or(m, "sDeviceId"@, "unknown-"@ + dec_digits(random_num as nat)) + "_web_login_"@
        + dec_digits(ts as nat)
}

/// Builds a chain id from the cookies, a random number and the time.
pub fn chain_id_with(cookies: &CookieJar, random_num: u32, ts: u128) -> (r: String)
    requires
        cookies.wf(),
    ensures
        r@ == chain_id_text(cookies@, random_num, ts),
{
    let device = match cookies.get("sDeviceId") {
        Some(v) => v.clone(),
        None => {
            let mut s = "unknown-".to_string();
            push_chars(&mut s, u64_dec_chars(random_num as u64).as_slice());
            s
        },
    };
    let mut out = "v1_".to_string();
    push_str(&mut out, device.as_str());
    push_str(&mut out, "_web_login_");
    push_chars(&mut out, u128_dec_chars(ts).as_slice());
    proof {
        assert(out@ =~= chain_id_text(cookies@, random_num, ts));
    }
    out
}

/// Builds a chain id with a random number below one million and the current time.
pub fn generate_chain_id(cookies: &CookieJar) -> (r: String)
    requires
        cookies.wf(),
    ensures
        exists|n: u32, ts: u128| n < 1_000_000 && r@ == chain_id_text(cookies@, n, ts),
{
    let n = random_below(1_000_000) as u32;
    let ts = now_millis();
    chain_id_with(cookies, n, ts)
}

/// The entries joined as `name=value` pairs, both URL-encoded, separated by `; `.
pub open spec fn encoded_pairs(entries: Seq<(Seq<char>, Seq<char>)>) -> Seq<char> {
    join_seqs(
        entries.map_values(
            |e: (Seq<char>, Seq<char>)| url_encoded(e.0) + seq!['='] + url_encoded(e.1),
        ),
        "; "@,
    )
}

/// The entries as a cookie header value, each name and value URL-encoded.
pub fn cookie_obj_to_string(cookie: &CookieJar) -> (r: String)
    ensures
        r@ == encoded_pairs(cookie.ordered()),
{
    let n = cookie.len();
    let ghost pieces = cookie.ordered().map_values(
        |e: (Seq<char>, Seq<char>)| url_encoded(e.0) + seq!['='] + url_encoded(e.1),
    );
    let mut out = String::new();
    let mut i: usize = 0;
    while i < n
        invariant
            n == cookie.ordered().len(),
            i <= n,
            pieces == cookie.ordered().map_values(
                |e: (Seq<char>, Seq<char>)| url_encoded(e.0) + seq!['='] + url_encoded(e.1),
            ),
            out@ == join_seqs(pieces.take(i as int), "; "@),
        decreases n - i,
    {
        let (k, v) = cookie.entry(i);
        let ghost taken = pieces.take(i + 1);
        assert(taken.drop_last() == pieces.take(i as int));
        if i > 0 {
            push_str(&mut out, "; ");
        } else {
            assert(taken.len() == 1);
        }
        let ek = url_encode(k.as_str());
        let ev = url_encode(v.as_str());
        push_str(&mut out, ek.as_str());
        push_char(&mut out, '=');
        push_str(&mut out, ev.as_str());
        i = i + 1;
        proof {
            assert(taken.last() == url_encoded(k@) + seq!['='] + url_encoded(v@));
            if i > 1 {
                assert(out@ =~= join_seqs(taken.drop_last(), "; "@) + "; "@ + taken.last());
            } else {
                assert(out@ =~= taken.last());
            }
        }
    }
    assert(pieces.take(n as int) == pieces);
    out
}

/// The header fields as a cookie header value, each name and value URL-encoded.
pub fn create_header_cookie(header: &CookieJar) -> (r: String)
    ensures
        r@ == encoded_pairs(header.ordered()),
{
    cookie_obj_to_string(header)
}

/// The cookies after the `Set-Cookie` headers: each header that parses sets
/// its cookie, in order.
pub open spec fn after_set_cookies(m: Map<Seq<char>, Seq<char>>, headers: Seq<Seq<char>>) -> Map<
    Seq<char>,
    Seq<char>,
>
    decreases headers.len(),
{
    if headers.len() == 0 {
        m
    } else {
        let m1 = after_set_cookies(m, headers.drop_last());
        match set_cookie_pair(headers.last()) {
            Some((n, v)) => m1.insert(n, v),
            None => m1,
        }
    }
}

/// Records the cookies that the response's `Set-Cookie` headers set.
pub fn update_cookies(cookies: &mut CookieJar, set_cookie_headers: &[String])
    requires
        old(cookies).wf(),
    ensures
        final(cookies).wf(),
        final(cookies)@ == after_set_cookies(
            old(cookies)@,
            set_cookie_headers@.map_values(|h: String| h@),
        ),
{
    let ghost hs = set_cookie_headers@.map_values(|h: String| h@);
    let mut i: usize = 0;
    while i < set_cookie_headers.len()
        invariant
            i <= set_cookie_headers@.len(),
            hs == set_cookie_headers@.map_values(|h: String| h@),
            cookies.wf(),
            cookies@ == after_set_cookies(old(cookies)@, hs.take(i as int)),
        decreases set_cookie_headers@.len() - i,
    {
        assert(hs.take(i + 1).drop_last() == hs.take(i as int));
        if let Some((name, value)) = parse_set_cookie(set_cookie_headers[i].as_str()) {
            cookies.insert(name, value);
        }
        i = i + 1;
    }
    assert(hs.take(set_cookie_headers@.len() as int) == hs);
}

/// Where the session state is stored in the data directory.
pub open spec fn state_file(data_dir: Seq<char>) -> Seq<char> {
    if data_dir.len() == 0 || data_dir.last() == '/' {
        data_dir + "netease_state.json"@
    } else {
        data_dir + seq!['/'] + "netease_state.json"@
    }
}

/// The session state's file in the data directory.
pub fn state_path(data_dir: &str) -> (r: String)
    ensures
        r@ == state_file(data_dir@),
{
    let d = chars_of(data_dir);
    let mut out = data_dir.to_string();
    if d.len() > 0 && d[d.len() - 1] != '/' {
        push_char(&mut out, '/');
    }
    push_str(&mut out, "netease_state.json");
    out
}

/// Where the service lives.
pub struct NeteaseClientConfig {
    pub domain: String,
    pub api_domain: String,
    pub data_dir: String,
}

impl NeteaseClientConfig {
    /// The public service addresses, with the given data directory.
    pub fn with_data_dir(data_dir: String) -> (r: Self)
        ensures
            r.domain@ == "https://music.163.com"@,
            r.api_domain@ == "https://interface.music.163.com"@,
            r.data_dir == data_dir,
    {
        NeteaseClientConfig {
            domain: "https://music.163.com".to_string(),
            api_domain: "https://interface.music.163.com".to_string(),
            data_dir,
        }
    }
}

/// How a QR login code is shown.
#[derive(Debug, Clone, Copy, PartialEq, Eq, Structural)]
pub enum QrPlatform {
    Pc,
    Web,
}

/// The account a cookie was checked against.
#[derive(Debug)]
pub struct ValidateCookieResult {
    pub uid: i64,
    pub nickname: String,
}

/// What the session keeps between runs: its cookies and the device id.
pub struct ClientState {
    pub cookies: CookieJar,
    pub device_id: Option<String>,
}

/// The URL a QR code points at for a login key; for the web platform with a
/// chain id.
pub open spec fn qr_url_text(key: Seq<char>, web_chain_id: Option<Seq<char>>) -> Seq<char> {
    let base = "https://music.163.com/login?codekey="@ + key;
    match web_chain_id {
        Some(c) => base + "&chainId="@ + c,
        None => base,
    }
}

impl ClientState {
    /// A session with no cookies and no device id.
    pub fn new() -> (r: Self)
        ensures
            r.cookies.wf(),
            r.cookies@ == Map::<Seq<char>, Seq<char>>::empty(),
            r.device_id is None,
    {
        ClientState { cookies: CookieJar::new(), device_id: None }
    }

    /// Whether a user is logged in: the `MUSIC_U` cookie is set.
    pub fn is_logged_in(&self) -> (r: bool)
        requires
            self.cookies.wf(),
        ensures
            r == self.cookies@.dom().contains("MUSIC_U"@),
    {
        self.cookies.contains_key("MUSIC_U")
    }

    /// Whether an anonymous registration is needed: neither a user nor an
    /// anonymous session is set up (no `MUSIC_U`, no `MUSIC_A`).
    pub fn needs_anonymous(&self) -> (r: bool)
        requires
            self.cookies.wf(),
        ensures
            r == (!self.cookies@.dom().contains("MUSIC_U"@) && !self.cookies@.dom().contains(
                "MUSIC_A"@,
            )),
    {
        !self.cookies.contains_key("MUSIC_U") && !self.cookies.contains_key("MUSIC_A")
    }

    /// The device id, or `UNKNOWN` before one was made.
    pub fn device_id(&self) -> (r: &str)
        ensures
            r@ == match self.device_id {
                Some(d) => d@,
                None => "UNKNOWN"@,
            },
    {
        match &self.device_id {
            Some(d) => d.as_str(),
            None => "UNKNOWN",
        }
    }

    /// The cookies as `name=value` pairs joined by `; `, unencoded.
    pub fn cookie_string(&self) -> (r: String)
        ensures
            r@ == join_seqs(
                self.cookies.ordered().map_values(
                    |e: (Seq<char>, Seq<char>)| e.0 + seq!['='] + e.1,
                ),
                "; "@,
            ),
    {
        let n = self.cookies.len();
        let ghost pieces = self.cookies.ordered().map_values(
            |e: (Seq<char>, Seq<char>)| e.0 + seq!['='] + e.1,
        );
        let mut out = String::new();
        let mut i: usize = 0;
        while i < n
            invariant
                n == self.cookies.ordered().len(),
                i <= n,
                pieces == self.cookies.ordered().map_values(
                    |e: (Seq<char>, Seq<char>)| e.0 + seq!['='] + e.1,
                ),
                out@ == join_seqs(pieces.take(i as int), "; "@),
            decreases n - i,
        {
            let (k, v) = self.cookies.entry(i);
            let ghost taken = pieces.take(i + 1);
            assert(taken.drop_last() == pieces.take(i as int));
            if i > 0 {
                push_str(&mut out, "; ");
            } else {
                assert(taken.len() == 1);
            }
            push_str(&mut out, k.as_str());
            push_char(&mut out, '=');
            push_str(&mut out, v.as_str());
            i = i + 1;
            proof {
                assert(taken.last() == k@ + seq!['='] + v@);
                if i > 1 {
                    assert(out@ =~= join_seqs(taken.drop_last(), "; "@) + "; "@ + taken.last());
                } else {
                    assert(out@ =~= taken.last());
                }
            }
        }
        assert(pieces.take(n as int) == pieces);
        out
    }

    /// Forgets every cookie (logging out on this machine).
    pub fn logout_local(&mut self)
        ensures
            final(self).cookies.wf(),
            final(self).cookies@ == Map::<Seq<char>, Seq<char>>::empty(),
            final(self).device_id == old(self).device_id,
    {
        self.cookies = CookieJar::new();
    }

    /// Sets the `MUSIC_U` login cookie to the given value.
    pub fn set_login_cookie(&mut self, music_u: &str)
        requires
            old(self).cookies.wf(),
        ensures
            final(self).cookies.wf(),
            final(self).cookies@ == old(self).cookies@.insert("MUSIC_U"@, music_u@),
            final(self).device_id == old(self).device_id,
    {
        self.cookies.insert("MUSIC_U".to_string(), music_u.to_string());
    }

    /// The URL a QR code shows for a login key, with a fresh chain id on the web.
    pub fn login_qr_url(&self, key: &str, platform: QrPlatform) -> (r: String)
        requires
            self.cookies.wf(),
        ensures
            platform == QrPlatform::Pc ==> r@ == qr_url_text(key@, None),
            platform == QrPlatform::Web ==> exists|n: u32, ts: u128|
                r@ == qr_url_text(key@, Some(chain_id_text(self.cookies@, n, ts))),
    {
        let mut url = "https://music.163.com/login?codekey=".to_string();
        push_str(&mut url, key);
        if platform == QrPlatform::Web {
            let chain_id = generate_chain_id(&self.cookies);
            push_str(&mut url, "&chainId=");
            push_str(&mut url, chain_id.as_str());
            proof {
                let n = choose|n: u32, ts: u128| n < 1_000_000 && chain_id@ == chain_id_text(
                    self.cookies@,
                    n,
                    ts,
                );
                assert(url@ =~= qr_url_text(key@, Some(chain_id@)));
            }
        } else {
            assert(url@ =~= qr_url_text(key@, None));
        }
        url
    }
}

} // verus!
