//! The request encryptions of the service's three APIs (weapi, eapi,
//! linuxapi), the decryption of eapi replies, and the device identity.
use vstd::prelude::*;
use vstd::utf8::encode_utf8;
use vstd::arithmetic::power::pow;
use crate::codec::{
    aes128_cbc_encrypt, aes128_cbc_pkcs7, aes128_ecb_decrypt, aes128_ecb_encrypt,
    aes128_ecb_pkcs7, aes128_ecb_pkcs7_decrypt, base64_encode, base64_standard, hex_decode,
    hex_decode_bytes, hex_encode, hex_encode_upper, hex_lower, hex_upper, md5, md5_digest,
    mod_pow_be, rsa_public_key_parts, rsa_pem_key, be_bytes, be_value, string_from_utf8,
};
use crate::rng::{random_bytes, random_u32};
use crate::text::{push_char, push_str};

verus! {

/// The encryption an API uses.
#[derive(Debug, Clone, Copy, PartialEq, Eq, Structural)]
pub enum CryptoMode {
    Weapi,
    Eapi,
    Linuxapi,
}

/// The form fields of a weapi request.
pub struct WeapiForm {
    pub params: String,
    pub enc_sec_key: String,
}

/// The form field of an eapi request.
pub struct EapiForm {
    pub params: String,
}

/// The form field of a linuxapi request.
pub struct LinuxapiForm {
    pub eparams: String,
}

/// Why an encryption or decryption failed.
#[derive(Debug)]
pub enum CryptoError {
    EncryptPad,
    BadPublicKey(String),
    BadHex(hex::FromHexError),
    BadPadding(block_padding::UnpadError),
    BadUtf8(std::string::FromUtf8Error),
}

/// The text of a hex decoding error, through `hex::FromHexError`'s `Display`.
#[verifier::external_body]
fn hex_error_text(e: &hex::FromHexError) -> String {
    e.to_string()
}

/// The text of an unpadding error, through `UnpadError`'s `Display`.
#[verifier::external_body]
fn unpad_error_text(e: &block_padding::UnpadError) -> String {
    e.to_string()
}

/// The text of a UTF-8 error, through `FromUtf8Error`'s `Display`.
#[verifier::external_body]
fn utf8_error_text(e: &std::string::FromUtf8Error) -> String {
    e.to_string()
}

impl CryptoError {
    /// The message this error shows.
    pub fn message(&self) -> (r: String)
        ensures
            self matches CryptoError::EncryptPad ==> r@ == "AES 加密 padding 错误"@,
            self matches CryptoError::BadPublicKey(m) ==> r@ == "RSA 公钥解析失败: "@ + m@,
            self matches CryptoError::BadHex(_) ==> exists|t: Seq<char>| r@ == "hex 解码失败: "@ + t,
            self matches CryptoError::BadPadding(_) ==> exists|t: Seq<char>| r@
                == "AES 解密 padding 错误: "@ + t,
            self matches CryptoError::BadUtf8(_) ==> exists|t: Seq<char>| r@ == "UTF-8 解码失败: "@ + t,
    {
        match self {
            CryptoError::EncryptPad => "AES 加密 padding 错误".to_string(),
            CryptoError::BadPublicKey(m) => {
                let mut s = "RSA 公钥解析失败: ".to_string();
                push_str(&mut s, m.as_str());
                s
            },
            CryptoError::BadHex(e) => {
                let t = hex_error_text(e);
                let mut s = "hex 解码失败: ".to_string();
                push_str(&mut s, t.as_str());
                assert(s@ == "hex 解码失败: "@ + t@);
                s
            },
            CryptoError::BadPadding(e) => {
                let t = unpad_error_text(e);
                let mut s = "AES 解密 padding 错误: ".to_string();
                push_str(&mut s, t.as_str());
                assert(s@ == "AES 解密 padding 错误: "@ + t@);
                s
            },
            CryptoError::BadUtf8(e) => {
                let t = utf8_error_text(e);
                let mut s = "UTF-8 解码失败: ".to_string();
                push_str(&mut s, t.as_str());
                assert(s@ == "UTF-8 解码失败: "@ + t@);
                s
            },
        }
    }
}

/// The IV of the weapi encryption.
pub const IV: &'static str = "0102030405060708";

/// The first weapi key.
pub const PRESET_KEY: &'static str = "0CoJUm6Qyw8W8jud";

/// The linuxapi key.
pub const LINUXAPI_KEY: &'static str = "rFgB&h#%2?^eDg:Q";

/// The alphabet of the random weapi key.
pub const BASE62: &'static str = "abcdefghijklmnopqrstuvwxyzABCDEFGHIJKLMNOPQRSTUVWXYZ0123456789";

/// The eapi key.
pub const EAPI_KEY: &'static str = "e82ckenh8dichen8";

/// The service's RSA public key.
pub const PUBLIC_KEY_PEM: &'static str = "-----BEGIN PUBLIC KEY-----\nMIGfMA0GCSqGSIb3DQEBAQUAA4GNADCBiQKBgQDgtQn2JZ34ZC28NWYpAUd98iZ3\n7BUrX/aKzmFbt7clFSs6sXqHauqKWqdtLkF2KexO40H1YTX8z2lSgBBOAxLsvakl\nV8k4cBFK9snQXE9/DDaFt6Rr7iVZMldczhC0JNgTz+SHXT6CBHuX3e9SdB1Ua44o\nncaTWz7OBGLbCiK45wIDAQAB\n-----END PUBLIC KEY-----";

/// The UTF-8 bytes of a 16-character ASCII key.
fn key_bytes(k: &str) -> (r: Vec<u8>)
    requires
        k@.len() == 16,
        vstd::utf8::is_ascii_chars(k@),
    ensures
        r@ == encode_utf8(k@),
        r@.len() == 16,
{
    let b = k.as_bytes();
    proof {
        vstd::utf8::is_ascii_chars_encode_utf8(k@);
    }
    let mut v: Vec<u8> = Vec::new();
    let mut i: usize = 0;
    while i < b.len()
        invariant
            i <= b@.len(),
            v@ == b@.take(i as int),
        decreases b@.len() - i,
    {
        v.push(b[i]);
        i = i + 1;
        assert(b@.take(i as int) == b@.take(i - 1).push(b@[i - 1]));
    }
    assert(b@.take(b@.len() as int) == b@);
    v
}

fn str_bytes(s: &str) -> (r: Vec<u8>)
    ensures
        r@ == encode_utf8(s@),
{
    let b = s.as_bytes();
    let mut v: Vec<u8> = Vec::new();
    let mut i: usize = 0;
    while i < b.len()
        invariant
            i <= b@.len(),
            v@ == b@.take(i as int),
        decreases b@.len() - i,
    {
        v.push(b[i]);
        i = i + 1;
        assert(b@.take(i as int) == b@.take(i - 1).push(b@[i - 1]));
    }
    assert(b@.take(b@.len() as int) == b@);
    v
}

/// Standard Base64 of the AES-CBC encryption, or none where padding fails.
pub open spec fn cbc_base64(pt: Seq<u8>, key: Seq<u8>, iv: Seq<u8>) -> Option<Seq<char>> {
    match aes128_cbc_pkcs7(pt, key, iv) {
        Some(ct) => Some(base64_standard(ct)),
        None => None,
    }
}

fn cbc_base64_exec(pt: &[u8], key: &[u8], iv: &[u8]) -> (r: Option<String>)
    requires
        key@.len() == 16,
        iv@.len() == 16,
    ensures
        match r {
            Some(s) => cbc_base64(pt@, key@, iv@) == Some(s@),
            None => cbc_base64(pt@, key@, iv@) is None,
        },
{
    match aes128_cbc_encrypt(pt, key, iv) {
        Some(ct) => Some(base64_encode(ct.as_slice())),
        None => None,
    }
}

/// The weapi `params`: the JSON text encrypted with the preset key, in Base64,
/// encrypted again with the random key, in Base64.
pub open spec fn weapi_params(text: Seq<char>, sk: Seq<u8>) -> Option<Seq<char>> {
    match cbc_base64(encode_utf8(text), encode_utf8(PRESET_KEY@), encode_utf8(IV@)) {
        Some(p1) => cbc_base64(encode_utf8(p1), sk, encode_utf8(IV@)),
        None => None,
    }
}

/// `n` zero bytes.
pub open spec fn zeros(n: nat) -> Seq<u8> {
    Seq::new(n, |_i: int| 0u8)
}

/// Bytes left-padded with zeros to at least 128.
pub open spec fn pad128(bs: Seq<u8>) -> Seq<u8> {
    if bs.len() < 128 {
        zeros((128 - bs.len()) as nat) + bs
    } else {
        bs
    }
}

/// The raw RSA operation: the message as a big-endian number, raised to the
/// exponent modulo the modulus, as the shortest big-endian bytes.
pub open spec fn rsa_raw(m: Seq<u8>, n: Seq<u8>, e: Seq<u8>) -> Seq<u8> {
    be_bytes((pow(be_value(m) as int, be_value(e)) % (be_value(n) as int)) as nat)
}

/// The weapi `encSecKey` of a message: the raw RSA operation with the
/// service's key on the message left-padded with zeros to 128 bytes, the
/// result left-padded to 128 bytes, in lower-case hexadecimal; or the key's
/// parse error.
pub open spec fn rsa_hex(pt: Seq<u8>) -> Result<Seq<char>, Seq<char>> {
    match rsa_pem_key(PUBLIC_KEY_PEM@) {
        Ok((n, e)) => Ok(hex_lower(pad128(rsa_raw(pad128(pt), n, e)))),
        Err(m) => Err(m),
    }
}

fn pad128_exec(bs: &[u8]) -> (r: Vec<u8>)
    ensures
        r@ == pad128(bs@),
{
    let mut out: Vec<u8> = Vec::new();
    if bs.len() < 128 {
        let mut k: usize = 0;
        while k < 128 - bs.len()
            invariant
                bs@.len() < 128,
                k <= 128 - bs@.len(),
                out@ == zeros(k as nat),
            decreases 128 - bs@.len() - k,
        {
            out.push(0u8);
            k = k + 1;
            assert(out@ =~= zeros(k as nat));
        }
    }
    let mut i: usize = 0;
    let ghost start = out@;
    while i < bs.len()
        invariant
            i <= bs@.len(),
            out@ == start + bs@.take(i as int),
        decreases bs@.len() - i,
    {
        out.push(bs[i]);
        i = i + 1;
        assert(bs@.take(i as int) == bs@.take(i - 1).push(bs@[i - 1]));
    }
    assert(bs@.take(bs@.len() as int) == bs@);
    proof {
        if bs@.len() >= 128 {
            assert(start =~= Seq::<u8>::empty());
            assert(out@ =~= bs@);
        }
    }
    out
}

/// Encrypts with the service's public key, unpadded, as hexadecimal.
fn rsa_encrypt_none_hex(pt: &[u8]) -> (r: Result<String, CryptoError>)
    ensures
        match rsa_hex(pt@) {
            Ok(h) => r matches Ok(s) && s@ == h,
            Err(e) => r matches Err(CryptoError::BadPublicKey(m)) && m@ == e,
        },
{
    match rsa_public_key_parts(PUBLIC_KEY_PEM) {
        Ok((n, e)) => {
            let padded = pad128_exec(pt);
            let c = mod_pow_be(padded.as_slice(), e.as_slice(), n.as_slice());
            let out = pad128_exec(c.as_slice());
            Ok(hex_encode(out.as_slice()))
        },
        Err(m) => Err(CryptoError::BadPublicKey(m)),
    }
}

/// The random weapi key: each raw byte picks a character of the Base62
/// alphabet by its remainder modulo 62.
pub open spec fn base62_key(raw: Seq<u8>) -> Seq<u8> {
    Seq::new(raw.len(), |i: int| encode_utf8(BASE62@)[(raw[i] % 62) as int])
}

/// Maps raw bytes to Base62 characters.
pub fn base62_from_raw(raw: &[u8]) -> (r: Vec<u8>)
    ensures
        r@ == base62_key(raw@),
{
    proof {
        reveal_strlit("abcdefghijklmnopqrstuvwxyzABCDEFGHIJKLMNOPQRSTUVWXYZ0123456789");
        assert(vstd::utf8::is_ascii_chars(BASE62@));
        vstd::utf8::is_ascii_chars_encode_utf8(BASE62@);
    }
    let alphabet = BASE62.as_bytes();
    let mut out: Vec<u8> = Vec::new();
    let mut i: usize = 0;
    while i < raw.len()
        invariant
            i <= raw@.len(),
            alphabet@ == encode_utf8(BASE62@),
            alphabet@.len() == 62,
            out@ == base62_key(raw@).take(i as int),
        decreases raw@.len() - i,
    {
        out.push(alphabet[(raw[i] % 62) as usize]);
        i = i + 1;
        assert(out@ =~= base62_key(raw@).take(i as int));
    }
    assert(base62_key(raw@).take(raw@.len() as int) == base62_key(raw@));
    out
}

/// A fresh random weapi key of 16 Base62 characters.
pub fn random_base62_16() -> (r: Vec<u8>)
    ensures
        r@.len() == 16,
        exists|raw: Seq<u8>| raw.len() == 16 && r@ == base62_key(raw),
{
    let raw = random_bytes(16);
    base62_from_raw(raw.as_slice())
}

/// The weapi `params` are two AES-CBC layers with the IV `0102030405060708`,
/// each given in Base64: the inner one encrypts the JSON text with the preset
/// key `0CoJUm6Qyw8W8jud`, the outer one encrypts the inner Base64 text with
/// the random key. The random key never touches the inner layer, whatever it is.
pub proof fn lemma_weapi_layers(text: Seq<char>, sk: Seq<u8>)
    ensures
        weapi_params(text, sk) == match aes128_cbc_pkcs7(
            encode_utf8(text),
            encode_utf8("0CoJUm6Qyw8W8jud"@),
            encode_utf8("0102030405060708"@),
        ) {
            Some(inner) => match aes128_cbc_pkcs7(
                encode_utf8(base64_standard(inner)),
                sk,
                encode_utf8("0102030405060708"@),
            ) {
                Some(outer) => Some(base64_standard(outer)),
                None => None,
            },
            None => None,
        },
{
}

/// Two weapi encryptions of one text with different random keys share the
/// inner layer: each is the outer encryption, under its own key, of the same
/// Base64 text, which depends on the text alone.
pub proof fn lemma_weapi_inner_layer_shared(text: Seq<char>, sk1: Seq<u8>, sk2: Seq<u8>)
    ensures
        aes128_cbc_pkcs7(encode_utf8(text), encode_utf8("0CoJUm6Qyw8W8jud"@), encode_utf8("0102030405060708"@)) matches Some(inner) ==> {
            &&& weapi_params(text, sk1) == cbc_base64(encode_utf8(base64_standard(inner)), sk1, encode_utf8("0102030405060708"@))
            &&& weapi_params(text, sk2) == cbc_base64(encode_utf8(base64_standard(inner)), sk2, encode_utf8("0102030405060708"@))
        },
{
    lemma_weapi_layers(text, sk1);
    lemma_weapi_layers(text, sk2);
}

/// Encrypts a weapi request's JSON text with the given 16-byte random key.
pub fn weapi_with_key(text: &str, sk: &[u8]) -> (r: Result<WeapiForm, CryptoError>)
    requires
        sk@.len() == 16,
    ensures
        match weapi_params(text@, sk@) {
            None => r matches Err(CryptoError::EncryptPad),
            Some(p) => match rsa_hex(sk@.reverse()) {
                Ok(k) => r matches Ok(f) && f.params@ == p && f.enc_sec_key@ == k,
                Err(e) => r matches Err(CryptoError::BadPublicKey(m)) && m@ == e,
            },
        },
{
    proof {
        reveal_strlit("0CoJUm6Qyw8W8jud");
        reveal_strlit("0102030405060708");
    }
    let preset = key_bytes(PRESET_KEY);
    let iv = key_bytes(IV);
    let plain = str_bytes(text);
    let p1 = match cbc_base64_exec(plain.as_slice(), preset.as_slice(), iv.as_slice()) {
        Some(p) => p,
        None => return Err(CryptoError::EncryptPad),
    };
    let p1_bytes = str_bytes(p1.as_str());
    let params = match cbc_base64_exec(p1_bytes.as_slice(), sk, iv.as_slice()) {
        Some(p) => p,
        None => return Err(CryptoError::EncryptPad),
    };
    let mut reversed: Vec<u8> = Vec::new();
    let mut i: usize = sk.len();
    while i > 0
        invariant
            i <= sk@.len(),
            reversed@ == sk@.reverse().take((sk@.len() - i) as int),
        decreases i,
    {
        i = i - 1;
        reversed.push(sk[i]);
        assert(reversed@ =~= sk@.reverse().take((sk@.len() - i) as int));
    }
    assert(sk@.reverse().take(sk@.len() as int) == sk@.reverse());
    let enc_sec_key = rsa_encrypt_none_hex(reversed.as_slice())?;
    Ok(WeapiForm { params, enc_sec_key })
}

/// Encrypts a weapi request's JSON text with a fresh random key.
pub fn weapi(text: &str) -> (r: Result<WeapiForm, CryptoError>)
    ensures
        exists|raw: Seq<u8>|
            #![trigger base62_key(raw)]
            raw.len() == 16 && match weapi_params(text@, base62_key(raw)) {
                None => r matches Err(CryptoError::EncryptPad),
                Some(p) => match rsa_hex(base62_key(raw).reverse()) {
                    Ok(k) => r matches Ok(f) && f.params@ == p && f.enc_sec_key@ == k,
                    Err(e) => r matches Err(CryptoError::BadPublicKey(m)) && m@ == e,
                },
            },
{
    let sk = random_base62_16();
    weapi_with_key(text, sk.as_slice())
}

/// Upper-case hexadecimal of the AES-ECB encryption, or none where padding fails.
pub open spec fn ecb_hex_upper(pt: Seq<u8>, key: Seq<u8>) -> Option<Seq<char>> {
    match aes128_ecb_pkcs7(pt, key) {
        Some(ct) => Some(hex_upper(ct)),
        None => None,
    }
}

fn ecb_hex_upper_exec(pt: &[u8], key: &[u8]) -> (r: Result<String, CryptoError>)
    requires
        key@.len() == 16,
    ensures
        match ecb_hex_upper(pt@, key@) {
            Some(h) => r matches Ok(s) && s@ == h,
            None => r matches Err(CryptoError::EncryptPad),
        },
{
    match aes128_ecb_encrypt(pt, key) {
        Some(ct) => Ok(hex_encode_upper(ct.as_slice())),
        None => Err(CryptoError::EncryptPad),
    }
}

/// Encrypts a linuxapi request's JSON text: AES-ECB with the linuxapi key, in
/// upper-case hexadecimal.
pub fn linuxapi(text: &str) -> (r: Result<LinuxapiForm, CryptoError>)
    ensures
        match ecb_hex_upper(encode_utf8(text@), encode_utf8(LINUXAPI_KEY@)) {
            Some(h) => r matches Ok(f) && f.eparams@ == h,
            None => r matches Err(CryptoError::EncryptPad),
        },
{
    proof {
        reveal_strlit("rFgB&h#%2?^eDg:Q");
    }
    let key = key_bytes(LINUXAPI_KEY);
    let plain = str_bytes(text);
    let eparams = ecb_hex_upper_exec(plain.as_slice(), key.as_slice())?;
    Ok(LinuxapiForm { eparams })
}

/// The text an eapi request signs: `nobody`, the URI, `use`, the JSON text,
/// `md5forencrypt`.
pub open spec fn eapi_message(uri: Seq<char>, text: Seq<char>) -> Seq<char> {
    "nobody"@ + uri + "use"@ + text + "md5forencrypt"@
}

/// The eapi payload: the URI, the JSON text and the hexadecimal MD5 of the
/// signed text, separated by `-36cd479b6b5-`.
pub open spec fn eapi_payload(uri: Seq<char>, text: Seq<char>) -> Seq<char> {
    uri + "-36cd479b6b5-"@ + text + "-36cd479b6b5-"@ + hex_lower(
        md5_digest(encode_utf8(eapi_message(uri, text))),
    )
}

/// The eapi signature covers, in this order, `nobody`, the URI, `use`, the
/// JSON text and `md5forencrypt`; the payload is the URI, the text and that
/// digest in lower-case hexadecimal, separated by `-36cd479b6b5-`. So the
/// URI and the text are never swapped, neither in the payload nor in what
/// is signed.
pub proof fn lemma_eapi_signature_order(uri: Seq<char>, text: Seq<char>)
    ensures
        eapi_payload(uri, text) == uri + "-36cd479b6b5-"@ + text + "-36cd479b6b5-"@ + hex_lower(
            md5_digest(encode_utf8("nobody"@ + uri + "use"@ + text + "md5forencrypt"@)),
        ),
        eapi_payload(uri, text).take(uri.len() as int) == uri,
{
    assert(eapi_payload(uri, text).take(uri.len() as int) =~= uri);
}

/// Encrypts an eapi request: the payload, AES-ECB with the eapi key, in
/// upper-case hexadecimal.
pub fn eapi(uri: &str, text: &str) -> (r: Result<EapiForm, CryptoError>)
    ensures
        match ecb_hex_upper(encode_utf8(eapi_payload(uri@, text@)), encode_utf8(EAPI_KEY@)) {
            Some(h) => r matches Ok(f) && f.params@ == h,
            None => r matches Err(CryptoError::EncryptPad),
        },
{
    proof {
        reveal_strlit("e82ckenh8dichen8");
    }
    let mut msg = "nobody".to_string();
    push_str(&mut msg, uri);
    push_str(&mut msg, "use");
    push_str(&mut msg, text);
    push_str(&mut msg, "md5forencrypt");
    let digest = hex_encode(md5(str_bytes(msg.as_str()).as_slice()).as_slice());
    let mut payload = uri.to_string();
    push_str(&mut payload, "-36cd479b6b5-");
    push_str(&mut payload, text);
    push_str(&mut payload, "-36cd479b6b5-");
    push_str(&mut payload, digest.as_str());
    let key = key_bytes(EAPI_KEY);
    let params = ecb_hex_upper_exec(str_bytes(payload.as_str()).as_slice(), key.as_slice())?;
    proof {
        assert(msg@ =~= eapi_message(uri@, text@));
        assert(payload@ =~= eapi_payload(uri@, text@));
    }
    Ok(EapiForm { params })
}

/// The text of an eapi reply: the hexadecimal decoded, decrypted with the
/// eapi key, read as UTF-8; each step's failure is its own error.
pub fn eapi_res_decrypt(ct_hex: &str) -> (r: Result<String, CryptoError>)
    ensures
        match hex_decode_bytes(encode_utf8(ct_hex@)) {
            None => r matches Err(CryptoError::BadHex(_)),
            Some(ct) => match aes128_ecb_pkcs7_decrypt(ct, encode_utf8(EAPI_KEY@)) {
                None => r matches Err(CryptoError::BadPadding(_)),
                Some(pt) => if vstd::utf8::valid_utf8(pt) {
                    r matches Ok(s) && encode_utf8(s@) == pt
                } else {
                    r matches Err(CryptoError::BadUtf8(_))
                },
            },
        },
{
    proof {
        reveal_strlit("e82ckenh8dichen8");
    }
    let ct = match hex_decode(ct_hex) {
        Ok(v) => v,
        Err(e) => return Err(CryptoError::BadHex(e)),
    };
    let key = key_bytes(EAPI_KEY);
    let pt = match aes128_ecb_decrypt(ct.as_slice(), key.as_slice()) {
        Ok(v) => v,
        Err(e) => return Err(CryptoError::BadPadding(e)),
    };
    match string_from_utf8(pt) {
        Ok(s) => Ok(s),
        Err(e) => Err(CryptoError::BadUtf8(e)),
    }
}

/// The key that device ids are XOR-ed with.
pub const ID_XOR_KEY_1: &'static str = "3go8&$8*3*3h0k(2)2";

/// Each byte XOR-ed with the key byte at its position modulo the key's length.
pub open spec fn xor_with_key(bs: Seq<u8>, key: Seq<u8>) -> Seq<u8> {
    Seq::new(bs.len(), |i: int| bs[i] ^ key[i % (key.len() as int)])
}

/// The encoded device id of the anonymous login: the id's bytes XOR-ed with
/// the fixed key, hashed with MD5, in Base64.
pub open spec fn encoded_device_id(device_id: Seq<char>) -> Seq<char> {
    base64_standard(md5_digest(xor_with_key(encode_utf8(device_id), encode_utf8(ID_XOR_KEY_1@))))
}

/// Encodes a device id for the anonymous login.
pub fn cloudmusic_dll_encode_id(device_id: &str) -> (r: String)
    ensures
        r@ == encoded_device_id(device_id@),
{
    proof {
        reveal_strlit("3go8&$8*3*3h0k(2)2");
        assert(vstd::utf8::is_ascii_chars(ID_XOR_KEY_1@));
        vstd::utf8::is_ascii_chars_encode_utf8(ID_XOR_KEY_1@);
    }
    let key = ID_XOR_KEY_1.as_bytes();
    let bs = device_id.as_bytes();
    let ghost want = xor_with_key(encode_utf8(device_id@), encode_utf8(ID_XOR_KEY_1@));
    let mut xored: Vec<u8> = Vec::new();
    let mut i: usize = 0;
    while i < bs.len()
        invariant
            i <= bs@.len(),
            key@ == encode_utf8(ID_XOR_KEY_1@),
            key@.len() == 18,
            bs@ == encode_utf8(device_id@),
            want == xor_with_key(bs@, key@),
            xored@ == want.take(i as int),
        decreases bs@.len() - i,
    {
        xored.push(bs[i] ^ key[i % key.len()]);
        i = i + 1;
        assert(xored@ =~= want.take(i as int));
    }
    assert(want.take(bs@.len() as int) == want);
    let digest = md5(xored.as_slice());
    base64_encode(digest.as_slice())
}

/// The user name of an anonymous registration: the device id, a space and
/// its encoding, in Base64.
pub open spec fn anonymous_username(device_id: Seq<char>) -> Seq<char> {
    base64_standard(encode_utf8(device_id + seq![' '] + encoded_device_id(device_id)))
}

/// Builds the user name of an anonymous registration.
pub fn build_anonymous_username(device_id: &str) -> (r: String)
    ensures
        r@ == anonymous_username(device_id@),
{
    let encoded = cloudmusic_dll_encode_id(device_id);
    let mut s = device_id.to_string();
    push_char(&mut s, ' ');
    push_str(&mut s, encoded.as_str());
    proof {
        assert(s@ =~= device_id@ + seq![' '] + encoded_device_id(device_id@));
    }
    base64_encode(str_bytes(s.as_str()).as_slice())
}

/// A device id: each number picks an upper-case hexadecimal digit by its
/// remainder modulo 16.
pub open spec fn device_id_of(raw: Seq<u32>) -> Seq<char> {
    Seq::new(raw.len(), |i: int| crate::codec::hex_digit_upper((raw[i] % 16) as int))
}

fn hex_upper_char(d: u32) -> (c: char)
    requires
        d < 16,
    ensures
        c == crate::codec::hex_digit_upper(d as int),
{
    if d < 10 {
        ((48 + d) as u8) as char
    } else {
        ((55 + d) as u8) as char
    }
}

/// A fresh device id of 52 random upper-case hexadecimal digits.
pub fn generate_device_id() -> (r: String)
    ensures
        exists|raw: Seq<u32>| raw.len() == 52 && r@ == device_id_of(raw),
{
    let ghost mut raw: Seq<u32> = Seq::empty();
    let mut out = String::new();
    let mut k: usize = 0;
    while k < 52
        invariant
            k <= 52,
            raw.len() == k,
            out@ == device_id_of(raw),
        decreases 52 - k,
    {
        let x = random_u32();
        push_char(&mut out, hex_upper_char(x % 16));
        proof {
            raw = raw.push(x);
            assert(out@ =~= device_id_of(raw));
        }
        k = k + 1;
    }
    out
}

} // verus!
