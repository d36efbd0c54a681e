//! Byte encodings and digests: hexadecimal, Base64, MD5, AES and the raw RSA
//! operation, through the crates that implement them.
use vstd::prelude::*;
use vstd::arithmetic::power::pow;
use block_padding::Pkcs7;
use cipher::{BlockDecryptMut, BlockEncryptMut, KeyInit, KeyIvInit};
use md5::Digest;
use base64::Engine;
use rsa::pkcs8::DecodePublicKey;
use rsa::traits::PublicKeyParts;

verus! {

/// A lower-case hexadecimal digit.
pub open spec fn hex_digit_lower(d: int) -> char {
    if d < 10 {
        (48 + d) as char
    } else {
        (87 + d) as char
    }
}

/// An upper-case hexadecimal digit.
pub open spec fn hex_digit_upper(d: int) -> char {
    if d < 10 {
        (48 + d) as char
    } else {
        (55 + d) as char
    }
}

/// Each byte as two lower-case hexadecimal digits, high digit first.
pub open spec fn hex_lower(bs: Seq<u8>) -> Seq<char>
    decreases bs.len(),
{
    if bs.len() == 0 {
        seq![]
    } else {
        seq![hex_digit_lower((bs[0] / 16) as int), hex_digit_lower((bs[0] % 16) as int)] + hex_lower(bs.drop_first())
    }
}

/// Each byte as two upper-case hexadecimal digits, high digit first.
pub open spec fn hex_upper(bs: Seq<u8>) -> Seq<char>
    decreases bs.len(),
{
    if bs.len() == 0 {
        seq![]
    } else {
        seq![hex_digit_upper((bs[0] / 16) as int), hex_digit_upper((bs[0] % 16) as int)] + hex_upper(bs.drop_first())
    }
}

/// Encodes bytes as lower-case hexadecimal through `hex::encode`.
#[verifier::external_body]
pub(crate) fn hex_encode(bs: &[u8]) -> (r: String)
    ensures
        r@ == hex_lower(bs@),
{
    hex::encode(bs)
}

/// Encodes bytes as upper-case hexadecimal through `hex::encode_upper`.
#[verifier::external_body]
pub(crate) fn hex_encode_upper(bs: &[u8]) -> (r: String)
    ensures
        r@ == hex_upper(bs@),
{
    hex::encode_upper(bs)
}

/// The value of a hexadecimal digit byte (either case), or -1.
pub open spec fn hex_value(b: u8) -> int {
    if 48 <= b <= 57 {
        b - 48
    } else if 97 <= b <= 102 {
        b - 87
    } else if 65 <= b <= 70 {
        b - 55
    } else {
        -1
    }
}

/// The bytes that hexadecimal digit bytes stand for, two digits a byte; none
/// for an odd count or a byte that is no digit.
pub open spec fn hex_decode_bytes(ds: Seq<u8>) -> Option<Seq<u8>>
    decreases ds.len(),
{
    if ds.len() == 0 {
        Some(seq![])
    } else if ds.len() == 1 || hex_value(ds[0]) < 0 || hex_value(ds[1]) < 0 {
        None
    } else {
        match hex_decode_bytes(ds.subrange(2, ds.len() as int)) {
            Some(rest) => Some(seq![(hex_value(ds[0]) * 16 + hex_value(ds[1])) as u8] + rest),
            None => None,
        }
    }
}

#[verifier::external_type_specification]
#[verifier::external_body]
pub struct ExFromHexError(hex::FromHexError);

/// Decodes hexadecimal text through `hex::decode`, which takes digits of
/// either case, two to a byte, and refuses an odd count or any other byte.
#[verifier::external_body]
pub(crate) fn hex_decode(s: &str) -> (r: Result<Vec<u8>, hex::FromHexError>)
    ensures
        r is Ok <==> hex_decode_bytes(vstd::utf8::encode_utf8(s@)) is Some,
        r matches Ok(v) ==> hex_decode_bytes(vstd::utf8::encode_utf8(s@)) == Some(v@),
{
    hex::decode(s)
}

/// The character of a Base64 digit in the standard alphabet.
pub open spec fn b64_char(d: int) -> char {
    if d < 26 {
        (65 + d) as char
    } else if d < 52 {
        (71 + d) as char
    } else if d < 62 {
        (d - 4) as char
    } else if d == 62 {
        '+'
    } else {
        '/'
    }
}

/// Standard Base64 with padding: every three bytes become four digits; a last
/// one or two bytes become two or three digits and `=` to four.
pub open spec fn base64_standard(bs: Seq<u8>) -> Seq<char>
    decreases bs.len(),
{
    if bs.len() == 0 {
        seq![]
    } else if bs.len() == 1 {
        seq![b64_char((bs[0] / 4) as int), b64_char(((bs[0] % 4) * 16) as int), '=', '=']
    } else if bs.len() == 2 {
        seq![
            b64_char((bs[0] / 4) as int),
            b64_char(((bs[0] % 4) * 16 + bs[1] / 16) as int),
            b64_char(((bs[1] % 16) * 4) as int),
            '=',
        ]
    } else {
        seq![
            b64_char((bs[0] / 4) as int),
            b64_char(((bs[0] % 4) * 16 + bs[1] / 16) as int),
            b64_char(((bs[1] % 16) * 4 + bs[2] / 64) as int),
            b64_char((bs[2] % 64) as int),
        ] + base64_standard(bs.subrange(3, bs.len() as int))
    }
}

/// Encodes bytes as standard, padded Base64 through base64's
/// `general_purpose::STANDARD` engine.
#[verifier::external_body]
pub(crate) fn base64_encode(bs: &[u8]) -> (r: String)
    ensures
        r@ == base64_standard(bs@),
{
    base64::engine::general_purpose::STANDARD.encode(bs)
}

/// The MD5 digest of some bytes.
pub uninterp spec fn md5_digest(bs: Seq<u8>) -> Seq<u8>;

/// Hashes bytes with md-5's `Md5::digest`; the contract claims that the digest
/// depends on the bytes alone and is 16 bytes long.
#[verifier::external_body]
pub(crate) fn md5(bs: &[u8]) -> (r: Vec<u8>)
    ensures
        r@ == md5_digest(bs@),
        r@.len() == 16,
{
    md5::Md5::digest(bs).to_vec()
}

/// AES-128 in CBC mode with PKCS#7 padding, or none where padding fails.
pub uninterp spec fn aes128_cbc_pkcs7(pt: Seq<u8>, key: Seq<u8>, iv: Seq<u8>) -> Option<Seq<u8>>;

/// Encrypts through cbc's `Encryptor<Aes128>` with `Pkcs7` padding into a
/// buffer 16 bytes longer than the message; the key and the IV must be 16
/// bytes. The contract claims that the outcome depends on the arguments
/// alone, and that padding succeeds (the buffer always holds the padded
/// message, as cipher's `encrypt_padded_mut` checks) with whole blocks up to
/// one block more than the message.
#[verifier::external_body]
pub(crate) fn aes128_cbc_encrypt(pt: &[u8], key: &[u8], iv: &[u8]) -> (r: Option<Vec<u8>>)
    requires
        key@.len() == 16,
        iv@.len() == 16,
    ensures
        r is Some,
        r matches Some(v) ==> v@.len() == 16 * (pt@.len() / 16 + 1),
        match r {
            Some(v) => aes128_cbc_pkcs7(pt@, key@, iv@) == Some(v@),
            None => aes128_cbc_pkcs7(pt@, key@, iv@) is None,
        },
{
    let mut buf = pt.to_vec();
    let n = buf.len();
    buf.resize(n + 16, 0);
    let enc = cbc::Encryptor::<aes::Aes128>::new(key.into(), iv.into());
    enc.encrypt_padded_mut::<Pkcs7>(&mut buf, n).ok().map(|ct| ct.to_vec())
}

/// AES-128 in ECB mode with PKCS#7 padding, or none where padding fails.
pub uninterp spec fn aes128_ecb_pkcs7(pt: Seq<u8>, key: Seq<u8>) -> Option<Seq<u8>>;

/// Encrypts through ecb's `Encryptor<Aes128>` with `Pkcs7` padding into a
/// buffer 16 bytes longer than the message; the key must be 16 bytes. The
/// contract claims that the outcome depends on the arguments alone, and that
/// padding succeeds (the buffer always holds the padded message, as
/// cipher's `encrypt_padded_mut` checks) with whole blocks up to one block
/// more than the message.
#[verifier::external_body]
pub(crate) fn aes128_ecb_encrypt(pt: &[u8], key: &[u8]) -> (r: Option<Vec<u8>>)
    requires
        key@.len() == 16,
    ensures
        r is Some,
        r matches Some(v) ==> v@.len() == 16 * (pt@.len() / 16 + 1),
        match r {
            Some(v) => aes128_ecb_pkcs7(pt@, key@) == Some(v@),
            None => aes128_ecb_pkcs7(pt@, key@) is None,
        },
{
    let mut buf = pt.to_vec();
    let n = buf.len();
    buf.resize(n + 16, 0);
    let enc = ecb::Encryptor::<aes::Aes128>::new(key.into());
    enc.encrypt_padded_mut::<Pkcs7>(&mut buf, n).ok().map(|ct| ct.to_vec())
}

/// AES-128 ECB decryption with PKCS#7 unpadding, or none where unpadding fails.
pub uninterp spec fn aes128_ecb_pkcs7_decrypt(ct: Seq<u8>, key: Seq<u8>) -> Option<Seq<u8>>;

#[verifier::external_type_specification]
#[verifier::external_body]
pub struct ExUnpadError(block_padding::UnpadError);

/// Decrypts through ecb's `Decryptor<Aes128>` with `Pkcs7` unpadding; the key
/// must be 16 bytes. The contract claims only that the outcome depends on the
/// arguments alone.
#[verifier::external_body]
pub(crate) fn aes128_ecb_decrypt(ct: &[u8], key: &[u8]) -> (r: Result<Vec<u8>, block_padding::UnpadError>)
    requires
        key@.len() == 16,
    ensures
        match r {
            Ok(v) => aes128_ecb_pkcs7_decrypt(ct@, key@) == Some(v@),
            Err(_) => aes128_ecb_pkcs7_decrypt(ct@, key@) is None,
        },
{
    let mut buf = ct.to_vec();
    let dec = ecb::Decryptor::<aes::Aes128>::new(key.into());
    dec.decrypt_padded_mut::<Pkcs7>(&mut buf).map(|pt| pt.to_vec())
}

/// The number that big-endian bytes stand for.
pub open spec fn be_value(bs: Seq<u8>) -> nat
    decreases bs.len(),
{
    if bs.len() == 0 {
        0
    } else {
        be_value(bs.drop_last()) * 256 + bs.last() as nat
    }
}

/// The shortest big-endian bytes of `v`; one zero byte for zero.
pub open spec fn be_bytes(v: nat) -> Seq<u8>
    decreases v,
{
    if v < 256 {
        seq![v as u8]
    } else {
        be_bytes(v / 256).push((v % 256) as u8)
    }
}

/// The modulus and the public exponent of the RSA public key in a PEM text,
/// as big-endian bytes; or the text of the parse error.
pub uninterp spec fn rsa_pem_key(pem: Seq<char>) -> Result<(Seq<u8>, Seq<u8>), Seq<char>>;

/// Parses the key with rsa's `RsaPublicKey::from_public_key_pem` and gives its
/// modulus and exponent through `to_bytes_be`, or the parse error's text. The
/// contract claims that the outcome depends on the text alone, and that a key
/// is accepted only with an odd modulus, which rsa's `check_public` demands.
#[verifier::external_body]
pub(crate) fn rsa_public_key_parts(pem: &str) -> (r: Result<(Vec<u8>, Vec<u8>), String>)
    ensures
        match r {
            Ok((n, e)) => rsa_pem_key(pem@) == Ok::<(Seq<u8>, Seq<u8>), Seq<char>>((n@, e@))
                && be_value(n@) % 2 == 1,
            Err(m) => rsa_pem_key(pem@) == Err::<(Seq<u8>, Seq<u8>), Seq<char>>(m@),
        },
{
    match rsa::RsaPublicKey::from_public_key_pem(pem) {
        Ok(pk) => Ok((pk.n().to_bytes_be(), pk.e().to_bytes_be())),
        Err(e) => Err(e.to_string()),
    }
}

/// `BigUint::modpow` on numbers read with `from_bytes_be` and given back with
/// `to_bytes_be`: the documentation promises `(m ^ e) % n`, and a panic on a
/// zero modulus; `to_bytes_be` gives the shortest bytes, one zero byte for zero.
#[verifier::external_body]
pub(crate) fn mod_pow_be(m: &[u8], e: &[u8], n: &[u8]) -> (r: Vec<u8>)
    requires
        be_value(n@) > 0,
    ensures
        r@ == be_bytes((pow(be_value(m@) as int, be_value(e@)) % (be_value(n@) as int)) as nat),
{
    let base = rsa::BigUint::from_bytes_be(m);
    base.modpow(&rsa::BigUint::from_bytes_be(e), &rsa::BigUint::from_bytes_be(n)).to_bytes_be()
}

#[verifier::external_type_specification]
#[verifier::external_body]
pub struct ExFromUtf8Error(std::string::FromUtf8Error);

/// Turns bytes into a `String` through std's `String::from_utf8`, which
/// accepts exactly the valid UTF-8 byte sequences.
#[verifier::external_body]
pub(crate) fn string_from_utf8(bs: Vec<u8>) -> (r: Result<String, std::string::FromUtf8Error>)
    ensures
        r is Ok <==> vstd::utf8::valid_utf8(bs@),
        r matches Ok(s) ==> vstd::utf8::encode_utf8(s@) == bs@,
{
    String::from_utf8(bs)
}

} // verus!
