use netease_ratui::crypto::{
    base62_from_raw, build_anonymous_username, cloudmusic_dll_encode_id, eapi,
    eapi_res_decrypt, generate_device_id, linuxapi, random_base62_16, weapi, weapi_with_key,
    CryptoError,
};

#[test]
fn weapi_forms_have_their_shapes() {
    let f = weapi_with_key("{\"a\":1}", b"0123456789abcdef").ok().unwrap();
    assert!(f.params.len() > 0);
    assert_eq!(f.enc_sec_key.len(), 256);
    assert!(f.enc_sec_key.chars().all(|c| c.is_ascii_hexdigit()));
    let again = weapi_with_key("{\"a\":1}", b"0123456789abcdef").ok().unwrap();
    assert_eq!(f.params, again.params);
    assert_eq!(f.enc_sec_key, again.enc_sec_key);
    let other = weapi_with_key("{\"a\":1}", b"fedcba9876543210").ok().unwrap();
    assert_ne!(f.params, other.params);
    assert!(weapi("{}").is_ok());
}

#[test]
fn linuxapi_is_upper_hex_blocks() {
    let f = linuxapi("{}").ok().unwrap();
    assert_eq!(f.eparams.len(), 32);
    assert!(f.eparams.chars().all(|c| c.is_ascii_digit() || ('A'..='F').contains(&c)));
}

#[test]
fn eapi_reply_decryption_inverts_request_encryption() {
    let f = eapi("/api/x", "{\"k\":1}").ok().unwrap();
    let plain = eapi_res_decrypt(&f.params).ok().unwrap();
    assert!(plain.starts_with("/api/x-36cd479b6b5-{\"k\":1}-36cd479b6b5-"));
    assert_eq!(plain.len(), "/api/x-36cd479b6b5-{\"k\":1}-36cd479b6b5-".len() + 32);
}

#[test]
fn eapi_decrypt_errors() {
    assert!(matches!(eapi_res_decrypt("abc"), Err(CryptoError::BadHex(_))));
    assert!(matches!(eapi_res_decrypt("zz"), Err(CryptoError::BadHex(_))));
}

#[test]
fn crypto_error_messages() {
    assert_eq!(CryptoError::EncryptPad.message(), "AES 加密 padding 错误");
    assert_eq!(
        CryptoError::BadPublicKey("x".to_string()).message(),
        "RSA 公钥解析失败: x"
    );
}

#[test]
fn base62_key_maps_raw_bytes() {
    assert_eq!(base62_from_raw(&[0, 1, 61, 62, 255]), b"ab9ah".to_vec());
    let k = random_base62_16();
    assert_eq!(k.len(), 16);
    assert!(k.iter().all(|b| b.is_ascii_alphanumeric()));
}

#[test]
fn device_ids() {
    let id = generate_device_id();
    assert_eq!(id.len(), 52);
    assert!(id.chars().all(|c| c.is_ascii_digit() || ('A'..='F').contains(&c)));
    let enc = cloudmusic_dll_encode_id("ABC");
    assert_eq!(enc.len(), 24);
    assert!(enc.ends_with("=="));
    let user = build_anonymous_username("ABC");
    assert!(user.len() > 0);
    assert_eq!(cloudmusic_dll_encode_id("ABC"), enc);
}

#[test]
fn weapi_enc_sec_key_is_raw_rsa_of_reversed_key() {
    let f = weapi_with_key("{}", b"0123456789abcdef").unwrap();
    assert_eq!(
        f.enc_sec_key,
        "35701388baf89fed412e11269b9c76625d095ecaf17f03fa018abe19ea2d38b949debf242ee39a71ca1f6cda71b1b86a45aa909ee27f7e78e267d34e732f0de948206c3340a788d0003372183e2f753c1f78b66ac23d134ac1fc9b993156520ea826b8aa89a962d4491b4b8d7e08738e1da9b07aa39bf4a7ef0b1c210728cd52"
    );
}
