//! Sealing stored cookies: AES-256-GCM under the store's key, with a fresh
//! nonce each time, kept as a JSON envelope of base64 texts. What is sealed
//! opens back to the same bytes.

use vstd::prelude::*;
use ring::aead::{Aad, LessSafeKey, Nonce, UnboundKey, AES_256_GCM};
use ring::rand::{SecureRandom, SystemRandom};
use base64::{engine::general_purpose::STANDARD, Engine};
use serde_json::Value;
use crate::text::owned;

verus! {

/// `LessSafeKey::seal_in_place_append_tag` under a 32-byte key: the
/// ciphertext with its tag, or nothing when ring refuses to seal.
pub uninterp spec fn aes_gcm_sealed(key: Seq<u8>, nonce: Seq<u8>, plaintext: Seq<u8>) -> Option<Seq<u8>>;

/// `LessSafeKey::open_in_place` under a 32-byte key and a 12-byte nonce:
/// the plaintext, or nothing when the data does not authenticate.
pub uninterp spec fn aes_gcm_opened(key: Seq<u8>, nonce: Seq<u8>, sealed: Seq<u8>) -> Option<Seq<u8>>;

/// `general_purpose::STANDARD.encode`.
pub uninterp spec fn base64_text(bytes: Seq<u8>) -> Seq<char>;

/// `general_purpose::STANDARD.decode`: the bytes, or the text of the error.
pub uninterp spec fn base64_bytes(text: Seq<char>) -> Result<Seq<u8>, Seq<char>>;

/// The JSON object with the string members `alg`, `nonce` and
/// `ciphertext`, written with `serde_json`.
pub uninterp spec fn json_envelope(alg: Seq<char>, nonce: Seq<char>, ciphertext: Seq<char>) -> Seq<char>;

/// `serde_json::from_str` into a JSON value, read through `Value::get` and
/// `Value::as_str` for `alg`, `nonce` and `ciphertext`; or the text of the
/// parse error.
pub uninterp spec fn envelope_fields(text: Seq<char>) -> Result<
    (Option<Seq<char>>, Option<Seq<char>>, Option<Seq<char>>),
    Seq<char>,
>;

/// Bytes read back from base64.
pub open spec fn decoded(bytes: Seq<u8>) -> Result<Seq<u8>, Seq<char>> {
    Ok(bytes)
}

/// The three members read back from an envelope.
pub open spec fn members_read(alg: Seq<char>, nonce: Seq<char>, ciphertext: Seq<char>) -> Result<
    (Option<Seq<char>>, Option<Seq<char>>, Option<Seq<char>>),
    Seq<char>,
> {
    Ok((Some(alg), Some(nonce), Some(ciphertext)))
}

/// What sealing comes to.
enum Sealing {
    BadKey,
    Failed,
    Sealed(Vec<u8>),
}

/// Seals with ring's AES-256-GCM (`UnboundKey::new`, then
/// `seal_in_place_append_tag` with an empty AAD). The key is refused
/// exactly when it is not 32 bytes (ring documents that `UnboundKey::new`
/// fails only then); the ciphertext is named `aes_gcm_sealed`; and, as for
/// any AEAD, opening it under the same key and nonce gives the plaintext
/// back.
#[verifier::external_body]
fn seal(key: &[u8], nonce: [u8; 12], plaintext: &[u8]) -> (r: Sealing)
    ensures
        (r is BadKey) == (key@.len() != 32),
        key@.len() == 32 ==> match aes_gcm_sealed(key@, nonce@, plaintext@) {
            Some(c) => r matches Sealing::Sealed(v) && v@ == c,
            None => r is Failed,
        },
        r matches Sealing::Sealed(v) ==> aes_gcm_opened(key@, nonce@, v@) == Some(plaintext@),
{
    let Ok(unbound) = UnboundKey::new(&AES_256_GCM, key) else { return Sealing::BadKey };
    let mut buf = plaintext.to_vec();
    let n = Nonce::assume_unique_for_key(nonce);
    match LessSafeKey::new(unbound).seal_in_place_append_tag(n, Aad::empty(), &mut buf) {
        Ok(()) => Sealing::Sealed(buf),
        Err(_) => Sealing::Failed,
    }
}

/// What opening comes to.
enum Opening {
    BadKey,
    BadNonce,
    Failed,
    Opened(Vec<u8>),
}

/// Opens with ring's AES-256-GCM (`UnboundKey::new`,
/// `Nonce::try_assume_unique_for_key`, then `open_in_place` with an empty
/// AAD). The key is refused exactly when it is not 32 bytes and the nonce
/// exactly when it is not 12; the plaintext is named `aes_gcm_opened`.
#[verifier::external_body]
fn open(key: &[u8], nonce: &[u8], sealed: &[u8]) -> (r: Opening)
    ensures
        (r is BadKey) == (key@.len() != 32),
        (r is BadNonce) == (key@.len() == 32 && nonce@.len() != 12),
        key@.len() == 32 && nonce@.len() == 12 ==> match aes_gcm_opened(key@, nonce@, sealed@) {
            Some(p) => r matches Opening::Opened(v) && v@ == p,
            None => r is Failed,
        },
{
    let Ok(unbound) = UnboundKey::new(&AES_256_GCM, key) else { return Opening::BadKey };
    let Ok(n) = Nonce::try_assume_unique_for_key(nonce) else { return Opening::BadNonce };
    let mut buf = sealed.to_vec();
    match LessSafeKey::new(unbound).open_in_place(n, Aad::empty(), &mut buf) {
        Ok(plain) => Opening::Opened(plain.to_vec()),
        Err(_) => Opening::Failed,
    }
}

/// Fills a nonce from the system's random source (`SystemRandom::fill`).
/// Which bytes come out is chance; nothing is claimed of them.
#[verifier::external_body]
fn random_nonce() -> (r: Option<[u8; 12]>) {
    let mut n = [0u8; 12];
    SystemRandom::new().fill(&mut n).ok()?;
    Some(n)
}

/// Encodes bytes as standard base64 (`STANDARD.encode`); the text is
/// named `base64_text`, and decoding it gives the bytes back.
#[verifier::external_body]
fn encode_base64(bytes: &[u8]) -> (r: String)
    ensures
        r@ == base64_text(bytes@),
        base64_bytes(r@) == decoded(bytes@),
{
    STANDARD.encode(bytes)
}

/// Decodes standard base64 (`STANDARD.decode`); the bytes, and the error's
/// message, are named `base64_bytes`.
#[verifier::external_body]
fn decode_base64(text: &str) -> (r: Result<Vec<u8>, String>)
    ensures
        match base64_bytes(text@) {
            Ok(b) => r matches Ok(v) && v@ == b,
            Err(e) => r matches Err(m) && m@ == e,
        },
{
    STANDARD.decode(text).map_err(|e| e.to_string())
}

/// Writes the envelope as a JSON object with `serde_json`; the text is
/// named `json_envelope`, and reading it back gives the three members.
#[verifier::external_body]
fn write_envelope(alg: &str, nonce: &str, ciphertext: &str) -> (r: String)
    ensures
        r@ == json_envelope(alg@, nonce@, ciphertext@),
        envelope_fields(r@) == members_read(alg@, nonce@, ciphertext@),
{
    let mut m = serde_json::Map::new();
    m.insert("alg".to_string(), Value::String(alg.to_string()));
    m.insert("nonce".to_string(), Value::String(nonce.to_string()));
    m.insert("ciphertext".to_string(), Value::String(ciphertext.to_string()));
    Value::Object(m).to_string()
}

/// Reads an envelope with `serde_json`; the members, and the error's
/// message, are named `envelope_fields`.
#[verifier::external_body]
fn read_envelope(text: &str) -> (r: Result<(Option<String>, Option<String>, Option<String>), String>)
    ensures
        match envelope_fields(text@) {
            Ok((a, n, c)) => r matches Ok((ra, rn, rc)) && crate::text::opt_text(ra) == a
                && crate::text::opt_text(rn) == n && crate::text::opt_text(rc) == c,
            Err(e) => r matches Err(m) && m@ == e,
        },
{
    let v: Value = serde_json::from_str(text).map_err(|e| e.to_string())?;
    Ok((
        v.get("alg").and_then(Value::as_str).map(String::from),
        v.get("nonce").and_then(Value::as_str).map(String::from),
        v.get("ciphertext").and_then(Value::as_str).map(String::from),
    ))
}

/// The text is the envelope of the nonce and of the payload sealed under
/// the key with it.
pub open spec fn sealed_as(key: Seq<u8>, nonce: Seq<u8>, payload: Seq<u8>, text: Seq<char>) -> bool {
    match aes_gcm_sealed(key, nonce, payload) {
        Some(c) => text == json_envelope("A256GCM"@, base64_text(nonce), base64_text(c)),
        None => false,
    }
}

pub open spec fn bad_key_message() -> Seq<char> {
    "Cookie 密钥无效"@
}

/// What reading a stored envelope under a key gives: the plaintext, or why
/// it cannot be read.
pub open spec fn opened_payload(key: Seq<u8>, text: Seq<char>) -> Result<Seq<u8>, Seq<char>> {
    match envelope_fields(text) {
        Err(e) => Err(e),
        Ok((alg, nonce, ciphertext)) => if alg != Some("A256GCM"@) {
            Err("不支持的 Cookie 加密算法"@)
        } else {
            match nonce {
                None => Err("Cookie 加密包缺少 nonce"@),
                Some(n) => match ciphertext {
                    None => Err("Cookie 加密包缺少 ciphertext"@),
                    Some(c) => match base64_bytes(n) {
                        Err(e) => Err(e),
                        Ok(nb) => match base64_bytes(c) {
                            Err(e) => Err(e),
                            Ok(cb) => if key.len() != 32 {
                                Err(bad_key_message())
                            } else if nb.len() != 12 {
                                Err("Cookie nonce 无效"@)
                            } else {
                                match aes_gcm_opened(key, nb, cb) {
                                    Some(p) => Ok(p),
                                    None => Err("Cookie 解密失败，请确认 /app/storage 密钥未变化"@),
                                }
                            },
                        },
                    },
                },
            }
        },
    }
}

/// Reads a stored envelope under the key.
pub fn decrypt_payload(key: &[u8], encrypted_payload: &str) -> (r: Result<Vec<u8>, String>)
    ensures
        match opened_payload(key@, encrypted_payload@) {
            Ok(p) => r matches Ok(v) && v@ == p,
            Err(e) => r matches Err(m) && m@ == e,
        },
{
    let (alg, nonce, ciphertext) = match read_envelope(encrypted_payload) {
        Ok(f) => f,
        Err(e) => return Err(e),
    };
    let alg_ok = match &alg {
        Some(a) => crate::text::seq_eq(&crate::text::chars_of(a.as_str()), &crate::text::chars_of("A256GCM")),
        None => false,
    };
    if !alg_ok {
        return Err(owned("不支持的 Cookie 加密算法"));
    }
    let n = match nonce {
        Some(n) => n,
        None => return Err(owned("Cookie 加密包缺少 nonce")),
    };
    let c = match ciphertext {
        Some(c) => c,
        None => return Err(owned("Cookie 加密包缺少 ciphertext")),
    };
    let nb = match decode_base64(n.as_str()) {
        Ok(b) => b,
        Err(e) => return Err(e),
    };
    let cb = match decode_base64(c.as_str()) {
        Ok(b) => b,
        Err(e) => return Err(e),
    };
    match open(key, nb.as_slice(), cb.as_slice()) {
        Opening::BadKey => Err(owned("Cookie 密钥无效")),
        Opening::BadNonce => Err(owned("Cookie nonce 无效")),
        Opening::Failed => Err(owned("Cookie 解密失败，请确认 /app/storage 密钥未变化")),
        Opening::Opened(p) => Ok(p),
    }
}

/// Seals a payload under a key with the given nonce and writes the
/// envelope: `alg` `A256GCM`, the nonce and the ciphertext in base64.
pub fn seal_payload_with(key: &[u8], nonce: [u8; 12], payload: &[u8]) -> (r: Result<String, String>)
    ensures
        key@.len() != 32 ==> (r matches Err(m) && m@ == bad_key_message()),
        key@.len() == 32 ==> match aes_gcm_sealed(key@, nonce@, payload@) {
            Some(c) => r matches Ok(t) && t@ == json_envelope("A256GCM"@, base64_text(nonce@), base64_text(c)),
            None => r matches Err(m) && m@ == "Cookie 加密失败"@,
        },
        r matches Ok(t) ==> opened_payload(key@, t@) == Ok::<Seq<u8>, Seq<char>>(payload@),
{
    if key.len() != 32 {
        return Err(owned("Cookie 密钥无效"));
    }
    let sealed = match seal(key, nonce, payload) {
        Sealing::BadKey => return Err(owned("Cookie 密钥无效")),
        Sealing::Failed => return Err(owned("Cookie 加密失败")),
        Sealing::Sealed(c) => c,
    };
    let tn = encode_base64(&nonce);
    let tc = encode_base64(sealed.as_slice());
    let t = write_envelope("A256GCM", tn.as_str(), tc.as_str());
    assert(nonce@.len() == 12);
    Ok(t)
}

/// The three messages with which sealing can fail are distinct.
proof fn lemma_messages_differ()
    ensures
        bad_key_message() != "Cookie 加密失败"@,
        bad_key_message() != "生成视频 Cookie nonce 失败"@,
        "生成视频 Cookie nonce 失败"@ != "Cookie 加密失败"@,
{
    reveal_strlit("Cookie 密钥无效");
    reveal_strlit("Cookie 加密失败");
    reveal_strlit("生成视频 Cookie nonce 失败");
    assert(bad_key_message()[7] != "Cookie 加密失败"@[7]);
    assert(bad_key_message()[0] != "生成视频 Cookie nonce 失败"@[0]);
    assert("生成视频 Cookie nonce 失败"@[0] != "Cookie 加密失败"@[0]);
}

/// Seals a payload for storage under the store's key, with a fresh nonce
/// from the system's random source.
pub fn encrypt_payload(key: &[u8], payload: &[u8]) -> (r: Result<String, String>)
    ensures
        key@.len() != 32 ==> (r matches Err(m) && m@ == bad_key_message()),
        key@.len() == 32 ==> !(r matches Err(m) && m@ == bad_key_message()),
        r matches Ok(t) ==> opened_payload(key@, t@) == Ok::<Seq<u8>, Seq<char>>(payload@),
        r matches Ok(t) ==> exists|n: Seq<u8>|
            n.len() == 12 && sealed_as(key@, n, payload@, t@),
        r matches Err(m) ==> m@ == bad_key_message() || m@ == "生成视频 Cookie nonce 失败"@ || m@
            == "Cookie 加密失败"@,
        r matches Err(m) && m@ == "Cookie 加密失败"@ ==> exists|n: Seq<u8>|
            n.len() == 12 && #[trigger] aes_gcm_sealed(key@, n, payload@) is None,
{
    proof {
        lemma_messages_differ();
    }
    if key.len() != 32 {
        return Err(owned("Cookie 密钥无效"));
    }
    let nonce = match random_nonce() {
        Some(n) => n,
        None => return Err(owned("生成视频 Cookie nonce 失败")),
    };
    assert(nonce@.len() == 12);
    let r = seal_payload_with(key, nonce, payload);
    proof {
        if r is Ok {
            assert(sealed_as(key@, nonce@, payload@, r->Ok_0@));
        }
    }
    r
}

} // verus!
