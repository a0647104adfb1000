//! Secrets at rest and in flight: the sealed file that keeps stream keys,
//! tokens and webhook secrets, and the signature that webhook receivers
//! check.

use vstd::prelude::*;
use vstd::string::StringSliceAdditionalSpecFns;
use vstd::utf8::encode_utf8;

use aes_gcm::aead::{Aead, KeyInit};
use aes_gcm::{Aes256Gcm, Nonce};
use hmac::{Hmac, Mac};
use sha2::Sha256;

use crate::server::restream::WebhookSubscription;
use crate::text::{hex_encode, hex_lower, join2, str_eq};

verus! {

/// `Hmac::<Sha256>`: the HMAC-SHA256 tag of `message` under `key`.
pub uninterp spec fn hmac_sha256_of(key: Seq<u8>, message: Seq<u8>) -> Seq<u8>;

/// `Aes256Gcm::encrypt`: the ciphertext, tag appended, of `plaintext` under
/// `key` and `nonce`, with no associated data.
pub uninterp spec fn aes_gcm_seal_of(key: Seq<u8>, nonce: Seq<u8>, plaintext: Seq<u8>) -> Seq<u8>;

/// `Aes256Gcm::decrypt`: the plaintext of `ciphertext` under `key` and
/// `nonce`, or `None` when the tag does not check.
pub uninterp spec fn aes_gcm_open_of(key: Seq<u8>, nonce: Seq<u8>, ciphertext: Seq<u8>) -> Option<Seq<u8>>;

/// The largest plaintext AES-GCM seals: 2^36 bytes.
pub const SEAL_MAX: u64 = 68719476736;

/// `Hmac::<Sha256>::new_from_slice`, `update` and `finalize`: the 32-byte
/// tag, the named function of key and message. HMAC takes keys of any
/// length, so a tag always comes back.
#[verifier::external_body]
fn hmac_sha256(key: &[u8], message: &[u8]) -> (r: Option<Vec<u8>>)
    ensures
        r.is_some(),
        r.unwrap()@ == hmac_sha256_of(key@, message@),
        r.unwrap()@.len() == 32,
{
    <Hmac<Sha256> as Mac>::new_from_slice(key).ok().map(|mut mac| {
        mac.update(message);
        mac.finalize().into_bytes().to_vec()
    })
}

/// `Aes256Gcm::new` and `Aead::encrypt`: the ciphertext with its 16-byte
/// tag, the named function of key, nonce and plaintext, which `decrypt`
/// opens again to the plaintext. It fails only for plaintexts over 2^36
/// bytes.
#[verifier::external_body]
fn aes_gcm_seal(key: &[u8; 32], nonce: &[u8; 12], plaintext: &[u8]) -> (r: Option<Vec<u8>>)
    ensures
        match r {
            Some(c) => c@ == aes_gcm_seal_of(key@, nonce@, plaintext@) && c@.len() == plaintext@.len() + 16
                && aes_gcm_open_of(key@, nonce@, c@) == Some(plaintext@),
            None => plaintext@.len() > SEAL_MAX,
        },
{
    let cipher = Aes256Gcm::new(aes_gcm::Key::<Aes256Gcm>::from_slice(key));
    cipher.encrypt(Nonce::from_slice(nonce), plaintext).ok()
}

/// `Aes256Gcm::new` and `Aead::decrypt`: the plaintext, or `None` when the
/// ciphertext does not authenticate; the named function of its arguments.
#[verifier::external_body]
fn aes_gcm_open(key: &[u8; 32], nonce: &[u8; 12], ciphertext: &[u8]) -> (r: Option<Vec<u8>>)
    ensures
        match r {
            Some(p) => aes_gcm_open_of(key@, nonce@, ciphertext@) == Some(p@),
            None => aes_gcm_open_of(key@, nonce@, ciphertext@).is_none(),
        },
{
    let cipher = Aes256Gcm::new(aes_gcm::Key::<Aes256Gcm>::from_slice(key));
    cipher.decrypt(Nonce::from_slice(nonce), ciphertext).ok()
}

/// `uuid::Uuid::new_v4()`, its first twelve bytes: a random nonce. Which
/// nonce comes back is chance.
#[verifier::external_body]
fn random_nonce() -> [u8; 12] {
    let id = uuid::Uuid::new_v4();
    let mut nonce = [0u8; 12];
    nonce.copy_from_slice(&id.as_bytes()[..12]);
    nonce
}

/// The signature header of a webhook body: `sha256=` and the HMAC-SHA256
/// tag in lower-case hex.
pub open spec fn signature_of(secret: Seq<u8>, body: Seq<u8>) -> Seq<char> {
    "sha256="@ + hex_lower(hmac_sha256_of(secret, body))
}

fn str_bytes(s: &str) -> (b: &[u8])
    ensures
        b@ == encode_utf8(s@),
{
    s.as_bytes()
}

/// The signature sent with a webhook body, when the webhook has a secret.
pub fn webhook_signature(secret: Option<&str>, body: &[u8]) -> (r: Option<String>)
    ensures
        match secret {
            None => r.is_none(),
            Some(s) => r matches Some(sig) && sig@ == signature_of(encode_utf8(s@), body@),
        },
{
    match secret {
        None => None,
        Some(s) => match hmac_sha256(str_bytes(s), body) {
            Some(tag) => {
                let hex = hex_encode(tag.as_slice());
                Some(join2("sha256=", hex.as_str()))
            },
            None => None,
        },
    }
}

/// Whether a webhook is told of an event: it is enabled and subscribes to
/// every event (an empty list) or to this one.
pub open spec fn wants(w: WebhookSubscription, event: Seq<char>) -> bool {
    w.enabled && (w.events@.len() == 0 || exists|i: int| 0 <= i < w.events@.len() && (#[trigger] w.events@[i])@ == event)
}

/// Whether a webhook is told of an event.
pub fn webhook_wants(w: &WebhookSubscription, event: &str) -> (r: bool)
    ensures
        r == wants(*w, event@),
{
    if !w.enabled {
        return false;
    }
    let n = w.events.len();
    if n == 0 {
        return true;
    }
    for i in 0..n
        invariant
            n == w.events@.len(),
            w.enabled,
            n > 0,
            forall|j: int| 0 <= j < i ==> (#[trigger] w.events@[j])@ != event@,
    {
        if str_eq(w.events[i].as_str(), event) {
            assert((w.events@[i as int])@ == event@);
            return true;
        }
    }
    false
}

/// How long to wait after a failed delivery attempt (0, 1, 2): a quarter
/// second more each time.
pub fn retry_delay_ms(attempt: u64) -> (ms: u64)
    requires
        attempt < 3,
    ensures
        ms == 250 * (attempt + 1),
{
    250 * (attempt + 1)
}

/// The sealed secrets file: the nonce, then the ciphertext.
pub open spec fn sealed_file(key: Seq<u8>, nonce: Seq<u8>, plaintext: Seq<u8>) -> Seq<u8> {
    nonce + aes_gcm_seal_of(key, nonce, plaintext)
}

/// The plaintext of a sealed secrets file, or `None` when it is too short
/// to hold a nonce and a ciphertext, or does not authenticate.
pub open spec fn opened_file(key: Seq<u8>, encoded: Seq<u8>) -> Option<Seq<u8>> {
    if encoded.len() <= 12 {
        None
    } else {
        aes_gcm_open_of(key, encoded.subrange(0, 12), encoded.subrange(12, encoded.len() as int))
    }
}

fn prepend_nonce(nonce: &[u8; 12], ciphertext: Vec<u8>) -> (r: Vec<u8>)
    ensures
        r@ == nonce@ + ciphertext@,
{
    let mut r: Vec<u8> = Vec::new();
    for i in 0..12
        invariant
            r@ == nonce@.subrange(0, i as int),
    {
        r.push(nonce[i]);
        proof {
            assert(r@ =~= nonce@.subrange(0, i + 1));
        }
    }
    let n = ciphertext.len();
    for i in 0..n
        invariant
            n == ciphertext@.len(),
            r@ == nonce@ + ciphertext@.subrange(0, i as int),
    {
        r.push(ciphertext[i]);
        proof {
            assert(r@ =~= nonce@ + ciphertext@.subrange(0, i + 1));
        }
    }
    proof {
        assert(ciphertext@.subrange(0, n as int) =~= ciphertext@);
        assert(nonce@.subrange(0, 12) =~= nonce@);
    }
    r
}

/// Seals the secrets under `key` with `nonce`.
pub fn seal_with_nonce(key: &[u8; 32], nonce: &[u8; 12], plaintext: &[u8]) -> (r: Result<Vec<u8>, String>)
    ensures
        match r {
            Ok(f) => f@ == sealed_file(key@, nonce@, plaintext@) && f@.len() == 12 + plaintext@.len() + 16
                && opened_file(key@, f@) == Some(plaintext@),
            Err(e) => plaintext@.len() > SEAL_MAX && e@ == "failed to encrypt state secrets"@,
        },
{
    match aes_gcm_seal(key, nonce, plaintext) {
        Some(c) => {
            proof {
                law_sealed_secrets_open(key@, nonce@, plaintext@);
            }
            Ok(prepend_nonce(nonce, c))
        },
        None => Err(crate::text::owned("failed to encrypt state secrets")),
    }
}

/// Seals the secrets under `key` with a fresh random nonce.
pub fn encrypt_sensitive_state(key: &[u8; 32], plaintext: &[u8]) -> (r: Result<Vec<u8>, String>)
    ensures
        match r {
            Ok(f) => f@.len() == 12 + plaintext@.len() + 16 && sealed_file(key@, f@.subrange(0, 12), plaintext@)
                == f@ && opened_file(key@, f@) == Some(plaintext@),
            Err(e) => plaintext@.len() > SEAL_MAX,
        },
{
    let nonce = random_nonce();
    let r = seal_with_nonce(key, &nonce, plaintext);
    proof {
        if r is Ok {
            let f = r->Ok_0;
            assert(f@.subrange(0, 12) =~= nonce@);
        }
    }
    r
}

fn nonce_of(encoded: &Vec<u8>) -> (n: [u8; 12])
    requires
        encoded@.len() >= 12,
    ensures
        n@ == encoded@.subrange(0, 12),
{
    let mut n = [0u8; 12];
    for i in 0..12
        invariant
            encoded@.len() >= 12,
            n@.len() == 12,
            forall|j: int| 0 <= j < i ==> n@[j] == encoded@[j],
    {
        vstd::array::ArrayAdditionalExecFns::set(&mut n, i, encoded[i]);
    }
    proof {
        assert(n@ =~= encoded@.subrange(0, 12));
    }
    n
}

fn bytes_between(v: &Vec<u8>, a: usize, b: usize) -> (r: Vec<u8>)
    requires
        a <= b <= v@.len(),
    ensures
        r@ == v@.subrange(a as int, b as int),
{
    let mut r: Vec<u8> = Vec::new();
    let mut i = a;
    while i < b
        invariant
            a <= i <= b <= v@.len(),
            r@ == v@.subrange(a as int, i as int),
        decreases b - i,
    {
        r.push(v[i]);
        i = i + 1;
        proof {
            assert(r@ =~= v@.subrange(a as int, i as int));
        }
    }
    r
}

/// Opens a sealed secrets file.
pub fn open_sensitive_state(key: &[u8; 32], encoded: &Vec<u8>) -> (r: Option<Vec<u8>>)
    ensures
        match r {
            Some(p) => opened_file(key@, encoded@) == Some(p@),
            None => opened_file(key@, encoded@).is_none(),
        },
{
    let len = encoded.len();
    if len <= 12 {
        return None;
    }
    let nonce = nonce_of(encoded);
    let body = bytes_between(encoded, 12, len);
    aes_gcm_open(key, &nonce, body.as_slice())
}

/// A sealed secrets file opens to the secrets that were sealed.
pub proof fn law_sealed_secrets_open(key: Seq<u8>, nonce: Seq<u8>, plaintext: Seq<u8>)
    requires
        nonce.len() == 12,
        aes_gcm_open_of(key, nonce, aes_gcm_seal_of(key, nonce, plaintext)) == Some(plaintext),
        aes_gcm_seal_of(key, nonce, plaintext).len() == plaintext.len() + 16,
    ensures
        opened_file(key, sealed_file(key, nonce, plaintext)) == Some(plaintext),
{
    let f = sealed_file(key, nonce, plaintext);
    assert(f.subrange(0, 12) =~= nonce);
    assert(f.subrange(12, f.len() as int) =~= aes_gcm_seal_of(key, nonce, plaintext));
}

} // verus!
