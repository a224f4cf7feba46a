//! The sealed envelope that carries a report of findings: a fresh Kyber-768
//! encapsulation, a fresh 96-bit nonce and the AES-256-GCM encryption of the
//! report under the encapsulated secret, framed as
//! `kem ciphertext || nonce || sealed report` and encoded as standard base64.
use aes_gcm::aead::{Aead, KeyInit};
use base64::Engine;
use vstd::prelude::*;
use vstd::slice::{slice_subrange, slice_to_vec};
use vstd::string::StringSliceAdditionalSpecFns;

verus! {

/// Length of a Kyber-768 encapsulation ciphertext.
pub const KEM_CIPHERTEXT_LEN: usize = 1088;

/// Length of a Kyber-768 public key.
pub const PUBLIC_KEY_LEN: usize = 1184;

/// Length of a Kyber-768 secret key.
pub const SECRET_KEY_LEN: usize = 2400;

/// Length of the shared secret, which is used as the AES-256 key.
pub const SHARED_SECRET_LEN: usize = 32;

/// Length of the AES-GCM nonce.
pub const NONCE_LEN: usize = 12;

/// Length of the AES-GCM authentication tag.
pub const TAG_LEN: usize = 16;

/// The longest plaintext that AES-GCM encrypts.
pub const MAX_REPORT_LEN: u64 = 68719476736;

/// Why an envelope could not be sealed or opened.
#[derive(Clone, Copy, Debug, PartialEq, Eq, Structural)]
pub enum CryptoError {
    /// The public key does not have the Kyber-768 length.
    InvalidPublicKey,
    /// The secret key does not have the Kyber-768 length.
    InvalidSecretKey,
    /// Key generation or encapsulation could not draw randomness.
    Encapsulation,
    /// The nonce could not be drawn.
    Randomness,
    /// The report is longer than AES-GCM can encrypt.
    Encryption,
    /// The envelope is not base64 of at least a ciphertext and a nonce.
    Malformed,
    /// The sealed report does not authenticate under the recovered key.
    Authentication,
}

#[verifier::external_type_specification]
#[verifier::external_body]
pub struct ExKyberError(pqc_kyber::KyberError);

#[verifier::external_type_specification]
#[verifier::external_body]
pub struct ExAeadError(aes_gcm::Error);

#[verifier::external_type_specification]
#[verifier::external_body]
pub struct ExRandError(rand::Error);

#[verifier::external_type_specification]
#[verifier::external_body]
pub struct ExDecodeError(base64::DecodeError);

/// What AES-256-GCM makes of a plaintext under a key and a nonce, with no
/// associated data: the ciphertext followed by the tag.
pub uninterp spec fn aead_seal(key: Seq<u8>, nonce: Seq<u8>, plaintext: Seq<u8>) -> Seq<u8>;

/// The standard base64 encoding, with padding, of a byte sequence.
pub uninterp spec fn base64_of(bytes: Seq<u8>) -> Seq<char>;

/// The shared secret that Kyber-768 decapsulation recovers from a ciphertext
/// with a secret key.
pub uninterp spec fn kem_shared(ciphertext: Seq<u8>, secret_key: Seq<u8>) -> Seq<u8>;

/// Relies on `pqc_kyber::keypair` with the operating system's generator: on
/// success a public and a secret key of the Kyber-768 lengths.
#[verifier::external_body]
fn kem_keypair() -> (r: Result<(Vec<u8>, Vec<u8>), pqc_kyber::KyberError>)
    ensures
        r matches Ok((pk, sk)) ==> pk@.len() == PUBLIC_KEY_LEN && sk@.len() == SECRET_KEY_LEN,
{
    pqc_kyber::keypair(&mut rand::rngs::OsRng).map(|k| (k.public.to_vec(), k.secret.to_vec()))
}

/// Relies on `pqc_kyber::encapsulate` with the operating system's generator:
/// it refuses a public key of another length, and on success gives a fresh
/// ciphertext and shared secret of the Kyber-768 lengths.
#[verifier::external_body]
fn kem_encapsulate(pk: &[u8]) -> (r: Result<(Vec<u8>, Vec<u8>), pqc_kyber::KyberError>)
    ensures
        pk@.len() != PUBLIC_KEY_LEN ==> r is Err,
        r matches Ok((ct, ss)) ==> ct@.len() == KEM_CIPHERTEXT_LEN && ss@.len()
            == SHARED_SECRET_LEN,
{
    pqc_kyber::encapsulate(pk, &mut rand::rngs::OsRng).map(|(ct, ss)| (ct.to_vec(), ss.to_vec()))
}

/// Relies on `pqc_kyber::decapsulate`: it refuses inputs of other lengths and
/// otherwise recovers the shared secret, a function of its two arguments.
#[verifier::external_body]
fn kem_decapsulate(ct: &[u8], sk: &[u8]) -> (r: Result<Vec<u8>, pqc_kyber::KyberError>)
    ensures
        r is Ok <==> (ct@.len() == KEM_CIPHERTEXT_LEN && sk@.len() == SECRET_KEY_LEN),
        r matches Ok(ss) ==> ss@ == kem_shared(ct@, sk@) && ss@.len() == SHARED_SECRET_LEN,
{
    pqc_kyber::decapsulate(ct, sk).map(|ss| ss.to_vec())
}

/// Relies on `RngCore::try_fill_bytes` of `rand::rngs::OsRng`: on success,
/// a nonce of twelve bytes drawn from the operating system.
#[verifier::external_body]
fn random_nonce() -> (r: Result<Vec<u8>, rand::Error>)
    ensures
        r matches Ok(n) ==> n@.len() == NONCE_LEN,
{
    let mut n = vec![0u8; NONCE_LEN];
    rand::RngCore::try_fill_bytes(&mut rand::rngs::OsRng, &mut n).map(|_| n)
}

/// Relies on `Aead::encrypt` of `aes_gcm::Aes256Gcm`: it fails only on a
/// plaintext longer than 2^36 bytes, and otherwise gives the ciphertext and
/// the tag.
#[verifier::external_body]
fn aead_encrypt(key: &[u8], nonce: &[u8], plaintext: &[u8]) -> (r: Result<Vec<u8>, aes_gcm::Error>)
    requires
        key@.len() == SHARED_SECRET_LEN,
        nonce@.len() == NONCE_LEN,
    ensures
        r is Ok <==> plaintext@.len() <= MAX_REPORT_LEN,
        r matches Ok(c) ==> c@ == aead_seal(key@, nonce@, plaintext@) && c@.len() == plaintext@.len()
            + TAG_LEN,
{
    let cipher = aes_gcm::Aes256Gcm::new(aes_gcm::Key::<aes_gcm::Aes256Gcm>::from_slice(key));
    cipher.encrypt(aes_gcm::Nonce::from_slice(nonce), plaintext)
}

/// Relies on `Aead::decrypt` of `aes_gcm::Aes256Gcm`: it gives back the
/// plaintext of a ciphertext that encryption under the same key and nonce
/// produced, and fails on any other input, since the tag is checked.
#[verifier::external_body]
fn aead_decrypt(key: &[u8], nonce: &[u8], sealed: &[u8]) -> (r: Result<Vec<u8>, aes_gcm::Error>)
    requires
        key@.len() == SHARED_SECRET_LEN,
        nonce@.len() == NONCE_LEN,
    ensures
        r matches Ok(p) ==> sealed@ == aead_seal(key@, nonce@, p@),
        forall|p: Seq<u8>|
            sealed@ == #[trigger] aead_seal(key@, nonce@, p) ==> r is Ok && r->Ok_0@ == p,
{
    let cipher = aes_gcm::Aes256Gcm::new(aes_gcm::Key::<aes_gcm::Aes256Gcm>::from_slice(key));
    cipher.decrypt(aes_gcm::Nonce::from_slice(nonce), sealed)
}

/// Relies on `Engine::encode` of base64's `STANDARD` engine.
#[verifier::external_body]
fn encode_base64(bytes: &[u8]) -> (r: String)
    ensures
        r@ == base64_of(bytes@),
{
    base64::engine::general_purpose::STANDARD.encode(bytes)
}

/// Relies on `Engine::decode` of base64's `STANDARD` engine, which accepts
/// canonical padded encodings only: it succeeds exactly on the encodings of
/// byte sequences, and gives back the encoded bytes.
#[verifier::external_body]
fn decode_base64(text: &str) -> (r: Result<Vec<u8>, base64::DecodeError>)
    ensures
        r matches Ok(b) ==> text@ == base64_of(b@),
        forall|b: Seq<u8>| text@ == #[trigger] base64_of(b) ==> r is Ok && r->Ok_0@ == b,
{
    base64::engine::general_purpose::STANDARD.decode(text)
}

/// The framed bytes of an envelope.
pub open spec fn envelope_bytes(kem_ct: Seq<u8>, nonce: Seq<u8>, sealed: Seq<u8>) -> Seq<u8> {
    kem_ct + nonce + sealed
}

/// The envelope text of `plaintext` sealed under `secret` and `nonce`, with
/// `kem_ct` as the encapsulation that carries the secret.
pub open spec fn sealed_envelope(
    kem_ct: Seq<u8>,
    secret: Seq<u8>,
    nonce: Seq<u8>,
    plaintext: Seq<u8>,
) -> Seq<char> {
    base64_of(envelope_bytes(kem_ct, nonce, aead_seal(secret, nonce, plaintext)))
}

/// A receiver's key pair.
pub struct ReceiverKeys {
    pub public: Vec<u8>,
    pub secret: Vec<u8>,
}

/// Generates a fresh Kyber-768 key pair.
pub fn generate_keys() -> (r: Result<ReceiverKeys, CryptoError>)
    ensures
        r matches Ok(k) ==> k.public@.len() == PUBLIC_KEY_LEN && k.secret@.len() == SECRET_KEY_LEN,
        r matches Err(e) ==> e == CryptoError::Encapsulation,
{
    match kem_keypair() {
        Ok((public, secret)) => Ok(ReceiverKeys { public, secret }),
        Err(_) => Err(CryptoError::Encapsulation),
    }
}

fn append_bytes(out: &mut Vec<u8>, src: &[u8])
    ensures
        final(out)@ == old(out)@ + src@,
{
    let mut i: usize = 0;
    while i < src.len()
        invariant
            i <= src@.len(),
            out@ == old(out)@ + src@.subrange(0, i as int),
        decreases src@.len() - i,
    {
        out.push(src[i]);
        i = i + 1;
        assert(out@ =~= old(out)@ + src@.subrange(0, i as int));
    }
    assert(src@.subrange(0, i as int) =~= src@);
}

/// Frames the three parts of an envelope, in order, with no length prefix.
pub fn frame_envelope(kem_ct: &[u8], nonce: &[u8], sealed: &[u8]) -> (r: Vec<u8>)
    ensures
        r@ == envelope_bytes(kem_ct@, nonce@, sealed@),
{
    let mut r: Vec<u8> = Vec::new();
    append_bytes(&mut r, kem_ct);
    append_bytes(&mut r, nonce);
    append_bytes(&mut r, sealed);
    assert(r@ =~= envelope_bytes(kem_ct@, nonce@, sealed@));
    r
}

/// Splits framed envelope bytes into the encapsulation ciphertext, the nonce
/// and the sealed report, by their fixed lengths.
pub fn split_envelope(bytes: &[u8]) -> (r: Option<(Vec<u8>, Vec<u8>, Vec<u8>)>)
    ensures
        r is Some <==> bytes@.len() >= KEM_CIPHERTEXT_LEN + NONCE_LEN,
        r matches Some((ct, nonce, sealed)) ==> ct@ == bytes@.subrange(0, KEM_CIPHERTEXT_LEN as int)
            && nonce@ == bytes@.subrange(
            KEM_CIPHERTEXT_LEN as int,
            (KEM_CIPHERTEXT_LEN + NONCE_LEN) as int,
        ) && sealed@ == bytes@.subrange((KEM_CIPHERTEXT_LEN + NONCE_LEN) as int, bytes@.len() as int),
{
    let n = bytes.len();
    if n < KEM_CIPHERTEXT_LEN + NONCE_LEN {
        return None;
    }
    let ct = slice_to_vec(slice_subrange(bytes, 0, KEM_CIPHERTEXT_LEN));
    let nonce = slice_to_vec(
        slice_subrange(bytes, KEM_CIPHERTEXT_LEN, KEM_CIPHERTEXT_LEN + NONCE_LEN),
    );
    let sealed = slice_to_vec(slice_subrange(bytes, KEM_CIPHERTEXT_LEN + NONCE_LEN, n));
    Some((ct, nonce, sealed))
}

/// Splitting framed bytes gives back the parts that were framed.
pub proof fn lemma_split_frame(kem_ct: Seq<u8>, nonce: Seq<u8>, sealed: Seq<u8>)
    requires
        kem_ct.len() == KEM_CIPHERTEXT_LEN,
        nonce.len() == NONCE_LEN,
    ensures
        ({
            let b = envelope_bytes(kem_ct, nonce, sealed);
            &&& b.len() >= KEM_CIPHERTEXT_LEN + NONCE_LEN
            &&& b.subrange(0, KEM_CIPHERTEXT_LEN as int) == kem_ct
            &&& b.subrange(KEM_CIPHERTEXT_LEN as int, (KEM_CIPHERTEXT_LEN + NONCE_LEN) as int) == nonce
            &&& b.subrange((KEM_CIPHERTEXT_LEN + NONCE_LEN) as int, b.len() as int) == sealed
        }),
{
    let b = envelope_bytes(kem_ct, nonce, sealed);
    assert(b.subrange(0, KEM_CIPHERTEXT_LEN as int) =~= kem_ct);
    assert(b.subrange(KEM_CIPHERTEXT_LEN as int, (KEM_CIPHERTEXT_LEN + NONCE_LEN) as int) =~= nonce);
    assert(b.subrange((KEM_CIPHERTEXT_LEN + NONCE_LEN) as int, b.len() as int) =~= sealed);
}

/// Seals `report` with an encapsulation already made (`kem_ct` carrying
/// `secret`) and a nonce already drawn.
pub fn seal_with(report: &str, kem_ct: &[u8], secret: &[u8], nonce: &[u8]) -> (r: Result<
    String,
    CryptoError,
>)
    requires
        kem_ct@.len() == KEM_CIPHERTEXT_LEN,
        secret@.len() == SHARED_SECRET_LEN,
        nonce@.len() == NONCE_LEN,
    ensures
        r is Ok <==> report.spec_bytes().len() <= MAX_REPORT_LEN,
        r matches Ok(s) ==> s@ == sealed_envelope(kem_ct@, secret@, nonce@, report.spec_bytes()),
        r matches Err(e) ==> e == CryptoError::Encryption,
{
    match aead_encrypt(secret, nonce, report.as_bytes()) {
        Ok(sealed) => {
            let framed = frame_envelope(kem_ct, nonce, sealed.as_slice());
            Ok(encode_base64(framed.as_slice()))
        },
        Err(_) => Err(CryptoError::Encryption),
    }
}

/// Seals `report` for the holder of the secret key that matches `server_pk`,
/// with a fresh encapsulation and a fresh nonce on every call.
pub fn seal_report(report: &str, server_pk: &[u8]) -> (r: Result<String, CryptoError>)
    ensures
        server_pk@.len() != PUBLIC_KEY_LEN ==> r == Err::<String, CryptoError>(
            CryptoError::InvalidPublicKey,
        ),
        r matches Ok(s) ==> exists|kem_ct: Seq<u8>, secret: Seq<u8>, nonce: Seq<u8>|
            kem_ct.len() == KEM_CIPHERTEXT_LEN && secret.len() == SHARED_SECRET_LEN && nonce.len()
                == NONCE_LEN && s@ == #[trigger] sealed_envelope(
                kem_ct,
                secret,
                nonce,
                report.spec_bytes(),
            ),
        report.spec_bytes().len() > MAX_REPORT_LEN ==> r is Err,
        server_pk@.len() == PUBLIC_KEY_LEN && report.spec_bytes().len() <= MAX_REPORT_LEN ==> (r is Ok
            || r == Err::<String, CryptoError>(CryptoError::Encapsulation) || r == Err::<
            String,
            CryptoError,
        >(CryptoError::Randomness)),
{
    if server_pk.len() != PUBLIC_KEY_LEN {
        return Err(CryptoError::InvalidPublicKey);
    }
    let (kem_ct, secret) = match kem_encapsulate(server_pk) {
        Ok(pair) => pair,
        Err(_) => {
            return Err(CryptoError::Encapsulation);
        },
    };
    let nonce = match random_nonce() {
        Ok(n) => n,
        Err(_) => {
            return Err(CryptoError::Randomness);
        },
    };
    seal_with(report, kem_ct.as_slice(), secret.as_slice(), nonce.as_slice())
}

/// Opens an envelope with the receiver's secret key. Every envelope sealed
/// with an encapsulation that this key decapsulates opens to exactly the
/// sealed bytes; anything that opens was sealed so.
pub fn open_envelope(envelope: &str, secret_key: &[u8]) -> (r: Result<Vec<u8>, CryptoError>)
    ensures
        forall|kem_ct: Seq<u8>, nonce: Seq<u8>, plaintext: Seq<u8>|
            kem_ct.len() == KEM_CIPHERTEXT_LEN && nonce.len() == NONCE_LEN && secret_key@.len()
                == SECRET_KEY_LEN && envelope@ == #[trigger] sealed_envelope(
                kem_ct,
                kem_shared(kem_ct, secret_key@),
                nonce,
                plaintext,
            ) ==> (r matches Ok(p) && p@ == plaintext),
        r matches Ok(p) ==> exists|kem_ct: Seq<u8>, nonce: Seq<u8>|
            kem_ct.len() == KEM_CIPHERTEXT_LEN && nonce.len() == NONCE_LEN && envelope@
                == #[trigger] sealed_envelope(kem_ct, kem_shared(kem_ct, secret_key@), nonce, p@),
        secret_key@.len() != SECRET_KEY_LEN ==> r is Err,
{
    let bytes = match decode_base64(envelope) {
        Ok(b) => b,
        Err(_) => {
            proof {
                assert forall|kem_ct: Seq<u8>, nonce: Seq<u8>, plaintext: Seq<u8>|
                    kem_ct.len() == KEM_CIPHERTEXT_LEN && nonce.len() == NONCE_LEN
                        && secret_key@.len() == SECRET_KEY_LEN && envelope@ == #[trigger] sealed_envelope(
                        kem_ct,
                        kem_shared(kem_ct, secret_key@),
                        nonce,
                        plaintext,
                    ) implies false by {
                    let b = envelope_bytes(
                        kem_ct,
                        nonce,
                        aead_seal(kem_shared(kem_ct, secret_key@), nonce, plaintext),
                    );
                    assert(envelope@ == base64_of(b));
                }
            }
            return Err(CryptoError::Malformed);
        },
    };
    let (kem_ct, nonce, sealed) = match split_envelope(bytes.as_slice()) {
        Some(parts) => parts,
        None => {
            proof {
                assert forall|kem_ct: Seq<u8>, nonce: Seq<u8>, plaintext: Seq<u8>|
                    kem_ct.len() == KEM_CIPHERTEXT_LEN && nonce.len() == NONCE_LEN
                        && secret_key@.len() == SECRET_KEY_LEN && envelope@ == #[trigger] sealed_envelope(
                        kem_ct,
                        kem_shared(kem_ct, secret_key@),
                        nonce,
                        plaintext,
                    ) implies false by {
                    let s = aead_seal(kem_shared(kem_ct, secret_key@), nonce, plaintext);
                    let b = envelope_bytes(kem_ct, nonce, s);
                    assert(envelope@ == base64_of(b));
                    lemma_split_frame(kem_ct, nonce, s);
                }
            }
            return Err(CryptoError::Malformed);
        },
    };
    let secret = match kem_decapsulate(kem_ct.as_slice(), secret_key) {
        Ok(s) => s,
        Err(_) => {
            return Err(CryptoError::InvalidSecretKey);
        },
    };
    let r = match aead_decrypt(secret.as_slice(), nonce.as_slice(), sealed.as_slice()) {
        Ok(p) => Ok(p),
        Err(_) => Err(CryptoError::Authentication),
    };
    proof {
        assert forall|kc: Seq<u8>, n: Seq<u8>, plaintext: Seq<u8>|
            kc.len() == KEM_CIPHERTEXT_LEN && n.len() == NONCE_LEN && secret_key@.len()
                == SECRET_KEY_LEN && envelope@ == #[trigger] sealed_envelope(
                kc,
                kem_shared(kc, secret_key@),
                n,
                plaintext,
            ) implies (r matches Ok(p) && p@ == plaintext) by {
            let s = aead_seal(kem_shared(kc, secret_key@), n, plaintext);
            let b = envelope_bytes(kc, n, s);
            assert(envelope@ == base64_of(b));
            lemma_split_frame(kc, n, s);
            assert(bytes@ == b);
            assert(sealed@ == aead_seal(secret@, nonce@, plaintext));
        }
        if r is Ok {
            let p = r->Ok_0;
            lemma_split_frame(kem_ct@, nonce@, sealed@);
            assert(bytes@ =~= envelope_bytes(kem_ct@, nonce@, sealed@));
            assert(envelope@ == sealed_envelope(kem_ct@, kem_shared(kem_ct@, secret_key@), nonce@, p@));
        }
    }
    r
}

} // verus!
