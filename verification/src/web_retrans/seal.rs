use vstd::prelude::*;
use sodiumoxide::crypto::box_;

verus! {

/// The encrypted webhook notification: the sealed event and its nonce, both in base64.
pub struct AuthReqwest {
    pub version: u32,
    pub payload: String,
    pub nonce: String,
}

/// What the standard base64 alphabet decodes `text` into, when it is valid base64.
pub uninterp spec fn base64_decoded(text: Seq<char>) -> Option<Seq<u8>>;

/// The standard base64 text of `bytes`.
pub uninterp spec fn base64_encoded(bytes: Seq<u8>) -> Seq<char>;

/// The shared key of curve25519xsalsa20poly1305 for a public and a secret key.
pub uninterp spec fn precomputed_key(public_key: Seq<u8>, secret_key: Seq<u8>) -> Seq<u8>;

/// The authenticated ciphertext of `msg` under `nonce` and a shared key.
pub uninterp spec fn box_sealed(msg: Seq<u8>, nonce: Seq<u8>, key: Seq<u8>) -> Seq<u8>;

/// `base64::decode` (standard alphabet, padding required): the bytes that
/// `text` encodes, or nothing where it is not valid base64. Assumed: the
/// result is a function of the text alone.
#[verifier::external_body]
fn decode_base64(text: &str) -> (r: Option<Vec<u8>>)
    ensures
        r is Some == base64_decoded(text@) is Some,
        r matches Some(v) ==> v@ == base64_decoded(text@)->0,
{
    base64::decode(text).ok()
}

/// `base64::encode` (standard alphabet, with padding). Assumed: the text is
/// a function of the bytes alone.
#[verifier::external_body]
fn encode_base64(bytes: &[u8]) -> (r: String)
    ensures
        r@ == base64_encoded(bytes@),
{
    base64::encode(bytes)
}

/// `sodiumoxide::crypto::box_::gen_nonce`: 24 random bytes. Nothing else is
/// claimed of them.
#[verifier::external_body]
fn fresh_nonce() -> (r: Vec<u8>)
    ensures
        r@.len() == 24,
{
    box_::gen_nonce().0.to_vec()
}

/// `sodiumoxide::crypto::box_::precompute` on keys made of the given 32
/// bytes each. Assumed: the 32 bytes of the shared key are a function of the
/// two keys alone.
#[verifier::external_body]
fn precompute_key(public_key: &[u8], secret_key: &[u8]) -> (r: Vec<u8>)
    requires
        public_key@.len() == 32,
        secret_key@.len() == 32,
    ensures
        r@ == precomputed_key(public_key@, secret_key@),
        r@.len() == 32,
{
    let pk = box_::PublicKey(public_key.try_into().unwrap());
    let sk = box_::SecretKey(secret_key.try_into().unwrap());
    box_::precompute(&pk, &sk).0.to_vec()
}

/// `sodiumoxide::crypto::box_::seal_precomputed`: the ciphertext is the
/// message's length plus the 16 bytes of the authentication tag, and a
/// function of the message, the nonce and the key alone.
#[verifier::external_body]
fn seal_with_key(msg: &[u8], nonce: &[u8], key: &[u8]) -> (r: Vec<u8>)
    requires
        nonce@.len() == 24,
        key@.len() == 32,
    ensures
        r@ == box_sealed(msg@, nonce@, key@),
        r@.len() == msg@.len() + 16,
{
    let n = box_::Nonce(nonce.try_into().unwrap());
    let k = box_::PrecomputedKey(key.try_into().unwrap());
    box_::seal_precomputed(msg, &n, &k)
}

/// Why an event could not be sealed.
#[derive(PartialEq, Eq, Structural, Clone, Copy, Debug)]
pub enum SealError {
    /// The user's public key is not valid base64.
    PublicKeyText,
    /// The user's public key does not decode to 32 bytes.
    PublicKeyLength,
    /// The platform's secret key is not valid base64.
    SecretKeyText,
    /// The platform's secret key does not decode to 32 bytes.
    SecretKeyLength,
}

/// Which key of `user_pkc` (public) and `root_sk0` (secret) prevents sealing, if any.
pub open spec fn seal_problem(user_pkc: Seq<char>, root_sk0: Seq<char>) -> Option<SealError> {
    if base64_decoded(user_pkc) is None {
        Some(SealError::PublicKeyText)
    } else if base64_decoded(user_pkc)->0.len() != 32 {
        Some(SealError::PublicKeyLength)
    } else if base64_decoded(root_sk0) is None {
        Some(SealError::SecretKeyText)
    } else if base64_decoded(root_sk0)->0.len() != 32 {
        Some(SealError::SecretKeyLength)
    } else {
        None
    }
}

/// Seals the event `body` under `nonce` for the user whose public key is
/// `user_pkc`, with the platform's secret key `root_sk0`, both in base64.
/// The notification carries version 2, the base64 of the ciphertext and the
/// base64 of the nonce.
pub fn seal_webhook_with(body: &[u8], user_pkc: &str, root_sk0: &str, nonce: &[u8]) -> (r: Result<
    AuthReqwest,
    SealError,
>)
    requires
        nonce@.len() == 24,
    ensures
        r matches Err(e) ==> seal_problem(user_pkc@, root_sk0@) == Some(e),
        r is Ok <==> seal_problem(user_pkc@, root_sk0@) is None,
        r matches Ok(a) ==> {
            let pk = base64_decoded(user_pkc@)->0;
            let sk = base64_decoded(root_sk0@)->0;
            &&& a.version == 2
            &&& a.nonce@ == base64_encoded(nonce@)
            &&& a.payload@ == base64_encoded(box_sealed(body@, nonce@, precomputed_key(pk, sk)))
        },
{
    let pk = match decode_base64(user_pkc) {
        None => {
            return Err(SealError::PublicKeyText);
        },
        Some(v) => v,
    };
    if pk.len() != 32 {
        return Err(SealError::PublicKeyLength);
    }
    let sk = match decode_base64(root_sk0) {
        None => {
            return Err(SealError::SecretKeyText);
        },
        Some(v) => v,
    };
    if sk.len() != 32 {
        return Err(SealError::SecretKeyLength);
    }
    let key = precompute_key(pk.as_slice(), sk.as_slice());
    let cipher = seal_with_key(body, nonce, key.as_slice());
    let payload = encode_base64(cipher.as_slice());
    let nonce_text = encode_base64(nonce);
    Ok(AuthReqwest { version: 2, payload, nonce: nonce_text })
}

/// Seals the event `body` as `seal_webhook_with` does, under a fresh random nonce.
pub fn seal_webhook(body: &[u8], user_pkc: &str, root_sk0: &str) -> (r: Result<
    AuthReqwest,
    SealError,
>)
    ensures
        r matches Err(e) ==> seal_problem(user_pkc@, root_sk0@) == Some(e),
        r is Ok <==> seal_problem(user_pkc@, root_sk0@) is None,
        r matches Ok(a) ==> {
            let pk = base64_decoded(user_pkc@)->0;
            let sk = base64_decoded(root_sk0@)->0;
            &&& a.version == 2
            &&& exists|nonce: Seq<u8>|
                nonce.len() == 24 && a.nonce@ == base64_encoded(nonce) && #[trigger] a.payload@
                    == base64_encoded(box_sealed(body@, nonce, precomputed_key(pk, sk)))
        },
{
    let nonce = fresh_nonce();
    let r = seal_webhook_with(body, user_pkc, root_sk0, nonce.as_slice());
    proof {
        if r is Ok {
            let pk = base64_decoded(user_pkc@)->0;
            let sk = base64_decoded(root_sk0@)->0;
            assert(r->Ok_0.payload@ == base64_encoded(box_sealed(body@, nonce@, precomputed_key(pk, sk))));
        }
    }
    r
}

} // verus!
