//! Ed25519 keys and signatures: parsing from text, generation, signing and
//! verification.
use crate::codec::{
    b58_decode, b58_decode_of, b58_encode, b58_encode_of, b64_decode, b64_decode_of, b64_encode,
    b64_encode_of, is_b58_char, is_b58_text,
};
use vstd::prelude::*;

verus! {

/// Number of bytes of a public key.
pub const PUBLIC_KEY_LEN: usize = 32;

/// Number of bytes of a keypair: the 32-byte secret seed, then the public key.
pub const KEYPAIR_LEN: usize = 64;

/// Number of bytes of a signature.
pub const SIGNATURE_LEN: usize = 64;

/// Why a piece of key material or an address was rejected.
#[derive(Clone, Copy, Debug, PartialEq, Eq, Structural)]
pub enum WalletError {
    /// The text is not valid base58 or base64.
    InvalidEncoding,
    /// The decoded byte count is not the one the scheme requires.
    InvalidKeyLength,
    /// The bytes decode but do not form a consistent Ed25519 keypair.
    InvalidKeyMaterial,
    /// An address given to the instruction builder is not a valid public key.
    InvalidAddress,
}

impl WalletError {
    /// A stable, human-readable description of the error.
    pub fn message(&self) -> (r: &'static str)
        ensures
            match self {
                WalletError::InvalidEncoding => r@ == "invalid encoding"@,
                WalletError::InvalidKeyLength => r@ == "invalid key length"@,
                WalletError::InvalidKeyMaterial => r@ == "invalid key material"@,
                WalletError::InvalidAddress => r@ == "invalid address"@,
            },
    {
        match self {
            WalletError::InvalidEncoding => "invalid encoding",
            WalletError::InvalidKeyLength => "invalid key length",
            WalletError::InvalidKeyMaterial => "invalid key material",
            WalletError::InvalidAddress => "invalid address",
        }
    }
}

/// Whether `Keypair::try_from` of the Solana SDK accepts these bytes: the
/// public half is a valid curve point equal to the one derived from the secret.
pub uninterp spec fn keypair_bytes_ok(b: Seq<u8>) -> bool;

/// The Ed25519 signature of `msg` under the 64-byte keypair `kp`.
pub uninterp spec fn ed25519_sign_of(kp: Seq<u8>, msg: Seq<u8>) -> Seq<u8>;

/// Whether `sig` is a valid Ed25519 signature of `msg` under public key `pk`.
pub uninterp spec fn ed25519_verify_of(pk: Seq<u8>, msg: Seq<u8>, sig: Seq<u8>) -> bool;

/// The public half of a 64-byte keypair.
pub open spec fn public_of(kp: Seq<u8>) -> Seq<u8> {
    kp.subrange(32, 64)
}

/// What parsing decoded bytes as a public key yields.
pub open spec fn public_from_decoded(b: Seq<u8>) -> Result<Seq<u8>, WalletError> {
    if b.len() != PUBLIC_KEY_LEN {
        Err(WalletError::InvalidKeyLength)
    } else {
        Ok(b)
    }
}

/// What parsing base58 text as a public key yields.
pub open spec fn parse_public_spec(s: Seq<char>) -> Result<Seq<u8>, WalletError> {
    if !is_b58_text(s) {
        Err(WalletError::InvalidEncoding)
    } else {
        public_from_decoded(b58_decode_of(s))
    }
}

/// What parsing decoded bytes as a keypair yields.
pub open spec fn keypair_from_decoded(b: Seq<u8>) -> Result<Seq<u8>, WalletError> {
    if b.len() != KEYPAIR_LEN {
        Err(WalletError::InvalidKeyLength)
    } else if !keypair_bytes_ok(b) {
        Err(WalletError::InvalidKeyMaterial)
    } else {
        Ok(b)
    }
}

/// What parsing base58 text as a keypair yields.
pub open spec fn parse_secret_spec(s: Seq<char>) -> Result<Seq<u8>, WalletError> {
    if !is_b58_text(s) {
        Err(WalletError::InvalidEncoding)
    } else {
        keypair_from_decoded(b58_decode_of(s))
    }
}

/// What parsing decoded bytes as a signature yields.
pub open spec fn signature_from_decoded(b: Seq<u8>) -> Result<Seq<u8>, WalletError> {
    if b.len() != SIGNATURE_LEN {
        Err(WalletError::InvalidKeyLength)
    } else {
        Ok(b)
    }
}

/// What parsing base64 text as a signature yields.
pub open spec fn parse_signature_spec(s: Seq<char>) -> Result<Seq<u8>, WalletError> {
    match b64_decode_of(s) {
        None => Err(WalletError::InvalidEncoding),
        Some(b) => signature_from_decoded(b),
    }
}

/// Base58 text holding a character outside the alphabet, such as `0`, is
/// rejected as a public key and as a keypair with `InvalidEncoding`.
pub proof fn lemma_rejects_foreign_char(s: Seq<char>, i: int)
    requires
        0 <= i < s.len(),
        !is_b58_char(s[i]),
    ensures
        parse_public_spec(s) == Err::<Seq<u8>, WalletError>(WalletError::InvalidEncoding),
        parse_secret_spec(s) == Err::<Seq<u8>, WalletError>(WalletError::InvalidEncoding),
{
}

/// Base58 text that decodes to other than 32 bytes (31 or 33, say) is
/// rejected as a public key with `InvalidKeyLength`.
pub proof fn lemma_rejects_wrong_length(s: Seq<char>)
    requires
        is_b58_text(s),
        b58_decode_of(s).len() != PUBLIC_KEY_LEN,
    ensures
        parse_public_spec(s) == Err::<Seq<u8>, WalletError>(WalletError::InvalidKeyLength),
{
}

/// A parse result over byte values agrees with one over the library's types.
pub open spec fn result_matches<T: View<V = Seq<u8>>>(
    r: Result<T, WalletError>,
    s: Result<Seq<u8>, WalletError>,
) -> bool {
    match r {
        Ok(v) => s == Ok::<Seq<u8>, WalletError>(v@),
        Err(e) => s == Err::<Seq<u8>, WalletError>(e),
    }
}

/// Copies a byte slice into a new vector.
fn copy_bytes(b: &[u8]) -> (r: Vec<u8>)
    ensures
        r@ == b@,
{
    let mut r: Vec<u8> = Vec::with_capacity(b.len());
    let mut i: usize = 0;
    while i < b.len()
        invariant
            i <= b@.len(),
            r@ == b@.subrange(0, i as int),
        decreases b@.len() - i,
    {
        r.push(b[i]);
        i = i + 1;
    }
    r
}

/// An Ed25519 public key: exactly 32 bytes.
pub struct PublicKey {
    bytes: Vec<u8>,
}

impl View for PublicKey {
    type V = Seq<u8>;

    closed spec fn view(&self) -> Seq<u8> {
        self.bytes@
    }
}

impl PublicKey {
    #[verifier::type_invariant]
    spec fn inv(self) -> bool {
        self.bytes@.len() == PUBLIC_KEY_LEN
    }

    /// Takes decoded bytes as a public key, if there are exactly 32 of them.
    pub fn from_bytes(b: &[u8]) -> (r: Result<PublicKey, WalletError>)
        ensures
            result_matches(r, public_from_decoded(b@)),
    {
        if b.len() != PUBLIC_KEY_LEN {
            Err(WalletError::InvalidKeyLength)
        } else {
            Ok(PublicKey { bytes: copy_bytes(b) })
        }
    }

    /// The raw bytes of the key.
    pub fn as_bytes(&self) -> (r: &[u8])
        ensures
            r@ == self@,
            r@.len() == PUBLIC_KEY_LEN,
    {
        proof {
            use_type_invariant(self);
        }
        self.bytes.as_slice()
    }

    /// An independent copy of the key.
    pub fn duplicate(&self) -> (r: PublicKey)
        ensures
            r@ == self@,
    {
        proof {
            use_type_invariant(self);
        }
        PublicKey { bytes: copy_bytes(self.bytes.as_slice()) }
    }

    /// The base58 text of the key; parsing it gives the key back.
    pub fn to_text(&self) -> (r: String)
        ensures
            r@ == b58_encode_of(self@),
            parse_public_spec(r@) == Ok::<Seq<u8>, WalletError>(self@),
    {
        proof {
            use_type_invariant(self);
        }
        b58_encode(self.bytes.as_slice())
    }
}

/// Parses a base58 public key.
pub fn parse_public(text: &str) -> (r: Result<PublicKey, WalletError>)
    ensures
        result_matches(r, parse_public_spec(text@)),
{
    match b58_decode(text) {
        None => Err(WalletError::InvalidEncoding),
        Some(b) => PublicKey::from_bytes(b.as_slice()),
    }
}


/// Relies on `Keypair::new` and `Keypair::to_bytes` of the Solana SDK: a fresh
/// random keypair as its 32 secret bytes followed by the derived public key,
/// which `Keypair::try_from` accepts.
#[verifier::external_body]
fn fresh_keypair_bytes() -> (r: Vec<u8>)
    ensures
        r@.len() == KEYPAIR_LEN,
        keypair_bytes_ok(r@),
{
    solana_sdk::signature::Keypair::new().to_bytes().to_vec()
}

/// Relies on `Keypair::new_from_array` and `Keypair::to_bytes` of the Solana
/// SDK: the seed followed by the public key derived from it, which
/// `Keypair::try_from` accepts.
#[verifier::external_body]
fn seeded_keypair_bytes(seed: &[u8; 32]) -> (r: Vec<u8>)
    ensures
        r@.len() == KEYPAIR_LEN,
        r@.subrange(0, 32) == seed@,
        keypair_bytes_ok(r@),
{
    solana_sdk::signature::Keypair::new_from_array(*seed).to_bytes().to_vec()
}

/// Relies on `Keypair::try_from(&[u8])` of the Solana SDK, used on exactly 64
/// bytes.
#[verifier::external_body]
fn keypair_bytes_valid(b: &[u8]) -> (r: bool)
    requires
        b@.len() == KEYPAIR_LEN,
    ensures
        r == keypair_bytes_ok(b@),
{
    solana_sdk::signature::Keypair::try_from(b).is_ok()
}

/// Relies on `Signer::sign_message` of the Solana SDK's `Keypair` (rebuilt from
/// bytes that `Keypair::try_from` accepts): a 64-byte Ed25519 signature, which
/// the key bytes and the message determine.
#[verifier::external_body]
fn ed25519_sign(kp: &[u8], msg: &[u8]) -> (r: Vec<u8>)
    requires
        kp@.len() == KEYPAIR_LEN,
        keypair_bytes_ok(kp@),
    ensures
        r@ == ed25519_sign_of(kp@, msg@),
        r@.len() == SIGNATURE_LEN,
{
    let pair = solana_sdk::signature::Keypair::try_from(kp).unwrap();
    solana_sdk::signer::Signer::sign_message(&pair, msg).as_ref().to_vec()
}

/// Relies on `Signature::verify` of the Solana SDK (strict Ed25519
/// verification; an invalid public key gives `false`).
#[verifier::external_body]
fn ed25519_verify(pk: &[u8], msg: &[u8], sig: &[u8]) -> (r: bool)
    requires
        sig@.len() == SIGNATURE_LEN,
    ensures
        r == ed25519_verify_of(pk@, msg@, sig@),
{
    let sig_bytes: [u8; 64] = sig.try_into().unwrap();
    solana_sdk::signature::Signature::from(sig_bytes).verify(pk, msg)
}

/// An Ed25519 keypair: 64 bytes, the secret seed then its public key, that
/// form a consistent pair.
pub struct Keypair {
    bytes: Vec<u8>,
}

impl View for Keypair {
    type V = Seq<u8>;

    closed spec fn view(&self) -> Seq<u8> {
        self.bytes@
    }
}

impl Keypair {
    #[verifier::type_invariant]
    spec fn inv(self) -> bool {
        self.bytes@.len() == KEYPAIR_LEN && keypair_bytes_ok(self.bytes@)
    }

    /// A fresh keypair drawn from the operating system's secure random source.
    pub fn generate() -> (r: Keypair)
        ensures
            r@.len() == KEYPAIR_LEN,
            keypair_bytes_ok(r@),
    {
        Keypair { bytes: fresh_keypair_bytes() }
    }

    /// The keypair whose secret is `seed`, for callers that draw the
    /// randomness themselves.
    pub fn from_seed(seed: &[u8; 32]) -> (r: Keypair)
        ensures
            r@.len() == KEYPAIR_LEN,
            r@.subrange(0, 32) == seed@,
            keypair_bytes_ok(r@),
    {
        Keypair { bytes: seeded_keypair_bytes(seed) }
    }

    /// Takes decoded bytes as a keypair: exactly 64 of them, forming a
    /// consistent pair.
    pub fn from_bytes(b: &[u8]) -> (r: Result<Keypair, WalletError>)
        ensures
            result_matches(r, keypair_from_decoded(b@)),
    {
        if b.len() != KEYPAIR_LEN {
            Err(WalletError::InvalidKeyLength)
        } else if !keypair_bytes_valid(b) {
            Err(WalletError::InvalidKeyMaterial)
        } else {
            Ok(Keypair { bytes: copy_bytes(b) })
        }
    }

    /// The public half of the keypair.
    pub fn public_key(&self) -> (r: PublicKey)
        ensures
            r@ == public_of(self@),
    {
        proof {
            use_type_invariant(self);
        }
        let mut out: Vec<u8> = Vec::with_capacity(PUBLIC_KEY_LEN);
        let mut i: usize = PUBLIC_KEY_LEN;
        while i < KEYPAIR_LEN
            invariant
                PUBLIC_KEY_LEN <= i <= KEYPAIR_LEN,
                self.bytes@.len() == KEYPAIR_LEN,
                out@ == self.bytes@.subrange(PUBLIC_KEY_LEN as int, i as int),
            decreases KEYPAIR_LEN - i,
        {
            out.push(self.bytes[i]);
            i = i + 1;
        }
        PublicKey { bytes: out }
    }

    /// The 64 raw bytes of the keypair.
    pub fn as_bytes(&self) -> (r: &[u8])
        ensures
            r@ == self@,
            r@.len() == KEYPAIR_LEN,
            keypair_bytes_ok(r@),
    {
        proof {
            use_type_invariant(self);
        }
        self.bytes.as_slice()
    }

    /// The base58 text of the 64 keypair bytes; parsing it gives the keypair
    /// back.
    pub fn to_text(&self) -> (r: String)
        ensures
            r@ == b58_encode_of(self@),
            parse_secret_spec(r@) == Ok::<Seq<u8>, WalletError>(self@),
    {
        proof {
            use_type_invariant(self);
        }
        b58_encode(self.bytes.as_slice())
    }

    /// Signs the raw bytes of `message`.
    pub fn sign(&self, message: &[u8]) -> (r: Signature)
        ensures
            r@ == ed25519_sign_of(self@, message@),
    {
        proof {
            use_type_invariant(self);
        }
        Signature { bytes: ed25519_sign(self.bytes.as_slice(), message) }
    }
}

/// Parses a base58 keypair (the 64 bytes of secret seed and public key).
pub fn parse_secret(text: &str) -> (r: Result<Keypair, WalletError>)
    ensures
        result_matches(r, parse_secret_spec(text@)),
{
    match b58_decode(text) {
        None => Err(WalletError::InvalidEncoding),
        Some(b) => Keypair::from_bytes(b.as_slice()),
    }
}

/// An Ed25519 signature: exactly 64 bytes.
pub struct Signature {
    bytes: Vec<u8>,
}

impl View for Signature {
    type V = Seq<u8>;

    closed spec fn view(&self) -> Seq<u8> {
        self.bytes@
    }
}

impl Signature {
    #[verifier::type_invariant]
    spec fn inv(self) -> bool {
        self.bytes@.len() == SIGNATURE_LEN
    }

    /// Takes decoded bytes as a signature, if there are exactly 64 of them.
    pub fn from_bytes(b: &[u8]) -> (r: Result<Signature, WalletError>)
        ensures
            result_matches(r, signature_from_decoded(b@)),
    {
        if b.len() != SIGNATURE_LEN {
            Err(WalletError::InvalidKeyLength)
        } else {
            Ok(Signature { bytes: copy_bytes(b) })
        }
    }

    /// The raw bytes of the signature.
    pub fn as_bytes(&self) -> (r: &[u8])
        ensures
            r@ == self@,
            r@.len() == SIGNATURE_LEN,
    {
        proof {
            use_type_invariant(self);
        }
        self.bytes.as_slice()
    }

    /// The base64 text of the signature; parsing it gives the signature back.
    pub fn to_text(&self) -> (r: String)
        ensures
            r@ == b64_encode_of(self@),
            parse_signature_spec(r@) == Ok::<Seq<u8>, WalletError>(self@),
    {
        proof {
            use_type_invariant(self);
        }
        b64_encode(self.bytes.as_slice())
    }
}

/// Parses a base64 signature.
pub fn parse_signature(text: &str) -> (r: Result<Signature, WalletError>)
    ensures
        result_matches(r, parse_signature_spec(text@)),
{
    match b64_decode(text) {
        None => Err(WalletError::InvalidEncoding),
        Some(b) => Signature::from_bytes(b.as_slice()),
    }
}

/// Whether `signature` is a valid Ed25519 signature of the raw bytes of
/// `message` under `public_key`.
pub fn verify(message: &[u8], signature: &Signature, public_key: &PublicKey) -> (r: bool)
    ensures
        r == ed25519_verify_of(public_key@, message@, signature@),
{
    proof {
        use_type_invariant(signature);
    }
    ed25519_verify(public_key.bytes.as_slice(), message, signature.bytes.as_slice())
}

} // verus!
