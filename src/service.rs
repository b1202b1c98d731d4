//! The wallet operations as request and response values: keypair generation,
//! message signing and verification, and mint-initialization instructions.
use crate::codec::{b58_encode, b58_encode_of, b64_encode, b64_encode_of};
use crate::instruction::{initialize_mint_from_text, initialize_mint_spec, Instruction, InstructionView};
use crate::keys::{
    ed25519_sign_of, ed25519_verify_of, parse_public, parse_public_spec, parse_secret,
    parse_secret_spec, parse_signature, parse_signature_spec, public_of, verify, keypair_bytes_ok, Keypair,
    WalletError,
};
use vstd::prelude::*;
use vstd::utf8::encode_utf8;

verus! {

/// A successful reply: `success` is set and `data` carries the result.
pub struct SuccessResponse<T> {
    pub success: bool,
    pub data: T,
}

/// A failed reply: `success` is clear and `error` says why.
pub struct ErrorResponse<T> {
    pub success: bool,
    pub error: T,
}

/// A fresh keypair as text.
pub struct KeypairResponse {
    /// base58 public key
    pub pubkey: String,
    /// base58 of the 64 keypair bytes
    pub secret: String,
}

/// Asks for a mint-initialization instruction.
pub struct CreateTokenRequest {
    pub mint_authority: String,
    pub mint: String,
    pub decimals: u8,
}

/// One account slot of an instruction, as text.
pub struct AccountMetaInfo {
    pub pubkey: String,
    pub is_signer: bool,
    pub is_writable: bool,
}

/// A mint-initialization instruction as text.
pub struct CreateTokenResponse {
    /// base58 program address
    pub program_id: String,
    /// base64 instruction data
    pub instruction_data: String,
    pub accounts: Vec<AccountMetaInfo>,
}

/// Asks to sign `message` with the base58 keypair `secret`.
pub struct SignMessageRequest {
    pub message: String,
    pub secret: String,
}

/// A signature (base64) with the signer's public key (base58).
pub struct SignMessageResponse {
    pub signature: String,
    pub public_key: String,
    pub message: String,
}

/// Asks whether the base64 `signature` of `message` is valid under the
/// base58 `pubkey`.
pub struct VerifyMessageRequest {
    pub message: String,
    pub signature: String,
    pub pubkey: String,
}

/// The outcome of a verification.
pub struct VerifyMessageResponse {
    pub valid: bool,
    pub message: String,
    pub pubkey: String,
}

/// `resp` is the text form of keypair `kp`.
pub open spec fn keypair_text_matches(resp: KeypairResponse, kp: Seq<u8>) -> bool {
    &&& resp.pubkey@ == b58_encode_of(public_of(kp))
    &&& resp.secret@ == b58_encode_of(kp)
}

/// `resp` is the text form of instruction `ix`.
pub open spec fn token_text_matches(resp: CreateTokenResponse, ix: InstructionView) -> bool {
    &&& resp.program_id@ == b58_encode_of(ix.program_id)
    &&& resp.instruction_data@ == b64_encode_of(ix.data)
    &&& resp.accounts@.len() == ix.accounts.len()
    &&& forall|i: int|
        0 <= i < ix.accounts.len() ==> {
            &&& (#[trigger] resp.accounts@[i]).pubkey@ == b58_encode_of(ix.accounts[i].0)
            &&& resp.accounts@[i].is_signer == ix.accounts[i].1
            &&& resp.accounts@[i].is_writable == ix.accounts[i].2
        }
}

/// What signing `message` with the base58 keypair `secret` yields: the
/// signature and the public key, as bytes.
pub open spec fn sign_message_spec(message: Seq<char>, secret: Seq<char>) -> Result<
    (Seq<u8>, Seq<u8>),
    WalletError,
> {
    match parse_secret_spec(secret) {
        Err(e) => Err(e),
        Ok(kp) => Ok((ed25519_sign_of(kp, encode_utf8(message)), public_of(kp))),
    }
}

/// What verifying a request yields: the public key is parsed first, then the
/// signature; a well-formed pair gives the verification verdict.
pub open spec fn verify_message_spec(message: Seq<char>, signature: Seq<char>, pubkey: Seq<char>) -> Result<
    bool,
    WalletError,
> {
    match parse_public_spec(pubkey) {
        Err(e) => Err(e),
        Ok(pk) => match parse_signature_spec(signature) {
            Err(e) => Err(e),
            Ok(sig) => Ok(ed25519_verify_of(pk, encode_utf8(message), sig)),
        },
    }
}

/// The text form of a keypair; parsing its two texts gives back the public
/// key and the keypair.
pub fn keypair_response(kp: &Keypair) -> (r: KeypairResponse)
    ensures
        keypair_text_matches(r, kp@),
        parse_public_spec(r.pubkey@) == Ok::<Seq<u8>, WalletError>(public_of(kp@)),
        parse_secret_spec(r.secret@) == Ok::<Seq<u8>, WalletError>(kp@),
{
    KeypairResponse { pubkey: kp.public_key().to_text(), secret: kp.to_text() }
}

/// Generates a fresh keypair and returns it as text.
pub fn generate_keypair() -> (r: SuccessResponse<KeypairResponse>)
    ensures
        r.success,
        exists|kp: Seq<u8>|
            {
                &&& kp.len() == 64
                &&& keypair_bytes_ok(kp)
                &&& keypair_text_matches(r.data, kp)
                &&& parse_public_spec(r.data.pubkey@) == Ok::<Seq<u8>, WalletError>(public_of(kp))
                &&& parse_secret_spec(r.data.secret@) == Ok::<Seq<u8>, WalletError>(kp)
            },
{
    let kp = Keypair::generate();
    SuccessResponse { success: true, data: keypair_response(&kp) }
}

/// The text form of an instruction.
pub fn token_response(ix: &Instruction) -> (r: CreateTokenResponse)
    ensures
        token_text_matches(r, ix@),
{
    let mut accounts: Vec<AccountMetaInfo> = Vec::new();
    let mut i: usize = 0;
    while i < ix.accounts.len()
        invariant
            i <= ix.accounts@.len(),
            accounts@.len() == i,
            forall|j: int|
                0 <= j < i ==> {
                    &&& (#[trigger] accounts@[j]).pubkey@ == b58_encode_of(ix.accounts@[j].pubkey@)
                    &&& accounts@[j].is_signer == ix.accounts@[j].is_signer
                    &&& accounts@[j].is_writable == ix.accounts@[j].is_writable
                },
        decreases ix.accounts@.len() - i,
    {
        let meta = &ix.accounts[i];
        accounts.push(
            AccountMetaInfo {
                pubkey: meta.pubkey.to_text(),
                is_signer: meta.is_signer,
                is_writable: meta.is_writable,
            },
        );
        i = i + 1;
    }
    CreateTokenResponse {
        program_id: ix.program_id.to_text(),
        instruction_data: b64_encode(ix.data.as_slice()),
        accounts,
    }
}

/// Builds the mint-initialization instruction that `req` asks for, with the
/// mint authority also as freeze authority.
pub fn create_token(req: &CreateTokenRequest) -> (r: Result<
    SuccessResponse<CreateTokenResponse>,
    ErrorResponse<WalletError>,
>)
    ensures
        match r {
            Ok(resp) => resp.success && parse_public_spec(req.mint@) is Ok && parse_public_spec(
                req.mint_authority@,
            ) is Ok && token_text_matches(
                resp.data,
                initialize_mint_spec(
                    parse_public_spec(req.mint@)->Ok_0,
                    parse_public_spec(req.mint_authority@)->Ok_0,
                    req.decimals,
                ),
            ),
            Err(e) => !e.success && e.error == WalletError::InvalidAddress && (parse_public_spec(
                req.mint@,
            ) is Err || parse_public_spec(req.mint_authority@) is Err),
        },
{
    match initialize_mint_from_text(req.mint.as_str(), req.mint_authority.as_str(), req.decimals) {
        Ok(ix) => Ok(SuccessResponse { success: true, data: token_response(&ix) }),
        Err(e) => Err(ErrorResponse { success: false, error: e }),
    }
}

/// Signs the UTF-8 bytes of `req.message` with the keypair `req.secret`.
pub fn sign_message(req: &SignMessageRequest) -> (r: Result<
    SuccessResponse<SignMessageResponse>,
    ErrorResponse<WalletError>,
>)
    ensures
        match r {
            Ok(resp) => {
                &&& resp.success
                &&& sign_message_spec(req.message@, req.secret@) is Ok
                &&& resp.data.signature@ == b64_encode_of(
                    sign_message_spec(req.message@, req.secret@)->Ok_0.0,
                )
                &&& resp.data.public_key@ == b58_encode_of(
                    sign_message_spec(req.message@, req.secret@)->Ok_0.1,
                )
                &&& resp.data.message@ == req.message@
            },
            Err(e) => !e.success && sign_message_spec(req.message@, req.secret@) == Err::<
                (Seq<u8>, Seq<u8>),
                WalletError,
            >(e.error),
        },
{
    let kp = match parse_secret(req.secret.as_str()) {
        Ok(kp) => kp,
        Err(e) => return Err(ErrorResponse { success: false, error: e }),
    };
    let signature = kp.sign(req.message.as_str().as_bytes());
    let data = SignMessageResponse {
        signature: signature.to_text(),
        public_key: kp.public_key().to_text(),
        message: req.message.clone(),
    };
    Ok(SuccessResponse { success: true, data })
}

/// Verifies the base64 signature `req.signature` of the UTF-8 bytes of
/// `req.message` under the base58 public key `req.pubkey`.
pub fn verify_message(req: &VerifyMessageRequest) -> (r: Result<
    SuccessResponse<VerifyMessageResponse>,
    ErrorResponse<WalletError>,
>)
    ensures
        match r {
            Ok(resp) => {
                &&& resp.success
                &&& verify_message_spec(req.message@, req.signature@, req.pubkey@) == Ok::<
                    bool,
                    WalletError,
                >(resp.data.valid)
                &&& resp.data.message@ == req.message@
                &&& resp.data.pubkey@ == req.pubkey@
            },
            Err(e) => !e.success && verify_message_spec(req.message@, req.signature@, req.pubkey@)
                == Err::<bool, WalletError>(e.error),
        },
{
    let pk = match parse_public(req.pubkey.as_str()) {
        Ok(pk) => pk,
        Err(e) => return Err(ErrorResponse { success: false, error: e }),
    };
    let signature = match parse_signature(req.signature.as_str()) {
        Ok(s) => s,
        Err(e) => return Err(ErrorResponse { success: false, error: e }),
    };
    let valid = verify(req.message.as_str().as_bytes(), &signature, &pk);
    let data = VerifyMessageResponse {
        valid,
        message: req.message.clone(),
        pubkey: req.pubkey.clone(),
    };
    Ok(SuccessResponse { success: true, data })
}

} // verus!
