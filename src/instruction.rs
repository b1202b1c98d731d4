//! The token program's "initialize mint (v2)" instruction.
use crate::keys::{PublicKey, WalletError, parse_public, parse_public_spec, PUBLIC_KEY_LEN};
use vstd::prelude::*;

verus! {

/// The instruction tag of "initialize mint (v2)" in the token program.
pub const INITIALIZE_MINT2_TAG: u8 = 20;

/// The 32 bytes of the token program's address,
/// `TokenkegQfeZyiNwAJbNbGKPFXCWuBvf9Ss623VQ5DA`.
pub open spec fn token_program_id() -> Seq<u8> {
    seq![
        6u8, 221, 246, 225, 215, 101, 161, 147, 217, 203, 225, 70, 206, 235, 121, 172, 28, 180,
        133, 237, 95, 91, 55, 145, 58, 140, 245, 133, 126, 255, 0, 169,
    ]
}

/// The data of an "initialize mint (v2)" instruction whose freeze authority
/// is the mint authority: tag, decimals, mint authority, then the present-flag
/// and the freeze authority.
pub open spec fn initialize_mint2_data(authority: Seq<u8>, decimals: u8) -> Seq<u8> {
    seq![INITIALIZE_MINT2_TAG, decimals] + authority + seq![1u8] + authority
}

/// One account slot of an instruction.
pub struct AccountMeta {
    pub pubkey: PublicKey,
    pub is_signer: bool,
    pub is_writable: bool,
}

impl View for AccountMeta {
    type V = (Seq<u8>, bool, bool);

    open spec fn view(&self) -> (Seq<u8>, bool, bool) {
        (self.pubkey@, self.is_signer, self.is_writable)
    }
}

/// A program-specific request: target program, ordered accounts, opaque data.
pub struct Instruction {
    pub program_id: PublicKey,
    pub accounts: Vec<AccountMeta>,
    pub data: Vec<u8>,
}

/// The value of an instruction: program address, account slots, data.
pub struct InstructionView {
    pub program_id: Seq<u8>,
    pub accounts: Seq<(Seq<u8>, bool, bool)>,
    pub data: Seq<u8>,
}

impl View for Instruction {
    type V = InstructionView;

    open spec fn view(&self) -> InstructionView {
        InstructionView {
            program_id: self.program_id@,
            accounts: self.accounts@.map_values(|a: AccountMeta| a@),
            data: self.data@,
        }
    }
}

/// The "initialize mint (v2)" instruction for `mint`, with `authority` as
/// both mint and freeze authority: the mint is its one account, writable and
/// not a signer.
pub open spec fn initialize_mint_spec(mint: Seq<u8>, authority: Seq<u8>, decimals: u8) -> InstructionView {
    InstructionView {
        program_id: token_program_id(),
        accounts: seq![(mint, false, true)],
        data: initialize_mint2_data(authority, decimals),
    }
}

/// The instruction depends on its inputs alone: two builds from the same
/// mint, authority and decimals carry the same 67 data bytes and the same
/// accounts in the same order.
pub proof fn lemma_initialize_mint_deterministic(
    mint: Seq<u8>,
    authority: Seq<u8>,
    decimals: u8,
    first: InstructionView,
    second: InstructionView,
)
    requires
        mint.len() == PUBLIC_KEY_LEN,
        authority.len() == PUBLIC_KEY_LEN,
        first == initialize_mint_spec(mint, authority, decimals),
        second == initialize_mint_spec(mint, authority, decimals),
    ensures
        first.data == second.data,
        first.data.len() == 67,
        first.accounts == second.accounts,
        first.program_id == second.program_id,
{
}

/// Relies on `spl_token::instruction::initialize_mint2`, called with the
/// token program's own id (so it returns `Ok`) and the mint authority as
/// freeze authority; the parts of the instruction are handed back as bytes.
#[verifier::external_body]
fn spl_initialize_mint2(mint: &[u8], authority: &[u8], decimals: u8) -> (r: (
    Vec<u8>,
    Vec<(Vec<u8>, bool, bool)>,
    Vec<u8>,
))
    requires
        mint@.len() == PUBLIC_KEY_LEN,
        authority@.len() == PUBLIC_KEY_LEN,
    ensures
        r.0@ == token_program_id(),
        r.1@.len() == 1,
        r.1@[0].0@ == mint@,
        !r.1@[0].1,
        r.1@[0].2,
        r.2@ == initialize_mint2_data(authority@, decimals),
{
    let m = solana_sdk::pubkey::Pubkey::try_from(mint).unwrap();
    let a = solana_sdk::pubkey::Pubkey::try_from(authority).unwrap();
    let ix = spl_token::instruction::initialize_mint2(&spl_token::ID, &m, &a, Some(&a), decimals)
        .unwrap();
    let accounts = ix.accounts.iter().map(|x| (x.pubkey.to_bytes().to_vec(), x.is_signer, x.is_writable))
        .collect();
    (ix.program_id.to_bytes().to_vec(), accounts, ix.data)
}

/// Builds the "initialize mint (v2)" instruction for `mint`, with
/// `mint_authority` as both mint and freeze authority.
pub fn build_initialize_mint(mint: &PublicKey, mint_authority: &PublicKey, decimals: u8) -> (r: Instruction)
    ensures
        r@ == initialize_mint_spec(mint@, mint_authority@, decimals),
        r@.data.len() == 67,
{
    let (program, metas, data) = spl_initialize_mint2(mint.as_bytes(), mint_authority.as_bytes(), decimals);
    let program_id = PublicKey::from_bytes(program.as_slice()).unwrap();
    let (key, is_signer, is_writable) = &metas[0];
    let account_key = PublicKey::from_bytes(key.as_slice()).unwrap();
    let mut accounts: Vec<AccountMeta> = Vec::new();
    accounts.push(AccountMeta { pubkey: account_key, is_signer: *is_signer, is_writable: *is_writable });
    let r = Instruction { program_id, accounts, data };
    assert(r@.accounts =~= seq![(mint@, false, true)]);
    r
}

/// Builds the "initialize mint (v2)" instruction from base58 addresses;
/// either address failing to parse as a public key gives `InvalidAddress`.
pub fn initialize_mint_from_text(mint: &str, mint_authority: &str, decimals: u8) -> (r: Result<Instruction, WalletError>)
    ensures
        match r {
            Ok(ix) => parse_public_spec(mint@) is Ok && parse_public_spec(mint_authority@) is Ok
                && ix@ == initialize_mint_spec(
                    parse_public_spec(mint@)->Ok_0,
                    parse_public_spec(mint_authority@)->Ok_0,
                    decimals,
                ),
            Err(e) => e == WalletError::InvalidAddress && (parse_public_spec(mint@) is Err
                || parse_public_spec(mint_authority@) is Err),
        },
{
    let authority = match parse_public(mint_authority) {
        Ok(k) => k,
        Err(_) => return Err(WalletError::InvalidAddress),
    };
    let mint_key = match parse_public(mint) {
        Ok(k) => k,
        Err(_) => return Err(WalletError::InvalidAddress),
    };
    Ok(build_initialize_mint(&mint_key, &authority, decimals))
}

} // verus!
