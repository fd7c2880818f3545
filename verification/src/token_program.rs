//! Which programs a token cross-program invocation may target.

use vstd::prelude::*;

verus! {

/// Errors raised by the token-program checks.
#[derive(Debug, Clone, Copy, PartialEq, Eq, Structural)]
pub enum LendingError {
    /// The account handed in as the token program is neither SPL Token nor
    /// Token-2022 (or, where only SPL Token will do, is not SPL Token).
    InvalidTokenProgram,
}

/// The 32 bytes of the SPL Token program address
/// `TokenkegQfeZyiNwAJbNbGKPFXCWuBvf9Ss623VQ5DA`.
pub open spec fn spl_token_key() -> Seq<u8> {
    seq![
        6u8, 221u8, 246u8, 225u8, 215u8, 101u8, 161u8, 147u8,
        217u8, 203u8, 225u8, 70u8, 206u8, 235u8, 121u8, 172u8,
        28u8, 180u8, 133u8, 237u8, 95u8, 91u8, 55u8, 145u8,
        58u8, 140u8, 245u8, 133u8, 126u8, 255u8, 0u8, 169u8,
    ]
}

/// The 32 bytes of the Token-2022 program address
/// `TokenzQdBNbLqP5VEhdkAS6EPFLC1PHnBqCXEpPxuEb`.
pub open spec fn token_2022_key() -> Seq<u8> {
    seq![
        6u8, 221u8, 246u8, 225u8, 238u8, 117u8, 143u8, 222u8,
        24u8, 66u8, 93u8, 188u8, 228u8, 108u8, 205u8, 218u8,
        182u8, 26u8, 252u8, 77u8, 131u8, 185u8, 13u8, 39u8,
        254u8, 189u8, 249u8, 40u8, 216u8, 161u8, 139u8, 252u8,
    ]
}

/// A program that token transfers may be sent to: SPL Token or Token-2022.
pub open spec fn is_token_program(key: Seq<u8>) -> bool {
    key == spl_token_key() || key == token_2022_key()
}

/// The SPL Token program itself, the only one that mints and burns here.
pub open spec fn is_spl_token_program(key: Seq<u8>) -> bool {
    key == spl_token_key()
}

/// The result of a check that accepts exactly when `accepted` holds.
pub open spec fn check_result(accepted: bool) -> Result<(), LendingError> {
    if accepted {
        Ok(())
    } else {
        Err(LendingError::InvalidTokenProgram)
    }
}

/// `spl_token::ID`, the SPL Token program address, as its 32 bytes
/// (`Pubkey::to_bytes`). Claimed: the bytes are those of `spl_token_key`,
/// the base58 address that `declare_id!` gives in the spl-token source.
#[verifier::external_body]
fn spl_token_program_id() -> (id: [u8; 32])
    ensures
        id@ == spl_token_key(),
{
    spl_token::ID.to_bytes()
}

/// `spl_token_2022::ID`, the Token-2022 program address, as its 32 bytes
/// (`Pubkey::to_bytes`). Claimed: the bytes are those of `token_2022_key`,
/// the base58 address that `declare_id!` gives in the spl-token-2022 source.
#[verifier::external_body]
fn spl_token_2022_program_id() -> (id: [u8; 32])
    ensures
        id@ == token_2022_key(),
{
    spl_token_2022::ID.to_bytes()
}

/// Byte-wise comparison of two program addresses.
fn same_key(a: &[u8; 32], b: &[u8; 32]) -> (r: bool)
    ensures
        r == (a@ == b@),
{
    let mut i: usize = 0;
    while i < 32
        invariant
            0 <= i <= 32,
            a@.len() == 32,
            b@.len() == 32,
            forall|j: int| 0 <= j < i ==> a@[j] == b@[j],
        decreases 32 - i,
    {
        if a[i] != b[i] {
            assert(a@[i as int] != b@[i as int]);
            return false;
        }
        i += 1;
    }
    assert(a@ =~= b@);
    true
}

/// Accepts the SPL Token and the Token-2022 program and nothing else.
pub fn validate_token_program(token_program: &[u8; 32]) -> (r: Result<(), LendingError>)
    ensures
        r == check_result(is_token_program(token_program@)),
        r is Ok <==> (token_program@ == spl_token_key() || token_program@ == token_2022_key()),
        r is Err ==> r == Err::<(), LendingError>(LendingError::InvalidTokenProgram),
{
    let spl = spl_token_program_id();
    let t22 = spl_token_2022_program_id();
    if !same_key(token_program, &spl) && !same_key(token_program, &t22) {
        return Err(LendingError::InvalidTokenProgram);
    }
    Ok(())
}

/// Accepts the SPL Token program and nothing else (minting and burning).
pub(crate) fn validate_spl_token_program(token_program: &[u8; 32]) -> (r: Result<(), LendingError>)
    ensures
        r == check_result(is_spl_token_program(token_program@)),
        r is Ok <==> token_program@ == spl_token_key(),
        r is Err ==> r == Err::<(), LendingError>(LendingError::InvalidTokenProgram),
{
    let spl = spl_token_program_id();
    if !same_key(token_program, &spl) {
        return Err(LendingError::InvalidTokenProgram);
    }
    Ok(())
}

/// Every program accepted for minting and burning is accepted for transfers.
pub proof fn lemma_spl_token_passes_validation(key: Seq<u8>)
    ensures
        is_spl_token_program(key) ==> is_token_program(key),
{
}

/// The programs accepted for transfers but refused for minting and burning are
/// exactly Token-2022.
pub proof fn lemma_only_token_2022_is_transfer_only(key: Seq<u8>)
    ensures
        (is_token_program(key) && !is_spl_token_program(key)) <==> key == token_2022_key(),
{
    assert(spl_token_key()[4] != token_2022_key()[4]);
}

} // verus!
