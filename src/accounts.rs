use vstd::prelude::*;

verus! {

/// The 32-byte address of an account.
#[derive(Clone, Copy, Debug, PartialEq, Eq)]
pub struct AccountKey {
    pub bytes: [u8; 32],
}

/// The six accounts that describe one target pool, in the order in which
/// they appear in the flat list.
#[derive(Clone, Copy, Debug, PartialEq, Eq)]
pub struct PoolGroup {
    pub pool_state: AccountKey,
    pub output_token_account: AccountKey,
    pub input_vault: AccountKey,
    pub output_vault: AccountKey,
    pub output_token_mint: AccountKey,
    pub observation_state: AccountKey,
}

/// The fixed-role accounts of a request.
#[derive(Clone, Copy, Debug, PartialEq, Eq)]
pub struct MultiBuy {
    /// The swap program that every pool belongs to.
    pub cp_swap_program: AccountKey,
    /// The user paying for the batch.
    pub payer: AccountKey,
    /// The account that receives the protocol fee.
    pub fee_wallet1: AccountKey,
    /// The pool vault and LP mint authority of the swap program.
    pub authority: AccountKey,
    pub amm_config: AccountKey,
    /// The wrapped-native staging account used as the input of every swap.
    pub wsol_account: AccountKey,
    pub token_program: AccountKey,
    /// The mint of the wrapped native token.
    pub wsol_mint: AccountKey,
    pub system_program: AccountKey,
}

/// The 32 bytes that a base58 address text decodes to, if it is a valid key.
pub uninterp spec fn base58_pubkey(s: Seq<char>) -> Option<Seq<u8>>;

/// Relies on `Pubkey::from_str` (solana-program, re-exported by anchor-lang):
/// the result depends on the text alone, and a valid key is 32 bytes.
#[verifier::external_body]
fn parse_pubkey(s: &str) -> (r: Option<[u8; 32]>)
    ensures
        r is Some <==> base58_pubkey(s@) is Some,
        r is Some ==> r->0@ == base58_pubkey(s@)->0,
{
    match <anchor_lang::prelude::Pubkey as core::str::FromStr>::from_str(s) {
        Ok(k) => Some(k.to_bytes()),
        Err(_) => None,
    }
}

/// Whether two keys are the same address.
pub fn same_key(a: &AccountKey, b: &AccountKey) -> (r: bool)
    ensures
        r == (a.bytes@ == b.bytes@),
{
    let mut i: usize = 0;
    while i < 32
        invariant
            i <= 32,
            forall|j: int| 0 <= j < i ==> a.bytes@[j] == b.bytes@[j],
        decreases 32 - i,
    {
        if a.bytes[i] != b.bytes[i] {
            return false;
        }
        i = i + 1;
    }
    assert(a.bytes@ =~= b.bytes@);
    true
}

/// Whether `fee_wallet` is the address that the text `configured` names.
pub open spec fn fee_wallet_matches(fee_wallet: AccountKey, configured: Seq<char>) -> bool {
    base58_pubkey(configured) == Some(fee_wallet.bytes@)
}

/// Accepts the fee wallet only when it is the configured address.
pub fn check_fee_wallet(fee_wallet: &AccountKey, configured: &str) -> (r: Result<
    (),
    crate::error::CustomError,
>)
    ensures
        r is Ok <==> fee_wallet_matches(*fee_wallet, configured@),
        r is Err ==> r == Err::<(), _>(crate::error::CustomError::FeeWalletMismatch),
{
    match parse_pubkey(configured) {
        Some(bytes) => {
            let expected = AccountKey { bytes };
            if same_key(fee_wallet, &expected) {
                Ok(())
            } else {
                Err(crate::error::CustomError::FeeWalletMismatch)
            }
        },
        None => Err(crate::error::CustomError::FeeWalletMismatch),
    }
}

} // verus!
