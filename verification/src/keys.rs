//! Account keys as 32 bytes, the admin key the program is configured with,
//! and the admin check.

use vstd::prelude::*;
use anchor_lang::prelude::Pubkey;
use std::str::FromStr;

use crate::error::CustomError;

verus! {

/// The admin's key, in base 58.
pub const ADMIN: &'static str = "";

/// The key that `Pubkey::from_str` parses out of a base-58 text, if any.
pub uninterp spec fn pubkey_from_base58(text: Seq<char>) -> Option<[u8; 32]>;

/// Parses a public key with `Pubkey::from_str` (solana-pubkey) and hands back
/// its 32 bytes. The contract names the result, and states what the source
/// shows of two kinds of text: one longer than 44 bytes is refused before it
/// is decoded, and the empty text is refused by the decoder because it has
/// fewer leading `1`s than the decoded key has leading zero bytes.
#[verifier::external_body]
fn parse_pubkey(text: &str) -> (key: Option<[u8; 32]>)
    ensures
        key == pubkey_from_base58(text@),
        text@.len() == 0 || text@.len() > 44 ==> key is None,
{
    match Pubkey::from_str(text) {
        Ok(k) => Some(k.to_bytes()),
        Err(_) => None,
    }
}

/// The admin key parsed out of `ADMIN`; with the empty `ADMIN` there is none.
pub fn admin_key() -> (key: Option<[u8; 32]>)
    ensures
        key == pubkey_from_base58(ADMIN@),
        key is None,
{
    proof {
        reveal_strlit("");
    }
    parse_pubkey(ADMIN)
}

/// Whether two keys are the same 32 bytes.
pub fn keys_equal(a: &[u8; 32], b: &[u8; 32]) -> (eq: bool)
    ensures
        eq == (a@ == b@),
{
    let mut i: usize = 0;
    while i < 32
        invariant
            0 <= i <= 32,
            a@.len() == 32,
            b@.len() == 32,
            forall|j: int| 0 <= j < i ==> a@[j] == b@[j],
        decreases 32 - i,
    {
        if a[i] != b[i] {
            return false;
        }
        i += 1;
    }
    assert(a@ =~= b@);
    true
}

/// Lets only the admin through: `InvalidSigner` for any other signer.
pub fn check_admin(admin: &[u8; 32], signer: &[u8; 32]) -> (r: Result<(), CustomError>)
    ensures
        r == if admin@ == signer@ {
            Ok::<(), CustomError>(())
        } else {
            Err(CustomError::InvalidSigner)
        },
{
    if !keys_equal(admin, signer) {
        return Err(CustomError::InvalidSigner);
    }
    Ok(())
}

} // verus!
