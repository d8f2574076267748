//! The nonce of an account, read from the chain's state.

use frame_system::AccountInfo;
use pallet_balances::AccountData;
use parity_scale_codec::Decode;
use vstd::prelude::*;

use crate::payload::AccountKey;

verus! {

/// The pallet whose state holds the accounts.
pub const SYSTEM: &'static str = "System";

/// The map from public keys to accounts within that pallet.
pub const ACCOUNT: &'static str = "Account";

/// The hash of a block.
pub type BlockHash = [u8; 32];

/// Where an account stands in the chain's state: under its public key, as of a block.
#[derive(Clone, Copy, Debug, PartialEq, Eq)]
pub struct AccountQuery {
    pub block: BlockHash,
    pub key: AccountKey,
}

impl AccountQuery {
    /// The pallet whose state is asked.
    pub fn pallet(&self) -> (name: &'static str)
        ensures
            name@ == "System"@,
    {
        SYSTEM
    }

    /// The map that is asked for the key.
    pub fn entry(&self) -> (name: &'static str)
        ensures
            name@ == "Account"@,
    {
        ACCOUNT
    }
}

/// The bytes of an encoded account: a nonce and three reference counts of four bytes each, then
/// four balances of sixteen bytes each.
pub const ACCOUNT_BYTES: usize = 80;

/// The number that the first four bytes of `bytes` hold, the lowest first.
pub open spec fn first_u32(bytes: Seq<u8>) -> int {
    bytes[0] + 0x100 * bytes[1] + 0x1_0000 * bytes[2] + 0x100_0000 * bytes[3]
}

/// The text of the error with which `bytes` are refused as an account.
pub uninterp spec fn account_error(bytes: Seq<u8>) -> Seq<char>;

/// The nonce of an encoded account, or the text of the error.
///
/// Calls `parity_scale_codec::Decode::decode` for `frame_system::AccountInfo` with a `u32` nonce
/// and the `AccountData` of `pallet_balances` over `u128`. Trusted: that all fields have a fixed
/// width, so that decoding succeeds if and only if there are `ACCOUNT_BYTES` bytes at least, that
/// the nonce stands first with its lowest byte first, that bytes past the account are left alone,
/// and that the error's text is a function of the bytes.
#[verifier::external_body]
fn decode_nonce(bytes: &[u8]) -> (nonce: Result<u32, String>)
    ensures
        nonce is Ok <==> bytes@.len() >= ACCOUNT_BYTES,
        nonce matches Ok(n) ==> n == first_u32(bytes@),
        nonce matches Err(text) ==> text@ == account_error(bytes@),
{
    match AccountInfo::<u32, AccountData<u128>>::decode(&mut &bytes[..]) {
        Ok(info) => Ok(info.nonce),
        Err(error) => Err(error.to_string()),
    }
}

/// What an attempt at decoding an account comes to: its nonce, or the text of the error.
pub fn nonce_of_decoded(decoded: Result<u32, String>) -> (nonce: Result<u64, String>)
    ensures
        nonce is Ok <==> decoded is Ok,
        nonce matches Ok(n) ==> n == decoded->Ok_0,
        nonce matches Err(text) ==> text@ == "Failed to decode account state: "@
            + decoded->Err_0@,
{
    match decoded {
        Ok(n) => Ok(n as u64),
        Err(text) => {
            let prefix = "Failed to decode account state: ".to_string();
            Err(prefix.concat(text.as_str()))
        },
    }
}

/// What an attempt at reading an account's nonce comes to, given what the chain stores for the
/// account: the stored nonce, or the text of an error if nothing is stored or it is not an account.
pub open spec fn is_nonce_of_state(stored: Option<&[u8]>, nonce: Result<u64, String>) -> bool {
    &&& nonce is Ok <==> (stored matches Some(bytes) && bytes@.len() >= ACCOUNT_BYTES)
    &&& nonce matches Ok(n) ==> n == first_u32(stored->0@)
    &&& nonce matches Err(text) ==> text@ == match stored {
        None => "Nonce is not set"@,
        Some(bytes) => "Failed to decode account state: "@ + account_error(bytes@),
    }
}

/// The nonce of an account, given what the chain stores for it.
pub fn nonce_of_state(stored: Option<&[u8]>) -> (nonce: Result<u64, String>)
    ensures
        is_nonce_of_state(stored, nonce),
{
    match stored {
        None => Err("Nonce is not set".to_string()),
        Some(bytes) => nonce_of_decoded(decode_nonce(bytes)),
    }
}

/// What an attempt at reading an account's nonce comes to, given what came of asking the chain.
pub open spec fn is_nonce_of_fetch(
    fetched: Result<Option<&[u8]>, String>,
    nonce: Result<u64, String>,
) -> bool {
    match fetched {
        Ok(stored) => is_nonce_of_state(stored, nonce),
        Err(error) => nonce == Err::<u64, String>(error),
    }
}

/// The nonce of an account, given what came of asking the chain for what it stores: the text of
/// the error if that failed.
pub fn nonce_of_fetch(fetched: Result<Option<&[u8]>, String>) -> (nonce: Result<u64, String>)
    ensures
        match fetched {
            Ok(stored) => is_nonce_of_state(stored, nonce),
            Err(error) => nonce == Err::<u64, String>(error),
        },
        is_nonce_of_fetch(fetched, nonce),
{
    match fetched {
        Ok(stored) => nonce_of_state(stored),
        Err(error) => Err(error),
    }
}

/// What is stored decides what comes of reading a nonce. Nothing stored and fewer than 80 bytes
/// are errors, each with its own text. Of 80 bytes or more the first four hold the nonce, its
/// lowest byte first, and the others do not matter.
pub proof fn law_stored_nonce_is_read(stored: Option<&[u8]>, nonce: Result<u64, String>)
    requires
        is_nonce_of_state(stored, nonce),
    ensures
        stored is None ==> nonce is Err && nonce->Err_0@ == "Nonce is not set"@,
        stored matches Some(bytes) ==> bytes@.len() < 80 ==> nonce is Err && nonce->Err_0@
            == "Failed to decode account state: "@ + account_error(bytes@),
        stored matches Some(bytes) ==> bytes@.len() >= 80 ==> {
            &&& nonce is Ok
            &&& nonce->Ok_0 <= u32::MAX
            &&& nonce->Ok_0 as int % 256 == bytes@[0]
            &&& nonce->Ok_0 as int / 256 % 256 == bytes@[1]
            &&& nonce->Ok_0 as int / 65_536 % 256 == bytes@[2]
            &&& nonce->Ok_0 as int / 16_777_216 == bytes@[3]
        },
{
}

/// A lookup that could not ask the chain fails with the very error of asking, and one that could
/// succeeds if and only if 80 bytes or more are stored.
pub proof fn law_fetched_nonce_is_read(
    fetched: Result<Option<&[u8]>, String>,
    nonce: Result<u64, String>,
)
    requires
        is_nonce_of_fetch(fetched, nonce),
    ensures
        fetched matches Err(error) ==> nonce is Err && nonce->Err_0 == error,
        nonce is Ok <==> fetched is Ok && fetched->Ok_0 is Some && fetched->Ok_0->0@.len() >= 80,
        nonce matches Ok(n) ==> n as int % 256 == fetched->Ok_0->0@[0] && n as int / 16_777_216
            == fetched->Ok_0->0@[3],
{
    if let Ok(stored) = fetched {
        law_stored_nonce_is_read(stored, nonce);
    }
}

} // verus!
