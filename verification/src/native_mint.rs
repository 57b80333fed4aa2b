use vstd::prelude::*;

use crate::pubkey::Pubkey;

verus! {

#[verifier::external_type_specification]
#[verifier::external_body]
pub struct ExDecodeError(bs58::decode::Error);

/// The bytes that Base58 (Bitcoin alphabet) decoding gives for `text`, or
/// `None` when `text` is not valid Base58.
pub uninterp spec fn base58_decoding(text: Seq<char>) -> Option<Seq<u8>>;

/// Decodes Base58 text.
///
/// Trusted: calls `bs58::decode(text).into_vec()`, a function of the text
/// alone; the contract only ties its result to `base58_decoding`.
#[verifier::external_body]
fn decode_base58(text: &str) -> (decoded: Result<Vec<u8>, bs58::decode::Error>)
    ensures
        decoded is Ok <==> base58_decoding(text@) is Some,
        decoded matches Ok(bytes) ==> base58_decoding(text@) == Some(bytes@),
{
    bs58::decode(text).into_vec()
}

/// The Base58 text of the wrapped-SOL (native) mint address.
pub open spec fn native_mint_text() -> Seq<char> {
    "So11111111111111111111111111111111111111112"@
}

/// The native mint address that the decoded text denotes, when it decodes to
/// exactly 32 bytes.
pub open spec fn spec_native_mint() -> Option<Seq<u8>> {
    match base58_decoding(native_mint_text()) {
        Some(bytes) => if bytes.len() == 32 { Some(bytes) } else { None },
        None => None,
    }
}

/// The address of the native mint, decoded from its Base58 text.
pub fn native_mint() -> (mint: Option<Pubkey>)
    ensures
        mint is Some <==> spec_native_mint() is Some,
        mint matches Some(k) ==> spec_native_mint() == Some(k@),
{
    let text = "So11111111111111111111111111111111111111112";
    match decode_base58(text) {
        Ok(bytes) => Pubkey::from_slice(bytes.as_slice()),
        Err(_) => None,
    }
}

} // verus!
