//! The 32-byte identities of blocks, transactions and addresses.

use bitcoin_hashes::hex::ToHex;
use bitcoin_hashes::sha256d;
use vstd::prelude::*;

verus! {

/// Identity of a block: a double SHA-256 digest.
#[derive(Clone, Copy, Debug, PartialEq, Eq, Hash)]
pub struct BlockId {
    pub bytes: [u8; 32],
}

/// Identity of a transaction: a double SHA-256 digest.
#[derive(Clone, Copy, Debug, PartialEq, Eq, Hash)]
pub struct TxId {
    pub bytes: [u8; 32],
}

/// Fingerprint of a script or address class: a single SHA-256 digest. The
/// facade never computes one; it only forwards what the caller supplies.
#[derive(Clone, Copy, Debug, PartialEq, Eq, Hash)]
pub struct Fingerprint {
    pub bytes: [u8; 32],
}

/// The lower-case hexadecimal digit of a value below sixteen.
pub open spec fn hex_digit(nibble: int) -> char {
    if nibble == 0 { '0' }
    else if nibble == 1 { '1' }
    else if nibble == 2 { '2' }
    else if nibble == 3 { '3' }
    else if nibble == 4 { '4' }
    else if nibble == 5 { '5' }
    else if nibble == 6 { '6' }
    else if nibble == 7 { '7' }
    else if nibble == 8 { '8' }
    else if nibble == 9 { '9' }
    else if nibble == 10 { 'a' }
    else if nibble == 11 { 'b' }
    else if nibble == 12 { 'c' }
    else if nibble == 13 { 'd' }
    else if nibble == 14 { 'e' }
    else { 'f' }
}

/// The text by which a double SHA-256 digest is shown: two lower-case
/// hexadecimal digits for each byte, the last byte first.
pub open spec fn display_hex(bytes: Seq<u8>) -> Seq<char> {
    Seq::new(
        2 * bytes.len(),
        |k: int|
            {
                let byte = bytes[bytes.len() - 1 - k / 2];
                if k % 2 == 0 {
                    hex_digit(byte as int / 16)
                } else {
                    hex_digit(byte as int % 16)
                }
            },
    )
}

/// Builds a `bitcoin_hashes::sha256d::Hash` from the 32 bytes with
/// `Hash::from_slice`, which accepts every slice of that length, and calls
/// `ToHex::to_hex` on it. The hash formats itself backwards: the contract
/// claims two lower-case digits per byte, starting from the last byte.
#[verifier::external_body]
fn double_hash_hex(bytes: &[u8; 32]) -> (text: String)
    ensures
        text@ == display_hex(bytes@),
{
    let built: Result<sha256d::Hash, bitcoin_hashes::Error> =
        bitcoin_hashes::Hash::from_slice(bytes);
    match built {
        Ok(hash) => hash.to_hex(),
        Err(_) => String::new(),
    }
}

impl BlockId {
    /// The text by which the node knows this block.
    pub fn to_hex(&self) -> (text: String)
        ensures
            text@ == display_hex(self.bytes@),
    {
        double_hash_hex(&self.bytes)
    }
}

impl TxId {
    /// The text by which the node knows this transaction.
    pub fn to_hex(&self) -> (text: String)
        ensures
            text@ == display_hex(self.bytes@),
    {
        double_hash_hex(&self.bytes)
    }
}

} // verus!
