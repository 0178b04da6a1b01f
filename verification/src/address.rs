//! Ledger addresses: 32-byte public-key values carried as plain bytes.
//!
//! Every address field of a request must decode from base58 to exactly 32
//! bytes; `parse_address` is the one place where that validation happens.

use vstd::prelude::*;
use crate::codec::{base58_decoding, decode_base58};

verus! {

/// A validated 32-byte ledger address.
pub struct Address {
    bytes: Vec<u8>,
}

impl View for Address {
    type V = Seq<u8>;

    closed spec fn view(&self) -> Seq<u8> {
        self.bytes@
    }
}

impl Address {
    /// Well-formed: exactly the ledger's fixed address length of 32 bytes.
    pub open spec fn wf(&self) -> bool {
        self@.len() == 32
    }

    /// The raw address bytes.
    pub fn as_bytes(&self) -> (r: &Vec<u8>)
        ensures
            r@ == self@,
    {
        &self.bytes
    }
}

/// Whether a piece of text is a well-formed address: base58 that decodes to
/// exactly 32 bytes.
pub open spec fn address_parses(s: Seq<char>) -> bool {
    base58_decoding(s) matches Some(b) && b.len() == 32
}

/// The 32 bytes an address decodes to.
pub open spec fn address_bytes(s: Seq<char>) -> Seq<u8>
    recommends
        address_parses(s),
{
    base58_decoding(s)->Some_0
}

/// Decode and validate an address field: succeeds exactly on base58 text
/// that decodes to 32 bytes.
pub fn parse_address(s: &str) -> (r: Option<Address>)
    ensures
        r is Some <==> address_parses(s@),
        r matches Some(a) ==> a.wf() && a@ == address_bytes(s@),
{
    match decode_base58(s) {
        Ok(v) => {
            if v.len() == 32 {
                Some(Address { bytes: v })
            } else {
                None
            }
        },
        Err(_) => None,
    }
}

} // verus!
