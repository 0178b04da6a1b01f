//! The service's two failure kinds.

use vstd::prelude::*;

verus! {

/// Every fallible operation of the library fails with one of these.
///
/// `InvalidInput` is always attributable to caller-supplied data: a malformed
/// encoding, wrong-length key material, or an unparsable address. The carried
/// text names the offending field. `InternalError` covers a failure inside
/// the cryptographic library after the input passed structural validation.
#[derive(Debug)]
pub enum AppError {
    InvalidInput(String),
    InternalError,
}

} // verus!
