//! Decoding of candid replies.
use vstd::prelude::*;

verus! {

/// What candid decodes `bytes` to when they are read as a message holding a
/// single `bool`; `None` when they do not decode as one.
pub uninterp spec fn candid_bool_of(bytes: Seq<u8>) -> Option<bool>;

/// Relies on `candid::decode_one`: decoding a reply that holds one `bool`.
/// The result depends on the bytes alone.
#[verifier::external_body]
pub(crate) fn decode_bool(bytes: &[u8]) -> (r: Option<bool>)
    ensures
        r == candid_bool_of(bytes@),
{
    candid::decode_one::<bool>(bytes).ok()
}

} // verus!
