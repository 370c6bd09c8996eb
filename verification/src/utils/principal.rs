//! The textual form of account identifiers, as defined by the `candid`
//! crate's `Principal`.

use vstd::prelude::*;

verus! {

/// The longest identifier that has a textual form, in bytes.
pub const MAX_ACCOUNT_BYTES: usize = 29;

/// The textual form of an identifier of at most 29 bytes.
pub uninterp spec fn principal_text(bytes: Seq<u8>) -> Seq<char>;

/// The identifier that a text denotes, if it denotes one.
pub uninterp spec fn principal_parse(text: Seq<char>) -> Option<Seq<u8>>;

/// Renders identifier bytes with `candid::Principal::from_slice` and
/// `Principal::to_text`.
///
/// Trusted: the text depends on the bytes alone. Longer identifiers, on
/// which the constructor panics, are left out.
#[verifier::external_body]
pub(crate) fn account_text(bytes: &[u8]) -> (text: String)
    requires
        bytes@.len() <= 29,
    ensures
        text@ == principal_text(bytes@),
{
    candid::Principal::from_slice(bytes).to_text()
}

/// Parses identifier text with `candid::Principal::from_text`.
///
/// Trusted: whether the text is accepted, and the bytes it then denotes,
/// depend on the text alone, and accepted bytes are at most 29 long.
#[verifier::external_body]
pub(crate) fn parse_account(text: &str) -> (bytes: Option<Vec<u8>>)
    ensures
        match bytes {
            Some(b) => principal_parse(text@) == Some(b@) && b@.len() <= 29,
            None => principal_parse(text@).is_none(),
        },
{
    match candid::Principal::from_text(text) {
        Ok(principal) => Some(principal.as_slice().to_vec()),
        Err(_) => None,
    }
}

} // verus!
