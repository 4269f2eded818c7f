//! What the library takes from `anchor_lang` on trust: its error type, and
//! the text it prints for an address.

use vstd::prelude::*;

verus! {

/// `anchor_lang::error::Error`, the error an instruction may return. The
/// library only names it in a result; it never builds or reads one.
#[verifier::external_type_specification]
#[verifier::external_body]
pub struct ExError(anchor_lang::error::Error);

/// The text that `anchor_lang` prints for the address made of `bytes` when
/// it is formatted with `{:?}`: its base58 encoding.
pub uninterp spec fn debug_text(bytes: Seq<u8>) -> Seq<char>;

/// Formats an address as `anchor_lang` does.
///
/// Trusted: the body builds an `anchor_lang::prelude::Pubkey` of the given
/// bytes with `Pubkey::new_from_array` and formats it through that type's
/// `Debug` impl. The contract claims only that the text is determined by
/// the thirty-two bytes, and calls it [`debug_text`].
#[verifier::external_body]
pub(crate) fn address_debug_text(address: &[u8; 32]) -> (text: String)
    ensures
        text@ == debug_text(address@),
{
    format!("{:?}", anchor_lang::prelude::Pubkey::new_from_array(*address))
}

} // verus!
