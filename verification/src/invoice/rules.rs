//! What the texts of an invoice have to look like.

use vstd::prelude::*;
use crate::invoice::constants::{
    MAX_DEBTOR_LEN, MAX_DESCRIPTION_LEN, MAX_METADATA_URI_LEN, MAX_VERIFICATION_HASH_LEN,
};
use crate::invoice::error::InvoiceError;
use crate::text::Text;

verus! {

/// Whether a byte can stand in a description: a printable character of ASCII
/// that has no meaning in HTML, that is none of `< > & " '`.
pub open spec fn safe_byte(b: u8) -> bool {
    32 <= b <= 126 && b != 60 && b != 62 && b != 38 && b != 34 && b != 39
}

/// Whether a description can be shown as it is.
pub open spec fn safe_description(s: Seq<u8>) -> bool {
    forall|i: int| 0 <= i < s.len() ==> safe_byte(#[trigger] s[i])
}

/// What is wrong with the texts of an invoice, if anything.
pub open spec fn text_error(
    debtor: Seq<u8>,
    description: Seq<u8>,
    verification_hash: Seq<u8>,
) -> Option<InvoiceError> {
    if debtor.len() == 0 {
        Some(InvoiceError::EmptyDebtorName)
    } else if description.len() == 0 {
        Some(InvoiceError::EmptyDescription)
    } else if verification_hash.len() == 0 {
        Some(InvoiceError::InvalidVerificationHash)
    } else if description.len() > MAX_DESCRIPTION_LEN {
        Some(InvoiceError::DescriptionTooLong)
    } else if debtor.len() > MAX_DEBTOR_LEN {
        Some(InvoiceError::DebtorNameTooLong)
    } else if verification_hash.len() > MAX_VERIFICATION_HASH_LEN {
        Some(InvoiceError::VerificationHashTooLong)
    } else if !safe_description(description) {
        Some(InvoiceError::InvalidDescriptionChars)
    } else {
        None
    }
}

/// `ipfs://`
pub open spec fn ipfs_prefix() -> Seq<u8> {
    seq![105u8, 112u8, 102u8, 115u8, 58u8, 47u8, 47u8]
}

/// `ar://`
pub open spec fn ar_prefix() -> Seq<u8> {
    seq![97u8, 114u8, 58u8, 47u8, 47u8]
}

/// `https://`
pub open spec fn https_prefix() -> Seq<u8> {
    seq![104u8, 116u8, 116u8, 112u8, 115u8, 58u8, 47u8, 47u8]
}

/// Whether a link to metadata can be accepted: it is not too long and leads to
/// one of three kinds of places.
pub open spec fn valid_metadata_uri(uri: Seq<u8>) -> bool {
    &&& 0 < uri.len() <= MAX_METADATA_URI_LEN
    &&& ipfs_prefix().is_prefix_of(uri) || ar_prefix().is_prefix_of(uri)
        || https_prefix().is_prefix_of(uri)
}

/// Whether a description can be shown as it is.
pub fn is_safe_description(description: &Text) -> (r: bool)
    ensures
        r == safe_description(description@),
{
    let bytes = description.as_slice();
    let mut i: usize = 0;
    while i < bytes.len()
        invariant
            i <= bytes@.len(),
            bytes@ == description@,
            forall|j: int| 0 <= j < i ==> safe_byte(#[trigger] bytes@[j]),
        decreases bytes@.len() - i,
    {
        let b: u8 = bytes[i];
        if b < 32 || b > 126 || b == 60 || b == 62 || b == 38 || b == 34 || b == 39 {
            assert(!safe_byte(description@[i as int]));
            return false;
        }
        i = i + 1;
    }
    true
}

/// Checks the texts of an invoice.
pub fn validate_invoice_strings(debtor: &Text, description: &Text, verification_hash: &Text) -> (r:
    Result<(), InvoiceError>)
    ensures
        r == match text_error(debtor@, description@, verification_hash@) {
            Some(e) => Err::<(), InvoiceError>(e),
            None => Ok(()),
        },
{
    if debtor.is_empty() {
        return Err(InvoiceError::EmptyDebtorName);
    }
    if description.is_empty() {
        return Err(InvoiceError::EmptyDescription);
    }
    if verification_hash.is_empty() {
        return Err(InvoiceError::InvalidVerificationHash);
    }
    if description.len() > MAX_DESCRIPTION_LEN {
        return Err(InvoiceError::DescriptionTooLong);
    }
    if debtor.len() > MAX_DEBTOR_LEN {
        return Err(InvoiceError::DebtorNameTooLong);
    }
    if verification_hash.len() > MAX_VERIFICATION_HASH_LEN {
        return Err(InvoiceError::VerificationHashTooLong);
    }
    if !is_safe_description(description) {
        return Err(InvoiceError::InvalidDescriptionChars);
    }
    Ok(())
}

fn starts_with(bytes: &[u8], prefix: &[u8]) -> (r: bool)
    ensures
        r == prefix@.is_prefix_of(bytes@),
{
    if bytes.len() < prefix.len() {
        return false;
    }
    let mut i: usize = 0;
    while i < prefix.len()
        invariant
            i <= prefix@.len() <= bytes@.len(),
            forall|j: int| 0 <= j < i ==> bytes@[j] == prefix@[j],
        decreases prefix@.len() - i,
    {
        if bytes[i] != prefix[i] {
            assert(bytes@.subrange(0, prefix@.len() as int)[i as int] != prefix@[i as int]);
            return false;
        }
        i = i + 1;
    }
    assert(prefix@ =~= bytes@.subrange(0, prefix@.len() as int));
    true
}

/// Whether a link to metadata can be accepted.
pub fn is_valid_metadata_uri(uri: &Text) -> (r: bool)
    ensures
        r == valid_metadata_uri(uri@),
{
    if uri.is_empty() || uri.len() > MAX_METADATA_URI_LEN {
        return false;
    }
    let ipfs: [u8; 7] = [105, 112, 102, 115, 58, 47, 47];
    let ar: [u8; 5] = [97, 114, 58, 47, 47];
    let https: [u8; 8] = [104, 116, 116, 112, 115, 58, 47, 47];
    assert(ipfs@ =~= ipfs_prefix());
    assert(ar@ =~= ar_prefix());
    assert(https@ =~= https_prefix());
    let bytes = uri.as_slice();
    starts_with(bytes, &ipfs) || starts_with(bytes, &ar) || starts_with(bytes, &https)
}

} // verus!
