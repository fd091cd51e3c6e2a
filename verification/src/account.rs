//! The configuration of an exchange, and the account that holds its
//! reserves.

use crate::types::{AccountId, Balance};
use sp_runtime::traits::AccountIdConversion;
use vstd::prelude::*;

verus! {

/// What is fixed for the life of an exchange.
#[derive(Clone, Copy, Debug, PartialEq, Eq)]
pub struct Config {
    /// The eight bytes from which the exchange's own account is derived.
    pub pallet_id: [u8; 8],
    /// The fee denominator.
    pub thousand: Balance,
    /// The fee numerator: prices are computed at a rate of `thousand` less
    /// `fee`.
    pub fee: Balance,
}

/// The account derived from `pallet_id`: the four bytes `modl` followed by
/// the first four bytes of `pallet_id`, read as a little-endian number.
pub open spec fn pallet_account(pallet_id: [u8; 8]) -> AccountId {
    (0x6c64_6f6d + pallet_id[0] * 0x1_0000_0000 + pallet_id[1] * 0x100_0000_0000 + pallet_id[2]
        * 0x1_0000_0000_0000 + pallet_id[3] * 0x100_0000_0000_0000) as AccountId
}

/// Calls `AccountIdConversion::into_account_truncating` of sp-runtime on a
/// `PalletId` of frame-support, for an eight-byte account identifier.
///
/// Trusted, not proved: that crate encodes the type tag `modl`, then the
/// eight bytes of the identifier, and decodes an account from the front of
/// those bytes, little-endian, dropping what does not fit.
#[verifier::external_body]
pub(crate) fn into_account_truncating(pallet_id: [u8; 8]) -> (account: AccountId)
    ensures
        account == pallet_account(pallet_id),
{
    frame_support::PalletId(pallet_id).into_account_truncating()
}

} // verus!
