use vstd::prelude::*;

use crate::account::AccountId;

verus! {

/// The canonical associated token account address for a wallet and a mint.
/// The derivation is a collision-resistant keyed hash of the two addresses,
/// far too involved to restate here; only its determinism matters to the
/// engine, so the result is given a name and left uninterpreted.
pub uninterp spec fn ata_of(owner: Seq<u8>, mint: Seq<u8>) -> Seq<u8>;

/// Relies on anchor_spl::associated_token::get_associated_token_address: the
/// associated token account address is a program-derived address computed
/// from the wallet address and the mint address alone, so the result is a
/// pure function of the two arguments.
#[verifier::external_body]
pub(crate) fn derive_destination(owner: &AccountId, mint: &AccountId) -> (r: AccountId)
    ensures
        r.bytes@ == ata_of(owner.bytes@, mint.bytes@),
{
    let wallet = anchor_lang::prelude::Pubkey::new_from_array(owner.bytes);
    let mint_key = anchor_lang::prelude::Pubkey::new_from_array(mint.bytes);
    let ata = anchor_spl::associated_token::get_associated_token_address(&wallet, &mint_key);
    AccountId { bytes: ata.to_bytes() }
}

} // verus!
