//! The instructions the marketplace sends to the two registries, encoded as
//! the registries read them.

use vstd::prelude::*;

verus! {

/// The error the encoder reports; opaque here.
#[verifier::external_type_specification]
#[verifier::external_body]
pub struct ExStdError(cosmwasm_std::StdError);

/// The JSON bytes of the item registry's instruction to move item `token_id`
/// to `recipient`.
pub uninterp spec fn transfer_nft_json(recipient: Seq<char>, token_id: Seq<char>) -> Seq<u8>;

/// The JSON bytes of the token registry's instruction to move `amount` tokens
/// to `recipient`.
pub uninterp spec fn token_transfer_json(recipient: Seq<char>, amount: u128) -> Seq<u8>;

/// Relies on `cosmwasm_std::to_json_vec` applied to cw721's
/// `Cw721ExecuteMsg::TransferNft`: serde-json-wasm's serializer succeeds on a
/// message of strings, and the bytes depend on the recipient and the item
/// alone.
#[verifier::external_body]
pub(crate) fn encode_transfer_nft(recipient: &String, token_id: &String) -> (r: Result<
    Vec<u8>,
    cosmwasm_std::StdError,
>)
    ensures
        r is Ok,
        r matches Ok(b) ==> b@ == transfer_nft_json(recipient@, token_id@),
{
    cosmwasm_std::to_json_vec(
        &cw721::Cw721ExecuteMsg::TransferNft {
            recipient: recipient.clone(),
            token_id: token_id.clone(),
        },
    )
}

/// Relies on `cosmwasm_std::to_json_vec` applied to cw20's
/// `Cw20ExecuteMsg::Transfer`: serde-json-wasm's serializer succeeds on a
/// recipient string and an amount (written as a decimal string), and the
/// bytes depend on the two alone.
#[verifier::external_body]
pub(crate) fn encode_token_transfer(recipient: &String, amount: u128) -> (r: Result<
    Vec<u8>,
    cosmwasm_std::StdError,
>)
    ensures
        r is Ok,
        r matches Ok(b) ==> b@ == token_transfer_json(recipient@, amount),
{
    cosmwasm_std::to_json_vec(
        &cw20::Cw20ExecuteMsg::Transfer {
            recipient: recipient.clone(),
            amount: cosmwasm_std::Uint128::new(amount),
        },
    )
}

} // verus!
