use vstd::prelude::*;

verus! {

pub uninterp spec fn mint_msg_bytes(recipient: Seq<char>, amount: nat) -> Seq<u8>;

pub uninterp spec fn burn_from_msg_bytes(owner: Seq<char>, amount: nat) -> Seq<u8>;

pub uninterp spec fn transfer_from_msg_bytes(
    owner: Seq<char>,
    recipient: Seq<char>,
    amount: nat,
) -> Seq<u8>;

/// Relies on cosmwasm_std::to_binary applied to cw20::Cw20ExecuteMsg::Mint:
/// the encoding depends on the recipient and the amount alone, and encoding
/// this fixed shape of message cannot fail (serde-json-wasm writes strings
/// and integers into a growable buffer with no error path).
#[verifier::external_body]
pub(crate) fn mint_msg(recipient: &str, amount: u128) -> (r: Vec<u8>)
    ensures
        r@ == mint_msg_bytes(recipient@, amount as nat),
{
    let msg = cw20::Cw20ExecuteMsg::Mint {
        recipient: recipient.to_string(),
        amount: cosmwasm_std::Uint128::new(amount),
    };
    cosmwasm_std::to_binary(&msg).unwrap().0
}

/// Relies on cosmwasm_std::to_binary applied to
/// cw20::Cw20ExecuteMsg::BurnFrom: the encoding depends on the owner and
/// the amount alone, and encoding this fixed shape of message cannot fail.
#[verifier::external_body]
pub(crate) fn burn_from_msg(owner: &str, amount: u128) -> (r: Vec<u8>)
    ensures
        r@ == burn_from_msg_bytes(owner@, amount as nat),
{
    let msg = cw20::Cw20ExecuteMsg::BurnFrom {
        owner: owner.to_string(),
        amount: cosmwasm_std::Uint128::new(amount),
    };
    cosmwasm_std::to_binary(&msg).unwrap().0
}

/// Relies on cosmwasm_std::to_binary applied to
/// cw20::Cw20ExecuteMsg::TransferFrom: the encoding depends on the owner,
/// the recipient and the amount alone, and encoding this fixed shape of
/// message cannot fail.
#[verifier::external_body]
pub(crate) fn transfer_from_msg(owner: &str, recipient: &str, amount: u128) -> (r: Vec<u8>)
    ensures
        r@ == transfer_from_msg_bytes(owner@, recipient@, amount as nat),
{
    let msg = cw20::Cw20ExecuteMsg::TransferFrom {
        owner: owner.to_string(),
        recipient: recipient.to_string(),
        amount: cosmwasm_std::Uint128::new(amount),
    };
    cosmwasm_std::to_binary(&msg).unwrap().0
}

} // verus!
