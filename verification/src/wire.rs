//! The protobuf encodings that a transaction is made of. The encoder is
//! `prost`, through the message types of `cosmos_sdk_proto`; nothing here
//! is proved of the bytes it writes. Each encoding has a name, so that the
//! rest of the library can say which bytes stand where.

use crate::coin::{coins_view, Coin, CoinView};
use crate::msg::{msgs_view, Msg, MsgView};
use cosmos_sdk_proto::cosmos::base::v1beta1::Coin as WireCoin;
use cosmos_sdk_proto::cosmos::crypto::secp256k1::PubKey;
use cosmos_sdk_proto::cosmos::staking::v1beta1::MsgDelegate;
use cosmos_sdk_proto::cosmos::tx::v1beta1::mode_info::{Single, Sum};
use cosmos_sdk_proto::cosmos::tx::v1beta1::{
    AuthInfo, Fee as WireFee, ModeInfo, SignDoc, SignerInfo, TxBody, TxRaw,
};
use cosmos_sdk_proto::traits::Message;
use cosmos_sdk_proto::Any;
use vstd::prelude::*;

verus! {

/// The bytes of a `MsgDelegate` with these three fields.
pub uninterp spec fn delegation_encoding(
    delegator: Seq<char>,
    validator: Seq<char>,
    amount: CoinView,
) -> Seq<u8>;

/// The bytes of a `TxBody` with these messages and this memo, without a
/// timeout height and without extension options.
pub uninterp spec fn tx_body_encoding(messages: Seq<MsgView>, memo: Seq<char>) -> Seq<u8>;

/// The bytes of a secp256k1 `PubKey` that holds `key`.
pub uninterp spec fn public_key_encoding(key: Seq<u8>) -> Seq<u8>;

/// The bytes of an `AuthInfo` with one signer, who signs in one mode with
/// the public key `public_key` at `sequence`, and with this fee.
pub uninterp spec fn auth_info_encoding(
    public_key: MsgView,
    sign_mode: i32,
    sequence: u64,
    amount: Seq<CoinView>,
    gas_limit: u64,
    payer: Seq<char>,
    granter: Seq<char>,
) -> Seq<u8>;

/// The bytes of a `SignDoc` with these four fields.
pub uninterp spec fn sign_doc_encoding(
    body: Seq<u8>,
    auth_info: Seq<u8>,
    chain_id: Seq<char>,
    account_number: u64,
) -> Seq<u8>;

/// The bytes of a `TxRaw` with this body, this authorization and the one
/// signature `signature`.
pub uninterp spec fn tx_raw_encoding(body: Seq<u8>, auth_info: Seq<u8>, signature: Seq<u8>) -> Seq<
    u8,
>;

/// Calls `prost::Message::encode_to_vec` on a `MsgDelegate`. Trusted: the
/// bytes depend on the three fields alone; the amount is written in
/// decimal.
#[verifier::external_body]
pub(crate) fn encode_delegation(delegator: &str, validator: &str, amount: &Coin) -> (out: Vec<u8>)
    ensures
        out@ == delegation_encoding(delegator@, validator@, amount@),
{
    let amount = WireCoin { denom: amount.denom.clone(), amount: amount.amount.to_string() };
    MsgDelegate {
        delegator_address: delegator.to_string(),
        validator_address: validator.to_string(),
        amount: Some(amount),
    }.encode_to_vec()
}

/// Calls `prost::Message::encode_to_vec` on a `TxBody`. Trusted: the bytes
/// depend on the messages and the memo alone.
#[verifier::external_body]
pub(crate) fn encode_tx_body(messages: &Vec<Msg>, memo: &str) -> (out: Vec<u8>)
    ensures
        out@ == tx_body_encoding(msgs_view(messages@), memo@),
{
    let messages = messages.iter().map(
        |m| Any { type_url: m.type_url.clone(), value: m.value.clone() },
    ).collect();
    TxBody { messages, memo: memo.to_string(), ..Default::default() }.encode_to_vec()
}

/// Calls `prost::Message::encode_to_vec` on a secp256k1 `PubKey`. Trusted:
/// the bytes depend on the key alone.
#[verifier::external_body]
pub(crate) fn encode_public_key(key: &Vec<u8>) -> (out: Vec<u8>)
    ensures
        out@ == public_key_encoding(key@),
{
    PubKey { key: key.clone() }.encode_to_vec()
}

/// Calls `prost::Message::encode_to_vec` on an `AuthInfo` with one signer.
/// Trusted: the bytes depend on the arguments alone; each amount of the
/// fee is written in decimal.
#[verifier::external_body]
pub(crate) fn encode_auth_info(
    public_key: &Msg,
    sign_mode: i32,
    sequence: u64,
    amount: &Vec<Coin>,
    gas_limit: u64,
    payer: &str,
    granter: &str,
) -> (out: Vec<u8>)
    ensures
        out@ == auth_info_encoding(
            public_key@,
            sign_mode,
            sequence,
            coins_view(amount@),
            gas_limit,
            payer@,
            granter@,
        ),
{
    let key = Any { type_url: public_key.type_url.clone(), value: public_key.value.clone() };
    let mode = ModeInfo { sum: Some(Sum::Single(Single { mode: sign_mode })) };
    let signer = SignerInfo { public_key: Some(key), mode_info: Some(mode), sequence };
    let amount = amount.iter().map(
        |c| WireCoin { denom: c.denom.clone(), amount: c.amount.to_string() },
    ).collect();
    let fee = WireFee { amount, gas_limit, payer: payer.to_string(), granter: granter.to_string() };
    AuthInfo { signer_infos: vec![signer], fee: Some(fee), ..Default::default() }.encode_to_vec()
}

/// Calls `prost::Message::encode_to_vec` on a `SignDoc`. Trusted: the bytes
/// depend on the four fields alone.
#[verifier::external_body]
pub(crate) fn encode_sign_doc(
    body: &Vec<u8>,
    auth_info: &Vec<u8>,
    chain_id: &str,
    account_number: u64,
) -> (out: Vec<u8>)
    ensures
        out@ == sign_doc_encoding(body@, auth_info@, chain_id@, account_number),
{
    SignDoc {
        body_bytes: body.clone(),
        auth_info_bytes: auth_info.clone(),
        chain_id: chain_id.to_string(),
        account_number,
    }.encode_to_vec()
}

/// Calls `prost::Message::encode_to_vec` on a `TxRaw` with one signature.
/// Trusted: the bytes depend on the three arguments alone.
#[verifier::external_body]
pub(crate) fn encode_tx_raw(body: &Vec<u8>, auth_info: &Vec<u8>, signature: &Vec<u8>) -> (out: Vec<
    u8,
>)
    ensures
        out@ == tx_raw_encoding(body@, auth_info@, signature@),
{
    TxRaw {
        body_bytes: body.clone(),
        auth_info_bytes: auth_info.clone(),
        signatures: vec![signature.clone()],
    }.encode_to_vec()
}

} // verus!
