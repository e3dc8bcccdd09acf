//! Assembling a transaction for signing, and packaging the signed one.

use crate::fee::{Fee, FeeView};
use crate::msg::{msgs_view, Msg, MsgView};
use crate::wire::{
    auth_info_encoding, encode_auth_info, encode_public_key, encode_sign_doc, encode_tx_body,
    encode_tx_raw, public_key_encoding, sign_doc_encoding, tx_body_encoding, tx_raw_encoding,
};
use vstd::prelude::*;

verus! {

/// The type URL of a secp256k1 public key.
pub const PUBLIC_KEY_TYPE_URL: &'static str = "/cosmos.crypto.secp256k1.PubKey";

/// The signing mode in which the signature covers the encoded sign
/// document itself.
pub const SIGN_MODE_DIRECT: i32 = 1;

/// The account that signs: who it is and where its counter stands. The
/// network owns `sequence`: fetch it anew before each assembly, and let
/// no two transactions in flight share one value.
#[derive(Clone, Debug, PartialEq, Eq)]
pub struct AccountIdentity {
    pub address: String,
    /// The account's secp256k1 public key, compressed.
    pub public_key: Vec<u8>,
    pub account_number: u64,
    pub sequence: u64,
    pub chain_id: String,
}

/// What an [`AccountIdentity`] stands for.
pub struct AccountView {
    pub address: Seq<char>,
    pub public_key: Seq<u8>,
    pub account_number: u64,
    pub sequence: u64,
    pub chain_id: Seq<char>,
}

impl View for AccountIdentity {
    type V = AccountView;

    open spec fn view(&self) -> AccountView {
        AccountView {
            address: self.address@,
            public_key: self.public_key@,
            account_number: self.account_number,
            sequence: self.sequence,
            chain_id: self.chain_id@,
        }
    }
}

/// Why a transaction was not assembled.
#[derive(Clone, Copy, Debug, PartialEq, Eq)]
pub enum ValidationError {
    /// There is no message to send.
    EmptyMessageSet,
    /// The gas limit is zero.
    InvalidFee,
}

/// A transaction ready for signing: its body, its authorization, and the
/// bytes that the signature is made over.
#[derive(Clone, Debug, PartialEq, Eq)]
pub struct SignableEnvelope {
    body_bytes: Vec<u8>,
    auth_info_bytes: Vec<u8>,
    sign_bytes: Vec<u8>,
}

/// What a [`SignableEnvelope`] stands for.
pub struct EnvelopeView {
    pub body_bytes: Seq<u8>,
    pub auth_info_bytes: Seq<u8>,
    pub sign_bytes: Seq<u8>,
}

impl View for SignableEnvelope {
    type V = EnvelopeView;

    closed spec fn view(&self) -> EnvelopeView {
        EnvelopeView {
            body_bytes: self.body_bytes@,
            auth_info_bytes: self.auth_info_bytes@,
            sign_bytes: self.sign_bytes@,
        }
    }
}

/// A signed transaction as it goes over the wire. Once made it does not
/// change: another fee, gas limit or message takes a new assembly and a
/// new signature.
#[derive(Clone, Debug, PartialEq, Eq)]
pub struct SignedTransaction {
    bytes: Vec<u8>,
}

impl View for SignedTransaction {
    type V = Seq<u8>;

    closed spec fn view(&self) -> Seq<u8> {
        self.bytes@
    }
}

/// The text that is written for an optional address: nothing where there
/// is none.
pub open spec fn text_or_empty(text: Option<Seq<char>>) -> Seq<char> {
    match text {
        Some(t) => t,
        None => Seq::empty(),
    }
}

/// The envelope of these messages, this fee and this memo for the account
/// `account`: the encoded body, the encoded authorization of the one
/// signer in direct mode, and the encoded sign document over both.
pub open spec fn envelope_of(
    messages: Seq<MsgView>,
    fee: FeeView,
    account: AccountView,
    memo: Seq<char>,
) -> EnvelopeView {
    let body = tx_body_encoding(messages, memo);
    let key = MsgView {
        type_url: PUBLIC_KEY_TYPE_URL@,
        value: public_key_encoding(account.public_key),
    };
    let auth_info = auth_info_encoding(
        key,
        SIGN_MODE_DIRECT,
        account.sequence,
        fee.amount,
        fee.gas_limit,
        text_or_empty(fee.payer),
        text_or_empty(fee.granter),
    );
    EnvelopeView {
        body_bytes: body,
        auth_info_bytes: auth_info,
        sign_bytes: sign_doc_encoding(body, auth_info, account.chain_id, account.account_number),
    }
}

/// What assembling these inputs gives: no messages are refused first, then
/// a gas limit of zero; everything else is assembled.
pub open spec fn assembled(
    messages: Seq<MsgView>,
    fee: FeeView,
    account: AccountView,
    memo: Seq<char>,
) -> Result<EnvelopeView, ValidationError> {
    if messages.len() == 0 {
        Err(ValidationError::EmptyMessageSet)
    } else if fee.gas_limit == 0 {
        Err(ValidationError::InvalidFee)
    } else {
        Ok(envelope_of(messages, fee, account, memo))
    }
}

/// What the outcome of an assembly stands for.
pub open spec fn outcome_view(r: Result<SignableEnvelope, ValidationError>) -> Result<
    EnvelopeView,
    ValidationError,
> {
    match r {
        Ok(envelope) => Ok(envelope@),
        Err(e) => Err(e),
    }
}

fn owned_or_empty(text: &Option<String>) -> (out: String)
    ensures
        out@ == text_or_empty(crate::fee::text_view(*text)),
{
    match text {
        Some(t) => t.clone(),
        None => String::new(),
    }
}

/// Assembles the messages, the fee, the account's counters and the memo
/// into the envelope that is signed. Reaches no network.
pub fn assemble(messages: &Vec<Msg>, fee: &Fee, account: &AccountIdentity, memo: &str) -> (r:
    Result<SignableEnvelope, ValidationError>)
    ensures
        outcome_view(r) == assembled(msgs_view(messages@), fee@, account@, memo@),
{
    if messages.len() == 0 {
        return Err(ValidationError::EmptyMessageSet);
    }
    if fee.gas_limit == 0 {
        return Err(ValidationError::InvalidFee);
    }
    let body_bytes: Vec<u8> = encode_tx_body(messages, memo);
    let key: Msg = Msg::new(PUBLIC_KEY_TYPE_URL, encode_public_key(&account.public_key));
    let payer: String = owned_or_empty(&fee.payer);
    let granter: String = owned_or_empty(&fee.granter);
    let auth_info_bytes: Vec<u8> = encode_auth_info(
        &key,
        SIGN_MODE_DIRECT,
        account.sequence,
        &fee.amount,
        fee.gas_limit,
        payer.as_str(),
        granter.as_str(),
    );
    let sign_bytes: Vec<u8> = encode_sign_doc(
        &body_bytes,
        &auth_info_bytes,
        account.chain_id.as_str(),
        account.account_number,
    );
    Ok(SignableEnvelope { body_bytes, auth_info_bytes, sign_bytes })
}

/// Assembling is a function of what its inputs stand for: two assemblies
/// of the same messages, fee, account and memo end alike, byte for byte.
pub proof fn lemma_assemble_deterministic(
    messages: Seq<Msg>,
    fee: Fee,
    account: AccountIdentity,
    memo: Seq<char>,
    first: Result<SignableEnvelope, ValidationError>,
    second: Result<SignableEnvelope, ValidationError>,
)
    requires
        outcome_view(first) == assembled(msgs_view(messages), fee@, account@, memo),
        outcome_view(second) == assembled(msgs_view(messages), fee@, account@, memo),
    ensures
        outcome_view(first) == outcome_view(second),
{
}

/// Without a message nothing is assembled, whatever the fee, the account
/// and the memo.
pub proof fn lemma_no_message_refused(fee: FeeView, account: AccountView, memo: Seq<char>)
    ensures
        assembled(Seq::empty(), fee, account, memo) == Err::<EnvelopeView, ValidationError>(
            ValidationError::EmptyMessageSet,
        ),
{
}

/// With a message to send, a gas limit of zero is refused and every other
/// gas limit is assembled.
pub proof fn lemma_gas_limit_decides(
    messages: Seq<MsgView>,
    fee: FeeView,
    account: AccountView,
    memo: Seq<char>,
)
    requires
        messages.len() > 0,
    ensures
        fee.gas_limit == 0 ==> assembled(messages, fee, account, memo) == Err::<
            EnvelopeView,
            ValidationError,
        >(ValidationError::InvalidFee),
        fee.gas_limit > 0 ==> assembled(messages, fee, account, memo) is Ok,
{
}

impl SignableEnvelope {
    /// The encoded body of the transaction.
    pub fn body_bytes(&self) -> (bytes: &Vec<u8>)
        ensures
            bytes@ == self@.body_bytes,
    {
        &self.body_bytes
    }

    /// The encoded authorization: signer, signing mode and fee.
    pub fn auth_info_bytes(&self) -> (bytes: &Vec<u8>)
        ensures
            bytes@ == self@.auth_info_bytes,
    {
        &self.auth_info_bytes
    }

    /// The bytes to sign.
    pub fn sign_bytes(&self) -> (bytes: &Vec<u8>)
        ensures
            bytes@ == self@.sign_bytes,
    {
        &self.sign_bytes
    }

    /// Packages the envelope with the signature made over its sign bytes
    /// into the transaction that is broadcast.
    pub fn seal(&self, signature: &Vec<u8>) -> (tx: SignedTransaction)
        ensures
            tx@ == tx_raw_encoding(self@.body_bytes, self@.auth_info_bytes, signature@),
    {
        SignedTransaction {
            bytes: encode_tx_raw(&self.body_bytes, &self.auth_info_bytes, signature),
        }
    }
}

impl SignedTransaction {
    /// The bytes that go over the wire.
    pub fn as_bytes(&self) -> (bytes: &Vec<u8>)
        ensures
            bytes@ == self@,
    {
        &self.bytes
    }
}

} // verus!
