//! Messages: the instructions that a transaction carries.

use crate::coin::Coin;
use crate::wire::{delegation_encoding, encode_delegation};
use vstd::prelude::*;
use vstd::string::StringExecFns;

verus! {

/// One instruction: the URL of its type and its encoded body. The
/// library never looks into the body, so a transaction can carry kinds of
/// instruction that the library does not know.
#[derive(Clone, Debug, PartialEq, Eq)]
pub struct Msg {
    pub type_url: String,
    pub value: Vec<u8>,
}

/// What a [`Msg`] stands for.
pub struct MsgView {
    pub type_url: Seq<char>,
    pub value: Seq<u8>,
}

impl View for Msg {
    type V = MsgView;

    open spec fn view(&self) -> MsgView {
        MsgView { type_url: self.type_url@, value: self.value@ }
    }
}

/// What each message of `messages` stands for, in order.
pub open spec fn msgs_view(messages: Seq<Msg>) -> Seq<MsgView> {
    messages.map_values(|m: Msg| m@)
}

/// The type URL under which a delegation is sent.
pub const DELEGATE_TYPE_URL: &'static str = "/cosmos.staking.v1betav1.MsgDelegate";

impl Msg {
    /// A message of type `type_url` with the encoded body `value`.
    pub fn new(type_url: &str, value: Vec<u8>) -> (m: Msg)
        ensures
            m@ == (MsgView { type_url: type_url@, value: value@ }),
    {
        Msg { type_url: String::from_str(type_url), value }
    }

    /// The instruction to delegate `amount` from `delegator` to `validator`.
    pub fn delegate(delegator: &str, validator: &str, amount: &Coin) -> (m: Msg)
        ensures
            m@ == (MsgView {
                type_url: DELEGATE_TYPE_URL@,
                value: delegation_encoding(delegator@, validator@, amount@),
            }),
    {
        Msg::new(DELEGATE_TYPE_URL, encode_delegation(delegator, validator, amount))
    }
}

} // verus!
