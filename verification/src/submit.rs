//! Submitting a transaction and confirming it: the decisions of the whole
//! course, from the account's counters to the final outcome.
//!
//! A [`Submission`] decides; it reaches no network, holds no key and reads
//! no clock. Its driver carries out each [`Action`] and reports what came
//! of it as the next [`Event`].

use crate::coin::{coins_view, Coin};
use crate::envelope::{assemble, assembled, SignableEnvelope, ValidationError};
use crate::fee::{Fee, FeeView, DEFAULT_GAS_LIMIT};
use crate::msg::{msgs_view, Msg, MsgView, DELEGATE_TYPE_URL};
use crate::poller::{
    poll_step, Lookup, PollAction, PollError, PollEvent, PollPhase, Poller, PollerView,
    DEFAULT_POLL_INTERVAL_MS,
};
use crate::response::{quoted_fees, validate, BroadcastResult, FeeError, FeeInfo};
use crate::wire::{delegation_encoding, tx_raw_encoding};
use vstd::prelude::*;
use vstd::string::StringExecFns;

verus! {

/// The broadcast mode in which the node answers once it has checked the
/// transaction and taken it into its pending pool, or turned it down.
pub const BROADCAST_MODE_SYNC: i32 = 2;

/// Why a submission ended without a result.
#[derive(Clone, Debug, PartialEq, Eq)]
pub enum SubmitError {
    /// There was no message to send. Nothing was sent.
    EmptyMessageSet,
    /// The gas limit was zero. Nothing was sent.
    InvalidFee,
    /// The signer gave no signature.
    SigningError,
    /// The node could not be reached. Nothing is tried again: a second
    /// try could submit the transaction twice.
    ChannelError,
    /// The node's acknowledgment lacks what it must hold.
    MalformedResponse,
    /// The node asks for a higher fee, which it quoted.
    InsufficientFees { fee_info: FeeInfo },
    /// The deadline passed before the transaction was confirmed. Its
    /// outcome is unknown.
    ConfirmationTimeout,
    /// A query for the transaction failed. Its outcome is unknown.
    ConfirmationError,
}

/// How a submission ends: with the node's report of the transaction, or
/// with the reason why none was had.
pub type TransactionResult = Result<BroadcastResult, SubmitError>;

/// What the driver reports.
#[derive(Clone, Debug, PartialEq, Eq)]
pub enum Event {
    /// The account, with its counters as the network holds them now.
    Account(crate::envelope::AccountIdentity),
    /// The signature over the bytes that were to be signed.
    Signature(Vec<u8>),
    /// The signer refused, or had no valid key.
    SigningFailed,
    /// The node's acknowledgment of the broadcast, if it held a result.
    Acknowledged(Option<BroadcastResult>),
    /// The call to the node failed at the transport level.
    ChannelFailed,
    /// The time since polling began, in milliseconds.
    Clock { elapsed_ms: u64 },
    /// The node's reply to a query for the transaction.
    Reply(Lookup),
}

/// What the driver is to do next.
#[derive(Debug, PartialEq, Eq)]
pub enum Action {
    /// Sign these bytes, then report the signature.
    Sign { sign_bytes: Vec<u8> },
    /// Send these bytes to the node in this mode, then report its
    /// acknowledgment.
    Broadcast { tx_bytes: Vec<u8>, mode: i32 },
    /// Wait this many milliseconds, then report the clock.
    Wait { millis: u64 },
    /// Ask the node for the transaction with this hash, then report its
    /// reply.
    Query { tx_hash: String },
    /// The submission is over, with this outcome.
    Finish(TransactionResult),
    /// The event does not belong to this stage: nothing has changed and
    /// nothing is to be done.
    Nothing,
}

/// Where a submission stands, with what it still needs from there on. A
/// new submission awaits the account: its driver begins by fetching it.
#[derive(Clone, Debug, PartialEq, Eq)]
pub enum Submission {
    AwaitingAccount { messages: Vec<Msg>, fee: Fee, memo: String, wait_ms: Option<u64> },
    AwaitingSignature { envelope: SignableEnvelope, wait_ms: Option<u64> },
    AwaitingAck { wait_ms: Option<u64> },
    Confirming { tx_hash: String, poller: Poller },
    Finished,
}

/// The error that a refused assembly ends the submission with.
pub open spec fn refusal(e: ValidationError) -> SubmitError {
    match e {
        ValidationError::EmptyMessageSet => SubmitError::EmptyMessageSet,
        ValidationError::InvalidFee => SubmitError::InvalidFee,
    }
}

/// The error that a poll without confirmation ends the submission with.
pub open spec fn poll_failure(e: PollError) -> SubmitError {
    match e {
        PollError::ConfirmationTimeout => SubmitError::ConfirmationTimeout,
        PollError::ConfirmationError => SubmitError::ConfirmationError,
    }
}

/// Whether `r` is the judgment of the acknowledgment `ack`. One without a
/// result, or whose result names no transaction hash, is malformed. A
/// rejection for too small a fee is an error that carries the quoted
/// minimum. Every other result is accepted as it came.
pub open spec fn judged(ack: Option<BroadcastResult>, r: TransactionResult) -> bool {
    match ack {
        Some(result) if result.tx_hash@.len() > 0 => match quoted_fees(result.raw_log@) {
            Some(fees) => r matches Err(SubmitError::InsufficientFees { fee_info })
                && coins_view(fee_info.min_fees@) == fees,
            None => r == Ok::<BroadcastResult, SubmitError>(result),
        },
        _ => r == Err::<BroadcastResult, SubmitError>(SubmitError::MalformedResponse),
    }
}

/// Judges the node's acknowledgment of a broadcast.
pub fn judge_ack(ack: Option<BroadcastResult>) -> (r: TransactionResult)
    ensures
        judged(ack, r),
{
    let result: BroadcastResult = match ack {
        Some(result) => result,
        None => {
            return Err(SubmitError::MalformedResponse);
        },
    };
    if result.tx_hash.as_str().is_empty() {
        return Err(SubmitError::MalformedResponse);
    }
    match validate(result) {
        Ok(passed) => Ok(passed),
        Err(FeeError::InsufficientFees { fee_info }) => Err(
            SubmitError::InsufficientFees { fee_info },
        ),
    }
}

/// Whether a submission at `s` that is told `event` goes on at `next` and
/// has its driver do `action`.
///
/// The stages follow one another: with the account the transaction is
/// assembled and goes out for signing; signed, it is packaged and goes out
/// for broadcast in sync mode; acknowledged, the result is judged, and is
/// the outcome unless a wait was asked for; then the transaction is polled
/// for until it is confirmed, the deadline passes or a query fails. A
/// failure of the channel or of the signer ends the submission at once. An
/// event out of turn changes nothing.
pub open spec fn steps(s: Submission, event: Event, next: Submission, action: Action) -> bool {
    match (s, event) {
        (Submission::AwaitingAccount { messages, fee, memo, wait_ms }, Event::Account(account)) => {
            match assembled(msgs_view(messages@), fee@, account@, memo@) {
                Ok(assembled) => {
                    &&& next matches Submission::AwaitingSignature { envelope, wait_ms: w }
                    &&& envelope@ == assembled
                    &&& w == wait_ms
                    &&& action matches Action::Sign { sign_bytes }
                    &&& sign_bytes@ == assembled.sign_bytes
                },
                Err(e) => next == Submission::Finished && action == Action::Finish(
                    Err(refusal(e)),
                ),
            }
        },
        (Submission::AwaitingAccount { .. }, Event::ChannelFailed) => next == Submission::Finished
            && action == Action::Finish(Err(SubmitError::ChannelError)),
        (Submission::AwaitingSignature { envelope, wait_ms }, Event::Signature(signature)) => {
            &&& next == Submission::AwaitingAck { wait_ms }
            &&& action matches Action::Broadcast { tx_bytes, mode }
            &&& mode == BROADCAST_MODE_SYNC
            &&& tx_bytes@ == tx_raw_encoding(
                envelope@.body_bytes,
                envelope@.auth_info_bytes,
                signature@,
            )
        },
        (Submission::AwaitingSignature { .. }, Event::SigningFailed) => next
            == Submission::Finished && action == Action::Finish(Err(SubmitError::SigningError)),
        (Submission::AwaitingAck { wait_ms }, Event::Acknowledged(ack)) => {
            if ack matches Some(result) && result.tx_hash@.len() > 0 && quoted_fees(
                result.raw_log@,
            ) is None && wait_ms is Some {
                &&& next matches Submission::Confirming { tx_hash, poller }
                &&& tx_hash@ == ack->0.tx_hash@
                &&& poller@ == (PollerView {
                    deadline_ms: wait_ms->0,
                    interval_ms: DEFAULT_POLL_INTERVAL_MS,
                    phase: PollPhase::Waiting,
                })
                &&& action == Action::Wait { millis: 0 }
            } else {
                &&& next == Submission::Finished
                &&& action matches Action::Finish(r)
                &&& judged(ack, r)
            }
        },
        (Submission::AwaitingAck { .. }, Event::ChannelFailed) => next == Submission::Finished
            && action == Action::Finish(Err(SubmitError::ChannelError)),
        (Submission::Confirming { tx_hash, poller }, Event::Clock { elapsed_ms }) => polls(
            tx_hash,
            poller,
            PollEvent::Clock { elapsed_ms },
            next,
            action,
        ),
        (Submission::Confirming { tx_hash, poller }, Event::Reply(lookup)) => polls(
            tx_hash,
            poller,
            PollEvent::Reply(lookup),
            next,
            action,
        ),
        (Submission::Confirming { tx_hash, poller }, Event::ChannelFailed) => polls(
            tx_hash,
            poller,
            PollEvent::Reply(Lookup::ChannelError),
            next,
            action,
        ),
        _ => next == s && action == Action::Nothing,
    }
}

/// Whether a submission that polls for `tx_hash` with `poller` and is told
/// `event` goes on at `next` and has its driver do `action`: what the
/// poller decides, with the hash put into its query and its errors named
/// as those of a submission.
pub open spec fn polls(
    tx_hash: String,
    poller: Poller,
    event: PollEvent,
    next: Submission,
    action: Action,
) -> bool {
    let (polled, decided) = poll_step(poller@, event);
    match decided {
        PollAction::Query => {
            &&& next matches Submission::Confirming { tx_hash: h, poller: p }
            &&& h@ == tx_hash@
            &&& p@ == polled
            &&& action matches Action::Query { tx_hash: asked }
            &&& asked@ == tx_hash@
        },
        PollAction::Wait { millis } => {
            &&& next matches Submission::Confirming { tx_hash: h, poller: p }
            &&& h@ == tx_hash@
            &&& p@ == polled
            &&& action == Action::Wait { millis }
        },
        PollAction::Finish(Ok(result)) => next == Submission::Finished && action == Action::Finish(
            Ok(result),
        ),
        PollAction::Finish(Err(e)) => next == Submission::Finished && action == Action::Finish(
            Err(poll_failure(e)),
        ),
        PollAction::Nothing => {
            &&& next matches Submission::Confirming { tx_hash: h, poller: p }
            &&& h@ == tx_hash@
            &&& p@ == polled
            &&& action == Action::Nothing
        },
    }
}

fn refuse(e: ValidationError) -> (r: SubmitError)
    ensures
        r == refusal(e),
{
    match e {
        ValidationError::EmptyMessageSet => SubmitError::EmptyMessageSet,
        ValidationError::InvalidFee => SubmitError::InvalidFee,
    }
}

fn poll(tx_hash: String, poller: Poller, event: PollEvent) -> (out: (Submission, Action))
    ensures
        polls(tx_hash, poller, event, out.0, out.1),
{
    let mut poller = poller;
    match poller.step(event) {
        PollAction::Query => {
            let asked: String = tx_hash.clone();
            (Submission::Confirming { tx_hash, poller }, Action::Query { tx_hash: asked })
        },
        PollAction::Wait { millis } => (
            Submission::Confirming { tx_hash, poller },
            Action::Wait { millis },
        ),
        PollAction::Finish(Ok(result)) => (Submission::Finished, Action::Finish(Ok(result))),
        PollAction::Finish(Err(PollError::ConfirmationTimeout)) => (
            Submission::Finished,
            Action::Finish(Err(SubmitError::ConfirmationTimeout)),
        ),
        PollAction::Finish(Err(PollError::ConfirmationError)) => (
            Submission::Finished,
            Action::Finish(Err(SubmitError::ConfirmationError)),
        ),
        PollAction::Nothing => (Submission::Confirming { tx_hash, poller }, Action::Nothing),
    }
}

impl Submission {
    /// A submission of these messages with this fee and memo. With
    /// `wait_ms` it polls for confirmation that long, in milliseconds;
    /// without, it ends with the node's acknowledgment.
    pub fn new(messages: Vec<Msg>, fee: Fee, memo: &str, wait_ms: Option<u64>) -> (s: Submission)
        ensures
            s matches Submission::AwaitingAccount { messages: m, fee: f, memo: t, wait_ms: w }
                && m == messages && f == fee && t@ == memo@ && w == wait_ms,
    {
        Submission::AwaitingAccount { messages, fee, memo: String::from_str(memo), wait_ms }
    }

    /// The submission that delegates `amount` from `delegator` to
    /// `validator`, for the fee `fee` at the default gas limit.
    pub fn delegate(
        delegator: &str,
        validator: &str,
        amount: &Coin,
        fee: Coin,
        memo: &str,
        wait_ms: Option<u64>,
    ) -> (s: Submission)
        ensures
            s matches Submission::AwaitingAccount { messages: m, fee: f, memo: t, wait_ms: w }
                && msgs_view(m@) == seq![
                MsgView {
                    type_url: DELEGATE_TYPE_URL@,
                    value: delegation_encoding(delegator@, validator@, amount@),
                },
            ] && f@ == (FeeView {
                amount: seq![fee@],
                gas_limit: DEFAULT_GAS_LIMIT,
                granter: None,
                payer: None,
            }) && t@ == memo@ && w == wait_ms,
    {
        let mut messages: Vec<Msg> = Vec::new();
        messages.push(Msg::delegate(delegator, validator, amount));
        assert(msgs_view(messages@) =~= seq![messages@[0]@]);
        Submission::new(messages, Fee::with_default_gas(fee), memo, wait_ms)
    }

    /// Takes one event and says where the submission goes on and what its
    /// driver is to do next.
    pub fn step(self, event: Event) -> (out: (Submission, Action))
        ensures
            steps(self, event, out.0, out.1),
    {
        match (self, event) {
            (
                Submission::AwaitingAccount { messages, fee, memo, wait_ms },
                Event::Account(account),
            ) => {
                match assemble(&messages, &fee, &account, memo.as_str()) {
                    Ok(envelope) => {
                        let sign_bytes: Vec<u8> = envelope.sign_bytes().clone();
                        (
                            Submission::AwaitingSignature { envelope, wait_ms },
                            Action::Sign { sign_bytes },
                        )
                    },
                    Err(e) => (Submission::Finished, Action::Finish(Err(refuse(e)))),
                }
            },
            (Submission::AwaitingAccount { .. }, Event::ChannelFailed) => (
                Submission::Finished,
                Action::Finish(Err(SubmitError::ChannelError)),
            ),
            (Submission::AwaitingSignature { envelope, wait_ms }, Event::Signature(signature)) => {
                let tx_bytes: Vec<u8> = envelope.seal(&signature).as_bytes().clone();
                (
                    Submission::AwaitingAck { wait_ms },
                    Action::Broadcast { tx_bytes, mode: BROADCAST_MODE_SYNC },
                )
            },
            (Submission::AwaitingSignature { .. }, Event::SigningFailed) => (
                Submission::Finished,
                Action::Finish(Err(SubmitError::SigningError)),
            ),
            (Submission::AwaitingAck { wait_ms }, Event::Acknowledged(ack)) => {
                match (judge_ack(ack), wait_ms) {
                    (Ok(result), Some(deadline_ms)) => (
                        Submission::Confirming {
                            tx_hash: result.tx_hash,
                            poller: Poller::new(deadline_ms, DEFAULT_POLL_INTERVAL_MS),
                        },
                        Action::Wait { millis: 0 },
                    ),
                    (r, _) => (Submission::Finished, Action::Finish(r)),
                }
            },
            (Submission::AwaitingAck { .. }, Event::ChannelFailed) => (
                Submission::Finished,
                Action::Finish(Err(SubmitError::ChannelError)),
            ),
            (Submission::Confirming { tx_hash, poller }, Event::Clock { elapsed_ms }) => poll(
                tx_hash,
                poller,
                PollEvent::Clock { elapsed_ms },
            ),
            (Submission::Confirming { tx_hash, poller }, Event::Reply(lookup)) => poll(
                tx_hash,
                poller,
                PollEvent::Reply(lookup),
            ),
            (Submission::Confirming { tx_hash, poller }, Event::ChannelFailed) => poll(
                tx_hash,
                poller,
                PollEvent::Reply(Lookup::ChannelError),
            ),
            (s, _) => (s, Action::Nothing),
        }
    }
}

/// Nothing goes to the node unsigned: a broadcast follows a signature,
/// and carries the envelope that went out for signing, packaged with it.
pub proof fn lemma_broadcast_follows_signature(
    s: Submission,
    event: Event,
    next: Submission,
    action: Action,
)
    requires
        steps(s, event, next, action),
        action is Broadcast,
    ensures
        s is AwaitingSignature,
        event is Signature,
        action->tx_bytes@ == tx_raw_encoding(
            s->envelope@.body_bytes,
            s->envelope@.auth_info_bytes,
            event->Signature_0@,
        ),
{
}

/// A result comes from the node alone: a submission ends with one only on
/// an acknowledgment that it need not wait on, or on a reply that holds
/// the transaction, and the result is the one that came.
pub proof fn lemma_result_comes_from_node(
    s: Submission,
    event: Event,
    next: Submission,
    action: Action,
    result: BroadcastResult,
)
    requires
        steps(s, event, next, action),
        action == Action::Finish(Ok(result)),
    ensures
        (s == (Submission::AwaitingAck { wait_ms: None }) && event == Event::Acknowledged(
            Some(result),
        )) || (s is Confirming && event == Event::Reply(Lookup::Found(result))),
{
}

/// A submission that has ended stays ended, whatever it is told.
pub proof fn lemma_finished_stays(event: Event, next: Submission, action: Action)
    requires
        steps(Submission::Finished, event, next, action),
    ensures
        next == Submission::Finished,
        action == Action::Nothing,
{
}

/// A submission that waits, is accepted by the node and is found on the
/// second query ends confirmed with what the node then reported. On the
/// way its driver signs once, broadcasts once in sync mode, asks twice for
/// the hash that the node acknowledged, and waits one interval between
/// the two queries.
pub proof fn lemma_accepted_then_found_is_confirmed(
    account: crate::envelope::AccountIdentity,
    signature: Vec<u8>,
    ack: BroadcastResult,
    found: BroadcastResult,
    second_reading: u64,
    stages: Seq<Submission>,
    actions: Seq<Action>,
)
    requires
        stages.len() == 8,
        actions.len() == 7,
        ({
            &&& stages[0] matches Submission::AwaitingAccount { messages, fee, wait_ms, .. }
            &&& messages.len() > 0
            &&& fee.gas_limit > 0
            &&& wait_ms matches Some(deadline_ms)
            &&& second_reading < deadline_ms
        }),
        ack.tx_hash@.len() > 0,
        quoted_fees(ack.raw_log@) is None,
        steps(stages[0], Event::Account(account), stages[1], actions[0]),
        steps(stages[1], Event::Signature(signature), stages[2], actions[1]),
        steps(stages[2], Event::Acknowledged(Some(ack)), stages[3], actions[2]),
        steps(stages[3], Event::Clock { elapsed_ms: 0 }, stages[4], actions[3]),
        steps(stages[4], Event::Reply(Lookup::NotFound), stages[5], actions[4]),
        steps(stages[5], Event::Clock { elapsed_ms: second_reading }, stages[6], actions[5]),
        steps(stages[6], Event::Reply(Lookup::Found(found)), stages[7], actions[6]),
    ensures
        actions[0] is Sign,
        actions[1] matches Action::Broadcast { mode, .. } && mode == BROADCAST_MODE_SYNC,
        actions[2] == (Action::Wait { millis: 0 }),
        actions[3] matches Action::Query { tx_hash } && tx_hash@ == ack.tx_hash@,
        actions[4] == (Action::Wait { millis: DEFAULT_POLL_INTERVAL_MS }),
        actions[5] matches Action::Query { tx_hash } && tx_hash@ == ack.tx_hash@,
        actions[6] == Action::Finish(Ok(found)),
        stages[7] == Submission::Finished,
{
    let messages = stages[0]->AwaitingAccount_messages;
    assert(msgs_view(messages@).len() == messages@.len());
}

} // verus!
