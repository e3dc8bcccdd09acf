use cosmos_sdk_proto::cosmos::tx::v1beta1::{AuthInfo, SignDoc, TxBody, TxRaw};
use cosmos_sdk_proto::traits::Message;
use cosmos_submit::coin::Coin;
use cosmos_submit::envelope::AccountIdentity;
use cosmos_submit::fee::Fee;
use cosmos_submit::msg::Msg;
use cosmos_submit::poller::{Lookup, DEFAULT_POLL_INTERVAL_MS};
use cosmos_submit::response::{BroadcastResult, FeeInfo};
use cosmos_submit::submit::{
    judge_ack, Action, Event, Submission, SubmitError, BROADCAST_MODE_SYNC,
};

fn coin(amount: u128, denom: &str) -> Coin {
    Coin { amount, denom: denom.to_string() }
}

fn account(sequence: u64) -> AccountIdentity {
    AccountIdentity {
        address: "cosmos1del".to_string(),
        public_key: vec![3, 1, 4, 1, 5],
        account_number: 9,
        sequence,
        chain_id: "testnet-1".to_string(),
    }
}

fn result_of(tx_hash: &str, code: u32, raw_log: &str, height: i64) -> BroadcastResult {
    BroadcastResult {
        tx_hash: tx_hash.to_string(),
        code,
        raw_log: raw_log.to_string(),
        attributes: Vec::new(),
        height,
        gas_wanted: 500_000,
        gas_used: if height > 0 { 90_000 } else { 0 },
    }
}

/// A node and a signer that answer by script.
struct Script {
    account: Option<AccountIdentity>,
    signature: Option<Vec<u8>>,
    ack: Result<Option<BroadcastResult>, ()>,
    replies: Vec<Lookup>,
}

struct Run {
    outcome: Result<BroadcastResult, SubmitError>,
    signed: Vec<Vec<u8>>,
    broadcast: Vec<(Vec<u8>, i32)>,
    asked: Vec<String>,
    waits: Vec<u64>,
    last: Submission,
}

fn drive(mut submission: Submission, script: Script) -> Run {
    let mut run = Run {
        outcome: Err(SubmitError::ChannelError),
        signed: Vec::new(),
        broadcast: Vec::new(),
        asked: Vec::new(),
        waits: Vec::new(),
        last: Submission::Finished,
    };
    let mut clock: u64 = 0;
    let mut event = match script.account.clone() {
        Some(account) => Event::Account(account),
        None => Event::ChannelFailed,
    };
    loop {
        let (next, action) = submission.step(event);
        submission = next;
        event = match action {
            Action::Sign { sign_bytes } => {
                run.signed.push(sign_bytes);
                match script.signature.clone() {
                    Some(signature) => Event::Signature(signature),
                    None => Event::SigningFailed,
                }
            }
            Action::Broadcast { tx_bytes, mode } => {
                run.broadcast.push((tx_bytes, mode));
                match script.ack.clone() {
                    Ok(ack) => Event::Acknowledged(ack),
                    Err(()) => Event::ChannelFailed,
                }
            }
            Action::Wait { millis } => {
                run.waits.push(millis);
                clock += millis;
                Event::Clock { elapsed_ms: clock }
            }
            Action::Query { tx_hash } => {
                let reply = script.replies.get(run.asked.len()).cloned().unwrap_or(Lookup::NotFound);
                run.asked.push(tx_hash);
                Event::Reply(reply)
            }
            Action::Finish(outcome) => {
                run.outcome = outcome;
                run.last = submission;
                return run;
            }
            Action::Nothing => panic!("the driver reported an event out of turn"),
        };
    }
}

fn delegation(wait_ms: Option<u64>) -> Submission {
    Submission::delegate("cosmos1del", "val1", &coin(100, "uatom"), coin(10, "uatom"), "", wait_ms)
}

fn accepting(replies: Vec<Lookup>) -> Script {
    Script {
        account: Some(account(5)),
        signature: Some(vec![0x5A; 64]),
        ack: Ok(Some(result_of("H1", 0, "[]", 0))),
        replies,
    }
}

#[test]
fn delegation_is_confirmed_on_the_second_poll() {
    let wait = 5 * DEFAULT_POLL_INTERVAL_MS;
    let replies = vec![Lookup::NotFound, Lookup::Found(result_of("H1", 0, "[]", 77))];
    let run = drive(delegation(Some(wait)), accepting(replies));
    let confirmed = run.outcome.unwrap();
    assert_eq!(confirmed.tx_hash, "H1");
    assert_eq!(confirmed, result_of("H1", 0, "[]", 77));
    assert_eq!(run.asked, vec!["H1".to_string(), "H1".to_string()]);
    assert_eq!(run.waits, vec![0, DEFAULT_POLL_INTERVAL_MS]);
    assert_eq!(run.last, Submission::Finished);

    assert_eq!(run.signed.len(), 1);
    let sign_doc = SignDoc::decode(run.signed[0].as_slice()).unwrap();
    assert_eq!(sign_doc.chain_id, "testnet-1");
    assert_eq!(sign_doc.account_number, 9);
    let auth_info = AuthInfo::decode(sign_doc.auth_info_bytes.as_slice()).unwrap();
    assert_eq!(auth_info.signer_infos[0].sequence, 5);
    let fee = auth_info.fee.unwrap();
    assert_eq!(fee.gas_limit, 500_000);
    assert_eq!(fee.amount.len(), 1);
    assert_eq!(fee.amount[0].amount, "10");
    assert_eq!(fee.amount[0].denom, "uatom");
    let body = TxBody::decode(sign_doc.body_bytes.as_slice()).unwrap();
    let sent = Msg::delegate("cosmos1del", "val1", &coin(100, "uatom"));
    assert_eq!(body.messages.len(), 1);
    assert_eq!(body.messages[0].type_url, sent.type_url);
    assert_eq!(body.messages[0].value, sent.value);

    assert_eq!(run.broadcast.len(), 1);
    assert_eq!(run.broadcast[0].1, 2);
    assert_eq!(run.broadcast[0].1, BROADCAST_MODE_SYNC);
    let raw = TxRaw::decode(run.broadcast[0].0.as_slice()).unwrap();
    assert_eq!(raw.body_bytes, sign_doc.body_bytes);
    assert_eq!(raw.auth_info_bytes, sign_doc.auth_info_bytes);
    assert_eq!(raw.signatures, vec![vec![0x5A; 64]]);
}

#[test]
fn without_a_wait_the_acknowledgment_is_the_outcome() {
    let run = drive(delegation(None), accepting(vec![Lookup::Found(result_of("H1", 0, "", 5))]));
    assert_eq!(run.outcome, Ok(result_of("H1", 0, "[]", 0)));
    assert!(run.asked.is_empty());
    assert!(run.waits.is_empty());
}

#[test]
fn another_failure_code_is_handed_to_the_caller() {
    let mut script = accepting(Vec::new());
    script.ack = Ok(Some(result_of("H1", 32, "account sequence mismatch, expected 6, got 5", 0)));
    let run = drive(delegation(None), script);
    assert_eq!(
        run.outcome,
        Ok(result_of("H1", 32, "account sequence mismatch, expected 6, got 5", 0))
    );
}

#[test]
fn ends_with_empty_message_set() {
    let fee = Fee::with_default_gas(coin(10, "uatom"));
    let run = drive(Submission::new(Vec::new(), fee, "", None), accepting(Vec::new()));
    assert_eq!(run.outcome, Err(SubmitError::EmptyMessageSet));
    assert!(run.signed.is_empty() && run.broadcast.is_empty());
}

#[test]
fn ends_with_invalid_fee() {
    let fee = Fee { amount: vec![coin(10, "uatom")], gas_limit: 0, granter: None, payer: None };
    let messages = vec![Msg::new("/t", vec![1])];
    let run = drive(Submission::new(messages, fee, "", None), accepting(Vec::new()));
    assert_eq!(run.outcome, Err(SubmitError::InvalidFee));
    assert!(run.signed.is_empty() && run.broadcast.is_empty());
}

#[test]
fn ends_with_channel_error_when_the_account_cannot_be_fetched() {
    let mut script = accepting(Vec::new());
    script.account = None;
    let run = drive(delegation(Some(5_000)), script);
    assert_eq!(run.outcome, Err(SubmitError::ChannelError));
    assert!(run.signed.is_empty());
}

#[test]
fn ends_with_signing_error() {
    let mut script = accepting(Vec::new());
    script.signature = None;
    let run = drive(delegation(Some(5_000)), script);
    assert_eq!(run.outcome, Err(SubmitError::SigningError));
    assert_eq!(run.signed.len(), 1);
    assert!(run.broadcast.is_empty());
}

#[test]
fn ends_with_channel_error_when_the_broadcast_fails() {
    let mut script = accepting(Vec::new());
    script.ack = Err(());
    let run = drive(delegation(Some(5_000)), script);
    assert_eq!(run.outcome, Err(SubmitError::ChannelError));
    assert_eq!(run.broadcast.len(), 1);
    assert!(run.asked.is_empty());
}

#[test]
fn ends_with_malformed_response() {
    let mut script = accepting(Vec::new());
    script.ack = Ok(None);
    let run = drive(delegation(Some(5_000)), script);
    assert_eq!(run.outcome, Err(SubmitError::MalformedResponse));
    assert!(run.asked.is_empty());
}

#[test]
fn ends_with_insufficient_fees() {
    let mut script = accepting(Vec::new());
    script.ack =
        Ok(Some(result_of("H1", 13, "insufficient fee, got: 10uatom, required: 25uatom", 0)));
    let run = drive(delegation(Some(5_000)), script);
    assert_eq!(
        run.outcome,
        Err(SubmitError::InsufficientFees { fee_info: FeeInfo { min_fees: vec![coin(25, "uatom")] } })
    );
    assert!(run.asked.is_empty());
}

#[test]
fn ends_with_confirmation_timeout() {
    let run = drive(delegation(Some(2 * DEFAULT_POLL_INTERVAL_MS)), accepting(Vec::new()));
    assert_eq!(run.outcome, Err(SubmitError::ConfirmationTimeout));
    assert_eq!(run.asked.len(), 2);
    assert_eq!(run.waits, vec![0, 1_000, 1_000]);
}

#[test]
fn ends_with_confirmation_error() {
    let replies = vec![Lookup::NotFound, Lookup::ChannelError];
    let run = drive(delegation(Some(60_000)), accepting(replies));
    assert_eq!(run.outcome, Err(SubmitError::ConfirmationError));
    assert_eq!(run.asked.len(), 2);
}

#[test]
fn a_failed_query_may_be_reported_as_a_failed_channel() {
    let confirming = Submission::AwaitingAck { wait_ms: Some(5_000) };
    let (confirming, action) =
        confirming.step(Event::Acknowledged(Some(result_of("H1", 0, "", 0))));
    assert_eq!(action, Action::Wait { millis: 0 });
    let (confirming, action) = confirming.step(Event::Clock { elapsed_ms: 0 });
    assert_eq!(action, Action::Query { tx_hash: "H1".to_string() });
    let (last, action) = confirming.step(Event::ChannelFailed);
    assert_eq!(action, Action::Finish(Err(SubmitError::ConfirmationError)));
    assert_eq!(last, Submission::Finished);
}

#[test]
fn submission_ignores_events_out_of_turn() {
    let fresh = delegation(None);
    let (same, action) = fresh.clone().step(Event::Signature(vec![1]));
    assert_eq!(action, Action::Nothing);
    assert_eq!(same, fresh);
    let (same, action) = fresh.clone().step(Event::Clock { elapsed_ms: 0 });
    assert_eq!(action, Action::Nothing);
    assert_eq!(same, fresh);
    let (signing, _) = fresh.step(Event::Account(account(5)));
    let (same, action) = signing.clone().step(Event::Account(account(6)));
    assert_eq!(action, Action::Nothing);
    assert_eq!(same, signing);
    let (same, action) = signing.clone().step(Event::ChannelFailed);
    assert_eq!(action, Action::Nothing);
    assert_eq!(same, signing);
    let (done, action) = Submission::Finished.step(Event::ChannelFailed);
    assert_eq!(action, Action::Nothing);
    assert_eq!(done, Submission::Finished);
}

#[test]
fn acknowledgment_without_a_result_is_malformed() {
    assert_eq!(judge_ack(None), Err(SubmitError::MalformedResponse));
}

#[test]
fn acknowledgment_without_a_hash_is_malformed() {
    assert_eq!(judge_ack(Some(result_of("", 0, "[]", 0))), Err(SubmitError::MalformedResponse));
    assert_eq!(
        judge_ack(Some(result_of("", 13, "insufficient fee, got: 1x, required: 2x", 0))),
        Err(SubmitError::MalformedResponse)
    );
}

#[test]
fn acknowledgment_is_judged_for_its_fee() {
    assert_eq!(
        judge_ack(Some(result_of("H1", 13, "insufficient fee, got: 1x, required: 2x", 0))),
        Err(SubmitError::InsufficientFees { fee_info: FeeInfo { min_fees: vec![coin(2, "x")] } })
    );
    assert_eq!(judge_ack(Some(result_of("H1", 4, "unauthorized", 0))), Ok(result_of("H1", 4, "unauthorized", 0)));
}
