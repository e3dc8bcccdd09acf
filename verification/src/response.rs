//! The node's acknowledgment of a broadcast, and the one rejection in it
//! that a caller can act on: a fee below the minimum the node asks for.

use crate::coin::{
    coin_of, coins_view, is_denom, is_denom_char, lemma_coin_of_written, parse_coin_in, Coin,
    CoinView,
};
use crate::text::{
    chars_of, contains, decimal, field, find, find_field, has_infix, index_of, is_digit,
    lemma_index_of, occurs_at,
};
use vstd::prelude::*;

verus! {

/// A key and a value that the node emitted while handling a transaction.
#[derive(Clone, Debug, PartialEq, Eq)]
pub struct EventAttribute {
    pub key: String,
    pub value: String,
}

/// What a node reports of a transaction. After a broadcast it says that
/// the node took the transaction into its pending pool, or turned it
/// down; it does not say that the transaction is final.
#[derive(Clone, Debug, PartialEq, Eq)]
pub struct BroadcastResult {
    pub tx_hash: String,
    pub code: u32,
    pub raw_log: String,
    pub attributes: Vec<EventAttribute>,
    /// The block that holds the transaction; zero before it is included.
    pub height: i64,
    pub gas_wanted: i64,
    pub gas_used: i64,
}

/// The minimum fee that a node quoted when it turned a transaction down.
#[derive(Clone, Debug, PartialEq, Eq)]
pub struct FeeInfo {
    pub min_fees: Vec<Coin>,
}

/// A rejection for too small a fee. The caller may assemble the
/// transaction again with the quoted fee and submit that.
#[derive(Clone, Debug, PartialEq, Eq)]
pub enum FeeError {
    InsufficientFees { fee_info: FeeInfo },
}

/// The words by which a node's log tells that the fee was too small.
pub open spec fn fee_marker() -> Seq<char> {
    "insufficient fee"@
}

/// The coins that `text` lists: of its items between commas, in order,
/// those that write a coin.
pub open spec fn coins_in(text: Seq<char>) -> Seq<CoinView>
    decreases text.len(),
{
    let cut: int = index_of(text, ',') as int;
    let head = match coin_of(text.take(cut)) {
        Some(c) => seq![c],
        None => seq![],
    };
    if cut >= text.len() {
        head
    } else {
        head + coins_in(text.skip(cut + 1))
    }
}

/// The minimum fee that `log` quotes, if `log` is a rejection for too small
/// a fee: it holds the marker, and the third of its items between colons
/// lists the coins asked for, as in
/// `insufficient fee, got: 10ucoin, required: 20ucoin`.
pub open spec fn quoted_fees(log: Seq<char>) -> Option<Seq<CoinView>> {
    if has_infix(log, fee_marker()) {
        match field(log, ':', 2) {
            Some(quote) => Some(coins_in(quote)),
            None => None,
        }
    } else {
        None
    }
}

/// Reads the coins that `chars[from..to]` lists; `text` holds the same
/// characters as `chars`.
fn read_coins(text: &str, chars: &Vec<char>, from: usize, to: usize) -> (coins: Vec<Coin>)
    requires
        chars@ == text@,
        from <= to <= chars.len(),
    ensures
        coins_view(coins@) == coins_in(chars@.subrange(from as int, to as int)),
{
    let mut coins: Vec<Coin> = Vec::new();
    let mut pos: usize = from;
    loop
        invariant
            chars@ == text@,
            from <= pos <= to <= chars.len(),
            coins_in(chars@.subrange(from as int, to as int)) == coins_view(coins@) + coins_in(
                chars@.subrange(pos as int, to as int),
            ),
        decreases to - pos,
    {
        let ghost rest = chars@.subrange(pos as int, to as int);
        let ghost before = coins_view(coins@);
        let cut: usize = find(chars, ',', pos, to);
        assert(rest.take(cut - pos) =~= chars@.subrange(pos as int, cut as int));
        match parse_coin_in(text, chars, pos, cut) {
            Some(c) => {
                coins.push(c);
                assert(coins_view(coins@) =~= before + seq![c@]);
            },
            None => {
                assert(coins_view(coins@) =~= before + Seq::<CoinView>::empty());
            },
        }
        if cut >= to {
            return coins;
        }
        proof {
            let tail = chars@.subrange(cut as int + 1, to as int);
            assert(rest.skip(cut - pos + 1) =~= tail);
            let head = match coin_of(rest.take(cut - pos)) {
                Some(c) => seq![c],
                None => seq![],
            };
            assert(before + (head + coins_in(tail)) =~= (before + head) + coins_in(tail));
        }
        pos = cut + 1;
    }
}

/// Looks in a node's log for the quote of a minimum fee.
pub fn min_fee_quote(raw_log: &str) -> (r: Option<FeeInfo>)
    ensures
        match r {
            Some(info) => quoted_fees(raw_log@) == Some(coins_view(info.min_fees@)),
            None => quoted_fees(raw_log@) is None,
        },
{
    let chars: Vec<char> = chars_of(raw_log);
    let marker: Vec<char> = chars_of("insufficient fee");
    if !contains(&chars, &marker) {
        return None;
    }
    match find_field(&chars, ':', 2) {
        Some((from, to)) => Some(FeeInfo { min_fees: read_coins(raw_log, &chars, from, to) }),
        None => None,
    }
}

/// Judges the node's acknowledgment: a rejection for too small a fee
/// becomes an error that carries the quoted minimum; every other result,
/// whatever its code, is handed back as it came.
pub fn validate(result: BroadcastResult) -> (r: Result<BroadcastResult, FeeError>)
    ensures
        match r {
            Ok(passed) => passed == result && quoted_fees(result.raw_log@) is None,
            Err(FeeError::InsufficientFees { fee_info }) => quoted_fees(result.raw_log@) == Some(
                coins_view(fee_info.min_fees@),
            ),
        },
{
    match min_fee_quote(result.raw_log.as_str()) {
        Some(fee_info) => Err(FeeError::InsufficientFees { fee_info }),
        None => Ok(result),
    }
}

/// In a log of three items between colons that holds the marker, the
/// third item is the quote.
pub proof fn lemma_third_item_is_quote(first: Seq<char>, second: Seq<char>, third: Seq<char>)
    requires
        forall|i: int| 0 <= i < first.len() ==> first[i] != ':',
        forall|i: int| 0 <= i < second.len() ==> second[i] != ':',
        forall|i: int| 0 <= i < third.len() ==> third[i] != ':',
        has_infix(first + seq![':'] + second + seq![':'] + third, fee_marker()),
    ensures
        quoted_fees(first + seq![':'] + second + seq![':'] + third) == Some(coins_in(third)),
{
    let log = first + seq![':'] + second + seq![':'] + third;
    let tail = second + seq![':'] + third;
    lemma_index_of(log, ':', first.len() as int);
    assert(log.skip(first.len() as int + 1) =~= tail);
    lemma_index_of(tail, ':', second.len() as int);
    assert(tail.skip(second.len() as int + 1) =~= third);
    lemma_index_of(third, ':', third.len() as int);
    assert(third.take(third.len() as int) =~= third);
    assert(field(third, ':', 0) == Some(third));
    assert(field(tail, ':', 1) == Some(third));
    assert(field(log, ':', 2) == Some(third));
}

/// The log by which a node turns a transaction down for its fee: it
/// spells `insufficient fee, got: `, what was offered, `, required: `, and
/// the coin that is asked for.
pub open spec fn fee_rejection_log(offered: Seq<char>, amount: Seq<char>, denom: Seq<char>) -> Seq<
    char,
> {
    "insufficient fee, got: "@ + offered + ", required: "@ + amount + denom
}

/// A log of the known form quotes the coin that it asks for: whatever was
/// offered, the quote is the one coin of the amount and denomination that
/// stand after `required: `.
pub proof fn lemma_known_rejection_quotes_required_fee(
    offered: Seq<char>,
    amount: Seq<char>,
    denom: Seq<char>,
)
    requires
        forall|i: int| 0 <= i < offered.len() ==> offered[i] != ':',
        amount.len() > 0,
        forall|i: int| 0 <= i < amount.len() ==> is_digit(amount[i]),
        decimal(amount) <= u128::MAX,
        is_denom(denom),
    ensures
        quoted_fees(fee_rejection_log(offered, amount, denom)) == Some(
            seq![CoinView { amount: decimal(amount), denom }],
        ),
{
    reveal_strlit("insufficient fee, got: ");
    reveal_strlit("insufficient fee, got");
    reveal_strlit(", required: ");
    reveal_strlit(", required");
    reveal_strlit("insufficient fee");
    let first = "insufficient fee, got"@;
    let second = seq![' '] + offered + ", required"@;
    let third = seq![' '] + amount + denom;
    let log = fee_rejection_log(offered, amount, denom);
    assert("insufficient fee, got: "@ =~= first + seq![':'] + seq![' ']);
    assert(", required: "@ =~= ", required"@ + seq![':'] + seq![' ']);
    assert(log =~= first + seq![':'] + second + seq![':'] + third);
    assert(log.subrange(0, 16) =~= fee_marker());
    assert(occurs_at(log, fee_marker(), 0));
    assert forall|i: int| 0 <= i < third.len() implies third[i] != ':' && third[i] != ',' by {
        if i >= 1 + amount.len() {
            assert(third[i] == denom[i - 1 - amount.len()]);
            assert(is_denom_char(denom[i - 1 - amount.len()]));
        } else if i >= 1 {
            assert(third[i] == amount[i - 1]);
        }
    }
    lemma_third_item_is_quote(first, second, third);
    lemma_index_of(third, ',', third.len() as int);
    assert(third.take(third.len() as int) =~= third);
    lemma_coin_of_written(seq![' '], amount, denom);
}

} // verus!
