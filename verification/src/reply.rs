//! Reading the reply to one balance request.

use crate::json::{holds, member, parse_document, parsed, under, unsigned_at};
use vstd::prelude::*;

verus! {

/// What came back for one request.
#[derive(Debug, Clone, PartialEq, Eq)]
pub enum Reply {
    /// The exchange completed. These are the bytes of the response body,
    /// whatever the status line said.
    Body(Vec<u8>),
    /// The exchange did not complete. This is the transport's own account
    /// of what went wrong.
    Failed(String),
}

/// A `Reply` as contracts see it.
pub enum ReplyView {
    Body(Seq<u8>),
    Failed(Seq<char>),
}

impl View for Reply {
    type V = ReplyView;

    open spec fn view(&self) -> ReplyView {
        match self {
            Reply::Body(bytes) => ReplyView::Body(bytes@),
            Reply::Failed(reason) => ReplyView::Failed(reason@),
        }
    }
}

/// The balance of one wallet, in lamports.
#[derive(Debug, Clone, PartialEq, Eq)]
pub struct Balance {
    pub wallet: String,
    pub lamports: u64,
}

/// A `Balance` as contracts see it.
pub struct BalanceView {
    pub wallet: Seq<char>,
    pub lamports: u64,
}

impl View for Balance {
    type V = BalanceView;

    open spec fn view(&self) -> BalanceView {
        BalanceView { wallet: self.wallet@, lamports: self.lamports }
    }
}

/// Why no balance could be had for a wallet. Every variant names the wallet.
#[derive(Debug, Clone, PartialEq, Eq)]
pub enum FetchError {
    /// The exchange with the endpoint did not complete.
    Transport { wallet: String, reason: String },
    /// The response body is not a JSON document.
    NotJson { wallet: String },
    /// The document has no unsigned integer at `result.value`.
    NoBalance { wallet: String },
}

/// A `FetchError` as contracts see it.
pub enum FetchErrorView {
    Transport { wallet: Seq<char>, reason: Seq<char> },
    NotJson { wallet: Seq<char> },
    NoBalance { wallet: Seq<char> },
}

impl View for FetchError {
    type V = FetchErrorView;

    open spec fn view(&self) -> FetchErrorView {
        match self {
            FetchError::Transport { wallet, reason } => FetchErrorView::Transport {
                wallet: wallet@,
                reason: reason@,
            },
            FetchError::NotJson { wallet } => FetchErrorView::NotJson { wallet: wallet@ },
            FetchError::NoBalance { wallet } => FetchErrorView::NoBalance { wallet: wallet@ },
        }
    }
}

impl FetchErrorView {
    /// The wallet that the failure is about.
    pub open spec fn wallet(self) -> Seq<char> {
        match self {
            FetchErrorView::Transport { wallet, .. } => wallet,
            FetchErrorView::NotJson { wallet } => wallet,
            FetchErrorView::NoBalance { wallet } => wallet,
        }
    }

    /// The failure in words. The wallet's address stands in it unchanged.
    pub open spec fn message(self) -> Seq<char> {
        match self {
            FetchErrorView::Transport { wallet, reason } => "Request failed for "@ + wallet
                + ": "@ + reason,
            FetchErrorView::NotJson { wallet } => "Failed to decode response for "@ + wallet,
            FetchErrorView::NoBalance { wallet } => "Failed to parse balance for "@ + wallet,
        }
    }
}

impl FetchError {
    /// The failure in words.
    pub fn message(&self) -> (text: String)
        ensures
            text@ == self@.message(),
    {
        match self {
            FetchError::Transport { wallet, reason } => {
                let mut text: String = String::from_str("Request failed for ");
                text.append(wallet.as_str());
                text.append(": ");
                text.append(reason.as_str());
                text
            },
            FetchError::NotJson { wallet } => {
                let mut text: String = String::from_str("Failed to decode response for ");
                text.append(wallet.as_str());
                text
            },
            FetchError::NoBalance { wallet } => {
                let mut text: String = String::from_str("Failed to parse balance for ");
                text.append(wallet.as_str());
                text
            },
        }
    }
}

/// How the reading of one reply ended, as contracts see it.
pub open spec fn outcome_view(outcome: Result<Balance, FetchError>) -> Result<
    BalanceView,
    FetchErrorView,
> {
    match outcome {
        Ok(balance) => Ok(balance@),
        Err(error) => Err(error@),
    }
}

/// Where the balance stands in a response: under `result`, then `value`.
pub open spec fn balance_path() -> Seq<Seq<char>> {
    seq!["result"@, "value"@]
}

/// Looks up the balance in a response document: the member `value` of the
/// member `result`, where that is an unsigned integer.
pub fn balance_in(doc: &serde_json::Value) -> (found: Option<u64>)
    ensures
        found == unsigned_at(*doc).get(balance_path()),
{
    let ghost top = unsigned_at(*doc);
    assert(seq!["result"@] + seq!["value"@] =~= balance_path());
    match member(doc, "result") {
        None => {
            assert(!under(top, "result"@).contains_key(seq!["value"@]));
            None
        },
        Some(result) => {
            let ghost mid = unsigned_at(*result);
            match member(result, "value") {
                None => {
                    assert(!under(mid, "value"@).contains_key(Seq::<Seq<char>>::empty()));
                    None
                },
                Some(value) => value.as_u64(),
            }
        },
    }
}

/// What a lookup that found `found` means for `wallet`.
pub open spec fn settled(wallet: Seq<char>, found: Option<u64>) -> Result<
    BalanceView,
    FetchErrorView,
> {
    match found {
        Some(lamports) => Ok(BalanceView { wallet, lamports }),
        None => Err(FetchErrorView::NoBalance { wallet }),
    }
}

/// Turns the outcome of a lookup into the wallet's balance, or into the
/// failure that names the wallet.
pub fn settle(wallet: &str, found: Option<u64>) -> (outcome: Result<Balance, FetchError>)
    ensures
        outcome_view(outcome) == settled(wallet@, found),
{
    match found {
        Some(lamports) => Ok(Balance { wallet: wallet.to_owned(), lamports }),
        None => Err(FetchError::NoBalance { wallet: wallet.to_owned() }),
    }
}

/// What a body that `serde_json` read as `document` means for `wallet`.
pub open spec fn read(wallet: Seq<char>, document: Option<Map<Seq<Seq<char>>, u64>>) -> Result<
    BalanceView,
    FetchErrorView,
> {
    match document {
        Some(leaves) => settled(wallet, leaves.get(balance_path())),
        None => Err(FetchErrorView::NotJson { wallet }),
    }
}

/// Reads what `serde_json` made of a response body: the balance, where the
/// body was a JSON document with an unsigned integer at `result.value`, and
/// else the failure that says which of the two was not so.
pub fn read_document(
    wallet: &str,
    document: Result<serde_json::Value, serde_json::Error>,
) -> (outcome: Result<Balance, FetchError>)
    ensures
        outcome_view(outcome) == read(wallet@, holds(document)),
{
    match document {
        Ok(doc) => settle(wallet, balance_in(&doc)),
        Err(_) => Err(FetchError::NotJson { wallet: wallet.to_owned() }),
    }
}

/// What `reply` means for `wallet`.
pub open spec fn outcome_of(wallet: Seq<char>, reply: ReplyView) -> Result<
    BalanceView,
    FetchErrorView,
> {
    match reply {
        ReplyView::Body(bytes) => read(wallet, parsed(bytes)),
        ReplyView::Failed(reason) => Err(FetchErrorView::Transport { wallet, reason }),
    }
}

/// Reads the reply to the balance request for `wallet`.
///
/// A completed exchange gives the balance exactly when its body is a JSON
/// document with an unsigned integer at `result.value`. Every other reply
/// gives the failure that says which of the three things went wrong.
pub fn read_balance(wallet: &str, reply: &Reply) -> (outcome: Result<Balance, FetchError>)
    ensures
        outcome_view(outcome) == outcome_of(wallet@, reply@),
{
    match reply {
        Reply::Failed(reason) => Err(
            FetchError::Transport { wallet: wallet.to_owned(), reason: reason.clone() },
        ),
        Reply::Body(bytes) => read_document(wallet, parse_document(bytes.as_slice())),
    }
}

} // verus!
