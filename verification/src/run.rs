//! A whole run: from the wallet list and the replies to the report, and what
//! holds of every run.

use crate::json::parsed;
use crate::reply::{balance_path, outcome_of, BalanceView, FetchErrorView, ReplyView};
use crate::report::{balance_line, failure_line, report_of, LineView, Stream};
use vstd::prelude::*;

verus! {

/// The outcomes of a run: what each wallet's reply means for it, in the
/// order of the wallet list.
pub open spec fn outcomes_of(wallets: Seq<Seq<char>>, replies: Seq<ReplyView>) -> Seq<
    Result<BalanceView, FetchErrorView>,
>
    recommends
        wallets.len() == replies.len(),
{
    Seq::new(wallets.len(), |i: int| outcome_of(wallets[i], replies[i]))
}

/// The report of a run.
pub open spec fn run_report(wallets: Seq<Seq<char>>, replies: Seq<ReplyView>) -> Seq<LineView>
    recommends
        wallets.len() == replies.len(),
{
    report_of(outcomes_of(wallets, replies))
}

/// Whether `reply` is a completed exchange whose body is a JSON document
/// with an unsigned integer at `result.value`.
pub open spec fn carries_balance(reply: ReplyView) -> bool {
    &&& reply matches ReplyView::Body(bytes)
    &&& parsed(bytes) matches Some(leaves)
    &&& leaves.contains_key(balance_path())
}

/// The balance that a reply carries.
pub open spec fn balance_carried(reply: ReplyView) -> u64
    recommends
        carries_balance(reply),
{
    parsed(reply->Body_0)->Some_0[balance_path()]
}

/// Whether `reply` is a completed exchange whose body is a JSON document
/// that has no unsigned integer at `result.value`: the member is absent,
/// or is negative, or is no integer at all.
pub open spec fn lacks_balance(reply: ReplyView) -> bool {
    &&& reply matches ReplyView::Body(bytes)
    &&& parsed(bytes) matches Some(leaves)
    &&& !leaves.contains_key(balance_path())
}

/// Whether `part` stands somewhere in `text`, unbroken.
pub open spec fn occurs_in(part: Seq<char>, text: Seq<char>) -> bool {
    exists|at: int|
        0 <= at && at + part.len() <= text.len() && #[trigger] text.subrange(
            at,
            at + part.len(),
        ) == part
}

/// Every reply is read to one of two ends: the balance that it carries,
/// under the wallet's own address, or a failure that names the wallet. A
/// balance is read only from a reply that carries one.
pub proof fn lemma_outcome_is_balance_or_failure(wallet: Seq<char>, reply: ReplyView)
    ensures
        carries_balance(reply) ==> outcome_of(wallet, reply) == Ok::<BalanceView, FetchErrorView>(
            BalanceView { wallet, lamports: balance_carried(reply) },
        ),
        !carries_balance(reply) ==> outcome_of(wallet, reply) is Err && outcome_of(
            wallet,
            reply,
        )->Err_0.wallet() == wallet,
        lacks_balance(reply) ==> outcome_of(wallet, reply) == Err::<BalanceView, FetchErrorView>(
            FetchErrorView::NoBalance { wallet },
        ),
{
}

/// A run reports one line for each wallet, in the order of the wallet
/// list, and the line of a wallet holds that wallet's address.
pub proof fn lemma_one_line_per_wallet(wallets: Seq<Seq<char>>, replies: Seq<ReplyView>)
    requires
        wallets.len() == replies.len(),
    ensures
        run_report(wallets, replies).len() == wallets.len(),
        forall|i: int|
            0 <= i < wallets.len() ==> occurs_in(
                wallets[i],
                (#[trigger] run_report(wallets, replies)[i]).text,
            ),
{
    let lines = run_report(wallets, replies);
    assert forall|i: int| 0 <= i < wallets.len() implies occurs_in(
        wallets[i],
        (#[trigger] lines[i]).text,
    ) by {
        let wallet = wallets[i];
        let text = lines[i].text;
        match outcome_of(wallet, replies[i]) {
            Ok(_) => {
                let at = "Wallet "@.len() as int;
                assert(text.subrange(at, at + wallet.len()) =~= wallet);
            },
            Err(FetchErrorView::Transport { .. }) => {
                let at = ("Error: "@ + "Request failed for "@).len() as int;
                assert(text.subrange(at, at + wallet.len()) =~= wallet);
            },
            Err(FetchErrorView::NotJson { .. }) => {
                let at = ("Error: "@ + "Failed to decode response for "@).len() as int;
                assert(text.subrange(at, at + wallet.len()) =~= wallet);
            },
            Err(FetchErrorView::NoBalance { .. }) => {
                let at = ("Error: "@ + "Failed to parse balance for "@).len() as int;
                assert(text.subrange(at, at + wallet.len()) =~= wallet);
            },
        }
    }
}

/// Where every reply carries a balance, the report holds nothing but
/// balance lines: for each wallet the line of its balance, in the order of
/// the wallet list.
pub proof fn lemma_balances_reported_in_order(wallets: Seq<Seq<char>>, replies: Seq<ReplyView>)
    requires
        wallets.len() == replies.len(),
        forall|i: int| 0 <= i < replies.len() ==> carries_balance(#[trigger] replies[i]),
    ensures
        run_report(wallets, replies).len() == wallets.len(),
        forall|i: int|
            0 <= i < wallets.len() ==> #[trigger] run_report(wallets, replies)[i] == balance_line(
                wallets[i],
                balance_carried(replies[i]),
            ),
{
}

/// A wallet whose reply lacks the balance gets the failure line that names
/// it, on the error stream, wherever in the list it stands.
pub proof fn lemma_missing_balance_reported(
    wallets: Seq<Seq<char>>,
    replies: Seq<ReplyView>,
    at: int,
)
    requires
        wallets.len() == replies.len(),
        0 <= at < wallets.len(),
        lacks_balance(replies[at]),
    ensures
        run_report(wallets, replies)[at] == failure_line(
            FetchErrorView::NoBalance { wallet: wallets[at] },
        ),
        run_report(wallets, replies)[at].stream == Stream::Stderr,
        run_report(wallets, replies)[at].text == "Error: "@ + ("Failed to parse balance for "@
            + wallets[at]),
{
}

/// The line of a wallet depends on that wallet and its own reply alone: two
/// runs that agree on both at one place report the same line there,
/// whatever the other wallets and replies are.
pub proof fn lemma_line_depends_on_own_reply(
    wallets: Seq<Seq<char>>,
    replies: Seq<ReplyView>,
    other_wallets: Seq<Seq<char>>,
    other_replies: Seq<ReplyView>,
    at: int,
)
    requires
        wallets.len() == replies.len(),
        other_wallets.len() == other_replies.len(),
        0 <= at < wallets.len(),
        at < other_wallets.len(),
        wallets[at] == other_wallets[at],
        replies[at] == other_replies[at],
    ensures
        run_report(wallets, replies)[at] == run_report(other_wallets, other_replies)[at],
{
}

/// A run over no wallets reports no line.
pub proof fn lemma_no_wallets_no_lines()
    ensures
        run_report(Seq::empty(), Seq::empty()) == Seq::<LineView>::empty(),
{
}

} // verus!
