//! The lines of a run: one for each wallet, in the order of the wallet list.

use crate::decimal::{decimal, to_decimal};
use crate::reply::{outcome_view, Balance, BalanceView, FetchError, FetchErrorView};
use vstd::prelude::*;

verus! {

/// Where a line is written.
#[derive(Debug, Clone, Copy, PartialEq, Eq, Structural)]
pub enum Stream {
    /// Standard output: the balances.
    Stdout,
    /// Standard error: the failures.
    Stderr,
}

/// One line of the report, without its line end.
#[derive(Debug, Clone, PartialEq, Eq)]
pub struct Line {
    pub stream: Stream,
    pub text: String,
}

/// A `Line` as contracts see it.
pub struct LineView {
    pub stream: Stream,
    pub text: Seq<char>,
}

impl View for Line {
    type V = LineView;

    open spec fn view(&self) -> LineView {
        LineView { stream: self.stream, text: self.text@ }
    }
}

/// The line that reports the balance `lamports` of `wallet`.
pub open spec fn balance_line(wallet: Seq<char>, lamports: u64) -> LineView {
    LineView {
        stream: Stream::Stdout,
        text: "Wallet "@ + wallet + ": "@ + decimal(lamports as nat) + " lamports"@,
    }
}

/// The line that reports a failure.
pub open spec fn failure_line(error: FetchErrorView) -> LineView {
    LineView { stream: Stream::Stderr, text: "Error: "@ + error.message() }
}

/// The line that reports one outcome.
pub open spec fn line_for(outcome: Result<BalanceView, FetchErrorView>) -> LineView {
    match outcome {
        Ok(balance) => balance_line(balance.wallet, balance.lamports),
        Err(error) => failure_line(error),
    }
}

/// The lines that report a run's outcomes: the line of each, in order.
pub open spec fn report_of(outcomes: Seq<Result<BalanceView, FetchErrorView>>) -> Seq<LineView> {
    Seq::new(outcomes.len(), |i: int| line_for(outcomes[i]))
}

/// A run's outcomes as contracts see them.
pub open spec fn outcomes_view(outcomes: Seq<Result<Balance, FetchError>>) -> Seq<
    Result<BalanceView, FetchErrorView>,
> {
    Seq::new(outcomes.len(), |i: int| outcome_view(outcomes[i]))
}

/// A report's lines as contracts see them.
pub open spec fn lines_view(lines: Seq<Line>) -> Seq<LineView> {
    Seq::new(lines.len(), |i: int| lines[i]@)
}

/// Writes the line that reports one outcome.
pub fn render(outcome: &Result<Balance, FetchError>) -> (line: Line)
    ensures
        line@ == line_for(outcome_view(*outcome)),
{
    match outcome {
        Ok(balance) => {
            let mut text: String = String::from_str("Wallet ");
            text.append(balance.wallet.as_str());
            text.append(": ");
            text.append(to_decimal(balance.lamports).as_str());
            text.append(" lamports");
            Line { stream: Stream::Stdout, text }
        },
        Err(error) => {
            let mut text: String = String::from_str("Error: ");
            text.append(error.message().as_str());
            Line { stream: Stream::Stderr, text }
        },
    }
}

/// Writes the report of a run: for each outcome its line, in the order of
/// the outcomes.
pub fn report(outcomes: &Vec<Result<Balance, FetchError>>) -> (lines: Vec<Line>)
    ensures
        lines.len() == outcomes.len(),
        lines_view(lines@) == report_of(outcomes_view(outcomes@)),
{
    let mut lines: Vec<Line> = Vec::new();
    let mut i: usize = 0;
    while i < outcomes.len()
        invariant
            i <= outcomes.len(),
            lines.len() == i,
            forall|k: int| 0 <= k < i ==> (#[trigger] lines[k])@ == line_for(outcome_view(outcomes[k])),
        decreases outcomes.len() - i,
    {
        lines.push(render(&outcomes[i]));
        i += 1;
    }
    lines
}

} // verus!
