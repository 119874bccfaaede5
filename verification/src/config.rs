//! The wallet list that a run works through.

use crate::request::{balance_call, balance_request, RpcRequest};
use vstd::prelude::*;

verus! {

/// The configuration: wallet addresses, in the order in which they are
/// reported. An address may occur more than once.
#[derive(Debug, Clone, PartialEq, Eq)]
pub struct Config {
    pub wallets: Vec<String>,
}

impl View for Config {
    type V = Seq<Seq<char>>;

    open spec fn view(&self) -> Seq<Seq<char>> {
        self.wallets.deep_view()
    }
}

impl Config {
    /// The requests of a run: one for each wallet, in the order of the list.
    pub fn requests(&self) -> (requests: Vec<RpcRequest>)
        ensures
            requests.len() == self@.len(),
            forall|i: int|
                0 <= i < requests.len() ==> (#[trigger] requests[i])@ == balance_call(self@[i]),
    {
        let mut requests: Vec<RpcRequest> = Vec::new();
        let mut i: usize = 0;
        while i < self.wallets.len()
            invariant
                i <= self.wallets.len(),
                requests.len() == i,
                forall|k: int|
                    0 <= k < i ==> (#[trigger] requests[k])@ == balance_call(self@[k]),
            decreases self.wallets.len() - i,
        {
            requests.push(balance_request(self.wallets[i].as_str()));
            i += 1;
        }
        requests
    }
}

} // verus!
