//! The JSON-RPC call that asks for one wallet's balance.

use vstd::prelude::*;

verus! {

/// The endpoint that every request is posted to.
pub const ENDPOINT: &'static str = "https://api.mainnet-beta.solana.com";

/// The body of a JSON-RPC call, field by field.
#[derive(Debug, Clone, PartialEq, Eq)]
pub struct RpcRequest {
    pub jsonrpc: String,
    pub id: u64,
    pub method: String,
    pub params: Vec<String>,
}

/// An `RpcRequest` as contracts see it.
pub struct RpcRequestView {
    pub jsonrpc: Seq<char>,
    pub id: u64,
    pub method: Seq<char>,
    pub params: Seq<Seq<char>>,
}

impl View for RpcRequest {
    type V = RpcRequestView;

    open spec fn view(&self) -> RpcRequestView {
        RpcRequestView {
            jsonrpc: self.jsonrpc@,
            id: self.id,
            method: self.method@,
            params: self.params.deep_view(),
        }
    }
}

/// The call that asks for the balance of `wallet`: protocol version 2.0,
/// request number 1, method `getBalance`, and the wallet as the only
/// parameter.
pub open spec fn balance_call(wallet: Seq<char>) -> RpcRequestView {
    RpcRequestView { jsonrpc: "2.0"@, id: 1, method: "getBalance"@, params: seq![wallet] }
}

/// Builds the request for the balance of `wallet`.
pub fn balance_request(wallet: &str) -> (request: RpcRequest)
    ensures
        request@ == balance_call(wallet@),
{
    let mut params: Vec<String> = Vec::new();
    params.push(wallet.to_owned());
    let request = RpcRequest {
        jsonrpc: String::from_str("2.0"),
        id: 1,
        method: String::from_str("getBalance"),
        params,
    };
    assert(request.params.deep_view() =~= seq![wallet@]);
    request
}

} // verus!
