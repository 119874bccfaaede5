//! Wallet balances over JSON-RPC: what is asked of the endpoint, how a reply
//! is read, and which lines are reported, in the order of the wallet list.

pub mod config;
pub mod decimal;
pub mod json;
pub mod reply;
pub mod request;
pub mod report;
pub mod run;
