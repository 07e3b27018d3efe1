//! The texts shown when a request to the portfolio server fails.

use vstd::prelude::*;
use vstd::string::StringExecFns;

verus! {

/// The calls the terminal makes to the portfolio server.
#[derive(Debug, Clone, Copy, PartialEq, Eq, Structural)]
pub enum ApiCall {
    ListPortfolios,
    LoadPortfolio,
    CreatePortfolio,
    RunStrategy,
    GetPriceHistory,
    RunBacktest,
}

/// What precedes the server's own description when a call fails.
pub open spec fn failure_prefix(call: ApiCall) -> Seq<char> {
    match call {
        ApiCall::ListPortfolios => "Failed to load portfolios: "@,
        ApiCall::LoadPortfolio => "Failed to load portfolio: "@,
        ApiCall::CreatePortfolio => "Failed to create portfolio: "@,
        ApiCall::RunStrategy => "Failed to run strategy: "@,
        ApiCall::GetPriceHistory => "Failed to get price history: "@,
        ApiCall::RunBacktest => "Failed to run backtest: "@,
    }
}

/// The text shown when `call` reached the server and failed with `detail`.
pub fn call_failed_text(call: ApiCall, detail: &str) -> (t: String)
    ensures
        t@ == failure_prefix(call) + detail@,
{
    let prefix = match call {
        ApiCall::ListPortfolios => "Failed to load portfolios: ",
        ApiCall::LoadPortfolio => "Failed to load portfolio: ",
        ApiCall::CreatePortfolio => "Failed to create portfolio: ",
        ApiCall::RunStrategy => "Failed to run strategy: ",
        ApiCall::GetPriceHistory => "Failed to get price history: ",
        ApiCall::RunBacktest => "Failed to run backtest: ",
    };
    let mut t = prefix.to_owned();
    t.append(detail);
    t
}

/// The text shown when the server could not be reached, with `detail`
/// describing why.
pub fn connection_failed_text(detail: &str) -> (t: String)
    ensures
        t@ == "Connection failed: "@ + detail@,
{
    let mut t = "Connection failed: ".to_owned();
    t.append(detail);
    t
}

} // verus!
