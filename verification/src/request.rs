//! The requests that a lookup sends to the pricing service: where each goes
//! and what parameters it carries.

use vstd::prelude::*;
use vstd::string::StringExecFns;

verus! {

/// An endpoint of the pricing service.
#[derive(Clone, Copy, Debug, PartialEq, Eq, Structural)]
pub enum Endpoint {
    /// Lists every known crypto asset.
    CoinsList,
    /// Lists every supported target currency.
    SupportedCurrencies,
    /// Quotes assets in target currencies.
    SimplePrice,
}

/// The parameters of a price request for one asset in one currency: the
/// pair itself, and the two flags that ask for the 24-hour volume and the
/// 24-hour change to be included.
pub open spec fn price_params(id: Seq<char>, target: Seq<char>) -> Seq<(Seq<char>, Seq<char>)> {
    seq![
        ("ids"@, id),
        ("vs_currencies"@, target),
        ("include_24hr_vol"@, "true"@),
        ("include_24hr_change"@, "true"@),
    ]
}

impl Endpoint {
    /// Path of the endpoint below the service's base address.
    pub open spec fn path(self) -> Seq<char> {
        match self {
            Endpoint::CoinsList => "/coins/list"@,
            Endpoint::SupportedCurrencies => "/simple/supported_vs_currencies"@,
            Endpoint::SimplePrice => "/simple/price"@,
        }
    }

    /// Address of the endpoint for a service at `base`.
    pub fn url(self, base: &str) -> (url: String)
        ensures
            url@ == base@ + self.path(),
    {
        let base = base.to_owned();
        match self {
            Endpoint::CoinsList => base.concat("/coins/list"),
            Endpoint::SupportedCurrencies => base.concat("/simple/supported_vs_currencies"),
            Endpoint::SimplePrice => base.concat("/simple/price"),
        }
    }
}

/// Builds the parameters of a price request for `id` in `target`.
pub fn price_query(id: &str, target: &str) -> (params: Vec<(String, String)>)
    ensures
        params.deep_view() == price_params(id@, target@),
{
    let mut params: Vec<(String, String)> = Vec::new();
    params.push(("ids".to_owned(), id.to_owned()));
    params.push(("vs_currencies".to_owned(), target.to_owned()));
    params.push(("include_24hr_vol".to_owned(), "true".to_owned()));
    params.push(("include_24hr_change".to_owned(), "true".to_owned()));
    assert(params.deep_view() =~= price_params(id@, target@));
    params
}

} // verus!
