use coin_price::request::{price_query, Endpoint};

#[test]
fn endpoint_addresses() {
    let base = "https://api.coingecko.com/api/v3";
    assert_eq!(Endpoint::CoinsList.url(base), "https://api.coingecko.com/api/v3/coins/list");
    assert_eq!(
        Endpoint::SupportedCurrencies.url(base),
        "https://api.coingecko.com/api/v3/simple/supported_vs_currencies"
    );
    assert_eq!(Endpoint::SimplePrice.url(base), "https://api.coingecko.com/api/v3/simple/price");
}

#[test]
fn endpoint_address_follows_the_base() {
    assert_eq!(Endpoint::CoinsList.url("http://localhost:8080"), "http://localhost:8080/coins/list");
    assert_eq!(Endpoint::SimplePrice.url(""), "/simple/price");
}

#[test]
fn price_request_has_four_parameters() {
    let expected: Vec<(String, String)> = vec![
        ("ids".to_string(), "bitcoin".to_string()),
        ("vs_currencies".to_string(), "usd".to_string()),
        ("include_24hr_vol".to_string(), "true".to_string()),
        ("include_24hr_change".to_string(), "true".to_string()),
    ];
    assert_eq!(price_query("bitcoin", "usd"), expected);
}

#[test]
fn price_request_names_the_pair_as_given() {
    let params = price_query("ethereum", "eur");
    assert_eq!(params[0], ("ids".to_string(), "ethereum".to_string()));
    assert_eq!(params[1], ("vs_currencies".to_string(), "eur".to_string()));
}
