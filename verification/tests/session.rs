use coin_price::ident::{Crypto, Currency};
use coin_price::price::{AssetQuote, ExtractionError, PriceTable, ResultType};
use coin_price::request::Endpoint;
use coin_price::session::{Lookup, Reply, Stage, Step};
use coin_price::validate::PriceError;

fn crypto_ids() -> Reply<f64> {
    let ids = ["bitcoin", "ethereum", "litecoin"];
    Reply::CryptoIds(ids.iter().map(|id| Crypto { id: id.to_string() }).collect())
}

fn target_currencies() -> Reply<f64> {
    let ids = ["usd", "eur", "jpy"];
    Reply::TargetCurrencies(ids.iter().map(|id| Currency(id.to_string())).collect())
}

fn prices() -> Reply<f64> {
    let mut quote = AssetQuote::new();
    quote.insert("usd".to_string(), 50000.0);
    quote.insert("usd_24h_vol".to_string(), 123.0);
    quote.insert("usd_24h_change".to_string(), -1.5);
    let mut table = PriceTable::new();
    table.insert("bitcoin".to_string(), quote);
    Reply::Prices(table)
}

fn begin(crypto: &str, target: &str) -> Lookup {
    Lookup::begin(crypto.to_string(), target.to_string())
}

fn go_on(step: Step<f64>) -> Lookup {
    match step {
        Step::Ask(next) => next,
        _ => panic!("the lookup should go on"),
    }
}

#[test]
fn lookup_starts_with_the_crypto_list() {
    let lookup = begin("bitcoin", "usd");
    assert_eq!(lookup.stage, Stage::AwaitingIds);
    assert_eq!(lookup.crypto, "bitcoin");
    assert_eq!(lookup.target, "usd");
    assert_eq!(lookup.endpoint(), Endpoint::CoinsList);
    assert!(lookup.query().is_empty());
}

#[test]
fn valid_pair_runs_through_to_the_snapshot() {
    let lookup = begin("bitcoin", "usd");
    let lookup = go_on(lookup.advance(crypto_ids()));
    assert_eq!(lookup.stage, Stage::AwaitingTargets);
    assert_eq!(lookup.endpoint(), Endpoint::SupportedCurrencies);
    assert!(lookup.query().is_empty());
    let lookup = go_on(lookup.advance(target_currencies()));
    assert_eq!(lookup.stage, Stage::AwaitingPrice);
    assert_eq!(lookup.endpoint(), Endpoint::SimplePrice);
    let expected: Vec<(String, String)> = vec![
        ("ids".to_string(), "bitcoin".to_string()),
        ("vs_currencies".to_string(), "usd".to_string()),
        ("include_24hr_vol".to_string(), "true".to_string()),
        ("include_24hr_change".to_string(), "true".to_string()),
    ];
    assert_eq!(lookup.query(), expected);
    match lookup.advance(prices()) {
        Step::Found(snapshot) => assert_eq!(snapshot, ResultType::new(50000.0, 123.0, -1.5)),
        _ => panic!("the lookup should be done"),
    }
}

#[test]
fn unknown_crypto_ends_the_lookup_at_once() {
    match begin("dogecoin", "usd").advance(crypto_ids()) {
        Step::Unknown(PriceError::NoSuchId(c)) => assert_eq!(c.id, "dogecoin"),
        _ => panic!("the lookup should be refused"),
    }
}

#[test]
fn unknown_currency_ends_the_lookup_before_the_price() {
    let lookup = go_on(begin("bitcoin", "xyz").advance(crypto_ids()));
    match lookup.advance(target_currencies()) {
        Step::Unknown(PriceError::NoSuchTargetCurrency(c)) => assert_eq!(c.0, "xyz"),
        _ => panic!("the lookup should be refused"),
    }
}

#[test]
fn missing_number_ends_the_lookup() {
    let lookup = go_on(begin("bitcoin", "eur").advance(crypto_ids()));
    let lookup = go_on(lookup.advance(target_currencies()));
    match lookup.advance(prices()) {
        Step::Missing(lack) => assert_eq!(lack, ExtractionError::NoPrice),
        _ => panic!("the lookup should lack a number"),
    }
    let lookup = go_on(begin("ethereum", "usd").advance(crypto_ids()));
    let lookup = go_on(lookup.advance(target_currencies()));
    match lookup.advance(prices()) {
        Step::Missing(lack) => assert_eq!(lack, ExtractionError::NoAsset),
        _ => panic!("the lookup should lack an asset"),
    }
}

#[test]
fn reply_out_of_turn_is_not_used() {
    assert!(matches!(begin("bitcoin", "usd").advance(target_currencies()), Step::OutOfTurn));
    assert!(matches!(begin("bitcoin", "usd").advance(prices()), Step::OutOfTurn));
    let lookup = go_on(begin("bitcoin", "usd").advance(crypto_ids()));
    assert!(matches!(lookup.advance(crypto_ids()), Step::OutOfTurn));
    let lookup = go_on(begin("bitcoin", "usd").advance(crypto_ids()));
    assert!(matches!(lookup.advance(prices()), Step::OutOfTurn));
    let lookup = go_on(begin("bitcoin", "usd").advance(crypto_ids()));
    let lookup = go_on(lookup.advance(target_currencies()));
    assert!(matches!(lookup.advance(target_currencies()), Step::OutOfTurn));
}
