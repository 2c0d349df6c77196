//! Extraction of a price snapshot from the pricing service's response.
//!
//! The response maps a crypto identifier to the numbers quoted for it, and
//! names each number by a key made from the target currency: the currency
//! itself for the price, and the currency with a suffix for the 24-hour
//! volume and the 24-hour change. The numbers are never computed with here,
//! so their type `N` is left to the caller.

use vstd::hash_map::StringHashMap;
use vstd::prelude::*;
use vstd::string::StringExecFns;

verus! {

/// The numbers quoted for one asset, each under its key.
#[verifier::reject_recursive_types(N)]
pub struct AssetQuote<N> {
    fields: StringHashMap<N>,
}

/// The pricing service's response: for each asset in it, its quote.
#[verifier::reject_recursive_types(N)]
pub struct PriceTable<N> {
    assets: StringHashMap<AssetQuote<N>>,
}

/// Price, 24-hour volume and 24-hour change of one asset in one currency,
/// as the response gave them.
#[derive(Debug, PartialEq)]
pub struct ResultType<N> {
    pub current_price: N,
    pub vol_24h: N,
    pub change_24h: N,
}

/// What the response lacks for the requested pair.
#[derive(Clone, Copy, Debug, PartialEq, Eq, Structural)]
pub enum ExtractionError {
    /// No quote for the crypto identifier.
    NoAsset,
    /// The quote has no price in the target currency.
    NoPrice,
    /// The quote has no 24-hour volume in the target currency.
    NoVolume,
    /// The quote has no 24-hour change in the target currency.
    NoChange,
}

impl<N> View for AssetQuote<N> {
    type V = Map<Seq<char>, N>;

    closed spec fn view(&self) -> Map<Seq<char>, N> {
        self.fields@
    }
}

impl<N> View for PriceTable<N> {
    type V = Map<Seq<char>, Map<Seq<char>, N>>;

    closed spec fn view(&self) -> Map<Seq<char>, Map<Seq<char>, N>> {
        Map::new(|id: Seq<char>| self.assets@.contains_key(id), |id: Seq<char>| self.assets@[id]@)
    }
}

/// Key of the price, for a target currency: the currency itself.
pub open spec fn price_key(target: Seq<char>) -> Seq<char> {
    target
}

/// Key of the 24-hour volume, for a target currency.
pub open spec fn volume_key(target: Seq<char>) -> Seq<char> {
    target + "_24h_vol"@
}

/// Key of the 24-hour change, for a target currency.
pub open spec fn change_key(target: Seq<char>) -> Seq<char> {
    target + "_24h_change"@
}

/// What extraction yields from a response for a requested pair: the three
/// numbers under their keys, or the first thing found missing, looking for
/// the asset, then the price, the volume and the change.
pub open spec fn extraction<N>(
    json: Map<Seq<char>, Map<Seq<char>, N>>,
    id: Seq<char>,
    target: Seq<char>,
) -> Result<ResultType<N>, ExtractionError> {
    if !json.contains_key(id) {
        Err(ExtractionError::NoAsset)
    } else if !json[id].contains_key(price_key(target)) {
        Err(ExtractionError::NoPrice)
    } else if !json[id].contains_key(volume_key(target)) {
        Err(ExtractionError::NoVolume)
    } else if !json[id].contains_key(change_key(target)) {
        Err(ExtractionError::NoChange)
    } else {
        Ok(
            ResultType {
                current_price: json[id][price_key(target)],
                vol_24h: json[id][volume_key(target)],
                change_24h: json[id][change_key(target)],
            },
        )
    }
}

impl<N> AssetQuote<N> {
    /// A quote with no numbers in it.
    pub fn new() -> (quote: Self)
        ensures
            quote@ == Map::<Seq<char>, N>::empty(),
    {
        AssetQuote { fields: StringHashMap::new() }
    }

    /// Puts `value` under `key`, in place of any number that was there.
    pub fn insert(&mut self, key: String, value: N)
        ensures
            final(self)@ == old(self)@.insert(key@, value),
    {
        self.fields.insert(key, value);
    }

    /// The number under `key`, if there is one.
    pub fn get(&self, key: &str) -> (value: Option<&N>)
        ensures
            match value {
                Some(v) => self@.contains_key(key@) && *v == self@[key@],
                None => !self@.contains_key(key@),
            },
    {
        self.fields.get(key)
    }
}

impl<N> PriceTable<N> {
    /// A response that quotes no asset.
    pub fn new() -> (table: Self)
        ensures
            table@ == Map::<Seq<char>, Map<Seq<char>, N>>::empty(),
    {
        let table = PriceTable { assets: StringHashMap::new() };
        assert(table@ =~= Map::<Seq<char>, Map<Seq<char>, N>>::empty());
        table
    }

    /// Puts `quote` under the crypto identifier `id`, in place of any quote
    /// that was there.
    pub fn insert(&mut self, id: String, quote: AssetQuote<N>)
        ensures
            final(self)@ == old(self)@.insert(id@, quote@),
    {
        self.assets.insert(id, quote);
        assert(self@ =~= old(self)@.insert(id@, quote@));
    }

    /// The quote under the crypto identifier `id`, if there is one.
    pub fn get(&self, id: &str) -> (quote: Option<&AssetQuote<N>>)
        ensures
            match quote {
                Some(q) => self@.contains_key(id@) && q@ == self@[id@],
                None => !self@.contains_key(id@),
            },
    {
        self.assets.get(id)
    }
}

impl<N> ResultType<N> {
    /// A snapshot of the three numbers given.
    pub fn new(current_price: N, vol_24h: N, change_24h: N) -> (snapshot: ResultType<N>)
        ensures
            snapshot == (ResultType { current_price, vol_24h, change_24h }),
    {
        ResultType { current_price, vol_24h, change_24h }
    }
}

/// Reads price, 24-hour volume and 24-hour change of `id` in `target` out of
/// the response. Each number is handed over as it stands in the response;
/// when one is missing, nothing is put in its place and the error says which.
pub fn get_price<N: Copy>(json: &PriceTable<N>, id: &str, target: &str) -> (result: Result<
    ResultType<N>,
    ExtractionError,
>)
    ensures
        result == extraction(json@, id@, target@),
{
    let vol_str = target.to_owned().concat("_24h_vol");
    let change_str = target.to_owned().concat("_24h_change");
    let quote = match json.get(id) {
        Some(quote) => quote,
        None => { return Err(ExtractionError::NoAsset); },
    };
    let price = match quote.get(target) {
        Some(price) => *price,
        None => { return Err(ExtractionError::NoPrice); },
    };
    let vol = match quote.get(vol_str.as_str()) {
        Some(vol) => *vol,
        None => { return Err(ExtractionError::NoVolume); },
    };
    let change = match quote.get(change_str.as_str()) {
        Some(change) => *change,
        None => { return Err(ExtractionError::NoChange); },
    };
    Ok(ResultType::new(price, vol, change))
}

} // verus!
