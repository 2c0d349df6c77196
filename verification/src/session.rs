//! The course of one lookup: which request goes out next, and what each
//! reply leads to.
//!
//! A lookup asks for the list of crypto identifiers and checks the asset
//! against it, then asks for the list of target currencies and checks the
//! currency, and only then asks for the price. The first check that fails
//! ends the lookup. Sending the requests is left to the caller, who hands
//! each reply back to `Lookup::advance`.

use crate::ident::{Crypto, Currency};
use crate::price::{extraction, get_price, ExtractionError, PriceTable, ResultType};
use crate::request::{price_params, price_query, Endpoint};
use crate::validate::{check_id, check_target, id_found, known_target, PriceError};
use vstd::prelude::*;

verus! {

/// The reply that a lookup is waiting for.
#[derive(Clone, Copy, Debug, PartialEq, Eq, Structural)]
pub enum Stage {
    /// The list of crypto identifiers, to check the asset against.
    AwaitingIds,
    /// The list of target currencies, to check the currency against.
    AwaitingTargets,
    /// The price of the asset in the currency.
    AwaitingPrice,
}

/// A lookup of one asset in one currency, and how far it has come.
#[derive(Debug)]
pub struct Lookup {
    pub crypto: String,
    pub target: String,
    pub stage: Stage,
}

/// A reply of the pricing service.
#[verifier::reject_recursive_types(N)]
pub enum Reply<N> {
    CryptoIds(Vec<Crypto>),
    TargetCurrencies(Vec<Currency>),
    Prices(PriceTable<N>),
}

/// What a reply leads to.
pub enum Step<N> {
    /// The lookup goes on: its next request is to be sent.
    Ask(Lookup),
    /// The lookup is done, with the snapshot to present.
    Found(ResultType<N>),
    /// The lookup ends: an identifier was not found in its reference list.
    Unknown(PriceError),
    /// The lookup ends: the response lacks a number for the pair.
    Missing(ExtractionError),
    /// The reply is not the one the lookup was waiting for.
    OutOfTurn,
}

impl Stage {
    /// The endpoint that the awaited reply comes from.
    pub open spec fn source(self) -> Endpoint {
        match self {
            Stage::AwaitingIds => Endpoint::CoinsList,
            Stage::AwaitingTargets => Endpoint::SupportedCurrencies,
            Stage::AwaitingPrice => Endpoint::SimplePrice,
        }
    }
}

impl Lookup {
    /// The parameters that go with the outstanding request: those of a
    /// price request while the price is awaited, none before.
    pub open spec fn params(&self) -> Seq<(Seq<char>, Seq<char>)> {
        match self.stage {
            Stage::AwaitingPrice => price_params(self.crypto@, self.target@),
            _ => Seq::empty(),
        }
    }

    /// `next` is this lookup, one stage further on at `stage`.
    pub open spec fn moved_to(&self, next: Lookup, stage: Stage) -> bool {
        &&& next.crypto@ == self.crypto@
        &&& next.target@ == self.target@
        &&& next.stage == stage
    }

    /// Starts a lookup of `crypto` in `target`. Its first request is for the
    /// list of crypto identifiers.
    pub fn begin(crypto: String, target: String) -> (lookup: Lookup)
        ensures
            lookup.crypto@ == crypto@,
            lookup.target@ == target@,
            lookup.stage == Stage::AwaitingIds,
    {
        Lookup { crypto, target, stage: Stage::AwaitingIds }
    }

    /// The endpoint of the outstanding request.
    pub fn endpoint(&self) -> (endpoint: Endpoint)
        ensures
            endpoint == self.stage.source(),
    {
        match self.stage {
            Stage::AwaitingIds => Endpoint::CoinsList,
            Stage::AwaitingTargets => Endpoint::SupportedCurrencies,
            Stage::AwaitingPrice => Endpoint::SimplePrice,
        }
    }

    /// The parameters of the outstanding request.
    pub fn query(&self) -> (params: Vec<(String, String)>)
        ensures
            params.deep_view() == self.params(),
    {
        match self.stage {
            Stage::AwaitingPrice => price_query(self.crypto.as_str(), self.target.as_str()),
            _ => {
                let params: Vec<(String, String)> = Vec::new();
                assert(params.deep_view() =~= Seq::empty());
                params
            },
        }
    }

    /// Takes the reply to the outstanding request and decides how the lookup
    /// goes on.
    ///
    /// A list of crypto identifiers is searched for the asset, a list of
    /// target currencies for the currency, and a table of prices is read for
    /// the pair. The price is asked for only after the currency was found,
    /// and the currency list only after the asset was found.
    pub fn advance<N: Copy>(self, reply: Reply<N>) -> (step: Step<N>)
        ensures
            match (self.stage, reply) {
                (Stage::AwaitingIds, Reply::CryptoIds(list)) => match step {
                    Step::Ask(next) => {
                        &&& self.moved_to(next, Stage::AwaitingTargets)
                        &&& id_found(list@, self.crypto@)
                    },
                    Step::Unknown(PriceError::NoSuchId(c)) => {
                        &&& c@ == self.crypto@
                        &&& !id_found(list@, self.crypto@)
                    },
                    _ => false,
                },
                (Stage::AwaitingTargets, Reply::TargetCurrencies(list)) => match step {
                    Step::Ask(next) => {
                        &&& self.moved_to(next, Stage::AwaitingPrice)
                        &&& known_target(list@, self.target@)
                    },
                    Step::Unknown(PriceError::NoSuchTargetCurrency(c)) => {
                        &&& c@ == self.target@
                        &&& !known_target(list@, self.target@)
                    },
                    _ => false,
                },
                (Stage::AwaitingPrice, Reply::Prices(json)) => match step {
                    Step::Found(snapshot) => extraction(json@, self.crypto@, self.target@) == Ok::<
                        ResultType<N>,
                        ExtractionError,
                    >(snapshot),
                    Step::Missing(lack) => extraction(json@, self.crypto@, self.target@) == Err::<
                        ResultType<N>,
                        ExtractionError,
                    >(lack),
                    _ => false,
                },
                _ => step is OutOfTurn,
            },
    {
        match (self.stage, reply) {
            (Stage::AwaitingIds, Reply::CryptoIds(list)) => {
                match check_id(list.as_slice(), self.crypto.as_str()) {
                    Ok(_) => Step::Ask(
                        Lookup {
                            crypto: self.crypto,
                            target: self.target,
                            stage: Stage::AwaitingTargets,
                        },
                    ),
                    Err(refusal) => Step::Unknown(refusal),
                }
            },
            (Stage::AwaitingTargets, Reply::TargetCurrencies(list)) => {
                match check_target(list.as_slice(), self.target.as_str()) {
                    Ok(_) => Step::Ask(
                        Lookup {
                            crypto: self.crypto,
                            target: self.target,
                            stage: Stage::AwaitingPrice,
                        },
                    ),
                    Err(refusal) => Step::Unknown(refusal),
                }
            },
            (Stage::AwaitingPrice, Reply::Prices(json)) => {
                match get_price(&json, self.crypto.as_str(), self.target.as_str()) {
                    Ok(snapshot) => Step::Found(snapshot),
                    Err(lack) => Step::Missing(lack),
                }
            },
            _ => Step::OutOfTurn,
        }
    }
}

} // verus!
