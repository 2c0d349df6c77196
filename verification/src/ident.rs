//! The two kinds of identifier a lookup names: a crypto asset and a target
//! currency.

use crate::order::{compare_bytes, lex_le, lex_order, lemma_lex_antisymmetric, Order};
use crate::search::{not_after, orders_consistently, same};
use core::cmp::Ordering;
use vstd::prelude::*;
use vstd::std_specs::cmp::{PartialEqSpecImpl, PartialOrdSpecImpl};
use vstd::utf8::{encode_utf8, encode_utf8_decode_utf8};

verus! {

/// Identifier of a crypto asset, such as `bitcoin`.
///
/// Two identifiers are equal when they are the same text, and are ordered as
/// Rust orders strings: by the bytes of their UTF-8 encoding.
#[derive(Debug)]
pub struct Crypto {
    pub id: String,
}

/// Identifier of a target currency, such as `usd`.
///
/// Two identifiers are equal when they are the same text.
#[derive(Debug)]
pub struct Currency(pub String);

impl View for Crypto {
    type V = Seq<char>;

    open spec fn view(&self) -> Seq<char> {
        self.id@
    }
}

impl View for Currency {
    type V = Seq<char>;

    open spec fn view(&self) -> Seq<char> {
        self.0@
    }
}

/// `a` is not after `b` in the order of identifiers.
pub open spec fn precedes(a: Seq<char>, b: Seq<char>) -> bool {
    lex_le(encode_utf8(a), encode_utf8(b))
}

/// `a` is before `b` in the order of identifiers.
pub open spec fn strictly_precedes(a: Seq<char>, b: Seq<char>) -> bool {
    lex_order(encode_utf8(a), encode_utf8(b)) == Order::Less
}

/// The standard library's name for an outcome of a comparison.
pub open spec fn ordering_of(o: Order) -> Ordering {
    match o {
        Order::Less => Ordering::Less,
        Order::Equal => Ordering::Equal,
        Order::Greater => Ordering::Greater,
    }
}

impl Clone for Crypto {
    fn clone(&self) -> (copy: Crypto)
        ensures
            copy@ == self@,
    {
        Crypto { id: self.id.clone() }
    }
}

impl PartialEqSpecImpl for Crypto {
    open spec fn obeys_eq_spec() -> bool {
        true
    }

    open spec fn eq_spec(&self, other: &Crypto) -> bool {
        self@ == other@
    }
}

impl PartialEq for Crypto {
    fn eq(&self, other: &Crypto) -> (equal: bool) {
        self.id == other.id
    }
}

impl PartialOrdSpecImpl for Crypto {
    open spec fn obeys_partial_cmp_spec() -> bool {
        true
    }

    open spec fn partial_cmp_spec(&self, other: &Crypto) -> Option<Ordering> {
        Some(ordering_of(lex_order(encode_utf8(self@), encode_utf8(other@))))
    }
}

impl PartialOrd for Crypto {
    fn partial_cmp(&self, other: &Crypto) -> (o: Option<Ordering>) {
        let mine = self.id.as_str().as_bytes();
        let theirs = other.id.as_str().as_bytes();
        match compare_bytes(mine, theirs) {
            Order::Less => Some(Ordering::Less),
            Order::Equal => Some(Ordering::Equal),
            Order::Greater => Some(Ordering::Greater),
        }
    }
}

impl Clone for Currency {
    fn clone(&self) -> (copy: Currency)
        ensures
            copy@ == self@,
    {
        Currency(self.0.clone())
    }
}

impl PartialEqSpecImpl for Currency {
    open spec fn obeys_eq_spec() -> bool {
        true
    }

    open spec fn eq_spec(&self, other: &Currency) -> bool {
        self@ == other@
    }
}

impl PartialEq for Currency {
    fn eq(&self, other: &Currency) -> (equal: bool) {
        self.0 == other.0
    }
}

/// On crypto identifiers `<=` is the order `precedes`.
pub proof fn lemma_crypto_not_after(a: Crypto, b: Crypto)
    ensures
        not_after(a, b) == precedes(a@, b@),
{
}

/// Crypto identifiers are ordered in the way that bisection needs.
pub proof fn lemma_crypto_orders_consistently()
    ensures
        orders_consistently::<Crypto>(),
{
    assert forall|x: Crypto, y: Crypto| not_after(x, y) && not_after(y, x) implies same(x, y) by {
        lemma_lex_antisymmetric(encode_utf8(x@), encode_utf8(y@));
        encode_utf8_decode_utf8(x@);
        encode_utf8_decode_utf8(y@);
    }
}

} // verus!
