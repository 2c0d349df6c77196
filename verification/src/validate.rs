//! Validation of a user-supplied identifier against a reference list.

use crate::ident::{
    lemma_crypto_not_after, lemma_crypto_orders_consistently, precedes, strictly_precedes, Crypto,
    Currency,
};
use crate::order::lemma_lex_equal;
use crate::search::{
    ascending, binary_search, bisect, finds, lemma_finds_is_membership, not_after, occurs, same,
};
use vstd::prelude::*;
use vstd::utf8::encode_utf8;

verus! {

/// Why a lookup was refused: the identifier that was not found, under the
/// kind of reference list it was looked for in.
#[derive(Debug)]
pub enum PriceError {
    NoSuchId(Crypto),
    NoSuchTargetCurrency(Currency),
}

/// Some entry of the crypto reference list is the identifier `id`.
pub open spec fn known_id(list: Seq<Crypto>, id: Seq<char>) -> bool {
    exists|i: int| 0 <= i < list.len() && (#[trigger] list[i])@ == id
}

/// The crypto reference list is sorted: no entry is followed, anywhere
/// later, by one that is before it in the order of identifiers.
pub open spec fn ids_ascending(list: Seq<Crypto>) -> bool {
    forall|i: int, j: int|
        0 <= i <= j < list.len() ==> precedes((#[trigger] list[i])@, (#[trigger] list[j])@)
}

/// Bisecting the crypto reference list comes upon the identifier `id`.
pub open spec fn id_found(list: Seq<Crypto>, id: Seq<char>) -> bool {
    exists|wanted: Crypto| wanted@ == id && #[trigger] finds(list, wanted)
}

/// Some entry of the currency reference list is the identifier `target`.
pub open spec fn known_target(list: Seq<Currency>, target: Seq<char>) -> bool {
    exists|i: int| 0 <= i < list.len() && (#[trigger] list[i])@ == target
}

/// The identifiers of a currency reference list, in the order of the list.
pub open spec fn targets(list: Seq<Currency>) -> Seq<Seq<char>> {
    list.map_values(|c: Currency| c@)
}

/// Confirms that `crypto` is in the crypto reference list, by bisection.
///
/// An identifier that is in no entry is always refused, with the error that
/// names it. One that is in the list is accepted whenever the list is
/// sorted; bisecting a list that is not sorted may miss it.
pub fn check_id(check_list: &[Crypto], crypto: &str) -> (result: Result<(), PriceError>)
    ensures
        match result {
            Ok(_) => id_found(check_list@, crypto@),
            Err(PriceError::NoSuchId(c)) => c@ == crypto@ && !id_found(check_list@, crypto@),
            Err(_) => false,
        },
        result is Ok ==> known_id(check_list@, crypto@),
        ids_ascending(check_list@) ==> (result is Ok <==> known_id(check_list@, crypto@)),
{
    let wanted = Crypto { id: crypto.to_owned() };
    let found = binary_search(check_list, &wanted);
    proof {
        lemma_crypto_orders_consistently();
        lemma_id_found_by_bisection(check_list@, wanted);
        lemma_id_found_is_membership(check_list@, crypto@);
    }
    if !found {
        return Err(PriceError::NoSuchId(wanted));
    }
    Ok(())
}

/// Confirms that `target` is in the currency reference list, by scanning it
/// from the front. The order of the list does not matter.
pub fn check_target(check_list: &[Currency], target: &str) -> (result: Result<(), PriceError>)
    ensures
        match result {
            Ok(_) => known_target(check_list@, target@),
            Err(PriceError::NoSuchTargetCurrency(c)) => {
                &&& c@ == target@
                &&& !known_target(check_list@, target@)
            },
            Err(_) => false,
        },
{
    let wanted = Currency(target.to_owned());
    let mut i: usize = 0;
    while i < check_list.len()
        invariant
            i <= check_list.len(),
            wanted@ == target@,
            forall|j: int| 0 <= j < i ==> (#[trigger] check_list@[j])@ != target@,
        decreases check_list.len() - i,
    {
        if wanted == check_list[i] {
            assert(check_list@[i as int]@ == target@);
            return Ok(());
        }
        i += 1;
    }
    Err(PriceError::NoSuchTargetCurrency(wanted))
}

/// Bisection looks at an identifier's text only: two identifiers of the same
/// text are found in the same ranges of the same lists.
proof fn lemma_bisect_by_text(list: Seq<Crypto>, a: Crypto, b: Crypto, low: int, high: int)
    requires
        a@ == b@,
    ensures
        bisect(list, a, low, high) == bisect(list, b, low, high),
    decreases high - low,
{
    if low < high {
        let middle = low + (high - low) / 2;
        lemma_bisect_by_text(list, a, b, low, middle);
        lemma_bisect_by_text(list, a, b, middle + 1, high);
    }
}

/// On crypto identifiers, an entry equal to `wanted` is an entry with the
/// text of `wanted`, and a list in ascending order is a sorted list.
proof fn lemma_crypto_terms(list: Seq<Crypto>, wanted: Crypto)
    ensures
        occurs(list, wanted) == known_id(list, wanted@),
        ascending(list) == ids_ascending(list),
{
    if occurs(list, wanted) {
        let i = choose|i: int| 0 <= i < list.len() && same(#[trigger] list[i], wanted);
        assert(list[i]@ == wanted@);
    }
    if known_id(list, wanted@) {
        let i = choose|i: int| 0 <= i < list.len() && (#[trigger] list[i])@ == wanted@;
        assert(same(list[i], wanted));
    }
    if ids_ascending(list) {
        assert forall|i: int, j: int| 0 <= i <= j < list.len() implies not_after(
            #[trigger] list[i],
            #[trigger] list[j],
        ) by {
            lemma_crypto_not_after(list[i], list[j]);
        }
    }
    if ascending(list) {
        assert forall|i: int, j: int| 0 <= i <= j < list.len() implies precedes(
            (#[trigger] list[i])@,
            (#[trigger] list[j])@,
        ) by {
            lemma_crypto_not_after(list[i], list[j]);
        }
    }
}

/// An identifier is found exactly when bisecting for any value that has its
/// text finds that value.
pub proof fn lemma_id_found_by_bisection(list: Seq<Crypto>, wanted: Crypto)
    ensures
        id_found(list, wanted@) == finds(list, wanted),
{
    if id_found(list, wanted@) {
        let other = choose|other: Crypto| other@ == wanted@ && #[trigger] finds(list, other);
        lemma_bisect_by_text(list, other, wanted, 0, list.len() as int);
    }
}

/// Membership: `check_id` accepts no identifier that is not in the list,
/// and on a sorted list it accepts exactly the identifiers that are in it.
pub proof fn lemma_id_found_is_membership(list: Seq<Crypto>, id: Seq<char>)
    ensures
        id_found(list, id) ==> known_id(list, id),
        ids_ascending(list) ==> id_found(list, id) == known_id(list, id),
{
    lemma_crypto_orders_consistently();
    if id_found(list, id) {
        let wanted = choose|wanted: Crypto| wanted@ == id && #[trigger] finds(list, wanted);
        lemma_finds_is_membership(list, wanted);
        lemma_crypto_terms(list, wanted);
    }
    if ids_ascending(list) && known_id(list, id) {
        let i = choose|i: int| 0 <= i < list.len() && (#[trigger] list[i])@ == id;
        lemma_finds_is_membership(list, list[i]);
        lemma_crypto_terms(list, list[i]);
        assert(finds(list, list[i]));
    }
}

/// No identifier is in an empty reference list: the validators refuse
/// every candidate on it.
pub proof fn lemma_empty_list_knows_nothing(candidate: Seq<char>)
    ensures
        !id_found(Seq::<Crypto>::empty(), candidate),
        !known_target(Seq::<Currency>::empty(), candidate),
{
    lemma_id_found_is_membership(Seq::<Crypto>::empty(), candidate);
}

/// On a crypto reference list of one entry, `check_id` accepts that entry
/// and refuses every other candidate.
pub proof fn lemma_single_entry_list(entry: Crypto, candidate: Seq<char>)
    ensures
        id_found(seq![entry], candidate) <==> entry@ == candidate,
{
    let list = seq![entry];
    lemma_lex_equal(encode_utf8(entry@), encode_utf8(entry@));
    assert(ids_ascending(list));
    assert(list[0] == entry);
    lemma_id_found_is_membership(list, candidate);
}

/// On a sorted crypto reference list, `check_id` accepts the first entry
/// and the last.
pub proof fn lemma_ends_are_found(list: Seq<Crypto>)
    requires
        list.len() > 0,
        ids_ascending(list),
    ensures
        id_found(list, list.first()@),
        id_found(list, list.last()@),
{
    assert(list[0]@ == list.first()@);
    assert(list[list.len() - 1]@ == list.last()@);
    lemma_id_found_is_membership(list, list.first()@);
    lemma_id_found_is_membership(list, list.last()@);
}

/// A candidate that is before every entry of a crypto reference list, or
/// after every entry, is refused by `check_id`, whether or not the list is
/// sorted.
pub proof fn lemma_beyond_the_ends(list: Seq<Crypto>, candidate: Seq<char>)
    requires
        (forall|i: int| 0 <= i < list.len() ==> strictly_precedes(candidate, (#[trigger] list[i])@))
            || (forall|i: int|
            0 <= i < list.len() ==> strictly_precedes((#[trigger] list[i])@, candidate)),
    ensures
        !id_found(list, candidate),
{
    lemma_id_found_is_membership(list, candidate);
    if known_id(list, candidate) {
        let i = choose|i: int| 0 <= i < list.len() && (#[trigger] list[i])@ == candidate;
        lemma_lex_equal(encode_utf8(candidate), encode_utf8(candidate));
        assert(!strictly_precedes(candidate, list[i]@));
        assert(!strictly_precedes(list[i]@, candidate));
    }
}

/// Whether a target currency is known does not depend on the order of the
/// currency reference list: two lists that hold the same identifiers, each
/// as often in one as in the other, know the same candidates, so
/// `check_target` gives the same verdict on both.
pub proof fn lemma_target_order_is_irrelevant(
    list: Seq<Currency>,
    permuted: Seq<Currency>,
    candidate: Seq<char>,
)
    requires
        targets(list).to_multiset() == targets(permuted).to_multiset(),
    ensures
        known_target(list, candidate) == known_target(permuted, candidate),
{
    lemma_known_target_counts(list, candidate);
    lemma_known_target_counts(permuted, candidate);
}

/// A candidate is known to a currency reference list exactly when it occurs
/// among the list's identifiers at least once.
proof fn lemma_known_target_counts(list: Seq<Currency>, candidate: Seq<char>)
    ensures
        known_target(list, candidate) <==> targets(list).to_multiset().count(candidate) > 0,
{
    let names = targets(list);
    names.to_multiset_ensures();
    if known_target(list, candidate) {
        let i = choose|i: int| 0 <= i < list.len() && (#[trigger] list[i])@ == candidate;
        assert(names[i] == candidate);
        assert(names.contains(candidate));
    }
    if names.contains(candidate) {
        let i = choose|i: int| 0 <= i < names.len() && names[i] == candidate;
        assert(list[i]@ == candidate);
    }
}

} // verus!
