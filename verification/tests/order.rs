use coin_price::ident::Crypto;
use coin_price::order::{compare_bytes, Order};
use std::cmp::Ordering;

fn crypto(id: &str) -> Crypto {
    Crypto { id: id.to_string() }
}

#[test]
fn equal_byte_strings_compare_equal() {
    assert_eq!(compare_bytes(b"", b""), Order::Equal);
    assert_eq!(compare_bytes(b"bitcoin", b"bitcoin"), Order::Equal);
}

#[test]
fn first_differing_byte_decides() {
    assert_eq!(compare_bytes(b"bitcoin", b"bitcoiz"), Order::Less);
    assert_eq!(compare_bytes(b"litecoin", b"ethereum"), Order::Greater);
    assert_eq!(compare_bytes(b"ab", b"b"), Order::Less);
    assert_eq!(compare_bytes(&[0, 255], &[1, 0]), Order::Less);
}

#[test]
fn proper_prefix_is_smaller() {
    assert_eq!(compare_bytes(b"", b"a"), Order::Less);
    assert_eq!(compare_bytes(b"bit", b"bitcoin"), Order::Less);
    assert_eq!(compare_bytes(b"bitcoin", b"bit"), Order::Greater);
}

#[test]
fn upper_case_sorts_before_lower_case() {
    assert_eq!(compare_bytes(b"Zcash", b"aave"), Order::Less);
}

#[test]
fn crypto_equality_is_equality_of_text() {
    assert!(crypto("bitcoin") == crypto("bitcoin"));
    assert!(crypto("bitcoin") != crypto("bitcoin-cash"));
    assert!(crypto("") == crypto(""));
}

#[test]
fn crypto_order_is_the_order_of_strings() {
    let samples = [
        "", "0x", "aave", "bitcoin", "bitcoin-cash", "bit", "ethereum", "Zcash", "zcash",
        "\u{e9}ther", "\u{20ac}", "\u{1f680}moon", "z", "~",
    ];
    for a in samples.iter() {
        for b in samples.iter() {
            let expected = a.partial_cmp(b);
            assert_eq!(crypto(a).partial_cmp(&crypto(b)), expected);
            assert_eq!(crypto(a) <= crypto(b), a <= b);
            assert_eq!(crypto(a) < crypto(b), a < b);
            assert_eq!(crypto(a) == crypto(b), a == b);
        }
    }
}

#[test]
fn crypto_order_examples() {
    assert_eq!(crypto("bitcoin").partial_cmp(&crypto("ethereum")), Some(Ordering::Less));
    assert_eq!(crypto("litecoin").partial_cmp(&crypto("ethereum")), Some(Ordering::Greater));
    assert_eq!(crypto("dogecoin").partial_cmp(&crypto("dogecoin")), Some(Ordering::Equal));
}

#[test]
fn clone_keeps_the_identifier() {
    let first = crypto("monero");
    let copy = first.clone();
    assert_eq!(copy.id, "monero");
    assert!(copy == first);
}
