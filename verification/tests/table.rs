use coin_price::table::render_table;

#[test]
fn values_shorter_than_labels() {
    let (header, data) = render_table("50000", "123", "-1.50");
    assert_eq!(header, "Price | 24h_vol | 24h_change");
    assert_eq!(data, "50000 | 123     | -1.50     ");
}

#[test]
fn formatted_snapshot_is_laid_out() {
    let price = format!("{}", 50000.0f64);
    let vol = format!("{:.0}", 123.0f64);
    let change = format!("{:.2}", -1.5f64);
    assert_eq!(price, "50000");
    assert_eq!(vol, "123");
    assert_eq!(change, "-1.50");
    let (header, data) = render_table(&price, &vol, &change);
    assert_eq!(header, "Price | 24h_vol | 24h_change");
    assert_eq!(data, "50000 | 123     | -1.50     ");
}

#[test]
fn values_longer_than_labels() {
    let (header, data) = render_table("50000.123456", "12345678901", "-12345678.90");
    assert_eq!(header, "Price        | 24h_vol     | 24h_change  ");
    assert_eq!(data, "50000.123456 | 12345678901 | -12345678.90");
}

#[test]
fn values_as_wide_as_labels() {
    let (header, data) = render_table("12345", "1234567", "1234567890");
    assert_eq!(header, "Price | 24h_vol | 24h_change");
    assert_eq!(data, "12345 | 1234567 | 1234567890");
}

#[test]
fn empty_values() {
    let (header, data) = render_table("", "", "");
    assert_eq!(header, "Price | 24h_vol | 24h_change");
    assert_eq!(data, "      |         |           ");
}

#[test]
fn rows_are_equally_wide() {
    let cases = [("1", "2", "3"), ("0.00001234", "98765432109876", "0.01"), ("", "1234567", "-100.00")];
    for (price, vol, change) in cases.iter() {
        let (header, data) = render_table(price, vol, change);
        assert_eq!(header.chars().count(), data.chars().count());
    }
}

#[test]
fn width_is_counted_in_characters() {
    let (header, data) = render_table("\u{20ac}\u{20ac}\u{20ac}\u{20ac}\u{20ac}\u{20ac}", "1", "2");
    assert_eq!(header, "Price  | 24h_vol | 24h_change");
    assert_eq!(data, "\u{20ac}\u{20ac}\u{20ac}\u{20ac}\u{20ac}\u{20ac} | 1       | 2         ");
}
