use stocks_exporter::quote::{DecodeError, Field, Lookup, Price, Quote};

const AAPL: &str = "{\"symbol\":\"AAPL\",\"companyName\":\"Apple Inc\",\"latestPrice\":137.02,\"latestVolume\":109244453,\"marketCap\":2264005852377}";

fn price_of(quote: &Quote) -> f64 {
    f64::from_bits(quote.latest_price.to_bits())
}

#[test]
fn parse_quote() {
    let quote_str = "{
              \"symbol\": \"AAPL\",
              \"companyName\": \"Apple Inc\",
              \"latestPrice\": 137.02,
              \"latestVolume\": 109244453,
              \"marketCap\": 2264005852377
            }";
    let quote: Quote = Quote::decode(quote_str.as_bytes()).unwrap();

    assert_eq!(quote.symbol, String::from("AAPL"));
    assert_eq!(quote.company_name, String::from("Apple Inc"));
    assert_eq!(price_of(&quote), 137.02);
    assert_eq!(quote.latest_volume, 109244453);
    assert_eq!(quote.market_cap, 2264005852377);
}

#[test]
fn decode_round_trip_of_compact_payload() {
    let quote = Quote::decode(AAPL.as_bytes()).unwrap();
    assert_eq!(quote.symbol, "AAPL");
    assert_eq!(quote.company_name, "Apple Inc");
    assert_eq!(quote.latest_price, Price::from_bits(137.02f64.to_bits()));
    assert_eq!(quote.latest_volume, 109244453);
    assert_eq!(quote.market_cap, 2264005852377);
}

#[test]
fn decode_ignores_extra_members() {
    let body = "{\"open\":1.5,\"symbol\":\"GOOG\",\"peRatio\":null,\"companyName\":\"Alphabet Inc\",\"latestPrice\":2.5,\"tags\":[1,{\"symbol\":\"X\"}],\"latestVolume\":7,\"marketCap\":9}";
    let quote = Quote::decode(body.as_bytes()).unwrap();
    assert_eq!(quote.symbol, "GOOG");
    assert_eq!(quote.company_name, "Alphabet Inc");
    assert_eq!(price_of(&quote), 2.5);
    assert_eq!(quote.latest_volume, 7);
    assert_eq!(quote.market_cap, 9);
}

#[test]
fn decode_keeps_text_as_it_is() {
    let body = "{\"symbol\":\" aapl \",\"companyName\":\"\",\"latestPrice\":1,\"latestVolume\":0,\"marketCap\":0}";
    let quote = Quote::decode(body.as_bytes()).unwrap();
    assert_eq!(quote.symbol, " aapl ");
    assert_eq!(quote.company_name, "");
}

#[test]
fn decode_takes_an_integer_price() {
    let body = "{\"symbol\":\"A\",\"companyName\":\"B\",\"latestPrice\":240,\"latestVolume\":1,\"marketCap\":2}";
    let quote = Quote::decode(body.as_bytes()).unwrap();
    assert_eq!(price_of(&quote), 240.0);
}

#[test]
fn decode_takes_negative_integers() {
    let body = "{\"symbol\":\"A\",\"companyName\":\"B\",\"latestPrice\":-1.25,\"latestVolume\":-3,\"marketCap\":-9223372036854775808}";
    let quote = Quote::decode(body.as_bytes()).unwrap();
    assert_eq!(price_of(&quote), -1.25);
    assert_eq!(quote.latest_volume, -3);
    assert_eq!(quote.market_cap, i64::MIN);
}

#[test]
fn decode_refuses_malformed_bodies() {
    assert_eq!(Quote::decode(b"").err(), Some(DecodeError::Malformed));
    assert_eq!(Quote::decode(b"{\"symbol\":").err(), Some(DecodeError::Malformed));
    assert_eq!(Quote::decode(b"<html>Internal Server Error</html>").err(), Some(DecodeError::Malformed));
    assert_eq!(Quote::decode(b"{} trailing").err(), Some(DecodeError::Malformed));
    assert_eq!(Quote::decode(&[0xff, 0xfe]).err(), Some(DecodeError::Malformed));
}

#[test]
fn decode_refuses_what_is_no_object() {
    assert_eq!(Quote::decode(b"[]").err(), Some(DecodeError::Missing(Field::Symbol)));
    assert_eq!(Quote::decode(b"null").err(), Some(DecodeError::Missing(Field::Symbol)));
    assert_eq!(Quote::decode(b"\"AAPL\"").err(), Some(DecodeError::Missing(Field::Symbol)));
    assert_eq!(Quote::decode(b"{}").err(), Some(DecodeError::Missing(Field::Symbol)));
}

#[test]
fn decode_names_the_first_missing_member() {
    let body = "{\"symbol\":\"A\"}";
    assert_eq!(Quote::decode(body.as_bytes()).err(), Some(DecodeError::Missing(Field::CompanyName)));
    let body = "{\"symbol\":\"A\",\"companyName\":\"B\"}";
    assert_eq!(Quote::decode(body.as_bytes()).err(), Some(DecodeError::Missing(Field::LatestPrice)));
    let body = "{\"symbol\":\"A\",\"companyName\":\"B\",\"latestPrice\":1.0}";
    assert_eq!(Quote::decode(body.as_bytes()).err(), Some(DecodeError::Missing(Field::LatestVolume)));
    let body = "{\"symbol\":\"A\",\"companyName\":\"B\",\"latestPrice\":1.0,\"latestVolume\":1}";
    assert_eq!(Quote::decode(body.as_bytes()).err(), Some(DecodeError::Missing(Field::MarketCap)));
    let body = "{\"Symbol\":\"A\",\"companyName\":\"B\",\"latestPrice\":1.0,\"latestVolume\":1,\"marketCap\":1}";
    assert_eq!(Quote::decode(body.as_bytes()).err(), Some(DecodeError::Missing(Field::Symbol)));
}

#[test]
fn decode_names_the_first_mistyped_member() {
    let body = "{\"symbol\":5,\"companyName\":\"B\",\"latestPrice\":1.0,\"latestVolume\":1,\"marketCap\":1}";
    assert_eq!(Quote::decode(body.as_bytes()).err(), Some(DecodeError::Mistyped(Field::Symbol)));
    let body = "{\"symbol\":\"A\",\"companyName\":null,\"latestPrice\":1.0,\"latestVolume\":1,\"marketCap\":1}";
    assert_eq!(Quote::decode(body.as_bytes()).err(), Some(DecodeError::Mistyped(Field::CompanyName)));
    let body = "{\"symbol\":\"A\",\"companyName\":\"B\",\"latestPrice\":\"1.0\",\"latestVolume\":1,\"marketCap\":1}";
    assert_eq!(Quote::decode(body.as_bytes()).err(), Some(DecodeError::Mistyped(Field::LatestPrice)));
    let body = "{\"symbol\":\"A\",\"companyName\":\"B\",\"latestPrice\":1.0,\"latestVolume\":1.5,\"marketCap\":1}";
    assert_eq!(Quote::decode(body.as_bytes()).err(), Some(DecodeError::Mistyped(Field::LatestVolume)));
    let body = "{\"symbol\":\"A\",\"companyName\":\"B\",\"latestPrice\":1.0,\"latestVolume\":1,\"marketCap\":9223372036854775808}";
    assert_eq!(Quote::decode(body.as_bytes()).err(), Some(DecodeError::Mistyped(Field::MarketCap)));
    let body = "{\"symbol\":\"A\",\"companyName\":\"B\",\"latestPrice\":1.0,\"latestVolume\":true,\"marketCap\":[1]}";
    assert_eq!(Quote::decode(body.as_bytes()).err(), Some(DecodeError::Mistyped(Field::LatestVolume)));
}

#[test]
fn decode_refuses_a_price_out_of_range() {
    let body = "{\"symbol\":\"A\",\"companyName\":\"B\",\"latestPrice\":1e999,\"latestVolume\":1,\"marketCap\":1}";
    assert!(Quote::decode(body.as_bytes()).is_err());
}

#[test]
fn from_members_builds_the_quote() {
    let quote = Quote::from_members(
        Lookup::Present(String::from("AAPL")),
        Lookup::Present(String::from("Apple Inc")),
        Lookup::Present(137.02f64.to_bits()),
        Lookup::Present(109244453),
        Lookup::Present(2264005852377),
    )
    .unwrap();
    assert_eq!(quote.symbol, "AAPL");
    assert_eq!(quote.company_name, "Apple Inc");
    assert_eq!(quote.latest_price.to_bits(), 137.02f64.to_bits());
    assert_eq!(quote.latest_volume, 109244453);
    assert_eq!(quote.market_cap, 2264005852377);
}

#[test]
fn from_members_refuses_a_price_that_is_not_finite() {
    for price in [f64::INFINITY, f64::NEG_INFINITY, f64::NAN] {
        let r = Quote::from_members(
            Lookup::Present(String::from("A")),
            Lookup::Present(String::from("B")),
            Lookup::Present(price.to_bits()),
            Lookup::Present(1),
            Lookup::Present(1),
        );
        assert_eq!(r.err(), Some(DecodeError::NonFinitePrice));
    }
}

#[test]
fn from_members_takes_the_largest_finite_price() {
    let r = Quote::from_members(
        Lookup::Present(String::from("A")),
        Lookup::Present(String::from("B")),
        Lookup::Present(f64::MAX.to_bits()),
        Lookup::Present(1),
        Lookup::Present(1),
    );
    assert_eq!(price_of(&r.unwrap()), f64::MAX);
}

#[test]
fn from_members_reports_failures_in_order() {
    let r = Quote::from_members(
        Lookup::Mistyped,
        Lookup::Absent,
        Lookup::Present(f64::NAN.to_bits()),
        Lookup::Absent,
        Lookup::Absent,
    );
    assert_eq!(r.err(), Some(DecodeError::Mistyped(Field::Symbol)));
    let r = Quote::from_members(
        Lookup::Present(String::from("A")),
        Lookup::Absent,
        Lookup::Present(f64::NAN.to_bits()),
        Lookup::Absent,
        Lookup::Absent,
    );
    assert_eq!(r.err(), Some(DecodeError::Missing(Field::CompanyName)));
    let r = Quote::from_members(
        Lookup::Present(String::from("A")),
        Lookup::Present(String::from("B")),
        Lookup::Present(f64::NAN.to_bits()),
        Lookup::Absent,
        Lookup::Absent,
    );
    assert_eq!(r.err(), Some(DecodeError::NonFinitePrice));
    let r = Quote::from_members(
        Lookup::Present(String::from("A")),
        Lookup::Present(String::from("B")),
        Lookup::Present(1.0f64.to_bits()),
        Lookup::Mistyped,
        Lookup::Absent,
    );
    assert_eq!(r.err(), Some(DecodeError::Mistyped(Field::LatestVolume)));
    let r = Quote::from_members(
        Lookup::Present(String::from("A")),
        Lookup::Present(String::from("B")),
        Lookup::Present(1.0f64.to_bits()),
        Lookup::Present(1),
        Lookup::Absent,
    );
    assert_eq!(r.err(), Some(DecodeError::Missing(Field::MarketCap)));
}

#[test]
fn price_knows_whether_it_is_finite() {
    assert!(Price::from_bits(0.0f64.to_bits()).finite());
    assert!(Price::from_bits((-0.0f64).to_bits()).finite());
    assert!(Price::from_bits(f64::MIN_POSITIVE.to_bits()).finite());
    assert!(Price::from_bits(137.02f64.to_bits()).finite());
    assert!(!Price::from_bits(f64::INFINITY.to_bits()).finite());
    assert!(!Price::from_bits(f64::NAN.to_bits()).finite());
    assert_eq!(Price::from_bits(42).to_bits(), 42);
}
