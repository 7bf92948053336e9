use stocks_exporter::engine::{Action, Engine, Phase, CONCURRENT_REQUESTS, QUERY_INTERVAL_MS};
use stocks_exporter::metrics::Registry;
use stocks_exporter::quote::{DecodeError, Price, Quote};
use stocks_exporter::upstream::{interpret_response, FailureKind, FetchFailure};

const AAPL: &str = "{\"symbol\":\"AAPL\",\"companyName\":\"Apple Inc\",\"latestPrice\":137.02,\"latestVolume\":109244453,\"marketCap\":2264005852377}";
const GOOG: &str = "{\"symbol\":\"GOOG\",\"companyName\":\"Alphabet Inc\",\"latestPrice\":2100.5,\"latestVolume\":1500000,\"marketCap\":1400000000000}";

fn fresh() -> Registry {
    match Registry::new() {
        Ok(registry) => registry,
        Err(e) => panic!("no registry: {:?}", e),
    }
}

fn quote(symbol: &str, company_name: &str, price: f64, volume: i64, cap: i64) -> Quote {
    Quote {
        symbol: String::from(symbol),
        company_name: String::from(company_name),
        latest_price: Price::from_bits(price.to_bits()),
        latest_volume: volume,
        market_cap: cap,
    }
}

#[test]
fn the_fixed_cadence_and_cap() {
    assert_eq!(QUERY_INTERVAL_MS, 30_000);
    assert_eq!(CONCURRENT_REQUESTS, 2);
    let mut engine = Engine::new(3).unwrap();
    assert_eq!(engine.phase(), Phase::Idle);
    assert_eq!(engine.poll(0), Action::Launch(0));
    assert_eq!(engine.poll(0), Action::Launch(1));
    assert_eq!(engine.poll(0), Action::AwaitCompletion);
    assert_eq!(engine.in_flight(), 2);
}

#[test]
fn there_is_no_engine_for_nothing() {
    assert!(Engine::new(0).is_none());
    assert!(Engine::with_limits(0, 2, 1000).is_none());
    assert!(Engine::with_limits(3, 0, 1000).is_none());
    assert!(Engine::with_limits(1, 1, 0).is_some());
}

#[test]
fn a_round_fetches_every_symbol_in_order_within_the_cap() {
    let mut registry = fresh();
    let mut engine = Engine::with_limits(5, 2, 1000).unwrap();
    assert_eq!(engine.poll(100), Action::Launch(0));
    assert_eq!(engine.phase(), Phase::Fetching);
    assert_eq!(engine.in_flight(), 1);
    assert_eq!(engine.poll(101), Action::Launch(1));
    assert_eq!(engine.in_flight(), 2);
    assert_eq!(engine.poll(102), Action::AwaitCompletion);
    assert_eq!(engine.poll(5000), Action::AwaitCompletion);
    assert!(engine.settle(&mut registry, Ok(quote("B", "b", 1.0, 1, 1))).is_none());
    assert_eq!(engine.in_flight(), 1);
    assert_eq!(engine.poll(103), Action::Launch(2));
    assert_eq!(engine.poll(104), Action::AwaitCompletion);
    assert!(engine.settle(&mut registry, Ok(quote("A", "a", 1.0, 1, 1))).is_none());
    assert!(engine.settle(&mut registry, Ok(quote("C", "c", 1.0, 1, 1))).is_none());
    assert_eq!(engine.in_flight(), 0);
    assert_eq!(engine.poll(105), Action::Launch(3));
    assert_eq!(engine.poll(106), Action::Launch(4));
    assert_eq!(engine.poll(107), Action::AwaitCompletion);
    assert!(engine.settle(&mut registry, Ok(quote("D", "d", 1.0, 1, 1))).is_none());
    assert_eq!(engine.poll(108), Action::AwaitCompletion);
    assert!(engine.settle(&mut registry, Ok(quote("E", "e", 1.0, 1, 1))).is_none());
    assert_eq!(engine.poll(400), Action::Sleep(700));
    assert_eq!(engine.phase(), Phase::Sleeping);
    assert_eq!(engine.in_flight(), 0);
}

#[test]
fn the_cap_is_never_passed() {
    let mut registry = fresh();
    for cap in 1usize..5 {
        let mut engine = Engine::with_limits(7, cap, 10).unwrap();
        let mut now = 0u64;
        let mut launched = Vec::new();
        for step in 0..200 {
            now += 1;
            match engine.poll(now) {
                Action::Launch(i) => launched.push(i),
                Action::AwaitCompletion => {
                    assert!(engine.in_flight() > 0);
                    if step % 3 == 0 {
                        assert!(engine.settle(&mut registry, Ok(quote("A", "a", 1.0, 1, 1))).is_none());
                    } else {
                        assert!(engine.settle(&mut registry, Err(FetchFailure::transport("A"))).is_some());
                    }
                }
                Action::Sleep(ms) => now += ms,
            }
            assert!(engine.in_flight() <= cap);
        }
        assert!(launched.len() >= 14);
        for (n, i) in launched.iter().enumerate() {
            assert_eq!(*i, n % 7);
        }
    }
}

#[test]
fn a_round_begins_an_interval_after_the_last_began() {
    let mut registry = fresh();
    let mut engine = Engine::with_limits(1, 2, 30_000).unwrap();
    assert_eq!(engine.poll(1_000), Action::Launch(0));
    assert_eq!(engine.poll(1_000), Action::AwaitCompletion);
    assert!(engine.settle(&mut registry, Ok(quote("A", "a", 1.0, 1, 1))).is_none());
    assert_eq!(engine.poll(1_250), Action::Sleep(29_750));
    assert_eq!(engine.poll(20_000), Action::Sleep(11_000));
    assert_eq!(engine.poll(30_999), Action::Sleep(1));
    assert_eq!(engine.phase(), Phase::Sleeping);
    assert_eq!(engine.poll(31_000), Action::Launch(0));
    assert_eq!(engine.phase(), Phase::Fetching);
    assert_eq!(engine.poll(31_000), Action::AwaitCompletion);
    assert!(engine.settle(&mut registry, Ok(quote("A", "a", 1.0, 1, 1))).is_none());
    assert_eq!(engine.poll(31_001), Action::Sleep(29_999));
}

#[test]
fn a_round_that_ran_over_is_followed_at_once() {
    let mut registry = fresh();
    let mut engine = Engine::with_limits(2, 2, 30_000).unwrap();
    assert_eq!(engine.poll(0), Action::Launch(0));
    assert_eq!(engine.poll(0), Action::Launch(1));
    assert!(engine.settle(&mut registry, Err(FetchFailure::transport("A"))).is_some());
    assert_eq!(engine.poll(29_999), Action::AwaitCompletion);
    assert_eq!(engine.poll(45_000), Action::AwaitCompletion);
    assert!(engine.settle(&mut registry, Err(FetchFailure::transport("B"))).is_some());
    assert_eq!(engine.poll(95_000), Action::Launch(0));
    assert_eq!(engine.poll(95_000), Action::Launch(1));
    assert!(engine.settle(&mut registry, Err(FetchFailure::transport("A"))).is_some());
    assert!(engine.settle(&mut registry, Err(FetchFailure::transport("B"))).is_some());
    assert_eq!(engine.poll(95_010), Action::Sleep(29_990));
}

#[test]
fn a_clock_that_goes_back_makes_a_full_sleep() {
    let mut registry = fresh();
    let mut engine = Engine::with_limits(1, 1, 500).unwrap();
    assert_eq!(engine.poll(10_000), Action::Launch(0));
    assert!(engine.settle(&mut registry, Err(FetchFailure::transport("A"))).is_some());
    assert_eq!(engine.poll(9_000), Action::Sleep(500));
}

#[test]
fn first_round_with_one_symbol_shows_its_cells() {
    let mut registry = fresh();
    let mut engine = Engine::new(1).unwrap();
    assert_eq!(engine.poll(0), Action::Launch(0));
    assert_eq!(engine.poll(1), Action::AwaitCompletion);
    let outcome = interpret_response("AAPL", 200, AAPL.as_bytes());
    assert!(engine.settle(&mut registry, outcome).is_none());
    assert_eq!(engine.poll(120), Action::Sleep(29_880));
    let sample = registry.sample("AAPL", "Apple Inc");
    assert_eq!(f64::from_bits(sample.latest_price.to_bits()), 137.02);
    assert_eq!(sample.latest_volume, 109244453);
    assert_eq!(sample.market_cap, 2264005852377);
}

#[test]
fn a_failed_symbol_leaves_the_other_published() {
    let mut registry = fresh();
    let mut engine = Engine::new(2).unwrap();
    assert_eq!(engine.poll(0), Action::Launch(0));
    assert_eq!(engine.poll(0), Action::Launch(1));
    let goog = interpret_response("GOOG", 500, b"Internal Server Error");
    let failure = engine.settle(&mut registry, goog).unwrap();
    assert_eq!(failure.symbol, "GOOG");
    assert_eq!(failure.kind, FailureKind::Status(500));
    assert!(failure.message().contains("GOOG"));
    let aapl = interpret_response("AAPL", 200, AAPL.as_bytes());
    assert!(engine.settle(&mut registry, aapl).is_none());
    assert_eq!(engine.poll(10), Action::Sleep(29_990));
    assert_eq!(registry.tuples(), 1);
    let sample = registry.sample("AAPL", "Apple Inc");
    assert_eq!(f64::from_bits(sample.latest_price.to_bits()), 137.02);
    assert_eq!(sample.latest_volume, 109244453);
    assert_eq!(sample.market_cap, 2264005852377);

    assert_eq!(engine.poll(30_000), Action::Launch(0));
    assert_eq!(engine.poll(30_000), Action::Launch(1));
    let aapl = interpret_response("AAPL", 200, AAPL.as_bytes());
    assert!(engine.settle(&mut registry, aapl).is_none());
    let goog = interpret_response("GOOG", 200, GOOG.as_bytes());
    assert!(engine.settle(&mut registry, goog).is_none());
    assert_eq!(registry.tuples(), 2);
    let sample = registry.sample("GOOG", "Alphabet Inc");
    assert_eq!(f64::from_bits(sample.latest_price.to_bits()), 2100.5);
    assert_eq!(sample.latest_volume, 1500000);
    assert_eq!(sample.market_cap, 1400000000000);
    let sample = registry.sample("AAPL", "Apple Inc");
    assert_eq!(f64::from_bits(sample.latest_price.to_bits()), 137.02);
    assert_eq!(sample.latest_volume, 109244453);
    assert_eq!(sample.market_cap, 2264005852377);
}

#[test]
fn a_malformed_body_keeps_the_last_values() {
    let mut registry = fresh();
    let mut engine = Engine::new(1).unwrap();
    assert_eq!(engine.poll(0), Action::Launch(0));
    let first = interpret_response("AAPL", 200, AAPL.as_bytes());
    assert!(engine.settle(&mut registry, first).is_none());
    assert_eq!(engine.poll(5), Action::Sleep(29_995));
    assert_eq!(engine.poll(30_000), Action::Launch(0));
    let second = interpret_response("AAPL", 200, b"{\"symbol\":\"AAPL\",\"latestPrice\":");
    let failure = engine.settle(&mut registry, second).unwrap();
    assert_eq!(failure.symbol, "AAPL");
    assert_eq!(failure.kind, FailureKind::Decode(DecodeError::Malformed));
    assert_eq!(registry.tuples(), 1);
    let sample = registry.sample("AAPL", "Apple Inc");
    assert_eq!(f64::from_bits(sample.latest_price.to_bits()), 137.02);
    assert_eq!(sample.latest_volume, 109244453);
    assert_eq!(sample.market_cap, 2264005852377);
}
