use std::time::Duration;
use trading_bot::clock::Timestamp;
use trading_bot::fix::{
    breaks_price_rule, FixError, MockFixClient, OrderAck, OrderRequest, OrderType, Side,
};
use trading_bot::number::Number;

fn number(value: f64) -> Number {
    Number::from_bits(value.to_bits())
}

fn request(order_type: OrderType) -> OrderRequest {
    OrderRequest {
        instrument: "BTC-HOURLY".to_string(),
        side: Side::Buy,
        quantity: number(1.0),
        order_type,
    }
}

fn at(nanos: u64) -> Timestamp {
    Timestamp::from_nanos(nanos)
}

#[test]
fn new_keeps_the_bounds() {
    let client = MockFixClient::new(Duration::from_millis(2), Duration::from_millis(4));
    assert_eq!(client.min_latency, Duration::from_millis(2));
    assert_eq!(client.max_latency, Duration::from_millis(4));
}

#[test]
fn a_limit_order_priced_at_or_below_zero_is_rejected() {
    let configurations = [
        (Duration::from_millis(0), Duration::from_millis(0)),
        (Duration::from_millis(2), Duration::from_millis(4)),
        (Duration::from_millis(500), Duration::from_millis(10_000)),
        (Duration::from_millis(9), Duration::from_millis(1)),
    ];
    let prices = [0.0, -0.0, -0.01, -1.0, -30000.0, f64::NEG_INFINITY, -5e-324];
    for (min, max) in configurations {
        let client = MockFixClient::new(min, max);
        for price in prices {
            let outcome = client.send_order(request(OrderType::Limit(number(price))), at(10), at(20));
            assert_eq!(
                outcome,
                Err(FixError::Rejected("limit price must be positive".to_string())),
                "price {price}"
            );
        }
    }
}

#[test]
fn a_limit_order_priced_above_zero_is_acknowledged() {
    let client = MockFixClient::new(Duration::from_millis(2), Duration::from_millis(4));
    for price in [5e-324, 0.01, 1.0, 29990.0, f64::MAX, f64::INFINITY] {
        let ack = client
            .send_order(request(OrderType::Limit(number(price))), at(1_000), at(3_500_000))
            .unwrap();
        assert_eq!(ack.order_id().as_str(), "SIM-3499000");
        assert_eq!(ack.sent_at(), at(1_000));
        assert_eq!(ack.acked_at(), at(3_500_000));
    }
}

#[test]
fn a_limit_price_that_is_no_number_is_not_rejected() {
    let client = MockFixClient::new(Duration::from_millis(2), Duration::from_millis(4));
    let outcome = client.send_order(request(OrderType::Limit(number(f64::NAN))), at(0), at(5));
    assert_eq!(outcome.unwrap().order_id().as_str(), "SIM-5");
}

#[test]
fn a_market_order_is_acknowledged() {
    let client = MockFixClient::new(Duration::from_millis(2), Duration::from_millis(4));
    let ack = client.send_order(request(OrderType::Market), at(0), at(2_000_000)).unwrap();
    assert_eq!(ack.order_id().as_str(), "SIM-2000000");
    assert!(ack.acked_at().nanos >= ack.sent_at().nanos);
}

#[test]
fn order_identifiers_are_written_in_decimal() {
    let client = MockFixClient::new(Duration::from_millis(0), Duration::from_millis(0));
    let cases: [(u64, u64, &str); 6] = [
        (0, 0, "SIM-0"),
        (5, 14, "SIM-9"),
        (0, 10, "SIM-10"),
        (1, 1_000_000_008, "SIM-1000000007"),
        (0, u64::MAX, "SIM-18446744073709551615"),
        (100, 40, "SIM-0"),
    ];
    for (sent, now, expected) in cases {
        let ack = client.send_order(request(OrderType::Market), at(sent), at(now)).unwrap();
        assert_eq!(ack.order_id().as_str(), expected);
    }
}

#[test]
fn an_acknowledgment_is_never_earlier_than_the_sending() {
    let client = MockFixClient::new(Duration::from_millis(0), Duration::from_millis(0));
    let ack = client.send_order(request(OrderType::Market), at(100), at(40)).unwrap();
    assert_eq!(ack.sent_at(), at(100));
    assert_eq!(ack.acked_at(), at(100));
    let built = OrderAck::new("X-1".to_string(), at(9), at(3));
    assert_eq!(built.order_id().as_str(), "X-1");
    assert_eq!(built.sent_at(), at(9));
    assert_eq!(built.acked_at(), at(9));
    let ordinary = OrderAck::new("X-2".to_string(), at(3), at(9));
    assert_eq!(ordinary.sent_at(), at(3));
    assert_eq!(ordinary.acked_at(), at(9));
}

#[test]
fn modify_order_accepts_any_price() {
    let client = MockFixClient::new(Duration::from_millis(2), Duration::from_millis(4));
    for price in [30000.0, 0.0, -1.0, f64::NAN] {
        let ack = client.modify_order("SIM-1", number(price), at(7), at(1_007)).unwrap();
        assert_eq!(ack.order_id().as_str(), "MOD-1000");
        assert_eq!(ack.sent_at(), at(7));
        assert_eq!(ack.acked_at(), at(1_007));
    }
}

#[test]
fn simulated_round_trips_lie_within_the_bounds() {
    let min = Duration::from_millis(2);
    let max = Duration::from_millis(4);
    let client = MockFixClient::new(min, max);
    let mut below_three = false;
    let mut above_three = false;
    for _ in 0..2000 {
        let nanos = client.simulate_round_trip().unwrap();
        assert!(min.as_nanos() <= nanos && nanos <= max.as_nanos(), "drawn {nanos}");
        below_three |= nanos < 3_000_000;
        above_three |= nanos > 3_000_000;
        let direct = client.draw_round_trip();
        assert!(min.as_nanos() <= direct && direct <= max.as_nanos(), "drawn {direct}");
    }
    assert!(below_three && above_three);
}

#[test]
fn round_trips_lie_within_bounds_of_less_than_a_millisecond() {
    let min = Duration::from_micros(2500);
    let max = Duration::from_micros(2900);
    let client = MockFixClient::new(min, max);
    for _ in 0..2000 {
        let nanos = client.simulate_round_trip().unwrap();
        let delay = Duration::new((nanos / 1_000_000_000) as u64, (nanos % 1_000_000_000) as u32);
        assert!(min <= delay && delay <= max, "drawn {delay:?}");
    }
}

#[test]
fn equal_bounds_fix_the_round_trip() {
    let client = MockFixClient::new(Duration::from_millis(7), Duration::from_millis(7));
    for _ in 0..20 {
        assert_eq!(client.simulate_round_trip(), Some(7_000_000));
    }
    let fine = MockFixClient::new(Duration::from_nanos(3_999_001), Duration::from_nanos(3_999_001));
    assert_eq!(fine.simulate_round_trip(), Some(3_999_001));
    let none = MockFixClient::new(Duration::ZERO, Duration::ZERO);
    assert_eq!(none.simulate_round_trip(), Some(0));
}

#[test]
fn round_trips_may_be_longer_than_a_machine_word_of_nanoseconds() {
    let long = Duration::new(u64::MAX, 999_999_999);
    let client = MockFixClient::new(long, long);
    assert_eq!(client.simulate_round_trip(), Some(long.as_nanos()));
}

#[test]
fn bounds_in_the_wrong_order_allow_no_round_trip() {
    let client = MockFixClient::new(Duration::from_millis(5), Duration::from_millis(4));
    assert_eq!(client.simulate_round_trip(), None);
    let close = MockFixClient::new(Duration::from_nanos(4_000_001), Duration::from_millis(4));
    assert_eq!(close.simulate_round_trip(), None);
}

#[test]
fn validation_rejects_before_any_round_trip() {
    let configurations = [
        (Duration::from_millis(2), Duration::from_millis(4)),
        (Duration::from_secs(3600), Duration::from_secs(7200)),
        (Duration::from_millis(9), Duration::from_millis(1)),
    ];
    for (min, max) in configurations {
        let client = MockFixClient::new(min, max);
        for price in [0.0, -0.0, -1.0, f64::NEG_INFINITY] {
            assert_eq!(
                client.validate(&request(OrderType::Limit(number(price)))),
                Err(FixError::Rejected("limit price must be positive".to_string())),
                "price {price}"
            );
        }
        for price in [5e-324, 1.0, 29990.0, f64::INFINITY, f64::NAN] {
            assert_eq!(client.validate(&request(OrderType::Limit(number(price)))), Ok(()));
        }
        assert_eq!(client.validate(&request(OrderType::Market)), Ok(()));
    }
}

#[test]
fn the_price_rule_concerns_limit_orders_only() {
    assert!(!breaks_price_rule(&OrderType::Market));
    assert!(breaks_price_rule(&OrderType::Limit(number(0.0))));
    assert!(breaks_price_rule(&OrderType::Limit(number(-2.5))));
    assert!(!breaks_price_rule(&OrderType::Limit(number(2.5))));
}

#[test]
fn errors_describe_themselves() {
    assert_eq!(
        FixError::Connection("socket closed".to_string()).message(),
        "connection failure: socket closed"
    );
    assert_eq!(
        FixError::Rejected("limit price must be positive".to_string()).message(),
        "order rejected: limit price must be positive"
    );
}

#[test]
fn readings_of_the_clock() {
    assert_eq!(at(10).nanos_since(at(4)), 6);
    assert_eq!(at(4).nanos_since(at(10)), 0);
    assert_eq!(at(4).nanos_since(at(4)), 0);
    assert_eq!(at(u64::MAX).nanos_since(at(0)), u64::MAX);
    assert_eq!(at(4).or_later(at(10)), at(10));
    assert_eq!(at(10).or_later(at(4)), at(10));
}
