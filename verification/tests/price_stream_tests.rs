use trading_bot::number::Number;
use trading_bot::price_stream::{
    subscribe_frame, subscribe_request, Command, Event, Frame, Phase, PriceStream,
    BUFFER_CAPACITY, RECONNECT_BACKOFF_MILLIS,
};
use trading_bot::update::Envelope;

const ENDPOINT: &str = "wss://example.test/feed";

fn envelope(market: &str, ts: i64) -> Envelope {
    Envelope {
        market: Some(market.to_string()),
        bid: Some(Number::from_bits(1.5f64.to_bits())),
        ask: None,
        ts: Some(ts),
    }
}

fn subscribed_stream(market: &str) -> PriceStream {
    let mut stream = PriceStream::new(ENDPOINT.to_string());
    assert_eq!(stream.run(market.to_string()), Command::Connect(ENDPOINT.to_string()));
    assert_eq!(stream.on_event(Event::Opened), Command::SendText(subscribe_request(market)));
    assert_eq!(stream.on_event(Event::Sent), Command::Receive);
    assert_eq!(stream.phase(), Phase::Connected);
    stream
}

#[test]
fn subscribe_request_has_the_documented_shape() {
    assert_eq!(
        subscribe_request("BTC-HOURLY"),
        "{\"action\":\"subscribe\",\"channels\":[{\"name\":\"markets\",\"market\":\"BTC-HOURLY\"}]}"
    );
}

#[test]
fn subscribe_request_is_valid_json_for_any_market() {
    let market = "odd \"name\" \\ with\nbreaks\tand \u{1} control";
    let request = subscribe_request(market);
    let value: serde_json::Value = serde_json::from_str(&request).unwrap();
    assert_eq!(value["action"].as_str(), Some("subscribe"));
    let channels = value["channels"].as_array().unwrap();
    assert_eq!(channels.len(), 1);
    assert_eq!(channels[0]["name"].as_str(), Some("markets"));
    assert_eq!(channels[0]["market"].as_str(), Some(market));
}

#[test]
fn subscribe_request_escapes_the_market() {
    assert_eq!(
        subscribe_request("a\"b"),
        "{\"action\":\"subscribe\",\"channels\":[{\"name\":\"markets\",\"market\":\"a\\\"b\"}]}"
    );
}

#[test]
fn subscribe_frame_wraps_what_it_is_given() {
    assert_eq!(
        subscribe_frame("\"X\""),
        "{\"action\":\"subscribe\",\"channels\":[{\"name\":\"markets\",\"market\":\"X\"}]}"
    );
    assert_eq!(
        subscribe_frame(""),
        "{\"action\":\"subscribe\",\"channels\":[{\"name\":\"markets\",\"market\":}]}"
    );
}

#[test]
fn a_new_stream_stands_by() {
    let mut stream = PriceStream::new(ENDPOINT.to_string());
    assert_eq!(stream.phase(), Phase::Disconnected);
    assert_eq!(stream.command(), Command::Standby);
    assert_eq!(stream.on_event(Event::Opened), Command::Standby);
    assert_eq!(stream.on_event(Event::Received(Frame::Close)), Command::Standby);
    assert_eq!(stream.phase(), Phase::Disconnected);
}

#[test]
fn a_run_connects_subscribes_and_receives() {
    let mut stream = PriceStream::new(ENDPOINT.to_string());
    assert_eq!(stream.run("BTC-HOURLY".to_string()), Command::Connect(ENDPOINT.to_string()));
    assert_eq!(stream.phase(), Phase::Connecting);
    assert_eq!(
        stream.on_event(Event::Opened),
        Command::SendText(
            "{\"action\":\"subscribe\",\"channels\":[{\"name\":\"markets\",\"market\":\"BTC-HOURLY\"}]}"
                .to_string()
        )
    );
    assert_eq!(stream.phase(), Phase::Subscribing);
    assert_eq!(stream.on_event(Event::Sent), Command::Receive);
    assert_eq!(stream.phase(), Phase::Connected);
}

#[test]
fn the_first_connect_failure_is_fatal() {
    let mut stream = PriceStream::new(ENDPOINT.to_string());
    stream.run("BTC".to_string());
    assert_eq!(stream.on_event(Event::Failed), Command::Abort);
    assert_eq!(stream.phase(), Phase::Failed);
    assert_eq!(stream.on_event(Event::Elapsed), Command::Abort);
    assert_eq!(stream.on_event(Event::Opened), Command::Abort);
    assert_eq!(stream.phase(), Phase::Failed);
}

#[test]
fn a_failure_of_the_first_subscribe_is_fatal() {
    let mut stream = PriceStream::new(ENDPOINT.to_string());
    stream.run("BTC".to_string());
    stream.on_event(Event::Opened);
    assert_eq!(stream.on_event(Event::Failed), Command::Abort);
    assert_eq!(stream.phase(), Phase::Failed);
}

#[test]
fn a_failed_run_can_be_begun_again() {
    let mut stream = PriceStream::new(ENDPOINT.to_string());
    stream.run("BTC".to_string());
    stream.on_event(Event::Ended);
    assert_eq!(stream.phase(), Phase::Failed);
    assert_eq!(stream.run("ETH".to_string()), Command::Connect(ENDPOINT.to_string()));
    assert_eq!(stream.on_event(Event::Opened), Command::SendText(subscribe_request("ETH")));
}

#[test]
fn a_valid_envelope_is_published_to_every_subscriber() {
    let mut stream = subscribed_stream("BTC");
    let first = stream.subscribe();
    let second = stream.subscribe();
    let command = stream.on_event(Event::Received(Frame::Text(Some(envelope("BTC", 7)))));
    assert_eq!(command, Command::Receive);
    for id in [first, second] {
        let update = stream.take(id).unwrap();
        assert_eq!(update.instrument, "BTC");
        assert_eq!(f64::from_bits(update.bid.to_bits()), 1.5);
        assert_eq!(f64::from_bits(update.ask.to_bits()), 0.0);
        assert_eq!(update.timestamp, 7);
        assert_eq!(stream.take(id), None);
    }
}

#[test]
fn text_that_is_no_envelope_is_dropped_and_the_stream_reads_on() {
    let mut stream = subscribed_stream("BTC");
    let id = stream.subscribe();
    assert_eq!(stream.on_event(Event::Received(Frame::Text(None))), Command::Receive);
    assert_eq!(stream.phase(), Phase::Connected);
    assert_eq!(stream.take(id), None);
    stream.on_event(Event::Received(Frame::Text(Some(envelope("BTC", 1)))));
    assert_eq!(stream.take(id).unwrap().timestamp, 1);
}

#[test]
fn updates_reach_subscribers_in_arrival_order() {
    let mut stream = subscribed_stream("BTC");
    let id = stream.subscribe();
    for ts in 1..=4 {
        stream.on_event(Event::Received(Frame::Text(Some(envelope("BTC", ts)))));
    }
    let late = stream.subscribe();
    stream.on_event(Event::Received(Frame::Text(Some(envelope("BTC", 5)))));
    let mut seen = Vec::new();
    while let Some(update) = stream.take(id) {
        seen.push(update.timestamp);
    }
    assert_eq!(seen, vec![1, 2, 3, 4, 5]);
    assert_eq!(stream.take(late).unwrap().timestamp, 5);
    assert_eq!(stream.take(late), None);
}

#[test]
fn a_stream_buffers_up_to_its_capacity_and_then_drops_the_oldest() {
    let mut stream = subscribed_stream("BTC");
    let id = stream.subscribe();
    let total = BUFFER_CAPACITY as i64 + 3;
    for ts in 0..total {
        stream.on_event(Event::Received(Frame::Text(Some(envelope("BTC", ts)))));
    }
    let mut seen = Vec::new();
    while let Some(update) = stream.take(id) {
        seen.push(update.timestamp);
    }
    assert_eq!(seen.len(), BUFFER_CAPACITY);
    assert_eq!(seen.first(), Some(&3));
    assert_eq!(seen.last(), Some(&(total - 1)));
}

#[test]
fn a_ping_is_answered_with_its_payload_before_the_next_receive() {
    let mut stream = subscribed_stream("BTC");
    let payload = vec![1u8, 2, 3, 250];
    assert_eq!(
        stream.on_event(Event::Received(Frame::Ping(payload.clone()))),
        Command::SendPong(payload.clone())
    );
    assert_eq!(stream.phase(), Phase::Answering);
    assert_eq!(stream.on_event(Event::Elapsed), Command::SendPong(payload.clone()));
    assert_eq!(stream.on_event(Event::Received(Frame::Other)), Command::SendPong(payload));
    assert_eq!(stream.on_event(Event::Sent), Command::Receive);
    assert_eq!(stream.phase(), Phase::Connected);
}

#[test]
fn other_frames_are_ignored() {
    let mut stream = subscribed_stream("BTC");
    let id = stream.subscribe();
    assert_eq!(stream.on_event(Event::Received(Frame::Other)), Command::Receive);
    assert_eq!(stream.phase(), Phase::Connected);
    assert_eq!(stream.take(id), None);
}

fn expect_one_reconnect(mut stream: PriceStream, failure: Event, market: &str) {
    assert_eq!(stream.on_event(failure), Command::Wait(RECONNECT_BACKOFF_MILLIS));
    assert_eq!(stream.phase(), Phase::Reconnecting);
    assert_eq!(stream.on_event(Event::Opened), Command::Wait(RECONNECT_BACKOFF_MILLIS));
    assert_eq!(stream.on_event(Event::Sent), Command::Wait(RECONNECT_BACKOFF_MILLIS));
    assert_eq!(stream.on_event(Event::Failed), Command::Wait(RECONNECT_BACKOFF_MILLIS));
    assert_eq!(stream.phase(), Phase::Reconnecting);
    assert_eq!(stream.on_event(Event::Elapsed), Command::Connect(ENDPOINT.to_string()));
    assert_eq!(stream.on_event(Event::Opened), Command::SendText(subscribe_request(market)));
    assert_eq!(stream.on_event(Event::Sent), Command::Receive);
    assert_eq!(stream.phase(), Phase::Connected);
}

#[test]
fn a_close_frame_leads_to_one_reconnect_and_one_resubscribe() {
    expect_one_reconnect(subscribed_stream("BTC"), Event::Received(Frame::Close), "BTC");
}

#[test]
fn a_transport_error_leads_to_one_reconnect_and_one_resubscribe() {
    expect_one_reconnect(subscribed_stream("ETH"), Event::Failed, "ETH");
}

#[test]
fn the_end_of_the_stream_leads_to_one_reconnect_and_one_resubscribe() {
    expect_one_reconnect(subscribed_stream("SOL"), Event::Ended, "SOL");
}

#[test]
fn a_lost_pong_leads_to_a_reconnect() {
    let mut stream = subscribed_stream("BTC");
    stream.on_event(Event::Received(Frame::Ping(vec![9])));
    expect_one_reconnect(stream, Event::Failed, "BTC");
}

#[test]
fn the_backoff_is_one_second() {
    assert_eq!(RECONNECT_BACKOFF_MILLIS, 1000);
    assert_eq!(BUFFER_CAPACITY, 1024);
}

#[test]
fn reconnects_are_retried_without_end() {
    let mut stream = subscribed_stream("BTC");
    stream.on_event(Event::Failed);
    for _ in 0..50 {
        assert_eq!(stream.on_event(Event::Elapsed), Command::Connect(ENDPOINT.to_string()));
        assert_eq!(stream.on_event(Event::Failed), Command::Wait(RECONNECT_BACKOFF_MILLIS));
        assert_eq!(stream.phase(), Phase::Reconnecting);
    }
    stream.on_event(Event::Elapsed);
    stream.on_event(Event::Opened);
    assert_eq!(stream.on_event(Event::Failed), Command::Wait(RECONNECT_BACKOFF_MILLIS));
    stream.on_event(Event::Elapsed);
    stream.on_event(Event::Opened);
    assert_eq!(stream.on_event(Event::Sent), Command::Receive);
}

#[test]
fn subscribers_keep_their_updates_across_a_reconnect() {
    let mut stream = subscribed_stream("BTC");
    let id = stream.subscribe();
    stream.on_event(Event::Received(Frame::Text(Some(envelope("BTC", 1)))));
    stream.on_event(Event::Received(Frame::Close));
    stream.on_event(Event::Elapsed);
    stream.on_event(Event::Opened);
    stream.on_event(Event::Sent);
    stream.on_event(Event::Received(Frame::Text(Some(envelope("BTC", 2)))));
    assert_eq!(stream.take(id).unwrap().timestamp, 1);
    assert_eq!(stream.take(id).unwrap().timestamp, 2);
}

#[test]
fn an_envelope_outside_the_connected_phase_is_not_published() {
    let mut stream = PriceStream::new(ENDPOINT.to_string());
    let id = stream.subscribe();
    stream.run("BTC".to_string());
    assert_eq!(
        stream.on_event(Event::Received(Frame::Text(Some(envelope("BTC", 1))))),
        Command::Connect(ENDPOINT.to_string())
    );
    assert_eq!(stream.take(id), None);
}

#[test]
fn stopping_keeps_the_subscribers_and_goes_on_standby() {
    let mut stream = subscribed_stream("BTC");
    let id = stream.subscribe();
    stream.on_event(Event::Received(Frame::Text(Some(envelope("BTC", 1)))));
    stream.stop();
    assert_eq!(stream.phase(), Phase::Disconnected);
    assert_eq!(stream.command(), Command::Standby);
    assert_eq!(stream.on_event(Event::Received(Frame::Text(Some(envelope("BTC", 2))))), Command::Standby);
    assert_eq!(stream.take(id).unwrap().timestamp, 1);
    assert_eq!(stream.take(id), None);
    stream.unsubscribe(id);
    assert_eq!(stream.take(id), None);
}
