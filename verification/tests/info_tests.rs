use rabbit_trading_core::event::EventPayload;
use rabbit_trading_core::event_bus::EventBus;
use rabbit_trading_core::info::quote_info_from_quote_fields;
use rabbit_trading_core::interceptor::BrokerCallInterceptor;
use rabbit_trading_core::model::{Market, Quote, QuoteInfo, QuoteKind, Symbol};
use rabbit_trading_core::strategy::PrintLivePriceStrategy;
use rust_decimal::Decimal;

#[test]
fn quote_info_carries_every_field_over() {
    let quote = Quote {
        kind: QuoteKind::Stock,
        identifier: "0700.HK".to_string(),
    };
    let info = quote_info_from_quote_fields(
        quote,
        1_700_000_123,
        Decimal::new(32060, 2),
        Decimal::new(31700, 2),
        Decimal::new(32340, 2),
        Decimal::new(31980, 2),
        Decimal::new(31900, 2),
        21_235_614,
        Decimal::new(680_423_151, 1),
    );
    assert_eq!(info.quote.to_text(), "Stock:0700.HK");
    assert_eq!(info.sequence, 1_700_000_123);
    assert_eq!(info.timestamp, 1_700_000_123);
    assert_eq!(info.current_price, Decimal::new(32060, 2));
    assert_eq!(info.low_price, Some(Decimal::new(31700, 2)));
    assert_eq!(info.high_price, Some(Decimal::new(32340, 2)));
    assert_eq!(info.open_price, Some(Decimal::new(31980, 2)));
    assert_eq!(info.prev_close, Some(Decimal::new(31900, 2)));
    assert_eq!(info.volume, 21_235_614);
    assert_eq!(info.turnover, Some(Decimal::new(680_423_151, 1)));
    assert!(info.extra.is_none());
}

fn sample_quote_info(volume: u64) -> QuoteInfo {
    quote_info_from_quote_fields(
        Quote {
            kind: QuoteKind::Stock,
            identifier: "ABNB".to_string(),
        },
        1,
        Decimal::new(100, 0),
        Decimal::new(99, 0),
        Decimal::new(101, 0),
        Decimal::new(100, 0),
        Decimal::new(100, 0),
        volume as i64,
        Decimal::new(1, 0),
    )
}

#[test]
fn print_strategy_runs_until_the_channel_closes() {
    let symbol = Symbol {
        market: Market::US,
        identifier: "ABNB".to_string(),
    };
    let strategy = PrintLivePriceStrategy::new(symbol);
    assert!(strategy.on_receive(&Some(sample_quote_info(10))));
    assert!(strategy.on_receive(&Some(sample_quote_info(11))));
    assert!(!strategy.on_receive(&None));
}

#[test]
fn interceptor_brackets_a_call_with_invoked_and_outcome() {
    let mut bus = EventBus::with_capacity("".to_string(), "pod".to_string(), 16);
    let handle = bus.shallow_clone(Some("broker-a".to_string()));
    let interceptor = BrokerCallInterceptor::new(handle);

    interceptor.before_call(&mut bus, "place_order".to_string(), 10);
    let ok_obs = interceptor.after_call(&mut bus, "place_order".to_string(), None, 10, 13);
    interceptor.before_call(&mut bus, "tickle".to_string(), 14);
    let err_obs = interceptor.after_call(
        &mut bus,
        "tickle".to_string(),
        Some("gateway unreachable".to_string()),
        14,
        16,
    );

    // Exactly one metrics observation per bracketed call.
    assert_eq!(ok_obs.call, "place_order");
    assert!(ok_obs.success);
    assert_eq!(ok_obs.latency, 3);
    assert_eq!(err_obs.call, "tickle");
    assert!(!err_obs.success);
    assert_eq!(err_obs.latency, 2);

    let log = bus.inspect_log();
    assert_eq!(log.len(), 4);
    for event in log.iter() {
        assert_eq!(event.broker_id, "broker-a");
        assert_eq!(event.pod_id, "pod");
    }
    assert!(matches!(&log[0].payload, EventPayload::BrokerCallInvoked { call } if call == "place_order"));
    assert!(matches!(&log[1].payload, EventPayload::BrokerCallSucceeded { call } if call == "place_order"));
    assert!(matches!(&log[2].payload, EventPayload::BrokerCallInvoked { call } if call == "tickle"));
    assert!(
        matches!(&log[3].payload, EventPayload::BrokerCallFailed { call, reason } if call == "tickle" && reason == "gateway unreachable")
    );
}
