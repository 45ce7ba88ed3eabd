use rabbit_trading_core::model::{ConfigMap, Market, Symbol};
use rabbit_trading_core::subscription::{
    IBQuoteDepthInfoSubscriptionController, IBQuoteDepthInfoSubscriptionWorker, StreamEvent,
    StreamingData, TickField, WorkerPhase,
};
use rust_decimal::Decimal;

fn streaming_worker(conid: u64) -> IBQuoteDepthInfoSubscriptionWorker {
    let symbol = Symbol {
        market: Market::US,
        identifier: "ABNB".to_string(),
    };
    let mut worker = IBQuoteDepthInfoSubscriptionWorker::new(ConfigMap::new(), symbol);
    let request = worker.begin_subscribe(conid);
    assert_eq!(request.conid, conid);
    assert_eq!(
        request.fields,
        vec![
            TickField::AskPrice,
            TickField::AskSize,
            TickField::BidPrice,
            TickField::BidSize
        ]
    );
    worker.on_subscribe_result(true).unwrap();
    worker
}

fn full_tick(ask_price: i64, ask_size: i64, bid_price: i64, bid_size: i64) -> StreamEvent {
    StreamEvent::Data(StreamingData::MarketData {
        ask_price: Some(Decimal::new(ask_price, 2)),
        ask_size: Some(Decimal::new(ask_size, 0)),
        bid_price: Some(Decimal::new(bid_price, 2)),
        bid_size: Some(Decimal::new(bid_size, 0)),
    })
}

#[test]
fn one_tick_gives_exactly_one_depth_record() {
    let mut worker = streaming_worker(77);
    let record = worker
        .on_message(full_tick(10175, 40, 10150, 25), 1_700_000_000)
        .expect("a recognized tick must give one record");
    assert_eq!(record.sequence, 1_700_000_000);
    assert_eq!(record.timestamp, 1_700_000_000);
    assert_eq!(record.sequence, record.timestamp);
    assert_eq!(record.symbol.identifier, "ABNB");
    assert_eq!(record.ask_list.len(), 1);
    assert_eq!(record.bid_list.len(), 1);
    assert_eq!(record.ask_list[0].price, Decimal::new(10175, 2));
    assert_eq!(record.ask_list[0].volume, Decimal::new(40, 0));
    assert_eq!(record.bid_list[0].price, Decimal::new(10150, 2));
    assert_eq!(record.bid_list[0].volume, Decimal::new(25, 0));
    assert!(record.ask_list[0].position.is_none());
    assert!(record.ask_list[0].order_count.is_none());
    // and only that one record: a second poll gets a fresh message
    assert!(worker.on_message(StreamEvent::TransportError, 2).is_none());
}

#[test]
fn malformed_messages_never_terminate_the_stream() {
    let mut worker = streaming_worker(1);
    // transport-level error
    assert!(worker.on_message(StreamEvent::TransportError, 1).is_none());
    // unrecognized message kind
    assert!(worker
        .on_message(StreamEvent::Data(StreamingData::Other), 2)
        .is_none());
    // tick with a missing field
    let partial = StreamEvent::Data(StreamingData::MarketData {
        ask_price: Some(Decimal::new(100, 0)),
        ask_size: None,
        bid_price: Some(Decimal::new(99, 0)),
        bid_size: Some(Decimal::new(5, 0)),
    });
    assert!(worker.on_message(partial, 3).is_none());
    assert_eq!(worker.current_phase(), WorkerPhase::Streaming);
    // the stream still works afterwards
    assert!(worker.on_message(full_tick(1, 1, 1, 1), 4).is_some());
}

#[test]
fn local_stop_unsubscribes_and_terminates_cleanly() {
    let mut worker = streaming_worker(42);
    let mut controller = IBQuoteDepthInfoSubscriptionController::new(false);
    assert!(!controller.is_stop_requested());
    controller.stop();
    assert!(controller.is_stop_requested());

    let unsubscribe = worker
        .poll_stop(controller.is_stop_requested(), false)
        .expect("a set local signal must begin shutdown");
    assert_eq!(unsubscribe.conid, 42);
    assert_eq!(worker.current_phase(), WorkerPhase::Unsubscribing);
    assert!(worker.on_unsubscribe_result(true).is_ok());
    assert_eq!(worker.current_phase(), WorkerPhase::Terminated);
}

#[test]
fn global_stop_also_begins_shutdown() {
    let mut worker = streaming_worker(7);
    assert!(worker.poll_stop(false, false).is_none());
    assert_eq!(worker.current_phase(), WorkerPhase::Streaming);
    assert!(worker.poll_stop(false, true).is_some());
    assert_eq!(worker.current_phase(), WorkerPhase::Unsubscribing);
}

#[test]
fn subscribe_failure_is_a_terminal_start_error() {
    let symbol = Symbol {
        market: Market::US,
        identifier: "QQQ".to_string(),
    };
    let mut worker = IBQuoteDepthInfoSubscriptionWorker::new(ConfigMap::new(), symbol);
    worker.begin_subscribe(3);
    let err = worker.on_subscribe_result(false).unwrap_err();
    assert_eq!(err.code, "StreamStartError");
    assert_eq!(worker.current_phase(), WorkerPhase::Terminated);
}

#[test]
fn unsubscribe_failure_still_terminates() {
    let mut worker = streaming_worker(9);
    worker.poll_stop(true, false).unwrap();
    let err = worker.on_unsubscribe_result(false).unwrap_err();
    assert_eq!(err.code, "StreamStopError");
    assert_eq!(worker.current_phase(), WorkerPhase::Terminated);
}
