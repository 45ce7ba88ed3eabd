//! The Subscription Worker / Controller pair: the state machine governing a
//! live streaming market-data feed with cooperative shutdown.
//!
//! The worker's decisions are pure functions of its phase and of what the
//! surrounding task observed (stop signals, the next transport message, the
//! outcome of a subscribe or unsubscribe request); the task that owns the
//! transport drives these steps and performs the sends and awaits.

use vstd::prelude::*;

use crate::model::{ConfigMap, Depth, Error, QuoteDepthInfo, Symbol};

verus! {

/// Lifecycle of one worker instance. `Streaming` may exit to `Unsubscribing`
/// on a stop request, or the pair `Subscribing`/`Unsubscribing` may fail
/// straight into `Terminated`.
#[derive(Clone, Copy, PartialEq, Eq, Structural, Debug)]
pub enum WorkerPhase {
    Created,
    Subscribing,
    Streaming,
    Unsubscribing,
    Terminated,
}

/// Market-data fields a depth worker subscribes for.
#[derive(Clone, Copy, PartialEq, Eq, Structural, Debug)]
pub enum TickField {
    AskPrice,
    AskSize,
    BidPrice,
    BidSize,
}

/// The structured subscribe request handed to the transport.
pub struct SubscribeMarketDataRequest {
    pub conid: u64,
    pub fields: Vec<TickField>,
}

/// The structured unsubscribe request handed to the transport.
pub struct UnsubscribeMarketDataRequest {
    pub conid: u64,
}

/// A broker-native streaming message, already decoded to plain fields. A
/// tick that lacks any of the four fields is treated as unrecognized.
pub enum StreamingData {
    MarketData {
        ask_price: Option<rust_decimal::Decimal>,
        ask_size: Option<rust_decimal::Decimal>,
        bid_price: Option<rust_decimal::Decimal>,
        bid_size: Option<rust_decimal::Decimal>,
    },
    Other,
}

/// What one await on the transport produced.
pub enum StreamEvent {
    Data(StreamingData),
    TransportError,
}

/// A message for which exactly one canonical record is produced.
pub open spec fn recognized_tick(event: StreamEvent) -> bool {
    match event {
        StreamEvent::Data(
            StreamingData::MarketData { ask_price, ask_size, bid_price, bid_size },
        ) => ask_price is Some && ask_size is Some && bid_price is Some && bid_size is Some,
        _ => false,
    }
}

/// One observation a worker reacts to.
pub ghost enum WorkerInput {
    Begin,
    SubscribeResult { ok: bool },
    PollStop { local_stop: bool, global_stop: bool },
    Message { recognized: bool },
    UnsubscribeResult { ok: bool },
}

/// The worker transition relation: next phase, and whether this step emits a
/// canonical record. Inputs that a phase does not react to leave it alone.
pub open spec fn worker_step(phase: WorkerPhase, input: WorkerInput) -> (WorkerPhase, bool) {
    match (phase, input) {
        (WorkerPhase::Created, WorkerInput::Begin) => (WorkerPhase::Subscribing, false),
        (WorkerPhase::Subscribing, WorkerInput::SubscribeResult { ok }) => (
            if ok {
                WorkerPhase::Streaming
            } else {
                WorkerPhase::Terminated
            },
            false,
        ),
        (WorkerPhase::Streaming, WorkerInput::PollStop { local_stop, global_stop }) => (
            if local_stop || global_stop {
                WorkerPhase::Unsubscribing
            } else {
                WorkerPhase::Streaming
            },
            false,
        ),
        (WorkerPhase::Streaming, WorkerInput::Message { recognized }) => (
            WorkerPhase::Streaming,
            recognized,
        ),
        (WorkerPhase::Unsubscribing, WorkerInput::UnsubscribeResult { .. }) => (
            WorkerPhase::Terminated,
            false,
        ),
        (_, _) => (phase, false),
    }
}

/// How many canonical records a run of the machine emits from `phase` over
/// the whole observation sequence `inputs`.
pub open spec fn worker_emissions(phase: WorkerPhase, inputs: Seq<WorkerInput>) -> nat
    decreases inputs.len(),
{
    if inputs.len() == 0 {
        0
    } else {
        let step = worker_step(phase, inputs.first());
        (if step.1 {
            1nat
        } else {
            0nat
        }) + worker_emissions(step.0, inputs.drop_first())
    }
}

/// Law: a worker that has begun shutting down (or has terminated) emits no
/// canonical record ever again, whatever it goes on to observe.
pub proof fn lemma_no_records_after_stop_observed(phase: WorkerPhase, inputs: Seq<WorkerInput>)
    requires
        phase == WorkerPhase::Unsubscribing || phase == WorkerPhase::Terminated,
    ensures
        worker_emissions(phase, inputs) == 0,
    decreases inputs.len(),
{
    if inputs.len() > 0 {
        let step = worker_step(phase, inputs.first());
        lemma_no_records_after_stop_observed(step.0, inputs.drop_first());
    }
}

/// Law: a streaming worker that observes `local_stop` or `global_stop` set
/// transitions to `Unsubscribing` without emitting, and from there no input
/// sequence makes it emit another canonical record; its only further
/// transition is to `Terminated`.
pub proof fn lemma_stop_observed_begins_shutdown(
    local_stop: bool,
    global_stop: bool,
    later: Seq<WorkerInput>,
)
    requires
        local_stop || global_stop,
    ensures
        ({
            let step = worker_step(
                WorkerPhase::Streaming,
                WorkerInput::PollStop { local_stop, global_stop },
            );
            &&& step.0 == WorkerPhase::Unsubscribing
            &&& !step.1
            &&& worker_emissions(step.0, later) == 0
        }),
{
    lemma_no_records_after_stop_observed(WorkerPhase::Unsubscribing, later);
}

/// Law: a streaming worker survives any single malformed or unrecognized
/// transport message: it stays in `Streaming` and emits no record for it.
pub proof fn lemma_malformed_message_is_survived(event: StreamEvent)
    requires
        !recognized_tick(event),
    ensures
        worker_step(
            WorkerPhase::Streaming,
            WorkerInput::Message { recognized: recognized_tick(event) },
        ) == (WorkerPhase::Streaming, false),
{
}

/// The per-(broker, symbol) task that turns one streaming feed into
/// canonical depth records. It holds no transport: the owning task reports
/// what it observed and performs the requests these steps return.
pub struct IBQuoteDepthInfoSubscriptionWorker {
    config_map: ConfigMap,
    symbol: Symbol,
    conid: u64,
    phase: WorkerPhase,
}

impl IBQuoteDepthInfoSubscriptionWorker {
    /// Which phase of its lifecycle the worker is in.
    pub closed spec fn phase(self) -> WorkerPhase {
        self.phase
    }

    /// The symbol this worker streams.
    pub closed spec fn symbol(self) -> Symbol {
        self.symbol
    }

    /// The broker configuration this worker was created with.
    pub closed spec fn config(self) -> ConfigMap {
        self.config_map
    }

    /// The broker's contract identifier resolved for the symbol.
    pub closed spec fn conid(self) -> u64 {
        self.conid
    }

    /// Read which phase the worker is in.
    pub fn current_phase(&self) -> (r: WorkerPhase)
        ensures
            r == self.phase(),
    {
        self.phase
    }

    /// A fresh worker: transport not yet opened.
    pub fn new(config_map: ConfigMap, symbol: Symbol) -> (res: Self)
        ensures
            res.phase() == WorkerPhase::Created,
            res.symbol().market == symbol.market,
            res.symbol().identifier@ == symbol.identifier@,
            res.config() == config_map,
    {
        IBQuoteDepthInfoSubscriptionWorker {
            config_map,
            symbol,
            conid: 0,
            phase: WorkerPhase::Created,
        }
    }

    /// Enter `Subscribing` once the broker's contract identifier for the
    /// symbol is known; returns the subscribe request to send, asking for
    /// the four ask/bid price and size fields.
    pub fn begin_subscribe(&mut self, conid: u64) -> (req: SubscribeMarketDataRequest)
        requires
            old(self).phase() == WorkerPhase::Created,
        ensures
            final(self).phase() == worker_step(old(self).phase(), WorkerInput::Begin).0,
            final(self).phase() == WorkerPhase::Subscribing,
            final(self).conid() == conid,
            final(self).symbol() == old(self).symbol(),
            final(self).config() == old(self).config(),
            req.conid == conid,
            req.fields@ == seq![
                TickField::AskPrice,
                TickField::AskSize,
                TickField::BidPrice,
                TickField::BidSize,
            ],
    {
        self.conid = conid;
        self.phase = WorkerPhase::Subscribing;
        let mut fields: Vec<TickField> = Vec::new();
        fields.push(TickField::AskPrice);
        fields.push(TickField::AskSize);
        fields.push(TickField::BidPrice);
        fields.push(TickField::BidSize);
        proof {
            assert(fields@ =~= seq![
                TickField::AskPrice,
                TickField::AskSize,
                TickField::BidPrice,
                TickField::BidSize,
            ]);
        }
        SubscribeMarketDataRequest { conid, fields }
    }

    /// React to the outcome of the subscribe request. A failure here is
    /// terminal and is reported to the caller as a start error; no partial
    /// subscription is left active.
    pub fn on_subscribe_result(&mut self, ok: bool) -> (r: Result<(), Error>)
        requires
            old(self).phase() == WorkerPhase::Subscribing,
        ensures
            final(self).phase() == worker_step(
                old(self).phase(),
                WorkerInput::SubscribeResult { ok },
            ).0,
            final(self).conid() == old(self).conid(),
            final(self).symbol() == old(self).symbol(),
            final(self).config() == old(self).config(),
            ok <==> r is Ok,
            r matches Err(e) ==> e.code@ == "StreamStartError"@,
    {
        if ok {
            self.phase = WorkerPhase::Streaming;
            Result::Ok(())
        } else {
            self.phase = WorkerPhase::Terminated;
            Result::Err(
                Error {
                    code: "StreamStartError".to_owned(),
                    message: "the subscribe request for the market-data stream failed".to_owned(),
                },
            )
        }
    }

    /// The check a streaming worker makes first on every iteration: if the
    /// local or the global stop signal is set, begin shutting down and
    /// return the unsubscribe request to send; otherwise keep streaming.
    pub fn poll_stop(&mut self, local_stop: bool, global_stop: bool) -> (r: Option<
        UnsubscribeMarketDataRequest,
    >)
        requires
            old(self).phase() == WorkerPhase::Streaming,
        ensures
            final(self).phase() == worker_step(
                old(self).phase(),
                WorkerInput::PollStop { local_stop, global_stop },
            ).0,
            final(self).conid() == old(self).conid(),
            final(self).symbol() == old(self).symbol(),
            final(self).config() == old(self).config(),
            (local_stop || global_stop) <==> r is Some,
            r matches Some(req) ==> req.conid == old(self).conid(),
    {
        if local_stop || global_stop {
            self.phase = WorkerPhase::Unsubscribing;
            Option::Some(UnsubscribeMarketDataRequest { conid: self.conid })
        } else {
            Option::None
        }
    }

    /// Convert one transport observation. Exactly one canonical record is
    /// produced per recognized tick, stamped with `now` as both sequence
    /// number and timestamp; unrecognized messages and transport errors
    /// produce nothing and never terminate the stream.
    pub fn on_message(&mut self, event: StreamEvent, now: u64) -> (r: Option<QuoteDepthInfo>)
        requires
            old(self).phase() == WorkerPhase::Streaming,
        ensures
            final(self).phase() == WorkerPhase::Streaming,
            final(self).conid() == old(self).conid(),
            final(self).symbol() == old(self).symbol(),
            final(self).config() == old(self).config(),
            r is Some <==> recognized_tick(event),
            (final(self).phase(), r is Some) == worker_step(
                old(self).phase(),
                WorkerInput::Message { recognized: recognized_tick(event) },
            ),
            event matches StreamEvent::Data(StreamingData::MarketData {
                ask_price: Some(ap),
                ask_size: Some(av),
                bid_price: Some(bp),
                bid_size: Some(bv),
            }) ==> (r matches Some(q) && {
                &&& q.symbol.market == old(self).symbol().market
                &&& q.symbol.identifier@ == old(self).symbol().identifier@
                &&& q.sequence == now
                &&& q.timestamp == now
                &&& q.ask_list@.len() == 1
                &&& q.ask_list@[0].price == ap
                &&& q.ask_list@[0].volume == av
                &&& q.ask_list@[0].position is None
                &&& q.ask_list@[0].order_count is None
                &&& q.bid_list@.len() == 1
                &&& q.bid_list@[0].price == bp
                &&& q.bid_list@[0].volume == bv
                &&& q.bid_list@[0].position is None
                &&& q.bid_list@[0].order_count is None
            }),
    {
        match event {
            StreamEvent::Data(
                StreamingData::MarketData {
                    ask_price: Option::Some(ask_price),
                    ask_size: Option::Some(ask_size),
                    bid_price: Option::Some(bid_price),
                    bid_size: Option::Some(bid_size),
                },
            ) => {
                let ask_depth = Depth {
                    position: Option::None,
                    price: ask_price,
                    volume: ask_size,
                    order_count: Option::None,
                };
                let bid_depth = Depth {
                    position: Option::None,
                    price: bid_price,
                    volume: bid_size,
                    order_count: Option::None,
                };
                let mut ask_list: Vec<Depth> = Vec::new();
                ask_list.push(ask_depth);
                let mut bid_list: Vec<Depth> = Vec::new();
                bid_list.push(bid_depth);
                Option::Some(
                    QuoteDepthInfo {
                        symbol: self.symbol.clone(),
                        sequence: now,
                        timestamp: now,
                        ask_list,
                        bid_list,
                    },
                )
            },
            _ => Option::None,
        }
    }

    /// React to the outcome of the unsubscribe request. A failure is
    /// surfaced as an error, but the worker terminates and releases its
    /// channel either way.
    pub fn on_unsubscribe_result(&mut self, ok: bool) -> (r: Result<(), Error>)
        requires
            old(self).phase() == WorkerPhase::Unsubscribing,
        ensures
            final(self).phase() == worker_step(
                old(self).phase(),
                WorkerInput::UnsubscribeResult { ok },
            ).0,
            final(self).phase() == WorkerPhase::Terminated,
            final(self).conid() == old(self).conid(),
            final(self).symbol() == old(self).symbol(),
            final(self).config() == old(self).config(),
            ok <==> r is Ok,
            r matches Err(e) ==> e.code@ == "StreamStopError"@,
    {
        self.phase = WorkerPhase::Terminated;
        if ok {
            Result::Ok(())
        } else {
            Result::Err(
                Error {
                    code: "StreamStopError".to_owned(),
                    message: "the unsubscribe request for the market-data stream failed".to_owned(),
                },
            )
        }
    }
}

/// The shutdown handle paired with one worker. It owns the worker's local
/// stop signal and is the only component permitted to request cooperative
/// shutdown of that worker; it never touches the pod-wide global signal.
pub struct IBQuoteDepthInfoSubscriptionController {
    local_stopped_indicator: bool,
}

impl IBQuoteDepthInfoSubscriptionController {
    /// Whether this controller has requested its worker to stop.
    pub closed spec fn stop_requested(self) -> bool {
        self.local_stopped_indicator
    }

    /// A controller around one local stop signal.
    pub fn new(local_stopped_indicator: bool) -> (res: Self)
        ensures
            res.stop_requested() == local_stopped_indicator,
    {
        IBQuoteDepthInfoSubscriptionController { local_stopped_indicator }
    }

    /// Set the local stop signal. Advisory and asynchronous: the paired
    /// worker observes it at its next poll; this does not wait for the
    /// worker to terminate.
    pub fn stop(&mut self)
        ensures
            final(self).stop_requested(),
    {
        self.local_stopped_indicator = true;
    }

    /// Read the local stop signal, as the paired worker's poll does.
    pub fn is_stop_requested(&self) -> (r: bool)
        ensures
            r == self.stop_requested(),
    {
        self.local_stopped_indicator
    }
}

} // verus!
