//! Core of a pluggable trading runtime: an ordered, bounded-history event
//! bus, the cooperative shutdown protocol of streaming market-data workers,
//! the broker-call interceptor, and the pod orchestrator that wires brokers,
//! storage, listeners and a strategy together.

pub mod event;
pub mod event_bus;
pub mod info;
pub mod interceptor;
pub mod model;
pub mod pod;
pub mod portal;
pub mod strategy;
pub mod subscription;
