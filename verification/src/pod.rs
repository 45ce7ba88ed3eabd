//! The pod orchestrator: resolves configured brokers, persistent store,
//! event listeners and the strategy against the registry of known
//! implementations, in a fixed partial-failure-aware order, and owns the
//! event bus and the pod-wide global stop signal.
//!
//! Resolution here decides which configured identifiers are known and wires
//! bus namespaces and subscriptions; constructing the live instances behind
//! the returned handles, starting broker heartbeats between broker
//! resolution and use, and running the strategy are the owning task's work.

use vstd::prelude::*;

use crate::event::{Event, EventV};
use crate::event_bus::{
    events_of, lemma_subs_unchanged_upto_trans, lemma_subscriber_bounds, subs_fresh_between,
    subs_unchanged_upto, BusHandle, EventBus,
};
use crate::model::{ConfigMap, Error};

verus! {

/// Configuration of one resolvable component: which implementation, plus
/// its opaque configuration entries.
pub struct ComponentConfig {
    pub identifier: String,
    pub config_map: ConfigMap,
}

/// Everything one pod is asked to run.
pub struct PodConfig {
    pub broker_list: Vec<ComponentConfig>,
    pub metrics_registry: ComponentConfig,
    pub persistent_kv_store: ComponentConfig,
    pub strategy: ComponentConfig,
    pub event_listener_list: Vec<ComponentConfig>,
}

/// The identifier-to-implementation registry built at startup: the
/// identifiers under which concrete implementations are known.
pub struct Registry {
    pub broker_ids: Vec<String>,
    pub metrics_registry_ids: Vec<String>,
    pub store_ids: Vec<String>,
    pub strategy_ids: Vec<String>,
    pub event_listener_ids: Vec<String>,
}

/// A resolved, interceptor-wrapped broker: its identifier and the bus view
/// namespaced to it.
#[derive(Debug)]
pub struct BrokerHandle {
    pub identifier: String,
    pub bus_handle: BusHandle,
    pub config_map: ConfigMap,
}

/// A resolved persistent key-value store.
#[derive(Debug)]
pub struct PersistentKVStoreHandle {
    pub identifier: String,
    pub config_map: ConfigMap,
}

/// What a strategy is constructed with: ownership of the resolved brokers
/// and the store.
#[derive(Debug)]
pub struct StrategyContext {
    pub broker_list: Vec<BrokerHandle>,
    pub persistent_kv_store: PersistentKVStoreHandle,
    pub config_map: ConfigMap,
}

/// A resolved strategy, holding its context.
#[derive(Debug)]
pub struct StrategyHandle {
    pub identifier: String,
    pub context: StrategyContext,
}

/// The identifiers configured for brokers, in configuration order.
pub open spec fn configured_broker_ids(config: PodConfig) -> Seq<Seq<char>> {
    config.broker_list@.map_values(|c: ComponentConfig| c.identifier@)
}

/// Whether broker entry `k` resolves: its own identifier is known and so is
/// the pod's metrics registry, which every broker's interceptor needs.
pub open spec fn broker_entry_resolvable(config: PodConfig, registry: Registry, k: int) -> bool {
    &&& registry.metrics_registry_ids.deep_view().contains(config.metrics_registry.identifier@)
    &&& registry.broker_ids.deep_view().contains(config.broker_list@[k].identifier@)
}

/// Whether every configured broker resolves.
pub open spec fn all_brokers_resolvable(config: PodConfig, registry: Registry) -> bool {
    forall|k: int|
        0 <= k < config.broker_list@.len() ==> #[trigger] broker_entry_resolvable(
            config,
            registry,
            k,
        )
}

/// Whether event-listener entry `k` resolves.
pub open spec fn listener_resolvable(config: PodConfig, registry: Registry, k: int) -> bool {
    registry.event_listener_ids.deep_view().contains(config.event_listener_list@[k].identifier@)
}

/// Whether every configured event listener resolves.
pub open spec fn all_listeners_resolvable(config: PodConfig, registry: Registry) -> bool {
    forall|k: int|
        0 <= k < config.event_listener_list@.len() ==> #[trigger] listener_resolvable(
            config,
            registry,
            k,
        )
}

/// Whether the whole fixed initialization sequence succeeds.
pub open spec fn pod_resolvable(config: PodConfig, registry: Registry) -> bool {
    &&& all_brokers_resolvable(config, registry)
    &&& registry.store_ids.deep_view().contains(config.persistent_kv_store.identifier@)
    &&& all_listeners_resolvable(config, registry)
    &&& registry.strategy_ids.deep_view().contains(config.strategy.identifier@)
}

/// The configured identifiers joined with commas, in configuration order.
pub open spec fn spec_join_comma(ids: Seq<Seq<char>>) -> Seq<char>
    decreases ids.len(),
{
    if ids.len() == 0 {
        Seq::empty()
    } else if ids.len() == 1 {
        ids[0]
    } else {
        spec_join_comma(ids.drop_last()) + seq![','] + ids.last()
    }
}

/// Whether `ids` holds `id`.
fn contains_id(ids: &Vec<String>, id: &String) -> (r: bool)
    ensures
        r == ids.deep_view().contains(id@),
{
    let n = ids.len();
    let mut i: usize = 0;
    while i < n
        invariant
            i <= n,
            n == ids@.len(),
            forall|k: int| 0 <= k < i ==> ids.deep_view()[k] != id@,
        decreases n - i,
    {
        if ids[i] == *id {
            proof {
                assert(ids.deep_view()[i as int] == id@);
            }
            return true;
        }
        i += 1;
    }
    proof {
        assert(forall|k: int| 0 <= k < ids.deep_view().len() ==> ids.deep_view()[k] != id@);
    }
    false
}

/// The configured identifiers of `list`, joined with commas.
fn join_identifiers(list: &Vec<ComponentConfig>) -> (r: String)
    ensures
        r@ == spec_join_comma(list@.map_values(|c: ComponentConfig| c.identifier@)),
{
    let ghost ids = list@.map_values(|c: ComponentConfig| c.identifier@);
    let mut out = String::new();
    let n = list.len();
    let mut i: usize = 0;
    while i < n
        invariant
            i <= n,
            n == list@.len(),
            ids == list@.map_values(|c: ComponentConfig| c.identifier@),
            out@ == spec_join_comma(ids.take(i as int)),
        decreases n - i,
    {
        if i > 0 {
            out.append(",");
            proof {
                reveal_strlit(",");
                assert(","@ =~= seq![',']);
            }
        }
        out.append(list[i].identifier.as_str());
        proof {
            assert(ids.take(i + 1).drop_last() =~= ids.take(i as int));
            assert(ids.take(i + 1).last() == ids[i as int]);
        }
        i += 1;
    }
    proof {
        assert(ids.take(n as int) =~= ids);
    }
    out
}

/// An error naming the component kind and the identifier that resolved to
/// no known implementation.
fn identifier_not_matched(kind_prefix: &str, identifier: &String) -> (r: Error)
    ensures
        r.code@ == "IDENTIFIER_NOT_MATCHED"@,
        r.message@ == kind_prefix@ + identifier@,
{
    Error {
        code: "IDENTIFIER_NOT_MATCHED".to_owned(),
        message: kind_prefix.to_owned().concat(identifier.as_str()),
    }
}

/// Resolve the persistent key-value store: the store identifier must name a
/// known implementation, else the identifier-not-matched error naming it.
pub fn get_persistent_kv_instance(
    identifier: String,
    config_map: ConfigMap,
    registry: &Registry,
) -> (r: Result<PersistentKVStoreHandle, Error>)
    ensures
        registry.store_ids.deep_view().contains(identifier@) <==> r is Ok,
        r matches Ok(h) ==> h.identifier@ == identifier@ && h.config_map.entries_view()
            == config_map.entries_view(),
        r matches Err(e) ==> e.code@ == "IDENTIFIER_NOT_MATCHED"@ && e.message@ == "PersistentKV: "@
            + identifier@,
{
    if contains_id(&registry.store_ids, &identifier) {
        Result::Ok(PersistentKVStoreHandle { identifier, config_map })
    } else {
        Result::Err(identifier_not_matched("PersistentKV: ", &identifier))
    }
}

/// What the fixed initialization sequence guarantees: how the pod changed,
/// exactly when it succeeds, what the returned strategy was constructed
/// with, and which error each failing step returns.
pub open spec fn initialize_contract(
    pre: Pod,
    post: Pod,
    registry: Registry,
    r: Result<StrategyHandle, Error>,
) -> bool {
    let config = pre.config();
    &&& post.wf()
    &&& post.config() == config
    &&& post.global_stop() == pre.global_stop()
    &&& post.bus().history() == pre.bus().history()
    &&& post.bus().id() == pre.bus().id()
    &&& post.bus().pod() == pre.bus().pod()
    &&& post.bus().cap() == pre.bus().cap()
    &&& (pod_resolvable(config, registry) <==> r is Ok)
    &&& match r {
        Result::Ok(s) => {
            &&& s.identifier@ == config.strategy.identifier@
            &&& s.context.config_map.entries_view() == config.strategy.config_map.entries_view()
            &&& s.context.persistent_kv_store.identifier@
                == config.persistent_kv_store.identifier@
            &&& s.context.persistent_kv_store.config_map.entries_view()
                == config.persistent_kv_store.config_map.entries_view()
            &&& s.context.broker_list@.len() == config.broker_list@.len()
            &&& forall|k: int|
                0 <= k < s.context.broker_list@.len() ==> {
                    &&& (#[trigger] s.context.broker_list@[k]).identifier@
                        == config.broker_list@[k].identifier@
                    &&& s.context.broker_list@[k].bus_handle.id()
                        == config.broker_list@[k].identifier@
                    &&& s.context.broker_list@[k].config_map.entries_view()
                        == config.broker_list@[k].config_map.entries_view()
                }
            &&& post.bus().num_subscribers() == pre.bus().num_subscribers()
                + config.event_listener_list@.len()
            &&& subs_fresh_between(
                post.bus(),
                pre.bus().num_subscribers(),
                post.bus().num_subscribers(),
                pre.bus().history().len() as int,
            )
        },
        Result::Err(e) => {
            if !all_brokers_resolvable(config, registry) {
                &&& e.code@ == "ILLEGAL_BROKER_ID"@
                &&& e.message@ == spec_join_comma(configured_broker_ids(config))
                &&& post.bus().num_subscribers() == pre.bus().num_subscribers()
            } else if !registry.store_ids.deep_view().contains(
                config.persistent_kv_store.identifier@,
            ) {
                &&& e.code@ == "IDENTIFIER_NOT_MATCHED"@
                &&& e.message@ == "PersistentKV: "@ + config.persistent_kv_store.identifier@
                &&& post.bus().num_subscribers() == pre.bus().num_subscribers()
            } else if !all_listeners_resolvable(config, registry) {
                &&& e.code@ == "IDENTIFIER_NOT_MATCHED"@
                &&& exists|k: int|
                    {
                        &&& 0 <= k < config.event_listener_list@.len()
                        &&& !(#[trigger] listener_resolvable(config, registry, k))
                        &&& (forall|j: int|
                            0 <= j < k ==> listener_resolvable(config, registry, j))
                        &&& e.message@ == "EventListener: "@
                            + config.event_listener_list@[k].identifier@
                        &&& post.bus().num_subscribers() == pre.bus().num_subscribers() + k
                    }
                &&& subs_fresh_between(
                    post.bus(),
                    pre.bus().num_subscribers(),
                    post.bus().num_subscribers(),
                    pre.bus().history().len() as int,
                )
            } else {
                &&& e.code@ == "IDENTIFIER_NOT_MATCHED"@
                &&& e.message@ == "Strategy: "@ + config.strategy.identifier@
                &&& post.bus().num_subscribers() == pre.bus().num_subscribers()
                    + config.event_listener_list@.len()
                &&& subs_fresh_between(
                    post.bus(),
                    pre.bus().num_subscribers(),
                    post.bus().num_subscribers(),
                    pre.bus().history().len() as int,
                )
            }
        },
    }
    &&& subs_unchanged_upto(pre.bus(), post.bus(), pre.bus().num_subscribers())
}

/// One running pod: its configuration, its event bus, and the pod-wide
/// global stop signal that its shutdown path sets exactly once.
pub struct Pod {
    pod_config: PodConfig,
    event_bus: EventBus,
    global_stopped_indicator: bool,
}

impl Pod {
    /// This pod's configuration.
    pub closed spec fn config(self) -> PodConfig {
        self.pod_config
    }

    /// This pod's event bus.
    pub closed spec fn bus(self) -> EventBus {
        self.event_bus
    }

    /// Whether the pod-wide global stop signal has been set.
    pub closed spec fn global_stop(self) -> bool {
        self.global_stopped_indicator
    }

    /// The pod invariant: its bus is well formed.
    pub open spec fn wf(self) -> bool {
        self.bus().wf()
    }

    /// A pod around `pod_config`, with a fresh bus seeded with an empty
    /// broker namespace and scoped to `pod_id`, and the global stop signal
    /// clear.
    pub fn new(pod_config: PodConfig, pod_id: String) -> (res: Pod)
        ensures
            res.wf(),
            res.config() == pod_config,
            res.bus().history() == Seq::<EventV>::empty(),
            res.bus().num_subscribers() == 0,
            res.bus().id() == Seq::<char>::empty(),
            res.bus().pod() == pod_id@,
            !res.global_stop(),
    {
        proof {
            reveal_strlit("");
            assert(""@ =~= Seq::<char>::empty());
        }
        Pod {
            pod_config,
            event_bus: EventBus::new("".to_owned(), pod_id),
            global_stopped_indicator: false,
        }
    }

    /// Resolve every configured broker, giving each a bus view namespaced to
    /// its identifier. Fail-fast policy: if any entry does not resolve, the
    /// whole step fails with an aggregate error listing every configured
    /// broker identifier, not just the failing ones, and no broker handle is
    /// handed out.
    pub fn initialize_broker_list(&self, registry: &Registry) -> (r: Result<Vec<BrokerHandle>, Error>)
        ensures
            all_brokers_resolvable(self.config(), *registry) <==> r is Ok,
            r matches Ok(list) ==> list@.len() == self.config().broker_list@.len() && forall|k: int|
                0 <= k < list@.len() ==> (#[trigger] list@[k]).identifier@ == self.config().broker_list@[k].identifier@
                    && list@[k].bus_handle.id() == self.config().broker_list@[k].identifier@
                    && list@[k].config_map.entries_view()
                    == self.config().broker_list@[k].config_map.entries_view(),
            r matches Err(e) ==> e.code@ == "ILLEGAL_BROKER_ID"@ && e.message@ == spec_join_comma(
                configured_broker_ids(self.config()),
            ),
    {
        let mut broker_list: Vec<BrokerHandle> = Vec::new();
        let n = self.pod_config.broker_list.len();
        let mut i: usize = 0;
        while i < n
            invariant
                i <= n,
                n == self.pod_config.broker_list@.len(),
                broker_list@.len() <= i,
                broker_list@.len() == i <==> (forall|k: int|
                    0 <= k < i ==> broker_entry_resolvable(self.config(), *registry, k)),
                broker_list@.len() == i ==> forall|k: int|
                    0 <= k < i ==> (#[trigger] broker_list@[k]).identifier@
                        == self.config().broker_list@[k].identifier@ && broker_list@[k].bus_handle.id()
                        == self.config().broker_list@[k].identifier@
                        && broker_list@[k].config_map.entries_view()
                        == self.config().broker_list@[k].config_map.entries_view(),
            decreases n - i,
        {
            let bc = &self.pod_config.broker_list[i];
            let metrics_ok = contains_id(
                &registry.metrics_registry_ids,
                &self.pod_config.metrics_registry.identifier,
            );
            let broker_ok = contains_id(&registry.broker_ids, &bc.identifier);
            if metrics_ok && broker_ok {
                proof {
                    assert(broker_entry_resolvable(self.config(), *registry, i as int));
                }
                let bus_handle = self.event_bus.shallow_clone(Option::Some(bc.identifier.clone()));
                broker_list.push(
                    BrokerHandle {
                        identifier: bc.identifier.clone(),
                        bus_handle,
                        config_map: bc.config_map.clone(),
                    },
                );
            } else {
                proof {
                    assert(!broker_entry_resolvable(self.config(), *registry, i as int));
                }
            }
            i += 1;
        }
        if broker_list.len() != n {
            let message = join_identifiers(&self.pod_config.broker_list);
            proof {
                assert(!all_brokers_resolvable(self.config(), *registry));
            }
            return Result::Err(Error { code: "ILLEGAL_BROKER_ID".to_owned(), message });
        }
        Result::Ok(broker_list)
    }

    /// Resolve the pod's one persistent store.
    pub fn initialize_persistent_kv_store(&self, registry: &Registry) -> (r: Result<
        PersistentKVStoreHandle,
        Error,
    >)
        ensures
            registry.store_ids.deep_view().contains(self.config().persistent_kv_store.identifier@)
                <==> r is Ok,
            r matches Ok(h) ==> h.identifier@ == self.config().persistent_kv_store.identifier@
                && h.config_map.entries_view()
                == self.config().persistent_kv_store.config_map.entries_view(),
            r matches Err(e) ==> e.code@ == "IDENTIFIER_NOT_MATCHED"@ && e.message@
                == "PersistentKV: "@ + self.config().persistent_kv_store.identifier@,
    {
        get_persistent_kv_instance(
            self.pod_config.persistent_kv_store.identifier.clone(),
            self.pod_config.persistent_kv_store.config_map.clone(),
            registry,
        )
    }

    /// Resolve the configured event listeners in order, starting each
    /// resolved one against a fresh bus subscription. Short-circuit policy:
    /// the first identifier that does not resolve aborts with an error
    /// naming it; listeners already started keep their subscriptions.
    pub fn initialize_event_listeners(&mut self, registry: &Registry) -> (r: Result<(), Error>)
        requires
            old(self).wf(),
        ensures
            final(self).wf(),
            final(self).config() == old(self).config(),
            final(self).global_stop() == old(self).global_stop(),
            final(self).bus().history() == old(self).bus().history(),
            final(self).bus().id() == old(self).bus().id(),
            final(self).bus().pod() == old(self).bus().pod(),
            final(self).bus().cap() == old(self).bus().cap(),
            all_listeners_resolvable(old(self).config(), *registry) <==> r is Ok,
            r is Ok ==> final(self).bus().num_subscribers() == old(self).bus().num_subscribers()
                + old(self).config().event_listener_list@.len(),
            r matches Err(e) ==> exists|k: int|
                {
                    &&& 0 <= k < old(self).config().event_listener_list@.len()
                    &&& !(#[trigger] listener_resolvable(old(self).config(), *registry, k))
                    &&& forall|j: int|
                        0 <= j < k ==> listener_resolvable(old(self).config(), *registry, j)
                    &&& e.message@ == "EventListener: "@
                        + old(self).config().event_listener_list@[k].identifier@
                    &&& final(self).bus().num_subscribers() == old(self).bus().num_subscribers() + k
                },
            r matches Err(e) ==> e.code@ == "IDENTIFIER_NOT_MATCHED"@,
            subs_unchanged_upto(old(self).bus(), final(self).bus(), old(self).bus().num_subscribers()),
            subs_fresh_between(
                final(self).bus(),
                old(self).bus().num_subscribers(),
                final(self).bus().num_subscribers(),
                old(self).bus().history().len() as int,
            ),
    {
        let n = self.pod_config.event_listener_list.len();
        let mut i: usize = 0;
        while i < n
            invariant
                i <= n,
                old(self).wf(),
                self.wf(),
                n == self.pod_config.event_listener_list@.len(),
                self.config() == old(self).config(),
                self.global_stop() == old(self).global_stop(),
                self.bus().history() == old(self).bus().history(),
                self.bus().id() == old(self).bus().id(),
                self.bus().pod() == old(self).bus().pod(),
                self.bus().cap() == old(self).bus().cap(),
                self.bus().num_subscribers() == old(self).bus().num_subscribers() + i,
                forall|k: int| 0 <= k < i ==> listener_resolvable(old(self).config(), *registry, k),
                subs_unchanged_upto(old(self).bus(), self.bus(), old(self).bus().num_subscribers()),
                subs_fresh_between(
                    self.bus(),
                    old(self).bus().num_subscribers(),
                    self.bus().num_subscribers(),
                    old(self).bus().history().len() as int,
                ),
            decreases n - i,
        {
            let lc_resolvable = contains_id(
                &registry.event_listener_ids,
                &self.pod_config.event_listener_list[i].identifier,
            );
            if !lc_resolvable {
                let err = identifier_not_matched(
                    "EventListener: ",
                    &self.pod_config.event_listener_list[i].identifier,
                );
                proof {
                    assert(!listener_resolvable(old(self).config(), *registry, i as int));
                }
                return Result::Err(err);
            }
            proof {
                assert(listener_resolvable(old(self).config(), *registry, i as int));
            }
            let ghost bus_before = self.bus();
            let _subscription = self.event_bus.subscribe();
            proof {
                lemma_subs_unchanged_upto_trans(
                    old(self).bus(),
                    bus_before,
                    self.bus(),
                    old(self).bus().num_subscribers(),
                    bus_before.num_subscribers(),
                );
                lemma_subscriber_bounds(old(self).bus());
                let lo = old(self).bus().num_subscribers();
                let joined_at = old(self).bus().history().len() as int;
                assert forall|k: int|
                    #![trigger self.bus().sub_joined(k)]
                    #![trigger self.bus().sub_received(k)]
                    #![trigger self.bus().sub_pending(k)]
                    lo <= k < self.bus().num_subscribers() implies self.bus().sub_joined(k)
                    == joined_at && self.bus().sub_received(k) == Seq::<EventV>::empty()
                    && self.bus().sub_pending(k) == Seq::<EventV>::empty() by {
                    if k < bus_before.num_subscribers() {
                        assert(bus_before.sub_joined(k) == joined_at);
                        assert(self.bus().sub_joined(k) == bus_before.sub_joined(k));
                        assert(self.bus().sub_received(k) == bus_before.sub_received(k));
                        assert(self.bus().sub_pending(k) == bus_before.sub_pending(k));
                    } else {
                        assert(k == bus_before.num_subscribers());
                        assert(self.bus().sub_joined(k) == bus_before.history().len());
                    }
                }
            }
            i += 1;
        }
        Result::Ok(())
    }

    /// Resolve the strategy, handing it ownership of the resolved brokers
    /// and the store.
    pub fn initialize_strategy(
        &self,
        broker_list: Vec<BrokerHandle>,
        persistent_kv_store: PersistentKVStoreHandle,
        registry: &Registry,
    ) -> (r: Result<StrategyHandle, Error>)
        ensures
            registry.strategy_ids.deep_view().contains(self.config().strategy.identifier@) <==> r
                is Ok,
            r matches Ok(s) ==> s.identifier@ == self.config().strategy.identifier@
                && s.context.broker_list == broker_list && s.context.persistent_kv_store
                == persistent_kv_store && s.context.config_map.entries_view()
                == self.config().strategy.config_map.entries_view(),
            r matches Err(e) ==> e.code@ == "IDENTIFIER_NOT_MATCHED"@ && e.message@ == "Strategy: "@
                + self.config().strategy.identifier@,
    {
        if contains_id(&registry.strategy_ids, &self.pod_config.strategy.identifier) {
            Result::Ok(
                StrategyHandle {
                    identifier: self.pod_config.strategy.identifier.clone(),
                    context: StrategyContext {
                        broker_list,
                        persistent_kv_store,
                        config_map: self.pod_config.strategy.config_map.clone(),
                    },
                },
            )
        } else {
            Result::Err(identifier_not_matched("Strategy: ", &self.pod_config.strategy.identifier))
        }
    }

    /// The fixed initialization sequence: brokers (aggregate failure),
    /// store, event listeners (short-circuit failure), strategy. On any
    /// failure nothing later in the sequence is resolved or started; a
    /// broker or store failure leaves no listener subscribed. The owning
    /// task starts broker heartbeats between broker resolution and use and
    /// aborts on their failure.
    pub fn initialize(&mut self, registry: &Registry) -> (r: Result<StrategyHandle, Error>)
        requires
            old(self).wf(),
        ensures
            initialize_contract(*old(self), *final(self), *registry, r),
    {
        let broker_list = match self.initialize_broker_list(registry) {
            Result::Ok(list) => list,
            Result::Err(err) => {
                return Result::Err(err);
            },
        };
        let persistent_kv_store = match self.initialize_persistent_kv_store(registry) {
            Result::Ok(store) => store,
            Result::Err(err) => {
                return Result::Err(err);
            },
        };
        if let Result::Err(err) = self.initialize_event_listeners(registry) {
            return Result::Err(err);
        }
        self.initialize_strategy(broker_list, persistent_kv_store, registry)
    }

    /// Run the initialization sequence; the strategy whose handle is
    /// returned then defines the pod's running duration under the owning
    /// task.
    pub fn start(&mut self, registry: &Registry) -> (r: Result<StrategyHandle, Error>)
        requires
            old(self).wf(),
        ensures
            initialize_contract(*old(self), *final(self), *registry, r),
    {
        self.initialize(registry)
    }

    /// Request pod-wide shutdown: set the global stop signal that every
    /// subscription worker polls. It is set exactly once, by this path, and
    /// no operation of the pod ever clears it.
    pub fn stop(&mut self)
        ensures
            final(self).global_stop(),
            final(self).config() == old(self).config(),
            final(self).bus() == old(self).bus(),
    {
        self.global_stopped_indicator = true;
    }

    /// Read the global stop signal, as workers' polls do.
    pub fn global_stop_requested(&self) -> (r: bool)
        ensures
            r == self.global_stop(),
    {
        self.global_stopped_indicator
    }

    /// Read-only snapshot of the bus's replay log for diagnostics, without
    /// granting publish or subscribe access.
    pub fn inspect_log(&self) -> (log: &Vec<Event>)
        ensures
            events_of(log@) == self.bus().log_view(),
    {
        self.event_bus.inspect_log()
    }

    /// Mutable access to the pod's bus, for publishing and subscribing; the
    /// pod's other state is untouched by whatever the caller does with it.
    pub fn bus_mut(&mut self) -> (r: &mut EventBus)
        ensures
            *r == old(self).bus(),
            final(self).bus() == *final(r),
            final(self).config() == old(self).config(),
            final(self).global_stop() == old(self).global_stop(),
    {
        &mut self.event_bus
    }
}

} // verus!
