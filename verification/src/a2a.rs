//! Agents talking to agents: identities, registrations, messages and the
//! settings of the transports. Durations are whole seconds and instants are
//! seconds since the Unix epoch.

use vstd::prelude::*;
use crate::ids::{is_uuid_v4_text, new_uuid_string};
use crate::strmap::StrMap;
use crate::error::AgentError;
use crate::text::{concat2, push_str, str_eq, views};

verus! {

/// The identity of an agent: its namespace, its name and the instance.
#[derive(Debug, Clone, PartialEq, Eq, Hash)]
pub struct AgentId {
    pub namespace: String,
    pub name: String,
    pub instance: String,
}

impl AgentId {
    /// A new instance of the agent `name` in `namespace`.
    pub fn new(namespace: &str, name: &str) -> (a: Self)
        ensures
            a.namespace@ == namespace@,
            a.name@ == name@,
            is_uuid_v4_text(a.instance@),
    {
        AgentId { namespace: String::from_str(namespace), name: String::from_str(name), instance: new_uuid_string() }
    }

    /// The identity written as namespace, name and instance apart by colons.
    pub fn to_string(&self) -> (r: String)
        ensures
            r@ == self.namespace@ + ":"@ + self.name@ + ":"@ + self.instance@,
    {
        let mut r = self.namespace.clone();
        push_str(&mut r, ":");
        push_str(&mut r, self.name.as_str());
        push_str(&mut r, ":");
        push_str(&mut r, self.instance.as_str());
        r
    }
}

/// What an agent can do.
#[derive(Debug, Clone)]
pub struct AgentCapabilities {
    pub services: Vec<String>,
    pub protocols: Vec<String>,
    pub message_types: Vec<String>,
    pub metadata: StrMap<String>,
}

/// The state of an agent.
#[derive(Debug, Clone)]
pub enum AgentStatus {
    Online,
    Busy,
    Idle,
    Offline,
    Error { message: String },
}

/// An agent as the registry knows it.
#[derive(Debug, Clone)]
pub struct AgentRegistration {
    pub agent_id: AgentId,
    pub capabilities: AgentCapabilities,
    pub endpoints: StrMap<String>,
    pub heartbeat_interval_secs: u64,
    pub registered_at_secs: u64,
    pub last_seen_secs: u64,
    pub status: AgentStatus,
}

/// The kinds of message.
#[derive(Debug, Clone, Copy, PartialEq, Eq, Structural)]
pub enum MessageType {
    Request,
    Response,
    Event,
    Command,
    Query,
    Notification,
    Heartbeat,
    Acknowledgment,
}

/// How urgent a message is, from low to critical.
#[derive(Debug, Clone, Copy, PartialEq, Eq, PartialOrd, Ord, Structural)]
pub enum MessagePriority {
    Low,
    Normal,
    High,
    Critical,
}

/// The number of a priority, from 0 for low to 3 for critical.
pub fn priority_level(p: MessagePriority) -> (n: u8)
    ensures
        p == MessagePriority::Low ==> n == 0,
        p == MessagePriority::Normal ==> n == 1,
        p == MessagePriority::High ==> n == 2,
        p == MessagePriority::Critical ==> n == 3,
{
    match p {
        MessagePriority::Low => 0,
        MessagePriority::Normal => 1,
        MessagePriority::High => 2,
        MessagePriority::Critical => 3,
    }
}

/// How a message was handled.
#[derive(Debug, Clone, Copy, PartialEq, Eq, Structural)]
pub enum ResponseStatus {
    Success,
    Error,
    Timeout,
    Rejected,
    Processing,
}

/// The transports between agents.
#[derive(Debug, Clone, Copy, PartialEq, Eq, Hash, Structural)]
pub enum ProtocolType {
    Http,
    WebSocket,
    Redis,
    RabbitMQ,
    Tcp,
    Udp,
    InMemory,
}

/// The settings of one transport.
#[derive(Debug, Clone)]
pub struct ProtocolConfig {
    pub enabled: bool,
    pub endpoint: String,
    pub timeout_secs: u64,
    pub retry_attempts: u32,
    pub connection_pool_size: u32,
    pub settings: StrMap<String>,
}

/// How agents find each other.
#[derive(Debug, Clone)]
pub struct ServiceDiscoveryConfig {
    pub enabled: bool,
    pub registry_type: String,
    pub registry_url: String,
    pub heartbeat_interval_secs: u64,
    pub discovery_interval_secs: u64,
    pub ttl_secs: u64,
}

/// How often agents may call.
#[derive(Debug, Clone, Copy, PartialEq, Eq, Structural)]
pub struct RateLimitConfig {
    pub requests_per_minute: u32,
    pub burst_size: u32,
    pub enable_per_agent_limits: bool,
}

/// How calls between agents are secured.
#[derive(Debug, Clone)]
pub struct SecurityConfig {
    pub enable_authentication: bool,
    pub enable_encryption: bool,
    pub api_key: Option<String>,
    pub certificate_path: Option<String>,
    pub allowed_agents: Option<Vec<AgentId>>,
    pub rate_limit: Option<RateLimitConfig>,
}

/// How load is spread over agents.
#[derive(Debug, Clone, Copy, PartialEq, Eq, Structural)]
pub enum LoadBalancingStrategy {
    RoundRobin,
    WeightedRoundRobin,
    LeastConnections,
    Random,
    ConsistentHashing,
}

/// When calls to a failing agent are held back.
#[derive(Debug, Clone, Copy, PartialEq, Eq, Structural)]
pub struct CircuitBreakerConfig {
    pub enabled: bool,
    pub failure_threshold: u32,
    pub timeout_secs: u64,
    pub half_open_max_calls: u32,
}

/// How messages are routed.
#[derive(Debug, Clone)]
pub struct RoutingConfig {
    pub enable_routing: bool,
    pub routing_table: StrMap<Vec<AgentId>>,
    pub load_balancing: LoadBalancingStrategy,
    pub circuit_breaker: CircuitBreakerConfig,
}

/// The settings of agent-to-agent communication.
#[derive(Debug, Clone)]
pub struct A2AConfig {
    pub agent_id: AgentId,
    pub protocols: Vec<(ProtocolType, ProtocolConfig)>,
    pub discovery: ServiceDiscoveryConfig,
    pub security: SecurityConfig,
    pub routing: RoutingConfig,
}

impl Default for A2AConfig {
    /// The agent "default:agent" over HTTP on port 8080, discovered through
    /// a registry on port 8500, without authentication or routing.
    fn default() -> (c: Self)
        ensures
            c.agent_id.namespace@ == "default"@,
            c.agent_id.name@ == "agent"@,
            c.protocols@.len() == 1,
            c.protocols@[0].0 == ProtocolType::Http,
            c.protocols@[0].1.enabled,
            c.protocols@[0].1.endpoint@ == "http://localhost:8080"@,
            c.protocols@[0].1.timeout_secs == 30,
            c.protocols@[0].1.retry_attempts == 3,
            c.protocols@[0].1.connection_pool_size == 10,
            c.discovery.enabled,
            c.discovery.registry_type@ == "http"@,
            c.discovery.registry_url@ == "http://localhost:8500"@,
            c.discovery.heartbeat_interval_secs == 30,
            c.discovery.discovery_interval_secs == 60,
            c.discovery.ttl_secs == 90,
            !c.security.enable_authentication,
            !c.security.enable_encryption,
            c.security.api_key is None,
            c.security.rate_limit is None,
            !c.routing.enable_routing,
            c.routing.load_balancing == LoadBalancingStrategy::RoundRobin,
            c.routing.circuit_breaker == (CircuitBreakerConfig {
                enabled: false, failure_threshold: 5, timeout_secs: 60, half_open_max_calls: 3 }),
    {
        let mut protocols: Vec<(ProtocolType, ProtocolConfig)> = Vec::new();
        protocols.push((ProtocolType::Http, ProtocolConfig {
            enabled: true,
            endpoint: String::from_str("http://localhost:8080"),
            timeout_secs: 30,
            retry_attempts: 3,
            connection_pool_size: 10,
            settings: StrMap::new(),
        }));
        A2AConfig {
            agent_id: AgentId::new("default", "agent"),
            protocols,
            discovery: ServiceDiscoveryConfig {
                enabled: true,
                registry_type: String::from_str("http"),
                registry_url: String::from_str("http://localhost:8500"),
                heartbeat_interval_secs: 30,
                discovery_interval_secs: 60,
                ttl_secs: 90,
            },
            security: SecurityConfig {
                enable_authentication: false,
                enable_encryption: false,
                api_key: None,
                certificate_path: None,
                allowed_agents: None,
                rate_limit: None,
            },
            routing: RoutingConfig {
                enable_routing: false,
                routing_table: StrMap::new(),
                load_balancing: LoadBalancingStrategy::RoundRobin,
                circuit_breaker: CircuitBreakerConfig {
                    enabled: false,
                    failure_threshold: 5,
                    timeout_secs: 60,
                    half_open_max_calls: 3,
                },
            },
        }
    }
}

/// Whether two identities name the same agent instance.
pub open spec fn same_agent(a: AgentId, b: AgentId) -> bool {
    a.namespace@ == b.namespace@ && a.name@ == b.name@ && a.instance@ == b.instance@
}

fn same_agent_exec(a: &AgentId, b: &AgentId) -> (r: bool)
    ensures
        r == same_agent(*a, *b),
{
    str_eq(a.namespace.as_str(), b.namespace.as_str()) && str_eq(a.name.as_str(), b.name.as_str())
        && str_eq(a.instance.as_str(), b.instance.as_str())
}

/// The registration of an agent reached in memory, registered at `now_secs`.
pub fn local_registration(agent_id: AgentId, capabilities: AgentCapabilities, now_secs: u64) -> (r: AgentRegistration)
    ensures
        r.agent_id == agent_id,
        r.capabilities == capabilities,
        r.endpoints@.dom() == set!["local"@],
        r.endpoints@["local"@]@ == "inmemory"@,
        r.heartbeat_interval_secs == 30,
        r.registered_at_secs == now_secs,
        r.last_seen_secs == now_secs,
        r.status is Online,
{
    let mut endpoints: StrMap<String> = StrMap::new();
    endpoints.insert(String::from_str("local"), String::from_str("inmemory"));
    assert(endpoints@.dom() =~= set!["local"@]);
    AgentRegistration {
        agent_id,
        capabilities,
        endpoints,
        heartbeat_interval_secs: 30,
        registered_at_secs: now_secs,
        last_seen_secs: now_secs,
        status: AgentStatus::Online,
    }
}

/// The agents known to an in-process registry, one registration per agent
/// instance.
#[derive(Debug)]
pub struct AgentRegistry {
    entries: Vec<AgentRegistration>,
}

/// Whether a registration offers the service `capability`.
pub open spec fn offers_service(r: AgentRegistration, capability: Seq<char>) -> bool {
    views(r.capabilities.services@).contains(capability)
}

/// The registrations of `regs` that offer `capability`, in order.
pub open spec fn offering(regs: Seq<AgentRegistration>, capability: Seq<char>) -> Seq<AgentRegistration>
    decreases regs.len(),
{
    if regs.len() == 0 {
        Seq::empty()
    } else {
        let rest = offering(regs.drop_last(), capability);
        if offers_service(regs.last(), capability) { rest.push(regs.last()) } else { rest }
    }
}

/// The message of an agent that is not registered.
pub open spec fn agent_not_found(id: AgentId) -> Seq<char> {
    "Agent "@ + id.namespace@ + ":"@ + id.name@ + ":"@ + id.instance@ + " not found"@
}

impl AgentRegistry {
    /// Whether no two registrations are of the same agent instance.
    #[verifier::type_invariant]
    spec fn one_per_agent(&self) -> bool {
        forall|i: int, j: int| 0 <= i < j < self.entries@.len() ==> !same_agent(self.entries@[i].agent_id, self.entries@[j].agent_id)
    }

    /// The registrations, in the order the agents first registered.
    pub closed spec fn registrations(&self) -> Seq<AgentRegistration> {
        self.entries@
    }

    /// Whether agent `id` is registered.
    pub open spec fn knows(&self, id: AgentId) -> bool {
        exists|i: int| 0 <= i < self.registrations().len() && same_agent(#[trigger] self.registrations()[i].agent_id, id)
    }

    /// An empty registry.
    pub fn new() -> (r: Self)
        ensures
            r.registrations().len() == 0,
    {
        AgentRegistry { entries: Vec::new() }
    }

    fn position(&self, id: &AgentId) -> (r: Option<usize>)
        ensures
            match r {
                Some(i) => i < self.entries@.len() && same_agent(self.entries@[i as int].agent_id, *id),
                None => forall|i: int| 0 <= i < self.entries@.len() ==> !same_agent(self.entries@[i].agent_id, *id),
            },
    {
        let mut i: usize = 0;
        while i < self.entries.len()
            invariant
                i <= self.entries@.len(),
                forall|k: int| 0 <= k < i ==> !same_agent(self.entries@[k].agent_id, *id),
            decreases self.entries@.len() - i,
        {
            if same_agent_exec(&self.entries[i].agent_id, id) {
                return Some(i);
            }
            i = i + 1;
        }
        None
    }

    /// Registers an agent; a registration of the same instance is replaced
    /// in its place.
    pub fn register(&mut self, registration: AgentRegistration)
        ensures
            old(self).knows(registration.agent_id) ==> exists|i: int| 0 <= i < old(self).registrations().len()
                && same_agent(old(self).registrations()[i].agent_id, registration.agent_id)
                && final(self).registrations() == old(self).registrations().update(i, registration),
            !old(self).knows(registration.agent_id) ==> final(self).registrations() == old(self).registrations().push(registration),
    {
        proof {
            use_type_invariant(&*self);
        }
        match self.position(&registration.agent_id) {
            Some(i) => {
                let mut entries: Vec<AgentRegistration> = Vec::new();
                std::mem::swap(&mut entries, &mut self.entries);
                let ghost before = entries@;
                entries.set(i, registration);
                proof {
                    assert forall|a: int, b: int| 0 <= a < b < entries@.len() implies
                        !same_agent(entries@[a].agent_id, entries@[b].agent_id) by {
                        assert(same_agent(before[i as int].agent_id, entries@[i as int].agent_id));
                        if a != i {
                            assert(entries@[a] == before[a]);
                        }
                        if b != i {
                            assert(entries@[b] == before[b]);
                        }
                    }
                }
                self.entries = entries;
            },
            None => {
                let mut entries: Vec<AgentRegistration> = Vec::new();
                std::mem::swap(&mut entries, &mut self.entries);
                entries.push(registration);
                self.entries = entries;
            },
        }
    }

    /// Removes the registration of agent `id`.
    pub fn unregister(&mut self, id: &AgentId)
        ensures
            !final(self).knows(*id),
            old(self).knows(*id) ==> exists|i: int| 0 <= i < old(self).registrations().len()
                && same_agent(old(self).registrations()[i].agent_id, *id)
                && final(self).registrations() == old(self).registrations().remove(i),
            !old(self).knows(*id) ==> final(self).registrations() == old(self).registrations(),
    {
        proof {
            use_type_invariant(&*self);
        }
        match self.position(id) {
            Some(i) => {
                let mut entries: Vec<AgentRegistration> = Vec::new();
                std::mem::swap(&mut entries, &mut self.entries);
                let ghost before = entries@;
                entries.remove(i);
                proof {
                    assert forall|a: int, b: int| 0 <= a < b < entries@.len() implies
                        !same_agent(entries@[a].agent_id, entries@[b].agent_id) by {
                        if a < i && b >= i {
                            assert(entries@[b] == before[b + 1]);
                        } else if a >= i {
                            assert(entries@[a] == before[a + 1]);
                            assert(entries@[b] == before[b + 1]);
                        }
                    }
                    assert forall|k: int| 0 <= k < entries@.len() implies !same_agent(#[trigger] entries@[k].agent_id, *id) by {
                        if k < i {
                            assert(!same_agent(before[k].agent_id, before[i as int].agent_id));
                        } else {
                            assert(entries@[k] == before[k + 1]);
                            assert(!same_agent(before[i as int].agent_id, before[k + 1].agent_id));
                        }
                    }
                }
                self.entries = entries;
            },
            None => {},
        }
    }

    /// The registrations that offer the service `capability`, in order.
    pub fn discover_agents(&self, capability: &str) -> (r: Vec<&AgentRegistration>)
        ensures
            r@.map_values(|x: &AgentRegistration| *x) == offering(self.registrations(), capability@),
    {
        let mut r: Vec<&AgentRegistration> = Vec::new();
        let mut i: usize = 0;
        while i < self.entries.len()
            invariant
                i <= self.entries@.len(),
                r@.map_values(|x: &AgentRegistration| *x) == offering(self.entries@.take(i as int), capability@),
            decreases self.entries@.len() - i,
        {
            proof {
                assert(self.entries@.take(i + 1).drop_last() =~= self.entries@.take(i as int));
            }
            let reg = &self.entries[i];
            let mut found = false;
            let mut j: usize = 0;
            while j < reg.capabilities.services.len()
                invariant
                    j <= reg.capabilities.services@.len(),
                    found == views(reg.capabilities.services@).take(j as int).contains(capability@),
                decreases reg.capabilities.services@.len() - j,
            {
                proof {
                    let t0 = views(reg.capabilities.services@).take(j as int);
                    let x = reg.capabilities.services@[j as int]@;
                    let t1 = t0.push(x);
                    assert(views(reg.capabilities.services@).take(j + 1) =~= t1);
                    assert(t1.contains(capability@) <==> (t0.contains(capability@) || x == capability@)) by {
                        if t1.contains(capability@) {
                            let k = choose|k: int| 0 <= k < t1.len() && t1[k] == capability@;
                            if k < t0.len() {
                                assert(t0[k] == capability@);
                            }
                        }
                        if x == capability@ {
                            assert(t1[t0.len() as int] == capability@);
                        }
                        if t0.contains(capability@) {
                            let k = choose|k: int| 0 <= k < t0.len() && t0[k] == capability@;
                            assert(t1[k] == capability@);
                        }
                    }
                }
                if str_eq(reg.capabilities.services[j].as_str(), capability) {
                    found = true;
                }
                j = j + 1;
            }
            proof {
                assert(views(reg.capabilities.services@).take(j as int) =~= views(reg.capabilities.services@));
            }
            if found {
                let ghost before = r@;
                r.push(reg);
                proof {
                    assert(r@.map_values(|x: &AgentRegistration| *x) =~= before.map_values(|x: &AgentRegistration| *x).push(*reg));
                }
            }
            i = i + 1;
        }
        proof {
            assert(self.entries@.take(self.entries@.len() as int) =~= self.entries@);
        }
        r
    }

    /// The registration of agent `id`.
    pub fn get_agent_info(&self, id: &AgentId) -> (r: Option<&AgentRegistration>)
        ensures
            match r {
                Some(reg) => self.knows(*id) && same_agent(reg.agent_id, *id) && self.registrations().contains(*reg),
                None => !self.knows(*id),
            },
    {
        match self.position(id) {
            Some(i) => {
                proof {
                    assert(self.registrations()[i as int] == self.entries@[i as int]);
                }
                Some(&self.entries[i])
            },
            None => None,
        }
    }

    /// The registration of the recipient of a message, or the error that
    /// it is not registered.
    pub fn recipient(&self, to: &AgentId) -> (r: Result<&AgentRegistration, AgentError>)
        ensures
            match r {
                Ok(reg) => same_agent(reg.agent_id, *to) && self.knows(*to),
                Err(e) => !self.knows(*to) && (e matches AgentError::NotFound(m) && m@ == agent_not_found(*to)),
            },
    {
        match self.get_agent_info(to) {
            Some(reg) => Ok(reg),
            None => {
                let mut m = concat2("Agent ", to.to_string().as_str());
                push_str(&mut m, " not found");
                Err(AgentError::NotFound(m))
            },
        }
    }
}

/// Law: discovering a capability finds exactly the registrations whose
/// service list holds that capability, at whatever place in the list, and
/// keeps their order among the registrations.
pub proof fn lemma_discovery_finds_offering_agents(regs: Seq<AgentRegistration>, capability: Seq<char>)
    ensures
        forall|x: AgentRegistration| #[trigger] offering(regs, capability).contains(x) <==> (regs.contains(x)
            && exists|k: int| 0 <= k < x.capabilities.services@.len() && #[trigger] x.capabilities.services@[k]@ == capability),
        offering(regs, capability).len() <= regs.len(),
    decreases regs.len(),
{
    if regs.len() > 0 {
        let rest = regs.drop_last();
        let last = regs.last();
        lemma_discovery_finds_offering_agents(rest, capability);
        assert(regs =~= rest.push(last));
        let sv = views(last.capabilities.services@);
        assert(sv.contains(capability) <==> exists|k: int| 0 <= k < last.capabilities.services@.len()
            && #[trigger] last.capabilities.services@[k]@ == capability) by {
            if sv.contains(capability) {
                let k = choose|k: int| 0 <= k < sv.len() && sv[k] == capability;
                assert(last.capabilities.services@[k]@ == capability);
            }
            if exists|k: int| 0 <= k < last.capabilities.services@.len() && #[trigger] last.capabilities.services@[k]@ == capability {
                let k = choose|k: int| 0 <= k < last.capabilities.services@.len() && #[trigger] last.capabilities.services@[k]@ == capability;
                assert(sv[k] == capability);
            }
        }
        assert forall|x: AgentRegistration| #[trigger] offering(regs, capability).contains(x) <==> (regs.contains(x)
            && exists|k: int| 0 <= k < x.capabilities.services@.len() && #[trigger] x.capabilities.services@[k]@ == capability) by {
            let o = offering(regs, capability);
            let or = offering(rest, capability);
            if o.contains(x) {
                let i = choose|i: int| 0 <= i < o.len() && o[i] == x;
                if i < or.len() && (offers_service(last, capability) ==> i < or.len()) {
                    assert(or[i] == x);
                    assert(or.contains(x));
                    let j = choose|j: int| 0 <= j < rest.len() && rest[j] == x;
                    assert(regs[j] == x);
                } else {
                    assert(x == last);
                    assert(regs[regs.len() - 1] == x);
                }
            }
            if regs.contains(x) && exists|k: int| 0 <= k < x.capabilities.services@.len() && #[trigger] x.capabilities.services@[k]@ == capability {
                let j = choose|j: int| 0 <= j < regs.len() && regs[j] == x;
                if j < rest.len() {
                    assert(rest[j] == x);
                    assert(or.contains(x));
                    let i = choose|i: int| 0 <= i < or.len() && or[i] == x;
                    if offers_service(last, capability) {
                        assert(o[i] == x);
                    } else {
                        assert(o[i] == x);
                    }
                } else {
                    assert(x == last);
                    assert(o[o.len() - 1] == x);
                }
            }
        }
    }
}

} // verus!
