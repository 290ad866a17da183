//! Node configuration: which transports are enabled, which protocols are
//! registered, and the node's identity keypair.

use crate::crypto::Keypair;
use crate::protocol::notification;
use crate::protocol::request_response;
use crate::protocol::{
    has_protocol_name, lemma_unique_name_elsewhere, protocol_names_unique, ProtocolName,
};
use crate::transport::TransportConfig;
use vstd::prelude::*;

verus! {

/// Replace-or-append semantics of registering a protocol under its name:
/// an existing registration of the same name is replaced in place, any other
/// name is appended at the end.
pub open spec fn registered<T>(
    pre: Seq<(ProtocolName, T)>,
    post: Seq<(ProtocolName, T)>,
    name: ProtocolName,
    value: T,
) -> bool {
    if has_protocol_name(pre, name@) {
        &&& post.len() == pre.len()
        &&& forall|i: int|
            0 <= i < pre.len() ==> (if pre[i].0@ == name@ {
                post[i] == (name, value)
            } else {
                post[i] == pre[i]
            })
    } else {
        post == pre.push((name, value))
    }
}

/// Insert a registration, replacing any registration of the same name.
fn insert_protocol<T>(entries: &mut Vec<(ProtocolName, T)>, name: ProtocolName, value: T)
    requires
        protocol_names_unique(old(entries)@),
    ensures
        protocol_names_unique(final(entries)@),
        registered(old(entries)@, final(entries)@, name, value),
{
    let mut i: usize = 0;
    let n = entries.len();
    while i < n
        invariant
            protocol_names_unique(old(entries)@),
            n == entries@.len(),
            i <= n,
            *entries == *old(entries),
            forall|j: int| 0 <= j < i ==> entries@[j].0@ != name@,
        decreases n - i,
    {
        if entries[i].0 == name {
            proof {
                assert(has_protocol_name(old(entries)@, name@));
                lemma_unique_name_elsewhere(old(entries)@, i as int);
            }
            entries[i] = (name, value);
            return ;
        }
        i = i + 1;
    }
    entries.push((name, value));
}

/// Builds a [`Litep2pConfig`], collecting transports and protocol
/// registrations one call at a time.
#[derive(Debug)]
pub struct Litep2pConfigBuilder {
    /// TCP transport configuration, when the transport is enabled.
    pub tcp: Option<TransportConfig>,
    /// Identity keypair, when the embedder supplies one.
    pub keypair: Option<Keypair>,
    /// Registered notification protocols, keyed by name.
    pub notification_protocols: Vec<(ProtocolName, notification::Config)>,
    /// Registered request-response protocols, keyed by name.
    pub request_response_protocols: Vec<(ProtocolName, request_response::Config)>,
}

impl Litep2pConfigBuilder {
    /// Whether the builder is well formed: each protocol name registered at
    /// most once per family.
    pub open spec fn wf(&self) -> bool {
        &&& protocol_names_unique(self.notification_protocols@)
        &&& protocol_names_unique(self.request_response_protocols@)
    }

    /// An empty builder: no transport, no keypair, no protocols.
    pub fn new() -> (r: Litep2pConfigBuilder)
        ensures
            r.tcp is None,
            r.keypair is None,
            r.notification_protocols@ == Seq::<(ProtocolName, notification::Config)>::empty(),
            r.request_response_protocols@ == Seq::<
                (ProtocolName, request_response::Config),
            >::empty(),
            r.wf(),
    {
        Litep2pConfigBuilder {
            tcp: None,
            keypair: None,
            notification_protocols: Vec::new(),
            request_response_protocols: Vec::new(),
        }
    }

    /// Enable the TCP transport.
    pub fn with_tcp(self, config: TransportConfig) -> (r: Litep2pConfigBuilder)
        ensures
            r.tcp == Some(config),
            r.keypair == self.keypair,
            r.notification_protocols == self.notification_protocols,
            r.request_response_protocols == self.request_response_protocols,
    {
        let mut builder = self;
        builder.tcp = Some(config);
        builder
    }

    /// Supply the node's identity keypair.
    pub fn with_keypair(self, keypair: Keypair) -> (r: Litep2pConfigBuilder)
        ensures
            r.keypair == Some(keypair),
            r.tcp == self.tcp,
            r.notification_protocols == self.notification_protocols,
            r.request_response_protocols == self.request_response_protocols,
    {
        let mut builder = self;
        builder.keypair = Some(keypair);
        builder
    }

    /// Register a notification protocol under its name, replacing an earlier
    /// registration of the same name.
    pub fn with_notification_protocol(self, config: notification::Config) -> (r:
        Litep2pConfigBuilder)
        requires
            self.wf(),
        ensures
            r.wf(),
            r.tcp == self.tcp,
            r.keypair == self.keypair,
            r.request_response_protocols == self.request_response_protocols,
            registered(
                self.notification_protocols@,
                r.notification_protocols@,
                config.protocol_name,
                config,
            ),
    {
        let mut builder = self;
        let name = config.protocol_name().clone();
        insert_protocol(&mut builder.notification_protocols, name, config);
        builder
    }

    /// Register a request-response protocol under its name, replacing an
    /// earlier registration of the same name.
    pub fn with_request_response_protocol(self, config: request_response::Config) -> (r:
        Litep2pConfigBuilder)
        requires
            self.wf(),
        ensures
            r.wf(),
            r.tcp == self.tcp,
            r.keypair == self.keypair,
            r.notification_protocols == self.notification_protocols,
            registered(
                self.request_response_protocols@,
                r.request_response_protocols@,
                config.protocol_name,
                config,
            ),
    {
        let mut builder = self;
        let name = config.protocol_name().clone();
        insert_protocol(&mut builder.request_response_protocols, name, config);
        builder
    }

    /// Finish the configuration.  When the embedder supplied no keypair, the
    /// fixed default identity is used: key generation is outside this
    /// library's scope, so an embedder that needs nodes with distinct
    /// identities supplies its own keypairs.
    pub fn build(self) -> (r: Litep2pConfig)
        requires
            self.wf(),
        ensures
            r.wf(),
            r.keypair == (match self.keypair {
                Some(keypair) => keypair,
                None => Keypair { seed: 0 },
            }),
            r.tcp == self.tcp,
            r.notification_protocols == self.notification_protocols,
            r.request_response_protocols == self.request_response_protocols,
    {
        let keypair = match self.keypair {
            Some(keypair) => keypair,
            None => Keypair::generate(),
        };
        Litep2pConfig {
            keypair,
            tcp: self.tcp,
            notification_protocols: self.notification_protocols,
            request_response_protocols: self.request_response_protocols,
        }
    }
}

/// A finished node configuration.
#[derive(Debug)]
pub struct Litep2pConfig {
    /// TCP transport configuration, when the transport is enabled.
    pub tcp: Option<TransportConfig>,
    /// Identity keypair.
    pub keypair: Keypair,
    /// Registered notification protocols, keyed by name.
    pub notification_protocols: Vec<(ProtocolName, notification::Config)>,
    /// Registered request-response protocols, keyed by name.
    pub request_response_protocols: Vec<(ProtocolName, request_response::Config)>,
}

impl Litep2pConfig {
    /// Whether the configuration is well formed: each protocol name
    /// registered at most once per family.
    pub open spec fn wf(&self) -> bool {
        &&& protocol_names_unique(self.notification_protocols@)
        &&& protocol_names_unique(self.request_response_protocols@)
    }

    /// The node's identity keypair.
    pub fn keypair(&self) -> (r: &Keypair)
        ensures
            *r == self.keypair,
    {
        &self.keypair
    }

    /// The TCP transport configuration.
    pub fn tcp(&self) -> (r: &Option<TransportConfig>)
        ensures
            *r == self.tcp,
    {
        &self.tcp
    }
}

/// The context a connection or transport task is given: the node's identity,
/// the enabled transports and the names of every registered protocol.
#[derive(Debug)]
pub struct Config {
    /// TCP transport configuration, when the transport is enabled.
    pub tcp: Option<TransportConfig>,
    /// Identity keypair.
    pub keypair: Keypair,
    /// Names of every registered protocol, notification protocols first.
    pub protocols: Vec<ProtocolName>,
}

impl Config {
    /// The node's identity keypair.
    pub fn keypair(&self) -> (r: &Keypair)
        ensures
            *r == self.keypair,
    {
        &self.keypair
    }

    /// The TCP transport configuration.
    pub fn tcp(&self) -> (r: &Option<TransportConfig>)
        ensures
            *r == self.tcp,
    {
        &self.tcp
    }

    /// The names of every registered protocol.
    pub fn protocols(&self) -> (r: &Vec<ProtocolName>)
        ensures
            *r == self.protocols,
    {
        &self.protocols
    }
}

impl From<&Litep2pConfig> for Config {
    /// The advertised-protocols list is every registered name, notification
    /// protocols before request-response protocols, in registration order.
    fn from(config: &Litep2pConfig) -> (r: Config)
        ensures
            r.keypair == config.keypair,
            match (r.tcp, config.tcp) {
                (Some(mine), Some(theirs)) => mine.listen_address@ == theirs.listen_address@,
                (None, None) => true,
                _ => false,
            },
            r.protocols@.len() == config.notification_protocols@.len()
                + config.request_response_protocols@.len(),
            forall|i: int|
                0 <= i < config.notification_protocols@.len() ==> r.protocols@[i]
                    == config.notification_protocols@[i].0,
            forall|i: int|
                0 <= i < config.request_response_protocols@.len() ==> r.protocols@[i
                    + config.notification_protocols@.len()]
                    == config.request_response_protocols@[i].0,
    {
        let mut protocols: Vec<ProtocolName> = Vec::new();
        let mut i: usize = 0;
        let n = config.notification_protocols.len();
        while i < n
            invariant
                n == config.notification_protocols@.len(),
                i <= n,
                protocols@.len() == i,
                forall|j: int| 0 <= j < i ==> protocols@[j] == config.notification_protocols@[j].0,
            decreases n - i,
        {
            protocols.push(config.notification_protocols[i].0.clone());
            i = i + 1;
        }
        let mut k: usize = 0;
        let m = config.request_response_protocols.len();
        while k < m
            invariant
                n == config.notification_protocols@.len(),
                m == config.request_response_protocols@.len(),
                k <= m,
                protocols@.len() == n + k,
                forall|j: int| 0 <= j < n ==> protocols@[j] == config.notification_protocols@[j].0,
                forall|j: int|
                    0 <= j < k ==> protocols@[j + n] == config.request_response_protocols@[j].0,
            decreases m - k,
        {
            protocols.push(config.request_response_protocols[k].0.clone());
            k = k + 1;
        }
        let tcp = match &config.tcp {
            Some(transport_config) => Some(transport_config.clone()),
            None => None,
        };
        Config { tcp, keypair: config.keypair, protocols }
    }
}

impl vstd::std_specs::convert::FromSpecImpl<&Litep2pConfig> for Config {
    open spec fn obeys_from_spec() -> bool {
        false
    }

    open spec fn from_spec(config: &Litep2pConfig) -> Config {
        arbitrary()
    }
}

} // verus!
