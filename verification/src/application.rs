use std::sync::Arc;
use vstd::prelude::*;

use crate::config::ServerConfig;
use crate::registry::{InstanceMap, InstanceRegistry};
use crate::text::{append_decimal, decimal};

verus! {

/// The address that the HTTP API binds to: `host:port`.
pub open spec fn listen_address_of(host: Seq<char>, port: u16) -> Seq<char> {
    host + ":"@ + decimal(port as nat)
}

/// The running activator: its instance registry and where it serves the
/// HTTP API.
pub struct Application<P> {
    registry: Arc<InstanceRegistry<P>>,
    server_config: ServerConfig,
}

impl<P> Application<P> {
    pub closed spec fn spec_registry(&self) -> InstanceMap<P> {
        self.registry@
    }

    pub closed spec fn spec_server(&self) -> ServerConfig {
        self.server_config
    }

    pub fn new(registry: InstanceRegistry<P>, server_config: ServerConfig) -> (r: Self)
        ensures
            r.spec_registry() == registry@,
            r.spec_server() == server_config,
    {
        Application { registry: Arc::new(registry), server_config }
    }

    pub fn registry(&self) -> (r: &InstanceRegistry<P>)
        ensures
            r@ == self.spec_registry(),
    {
        &self.registry
    }

    /// The address that the HTTP API binds to.
    pub fn listen_address(&self) -> (r: String)
        ensures
            r@ == listen_address_of(self.spec_server().host@, self.spec_server().port),
    {
        let mut r = String::from_str(self.server_config.host.as_str());
        r.append(":");
        append_decimal(&mut r, self.server_config.port as u64);
        r
    }

    /// The shared registry, for the request handlers, and the server
    /// configuration.
    pub fn into_parts(self) -> (r: (Arc<InstanceRegistry<P>>, ServerConfig))
        ensures
            r.0@ == self.spec_registry(),
            r.1 == self.spec_server(),
    {
        (self.registry, self.server_config)
    }
}

} // verus!
