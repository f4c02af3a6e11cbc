//! The configuration model of both ends of the tunnel.

use std::collections::HashMap;
use vstd::prelude::*;

verus! {

/// Which end of the tunnel a process runs.
#[derive(Debug, Copy, Clone, PartialEq, Eq)]
pub enum ServiceType {
    Client,
    Service,
}

impl Default for ServiceType {
    /// A process runs the server end unless configured otherwise.
    fn default() -> (r: Self)
        ensures
            r == ServiceType::Service,
    {
        ServiceType::Service
    }
}

/// The transport of a forwarded service.
#[derive(Debug, Copy, Clone, PartialEq, Eq)]
pub enum TransportType {
    Tcp,
    Udp,
}

impl Default for TransportType {
    /// Services are forwarded over TCP unless configured otherwise.
    fn default() -> (r: Self)
        ensures
            r == TransportType::Tcp,
    {
        TransportType::Tcp
    }
}

/// A service forwarded by the tunnel: its transport and port.
#[derive(Debug, Clone, PartialEq, Eq)]
pub struct AgencyService {
    pub transport_type: TransportType,
    pub port: usize,
}

impl Default for AgencyService {
    fn default() -> (r: Self)
        ensures
            r.transport_type == TransportType::Tcp,
            r.port == 0,
    {
        AgencyService { transport_type: TransportType::default(), port: 0 }
    }
}

/// The whole configuration of a process.
#[derive(Debug, Clone, PartialEq, Eq)]
pub struct Config {
    pub service_type: ServiceType,
    pub name: String,
    pub service_config: Option<ServiceConfig>,
    pub client_config: Option<ClientConfig>,
}

impl Default for Config {
    fn default() -> (r: Self)
        ensures
            r.service_type == ServiceType::Service,
            r.name@ == Seq::<char>::empty(),
            r.service_config is None,
            r.client_config is None,
    {
        Config {
            service_type: ServiceType::default(),
            name: String::new(),
            service_config: None,
            client_config: None,
        }
    }
}

/// A service that the client end forwards from a local address.
#[derive(Debug, Clone, PartialEq, Eq)]
pub struct ClientServiceConfig {
    pub local_addr: String,
    pub name: String,
    pub service: AgencyService,
}

impl Default for ClientServiceConfig {
    fn default() -> (r: Self)
        ensures
            r.local_addr@ == Seq::<char>::empty(),
            r.name@ == Seq::<char>::empty(),
            r.service.transport_type == TransportType::Tcp,
            r.service.port == 0,
    {
        ClientServiceConfig {
            local_addr: String::new(),
            name: String::new(),
            service: AgencyService::default(),
        }
    }
}

/// The configuration of the client end.
#[derive(Debug, PartialEq, Eq, Clone)]
pub struct ClientConfig {
    pub service_name: String,
    pub remote_addr: String,
    pub services: HashMap<String, ClientServiceConfig>,
    pub heartbeat_timeout: u64,
}

impl Default for ClientConfig {
    fn default() -> (r: Self)
        ensures
            r.service_name@ == Seq::<char>::empty(),
            r.remote_addr@ == Seq::<char>::empty(),
            r.services@ == Map::<String, ClientServiceConfig>::empty(),
            r.heartbeat_timeout == 0,
    {
        ClientConfig {
            service_name: String::new(),
            remote_addr: String::new(),
            services: HashMap::new(),
            heartbeat_timeout: 0,
        }
    }
}

/// The configuration of the server end.
#[derive(Debug, PartialEq, Eq, Clone)]
pub struct ServiceConfig {
    pub bind_addr: String,
}

/// What a process runs, with the configuration of that end.
#[derive(Debug, Clone, PartialEq, Eq)]
pub enum RunMode {
    Client(ClientConfig),
    Service(ServiceConfig),
}

impl Config {
    /// The end that the configuration selects, with its section; `None` when
    /// the section of the selected end is missing.
    pub fn into_run_mode(self) -> (r: Option<RunMode>)
        ensures
            match self.service_type {
                ServiceType::Client => match self.client_config {
                    Some(c) => r == Some(RunMode::Client(c)),
                    None => r is None,
                },
                ServiceType::Service => match self.service_config {
                    Some(s) => r == Some(RunMode::Service(s)),
                    None => r is None,
                },
            },
    {
        match self.service_type {
            ServiceType::Client => match self.client_config {
                Some(c) => Some(RunMode::Client(c)),
                None => None,
            },
            ServiceType::Service => match self.service_config {
                Some(s) => Some(RunMode::Service(s)),
                None => None,
            },
        }
    }
}

/// Error codes carried by a negative acknowledgement.
#[derive(Debug, Copy, Clone, PartialEq, Eq)]
pub enum ErrorAckType {
    CommandError,
}

impl From<ErrorAckType> for u32 {
    fn from(value: ErrorAckType) -> (r: u32) {
        match value {
            ErrorAckType::CommandError => 0u32,
        }
    }
}

impl vstd::std_specs::convert::FromSpecImpl<ErrorAckType> for u32 {
    open spec fn obeys_from_spec() -> bool {
        true
    }

    open spec fn from_spec(v: ErrorAckType) -> u32 {
        match v {
            ErrorAckType::CommandError => 0u32,
        }
    }
}

} // verus!
