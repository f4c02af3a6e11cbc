use red_quic::config::{
    AgencyService, ClientConfig, ClientServiceConfig, ErrorAckType, RunMode, ServiceConfig,
    ServiceType, TransportType,
};
use red_quic::Config;

#[test]
fn defaults() {
    assert_eq!(ServiceType::default(), ServiceType::Service);
    assert_eq!(TransportType::default(), TransportType::Tcp);
    assert_eq!(AgencyService::default(), AgencyService { transport_type: TransportType::Tcp, port: 0 });
    let c = Config::default();
    assert_eq!(c.service_type, ServiceType::Service);
    assert!(c.name.is_empty());
    assert!(c.service_config.is_none() && c.client_config.is_none());
    let cc = ClientConfig::default();
    assert!(cc.services.is_empty());
    assert_eq!(cc.heartbeat_timeout, 0);
    let s = ClientServiceConfig::default();
    assert!(s.local_addr.is_empty() && s.name.is_empty());
}

#[test]
fn error_ack_type_code() {
    assert_eq!(u32::from(ErrorAckType::CommandError), 0);
}

#[test]
fn run_mode_selection() {
    let server = ServiceConfig { bind_addr: "127.0.0.1:7799".to_string() };
    let client = ClientConfig {
        service_name: "test".to_string(),
        remote_addr: "127.0.0.1:7799".to_string(),
        services: Default::default(),
        heartbeat_timeout: 0,
    };
    let c = Config {
        service_type: ServiceType::Service,
        name: "test".to_string(),
        service_config: Some(server.clone()),
        client_config: Some(client.clone()),
    };
    assert_eq!(c.clone().into_run_mode(), Some(RunMode::Service(server.clone())));
    let c2 = Config { service_type: ServiceType::Client, ..c.clone() };
    assert_eq!(c2.into_run_mode(), Some(RunMode::Client(client)));
    let c3 = Config { service_type: ServiceType::Client, client_config: None, ..c };
    assert_eq!(c3.into_run_mode(), None);
    let c4 = Config { service_type: ServiceType::Service, ..Config::default() };
    assert_eq!(c4.into_run_mode(), None);
}
