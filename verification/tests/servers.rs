use golem_unlimited::hub_server::{
    run_publisher, ClientError, ServerClient, ServerConfig, ServerModule as HubModule,
};
use golem_unlimited::provider_server::{
    after_bind_failure, BindRetry, ConnectMode, ConnectModeMessage, ConnectionChange,
    ConnectionChangeMessage, ProviderConfig, ProviderServer, PublisherAction,
    ServerModule as ProviderModule,
};
use golem_unlimited::text::decimal_text;

fn strings(items: &[&str]) -> Vec<String> {
    items.iter().map(|s| s.to_string()).collect()
}

#[test]
fn hub_config_defaults() {
    let config = ServerConfig::default();
    assert_eq!(config.p2p_port, 61622);
    assert_eq!(config.port(), 61622);
    assert_eq!(config.control_socket, None);
    assert!(config.publish_service);
    assert_eq!(config.p2p_addr(), ("0.0.0.0", 61622));
    assert_eq!(ServerConfig::default_p2p_port(), 61622);
    assert!(ServerConfig::publish_service());
}

#[test]
fn hub_module_becomes_active_with_its_subcommand() {
    let mut module = HubModule::new();
    assert!(!module.is_active());
    assert!(!module.args_consume(Some("/etc/gu"), false));
    assert!(!module.is_active());
    assert_eq!(module.config_path(), None);
    assert!(module.args_consume(Some("/etc/gu"), true));
    assert!(module.is_active());
    assert_eq!(module.config_path(), Some(&"/etc/gu".to_string()));
    assert!(module.args_consume(None, true));
    assert_eq!(module.config_path(), None);
}

#[test]
fn hub_announcement() {
    assert!(run_publisher(false, 61622).is_none());
    let service = run_publisher(true, 61622).unwrap();
    assert_eq!(service.service_type, "_unlimited._tcp");
    assert_eq!(service.name, "gu-hub");
    assert_eq!(service.port, 61622);
    assert_eq!(service.txt, strings(&["path=/", ""]));
}

#[test]
fn hub_client_asks_this_machine() {
    let config = ServerConfig { p2p_port: 8080, control_socket: None, publish_service: false };
    assert_eq!(ServerClient::get(&config, "/peers"), "http://127.0.0.1:8080/peers");
    assert_eq!(ServerClient::get(&ServerConfig::default(), ""), "http://127.0.0.1:61622");
    let _ = ServerClient::new();
    assert!(matches!(ClientError::from(actix::MailboxError::Closed), ClientError::Mailbox(_)));
}

#[test]
fn decimal_numerals() {
    assert_eq!(decimal_text(0), "0");
    assert_eq!(decimal_text(7), "7");
    assert_eq!(decimal_text(10), "10");
    assert_eq!(decimal_text(409), "409");
    assert_eq!(decimal_text(65535), "65535");
}

#[test]
fn provider_config_defaults() {
    let config = ProviderConfig::default();
    assert_eq!(config.p2p_port(), 61621);
    assert_eq!(config.port(), 61621);
    assert!(config.hub_addrs.is_empty());
    assert!(config.publish_service());
    assert_eq!(config.connect_mode, ConnectMode::Manual);
    assert_eq!(ProviderConfig::default_p2p_port(), 61621);
    assert_eq!(ProviderConfig::default_connect_mode(), ConnectMode::Manual);
    let config = ProviderConfig::new(7000, None, strings(&["10.0.0.1:61622"]), false, ConnectMode::Auto);
    assert_eq!(config.p2p_port(), 7000);
    assert_eq!(config.port(), 61621);
    assert_eq!(config.p2p_addr(), ("0.0.0.0", 7000));
}

#[test]
fn provider_module_runs_only_for_server_run() {
    let mut module = ProviderModule::new();
    assert!(!module.args_consume(None));
    assert!(!module.args_consume(Some(None)));
    assert!(!module.args_consume(Some(Some("status"))));
    assert!(module.args_consume(Some(Some("run"))));
    assert!(module.args_consume(None));
    assert!(module.is_running());
    assert!(!module.args_consume(Some(Some("stop"))));
}

#[test]
fn provider_server_setup() {
    let mut server = ProviderServer::new();
    assert_eq!(server.node_id(), None);
    assert_eq!(server.p2p_port(), None);
    let config = ProviderConfig::new(7000, None, strings(&["10.0.0.1:61622"]), true, ConnectMode::Auto);
    let setup = server.init(&config, "0xabc".to_string());
    assert_eq!(setup.announce_port, 7000);
    assert_eq!(setup.announce_node_id, "0xabc");
    assert_eq!(setup.publisher, PublisherAction::Start);
    assert_eq!(setup.hub_addrs, strings(&["10.0.0.1:61622"]));
    assert!(setup.auto_mdns);
    assert_eq!(server.node_id(), Some(&"0xabc".to_string()));
    assert_eq!(server.p2p_port(), Some(7000));
    assert!(server.is_publishing());
    assert_eq!(server.publish_service(false), PublisherAction::Stop);
    assert!(!server.is_publishing());
    let setup = ProviderServer::new().init(&ProviderConfig::default(), "n".to_string());
    assert!(!setup.auto_mdns);
}

#[test]
fn connect_mode_change() {
    let mut server = ProviderServer::new();
    let auto = ConnectModeMessage { mode: ConnectMode::Auto, save: true };
    let manual = ConnectModeMessage { mode: ConnectMode::Manual, save: false };
    let plan = server.connect_mode(auto);
    assert!(plan.save && plan.auto_mdns);
    assert_eq!(plan.publisher, PublisherAction::Start);
    assert!(server.is_publishing());
    let plan = server.connect_mode(manual);
    assert!(!plan.save && !plan.auto_mdns);
    assert_eq!(plan.publisher, PublisherAction::Stop);
    let connected = strings(&["a:1", "b:1", "c:1"]);
    let saved = strings(&["b:1"]);
    let changed = |msg, saved_now, state_now| {
        ProviderServer::connect_mode_changed(msg, saved_now, state_now, &connected, &saved)
    };
    assert_eq!(changed(manual, false, true), Some(strings(&["a:1", "c:1"])));
    assert_eq!(changed(manual, true, false), Some(strings(&["a:1", "c:1"])));
    assert_eq!(changed(manual, false, false), None);
    assert_eq!(changed(auto, true, true), None);
}

#[test]
fn socket_in_the_way_is_removed() {
    assert_eq!(after_bind_failure(true), BindRetry::RemoveAndRebind);
    assert_eq!(after_bind_failure(false), BindRetry::GiveUp);
}

#[test]
fn connection_change_names_every_hub() {
    let msg = ConnectionChangeMessage {
        change: ConnectionChange::Disconnect,
        hubs: strings(&["b:1", "a:1"]),
        save: true,
    };
    let plan = ProviderServer::connection_change(&msg);
    assert!(plan.save);
    assert_eq!(plan.change, ConnectionChange::Disconnect);
    assert_eq!(plan.hubs, strings(&["b:1", "a:1"]));
}
