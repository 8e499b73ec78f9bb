use open_twin::lifecycle::{
    bind_port, parse_arguments, LaunchError, Startup, StartupAction, StartupEvent, StartupFailure, StartupPhase,
    STARTUP_FAILURE_EXIT_CODE,
};

fn args(list: &[&str]) -> Vec<String> {
    list.iter().map(|s| s.to_string()).collect()
}

fn startup_at_address_resolution() -> Startup {
    let mut s = Startup::new();
    assert_eq!(s.step(StartupEvent::Launched), StartupAction::LoadPlugin);
    assert_eq!(s.step(StartupEvent::PluginLoaded(true)), StartupAction::Initialize);
    assert_eq!(s.step(StartupEvent::Initialized(0)), StartupAction::ResolveAddress);
    s
}

#[test]
fn arguments_need_a_plugin_path() {
    assert!(matches!(parse_arguments(&args(&["svc"])), Err(LaunchError::MissingPluginPath)));
    assert!(matches!(parse_arguments(&args(&[])), Err(LaunchError::MissingPluginPath)));
}

#[test]
fn arguments_fill_missing_identifiers_with_empty_text() {
    let a = parse_arguments(&args(&["svc", "/opt/lib/Model.so", "site7"])).unwrap();
    assert_eq!(a.plugin_path, "/opt/lib/Model.so");
    assert_eq!(a.site_id, "site7");
    assert_eq!(a.service_url, "");
    assert_eq!(a.database_url, "");
    assert_eq!(a.directory_url, "");
}

#[test]
fn arguments_take_all_four_identifiers_and_ignore_more() {
    let a = parse_arguments(&args(&["svc", "p.so", "1", "host:9000", "db:27017", "dir:9001", "extra"])).unwrap();
    assert_eq!(a.plugin_path, "p.so");
    assert_eq!(a.site_id, "1");
    assert_eq!(a.service_url, "host:9000");
    assert_eq!(a.database_url, "db:27017");
    assert_eq!(a.directory_url, "dir:9001");
}

#[test]
fn bind_port_reads_explicit_port() {
    assert_eq!(bind_port("example.com:8080"), Some(8080));
    assert_eq!(bind_port("127.0.0.1:9443"), Some(9443));
}

#[test]
fn bind_port_absent_without_port() {
    assert_eq!(bind_port("example.com"), None);
}

#[test]
fn bind_port_absent_for_default_https_port() {
    assert_eq!(bind_port("example.com:443"), None);
}

#[test]
fn bind_port_absent_for_unparsable_address() {
    assert_eq!(bind_port("exa mple.com:80"), None);
    assert_eq!(bind_port("example.com:99999"), None);
}

#[test]
fn startup_runs_to_serving() {
    let mut s = startup_at_address_resolution();
    assert_eq!(s.step(StartupEvent::AddressResolved("10.0.0.5:8091".to_string())), StartupAction::LoadTrust);
    assert_eq!(s.step(StartupEvent::TrustLoaded(true)), StartupAction::Bind(8091));
    assert_eq!(s.phase, StartupPhase::Binding { port: 8091 });
    assert_eq!(s.step(StartupEvent::Bound(true)), StartupAction::Serve);
    assert_eq!(s.phase, StartupPhase::Serving);
}

#[test]
fn failed_initialization_exits_with_its_code() {
    let mut s = Startup::new();
    s.step(StartupEvent::Launched);
    s.step(StartupEvent::PluginLoaded(true));
    let exit = StartupAction::Exit { failure: StartupFailure::InitializationFailed, code: 7 };
    assert_eq!(s.step(StartupEvent::Initialized(7)), exit);
    // nothing afterwards leads to a bound socket
    assert_eq!(s.step(StartupEvent::AddressResolved("example.com:8080".to_string())), exit);
    assert_eq!(s.step(StartupEvent::TrustLoaded(true)), exit);
    assert_eq!(s.step(StartupEvent::Bound(true)), exit);
}

#[test]
fn portless_service_address_aborts_before_binding() {
    let mut s = startup_at_address_resolution();
    let exit = StartupAction::Exit { failure: StartupFailure::NoBindPort, code: STARTUP_FAILURE_EXIT_CODE };
    assert_eq!(s.step(StartupEvent::AddressResolved("example.com".to_string())), exit);
    assert_eq!(s.step(StartupEvent::TrustLoaded(true)), exit);
    assert_ne!(STARTUP_FAILURE_EXIT_CODE, 0);
}

#[test]
fn missing_plugin_stops_startup() {
    let mut s = Startup::new();
    s.step(StartupEvent::Launched);
    assert_eq!(
        s.step(StartupEvent::PluginLoaded(false)),
        StartupAction::Exit { failure: StartupFailure::PluginUnavailable, code: 1 }
    );
}

#[test]
fn trust_and_bind_failures_stop_startup() {
    let mut s = startup_at_address_resolution();
    s.step(StartupEvent::AddressResolved("h:1".to_string()));
    assert_eq!(
        s.step(StartupEvent::TrustLoaded(false)),
        StartupAction::Exit { failure: StartupFailure::TrustUnavailable, code: 1 }
    );
    let mut t = startup_at_address_resolution();
    t.step(StartupEvent::AddressResolved("h:2".to_string()));
    assert_eq!(t.step(StartupEvent::TrustLoaded(true)), StartupAction::Bind(2));
    assert_eq!(t.step(StartupEvent::Bound(false)), StartupAction::Exit { failure: StartupFailure::BindFailed, code: 1 });
}

#[test]
fn out_of_order_event_stops_startup() {
    let mut s = Startup::new();
    assert_eq!(
        s.step(StartupEvent::Bound(true)),
        StartupAction::Exit { failure: StartupFailure::OutOfOrder, code: 1 }
    );
}
