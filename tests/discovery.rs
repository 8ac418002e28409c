use ez_rust_discovery::{
    build_instance, check_addresses, choose_service_host, parse_port, port_text, resolve,
    EnvVar, Environment, EzError, RegistryAction, ServeOptions, ServiceManager, Settings,
};

fn s(x: &str) -> String {
    x.to_string()
}

fn full_environment() -> Environment {
    let mut env = Environment::empty();
    env.set(EnvVar::NacosAddr, s("10.9.9.9:8848"));
    env.set(EnvVar::NacosNamespace, s("env-ns"));
    env.set(EnvVar::ServiceAddr, s("10.9.9.9:7000"));
    env.set(EnvVar::ServiceName, s("env-svc"));
    env.set(EnvVar::ServiceHost, s("10.9.9.9"));
    env
}

fn all_options() -> ServeOptions {
    ServeOptions {
        addr: Some(s("127.0.0.1:8848")),
        namespace: Some(s("public")),
        service_addr: Some(s("192.168.1.10:50051")),
        service_name: Some(s("order-svc")),
        service_host: Some(s("192.168.1.20")),
    }
}

/// Whether the addresses used below are `host:port` socket addresses.
fn is_socket(x: &str) -> bool {
    matches!(x, "127.0.0.1:8080" | "127.0.0.1:8848" | "192.168.1.10:50051")
}

fn settings(service_addr: &str, host: Option<&str>) -> Settings {
    Settings {
        addr: s("127.0.0.1:8848"),
        namespace: s("public"),
        service_addr: s(service_addr),
        service_name: s("order-svc"),
        service_host: host.map(s),
    }
}

#[test]
fn explicit_options_win_over_environment() {
    let r = resolve(all_options(), &full_environment()).unwrap();
    assert_eq!(r.addr, "127.0.0.1:8848");
    assert_eq!(r.namespace, "public");
    assert_eq!(r.service_addr, "192.168.1.10:50051");
    assert_eq!(r.service_name, "order-svc");
    assert_eq!(r.service_host, Some(s("192.168.1.20")));
    let r2 = resolve(all_options(), &Environment::empty()).unwrap();
    assert_eq!(r2.addr, r.addr);
    assert_eq!(r2.service_host, r.service_host);
}

#[test]
fn unset_options_read_their_variables() {
    let r = resolve(ServeOptions::default(), &full_environment()).unwrap();
    assert_eq!(r.addr, "10.9.9.9:8848");
    assert_eq!(r.namespace, "env-ns");
    assert_eq!(r.service_addr, "10.9.9.9:7000");
    assert_eq!(r.service_name, "env-svc");
    assert_eq!(r.service_host, Some(s("10.9.9.9")));
}

#[test]
fn mixed_options_and_environment() {
    let mut opt = ServeOptions::default();
    opt.namespace = Some(s("public"));
    let r = resolve(opt, &full_environment()).unwrap();
    assert_eq!(r.addr, "10.9.9.9:8848");
    assert_eq!(r.namespace, "public");
}

#[test]
fn missing_variables_are_named() {
    let vars = EnvVar::all();
    for (i, v) in vars.iter().enumerate() {
        if *v == EnvVar::ServiceHost {
            continue;
        }
        let mut env = Environment::empty();
        for (j, w) in vars.iter().enumerate() {
            if i != j {
                env.set(*w, s("127.0.0.1:1"));
            }
        }
        let r = resolve(ServeOptions::default(), &env);
        assert!(matches!(r, Err(EzError::Env(x)) if x == *v));
    }
}

#[test]
fn first_missing_variable_is_reported() {
    let r = resolve(ServeOptions::default(), &Environment::empty());
    assert!(matches!(r, Err(EzError::Env(EnvVar::NacosAddr))));
}

#[test]
fn service_host_is_optional() {
    let full = full_environment();
    let mut env = Environment::empty();
    for v in [EnvVar::NacosAddr, EnvVar::NacosNamespace, EnvVar::ServiceAddr, EnvVar::ServiceName] {
        env.set(v, full.get(v).unwrap());
    }
    let r = resolve(ServeOptions::default(), &env).unwrap();
    assert_eq!(r.service_host, None);
}

#[test]
fn variable_names() {
    assert_eq!(EnvVar::NacosAddr.name(), "NACOS_ADDR");
    assert_eq!(EnvVar::NacosNamespace.name(), "NACOS_NAMESPACE");
    assert_eq!(EnvVar::ServiceAddr.name(), "SERVICE_ADDR");
    assert_eq!(EnvVar::ServiceName.name(), "SERVICE_NAME");
    assert_eq!(EnvVar::ServiceHost.name(), "SERVICE_HOST");
    assert_eq!(EnvVar::all().len(), 5);
}

#[test]
fn bad_addresses_are_parse_errors() {
    for bad in ["not-an-address", "127.0.0.1"] {
        let st = Settings { addr: s(bad), ..settings("192.168.1.10:50051", None) };
        let r = check_addresses(st, is_socket(bad), true);
        assert!(matches!(r, Err(EzError::Parse(v)) if v == bad));
    }
    let st = settings("127.0.0.1", None);
    let r = check_addresses(st, true, is_socket("127.0.0.1"));
    assert!(matches!(r, Err(EzError::Parse(v)) if v == "127.0.0.1"));
    let st = settings("127.0.0.1:8080", None);
    let ok = is_socket("127.0.0.1:8080");
    assert!(ok);
    let r = check_addresses(st, is_socket("127.0.0.1:8848"), ok);
    assert_eq!(r.unwrap().service_addr, "127.0.0.1:8080");
}

#[test]
fn registry_address_is_checked_first() {
    let st = settings("nope", None);
    let r = check_addresses(st, false, false);
    assert!(matches!(r, Err(EzError::Parse(v)) if v == "127.0.0.1:8848"));
}

#[test]
fn port_is_published_in_metadata() {
    let inst = build_instance(&s("10.0.0.5:9000"), s("10.0.0.7")).unwrap();
    assert_eq!(inst.metadata_value("gRPC_port"), Some(s("9000")));
    assert_eq!(inst.metadata_value("other"), None);
    assert_eq!(inst.port, 9000);
    assert_eq!(inst.ip, "10.0.0.7");
    assert_eq!(inst.weight, 1);
    assert!(inst.healthy && inst.enabled && inst.ephemeral);
    assert_eq!(inst.metadata.len(), 1);
}

#[test]
fn manager_without_host_override_publishes_port() {
    let host = choose_service_host(None, Ok(s("10.0.0.7"))).unwrap();
    let m = ServiceManager::with_host(settings("10.0.0.5:9000", None), host).unwrap();
    assert_eq!(m.service_instance.metadata_value("gRPC_port"), Some(s("9000")));
    assert_eq!(m.service_instance.ip, "10.0.0.7");
}

#[test]
fn host_override_is_published() {
    let m = ServiceManager::new(settings("10.0.0.5:9000", Some("172.16.0.1")), true, true).unwrap();
    assert_eq!(m.service_instance.ip, "172.16.0.1");
    assert_eq!(m.service_instance.port, 9000);
}

#[test]
fn new_reports_parse_errors() {
    let r = ServiceManager::new(settings("10.0.0.5:9000", Some("h")), false, true);
    assert!(matches!(r, Err(EzError::Parse(v)) if v == "127.0.0.1:8848"));
    let r = ServiceManager::new(settings("10.0.0.5:9000", Some("h")), true, false);
    assert!(matches!(r, Err(EzError::Parse(v)) if v == "10.0.0.5:9000"));
}

#[test]
fn service_host_choice() {
    assert_eq!(choose_service_host(Some(s("a")), Ok(s("b"))).unwrap(), "a");
    assert_eq!(choose_service_host(Some(s("a")), Err(s("x"))).unwrap(), "a");
    assert_eq!(choose_service_host(None, Ok(s("b"))).unwrap(), "b");
    let r = choose_service_host(None, Err(s("no interface")));
    assert!(matches!(r, Err(EzError::LocalIP(m)) if m == "no interface"));
}

#[test]
fn explicit_host_skips_detection() {
    let r = ez_rust_discovery::service_host_or_local(Some(s("10.1.1.1")));
    assert_eq!(r.unwrap(), "10.1.1.1");
}

#[test]
fn configuration_errors() {
    let r = build_instance(&s("10.0.0.5"), s("ip"));
    assert!(matches!(r, Err(EzError::Configuration(v)) if v == "10.0.0.5"));
    let r = build_instance(&s("10.0.0.5:99999"), s("ip"));
    assert!(matches!(r, Err(EzError::Configuration(v)) if v == "10.0.0.5:99999"));
    let r = build_instance(&s("10.0.0.5:"), s("ip"));
    assert!(matches!(r, Err(EzError::Configuration(_))));
    let r = ServiceManager::with_host(settings("host:http", None), s("ip"));
    assert!(matches!(r, Err(EzError::Configuration(v)) if v == "host:http"));
}

#[test]
fn ipv6_service_address_splits_at_last_colon() {
    let inst = build_instance(&s("[::1]:8080"), s("::1")).unwrap();
    assert_eq!(inst.port, 8080);
    assert_eq!(inst.metadata_value("gRPC_port"), Some(s("8080")));
}

#[test]
fn port_text_cases() {
    assert_eq!(port_text("10.0.0.5:9000"), Some(s("9000")));
    assert_eq!(port_text("[fe80::1]:443"), Some(s("443")));
    assert_eq!(port_text("a:"), Some(s("")));
    assert_eq!(port_text("no-colon"), None);
    assert_eq!(port_text(""), None);
}

#[test]
fn parse_port_cases() {
    assert_eq!(parse_port("0"), Some(0));
    assert_eq!(parse_port("8080"), Some(8080));
    assert_eq!(parse_port("65535"), Some(65535));
    assert_eq!(parse_port("0080"), Some(80));
    assert_eq!(parse_port("65536"), None);
    assert_eq!(parse_port("999999999999"), None);
    assert_eq!(parse_port(""), None);
    assert_eq!(parse_port("+80"), None);
    assert_eq!(parse_port("8a"), None);
}

#[test]
fn online_and_offline_name_the_same_instance() {
    let m = ServiceManager::with_host(settings("192.168.1.10:50051", None), s("192.168.1.10")).unwrap();
    let on = m.online();
    let off = m.offline();
    assert_eq!(on.action, RegistryAction::Register);
    assert_eq!(off.action, RegistryAction::Deregister);
    assert_eq!(on.service_name, off.service_name);
    assert_eq!(on.group, off.group);
    assert!(std::ptr::eq(on.instance, off.instance));
    assert_eq!(on.instance.ip, off.instance.ip);
    assert_eq!(on.instance.port, off.instance.port);
    assert_eq!(on.instance.metadata, off.instance.metadata);
}

#[test]
fn failed_register_is_registration_error() {
    let m = ServiceManager::with_host(settings("192.168.1.10:50051", None), s("192.168.1.10")).unwrap();
    let r = m.online().outcome(Err(s("connection refused")));
    assert!(matches!(r, Err(EzError::Registration(v)) if v == "connection refused"));
    assert_eq!(m.service_name, "order-svc");
    assert_eq!(m.service_instance.port, 50051);
    assert!(m.online().outcome(Ok(())).is_ok());
    let r = m.offline().outcome(Err(s("timeout")));
    assert!(matches!(r, Err(EzError::Deregistration(v)) if v == "timeout"));
    assert!(m.offline().outcome(Ok(())).is_ok());
}

#[test]
fn end_to_end_scenario() {
    let opt = ServeOptions {
        addr: Some(s("127.0.0.1:8848")),
        namespace: Some(s("public")),
        service_addr: Some(s("192.168.1.10:50051")),
        service_name: Some(s("order-svc")),
        service_host: None,
    };
    let st = resolve(opt, &Environment::empty()).unwrap();
    assert_eq!(st.service_host, None);
    let ok_addr = is_socket(&st.addr);
    let ok_service = is_socket(&st.service_addr);
    let st = check_addresses(st, ok_addr, ok_service).unwrap();
    let ip = choose_service_host(st.service_host.clone(), Ok(s("192.168.1.10"))).unwrap();
    let m = ServiceManager::with_host(st, ip).unwrap();
    assert_eq!(m.registry_addr, "127.0.0.1:8848");
    assert_eq!(m.namespace, "public");
    let on = m.online();
    assert_eq!(on.action, RegistryAction::Register);
    assert_eq!(on.service_name, "order-svc");
    assert_eq!(on.group, "DEFAULT_GROUP");
    assert_eq!(on.instance.ip, "192.168.1.10");
    assert_eq!(on.instance.port, 50051);
    assert_eq!(on.instance.metadata, vec![(s("gRPC_port"), s("50051"))]);
    let off = m.offline();
    assert_eq!(off.action, RegistryAction::Deregister);
    assert_eq!(off.service_name, on.service_name);
    assert_eq!(off.instance.port, on.instance.port);
}
