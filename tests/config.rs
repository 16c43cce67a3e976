use xxljob_sdk_rs::builder::DEFAULT_START_PORT;
use xxljob_sdk_rs::ip_utils::{
    port_scan_first, port_scan_next, port_scan_result, select_local_ip, InterfaceAddr, PortProbe,
};
use xxljob_sdk_rs::model::XxlError;
use xxljob_sdk_rs::XxlClientBuilder;

fn iface(ip: &str, lo: bool, ll: bool, v4: bool) -> InterfaceAddr {
    InterfaceAddr { ip: ip.to_string(), is_loopback: lo, is_link_local: ll, is_ipv4: v4 }
}

#[test]
fn builder_defaults() {
    let c = XxlClientBuilder::new("http://a".to_string()).build_config(9901, "10.1.1.1".to_string()).unwrap();
    assert_eq!(c.server_address, "http://a");
    assert_eq!(c.access_token, "");
    assert_eq!(c.app_name, "unknown");
    assert_eq!(c.ip, "10.1.1.1");
    assert_eq!(c.port, 9901);
    assert_eq!(c.log_path, "");
    assert_eq!(c.log_retention_days, 0);
    assert!(c.ssl_danger_accept_invalid_certs);
    assert_eq!(c.get_http_addr(), "0.0.0.0:9901");
}

#[test]
fn builder_setters() {
    let b = XxlClientBuilder::new("http://a".to_string())
        .set_access_token("tok".to_string())
        .set_app_name("app".to_string())
        .set_ip("1.2.3.4".to_string())
        .set_port(8000)
        .set_log_path("logs".to_string())
        .set_log_retention_days(7)
        .set_ssl_danger_accept_invalid_certs(false);
    assert_eq!(b.port, Some(8000));
    let c = b.build_config(8000, "9.9.9.9".to_string()).unwrap();
    assert_eq!(c.access_token, "tok");
    assert_eq!(c.app_name, "app");
    assert_eq!(c.ip, "1.2.3.4");
    assert_eq!(c.log_path, "logs");
    assert_eq!(c.log_retention_days, 7);
    assert!(!c.ssl_danger_accept_invalid_certs);
    assert_eq!(c.get_advertised_addr(), "http://1.2.3.4:8000");
}

#[test]
fn builder_rejects_missing_port_or_addresses() {
    let r = XxlClientBuilder::new("http://a".to_string()).build_config(0, "x".to_string());
    assert!(matches!(r, Err(XxlError::ConfigError)));
    let r = XxlClientBuilder::new(String::new()).build_config(9900, "x".to_string());
    assert!(matches!(r, Err(XxlError::ConfigError)));
}

#[test]
fn port_scan_start() {
    assert_eq!(XxlClientBuilder::get_port(DEFAULT_START_PORT, None), 9900);
    assert_eq!(XxlClientBuilder::get_port(DEFAULT_START_PORT, Some(0)), 9900);
    assert_eq!(XxlClientBuilder::get_port(DEFAULT_START_PORT, Some(8080)), 8080);
}

#[test]
fn port_scan_steps() {
    assert_eq!(port_scan_first(9900), PortProbe::Probe(9900));
    assert_eq!(port_scan_first(65535), PortProbe::Exhausted);
    assert_eq!(port_scan_next(9900, false), PortProbe::Probe(9901));
    assert_eq!(port_scan_next(9901, true), PortProbe::Found(9901));
    assert_eq!(port_scan_next(65534, false), PortProbe::Exhausted);
    assert_eq!(port_scan_result(PortProbe::Found(9901)), 9901);
    assert_eq!(port_scan_result(PortProbe::Exhausted), 0);
}

#[test]
fn local_ip_selection() {
    assert_eq!(select_local_ip(&vec![]), "127.0.0.1");
    let v = vec![
        iface("127.0.0.1", true, false, true),
        iface("fe80::1", false, true, false),
        iface("2001:db8::1", false, false, false),
        iface("192.168.1.4", false, false, true),
        iface("10.0.0.1", false, false, true),
    ];
    assert_eq!(select_local_ip(&v), "192.168.1.4");
    let v6 = vec![iface("2001:db8::1", false, false, false), iface("2001:db8::2", false, false, false)];
    assert_eq!(select_local_ip(&v6), "2001:db8::2");
}
