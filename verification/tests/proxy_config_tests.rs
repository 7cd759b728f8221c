use proxy_vm_core::model::{
    GatewayMode, OpenVpnConfig, ProxyConfig, ProxyHop, ProxyType, WireGuardConfig,
};
use proxy_vm_core::proxy_config::ProxyConfigBuilder;

#[test]
fn test_generate_proxy_conf_simple_chain() {
    let mut config = ProxyConfig::new("work".to_string(), GatewayMode::ProxyChain);
    config.add_hop(ProxyHop {
        index: 1,
        proxy_type: ProxyType::Socks5,
        host: "proxy1.example.com".to_string(),
        port: 1080,
        username: None,
        password: None,
        label: Some("Primary".to_string()),
    });

    let content = ProxyConfigBuilder::generate_proxy_conf(&config);
    assert!(content.contains("GATEWAY_MODE=PROXY_CHAIN"));
    assert!(content.contains("PROXY_COUNT=1"));
    assert!(content.contains("PROXY_1_TYPE=SOCKS5"));
    assert!(content.contains("PROXY_1_HOST=proxy1.example.com"));
    assert!(content.contains("PROXY_1_PORT=1080"));
    assert!(content.contains("SOCKS5_HOST=proxy1.example.com"));
}

#[test]
fn test_generate_proxy_conf_multiple_hops() {
    let mut config = ProxyConfig::new("bank".to_string(), GatewayMode::ProxyChain);
    config.add_hop(ProxyHop {
        index: 1,
        proxy_type: ProxyType::Socks5,
        host: "proxy1.example.com".to_string(),
        port: 1080,
        username: Some("user1".to_string()),
        password: Some("pass1".to_string()),
        label: None,
    });
    config.add_hop(ProxyHop {
        index: 2,
        proxy_type: ProxyType::Http,
        host: "proxy2.example.com".to_string(),
        port: 8080,
        username: None,
        password: None,
        label: None,
    });

    let content = ProxyConfigBuilder::generate_proxy_conf(&config);
    assert!(content.contains("PROXY_COUNT=2"));
    assert!(content.contains("PROXY_1_TYPE=SOCKS5"));
    assert!(content.contains("PROXY_1_USER=user1"));
    assert!(content.contains("PROXY_2_TYPE=HTTP"));
    assert!(content.contains("PROXY_2_HOST=proxy2.example.com"));
}

#[test]
fn test_generate_proxy_conf_wireguard() {
    let mut config = ProxyConfig::new("vpn".to_string(), GatewayMode::WireGuard);
    config.wireguard = Some(WireGuardConfig {
        config_path: "/proxy/wg_vpn.conf".to_string(),
        interface_name: "wg0".to_string(),
        route_all_traffic: true,
    });

    let content = ProxyConfigBuilder::generate_proxy_conf(&config);
    assert!(content.contains("GATEWAY_MODE=WIREGUARD"));
    assert!(content.contains("WG_CONFIG_PATH=/proxy/wg_vpn.conf"));
    assert!(content.contains("WG_INTERFACE_NAME=wg0"));
    assert!(content.contains("WG_ROUTE_ALL_TRAFFIC=true"));
}

#[test]
fn test_generate_proxy_conf_openvpn() {
    let mut config = ProxyConfig::new("ovpn".to_string(), GatewayMode::OpenVpn);
    config.openvpn = Some(OpenVpnConfig {
        config_path: "/proxy/client.ovpn".to_string(),
        auth_file: Some("/proxy/auth.txt".to_string()),
        route_all_traffic: false,
    });

    let content = ProxyConfigBuilder::generate_proxy_conf(&config);
    assert!(content.contains("GATEWAY_MODE=OPENVPN"));
    assert!(content.contains("OPENVPN_CONFIG_PATH=/proxy/client.ovpn"));
    assert!(content.contains("OPENVPN_AUTH_FILE=/proxy/auth.txt"));
}

#[test]
fn test_generate_apply_proxy_script() {
    let script = ProxyConfigBuilder::generate_apply_proxy_script("work");
    assert!(script.contains("ROLE=\"work\""));
    assert!(script.contains("CONF=\"/proxy/proxy.conf\""));
    assert!(script.contains("PROXY_CHAIN"));
    assert!(script.contains("proxychains.conf"));
}

#[test]
fn chain_round_trip_keeps_hops_order_and_credentials() {
    let mut config = ProxyConfig::new("bank".to_string(), GatewayMode::ProxyChain);
    config.add_hop(ProxyHop {
        index: 1,
        proxy_type: ProxyType::Socks5,
        host: "proxy1.example.com".to_string(),
        port: 1080,
        username: Some("user1".to_string()),
        password: Some("pass1".to_string()),
        label: Some("First".to_string()),
    });
    config.add_hop(ProxyHop {
        index: 2,
        proxy_type: ProxyType::Http,
        host: "proxy2.example.com".to_string(),
        port: 8080,
        username: None,
        password: None,
        label: None,
    });

    let content = ProxyConfigBuilder::generate_proxy_conf(&config);
    let parsed = ProxyConfigBuilder::parse_proxy_conf("bank".to_string(), &content);
    assert_eq!(parsed.gateway_mode, GatewayMode::ProxyChain);
    assert_eq!(parsed.hops.len(), 2);
    assert_eq!(parsed.hops[0].index, 1);
    assert_eq!(parsed.hops[0].proxy_type, ProxyType::Socks5);
    assert_eq!(parsed.hops[0].host, "proxy1.example.com");
    assert_eq!(parsed.hops[0].port, 1080);
    assert_eq!(parsed.hops[0].username, Some("user1".to_string()));
    assert_eq!(parsed.hops[0].password, Some("pass1".to_string()));
    assert_eq!(parsed.hops[0].label, Some("First".to_string()));
    assert_eq!(parsed.hops[1].index, 2);
    assert_eq!(parsed.hops[1].proxy_type, ProxyType::Http);
    assert_eq!(parsed.hops[1].host, "proxy2.example.com");
    assert_eq!(parsed.hops[1].port, 8080);
    assert_eq!(parsed.hops[1].username, None);
    assert_eq!(parsed.hops, config.hops);
}

#[test]
fn wireguard_round_trip_keeps_the_file_reference_and_routing_flag() {
    let mut config = ProxyConfig::new("vpn".to_string(), GatewayMode::WireGuard);
    config.wireguard = Some(WireGuardConfig {
        config_path: "/proxy/wg_vpn.conf".to_string(),
        interface_name: "wg7".to_string(),
        route_all_traffic: true,
    });
    let content = ProxyConfigBuilder::generate_proxy_conf(&config);
    let parsed = ProxyConfigBuilder::parse_proxy_conf("vpn".to_string(), &content);
    assert_eq!(parsed.gateway_mode, GatewayMode::WireGuard);
    assert_eq!(parsed.wireguard, config.wireguard);
    assert_eq!(parsed.openvpn, None);
    assert!(parsed.hops.is_empty());
}

#[test]
fn openvpn_round_trip_keeps_the_file_reference_and_routing_flag() {
    let mut config = ProxyConfig::new("ovpn".to_string(), GatewayMode::OpenVpn);
    config.openvpn = Some(OpenVpnConfig {
        config_path: "/proxy/client.ovpn".to_string(),
        auth_file: Some("/proxy/auth.txt".to_string()),
        route_all_traffic: false,
    });
    let content = ProxyConfigBuilder::generate_proxy_conf(&config);
    let parsed = ProxyConfigBuilder::parse_proxy_conf("ovpn".to_string(), &content);
    assert_eq!(parsed.gateway_mode, GatewayMode::OpenVpn);
    assert_eq!(parsed.openvpn, config.openvpn);
    assert_eq!(parsed.wireguard, None);

    // without a credentials file, none is read back
    let mut bare = ProxyConfig::new("ovpn".to_string(), GatewayMode::OpenVpn);
    bare.openvpn = Some(OpenVpnConfig {
        config_path: "/proxy/client.ovpn".to_string(),
        auth_file: None,
        route_all_traffic: true,
    });
    let parsed =
        ProxyConfigBuilder::parse_proxy_conf("ovpn".to_string(), &ProxyConfigBuilder::generate_proxy_conf(&bare));
    assert_eq!(parsed.openvpn, bare.openvpn);
}
