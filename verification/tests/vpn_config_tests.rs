use proxy_vm_core::vpn_config::{OpenVpnParsedConfig, WireGuardParsedConfig};

#[test]
fn test_wireguard_parse() {
    let content = "
[Interface]
PrivateKey = abc123
Address = 10.0.0.2/24
DNS = 1.1.1.1

# US Server
[Peer]
PublicKey = xyz789
Endpoint = us.example.com:51820
AllowedIPs = 0.0.0.0/0
";
    let config = WireGuardParsedConfig::parse(content).unwrap();
    assert_eq!(config.interface_address, Some("10.0.0.2/24".to_string()));
    assert_eq!(config.peers.len(), 1);
    assert_eq!(config.peers[0].name, Some("US Server".to_string()));
    assert_eq!(
        config.peers[0].endpoint,
        Some("us.example.com:51820".to_string())
    );
}

#[test]
fn test_openvpn_parse() {
    let content = "
client
dev tun
proto udp
remote us.example.com 1194
remote eu.example.com 1194 tcp
";
    let config = OpenVpnParsedConfig::parse(content).unwrap();
    assert_eq!(config.remotes.len(), 2);
    assert_eq!(config.remotes[0].host, "us.example.com");
    assert_eq!(config.remotes[0].port, Some(1194));
    assert_eq!(config.remotes[1].protocol, Some("tcp".to_string()));
}

#[test]
fn wireguard_peer_without_comment_is_named_after_its_endpoint_host() {
    let content = "[Peer]\nEndpoint = host.example.net:51820\nAllowedIPs = 0.0.0.0/0\n";
    let config = WireGuardParsedConfig::parse(content).unwrap();
    assert_eq!(config.peers.len(), 1);
    assert_eq!(config.peers[0].name, Some("host.example.net".to_string()));
    assert_eq!(config.display_name(), "host.example.net");
}

#[test]
fn display_names_fall_back_to_fixed_labels() {
    let wg = WireGuardParsedConfig::parse("[Interface]\nAddress = 10.0.0.2/24\n").unwrap();
    assert!(wg.peers.is_empty());
    assert_eq!(wg.display_name(), "WireGuard Config");

    let ovpn = OpenVpnParsedConfig::parse("client\ndev tun\n").unwrap();
    assert!(ovpn.remotes.is_empty());
    assert_eq!(ovpn.display_name(), "OpenVPN Config");

    let with_remote = OpenVpnParsedConfig::parse("remote a.example.com 1194\n").unwrap();
    assert_eq!(with_remote.display_name(), "a.example.com:1194");
}

#[test]
fn openvpn_comments_and_bad_ports_are_tolerated() {
    let content = "# a comment\n; another\nremote h.example.com notaport\nproto tcp\n";
    let config = OpenVpnParsedConfig::parse(content).unwrap();
    assert_eq!(config.remotes.len(), 1);
    assert_eq!(config.remotes[0].host, "h.example.com");
    assert_eq!(config.remotes[0].port, None);
    assert_eq!(config.protocol, Some("tcp".to_string()));
}
