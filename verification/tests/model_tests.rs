use proxy_vm_core::model::{
    normalize_role_name, validate_role_name, ChainStrategy, GatewayMode, NetworkState,
    OpenVpnConfig, ProxyConfig, ProxyHop, ProxyType, RoleKind, VmKind, VmState, WireGuardConfig,
};

#[test]
fn test_vm_state_parsing() {
    assert_eq!(VmState::from_virsh_state("running"), VmState::Running);
    assert_eq!(VmState::from_virsh_state("Running"), VmState::Running);
    assert_eq!(VmState::from_virsh_state("shut off"), VmState::ShutOff);
    assert_eq!(VmState::from_virsh_state("paused"), VmState::Paused);
    assert_eq!(VmState::from_virsh_state("unknown"), VmState::Unknown);
}

#[test]
fn role_name_validation_accepts_the_allowed_shape() {
    assert!(validate_role_name("work").is_ok());
    assert!(validate_role_name("a").is_ok());
    assert!(validate_role_name("role-2_x").is_ok());
    assert!(validate_role_name("abcdefghijklmnopqrstuvwxyz012345").is_ok()); // 32 characters
}

#[test]
fn role_name_validation_rejects_before_anything_else_happens() {
    assert_eq!(
        validate_role_name(""),
        Err("Role name cannot be empty".to_string())
    );
    assert_eq!(
        validate_role_name("Work"),
        Err("Role name must contain only lowercase letters, numbers, underscores, and hyphens"
            .to_string())
    );
    assert_eq!(
        validate_role_name("has space"),
        Err("Role name must contain only lowercase letters, numbers, underscores, and hyphens"
            .to_string())
    );
    assert_eq!(
        validate_role_name("abcdefghijklmnopqrstuvwxyz0123456"), // 33 characters
        Err("Role name must be 32 characters or less".to_string())
    );
}

#[test]
fn normalization_lowercases_and_drops_whitespace() {
    assert_eq!(normalize_role_name("  My Role  "), "myrole");
    assert_eq!(normalize_role_name("WORK"), "work");
    assert_eq!(normalize_role_name("work"), "work");
}

#[test]
fn mode_and_type_names_are_fixed() {
    assert_eq!(GatewayMode::ProxyChain.as_str(), "PROXY_CHAIN");
    assert_eq!(GatewayMode::WireGuard.as_str(), "WIREGUARD");
    assert_eq!(GatewayMode::OpenVpn.as_str(), "OPENVPN");
    assert_eq!(ProxyType::Socks5.as_str(), "SOCKS5");
    assert_eq!(ProxyType::Http.proxychains_name(), "http");
    assert_eq!(ChainStrategy::StrictChain.as_str(), "strict_chain");
    assert_eq!(VmKind::ProxyGateway.display_name(), "Proxy/Gateway VM");
    assert_eq!(RoleKind::Generic.display_name(), "Generic");
    assert!(VmState::Running.is_running());
    assert!(!VmState::ShutOff.is_running());
    assert!(NetworkState::Active.is_active());
    assert!(!NetworkState::Unknown.is_active());
}

#[test]
fn hop_validation_rejects_empty_host_then_zero_port() {
    let good = ProxyHop::new(1, ProxyType::Socks5, "example.com".to_string(), 1080);
    assert!(good.validate().is_ok());
    let no_host = ProxyHop::new(1, ProxyType::Socks5, String::new(), 1080);
    assert_eq!(no_host.validate(), Err("Host cannot be empty".to_string()));
    let no_port = ProxyHop::new(1, ProxyType::Socks5, "example.com".to_string(), 0);
    assert_eq!(no_port.validate(), Err("Port must be greater than 0".to_string()));
}

#[test]
fn chain_validation_limits_hop_counts() {
    let mut config = ProxyConfig::new("work".to_string(), GatewayMode::ProxyChain);
    assert_eq!(
        config.validate(),
        Err("Proxy chain requires at least one hop".to_string())
    );
    for i in 0..9 {
        config.add_hop(ProxyHop::new(i + 1, ProxyType::Socks5, "h".to_string(), 1080));
    }
    assert_eq!(config.validate(), Err("Maximum 8 proxy hops allowed".to_string()));
}

#[test]
fn vpn_modes_require_their_configuration() {
    let mut wg = ProxyConfig::new("vpn".to_string(), GatewayMode::WireGuard);
    assert_eq!(
        wg.validate(),
        Err("WireGuard mode requires WireGuard config".to_string())
    );
    wg.wireguard = Some(WireGuardConfig {
        config_path: "/proxy/wg.conf".to_string(),
        interface_name: "wg0".to_string(),
        route_all_traffic: true,
    });
    assert!(wg.validate().is_ok());

    let mut ovpn = ProxyConfig::new("ovpn".to_string(), GatewayMode::OpenVpn);
    assert_eq!(
        ovpn.validate(),
        Err("OpenVPN mode requires OpenVPN config".to_string())
    );
    ovpn.openvpn = Some(OpenVpnConfig {
        config_path: String::new(),
        auth_file: None,
        route_all_traffic: false,
    });
    assert_eq!(
        ovpn.validate(),
        Err("OpenVPN config path cannot be empty".to_string())
    );
}
