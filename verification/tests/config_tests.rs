use proxy_vm_core::config::{GlobalConfig, RoleMeta, Template, TemplateRegistry, CONFIG_VERSION};
use proxy_vm_core::error::Error;
use proxy_vm_core::model::RoleKind;

#[test]
fn test_global_config_default() {
    let config = GlobalConfig::default();
    assert_eq!(config.version, CONFIG_VERSION);
    assert_eq!(config.libvirt.lan_net, "lan-net");
    assert_eq!(config.defaults.gateway_ram_mb, 1024); // Updated per virt-install recommendations
}

#[test]
fn test_template_registry() {
    let mut registry = TemplateRegistry::default();

    let template = Template::new(
        "test-1".to_string(),
        "Test Template".to_string(),
        "/tmp/test.qcow2".to_string(),
        "debian12".to_string(),
        RoleKind::ProxyGateway,
    );

    registry.add(template.clone()).unwrap();
    assert!(registry.get("test-1").is_some());

    // Can't add duplicate
    assert!(registry.add(template).is_err());

    // Can remove
    registry.remove("test-1").unwrap();
    assert!(registry.get("test-1").is_none());
}

#[test]
fn registry_errors_name_the_identifier() {
    let mut registry = TemplateRegistry::default();
    let template = Template::new(
        "x".to_string(),
        "X".to_string(),
        "/tmp/x.qcow2".to_string(),
        "debian12".to_string(),
        RoleKind::Generic,
    );
    match registry.update(template.clone()).unwrap_err() {
        Error::NotFound(m) => assert_eq!(m, "Template with ID 'x' not found"),
        other => panic!("unexpected error {:?}", other),
    }
    match registry.remove("x").unwrap_err() {
        Error::NotFound(m) => assert_eq!(m, "Template with ID 'x' not found"),
        other => panic!("unexpected error {:?}", other),
    }
    registry.add(template.clone()).unwrap();
    match registry.add(template).unwrap_err() {
        Error::AlreadyExists(m) => assert_eq!(m, "Template with ID 'x' already exists"),
        other => panic!("unexpected error {:?}", other),
    }
}

#[test]
fn registry_filters_by_role_kind() {
    let mut registry = TemplateRegistry::default();
    for (id, kind) in [
        ("gw", RoleKind::ProxyGateway),
        ("app", RoleKind::App),
        ("disp", RoleKind::DisposableApp),
        ("gen", RoleKind::Generic),
    ] {
        registry
            .add(Template::new(
                id.to_string(),
                id.to_string(),
                "/tmp/t.qcow2".to_string(),
                "debian12".to_string(),
                kind,
            ))
            .unwrap();
    }
    let gws: Vec<&str> = registry.get_gateway_templates().iter().map(|t| t.id.as_str()).collect();
    assert_eq!(gws, vec!["gw", "gen"]);
    let apps: Vec<&str> = registry.get_app_templates().iter().map(|t| t.id.as_str()).collect();
    assert_eq!(apps, vec!["app", "disp", "gen"]);
    assert_eq!(registry.list().len(), 4);
}

#[test]
fn generated_identifiers_look_like_identifiers() {
    let registry = TemplateRegistry::default();
    let id = registry.generate_id();
    assert_eq!(id.len(), 36);
    let other = registry.generate_id();
    assert_ne!(id, other);
}

#[test]
fn global_config_validation_enforces_the_floors() {
    let mut config = GlobalConfig::default();
    assert!(config.validate().is_ok());
    config.defaults.gateway_ram_mb = 64;
    match config.validate().unwrap_err() {
        Error::Validation(m) => assert_eq!(m, "Gateway RAM must be at least 128 MB"),
        other => panic!("unexpected error {:?}", other),
    }
    config.defaults.gateway_ram_mb = 1024;
    config.defaults.app_ram_mb = 100;
    match config.validate().unwrap_err() {
        Error::Validation(m) => assert_eq!(m, "App RAM must be at least 256 MB"),
        other => panic!("unexpected error {:?}", other),
    }
    config.defaults.app_ram_mb = 2048;
    config.libvirt.lan_net = String::new();
    match config.validate().unwrap_err() {
        Error::Validation(m) => assert_eq!(m, "LAN network name cannot be empty"),
        other => panic!("unexpected error {:?}", other),
    }
}

#[test]
fn role_metadata_mints_names_and_ordinals() {
    let mut meta = RoleMeta::new("work".to_string());
    assert_eq!(meta.version, CONFIG_VERSION);
    assert_eq!(meta.gw_vm_name(), "work-gw");
    assert_eq!(meta.role_net_name(), "work-inet");
    assert_eq!(meta.app_vm_name(3), "work-app-3");
    assert_eq!(meta.app_vm_count, 0);
    assert_eq!(meta.next_app_number(), 1);
    assert_eq!(meta.next_app_number(), 2);
    assert_eq!(meta.app_vm_count, 2);
    assert_eq!(
        RoleMeta::path_for_role("/root-cfg", "work"),
        "/root-cfg/work/role-meta.toml"
    );
}

#[test]
fn template_validation_judges_the_probed_file() {
    let t = Template::new(
        "t".to_string(),
        "T".to_string(),
        "/tmp/t.qcow2".to_string(),
        "debian12".to_string(),
        RoleKind::Generic,
    );
    assert!(t.validate(true, true, None).is_ok());
    match t.validate(false, false, None).unwrap_err() {
        Error::Template(m) => assert_eq!(m, "Template file does not exist: /tmp/t.qcow2"),
        other => panic!("unexpected error {:?}", other),
    }
    match t.validate(true, false, None).unwrap_err() {
        Error::Template(m) => assert_eq!(m, "Template path is not a file: /tmp/t.qcow2"),
        other => panic!("unexpected error {:?}", other),
    }
    match t.validate(true, true, Some("denied")).unwrap_err() {
        Error::Template(m) => assert_eq!(m, "Cannot access template file /tmp/t.qcow2: denied"),
        other => panic!("unexpected error {:?}", other),
    }
    assert!(t.is_present(true, true));
    assert!(!t.is_present(true, false));
}
