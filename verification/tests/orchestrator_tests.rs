use proxy_vm_core::adapter::TeardownAction;
use proxy_vm_core::adapter::LibvirtAdapter;
use proxy_vm_core::command::CommandOutput;
use proxy_vm_core::config::{GlobalConfig, Template, TemplateRegistry};
use proxy_vm_core::error::Error;
use proxy_vm_core::model::{GatewayMode, ProxyHop, ProxyType};
use proxy_vm_core::orchestrator::{
    role_teardown_plan, Action, Event, Orchestrator, RoleRequest,
};

fn ok_cmd() -> Event {
    Event::Cmd(CommandOutput { exit_code: 0, stdout: String::new(), stderr: String::new() })
}

fn failed_cmd(stderr: &str) -> Event {
    Event::Cmd(CommandOutput { exit_code: 1, stdout: String::new(), stderr: stderr.to_string() })
}

fn op_ok() -> Event {
    Event::OpDone { ok: true, message: String::new() }
}

fn test_config() -> GlobalConfig {
    let mut config = GlobalConfig::default();
    config.cfg.root = "/home/user/VMS/VM-Proxy-configs".to_string();
    config
}

fn test_registry() -> TemplateRegistry {
    let mut registry = TemplateRegistry::default();
    let mut template = Template::new(
        "tpl-1".to_string(),
        "Debian base".to_string(),
        "/var/lib/libvirt/images/debian12-base.qcow2".to_string(),
        "debian12".to_string(),
        proxy_vm_core::model::RoleKind::ProxyGateway,
    );
    template.default_ram_mb = 512;
    registry.add(template).unwrap();
    registry
}

fn work_request() -> RoleRequest {
    RoleRequest {
        role_name: "work".to_string(),
        gw_template_id: Some("tpl-1".to_string()),
        app_template_id: None,
        disp_template_id: None,
        gateway_mode: GatewayMode::ProxyChain,
        hops: vec![ProxyHop::new(1, ProxyType::Socks5, "10.0.0.5".to_string(), 1080)],
        wg_filename: String::new(),
        wg_interface: String::new(),
        wg_route_all: false,
        ovpn_filename: String::new(),
        ovpn_auth: String::new(),
        ovpn_route_all: false,
    }
}

/// Drives the run up to and including the successful overlay creation.
fn drive_to_gateway_probe(m: &mut Orchestrator, network_pre_existing: bool) {
    // role directory preflight: absent
    match m.next_action().unwrap() {
        Action::ProbeDir(d) => assert_eq!(d, "/home/user/VMS/VM-Proxy-configs/work"),
        a => panic!("unexpected action {:?}", a),
    }
    m.advance(Event::DirStatus { dir_exists: false });
    // template file: present, a file, readable
    match m.next_action().unwrap() {
        Action::ProbePath(p) => assert_eq!(p, "/var/lib/libvirt/images/debian12-base.qcow2"),
        a => panic!("unexpected action {:?}", a),
    }
    m.advance(Event::PathStatus { path_exists: true, path_is_file: true, read_error: None });
    // the shared ingress network is there
    match m.next_action().unwrap() {
        Action::Run(q) => assert_eq!(q.args, vec!["net-info", "lan-net"]),
        a => panic!("unexpected action {:?}", a),
    }
    m.advance(ok_cmd());
    // the role network probe
    match m.next_action().unwrap() {
        Action::Run(q) => assert_eq!(q.args, vec!["net-info", "work-inet"]),
        a => panic!("unexpected action {:?}", a),
    }
    if network_pre_existing {
        m.advance(ok_cmd());
    } else {
        m.advance(failed_cmd("no network with matching name"));
        // define / autostart / start, from the written definition
        match m.next_action().unwrap() {
            Action::WriteFile { path, content } => {
                assert!(path.ends_with("net-work-inet.xml"));
                assert!(content.contains("<name>work-inet</name>"));
            }
            a => panic!("unexpected action {:?}", a),
        }
        m.advance(op_ok());
        match m.next_action().unwrap() {
            Action::Run(q) => assert_eq!(q.args[0], "net-define"),
            a => panic!("unexpected action {:?}", a),
        }
        m.advance(ok_cmd());
        match m.next_action().unwrap() {
            Action::Run(q) => assert_eq!(q.args, vec!["net-autostart", "work-inet"]),
            a => panic!("unexpected action {:?}", a),
        }
        m.advance(ok_cmd());
        match m.next_action().unwrap() {
            Action::Run(q) => assert_eq!(q.args, vec!["net-start", "work-inet"]),
            a => panic!("unexpected action {:?}", a),
        }
        m.advance(ok_cmd());
    }
    // materialize the role directory
    match m.next_action().unwrap() {
        Action::MakeDir(d) => assert_eq!(d, "/home/user/VMS/VM-Proxy-configs/work"),
        a => panic!("unexpected action {:?}", a),
    }
    m.advance(op_ok());
    // the gateway-mode configuration file
    match m.next_action().unwrap() {
        Action::WriteFile { path, content } => {
            assert!(path.ends_with("/work/proxy.conf"));
            assert!(content.contains("GATEWAY_MODE=PROXY_CHAIN"));
            assert!(content.contains("PROXY_1_HOST=10.0.0.5"));
            assert!(content.contains("PROXY_1_PORT=1080"));
        }
        a => panic!("unexpected action {:?}", a),
    }
    m.advance(op_ok());
    match m.next_action().unwrap() {
        Action::WriteExecutable { path, content } => {
            assert!(path.ends_with("/work/apply-proxy.sh"));
            assert!(content.contains("ROLE=\"work\""));
        }
        a => panic!("unexpected action {:?}", a),
    }
    m.advance(op_ok());
    // the overlay disk, backed by the selected template
    match m.next_action().unwrap() {
        Action::ProbeOverlay { template_path, overlay_path } => {
            assert_eq!(template_path, "/var/lib/libvirt/images/debian12-base.qcow2");
            assert_eq!(overlay_path, "/var/lib/libvirt/images/work-gw.qcow2");
        }
        a => panic!("unexpected action {:?}", a),
    }
    m.advance(Event::OverlayStatus {
        template_exists: true,
        overlay_exists: false,
        parent_exists: true,
    });
    match m.next_action().unwrap() {
        Action::Run(q) => {
            assert_eq!(
                q.args,
                vec![
                    "create",
                    "-f",
                    "qcow2",
                    "-F",
                    "qcow2",
                    "-b",
                    "/var/lib/libvirt/images/debian12-base.qcow2",
                    "/var/lib/libvirt/images/work-gw.qcow2"
                ]
            );
            assert!(q.elevated);
        }
        a => panic!("unexpected action {:?}", a),
    }
    m.advance(ok_cmd());
    // permission fix after the elevated creation
    match m.next_action().unwrap() {
        Action::Run(q) => assert_eq!(q.args, vec!["644", "/var/lib/libvirt/images/work-gw.qcow2"]),
        a => panic!("unexpected action {:?}", a),
    }
    m.advance(ok_cmd());
    // the duplicate probe for the gateway VM
    match m.next_action().unwrap() {
        Action::Run(q) => assert_eq!(q.args, vec!["dominfo", "work-gw"]),
        a => panic!("unexpected action {:?}", a),
    }
}

#[test]
fn end_to_end_role_creation() {
    let config = test_config();
    let registry = test_registry();
    let mut m = Orchestrator::start(LibvirtAdapter::new(), &config, &registry, work_request(), "/tmp");
    drive_to_gateway_probe(&mut m, false);
    m.advance(failed_cmd("domain not found")); // the gateway VM does not exist yet
    match m.next_action().unwrap() {
        Action::Run(q) => {
            assert!(q.args.contains(&"work-gw".to_string()));
            assert!(q.args.iter().any(|a| a.contains("network=lan-net")));
            assert!(q.args.iter().any(|a| a.contains("network=work-inet")));
            assert!(q.args.iter().any(|a| a.contains("work-gw.qcow2")));
        }
        a => panic!("unexpected action {:?}", a),
    }
    m.advance(ok_cmd());
    // the metadata record, then done; no app VM was requested
    match m.next_action().unwrap() {
        Action::StoreMeta(meta) => {
            assert_eq!(meta.role_name, "work");
            assert_eq!(meta.gateway_mode, GatewayMode::ProxyChain);
            assert_eq!(meta.gw_template_id, Some("tpl-1".to_string()));
            assert_eq!(meta.app_vm_count, 0);
        }
        a => panic!("unexpected action {:?}", a),
    }
    m.advance(op_ok());
    assert!(m.next_action().is_none());
    assert_eq!(m.take_outcome(), Some(Ok(())));
}

#[test]
fn end_to_end_failure_rolls_back_exactly_what_was_created() {
    let config = test_config();
    let registry = test_registry();
    let mut m = Orchestrator::start(LibvirtAdapter::new(), &config, &registry, work_request(), "/tmp");
    drive_to_gateway_probe(&mut m, false);
    m.advance(failed_cmd("domain not found"));
    match m.next_action().unwrap() {
        Action::Run(q) => assert!(q.args.contains(&"work-gw".to_string())),
        a => panic!("unexpected action {:?}", a),
    }
    // the VM creation step fails (tool exit code 1)
    m.advance(failed_cmd("install error text"));
    match m.next_action().unwrap() {
        Action::Teardown(acts) => {
            // overlay deleted, network destroyed (newly created), sparse
            // role directory removed — and no VM is ever touched
            assert!(acts
                .iter()
                .any(|a| *a == TeardownAction::DeleteOverlay(
                    "/var/lib/libvirt/images/work-gw.qcow2".to_string()
                )));
            assert!(acts
                .iter()
                .any(|a| *a == TeardownAction::DestroyNetwork("work-inet".to_string())));
            assert!(acts.iter().any(|a| *a
                == TeardownAction::RemoveDirIfSparse(
                    "/home/user/VMS/VM-Proxy-configs/work".to_string(),
                    3
                )));
            assert!(!acts.iter().any(|a| matches!(a, TeardownAction::DestroyVm(_))));
            assert!(!acts.iter().any(|a| matches!(a, TeardownAction::UndefineVm(_))));
        }
        a => panic!("unexpected action {:?}", a),
    }
    m.advance(op_ok());
    // after the rollback has run, the ledger is compensated and cleared
    assert!(m.ledger.network.is_none());
    assert!(m.ledger.role_dir.is_none());
    assert!(m.ledger.overlay.is_none());
    assert!(m.ledger.vm.is_none());
    match m.take_outcome() {
        Some(Err(Error::Libvirt(msg))) => {
            assert_eq!(msg, "Failed to create VM 'work-gw': install error text");
        }
        other => panic!("unexpected outcome {:?}", other),
    }
}

#[test]
fn pre_existing_network_is_never_rolled_back() {
    let config = test_config();
    let registry = test_registry();
    let mut m = Orchestrator::start(LibvirtAdapter::new(), &config, &registry, work_request(), "/tmp");
    drive_to_gateway_probe(&mut m, true); // the network already existed
    m.advance(ok_cmd()); // and the gateway VM also already exists: fatal
    match m.next_action().unwrap() {
        Action::Teardown(acts) => {
            assert!(!acts.iter().any(|a| matches!(a, TeardownAction::DestroyNetwork(_))));
            // the overlay this run created is still compensated
            assert!(acts.iter().any(|a| matches!(a, TeardownAction::DeleteOverlay(_))));
        }
        a => panic!("unexpected action {:?}", a),
    }
    m.advance(op_ok());
    match m.take_outcome() {
        Some(Err(Error::AlreadyExists(msg))) => {
            assert_eq!(msg, "VM 'work-gw' already exists");
        }
        other => panic!("unexpected outcome {:?}", other),
    }
}

#[test]
fn overlay_failure_leaves_no_vm_entry_and_scopes_the_network() {
    let config = test_config();
    let registry = test_registry();
    // run A: this run created the network, so rollback destroys it
    let mut m = Orchestrator::start(LibvirtAdapter::new(), &config, &registry, work_request(), "/tmp");
    drive_to_gateway_probe(&mut m, false);
    // rewind: fail at the overlay step instead — drive a fresh machine
    let mut m = Orchestrator::start(LibvirtAdapter::new(), &config, &registry, work_request(), "/tmp");
    for network_pre_existing in [false, true] {
        let mut m2 = Orchestrator::start(
            LibvirtAdapter::new(),
            &config,
            &registry,
            work_request(),
            "/tmp",
        );
        // walk to the overlay creation
        m2.advance(Event::DirStatus { dir_exists: false });
        m2.advance(Event::PathStatus { path_exists: true, path_is_file: true, read_error: None });
        m2.advance(ok_cmd()); // lan net
        if network_pre_existing {
            m2.advance(ok_cmd());
        } else {
            m2.advance(failed_cmd("missing"));
            m2.advance(op_ok()); // xml written
            m2.advance(ok_cmd()); // define
            m2.advance(ok_cmd()); // autostart
            m2.advance(ok_cmd()); // start
        }
        m2.advance(op_ok()); // role dir
        m2.advance(op_ok()); // conf
        m2.advance(op_ok()); // script
        m2.advance(Event::OverlayStatus {
            template_exists: true,
            overlay_exists: false,
            parent_exists: true,
        });
        m2.advance(failed_cmd("no space")); // overlay creation fails
        match m2.next_action().unwrap() {
            Action::Teardown(acts) => {
                assert!(!acts.iter().any(|a| matches!(a, TeardownAction::DestroyVm(_))));
                assert!(!acts.iter().any(|a| matches!(a, TeardownAction::UndefineVm(_))));
                assert!(!acts.iter().any(|a| matches!(a, TeardownAction::DeleteOverlay(_))));
                let destroys_network =
                    acts.iter().any(|a| matches!(a, TeardownAction::DestroyNetwork(_)));
                assert_eq!(destroys_network, !network_pre_existing);
            }
            a => panic!("unexpected action {:?}", a),
        }
        m2.advance(op_ok());
        match m2.take_outcome() {
            Some(Err(Error::Libvirt(msg))) => {
                assert_eq!(msg, "Failed to create overlay disk: no space");
            }
            other => panic!("unexpected outcome {:?}", other),
        }
    }
    let _ = m.next_action();
}

#[test]
fn invalid_role_names_reject_before_any_resource_is_touched() {
    let config = test_config();
    let registry = test_registry();
    let mut request = work_request();
    request.role_name = "Bad!Name".to_string();
    let mut m = Orchestrator::start(LibvirtAdapter::new(), &config, &registry, request, "/tmp");
    assert!(m.next_action().is_none());
    match m.take_outcome() {
        Some(Err(Error::Validation(msg))) => {
            assert!(msg.contains("lowercase letters"));
        }
        other => panic!("unexpected outcome {:?}", other),
    }
    // a name that normalizes cleanly goes on instead
    let mut request = work_request();
    request.role_name = "  Work ".to_string();
    let mut m = Orchestrator::start(LibvirtAdapter::new(), &config, &registry, request, "/tmp");
    assert!(m.next_action().is_some());
    let _ = m.next_action();
}

#[test]
fn role_deletion_is_exhaustive_and_best_effort() {
    let vms = vec!["work-app-1".to_string(), "disp-work-1".to_string()];
    let plan = role_teardown_plan("work", "/var/lib/libvirt/images", "/cfg", &vms);
    assert_eq!(plan.len(), 2 * vms.len() + 26);
    assert_eq!(plan[0], TeardownAction::DestroyVm("work-app-1".to_string()));
    assert_eq!(plan[1], TeardownAction::UndefineVm("work-app-1".to_string()));
    assert_eq!(plan[4], TeardownAction::DestroyVm("work-gw".to_string()));
    assert_eq!(plan[5], TeardownAction::UndefineVm("work-gw".to_string()));
    assert_eq!(
        plan[6],
        TeardownAction::DeleteOverlay("/var/lib/libvirt/images/work-gw.qcow2".to_string())
    );
    assert_eq!(
        plan[7],
        TeardownAction::DeleteOverlay(
            "/var/lib/libvirt/images/work-app-1-overlay.qcow2".to_string()
        )
    );
    assert_eq!(
        plan[26],
        TeardownAction::DeleteOverlay(
            "/var/lib/libvirt/images/work-app-20-overlay.qcow2".to_string()
        )
    );
    assert_eq!(plan[27], TeardownAction::RemoveDirAll("/cfg/work/disposable".to_string()));
    assert_eq!(plan[28], TeardownAction::DestroyNetwork("work-inet".to_string()));
    assert_eq!(plan[29], TeardownAction::RemoveDirAll("/cfg/work".to_string()));
}

#[test]
fn wireguard_runs_copy_the_selected_file_in() {
    let config = test_config();
    let registry = test_registry();
    let mut request = work_request();
    request.gateway_mode = GatewayMode::WireGuard;
    request.hops = vec![];
    request.wg_filename = "/home/user/Downloads/wg_vpn.conf".to_string();
    request.wg_interface = String::new();
    request.wg_route_all = true;
    let mut m = Orchestrator::start(LibvirtAdapter::new(), &config, &registry, request, "/tmp");
    m.advance(Event::DirStatus { dir_exists: false });
    m.advance(Event::PathStatus { path_exists: true, path_is_file: true, read_error: None });
    m.advance(ok_cmd()); // lan
    m.advance(ok_cmd()); // role net pre-exists
    m.advance(op_ok()); // role dir
    // the selected file is a real file: it is copied into the role directory
    match m.next_action().unwrap() {
        Action::ProbePath(p) => assert_eq!(p, "/home/user/Downloads/wg_vpn.conf"),
        a => panic!("unexpected action {:?}", a),
    }
    m.advance(Event::PathStatus { path_exists: true, path_is_file: true, read_error: None });
    match m.next_action().unwrap() {
        Action::CopyFile { from, to } => {
            assert_eq!(from, "/home/user/Downloads/wg_vpn.conf");
            assert_eq!(to, "/home/user/VMS/VM-Proxy-configs/work/wg_vpn.conf");
        }
        a => panic!("unexpected action {:?}", a),
    }
    m.advance(op_ok());
    // the written configuration references the copied file by its base name
    match m.next_action().unwrap() {
        Action::WriteFile { content, .. } => {
            assert!(content.contains("GATEWAY_MODE=WIREGUARD"));
            assert!(content.contains("WG_CONFIG_PATH=/proxy/wg_vpn.conf"));
            assert!(content.contains("WG_INTERFACE_NAME=wg0"));
            assert!(content.contains("WG_ROUTE_ALL_TRAFFIC=true"));
        }
        a => panic!("unexpected action {:?}", a),
    }
}

#[test]
fn duplicate_roles_are_rejected_with_nothing_created() {
    let config = test_config();
    let registry = test_registry();
    let mut m = Orchestrator::start(LibvirtAdapter::new(), &config, &registry, work_request(), "/tmp");
    m.advance(Event::DirStatus { dir_exists: true });
    assert!(m.next_action().is_none());
    match m.take_outcome() {
        Some(Err(Error::AlreadyExists(msg))) => assert_eq!(msg, "Role already exists"),
        other => panic!("unexpected outcome {:?}", other),
    }
}
